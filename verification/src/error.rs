//! The failures of the shader pipeline. Each one is fatal to the build.

use vstd::prelude::*;

verus! {

/// Why a shader build cannot go on.
#[derive(Clone, Debug, PartialEq, Eq)]
pub enum ShaderError {
    /// The shader path has no extension to tell the stage by.
    MissingExtension,
    /// The shader path has an extension that names no stage.
    UnknownExtension { extension: String },
    /// The shader file could not be read as UTF-8 text.
    UnreadableFile { path: String },
    /// The shader source holds a NUL byte, which the driver would take for its end.
    NulInSource,
    /// The driver refused to compile a stage; `log` is what it said.
    CompileFailed { log: String },
    /// The driver refused to link the program; `log` is what it said.
    LinkFailed { log: String },
    /// There is no compiled stage to link.
    NoStages,
    /// The answer handed back is not one to the question that was asked.
    UnexpectedReply,
}

/// A `ShaderError` with its texts as character sequences.
pub enum ShaderErrorView {
    MissingExtension,
    UnknownExtension { extension: Seq<char> },
    UnreadableFile { path: Seq<char> },
    NulInSource,
    CompileFailed { log: Seq<char> },
    LinkFailed { log: Seq<char> },
    NoStages,
    UnexpectedReply,
}

impl View for ShaderError {
    type V = ShaderErrorView;

    open spec fn view(&self) -> ShaderErrorView {
        match self {
            ShaderError::MissingExtension => ShaderErrorView::MissingExtension,
            ShaderError::UnknownExtension { extension } => ShaderErrorView::UnknownExtension {
                extension: extension@,
            },
            ShaderError::UnreadableFile { path } => ShaderErrorView::UnreadableFile { path: path@ },
            ShaderError::NulInSource => ShaderErrorView::NulInSource,
            ShaderError::CompileFailed { log } => ShaderErrorView::CompileFailed { log: log@ },
            ShaderError::LinkFailed { log } => ShaderErrorView::LinkFailed { log: log@ },
            ShaderError::NoStages => ShaderErrorView::NoStages,
            ShaderError::UnexpectedReply => ShaderErrorView::UnexpectedReply,
        }
    }
}

impl ShaderErrorView {
    /// The diagnostic of this failure: a fixed heading, and below it the
    /// extension, the path or the driver's log where there is one.
    pub open spec fn message(self) -> Seq<char> {
        match self {
            ShaderErrorView::MissingExtension => "ERROR::SHADER::FAILED_TO_READ_EXTENSION"@,
            ShaderErrorView::UnknownExtension { extension } =>
                "ERROR::SHADER::FAILED_TO_PARSE_EXTENSION\n"@ + extension,
            ShaderErrorView::UnreadableFile { path } =>
                "ERROR:SHADER:FAILED_TO_READ_FILE\n"@ + path,
            ShaderErrorView::NulInSource => "ERROR::SHADER::SOURCE_CONTAINS_NUL"@,
            ShaderErrorView::CompileFailed { log } => "ERROR::SHADER::COMPILATION_FAILED\n"@ + log,
            ShaderErrorView::LinkFailed { log } => "ERROR::SHADER::COMPILATION_FAILED\n"@ + log,
            ShaderErrorView::NoStages => "ERROR::SHADER::NO_STAGES_TO_LINK"@,
            ShaderErrorView::UnexpectedReply => "ERROR::SHADER::UNEXPECTED_REPLY"@,
        }
    }
}

impl ShaderError {
    /// The diagnostic to abort with.
    pub fn message(&self) -> (text: String)
        ensures
            text@ == self@.message(),
    {
        match self {
            ShaderError::MissingExtension => String::from_str(
                "ERROR::SHADER::FAILED_TO_READ_EXTENSION",
            ),
            ShaderError::UnknownExtension { extension } => String::from_str(
                "ERROR::SHADER::FAILED_TO_PARSE_EXTENSION\n",
            ).concat(extension.as_str()),
            ShaderError::UnreadableFile { path } => String::from_str(
                "ERROR:SHADER:FAILED_TO_READ_FILE\n",
            ).concat(path.as_str()),
            ShaderError::NulInSource => String::from_str("ERROR::SHADER::SOURCE_CONTAINS_NUL"),
            ShaderError::CompileFailed { log } => String::from_str(
                "ERROR::SHADER::COMPILATION_FAILED\n",
            ).concat(log.as_str()),
            ShaderError::LinkFailed { log } => String::from_str(
                "ERROR::SHADER::COMPILATION_FAILED\n",
            ).concat(log.as_str()),
            ShaderError::NoStages => String::from_str("ERROR::SHADER::NO_STAGES_TO_LINK"),
            ShaderError::UnexpectedReply => String::from_str("ERROR::SHADER::UNEXPECTED_REPLY"),
        }
    }
}

} // verus!

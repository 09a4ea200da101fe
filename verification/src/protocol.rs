//! The conversation between the library and whoever holds the graphics
//! context.
//!
//! A `Command` is a driver call without an answer, a `Query` one whose answer
//! the library needs, and a `Reply` that answer. A `Step` is one turn of the
//! conversation.

use vstd::prelude::*;
use crate::values::UniformValue;
use crate::error::{ShaderError, ShaderErrorView};

verus! {

/// A driver call that answers nothing.
#[derive(Clone, Debug, PartialEq, Eq)]
pub enum Command {
    /// Give the stage object its source text.
    ShaderSource { shader: u32, source: String },
    /// Compile the stage object.
    CompileShader { shader: u32 },
    /// Attach the stage object to the program.
    AttachShader { program: u32, shader: u32 },
    /// Link the program.
    LinkProgram { program: u32 },
    /// Delete the stage object.
    DeleteShader { shader: u32 },
    /// Bind the program as the current one.
    UseProgram { program: u32 },
    /// Look the named uniform up in the program and write the value to where
    /// it is. A name that the program does not declare makes this a no-op.
    SetUniform { program: u32, name: String, value: UniformValue },
}

/// A `Command` with its texts as character sequences.
pub enum CommandView {
    ShaderSource { shader: u32, source: Seq<char> },
    CompileShader { shader: u32 },
    AttachShader { program: u32, shader: u32 },
    LinkProgram { program: u32 },
    DeleteShader { shader: u32 },
    UseProgram { program: u32 },
    SetUniform { program: u32, name: Seq<char>, value: UniformValue },
}

impl View for Command {
    type V = CommandView;

    open spec fn view(&self) -> CommandView {
        match self {
            Command::ShaderSource { shader, source } => CommandView::ShaderSource {
                shader: *shader,
                source: source@,
            },
            Command::CompileShader { shader } => CommandView::CompileShader { shader: *shader },
            Command::AttachShader { program, shader } => CommandView::AttachShader {
                program: *program,
                shader: *shader,
            },
            Command::LinkProgram { program } => CommandView::LinkProgram { program: *program },
            Command::DeleteShader { shader } => CommandView::DeleteShader { shader: *shader },
            Command::UseProgram { program } => CommandView::UseProgram { program: *program },
            Command::SetUniform { program, name, value } => CommandView::SetUniform {
                program: *program,
                name: name@,
                value: *value,
            },
        }
    }
}

impl DeepView for Command {
    type V = CommandView;

    open spec fn deep_view(&self) -> CommandView {
        self@
    }
}

/// A question to the driver, or to the file system.
#[derive(Clone, Debug, PartialEq, Eq)]
pub enum Query {
    /// Create a program object. Answer: `Reply::Handle`.
    CreateProgram,
    /// Create a stage object of the kind with this tag. Answer: `Reply::Handle`.
    CreateShader { kind: u32 },
    /// Did the stage object compile? Answer: `Reply::Int`.
    CompileStatus { shader: u32 },
    /// What did the compiler say of the stage object? Answer: `Reply::Log`.
    ShaderInfoLog { shader: u32 },
    /// Did the program link? Answer: `Reply::Int`.
    LinkStatus { program: u32 },
    /// What did the linker say of the program? Answer: `Reply::Log`.
    ProgramInfoLog { program: u32 },
    /// Which program is bound? Answer: `Reply::Int`.
    CurrentProgram,
    /// Read the file as UTF-8 text. Answer: `Reply::Text`.
    ReadFile { path: String },
}

/// A `Query` with its texts as character sequences.
pub enum QueryView {
    CreateProgram,
    CreateShader { kind: u32 },
    CompileStatus { shader: u32 },
    ShaderInfoLog { shader: u32 },
    LinkStatus { program: u32 },
    ProgramInfoLog { program: u32 },
    CurrentProgram,
    ReadFile { path: Seq<char> },
}

impl View for Query {
    type V = QueryView;

    open spec fn view(&self) -> QueryView {
        match self {
            Query::CreateProgram => QueryView::CreateProgram,
            Query::CreateShader { kind } => QueryView::CreateShader { kind: *kind },
            Query::CompileStatus { shader } => QueryView::CompileStatus { shader: *shader },
            Query::ShaderInfoLog { shader } => QueryView::ShaderInfoLog { shader: *shader },
            Query::LinkStatus { program } => QueryView::LinkStatus { program: *program },
            Query::ProgramInfoLog { program } => QueryView::ProgramInfoLog { program: *program },
            Query::CurrentProgram => QueryView::CurrentProgram,
            Query::ReadFile { path } => QueryView::ReadFile { path: path@ },
        }
    }
}

/// An answer to a `Query`.
#[derive(Clone, Debug, PartialEq, Eq)]
pub enum Reply {
    /// The name of a new driver object.
    Handle(u32),
    /// An integer that the driver keeps: a status flag, or a bound object.
    Int(i32),
    /// The bytes of a diagnostic log, as long as the driver wrote it.
    Log(Vec<u8>),
    /// The text of a file, or `None` where it could not be read.
    Text(Option<String>),
}

/// A `Reply` with its contents as sequences.
pub enum ReplyView {
    Handle(u32),
    Int(i32),
    Log(Seq<u8>),
    Text(Option<Seq<char>>),
}

impl View for Reply {
    type V = ReplyView;

    open spec fn view(&self) -> ReplyView {
        match self {
            Reply::Handle(h) => ReplyView::Handle(*h),
            Reply::Int(i) => ReplyView::Int(*i),
            Reply::Log(bytes) => ReplyView::Log(bytes@),
            Reply::Text(text) => ReplyView::Text(text.deep_view()),
        }
    }
}

/// Whether `reply` is of the kind that answers `query`.
pub open spec fn answers(query: QueryView, reply: ReplyView) -> bool {
    match query {
        QueryView::CreateProgram => reply is Handle,
        QueryView::CreateShader { .. } => reply is Handle,
        QueryView::CompileStatus { .. } => reply is Int,
        QueryView::ShaderInfoLog { .. } => reply is Log,
        QueryView::LinkStatus { .. } => reply is Int,
        QueryView::ProgramInfoLog { .. } => reply is Log,
        QueryView::CurrentProgram => reply is Int,
        QueryView::ReadFile { .. } => reply is Text,
    }
}

/// One turn of a job.
#[derive(Clone, Debug, PartialEq, Eq)]
pub enum Step<J, T> {
    /// Run `commands` in order, put `query`, and resume `job` with the answer.
    Ask { commands: Vec<Command>, query: Query, job: J },
    /// Run `commands` in order; the job has ended with `value`.
    Done { commands: Vec<Command>, value: T },
    /// Abort with `error`. Nothing more is to be run.
    Fatal { error: ShaderError },
}

/// A `Step` over the views of its parts.
pub enum StepView<J, T> {
    Ask { commands: Seq<CommandView>, query: QueryView, job: J },
    Done { commands: Seq<CommandView>, value: T },
    Fatal { error: ShaderErrorView },
}

impl<J: View, T: View> View for Step<J, T> {
    type V = StepView<J::V, T::V>;

    open spec fn view(&self) -> StepView<J::V, T::V> {
        match self {
            Step::Ask { commands, query, job } => StepView::Ask {
                commands: commands.deep_view(),
                query: query@,
                job: job@,
            },
            Step::Done { commands, value } => StepView::Done {
                commands: commands.deep_view(),
                value: value@,
            },
            Step::Fatal { error } => StepView::Fatal { error: error@ },
        }
    }
}

/// The program that is bound once `commands` have run in order, where
/// `before` was bound when they began.
pub open spec fn bound_after(commands: Seq<CommandView>, before: u32) -> u32
    decreases commands.len(),
{
    if commands.len() == 0 {
        before
    } else {
        match commands.last() {
            CommandView::UseProgram { program } => program,
            _ => bound_after(commands.drop_last(), before),
        }
    }
}

} // verus!

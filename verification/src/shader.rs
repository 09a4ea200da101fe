//! Building a shader program: stages are compiled one by one, then linked.

use vstd::prelude::*;
use vstd::utf8::*;
use crate::driver::{
    bare_name_extension, decode_log, extension_fits, gl_fragment_shader, gl_true,
    gl_vertex_shader, is_bare_name, log_text, path_extension,
};
use crate::error::{ShaderError, ShaderErrorView};
use crate::protocol::{Command, CommandView, Query, QueryView, Reply, ReplyView, Step, StepView};

verus! {

/// The kind of a shader stage.
#[derive(Clone, Copy, Debug, PartialEq, Eq, Structural)]
pub enum ShaderType {
    Vertex,
    Fragment,
}

impl ShaderType {
    /// The tag by which the driver knows this kind of stage.
    pub open spec fn tag(self) -> u32 {
        match self {
            ShaderType::Vertex => 0x8B31,
            ShaderType::Fragment => 0x8B30,
        }
    }

    /// The kind of stage that a file extension stands for: `vert` for a
    /// vertex stage, `frag` for a fragment stage, and nothing else.
    pub open spec fn of_extension(extension: Seq<char>) -> Option<ShaderType> {
        if extension == "vert"@ {
            Some(ShaderType::Vertex)
        } else if extension == "frag"@ {
            Some(ShaderType::Fragment)
        } else {
            None
        }
    }

    /// Tells the kind of stage by a file extension, and hands an extension
    /// that names none back as the error.
    pub fn from_ext(ext: &str) -> (kind: Result<ShaderType, String>)
        ensures
            match kind {
                Ok(k) => ShaderType::of_extension(ext@) == Some(k),
                Err(e) => ShaderType::of_extension(ext@) is None && e@ == ext@,
            },
    {
        if same_text(ext, "vert") {
            Ok(ShaderType::Vertex)
        } else if same_text(ext, "frag") {
            Ok(ShaderType::Fragment)
        } else {
            Err(String::from_str(ext))
        }
    }
}

impl From<ShaderType> for u32 {
    /// The tag to create a stage of this kind with.
    fn from(kind: ShaderType) -> (tag: u32) {
        match kind {
            ShaderType::Vertex => gl_vertex_shader(),
            ShaderType::Fragment => gl_fragment_shader(),
        }
    }
}

impl vstd::std_specs::convert::FromSpecImpl<ShaderType> for u32 {
    open spec fn obeys_from_spec() -> bool {
        true
    }

    open spec fn from_spec(kind: ShaderType) -> u32 {
        kind.tag()
    }
}

fn same_text(a: &str, b: &str) -> (same: bool)
    ensures
        same == (a@ == b@),
{
    String::from_str(a) == String::from_str(b)
}

/// Whether a status that the driver reports stands for success.
pub open spec fn succeeded(status: i32) -> bool {
    status == 1
}

fn status_ok(status: i32) -> (ok: bool)
    ensures
        ok == succeeded(status),
{
    let yes: u8 = gl_true();
    status == yes as i32
}

/// Whether the UTF-8 encoding of `source` holds a NUL byte, at which the
/// driver would take the source to end.
pub open spec fn has_nul(source: Seq<char>) -> bool {
    encode_utf8(source).contains(0u8)
}

fn contains_nul(source: &str) -> (found: bool)
    ensures
        found == has_nul(source@),
{
    let bytes = source.as_bytes();
    let mut i: usize = 0;
    while i < bytes.len()
        invariant
            i <= bytes.len(),
            bytes@ == encode_utf8(source@),
            forall|j: int| 0 <= j < i ==> bytes@[j] != 0u8,
        decreases bytes.len() - i,
    {
        if bytes[i] == 0 {
            return true;
        }
        i += 1;
    }
    false
}

/// A linked, executable program on the GPU.
#[derive(Clone, Copy, Debug, PartialEq, Eq, Structural)]
pub struct Shader {
    pub pid: u32,
}

impl View for Shader {
    type V = Shader;

    open spec fn view(&self) -> Shader {
        *self
    }
}

impl Shader {
    /// The command that binds this program as the current one.
    pub fn activate(&self) -> (command: Command)
        ensures
            command@ == (CommandView::UseProgram { program: self.pid }),
    {
        Command::UseProgram { program: self.pid }
    }
}

/// A program under construction: its handle, and the stages compiled for it
/// so far, in the order in which they were compiled.
#[derive(Clone, Debug, PartialEq, Eq)]
pub struct ShaderBuilder {
    pid: u32,
    shaders: Vec<u32>,
}

/// What a `ShaderBuilder` holds.
pub struct ShaderBuilderView {
    pub pid: u32,
    pub stages: Seq<u32>,
}

impl View for ShaderBuilder {
    type V = ShaderBuilderView;

    closed spec fn view(&self) -> ShaderBuilderView {
        ShaderBuilderView { pid: self.pid, stages: self.shaders@ }
    }
}

/// The making of a builder, under way: it waits for the handle of the
/// program that the driver creates.
#[derive(Clone, Debug, PartialEq, Eq)]
pub struct CreateJob {}

impl View for CreateJob {
    type V = ();

    open spec fn view(&self) -> () {
        ()
    }
}

/// The first turn of making a builder: a program object is asked for.
pub open spec fn create_begin() -> StepView<(), ShaderBuilderView> {
    StepView::Ask { commands: Seq::empty(), query: QueryView::CreateProgram, job: () }
}

/// The turn that the making of a builder takes on an answer: the handle
/// that comes is that of the builder's program, which has no stage yet. An
/// answer of another kind is fatal.
pub open spec fn create_resume(reply: ReplyView) -> StepView<(), ShaderBuilderView> {
    match reply {
        ReplyView::Handle(pid) => StepView::Done {
            commands: Seq::empty(),
            value: ShaderBuilderView { pid, stages: Seq::empty() },
        },
        _ => StepView::Fatal { error: ShaderErrorView::UnexpectedReply },
    }
}

impl CreateJob {
    /// Takes the answer to the query that this job put.
    pub fn resume(self, reply: Reply) -> (step: Step<CreateJob, ShaderBuilder>)
        ensures
            step@ == create_resume(reply@),
    {
        match reply {
            Reply::Handle(pid) => {
                let step = Step::Done {
                    commands: Vec::new(),
                    value: ShaderBuilder { pid, shaders: Vec::new() },
                };
                assert(step@->Done_commands =~= Seq::<CommandView>::empty());
                step
            },
            _ => Step::Fatal { error: ShaderError::UnexpectedReply },
        }
    }
}

/// Where a compile job stands.
#[derive(Clone, Debug, PartialEq, Eq)]
enum CompileStage {
    Reading { path: String },
    Creating { source: String },
    Checking { shader: u32 },
    Explaining { shader: u32 },
}

/// Where a compile job stands: waiting for the text of the file at `path`,
/// for the stage object that will take `source`, for the compile status of
/// `shader`, or for the log that explains its failure.
pub enum CompileStageView {
    Reading { path: Seq<char> },
    Creating { source: Seq<char> },
    Checking { shader: u32 },
    Explaining { shader: u32 },
}

impl View for CompileStage {
    type V = CompileStageView;

    closed spec fn view(&self) -> CompileStageView {
        match self {
            CompileStage::Reading { path } => CompileStageView::Reading { path: path@ },
            CompileStage::Creating { source } => CompileStageView::Creating { source: source@ },
            CompileStage::Checking { shader } => CompileStageView::Checking { shader: *shader },
            CompileStage::Explaining { shader } => CompileStageView::Explaining { shader: *shader },
        }
    }
}

/// The compilation of one stage for a builder, under way.
#[derive(Clone, Debug, PartialEq, Eq)]
pub struct CompileJob {
    builder: ShaderBuilder,
    kind: ShaderType,
    stage: CompileStage,
}

/// What a `CompileJob` holds.
pub struct CompileJobView {
    pub builder: ShaderBuilderView,
    pub kind: ShaderType,
    pub stage: CompileStageView,
}

impl View for CompileJob {
    type V = CompileJobView;

    closed spec fn view(&self) -> CompileJobView {
        CompileJobView { builder: self.builder@, kind: self.kind, stage: self.stage@ }
    }
}

/// The first turn of compiling `source` as a stage of `kind`: whatever the
/// source holds, a stage object of that kind is asked for.
pub open spec fn compile_begin(
    builder: ShaderBuilderView,
    source: Seq<char>,
    kind: ShaderType,
) -> StepView<CompileJobView, ShaderBuilderView> {
    StepView::Ask {
        commands: Seq::empty(),
        query: QueryView::CreateShader { kind: kind.tag() },
        job: CompileJobView { builder, kind, stage: CompileStageView::Creating { source } },
    }
}

/// The first turn of attaching the shader file at `path`, whose extension is
/// `extension`: without an extension, or with one that names no stage, the
/// job fails at once; else the file's text is asked for.
pub open spec fn attach_begin(
    builder: ShaderBuilderView,
    path: Seq<char>,
    extension: Option<Seq<char>>,
) -> StepView<CompileJobView, ShaderBuilderView> {
    match extension {
        None => StepView::Fatal { error: ShaderErrorView::MissingExtension },
        Some(e) => match ShaderType::of_extension(e) {
            None => StepView::Fatal { error: ShaderErrorView::UnknownExtension { extension: e } },
            Some(kind) => StepView::Ask {
                commands: Seq::empty(),
                query: QueryView::ReadFile { path },
                job: CompileJobView { builder, kind, stage: CompileStageView::Reading { path } },
            },
        },
    }
}

/// The turn that a compile job takes on an answer.
///
/// A text that was read is compiled; a file that could not be read is fatal.
/// Once the stage object is there, a source with a NUL byte is fatal, and
/// nothing is handed to the driver; any other source is given to the stage
/// object and compiled, and its status asked for. On success the stage joins
/// the builder, behind the stages it has; on any other status the log is
/// asked for, and the log that comes is fatal.
/// An answer of a kind that was not asked for is fatal too.
pub open spec fn compile_resume(job: CompileJobView, reply: ReplyView) -> StepView<
    CompileJobView,
    ShaderBuilderView,
> {
    match (job.stage, reply) {
        (CompileStageView::Reading { path }, ReplyView::Text(Some(source))) => compile_begin(
            job.builder,
            source,
            job.kind,
        ),
        (CompileStageView::Reading { path }, ReplyView::Text(None)) => StepView::Fatal {
            error: ShaderErrorView::UnreadableFile { path },
        },
        (CompileStageView::Creating { source }, ReplyView::Handle(shader)) => if has_nul(source) {
            StepView::Fatal { error: ShaderErrorView::NulInSource }
        } else {
            StepView::Ask {
                commands: seq![
                    CommandView::ShaderSource { shader, source },
                    CommandView::CompileShader { shader },
                ],
                query: QueryView::CompileStatus { shader },
                job: CompileJobView {
                    builder: job.builder,
                    kind: job.kind,
                    stage: CompileStageView::Checking { shader },
                },
            }
        },
        (CompileStageView::Checking { shader }, ReplyView::Int(status)) => if succeeded(status) {
            StepView::Done {
                commands: Seq::empty(),
                value: ShaderBuilderView {
                    pid: job.builder.pid,
                    stages: job.builder.stages.push(shader),
                },
            }
        } else {
            StepView::Ask {
                commands: Seq::empty(),
                query: QueryView::ShaderInfoLog { shader },
                job: CompileJobView {
                    builder: job.builder,
                    kind: job.kind,
                    stage: CompileStageView::Explaining { shader },
                },
            }
        },
        (CompileStageView::Explaining { shader }, ReplyView::Log(bytes)) => StepView::Fatal {
            error: ShaderErrorView::CompileFailed { log: log_text(bytes) },
        },
        _ => StepView::Fatal { error: ShaderErrorView::UnexpectedReply },
    }
}

impl CompileJob {
    /// Takes the answer to the query that this job put last.
    pub fn resume(self, reply: Reply) -> (step: Step<CompileJob, ShaderBuilder>)
        ensures
            step@ == compile_resume(self@, reply@),
    {
        let CompileJob { builder, kind, stage } = self;
        match stage {
            CompileStage::Reading { path } => match reply {
                Reply::Text(Some(source)) => builder.compile(source.as_str(), kind),
                Reply::Text(None) => Step::Fatal { error: ShaderError::UnreadableFile { path } },
                _ => Step::Fatal { error: ShaderError::UnexpectedReply },
            },
            CompileStage::Creating { source } => match reply {
                Reply::Handle(shader) => {
                    if contains_nul(source.as_str()) {
                        Step::Fatal { error: ShaderError::NulInSource }
                    } else {
                        let mut commands: Vec<Command> = Vec::new();
                        commands.push(Command::ShaderSource { shader, source });
                        commands.push(Command::CompileShader { shader });
                        let step = Step::Ask {
                            commands,
                            query: Query::CompileStatus { shader },
                            job: CompileJob {
                                builder,
                                kind,
                                stage: CompileStage::Checking { shader },
                            },
                        };
                        assert(step@->Ask_commands =~= compile_resume(
                            self@,
                            reply@,
                        )->Ask_commands);
                        step
                    }
                },
                _ => Step::Fatal { error: ShaderError::UnexpectedReply },
            },
            CompileStage::Checking { shader } => match reply {
                Reply::Int(status) => {
                    if status_ok(status) {
                        let mut builder = builder;
                        builder.shaders.push(shader);
                        let step = Step::Done { commands: Vec::new(), value: builder };
                        assert(step@->Done_commands =~= Seq::<CommandView>::empty());
                        step
                    } else {
                        let step = Step::Ask {
                            commands: Vec::new(),
                            query: Query::ShaderInfoLog { shader },
                            job: CompileJob {
                                builder,
                                kind,
                                stage: CompileStage::Explaining { shader },
                            },
                        };
                        assert(step@->Ask_commands =~= Seq::<CommandView>::empty());
                        step
                    }
                },
                _ => Step::Fatal { error: ShaderError::UnexpectedReply },
            },
            CompileStage::Explaining { shader } => match reply {
                Reply::Log(bytes) => Step::Fatal {
                    error: ShaderError::CompileFailed { log: decode_log(&bytes) },
                },
                _ => Step::Fatal { error: ShaderError::UnexpectedReply },
            },
        }
    }
}

/// Where a link job stands: waiting for the link status, or for the log
/// that explains the failure.
#[derive(Clone, Copy, Debug, PartialEq, Eq, Structural)]
pub enum LinkStage {
    Checking,
    Explaining,
}

/// The linking of a builder's program, under way.
#[derive(Clone, Debug, PartialEq, Eq)]
pub struct LinkJob {
    builder: ShaderBuilder,
    stage: LinkStage,
}

/// What a `LinkJob` holds.
pub struct LinkJobView {
    pub builder: ShaderBuilderView,
    pub stage: LinkStage,
}

impl View for LinkJob {
    type V = LinkJobView;

    closed spec fn view(&self) -> LinkJobView {
        LinkJobView { builder: self.builder@, stage: self.stage }
    }
}

/// One attach command for each stage of the builder, in the stages' order.
pub open spec fn attach_all(builder: ShaderBuilderView) -> Seq<CommandView> {
    Seq::new(
        builder.stages.len(),
        |i: int| CommandView::AttachShader { program: builder.pid, shader: builder.stages[i] },
    )
}

/// One delete command for each stage of the builder, in the stages' order.
pub open spec fn delete_all(builder: ShaderBuilderView) -> Seq<CommandView> {
    Seq::new(
        builder.stages.len(),
        |i: int| CommandView::DeleteShader { shader: builder.stages[i] },
    )
}

/// The first turn of linking: a builder without a stage fails at once; else
/// every stage is attached, the program linked and its status asked for.
pub open spec fn link_begin(builder: ShaderBuilderView) -> StepView<LinkJobView, Shader> {
    if builder.stages.len() == 0 {
        StepView::Fatal { error: ShaderErrorView::NoStages }
    } else {
        StepView::Ask {
            commands: attach_all(builder).push(CommandView::LinkProgram { program: builder.pid }),
            query: QueryView::LinkStatus { program: builder.pid },
            job: LinkJobView { builder, stage: LinkStage::Checking },
        }
    }
}

/// The turn that a link job takes on an answer.
///
/// On success every stage is deleted and the program handed out; on any
/// other status the log is asked for, and the log that comes is fatal. An
/// answer of a kind that was not asked for is fatal too.
pub open spec fn link_resume(job: LinkJobView, reply: ReplyView) -> StepView<LinkJobView, Shader> {
    match (job.stage, reply) {
        (LinkStage::Checking, ReplyView::Int(status)) => if succeeded(status) {
            StepView::Done {
                commands: delete_all(job.builder),
                value: Shader { pid: job.builder.pid },
            }
        } else {
            StepView::Ask {
                commands: Seq::empty(),
                query: QueryView::ProgramInfoLog { program: job.builder.pid },
                job: LinkJobView { builder: job.builder, stage: LinkStage::Explaining },
            }
        },
        (LinkStage::Explaining, ReplyView::Log(bytes)) => StepView::Fatal {
            error: ShaderErrorView::LinkFailed { log: log_text(bytes) },
        },
        _ => StepView::Fatal { error: ShaderErrorView::UnexpectedReply },
    }
}

impl LinkJob {
    /// Takes the answer to the query that this job put last.
    pub fn resume(self, reply: Reply) -> (step: Step<LinkJob, Shader>)
        ensures
            step@ == link_resume(self@, reply@),
    {
        let LinkJob { builder, stage } = self;
        match stage {
            LinkStage::Checking => match reply {
                Reply::Int(status) => {
                    if status_ok(status) {
                        let mut commands: Vec<Command> = Vec::new();
                        let mut i: usize = 0;
                        while i < builder.shaders.len()
                            invariant
                                i <= builder.shaders.len(),
                                commands@.len() == i,
                                forall|j: int|
                                    0 <= j < i ==> (#[trigger] commands@[j])@ == (
                                    CommandView::DeleteShader { shader: builder.shaders@[j] }),
                            decreases builder.shaders.len() - i,
                        {
                            commands.push(Command::DeleteShader { shader: builder.shaders[i] });
                            i += 1;
                        }
                        assert(commands.deep_view() =~= delete_all(builder@));
                        Step::Done { commands, value: Shader { pid: builder.pid } }
                    } else {
                        let step = Step::Ask {
                            commands: Vec::new(),
                            query: Query::ProgramInfoLog { program: builder.pid },
                            job: LinkJob { builder, stage: LinkStage::Explaining },
                        };
                        assert(step@->Ask_commands =~= Seq::<CommandView>::empty());
                        step
                    }
                },
                _ => Step::Fatal { error: ShaderError::UnexpectedReply },
            },
            LinkStage::Explaining => match reply {
                Reply::Log(bytes) => Step::Fatal {
                    error: ShaderError::LinkFailed { log: decode_log(&bytes) },
                },
                _ => Step::Fatal { error: ShaderError::UnexpectedReply },
            },
        }
    }
}

impl ShaderBuilder {
    /// Starts making a builder for a new program.
    pub fn new() -> (step: Step<CreateJob, ShaderBuilder>)
        ensures
            step@ == create_begin(),
    {
        let step = Step::Ask {
            commands: Vec::new(),
            query: Query::CreateProgram,
            job: CreateJob {},
        };
        assert(step@->Ask_commands =~= Seq::<CommandView>::empty());
        step
    }

    /// The handle of the program under construction.
    pub fn pid(&self) -> (pid: u32)
        ensures
            pid == self@.pid,
    {
        self.pid
    }

    /// The stages compiled so far, in the order in which they were compiled.
    pub fn stages(&self) -> (stages: &Vec<u32>)
        ensures
            stages@ == self@.stages,
    {
        &self.shaders
    }

    /// Starts compiling `shader_src` as a stage of this builder's program.
    pub fn compile(self, shader_src: &str, shader_type: ShaderType) -> (step: Step<
        CompileJob,
        ShaderBuilder,
    >)
        ensures
            step@ == compile_begin(self@, shader_src@, shader_type),
    {
        let step = Step::Ask {
            commands: Vec::new(),
            query: Query::CreateShader { kind: shader_type.into() },
            job: CompileJob {
                builder: self,
                kind: shader_type,
                stage: CompileStage::Creating { source: String::from_str(shader_src) },
            },
        };
        assert(step@->Ask_commands =~= Seq::<CommandView>::empty());
        step
    }

    /// Starts attaching the shader file at `shader_path`, whose extension is
    /// `extension`.
    pub fn attach_with_extension(self, shader_path: &str, extension: Option<&str>) -> (step: Step<
        CompileJob,
        ShaderBuilder,
    >)
        ensures
            step@ == attach_begin(self@, shader_path@, extension.deep_view()),
    {
        match extension {
            None => Step::Fatal { error: ShaderError::MissingExtension },
            Some(e) => match ShaderType::from_ext(e) {
                Err(unknown) => Step::Fatal {
                    error: ShaderError::UnknownExtension { extension: unknown },
                },
                Ok(kind) => {
                    let step = Step::Ask {
                        commands: Vec::new(),
                        query: Query::ReadFile { path: String::from_str(shader_path) },
                        job: CompileJob {
                            builder: self,
                            kind,
                            stage: CompileStage::Reading { path: String::from_str(shader_path) },
                        },
                    };
                    assert(step@->Ask_commands =~= Seq::<CommandView>::empty());
                    step
                },
            },
        }
    }

    /// Starts attaching the shader file at `shader_path`: the path's
    /// extension is taken, and the job goes on as `attach_with_extension`
    /// says for that extension. A bare file name goes by what follows its
    /// last dot; a path without a dot has no extension; of any other path
    /// the platform's path syntax decides which extension it has.
    pub fn attach_shader(self, shader_path: &str) -> (step: Step<CompileJob, ShaderBuilder>)
        ensures
            is_bare_name(shader_path@) ==> step@ == attach_begin(
                self@,
                shader_path@,
                bare_name_extension(shader_path@),
            ),
            !shader_path@.contains('.') ==> step@ == attach_begin(self@, shader_path@, None),
            exists|extension: Option<Seq<char>>|
                extension_fits(shader_path@, extension) && step@ == #[trigger] attach_begin(
                    self@,
                    shader_path@,
                    extension,
                ),
    {
        let extension = path_extension(shader_path);
        let step = match &extension {
            Some(e) => self.attach_with_extension(shader_path, Some(e.as_str())),
            None => self.attach_with_extension(shader_path, None),
        };
        assert(step@ == attach_begin(self@, shader_path@, extension.deep_view()));
        step
    }

    /// Starts linking the stages compiled so far into the program.
    #[must_use]
    pub fn link(self) -> (step: Step<LinkJob, Shader>)
        ensures
            step@ == link_begin(self@),
    {
        if self.shaders.len() == 0 {
            return Step::Fatal { error: ShaderError::NoStages };
        }
        let mut commands: Vec<Command> = Vec::new();
        let mut i: usize = 0;
        while i < self.shaders.len()
            invariant
                i <= self.shaders.len(),
                commands@.len() == i,
                forall|j: int|
                    0 <= j < i ==> (#[trigger] commands@[j])@ == (CommandView::AttachShader {
                        program: self.pid,
                        shader: self.shaders@[j],
                    }),
            decreases self.shaders.len() - i,
        {
            commands.push(Command::AttachShader { program: self.pid, shader: self.shaders[i] });
            i += 1;
        }
        commands.push(Command::LinkProgram { program: self.pid });
        assert(commands.deep_view() =~= attach_all(self@).push(
            CommandView::LinkProgram { program: self.pid },
        ));
        Step::Ask {
            commands,
            query: Query::LinkStatus { program: self.pid },
            job: LinkJob { builder: self, stage: LinkStage::Checking },
        }
    }
}

} // verus!

//! What holds of the pipeline as a whole, whatever the driver answers.

use vstd::prelude::*;
use vstd::utf8::*;
use crate::driver::{bare_name_extension, is_bare_name, last_dot_at, last_dot_decides, log_text};
use crate::error::ShaderErrorView;
use crate::protocol::{answers, bound_after, CommandView, QueryView, ReplyView, StepView};
use crate::raytracing::{program_of, upload_begin, upload_resume, UploadJobView};
use crate::shader::{
    attach_begin, compile_begin, compile_resume, create_begin, create_resume, delete_all, has_nul,
    link_begin, link_resume, succeeded, CompileJobView, CompileStageView, LinkJobView, LinkStage,
    Shader, ShaderBuilderView, ShaderType,
};

verus! {

/// The step that follows `step` on `reply`: a compile job that asked is
/// resumed, and one that has ended stays as it is.
pub open spec fn compile_then(
    step: StepView<CompileJobView, ShaderBuilderView>,
    reply: ReplyView,
) -> StepView<CompileJobView, ShaderBuilderView> {
    match step {
        StepView::Ask { job, .. } => compile_resume(job, reply),
        _ => step,
    }
}

/// The step that follows `step` on `reply`: a link job that asked is
/// resumed, and one that has ended stays as it is.
pub open spec fn link_then(step: StepView<LinkJobView, Shader>, reply: ReplyView) -> StepView<
    LinkJobView,
    Shader,
> {
    match step {
        StepView::Ask { job, .. } => link_resume(job, reply),
        _ => step,
    }
}

/// The end of attaching a shader file whose extension is `extension`, where
/// the file holds `source`, the driver names the new stage `shader`, and
/// reports `status` for its compilation.
pub open spec fn attach_run(
    builder: ShaderBuilderView,
    path: Seq<char>,
    extension: Seq<char>,
    source: Seq<char>,
    shader: u32,
    status: i32,
) -> StepView<CompileJobView, ShaderBuilderView> {
    compile_then(
        compile_then(
            compile_then(
                attach_begin(builder, path, Some(extension)),
                ReplyView::Text(Some(source)),
            ),
            ReplyView::Handle(shader),
        ),
        ReplyView::Int(status),
    )
}

/// The query whose answer a compile job waits for.
pub open spec fn compile_waits_for(job: CompileJobView) -> QueryView {
    match job.stage {
        CompileStageView::Reading { path } => QueryView::ReadFile { path },
        CompileStageView::Creating { .. } => QueryView::CreateShader { kind: job.kind.tag() },
        CompileStageView::Checking { shader } => QueryView::CompileStatus { shader },
        CompileStageView::Explaining { shader } => QueryView::ShaderInfoLog { shader },
    }
}

/// The query whose answer a link job waits for.
pub open spec fn link_waits_for(job: LinkJobView) -> QueryView {
    match job.stage {
        LinkStage::Checking => QueryView::LinkStatus { program: job.builder.pid },
        LinkStage::Explaining => QueryView::ProgramInfoLog { program: job.builder.pid },
    }
}

/// The most answers that a compile job may still ask for.
pub open spec fn compile_answers_left(job: CompileJobView) -> nat {
    match job.stage {
        CompileStageView::Reading { .. } => 4,
        CompileStageView::Creating { .. } => 3,
        CompileStageView::Checking { .. } => 2,
        CompileStageView::Explaining { .. } => 1,
    }
}

/// The most answers that a link job may still ask for.
pub open spec fn link_answers_left(job: LinkJobView) -> nat {
    match job.stage {
        LinkStage::Checking => 2,
        LinkStage::Explaining => 1,
    }
}

/// A compile job always puts the query that it then waits for, whether it
/// begins with a source or with a file.
pub proof fn compile_asks_what_it_waits_for(
    builder: ShaderBuilderView,
    path: Seq<char>,
    extension: Option<Seq<char>>,
    source: Seq<char>,
    kind: ShaderType,
    job: CompileJobView,
    reply: ReplyView,
)
    ensures
        compile_begin(builder, source, kind) matches StepView::Ask { query, job: next, .. }
            ==> query == compile_waits_for(next),
        attach_begin(builder, path, extension) matches StepView::Ask { query, job: next, .. }
            ==> query == compile_waits_for(next),
        compile_resume(job, reply) matches StepView::Ask { query, job: next, .. } ==> query
            == compile_waits_for(next),
{
}

/// A compile job takes an answer for unexpected exactly where it is not of
/// the kind that answers the query put last. So whoever answers each query
/// in kind never sees that failure.
pub proof fn compile_refuses_only_other_answers(job: CompileJobView, reply: ReplyView)
    ensures
        compile_resume(job, reply) == (StepView::<CompileJobView, ShaderBuilderView>::Fatal {
            error: ShaderErrorView::UnexpectedReply,
        }) <==> !answers(compile_waits_for(job), reply),
{
}

/// Each answer brings a compile job nearer its end: it asks for four
/// answers at most.
pub proof fn compile_draws_to_an_end(job: CompileJobView, reply: ReplyView)
    ensures
        compile_resume(job, reply) matches StepView::Ask { job: next, .. }
            ==> compile_answers_left(next) < compile_answers_left(job),
{
}

/// A link job always puts the query that it then waits for.
pub proof fn link_asks_what_it_waits_for(
    builder: ShaderBuilderView,
    job: LinkJobView,
    reply: ReplyView,
)
    ensures
        link_begin(builder) matches StepView::Ask { query, job: next, .. } ==> query
            == link_waits_for(next),
        link_resume(job, reply) matches StepView::Ask { query, job: next, .. } ==> query
            == link_waits_for(next),
{
}

/// A link job takes an answer for unexpected exactly where it is not of the
/// kind that answers the query put last.
pub proof fn link_refuses_only_other_answers(job: LinkJobView, reply: ReplyView)
    ensures
        link_resume(job, reply) == (StepView::<LinkJobView, Shader>::Fatal {
            error: ShaderErrorView::UnexpectedReply,
        }) <==> !answers(link_waits_for(job), reply),
{
}

/// Each answer brings a link job nearer its end: it asks for two answers at
/// most.
pub proof fn link_draws_to_an_end(job: LinkJobView, reply: ReplyView)
    ensures
        link_resume(job, reply) matches StepView::Ask { job: next, .. } ==> link_answers_left(next)
            < link_answers_left(job),
{
}

/// The making of a builder and an upload each put one query, end on its
/// answer, and take an answer for unexpected exactly where it is of another
/// kind.
pub proof fn single_query_jobs_end_on_the_answer(
    program: u32,
    writes: Seq<CommandView>,
    job: UploadJobView,
    reply: ReplyView,
)
    ensures
        create_begin() matches StepView::Ask { query, .. } && query == QueryView::CreateProgram,
        !(create_resume(reply) is Ask),
        create_resume(reply) is Fatal <==> !answers(QueryView::CreateProgram, reply),
        upload_begin(program, writes) matches StepView::Ask { query, .. } && query
            == QueryView::CurrentProgram,
        !(upload_resume(job, reply) is Ask),
        upload_resume(job, reply) is Fatal <==> !answers(QueryView::CurrentProgram, reply),
{
}

/// The commands that a step has run.
pub open spec fn commands_of<J, T>(step: StepView<J, T>) -> Seq<CommandView> {
    match step {
        StepView::Ask { commands, .. } => commands,
        StepView::Done { commands, .. } => commands,
        StepView::Fatal { .. } => Seq::empty(),
    }
}

/// Whatever the source holds, compiling it asks for one stage object, of
/// the kind that was named. A job that waits for the file's text asks for
/// that object next, of the kind that the extension named, and a job that
/// has its source asks for no other.
pub proof fn compile_creates_one_stage_object(
    builder: ShaderBuilderView,
    source: Seq<char>,
    kind: ShaderType,
    job: CompileJobView,
    reply: ReplyView,
)
    ensures
        compile_begin(builder, source, kind) == (StepView::<
            CompileJobView,
            ShaderBuilderView,
        >::Ask {
            commands: Seq::empty(),
            query: QueryView::CreateShader { kind: kind.tag() },
            job: CompileJobView { builder, kind, stage: CompileStageView::Creating { source } },
        }),
        compile_resume(job, reply) matches StepView::Ask { query, job: next, .. } ==> (query
            is CreateShader ==> job.stage is Reading && next.stage is Creating && query == (
        QueryView::CreateShader { kind: job.kind.tag() })),
{
}

/// A source with a NUL byte is never handed to the driver: once the stage
/// object is there the job is fatal, and no command of any step carries
/// such a source.
pub proof fn nul_source_is_never_sent(job: CompileJobView, reply: ReplyView, shader: u32)
    ensures
        job.stage matches CompileStageView::Creating { source } && has_nul(source)
            ==> compile_resume(job, ReplyView::Handle(shader)) == (StepView::<
            CompileJobView,
            ShaderBuilderView,
        >::Fatal { error: ShaderErrorView::NulInSource }),
        forall|k: int|
            0 <= k < commands_of(compile_resume(job, reply)).len() ==> (#[trigger] commands_of(
                compile_resume(job, reply),
            )[k] matches CommandView::ShaderSource { source, .. } ==> !has_nul(source)),
{
}

/// Attaching a bare file name goes by what follows the name's last dot,
/// where that dot is not the first character; a bare name without such a
/// dot has no extension, and fails in the first step.
pub proof fn attach_of_a_bare_name(builder: ShaderBuilderView, name: Seq<char>, i: int)
    requires
        is_bare_name(name),
    ensures
        last_dot_at(name, i) ==> attach_begin(builder, name, bare_name_extension(name))
            == attach_begin(builder, name, Some(name.subrange(i + 1, name.len() as int))),
        (forall|k: int| !last_dot_at(name, k)) ==> attach_begin(
            builder,
            name,
            bare_name_extension(name),
        ) == (StepView::<CompileJobView, ShaderBuilderView>::Fatal {
            error: ShaderErrorView::MissingExtension,
        }),
{
    if last_dot_at(name, i) {
        last_dot_decides(name, i);
    }
}

/// A bare file name that ends in `.vert` or in `.frag`, behind a stem that
/// is not empty, is read as a vertex or as a fragment stage.
pub proof fn vert_and_frag_names_are_read(builder: ShaderBuilderView, stem: Seq<char>)
    requires
        stem.len() > 0,
    ensures
        is_bare_name(stem + ".vert"@) ==> attach_begin(
            builder,
            stem + ".vert"@,
            bare_name_extension(stem + ".vert"@),
        ) == (StepView::<CompileJobView, ShaderBuilderView>::Ask {
            commands: Seq::empty(),
            query: QueryView::ReadFile { path: stem + ".vert"@ },
            job: CompileJobView {
                builder,
                kind: ShaderType::Vertex,
                stage: CompileStageView::Reading { path: stem + ".vert"@ },
            },
        }),
        is_bare_name(stem + ".frag"@) ==> attach_begin(
            builder,
            stem + ".frag"@,
            bare_name_extension(stem + ".frag"@),
        ) == (StepView::<CompileJobView, ShaderBuilderView>::Ask {
            commands: Seq::empty(),
            query: QueryView::ReadFile { path: stem + ".frag"@ },
            job: CompileJobView {
                builder,
                kind: ShaderType::Fragment,
                stage: CompileStageView::Reading { path: stem + ".frag"@ },
            },
        }),
{
    known_extensions();
    reveal_strlit(".vert");
    reveal_strlit(".frag");
    reveal_strlit("vert");
    reveal_strlit("frag");
    let i = stem.len() as int;
    let vert = stem + ".vert"@;
    assert(last_dot_at(vert, i));
    last_dot_decides(vert, i);
    assert(vert.subrange(i + 1, vert.len() as int) =~= "vert"@);
    let frag = stem + ".frag"@;
    assert(last_dot_at(frag, i));
    last_dot_decides(frag, i);
    assert(frag.subrange(i + 1, frag.len() as int) =~= "frag"@);
}

/// The extensions `vert` and `frag` name the vertex and the fragment stage.
pub proof fn known_extensions()
    ensures
        ShaderType::of_extension("vert"@) == Some(ShaderType::Vertex),
        ShaderType::of_extension("frag"@) == Some(ShaderType::Fragment),
{
    reveal_strlit("vert");
    reveal_strlit("frag");
    assert("vert"@[0] != "frag"@[0]);
}

/// A shader file with a known extension, a source without a NUL byte and a
/// compilation that the driver reports as a success is attached without a
/// failure on the way: the file is read, a stage of the extension's kind is
/// created, given the source and compiled, and it joins the builder behind
/// the stages that were there.
pub proof fn attach_succeeds(
    builder: ShaderBuilderView,
    path: Seq<char>,
    extension: Seq<char>,
    source: Seq<char>,
    shader: u32,
    status: i32,
)
    requires
        ShaderType::of_extension(extension) is Some,
        !has_nul(source),
        succeeded(status),
    ensures
        ({
            let kind = ShaderType::of_extension(extension)->0;
            let asked = attach_begin(builder, path, Some(extension));
            let read = compile_then(asked, ReplyView::Text(Some(source)));
            let created = compile_then(read, ReplyView::Handle(shader));
            &&& asked matches StepView::Ask { commands, query, .. }
            &&& commands == Seq::<CommandView>::empty()
            &&& query == (QueryView::ReadFile { path })
            &&& read matches StepView::Ask { commands, query, .. }
            &&& commands == Seq::<CommandView>::empty()
            &&& query == (QueryView::CreateShader { kind: kind.tag() })
            &&& created matches StepView::Ask { commands, query, .. }
            &&& commands == seq![
                CommandView::ShaderSource { shader, source },
                CommandView::CompileShader { shader },
            ]
            &&& query == (QueryView::CompileStatus { shader })
        }),
        attach_run(builder, path, extension, source, shader, status) == (StepView::<
            CompileJobView,
            ShaderBuilderView,
        >::Done {
            commands: Seq::empty(),
            value: ShaderBuilderView { pid: builder.pid, stages: builder.stages.push(shader) },
        }),
{
}

/// A builder with at least one stage, whose link the driver reports as a
/// success, gives the program of the builder's handle, and every stage is
/// deleted on the way.
pub proof fn link_succeeds(builder: ShaderBuilderView, status: i32)
    requires
        builder.stages.len() > 0,
        succeeded(status),
    ensures
        link_begin(builder) is Ask,
        link_then(link_begin(builder), ReplyView::Int(status)) == (StepView::<
            LinkJobView,
            Shader,
        >::Done { commands: delete_all(builder), value: Shader { pid: builder.pid } }),
{
}

/// A vertex file and a fragment file with sources that the driver accepts,
/// attached in turn to a new builder and linked, give the program that the
/// driver created for the builder, and no step on the way is fatal.
pub proof fn valid_pair_builds(
    pid: u32,
    vert_path: Seq<char>,
    vert_source: Seq<char>,
    vert_shader: u32,
    frag_path: Seq<char>,
    frag_source: Seq<char>,
    frag_shader: u32,
    compiled_vert: i32,
    compiled_frag: i32,
    linked: i32,
)
    requires
        !has_nul(vert_source),
        !has_nul(frag_source),
        succeeded(compiled_vert),
        succeeded(compiled_frag),
        succeeded(linked),
    ensures
        ({
            let fresh = ShaderBuilderView { pid, stages: Seq::empty() };
            let with_vert = ShaderBuilderView { pid, stages: seq![vert_shader] };
            let with_both = ShaderBuilderView { pid, stages: seq![vert_shader, frag_shader] };
            &&& create_begin() is Ask
            &&& create_resume(ReplyView::Handle(pid)) == (StepView::<(), ShaderBuilderView>::Done {
                commands: Seq::empty(),
                value: fresh,
            })
            &&& attach_run(fresh, vert_path, "vert"@, vert_source, vert_shader, compiled_vert) == (
            StepView::<CompileJobView, ShaderBuilderView>::Done {
                commands: Seq::empty(),
                value: with_vert,
            })
            &&& attach_run(with_vert, frag_path, "frag"@, frag_source, frag_shader, compiled_frag)
                == (StepView::<CompileJobView, ShaderBuilderView>::Done {
                commands: Seq::empty(),
                value: with_both,
            })
            &&& link_then(link_begin(with_both), ReplyView::Int(linked)) == (StepView::<
                LinkJobView,
                Shader,
            >::Done {
                commands: seq![
                    CommandView::DeleteShader { shader: vert_shader },
                    CommandView::DeleteShader { shader: frag_shader },
                ],
                value: Shader { pid },
            })
        }),
{
    known_extensions();
    let fresh = ShaderBuilderView { pid, stages: Seq::empty() };
    let with_vert = ShaderBuilderView { pid, stages: seq![vert_shader] };
    let with_both = ShaderBuilderView { pid, stages: seq![vert_shader, frag_shader] };
    attach_succeeds(fresh, vert_path, "vert"@, vert_source, vert_shader, compiled_vert);
    attach_succeeds(with_vert, frag_path, "frag"@, frag_source, frag_shader, compiled_frag);
    link_succeeds(with_both, linked);
    assert(fresh.stages.push(vert_shader) =~= with_vert.stages);
    assert(with_vert.stages.push(frag_shader) =~= with_both.stages);
    assert(delete_all(with_both) =~= seq![
        CommandView::DeleteShader { shader: vert_shader },
        CommandView::DeleteShader { shader: frag_shader },
    ]);
}

/// A shader file whose extension is neither `vert` nor `frag`, or that has
/// none, fails in the first step: nothing is read, created or compiled.
pub proof fn unknown_extension_fails_first(
    builder: ShaderBuilderView,
    path: Seq<char>,
    extension: Option<Seq<char>>,
)
    requires
        extension matches Some(e) ==> e != "vert"@ && e != "frag"@,
    ensures
        attach_begin(builder, path, extension) == (match extension {
            Some(e) => StepView::<CompileJobView, ShaderBuilderView>::Fatal {
                error: ShaderErrorView::UnknownExtension { extension: e },
            },
            None => StepView::Fatal { error: ShaderErrorView::MissingExtension },
        }),
{
}

/// A compilation that the driver does not report as a success is fatal, and
/// the message of the failure is a heading with the text of the driver's log
/// below it: for a log in UTF-8, the very text that its bytes encode.
pub proof fn compile_failure_carries_log(
    builder: ShaderBuilderView,
    source: Seq<char>,
    kind: ShaderType,
    shader: u32,
    status: i32,
    log: Seq<u8>,
)
    requires
        !has_nul(source),
        !succeeded(status),
    ensures
        ({
            let checked = compile_then(
                compile_then(compile_begin(builder, source, kind), ReplyView::Handle(shader)),
                ReplyView::Int(status),
            );
            let failed = compile_then(checked, ReplyView::Log(log));
            &&& checked matches StepView::Ask { commands, query, .. }
            &&& commands == Seq::<CommandView>::empty()
            &&& query == (QueryView::ShaderInfoLog { shader })
            &&& failed matches StepView::Fatal { error }
            &&& error == (ShaderErrorView::CompileFailed { log: log_text(log) })
            &&& error.message() == "ERROR::SHADER::COMPILATION_FAILED\n"@ + log_text(log)
            &&& valid_utf8(log) ==> error.message() == "ERROR::SHADER::COMPILATION_FAILED\n"@
                + decode_utf8(log)
        }),
{
}

/// A link that the driver does not report as a success is fatal, and the
/// message of the failure is a heading with the text of the driver's log
/// below it: for a log in UTF-8, the very text that its bytes encode.
pub proof fn link_failure_carries_log(builder: ShaderBuilderView, status: i32, log: Seq<u8>)
    requires
        builder.stages.len() > 0,
        !succeeded(status),
    ensures
        ({
            let checked = link_then(link_begin(builder), ReplyView::Int(status));
            let failed = link_then(checked, ReplyView::Log(log));
            &&& checked matches StepView::Ask { commands, query, .. }
            &&& commands == Seq::<CommandView>::empty()
            &&& query == (QueryView::ProgramInfoLog { program: builder.pid })
            &&& failed matches StepView::Fatal { error }
            &&& error == (ShaderErrorView::LinkFailed { log: log_text(log) })
            &&& error.message() == "ERROR::SHADER::COMPILATION_FAILED\n"@ + log_text(log)
            &&& valid_utf8(log) ==> error.message() == "ERROR::SHADER::COMPILATION_FAILED\n"@
                + decode_utf8(log)
        }),
{
}

/// Linking a builder without a stage fails in the first step: nothing is
/// attached or linked.
pub proof fn link_without_stages_fails(builder: ShaderBuilderView)
    requires
        builder.stages.len() == 0,
    ensures
        link_begin(builder) == (StepView::<LinkJobView, Shader>::Fatal {
            error: ShaderErrorView::NoStages,
        }),
{
}

/// Whether a command writes a uniform.
pub open spec fn is_write(command: CommandView) -> bool {
    command is SetUniform
}

/// An upload that is carried through leaves bound the program that the
/// driver reported as bound when the upload began, whatever it wrote and to
/// whichever program.
pub proof fn upload_restores_binding(
    program: u32,
    writes: Seq<CommandView>,
    bound: i32,
    before: u32,
)
    ensures
        ({
            let asked = upload_begin(program, writes);
            &&& asked matches StepView::Ask { commands, query, job }
            &&& commands == Seq::<CommandView>::empty()
            &&& query == QueryView::CurrentProgram
            &&& upload_resume(job, ReplyView::Int(bound)) matches StepView::Done { commands, .. }
            &&& bound_after(commands, before) == program_of(bound)
        }),
{
    let plan = seq![CommandView::UseProgram { program }] + writes;
    let commands = plan.push(CommandView::UseProgram { program: program_of(bound) });
    assert(commands.last() == (CommandView::UseProgram { program: program_of(bound) }));
}

/// Commands that only write uniforms leave the bound program as it is.
pub proof fn writes_keep_binding(writes: Seq<CommandView>, before: u32)
    requires
        forall|i: int| 0 <= i < writes.len() ==> is_write(#[trigger] writes[i]),
    ensures
        bound_after(writes, before) == before,
    decreases writes.len(),
{
    if writes.len() > 0 {
        writes_keep_binding(writes.drop_last(), before);
    }
}

/// In an upload, every write of a uniform runs while the target program is
/// bound: the commands that come before the `k`-th write leave `program`
/// bound.
pub proof fn upload_writes_to_target(
    program: u32,
    writes: Seq<CommandView>,
    bound: i32,
    before: u32,
    k: int,
)
    requires
        forall|i: int| 0 <= i < writes.len() ==> is_write(#[trigger] writes[i]),
        0 <= k < writes.len(),
    ensures
        ({
            let job = UploadJobView { plan: seq![CommandView::UseProgram { program }] + writes };
            &&& upload_resume(job, ReplyView::Int(bound)) matches StepView::Done { commands, .. }
            &&& commands[k + 1] == writes[k]
            &&& bound_after(commands.take(k + 1), before) == program
        }),
{
    let first = seq![CommandView::UseProgram { program }];
    let commands = (first + writes).push(CommandView::UseProgram { program: program_of(bound) });
    let prefix = commands.take(k + 1);
    assert(prefix =~= first + writes.take(k));
    bound_after_writes(first, writes.take(k), before);
    assert(bound_after(first, before) == program) by {
        assert(first.last() == (CommandView::UseProgram { program }));
    }
}

/// Writes behind other commands leave bound what those commands left bound.
pub proof fn bound_after_writes(head: Seq<CommandView>, writes: Seq<CommandView>, before: u32)
    requires
        forall|i: int| 0 <= i < writes.len() ==> is_write(#[trigger] writes[i]),
    ensures
        bound_after(head + writes, before) == bound_after(head, before),
    decreases writes.len(),
{
    if writes.len() == 0 {
        assert(head + writes =~= head);
    } else {
        let all = head + writes;
        assert(all.last() == writes.last());
        assert(all.drop_last() =~= head + writes.drop_last());
        bound_after_writes(head, writes.drop_last(), before);
    }
}

} // verus!

//! The raytracer's settings, materials, spheres and camera, and their upload
//! to the uniforms of a shader program.

use vstd::prelude::*;
use crate::error::{ShaderError, ShaderErrorView};
use crate::protocol::{Command, CommandView, Query, QueryView, Reply, ReplyView, Step, StepView};
use crate::shader::Shader;
use crate::values::{Mat4, Scalar, UniformValue, Vec2, Vec3, Vec4};

verus! {

/// How the raytracer traces: the bounces a ray may take, the rays cast for
/// each fragment, and how far those rays spread.
#[derive(Clone, Copy, Debug, PartialEq, Eq, Structural)]
pub struct RTSettings {
    pub max_bounces: u32,
    pub rays_per_frag: u32,
    pub diverge_strength: Scalar,
}

/// The surface of a raytraced object.
#[derive(Clone, Copy, Debug, PartialEq, Eq, Structural)]
pub struct RTMaterial {
    pub color: Vec4,
    pub emission_color: Vec4,
    pub specular_color: Vec4,
    pub smoothness: Scalar,
}

/// A raytraced sphere.
#[derive(Clone, Copy, Debug, PartialEq, Eq, Structural)]
pub struct RTSphere {
    pub center: Vec3,
    pub radius: Scalar,
    pub material: RTMaterial,
}

/// The camera that the rays start from.
#[derive(Clone, Copy, Debug, PartialEq, Eq, Structural)]
pub struct RTCamera {
    pub screen_size: Vec2,
    pub fov: Scalar,
    pub focus_distance: Scalar,
    pub pos: Vec3,
    pub local_to_world: Mat4,
}

/// The command that writes `value` to the field `field` of the uniform
/// `uniform`; `field` begins with the dot that parts the two names.
pub open spec fn set_field(
    program: u32,
    uniform: Seq<char>,
    field: Seq<char>,
    value: UniformValue,
) -> CommandView {
    CommandView::SetUniform { program, name: uniform + field, value }
}

fn field_command(program: u32, uniform: &str, field: &str, value: UniformValue) -> (command:
    Command)
    ensures
        command@ == set_field(program, uniform@, field@, value),
{
    Command::SetUniform { program, name: String::from_str(uniform).concat(field), value }
}

/// An upload of uniform values, under way: it waits to learn which program
/// is bound, so as to bind it again once the values are written.
#[derive(Clone, Debug, PartialEq, Eq)]
pub struct UploadJob {
    plan: Vec<Command>,
}

/// What an `UploadJob` holds: the commands to run before the program that
/// was bound is bound again.
pub struct UploadJobView {
    pub plan: Seq<CommandView>,
}

impl View for UploadJob {
    type V = UploadJobView;

    closed spec fn view(&self) -> UploadJobView {
        UploadJobView { plan: self.plan.deep_view() }
    }
}

/// The first turn of an upload of `writes` to `program`: nothing is run yet,
/// and the bound program is asked for. The plan is to bind `program` and
/// then to write.
pub open spec fn upload_begin(program: u32, writes: Seq<CommandView>) -> StepView<
    UploadJobView,
    (),
> {
    StepView::Ask {
        commands: Seq::empty(),
        query: QueryView::CurrentProgram,
        job: UploadJobView { plan: seq![CommandView::UseProgram { program }] + writes },
    }
}

/// The program that the driver means by the integer it reports as bound:
/// the same 32 bits, read without a sign.
pub open spec fn program_of(bound: i32) -> u32 {
    if bound >= 0 {
        bound as u32
    } else {
        (bound + 0x1_0000_0000) as u32
    }
}

/// The turn that an upload takes on an answer: the plan is run, and the
/// program that was bound is bound again. An answer of another kind is
/// fatal, and nothing is run.
pub open spec fn upload_resume(job: UploadJobView, reply: ReplyView) -> StepView<
    UploadJobView,
    (),
> {
    match reply {
        ReplyView::Int(bound) => StepView::Done {
            commands: job.plan.push(CommandView::UseProgram { program: program_of(bound) }),
            value: (),
        },
        _ => StepView::Fatal { error: ShaderErrorView::UnexpectedReply },
    }
}

fn begin_upload(plan: Vec<Command>) -> (step: Step<UploadJob, ()>)
    ensures
        step@ == (StepView::<UploadJobView, ()>::Ask {
            commands: Seq::empty(),
            query: QueryView::CurrentProgram,
            job: UploadJobView { plan: plan.deep_view() },
        }),
{
    let step = Step::Ask {
        commands: Vec::new(),
        query: Query::CurrentProgram,
        job: UploadJob { plan },
    };
    assert(step@->Ask_commands =~= Seq::<CommandView>::empty());
    step
}

impl UploadJob {
    /// Takes the answer to the query that this job put.
    pub fn resume(self, reply: Reply) -> (step: Step<UploadJob, ()>)
        ensures
            step@ == upload_resume(self@, reply@),
    {
        match reply {
            Reply::Int(bound) => {
                let program: u32 = if bound >= 0 {
                    bound as u32
                } else {
                    (bound as i64 + 0x1_0000_0000) as u32
                };
                let mut commands = self.plan;
                commands.push(Command::UseProgram { program });
                assert(commands.deep_view() =~= self@.plan.push(
                    CommandView::UseProgram { program },
                ));
                Step::Done { commands, value: () }
            },
            _ => Step::Fatal { error: ShaderError::UnexpectedReply },
        }
    }
}

impl RTSettings {
    /// The writes that send these settings to the uniform `uniform` of
    /// `program`, field by field.
    pub open spec fn writes(self, program: u32, uniform: Seq<char>) -> Seq<CommandView> {
        seq![
            set_field(program, uniform, ".maxBounces"@, UniformValue::UInt(self.max_bounces)),
            set_field(program, uniform, ".raysPerFrag"@, UniformValue::UInt(self.rays_per_frag)),
            set_field(
                program,
                uniform,
                ".divergeStrength"@,
                UniformValue::Float(self.diverge_strength),
            ),
        ]
    }

    /// Starts sending these settings to the uniform `uniform_name` of
    /// `shader`.
    pub fn send_uniform(self, shader: &Shader, uniform_name: &str) -> (step: Step<UploadJob, ()>)
        ensures
            step@ == upload_begin(shader.pid, self.writes(shader.pid, uniform_name@)),
    {
        let pid = shader.pid;
        let mut plan: Vec<Command> = Vec::new();
        plan.push(shader.activate());
        plan.push(
            field_command(pid, uniform_name, ".maxBounces", UniformValue::UInt(self.max_bounces)),
        );
        plan.push(
            field_command(
                pid,
                uniform_name,
                ".raysPerFrag",
                UniformValue::UInt(self.rays_per_frag),
            ),
        );
        plan.push(
            field_command(
                pid,
                uniform_name,
                ".divergeStrength",
                UniformValue::Float(self.diverge_strength),
            ),
        );
        assert(plan.deep_view() =~= seq![CommandView::UseProgram { program: pid }] + self.writes(
            pid,
            uniform_name@,
        ));
        begin_upload(plan)
    }
}

impl RTMaterial {
    /// The blank material: every colour zero, and no smoothness.
    pub open spec fn blank() -> RTMaterial {
        RTMaterial {
            color: Vec4::zero_spec(),
            emission_color: Vec4::zero_spec(),
            specular_color: Vec4::zero_spec(),
            smoothness: Scalar::zero_spec(),
        }
    }

    /// A new, blank material.
    pub fn new() -> (material: RTMaterial)
        ensures
            material == RTMaterial::blank(),
    {
        RTMaterial {
            color: Vec4::zero(),
            emission_color: Vec4::zero(),
            specular_color: Vec4::zero(),
            smoothness: Scalar::zero(),
        }
    }
}

impl RTSphere {
    /// The blank sphere: at the origin, of radius one, of the blank material.
    pub open spec fn blank() -> RTSphere {
        RTSphere {
            center: Vec3::zero_spec(),
            radius: Scalar::one_spec(),
            material: RTMaterial::blank(),
        }
    }

    /// A new, blank sphere.
    pub fn new() -> (sphere: RTSphere)
        ensures
            sphere == RTSphere::blank(),
    {
        RTSphere { center: Vec3::zero(), radius: Scalar::one(), material: RTMaterial::new() }
    }
}

impl RTCamera {
    /// The writes that send this camera to the uniform `uniform` of
    /// `program`, field by field.
    pub open spec fn writes(self, program: u32, uniform: Seq<char>) -> Seq<CommandView> {
        seq![
            set_field(program, uniform, ".screenSize"@, UniformValue::Float2(self.screen_size)),
            set_field(program, uniform, ".fov"@, UniformValue::Float(self.fov)),
            set_field(
                program,
                uniform,
                ".focusDistance"@,
                UniformValue::Float(self.focus_distance),
            ),
            set_field(program, uniform, ".pos"@, UniformValue::Float3(self.pos)),
            set_field(
                program,
                uniform,
                ".localToWorld"@,
                UniformValue::Matrix4(self.local_to_world),
            ),
        ]
    }

    /// Starts sending this camera to the uniform `uniform_name` of `shader`.
    pub fn send_uniform(self, shader: &Shader, uniform_name: &str) -> (step: Step<UploadJob, ()>)
        ensures
            step@ == upload_begin(shader.pid, self.writes(shader.pid, uniform_name@)),
    {
        let pid = shader.pid;
        let mut plan: Vec<Command> = Vec::new();
        plan.push(shader.activate());
        plan.push(
            field_command(pid, uniform_name, ".screenSize", UniformValue::Float2(self.screen_size)),
        );
        plan.push(field_command(pid, uniform_name, ".fov", UniformValue::Float(self.fov)));
        plan.push(
            field_command(
                pid,
                uniform_name,
                ".focusDistance",
                UniformValue::Float(self.focus_distance),
            ),
        );
        plan.push(field_command(pid, uniform_name, ".pos", UniformValue::Float3(self.pos)));
        plan.push(
            field_command(
                pid,
                uniform_name,
                ".localToWorld",
                UniformValue::Matrix4(self.local_to_world),
            ),
        );
        assert(plan.deep_view() =~= seq![CommandView::UseProgram { program: pid }] + self.writes(
            pid,
            uniform_name@,
        ));
        begin_upload(plan)
    }
}

} // verus!

use shaderkit::error::ShaderError;
use shaderkit::protocol::{Command, Query, Reply, Step};
use shaderkit::raytracing::{RTCamera, RTMaterial, RTSettings, RTSphere, UploadJob};
use shaderkit::shader::Shader;
use shaderkit::values::{Mat4, Scalar, UniformValue, Vec2, Vec3, Vec4};

fn scalar(x: f32) -> Scalar {
    Scalar::from_bits(x.to_bits())
}

fn asked(step: Step<UploadJob, ()>) -> (Vec<Command>, Query, UploadJob) {
    match step {
        Step::Ask { commands, query, job } => (commands, query, job),
        other => panic!("the upload should have asked, but gave {:?}", other),
    }
}

fn settings() -> RTSettings {
    RTSettings { max_bounces: 8, rays_per_frag: 16, diverge_strength: scalar(0.25) }
}

fn camera() -> RTCamera {
    RTCamera {
        screen_size: Vec2 { x: scalar(1280.0), y: scalar(720.0) },
        fov: scalar(60.0),
        focus_distance: scalar(2.5),
        pos: Vec3 { x: scalar(1.0), y: scalar(-2.0), z: scalar(3.0) },
        local_to_world: Mat4 {
            c0: Vec4 { x: scalar(1.0), y: scalar(0.0), z: scalar(0.0), w: scalar(0.0) },
            c1: Vec4 { x: scalar(0.0), y: scalar(1.0), z: scalar(0.0), w: scalar(0.0) },
            c2: Vec4 { x: scalar(0.0), y: scalar(0.0), z: scalar(1.0), w: scalar(0.0) },
            c3: Vec4 { x: scalar(1.0), y: scalar(-2.0), z: scalar(3.0), w: scalar(1.0) },
        },
    }
}

#[test]
fn scalar_keeps_its_bits() {
    assert_eq!(Scalar::from_bits(0xDEAD_BEEF).to_bits(), 0xDEAD_BEEF);
    assert_eq!(f32::from_bits(scalar(0.25).to_bits()), 0.25);
    assert_eq!(f32::from_bits(Scalar::zero().to_bits()), 0.0);
    assert_eq!(f32::from_bits(Scalar::one().to_bits()), 1.0);
    assert_eq!(Scalar::one().bits, 0x3F80_0000);
}

#[test]
fn zero_vectors_are_zero_in_every_component() {
    let v2 = Vec2::zero();
    let v3 = Vec3::zero();
    let v4 = Vec4::zero();
    for s in [v2.x, v2.y, v3.x, v3.y, v3.z, v4.x, v4.y, v4.z, v4.w] {
        assert_eq!(s.bits, 0);
        assert_eq!(f32::from_bits(s.bits), 0.0);
    }
}

#[test]
fn new_material_is_blank() {
    let material = RTMaterial::new();
    assert_eq!(material.color, Vec4::zero());
    assert_eq!(material.emission_color, Vec4::zero());
    assert_eq!(material.specular_color, Vec4::zero());
    assert_eq!(f32::from_bits(material.smoothness.bits), 0.0);
    assert_eq!(material.smoothness.bits, 0);
}

#[test]
fn new_sphere_is_at_the_origin_with_radius_one() {
    let sphere = RTSphere::new();
    assert_eq!(sphere.center, Vec3::zero());
    assert_eq!(f32::from_bits(sphere.radius.bits), 1.0);
    assert_eq!(sphere.material, RTMaterial::new());
}

#[test]
fn settings_upload_asks_for_the_bound_program_first() {
    let (commands, query, _) = asked(settings().send_uniform(&Shader { pid: 4 }, "settings"));
    assert!(commands.is_empty());
    assert_eq!(query, Query::CurrentProgram);
}

#[test]
fn settings_upload_binds_writes_each_field_and_restores() {
    let (_, _, job) = asked(settings().send_uniform(&Shader { pid: 4 }, "settings"));
    match job.resume(Reply::Int(9)) {
        Step::Done { commands, value } => {
            assert_eq!(value, ());
            assert_eq!(
                commands,
                vec![
                    Command::UseProgram { program: 4 },
                    Command::SetUniform {
                        program: 4,
                        name: "settings.maxBounces".to_string(),
                        value: UniformValue::UInt(8),
                    },
                    Command::SetUniform {
                        program: 4,
                        name: "settings.raysPerFrag".to_string(),
                        value: UniformValue::UInt(16),
                    },
                    Command::SetUniform {
                        program: 4,
                        name: "settings.divergeStrength".to_string(),
                        value: UniformValue::Float(scalar(0.25)),
                    },
                    Command::UseProgram { program: 9 },
                ]
            );
        }
        other => panic!("the upload should be done, but: {:?}", other),
    }
}

#[test]
fn camera_upload_binds_writes_each_field_and_restores() {
    let cam = camera();
    let (commands, query, job) = asked(cam.send_uniform(&Shader { pid: 12 }, "u_camera"));
    assert!(commands.is_empty());
    assert_eq!(query, Query::CurrentProgram);
    match job.resume(Reply::Int(0)) {
        Step::Done { commands, .. } => {
            assert_eq!(
                commands,
                vec![
                    Command::UseProgram { program: 12 },
                    Command::SetUniform {
                        program: 12,
                        name: "u_camera.screenSize".to_string(),
                        value: UniformValue::Float2(cam.screen_size),
                    },
                    Command::SetUniform {
                        program: 12,
                        name: "u_camera.fov".to_string(),
                        value: UniformValue::Float(scalar(60.0)),
                    },
                    Command::SetUniform {
                        program: 12,
                        name: "u_camera.focusDistance".to_string(),
                        value: UniformValue::Float(scalar(2.5)),
                    },
                    Command::SetUniform {
                        program: 12,
                        name: "u_camera.pos".to_string(),
                        value: UniformValue::Float3(cam.pos),
                    },
                    Command::SetUniform {
                        program: 12,
                        name: "u_camera.localToWorld".to_string(),
                        value: UniformValue::Matrix4(cam.local_to_world),
                    },
                    Command::UseProgram { program: 0 },
                ]
            );
        }
        other => panic!("the upload should be done, but: {:?}", other),
    }
}

#[test]
fn uploaded_values_are_those_of_the_struct() {
    let cam = camera();
    let (_, _, job) = asked(cam.send_uniform(&Shader { pid: 1 }, "cam"));
    let commands = match job.resume(Reply::Int(1)) {
        Step::Done { commands, .. } => commands,
        other => panic!("the upload should be done, but: {:?}", other),
    };
    match &commands[1] {
        Command::SetUniform { value: UniformValue::Float2(size), .. } => {
            assert_eq!(f32::from_bits(size.x.bits), 1280.0);
            assert_eq!(f32::from_bits(size.y.bits), 720.0);
        }
        other => panic!("the first write should be the screen size, but: {:?}", other),
    }
    match &commands[4] {
        Command::SetUniform { value: UniformValue::Float3(pos), .. } => {
            assert_eq!(f32::from_bits(pos.x.bits), 1.0);
            assert_eq!(f32::from_bits(pos.y.bits), -2.0);
            assert_eq!(f32::from_bits(pos.z.bits), 3.0);
        }
        other => panic!("the fourth write should be the position, but: {:?}", other),
    }
    match &commands[5] {
        Command::SetUniform { value: UniformValue::Matrix4(m), .. } => {
            assert_eq!(f32::from_bits(m.c3.y.bits), -2.0);
            assert_eq!(f32::from_bits(m.c3.w.bits), 1.0);
            assert_eq!(*m, cam.local_to_world);
        }
        other => panic!("the fifth write should be the transform, but: {:?}", other),
    }
}

#[test]
fn upload_with_an_empty_uniform_name_keeps_the_dot() {
    let (_, _, job) = asked(settings().send_uniform(&Shader { pid: 4 }, ""));
    match job.resume(Reply::Int(4)) {
        Step::Done { commands, .. } => match &commands[1] {
            Command::SetUniform { name, .. } => assert_eq!(name, ".maxBounces"),
            other => panic!("the first write should set a uniform, but: {:?}", other),
        },
        other => panic!("the upload should be done, but: {:?}", other),
    }
}

#[test]
fn upload_restores_the_program_that_was_bound() {
    for bound in [0, 1, 4, 77, i32::MAX] {
        let (_, _, job) = asked(settings().send_uniform(&Shader { pid: 4 }, "s"));
        match job.resume(Reply::Int(bound)) {
            Step::Done { commands, .. } => {
                assert_eq!(commands.first(), Some(&Command::UseProgram { program: 4 }));
                assert_eq!(commands.last(), Some(&Command::UseProgram { program: bound as u32 }));
                let binds = commands
                    .iter()
                    .filter(|c| matches!(c, Command::UseProgram { .. }))
                    .count();
                assert_eq!(binds, 2);
            }
            other => panic!("the upload should be done, but: {:?}", other),
        }
    }
}

#[test]
fn a_negative_bound_program_is_read_without_its_sign() {
    let (_, _, job) = asked(settings().send_uniform(&Shader { pid: 4 }, "s"));
    match job.resume(Reply::Int(-1)) {
        Step::Done { commands, .. } => {
            assert_eq!(commands.last(), Some(&Command::UseProgram { program: u32::MAX }));
        }
        other => panic!("the upload should be done, but: {:?}", other),
    }
    let (_, _, job) = asked(settings().send_uniform(&Shader { pid: 4 }, "s"));
    match job.resume(Reply::Int(i32::MIN)) {
        Step::Done { commands, .. } => {
            assert_eq!(commands.last(), Some(&Command::UseProgram { program: 0x8000_0000 }));
        }
        other => panic!("the upload should be done, but: {:?}", other),
    }
}

#[test]
fn upload_refuses_an_answer_of_the_wrong_kind() {
    let unexpected: Step<UploadJob, ()> = Step::Fatal { error: ShaderError::UnexpectedReply };
    let (_, _, job) = asked(camera().send_uniform(&Shader { pid: 4 }, "c"));
    assert_eq!(job.clone().resume(Reply::Handle(4)), unexpected);
    assert_eq!(job.clone().resume(Reply::Log(Vec::new())), unexpected);
    assert_eq!(job.resume(Reply::Text(Some(String::new()))), unexpected);
}

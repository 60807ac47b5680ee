use render_core::device::UniformValue;
use render_core::shader_program::check_text;
use render_core::{
    BuildStep, Command, GlError, Matrix4, ShaderCodeBundle, ShaderCompileType, ShaderProgram, StageReport,
    Vector3, Vector4,
};

fn program(id: u32) -> ShaderProgram {
    let mut queue = Vec::new();
    ShaderProgram::new(&ShaderCodeBundle::default(), &Vec::new(), id, i32::from(gl::TRUE), String::new(), &mut queue)
        .unwrap()
}

#[test]
fn text_without_zero_byte_is_fine() {
    assert!(check_text("").is_ok());
    assert!(check_text("material.diffuse[0]").is_ok());
    assert!(check_text("\u{00e9}t\u{00e9}").is_ok());
}

#[test]
fn text_with_zero_byte_is_refused_at_the_first() {
    assert!(matches!(check_text("\0"), Err(GlError::CStringError(0))));
    assert!(matches!(check_text("ab\0cd\0"), Err(GlError::CStringError(2))));
    // the position counts bytes: the accented letter takes two
    assert!(matches!(check_text("\u{00e9}\0"), Err(GlError::CStringError(2))));
}

#[test]
fn zero_byte_position_counts_bytes() {
    let cases = [("a\0", 1usize), ("\0\0", 0), ("xyz\0w", 3), ("\u{4e2d}\0", 3)];
    for (text, expected) in cases {
        assert!(matches!(check_text(text), Err(GlError::CStringError(at)) if at == expected));
    }
}

#[test]
fn stages_are_compiled_as_their_kind() {
    assert_eq!(ShaderProgram::shader_kind(ShaderCompileType::Vertex), gl::VERTEX_SHADER);
    assert_eq!(ShaderProgram::shader_kind(ShaderCompileType::Geometry), gl::GEOMETRY_SHADER);
    assert_eq!(ShaderProgram::shader_kind(ShaderCompileType::Fragment), gl::FRAGMENT_SHADER);
    assert_eq!(ShaderProgram::shader_kind(ShaderCompileType::Program), gl::VERTEX_SHADER);
    assert!(matches!(
        ShaderProgram::compile_shader("void main() {}", ShaderCompileType::Fragment),
        Ok(kind) if kind == gl::FRAGMENT_SHADER
    ));
    assert!(matches!(
        ShaderProgram::compile_shader("void\0", ShaderCompileType::Vertex),
        Err(GlError::CStringError(4))
    ));
}

#[test]
fn compile_status_decides() {
    assert!(ShaderProgram::check_compile_errors(3, ShaderCompileType::Vertex, i32::from(gl::TRUE), String::new())
        .is_ok());
    for status in [i32::from(gl::FALSE), -1, 2] {
        match ShaderProgram::check_compile_errors(3, ShaderCompileType::Vertex, status, "bad".to_string()) {
            Err(GlError::ShaderCompileError(ShaderCompileType::Vertex, 3, log)) => assert_eq!(log, "bad"),
            _ => panic!("status {} must fail", status),
        }
    }
}

#[test]
fn link_attaches_in_order() {
    let mut queue = Vec::new();
    ShaderProgram::link_program(9, &vec![4, 5, 6], &mut queue);
    assert_eq!(
        queue,
        vec![
            Command::AttachShader { program: 9, shader: 4 },
            Command::AttachShader { program: 9, shader: 5 },
            Command::AttachShader { program: 9, shader: 6 },
            Command::LinkProgram { program: 9 },
        ]
    );
}

fn bundle(vertex: Option<&str>, geometry: Option<&str>, fragment: Option<&str>) -> ShaderCodeBundle {
    ShaderCodeBundle {
        vertex: vertex.map(str::to_string),
        geometry: geometry.map(str::to_string),
        fragment: fragment.map(str::to_string),
    }
}

fn passed(shader: u32) -> StageReport {
    StageReport { shader, success: i32::from(gl::TRUE), log: String::new() }
}

fn failed(shader: u32, log: &str) -> StageReport {
    StageReport { shader, success: i32::from(gl::FALSE), log: log.to_string() }
}

#[test]
fn stages_without_source_are_passed_over() {
    let all = bundle(Some("v"), Some("g"), Some("f"));
    let stages = all.stages();
    assert_eq!(stages.len(), 3);
    assert_eq!((stages[0].0.as_str(), stages[0].1), ("v", ShaderCompileType::Vertex));
    assert_eq!((stages[1].0.as_str(), stages[1].1), ("g", ShaderCompileType::Geometry));
    assert_eq!((stages[2].0.as_str(), stages[2].1), ("f", ShaderCompileType::Fragment));
    let two = bundle(Some("v"), None, Some("f"));
    let stages = two.stages();
    assert_eq!(stages.len(), 2);
    assert_eq!((stages[0].0.as_str(), stages[0].1), ("v", ShaderCompileType::Vertex));
    assert_eq!((stages[1].0.as_str(), stages[1].1), ("f", ShaderCompileType::Fragment));
    assert!(bundle(None, None, None).stages().is_empty());
    let one = bundle(None, Some("g"), None);
    assert_eq!(one.stages()[0].1, ShaderCompileType::Geometry);
}

#[test]
fn build_compiles_the_stages_in_order_and_then_links() {
    let b = bundle(Some("v"), None, Some("f"));
    let mut reports = Vec::new();
    assert_eq!(
        ShaderProgram::next_step(&b, &reports).unwrap(),
        BuildStep::Compile { stage: 0, kind: gl::VERTEX_SHADER }
    );
    reports.push(passed(4));
    assert_eq!(
        ShaderProgram::next_step(&b, &reports).unwrap(),
        BuildStep::Compile { stage: 1, kind: gl::FRAGMENT_SHADER }
    );
    reports.push(passed(5));
    assert_eq!(ShaderProgram::next_step(&b, &reports).unwrap(), BuildStep::Link);
    assert_eq!(ShaderProgram::shader_ids(&reports), vec![4, 5]);
    // a bundle without stages is linked at once
    assert_eq!(ShaderProgram::next_step(&bundle(None, None, None), &vec![]).unwrap(), BuildStep::Link);
    let g = bundle(None, Some("g"), None);
    assert_eq!(
        ShaderProgram::next_step(&g, &vec![]).unwrap(),
        BuildStep::Compile { stage: 0, kind: gl::GEOMETRY_SHADER }
    );
}

#[test]
fn first_failing_stage_ends_the_build() {
    let b = bundle(Some("v"), Some("g"), Some("f"));
    // the second stage did not compile: the third is never asked for
    let reports = vec![passed(4), failed(5, "bad geometry")];
    match ShaderProgram::next_step(&b, &reports) {
        Err(GlError::ShaderCompileError(ShaderCompileType::Geometry, 5, log)) => assert_eq!(log, "bad geometry"),
        _ => panic!("the failure of the second stage must be reported"),
    }
    let mut queue = Vec::new();
    match ShaderProgram::new(&b, &reports, 9, i32::from(gl::TRUE), String::new(), &mut queue) {
        Err(GlError::ShaderCompileError(ShaderCompileType::Geometry, 5, log)) => assert_eq!(log, "bad geometry"),
        _ => panic!("the failure of the second stage must be reported"),
    }
    assert!(queue.is_empty());
    // of two failures the first is reported
    let reports = vec![failed(4, "bad vertex"), failed(5, "bad geometry")];
    match ShaderProgram::next_step(&b, &reports) {
        Err(GlError::ShaderCompileError(ShaderCompileType::Vertex, 4, log)) => assert_eq!(log, "bad vertex"),
        _ => panic!("the first failure must be reported"),
    }
    // any status but the device's word for success is a failure
    for status in [0, -1, 2] {
        let reports = vec![StageReport { shader: 4, success: status, log: "x".to_string() }];
        assert!(matches!(
            ShaderProgram::next_step(&b, &reports),
            Err(GlError::ShaderCompileError(ShaderCompileType::Vertex, 4, _))
        ));
    }
}

#[test]
fn source_with_zero_byte_fails_before_it_is_compiled() {
    let b = bundle(Some("v"), Some("ge\0"), Some("f"));
    assert_eq!(
        ShaderProgram::next_step(&b, &vec![]).unwrap(),
        BuildStep::Compile { stage: 0, kind: gl::VERTEX_SHADER }
    );
    assert!(matches!(ShaderProgram::next_step(&b, &vec![passed(4)]), Err(GlError::CStringError(2))));
    // the first stage goes before it
    assert!(matches!(
        ShaderProgram::next_step(&b, &vec![failed(4, "bad")]),
        Err(GlError::ShaderCompileError(ShaderCompileType::Vertex, 4, _))
    ));
    let first = bundle(Some("\0"), None, None);
    assert!(matches!(ShaderProgram::next_step(&first, &vec![]), Err(GlError::CStringError(0))));
    let mut queue = Vec::new();
    assert!(matches!(
        ShaderProgram::new(&first, &vec![], 9, 1, String::new(), &mut queue),
        Err(GlError::CStringError(0))
    ));
}

#[test]
fn reports_must_match_the_stages() {
    let b = bundle(Some("v"), None, Some("f"));
    let mut queue = Vec::new();
    // one stage is still to compile
    assert!(matches!(
        ShaderProgram::new(&b, &vec![passed(4)], 9, 1, String::new(), &mut queue),
        Err(GlError::IncorrectSize(2, 1))
    ));
    // one report too many
    let surplus = vec![passed(4), passed(5), passed(6)];
    assert!(matches!(ShaderProgram::next_step(&b, &surplus), Err(GlError::IncorrectSize(2, 3))));
    assert!(matches!(
        ShaderProgram::new(&b, &surplus, 9, 1, String::new(), &mut queue),
        Err(GlError::IncorrectSize(2, 3))
    ));
    assert!(queue.is_empty());
}

#[test]
fn linked_program_releases_its_shaders() {
    let mut queue = Vec::new();
    let b = bundle(Some("v"), None, Some("f"));
    let program =
        ShaderProgram::new(&b, &vec![passed(4), passed(5)], 9, i32::from(gl::TRUE), String::new(), &mut queue)
            .unwrap();
    assert_eq!(program.get_id(), 9);
    assert_eq!(queue, vec![Command::DeleteShader { shader: 4 }, Command::DeleteShader { shader: 5 }]);
}

#[test]
fn failed_link_is_reported() {
    let mut queue = Vec::new();
    let b = bundle(Some("v"), None, Some("f"));
    let reports = vec![passed(4), passed(5)];
    match ShaderProgram::new(&b, &reports, 9, i32::from(gl::FALSE), "unresolved".to_string(), &mut queue) {
        Err(GlError::ShaderCompileError(ShaderCompileType::Program, 9, log)) => {
            assert_eq!(log, "unresolved")
        }
        _ => panic!("a failed link must be reported"),
    }
    assert!(queue.is_empty());
    let mut kept = program(1);
    assert!(kept.compile_program(9, &vec![4], 0, String::new(), &mut queue).is_err());
    assert_eq!(kept.get_id(), 1);
    assert!(kept.compile_program(9, &vec![4], 1, String::new(), &mut queue).is_ok());
    assert_eq!(kept.get_id(), 9);
}

#[test]
fn use_program_makes_it_current() {
    let mut queue = Vec::new();
    program(9).use_program(&mut queue);
    assert_eq!(queue, vec![Command::UseProgram { program: 9 }]);
}

#[test]
fn checked_setters_need_the_uniform() {
    let mut queue = Vec::new();
    let p = program(9);
    assert!(p.set_int("count", 5, 3, &mut queue).is_ok());
    assert!(p.set_bool("on", true, 4, &mut queue).is_ok());
    assert!(p.set_bool("off", false, 0, &mut queue).is_ok());
    assert_eq!(
        queue,
        vec![
            Command::Uniform { location: 3, value: UniformValue::Int(5) },
            Command::Uniform { location: 4, value: UniformValue::Int(1) },
            Command::Uniform { location: 0, value: UniformValue::Int(0) },
        ]
    );
    let before = queue.clone();
    match p.set_int("missing", 5, -1, &mut queue) {
        Err(GlError::UniformNotFound(name, id)) => {
            assert_eq!(name, "missing");
            assert_eq!(id, 9);
        }
        _ => panic!("a missing uniform must be reported"),
    }
    assert!(matches!(p.set_int("bad\0name", 5, 3, &mut queue), Err(GlError::CStringError(3))));
    assert!(matches!(p.set_int("\0", 5, -1, &mut queue), Err(GlError::CStringError(0))));
    assert_eq!(queue, before);
}

#[test]
fn unchecked_setters_pass_over_a_missing_uniform() {
    let mut queue = Vec::new();
    let p = program(9);
    assert!(p.set_int_unsafe("missing", 5, -1, &mut queue).is_ok());
    assert_eq!(queue, vec![Command::Uniform { location: -1, value: UniformValue::Int(5) }]);
    assert!(matches!(p.set_int_unsafe("bad\0", 5, 3, &mut queue), Err(GlError::CStringError(3))));
    assert_eq!(queue.len(), 1);
}

#[test]
fn float_setters_carry_bit_patterns() {
    let mut queue = Vec::new();
    let p = program(9);
    let one = 1.0f32.to_bits();
    let two = 2.0f32.to_bits();
    let three = 3.0f32.to_bits();
    let four = 4.0f32.to_bits();
    let v3 = Vector3::new(one, two, three);
    let v4 = Vector4::new(one, two, three, four);
    let m = Matrix4::identity();
    p.set_float("f", two, 1, &mut queue).unwrap();
    p.set_vector_3("v", &v3, 2, &mut queue).unwrap();
    p.set_vec3("v", one, two, three, 3, &mut queue).unwrap();
    p.set_vector_4("w", &v4, 4, &mut queue).unwrap();
    p.set_vec4("w", one, two, three, four, 5, &mut queue).unwrap();
    p.set_mat4("m", &m, 6, &mut queue).unwrap();
    p.set_float_unsafe("f", two, -1, &mut queue).unwrap();
    p.set_vector_3_unsafe("v", &v3, -1, &mut queue).unwrap();
    p.set_vec3_unsafe("v", one, two, three, -1, &mut queue).unwrap();
    p.set_vector_4_unsafe("w", &v4, -1, &mut queue).unwrap();
    p.set_vec4_unsafe("w", one, two, three, four, -1, &mut queue).unwrap();
    p.set_mat4_unsafe("m", &m, -1, &mut queue).unwrap();
    p.set_bool_unsafe("b", true, -1, &mut queue).unwrap();
    let values = [
        UniformValue::Float(two),
        UniformValue::Vector3(v3),
        UniformValue::Vector3(v3),
        UniformValue::Vector4(v4),
        UniformValue::Vector4(v4),
        UniformValue::Matrix4(m),
    ];
    for (i, value) in values.iter().enumerate() {
        assert_eq!(queue[i], Command::Uniform { location: 1 + i as i32, value: *value });
        assert_eq!(queue[6 + i], Command::Uniform { location: -1, value: *value });
    }
    assert_eq!(queue[12], Command::Uniform { location: -1, value: UniformValue::Int(1) });
    assert_eq!(m.x.x, one);
    assert_eq!(m.w.w, one);
    assert_eq!(m.x.y, 0.0f32.to_bits());
}

#[test]
fn uniform_block_is_tied_to_the_binding_point() {
    let mut queue = Vec::new();
    let p = program(9);
    assert!(p.bind_to_ubo("Matrices", 2, &mut queue).is_ok());
    assert_eq!(queue, vec![Command::UniformBlockBinding { program: 9, block: 2, binding: 0 }]);
    match p.bind_to_ubo("Missing", gl::INVALID_INDEX, &mut queue) {
        Err(GlError::UniformInvalidIndex(name, id)) => {
            assert_eq!(name, "Missing");
            assert_eq!(id, 9);
        }
        _ => panic!("a missing block must be reported"),
    }
    assert!(matches!(p.bind_to_ubo("a\0", 2, &mut queue), Err(GlError::CStringError(1))));
    assert_eq!(queue.len(), 1);
}

#[test]
fn bundle_lists_its_stages_in_order() {
    let bundle = ShaderCodeBundle {
        vertex: Some("v".to_string()),
        geometry: None,
        fragment: Some("f".to_string()),
    };
    let stages = bundle.get_vec();
    assert_eq!(stages.len(), 3);
    assert_eq!(stages[0], (&Some("v".to_string()), ShaderCompileType::Vertex));
    assert_eq!(stages[1], (&None, ShaderCompileType::Geometry));
    assert_eq!(stages[2], (&Some("f".to_string()), ShaderCompileType::Fragment));
    let empty = ShaderCodeBundle::default();
    assert!(empty.vertex.is_none() && empty.geometry.is_none() && empty.fragment.is_none());
}

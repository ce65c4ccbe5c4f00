use hello_webgl::frame::frame_handles;
use hello_webgl::setup::{
    step_at, BufferKind, Next, Outcome, Setup, SetupError, ShaderStage, Step, PLAN_LEN,
};
use hello_webgl::uniforms::Uniform;

fn success_for(step: Step, handle: u32) -> Outcome<u32> {
    match step {
        Step::LocateUniform(_) => Outcome::Located(handle),
        _ => Outcome::Done,
    }
}

#[test]
fn plan_runs_in_order() {
    let expected = vec![
        Step::AcquireContext,
        Step::CreateBuffer(BufferKind::Vertex),
        Step::CreateBuffer(BufferKind::Color),
        Step::CreateBuffer(BufferKind::Index),
        Step::CreateShader(ShaderStage::Vertex),
        Step::CompileShader(ShaderStage::Vertex),
        Step::CreateShader(ShaderStage::Fragment),
        Step::CompileShader(ShaderStage::Fragment),
        Step::CreateProgram,
        Step::LinkProgram,
        Step::LocateUniform(Uniform::Model),
        Step::LocateUniform(Uniform::View),
        Step::LocateUniform(Uniform::Projection),
    ];
    assert_eq!(expected.len(), PLAN_LEN);
    for (i, s) in expected.iter().enumerate() {
        assert_eq!(step_at(i), *s);
    }
}

#[test]
fn full_run_reaches_ready_with_all_handles() {
    let (mut setup, mut step) = Setup::<u32>::start("canvas".to_string());
    let mut performed = vec![step];
    let mut handle = 100;
    loop {
        handle += 1;
        match setup.advance(success_for(step, handle)) {
            Next::Perform(s) => {
                performed.push(s);
                step = s;
            }
            Next::Ready => break,
            Next::Abort(e) => panic!("unexpected abort: {:?}", e),
        }
    }
    assert_eq!(performed.len(), PLAN_LEN);
    assert!(!setup.is_running());
    let table = setup.uniforms();
    assert_eq!(table.len(), 3);
    assert_eq!(table.get("m"), Some(&111));
    assert_eq!(table.get("v"), Some(&112));
    assert_eq!(table.get("p"), Some(&113));
    assert_eq!(frame_handles(table), Some((&111, &112, &113)));
}

/// Runs the plan with every step succeeding up to position `at`, where `fail` is reported.
fn fail_at(at: usize, fail: Outcome<u32>) -> (Next, Setup<u32>) {
    let (mut setup, _) = Setup::<u32>::start("main-canvas".to_string());
    for i in 0..at {
        match setup.advance(success_for(step_at(i), i as u32)) {
            Next::Perform(_) => {}
            other => panic!("unexpected: {:?}", other),
        }
    }
    let next = setup.advance(fail);
    (next, setup)
}

#[test]
fn missing_canvas_names_the_id() {
    let (next, setup) = fail_at(0, Outcome::Absent);
    assert_eq!(next, Next::Abort(SetupError::CanvasNotFound("main-canvas".to_string())));
    assert!(!setup.is_running());
}

#[test]
fn missing_buffers_abort() {
    assert_eq!(
        fail_at(1, Outcome::Absent).0,
        Next::Abort(SetupError::BufferUnavailable(BufferKind::Vertex))
    );
    assert_eq!(
        fail_at(2, Outcome::Absent).0,
        Next::Abort(SetupError::BufferUnavailable(BufferKind::Color))
    );
    assert_eq!(
        fail_at(3, Outcome::Absent).0,
        Next::Abort(SetupError::BufferUnavailable(BufferKind::Index))
    );
}

#[test]
fn shader_failures_abort() {
    assert_eq!(
        fail_at(4, Outcome::Absent).0,
        Next::Abort(SetupError::ShaderUnavailable(ShaderStage::Vertex))
    );
    assert_eq!(
        fail_at(5, Outcome::Rejected("bad token".to_string())).0,
        Next::Abort(SetupError::ShaderCompile(ShaderStage::Vertex, "bad token".to_string()))
    );
    assert_eq!(
        fail_at(6, Outcome::Absent).0,
        Next::Abort(SetupError::ShaderUnavailable(ShaderStage::Fragment))
    );
    assert_eq!(
        fail_at(7, Outcome::Rejected("oops".to_string())).0,
        Next::Abort(SetupError::ShaderCompile(ShaderStage::Fragment, "oops".to_string()))
    );
}

#[test]
fn program_failures_abort() {
    assert_eq!(fail_at(8, Outcome::Absent).0, Next::Abort(SetupError::ProgramUnavailable));
    assert_eq!(
        fail_at(9, Outcome::Rejected("varying mismatch".to_string())).0,
        Next::Abort(SetupError::ProgramLink("varying mismatch".to_string()))
    );
    assert_eq!(
        fail_at(9, Outcome::Absent).0,
        Next::Abort(SetupError::ProgramLink(String::new()))
    );
}

#[test]
fn missing_uniforms_abort_and_keep_earlier_handles() {
    assert_eq!(
        fail_at(10, Outcome::Absent).0,
        Next::Abort(SetupError::UniformNotFound(Uniform::Model))
    );
    assert_eq!(
        fail_at(11, Outcome::Done).0,
        Next::Abort(SetupError::UniformNotFound(Uniform::View))
    );
    let (next, setup) = fail_at(12, Outcome::Absent);
    assert_eq!(next, Next::Abort(SetupError::UniformNotFound(Uniform::Projection)));
    let table = setup.into_uniforms();
    assert_eq!(table.len(), 2);
    assert_eq!(table.get("m"), Some(&10));
    assert_eq!(table.get("v"), Some(&11));
    assert_eq!(table.get("p"), None);
    assert_eq!(frame_handles(&table), None);
}

#[test]
fn a_step_that_only_reports_done_is_not_a_rejection() {
    assert_eq!(
        fail_at(2, Outcome::Rejected("ignored".to_string())).0,
        Next::Abort(SetupError::BufferUnavailable(BufferKind::Color))
    );
}

#[test]
fn error_messages() {
    let cases = vec![
        (SetupError::CanvasNotFound("glcanvas".to_string()), "No canvas found with id: glcanvas"),
        (SetupError::BufferUnavailable(BufferKind::Vertex), "Error binding data to vertex buffer."),
        (SetupError::BufferUnavailable(BufferKind::Color), "Error binding data to color buffer."),
        (SetupError::BufferUnavailable(BufferKind::Index), "Error binding data to index buffer."),
        (SetupError::ShaderUnavailable(ShaderStage::Vertex), "Failed to create vertex shader."),
        (SetupError::ShaderUnavailable(ShaderStage::Fragment), "Failed to create vertex shader."),
        (
            SetupError::ShaderCompile(ShaderStage::Vertex, "ERROR: 0:3".to_string()),
            "An error occurred compiling shader: ERROR: 0:3",
        ),
        (SetupError::ProgramUnavailable, "Failed to initialize shader program"),
        (
            SetupError::ProgramLink("link failed".to_string()),
            "An error occurred compiling shader program: link failed",
        ),
        (SetupError::UniformNotFound(Uniform::Model), "Failed to get uniform, m, location."),
        (SetupError::UniformNotFound(Uniform::View), "Failed to get uniform, v, location."),
        (SetupError::UniformNotFound(Uniform::Projection), "Failed to get uniform, p, location."),
    ];
    for (e, text) in cases {
        assert_eq!(e.message(), text);
    }
}

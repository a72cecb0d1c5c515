use frameloop::pipeline::{Pipeline, SetupError};

#[test]
fn new_pipeline_is_not_ready() {
    let p = Pipeline::new();
    assert!(!p.is_ready());
}

#[test]
fn successful_setup_makes_ready() {
    let mut p = Pipeline::new();
    assert_eq!(p.complete_setup(true, true, true), Ok(()));
    assert!(p.is_ready());
}

#[test]
fn vertex_compile_failure_is_reported_first() {
    let mut p = Pipeline::new();
    assert_eq!(
        p.complete_setup(false, false, false),
        Err(SetupError::VertexShaderCompile)
    );
    assert!(!p.is_ready());
}

#[test]
fn fragment_compile_failure_is_reported() {
    let mut p = Pipeline::new();
    assert_eq!(
        p.complete_setup(true, false, true),
        Err(SetupError::FragmentShaderCompile)
    );
    assert!(!p.is_ready());
}

#[test]
fn link_failure_is_reported() {
    let mut p = Pipeline::new();
    assert_eq!(
        p.complete_setup(true, true, false),
        Err(SetupError::ProgramLink)
    );
    assert!(!p.is_ready());
}

use retrogl::gl_call::GlCall;
use retrogl::pipeline::{compile_outcome, link_outcome};
use retrogl::renderer::RendererError;

#[test]
fn compiled_shader_is_kept() {
    let (r, release) = compile_outcome(11, true, String::new());
    assert_eq!(r, Ok(11));
    assert!(release.is_empty());
}

#[test]
fn failed_shader_reports_log_and_is_released() {
    let (r, release) = compile_outcome(11, false, String::from("0:3(1): error: syntax error"));
    assert_eq!(r, Err(RendererError::CompileError(String::from("0:3(1): error: syntax error"))));
    assert_eq!(release, vec![GlCall::DeleteShader(11)]);
}

#[test]
fn linked_program_is_kept() {
    let (r, release) = link_outcome(20, 11, 12, true, String::new());
    assert_eq!(r, Ok(20));
    assert!(release.is_empty());
}

#[test]
fn failed_link_releases_program_and_shaders() {
    let (r, release) = link_outcome(20, 11, 12, false, String::from("link error"));
    assert_eq!(r, Err(RendererError::LinkError(String::from("link error"))));
    assert_eq!(release, vec![GlCall::DeleteProgram(20), GlCall::DeleteShader(11), GlCall::DeleteShader(12)]);
}

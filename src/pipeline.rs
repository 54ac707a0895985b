use vstd::prelude::*;

use crate::gl_call::GlCall;
use crate::renderer::RendererError;

verus! {

/// Decides what a shader compilation gives: the shader, or the compiler's
/// log verbatim together with the command that releases the failed object,
/// so that nothing partial is kept.
pub fn compile_outcome(shader: u32, compiled: bool, log: String) -> (r: (
    Result<u32, RendererError>,
    Vec<GlCall>,
))
    ensures
        compiled ==> r.0 == Ok::<u32, RendererError>(shader) && r.1@.len() == 0,
        !compiled ==> r.0 == Err::<u32, RendererError>(RendererError::CompileError(log))
            && r.1@ == seq![GlCall::DeleteShader(shader)],
{
    if compiled {
        (Ok(shader), Vec::new())
    } else {
        (Err(RendererError::CompileError(log)), vec![GlCall::DeleteShader(shader)])
    }
}

/// Decides what linking a program from two compiled shaders gives: the
/// program, or the linker's log verbatim together with the commands that
/// release the program and both shaders.
pub fn link_outcome(
    program: u32,
    vertex_shader: u32,
    fragment_shader: u32,
    linked: bool,
    log: String,
) -> (r: (Result<u32, RendererError>, Vec<GlCall>))
    ensures
        linked ==> r.0 == Ok::<u32, RendererError>(program) && r.1@.len() == 0,
        !linked ==> r.0 == Err::<u32, RendererError>(RendererError::LinkError(log)) && r.1@ == seq![
            GlCall::DeleteProgram(program),
            GlCall::DeleteShader(vertex_shader),
            GlCall::DeleteShader(fragment_shader),
        ],
{
    if linked {
        (Ok(program), Vec::new())
    } else {
        (
            Err(RendererError::LinkError(log)),
            vec![
                GlCall::DeleteProgram(program),
                GlCall::DeleteShader(vertex_shader),
                GlCall::DeleteShader(fragment_shader),
            ],
        )
    }
}

} // verus!

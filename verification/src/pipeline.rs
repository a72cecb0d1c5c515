//! The GPU pipeline's lifecycle.
//!
//! The pipeline is set up once — two shaders are compiled, linked into a
//! program, a static full-screen quad and a texture object are created — and
//! then lives for the rest of the process. The driver calls themselves are
//! made by the surrounding program; it reports the compile and link status
//! words back here, and this state machine decides whether setup succeeded,
//! which step failed first, and whether frames may be uploaded and presented.

use vstd::prelude::*;

verus! {

/// The setup step that failed first.
#[derive(Clone, Copy, PartialEq, Eq, Structural, Debug)]
pub enum SetupError {
    /// The vertex shader did not compile.
    VertexShaderCompile,
    /// The fragment shader did not compile.
    FragmentShaderCompile,
    /// The compiled shaders did not link into a program.
    ProgramLink,
}

/// Where the pipeline stands in its life: nothing is ever torn down before
/// process exit, so `Ready` is terminal.
#[derive(Clone, Copy, PartialEq, Eq, Structural)]
pub enum PipelineStatus {
    /// Created, setup not yet completed (or setup failed).
    Uninitialized,
    /// Setup succeeded; frames may be uploaded and presented.
    Ready,
}

/// The pipeline's state machine.
pub struct Pipeline {
    status: PipelineStatus,
}

impl Pipeline {
    /// Where the pipeline stands.
    pub closed spec fn status(self) -> PipelineStatus {
        self.status
    }

    /// A pipeline that has not been set up yet.
    pub fn new() -> (p: Self)
        ensures
            p.status() is Uninitialized,
    {
        Pipeline { status: PipelineStatus::Uninitialized }
    }

    /// Judge the one-time setup from the status words the driver reported:
    /// it succeeded exactly when both shaders compiled and the program
    /// linked, and otherwise the error names the first step that failed.
    /// Only a fully successful setup makes the pipeline ready.
    pub fn complete_setup(
        &mut self,
        vertex_compiled: bool,
        fragment_compiled: bool,
        linked: bool,
    ) -> (r: Result<(), SetupError>)
        requires
            old(self).status() is Uninitialized,
        ensures
            r is Ok <==> (vertex_compiled && fragment_compiled && linked),
            !vertex_compiled ==> r == Err::<(), SetupError>(SetupError::VertexShaderCompile),
            vertex_compiled && !fragment_compiled ==> r == Err::<(), SetupError>(
                SetupError::FragmentShaderCompile,
            ),
            vertex_compiled && fragment_compiled && !linked ==> r == Err::<(), SetupError>(
                SetupError::ProgramLink,
            ),
            final(self).status() is Ready <==> r is Ok,
    {
        if !vertex_compiled {
            Err(SetupError::VertexShaderCompile)
        } else if !fragment_compiled {
            Err(SetupError::FragmentShaderCompile)
        } else if !linked {
            Err(SetupError::ProgramLink)
        } else {
            self.status = PipelineStatus::Ready;
            Ok(())
        }
    }

    /// Whether frames may be uploaded and presented.
    pub fn is_ready(&self) -> (r: bool)
        ensures
            r == (self.status() is Ready),
    {
        match self.status {
            PipelineStatus::Ready => true,
            PipelineStatus::Uninitialized => false,
        }
    }
}

} // verus!

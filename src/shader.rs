use vstd::prelude::*;

use crate::objects::{push_release, release_of, GlObject, NO_OBJECT};

verus! {

/// A programmable stage of the pipeline.
#[derive(Debug, Clone, Copy, PartialEq, Eq, Structural)]
pub enum ShaderStage {
    Vertex,
    Fragment,
}

/// Relies on the constant gl::VERTEX_SHADER of the generated bindings: 0x8B31.
#[verifier::external_body]
fn vertex_shader_enum() -> (r: u32)
    ensures
        r == 0x8B31,
{
    gl::VERTEX_SHADER
}

/// Relies on the constant gl::FRAGMENT_SHADER of the generated bindings: 0x8B30.
#[verifier::external_body]
fn fragment_shader_enum() -> (r: u32)
    ensures
        r == 0x8B30,
{
    gl::FRAGMENT_SHADER
}

impl ShaderStage {
    pub open spec fn kind_spec(&self) -> u32 {
        match *self {
            ShaderStage::Vertex => 0x8B31,
            ShaderStage::Fragment => 0x8B30,
        }
    }

    /// The backend's enumerant for creating a shader object of this stage.
    pub fn kind(&self) -> (r: u32)
        ensures
            r == self.kind_spec(),
    {
        match self {
            ShaderStage::Vertex => vertex_shader_enum(),
            ShaderStage::Fragment => fragment_shader_enum(),
        }
    }
}

/// Why a renderer could not be built.
#[derive(Debug, Clone, PartialEq, Eq)]
pub enum RendererError {
    /// A shader stage did not compile; `log` is the backend's diagnostic.
    ShaderCompile { stage: ShaderStage, log: String },
    /// The program did not link; `log` is the backend's diagnostic.
    ProgramLink { log: String },
    /// The backend handed out the sentinel for a vertex array or buffer.
    ObjectAllocation,
}

/// A failed build step: the error to report and the objects to release
/// before reporting it, so that nothing is leaked.
#[derive(Debug)]
pub struct Failure {
    pub release: Vec<GlObject>,
    pub error: RendererError,
}

/// Whether a compile or link attempt produced a usable object.
pub open spec fn object_accepted(handle: u32, compiled: bool) -> bool {
    compiled && handle != NO_OBJECT
}

/// Decides the outcome of compiling one stage, given the handle that the
/// backend allocated, its compile-status flag and its info log. A shader that
/// did not compile is handed back for release together with the error.
pub fn check_compile(stage: ShaderStage, handle: u32, compiled: bool, log: String) -> (r: Result<
    u32,
    Failure,
>)
    ensures
        object_accepted(handle, compiled) <==> r is Ok,
        r is Ok ==> r->Ok_0 == handle,
        r is Err ==> r->Err_0.release@ == release_of(GlObject::Shader(handle)) && r->Err_0.error
            == (RendererError::ShaderCompile { stage, log }),
{
    if compiled && handle != NO_OBJECT {
        Ok(handle)
    } else {
        let mut release: Vec<GlObject> = Vec::new();
        push_release(&mut release, GlObject::Shader(handle));
        Err(Failure { release, error: RendererError::ShaderCompile { stage, log } })
    }
}

/// Decides the outcome of linking a program, given the handle that the
/// backend allocated, its link-status flag and its info log. A program that
/// did not link is handed back for release together with the error.
pub fn check_link(handle: u32, linked: bool, log: String) -> (r: Result<u32, Failure>)
    ensures
        object_accepted(handle, linked) <==> r is Ok,
        r is Ok ==> r->Ok_0 == handle,
        r is Err ==> r->Err_0.release@ == release_of(GlObject::Program(handle)) && r->Err_0.error
            == (RendererError::ProgramLink { log }),
{
    if linked && handle != NO_OBJECT {
        Ok(handle)
    } else {
        let mut release: Vec<GlObject> = Vec::new();
        push_release(&mut release, GlObject::Program(handle));
        Err(Failure { release, error: RendererError::ProgramLink { log } })
    }
}

} // verus!

use vstd::prelude::*;

use crate::context::{Context, ContextError};
use crate::objects::{push_release, release_of, GlObject, NO_OBJECT};
use crate::renderer::{Handles, Renderer};
use crate::shader::{check_compile, check_link, object_accepted, Failure, RendererError, ShaderStage};

verus! {

/// Where construction of a renderer stands.
#[derive(Debug, Clone, Copy, PartialEq, Eq, Structural)]
pub enum BuildStep {
    CompileVertex,
    CompileFragment,
    Link,
    CreateObjects,
    Finished,
}

/// What the backend reports after carrying out a build action.
#[derive(Debug)]
pub enum BuildEvent {
    /// A shader object was created, given its source and compiled.
    ShaderCompiled { handle: u32, compiled: bool, log: String },
    /// A program object was created, given both shaders and linked.
    ProgramLinked { handle: u32, linked: bool, log: String },
    /// The vertex array and buffer were created and filled, the program's
    /// output and position attribute bound, and all bindings cleared.
    ObjectsCreated { vao: u32, vbo: u32 },
}

/// The next thing for the backend to do.
#[derive(Debug)]
pub enum BuildAction {
    /// Compile the fixed source of this stage.
    Compile(ShaderStage),
    /// Link a program from these two compiled shaders, leaving them attached.
    Link { vertex: u32, fragment: u32 },
    /// Create and fill the vertex array and buffer for this linked program.
    CreateObjects { program: u32 },
    /// Construction succeeded.
    Done(Renderer),
    /// Construction failed: release the listed objects, then report the error.
    Abort(Failure),
}

/// Construction of a renderer, one backend step at a time. Every object
/// allocated so far is recorded, so that a failure releases all of them.
#[derive(Debug)]
pub struct Builder {
    step: BuildStep,
    vert_shader: u32,
    frag_shader: u32,
    program: u32,
}

impl Builder {
    pub closed spec fn step_spec(&self) -> BuildStep {
        self.step
    }

    pub closed spec fn vert_shader_spec(&self) -> u32 {
        self.vert_shader
    }

    pub closed spec fn frag_shader_spec(&self) -> u32 {
        self.frag_shader
    }

    pub closed spec fn program_spec(&self) -> u32 {
        self.program
    }

    /// What is known of the objects recorded at each step.
    #[verifier::type_invariant]
    spec fn inv(self) -> bool {
        match self.step {
            BuildStep::CompileFragment => self.vert_shader != NO_OBJECT,
            BuildStep::Link => self.vert_shader != NO_OBJECT && self.frag_shader != NO_OBJECT,
            BuildStep::CreateObjects => self.vert_shader != NO_OBJECT && self.frag_shader
                != NO_OBJECT && self.program != NO_OBJECT,
            _ => true,
        }
    }

    /// Whether `ev` is the report that the current step waits for.
    pub open spec fn expects(&self, ev: &BuildEvent) -> bool {
        match self.step_spec() {
            BuildStep::CompileVertex => *ev is ShaderCompiled,
            BuildStep::CompileFragment => *ev is ShaderCompiled,
            BuildStep::Link => *ev is ProgramLinked,
            BuildStep::CreateObjects => *ev is ObjectsCreated,
            BuildStep::Finished => false,
        }
    }

    pub fn step(&self) -> (r: BuildStep)
        ensures
            r == self.step_spec(),
    {
        self.step
    }

    /// Whether `ev` may be handed to `advance` now.
    pub fn accepts(&self, ev: &BuildEvent) -> (r: bool)
        ensures
            r == self.expects(ev),
    {
        match self.step {
            BuildStep::CompileVertex => matches!(ev, BuildEvent::ShaderCompiled { .. }),
            BuildStep::CompileFragment => matches!(ev, BuildEvent::ShaderCompiled { .. }),
            BuildStep::Link => matches!(ev, BuildEvent::ProgramLinked { .. }),
            BuildStep::CreateObjects => matches!(ev, BuildEvent::ObjectsCreated { .. }),
            BuildStep::Finished => false,
        }
    }

    /// Starts construction, which needs the context to be current. The first
    /// action compiles the vertex stage.
    pub fn new(ctx: &Context) -> (r: Result<(Builder, BuildAction), ContextError>)
        ensures
            r is Err <==> !ctx.is_current(),
            r is Err ==> r->Err_0 == ContextError::NotCurrent,
            r is Ok ==> ({
                let (b, a) = r->Ok_0;
                &&& b.step_spec() == BuildStep::CompileVertex
                &&& a matches BuildAction::Compile(s) && s == ShaderStage::Vertex
            }),
    {
        if !ctx.current() {
            return Err(ContextError::NotCurrent);
        }
        let b = Builder {
            step: BuildStep::CompileVertex,
            vert_shader: NO_OBJECT,
            frag_shader: NO_OBJECT,
            program: NO_OBJECT,
        };
        Ok((b, BuildAction::Compile(ShaderStage::Vertex)))
    }
    /// Takes the report of the last action and decides the next one. A
    /// failed step ends construction, handing back for release every object
    /// allocated so far; the last step hands over the finished renderer.
    pub fn advance(&mut self, ev: BuildEvent) -> (r: BuildAction)
        requires
            old(self).expects(&ev),
        ensures
            old(self).step_spec() == BuildStep::CompileVertex ==> (match ev {
                BuildEvent::ShaderCompiled { handle, compiled, log } => if object_accepted(
                    handle,
                    compiled,
                ) {
                    &&& final(self).step_spec() == BuildStep::CompileFragment
                    &&& final(self).vert_shader_spec() == handle
                    &&& r matches BuildAction::Compile(s) && s == ShaderStage::Fragment
                } else {
                    &&& final(self).step_spec() == BuildStep::Finished
                    &&& r matches BuildAction::Abort(f) && f.release@ == release_of(
                        GlObject::Shader(handle),
                    ) && f.error == (RendererError::ShaderCompile {
                        stage: ShaderStage::Vertex,
                        log,
                    })
                },
                _ => false,
            }),
            old(self).step_spec() == BuildStep::CompileFragment ==> (match ev {
                BuildEvent::ShaderCompiled { handle, compiled, log } => if object_accepted(
                    handle,
                    compiled,
                ) {
                    &&& final(self).step_spec() == BuildStep::Link
                    &&& final(self).vert_shader_spec() == old(self).vert_shader_spec()
                    &&& final(self).frag_shader_spec() == handle
                    &&& r matches BuildAction::Link { vertex, fragment } && vertex == old(
                        self,
                    ).vert_shader_spec() && fragment == handle
                } else {
                    &&& final(self).step_spec() == BuildStep::Finished
                    &&& r matches BuildAction::Abort(f) && f.release@ == release_of(
                        GlObject::Shader(handle),
                    ) + seq![GlObject::Shader(old(self).vert_shader_spec())] && f.error == (
                    RendererError::ShaderCompile { stage: ShaderStage::Fragment, log })
                },
                _ => false,
            }),
            old(self).step_spec() == BuildStep::Link ==> (match ev {
                BuildEvent::ProgramLinked { handle, linked, log } => if object_accepted(
                    handle,
                    linked,
                ) {
                    &&& final(self).step_spec() == BuildStep::CreateObjects
                    &&& final(self).vert_shader_spec() == old(self).vert_shader_spec()
                    &&& final(self).frag_shader_spec() == old(self).frag_shader_spec()
                    &&& final(self).program_spec() == handle
                    &&& r matches BuildAction::CreateObjects { program } && program == handle
                } else {
                    &&& final(self).step_spec() == BuildStep::Finished
                    &&& r matches BuildAction::Abort(f) && f.release@ == release_of(
                        GlObject::Program(handle),
                    ) + seq![
                        GlObject::Shader(old(self).vert_shader_spec()),
                        GlObject::Shader(old(self).frag_shader_spec()),
                    ] && f.error == (RendererError::ProgramLink { log })
                },
                _ => false,
            }),
            old(self).step_spec() == BuildStep::CreateObjects ==> (match ev {
                BuildEvent::ObjectsCreated { vao, vbo } => if vao != NO_OBJECT && vbo
                    != NO_OBJECT {
                    &&& final(self).step_spec() == BuildStep::Finished
                    &&& r matches BuildAction::Done(rd) && rd@.all_allocated() && rd@ == (Handles {
                        program: old(self).program_spec(),
                        vert_shader: old(self).vert_shader_spec(),
                        frag_shader: old(self).frag_shader_spec(),
                        vao,
                        vbo,
                    })
                } else {
                    &&& final(self).step_spec() == BuildStep::Finished
                    &&& r matches BuildAction::Abort(f) && f.release@ == release_of(
                        GlObject::Buffer(vbo),
                    ) + release_of(GlObject::VertexArray(vao)) + seq![
                        GlObject::Program(old(self).program_spec()),
                        GlObject::Shader(old(self).vert_shader_spec()),
                        GlObject::Shader(old(self).frag_shader_spec()),
                    ] && f.error == RendererError::ObjectAllocation
                },
                _ => false,
            }),
    {
        proof {
            use_type_invariant(&*self);
        }
        match ev {
            BuildEvent::ShaderCompiled { handle, compiled, log } => {
                if self.step == BuildStep::CompileVertex {
                    match check_compile(ShaderStage::Vertex, handle, compiled, log) {
                        Ok(h) => {
                            self.vert_shader = h;
                            self.step = BuildStep::CompileFragment;
                            BuildAction::Compile(ShaderStage::Fragment)
                        },
                        Err(f) => {
                            self.step = BuildStep::Finished;
                            BuildAction::Abort(f)
                        },
                    }
                } else {
                    match check_compile(ShaderStage::Fragment, handle, compiled, log) {
                        Ok(h) => {
                            self.frag_shader = h;
                            self.step = BuildStep::Link;
                            BuildAction::Link { vertex: self.vert_shader, fragment: h }
                        },
                        Err(f) => {
                            let mut f = f;
                            f.release.push(GlObject::Shader(self.vert_shader));
                            self.step = BuildStep::Finished;
                            BuildAction::Abort(f)
                        },
                    }
                }
            },
            BuildEvent::ProgramLinked { handle, linked, log } => {
                match check_link(handle, linked, log) {
                    Ok(h) => {
                        self.program = h;
                        self.step = BuildStep::CreateObjects;
                        BuildAction::CreateObjects { program: h }
                    },
                    Err(f) => {
                        let mut f = f;
                        f.release.push(GlObject::Shader(self.vert_shader));
                        f.release.push(GlObject::Shader(self.frag_shader));
                        self.step = BuildStep::Finished;
                        BuildAction::Abort(f)
                    },
                }
            },
            BuildEvent::ObjectsCreated { vao, vbo } => {
                self.step = BuildStep::Finished;
                let handles = Handles {
                    program: self.program,
                    vert_shader: self.vert_shader,
                    frag_shader: self.frag_shader,
                    vao,
                    vbo,
                };
                match Renderer::new(handles) {
                    Some(rd) => BuildAction::Done(rd),
                    None => {
                        let mut release: Vec<GlObject> = Vec::new();
                        push_release(&mut release, GlObject::Buffer(vbo));
                        push_release(&mut release, GlObject::VertexArray(vao));
                        release.push(GlObject::Program(self.program));
                        release.push(GlObject::Shader(self.vert_shader));
                        release.push(GlObject::Shader(self.frag_shader));
                        let ghost expected = release_of(GlObject::Buffer(vbo)) + release_of(
                            GlObject::VertexArray(vao),
                        ) + seq![
                            GlObject::Program(self.program),
                            GlObject::Shader(self.vert_shader),
                            GlObject::Shader(self.frag_shader),
                        ];
                        assert(release@ =~= expected);
                        BuildAction::Abort(Failure { release, error: RendererError::ObjectAllocation })
                    },
                }
            },
        }
    }
}

} // verus!

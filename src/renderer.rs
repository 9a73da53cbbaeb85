use vstd::prelude::*;

use crate::context::Context;
use crate::objects::{push_release, release_of, GlObject, NO_OBJECT};

verus! {

/// Number of vertices of the triangle.
pub const VERTEX_COUNT: i32 = 3;

/// Components per vertex position.
pub const POSITION_COMPONENTS: i32 = 2;

/// Output slot that the fragment output is bound to.
pub const COLOR_OUTPUT_SLOT: u32 = 0;

/// The five handles that a renderer owns.
#[derive(Debug, Clone, Copy, PartialEq, Eq, Structural)]
pub struct Handles {
    pub program: u32,
    pub vert_shader: u32,
    pub frag_shader: u32,
    pub vao: u32,
    pub vbo: u32,
}

impl Handles {
    /// Every handle names an allocated object.
    pub open spec fn all_allocated(&self) -> bool {
        &&& self.program != NO_OBJECT
        &&& self.vert_shader != NO_OBJECT
        &&& self.frag_shader != NO_OBJECT
        &&& self.vao != NO_OBJECT
        &&& self.vbo != NO_OBJECT
    }

    /// Every handle is the sentinel.
    pub open spec fn all_cleared(&self) -> bool {
        &&& self.program == NO_OBJECT
        &&& self.vert_shader == NO_OBJECT
        &&& self.frag_shader == NO_OBJECT
        &&& self.vao == NO_OBJECT
        &&& self.vbo == NO_OBJECT
    }

    /// The release requests for the allocated handles, program first.
    pub open spec fn releases(&self) -> Seq<GlObject> {
        release_of(GlObject::Program(self.program)) + release_of(
            GlObject::Shader(self.vert_shader),
        ) + release_of(GlObject::Shader(self.frag_shader)) + release_of(GlObject::Buffer(self.vbo))
            + release_of(GlObject::VertexArray(self.vao))
    }

    pub fn cleared() -> (r: Handles)
        ensures
            r.all_cleared(),
    {
        Handles {
            program: NO_OBJECT,
            vert_shader: NO_OBJECT,
            frag_shader: NO_OBJECT,
            vao: NO_OBJECT,
            vbo: NO_OBJECT,
        }
    }
}

/// The parameters of one draw of the triangle.
#[derive(Debug, Clone, Copy, PartialEq, Eq, Structural)]
pub struct DrawCall {
    pub program: u32,
    pub vao: u32,
    pub vbo: u32,
    /// Primitive mode enumerant.
    pub mode: u32,
    pub first: i32,
    pub count: i32,
}

/// Relies on the constant gl::TRIANGLES of the generated bindings: 0x0004.
#[verifier::external_body]
fn triangles_enum() -> (r: u32)
    ensures
        r == 0x0004,
{
    gl::TRIANGLES
}

/// Owner of the GPU objects that draw the triangle. Its handles are either
/// all allocated (live) or all cleared (destroyed).
#[derive(Debug)]
pub struct Renderer {
    handles: Handles,
}

impl View for Renderer {
    type V = Handles;

    closed spec fn view(&self) -> Handles {
        self.handles
    }
}

impl Renderer {
    #[verifier::type_invariant]
    spec fn inv(self) -> bool {
        self.handles.all_allocated() || self.handles.all_cleared()
    }

    pub open spec fn draw_of(h: Handles) -> DrawCall {
        DrawCall {
            program: h.program,
            vao: h.vao,
            vbo: h.vbo,
            mode: 0x0004,
            first: 0,
            count: VERTEX_COUNT,
        }
    }

    /// Takes ownership of five freshly allocated handles; `None` when any of
    /// them is the sentinel.
    pub fn new(handles: Handles) -> (r: Option<Renderer>)
        ensures
            r is Some <==> handles.all_allocated(),
            r is Some ==> r->Some_0@ == handles,
    {
        if handles.program != NO_OBJECT && handles.vert_shader != NO_OBJECT && handles.frag_shader
            != NO_OBJECT && handles.vao != NO_OBJECT && handles.vbo != NO_OBJECT {
            Some(Renderer { handles })
        } else {
            None
        }
    }

    /// Whether the renderer still owns its objects; otherwise every handle
    /// has been cleared.
    pub fn is_live(&self) -> (r: bool)
        ensures
            r == self@.all_allocated(),
            !r ==> self@.all_cleared(),
    {
        proof {
            use_type_invariant(self);
        }
        self.handles.program != NO_OBJECT
    }

    /// The draw to issue for one frame: bind program, vertex array and
    /// buffer, then draw the three vertices as a triangle from index 0.
    /// `None`, with nothing to issue, when the context is not current or the
    /// renderer was destroyed.
    pub fn render(&self, ctx: &Context) -> (r: Option<DrawCall>)
        ensures
            r is Some <==> ctx.is_current() && self@.all_allocated(),
            r is Some ==> r->Some_0 == Self::draw_of(self@),
    {
        proof {
            use_type_invariant(self);
        }
        if ctx.current() && self.handles.program != NO_OBJECT {
            Some(
                DrawCall {
                    program: self.handles.program,
                    vao: self.handles.vao,
                    vbo: self.handles.vbo,
                    mode: triangles_enum(),
                    first: 0,
                    count: VERTEX_COUNT,
                },
            )
        } else {
            None
        }
    }

    /// Clears every handle and returns the release request of each one that
    /// was allocated. While the context is not current nothing is released
    /// and the handles are kept, so that teardown can be retried.
    pub fn destroy(&mut self, ctx: &Context) -> (r: Vec<GlObject>)
        ensures
            ctx.is_current() ==> r@ == old(self)@.releases() && final(self)@.all_cleared(),
            !ctx.is_current() ==> r@.len() == 0 && final(self)@ == old(self)@,
    {
        proof {
            use_type_invariant(&*self);
        }
        let mut r: Vec<GlObject> = Vec::new();
        if ctx.current() {
            let h = self.handles;
            push_release(&mut r, GlObject::Program(h.program));
            push_release(&mut r, GlObject::Shader(h.vert_shader));
            push_release(&mut r, GlObject::Shader(h.frag_shader));
            push_release(&mut r, GlObject::Buffer(h.vbo));
            push_release(&mut r, GlObject::VertexArray(h.vao));
            self.handles = Handles::cleared();
            assert(r@ =~= h.releases());
        }
        r
    }
}

/// Teardown releases each of a live renderer's five objects exactly once,
/// and a second teardown, which finds every handle cleared, releases nothing.
pub proof fn lemma_teardown_releases_once(live: Handles, torn_down: Handles)
    requires
        live.all_allocated(),
        torn_down.all_cleared(),
    ensures
        live.releases() == seq![
            GlObject::Program(live.program),
            GlObject::Shader(live.vert_shader),
            GlObject::Shader(live.frag_shader),
            GlObject::Buffer(live.vbo),
            GlObject::VertexArray(live.vao),
        ],
        torn_down.releases() == Seq::<GlObject>::empty(),
{
    assert(live.releases() =~= seq![
        GlObject::Program(live.program),
        GlObject::Shader(live.vert_shader),
        GlObject::Shader(live.frag_shader),
        GlObject::Buffer(live.vbo),
        GlObject::VertexArray(live.vao),
    ]);
    assert(torn_down.releases() =~= Seq::<GlObject>::empty());
}

} // verus!

use vstd::prelude::*;

verus! {

/// The reserved handle value meaning "no object".
pub const NO_OBJECT: u32 = 0;

/// A GPU-side object named by its handle, as handed to the backend for release.
#[derive(Debug, Clone, Copy, PartialEq, Eq, Structural)]
pub enum GlObject {
    Shader(u32),
    Program(u32),
    VertexArray(u32),
    Buffer(u32),
}

impl GlObject {
    pub open spec fn handle_spec(&self) -> u32 {
        match *self {
            GlObject::Shader(h) => h,
            GlObject::Program(h) => h,
            GlObject::VertexArray(h) => h,
            GlObject::Buffer(h) => h,
        }
    }

    pub fn handle(&self) -> (r: u32)
        ensures
            r == self.handle_spec(),
    {
        match *self {
            GlObject::Shader(h) => h,
            GlObject::Program(h) => h,
            GlObject::VertexArray(h) => h,
            GlObject::Buffer(h) => h,
        }
    }
}

/// What must be released for `o`: the object itself when it was allocated,
/// nothing when its handle is the sentinel.
pub open spec fn release_of(o: GlObject) -> Seq<GlObject> {
    if o.handle_spec() != NO_OBJECT {
        seq![o]
    } else {
        seq![]
    }
}

/// Appends to `out` the release request for `o`, if it was allocated.
pub fn push_release(out: &mut Vec<GlObject>, o: GlObject)
    ensures
        final(out)@ == old(out)@ + release_of(o),
{
    if o.handle() != NO_OBJECT {
        out.push(o);
    }
    proof {
        if o.handle_spec() == NO_OBJECT {
            assert(final(out)@ =~= old(out)@ + release_of(o));
        } else {
            assert(final(out)@ =~= old(out)@ + release_of(o));
        }
    }
}

} // verus!

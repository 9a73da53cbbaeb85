use vstd::prelude::*;

verus! {

/// Why a change of context currency was refused.
#[derive(Debug, Clone, Copy, PartialEq, Eq, Structural)]
pub enum ContextError {
    /// The context was made current while it already was.
    AlreadyCurrent,
    /// The context was released while it was not current.
    NotCurrent,
}

/// Bookkeeping of whether the graphics context is current on the thread that
/// owns this value. GPU work is only planned while it is.
#[derive(Debug)]
pub struct Context {
    current: bool,
}

impl Context {
    pub closed spec fn is_current(&self) -> bool {
        self.current
    }

    /// A context that is not yet current.
    pub fn new() -> (r: Context)
        ensures
            !r.is_current(),
    {
        Context { current: false }
    }

    pub fn current(&self) -> (r: bool)
        ensures
            r == self.is_current(),
    {
        self.current
    }

    /// Marks the context current; refused when it already is.
    pub fn make_current(&mut self) -> (r: Result<(), ContextError>)
        ensures
            old(self).is_current() ==> r == Err::<(), ContextError>(ContextError::AlreadyCurrent)
                && *final(self) == *old(self),
            !old(self).is_current() ==> r is Ok && final(self).is_current(),
    {
        if self.current {
            Err(ContextError::AlreadyCurrent)
        } else {
            self.current = true;
            Ok(())
        }
    }

    /// Marks the context not current; refused when it is not current.
    pub fn make_not_current(&mut self) -> (r: Result<(), ContextError>)
        ensures
            !old(self).is_current() ==> r == Err::<(), ContextError>(ContextError::NotCurrent)
                && *final(self) == *old(self),
            old(self).is_current() ==> r is Ok && !final(self).is_current(),
    {
        if self.current {
            self.current = false;
            Ok(())
        } else {
            Err(ContextError::NotCurrent)
        }
    }
}

} // verus!

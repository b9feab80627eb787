//! The single-use slot that carries a rendering routine into the engine.

use vstd::prelude::*;

verus! {

/// A slot that holds one rendering routine until it is taken out to run.
///
/// The slot is loaded when made and consumed by the one `take`; a consumed
/// slot has nothing left to hand out.
pub struct FormatWith<F> {
    routine: Option<F>,
}

impl<F> FormatWith<F> {
    /// The routine in the slot, if it has not been taken yet.
    pub closed spec fn routine(self) -> Option<F> {
        self.routine
    }

    /// A loaded slot that holds `routine`.
    pub fn new(routine: F) -> (slot: Self)
        ensures
            slot.routine() == Some(routine),
    {
        FormatWith { routine: Some(routine) }
    }

    /// Whether the routine is still in the slot.
    pub fn is_loaded(&self) -> (loaded: bool)
        ensures
            loaded == self.routine() is Some,
    {
        self.routine.is_some()
    }

    /// Takes the routine out, which consumes the slot. Taking from a
    /// consumed slot is a caller's error.
    pub fn take(&mut self) -> (routine: F)
        requires
            old(self).routine() is Some,
        ensures
            old(self).routine() == Some(routine),
            final(self).routine() is None,
    {
        self.routine.take().unwrap()
    }
}

} // verus!

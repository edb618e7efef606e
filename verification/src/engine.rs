//! The hypervisor engine shell: holds one execution context; scheduling, trap
//! handling and guest dispatch are future callers of the confinement core,
//! not part of it.

use vstd::prelude::*;

verus! {

/// A crucible is an execution context for the engine.
pub trait Crucible {}

/// The engine, generic over its execution context.
pub struct Engine<C: Crucible> {
    context: C,
}

impl<C: Crucible> Engine<C> {
    /// The execution context this engine runs.
    pub closed spec fn context_spec(&self) -> C {
        self.context
    }

    /// Creates an engine over the given execution context.
    pub fn new(context: C) -> (r: Self)
        ensures
            r.context_spec() == context,
    {
        Engine { context }
    }
}

} // verus!

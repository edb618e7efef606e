//! Session lifecycle for a compile/link pipeline: a state machine stub that
//! records which phase a module's session is in.

use vstd::prelude::*;

verus! {

/// The state of a session.
pub enum SessionState {
    /// The module is being validated.
    Validating,
    /// The module is being compiled.
    Compiling,
    /// The module is being linked.
    Linking,
    /// The session is ready.
    Ready,
    /// The session has failed.
    Failed,
}

/// A session for one module, identified by `module_id`.
pub struct Session {
    pub module_id: u32,
    state: SessionState,
}

impl Session {
    /// The identifier of the module this session serves.
    pub closed spec fn module_id_spec(&self) -> u32 {
        self.module_id
    }

    /// The current lifecycle state of this session.
    pub closed spec fn state_spec(&self) -> SessionState {
        self.state
    }

    /// Opens a session for `module_id`; every session starts in the
    /// validating phase.
    pub fn new(module_id: u32) -> (r: Self)
        ensures
            r.module_id_spec() == module_id,
            r.state_spec() is Validating,
    {
        Session { module_id, state: SessionState::Validating }
    }
}

} // verus!

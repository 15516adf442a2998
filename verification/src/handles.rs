//! References to what is loaded in the module.
//!
//! A handle is a number that the module gave out. It owns nothing, and
//! whether it still names anything is for the module to say. Two handles are
//! the same when their numbers are.
use vstd::prelude::*;

verus! {

/// The number that stands in a session slot of a command for "no session".
pub const ESYS_TR_NONE: u32 = 0xFFF;

/// A reference to an object loaded in the module: a key, a hierarchy.
#[derive(Clone, Copy, Debug, PartialEq, Eq, Hash, Structural)]
pub struct ObjectHandle {
    pub value: u32,
}

/// A reference to an authorization or audit session.
#[derive(Clone, Copy, Debug, PartialEq, Eq, Hash, Structural)]
pub struct SessionHandle {
    pub value: u32,
}

impl ObjectHandle {
    /// The handle with the given number.
    pub fn new(value: u32) -> (handle: Self)
        ensures
            handle == (ObjectHandle { value }),
    {
        ObjectHandle { value }
    }
}

impl SessionHandle {
    /// The handle that fills an empty session slot.
    pub open spec fn spec_none() -> SessionHandle {
        SessionHandle { value: ESYS_TR_NONE }
    }

    /// The handle with the given number.
    pub fn new(value: u32) -> (handle: Self)
        ensures
            handle == (SessionHandle { value }),
    {
        SessionHandle { value }
    }

    /// The handle that fills an empty session slot.
    #[verifier::when_used_as_spec(spec_none)]
    pub fn none() -> (handle: Self)
        ensures
            handle == Self::spec_none(),
    {
        SessionHandle { value: ESYS_TR_NONE }
    }
}

/// What a command carries for an auxiliary session slot: the session that
/// fills it, or the handle for "no session".
pub open spec fn spec_slot_handle(slot: Option<SessionHandle>) -> SessionHandle {
    match slot {
        Some(handle) => handle,
        None => SessionHandle::spec_none(),
    }
}

} // verus!

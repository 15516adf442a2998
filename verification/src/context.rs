//! The calling context: the sessions that go with every command.
//!
//! A context carries three session slots, a primary one and two auxiliary
//! ones. They are set by an explicit call and stay as they are until the next
//! one; every command reads them when it is issued. A context is held by one
//! owner at a time: whoever wants to issue commands side by side takes one
//! context each.
use vstd::prelude::*;
use crate::error::{Error, WrapperErrorKind};
use crate::handles::{spec_slot_handle, SessionHandle};

verus! {

/// The three session slots of a context: primary, secondary, tertiary.
pub type SessionSlots = (Option<SessionHandle>, Option<SessionHandle>, Option<SessionHandle>);

/// The three slots with no session in any of them.
pub open spec fn spec_no_sessions() -> SessionSlots {
    (None, None, None)
}

/// The state that commands are issued from.
#[derive(Debug, PartialEq, Eq)]
pub struct Context {
    sessions: SessionSlots,
}

impl Context {
    /// The session slots as they stand.
    pub closed spec fn spec_sessions(&self) -> SessionSlots {
        self.sessions
    }

    /// What a command that needs authorization is given for its primary
    /// session: the session in the primary slot, and an error where the slot
    /// is empty.
    pub open spec fn spec_required_session_1(&self) -> Result<SessionHandle, Error> {
        match self.sessions().0 {
            Some(session) => Ok(session),
            None => Err(Error::WrapperError(WrapperErrorKind::MissingAuthSession)),
        }
    }

    /// A context with no session in any slot.
    pub fn new() -> (context: Self)
        ensures
            context.sessions() == spec_no_sessions(),
    {
        Context { sessions: (None, None, None) }
    }

    /// Fills the three slots. What was in them is gone.
    pub fn set_sessions(&mut self, session_handles: SessionSlots)
        ensures
            final(self).sessions() == session_handles,
    {
        self.sessions = session_handles;
    }

    /// Empties the three slots.
    pub fn clear_sessions(&mut self)
        ensures
            final(self).sessions() == spec_no_sessions(),
    {
        self.sessions = (None, None, None);
    }

    /// The session slots as they stand.
    #[verifier::when_used_as_spec(spec_sessions)]
    pub fn sessions(&self) -> (slots: SessionSlots)
        ensures
            slots == self.sessions(),
    {
        self.sessions
    }

    /// The primary session, for a command that cannot go without one.
    #[verifier::when_used_as_spec(spec_required_session_1)]
    pub fn required_session_1(&self) -> (result: Result<SessionHandle, Error>)
        ensures
            result == self.spec_required_session_1(),
    {
        match self.sessions.0 {
            Some(session) => Ok(session),
            None => Err(Error::WrapperError(WrapperErrorKind::MissingAuthSession)),
        }
    }

    /// What a command carries in its second session slot.
    pub fn optional_session_2(&self) -> (handle: SessionHandle)
        ensures
            handle == spec_slot_handle(self.sessions().1),
    {
        match self.sessions.1 {
            Some(session) => session,
            None => SessionHandle::none(),
        }
    }

    /// What a command carries in its third session slot.
    pub fn optional_session_3(&self) -> (handle: SessionHandle)
        ensures
            handle == spec_slot_handle(self.sessions().2),
    {
        match self.sessions.2 {
            Some(session) => session,
            None => SessionHandle::none(),
        }
    }
}

} // verus!

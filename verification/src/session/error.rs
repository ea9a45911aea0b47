//! What can go wrong with sessions.

use vstd::prelude::*;

verus! {

/// A failure of the session store. It is logged; the request goes on without
/// a session, and is never taken for an authenticated one.
#[derive(Clone, Copy, Debug, PartialEq, Eq, Structural)]
pub enum SessionError {
    /// The store could not be reached, or could not do what was asked.
    StoreUnavailable,
}

impl SessionError {
    pub open spec fn message_text(self) -> Seq<char> {
        "session store unavailable"@
    }

    /// The text for the log.
    pub fn message(&self) -> (text: &'static str)
        ensures
            text@ == self.message_text(),
    {
        "session store unavailable"
    }
}

} // verus!

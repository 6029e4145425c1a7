//! The per-thread diagnostic slot.
//!
//! Each calling thread owns one slot holding the most recent diagnostic
//! message. A boundary call clears the calling thread's slot before doing
//! real work and writes a message on any failure path; the slot is
//! overwritten, never appended, so exactly one message is retrievable at a
//! time. Each thread's slot is its own — the unverified shell keeps one
//! instance per thread, so concurrent callers never race on it.

use vstd::prelude::*;

verus! {

/// One thread's diagnostic slot.
pub struct ErrorSlot {
    message: Option<String>,
}

impl ErrorSlot {
    /// The message currently held, if any.
    pub closed spec fn spec_message(&self) -> Option<Seq<char>> {
        match self.message {
            Some(ref m) => Some(m@),
            None => None,
        }
    }

    /// An empty slot: no call has failed yet.
    pub fn new() -> (s: ErrorSlot)
        ensures
            s.spec_message() is None,
    {
        ErrorSlot { message: None }
    }

    /// Empties the slot; done at the start of every boundary call.
    pub fn clear_error(&mut self)
        ensures
            final(self).spec_message() is None,
    {
        self.message = None;
    }

    /// Records a failure's diagnostic, replacing whatever the slot held.
    pub fn set_error(&mut self, message: String)
        ensures
            final(self).spec_message() == Some(message@),
    {
        self.message = Some(message);
    }

    /// The most recent diagnostic on this thread, if the last boundary call
    /// failed; nothing if it succeeded.
    pub fn last_error(&self) -> (r: &Option<String>)
        ensures
            r is Some <==> self.spec_message() is Some,
            r matches Some(m) ==> self.spec_message() == Some(m@),
    {
        &self.message
    }
}

} // verus!

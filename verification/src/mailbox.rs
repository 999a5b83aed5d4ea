//! The single-slot mailbox that holds at most one pending failure descriptor.
//!
//! Each thread owns one mailbox value; the library never shares a mailbox
//! across threads, so no operation here synchronizes. A guarded invocation
//! clears the mailbox on entry, the exhaustion hook fills it at most once
//! while the invocation is active, and the invocation takes the value back
//! out when it observes an unwind.

use crate::error::AllocError;
use crate::layout::Layout;
use vstd::prelude::*;

verus! {

/// Thread-scoped single-slot storage for a pending [`AllocError`].
pub struct Mailbox {
    pub slot: Option<AllocError>,
}

impl Mailbox {
    /// The pending descriptor, if one is stored.
    pub open spec fn pending(self) -> Option<AllocError> {
        self.slot
    }

    /// An empty mailbox, the state every thread starts in.
    pub fn new() -> (m: Mailbox)
        ensures
            m.pending() is None,
    {
        Mailbox { slot: None }
    }

    /// Injects an allocation failure into the mailbox.
    ///
    /// The mailbox must be empty: a pending value here would mean a nested
    /// guarded invocation on the same thread, which is unsupported.
    pub fn inject(&mut self, e: AllocError)
        requires
            old(self).pending() is None,
        ensures
            final(self).pending() == Some(e),
    {
        self.slot = Some(e);
    }

    /// Checks whether a failure descriptor is pending.
    pub fn has_error(&self) -> (r: bool)
        ensures
            r == (self.pending() is Some),
    {
        self.slot.is_some()
    }

    /// Removes and returns the pending descriptor, leaving the mailbox empty.
    pub fn take(&mut self) -> (r: Option<AllocError>)
        ensures
            r == old(self).pending(),
            final(self).pending() is None,
    {
        self.slot.take()
    }

    /// Discards any pending descriptor; idempotent.
    pub fn clear(&mut self)
        ensures
            final(self).pending() is None,
    {
        let _ = self.take();
    }
}

/// Records the allocation failure for `layout` in the current thread's
/// mailbox. The runtime's exhaustion hook calls this just before raising the
/// unwind that abandons the failing computation.
///
/// The mailbox must be empty: allocation exhaustion inside a guarded
/// invocation that already holds a pending failure would be a nested
/// invocation, which is unsupported.
pub fn oom_hook(m: &mut Mailbox, layout: Layout)
    requires
        old(m).pending() is None,
    ensures
        final(m).pending() == Some(AllocError::spec_new(layout)),
{
    m.inject(AllocError::new(layout));
}

} // verus!

//! The decision logic of a guarded invocation.
//!
//! A guarded invocation brackets a computation: it makes sure the fault
//! policy is installed, clears the calling thread's mailbox, runs the
//! computation under fault capture, and settles the outcome. The runtime
//! plumbing (hook registration, unwind capture, the abort itself) lives
//! outside this library; every decision it acts on is taken here.
//!
//! Installing the fault policy is a process-wide, permanent effect: once the
//! hooks are registered, allocation exhaustion anywhere in the process —
//! not only inside a guarded invocation — unwinds instead of aborting
//! directly, and that unwind is itself fatal unless it happens on a thread
//! currently inside a guarded invocation whose mailbox was empty and is now
//! filled.

use crate::error::AllocError;
use crate::layout::Layout;
use crate::mailbox::Mailbox;
use vstd::prelude::*;

verus! {

/// How a guarded computation ended: it completed with a value, or it was
/// abandoned by an unwind.
pub enum Outcome<R> {
    Completed(R),
    Unwound,
}

/// What the guarded invocation must do with an outcome: hand a result back
/// to the caller, or treat the fault as fatal (the process aborts, nothing
/// is returned).
pub enum Verdict<R> {
    Deliver(Result<R, AllocError>),
    Fatal,
}

/// The verdict for `outcome` when the mailbox held `pending` at the moment
/// the outcome was observed: a completed computation delivers its value; an
/// unwind delivers the pending failure descriptor if there is one, and is
/// fatal otherwise — only allocation exhaustion fills the mailbox, so an
/// unwind that left it empty came from some other fault.
pub open spec fn spec_verdict<R>(pending: Option<AllocError>, outcome: Outcome<R>) -> Verdict<R> {
    match outcome {
        Outcome::Completed(r) => Verdict::Deliver(Ok(r)),
        Outcome::Unwound => match pending {
            Some(e) => Verdict::Deliver(Err(e)),
            None => Verdict::Fatal,
        },
    }
}

/// The mailbox contents after settling: untouched for a completed
/// computation, taken (emptied) after an unwind.
pub open spec fn spec_pending_after<R>(
    pending: Option<AllocError>,
    outcome: Outcome<R>,
) -> Option<AllocError> {
    match outcome {
        Outcome::Completed(_) => pending,
        Outcome::Unwound => None,
    }
}

/// Settles the outcome of a guarded computation against the calling
/// thread's mailbox.
pub fn settle<R>(m: &mut Mailbox, outcome: Outcome<R>) -> (v: Verdict<R>)
    ensures
        v == spec_verdict(old(m).pending(), outcome),
        final(m).pending() == spec_pending_after(old(m).pending(), outcome),
{
    match outcome {
        Outcome::Completed(r) => Verdict::Deliver(Ok(r)),
        Outcome::Unwound => match m.take() {
            Some(e) => Verdict::Deliver(Err(e)),
            None => Verdict::Fatal,
        },
    }
}

/// Decides what the top-level fault handler does with an unwind on the
/// thread owning `m`: abort the process unless the mailbox shows the unwind
/// originated from allocation exhaustion, in which case it may keep
/// propagating towards the guarded invocation.
pub fn fault_hook_aborts(m: &Mailbox) -> (abort: bool)
    ensures
        abort == (m.pending() is None),
{
    !m.has_error()
}

/// The flag state after an installation attempt.
pub open spec fn spec_after_install(g: PolicyFlag) -> PolicyFlag {
    PolicyFlag { installed: true }
}

/// Whether an installation attempt on flag state `g` is the one that
/// actually installs the hooks.
pub open spec fn spec_install_first(g: PolicyFlag) -> bool {
    !g.installed
}

/// The process-wide policy-installed flag: `false` until the fault hooks
/// are registered, then `true` for the remainder of the process. The flag
/// moves from `false` to `true` exactly once; installation has no rollback.
pub struct PolicyFlag {
    pub installed: bool,
}

impl PolicyFlag {
    /// The flag state a process starts in: nothing installed.
    pub fn new() -> (g: PolicyFlag)
        ensures
            !g.installed,
    {
        PolicyFlag { installed: false }
    }

    /// One installation attempt. Returns whether this attempt is the one
    /// that must register the hooks; every later attempt finds the policy
    /// already installed.
    pub fn try_install(&mut self) -> (first: bool)
        ensures
            *final(self) == spec_after_install(*old(self)),
            first == spec_install_first(*old(self)),
    {
        let first = !self.installed;
        self.installed = true;
        first
    }
}

/// Begins a guarded invocation: makes sure the fault policy is installed
/// (returning whether this call must register the hooks) and clears the
/// calling thread's mailbox, so the round starts with no pending failure.
pub fn begin_round(flag: &mut PolicyFlag, m: &mut Mailbox) -> (first: bool)
    ensures
        *final(flag) == spec_after_install(*old(flag)),
        first == spec_install_first(*old(flag)),
        final(m).pending() is None,
{
    let first = flag.try_install();
    m.clear();
    first
}

/// Law: a computation that completes normally delivers its value as
/// success, whatever the mailbox held, and leaves the mailbox as it was; in
/// particular a round that began with a cleared mailbox ends with no
/// pending descriptor.
pub proof fn lemma_success_round<R>(pending: Option<AllocError>, r: R)
    ensures
        spec_verdict(pending, Outcome::Completed(r)) == Verdict::Deliver(Ok::<R, AllocError>(r)),
        spec_pending_after(pending, Outcome::Completed(r)) == pending,
{
}

/// Law: a computation abandoned by allocation exhaustion for layout `l` —
/// so the hook filled the empty mailbox with the descriptor for `l` —
/// delivers a failure wrapping exactly `l`, and the round leaves the
/// mailbox empty, so a later round on the same thread starts from the same
/// state as this one did.
pub proof fn lemma_oom_round<R>(l: Layout)
    ensures
        spec_verdict::<R>(Some(AllocError::spec_new(l)), Outcome::Unwound) == Verdict::Deliver(
            Err::<R, AllocError>(AllocError::spec_new(l)),
        ),
        AllocError::spec_new(l).spec_layout() == l,
        spec_pending_after::<R>(Some(AllocError::spec_new(l)), Outcome::Unwound) is None,
{
}

/// Law: an unwind that reaches settling with an empty mailbox — one raised
/// by anything other than allocation exhaustion — is fatal: no result is
/// delivered to the caller.
pub proof fn lemma_foreign_fault_fatal<R>()
    ensures
        spec_verdict::<R>(None, Outcome::Unwound) == Verdict::<R>::Fatal,
{
}

/// Law: installation is one-shot. An attempt installs the policy; on a flag
/// already installed, an attempt changes nothing and is not the installing
/// one — so over any sequence of attempts exactly the first installs.
pub proof fn lemma_install_one_shot(g: PolicyFlag)
    ensures
        spec_after_install(g).installed,
        spec_after_install(spec_after_install(g)) == spec_after_install(g),
        !spec_install_first(spec_after_install(g)),
{
}

} // verus!

//! Turns allocation exhaustion into a recoverable error value.
//!
//! A rejected memory request is described by an [`AllocError`], which carries
//! the [`Layout`] that could not be satisfied. A per-thread single-slot
//! [`Mailbox`] holds at most one pending descriptor; the process-wide
//! fault-policy flag and the guarded-invocation decision logic tie the two
//! together so that an unwind caused by allocation exhaustion is surfaced as
//! a failure value while every other fault remains fatal.

pub mod error;
pub mod guard;
pub mod layout;
pub mod mailbox;

pub use error::AllocError;
pub use guard::{Outcome, PolicyFlag, Verdict};
pub use layout::Layout;
pub use mailbox::Mailbox;

//! A fixed-size worker pool: callers submit one-shot tasks, a set of worker
//! threads executes them, and a coordinated shutdown joins every worker.
//!
//! The hand-off between submitters and workers comes in interchangeable
//! strategies: a lock-free multi-producer/multi-consumer channel, the same
//! channel behind one exclusive lock (a single locked receiving endpoint),
//! and a condition-variable-guarded deque whose decision logic lives in
//! [`status`].  The pool itself — submission, the shutdown coordinator's
//! counting, and the take-once handle slots — stands in [`pool`] and
//! [`worker`]; [`model`] states and proves what the protocol guarantees:
//! each submitted task executes exactly once, and every worker receives
//! exactly one stop signal.

pub mod chan;
pub mod message;
pub mod model;
pub mod pool;
pub mod sched;
pub mod sources;
pub mod status;
pub mod worker;

//! Signal/wait core of a kernel-object model: per-object signal bitsets,
//! callback registration and delivery on signal transitions, the decision
//! logic of the blocking and asynchronous wait paths, and monotonic
//! kernel-object identifier allocation.

pub mod koid;
pub mod object;
pub mod signal;

//! A multiplexing runtime between a single-threaded messaging engine and any
//! number of logical client sessions.
//!
//! The library holds the verified core: the client registry, the decision
//! logic of the two background pumps (raw-event dispatch and
//! authorization-state dispatch), the authorization state machine with its
//! pluggable credential strategy, and the flat JSON value types the engine
//! exchanges. The asynchronous plumbing that drives these decisions (channels,
//! tasks, the blocking receive) lives outside the library and feeds it plain
//! values.

pub mod errors;
pub mod json;
pub mod types;
pub mod wire;
pub mod worker;
pub mod message_scheduling_state;

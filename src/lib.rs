//! A small member of a replicated state-machine cluster: the wire messages,
//! the replicated log with its consistency rules, the pending-message queue
//! drain, the dispatcher's classification of inbound messages, and the node's
//! election timer and peer set.

pub mod log;
pub mod message;
pub mod dispatch;
pub mod node;
pub mod store;
pub mod cli;

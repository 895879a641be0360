//! Nodes that reach each other by public key, and the directory that maps a
//! display name to a node's current public key.

pub mod acceptor;
pub mod client;
pub mod discovery;
pub mod identity;
pub mod keys;
pub mod node;
pub mod registry;
pub mod session;
pub mod state;

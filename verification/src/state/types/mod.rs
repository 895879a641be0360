//! The values that the chat state is made of.

pub mod message;

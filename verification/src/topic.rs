//! The topic layer: platform-neutral events, messages and the bots that send
//! them.

pub mod event;
pub mod message;

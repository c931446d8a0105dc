//! The broadcast relay: admission, the hub, the session state machine, and
//! what is proved of them.

pub mod admission;
pub mod error;
pub mod fanout;
pub mod hub;
pub mod lifecycle;
pub mod message;
pub mod session;

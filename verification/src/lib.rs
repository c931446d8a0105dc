//! A best-effort broadcast relay: admission by a shared bearer credential,
//! a bounded fan-out hub, and the per-connection session state machine,
//! together with the request rules of the services that run beside it.

pub mod api;
pub mod relay;
pub mod utils;

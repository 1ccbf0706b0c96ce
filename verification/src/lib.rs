//! A minimal TCP load balancer, as a verified core: the round-robin pool of
//! backends, the decisions of the accept loop, and the state machine that
//! relays one connection's bytes between a client and its backend.
//!
//! The sockets themselves live with the caller. The library says what to do
//! next and is told what happened.

pub mod dispatch;
pub mod pool;
pub mod relay;
pub mod trace;

//! The decisions of the accept loop.
//!
//! The loop itself belongs to the owner of the listening socket: it accepts,
//! asks [`dispatch`] what to do with what came of it, and does that. Backends
//! are chosen here, in the order in which connections arrive, before any
//! handler runs. Nothing bounds the number of handlers at work.

use vstd::prelude::*;
use crate::pool::{BackendPool, routed};

verus! {

/// What one call of accept came to.
#[derive(Clone, Copy, Debug, PartialEq, Eq, Structural)]
pub enum Accepted {
    /// A client has connected.
    Connection,
    /// The call failed.
    Failure,
}

/// What the accept loop does before it accepts again.
#[derive(Debug, PartialEq, Eq)]
pub enum Dispatch {
    /// Start a handler of its own for the new connection, with this backend.
    Spawn(String),
    /// Report the failed accept. The loop goes on.
    Report,
}

/// Decides what becomes of one accept. A connection gets the pool's next
/// backend; a failed accept is reported and leaves the rotation where it
/// was.
pub fn dispatch(pool: &mut BackendPool, accepted: Accepted) -> (d: Dispatch)
    ensures
        final(pool).backends() == old(pool).backends(),
        accepted == Accepted::Connection ==> {
            &&& d == Dispatch::Spawn(routed(old(pool).backends(), old(pool).served()))
            &&& d == Dispatch::Spawn(old(pool).backends()[old(pool).cursor() as int])
            &&& final(pool).served() == old(pool).served() + 1
            &&& final(pool).cursor() == (old(pool).cursor() + 1) % old(pool).backends().len()
            &&& final(pool).cursor() == (if old(pool).cursor() + 1 == old(pool).backends().len() {
                0
            } else {
                old(pool).cursor() + 1
            })
        },
        accepted == Accepted::Failure ==> {
            &&& d == Dispatch::Report
            &&& final(pool).served() == old(pool).served()
            &&& final(pool).cursor() == old(pool).cursor()
        },
{
    match accepted {
        Accepted::Connection => Dispatch::Spawn(pool.get_next_backend().clone()),
        Accepted::Failure => Dispatch::Report,
    }
}

} // verus!

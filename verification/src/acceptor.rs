//! When the relay goes on accepting connections and when it stops.
//!
//! The caller waits for the listener and tells what came of it; this module
//! says what to do next.  A connection that fails later, while it is served,
//! is the business of its own task and never comes back here.

use vstd::prelude::*;

verus! {

/// What to do after waiting for the listener.
#[derive(Debug)]
pub enum Accept<C> {
    /// Serve this connection in a task of its own, then wait again.
    Serve(C),
    /// The listener failed: accept no more.
    Stop,
}

/// What follows from an attempt to accept: a connection is served, and a
/// failure of the listener ends the accepting.
pub open spec fn accept_step<C, E>(accepted: Result<C, E>) -> Accept<C> {
    match accepted {
        Ok(connection) => Accept::Serve(connection),
        Err(_) => Accept::Stop,
    }
}

/// Decides what to do with the outcome of one attempt to accept.
pub fn next_connection<C, E>(accepted: Result<C, E>) -> (next: Accept<C>)
    ensures
        next == accept_step(accepted),
{
    match accepted {
        Ok(connection) => Accept::Serve(connection),
        Err(_) => Accept::Stop,
    }
}

/// The relay stops accepting only when the listener fails, and every
/// connection that the listener yields is served.
pub proof fn lemma_only_the_listener_stops_the_relay<C, E>(accepted: Result<C, E>)
    ensures
        accept_step(accepted) is Stop <==> accepted is Err,
        accepted is Ok ==> accept_step(accepted) == Accept::Serve(accepted->Ok_0),
{
}

} // verus!

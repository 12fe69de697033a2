//! Per-connection handler decisions: what a forward-mode handler makes of
//! the final connection shutdown, and what a reverse-mode handler makes of
//! the one accept on its ephemeral listener.

use vstd::prelude::*;
use crate::relay::IoFault;

verus! {

/// Classifies the outcome of the full shutdown a forward-mode handler issues
/// once both relay directions have finished: no fault or a `NotConnected`
/// fault (the peer already closed) is success, any other fault is returned to
/// the caller.
pub fn shutdown_result(outcome: Option<IoFault>) -> (r: Result<(), IoFault>)
    ensures
        r is Ok <==> (outcome is None || outcome == Some(IoFault::NotConnected)),
        r is Err ==> outcome == Some(r->Err_0),
{
    match outcome {
        None => Ok(()),
        Some(f) => {
            if f == IoFault::NotConnected {
                Ok(())
            } else {
                Err(f)
            }
        },
    }
}

/// What a reverse-mode handler does after blocking for exactly one callback
/// connection on its ephemeral listener.
pub enum CallbackDecision<T, E> {
    /// A callback connection arrived: bridge it to the inbound connection.
    Bridge(T),
    /// The accept failed: the handler ends with that error.
    Fail(E),
    /// The listener produced no connection at all (listener closure): the
    /// handler ends normally.
    ListenerClosed,
}

/// Decides a reverse-mode session from the one accept on the ephemeral
/// listener: a connection is bridged, an accept error ends the session with
/// that error, and a closed listener ends the session normally.
pub fn callback_decision<T, E>(accepted: Option<Result<T, E>>) -> (d: CallbackDecision<T, E>)
    ensures
        match accepted {
            Some(Ok(conn)) => d == CallbackDecision::<T, E>::Bridge(conn),
            Some(Err(e)) => d == CallbackDecision::<T, E>::Fail(e),
            None => d == CallbackDecision::<T, E>::ListenerClosed,
        },
{
    match accepted {
        Some(Ok(conn)) => CallbackDecision::Bridge(conn),
        Some(Err(e)) => CallbackDecision::Fail(e),
        None => CallbackDecision::ListenerClosed,
    }
}

} // verus!

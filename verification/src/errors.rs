use vstd::prelude::*;

verus! {

/// The error taxonomy of the broadcast client.
///
/// Every failure is returned to the immediate caller as a typed result;
/// nothing is swallowed or retried internally.
#[derive(Clone, Copy, Debug, PartialEq, Eq, Structural)]
pub enum BroadcastError {
    /// The simulator's message endpoint was not registered when the client
    /// was constructed. Fatal to that construction attempt; the caller must
    /// confirm the simulator is running and construct a new client.
    EndpointNotFound,
    /// The transport rejected a post after the endpoint had been resolved
    /// (the simulator exited and the handle went stale). Reported per call;
    /// the client itself stays usable for further attempts.
    DeliveryFailed,
    /// A command was requested with a payload that violates its family's
    /// shape invariant. Detected before any delivery; never partially
    /// applied.
    InvalidArgument,
}

} // verus!

use vstd::prelude::*;

verus! {

/// Why a transition was refused, a manager gave up its link, or a client
/// session was closed.
#[derive(Clone, Copy, Debug, PartialEq, Eq, Structural)]
pub enum RelayError {
    /// The remote link could not be reached.
    ConnectFailure,
    /// A read from or a write to the remote link failed mid-session.
    IoFailure,
    /// The client socket was closed or returned an error.
    ClientDisconnect,
    /// The event handed in does not answer the action that is outstanding.
    OutOfTurn,
}

} // verus!

//! Direction arbitration for a byte relay between a controlling client and a
//! remote peer.
//!
//! Two connection managers, one reading from the peer and one writing to it,
//! are switched on and off by a dispatcher that follows the client socket.
//! Everything here is a pure state machine: each transition takes the outcome
//! of the last piece of socket work and names the next piece, so the caller
//! owns the sockets and the waiting while the rules live in this crate.

pub mod error;
pub mod mailbox;
pub mod inbound;
pub mod outbound;
pub mod dispatcher;
pub mod laws;

pub use crate::dispatcher::{DispatchAction, DispatchEvent, DispatchState, Dispatcher};
pub use crate::error::RelayError;
pub use crate::inbound::{ReadAction, ReadConnection, ReadEvent, ReadStage};
pub use crate::mailbox::Mailbox;
pub use crate::outbound::{WriteAction, WriteConnection, WriteEvent, WriteStage};

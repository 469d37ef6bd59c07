use vstd::prelude::*;
use crate::error::RelayError;
use crate::inbound::{ReadConnection, ReadModel};
use crate::outbound::{WriteConnection, WriteModel};

verus! {

/// Where a client session stands.
#[derive(Clone, Copy, Debug, PartialEq, Eq, Structural)]
pub enum DispatchState {
    /// Ready to look at the client socket.
    Idle,
    /// A client buffer was handed to the outbound manager and the end of its
    /// write is awaited.
    Forwarding,
    /// The client had nothing to say and one byte from the peer is awaited.
    Relaying,
    /// The session is over.
    Closed,
}

/// What the caller reports to the dispatcher.
#[derive(Debug, PartialEq, Eq)]
pub enum DispatchEvent {
    /// The client socket yielded these bytes before the read timed out.
    ClientData(Vec<u8>),
    /// The client socket yielded nothing before the read timed out.
    ClientSilent,
    /// The client socket was closed or returned an error.
    ClientGone,
    /// The outbound manager reported the end of a write.
    Completed(bool),
    /// The inbound manager delivered this byte.
    PeerByte(u8),
    /// A manager reported that it gave up its link.
    PeerFailed(RelayError),
}

/// What the dispatcher asks the caller to do next.
#[derive(Clone, Copy, Debug, PartialEq, Eq, Structural)]
pub enum DispatchAction {
    /// Read from the client socket, with the short timeout.
    ReadClient,
    /// Block until the outbound manager reports on the write.
    AwaitCompletion,
    /// Block until the inbound manager delivers a byte.
    AwaitByte,
    /// Write this one byte to the client and flush, then as for `ReadClient`.
    Reply(u8),
    /// Close the client session for this reason.
    Close(RelayError),
}

/// Everything one dispatcher transition leaves behind.
pub ghost struct Outcome {
    pub state: DispatchState,
    pub inbound: ReadModel,
    pub outbound: WriteModel,
    pub action: DispatchAction,
}

/// Whether `event` may be reported in `state`.
pub open spec fn accepts(state: DispatchState, event: DispatchEvent) -> bool {
    match state {
        DispatchState::Idle => event is ClientData || event is ClientSilent || event is ClientGone,
        DispatchState::Forwarding => event is Completed || event is PeerFailed
            || event is ClientGone,
        DispatchState::Relaying => event is PeerByte || event is PeerFailed || event is ClientGone,
        DispatchState::Closed => false,
    }
}

/// Peer to client: inbound is asked to run, outbound to stop, and one byte is
/// awaited.
pub open spec fn relay(inbound: ReadModel, outbound: WriteModel) -> Outcome {
    Outcome {
        state: DispatchState::Relaying,
        inbound: inbound.signalled(true),
        outbound: outbound.signalled(false),
        action: DispatchAction::AwaitByte,
    }
}

/// Client to peer: inbound is asked to stop, then outbound to run, then the
/// buffer is queued, and the end of its write is awaited.
pub open spec fn forward(inbound: ReadModel, outbound: WriteModel, buffer: Seq<u8>) -> Outcome {
    Outcome {
        state: DispatchState::Forwarding,
        inbound: inbound.signalled(false),
        outbound: outbound.signalled(true).loaded(buffer),
        action: DispatchAction::AwaitCompletion,
    }
}

/// Back to listening to the client after a write that went through.
pub open spec fn resume(inbound: ReadModel, outbound: WriteModel) -> Outcome {
    Outcome {
        state: DispatchState::Idle,
        inbound: inbound.signalled(true),
        outbound: outbound.signalled(false),
        action: DispatchAction::ReadClient,
    }
}

/// The end of the session: both managers are asked to stop, and what the
/// outbound manager still holds for this session is forgotten, so that no
/// buffer and no completion flag of it reaches a later one.
pub open spec fn shut(inbound: ReadModel, outbound: WriteModel, reason: RelayError) -> Outcome {
    Outcome {
        state: DispatchState::Closed,
        inbound: inbound.signalled(false),
        outbound: outbound.purged().signalled(false),
        action: DispatchAction::Close(reason),
    }
}

/// The transition taken on an event that `accepts` admits. An empty buffer
/// from the client counts as silence.
pub open spec fn next(inbound: ReadModel, outbound: WriteModel, event: DispatchEvent) -> Outcome {
    match event {
        DispatchEvent::ClientData(buffer) => if buffer@.len() > 0 {
            forward(inbound, outbound, buffer@)
        } else {
            relay(inbound, outbound)
        },
        DispatchEvent::ClientSilent => relay(inbound, outbound),
        DispatchEvent::ClientGone => shut(inbound, outbound, RelayError::ClientDisconnect),
        DispatchEvent::Completed(success) => if success {
            resume(inbound, outbound)
        } else {
            shut(inbound, outbound, RelayError::IoFailure)
        },
        DispatchEvent::PeerByte(byte) => Outcome {
            state: DispatchState::Idle,
            inbound,
            outbound,
            action: DispatchAction::Reply(byte),
        },
        DispatchEvent::PeerFailed(fault) => shut(inbound, outbound, fault),
    }
}

/// What the dispatcher keeps true of the modes it has asked for: never both
/// directions at once; while forwarding, not inbound; otherwise, not
/// outbound; and neither once the session is closed.
pub open spec fn one_direction(state: DispatchState, inbound: ReadModel, outbound: WriteModel)
    -> bool {
    &&& !(inbound.wanted() && outbound.wanted())
    &&& state == DispatchState::Forwarding ==> !inbound.wanted()
    &&& state == DispatchState::Idle || state == DispatchState::Relaying ==> !outbound.wanted()
    &&& state == DispatchState::Closed ==> !inbound.wanted() && !outbound.wanted()
}

/// The control loop of one client session, arbitrating between forwarding
/// client data to the peer and relaying peer bytes to the client.
#[derive(Debug)]
pub struct Dispatcher {
    state: DispatchState,
}

impl View for Dispatcher {
    type V = DispatchState;

    closed spec fn view(&self) -> DispatchState {
        self.state
    }
}

impl Dispatcher {
    /// Begins a client session: inbound is asked to run and outbound to stop,
    /// with nothing queued and nothing to report from before. The caller
    /// reads the client socket next.
    pub fn open(inbound: &mut ReadConnection, outbound: &mut WriteConnection) -> (r: Self)
        ensures
            r@ == DispatchState::Idle,
            final(inbound)@ == old(inbound)@.signalled(true),
            final(outbound)@ == old(outbound)@.purged().signalled(false),
            one_direction(r@, final(inbound)@, final(outbound)@),
    {
        inbound.start();
        outbound.purge();
        outbound.stop();
        Dispatcher { state: DispatchState::Idle }
    }

    /// Where the session stands.
    pub fn state(&self) -> (r: DispatchState)
        ensures
            r == self@,
    {
        self.state
    }

    fn relay(&mut self, inbound: &mut ReadConnection, outbound: &mut WriteConnection) -> (r:
        DispatchAction)
        ensures
            final(self)@ == relay(old(inbound)@, old(outbound)@).state,
            final(inbound)@ == relay(old(inbound)@, old(outbound)@).inbound,
            final(outbound)@ == relay(old(inbound)@, old(outbound)@).outbound,
            r == relay(old(inbound)@, old(outbound)@).action,
    {
        inbound.start();
        outbound.stop();
        self.state = DispatchState::Relaying;
        DispatchAction::AwaitByte
    }

    fn shut(
        &mut self,
        inbound: &mut ReadConnection,
        outbound: &mut WriteConnection,
        reason: RelayError,
    ) -> (r: DispatchAction)
        ensures
            final(self)@ == shut(old(inbound)@, old(outbound)@, reason).state,
            final(inbound)@ == shut(old(inbound)@, old(outbound)@, reason).inbound,
            final(outbound)@ == shut(old(inbound)@, old(outbound)@, reason).outbound,
            r == shut(old(inbound)@, old(outbound)@, reason).action,
    {
        inbound.stop();
        outbound.purge();
        outbound.stop();
        self.state = DispatchState::Closed;
        DispatchAction::Close(reason)
    }

    /// One transition of the session: takes what happened and names what to do
    /// next, posting mode signals and queueing the client's buffer on the way.
    /// An event that may not be reported in the present state is refused and
    /// changes nothing.
    pub fn step(
        &mut self,
        inbound: &mut ReadConnection,
        outbound: &mut WriteConnection,
        event: DispatchEvent,
    ) -> (r: Result<DispatchAction, RelayError>)
        ensures
            accepts(old(self)@, event) ==> {
                let outcome = next(old(inbound)@, old(outbound)@, event);
                &&& r == Ok::<DispatchAction, RelayError>(outcome.action)
                &&& final(self)@ == outcome.state
                &&& final(inbound)@ == outcome.inbound
                &&& final(outbound)@ == outcome.outbound
            },
            !accepts(old(self)@, event) ==> {
                &&& r == Err::<DispatchAction, RelayError>(RelayError::OutOfTurn)
                &&& final(self)@ == old(self)@
                &&& final(inbound)@ == old(inbound)@
                &&& final(outbound)@ == old(outbound)@
            },
            one_direction(old(self)@, old(inbound)@, old(outbound)@) ==> one_direction(
                final(self)@,
                final(inbound)@,
                final(outbound)@,
            ),
    {
        match self.state {
            DispatchState::Idle => match event {
                DispatchEvent::ClientData(buffer) => {
                    if buffer.len() > 0 {
                        inbound.stop();
                        outbound.start();
                        outbound.send(buffer);
                        self.state = DispatchState::Forwarding;
                        Ok(DispatchAction::AwaitCompletion)
                    } else {
                        Ok(self.relay(inbound, outbound))
                    }
                },
                DispatchEvent::ClientSilent => Ok(self.relay(inbound, outbound)),
                DispatchEvent::ClientGone => Ok(
                    self.shut(inbound, outbound, RelayError::ClientDisconnect),
                ),
                _ => Err(RelayError::OutOfTurn),
            },
            DispatchState::Forwarding => match event {
                DispatchEvent::Completed(success) => {
                    if success {
                        inbound.start();
                        outbound.stop();
                        self.state = DispatchState::Idle;
                        Ok(DispatchAction::ReadClient)
                    } else {
                        Ok(self.shut(inbound, outbound, RelayError::IoFailure))
                    }
                },
                DispatchEvent::PeerFailed(fault) => Ok(self.shut(inbound, outbound, fault)),
                DispatchEvent::ClientGone => Ok(
                    self.shut(inbound, outbound, RelayError::ClientDisconnect),
                ),
                _ => Err(RelayError::OutOfTurn),
            },
            DispatchState::Relaying => match event {
                DispatchEvent::PeerByte(byte) => {
                    self.state = DispatchState::Idle;
                    Ok(DispatchAction::Reply(byte))
                },
                DispatchEvent::PeerFailed(fault) => Ok(self.shut(inbound, outbound, fault)),
                DispatchEvent::ClientGone => Ok(
                    self.shut(inbound, outbound, RelayError::ClientDisconnect),
                ),
                _ => Err(RelayError::OutOfTurn),
            },
            DispatchState::Closed => Err(RelayError::OutOfTurn),
        }
    }
}

} // verus!

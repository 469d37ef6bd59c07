use vstd::prelude::*;
use crate::error::RelayError;
use crate::mailbox::{resolve, Mailbox};

verus! {

/// Where the inbound worker stands between two pieces of socket work.
#[derive(Clone, Copy, Debug, PartialEq, Eq, Structural)]
pub enum ReadStage {
    /// No link is held and nothing is outstanding.
    Idle,
    /// A connect was asked for and its outcome is awaited.
    Connecting,
    /// A link is held and a single-byte read on it is outstanding.
    Reading,
    /// The link was handed back for shutdown and the outcome is awaited.
    Closing,
}

/// What the caller reports to the inbound worker.
#[derive(Clone, Copy, Debug, PartialEq, Eq, Structural)]
pub enum ReadEvent {
    /// Nothing happened; the worker should look at its inbox again.
    Wake,
    /// The connect succeeded and the caller now holds the link.
    Connected,
    /// The connect failed; no link exists.
    ConnectFailed,
    /// The read returned this byte.
    Byte(u8),
    /// The read failed.
    ReadFailed,
    /// The link was shut down in both directions and dropped.
    Closed,
    /// Shutting the link down failed; it was dropped all the same.
    CloseFailed,
}

/// What the inbound worker asks the caller to do next.
#[derive(Clone, Copy, Debug, PartialEq, Eq, Structural)]
pub enum ReadAction {
    /// Hold no link; report `Wake` when a mode signal may have arrived.
    Wait,
    /// Open a link to the remote endpoint.
    Connect,
    /// Read exactly one byte from the link, blocking until it arrives.
    Read,
    /// Shut the link down in both directions and drop it.
    Shutdown,
    /// Drop the broken link without further ceremony, then as for `Wait`.
    Discard,
}

/// The inbound manager as contracts see it.
pub ghost struct ReadModel {
    /// The mode the worker last settled on.
    pub mode: bool,
    /// The mode signal that the worker has not looked at yet.
    pub pending: Option<bool>,
    pub stage: ReadStage,
    /// Bytes read from the peer and not yet taken by the dispatcher, oldest
    /// first.
    pub queue: Seq<u8>,
    /// The failure that the dispatcher has not been told of yet.
    pub fault: Option<RelayError>,
}

impl ReadModel {
    /// A freshly made manager: enabled, no link, nothing queued.
    pub open spec fn initial() -> ReadModel {
        ReadModel {
            mode: true,
            pending: None,
            stage: ReadStage::Idle,
            queue: Seq::empty(),
            fault: None,
        }
    }

    /// The manager after a mode signal was posted to it.
    pub open spec fn signalled(self, mode: bool) -> ReadModel {
        ReadModel { pending: Some(mode), ..self }
    }

    /// The mode that the dispatcher last asked for, whether or not the worker
    /// has noticed.
    pub open spec fn wanted(self) -> bool {
        resolve(self.pending, self.mode)
    }

    /// How many links to the remote endpoint the caller holds: one while a
    /// read is outstanding, none otherwise.
    pub open spec fn links(self) -> int {
        if self.stage == ReadStage::Reading {
            1
        } else {
            0
        }
    }

    /// A link is asked for or held only by an enabled worker, and a link is
    /// given up only by a disabled one.
    pub open spec fn inv(self) -> bool {
        &&& self.stage == ReadStage::Connecting || self.stage == ReadStage::Reading ==> self.mode
        &&& self.stage == ReadStage::Closing ==> !self.mode
    }

    /// Whether `event` answers what is outstanding.
    pub open spec fn accepts(self, event: ReadEvent) -> bool {
        match self.stage {
            ReadStage::Idle => event == ReadEvent::Wake,
            ReadStage::Connecting => event == ReadEvent::Connected || event
                == ReadEvent::ConnectFailed,
            ReadStage::Reading => event is Byte || event == ReadEvent::ReadFailed,
            ReadStage::Closing => event == ReadEvent::Closed || event == ReadEvent::CloseFailed,
        }
    }

    /// One look at the inbox followed by the decision it leads to. `linked`
    /// says whether a link is held at that moment.
    pub open spec fn poll(self, linked: bool) -> (ReadModel, ReadAction) {
        let mode = self.wanted();
        let seen = ReadModel { mode, pending: None, ..self };
        if mode {
            if linked {
                (ReadModel { stage: ReadStage::Reading, ..seen }, ReadAction::Read)
            } else {
                (ReadModel { stage: ReadStage::Connecting, ..seen }, ReadAction::Connect)
            }
        } else {
            if linked {
                (ReadModel { stage: ReadStage::Closing, ..seen }, ReadAction::Shutdown)
            } else {
                (ReadModel { stage: ReadStage::Idle, ..seen }, ReadAction::Wait)
            }
        }
    }

    /// The manager given up after `fault`: disabled, no link, the fault kept
    /// for the dispatcher. Signals posted before the failure are spent, so
    /// only a later enable sets the worker going again.
    pub open spec fn failed(self, fault: RelayError) -> ReadModel {
        ReadModel {
            mode: false,
            pending: None,
            stage: ReadStage::Idle,
            fault: Some(fault),
            ..self
        }
    }

    /// The transition taken on an event that `accepts` admits.
    pub open spec fn next(self, event: ReadEvent) -> (ReadModel, ReadAction) {
        match event {
            ReadEvent::Wake => self.poll(false),
            ReadEvent::Connected => (
                ReadModel { stage: ReadStage::Reading, ..self },
                ReadAction::Read,
            ),
            ReadEvent::ConnectFailed => (self.failed(RelayError::ConnectFailure), ReadAction::Wait),
            ReadEvent::Byte(byte) => ReadModel { queue: self.queue.push(byte), ..self }.poll(true),
            ReadEvent::ReadFailed => (self.failed(RelayError::IoFailure), ReadAction::Discard),
            ReadEvent::Closed | ReadEvent::CloseFailed => self.poll(false),
        }
    }

    /// The manager after the dispatcher asked for a byte, and what it got:
    /// the oldest queued byte, else the pending fault, else nothing yet.
    pub open spec fn drained(self) -> (ReadModel, Result<Option<u8>, RelayError>) {
        if self.queue.len() > 0 {
            (ReadModel { queue: self.queue.drop_first(), ..self }, Ok(Some(self.queue[0])))
        } else {
            match self.fault {
                Some(fault) => (ReadModel { fault: None, ..self }, Err(fault)),
                None => (self, Ok(None)),
            }
        }
    }
}

/// The inbound manager: it owns at most one link to the remote endpoint in
/// read mode and forwards every byte it reads to the dispatcher.
#[derive(Debug)]
pub struct ReadConnection {
    signal: Mailbox,
    mode: bool,
    stage: ReadStage,
    queue: Vec<u8>,
    fault: Option<RelayError>,
}

impl View for ReadConnection {
    type V = ReadModel;

    closed spec fn view(&self) -> ReadModel {
        ReadModel {
            mode: self.mode,
            pending: self.signal@,
            stage: self.stage,
            queue: self.queue@,
            fault: self.fault,
        }
    }
}

impl ReadConnection {
    /// Makes the manager. It starts enabled and holds no link; the first
    /// `Wake` sets it going.
    pub fn spawn() -> (r: Self)
        ensures
            r@ == ReadModel::initial(),
            r@.inv(),
    {
        ReadConnection {
            signal: Mailbox::new(),
            mode: true,
            stage: ReadStage::Idle,
            queue: Vec::new(),
            fault: None,
        }
    }

    /// Asks the worker to enable itself.
    pub fn start(&mut self)
        ensures
            final(self)@ == old(self)@.signalled(true),
            old(self)@.inv() ==> final(self)@.inv(),
    {
        self.signal.post(true);
    }

    /// Asks the worker to disable itself and give up its link.
    pub fn stop(&mut self)
        ensures
            final(self)@ == old(self)@.signalled(false),
            old(self)@.inv() ==> final(self)@.inv(),
    {
        self.signal.post(false);
    }

    /// Where the worker stands.
    pub fn stage(&self) -> (r: ReadStage)
        ensures
            r == self@.stage,
    {
        self.stage
    }

    /// The mode the worker last settled on.
    pub fn enabled(&self) -> (r: bool)
        ensures
            r == self@.mode,
    {
        self.mode
    }

    /// Whether a mode signal is waiting to be looked at.
    pub fn signal_pending(&self) -> (r: bool)
        ensures
            r == self@.pending.is_some(),
    {
        self.signal.peek().is_some()
    }

    /// How many bytes wait for the dispatcher.
    pub fn queued(&self) -> (r: usize)
        ensures
            r == self@.queue.len(),
    {
        self.queue.len()
    }

    fn poll(&mut self, linked: bool) -> (r: ReadAction)
        ensures
            (final(self)@, r) == old(self)@.poll(linked),
    {
        self.mode = self.signal.settle(self.mode);
        if self.mode {
            if linked {
                self.stage = ReadStage::Reading;
                ReadAction::Read
            } else {
                self.stage = ReadStage::Connecting;
                ReadAction::Connect
            }
        } else {
            if linked {
                self.stage = ReadStage::Closing;
                ReadAction::Shutdown
            } else {
                self.stage = ReadStage::Idle;
                ReadAction::Wait
            }
        }
    }

    fn fail(&mut self, fault: RelayError)
        ensures
            final(self)@ == old(self)@.failed(fault),
    {
        self.signal.take();
        self.mode = false;
        self.stage = ReadStage::Idle;
        self.fault = Some(fault);
    }

    /// One transition of the worker: takes the outcome of the action that was
    /// outstanding and names the next one. An event that does not answer the
    /// outstanding action is refused and changes nothing.
    pub fn step(&mut self, event: ReadEvent) -> (r: Result<ReadAction, RelayError>)
        ensures
            old(self)@.accepts(event) ==> r == Ok::<ReadAction, RelayError>(
                old(self)@.next(event).1,
            ) && final(self)@ == old(self)@.next(event).0,
            !old(self)@.accepts(event) ==> r == Err::<ReadAction, RelayError>(
                RelayError::OutOfTurn,
            ) && final(self)@ == old(self)@,
            old(self)@.inv() ==> final(self)@.inv(),
    {
        match (self.stage, event) {
            (ReadStage::Idle, ReadEvent::Wake) => Ok(self.poll(false)),
            (ReadStage::Connecting, ReadEvent::Connected) => {
                self.stage = ReadStage::Reading;
                Ok(ReadAction::Read)
            },
            (ReadStage::Connecting, ReadEvent::ConnectFailed) => {
                self.fail(RelayError::ConnectFailure);
                Ok(ReadAction::Wait)
            },
            (ReadStage::Reading, ReadEvent::Byte(byte)) => {
                self.queue.push(byte);
                Ok(self.poll(true))
            },
            (ReadStage::Reading, ReadEvent::ReadFailed) => {
                self.fail(RelayError::IoFailure);
                Ok(ReadAction::Discard)
            },
            (ReadStage::Closing, ReadEvent::Closed) => Ok(self.poll(false)),
            (ReadStage::Closing, ReadEvent::CloseFailed) => Ok(self.poll(false)),
            _ => Err(RelayError::OutOfTurn),
        }
    }

    /// Hands the dispatcher the oldest queued byte. With nothing queued it
    /// reports the pending fault, once; with neither, `Ok(None)`: nothing yet.
    pub fn receive(&mut self) -> (r: Result<Option<u8>, RelayError>)
        ensures
            (final(self)@, r) == old(self)@.drained(),
            old(self)@.inv() ==> final(self)@.inv(),
    {
        if self.queue.len() > 0 {
            let byte = self.queue.remove(0);
            Ok(Some(byte))
        } else {
            match self.fault {
                Some(fault) => {
                    self.fault = None;
                    Err(fault)
                },
                None => Ok(None),
            }
        }
    }
}

} // verus!

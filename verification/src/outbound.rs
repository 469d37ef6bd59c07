use vstd::prelude::*;
use crate::error::RelayError;
use crate::mailbox::{resolve, Mailbox};

verus! {

/// Where the outbound worker stands between two pieces of work.
#[derive(Clone, Copy, Debug, PartialEq, Eq, Structural)]
pub enum WriteStage {
    /// No link is held and nothing is outstanding.
    Idle,
    /// A connect was asked for and its outcome is awaited.
    Connecting,
    /// A link is held and the worker waits for a buffer to write or for a
    /// request to stop.
    Linked,
    /// A link is held and the write of one buffer is outstanding.
    Writing,
    /// The link was handed back for shutdown and the outcome is awaited.
    Closing,
}

/// What the caller reports to the outbound worker.
#[derive(Clone, Copy, Debug, PartialEq, Eq, Structural)]
pub enum WriteEvent {
    /// Nothing happened; the worker should look again at what it waits for.
    Wake,
    /// The connect succeeded and the caller now holds the link.
    Connected,
    /// The connect failed; no link exists.
    ConnectFailed,
    /// Every byte of the buffer was written.
    Written,
    /// The write failed.
    WriteFailed,
    /// The link was shut down in both directions and dropped.
    Closed,
    /// Shutting the link down failed; it was dropped all the same.
    CloseFailed,
}

/// What the outbound worker asks the caller to do next.
#[derive(Debug, PartialEq, Eq)]
pub enum WriteAction {
    /// Hold no link; report `Wake` when a mode signal may have arrived.
    Wait,
    /// Open a link to the remote endpoint.
    Connect,
    /// Keep the link; report `Wake` when a buffer may have been queued or a
    /// mode signal may have arrived.
    AwaitBuffer,
    /// Write these bytes to the link, all of them.
    Write(Vec<u8>),
    /// Shut the link down in both directions and drop it.
    Shutdown,
    /// Drop the broken link without further ceremony, then as for `Wait`.
    Discard,
}

/// A `WriteAction` as contracts see it.
pub ghost enum WriteOrder {
    Wait,
    Connect,
    AwaitBuffer,
    Write(Seq<u8>),
    Shutdown,
    Discard,
}

impl View for WriteAction {
    type V = WriteOrder;

    open spec fn view(&self) -> WriteOrder {
        match *self {
            WriteAction::Wait => WriteOrder::Wait,
            WriteAction::Connect => WriteOrder::Connect,
            WriteAction::AwaitBuffer => WriteOrder::AwaitBuffer,
            WriteAction::Write(bytes) => WriteOrder::Write(bytes@),
            WriteAction::Shutdown => WriteOrder::Shutdown,
            WriteAction::Discard => WriteOrder::Discard,
        }
    }
}

/// The outbound manager as contracts see it.
pub ghost struct WriteModel {
    /// The mode the worker last settled on.
    pub mode: bool,
    /// The mode signal that the worker has not looked at yet.
    pub pending: Option<bool>,
    pub stage: WriteStage,
    /// Buffers handed over by the dispatcher and not yet taken up, oldest
    /// first.
    pub outbox: Seq<Seq<u8>>,
    /// One flag per buffer whose write has ended, oldest first, not yet taken
    /// by the dispatcher: `true` for written in full.
    pub completions: Seq<bool>,
    /// The failure that the dispatcher has not been told of yet.
    pub fault: Option<RelayError>,
    /// The outstanding write belongs to a session that is over: its end will
    /// be recorded for no one.
    pub abandoned: bool,
}

impl WriteModel {
    /// A freshly made manager: disabled, no link, nothing queued.
    pub open spec fn initial() -> WriteModel {
        WriteModel {
            mode: false,
            pending: None,
            stage: WriteStage::Idle,
            outbox: Seq::empty(),
            completions: Seq::empty(),
            fault: None,
            abandoned: false,
        }
    }

    /// The manager after a mode signal was posted to it.
    pub open spec fn signalled(self, mode: bool) -> WriteModel {
        WriteModel { pending: Some(mode), ..self }
    }

    /// The manager after the dispatcher queued `buffer`.
    pub open spec fn loaded(self, buffer: Seq<u8>) -> WriteModel {
        WriteModel { outbox: self.outbox.push(buffer), ..self }
    }

    /// The mode that the dispatcher last asked for, whether or not the worker
    /// has noticed.
    pub open spec fn wanted(self) -> bool {
        resolve(self.pending, self.mode)
    }

    /// How many links to the remote endpoint the caller holds.
    pub open spec fn links(self) -> int {
        if self.stage == WriteStage::Linked || self.stage == WriteStage::Writing {
            1
        } else {
            0
        }
    }

    /// A link is asked for or held only by an enabled worker, and a link is
    /// given up only by a disabled one.
    pub open spec fn inv(self) -> bool {
        &&& self.stage == WriteStage::Connecting || self.stage == WriteStage::Linked || self.stage
            == WriteStage::Writing ==> self.mode
        &&& self.stage == WriteStage::Closing ==> !self.mode
        &&& self.abandoned ==> self.stage == WriteStage::Writing
    }

    /// Whether `event` answers what is outstanding.
    pub open spec fn accepts(self, event: WriteEvent) -> bool {
        match self.stage {
            WriteStage::Idle | WriteStage::Linked => event == WriteEvent::Wake,
            WriteStage::Connecting => event == WriteEvent::Connected || event
                == WriteEvent::ConnectFailed,
            WriteStage::Writing => event == WriteEvent::Written || event
                == WriteEvent::WriteFailed,
            WriteStage::Closing => event == WriteEvent::Closed || event == WriteEvent::CloseFailed,
        }
    }

    /// With a link in hand, take up the oldest queued buffer or wait for one.
    /// The mode plays no part: a queued buffer is written.
    pub open spec fn fetch(self) -> (WriteModel, WriteOrder) {
        if self.outbox.len() > 0 {
            (
                WriteModel {
                    stage: WriteStage::Writing,
                    outbox: self.outbox.drop_first(),
                    abandoned: false,
                    ..self
                },
                WriteOrder::Write(self.outbox[0]),
            )
        } else {
            (WriteModel { stage: WriteStage::Linked, ..self }, WriteOrder::AwaitBuffer)
        }
    }

    /// One look at the inbox followed by the decision it leads to. `linked`
    /// says whether a link is held at that moment.
    pub open spec fn poll(self, linked: bool) -> (WriteModel, WriteOrder) {
        let mode = self.wanted();
        let seen = WriteModel { mode, pending: None, ..self };
        if mode {
            if linked {
                seen.fetch()
            } else {
                (WriteModel { stage: WriteStage::Connecting, ..seen }, WriteOrder::Connect)
            }
        } else {
            if linked {
                (WriteModel { stage: WriteStage::Closing, ..seen }, WriteOrder::Shutdown)
            } else {
                (WriteModel { stage: WriteStage::Idle, ..seen }, WriteOrder::Wait)
            }
        }
    }

    /// What a worker that waits with a link in hand does when woken: a queued
    /// buffer is written whatever the mode; with nothing queued the inbox is
    /// looked at, so a request to stop closes the link.
    pub open spec fn recheck(self) -> (WriteModel, WriteOrder) {
        if self.outbox.len() > 0 {
            self.fetch()
        } else {
            self.poll(true)
        }
    }

    /// The manager with whatever an earlier session left behind forgotten:
    /// no buffer queued, no completion flag and no fault waiting, and a write
    /// that is outstanding abandoned.
    pub open spec fn purged(self) -> WriteModel {
        WriteModel {
            outbox: Seq::empty(),
            completions: Seq::empty(),
            fault: None,
            abandoned: self.stage == WriteStage::Writing,
            ..self
        }
    }

    /// The manager given up after a failure: disabled, no link. Signals
    /// posted before the failure are spent, so only a later enable sets the
    /// worker going again.
    pub open spec fn halted(self) -> WriteModel {
        WriteModel { mode: false, pending: None, stage: WriteStage::Idle, ..self }
    }

    /// The manager with the end of the outstanding write recorded: one more
    /// completion flag, or none if the write was abandoned.
    pub open spec fn completed(self, success: bool) -> WriteModel {
        if self.abandoned {
            WriteModel { abandoned: false, ..self }
        } else {
            WriteModel { completions: self.completions.push(success), ..self }
        }
    }

    /// The transition taken on an event that `accepts` admits.
    pub open spec fn next(self, event: WriteEvent) -> (WriteModel, WriteOrder) {
        match event {
            WriteEvent::Wake => if self.stage == WriteStage::Linked {
                self.recheck()
            } else {
                self.poll(false)
            },
            WriteEvent::Connected => self.fetch(),
            WriteEvent::ConnectFailed => (
                WriteModel { fault: Some(RelayError::ConnectFailure), ..self.halted() },
                WriteOrder::Wait,
            ),
            WriteEvent::Written => self.completed(true).poll(true),
            WriteEvent::WriteFailed => (self.completed(false).halted(), WriteOrder::Discard),
            WriteEvent::Closed | WriteEvent::CloseFailed => self.poll(false),
        }
    }

    /// The manager after the dispatcher asked how the write went, and what it
    /// got: the oldest completion flag, else the pending fault, else nothing
    /// yet.
    pub open spec fn drained(self) -> (WriteModel, Result<Option<bool>, RelayError>) {
        if self.completions.len() > 0 {
            (
                WriteModel { completions: self.completions.drop_first(), ..self },
                Ok(Some(self.completions[0])),
            )
        } else {
            match self.fault {
                Some(fault) => (WriteModel { fault: None, ..self }, Err(fault)),
                None => (self, Ok(None)),
            }
        }
    }
}

/// The queued buffers of `outbox`, each as its bytes.
pub open spec fn contents(outbox: Seq<Vec<u8>>) -> Seq<Seq<u8>> {
    Seq::new(outbox.len(), |i: int| outbox[i]@)
}

/// The outbound manager: it owns at most one link to the remote endpoint in
/// write mode, writes each buffer the dispatcher hands it and reports how
/// each write ended.
#[derive(Debug)]
pub struct WriteConnection {
    signal: Mailbox,
    mode: bool,
    stage: WriteStage,
    outbox: Vec<Vec<u8>>,
    completions: Vec<bool>,
    fault: Option<RelayError>,
    abandoned: bool,
}

impl View for WriteConnection {
    type V = WriteModel;

    closed spec fn view(&self) -> WriteModel {
        WriteModel {
            mode: self.mode,
            pending: self.signal@,
            stage: self.stage,
            outbox: contents(self.outbox@),
            completions: self.completions@,
            fault: self.fault,
            abandoned: self.abandoned,
        }
    }
}

impl WriteConnection {
    /// Makes the manager. It starts disabled and holds no link.
    pub fn spawn() -> (r: Self)
        ensures
            r@ == WriteModel::initial(),
            r@.inv(),
    {
        let r = WriteConnection {
            signal: Mailbox::new(),
            mode: false,
            stage: WriteStage::Idle,
            outbox: Vec::new(),
            completions: Vec::new(),
            fault: None,
            abandoned: false,
        };
        assert(r@.outbox =~= Seq::empty());
        r
    }

    /// Asks the worker to enable itself.
    pub fn start(&mut self)
        ensures
            final(self)@ == old(self)@.signalled(true),
            old(self)@.inv() ==> final(self)@.inv(),
    {
        self.signal.post(true);
    }

    /// Asks the worker to disable itself and give up its link.
    pub fn stop(&mut self)
        ensures
            final(self)@ == old(self)@.signalled(false),
            old(self)@.inv() ==> final(self)@.inv(),
    {
        self.signal.post(false);
    }

    /// Queues `buffer` behind every buffer queued before it.
    pub fn send(&mut self, buffer: Vec<u8>)
        ensures
            final(self)@ == old(self)@.loaded(buffer@),
            old(self)@.inv() ==> final(self)@.inv(),
    {
        self.outbox.push(buffer);
        assert(contents(self.outbox@) =~= contents(old(self).outbox@).push(buffer@));
    }

    /// Forgets what an earlier session left behind: the buffers still queued,
    /// the completion flags not yet taken and the fault not yet reported. A
    /// write that is outstanding is abandoned: when it ends, no completion
    /// flag is recorded for it. Mode, inbox and link are left as they are.
    pub fn purge(&mut self)
        ensures
            final(self)@ == old(self)@.purged(),
            old(self)@.inv() ==> final(self)@.inv(),
    {
        self.outbox.clear();
        self.completions.clear();
        self.fault = None;
        self.abandoned = match self.stage {
            WriteStage::Writing => true,
            _ => false,
        };
        assert(contents(self.outbox@) =~= Seq::empty());
    }

    /// Where the worker stands.
    pub fn stage(&self) -> (r: WriteStage)
        ensures
            r == self@.stage,
    {
        self.stage
    }

    /// The mode the worker last settled on.
    pub fn enabled(&self) -> (r: bool)
        ensures
            r == self@.mode,
    {
        self.mode
    }

    /// Whether a mode signal is waiting to be looked at.
    pub fn signal_pending(&self) -> (r: bool)
        ensures
            r == self@.pending.is_some(),
    {
        self.signal.peek().is_some()
    }

    /// How many buffers wait to be written.
    pub fn queued(&self) -> (r: usize)
        ensures
            r == self@.outbox.len(),
    {
        self.outbox.len()
    }

    fn halt(&mut self)
        ensures
            final(self)@ == old(self)@.halted(),
    {
        self.signal.take();
        self.mode = false;
        self.stage = WriteStage::Idle;
    }

    fn complete(&mut self, success: bool)
        ensures
            final(self)@ == old(self)@.completed(success),
    {
        if self.abandoned {
            self.abandoned = false;
        } else {
            self.completions.push(success);
        }
    }

    fn fetch(&mut self) -> (r: WriteAction)
        ensures
            (final(self)@, r@) == old(self)@.fetch(),
    {
        if self.outbox.len() > 0 {
            let buffer = self.outbox.remove(0);
            self.stage = WriteStage::Writing;
            self.abandoned = false;
            assert(contents(self.outbox@) =~= contents(old(self).outbox@).drop_first());
            WriteAction::Write(buffer)
        } else {
            self.stage = WriteStage::Linked;
            WriteAction::AwaitBuffer
        }
    }

    fn poll(&mut self, linked: bool) -> (r: WriteAction)
        ensures
            (final(self)@, r@) == old(self)@.poll(linked),
    {
        self.mode = self.signal.settle(self.mode);
        if self.mode {
            if linked {
                self.fetch()
            } else {
                self.stage = WriteStage::Connecting;
                WriteAction::Connect
            }
        } else {
            if linked {
                self.stage = WriteStage::Closing;
                WriteAction::Shutdown
            } else {
                self.stage = WriteStage::Idle;
                WriteAction::Wait
            }
        }
    }

    /// One transition of the worker: takes the outcome of the action that was
    /// outstanding and names the next one. An event that does not answer the
    /// outstanding action is refused and changes nothing.
    pub fn step(&mut self, event: WriteEvent) -> (r: Result<WriteAction, RelayError>)
        ensures
            old(self)@.accepts(event) ==> (r matches Ok(action) && action@ == old(self)@.next(
                event,
            ).1) && final(self)@ == old(self)@.next(event).0,
            !old(self)@.accepts(event) ==> r == Err::<WriteAction, RelayError>(
                RelayError::OutOfTurn,
            ) && final(self)@ == old(self)@,
            old(self)@.inv() ==> final(self)@.inv(),
    {
        match (self.stage, event) {
            (WriteStage::Idle, WriteEvent::Wake) => Ok(self.poll(false)),
            (WriteStage::Linked, WriteEvent::Wake) => {
                if self.outbox.len() > 0 {
                    Ok(self.fetch())
                } else {
                    Ok(self.poll(true))
                }
            },
            (WriteStage::Connecting, WriteEvent::Connected) => Ok(self.fetch()),
            (WriteStage::Connecting, WriteEvent::ConnectFailed) => {
                self.halt();
                self.fault = Some(RelayError::ConnectFailure);
                Ok(WriteAction::Wait)
            },
            (WriteStage::Writing, WriteEvent::Written) => {
                self.complete(true);
                Ok(self.poll(true))
            },
            (WriteStage::Writing, WriteEvent::WriteFailed) => {
                self.complete(false);
                self.halt();
                Ok(WriteAction::Discard)
            },
            (WriteStage::Closing, WriteEvent::Closed) => Ok(self.poll(false)),
            (WriteStage::Closing, WriteEvent::CloseFailed) => Ok(self.poll(false)),
            _ => Err(RelayError::OutOfTurn),
        }
    }

    /// Tells the dispatcher how the oldest finished write ended. With none
    /// finished it reports the pending fault, once; with neither, `Ok(None)`:
    /// nothing yet.
    pub fn completion(&mut self) -> (r: Result<Option<bool>, RelayError>)
        ensures
            (final(self)@, r) == old(self)@.drained(),
            old(self)@.inv() ==> final(self)@.inv(),
    {
        if self.completions.len() > 0 {
            let flag = self.completions.remove(0);
            Ok(Some(flag))
        } else {
            match self.fault {
                Some(fault) => {
                    self.fault = None;
                    Err(fault)
                },
                None => Ok(None),
            }
        }
    }
}

} // verus!

//! What holds of the managers and the dispatcher over whole runs.

use vstd::prelude::*;
use crate::dispatcher::{
    accepts, forward, next, one_direction, resume, shut, DispatchAction, DispatchEvent,
    DispatchState,
};
use crate::error::RelayError;
use crate::inbound::{ReadAction, ReadEvent, ReadModel, ReadStage};
use crate::outbound::{WriteEvent, WriteModel, WriteOrder, WriteStage};

verus! {

/// One thing that can happen to the inbound manager.
pub ghost enum ReadInput {
    /// The dispatcher posts a mode signal.
    Signal(bool),
    /// The caller reports an event to the worker.
    Outcome(ReadEvent),
    /// The dispatcher asks for a byte.
    Take,
}

/// The manager after `input`; an event out of turn leaves it as it was.
pub open spec fn read_feed(m: ReadModel, input: ReadInput) -> ReadModel {
    match input {
        ReadInput::Signal(mode) => m.signalled(mode),
        ReadInput::Outcome(event) => if m.accepts(event) {
            m.next(event).0
        } else {
            m
        },
        ReadInput::Take => m.drained().0,
    }
}

/// What `input` does to the number of links the caller holds: a connect that
/// succeeded adds one, an order to shut down or discard takes one away.
pub open spec fn read_link_change(m: ReadModel, input: ReadInput) -> int {
    match input {
        ReadInput::Signal(_) | ReadInput::Take => 0,
        ReadInput::Outcome(event) => if !m.accepts(event) {
            0
        } else if event == ReadEvent::Connected {
            1
        } else if m.next(event).1 == ReadAction::Shutdown || m.next(event).1
            == ReadAction::Discard {
            -1
        } else {
            0
        },
    }
}

/// The byte that `input` brings in from the peer, if it is a read that
/// succeeded and was due.
pub open spec fn read_arrival(m: ReadModel, input: ReadInput) -> Seq<u8> {
    match input {
        ReadInput::Outcome(ReadEvent::Byte(byte)) => if m.accepts(ReadEvent::Byte(byte)) {
            seq![byte]
        } else {
            Seq::empty()
        },
        _ => Seq::empty(),
    }
}

/// The byte that `input` hands to the dispatcher, if any.
pub open spec fn read_taking(m: ReadModel, input: ReadInput) -> Seq<u8> {
    match input {
        ReadInput::Take => match m.drained().1 {
            Ok(Some(byte)) => seq![byte],
            _ => Seq::empty(),
        },
        _ => Seq::empty(),
    }
}

/// The manager after all of `inputs`, in order.
pub open spec fn read_run(m: ReadModel, inputs: Seq<ReadInput>) -> ReadModel
    decreases inputs.len(),
{
    if inputs.len() == 0 {
        m
    } else {
        read_run(read_feed(m, inputs[0]), inputs.drop_first())
    }
}

/// Links opened minus links given up over all of `inputs`.
pub open spec fn read_links_net(m: ReadModel, inputs: Seq<ReadInput>) -> int
    decreases inputs.len(),
{
    if inputs.len() == 0 {
        0
    } else {
        read_link_change(m, inputs[0]) + read_links_net(
            read_feed(m, inputs[0]),
            inputs.drop_first(),
        )
    }
}

/// The bytes that successful reads brought in over all of `inputs`, in order.
pub open spec fn read_arrivals(m: ReadModel, inputs: Seq<ReadInput>) -> Seq<u8>
    decreases inputs.len(),
{
    if inputs.len() == 0 {
        Seq::empty()
    } else {
        read_arrival(m, inputs[0]) + read_arrivals(read_feed(m, inputs[0]), inputs.drop_first())
    }
}

/// The bytes handed to the dispatcher over all of `inputs`, in order.
pub open spec fn read_takings(m: ReadModel, inputs: Seq<ReadInput>) -> Seq<u8>
    decreases inputs.len(),
{
    if inputs.len() == 0 {
        Seq::empty()
    } else {
        read_taking(m, inputs[0]) + read_takings(read_feed(m, inputs[0]), inputs.drop_first())
    }
}

/// Whatever signals, events and requests reach the inbound manager, in
/// whatever order: the caller ends up holding exactly the links the manager
/// accounts for, which is none or one; and the bytes handed to the
/// dispatcher, followed by those still queued, are the bytes that were
/// queued at the outset followed by those that due reads returned, in order,
/// each once, with nothing added and nothing lost. Every prefix of a run is
/// a run, so this holds at every moment.
pub proof fn law_inbound_run(m: ReadModel, inputs: Seq<ReadInput>)
    requires
        m.inv(),
    ensures
        read_run(m, inputs).inv(),
        m.links() + read_links_net(m, inputs) == read_run(m, inputs).links(),
        0 <= m.links() + read_links_net(m, inputs) <= 1,
        read_takings(m, inputs) + read_run(m, inputs).queue == m.queue + read_arrivals(m, inputs),
    decreases inputs.len(),
{
    let none = Seq::<u8>::empty();
    if inputs.len() == 0 {
        assert(none + m.queue =~= m.queue + none);
    } else {
        let first = inputs[0];
        let rest = inputs.drop_first();
        let after = read_feed(m, first);
        law_inbound_run(after, rest);
        assert(read_taking(m, first) + after.queue =~= m.queue + read_arrival(m, first)) by {
            assert(none + m.queue =~= m.queue + none);
            match first {
                ReadInput::Outcome(ReadEvent::Byte(byte)) => {
                    assert(none + m.queue.push(byte) =~= m.queue + seq![byte]);
                },
                ReadInput::Take => {
                    if m.queue.len() > 0 {
                        assert(seq![m.queue[0]] + m.queue.drop_first() =~= m.queue + none);
                    }
                },
                _ => {},
            }
        }
        let taken = read_taking(m, first);
        let later = read_takings(after, rest);
        let end = read_run(m, inputs).queue;
        assert((taken + later) + end =~= taken + (later + end));
        assert(taken + (after.queue + read_arrivals(after, rest)) =~= (taken + after.queue)
            + read_arrivals(after, rest));
        assert((m.queue + read_arrival(m, first)) + read_arrivals(after, rest) =~= m.queue + (
        read_arrival(m, first) + read_arrivals(after, rest)));
    }
}

/// A freshly made inbound manager is in order, so `law_inbound_run` speaks of
/// every run from the start.
pub proof fn law_inbound_initial()
    ensures
        ReadModel::initial().inv(),
        ReadModel::initial().links() == 0,
{
}

/// The inbound worker orders a connect only while no link is held; once it
/// has settled on disabled it holds none; and noticing a disable or a failed
/// read while a link is held makes it order that very link given up.
pub proof fn law_inbound_slot(m: ReadModel, event: ReadEvent)
    requires
        m.inv(),
        m.accepts(event),
    ensures
        m.next(event).1 == ReadAction::Connect ==> m.links() == 0 && m.next(event).0.links() == 0,
        !m.next(event).0.mode ==> m.next(event).0.links() == 0,
        m.links() == 1 && !m.next(event).0.mode ==> m.next(event).1 == ReadAction::Shutdown
            || m.next(event).1 == ReadAction::Discard,
{
}

/// A byte enters the queue only as the outcome of a due read, one byte per
/// read, and a read is due only while the worker is enabled; no other event
/// and no signal touches the queue.
pub proof fn law_inbound_one_byte_per_read(m: ReadModel, event: ReadEvent, mode: bool)
    requires
        m.inv(),
        m.accepts(event),
    ensures
        event matches ReadEvent::Byte(byte) ==> m.mode && m.next(event).0.queue == m.queue.push(
            byte,
        ),
        !(event is Byte) ==> m.next(event).0.queue == m.queue,
        !m.mode ==> m.next(event).0.queue == m.queue,
        m.signalled(mode).queue == m.queue,
{
}

/// Two inbound managers that no observer can tell apart: the same stage,
/// queue and fault, and the same mode asked for.
pub open spec fn read_alike(a: ReadModel, b: ReadModel) -> bool {
    &&& a.wanted() == b.wanted()
    &&& a.stage == b.stage
    &&& a.queue == b.queue
    &&& a.fault == b.fault
}

/// Asking an inbound manager for the mode that is already asked for changes
/// nothing that can be observed, and asking twice is asking once.
pub proof fn law_inbound_signal_idempotent(m: ReadModel, mode: bool)
    ensures
        m.signalled(mode).signalled(mode) == m.signalled(mode),
        m.wanted() == mode ==> read_alike(m.signalled(mode), m),
{
}

/// Inbound managers that are alike stay alike: they take the same events,
/// order the same actions, hand the dispatcher the same bytes and faults,
/// and react alike to further signals.
pub proof fn law_inbound_alike(a: ReadModel, b: ReadModel, event: ReadEvent, mode: bool)
    requires
        read_alike(a, b),
    ensures
        a.accepts(event) == b.accepts(event),
        a.accepts(event) ==> a.next(event).1 == b.next(event).1 && read_alike(
            a.next(event).0,
            b.next(event).0,
        ),
        a.drained().1 == b.drained().1,
        read_alike(a.drained().0, b.drained().0),
        read_alike(a.signalled(mode), b.signalled(mode)),
{
}

/// A close that failed is followed by exactly what follows a close that went
/// through: it never holds up a change of mode.
pub proof fn law_close_failure_is_passed_over(r: ReadModel, w: WriteModel)
    ensures
        r.next(ReadEvent::CloseFailed) == r.next(ReadEvent::Closed),
        w.next(WriteEvent::CloseFailed) == w.next(WriteEvent::Closed),
{
}

/// One thing that can happen to the outbound manager.
pub ghost enum WriteInput {
    /// The dispatcher posts a mode signal.
    Signal(bool),
    /// The dispatcher queues a buffer.
    Send(Seq<u8>),
    /// The caller reports an event to the worker.
    Outcome(WriteEvent),
    /// The dispatcher asks how a write ended.
    Take,
}

/// The manager after `input`; an event out of turn leaves it as it was.
pub open spec fn write_feed(m: WriteModel, input: WriteInput) -> WriteModel {
    match input {
        WriteInput::Signal(mode) => m.signalled(mode),
        WriteInput::Send(buffer) => m.loaded(buffer),
        WriteInput::Outcome(event) => if m.accepts(event) {
            m.next(event).0
        } else {
            m
        },
        WriteInput::Take => m.drained().0,
    }
}

/// What `input` does to the number of links the caller holds.
pub open spec fn write_link_change(m: WriteModel, input: WriteInput) -> int {
    match input {
        WriteInput::Outcome(event) => if !m.accepts(event) {
            0
        } else if event == WriteEvent::Connected {
            1
        } else if m.next(event).1 == WriteOrder::Shutdown || m.next(event).1
            == WriteOrder::Discard {
            -1
        } else {
            0
        },
        _ => 0,
    }
}

/// The buffer that the worker orders written in answer to `input`, if any.
pub open spec fn write_order(m: WriteModel, input: WriteInput) -> Seq<Seq<u8>> {
    match input {
        WriteInput::Outcome(event) => if m.accepts(event) {
            match m.next(event).1 {
                WriteOrder::Write(bytes) => seq![bytes],
                _ => Seq::empty(),
            }
        } else {
            Seq::empty()
        },
        _ => Seq::empty(),
    }
}

/// The buffer that `input` queues, if any.
pub open spec fn write_handover(input: WriteInput) -> Seq<Seq<u8>> {
    match input {
        WriteInput::Send(buffer) => seq![buffer],
        _ => Seq::empty(),
    }
}

/// The manager after all of `inputs`, in order.
pub open spec fn write_run(m: WriteModel, inputs: Seq<WriteInput>) -> WriteModel
    decreases inputs.len(),
{
    if inputs.len() == 0 {
        m
    } else {
        write_run(write_feed(m, inputs[0]), inputs.drop_first())
    }
}

/// Links opened minus links given up over all of `inputs`.
pub open spec fn write_links_net(m: WriteModel, inputs: Seq<WriteInput>) -> int
    decreases inputs.len(),
{
    if inputs.len() == 0 {
        0
    } else {
        write_link_change(m, inputs[0]) + write_links_net(
            write_feed(m, inputs[0]),
            inputs.drop_first(),
        )
    }
}

/// The buffers ordered written over all of `inputs`, in order.
pub open spec fn write_orders(m: WriteModel, inputs: Seq<WriteInput>) -> Seq<Seq<u8>>
    decreases inputs.len(),
{
    if inputs.len() == 0 {
        Seq::empty()
    } else {
        write_order(m, inputs[0]) + write_orders(write_feed(m, inputs[0]), inputs.drop_first())
    }
}

/// The buffers queued over all of `inputs`, in order.
pub open spec fn write_handovers(inputs: Seq<WriteInput>) -> Seq<Seq<u8>>
    decreases inputs.len(),
{
    if inputs.len() == 0 {
        Seq::empty()
    } else {
        write_handover(inputs[0]) + write_handovers(inputs.drop_first())
    }
}

/// One if `input` hands the dispatcher a completion flag, else none.
pub open spec fn write_report(m: WriteModel, input: WriteInput) -> int {
    if input is Take && m.completions.len() > 0 {
        1
    } else {
        0
    }
}

/// How many completion flags the dispatcher was handed over all of `inputs`.
pub open spec fn write_reports(m: WriteModel, inputs: Seq<WriteInput>) -> int
    decreases inputs.len(),
{
    if inputs.len() == 0 {
        0
    } else {
        write_report(m, inputs[0]) + write_reports(write_feed(m, inputs[0]), inputs.drop_first())
    }
}

/// One if a write is outstanding whose end will be recorded, else none.
pub open spec fn in_flight(m: WriteModel) -> int {
    if m.stage == WriteStage::Writing && !m.abandoned {
        1
    } else {
        0
    }
}

/// Whatever signals, buffers, events and requests reach the outbound manager,
/// in whatever order: the caller ends up holding exactly the links the
/// manager accounts for, none or one; the buffers ordered written, followed
/// by those still queued, are the buffers handed over, byte for byte and in
/// order; and every buffer ordered written has its write outstanding or has
/// given rise to exactly one completion flag, reported or waiting to be.
/// Every prefix of a run is a run, so this holds at every moment.
pub proof fn law_outbound_run(m: WriteModel, inputs: Seq<WriteInput>)
    requires
        m.inv(),
    ensures
        write_run(m, inputs).inv(),
        m.links() + write_links_net(m, inputs) == write_run(m, inputs).links(),
        0 <= m.links() + write_links_net(m, inputs) <= 1,
        write_orders(m, inputs) + write_run(m, inputs).outbox == m.outbox + write_handovers(
            inputs,
        ),
        write_reports(m, inputs) + write_run(m, inputs).completions.len() + in_flight(
            write_run(m, inputs),
        ) == m.completions.len() + in_flight(m) + write_orders(m, inputs).len(),
    decreases inputs.len(),
{
    let none = Seq::<Seq<u8>>::empty();
    if inputs.len() == 0 {
        assert(none + m.outbox =~= m.outbox + none);
    } else {
        let first = inputs[0];
        let rest = inputs.drop_first();
        let after = write_feed(m, first);
        law_outbound_run(after, rest);
        assert(write_order(m, first) + after.outbox =~= m.outbox + write_handover(first)) by {
            assert(none + m.outbox =~= m.outbox + none);
            match first {
                WriteInput::Send(buffer) => {
                    assert(none + m.outbox.push(buffer) =~= m.outbox + seq![buffer]);
                },
                WriteInput::Signal(_) | WriteInput::Take => {},
                WriteInput::Outcome(_) => {
                    if m.outbox.len() > 0 {
                        assert(seq![m.outbox[0]] + m.outbox.drop_first() =~= m.outbox + none);
                    }
                },
            }
        }
        let ordered = write_order(m, first);
        let later = write_orders(after, rest);
        let end = write_run(m, inputs).outbox;
        assert((ordered + later) + end =~= ordered + (later + end));
        assert(ordered + (after.outbox + write_handovers(rest)) =~= (ordered + after.outbox)
            + write_handovers(rest));
        assert((m.outbox + write_handover(first)) + write_handovers(rest) =~= m.outbox + (
        write_handover(first) + write_handovers(rest)));
    }
}

/// A freshly made outbound manager is in order, so `law_outbound_run` speaks
/// of every run from the start.
pub proof fn law_outbound_initial()
    ensures
        WriteModel::initial().inv(),
        WriteModel::initial().links() == 0,
        in_flight(WriteModel::initial()) == 0,
{
}

/// The outbound worker orders a connect only while no link is held; once it
/// has settled on disabled it holds none; and noticing a disable or a failed
/// write while a link is held makes it order that very link given up.
pub proof fn law_outbound_slot(m: WriteModel, event: WriteEvent)
    requires
        m.inv(),
        m.accepts(event),
    ensures
        m.next(event).1 == WriteOrder::Connect ==> m.links() == 0 && m.next(event).0.links() == 0,
        !m.next(event).0.mode ==> m.next(event).0.links() == 0,
        m.links() == 1 && !m.next(event).0.mode ==> m.next(event).1 == WriteOrder::Shutdown
            || m.next(event).1 == WriteOrder::Discard,
{
}

/// The buffer ordered written is the oldest one queued, whole, and it leaves
/// the queue; a completion flag is emitted exactly when a write ends that was
/// not abandoned, `true` when it went through, and at no other event.
pub proof fn law_outbound_write_then_complete(m: WriteModel, event: WriteEvent)
    requires
        m.accepts(event),
    ensures
        m.next(event).1 matches WriteOrder::Write(bytes) ==> m.outbox.len() > 0 && bytes
            == m.outbox[0] && m.next(event).0.outbox == m.outbox.drop_first() && m.next(
            event,
        ).0.stage == WriteStage::Writing,
        !(m.next(event).1 is Write) ==> m.next(event).0.outbox == m.outbox,
        event == WriteEvent::Written && !m.abandoned ==> m.stage == WriteStage::Writing && m.next(
            event,
        ).0.completions == m.completions.push(true),
        event == WriteEvent::WriteFailed && !m.abandoned ==> m.stage == WriteStage::Writing
            && m.next(event).0.completions == m.completions.push(false),
        m.abandoned ==> m.next(event).0.completions == m.completions,
        event != WriteEvent::Written && event != WriteEvent::WriteFailed ==> m.next(
            event,
        ).0.completions == m.completions,
{
}

/// Two outbound managers that no observer can tell apart.
pub open spec fn write_alike(a: WriteModel, b: WriteModel) -> bool {
    &&& a.wanted() == b.wanted()
    &&& a.stage == b.stage
    &&& a.outbox == b.outbox
    &&& a.completions == b.completions
    &&& a.fault == b.fault
    &&& a.abandoned == b.abandoned
}

/// Asking an outbound manager for the mode that is already asked for changes
/// nothing that can be observed, and asking twice is asking once.
pub proof fn law_outbound_signal_idempotent(m: WriteModel, mode: bool)
    ensures
        m.signalled(mode).signalled(mode) == m.signalled(mode),
        m.wanted() == mode ==> write_alike(m.signalled(mode), m),
{
}

/// Outbound managers that are alike stay alike: they take the same events,
/// order the same actions, report the same completions and faults, and react
/// alike to further signals and buffers and to being purged.
pub proof fn law_outbound_alike(
    a: WriteModel,
    b: WriteModel,
    event: WriteEvent,
    mode: bool,
    buffer: Seq<u8>,
)
    requires
        write_alike(a, b),
    ensures
        a.accepts(event) == b.accepts(event),
        a.accepts(event) ==> a.next(event).1 == b.next(event).1 && write_alike(
            a.next(event).0,
            b.next(event).0,
        ),
        a.drained().1 == b.drained().1,
        write_alike(a.drained().0, b.drained().0),
        write_alike(a.signalled(mode), b.signalled(mode)),
        write_alike(a.loaded(buffer), b.loaded(buffer)),
        write_alike(a.purged(), b.purged()),
{
}

/// A session opens with one direction asked for, and every transition of the
/// dispatcher keeps it so.
pub proof fn law_dispatcher_one_direction(
    state: DispatchState,
    inbound: ReadModel,
    outbound: WriteModel,
    event: DispatchEvent,
)
    ensures
        one_direction(DispatchState::Idle, inbound.signalled(true), outbound.signalled(false)),
        accepts(state, event) && one_direction(state, inbound, outbound) ==> one_direction(
            next(inbound, outbound, event).state,
            next(inbound, outbound, event).inbound,
            next(inbound, outbound, event).outbound,
        ),
{
}

/// No worker ever enables itself: a transition of either worker leaves a
/// manager that was not asked to run not asked to run, so the workers cannot
/// undo what the dispatcher keeps true.
pub proof fn law_workers_keep_one_direction(
    state: DispatchState,
    inbound: ReadModel,
    outbound: WriteModel,
    r: ReadEvent,
    w: WriteEvent,
)
    requires
        one_direction(state, inbound, outbound),
    ensures
        inbound.accepts(r) ==> one_direction(state, inbound.next(r).0, outbound),
        outbound.accepts(w) ==> one_direction(state, inbound, outbound.next(w).0),
{
}

/// A request to stop is honoured the next time the worker looks at its
/// inbox: it settles on disabled, orders a held link shut down and otherwise
/// waits, and is left holding no link. The inbound worker looks after every
/// read and every close, and whenever it is woken; the outbound worker after
/// every write and every close, and whenever it is woken with no buffer
/// queued, link or no link. Woken with a link and a buffer queued, it writes
/// that buffer first and looks when the write has ended.
pub proof fn law_stop_is_honoured(r: ReadModel, w: WriteModel, re: ReadEvent, we: WriteEvent)
    requires
        r.inv(),
        w.inv(),
        r.pending == Some(false),
        w.pending == Some(false),
        r.accepts(re),
        w.accepts(we),
    ensures
        re is Wake || re is Byte || re is Closed || re is CloseFailed ==> {
            &&& !r.next(re).0.mode
            &&& r.next(re).0.links() == 0
            &&& r.next(re).1 == if r.links() == 1 {
                ReadAction::Shutdown
            } else {
                ReadAction::Wait
            }
        },
        (we is Wake && (w.stage == WriteStage::Idle || w.outbox.len() == 0)) || we is Written
            || we is Closed || we is CloseFailed ==> {
            &&& !w.next(we).0.mode
            &&& w.next(we).0.links() == 0
            &&& w.next(we).1 == if w.links() == 1 {
                WriteOrder::Shutdown
            } else {
                WriteOrder::Wait
            }
        },
        we is Wake && w.stage == WriteStage::Linked && w.outbox.len() > 0 ==> {
            &&& w.next(we).1 == WriteOrder::Write(w.outbox[0])
            &&& w.next(we).0.next(WriteEvent::Written).1 == WriteOrder::Shutdown
            &&& w.next(we).0.next(WriteEvent::Written).0.links() == 0
        },
{
}

/// A buffer that the dispatcher forwards to an outbound manager at rest with
/// nothing queued is the very buffer the worker is told to write once it has
/// connected, whole; the completion flag appears when that write has ended
/// and not before, and it is the only one.
pub proof fn law_forwarded_buffer_is_written(
    inbound: ReadModel,
    outbound: WriteModel,
    buffer: Seq<u8>,
)
    requires
        outbound.inv(),
        outbound.stage == WriteStage::Idle,
        outbound.outbox.len() == 0,
        outbound.completions.len() == 0,
    ensures
        ({
            let queued = forward(inbound, outbound, buffer).outbound;
            let dialled = queued.next(WriteEvent::Wake);
            let linked = dialled.0.next(WriteEvent::Connected);
            let done = linked.0.next(WriteEvent::Written);
            &&& queued.accepts(WriteEvent::Wake)
            &&& dialled.1 == WriteOrder::Connect
            &&& dialled.0.accepts(WriteEvent::Connected)
            &&& linked.1 == WriteOrder::Write(buffer)
            &&& linked.0.completions.len() == 0
            &&& linked.0.accepts(WriteEvent::Written)
            &&& done.0.completions == seq![true]
            &&& done.0.outbox.len() == 0
        }),
{
    let queued = forward(inbound, outbound, buffer).outbound;
    assert(queued.outbox =~= seq![buffer]);
    let linked = queued.next(WriteEvent::Wake).0.next(WriteEvent::Connected);
    assert(linked.0.next(WriteEvent::Written).0.completions =~= seq![true]);
}

/// Once the write of a forwarded buffer has gone through and the dispatcher
/// has taken its completion flag and turned back to the client, the outbound
/// worker, woken, is told to shut its link down; with the close reported it
/// waits, disabled, holding no link, and nothing has been written after the
/// one buffer.
pub proof fn law_forward_cycle_closes_link(
    inbound: ReadModel,
    outbound: WriteModel,
    buffer: Seq<u8>,
)
    requires
        outbound.inv(),
        outbound.stage == WriteStage::Idle,
        outbound.outbox.len() == 0,
        outbound.completions.len() == 0,
    ensures
        ({
            let queued = forward(inbound, outbound, buffer).outbound;
            let written = queued.next(WriteEvent::Wake).0.next(WriteEvent::Connected).0.next(
                WriteEvent::Written,
            );
            let taken = written.0.drained();
            let stopped = resume(inbound, taken.0).outbound;
            let closing = stopped.next(WriteEvent::Wake);
            let closed = closing.0.next(WriteEvent::Closed);
            &&& written.1 == WriteOrder::AwaitBuffer
            &&& written.0.links() == 1
            &&& taken.1 == Ok::<Option<bool>, RelayError>(Some(true))
            &&& taken.0.completions.len() == 0
            &&& stopped.accepts(WriteEvent::Wake)
            &&& closing.1 == WriteOrder::Shutdown
            &&& closing.0.links() == 0
            &&& closing.0.accepts(WriteEvent::Closed)
            &&& closed.1 == WriteOrder::Wait
            &&& closed.0.stage == WriteStage::Idle
            &&& !closed.0.mode
            &&& closed.0.links() == 0
        }),
{
    let queued = forward(inbound, outbound, buffer).outbound;
    assert(queued.outbox =~= seq![buffer]);
    let linked = queued.next(WriteEvent::Wake).0.next(WriteEvent::Connected);
    assert(linked.0.next(WriteEvent::Written).0.completions =~= seq![true]);
}

/// A session leaves nothing behind in the outbound manager and finds nothing
/// there: when it closes and when the next one opens, no buffer is queued and
/// no completion flag or fault waits, whatever happened before, and a write
/// still outstanding ends without a completion flag. So the first buffer the
/// worker takes up in a session is the first one forwarded in it, and the
/// first completion flag the dispatcher sees is that buffer's.
pub proof fn law_sessions_do_not_mix(
    inbound: ReadModel,
    outbound: WriteModel,
    reason: RelayError,
    buffer: Seq<u8>,
)
    ensures
        shut(inbound, outbound, reason).outbound.outbox.len() == 0,
        shut(inbound, outbound, reason).outbound.completions.len() == 0,
        shut(inbound, outbound, reason).outbound.fault is None,
        outbound.stage == WriteStage::Writing ==> shut(inbound, outbound, reason).outbound.next(
            WriteEvent::Written,
        ).0.completions.len() == 0 && shut(inbound, outbound, reason).outbound.next(
            WriteEvent::WriteFailed,
        ).0.completions.len() == 0,
        outbound.stage == WriteStage::Writing ==> forward(
            inbound,
            outbound.purged().signalled(false),
            buffer,
        ).outbound.next(WriteEvent::Written).1 == WriteOrder::Write(buffer) && forward(
            inbound,
            outbound.purged().signalled(false),
            buffer,
        ).outbound.next(WriteEvent::Written).0.completions.len() == 0,
        outbound.inv() ==> outbound.purged().inv() && outbound.purged().links()
            == outbound.links(),
        forward(inbound, outbound.purged().signalled(false), buffer).outbound.outbox
            == seq![buffer],
        forward(inbound, shut(inbound, outbound, reason).outbound, buffer).outbound.outbox
            == seq![buffer],
{
    assert(forward(inbound, outbound.purged().signalled(false), buffer).outbound.outbox
        =~= seq![buffer]);
    assert(forward(inbound, shut(inbound, outbound, reason).outbound, buffer).outbound.outbox
        =~= seq![buffer]);
}

/// While a session relays from the peer, each cycle hands the client exactly
/// the one byte that the inbound manager delivered, however many are queued
/// behind it, and an empty buffer from the client is taken for silence.
pub proof fn law_dispatcher_single_byte(inbound: ReadModel, outbound: WriteModel, byte: u8)
    ensures
        next(inbound, outbound, DispatchEvent::PeerByte(byte)).action
            == DispatchAction::Reply(byte),
        next(inbound, outbound, DispatchEvent::PeerByte(byte)).inbound == inbound,
        forall|buffer: Vec<u8>|
            buffer@.len() == 0 ==> #[trigger] next(
                inbound,
                outbound,
                DispatchEvent::ClientData(buffer),
            ) == next(inbound, outbound, DispatchEvent::ClientSilent),
{
}

} // verus!

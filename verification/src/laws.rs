//! What holds of the device's state machine, whatever the hardware does and
//! however interrupts, readers and writers interleave.

use vstd::prelude::*;
use crate::state::{ready_looks, received, registers_writer, DeviceState, Event};
use crate::waiters::{registered, without_first};

verus! {

/// Waking the oldest waiter keeps a queue free of duplicates.
pub proof fn lemma_without_first_unique(queue: Seq<usize>)
    requires
        queue.no_duplicates(),
    ensures
        without_first(queue).no_duplicates(),
{
}

/// Registering a waiter keeps a queue free of duplicates, and the waiter is
/// in it afterwards.
pub proof fn lemma_registered_unique(queue: Seq<usize>, waiter: usize)
    requires
        queue.no_duplicates(),
    ensures
        registered(queue, waiter).no_duplicates(),
        registered(queue, waiter).contains(waiter),
{
    if !queue.contains(waiter) {
        let after = queue.push(waiter);
        assert(after[queue.len() as int] == waiter);
    }
}

/// Every step of the device keeps its state well formed.
pub proof fn lemma_step_keeps_wf(s: DeviceState, event: Event)
    requires
        s.wf(),
    ensures
        s.step(event).wf(),
{
    lemma_without_first_unique(s.read_waiters);
    lemma_without_first_unique(s.write_waiters);
    match event {
        Event::Read { task } => lemma_registered_unique(s.read_waiters, task),
        Event::PollWrite { ready, waiter } => lemma_registered_unique(s.write_waiters, waiter),
        _ => {},
    }
}

/// Whatever happens to a device, its state stays well formed.
pub proof fn lemma_run_keeps_wf(s: DeviceState, events: Seq<Event>)
    requires
        s.wf(),
    ensures
        s.run(events).wf(),
    decreases events.len(),
{
    if events.len() > 0 {
        lemma_step_keeps_wf(s, events[0]);
        lemma_run_keeps_wf(s.step(events[0]), events.drop_first());
    }
}

/// Injected bytes queue up behind what the buffer already holds. Registers
/// and waiting writers stay as they are.
pub proof fn lemma_inject_appends(s: DeviceState, bytes: Seq<u8>)
    ensures
        s.inject(bytes).read_buffer == s.read_buffer + bytes,
        s.inject(bytes).registers == s.registers,
        s.inject(bytes).write_waiters == s.write_waiters,
    decreases bytes.len(),
{
    if bytes.len() == 0 {
        assert(s.read_buffer + bytes =~= s.read_buffer);
    } else {
        let next = s.receive(Some(bytes[0]));
        lemma_inject_appends(next, bytes.drop_first());
        assert(next.read_buffer + bytes.drop_first() =~= s.read_buffer + bytes);
    }
}

/// Reading drains the buffer from the front: `n` attempts on a buffer of at
/// least `n` bytes return its first `n` bytes in order, leave the rest, and
/// park nobody.
pub proof fn lemma_reads_drain(s: DeviceState, task: usize, n: nat)
    requires
        n <= s.read_buffer.len(),
    ensures
        s.read_results(task, n) == s.read_buffer.subrange(0, n as int).map_values(
            |b: u8| Some(b),
        ),
        s.reads(task, n).read_buffer == s.read_buffer.subrange(
            n as int,
            s.read_buffer.len() as int,
        ),
        s.reads(task, n).read_waiters == s.read_waiters,
    decreases n,
{
    let wanted = s.read_buffer.subrange(0, n as int).map_values(|b: u8| Some(b));
    if n == 0 {
        assert(s.read_results(task, n) =~= wanted);
        assert(s.read_buffer.subrange(0, s.read_buffer.len() as int) =~= s.read_buffer);
    } else {
        let next = s.read(task);
        lemma_reads_drain(next, task, (n - 1) as nat);
        assert(s.read_results(task, n) =~= wanted);
        assert(next.read_buffer.subrange((n - 1) as int, next.read_buffer.len() as int)
            =~= s.read_buffer.subrange(n as int, s.read_buffer.len() as int));
    }
}

/// First in, first out. Bytes injected by interrupts into an empty buffer
/// come back from as many reads, each exactly once and in the order of their
/// arrival, and the buffer is empty again afterwards.
pub proof fn lemma_fifo(s: DeviceState, bytes: Seq<u8>, task: usize)
    requires
        s.read_buffer.len() == 0,
    ensures
        s.inject(bytes).read_results(task, bytes.len()) == bytes.map_values(|b: u8| Some(b)),
        s.inject(bytes).reads(task, bytes.len()).read_buffer.len() == 0,
{
    lemma_inject_appends(s, bytes);
    let full = s.inject(bytes);
    assert(full.read_buffer =~= bytes);
    lemma_reads_drain(full, task, bytes.len());
    assert(bytes.subrange(0, bytes.len() as int) =~= bytes);
}

/// Bytes reach readers in the order of their arrival, each exactly once,
/// however interrupts and attempts to read interleave and whoever reads.
/// What the reads of a run returned, followed by what is still buffered, is
/// what was buffered at the start followed by what the interrupts took in.
pub proof fn lemma_delivery_in_order(s: DeviceState, events: Seq<Event>)
    ensures
        s.delivered(events) + s.run(events).read_buffer == s.read_buffer + received(events),
    decreases events.len(),
{
    if events.len() == 0 {
        assert(s.delivered(events) + s.run(events).read_buffer =~= s.read_buffer + received(
            events,
        ));
    } else {
        let next = s.step(events[0]);
        let rest = events.drop_first();
        lemma_delivery_in_order(next, rest);
        let tail = next.delivered(rest) + next.run(rest).read_buffer;
        assert(tail == next.read_buffer + received(rest));
        match events[0] {
            Event::Interrupt { polled: Some(byte), ready } => {
                assert(next.read_buffer == s.read_buffer.push(byte));
            },
            Event::Read { task } => {
                if s.read_buffer.len() > 0 {
                    let first = seq![s.read_buffer[0]];
                    assert(first + next.read_buffer =~= s.read_buffer);
                    assert((first + next.delivered(rest)) + next.run(rest).read_buffer =~= first
                        + tail);
                    assert(first + (next.read_buffer + received(rest)) =~= (first
                        + next.read_buffer) + received(rest));
                }
            },
            _ => {
                assert(next.read_buffer == s.read_buffer);
            },
        }
        assert(s.delivered(events) + s.run(events).read_buffer =~= s.read_buffer + received(
            events,
        ));
    }
}

/// The buffer is empty exactly when an attempt to read returns nothing. The
/// task then joins the parked readers and the buffer stays as it is; a task
/// that gets a byte is not queued.
pub proof fn lemma_empty_iff_park(s: DeviceState, task: usize)
    requires
        s.wf(),
    ensures
        (s.read_buffer.len() == 0) <==> (s.read_result() is None),
        s.read_result() is None ==> s.read(task).read_waiters.contains(task),
        s.read_result() is None ==> s.read(task).read_buffer == s.read_buffer,
        s.read_result() is Some ==> s.read(task).read_waiters == s.read_waiters,
{
    lemma_registered_unique(s.read_waiters, task);
}

/// One reader and one interrupt, in either order. If the reader comes first
/// it parks, the interrupt wakes it, and its next attempt returns the
/// injected byte. If the interrupt comes first the reader finds the byte at
/// once. Both orders end in the state they began in, with the byte delivered
/// once.
pub proof fn lemma_reader_meets_interrupt(s: DeviceState, task: usize, byte: u8)
    requires
        s.wf(),
        s.read_buffer.len() == 0,
        s.read_waiters.len() == 0,
    ensures
        s.read_result() is None,
        s.read(task).read_waiters == seq![task],
        s.read(task).woken_reader() == Some(task),
        s.read(task).receive(Some(byte)).read_result() == Some(byte),
        s.woken_reader() is None,
        s.receive(Some(byte)).read_result() == Some(byte),
        s.read(task).receive(Some(byte)).read(task) == s,
        s.receive(Some(byte)).read(task) == s,
{
    let parked = s.read(task);
    assert(!s.read_waiters.contains(task));
    assert(parked.read_waiters =~= seq![task]);
    let woken = parked.receive(Some(byte));
    assert(woken.read_waiters =~= s.read_waiters);
    assert(woken.read_buffer =~= seq![byte]);
    assert(woken.read(task).read_buffer =~= s.read_buffer);
    let early = s.receive(Some(byte));
    assert(early.read_waiters =~= s.read_waiters);
    assert(early.read(task).read_buffer =~= s.read_buffer);
}

/// One byte for two parked readers reaches exactly one of them. The interrupt
/// wakes the reader that parked first; its next attempt returns the byte and
/// empties the buffer; the other reader is still parked.
pub proof fn lemma_one_byte_one_reader(s: DeviceState, first: usize, second: usize, byte: u8)
    requires
        s.wf(),
        s.read_buffer.len() == 0,
        s.read_waiters.len() == 0,
        first != second,
    ensures
        s.read(first).read(second).read_waiters == seq![first, second],
        s.read(first).read(second).woken_reader() == Some(first),
        s.read(first).read(second).receive(Some(byte)).read_waiters == seq![second],
        s.read(first).read(second).receive(Some(byte)).read_result() == Some(byte),
        s.read(first).read(second).receive(Some(byte)).read(first).read_result() is None,
{
    assert(!s.read_waiters.contains(first));
    let one = s.read(first);
    assert(one.read_waiters =~= seq![first]);
    assert forall|i: int| 0 <= i < one.read_waiters.len() implies one.read_waiters[i]
        != second by {}
    let two = one.read(second);
    assert(two.read_waiters =~= seq![first, second]);
    let woken = two.receive(Some(byte));
    assert(woken.read_waiters =~= seq![second]);
    assert(woken.read_buffer =~= seq![byte]);
}

/// An interrupt that finds no byte, with no reader parked and no writer to
/// wake, changes nothing and wakes nobody.
pub proof fn lemma_spurious_interrupt(s: DeviceState, ready: bool)
    requires
        s.read_waiters.len() == 0,
        !ready || s.write_waiters.len() == 0,
    ensures
        s.interrupt(None, ready) == s,
        s.interrupt_wakeups(None, ready).reader is None,
        s.interrupt_wakeups(None, ready).writer is None,
{
}

/// Only an interrupt that sees the transmitter ready moves the waiting
/// writers. It wakes the oldest of them and moves every other one a place
/// forward.
pub proof fn lemma_ready_event_advances(s: DeviceState, waiter: usize, place: int)
    requires
        s.wf(),
        0 <= place < s.write_waiters.len(),
        s.write_waiters[place] == waiter,
    ensures
        place == 0 ==> s.woken_writer(true) == Some(waiter),
        place == 0 ==> !s.transmit_ready(true).write_waiters.contains(waiter),
        place > 0 ==> s.woken_writer(true) != Some(waiter),
        place > 0 ==> s.transmit_ready(true).write_waiters[place - 1] == waiter,
        s.woken_writer(false) is None,
        s.transmit_ready(false) == s,
{
    let rest = s.transmit_ready(true).write_waiters;
    if place == 0 {
        assert forall|i: int| 0 <= i < rest.len() implies rest[i] != waiter by {
            assert(rest[i] == s.write_waiters[i + 1]);
        }
    }
}

/// A task that is not waiting for the transmitter, and does not start to, is
/// never woken as a writer and never appears among the waiting writers.
pub proof fn lemma_absent_writer_sleeps(s: DeviceState, events: Seq<Event>, waiter: usize)
    requires
        !s.write_waiters.contains(waiter),
        !registers_writer(events, waiter),
    ensures
        s.writer_wakes(events, waiter) == 0,
        !s.run(events).write_waiters.contains(waiter),
    decreases events.len(),
{
    if events.len() > 0 {
        let next = s.step(events[0]);
        let rest = events.drop_first();
        assert forall|i: int| 0 <= i < next.write_waiters.len() implies next.write_waiters[i]
            != waiter by {
            match events[0] {
                Event::Interrupt { polled, ready } => {
                    if ready && s.write_waiters.len() > 0 {
                        assert(next.write_waiters[i] == s.write_waiters[i + 1]);
                    }
                    assert(s.write_waiters.contains(next.write_waiters[i]));
                },
                Event::PollWrite { ready, waiter: other } => {
                    if i < s.write_waiters.len() {
                        assert(s.write_waiters.contains(next.write_waiters[i]));
                    } else {
                        assert(events[0] != (Event::PollWrite { ready: false, waiter }));
                    }
                },
                _ => {
                    assert(s.write_waiters.contains(next.write_waiters[i]));
                },
            }
        }
        assert forall|i: int| 0 <= i < rest.len() implies #[trigger] rest[i] != (Event::PollWrite {
            ready: false,
            waiter,
        }) by {
            assert(rest[i] == events[i + 1]);
        }
        lemma_absent_writer_sleeps(next, rest, waiter);
        if s.write_waiters.len() > 0 {
            assert(s.write_waiters.contains(s.write_waiters[0]));
        }
    }
}

/// A waiting writer is resumed exactly once, whatever else happens to the
/// device meanwhile. With `place` writers ahead of it, it stays in the queue
/// until more than `place` interrupts have seen the transmitter ready; the
/// one that follows `place` others wakes it; and it is not woken again
/// unless it registers anew.
pub proof fn lemma_writer_resumed_exactly_once(
    s: DeviceState,
    events: Seq<Event>,
    waiter: usize,
    place: nat,
)
    requires
        s.wf(),
        place < s.write_waiters.len(),
        s.write_waiters[place as int] == waiter,
        !registers_writer(events, waiter),
    ensures
        ready_looks(events) <= place ==> s.writer_wakes(events, waiter) == 0,
        ready_looks(events) <= place ==> s.run(events).write_waiters.contains(waiter),
        ready_looks(events) > place ==> s.writer_wakes(events, waiter) == 1,
        ready_looks(events) > place ==> !s.run(events).write_waiters.contains(waiter),
    decreases events.len(),
{
    if events.len() == 0 {
        assert(s.run(events).write_waiters[place as int] == waiter);
    } else {
        let next = s.step(events[0]);
        let rest = events.drop_first();
        assert forall|i: int| 0 <= i < rest.len() implies #[trigger] rest[i] != (Event::PollWrite {
            ready: false,
            waiter,
        }) by {
            assert(rest[i] == events[i + 1]);
        }
        lemma_step_keeps_wf(s, events[0]);
        match events[0] {
            Event::Interrupt { polled, ready } => {
                if ready {
                    lemma_ready_event_advances(s.receive(polled), waiter, place as int);
                    if place == 0 {
                        lemma_absent_writer_sleeps(next, rest, waiter);
                    } else {
                        lemma_writer_resumed_exactly_once(next, rest, waiter, (place - 1) as nat);
                    }
                } else {
                    lemma_writer_resumed_exactly_once(next, rest, waiter, place);
                }
            },
            _ => {
                assert(next.write_waiters[place as int] == waiter);
                lemma_writer_resumed_exactly_once(next, rest, waiter, place);
            },
        }
    }
}

/// A poll that finds the transmitter busy is not dropped. The task waits in
/// the queue, behind those that waited before it. Whatever happens then, it
/// is woken at most once, it stays in the queue for as long as it has not
/// been woken, and once as many interrupts as the queue was long have seen
/// the transmitter ready it has been woken.
pub proof fn lemma_pending_poll_is_resumed(s: DeviceState, waiter: usize, events: Seq<Event>)
    requires
        s.wf(),
        !registers_writer(events, waiter),
    ensures
        s.poll_write(false, waiter).write_waiters.contains(waiter),
        s.poll_write(false, waiter).writer_wakes(events, waiter) <= 1,
        s.poll_write(false, waiter).writer_wakes(events, waiter) == 0 ==> s.poll_write(
            false,
            waiter,
        ).run(events).write_waiters.contains(waiter),
        ready_looks(events) >= s.poll_write(false, waiter).write_waiters.len() ==> s.poll_write(
            false,
            waiter,
        ).writer_wakes(events, waiter) == 1,
{
    lemma_registered_unique(s.write_waiters, waiter);
    let parked = s.poll_write(false, waiter);
    let place: int = choose|i: int|
        0 <= i < parked.write_waiters.len() && parked.write_waiters[i] == waiter;
    lemma_writer_resumed_exactly_once(parked, events, waiter, place as nat);
}

} // verus!

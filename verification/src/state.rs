//! The buffered device as a state machine over plain values.
//!
//! Every operation of the driver is a step of this machine. The steps take
//! what the hardware answered as an argument, so each of them is a function.

use vstd::prelude::*;
use crate::mmio::REG_COUNT;
use crate::raw::{INIT_IER, INIT_MCR, REG_IER, REG_MCR, REG_THR};
use crate::waiters::{first_waiter, registered, without_first};

verus! {

/// What one buffered device holds.
pub struct DeviceState {
    /// The byte last stored into each register cell, by offset.
    pub registers: Seq<u8>,
    /// Received bytes that no reader has taken yet, oldest first.
    pub read_buffer: Seq<u8>,
    /// Tasks parked until a byte arrives, oldest first.
    pub read_waiters: Seq<usize>,
    /// Tasks waiting for the transmitter to become ready, oldest first.
    pub write_waiters: Seq<usize>,
}

/// What a task learns from one poll of the transmitter.
#[derive(Clone, Copy, Debug, PartialEq, Eq, Structural)]
pub enum WritePoll {
    /// The transmitter can take a byte now.
    Ready,
    /// The transmitter is busy; the task waits and will be woken.
    Pending,
}

/// The tasks that one interrupt makes runnable again.
#[derive(Clone, Copy, Debug, PartialEq, Eq, Structural)]
pub struct Wakeups {
    /// A reader to resume because a byte has arrived.
    pub reader: Option<usize>,
    /// A writer to resume because the transmitter is ready.
    pub writer: Option<usize>,
}

/// One thing that happens to a device. What the hardware answered is part of
/// the event.
pub enum Event {
    /// The register interface is initialised.
    Init,
    /// The interrupt handler runs. A poll of the receiver returned `polled`,
    /// and the transmitter was seen `ready` or busy.
    Interrupt { polled: Option<u8>, ready: bool },
    /// `task` attempts to read.
    Read { task: usize },
    /// An attempt to send `ch` that found the transmitter `ready` or busy.
    Write { ready: bool, ch: u8 },
    /// A poll of the transmitter by `waiter` that found it `ready` or busy.
    PollWrite { ready: bool, waiter: usize },
}

impl DeviceState {
    /// A state is well formed when it has a full block of registers and no
    /// task waits twice in one queue.
    pub open spec fn wf(self) -> bool {
        &&& self.registers.len() == REG_COUNT
        &&& self.read_waiters.no_duplicates()
        &&& self.write_waiters.no_duplicates()
    }

    /// The state of a device that was just created over `registers`.
    pub open spec fn fresh(registers: Seq<u8>) -> DeviceState {
        DeviceState {
            registers,
            read_buffer: Seq::empty(),
            read_waiters: Seq::empty(),
            write_waiters: Seq::empty(),
        }
    }

    /// The state after the register interface was initialised.
    pub open spec fn init(self) -> DeviceState {
        DeviceState {
            registers: self.registers.update(REG_MCR as int, INIT_MCR).update(
                REG_IER as int,
                INIT_IER,
            ),
            ..self
        }
    }

    /// Interrupt intake. A polled byte goes to the back of the buffer. Then
    /// the oldest parked reader leaves its queue, byte or no byte: a reader
    /// woken for nothing finds the buffer empty and parks again.
    pub open spec fn receive(self, polled: Option<u8>) -> DeviceState {
        DeviceState {
            read_buffer: match polled {
                Some(byte) => self.read_buffer.push(byte),
                None => self.read_buffer,
            },
            read_waiters: without_first(self.read_waiters),
            ..self
        }
    }

    /// The reader that interrupt intake wakes: the oldest parked one.
    pub open spec fn woken_reader(self) -> Option<usize> {
        first_waiter(self.read_waiters)
    }

    /// What one attempt to read returns: the oldest buffered byte, or nothing
    /// when the buffer is empty and the task has to park.
    pub open spec fn read_result(self) -> Option<u8> {
        if self.read_buffer.len() > 0 {
            Some(self.read_buffer[0])
        } else {
            None
        }
    }

    /// One attempt of `task` to read. The oldest byte leaves the buffer; on
    /// an empty buffer the task joins the parked readers instead.
    pub open spec fn read(self, task: usize) -> DeviceState {
        if self.read_buffer.len() > 0 {
            DeviceState { read_buffer: self.read_buffer.drop_first(), ..self }
        } else {
            DeviceState { read_waiters: registered(self.read_waiters, task), ..self }
        }
    }

    /// An attempt to send `ch`, given whether the transmitter was ready.
    pub open spec fn write(self, ready: bool, ch: u8) -> DeviceState {
        if ready {
            DeviceState { registers: self.registers.update(REG_THR as int, ch), ..self }
        } else {
            self
        }
    }

    /// One poll of the transmitter by `waiter`, given whether it was ready.
    /// A busy transmitter adds the task to the waiting writers.
    pub open spec fn poll_write(self, ready: bool, waiter: usize) -> DeviceState {
        if ready {
            self
        } else {
            DeviceState { write_waiters: registered(self.write_waiters, waiter), ..self }
        }
    }

    /// The transmitter was seen ready or busy. When ready, the oldest waiting
    /// writer leaves its queue.
    pub open spec fn transmit_ready(self, ready: bool) -> DeviceState {
        if ready {
            DeviceState { write_waiters: without_first(self.write_waiters), ..self }
        } else {
            self
        }
    }

    /// The writer that a look at the transmitter wakes.
    pub open spec fn woken_writer(self, ready: bool) -> Option<usize> {
        if ready {
            first_waiter(self.write_waiters)
        } else {
            None
        }
    }

    /// One interrupt: intake of what was polled, then a look at the
    /// transmitter.
    pub open spec fn interrupt(self, polled: Option<u8>, ready: bool) -> DeviceState {
        self.receive(polled).transmit_ready(ready)
    }

    /// The tasks that one interrupt wakes.
    pub open spec fn interrupt_wakeups(self, polled: Option<u8>, ready: bool) -> Wakeups {
        Wakeups {
            reader: self.woken_reader(),
            writer: self.receive(polled).woken_writer(ready),
        }
    }

    /// The state after `event`.
    pub open spec fn step(self, event: Event) -> DeviceState {
        match event {
            Event::Init => self.init(),
            Event::Interrupt { polled, ready } => self.interrupt(polled, ready),
            Event::Read { task } => self.read(task),
            Event::Write { ready, ch } => self.write(ready, ch),
            Event::PollWrite { ready, waiter } => self.poll_write(ready, waiter),
        }
    }

    /// The state after `events`, in order.
    pub open spec fn run(self, events: Seq<Event>) -> DeviceState
        decreases events.len(),
    {
        if events.len() == 0 {
            self
        } else {
            self.step(events[0]).run(events.drop_first())
        }
    }

    /// The bytes that the attempts to read among `events` return, in order.
    pub open spec fn delivered(self, events: Seq<Event>) -> Seq<u8>
        decreases events.len(),
    {
        if events.len() == 0 {
            Seq::empty()
        } else {
            let rest = self.step(events[0]).delivered(events.drop_first());
            match (events[0], self.read_result()) {
                (Event::Read { task }, Some(byte)) => seq![byte] + rest,
                _ => rest,
            }
        }
    }

    /// How often `waiter` is woken as a writer in the course of `events`.
    pub open spec fn writer_wakes(self, events: Seq<Event>, waiter: usize) -> nat
        decreases events.len(),
    {
        if events.len() == 0 {
            0
        } else {
            let rest: nat = self.step(events[0]).writer_wakes(events.drop_first(), waiter);
            match events[0] {
                Event::Interrupt { polled, ready } => if self.interrupt_wakeups(
                    polled,
                    ready,
                ).writer == Some(waiter) {
                    1 + rest
                } else {
                    rest
                },
                _ => rest,
            }
        }
    }

    /// The state after one interrupt for each of `bytes`, in order, each
    /// finding its byte in the receiver.
    pub open spec fn inject(self, bytes: Seq<u8>) -> DeviceState
        decreases bytes.len(),
    {
        if bytes.len() == 0 {
            self
        } else {
            self.receive(Some(bytes[0])).inject(bytes.drop_first())
        }
    }

    /// The state after `n` attempts of `task` to read, one after another.
    pub open spec fn reads(self, task: usize, n: nat) -> DeviceState
        decreases n,
    {
        if n == 0 {
            self
        } else {
            self.read(task).reads(task, (n - 1) as nat)
        }
    }

    /// What `n` attempts of `task` to read return, one after another.
    pub open spec fn read_results(self, task: usize, n: nat) -> Seq<Option<u8>>
        decreases n,
    {
        if n == 0 {
            Seq::empty()
        } else {
            seq![self.read_result()] + self.read(task).read_results(task, (n - 1) as nat)
        }
    }

}

/// The bytes that the interrupts among `events` take in, in order.
pub open spec fn received(events: Seq<Event>) -> Seq<u8>
    decreases events.len(),
{
    if events.len() == 0 {
        Seq::empty()
    } else {
        let rest = received(events.drop_first());
        match events[0] {
            Event::Interrupt { polled: Some(byte), ready } => seq![byte] + rest,
            _ => rest,
        }
    }
}

/// How many interrupts among `events` see the transmitter ready.
pub open spec fn ready_looks(events: Seq<Event>) -> nat
    decreases events.len(),
{
    if events.len() == 0 {
        0
    } else {
        let rest: nat = ready_looks(events.drop_first());
        match events[0] {
            Event::Interrupt { polled, ready: true } => 1 + rest,
            _ => rest,
        }
    }
}

/// Whether some poll among `events` registers `waiter` as a waiting writer.
pub open spec fn registers_writer(events: Seq<Event>, waiter: usize) -> bool {
    exists|i: int|
        0 <= i < events.len() && #[trigger] events[i] == (Event::PollWrite {
            ready: false,
            waiter,
        })
}

} // verus!

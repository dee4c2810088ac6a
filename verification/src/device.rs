//! The buffered character device.

use vstd::prelude::*;
use std::collections::VecDeque;
use crate::mmio::{stored_bytes, RegisterBlock};
use crate::raw::{reports_data, reports_thr_empty, transmitter_empty, NS16550aRaw};
use crate::state::{DeviceState, Wakeups, WritePoll};
use crate::waiters::WaitQueue;

verus! {

/// One UART with a buffer between the interrupt handler and its readers.
///
/// Every method takes the device by `&mut`: whoever calls holds it
/// exclusively, interrupt handler included.
pub struct NS16550a<'a> {
    ns16550a: NS16550aRaw<'a>,
    read_buffer: VecDeque<u8>,
    read_waiters: WaitQueue,
    write_waiters: WaitQueue,
}

impl<'a> NS16550a<'a> {
    /// The device as plain values.
    pub closed spec fn view(&self) -> DeviceState {
        DeviceState {
            registers: self.ns16550a@,
            read_buffer: self.read_buffer@,
            read_waiters: self.read_waiters@,
            write_waiters: self.write_waiters@,
        }
    }

    /// A device over the register block `regs`, with nothing buffered and
    /// nobody waiting. The hardware is not touched.
    pub fn new(regs: &'a mut RegisterBlock) -> (device: Self)
        ensures
            device@ == DeviceState::fresh(stored_bytes(old(regs)@)),
            device@.wf(),
    {
        NS16550a {
            ns16550a: NS16550aRaw::new(regs),
            read_buffer: VecDeque::new(),
            read_waiters: WaitQueue::new(),
            write_waiters: WaitQueue::new(),
        }
    }

    /// Whether no received byte is buffered, which is when an attempt to
    /// read returns nothing and parks the task.
    pub fn read_buffer_is_empty(&self) -> (empty: bool)
        ensures
            empty == (self@.read_buffer.len() == 0),
            empty == (self@.read_result() is None),
            self@.wf(),
    {
        proof {
            use_type_invariant(&self.read_waiters);
            use_type_invariant(&self.write_waiters);
            self.ns16550a.lemma_full_block();
        }
        self.read_buffer.len() == 0
    }

    /// Whether `task` is parked until a byte arrives.
    pub fn reader_parked(&self, task: usize) -> (parked: bool)
        ensures
            parked == self@.read_waiters.contains(task),
    {
        self.read_waiters.contains(task)
    }

    /// Whether `waiter` waits for the transmitter.
    pub fn writer_parked(&self, waiter: usize) -> (parked: bool)
        ensures
            parked == self@.write_waiters.contains(waiter),
    {
        self.write_waiters.contains(waiter)
    }

    /// The register cells, for whoever stands in for the device. Buffer and
    /// queues stay as they are.
    pub fn registers(&mut self) -> (regs: &mut RegisterBlock)
        ensures
            stored_bytes(regs@) == old(self)@.registers,
            final(self)@ == (DeviceState {
                registers: stored_bytes(final(regs)@),
                ..old(self)@
            }),
    {
        self.ns16550a.registers()
    }

    /// Initialises the register interface: asserts the modem-control outputs
    /// and enables the receive interrupt.
    pub fn init(&mut self)
        ensures
            final(self)@ == old(self)@.init(),
            final(self)@.wf(),
    {
        proof {
            use_type_invariant(&self.read_waiters);
            use_type_invariant(&self.write_waiters);
        }
        self.ns16550a.init();
        proof {
            self.ns16550a.lemma_full_block();
        }
    }

    /// Interrupt intake, given what a poll of the receiver returned. Appends
    /// the byte, if there is one, to the buffer. Then takes the oldest parked
    /// reader out of its queue and returns it for the caller to wake.
    pub fn receive(&mut self, polled: Option<u8>) -> (woken: Option<usize>)
        ensures
            final(self)@ == old(self)@.receive(polled),
            woken == old(self)@.woken_reader(),
            final(self)@.wf(),
    {
        proof {
            use_type_invariant(&self.read_waiters);
            use_type_invariant(&self.write_waiters);
            self.ns16550a.lemma_full_block();
        }
        if let Some(byte) = polled {
            self.read_buffer.push_back(byte);
        }
        self.read_waiters.wake_one()
    }

    /// One attempt of `task` to read a byte. Returns the oldest buffered
    /// byte; on an empty buffer registers `task` as a parked reader and
    /// returns nothing, and the task tries again once it has been woken.
    pub fn read(&mut self, task: usize) -> (byte: Option<u8>)
        ensures
            byte == old(self)@.read_result(),
            final(self)@ == old(self)@.read(task),
            final(self)@.wf(),
    {
        proof {
            use_type_invariant(&self.read_waiters);
            use_type_invariant(&self.write_waiters);
            self.ns16550a.lemma_full_block();
        }
        let byte = self.read_buffer.pop_front();
        if byte.is_none() {
            self.read_waiters.register_waiter(task);
        }
        byte
    }

    /// One attempt to send `ch`. Returns whether the transmitter took the
    /// byte; a busy transmitter leaves the device as it was, and the caller
    /// tries again after waiting for it with `poll_write`.
    pub fn write(&mut self, ch: u8) -> (sent: bool)
        ensures
            final(self)@ == old(self)@.write(sent, ch),
            final(self)@.wf(),
    {
        proof {
            use_type_invariant(&self.read_waiters);
            use_type_invariant(&self.write_waiters);
        }
        let sent = self.ns16550a.write(ch);
        proof {
            self.ns16550a.lemma_full_block();
        }
        sent
    }

    /// One poll of the transmitter by `waiter`, given whether the hardware
    /// reported it ready. A busy transmitter registers the task among the
    /// waiting writers.
    pub fn poll_write_with(&mut self, ready: bool, waiter: usize) -> (poll: WritePoll)
        ensures
            poll == (if ready { WritePoll::Ready } else { WritePoll::Pending }),
            final(self)@ == old(self)@.poll_write(ready, waiter),
            final(self)@.wf(),
    {
        proof {
            use_type_invariant(&self.read_waiters);
            use_type_invariant(&self.write_waiters);
            self.ns16550a.lemma_full_block();
        }
        if ready {
            WritePoll::Ready
        } else {
            self.write_waiters.register_waiter(waiter);
            WritePoll::Pending
        }
    }

    /// Polls the transmitter for `waiter` without waiting. Either the
    /// hardware is ready, or the task is registered to be woken when it is.
    pub fn poll_write(&mut self, waiter: usize) -> (poll: WritePoll)
        ensures
            final(self)@ == old(self)@.poll_write(poll == WritePoll::Ready, waiter),
            final(self)@.wf(),
    {
        let ready = self.ns16550a.poll_write_ready();
        self.poll_write_with(ready, waiter)
    }

    /// A look at the transmitter, given whether the hardware reported it
    /// ready. Returns the waiting writer to wake, if any.
    pub fn transmit_ready(&mut self, ready: bool) -> (woken: Option<usize>)
        ensures
            final(self)@ == old(self)@.transmit_ready(ready),
            woken == old(self)@.woken_writer(ready),
            final(self)@.wf(),
    {
        proof {
            use_type_invariant(&self.read_waiters);
            use_type_invariant(&self.write_waiters);
            self.ns16550a.lemma_full_block();
        }
        if ready {
            self.write_waiters.wake_one()
        } else {
            None
        }
    }

    /// The interrupt handler's step, given the line status just read. Takes
    /// a byte from the receiver into the buffer exactly when the status
    /// reports one, wakes the oldest parked reader, and wakes the oldest
    /// waiting writer exactly when the status reports the transmitter
    /// empty.
    pub fn handle_irq_with(&mut self, line_status: u8) -> (wake: Wakeups)
        ensures
            exists|polled: Option<u8>|
                final(self)@ == #[trigger] old(self)@.interrupt(
                    polled,
                    reports_thr_empty(line_status),
                ) && wake == old(self)@.interrupt_wakeups(polled, reports_thr_empty(line_status))
                    && (polled is Some <==> reports_data(line_status)),
            final(self)@.wf(),
    {
        let polled = self.ns16550a.read_with(line_status);
        let ready = transmitter_empty(line_status);
        let reader = self.receive(polled);
        let writer = self.transmit_ready(ready);
        assert(self@ == old(self)@.interrupt(polled, ready));
        Wakeups { reader, writer }
    }

    /// The interrupt handler. Reads the line status once, takes at most one
    /// byte from the receiver into the buffer, and returns the tasks to wake:
    /// the oldest parked reader, and the oldest waiting writer if the
    /// transmitter is ready. It neither waits nor spins. What the hardware
    /// answered decides the step; whatever it was, the device made exactly
    /// that step.
    pub fn handle_irq(&mut self) -> (wake: Wakeups)
        ensures
            exists|polled: Option<u8>, ready: bool|
                final(self)@ == #[trigger] old(self)@.interrupt(polled, ready) && wake == old(
                    self,
                )@.interrupt_wakeups(polled, ready),
            final(self)@.wf(),
    {
        let line_status: u8 = self.ns16550a.line_status();
        let wake = self.handle_irq_with(line_status);
        let ghost ready = reports_thr_empty(line_status);
        assert(exists|polled: Option<u8>|
            self@ == #[trigger] old(self)@.interrupt(polled, ready) && wake == old(
                self,
            )@.interrupt_wakeups(polled, ready));
        wake
    }
}

} // verus!

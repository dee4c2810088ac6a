//! The register interface: what the driver does to the UART's cells.

use vstd::prelude::*;
use crate::flags::{
    IER, IER_RX_AVAILABLE, LSR, LSR_DATA_AVAILABLE, LSR_THR_EMPTY, MCR, MCR_AUX_OUTPUT2,
    MCR_DATA_TERMINAL_READY, MCR_REQUEST_TO_SEND,
};
use crate::mmio::{load, store, stored_bytes, RegisterBlock, REG_COUNT};

verus! {

/// Offset of the receive buffer register (read view).
pub const REG_RBR: usize = 0;

/// Offset of the transmit holding register (write view).
pub const REG_THR: usize = 0;

/// Offset of the interrupt-enable register.
pub const REG_IER: usize = 1;

/// Offset of the interrupt-identification register (read view). The driver
/// does not read it.
pub const REG_IIR: usize = 2;

/// Offset of the line-control register. The driver leaves it at its default.
pub const REG_LCR: usize = 3;

/// Offset of the modem-control register.
pub const REG_MCR: usize = 4;

/// Offset of the line-status register.
pub const REG_LSR: usize = 5;

/// The byte that `init` stores into the modem-control register: data terminal
/// ready, request to send and auxiliary output 2.
pub const INIT_MCR: u8 = MCR_DATA_TERMINAL_READY | MCR_REQUEST_TO_SEND | MCR_AUX_OUTPUT2;

/// The byte that `init` stores into the interrupt-enable register: an
/// interrupt on received data.
pub const INIT_IER: u8 = IER_RX_AVAILABLE;

/// The two bytes that `init` stores, as numbers.
pub proof fn lemma_init_bytes()
    ensures
        INIT_MCR == 0x0b,
        INIT_IER == 0x01,
{
    assert(0x01u8 | 0x02u8 | 0x08u8 == 0x0bu8) by (bit_vector);
}

/// Whether a line-status byte has the data-available bit.
pub open spec fn reports_data(line_status: u8) -> bool {
    line_status & LSR_DATA_AVAILABLE != 0
}

/// Whether a line-status byte has the transmit-holding-empty bit.
pub open spec fn reports_thr_empty(line_status: u8) -> bool {
    line_status & LSR_THR_EMPTY != 0
}

/// Whether a byte read from the line-status register reports received data.
pub fn data_available(line_status: u8) -> (available: bool)
    ensures
        available == reports_data(line_status),
{
    assert((line_status & 0x21u8) & 0x01u8 == 0x01u8 <==> line_status & 0x01u8 != 0u8)
        by (bit_vector);
    LSR::from_bits_truncate(line_status).contains(LSR::data_available())
}

/// Whether a byte read from the line-status register reports an empty
/// transmit holding register.
pub fn transmitter_empty(line_status: u8) -> (empty: bool)
    ensures
        empty == reports_thr_empty(line_status),
{
    assert((line_status & 0x21u8) & 0x20u8 == 0x20u8 <==> line_status & 0x20u8 != 0u8)
        by (bit_vector);
    LSR::from_bits_truncate(line_status).contains(LSR::thr_empty())
}

/// Handle on the registers of one UART.
pub struct NS16550aRaw<'a> {
    regs: &'a mut RegisterBlock,
}

impl<'a> NS16550aRaw<'a> {
    /// The byte last stored into each cell, by offset.
    pub closed spec fn view(&self) -> Seq<u8> {
        stored_bytes((*self.regs)@)
    }

    /// A handle always speaks of a full block of cells.
    pub proof fn lemma_full_block(&self)
        ensures
            self@.len() == REG_COUNT,
    {
    }

    /// Takes over the register block of one device.
    pub fn new(regs: &'a mut RegisterBlock) -> (raw: Self)
        ensures
            raw@ == stored_bytes(old(regs)@),
    {
        NS16550aRaw { regs }
    }

    /// The cells themselves, for whoever stands in for the device.
    pub fn registers(&mut self) -> (regs: &mut RegisterBlock)
        ensures
            stored_bytes(regs@) == old(self)@,
            final(self)@ == stored_bytes(final(regs)@),
    {
        &mut *self.regs
    }

    /// Asserts the modem-control outputs and enables the receive interrupt.
    pub fn init(&mut self)
        ensures
            final(self)@ == old(self)@.update(REG_MCR as int, INIT_MCR).update(
                REG_IER as int,
                INIT_IER,
            ),
    {
        let mut mcr = MCR::empty();
        mcr.insert(MCR::data_terminal_ready());
        mcr.insert(MCR::request_to_send());
        mcr.insert(MCR::aux_output2());
        assert(0u8 | 0x01u8 | 0x02u8 | 0x08u8 == 0x01u8 | 0x02u8 | 0x08u8) by (bit_vector);
        store(&mut self.regs[REG_MCR], mcr.bits());
        let ier = IER::rx_available();
        store(&mut self.regs[REG_IER], ier.bits());
        assert(self@ =~= old(self)@.update(REG_MCR as int, INIT_MCR).update(
            REG_IER as int,
            INIT_IER,
        ));
    }

    /// Reads the line-status register. The device decides what comes back.
    pub fn line_status(&mut self) -> (status: u8)
        ensures
            final(self)@ == old(self)@,
    {
        load(&self.regs[REG_LSR])
    }

    /// The receive step, given the line status just read. Takes the byte out
    /// of the receive buffer register exactly when the status reports one.
    /// Nothing is stored either way.
    pub fn read_with(&mut self, line_status: u8) -> (byte: Option<u8>)
        ensures
            byte is Some <==> reports_data(line_status),
            final(self)@ == old(self)@,
    {
        if data_available(line_status) {
            Some(load(&self.regs[REG_RBR]))
        } else {
            None
        }
    }

    /// The transmit step, given the line status just read. Stores `ch` into
    /// the transmit holding register exactly when the status reports it
    /// empty, and returns whether it did. No other cell is written.
    pub fn write_with(&mut self, line_status: u8, ch: u8) -> (sent: bool)
        ensures
            sent <==> reports_thr_empty(line_status),
            sent ==> final(self)@ == old(self)@.update(REG_THR as int, ch),
            !sent ==> final(self)@ == old(self)@,
    {
        if transmitter_empty(line_status) {
            store(&mut self.regs[REG_THR], ch);
            assert(self@ =~= old(self)@.update(REG_THR as int, ch));
            true
        } else {
            false
        }
    }

    /// Polls for a received byte without waiting. Returns the byte when the
    /// line status reports one and nothing otherwise. The device decides
    /// which of the two happens; the driver's own stores stay as they were.
    pub fn read(&mut self) -> (byte: Option<u8>)
        ensures
            final(self)@ == old(self)@,
    {
        let line_status: u8 = self.line_status();
        self.read_with(line_status)
    }

    /// Asks the line status whether the transmit holding register is empty.
    pub fn poll_write_ready(&mut self) -> (ready: bool)
        ensures
            final(self)@ == old(self)@,
    {
        transmitter_empty(self.line_status())
    }

    /// Hands `ch` to the transmitter if it can take a byte now. Returns
    /// whether the byte was stored into the transmit holding register; when
    /// it was not, no cell was written and the caller tries again later.
    pub fn write(&mut self, ch: u8) -> (sent: bool)
        ensures
            sent ==> final(self)@ == old(self)@.update(REG_THR as int, ch),
            !sent ==> final(self)@ == old(self)@,
    {
        let line_status: u8 = self.line_status();
        self.write_with(line_status, ch)
    }
}

} // verus!

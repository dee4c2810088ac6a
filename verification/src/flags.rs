//! Flag sets of the UART's status and control registers.
//!
//! Each set is a byte in which every defined flag owns one bit. The view of a
//! set is that byte.

use vstd::prelude::*;

verus! {

/// Bit of the interrupt-enable register: interrupt on received data.
pub const IER_RX_AVAILABLE: u8 = 0x01;

/// Bit of the interrupt-enable register: interrupt on an empty transmit
/// holding register.
pub const IER_TX_EMPTY: u8 = 0x02;

/// Every bit that the interrupt-enable set defines.
pub const IER_ALL: u8 = 0x03;

/// Bit of the line-status register: a received byte is waiting.
pub const LSR_DATA_AVAILABLE: u8 = 0x01;

/// Bit of the line-status register: the transmit holding register is empty.
pub const LSR_THR_EMPTY: u8 = 0x20;

/// Every bit that the line-status set defines.
pub const LSR_ALL: u8 = 0x21;

/// Bit of the modem-control register: data terminal ready.
pub const MCR_DATA_TERMINAL_READY: u8 = 0x01;

/// Bit of the modem-control register: request to send.
pub const MCR_REQUEST_TO_SEND: u8 = 0x02;

/// Bit of the modem-control register: auxiliary output 1.
pub const MCR_AUX_OUTPUT1: u8 = 0x04;

/// Bit of the modem-control register: auxiliary output 2.
pub const MCR_AUX_OUTPUT2: u8 = 0x08;

/// Every bit that the modem-control set defines.
pub const MCR_ALL: u8 = 0x0f;

/// Interrupt-enable flags.
#[derive(Clone, Copy, Debug, PartialEq, Eq, Structural)]
pub struct IER {
    bits: u8,
}

impl IER {
    /// The byte that holds the set.
    pub closed spec fn view(&self) -> u8 {
        self.bits
    }

    /// Two sets are equal exactly when their bytes are.
    pub proof fn lemma_equal_bits(a: IER, b: IER)
        ensures
            a == b <==> a@ == b@,
    {
    }

    /// The set without any flag.
    pub fn empty() -> (set: IER)
        ensures
            set@ == 0,
    {
        IER { bits: 0 }
    }

    /// The set of the receive-data-available flag alone.
    pub fn rx_available() -> (set: IER)
        ensures
            set@ == IER_RX_AVAILABLE,
    {
        IER { bits: IER_RX_AVAILABLE }
    }

    /// The set of the transmit-empty flag alone.
    pub fn tx_empty() -> (set: IER)
        ensures
            set@ == IER_TX_EMPTY,
    {
        IER { bits: IER_TX_EMPTY }
    }

    /// The set of the defined flags among `bits`; other bits are dropped.
    pub fn from_bits_truncate(bits: u8) -> (set: IER)
        ensures
            set@ == bits & IER_ALL,
    {
        IER { bits: bits & IER_ALL }
    }

    /// The byte that holds the set.
    pub fn bits(&self) -> (bits: u8)
        ensures
            bits == self@,
    {
        self.bits
    }

    /// Whether every flag of `other` is in this set.
    pub fn contains(&self, other: IER) -> (held: bool)
        ensures
            held == (self@ & other@ == other@),
    {
        self.bits & other.bits == other.bits
    }

    /// Adds the flags of `other` to this set.
    pub fn insert(&mut self, other: IER)
        ensures
            final(self)@ == old(self)@ | other@,
    {
        self.bits = self.bits | other.bits;
    }
}

/// Line-status flags.
#[derive(Clone, Copy, Debug, PartialEq, Eq, Structural)]
pub struct LSR {
    bits: u8,
}

impl LSR {
    /// The byte that holds the set.
    pub closed spec fn view(&self) -> u8 {
        self.bits
    }

    /// Two sets are equal exactly when their bytes are.
    pub proof fn lemma_equal_bits(a: LSR, b: LSR)
        ensures
            a == b <==> a@ == b@,
    {
    }

    /// The set without any flag.
    pub fn empty() -> (set: LSR)
        ensures
            set@ == 0,
    {
        LSR { bits: 0 }
    }

    /// The set of the data-available flag alone.
    pub fn data_available() -> (set: LSR)
        ensures
            set@ == LSR_DATA_AVAILABLE,
    {
        LSR { bits: LSR_DATA_AVAILABLE }
    }

    /// The set of the transmit-holding-empty flag alone.
    pub fn thr_empty() -> (set: LSR)
        ensures
            set@ == LSR_THR_EMPTY,
    {
        LSR { bits: LSR_THR_EMPTY }
    }

    /// The set of the defined flags among `bits`; other bits are dropped.
    pub fn from_bits_truncate(bits: u8) -> (set: LSR)
        ensures
            set@ == bits & LSR_ALL,
    {
        LSR { bits: bits & LSR_ALL }
    }

    /// The byte that holds the set.
    pub fn bits(&self) -> (bits: u8)
        ensures
            bits == self@,
    {
        self.bits
    }

    /// Whether every flag of `other` is in this set.
    pub fn contains(&self, other: LSR) -> (held: bool)
        ensures
            held == (self@ & other@ == other@),
    {
        self.bits & other.bits == other.bits
    }

    /// Adds the flags of `other` to this set.
    pub fn insert(&mut self, other: LSR)
        ensures
            final(self)@ == old(self)@ | other@,
    {
        self.bits = self.bits | other.bits;
    }
}

/// Modem-control flags.
#[derive(Clone, Copy, Debug, PartialEq, Eq, Structural)]
pub struct MCR {
    bits: u8,
}

impl MCR {
    /// The byte that holds the set.
    pub closed spec fn view(&self) -> u8 {
        self.bits
    }

    /// Two sets are equal exactly when their bytes are.
    pub proof fn lemma_equal_bits(a: MCR, b: MCR)
        ensures
            a == b <==> a@ == b@,
    {
    }

    /// The set without any flag.
    pub fn empty() -> (set: MCR)
        ensures
            set@ == 0,
    {
        MCR { bits: 0 }
    }

    /// The set of the data-terminal-ready flag alone.
    pub fn data_terminal_ready() -> (set: MCR)
        ensures
            set@ == MCR_DATA_TERMINAL_READY,
    {
        MCR { bits: MCR_DATA_TERMINAL_READY }
    }

    /// The set of the request-to-send flag alone.
    pub fn request_to_send() -> (set: MCR)
        ensures
            set@ == MCR_REQUEST_TO_SEND,
    {
        MCR { bits: MCR_REQUEST_TO_SEND }
    }

    /// The set of the first auxiliary output alone.
    pub fn aux_output1() -> (set: MCR)
        ensures
            set@ == MCR_AUX_OUTPUT1,
    {
        MCR { bits: MCR_AUX_OUTPUT1 }
    }

    /// The set of the second auxiliary output alone.
    pub fn aux_output2() -> (set: MCR)
        ensures
            set@ == MCR_AUX_OUTPUT2,
    {
        MCR { bits: MCR_AUX_OUTPUT2 }
    }

    /// The set of the defined flags among `bits`; other bits are dropped.
    pub fn from_bits_truncate(bits: u8) -> (set: MCR)
        ensures
            set@ == bits & MCR_ALL,
    {
        MCR { bits: bits & MCR_ALL }
    }

    /// The byte that holds the set.
    pub fn bits(&self) -> (bits: u8)
        ensures
            bits == self@,
    {
        self.bits
    }

    /// Whether every flag of `other` is in this set.
    pub fn contains(&self, other: MCR) -> (held: bool)
        ensures
            held == (self@ & other@ == other@),
    {
        self.bits & other.bits == other.bits
    }

    /// Adds the flags of `other` to this set.
    pub fn insert(&mut self, other: MCR)
        ensures
            final(self)@ == old(self)@ | other@,
    {
        self.bits = self.bits | other.bits;
    }
}

} // verus!

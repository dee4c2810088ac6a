//! Driver for an NS16550A-compatible UART behind memory-mapped registers.
//!
//! The crate holds the driver's logic: the register interface, the buffer
//! between the interrupt handler and blocking readers, the queues of parked
//! tasks, and the bookkeeping of interrupt masking. Mapping the registers,
//! masking interrupts and switching tasks are left to the kernel around it.

pub mod device;
pub mod exclusive;
pub mod flags;
pub mod laws;
pub mod mmio;
pub mod raw;
pub mod state;
pub mod waiters;

//! Contract of a serial port peripheral and of the client it notifies.
//! Interface definitions only; concrete peripherals implement them.

use vstd::prelude::*;

verus! {

/// Parity discipline of a serial line.
#[derive(Clone, Copy)]
pub enum Parity {
    Even,
    Odd,
    ForceZero,
    ForceOne,
    NoParity,
    Multidrop,
}

/// Line parameters a serial port is initialized with.
#[derive(Clone, Copy)]
pub struct UARTParams {
    pub baud_rate: u32,
    pub data_bits: u8,
    pub parity: Parity,
}

/// A serial port: byte-granular synchronous transmit and receive, with
/// direction enables. Bulk transmission from process-owned memory is the
/// process-memory subsystem's affair and is not part of this contract.
pub trait UART {
    fn init(&mut self, params: UARTParams);

    fn send_byte(&mut self, byte: u8);

    fn read_byte(&self) -> u8;

    fn rx_ready(&self) -> bool;

    fn tx_ready(&self) -> bool;

    fn enable_rx(&mut self);

    fn disable_rx(&mut self);

    fn enable_tx(&mut self);

    fn disable_tx(&mut self);
}

/// The client a serial port notifies when a byte arrives or a write
/// completes. Reacting to a completed write is optional.
pub trait Client {
    fn read_done(&mut self, byte: u8);

    fn write_done(&mut self) {
    }
}

} // verus!

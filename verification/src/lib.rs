//! Driver for a memory-mapped serial transmit/receive peripheral.
//!
//! The peripheral exposes seven 32-bit registers; the driver configures the
//! baud-rate divisor, transmits caller-owned buffers through a small hardware
//! FIFO (either by busy-waiting or interrupt-driven), and hands buffer
//! ownership back on completion.  The receive path of this peripheral is a
//! stub that always fails.

pub mod gpio;
pub mod hil;
pub mod registers;
pub mod uart;

//! Interface types shared between the driver and its callers: error codes,
//! serial line parameters, and the transmit-completion record.

use vstd::prelude::*;

verus! {

/// Result codes returned to callers.
#[allow(non_camel_case_types)]
#[derive(Clone, Copy, PartialEq, Eq, Structural, Debug)]
pub enum ErrorCode {
    /// General failure: the default code for unsupported operations.
    FAIL,
    /// Invalid size: a zero-length transmit request.
    SIZE,
    /// Unsupported feature: parity or hardware flow control requested.
    NOSUPPORT,
}

/// Parity setting of the serial line.  Only `Disabled` is supported by
/// this peripheral.
#[derive(Clone, Copy, PartialEq, Eq, Structural, Debug)]
pub enum Parity {
    Disabled,
    Odd,
    Even,
}

/// Number of stop bits on the serial line.
#[derive(Clone, Copy, PartialEq, Eq, Structural, Debug)]
pub enum StopBits {
    One,
    Two,
}

/// Requested serial line configuration.
#[derive(Clone, Copy, PartialEq, Eq, Structural, Debug)]
pub struct Parameters {
    pub baud_rate: u32,
    pub parity: Parity,
    pub stop_bits: StopBits,
    pub hw_flow_control: bool,
}

/// A finished transmit, as delivered to the registered client: the buffer
/// whose ownership returns to the caller, the number of bytes handed to the
/// hardware, and the transfer result.
pub struct TxDone {
    pub buffer: Vec<u8>,
    pub len: usize,
    pub result: Result<(), ErrorCode>,
}

} // verus!

//! Pin-function selection for the GPIO pins that carry the peripheral's
//! transmit and receive signals.  Each pin must be switched to the
//! peripheral's alternate function (I/O function 0) once at setup.

use vstd::prelude::*;

verus! {

/// The function currently routed onto a pin.
#[derive(Clone, Copy, PartialEq, Eq, Structural, Debug)]
pub enum PinFunction {
    /// Ordinary software-controlled GPIO.
    Gpio,
    /// I/O function 0: the peripheral's alternate function.
    Iof0,
}

/// One GPIO pin and the function selected on it.
pub struct GpioPin {
    pub function: PinFunction,
}

impl GpioPin {
    /// A pin in its reset state: ordinary GPIO.
    pub fn new() -> (p: GpioPin)
        ensures
            p.function == PinFunction::Gpio,
    {
        GpioPin { function: PinFunction::Gpio }
    }

    /// Selects I/O function 0 on this pin.
    pub fn iof0(&mut self)
        ensures
            final(self).function == PinFunction::Iof0,
    {
        self.function = PinFunction::Iof0;
    }
}

} // verus!

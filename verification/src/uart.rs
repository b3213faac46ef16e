//! The UART driver: configuration, a blocking transmit path, and an
//! interrupt-driven transmit engine that chunks a caller-owned buffer
//! through the hardware FIFO and returns ownership on completion.

use vstd::prelude::*;

use crate::gpio::GpioPin;
use crate::hil::{ErrorCode, Parameters, Parity, StopBits, TxDone};
use crate::registers::{
    after_sync, after_wait, fill_len, fill_rest, int_rxwm, int_txwm, lemma_txctrl_fields,
    spec_txctrl, txctrl_nstop, txctrl_txcnt, txctrl_txen, txctrl_value, UartRegisters,
};

verus! {

/// One fill pass: writes `data[start..end]` into txdata in order, advancing
/// one byte at a time and stopping after the first byte whose FIFO-full
/// read answers "full".  Returns how many bytes were written (at least one).
fn fill_fifo(regs: &mut UartRegisters, data: &Vec<u8>, start: usize, end: usize) -> (k: usize)
    requires
        start < end,
        end <= data@.len(),
    ensures
        k == fill_len(old(regs).full_script@, end - start),
        1 <= k <= end - start,
        final(regs).tx_writes@ == old(regs).tx_writes@ + data@.subrange(
            start as int,
            start + k,
        ),
        final(regs).full_script@ == fill_rest(old(regs).full_script@, end - start),
        final(regs).txdata == data@[start + k - 1] as u32,
        final(regs).rxdata == old(regs).rxdata,
        final(regs).txctrl == old(regs).txctrl,
        final(regs).rxctrl == old(regs).rxctrl,
        final(regs).ie == old(regs).ie,
        final(regs).ip == old(regs).ip,
        final(regs).div == old(regs).div,
{
    let ghost r0 = *regs;
    let mut i: usize = start;
    let mut stopped: bool = false;
    while !stopped && i < end
        invariant
            start <= i <= end,
            end <= data@.len(),
            stopped ==> start < i,
            regs.tx_writes@ == r0.tx_writes@ + data@.subrange(start as int, i as int),
            !stopped ==> fill_len(r0.full_script@, end - start) == (i - start) + fill_len(
                regs.full_script@,
                end - i,
            ),
            !stopped ==> fill_rest(r0.full_script@, end - start) == fill_rest(
                regs.full_script@,
                end - i,
            ),
            stopped ==> fill_len(r0.full_script@, end - start) == i - start,
            stopped ==> fill_rest(r0.full_script@, end - start) == regs.full_script@,
            start < i ==> regs.txdata == data@[i - 1] as u32,
            regs.rxdata == r0.rxdata,
            regs.txctrl == r0.txctrl,
            regs.rxctrl == r0.rxctrl,
            regs.ie == r0.ie,
            regs.ip == r0.ip,
            regs.div == r0.div,
        decreases end - i,
    {
        regs.write_txdata(data[i]);
        proof {
            assert(data@.subrange(start as int, i + 1) =~= data@.subrange(
                start as int,
                i as int,
            ).push(data@[i as int]));
        }
        i = i + 1;
        if regs.txdata_full() {
            stopped = true;
        }
    }
    i - start
}

/// Busy-waits until the FIFO reports not-full, polling the full flag and
/// consuming the hardware's answers up to and including the first
/// "not full".
fn wait_tx_not_full(regs: &mut UartRegisters)
    ensures
        final(regs).full_script@ == after_wait(old(regs).full_script@),
        final(regs).txdata == old(regs).txdata,
        final(regs).rxdata == old(regs).rxdata,
        final(regs).txctrl == old(regs).txctrl,
        final(regs).rxctrl == old(regs).rxctrl,
        final(regs).ie == old(regs).ie,
        final(regs).ip == old(regs).ip,
        final(regs).div == old(regs).div,
        final(regs).tx_writes@ == old(regs).tx_writes@,
{
    let ghost r0 = *regs;
    let mut full: bool = regs.txdata_full();
    while full
        invariant
            full ==> after_wait(r0.full_script@) == after_wait(regs.full_script@),
            !full ==> after_wait(r0.full_script@) == regs.full_script@,
            regs.txdata == r0.txdata,
            regs.rxdata == r0.rxdata,
            regs.txctrl == r0.txctrl,
            regs.rxctrl == r0.rxctrl,
            regs.ie == r0.ie,
            regs.ip == r0.ip,
            regs.div == r0.div,
            regs.tx_writes@ == r0.tx_writes@,
        decreases regs.full_script@.len() + (if full {
            1int
        } else {
            0int
        }),
    {
        full = regs.txdata_full();
    }
}

/// The divisor derived from a clock frequency and a baud rate:
/// `clock / baud - 1`, by integer (floor) division.
pub open spec fn spec_divisor(clock: u32, baud: u32) -> u32
    recommends
        baud > 0,
        clock / baud >= 1,
{
    (clock / baud - 1) as u32
}

/// Serial parameters kept alongside the driver.
#[derive(Clone, Copy)]
pub struct UartParams {
    pub baud_rate: u32,
}

/// One UART peripheral and its driver state.
///
/// The register block is owned here; its hardware-driven parts (pending
/// interrupts, FIFO-full answers) are set by the environment.  At most one
/// transmit is in flight at a time: `buffer` is occupied exactly from a
/// successful `transmit_buffer` until the completing interrupt, `len` is
/// the total byte count of that transmit and `index` the cursor of the next
/// byte still to be handed to the FIFO.
pub struct Uart {
    /// The peripheral's register block.
    pub registers: UartRegisters,
    /// The peripheral clock frequency; immutable after construction.
    pub clock_frequency: u32,
    /// Whether a transmit-completion client is registered.  The client is
    /// not owned by the driver: completions are returned from
    /// `handle_interrupt` for the surrounding kernel to deliver.
    pub tx_client: bool,
    /// Whether a receive-completion client is registered.
    pub rx_client: bool,
    /// The stop-bit mode recorded by `configure` for the transmit path.
    pub stop_bits: StopBits,
    /// The in-flight transmit buffer, if a transmit is in progress.
    pub buffer: Option<Vec<u8>>,
    /// Total length of the in-flight transmit.
    pub len: usize,
    /// Cursor: index of the next untransmitted byte, `0 <= index <= len`.
    pub index: usize,
}

impl Uart {
    /// Well-formedness of the driver state: the cursor never passes the
    /// total length, an empty buffer slot means the previous transmit (if
    /// any) was fully handed over, and an occupied slot holds at least
    /// `len` bytes.
    pub open spec fn wf(self) -> bool {
        &&& self.index <= self.len
        &&& (self.buffer is None ==> self.index == self.len)
        &&& (self.buffer matches Some(b) ==> self.len <= b@.len())
    }

    /// A fresh driver over a reset register block.
    pub fn new(clock_frequency: u32) -> (uart: Uart)
        ensures
            uart.wf(),
            uart.clock_frequency == clock_frequency,
            !uart.tx_client,
            !uart.rx_client,
            uart.stop_bits == StopBits::One,
            uart.buffer is None,
            uart.len == 0,
            uart.index == 0,
            uart.registers.txdata == 0,
            uart.registers.rxdata == 0,
            uart.registers.txctrl == 0,
            uart.registers.rxctrl == 0,
            uart.registers.ie == 0,
            uart.registers.ip == 0,
            uart.registers.div == 0,
            uart.registers.tx_writes@ == Seq::<u8>::empty(),
            uart.registers.full_script@ == Seq::<bool>::empty(),
    {
        Uart {
            registers: UartRegisters::new(),
            clock_frequency,
            tx_client: false,
            rx_client: false,
            stop_bits: StopBits::One,
            buffer: None,
            len: 0,
            index: 0,
        }
    }

    /// Switches the transmit and receive pins to the peripheral's
    /// alternate function.
    pub fn initialize_gpio_pins(&self, tx: &mut GpioPin, rx: &mut GpioPin)
        ensures
            final(tx).function == crate::gpio::PinFunction::Iof0,
            final(rx).function == crate::gpio::PinFunction::Iof0,
    {
        tx.iof0();
        rx.iof0();
    }

    /// Derives the divisor from the clock frequency and the requested baud
    /// rate and writes it into the divisor register.
    fn set_baud_rate(&mut self, baud_rate: u32)
        requires
            baud_rate > 0,
            old(self).clock_frequency / baud_rate >= 1,
        ensures
            final(self).registers.div == (spec_divisor(old(self).clock_frequency, baud_rate)
                & 0xffffu32),
            final(self).registers.txdata == old(self).registers.txdata,
            final(self).registers.rxdata == old(self).registers.rxdata,
            final(self).registers.txctrl == old(self).registers.txctrl,
            final(self).registers.rxctrl == old(self).registers.rxctrl,
            final(self).registers.ie == old(self).registers.ie,
            final(self).registers.ip == old(self).registers.ip,
            final(self).registers.tx_writes@ == old(self).registers.tx_writes@,
            final(self).registers.full_script@ == old(self).registers.full_script@,
            final(self).clock_frequency == old(self).clock_frequency,
            final(self).tx_client == old(self).tx_client,
            final(self).rx_client == old(self).rx_client,
            final(self).stop_bits == old(self).stop_bits,
            final(self).buffer == old(self).buffer,
            final(self).len == old(self).len,
            final(self).index == old(self).index,
    {
        // f_baud = f_clk / (div + 1), so div = f_clk / f_baud - 1.
        let divisor: u32 = self.clock_frequency / baud_rate - 1;
        self.registers.write_div(divisor);
    }

    /// Validates the requested serial parameters, writes the divisor and
    /// records the stop-bit mode.  Parity and hardware flow control are not
    /// supported by this peripheral: requesting either fails with
    /// `NOSUPPORT` and writes no register.
    pub fn configure(&mut self, params: Parameters) -> (r: Result<(), ErrorCode>)
        requires
            params.parity == Parity::Disabled && !params.hw_flow_control ==> {
                &&& params.baud_rate > 0
                &&& old(self).clock_frequency / params.baud_rate >= 1
            },
        ensures
            params.parity != Parity::Disabled ==> {
                &&& r == Err::<(), ErrorCode>(ErrorCode::NOSUPPORT)
                &&& *final(self) == *old(self)
            },
            params.parity == Parity::Disabled && params.hw_flow_control ==> {
                &&& r == Err::<(), ErrorCode>(ErrorCode::NOSUPPORT)
                &&& *final(self) == *old(self)
            },
            params.parity == Parity::Disabled && !params.hw_flow_control ==> {
                &&& r == Ok::<(), ErrorCode>(())
                &&& final(self).registers.div == (spec_divisor(
                    old(self).clock_frequency,
                    params.baud_rate,
                ) & 0xffffu32)
                &&& (spec_divisor(old(self).clock_frequency, params.baud_rate) < 0x10000
                    ==> final(self).registers.div == spec_divisor(
                    old(self).clock_frequency,
                    params.baud_rate,
                ))
                &&& final(self).stop_bits == params.stop_bits
                &&& final(self).registers.txdata == old(self).registers.txdata
                &&& final(self).registers.rxdata == old(self).registers.rxdata
                &&& final(self).registers.txctrl == old(self).registers.txctrl
                &&& final(self).registers.rxctrl == old(self).registers.rxctrl
                &&& final(self).registers.ie == old(self).registers.ie
                &&& final(self).registers.ip == old(self).registers.ip
                &&& final(self).registers.tx_writes@ == old(self).registers.tx_writes@
                &&& final(self).registers.full_script@ == old(self).registers.full_script@
                &&& final(self).clock_frequency == old(self).clock_frequency
                &&& final(self).tx_client == old(self).tx_client
                &&& final(self).rx_client == old(self).rx_client
                &&& final(self).buffer == old(self).buffer
                &&& final(self).len == old(self).len
                &&& final(self).index == old(self).index
            },
    {
        // This peripheral supports neither parity nor hardware flow control.
        if params.parity != Parity::Disabled {
            return Err(ErrorCode::NOSUPPORT);
        }
        if params.hw_flow_control {
            return Err(ErrorCode::NOSUPPORT);
        }

        self.set_baud_rate(params.baud_rate);

        // The stop bits are applied later, in the transmit control register.
        self.stop_bits = params.stop_bits;

        proof {
            let d = spec_divisor(old(self).clock_frequency, params.baud_rate);
            assert(d < 0x10000 ==> (d & 0xffffu32) == d) by (bit_vector);
        }

        Ok(())
    }

    /// Enables the transmit-watermark interrupt.
    fn enable_tx_interrupt(&mut self)
        ensures
            final(self).registers.ie == (old(self).registers.ie | 0x1u32),
            int_txwm(final(self).registers.ie),
            int_rxwm(final(self).registers.ie) == int_rxwm(old(self).registers.ie),
            final(self).registers.txdata == old(self).registers.txdata,
            final(self).registers.rxdata == old(self).registers.rxdata,
            final(self).registers.txctrl == old(self).registers.txctrl,
            final(self).registers.rxctrl == old(self).registers.rxctrl,
            final(self).registers.ip == old(self).registers.ip,
            final(self).registers.div == old(self).registers.div,
            final(self).registers.tx_writes@ == old(self).registers.tx_writes@,
            final(self).registers.full_script@ == old(self).registers.full_script@,
            final(self).clock_frequency == old(self).clock_frequency,
            final(self).tx_client == old(self).tx_client,
            final(self).rx_client == old(self).rx_client,
            final(self).stop_bits == old(self).stop_bits,
            final(self).buffer == old(self).buffer,
            final(self).len == old(self).len,
            final(self).index == old(self).index,
    {
        self.registers.ie_set_txwm();
    }

    /// Disables the transmit-watermark interrupt.
    fn disable_tx_interrupt(&mut self)
        ensures
            final(self).registers.ie == (old(self).registers.ie & 0xffff_fffeu32),
            !int_txwm(final(self).registers.ie),
            int_rxwm(final(self).registers.ie) == int_rxwm(old(self).registers.ie),
            final(self).registers.txdata == old(self).registers.txdata,
            final(self).registers.rxdata == old(self).registers.rxdata,
            final(self).registers.txctrl == old(self).registers.txctrl,
            final(self).registers.rxctrl == old(self).registers.rxctrl,
            final(self).registers.ip == old(self).registers.ip,
            final(self).registers.div == old(self).registers.div,
            final(self).registers.tx_writes@ == old(self).registers.tx_writes@,
            final(self).registers.full_script@ == old(self).registers.full_script@,
            final(self).clock_frequency == old(self).clock_frequency,
            final(self).tx_client == old(self).tx_client,
            final(self).rx_client == old(self).rx_client,
            final(self).stop_bits == old(self).stop_bits,
            final(self).buffer == old(self).buffer,
            final(self).len == old(self).len,
            final(self).index == old(self).index,
    {
        self.registers.ie_clear_txwm();
    }

    /// Starts an asynchronous transmit of `tx_data[0..tx_len]`.
    ///
    /// A zero-length request fails with `SIZE` and the buffer rides back
    /// unchanged.  Otherwise the watermark interrupt is enabled, the FIFO
    /// is filled from cursor 0 until the hardware reports it full (at least
    /// one byte is written), the buffer's ownership moves into the driver,
    /// and the transmitter is enabled with the configured stop bits and a
    /// trigger count of one.  Completion is never signalled here: it always
    /// comes later, out of `handle_interrupt`.
    pub fn transmit_buffer(&mut self, tx_data: Vec<u8>, tx_len: usize) -> (r: Result<
        (),
        (ErrorCode, Vec<u8>),
    >)
        requires
            old(self).wf(),
            old(self).buffer is None,
            tx_len <= tx_data@.len(),
        ensures
            final(self).wf(),
            tx_len == 0 ==> {
                &&& *final(self) == *old(self)
                &&& r matches Err((e, b)) && e == ErrorCode::SIZE && b == tx_data
            },
            tx_len > 0 ==> {
                &&& r == Ok::<(), (ErrorCode, Vec<u8>)>(())
                &&& final(self).buffer == Some(tx_data)
                &&& final(self).len == tx_len
                &&& final(self).index == fill_len(
                    old(self).registers.full_script@,
                    tx_len as int,
                )
                &&& 1 <= final(self).index <= tx_len
                &&& final(self).registers.tx_writes@ == old(self).registers.tx_writes@
                    + tx_data@.subrange(0, final(self).index as int)
                &&& final(self).registers.full_script@ == fill_rest(
                    old(self).registers.full_script@,
                    tx_len as int,
                )
                &&& final(self).registers.ie == (old(self).registers.ie | 0x1u32)
                &&& int_txwm(final(self).registers.ie)
                &&& int_rxwm(final(self).registers.ie) == int_rxwm(old(self).registers.ie)
                &&& final(self).registers.txctrl == spec_txctrl(
                    true,
                    old(self).stop_bits == StopBits::Two,
                    1,
                )
                &&& txctrl_txen(final(self).registers.txctrl)
                &&& txctrl_txcnt(final(self).registers.txctrl) == 1
                &&& txctrl_nstop(final(self).registers.txctrl) == (
                if old(self).stop_bits == StopBits::Two {
                    1u32
                } else {
                    0u32
                })
                &&& final(self).registers.txdata == tx_data@[final(self).index - 1] as u32
                &&& final(self).registers.rxdata == old(self).registers.rxdata
                &&& final(self).registers.rxctrl == old(self).registers.rxctrl
                &&& final(self).registers.ip == old(self).registers.ip
                &&& final(self).registers.div == old(self).registers.div
                &&& final(self).stop_bits == old(self).stop_bits
                &&& final(self).tx_client == old(self).tx_client
                &&& final(self).rx_client == old(self).rx_client
                &&& final(self).clock_frequency == old(self).clock_frequency
            },
    {
        if tx_len == 0 {
            return Err((ErrorCode::SIZE, tx_data));
        }

        // Enable the interrupt so the engine learns when it can keep writing.
        self.enable_tx_interrupt();

        // Fill the FIFO until the hardware reports it full.
        let k: usize = fill_fifo(&mut self.registers, &tx_data, 0, tx_len);
        self.index = k;

        // Save the buffer so the interrupt path can keep sending it.
        self.buffer = Some(tx_data);
        self.len = tx_len;

        // Enable transmissions; interrupt once the FIFO has drained.
        let two_stop: bool = match self.stop_bits {
            StopBits::One => false,
            StopBits::Two => true,
        };
        let ctrl: u32 = txctrl_value(true, two_stop, 1);
        self.registers.write_txctrl(ctrl);

        proof {
            lemma_txctrl_fields(true, old(self).stop_bits == StopBits::Two, 1);
        }

        Ok(())
    }

    /// Transmits `bytes` synchronously, bypassing the interrupt machinery:
    /// programs the transmitter for one stop bit and a trigger count of
    /// one, then for each byte in order busy-waits until the FIFO has room
    /// and writes it.  Returns once every byte is in the FIFO — physical
    /// transmission may still be draining — and issues no callback.
    pub fn transmit_sync(&mut self, bytes: &Vec<u8>)
        ensures
            final(self).registers.txctrl == spec_txctrl(true, false, 1),
            txctrl_txen(final(self).registers.txctrl),
            txctrl_txcnt(final(self).registers.txctrl) == 1,
            txctrl_nstop(final(self).registers.txctrl) == 0,
            final(self).registers.tx_writes@ == old(self).registers.tx_writes@ + bytes@,
            final(self).registers.full_script@ == after_sync(
                old(self).registers.full_script@,
                bytes@.len() as int,
            ),
            bytes@.len() > 0 ==> final(self).registers.txdata == bytes@[bytes@.len() - 1] as u32,
            bytes@.len() == 0 ==> final(self).registers.txdata == old(self).registers.txdata,
            final(self).registers.rxdata == old(self).registers.rxdata,
            final(self).registers.rxctrl == old(self).registers.rxctrl,
            final(self).registers.ie == old(self).registers.ie,
            final(self).registers.ip == old(self).registers.ip,
            final(self).registers.div == old(self).registers.div,
            final(self).clock_frequency == old(self).clock_frequency,
            final(self).tx_client == old(self).tx_client,
            final(self).rx_client == old(self).rx_client,
            final(self).stop_bits == old(self).stop_bits,
            final(self).buffer == old(self).buffer,
            final(self).len == old(self).len,
            final(self).index == old(self).index,
    {
        let ghost r0 = *old(self);

        // Make sure the transmitter is enabled.
        let ctrl: u32 = txctrl_value(true, false, 1);
        self.registers.write_txctrl(ctrl);
        proof {
            lemma_txctrl_fields(true, false, 1);
        }

        let mut j: usize = 0;
        while j < bytes.len()
            invariant
                j <= bytes@.len(),
                self.registers.txctrl == spec_txctrl(true, false, 1),
                self.registers.tx_writes@ == r0.registers.tx_writes@ + bytes@.subrange(
                    0,
                    j as int,
                ),
                after_sync(r0.registers.full_script@, bytes@.len() as int) == after_sync(
                    self.registers.full_script@,
                    bytes@.len() - j,
                ),
                j > 0 ==> self.registers.txdata == bytes@[j - 1] as u32,
                j == 0 ==> self.registers.txdata == r0.registers.txdata,
                self.registers.rxdata == r0.registers.rxdata,
                self.registers.rxctrl == r0.registers.rxctrl,
                self.registers.ie == r0.registers.ie,
                self.registers.ip == r0.registers.ip,
                self.registers.div == r0.registers.div,
                self.clock_frequency == r0.clock_frequency,
                self.tx_client == r0.tx_client,
                self.rx_client == r0.rx_client,
                self.stop_bits == r0.stop_bits,
                self.buffer == r0.buffer,
                self.len == r0.len,
                self.index == r0.index,
            decreases bytes@.len() - j,
        {
            wait_tx_not_full(&mut self.registers);
            self.registers.write_txdata(bytes[j]);
            proof {
                assert(bytes@.subrange(0, j + 1) =~= bytes@.subrange(0, j as int).push(
                    bytes@[j as int],
                ));
            }
            j = j + 1;
        }
        proof {
            assert(bytes@.subrange(0, bytes@.len() as int) =~= bytes@);
        }
    }

    /// Services pending interrupts.  The pending flags are read once, as a
    /// snapshot.  On a transmit-watermark interrupt:
    ///
    /// - if every byte has been handed to the FIFO, the transmitter and the
    ///   watermark interrupt are disabled and — when a client is registered
    ///   and a buffer is in flight — the completion (buffer ownership, the
    ///   total length, success) is returned for delivery to the client;
    ///   this is the sole path on which buffer ownership returns on success.
    /// - otherwise filling resumes from the cursor until the hardware
    ///   reports the FIFO full again, the interrupt staying armed.
    ///
    /// A spurious interrupt with no in-flight buffer or no registered
    /// client is silently ignored.  Receive-watermark interrupts are not
    /// handled: the receiver is never enabled.
    pub fn handle_interrupt(&mut self) -> (done: Option<TxDone>)
        requires
            old(self).wf(),
        ensures
            final(self).wf(),
            !int_txwm(old(self).registers.ip) ==> {
                &&& *final(self) == *old(self)
                &&& done is None
            },
            int_txwm(old(self).registers.ip) && old(self).index == old(self).len ==> {
                &&& final(self).registers.txctrl == 0
                &&& !txctrl_txen(final(self).registers.txctrl)
                &&& final(self).registers.ie == (old(self).registers.ie & 0xffff_fffeu32)
                &&& !int_txwm(final(self).registers.ie)
                &&& int_rxwm(final(self).registers.ie) == int_rxwm(old(self).registers.ie)
                &&& final(self).index == old(self).index
                &&& final(self).len == old(self).len
                &&& final(self).registers.tx_writes@ == old(self).registers.tx_writes@
                &&& final(self).registers.full_script@ == old(self).registers.full_script@
                &&& final(self).registers.txdata == old(self).registers.txdata
                &&& final(self).registers.rxdata == old(self).registers.rxdata
                &&& final(self).registers.rxctrl == old(self).registers.rxctrl
                &&& final(self).registers.ip == old(self).registers.ip
                &&& final(self).registers.div == old(self).registers.div
                &&& final(self).stop_bits == old(self).stop_bits
                &&& final(self).tx_client == old(self).tx_client
                &&& final(self).rx_client == old(self).rx_client
                &&& final(self).clock_frequency == old(self).clock_frequency
                &&& (old(self).tx_client && old(self).buffer is Some ==> {
                    &&& done matches Some(d)
                    &&& old(self).buffer == Some(d.buffer)
                    &&& d.len == old(self).len
                    &&& d.result == Ok::<(), ErrorCode>(())
                    &&& final(self).buffer is None
                })
                &&& (!(old(self).tx_client && old(self).buffer is Some) ==> {
                    &&& done is None
                    &&& final(self).buffer == old(self).buffer
                })
            },
            int_txwm(old(self).registers.ip) && old(self).index < old(self).len ==> {
                &&& done is None
                &&& final(self).buffer == old(self).buffer
                &&& final(self).len == old(self).len
                &&& final(self).index == old(self).index + fill_len(
                    old(self).registers.full_script@,
                    old(self).len - old(self).index,
                )
                &&& old(self).index < final(self).index <= final(self).len
                &&& (old(self).buffer matches Some(b) ==> final(self).registers.tx_writes@ == old(
                    self,
                ).registers.tx_writes@ + b@.subrange(
                    old(self).index as int,
                    final(self).index as int,
                ))
                &&& final(self).registers.full_script@ == fill_rest(
                    old(self).registers.full_script@,
                    old(self).len - old(self).index,
                )
                &&& final(self).registers.ie == old(self).registers.ie
                &&& final(self).registers.txctrl == old(self).registers.txctrl
                &&& final(self).registers.rxdata == old(self).registers.rxdata
                &&& final(self).registers.rxctrl == old(self).registers.rxctrl
                &&& final(self).registers.ip == old(self).registers.ip
                &&& final(self).registers.div == old(self).registers.div
                &&& final(self).stop_bits == old(self).stop_bits
                &&& final(self).tx_client == old(self).tx_client
                &&& final(self).rx_client == old(self).rx_client
                &&& final(self).clock_frequency == old(self).clock_frequency
            },
    {
        // One snapshot of the pending flags, so a changing register is not
        // re-read mid-decision.
        let pending: u32 = self.registers.read_ip();

        if (pending & 0x1) == 1 {
            // Transmit watermark: the FIFO has drained below the trigger.
            if self.len == self.index {
                // Every byte has been handed over: we are done.
                self.registers.write_txctrl(0);
                self.disable_tx_interrupt();
                proof {
                    assert(((0u32 & 0x1) == 1) == false) by (bit_vector);
                }

                // Signal the client that the write is done.
                if self.tx_client {
                    let taken: Option<Vec<u8>> = self.buffer.take();
                    match taken {
                        Some(buf) => Some(
                            TxDone { buffer: buf, len: self.len, result: Ok(()) },
                        ),
                        None => None,
                    }
                } else {
                    None
                }
            } else {
                // More to send: fill the FIFO until it reports full again.
                match &self.buffer {
                    Some(buf) => {
                        let k: usize = fill_fifo(
                            &mut self.registers,
                            buf,
                            self.index,
                            self.len,
                        );
                        self.index = self.index + k;
                    },
                    None => {},
                }
                None
            }
        } else {
            None
        }
    }

    /// Registers a transmit-completion client.  Completions are returned
    /// from `handle_interrupt` for the surrounding kernel to deliver to it.
    pub fn set_transmit_client(&mut self)
        ensures
            final(self).tx_client,
            final(self).rx_client == old(self).rx_client,
            final(self).registers == old(self).registers,
            final(self).clock_frequency == old(self).clock_frequency,
            final(self).stop_bits == old(self).stop_bits,
            final(self).buffer == old(self).buffer,
            final(self).len == old(self).len,
            final(self).index == old(self).index,
    {
        self.tx_client = true;
    }

    /// Registers a receive-completion client.
    pub fn set_receive_client(&mut self)
        ensures
            final(self).rx_client,
            final(self).tx_client == old(self).tx_client,
            final(self).registers == old(self).registers,
            final(self).clock_frequency == old(self).clock_frequency,
            final(self).stop_bits == old(self).stop_bits,
            final(self).buffer == old(self).buffer,
            final(self).len == old(self).len,
            final(self).index == old(self).index,
    {
        self.rx_client = true;
    }

    /// Aborting an in-flight transmit is not supported.
    pub fn transmit_abort(&self) -> (r: Result<(), ErrorCode>)
        ensures
            r == Err::<(), ErrorCode>(ErrorCode::FAIL),
    {
        Err(ErrorCode::FAIL)
    }

    /// Word-oriented transmission is not supported: this peripheral only
    /// transfers buffers.
    pub fn transmit_word(&self, _word: u32) -> (r: Result<(), ErrorCode>)
        ensures
            r == Err::<(), ErrorCode>(ErrorCode::FAIL),
    {
        Err(ErrorCode::FAIL)
    }

    /// Receiving is a stub on this driver: the call always fails and the
    /// caller's buffer rides back unchanged.
    pub fn receive_buffer(&self, rx_buffer: Vec<u8>, _rx_len: usize) -> (r: Result<
        (),
        (ErrorCode, Vec<u8>),
    >)
        ensures
            r matches Err((e, b)) && e == ErrorCode::FAIL && b == rx_buffer,
    {
        Err((ErrorCode::FAIL, rx_buffer))
    }

    /// Aborting a receive is not supported.
    pub fn receive_abort(&self) -> (r: Result<(), ErrorCode>)
        ensures
            r == Err::<(), ErrorCode>(ErrorCode::FAIL),
    {
        Err(ErrorCode::FAIL)
    }

    /// Word-oriented reception is not supported.
    pub fn receive_word(&self) -> (r: Result<(), ErrorCode>)
        ensures
            r == Err::<(), ErrorCode>(ErrorCode::FAIL),
    {
        Err(ErrorCode::FAIL)
    }
}

} // verus!

//! Model of the peripheral's memory-mapped register block.
//!
//! The block holds seven 32-bit registers in a fixed hardware order:
//! transmit data, receive data, transmit control, receive control,
//! interrupt enable, interrupt pending, baud divisor.  The bit positions of
//! the named fields are fixed by the hardware and must never move.
//!
//! Two sides meet in this block.  The driver writes txdata, txctrl, rxctrl,
//! ie and div; the hardware supplies the FIFO-full flag read through txdata
//! and the pending bits of ip.  The hardware side is modelled explicitly:
//! `tx_writes` records every byte the transmit FIFO accepted, and
//! `full_script` holds the FIFO-full answers the hardware has yet to give,
//! oldest first (an exhausted script answers "not full").  Driver behaviour
//! is then a function of the hardware's answers.

use vstd::prelude::*;

verus! {

// ---------------------------------------------------------------------
// Bit fields of the registers.
// ---------------------------------------------------------------------

/// txdata, bits 0-7: the byte to send (bit 31 is the FIFO-full flag,
/// supplied by the hardware on reads).
pub open spec fn txdata_data(v: u32) -> u32 {
    v & 0xff
}

/// txctrl, bit 0: transmitter enable.
pub open spec fn txctrl_txen(v: u32) -> bool {
    (v & 0x1) == 1
}

/// txctrl, bit 1: stop bits (0 = one stop bit, 1 = two).
pub open spec fn txctrl_nstop(v: u32) -> u32 {
    (v >> 1) & 0x1
}

/// txctrl, bits 16-18: FIFO trigger count.
pub open spec fn txctrl_txcnt(v: u32) -> u32 {
    (v >> 16) & 0x7
}

/// rxctrl, bit 0: receiver enable.
pub open spec fn rxctrl_enable(v: u32) -> bool {
    (v & 0x1) == 1
}

/// rxctrl, bits 16-18: FIFO trigger count.
pub open spec fn rxctrl_counter(v: u32) -> u32 {
    (v >> 16) & 0x7
}

/// ie / ip, bit 0: transmit watermark.
pub open spec fn int_txwm(v: u32) -> bool {
    (v & 0x1) == 1
}

/// ie / ip, bit 1: receive watermark.
pub open spec fn int_rxwm(v: u32) -> bool {
    (v & 0x2) == 2
}

/// div, bits 0-15: the integer baud divisor.
pub open spec fn div_div(v: u32) -> u32 {
    v & 0xffff
}

/// The txctrl value with the given fields set and every other bit clear.
pub open spec fn spec_txctrl(txen: bool, two_stop: bool, txcnt: u32) -> u32 {
    ((txcnt & 0x7) << 16) | (if two_stop { 2u32 } else { 0u32 }) | (if txen { 1u32 } else { 0u32 })
}

/// Builds a txctrl register value from its fields.
pub fn txctrl_value(txen: bool, two_stop: bool, txcnt: u32) -> (v: u32)
    ensures
        v == spec_txctrl(txen, two_stop, txcnt),
{
    let t: u32 = if two_stop { 2 } else { 0 };
    let e: u32 = if txen { 1 } else { 0 };
    ((txcnt & 0x7) << 16u32) | t | e
}

/// The named fields read back from a txctrl value built by `spec_txctrl`.
pub proof fn lemma_txctrl_fields(txen: bool, two_stop: bool, txcnt: u32)
    requires
        txcnt < 8,
    ensures
        txctrl_txen(spec_txctrl(txen, two_stop, txcnt)) == txen,
        txctrl_nstop(spec_txctrl(txen, two_stop, txcnt)) == (if two_stop { 1u32 } else { 0u32 }),
        txctrl_txcnt(spec_txctrl(txen, two_stop, txcnt)) == txcnt,
{
    let t: u32 = if two_stop { 2 } else { 0 };
    let e: u32 = if txen { 1 } else { 0 };
    assert((txcnt < 8 && (t == 0 || t == 2) && (e == 0 || e == 1)) ==> {
        ((((((txcnt & 0x7) << 16u32) | t) | e) & 0x1) == 1) == (e == 1)
        && (((((((txcnt & 0x7) << 16u32) | t) | e) >> 1u32) & 0x1) == 1) == (t == 2)
        && ((((((txcnt & 0x7) << 16u32) | t) | e) >> 1u32) & 0x1) < 2
        && (((((txcnt & 0x7) << 16u32) | t) | e) >> 16u32) & 0x7 == txcnt
    }) by (bit_vector);
    assert(spec_txctrl(txen, two_stop, txcnt) == ((((txcnt & 0x7) << 16u32) | t) | e));
}

// ---------------------------------------------------------------------
// The hardware's FIFO-full answers.
// ---------------------------------------------------------------------

/// Whether the next FIFO-full read answers "full".
pub open spec fn full_head(s: Seq<bool>) -> bool {
    s.len() > 0 && s[0]
}

/// The script after one FIFO-full read (an empty script stays empty).
pub open spec fn script_tail(s: Seq<bool>) -> Seq<bool> {
    if s.len() > 0 {
        s.drop_first()
    } else {
        s
    }
}

/// How many bytes one fill pass writes: one byte per step, stopping after
/// the first byte whose full-flag read answers "full", or after `max` bytes.
pub open spec fn fill_len(s: Seq<bool>, max: int) -> int
    decreases max,
{
    if max <= 0 {
        0
    } else if full_head(s) {
        1
    } else {
        1 + fill_len(script_tail(s), max - 1)
    }
}

/// The script left over after one fill pass of at most `max` bytes.
pub open spec fn fill_rest(s: Seq<bool>, max: int) -> Seq<bool>
    decreases max,
{
    if max <= 0 {
        s
    } else if full_head(s) {
        script_tail(s)
    } else {
        fill_rest(script_tail(s), max - 1)
    }
}

/// The script left over after one busy-wait for a not-full FIFO.
pub open spec fn after_wait(s: Seq<bool>) -> Seq<bool>
    decreases s.len(),
{
    if full_head(s) {
        after_wait(script_tail(s))
    } else {
        script_tail(s)
    }
}

/// The script left over after a synchronous transmit of `n` bytes, each
/// preceded by one busy-wait.
pub open spec fn after_sync(s: Seq<bool>, n: int) -> Seq<bool>
    decreases n,
{
    if n <= 0 {
        s
    } else {
        after_sync(after_wait(s), n - 1)
    }
}

// ---------------------------------------------------------------------
// The register block.
// ---------------------------------------------------------------------

/// The peripheral's register block together with the modelled hardware
/// side.  The register fields are public so that the environment (tests,
/// the surrounding kernel) can play the hardware's part: raise pending
/// interrupts in `ip` and choose the FIFO-full answers in `full_script`.
pub struct UartRegisters {
    /// Transmit data register (bits 0-7: the last byte written).
    pub txdata: u32,
    /// Receive data register.
    pub rxdata: u32,
    /// Transmit control register.
    pub txctrl: u32,
    /// Receive control register.
    pub rxctrl: u32,
    /// Interrupt enable register.
    pub ie: u32,
    /// Interrupt pending register; its bits are set by the hardware.
    pub ip: u32,
    /// Baud rate divisor register.
    pub div: u32,
    /// Every byte written to txdata, in order: the transmit FIFO's intake.
    pub tx_writes: Vec<u8>,
    /// The FIFO-full answers the hardware has yet to give, oldest first.
    /// Once exhausted, the FIFO reports "not full".
    pub full_script: Vec<bool>,
}

impl UartRegisters {
    /// A register block in its reset state.
    pub fn new() -> (r: UartRegisters)
        ensures
            r.txdata == 0,
            r.rxdata == 0,
            r.txctrl == 0,
            r.rxctrl == 0,
            r.ie == 0,
            r.ip == 0,
            r.div == 0,
            r.tx_writes@ == Seq::<u8>::empty(),
            r.full_script@ == Seq::<bool>::empty(),
            !rxctrl_enable(r.rxctrl),
            rxctrl_counter(r.rxctrl) == 0,
    {
        proof {
            assert(((0u32 & 0x2) == 2) == false) by (bit_vector);
            assert(((0u32 & 0x1) == 1) == false) by (bit_vector);
            assert(((0u32 >> 16u32) & 0x7) == 0) by (bit_vector);
        }
        UartRegisters {
            txdata: 0,
            rxdata: 0,
            txctrl: 0,
            rxctrl: 0,
            ie: 0,
            ip: 0,
            div: 0,
            tx_writes: Vec::new(),
            full_script: Vec::new(),
        }
    }

    /// Writes a byte into the data field of txdata; the FIFO accepts it.
    pub fn write_txdata(&mut self, byte: u8)
        ensures
            final(self).txdata == byte as u32,
            txdata_data(final(self).txdata) == byte as u32,
            final(self).tx_writes@ == old(self).tx_writes@.push(byte),
            final(self).rxdata == old(self).rxdata,
            final(self).txctrl == old(self).txctrl,
            final(self).rxctrl == old(self).rxctrl,
            final(self).ie == old(self).ie,
            final(self).ip == old(self).ip,
            final(self).div == old(self).div,
            final(self).full_script@ == old(self).full_script@,
    {
        proof {
            let b = byte;
            assert((b as u32) & 0xff == b as u32) by (bit_vector);
        }
        self.txdata = byte as u32;
        self.tx_writes.push(byte);
    }

    /// Reads the FIFO-full flag of txdata: the hardware gives the next
    /// scripted answer, or "not full" once the script is exhausted.
    pub fn txdata_full(&mut self) -> (full: bool)
        ensures
            full == full_head(old(self).full_script@),
            final(self).full_script@ == script_tail(old(self).full_script@),
            final(self).txdata == old(self).txdata,
            final(self).rxdata == old(self).rxdata,
            final(self).txctrl == old(self).txctrl,
            final(self).rxctrl == old(self).rxctrl,
            final(self).ie == old(self).ie,
            final(self).ip == old(self).ip,
            final(self).div == old(self).div,
            final(self).tx_writes@ == old(self).tx_writes@,
    {
        if self.full_script.len() > 0 {
            self.full_script.remove(0)
        } else {
            false
        }
    }

    /// Writes the whole transmit control register.
    pub fn write_txctrl(&mut self, v: u32)
        ensures
            final(self).txctrl == v,
            final(self).txdata == old(self).txdata,
            final(self).rxdata == old(self).rxdata,
            final(self).rxctrl == old(self).rxctrl,
            final(self).ie == old(self).ie,
            final(self).ip == old(self).ip,
            final(self).div == old(self).div,
            final(self).tx_writes@ == old(self).tx_writes@,
            final(self).full_script@ == old(self).full_script@,
    {
        self.txctrl = v;
    }

    /// Writes the divisor into the 16-bit div field; the upper bits of the
    /// value are masked off by the field width.
    pub fn write_div(&mut self, divisor: u32)
        ensures
            final(self).div == div_div(divisor),
            final(self).txdata == old(self).txdata,
            final(self).rxdata == old(self).rxdata,
            final(self).txctrl == old(self).txctrl,
            final(self).rxctrl == old(self).rxctrl,
            final(self).ie == old(self).ie,
            final(self).ip == old(self).ip,
            final(self).tx_writes@ == old(self).tx_writes@,
            final(self).full_script@ == old(self).full_script@,
    {
        self.div = divisor & 0xffff;
    }

    /// Sets the transmit-watermark bit of the interrupt enable register,
    /// leaving the other bits as they are.
    pub fn ie_set_txwm(&mut self)
        ensures
            final(self).ie == (old(self).ie | 0x1u32),
            int_txwm(final(self).ie),
            int_rxwm(final(self).ie) == int_rxwm(old(self).ie),
            final(self).txdata == old(self).txdata,
            final(self).rxdata == old(self).rxdata,
            final(self).txctrl == old(self).txctrl,
            final(self).rxctrl == old(self).rxctrl,
            final(self).ip == old(self).ip,
            final(self).div == old(self).div,
            final(self).tx_writes@ == old(self).tx_writes@,
            final(self).full_script@ == old(self).full_script@,
    {
        proof {
            let v = self.ie;
            assert(((v | 0x1u32) & 0x1) == 1) by (bit_vector);
            assert(((v | 0x1u32) & 0x2) == (v & 0x2)) by (bit_vector);
        }
        self.ie = self.ie | 0x1;
    }

    /// Clears the transmit-watermark bit of the interrupt enable register,
    /// leaving the other bits as they are.
    pub fn ie_clear_txwm(&mut self)
        ensures
            final(self).ie == (old(self).ie & 0xffff_fffeu32),
            !int_txwm(final(self).ie),
            int_rxwm(final(self).ie) == int_rxwm(old(self).ie),
            final(self).txdata == old(self).txdata,
            final(self).rxdata == old(self).rxdata,
            final(self).txctrl == old(self).txctrl,
            final(self).rxctrl == old(self).rxctrl,
            final(self).ip == old(self).ip,
            final(self).div == old(self).div,
            final(self).tx_writes@ == old(self).tx_writes@,
            final(self).full_script@ == old(self).full_script@,
    {
        proof {
            let v = self.ie;
            assert(((v & 0xffff_fffeu32) & 0x1) != 1) by (bit_vector);
            assert(((v & 0xffff_fffeu32) & 0x2) == (v & 0x2)) by (bit_vector);
        }
        self.ie = self.ie & 0xffff_fffe;
    }

    /// Reads the pending-interrupt register (a snapshot: the caller tests
    /// its bits without re-reading a register the hardware may change).
    pub fn read_ip(&self) -> (v: u32)
        ensures
            v == self.ip,
    {
        self.ip
    }
}

} // verus!

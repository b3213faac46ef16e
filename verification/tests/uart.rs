//! Tests for the UART driver: configuration, the synchronous and
//! asynchronous transmit paths, the interrupt handler, and the receive
//! stubs.  Tests play the hardware's part through the public register
//! fields: they choose the FIFO-full answers (`full_script`) and raise
//! pending interrupts (`ip`).

use sifive_uart::gpio::{GpioPin, PinFunction};
use sifive_uart::hil::{ErrorCode, Parameters, Parity, StopBits};
use sifive_uart::uart::{Uart, UartParams};

fn params(baud_rate: u32) -> Parameters {
    Parameters {
        baud_rate,
        parity: Parity::Disabled,
        stop_bits: StopBits::One,
        hw_flow_control: false,
    }
}

#[test]
fn divisor_16mhz_115200() {
    // 16,000,000 / 115,200 = 138 (floor), minus 1 = 137.
    let mut uart = Uart::new(16_000_000);
    let r = uart.configure(params(115_200));
    assert_eq!(r, Ok(()));
    assert_eq!(uart.registers.div, 137);
}

#[test]
fn divisor_small_exact() {
    let mut uart = Uart::new(1_000);
    let r = uart.configure(params(10));
    assert_eq!(r, Ok(()));
    assert_eq!(uart.registers.div, 99);
}

#[test]
fn divisor_truncates_to_field_width() {
    // The div field is 16 bits wide: an oversized divisor is masked.
    let mut uart = Uart::new(u32::MAX);
    let r = uart.configure(params(1));
    assert_eq!(r, Ok(()));
    assert_eq!(uart.registers.div, (u32::MAX - 1) & 0xffff);
}

#[test]
fn configure_records_stop_bits() {
    let mut uart = Uart::new(16_000_000);
    let mut p = params(115_200);
    p.stop_bits = StopBits::Two;
    assert_eq!(uart.configure(p), Ok(()));
    // The stop bits show up in txctrl when a transmit starts.
    assert_eq!(uart.transmit_buffer(vec![7u8], 1), Ok(()));
    assert_eq!(uart.registers.txctrl, 0x0001_0003);
}

#[test]
fn configure_parity_even_rejected() {
    let mut uart = Uart::new(16_000_000);
    let mut p = params(115_200);
    p.parity = Parity::Even;
    assert_eq!(uart.configure(p), Err(ErrorCode::NOSUPPORT));
    // No register was written.
    assert_eq!(uart.registers.div, 0);
    assert_eq!(uart.registers.txctrl, 0);
    assert_eq!(uart.registers.ie, 0);
}

#[test]
fn configure_parity_odd_rejected_whatever_else() {
    // Parity is checked first: even a zero baud rate and flow control do
    // not change the error.
    let mut uart = Uart::new(16_000_000);
    let p = Parameters {
        baud_rate: 0,
        parity: Parity::Odd,
        stop_bits: StopBits::Two,
        hw_flow_control: true,
    };
    assert_eq!(uart.configure(p), Err(ErrorCode::NOSUPPORT));
    assert_eq!(uart.registers.div, 0);
}

#[test]
fn configure_flow_control_rejected() {
    let mut uart = Uart::new(16_000_000);
    let mut p = params(115_200);
    p.hw_flow_control = true;
    assert_eq!(uart.configure(p), Err(ErrorCode::NOSUPPORT));
    assert_eq!(uart.registers.div, 0);
    assert_eq!(uart.registers.txctrl, 0);
    assert_eq!(uart.registers.ie, 0);
}

#[test]
fn transmit_buffer_zero_len_empty() {
    let mut uart = Uart::new(16_000_000);
    let r = uart.transmit_buffer(Vec::new(), 0);
    match r {
        Err((code, buffer)) => {
            assert_eq!(code, ErrorCode::SIZE);
            assert!(buffer.is_empty());
        }
        Ok(()) => panic!("zero-length transmit must fail"),
    }
    // No register side effects.
    assert_eq!(uart.registers.ie, 0);
    assert_eq!(uart.registers.txctrl, 0);
    assert!(uart.registers.tx_writes.is_empty());
}

#[test]
fn transmit_buffer_zero_len_returns_buffer() {
    let mut uart = Uart::new(16_000_000);
    let r = uart.transmit_buffer(vec![1u8, 2, 3], 0);
    match r {
        Err((code, buffer)) => {
            assert_eq!(code, ErrorCode::SIZE);
            assert_eq!(buffer, vec![1u8, 2, 3]);
        }
        Ok(()) => panic!("zero-length transmit must fail"),
    }
}

#[test]
fn transmit_deep_fifo_completes_on_first_interrupt() {
    // The FIFO never reports full: the initial fill takes all ten bytes.
    let mut uart = Uart::new(16_000_000);
    uart.set_transmit_client();
    let r = uart.transmit_buffer(vec![0x41u8; 10], 10);
    assert_eq!(r, Ok(()));
    assert_eq!(uart.index, 10);
    assert_eq!(uart.registers.tx_writes, vec![0x41u8; 10]);
    assert_eq!(uart.registers.ie & 0x1, 0x1);
    assert_eq!(uart.registers.txctrl, 0x0001_0001);
    // No completion before the interrupt, even though everything fit.
    assert!(uart.buffer.is_some());

    // Hardware raises the transmit-watermark interrupt.
    uart.registers.ip = 0x1;
    let done = uart.handle_interrupt().expect("completion expected");
    assert_eq!(done.buffer, vec![0x41u8; 10]);
    assert_eq!(done.len, 10);
    assert_eq!(done.result, Ok(()));
    // Transmitter and interrupt disabled, slot emptied.
    assert_eq!(uart.registers.txctrl, 0);
    assert_eq!(uart.registers.ie & 0x1, 0);
    assert!(uart.buffer.is_none());
}

#[test]
fn transmit_shallow_fifo_refills_on_interrupt() {
    // The FIFO reports full after the fourth byte of the initial fill.
    let mut uart = Uart::new(16_000_000);
    uart.set_transmit_client();
    uart.registers.full_script = vec![false, false, false, true];
    let data: Vec<u8> = (0u8..10).collect();
    assert_eq!(uart.transmit_buffer(data.clone(), 10), Ok(()));
    assert_eq!(uart.index, 4);
    assert_eq!(uart.registers.tx_writes, vec![0u8, 1, 2, 3]);

    // First interrupt: cursor < length, so the fill resumes; the script is
    // exhausted, so the remaining six bytes all go in.
    uart.registers.ip = 0x1;
    assert!(uart.handle_interrupt().is_none());
    assert_eq!(uart.index, 10);
    assert_eq!(uart.registers.tx_writes, data);
    assert_eq!(uart.registers.ie & 0x1, 0x1);

    // Second interrupt: cursor == length, completion exactly once.
    let done = uart.handle_interrupt().expect("completion expected");
    assert_eq!(done.buffer, data);
    assert_eq!(done.len, 10);
    assert_eq!(done.result, Ok(()));
    assert!(uart.buffer.is_none());
    assert_eq!(uart.registers.txctrl, 0);
    assert_eq!(uart.registers.ie & 0x1, 0);
    // Exactly ten bytes ever reached the FIFO.
    assert_eq!(uart.registers.tx_writes.len(), 10);

    // A further interrupt finds nothing to do and delivers nothing more.
    assert!(uart.handle_interrupt().is_none());
}

#[test]
fn cursor_is_monotonic_across_refills() {
    // Full after two bytes, then full after one more, then never again.
    let mut uart = Uart::new(16_000_000);
    uart.set_transmit_client();
    uart.registers.full_script = vec![false, true, true];
    let data: Vec<u8> = (10u8..16).collect();
    assert_eq!(uart.transmit_buffer(data.clone(), 6), Ok(()));
    assert_eq!(uart.index, 2);

    uart.registers.ip = 0x1;
    assert!(uart.handle_interrupt().is_none());
    assert_eq!(uart.index, 3);

    assert!(uart.handle_interrupt().is_none());
    assert_eq!(uart.index, 6);

    let done = uart.handle_interrupt().expect("completion expected");
    assert_eq!(done.len, 6);
    assert_eq!(uart.registers.tx_writes, data);
}

#[test]
fn interrupt_without_pending_flag_is_ignored() {
    let mut uart = Uart::new(16_000_000);
    uart.set_transmit_client();
    assert_eq!(uart.transmit_buffer(vec![5u8, 6], 2), Ok(()));
    // No pending bit raised: nothing happens, the transfer stays in flight.
    assert!(uart.handle_interrupt().is_none());
    assert!(uart.buffer.is_some());
    assert_eq!(uart.registers.ie & 0x1, 0x1);
}

#[test]
fn spurious_interrupt_without_transfer_is_ignored() {
    let mut uart = Uart::new(16_000_000);
    uart.set_transmit_client();
    uart.registers.ip = 0x1;
    // No transfer in flight: the handler disables the transmitter and the
    // interrupt but delivers nothing.
    assert!(uart.handle_interrupt().is_none());
    assert_eq!(uart.registers.txctrl, 0);
    assert_eq!(uart.registers.ie & 0x1, 0);
}

#[test]
fn completion_without_client_keeps_buffer() {
    let mut uart = Uart::new(16_000_000);
    assert_eq!(uart.transmit_buffer(vec![1u8], 1), Ok(()));
    uart.registers.ip = 0x1;
    // No client registered: the callback step is skipped and the buffer
    // stays in the slot.
    assert!(uart.handle_interrupt().is_none());
    assert!(uart.buffer.is_some());
    assert_eq!(uart.registers.txctrl, 0);
    assert_eq!(uart.registers.ie & 0x1, 0);
}

#[test]
fn transmit_partial_length() {
    // Only the first tx_len bytes of the buffer are transmitted.
    let mut uart = Uart::new(16_000_000);
    uart.set_transmit_client();
    assert_eq!(uart.transmit_buffer(vec![1u8, 2, 3, 4, 5], 3), Ok(()));
    assert_eq!(uart.registers.tx_writes, vec![1u8, 2, 3]);
    uart.registers.ip = 0x1;
    let done = uart.handle_interrupt().expect("completion expected");
    assert_eq!(done.len, 3);
    // The whole buffer rides back, untrimmed.
    assert_eq!(done.buffer, vec![1u8, 2, 3, 4, 5]);
}

#[test]
fn transmit_sync_writes_every_byte() {
    let mut uart = Uart::new(16_000_000);
    // The FIFO is full twice before the first byte fits.
    uart.registers.full_script = vec![true, true, false];
    uart.transmit_sync(&vec![1u8, 2, 3]);
    assert_eq!(uart.registers.tx_writes, vec![1u8, 2, 3]);
    // One stop bit, trigger count one, transmitter enabled.
    assert_eq!(uart.registers.txctrl, 0x0001_0001);
    // All scripted answers were consumed by the polling.
    assert!(uart.registers.full_script.is_empty());
    // The synchronous path never touches the interrupt machinery.
    assert_eq!(uart.registers.ie, 0);
}

#[test]
fn transmit_sync_empty_slice() {
    let mut uart = Uart::new(16_000_000);
    uart.transmit_sync(&Vec::new());
    assert!(uart.registers.tx_writes.is_empty());
    assert_eq!(uart.registers.txctrl, 0x0001_0001);
}

#[test]
fn receive_buffer_fails_and_returns_buffer() {
    let uart = Uart::new(16_000_000);
    match uart.receive_buffer(vec![9u8, 8, 7], 3) {
        Err((code, buffer)) => {
            assert_eq!(code, ErrorCode::FAIL);
            assert_eq!(buffer, vec![9u8, 8, 7]);
        }
        Ok(()) => panic!("receive must fail"),
    }
}

#[test]
fn unsupported_operations_fail() {
    let uart = Uart::new(16_000_000);
    assert_eq!(uart.transmit_abort(), Err(ErrorCode::FAIL));
    assert_eq!(uart.transmit_word(0x41), Err(ErrorCode::FAIL));
    assert_eq!(uart.receive_abort(), Err(ErrorCode::FAIL));
    assert_eq!(uart.receive_word(), Err(ErrorCode::FAIL));
}

#[test]
fn gpio_pins_switch_to_alternate_function() {
    let uart = Uart::new(16_000_000);
    let mut tx = GpioPin::new();
    let mut rx = GpioPin::new();
    assert_eq!(tx.function, PinFunction::Gpio);
    uart.initialize_gpio_pins(&mut tx, &mut rx);
    assert_eq!(tx.function, PinFunction::Iof0);
    assert_eq!(rx.function, PinFunction::Iof0);
}

#[test]
fn uart_params_carries_baud_rate() {
    let p = UartParams { baud_rate: 115_200 };
    let q = p;
    assert_eq!(q.baud_rate, 115_200);
}

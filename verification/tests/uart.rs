use std::collections::VecDeque;

use milkv_duo_hal::gpio::Pin;
use milkv_duo_hal::peripherals::{Peripherals, UART0, UART1, UART2, UART3};
use milkv_duo_hal::regs::{
    FieldUpdate, IoBlock, LineControl, LineStatus, MuxPad, PadControl, Reply, Request, Step,
    UartAccess, UartPort, UartStatus,
};
use milkv_duo_hal::uart::pins::{CtsPin, RtsPin, RxPin, TxPin};
use milkv_duo_hal::uart::{
    divisor, Activity, Config, Error, Phase, Uart, Uart0, CONSOLE_DIVISOR, CONTROL_TRIES,
    NON_STKP_MASK, UART_CLOCK,
};

/// A serial controller wired for loopback: what is written to the data
/// register comes back out of it.
struct Chip {
    line: LineStatus,
    control: LineControl,
    control_word: u32,
    /// How many reads of the line status report a busy transmitter first.
    busy_polls: usize,
    /// How many changes of the line control the hardware drops first.
    dropped_changes: usize,
    /// Whether the hardware drops every change that closes the divisor
    /// latch.
    stuck_latch: bool,
    /// Whether the hardware drops every change that opens the divisor
    /// latch.
    closed_latch: bool,
    /// How many writes of the line-control word the hardware drops first.
    dropped_words: usize,
    /// How many reads of the status report a full transmit FIFO first.
    full_polls: usize,
    /// How many reads of the status report a transmit FIFO in use first.
    draining_polls: usize,
    /// How many reads of the status report an empty receive FIFO first.
    empty_polls: usize,
    fifo: VecDeque<u8>,
    functions: Vec<(usize, u8)>,
    pulls: Vec<(PadControl, bool, bool)>,
    interrupt_enable: Option<u32>,
    modem: Option<(bool, bool)>,
    divisor_low: Option<u8>,
    divisor_high: Option<u8>,
    fifos_enabled: bool,
    log: Vec<Request>,
}

const QUIET: LineStatus = LineStatus {
    overrun: false,
    parity: false,
    framing: false,
    break_interrupt: false,
    thr_empty: true,
    transmitter_empty: true,
};

impl Chip {
    fn new() -> Chip {
        Chip {
            line: QUIET,
            control: LineControl {
                word_length: 0,
                stop_bits: true,
                parity_enable: true,
                divisor_latch: false,
            },
            control_word: 0,
            busy_polls: 0,
            dropped_changes: 0,
            stuck_latch: false,
            closed_latch: false,
            dropped_words: 0,
            full_polls: 0,
            draining_polls: 0,
            empty_polls: 0,
            fifo: VecDeque::new(),
            functions: Vec::new(),
            pulls: Vec::new(),
            interrupt_enable: None,
            modem: None,
            divisor_low: None,
            divisor_high: None,
            fifos_enabled: false,
            log: Vec::new(),
        }
    }

    fn perform(&mut self, request: Request) -> Reply {
        self.log.push(request);
        match request {
            Request::SelectFunction { pad, function } => {
                self.functions.push((pad.index, function));
                Reply::Written
            }
            Request::ModifyPull { control, pull_up, pull_down } => {
                let found = self.pulls.iter().position(|held| held.0 == control);
                let (up, down) = match found {
                    Some(at) => (self.pulls[at].1, self.pulls[at].2),
                    None => (true, true),
                };
                let held = (control, pull_up.apply(up), pull_down.apply(down));
                match found {
                    Some(at) => self.pulls[at] = held,
                    None => self.pulls.push(held),
                }
                Reply::Written
            }
            Request::Uart { access, .. } => self.access(access),
            other => panic!("the serial drivers do not ask for {:?}", other),
        }
    }

    fn access(&mut self, access: UartAccess) -> Reply {
        match access {
            UartAccess::ReadLineStatus => {
                if self.busy_polls > 0 {
                    self.busy_polls -= 1;
                    Reply::LineStatus(LineStatus {
                        thr_empty: false,
                        transmitter_empty: false,
                        ..self.line
                    })
                } else {
                    Reply::LineStatus(self.line)
                }
            }
            UartAccess::ReadStatus => Reply::Status(self.status()),
            UartAccess::ReadStatusWord => {
                let data_there: u32 = if self.status().rx_fifo_not_empty { 0b1000 } else { 0 };
                Reply::Word(data_there | 0b0110)
            }
            UartAccess::ReadLineControl => Reply::LineControl(self.control),
            UartAccess::ReadLineControlWord => Reply::Word(self.control_word),
            UartAccess::ReadData => Reply::Word(0xABCD_EF00 | self.fifo.pop_front().unwrap() as u32),
            UartAccess::ReadReceiveBuffer => Reply::Word(0),
            UartAccess::WriteInterruptEnable { bits } => {
                self.interrupt_enable = Some(bits);
                Reply::Written
            }
            UartAccess::WriteModemControl { dtr, rts } => {
                self.modem = Some((dtr, rts));
                Reply::Written
            }
            UartAccess::WriteFifoControl { enable, reset_rx, reset_tx } => {
                self.fifos_enabled = enable;
                if reset_rx || reset_tx {
                    self.fifo.clear();
                }
                Reply::Written
            }
            UartAccess::ModifyLineControl {
                word_length,
                stop_bits,
                parity_enable,
                divisor_latch,
            } => {
                let stuck = (self.stuck_latch && divisor_latch == FieldUpdate::ClearBit)
                    || (self.closed_latch && divisor_latch == FieldUpdate::SetBit);
                if self.dropped_changes > 0 {
                    self.dropped_changes -= 1;
                } else if !stuck {
                    self.control = LineControl {
                        word_length: word_length.unwrap_or(self.control.word_length),
                        stop_bits: stop_bits.apply(self.control.stop_bits),
                        parity_enable: parity_enable.apply(self.control.parity_enable),
                        divisor_latch: divisor_latch.apply(self.control.divisor_latch),
                    };
                }
                Reply::Written
            }
            UartAccess::WriteLineControlWord { bits } => {
                if self.dropped_words > 0 {
                    self.dropped_words -= 1;
                } else {
                    self.control_word = bits;
                }
                Reply::Written
            }
            UartAccess::WriteDivisorLow { byte } => {
                // with the latch closed the data register stands at this place
                if self.control.divisor_latch {
                    self.divisor_low = Some(byte);
                } else {
                    self.fifo.push_back(byte);
                }
                Reply::Written
            }
            UartAccess::WriteDivisorHigh { byte } => {
                // with the latch closed the interrupt-enable register stands here
                if self.control.divisor_latch {
                    self.divisor_high = Some(byte);
                } else {
                    self.interrupt_enable = Some(byte as u32);
                }
                Reply::Written
            }
            UartAccess::WriteData { byte } => {
                self.fifo.push_back(byte);
                Reply::Written
            }
        }
    }

    fn status(&mut self) -> UartStatus {
        let mut status = UartStatus {
            tx_fifo_not_full: true,
            tx_fifo_empty: true,
            rx_fifo_not_empty: !self.fifo.is_empty(),
        };
        if self.full_polls > 0 {
            self.full_polls -= 1;
            status.tx_fifo_not_full = false;
            status.tx_fifo_empty = false;
        }
        if self.draining_polls > 0 {
            self.draining_polls -= 1;
            status.tx_fifo_empty = false;
        }
        if self.empty_polls > 0 {
            self.empty_polls -= 1;
            status.rx_fifo_not_empty = false;
        }
        status
    }

    fn uart_log(&self) -> Vec<UartAccess> {
        self.log
            .iter()
            .filter_map(|request| match request {
                Request::Uart { access, .. } => Some(*access),
                _ => None,
            })
            .collect()
    }

    fn bytes_written(&self) -> Vec<u8> {
        self.uart_log()
            .iter()
            .filter_map(|access| match access {
                UartAccess::WriteData { byte } => Some(*byte),
                _ => None,
            })
            .collect()
    }
}

/// Runs an operation to its end: performs each access it asks for and calls
/// it again with the reply.
fn run<T>(chip: &mut Chip, mut operation: impl FnMut(Reply) -> Step<T>) -> T {
    let mut reply = Reply::Start;
    for _ in 0..100_000 {
        match operation(reply) {
            Step::Done(result) => return result,
            Step::Request(request) => reply = chip.perform(request),
        }
    }
    panic!("the operation did not end");
}

fn session_on_uart0(baudrate: u32) -> Uart<UART0> {
    let p = Peripherals::steal();
    Uart::new(p.UART0, p.PIN_12, p.PIN_13, Config { baudrate })
}

fn open_session(chip: &mut Chip) -> Uart<UART0> {
    let mut uart = session_on_uart0(115200);
    run(chip, |reply| uart.open(reply));
    assert!(uart.is_open());
    chip.log.clear();
    uart
}

fn on_uart0(access: UartAccess) -> Request {
    Request::Uart { port: UartPort::Uart0, access }
}

const SET_FORMAT: UartAccess = UartAccess::ModifyLineControl {
    word_length: Some(3),
    stop_bits: FieldUpdate::ClearBit,
    parity_enable: FieldUpdate::ClearBit,
    divisor_latch: FieldUpdate::Keep,
};

const ENTER_LATCH: UartAccess = UartAccess::ModifyLineControl {
    word_length: None,
    stop_bits: FieldUpdate::Keep,
    parity_enable: FieldUpdate::Keep,
    divisor_latch: FieldUpdate::SetBit,
};

const LEAVE_LATCH: UartAccess = UartAccess::ModifyLineControl {
    word_length: None,
    stop_bits: FieldUpdate::Keep,
    parity_enable: FieldUpdate::Keep,
    divisor_latch: FieldUpdate::ClearBit,
};

const RESET_FIFOS: UartAccess =
    UartAccess::WriteFifoControl { enable: true, reset_rx: true, reset_tx: true };

#[test]
fn divisor_for_115200_is_rounded_to_nearest() {
    let clock: u32 = 25_000_000;
    let baud: u32 = 115200;
    assert_eq!(UART_CLOCK, clock);
    let found = divisor(baud);
    assert_eq!(found, (clock + baud * 8) / (baud * 16));
    assert_eq!(found, 14);
    assert_eq!(clock / (16 * baud), 13);
    assert_ne!(found, clock / (16 * baud));
    // the rate that the divisor gives misses the wanted one by at most one
    // part in twice the divisor
    let realised = clock as f64 / (16.0 * found as f64);
    let miss = (realised - baud as f64).abs();
    assert!(miss <= baud as f64 / (2.0 * found as f64));
    assert!(miss / (baud as f64) < 0.032);
}

#[test]
fn divisor_of_other_rates() {
    assert_eq!(divisor(9600), 163);
    assert_eq!(divisor(19200), 81);
    assert_eq!(divisor(57600), 27);
    assert_eq!(divisor(230400), 7);
    assert_eq!(divisor(921600), 2);
    assert_eq!(divisor(1_562_500), 1);
    assert_eq!(divisor(1), 1_562_500);
    // exactly half way is rounded up
    assert_eq!(divisor(3_125_000), 1);
    assert_eq!(divisor(3_125_001), 0);
    assert_eq!(divisor(u32::MAX), 0);
}

#[test]
fn divisor_is_nearest_for_many_rates() {
    for baud in (1u64..2_000_000).step_by(997) {
        let found = divisor(baud as u32) as u64;
        let clock = UART_CLOCK as u64;
        assert!(16 * baud * found <= clock + 8 * baud);
        assert!(clock < 16 * baud * found + 8 * baud);
    }
}

#[test]
fn default_rate_is_115200() {
    assert_eq!(Config::default().baudrate, 115200);
}

#[test]
fn console_divisor_is_that_of_115200() {
    assert_eq!(CONSOLE_DIVISOR, divisor(115200));
}

#[test]
fn new_session_is_not_open() {
    let uart = session_on_uart0(115200);
    assert!(!uart.is_open());
    let state = uart.state();
    assert_eq!(state.port, UartPort::Uart0);
    assert_eq!(state.phase, Phase::TxFunction);
    assert_eq!(state.activity, Activity::Idle);
    assert_eq!(state.opening_tries, CONTROL_TRIES);
    assert!(!state.gave_up);
    assert_eq!(state.divisor, 14);
    assert_eq!(state.tx.mux, MuxPad { index: 0x40 / 4 });
    assert_eq!(state.tx.function, 0);
    assert_eq!(state.tx.control, PadControl { block: IoBlock::G7, pin: 0x0C / 4 });
    assert_eq!(state.rx.mux, MuxPad { index: 0x44 / 4 });
    assert_eq!(state.rx.function, 0);
    assert_eq!(state.rx.control, PadControl { block: IoBlock::G7, pin: 0x10 / 4 });
}

#[test]
fn opening_follows_the_protocol_in_order() {
    let mut chip = Chip::new();
    let mut uart = session_on_uart0(115200);
    run(&mut chip, |reply| uart.open(reply));
    assert!(uart.is_open());
    let pull_down = |pin: usize| Request::ModifyPull {
        control: PadControl { block: IoBlock::G7, pin },
        pull_up: FieldUpdate::ClearBit,
        pull_down: FieldUpdate::SetBit,
    };
    assert_eq!(
        chip.log,
        vec![
            Request::SelectFunction { pad: MuxPad { index: 16 }, function: 0 },
            Request::SelectFunction { pad: MuxPad { index: 17 }, function: 0 },
            pull_down(3),
            pull_down(4),
            on_uart0(UartAccess::ReadLineStatus),
            on_uart0(UartAccess::WriteInterruptEnable { bits: 0 }),
            on_uart0(UartAccess::WriteModemControl { dtr: true, rts: true }),
            on_uart0(RESET_FIFOS),
            on_uart0(SET_FORMAT),
            on_uart0(UartAccess::ReadLineControl),
            on_uart0(UartAccess::ReadLineControl),
            on_uart0(ENTER_LATCH),
            on_uart0(UartAccess::ReadLineControl),
            on_uart0(UartAccess::WriteDivisorLow { byte: 14 }),
            on_uart0(UartAccess::WriteDivisorHigh { byte: 0 }),
            on_uart0(UartAccess::WriteFifoControl {
                enable: true,
                reset_rx: false,
                reset_tx: false
            }),
            on_uart0(LEAVE_LATCH),
            on_uart0(UartAccess::ReadLineControl),
        ]
    );
    assert_eq!(chip.interrupt_enable, Some(0));
    assert_eq!(chip.modem, Some((true, true)));
    assert!(chip.fifos_enabled);
    assert_eq!(
        chip.control,
        LineControl { word_length: 3, stop_bits: false, parity_enable: false, divisor_latch: false }
    );
    assert_eq!((chip.divisor_low, chip.divisor_high), (Some(14), Some(0)));
    assert_eq!(chip.functions, vec![(16, 0), (17, 0)]);
    assert_eq!(
        chip.pulls,
        vec![
            (PadControl { block: IoBlock::G7, pin: 3 }, false, true),
            (PadControl { block: IoBlock::G7, pin: 4 }, false, true),
        ]
    );
}

#[test]
fn opening_waits_for_the_transmitter() {
    let mut chip = Chip::new();
    chip.busy_polls = 3;
    let mut uart = session_on_uart0(115200);
    run(&mut chip, |reply| uart.open(reply));
    let log = chip.uart_log();
    assert_eq!(&log[..4], &[UartAccess::ReadLineStatus; 4]);
    assert_eq!(log[4], UartAccess::WriteInterruptEnable { bits: 0 });
    assert_eq!(log.iter().filter(|a| **a == UartAccess::ReadLineStatus).count(), 4);
}

#[test]
fn opening_writes_again_what_was_dropped() {
    let mut chip = Chip::new();
    chip.dropped_changes = 2;
    let mut uart = session_on_uart0(115200);
    run(&mut chip, |reply| uart.open(reply));
    assert!(uart.is_open());
    let log = chip.uart_log();
    assert_eq!(log.iter().filter(|a| **a == SET_FORMAT).count(), 3);
    assert_eq!(log.iter().filter(|a| **a == ENTER_LATCH).count(), 1);
    assert!(!uart.state().gave_up);
    assert_eq!(
        chip.control,
        LineControl { word_length: 3, stop_bits: false, parity_enable: false, divisor_latch: false }
    );
}

#[test]
fn opening_checks_stop_bits_then_parity() {
    let mut uart = session_on_uart0(115200);
    let mut reply = Reply::Start;
    let mut step = uart.open(reply);
    while step != Step::Request(on_uart0(SET_FORMAT)) {
        reply = match step {
            Step::Request(Request::Uart { access: UartAccess::ReadLineStatus, .. }) => {
                Reply::LineStatus(QUIET)
            }
            Step::Request(_) => Reply::Written,
            Step::Done(()) => panic!("opened too early"),
        };
        step = uart.open(reply);
    }
    assert_eq!(uart.state().phase, Phase::SetFormat);
    assert_eq!(uart.open(Reply::Written), Step::Request(on_uart0(UartAccess::ReadLineControl)));
    assert_eq!(uart.state().phase, Phase::VerifyStop);
    let read_back = |stop_bits: bool, parity_enable: bool| {
        Reply::LineControl(LineControl {
            word_length: 3,
            stop_bits,
            parity_enable,
            divisor_latch: false,
        })
    };
    // the stop-bit selection was not taken: written again
    assert_eq!(uart.open(read_back(true, false)), Step::Request(on_uart0(SET_FORMAT)));
    assert_eq!(uart.open(Reply::Written), Step::Request(on_uart0(UartAccess::ReadLineControl)));
    // taken: the parity is looked at in a second read
    assert_eq!(
        uart.open(read_back(false, true)),
        Step::Request(on_uart0(UartAccess::ReadLineControl))
    );
    assert_eq!(uart.state().phase, Phase::VerifyParity);
    assert_eq!(uart.open(read_back(false, true)), Step::Request(on_uart0(SET_FORMAT)));
    assert_eq!(uart.open(Reply::Written), Step::Request(on_uart0(UartAccess::ReadLineControl)));
    assert_eq!(
        uart.open(read_back(false, false)),
        Step::Request(on_uart0(UartAccess::ReadLineControl))
    );
    assert_eq!(uart.open(read_back(false, false)), Step::Request(on_uart0(ENTER_LATCH)));
    assert_eq!(uart.state().phase, Phase::EnterLatch);
}

#[test]
fn opening_repeats_a_request_that_was_not_answered() {
    let mut uart = session_on_uart0(115200);
    let first = Step::Request(Request::SelectFunction { pad: MuxPad { index: 16 }, function: 0 });
    assert_eq!(uart.open(Reply::Start), first);
    assert_eq!(uart.open(Reply::Start), first);
    assert_eq!(uart.open(Reply::Word(5)), first);
    assert_eq!(uart.open(Reply::LineStatus(QUIET)), first);
    assert_eq!(uart.state().phase, Phase::TxFunction);
    assert_eq!(
        uart.open(Reply::Written),
        Step::Request(Request::SelectFunction { pad: MuxPad { index: 17 }, function: 0 })
    );
}

#[test]
fn open_session_stays_open() {
    let mut chip = Chip::new();
    let mut uart = open_session(&mut chip);
    assert_eq!(uart.open(Reply::Start), Step::Done(()));
    assert_eq!(uart.open(Reply::Written), Step::Done(()));
    assert_eq!(uart.open(Reply::LineStatus(QUIET)), Step::Done(()));
    assert!(uart.is_open());
    assert!(chip.log.is_empty());
}

#[test]
fn divisor_bytes_of_a_slow_rate() {
    let mut chip = Chip::new();
    let mut uart = session_on_uart0(300);
    assert_eq!(uart.state().divisor, 5208);
    run(&mut chip, |reply| uart.open(reply));
    assert_eq!(chip.divisor_low, Some((5208 & 0xff) as u8));
    assert_eq!(chip.divisor_high, Some((5208 >> 8) as u8));
}

#[test]
fn session_on_another_controller_uses_its_pins_and_functions() {
    let p = Peripherals::steal();
    let mut uart: Uart<UART1> = Uart::new(p.UART1, p.PIN_2, p.PIN_3, Config::default());
    assert_eq!(uart.state().port, UartPort::Uart1);
    assert_eq!(
        uart.open(Reply::Start),
        Step::Request(Request::SelectFunction { pad: MuxPad { index: 0x64 / 4 }, function: 6 })
    );
    assert_eq!(
        uart.open(Reply::Written),
        Step::Request(Request::SelectFunction { pad: MuxPad { index: 0x68 / 4 }, function: 6 })
    );
    assert_eq!(
        uart.open(Reply::Written),
        Step::Request(Request::ModifyPull {
            control: PadControl { block: IoBlock::G7, pin: 0x30 / 4 },
            pull_up: FieldUpdate::ClearBit,
            pull_down: FieldUpdate::SetBit,
        })
    );
    assert_eq!(
        uart.open(Reply::Written),
        Step::Request(Request::ModifyPull {
            control: PadControl { block: IoBlock::G7, pin: 0x34 / 4 },
            pull_up: FieldUpdate::ClearBit,
            pull_down: FieldUpdate::SetBit,
        })
    );
    assert_eq!(
        uart.open(Reply::Written),
        Step::Request(Request::Uart { port: UartPort::Uart1, access: UartAccess::ReadLineStatus })
    );
}

#[test]
fn session_on_controller_3_uses_the_power_domain_pads() {
    let p = Peripherals::steal();
    let mut uart: Uart<UART3> = Uart::new(p.UART3, p.PIN_4, p.PIN_5, Config::default());
    assert_eq!(uart.state().port, UartPort::Uart3);
    assert_eq!(uart.state().tx.control, PadControl { block: IoBlock::Rtc, pin: 0x5C / 4 });
    assert_eq!(uart.state().rx.control, PadControl { block: IoBlock::Rtc, pin: 0x60 / 4 });
    assert_eq!(
        uart.open(Reply::Start),
        Step::Request(Request::SelectFunction { pad: MuxPad { index: 0xD4 / 4 }, function: 5 })
    );
}

#[test]
fn pins_carry_the_functions_of_their_signals() {
    let p = Peripherals::steal();
    assert_eq!(TxPin::<UART0>::af_num(&p.PIN_12), 0);
    assert_eq!(RxPin::<UART0>::af_num(&p.PIN_13), 0);
    assert_eq!(TxPin::<UART1>::af_num(&p.PIN_12), 4);
    assert_eq!(RxPin::<UART1>::af_num(&p.PIN_13), 4);
    assert_eq!(RtsPin::<UART1>::af_num(&p.PIN_2), 4);
    assert_eq!(CtsPin::<UART1>::af_num(&p.PIN_3), 4);
    assert_eq!(TxPin::<UART1>::af_num(&p.PIN_2), 6);
    assert_eq!(RxPin::<UART1>::af_num(&p.PIN_3), 6);
    assert_eq!(TxPin::<UART1>::af_num(&p.PIN_0), 1);
    assert_eq!(TxPin::<UART2>::af_num(&p.PIN_0), 2);
    assert_eq!(RxPin::<UART1>::af_num(&p.PIN_1), 1);
    assert_eq!(RxPin::<UART2>::af_num(&p.PIN_1), 2);
    assert_eq!(TxPin::<UART2>::af_num(&p.PIN_4), 2);
    assert_eq!(TxPin::<UART3>::af_num(&p.PIN_4), 5);
    assert_eq!(RxPin::<UART2>::af_num(&p.PIN_5), 2);
    assert_eq!(RxPin::<UART3>::af_num(&p.PIN_5), 5);
    assert_eq!(RtsPin::<UART3>::af_num(&p.PIN_8), 5);
    assert_eq!(p.PIN_8.bank(), 4);
    let _ = UART2::steal();
}

#[test]
fn loopback_carries_two_bytes() {
    let mut chip = Chip::new();
    let mut uart = session_on_uart0(115200);
    run(&mut chip, |reply| uart.open(reply));
    assert!(uart.is_open());

    let sent = [0x48u8, 0x69];
    assert_eq!(run(&mut chip, |reply| uart.blocking_write(&sent, reply)), Ok(()));
    assert_eq!(run(&mut chip, |reply| uart.blocking_flush(reply)), Ok(()));
    let mut received = [0u8; 2];
    assert_eq!(run(&mut chip, |reply| uart.blocking_read(&mut received, reply)), Ok(()));
    assert_eq!(received, [0x48, 0x69]);
    assert!(chip.fifo.is_empty());
}

#[test]
fn write_checks_the_line_then_waits_then_writes_each_byte() {
    let mut chip = Chip::new();
    let mut uart = open_session(&mut chip);
    assert_eq!(run(&mut chip, |reply| uart.blocking_write(b"Hi", reply)), Ok(()));
    assert_eq!(
        chip.uart_log(),
        vec![
            UartAccess::ReadLineStatus,
            UartAccess::ReadStatus,
            UartAccess::WriteData { byte: 0x48 },
            UartAccess::ReadLineStatus,
            UartAccess::ReadStatus,
            UartAccess::WriteData { byte: 0x69 },
        ]
    );
    assert_eq!(uart.state().cursor, 2);
    assert_eq!(uart.state().activity, Activity::Idle);
}

#[test]
fn framing_error_ends_the_write_before_the_byte() {
    let mut chip = Chip::new();
    let mut uart = open_session(&mut chip);
    chip.line.framing = true;
    assert_eq!(run(&mut chip, |reply| uart.blocking_write(&[0x55], reply)), Err(Error::Framing));
    assert!(chip.fifo.is_empty());
    assert_eq!(chip.bytes_written(), Vec::<u8>::new());
    assert_eq!(chip.uart_log(), vec![UartAccess::ReadLineStatus]);
    assert_eq!(uart.state().cursor, 0);
    assert_eq!(uart.state().activity, Activity::Idle);
}

#[test]
fn each_line_error_is_reported() {
    let cases = [
        (LineStatus { overrun: true, ..QUIET }, Error::Overrun),
        (LineStatus { parity: true, ..QUIET }, Error::Parity),
        (LineStatus { framing: true, ..QUIET }, Error::Framing),
        (LineStatus { break_interrupt: true, ..QUIET }, Error::Framing),
    ];
    for (line, error) in cases {
        let mut chip = Chip::new();
        let mut uart = open_session(&mut chip);
        chip.line = line;
        assert_eq!(run(&mut chip, |reply| uart.blocking_write(&[1, 2, 3], reply)), Err(error));
        assert!(chip.fifo.is_empty());
        assert_eq!(uart.check_error(line), Err(error));
    }
}

#[test]
fn of_several_line_errors_the_first_in_rank_is_reported() {
    let chip = &mut Chip::new();
    let uart = open_session(chip);
    let all = LineStatus {
        overrun: true,
        parity: true,
        framing: true,
        break_interrupt: true,
        thr_empty: false,
        transmitter_empty: false,
    };
    assert_eq!(uart.check_error(all), Err(Error::Framing));
    assert_eq!(uart.check_error(LineStatus { break_interrupt: false, ..all }), Err(Error::Framing));
    assert_eq!(
        uart.check_error(LineStatus { break_interrupt: false, framing: false, ..all }),
        Err(Error::Parity)
    );
    assert_eq!(
        uart.check_error(LineStatus {
            break_interrupt: false,
            framing: false,
            parity: false,
            ..all
        }),
        Err(Error::Overrun)
    );
    assert_eq!(uart.check_error(QUIET), Ok(()));
    assert_eq!(
        uart.check_error(LineStatus { thr_empty: false, transmitter_empty: false, ..QUIET }),
        Ok(())
    );
}

#[test]
fn error_after_the_first_byte_keeps_the_first_byte() {
    let mut chip = Chip::new();
    let mut uart = open_session(&mut chip);
    let data = [0x10u8, 0x20, 0x30];
    let mut reply = Reply::Start;
    let result = loop {
        match uart.blocking_write(&data, reply) {
            Step::Done(result) => break result,
            Step::Request(request) => {
                reply = chip.perform(request);
                if chip.fifo.len() == 1 {
                    chip.line.parity = true;
                }
            }
        }
    };
    assert_eq!(result, Err(Error::Parity));
    assert_eq!(chip.bytes_written(), vec![0x10]);
    assert_eq!(uart.state().cursor, 1);
}

#[test]
fn write_waits_for_room_in_the_fifo() {
    let mut chip = Chip::new();
    let mut uart = open_session(&mut chip);
    chip.full_polls = 5;
    assert_eq!(run(&mut chip, |reply| uart.blocking_write(&[7], reply)), Ok(()));
    let log = chip.uart_log();
    assert_eq!(log.len(), 8);
    assert_eq!(log[0], UartAccess::ReadLineStatus);
    assert_eq!(&log[1..7], &[UartAccess::ReadStatus; 6]);
    assert_eq!(log[7], UartAccess::WriteData { byte: 7 });
}

#[test]
fn write_of_nothing_asks_for_nothing() {
    let mut chip = Chip::new();
    let mut uart = open_session(&mut chip);
    chip.line.framing = true;
    assert_eq!(uart.blocking_write(&[], Reply::Start), Step::Done(Ok(())));
    assert_eq!(uart.write(&[], Reply::Start), Step::Done(Ok(0)));
    let mut nothing: [u8; 0] = [];
    assert_eq!(uart.blocking_read(&mut nothing, Reply::Start), Step::Done(Ok(())));
    assert!(chip.log.is_empty());
}

#[test]
fn write_tells_how_many_bytes_it_wrote() {
    let mut chip = Chip::new();
    let mut uart = open_session(&mut chip);
    assert_eq!(run(&mut chip, |reply| uart.write(b"hello", reply)), Ok(5));
    assert_eq!(chip.bytes_written(), b"hello".to_vec());
    chip.line.overrun = true;
    assert_eq!(run(&mut chip, |reply| uart.write(b"x", reply)), Err(Error::Overrun));
}

#[test]
fn start_begins_a_write_anew() {
    let mut chip = Chip::new();
    let mut uart = open_session(&mut chip);
    let data = [1u8, 2];
    assert_eq!(
        uart.blocking_write(&data, Reply::Start),
        Step::Request(on_uart0(UartAccess::ReadLineStatus))
    );
    assert_eq!(
        uart.blocking_write(&data, Reply::LineStatus(QUIET)),
        Step::Request(on_uart0(UartAccess::ReadStatus))
    );
    assert_eq!(uart.state().activity, Activity::AwaitSpace);
    // left alone and begun again
    assert_eq!(
        uart.blocking_write(&data, Reply::Start),
        Step::Request(on_uart0(UartAccess::ReadLineStatus))
    );
    assert_eq!(uart.state().activity, Activity::CheckLine);
    assert_eq!(uart.state().cursor, 0);
}

#[test]
fn write_repeats_a_request_that_was_not_answered() {
    let mut chip = Chip::new();
    let mut uart = open_session(&mut chip);
    let data = [9u8];
    let room = UartStatus { tx_fifo_not_full: true, tx_fifo_empty: true, rx_fifo_not_empty: false };
    let ask_line = Step::Request(on_uart0(UartAccess::ReadLineStatus));
    let ask_status = Step::Request(on_uart0(UartAccess::ReadStatus));
    let ask_write = Step::Request(on_uart0(UartAccess::WriteData { byte: 9 }));
    assert_eq!(uart.blocking_write(&data, Reply::Start), ask_line);
    assert_eq!(uart.blocking_write(&data, Reply::Written), ask_line);
    assert_eq!(uart.blocking_write(&data, Reply::Status(room)), ask_line);
    assert_eq!(uart.blocking_write(&data, Reply::LineStatus(QUIET)), ask_status);
    assert_eq!(uart.blocking_write(&data, Reply::LineStatus(QUIET)), ask_status);
    assert_eq!(uart.blocking_write(&data, Reply::Written), ask_status);
    assert_eq!(uart.blocking_write(&data, Reply::Status(room)), ask_write);
    assert_eq!(uart.blocking_write(&data, Reply::Status(room)), ask_write);
    assert_eq!(uart.blocking_write(&data, Reply::Word(0)), ask_write);
    assert_eq!(uart.state().cursor, 0);
    assert_eq!(uart.blocking_write(&data, Reply::Written), Step::Done(Ok(())));
    assert_eq!(uart.state().cursor, 1);
}

#[test]
fn flush_waits_for_the_fifo_to_empty() {
    let mut chip = Chip::new();
    let mut uart = open_session(&mut chip);
    chip.draining_polls = 4;
    assert_eq!(run(&mut chip, |reply| uart.blocking_flush(reply)), Ok(()));
    assert_eq!(chip.uart_log(), vec![UartAccess::ReadStatus; 5]);
    chip.log.clear();
    assert_eq!(run(&mut chip, |reply| uart.flush(reply)), Ok(()));
    assert_eq!(chip.uart_log(), vec![UartAccess::ReadStatus]);
}

#[test]
fn flush_does_not_look_at_line_errors() {
    let mut chip = Chip::new();
    let mut uart = open_session(&mut chip);
    chip.line.framing = true;
    assert_eq!(run(&mut chip, |reply| uart.blocking_flush(reply)), Ok(()));
}

#[test]
fn read_waits_for_each_byte() {
    let mut chip = Chip::new();
    let mut uart = open_session(&mut chip);
    chip.fifo.extend([0xAAu8, 0xBB, 0xCC]);
    chip.empty_polls = 2;
    let mut buf = [0u8; 3];
    assert_eq!(run(&mut chip, |reply| uart.blocking_read(&mut buf, reply)), Ok(()));
    assert_eq!(buf, [0xAA, 0xBB, 0xCC]);
    assert_eq!(
        chip.uart_log(),
        vec![
            UartAccess::ReadStatus,
            UartAccess::ReadStatus,
            UartAccess::ReadStatus,
            UartAccess::ReadData,
            UartAccess::ReadStatus,
            UartAccess::ReadData,
            UartAccess::ReadStatus,
            UartAccess::ReadData,
        ]
    );
    assert_eq!(uart.state().cursor, 3);
}

#[test]
fn read_does_not_look_at_line_errors() {
    let mut chip = Chip::new();
    let mut uart = open_session(&mut chip);
    chip.line.parity = true;
    chip.fifo.push_back(0x42);
    let mut buf = [0u8; 1];
    assert_eq!(run(&mut chip, |reply| uart.blocking_read(&mut buf, reply)), Ok(()));
    assert_eq!(buf, [0x42]);
    assert!(!chip.uart_log().contains(&UartAccess::ReadLineStatus));
}

#[test]
fn read_stores_the_low_byte_and_nothing_else() {
    let mut chip = Chip::new();
    let mut uart = open_session(&mut chip);
    let data_there =
        UartStatus { tx_fifo_not_full: true, tx_fifo_empty: true, rx_fifo_not_empty: true };
    let mut buf = [0xEEu8; 3];
    assert_eq!(
        uart.blocking_read(&mut buf, Reply::Start),
        Step::Request(on_uart0(UartAccess::ReadStatus))
    );
    assert_eq!(
        uart.blocking_read(&mut buf, Reply::Word(0x11)),
        Step::Request(on_uart0(UartAccess::ReadStatus))
    );
    assert_eq!(buf, [0xEE; 3]);
    assert_eq!(
        uart.blocking_read(&mut buf, Reply::Status(data_there)),
        Step::Request(on_uart0(UartAccess::ReadData))
    );
    assert_eq!(
        uart.blocking_read(&mut buf, Reply::Status(data_there)),
        Step::Request(on_uart0(UartAccess::ReadData))
    );
    assert_eq!(buf, [0xEE; 3]);
    assert_eq!(
        uart.blocking_read(&mut buf, Reply::Word(0x1234_5678)),
        Step::Request(on_uart0(UartAccess::ReadStatus))
    );
    assert_eq!(buf, [0x78, 0xEE, 0xEE]);
    assert_eq!(uart.state().cursor, 1);
}

#[test]
fn line_control_is_set_in_one_try_where_it_reads_back() {
    let mut chip = Chip::new();
    let mut uart = open_session(&mut chip);
    run(&mut chip, |reply| uart.write_lcr(0x1B, reply));
    assert_eq!(
        chip.uart_log(),
        vec![UartAccess::WriteLineControlWord { bits: 0x1B }, UartAccess::ReadLineControlWord]
    );
    assert_eq!(chip.control_word, 0x1B);
    assert_eq!(uart.state().activity, Activity::Idle);
}

#[test]
fn line_control_is_written_again_after_a_reset_of_the_fifos() {
    let mut chip = Chip::new();
    let mut uart = open_session(&mut chip);
    chip.control_word = 0x80;
    chip.dropped_words = 2;
    run(&mut chip, |reply| uart.write_lcr(0x03, reply));
    let round = [
        UartAccess::WriteLineControlWord { bits: 0x03 },
        UartAccess::ReadLineControlWord,
        RESET_FIFOS,
        UartAccess::ReadReceiveBuffer,
    ];
    let mut wanted = Vec::new();
    wanted.extend(round);
    wanted.extend(round);
    wanted.extend([UartAccess::WriteLineControlWord { bits: 0x03 }, UartAccess::ReadLineControlWord]);
    assert_eq!(chip.uart_log(), wanted);
    assert_eq!(chip.control_word, 0x03);
    assert_eq!(uart.state().tries, CONTROL_TRIES - 2);
}

#[test]
fn line_control_gives_up_after_its_tries() {
    let mut chip = Chip::new();
    let mut uart = open_session(&mut chip);
    chip.control_word = 0x80;
    chip.dropped_words = usize::MAX;
    run(&mut chip, |reply| uart.write_lcr(0x03, reply));
    let log = chip.uart_log();
    assert_eq!(CONTROL_TRIES, 1000);
    assert_eq!(log.len(), 4000);
    assert_eq!(
        log.iter().filter(|a| **a == UartAccess::WriteLineControlWord { bits: 0x03 }).count(),
        1000
    );
    assert_eq!(log[3999], UartAccess::ReadReceiveBuffer);
    assert_eq!(uart.state().tries, 0);
    assert_eq!(uart.state().activity, Activity::Idle);
}

#[test]
fn stick_parity_bit_is_left_aside_when_the_line_control_is_read_back() {
    assert_eq!(NON_STKP_MASK, !(1u32 << 5));
    let mut chip = Chip::new();
    let mut uart = open_session(&mut chip);
    assert_eq!(
        uart.write_lcr(0x03, Reply::Start),
        Step::Request(on_uart0(UartAccess::WriteLineControlWord { bits: 0x03 }))
    );
    assert_eq!(
        uart.write_lcr(0x03, Reply::Written),
        Step::Request(on_uart0(UartAccess::ReadLineControlWord))
    );
    assert_eq!(uart.write_lcr(0x03, Reply::Word(0x23)), Step::Done(()));

    uart.write_lcr(0x03, Reply::Start);
    uart.write_lcr(0x03, Reply::Written);
    assert_eq!(uart.write_lcr(0x03, Reply::Word(0x13)), Step::Request(on_uart0(RESET_FIFOS)));
    chip.log.clear();
}

#[test]
fn console_setup_is_nine_requests_in_order() {
    let pull_down = |pin: usize| Request::ModifyPull {
        control: PadControl { block: IoBlock::G7, pin },
        pull_up: FieldUpdate::Keep,
        pull_down: FieldUpdate::SetBit,
    };
    assert_eq!(
        Uart0::init().to_vec(),
        vec![
            Request::SelectFunction { pad: MuxPad { index: 0x40 / 4 }, function: 0 },
            Request::SelectFunction { pad: MuxPad { index: 0x44 / 4 }, function: 0 },
            pull_down(0x0c / 4),
            pull_down(0x10 / 4),
            on_uart0(ENTER_LATCH),
            on_uart0(UartAccess::WriteDivisorLow { byte: 14 }),
            on_uart0(UartAccess::WriteDivisorHigh { byte: 0 }),
            on_uart0(LEAVE_LATCH),
            on_uart0(SET_FORMAT),
        ]
    );
}

#[test]
fn console_setup_leaves_the_line_at_8n1() {
    let mut chip = Chip::new();
    for request in Uart0::init() {
        assert_eq!(chip.perform(request), Reply::Written);
    }
    assert_eq!(
        chip.control,
        LineControl { word_length: 3, stop_bits: false, parity_enable: false, divisor_latch: false }
    );
    assert_eq!((chip.divisor_low, chip.divisor_high), (Some(14), Some(0)));
    assert_eq!(chip.functions, vec![(16, 0), (17, 0)]);
    // the pull-up bits are left as they were found
    assert_eq!(
        chip.pulls,
        vec![
            (PadControl { block: IoBlock::G7, pin: 3 }, true, true),
            (PadControl { block: IoBlock::G7, pin: 4 }, true, true),
        ]
    );
}

#[test]
fn console_waits_for_the_holding_register_then_writes() {
    let mut chip = Chip::new();
    chip.busy_polls = 2;
    let mut console = Uart0::new();
    run(&mut chip, |reply| console.write_byte(b'!', reply));
    assert_eq!(
        chip.uart_log(),
        vec![
            UartAccess::ReadLineStatus,
            UartAccess::ReadLineStatus,
            UartAccess::ReadLineStatus,
            UartAccess::WriteData { byte: b'!' },
        ]
    );
    assert_eq!(chip.fifo, VecDeque::from(vec![b'!']));
}

#[test]
fn console_byte_goes_out_whatever_errors_the_line_shows() {
    let mut console = Uart0::new();
    let noisy = LineStatus { framing: true, parity: true, overrun: true, ..QUIET };
    assert_eq!(
        console.write_byte(1, Reply::LineStatus(noisy)),
        Step::Request(on_uart0(UartAccess::WriteData { byte: 1 }))
    );
    assert_eq!(console.write_byte(1, Reply::Written), Step::Done(()));
    assert_eq!(
        console.write_byte(1, Reply::LineStatus(LineStatus { thr_empty: false, ..QUIET })),
        Step::Request(on_uart0(UartAccess::ReadLineStatus))
    );
}

#[test]
fn console_flush_waits_for_the_holding_register() {
    let mut chip = Chip::new();
    chip.busy_polls = 3;
    let mut console = Uart0::new();
    run(&mut chip, |reply| console.flush(reply));
    assert_eq!(chip.uart_log(), vec![UartAccess::ReadLineStatus; 4]);
    assert_eq!(console.flush(Reply::LineStatus(QUIET)), Step::Done(()));
    assert_eq!(
        console.flush(Reply::Written),
        Step::Request(on_uart0(UartAccess::ReadLineStatus))
    );
}

#[test]
fn console_reads_until_the_delimiter() {
    let mut chip = Chip::new();
    chip.fifo.extend(b"ok\nrest".iter().copied());
    chip.empty_polls = 1;
    let mut console = Uart0::new();
    let mut buf = [0u8; 16];
    assert_eq!(run(&mut chip, |reply| console.read_until(&mut buf, b'\n', reply)), Ok(3));
    assert_eq!(&buf[..3], b"ok\n");
    assert_eq!(&buf[3..], &[0u8; 13]);
    assert_eq!(chip.fifo, VecDeque::from(b"rest".to_vec()));
    assert_eq!(
        chip.uart_log(),
        vec![
            UartAccess::ReadStatusWord,
            UartAccess::ReadStatusWord,
            UartAccess::ReadData,
            UartAccess::ReadStatusWord,
            UartAccess::ReadData,
            UartAccess::ReadStatusWord,
            UartAccess::ReadData,
        ]
    );
    assert_eq!(console.state().cursor, 3);
    assert_eq!(console.state().activity, Activity::Idle);
}

#[test]
fn console_read_ends_when_the_buffer_is_full() {
    let mut chip = Chip::new();
    chip.fifo.extend(b"abcdef".iter().copied());
    let mut console = Uart0::new();
    let mut buf = [0u8; 4];
    assert_eq!(run(&mut chip, |reply| console.read_until(&mut buf, b'\n', reply)), Ok(4));
    assert_eq!(&buf, b"abcd");
    assert_eq!(chip.fifo.len(), 2);
}

#[test]
fn console_read_into_nothing_reads_nothing() {
    let mut console = Uart0::new();
    let mut buf: [u8; 0] = [];
    assert_eq!(console.read_until(&mut buf, 0, Reply::Start), Step::Done(Ok(0)));
}

#[test]
fn console_read_looks_at_bit_3_of_the_status_word() {
    let mut console = Uart0::new();
    let mut buf = [0u8; 2];
    let ask_status = Step::Request(on_uart0(UartAccess::ReadStatusWord));
    let ask_data = Step::Request(on_uart0(UartAccess::ReadData));
    assert_eq!(console.read_until(&mut buf, b'x', Reply::Start), ask_status);
    assert_eq!(console.read_until(&mut buf, b'x', Reply::Word(0)), ask_status);
    assert_eq!(console.read_until(&mut buf, b'x', Reply::Word(0xFFFF_FFF7)), ask_status);
    assert_eq!(buf, [0, 0]);
    assert_eq!(console.read_until(&mut buf, b'x', Reply::Word(0b1000)), ask_data);
    assert_eq!(console.read_until(&mut buf, b'x', Reply::Word(0x0000_0161)), ask_status);
    assert_eq!(buf, [0x61, 0]);
    assert_eq!(console.read_until(&mut buf, b'x', Reply::Word(0xFFFF_FFFF)), ask_data);
    assert_eq!(
        console.read_until(&mut buf, b'x', Reply::Word(b'x' as u32)),
        Step::Done(Ok(2))
    );
    assert_eq!(buf, [0x61, b'x']);
}

#[test]
fn console_delimiter_in_the_first_place_ends_the_read() {
    let mut chip = Chip::new();
    chip.fifo.extend([b'\r', b'a']);
    let mut console = Uart0::new();
    let mut buf = [0u8; 8];
    assert_eq!(run(&mut chip, |reply| console.read_until(&mut buf, b'\r', reply)), Ok(1));
    assert_eq!(buf[0], b'\r');
    assert_eq!(chip.fifo.len(), 1);
}

#[test]
fn console_writes_a_string_byte_by_byte() {
    let mut chip = Chip::new();
    let mut console = Uart0::new();
    run(&mut chip, |reply| console.write_str("toggle\n", reply));
    assert_eq!(chip.bytes_written(), b"toggle\n".to_vec());
    assert_eq!(chip.uart_log().len(), 14);
    assert_eq!(console.state().cursor, 7);
    chip.log.clear();
    run(&mut chip, |reply| console.write_str("", reply));
    assert!(chip.log.is_empty());
    run(&mut chip, |reply| console.write_str("\u{b5}", reply));
    assert_eq!(chip.bytes_written(), vec![0xC2, 0xB5]);
}

#[test]
fn changes_of_the_line_control_keep_what_they_do_not_name() {
    let mut chip = Chip::new();
    chip.control =
        LineControl { word_length: 2, stop_bits: true, parity_enable: false, divisor_latch: false };
    chip.perform(on_uart0(ENTER_LATCH));
    assert_eq!(
        chip.control,
        LineControl { word_length: 2, stop_bits: true, parity_enable: false, divisor_latch: true }
    );
    assert!(on_uart0(ENTER_LATCH).is_answered_by(&Reply::Written));
    assert!(on_uart0(UartAccess::ReadLineControl).is_answered_by(&Reply::LineControl(chip.control)));
    assert!(!on_uart0(UartAccess::ReadLineControl).is_answered_by(&Reply::Word(0)));
    assert!(on_uart0(UartAccess::ReadLineStatus).is_answered_by(&Reply::LineStatus(QUIET)));
    assert!(on_uart0(UartAccess::ReadStatusWord).is_answered_by(&Reply::Word(0)));
    assert!(on_uart0(UartAccess::ReadData).is_answered_by(&Reply::Word(0)));
    assert!(!on_uart0(UartAccess::ReadData).is_answered_by(&Reply::Written));
    assert!(on_uart0(UartAccess::WriteData { byte: 0 }).is_answered_by(&Reply::Written));
    let status = UartStatus { tx_fifo_not_full: true, tx_fifo_empty: false, rx_fifo_not_empty: false };
    assert!(on_uart0(UartAccess::ReadStatus).is_answered_by(&Reply::Status(status)));
    assert!(!on_uart0(UartAccess::ReadStatus).is_answered_by(&Reply::Start));
}

fn count(log: &[UartAccess], wanted: UartAccess) -> usize {
    log.iter().filter(|access| **access == wanted).count()
}

#[test]
fn opening_takes_a_write_on_its_last_try() {
    let mut chip = Chip::new();
    chip.dropped_changes = CONTROL_TRIES as usize - 1;
    let mut uart = session_on_uart0(115200);
    run(&mut chip, |reply| uart.open(reply));
    assert!(uart.is_open());
    assert!(!uart.state().gave_up);
    let log = chip.uart_log();
    assert_eq!(count(&log, SET_FORMAT), CONTROL_TRIES as usize);
    assert_eq!(count(&log, ENTER_LATCH), 1);
    assert_eq!(count(&log, LEAVE_LATCH), 1);
    assert_eq!(
        chip.control,
        LineControl { word_length: 3, stop_bits: false, parity_enable: false, divisor_latch: false }
    );
    assert_eq!((chip.divisor_low, chip.divisor_high), (Some(14), Some(0)));
}

#[test]
fn opening_gives_up_a_write_that_is_dropped_more_often_than_it_has_tries() {
    let mut chip = Chip::new();
    chip.dropped_changes = CONTROL_TRIES as usize;
    let mut uart = session_on_uart0(115200);
    run(&mut chip, |reply| uart.open(reply));
    // done, and not open
    assert!(!uart.is_open());
    assert!(uart.state().gave_up);
    assert_eq!(uart.state().phase, Phase::VerifyStop);
    let log = chip.uart_log();
    assert_eq!(count(&log, SET_FORMAT), CONTROL_TRIES as usize);
    assert_eq!(count(&log, UartAccess::ReadLineControl), CONTROL_TRIES as usize);
    assert_eq!(log[log.len() - 1], UartAccess::ReadLineControl);
    // nothing that follows the check was asked for
    assert_eq!(count(&log, ENTER_LATCH), 0);
    assert_eq!(count(&log, LEAVE_LATCH), 0);
    assert_eq!(count(&log, UartAccess::WriteDivisorLow { byte: 14 }), 0);
    assert_eq!(count(&log, UartAccess::WriteDivisorHigh { byte: 0 }), 0);
    assert_eq!((chip.divisor_low, chip.divisor_high), (None, None));
    assert!(chip.fifo.is_empty());
    assert_eq!(
        chip.control,
        LineControl { word_length: 0, stop_bits: true, parity_enable: true, divisor_latch: false }
    );
}

#[test]
fn opening_ends_though_every_write_of_the_line_control_is_dropped() {
    let mut chip = Chip::new();
    chip.dropped_changes = usize::MAX;
    let mut uart = session_on_uart0(115200);
    run(&mut chip, |reply| uart.open(reply));
    assert!(!uart.is_open());
    assert!(uart.state().gave_up);
    let tries = CONTROL_TRIES as usize;
    let log = chip.uart_log();
    assert_eq!(count(&log, SET_FORMAT), tries);
    assert_eq!(count(&log, ENTER_LATCH), 0);
    assert!(chip.log.len() <= 11 + 7 * tries);
    assert_eq!(chip.log.len(), 4 + 4 + 2 * tries);
}

#[test]
fn opening_that_gave_up_asks_for_nothing_more() {
    let mut chip = Chip::new();
    chip.dropped_changes = usize::MAX;
    let mut uart = session_on_uart0(115200);
    run(&mut chip, |reply| uart.open(reply));
    let state = uart.state();
    assert!(state.gave_up);
    let passing = Reply::LineControl(LineControl {
        word_length: 3,
        stop_bits: false,
        parity_enable: false,
        divisor_latch: false,
    });
    for reply in [Reply::Start, Reply::Written, passing, Reply::LineStatus(QUIET), Reply::Word(0)] {
        assert_eq!(uart.open(reply), Step::Done(()));
        assert_eq!(uart.state(), state);
        assert!(!uart.is_open());
    }
}

#[test]
fn divisor_is_not_written_into_a_latch_that_did_not_open() {
    let mut chip = Chip::new();
    chip.closed_latch = true;
    let mut uart = session_on_uart0(115200);
    run(&mut chip, |reply| uart.open(reply));
    assert!(!uart.is_open());
    assert!(uart.state().gave_up);
    assert_eq!(uart.state().phase, Phase::VerifyLatch);
    let log = chip.uart_log();
    assert_eq!(count(&log, SET_FORMAT), 1);
    assert_eq!(count(&log, ENTER_LATCH), CONTROL_TRIES as usize);
    assert_eq!(log[log.len() - 1], UartAccess::ReadLineControl);
    assert_eq!(count(&log, UartAccess::WriteDivisorLow { byte: 14 }), 0);
    assert_eq!(count(&log, UartAccess::WriteDivisorHigh { byte: 0 }), 0);
    assert_eq!(count(&log, LEAVE_LATCH), 0);
    // neither the data register nor the interrupt enable was written in
    // place of the divisor
    assert!(chip.fifo.is_empty());
    assert_eq!(chip.interrupt_enable, Some(0));
    assert_eq!((chip.divisor_low, chip.divisor_high), (None, None));
    // the format was taken and read back before the latch was tried
    assert_eq!(
        chip.control,
        LineControl { word_length: 3, stop_bits: false, parity_enable: false, divisor_latch: false }
    );
}

#[test]
fn opening_gives_up_a_latch_that_does_not_close() {
    let mut chip = Chip::new();
    chip.stuck_latch = true;
    let mut uart = session_on_uart0(115200);
    run(&mut chip, |reply| uart.open(reply));
    assert!(!uart.is_open());
    assert!(uart.state().gave_up);
    assert_eq!(uart.state().phase, Phase::VerifyLeave);
    let log = chip.uart_log();
    assert_eq!(count(&log, SET_FORMAT), 1);
    assert_eq!(count(&log, ENTER_LATCH), 1);
    assert_eq!(count(&log, LEAVE_LATCH), CONTROL_TRIES as usize);
    assert_eq!(log[log.len() - 1], UartAccess::ReadLineControl);
    assert!(chip.control.divisor_latch);
    assert_eq!((chip.divisor_low, chip.divisor_high), (Some(14), Some(0)));
}

#[test]
fn divisor_is_written_only_after_the_latch_read_back_open() {
    let mut chip = Chip::new();
    chip.dropped_changes = 0;
    let mut uart = session_on_uart0(115200);
    let mut reply = Reply::Start;
    let mut latch_read_open = false;
    loop {
        match uart.open(reply) {
            Step::Done(()) => break,
            Step::Request(request) => {
                if let Request::Uart { access: UartAccess::WriteDivisorLow { .. }, .. }
                | Request::Uart { access: UartAccess::WriteDivisorHigh { .. }, .. } = request
                {
                    assert!(latch_read_open);
                }
                reply = chip.perform(request);
                if let Reply::LineControl(control) = reply {
                    latch_read_open = control.divisor_latch;
                }
            }
        }
    }
    assert!(uart.is_open());
    assert!(!chip.control.divisor_latch);
}

#[test]
fn a_failed_check_uses_a_try_up() {
    let mut uart = session_on_uart0(115200);
    let mut step = uart.open(Reply::Start);
    while step != Step::Request(on_uart0(ENTER_LATCH)) {
        let reply = match step {
            Step::Request(Request::Uart { access: UartAccess::ReadLineStatus, .. }) => {
                Reply::LineStatus(QUIET)
            }
            Step::Request(Request::Uart { access: UartAccess::ReadLineControl, .. }) => {
                Reply::LineControl(LineControl {
                    word_length: 3,
                    stop_bits: false,
                    parity_enable: false,
                    divisor_latch: false,
                })
            }
            Step::Request(_) => Reply::Written,
            Step::Done(()) => panic!("opened too early"),
        };
        step = uart.open(reply);
    }
    assert_eq!(uart.state().phase, Phase::EnterLatch);
    assert_eq!(uart.state().opening_tries, CONTROL_TRIES);
    let closed = Reply::LineControl(LineControl {
        word_length: 3,
        stop_bits: false,
        parity_enable: false,
        divisor_latch: false,
    });
    for used in 1..CONTROL_TRIES {
        assert_eq!(uart.open(Reply::Written), Step::Request(on_uart0(UartAccess::ReadLineControl)));
        assert_eq!(uart.open(closed), Step::Request(on_uart0(ENTER_LATCH)));
        assert_eq!(uart.state().opening_tries, CONTROL_TRIES - used);
        assert!(!uart.state().gave_up);
    }
    assert_eq!(uart.state().opening_tries, 1);
    assert_eq!(uart.open(Reply::Written), Step::Request(on_uart0(UartAccess::ReadLineControl)));
    // a reply that does not answer the check uses no try up
    assert_eq!(uart.open(Reply::Written), Step::Request(on_uart0(UartAccess::ReadLineControl)));
    assert_eq!(uart.state().opening_tries, 1);
    // the last try failed: the opening ends at the check, and not open
    assert_eq!(uart.open(closed), Step::Done(()));
    assert_eq!(uart.state().phase, Phase::VerifyLatch);
    assert!(uart.state().gave_up);
    assert!(!uart.is_open());
    assert_eq!(uart.open(Reply::Written), Step::Done(()));
    assert_eq!(uart.state().phase, Phase::VerifyLatch);
}

#[test]
fn write_with_a_buffer_of_another_length_begins_anew() {
    let mut chip = Chip::new();
    let mut uart = open_session(&mut chip);
    let room = UartStatus { tx_fifo_not_full: true, tx_fifo_empty: true, rx_fifo_not_empty: false };
    let three = [1u8, 2, 3];
    let ask_line = Step::Request(on_uart0(UartAccess::ReadLineStatus));
    assert_eq!(uart.blocking_write(&three, Reply::Start), ask_line);
    uart.blocking_write(&three, Reply::LineStatus(QUIET));
    assert_eq!(
        uart.blocking_write(&three, Reply::Status(room)),
        Step::Request(on_uart0(UartAccess::WriteData { byte: 1 }))
    );
    assert_eq!(uart.blocking_write(&three, Reply::Written), ask_line);
    assert_eq!(uart.state().cursor, 1);
    assert_eq!(uart.state().length, 3);
    // another buffer: nothing of it counts as sent
    let one = [9u8];
    assert_eq!(uart.blocking_write(&one, Reply::LineStatus(QUIET)), ask_line);
    assert_eq!(uart.state().cursor, 0);
    assert_eq!(uart.state().length, 1);
    uart.blocking_write(&one, Reply::LineStatus(QUIET));
    assert_eq!(
        uart.blocking_write(&one, Reply::Status(room)),
        Step::Request(on_uart0(UartAccess::WriteData { byte: 9 }))
    );
    assert_eq!(uart.blocking_write(&one, Reply::Written), Step::Done(Ok(())));
    assert_eq!(uart.state().cursor, 1);
}

#[test]
fn read_into_a_buffer_of_another_length_begins_anew() {
    let mut chip = Chip::new();
    let mut uart = open_session(&mut chip);
    let data_there =
        UartStatus { tx_fifo_not_full: true, tx_fifo_empty: true, rx_fifo_not_empty: true };
    let ask_status = Step::Request(on_uart0(UartAccess::ReadStatus));
    let mut four = [0u8; 4];
    assert_eq!(uart.blocking_read(&mut four, Reply::Start), ask_status);
    uart.blocking_read(&mut four, Reply::Status(data_there));
    assert_eq!(uart.blocking_read(&mut four, Reply::Word(0x41)), ask_status);
    assert_eq!(four, [0x41, 0, 0, 0]);
    assert_eq!(uart.state().cursor, 1);
    let mut two = [0u8; 2];
    assert_eq!(uart.blocking_read(&mut two, Reply::Word(0x42)), ask_status);
    assert_eq!(two, [0, 0]);
    assert_eq!(uart.state().cursor, 0);
    assert_eq!(uart.state().length, 2);
    let mut none: [u8; 0] = [];
    assert_eq!(uart.blocking_read(&mut none, Reply::Word(0x43)), Step::Done(Ok(())));
    assert_eq!(uart.state().cursor, 0);
}

#[test]
fn console_read_into_a_buffer_of_another_length_begins_anew() {
    let mut console = Uart0::new();
    let mut four = [0u8; 4];
    let ask_status = Step::Request(on_uart0(UartAccess::ReadStatusWord));
    assert_eq!(console.read_until(&mut four, b'\n', Reply::Start), ask_status);
    console.read_until(&mut four, b'\n', Reply::Word(0b1000));
    assert_eq!(console.read_until(&mut four, b'\n', Reply::Word(0x41)), ask_status);
    assert_eq!(console.state().cursor, 1);
    assert_eq!(console.state().length, 4);
    // nothing was stored into the empty buffer, and the count says so
    let mut none: [u8; 0] = [];
    assert_eq!(console.read_until(&mut none, b'\n', Reply::Word(0x42)), Step::Done(Ok(0)));
    assert_eq!(console.state().cursor, 0);
    let mut two = [0u8; 2];
    assert_eq!(console.read_until(&mut two, b'\n', Reply::Word(0x43)), ask_status);
    assert_eq!(two, [0, 0]);
}

#[test]
fn console_string_of_another_length_begins_anew() {
    let mut console = Uart0::new();
    let ask_line = Step::Request(on_uart0(UartAccess::ReadLineStatus));
    assert_eq!(console.write_str("abc", Reply::Start), ask_line);
    assert_eq!(
        console.write_str("abc", Reply::LineStatus(QUIET)),
        Step::Request(on_uart0(UartAccess::WriteData { byte: b'a' }))
    );
    assert_eq!(console.write_str("abc", Reply::Written), ask_line);
    assert_eq!(console.state().cursor, 1);
    assert_eq!(console.write_str("z", Reply::Written), ask_line);
    assert_eq!(console.state().cursor, 0);
    assert_eq!(
        console.write_str("z", Reply::LineStatus(QUIET)),
        Step::Request(on_uart0(UartAccess::WriteData { byte: b'z' }))
    );
    assert_eq!(console.write_str("z", Reply::Written), Step::Done(()));
}

#[test]
fn line_control_with_another_value_begins_anew() {
    let mut chip = Chip::new();
    let mut uart = open_session(&mut chip);
    assert_eq!(
        uart.write_lcr(0x03, Reply::Start),
        Step::Request(on_uart0(UartAccess::WriteLineControlWord { bits: 0x03 }))
    );
    assert_eq!(
        uart.write_lcr(0x03, Reply::Written),
        Step::Request(on_uart0(UartAccess::ReadLineControlWord))
    );
    assert_eq!(uart.write_lcr(0x03, Reply::Word(0)), Step::Request(on_uart0(RESET_FIFOS)));
    assert_eq!(
        uart.write_lcr(0x03, Reply::Written),
        Step::Request(on_uart0(UartAccess::ReadReceiveBuffer))
    );
    assert_eq!(
        uart.write_lcr(0x03, Reply::Word(0)),
        Step::Request(on_uart0(UartAccess::WriteLineControlWord { bits: 0x03 }))
    );
    assert_eq!(uart.state().tries, CONTROL_TRIES - 1);
    assert_eq!(uart.state().wanted, 0x03);
    // another value: the write that was under way counts for nothing
    assert_eq!(
        uart.write_lcr(0x1B, Reply::Written),
        Step::Request(on_uart0(UartAccess::WriteLineControlWord { bits: 0x1B }))
    );
    assert_eq!(uart.state().tries, CONTROL_TRIES);
    assert_eq!(uart.state().wanted, 0x1B);
    assert_eq!(
        uart.write_lcr(0x1B, Reply::Written),
        Step::Request(on_uart0(UartAccess::ReadLineControlWord))
    );
    assert_eq!(uart.write_lcr(0x1B, Reply::Word(0x1B)), Step::Done(()));
    chip.log.clear();
}

#[test]
fn read_until_never_counts_more_than_the_buffer_holds() {
    for len in 0usize..6 {
        let mut chip = Chip::new();
        chip.fifo.extend(b"abcdefgh".iter().copied());
        let mut console = Uart0::new();
        let mut buf = vec![0u8; len];
        let count = run(&mut chip, |reply| console.read_until(&mut buf, b'e', reply)).unwrap();
        assert!(count <= len);
        assert_eq!(count, len.min(5));
        assert!(console.state().cursor <= console.state().length);
        assert_eq!(console.state().length, len);
    }
}

#[test]
fn cursor_stays_within_the_length_of_the_transfer() {
    let mut chip = Chip::new();
    let mut uart = open_session(&mut chip);
    assert!(uart.state().cursor <= uart.state().length);
    let mut reply = Reply::Start;
    let data = [1u8, 2, 3];
    loop {
        let step = uart.blocking_write(&data, reply);
        assert!(uart.state().cursor <= uart.state().length);
        assert_eq!(uart.state().length, 3);
        match step {
            Step::Done(result) => {
                assert_eq!(result, Ok(()));
                break;
            }
            Step::Request(request) => reply = chip.perform(request),
        }
    }
    assert_eq!(uart.state().cursor, 3);
}

//! The serial controllers: the session that is opened on one of them with a
//! transmit and a receive pin, and the console on controller 0.

use vstd::prelude::*;
use core::marker::PhantomData;
use crate::gpio::sealed::{control_of, has_control, mux_of};
use crate::regs::{
    bit_is_set, FieldUpdate, IoBlock, LineControl, LineStatus, MuxPad, PadControl, Reply,
    Request, Step, UartAccess, UartPort,
};
use vstd::string::StringSliceAdditionalSpecFns;

pub mod pins;
pub mod sealed;

verus! {

/// Settings of a session.
pub struct Config {
    /// Symbols per second; at least 1.
    pub baudrate: u32,
}

impl Default for Config {
    fn default() -> (config: Self)
        ensures
            config.baudrate == 115200,
    {
        Self { baudrate: 115200 }
    }
}

/// What the line can report while a session transmits.
#[derive(Debug, Clone, Copy, PartialEq, Eq, Structural)]
pub enum Error {
    Overrun,
    Parity,
    Framing,
}

/// A serial controller that a session can be opened on.
pub trait Instance: sealed::Instance + Sized {

}

impl Instance for crate::peripherals::UART0 {

}

impl Instance for crate::peripherals::UART1 {

}

impl Instance for crate::peripherals::UART2 {

}

impl Instance for crate::peripherals::UART3 {

}

/// Frequency of the clock that feeds the serial controllers, in hertz.
pub const UART_CLOCK: u32 = 25_000_000;

/// The baud divisor for a clock and a rate: the clock divided by 16 times the
/// rate, rounded to the nearest whole number, halves upwards.
pub open spec fn divisor_of(clock: int, baudrate: int) -> int {
    (clock + baudrate * 8) / (baudrate * 16)
}

/// The divisor is the whole number nearest to the clock divided by 16 times
/// the rate: 16 times the rate times the divisor misses the clock by at most
/// 8 times the rate. So the rate that the divisor gives, the clock divided by
/// 16 times the divisor, misses the wanted rate by at most one part in twice
/// the divisor.
pub proof fn lemma_divisor_is_nearest(clock: int, baudrate: int)
    requires
        0 <= clock,
        0 < baudrate,
    ensures
        0 <= divisor_of(clock, baudrate),
        clock - 8 * baudrate < 16 * baudrate * divisor_of(clock, baudrate) <= clock + 8
            * baudrate,
{
    let n = clock + baudrate * 8;
    let d = baudrate * 16;
    vstd::arithmetic::div_mod::lemma_fundamental_div_mod(n, d);
    vstd::arithmetic::div_mod::lemma_mod_bound(n, d);
    vstd::arithmetic::div_mod::lemma_div_pos_is_pos(n, d);
    assert(d * (n / d) == 16 * baudrate * divisor_of(clock, baudrate)) by (nonlinear_arith)
        requires
            d == baudrate * 16,
            n / d == divisor_of(clock, baudrate),
    ;
}

/// Computes the baud divisor of the controllers' clock for a rate.
pub fn divisor(baudrate: u32) -> (divisor: u32)
    requires
        0 < baudrate,
    ensures
        divisor == divisor_of(UART_CLOCK as int, baudrate as int),
{
    let rate: u64 = baudrate as u64;
    let quotient: u64 = (UART_CLOCK as u64 + rate * 8) / (rate * 16);
    proof {
        lemma_divisor_is_nearest(UART_CLOCK as int, baudrate as int);
        assert(quotient <= UART_CLOCK + 8) by (nonlinear_arith)
            requires
                16 * rate * quotient <= UART_CLOCK + 8 * rate,
                0 < rate,
                0 <= quotient,
        ;
    }
    quotient as u32
}

/// The error that a line status stands for, if any. A break and a framing
/// error both count as a framing error; of several errors the first of
/// framing, parity and overrun is reported.
pub open spec fn line_error(status: LineStatus) -> Option<Error> {
    if status.break_interrupt || status.framing {
        Some(Error::Framing)
    } else if status.parity {
        Some(Error::Parity)
    } else if status.overrun {
        Some(Error::Overrun)
    } else {
        None
    }
}

/// What a check of the line status comes to: the error that the status
/// stands for, or none.
pub open spec fn line_check(status: LineStatus) -> Result<(), Error> {
    match line_error(status) {
        Some(error) => Err(error),
        None => Ok(()),
    }
}

/// What a transmission hands back where it is to tell the count of bytes
/// written: at the end all `count` of them, before the end what it hands back
/// anyway.
pub open spec fn counted(step: Step<Result<(), Error>>, count: usize) -> Step<
    Result<usize, Error>,
> {
    match step {
        Step::Request(request) => Step::Request(request),
        Step::Done(Ok(())) => Step::Done(Ok(count)),
        Step::Done(Err(error)) => Step::Done(Err(error)),
    }
}

/// How often the line control is written before the setting gives up.
pub const CONTROL_TRIES: u32 = 1000;

/// Every bit of the line-control register but bit 5, the stick-parity bit.
pub const NON_STKP_MASK: u32 = 0xFFFF_FFDF;

/// Whether a line-control value that was read back agrees with the value
/// that was written, the stick-parity bit left aside.
pub open spec fn control_agrees(found: u32, wanted: u32) -> bool {
    found & NON_STKP_MASK == wanted & NON_STKP_MASK
}

/// Where a pin of a session sits and which function routes its signal.
#[derive(Debug, Clone, Copy, PartialEq, Eq, Structural)]
pub struct SerialPin {
    pub mux: MuxPad,
    pub function: u8,
    pub control: PadControl,
}

/// How far the opening of a session has come. The phases follow one another
/// in the order given here; a check that fails goes back to the write it
/// checks, as long as the write has tries left.
#[derive(Debug, Clone, Copy, PartialEq, Eq, Structural)]
pub enum Phase {
    /// Route the transmit signal to its pin.
    TxFunction,
    /// Route the receive signal to its pin.
    RxFunction,
    /// Pull the transmit pin down.
    TxPull,
    /// Pull the receive pin down.
    RxPull,
    /// Wait until the transmitter has sent all that was in flight.
    AwaitIdle,
    /// Switch every interrupt source off.
    DisableInterrupts,
    /// Assert the two modem-control lines.
    AssertModem,
    /// Enable both FIFOs and reset them.
    ResetFifos,
    /// Select 8 data bits, no parity, 1 stop bit.
    SetFormat,
    /// Check that the stop-bit selection was taken.
    VerifyStop,
    /// Check that the parity selection was taken.
    VerifyParity,
    /// Open the divisor latch.
    EnterLatch,
    /// Check that the latch is open.
    VerifyLatch,
    /// Write the low byte of the divisor.
    DivisorLow,
    /// Write the high byte of the divisor.
    DivisorHigh,
    /// Enable the FIFOs again.
    EnableFifo,
    /// Close the divisor latch.
    LeaveLatch,
    /// Check that the latch is closed.
    VerifyLeave,
    /// The session is open.
    Open,
}

impl Phase {
    /// Position of the phase in the order of the protocol.
    pub open spec fn rank(self) -> nat {
        match self {
            Phase::TxFunction => 0,
            Phase::RxFunction => 1,
            Phase::TxPull => 2,
            Phase::RxPull => 3,
            Phase::AwaitIdle => 4,
            Phase::DisableInterrupts => 5,
            Phase::AssertModem => 6,
            Phase::ResetFifos => 7,
            Phase::SetFormat => 8,
            Phase::VerifyStop => 9,
            Phase::VerifyParity => 10,
            Phase::EnterLatch => 11,
            Phase::VerifyLatch => 12,
            Phase::DivisorLow => 13,
            Phase::DivisorHigh => 14,
            Phase::EnableFifo => 15,
            Phase::LeaveLatch => 16,
            Phase::VerifyLeave => 17,
            Phase::Open => 18,
        }
    }

    /// The phase that follows in the order of the protocol; the last one
    /// follows itself.
    pub open spec fn following(self) -> Phase {
        match self {
            Phase::TxFunction => Phase::RxFunction,
            Phase::RxFunction => Phase::TxPull,
            Phase::TxPull => Phase::RxPull,
            Phase::RxPull => Phase::AwaitIdle,
            Phase::AwaitIdle => Phase::DisableInterrupts,
            Phase::DisableInterrupts => Phase::AssertModem,
            Phase::AssertModem => Phase::ResetFifos,
            Phase::ResetFifos => Phase::SetFormat,
            Phase::SetFormat => Phase::VerifyStop,
            Phase::VerifyStop => Phase::VerifyParity,
            Phase::VerifyParity => Phase::EnterLatch,
            Phase::EnterLatch => Phase::VerifyLatch,
            Phase::VerifyLatch => Phase::DivisorLow,
            Phase::DivisorLow => Phase::DivisorHigh,
            Phase::DivisorHigh => Phase::EnableFifo,
            Phase::EnableFifo => Phase::LeaveLatch,
            Phase::LeaveLatch => Phase::VerifyLeave,
            Phase::VerifyLeave => Phase::Open,
            Phase::Open => Phase::Open,
        }
    }

    /// Whether the phase reads the line control back to check a write.
    pub open spec fn is_check(self) -> bool {
        self == Phase::VerifyStop || self == Phase::VerifyParity || self == Phase::VerifyLatch
            || self == Phase::VerifyLeave
    }

    /// Whether the phase is a write of the line control that is checked
    /// after it.
    pub open spec fn is_checked_write(self) -> bool {
        self == Phase::SetFormat || self == Phase::EnterLatch || self == Phase::LeaveLatch
    }

    /// The write that a check checks; of any other phase, the phase itself.
    pub open spec fn checked_write(self) -> Phase {
        match self {
            Phase::VerifyStop | Phase::VerifyParity => Phase::SetFormat,
            Phase::VerifyLatch => Phase::EnterLatch,
            Phase::VerifyLeave => Phase::LeaveLatch,
            other => other,
        }
    }

    /// Whether a line control that was read back shows what the write
    /// before a check wrote: 1 stop bit, no parity, the latch open, the latch
    /// closed.
    pub open spec fn passes(self, control: LineControl) -> bool {
        match self {
            Phase::VerifyStop => !control.stop_bits,
            Phase::VerifyParity => !control.parity_enable,
            Phase::VerifyLatch => control.divisor_latch,
            Phase::VerifyLeave => !control.divisor_latch,
            _ => true,
        }
    }

    /// The phase that follows in the order of the protocol.
    fn next(self) -> (next: Phase)
        ensures
            next == self.following(),
    {
        match self {
            Phase::TxFunction => Phase::RxFunction,
            Phase::RxFunction => Phase::TxPull,
            Phase::TxPull => Phase::RxPull,
            Phase::RxPull => Phase::AwaitIdle,
            Phase::AwaitIdle => Phase::DisableInterrupts,
            Phase::DisableInterrupts => Phase::AssertModem,
            Phase::AssertModem => Phase::ResetFifos,
            Phase::ResetFifos => Phase::SetFormat,
            Phase::SetFormat => Phase::VerifyStop,
            Phase::VerifyStop => Phase::VerifyParity,
            Phase::VerifyParity => Phase::EnterLatch,
            Phase::EnterLatch => Phase::VerifyLatch,
            Phase::VerifyLatch => Phase::DivisorLow,
            Phase::DivisorLow => Phase::DivisorHigh,
            Phase::DivisorHigh => Phase::EnableFifo,
            Phase::EnableFifo => Phase::LeaveLatch,
            Phase::LeaveLatch => Phase::VerifyLeave,
            Phase::VerifyLeave => Phase::Open,
            Phase::Open => Phase::Open,
        }
    }
}

/// What a session is busy with between two calls.
#[derive(Debug, Clone, Copy, PartialEq, Eq, Structural)]
pub enum Activity {
    /// No transfer is under way.
    Idle,
    /// Transmitting: the line status is to be checked before the next byte.
    CheckLine,
    /// Transmitting: waiting for room in the transmit FIFO.
    AwaitSpace,
    /// Transmitting: the next byte is being written.
    Sending,
    /// Transmitting on the console: waiting for the transmit holding
    /// register to empty.
    AwaitHolding,
    /// Receiving: waiting for a byte in the receive FIFO.
    AwaitData,
    /// Receiving: the next byte is being taken.
    Receiving,
    /// Setting the line control: the value is being written.
    ControlWrite,
    /// Setting the line control: the value is being read back.
    ControlVerify,
    /// Setting the line control: the FIFOs are being reset before the next
    /// try.
    ControlReset,
    /// Setting the line control: the receive buffer is being drained before
    /// the next try.
    ControlDrain,
}

/// The state of a session.
#[derive(Debug, Clone, Copy, PartialEq, Eq, Structural)]
pub struct UartState {
    /// The controller the session runs on.
    pub port: UartPort,
    pub tx: SerialPin,
    pub rx: SerialPin,
    /// The baud divisor of the configured rate.
    pub divisor: u32,
    pub phase: Phase,
    /// How many more times the opening may write what the check it is at
    /// checks, the write already made counted in.
    pub opening_tries: u32,
    /// Whether the opening ended at a check that still failed when its
    /// tries were used up. Such a session is not open and never will be: the
    /// opening asks for nothing more.
    pub gave_up: bool,
    pub activity: Activity,
    /// How many bytes of the transfer under way, or of the last one, are
    /// done.
    pub cursor: usize,
    /// The length of the buffer that the transfer under way, or the last
    /// one, began with.
    pub length: usize,
    /// How many tries of setting the line control are left.
    pub tries: u32,
    /// The value that the setting of the line control under way, or the
    /// last one, began with.
    pub wanted: u32,
}

impl UartState {
    /// Whether the session is open: the opening has come to its end and has
    /// not given up.
    pub open spec fn is_open(self) -> bool {
        self.phase == Phase::Open && !self.gave_up
    }

    /// Whether the cursor lies within the length of the buffer that the
    /// transfer began with. A new session is so, and every step keeps it so.
    pub open spec fn in_bounds(self) -> bool {
        self.cursor <= self.length
    }

    /// An access to the session's controller.
    pub open spec fn uart(self, access: UartAccess) -> Request {
        Request::Uart { port: self.port, access }
    }

    /// The request that the opening waits on: none once it has given up,
    /// and else that of its phase, which is none once the session is open.
    pub open spec fn pending(self) -> Option<Request> {
        if self.gave_up {
            None
        } else {
            self.phase_request()
        }
    }

    /// The request that belongs to the phase of the opening; none once the
    /// session is open.
    pub open spec fn phase_request(self) -> Option<Request> {
        match self.phase {
            Phase::TxFunction => Some(
                Request::SelectFunction { pad: self.tx.mux, function: self.tx.function },
            ),
            Phase::RxFunction => Some(
                Request::SelectFunction { pad: self.rx.mux, function: self.rx.function },
            ),
            Phase::TxPull => Some(
                Request::ModifyPull {
                    control: self.tx.control,
                    pull_up: FieldUpdate::ClearBit,
                    pull_down: FieldUpdate::SetBit,
                },
            ),
            Phase::RxPull => Some(
                Request::ModifyPull {
                    control: self.rx.control,
                    pull_up: FieldUpdate::ClearBit,
                    pull_down: FieldUpdate::SetBit,
                },
            ),
            Phase::AwaitIdle => Some(self.uart(UartAccess::ReadLineStatus)),
            Phase::DisableInterrupts => Some(
                self.uart(UartAccess::WriteInterruptEnable { bits: 0 }),
            ),
            Phase::AssertModem => Some(
                self.uart(UartAccess::WriteModemControl { dtr: true, rts: true }),
            ),
            Phase::ResetFifos => Some(
                self.uart(
                    UartAccess::WriteFifoControl { enable: true, reset_rx: true, reset_tx: true },
                ),
            ),
            Phase::SetFormat => Some(
                self.uart(
                    UartAccess::ModifyLineControl {
                        word_length: Some(3u8),
                        stop_bits: FieldUpdate::ClearBit,
                        parity_enable: FieldUpdate::ClearBit,
                        divisor_latch: FieldUpdate::Keep,
                    },
                ),
            ),
            Phase::VerifyStop | Phase::VerifyParity | Phase::VerifyLatch | Phase::VerifyLeave => Some(
                self.uart(UartAccess::ReadLineControl),
            ),
            Phase::EnterLatch => Some(
                self.uart(
                    UartAccess::ModifyLineControl {
                        word_length: None,
                        stop_bits: FieldUpdate::Keep,
                        parity_enable: FieldUpdate::Keep,
                        divisor_latch: FieldUpdate::SetBit,
                    },
                ),
            ),
            Phase::DivisorLow => Some(
                self.uart(UartAccess::WriteDivisorLow { byte: (self.divisor % 0x100) as u8 }),
            ),
            Phase::DivisorHigh => Some(
                self.uart(
                    UartAccess::WriteDivisorHigh { byte: ((self.divisor / 0x100) % 0x100) as u8 },
                ),
            ),
            Phase::EnableFifo => Some(
                self.uart(
                    UartAccess::WriteFifoControl {
                        enable: true,
                        reset_rx: false,
                        reset_tx: false,
                    },
                ),
            ),
            Phase::LeaveLatch => Some(
                self.uart(
                    UartAccess::ModifyLineControl {
                        word_length: None,
                        stop_bits: FieldUpdate::Keep,
                        parity_enable: FieldUpdate::Keep,
                        divisor_latch: FieldUpdate::ClearBit,
                    },
                ),
            ),
            Phase::Open => None,
        }
    }

    /// Whether a reply answers the request that the opening waits on.
    pub open spec fn answered(self, reply: Reply) -> bool {
        self.pending() is Some && self.pending()->0.answered_by(reply)
    }

    /// The session one phase on. Where the phase it comes to is a write of
    /// the line control that is checked after it, the write gets all its
    /// tries.
    pub open spec fn advanced(self) -> UartState {
        let next = self.phase.following();
        UartState {
            phase: next,
            opening_tries: if next.is_checked_write() {
                CONTROL_TRIES
            } else {
                self.opening_tries
            },
            ..self
        }
    }

    /// The session after a check. A check that passed goes on. One that
    /// failed goes back to its write and uses a try up, as long as more than
    /// the one that was just made is left. When none is left, the opening
    /// gives up: the session stays at the check, and nothing that was to
    /// follow the check is done.
    pub open spec fn checked(self, passed: bool) -> UartState {
        if passed {
            self.advanced()
        } else if self.opening_tries > 1 {
            UartState {
                phase: self.phase.checked_write(),
                opening_tries: (self.opening_tries - 1) as u32,
                ..self
            }
        } else {
            UartState { gave_up: true, ..self }
        }
    }

    /// The session after the opening has taken a reply. A reply that does
    /// not answer the pending request changes nothing, and nothing changes
    /// once the opening has given up or the session is open. A write that is
    /// done is followed by the next phase. The wait for the transmitter stays
    /// until the line status shows it empty. A check is settled as
    /// [`UartState::checked`] says.
    pub open spec fn opened_by(self, reply: Reply) -> UartState {
        if !self.answered(reply) {
            self
        } else if self.phase == Phase::AwaitIdle {
            if reply->LineStatus_0.transmitter_empty {
                self.advanced()
            } else {
                self
            }
        } else if self.phase.is_check() {
            self.checked(self.phase.passes(reply->LineControl_0))
        } else {
            self.advanced()
        }
    }

    /// The phase that follows on a reply.
    pub open spec fn next_phase(self, reply: Reply) -> Phase {
        self.opened_by(reply).phase
    }

    /// A bound on the accesses that the opening still asks for, not
    /// counting those that it repeats while the transmitter is not empty or
    /// because a reply did not answer them: none once it has given up, and
    /// else one for each phase that is left, and for each write of the line
    /// control that is checked, one write and its checks for each try.
    pub open spec fn accesses_left(self) -> nat {
        if self.gave_up {
            0
        } else {
            self.phases_left()
        }
    }

    /// The bound of [`UartState::accesses_left`] for an opening that has not
    /// given up.
    pub open spec fn phases_left(self) -> nat {
        let tries: nat = if self.opening_tries >= 1 {
            self.opening_tries as nat
        } else {
            1
        };
        let all: nat = CONTROL_TRIES as nat;
        let after_latch: nat = 3 + 2 * all;
        let after_format: nat = 2 * all + after_latch;
        match self.phase {
            Phase::TxFunction => 8 + 3 * all + after_format,
            Phase::RxFunction => 7 + 3 * all + after_format,
            Phase::TxPull => 6 + 3 * all + after_format,
            Phase::RxPull => 5 + 3 * all + after_format,
            Phase::AwaitIdle => 4 + 3 * all + after_format,
            Phase::DisableInterrupts => 3 + 3 * all + after_format,
            Phase::AssertModem => 2 + 3 * all + after_format,
            Phase::ResetFifos => 1 + 3 * all + after_format,
            Phase::SetFormat => 3 * tries + after_format,
            Phase::VerifyStop => (3 * tries - 1) as nat + after_format,
            Phase::VerifyParity => (3 * tries - 2) as nat + after_format,
            Phase::EnterLatch => 2 * tries + after_latch,
            Phase::VerifyLatch => (2 * tries - 1) as nat + after_latch,
            Phase::DivisorLow => after_latch,
            Phase::DivisorHigh => (after_latch - 1) as nat,
            Phase::EnableFifo => (after_latch - 2) as nat,
            Phase::LeaveLatch => 2 * tries,
            Phase::VerifyLeave => (2 * tries - 1) as nat,
            Phase::Open => 0,
        }
    }

    /// What the opening hands back in its phase: the pending request, or
    /// that it is done.
    pub open spec fn opening_step(self) -> Step<()> {
        match self.pending() {
            Some(request) => Step::Request(request),
            None => Step::Done(()),
        }
    }

    /// Whether a transmission is under way.
    pub open spec fn transmitting(self) -> bool {
        self.activity == Activity::CheckLine || self.activity == Activity::AwaitSpace
            || self.activity == Activity::Sending
    }

    /// Whether a reception is under way.
    pub open spec fn receiving(self) -> bool {
        self.activity == Activity::AwaitData || self.activity == Activity::Receiving
    }

    /// Whether the line control is being set.
    pub open spec fn setting_control(self) -> bool {
        self.activity == Activity::ControlWrite || self.activity == Activity::ControlVerify
            || self.activity == Activity::ControlReset || self.activity == Activity::ControlDrain
    }

    /// The session with another activity.
    pub open spec fn busy_with(self, activity: Activity) -> UartState {
        UartState { activity, ..self }
    }

    /// Whether a call begins a transmission of `len` bytes: it does on
    /// [`Reply::Start`], whenever none is under way, and whenever the one
    /// under way began with another length or has its cursor past it.
    pub open spec fn write_begins(self, len: int, reply: Reply) -> bool {
        reply is Start || !self.transmitting() || self.length != len || self.cursor > len
    }

    /// The session as a transmission of `len` bytes finds it: at the first
    /// byte where the transmission begins, and as it is otherwise.
    pub open spec fn write_taken_up(self, len: int, reply: Reply) -> UartState {
        if self.write_begins(len, reply) {
            UartState { activity: Activity::CheckLine, cursor: 0, length: len as usize, ..self }
        } else {
            self
        }
    }

    /// One step of the transmission of `data`: the session after it, and
    /// what it hands back.
    ///
    /// For each byte in turn the line status is asked for; an error in it
    /// ends the transmission with that error, before the byte is sent. Then
    /// the status is asked for until the transmit FIFO has room, and the
    /// byte is written. After the last byte the transmission is done. A reply
    /// that does not answer the request that was made has the request made
    /// again. The byte that is written is the one that `data` holds at the
    /// cursor when the write is asked for. Where the transmission begins, the
    /// reply counts for nothing.
    pub open spec fn write_step(self, data: Seq<u8>, reply: Reply) -> (
        UartState,
        Step<Result<(), Error>>,
    ) {
        let at = self.write_taken_up(data.len() as int, reply);
        let reply = if self.write_begins(data.len() as int, reply) {
            Reply::Start
        } else {
            reply
        };
        if at.cursor >= data.len() {
            (at.busy_with(Activity::Idle), Step::Done(Ok(())))
        } else {
            match (at.activity, reply) {
                (Activity::CheckLine, Reply::LineStatus(status)) => match line_error(status) {
                    Some(error) => (at.busy_with(Activity::Idle), Step::Done(Err(error))),
                    None => (
                        at.busy_with(Activity::AwaitSpace),
                        Step::Request(at.uart(UartAccess::ReadStatus)),
                    ),
                },
                (Activity::CheckLine, _) => (
                    at,
                    Step::Request(at.uart(UartAccess::ReadLineStatus)),
                ),
                (Activity::AwaitSpace, Reply::Status(status)) => if status.tx_fifo_not_full {
                    (
                        at.busy_with(Activity::Sending),
                        Step::Request(
                            at.uart(UartAccess::WriteData { byte: data[at.cursor as int] }),
                        ),
                    )
                } else {
                    (at, Step::Request(at.uart(UartAccess::ReadStatus)))
                },
                (Activity::AwaitSpace, _) => (at, Step::Request(at.uart(UartAccess::ReadStatus))),
                (Activity::Sending, Reply::Written) => if at.cursor + 1 >= data.len() {
                    (
                        UartState {
                            activity: Activity::Idle,
                            cursor: (at.cursor + 1) as usize,
                            ..at
                        },
                        Step::Done(Ok(())),
                    )
                } else {
                    (
                        UartState {
                            activity: Activity::CheckLine,
                            cursor: (at.cursor + 1) as usize,
                            ..at
                        },
                        Step::Request(at.uart(UartAccess::ReadLineStatus)),
                    )
                },
                _ => (
                    at,
                    Step::Request(at.uart(UartAccess::WriteData { byte: data[at.cursor as int] })),
                ),
            }
        }
    }

    /// Whether a call begins a reception into `len` places: it does on
    /// [`Reply::Start`], whenever none is under way, and whenever the one
    /// under way began with another length or has its cursor past it.
    pub open spec fn read_begins(self, len: int, reply: Reply) -> bool {
        reply is Start || !self.receiving() || self.length != len || self.cursor > len
    }

    /// The session as a reception into `len` places finds it: at the first
    /// place where the reception begins, and as it is otherwise.
    pub open spec fn read_taken_up(self, len: int, reply: Reply) -> UartState {
        if self.read_begins(len, reply) {
            UartState { activity: Activity::AwaitData, cursor: 0, length: len as usize, ..self }
        } else {
            self
        }
    }

    /// The byte that one step of a reception into `len` places puts into the
    /// place at the cursor, if it puts one: the low byte of the word taken
    /// from the data register.
    pub open spec fn read_stores(self, len: int, reply: Reply) -> Option<u8> {
        let at = self.read_taken_up(len, reply);
        if at.cursor < len && at.activity == Activity::Receiving && reply is Word {
            Some((reply->Word_0 % 0x100) as u8)
        } else {
            None
        }
    }

    /// What one step of a reception leaves in a buffer that held `held`: a
    /// byte that was taken stands at the cursor, every other place is as it
    /// was.
    pub open spec fn read_leaves(self, held: Seq<u8>, reply: Reply) -> Seq<u8> {
        match self.read_stores(held.len() as int, reply) {
            Some(byte) => held.update(
                self.read_taken_up(held.len() as int, reply).cursor as int,
                byte,
            ),
            None => held,
        }
    }

    /// One step of a reception into `len` places: the session after it, and
    /// what it hands back.
    ///
    /// For each place in turn the status is asked for until the receive FIFO
    /// holds a byte, and the byte is taken. After the last place the
    /// reception is done. The line status is not looked at. A reply that does
    /// not answer the request that was made has the request made again. Where
    /// the reception begins, the reply counts for nothing.
    pub open spec fn read_step(self, len: int, reply: Reply) -> (
        UartState,
        Step<Result<(), Error>>,
    ) {
        let at = self.read_taken_up(len, reply);
        let reply = if self.read_begins(len, reply) {
            Reply::Start
        } else {
            reply
        };
        if at.cursor >= len {
            (at.busy_with(Activity::Idle), Step::Done(Ok(())))
        } else {
            match (at.activity, reply) {
                (Activity::AwaitData, Reply::Status(status)) => if status.rx_fifo_not_empty {
                    (
                        at.busy_with(Activity::Receiving),
                        Step::Request(at.uart(UartAccess::ReadData)),
                    )
                } else {
                    (at, Step::Request(at.uart(UartAccess::ReadStatus)))
                },
                (Activity::AwaitData, _) => (at, Step::Request(at.uart(UartAccess::ReadStatus))),
                (Activity::Receiving, Reply::Word(_)) => if at.cursor + 1 >= len {
                    (
                        UartState {
                            activity: Activity::Idle,
                            cursor: (at.cursor + 1) as usize,
                            ..at
                        },
                        Step::Done(Ok(())),
                    )
                } else {
                    (
                        UartState {
                            activity: Activity::AwaitData,
                            cursor: (at.cursor + 1) as usize,
                            ..at
                        },
                        Step::Request(at.uart(UartAccess::ReadStatus)),
                    )
                },
                _ => (at, Step::Request(at.uart(UartAccess::ReadData))),
            }
        }
    }

    /// One step of a flush: done once the status shows the transmit FIFO
    /// empty; until then the status is asked for.
    pub open spec fn flush_step(self, reply: Reply) -> Step<Result<(), Error>> {
        match reply {
            Reply::Status(status) => if status.tx_fifo_empty {
                Step::Done(Ok(()))
            } else {
                Step::Request(self.uart(UartAccess::ReadStatus))
            },
            _ => Step::Request(self.uart(UartAccess::ReadStatus)),
        }
    }

    /// Whether a call begins the setting of the line control to `value`: it
    /// does on [`Reply::Start`], whenever none is under way, and whenever the
    /// one under way began with another value.
    pub open spec fn control_begins(self, value: u32, reply: Reply) -> bool {
        reply is Start || !self.setting_control() || self.wanted != value
    }

    /// The session as the setting of the line control to `value` finds it:
    /// with all its tries left where the setting begins, and as it is
    /// otherwise.
    pub open spec fn control_taken_up(self, value: u32, reply: Reply) -> UartState {
        if self.control_begins(value, reply) {
            UartState {
                activity: Activity::ControlWrite,
                tries: CONTROL_TRIES,
                wanted: value,
                ..self
            }
        } else {
            self
        }
    }

    /// One step of setting the line control to `value`: the session after
    /// it, and what it hands back.
    ///
    /// The value is written and read back. Where the two agree, the setting
    /// is done. Where they differ, the FIFOs are reset, the receive buffer is
    /// drained, and the value is written again, as long as tries are left. A
    /// reply that does not answer the request that was made has the request
    /// made again. Where the setting begins, the reply counts for nothing.
    pub open spec fn control_step(self, value: u32, reply: Reply) -> (UartState, Step<()>) {
        let at = self.control_taken_up(value, reply);
        let reply = if self.control_begins(value, reply) {
            Reply::Start
        } else {
            reply
        };
        if at.tries == 0 {
            (at.busy_with(Activity::Idle), Step::Done(()))
        } else {
            match (at.activity, reply) {
                (Activity::ControlWrite, Reply::Written) => (
                    at.busy_with(Activity::ControlVerify),
                    Step::Request(at.uart(UartAccess::ReadLineControlWord)),
                ),
                (Activity::ControlWrite, _) => (
                    at,
                    Step::Request(at.uart(UartAccess::WriteLineControlWord { bits: value })),
                ),
                (Activity::ControlVerify, Reply::Word(found)) => if control_agrees(found, value) {
                    (at.busy_with(Activity::Idle), Step::Done(()))
                } else {
                    (
                        at.busy_with(Activity::ControlReset),
                        Step::Request(
                            at.uart(
                                UartAccess::WriteFifoControl {
                                    enable: true,
                                    reset_rx: true,
                                    reset_tx: true,
                                },
                            ),
                        ),
                    )
                },
                (Activity::ControlVerify, _) => (
                    at,
                    Step::Request(at.uart(UartAccess::ReadLineControlWord)),
                ),
                (Activity::ControlReset, Reply::Written) => (
                    at.busy_with(Activity::ControlDrain),
                    Step::Request(at.uart(UartAccess::ReadReceiveBuffer)),
                ),
                (Activity::ControlReset, _) => (
                    at,
                    Step::Request(
                        at.uart(
                            UartAccess::WriteFifoControl {
                                enable: true,
                                reset_rx: true,
                                reset_tx: true,
                            },
                        ),
                    ),
                ),
                (Activity::ControlDrain, Reply::Word(_)) => if at.tries == 1 {
                    (UartState { activity: Activity::Idle, tries: 0, ..at }, Step::Done(()))
                } else {
                    (
                        UartState {
                            activity: Activity::ControlWrite,
                            tries: (at.tries - 1) as u32,
                            ..at
                        },
                        Step::Request(at.uart(UartAccess::WriteLineControlWord { bits: value })),
                    )
                },
                _ => (at, Step::Request(at.uart(UartAccess::ReadReceiveBuffer))),
            }
        }
    }

    /// A transmission goes on only with a buffer of the length it began with
    /// and begins anew with any other. It sends the bytes in their order, each
    /// after the byte before it was taken: a byte that is written is the one at the cursor,
    /// the cursor moves by one when a write is done and not otherwise, and
    /// the transmission is done without error only past the last byte. An
    /// error on the line ends the transmission at once, with nothing written
    /// for the byte at the cursor.
    pub proof fn lemma_write_in_order(self, data: Seq<u8>, reply: Reply)
        requires
            data.len() <= usize::MAX,
        ensures
            ({
                let at = self.write_taken_up(data.len() as int, reply);
                let (next, step) = self.write_step(data, reply);
                &&& next.phase == self.phase
                &&& next.length == data.len()
                &&& next.in_bounds()
                &&& at.cursor <= next.cursor <= at.cursor + 1
                &&& next.cursor == at.cursor + 1 <==> at.cursor < data.len() && at.activity
                    == Activity::Sending && reply is Written
                &&& step == Step::<Result<(), Error>>::Done(Ok(())) ==> next.cursor >= data.len()
                &&& step matches Step::Request(
                    Request::Uart { access: UartAccess::WriteData { byte }, .. },
                ) ==> next.cursor == at.cursor && at.cursor < data.len() && byte
                    == data[at.cursor as int]
                &&& (!self.write_begins(data.len() as int, reply) && at.cursor < data.len()
                    && at.activity == Activity::CheckLine && reply is LineStatus && line_error(
                    reply->LineStatus_0,
                ) is Some) ==> step
                    == Step::<Result<(), Error>>::Done(Err(line_error(reply->LineStatus_0)->0))
                    && next.cursor == at.cursor
            }),
    {
    }

    /// A reception goes on only with a buffer of the length it began with and
    /// begins anew with any other. It fills the places in their order: a byte is stored only at
    /// the cursor, and only when a word was taken from the data register; the
    /// cursor moves by one then and not otherwise; and the reception is done
    /// only past the last place.
    pub proof fn lemma_read_in_order(self, len: int, reply: Reply)
        requires
            0 <= len <= usize::MAX,
        ensures
            ({
                let at = self.read_taken_up(len, reply);
                let (next, step) = self.read_step(len, reply);
                &&& next.phase == self.phase
                &&& next.length == len
                &&& next.in_bounds()
                &&& at.cursor <= next.cursor <= at.cursor + 1
                &&& next.cursor == at.cursor + 1 <==> self.read_stores(len, reply) is Some
                &&& step is Done ==> next.cursor >= len && step == Step::<
                    Result<(), Error>,
                >::Done(Ok(()))
            }),
    {
    }

    /// Setting the line control ends after no more tries than it is given:
    /// the tries that are left never grow while it is under way, and it is
    /// done when none is left.
    pub proof fn lemma_control_bounded(self, value: u32, reply: Reply)
        ensures
            ({
                let at = self.control_taken_up(value, reply);
                let (next, step) = self.control_step(value, reply);
                &&& next.wanted == value
                &&& next.cursor == self.cursor && next.length == self.length
                &&& next.tries <= at.tries
                &&& next.tries == 0 ==> step is Done
                &&& next.tries < at.tries <==> at.tries > 0 && at.activity
                    == Activity::ControlDrain && reply is Word
            }),
    {
    }

    /// The opening moves only on an answer to the request it waits on, and
    /// then by one phase forward, or back to the write that a check found
    /// undone; it never passes over a phase; an open session stays open; and
    /// an opening that has given up stays where it gave up.
    pub proof fn lemma_opening_in_order(self, reply: Reply)
        ensures
            self.next_phase(reply).rank() <= self.phase.rank() + 1,
            self.next_phase(reply).rank() > self.phase.rank() ==> self.next_phase(reply)
                == self.phase.following(),
            self.opened_by(reply) != self ==> self.answered(reply),
            self.next_phase(reply).rank() < self.phase.rank() ==> self.phase.is_check()
                && self.next_phase(reply) == self.phase.checked_write() && !self.phase.passes(
                reply->LineControl_0,
            ),
            self.phase == Phase::Open ==> self.opened_by(reply) == self,
            self.gave_up ==> self.opened_by(reply) == self,
    {
    }

    /// The opening goes past the wait for the transmitter only on a line
    /// status that shows it empty, so nothing of the controller is written
    /// before. It goes past a check only on a reply that shows what the
    /// check looks for. So the parity is looked at only after the stop bits
    /// read back clear, the latch is opened only after the parity read back
    /// clear, the divisor is written only after the latch read back set, and
    /// the session is open only after the latch read back clear. An opening
    /// that gives up does so at a check whose last try failed, stays there,
    /// and is not open.
    pub proof fn lemma_checks_guard(self, reply: Reply)
        ensures
            ({
                let next = self.opened_by(reply);
                &&& (self.phase.is_check() && next.phase != self.phase && next.phase
                    != self.phase.checked_write()) ==> reply is LineControl && self.phase.passes(
                    reply->LineControl_0,
                ) && next.phase == self.phase.following()
                &&& (next.phase == Phase::DisableInterrupts && self.phase
                    != Phase::DisableInterrupts) ==> self.phase == Phase::AwaitIdle
                    && reply is LineStatus && reply->LineStatus_0.transmitter_empty
                &&& (next.phase == Phase::VerifyParity && self.phase != Phase::VerifyParity)
                    ==> self.phase == Phase::VerifyStop && reply is LineControl
                    && !reply->LineControl_0.stop_bits
                &&& (next.phase == Phase::EnterLatch && self.phase.rank()
                    < Phase::EnterLatch.rank()) ==> self.phase == Phase::VerifyParity
                    && reply is LineControl && !reply->LineControl_0.parity_enable
                &&& (next.phase == Phase::DivisorLow && self.phase != Phase::DivisorLow)
                    ==> self.phase == Phase::VerifyLatch && reply is LineControl
                    && reply->LineControl_0.divisor_latch
                &&& (next.phase == Phase::Open && self.phase != Phase::Open) ==> self.phase
                    == Phase::VerifyLeave && reply is LineControl
                    && !reply->LineControl_0.divisor_latch
                &&& (next.gave_up && !self.gave_up) ==> self.phase.is_check() && next.phase
                    == self.phase && self.opening_tries <= 1 && reply is LineControl
                    && !self.phase.passes(reply->LineControl_0)
                &&& (self.gave_up && self.phase != Phase::Open) ==> next.phase != Phase::Open
            }),
    {
    }

    /// The opening writes the line control again only as often as it has
    /// tries. Going back to a write uses a try up and needs more than one to
    /// be left; a write that the opening comes to from before has them all;
    /// and no other step changes the tries. With none left, a check that
    /// fails ends the opening.
    pub proof fn lemma_opening_tries(self, reply: Reply)
        ensures
            ({
                let next = self.opened_by(reply);
                &&& next.phase.rank() < self.phase.rank() ==> self.opening_tries > 1
                    && next.opening_tries == self.opening_tries - 1
                &&& next.phase.rank() > self.phase.rank() && next.phase.is_checked_write()
                    ==> next.opening_tries == CONTROL_TRIES
                &&& next.phase.rank() >= self.phase.rank() && !next.phase.is_checked_write()
                    ==> next.opening_tries == self.opening_tries
                &&& next.gave_up <==> self.gave_up || (self.answered(reply)
                    && self.phase.is_check() && self.opening_tries <= 1 && !self.phase.passes(
                    reply->LineControl_0,
                ))
                &&& next.gave_up ==> next.pending() is None
            }),
    {
    }

    /// The opening ends. Every step but a wait leaves fewer accesses to ask
    /// for: each answer to the pending request does, unless it is a line
    /// status that shows the transmitter not yet empty; no step leaves more;
    /// and none is left only when the session is open or the opening has
    /// given up. A new session has 11 plus 7 times the tries of a write left.
    /// So a new session is open, or its opening has given up, after at most
    /// that many answered requests beside those of the wait for the
    /// transmitter, however many writes of the line control the hardware
    /// drops.
    pub proof fn lemma_opening_bounded(self, reply: Reply)
        ensures
            self.opened_by(reply).accesses_left() <= self.accesses_left(),
            (self.answered(reply) && !(self.phase == Phase::AwaitIdle
                && !reply->LineStatus_0.transmitter_empty)) ==> self.opened_by(
                reply,
            ).accesses_left() < self.accesses_left(),
            self.accesses_left() == 0 <==> self.phase == Phase::Open || self.gave_up,
            self.accesses_left() == 0 <==> self.pending() is None,
            self.opening_tries <= CONTROL_TRIES ==> self.accesses_left() <= 11 + 7
                * CONTROL_TRIES,
            (self.phase == Phase::TxFunction && !self.gave_up) ==> self.accesses_left() == 11
                + 7 * CONTROL_TRIES,
    {
    }
}

/// A session on serial controller `T`.
pub struct Uart<T: Instance> {
    state: UartState,
    phantom: PhantomData<T>,
}

impl<T: Instance> Uart<T> {
    /// The state of the session.
    pub closed spec fn view(&self) -> UartState {
        self.state
    }

    /// Makes a session on a controller with its two pins. The three handles
    /// are used up. The session is not open yet: [`Uart::open`] drives the
    /// opening.
    pub fn new<TX: pins::TxPin<T>, RX: pins::RxPin<T>>(
        _peri: T,
        tx: TX,
        rx: RX,
        config: Config,
    ) -> (uart: Self)
        requires
            0 < config.baudrate,
            has_control(tx.descriptor()),
            has_control(rx.descriptor()),
        ensures
            uart@ == (UartState {
                port: T::port(),
                tx: SerialPin {
                    mux: mux_of(tx.descriptor()),
                    function: tx.function(),
                    control: control_of(tx.descriptor()),
                },
                rx: SerialPin {
                    mux: mux_of(rx.descriptor()),
                    function: rx.function(),
                    control: control_of(rx.descriptor()),
                },
                divisor: divisor_of(UART_CLOCK as int, config.baudrate as int) as u32,
                phase: Phase::TxFunction,
                opening_tries: CONTROL_TRIES,
                gave_up: false,
                activity: Activity::Idle,
                cursor: 0,
                length: 0,
                tries: 0,
                wanted: 0,
            }),
            uart@.in_bounds(),
            !uart@.is_open(),
    {
        T::enable_and_reset();
        let tx_pin = SerialPin { mux: tx.fmux(), function: tx.af_num(), control: tx.ctrl() };
        let rx_pin = SerialPin { mux: rx.fmux(), function: rx.af_num(), control: rx.ctrl() };
        Self {
            state: UartState {
                port: T::regs(),
                tx: tx_pin,
                rx: rx_pin,
                divisor: divisor(config.baudrate),
                phase: Phase::TxFunction,
                opening_tries: CONTROL_TRIES,
                gave_up: false,
                activity: Activity::Idle,
                cursor: 0,
                length: 0,
                tries: 0,
                wanted: 0,
            },
            phantom: PhantomData,
        }
    }

    /// The state of the session.
    pub fn state(&self) -> (state: UartState)
        ensures
            state == self@,
    {
        self.state
    }

    /// Tells whether the session is open.
    pub fn is_open(&self) -> (open: bool)
        ensures
            open == self@.is_open(),
    {
        matches!(self.state.phase, Phase::Open) && !self.state.gave_up
    }

    /// An access to the session's controller.
    fn access(&self, access: UartAccess) -> (request: Request)
        ensures
            request == self@.uart(access),
    {
        Request::Uart { port: self.state.port, access }
    }

    /// The request that the opening waits on, or that it is done.
    fn opening(&self) -> (step: Step<()>)
        ensures
            step == self@.opening_step(),
    {
        let state = &self.state;
        if state.gave_up {
            return Step::Done(());
        }
        match state.phase {
            Phase::TxFunction => Step::Request(
                Request::SelectFunction { pad: state.tx.mux, function: state.tx.function },
            ),
            Phase::RxFunction => Step::Request(
                Request::SelectFunction { pad: state.rx.mux, function: state.rx.function },
            ),
            Phase::TxPull => Step::Request(
                Request::ModifyPull {
                    control: state.tx.control,
                    pull_up: FieldUpdate::ClearBit,
                    pull_down: FieldUpdate::SetBit,
                },
            ),
            Phase::RxPull => Step::Request(
                Request::ModifyPull {
                    control: state.rx.control,
                    pull_up: FieldUpdate::ClearBit,
                    pull_down: FieldUpdate::SetBit,
                },
            ),
            Phase::AwaitIdle => Step::Request(self.access(UartAccess::ReadLineStatus)),
            Phase::DisableInterrupts => Step::Request(
                self.access(UartAccess::WriteInterruptEnable { bits: 0 }),
            ),
            Phase::AssertModem => Step::Request(
                self.access(UartAccess::WriteModemControl { dtr: true, rts: true }),
            ),
            Phase::ResetFifos => Step::Request(
                self.access(
                    UartAccess::WriteFifoControl { enable: true, reset_rx: true, reset_tx: true },
                ),
            ),
            Phase::SetFormat => Step::Request(
                self.access(
                    UartAccess::ModifyLineControl {
                        word_length: Some(0b11),
                        stop_bits: FieldUpdate::ClearBit,
                        parity_enable: FieldUpdate::ClearBit,
                        divisor_latch: FieldUpdate::Keep,
                    },
                ),
            ),
            Phase::VerifyStop | Phase::VerifyParity | Phase::VerifyLatch | Phase::VerifyLeave => Step::Request(
                self.access(UartAccess::ReadLineControl),
            ),
            Phase::EnterLatch => Step::Request(
                self.access(
                    UartAccess::ModifyLineControl {
                        word_length: None,
                        stop_bits: FieldUpdate::Keep,
                        parity_enable: FieldUpdate::Keep,
                        divisor_latch: FieldUpdate::SetBit,
                    },
                ),
            ),
            Phase::DivisorLow => {
                let divisor: u32 = state.divisor;
                assert((divisor & 0xff) == divisor % 0x100) by (bit_vector);
                Step::Request(
                    self.access(UartAccess::WriteDivisorLow { byte: (divisor & 0xff) as u8 }),
                )
            },
            Phase::DivisorHigh => {
                let divisor: u32 = state.divisor;
                assert(((divisor >> 8) & 0xff) == (divisor / 0x100) % 0x100) by (bit_vector);
                Step::Request(
                    self.access(
                        UartAccess::WriteDivisorHigh { byte: ((divisor >> 8) & 0xff) as u8 },
                    ),
                )
            },
            Phase::EnableFifo => Step::Request(
                self.access(
                    UartAccess::WriteFifoControl {
                        enable: true,
                        reset_rx: false,
                        reset_tx: false,
                    },
                ),
            ),
            Phase::LeaveLatch => Step::Request(
                self.access(
                    UartAccess::ModifyLineControl {
                        word_length: None,
                        stop_bits: FieldUpdate::Keep,
                        parity_enable: FieldUpdate::Keep,
                        divisor_latch: FieldUpdate::ClearBit,
                    },
                ),
            ),
            Phase::Open => Step::Done(()),
        }
    }

    /// Goes one phase on.
    fn advance(&mut self)
        ensures
            final(self)@ == old(self)@.advanced(),
    {
        let next = self.state.phase.next();
        if matches!(next, Phase::SetFormat | Phase::EnterLatch | Phase::LeaveLatch) {
            self.state.opening_tries = CONTROL_TRIES;
        }
        self.state.phase = next;
    }

    /// Settles a check of the line control.
    fn settle(&mut self, passed: bool)
        ensures
            final(self)@ == old(self)@.checked(passed),
    {
        if passed {
            self.advance();
        } else if self.state.opening_tries > 1 {
            self.state.opening_tries = self.state.opening_tries - 1;
            self.state.phase = match self.state.phase {
                Phase::VerifyStop | Phase::VerifyParity => Phase::SetFormat,
                Phase::VerifyLatch => Phase::EnterLatch,
                Phase::VerifyLeave => Phase::LeaveLatch,
                other => other,
            };
        } else {
            self.state.gave_up = true;
        }
    }

    /// Drives the opening of the session by one step. Called with
    /// [`Reply::Start`] it asks for the first access; called with the reply
    /// to the access it asked for, it goes on to the next; it is done when
    /// the session is open or the opening has given up, and
    /// [`Uart::is_open`] tells which.
    ///
    /// In this order, which is kept: the two pins are routed and pulled
    /// down; the transmitter is waited for until it is empty; interrupts are
    /// switched off; the modem-control lines are asserted; the FIFOs are
    /// enabled and reset; the line is set to 8 data bits, no parity and 1
    /// stop bit, and read back; the divisor latch is opened, and read back;
    /// the divisor is written, low byte first; the FIFOs are enabled; the
    /// latch is closed, and read back.
    ///
    /// Each of the three writes that are read back is made again while it
    /// does not read back as written, [`CONTROL_TRIES`] times at most. No
    /// step is taken past a check that has not passed. When a write has used
    /// its tries up and still does not read back, the opening gives up: it
    /// is done without asking for anything more, the session is not open and
    /// cannot be used, and [`UartState::gave_up`] is set. The wait for the
    /// transmitter has no bound.
    pub fn open(&mut self, reply: Reply) -> (step: Step<()>)
        ensures
            final(self)@ == old(self)@.opened_by(reply),
            step == final(self)@.opening_step(),
            step is Done <==> final(self)@.is_open() || final(self)@.gave_up,
            old(self)@.in_bounds() ==> final(self)@.in_bounds(),
    {
        if self.state.gave_up {
            return self.opening();
        }
        match (self.state.phase, reply) {
            (Phase::Open, _) => {},
            (Phase::AwaitIdle, Reply::LineStatus(status)) => {
                if status.transmitter_empty {
                    self.advance();
                }
            },
            (Phase::AwaitIdle, _) => {},
            (Phase::VerifyStop, Reply::LineControl(control)) => {
                self.settle(!control.stop_bits);
            },
            (Phase::VerifyParity, Reply::LineControl(control)) => {
                self.settle(!control.parity_enable);
            },
            (Phase::VerifyLatch, Reply::LineControl(control)) => {
                self.settle(control.divisor_latch);
            },
            (Phase::VerifyLeave, Reply::LineControl(control)) => {
                self.settle(!control.divisor_latch);
            },
            (
                Phase::VerifyStop | Phase::VerifyParity | Phase::VerifyLatch | Phase::VerifyLeave,
                _,
            ) => {},
            (_, Reply::Written) => {
                self.advance();
            },
            (_, _) => {},
        }
        self.opening()
    }

    /// Tells the error that a line status stands for.
    pub fn check_error(&self, status: LineStatus) -> (checked: Result<(), Error>)
        ensures
            checked == line_check(status),
    {
        if status.break_interrupt {
            Err(Error::Framing)
        } else if status.framing {
            Err(Error::Framing)
        } else if status.parity {
            Err(Error::Parity)
        } else if status.overrun {
            Err(Error::Overrun)
        } else {
            Ok(())
        }
    }

    /// Drives the setting of the line control to `val` by one step; see
    /// [`UartState::control_step`]. Called with [`Reply::Start`] it begins;
    /// called with another value than the one it began with, it begins anew.
    pub fn write_lcr(&mut self, val: u32, reply: Reply) -> (step: Step<()>)
        ensures
            (final(self)@, step) == old(self)@.control_step(val, reply),
            old(self)@.in_bounds() ==> final(self)@.in_bounds(),
    {
        let begins = matches!(reply, Reply::Start) || !matches!(
            self.state.activity,
            Activity::ControlWrite | Activity::ControlVerify | Activity::ControlReset
                | Activity::ControlDrain
        ) || self.state.wanted != val;
        if begins {
            self.state.activity = Activity::ControlWrite;
            self.state.tries = CONTROL_TRIES;
            self.state.wanted = val;
        }
        let reply = if begins {
            Reply::Start
        } else {
            reply
        };
        if self.state.tries == 0 {
            self.state.activity = Activity::Idle;
            return Step::Done(());
        }
        let reset = UartAccess::WriteFifoControl { enable: true, reset_rx: true, reset_tx: true };
        match (self.state.activity, reply) {
            (Activity::ControlWrite, Reply::Written) => {
                self.state.activity = Activity::ControlVerify;
                Step::Request(self.access(UartAccess::ReadLineControlWord))
            },
            (Activity::ControlWrite, _) => Step::Request(
                self.access(UartAccess::WriteLineControlWord { bits: val }),
            ),
            (Activity::ControlVerify, Reply::Word(found)) => {
                if found & NON_STKP_MASK == val & NON_STKP_MASK {
                    self.state.activity = Activity::Idle;
                    Step::Done(())
                } else {
                    self.state.activity = Activity::ControlReset;
                    Step::Request(self.access(reset))
                }
            },
            (Activity::ControlVerify, _) => Step::Request(
                self.access(UartAccess::ReadLineControlWord),
            ),
            (Activity::ControlReset, Reply::Written) => {
                self.state.activity = Activity::ControlDrain;
                Step::Request(self.access(UartAccess::ReadReceiveBuffer))
            },
            (Activity::ControlReset, _) => Step::Request(self.access(reset)),
            (Activity::ControlDrain, Reply::Word(_)) => {
                self.state.tries = self.state.tries - 1;
                if self.state.tries == 0 {
                    self.state.activity = Activity::Idle;
                    Step::Done(())
                } else {
                    self.state.activity = Activity::ControlWrite;
                    Step::Request(self.access(UartAccess::WriteLineControlWord { bits: val }))
                }
            },
            _ => Step::Request(self.access(UartAccess::ReadReceiveBuffer)),
        }
    }

    /// Drives the transmission of `buf` by one step; see
    /// [`UartState::write_step`]. Called with [`Reply::Start`] it begins at
    /// the first byte; called with the reply to the access it asked for, it
    /// goes on. Called with a buffer of another length than the one it began
    /// with, it begins anew at the first byte of that buffer.
    pub fn blocking_write(&mut self, buf: &[u8], reply: Reply) -> (step: Step<Result<(), Error>>)
        requires
            old(self)@.is_open(),
        ensures
            (final(self)@, step) == old(self)@.write_step(buf@, reply),
            final(self)@.in_bounds(),
    {
        let begins = matches!(reply, Reply::Start) || !matches!(
            self.state.activity,
            Activity::CheckLine | Activity::AwaitSpace | Activity::Sending
        ) || self.state.length != buf.len() || self.state.cursor > buf.len();
        if begins {
            self.state.activity = Activity::CheckLine;
            self.state.cursor = 0;
            self.state.length = buf.len();
        }
        let reply = if begins {
            Reply::Start
        } else {
            reply
        };
        if self.state.cursor >= buf.len() {
            self.state.activity = Activity::Idle;
            return Step::Done(Ok(()));
        }
        match (self.state.activity, reply) {
            (Activity::CheckLine, Reply::LineStatus(status)) => match self.check_error(status) {
                Err(error) => {
                    self.state.activity = Activity::Idle;
                    Step::Done(Err(error))
                },
                Ok(()) => {
                    self.state.activity = Activity::AwaitSpace;
                    Step::Request(self.access(UartAccess::ReadStatus))
                },
            },
            (Activity::CheckLine, _) => Step::Request(self.access(UartAccess::ReadLineStatus)),
            (Activity::AwaitSpace, Reply::Status(status)) => {
                if status.tx_fifo_not_full {
                    self.state.activity = Activity::Sending;
                    Step::Request(
                        self.access(UartAccess::WriteData { byte: buf[self.state.cursor] }),
                    )
                } else {
                    Step::Request(self.access(UartAccess::ReadStatus))
                }
            },
            (Activity::AwaitSpace, _) => Step::Request(self.access(UartAccess::ReadStatus)),
            (Activity::Sending, Reply::Written) => {
                self.state.cursor = self.state.cursor + 1;
                if self.state.cursor >= buf.len() {
                    self.state.activity = Activity::Idle;
                    Step::Done(Ok(()))
                } else {
                    self.state.activity = Activity::CheckLine;
                    Step::Request(self.access(UartAccess::ReadLineStatus))
                }
            },
            _ => Step::Request(self.access(UartAccess::WriteData { byte: buf[self.state.cursor] })),
        }
    }

    /// Drives a flush by one step: it is done once the status that it is
    /// handed shows the transmit FIFO empty, and asks for the status until
    /// then.
    pub fn blocking_flush(&mut self, reply: Reply) -> (step: Step<Result<(), Error>>)
        requires
            old(self)@.is_open(),
        ensures
            final(self)@ == old(self)@,
            step == old(self)@.flush_step(reply),
    {
        match reply {
            Reply::Status(status) => {
                if status.tx_fifo_empty {
                    Step::Done(Ok(()))
                } else {
                    Step::Request(self.access(UartAccess::ReadStatus))
                }
            },
            _ => Step::Request(self.access(UartAccess::ReadStatus)),
        }
    }

    /// Drives the reception of as many bytes as `buf` has places by one
    /// step; see [`UartState::read_step`]. Called with [`Reply::Start`] it
    /// begins at the first place; called with the reply to the access it
    /// asked for, it goes on. Called with a buffer of another length than the
    /// one it began with, it begins anew at the first place of that buffer. A
    /// byte that was taken is stored at the cursor; every other place of
    /// `buf` keeps what it held.
    pub fn blocking_read(&mut self, buf: &mut [u8], reply: Reply) -> (step: Step<
        Result<(), Error>,
    >)
        requires
            old(self)@.is_open(),
        ensures
            (final(self)@, step) == old(self)@.read_step(old(buf)@.len() as int, reply),
            final(self)@.in_bounds(),
            final(buf)@ == old(self)@.read_leaves(old(buf)@, reply),
    {
        let begins = matches!(reply, Reply::Start) || !matches!(
            self.state.activity,
            Activity::AwaitData | Activity::Receiving
        ) || self.state.length != buf.len() || self.state.cursor > buf.len();
        if begins {
            self.state.activity = Activity::AwaitData;
            self.state.cursor = 0;
            self.state.length = buf.len();
        }
        let reply = if begins {
            Reply::Start
        } else {
            reply
        };
        if self.state.cursor >= buf.len() {
            self.state.activity = Activity::Idle;
            return Step::Done(Ok(()));
        }
        match (self.state.activity, reply) {
            (Activity::AwaitData, Reply::Status(status)) => {
                if status.rx_fifo_not_empty {
                    self.state.activity = Activity::Receiving;
                    Step::Request(self.access(UartAccess::ReadData))
                } else {
                    Step::Request(self.access(UartAccess::ReadStatus))
                }
            },
            (Activity::AwaitData, _) => Step::Request(self.access(UartAccess::ReadStatus)),
            (Activity::Receiving, Reply::Word(word)) => {
                buf[self.state.cursor] = low_byte(word);
                self.state.cursor = self.state.cursor + 1;
                if self.state.cursor >= buf.len() {
                    self.state.activity = Activity::Idle;
                    Step::Done(Ok(()))
                } else {
                    self.state.activity = Activity::AwaitData;
                    Step::Request(self.access(UartAccess::ReadStatus))
                }
            },
            _ => Step::Request(self.access(UartAccess::ReadData)),
        }
    }

    /// Drives the transmission of `buf` by one step, as
    /// [`Uart::blocking_write`] does, and tells at the end how many bytes
    /// were written: all of them.
    pub fn write(&mut self, buf: &[u8], reply: Reply) -> (step: Step<Result<usize, Error>>)
        requires
            old(self)@.is_open(),
        ensures
            final(self)@ == old(self)@.write_step(buf@, reply).0,
            final(self)@.in_bounds(),
            step == counted(old(self)@.write_step(buf@, reply).1, buf@.len() as usize),
    {
        match self.blocking_write(buf, reply) {
            Step::Request(request) => Step::Request(request),
            Step::Done(Ok(())) => Step::Done(Ok(buf.len())),
            Step::Done(Err(error)) => Step::Done(Err(error)),
        }
    }

    /// Drives a flush by one step, as [`Uart::blocking_flush`] does.
    pub fn flush(&mut self, reply: Reply) -> (step: Step<Result<(), Error>>)
        requires
            old(self)@.is_open(),
        ensures
            final(self)@ == old(self)@,
            step == old(self)@.flush_step(reply),
    {
        self.blocking_flush(reply)
    }
}

/// The low byte of a word taken from the data register.
fn low_byte(word: u32) -> (byte: u8)
    ensures
        byte == word % 0x100,
{
    assert((word & 0xff) == word % 0x100) by (bit_vector);
    (word & 0xff) as u8
}

/// The baud divisor of the console: that of 115200 symbols per second.
pub const CONSOLE_DIVISOR: u32 = 14;

/// The console's divisor is the divisor of the controllers' clock for 115200
/// symbols per second.
pub proof fn lemma_console_rate()
    ensures
        divisor_of(UART_CLOCK as int, 115200) == CONSOLE_DIVISOR,
{
    lemma_divisor_is_nearest(UART_CLOCK as int, 115200);
}

/// An access to the console's controller.
pub open spec fn console(access: UartAccess) -> Request {
    Request::Uart { port: UartPort::Uart0, access }
}

/// The requests that set the console up, in their order: the transmit and
/// the receive signal of controller 0 are routed to header pins 12 and 13,
/// the two pads are pulled down, the divisor latch is opened, the divisor is
/// written low byte first, the latch is closed, and the line is set to 8 data
/// bits, no parity and 1 stop bit.
pub open spec fn console_setup() -> Seq<Request> {
    seq![
        Request::SelectFunction { pad: MuxPad { index: 16 }, function: 0 },
        Request::SelectFunction { pad: MuxPad { index: 17 }, function: 0 },
        Request::ModifyPull {
            control: PadControl { block: IoBlock::G7, pin: 3 },
            pull_up: FieldUpdate::Keep,
            pull_down: FieldUpdate::SetBit,
        },
        Request::ModifyPull {
            control: PadControl { block: IoBlock::G7, pin: 4 },
            pull_up: FieldUpdate::Keep,
            pull_down: FieldUpdate::SetBit,
        },
        console(
            UartAccess::ModifyLineControl {
                word_length: None,
                stop_bits: FieldUpdate::Keep,
                parity_enable: FieldUpdate::Keep,
                divisor_latch: FieldUpdate::SetBit,
            },
        ),
        console(UartAccess::WriteDivisorLow { byte: 14 }),
        console(UartAccess::WriteDivisorHigh { byte: 0 }),
        console(
            UartAccess::ModifyLineControl {
                word_length: None,
                stop_bits: FieldUpdate::Keep,
                parity_enable: FieldUpdate::Keep,
                divisor_latch: FieldUpdate::ClearBit,
            },
        ),
        console(
            UartAccess::ModifyLineControl {
                word_length: Some(3u8),
                stop_bits: FieldUpdate::ClearBit,
                parity_enable: FieldUpdate::ClearBit,
                divisor_latch: FieldUpdate::Keep,
            },
        ),
    ]
}

/// The state of the console.
#[derive(Debug, Clone, Copy, PartialEq, Eq, Structural)]
pub struct ConsoleState {
    pub activity: Activity,
    /// How many bytes of the transfer under way, or of the last one, are
    /// done.
    pub cursor: usize,
    /// The length of the buffer that the transfer under way, or the last
    /// one, began with.
    pub length: usize,
}

impl ConsoleState {
    /// Whether the cursor lies within the length of the buffer that the
    /// transfer began with. A new console is so, and every step keeps it so.
    pub open spec fn in_bounds(self) -> bool {
        self.cursor <= self.length
    }

    /// Whether a transmission is under way.
    pub open spec fn transmitting(self) -> bool {
        self.activity == Activity::AwaitHolding || self.activity == Activity::Sending
    }

    /// Whether a reception is under way.
    pub open spec fn receiving(self) -> bool {
        self.activity == Activity::AwaitData || self.activity == Activity::Receiving
    }

    /// The console with another activity.
    pub open spec fn busy_with(self, activity: Activity) -> ConsoleState {
        ConsoleState { activity, ..self }
    }

    /// One step of writing one byte: the status of the line is asked for
    /// until it shows the transmit holding register empty, then the byte is
    /// written, and the write being done ends it.
    pub open spec fn byte_step(data: u8, reply: Reply) -> Step<()> {
        match reply {
            Reply::LineStatus(status) => if status.thr_empty {
                Step::Request(console(UartAccess::WriteData { byte: data }))
            } else {
                Step::Request(console(UartAccess::ReadLineStatus))
            },
            Reply::Written => Step::Done(()),
            _ => Step::Request(console(UartAccess::ReadLineStatus)),
        }
    }

    /// One step of a flush: done once the status of the line shows the
    /// transmit holding register empty; until then it is asked for.
    pub open spec fn flush_step(reply: Reply) -> Step<()> {
        match reply {
            Reply::LineStatus(status) => if status.thr_empty {
                Step::Done(())
            } else {
                Step::Request(console(UartAccess::ReadLineStatus))
            },
            _ => Step::Request(console(UartAccess::ReadLineStatus)),
        }
    }

    /// Whether a call begins a transmission of `len` bytes: it does on
    /// [`Reply::Start`], whenever none is under way, and whenever the one
    /// under way began with another length or has its cursor past it.
    pub open spec fn write_begins(self, len: int, reply: Reply) -> bool {
        reply is Start || !self.transmitting() || self.length != len || self.cursor > len
    }

    /// The console as a transmission of `len` bytes finds it: at the first
    /// byte where the transmission begins, and as it is otherwise.
    pub open spec fn write_taken_up(self, len: int, reply: Reply) -> ConsoleState {
        if self.write_begins(len, reply) {
            ConsoleState { activity: Activity::AwaitHolding, cursor: 0, length: len as usize }
        } else {
            self
        }
    }

    /// One step of writing the bytes `data`: the console after it, and what
    /// it hands back. For each byte in turn the status of the line is asked
    /// for until it shows the transmit holding register empty, and the byte
    /// is written. Where the transmission begins, the reply counts for
    /// nothing.
    pub open spec fn write_step(self, data: Seq<u8>, reply: Reply) -> (ConsoleState, Step<()>) {
        let at = self.write_taken_up(data.len() as int, reply);
        let reply = if self.write_begins(data.len() as int, reply) {
            Reply::Start
        } else {
            reply
        };
        if at.cursor >= data.len() {
            (at.busy_with(Activity::Idle), Step::Done(()))
        } else {
            match (at.activity, reply) {
                (Activity::AwaitHolding, Reply::LineStatus(status)) => if status.thr_empty {
                    (
                        at.busy_with(Activity::Sending),
                        Step::Request(
                            console(UartAccess::WriteData { byte: data[at.cursor as int] }),
                        ),
                    )
                } else {
                    (at, Step::Request(console(UartAccess::ReadLineStatus)))
                },
                (Activity::AwaitHolding, _) => (
                    at,
                    Step::Request(console(UartAccess::ReadLineStatus)),
                ),
                (Activity::Sending, Reply::Written) => if at.cursor + 1 >= data.len() {
                    (
                        ConsoleState { activity: Activity::Idle, cursor: (at.cursor + 1) as usize, ..at },
                        Step::Done(()),
                    )
                } else {
                    (
                        ConsoleState {
                            activity: Activity::AwaitHolding,
                            cursor: (at.cursor + 1) as usize,
                            ..at
                        },
                        Step::Request(console(UartAccess::ReadLineStatus)),
                    )
                },
                _ => (
                    at,
                    Step::Request(console(UartAccess::WriteData { byte: data[at.cursor as int] })),
                ),
            }
        }
    }

    /// Whether a call begins a reception into `len` places: it does on
    /// [`Reply::Start`], whenever none is under way, and whenever the one
    /// under way began with another length or has its cursor past it.
    pub open spec fn read_begins(self, len: int, reply: Reply) -> bool {
        reply is Start || !self.receiving() || self.length != len || self.cursor > len
    }

    /// The console as a reception into `len` places finds it: at the first
    /// place where the reception begins, and as it is otherwise.
    pub open spec fn read_taken_up(self, len: int, reply: Reply) -> ConsoleState {
        if self.read_begins(len, reply) {
            ConsoleState { activity: Activity::AwaitData, cursor: 0, length: len as usize }
        } else {
            self
        }
    }

    /// The byte that one step of a reception into `len` places puts into the
    /// place at the cursor, if it puts one: the low byte of the word taken
    /// from the data register.
    pub open spec fn read_stores(self, len: int, reply: Reply) -> Option<u8> {
        let at = self.read_taken_up(len, reply);
        if at.cursor < len && at.activity == Activity::Receiving && reply is Word {
            Some((reply->Word_0 % 0x100) as u8)
        } else {
            None
        }
    }

    /// What one step of a reception leaves in a buffer that held `held`: a
    /// byte that was taken stands at the cursor, every other place is as it
    /// was.
    pub open spec fn read_leaves(self, held: Seq<u8>, reply: Reply) -> Seq<u8> {
        match self.read_stores(held.len() as int, reply) {
            Some(byte) => held.update(
                self.read_taken_up(held.len() as int, reply).cursor as int,
                byte,
            ),
            None => held,
        }
    }

    /// One step of a reception into `len` places that ends early on the
    /// byte `until`: the console after it, and what it hands back.
    ///
    /// For each place in turn the status word is asked for until its bit 3
    /// shows a byte in the receive FIFO, and the byte is taken. The
    /// reception is done after the byte `until`, which is stored like any
    /// other, or after the last place, and tells how many bytes it stored.
    /// Where the reception begins, the reply counts for nothing.
    pub open spec fn read_until_step(self, len: int, until: u8, reply: Reply) -> (
        ConsoleState,
        Step<Result<usize, ()>>,
    ) {
        let at = self.read_taken_up(len, reply);
        let reply = if self.read_begins(len, reply) {
            Reply::Start
        } else {
            reply
        };
        if at.cursor >= len {
            (at.busy_with(Activity::Idle), Step::Done(Ok(at.cursor)))
        } else {
            match (at.activity, reply) {
                (Activity::AwaitData, Reply::Word(status)) => if bit_is_set(status, 3) {
                    (
                        at.busy_with(Activity::Receiving),
                        Step::Request(console(UartAccess::ReadData)),
                    )
                } else {
                    (at, Step::Request(console(UartAccess::ReadStatusWord)))
                },
                (Activity::AwaitData, _) => (
                    at,
                    Step::Request(console(UartAccess::ReadStatusWord)),
                ),
                (Activity::Receiving, Reply::Word(word)) => if word % 0x100 == until || at.cursor
                    + 1 >= len {
                    (
                        ConsoleState { activity: Activity::Idle, cursor: (at.cursor + 1) as usize, ..at },
                        Step::Done(Ok((at.cursor + 1) as usize)),
                    )
                } else {
                    (
                        ConsoleState {
                            activity: Activity::AwaitData,
                            cursor: (at.cursor + 1) as usize,
                            ..at
                        },
                        Step::Request(console(UartAccess::ReadStatusWord)),
                    )
                },
                _ => (at, Step::Request(console(UartAccess::ReadData))),
            }
        }
    }

    /// A reception stores a byte only at the cursor; the cursor counts the
    /// bytes stored; and the reception is done only after the byte it was
    /// to end on or past the last place, telling the count.
    pub proof fn lemma_read_until_counts(self, len: int, until: u8, reply: Reply)
        requires
            0 <= len <= usize::MAX,
        ensures
            ({
                let at = self.read_taken_up(len, reply);
                let (next, step) = self.read_until_step(len, until, reply);
                &&& next.length == len
                &&& next.in_bounds()
                &&& step is Done ==> step->Done_0 is Ok && step->Done_0->Ok_0 <= len
                &&& at.cursor <= next.cursor <= at.cursor + 1
                &&& next.cursor == at.cursor + 1 <==> self.read_stores(len, reply) is Some
                &&& step is Done ==> step == Step::<Result<usize, ()>>::Done(Ok(next.cursor)) && (
                next.cursor >= len || self.read_stores(len, reply) == Some(until))
                &&& self.read_stores(len, reply) == Some(until) ==> step is Done
            }),
    {
    }
}

/// The console: controller 0 on header pins 12 and 13, at a fixed rate, for
/// output before anything else is set up. It takes no handle.
pub struct Uart0 {
    state: ConsoleState,
}

impl Uart0 {
    /// The state of the console.
    pub closed spec fn view(&self) -> ConsoleState {
        self.state
    }

    /// A console with no transfer under way.
    pub fn new() -> (uart: Self)
        ensures
            uart@ == (ConsoleState { activity: Activity::Idle, cursor: 0, length: 0 }),
            uart@.in_bounds(),
    {
        Uart0 { state: ConsoleState { activity: Activity::Idle, cursor: 0, length: 0 } }
    }

    /// The state of the console.
    pub fn state(&self) -> (state: ConsoleState)
        ensures
            state == self@,
    {
        self.state
    }

    /// The requests that set the console up, to be performed in their
    /// order; see [`console_setup`].
    pub fn init() -> (requests: [Request; 9])
        ensures
            requests@ == console_setup(),
    {
        let gp12_pad: usize = 0x40 / 4;
        let gp13_pad: usize = 0x44 / 4;
        let gp12_pin: usize = 0x0c / 4;
        let gp13_pin: usize = 0x10 / 4;
        let lpdl: u32 = CONSOLE_DIVISOR;
        assert((lpdl & 0xff) == 14 && ((lpdl >> 8) & 0xff) == 0) by (bit_vector)
            requires
                lpdl == 14,
        ;
        let port = UartPort::Uart0;
        let requests = [
            Request::SelectFunction { pad: MuxPad { index: gp12_pad }, function: 0 },
            Request::SelectFunction { pad: MuxPad { index: gp13_pad }, function: 0 },
            Request::ModifyPull {
                control: PadControl { block: IoBlock::G7, pin: gp12_pin },
                pull_up: FieldUpdate::Keep,
                pull_down: FieldUpdate::SetBit,
            },
            Request::ModifyPull {
                control: PadControl { block: IoBlock::G7, pin: gp13_pin },
                pull_up: FieldUpdate::Keep,
                pull_down: FieldUpdate::SetBit,
            },
            Request::Uart {
                port,
                access: UartAccess::ModifyLineControl {
                    word_length: None,
                    stop_bits: FieldUpdate::Keep,
                    parity_enable: FieldUpdate::Keep,
                    divisor_latch: FieldUpdate::SetBit,
                },
            },
            Request::Uart {
                port,
                access: UartAccess::WriteDivisorLow { byte: (lpdl & 0xff) as u8 },
            },
            Request::Uart {
                port,
                access: UartAccess::WriteDivisorHigh { byte: ((lpdl >> 8) & 0xff) as u8 },
            },
            Request::Uart {
                port,
                access: UartAccess::ModifyLineControl {
                    word_length: None,
                    stop_bits: FieldUpdate::Keep,
                    parity_enable: FieldUpdate::Keep,
                    divisor_latch: FieldUpdate::ClearBit,
                },
            },
            Request::Uart {
                port,
                access: UartAccess::ModifyLineControl {
                    word_length: Some(0b11),
                    stop_bits: FieldUpdate::ClearBit,
                    parity_enable: FieldUpdate::ClearBit,
                    divisor_latch: FieldUpdate::Keep,
                },
            },
        ];
        assert(requests@ =~= console_setup());
        requests
    }

    /// An access to the console's controller.
    fn access(access: UartAccess) -> (request: Request)
        ensures
            request == console(access),
    {
        Request::Uart { port: UartPort::Uart0, access }
    }

    /// Drives the writing of one byte by one step; see
    /// [`ConsoleState::byte_step`].
    pub fn write_byte(&mut self, data: u8, reply: Reply) -> (step: Step<()>)
        ensures
            final(self)@ == old(self)@,
            step == ConsoleState::byte_step(data, reply),
    {
        match reply {
            Reply::LineStatus(status) => {
                if status.thr_empty {
                    Step::Request(Self::access(UartAccess::WriteData { byte: data }))
                } else {
                    Step::Request(Self::access(UartAccess::ReadLineStatus))
                }
            },
            Reply::Written => Step::Done(()),
            _ => Step::Request(Self::access(UartAccess::ReadLineStatus)),
        }
    }

    /// Drives a flush by one step; see [`ConsoleState::flush_step`].
    pub fn flush(&mut self, reply: Reply) -> (step: Step<()>)
        ensures
            final(self)@ == old(self)@,
            step == ConsoleState::flush_step(reply),
    {
        match reply {
            Reply::LineStatus(status) => {
                if status.thr_empty {
                    Step::Done(())
                } else {
                    Step::Request(Self::access(UartAccess::ReadLineStatus))
                }
            },
            _ => Step::Request(Self::access(UartAccess::ReadLineStatus)),
        }
    }

    /// Drives a reception that ends early on the byte `until` by one step;
    /// see [`ConsoleState::read_until_step`]. Called with [`Reply::Start`]
    /// it begins at the first place of `buf`; called with a buffer of another
    /// length than the one it began with, it begins anew at the first place
    /// of that buffer. A byte that was taken is stored at the cursor; every
    /// other place of `buf` keeps what it held.
    pub fn read_until(&mut self, buf: &mut [u8], until: u8, reply: Reply) -> (step: Step<
        Result<usize, ()>,
    >)
        ensures
            (final(self)@, step) == old(self)@.read_until_step(
                old(buf)@.len() as int,
                until,
                reply,
            ),
            final(self)@.in_bounds(),
            step is Done ==> step->Done_0 is Ok && step->Done_0->Ok_0 <= old(buf)@.len(),
            final(buf)@ == old(self)@.read_leaves(old(buf)@, reply),
    {
        let begins = matches!(reply, Reply::Start) || !matches!(
            self.state.activity,
            Activity::AwaitData | Activity::Receiving
        ) || self.state.length != buf.len() || self.state.cursor > buf.len();
        if begins {
            self.state.activity = Activity::AwaitData;
            self.state.cursor = 0;
            self.state.length = buf.len();
        }
        let reply = if begins {
            Reply::Start
        } else {
            reply
        };
        if self.state.cursor >= buf.len() {
            self.state.activity = Activity::Idle;
            return Step::Done(Ok(self.state.cursor));
        }
        match (self.state.activity, reply) {
            (Activity::AwaitData, Reply::Word(status)) => {
                assert((status & 0b1000 == 0) == !bit_is_set(status, 3)) by {
                    assert((1u32 << 3u32) == 0b1000u32) by (bit_vector);
                }
                if status & 0b1000 == 0 {
                    Step::Request(Self::access(UartAccess::ReadStatusWord))
                } else {
                    self.state.activity = Activity::Receiving;
                    Step::Request(Self::access(UartAccess::ReadData))
                }
            },
            (Activity::AwaitData, _) => Step::Request(Self::access(UartAccess::ReadStatusWord)),
            (Activity::Receiving, Reply::Word(word)) => {
                let c: u8 = low_byte(word);
                buf[self.state.cursor] = c;
                self.state.cursor = self.state.cursor + 1;
                if c == until || self.state.cursor >= buf.len() {
                    self.state.activity = Activity::Idle;
                    Step::Done(Ok(self.state.cursor))
                } else {
                    self.state.activity = Activity::AwaitData;
                    Step::Request(Self::access(UartAccess::ReadStatusWord))
                }
            },
            _ => Step::Request(Self::access(UartAccess::ReadData)),
        }
    }

    /// Drives the writing of the bytes of `s` by one step; see
    /// [`ConsoleState::write_step`]. Called with [`Reply::Start`] it begins
    /// at the first byte; called with a string of another length than the one
    /// it began with, it begins anew at the first byte of that string.
    pub fn write_str(&mut self, s: &str, reply: Reply) -> (step: Step<()>)
        ensures
            (final(self)@, step) == old(self)@.write_step(s.spec_bytes(), reply),
            final(self)@.in_bounds(),
    {
        let bytes = s.as_bytes();
        let begins = matches!(reply, Reply::Start) || !matches!(
            self.state.activity,
            Activity::AwaitHolding | Activity::Sending
        ) || self.state.length != bytes.len() || self.state.cursor > bytes.len();
        if begins {
            self.state.activity = Activity::AwaitHolding;
            self.state.cursor = 0;
            self.state.length = bytes.len();
        }
        let reply = if begins {
            Reply::Start
        } else {
            reply
        };
        if self.state.cursor >= bytes.len() {
            self.state.activity = Activity::Idle;
            return Step::Done(());
        }
        match (self.state.activity, reply) {
            (Activity::AwaitHolding, Reply::LineStatus(status)) => {
                if status.thr_empty {
                    self.state.activity = Activity::Sending;
                    Step::Request(
                        Self::access(UartAccess::WriteData { byte: bytes[self.state.cursor] }),
                    )
                } else {
                    Step::Request(Self::access(UartAccess::ReadLineStatus))
                }
            },
            (Activity::AwaitHolding, _) => Step::Request(
                Self::access(UartAccess::ReadLineStatus),
            ),
            (Activity::Sending, Reply::Written) => {
                self.state.cursor = self.state.cursor + 1;
                if self.state.cursor >= bytes.len() {
                    self.state.activity = Activity::Idle;
                    Step::Done(())
                } else {
                    self.state.activity = Activity::AwaitHolding;
                    Step::Request(Self::access(UartAccess::ReadLineStatus))
                }
            },
            _ => Step::Request(
                Self::access(UartAccess::WriteData { byte: bytes[self.state.cursor] }),
            ),
        }
    }
}

} // verus!

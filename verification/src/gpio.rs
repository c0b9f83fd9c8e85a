//! GPIO: levels, pulls, the pin capability and the flexible pin driver.

use vstd::prelude::*;
use crate::regs::{BitChange, BitOp, FieldUpdate, GpioRegister, Reply, Request, Step, bit_is_set};
use crate::gpio::sealed::{bank_of, has_bank, has_control, control_of, mux_of, number_of, port_of};

pub mod sealed;
pub mod pins;

verus! {

/// A digital input or output level.
#[derive(Debug, Eq, PartialEq, Clone, Copy, Structural)]
pub enum Level {
    /// Logical low.
    Low,
    /// Logical high.
    High,
}

impl Level {
    /// What driving a pin to this level does to the pin's bit in the data
    /// register.
    pub open spec fn op(self) -> BitOp {
        if self == Level::High {
            BitOp::SetBit
        } else {
            BitOp::ClearBit
        }
    }
}

impl From<bool> for Level {
    fn from(val: bool) -> (level: Self) {
        match val {
            true => Self::High,
            false => Self::Low,
        }
    }
}

impl vstd::std_specs::convert::FromSpecImpl<bool> for Level {
    open spec fn obeys_from_spec() -> bool {
        true
    }

    open spec fn from_spec(val: bool) -> Level {
        if val {
            Level::High
        } else {
            Level::Low
        }
    }
}

impl From<Level> for bool {
    fn from(level: Level) -> (val: bool) {
        match level {
            Level::Low => false,
            Level::High => true,
        }
    }
}

impl vstd::std_specs::convert::FromSpecImpl<Level> for bool {
    open spec fn obeys_from_spec() -> bool {
        true
    }

    open spec fn from_spec(level: Level) -> bool {
        level == Level::High
    }
}

/// A pull setting for an input.
#[derive(Debug, Clone, Copy, Eq, PartialEq, Structural)]
pub enum Pull {
    /// No pull.
    NoPull,
    /// Internal pull-up resistor.
    Up,
    /// Internal pull-down resistor, 100 kOhm.
    Down,
}

impl Pull {
    /// Whether the pull-up bit is set in this mode.
    pub open spec fn pull_up(self) -> bool {
        self == Pull::Up
    }

    /// Whether the pull-down bit is set in this mode.
    pub open spec fn pull_down(self) -> bool {
        self == Pull::Down
    }

    /// What selecting this mode does to the pull-up bit.
    pub open spec fn up_update(self) -> FieldUpdate {
        if self.pull_up() {
            FieldUpdate::SetBit
        } else {
            FieldUpdate::ClearBit
        }
    }

    /// What selecting this mode does to the pull-down bit.
    pub open spec fn down_update(self) -> FieldUpdate {
        if self.pull_down() {
            FieldUpdate::SetBit
        } else {
            FieldUpdate::ClearBit
        }
    }

    /// Whatever the two pull bits held, selecting a mode leaves exactly the
    /// pair of that mode in them, and never both bits set.
    pub proof fn lemma_read_back(self, found_up: bool, found_down: bool)
        ensures
            self.up_update().applied(found_up) == self.pull_up(),
            self.down_update().applied(found_down) == self.pull_down(),
            !(self.pull_up() && self.pull_down()),
    {
    }

    /// Two different modes differ in at least one of the two pull bits.
    pub proof fn lemma_modes_disagree(self, other: Pull)
        requires
            self != other,
        ensures
            self.pull_up() != other.pull_up() || self.pull_down() != other.pull_down(),
    {
    }
}

/// Slew rate of an output.
#[derive(Debug, Eq, PartialEq, Structural)]
pub enum SlewRate {
    /// Fast slew rate.
    Fast,
    /// Slow slew rate.
    Slow,
}

impl SlewRate {
    /// The number that stands for the rate: 0 for fast, 1 for slow.
    pub open spec fn code(self) -> u8 {
        match self {
            SlewRate::Fast => 0,
            SlewRate::Slow => 1,
        }
    }

    /// The number that stands for the rate.
    pub fn number(&self) -> (number: u8)
        ensures
            number == self.code(),
    {
        match self {
            SlewRate::Fast => 0,
            SlewRate::Slow => 1,
        }
    }
}

/// The alternate function that routes the GPIO signal to the pad of a pin:
/// 0 for bits 0 to 2 of the power-domain port, 3 for every other pin.
pub open spec fn gpio_function(descriptor: u32) -> u8 {
    if port_of(descriptor) == 4 && number_of(descriptor) <= 2 {
        0
    } else {
        3
    }
}

/// The capability of a pin: where it sits, and the requests that select its
/// function and its pull.
pub trait Pin: sealed::Pin {
    /// Degrades the pin to a type-erased pin with the same descriptor.
    fn degrade(self) -> (any: AnyPin)
        ensures
            any == AnyPin::erased(self.descriptor()),
            sealed::Pin::descriptor(&any) == self.descriptor(),
    {
        AnyPin { pad_pin_io_num: self.pad_pin_io_num() }
    }

    /// The position of the pin's bit within its bank.
    #[inline]
    fn pin(&self) -> (bit: u8)
        ensures
            bit == number_of(self.descriptor()),
            bit < 32,
    {
        self._ionum()
    }

    /// The number of the pin's bank.
    #[inline]
    fn bank(&self) -> (bank: u8)
        ensures
            bank == port_of(self.descriptor()),
    {
        self._ioport() as u8
    }

    /// The request that selects alternate function `func` for the pin's pad:
    /// one write to the pad's function-select register, which leaves `func`
    /// there whatever was there before.
    #[inline]
    fn set_alt_function(&self, func: u8) -> (request: Request)
        requires
            func <= 7,
        ensures
            request == (Request::SelectFunction { pad: mux_of(self.descriptor()), function: func }),
    {
        Request::SelectFunction { pad: self.fmux(), function: func }
    }

    /// The request that routes the GPIO signal to the pin's pad.
    #[inline]
    fn set_as_gpio(&self) -> (request: Request)
        ensures
            request == (Request::SelectFunction {
                pad: mux_of(self.descriptor()),
                function: gpio_function(self.descriptor()),
            }),
    {
        if self._ioport() == 4 && self._ionum() <= 2 {
            self.set_alt_function(0)
        } else {
            self.set_alt_function(3)
        }
    }

    /// The request that selects a pull for the pin: it sets or clears the
    /// pull-up and the pull-down bit of the pad's configuration register and
    /// keeps the register's other bits.
    #[inline]
    fn set_pull(&self, pull: Pull) -> (request: Request)
        requires
            has_control(self.descriptor()),
        ensures
            request == (Request::ModifyPull {
                control: control_of(self.descriptor()),
                pull_up: pull.up_update(),
                pull_down: pull.down_update(),
            }),
    {
        let control = self.ctrl();
        match pull {
            Pull::NoPull => Request::ModifyPull {
                control,
                pull_up: FieldUpdate::ClearBit,
                pull_down: FieldUpdate::ClearBit,
            },
            Pull::Up => Request::ModifyPull {
                control,
                pull_up: FieldUpdate::SetBit,
                pull_down: FieldUpdate::ClearBit,
            },
            Pull::Down => Request::ModifyPull {
                control,
                pull_up: FieldUpdate::ClearBit,
                pull_down: FieldUpdate::SetBit,
            },
        }
    }
}

/// A type-erased GPIO pin: a descriptor with no static identity.
pub struct AnyPin {
    pad_pin_io_num: u32,
}

impl AnyPin {
    /// The type-erased pin with a descriptor: the one pin whose descriptor
    /// it is.
    pub closed spec fn erased(descriptor: u32) -> AnyPin {
        AnyPin { pad_pin_io_num: descriptor }
    }

    /// A type-erased pin is fixed by its descriptor.
    pub proof fn lemma_erased(self)
        ensures
            self == AnyPin::erased(sealed::Pin::descriptor(&self)),
            forall|descriptor: u32| #[trigger]
                sealed::Pin::descriptor(&AnyPin::erased(descriptor)) == descriptor,
    {
    }

    /// Makes a type-erased pin out of a bare descriptor.
    ///
    /// This goes round the one-time hand-out of pins: nothing stops a second
    /// pin with the same descriptor from being made. Whoever calls it must
    /// see to it that only one pin per descriptor is in use at a time.
    pub fn steal(pad_pin_io_num: u32) -> (pin: Self)
        ensures
            pin == AnyPin::erased(pad_pin_io_num),
            sealed::Pin::descriptor(&pin) == pad_pin_io_num,
    {
        Self { pad_pin_io_num }
    }
}

impl Pin for AnyPin {

}

impl sealed::Pin for AnyPin {
    closed spec fn descriptor(&self) -> u32 {
        self.pad_pin_io_num
    }

    fn pad_pin_io_num(&self) -> (descriptor: u32) {
        self.pad_pin_io_num
    }
}

/// What was last asked of a flexible pin's direction.
#[derive(Debug, Clone, Copy, PartialEq, Eq, Structural)]
pub enum Mode {
    /// No direction was asked for since the pin was wrapped.
    Unconfigured,
    Input,
    Output,
}

/// A flexible GPIO pin: one pin whose direction and level are set at run
/// time. Its methods decide which register access the pin needs; they touch
/// no register themselves.
pub struct Flex {
    pin: AnyPin,
    mode: Mode,
}

impl Flex {
    /// The descriptor of the wrapped pin.
    pub closed spec fn descriptor(&self) -> u32 {
        sealed::Pin::descriptor(&self.pin)
    }

    /// What was last asked of the pin's direction.
    pub closed spec fn mode(&self) -> Mode {
        self.mode
    }

    /// The change of the pin's own bit in a register of its bank.
    pub open spec fn change(&self, register: GpioRegister, op: BitOp) -> Request
        recommends
            has_bank(self.descriptor()),
    {
        Request::GpioModify {
            bank: bank_of(self.descriptor()),
            register,
            change: BitChange { op, bit: number_of(self.descriptor()) as u8 },
        }
    }

    /// The read of a whole register of the pin's bank.
    pub open spec fn read(&self, register: GpioRegister) -> Request
        recommends
            has_bank(self.descriptor()),
    {
        Request::GpioRead { bank: bank_of(self.descriptor()), register }
    }

    /// Whether the pin's own bit is set in a register value.
    pub open spec fn own_bit(&self, value: u32) -> bool {
        bit_is_set(value, number_of(self.descriptor()) as u8)
    }

    /// One step of telling whether the pin's own bit in a register of its
    /// bank is set, where `set` is true, or clear, where it is false. Handed
    /// a register value, the step is done and tells; handed anything else,
    /// it asks for the register.
    pub open spec fn tells(&self, register: GpioRegister, set: bool, reply: Reply) -> Step<bool>
        recommends
            has_bank(self.descriptor()),
    {
        match reply {
            Reply::Word(value) => Step::Done(self.own_bit(value) == set),
            _ => Step::Request(self.read(register)),
        }
    }

    /// What a change of the pin's own bit leaves in a register that held
    /// `value`.
    pub open spec fn left_by(&self, op: BitOp, value: u32) -> u32 {
        (BitChange { op, bit: number_of(self.descriptor()) as u8 }).applied(value)
    }

    /// Setting the pin high twice leaves what setting it once leaves, with
    /// the pin's bit set; the same holds of setting it low, with the bit
    /// clear; and toggling it twice restores the register.
    pub proof fn lemma_level_repeated(&self, value: u32)
        ensures
            self.left_by(BitOp::SetBit, self.left_by(BitOp::SetBit, value)) == self.left_by(
                BitOp::SetBit,
                value,
            ),
            self.own_bit(self.left_by(BitOp::SetBit, value)),
            self.left_by(BitOp::ClearBit, self.left_by(BitOp::ClearBit, value)) == self.left_by(
                BitOp::ClearBit,
                value,
            ),
            !self.own_bit(self.left_by(BitOp::ClearBit, value)),
            self.left_by(BitOp::ToggleBit, self.left_by(BitOp::ToggleBit, value)) == value,
            self.own_bit(self.left_by(BitOp::ToggleBit, value)) == !self.own_bit(value),
    {
        let bit = number_of(self.descriptor()) as u8;
        (BitChange { op: BitOp::SetBit, bit }).lemma_applied_twice(value);
        (BitChange { op: BitOp::ClearBit, bit }).lemma_applied_twice(value);
        (BitChange { op: BitOp::ToggleBit, bit }).lemma_applied_twice(value);
        (BitChange { op: BitOp::SetBit, bit }).lemma_applied_bits(value, bit);
        (BitChange { op: BitOp::ClearBit, bit }).lemma_applied_bits(value, bit);
        (BitChange { op: BitOp::ToggleBit, bit }).lemma_applied_bits(value, bit);
    }

    /// A change of the pin's own bit alters no other bit of the register.
    pub proof fn lemma_other_bits_kept(&self, op: BitOp, value: u32, other: u8)
        requires
            other < 32,
            other != number_of(self.descriptor()),
        ensures
            bit_is_set(self.left_by(op, value), other) == bit_is_set(value, other),
    {
        let bit = number_of(self.descriptor()) as u8;
        (BitChange { op, bit }).lemma_applied_bits(value, other);
    }

    /// Wraps the pin in a `Flex`. The request that comes with it routes the
    /// GPIO signal to the pin's pad and is to be performed before the pin is
    /// used; the direction is left as it is.
    #[inline]
    pub fn new<P: Pin>(pin: P) -> (made: (Self, Request))
        ensures
            made.0.descriptor() == pin.descriptor(),
            made.0.mode() == Mode::Unconfigured,
            made.1 == (Request::SelectFunction {
                pad: mux_of(pin.descriptor()),
                function: gpio_function(pin.descriptor()),
            }),
    {
        let request = pin.set_as_gpio();
        (Self { pin: pin.degrade(), mode: Mode::Unconfigured }, request)
    }

    /// Tells whether the pin's descriptor names a GPIO bank. The methods
    /// that ask for a register of the bank are for such pins only; every pin
    /// that the board declares is one.
    pub fn resolves(&self) -> (resolved: bool)
        ensures
            resolved == has_bank(self.descriptor()),
    {
        sealed::Pin::_ioport(&self.pin) <= 4
    }

    /// Tells what was last asked of the pin's direction.
    pub fn direction(&self) -> (mode: Mode)
        ensures
            mode == self.mode(),
    {
        self.mode
    }

    /// The bank of the wrapped pin, and the position of its bit there.
    fn place(&self) -> (place: (crate::regs::GpioBank, u8))
        requires
            has_bank(self.descriptor()),
        ensures
            place.0 == bank_of(self.descriptor()),
            place.1 == number_of(self.descriptor()),
            place.1 < 32,
    {
        (sealed::Pin::block(&self.pin), self.pin.pin())
    }

    /// Makes the pin an input, whatever it was: clears the pin's bit in the
    /// direction register of its bank.
    #[inline]
    pub fn set_as_input(&mut self) -> (request: Request)
        requires
            has_bank(old(self).descriptor()),
        ensures
            request == old(self).change(GpioRegister::Direction, BitOp::ClearBit),
            final(self).descriptor() == old(self).descriptor(),
            final(self).mode() == Mode::Input,
    {
        let (bank, bit) = self.place();
        self.mode = Mode::Input;
        Request::GpioModify {
            bank,
            register: GpioRegister::Direction,
            change: BitChange { op: BitOp::ClearBit, bit },
        }
    }

    /// Makes the pin an output, whatever it was: sets the pin's bit in the
    /// direction register of its bank.
    #[inline]
    pub fn set_as_output(&mut self) -> (request: Request)
        requires
            has_bank(old(self).descriptor()),
        ensures
            request == old(self).change(GpioRegister::Direction, BitOp::SetBit),
            final(self).descriptor() == old(self).descriptor(),
            final(self).mode() == Mode::Output,
    {
        let (bank, bit) = self.place();
        self.mode = Mode::Output;
        Request::GpioModify {
            bank,
            register: GpioRegister::Direction,
            change: BitChange { op: BitOp::SetBit, bit },
        }
    }

    /// Tells whether the pad is high. See [`Flex::is_low`].
    #[inline]
    pub fn is_high(&self, reply: Reply) -> (step: Step<bool>)
        requires
            has_bank(self.descriptor()),
        ensures
            step == self.tells(GpioRegister::ExtPort, true, reply),
    {
        match self.is_low(reply) {
            Step::Done(low) => Step::Done(!low),
            Step::Request(request) => Step::Request(request),
        }
    }

    /// Tells whether the pad is low, whatever the pin's direction. Called
    /// with anything but a register value it asks for the external-port
    /// register of the pin's bank; called with that value it tells whether
    /// the pin's bit is clear in it.
    #[inline]
    pub fn is_low(&self, reply: Reply) -> (step: Step<bool>)
        requires
            has_bank(self.descriptor()),
        ensures
            step == self.tells(GpioRegister::ExtPort, false, reply),
    {
        let (bank, bit) = self.place();
        match reply {
            Reply::Word(value) => Step::Done(value & (1u32 << (bit as u32)) == 0),
            _ => Step::Request(Request::GpioRead { bank, register: GpioRegister::ExtPort }),
        }
    }

    /// Drives the pin high: sets the pin's bit in the data register of its
    /// bank. The pad follows only while the pin is an output; the request is
    /// the same in every mode.
    #[inline]
    pub fn set_high(&mut self) -> (request: Request)
        requires
            has_bank(old(self).descriptor()),
        ensures
            request == old(self).change(GpioRegister::Data, BitOp::SetBit),
            final(self).descriptor() == old(self).descriptor(),
            final(self).mode() == old(self).mode(),
    {
        let (bank, bit) = self.place();
        Request::GpioModify {
            bank,
            register: GpioRegister::Data,
            change: BitChange { op: BitOp::SetBit, bit },
        }
    }

    /// Drives the pin low: clears the pin's bit in the data register of its
    /// bank. The pad follows only while the pin is an output; the request is
    /// the same in every mode.
    #[inline]
    pub fn set_low(&mut self) -> (request: Request)
        requires
            has_bank(old(self).descriptor()),
        ensures
            request == old(self).change(GpioRegister::Data, BitOp::ClearBit),
            final(self).descriptor() == old(self).descriptor(),
            final(self).mode() == old(self).mode(),
    {
        let (bank, bit) = self.place();
        Request::GpioModify {
            bank,
            register: GpioRegister::Data,
            change: BitChange { op: BitOp::ClearBit, bit },
        }
    }

    /// Drives the pin to `level`; see [`Flex::set_high`] and
    /// [`Flex::set_low`].
    #[inline]
    pub fn set_level(&mut self, level: Level) -> (request: Request)
        requires
            has_bank(old(self).descriptor()),
        ensures
            request == old(self).change(GpioRegister::Data, level.op()),
            final(self).descriptor() == old(self).descriptor(),
            final(self).mode() == old(self).mode(),
    {
        match level {
            Level::Low => self.set_low(),
            Level::High => self.set_high(),
        }
    }

    /// Tells whether the pin was last set low. Called with anything but a
    /// register value it asks for the data register of the pin's bank;
    /// called with that value it tells whether the pin's bit is clear in it.
    #[inline]
    pub fn is_set_low(&self, reply: Reply) -> (step: Step<bool>)
        requires
            has_bank(self.descriptor()),
        ensures
            step == self.tells(GpioRegister::Data, false, reply),
    {
        let (bank, bit) = self.place();
        match reply {
            Reply::Word(value) => Step::Done(value & (1u32 << (bit as u32)) == 0),
            _ => Step::Request(Request::GpioRead { bank, register: GpioRegister::Data }),
        }
    }

    /// Tells whether the pin was last set high. See [`Flex::is_set_low`].
    #[inline]
    pub fn is_set_high(&self, reply: Reply) -> (step: Step<bool>)
        requires
            has_bank(self.descriptor()),
        ensures
            step == self.tells(GpioRegister::Data, true, reply),
    {
        match self.is_set_low(reply) {
            Step::Done(low) => Step::Done(!low),
            Step::Request(request) => Step::Request(request),
        }
    }

    /// Flips the pin's output: one read-modify-write that inverts the pin's
    /// bit in the data register of its bank.
    #[inline]
    pub fn toggle(&mut self) -> (request: Request)
        requires
            has_bank(old(self).descriptor()),
        ensures
            request == old(self).change(GpioRegister::Data, BitOp::ToggleBit),
            final(self).descriptor() == old(self).descriptor(),
            final(self).mode() == old(self).mode(),
    {
        let (bank, bit) = self.place();
        Request::GpioModify {
            bank,
            register: GpioRegister::Data,
            change: BitChange { op: BitOp::ToggleBit, bit },
        }
    }
}

} // verus!

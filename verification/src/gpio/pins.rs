//! The pins of the board and where each of them sits.

use vstd::prelude::*;
use crate::gpio::sealed::{
    bank_of, control_of, descriptor_of, fields_fit, group_of, has_bank, has_control,
    lemma_descriptor_round_trip, mux_of, number_of, pack, pad_of, pin_of, port_of,
};
use crate::gpio::{sealed, AnyPin, Pin};
use crate::peripherals;
use crate::regs::MuxPad;

verus! {

/// How many pins the board declares with a descriptor.
pub const PIN_COUNT: usize = 36;

/// Where a pin sits: the index of its pad in the multiplexer, its
/// pad-control group, the index of its register in that group, its I/O port
/// and its bit within the port.
pub struct Place {
    pub pad: int,
    pub group: int,
    pub pin: int,
    pub port: int,
    pub number: int,
}

impl Place {
    /// The descriptor that packs the place.
    pub open spec fn descriptor(self) -> int {
        descriptor_of(self.pad, self.group, self.pin, self.port, self.number)
    }
}

/// The place of each declared pin, in the order of declaration. The two
/// indices are the byte offsets of the registers divided by 4. The two audio
/// pins have no pad-control register: their group is 0.
pub open spec fn pin_place(index: int) -> Place {
    if index == 0 {
        Place { pad: 0x70int / 4, group: 7, pin: 0x3cint / 4, port: 0, number: 28 }
    } else if index == 1 {
        Place { pad: 0x74int / 4, group: 7, pin: 0x40int / 4, port: 0, number: 29 }
    } else if index == 2 {
        Place { pad: 0x64int / 4, group: 7, pin: 0x30int / 4, port: 0, number: 19 }
    } else if index == 3 {
        Place { pad: 0x68int / 4, group: 7, pin: 0x34int / 4, port: 0, number: 18 }
    } else if index == 4 {
        Place { pad: 0xD4int / 4, group: 13, pin: 0x5Cint / 4, port: 4, number: 19 }
    } else if index == 5 {
        Place { pad: 0xD8int / 4, group: 13, pin: 0x60int / 4, port: 4, number: 20 }
    } else if index == 6 {
        Place { pad: 0xE4int / 4, group: 13, pin: 0x6Cint / 4, port: 4, number: 23 }
    } else if index == 7 {
        Place { pad: 0xE8int / 4, group: 13, pin: 0x68int / 4, port: 4, number: 22 }
    } else if index == 8 {
        Place { pad: 0xDCint / 4, group: 13, pin: 0x64int / 4, port: 4, number: 21 }
    } else if index == 9 {
        Place { pad: 0xD0int / 4, group: 13, pin: 0x58int / 4, port: 4, number: 18 }
    } else if index == 10 {
        Place { pad: 0x1ACint / 4, group: 12, pin: 0x78int / 4, port: 2, number: 14 }
    } else if index == 11 {
        Place { pad: 0x1B0int / 4, group: 12, pin: 0x7Cint / 4, port: 2, number: 15 }
    } else if index == 12 {
        Place { pad: 0x40int / 4, group: 7, pin: 0x0Cint / 4, port: 0, number: 16 }
    } else if index == 13 {
        Place { pad: 0x44int / 4, group: 7, pin: 0x10int / 4, port: 0, number: 17 }
    } else if index == 14 {
        Place { pad: 0x38int / 4, group: 7, pin: 0x04int / 4, port: 0, number: 14 }
    } else if index == 15 {
        Place { pad: 0x3Cint / 4, group: 7, pin: 0x08int / 4, port: 0, number: 15 }
    } else if index == 16 {
        Place { pad: 0x5Cint / 4, group: 7, pin: 0x28int / 4, port: 0, number: 23 }
    } else if index == 17 {
        Place { pad: 0x60int / 4, group: 7, pin: 0x2Cint / 4, port: 0, number: 24 }
    } else if index == 18 {
        Place { pad: 0x50int / 4, group: 7, pin: 0x1Cint / 4, port: 0, number: 22 }
    } else if index == 19 {
        Place { pad: 0x54int / 4, group: 7, pin: 0x20int / 4, port: 0, number: 25 }
    } else if index == 20 {
        Place { pad: 0x58int / 4, group: 7, pin: 0x24int / 4, port: 0, number: 27 }
    } else if index == 21 {
        Place { pad: 0x4Cint / 4, group: 7, pin: 0x18int / 4, port: 0, number: 26 }
    } else if index == 22 {
        Place { pad: 0x88int / 4, group: 13, pin: 0x0Cint / 4, port: 4, number: 4 }
    } else if index == 23 {
        Place { pad: 0xACint / 4, group: 13, pin: 0x34int / 4, port: 4, number: 2 }
    } else if index == 24 {
        Place { pad: 0x1BCint / 4, group: 0, pin: 0x00int / 4, port: 2, number: 23 }
    } else if index == 25 {
        Place { pad: 0x1C8int / 4, group: 0, pin: 0x00int / 4, port: 2, number: 24 }
    } else if index == 26 {
        Place { pad: 0x1Cint / 4, group: 10, pin: 0x00int / 4, port: 0, number: 7 }
    } else if index == 27 {
        Place { pad: 0x20int / 4, group: 10, pin: 0x04int / 4, port: 0, number: 8 }
    } else if index == 28 {
        Place { pad: 0x24int / 4, group: 10, pin: 0x08int / 4, port: 0, number: 9 }
    } else if index == 29 {
        Place { pad: 0x28int / 4, group: 10, pin: 0x0Cint / 4, port: 0, number: 10 }
    } else if index == 30 {
        Place { pad: 0x2Cint / 4, group: 10, pin: 0x10int / 4, port: 0, number: 11 }
    } else if index == 31 {
        Place { pad: 0x30int / 4, group: 10, pin: 0x14int / 4, port: 0, number: 12 }
    } else if index == 32 {
        Place { pad: 0x34int / 4, group: 7, pin: 0x00int / 4, port: 0, number: 13 }
    } else if index == 33 {
        Place { pad: 0x1CCint / 4, group: 12, pin: 0x8Cint / 4, port: 1, number: 23 }
    } else if index == 34 {
        Place { pad: 0xF8int / 4, group: 1, pin: 0x10int / 4, port: 1, number: 3 }
    } else {
        Place { pad: 0x108int / 4, group: 1, pin: 0x20int / 4, port: 1, number: 6 }
    }
}

/// The descriptor of each declared pin, in the order of declaration.
pub open spec fn pin_table(index: int) -> int {
    pin_place(index).descriptor()
}

/// Every declared pin decodes to its place: the five fields of its
/// descriptor are those of the table, its multiplexer pad and its GPIO bank
/// are those that the table names, and so is its pad-control register,
/// unless the pin is one of the two audio pins, which have none.
pub proof fn lemma_declared_pins_decode(index: int)
    requires
        0 <= index < PIN_COUNT,
    ensures
        0 <= pin_table(index) <= u32::MAX,
        pad_of(pin_table(index) as u32) == pin_place(index).pad,
        group_of(pin_table(index) as u32) == pin_place(index).group,
        pin_of(pin_table(index) as u32) == pin_place(index).pin,
        port_of(pin_table(index) as u32) == pin_place(index).port,
        number_of(pin_table(index) as u32) == pin_place(index).number,
        mux_of(pin_table(index) as u32) == (MuxPad { index: pin_place(index).pad as usize }),
        has_bank(pin_table(index) as u32),
        bank_of(pin_table(index) as u32).port() == pin_place(index).port,
        has_control(pin_table(index) as u32) <==> index != 24 && index != 25,
        has_control(pin_table(index) as u32) ==> control_of(pin_table(index) as u32).block.group()
            == pin_place(index).group && control_of(pin_table(index) as u32).pin == pin_place(
            index,
        ).pin,
        !has_control(pin_table(index) as u32) ==> pin_place(index).group == 0,
{
    let place = pin_place(index);
    assert(fields_fit(place.pad, place.group, place.pin, place.port, place.number));
    lemma_descriptor_round_trip(place.pad, place.group, place.pin, place.port, place.number);
}

/// No two declared pins share a descriptor.
pub proof fn lemma_declared_pins_differ(first: int, second: int)
    requires
        0 <= first < second < PIN_COUNT,
    ensures
        pin_table(first) != pin_table(second),
{
    lemma_declared_pins_decode(first);
    lemma_declared_pins_decode(second);
    assert(pin_place(first).pad != pin_place(second).pad);
}

impl Pin for peripherals::PIN_0 {

}

impl sealed::Pin for peripherals::PIN_0 {
    open spec fn descriptor(&self) -> u32 {
        pin_table(0) as u32
    }

    #[inline]
    fn pad_pin_io_num(&self) -> (descriptor: u32) {
        pack(0x70 / 4, 7, 0x3c / 4, 0, 28)
    }
}

impl From<peripherals::PIN_0> for AnyPin {
    fn from(val: peripherals::PIN_0) -> (any: Self) {
        Pin::degrade(val)
    }
}

impl vstd::std_specs::convert::FromSpecImpl<peripherals::PIN_0> for AnyPin {
    open spec fn obeys_from_spec() -> bool {
        true
    }

    open spec fn from_spec(val: peripherals::PIN_0) -> AnyPin {
        AnyPin::erased(pin_table(0) as u32)
    }
}

impl Pin for peripherals::PIN_1 {

}

impl sealed::Pin for peripherals::PIN_1 {
    open spec fn descriptor(&self) -> u32 {
        pin_table(1) as u32
    }

    #[inline]
    fn pad_pin_io_num(&self) -> (descriptor: u32) {
        pack(0x74 / 4, 7, 0x40 / 4, 0, 29)
    }
}

impl From<peripherals::PIN_1> for AnyPin {
    fn from(val: peripherals::PIN_1) -> (any: Self) {
        Pin::degrade(val)
    }
}

impl vstd::std_specs::convert::FromSpecImpl<peripherals::PIN_1> for AnyPin {
    open spec fn obeys_from_spec() -> bool {
        true
    }

    open spec fn from_spec(val: peripherals::PIN_1) -> AnyPin {
        AnyPin::erased(pin_table(1) as u32)
    }
}

impl Pin for peripherals::PIN_2 {

}

impl sealed::Pin for peripherals::PIN_2 {
    open spec fn descriptor(&self) -> u32 {
        pin_table(2) as u32
    }

    #[inline]
    fn pad_pin_io_num(&self) -> (descriptor: u32) {
        pack(0x64 / 4, 7, 0x30 / 4, 0, 19)
    }
}

impl From<peripherals::PIN_2> for AnyPin {
    fn from(val: peripherals::PIN_2) -> (any: Self) {
        Pin::degrade(val)
    }
}

impl vstd::std_specs::convert::FromSpecImpl<peripherals::PIN_2> for AnyPin {
    open spec fn obeys_from_spec() -> bool {
        true
    }

    open spec fn from_spec(val: peripherals::PIN_2) -> AnyPin {
        AnyPin::erased(pin_table(2) as u32)
    }
}

impl Pin for peripherals::PIN_3 {

}

impl sealed::Pin for peripherals::PIN_3 {
    open spec fn descriptor(&self) -> u32 {
        pin_table(3) as u32
    }

    #[inline]
    fn pad_pin_io_num(&self) -> (descriptor: u32) {
        pack(0x68 / 4, 7, 0x34 / 4, 0, 18)
    }
}

impl From<peripherals::PIN_3> for AnyPin {
    fn from(val: peripherals::PIN_3) -> (any: Self) {
        Pin::degrade(val)
    }
}

impl vstd::std_specs::convert::FromSpecImpl<peripherals::PIN_3> for AnyPin {
    open spec fn obeys_from_spec() -> bool {
        true
    }

    open spec fn from_spec(val: peripherals::PIN_3) -> AnyPin {
        AnyPin::erased(pin_table(3) as u32)
    }
}

impl Pin for peripherals::PIN_4 {

}

impl sealed::Pin for peripherals::PIN_4 {
    open spec fn descriptor(&self) -> u32 {
        pin_table(4) as u32
    }

    #[inline]
    fn pad_pin_io_num(&self) -> (descriptor: u32) {
        pack(0xD4 / 4, 13, 0x5C / 4, 4, 19)
    }
}

impl From<peripherals::PIN_4> for AnyPin {
    fn from(val: peripherals::PIN_4) -> (any: Self) {
        Pin::degrade(val)
    }
}

impl vstd::std_specs::convert::FromSpecImpl<peripherals::PIN_4> for AnyPin {
    open spec fn obeys_from_spec() -> bool {
        true
    }

    open spec fn from_spec(val: peripherals::PIN_4) -> AnyPin {
        AnyPin::erased(pin_table(4) as u32)
    }
}

impl Pin for peripherals::PIN_5 {

}

impl sealed::Pin for peripherals::PIN_5 {
    open spec fn descriptor(&self) -> u32 {
        pin_table(5) as u32
    }

    #[inline]
    fn pad_pin_io_num(&self) -> (descriptor: u32) {
        pack(0xD8 / 4, 13, 0x60 / 4, 4, 20)
    }
}

impl From<peripherals::PIN_5> for AnyPin {
    fn from(val: peripherals::PIN_5) -> (any: Self) {
        Pin::degrade(val)
    }
}

impl vstd::std_specs::convert::FromSpecImpl<peripherals::PIN_5> for AnyPin {
    open spec fn obeys_from_spec() -> bool {
        true
    }

    open spec fn from_spec(val: peripherals::PIN_5) -> AnyPin {
        AnyPin::erased(pin_table(5) as u32)
    }
}

impl Pin for peripherals::PIN_6 {

}

impl sealed::Pin for peripherals::PIN_6 {
    open spec fn descriptor(&self) -> u32 {
        pin_table(6) as u32
    }

    #[inline]
    fn pad_pin_io_num(&self) -> (descriptor: u32) {
        pack(0xE4 / 4, 13, 0x6C / 4, 4, 23)
    }
}

impl From<peripherals::PIN_6> for AnyPin {
    fn from(val: peripherals::PIN_6) -> (any: Self) {
        Pin::degrade(val)
    }
}

impl vstd::std_specs::convert::FromSpecImpl<peripherals::PIN_6> for AnyPin {
    open spec fn obeys_from_spec() -> bool {
        true
    }

    open spec fn from_spec(val: peripherals::PIN_6) -> AnyPin {
        AnyPin::erased(pin_table(6) as u32)
    }
}

impl Pin for peripherals::PIN_7 {

}

impl sealed::Pin for peripherals::PIN_7 {
    open spec fn descriptor(&self) -> u32 {
        pin_table(7) as u32
    }

    #[inline]
    fn pad_pin_io_num(&self) -> (descriptor: u32) {
        pack(0xE8 / 4, 13, 0x68 / 4, 4, 22)
    }
}

impl From<peripherals::PIN_7> for AnyPin {
    fn from(val: peripherals::PIN_7) -> (any: Self) {
        Pin::degrade(val)
    }
}

impl vstd::std_specs::convert::FromSpecImpl<peripherals::PIN_7> for AnyPin {
    open spec fn obeys_from_spec() -> bool {
        true
    }

    open spec fn from_spec(val: peripherals::PIN_7) -> AnyPin {
        AnyPin::erased(pin_table(7) as u32)
    }
}

impl Pin for peripherals::PIN_8 {

}

impl sealed::Pin for peripherals::PIN_8 {
    open spec fn descriptor(&self) -> u32 {
        pin_table(8) as u32
    }

    #[inline]
    fn pad_pin_io_num(&self) -> (descriptor: u32) {
        pack(0xDC / 4, 13, 0x64 / 4, 4, 21)
    }
}

impl From<peripherals::PIN_8> for AnyPin {
    fn from(val: peripherals::PIN_8) -> (any: Self) {
        Pin::degrade(val)
    }
}

impl vstd::std_specs::convert::FromSpecImpl<peripherals::PIN_8> for AnyPin {
    open spec fn obeys_from_spec() -> bool {
        true
    }

    open spec fn from_spec(val: peripherals::PIN_8) -> AnyPin {
        AnyPin::erased(pin_table(8) as u32)
    }
}

impl Pin for peripherals::PIN_9 {

}

impl sealed::Pin for peripherals::PIN_9 {
    open spec fn descriptor(&self) -> u32 {
        pin_table(9) as u32
    }

    #[inline]
    fn pad_pin_io_num(&self) -> (descriptor: u32) {
        pack(0xD0 / 4, 13, 0x58 / 4, 4, 18)
    }
}

impl From<peripherals::PIN_9> for AnyPin {
    fn from(val: peripherals::PIN_9) -> (any: Self) {
        Pin::degrade(val)
    }
}

impl vstd::std_specs::convert::FromSpecImpl<peripherals::PIN_9> for AnyPin {
    open spec fn obeys_from_spec() -> bool {
        true
    }

    open spec fn from_spec(val: peripherals::PIN_9) -> AnyPin {
        AnyPin::erased(pin_table(9) as u32)
    }
}

impl Pin for peripherals::PIN_10 {

}

impl sealed::Pin for peripherals::PIN_10 {
    open spec fn descriptor(&self) -> u32 {
        pin_table(10) as u32
    }

    #[inline]
    fn pad_pin_io_num(&self) -> (descriptor: u32) {
        pack(0x1AC / 4, 12, 0x78 / 4, 2, 14)
    }
}

impl From<peripherals::PIN_10> for AnyPin {
    fn from(val: peripherals::PIN_10) -> (any: Self) {
        Pin::degrade(val)
    }
}

impl vstd::std_specs::convert::FromSpecImpl<peripherals::PIN_10> for AnyPin {
    open spec fn obeys_from_spec() -> bool {
        true
    }

    open spec fn from_spec(val: peripherals::PIN_10) -> AnyPin {
        AnyPin::erased(pin_table(10) as u32)
    }
}

impl Pin for peripherals::PIN_11 {

}

impl sealed::Pin for peripherals::PIN_11 {
    open spec fn descriptor(&self) -> u32 {
        pin_table(11) as u32
    }

    #[inline]
    fn pad_pin_io_num(&self) -> (descriptor: u32) {
        pack(0x1B0 / 4, 12, 0x7C / 4, 2, 15)
    }
}

impl From<peripherals::PIN_11> for AnyPin {
    fn from(val: peripherals::PIN_11) -> (any: Self) {
        Pin::degrade(val)
    }
}

impl vstd::std_specs::convert::FromSpecImpl<peripherals::PIN_11> for AnyPin {
    open spec fn obeys_from_spec() -> bool {
        true
    }

    open spec fn from_spec(val: peripherals::PIN_11) -> AnyPin {
        AnyPin::erased(pin_table(11) as u32)
    }
}

impl Pin for peripherals::PIN_12 {

}

impl sealed::Pin for peripherals::PIN_12 {
    open spec fn descriptor(&self) -> u32 {
        pin_table(12) as u32
    }

    #[inline]
    fn pad_pin_io_num(&self) -> (descriptor: u32) {
        pack(0x40 / 4, 7, 0x0C / 4, 0, 16)
    }
}

impl From<peripherals::PIN_12> for AnyPin {
    fn from(val: peripherals::PIN_12) -> (any: Self) {
        Pin::degrade(val)
    }
}

impl vstd::std_specs::convert::FromSpecImpl<peripherals::PIN_12> for AnyPin {
    open spec fn obeys_from_spec() -> bool {
        true
    }

    open spec fn from_spec(val: peripherals::PIN_12) -> AnyPin {
        AnyPin::erased(pin_table(12) as u32)
    }
}

impl Pin for peripherals::PIN_13 {

}

impl sealed::Pin for peripherals::PIN_13 {
    open spec fn descriptor(&self) -> u32 {
        pin_table(13) as u32
    }

    #[inline]
    fn pad_pin_io_num(&self) -> (descriptor: u32) {
        pack(0x44 / 4, 7, 0x10 / 4, 0, 17)
    }
}

impl From<peripherals::PIN_13> for AnyPin {
    fn from(val: peripherals::PIN_13) -> (any: Self) {
        Pin::degrade(val)
    }
}

impl vstd::std_specs::convert::FromSpecImpl<peripherals::PIN_13> for AnyPin {
    open spec fn obeys_from_spec() -> bool {
        true
    }

    open spec fn from_spec(val: peripherals::PIN_13) -> AnyPin {
        AnyPin::erased(pin_table(13) as u32)
    }
}

impl Pin for peripherals::PIN_14 {

}

impl sealed::Pin for peripherals::PIN_14 {
    open spec fn descriptor(&self) -> u32 {
        pin_table(14) as u32
    }

    #[inline]
    fn pad_pin_io_num(&self) -> (descriptor: u32) {
        pack(0x38 / 4, 7, 0x04 / 4, 0, 14)
    }
}

impl From<peripherals::PIN_14> for AnyPin {
    fn from(val: peripherals::PIN_14) -> (any: Self) {
        Pin::degrade(val)
    }
}

impl vstd::std_specs::convert::FromSpecImpl<peripherals::PIN_14> for AnyPin {
    open spec fn obeys_from_spec() -> bool {
        true
    }

    open spec fn from_spec(val: peripherals::PIN_14) -> AnyPin {
        AnyPin::erased(pin_table(14) as u32)
    }
}

impl Pin for peripherals::PIN_15 {

}

impl sealed::Pin for peripherals::PIN_15 {
    open spec fn descriptor(&self) -> u32 {
        pin_table(15) as u32
    }

    #[inline]
    fn pad_pin_io_num(&self) -> (descriptor: u32) {
        pack(0x3C / 4, 7, 0x08 / 4, 0, 15)
    }
}

impl From<peripherals::PIN_15> for AnyPin {
    fn from(val: peripherals::PIN_15) -> (any: Self) {
        Pin::degrade(val)
    }
}

impl vstd::std_specs::convert::FromSpecImpl<peripherals::PIN_15> for AnyPin {
    open spec fn obeys_from_spec() -> bool {
        true
    }

    open spec fn from_spec(val: peripherals::PIN_15) -> AnyPin {
        AnyPin::erased(pin_table(15) as u32)
    }
}

impl Pin for peripherals::PIN_16 {

}

impl sealed::Pin for peripherals::PIN_16 {
    open spec fn descriptor(&self) -> u32 {
        pin_table(16) as u32
    }

    #[inline]
    fn pad_pin_io_num(&self) -> (descriptor: u32) {
        pack(0x5C / 4, 7, 0x28 / 4, 0, 23)
    }
}

impl From<peripherals::PIN_16> for AnyPin {
    fn from(val: peripherals::PIN_16) -> (any: Self) {
        Pin::degrade(val)
    }
}

impl vstd::std_specs::convert::FromSpecImpl<peripherals::PIN_16> for AnyPin {
    open spec fn obeys_from_spec() -> bool {
        true
    }

    open spec fn from_spec(val: peripherals::PIN_16) -> AnyPin {
        AnyPin::erased(pin_table(16) as u32)
    }
}

impl Pin for peripherals::PIN_17 {

}

impl sealed::Pin for peripherals::PIN_17 {
    open spec fn descriptor(&self) -> u32 {
        pin_table(17) as u32
    }

    #[inline]
    fn pad_pin_io_num(&self) -> (descriptor: u32) {
        pack(0x60 / 4, 7, 0x2C / 4, 0, 24)
    }
}

impl From<peripherals::PIN_17> for AnyPin {
    fn from(val: peripherals::PIN_17) -> (any: Self) {
        Pin::degrade(val)
    }
}

impl vstd::std_specs::convert::FromSpecImpl<peripherals::PIN_17> for AnyPin {
    open spec fn obeys_from_spec() -> bool {
        true
    }

    open spec fn from_spec(val: peripherals::PIN_17) -> AnyPin {
        AnyPin::erased(pin_table(17) as u32)
    }
}

impl Pin for peripherals::PIN_18 {

}

impl sealed::Pin for peripherals::PIN_18 {
    open spec fn descriptor(&self) -> u32 {
        pin_table(18) as u32
    }

    #[inline]
    fn pad_pin_io_num(&self) -> (descriptor: u32) {
        pack(0x50 / 4, 7, 0x1C / 4, 0, 22)
    }
}

impl From<peripherals::PIN_18> for AnyPin {
    fn from(val: peripherals::PIN_18) -> (any: Self) {
        Pin::degrade(val)
    }
}

impl vstd::std_specs::convert::FromSpecImpl<peripherals::PIN_18> for AnyPin {
    open spec fn obeys_from_spec() -> bool {
        true
    }

    open spec fn from_spec(val: peripherals::PIN_18) -> AnyPin {
        AnyPin::erased(pin_table(18) as u32)
    }
}

impl Pin for peripherals::PIN_19 {

}

impl sealed::Pin for peripherals::PIN_19 {
    open spec fn descriptor(&self) -> u32 {
        pin_table(19) as u32
    }

    #[inline]
    fn pad_pin_io_num(&self) -> (descriptor: u32) {
        pack(0x54 / 4, 7, 0x20 / 4, 0, 25)
    }
}

impl From<peripherals::PIN_19> for AnyPin {
    fn from(val: peripherals::PIN_19) -> (any: Self) {
        Pin::degrade(val)
    }
}

impl vstd::std_specs::convert::FromSpecImpl<peripherals::PIN_19> for AnyPin {
    open spec fn obeys_from_spec() -> bool {
        true
    }

    open spec fn from_spec(val: peripherals::PIN_19) -> AnyPin {
        AnyPin::erased(pin_table(19) as u32)
    }
}

impl Pin for peripherals::PIN_20 {

}

impl sealed::Pin for peripherals::PIN_20 {
    open spec fn descriptor(&self) -> u32 {
        pin_table(20) as u32
    }

    #[inline]
    fn pad_pin_io_num(&self) -> (descriptor: u32) {
        pack(0x58 / 4, 7, 0x24 / 4, 0, 27)
    }
}

impl From<peripherals::PIN_20> for AnyPin {
    fn from(val: peripherals::PIN_20) -> (any: Self) {
        Pin::degrade(val)
    }
}

impl vstd::std_specs::convert::FromSpecImpl<peripherals::PIN_20> for AnyPin {
    open spec fn obeys_from_spec() -> bool {
        true
    }

    open spec fn from_spec(val: peripherals::PIN_20) -> AnyPin {
        AnyPin::erased(pin_table(20) as u32)
    }
}

impl Pin for peripherals::PIN_21 {

}

impl sealed::Pin for peripherals::PIN_21 {
    open spec fn descriptor(&self) -> u32 {
        pin_table(21) as u32
    }

    #[inline]
    fn pad_pin_io_num(&self) -> (descriptor: u32) {
        pack(0x4C / 4, 7, 0x18 / 4, 0, 26)
    }
}

impl From<peripherals::PIN_21> for AnyPin {
    fn from(val: peripherals::PIN_21) -> (any: Self) {
        Pin::degrade(val)
    }
}

impl vstd::std_specs::convert::FromSpecImpl<peripherals::PIN_21> for AnyPin {
    open spec fn obeys_from_spec() -> bool {
        true
    }

    open spec fn from_spec(val: peripherals::PIN_21) -> AnyPin {
        AnyPin::erased(pin_table(21) as u32)
    }
}

impl Pin for peripherals::PIN_22 {

}

impl sealed::Pin for peripherals::PIN_22 {
    open spec fn descriptor(&self) -> u32 {
        pin_table(22) as u32
    }

    #[inline]
    fn pad_pin_io_num(&self) -> (descriptor: u32) {
        pack(0x88 / 4, 13, 0x0C / 4, 4, 4)
    }
}

impl From<peripherals::PIN_22> for AnyPin {
    fn from(val: peripherals::PIN_22) -> (any: Self) {
        Pin::degrade(val)
    }
}

impl vstd::std_specs::convert::FromSpecImpl<peripherals::PIN_22> for AnyPin {
    open spec fn obeys_from_spec() -> bool {
        true
    }

    open spec fn from_spec(val: peripherals::PIN_22) -> AnyPin {
        AnyPin::erased(pin_table(22) as u32)
    }
}

impl Pin for peripherals::PIN_25 {

}

impl sealed::Pin for peripherals::PIN_25 {
    open spec fn descriptor(&self) -> u32 {
        pin_table(23) as u32
    }

    #[inline]
    fn pad_pin_io_num(&self) -> (descriptor: u32) {
        pack(0xAC / 4, 13, 0x34 / 4, 4, 2)
    }
}

impl From<peripherals::PIN_25> for AnyPin {
    fn from(val: peripherals::PIN_25) -> (any: Self) {
        Pin::degrade(val)
    }
}

impl vstd::std_specs::convert::FromSpecImpl<peripherals::PIN_25> for AnyPin {
    open spec fn obeys_from_spec() -> bool {
        true
    }

    open spec fn from_spec(val: peripherals::PIN_25) -> AnyPin {
        AnyPin::erased(pin_table(23) as u32)
    }
}

impl Pin for peripherals::PIN_MIC_IN {

}

impl sealed::Pin for peripherals::PIN_MIC_IN {
    open spec fn descriptor(&self) -> u32 {
        pin_table(24) as u32
    }

    #[inline]
    fn pad_pin_io_num(&self) -> (descriptor: u32) {
        pack(0x1BC / 4, 0, 0x00 / 4, 2, 23)
    }
}

impl From<peripherals::PIN_MIC_IN> for AnyPin {
    fn from(val: peripherals::PIN_MIC_IN) -> (any: Self) {
        Pin::degrade(val)
    }
}

impl vstd::std_specs::convert::FromSpecImpl<peripherals::PIN_MIC_IN> for AnyPin {
    open spec fn obeys_from_spec() -> bool {
        true
    }

    open spec fn from_spec(val: peripherals::PIN_MIC_IN) -> AnyPin {
        AnyPin::erased(pin_table(24) as u32)
    }
}

impl Pin for peripherals::PIN_AUDIO_OUT {

}

impl sealed::Pin for peripherals::PIN_AUDIO_OUT {
    open spec fn descriptor(&self) -> u32 {
        pin_table(25) as u32
    }

    #[inline]
    fn pad_pin_io_num(&self) -> (descriptor: u32) {
        pack(0x1C8 / 4, 0, 0x00 / 4, 2, 24)
    }
}

impl From<peripherals::PIN_AUDIO_OUT> for AnyPin {
    fn from(val: peripherals::PIN_AUDIO_OUT) -> (any: Self) {
        Pin::degrade(val)
    }
}

impl vstd::std_specs::convert::FromSpecImpl<peripherals::PIN_AUDIO_OUT> for AnyPin {
    open spec fn obeys_from_spec() -> bool {
        true
    }

    open spec fn from_spec(val: peripherals::PIN_AUDIO_OUT) -> AnyPin {
        AnyPin::erased(pin_table(25) as u32)
    }
}

impl Pin for peripherals::PIN_SD0_CLK {

}

impl sealed::Pin for peripherals::PIN_SD0_CLK {
    open spec fn descriptor(&self) -> u32 {
        pin_table(26) as u32
    }

    #[inline]
    fn pad_pin_io_num(&self) -> (descriptor: u32) {
        pack(0x1C / 4, 10, 0x00 / 4, 0, 7)
    }
}

impl From<peripherals::PIN_SD0_CLK> for AnyPin {
    fn from(val: peripherals::PIN_SD0_CLK) -> (any: Self) {
        Pin::degrade(val)
    }
}

impl vstd::std_specs::convert::FromSpecImpl<peripherals::PIN_SD0_CLK> for AnyPin {
    open spec fn obeys_from_spec() -> bool {
        true
    }

    open spec fn from_spec(val: peripherals::PIN_SD0_CLK) -> AnyPin {
        AnyPin::erased(pin_table(26) as u32)
    }
}

impl Pin for peripherals::PIN_SD0_CMD {

}

impl sealed::Pin for peripherals::PIN_SD0_CMD {
    open spec fn descriptor(&self) -> u32 {
        pin_table(27) as u32
    }

    #[inline]
    fn pad_pin_io_num(&self) -> (descriptor: u32) {
        pack(0x20 / 4, 10, 0x04 / 4, 0, 8)
    }
}

impl From<peripherals::PIN_SD0_CMD> for AnyPin {
    fn from(val: peripherals::PIN_SD0_CMD) -> (any: Self) {
        Pin::degrade(val)
    }
}

impl vstd::std_specs::convert::FromSpecImpl<peripherals::PIN_SD0_CMD> for AnyPin {
    open spec fn obeys_from_spec() -> bool {
        true
    }

    open spec fn from_spec(val: peripherals::PIN_SD0_CMD) -> AnyPin {
        AnyPin::erased(pin_table(27) as u32)
    }
}

impl Pin for peripherals::PIN_SD0_D0 {

}

impl sealed::Pin for peripherals::PIN_SD0_D0 {
    open spec fn descriptor(&self) -> u32 {
        pin_table(28) as u32
    }

    #[inline]
    fn pad_pin_io_num(&self) -> (descriptor: u32) {
        pack(0x24 / 4, 10, 0x08 / 4, 0, 9)
    }
}

impl From<peripherals::PIN_SD0_D0> for AnyPin {
    fn from(val: peripherals::PIN_SD0_D0) -> (any: Self) {
        Pin::degrade(val)
    }
}

impl vstd::std_specs::convert::FromSpecImpl<peripherals::PIN_SD0_D0> for AnyPin {
    open spec fn obeys_from_spec() -> bool {
        true
    }

    open spec fn from_spec(val: peripherals::PIN_SD0_D0) -> AnyPin {
        AnyPin::erased(pin_table(28) as u32)
    }
}

impl Pin for peripherals::PIN_SD0_D1 {

}

impl sealed::Pin for peripherals::PIN_SD0_D1 {
    open spec fn descriptor(&self) -> u32 {
        pin_table(29) as u32
    }

    #[inline]
    fn pad_pin_io_num(&self) -> (descriptor: u32) {
        pack(0x28 / 4, 10, 0x0C / 4, 0, 10)
    }
}

impl From<peripherals::PIN_SD0_D1> for AnyPin {
    fn from(val: peripherals::PIN_SD0_D1) -> (any: Self) {
        Pin::degrade(val)
    }
}

impl vstd::std_specs::convert::FromSpecImpl<peripherals::PIN_SD0_D1> for AnyPin {
    open spec fn obeys_from_spec() -> bool {
        true
    }

    open spec fn from_spec(val: peripherals::PIN_SD0_D1) -> AnyPin {
        AnyPin::erased(pin_table(29) as u32)
    }
}

impl Pin for peripherals::PIN_SD0_D2 {

}

impl sealed::Pin for peripherals::PIN_SD0_D2 {
    open spec fn descriptor(&self) -> u32 {
        pin_table(30) as u32
    }

    #[inline]
    fn pad_pin_io_num(&self) -> (descriptor: u32) {
        pack(0x2C / 4, 10, 0x10 / 4, 0, 11)
    }
}

impl From<peripherals::PIN_SD0_D2> for AnyPin {
    fn from(val: peripherals::PIN_SD0_D2) -> (any: Self) {
        Pin::degrade(val)
    }
}

impl vstd::std_specs::convert::FromSpecImpl<peripherals::PIN_SD0_D2> for AnyPin {
    open spec fn obeys_from_spec() -> bool {
        true
    }

    open spec fn from_spec(val: peripherals::PIN_SD0_D2) -> AnyPin {
        AnyPin::erased(pin_table(30) as u32)
    }
}

impl Pin for peripherals::PIN_SD0_D3 {

}

impl sealed::Pin for peripherals::PIN_SD0_D3 {
    open spec fn descriptor(&self) -> u32 {
        pin_table(31) as u32
    }

    #[inline]
    fn pad_pin_io_num(&self) -> (descriptor: u32) {
        pack(0x30 / 4, 10, 0x14 / 4, 0, 12)
    }
}

impl From<peripherals::PIN_SD0_D3> for AnyPin {
    fn from(val: peripherals::PIN_SD0_D3) -> (any: Self) {
        Pin::degrade(val)
    }
}

impl vstd::std_specs::convert::FromSpecImpl<peripherals::PIN_SD0_D3> for AnyPin {
    open spec fn obeys_from_spec() -> bool {
        true
    }

    open spec fn from_spec(val: peripherals::PIN_SD0_D3) -> AnyPin {
        AnyPin::erased(pin_table(31) as u32)
    }
}

impl Pin for peripherals::PIN_SD0_CD {

}

impl sealed::Pin for peripherals::PIN_SD0_CD {
    open spec fn descriptor(&self) -> u32 {
        pin_table(32) as u32
    }

    #[inline]
    fn pad_pin_io_num(&self) -> (descriptor: u32) {
        pack(0x34 / 4, 7, 0x00 / 4, 0, 13)
    }
}

impl From<peripherals::PIN_SD0_CD> for AnyPin {
    fn from(val: peripherals::PIN_SD0_CD) -> (any: Self) {
        Pin::degrade(val)
    }
}

impl vstd::std_specs::convert::FromSpecImpl<peripherals::PIN_SD0_CD> for AnyPin {
    open spec fn obeys_from_spec() -> bool {
        true
    }

    open spec fn from_spec(val: peripherals::PIN_SD0_CD) -> AnyPin {
        AnyPin::erased(pin_table(32) as u32)
    }
}

impl Pin for peripherals::PIN_ARM_RV_SWITCH {

}

impl sealed::Pin for peripherals::PIN_ARM_RV_SWITCH {
    open spec fn descriptor(&self) -> u32 {
        pin_table(33) as u32
    }

    #[inline]
    fn pad_pin_io_num(&self) -> (descriptor: u32) {
        pack(0x1CC / 4, 12, 0x8C / 4, 1, 23)
    }
}

impl From<peripherals::PIN_ARM_RV_SWITCH> for AnyPin {
    fn from(val: peripherals::PIN_ARM_RV_SWITCH) -> (any: Self) {
        Pin::degrade(val)
    }
}

impl vstd::std_specs::convert::FromSpecImpl<peripherals::PIN_ARM_RV_SWITCH> for AnyPin {
    open spec fn obeys_from_spec() -> bool {
        true
    }

    open spec fn from_spec(val: peripherals::PIN_ARM_RV_SWITCH) -> AnyPin {
        AnyPin::erased(pin_table(33) as u32)
    }
}

impl Pin for peripherals::PIN_26 {

}

impl sealed::Pin for peripherals::PIN_26 {
    open spec fn descriptor(&self) -> u32 {
        pin_table(34) as u32
    }

    #[inline]
    fn pad_pin_io_num(&self) -> (descriptor: u32) {
        pack(0xF8 / 4, 1, 0x10 / 4, 1, 3)
    }
}

impl From<peripherals::PIN_26> for AnyPin {
    fn from(val: peripherals::PIN_26) -> (any: Self) {
        Pin::degrade(val)
    }
}

impl vstd::std_specs::convert::FromSpecImpl<peripherals::PIN_26> for AnyPin {
    open spec fn obeys_from_spec() -> bool {
        true
    }

    open spec fn from_spec(val: peripherals::PIN_26) -> AnyPin {
        AnyPin::erased(pin_table(34) as u32)
    }
}

impl Pin for peripherals::PIN_27 {

}

impl sealed::Pin for peripherals::PIN_27 {
    open spec fn descriptor(&self) -> u32 {
        pin_table(35) as u32
    }

    #[inline]
    fn pad_pin_io_num(&self) -> (descriptor: u32) {
        pack(0x108 / 4, 1, 0x20 / 4, 1, 6)
    }
}

impl From<peripherals::PIN_27> for AnyPin {
    fn from(val: peripherals::PIN_27) -> (any: Self) {
        Pin::degrade(val)
    }
}

impl vstd::std_specs::convert::FromSpecImpl<peripherals::PIN_27> for AnyPin {
    open spec fn obeys_from_spec() -> bool {
        true
    }

    open spec fn from_spec(val: peripherals::PIN_27) -> AnyPin {
        AnyPin::erased(pin_table(35) as u32)
    }
}

} // verus!

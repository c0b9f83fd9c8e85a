//! The packed pin descriptor and the resolver from a descriptor to the
//! hardware regions of its pin.

use vstd::prelude::*;
use crate::regs::{GpioBank, IoBlock, MuxPad, PadControl};

verus! {

/// Whether five numbers fit the five fields of a descriptor.
pub open spec fn fields_fit(pad: int, group: int, pin: int, port: int, number: int) -> bool {
    &&& 0 <= pad < 0x100
    &&& 0 <= group < 0x100
    &&& 0 <= pin < 0x100
    &&& 0 <= port < 8
    &&& 0 <= number < 0x20
}

/// The descriptor that packs five fields: the multiplexer pad in bits 31 to
/// 24, the pad-control group in bits 23 to 16, the pad's index in that group
/// in bits 15 to 8, the I/O port in bits 7 to 5 and the bit within the port
/// in bits 4 to 0.
pub open spec fn descriptor_of(pad: int, group: int, pin: int, port: int, number: int) -> int {
    pad * 0x100_0000 + group * 0x1_0000 + pin * 0x100 + port * 0x20 + number
}

/// The multiplexer pad field of a descriptor.
pub open spec fn pad_of(descriptor: u32) -> int {
    descriptor as int / 0x100_0000
}

/// The pad-control group field of a descriptor.
pub open spec fn group_of(descriptor: u32) -> int {
    (descriptor as int / 0x1_0000) % 0x100
}

/// The field of a descriptor that holds the pad's index within its group.
pub open spec fn pin_of(descriptor: u32) -> int {
    (descriptor as int / 0x100) % 0x100
}

/// The I/O port field of a descriptor.
pub open spec fn port_of(descriptor: u32) -> int {
    (descriptor as int / 0x20) % 8
}

/// The field of a descriptor that holds the bit within the port.
pub open spec fn number_of(descriptor: u32) -> int {
    descriptor as int % 0x20
}

/// Whether the port of a descriptor names a GPIO bank.
pub open spec fn has_bank(descriptor: u32) -> bool {
    GpioBank::of_port(port_of(descriptor)) is Some
}

/// Whether the group of a descriptor names a pad-control block.
pub open spec fn has_control(descriptor: u32) -> bool {
    IoBlock::of_group(group_of(descriptor)) is Some
}

/// The GPIO bank that a descriptor with a valid port resolves to.
pub open spec fn bank_of(descriptor: u32) -> GpioBank
    recommends
        has_bank(descriptor),
{
    GpioBank::of_port(port_of(descriptor))->0
}

/// The pad-control register that a descriptor with a valid group resolves
/// to.
pub open spec fn control_of(descriptor: u32) -> PadControl
    recommends
        has_control(descriptor),
{
    PadControl {
        block: IoBlock::of_group(group_of(descriptor))->0,
        pin: pin_of(descriptor) as usize,
    }
}

/// The multiplexer pad that a descriptor resolves to.
pub open spec fn mux_of(descriptor: u32) -> MuxPad {
    MuxPad { index: pad_of(descriptor) as usize }
}

/// Packs five fields into a descriptor.
pub fn pack(pad: u32, group: u32, pin: u32, port: u32, number: u32) -> (descriptor: u32)
    requires
        fields_fit(pad as int, group as int, pin as int, port as int, number as int),
    ensures
        descriptor == descriptor_of(pad as int, group as int, pin as int, port as int, number as int),
{
    assert(pad < 0x100 && group < 0x100 && pin < 0x100 && port < 8 && number < 0x20 ==> ((pad << 24)
        | (group << 16) | (pin << 8) | (port << 5) | number) == pad * 0x100_0000 + group
        * 0x1_0000 + pin * 0x100 + port * 0x20 + number) by (bit_vector);
    (pad << 24) | (group << 16) | (pin << 8) | (port << 5) | number
}

/// Unpacking a descriptor hands back the five fields that were packed.
pub proof fn lemma_descriptor_round_trip(pad: int, group: int, pin: int, port: int, number: int)
    requires
        fields_fit(pad, group, pin, port, number),
    ensures
        0 <= descriptor_of(pad, group, pin, port, number) <= u32::MAX,
        pad_of(descriptor_of(pad, group, pin, port, number) as u32) == pad,
        group_of(descriptor_of(pad, group, pin, port, number) as u32) == group,
        pin_of(descriptor_of(pad, group, pin, port, number) as u32) == pin,
        port_of(descriptor_of(pad, group, pin, port, number) as u32) == port,
        number_of(descriptor_of(pad, group, pin, port, number) as u32) == number,
{
    let a = pad as u32;
    let g = group as u32;
    let p = pin as u32;
    let o = port as u32;
    let n = number as u32;
    let d = descriptor_of(pad, group, pin, port, number) as u32;
    assert(d == a * 0x100_0000 + g * 0x1_0000 + p * 0x100 + o * 0x20 + n);
    assert(a < 0x100 && g < 0x100 && p < 0x100 && o < 8 && n < 0x20 && d == a * 0x100_0000 + g
        * 0x1_0000 + p * 0x100 + o * 0x20 + n ==> d / 0x100_0000 == a && (d / 0x1_0000) % 0x100
        == g && (d / 0x100) % 0x100 == p && (d / 0x20) % 8 == o && d % 0x20 == n)
        by (bit_vector);
}

/// Packing the five fields of a descriptor hands the descriptor back: no
/// two descriptors agree on all five fields.
pub proof fn lemma_fields_determine_descriptor(descriptor: u32)
    ensures
        fields_fit(
            pad_of(descriptor),
            group_of(descriptor),
            pin_of(descriptor),
            port_of(descriptor),
            number_of(descriptor),
        ),
        descriptor_of(
            pad_of(descriptor),
            group_of(descriptor),
            pin_of(descriptor),
            port_of(descriptor),
            number_of(descriptor),
        ) == descriptor,
{
    let d = descriptor;
    assert(d / 0x100_0000 < 0x100 && d == (d / 0x100_0000) * 0x100_0000 + ((d / 0x1_0000) % 0x100)
        * 0x1_0000 + ((d / 0x100) % 0x100) * 0x100 + ((d / 0x20) % 8) * 0x20 + d % 0x20)
        by (bit_vector);
}

/// What the crate implements for every pin that it declares: the pin's
/// descriptor, its fields, and the hardware regions they resolve to.
pub trait Pin: Sized {
    /// The descriptor of the pin.
    spec fn descriptor(&self) -> u32;

    /// The packed descriptor of the pin.
    fn pad_pin_io_num(&self) -> (descriptor: u32)
        ensures
            descriptor == self.descriptor(),
    ;

    /// Index of the pin's pad in the multiplexer.
    #[inline]
    fn _pad(&self) -> (pad: usize)
        ensures
            pad == pad_of(self.descriptor()),
    {
        let d: u32 = self.pad_pin_io_num();
        assert((d >> 24) == d / 0x100_0000) by (bit_vector);
        (d >> 24) as usize
    }

    /// Identifier of the pin's pad-control group.
    #[inline]
    fn _group(&self) -> (group: usize)
        ensures
            group == group_of(self.descriptor()),
    {
        let d: u32 = self.pad_pin_io_num();
        assert(((d >> 16) & 0xff) == (d / 0x1_0000) % 0x100) by (bit_vector);
        ((d >> 16) & 0xff) as usize
    }

    /// Index of the pin's pad within its pad-control group.
    #[inline]
    fn _pin(&self) -> (pin: usize)
        ensures
            pin == pin_of(self.descriptor()),
    {
        let d: u32 = self.pad_pin_io_num();
        assert(((d >> 8) & 0xff) == (d / 0x100) % 0x100) by (bit_vector);
        ((d >> 8) & 0xff) as usize
    }

    /// Number of the pin's I/O port.
    #[inline]
    fn _ioport(&self) -> (port: usize)
        ensures
            port == port_of(self.descriptor()),
    {
        let d: u32 = self.pad_pin_io_num();
        assert(((d & 0xff) >> 5) == (d / 0x20) % 8) by (bit_vector);
        ((d & 0xff) >> 5) as usize
    }

    /// Position of the pin's bit within its I/O port.
    #[inline]
    fn _ionum(&self) -> (number: u8)
        ensures
            number == number_of(self.descriptor()),
    {
        let d: u32 = self.pad_pin_io_num();
        assert((d & 0x1f) == d % 0x20) by (bit_vector);
        (d & 0x1f) as u8
    }

    /// The multiplexer pad that selects the pin's function.
    #[inline]
    fn fmux(&self) -> (pad: MuxPad)
        ensures
            pad == mux_of(self.descriptor()),
    {
        MuxPad { index: self._pad() }
    }

    /// The pad-control register of the pin. A descriptor whose group names
    /// no block is corrupt and must not get here.
    #[inline]
    fn ctrl(&self) -> (control: PadControl)
        requires
            has_control(self.descriptor()),
        ensures
            control == control_of(self.descriptor()),
    {
        let pin: usize = self._pin();
        match self._group() {
            1 => PadControl { block: IoBlock::G1, pin },
            7 => PadControl { block: IoBlock::G7, pin },
            10 => PadControl { block: IoBlock::G10, pin },
            12 => PadControl { block: IoBlock::G12, pin },
            _ => PadControl { block: IoBlock::Rtc, pin },
        }
    }

    /// The GPIO bank of the pin. A descriptor whose port names no bank is
    /// corrupt and must not get here.
    #[inline]
    fn block(&self) -> (bank: GpioBank)
        requires
            has_bank(self.descriptor()),
        ensures
            bank == bank_of(self.descriptor()),
    {
        match self._ioport() {
            0 => GpioBank::Gpio0,
            1 => GpioBank::Gpio1,
            2 => GpioBank::Gpio2,
            3 => GpioBank::Gpio3,
            _ => GpioBank::PwrGpio,
        }
    }
}

} // verus!

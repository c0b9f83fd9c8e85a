//! Board-support core for the Milk-V Duo: pin descriptors, peripheral
//! ownership, and the register-level decisions of the GPIO and UART drivers.
//!
//! Nothing here touches the hardware. A driver names the register access it
//! needs as a [`regs::Request`] and is told the outcome as a [`regs::Reply`];
//! the owner of the memory-mapped registers performs the access in between.

use vstd::prelude::*;

pub mod gpio;
pub mod peripherals;
pub mod regs;
pub mod rom_api;
pub mod sbi;
pub mod signature;
pub mod uart;

verus! {

/// Takes the set of peripheral handles from a registry whose set has not
/// been taken. To call this a second time on one registry is an error of
/// the program; [`peripherals::Peripherals::try_take`] tells instead.
pub fn init(registry: &mut peripherals::Registry) -> (set: peripherals::Peripherals)
    requires
        !old(registry).taken(),
    ensures
        final(registry).taken(),
{
    peripherals::Peripherals::take(registry)
}

} // verus!

//! What the boot ROM reports.

use vstd::prelude::*;

verus! {

/// The medium the chip was booted from.
#[derive(Debug, Clone, Copy, PartialEq, Eq, Structural)]
pub enum BootSrc {
    SpiNand,
    SpiNor,
    Emmc,
    SdCard,
    Usb,
    Uart,
    /// A code that names no known medium.
    Unknown(u32),
}

impl BootSrc {
    /// The code that stands for the medium; of a code that names no known
    /// medium, the code itself.
    pub open spec fn code(self) -> u32 {
        match self {
            BootSrc::SpiNand => 0,
            BootSrc::SpiNor => 2,
            BootSrc::Emmc => 3,
            BootSrc::SdCard => 0xA0,
            BootSrc::Usb => 0xA3,
            BootSrc::Uart => 0xA5,
            BootSrc::Unknown(code) => code,
        }
    }

    /// The code of a medium is the code that names it.
    pub proof fn lemma_code_names(code: u32)
        ensures
            BootSrc::of(code).code() == code,
    {
    }

    /// The code that stands for the medium.
    pub fn number(&self) -> (number: u32)
        ensures
            number == self.code(),
            !(*self is Unknown) ==> BootSrc::of(number) == *self,
    {
        match self {
            BootSrc::SpiNand => 0,
            BootSrc::SpiNor => 2,
            BootSrc::Emmc => 3,
            BootSrc::SdCard => 0xA0,
            BootSrc::Usb => 0xA3,
            BootSrc::Uart => 0xA5,
            BootSrc::Unknown(code) => *code,
        }
    }

    /// The medium that a boot-source code names: 0 is SPI NAND, 2 is SPI NOR,
    /// 3 is eMMC, 0xA0 is the SD card, 0xA3 is USB and 0xA5 is the UART.
    pub open spec fn of(code: u32) -> BootSrc {
        if code == 0 {
            BootSrc::SpiNand
        } else if code == 2 {
            BootSrc::SpiNor
        } else if code == 3 {
            BootSrc::Emmc
        } else if code == 0xA0 {
            BootSrc::SdCard
        } else if code == 0xA3 {
            BootSrc::Usb
        } else if code == 0xA5 {
            BootSrc::Uart
        } else {
            BootSrc::Unknown(code)
        }
    }
}

/// Decodes the word that the boot ROM hands back when asked for the boot
/// source: only its low byte counts.
pub fn get_boot_src(reported: u32) -> (source: BootSrc)
    ensures
        source == BootSrc::of((reported % 0x100) as u32),
{
    assert((reported & 0xFF) == reported % 0x100) by (bit_vector);
    match reported & 0xFF {
        0 => BootSrc::SpiNand,
        2 => BootSrc::SpiNor,
        3 => BootSrc::Emmc,
        0xA0 => BootSrc::SdCard,
        0xA3 => BootSrc::Usb,
        0xA5 => BootSrc::Uart,
        v => BootSrc::Unknown(v),
    }
}

} // verus!

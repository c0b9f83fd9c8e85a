//! Chip identification: what the configuration word and the fuse word of the
//! chip say about its package and its memory.

#![allow(non_camel_case_types)]

use vstd::prelude::*;

verus! {

/// Package the die is mounted in.
#[derive(Copy, Clone, Eq, PartialEq, Ord, PartialOrd, Debug, Structural)]
pub enum ChipPackage {
    Unknown,
    QFN,
    BGA,
}

impl ChipPackage {
    /// The number that stands for the package: 0 for none that is known, 1
    /// for QFN, 2 for BGA.
    pub open spec fn code(self) -> u32 {
        match self {
            ChipPackage::Unknown => 0,
            ChipPackage::QFN => 1,
            ChipPackage::BGA => 2,
        }
    }

    /// The number that stands for the package.
    pub fn number(&self) -> (number: u32)
        ensures
            number == self.code(),
            Self::of(number as int) == *self,
    {
        match self {
            ChipPackage::Unknown => 0b000,
            ChipPackage::QFN => 0b001,
            ChipPackage::BGA => 0b010,
        }
    }

    /// The package that a fuse field names: 1 is QFN, 2 is BGA.
    pub open spec fn of(value: int) -> ChipPackage {
        if value == 1 {
            ChipPackage::QFN
        } else if value == 2 {
            ChipPackage::BGA
        } else {
            ChipPackage::Unknown
        }
    }

    /// Decodes the package field of the fuse word.
    pub fn from_u32(value: u32) -> (package: ChipPackage)
        ensures
            package == Self::of(value as int),
    {
        match value {
            0b001 => ChipPackage::QFN,
            0b010 => ChipPackage::BGA,
            _ => ChipPackage::Unknown,
        }
    }
}

/// Generation of the memory in the package.
#[derive(Copy, Clone, Eq, PartialEq, Ord, PartialOrd, Debug, Structural)]
pub enum DDR_Type {
    DDR2,
    DDR3,
}

impl DDR_Type {
    /// The number of the generation: 2 for DDR2, 3 for DDR3.
    pub open spec fn code(self) -> u32 {
        match self {
            DDR_Type::DDR2 => 2,
            DDR_Type::DDR3 => 3,
        }
    }

    /// The number of the generation.
    pub fn number(&self) -> (number: u32)
        ensures
            number == self.code(),
    {
        match self {
            DDR_Type::DDR2 => 2,
            DDR_Type::DDR3 => 3,
        }
    }
}

/// Size of the memory in the package, in bits.
#[derive(Copy, Clone, Eq, PartialEq, Ord, PartialOrd, Debug, Structural)]
pub enum DDR_Capacity {
    Unknown,
    _512M,
    _1G,
    _2G,
    _4G,
}

impl DDR_Capacity {
    /// The number that stands for the size: 0 for none that is known, then
    /// 1 to 4 for 512 Mbit, 1 Gbit, 2 Gbit and 4 Gbit.
    pub open spec fn code(self) -> u32 {
        match self {
            DDR_Capacity::Unknown => 0,
            DDR_Capacity::_512M => 1,
            DDR_Capacity::_1G => 2,
            DDR_Capacity::_2G => 3,
            DDR_Capacity::_4G => 4,
        }
    }

    /// The number that stands for the size.
    pub fn number(&self) -> (number: u32)
        ensures
            number == self.code(),
    {
        match self {
            DDR_Capacity::Unknown => 0b000,
            DDR_Capacity::_512M => 0b001,
            DDR_Capacity::_1G => 0b010,
            DDR_Capacity::_2G => 0b011,
            DDR_Capacity::_4G => 0b100,
        }
    }
}

/// Maker and size of the memory in the package.
#[derive(Copy, Clone, Eq, PartialEq, Ord, PartialOrd, Debug, Structural)]
pub enum DDR_Vendor {
    Unknown,
    NY_4G,
    NY_2G,
    ESMT_1G,
    ESMT_512M_DDR2,
    ETRON_1G,
    ESMT_2G,
    PM_2G,
    PM_1G,
    ETRON_512M_DDR2,
    ESMT_N25_1G,
}

impl DDR_Vendor {
    /// The number that stands for the part: 0 for none that is known, then
    /// 1 to 10 for the ten known parts in the order of their declaration.
    pub open spec fn code(self) -> u32 {
        match self {
            DDR_Vendor::Unknown => 0,
            DDR_Vendor::NY_4G => 1,
            DDR_Vendor::NY_2G => 2,
            DDR_Vendor::ESMT_1G => 3,
            DDR_Vendor::ESMT_512M_DDR2 => 4,
            DDR_Vendor::ETRON_1G => 5,
            DDR_Vendor::ESMT_2G => 6,
            DDR_Vendor::PM_2G => 7,
            DDR_Vendor::PM_1G => 8,
            DDR_Vendor::ETRON_512M_DDR2 => 9,
            DDR_Vendor::ESMT_N25_1G => 10,
        }
    }

    /// The number that stands for the part.
    pub fn number(&self) -> (number: u32)
        ensures
            number == self.code(),
            Self::of(number as int) == *self,
    {
        match self {
            DDR_Vendor::Unknown => 0b00000,
            DDR_Vendor::NY_4G => 0b00001,
            DDR_Vendor::NY_2G => 0b00010,
            DDR_Vendor::ESMT_1G => 0b00011,
            DDR_Vendor::ESMT_512M_DDR2 => 0b00100,
            DDR_Vendor::ETRON_1G => 0b00101,
            DDR_Vendor::ESMT_2G => 0b00110,
            DDR_Vendor::PM_2G => 0b00111,
            DDR_Vendor::PM_1G => 0b01000,
            DDR_Vendor::ETRON_512M_DDR2 => 0b01001,
            DDR_Vendor::ESMT_N25_1G => 0b01010,
        }
    }

    /// The vendor that a fuse field names: 1 to 10 name the ten known parts
    /// in the order of their declaration, every other value names none.
    pub open spec fn of(value: int) -> DDR_Vendor {
        if value == 1 {
            DDR_Vendor::NY_4G
        } else if value == 2 {
            DDR_Vendor::NY_2G
        } else if value == 3 {
            DDR_Vendor::ESMT_1G
        } else if value == 4 {
            DDR_Vendor::ESMT_512M_DDR2
        } else if value == 5 {
            DDR_Vendor::ETRON_1G
        } else if value == 6 {
            DDR_Vendor::ESMT_2G
        } else if value == 7 {
            DDR_Vendor::PM_2G
        } else if value == 8 {
            DDR_Vendor::PM_1G
        } else if value == 9 {
            DDR_Vendor::ETRON_512M_DDR2
        } else if value == 10 {
            DDR_Vendor::ESMT_N25_1G
        } else {
            DDR_Vendor::Unknown
        }
    }

    /// The memory generation of a part: DDR2 for the two 512 Mbit parts,
    /// DDR3 for all others.
    pub open spec fn generation(self) -> DDR_Type {
        if self == DDR_Vendor::ESMT_512M_DDR2 || self == DDR_Vendor::ETRON_512M_DDR2 {
            DDR_Type::DDR2
        } else {
            DDR_Type::DDR3
        }
    }

    /// The size of a part.
    pub open spec fn capacity(self) -> DDR_Capacity {
        match self {
            DDR_Vendor::NY_4G => DDR_Capacity::_4G,
            DDR_Vendor::NY_2G | DDR_Vendor::ESMT_2G | DDR_Vendor::PM_2G => DDR_Capacity::_2G,
            DDR_Vendor::ESMT_1G
            | DDR_Vendor::ETRON_1G
            | DDR_Vendor::PM_1G
            | DDR_Vendor::ESMT_N25_1G => DDR_Capacity::_1G,
            DDR_Vendor::ESMT_512M_DDR2 | DDR_Vendor::ETRON_512M_DDR2 => DDR_Capacity::_512M,
            DDR_Vendor::Unknown => DDR_Capacity::Unknown,
        }
    }

    /// Decodes the vendor field of the fuse word.
    pub fn from_u32(value: u32) -> (vendor: DDR_Vendor)
        ensures
            vendor == Self::of(value as int),
    {
        match value {
            0b00000 => DDR_Vendor::Unknown,
            0b00001 => DDR_Vendor::NY_4G,
            0b00010 => DDR_Vendor::NY_2G,
            0b00011 => DDR_Vendor::ESMT_1G,
            0b00100 => DDR_Vendor::ESMT_512M_DDR2,
            0b00101 => DDR_Vendor::ETRON_1G,
            0b00110 => DDR_Vendor::ESMT_2G,
            0b00111 => DDR_Vendor::PM_2G,
            0b01000 => DDR_Vendor::PM_1G,
            0b01001 => DDR_Vendor::ETRON_512M_DDR2,
            0b01010 => DDR_Vendor::ESMT_N25_1G,
            _ => DDR_Vendor::Unknown,
        }
    }

    /// The memory generation of the part.
    pub fn ddr_type(&self) -> (generation: DDR_Type)
        ensures
            generation == self.generation(),
    {
        match self {
            DDR_Vendor::ESMT_512M_DDR2 | DDR_Vendor::ETRON_512M_DDR2 => DDR_Type::DDR2,
            _ => DDR_Type::DDR3,
        }
    }

    /// The size of the part.
    pub fn ddr_capacity(&self) -> (capacity: DDR_Capacity)
        ensures
            capacity == self.capacity(),
    {
        match self {
            DDR_Vendor::NY_4G => DDR_Capacity::_4G,
            DDR_Vendor::NY_2G | DDR_Vendor::ESMT_2G | DDR_Vendor::PM_2G => DDR_Capacity::_2G,
            DDR_Vendor::ESMT_1G
            | DDR_Vendor::ETRON_1G
            | DDR_Vendor::PM_1G
            | DDR_Vendor::ESMT_N25_1G => DDR_Capacity::_1G,
            DDR_Vendor::ESMT_512M_DDR2 | DDR_Vendor::ETRON_512M_DDR2 => DDR_Capacity::_512M,
            DDR_Vendor::Unknown => DDR_Capacity::Unknown,
        }
    }
}

/// What is known of the chip.
#[derive(Clone, Eq, PartialEq, Ord, PartialOrd, Debug, Structural)]
pub struct ChipInfo {
    pub ddr_vendor: DDR_Vendor,
    pub ddr_capacity: DDR_Capacity,
    pub ddr_type: DDR_Type,
    pub package: ChipPackage,
    pub chip_id: u32,
}

/// The package-type field of the configuration word, bits 30 to 28.
pub open spec fn package_type(conf_info: u32) -> int {
    (conf_info as int / 0x1000_0000) % 8
}

/// The vendor field of the fuse word, bits 25 to 21.
pub open spec fn fuse_vendor(efuse_leakage: u32) -> int {
    (efuse_leakage as int / 0x20_0000) % 0x20
}

/// The package field of the fuse word, bits 31 to 29.
pub open spec fn fuse_package(efuse_leakage: u32) -> int {
    efuse_leakage as int / 0x2000_0000
}

/// The memory part that the two words name. Package types 0, 1, 2, 5, 6 and
/// 7 fix it; type 4 leaves it to the fuse word; type 3 names none.
pub open spec fn vendor_of(conf_info: u32, efuse_leakage: u32) -> DDR_Vendor {
    let kind = package_type(conf_info);
    if kind == 0 || kind == 5 {
        DDR_Vendor::NY_2G
    } else if kind == 1 {
        DDR_Vendor::NY_4G
    } else if kind == 2 || kind == 6 {
        DDR_Vendor::ESMT_1G
    } else if kind == 7 {
        DDR_Vendor::ESMT_512M_DDR2
    } else if kind == 4 {
        DDR_Vendor::of(fuse_vendor(efuse_leakage))
    } else {
        DDR_Vendor::Unknown
    }
}

/// The package that the two words name. Package types 0, 1 and 2 are BGA,
/// types 5, 6 and 7 are QFN; type 4 leaves it to the fuse word; type 3 names
/// none.
pub open spec fn package_of(conf_info: u32, efuse_leakage: u32) -> ChipPackage {
    let kind = package_type(conf_info);
    if kind == 0 || kind == 1 || kind == 2 {
        ChipPackage::BGA
    } else if kind == 5 || kind == 6 || kind == 7 {
        ChipPackage::QFN
    } else if kind == 4 {
        ChipPackage::of(fuse_package(efuse_leakage))
    } else {
        ChipPackage::Unknown
    }
}

/// The numeric chip identifier of a memory size in a package; 0 where the
/// pair names no chip.
pub open spec fn chip_id_of(capacity: DDR_Capacity, package: ChipPackage) -> u32 {
    match (capacity, package) {
        (DDR_Capacity::_512M, ChipPackage::QFN) => 0x1810c,
        (DDR_Capacity::_512M, ChipPackage::BGA) => 0x1810f,
        (DDR_Capacity::_1G, ChipPackage::QFN) => 0x1811c,
        (DDR_Capacity::_1G, ChipPackage::BGA) => 0x1811f,
        (DDR_Capacity::_2G, ChipPackage::QFN) => 0x1812c,
        (DDR_Capacity::_2G, ChipPackage::BGA) => 0x1812f,
        (DDR_Capacity::_4G, ChipPackage::BGA) => 0x1813f,
        _ => 0,
    }
}

/// What the two words say of the chip: the memory part, its size and its
/// generation, the package, and the identifier of that size in that package.
pub open spec fn chip_info_of(conf_info: u32, efuse_leakage: u32) -> ChipInfo {
    let vendor = vendor_of(conf_info, efuse_leakage);
    let package = package_of(conf_info, efuse_leakage);
    ChipInfo {
        ddr_vendor: vendor,
        ddr_capacity: vendor.capacity(),
        ddr_type: vendor.generation(),
        package,
        chip_id: chip_id_of(vendor.capacity(), package),
    }
}

/// Decodes the chip's configuration word and fuse word, as read from the
/// chip by the caller.
pub fn read_chip_info(conf_info: u32, efuse_leakage: u32) -> (info: ChipInfo)
    ensures
        info == chip_info_of(conf_info, efuse_leakage),
{
    let pkg_type: u32 = (conf_info >> 28) & 0x7;
    assert(((conf_info >> 28) & 0x7) == (conf_info / 0x1000_0000) % 8) by (bit_vector);

    let mut ddr_vendor = DDR_Vendor::from_u32(0);
    let mut ddr_capacity = DDR_Capacity::Unknown;
    let mut ddr_type = DDR_Type::DDR3;
    let mut package = ChipPackage::Unknown;

    match pkg_type {
        0x0 => {
            // BGA 10x10, 2 Gbit DDR3
            ddr_vendor = DDR_Vendor::NY_2G;
            ddr_capacity = DDR_Capacity::_2G;
            package = ChipPackage::BGA;
        },
        0x1 => {
            // BGA 10x10, 4 Gbit DDR3
            ddr_vendor = DDR_Vendor::NY_4G;
            ddr_capacity = DDR_Capacity::_4G;
            package = ChipPackage::BGA;
        },
        0x2 => {
            // BGA 10x10, 1 Gbit DDR3
            ddr_vendor = DDR_Vendor::ESMT_1G;
            ddr_capacity = DDR_Capacity::_1G;
            package = ChipPackage::BGA;
        },
        0x4 => {
            let vendor_field: u32 = (efuse_leakage >> 21) & 0x1F;
            let package_field: u32 = (efuse_leakage >> 29) & 0x7;
            assert(((efuse_leakage >> 21) & 0x1F) == (efuse_leakage / 0x20_0000) % 0x20
                && ((efuse_leakage >> 29) & 0x7) == efuse_leakage / 0x2000_0000)
                by (bit_vector);
            ddr_vendor = DDR_Vendor::from_u32(vendor_field);
            ddr_capacity = ddr_vendor.ddr_capacity();
            ddr_type = ddr_vendor.ddr_type();
            package = ChipPackage::from_u32(package_field);
        },
        0x5 => {
            // QFN 9x9, 2 Gbit DDR3
            ddr_vendor = DDR_Vendor::NY_2G;
            ddr_capacity = DDR_Capacity::_2G;
            package = ChipPackage::QFN;
        },
        0x6 => {
            // QFN 9x9, 1 Gbit DDR3
            ddr_vendor = DDR_Vendor::ESMT_1G;
            ddr_capacity = DDR_Capacity::_1G;
            package = ChipPackage::QFN;
        },
        0x7 => {
            // QFN 9x9, 512 Mbit DDR2
            ddr_vendor = DDR_Vendor::ESMT_512M_DDR2;
            ddr_capacity = DDR_Capacity::_512M;
            ddr_type = DDR_Type::DDR2;
            package = ChipPackage::QFN;
        },
        _ => {},
    }

    let chip_id: u32 = match (ddr_capacity, package) {
        (DDR_Capacity::_512M, ChipPackage::QFN) => 0x1810c,
        (DDR_Capacity::_512M, ChipPackage::BGA) => 0x1810f,
        (DDR_Capacity::_1G, ChipPackage::QFN) => 0x1811c,
        (DDR_Capacity::_1G, ChipPackage::BGA) => 0x1811f,
        (DDR_Capacity::_2G, ChipPackage::QFN) => 0x1812c,
        (DDR_Capacity::_2G, ChipPackage::BGA) => 0x1812f,
        (DDR_Capacity::_4G, ChipPackage::BGA) => 0x1813f,
        _ => 0,
    };

    ChipInfo { ddr_vendor, ddr_capacity, ddr_type, package, chip_id }
}

} // verus!

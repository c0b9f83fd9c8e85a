//! The register map as the drivers see it.
//!
//! A driver never touches a register. It names the hardware region, says what
//! is to be read or written there, and is handed what the hardware answered.
//! Whoever owns the memory-mapped registers performs each [`Request`] and
//! turns the outcome into a [`Reply`].

use vstd::prelude::*;

verus! {

/// A bank of up to 32 pins that share one direction, one data and one input
/// register.
#[derive(Copy, Clone, Debug, PartialEq, Eq, Structural)]
pub enum GpioBank {
    Gpio0,
    Gpio1,
    Gpio2,
    Gpio3,
    /// The bank of the always-on power domain.
    PwrGpio,
}

impl GpioBank {
    /// The bank that an I/O port number selects; ports above 4 select none.
    pub open spec fn of_port(port: int) -> Option<GpioBank> {
        if port == 0 {
            Some(GpioBank::Gpio0)
        } else if port == 1 {
            Some(GpioBank::Gpio1)
        } else if port == 2 {
            Some(GpioBank::Gpio2)
        } else if port == 3 {
            Some(GpioBank::Gpio3)
        } else if port == 4 {
            Some(GpioBank::PwrGpio)
        } else {
            None
        }
    }

    /// The I/O port number of this bank.
    pub open spec fn port(self) -> int {
        match self {
            GpioBank::Gpio0 => 0,
            GpioBank::Gpio1 => 1,
            GpioBank::Gpio2 => 2,
            GpioBank::Gpio3 => 3,
            GpioBank::PwrGpio => 4,
        }
    }

    /// Looks an I/O port number up.
    pub fn from_port(port: usize) -> (bank: Option<GpioBank>)
        ensures
            bank == Self::of_port(port as int),
    {
        match port {
            0 => Some(GpioBank::Gpio0),
            1 => Some(GpioBank::Gpio1),
            2 => Some(GpioBank::Gpio2),
            3 => Some(GpioBank::Gpio3),
            4 => Some(GpioBank::PwrGpio),
            _ => None,
        }
    }

    /// The I/O port number of this bank.
    pub fn number(&self) -> (port: u8)
        ensures
            port == self.port(),
    {
        match self {
            GpioBank::Gpio0 => 0,
            GpioBank::Gpio1 => 1,
            GpioBank::Gpio2 => 2,
            GpioBank::Gpio3 => 3,
            GpioBank::PwrGpio => 4,
        }
    }
}

/// A block of pad-control registers, one register per pad of its group.
#[derive(Copy, Clone, Debug, PartialEq, Eq, Structural)]
pub enum IoBlock {
    G1,
    G7,
    G10,
    G12,
    /// The block of the always-on power domain, group 13.
    Rtc,
}

impl IoBlock {
    /// The block that a group identifier selects; only 1, 7, 10, 12 and 13
    /// select one.
    pub open spec fn of_group(group: int) -> Option<IoBlock> {
        if group == 1 {
            Some(IoBlock::G1)
        } else if group == 7 {
            Some(IoBlock::G7)
        } else if group == 10 {
            Some(IoBlock::G10)
        } else if group == 12 {
            Some(IoBlock::G12)
        } else if group == 13 {
            Some(IoBlock::Rtc)
        } else {
            None
        }
    }

    /// The group identifier of this block.
    pub open spec fn group(self) -> int {
        match self {
            IoBlock::G1 => 1,
            IoBlock::G7 => 7,
            IoBlock::G10 => 10,
            IoBlock::G12 => 12,
            IoBlock::Rtc => 13,
        }
    }

    /// Looks a group identifier up.
    pub fn from_group(group: usize) -> (block: Option<IoBlock>)
        ensures
            block == Self::of_group(group as int),
    {
        match group {
            1 => Some(IoBlock::G1),
            7 => Some(IoBlock::G7),
            10 => Some(IoBlock::G10),
            12 => Some(IoBlock::G12),
            13 => Some(IoBlock::Rtc),
            _ => None,
        }
    }

    /// The group identifier of this block.
    pub fn number(&self) -> (group: u8)
        ensures
            group == self.group(),
    {
        match self {
            IoBlock::G1 => 1,
            IoBlock::G7 => 7,
            IoBlock::G10 => 10,
            IoBlock::G12 => 12,
            IoBlock::Rtc => 13,
        }
    }
}

/// The function-select register of one pad of the pin multiplexer.
#[derive(Copy, Clone, Debug, PartialEq, Eq, Structural)]
pub struct MuxPad {
    /// Index of the pad in the multiplexer's pad array.
    pub index: usize,
}

/// The configuration register of one pad in a pad-control block.
#[derive(Copy, Clone, Debug, PartialEq, Eq, Structural)]
pub struct PadControl {
    pub block: IoBlock,
    /// Index of the pad's register within the block.
    pub pin: usize,
}

/// One of the serial controllers.
#[derive(Copy, Clone, Debug, PartialEq, Eq, Structural)]
pub enum UartPort {
    Uart0,
    Uart1,
    Uart2,
    Uart3,
    Uart4,
}

/// The three registers of a GPIO bank that the driver uses.
#[derive(Copy, Clone, Debug, PartialEq, Eq, Structural)]
pub enum GpioRegister {
    /// One bit per pin: set for output, clear for input.
    Direction,
    /// One bit per pin: the level the pin drives when it is an output.
    Data,
    /// One bit per pin: the level found on the pad.
    ExtPort,
}

/// What a read-modify-write does to one bit of a register.
#[derive(Copy, Clone, Debug, PartialEq, Eq, Structural)]
pub enum BitOp {
    SetBit,
    ClearBit,
    ToggleBit,
}

/// A change of a single bit of a 32-bit register; the other 31 bits keep
/// their value.
#[derive(Copy, Clone, Debug, PartialEq, Eq, Structural)]
pub struct BitChange {
    pub op: BitOp,
    /// Position of the bit, 0 to 31.
    pub bit: u8,
}

/// Whether bit `bit` of `value` is set.
pub open spec fn bit_is_set(value: u32, bit: u8) -> bool {
    value & (1u32 << (bit as u32)) != 0
}

impl BitChange {
    /// The register value that the change leaves, given the value found.
    pub open spec fn applied(self, value: u32) -> u32 {
        match self.op {
            BitOp::SetBit => value | (1u32 << (self.bit as u32)),
            BitOp::ClearBit => value & !(1u32 << (self.bit as u32)),
            BitOp::ToggleBit => value ^ (1u32 << (self.bit as u32)),
        }
    }

    /// Computes the value to write back from the value read.
    pub fn apply(&self, value: u32) -> (written: u32)
        requires
            self.bit < 32,
        ensures
            written == self.applied(value),
    {
        let mask: u32 = 1u32 << (self.bit as u32);
        match self.op {
            BitOp::SetBit => value | mask,
            BitOp::ClearBit => value & !mask,
            BitOp::ToggleBit => value ^ mask,
        }
    }

    /// A change sets, clears or flips its own bit and leaves every other
    /// bit of the register as it was.
    pub proof fn lemma_applied_bits(self, value: u32, other: u8)
        requires
            self.bit < 32,
            other < 32,
        ensures
            other != self.bit ==> bit_is_set(self.applied(value), other) == bit_is_set(
                value,
                other,
            ),
            self.op == BitOp::SetBit ==> bit_is_set(self.applied(value), self.bit),
            self.op == BitOp::ClearBit ==> !bit_is_set(self.applied(value), self.bit),
            self.op == BitOp::ToggleBit ==> bit_is_set(self.applied(value), self.bit)
                == !bit_is_set(value, self.bit),
    {
        let b = self.bit as u32;
        let o = other as u32;
        assert(b < 32 && o < 32 && o != b ==> ((value | (1u32 << b)) & (1u32 << o) != 0) == (value
            & (1u32 << o) != 0) && ((value & !(1u32 << b)) & (1u32 << o) != 0) == (value & (1u32
            << o) != 0) && ((value ^ (1u32 << b)) & (1u32 << o) != 0) == (value & (1u32 << o)
            != 0)) by (bit_vector);
        assert(b < 32 ==> (value | (1u32 << b)) & (1u32 << b) != 0 && (value & !(1u32 << b)) & (
        1u32 << b) == 0 && ((value ^ (1u32 << b)) & (1u32 << b) != 0) == (value & (1u32 << b)
            == 0)) by (bit_vector);
    }

    /// Setting or clearing a bit a second time changes nothing, and flipping
    /// it a second time restores the register.
    pub proof fn lemma_applied_twice(self, value: u32)
        requires
            self.bit < 32,
        ensures
            self.op != BitOp::ToggleBit ==> self.applied(self.applied(value)) == self.applied(
                value,
            ),
            self.op == BitOp::ToggleBit ==> self.applied(self.applied(value)) == value,
    {
        let b = self.bit as u32;
        assert(b < 32 ==> ((value | (1u32 << b)) | (1u32 << b)) == (value | (1u32 << b)) && ((value
            & !(1u32 << b)) & !(1u32 << b)) == (value & !(1u32 << b)) && ((value ^ (1u32 << b)) ^ (
        1u32 << b)) == value) by (bit_vector);
    }
}

/// What a read-modify-write does to a one-bit field of a register.
#[derive(Copy, Clone, Debug, PartialEq, Eq, Structural)]
pub enum FieldUpdate {
    /// The field keeps the value that was read.
    Keep,
    SetBit,
    ClearBit,
}

impl FieldUpdate {
    /// The value of the field after the update, given the value found.
    pub open spec fn applied(self, found: bool) -> bool {
        match self {
            FieldUpdate::Keep => found,
            FieldUpdate::SetBit => true,
            FieldUpdate::ClearBit => false,
        }
    }

    /// Computes the value of the field after the update.
    pub fn apply(&self, found: bool) -> (left: bool)
        ensures
            left == self.applied(found),
    {
        match self {
            FieldUpdate::Keep => found,
            FieldUpdate::SetBit => true,
            FieldUpdate::ClearBit => false,
        }
    }
}

/// The flags of a serial controller's line-status register.
#[derive(Copy, Clone, Debug, PartialEq, Eq, Structural)]
pub struct LineStatus {
    pub overrun: bool,
    pub parity: bool,
    pub framing: bool,
    pub break_interrupt: bool,
    /// The transmit holding register is empty.
    pub thr_empty: bool,
    /// The transmit holding register and the shift register are both empty.
    pub transmitter_empty: bool,
}

/// The flags of a serial controller's status register.
#[derive(Copy, Clone, Debug, PartialEq, Eq, Structural)]
pub struct UartStatus {
    pub tx_fifo_not_full: bool,
    pub tx_fifo_empty: bool,
    pub rx_fifo_not_empty: bool,
}

/// The fields of a serial controller's line-control register.
#[derive(Copy, Clone, Debug, PartialEq, Eq, Structural)]
pub struct LineControl {
    /// Word-length select; 3 stands for 8 data bits.
    pub word_length: u8,
    /// Set for the longer stop, clear for 1 stop bit.
    pub stop_bits: bool,
    pub parity_enable: bool,
    /// While set, the divisor bytes stand in place of the data registers.
    pub divisor_latch: bool,
}

/// An access to a register of a serial controller.
#[derive(Copy, Clone, Debug, PartialEq, Eq, Structural)]
pub enum UartAccess {
    /// Read the line-status register; answered by [`Reply::LineStatus`].
    ReadLineStatus,
    /// Read the status register; answered by [`Reply::Status`].
    ReadStatus,
    /// Read the status register whole; answered by [`Reply::Word`].
    ReadStatusWord,
    /// Read the line-control register; answered by [`Reply::LineControl`].
    ReadLineControl,
    /// Read the line-control register whole; answered by [`Reply::Word`].
    ReadLineControlWord,
    /// Take one word from the receive side of the data register; answered by
    /// [`Reply::Word`].
    ReadData,
    /// Read the receive buffer register to drain it; answered by
    /// [`Reply::Word`].
    ReadReceiveBuffer,
    /// Write the interrupt-enable register whole.
    WriteInterruptEnable { bits: u32 },
    /// Write the modem-control register: the two lines as given, every other
    /// field at its reset value.
    WriteModemControl { dtr: bool, rts: bool },
    /// Write the FIFO-control register: the three fields as given, every
    /// other field at its reset value.
    WriteFifoControl { enable: bool, reset_rx: bool, reset_tx: bool },
    /// Read the line-control register, update the named fields and write it
    /// back; `word_length` stays as found where it is `None`.
    ModifyLineControl {
        word_length: Option<u8>,
        stop_bits: FieldUpdate,
        parity_enable: FieldUpdate,
        divisor_latch: FieldUpdate,
    },
    /// Write the line-control register whole.
    WriteLineControlWord { bits: u32 },
    /// Write the low byte of the baud divisor.
    WriteDivisorLow { byte: u8 },
    /// Write the high byte of the baud divisor.
    WriteDivisorHigh { byte: u8 },
    /// Put one byte into the transmit side of the data register.
    WriteData { byte: u8 },
}

impl UartAccess {
    /// Whether `reply` is an answer to this access.
    pub open spec fn answered_by(self, reply: Reply) -> bool {
        match self {
            UartAccess::ReadLineStatus => reply is LineStatus,
            UartAccess::ReadStatus => reply is Status,
            UartAccess::ReadLineControl => reply is LineControl,
            UartAccess::ReadStatusWord
            | UartAccess::ReadLineControlWord
            | UartAccess::ReadData
            | UartAccess::ReadReceiveBuffer => reply is Word,
            _ => reply is Written,
        }
    }
}

/// A register access that a driver asks for.
#[derive(Copy, Clone, Debug, PartialEq, Eq, Structural)]
pub enum Request {
    /// Write `function` to the function-select field of a multiplexer pad.
    SelectFunction { pad: MuxPad, function: u8 },
    /// Read a pad's configuration register, update its pull-up and pull-down
    /// bits and write it back.
    ModifyPull { control: PadControl, pull_up: FieldUpdate, pull_down: FieldUpdate },
    /// Read a register of a GPIO bank whole; answered by [`Reply::Word`].
    GpioRead { bank: GpioBank, register: GpioRegister },
    /// Read a register of a GPIO bank, change one bit and write it back.
    GpioModify { bank: GpioBank, register: GpioRegister, change: BitChange },
    /// Access a register of a serial controller.
    Uart { port: UartPort, access: UartAccess },
}

impl Request {
    /// Whether `reply` is an answer to this request. A read is answered by
    /// the value read, in the shape the request names; a write or a
    /// read-modify-write by [`Reply::Written`].
    pub open spec fn answered_by(self, reply: Reply) -> bool {
        match self {
            Request::GpioRead { .. } => reply is Word,
            Request::Uart { access, .. } => access.answered_by(reply),
            _ => reply is Written,
        }
    }

    /// Tells whether `reply` is an answer to this request.
    pub fn is_answered_by(&self, reply: &Reply) -> (answered: bool)
        ensures
            answered == self.answered_by(*reply),
    {
        match self {
            Request::GpioRead { .. } => matches!(reply, Reply::Word(_)),
            Request::Uart { access, .. } => match access {
                UartAccess::ReadLineStatus => matches!(reply, Reply::LineStatus(_)),
                UartAccess::ReadStatus => matches!(reply, Reply::Status(_)),
                UartAccess::ReadLineControl => matches!(reply, Reply::LineControl(_)),
                UartAccess::ReadStatusWord
                | UartAccess::ReadLineControlWord
                | UartAccess::ReadData
                | UartAccess::ReadReceiveBuffer => matches!(reply, Reply::Word(_)),
                _ => matches!(reply, Reply::Written),
            },
            _ => matches!(reply, Reply::Written),
        }
    }
}

/// What a driver is told when it is called.
#[derive(Copy, Clone, Debug, PartialEq, Eq, Structural)]
pub enum Reply {
    /// Nothing was asked yet: the operation begins.
    Start,
    /// The write or read-modify-write that was asked for has been done.
    Written,
    /// The whole register that was read.
    Word(u32),
    LineStatus(LineStatus),
    Status(UartStatus),
    LineControl(LineControl),
}

/// How far an operation has come.
#[derive(Debug, PartialEq, Eq)]
pub enum Step<T> {
    /// The operation needs this access performed, and is to be called again
    /// with the reply to it.
    Request(Request),
    /// The operation is complete.
    Done(T),
}

} // verus!

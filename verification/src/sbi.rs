//! Calls into the supervisor binary interface: which call to make with which
//! arguments, and what the answer means. Making the call is the caller's
//! part.

use vstd::prelude::*;
use vstd::string::StringSliceAdditionalSpecFns;

verus! {

/// Extension identifier of the base extension.
pub const EID_BASE: usize = 0x10;

/// Number of the legacy call that programs the timer.
pub const SBI_SET_TIMER: usize = 0;

/// Number of the legacy call that writes a byte to the console.
pub const SBI_CONSOLE_PUTCHAR: usize = 1;

/// Number of the legacy call that reads a byte from the console.
pub const SBI_CONSOLE_GETCHAR: usize = 2;

/// What a call of an extension hands back.
#[derive(Debug, Clone, Copy, PartialEq, Eq, Structural)]
pub struct SbiRet {
    pub error: usize,
    pub value: usize,
}

/// A call of an extension: the extension, the function within it and three
/// arguments.
#[derive(Debug, Clone, Copy, PartialEq, Eq, Structural)]
pub struct SbiCall {
    pub eid: usize,
    pub fid: usize,
    pub arg0: usize,
    pub arg1: usize,
    pub arg2: usize,
}

/// A legacy call: its number and three arguments. It hands back one word.
#[derive(Debug, Clone, Copy, PartialEq, Eq, Structural)]
pub struct LegacyCall {
    pub which: usize,
    pub arg0: usize,
    pub arg1: usize,
    pub arg2: usize,
}

/// The legacy call that writes byte `ch` to the console.
pub open spec fn putchar_call(ch: u8) -> LegacyCall {
    LegacyCall { which: SBI_CONSOLE_PUTCHAR, arg0: ch as usize, arg1: 0, arg2: 0 }
}

/// The call that asks which version of the interface is implemented.
pub fn get_sbi_specification_version() -> (call: SbiCall)
    ensures
        call == (SbiCall { eid: EID_BASE, fid: 0, arg0: 0, arg1: 0, arg2: 0 }),
{
    SbiCall { eid: EID_BASE, fid: 0, arg0: 0, arg1: 0, arg2: 0 }
}

/// The call that writes byte `ch` to the console.
pub fn console_putchar(ch: u8) -> (call: LegacyCall)
    ensures
        call == putchar_call(ch),
{
    LegacyCall { which: SBI_CONSOLE_PUTCHAR, arg0: ch as usize, arg1: 0, arg2: 0 }
}

/// The call that reads a byte from the console. [`received_char`] tells the
/// byte from what the call hands back.
pub fn console_getchar() -> (call: LegacyCall)
    ensures
        call == (LegacyCall { which: SBI_CONSOLE_GETCHAR, arg0: 0, arg1: 0, arg2: 0 }),
{
    LegacyCall { which: SBI_CONSOLE_GETCHAR, arg0: 0, arg1: 0, arg2: 0 }
}

/// The byte that the console call handed back: the low byte of the word.
pub fn received_char(returned: usize) -> (ch: u8)
    ensures
        ch == returned % 0x100,
{
    assert((returned & 0xff) == returned % 0x100) by (bit_vector);
    assert((returned & 0xff) < 0x100) by (bit_vector);
    (returned & 0xff) as u8
}

/// The low machine word of a 64-bit value: the value itself where a machine
/// word holds 64 bits.
pub open spec fn low_word_of(value: u64) -> usize {
    (value as int % (usize::MAX as int + 1)) as usize
}

/// The call that programs the next timer event. Where a machine word is
/// narrower than 64 bits, the low word of the value is handed over.
pub fn set_timer(stime_value: u64) -> (call: LegacyCall)
    ensures
        call == (LegacyCall {
            which: SBI_SET_TIMER,
            arg0: low_word_of(stime_value),
            arg1: 0,
            arg2: 0,
        }),
{
    LegacyCall { which: SBI_SET_TIMER, arg0: low_word(stime_value), arg1: 0, arg2: 0 }
}

/// The low machine word of a 64-bit value.
fn low_word(value: u64) -> (word: usize)
    ensures
        word == low_word_of(value),
{
    let max: u64 = usize::MAX as u64;
    if value <= max {
        value as usize
    } else {
        (value % (max + 1)) as usize
    }
}

/// The calls that write a string to the console: one for each byte of the
/// string, in order.
pub fn put_string(s: &str) -> (calls: Vec<LegacyCall>)
    ensures
        calls@ == s.spec_bytes().map_values(|ch: u8| putchar_call(ch)),
{
    let bytes = s.as_bytes();
    let mut calls: Vec<LegacyCall> = Vec::new();
    let mut i: usize = 0;
    while i < bytes.len()
        invariant
            i <= bytes@.len(),
            bytes@ == s.spec_bytes(),
            calls@ == bytes@.take(i as int).map_values(|ch: u8| putchar_call(ch)),
        decreases bytes@.len() - i,
    {
        calls.push(console_putchar(bytes[i]));
        assert(bytes@.take(i + 1) =~= bytes@.take(i as int).push(bytes@[i as int]));
        assert(bytes@.take(i + 1).map_values(|ch: u8| putchar_call(ch)) =~= bytes@.take(
            i as int,
        ).map_values(|ch: u8| putchar_call(ch)).push(putchar_call(bytes@[i as int])));
        i += 1;
    }
    assert(bytes@.take(i as int) =~= bytes@);
    calls
}

} // verus!

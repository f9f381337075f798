//! The console of a RISC-V machine, which the firmware drives: the
//! kernel only hands characters over and takes them back.

use vstd::prelude::*;

verus! {

/// What the firmware answers when no character is waiting.
pub const NO_CHAR: isize = -1;

/// The value to hand to the firmware to put the character `c` out.
pub fn console_putchar(c: u8) -> (r: usize)
    ensures
        r == c as usize,
{
    c as usize
}

/// The character that the firmware handed back as `raw`, if one was
/// waiting: its lowest eight bits.
pub fn console_getchar(raw: isize) -> (r: Option<u8>)
    ensures
        raw == NO_CHAR ==> r is None,
        raw != NO_CHAR ==> r == Some(raw as u8),
{
    if raw == NO_CHAR {
        None
    } else {
        Some(raw as u8)
    }
}

} // verus!

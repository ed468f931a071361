//! Modular arithmetic helpers for the machine's register widths.

use vstd::prelude::*;

verus! {

/// `x` folded into a byte.
pub open spec fn w8(x: int) -> u8 {
    (x % 0x100) as u8
}

/// `x` folded into a 16-bit word.
pub open spec fn w16(x: int) -> u16 {
    (x % 0x10000) as u16
}

/// `x` folded into a 64-bit word.
pub open spec fn w64(x: int) -> u64 {
    (x % 0x1_0000_0000_0000_0000) as u64
}

/// Whether `a` and `b` lie in different 256-byte pages.
pub open spec fn pages_differ(a: u16, b: u16) -> bool {
    a / 0x100 != b / 0x100
}

} // verus!

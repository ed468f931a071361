//! The 6502 processor status word.
//!
//! The status register packs seven flags and one hard-wired bit into a
//! single byte: Carry (bit 0), Zero (bit 1), Interrupt disable (bit 2),
//! Decimal (bit 3), Break (bit 4), a bit that the hardware always
//! reports as set (bit 5), Overflow (bit 6) and Negative (bit 7).

use vstd::prelude::*;

verus! {

/// True iff `mask`'s bits are all set in `p`.
pub open spec fn flag_on(p: u8, mask: u8) -> bool {
    p & mask == mask
}

/// `p` with the bits of `mask` forced to `on`.
pub open spec fn flag_put(p: u8, mask: u8, on: bool) -> u8 {
    if on {
        p | mask
    } else {
        p & !mask
    }
}

pub const FLAG_C: u8 = 0x01;
pub const FLAG_Z: u8 = 0x02;
pub const FLAG_I: u8 = 0x04;
pub const FLAG_D: u8 = 0x08;
pub const FLAG_B: u8 = 0x10;
pub const FLAG_U: u8 = 0x20;
pub const FLAG_V: u8 = 0x40;
pub const FLAG_N: u8 = 0x80;

/// The processor status register, kept as the raw byte the hardware
/// exposes through PHP, PLP and interrupt entry.
pub struct ProcessorStatus {
    pub bits: u8,
}

impl ProcessorStatus {
    /// A fresh status word with the given raw byte.
    pub fn new(bits: u8) -> (r: ProcessorStatus)
        ensures
            r.bits == bits,
    {
        ProcessorStatus { bits }
    }

    pub fn get_c(&self) -> (r: bool)
        ensures
            r == flag_on(self.bits, FLAG_C),
    {
        self.bits & FLAG_C == FLAG_C
    }

    pub fn get_z(&self) -> (r: bool)
        ensures
            r == flag_on(self.bits, FLAG_Z),
    {
        self.bits & FLAG_Z == FLAG_Z
    }

    pub fn get_i(&self) -> (r: bool)
        ensures
            r == flag_on(self.bits, FLAG_I),
    {
        self.bits & FLAG_I == FLAG_I
    }

    pub fn get_d(&self) -> (r: bool)
        ensures
            r == flag_on(self.bits, FLAG_D),
    {
        self.bits & FLAG_D == FLAG_D
    }

    pub fn get_b(&self) -> (r: bool)
        ensures
            r == flag_on(self.bits, FLAG_B),
    {
        self.bits & FLAG_B == FLAG_B
    }

    pub fn get_v(&self) -> (r: bool)
        ensures
            r == flag_on(self.bits, FLAG_V),
    {
        self.bits & FLAG_V == FLAG_V
    }

    pub fn get_n(&self) -> (r: bool)
        ensures
            r == flag_on(self.bits, FLAG_N),
    {
        self.bits & FLAG_N == FLAG_N
    }

    pub fn set_c(&mut self, on: bool)
        ensures
            final(self).bits == flag_put(old(self).bits, FLAG_C, on),
    {
        self.put(FLAG_C, on)
    }

    pub fn set_z(&mut self, on: bool)
        ensures
            final(self).bits == flag_put(old(self).bits, FLAG_Z, on),
    {
        self.put(FLAG_Z, on)
    }

    pub fn set_i(&mut self, on: bool)
        ensures
            final(self).bits == flag_put(old(self).bits, FLAG_I, on),
    {
        self.put(FLAG_I, on)
    }

    pub fn set_d(&mut self, on: bool)
        ensures
            final(self).bits == flag_put(old(self).bits, FLAG_D, on),
    {
        self.put(FLAG_D, on)
    }

    pub fn set_b(&mut self, on: bool)
        ensures
            final(self).bits == flag_put(old(self).bits, FLAG_B, on),
    {
        self.put(FLAG_B, on)
    }

    pub fn set_v(&mut self, on: bool)
        ensures
            final(self).bits == flag_put(old(self).bits, FLAG_V, on),
    {
        self.put(FLAG_V, on)
    }

    pub fn set_n(&mut self, on: bool)
        ensures
            final(self).bits == flag_put(old(self).bits, FLAG_N, on),
    {
        self.put(FLAG_N, on)
    }

    /// Force the bits of `mask` to `on`.
    fn put(&mut self, mask: u8, on: bool)
        ensures
            final(self).bits == flag_put(old(self).bits, mask, on),
    {
        if on {
            self.bits = self.bits | mask;
        } else {
            self.bits = self.bits & !mask;
        }
    }
}

} // verus!

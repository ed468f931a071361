//! Invariant violations that abort an emulation session.
//!
//! The address space of the console is closed: a read or write that
//! reaches no device, a PPU access outside its bus, or an opcode the
//! decoder has no semantics for indicates a corrupt image or a bug.
//! Execution has no meaningful partial-failure state, so such an event
//! is reported with its diagnostic context and the session ends.

use vstd::prelude::*;

verus! {

#[derive(Clone, Copy, Debug, PartialEq, Eq, Structural)]
pub enum Fault {
    /// A CPU bus read reached an address no device answers.
    UnmappedRead(u16),
    /// A CPU bus write reached an address no device accepts.
    UnmappedWrite(u16),
    /// A cartridge access fell outside the ROM image's arrays.
    RomBounds(u16),
    /// A bank-select write arrived while the header names no RAM pages.
    BankSelect(u8),
    /// A PPU bus access outside `0x0000..=0x3FFF`.
    PpuAddress(u16),
    /// A read of a PPU register that is not readable.
    RegisterRead(u16),
    /// A write to a PPU register that is not writable.
    RegisterWrite(u16),
    /// An opcode that needs an operand address got none from its mode.
    MissingAddress(u8),
    /// An opcode with no implemented semantics.
    IllegalOpcode(u8),
    /// A cartridge whose mapper id no implementation supports.
    UnsupportedMapper(u8),
}

} // verus!

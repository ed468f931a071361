//! A cycle-accurate emulator core for the Nintendo Entertainment System.
//!
//! The crate models the 6502-family CPU (official and common illegal
//! opcodes, interrupt handling, cycle counting), the picture processing
//! unit (dot/scanline timing, background fetch pipeline, sprite
//! evaluation and per-pixel compositing) and the memory-mapped bus that
//! routes CPU traffic to RAM, PPU registers, the controller and the
//! cartridge mapper.  Every transition is specified against a
//! mathematical view of the machine state and verified.

pub mod bits;
pub mod bus;
pub mod controller;
pub mod cpu;
pub mod cpu_ops;
pub mod fault;
pub mod laws;
pub mod mapper;
pub mod ppu;
pub mod rom;
pub mod status;
pub mod tables;

pub use status::ProcessorStatus;

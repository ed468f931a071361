//! The 6502-family CPU core.
//!
//! `step` executes exactly one instruction (or consumes one stall
//! cycle) to completion: a pending interrupt is serviced, the opcode is
//! fetched and decoded through the 256-entry tables, the addressing
//! mode resolves an effective address (charging the page-cross cycle
//! where the tables say so), and the instruction's semantic effect runs
//! against the bus.  Every transition is stated against `CpuView`, the
//! mathematical content of the whole machine as the CPU sees it.

use vstd::prelude::*;

use crate::bits::{pages_differ, w16, w64, w8};
use crate::bus::{bus_wf, spec_bus_read, spec_bus_write, Bus, BusView};
use crate::controller::Controller;
use crate::fault::Fault;
use crate::mapper::Mapper;
use crate::ppu::{spec_ppu_step, Ppu};
use crate::status::{flag_on, flag_put, ProcessorStatus, FLAG_C, FLAG_I, FLAG_N, FLAG_V, FLAG_Z};
use crate::tables::{
    instruction_cycles, instruction_mode, instruction_size, page_cross_cycles, CYCLES_PAGE_CROSS,
    INSTRUCTION_CYCLES, INSTRUCTION_MODES, INSTRUCTION_SIZES, MODE_ABSOLUTE, MODE_ABSOLUTE_X,
    MODE_ABSOLUTE_Y, MODE_IMMEDIATE, MODE_INDEXED_INDIRECT, MODE_INDIRECT, MODE_INDIRECT_INDEXED,
    MODE_RELATIVE, MODE_ZERO_PAGE, MODE_ZERO_PAGE_X, MODE_ZERO_PAGE_Y,
};

verus! {

/// Stack page base address.
pub const STACK: u16 = 0x100;

/// NMI vector.
pub const NMI_VECTOR: u16 = 0xFFFA;

/// Reset vector.
pub const RESET_VECTOR: u16 = 0xFFFC;

/// IRQ/BRK vector.
pub const IRQ_BRK_VECTOR: u16 = 0xFFFE;

/// The interrupt latch: at most one pending interrupt is tracked, and
/// raising a new one overwrites an unconsumed older one.
#[derive(Clone, Copy, Debug, PartialEq, Eq, Structural)]
pub enum Interrupt {
    Irq,
    Nmi,
    Inactive,
}

/// The mathematical content of the CPU and the machine behind its bus.
pub ghost struct CpuView {
    pub bus: BusView,
    pub cycles: u64,
    pub stall: u64,
    pub interrupt: Interrupt,
    pub pc: u16,
    pub sp: u8,
    pub a: u8,
    pub x: u8,
    pub y: u8,
    pub p: u8,
}

/// A well-formed CPU: a well-formed machine behind the bus.
pub open spec fn cpu_wf(s: CpuView) -> bool {
    bus_wf(s.bus)
}

/// Relates a state-and-value step `t` of the specification to an
/// executable outcome: on `Ok` the machine is the specified state and
/// the value is returned; on `Err` the specified fault is returned.
pub open spec fn yields<T>(post: CpuView, r: Result<T, Fault>, t: Result<(CpuView, T), Fault>) -> bool {
    match t {
        Ok(sv) => r == Ok::<T, Fault>(sv.1) && post == sv.0,
        Err(f) => r == Err::<T, Fault>(f),
    }
}

/// Relates a state step `t` of the specification to an executable
/// outcome, as `yields` does for value-returning steps.
pub open spec fn steps_to(post: CpuView, r: Result<(), Fault>, t: Result<CpuView, Fault>) -> bool {
    match t {
        Ok(s) => r is Ok && post == s,
        Err(f) => r == Err::<(), Fault>(f),
    }
}

/// The status byte with Zero and Negative set from `v`: Zero iff
/// `v == 0`, Negative iff bit 7 of `v` is set.
pub open spec fn spec_nz(p: u8, v: u8) -> u8 {
    flag_put(flag_put(p, FLAG_Z, v == 0), FLAG_N, v & 0x80 != 0)
}

/// A bus read lifted to the whole machine state.
pub open spec fn spec_cpu_read(s: CpuView, addr: u16) -> Result<(CpuView, u8), Fault> {
    match spec_bus_read(s.bus, addr) {
        Ok(bv) => Ok((CpuView { bus: bv.0, ..s }, bv.1)),
        Err(f) => Err(f),
    }
}

/// A bus write lifted to the whole machine state.
pub open spec fn spec_cpu_write(s: CpuView, addr: u16, val: u8) -> Result<CpuView, Fault> {
    match spec_bus_write(s.bus, addr, val) {
        Ok(b2) => Ok(CpuView { bus: b2, ..s }),
        Err(f) => Err(f),
    }
}

/// A push: the byte lands in the stack page at the stack pointer, which
/// then moves down one (wrapping within the page).
pub open spec fn spec_push(s: CpuView, val: u8) -> CpuView {
    CpuView {
        bus: BusView {
            ram: s.bus.ram.update((0x100 + s.sp as int) % 0x800, val),
            ..s.bus
        },
        sp: w8(s.sp + 0xFF),
        ..s
    }
}

/// A pull: the stack pointer moves up one (wrapping within the page)
/// and the byte at the new position comes back.
pub open spec fn spec_pull(s: CpuView) -> (CpuView, u8) {
    let sp2 = w8(s.sp + 1);
    (CpuView { sp: sp2, ..s }, s.bus.ram[(0x100 + sp2 as int) % 0x800])
}

/// A 16-bit push, high byte first.
pub open spec fn spec_push16(s: CpuView, val: u16) -> CpuView {
    spec_push(spec_push(s, (val as int / 0x100) as u8), w8(val as int))
}

/// A 16-bit pull, low byte first.
pub open spec fn spec_pull16(s: CpuView) -> (CpuView, u16) {
    let (s1, low) = spec_pull(s);
    let (s2, high) = spec_pull(s1);
    (s2, (high as int * 0x100 + low) as u16)
}

/// A little-endian 16-bit read at `addr`.
pub open spec fn spec_read16(s: CpuView, addr: u16) -> Result<(CpuView, u16), Fault> {
    match spec_cpu_read(s, addr) {
        Err(f) => Err(f),
        Ok((s1, low)) => match spec_cpu_read(s1, w16(addr + 1)) {
            Err(f) => Err(f),
            Ok((s2, high)) => Ok((s2, (high as int * 0x100 + low) as u16)),
        },
    }
}

/// A 16-bit read whose high byte comes from the same page as the low
/// byte, wrapping at the page boundary — the 6502's indirect-jump bug.
pub open spec fn spec_read16_wrap(s: CpuView, addr: u16) -> Result<(CpuView, u16), Fault> {
    let second = ((addr as int / 0x100) * 0x100 + ((addr as int % 0x100 + 1) % 0x100)) as u16;
    match spec_cpu_read(s, addr) {
        Err(f) => Err(f),
        Ok((s1, low)) => match spec_cpu_read(s1, second) {
            Err(f) => Err(f),
            Ok((s2, high)) => Ok((s2, (high as int * 0x100 + low) as u16)),
        },
    }
}

/// Charge the page-cross cycles of `op` when `crossed` holds.
pub open spec fn spec_charge_cross(s: CpuView, op: u8, crossed: bool) -> CpuView {
    if crossed {
        CpuView { cycles: w64(s.cycles + CYCLES_PAGE_CROSS[op as int]), ..s }
    } else {
        s
    }
}

/// Absolute: the 16-bit operand is the address.
pub open spec fn spec_absolute(s: CpuView) -> Result<(CpuView, u16), Fault> {
    spec_read16(s, w16(s.pc + 1))
}

/// AbsoluteX: the operand plus X; crossing a page charges the opcode's
/// extra cycle.
pub open spec fn spec_absolute_x(s: CpuView, op: u8) -> Result<(CpuView, u16), Fault> {
    match spec_read16(s, w16(s.pc + 1)) {
        Err(f) => Err(f),
        Ok((s1, base)) => {
            let addr = w16(base + s1.x);
            let crossed = pages_differ(w16(addr - s1.x), addr);
            Ok((spec_charge_cross(s1, op, crossed), addr))
        },
    }
}

/// AbsoluteY: the operand plus Y; crossing a page charges the opcode's
/// extra cycle.
pub open spec fn spec_absolute_y(s: CpuView, op: u8) -> Result<(CpuView, u16), Fault> {
    match spec_read16(s, w16(s.pc + 1)) {
        Err(f) => Err(f),
        Ok((s1, base)) => {
            let addr = w16(base + s1.y);
            let crossed = pages_differ(w16(addr - s1.y), addr);
            Ok((spec_charge_cross(s1, op, crossed), addr))
        },
    }
}

/// Immediate: the operand byte's own address.
pub open spec fn spec_immediate(s: CpuView) -> Result<(CpuView, u16), Fault> {
    Ok((s, w16(s.pc + 1)))
}

/// IndexedIndirect (`(zp,X)`): the zero-page operand plus X names a
/// pointer read with zero-page wraparound.
pub open spec fn spec_indexed_indirect(s: CpuView) -> Result<(CpuView, u16), Fault> {
    match spec_cpu_read(s, w16(s.pc + 1)) {
        Err(f) => Err(f),
        Ok((s1, m)) => spec_read16_wrap(s1, w8(m + s1.x) as u16),
    }
}

/// Indirect (JMP only): the operand names a pointer read with the
/// page-wrap bug.
pub open spec fn spec_indirect(s: CpuView) -> Result<(CpuView, u16), Fault> {
    match spec_read16(s, w16(s.pc + 1)) {
        Err(f) => Err(f),
        Ok((s1, base)) => spec_read16_wrap(s1, base),
    }
}

/// IndirectIndexed (`(zp),Y`): the zero-page pointer's target plus Y;
/// crossing a page charges the opcode's extra cycle.
pub open spec fn spec_indirect_indexed(s: CpuView, op: u8) -> Result<(CpuView, u16), Fault> {
    match spec_cpu_read(s, w16(s.pc + 1)) {
        Err(f) => Err(f),
        Ok((s1, m)) => match spec_read16_wrap(s1, m as u16) {
            Err(f) => Err(f),
            Ok((s2, base)) => {
                let addr = w16(base + s2.y);
                let crossed = pages_differ(w16(addr - s2.y), addr);
                Ok((spec_charge_cross(s2, op, crossed), addr))
            },
        },
    }
}

/// Relative: the signed 8-bit operand offsets the address after the
/// branch instruction.
pub open spec fn spec_relative(s: CpuView) -> Result<(CpuView, u16), Fault> {
    match spec_cpu_read(s, w16(s.pc + 1)) {
        Err(f) => Err(f),
        Ok((s1, offset)) => if offset < 0x80 {
            Ok((s1, w16(s1.pc + 2 + offset)))
        } else {
            Ok((s1, w16(s1.pc + 2 + offset - 0x100)))
        },
    }
}

/// ZeroPage: the operand byte is the address.
pub open spec fn spec_zero_page(s: CpuView) -> Result<(CpuView, u16), Fault> {
    match spec_cpu_read(s, w16(s.pc + 1)) {
        Err(f) => Err(f),
        Ok((s1, m)) => Ok((s1, m as u16)),
    }
}

/// ZeroPageX: the operand plus X, wrapping within the zero page.
pub open spec fn spec_zero_page_x(s: CpuView) -> Result<(CpuView, u16), Fault> {
    match spec_cpu_read(s, w16(s.pc + 1)) {
        Err(f) => Err(f),
        Ok((s1, m)) => Ok((s1, w8(m + s1.x) as u16)),
    }
}

/// ZeroPageY: the operand plus Y, wrapping within the zero page.
pub open spec fn spec_zero_page_y(s: CpuView) -> Result<(CpuView, u16), Fault> {
    match spec_cpu_read(s, w16(s.pc + 1)) {
        Err(f) => Err(f),
        Ok((s1, m)) => Ok((s1, w8(m + s1.y) as u16)),
    }
}

/// Lift an addressing result into the optional-address shape.
pub open spec fn wrap_some(t: Result<(CpuView, u16), Fault>) -> Result<
    (CpuView, Option<u16>),
    Fault,
> {
    match t {
        Ok(sa) => Ok((sa.0, Option::Some(sa.1))),
        Err(f) => Err(f),
    }
}

/// The effective address of `op` per its table mode: `None` for
/// implied and accumulator modes, the resolved address otherwise,
/// with any page-cross cycles already charged.
#[verifier::opaque]
pub open spec fn spec_resolve(s: CpuView, op: u8) -> Result<(CpuView, Option<u16>), Fault> {
    let mode = INSTRUCTION_MODES[op as int];
    if mode == MODE_ABSOLUTE {
        wrap_some(spec_absolute(s))
    } else if mode == MODE_ABSOLUTE_X {
        wrap_some(spec_absolute_x(s, op))
    } else if mode == MODE_ABSOLUTE_Y {
        wrap_some(spec_absolute_y(s, op))
    } else if mode == MODE_IMMEDIATE {
        wrap_some(spec_immediate(s))
    } else if mode == MODE_INDEXED_INDIRECT {
        wrap_some(spec_indexed_indirect(s))
    } else if mode == MODE_INDIRECT {
        wrap_some(spec_indirect(s))
    } else if mode == MODE_INDIRECT_INDEXED {
        wrap_some(spec_indirect_indexed(s, op))
    } else if mode == MODE_RELATIVE {
        wrap_some(spec_relative(s))
    } else if mode == MODE_ZERO_PAGE {
        wrap_some(spec_zero_page(s))
    } else if mode == MODE_ZERO_PAGE_X {
        wrap_some(spec_zero_page_x(s))
    } else if mode == MODE_ZERO_PAGE_Y {
        wrap_some(spec_zero_page_y(s))
    } else {
        Ok((s, Option::None))
    }
}

/// Interrupt entry: the program counter and the status byte (with bit 4
/// forced on) are pushed, the handler address is fetched from `vector`,
/// interrupts are disabled and seven cycles are charged.
pub open spec fn spec_interrupt(s: CpuView, vector: u16) -> Result<CpuView, Fault> {
    let s1 = spec_push16(s, s.pc);
    let s2 = spec_push(s1, s1.p | 0x10);
    match spec_read16(s2, vector) {
        Err(f) => Err(f),
        Ok((s3, target)) => Ok(
            CpuView {
                pc: target,
                p: flag_put(s3.p, FLAG_I, true),
                cycles: w64(s3.cycles + 7),
                ..s3
            },
        ),
    }
}

/// One call of `step`: a stall consumes one cycle and does nothing
/// else; otherwise a pending interrupt is serviced (NMI always, IRQ
/// only with interrupts enabled) and the latch cleared either way, the
/// opcode at `pc` is fetched and its address resolved, `pc` and the
/// cycle counter advance by the table entries, and the instruction's
/// effect runs.  The second component is the number of cycles the call
/// consumed, counted from after interrupt servicing as the hardware's
/// per-instruction cost.
pub open spec fn spec_step(s: CpuView) -> Result<(CpuView, u64), Fault> {
    if s.stall > 0 {
        Ok((CpuView { stall: (s.stall - 1) as u64, ..s }, 1))
    } else {
        let serviced = match s.interrupt {
            Interrupt::Irq => if !flag_on(s.p, FLAG_I) {
                spec_interrupt(s, IRQ_BRK_VECTOR)
            } else {
                Ok(s)
            },
            Interrupt::Nmi => spec_interrupt(s, NMI_VECTOR),
            Interrupt::Inactive => Ok(s),
        };
        match serviced {
            Err(f) => Err(f),
            Ok(si0) => {
                let si = CpuView { interrupt: Interrupt::Inactive, ..si0 };
                let cy = si.cycles;
                match spec_cpu_read(si, si.pc) {
                    Err(f) => Err(f),
                    Ok((s1, op)) => match spec_resolve(s1, op) {
                        Err(f) => Err(f),
                        Ok((s2, addr)) => {
                            let s3 = CpuView {
                                pc: w16(s2.pc + INSTRUCTION_SIZES[op as int]),
                                cycles: w64(s2.cycles + INSTRUCTION_CYCLES[op as int]),
                                ..s2
                            };
                            match crate::cpu_ops::spec_execute(s3, op, addr) {
                                Err(f) => Err(f),
                                Ok(s4) => Ok((s4, w64(s4.cycles - cy))),
                            }
                        },
                    },
                }
            },
        }
    }
}

/// A reset: the status and stack registers take their power-on values
/// and execution restarts at the address in the reset vector.
pub open spec fn spec_reset(s: CpuView) -> Result<CpuView, Fault> {
    let s1 = CpuView { p: 0x24, sp: 0xFD, ..s };
    match spec_read16(s1, RESET_VECTOR) {
        Err(f) => Err(f),
        Ok((s2, target)) => Ok(CpuView { pc: target, ..s2 }),
    }
}

/// The CPU and, through its bus, the whole console.
pub struct Cpu {
    pub bus: Bus,
    /// Total cycles executed.
    pub cycles: u64,
    /// Cycles to stall the CPU for (catch-up accounting).
    pub stall: u64,
    pub interrupt: Interrupt,
    // Registers
    pub pc: u16,
    pub sp: u8,
    pub a: u8,
    pub x: u8,
    pub y: u8,
    pub p: ProcessorStatus,
}

impl View for Cpu {
    type V = CpuView;

    open spec fn view(&self) -> CpuView {
        CpuView {
            bus: self.bus@,
            cycles: self.cycles,
            stall: self.stall,
            interrupt: self.interrupt,
            pc: self.pc,
            sp: self.sp,
            a: self.a,
            x: self.x,
            y: self.y,
            p: self.p.bits,
        }
    }
}

impl Cpu {
    pub fn new(mapper: Mapper, controller: Controller, ppu: Ppu) -> (r: Cpu)
        ensures
            r@ == (CpuView {
                bus: BusView {
                    ram: Seq::new(0x800, |i: int| 0u8),
                    mapper: mapper@,
                    controller: controller@,
                    ppu: ppu@,
                },
                cycles: 0,
                stall: 0,
                interrupt: Interrupt::Inactive,
                pc: 0xC000,
                sp: 0xFD,
                a: 0,
                x: 0,
                y: 0,
                p: 0x24,
            }),
    {
        Cpu {
            bus: Bus::new(mapper, controller, ppu),
            cycles: 0,
            stall: 0,
            interrupt: Interrupt::Inactive,
            pc: 0xC000,
            sp: 0xFD,
            a: 0,
            x: 0,
            y: 0,
            p: ProcessorStatus::new(0x24),
        }
    }

    /// The register file for tracing: `(pc, sp, a, x, y, p, dot)`, the
    /// last being the PPU dot the cycle count corresponds to.
    pub fn registers(&self) -> (r: (u16, u8, u8, u8, u8, u8, usize))
        ensures
            r.0 == self@.pc,
            r.1 == self@.sp,
            r.2 == self@.a,
            r.3 == self@.x,
            r.4 == self@.y,
            r.5 == self@.p,
            r.6 as int == (3 * self@.cycles as int) % 341,
    {
        let cyc: usize = (((self.cycles % 341) as usize) * 3) % 341;
        proof {
            assert(((self.cycles as int % 341) * 3) % 341 == (3 * self.cycles as int) % 341)
                by (nonlinear_arith);
        }
        (self.pc, self.sp, self.a, self.x, self.y, self.p.bits, cyc)
    }

    /// Load the status and stack registers with their power-on values
    /// and fetch the entry point from the reset vector.
    pub fn reset(&mut self) -> (r: Result<(), Fault>)
        requires
            cpu_wf(old(self)@),
        ensures
            cpu_wf(final(self)@),
            steps_to(final(self)@, r, spec_reset(old(self)@)),
    {
        self.p.bits = 0x24;
        self.sp = 0xFD;
        let target = match self.read16(RESET_VECTOR) {
            Ok(v) => v,
            Err(f) => {
                return Err(f);
            },
        };
        self.pc = target;
        Ok(())
    }

    /// Latch a non-maskable interrupt, overwriting any pending one.
    pub fn trigger_nmi(&mut self)
        ensures
            final(self)@ == (CpuView { interrupt: Interrupt::Nmi, ..old(self)@ }),
    {
        self.interrupt = Interrupt::Nmi;
    }

    /// Latch a maskable interrupt, overwriting any pending one; whether
    /// it is serviced is decided at the next `step` by the
    /// interrupt-disable flag.
    pub fn trigger_irq(&mut self)
        ensures
            final(self)@ == (CpuView { interrupt: Interrupt::Irq, ..old(self)@ }),
    {
        self.interrupt = Interrupt::Irq;
    }

    /// Replace the controller's button byte.
    pub fn set_buttons(&mut self, bits: u8)
        ensures
            final(self)@ == (CpuView {
                bus: BusView {
                    controller: crate::controller::ControllerView {
                        buttons: bits,
                        ..old(self)@.bus.controller
                    },
                    ..old(self)@.bus
                },
                ..old(self)@
            }),
    {
        self.bus.set_buttons(bits);
    }

    /// Read one byte through the bus.
    pub fn read(&mut self, addr: u16) -> (r: Result<u8, Fault>)
        requires
            cpu_wf(old(self)@),
        ensures
            cpu_wf(final(self)@),
            yields(final(self)@, r, spec_cpu_read(old(self)@, addr)),
            r is Err ==> final(self)@ == old(self)@,
    {
        self.bus.read(addr)
    }

    /// Write one byte through the bus.
    pub fn write(&mut self, addr: u16, val: u8) -> (r: Result<(), Fault>)
        requires
            cpu_wf(old(self)@),
        ensures
            cpu_wf(final(self)@),
            steps_to(final(self)@, r, spec_cpu_write(old(self)@, addr, val)),
            r is Err ==> final(self)@ == old(self)@,
    {
        self.bus.write(addr, val)
    }

    /// Set the Zero flag from `val`.
    pub(crate) fn check_zero(&mut self, val: u8)
        ensures
            final(self)@ == (CpuView { p: flag_put(old(self)@.p, FLAG_Z, val == 0), ..old(self)@ }),
    {
        self.p.set_z(val == 0);
    }

    /// Set the Negative flag from bit 7 of `val`.
    pub(crate) fn check_negative(&mut self, val: u8)
        ensures
            final(self)@ == (CpuView {
                p: flag_put(old(self)@.p, FLAG_N, val & 0x80 != 0),
                ..old(self)@
            }),
    {
        self.p.set_n(val & 0x80 != 0);
    }

    /// Set the Zero and Negative flags from `val`.
    pub(crate) fn check_negative_zero(&mut self, val: u8)
        ensures
            final(self)@ == (CpuView { p: spec_nz(old(self)@.p, val), ..old(self)@ }),
    {
        self.check_zero(val);
        self.check_negative(val);
    }

    /// Whether two addresses lie in different 256-byte pages.
    pub fn check_same_page(addr1: u16, addr2: u16) -> (r: bool)
        ensures
            r == pages_differ(addr1, addr2),
    {
        addr1 / 0x100 != addr2 / 0x100
    }

    /// Push one byte onto the stack.
    pub fn push(&mut self, val: u8)
        requires
            cpu_wf(old(self)@),
        ensures
            cpu_wf(final(self)@),
            final(self)@ == spec_push(old(self)@, val),
    {
        let addr: u16 = STACK + self.sp as u16;
        match self.write(addr, val) {
            Ok(()) => (),
            Err(_) => (),
        }
        self.sp = ((self.sp as u16 + 0xFF) % 0x100) as u8;
    }

    /// Pull one byte off the stack.
    pub fn pull(&mut self) -> (r: u8)
        requires
            cpu_wf(old(self)@),
        ensures
            cpu_wf(final(self)@),
            (final(self)@, r) == spec_pull(old(self)@),
    {
        self.sp = ((self.sp as u16 + 1) % 0x100) as u8;
        let addr: u16 = STACK + self.sp as u16;
        match self.read(addr) {
            Ok(v) => v,
            Err(_) => 0,
        }
    }

    /// Push a 16-bit value, high byte first.
    pub fn push16(&mut self, val: u16)
        requires
            cpu_wf(old(self)@),
        ensures
            cpu_wf(final(self)@),
            final(self)@ == spec_push16(old(self)@, val),
    {
        let high: u8 = (val / 0x100) as u8;
        let low: u8 = (val % 0x100) as u8;
        self.push(high);
        self.push(low);
    }

    /// Pull a 16-bit value, low byte first.
    pub fn pull16(&mut self) -> (r: u16)
        requires
            cpu_wf(old(self)@),
        ensures
            cpu_wf(final(self)@),
            (final(self)@, r) == spec_pull16(old(self)@),
    {
        let low: u16 = self.pull() as u16;
        let high: u16 = self.pull() as u16;
        high * 0x100 + low
    }

    /// Read a little-endian 16-bit value at `addr`.
    pub fn read16(&mut self, addr: u16) -> (r: Result<u16, Fault>)
        requires
            cpu_wf(old(self)@),
        ensures
            cpu_wf(final(self)@),
            yields(final(self)@, r, spec_read16(old(self)@, addr)),
    {
        let low = match self.read(addr) {
            Ok(v) => v,
            Err(f) => {
                return Err(f);
            },
        };
        let second: u16 = ((addr as u32 + 1) % 0x10000) as u16;
        let high = match self.read(second) {
            Ok(v) => v,
            Err(f) => {
                return Err(f);
            },
        };
        Ok((high as u16) * 0x100 + low as u16)
    }

    /// Read a 16-bit value whose high byte wraps within `addr`'s page.
    pub fn read16_wrap(&mut self, addr: u16) -> (r: Result<u16, Fault>)
        requires
            cpu_wf(old(self)@),
        ensures
            cpu_wf(final(self)@),
            yields(final(self)@, r, spec_read16_wrap(old(self)@, addr)),
    {
        let low = match self.read(addr) {
            Ok(v) => v,
            Err(f) => {
                return Err(f);
            },
        };
        let second: u16 = (addr / 0x100) * 0x100 + ((addr % 0x100 + 1) % 0x100);
        let high = match self.read(second) {
            Ok(v) => v,
            Err(f) => {
                return Err(f);
            },
        };
        Ok((high as u16) * 0x100 + low as u16)
    }

    /// Charge the page-cross cycles of `op` when `crossed` holds.
    fn charge_cross(&mut self, op: u8, crossed: bool)
        ensures
            final(self)@ == spec_charge_cross(old(self)@, op, crossed),
    {
        if crossed {
            self.cycles = self.cycles.wrapping_add(page_cross_cycles(op) as u64);
        }
    }

    fn absolute(&mut self) -> (r: Result<u16, Fault>)
        requires
            cpu_wf(old(self)@),
        ensures
            cpu_wf(final(self)@),
            yields(final(self)@, r, spec_absolute(old(self)@)),
    {
        let base: u16 = ((self.pc as u32 + 1) % 0x10000) as u16;
        self.read16(base)
    }

    #[verifier::rlimit(60)]
    fn absolute_x(&mut self, op: u8) -> (r: Result<u16, Fault>)
        requires
            cpu_wf(old(self)@),
        ensures
            cpu_wf(final(self)@),
            yields(final(self)@, r, spec_absolute_x(old(self)@, op)),
    {
        let operand: u16 = ((self.pc as u32 + 1) % 0x10000) as u16;
        let base = match self.read16(operand) {
            Ok(v) => v,
            Err(f) => {
                return Err(f);
            },
        };
        let addr: u16 = ((base as u32 + self.x as u32) % 0x10000) as u16;
        let back: u16 = ((addr as u32 + 0x10000 - self.x as u32) % 0x10000) as u16;
        proof {
            vstd::arithmetic::div_mod::lemma_mod_multiples_vanish(
                1,
                addr as int - self.x as int,
                0x10000,
            );
        }
        let crossed = Cpu::check_same_page(back, addr);
        self.charge_cross(op, crossed);
        Ok(addr)
    }

    #[verifier::rlimit(60)]
    fn absolute_y(&mut self, op: u8) -> (r: Result<u16, Fault>)
        requires
            cpu_wf(old(self)@),
        ensures
            cpu_wf(final(self)@),
            yields(final(self)@, r, spec_absolute_y(old(self)@, op)),
    {
        let operand: u16 = ((self.pc as u32 + 1) % 0x10000) as u16;
        let base = match self.read16(operand) {
            Ok(v) => v,
            Err(f) => {
                return Err(f);
            },
        };
        let addr: u16 = ((base as u32 + self.y as u32) % 0x10000) as u16;
        let back: u16 = ((addr as u32 + 0x10000 - self.y as u32) % 0x10000) as u16;
        proof {
            vstd::arithmetic::div_mod::lemma_mod_multiples_vanish(
                1,
                addr as int - self.y as int,
                0x10000,
            );
        }
        let crossed = Cpu::check_same_page(back, addr);
        self.charge_cross(op, crossed);
        Ok(addr)
    }

    fn immediate(&self) -> (r: u16)
        ensures
            r == w16(self@.pc + 1),
    {
        ((self.pc as u32 + 1) % 0x10000) as u16
    }

    fn indexed_indirect(&mut self) -> (r: Result<u16, Fault>)
        requires
            cpu_wf(old(self)@),
        ensures
            cpu_wf(final(self)@),
            yields(final(self)@, r, spec_indexed_indirect(old(self)@)),
    {
        let operand: u16 = ((self.pc as u32 + 1) % 0x10000) as u16;
        let m = match self.read(operand) {
            Ok(v) => v,
            Err(f) => {
                return Err(f);
            },
        };
        let zp: u16 = (m as u16 + self.x as u16) % 0x100;
        self.read16_wrap(zp)
    }

    fn indirect(&mut self) -> (r: Result<u16, Fault>)
        requires
            cpu_wf(old(self)@),
        ensures
            cpu_wf(final(self)@),
            yields(final(self)@, r, spec_indirect(old(self)@)),
    {
        let operand: u16 = ((self.pc as u32 + 1) % 0x10000) as u16;
        let base = match self.read16(operand) {
            Ok(v) => v,
            Err(f) => {
                return Err(f);
            },
        };
        self.read16_wrap(base)
    }

    #[verifier::rlimit(60)]
    fn indirect_indexed(&mut self, op: u8) -> (r: Result<u16, Fault>)
        requires
            cpu_wf(old(self)@),
        ensures
            cpu_wf(final(self)@),
            yields(final(self)@, r, spec_indirect_indexed(old(self)@, op)),
    {
        let operand: u16 = ((self.pc as u32 + 1) % 0x10000) as u16;
        let m = match self.read(operand) {
            Ok(v) => v,
            Err(f) => {
                return Err(f);
            },
        };
        let base = match self.read16_wrap(m as u16) {
            Ok(v) => v,
            Err(f) => {
                return Err(f);
            },
        };
        let addr: u16 = ((base as u32 + self.y as u32) % 0x10000) as u16;
        let back: u16 = ((addr as u32 + 0x10000 - self.y as u32) % 0x10000) as u16;
        proof {
            vstd::arithmetic::div_mod::lemma_mod_multiples_vanish(
                1,
                addr as int - self.y as int,
                0x10000,
            );
        }
        let crossed = Cpu::check_same_page(back, addr);
        self.charge_cross(op, crossed);
        Ok(addr)
    }

    fn relative(&mut self) -> (r: Result<u16, Fault>)
        requires
            cpu_wf(old(self)@),
        ensures
            cpu_wf(final(self)@),
            yields(final(self)@, r, spec_relative(old(self)@)),
    {
        let operand: u16 = ((self.pc as u32 + 1) % 0x10000) as u16;
        let offset = match self.read(operand) {
            Ok(v) => v,
            Err(f) => {
                return Err(f);
            },
        };
        if offset < 0x80 {
            Ok(((self.pc as u32 + 2 + offset as u32) % 0x10000) as u16)
        } else {
            Ok(((self.pc as u32 + 0x10000 + 2 + offset as u32 - 0x100) % 0x10000) as u16)
        }
    }

    fn zero_page(&mut self) -> (r: Result<u16, Fault>)
        requires
            cpu_wf(old(self)@),
        ensures
            cpu_wf(final(self)@),
            yields(final(self)@, r, spec_zero_page(old(self)@)),
    {
        let operand: u16 = ((self.pc as u32 + 1) % 0x10000) as u16;
        match self.read(operand) {
            Ok(v) => Ok(v as u16),
            Err(f) => Err(f),
        }
    }

    fn zero_page_x(&mut self) -> (r: Result<u16, Fault>)
        requires
            cpu_wf(old(self)@),
        ensures
            cpu_wf(final(self)@),
            yields(final(self)@, r, spec_zero_page_x(old(self)@)),
    {
        let operand: u16 = ((self.pc as u32 + 1) % 0x10000) as u16;
        match self.read(operand) {
            Ok(v) => Ok((v as u16 + self.x as u16) % 0x100),
            Err(f) => Err(f),
        }
    }

    fn zero_page_y(&mut self) -> (r: Result<u16, Fault>)
        requires
            cpu_wf(old(self)@),
        ensures
            cpu_wf(final(self)@),
            yields(final(self)@, r, spec_zero_page_y(old(self)@)),
    {
        let operand: u16 = ((self.pc as u32 + 1) % 0x10000) as u16;
        match self.read(operand) {
            Ok(v) => Ok((v as u16 + self.y as u16) % 0x100),
            Err(f) => Err(f),
        }
    }

    /// Resolve the addressing mode of `opcode` to an effective address.
    pub fn resolve_address(&mut self, opcode: u8) -> (r: Result<Option<u16>, Fault>)
        requires
            cpu_wf(old(self)@),
        ensures
            cpu_wf(final(self)@),
            yields(final(self)@, r, spec_resolve(old(self)@, opcode)),
    {
        proof {
            reveal(spec_resolve);
        }
        let mode = instruction_mode(opcode);
        if mode == MODE_ABSOLUTE {
            match self.absolute() {
                Ok(a) => Ok(Option::Some(a)),
                Err(f) => Err(f),
            }
        } else if mode == MODE_ABSOLUTE_X {
            match self.absolute_x(opcode) {
                Ok(a) => Ok(Option::Some(a)),
                Err(f) => Err(f),
            }
        } else if mode == MODE_ABSOLUTE_Y {
            match self.absolute_y(opcode) {
                Ok(a) => Ok(Option::Some(a)),
                Err(f) => Err(f),
            }
        } else if mode == MODE_IMMEDIATE {
            Ok(Option::Some(self.immediate()))
        } else if mode == MODE_INDEXED_INDIRECT {
            match self.indexed_indirect() {
                Ok(a) => Ok(Option::Some(a)),
                Err(f) => Err(f),
            }
        } else if mode == MODE_INDIRECT {
            match self.indirect() {
                Ok(a) => Ok(Option::Some(a)),
                Err(f) => Err(f),
            }
        } else if mode == MODE_INDIRECT_INDEXED {
            match self.indirect_indexed(opcode) {
                Ok(a) => Ok(Option::Some(a)),
                Err(f) => Err(f),
            }
        } else if mode == MODE_RELATIVE {
            match self.relative() {
                Ok(a) => Ok(Option::Some(a)),
                Err(f) => Err(f),
            }
        } else if mode == MODE_ZERO_PAGE {
            match self.zero_page() {
                Ok(a) => Ok(Option::Some(a)),
                Err(f) => Err(f),
            }
        } else if mode == MODE_ZERO_PAGE_X {
            match self.zero_page_x() {
                Ok(a) => Ok(Option::Some(a)),
                Err(f) => Err(f),
            }
        } else if mode == MODE_ZERO_PAGE_Y {
            match self.zero_page_y() {
                Ok(a) => Ok(Option::Some(a)),
                Err(f) => Err(f),
            }
        } else {
            Ok(Option::None)
        }
    }

    /// Service an interrupt through `vector`.
    pub(crate) fn interrupt_through(&mut self, vector: u16) -> (r: Result<(), Fault>)
        requires
            cpu_wf(old(self)@),
        ensures
            cpu_wf(final(self)@),
            steps_to(final(self)@, r, spec_interrupt(old(self)@, vector)),
    {
        let pc = self.pc;
        self.push16(pc);
        let p = self.p.bits;
        self.push(p | 0x10);
        let target = match self.read16(vector) {
            Ok(v) => v,
            Err(f) => {
                return Err(f);
            },
        };
        self.pc = target;
        self.p.set_i(true);
        self.cycles = self.cycles.wrapping_add(7);
        Ok(())
    }

    /// Execute one instruction, or consume one stall cycle, and return
    /// the cycles this call took.
    #[verifier::rlimit(100)]
    pub fn step(&mut self) -> (r: Result<u64, Fault>)
        requires
            cpu_wf(old(self)@),
        ensures
            cpu_wf(final(self)@),
            match spec_step(old(self)@) {
                Ok(sd) => r matches Ok(d) && d == sd.1 && final(self)@ == sd.0,
                Err(f) => r matches Err(g) && g == f,
            },
    {
        if self.stall > 0 {
            self.stall = self.stall - 1;
            return Ok(1);
        }
        match self.interrupt {
            Interrupt::Irq => {
                if !self.p.get_i() {
                    match self.interrupt_through(IRQ_BRK_VECTOR) {
                        Ok(()) => (),
                        Err(f) => {
                            return Err(f);
                        },
                    }
                }
            },
            Interrupt::Nmi => {
                match self.interrupt_through(NMI_VECTOR) {
                    Ok(()) => (),
                    Err(f) => {
                        return Err(f);
                    },
                }
            },
            Interrupt::Inactive => {},
        }
        self.interrupt = Interrupt::Inactive;
        let ghost si = self@;
        let cy: u64 = self.cycles;
        let pc = self.pc;
        let opcode = match self.read(pc) {
            Ok(v) => v,
            Err(f) => {
                return Err(f);
            },
        };
        proof {
            assert(spec_cpu_read(si, si.pc) == Ok::<(CpuView, u8), Fault>((self@, opcode)));
        }
        let ghost s1 = self@;
        let addr = match self.resolve_address(opcode) {
            Ok(v) => v,
            Err(f) => {
                return Err(f);
            },
        };
        proof {
            assert(spec_resolve(s1, opcode) == Ok::<(CpuView, Option<u16>), Fault>((
                self@,
                addr,
            )));
        }
        self.pc = ((self.pc as u32 + instruction_size(opcode) as u32) % 0x10000) as u16;
        self.cycles = self.cycles.wrapping_add(instruction_cycles(opcode) as u64);
        let ghost s3 = self@;
        match self.execute(opcode, addr) {
            Ok(()) => (),
            Err(f) => {
                return Err(f);
            },
        }
        proof {
            assert(crate::cpu_ops::spec_execute(s3, opcode, addr) == Ok::<CpuView, Fault>(self@));
            vstd::arithmetic::div_mod::lemma_mod_multiples_vanish(
                1,
                self@.cycles as int - cy as int,
                0x1_0000_0000_0000_0000,
            );
        }
        Ok(self.cycles.wrapping_sub(cy))
    }

    /// Advance the PPU by one dot, latching an NMI when it requests
    /// one at the start of vertical blank.
    pub fn step_ppu(&mut self) -> (r: Result<(), Fault>)
        requires
            cpu_wf(old(self)@),
        ensures
            cpu_wf(final(self)@),
            match spec_ppu_step(old(self)@.bus.ppu, old(self)@.bus.mapper) {
                Ok(pn) => r is Ok && final(self)@ == (CpuView {
                    bus: BusView { ppu: pn.0, ..old(self)@.bus },
                    interrupt: if pn.1 {
                        Interrupt::Nmi
                    } else {
                        old(self)@.interrupt
                    },
                    ..old(self)@
                }),
                Err(f) => r matches Err(g) && g == f,
            },
    {
        let nmi = match self.bus.ppu_step() {
            Ok(b) => b,
            Err(f) => {
                return Err(f);
            },
        };
        if nmi {
            self.trigger_nmi();
        }
        Ok(())
    }
}

} // verus!

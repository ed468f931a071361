//! Instruction semantics of the 6502, official and illegal.
//!
//! Each instruction is one transition on `CpuView`, written beside the
//! executable code that performs it.  Arithmetic follows the
//! hardware: bytes and addresses wrap, the Zero and Negative flags
//! follow every ALU result, and ADC/SBC compute Carry and Overflow by
//! the two's-complement rules.

use vstd::prelude::*;

use crate::bits::{pages_differ, w16, w64, w8};
use crate::cpu::{
    cpu_wf, spec_cpu_read, spec_cpu_write, spec_interrupt, spec_nz, spec_pull, spec_pull16,
    spec_push, spec_push16, spec_read16, steps_to, Cpu, CpuView, IRQ_BRK_VECTOR, NMI_VECTOR,
};
use crate::fault::Fault;
use crate::status::{flag_on, flag_put, FLAG_C, FLAG_D, FLAG_I, FLAG_N, FLAG_V, FLAG_Z};

verus! {

/// ADC: the accumulator gains the operand and the carry; Carry is the
/// unsigned overflow of the sum, Overflow its two's-complement
/// overflow (same-sign operands, different-sign result).
pub open spec fn spec_adc(s: CpuView, addr: u16) -> Result<CpuView, Fault> {
    match spec_cpu_read(s, addr) {
        Err(f) => Err(f),
        Ok((s1, m)) => {
            let a = s1.a;
            let c: int = if flag_on(s1.p, FLAG_C) {
                1
            } else {
                0
            };
            let result = w8(a + m + c);
            let p1 = spec_nz(s1.p, result);
            let p2 = flag_put(p1, FLAG_C, a + m + c > 0xFF);
            let p3 = flag_put(p2, FLAG_V, (a ^ m) & 0x80 == 0 && (a ^ result) & 0x80 != 0);
            Ok(CpuView { a: result, p: p3, ..s1 })
        },
    }
}

/// SBC: the accumulator loses the operand and the borrow; Carry is set
/// when no borrow out occurs, Overflow by the two's-complement rule.
pub open spec fn spec_sbc(s: CpuView, addr: u16) -> Result<CpuView, Fault> {
    match spec_cpu_read(s, addr) {
        Err(f) => Err(f),
        Ok((s1, m)) => {
            let a = s1.a;
            let c: int = if flag_on(s1.p, FLAG_C) {
                1
            } else {
                0
            };
            let result = w8(a + 0x100 - m - (1 - c));
            let p1 = spec_nz(s1.p, result);
            let p2 = flag_put(p1, FLAG_C, a - m - (1 - c) >= 0);
            let p3 = flag_put(p2, FLAG_V, (a ^ m) & 0x80 != 0 && (a ^ result) & 0x80 != 0);
            Ok(CpuView { a: result, p: p3, ..s1 })
        },
    }
}

/// LDA: load the accumulator, setting Zero and Negative.
pub open spec fn spec_lda(s: CpuView, addr: u16) -> Result<CpuView, Fault> {
    match spec_cpu_read(s, addr) {
        Err(f) => Err(f),
        Ok((s1, m)) => Ok(CpuView { a: m, p: spec_nz(s1.p, m), ..s1 }),
    }
}

/// LDX: load X, setting Zero and Negative.
pub open spec fn spec_ldx(s: CpuView, addr: u16) -> Result<CpuView, Fault> {
    match spec_cpu_read(s, addr) {
        Err(f) => Err(f),
        Ok((s1, m)) => Ok(CpuView { x: m, p: spec_nz(s1.p, m), ..s1 }),
    }
}

/// LDY: load Y, setting Zero and Negative.
pub open spec fn spec_ldy(s: CpuView, addr: u16) -> Result<CpuView, Fault> {
    match spec_cpu_read(s, addr) {
        Err(f) => Err(f),
        Ok((s1, m)) => Ok(CpuView { y: m, p: spec_nz(s1.p, m), ..s1 }),
    }
}

/// STA: store the accumulator.
pub open spec fn spec_sta(s: CpuView, addr: u16) -> Result<CpuView, Fault> {
    spec_cpu_write(s, addr, s.a)
}

/// STX: store X.
pub open spec fn spec_stx(s: CpuView, addr: u16) -> Result<CpuView, Fault> {
    spec_cpu_write(s, addr, s.x)
}

/// STY: store Y.
pub open spec fn spec_sty(s: CpuView, addr: u16) -> Result<CpuView, Fault> {
    spec_cpu_write(s, addr, s.y)
}

/// CMP/CPX/CPY: flags from `reg - m`; Carry iff `reg >= m`.
pub open spec fn spec_compare(s: CpuView, addr: u16, reg: u8) -> Result<CpuView, Fault> {
    match spec_cpu_read(s, addr) {
        Err(f) => Err(f),
        Ok((s1, m)) => {
            let p1 = spec_nz(s1.p, w8(reg + 0x100 - m));
            Ok(CpuView { p: flag_put(p1, FLAG_C, reg >= m), ..s1 })
        },
    }
}

/// AND: accumulator bitwise-and operand, setting Zero and Negative.
pub open spec fn spec_and(s: CpuView, addr: u16) -> Result<CpuView, Fault> {
    match spec_cpu_read(s, addr) {
        Err(f) => Err(f),
        Ok((s1, m)) => {
            let a2 = s1.a & m;
            Ok(CpuView { a: a2, p: spec_nz(s1.p, a2), ..s1 })
        },
    }
}

/// ORA: accumulator bitwise-or operand, setting Zero and Negative.
pub open spec fn spec_ora(s: CpuView, addr: u16) -> Result<CpuView, Fault> {
    match spec_cpu_read(s, addr) {
        Err(f) => Err(f),
        Ok((s1, m)) => {
            let a2 = s1.a | m;
            Ok(CpuView { a: a2, p: spec_nz(s1.p, a2), ..s1 })
        },
    }
}

/// EOR: accumulator bitwise-xor operand, setting Zero and Negative.
pub open spec fn spec_eor(s: CpuView, addr: u16) -> Result<CpuView, Fault> {
    match spec_cpu_read(s, addr) {
        Err(f) => Err(f),
        Ok((s1, m)) => {
            let a2 = s1.a ^ m;
            Ok(CpuView { a: a2, p: spec_nz(s1.p, a2), ..s1 })
        },
    }
}

/// BIT: Overflow from bit 6 of the operand, Zero from the masked
/// accumulator, Negative from bit 7 of the operand.
pub open spec fn spec_bit(s: CpuView, addr: u16) -> Result<CpuView, Fault> {
    match spec_cpu_read(s, addr) {
        Err(f) => Err(f),
        Ok((s1, m)) => {
            let p1 = flag_put(s1.p, FLAG_V, (m >> 6) & 1 == 1);
            let p2 = flag_put(p1, FLAG_Z, m & s1.a == 0);
            Ok(CpuView { p: flag_put(p2, FLAG_N, m & 0x80 != 0), ..s1 })
        },
    }
}

/// ASL on the accumulator: Carry takes bit 7, the byte doubles.
pub open spec fn spec_asl_a(s: CpuView) -> Result<CpuView, Fault> {
    let p1 = flag_put(s.p, FLAG_C, (s.a >> 7) & 1 == 1);
    let result = w8(s.a * 2);
    Ok(CpuView { a: result, p: spec_nz(p1, result), ..s })
}

/// ASL on memory.
pub open spec fn spec_asl(s: CpuView, addr: u16) -> Result<CpuView, Fault> {
    match spec_cpu_read(s, addr) {
        Err(f) => Err(f),
        Ok((s1, m)) => {
            let val = w8(m * 2);
            let s2 = CpuView { p: flag_put(s1.p, FLAG_C, (m >> 7) & 1 == 1), ..s1 };
            match spec_cpu_write(s2, addr, val) {
                Err(f) => Err(f),
                Ok(s3) => Ok(CpuView { p: spec_nz(s3.p, val), ..s3 }),
            }
        },
    }
}

/// LSR on the accumulator: Carry takes bit 0, the byte halves.
pub open spec fn spec_lsr_a(s: CpuView) -> Result<CpuView, Fault> {
    let p1 = flag_put(s.p, FLAG_C, s.a & 1 == 1);
    let result = (s.a / 2) as u8;
    Ok(CpuView { a: result, p: spec_nz(p1, result), ..s })
}

/// LSR on memory.
pub open spec fn spec_lsr(s: CpuView, addr: u16) -> Result<CpuView, Fault> {
    match spec_cpu_read(s, addr) {
        Err(f) => Err(f),
        Ok((s1, m)) => {
            let val = (m / 2) as u8;
            let s2 = CpuView { p: flag_put(s1.p, FLAG_C, m & 1 == 1), ..s1 };
            match spec_cpu_write(s2, addr, val) {
                Err(f) => Err(f),
                Ok(s3) => Ok(CpuView { p: spec_nz(s3.p, val), ..s3 }),
            }
        },
    }
}

/// ROL on the accumulator: the old carry enters bit 0, bit 7 leaves
/// into Carry.
pub open spec fn spec_rol_a(s: CpuView) -> Result<CpuView, Fault> {
    let c: int = if flag_on(s.p, FLAG_C) {
        1
    } else {
        0
    };
    let p1 = flag_put(s.p, FLAG_C, (s.a >> 7) & 1 == 1);
    let result = w8(s.a * 2 + c);
    Ok(CpuView { a: result, p: spec_nz(p1, result), ..s })
}

/// ROL on memory.
pub open spec fn spec_rol(s: CpuView, addr: u16) -> Result<CpuView, Fault> {
    match spec_cpu_read(s, addr) {
        Err(f) => Err(f),
        Ok((s1, m)) => {
            let c: int = if flag_on(s1.p, FLAG_C) {
                1
            } else {
                0
            };
            let val = w8(m * 2 + c);
            let s2 = CpuView { p: flag_put(s1.p, FLAG_C, (m >> 7) & 1 == 1), ..s1 };
            match spec_cpu_write(s2, addr, val) {
                Err(f) => Err(f),
                Ok(s3) => Ok(CpuView { p: spec_nz(s3.p, val), ..s3 }),
            }
        },
    }
}

/// ROR on the accumulator: the old carry enters bit 7, bit 0 leaves
/// into Carry.
pub open spec fn spec_ror_a(s: CpuView) -> Result<CpuView, Fault> {
    let c: u8 = if flag_on(s.p, FLAG_C) {
        1
    } else {
        0
    };
    let p1 = flag_put(s.p, FLAG_C, s.a & 1 == 1);
    let result = (s.a / 2 + c * 0x80) as u8;
    Ok(CpuView { a: result, p: spec_nz(p1, result), ..s })
}

/// ROR on memory.
pub open spec fn spec_ror(s: CpuView, addr: u16) -> Result<CpuView, Fault> {
    match spec_cpu_read(s, addr) {
        Err(f) => Err(f),
        Ok((s1, m)) => {
            let c: u8 = if flag_on(s1.p, FLAG_C) {
                1
            } else {
                0
            };
            let val = (m / 2 + c * 0x80) as u8;
            let s2 = CpuView { p: flag_put(s1.p, FLAG_C, m & 1 == 1), ..s1 };
            match spec_cpu_write(s2, addr, val) {
                Err(f) => Err(f),
                Ok(s3) => Ok(CpuView { p: spec_nz(s3.p, val), ..s3 }),
            }
        },
    }
}

/// INC: the memory byte gains one, setting Zero and Negative.
pub open spec fn spec_inc(s: CpuView, addr: u16) -> Result<CpuView, Fault> {
    match spec_cpu_read(s, addr) {
        Err(f) => Err(f),
        Ok((s1, m)) => {
            let val = w8(m + 1);
            match spec_cpu_write(s1, addr, val) {
                Err(f) => Err(f),
                Ok(s2) => Ok(CpuView { p: spec_nz(s2.p, val), ..s2 }),
            }
        },
    }
}

/// DEC: the memory byte loses one, setting Zero and Negative.
pub open spec fn spec_dec(s: CpuView, addr: u16) -> Result<CpuView, Fault> {
    match spec_cpu_read(s, addr) {
        Err(f) => Err(f),
        Ok((s1, m)) => {
            let val = w8(m + 0xFF);
            match spec_cpu_write(s1, addr, val) {
                Err(f) => Err(f),
                Ok(s2) => Ok(CpuView { p: spec_nz(s2.p, val), ..s2 }),
            }
        },
    }
}

/// A taken branch costs one cycle, and one more when the target lies
/// in a different page than the address after the branch.
pub open spec fn spec_branch(s: CpuView, addr: u16, taken: bool) -> CpuView {
    if taken {
        let c1 = w64(s.cycles + 1);
        let c2: u64 = if pages_differ(s.pc, addr) {
            w64(c1 + 1)
        } else {
            c1
        };
        CpuView { cycles: c2, pc: addr, ..s }
    } else {
        s
    }
}

pub open spec fn spec_bpl(s: CpuView, addr: u16) -> Result<CpuView, Fault> {
    Ok(spec_branch(s, addr, !flag_on(s.p, FLAG_N)))
}

pub open spec fn spec_bmi(s: CpuView, addr: u16) -> Result<CpuView, Fault> {
    Ok(spec_branch(s, addr, flag_on(s.p, FLAG_N)))
}

pub open spec fn spec_bvc(s: CpuView, addr: u16) -> Result<CpuView, Fault> {
    Ok(spec_branch(s, addr, !flag_on(s.p, FLAG_V)))
}

pub open spec fn spec_bvs(s: CpuView, addr: u16) -> Result<CpuView, Fault> {
    Ok(spec_branch(s, addr, flag_on(s.p, FLAG_V)))
}

pub open spec fn spec_bcc(s: CpuView, addr: u16) -> Result<CpuView, Fault> {
    Ok(spec_branch(s, addr, !flag_on(s.p, FLAG_C)))
}

pub open spec fn spec_bcs(s: CpuView, addr: u16) -> Result<CpuView, Fault> {
    Ok(spec_branch(s, addr, flag_on(s.p, FLAG_C)))
}

pub open spec fn spec_bne(s: CpuView, addr: u16) -> Result<CpuView, Fault> {
    Ok(spec_branch(s, addr, !flag_on(s.p, FLAG_Z)))
}

pub open spec fn spec_beq(s: CpuView, addr: u16) -> Result<CpuView, Fault> {
    Ok(spec_branch(s, addr, flag_on(s.p, FLAG_Z)))
}

/// JMP: the program counter becomes the address.
pub open spec fn spec_jmp(s: CpuView, addr: u16) -> Result<CpuView, Fault> {
    Ok(CpuView { pc: addr, ..s })
}

/// JSR: the address of the call's last byte is pushed and control
/// transfers.
pub open spec fn spec_jsr(s: CpuView, addr: u16) -> Result<CpuView, Fault> {
    let s1 = spec_push16(s, w16(s.pc + 0xFFFF));
    Ok(CpuView { pc: addr, ..s1 })
}

/// RTS: control returns to one past the pushed address.
pub open spec fn spec_rts(s: CpuView) -> Result<CpuView, Fault> {
    let (s1, v) = spec_pull16(s);
    Ok(CpuView { pc: w16(v + 1), ..s1 })
}

/// BRK: a software interrupt through the IRQ/BRK vector, pushing the
/// status with bit 4 forced on and disabling interrupts.
pub open spec fn spec_brk(s: CpuView) -> Result<CpuView, Fault> {
    let pc_old = s.pc;
    match spec_read16(s, IRQ_BRK_VECTOR) {
        Err(f) => Err(f),
        Ok((s1, target)) => {
            let s2 = CpuView { pc: target, ..s1 };
            let s3 = spec_push16(s2, pc_old);
            let s4 = spec_push(s3, s3.p | 0x10);
            Ok(CpuView { p: flag_put(s4.p, FLAG_I, true), ..s4 })
        },
    }
}

/// RTI: the status (bit 4 cleared, bit 5 forced) and the program
/// counter come back off the stack.
pub open spec fn spec_rti(s: CpuView) -> Result<CpuView, Fault> {
    let (s1, v) = spec_pull(s);
    let s2 = CpuView { p: (v & 0xEF) | 0x20, ..s1 };
    let (s3, pc2) = spec_pull16(s2);
    Ok(CpuView { pc: pc2, ..s3 })
}

/// PHA: push the accumulator.
pub open spec fn spec_pha(s: CpuView) -> Result<CpuView, Fault> {
    Ok(spec_push(s, s.a))
}

/// PHP: push the status with bit 4 forced on.
pub open spec fn spec_php(s: CpuView) -> Result<CpuView, Fault> {
    Ok(spec_push(s, s.p | 0x10))
}

/// PLA: pull the accumulator, setting Zero and Negative.
pub open spec fn spec_pla(s: CpuView) -> Result<CpuView, Fault> {
    let (s1, v) = spec_pull(s);
    Ok(CpuView { a: v, p: spec_nz(s1.p, v), ..s1 })
}

/// PLP: pull the status, clearing bit 4 and forcing bit 5.
pub open spec fn spec_plp(s: CpuView) -> Result<CpuView, Fault> {
    let (s1, v) = spec_pull(s);
    Ok(CpuView { p: (v & 0xEF) | 0x20, ..s1 })
}

pub open spec fn spec_inx(s: CpuView) -> Result<CpuView, Fault> {
    let v = w8(s.x + 1);
    Ok(CpuView { x: v, p: spec_nz(s.p, v), ..s })
}

pub open spec fn spec_dex(s: CpuView) -> Result<CpuView, Fault> {
    let v = w8(s.x + 0xFF);
    Ok(CpuView { x: v, p: spec_nz(s.p, v), ..s })
}

pub open spec fn spec_iny(s: CpuView) -> Result<CpuView, Fault> {
    let v = w8(s.y + 1);
    Ok(CpuView { y: v, p: spec_nz(s.p, v), ..s })
}

pub open spec fn spec_dey(s: CpuView) -> Result<CpuView, Fault> {
    let v = w8(s.y + 0xFF);
    Ok(CpuView { y: v, p: spec_nz(s.p, v), ..s })
}

pub open spec fn spec_tax(s: CpuView) -> Result<CpuView, Fault> {
    Ok(CpuView { x: s.a, p: spec_nz(s.p, s.a), ..s })
}

pub open spec fn spec_tay(s: CpuView) -> Result<CpuView, Fault> {
    Ok(CpuView { y: s.a, p: spec_nz(s.p, s.a), ..s })
}

pub open spec fn spec_txa(s: CpuView) -> Result<CpuView, Fault> {
    Ok(CpuView { a: s.x, p: spec_nz(s.p, s.x), ..s })
}

pub open spec fn spec_tya(s: CpuView) -> Result<CpuView, Fault> {
    Ok(CpuView { a: s.y, p: spec_nz(s.p, s.y), ..s })
}

pub open spec fn spec_tsx(s: CpuView) -> Result<CpuView, Fault> {
    Ok(CpuView { x: s.sp, p: spec_nz(s.p, s.sp), ..s })
}

/// TXS sets no flags.
pub open spec fn spec_txs(s: CpuView) -> Result<CpuView, Fault> {
    Ok(CpuView { sp: s.x, ..s })
}

pub open spec fn spec_clc(s: CpuView) -> Result<CpuView, Fault> {
    Ok(CpuView { p: flag_put(s.p, FLAG_C, false), ..s })
}

pub open spec fn spec_sec(s: CpuView) -> Result<CpuView, Fault> {
    Ok(CpuView { p: flag_put(s.p, FLAG_C, true), ..s })
}

pub open spec fn spec_cli(s: CpuView) -> Result<CpuView, Fault> {
    Ok(CpuView { p: flag_put(s.p, FLAG_I, false), ..s })
}

pub open spec fn spec_sei(s: CpuView) -> Result<CpuView, Fault> {
    Ok(CpuView { p: flag_put(s.p, FLAG_I, true), ..s })
}

pub open spec fn spec_clv(s: CpuView) -> Result<CpuView, Fault> {
    Ok(CpuView { p: flag_put(s.p, FLAG_V, false), ..s })
}

pub open spec fn spec_cld(s: CpuView) -> Result<CpuView, Fault> {
    Ok(CpuView { p: flag_put(s.p, FLAG_D, false), ..s })
}

pub open spec fn spec_sed(s: CpuView) -> Result<CpuView, Fault> {
    Ok(CpuView { p: flag_put(s.p, FLAG_D, true), ..s })
}

/// LAX: load the accumulator and X together.
pub open spec fn spec_lax(s: CpuView, addr: u16) -> Result<CpuView, Fault> {
    match spec_cpu_read(s, addr) {
        Err(f) => Err(f),
        Ok((s1, m)) => Ok(CpuView { a: m, x: m, p: spec_nz(s1.p, m), ..s1 }),
    }
}

/// SAX: store the accumulator masked by X, touching no flags.
pub open spec fn spec_sax(s: CpuView, addr: u16) -> Result<CpuView, Fault> {
    spec_cpu_write(s, addr, s.a & s.x)
}

/// DCP: DEC then CMP against the accumulator.
pub open spec fn spec_dcp(s: CpuView, addr: u16) -> Result<CpuView, Fault> {
    match spec_dec(s, addr) {
        Err(f) => Err(f),
        Ok(s1) => spec_compare(s1, addr, s1.a),
    }
}

/// ISC: INC then SBC.
pub open spec fn spec_isc(s: CpuView, addr: u16) -> Result<CpuView, Fault> {
    match spec_inc(s, addr) {
        Err(f) => Err(f),
        Ok(s1) => spec_sbc(s1, addr),
    }
}

/// SLO: shift the memory byte left, then OR it into the accumulator.
pub open spec fn spec_slo(s: CpuView, addr: u16) -> Result<CpuView, Fault> {
    match spec_cpu_read(s, addr) {
        Err(f) => Err(f),
        Ok((s1, m)) => {
            let val = w8(m * 2);
            let a2 = s1.a | val;
            let p1 = flag_put(s1.p, FLAG_C, (m >> 7) & 1 == 1);
            let s2 = CpuView { a: a2, p: spec_nz(p1, a2), ..s1 };
            spec_cpu_write(s2, addr, val)
        },
    }
}

/// RLA: rotate the memory byte left, then AND it into the accumulator.
pub open spec fn spec_rla(s: CpuView, addr: u16) -> Result<CpuView, Fault> {
    match spec_cpu_read(s, addr) {
        Err(f) => Err(f),
        Ok((s1, m)) => {
            let c: int = if flag_on(s1.p, FLAG_C) {
                1
            } else {
                0
            };
            let val = w8(m * 2 + c);
            let a2 = s1.a & val;
            let p1 = flag_put(s1.p, FLAG_C, (m >> 7) & 1 == 1);
            let s2 = CpuView { a: a2, p: spec_nz(p1, a2), ..s1 };
            spec_cpu_write(s2, addr, val)
        },
    }
}

/// SRE: shift the memory byte right, then XOR it into the accumulator.
pub open spec fn spec_sre(s: CpuView, addr: u16) -> Result<CpuView, Fault> {
    match spec_cpu_read(s, addr) {
        Err(f) => Err(f),
        Ok((s1, m)) => {
            let val = (m / 2) as u8;
            let a2 = s1.a ^ val;
            let p1 = flag_put(s1.p, FLAG_C, m & 1 == 1);
            let s2 = CpuView { a: a2, p: spec_nz(p1, a2), ..s1 };
            spec_cpu_write(s2, addr, val)
        },
    }
}

/// RRA: ROR the memory byte, then ADC it.
pub open spec fn spec_rra(s: CpuView, addr: u16) -> Result<CpuView, Fault> {
    match spec_ror(s, addr) {
        Err(f) => Err(f),
        Ok(s1) => spec_adc(s1, addr),
    }
}

#[verifier::opaque]
pub open spec fn spec_execute(s: CpuView, op: u8, addr: Option<u16>) -> Result<CpuView, Fault> {
    match op {
        0x69 | 0x65 | 0x75 | 0x6d | 0x7d | 0x79 | 0x61 | 0x71 => match addr {
            Option::Some(a) => spec_adc(s, a),
            Option::None => Err(Fault::MissingAddress(op)),
        },
        0xe9 | 0xe5 | 0xf5 | 0xed | 0xfd | 0xf9 | 0xe1 | 0xf1 | 0xeb => match addr {
            Option::Some(a) => spec_sbc(s, a),
            Option::None => Err(Fault::MissingAddress(op)),
        },
        0xa1 | 0xa5 | 0xa9 | 0xad | 0xb1 | 0xb5 | 0xb9 | 0xbd => match addr {
            Option::Some(a) => spec_lda(s, a),
            Option::None => Err(Fault::MissingAddress(op)),
        },
        0xa2 | 0xa6 | 0xb6 | 0xae | 0xbe => match addr {
            Option::Some(a) => spec_ldx(s, a),
            Option::None => Err(Fault::MissingAddress(op)),
        },
        0xa0 | 0xa4 | 0xb4 | 0xac | 0xbc => match addr {
            Option::Some(a) => spec_ldy(s, a),
            Option::None => Err(Fault::MissingAddress(op)),
        },
        0x85 | 0x95 | 0x8d | 0x9d | 0x99 | 0x81 | 0x91 => match addr {
            Option::Some(a) => spec_sta(s, a),
            Option::None => Err(Fault::MissingAddress(op)),
        },
        0x86 | 0x96 | 0x8e => match addr {
            Option::Some(a) => spec_stx(s, a),
            Option::None => Err(Fault::MissingAddress(op)),
        },
        0x84 | 0x94 | 0x8c => match addr {
            Option::Some(a) => spec_sty(s, a),
            Option::None => Err(Fault::MissingAddress(op)),
        },
        0xc9 | 0xc5 | 0xd5 | 0xcd | 0xdd | 0xd9 | 0xc1 | 0xd1 => match addr {
            Option::Some(a) => spec_compare(s, a, s.a),
            Option::None => Err(Fault::MissingAddress(op)),
        },
        0xe0 | 0xe4 | 0xec => match addr {
            Option::Some(a) => spec_compare(s, a, s.x),
            Option::None => Err(Fault::MissingAddress(op)),
        },
        0xc0 | 0xc4 | 0xcc => match addr {
            Option::Some(a) => spec_compare(s, a, s.y),
            Option::None => Err(Fault::MissingAddress(op)),
        },
        0x29 | 0x25 | 0x35 | 0x2d | 0x3d | 0x39 | 0x21 | 0x31 => match addr {
            Option::Some(a) => spec_and(s, a),
            Option::None => Err(Fault::MissingAddress(op)),
        },
        0x09 | 0x05 | 0x15 | 0x0d | 0x1d | 0x19 | 0x01 | 0x11 => match addr {
            Option::Some(a) => spec_ora(s, a),
            Option::None => Err(Fault::MissingAddress(op)),
        },
        0x49 | 0x45 | 0x55 | 0x4d | 0x5d | 0x59 | 0x41 | 0x51 => match addr {
            Option::Some(a) => spec_eor(s, a),
            Option::None => Err(Fault::MissingAddress(op)),
        },
        0x24 | 0x2c => match addr {
            Option::Some(a) => spec_bit(s, a),
            Option::None => Err(Fault::MissingAddress(op)),
        },
        0x2a => spec_rol_a(s),
        0x26 | 0x36 | 0x2e | 0x3e => match addr {
            Option::Some(a) => spec_rol(s, a),
            Option::None => Err(Fault::MissingAddress(op)),
        },
        0x6a => spec_ror_a(s),
        0x66 | 0x76 | 0x6e | 0x7e => match addr {
            Option::Some(a) => spec_ror(s, a),
            Option::None => Err(Fault::MissingAddress(op)),
        },
        0x0a => spec_asl_a(s),
        0x06 | 0x16 | 0x0e | 0x1e => match addr {
            Option::Some(a) => spec_asl(s, a),
            Option::None => Err(Fault::MissingAddress(op)),
        },
        0x4a => spec_lsr_a(s),
        0x46 | 0x56 | 0x4e | 0x5e => match addr {
            Option::Some(a) => spec_lsr(s, a),
            Option::None => Err(Fault::MissingAddress(op)),
        },
        0xe6 | 0xf6 | 0xee | 0xfe => match addr {
            Option::Some(a) => spec_inc(s, a),
            Option::None => Err(Fault::MissingAddress(op)),
        },
        0xc6 | 0xd6 | 0xce | 0xde => match addr {
            Option::Some(a) => spec_dec(s, a),
            Option::None => Err(Fault::MissingAddress(op)),
        },
        0xe8 => spec_inx(s),
        0xca => spec_dex(s),
        0xc8 => spec_iny(s),
        0x88 => spec_dey(s),
        0xaa => spec_tax(s),
        0xa8 => spec_tay(s),
        0x8a => spec_txa(s),
        0x98 => spec_tya(s),
        0x9a => spec_txs(s),
        0xba => spec_tsx(s),
        0x18 => spec_clc(s),
        0x38 => spec_sec(s),
        0x58 => spec_cli(s),
        0x78 => spec_sei(s),
        0xb8 => spec_clv(s),
        0xd8 => spec_cld(s),
        0xf8 => spec_sed(s),
        0x10 => match addr {
            Option::Some(a) => spec_bpl(s, a),
            Option::None => Err(Fault::MissingAddress(op)),
        },
        0x30 => match addr {
            Option::Some(a) => spec_bmi(s, a),
            Option::None => Err(Fault::MissingAddress(op)),
        },
        0x50 => match addr {
            Option::Some(a) => spec_bvc(s, a),
            Option::None => Err(Fault::MissingAddress(op)),
        },
        0x70 => match addr {
            Option::Some(a) => spec_bvs(s, a),
            Option::None => Err(Fault::MissingAddress(op)),
        },
        0x90 => match addr {
            Option::Some(a) => spec_bcc(s, a),
            Option::None => Err(Fault::MissingAddress(op)),
        },
        0xb0 => match addr {
            Option::Some(a) => spec_bcs(s, a),
            Option::None => Err(Fault::MissingAddress(op)),
        },
        0xd0 => match addr {
            Option::Some(a) => spec_bne(s, a),
            Option::None => Err(Fault::MissingAddress(op)),
        },
        0xf0 => match addr {
            Option::Some(a) => spec_beq(s, a),
            Option::None => Err(Fault::MissingAddress(op)),
        },
        0x4c | 0x6c => match addr {
            Option::Some(a) => spec_jmp(s, a),
            Option::None => Err(Fault::MissingAddress(op)),
        },
        0x20 => match addr {
            Option::Some(a) => spec_jsr(s, a),
            Option::None => Err(Fault::MissingAddress(op)),
        },
        0x60 => spec_rts(s),
        0x00 => spec_brk(s),
        0x40 => spec_rti(s),
        0x48 => spec_pha(s),
        0x68 => spec_pla(s),
        0x08 => spec_php(s),
        0x28 => spec_plp(s),
        0xea | 0x1a | 0x3a | 0x5a | 0x7a | 0xda | 0xfa | 0x04 | 0x14 | 0x34 | 0x44 | 0x54 | 0x64 | 0x74 | 0x80 | 0x82 | 0x89 | 0xc2 | 0xd4 | 0xe2 | 0xf4 | 0x0c | 0x1c | 0x3c | 0x5c | 0x7c | 0xdc | 0xfc => Ok(s),
        0xa7 | 0xb7 | 0xaf | 0xbf | 0xa3 | 0xb3 => match addr {
            Option::Some(a) => spec_lax(s, a),
            Option::None => Err(Fault::MissingAddress(op)),
        },
        0x87 | 0x97 | 0x83 | 0x8f => match addr {
            Option::Some(a) => spec_sax(s, a),
            Option::None => Err(Fault::MissingAddress(op)),
        },
        0xc7 | 0xd7 | 0xcf | 0xdf | 0xdb | 0xc3 | 0xd3 => match addr {
            Option::Some(a) => spec_dcp(s, a),
            Option::None => Err(Fault::MissingAddress(op)),
        },
        0xe7 | 0xf7 | 0xef | 0xff | 0xfb | 0xe3 | 0xf3 => match addr {
            Option::Some(a) => spec_isc(s, a),
            Option::None => Err(Fault::MissingAddress(op)),
        },
        0x07 | 0x17 | 0x0f | 0x1f | 0x1b | 0x03 | 0x13 => match addr {
            Option::Some(a) => spec_slo(s, a),
            Option::None => Err(Fault::MissingAddress(op)),
        },
        0x27 | 0x37 | 0x2f | 0x3f | 0x3b | 0x23 | 0x33 => match addr {
            Option::Some(a) => spec_rla(s, a),
            Option::None => Err(Fault::MissingAddress(op)),
        },
        0x47 | 0x57 | 0x4f | 0x5f | 0x5b | 0x43 | 0x53 => match addr {
            Option::Some(a) => spec_sre(s, a),
            Option::None => Err(Fault::MissingAddress(op)),
        },
        0x67 | 0x77 | 0x6f | 0x7f | 0x7b | 0x63 | 0x73 => match addr {
            Option::Some(a) => spec_rra(s, a),
            Option::None => Err(Fault::MissingAddress(op)),
        },
        _ => Err(Fault::IllegalOpcode(op)),
    }
}

impl Cpu {
    /// ADC - Add with Carry.
    pub fn adc(&mut self, addr: u16) -> (r: Result<(), Fault>)
        requires
            cpu_wf(old(self)@),
        ensures
            cpu_wf(final(self)@),
            steps_to(final(self)@, r, spec_adc(old(self)@, addr)),
    {
        let m = match self.read(addr) {
            Ok(v) => v,
            Err(f) => {
                return Err(f);
            },
        };
        let a = self.a;
        let c: u8 = if self.p.get_c() {
            1
        } else {
            0
        };
        let result: u8 = ((a as u16 + m as u16 + c as u16) % 0x100) as u8;
        self.a = result;
        self.check_negative_zero(result);
        self.p.set_c(a as u16 + m as u16 + c as u16 > 0xFF);
        self.p.set_v((a ^ m) & 0x80 == 0 && (a ^ result) & 0x80 != 0);
        Ok(())
    }

    /// SBC - Subtract with Carry.
    pub fn sbc(&mut self, addr: u16) -> (r: Result<(), Fault>)
        requires
            cpu_wf(old(self)@),
        ensures
            cpu_wf(final(self)@),
            steps_to(final(self)@, r, spec_sbc(old(self)@, addr)),
    {
        let m = match self.read(addr) {
            Ok(v) => v,
            Err(f) => {
                return Err(f);
            },
        };
        let a = self.a;
        let c: u8 = if self.p.get_c() {
            1
        } else {
            0
        };
        let result: u8 = ((a as u16 + 0x100 - m as u16 - (1 - c) as u16) % 0x100) as u8;
        self.a = result;
        self.check_negative_zero(result);
        self.p.set_c(a as i16 - m as i16 - (1 - c) as i16 >= 0);
        self.p.set_v((a ^ m) & 0x80 != 0 && (a ^ result) & 0x80 != 0);
        Ok(())
    }

    /// LDA - Load Accumulator.
    pub fn lda(&mut self, addr: u16) -> (r: Result<(), Fault>)
        requires
            cpu_wf(old(self)@),
        ensures
            cpu_wf(final(self)@),
            steps_to(final(self)@, r, spec_lda(old(self)@, addr)),
    {
        let m = match self.read(addr) {
            Ok(v) => v,
            Err(f) => {
                return Err(f);
            },
        };
        self.a = m;
        self.check_negative_zero(m);
        Ok(())
    }

    /// LDX - Load X Register.
    pub fn ldx(&mut self, addr: u16) -> (r: Result<(), Fault>)
        requires
            cpu_wf(old(self)@),
        ensures
            cpu_wf(final(self)@),
            steps_to(final(self)@, r, spec_ldx(old(self)@, addr)),
    {
        let m = match self.read(addr) {
            Ok(v) => v,
            Err(f) => {
                return Err(f);
            },
        };
        self.x = m;
        self.check_negative_zero(m);
        Ok(())
    }

    /// LDY - Load Y Register.
    pub fn ldy(&mut self, addr: u16) -> (r: Result<(), Fault>)
        requires
            cpu_wf(old(self)@),
        ensures
            cpu_wf(final(self)@),
            steps_to(final(self)@, r, spec_ldy(old(self)@, addr)),
    {
        let m = match self.read(addr) {
            Ok(v) => v,
            Err(f) => {
                return Err(f);
            },
        };
        self.y = m;
        self.check_negative_zero(m);
        Ok(())
    }

    /// STA - Store Accumulator.
    pub fn sta(&mut self, addr: u16) -> (r: Result<(), Fault>)
        requires
            cpu_wf(old(self)@),
        ensures
            cpu_wf(final(self)@),
            steps_to(final(self)@, r, spec_sta(old(self)@, addr)),
    {
        let a = self.a;
        self.write(addr, a)
    }

    /// STX - Store X Register.
    pub fn stx(&mut self, addr: u16) -> (r: Result<(), Fault>)
        requires
            cpu_wf(old(self)@),
        ensures
            cpu_wf(final(self)@),
            steps_to(final(self)@, r, spec_stx(old(self)@, addr)),
    {
        let x = self.x;
        self.write(addr, x)
    }

    /// STY - Store Y Register.
    pub fn sty(&mut self, addr: u16) -> (r: Result<(), Fault>)
        requires
            cpu_wf(old(self)@),
        ensures
            cpu_wf(final(self)@),
            steps_to(final(self)@, r, spec_sty(old(self)@, addr)),
    {
        let y = self.y;
        self.write(addr, y)
    }

    /// Comparison, shared by CMP, CPX and CPY.
    pub fn compare(&mut self, addr: u16, register_val: u8) -> (r: Result<(), Fault>)
        requires
            cpu_wf(old(self)@),
        ensures
            cpu_wf(final(self)@),
            steps_to(final(self)@, r, spec_compare(old(self)@, addr, register_val)),
    {
        let m = match self.read(addr) {
            Ok(v) => v,
            Err(f) => {
                return Err(f);
            },
        };
        let diff: u8 = ((register_val as u16 + 0x100 - m as u16) % 0x100) as u8;
        self.check_negative_zero(diff);
        self.p.set_c(register_val >= m);
        Ok(())
    }

    /// AND - Logical AND.
    pub fn and(&mut self, addr: u16) -> (r: Result<(), Fault>)
        requires
            cpu_wf(old(self)@),
        ensures
            cpu_wf(final(self)@),
            steps_to(final(self)@, r, spec_and(old(self)@, addr)),
    {
        let m = match self.read(addr) {
            Ok(v) => v,
            Err(f) => {
                return Err(f);
            },
        };
        self.a = self.a & m;
        let a = self.a;
        self.check_negative_zero(a);
        Ok(())
    }

    /// ORA - Logical Inclusive OR.
    pub fn ora(&mut self, addr: u16) -> (r: Result<(), Fault>)
        requires
            cpu_wf(old(self)@),
        ensures
            cpu_wf(final(self)@),
            steps_to(final(self)@, r, spec_ora(old(self)@, addr)),
    {
        let m = match self.read(addr) {
            Ok(v) => v,
            Err(f) => {
                return Err(f);
            },
        };
        self.a = self.a | m;
        let a = self.a;
        self.check_negative_zero(a);
        Ok(())
    }

    /// EOR - Exclusive OR.
    pub fn eor(&mut self, addr: u16) -> (r: Result<(), Fault>)
        requires
            cpu_wf(old(self)@),
        ensures
            cpu_wf(final(self)@),
            steps_to(final(self)@, r, spec_eor(old(self)@, addr)),
    {
        let m = match self.read(addr) {
            Ok(v) => v,
            Err(f) => {
                return Err(f);
            },
        };
        self.a = self.a ^ m;
        let a = self.a;
        self.check_negative_zero(a);
        Ok(())
    }

    /// BIT - Bit Test.
    pub fn bit(&mut self, addr: u16) -> (r: Result<(), Fault>)
        requires
            cpu_wf(old(self)@),
        ensures
            cpu_wf(final(self)@),
            steps_to(final(self)@, r, spec_bit(old(self)@, addr)),
    {
        let m = match self.read(addr) {
            Ok(v) => v,
            Err(f) => {
                return Err(f);
            },
        };
        self.p.set_v((m >> 6) & 1 == 1);
        let a = self.a;
        self.check_zero(m & a);
        self.check_negative(m);
        Ok(())
    }

    /// ASL - Arithmetic Shift Left (accumulator).
    pub fn asl_a(&mut self) -> (r: Result<(), Fault>)
        requires
            cpu_wf(old(self)@),
        ensures
            cpu_wf(final(self)@),
            steps_to(final(self)@, r, spec_asl_a(old(self)@)),
    {
        let a = self.a;
        self.p.set_c((a >> 7) & 1 == 1);
        let result: u8 = ((a as u16 * 2) % 0x100) as u8;
        self.a = result;
        self.check_negative_zero(result);
        Ok(())
    }

    /// ASL - Arithmetic Shift Left.
    pub fn asl(&mut self, addr: u16) -> (r: Result<(), Fault>)
        requires
            cpu_wf(old(self)@),
        ensures
            cpu_wf(final(self)@),
            steps_to(final(self)@, r, spec_asl(old(self)@, addr)),
    {
        let m = match self.read(addr) {
            Ok(v) => v,
            Err(f) => {
                return Err(f);
            },
        };
        self.p.set_c((m >> 7) & 1 == 1);
        let val: u8 = ((m as u16 * 2) % 0x100) as u8;
        match self.write(addr, val) {
            Ok(()) => (),
            Err(f) => {
                return Err(f);
            },
        }
        self.check_negative_zero(val);
        Ok(())
    }

    /// LSR - Logical Shift Right (accumulator).
    pub fn lsr_a(&mut self) -> (r: Result<(), Fault>)
        requires
            cpu_wf(old(self)@),
        ensures
            cpu_wf(final(self)@),
            steps_to(final(self)@, r, spec_lsr_a(old(self)@)),
    {
        let a = self.a;
        self.p.set_c(a & 1 == 1);
        let result: u8 = a / 2;
        self.a = result;
        self.check_negative_zero(result);
        Ok(())
    }

    /// LSR - Logical Shift Right.
    pub fn lsr(&mut self, addr: u16) -> (r: Result<(), Fault>)
        requires
            cpu_wf(old(self)@),
        ensures
            cpu_wf(final(self)@),
            steps_to(final(self)@, r, spec_lsr(old(self)@, addr)),
    {
        let m = match self.read(addr) {
            Ok(v) => v,
            Err(f) => {
                return Err(f);
            },
        };
        self.p.set_c(m & 1 == 1);
        let val: u8 = m / 2;
        match self.write(addr, val) {
            Ok(()) => (),
            Err(f) => {
                return Err(f);
            },
        }
        self.check_negative_zero(val);
        Ok(())
    }

    /// ROL - Rotate Left (accumulator).
    pub fn rol_a(&mut self) -> (r: Result<(), Fault>)
        requires
            cpu_wf(old(self)@),
        ensures
            cpu_wf(final(self)@),
            steps_to(final(self)@, r, spec_rol_a(old(self)@)),
    {
        let c: u8 = if self.p.get_c() {
            1
        } else {
            0
        };
        let a = self.a;
        self.p.set_c((a >> 7) & 1 == 1);
        let result: u8 = ((a as u16 * 2 + c as u16) % 0x100) as u8;
        self.a = result;
        self.check_negative_zero(result);
        Ok(())
    }

    /// ROL - Rotate Left.
    pub fn rol(&mut self, addr: u16) -> (r: Result<(), Fault>)
        requires
            cpu_wf(old(self)@),
        ensures
            cpu_wf(final(self)@),
            steps_to(final(self)@, r, spec_rol(old(self)@, addr)),
    {
        let m = match self.read(addr) {
            Ok(v) => v,
            Err(f) => {
                return Err(f);
            },
        };
        let c: u8 = if self.p.get_c() {
            1
        } else {
            0
        };
        self.p.set_c((m >> 7) & 1 == 1);
        let val: u8 = ((m as u16 * 2 + c as u16) % 0x100) as u8;
        match self.write(addr, val) {
            Ok(()) => (),
            Err(f) => {
                return Err(f);
            },
        }
        self.check_negative_zero(val);
        Ok(())
    }

    /// ROR - Rotate Right (accumulator).
    pub fn ror_a(&mut self) -> (r: Result<(), Fault>)
        requires
            cpu_wf(old(self)@),
        ensures
            cpu_wf(final(self)@),
            steps_to(final(self)@, r, spec_ror_a(old(self)@)),
    {
        let c: u8 = if self.p.get_c() {
            1
        } else {
            0
        };
        let a = self.a;
        self.p.set_c(a & 1 == 1);
        let result: u8 = a / 2 + c * 0x80;
        self.a = result;
        self.check_negative_zero(result);
        Ok(())
    }

    /// ROR - Rotate Right.
    pub fn ror(&mut self, addr: u16) -> (r: Result<(), Fault>)
        requires
            cpu_wf(old(self)@),
        ensures
            cpu_wf(final(self)@),
            steps_to(final(self)@, r, spec_ror(old(self)@, addr)),
    {
        let m = match self.read(addr) {
            Ok(v) => v,
            Err(f) => {
                return Err(f);
            },
        };
        let c: u8 = if self.p.get_c() {
            1
        } else {
            0
        };
        self.p.set_c(m & 1 == 1);
        let val: u8 = m / 2 + c * 0x80;
        match self.write(addr, val) {
            Ok(()) => (),
            Err(f) => {
                return Err(f);
            },
        }
        self.check_negative_zero(val);
        Ok(())
    }

    /// INC - Increment Memory.
    pub fn inc(&mut self, addr: u16) -> (r: Result<(), Fault>)
        requires
            cpu_wf(old(self)@),
        ensures
            cpu_wf(final(self)@),
            steps_to(final(self)@, r, spec_inc(old(self)@, addr)),
    {
        let m = match self.read(addr) {
            Ok(v) => v,
            Err(f) => {
                return Err(f);
            },
        };
        let val: u8 = ((m as u16 + 1) % 0x100) as u8;
        match self.write(addr, val) {
            Ok(()) => (),
            Err(f) => {
                return Err(f);
            },
        }
        self.check_negative_zero(val);
        Ok(())
    }

    /// DEC - Decrement Memory.
    pub fn dec(&mut self, addr: u16) -> (r: Result<(), Fault>)
        requires
            cpu_wf(old(self)@),
        ensures
            cpu_wf(final(self)@),
            steps_to(final(self)@, r, spec_dec(old(self)@, addr)),
    {
        let m = match self.read(addr) {
            Ok(v) => v,
            Err(f) => {
                return Err(f);
            },
        };
        let val: u8 = ((m as u16 + 0xFF) % 0x100) as u8;
        match self.write(addr, val) {
            Ok(()) => (),
            Err(f) => {
                return Err(f);
            },
        }
        self.check_negative_zero(val);
        Ok(())
    }

    /// A branch: taken branches cost a cycle, plus one across pages.
    fn branch(&mut self, addr: u16, taken: bool)
        ensures
            final(self)@ == spec_branch(old(self)@, addr, taken),
    {
        if taken {
            self.cycles = self.cycles.wrapping_add(1);
            if Cpu::check_same_page(self.pc, addr) {
                self.cycles = self.cycles.wrapping_add(1);
            }
            self.pc = addr;
        }
    }

    /// BPL - Branch if Positive.
    pub fn bpl(&mut self, addr: u16) -> (r: Result<(), Fault>)
        ensures
            cpu_wf(old(self)@) ==> cpu_wf(final(self)@),
            steps_to(final(self)@, r, spec_bpl(old(self)@, addr)),
    {
        let taken = !self.p.get_n();
        self.branch(addr, taken);
        Ok(())
    }

    /// BMI - Branch if Minus.
    pub fn bmi(&mut self, addr: u16) -> (r: Result<(), Fault>)
        ensures
            cpu_wf(old(self)@) ==> cpu_wf(final(self)@),
            steps_to(final(self)@, r, spec_bmi(old(self)@, addr)),
    {
        let taken = self.p.get_n();
        self.branch(addr, taken);
        Ok(())
    }

    /// BVC - Branch if Overflow Clear.
    pub fn bvc(&mut self, addr: u16) -> (r: Result<(), Fault>)
        ensures
            cpu_wf(old(self)@) ==> cpu_wf(final(self)@),
            steps_to(final(self)@, r, spec_bvc(old(self)@, addr)),
    {
        let taken = !self.p.get_v();
        self.branch(addr, taken);
        Ok(())
    }

    /// BVS - Branch if Overflow Set.
    pub fn bvs(&mut self, addr: u16) -> (r: Result<(), Fault>)
        ensures
            cpu_wf(old(self)@) ==> cpu_wf(final(self)@),
            steps_to(final(self)@, r, spec_bvs(old(self)@, addr)),
    {
        let taken = self.p.get_v();
        self.branch(addr, taken);
        Ok(())
    }

    /// BCC - Branch if Carry Clear.
    pub fn bcc(&mut self, addr: u16) -> (r: Result<(), Fault>)
        ensures
            cpu_wf(old(self)@) ==> cpu_wf(final(self)@),
            steps_to(final(self)@, r, spec_bcc(old(self)@, addr)),
    {
        let taken = !self.p.get_c();
        self.branch(addr, taken);
        Ok(())
    }

    /// BCS - Branch if Carry Set.
    pub fn bcs(&mut self, addr: u16) -> (r: Result<(), Fault>)
        ensures
            cpu_wf(old(self)@) ==> cpu_wf(final(self)@),
            steps_to(final(self)@, r, spec_bcs(old(self)@, addr)),
    {
        let taken = self.p.get_c();
        self.branch(addr, taken);
        Ok(())
    }

    /// BNE - Branch if Not Equal.
    pub fn bne(&mut self, addr: u16) -> (r: Result<(), Fault>)
        ensures
            cpu_wf(old(self)@) ==> cpu_wf(final(self)@),
            steps_to(final(self)@, r, spec_bne(old(self)@, addr)),
    {
        let taken = !self.p.get_z();
        self.branch(addr, taken);
        Ok(())
    }

    /// BEQ - Branch if Equal.
    pub fn beq(&mut self, addr: u16) -> (r: Result<(), Fault>)
        ensures
            cpu_wf(old(self)@) ==> cpu_wf(final(self)@),
            steps_to(final(self)@, r, spec_beq(old(self)@, addr)),
    {
        let taken = self.p.get_z();
        self.branch(addr, taken);
        Ok(())
    }

    /// JMP - Jump.
    pub fn jmp(&mut self, addr: u16) -> (r: Result<(), Fault>)
        ensures
            cpu_wf(old(self)@) ==> cpu_wf(final(self)@),
            steps_to(final(self)@, r, spec_jmp(old(self)@, addr)),
    {
        self.pc = addr;
        Ok(())
    }

    /// JSR - Jump to Subroutine.
    pub fn jsr(&mut self, addr: u16) -> (r: Result<(), Fault>)
        requires
            cpu_wf(old(self)@),
        ensures
            cpu_wf(final(self)@),
            steps_to(final(self)@, r, spec_jsr(old(self)@, addr)),
    {
        let pc = self.pc;
        self.push16(((pc as u32 + 0xFFFF) % 0x10000) as u16);
        self.pc = addr;
        Ok(())
    }

    /// RTS - Return from Subroutine.
    pub fn rts(&mut self) -> (r: Result<(), Fault>)
        requires
            cpu_wf(old(self)@),
        ensures
            cpu_wf(final(self)@),
            steps_to(final(self)@, r, spec_rts(old(self)@)),
    {
        let v = self.pull16();
        self.pc = ((v as u32 + 1) % 0x10000) as u16;
        Ok(())
    }

    /// BRK - Force Interrupt.
    pub fn brk(&mut self) -> (r: Result<(), Fault>)
        requires
            cpu_wf(old(self)@),
        ensures
            cpu_wf(final(self)@),
            steps_to(final(self)@, r, spec_brk(old(self)@)),
    {
        let pc = self.pc;
        let target = match self.read16(IRQ_BRK_VECTOR) {
            Ok(v) => v,
            Err(f) => {
                return Err(f);
            },
        };
        self.pc = target;
        self.push16(pc);
        let p = self.p.bits;
        self.push(p | 0x10);
        self.p.set_i(true);
        Ok(())
    }

    /// RTI - Return from Interrupt.
    pub fn rti(&mut self) -> (r: Result<(), Fault>)
        requires
            cpu_wf(old(self)@),
        ensures
            cpu_wf(final(self)@),
            steps_to(final(self)@, r, spec_rti(old(self)@)),
    {
        let v = self.pull();
        self.p.bits = (v & 0xEF) | 0x20;
        let pc2 = self.pull16();
        self.pc = pc2;
        Ok(())
    }

    /// PHA - Push Accumulator.
    pub fn pha(&mut self) -> (r: Result<(), Fault>)
        requires
            cpu_wf(old(self)@),
        ensures
            cpu_wf(final(self)@),
            steps_to(final(self)@, r, spec_pha(old(self)@)),
    {
        let a = self.a;
        self.push(a);
        Ok(())
    }

    /// PHP - Push Processor Status, with bit 4 forced on.
    pub fn php(&mut self) -> (r: Result<(), Fault>)
        requires
            cpu_wf(old(self)@),
        ensures
            cpu_wf(final(self)@),
            steps_to(final(self)@, r, spec_php(old(self)@)),
    {
        let p = self.p.bits;
        self.push(p | 0x10);
        Ok(())
    }

    /// PLA - Pull Accumulator.
    pub fn pla(&mut self) -> (r: Result<(), Fault>)
        requires
            cpu_wf(old(self)@),
        ensures
            cpu_wf(final(self)@),
            steps_to(final(self)@, r, spec_pla(old(self)@)),
    {
        let v = self.pull();
        self.a = v;
        self.check_negative_zero(v);
        Ok(())
    }

    /// PLP - Pull Processor Status, clearing bit 4 and forcing bit 5.
    pub fn plp(&mut self) -> (r: Result<(), Fault>)
        requires
            cpu_wf(old(self)@),
        ensures
            cpu_wf(final(self)@),
            steps_to(final(self)@, r, spec_plp(old(self)@)),
    {
        let v = self.pull();
        self.p.bits = (v & 0xEF) | 0x20;
        Ok(())
    }

    /// INX - Increment X Register.
    pub fn inx(&mut self) -> (r: Result<(), Fault>)
        ensures
            cpu_wf(old(self)@) ==> cpu_wf(final(self)@),
            steps_to(final(self)@, r, spec_inx(old(self)@)),
    {
        let v: u8 = ((self.x as u16 + 1) % 0x100) as u8;
        self.x = v;
        self.check_negative_zero(v);
        Ok(())
    }

    /// DEX - Decrement X Register.
    pub fn dex(&mut self) -> (r: Result<(), Fault>)
        ensures
            cpu_wf(old(self)@) ==> cpu_wf(final(self)@),
            steps_to(final(self)@, r, spec_dex(old(self)@)),
    {
        let v: u8 = ((self.x as u16 + 0xFF) % 0x100) as u8;
        self.x = v;
        self.check_negative_zero(v);
        Ok(())
    }

    /// INY - Increment Y Register.
    pub fn iny(&mut self) -> (r: Result<(), Fault>)
        ensures
            cpu_wf(old(self)@) ==> cpu_wf(final(self)@),
            steps_to(final(self)@, r, spec_iny(old(self)@)),
    {
        let v: u8 = ((self.y as u16 + 1) % 0x100) as u8;
        self.y = v;
        self.check_negative_zero(v);
        Ok(())
    }

    /// DEY - Decrement Y Register.
    pub fn dey(&mut self) -> (r: Result<(), Fault>)
        ensures
            cpu_wf(old(self)@) ==> cpu_wf(final(self)@),
            steps_to(final(self)@, r, spec_dey(old(self)@)),
    {
        let v: u8 = ((self.y as u16 + 0xFF) % 0x100) as u8;
        self.y = v;
        self.check_negative_zero(v);
        Ok(())
    }

    /// TAX - Transfer Accumulator to X.
    pub fn tax(&mut self) -> (r: Result<(), Fault>)
        ensures
            cpu_wf(old(self)@) ==> cpu_wf(final(self)@),
            steps_to(final(self)@, r, spec_tax(old(self)@)),
    {
        self.x = self.a;
        let v = self.x;
        self.check_negative_zero(v);
        Ok(())
    }

    /// TAY - Transfer Accumulator to Y.
    pub fn tay(&mut self) -> (r: Result<(), Fault>)
        ensures
            cpu_wf(old(self)@) ==> cpu_wf(final(self)@),
            steps_to(final(self)@, r, spec_tay(old(self)@)),
    {
        self.y = self.a;
        let v = self.y;
        self.check_negative_zero(v);
        Ok(())
    }

    /// TXA - Transfer X to Accumulator.
    pub fn txa(&mut self) -> (r: Result<(), Fault>)
        ensures
            cpu_wf(old(self)@) ==> cpu_wf(final(self)@),
            steps_to(final(self)@, r, spec_txa(old(self)@)),
    {
        self.a = self.x;
        let v = self.a;
        self.check_negative_zero(v);
        Ok(())
    }

    /// TYA - Transfer Y to Accumulator.
    pub fn tya(&mut self) -> (r: Result<(), Fault>)
        ensures
            cpu_wf(old(self)@) ==> cpu_wf(final(self)@),
            steps_to(final(self)@, r, spec_tya(old(self)@)),
    {
        self.a = self.y;
        let v = self.a;
        self.check_negative_zero(v);
        Ok(())
    }

    /// TSX - Transfer Stack Pointer to X.
    pub fn tsx(&mut self) -> (r: Result<(), Fault>)
        ensures
            cpu_wf(old(self)@) ==> cpu_wf(final(self)@),
            steps_to(final(self)@, r, spec_tsx(old(self)@)),
    {
        self.x = self.sp;
        let v = self.x;
        self.check_negative_zero(v);
        Ok(())
    }

    /// TXS - Transfer X to Stack Pointer; no flags change.
    pub fn txs(&mut self) -> (r: Result<(), Fault>)
        ensures
            cpu_wf(old(self)@) ==> cpu_wf(final(self)@),
            steps_to(final(self)@, r, spec_txs(old(self)@)),
    {
        self.sp = self.x;
        Ok(())
    }

    /// CLC - Clear Carry Flag.
    pub fn clc(&mut self) -> (r: Result<(), Fault>)
        ensures
            cpu_wf(old(self)@) ==> cpu_wf(final(self)@),
            steps_to(final(self)@, r, spec_clc(old(self)@)),
    {
        self.p.set_c(false);
        Ok(())
    }

    /// SEC - Set Carry Flag.
    pub fn sec(&mut self) -> (r: Result<(), Fault>)
        ensures
            cpu_wf(old(self)@) ==> cpu_wf(final(self)@),
            steps_to(final(self)@, r, spec_sec(old(self)@)),
    {
        self.p.set_c(true);
        Ok(())
    }

    /// CLI - Clear Interrupt Disable.
    pub fn cli(&mut self) -> (r: Result<(), Fault>)
        ensures
            cpu_wf(old(self)@) ==> cpu_wf(final(self)@),
            steps_to(final(self)@, r, spec_cli(old(self)@)),
    {
        self.p.set_i(false);
        Ok(())
    }

    /// SEI - Set Interrupt Disable.
    pub fn sei(&mut self) -> (r: Result<(), Fault>)
        ensures
            cpu_wf(old(self)@) ==> cpu_wf(final(self)@),
            steps_to(final(self)@, r, spec_sei(old(self)@)),
    {
        self.p.set_i(true);
        Ok(())
    }

    /// CLV - Clear Overflow Flag.
    pub fn clv(&mut self) -> (r: Result<(), Fault>)
        ensures
            cpu_wf(old(self)@) ==> cpu_wf(final(self)@),
            steps_to(final(self)@, r, spec_clv(old(self)@)),
    {
        self.p.set_v(false);
        Ok(())
    }

    /// CLD - Clear Decimal Mode.
    pub fn cld(&mut self) -> (r: Result<(), Fault>)
        ensures
            cpu_wf(old(self)@) ==> cpu_wf(final(self)@),
            steps_to(final(self)@, r, spec_cld(old(self)@)),
    {
        self.p.set_d(false);
        Ok(())
    }

    /// SED - Set Decimal Flag.
    pub fn sed(&mut self) -> (r: Result<(), Fault>)
        ensures
            cpu_wf(old(self)@) ==> cpu_wf(final(self)@),
            steps_to(final(self)@, r, spec_sed(old(self)@)),
    {
        self.p.set_d(true);
        Ok(())
    }

    /// LAX - Load Accumulator and X with Memory.
    pub fn lax(&mut self, addr: u16) -> (r: Result<(), Fault>)
        requires
            cpu_wf(old(self)@),
        ensures
            cpu_wf(final(self)@),
            steps_to(final(self)@, r, spec_lax(old(self)@, addr)),
    {
        let m = match self.read(addr) {
            Ok(v) => v,
            Err(f) => {
                return Err(f);
            },
        };
        self.a = m;
        self.x = m;
        self.check_negative_zero(m);
        Ok(())
    }

    /// SAX - Store Accumulator AND X.
    pub fn sax(&mut self, addr: u16) -> (r: Result<(), Fault>)
        requires
            cpu_wf(old(self)@),
        ensures
            cpu_wf(final(self)@),
            steps_to(final(self)@, r, spec_sax(old(self)@, addr)),
    {
        let val = self.a & self.x;
        self.write(addr, val)
    }

    /// DCP - Decrement and Compare with the accumulator.
    pub fn dcp(&mut self, addr: u16) -> (r: Result<(), Fault>)
        requires
            cpu_wf(old(self)@),
        ensures
            cpu_wf(final(self)@),
            steps_to(final(self)@, r, spec_dcp(old(self)@, addr)),
    {
        match self.dec(addr) {
            Ok(()) => (),
            Err(f) => {
                return Err(f);
            },
        }
        let a = self.a;
        self.compare(addr, a)
    }

    /// ISC - Increment and Subtract with Carry.
    pub fn isc(&mut self, addr: u16) -> (r: Result<(), Fault>)
        requires
            cpu_wf(old(self)@),
        ensures
            cpu_wf(final(self)@),
            steps_to(final(self)@, r, spec_isc(old(self)@, addr)),
    {
        match self.inc(addr) {
            Ok(()) => (),
            Err(f) => {
                return Err(f);
            },
        }
        self.sbc(addr)
    }

    /// SLO - Shift Left then OR with the accumulator.
    pub fn slo(&mut self, addr: u16) -> (r: Result<(), Fault>)
        requires
            cpu_wf(old(self)@),
        ensures
            cpu_wf(final(self)@),
            steps_to(final(self)@, r, spec_slo(old(self)@, addr)),
    {
        let m = match self.read(addr) {
            Ok(v) => v,
            Err(f) => {
                return Err(f);
            },
        };
        self.p.set_c((m >> 7) & 1 == 1);
        let val: u8 = ((m as u16 * 2) % 0x100) as u8;
        self.a = self.a | val;
        let a = self.a;
        self.check_negative_zero(a);
        self.write(addr, val)
    }

    /// RLA - Rotate Left then AND with the accumulator.
    pub fn rla(&mut self, addr: u16) -> (r: Result<(), Fault>)
        requires
            cpu_wf(old(self)@),
        ensures
            cpu_wf(final(self)@),
            steps_to(final(self)@, r, spec_rla(old(self)@, addr)),
    {
        let m = match self.read(addr) {
            Ok(v) => v,
            Err(f) => {
                return Err(f);
            },
        };
        let c: u8 = if self.p.get_c() {
            1
        } else {
            0
        };
        self.p.set_c((m >> 7) & 1 == 1);
        let val: u8 = ((m as u16 * 2 + c as u16) % 0x100) as u8;
        self.a = self.a & val;
        let a = self.a;
        self.check_negative_zero(a);
        self.write(addr, val)
    }

    /// SRE - Shift Right then XOR with the accumulator.
    pub fn sre(&mut self, addr: u16) -> (r: Result<(), Fault>)
        requires
            cpu_wf(old(self)@),
        ensures
            cpu_wf(final(self)@),
            steps_to(final(self)@, r, spec_sre(old(self)@, addr)),
    {
        let m = match self.read(addr) {
            Ok(v) => v,
            Err(f) => {
                return Err(f);
            },
        };
        self.p.set_c(m & 1 == 1);
        let val: u8 = m / 2;
        self.a = self.a ^ val;
        let a = self.a;
        self.check_negative_zero(a);
        self.write(addr, val)
    }

    /// RRA - Rotate Right then Add with Carry.
    pub fn rra(&mut self, addr: u16) -> (r: Result<(), Fault>)
        requires
            cpu_wf(old(self)@),
        ensures
            cpu_wf(final(self)@),
            steps_to(final(self)@, r, spec_rra(old(self)@, addr)),
    {
        match self.ror(addr) {
            Ok(()) => (),
            Err(f) => {
                return Err(f);
            },
        }
        self.adc(addr)
    }

    /// Service a non-maskable interrupt through its vector.
    pub fn nmi(&mut self) -> (r: Result<(), Fault>)
        requires
            cpu_wf(old(self)@),
        ensures
            cpu_wf(final(self)@),
            steps_to(final(self)@, r, spec_interrupt(old(self)@, NMI_VECTOR)),
    {
        self.interrupt_through(NMI_VECTOR)
    }

    /// Service a maskable interrupt through its vector.
    pub fn irq(&mut self) -> (r: Result<(), Fault>)
        requires
            cpu_wf(old(self)@),
        ensures
            cpu_wf(final(self)@),
            steps_to(final(self)@, r, spec_interrupt(old(self)@, IRQ_BRK_VECTOR)),
    {
        self.interrupt_through(IRQ_BRK_VECTOR)
    }

    /// Execute the instruction for `op` with its resolved address.
    #[verifier::rlimit(100)]
    pub fn execute(&mut self, op: u8, addr: Option<u16>) -> (r: Result<(), Fault>)
        requires
            cpu_wf(old(self)@),
        ensures
            cpu_wf(final(self)@),
            steps_to(final(self)@, r, spec_execute(old(self)@, op, addr)),
    {
        proof {
            reveal(spec_execute);
        }
        match op {
            0x69 | 0x65 | 0x75 | 0x6d | 0x7d | 0x79 | 0x61 | 0x71 => match addr {
                Option::Some(a) => self.adc(a),
                Option::None => Err(Fault::MissingAddress(op)),
            },
            0xe9 | 0xe5 | 0xf5 | 0xed | 0xfd | 0xf9 | 0xe1 | 0xf1 | 0xeb => match addr {
                Option::Some(a) => self.sbc(a),
                Option::None => Err(Fault::MissingAddress(op)),
            },
            0xa1 | 0xa5 | 0xa9 | 0xad | 0xb1 | 0xb5 | 0xb9 | 0xbd => match addr {
                Option::Some(a) => self.lda(a),
                Option::None => Err(Fault::MissingAddress(op)),
            },
            0xa2 | 0xa6 | 0xb6 | 0xae | 0xbe => match addr {
                Option::Some(a) => self.ldx(a),
                Option::None => Err(Fault::MissingAddress(op)),
            },
            0xa0 | 0xa4 | 0xb4 | 0xac | 0xbc => match addr {
                Option::Some(a) => self.ldy(a),
                Option::None => Err(Fault::MissingAddress(op)),
            },
            0x85 | 0x95 | 0x8d | 0x9d | 0x99 | 0x81 | 0x91 => match addr {
                Option::Some(a) => self.sta(a),
                Option::None => Err(Fault::MissingAddress(op)),
            },
            0x86 | 0x96 | 0x8e => match addr {
                Option::Some(a) => self.stx(a),
                Option::None => Err(Fault::MissingAddress(op)),
            },
            0x84 | 0x94 | 0x8c => match addr {
                Option::Some(a) => self.sty(a),
                Option::None => Err(Fault::MissingAddress(op)),
            },
            0xc9 | 0xc5 | 0xd5 | 0xcd | 0xdd | 0xd9 | 0xc1 | 0xd1 => match addr {
                Option::Some(a) => {
                    let v = self.a;
                    self.compare(a, v)
                },
                Option::None => Err(Fault::MissingAddress(op)),
            },
            0xe0 | 0xe4 | 0xec => match addr {
                Option::Some(a) => {
                    let v = self.x;
                    self.compare(a, v)
                },
                Option::None => Err(Fault::MissingAddress(op)),
            },
            0xc0 | 0xc4 | 0xcc => match addr {
                Option::Some(a) => {
                    let v = self.y;
                    self.compare(a, v)
                },
                Option::None => Err(Fault::MissingAddress(op)),
            },
            0x29 | 0x25 | 0x35 | 0x2d | 0x3d | 0x39 | 0x21 | 0x31 => match addr {
                Option::Some(a) => self.and(a),
                Option::None => Err(Fault::MissingAddress(op)),
            },
            0x09 | 0x05 | 0x15 | 0x0d | 0x1d | 0x19 | 0x01 | 0x11 => match addr {
                Option::Some(a) => self.ora(a),
                Option::None => Err(Fault::MissingAddress(op)),
            },
            0x49 | 0x45 | 0x55 | 0x4d | 0x5d | 0x59 | 0x41 | 0x51 => match addr {
                Option::Some(a) => self.eor(a),
                Option::None => Err(Fault::MissingAddress(op)),
            },
            0x24 | 0x2c => match addr {
                Option::Some(a) => self.bit(a),
                Option::None => Err(Fault::MissingAddress(op)),
            },
            0x2a => self.rol_a(),
            0x26 | 0x36 | 0x2e | 0x3e => match addr {
                Option::Some(a) => self.rol(a),
                Option::None => Err(Fault::MissingAddress(op)),
            },
            0x6a => self.ror_a(),
            0x66 | 0x76 | 0x6e | 0x7e => match addr {
                Option::Some(a) => self.ror(a),
                Option::None => Err(Fault::MissingAddress(op)),
            },
            0x0a => self.asl_a(),
            0x06 | 0x16 | 0x0e | 0x1e => match addr {
                Option::Some(a) => self.asl(a),
                Option::None => Err(Fault::MissingAddress(op)),
            },
            0x4a => self.lsr_a(),
            0x46 | 0x56 | 0x4e | 0x5e => match addr {
                Option::Some(a) => self.lsr(a),
                Option::None => Err(Fault::MissingAddress(op)),
            },
            0xe6 | 0xf6 | 0xee | 0xfe => match addr {
                Option::Some(a) => self.inc(a),
                Option::None => Err(Fault::MissingAddress(op)),
            },
            0xc6 | 0xd6 | 0xce | 0xde => match addr {
                Option::Some(a) => self.dec(a),
                Option::None => Err(Fault::MissingAddress(op)),
            },
            0xe8 => self.inx(),
            0xca => self.dex(),
            0xc8 => self.iny(),
            0x88 => self.dey(),
            0xaa => self.tax(),
            0xa8 => self.tay(),
            0x8a => self.txa(),
            0x98 => self.tya(),
            0x9a => self.txs(),
            0xba => self.tsx(),
            0x18 => self.clc(),
            0x38 => self.sec(),
            0x58 => self.cli(),
            0x78 => self.sei(),
            0xb8 => self.clv(),
            0xd8 => self.cld(),
            0xf8 => self.sed(),
            0x10 => match addr {
                Option::Some(a) => self.bpl(a),
                Option::None => Err(Fault::MissingAddress(op)),
            },
            0x30 => match addr {
                Option::Some(a) => self.bmi(a),
                Option::None => Err(Fault::MissingAddress(op)),
            },
            0x50 => match addr {
                Option::Some(a) => self.bvc(a),
                Option::None => Err(Fault::MissingAddress(op)),
            },
            0x70 => match addr {
                Option::Some(a) => self.bvs(a),
                Option::None => Err(Fault::MissingAddress(op)),
            },
            0x90 => match addr {
                Option::Some(a) => self.bcc(a),
                Option::None => Err(Fault::MissingAddress(op)),
            },
            0xb0 => match addr {
                Option::Some(a) => self.bcs(a),
                Option::None => Err(Fault::MissingAddress(op)),
            },
            0xd0 => match addr {
                Option::Some(a) => self.bne(a),
                Option::None => Err(Fault::MissingAddress(op)),
            },
            0xf0 => match addr {
                Option::Some(a) => self.beq(a),
                Option::None => Err(Fault::MissingAddress(op)),
            },
            0x4c | 0x6c => match addr {
                Option::Some(a) => self.jmp(a),
                Option::None => Err(Fault::MissingAddress(op)),
            },
            0x20 => match addr {
                Option::Some(a) => self.jsr(a),
                Option::None => Err(Fault::MissingAddress(op)),
            },
            0x60 => self.rts(),
            0x00 => self.brk(),
            0x40 => self.rti(),
            0x48 => self.pha(),
            0x68 => self.pla(),
            0x08 => self.php(),
            0x28 => self.plp(),
            0xea | 0x1a | 0x3a | 0x5a | 0x7a | 0xda | 0xfa | 0x04 | 0x14 | 0x34 | 0x44 | 0x54 | 0x64 | 0x74 | 0x80 | 0x82 | 0x89 | 0xc2 | 0xd4 | 0xe2 | 0xf4 | 0x0c | 0x1c | 0x3c | 0x5c | 0x7c | 0xdc | 0xfc => Ok(()),
            0xa7 | 0xb7 | 0xaf | 0xbf | 0xa3 | 0xb3 => match addr {
                Option::Some(a) => self.lax(a),
                Option::None => Err(Fault::MissingAddress(op)),
            },
            0x87 | 0x97 | 0x83 | 0x8f => match addr {
                Option::Some(a) => self.sax(a),
                Option::None => Err(Fault::MissingAddress(op)),
            },
            0xc7 | 0xd7 | 0xcf | 0xdf | 0xdb | 0xc3 | 0xd3 => match addr {
                Option::Some(a) => self.dcp(a),
                Option::None => Err(Fault::MissingAddress(op)),
            },
            0xe7 | 0xf7 | 0xef | 0xff | 0xfb | 0xe3 | 0xf3 => match addr {
                Option::Some(a) => self.isc(a),
                Option::None => Err(Fault::MissingAddress(op)),
            },
            0x07 | 0x17 | 0x0f | 0x1f | 0x1b | 0x03 | 0x13 => match addr {
                Option::Some(a) => self.slo(a),
                Option::None => Err(Fault::MissingAddress(op)),
            },
            0x27 | 0x37 | 0x2f | 0x3f | 0x3b | 0x23 | 0x33 => match addr {
                Option::Some(a) => self.rla(a),
                Option::None => Err(Fault::MissingAddress(op)),
            },
            0x47 | 0x57 | 0x4f | 0x5f | 0x5b | 0x43 | 0x53 => match addr {
                Option::Some(a) => self.sre(a),
                Option::None => Err(Fault::MissingAddress(op)),
            },
            0x67 | 0x77 | 0x6f | 0x7f | 0x7b | 0x63 | 0x73 => match addr {
                Option::Some(a) => self.rra(a),
                Option::None => Err(Fault::MissingAddress(op)),
            },
            _ => Err(Fault::IllegalOpcode(op)),
        }
    }
}

} // verus!

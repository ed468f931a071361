//! General properties of the machine, stated and proved once over the
//! specification the executable code is verified against.

use vstd::prelude::*;

use crate::bits::{pages_differ, w16, w8};
use crate::bus::{bus_wf, spec_bus_read, BusView};
use crate::cpu::{
    cpu_wf, spec_absolute_x, spec_absolute_y, spec_indirect_indexed, spec_nz, spec_pull16,
    spec_push16, CpuView,
};
use crate::cpu_ops::{spec_adc, spec_php, spec_plp, spec_sbc};
use crate::mapper::MapperView;
use crate::ppu::{
    ppu_wf, sel_count, sel_oam, spec_evaluate_sprites, spec_ppu_read, spec_tick, sprite_in_range,
    w64_inc, PpuView, Sprite, CTRL_SPRITE_SIZE, MASK_BG, MASK_SPRITES, STATUS_SPRITE_OVERFLOW,
};
use crate::status::{flag_on, flag_put, FLAG_C, FLAG_N, FLAG_Z};

verus! {

/// The value `v` stands for as a two's-complement signed byte.
pub open spec fn signed_val(v: u8) -> int {
    if v < 0x80 {
        v as int
    } else {
        v as int - 256
    }
}

/// The flag convention every ALU result passes through: Negative is
/// bit 7 of the result, Zero is whether the result is zero.
pub proof fn lemma_nz_flags(p: u8, v: u8)
    ensures
        flag_on(spec_nz(p, v), FLAG_N) == (v & 0x80 != 0),
        flag_on(spec_nz(p, v), FLAG_Z) == (v == 0),
{
    assert(forall|q: u8, b: bool|
        #![auto]
        flag_on(flag_put(q, 0x80u8, b), 0x80u8) == b && flag_on(flag_put(q, 0x02u8, b), 0x02u8)
            == b && flag_on(flag_put(q, 0x80u8, b), 0x02u8) == flag_on(q, 0x02u8)) by (bit_vector);
}

/// Setting a flag outside Negative and Zero leaves both as they were.
pub proof fn lemma_put_other_keeps_nz(p: u8, mask: u8, b: bool)
    requires
        mask == 0x01 || mask == 0x04 || mask == 0x08 || mask == 0x10 || mask == 0x20 || mask
            == 0x40,
    ensures
        flag_on(flag_put(p, mask, b), FLAG_N) == flag_on(p, FLAG_N),
        flag_on(flag_put(p, mask, b), FLAG_Z) == flag_on(p, FLAG_Z),
{
    assert(forall|q: u8, m: u8, c: bool|
        #![auto]
        (m == 0x01 || m == 0x04 || m == 0x08 || m == 0x10 || m == 0x20 || m == 0x40) ==> flag_on(
            flag_put(q, m, c),
            0x80u8,
        ) == flag_on(q, 0x80u8) && flag_on(flag_put(q, m, c), 0x02u8) == flag_on(q, 0x02u8))
        by (bit_vector);
}

/// After ADC, Negative is bit 7 of the new accumulator and Zero is
/// whether it is zero: the convention survives the Carry and Overflow
/// updates.
pub proof fn lemma_adc_flags(s: CpuView, addr: u16)
    ensures
        match spec_adc(s, addr) {
            Ok(s2) => flag_on(s2.p, FLAG_N) == (s2.a & 0x80 != 0) && flag_on(s2.p, FLAG_Z) == (s2.a
                == 0),
            Err(_) => true,
        },
{
    match spec_adc(s, addr) {
        Ok(s2) => {
            let t = crate::cpu::spec_cpu_read(s, addr);
            match t {
                Ok((s1, m)) => {
                    let c: int = if flag_on(s1.p, FLAG_C) {
                        1
                    } else {
                        0
                    };
                    let result = w8(s1.a + m + c);
                    let p1 = spec_nz(s1.p, result);
                    let p2 = flag_put(p1, FLAG_C, s1.a + m + c > 0xFF);
                    lemma_nz_flags(s1.p, result);
                    lemma_put_other_keeps_nz(p1, FLAG_C, s1.a + m + c > 0xFF);
                    lemma_put_other_keeps_nz(
                        p2,
                        0x40,
                        (s1.a ^ m) & 0x80 == 0 && (s1.a ^ result) & 0x80 != 0,
                    );
                },
                Err(_) => {},
            }
        },
        Err(_) => {},
    }
}

/// After a load, Zero is whether the loaded value is zero and Negative
/// is its bit 7.
pub proof fn lemma_lda_flags(s: CpuView, addr: u16)
    ensures
        match crate::cpu_ops::spec_lda(s, addr) {
            Ok(s2) => flag_on(s2.p, FLAG_Z) == (s2.a == 0) && flag_on(s2.p, FLAG_N) == (s2.a & 0x80
                != 0),
            Err(_) => true,
        },
{
    match crate::cpu::spec_cpu_read(s, addr) {
        Ok((s1, m)) => {
            lemma_nz_flags(s1.p, m);
        },
        Err(_) => {},
    }
}

/// The Overflow flag ADC computes is exactly the two's-complement
/// overflow of `a + m + c`: the signed sum falls outside a byte's
/// signed range precisely when the operands share a sign and the
/// result's sign differs.
pub proof fn lemma_adc_overflow(a: u8, m: u8, c: bool)
    ensures
        ({
            let ci: int = if c {
                1
            } else {
                0
            };
            let r = w8(a + m + ci);
            ((a ^ m) & 0x80 == 0 && (a ^ r) & 0x80 != 0) == !(-128 <= signed_val(a) + signed_val(m)
                + ci <= 127)
        }),
{
    let ci: int = if c {
        1
    } else {
        0
    };
    let cu: u8 = if c {
        1
    } else {
        0
    };
    assert(((a ^ m) & 0x80 == 0 && (a ^ (((a as u16 + m as u16 + cu as u16) % 256) as u8)) & 0x80
        != 0) <==> ((a < 0x80 && m < 0x80 && (a as u16 + m as u16 + cu as u16) > 127) || (a >= 0x80
        && m >= 0x80 && (a as u16 + m as u16 + cu as u16) < 384))) by (bit_vector)
        requires
            cu <= 1,
    ;
    assert(w8(a + m + ci) == ((a as u16 + m as u16 + cu as u16) % 256) as u8);
}

/// The Overflow flag SBC computes is exactly the two's-complement
/// overflow of `a - m - (1 - c)`.
pub proof fn lemma_sbc_overflow(a: u8, m: u8, c: bool)
    ensures
        ({
            let ci: int = if c {
                1
            } else {
                0
            };
            let r = w8(a + 0x100 - m - (1 - ci));
            ((a ^ m) & 0x80 != 0 && (a ^ r) & 0x80 != 0) == !(-128 <= signed_val(a) - signed_val(m)
                - (1 - ci) <= 127)
        }),
{
    let ci: int = if c {
        1
    } else {
        0
    };
    let cu: u8 = if c {
        1
    } else {
        0
    };
    assert(((a ^ m) & 0x80 != 0 && (a ^ (((a as u16 + 0x100 - m as u16 - (1 - cu) as u16)
        % 256) as u8)) & 0x80 != 0) <==> ((a < 0x80 && m >= 0x80 && (a as u16 + 0x100 - m as u16 - (1
        - cu) as u16) > 127) || (a >= 0x80 && m < 0x80 && (a as u16 + 0x100 - m as u16 - (1
        - cu) as u16) < 384))) by (bit_vector)
        requires
            cu <= 1,
    ;
    assert(w8(a + 0x100 - m - (1 - ci)) == ((a as u16 + 0x100 - m as u16 - (1 - cu) as u16)
        % 256) as u8);
}

/// Forcing a flag bit makes that bit read back as forced.
pub proof fn lemma_put_on_same(p: u8, mask: u8, b: bool)
    requires
        mask != 0,
        mask == 0x01 || mask == 0x02 || mask == 0x04 || mask == 0x08 || mask == 0x10 || mask
            == 0x20 || mask == 0x40 || mask == 0x80,
    ensures
        flag_on(flag_put(p, mask, b), mask) == b,
{
    assert(forall|q: u8, m: u8, c: bool|
        #![auto]
        (m == 0x01 || m == 0x02 || m == 0x04 || m == 0x08 || m == 0x10 || m == 0x20 || m == 0x40
            || m == 0x80) ==> flag_on(flag_put(q, m, c), m) == c) by (bit_vector);
}

/// The Overflow flag the machine holds after ADC is the
/// two's-complement overflow of the values that were added: the old
/// accumulator, the memory operand and the carry in.
pub proof fn lemma_adc_overflow_flag(s: CpuView, addr: u16)
    ensures
        match crate::cpu::spec_cpu_read(s, addr) {
            Ok((s1, m)) => match spec_adc(s, addr) {
                Ok(s2) => {
                    let c: int = if flag_on(s1.p, FLAG_C) {
                        1
                    } else {
                        0
                    };
                    flag_on(s2.p, 0x40) == !(-128 <= signed_val(s1.a) + signed_val(m) + c <= 127)
                },
                Err(_) => false,
            },
            Err(_) => true,
        },
{
    match crate::cpu::spec_cpu_read(s, addr) {
        Ok((s1, m)) => {
            let c: int = if flag_on(s1.p, FLAG_C) {
                1
            } else {
                0
            };
            let result = w8(s1.a + m + c);
            let p1 = spec_nz(s1.p, result);
            let p2 = flag_put(p1, FLAG_C, s1.a + m + c > 0xFF);
            lemma_put_on_same(p2, 0x40, (s1.a ^ m) & 0x80 == 0 && (s1.a ^ result) & 0x80 != 0);
            lemma_adc_overflow(s1.a, m, flag_on(s1.p, FLAG_C));
        },
        Err(_) => {},
    }
}

/// The Overflow flag the machine holds after SBC is the
/// two's-complement overflow of the subtraction that was performed.
pub proof fn lemma_sbc_overflow_flag(s: CpuView, addr: u16)
    ensures
        match crate::cpu::spec_cpu_read(s, addr) {
            Ok((s1, m)) => match spec_sbc(s, addr) {
                Ok(s2) => {
                    let c: int = if flag_on(s1.p, FLAG_C) {
                        1
                    } else {
                        0
                    };
                    flag_on(s2.p, 0x40) == !(-128 <= signed_val(s1.a) - signed_val(m) - (1 - c)
                        <= 127)
                },
                Err(_) => false,
            },
            Err(_) => true,
        },
{
    match crate::cpu::spec_cpu_read(s, addr) {
        Ok((s1, m)) => {
            let c: int = if flag_on(s1.p, FLAG_C) {
                1
            } else {
                0
            };
            let result = w8(s1.a + 0x100 - m - (1 - c));
            let p1 = spec_nz(s1.p, result);
            let p2 = flag_put(p1, FLAG_C, s1.a - m - (1 - c) >= 0);
            lemma_put_on_same(p2, 0x40, (s1.a ^ m) & 0x80 != 0 && (s1.a ^ result) & 0x80 != 0);
            lemma_sbc_overflow(s1.a, m, flag_on(s1.p, FLAG_C));
        },
        Err(_) => {},
    }
}

/// Addressing is a function of the machine state: resolving the same
/// indexed mode twice from the same state gives the same address and
/// the same extra-cycle decision.
pub proof fn lemma_addressing_idempotent(s: CpuView, op: u8)
    ensures
        spec_absolute_x(s, op) == spec_absolute_x(s, op),
        spec_absolute_y(s, op) == spec_absolute_y(s, op),
        spec_indirect_indexed(s, op) == spec_indirect_indexed(s, op),
{
}

/// Undoing the index recovers the base: the page-cross test the
/// indexed modes perform compares the true base against the sum.
pub proof fn lemma_index_roundtrip(base: u16, index: u8)
    ensures
        w16(w16(base + index) - index) == base,
{
    vstd::arithmetic::div_mod::lemma_mod_multiples_vanish(1, base + index - index, 0x10000);
    vstd::arithmetic::div_mod::lemma_mod_multiples_vanish(
        1,
        (base + index) % 0x10000 - index,
        0x10000,
    );
}

/// The extra-cycle decision is the mathematical page change: adding the
/// index crosses a page exactly when the base's low byte plus the index
/// leaves the byte range.
pub proof fn lemma_page_cross(base: u16, index: u8)
    ensures
        pages_differ(base, w16(base + index)) == (base % 0x100 + index >= 0x100),
{
    let sum: int = base + index;
    vstd::arithmetic::div_mod::lemma_fundamental_div_mod(base as int, 0x100);
    if sum < 0x10000 {
        assert(w16(sum) == sum);
        if base % 0x100 + index >= 0x100 {
            assert(sum / 0x100 == base / 0x100 + 1) by (nonlinear_arith)
                requires
                    sum == (base / 0x100) * 0x100 + base % 0x100 + index,
                    0x100 <= base % 0x100 + index < 0x200,
            ;
        } else {
            assert(sum / 0x100 == base / 0x100) by (nonlinear_arith)
                requires
                    sum == (base / 0x100) * 0x100 + base % 0x100 + index,
                    0 <= base % 0x100 + index < 0x100,
            ;
        }
        assert(w16(sum) / 0x100 == sum / 0x100);
    } else {
        assert(base % 0x100 + index >= 0x100 && base / 0x100 == 0xFF) by (nonlinear_arith)
            requires
                base + index >= 0x10000,
                base < 0x10000,
                index < 0x100,
                sum == base + index,
                base == (base / 0x100) * 0x100 + base % 0x100,
                0 <= base % 0x100 < 0x100,
        ;
        vstd::arithmetic::div_mod::lemma_mod_multiples_vanish(1, sum - 0x10000, 0x10000);
        assert(w16(sum) == sum - 0x10000);
        assert(w16(sum) < 0x100);
    }
}

/// Pushing a 16-bit value and pulling one straight back yields the
/// same value, with the stack pointer and every register restored.
pub proof fn lemma_push16_pull16(s: CpuView, val: u16)
    requires
        cpu_wf(s),
    ensures
        ({
            let (s2, v) = spec_pull16(spec_push16(s, val));
            v == val && s2.sp == s.sp && s2.pc == s.pc && s2.a == s.a && s2.x == s.x && s2.y == s.y
                && s2.p == s.p && s2.cycles == s.cycles
        }),
{
    let high = (val as int / 0x100) as u8;
    let low = w8(val as int);
    vstd::arithmetic::div_mod::lemma_fundamental_div_mod(val as int, 0x100);
    assert(high as int * 0x100 + low == val);
    let sp0 = s.sp;
    let sp1 = w8(sp0 + 0xFF);
    let sp2 = w8(sp1 + 0xFF);
    if sp0 == 0 {
        assert(sp1 == 0xFF);
    } else {
        vstd::arithmetic::div_mod::lemma_mod_multiples_vanish(1, sp0 - 1, 0x100);
        assert(sp1 == sp0 - 1);
    }
    if sp1 == 0 {
        assert(sp2 == 0xFF);
    } else {
        vstd::arithmetic::div_mod::lemma_mod_multiples_vanish(1, sp1 - 1, 0x100);
        assert(sp2 == sp1 - 1);
    }
    assert(w8(sp2 + 1) == sp1) by {
        if sp2 == 0xFF {
            vstd::arithmetic::div_mod::lemma_mod_multiples_vanish(1, 0, 0x100);
        }
    }
    assert(w8(sp1 + 1) == sp0) by {
        if sp1 == 0xFF {
            vstd::arithmetic::div_mod::lemma_mod_multiples_vanish(1, 0, 0x100);
        }
    }
    assert(sp0 != sp1);
    let i1 = (0x100 + sp0 as int) % 0x800;
    let i2 = (0x100 + sp1 as int) % 0x800;
    assert(i1 == 0x100 + sp0 as int && i2 == 0x100 + sp1 as int);
    assert(i1 != i2);
}

/// PHP then PLP restores the status byte exactly, under the forced-bit
/// convention the machine maintains: bit 5 reads as one and bit 4 is
/// clear in the live register.
pub proof fn lemma_php_plp(s: CpuView)
    requires
        cpu_wf(s),
        s.p & 0x30 == 0x20,
    ensures
        match spec_php(s) {
            Ok(s1) => match spec_plp(s1) {
                Ok(s2) => s2.p == s.p && s2.sp == s.sp && s2.a == s.a && s2.pc == s.pc,
                Err(_) => false,
            },
            Err(_) => false,
        },
{
    let p = s.p;
    assert(p & 0x30 == 0x20 ==> ((p | 0x10) & 0xEF) | 0x20 == p) by (bit_vector);
    assert(w8(w8(s.sp + 0xFF) + 1) == s.sp) by {
        vstd::arithmetic::div_mod::lemma_mod_multiples_vanish(1, s.sp + 0xFF + 1 - 0x100, 0x100);
        vstd::arithmetic::div_mod::lemma_mod_multiples_vanish(
            1,
            (s.sp + 0xFF) % 0x100 + 1 - 0x100,
            0x100,
        );
    }
}

/// After CMP (and CPX, CPY), Carry holds exactly when the register is
/// at least the memory operand.
pub proof fn lemma_compare_carry(s: CpuView, addr: u16, reg: u8)
    ensures
        match crate::cpu::spec_cpu_read(s, addr) {
            Ok((s1, m)) => match crate::cpu_ops::spec_compare(s, addr, reg) {
                Ok(s2) => flag_on(s2.p, FLAG_C) == (reg >= m),
                Err(_) => false,
            },
            Err(_) => true,
        },
{
    match crate::cpu::spec_cpu_read(s, addr) {
        Ok((s1, m)) => {
            let p1 = spec_nz(s1.p, w8(reg + 0x100 - m));
            lemma_put_on_same(p1, FLAG_C, reg >= m);
        },
        Err(_) => {},
    }
}

/// A RAM write is visible to the next read of the same address, and
/// reading it back changes nothing.
pub proof fn lemma_write_then_read_ram(b: BusView, addr: u16, val: u8)
    requires
        bus_wf(b),
        addr < 0x2000,
    ensures
        match crate::bus::spec_bus_write(b, addr, val) {
            Ok(b2) => spec_bus_read(b2, addr) == Ok::<(BusView, u8), crate::fault::Fault>(
                (b2, val),
            ),
            Err(_) => false,
        },
{
}

/// A battery-RAM write through the mapper is visible to the next read
/// of the same address.
pub proof fn lemma_write_then_read_sram(b: BusView, addr: u16, val: u8)
    requires
        bus_wf(b),
        0x6000 <= addr < 0x8000,
    ensures
        match crate::bus::spec_bus_write(b, addr, val) {
            Ok(b2) => spec_bus_read(b2, addr) == Ok::<(BusView, u8), crate::fault::Fault>(
                (b2, val),
            ),
            Err(_) => false,
        },
{
}

/// RAM mirroring: every read below `0x2000` lands in the same 2 KiB,
/// so addresses `0x800 * k` apart read the same byte and leave the
/// same state.
pub proof fn lemma_ram_mirroring(b: BusView, addr: u16, k: u16)
    requires
        bus_wf(b),
        addr + 0x800 * k < 0x2000,
    ensures
        spec_bus_read(b, addr) == spec_bus_read(b, (addr + 0x800 * k) as u16),
{
    vstd::arithmetic::div_mod::lemma_mod_multiples_vanish(k as int, addr as int, 0x800);
}

/// Nametable mirroring: within the PPU's nametable range, addresses
/// `0x800 * k` apart read the same byte.
pub proof fn lemma_nametable_mirroring(p: PpuView, m: MapperView, addr: u16, k: u16)
    requires
        0x2000 <= addr,
        addr + 0x800 * k <= 0x3EFF,
    ensures
        spec_ppu_read(p, m, addr) == spec_ppu_read(p, m, (addr + 0x800 * k) as u16),
{
    vstd::arithmetic::div_mod::lemma_mod_multiples_vanish(k as int, addr as int, 0x800);
}

/// `tick` applied `n` times.
pub open spec fn tick_n(p: PpuView, n: nat) -> PpuView
    decreases n,
{
    if n == 0 {
        p
    } else {
        spec_tick(tick_n(p, (n - 1) as nat))
    }
}

/// Whether the odd-frame shortening can trigger: rendering enabled on
/// an even-parity frame.
pub open spec fn skip_armed(p: PpuView) -> bool {
    (flag_on(p.ppu_mask, MASK_BG) || flag_on(p.ppu_mask, MASK_SPRITES)) && p.even
}

/// From dot zero of scanline zero, `n` ticks land on dot `n % 341` of
/// scanline `n / 341`, as long as the shortened final dot has not been
/// reached.
proof fn lemma_tick_progress(p: PpuView, n: nat)
    requires
        p.scanline == 0,
        p.cycle == 0,
        n <= 341 * 261 + 339 || (n <= 341 * 262 - 1 && !skip_armed(p)),
    ensures
        tick_n(p, n) == (PpuView { scanline: n as int / 341, cycle: n as int % 341, ..p }),
    decreases n,
{
    if n == 0 {
        assert(tick_n(p, 0) == p);
        assert(p == (PpuView { scanline: 0int / 341, cycle: 0int % 341, ..p }));
    } else {
        let m = (n - 1) as nat;
        lemma_tick_progress(p, m);
        let q = tick_n(p, m);
        assert(tick_n(p, n) == spec_tick(q));
        let mi = m as int;
        let ni = n as int;
        vstd::arithmetic::div_mod::lemma_fundamental_div_mod(mi, 341);
        vstd::arithmetic::div_mod::lemma_fundamental_div_mod(ni, 341);
        if mi % 341 == 340 {
            assert(ni % 341 == 0 && ni / 341 == mi / 341 + 1) by (nonlinear_arith)
                requires
                    ni == mi + 1,
                    mi % 341 == 340,
                    mi >= 0,
                    mi == 341 * (mi / 341) + mi % 341,
                    ni == 341 * (ni / 341) + ni % 341,
                    0 <= ni % 341 < 341,
            ;
        } else {
            assert(ni % 341 == mi % 341 + 1 && ni / 341 == mi / 341) by (nonlinear_arith)
                requires
                    ni == mi + 1,
                    0 <= mi % 341 < 340,
                    mi == 341 * (mi / 341) + mi % 341,
                    ni == 341 * (ni / 341) + ni % 341,
                    0 <= ni % 341 < 341,
            ;
        }
        assert(mi / 341 <= 261) by (nonlinear_arith)
            requires
                mi <= 341 * 262 - 2,
                mi == 341 * (mi / 341) + mi % 341,
                0 <= mi % 341 < 341,
        ;
        if skip_armed(p) {
            assert(mi <= 341 * 261 + 338);
            assert(!(mi / 341 == 261 && mi % 341 == 339)) by (nonlinear_arith)
                requires
                    mi <= 341 * 261 + 338,
                    mi == 341 * (mi / 341) + mi % 341,
                    0 <= mi % 341 < 341,
            ;
        }
    }
}

/// The standard frame: with the shortening disarmed (rendering off, or
/// an odd-parity frame), exactly `341 * 262` ticks from dot zero of
/// scanline zero advance the frame counter by one and return the
/// counters to zero, flipping the parity.
pub proof fn lemma_frame_wrap_standard(p: PpuView)
    requires
        p.scanline == 0,
        p.cycle == 0,
        !skip_armed(p),
    ensures
        tick_n(p, (341 * 262) as nat) == (PpuView {
            scanline: 0,
            cycle: 0,
            frame: w64_inc(p.frame),
            even: !p.even,
            ..p
        }),
{
    let last = (341 * 262 - 1) as nat;
    lemma_tick_progress(p, last);
    assert(last as int / 341 == 261 && last as int % 341 == 340) by (nonlinear_arith)
        requires
            last as int == 341 * 261 + 340,
    ;
    assert(tick_n(p, (341 * 262) as nat) == spec_tick(tick_n(p, last)));
}

/// The shortened frame: with rendering enabled on an even-parity
/// frame, scanline 261 ends one dot early, and the same wrap takes
/// `341 * 262 - 1` ticks.
pub proof fn lemma_frame_wrap_short(p: PpuView)
    requires
        p.scanline == 0,
        p.cycle == 0,
        skip_armed(p),
    ensures
        tick_n(p, (341 * 262 - 1) as nat) == (PpuView {
            scanline: 0,
            cycle: 0,
            frame: w64_inc(p.frame),
            even: !p.even,
            ..p
        }),
{
    let last = (341 * 261 + 339) as nat;
    lemma_tick_progress(p, last);
    assert(last as int / 341 == 261 && last as int % 341 == 339) by (nonlinear_arith)
        requires
            last as int == 341 * 261 + 339,
    ;
    assert(tick_n(p, (341 * 262 - 1) as nat) == spec_tick(tick_n(p, last)));
}

/// The selected-sprite list holds the qualifying sprites up to the cap
/// of eight.
proof fn lemma_sel_len(oam: Seq<Sprite>, scanline: int, height: int, n: int)
    ensures
        sel_oam(oam, scanline, height, n).len() == if sel_count(oam, scanline, height, n) > 8 {
            8int
        } else {
            sel_count(oam, scanline, height, n)
        },
        sel_count(oam, scanline, height, n) >= 0,
    decreases n,
{
    if n > 0 {
        lemma_sel_len(oam, scanline, height, n - 1);
    }
}

/// Sprite overflow: when more than eight sprites cover the scanline,
/// evaluation selects exactly eight and raises the overflow bit; with
/// eight or fewer, every qualifying sprite is selected and the bit is
/// left as it was.
pub proof fn lemma_sprite_overflow(p: PpuView)
    requires
        ppu_wf(p),
    ensures
        ({
            let q = spec_evaluate_sprites(p);
            let height: int = if flag_on(p.ppu_ctrl, CTRL_SPRITE_SIZE) {
                16
            } else {
                8
            };
            let cnt = sel_count(p.primary_oam, p.scanline, height, 64);
            &&& (cnt > 8 ==> q.secondary_oam.len() == 8 && flag_on(
                q.ppu_status,
                STATUS_SPRITE_OVERFLOW,
            ))
            &&& (cnt <= 8 ==> q.secondary_oam.len() == cnt && q.ppu_status == p.ppu_status)
        }),
{
    let height: int = if flag_on(p.ppu_ctrl, CTRL_SPRITE_SIZE) {
        16
    } else {
        8
    };
    lemma_sel_len(p.primary_oam, p.scanline, height, 64);
    let st = p.ppu_status;
    assert(flag_on(st | STATUS_SPRITE_OVERFLOW, STATUS_SPRITE_OVERFLOW)) by {
        assert((st | 0x20u8) & 0x20u8 == 0x20u8) by (bit_vector);
    }
}

/// Every selected entry is an in-range sprite paired with its row.
pub proof fn lemma_selected_in_range(oam: Seq<Sprite>, scanline: int, height: int, n: int)
    ensures
        forall|j: int|
            0 <= j < sel_oam(oam, scanline, height, n).len() ==> sprite_in_range(
                #[trigger] sel_oam(oam, scanline, height, n)[j].0,
                scanline,
                height,
            ),
    decreases n,
{
    if n > 0 {
        lemma_selected_in_range(oam, scanline, height, n - 1);
        let prev = sel_oam(oam, scanline, height, n - 1);
        let cur = sel_oam(oam, scanline, height, n);
        assert forall|j: int| 0 <= j < cur.len() implies sprite_in_range(
            cur[j].0,
            scanline,
            height,
        ) by {
            if j < prev.len() {
                assert(cur[j] == prev[j]);
            }
        }
    }
}

/// Selection is complete up to the cap: an in-range sprite preceded by
/// fewer than eight in-range sprites is in the selected list, with its
/// row within the sprite.
pub proof fn lemma_selection_complete(oam: Seq<Sprite>, scanline: int, height: int, n: int, i: int)
    requires
        0 <= i < n,
        sprite_in_range(oam[i], scanline, height),
        sel_count(oam, scanline, height, i) < 8,
    ensures
        exists|j: int|
            0 <= j < sel_oam(oam, scanline, height, n).len() && #[trigger] sel_oam(
                oam,
                scanline,
                height,
                n,
            )[j] == (oam[i], (scanline - oam[i].y) as u8),
    decreases n,
{
    lemma_sel_len(oam, scanline, height, i);
    if n == i + 1 {
        let rest = sel_oam(oam, scanline, height, i);
        assert(rest.len() < 8);
        let picked = sel_oam(oam, scanline, height, n);
        assert(picked == rest.push((oam[i], (scanline - oam[i].y) as u8)));
        assert(picked[rest.len() as int] == (oam[i], (scanline - oam[i].y) as u8));
    } else {
        lemma_selection_complete(oam, scanline, height, n - 1, i);
        let prev = sel_oam(oam, scanline, height, n - 1);
        let j = choose|j: int|
            0 <= j < prev.len() && #[trigger] prev[j] == (oam[i], (scanline - oam[i].y) as u8);
        assert(sel_oam(oam, scanline, height, n)[j] == (oam[i], (scanline - oam[i].y) as u8));
    }
}

} // verus!

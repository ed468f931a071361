//! The picture processing unit.
//!
//! A dot/scanline state machine: `tick` advances a `(scanline, cycle)`
//! counter over a 262-line, 341-dot frame (with the NTSC odd-frame
//! shortening), and `step` runs one dot of work — compositing a pixel
//! on visible dots, feeding the background tile-fetch pipeline,
//! evaluating sprites at dot 257 and raising the vertical-blank flag at
//! scanline 241.  Every transition is stated against `PpuView`, the
//! mathematical content of the unit.

use vstd::prelude::*;

use crate::fault::Fault;
use crate::mapper::{mapper_wf, spec_mapper_read, Mapper, MapperView};
use crate::rom::zero_bytes;
use crate::status::{flag_on, flag_put};

verus! {

/// Width of the screen for NTSC systems.
pub const SCREEN_WIDTH: usize = 256;

/// Height of the screen for NTSC systems.
pub const SCREEN_HEIGHT: usize = 240;

/// Bytes of RGB output per frame.
pub const SCREEN_BYTES: usize = SCREEN_WIDTH * SCREEN_HEIGHT * 3;

/// The fixed 64-color hardware palette, three bytes per entry.
pub const PALETTE: [u8; 192] = [
    0x7C, 0x7C, 0x7C, 0x00, 0x00, 0xFC, 0x00, 0x00, 0xBC, 0x44, 0x28, 0xBC,
    0x94, 0x00, 0x84, 0xA8, 0x00, 0x20, 0xA8, 0x10, 0x00, 0x88, 0x14, 0x00,
    0x50, 0x30, 0x00, 0x00, 0x78, 0x00, 0x00, 0x68, 0x00, 0x00, 0x58, 0x00,
    0x00, 0x40, 0x58, 0x00, 0x00, 0x00, 0x00, 0x00, 0x00, 0x00, 0x00, 0x00,
    0xBC, 0xBC, 0xBC, 0x00, 0x78, 0xF8, 0x00, 0x58, 0xF8, 0x68, 0x44, 0xFC,
    0xD8, 0x00, 0xCC, 0xE4, 0x00, 0x58, 0xF8, 0x38, 0x00, 0xE4, 0x5C, 0x10,
    0xAC, 0x7C, 0x00, 0x00, 0xB8, 0x00, 0x00, 0xA8, 0x00, 0x00, 0xA8, 0x44,
    0x00, 0x88, 0x88, 0x00, 0x00, 0x00, 0x00, 0x00, 0x00, 0x00, 0x00, 0x00,
    0xF8, 0xF8, 0xF8, 0x3C, 0xBC, 0xFC, 0x68, 0x88, 0xFC, 0x98, 0x78, 0xF8,
    0xF8, 0x78, 0xF8, 0xF8, 0x58, 0x98, 0xF8, 0x78, 0x58, 0xFC, 0xA0, 0x44,
    0xF8, 0xB8, 0x00, 0xB8, 0xF8, 0x18, 0x58, 0xD8, 0x54, 0x58, 0xF8, 0x98,
    0x00, 0xE8, 0xD8, 0x78, 0x78, 0x78, 0x00, 0x00, 0x00, 0x00, 0x00, 0x00,
    0xFC, 0xFC, 0xFC, 0xA4, 0xE4, 0xFC, 0xB8, 0xB8, 0xF8, 0xD8, 0xB8, 0xF8,
    0xF8, 0xB8, 0xF8, 0xF8, 0xA4, 0xC0, 0xF0, 0xD0, 0xB0, 0xFC, 0xE0, 0xA8,
    0xF8, 0xD8, 0x78, 0xD8, 0xF8, 0x78, 0xB8, 0xF8, 0xB8, 0xB8, 0xF8, 0xD8,
    0x00, 0xFC, 0xFC, 0xF8, 0xD8, 0xF8, 0x00, 0x00, 0x00, 0x00, 0x00, 0x00,
];

// PPUCTRL bits.
pub const CTRL_SPRITE_TABLE: u8 = 0x08;
pub const CTRL_BG_TABLE: u8 = 0x10;
pub const CTRL_SPRITE_SIZE: u8 = 0x20;
pub const CTRL_NMI: u8 = 0x80;

// PPUMASK bits.
pub const MASK_BG_LEFT: u8 = 0x02;
pub const MASK_SPRITES_LEFT: u8 = 0x04;
pub const MASK_BG: u8 = 0x08;
pub const MASK_SPRITES: u8 = 0x10;

// PPUSTATUS bits.
pub const STATUS_SPRITE_OVERFLOW: u8 = 0x20;
pub const STATUS_SPRITE_ZERO_HIT: u8 = 0x40;
pub const STATUS_VBLANK: u8 = 0x80;

// Sprite attribute bits.
pub const ATTR_PRIORITY: u8 = 0x20;
pub const ATTR_FLIP_H: u8 = 0x40;
pub const ATTR_FLIP_V: u8 = 0x80;

/// One entry of Object Attribute Memory.
#[derive(Clone, Copy, Debug, PartialEq, Eq, Structural)]
pub struct Sprite {
    /// Y position of the top of the sprite, minus one scanline.
    pub y: u8,
    /// Tile index number; in 8x16 mode bit 0 selects the pattern table.
    pub tile: u8,
    /// Palette, priority and flip bits.
    pub attributes: u8,
    /// X position of the left side of the sprite.
    pub x: u8,
}

/// The mathematical content of the PPU.
pub ghost struct PpuView {
    pub scanline: int,
    pub cycle: int,
    pub frame: u64,
    pub screen: Seq<u8>,
    pub vram_addr: u16,
    pub temp_vram_addr: u16,
    pub primary_oam: Seq<Sprite>,
    pub secondary_oam: Seq<(Sprite, u8)>,
    pub nt: Seq<u8>,
    pub image_palette: Seq<u8>,
    pub sprite_palette: Seq<u8>,
    pub write: bool,
    pub even: bool,
    pub nametable: u8,
    pub attribute_table: u8,
    pub low_tile: u8,
    pub high_tile: u8,
    pub tile_data: u64,
    pub ppu_ctrl: u8,
    pub ppu_mask: u8,
    pub ppu_status: u8,
    pub oam_addr: u8,
    pub oam_data: u8,
    pub ppu_scroll: u8,
    pub ppu_addr: u8,
    pub ppu_data: u8,
    pub oam_dma: u8,
}

/// The shapes a PPU always has: memory sizes fixed by the hardware, at
/// most eight sprites selected for a scanline, and timing counters
/// inside one frame.
pub open spec fn ppu_wf(p: PpuView) -> bool {
    &&& p.screen.len() == SCREEN_BYTES
    &&& p.nt.len() == 0x800
    &&& p.image_palette.len() == 16
    &&& p.sprite_palette.len() == 16
    &&& p.primary_oam.len() == 64
    &&& p.secondary_oam.len() <= 8
    &&& 0 <= p.scanline <= 261
    &&& 0 <= p.cycle <= 340
}

/// `frame + 1` in the 64-bit counter.
pub open spec fn w64_inc(x: u64) -> u64 {
    if x == 0xFFFF_FFFF_FFFF_FFFF {
        0
    } else {
        (x + 1) as u64
    }
}

/// One dot of the timing state machine: the dot counter advances,
/// wrapping into the next scanline past dot 340 and into the next frame
/// past scanline 261; with rendering enabled, scanline 261 of an
/// even-parity frame ends one dot early.
pub open spec fn spec_tick(p: PpuView) -> PpuView {
    let rendering = flag_on(p.ppu_mask, MASK_BG) || flag_on(p.ppu_mask, MASK_SPRITES);
    if rendering && p.even && p.scanline == 261 && p.cycle == 339 {
        PpuView { cycle: 0, scanline: 0, frame: w64_inc(p.frame), even: !p.even, ..p }
    } else if p.cycle + 1 > 340 {
        if p.scanline + 1 > 261 {
            PpuView { cycle: 0, scanline: 0, frame: w64_inc(p.frame), even: !p.even, ..p }
        } else {
            PpuView { cycle: 0, scanline: p.scanline + 1, ..p }
        }
    } else {
        PpuView { cycle: p.cycle + 1, ..p }
    }
}

/// What a PPU bus read returns: a pattern byte from the cartridge, a
/// nametable byte (mirrored every `0x800`), or a palette byte (the
/// palette range mirrored every 32 bytes).
pub open spec fn spec_ppu_read(p: PpuView, m: MapperView, addr: u16) -> Result<u8, Fault> {
    if addr < 0x2000 {
        spec_mapper_read(m, addr)
    } else if addr <= 0x3EFF {
        Ok(p.nt[addr as int % 0x800])
    } else if addr <= 0x3F0F {
        Ok(p.image_palette[addr - 0x3F00])
    } else if addr <= 0x3F1F {
        Ok(p.sprite_palette[addr - 0x3F10])
    } else if addr <= 0x3FFF {
        let folded = (addr - 0x3F00) % 32;
        if folded < 16 {
            Ok(p.image_palette[folded as int])
        } else {
            Ok(p.sprite_palette[folded - 16])
        }
    } else {
        Err(Fault::PpuAddress(addr))
    }
}

/// What a PPU bus write leaves behind, over the same map as the reads.
pub open spec fn spec_ppu_write(p: PpuView, m: MapperView, addr: u16, val: u8) -> Result<
    (PpuView, MapperView),
    Fault,
> {
    if addr < 0x2000 {
        match crate::mapper::spec_mapper_write(m, addr, val) {
            Ok(m2) => Ok((p, m2)),
            Err(f) => Err(f),
        }
    } else if addr <= 0x3EFF {
        Ok((PpuView { nt: p.nt.update(addr as int % 0x800, val), ..p }, m))
    } else if addr <= 0x3F0F {
        Ok((PpuView { image_palette: p.image_palette.update(addr - 0x3F00, val), ..p }, m))
    } else if addr <= 0x3F1F {
        Ok((PpuView { sprite_palette: p.sprite_palette.update(addr - 0x3F10, val), ..p }, m))
    } else if addr <= 0x3FFF {
        let folded = (addr - 0x3F00) % 32;
        if folded < 16 {
            Ok((PpuView { image_palette: p.image_palette.update(folded as int, val), ..p }, m))
        } else {
            Ok((PpuView { sprite_palette: p.sprite_palette.update(folded - 16, val), ..p }, m))
        }
    } else {
        Err(Fault::PpuAddress(addr))
    }
}

/// What a register read returns: the latched byte of PPUSTATUS, OAMDATA
/// or PPUDATA; no other register is readable.
pub open spec fn spec_reg_read(p: PpuView, addr: u16) -> Result<u8, Fault> {
    if addr == 0x2002 {
        Ok(p.ppu_status)
    } else if addr == 0x2004 {
        Ok(p.oam_data)
    } else if addr == 0x2007 {
        Ok(p.ppu_data)
    } else {
        Err(Fault::RegisterRead(addr))
    }
}

/// What a register write leaves behind: the addressed latch replaced;
/// PPUSTATUS is not writable, and no register outside the known eight
/// (plus OAMDMA) exists.
pub open spec fn spec_reg_write(p: PpuView, addr: u16, val: u8) -> Result<PpuView, Fault> {
    if addr == 0x2000 {
        Ok(PpuView { ppu_ctrl: val, ..p })
    } else if addr == 0x2001 {
        Ok(PpuView { ppu_mask: val, ..p })
    } else if addr == 0x2003 {
        Ok(PpuView { oam_addr: val, ..p })
    } else if addr == 0x2004 {
        Ok(PpuView { oam_data: val, ..p })
    } else if addr == 0x2005 {
        Ok(PpuView { ppu_scroll: val, ..p })
    } else if addr == 0x2006 {
        Ok(PpuView { ppu_addr: val, ..p })
    } else if addr == 0x2007 {
        Ok(PpuView { ppu_data: val, ..p })
    } else if addr == 0x4014 {
        Ok(PpuView { oam_dma: val, ..p })
    } else {
        Err(Fault::RegisterWrite(addr))
    }
}

/// Whether `s` covers `scanline` for sprites `height` pixels tall.
pub open spec fn sprite_in_range(s: Sprite, scanline: int, height: int) -> bool {
    s.y <= scanline && scanline < s.y + height
}

/// How many of the first `n` OAM entries cover `scanline`.
pub open spec fn sel_count(oam: Seq<Sprite>, scanline: int, height: int, n: int) -> int
    decreases n,
{
    if n <= 0 {
        0
    } else {
        sel_count(oam, scanline, height, n - 1) + if sprite_in_range(
            oam[n - 1],
            scanline,
            height,
        ) {
            1int
        } else {
            0int
        }
    }
}

/// The first eight in-range sprites among the first `n` OAM entries, in
/// index order, each paired with its row within the sprite.
pub open spec fn sel_oam(oam: Seq<Sprite>, scanline: int, height: int, n: int) -> Seq<(Sprite, u8)>
    decreases n,
{
    if n <= 0 {
        Seq::empty()
    } else {
        let rest = sel_oam(oam, scanline, height, n - 1);
        let s = oam[n - 1];
        if sprite_in_range(s, scanline, height) && rest.len() < 8 {
            rest.push((s, (scanline - s.y) as u8))
        } else {
            rest
        }
    }
}

/// Sprite evaluation at dot 257 of a visible scanline: the secondary
/// list becomes the first eight in-range sprites, and the overflow
/// status bit is raised when a ninth was in range.
pub open spec fn spec_evaluate_sprites(p: PpuView) -> PpuView {
    let height: int = if flag_on(p.ppu_ctrl, CTRL_SPRITE_SIZE) {
        16
    } else {
        8
    };
    let status = if sel_count(p.primary_oam, p.scanline, height, 64) > 8 {
        p.ppu_status | STATUS_SPRITE_OVERFLOW
    } else {
        p.ppu_status
    };
    PpuView {
        secondary_oam: sel_oam(p.primary_oam, p.scanline, height, 64),
        ppu_status: status,
        ..p
    }
}

/// Shift `n` sprite pattern nibbles out of a pair of pattern bytes into
/// the accumulator, honoring horizontal flip.
pub open spec fn sprite_nibbles(
    pattern: u32,
    low: u8,
    high: u8,
    palette: u8,
    flip_h: bool,
    n: nat,
) -> u32
    decreases n,
{
    if n == 0 {
        pattern
    } else if flip_h {
        sprite_nibbles(
            (pattern << 4) | ((palette | (low & 1) | ((high & 1) << 1)) as u32),
            low >> 1,
            high >> 1,
            palette,
            flip_h,
            (n - 1) as nat,
        )
    } else {
        sprite_nibbles(
            (pattern << 4) | ((palette | ((low & 0x80) >> 7) | ((high & 0x80) >> 6)) as u32),
            low << 1,
            high << 1,
            palette,
            flip_h,
            (n - 1) as nat,
        )
    }
}

/// The packed pattern nibbles of one row of `s`: the row is folded per
/// the sprite height and vertical flip, the two pattern-table bytes are
/// fetched, and seven 4-bit (palette | pattern) nibbles are shifted out.
pub open spec fn spec_sprite_pattern(p: PpuView, m: MapperView, s: Sprite, row: u8) -> Result<
    u32,
    Fault,
> {
    let size16 = flag_on(p.ppu_ctrl, CTRL_SPRITE_SIZE);
    let flip_v = flag_on(s.attributes, ATTR_FLIP_V);
    let addr: u16 = if !size16 {
        let r0: int = 7 - (row as int % 8);
        let r1: int = if flip_v {
            7 - r0
        } else {
            r0
        };
        let table: int = if flag_on(p.ppu_ctrl, CTRL_SPRITE_TABLE) {
            0x1000
        } else {
            0
        };
        (table + 16 * (s.tile as int) + r1) as u16
    } else {
        let r0: int = 15 - (row as int % 16);
        let r1: int = if flip_v {
            15 - r0
        } else {
            r0
        };
        let table: int = 0x1000 * (s.tile as int % 2);
        let tile: int = if r1 > 7 {
            s.tile as int + 1
        } else {
            s.tile as int
        };
        let r2: int = if r1 > 7 {
            r1 - 8
        } else {
            r1
        };
        (table + 16 * tile + r2) as u16
    };
    let palette = ((s.attributes as int % 4) + 4) as u8;
    match spec_ppu_read(p, m, addr) {
        Err(f) => Err(f),
        Ok(low) => match spec_ppu_read(p, m, (addr + 8) as u16) {
            Err(f) => Err(f),
            Ok(high) => Ok(
                sprite_nibbles(0, low, high, palette, flag_on(s.attributes, ATTR_FLIP_H), 7),
            ),
        },
    }
}

/// The sprite contribution at the current dot, scanning the secondary
/// list from slot `i`: the first candidate whose span covers the dot
/// and whose pattern nibble is opaque wins, with its slot index.
pub open spec fn spec_sprite_pixel_at(p: PpuView, m: MapperView, i: int) -> Result<
    (usize, u32, Option<Sprite>),
    Fault,
>
    decreases p.secondary_oam.len() - i,
{
    if i < 0 || i >= p.secondary_oam.len() {
        Ok((0, 0, Option::None))
    } else {
        let (s, row) = p.secondary_oam[i];
        let x = p.cycle - 1;
        if x < s.x || x > s.x + 7 {
            spec_sprite_pixel_at(p, m, i + 1)
        } else {
            match spec_sprite_pattern(p, m, s, row) {
                Err(f) => Err(f),
                Ok(pattern) => {
                    let offset = 7 - (x - s.x);
                    let color = (pattern >> (offset * 4) as u32) & 0x0F;
                    if color % 4 == 0 {
                        spec_sprite_pixel_at(p, m, i + 1)
                    } else {
                        Ok((i as usize, color, Option::Some(s)))
                    }
                },
            }
        }
    }
}

/// The sprite contribution at the current dot, or a transparent default
/// when sprite rendering (or its leftmost-column bit) is off.
pub open spec fn spec_sprite_pixel(p: PpuView, m: MapperView) -> Result<
    (usize, u32, Option<Sprite>),
    Fault,
> {
    if !flag_on(p.ppu_mask, MASK_SPRITES) {
        Ok((0, 0, Option::None))
    } else if p.cycle - 1 < 8 && !flag_on(p.ppu_mask, MASK_SPRITES_LEFT) {
        Ok((0, 0, Option::None))
    } else {
        spec_sprite_pixel_at(p, m, 0)
    }
}

/// The background nibble at the current dot, taken from the high half
/// of the shift register at the fine-X position.
pub open spec fn spec_background_pixel(p: PpuView) -> u32 {
    if !flag_on(p.ppu_mask, MASK_BG) {
        0
    } else if p.cycle - 1 < 8 && !flag_on(p.ppu_mask, MASK_BG_LEFT) {
        0
    } else {
        (((p.tile_data >> 32) as u32) >> ((7 - (p.ppu_scroll as u32 % 8)) * 4)) & 0x0F
    }
}

/// Compositing of one output pixel: backdrop when both contributions
/// are transparent, the opaque one when only one is, and on overlap the
/// sprite-zero-hit bit is latched and the sprite's priority bit picks
/// the winner; the palette byte is then looked up in the hardware
/// palette and three RGB bytes land in the frame buffer.
pub open spec fn spec_render_pixel(p: PpuView, m: MapperView) -> Result<PpuView, Fault> {
    let x = p.cycle - 1;
    let y = p.scanline;
    let bg = spec_background_pixel(p);
    match spec_sprite_pixel(p, m) {
        Err(f) => Err(f),
        Ok((i, sp, spr)) => {
            let behind = match spr {
                Option::Some(s) => flag_on(s.attributes, ATTR_PRIORITY),
                Option::None => false,
            };
            let status = if bg % 4 != 0 && sp % 4 != 0 {
                flag_put(p.ppu_status, STATUS_SPRITE_ZERO_HIT, i == 0 && x < 255)
            } else {
                p.ppu_status
            };
            let color: u32 = if bg % 4 == 0 && sp % 4 == 0 {
                0
            } else if bg % 4 == 0 {
                sp | 0x10
            } else if sp % 4 == 0 {
                bg
            } else if behind {
                bg
            } else {
                sp | 0x10
            };
            match spec_ppu_read(p, m, (0x3F00 + color % 32) as u16) {
                Err(f) => Err(f),
                Ok(pb) => {
                    let base = (pb as int % 64) * 3;
                    let at = (y * 256 + x) * 3;
                    let screen = p.screen.update(at, PALETTE[base + 2]).update(
                        at + 1,
                        PALETTE[base + 1],
                    ).update(at + 2, PALETTE[base]);
                    Ok(PpuView { ppu_status: status, screen, ..p })
                },
            }
        },
    }
}

/// Pack `n` background pattern nibbles into the accumulator.
pub open spec fn bg_nibbles(data: u64, low: u8, high: u8, attr: u8, n: nat) -> u64
    decreases n,
{
    if n == 0 {
        data
    } else {
        bg_nibbles(
            (data << 4) | ((attr | ((low & 0x80) >> 7) | ((high & 0x80) >> 6)) as u64),
            low << 1,
            high << 1,
            attr,
            (n - 1) as nat,
        )
    }
}

/// One dot of the background fetch pipeline: the shift register moves
/// by a nibble, and dots 1/3/5/7 of each 8-dot group latch the
/// nametable, attribute and pattern bytes while dot 0 packs the eight
/// finished nibbles into the low half of the register.
pub open spec fn spec_fetch(p: PpuView, m: MapperView) -> Result<PpuView, Fault> {
    let p1 = PpuView { tile_data: p.tile_data << 4, ..p };
    let phase = p.cycle % 8;
    if phase == 1 {
        let addr = (0x2000 | (p.vram_addr & 0x0FFF)) as u16;
        match spec_ppu_read(p, m, addr) {
            Err(f) => Err(f),
            Ok(v) => Ok(PpuView { nametable: v, ..p1 }),
        }
    } else if phase == 3 {
        let a = p.vram_addr;
        let addr = (0x23C0 | (a & 0x0C00) | ((a >> 4) & 0x38) | ((a >> 2) & 0x07)) as u16;
        let shift = (((a >> 4) & 4) | (a & 2)) as u16;
        match spec_ppu_read(p, m, addr) {
            Err(f) => Err(f),
            Ok(v) => Ok(PpuView { attribute_table: (((v >> shift) & 3) << 2) as u8, ..p1 }),
        }
    } else if phase == 5 {
        let fine_y: int = (p.vram_addr >> 12) as int % 8;
        let table: int = if flag_on(p.ppu_ctrl, CTRL_BG_TABLE) {
            0x1000
        } else {
            0
        };
        match spec_ppu_read(p, m, (table + (p.nametable as int) * 16 + fine_y) as u16) {
            Err(f) => Err(f),
            Ok(v) => Ok(PpuView { low_tile: v, ..p1 }),
        }
    } else if phase == 7 {
        let fine_y: int = (p.vram_addr >> 12) as int % 8;
        let table: int = if flag_on(p.ppu_ctrl, CTRL_BG_TABLE) {
            0x1000
        } else {
            0
        };
        match spec_ppu_read(p, m, (table + (p.nametable as int) * 16 + fine_y + 8) as u16) {
            Err(f) => Err(f),
            Ok(v) => Ok(PpuView { high_tile: v, ..p1 }),
        }
    } else if phase == 0 {
        let data = bg_nibbles(0, p.low_tile, p.high_tile, p.attribute_table, 8);
        Ok(PpuView { tile_data: p1.tile_data | data, low_tile: 0, high_tile: 0, ..p1 })
    } else {
        Ok(p1)
    }
}

/// Coarse-X increment at the end of an 8-dot fetch group, flipping the
/// horizontal nametable at column 31.
pub open spec fn spec_increment_x(v: u16) -> u16 {
    if v & 0x001F == 31 {
        (v & 0xFFE0) ^ 0x0400
    } else {
        ((v + 1) % 0x10000) as u16
    }
}

/// Vertical scroll increment at dot 256: fine Y carries into coarse Y,
/// which flips the vertical nametable at row 29.
pub open spec fn spec_increment_y(v: u16) -> u16 {
    if v & 0x7000 != 0x7000 {
        ((v + 0x1000) % 0x10000) as u16
    } else {
        let v2 = v & 0x8FFF;
        let y = (v2 & 0x03E0) >> 5;
        let v3 = if y == 29 {
            v2 ^ 0x0800
        } else {
            v2
        };
        let y2: u16 = if y == 29 || y == 31 {
            0
        } else {
            (y + 1) as u16
        };
        (v3 & 0xFC1F) | (y2 << 5)
    }
}

/// One dot of PPU work after `tick`: a visible pixel is rendered
/// first, then the fetch pipeline and scroll counters
/// advance under the background-enable bit, sprites are evaluated at
/// dot 257 under the sprite-enable bit, and the vertical-blank and
/// sprite status bits are set and cleared at their fixed dots.  The
/// boolean is the NMI request raised when vblank begins with NMI
/// generation enabled.
pub open spec fn spec_ppu_step(p: PpuView, m: MapperView) -> Result<(PpuView, bool), Fault> {
    let p0 = spec_tick(p);
    let pre_render = p0.scanline == 261;
    let visible = p0.scanline < 240;
    let pre_fetch_cycle = 321 <= p0.cycle && p0.cycle <= 336;
    let visible_cycle = 1 <= p0.cycle && p0.cycle <= 256;
    let bg_result: Result<PpuView, Fault> = if flag_on(p0.ppu_mask, MASK_BG) {
        let ra: Result<PpuView, Fault> = if visible && visible_cycle {
            spec_render_pixel(p0, m)
        } else {
            Ok(p0)
        };
        match ra {
            Err(f) => Err(f),
            Ok(pa) => {
                let rb: Result<PpuView, Fault> = if (pre_render || visible) && (pre_fetch_cycle
                    || visible_cycle) {
                    spec_fetch(pa, m)
                } else {
                    Ok(pa)
                };
                match rb {
                    Err(f) => Err(f),
                    Ok(pb) => {
                        let pc = if pre_render && 280 <= p0.cycle && p0.cycle <= 304 {
                            PpuView {
                                vram_addr: (pb.vram_addr & 0x841F) | (pb.temp_vram_addr & 0x7BE0),
                                ..pb
                            }
                        } else {
                            pb
                        };
                        let pd = if pre_render || visible {
                            let p_x = if pre_fetch_cycle && p0.cycle % 8 == 0 {
                                PpuView { vram_addr: spec_increment_x(pc.vram_addr), ..pc }
                            } else {
                                pc
                            };
                            let p_y = if p0.cycle == 256 {
                                PpuView { vram_addr: spec_increment_y(p_x.vram_addr), ..p_x }
                            } else {
                                p_x
                            };
                            if p0.cycle == 257 {
                                PpuView {
                                    vram_addr: (p_y.vram_addr & 0xFBE0) | (p_y.temp_vram_addr
                                        & 0x041F),
                                    ..p_y
                                }
                            } else {
                                p_y
                            }
                        } else {
                            pc
                        };
                        Ok(pd)
                    },
                }
            },
        }
    } else {
        Ok(p0)
    };
    match bg_result {
        Err(f) => Err(f),
        Ok(p1) => {
            let p2 = if flag_on(p1.ppu_mask, MASK_SPRITES) && p0.cycle == 257 && visible {
                spec_evaluate_sprites(p1)
            } else {
                p1
            };
            let (p3, nmi) = if p0.scanline == 241 && p0.cycle == 1 {
                (
                    PpuView { ppu_status: p2.ppu_status | STATUS_VBLANK, ..p2 },
                    flag_on(p2.ppu_ctrl, CTRL_NMI),
                )
            } else {
                (p2, false)
            };
            let p4 = if p0.scanline == 261 && p0.cycle == 1 {
                PpuView {
                    ppu_status: p3.ppu_status & !(STATUS_SPRITE_ZERO_HIT | STATUS_SPRITE_OVERFLOW
                        | STATUS_VBLANK),
                    ..p3
                }
            } else {
                p3
            };
            Ok((p4, nmi))
        },
    }
}

/// The state a fresh PPU starts in.
pub open spec fn spec_ppu_new() -> PpuView {
    PpuView {
        scanline: 0,
        cycle: 0,
        frame: 0,
        screen: Seq::new(SCREEN_BYTES as nat, |i: int| 0u8),
        vram_addr: 0,
        temp_vram_addr: 0,
        primary_oam: Seq::new(64, |i: int| Sprite { y: 0, tile: 0, attributes: 0, x: 0 }),
        secondary_oam: Seq::empty(),
        nt: Seq::new(0x800, |i: int| 0u8),
        image_palette: Seq::new(16, |i: int| 0u8),
        sprite_palette: Seq::new(16, |i: int| 0u8),
        write: true,
        even: true,
        nametable: 0,
        attribute_table: 0,
        low_tile: 0,
        high_tile: 0,
        tile_data: 0,
        ppu_ctrl: 0,
        ppu_mask: 0,
        ppu_status: 0,
        oam_addr: 0,
        oam_data: 0,
        ppu_scroll: 0,
        ppu_addr: 0,
        ppu_data: 0,
        oam_dma: 0,
    }
}

/// The picture processing unit.
pub struct Ppu {
    scanline: usize,
    cycle: usize,
    frame: u64,
    screen: Vec<u8>,
    vram_addr: u16,
    temp_vram_addr: u16,
    /// Object Attribute Memory: a display list of up to 64 sprites.
    primary_oam: Vec<Sprite>,
    /// The at-most-eight sprites selected for the current scanline,
    /// each with its row within the sprite.
    secondary_oam: Vec<(Sprite, u8)>,
    nt: Vec<u8>,
    /// Palette indices available to background tiles.
    image_palette: Vec<u8>,
    /// Palette indices available to sprites.
    sprite_palette: Vec<u8>,
    /// Write toggle.
    write: bool,
    /// Even (true) or odd (false) frame parity.
    even: bool,
    nametable: u8,
    attribute_table: u8,
    low_tile: u8,
    high_tile: u8,
    tile_data: u64,
    /// $2000 PPUCTRL
    ppu_ctrl: u8,
    /// $2001 PPUMASK
    ppu_mask: u8,
    /// $2002 PPUSTATUS
    ppu_status: u8,
    /// $2003 OAMADDR
    oam_addr: u8,
    /// $2004 OAMDATA
    oam_data: u8,
    /// $2005 PPUSCROLL
    ppu_scroll: u8,
    /// $2006 PPUADDR
    ppu_addr: u8,
    /// $2007 PPUDATA
    ppu_data: u8,
    /// $4014 OAMDMA
    oam_dma: u8,
}

impl View for Ppu {
    type V = PpuView;

    closed spec fn view(&self) -> PpuView {
        PpuView {
            scanline: self.scanline as int,
            cycle: self.cycle as int,
            frame: self.frame,
            screen: self.screen@,
            vram_addr: self.vram_addr,
            temp_vram_addr: self.temp_vram_addr,
            primary_oam: self.primary_oam@,
            secondary_oam: self.secondary_oam@,
            nt: self.nt@,
            image_palette: self.image_palette@,
            sprite_palette: self.sprite_palette@,
            write: self.write,
            even: self.even,
            nametable: self.nametable,
            attribute_table: self.attribute_table,
            low_tile: self.low_tile,
            high_tile: self.high_tile,
            tile_data: self.tile_data,
            ppu_ctrl: self.ppu_ctrl,
            ppu_mask: self.ppu_mask,
            ppu_status: self.ppu_status,
            oam_addr: self.oam_addr,
            oam_data: self.oam_data,
            ppu_scroll: self.ppu_scroll,
            ppu_addr: self.ppu_addr,
            ppu_data: self.ppu_data,
            oam_dma: self.oam_dma,
        }
    }
}

impl Ppu {
    pub fn new() -> (r: Ppu)
        ensures
            r@ == spec_ppu_new(),
            ppu_wf(r@),
    {
        let mut primary: Vec<Sprite> = Vec::new();
        let mut i: usize = 0;
        while i < 64
            invariant
                i <= 64,
                primary@ == Seq::new(i as nat, |j: int| Sprite { y: 0, tile: 0, attributes: 0, x: 0 }),
            decreases 64 - i,
        {
            primary.push(Sprite { y: 0, tile: 0, attributes: 0, x: 0 });
            i = i + 1;
            proof {
                assert(primary@ =~= Seq::new(
                    i as nat,
                    |j: int| Sprite { y: 0, tile: 0, attributes: 0, x: 0 },
                ));
            }
        }
        let r = Ppu {
            scanline: 0,
            cycle: 0,
            frame: 0,
            screen: zero_bytes(SCREEN_BYTES),
            vram_addr: 0,
            temp_vram_addr: 0,
            primary_oam: primary,
            secondary_oam: Vec::new(),
            nt: zero_bytes(0x800),
            image_palette: zero_bytes(16),
            sprite_palette: zero_bytes(16),
            write: true,
            even: true,
            nametable: 0,
            attribute_table: 0,
            low_tile: 0,
            high_tile: 0,
            tile_data: 0,
            ppu_ctrl: 0,
            ppu_mask: 0,
            ppu_status: 0,
            oam_addr: 0,
            oam_data: 0,
            ppu_scroll: 0,
            ppu_addr: 0,
            ppu_data: 0,
            oam_dma: 0,
        };
        r
    }

    /// The current timing counters: scanline, dot and frame number.
    pub fn timing(&self) -> (r: (usize, usize, u64))
        ensures
            r.0 as int == self@.scanline,
            r.1 as int == self@.cycle,
            r.2 == self@.frame,
    {
        (self.scanline, self.cycle, self.frame)
    }

    /// The RGB frame buffer, three bytes per pixel in row-major order.
    pub fn screen(&self) -> (r: &Vec<u8>)
        ensures
            r@ == self@.screen,
    {
        &self.screen
    }

    /// How many sprites the last evaluation selected.
    pub fn secondary_count(&self) -> (r: usize)
        ensures
            r == self@.secondary_oam.len(),
    {
        self.secondary_oam.len()
    }

    /// Replace OAM entry `i`.
    pub fn set_sprite(&mut self, i: usize, s: Sprite)
        requires
            i < old(self)@.primary_oam.len(),
        ensures
            final(self)@ == (PpuView {
                primary_oam: old(self)@.primary_oam.update(i as int, s),
                ..old(self)@
            }),
    {
        self.primary_oam[i] = s;
    }

    /// Read a byte off the PPU's own bus.
    pub fn read(&self, mapper: &Mapper, addr: u16) -> (r: Result<u8, Fault>)
        requires
            ppu_wf(self@),
            mapper_wf(mapper@),
        ensures
            r == spec_ppu_read(self@, mapper@, addr),
    {
        if addr < 0x2000 {
            mapper.read(addr)
        } else if addr <= 0x3EFF {
            Ok(self.nt[(addr % 0x800) as usize])
        } else if addr <= 0x3F0F {
            Ok(self.image_palette[(addr - 0x3F00) as usize])
        } else if addr <= 0x3F1F {
            Ok(self.sprite_palette[(addr - 0x3F10) as usize])
        } else if addr <= 0x3FFF {
            let folded: u16 = (addr - 0x3F00) % 32;
            if folded < 16 {
                Ok(self.image_palette[folded as usize])
            } else {
                Ok(self.sprite_palette[(folded - 16) as usize])
            }
        } else {
            Err(Fault::PpuAddress(addr))
        }
    }

    /// Write a byte over the PPU's own bus.
    pub fn write(&mut self, mapper: &mut Mapper, addr: u16, val: u8) -> (r: Result<(), Fault>)
        requires
            ppu_wf(old(self)@),
            mapper_wf(old(mapper)@),
        ensures
            ppu_wf(final(self)@),
            mapper_wf(final(mapper)@),
            match spec_ppu_write(old(self)@, old(mapper)@, addr, val) {
                Ok((p2, m2)) => r is Ok && final(self)@ == p2 && final(mapper)@ == m2,
                Err(f) => r matches Err(g) && g == f && final(self)@ == old(self)@,
            },
    {
        if addr < 0x2000 {
            mapper.write(addr, val)
        } else if addr <= 0x3EFF {
            self.nt[(addr % 0x800) as usize] = val;
            Ok(())
        } else if addr <= 0x3F0F {
            self.image_palette[(addr - 0x3F00) as usize] = val;
            Ok(())
        } else if addr <= 0x3F1F {
            self.sprite_palette[(addr - 0x3F10) as usize] = val;
            Ok(())
        } else if addr <= 0x3FFF {
            let folded: u16 = (addr - 0x3F00) % 32;
            if folded < 16 {
                self.image_palette[folded as usize] = val;
            } else {
                self.sprite_palette[(folded - 16) as usize] = val;
            }
            Ok(())
        } else {
            Err(Fault::PpuAddress(addr))
        }
    }

    /// Read one of the memory-mapped registers.
    pub fn read_register(&self, addr: u16) -> (r: Result<u8, Fault>)
        ensures
            r == spec_reg_read(self@, addr),
    {
        if addr == 0x2002 {
            Ok(self.ppu_status)
        } else if addr == 0x2004 {
            Ok(self.oam_data)
        } else if addr == 0x2007 {
            Ok(self.ppu_data)
        } else {
            Err(Fault::RegisterRead(addr))
        }
    }

    /// Write one of the memory-mapped registers.
    pub fn write_register(&mut self, addr: u16, val: u8) -> (r: Result<(), Fault>)
        ensures
            ppu_wf(old(self)@) ==> ppu_wf(final(self)@),
            match spec_reg_write(old(self)@, addr, val) {
                Ok(p2) => r is Ok && final(self)@ == p2,
                Err(f) => r matches Err(g) && g == f && final(self)@ == old(self)@,
            },
    {
        if addr == 0x2000 {
            self.ppu_ctrl = val;
            Ok(())
        } else if addr == 0x2001 {
            self.ppu_mask = val;
            Ok(())
        } else if addr == 0x2003 {
            self.oam_addr = val;
            Ok(())
        } else if addr == 0x2004 {
            self.oam_data = val;
            Ok(())
        } else if addr == 0x2005 {
            self.ppu_scroll = val;
            Ok(())
        } else if addr == 0x2006 {
            self.ppu_addr = val;
            Ok(())
        } else if addr == 0x2007 {
            self.ppu_data = val;
            Ok(())
        } else if addr == 0x4014 {
            self.oam_dma = val;
            Ok(())
        } else {
            Err(Fault::RegisterWrite(addr))
        }
    }

    /// Reset the timing counters and control latches.
    pub fn reset(&mut self)
        ensures
            final(self)@ == (PpuView {
                cycle: 340,
                scanline: 240,
                frame: 0,
                ppu_ctrl: 0,
                ppu_mask: 0,
                oam_addr: 0,
                ..old(self)@
            }),
            ppu_wf(old(self)@) ==> ppu_wf(final(self)@),
    {
        self.cycle = 340;
        self.scanline = 240;
        self.frame = 0;
        self.ppu_ctrl = 0;
        self.ppu_mask = 0;
        self.oam_addr = 0;
    }

    /// Advance the dot counter by one.
    pub fn tick(&mut self)
        requires
            ppu_wf(old(self)@),
        ensures
            ppu_wf(final(self)@),
            final(self)@ == spec_tick(old(self)@),
    {
        let rendering = flag_on_exec(self.ppu_mask, MASK_BG) || flag_on_exec(
            self.ppu_mask,
            MASK_SPRITES,
        );
        if rendering && self.even && self.scanline == 261 && self.cycle == 339 {
            self.cycle = 0;
            self.scanline = 0;
            self.frame = self.frame.wrapping_add(1);
            self.even = !self.even;
            return ;
        }
        self.cycle = self.cycle + 1;
        if self.cycle > 340 {
            self.cycle = 0;
            self.scanline = self.scanline + 1;
            if self.scanline > 261 {
                self.scanline = 0;
                self.frame = self.frame.wrapping_add(1);
                self.even = !self.even;
            }
        }
    }

    /// Select the sprites for the scanline now being prepared.
    pub fn evaluate_sprites(&mut self)
        requires
            ppu_wf(old(self)@),
        ensures
            ppu_wf(final(self)@),
            final(self)@ == spec_evaluate_sprites(old(self)@),
    {
        let height: usize = if flag_on_exec(self.ppu_ctrl, CTRL_SPRITE_SIZE) {
            16
        } else {
            8
        };
        self.secondary_oam = Vec::new();
        let mut count: usize = 0;
        let mut i: usize = 0;
        while i < 64
            invariant
                i <= 64,
                count <= i,
                self@.secondary_oam.len() <= 8,
                ppu_wf(old(self)@),
                height == (if flag_on(old(self)@.ppu_ctrl, CTRL_SPRITE_SIZE) {
                    16int
                } else {
                    8int
                }),
                count as int == sel_count(
                    old(self)@.primary_oam,
                    old(self)@.scanline,
                    height as int,
                    i as int,
                ),
                self@ == (PpuView {
                    secondary_oam: sel_oam(
                        old(self)@.primary_oam,
                        old(self)@.scanline,
                        height as int,
                        i as int,
                    ),
                    ..old(self)@
                }),
            decreases 64 - i,
        {
            let s = self.primary_oam[i];
            if self.scanline >= s.y as usize && self.scanline < s.y as usize + height {
                let row: u8 = (self.scanline - s.y as usize) as u8;
                if self.secondary_oam.len() < 8 {
                    self.secondary_oam.push((s, row));
                }
                count = count + 1;
            }
            i = i + 1;
        }
        if count > 8 {
            self.ppu_status = self.ppu_status | STATUS_SPRITE_OVERFLOW;
        }
    }

    /// The packed pattern nibbles of row `row` of sprite `s`.
    pub fn sprite_pattern(&self, mapper: &Mapper, s: Sprite, row: u8) -> (r: Result<u32, Fault>)
        requires
            ppu_wf(self@),
            mapper_wf(mapper@),
        ensures
            r == spec_sprite_pattern(self@, mapper@, s, row),
    {
        let size16 = flag_on_exec(self.ppu_ctrl, CTRL_SPRITE_SIZE);
        let flip_v = flag_on_exec(s.attributes, ATTR_FLIP_V);
        let addr: u16 = if !size16 {
            let r0: u16 = 7 - (row as u16 % 8);
            let r1: u16 = if flip_v {
                7 - r0
            } else {
                r0
            };
            let table: u16 = if flag_on_exec(self.ppu_ctrl, CTRL_SPRITE_TABLE) {
                0x1000
            } else {
                0
            };
            table + 16 * (s.tile as u16) + r1
        } else {
            let r0: u16 = 15 - (row as u16 % 16);
            let r1: u16 = if flip_v {
                15 - r0
            } else {
                r0
            };
            let table: u16 = 0x1000 * (s.tile as u16 % 2);
            let tile: u16 = if r1 > 7 {
                s.tile as u16 + 1
            } else {
                s.tile as u16
            };
            let r2: u16 = if r1 > 7 {
                r1 - 8
            } else {
                r1
            };
            table + 16 * tile + r2
        };
        let palette: u8 = (s.attributes % 4) + 4;
        let low = match self.read(mapper, addr) {
            Ok(v) => v,
            Err(f) => {
                return Err(f);
            },
        };
        let high = match self.read(mapper, addr + 8) {
            Ok(v) => v,
            Err(f) => {
                return Err(f);
            },
        };
        let flip_h = flag_on_exec(s.attributes, ATTR_FLIP_H);
        let mut pattern: u32 = 0;
        let mut low_bits: u8 = low;
        let mut high_bits: u8 = high;
        let mut n: usize = 0;
        while n < 7
            invariant
                n <= 7,
                sprite_nibbles(pattern, low_bits, high_bits, palette, flip_h, (7 - n) as nat)
                    == sprite_nibbles(0, low, high, palette, flip_h, 7),
            decreases 7 - n,
        {
            if flip_h {
                let a: u8 = low_bits & 1;
                let b: u8 = (high_bits & 1) << 1;
                pattern = (pattern << 4) | ((palette | a | b) as u32);
                low_bits = low_bits >> 1;
                high_bits = high_bits >> 1;
            } else {
                let a: u8 = (low_bits & 0x80) >> 7;
                let b: u8 = (high_bits & 0x80) >> 6;
                pattern = (pattern << 4) | ((palette | a | b) as u32);
                low_bits = low_bits << 1;
                high_bits = high_bits << 1;
            }
            n = n + 1;
        }
        Ok(pattern)
    }

    /// The winning sprite contribution at the current dot.
    pub fn sprite_pixel(&self, mapper: &Mapper) -> (r: Result<(usize, u32, Option<Sprite>), Fault>)
        requires
            ppu_wf(self@),
            mapper_wf(mapper@),
            1 <= self@.cycle,
        ensures
            r == spec_sprite_pixel(self@, mapper@),
    {
        if !flag_on_exec(self.ppu_mask, MASK_SPRITES) {
            return Ok((0, 0, Option::None));
        }
        let x: usize = self.cycle - 1;
        if x < 8 && !flag_on_exec(self.ppu_mask, MASK_SPRITES_LEFT) {
            return Ok((0, 0, Option::None));
        }
        let mut i: usize = 0;
        while i < self.secondary_oam.len()
            invariant
                i <= self@.secondary_oam.len(),
                ppu_wf(self@),
                mapper_wf(mapper@),
                1 <= self@.cycle,
                x == self@.cycle - 1,
                flag_on(self@.ppu_mask, MASK_SPRITES),
                !(self@.cycle - 1 < 8 && !flag_on(self@.ppu_mask, MASK_SPRITES_LEFT)),
                spec_sprite_pixel_at(self@, mapper@, i as int) == spec_sprite_pixel_at(
                    self@,
                    mapper@,
                    0,
                ),
            decreases self@.secondary_oam.len() - i,
        {
            let (s, row) = self.secondary_oam[i];
            if x >= s.x as usize && x <= s.x as usize + 7 {
                let pattern = match self.sprite_pattern(mapper, s, row) {
                    Ok(v) => v,
                    Err(f) => {
                        return Err(f);
                    },
                };
                let offset: usize = 7 - (x - s.x as usize);
                let color: u32 = (pattern >> ((offset * 4) as u32)) & 0x0F;
                if color % 4 != 0 {
                    return Ok((i, color, Option::Some(s)));
                }
            }
            i = i + 1;
        }
        Ok((0, 0, Option::None))
    }

    /// The background nibble at the current dot.
    pub fn background_pixel(&self) -> (r: u32)
        requires
            1 <= self@.cycle,
        ensures
            r == spec_background_pixel(self@),
    {
        if !flag_on_exec(self.ppu_mask, MASK_BG) {
            return 0;
        }
        let x: usize = self.cycle - 1;
        if x < 8 && !flag_on_exec(self.ppu_mask, MASK_BG_LEFT) {
            return 0;
        }
        let td: u64 = self.tile_data;
        proof {
            assert(td >> 32 < 0x1_0000_0000) by (bit_vector);
        }
        let high_half: u32 = (td >> 32) as u32;
        let fine_x: u32 = self.ppu_scroll as u32 % 8;
        (high_half >> ((7 - fine_x) * 4)) & 0x0F
    }

    /// Composite and store one output pixel.
    pub fn render_pixel(&mut self, mapper: &Mapper) -> (r: Result<(), Fault>)
        requires
            ppu_wf(old(self)@),
            mapper_wf(mapper@),
            1 <= old(self)@.cycle <= 256,
            old(self)@.scanline < 240,
        ensures
            ppu_wf(final(self)@),
            match spec_render_pixel(old(self)@, mapper@) {
                Ok(p2) => r is Ok && final(self)@ == p2,
                Err(f) => r matches Err(g) && g == f && final(self)@ == old(self)@,
            },
    {
        let x: usize = self.cycle - 1;
        let y: usize = self.scanline;
        let bg = self.background_pixel();
        let (i, sp, spr) = match self.sprite_pixel(mapper) {
            Ok(v) => v,
            Err(f) => {
                return Err(f);
            },
        };
        let behind = match spr {
            Option::Some(s) => flag_on_exec(s.attributes, ATTR_PRIORITY),
            Option::None => false,
        };
        if bg % 4 != 0 && sp % 4 != 0 {
            let hit = i == 0 && x < 255;
            if hit {
                self.ppu_status = self.ppu_status | STATUS_SPRITE_ZERO_HIT;
            } else {
                self.ppu_status = self.ppu_status & !STATUS_SPRITE_ZERO_HIT;
            }
        }
        let color: u32 = if bg % 4 == 0 && sp % 4 == 0 {
            0
        } else if bg % 4 == 0 {
            sp | 0x10
        } else if sp % 4 == 0 {
            bg
        } else if behind {
            bg
        } else {
            sp | 0x10
        };
        let pal_addr: u16 = 0x3F00 + (color % 32) as u16;
        let pb = match self.read(mapper, pal_addr) {
            Ok(v) => v,
            Err(f) => {
                return Err(f);
            },
        };
        let base: usize = (pb % 64) as usize * 3;
        let at: usize = (y * 256 + x) * 3;
        self.screen[at] = PALETTE[base + 2];
        self.screen[at + 1] = PALETTE[base + 1];
        self.screen[at + 2] = PALETTE[base];
        Ok(())
    }

    /// One dot of the background fetch pipeline.
    fn fetch_background(&mut self, mapper: &Mapper) -> (r: Result<(), Fault>)
        requires
            ppu_wf(old(self)@),
            mapper_wf(mapper@),
        ensures
            ppu_wf(final(self)@),
            match spec_fetch(old(self)@, mapper@) {
                Ok(p2) => r is Ok && final(self)@ == p2,
                Err(f) => r matches Err(g) && g == f,
            },
    {
        self.tile_data = self.tile_data << 4;
        let phase: usize = self.cycle % 8;
        if phase == 1 {
            let addr: u16 = 0x2000 | (self.vram_addr & 0x0FFF);
            let v = match self.read(mapper, addr) {
                Ok(v) => v,
                Err(f) => {
                    return Err(f);
                },
            };
            self.nametable = v;
        } else if phase == 3 {
            let a: u16 = self.vram_addr;
            let addr: u16 = 0x23C0 | (a & 0x0C00) | ((a >> 4) & 0x38) | ((a >> 2) & 0x07);
            let shift: u16 = ((a >> 4) & 4) | (a & 2);
            proof {
                assert((((a >> 4) & 4) | (a & 2)) < 8) by (bit_vector);
            }
            let v = match self.read(mapper, addr) {
                Ok(v) => v,
                Err(f) => {
                    return Err(f);
                },
            };
            self.attribute_table = ((v >> shift) & 3) << 2;
        } else if phase == 5 {
            let fine_y: u16 = (self.vram_addr >> 12) % 8;
            let table: u16 = if flag_on_exec(self.ppu_ctrl, CTRL_BG_TABLE) {
                0x1000
            } else {
                0
            };
            let addr: u16 = table + 16 * (self.nametable as u16) + fine_y;
            let v = match self.read(mapper, addr) {
                Ok(v) => v,
                Err(f) => {
                    return Err(f);
                },
            };
            self.low_tile = v;
        } else if phase == 7 {
            let fine_y: u16 = (self.vram_addr >> 12) % 8;
            let table: u16 = if flag_on_exec(self.ppu_ctrl, CTRL_BG_TABLE) {
                0x1000
            } else {
                0
            };
            let addr: u16 = table + 16 * (self.nametable as u16) + fine_y + 8;
            let v = match self.read(mapper, addr) {
                Ok(v) => v,
                Err(f) => {
                    return Err(f);
                },
            };
            self.high_tile = v;
        } else if phase == 0 {
            let mut data: u64 = 0;
            let mut low_bits: u8 = self.low_tile;
            let mut high_bits: u8 = self.high_tile;
            let attr: u8 = self.attribute_table;
            let mut n: usize = 0;
            while n < 8
                invariant
                    n <= 8,
                    bg_nibbles(data, low_bits, high_bits, attr, (8 - n) as nat) == bg_nibbles(
                        0,
                        old(self)@.low_tile,
                        old(self)@.high_tile,
                        attr,
                        8,
                    ),
                decreases 8 - n,
            {
                let a: u8 = (low_bits & 0x80) >> 7;
                let b: u8 = (high_bits & 0x80) >> 6;
                data = (data << 4) | ((attr | a | b) as u64);
                low_bits = low_bits << 1;
                high_bits = high_bits << 1;
                n = n + 1;
            }
            self.tile_data = self.tile_data | data;
            self.low_tile = 0;
            self.high_tile = 0;
        }
        Ok(())
    }

    /// One dot of PPU work; the boolean reports an NMI request raised
    /// at the start of vertical blank.
    pub fn step(&mut self, mapper: &Mapper) -> (r: Result<bool, Fault>)
        requires
            ppu_wf(old(self)@),
            mapper_wf(mapper@),
        ensures
            ppu_wf(final(self)@),
            match spec_ppu_step(old(self)@, mapper@) {
                Ok((p2, nmi)) => r matches Ok(b) && b == nmi && final(self)@ == p2,
                Err(f) => r matches Err(g) && g == f,
            },
    {
        self.tick();
        let pre_render = self.scanline == 261;
        let visible = self.scanline < 240;
        let pre_fetch_cycle = 321 <= self.cycle && self.cycle <= 336;
        let visible_cycle = 1 <= self.cycle && self.cycle <= 256;
        if flag_on_exec(self.ppu_mask, MASK_BG) {
            if visible && visible_cycle {
                match self.render_pixel(mapper) {
                    Ok(()) => (),
                    Err(f) => {
                        return Err(f);
                    },
                }
            }
            if (pre_render || visible) && (pre_fetch_cycle || visible_cycle) {
                match self.fetch_background(mapper) {
                    Ok(()) => (),
                    Err(f) => {
                        return Err(f);
                    },
                }
            }
            if pre_render && 280 <= self.cycle && self.cycle <= 304 {
                self.vram_addr = (self.vram_addr & 0x841F) | (self.temp_vram_addr & 0x7BE0);
            }
            if pre_render || visible {
                if pre_fetch_cycle && self.cycle % 8 == 0 {
                    if self.vram_addr & 0x001F == 31 {
                        self.vram_addr = (self.vram_addr & 0xFFE0) ^ 0x0400;
                    } else {
                        self.vram_addr = ((self.vram_addr as u32 + 1) % 0x10000) as u16;
                    }
                }
                if self.cycle == 256 {
                    if self.vram_addr & 0x7000 != 0x7000 {
                        self.vram_addr = ((self.vram_addr as u32 + 0x1000) % 0x10000) as u16;
                    } else {
                        let v2: u16 = self.vram_addr & 0x8FFF;
                        let y: u16 = (v2 & 0x03E0) >> 5;
                        proof {
                            assert(forall|w: u16| #![auto] (w & 0x03E0) >> 5 < 32) by (bit_vector);
                        }
                        let v3: u16 = if y == 29 {
                            v2 ^ 0x0800
                        } else {
                            v2
                        };
                        let y2: u16 = if y == 29 || y == 31 {
                            0
                        } else {
                            y + 1
                        };
                        self.vram_addr = (v3 & 0xFC1F) | (y2 << 5);
                    }
                }
                if self.cycle == 257 {
                    self.vram_addr = (self.vram_addr & 0xFBE0) | (self.temp_vram_addr & 0x041F);
                }
            }
        }
        if flag_on_exec(self.ppu_mask, MASK_SPRITES) {
            if self.cycle == 257 && visible {
                self.evaluate_sprites();
            }
        }
        let mut nmi = false;
        if self.scanline == 241 && self.cycle == 1 {
            self.ppu_status = self.ppu_status | STATUS_VBLANK;
            nmi = flag_on_exec(self.ppu_ctrl, CTRL_NMI);
        }
        if self.scanline == 261 && self.cycle == 1 {
            self.ppu_status = self.ppu_status & !(STATUS_SPRITE_ZERO_HIT | STATUS_SPRITE_OVERFLOW
                | STATUS_VBLANK);
        }
        Ok(nmi)
    }
}

/// Whether `mask`'s bits are all set in `v`; the executable twin of
/// `flag_on`.
pub fn flag_on_exec(v: u8, mask: u8) -> (r: bool)
    ensures
        r == flag_on(v, mask),
{
    v & mask == mask
}

} // verus!

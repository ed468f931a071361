//! Cartridge mappers.
//!
//! The cartridge decodes the addresses above the console's own devices:
//! CHR space at `0x0000..=0x1FFF`, battery RAM at `0x6000..=0x7FFF`, a
//! switchable 16 KiB PRG window at `0x8000..=0xBFFF` and the fixed last
//! PRG bank from `0xC000` up.  Mapper 0 is the one supported kind; the
//! set is kept as a closed tagged variant so that every access is a
//! total, specified function of the cartridge contents.

use vstd::prelude::*;

use crate::fault::Fault;
use crate::rom::{rom_wf, Rom, RomView};

verus! {

/// The mathematical content of a mapper: the cartridge image and the
/// selected PRG bank.
pub ghost struct MapperView {
    pub rom: RomView,
    pub bank: usize,
}

/// A well-formed mapper: a well-formed image and a bank index small
/// enough that bank arithmetic stays inside machine bounds.
pub open spec fn mapper_wf(m: MapperView) -> bool {
    &&& rom_wf(m.rom)
    &&& m.bank < 256
}

/// What a mapper-0 read returns: the CHR byte, SRAM byte or PRG byte
/// the address selects, or the fault naming the offending address.
pub open spec fn spec_mapper_read(m: MapperView, addr: u16) -> Result<u8, Fault> {
    if addr < 0x2000 {
        if (addr as int) < m.rom.chr.len() {
            Ok(m.rom.chr[addr as int])
        } else {
            Err(Fault::RomBounds(addr))
        }
    } else if addr < 0x6000 {
        Err(Fault::UnmappedRead(addr))
    } else if addr < 0x8000 {
        Ok(m.rom.sram[addr - 0x6000])
    } else if addr < 0xC000 {
        if m.bank as int * 0x4000 + (addr - 0x8000) < m.rom.prg.len() {
            Ok(m.rom.prg[m.bank as int * 0x4000 + (addr - 0x8000)])
        } else {
            Err(Fault::RomBounds(addr))
        }
    } else {
        if m.rom.prg_rom_size == 0 {
            Err(Fault::RomBounds(addr))
        } else {
            Ok(m.rom.prg[(m.rom.prg_rom_size - 1) * 0x4000 + (addr - 0xC000)])
        }
    }
}

/// What a mapper-0 write leaves behind: a CHR or SRAM byte updated, a
/// bank selected from the value modulo the header's RAM page count, or
/// the write ignored where the cartridge decodes nothing.
pub open spec fn spec_mapper_write(m: MapperView, addr: u16, val: u8) -> Result<
    MapperView,
    Fault,
> {
    if addr < 0x2000 {
        if (addr as int) < m.rom.chr.len() {
            Ok(MapperView { rom: RomView { chr: m.rom.chr.update(addr as int, val), ..m.rom }, ..m })
        } else {
            Err(Fault::RomBounds(addr))
        }
    } else if addr < 0x6000 {
        Ok(m)
    } else if addr < 0x8000 {
        Ok(
            MapperView {
                rom: RomView { sram: m.rom.sram.update(addr - 0x6000, val), ..m.rom },
                ..m
            },
        )
    } else {
        if m.rom.prg_ram_size == 0 {
            Err(Fault::BankSelect(val))
        } else {
            Ok(MapperView { bank: (val % m.rom.prg_ram_size) as usize, ..m })
        }
    }
}

/// Mapper 0 (NROM): direct CHR, SRAM, a switchable low PRG bank and a
/// fixed last PRG bank.
pub struct MapperZero {
    pub rom: Rom,
    bank: usize,
}

impl View for MapperZero {
    type V = MapperView;

    closed spec fn view(&self) -> MapperView {
        MapperView { rom: self.rom@, bank: self.bank }
    }
}

impl MapperZero {
    pub fn new(rom: Rom) -> (r: MapperZero)
        ensures
            r@ == (MapperView { rom: rom@, bank: 0 }),
    {
        MapperZero { rom, bank: 0 }
    }
}

/// The closed set of supported mappers.
pub enum Mapper {
    Zero(MapperZero),
}

impl View for Mapper {
    type V = MapperView;

    open spec fn view(&self) -> MapperView {
        match self {
            Mapper::Zero(z) => z@,
        }
    }
}

impl Mapper {
    pub fn read(&self, addr: u16) -> (r: Result<u8, Fault>)
        requires
            mapper_wf(self@),
        ensures
            r == spec_mapper_read(self@, addr),
    {
        let Mapper::Zero(z) = self;
        if addr < 0x2000 {
            if (addr as usize) < z.rom.chr.len() {
                Ok(z.rom.chr[addr as usize])
            } else {
                Err(Fault::RomBounds(addr))
            }
        } else if addr < 0x6000 {
            Err(Fault::UnmappedRead(addr))
        } else if addr < 0x8000 {
            Ok(z.rom.sram[(addr - 0x6000) as usize])
        } else if addr < 0xC000 {
            let i: usize = z.bank * 0x4000 + (addr - 0x8000) as usize;
            if i < z.rom.prg.len() {
                Ok(z.rom.prg[i])
            } else {
                Err(Fault::RomBounds(addr))
            }
        } else {
            if z.rom.header.prg_rom_size == 0 {
                Err(Fault::RomBounds(addr))
            } else {
                let i: usize = (z.rom.header.prg_rom_size - 1) as usize * 0x4000 + (addr
                    - 0xC000) as usize;
                Ok(z.rom.prg[i])
            }
        }
    }

    pub fn write(&mut self, addr: u16, val: u8) -> (r: Result<(), Fault>)
        requires
            mapper_wf(old(self)@),
        ensures
            mapper_wf(final(self)@),
            match spec_mapper_write(old(self)@, addr, val) {
                Ok(m) => r is Ok && final(self)@ == m,
                Err(f) => r matches Err(g) && g == f && final(self)@ == old(self)@,
            },
    {
        let Mapper::Zero(z) = self;
        if addr < 0x2000 {
            if (addr as usize) < z.rom.chr.len() {
                z.rom.chr[addr as usize] = val;
                Ok(())
            } else {
                Err(Fault::RomBounds(addr))
            }
        } else if addr < 0x6000 {
            Ok(())
        } else if addr < 0x8000 {
            z.rom.sram[(addr - 0x6000) as usize] = val;
            Ok(())
        } else {
            if z.rom.header.prg_ram_size == 0 {
                Err(Fault::BankSelect(val))
            } else {
                z.bank = (val % z.rom.header.prg_ram_size) as usize;
                Ok(())
            }
        }
    }

    /// Mappers with clocked hardware advance here; mapper 0 has none.
    pub fn step(&mut self)
        ensures
            final(self)@ == old(self)@,
    {
    }
}

/// Build the mapper a cartridge asks for; only mapper 0 is supported,
/// and any other id is a fatal startup error naming that id.
pub fn init(rom: Rom) -> (r: Result<Mapper, Fault>)
    ensures
        (rom@.control_byte_2 & 0xf0) | (rom@.control_byte_1 >> 4) == 0 ==> (r matches Ok(m) && m@
            == (MapperView { rom: rom@, bank: 0 })),
        (rom@.control_byte_2 & 0xf0) | (rom@.control_byte_1 >> 4) != 0 ==> r == Err::<
            Mapper,
            Fault,
        >(Fault::UnsupportedMapper((rom@.control_byte_2 & 0xf0) | (rom@.control_byte_1 >> 4))),
{
    let id = rom.header.mapper();
    if id == 0 {
        Ok(Mapper::Zero(MapperZero::new(rom)))
    } else {
        Err(Fault::UnsupportedMapper(id))
    }
}

} // verus!

//! The CPU's memory map.
//!
//! A 16-bit address reaches internal RAM (mirrored every `0x800` up to
//! `0x2000`), the PPU registers (mirrored every 8 bytes up to
//! `0x4000`), the controller's serial port at `0x4016`, or the
//! cartridge mapper from `0x6000` up.  Anything else is unmapped, and
//! touching it is a fatal fault.  Writes are visible to the next read
//! of the same address; the bus itself keeps no other state.

use vstd::prelude::*;

use crate::controller::{
    spec_controller_read, spec_controller_write, Controller, ControllerView,
};
use crate::fault::Fault;
use crate::mapper::{mapper_wf, spec_mapper_read, spec_mapper_write, Mapper, MapperView};
use crate::ppu::{ppu_wf, spec_ppu_step, spec_reg_read, spec_reg_write, Ppu, PpuView};
use crate::rom::zero_bytes;

verus! {

/// The mathematical content of the bus and every device behind it.
pub ghost struct BusView {
    pub ram: Seq<u8>,
    pub mapper: MapperView,
    pub controller: ControllerView,
    pub ppu: PpuView,
}

/// A well-formed bus: 2 KiB of internal RAM and well-formed devices.
pub open spec fn bus_wf(b: BusView) -> bool {
    &&& b.ram.len() == 0x800
    &&& mapper_wf(b.mapper)
    &&& ppu_wf(b.ppu)
}

/// What a bus read returns and leaves behind.  Only the controller's
/// shift register changes under a read; RAM, PPU-register and cartridge
/// reads leave the machine as it was.
pub open spec fn spec_bus_read(b: BusView, addr: u16) -> Result<(BusView, u8), Fault> {
    if addr < 0x2000 {
        Ok((b, b.ram[addr as int % 0x800]))
    } else if addr < 0x4000 {
        match spec_reg_read(b.ppu, (0x2000 + (addr % 8)) as u16) {
            Ok(v) => Ok((b, v)),
            Err(f) => Err(f),
        }
    } else if addr >= 0x6000 {
        match spec_mapper_read(b.mapper, addr) {
            Ok(v) => Ok((b, v)),
            Err(f) => Err(f),
        }
    } else if addr == 0x4016 {
        let (c2, v) = spec_controller_read(b.controller);
        Ok((BusView { controller: c2, ..b }, v))
    } else {
        Err(Fault::UnmappedRead(addr))
    }
}

/// What a bus write leaves behind, over the same map as the reads.
pub open spec fn spec_bus_write(b: BusView, addr: u16, val: u8) -> Result<BusView, Fault> {
    if addr < 0x2000 {
        Ok(BusView { ram: b.ram.update(addr as int % 0x800, val), ..b })
    } else if addr < 0x4000 {
        match spec_reg_write(b.ppu, (0x2000 + (addr % 8)) as u16, val) {
            Ok(p2) => Ok(BusView { ppu: p2, ..b }),
            Err(f) => Err(f),
        }
    } else if addr >= 0x6000 {
        match spec_mapper_write(b.mapper, addr, val) {
            Ok(m2) => Ok(BusView { mapper: m2, ..b }),
            Err(f) => Err(f),
        }
    } else if addr == 0x4016 {
        Ok(BusView { controller: spec_controller_write(b.controller, val), ..b })
    } else {
        Err(Fault::UnmappedWrite(addr))
    }
}

/// Connects all the console's components.
pub struct Bus {
    ram: Vec<u8>,
    pub(crate) mapper: Mapper,
    pub controller: Controller,
    pub(crate) ppu: Ppu,
}

impl View for Bus {
    type V = BusView;

    closed spec fn view(&self) -> BusView {
        BusView {
            ram: self.ram@,
            mapper: self.mapper@,
            controller: self.controller@,
            ppu: self.ppu@,
        }
    }
}

impl Bus {
    pub fn new(mapper: Mapper, controller: Controller, ppu: Ppu) -> (r: Bus)
        ensures
            r@ == (BusView {
                ram: Seq::new(0x800, |i: int| 0u8),
                mapper: mapper@,
                controller: controller@,
                ppu: ppu@,
            }),
    {
        Bus { ram: zero_bytes(0x800), mapper, controller, ppu }
    }

    /// Read one byte through the memory map.
    pub fn read(&mut self, addr: u16) -> (r: Result<u8, Fault>)
        requires
            bus_wf(old(self)@),
        ensures
            bus_wf(final(self)@),
            match spec_bus_read(old(self)@, addr) {
                Ok((b2, v)) => r matches Ok(w) && w == v && final(self)@ == b2,
                Err(f) => r matches Err(g) && g == f && final(self)@ == old(self)@,
            },
    {
        if addr < 0x2000 {
            Ok(self.ram[(addr % 0x800) as usize])
        } else if addr < 0x4000 {
            self.ppu.read_register(0x2000 + (addr % 8))
        } else if addr >= 0x6000 {
            self.mapper.read(addr)
        } else if addr == 0x4016 {
            Ok(self.controller.read())
        } else {
            Err(Fault::UnmappedRead(addr))
        }
    }

    /// Write one byte through the memory map.
    pub fn write(&mut self, addr: u16, val: u8) -> (r: Result<(), Fault>)
        requires
            bus_wf(old(self)@),
        ensures
            bus_wf(final(self)@),
            match spec_bus_write(old(self)@, addr, val) {
                Ok(b2) => r is Ok && final(self)@ == b2,
                Err(f) => r matches Err(g) && g == f && final(self)@ == old(self)@,
            },
    {
        if addr < 0x2000 {
            self.ram[(addr % 0x800) as usize] = val;
            Ok(())
        } else if addr < 0x4000 {
            self.ppu.write_register(0x2000 + (addr % 8), val)
        } else if addr >= 0x6000 {
            self.mapper.write(addr, val)
        } else if addr == 0x4016 {
            self.controller.write(val);
            Ok(())
        } else {
            Err(Fault::UnmappedWrite(addr))
        }
    }

    /// Replace the controller's button byte.
    pub fn set_buttons(&mut self, bits: u8)
        ensures
            final(self)@ == (BusView {
                controller: ControllerView { buttons: bits, ..old(self)@.controller },
                ..old(self)@
            }),
    {
        self.controller.set_buttons(bits);
    }

    /// Advance the PPU by one dot; the boolean reports an NMI request.
    pub fn ppu_step(&mut self) -> (r: Result<bool, Fault>)
        requires
            bus_wf(old(self)@),
        ensures
            bus_wf(final(self)@),
            match spec_ppu_step(old(self)@.ppu, old(self)@.mapper) {
                Ok((p2, nmi)) => r matches Ok(b) && b == nmi && final(self)@ == (BusView {
                    ppu: p2,
                    ..old(self)@
                }),
                Err(f) => r matches Err(g) && g == f,
            },
    {
        self.ppu.step(&self.mapper)
    }
}

} // verus!

//! iNES cartridge images.
//!
//! An image is a 16-byte header (magic `NES\x1a`, PRG-ROM size in
//! 16 KiB units, CHR-ROM size in 8 KiB units, two control bytes and a
//! PRG-RAM size) followed by the PRG-ROM bytes and then the CHR-ROM
//! bytes.  Loading works on the raw bytes of the image; reading those
//! bytes from a file is the embedding program's concern.

use vstd::prelude::*;

verus! {

/// Why a ROM image was rejected.
#[derive(Clone, Copy, Debug, PartialEq, Eq, Structural)]
pub enum RomLoadError {
    /// The image ended before the header or a ROM section was complete.
    IoError,
    /// The image does not begin with the iNES magic bytes.
    FormatError,
}

/// The 16-byte iNES header.
pub struct INesHeader {
    /// Should contain `N` `E` `S` `\x1a` to identify the file as iNES.
    pub magic: [u8; 4],
    /// Number of 16 KiB PRG-ROM banks (program code).
    pub prg_rom_size: u8,
    /// Number of 8 KiB CHR-ROM banks (pattern tables).
    pub chr_rom_size: u8,
    /// Low nibble of the mapper id, mirroring, trainer and persistence bits.
    pub control_byte_1: u8,
    /// High nibble of the mapper id and format/system bits.
    pub control_byte_2: u8,
    /// Number of 8 KiB PRG-RAM banks; 0 is read as 1 for compatibility.
    pub prg_ram_size: u8,
    /// Reserved; always zero.
    pub zero: [u8; 7],
}

impl INesHeader {
    /// The mapper id: high nibble from control byte 2, low from byte 1.
    pub fn mapper(&self) -> (r: u8)
        ensures
            r == (self.control_byte_2 & 0xf0) | (self.control_byte_1 >> 4),
    {
        (self.control_byte_2 & 0xf0) | (self.control_byte_1 >> 4)
    }

    /// The low nibble of the mapper id.
    pub fn ines_mapper(&self) -> (r: u8)
        ensures
            r == self.control_byte_1 >> 4,
    {
        self.control_byte_1 >> 4
    }

    /// Whether the image carries a 512-byte trainer.
    pub fn trainer(&self) -> (r: bool)
        ensures
            r == (self.control_byte_1 & 0x04 != 0),
    {
        (self.control_byte_1 & 0x04) != 0
    }
}

/// A loaded cartridge: header, ROM sections and battery-backed RAM.
pub struct Rom {
    pub header: INesHeader,
    /// PRG-ROM
    pub prg: Vec<u8>,
    /// CHR-ROM
    pub chr: Vec<u8>,
    /// SRAM
    pub sram: Vec<u8>,
}

/// The mathematical content of a `Rom`.
pub ghost struct RomView {
    pub magic: Seq<u8>,
    pub prg_rom_size: u8,
    pub chr_rom_size: u8,
    pub control_byte_1: u8,
    pub control_byte_2: u8,
    pub prg_ram_size: u8,
    pub prg: Seq<u8>,
    pub chr: Seq<u8>,
    pub sram: Seq<u8>,
}

impl View for Rom {
    type V = RomView;

    open spec fn view(&self) -> RomView {
        RomView {
            magic: self.header.magic@,
            prg_rom_size: self.header.prg_rom_size,
            chr_rom_size: self.header.chr_rom_size,
            control_byte_1: self.header.control_byte_1,
            control_byte_2: self.header.control_byte_2,
            prg_ram_size: self.header.prg_ram_size,
            prg: self.prg@,
            chr: self.chr@,
            sram: self.sram@,
        }
    }
}

/// The section lengths a loaded image always has: the header's counts
/// fix the PRG and CHR lengths, and SRAM is one 8 KiB pair of pages.
pub open spec fn rom_wf(r: RomView) -> bool {
    &&& r.prg.len() == r.prg_rom_size as int * 16384
    &&& r.chr.len() == r.chr_rom_size as int * 8192
    &&& r.sram.len() == 0x2000
}

/// What `Rom::load` returns for any byte string.
pub open spec fn spec_load(data: Seq<u8>) -> Result<RomView, RomLoadError> {
    if data.len() < 16 {
        Err(RomLoadError::IoError)
    } else if !(data[0] == 0x4e && data[1] == 0x45 && data[2] == 0x53 && data[3] == 0x1a) {
        Err(RomLoadError::FormatError)
    } else {
        let prg_len = data[4] as int * 16384;
        let chr_len = data[5] as int * 8192;
        if data.len() < 16 + prg_len {
            Err(RomLoadError::IoError)
        } else if data.len() < 16 + prg_len + chr_len {
            Err(RomLoadError::IoError)
        } else {
            Ok(
                RomView {
                    magic: seq![data[0], data[1], data[2], data[3]],
                    prg_rom_size: data[4],
                    chr_rom_size: data[5],
                    control_byte_1: data[6],
                    control_byte_2: data[7],
                    prg_ram_size: data[8],
                    prg: data.subrange(16, 16 + prg_len),
                    chr: data.subrange(16 + prg_len, 16 + prg_len + chr_len),
                    sram: Seq::new(0x2000, |i: int| 0u8),
                },
            )
        }
    }
}

/// A vector of `n` zero bytes.
pub fn zero_bytes(n: usize) -> (r: Vec<u8>)
    ensures
        r@ == Seq::new(n as nat, |i: int| 0u8),
{
    let mut r: Vec<u8> = Vec::new();
    let mut i: usize = 0;
    while i < n
        invariant
            i <= n,
            r@ == Seq::new(i as nat, |j: int| 0u8),
        decreases n - i,
    {
        r.push(0);
        i = i + 1;
        proof {
            assert(r@ =~= Seq::new(i as nat, |j: int| 0u8));
        }
    }
    r
}

/// The bytes `data[start..start + len]` as a fresh vector.
fn copy_section(data: &Vec<u8>, start: usize, len: usize) -> (r: Vec<u8>)
    requires
        start + len <= data.len(),
    ensures
        r@ == data@.subrange(start as int, start as int + len as int),
{
    let mut r: Vec<u8> = Vec::new();
    let mut i: usize = 0;
    while i < len
        invariant
            i <= len,
            start + len <= data.len(),
            r@ == data@.subrange(start as int, start as int + i as int),
        decreases len - i,
    {
        r.push(data[start + i]);
        i = i + 1;
        proof {
            assert(r@ =~= data@.subrange(start as int, start as int + i as int));
        }
    }
    r
}

impl Rom {
    /// Parse an iNES image from its raw bytes.
    ///
    /// Fails with `FormatError` when the magic bytes mismatch and with
    /// `IoError` when the image is shorter than its header announces.
    pub fn load(data: &Vec<u8>) -> (r: Result<Rom, RomLoadError>)
        ensures
            match spec_load(data@) {
                Ok(v) => r matches Ok(rom) && rom@ == v && rom_wf(rom@),
                Err(e) => r matches Err(g) && g == e,
            },
    {
        if data.len() < 16 {
            return Err(RomLoadError::IoError);
        }
        let magic: [u8; 4] = [data[0], data[1], data[2], data[3]];
        if !(data[0] == 0x4e && data[1] == 0x45 && data[2] == 0x53 && data[3] == 0x1a) {
            return Err(RomLoadError::FormatError);
        }
        let prg_len: usize = data[4] as usize * 16384;
        let chr_len: usize = data[5] as usize * 8192;
        if data.len() - 16 < prg_len {
            return Err(RomLoadError::IoError);
        }
        if data.len() - 16 - prg_len < chr_len {
            return Err(RomLoadError::IoError);
        }
        let header = INesHeader {
            magic,
            prg_rom_size: data[4],
            chr_rom_size: data[5],
            control_byte_1: data[6],
            control_byte_2: data[7],
            prg_ram_size: data[8],
            zero: [0, 0, 0, 0, 0, 0, 0],
        };
        let rom = Rom {
            header,
            prg: copy_section(data, 16, prg_len),
            chr: copy_section(data, 16 + prg_len, chr_len),
            sram: zero_bytes(0x2000),
        };
        proof {
            assert(rom@.magic =~= seq![data@[0], data@[1], data@[2], data@[3]]);
        }
        Ok(rom)
    }
}

} // verus!

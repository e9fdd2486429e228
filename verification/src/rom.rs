//! The iNES cartridge container: header validation, PRG/CHR slicing,
//! mirroring, and mapper selection.

use vstd::prelude::*;

use crate::mapper::CNROM;
use crate::mapper::Mapper;
use crate::mapper::MapperView;
use crate::mapper::NROM;

verus! {

/// How the two physical nametables alias across the four logical
/// nametable slots.
#[derive(Clone, Copy, Debug, PartialEq, Eq, Structural)]
pub enum Mirroring {
    Vertical,
    Horizontal,
    FourScreen,
}

/// Why a byte image was rejected as a cartridge.
#[derive(Clone, Copy, Debug, PartialEq, Eq, Structural)]
pub enum CartridgeError {
    /// The image does not begin with the iNES signature, or declares
    /// iNES 2.0.
    UnsupportedFormat,
    /// A recognised header, but the mapper index is not implemented.
    UnsupportedMapper(u8),
    /// The declared PRG/CHR sizes exceed the supplied bytes.
    TruncatedRom,
}

/// The header begins with `N E S 0x1A` and is long enough to read.
pub open spec fn ines_magic_ok(raw: Seq<u8>) -> bool {
    &&& raw.len() >= 16
    &&& raw[0] == 0x4E
    &&& raw[1] == 0x45
    &&& raw[2] == 0x53
    &&& raw[3] == 0x1A
}

/// The iNES version bits of byte 7; only version 0 is accepted.
pub open spec fn ines_version(raw: Seq<u8>) -> u8 {
    (raw[7] >> 2) & 0x03
}

/// Declared PRG-ROM size in bytes: byte 4 counts 16 KiB units.
pub open spec fn ines_prg_size(raw: Seq<u8>) -> int {
    raw[4] as int * 16384
}

/// Declared CHR-ROM size in bytes: byte 5 counts 8 KiB units.
pub open spec fn ines_chr_size(raw: Seq<u8>) -> int {
    raw[5] as int * 8192
}

/// Mirroring from byte 6: bit 3 selects four-screen, else bit 0 selects
/// vertical over horizontal.
pub open spec fn ines_mirroring(raw: Seq<u8>) -> Mirroring {
    if raw[6] & 0x08 != 0 {
        Mirroring::FourScreen
    } else if raw[6] & 0x01 != 0 {
        Mirroring::Vertical
    } else {
        Mirroring::Horizontal
    }
}

/// Mapper index: high nibble of byte 7 over high nibble of byte 6.
pub open spec fn ines_mapper_idx(raw: Seq<u8>) -> u8 {
    (raw[7] & 0xF0) | (raw[6] >> 4)
}

/// Where PRG-ROM starts: after the 16-byte header and, when byte 6
/// bit 2 announces one, a 512-byte trainer.
pub open spec fn ines_prg_start(raw: Seq<u8>) -> int {
    if raw[6] & 0x04 != 0 {
        16 + 512int
    } else {
        16int
    }
}

/// A header this core accepts: valid signature, iNES version 0, all
/// declared banks present, and an implemented mapper.
pub open spec fn ines_parse_ok(raw: Seq<u8>) -> bool {
    &&& ines_magic_ok(raw)
    &&& ines_version(raw) == 0
    &&& ines_prg_start(raw) + ines_prg_size(raw) + ines_chr_size(raw) <= raw.len()
    &&& (ines_mapper_idx(raw) == 0 || ines_mapper_idx(raw) == 3)
}

/// The PRG-ROM bytes of an accepted image.
pub open spec fn ines_prg(raw: Seq<u8>) -> Seq<u8> {
    raw.subrange(ines_prg_start(raw), ines_prg_start(raw) + ines_prg_size(raw))
}

/// The CHR bytes of an accepted image: the declared CHR-ROM slice, or a
/// zeroed 8 KiB CHR-RAM when the header declares none.
pub open spec fn ines_chr(raw: Seq<u8>) -> Seq<u8> {
    if ines_chr_size(raw) == 0 {
        Seq::new(8192, |i: int| 0u8)
    } else {
        raw.subrange(
            ines_prg_start(raw) + ines_prg_size(raw),
            ines_prg_start(raw) + ines_prg_size(raw) + ines_chr_size(raw),
        )
    }
}

/// The error an unacceptable image is rejected with: bad signature or
/// version first, then missing bytes, then an unimplemented mapper.
pub open spec fn ines_error(raw: Seq<u8>) -> CartridgeError {
    if !(ines_magic_ok(raw) && ines_version(raw) == 0) {
        CartridgeError::UnsupportedFormat
    } else if ines_prg_start(raw) + ines_prg_size(raw) + ines_chr_size(raw) > raw.len() {
        CartridgeError::TruncatedRom
    } else {
        CartridgeError::UnsupportedMapper(ines_mapper_idx(raw))
    }
}

/// A parsed cartridge: its PRG and CHR images, the mapper board that
/// decodes them, and the nametable mirroring it selects.
pub struct ROM {
    pub prg_rom: Vec<u8>,
    pub chr_rom: Vec<u8>,
    pub mapper: Mapper,
    pub mirroring: Mirroring,
}

impl ROM {
    /// The mapper's bank registers are in range.
    pub open spec fn wf(self) -> bool {
        self.mapper.wf()
    }

    /// A freshly parsed image: the mapper holds its own copy of the PRG
    /// and CHR bytes, with bank registers reset.
    pub open spec fn parsed_from(self, raw: Seq<u8>) -> bool {
        &&& self.prg_rom@ == ines_prg(raw)
        &&& self.chr_rom@ == ines_chr(raw)
        &&& self.mirroring == ines_mirroring(raw)
        &&& self.mapper@ == if ines_mapper_idx(raw) == 0 {
            MapperView::Nrom { prg: ines_prg(raw), chr: ines_chr(raw) }
        } else {
            MapperView::Cnrom { prg: ines_prg(raw), chr: ines_chr(raw), bank: 0 }
        }
    }

    /// Parse an iNES image: validate the signature and version, slice
    /// PRG then CHR past any trainer, and instantiate the mapper.
    /// Returns a cartridge exactly for acceptable images, and the
    /// documented error otherwise.
    pub fn from_bytes(raw: &[u8]) -> (r: Result<ROM, CartridgeError>)
        ensures
            ines_parse_ok(raw@) <==> r is Ok,
            r matches Ok(rom) ==> rom.parsed_from(raw@) && rom.wf(),
            r matches Err(e) ==> e == ines_error(raw@),
    {
        if raw.len() < 16 {
            return Err(CartridgeError::UnsupportedFormat);
        }
        if !(raw[0] == 0x4E && raw[1] == 0x45 && raw[2] == 0x53 && raw[3] == 0x1A) {
            return Err(CartridgeError::UnsupportedFormat);
        }
        if (raw[7] >> 2) & 0x03 != 0 {
            return Err(CartridgeError::UnsupportedFormat);
        }
        let prg_size: usize = (raw[4] as usize) * 16384;
        let chr_size: usize = (raw[5] as usize) * 8192;
        let prg_start: usize = if raw[6] & 0x04 != 0 {
            16 + 512
        } else {
            16
        };
        if raw.len() < prg_start + prg_size + chr_size {
            return Err(CartridgeError::TruncatedRom);
        }
        let mapper_idx: u8 = (raw[7] & 0xF0) | (raw[6] >> 4);
        if !(mapper_idx == 0 || mapper_idx == 3) {
            return Err(CartridgeError::UnsupportedMapper(mapper_idx));
        }
        let mirroring = if raw[6] & 0x08 != 0 {
            Mirroring::FourScreen
        } else if raw[6] & 0x01 != 0 {
            Mirroring::Vertical
        } else {
            Mirroring::Horizontal
        };
        let prg_rom = copy_range(raw, prg_start, prg_size);
        let chr_rom = if chr_size == 0 {
            zeroed(8192)
        } else {
            copy_range(raw, prg_start + prg_size, chr_size)
        };
        let mapper = if mapper_idx == 0 {
            Mapper::Nrom(NROM::new(prg_rom.clone(), chr_rom.clone()))
        } else {
            Mapper::Cnrom(CNROM::new(prg_rom.clone(), chr_rom.clone()))
        };
        Ok(ROM { prg_rom, chr_rom, mapper, mirroring })
    }
}

/// A copy of `len` bytes of `raw` starting at `start`.
fn copy_range(raw: &[u8], start: usize, len: usize) -> (v: Vec<u8>)
    requires
        start + len <= raw@.len(),
    ensures
        v@ == raw@.subrange(start as int, start as int + len as int),
{
    let n: usize = raw.len();
    let mut v: Vec<u8> = Vec::new();
    let mut i: usize = 0;
    while i < len
        invariant
            i <= len,
            start + len <= n == raw@.len(),
            v@ == raw@.subrange(start as int, start as int + i as int),
        decreases len - i,
    {
        v.push(raw[start + i]);
        proof {
            assert(v@ =~= raw@.subrange(start as int, start as int + i as int + 1));
        }
        i = i + 1;
    }
    v
}

/// A vector of `len` zero bytes.
fn zeroed(len: usize) -> (v: Vec<u8>)
    ensures
        v@ == Seq::new(len as nat, |i: int| 0u8),
{
    let v: Vec<u8> = vec![0; len];
    proof {
        assert(v@ =~= Seq::new(len as nat, |i: int| 0u8));
    }
    v
}

} // verus!

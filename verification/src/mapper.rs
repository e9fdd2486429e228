//! Cartridge mappers: the address translation each board applies between
//! the console's buses and the PRG/CHR memory it carries.
//!
//! NROM is a flat board; CNROM adds one write-only register that selects
//! an 8 KiB CHR bank. Reads of unmapped addresses return 0 and writes to
//! read-only regions are ignored, as on real hardware.

use vstd::prelude::*;

verus! {

/// The memory a board carries, as the contracts see it.
pub ghost enum MapperView {
    Nrom { prg: Seq<u8>, chr: Seq<u8> },
    Cnrom { prg: Seq<u8>, chr: Seq<u8>, bank: int },
}

/// What a read of `address` returns on an NROM board: CHR mirrored over
/// its own length, PRG mirrored at 16 KiB when only one bank is present,
/// 0 elsewhere.
pub open spec fn nrom_read(prg: Seq<u8>, chr: Seq<u8>, address: u16) -> u8 {
    if address <= 0x1FFF {
        if chr.len() == 0 {
            0
        } else {
            chr[address as int % chr.len() as int]
        }
    } else if address >= 0x8000 {
        let idx = if prg.len() > 0x4000 {
            (address & 0x7FFF) as int
        } else {
            (address & 0x3FFF) as int
        };
        if idx < prg.len() {
            prg[idx]
        } else {
            0
        }
    } else {
        0
    }
}

/// The (PRG, CHR) contents of an NROM board after a write: CHR space is
/// writable (CHR-RAM carts), the 0x6000 window maps into the PRG slice,
/// everything else is read-only.
pub open spec fn nrom_written(prg: Seq<u8>, chr: Seq<u8>, address: u16, value: u8) -> (
    Seq<u8>,
    Seq<u8>,
) {
    if address <= 0x1FFF {
        if chr.len() == 0 {
            (prg, chr)
        } else {
            (prg, chr.update(address as int % chr.len() as int, value))
        }
    } else if 0x6000 <= address <= 0x7FFF {
        if address - 0x6000 < prg.len() {
            (prg.update(address - 0x6000, value), chr)
        } else {
            (prg, chr)
        }
    } else {
        (prg, chr)
    }
}

/// What a read of `address` returns on a CNROM board: CHR through the
/// selected 8 KiB bank, PRG mirrored at 16 KiB when only one bank is
/// present, 0 elsewhere.
pub open spec fn cnrom_read(prg: Seq<u8>, chr: Seq<u8>, bank: int, address: u16) -> u8 {
    if address <= 0x1FFF {
        let idx = bank * 8192 + (address & 0x1FFF) as int;
        if idx < chr.len() {
            chr[idx]
        } else {
            0
        }
    } else if address >= 0x8000 {
        let idx = if prg.len() == 16384 {
            (address - 0x8000) as int % 16384
        } else {
            (address - 0x8000) as int
        };
        if idx < prg.len() {
            prg[idx]
        } else {
            0
        }
    } else {
        0
    }
}

/// The (PRG, CHR, bank) of a CNROM board after a write: CHR space is
/// writable where present, and any PRG window write latches the low two
/// bits as the new CHR bank.
pub open spec fn cnrom_written(prg: Seq<u8>, chr: Seq<u8>, bank: int, address: u16, value: u8) -> (
    Seq<u8>,
    Seq<u8>,
    int,
) {
    if address <= 0x1FFF {
        let idx = bank * 8192 + (address & 0x1FFF) as int;
        if idx < chr.len() {
            (prg, chr.update(idx, value), bank)
        } else {
            (prg, chr, bank)
        }
    } else if address >= 0x8000 {
        (prg, chr, (value & 0x03) as int)
    } else {
        (prg, chr, bank)
    }
}

/// What a read of `address` returns on a board.
pub open spec fn mapper_read(v: MapperView, address: u16) -> u8 {
    match v {
        MapperView::Nrom { prg, chr } => nrom_read(prg, chr, address),
        MapperView::Cnrom { prg, chr, bank } => cnrom_read(prg, chr, bank, address),
    }
}

/// A board after a write of `value` to `address`.
pub open spec fn mapper_written(v: MapperView, address: u16, value: u8) -> MapperView {
    match v {
        MapperView::Nrom { prg, chr } => {
            let (p, c) = nrom_written(prg, chr, address, value);
            MapperView::Nrom { prg: p, chr: c }
        },
        MapperView::Cnrom { prg, chr, bank } => {
            let (p, c, b) = cnrom_written(prg, chr, bank, address, value);
            MapperView::Cnrom { prg: p, chr: c, bank: b }
        },
    }
}

/// The flat board (iNES mapper 0).
pub struct NROM {
    pub chr_rom: Vec<u8>,
    pub prg_rom: Vec<u8>,
}

impl View for NROM {
    type V = MapperView;

    open spec fn view(&self) -> MapperView {
        MapperView::Nrom { prg: self.prg_rom@, chr: self.chr_rom@ }
    }
}

impl NROM {
    pub fn new(prg_rom: Vec<u8>, chr_rom: Vec<u8>) -> (m: NROM)
        ensures
            m@ == (MapperView::Nrom { prg: prg_rom@, chr: chr_rom@ }),
    {
        NROM { prg_rom, chr_rom }
    }

    /// Read one byte through the board's address decoding.
    pub fn read(&self, address: u16) -> (r: u8)
        ensures
            r == mapper_read(self@, address),
    {
        if address <= 0x1FFF {
            let len = self.chr_rom.len();
            if len == 0 {
                0
            } else {
                self.chr_rom[(address as usize) % len]
            }
        } else if address >= 0x8000 {
            proof {
                crate::bits::lemma_u16_mask_bound();
            }
            let idx: usize = if self.prg_rom.len() > 0x4000 {
                (address & 0x7FFF) as usize
            } else {
                (address & 0x3FFF) as usize
            };
            if idx < self.prg_rom.len() {
                self.prg_rom[idx]
            } else {
                0
            }
        } else {
            0
        }
    }

    /// Write one byte through the board's address decoding.
    pub fn write(&mut self, address: u16, value: u8)
        ensures
            final(self)@ == mapper_written(old(self)@, address, value),
    {
        if address <= 0x1FFF {
            let len = self.chr_rom.len();
            if len > 0 {
                self.chr_rom.set((address as usize) % len, value);
            }
        } else if 0x6000 <= address && address <= 0x7FFF {
            let idx: usize = (address - 0x6000) as usize;
            if idx < self.prg_rom.len() {
                self.prg_rom.set(idx, value);
            }
        }
    }
}

/// The CHR-bank board (iNES mapper 3).
pub struct CNROM {
    pub chr_rom: Vec<u8>,
    pub prg_rom: Vec<u8>,
    pub chr_bank: usize,
}

impl View for CNROM {
    type V = MapperView;

    open spec fn view(&self) -> MapperView {
        MapperView::Cnrom { prg: self.prg_rom@, chr: self.chr_rom@, bank: self.chr_bank as int }
    }
}

impl CNROM {
    /// The bank register stays within the two bits the board decodes.
    pub open spec fn wf(self) -> bool {
        self.chr_bank <= 3
    }

    pub fn new(prg_rom: Vec<u8>, chr_rom: Vec<u8>) -> (m: CNROM)
        ensures
            m@ == (MapperView::Cnrom { prg: prg_rom@, chr: chr_rom@, bank: 0 }),
            m.wf(),
    {
        CNROM { prg_rom, chr_rom, chr_bank: 0 }
    }

    /// Read one byte through the board's address decoding and the
    /// current CHR bank.
    pub fn read(&self, address: u16) -> (r: u8)
        requires
            self.wf(),
        ensures
            r == mapper_read(self@, address),
    {
        proof {
            crate::bits::lemma_u16_mask_bound();
        }
        if address <= 0x1FFF {
            let idx: usize = self.chr_bank * 8192 + (address & 0x1FFF) as usize;
            if idx < self.chr_rom.len() {
                self.chr_rom[idx]
            } else {
                0
            }
        } else if address >= 0x8000 {
            let mut bank: usize = (address - 0x8000) as usize;
            if self.prg_rom.len() == 16384 {
                bank = bank % 16384;
            }
            if bank < self.prg_rom.len() {
                self.prg_rom[bank]
            } else {
                0
            }
        } else {
            0
        }
    }

    /// Write one byte: CHR space where present, or the bank register on
    /// any PRG window write.
    pub fn write(&mut self, address: u16, value: u8)
        requires
            old(self).wf(),
        ensures
            final(self).wf(),
            final(self)@ == mapper_written(old(self)@, address, value),
    {
        proof {
            crate::bits::lemma_u16_mask_bound();
            crate::bits::lemma_u8_mask_bound();
        }
        if address <= 0x1FFF {
            let idx: usize = self.chr_bank * 8192 + (address & 0x1FFF) as usize;
            if idx < self.chr_rom.len() {
                self.chr_rom.set(idx, value);
            }
        } else if address >= 0x8000 {
            self.chr_bank = (value & 0x03) as usize;
        }
    }
}

/// A cartridge board, selected by the iNES mapper index when the ROM is
/// parsed. Every board answers the full CPU/PPU address space.
pub enum Mapper {
    Nrom(NROM),
    Cnrom(CNROM),
}

impl View for Mapper {
    type V = MapperView;

    open spec fn view(&self) -> MapperView {
        match self {
            Mapper::Nrom(m) => m@,
            Mapper::Cnrom(m) => m@,
        }
    }
}

impl Mapper {
    /// The bank registers of the board stay in range.
    pub open spec fn wf(self) -> bool {
        match self {
            Mapper::Nrom(_) => true,
            Mapper::Cnrom(c) => c.wf(),
        }
    }

    /// Read one byte through the selected board.
    pub fn read(&self, address: u16) -> (r: u8)
        requires
            self.wf(),
        ensures
            r == mapper_read(self@, address),
    {
        match self {
            Mapper::Nrom(m) => m.read(address),
            Mapper::Cnrom(m) => m.read(address),
        }
    }

    /// Write one byte through the selected board.
    pub fn write(&mut self, address: u16, value: u8)
        requires
            old(self).wf(),
        ensures
            final(self).wf(),
            final(self)@ == mapper_written(old(self)@, address, value),
    {
        match self {
            Mapper::Nrom(m) => m.write(address, value),
            Mapper::Cnrom(m) => m.write(address, value),
        }
    }
}

} // verus!

//! What the CPU core asks of the address space it runs against: byte and
//! little-endian word accesses, and an NMI line to poll.
//!
//! A bus that is nothing but memory (`RamBus`) obeys the flat model
//! exactly, and against such a bus every CPU instruction has an exact
//! functional contract. The console bus (`Bus`) has read side effects in
//! its PPU window, so it does not claim the flat model; its behaviour is
//! specified on its components instead.

use vstd::prelude::*;

use crate::frame::Frame;

verus! {

/// The little-endian word at `pos` in a flat 64 KiB memory image; the
/// high byte wraps around the address space.
pub open spec fn read16(m: Seq<u8>, pos: u16) -> u16 {
    (m[pos.wrapping_add(1) as int] as u16) << 8 | (m[pos as int] as u16)
}

/// A flat 64 KiB memory image after a little-endian word write at `pos`;
/// the high byte wraps around the address space.
pub open spec fn write16(m: Seq<u8>, pos: u16, data: u16) -> Seq<u8> {
    m.update(pos as int, (data & 0xff) as u8).update(
        pos.wrapping_add(1) as int,
        ((data >> 8) as u8) as u8,
    )
}

/// A CPU-visible address space. `mem_model` is the space as a flat
/// 64 KiB byte image; a bus whose reads and writes are exactly that
/// image (no read side effects, no aliasing) says so with `obeys_model`,
/// and the CPU's instruction contracts are exact against such a bus.
pub trait Memory: Sized {
    /// The structural well-formedness this bus maintains across calls.
    spec fn inv(&self) -> bool;

    /// Whether reads and writes on this bus are exactly the flat image
    /// below.
    spec fn obeys_model() -> bool;

    /// The address space as a flat 64 KiB byte image.
    spec fn mem_model(&self) -> Seq<u8>;

    /// The addresses whose reads are free of side effects on this bus.
    spec fn modeled_read(&self, addr: u16) -> bool;

    /// The value a side-effect-free read returns.
    spec fn read_value(&self, addr: u16) -> u8;

    /// How many display frames the devices behind this bus have
    /// finished. A plain memory has none; no CPU-driven access ever
    /// completes a frame, so every operation here preserves the count.
    spec fn frames_completed(&self) -> int;

    /// Read one byte.
    fn mem_read(&mut self, addr: u16) -> (r: u8)
        requires
            old(self).inv(),
        ensures
            final(self).inv(),
            final(self).frames_completed() == old(self).frames_completed(),
            old(self).modeled_read(addr) ==> *final(self) == *old(self) && r == old(
                self,
            ).read_value(addr),
            Self::obeys_model() ==> *final(self) == *old(self) && r == old(
                self,
            ).mem_model()[addr as int],
    ;

    /// Write one byte.
    fn mem_write(&mut self, addr: u16, data: u8)
        requires
            old(self).inv(),
        ensures
            final(self).inv(),
            final(self).frames_completed() == old(self).frames_completed(),
            Self::obeys_model() ==> final(self).mem_model() == old(self).mem_model().update(
                addr as int,
                data,
            ),
    ;

    /// Read a little-endian word: low byte at `pos`, high byte at
    /// `pos + 1` (wrapping).
    fn mem_read_u16(&mut self, pos: u16) -> (r: u16)
        requires
            old(self).inv(),
        ensures
            final(self).inv(),
            final(self).frames_completed() == old(self).frames_completed(),
            old(self).modeled_read(pos) && old(self).modeled_read(pos.wrapping_add(1)) ==> ({
                &&& *final(self) == *old(self)
                &&& r == (old(self).read_value(pos.wrapping_add(1)) as u16) << 8 | (old(
                    self,
                ).read_value(pos) as u16)
            }),
            Self::obeys_model() ==> *final(self) == *old(self) && r == read16(
                old(self).mem_model(),
                pos,
            ),
    {
        let lo: u8 = self.mem_read(pos);
        let hi: u8 = self.mem_read(pos.wrapping_add(1));
        (hi as u16) << 8 | (lo as u16)
    }

    /// Write a little-endian word: low byte at `pos`, high byte at
    /// `pos + 1` (wrapping).
    fn mem_write_u16(&mut self, pos: u16, data: u16)
        requires
            old(self).inv(),
        ensures
            final(self).inv(),
            final(self).frames_completed() == old(self).frames_completed(),
            Self::obeys_model() ==> final(self).mem_model() == write16(
                old(self).mem_model(),
                pos,
                data,
            ),
    {
        let hi: u8 = (data >> 8) as u8;
        let lo: u8 = (data & 0xff) as u8;
        self.mem_write(pos, lo);
        self.mem_write(pos.wrapping_add(1), hi);
    }
}

/// The interrupt side of a bus: the NMI line the CPU samples at each
/// instruction boundary. Polling reports and clears any pending NMI.
pub trait CpuBus: Memory {
    /// The pending NMI, if any.
    spec fn nmi_value(&self) -> Option<u8>;

    /// Report and clear the pending NMI.
    fn poll_nmi_status(&mut self) -> (r: Option<u8>)
        requires
            old(self).inv(),
        ensures
            final(self).inv(),
            final(self).frames_completed() == old(self).frames_completed(),
            r == old(self).nmi_value(),
            final(self).nmi_value() is None,
            Self::obeys_model() ==> *final(self) == *old(self),
    ;
}

/// A bus that is nothing but memory: a flat 64 KiB RAM with no device
/// windows and no NMI source. It boots at 0x8000, where `load` places a
/// program — the memory-only harness the CPU is exercised against.
pub struct RamBus {
    pub ram: Vec<u8>,
}

impl Memory for RamBus {
    open spec fn inv(&self) -> bool {
        self.ram@.len() == 0x10000
    }

    open spec fn obeys_model() -> bool {
        true
    }

    open spec fn mem_model(&self) -> Seq<u8> {
        self.ram@
    }

    open spec fn modeled_read(&self, addr: u16) -> bool {
        true
    }

    open spec fn read_value(&self, addr: u16) -> u8 {
        self.ram@[addr as int]
    }

    open spec fn frames_completed(&self) -> int {
        0
    }

    fn mem_read(&mut self, addr: u16) -> (r: u8) {
        self.ram[addr as usize]
    }

    fn mem_write(&mut self, addr: u16, data: u8) {
        self.ram.set(addr as usize, data);
    }
}

impl CpuBus for RamBus {
    open spec fn nmi_value(&self) -> Option<u8> {
        None
    }

    fn poll_nmi_status(&mut self) -> (r: Option<u8>) {
        None
    }
}

impl RamBus {
    /// A zeroed 64 KiB memory whose reset vector points at 0x8000.
    pub fn new() -> (b: RamBus)
        ensures
            b.inv(),
            b.mem_model() == Seq::new(0x10000, |i: int| 0u8).update(0xFFFC, 0x00u8).update(
                0xFFFD,
                0x80u8,
            ),
    {
        let mut b = RamBus { ram: vec![0; 0x10000] };
        proof {
            assert(b.ram@ =~= Seq::new(0x10000, |i: int| 0u8));
        }
        b.ram.set(0xFFFC, 0x00);
        b.ram.set(0xFFFD, 0x80);
        b
    }

    /// Place a program at 0x8000, where the reset vector points.
    pub fn load(&mut self, data: &[u8])
        requires
            old(self).inv(),
            data@.len() <= 0x8000,
        ensures
            final(self).inv(),
            final(self).mem_model() == loaded_at(old(self).mem_model(), 0x8000, data@),
    {
        let mut i: usize = 0;
        while i < data.len()
            invariant
                old(self).inv(),
                self.inv(),
                i <= data@.len() <= 0x8000,
                self.mem_model() == loaded_at(old(self).mem_model(), 0x8000, data@.subrange(0, i as int)),
            decreases data@.len() - i,
        {
            self.ram.set(0x8000 + i, data[i]);
            proof {
                assert(self.mem_model() =~= loaded_at(
                    old(self).mem_model(),
                    0x8000,
                    data@.subrange(0, i as int + 1),
                ));
            }
            i = i + 1;
        }
        proof {
            assert(data@.subrange(0, data@.len() as int) =~= data@);
        }
    }
}

/// A memory image with `data` written starting at `base`.
pub open spec fn loaded_at(m: Seq<u8>, base: int, data: Seq<u8>) -> Seq<u8> {
    Seq::new(
        m.len(),
        |i: int|
            if base <= i < base + data.len() {
                data[i - base]
            } else {
                m[i]
            },
    )
}


/// The console bus as the contracts see it: work RAM, the PPU snapshot,
/// both joypad latches, and the cartridge mapper when one is inserted.
pub ghost struct BusView {
    pub ram: Seq<u8>,
    pub ppu: crate::ppu::PpuView,
    pub joypad1: crate::joypad::Joypad,
    pub joypad2: crate::joypad::Joypad,
    pub mapper: Option<crate::mapper::MapperView>,
}

/// What a CPU read returns on the console bus, and the bus after it:
/// mirrored work RAM, the PPU ports (with their side effects), the APU
/// stubs reading 0, the joypad latches, and the cartridge windows.
pub open spec fn spec_bus_read(v: BusView, addr: u16) -> (u8, BusView) {
    if addr <= 0x1FFF {
        (v.ram[(addr & 0x07FF) as int], v)
    } else if addr <= 0x3FFF {
        match v.mapper {
            Some(mv) => {
                let (r, p) = crate::ppu::spec_cpu_read(v.ppu, mv, addr);
                (r, BusView { ppu: p, ..v })
            },
            None => (0, v),
        }
    } else if addr <= 0x4015 {
        (0, v)
    } else if addr == 0x4016 {
        (v.joypad1.spec_read_value(), BusView { joypad1: v.joypad1.spec_read_post(), ..v })
    } else if addr == 0x4017 {
        (v.joypad2.spec_read_value(), BusView { joypad2: v.joypad2.spec_read_post(), ..v })
    } else if addr >= 0x6000 {
        match v.mapper {
            Some(mv) => (crate::mapper::mapper_read(mv, addr), v),
            None => (0, v),
        }
    } else {
        (0, v)
    }
}

/// One OAM DMA step: read CPU address (page | i), store at the PPU's
/// current OAM address, advance it (wrapping).
pub open spec fn spec_dma_step(v: BusView, page: u16, i: int) -> BusView {
    let (value, v1) = spec_bus_read(v, (page + i) as u16);
    BusView {
        ppu: crate::ppu::PpuView {
            oam: v1.ppu.oam.update(v1.ppu.oam_addr as int, value),
            oam_addr: v1.ppu.oam_addr.wrapping_add(1),
            ..v1.ppu
        },
        ..v1
    }
}

/// The bus after the first `n` steps of an OAM DMA burst.
pub open spec fn spec_dma(v: BusView, page: u16, n: nat) -> BusView
    decreases n,
{
    if n == 0 {
        v
    } else {
        spec_dma_step(spec_dma(v, page, (n - 1) as nat), page, n - 1)
    }
}

/// The console bus after a CPU write: mirrored work RAM, the PPU ports,
/// the OAM DMA burst at 0x4014, the joypad strobe broadcast at 0x4016,
/// and the cartridge windows. APU stubs and unmapped space ignore
/// writes.
pub open spec fn spec_bus_write(v: BusView, addr: u16, data: u8) -> BusView {
    if addr <= 0x1FFF {
        BusView { ram: v.ram.update((addr & 0x07FF) as int, data), ..v }
    } else if addr <= 0x3FFF {
        match v.mapper {
            Some(mv) => {
                let (p, m) = crate::ppu::spec_cpu_write(v.ppu, mv, addr, data);
                BusView { ppu: p, mapper: Some(m), ..v }
            },
            None => v,
        }
    } else if addr == 0x4014 {
        spec_dma(v, (data as u16) << 8, 256)
    } else if addr == 0x4016 {
        BusView {
            joypad1: v.joypad1.spec_write(data),
            joypad2: v.joypad2.spec_write(data),
            ..v
        }
    } else if addr >= 0x6000 {
        match v.mapper {
            Some(mv) => BusView { mapper: Some(crate::mapper::mapper_written(mv, addr, data)), ..v },
            None => v,
        }
    } else {
        v
    }
}

/// The console's CPU-side bus: 2 KiB of work RAM mirrored to 0x1FFF,
/// the PPU with its register window, two joypad latches, and the
/// inserted cartridge.
pub struct Bus {
    pub cpu_vram: Vec<u8>,
    pub ppu: crate::ppu::PPU,
    pub joypad1: crate::joypad::Joypad,
    pub joypad2: crate::joypad::Joypad,
    pub rom: Option<crate::rom::ROM>,
}

impl View for Bus {
    type V = BusView;

    open spec fn view(&self) -> BusView {
        BusView {
            ram: self.cpu_vram@,
            ppu: self.ppu@,
            joypad1: self.joypad1,
            joypad2: self.joypad2,
            mapper: match self.rom {
                Some(r) => Some(r.mapper@),
                None => None,
            },
        }
    }
}

impl Bus {
    /// Work RAM is 2 KiB, the PPU is well-formed, and so is any
    /// inserted cartridge.
    pub open spec fn wf(self) -> bool {
        &&& self.cpu_vram@.len() == 2048
        &&& self.ppu.wf()
        &&& match self.rom {
            Some(r) => r.wf(),
            None => true,
        }
    }

    /// A bus with cleared RAM, a fresh PPU and no cartridge.
    pub fn new() -> (b: Bus)
        ensures
            b.wf(),
            b@.ram == (Seq::new(2048, |i: int| 0u8)),
            b@.joypad1 == (crate::joypad::Joypad { strobe: false, button_index: 0, button_status: 0 }),
            b@.joypad2 == (crate::joypad::Joypad { strobe: false, button_index: 0, button_status: 0 }),
            b@.mapper is None,
            b.ppu@.nmi is None,
            b.ppu@.scanline == 0 && b.ppu@.cycle == 0,
            b.ppu@.frame_count == 0,
    {
        let b = Bus {
            cpu_vram: vec![0; 2048],
            ppu: crate::ppu::PPU::new(),
            joypad1: crate::joypad::Joypad::new(),
            joypad2: crate::joypad::Joypad::new(),
            rom: None,
        };
        proof {
            assert(b.cpu_vram@ =~= Seq::new(2048, |i: int| 0u8));
        }
        b
    }

    /// Insert a cartridge: the PPU adopts its mirroring and the mapper
    /// backs the cartridge windows.
    pub fn load_rom(&mut self, rom: crate::rom::ROM)
        requires
            old(self).wf(),
            rom.wf(),
        ensures
            final(self).wf(),
            final(self).rom == Some(rom),
            final(self).ppu.mirroring == rom.mirroring,
            final(self)@.ram == old(self)@.ram,
            final(self)@.joypad1 == old(self)@.joypad1,
            final(self)@.joypad2 == old(self)@.joypad2,
    {
        self.ppu.load_rom(&rom);
        self.rom = Some(rom);
    }

    /// Drive the PPU three dots per CPU cycle; if a frame completed
    /// during this span, stop there and hand it out. With no completion
    /// the PPU advances by exactly `cycles * 3` dots; a frame comes back
    /// exactly when the automaton wraps somewhere in that span.
    pub fn tick(&mut self, cycles: u8) -> (frame: Option<&Frame>)
        requires
            old(self).wf(),
        ensures
            final(self).wf(),
            final(self)@.ram == old(self)@.ram,
            final(self)@.joypad1 == old(self)@.joypad1,
            final(self)@.joypad2 == old(self)@.joypad2,
            final(self)@.mapper == old(self)@.mapper,
            final(self).ppu@.vram == old(self).ppu@.vram,
            final(self).ppu@.palette == old(self).ppu@.palette,
            final(self).ppu@.oam == old(self).ppu@.oam,
            final(self).ppu@.ctrl == old(self).ppu@.ctrl,
            final(self).ppu@.mask == old(self).ppu@.mask,
            final(self).ppu@.frame_count <= old(self).ppu@.frame_count + 1,
            // dot accounting: no frame means exactly 3 * cycles dots
            // passed without a wrap; a frame means the span wrapped
            ({
                let (s2, c2, fr) = crate::ppu::spec_ticks_from(
                    old(self).ppu@.scanline,
                    old(self).ppu@.cycle,
                    old(self).ppu.mask.bits & 0x18 != 0,
                    old(self).ppu.odd_frame,
                    (3 * cycles) as nat,
                );
                &&& (frame is None <==> fr == 0)
                &&& frame is None ==> ({
                    &&& final(self).ppu@.scanline == s2
                    &&& final(self).ppu@.cycle == c2
                    &&& final(self).ppu.odd_frame == old(self).ppu.odd_frame
                    &&& final(self).ppu@.frame_count == old(self).ppu@.frame_count
                })
            }),
            frame is Some ==> ({
                &&& final(self).ppu.scanline == 0
                &&& final(self).ppu.cycle == 0
                &&& final(self).ppu.odd_frame == !old(self).ppu.odd_frame
                &&& old(self).ppu@.frame_count < usize::MAX ==> final(self).ppu@.frame_count
                    == old(self).ppu@.frame_count + 1
            }),
            // the frame handed out is the PPU's frame buffer
            frame matches Some(f) ==> ({
                &&& f.width == final(self).ppu.frame.width
                &&& f.height == final(self).ppu.frame.height
                &&& f.data@ == final(self).ppu.frame.data@
            }),
    {
        let ghost s0 = self.ppu@.scanline;
        let ghost c0 = self.ppu@.cycle;
        let ghost rendering = self.ppu.mask.bits & 0x18 != 0;
        let ghost odd0 = self.ppu.odd_frame;
        let mut frame_complete: bool = false;
        let total: u16 = (cycles as u16) * 3;
        let mut i: u16 = 0;
        while i < total && !frame_complete
            invariant
                self.wf(),
                i <= total <= 765,
                total == 3 * cycles,
                s0 == old(self).ppu@.scanline,
                c0 == old(self).ppu@.cycle,
                rendering == (old(self).ppu.mask.bits & 0x18 != 0),
                odd0 == old(self).ppu.odd_frame,
                self@.ram == old(self)@.ram,
                self@.joypad1 == old(self)@.joypad1,
                self@.joypad2 == old(self)@.joypad2,
                self@.mapper == old(self)@.mapper,
                self.rom == old(self).rom,
                self.ppu@.vram == old(self).ppu@.vram,
                self.ppu@.palette == old(self).ppu@.palette,
                self.ppu@.oam == old(self).ppu@.oam,
                self.ppu@.ctrl == old(self).ppu@.ctrl,
                self.ppu@.mask == old(self).ppu@.mask,
                !frame_complete ==> ({
                    let (si, ci, fri) = crate::ppu::spec_ticks_from(s0, c0, rendering, odd0, i as nat);
                    &&& self.ppu@.scanline == si
                    &&& self.ppu@.cycle == ci
                    &&& fri == 0
                    &&& self.ppu.odd_frame == old(self).ppu.odd_frame
                    &&& self.ppu@.frame_count == old(self).ppu@.frame_count
                }),
                frame_complete ==> ({
                    &&& crate::ppu::spec_ticks_from(s0, c0, rendering, odd0, i as nat).2 >= 1
                    &&& self.ppu.scanline == 0
                    &&& self.ppu.cycle == 0
                    &&& self.ppu.odd_frame == !old(self).ppu.odd_frame
                    &&& self.ppu@.frame_count <= old(self).ppu@.frame_count + 1
                    &&& old(self).ppu@.frame_count < usize::MAX ==> self.ppu@.frame_count == old(
                        self,
                    ).ppu@.frame_count + 1
                }),
            decreases total - i,
        {
            let ticked: bool = match &self.rom {
                Some(rom) => self.ppu.tick(rom),
                None => {
                    let empty = crate::rom::ROM {
                        prg_rom: Vec::new(),
                        chr_rom: Vec::new(),
                        mapper: crate::mapper::Mapper::Nrom(
                            crate::mapper::NROM { prg_rom: Vec::new(), chr_rom: Vec::new() },
                        ),
                        mirroring: crate::rom::Mirroring::Horizontal,
                    };
                    self.ppu.tick(&empty)
                },
            };
            if ticked {
                frame_complete = true;
            }
            i = i + 1;
        }
        proof {
            if frame_complete {
                crate::ppu::lemma_ticks_monotone(s0, c0, rendering, odd0, i as nat, (3
                    * cycles) as nat);
            }
        }
        if frame_complete {
            Some(&self.ppu.frame)
        } else {
            None
        }
    }

    /// The OAM DMA burst: 256 reads from the written page, each stored
    /// at the PPU's advancing OAM address.
    pub(crate) fn dma_transfer(&mut self, data: u8)
        requires
            old(self).wf(),
        ensures
            final(self).wf(),
            final(self).ppu.frame_count == old(self).ppu.frame_count,
            final(self)@ == spec_dma(old(self)@, (data as u16) << 8, 256),
    {
        proof {
            crate::bits::lemma_u16_shl8_bound();
        }
        let hi: u16 = (data as u16) << 8;
        let mut i: u16 = 0;
        while i < 256
            invariant
                self.wf(),
                hi <= 0xFF00,
                i <= 256,
                self.ppu.frame_count == old(self).ppu.frame_count,
                self@ == spec_dma(old(self)@, hi, i as nat),
            decreases 256 - i,
        {
            let value: u8 = self.mem_read(hi + i);
            let a: usize = self.ppu.oam_addr as usize;
            self.ppu.oam_data.set(a, value);
            self.ppu.oam_addr = self.ppu.oam_addr.wrapping_add(1);
            i = i + 1;
        }
    }
}

impl Memory for Bus {
    open spec fn inv(&self) -> bool {
        self.wf()
    }

    /// The console bus has read side effects in its PPU window, so it
    /// does not claim the flat model; its behaviour is specified by
    /// `spec_bus_read` and `spec_bus_write` instead.
    open spec fn obeys_model() -> bool {
        false
    }

    open spec fn mem_model(&self) -> Seq<u8> {
        Seq::empty()
    }

    /// Outside the PPU window and the joypad ports, console reads have
    /// no side effects: work RAM, the APU stubs and the cartridge.
    open spec fn modeled_read(&self, addr: u16) -> bool {
        !(0x2000 <= addr <= 0x3FFF) && addr != 0x4016 && addr != 0x4017
    }

    open spec fn read_value(&self, addr: u16) -> u8 {
        spec_bus_read(self@, addr).0
    }

    open spec fn frames_completed(&self) -> int {
        self.ppu@.frame_count
    }

    fn mem_read(&mut self, addr: u16) -> (r: u8)
        ensures
            (r, final(self)@) == spec_bus_read(old(self)@, addr),
            old(self).modeled_read(addr) ==> *final(self) == *old(self),
            final(self).rom == old(self).rom || (final(self).rom is Some && old(self).rom is Some),
    {
        if addr <= 0x1FFF {
            proof {
                crate::bits::lemma_u16_mask_bound();
            }
            let mirror_down_addr: u16 = addr & 0x07FF;
            self.cpu_vram[mirror_down_addr as usize]
        } else if addr <= 0x3FFF {
            match &self.rom {
                Some(rom) => self.ppu.cpu_read(rom, addr),
                None => 0,
            }
        } else if addr <= 0x4015 {
            // APU stubs read 0
            0
        } else if addr == 0x4016 {
            self.joypad1.read()
        } else if addr == 0x4017 {
            self.joypad2.read()
        } else if addr >= 0x6000 {
            match &self.rom {
                Some(rom) => rom.mapper.read(addr),
                None => 0,
            }
        } else {
            // open bus between the I/O stubs and the cartridge window
            0
        }
    }

    fn mem_write(&mut self, addr: u16, data: u8)
        ensures
            final(self)@ == spec_bus_write(old(self)@, addr, data),
    {
        if addr <= 0x1FFF {
            proof {
                crate::bits::lemma_u16_mask_bound();
            }
            let mirror_down_addr: u16 = addr & 0x07FF;
            self.cpu_vram.set(mirror_down_addr as usize, data);
        } else if addr <= 0x3FFF {
            match &mut self.rom {
                Some(rom) => self.ppu.cpu_write(rom, addr, data),
                None => (),
            }
        } else if addr == 0x4014 {
            self.dma_transfer(data);
        } else if addr == 0x4016 {
            self.joypad1.write(data);
            self.joypad2.write(data);
        } else if addr >= 0x6000 {
            match &mut self.rom {
                Some(rom) => rom.mapper.write(addr, data),
                None => (),
            }
        }
    }

    /// A little-endian word read on the console bus: exactly two byte
    /// reads, low at `pos` then high at `pos + 1` (wrapping), each with
    /// its decode side effects.
    fn mem_read_u16(&mut self, pos: u16) -> (r: u16)
        ensures
            ({
                let (lo, v1) = spec_bus_read(old(self)@, pos);
                let (hi, v2) = spec_bus_read(v1, pos.wrapping_add(1));
                &&& r == (hi as u16) << 8 | (lo as u16)
                &&& final(self)@ == v2
            }),
    {
        let lo: u8 = self.mem_read(pos);
        let hi: u8 = self.mem_read(pos.wrapping_add(1));
        (hi as u16) << 8 | (lo as u16)
    }

    /// A little-endian word write on the console bus: exactly two byte
    /// writes, low at `pos` then high at `pos + 1` (wrapping).
    fn mem_write_u16(&mut self, pos: u16, data: u16)
        ensures
            final(self)@ == spec_bus_write(
                spec_bus_write(old(self)@, pos, (data & 0xff) as u8),
                pos.wrapping_add(1),
                (data >> 8) as u8,
            ),
    {
        let hi: u8 = (data >> 8) as u8;
        let lo: u8 = (data & 0xff) as u8;
        self.mem_write(pos, lo);
        self.mem_write(pos.wrapping_add(1), hi);
    }
}

impl CpuBus for Bus {
    open spec fn nmi_value(&self) -> Option<u8> {
        self.ppu.nmi_interrupt
    }

    /// Reports and clears the PPU's pending NMI; nothing else on the
    /// bus changes.
    fn poll_nmi_status(&mut self) -> (r: Option<u8>)
        ensures
            final(self)@ == (BusView {
                ppu: (crate::ppu::PpuView { nmi: None, ..old(self)@.ppu }),
                ..old(self)@
            }),
            final(self).rom == old(self).rom,
            crate::ppu::pipeline_eq(final(self).ppu, old(self).ppu),
    {
        self.ppu.poll_nmi_interrupt()
    }
}



/// A side-effect-free view of a bus address, for diagnostics: the real
/// byte for work RAM, the APU stubs and the cartridge windows; the PPU
/// window reads back as the open-bus latch and the joypad ports as 0,
/// so that peeking never disturbs the machine.
pub open spec fn spec_bus_peek(v: BusView, addr: u16) -> u8 {
    if addr <= 0x1FFF {
        v.ram[(addr & 0x07FF) as int]
    } else if addr <= 0x3FFF {
        v.ppu.data_bus
    } else if addr == 0x4016 || addr == 0x4017 {
        0
    } else if addr >= 0x6000 {
        match v.mapper {
            Some(mv) => crate::mapper::mapper_read(mv, addr),
            None => 0,
        }
    } else {
        0
    }
}

impl Bus {
    /// Peek one byte without side effects (see `spec_bus_peek`).
    pub fn peek(&self, addr: u16) -> (r: u8)
        requires
            self.wf(),
        ensures
            r == spec_bus_peek(self@, addr),
    {
        if addr <= 0x1FFF {
            proof {
                crate::bits::lemma_u16_mask_bound();
            }
            self.cpu_vram[(addr & 0x07FF) as usize]
        } else if addr <= 0x3FFF {
            self.ppu.data_bus
        } else if addr == 0x4016 || addr == 0x4017 {
            0
        } else if addr >= 0x6000 {
            match &self.rom {
                Some(rom) => rom.mapper.read(addr),
                None => 0,
            }
        } else {
            0
        }
    }
}

} // verus!

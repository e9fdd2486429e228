//! The picture processing unit: VRAM, palette and OAM memories, the
//! CPU-visible register file with its open-bus latch, the v/t/x/w
//! scroll machinery, and the cycle-and-scanline rendering pipeline.
//!
//! The register file and the memories have exact contracts through the
//! ghost snapshot [`PpuView`]; the dot/scanline automaton of `tick` is
//! pinned down by [`spec_tick_counters`], including the odd-frame skip.

use vstd::prelude::*;

use crate::frame::Frame;
use crate::mapper::mapper_read;
use crate::mapper::mapper_written;
use crate::mapper::MapperView;
use crate::ppu_regs::AddrRegister;
use crate::ppu_regs::ControlRegister;
use crate::ppu_regs::MaskRegister;
use crate::ppu_regs::ScrollRegister;
use crate::ppu_regs::Sprite;
use crate::ppu_regs::StatusRegister;
use crate::ppu_regs::SPRITE_OVERFLOW_BIT;
use crate::ppu_regs::SPRITE_ZERO_HIT_BIT;
use crate::ppu_regs::VBLANK_BIT;
use crate::rom::Mirroring;
use crate::rom::ROM;

verus! {

/// Everything of the PPU the CPU can observe through its ports, plus
/// the counters: the contracts' snapshot of the chip (the background
/// and sprite pipeline latches are tracked separately).
pub ghost struct PpuView {
    pub vram: Seq<u8>,
    pub palette: Seq<u8>,
    pub oam: Seq<u8>,
    pub oam_addr: u8,
    pub ctrl: u8,
    pub mask: u8,
    pub status: u8,
    pub scroll: ScrollRegister,
    pub addr: AddrRegister,
    pub v: u16,
    pub t: u16,
    pub fine_x: u8,
    pub w: bool,
    pub vram_buffer: u8,
    pub data_bus: u8,
    pub nmi: Option<u8>,
    pub suppress_vbl: bool,
    pub mirroring: Mirroring,
    pub scanline: int,
    pub cycle: int,
    pub odd_frame: bool,
    pub frame_count: int,
}

/// A nametable address after mirroring: vertical aliases tables 0/2 and
/// 1/3, horizontal aliases 0/1 and 2/3, four-screen passes through.
pub open spec fn spec_mirror_nametable(m: Mirroring, addr: u16) -> u16 {
    let mirrored = addr & 0x0FFF;
    let index = mirrored / 0x400;
    match m {
        Mirroring::Vertical => if index == 2 || index == 3 {
            (mirrored - 0x800) as u16
        } else {
            mirrored
        },
        Mirroring::Horizontal => if index == 1 || index == 2 {
            (mirrored - 0x400) as u16
        } else if index == 3 {
            (mirrored - 0x800) as u16
        } else {
            mirrored
        },
        Mirroring::FourScreen => mirrored,
    }
}

/// A palette index after the mirror positions 0x10/0x14/0x18/0x1C are
/// aliased down to 0x00/0x04/0x08/0x0C.
pub open spec fn spec_mirror_palette(address: u16) -> int {
    let a = address as int % 0x20;
    if a == 0x10 || a == 0x14 || a == 0x18 || a == 0x1C {
        a - 0x10
    } else {
        a
    }
}

/// What a PPU-side memory read returns: CHR through the mapper,
/// nametable VRAM after mirroring, or palette RAM. The core carries the
/// two physical nametables only, so four-screen slots beyond them read
/// 0.
pub open spec fn spec_ppu_mem_read(rv: PpuView, mv: MapperView, address: u16) -> u8 {
    if address <= 0x1FFF {
        mapper_read(mv, address)
    } else if address <= 0x3EFF {
        let i = spec_mirror_nametable(rv.mirroring, address) as int;
        if i < 2048 {
            rv.vram[i]
        } else {
            0
        }
    } else if address <= 0x3FFF {
        rv.palette[spec_mirror_palette(address)]
    } else {
        0
    }
}

/// The (VRAM, palette, mapper) contents after a PPU-side memory write;
/// the reserved window 0x3000–0x3EFF and out-of-range four-screen slots
/// ignore writes.
pub open spec fn spec_ppu_mem_written(rv: PpuView, mv: MapperView, address: u16, data: u8) -> (
    PpuView,
    MapperView,
) {
    if address <= 0x1FFF {
        (rv, mapper_written(mv, address, data))
    } else if address <= 0x2FFF {
        let i = spec_mirror_nametable(rv.mirroring, address) as int;
        if i < 2048 {
            (PpuView { vram: rv.vram.update(i, data), ..rv }, mv)
        } else {
            (rv, mv)
        }
    } else if address <= 0x3EFF {
        (rv, mv)
    } else if address <= 0x3FFF {
        (PpuView { palette: rv.palette.update(spec_mirror_palette(address), data), ..rv }, mv)
    } else {
        (rv, mv)
    }
}

/// Coarse-X increment of v: bits 0-4 count to 31, overflow toggles the
/// horizontal nametable bit. Applies only while the background is on.
pub open spec fn spec_increment_x(v: u16, show_bg: bool) -> u16 {
    if show_bg {
        if v & 0x001F == 31 {
            (v & !0x001F) ^ 0x0400
        } else {
            v.wrapping_add(1)
        }
    } else {
        v
    }
}

/// Fine-Y increment of v at dot 256: fine Y overflows into coarse Y,
/// coarse Y 29 wraps and toggles the vertical nametable bit, 31 wraps
/// without toggling. Applies only while the background is on.
pub open spec fn spec_increment_y(v: u16, show_bg: bool) -> u16 {
    if show_bg {
        if v & 0x7000 != 0x7000 {
            v.wrapping_add(0x1000)
        } else {
            let v1 = v & !0x7000;
            let y = (v1 & 0x03E0) >> 5;
            if y == 29 {
                ((v1 ^ 0x0800) & !0x03E0) | (0u16 << 5)
            } else if y == 31 {
                (v1 & !0x03E0) | (0u16 << 5)
            } else {
                (v1 & !0x03E0) | (y.wrapping_add(1) << 5)
            }
        }
    } else {
        v
    }
}

/// Horizontal bits copied from t to v at dot 257, while rendering.
pub open spec fn spec_transfer_x(v: u16, t: u16, show_bg: bool) -> u16 {
    if show_bg {
        v & 0x7BE0 | t & 0x041F
    } else {
        v
    }
}

/// Vertical bits copied from t to v during dots 280-304 of the
/// pre-render line, while rendering.
pub open spec fn spec_transfer_y(v: u16, t: u16, show_bg: bool) -> u16 {
    if show_bg {
        v & 0x041F | t & 0x7BE0
    } else {
        v
    }
}

/// One dot of the (scanline, cycle) automaton: cycles run 0..=340 and
/// scanlines 0..=261; on odd frames with rendering on, dot 339 of the
/// pre-render line jumps straight to the wrap, making the frame one dot
/// short. Returns the new counters and whether a frame completed.
pub open spec fn spec_tick_counters(scanline: int, cycle: int, rendering: bool, odd: bool) -> (
    int,
    int,
    bool,
) {
    let c = if scanline == 261 && cycle == 339 && rendering && odd {
        340int
    } else {
        cycle
    };
    if c + 1 > 340 {
        if scanline + 1 > 261 {
            (0, 0, true)
        } else {
            (scanline + 1, 0, false)
        }
    } else {
        (scanline, c + 1, false)
    }
}

/// The length of one frame in dots: 89342, or 89341 when the odd-frame
/// skip fires.
pub open spec fn spec_frame_dots(rendering: bool, odd: bool) -> int {
    if rendering && odd {
        89341int
    } else {
        89342int
    }
}

/// The counters after `n` dots from a position, and how many frames
/// completed on the way.
pub open spec fn spec_ticks_from(s: int, c: int, rendering: bool, odd: bool, n: nat) -> (
    int,
    int,
    nat,
)
    decreases n,
{
    if n == 0 {
        (s, c, 0nat)
    } else {
        let (s1, c1, frames) = spec_ticks_from(s, c, rendering, odd, (n - 1) as nat);
        let (s2, c2, w) = spec_tick_counters(s1, c1, rendering, odd);
        (
            s2,
            c2,
            if w {
                (frames + 1) as nat
            } else {
                frames
            },
        )
    }
}

/// Completed frames only accumulate as the automaton runs.
pub proof fn lemma_ticks_monotone(s: int, c: int, rendering: bool, odd: bool, m: nat, n: nat)
    requires
        m <= n,
    ensures
        spec_ticks_from(s, c, rendering, odd, m).2 <= spec_ticks_from(s, c, rendering, odd, n).2,
    decreases n,
{
    if m < n {
        lemma_ticks_monotone(s, c, rendering, odd, m, (n - 1) as nat);
    }
}

/// The background contribution at a dot: the fine-x-selected bits of
/// the pattern and attribute shifters, or transparent in the masked
/// leftmost column or with the background off.
pub open spec fn spec_render_background(p: PPU) -> (u8, u8) {
    if p.mask.bits & 0x08 != 0 && (p.cycle >= 8 || p.mask.bits & 0x02 != 0) {
        let bit_mux = 0x8000u16 >> p.fine_x;
        let p0 = if (p.bg_shifter_pattern_lo & bit_mux) > 0 {
            1u8
        } else {
            0u8
        };
        let p1 = if (p.bg_shifter_pattern_hi & bit_mux) > 0 {
            1u8
        } else {
            0u8
        };
        let a0 = if (p.bg_shifter_attrib_lo & bit_mux) > 0 {
            1u8
        } else {
            0u8
        };
        let a1 = if (p.bg_shifter_attrib_hi & bit_mux) > 0 {
            1u8
        } else {
            0u8
        };
        ((2 * p1 + p0) as u8, (2 * a1 + a0) as u8)
    } else {
        (0u8, 0u8)
    }
}

/// The sprite scan from index `i` with the values gathered so far:
/// every sprite whose X countdown reached zero overwrites the gathered
/// values, and the scan stops at the first opaque pixel.
pub open spec fn spec_fg_scan(p: PPU, i: int, fg: (u8, u8, bool, bool)) -> (u8, u8, bool, bool)
    decreases p.secondary_oam_data@.len() - i,
{
    if i < 0 || i >= p.secondary_oam_data@.len() {
        fg
    } else {
        let sprite = p.secondary_oam_data@[i];
        if sprite.x == 0 {
            let lo = if (p.sprite_shifter_pattern_lo@[i] & 0x80) > 0 {
                1u8
            } else {
                0u8
            };
            let hi = if (p.sprite_shifter_pattern_hi@[i] & 0x80) > 0 {
                1u8
            } else {
                0u8
            };
            let nfg = (
                (2 * hi + lo) as u8,
                ((sprite.attribute & 0x3) + 0x04) as u8,
                sprite.attribute & 0x20 != 0x20,
                sprite.is_sprite_0,
            );
            if nfg.0 != 0 {
                nfg
            } else {
                spec_fg_scan(p, i + 1, nfg)
            }
        } else {
            spec_fg_scan(p, i + 1, fg)
        }
    }
}

/// The sprite contribution at a dot: (pixel, palette, in-front
/// priority, is sprite zero); the first sprite in OAM order with an
/// opaque pixel wins.
pub open spec fn spec_render_foreground(p: PPU) -> (u8, u8, bool, bool) {
    if p.mask.bits & 0x10 != 0 && (p.cycle >= 8 || p.mask.bits & 0x04 != 0) {
        spec_fg_scan(p, 0, (0u8, 0u8, false, false))
    } else {
        (0u8, 0u8, false, false)
    }
}

/// Pixel composition: both transparent gives the backdrop, a single
/// opaque layer wins, and the sprite's priority bit decides ties.
/// Returns (palette, pixel).
pub open spec fn spec_pixel_choice(bg: (u8, u8), fg: (u8, u8, bool, bool)) -> (u8, u8) {
    if bg.0 == 0 && fg.0 == 0 {
        (0u8, 0u8)
    } else if bg.0 == 0 {
        (fg.1, fg.0)
    } else if fg.0 == 0 {
        (bg.1, bg.0)
    } else if fg.2 {
        (fg.1, fg.0)
    } else {
        (bg.1, bg.0)
    }
}

/// The status byte after a dot is composed: the sprite-zero-hit bit is
/// refreshed exactly when both layers are opaque, rendering is enabled
/// and the dot is not 255.
pub open spec fn spec_sprite_zero_status(p: PPU) -> u8 {
    let bg = spec_render_background(p);
    let fg = spec_render_foreground(p);
    if bg.0 > 0 && fg.0 > 0 && p.mask.bits & 0x18 != 0 && p.cycle != 255 {
        if fg.3 {
            p.status.bits | SPRITE_ZERO_HIT_BIT
        } else {
            p.status.bits & !SPRITE_ZERO_HIT_BIT
        }
    } else {
        p.status.bits
    }
}

/// The palette-RAM colour a dot composes to, after the greyscale mask.
pub open spec fn spec_render_color(p: PPU) -> u8 {
    let bg = spec_render_background(p);
    let fg = spec_render_foreground(p);
    let (palette, pixel) = spec_pixel_choice(bg, fg);
    let color = p.palette_table@[spec_mirror_palette((0x3F00 + palette * 4 + pixel) as u16)];
    if p.mask.bits & 0x01 != 0 {
        color & 0x30
    } else {
        color
    }
}

/// The picture processing unit.
pub struct PPU {
    pub vram: Vec<u8>,
    pub palette_table: Vec<u8>,
    pub oam_data: Vec<u8>,
    pub secondary_oam_data: Vec<Sprite>,
    pub oam_addr: u8,
    pub scanline: usize,
    pub cycle: usize,
    pub frame_count: usize,
    pub mask: MaskRegister,
    pub addr: AddrRegister,
    pub ctrl: ControlRegister,
    pub scroll: ScrollRegister,
    pub status: StatusRegister,
    pub mirroring: Mirroring,
    pub v: u16,
    pub t: u16,
    pub fine_x: u8,
    pub w: bool,
    pub vram_buffer: u8,
    pub nametable_byte: u8,
    pub attribute_byte: u8,
    pub bg_tile_lo: u8,
    pub bg_tile_hi: u8,
    pub bg_shifter_pattern_lo: u16,
    pub bg_shifter_pattern_hi: u16,
    pub bg_shifter_attrib_lo: u16,
    pub bg_shifter_attrib_hi: u16,
    pub sprite_shifter_pattern_lo: Vec<u8>,
    pub sprite_shifter_pattern_hi: Vec<u8>,
    pub nmi_interrupt: Option<u8>,
    pub suppress_vbl: bool,
    pub data_bus: u8,
    pub odd_frame: bool,
    pub frame: Frame,
}

impl View for PPU {
    type V = PpuView;

    open spec fn view(&self) -> PpuView {
        PpuView {
            vram: self.vram@,
            palette: self.palette_table@,
            oam: self.oam_data@,
            oam_addr: self.oam_addr,
            ctrl: self.ctrl.bits,
            mask: self.mask.bits,
            status: self.status.bits,
            scroll: self.scroll,
            addr: self.addr,
            v: self.v,
            t: self.t,
            fine_x: self.fine_x,
            w: self.w,
            vram_buffer: self.vram_buffer,
            data_bus: self.data_bus,
            nmi: self.nmi_interrupt,
            suppress_vbl: self.suppress_vbl,
            mirroring: self.mirroring,
            scanline: self.scanline as int,
            cycle: self.cycle as int,
            odd_frame: self.odd_frame,
            frame_count: self.frame_count as int,
        }
    }
}

/// The rendering-pipeline latches of two PPUs are equal: fetch latches,
/// shift registers, secondary OAM and the frame buffer.
pub open spec fn pipeline_eq(a: PPU, b: PPU) -> bool {
    &&& a.nametable_byte == b.nametable_byte
    &&& a.attribute_byte == b.attribute_byte
    &&& a.bg_tile_lo == b.bg_tile_lo
    &&& a.bg_tile_hi == b.bg_tile_hi
    &&& a.bg_shifter_pattern_lo == b.bg_shifter_pattern_lo
    &&& a.bg_shifter_pattern_hi == b.bg_shifter_pattern_hi
    &&& a.bg_shifter_attrib_lo == b.bg_shifter_attrib_lo
    &&& a.bg_shifter_attrib_hi == b.bg_shifter_attrib_hi
    &&& a.secondary_oam_data@ == b.secondary_oam_data@
    &&& a.sprite_shifter_pattern_lo@ == b.sprite_shifter_pattern_lo@
    &&& a.sprite_shifter_pattern_hi@ == b.sprite_shifter_pattern_hi@
    &&& a.frame.width == b.frame.width
    &&& a.frame.height == b.frame.height
    &&& a.frame.data@ == b.frame.data@
}

impl PPU {
    /// Buffer sizes and counter ranges the chip maintains.
    pub open spec fn wf(self) -> bool {
        &&& self.vram@.len() == 2048

        &&& self.palette_table@.len() == 32
        &&& self.oam_data@.len() == 256
        &&& self.secondary_oam_data@.len() <= 8
        &&& self.sprite_shifter_pattern_lo@.len() == 8
        &&& self.sprite_shifter_pattern_hi@.len() == 8
        &&& self.frame.wf()
        &&& self.frame.width == 256
        &&& self.frame.height == 240
        &&& self.scanline <= 261
        &&& self.cycle <= 340
        &&& self.fine_x <= 7
    }

    /// A PPU at power-up: cleared memories except OAM, which comes up
    /// as 0xFF like the undriven cells of the real chip; all latches
    /// cleared.
    pub fn new() -> (p: PPU)
        ensures
            p.wf(),
            p@.vram == Seq::new(2048, |i: int| 0u8),
            p@.palette == Seq::new(32, |i: int| 0u8),
            p@.oam == Seq::new(256, |i: int| 0xFFu8),
            p@.oam_addr == 0,
            p@.ctrl == 0 && p@.mask == 0 && p@.status == 0,
            p@.v == 0 && p@.t == 0 && p@.fine_x == 0 && p@.w == false,
            p@.vram_buffer == 0 && p@.data_bus == 0,
            p@.nmi is None && p@.suppress_vbl == false,
            p@.mirroring == Mirroring::Horizontal,
            p@.scanline == 0 && p@.cycle == 0 && p@.odd_frame == false && p@.frame_count == 0,
    {
        let p = PPU {
            vram: vec![0; 2048],
            palette_table: vec![0; 32],
            oam_data: vec![0xFF; 256],
            secondary_oam_data: Vec::new(),
            oam_addr: 0,
            scanline: 0,
            cycle: 0,
            frame_count: 0,
            mask: MaskRegister::new(),
            addr: AddrRegister::new(),
            ctrl: ControlRegister::new(),
            scroll: ScrollRegister::new(),
            status: StatusRegister::new(),
            mirroring: Mirroring::Horizontal,
            v: 0,
            t: 0,
            fine_x: 0,
            w: false,
            vram_buffer: 0,
            nametable_byte: 0,
            attribute_byte: 0,
            bg_tile_lo: 0,
            bg_tile_hi: 0,
            bg_shifter_pattern_lo: 0,
            bg_shifter_pattern_hi: 0,
            bg_shifter_attrib_lo: 0,
            bg_shifter_attrib_hi: 0,
            sprite_shifter_pattern_lo: vec![0; 8],
            sprite_shifter_pattern_hi: vec![0; 8],
            nmi_interrupt: None,
            suppress_vbl: false,
            data_bus: 0,
            odd_frame: false,
            frame: Frame::new(256, 240),
        };
        proof {
            assert(p.vram@ =~= Seq::new(2048, |i: int| 0u8));
            assert(p.palette_table@ =~= Seq::new(32, |i: int| 0u8));
            assert(p.oam_data@ =~= Seq::new(256, |i: int| 0xFFu8));
        }
        p
    }

    /// Adopt the mirroring the cartridge selects.
    pub fn load_rom(&mut self, rom: &ROM)
        ensures
            *final(self) == (PPU { mirroring: rom.mirroring, ..*old(self) }),
    {
        self.mirroring = rom.mirroring;
    }

    /// Report and clear a pending NMI.
    pub fn poll_nmi_interrupt(&mut self) -> (r: Option<u8>)
        ensures
            r == old(self).nmi_interrupt,
            *final(self) == (PPU { nmi_interrupt: None, ..*old(self) }),
    {
        let r = self.nmi_interrupt;
        self.nmi_interrupt = None;
        r
    }

    /// Translate a nametable address through the cartridge mirroring.
    pub fn mirror_nametable(&self, addr: u16) -> (r: u16)
        ensures
            r == spec_mirror_nametable(self.mirroring, addr),
            !(self.mirroring is FourScreen) ==> r < 2048,
            r < 4096,
    {
        proof {
            crate::bits::lemma_u16_mask_bound();
        }
        let mirrored_vram: u16 = addr & 0x0FFF;
        let nametable_index: u16 = mirrored_vram / 0x400;
        proof {
            assert(nametable_index == 2 ==> mirrored_vram >= 0x800) by (nonlinear_arith)
                requires
                    nametable_index == mirrored_vram / 0x400,
            ;
            assert(nametable_index == 3 ==> mirrored_vram >= 0xC00) by (nonlinear_arith)
                requires
                    nametable_index == mirrored_vram / 0x400,
            ;
            assert(nametable_index == 1 ==> mirrored_vram >= 0x400) by (nonlinear_arith)
                requires
                    nametable_index == mirrored_vram / 0x400,
            ;
            assert(nametable_index <= 1 ==> mirrored_vram < 0x800) by (nonlinear_arith)
                requires
                    nametable_index == mirrored_vram / 0x400,
                    mirrored_vram <= 0x0FFF,
            ;
            assert(nametable_index <= 0 ==> mirrored_vram < 0x400) by (nonlinear_arith)
                requires
                    nametable_index == mirrored_vram / 0x400,
                    mirrored_vram <= 0x0FFF,
            ;
        }
        match self.mirroring {
            Mirroring::Vertical => {
                if nametable_index == 2 || nametable_index == 3 {
                    mirrored_vram - 0x800
                } else {
                    mirrored_vram
                }
            },
            Mirroring::Horizontal => {
                if nametable_index == 1 || nametable_index == 2 {
                    mirrored_vram - 0x400
                } else if nametable_index == 3 {
                    mirrored_vram - 0x800
                } else {
                    mirrored_vram
                }
            },
            Mirroring::FourScreen => mirrored_vram,
        }
    }

    /// Alias a palette address down to one of the 32 palette bytes.
    pub fn mirror_palette(&self, address: u16) -> (r: usize)
        ensures
            r == spec_mirror_palette(address),
            r < 32,
    {
        let a: usize = (address as usize) % 0x20;
        if a == 0x10 || a == 0x14 || a == 0x18 || a == 0x1C {
            a - 0x10
        } else {
            a
        }
    }

    /// Read PPU address space: CHR, mirrored nametables, or palette.
    pub fn mem_read(&self, rom: &ROM, address: u16) -> (r: u8)
        requires
            self.wf(),
            rom.wf(),
        ensures
            r == spec_ppu_mem_read(self@, rom.mapper@, address),
    {
        if address <= 0x1FFF {
            rom.mapper.read(address)
        } else if address <= 0x3EFF {
            let i: usize = self.mirror_nametable(address) as usize;
            if i < 2048 {
                self.vram[i]
            } else {
                0
            }
        } else if address <= 0x3FFF {
            let i: usize = self.mirror_palette(address);
            self.palette_table[i]
        } else {
            0
        }
    }

    /// Write PPU address space; the reserved 0x3000 window is ignored.
    pub fn mem_write(&mut self, rom: &mut ROM, address: u16, data: u8)
        requires
            old(self).wf(),
            old(rom).wf(),
        ensures
            final(self).wf(),
            final(rom).wf(),
            pipeline_eq(*final(self), *old(self)),
            final(rom).prg_rom@ == old(rom).prg_rom@,
            final(rom).chr_rom@ == old(rom).chr_rom@,
            final(rom).mirroring == old(rom).mirroring,
            final(self).frame_count == old(self).frame_count,
            (final(self)@, final(rom).mapper@) == spec_ppu_mem_written(
                old(self)@,
                old(rom).mapper@,
                address,
                data,
            ),
    {
        if address <= 0x1FFF {
            rom.mapper.write(address, data);
        } else if address <= 0x2FFF {
            let i: usize = self.mirror_nametable(address) as usize;
            if i < 2048 {
                self.vram.set(i, data);
            }
        } else if address <= 0x3EFF {
            // reserved window: unused by this core
        } else if address <= 0x3FFF {
            let i: usize = self.mirror_palette(address);
            self.palette_table.set(i, data);
        }
    }
}


/// The VRAM address step a PPUDATA access applies: 1 or 32 by PPUCTRL
/// bit 2.
pub open spec fn spec_vram_increment(ctrl: u8) -> u8 {
    if ctrl & 0x04 != 0 {
        32
    } else {
        1
    }
}

/// The register file after the VRAM address auto-increment.
pub open spec fn spec_increment_vram(rv: PpuView) -> PpuView {
    let inc = spec_vram_increment(rv.ctrl);
    PpuView {
        addr: crate::ppu_regs::spec_addr_increment(rv.addr, inc),
        v: rv.v.wrapping_add(inc as u16),
        ..rv
    }
}

/// What a CPU read of a PPU port returns, and the register file after
/// it. Write-only ports leak the open-bus latch; PPUSTATUS clears the
/// vblank flag and both write toggles, and a read on the dot before
/// vblank would be raised suppresses it for this frame; PPUDATA returns
/// the buffered byte (palette reads are unbuffered) and steps the VRAM
/// address.
pub open spec fn spec_cpu_read(rv: PpuView, mv: MapperView, address: u16) -> (u8, PpuView) {
    if !(0x2000 <= address <= 0x3FFF) {
        (rv.data_bus, rv)
    } else {
        let port = address & 0x0007;
        if port == 2 {
            let data = (rv.status & 0xE0) | (rv.data_bus & 0x1F);
            (
                data,
                PpuView {
                    status: rv.status & !VBLANK_BIT,
                    scroll: ScrollRegister { latch: false, ..rv.scroll },
                    addr: AddrRegister { hi_ptr: true, ..rv.addr },
                    w: false,
                    suppress_vbl: if rv.scanline == 241 && rv.cycle == 0 {
                        true
                    } else {
                        rv.suppress_vbl
                    },
                    data_bus: rv.data_bus | (data & 0xE0),
                    ..rv
                },
            )
        } else if port == 4 {
            (rv.oam[rv.oam_addr as int], rv)
        } else if port == 7 {
            let a = rv.v & 0x3FFF;
            let rv1 = spec_increment_vram(rv);
            if a >= 0x3F00 {
                let i = spec_mirror_nametable(rv.mirroring, a) as int;
                let buffered = if i < 2048 {
                    rv.vram[i]
                } else {
                    0
                };
                (spec_ppu_mem_read(rv, mv, a), PpuView { vram_buffer: buffered, ..rv1 })
            } else {
                (rv.vram_buffer, PpuView { vram_buffer: spec_ppu_mem_read(rv, mv, a), ..rv1 })
            }
        } else {
            (rv.data_bus, rv)
        }
    }
}

/// The register file (and mapper, through PPUDATA) after a CPU write to
/// a PPU port. Every write refreshes the open-bus latch first.
pub open spec fn spec_cpu_write(rv0: PpuView, mv: MapperView, address: u16, data: u8) -> (
    PpuView,
    MapperView,
) {
    let rv = PpuView { data_bus: data, ..rv0 };
    if !(0x2000 <= address <= 0x3FFF) {
        (rv, mv)
    } else {
        let port = address & 0x0007;
        if port == 0 {
            let before = rv0.ctrl & 0x80 != 0;
            let nmi = if !before && (data & 0x80 != 0) && (rv0.status & VBLANK_BIT != 0) {
                Some(1u8)
            } else {
                rv0.nmi
            };
            (
                PpuView {
                    ctrl: data,
                    t: (rv0.t & 0xF3FF) | (((data & 0x03) as u16) << 10),
                    nmi,
                    ..rv
                },
                mv,
            )
        } else if port == 1 {
            (PpuView { mask: data, ..rv }, mv)
        } else if port == 3 {
            (PpuView { oam_addr: data, ..rv }, mv)
        } else if port == 4 {
            (
                PpuView {
                    oam: rv0.oam.update(rv0.oam_addr as int, data),
                    oam_addr: rv0.oam_addr.wrapping_add(1),
                    ..rv
                },
                mv,
            )
        } else if port == 5 {
            let scroll = crate::ppu_regs::spec_scroll_write(rv0.scroll, data);
            if !rv0.w {
                (
                    PpuView {
                        scroll,
                        t: (rv0.t & 0x7FE0) | (data as u16 >> 3),
                        fine_x: data & 0x07,
                        w: true,
                        ..rv
                    },
                    mv,
                )
            } else {
                (
                    PpuView {
                        scroll,
                        t: (rv0.t & 0x0C1F) | (((data & 0x07) as u16) << 12) | (((data
                            & 0xF8) as u16) << 2),
                        w: false,
                        ..rv
                    },
                    mv,
                )
            }
        } else if port == 6 {
            let addr = crate::ppu_regs::spec_addr_update(rv0.addr, data);
            if !rv0.w {
                (
                    PpuView {
                        addr,
                        t: (rv0.t & 0x00FF) | (((data & 0x3F) as u16) << 8),
                        w: true,
                        ..rv
                    },
                    mv,
                )
            } else {
                let t2 = (rv0.t & 0xFF00) | data as u16;
                (PpuView { addr, t: t2, v: t2, w: false, ..rv }, mv)
            }
        } else if port == 7 {
            let a = rv0.v & 0x3FFF;
            let (rv1, mv1) = spec_ppu_mem_written(rv, mv, a, data);
            if (rv0.mask & 0x08 != 0) && (rv0.scanline < 240 || rv0.scanline == 261) {
                let v1 = spec_increment_x(rv0.v, true);
                (PpuView { v: spec_increment_y(v1, true), ..rv1 }, mv1)
            } else {
                (spec_increment_vram(rv1), mv1)
            }
        } else {
            (rv, mv)
        }
    }
}

impl PPU {
    /// Step the VRAM address by the PPUCTRL-selected increment.
    pub(crate) fn increment_vram_addr(&mut self)
        requires
            old(self).wf(),
        ensures
            final(self).wf(),
            pipeline_eq(*final(self), *old(self)),
            final(self)@ == spec_increment_vram(old(self)@),
    {
        let inc: u8 = self.ctrl.vram_addr_increment();
        self.addr.increment(inc);
        self.v = self.v.wrapping_add(inc as u16);
    }

    /// Coarse-X increment of v, while the background is on.
    pub(crate) fn increment_x(&mut self)
        requires
            old(self).wf(),
        ensures
            final(self).wf(),
            pipeline_eq(*final(self), *old(self)),
            final(self)@ == (PpuView {
                v: spec_increment_x(old(self).v, old(self).mask.bits & 0x08 != 0),
                ..old(self)@
            }),
    {
        if self.mask.show_background() {
            if self.v & 0x001F == 31 {
                self.v = self.v & !0x001F;
                self.v = self.v ^ 0x0400;
            } else {
                self.v = self.v.wrapping_add(1);
            }
        }
    }

    /// Fine-Y increment of v at dot 256, while the background is on.
    pub(crate) fn increment_y(&mut self)
        requires
            old(self).wf(),
        ensures
            final(self).wf(),
            pipeline_eq(*final(self), *old(self)),
            final(self)@ == (PpuView {
                v: spec_increment_y(old(self).v, old(self).mask.bits & 0x08 != 0),
                ..old(self)@
            }),
    {
        if self.mask.show_background() {
            if (self.v & 0x7000) != 0x7000 {
                self.v = self.v.wrapping_add(0x1000);
            } else {
                self.v = self.v & !0x7000;
                let y: u16 = (self.v & 0x03E0) >> 5;
                if y == 29 {
                    self.v = self.v ^ 0x0800;
                    self.v = (self.v & !0x03E0) | (0u16 << 5);
                } else if y == 31 {
                    self.v = (self.v & !0x03E0) | (0u16 << 5);
                } else {
                    self.v = (self.v & !0x03E0) | (y.wrapping_add(1) << 5);
                }
            }
        }
    }

    /// Copy the horizontal bits from t to v, while the background is
    /// on.
    pub(crate) fn transfer_x(&mut self)
        requires
            old(self).wf(),
        ensures
            final(self).wf(),
            pipeline_eq(*final(self), *old(self)),
            final(self)@ == (PpuView {
                v: spec_transfer_x(old(self).v, old(self).t, old(self).mask.bits & 0x08 != 0),
                ..old(self)@
            }),
    {
        if self.mask.show_background() {
            self.v = self.v & 0x7BE0 | self.t & 0x041F;
        }
    }

    /// Copy the vertical bits from t to v, while the background is on.
    pub(crate) fn transfer_y(&mut self)
        requires
            old(self).wf(),
        ensures
            final(self).wf(),
            pipeline_eq(*final(self), *old(self)),
            final(self)@ == (PpuView {
                v: spec_transfer_y(old(self).v, old(self).t, old(self).mask.bits & 0x08 != 0),
                ..old(self)@
            }),
    {
        if self.mask.show_background() {
            self.v = self.v & 0x041F | self.t & 0x7BE0;
        }
    }

    /// A CPU read of a PPU port (0x2000-0x3FFF, mirrored every eight
    /// bytes).
    pub fn cpu_read(&mut self, rom: &ROM, address: u16) -> (r: u8)
        requires
            old(self).wf(),
            rom.wf(),
        ensures
            final(self).wf(),
            pipeline_eq(*final(self), *old(self)),
            final(self).frame_count == old(self).frame_count,
            (r, final(self)@) == spec_cpu_read(old(self)@, rom.mapper@, address),
    {
        if !(0x2000 <= address && address <= 0x3FFF) {
            return self.data_bus;
        }
        let port: u16 = address & 0x0007;
        if port == 2 {
            let mut data: u8 = self.status.snapshot();
            data = data & 0xE0;
            data = data | (self.data_bus & 0x1F);
            self.status.reset_vblank_status();
            self.scroll.reset_latch();
            self.addr.reset_latch();
            self.w = false;
            if self.scanline == 241 && self.cycle == 0 {
                self.suppress_vbl = true;
            }
            self.data_bus = self.data_bus | (data & 0xE0);
            data
        } else if port == 4 {
            self.oam_data[self.oam_addr as usize]
        } else if port == 7 {
            let a: u16 = self.v & 0x3FFF;
            self.increment_vram_addr();
            if a >= 0x3F00 {
                let i: usize = self.mirror_nametable(a) as usize;
                self.vram_buffer = if i < 2048 {
                    self.vram[i]
                } else {
                    0
                };
                self.mem_read(rom, a)
            } else {
                let result: u8 = self.vram_buffer;
                self.vram_buffer = self.mem_read(rom, a);
                result
            }
        } else {
            self.data_bus
        }
    }

    /// A CPU write to a PPU port (0x2000-0x3FFF, mirrored every eight
    /// bytes); PPUDATA writes go through to PPU memory and may reach
    /// CHR-RAM on the cartridge.
    pub fn cpu_write(&mut self, rom: &mut ROM, address: u16, data: u8)
        requires
            old(self).wf(),
            old(rom).wf(),
        ensures
            final(self).wf(),
            final(rom).wf(),
            pipeline_eq(*final(self), *old(self)),
            final(rom).prg_rom@ == old(rom).prg_rom@,
            final(rom).chr_rom@ == old(rom).chr_rom@,
            final(rom).mirroring == old(rom).mirroring,
            final(self).frame_count == old(self).frame_count,
            (final(self)@, final(rom).mapper@) == spec_cpu_write(
                old(self)@,
                old(rom).mapper@,
                address,
                data,
            ),
    {
        self.data_bus = data;
        if !(0x2000 <= address && address <= 0x3FFF) {
            return ;
        }
        let port: u16 = address & 0x0007;
        if port == 0 {
            let before_nmi_status: bool = self.ctrl.generate_vblank_nmi();
            self.ctrl.update(data);
            self.t = (self.t & 0xF3FF) | (((data & 0x03) as u16) << 10);
            let updated_nmi_status: bool = self.ctrl.generate_vblank_nmi();
            if !before_nmi_status && updated_nmi_status && self.status.is_in_vblank() {
                self.nmi_interrupt = Some(1);
            }
        } else if port == 1 {
            self.mask.update(data);
        } else if port == 3 {
            self.oam_addr = data;
        } else if port == 4 {
            self.oam_data.set(self.oam_addr as usize, data);
            self.oam_addr = self.oam_addr.wrapping_add(1);
        } else if port == 5 {
            proof {
                crate::bits::lemma_u8_mask_bound();
            }
            self.scroll.write(data);
            if !self.w {
                self.t = (self.t & 0x7FE0) | (data as u16 >> 3);
                self.fine_x = data & 0x07;
                self.w = true;
            } else {
                self.t = (self.t & 0x0C1F) | (((data & 0x07) as u16) << 12) | (((data
                    & 0xF8) as u16) << 2);
                self.w = false;
            }
        } else if port == 6 {
            self.addr.update(data);
            if !self.w {
                self.t = (self.t & 0x00FF) | (((data & 0x3F) as u16) << 8);
                self.w = true;
            } else {
                self.t = (self.t & 0xFF00) | data as u16;
                self.v = self.t;
                self.w = false;
            }
        } else if port == 7 {
            let a: u16 = self.v & 0x3FFF;
            self.mem_write(rom, a, data);
            if self.mask.show_background() && (self.scanline < 240 || self.scanline == 261) {
                self.increment_x();
                self.increment_y();
            } else {
                self.increment_vram_addr();
            }
        }
    }
}



/// Reverse the bit order of a byte (for horizontally flipped sprites).
pub fn flip_byte(b: u8) -> (r: u8)
    ensures
        r == spec_flip_byte(b),
{
    let b1: u8 = (b & 0xF0) >> 4 | (b & 0x0F) << 4;
    let b2: u8 = (b1 & 0xCC) >> 2 | (b1 & 0x33) << 2;
    (b2 & 0xAA) >> 1 | (b2 & 0x55) << 1
}

/// The byte with its bits reversed, by the three swap stages the
/// implementation uses.
pub open spec fn spec_flip_byte(b: u8) -> u8 {
    let b1 = (b & 0xF0) >> 4 | (b & 0x0F) << 4;
    let b2 = (b1 & 0xCC) >> 2 | (b1 & 0x33) << 2;
    (b2 & 0xAA) >> 1 | (b2 & 0x55) << 1
}

impl PPU {
    /// The nametable byte the current v selects.
    pub(crate) fn fetch_nametable_byte(&self, rom: &ROM) -> (r: u8)
        requires
            self.wf(),
            rom.wf(),
        ensures
            r == spec_ppu_mem_read(self@, rom.mapper@, 0x2000 | (self.v & 0x0FFF)),
    {
        let addr: u16 = 0x2000 | (self.v & 0x0FFF);
        self.mem_read(rom, addr)
    }

    /// The 2-bit palette selection for the tile the current v selects,
    /// extracted from its attribute byte.
    pub(crate) fn fetch_attribute_table_byte(&self, rom: &ROM) -> (r: u8)
        requires
            self.wf(),
            rom.wf(),
        ensures
            r <= 3,
    {
        proof {
            crate::bits::lemma_u16_mask_bound();
            crate::bits::lemma_u8_mask_bound();
        }
        let addr: u16 = 0x23C0 | (self.v & 0x0C00) | ((self.v >> 4) & 0x38) | ((self.v >> 2)
            & 0x07);
        let attr_byte: u8 = self.mem_read(rom, addr);
        let shift: u16 = ((self.v >> 4) & 4) | (self.v & 2);
        proof {
            crate::bits::lemma_u16_or_bound();
        }
        (attr_byte >> (shift as u8)) & 3
    }

    /// The low bit-plane byte of the background tile row v selects.
    pub(crate) fn fetch_bg_tile_lo(&self, rom: &ROM) -> (r: u8)
        requires
            self.wf(),
            rom.wf(),
    {
        proof {
            crate::bits::lemma_u16_mask_bound();
        }
        let fine_y: u16 = (self.v >> 12) & 7;
        let table: u16 = self.ctrl.bknd_pattern_addr();
        let tile: u16 = self.nametable_byte as u16;
        let addr: u16 = table + fine_y + (tile * 16);
        self.mem_read(rom, addr)
    }

    /// The high bit-plane byte of the background tile row v selects.
    pub(crate) fn fetch_bg_tile_high(&self, rom: &ROM) -> (r: u8)
        requires
            self.wf(),
            rom.wf(),
    {
        proof {
            crate::bits::lemma_u16_mask_bound();
        }
        let fine_y: u16 = (self.v >> 12) & 7;
        let table: u16 = self.ctrl.bknd_pattern_addr();
        let tile: u16 = self.nametable_byte as u16;
        let addr: u16 = table + fine_y + (tile * 16) + 8;
        self.mem_read(rom, addr)
    }

    /// Reload the low bytes of the background shift registers from the
    /// fetch latches.
    pub(crate) fn load_shift_registers(&mut self)
        requires
            old(self).wf(),
        ensures
            final(self).wf(),
            final(self)@ == old(self)@,
            final(self).frame.data@ == old(self).frame.data@,
            final(self).frame.width == old(self).frame.width,
            final(self).frame.height == old(self).frame.height,
            final(self).secondary_oam_data@ == old(self).secondary_oam_data@,
    {
        self.bg_shifter_pattern_lo = (self.bg_shifter_pattern_lo & 0xFF00) | self.bg_tile_lo
            as u16;
        self.bg_shifter_pattern_hi = (self.bg_shifter_pattern_hi & 0xFF00) | self.bg_tile_hi
            as u16;
        self.bg_shifter_attrib_lo = self.bg_shifter_attrib_lo & 0xFF00;
        if self.attribute_byte & 0b01 != 0 {
            self.bg_shifter_attrib_lo = self.bg_shifter_attrib_lo | 0xFF;
        }
        self.bg_shifter_attrib_hi = self.bg_shifter_attrib_hi & 0xFF00;
        if self.attribute_byte & 0b10 != 0 {
            self.bg_shifter_attrib_hi = self.bg_shifter_attrib_hi | 0xFF;
        }
    }

    /// Step the background shifters one bit, and the per-sprite X
    /// countdowns and pattern shifters.
    pub(crate) fn update_shift_registers(&mut self)
        requires
            old(self).wf(),
        ensures
            final(self).wf(),
            final(self)@ == old(self)@,
            final(self).frame.data@ == old(self).frame.data@,
            final(self).frame.width == old(self).frame.width,
            final(self).frame.height == old(self).frame.height,
            final(self).secondary_oam_data@.len() == old(self).secondary_oam_data@.len(),
    {
        if self.mask.show_background() {
            self.bg_shifter_pattern_lo = self.bg_shifter_pattern_lo << 1;
            self.bg_shifter_pattern_hi = self.bg_shifter_pattern_hi << 1;
            self.bg_shifter_attrib_lo = self.bg_shifter_attrib_lo << 1;
            self.bg_shifter_attrib_hi = self.bg_shifter_attrib_hi << 1;
        }
        if self.mask.show_sprites() && self.cycle >= 2 && self.cycle < 258 {
            let mut i: usize = 0;
            while i < self.secondary_oam_data.len()
                invariant
                    self.wf(),
                    self@ == old(self)@,
                    self.frame.data@ == old(self).frame.data@,
                    self.frame.width == old(self).frame.width,
                    self.frame.height == old(self).frame.height,
                    self.secondary_oam_data@.len() == old(self).secondary_oam_data@.len(),
                decreases self.secondary_oam_data@.len() - i,
            {
                let mut sprite: Sprite = self.secondary_oam_data[i];
                if sprite.x > 0 {
                    sprite.x = sprite.x - 1;
                    self.secondary_oam_data.set(i, sprite);
                } else {
                    let lo: u8 = self.sprite_shifter_pattern_lo[i];
                    let hi: u8 = self.sprite_shifter_pattern_hi[i];
                    self.sprite_shifter_pattern_lo.set(i, lo << 1);
                    self.sprite_shifter_pattern_hi.set(i, hi << 1);
                }
                i = i + 1;
            }
        }
    }

    /// The fetch pipeline of one dot: latch reloads on phase 1, fetches
    /// on phases 3, 5, 7, and the coarse-X step on phase 0.
    pub(crate) fn fetch_internal_registers(&mut self, rom: &ROM)
        requires
            old(self).wf(),
            rom.wf(),
        ensures
            final(self).wf(),
            final(self)@ == (PpuView {
                v: if old(self).cycle as int % 8 == 0 {
                    spec_increment_x(old(self).v, old(self).mask.bits & 0x08 != 0)
                } else {
                    old(self).v
                },
                ..old(self)@
            }),
            final(self).frame.data@ == old(self).frame.data@,
            final(self).frame.width == old(self).frame.width,
            final(self).frame.height == old(self).frame.height,
            final(self).secondary_oam_data@ == old(self).secondary_oam_data@,
    {
        let phase: usize = self.cycle % 8;
        if phase == 1 {
            self.load_shift_registers();
            self.nametable_byte = self.fetch_nametable_byte(rom);
        } else if phase == 3 {
            self.attribute_byte = self.fetch_attribute_table_byte(rom);
        } else if phase == 5 {
            self.bg_tile_lo = self.fetch_bg_tile_lo(rom);
        } else if phase == 7 {
            self.bg_tile_hi = self.fetch_bg_tile_high(rom);
        } else if phase == 0 {
            self.increment_x();
        }
    }

    /// Secondary-OAM sprite evaluation at dot 257: scan the 64 OAM
    /// entries in order, keep the first eight in range of the next
    /// scanline, and raise the overflow flag if a ninth is found. Only
    /// the sprite-overflow status bit can change.
    pub(crate) fn sprite_evaluation(&mut self)
        requires
            old(self).wf(),
        ensures
            final(self).wf(),
            (PpuView { status: old(self)@.status, ..final(self)@ }) == old(self)@,
            final(self)@.status == old(self)@.status || final(self)@.status == old(self)@.status
                | SPRITE_OVERFLOW_BIT,
            final(self).frame.data@ == old(self).frame.data@,
            final(self).frame.width == old(self).frame.width,
            final(self).frame.height == old(self).frame.height,
    {
        if self.mask.rendering_enabled() {
            self.secondary_oam_data = Vec::new();
            let next_scanline: u16 = (self.scanline as u16) + 1;
            let sprite_size: u8 = self.ctrl.sprite_size();
            let mut overflowed: bool = false;
            let mut n: usize = 0;
            while n < 64 && !overflowed
                invariant
                    self.wf(),
                    (PpuView { status: old(self)@.status, ..self@ }) == old(self)@,
                    self@.status == old(self)@.status || self@.status == old(self)@.status
                        | SPRITE_OVERFLOW_BIT,
                    self.frame.data@ == old(self).frame.data@,
                    self.frame.width == old(self).frame.width,
                    self.frame.height == old(self).frame.height,
                    n <= 64,
                decreases 64 - n,
            {
                proof {
                    crate::bits::lemma_u8_or_idem();
                }
                let offset: usize = n * 4;
                let sprite_y: u16 = self.oam_data[offset] as u16 + 1;
                if next_scanline >= sprite_y && next_scanline - sprite_y < sprite_size as u16 {
                    if self.secondary_oam_data.len() >= 8 {
                        self.status.set_sprite_overflow(true);
                        overflowed = true;
                    } else {
                        let sprite = Sprite::from(self.oam_data.as_slice(), offset, n == 0);
                        self.secondary_oam_data.push(sprite);
                    }
                }
                n = n + 1;
            }
        }
    }

    /// The two bit-plane bytes of one tile row.
    pub(crate) fn read_pattern(&self, rom: &ROM, base: u16, tile_no: u8, fine_y: u8) -> (r: (
        u8,
        u8,
    ))
        requires
            self.wf(),
            rom.wf(),
            base <= 0x1000,
    {
        let tile_offset: u16 = (tile_no as u16) * 16 + fine_y as u16;
        let lo: u8 = self.mem_read(rom, base + tile_offset);
        let hi: u8 = self.mem_read(rom, base + tile_offset + 8);
        (lo, hi)
    }

    /// Sprite pattern fetch at dot 340: fill the sprite shifters for
    /// every sprite selected for the next scanline, honouring flips and
    /// 8x16 tile selection.
    pub(crate) fn load_sprites(&mut self, rom: &ROM)
        requires
            old(self).wf(),
            rom.wf(),
        ensures
            final(self).wf(),
            final(self)@ == old(self)@,
            final(self).frame.data@ == old(self).frame.data@,
            final(self).frame.width == old(self).frame.width,
            final(self).frame.height == old(self).frame.height,
    {
        if self.mask.show_sprites() {
            let next_scanline: u16 = (self.scanline as u16) + 1;
            let sprite_height: u8 = self.ctrl.sprite_size();
            let mut i: usize = 0;
            while i < self.secondary_oam_data.len()
                invariant
                    self.wf(),
                    rom.wf(),
                    self@ == old(self)@,
                    self.frame.data@ == old(self).frame.data@,
                    self.frame.width == old(self).frame.width,
                    self.frame.height == old(self).frame.height,
                    sprite_height == 8 || sprite_height == 16,
                decreases self.secondary_oam_data@.len() - i,
            {
                let sprite: Sprite = self.secondary_oam_data[i];
                let fine_y0: u8 = next_scanline.wrapping_sub(sprite.y) as u8;
                let flipped_y: u8 = if sprite.flip_v() {
                    (sprite_height - 1).wrapping_sub(fine_y0)
                } else {
                    fine_y0
                };
                let pattern_table: u16;
                let tile: u8;
                let fine_y: u8;
                if sprite_height == 16 {
                    proof {
                        crate::bits::lemma_u8_mask_bound();
                    }
                    let bottom_tile: bool = flipped_y > 7;
                    pattern_table = sprite.pattern_table_8x16();
                    tile = if bottom_tile {
                        sprite.tile_number_8x16() + 1
                    } else {
                        sprite.tile_number_8x16()
                    };
                    fine_y = if bottom_tile {
                        flipped_y - 8
                    } else {
                        flipped_y
                    };
                } else {
                    pattern_table = self.ctrl.sprt_pattern_addr();
                    tile = sprite.tile;
                    fine_y = flipped_y;
                }
                let (lo0, hi0) = self.read_pattern(rom, pattern_table, tile, fine_y);
                let lo: u8 = if sprite.flip_h() {
                    flip_byte(lo0)
                } else {
                    lo0
                };
                let hi: u8 = if sprite.flip_h() {
                    flip_byte(hi0)
                } else {
                    hi0
                };
                self.sprite_shifter_pattern_lo.set(i, lo);
                self.sprite_shifter_pattern_hi.set(i, hi);
                i = i + 1;
            }
        }
    }

    /// The background contribution at the current dot: a 2-bit pixel
    /// and a 2-bit palette selection from the shifters, masked in the
    /// leftmost column unless enabled.
    pub(crate) fn render_background(&self) -> (r: (u8, u8))
        requires
            self.wf(),
        ensures
            r == spec_render_background(*self),
            r.0 <= 3,
            r.1 <= 3,
    {
        let mut bg_pixel: u8 = 0;
        let mut bg_palette: u8 = 0;
        if self.mask.show_background() && (self.cycle >= 8 || self.mask.leftmost_8pxl_background()) {
            let bit_mux: u16 = 0x8000 >> self.fine_x;
            let p0_pixel: u8 = if (self.bg_shifter_pattern_lo & bit_mux) > 0 {
                1
            } else {
                0
            };
            let p1_pixel: u8 = if (self.bg_shifter_pattern_hi & bit_mux) > 0 {
                1
            } else {
                0
            };
            bg_pixel = 2 * p1_pixel + p0_pixel;
            let palette0_pixel: u8 = if (self.bg_shifter_attrib_lo & bit_mux) > 0 {
                1
            } else {
                0
            };
            let palette1_pixel: u8 = if (self.bg_shifter_attrib_hi & bit_mux) > 0 {
                1
            } else {
                0
            };
            bg_palette = 2 * palette1_pixel + palette0_pixel;
        }
        (bg_pixel, bg_palette)
    }

    /// The sprite contribution at the current dot: the first sprite in
    /// OAM order whose shifter yields a non-transparent pixel wins.
    /// Returns (pixel, palette, in-front priority, is sprite zero).
    pub(crate) fn render_foreground(&self) -> (r: (u8, u8, bool, bool))
        requires
            self.wf(),
        ensures
            r == spec_render_foreground(*self),
            r.0 <= 3,
            r.1 <= 7,
    {
        let mut fg_pixel: u8 = 0;
        let mut fg_palette: u8 = 0;
        let mut fg_priority: bool = false;
        let mut is_sprite_0: bool = false;
        if self.mask.show_sprites() && (self.cycle >= 8 || self.mask.leftmost_8pxl_sprite()) {
            let mut i: usize = 0;
            let mut found: bool = false;
            while i < self.secondary_oam_data.len() && !found
                invariant
                    self.wf(),
                    i <= self.secondary_oam_data@.len(),
                    fg_pixel <= 3,
                    fg_palette <= 7,
                    !found ==> spec_fg_scan(
                        *self,
                        i as int,
                        (fg_pixel, fg_palette, fg_priority, is_sprite_0),
                    ) == spec_fg_scan(*self, 0, (0u8, 0u8, false, false)),
                    found ==> (fg_pixel, fg_palette, fg_priority, is_sprite_0) == spec_fg_scan(
                        *self,
                        0,
                        (0u8, 0u8, false, false),
                    ),
                decreases self.secondary_oam_data@.len() - i,
            {
                let sprite: Sprite = self.secondary_oam_data[i];
                if sprite.x == 0 {
                    let lo_bit: u8 = if (self.sprite_shifter_pattern_lo[i] & 0x80) > 0 {
                        1
                    } else {
                        0
                    };
                    let hi_bit: u8 = if (self.sprite_shifter_pattern_hi[i] & 0x80) > 0 {
                        1
                    } else {
                        0
                    };
                    fg_pixel = 2 * hi_bit + lo_bit;
                    fg_palette = sprite.palette();
                    fg_priority = sprite.priority();
                    is_sprite_0 = sprite.is_sprite_0;
                    if fg_pixel != 0 {
                        found = true;
                    }
                }
                i = i + 1;
            }
        }
        (fg_pixel, fg_palette, fg_priority, is_sprite_0)
    }

    /// The palette-RAM colour of (palette, pixel).
    pub(crate) fn fetch_color_from_palette(&self, palette: u8, pixel: u8) -> (r: u8)
        requires
            self.wf(),
            palette <= 7,
            pixel <= 3,
        ensures
            r == self@.palette[spec_mirror_palette((0x3F00 + palette * 4 + pixel) as u16)],
    {
        let palette_addr: u16 = 0x3F00 + (palette as u16) * 4 + (pixel as u16);
        let i: usize = self.mirror_palette(palette_addr);
        self.palette_table[i]
    }

    /// Compose the background and sprite pixels at the current dot,
    /// record a sprite-zero hit when both are opaque, and write the RGB
    /// result into the frame: the buffer gains exactly the composed
    /// colour at (dot - 1, scanline), and of the registers exactly the
    /// sprite-zero-hit bit moves, as the composition dictates.
    pub(crate) fn render_pixel(&mut self)
        requires
            old(self).wf(),
            old(self).cycle >= 1,
        ensures
            final(self).wf(),
            final(self)@ == (PpuView {
                status: spec_sprite_zero_status(*old(self)),
                ..old(self)@
            }),
            final(self).secondary_oam_data@ == old(self).secondary_oam_data@,
            final(self).sprite_shifter_pattern_lo@ == old(self).sprite_shifter_pattern_lo@,
            final(self).sprite_shifter_pattern_hi@ == old(self).sprite_shifter_pattern_hi@,
            final(self).bg_shifter_pattern_lo == old(self).bg_shifter_pattern_lo,
            final(self).bg_shifter_pattern_hi == old(self).bg_shifter_pattern_hi,
            final(self).bg_shifter_attrib_lo == old(self).bg_shifter_attrib_lo,
            final(self).bg_shifter_attrib_hi == old(self).bg_shifter_attrib_hi,
            final(self).frame.width == old(self).frame.width,
            final(self).frame.height == old(self).frame.height,
            final(self).frame.data@ == old(self).frame.spec_set_pixel(
                old(self)@.cycle - 1,
                old(self)@.scanline,
                crate::palette::spec_system_palette(spec_render_color(*old(self))),
            ),
    {
        let (bg_pixel, bg_palette) = self.render_background();
        let (fg_pixel, fg_palette, fg_priority, is_sprite_0) = self.render_foreground();
        let mut pixel: u8 = 0;
        let mut palette: u8 = 0;
        if bg_pixel == 0 && fg_pixel == 0 {
            // both transparent: universal background colour
        } else if bg_pixel == 0 && fg_pixel > 0 {
            pixel = fg_pixel;
            palette = fg_palette;
        } else if bg_pixel > 0 && fg_pixel == 0 {
            pixel = bg_pixel;
            palette = bg_palette;
        } else {
            if fg_priority {
                pixel = fg_pixel;
                palette = fg_palette;
            } else {
                pixel = bg_pixel;
                palette = bg_palette;
            }
            if self.mask.rendering_enabled() && self.cycle != 255 {
                self.status.set_sprite_zero_hit(is_sprite_0);
            }
        }
        let mut color: u8 = self.fetch_color_from_palette(palette, pixel);
        if self.mask.is_grayscale() {
            color = color & 0x30;
        }
        let rgb = crate::palette::system_palette(color);
        let x: usize = self.cycle - 1;
        let y: usize = self.scanline;
        self.frame.set_pixel(x, y, rgb);
    }

    /// Advance the PPU by one dot. Returns true exactly when the frame
    /// wrapped past the pre-render line, i.e. a frame just completed.
    #[verifier::rlimit(100)]
    #[verifier::spinoff_prover]
    pub fn tick(&mut self, rom: &ROM) -> (frame_complete: bool)
        requires
            old(self).wf(),
            rom.wf(),
        ensures
            final(self).wf(),
            // the dot/scanline automaton, including the odd-frame skip
            ({
                let (s, c, wrapped) = spec_tick_counters(
                    old(self)@.scanline,
                    old(self)@.cycle,
                    old(self).mask.bits & 0x18 != 0,
                    old(self).odd_frame,
                );
                &&& final(self)@.scanline == s
                &&& final(self)@.cycle == c
                &&& frame_complete == wrapped
                &&& final(self).odd_frame == (if wrapped {
                    !old(self).odd_frame
                } else {
                    old(self).odd_frame
                })
                &&& final(self)@.frame_count == if wrapped && old(self)@.frame_count
                    < usize::MAX {
                    old(self)@.frame_count + 1
                } else {
                    old(self)@.frame_count
                }
            }),
            // a tick never touches the memories or the CPU-written registers
            final(self)@.vram == old(self)@.vram,
            final(self)@.palette == old(self)@.palette,
            final(self)@.oam == old(self)@.oam,
            final(self)@.oam_addr == old(self)@.oam_addr,
            final(self)@.ctrl == old(self)@.ctrl,
            final(self)@.mask == old(self)@.mask,
            final(self)@.scroll == old(self)@.scroll,
            final(self)@.addr == old(self)@.addr,
            final(self)@.t == old(self)@.t,
            final(self)@.fine_x == old(self)@.fine_x,
            final(self)@.w == old(self)@.w,
            final(self)@.vram_buffer == old(self)@.vram_buffer,
            final(self)@.data_bus == old(self)@.data_bus,
            final(self)@.mirroring == old(self)@.mirroring,
            // with the background off, the scroll address is untouched
            old(self).mask.bits & 0x08 == 0 ==> final(self).v == old(self).v,
            // vblank is raised (and an NMI latched if enabled) at dot 1
            // of scanline 241, unless suppressed by a PPUSTATUS race
            old(self)@.scanline == 241 && old(self)@.cycle == 1 ==> (if !old(self).suppress_vbl {
                final(self)@.status == old(self)@.status | VBLANK_BIT && final(self)@.nmi == (
                if old(self).ctrl.bits & 0x80 != 0 {
                    Some(1u8)
                } else {
                    old(self)@.nmi
                })
            } else {
                final(self)@.status == old(self)@.status && final(self)@.nmi == old(self)@.nmi
            }),
            // everything vblank-related is cleared at dot 1 of the
            // pre-render line
            old(self)@.scanline == 261 && old(self)@.cycle == 1 ==> ({
                &&& final(self)@.status == old(self)@.status & !VBLANK_BIT & !SPRITE_ZERO_HIT_BIT
                    & !SPRITE_OVERFLOW_BIT
                &&& final(self)@.nmi is None
                &&& final(self).suppress_vbl == false
            }),
            // no other dot changes the NMI line or the suppression flag
            !(old(self)@.scanline == 241 && old(self)@.cycle == 1) && !(old(self)@.scanline == 261
                && old(self)@.cycle == 1) ==> ({
                &&& final(self)@.nmi == old(self)@.nmi
                &&& final(self).suppress_vbl == old(self).suppress_vbl
            }),
            // the frame buffer changes only under the rendered dot of a
            // visible scanline, and nowhere else
            old(self)@.scanline <= 239 && 1 <= old(self)@.cycle <= 256
                ==> crate::frame::frame_changed_at_most_at(
                old(self).frame,
                final(self).frame,
                old(self)@.cycle - 1,
                old(self)@.scanline,
            ),
            !(old(self)@.scanline <= 239 && 1 <= old(self)@.cycle <= 256) ==> ({
                &&& final(self).frame.data@ == old(self).frame.data@
                &&& final(self).frame.width == old(self).frame.width
                &&& final(self).frame.height == old(self).frame.height
            }),
    {
        if self.cycle == 0 {
            // idle dot
        } else if self.scanline == 261 {
            if self.cycle <= 256 {
                if self.cycle == 1 {
                    self.status.reset_vblank_status();
                    self.status.set_sprite_zero_hit(false);
                    self.status.set_sprite_overflow(false);
                    self.nmi_interrupt = None;
                    self.suppress_vbl = false;
                    self.sprite_shifter_pattern_lo = vec![0u8; 8];
                    self.sprite_shifter_pattern_hi = vec![0u8; 8];
                    proof {
                        crate::bits::lemma_u8_andnot_preserves();
                        crate::bits::lemma_u8_andnot_clears();
                        crate::bits::lemma_u8_and_comm();
                        crate::bits::lemma_flag_pairs();
                    }
                }
                self.fetch_internal_registers(rom);
                if self.cycle == 256 {
                    self.increment_y();
                }
            } else if self.cycle == 257 {
                self.transfer_x();
            } else if 280 <= self.cycle && self.cycle <= 304 {
                self.transfer_y();
            } else if 321 <= self.cycle && self.cycle <= 336 {
                self.update_shift_registers();
                self.fetch_internal_registers(rom);
            } else if self.cycle == 337 {
                let _ = self.fetch_nametable_byte(rom);
            } else if self.cycle == 339 {
                let _ = self.fetch_nametable_byte(rom);
                // the odd-frame skip: jump straight to the wrap, so the
                // last nametable fetch replaces the idle dot of (0, 0)
                if self.mask.rendering_enabled() && self.odd_frame {
                    self.cycle = 340;
                }
            }
        } else if self.scanline <= 239 {
            if self.cycle <= 256 {
                self.update_shift_registers();
                self.fetch_internal_registers(rom);
                if self.cycle == 256 {
                    self.increment_y();
                }
                let ghost mid = *self;
                self.render_pixel();
                proof {
                    crate::frame::lemma_set_pixel_local(
                        mid.frame,
                        mid@.cycle - 1,
                        mid@.scanline,
                        crate::palette::spec_system_palette(spec_render_color(mid)),
                        self.frame,
                    );
                }
            } else if self.cycle == 257 {
                self.transfer_x();
                self.update_shift_registers();
                self.sprite_evaluation();
            } else if 321 <= self.cycle && self.cycle <= 336 {
                self.update_shift_registers();
                self.fetch_internal_registers(rom);
            } else if self.cycle == 337 || self.cycle == 339 {
                let _ = self.fetch_nametable_byte(rom);
            } else if self.cycle == 340 {
                self.load_sprites(rom);
            }
        } else if self.scanline == 241 && self.cycle == 1 {
            if !self.suppress_vbl {
                self.status.set_vblank_status(true);
                if self.ctrl.generate_vblank_nmi() {
                    self.nmi_interrupt = Some(1);
                }
            }
        }
        self.cycle = self.cycle + 1;
        if self.cycle > 340 {
            self.cycle = 0;
            self.scanline = self.scanline + 1;
            if self.scanline > 261 {
                self.scanline = 0;
                // a saturating statistic: practically unreachable bound
                if self.frame_count < usize::MAX {
                    self.frame_count = self.frame_count + 1;
                }
                self.odd_frame = !self.odd_frame;
                return true;
            }
        }
        false
    }
}


} // verus!

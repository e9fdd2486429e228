//! The PPU's CPU-visible register file (PPUCTRL, PPUMASK, PPUSTATUS,
//! PPUSCROLL, PPUADDR) and the sprite descriptor the evaluator copies
//! out of OAM.

use vstd::prelude::*;

verus! {

pub const VBLANK_BIT: u8 = 0x80;

pub const SPRITE_ZERO_HIT_BIT: u8 = 0x40;

pub const SPRITE_OVERFLOW_BIT: u8 = 0x20;

/// PPUCTRL: base nametable, VRAM increment, pattern table selects,
/// sprite size, NMI enable.
#[derive(Clone, Copy, Debug, PartialEq, Eq, Structural)]
pub struct ControlRegister {
    pub bits: u8,
}

impl ControlRegister {
    pub fn new() -> (r: ControlRegister)
        ensures
            r.bits == 0,
    {
        ControlRegister { bits: 0 }
    }

    pub fn update(&mut self, data: u8)
        ensures
            final(self).bits == data,
    {
        self.bits = data;
    }

    /// How much a PPUDATA access moves the VRAM address: 1, or 32 when
    /// bit 2 is set.
    pub fn vram_addr_increment(&self) -> (r: u8)
        ensures
            r == (if self.bits & 0x04 != 0 {
                32u8
            } else {
                1u8
            }),
    {
        if self.bits & 0x04 != 0 {
            32
        } else {
            1
        }
    }

    /// The background pattern table base: 0x0000 or 0x1000 by bit 4.
    pub fn bknd_pattern_addr(&self) -> (r: u16)
        ensures
            r == (if self.bits & 0x10 != 0 {
                0x1000u16
            } else {
                0x0000u16
            }),
    {
        if self.bits & 0x10 != 0 {
            0x1000
        } else {
            0x0000
        }
    }

    /// The sprite pattern table base for 8x8 sprites: bit 3.
    pub fn sprt_pattern_addr(&self) -> (r: u16)
        ensures
            r == (if self.bits & 0x08 != 0 {
                0x1000u16
            } else {
                0x0000u16
            }),
    {
        if self.bits & 0x08 != 0 {
            0x1000
        } else {
            0x0000
        }
    }

    /// Sprite height: 8, or 16 when bit 5 is set.
    pub fn sprite_size(&self) -> (r: u8)
        ensures
            r == (if self.bits & 0x20 != 0 {
                16u8
            } else {
                8u8
            }),
    {
        if self.bits & 0x20 != 0 {
            16
        } else {
            8
        }
    }

    /// Whether an NMI is raised at the start of vblank: bit 7.
    pub fn generate_vblank_nmi(&self) -> (r: bool)
        ensures
            r == (self.bits & 0x80 != 0),
    {
        self.bits & 0x80 != 0
    }
}

/// PPUMASK: greyscale, leftmost-column enables, background/sprite
/// enables, emphasis bits.
#[derive(Clone, Copy, Debug, PartialEq, Eq, Structural)]
pub struct MaskRegister {
    pub bits: u8,
}

impl MaskRegister {
    pub fn new() -> (r: MaskRegister)
        ensures
            r.bits == 0,
    {
        MaskRegister { bits: 0 }
    }

    pub fn update(&mut self, data: u8)
        ensures
            final(self).bits == data,
    {
        self.bits = data;
    }

    pub fn is_grayscale(&self) -> (r: bool)
        ensures
            r == (self.bits & 0x01 != 0),
    {
        self.bits & 0x01 != 0
    }

    /// Whether the leftmost 8 background pixels are shown: bit 1.
    pub fn leftmost_8pxl_background(&self) -> (r: bool)
        ensures
            r == (self.bits & 0x02 != 0),
    {
        self.bits & 0x02 != 0
    }

    /// Whether the leftmost 8 sprite pixels are shown: bit 2.
    pub fn leftmost_8pxl_sprite(&self) -> (r: bool)
        ensures
            r == (self.bits & 0x04 != 0),
    {
        self.bits & 0x04 != 0
    }

    pub fn show_background(&self) -> (r: bool)
        ensures
            r == (self.bits & 0x08 != 0),
    {
        self.bits & 0x08 != 0
    }

    pub fn show_sprites(&self) -> (r: bool)
        ensures
            r == (self.bits & 0x10 != 0),
    {
        self.bits & 0x10 != 0
    }

    /// Rendering is enabled when either layer is shown.
    pub fn rendering_enabled(&self) -> (r: bool)
        ensures
            r == (self.bits & 0x18 != 0),
    {
        self.bits & 0x18 != 0
    }
}

/// PPUSTATUS: vblank, sprite-zero hit and sprite overflow in the top
/// three bits.
#[derive(Clone, Copy, Debug, PartialEq, Eq, Structural)]
pub struct StatusRegister {
    pub bits: u8,
}

impl StatusRegister {
    pub fn new() -> (r: StatusRegister)
        ensures
            r.bits == 0,
    {
        StatusRegister { bits: 0 }
    }

    pub fn snapshot(&self) -> (r: u8)
        ensures
            r == self.bits,
    {
        self.bits
    }

    pub fn set_vblank_status(&mut self, on: bool)
        ensures
            final(self).bits == (if on {
                old(self).bits | VBLANK_BIT
            } else {
                old(self).bits & !VBLANK_BIT
            }),
    {
        if on {
            self.bits = self.bits | VBLANK_BIT;
        } else {
            self.bits = self.bits & !VBLANK_BIT;
        }
    }

    pub fn reset_vblank_status(&mut self)
        ensures
            final(self).bits == old(self).bits & !VBLANK_BIT,
    {
        self.bits = self.bits & !VBLANK_BIT;
    }

    pub fn is_in_vblank(&self) -> (r: bool)
        ensures
            r == (self.bits & VBLANK_BIT != 0),
    {
        self.bits & VBLANK_BIT != 0
    }

    pub fn set_sprite_zero_hit(&mut self, on: bool)
        ensures
            final(self).bits == (if on {
                old(self).bits | SPRITE_ZERO_HIT_BIT
            } else {
                old(self).bits & !SPRITE_ZERO_HIT_BIT
            }),
    {
        if on {
            self.bits = self.bits | SPRITE_ZERO_HIT_BIT;
        } else {
            self.bits = self.bits & !SPRITE_ZERO_HIT_BIT;
        }
    }

    pub fn set_sprite_overflow(&mut self, on: bool)
        ensures
            final(self).bits == (if on {
                old(self).bits | SPRITE_OVERFLOW_BIT
            } else {
                old(self).bits & !SPRITE_OVERFLOW_BIT
            }),
    {
        if on {
            self.bits = self.bits | SPRITE_OVERFLOW_BIT;
        } else {
            self.bits = self.bits & !SPRITE_OVERFLOW_BIT;
        }
    }
}

/// The scroll register after one port write.
pub open spec fn spec_scroll_write(sr: ScrollRegister, data: u8) -> ScrollRegister {
    if sr.latch {
        ScrollRegister { scroll_y: data, latch: false, ..sr }
    } else {
        ScrollRegister { scroll_x: data, latch: true, ..sr }
    }
}

/// PPUSCROLL as software sees it: two writes latched in turn.
#[derive(Clone, Copy, Debug, PartialEq, Eq, Structural)]
pub struct ScrollRegister {
    pub scroll_x: u8,
    pub scroll_y: u8,
    pub latch: bool,
}

impl ScrollRegister {
    pub fn new() -> (r: ScrollRegister)
        ensures
            r == (ScrollRegister { scroll_x: 0, scroll_y: 0, latch: false }),
    {
        ScrollRegister { scroll_x: 0, scroll_y: 0, latch: false }
    }

    pub fn write(&mut self, data: u8)
        ensures
            *final(self) == spec_scroll_write(*old(self), data),
    {
        if !self.latch {
            self.scroll_x = data;
        } else {
            self.scroll_y = data;
        }
        self.latch = !self.latch;
    }

    pub fn reset_latch(&mut self)
        ensures
            *final(self) == (ScrollRegister { latch: false, ..*old(self) }),
    {
        self.latch = false;
    }
}

/// The address register after one port write.
pub open spec fn spec_addr_update(ar: AddrRegister, data: u8) -> AddrRegister {
    if ar.hi_ptr {
        AddrRegister { value_hi: data & 0x3F, hi_ptr: false, ..ar }
    } else {
        AddrRegister { value_lo: data, hi_ptr: true, ..ar }
    }
}

/// The address register stepped by a PPUDATA access.
pub open spec fn spec_addr_increment(ar: AddrRegister, inc: u8) -> AddrRegister {
    let lo2 = ar.value_lo.wrapping_add(inc);
    let hi2 = if ar.value_lo > lo2 {
        ar.value_hi.wrapping_add(1)
    } else {
        ar.value_hi
    };
    AddrRegister { value_lo: lo2, value_hi: hi2 & 0x3F, hi_ptr: ar.hi_ptr }
}

/// PPUADDR as software sees it: high byte then low byte.
#[derive(Clone, Copy, Debug, PartialEq, Eq, Structural)]
pub struct AddrRegister {
    pub value_hi: u8,
    pub value_lo: u8,
    pub hi_ptr: bool,
}

impl AddrRegister {
    pub fn new() -> (r: AddrRegister)
        ensures
            r == (AddrRegister { value_hi: 0, value_lo: 0, hi_ptr: true }),
    {
        AddrRegister { value_hi: 0, value_lo: 0, hi_ptr: true }
    }

    /// The latched 14-bit address.
    pub open spec fn spec_get(self) -> u16 {
        ((self.value_hi as u16) << 8 | self.value_lo as u16) & 0x3FFF
    }

    pub fn get(&self) -> (r: u16)
        ensures
            r == self.spec_get(),
    {
        ((self.value_hi as u16) << 8 | self.value_lo as u16) & 0x3FFF
    }

    pub fn update(&mut self, data: u8)
        ensures
            *final(self) == spec_addr_update(*old(self), data),
    {
        if self.hi_ptr {
            self.value_hi = data & 0x3F;
        } else {
            self.value_lo = data;
        }
        self.hi_ptr = !self.hi_ptr;
    }

    pub fn increment(&mut self, inc: u8)
        ensures
            *final(self) == spec_addr_increment(*old(self), inc),
    {
        let lo: u8 = self.value_lo;
        self.value_lo = self.value_lo.wrapping_add(inc);
        if lo > self.value_lo {
            self.value_hi = self.value_hi.wrapping_add(1);
        }
        self.value_hi = self.value_hi & 0x3F;
    }

    pub fn reset_latch(&mut self)
        ensures
            *final(self) == (AddrRegister { hi_ptr: true, ..*old(self) }),
    {
        self.hi_ptr = true;
    }
}

/// One sprite as copied from OAM into secondary OAM: Y is stored plus
/// one, the attribute byte carries palette, priority and flips.
#[derive(Default, Copy, Clone, Debug, PartialEq, Eq, Structural)]
pub struct Sprite {
    pub tile: u8,
    pub attribute: u8,
    pub x: u8,
    pub y: u16,
    pub is_sprite_0: bool,
}

impl Sprite {
    /// Build a sprite from a 4-byte OAM entry starting at `offset`.
    pub fn from(data: &[u8], offset: usize, is_sprite_0: bool) -> (s: Sprite)
        requires
            offset + 4 <= data@.len(),
        ensures
            s == (Sprite {
                y: (data@[offset as int] as u16 + 1) as u16,
                tile: data@[offset as int + 1],
                attribute: data@[offset as int + 2],
                x: data@[offset as int + 3],
                is_sprite_0,
            }),
    {
        Sprite {
            y: data[offset] as u16 + 1,
            tile: data[offset + 1],
            attribute: data[offset + 2],
            x: data[offset + 3],
            is_sprite_0,
        }
    }

    /// Vertical flip: attribute bit 7.
    pub fn flip_v(&self) -> (r: bool)
        ensures
            r == (self.attribute & 0x80 == 0x80),
    {
        self.attribute & 0x80 == 0x80
    }

    /// Horizontal flip: attribute bit 6.
    pub fn flip_h(&self) -> (r: bool)
        ensures
            r == (self.attribute & 0x40 == 0x40),
    {
        self.attribute & 0x40 == 0x40
    }

    /// Whether the sprite is drawn in front of the background:
    /// attribute bit 5 clear.
    pub fn priority(&self) -> (r: bool)
        ensures
            r == (self.attribute & 0x20 != 0x20),
    {
        self.attribute & 0x20 != 0x20
    }

    /// The sprite's palette: the low attribute bits select one of the
    /// four sprite palettes (4 to 7).
    pub fn palette(&self) -> (r: u8)
        ensures
            r == (self.attribute & 0x3) + 0x04,
            4 <= r <= 7,
    {
        proof {
            crate::bits::lemma_u8_mask_bound();
        }
        (self.attribute & 0x3) + 0x04
    }

    /// In 8x16 mode the pattern table comes from tile bit 0.
    pub fn pattern_table_8x16(&self) -> (r: u16)
        ensures
            r == (self.tile & 0x01) as u16 * 0x1000,
    {
        proof {
            crate::bits::lemma_u8_mask_bound();
        }
        (self.tile & 0x01) as u16 * 0x1000
    }

    /// In 8x16 mode the tile index uses bits 7..1.
    pub fn tile_number_8x16(&self) -> (r: u8)
        ensures
            r == self.tile & 0xFE,
    {
        self.tile & 0xFE
    }
}

} // verus!

//! The console: one CPU wired to the console bus, an emulation status,
//! and the debug viewers (pattern tables, palette strip, nametable map)
//! a frontend may render between frames.

use vstd::prelude::*;

use crate::bus::Bus;
use crate::cpu::CPU;
use crate::frame::Frame;
use crate::joypad::JoypadButton;
use crate::rom::CartridgeError;
use crate::rom::Mirroring;
use crate::rom::ROM;

verus! {

/// Whether the console is currently emulating.
#[derive(Clone, Copy, Debug, PartialEq, Eq, Structural)]
pub enum EmulationStatus {
    Stopped,
    Running,
    Paused,
}

/// The console.
pub struct NES {
    pub cpu: CPU<Bus>,
    pub status: EmulationStatus,
}

/// One CHR byte of a console's inserted cartridge, 0 when absent or
/// out of range.
pub open spec fn spec_chr_byte(n: NES, index: int) -> u8 {
    match n.cpu.bus.rom {
        Some(r) => if 0 <= index < r.chr_rom@.len() {
            r.chr_rom@[index]
        } else {
            0
        },
        None => 0,
    }
}

/// The four colours the attribute table assigns to the 2x2-tile
/// quadrant holding (tx, ty) in the nametable at `nt_base`.
pub open spec fn spec_bg_palette(pal: Seq<u8>, vram: Seq<u8>, nt_base: int, tx: int, ty: int) -> (
    u8,
    u8,
    u8,
    u8,
) {
    let group = ty / 4 * 8 + tx / 4;
    let attribute_byte = vram[nt_base + 0x3C0 + group];
    let shift = ((if ty % 4 >= 2 {
        4u8
    } else {
        0u8
    }) + (if tx % 4 >= 2 {
        2u8
    } else {
        0u8
    })) as u8;
    let palette_idx = (attribute_byte >> shift) & 0x03;
    let palette_base = palette_idx as int * 4;
    (pal[0], pal[palette_base + 1], pal[palette_base + 2], pal[palette_base + 3])
}

/// Whether the inserted cartridge mirrors vertically, which decides the
/// nametable map's layout.
pub open spec fn spec_map_vertical(n: NES) -> bool {
    match n.cpu.bus.rom {
        Some(r) => r.mirroring == Mirroring::Vertical,
        None => false,
    }
}

/// One pixel of one rendered nametable: tile (qx/8, qy/8) of the table
/// at `nt * 0x400`, row qy % 8, column qx % 8, coloured through the
/// attribute table and the background pattern bank PPUCTRL selects.
pub open spec fn spec_nametable_sample(n: NES, nt: int, qx: int, qy: int) -> (u8, u8, u8) {
    let ppu = n.cpu.bus.ppu;
    let bank = if ppu.ctrl.bits & 0x10 != 0 {
        0x1000int
    } else {
        0int
    };
    let tx = qx / 8;
    let ty = qy / 8;
    let tile = ppu.vram@[nt * 0x400 + ty * 32 + tx] as int;
    let lower = spec_chr_byte(n, bank + tile * 16 + qy % 8);
    let upper = spec_chr_byte(n, bank + tile * 16 + qy % 8 + 8);
    let bitx = (7 - qx % 8) as u8;
    let value = (if (upper >> bitx) & 0x01 != 0 {
        2int
    } else {
        0int
    }) + (if (lower >> bitx) & 0x01 != 0 {
        1int
    } else {
        0int
    });
    let pals = spec_bg_palette(ppu.palette_table@, ppu.vram@, nt * 0x400, tx, ty);
    let color = if value == 0 {
        pals.0
    } else if value == 1 {
        pals.1
    } else if value == 2 {
        pals.2
    } else {
        pals.3
    };
    crate::palette::spec_system_palette(color)
}

/// The 512x480 nametable map: the mirrored pair is laid out
/// horizontally for vertical mirroring and vertically otherwise, each
/// physical table appearing twice.
pub open spec fn spec_nametable_map_pixel(n: NES, qx: int, qy: int) -> (u8, u8, u8) {
    let nt = if spec_map_vertical(n) {
        qx / 256
    } else {
        qy / 240
    };
    spec_nametable_sample(n, nt, qx % 256, qy % 240)
}

impl NES {
    /// The bus and everything on it are well-formed.
    pub open spec fn wf(self) -> bool {
        self.cpu.bus.wf()
    }

    /// A console with no cartridge, stopped.
    pub fn new() -> (nes: NES)
        ensures
            nes.wf(),
            nes.status == EmulationStatus::Stopped,
            nes.cpu.cycles == 0,
            nes.cpu.bus.ppu@.frame_count == 0,
    {
        let bus = Bus::new();
        let cpu = CPU::new(bus);
        NES { cpu, status: EmulationStatus::Stopped }
    }

    /// Run one CPU instruction and drive the PPU three dots per cycle;
    /// hand out the frame if one completed during this call. A frame
    /// comes back exactly when the PPU finished one during this call,
    /// and it is the PPU's frame buffer.
    pub fn emulate_frame(&mut self) -> (frame: Option<&Frame>)
        requires
            old(self).wf(),
            old(self).cpu.cycles <= u64::MAX - 100,
        ensures
            final(self).wf(),
            old(self).cpu.cycles + 1 <= final(self).cpu.cycles <= old(self).cpu.cycles + 100,
            final(self).status == old(self).status,
            // a frame is returned exactly when one completed this call
            frame is None ==> ({
                final(self).cpu.bus.ppu@.frame_count == old(self).cpu.bus.ppu@.frame_count
            }),
            old(self).cpu.bus.ppu@.frame_count < usize::MAX ==> (frame is Some <==> ({
                final(self).cpu.bus.ppu@.frame_count == old(self).cpu.bus.ppu@.frame_count + 1
            })),
            frame is Some ==> ({
                &&& final(self).cpu.bus.ppu.scanline == 0
                &&& final(self).cpu.bus.ppu.cycle == 0
            }),
            // the frame handed out is the PPU's frame buffer
            frame matches Some(f) ==> ({
                &&& f.width == final(self).cpu.bus.ppu.frame.width
                &&& f.height == final(self).cpu.bus.ppu.frame.height
                &&& f.data@ == final(self).cpu.bus.ppu.frame.data@
            }),
    {
        let cycles: u8 = self.cpu.run();
        self.cpu.bus.tick(cycles)
    }

    /// Record a host-side button press on the first controller.
    pub fn button_pressed(&mut self, key: JoypadButton, pressed: bool)
        requires
            old(self).wf(),
        ensures
            final(self).wf(),
            final(self).cpu.bus.joypad1 == old(self).cpu.bus.joypad1.spec_set_button(key, pressed),
            final(self).cpu.bus.joypad2 == old(self).cpu.bus.joypad2,
            final(self).status == old(self).status,
            final(self).cpu.bus@.ram == old(self).cpu.bus@.ram,
            final(self).cpu.bus@.ppu == old(self).cpu.bus@.ppu,
    {
        self.cpu.bus.joypad1.set_button_pressed_status(key, pressed);
    }

    /// Insert a cartridge from an iNES image and start emulation.
    /// Rejects exactly the images `ROM::from_bytes` rejects, with the
    /// same error, leaving the console untouched.
    pub fn load_rom_bytes(&mut self, game_code: &[u8]) -> (r: Result<(), CartridgeError>)
        requires
            old(self).wf(),
        ensures
            final(self).wf(),
            crate::rom::ines_parse_ok(game_code@) <==> r is Ok,
            r matches Err(e) ==> ({
                &&& e == crate::rom::ines_error(game_code@)
                &&& *final(self) == *old(self)
            }),
            r is Ok ==> ({
                &&& final(self).status == EmulationStatus::Running
                &&& final(self).cpu.bus.rom matches Some(rom) && rom.parsed_from(game_code@)
                &&& final(self).cpu.register_a == 0
                &&& final(self).cpu.register_x == 0
                &&& final(self).cpu.register_y == 0
                &&& final(self).cpu.processor_status == 0x24
                &&& final(self).cpu.stack_pointer == crate::cpu::STACK_RESET
                &&& (final(self).cpu.bus.rom matches Some(rom) ==> ({
                    final(self).cpu.program_counter == (crate::mapper::mapper_read(
                        rom.mapper@,
                        0xFFFD,
                    ) as u16) << 8 | (crate::mapper::mapper_read(rom.mapper@, 0xFFFC) as u16)
                }))
            }),
    {
        match ROM::from_bytes(game_code) {
            Ok(rom) => {
                self.cpu.bus.load_rom(rom);
                self.start_emulation();
                Ok(())
            },
            Err(e) => Err(e),
        }
    }

    /// Reset the CPU through the cartridge's reset vector and run: the
    /// registers come up cleared and the program counter holds the
    /// little-endian word the mapper serves at 0xFFFC/0xFFFD. The bus
    /// itself (cartridge included) is untouched.
    pub fn start_emulation(&mut self)
        requires
            old(self).wf(),
        ensures
            final(self).wf(),
            final(self).status == EmulationStatus::Running,
            final(self).cpu.register_a == 0,
            final(self).cpu.register_x == 0,
            final(self).cpu.register_y == 0,
            final(self).cpu.processor_status == 0x24,
            final(self).cpu.stack_pointer == crate::cpu::STACK_RESET,
            final(self).cpu.bus == old(self).cpu.bus,
            old(self).cpu.bus.rom matches Some(rom) ==> ({
                final(self).cpu.program_counter == (crate::mapper::mapper_read(
                    rom.mapper@,
                    0xFFFD,
                ) as u16) << 8 | (crate::mapper::mapper_read(rom.mapper@, 0xFFFC) as u16)
            }),
    {
        self.cpu.reset();
        self.status = EmulationStatus::Running;
    }

    /// Pause, if running.
    pub fn pause_emulation(&mut self)
        ensures
            *final(self) == (NES {
                status: if old(self).status == EmulationStatus::Running {
                    EmulationStatus::Paused
                } else {
                    old(self).status
                },
                ..*old(self)
            }),
    {
        if self.status == EmulationStatus::Running {
            self.status = EmulationStatus::Paused;
        }
    }

    /// Resume, if paused.
    pub fn continue_emulation(&mut self)
        ensures
            *final(self) == (NES {
                status: if old(self).status == EmulationStatus::Paused {
                    EmulationStatus::Running
                } else {
                    old(self).status
                },
                ..*old(self)
            }),
    {
        if self.status == EmulationStatus::Paused {
            self.status = EmulationStatus::Running;
        }
    }

    /// Whether the console is running.
    pub fn is_running(&self) -> (r: bool)
        ensures
            r == (self.status == EmulationStatus::Running),
    {
        self.status == EmulationStatus::Running
    }

    /// One CHR byte of the inserted cartridge, 0 when absent or out of
    /// range.
    fn chr_byte(&self, index: usize) -> (r: u8)
        requires
            self.wf(),
        ensures
            r == spec_chr_byte(*self, index as int),
    {
        match &self.cpu.bus.rom {
            Some(rom) => {
                if index < rom.chr_rom.len() {
                    rom.chr_rom[index]
                } else {
                    0
                }
            },
            None => 0,
        }
    }

    /// Render one 128x128 pattern-table bank as a frame, coloured by
    /// the first background palette.
    fn pattern_table(&self, bank_index: usize) -> (frame: Frame)
        requires
            self.wf(),
            bank_index <= 1,
        ensures
            frame.wf(),
            frame.width == 128,
            frame.height == 128,
    {
        let mut pattern_table = Frame::new(128, 128);
        let bank: usize = bank_index * 0x1000;
        let mut tile_y: usize = 0;
        let mut tile_x: usize = 0;
        let mut tile_n: usize = 0;
        while tile_n < 256
            invariant
                self.wf(),
                pattern_table.wf(),
                pattern_table.width == 128,
                pattern_table.height == 128,
                bank <= 0x1000,
                tile_n <= 256,
                tile_x <= 128,
                tile_y <= 128,
            decreases 256 - tile_n,
        {
            if tile_n != 0 && tile_n % 16 == 0 {
                tile_y = if tile_y <= 120 {
                    tile_y + 8
                } else {
                    tile_y
                };
                tile_x = 0;
            }
            let mut y: usize = 0;
            while y < 8
                invariant
                    self.wf(),
                    pattern_table.wf(),
                    pattern_table.width == 128,
                    pattern_table.height == 128,
                    bank <= 0x1000,
                    tile_n < 256,
                    tile_x <= 128,
                    tile_y <= 128,
                    y <= 8,
                decreases 8 - y,
            {
                let mut upper: u8 = self.chr_byte(bank + tile_n * 16 + y);
                let mut lower: u8 = self.chr_byte(bank + tile_n * 16 + y + 8);
                let mut xi: usize = 0;
                while xi < 8
                    invariant
                        self.wf(),
                        pattern_table.wf(),
                        pattern_table.width == 128,
                        pattern_table.height == 128,
                        tile_x <= 128,
                        tile_y <= 128,
                        y < 8,
                        xi <= 8,
                    decreases 8 - xi,
                {
                    let x: usize = 7 - xi;
                    let value: u8 = (if upper & 1 != 0 {
                        2u8
                    } else {
                        0u8
                    }) + (if lower & 1 != 0 {
                        1u8
                    } else {
                        0u8
                    });
                    upper = upper >> 1;
                    lower = lower >> 1;
                    let color: u8 = self.cpu.bus.ppu.palette_table[value as usize];
                    let rgb = crate::palette::system_palette(color);
                    pattern_table.set_pixel(tile_x + x, tile_y + y, rgb);
                    xi = xi + 1;
                }
                y = y + 1;
            }
            tile_x = if tile_x <= 120 {
                tile_x + 8
            } else {
                tile_x
            };
            tile_n = tile_n + 1;
        }
        pattern_table
    }

    /// Both 128x128 pattern tables as frames.
    pub fn ppu_viewer(&self) -> (r: (Frame, Frame))
        requires
            self.wf(),
        ensures
            r.0.wf() && r.0.width == 128 && r.0.height == 128,
            r.1.wf() && r.1.width == 128 && r.1.height == 128,
    {
        (self.pattern_table(0), self.pattern_table(1))
    }

    /// The 32 palette entries as a 256x8 strip of 8x8 swatches: pixel
    /// (x, y) carries the system-palette colour of palette entry x / 8.
    /// A read-only snapshot: the console is untouched.
    pub fn palette_viewer(&self) -> (frame: Frame)
        requires
            self.wf(),
        ensures
            frame.wf(),
            frame.width == 256,
            frame.height == 8,
            forall|x: int, y: int|
                0 <= x < 256 && 0 <= y < 8 ==> #[trigger] crate::frame::spec_pixel_at(frame, x, y)
                    == crate::palette::spec_system_palette(
                    self.cpu.bus.ppu.palette_table@[x / 8],
                ),
    {
        let ghost pal = self.cpu.bus.ppu.palette_table@;
        let mut frame = Frame::new(256, 8);
        let mut i: usize = 0;
        while i < 32
            invariant
                self.wf(),
                pal == self.cpu.bus.ppu.palette_table@,
                frame.wf(),
                frame.width == 256,
                frame.height == 8,
                i <= 32,
                forall|px: int, py: int|
                    0 <= px < 8 * i && 0 <= py < 8 ==> #[trigger] crate::frame::spec_pixel_at(
                        frame,
                        px,
                        py,
                    ) == crate::palette::spec_system_palette(pal[px / 8]),
            decreases 32 - i,
        {
            let color: u8 = self.cpu.bus.ppu.palette_table[i];
            let rgb = crate::palette::system_palette(color);
            let mut y: usize = 0;
            while y < 8
                invariant
                    frame.wf(),
                    frame.width == 256,
                    frame.height == 8,
                    i < 32,
                    y <= 8,
                    color == pal[i as int],
                    rgb == crate::palette::spec_system_palette(color),
                    forall|px: int, py: int|
                        0 <= px < 8 * i && 0 <= py < 8 ==> #[trigger] crate::frame::spec_pixel_at(
                            frame,
                            px,
                            py,
                        ) == crate::palette::spec_system_palette(pal[px / 8]),
                    forall|px: int, py: int|
                        8 * i <= px < 8 * i + 8 && 0 <= py < y
                            ==> #[trigger] crate::frame::spec_pixel_at(frame, px, py) == rgb,
                decreases 8 - y,
            {
                let mut x: usize = 0;
                while x < 8
                    invariant
                        frame.wf(),
                        frame.width == 256,
                        frame.height == 8,
                        i < 32,
                        y < 8,
                        x <= 8,
                        rgb == crate::palette::spec_system_palette(color),
                        color == pal[i as int],
                        forall|px: int, py: int|
                            0 <= px < 8 * i && 0 <= py < 8 ==> #[trigger] crate::frame::spec_pixel_at(
                                frame,
                                px,
                                py,
                            ) == crate::palette::spec_system_palette(pal[px / 8]),
                        forall|px: int, py: int|
                            8 * i <= px < 8 * i + 8 && 0 <= py < y
                                ==> #[trigger] crate::frame::spec_pixel_at(frame, px, py) == rgb,
                        forall|px: int|
                            8 * i <= px < 8 * i + x ==> #[trigger] crate::frame::spec_pixel_at(
                                frame,
                                px,
                                y as int,
                            ) == rgb,
                    decreases 8 - x,
                {
                    let ghost prev = frame;
                    frame.set_pixel(i * 8 + x, y, rgb);
                    proof {
                        crate::frame::lemma_set_pixel_pixels(
                            prev,
                            (i * 8 + x) as int,
                            y as int,
                            rgb,
                            frame,
                        );
                    }
                    x = x + 1;
                }
                y = y + 1;
            }
            proof {
                // the freshly painted swatch reads back through x / 8
                assert forall|px: int, py: int|
                    0 <= px < 8 * (i + 1) && 0 <= py < 8 implies #[trigger] crate::frame::spec_pixel_at(
                    frame,
                    px,
                    py,
                ) == crate::palette::spec_system_palette(pal[px / 8]) by {
                    if px >= 8 * i {
                        assert(px / 8 == i) by (nonlinear_arith)
                            requires
                                8 * i <= px < 8 * i + 8,
                        ;
                    }
                }
            }
            i = i + 1;
        }
        frame
    }

    /// The four colours the attribute table assigns to the 2x2-tile
    /// quadrant holding (tile_x, tile_y) in the nametable at `nt_base`.
    fn bg_pallette(&self, nt_base: usize, tile_x: usize, tile_y: usize) -> (r: (u8, u8, u8, u8))
        requires
            self.wf(),
            nt_base + 0x400 <= 2048,
            tile_x < 32,
            tile_y < 30,
        ensures
            r == spec_bg_palette(
                self.cpu.bus.ppu.palette_table@,
                self.cpu.bus.ppu.vram@,
                nt_base as int,
                tile_x as int,
                tile_y as int,
            ),
    {
        let group: usize = tile_y / 4 * 8 + tile_x / 4;
        proof {
            assert(tile_y / 4 <= 7 && tile_x / 4 <= 7) by (nonlinear_arith)
                requires
                    tile_x < 32,
                    tile_y < 30,
            ;
        }
        let attribute_byte: u8 = self.cpu.bus.ppu.vram[nt_base + 0x3C0 + group];
        // bit 1 of each coordinate selects the 16x16 quadrant
        let shift: u8 = (if tile_y % 4 >= 2 {
            4u8
        } else {
            0u8
        }) + (if tile_x % 4 >= 2 {
            2u8
        } else {
            0u8
        });
        let palette_idx: u8 = (attribute_byte >> shift) & 0x03;
        proof {
            crate::bits::lemma_u8_mask_bound();
        }
        let palette_base: usize = (palette_idx as usize) * 4;
        (
            self.cpu.bus.ppu.palette_table[0],
            self.cpu.bus.ppu.palette_table[palette_base + 1],
            self.cpu.bus.ppu.palette_table[palette_base + 2],
            self.cpu.bus.ppu.palette_table[palette_base + 3],
        )
    }

    /// Render both physical nametables as a 512x480 map: every pixel
    /// carries `spec_nametable_map_pixel` — tiles from VRAM through the
    /// PPUCTRL-selected background bank and the attribute palettes,
    /// with the mirrored pair laid out horizontally for vertical
    /// mirroring and vertically otherwise. A read-only snapshot.
    pub fn nametable_viewer(&self) -> (frame: Frame)
        requires
            self.wf(),
        ensures
            frame.wf(),
            frame.width == 512,
            frame.height == 480,
            forall|qx: int, qy: int|
                0 <= qx < 512 && 0 <= qy < 480 ==> #[trigger] crate::frame::spec_pixel_at(
                    frame,
                    qx,
                    qy,
                ) == spec_nametable_map_pixel(*self, qx, qy),
    {
        let ghost n = *self;
        let vertical: bool = match &self.cpu.bus.rom {
            Some(rom) => rom.mirroring == Mirroring::Vertical,
            None => false,
        };
        let bank: usize = if self.cpu.bus.ppu.ctrl.bknd_pattern_addr() == 0x1000 {
            0x1000
        } else {
            0
        };
        let mut frame = Frame::new(512, 480);
        let mut nt: usize = 0;
        while nt < 2
            invariant
                self.wf(),
                n == *self,
                vertical == spec_map_vertical(n),
                bank == (if n.cpu.bus.ppu.ctrl.bits & 0x10 != 0 {
                    0x1000int
                } else {
                    0int
                }),
                frame.wf(),
                frame.width == 512,
                frame.height == 480,
                nt <= 2,
                forall|qx: int, qy: int|
                    0 <= qx < 512 && 0 <= qy < 480 && (if vertical {
                        qx < 256 * nt
                    } else {
                        qy < 240 * nt
                    }) ==> #[trigger] crate::frame::spec_pixel_at(frame, qx, qy)
                        == spec_nametable_map_pixel(n, qx, qy),
            decreases 2 - nt,
        {
            let nt_base: usize = nt * 0x400;
            let mut qy: usize = 0;
            while qy < 240
                invariant
                    self.wf(),
                    n == *self,
                    vertical == spec_map_vertical(n),
                    bank == (if n.cpu.bus.ppu.ctrl.bits & 0x10 != 0 {
                        0x1000int
                    } else {
                        0int
                    }),
                    frame.wf(),
                    frame.width == 512,
                    frame.height == 480,
                    nt < 2,
                    nt_base == nt * 0x400,
                    qy <= 240,
                    forall|px: int, py: int|
                        0 <= px < 512 && 0 <= py < 480 && (if vertical {
                            px < 256 * nt
                        } else {
                            py < 240 * nt
                        }) ==> #[trigger] crate::frame::spec_pixel_at(frame, px, py)
                            == spec_nametable_map_pixel(n, px, py),
                    forall|px: int, py: int|
                        0 <= px < 512 && 0 <= py < 480 && (if vertical {
                            256 * nt <= px < 256 * nt + 256 && py % 240 < qy
                        } else {
                            240 * nt <= py < 240 * nt + qy
                        }) ==> #[trigger] crate::frame::spec_pixel_at(frame, px, py)
                            == spec_nametable_map_pixel(n, px, py),
                decreases 240 - qy,
            {
                let mut qx: usize = 0;
                while qx < 256
                    invariant
                        self.wf(),
                        n == *self,
                        vertical == spec_map_vertical(n),
                        bank == (if n.cpu.bus.ppu.ctrl.bits & 0x10 != 0 {
                            0x1000int
                        } else {
                            0int
                        }),
                        frame.wf(),
                        frame.width == 512,
                        frame.height == 480,
                        nt < 2,
                        nt_base == nt * 0x400,
                        qy < 240,
                        qx <= 256,
                        forall|px: int, py: int|
                            0 <= px < 512 && 0 <= py < 480 && (if vertical {
                                px < 256 * nt
                            } else {
                                py < 240 * nt
                            }) ==> #[trigger] crate::frame::spec_pixel_at(frame, px, py)
                                == spec_nametable_map_pixel(n, px, py),
                        forall|px: int, py: int|
                            0 <= px < 512 && 0 <= py < 480 && (if vertical {
                                256 * nt <= px < 256 * nt + 256 && py % 240 < qy
                            } else {
                                240 * nt <= py < 240 * nt + qy
                            }) ==> #[trigger] crate::frame::spec_pixel_at(frame, px, py)
                                == spec_nametable_map_pixel(n, px, py),
                        forall|px: int, py: int|
                            0 <= px < 512 && 0 <= py < 480 && (if vertical {
                                256 * nt <= px < 256 * nt + qx && py % 240 == qy
                            } else {
                                py == 240 * nt + qy && px % 256 < qx
                            }) ==> #[trigger] crate::frame::spec_pixel_at(frame, px, py)
                                == spec_nametable_map_pixel(n, px, py),
                    decreases 256 - qx,
                {
                    proof {
                        assert(qx / 8 < 32 && qy / 8 < 30 && qx % 8 < 8 && qy % 8 < 8)
                            by (nonlinear_arith)
                            requires
                                qx < 256,
                                qy < 240,
                        ;
                    }
                    let tx: usize = qx / 8;
                    let ty: usize = qy / 8;
                    let tile: usize = self.cpu.bus.ppu.vram[nt_base + ty * 32 + tx] as usize;
                    let lower: u8 = self.chr_byte(bank + tile * 16 + qy % 8);
                    let upper: u8 = self.chr_byte(bank + tile * 16 + qy % 8 + 8);
                    let bitx: u8 = (7 - qx % 8) as u8;
                    let value: u8 = (if (upper >> bitx) & 0x01 != 0 {
                        2u8
                    } else {
                        0u8
                    }) + (if (lower >> bitx) & 0x01 != 0 {
                        1u8
                    } else {
                        0u8
                    });
                    let (pal0, pal1, pal2, pal3) = self.bg_pallette(nt_base, tx, ty);
                    let color: u8 = if value == 0 {
                        pal0
                    } else if value == 1 {
                        pal1
                    } else if value == 2 {
                        pal2
                    } else {
                        pal3
                    };
                    let rgb = crate::palette::system_palette(color);
                    proof {
                        assert(rgb == spec_nametable_sample(n, nt as int, qx as int, qy as int));
                    }
                    let x1: usize = if vertical {
                        nt * 256 + qx
                    } else {
                        qx
                    };
                    let y1: usize = if vertical {
                        qy
                    } else {
                        nt * 240 + qy
                    };
                    let x2: usize = if vertical {
                        nt * 256 + qx
                    } else {
                        qx + 256
                    };
                    let y2: usize = if vertical {
                        qy + 240
                    } else {
                        nt * 240 + qy
                    };
                    let ghost f0 = frame;
                    frame.set_pixel(x1, y1, rgb);
                    proof {
                        crate::frame::lemma_set_pixel_pixels(f0, x1 as int, y1 as int, rgb, frame);
                    }
                    let ghost f1 = frame;
                    frame.set_pixel(x2, y2, rgb);
                    proof {
                        crate::frame::lemma_set_pixel_pixels(f1, x2 as int, y2 as int, rgb, frame);
                        // both copies of this dot now show the map pixel
                        assert(x1 as int / 256 == (if vertical {
                            nt as int
                        } else {
                            0int
                        }) && x1 as int % 256 == qx && x2 as int % 256 == qx && y2 as int % 240
                            == qy && y1 as int % 240 == qy && y1 as int / 240 == (if vertical {
                            0int
                        } else {
                            nt as int
                        }) && y2 as int / 240 == (if vertical {
                            1int
                        } else {
                            nt as int
                        })) by (nonlinear_arith)
                            requires
                                qx < 256,
                                qy < 240,
                                nt < 2,
                                x1 as int == (if vertical {
                                    nt * 256 + qx
                                } else {
                                    qx as int
                                }),
                                y1 as int == (if vertical {
                                    qy as int
                                } else {
                                    nt * 240 + qy
                                }),
                                x2 as int == (if vertical {
                                    nt * 256 + qx
                                } else {
                                    qx + 256
                                }),
                                y2 as int == (if vertical {
                                    qy + 240
                                } else {
                                    nt * 240 + qy
                                }),
                        ;
                        assert(crate::frame::spec_pixel_at(frame, x1 as int, y1 as int)
                            == spec_nametable_map_pixel(n, x1 as int, y1 as int));
                        assert(crate::frame::spec_pixel_at(frame, x2 as int, y2 as int)
                            == spec_nametable_map_pixel(n, x2 as int, y2 as int));
                    }
                    qx = qx + 1;
                }
                qy = qy + 1;
            }
            proof {
                // a finished strip folds into the painted region
                assert forall|px: int, py: int|
                    0 <= px < 512 && 0 <= py < 480 && (if vertical {
                        px < 256 * (nt + 1)
                    } else {
                        py < 240 * (nt + 1)
                    }) implies #[trigger] crate::frame::spec_pixel_at(frame, px, py)
                    == spec_nametable_map_pixel(n, px, py) by {
                    if vertical {
                        if px >= 256 * nt {
                            assert(py % 240 < 240) by (nonlinear_arith);
                        }
                    }
                }
            }
            nt = nt + 1;
        }
        frame
    }
}

} // verus!

//! End-to-end scenarios on the whole console: ROM parsing, mapper
//! banking, PPU mirroring, the vblank NMI, frame pacing, the odd-frame
//! skip, OAM DMA, and a property test of the opcode cycle table.

use nestor::bus::Bus;
use nestor::bus::Memory;
use nestor::bus::RamBus;
use nestor::cpu::CPU;
use nestor::frame::Frame;
use nestor::joypad::Joypad;
use nestor::joypad::JoypadButton;
use nestor::mapper::Mapper;
use nestor::nes::EmulationStatus;
use nestor::nes::NES;
use nestor::opcodes::opcode_for;
use nestor::opcodes::Mnemonic;
use nestor::palette::system_palette;
use nestor::ppu::PPU;
use nestor::rom::CartridgeError;
use nestor::rom::Mirroring;
use nestor::rom::ROM;

/// An iNES image with one 16 KiB PRG bank holding `program` at its
/// start (mapped at 0x8000) and the reset vector pointing there.
fn build_rom(program: &[u8], flags6: u8) -> Vec<u8> {
    let mut raw = vec![0x4E, 0x45, 0x53, 0x1A, 1, 1, flags6, 0];
    raw.resize(16, 0);
    let mut prg = vec![0u8; 16384];
    prg[..program.len()].copy_from_slice(program);
    // reset vector: 0x8000 (mirrored into 0xFFFC of the single bank)
    prg[0x3FFC] = 0x00;
    prg[0x3FFD] = 0x80;
    // NMI vector: 0x8040
    prg[0x3FFA] = 0x40;
    prg[0x3FFB] = 0x80;
    raw.extend_from_slice(&prg);
    raw.extend_from_slice(&vec![0u8; 8192]);
    raw
}

#[test]
fn parse_rejects_bad_magic() {
    let mut raw = build_rom(&[], 0);
    raw[0] = 0x4D;
    assert_eq!(ROM::from_bytes(&raw).err(), Some(CartridgeError::UnsupportedFormat));
}

#[test]
fn parse_rejects_ines_two() {
    let mut raw = build_rom(&[], 0);
    raw[7] = 0x08; // iNES 2.0 version bits
    assert_eq!(ROM::from_bytes(&raw).err(), Some(CartridgeError::UnsupportedFormat));
}

#[test]
fn parse_rejects_truncated_image() {
    let mut raw = build_rom(&[], 0);
    raw.truncate(16 + 1000);
    assert_eq!(ROM::from_bytes(&raw).err(), Some(CartridgeError::TruncatedRom));
}

#[test]
fn parse_rejects_unknown_mapper() {
    let mut raw = build_rom(&[], 0x10); // mapper low nibble 1
    assert_eq!(ROM::from_bytes(&raw).err(), Some(CartridgeError::UnsupportedMapper(1)));
}

#[test]
fn parse_reads_header_fields() {
    let raw = build_rom(&[0xA9, 0x42], 0x01); // vertical mirroring
    let rom = ROM::from_bytes(&raw).unwrap();
    assert_eq!(rom.mirroring, Mirroring::Vertical);
    assert_eq!(rom.prg_rom.len(), 16384);
    assert_eq!(rom.chr_rom.len(), 8192);
    assert_eq!(rom.prg_rom[0], 0xA9);
    assert!(matches!(rom.mapper, Mapper::Nrom(_)));
}

#[test]
fn parse_allocates_chr_ram_when_absent() {
    let mut raw = vec![0x4E, 0x45, 0x53, 0x1A, 1, 0, 0, 0];
    raw.resize(16, 0);
    raw.extend_from_slice(&vec![0u8; 16384]);
    let rom = ROM::from_bytes(&raw).unwrap();
    assert_eq!(rom.chr_rom.len(), 8192);
    assert!(rom.chr_rom.iter().all(|&b| b == 0));
}

#[test]
fn parse_skips_trainer() {
    let mut raw = vec![0x4E, 0x45, 0x53, 0x1A, 1, 1, 0x04, 0];
    raw.resize(16, 0);
    raw.extend_from_slice(&vec![0xEEu8; 512]); // trainer filler
    let mut prg = vec![0u8; 16384];
    prg[0] = 0x77;
    raw.extend_from_slice(&prg);
    raw.extend_from_slice(&vec![0u8; 8192]);
    let rom = ROM::from_bytes(&raw).unwrap();
    assert_eq!(rom.prg_rom[0], 0x77);
}

#[test]
fn nrom_mirrors_single_bank() {
    let raw = build_rom(&[0x11, 0x22], 0);
    let rom = ROM::from_bytes(&raw).unwrap();
    assert_eq!(rom.mapper.read(0x8000), 0x11);
    assert_eq!(rom.mapper.read(0xC000), 0x11); // 16 KiB mirror
    assert_eq!(rom.mapper.read(0x8001), 0x22);
    assert_eq!(rom.mapper.read(0xC001), 0x22);
}

#[test]
fn cnrom_switches_chr_banks() {
    let mut raw = vec![0x4E, 0x45, 0x53, 0x1A, 1, 2, 0x30, 0]; // mapper 3, 2 CHR banks
    raw.resize(16, 0);
    raw.extend_from_slice(&vec![0u8; 16384]);
    let mut chr = vec![0u8; 16384];
    chr[0] = 0xAA; // bank 0
    chr[8192] = 0xBB; // bank 1
    raw.extend_from_slice(&chr);
    let rom = ROM::from_bytes(&raw).unwrap();
    let mut mapper = rom.mapper;
    assert_eq!(mapper.read(0x0000), 0xAA);
    mapper.write(0x8000, 0x01); // select bank 1
    assert_eq!(mapper.read(0x0000), 0xBB);
}

#[test]
fn frame_pixels_round_trip_to_rgba() {
    let mut frame = Frame::new(4, 2);
    frame.set_pixel(1, 1, (10, 20, 30));
    frame.set_pixel(9, 9, (1, 2, 3)); // out of range: ignored
    let rgba = frame.to_rgba();
    assert_eq!(rgba.len(), 4 * 2 * 4);
    let base = (1 * 4 + 1) * 4;
    assert_eq!(&rgba[base..base + 4], &[10, 20, 30, 0xFF]);
    assert_eq!(rgba[3], 0xFF);
}

#[test]
fn system_palette_known_entries() {
    assert_eq!(system_palette(0x00), (0x80, 0x80, 0x80));
    assert_eq!(system_palette(0x0D), (0x00, 0x00, 0x00));
    assert_eq!(system_palette(0x20), (0xFF, 0xFF, 0xFF));
    // the index is taken modulo 64
    assert_eq!(system_palette(0x40), system_palette(0x00));
}

/// The scenario of the serial controller reads: strobe 1 then 0, press
/// Up only, and the eight reads report A, B, Select, Start, Up, Down,
/// Left, Right in order; a ninth read returns 1.
#[test]
fn joypad_up_only_serial_reads() {
    let mut joypad = Joypad::new();
    joypad.write(1);
    joypad.write(0);
    joypad.set_button_pressed_status(JoypadButton::UP, true);
    let expected = [0, 0, 0, 0, 1, 0, 0, 0];
    for &e in &expected {
        assert_eq!(joypad.read(), e);
    }
    assert_eq!(joypad.read(), 1);
}

fn ppu_with_mirroring(flags6: u8) -> (PPU, ROM) {
    let raw = build_rom(&[], flags6);
    let rom = ROM::from_bytes(&raw).unwrap();
    let mut ppu = PPU::new();
    ppu.load_rom(&rom);
    (ppu, rom)
}

fn ppu_set_addr(ppu: &mut PPU, rom: &mut ROM, addr: u16) {
    ppu.cpu_write(rom, 0x2006, (addr >> 8) as u8);
    ppu.cpu_write(rom, 0x2006, (addr & 0xFF) as u8);
}

/// Vertical mirroring: writes at 0x2000 and 0x2400 read back at 0x2800
/// and 0x2C00.
#[test]
fn vertical_mirroring_aliases_upper_tables() {
    let (mut ppu, mut rom) = ppu_with_mirroring(0x01);
    ppu_set_addr(&mut ppu, &mut rom, 0x2000);
    ppu.cpu_write(&mut rom, 0x2007, 0x42);
    ppu_set_addr(&mut ppu, &mut rom, 0x2400);
    ppu.cpu_write(&mut rom, 0x2007, 0x84);

    ppu_set_addr(&mut ppu, &mut rom, 0x2800);
    ppu.cpu_read(&rom, 0x2007); // buffered read: prime the buffer
    assert_eq!(ppu.cpu_read(&rom, 0x2007), 0x42);

    ppu_set_addr(&mut ppu, &mut rom, 0x2C00);
    ppu.cpu_read(&rom, 0x2007);
    assert_eq!(ppu.cpu_read(&rom, 0x2007), 0x84);
}

/// Horizontal mirroring: 0x2400 aliases 0x2000 and 0x2C00 aliases
/// 0x2800.
#[test]
fn horizontal_mirroring_aliases_side_tables() {
    let (mut ppu, mut rom) = ppu_with_mirroring(0x00);
    ppu_set_addr(&mut ppu, &mut rom, 0x2000);
    ppu.cpu_write(&mut rom, 0x2007, 0x5A);
    ppu_set_addr(&mut ppu, &mut rom, 0x2800);
    ppu.cpu_write(&mut rom, 0x2007, 0xA5);

    ppu_set_addr(&mut ppu, &mut rom, 0x2400);
    ppu.cpu_read(&rom, 0x2007);
    assert_eq!(ppu.cpu_read(&rom, 0x2007), 0x5A);

    ppu_set_addr(&mut ppu, &mut rom, 0x2C00);
    ppu.cpu_read(&rom, 0x2007);
    assert_eq!(ppu.cpu_read(&rom, 0x2007), 0xA5);
}

/// Palette mirror positions: writes to 0x3F10/0x3F14/0x3F18/0x3F1C are
/// observable at 0x3F00/0x3F04/0x3F08/0x3F0C and vice versa.
#[test]
fn palette_mirror_positions_alias() {
    let (mut ppu, mut rom) = ppu_with_mirroring(0);
    ppu_set_addr(&mut ppu, &mut rom, 0x3F10);
    ppu.cpu_write(&mut rom, 0x2007, 0x21);
    ppu_set_addr(&mut ppu, &mut rom, 0x3F00);
    // palette reads are unbuffered
    assert_eq!(ppu.cpu_read(&rom, 0x2007), 0x21);

    ppu_set_addr(&mut ppu, &mut rom, 0x3F04);
    ppu.cpu_write(&mut rom, 0x2007, 0x17);
    ppu_set_addr(&mut ppu, &mut rom, 0x3F14);
    assert_eq!(ppu.cpu_read(&rom, 0x2007), 0x17);
}

/// PPUSTATUS reads leak the open-bus latch in their low five bits.
#[test]
fn status_reads_expose_open_bus() {
    let (mut ppu, mut rom) = ppu_with_mirroring(0);
    ppu.cpu_write(&mut rom, 0x2003, 0x1F); // any write refreshes the latch
    let status = ppu.cpu_read(&rom, 0x2002);
    assert_eq!(status & 0x1F, 0x1F);
    // write-only ports read back the latch whole
    assert_eq!(ppu.cpu_read(&rom, 0x2000), 0x1F);
}

/// The boot scenario: write 0xAA to 0x0300, read it back into A, then
/// take BNE twice; untaken straight-line instructions advance the
/// program counter by their length.
#[test]
fn boot_store_load_and_branch() {
    let program = [
        0xA9, 0xAA, // 0x8000 LDA #$AA
        0x8D, 0x00, 0x03, // 0x8002 STA $0300
        0xAD, 0x00, 0x03, // 0x8005 LDA $0300
        0xD0, 0x01, // 0x8008 BNE +1 (taken)
        0xEA, // 0x800A NOP (skipped)
        0xD0, 0xF4, // 0x800B BNE -12 (taken, back to 0x8001)
    ];
    let raw = build_rom(&program, 0);
    let mut nes = NES::new();
    assert!(nes.load_rom_bytes(&raw).is_ok());
    assert!(nes.is_running());

    nes.cpu.run(); // LDA #$AA
    assert_eq!(nes.cpu.register_a, 0xAA);
    assert_eq!(nes.cpu.program_counter, 0x8002);

    nes.cpu.run(); // STA $0300
    assert_eq!(nes.cpu.program_counter, 0x8005);
    assert_eq!(nes.cpu.bus.mem_read(0x0300), 0xAA);

    nes.cpu.run(); // LDA $0300
    assert_eq!(nes.cpu.register_a, 0xAA);
    assert!(!nes.cpu.get_flag(nestor::cpu::ZERO_FLAG));
    assert_eq!(nes.cpu.program_counter, 0x8008);

    nes.cpu.run(); // BNE taken: skips the NOP
    assert_eq!(nes.cpu.program_counter, 0x800B);

    nes.cpu.run(); // BNE taken again: back into the program
    assert_eq!(nes.cpu.program_counter, 0x8001);
}

/// Enabling the NMI at PPUCTRL delivers exactly one NMI per frame, at
/// the start of vblank.
#[test]
fn nmi_once_per_frame() {
    let program = [
        0xA9, 0xC0, // LDA #$C0
        0x8D, 0x00, 0x20, // STA $2000 (enable NMI)
        0x4C, 0x05, 0x80, // JMP $8005 (spin)
    ];
    // the NMI handler at 0x8040 counts its entries in RAM, then returns
    let mut raw = build_rom(&program, 0);
    raw[16 + 0x40] = 0xE6; // INC $10
    raw[16 + 0x41] = 0x10;
    raw[16 + 0x42] = 0x40; // RTI
    let mut nes = NES::new();
    assert!(nes.load_rom_bytes(&raw).is_ok());

    // let the enable land, then check one new NMI per completed frame
    let mut frames = 0;
    while frames < 1 {
        if nes.emulate_frame().is_some() {
            frames += 1;
        }
    }
    let after_first = nes.cpu.bus.mem_read(0x0010);
    assert_eq!(after_first, 1, "expected exactly one NMI in the first frame");
    while frames < 3 {
        if nes.emulate_frame().is_some() {
            frames += 1;
            let count = nes.cpu.bus.mem_read(0x0010);
            assert_eq!(count as u32, frames, "expected one NMI per frame");
        }
    }
}

/// Frame pacing: one frame per roughly 29,781 CPU cycles, and the
/// cycle count stays within tolerance across many frames.
#[test]
fn frame_pacing_cycles_per_frame() {
    let program = [0x4C, 0x00, 0x80]; // JMP $8000 (spin)
    let raw = build_rom(&program, 0);
    let mut nes = NES::new();
    assert!(nes.load_rom_bytes(&raw).is_ok());

    let mut frame_cycles: Vec<u64> = Vec::new();
    let mut last = nes.cpu.cycles;
    while frame_cycles.len() < 10 {
        if nes.emulate_frame().is_some() {
            frame_cycles.push(nes.cpu.cycles - last);
            last = nes.cpu.cycles;
        }
    }
    for &c in frame_cycles.iter().skip(1) {
        assert!(
            (29770..=29790).contains(&c),
            "frame took {} cycles, outside the documented tolerance",
            c
        );
    }
}

/// The odd-frame skip: with the background enabled, frames alternate
/// between 89342 dots and 89341 dots; over 120 frames, 60 of each.
#[test]
fn odd_frame_skip_dot_counts() {
    let raw = build_rom(&[], 0);
    let rom = ROM::from_bytes(&raw).unwrap();
    let mut ppu = PPU::new();
    ppu.load_rom(&rom);
    let mut rom = rom;
    ppu.cpu_write(&mut rom, 0x2001, 0x08); // show_background

    let mut lengths: Vec<u32> = Vec::new();
    let mut dots: u32 = 0;
    while lengths.len() < 120 {
        dots += 1;
        if ppu.tick(&rom) {
            lengths.push(dots);
            dots = 0;
        }
    }
    let long = lengths.iter().filter(|&&l| l == 89342).count();
    let short = lengths.iter().filter(|&&l| l == 89341).count();
    assert_eq!(long + short, 120);
    assert_eq!(long, 60);
    assert_eq!(short, 60);
}

/// OAM DMA: a write to 0x4014 copies a whole page into OAM and leaves
/// the OAM address where it started.
#[test]
fn oam_dma_copies_page_and_restores_addr() {
    let raw = build_rom(&[], 0);
    let rom = ROM::from_bytes(&raw).unwrap();
    let mut bus = Bus::new();
    bus.load_rom(rom);
    for i in 0..256u16 {
        bus.mem_write(0x0200 + i, i as u8);
    }
    bus.ppu.oam_addr = 0x10;
    bus.mem_write(0x4014, 0x02);
    assert_eq!(bus.ppu.oam_addr, 0x10);
    for i in 0..256usize {
        assert_eq!(bus.ppu.oam_data[(0x10 + i) % 256], i as u8);
    }
}

/// Every opcode advances the cycle counter by exactly its table count,
/// plus the branch-taken surcharge, in a harness with no page crossings.
#[test]
fn cycle_counts_match_table() {
    for code in 0..=255u8 {
        let op = opcode_for(code);
        let mut bus = RamBus::new();
        bus.load(&[code, 0x00, 0x00]);
        let mut cpu = CPU::new(bus);
        cpu.reset();
        // status 0x24: Z, C, N, V all clear, so exactly these branch
        let taken = matches!(
            op.mnemonic,
            Mnemonic::BCC | Mnemonic::BNE | Mnemonic::BPL | Mnemonic::BVC
        );
        let expected = op.cycles as u64 + if taken { 1 } else { 0 };
        let before = cpu.cycles;
        let delta = cpu.run();
        assert_eq!(
            cpu.cycles - before,
            expected,
            "opcode {:02X} advanced {} cycles, table says {}",
            code,
            cpu.cycles - before,
            expected
        );
        assert_eq!(delta as u64, cpu.cycles - before);
    }
}

/// The console API surface: pause and resume toggle the status.
#[test]
fn emulation_status_transitions() {
    let mut nes = NES::new();
    assert_eq!(nes.status, EmulationStatus::Stopped);
    assert!(!nes.is_running());
    nes.pause_emulation(); // stopped: no effect
    assert_eq!(nes.status, EmulationStatus::Stopped);
    let raw = build_rom(&[0x4C, 0x00, 0x80], 0);
    assert!(nes.load_rom_bytes(&raw).is_ok());
    assert!(nes.is_running());
    nes.pause_emulation();
    assert_eq!(nes.status, EmulationStatus::Paused);
    nes.continue_emulation();
    assert!(nes.is_running());
}

/// A rejected image leaves the console untouched.
#[test]
fn load_rom_bytes_rejects_garbage() {
    let mut nes = NES::new();
    let r = nes.load_rom_bytes(&[0, 1, 2, 3]);
    assert_eq!(r.err(), Some(CartridgeError::UnsupportedFormat));
    assert_eq!(nes.status, EmulationStatus::Stopped);
}

/// The debug viewers produce frames of the documented sizes.
#[test]
fn viewers_have_documented_sizes() {
    let raw = build_rom(&[0x4C, 0x00, 0x80], 0);
    let mut nes = NES::new();
    assert!(nes.load_rom_bytes(&raw).is_ok());
    let (pt0, pt1) = nes.ppu_viewer();
    assert_eq!((pt0.width, pt0.height), (128, 128));
    assert_eq!((pt1.width, pt1.height), (128, 128));
    let strip = nes.palette_viewer();
    assert_eq!((strip.width, strip.height), (256, 8));
    let map = nes.nametable_viewer();
    assert_eq!((map.width, map.height), (512, 480));
}

/// Determinism: two consoles fed the same ROM produce bit-identical
/// frame streams.
#[test]
fn identical_runs_produce_identical_frames() {
    let program = [
        0xA9, 0x08, // LDA #$08
        0x8D, 0x01, 0x20, // STA $2001 (show background)
        0xEE, 0x00, 0x03, // INC $0300 (something to do)
        0x4C, 0x05, 0x80, // JMP $8005
    ];
    let raw = build_rom(&program, 0);
    let mut first: Vec<Vec<u8>> = Vec::new();
    let mut second: Vec<Vec<u8>> = Vec::new();
    for sink in [&mut first, &mut second] {
        let mut nes = NES::new();
        assert!(nes.load_rom_bytes(&raw).is_ok());
        while sink.len() < 3 {
            if let Some(frame) = nes.emulate_frame() {
                sink.push(frame.data.clone());
            }
        }
    }
    assert_eq!(first, second);
}

/// ADC signed overflow: 0x50 + 0x50 overflows into the negative range.
#[test]
fn adc_sets_signed_overflow() {
    let mut bus = RamBus::new();
    bus.load(&[0x69, 0x50]); // ADC #$50
    let mut cpu = CPU::new(bus);
    cpu.reset();
    cpu.register_a = 0x50;
    cpu.run();
    assert_eq!(cpu.register_a, 0xA0);
    assert!(cpu.get_flag(nestor::cpu::OVERFLOW_FLAG));
    assert!(cpu.get_flag(nestor::cpu::NEGATIVE_FLAG));
    assert!(!cpu.get_flag(nestor::cpu::CARRY_FLAG));
}

/// PHP/PLP: the pulled status clears B, forces bit 5, and keeps every
/// other flag.
#[test]
fn php_plp_masks_break_flag() {
    let mut bus = RamBus::new();
    bus.load(&[0x08, 0x28]); // PHP, PLP
    let mut cpu = CPU::new(bus);
    cpu.reset();
    cpu.processor_status = 0xC3; // N, V, Z, C set; bits 4/5 clear
    cpu.run(); // PHP pushes with B set
    cpu.run(); // PLP pulls with B cleared, bit 5 forced
    assert_eq!(cpu.processor_status, 0xC3 | 0x20);
}

/// The one-instruction test harness: a program placed by the CPU's own
/// loader runs from 0x8600.
#[test]
fn cpu_load_places_program() {
    let bus = RamBus::new();
    let mut cpu = CPU::new(bus);
    cpu.load(vec![0xA9, 0x7F]); // LDA #$7F
    cpu.reset();
    assert_eq!(cpu.program_counter, 0x8600);
    cpu.run();
    assert_eq!(cpu.register_a, 0x7F);
}

/// A trace line carries the register file in the reference layout.
#[test]
fn trace_formats_registers() {
    let raw = build_rom(&[0xA9, 0x42], 0);
    let mut nes = NES::new();
    assert!(nes.load_rom_bytes(&raw).is_ok());
    let line = nestor::trace::trace(&mut nes.cpu);
    assert!(line.starts_with("8000  A9 42"), "unexpected line: {}", line);
    assert!(line.contains(" LDA #$42"), "unexpected line: {}", line);
    assert!(line.contains("A:00 X:00 Y:00 P:24 SP:FD"), "unexpected line: {}", line);
    assert!(line.contains("PPU:  0,  0 CYC:0"), "unexpected line: {}", line);
    // the peek leaves the machine where it was
    assert_eq!(nes.cpu.program_counter, 0x8000);
}

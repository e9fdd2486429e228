//! The laws of the core, proved once and for all inputs: determinism of
//! the CPU step, the cycle-count algebra of ADC/SBC flags, the stack
//! round trips, nametable and palette mirroring, OAM DMA leaving the
//! OAM address where it was, and the frame pacing of the PPU automaton.

use vstd::prelude::*;

use crate::bus::spec_dma;
use crate::bus::BusView;
use crate::cpu::spec_pop;
use crate::cpu::spec_pulled_status;
use crate::cpu::spec_push;
use crate::cpu::AddressingMode;
use crate::cpu::CpuView;
use crate::cpu::BREAK_FLAG;
use crate::cpu::CARRY_FLAG;
use crate::cpu::NEGATIVE_FLAG;
use crate::cpu::OVERFLOW_FLAG;
use crate::cpu::ZERO_FLAG;
use crate::cpu_ops::spec_adc;
use crate::cpu_ops::spec_jsr;
use crate::cpu_ops::spec_rts;
use crate::cpu_ops::spec_sbc;
use crate::cpu_step::spec_nmi;
use crate::cpu_step::spec_step;
use crate::mapper::MapperView;
use crate::opcodes::Mnemonic;
use crate::opcodes::OpCode;
use crate::ppu::spec_mirror_nametable;
use crate::ppu::spec_mirror_palette;
use crate::ppu::spec_ppu_mem_read;
use crate::ppu::spec_ppu_mem_written;
use crate::ppu::spec_frame_dots;
use crate::ppu::spec_tick_counters;
use crate::ppu::spec_ticks_from;
use crate::ppu::PpuView;
use crate::rom::Mirroring;

verus! {

/// The machine after `n` CPU steps with no interrupt asserted.
pub open spec fn spec_steps(v: CpuView, n: nat) -> CpuView
    decreases n,
{
    if n == 0 {
        v
    } else {
        spec_step(spec_steps(v, (n - 1) as nat), None)
    }
}

/// CPU determinism: the machine after any number of steps is a function
/// of the starting snapshot alone, so two runs from equal snapshots
/// produce identical register and memory streams. Together with `run`'s
/// contract (one call performs exactly one `spec_step`), repeated runs
/// of the same ROM and input sequence are bit-identical.
pub proof fn lemma_cpu_determinism(v1: CpuView, v2: CpuView, n: nat)
    requires
        v1 == v2,
    ensures
        spec_steps(v1, n) == spec_steps(v2, n),
{
}

/// ADC flag algebra: for every accumulator, operand and carry-in, the
/// result is the sum modulo 256, carry is the unsigned carry-out, zero
/// and negative describe the result, and overflow follows the signed
/// formula `(A ^ R) & (M ^ R) & 0x80`.
pub proof fn lemma_adc_flags(v: CpuView)
    requires
        v.cycles <= u64::MAX - 8,
    ensures
        ({
            let r = spec_adc(v, AddressingMode::Immediate);
            let m = v.mem[v.pc as int];
            let carry_in: int = if v.p & CARRY_FLAG != 0 {
                1int
            } else {
                0int
            };
            let sum = v.a + m + carry_in;
            &&& r.a == sum % 256
            &&& (r.p & CARRY_FLAG != 0) == (sum > 255)
            &&& (r.p & ZERO_FLAG != 0) == (sum % 256 == 0)
            &&& (r.p & NEGATIVE_FLAG != 0) == (sum % 256 >= 128)
            &&& (r.p & OVERFLOW_FLAG != 0) == (((v.a ^ r.a) & (m ^ r.a) & 0x80) == 0x80)
            &&& r.x == v.x && r.y == v.y && r.sp == v.sp && r.pc == v.pc
        }),
{
    crate::bits::lemma_u8_or_preserves();
    crate::bits::lemma_u8_andnot_preserves();
    crate::bits::lemma_u8_or_sets();
    crate::bits::lemma_u8_andnot_clears();
    crate::bits::lemma_u8_and_comm();
    crate::bits::lemma_flag_pairs();
    let a = v.a;
    let m = v.mem[v.pc as int];
    let carry_in: u16 = if v.p & CARRY_FLAG != 0 {
        1u16
    } else {
        0u16
    };
    let sum16 = (a as u16 + m as u16 + carry_in) as u16;
    assert(sum16 as u8 == sum16 % 256 && (sum16 % 256 >= 128 <==> (sum16 as u8) & 0x80 != 0)
        && ((sum16 as u8 == 0) <==> sum16 % 256 == 0)) by (bit_vector);
    assert(sum16 < 512 && sum16 == a + m + carry_in) by (bit_vector)
        requires
            sum16 == (a as u16 + m as u16 + carry_in) as u16 && carry_in <= 1,
    ;
}

/// SBC flag algebra: the result is `A - M - borrow` modulo 256, carry is
/// the logical complement of the borrow-out, zero and negative describe
/// the result, and overflow follows the signed formula.
pub proof fn lemma_sbc_flags(v: CpuView)
    requires
        v.cycles <= u64::MAX - 8,
    ensures
        ({
            let r = spec_sbc(v, AddressingMode::Immediate);
            let m = v.mem[v.pc as int];
            let borrow: int = if v.p & CARRY_FLAG != 0 {
                0int
            } else {
                1int
            };
            let diff = v.a - m - borrow;
            &&& r.a == (if diff >= 0 {
                diff
            } else {
                diff + 256
            })
            &&& (r.p & CARRY_FLAG != 0) == (diff >= 0)
            &&& (r.p & ZERO_FLAG != 0) == (r.a == 0)
            &&& (r.p & NEGATIVE_FLAG != 0) == (r.a >= 128)
            &&& (r.p & OVERFLOW_FLAG != 0) == (((v.a ^ r.a) & 0x80) != 0 && ((v.a ^ m) & 0x80)
                != 0)
        }),
{
    crate::bits::lemma_u8_or_preserves();
    crate::bits::lemma_u8_andnot_preserves();
    crate::bits::lemma_u8_or_sets();
    crate::bits::lemma_u8_andnot_clears();
    crate::bits::lemma_u8_and_comm();
    crate::bits::lemma_flag_pairs();
    let a = v.a;
    let m = v.mem[v.pc as int];
    let borrow: u8 = if v.p & CARRY_FLAG != 0 {
        0u8
    } else {
        1u8
    };
    let r8 = a.wrapping_sub(m).wrapping_sub(borrow);
    assert((r8 & 0x80 != 0 <==> r8 >= 128) && r8 == (if a - m - borrow >= 0 {
        a - m - borrow
    } else {
        a - m - borrow + 256
    }) && (((a as u16) < m as u16 + borrow as u16) <==> a - m - borrow < 0)) by (bit_vector)
        requires
            borrow <= 1 && r8 == a.wrapping_sub(m).wrapping_sub(borrow),
    ;
}

/// PHA/PLA round trip: popping right after a push returns the pushed
/// byte and restores the stack pointer; only the pushed slot of page
/// 0x01 changed.
pub proof fn lemma_stack_roundtrip_byte(v: CpuView, value: u8)
    requires
        v.mem.len() == 0x10000,
    ensures
        ({
            let v1 = spec_push(v, value);
            let (back, v2) = spec_pop(v1);
            &&& back == value
            &&& v2.sp == v.sp
            &&& v2.pc == v.pc && v2.a == v.a && v2.p == v.p
            &&& v2.mem == v.mem.update(0x0100 + v.sp as int, value)
        }),
{
    let v1 = spec_push(v, value);
    assert(v1.sp.wrapping_add(1) == v.sp);
}

/// PHP/PLP masking: a pulled status byte always has B clear and bit 5
/// set, and agrees with the pushed status everywhere else.
pub proof fn lemma_pulled_status_mask(p: u8)
    ensures
        spec_pulled_status(p) & 0x10 == 0,
        spec_pulled_status(p) & 0x20 == 0x20,
        spec_pulled_status(p) & 0xCF == p & 0xCF,
        spec_pulled_status(p | BREAK_FLAG) & 0xCF == p & 0xCF,
{
    assert(((p | 0x30) - 0x10) as u8 & 0x10 == 0 && ((p | 0x30) - 0x10) as u8 & 0x20 == 0x20 && ((p
        | 0x30) - 0x10) as u8 & 0xCF == p & 0xCF && (((p | 0x10) | 0x30) - 0x10) as u8 & 0xCF == p
        & 0xCF) by (bit_vector);
}

/// JSR/RTS round trip: if the stack page does not overlap the two
/// operand bytes, returning lands exactly past the three-byte JSR.
pub proof fn lemma_jsr_rts_roundtrip(v: CpuView)
    requires
        v.sp >= 2,
        v.mem.len() == 0x10000,
    ensures
        ({
            let v1 = spec_jsr(v, AddressingMode::Absolute);
            let v2 = spec_rts(v1);
            &&& v2.pc == v.pc.wrapping_add(2)
            &&& v2.sp == v.sp
        }),
{
    let pc = v.pc;
    let ret = pc.wrapping_add(1);
    assert((((((ret >> 8) & 0xFF) as u8) as u16) << 8 | (((ret & 0xFF) as u8) as u16)) == ret
        && ret.wrapping_add(1) == pc.wrapping_add(2)) by (bit_vector)
        requires
            ret == pc.wrapping_add(1),
    ;
    assert(v.sp != v.sp - 1 && 0x0100 + (v.sp - 1) != 0x0100 + v.sp);
}

/// NMI/RTI round trip: returning from the interrupt restores the
/// program counter, and the restored status agrees with the saved one
/// on every flag outside bits 4 and 5.
pub proof fn lemma_nmi_rti_roundtrip(v: CpuView)
    requires
        v.sp >= 3,
        v.mem.len() == 0x10000,
        v.cycles <= u64::MAX - 7,
    ensures
        ({
            let v1 = spec_nmi(v);
            let v2 = crate::cpu_ops::spec_rti(v1);
            &&& v2.pc == v.pc
            &&& v2.sp == v.sp
            &&& v2.p & 0xCF == v.p & 0xCF
        }),
{
    let v1 = spec_nmi(v);
    let p = v.p;
    let ret = v.pc;
    assert((((((ret >> 8) & 0xFF) as u8) as u16) << 8 | (((ret & 0xFF) as u8) as u16)) == ret)
        by (bit_vector);
    crate::bits::lemma_u8_or_preserves();
    crate::bits::lemma_u8_or_sets();
    crate::bits::lemma_flag_pairs();
    crate::bits::lemma_u8_and_comm();
    assert((((((p & !0x10) | 0x30) - 0x10) as u8) & 0xCF) == p & 0xCF) by (bit_vector);
}

/// Nametable mirroring stays inside the two physical KiB for the
/// two-table modes, and two addresses alias exactly when the
/// translation sends them to the same cell.
pub proof fn lemma_mirror_nametable_bound(m: Mirroring, addr: u16)
    requires
        !(m is FourScreen),
    ensures
        spec_mirror_nametable(m, addr) < 2048,
{
    let mirrored = addr & 0x0FFF;
    let index = mirrored / 0x400;
    crate::bits::lemma_u16_mask_bound();
    assert(mirrored <= 0x0FFF);
    assert(index >= 2 ==> mirrored >= 0x800) by (nonlinear_arith)
        requires
            index == mirrored / 0x400,
    ;
    assert(index >= 1 ==> mirrored >= 0x400) by (nonlinear_arith)
        requires
            index == mirrored / 0x400,
    ;
    assert(index >= 3 ==> mirrored >= 0xC00) by (nonlinear_arith)
        requires
            index == mirrored / 0x400,
    ;
    assert(index <= 1 ==> mirrored < 0x800) by (nonlinear_arith)
        requires
            index == mirrored / 0x400,
            mirrored <= 0x0FFF,
    ;
    assert(index <= 0 ==> mirrored < 0x400) by (nonlinear_arith)
        requires
            index == mirrored / 0x400,
            mirrored <= 0x0FFF,
    ;
    assert(index <= 3) by (nonlinear_arith)
        requires
            index == mirrored / 0x400,
            mirrored <= 0x0FFF,
    ;
}

/// PPU mirroring: in the two-table modes, a write to any nametable
/// address is observable as a read at exactly the addresses the
/// mirroring sends to the same cell.
pub proof fn lemma_nametable_mirroring(rv: PpuView, mv: MapperView, a: u16, b: u16, data: u8)
    requires
        0x2000 <= a <= 0x2FFF,
        0x2000 <= b <= 0x2FFF,
        !(rv.mirroring is FourScreen),
        rv.vram.len() == 2048,
    ensures
        ({
            let (rv1, mv1) = spec_ppu_mem_written(rv, mv, a, data);
            spec_ppu_mem_read(rv1, mv1, b) == if spec_mirror_nametable(rv.mirroring, a)
                == spec_mirror_nametable(rv.mirroring, b) {
                data
            } else {
                spec_ppu_mem_read(rv, mv, b)
            }
        }),
{
    lemma_mirror_nametable_bound(rv.mirroring, a);
    lemma_mirror_nametable_bound(rv.mirroring, b);
}

/// Palette mirroring: a write anywhere in palette space is observable
/// as a read at exactly the addresses that alias to the same palette
/// byte; in particular 0x3F10/0x3F14/0x3F18/0x3F1C alias
/// 0x3F00/0x3F04/0x3F08/0x3F0C and vice versa.
pub proof fn lemma_palette_mirroring(rv: PpuView, mv: MapperView, a: u16, b: u16, data: u8)
    requires
        0x3F00 <= a <= 0x3FFF,
        0x3F00 <= b <= 0x3FFF,
        rv.palette.len() == 32,
    ensures
        ({
            let (rv1, mv1) = spec_ppu_mem_written(rv, mv, a, data);
            spec_ppu_mem_read(rv1, mv1, b) == if spec_mirror_palette(a) == spec_mirror_palette(b) {
                data
            } else {
                spec_ppu_mem_read(rv, mv, b)
            }
        }),
{
    assert(0 <= spec_mirror_palette(a) < 32);
    assert(0 <= spec_mirror_palette(b) < 32);
}

/// The four mirror positions alias downward onto the backdrop entries.
pub proof fn lemma_palette_mirror_positions()
    ensures
        spec_mirror_palette(0x3F10) == spec_mirror_palette(0x3F00),
        spec_mirror_palette(0x3F14) == spec_mirror_palette(0x3F04),
        spec_mirror_palette(0x3F18) == spec_mirror_palette(0x3F08),
        spec_mirror_palette(0x3F1C) == spec_mirror_palette(0x3F0C),
{
}

/// The OAM address after `n` DMA steps: it advances by one per step,
/// modulo 256.
pub proof fn lemma_dma_oam_addr(v: BusView, page: u16, n: nat)
    ensures
        spec_dma(v, page, n).ppu.oam_addr == ((v.ppu.oam_addr + n) % 256) as u8,
    decreases n,
{
    if n == 0 {
    } else {
        lemma_dma_oam_addr(v, page, (n - 1) as nat);
    }
}

/// After a whole OAM DMA burst the PPU's OAM address has wrapped all the
/// way around: its net change is zero.
pub proof fn lemma_dma_oam_addr_roundtrip(v: BusView, page: u16)
    ensures
        spec_dma(v, page, 256).ppu.oam_addr == v.ppu.oam_addr,
{
    lemma_dma_oam_addr(v, page, 256);
}

/// Frame pacing: a dot of the PPU automaton advances the frame's dot
/// index by exactly one; the frame completes exactly at dot 89341 (the
/// last of 89342 = 262 x 341 dots), or one dot early when the odd-frame
/// skip fires — so even frames are 89342 dots long and odd rendered
/// frames 89341, which at three dots per CPU cycle is one frame per
/// roughly 29,781 CPU cycles.
pub proof fn lemma_frame_pacing(scanline: int, cycle: int, rendering: bool, odd: bool)
    requires
        0 <= scanline <= 261,
        0 <= cycle <= 340,
    ensures
        ({
            let (s2, c2, wrapped) = spec_tick_counters(scanline, cycle, rendering, odd);
            let dot = scanline * 341 + cycle;
            &&& wrapped <==> (dot == 89341 || (dot == 89340 && rendering && odd))
            &&& !wrapped ==> s2 * 341 + c2 == dot + 1
            &&& wrapped ==> s2 == 0 && c2 == 0
        }),
{
    assert(scanline * 341 <= 261 * 341) by (nonlinear_arith)
        requires
            scanline <= 261,
    ;
    assert(scanline * 341 + cycle == 89341 && 0 <= cycle <= 340 ==> scanline == 261 && cycle == 340)
        by (nonlinear_arith);
    assert(scanline * 341 + cycle == 89340 && 0 <= cycle <= 340 ==> scanline == 261 && cycle == 339)
        by (nonlinear_arith);
    assert((scanline + 1) * 341 == scanline * 341 + 341) by (nonlinear_arith);
}


/// The documented cycle surcharge of one instruction, decoded at the
/// snapshot `v1` (program counter already past the opcode byte): the
/// page-cross penalty of the read instructions, and the taken-branch
/// penalty with its own page-cross surcharge.
pub open spec fn spec_cycle_penalty(v1: CpuView, op: OpCode) -> int {
    match op.mnemonic {
        Mnemonic::ADC | Mnemonic::AND | Mnemonic::CMP | Mnemonic::CPX | Mnemonic::CPY
            | Mnemonic::EOR | Mnemonic::LDA | Mnemonic::LDX | Mnemonic::LDY | Mnemonic::NOP
            | Mnemonic::ORA | Mnemonic::SBC | Mnemonic::LAS | Mnemonic::LAX => {
            let (addr, crossed) = crate::cpu_ops::spec_operand(v1, op.mode);
            if crossed {
                1int
            } else {
                0int
            }
        },
        Mnemonic::BCC | Mnemonic::BCS | Mnemonic::BEQ | Mnemonic::BNE | Mnemonic::BMI
            | Mnemonic::BPL | Mnemonic::BVC | Mnemonic::BVS => {
            let taken = match op.mnemonic {
                Mnemonic::BCC => v1.p & CARRY_FLAG == 0,
                Mnemonic::BCS => v1.p & CARRY_FLAG != 0,
                Mnemonic::BEQ => v1.p & ZERO_FLAG != 0,
                Mnemonic::BNE => v1.p & ZERO_FLAG == 0,
                Mnemonic::BMI => v1.p & NEGATIVE_FLAG != 0,
                Mnemonic::BPL => v1.p & NEGATIVE_FLAG == 0,
                Mnemonic::BVC => v1.p & OVERFLOW_FLAG == 0,
                _ => v1.p & OVERFLOW_FLAG != 0,
            };
            if taken {
                let offset = v1.mem[v1.pc as int];
                let jump_addr = v1.pc.wrapping_add(1).wrapping_add((offset as i8) as u16);
                let next_instruction = v1.pc.wrapping_add((op.len - 1) as u16);
                if crate::cpu::spec_page_cross(next_instruction, jump_addr) {
                    2int
                } else {
                    1int
                }
            } else {
                0int
            }
        },
        _ => 0int,
    }
}

/// Instruction cycle counts: one CPU step advances the cycle counter by
/// exactly the opcode table's base count plus the documented page-cross
/// and branch-taken surcharges.
#[verifier::rlimit(100)]
#[verifier::spinoff_prover]
pub proof fn lemma_cycle_counts(v: CpuView)
    requires
        v.cycles <= u64::MAX - 1000,
    ensures
        ({
            let op = crate::opcodes::spec_opcode(v.mem[v.pc as int]);
            let v1 = CpuView { pc: v.pc.wrapping_add(1), ..v };
            spec_step(v, None).cycles == v.cycles + op.cycles + spec_cycle_penalty(v1, op)
        }),
{
    let op = crate::opcodes::spec_opcode(v.mem[v.pc as int]);
    crate::opcodes::lemma_opcode_table_ok(v.mem[v.pc as int]);
}


/// One whole frame, dot by dot: starting at (0, 0), no frame completes
/// before `spec_frame_dots` dots have passed, and exactly one completes
/// at that dot, leaving the counters back at (0, 0). Even frames are
/// 89342 dots and odd rendered frames 89341 — at three dots per CPU
/// cycle, one frame per roughly 29,781 CPU cycles.
pub proof fn lemma_frame_duration(rendering: bool, odd: bool, n: nat)
    requires
        n <= spec_frame_dots(rendering, odd),
    ensures
        ({
            let (s, c, frames) = spec_ticks_from(0, 0, rendering, odd, n);
            &&& (n < spec_frame_dots(rendering, odd) ==> frames == 0 && 0 <= s <= 261 && 0 <= c
                <= 340 && s * 341 + c == n)
            &&& (n == spec_frame_dots(rendering, odd) ==> frames == 1 && s == 0 && c == 0)
        }),
    decreases n,
{
    if n > 0 {
        lemma_frame_duration(rendering, odd, (n - 1) as nat);
        let (s1, c1, frames1) = spec_ticks_from(0, 0, rendering, odd, (n - 1) as nat);
        lemma_frame_pacing(s1, c1, rendering, odd);
        if n < spec_frame_dots(rendering, odd) {
            let (s2, c2, frames2) = spec_ticks_from(0, 0, rendering, odd, n);
            assert(s2 * 341 + c2 == n);
            assert(s2 <= 261 && c2 <= 340) by (nonlinear_arith)
                requires
                    s2 * 341 + c2 == n,
                    n < 89342,
                    0 <= c2 <= 340,
                    0 <= s2,
            ;
        }
    }
}


/// The 16-bit write/read round trip on work RAM: writing a word with
/// the console's little-endian discipline and reading it back through
/// the same decode returns the word, and the reads change nothing.
pub proof fn lemma_ram_word_roundtrip(v: BusView, pos: u16, data: u16)
    requires
        pos <= 0x1FFE,
        v.ram.len() == 2048,
    ensures
        ({
            let v1 = crate::bus::spec_bus_write(v, pos, (data & 0xff) as u8);
            let v2 = crate::bus::spec_bus_write(v1, pos.wrapping_add(1), (data >> 8) as u8);
            let (lo, v3) = crate::bus::spec_bus_read(v2, pos);
            let (hi, v4) = crate::bus::spec_bus_read(v3, pos.wrapping_add(1));
            &&& (hi as u16) << 8 | (lo as u16) == data
            &&& v3 == v2 && v4 == v2
        }),
{
    assert(pos.wrapping_add(1) == pos + 1);
    let a = pos & 0x07FF;
    let b = (pos + 1) as u16 & 0x07FF;
    assert(a != b && a < 2048 && b < 2048 && ((((data >> 8) as u8) as u16) << 8 | (((data
        & 0xff) as u8) as u16)) == data) by (bit_vector)
        requires
            a == pos & 0x07FF,
            b == (pos + 1) as u16 & 0x07FF,
            pos <= 0x1FFE,
    ;
}

} // verus!

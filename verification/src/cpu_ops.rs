//! The official 6502 instruction set: one executable method and one
//! spec twin per instruction. Against a bus that obeys the flat memory
//! model, each method's contract says it performs exactly its twin's
//! state transition.

use vstd::prelude::*;

use crate::bus::read16;
use crate::bus::CpuBus;
use crate::bus::Memory;
use crate::cpu::addr_mode_resolvable;
use crate::cpu::spec_operand_addr;
use crate::cpu::spec_page_cross;
use crate::cpu::spec_pop;
use crate::cpu::spec_pop16;
use crate::cpu::spec_pulled_status;
use crate::cpu::spec_push;
use crate::cpu::spec_push16;
use crate::cpu::spec_set_flag;
use crate::cpu::spec_set_zn;
use crate::cpu::AddressingMode;
use crate::cpu::CpuView;
use crate::cpu::BREAK_FLAG;
use crate::cpu::CARRY_FLAG;
use crate::cpu::CPU;
use crate::cpu::DECIMAL_FLAG;
use crate::cpu::IRQ_FLAG;
use crate::cpu::NEGATIVE_FLAG;
use crate::cpu::OVERFLOW_FLAG;
use crate::cpu::ZERO_FLAG;
use crate::opcodes::OpCode;

verus! {

/// The operand of `mode`, resolved at the current program counter.
pub open spec fn spec_operand(v: CpuView, mode: AddressingMode) -> (u16, bool) {
    spec_operand_addr(v.mem, v.x, v.y, mode, v.pc)
}

/// The cycle counter after an optional page-cross penalty.
pub open spec fn spec_bump(cycles: u64, crossed: bool) -> u64 {
    if crossed {
        (cycles + 1) as u64
    } else {
        cycles
    }
}

/// ADC: add the operand and the carry into A; carry out, signed
/// overflow, zero and negative follow the 6502 rules.
pub open spec fn spec_adc(v: CpuView, mode: AddressingMode) -> CpuView {
    let (addr, crossed) = spec_operand(v, mode);
    let value = v.mem[addr as int];
    let sum = (v.a as u16 + value as u16 + if v.p & CARRY_FLAG != 0 {
        1u16
    } else {
        0u16
    }) as u16;
    let r = sum as u8;
    let p1 = spec_set_flag(v.p, CARRY_FLAG, sum > 255);
    let p2 = spec_set_flag(p1, OVERFLOW_FLAG, ((v.a ^ r) & (value ^ r) & 0x80) == 0x80);
    let p3 = spec_set_zn(p2, r);
    CpuView { a: r, p: p3, cycles: spec_bump(v.cycles, crossed), ..v }
}

/// SBC: subtract the operand and the borrow from A.
pub open spec fn spec_sbc(v: CpuView, mode: AddressingMode) -> CpuView {
    let (addr, crossed) = spec_operand(v, mode);
    let value = v.mem[addr as int];
    let borrow = if v.p & CARRY_FLAG != 0 {
        0u8
    } else {
        1u8
    };
    let r = v.a.wrapping_sub(value).wrapping_sub(borrow);
    let borrowed = (v.a as u16) < value as u16 + borrow as u16;
    let p1 = spec_set_flag(v.p, CARRY_FLAG, !borrowed);
    let p2 = spec_set_flag(
        p1,
        OVERFLOW_FLAG,
        ((v.a ^ r) & 0x80) != 0 && ((v.a ^ value) & 0x80) != 0,
    );
    let p3 = spec_set_zn(p2, r);
    CpuView { a: r, p: p3, cycles: spec_bump(v.cycles, crossed), ..v }
}

/// AND / EOR / ORA: combine the operand into A and refresh Z and N.
pub open spec fn spec_logic(v: CpuView, mode: AddressingMode, kind: int) -> CpuView {
    let (addr, crossed) = spec_operand(v, mode);
    let value = v.mem[addr as int];
    let r = if kind == 0 {
        v.a & value
    } else if kind == 1 {
        v.a ^ value
    } else {
        v.a | value
    };
    CpuView { a: r, p: spec_set_zn(v.p, r), cycles: spec_bump(v.cycles, crossed), ..v }
}

/// ASL: shift left; the bit shifted out becomes the carry.
pub open spec fn spec_asl(v: CpuView, mode: AddressingMode) -> CpuView {
    if mode is Accumulator {
        let p1 = spec_set_flag(v.p, CARRY_FLAG, (v.a & 0x80) != 0);
        let r = v.a << 1;
        CpuView { a: r, p: spec_set_zn(p1, r), ..v }
    } else {
        let (addr, crossed) = spec_operand(v, mode);
        let value = v.mem[addr as int];
        let r = value << 1;
        let p1 = spec_set_flag(v.p, CARRY_FLAG, (value & 0x80) != 0);
        CpuView { mem: v.mem.update(addr as int, r), p: spec_set_zn(p1, r), ..v }
    }
}

/// LSR: shift right; the bit shifted out becomes the carry.
pub open spec fn spec_lsr(v: CpuView, mode: AddressingMode) -> CpuView {
    if mode is Accumulator {
        let p1 = spec_set_flag(v.p, CARRY_FLAG, (v.a & 1) == 1);
        let r = v.a >> 1;
        CpuView { a: r, p: spec_set_zn(p1, r), ..v }
    } else {
        let (addr, crossed) = spec_operand(v, mode);
        let value = v.mem[addr as int];
        let r = value >> 1;
        let p1 = spec_set_flag(v.p, CARRY_FLAG, (value & 1) == 1);
        CpuView { mem: v.mem.update(addr as int, r), p: spec_set_zn(p1, r), ..v }
    }
}

/// ROL: rotate left through the carry.
pub open spec fn spec_rol(v: CpuView, mode: AddressingMode) -> CpuView {
    let carry_in = if v.p & CARRY_FLAG != 0 {
        1u8
    } else {
        0u8
    };
    if mode is Accumulator {
        let new_carry = ((v.a >> 7) & 1) == 1;
        let r = (v.a << 1) | carry_in;
        let p1 = spec_set_flag(v.p, CARRY_FLAG, new_carry);
        CpuView { a: r, p: spec_set_zn(p1, r), ..v }
    } else {
        let (addr, crossed) = spec_operand(v, mode);
        let value = v.mem[addr as int];
        let new_carry = ((value >> 7) & 1) == 1;
        let r = (value << 1) | carry_in;
        let p1 = spec_set_flag(v.p, CARRY_FLAG, new_carry);
        CpuView { mem: v.mem.update(addr as int, r), p: spec_set_zn(p1, r), ..v }
    }
}

/// ROR: rotate right through the carry.
pub open spec fn spec_ror(v: CpuView, mode: AddressingMode) -> CpuView {
    let carry_in = v.p & CARRY_FLAG != 0;
    if mode is Accumulator {
        let new_carry = (v.a & 1) == 1;
        let r = if carry_in {
            (v.a >> 1) | 0x80
        } else {
            v.a >> 1
        };
        let p1 = spec_set_flag(v.p, CARRY_FLAG, new_carry);
        CpuView { a: r, p: spec_set_zn(p1, r), ..v }
    } else {
        let (addr, crossed) = spec_operand(v, mode);
        let value = v.mem[addr as int];
        let new_carry = (value & 1) == 1;
        let r = if carry_in {
            (value >> 1) | 0x80
        } else {
            value >> 1
        };
        let p1 = spec_set_flag(v.p, CARRY_FLAG, new_carry);
        CpuView { mem: v.mem.update(addr as int, r), p: spec_set_zn(p1, r), ..v }
    }
}

/// BIT: Z from A & M, N from bit 7 of M, V from bit 6 of M.
pub open spec fn spec_bit(v: CpuView, mode: AddressingMode) -> CpuView {
    let (addr, crossed) = spec_operand(v, mode);
    let value = v.mem[addr as int];
    let p1 = spec_set_flag(v.p, ZERO_FLAG, (v.a & value) == 0);
    let p2 = spec_set_flag(p1, NEGATIVE_FLAG, (value & 0x80) != 0);
    let p3 = spec_set_flag(p2, OVERFLOW_FLAG, (value & 0x40) != 0);
    CpuView { p: p3, ..v }
}

/// CMP / CPX / CPY: compare a register with the operand.
pub open spec fn spec_cmp_register(v: CpuView, reg: u8, mode: AddressingMode) -> CpuView {
    let (addr, crossed) = spec_operand(v, mode);
    let value = v.mem[addr as int];
    let p1 = spec_set_flag(v.p, CARRY_FLAG, reg >= value);
    let p2 = spec_set_flag(p1, ZERO_FLAG, reg == value);
    let p3 = spec_set_flag(p2, NEGATIVE_FLAG, (reg.wrapping_sub(value) & 0x80) != 0);
    CpuView { p: p3, cycles: spec_bump(v.cycles, crossed), ..v }
}

/// DEC / INC: decrement or increment a memory byte.
pub open spec fn spec_dec(v: CpuView, mode: AddressingMode) -> CpuView {
    let (addr, crossed) = spec_operand(v, mode);
    let r = v.mem[addr as int].wrapping_sub(1);
    CpuView { mem: v.mem.update(addr as int, r), p: spec_set_zn(v.p, r), ..v }
}

pub open spec fn spec_inc(v: CpuView, mode: AddressingMode) -> CpuView {
    let (addr, crossed) = spec_operand(v, mode);
    let r = v.mem[addr as int].wrapping_add(1);
    CpuView { mem: v.mem.update(addr as int, r), p: spec_set_zn(v.p, r), ..v }
}

/// LDA / LDX / LDY: load a register and refresh Z and N.
pub open spec fn spec_lda(v: CpuView, mode: AddressingMode) -> CpuView {
    let (addr, crossed) = spec_operand(v, mode);
    let value = v.mem[addr as int];
    CpuView { a: value, p: spec_set_zn(v.p, value), cycles: spec_bump(v.cycles, crossed), ..v }
}

pub open spec fn spec_ldx(v: CpuView, mode: AddressingMode) -> CpuView {
    let (addr, crossed) = spec_operand(v, mode);
    let value = v.mem[addr as int];
    CpuView { x: value, p: spec_set_zn(v.p, value), cycles: spec_bump(v.cycles, crossed), ..v }
}

pub open spec fn spec_ldy(v: CpuView, mode: AddressingMode) -> CpuView {
    let (addr, crossed) = spec_operand(v, mode);
    let value = v.mem[addr as int];
    CpuView { y: value, p: spec_set_zn(v.p, value), cycles: spec_bump(v.cycles, crossed), ..v }
}

/// STA / STX / STY: store a register.
pub open spec fn spec_sta(v: CpuView, mode: AddressingMode) -> CpuView {
    let (addr, crossed) = spec_operand(v, mode);
    CpuView { mem: v.mem.update(addr as int, v.a), ..v }
}

pub open spec fn spec_stx(v: CpuView, mode: AddressingMode) -> CpuView {
    let (addr, crossed) = spec_operand(v, mode);
    CpuView { mem: v.mem.update(addr as int, v.x), ..v }
}

pub open spec fn spec_sty(v: CpuView, mode: AddressingMode) -> CpuView {
    let (addr, crossed) = spec_operand(v, mode);
    CpuView { mem: v.mem.update(addr as int, v.y), ..v }
}

/// NOP: the undocumented wide forms still resolve their operand, so the
/// page-cross penalty is charged.
pub open spec fn spec_nop(v: CpuView, mode: AddressingMode) -> CpuView {
    let (addr, crossed) = spec_operand(v, mode);
    CpuView { cycles: spec_bump(v.cycles, crossed), ..v }
}

/// A taken branch: jump relative to the byte after the offset, one extra
/// cycle, two when the jump crosses a page.
pub open spec fn spec_branch(v: CpuView, op: OpCode) -> CpuView {
    let offset = v.mem[v.pc as int];
    let jump_addr = v.pc.wrapping_add(1).wrapping_add((offset as i8) as u16);
    let next_instruction = v.pc.wrapping_add((op.len - 1) as u16);
    let with_taken = (v.cycles + 1) as u64;
    let cycles = if spec_page_cross(next_instruction, jump_addr) {
        (with_taken + 1) as u64
    } else {
        with_taken
    };
    CpuView { pc: jump_addr, cycles, ..v }
}

/// BRK: push the return address and the status with B set, set the IRQ
/// disable, and vector through 0xFFFE.
pub open spec fn spec_brk(v: CpuView) -> CpuView {
    let v1 = spec_push16(v, v.pc.wrapping_add(1));
    let v2 = spec_push(v1, v.p | 0x10);
    let v3 = CpuView { p: spec_set_flag(v2.p, IRQ_FLAG, true), ..v2 };
    CpuView { pc: read16(v3.mem, 0xFFFE), ..v3 }
}

/// JSR: push the address of the last byte of the instruction, then jump.
pub open spec fn spec_jsr(v: CpuView, mode: AddressingMode) -> CpuView {
    let (addr, crossed) = spec_operand(v, mode);
    let v1 = spec_push16(v, v.pc.wrapping_add(1));
    CpuView { pc: addr, ..v1 }
}

/// RTS: pull the return address and resume one byte past it.
pub open spec fn spec_rts(v: CpuView) -> CpuView {
    let (addr, v1) = spec_pop16(v);
    CpuView { pc: addr.wrapping_add(1), ..v1 }
}

/// RTI: pull the status (B cleared, bit 5 forced), then the return
/// address.
pub open spec fn spec_rti(v: CpuView) -> CpuView {
    let (value, v1) = spec_pop(v);
    let v2 = CpuView { p: spec_pulled_status(value), ..v1 };
    let (addr, v3) = spec_pop16(v2);
    CpuView { pc: addr, ..v3 }
}

impl<B: Memory + CpuBus> CPU<B> {
    pub(crate) fn adc(&mut self, mode: &AddressingMode)
        requires
            old(self).inv(),
            addr_mode_resolvable(*mode),
            old(self).cycles < u64::MAX,
        ensures
            final(self).inv(),
            final(self).bus.frames_completed() == old(self).bus.frames_completed(),
            old(self).cycles <= final(self).cycles <= old(self).cycles + 1,
            B::obeys_model() ==> final(self)@ == spec_adc(old(self)@, *mode),
    {
        let (addr, page_cross) = self.get_operand_address(mode);
        let value: u8 = self.bus.mem_read(addr);
        let mut result: u16 = self.register_a as u16 + value as u16;
        if self.get_flag(CARRY_FLAG) {
            result = result + 1;
        }
        self.set_flag(CARRY_FLAG, result > 255);
        let result: u8 = result as u8;
        self.set_flag(OVERFLOW_FLAG, ((self.register_a ^ result) & (value ^ result) & 0x80) == 0x80);
        self.set_zero_and_negative_flags(result);
        self.register_a = result;
        if page_cross {
            self.cycles = self.cycles + 1;
        }
    }

    pub(crate) fn sbc(&mut self, mode: &AddressingMode)
        requires
            old(self).inv(),
            addr_mode_resolvable(*mode),
            old(self).cycles < u64::MAX,
        ensures
            final(self).inv(),
            final(self).bus.frames_completed() == old(self).bus.frames_completed(),
            old(self).cycles <= final(self).cycles <= old(self).cycles + 1,
            B::obeys_model() ==> final(self)@ == spec_sbc(old(self)@, *mode),
    {
        let (addr, page_cross) = self.get_operand_address(mode);
        let value: u8 = self.bus.mem_read(addr);
        let accumulator: u8 = self.register_a;
        let borrow: u8 = if self.get_flag(CARRY_FLAG) {
            0
        } else {
            1
        };
        let result: u8 = accumulator.wrapping_sub(value).wrapping_sub(borrow);
        let borrowed: bool = (accumulator as u16) < value as u16 + borrow as u16;
        self.set_flag(CARRY_FLAG, !borrowed);
        let overflow: bool = ((accumulator ^ result) & 0x80) != 0 && ((accumulator ^ value) & 0x80)
            != 0;
        self.set_flag(OVERFLOW_FLAG, overflow);
        self.register_a = result;
        self.set_zero_and_negative_flags(self.register_a);
        if page_cross {
            self.cycles = self.cycles + 1;
        }
    }

    pub(crate) fn and(&mut self, mode: &AddressingMode)
        requires
            old(self).inv(),
            addr_mode_resolvable(*mode),
            old(self).cycles < u64::MAX,
        ensures
            final(self).inv(),
            final(self).bus.frames_completed() == old(self).bus.frames_completed(),
            old(self).cycles <= final(self).cycles <= old(self).cycles + 1,
            B::obeys_model() ==> final(self)@ == spec_logic(old(self)@, *mode, 0),
    {
        let (addr, page_cross) = self.get_operand_address(mode);
        let value: u8 = self.bus.mem_read(addr);
        self.register_a = self.register_a & value;
        self.set_zero_and_negative_flags(self.register_a);
        if page_cross {
            self.cycles = self.cycles + 1;
        }
    }

    pub(crate) fn eor(&mut self, mode: &AddressingMode)
        requires
            old(self).inv(),
            addr_mode_resolvable(*mode),
            old(self).cycles < u64::MAX,
        ensures
            final(self).inv(),
            final(self).bus.frames_completed() == old(self).bus.frames_completed(),
            old(self).cycles <= final(self).cycles <= old(self).cycles + 1,
            B::obeys_model() ==> final(self)@ == spec_logic(old(self)@, *mode, 1),
    {
        let (addr, page_cross) = self.get_operand_address(mode);
        let value: u8 = self.bus.mem_read(addr);
        self.register_a = self.register_a ^ value;
        self.set_zero_and_negative_flags(self.register_a);
        if page_cross {
            self.cycles = self.cycles + 1;
        }
    }

    pub(crate) fn ora(&mut self, mode: &AddressingMode)
        requires
            old(self).inv(),
            addr_mode_resolvable(*mode),
            old(self).cycles < u64::MAX,
        ensures
            final(self).inv(),
            final(self).bus.frames_completed() == old(self).bus.frames_completed(),
            old(self).cycles <= final(self).cycles <= old(self).cycles + 1,
            B::obeys_model() ==> final(self)@ == spec_logic(old(self)@, *mode, 2),
    {
        let (addr, page_cross) = self.get_operand_address(mode);
        let value: u8 = self.bus.mem_read(addr);
        self.register_a = self.register_a | value;
        self.set_zero_and_negative_flags(self.register_a);
        if page_cross {
            self.cycles = self.cycles + 1;
        }
    }

    pub(crate) fn asl(&mut self, mode: &AddressingMode)
        requires
            old(self).inv(),
            mode is Accumulator || addr_mode_resolvable(*mode),
        ensures
            final(self).inv(),
            final(self).bus.frames_completed() == old(self).bus.frames_completed(),
            final(self).cycles == old(self).cycles,
            B::obeys_model() ==> final(self)@ == spec_asl(old(self)@, *mode),
    {
        match mode {
            AddressingMode::Accumulator => {
                self.set_flag(CARRY_FLAG, (self.register_a & 0x80) != 0);
                self.register_a = self.register_a << 1;
                self.set_zero_and_negative_flags(self.register_a);
            },
            _ => {
                let (addr, _) = self.get_operand_address(mode);
                let value: u8 = self.bus.mem_read(addr);
                let result: u8 = value << 1;
                self.bus.mem_write(addr, result);
                self.set_flag(CARRY_FLAG, (value & 0x80) != 0);
                self.set_zero_and_negative_flags(result);
            },
        }
    }

    pub(crate) fn lsr(&mut self, mode: &AddressingMode)
        requires
            old(self).inv(),
            mode is Accumulator || addr_mode_resolvable(*mode),
        ensures
            final(self).inv(),
            final(self).bus.frames_completed() == old(self).bus.frames_completed(),
            final(self).cycles == old(self).cycles,
            B::obeys_model() ==> final(self)@ == spec_lsr(old(self)@, *mode),
    {
        match mode {
            AddressingMode::Accumulator => {
                self.set_flag(CARRY_FLAG, (self.register_a & 1) == 1);
                self.register_a = self.register_a >> 1;
                self.set_zero_and_negative_flags(self.register_a);
            },
            _ => {
                let (addr, _) = self.get_operand_address(mode);
                let value: u8 = self.bus.mem_read(addr);
                let result: u8 = value >> 1;
                self.bus.mem_write(addr, result);
                self.set_flag(CARRY_FLAG, (value & 1) == 1);
                self.set_zero_and_negative_flags(result);
            },
        }
    }

    pub(crate) fn rol(&mut self, mode: &AddressingMode)
        requires
            old(self).inv(),
            mode is Accumulator || addr_mode_resolvable(*mode),
        ensures
            final(self).inv(),
            final(self).bus.frames_completed() == old(self).bus.frames_completed(),
            final(self).cycles == old(self).cycles,
            B::obeys_model() ==> final(self)@ == spec_rol(old(self)@, *mode),
    {
        match mode {
            AddressingMode::Accumulator => {
                let current_carry_flag: u8 = if self.get_flag(CARRY_FLAG) {
                    1
                } else {
                    0
                };
                let new_carry_flag: bool = ((self.register_a >> 7) & 1) == 1;
                self.register_a = (self.register_a << 1) | current_carry_flag;
                self.set_flag(CARRY_FLAG, new_carry_flag);
                self.set_zero_and_negative_flags(self.register_a);
            },
            _ => {
                let (addr, _) = self.get_operand_address(mode);
                let value: u8 = self.bus.mem_read(addr);
                let current_carry_flag: u8 = if self.get_flag(CARRY_FLAG) {
                    1
                } else {
                    0
                };
                let new_carry_flag: bool = ((value >> 7) & 1) == 1;
                let result: u8 = (value << 1) | current_carry_flag;
                self.bus.mem_write(addr, result);
                self.set_flag(CARRY_FLAG, new_carry_flag);
                self.set_zero_and_negative_flags(result);
            },
        }
    }

    pub(crate) fn ror(&mut self, mode: &AddressingMode)
        requires
            old(self).inv(),
            mode is Accumulator || addr_mode_resolvable(*mode),
        ensures
            final(self).inv(),
            final(self).bus.frames_completed() == old(self).bus.frames_completed(),
            final(self).cycles == old(self).cycles,
            B::obeys_model() ==> final(self)@ == spec_ror(old(self)@, *mode),
    {
        match mode {
            AddressingMode::Accumulator => {
                let current_carry_flag: bool = self.get_flag(CARRY_FLAG);
                let new_carry_flag: bool = (self.register_a & 1) == 1;
                self.register_a = self.register_a >> 1;
                if current_carry_flag {
                    self.register_a = self.register_a | 0x80;
                }
                self.set_flag(CARRY_FLAG, new_carry_flag);
                self.set_zero_and_negative_flags(self.register_a);
            },
            _ => {
                let (addr, _) = self.get_operand_address(mode);
                let value: u8 = self.bus.mem_read(addr);
                let current_carry_flag: bool = self.get_flag(CARRY_FLAG);
                let new_carry_flag: bool = (value & 1) == 1;
                let mut result: u8 = value >> 1;
                if current_carry_flag {
                    result = result | 0x80;
                }
                self.bus.mem_write(addr, result);
                self.set_flag(CARRY_FLAG, new_carry_flag);
                self.set_zero_and_negative_flags(result);
            },
        }
    }

    pub(crate) fn bit(&mut self, mode: &AddressingMode)
        requires
            old(self).inv(),
            addr_mode_resolvable(*mode),
        ensures
            final(self).inv(),
            final(self).bus.frames_completed() == old(self).bus.frames_completed(),
            final(self).cycles == old(self).cycles,
            B::obeys_model() ==> final(self)@ == spec_bit(old(self)@, *mode),
    {
        let (addr, _) = self.get_operand_address(mode);
        let value: u8 = self.bus.mem_read(addr);
        self.set_flag(ZERO_FLAG, (self.register_a & value) == 0);
        self.set_flag(NEGATIVE_FLAG, (value & 0x80) != 0);
        self.set_flag(OVERFLOW_FLAG, (value & 0x40) != 0);
    }

    fn cmp_register(&mut self, reg: u8, mode: &AddressingMode)
        requires
            old(self).inv(),
            addr_mode_resolvable(*mode),
            old(self).cycles < u64::MAX,
        ensures
            final(self).inv(),
            final(self).bus.frames_completed() == old(self).bus.frames_completed(),
            old(self).cycles <= final(self).cycles <= old(self).cycles + 1,
            B::obeys_model() ==> final(self)@ == spec_cmp_register(old(self)@, reg, *mode),
    {
        let (addr, page_cross) = self.get_operand_address(mode);
        let value: u8 = self.bus.mem_read(addr);
        let result: u8 = reg.wrapping_sub(value);
        self.set_flag(CARRY_FLAG, reg >= value);
        self.set_flag(ZERO_FLAG, reg == value);
        self.set_flag(NEGATIVE_FLAG, (result & 0x80) != 0);
        if page_cross {
            self.cycles = self.cycles + 1;
        }
    }

    pub(crate) fn cmp(&mut self, mode: &AddressingMode)
        requires
            old(self).inv(),
            addr_mode_resolvable(*mode),
            old(self).cycles < u64::MAX,
        ensures
            final(self).inv(),
            final(self).bus.frames_completed() == old(self).bus.frames_completed(),
            old(self).cycles <= final(self).cycles <= old(self).cycles + 1,
            B::obeys_model() ==> final(self)@ == spec_cmp_register(
                old(self)@,
                old(self).register_a,
                *mode,
            ),
    {
        let reg: u8 = self.register_a;
        self.cmp_register(reg, mode);
    }

    pub(crate) fn cpx(&mut self, mode: &AddressingMode)
        requires
            old(self).inv(),
            addr_mode_resolvable(*mode),
            old(self).cycles < u64::MAX,
        ensures
            final(self).inv(),
            final(self).bus.frames_completed() == old(self).bus.frames_completed(),
            old(self).cycles <= final(self).cycles <= old(self).cycles + 1,
            B::obeys_model() ==> final(self)@ == spec_cmp_register(
                old(self)@,
                old(self).register_x,
                *mode,
            ),
    {
        let reg: u8 = self.register_x;
        self.cmp_register(reg, mode);
    }

    pub(crate) fn cpy(&mut self, mode: &AddressingMode)
        requires
            old(self).inv(),
            addr_mode_resolvable(*mode),
            old(self).cycles < u64::MAX,
        ensures
            final(self).inv(),
            final(self).bus.frames_completed() == old(self).bus.frames_completed(),
            old(self).cycles <= final(self).cycles <= old(self).cycles + 1,
            B::obeys_model() ==> final(self)@ == spec_cmp_register(
                old(self)@,
                old(self).register_y,
                *mode,
            ),
    {
        let reg: u8 = self.register_y;
        self.cmp_register(reg, mode);
    }

    pub(crate) fn dec(&mut self, mode: &AddressingMode)
        requires
            old(self).inv(),
            addr_mode_resolvable(*mode),
        ensures
            final(self).inv(),
            final(self).bus.frames_completed() == old(self).bus.frames_completed(),
            final(self).cycles == old(self).cycles,
            B::obeys_model() ==> final(self)@ == spec_dec(old(self)@, *mode),
    {
        let (addr, _) = self.get_operand_address(mode);
        let value: u8 = self.bus.mem_read(addr);
        let result: u8 = value.wrapping_sub(1);
        self.bus.mem_write(addr, result);
        self.set_zero_and_negative_flags(result);
    }

    pub(crate) fn inc(&mut self, mode: &AddressingMode)
        requires
            old(self).inv(),
            addr_mode_resolvable(*mode),
        ensures
            final(self).inv(),
            final(self).bus.frames_completed() == old(self).bus.frames_completed(),
            final(self).cycles == old(self).cycles,
            B::obeys_model() ==> final(self)@ == spec_inc(old(self)@, *mode),
    {
        let (addr, _) = self.get_operand_address(mode);
        let value: u8 = self.bus.mem_read(addr);
        let result: u8 = value.wrapping_add(1);
        self.bus.mem_write(addr, result);
        self.set_zero_and_negative_flags(result);
    }

    pub(crate) fn lda(&mut self, mode: &AddressingMode)
        requires
            old(self).inv(),
            addr_mode_resolvable(*mode),
            old(self).cycles < u64::MAX,
        ensures
            final(self).inv(),
            final(self).bus.frames_completed() == old(self).bus.frames_completed(),
            old(self).cycles <= final(self).cycles <= old(self).cycles + 1,
            B::obeys_model() ==> final(self)@ == spec_lda(old(self)@, *mode),
    {
        let (addr, page_cross) = self.get_operand_address(mode);
        let value: u8 = self.bus.mem_read(addr);
        self.set_zero_and_negative_flags(value);
        self.register_a = value;
        if page_cross {
            self.cycles = self.cycles + 1;
        }
    }

    pub(crate) fn ldx(&mut self, mode: &AddressingMode)
        requires
            old(self).inv(),
            addr_mode_resolvable(*mode),
            old(self).cycles < u64::MAX,
        ensures
            final(self).inv(),
            final(self).bus.frames_completed() == old(self).bus.frames_completed(),
            old(self).cycles <= final(self).cycles <= old(self).cycles + 1,
            B::obeys_model() ==> final(self)@ == spec_ldx(old(self)@, *mode),
    {
        let (addr, page_cross) = self.get_operand_address(mode);
        let value: u8 = self.bus.mem_read(addr);
        self.set_zero_and_negative_flags(value);
        self.register_x = value;
        if page_cross {
            self.cycles = self.cycles + 1;
        }
    }

    pub(crate) fn ldy(&mut self, mode: &AddressingMode)
        requires
            old(self).inv(),
            addr_mode_resolvable(*mode),
            old(self).cycles < u64::MAX,
        ensures
            final(self).inv(),
            final(self).bus.frames_completed() == old(self).bus.frames_completed(),
            old(self).cycles <= final(self).cycles <= old(self).cycles + 1,
            B::obeys_model() ==> final(self)@ == spec_ldy(old(self)@, *mode),
    {
        let (addr, page_cross) = self.get_operand_address(mode);
        let value: u8 = self.bus.mem_read(addr);
        self.set_zero_and_negative_flags(value);
        self.register_y = value;
        if page_cross {
            self.cycles = self.cycles + 1;
        }
    }

    pub(crate) fn sta(&mut self, mode: &AddressingMode)
        requires
            old(self).inv(),
            addr_mode_resolvable(*mode),
        ensures
            final(self).inv(),
            final(self).bus.frames_completed() == old(self).bus.frames_completed(),
            final(self).cycles == old(self).cycles,
            B::obeys_model() ==> final(self)@ == spec_sta(old(self)@, *mode),
    {
        let (addr, _) = self.get_operand_address(mode);
        let a: u8 = self.register_a;
        self.bus.mem_write(addr, a);
    }

    pub(crate) fn stx(&mut self, mode: &AddressingMode)
        requires
            old(self).inv(),
            addr_mode_resolvable(*mode),
        ensures
            final(self).inv(),
            final(self).bus.frames_completed() == old(self).bus.frames_completed(),
            final(self).cycles == old(self).cycles,
            B::obeys_model() ==> final(self)@ == spec_stx(old(self)@, *mode),
    {
        let (addr, _) = self.get_operand_address(mode);
        let x: u8 = self.register_x;
        self.bus.mem_write(addr, x);
    }

    pub(crate) fn sty(&mut self, mode: &AddressingMode)
        requires
            old(self).inv(),
            addr_mode_resolvable(*mode),
        ensures
            final(self).inv(),
            final(self).bus.frames_completed() == old(self).bus.frames_completed(),
            final(self).cycles == old(self).cycles,
            B::obeys_model() ==> final(self)@ == spec_sty(old(self)@, *mode),
    {
        let (addr, _) = self.get_operand_address(mode);
        let y: u8 = self.register_y;
        self.bus.mem_write(addr, y);
    }

    pub(crate) fn nop(&mut self, mode: &AddressingMode)
        requires
            old(self).inv(),
            addr_mode_resolvable(*mode),
            old(self).cycles < u64::MAX,
        ensures
            final(self).inv(),
            final(self).bus.frames_completed() == old(self).bus.frames_completed(),
            old(self).cycles <= final(self).cycles <= old(self).cycles + 1,
            B::obeys_model() ==> final(self)@ == spec_nop(old(self)@, *mode),
    {
        let (_addr, page_cross) = self.get_operand_address(mode);
        if page_cross {
            self.cycles = self.cycles + 1;
        }
    }

    /// A taken branch: reads the signed offset after the opcode.
    fn branch(&mut self, opcode: &OpCode)
        requires
            old(self).inv(),
            opcode.len >= 1,
            old(self).cycles <= u64::MAX - 2,
        ensures
            final(self).inv(),
            final(self).bus.frames_completed() == old(self).bus.frames_completed(),
            old(self).cycles <= final(self).cycles <= old(self).cycles + 2,
            B::obeys_model() ==> final(self)@ == spec_branch(old(self)@, *opcode),
    {
        let pc: u16 = self.program_counter;
        let offset: u8 = self.bus.mem_read(pc);
        let jump_addr: u16 = self.program_counter.wrapping_add(1).wrapping_add(
            (offset as i8) as u16,
        );
        let next_instruction: u16 = self.program_counter.wrapping_add((opcode.len - 1) as u16);
        self.cycles = self.cycles + 1;
        if page_cross_exec(next_instruction, jump_addr) {
            self.cycles = self.cycles + 1;
        }
        self.program_counter = jump_addr;
    }

    pub(crate) fn bcc(&mut self, opcode: &OpCode)
        requires
            old(self).inv(),
            opcode.len >= 1,
            old(self).cycles <= u64::MAX - 2,
        ensures
            final(self).inv(),
            final(self).bus.frames_completed() == old(self).bus.frames_completed(),
            old(self).cycles <= final(self).cycles <= old(self).cycles + 2,
            B::obeys_model() ==> final(self)@ == if old(self)@.p & CARRY_FLAG == 0 {
                spec_branch(old(self)@, *opcode)
            } else {
                old(self)@
            },
    {
        if !self.get_flag(CARRY_FLAG) {
            self.branch(opcode)
        }
    }

    pub(crate) fn bcs(&mut self, opcode: &OpCode)
        requires
            old(self).inv(),
            opcode.len >= 1,
            old(self).cycles <= u64::MAX - 2,
        ensures
            final(self).inv(),
            final(self).bus.frames_completed() == old(self).bus.frames_completed(),
            old(self).cycles <= final(self).cycles <= old(self).cycles + 2,
            B::obeys_model() ==> final(self)@ == if old(self)@.p & CARRY_FLAG != 0 {
                spec_branch(old(self)@, *opcode)
            } else {
                old(self)@
            },
    {
        if self.get_flag(CARRY_FLAG) {
            self.branch(opcode)
        }
    }

    pub(crate) fn beq(&mut self, opcode: &OpCode)
        requires
            old(self).inv(),
            opcode.len >= 1,
            old(self).cycles <= u64::MAX - 2,
        ensures
            final(self).inv(),
            final(self).bus.frames_completed() == old(self).bus.frames_completed(),
            old(self).cycles <= final(self).cycles <= old(self).cycles + 2,
            B::obeys_model() ==> final(self)@ == if old(self)@.p & ZERO_FLAG != 0 {
                spec_branch(old(self)@, *opcode)
            } else {
                old(self)@
            },
    {
        if self.get_flag(ZERO_FLAG) {
            self.branch(opcode)
        }
    }

    pub(crate) fn bne(&mut self, opcode: &OpCode)
        requires
            old(self).inv(),
            opcode.len >= 1,
            old(self).cycles <= u64::MAX - 2,
        ensures
            final(self).inv(),
            final(self).bus.frames_completed() == old(self).bus.frames_completed(),
            old(self).cycles <= final(self).cycles <= old(self).cycles + 2,
            B::obeys_model() ==> final(self)@ == if old(self)@.p & ZERO_FLAG == 0 {
                spec_branch(old(self)@, *opcode)
            } else {
                old(self)@
            },
    {
        if !self.get_flag(ZERO_FLAG) {
            self.branch(opcode)
        }
    }

    pub(crate) fn bmi(&mut self, opcode: &OpCode)
        requires
            old(self).inv(),
            opcode.len >= 1,
            old(self).cycles <= u64::MAX - 2,
        ensures
            final(self).inv(),
            final(self).bus.frames_completed() == old(self).bus.frames_completed(),
            old(self).cycles <= final(self).cycles <= old(self).cycles + 2,
            B::obeys_model() ==> final(self)@ == if old(self)@.p & NEGATIVE_FLAG != 0 {
                spec_branch(old(self)@, *opcode)
            } else {
                old(self)@
            },
    {
        if self.get_flag(NEGATIVE_FLAG) {
            self.branch(opcode)
        }
    }

    pub(crate) fn bpl(&mut self, opcode: &OpCode)
        requires
            old(self).inv(),
            opcode.len >= 1,
            old(self).cycles <= u64::MAX - 2,
        ensures
            final(self).inv(),
            final(self).bus.frames_completed() == old(self).bus.frames_completed(),
            old(self).cycles <= final(self).cycles <= old(self).cycles + 2,
            B::obeys_model() ==> final(self)@ == if old(self)@.p & NEGATIVE_FLAG == 0 {
                spec_branch(old(self)@, *opcode)
            } else {
                old(self)@
            },
    {
        if !self.get_flag(NEGATIVE_FLAG) {
            self.branch(opcode)
        }
    }

    pub(crate) fn bvc(&mut self, opcode: &OpCode)
        requires
            old(self).inv(),
            opcode.len >= 1,
            old(self).cycles <= u64::MAX - 2,
        ensures
            final(self).inv(),
            final(self).bus.frames_completed() == old(self).bus.frames_completed(),
            old(self).cycles <= final(self).cycles <= old(self).cycles + 2,
            B::obeys_model() ==> final(self)@ == if old(self)@.p & OVERFLOW_FLAG == 0 {
                spec_branch(old(self)@, *opcode)
            } else {
                old(self)@
            },
    {
        if !self.get_flag(OVERFLOW_FLAG) {
            self.branch(opcode)
        }
    }

    pub(crate) fn bvs(&mut self, opcode: &OpCode)
        requires
            old(self).inv(),
            opcode.len >= 1,
            old(self).cycles <= u64::MAX - 2,
        ensures
            final(self).inv(),
            final(self).bus.frames_completed() == old(self).bus.frames_completed(),
            old(self).cycles <= final(self).cycles <= old(self).cycles + 2,
            B::obeys_model() ==> final(self)@ == if old(self)@.p & OVERFLOW_FLAG != 0 {
                spec_branch(old(self)@, *opcode)
            } else {
                old(self)@
            },
    {
        if self.get_flag(OVERFLOW_FLAG) {
            self.branch(opcode)
        }
    }

    pub(crate) fn brk(&mut self)
        requires
            old(self).inv(),
        ensures
            final(self).inv(),
            final(self).bus.frames_completed() == old(self).bus.frames_completed(),
            final(self).cycles == old(self).cycles,
            B::obeys_model() ==> final(self)@ == spec_brk(old(self)@),
    {
        let pc: u16 = self.program_counter;
        self.bus.mem_read(pc);
        self.push_stack16(self.program_counter.wrapping_add(1));
        let status: u8 = self.processor_status | 0x10;
        self.push_stack(status);
        self.set_flag(IRQ_FLAG, true);
        self.program_counter = self.bus.mem_read_u16(0xFFFE);
    }

    pub(crate) fn jmp(&mut self, mode: &AddressingMode)
        requires
            old(self).inv(),
            addr_mode_resolvable(*mode),
        ensures
            final(self).inv(),
            final(self).bus.frames_completed() == old(self).bus.frames_completed(),
            final(self).cycles == old(self).cycles,
            B::obeys_model() ==> final(self)@ == ({
                let (addr, crossed) = spec_operand(old(self)@, *mode);
                CpuView { pc: addr, ..old(self)@ }
            }),
    {
        let (addr, _) = self.get_operand_address(mode);
        self.program_counter = addr;
    }

    pub(crate) fn jsr(&mut self, mode: &AddressingMode)
        requires
            old(self).inv(),
            addr_mode_resolvable(*mode),
        ensures
            final(self).inv(),
            final(self).bus.frames_completed() == old(self).bus.frames_completed(),
            final(self).cycles == old(self).cycles,
            B::obeys_model() ==> final(self)@ == spec_jsr(old(self)@, *mode),
    {
        let (addr, _) = self.get_operand_address(mode);
        self.push_stack16(self.program_counter.wrapping_add(1));
        self.program_counter = addr;
    }

    pub(crate) fn rts(&mut self)
        requires
            old(self).inv(),
        ensures
            final(self).inv(),
            final(self).bus.frames_completed() == old(self).bus.frames_completed(),
            final(self).cycles == old(self).cycles,
            B::obeys_model() ==> final(self)@ == spec_rts(old(self)@),
    {
        let pc: u16 = self.program_counter;
        self.bus.mem_read(pc);
        self.program_counter = self.pop_stack16().wrapping_add(1);
    }

    pub(crate) fn rti(&mut self)
        requires
            old(self).inv(),
        ensures
            final(self).inv(),
            final(self).bus.frames_completed() == old(self).bus.frames_completed(),
            final(self).cycles == old(self).cycles,
            B::obeys_model() ==> final(self)@ == spec_rti(old(self)@),
    {
        let pc: u16 = self.program_counter;
        self.bus.mem_read(pc);
        let value: u8 = self.pop_stack();
        self.set_flags(value);
        self.program_counter = self.pop_stack16();
    }

    pub(crate) fn pha(&mut self)
        requires
            old(self).inv(),
        ensures
            final(self).inv(),
            final(self).bus.frames_completed() == old(self).bus.frames_completed(),
            final(self).cycles == old(self).cycles,
            B::obeys_model() ==> final(self)@ == spec_push(old(self)@, old(self).register_a),
    {
        let a: u8 = self.register_a;
        self.push_stack(a)
    }

    pub(crate) fn php(&mut self)
        requires
            old(self).inv(),
        ensures
            final(self).inv(),
            final(self).bus.frames_completed() == old(self).bus.frames_completed(),
            final(self).cycles == old(self).cycles,
            B::obeys_model() ==> final(self)@ == spec_push(
                old(self)@,
                old(self).processor_status | BREAK_FLAG,
            ),
    {
        let status: u8 = self.processor_status | BREAK_FLAG;
        self.push_stack(status);
    }

    pub(crate) fn pla(&mut self)
        requires
            old(self).inv(),
        ensures
            final(self).inv(),
            final(self).bus.frames_completed() == old(self).bus.frames_completed(),
            final(self).cycles == old(self).cycles,
            B::obeys_model() ==> final(self)@ == ({
                let (value, v1) = spec_pop(old(self)@);
                CpuView { a: value, p: spec_set_zn(v1.p, value), ..v1 }
            }),
    {
        self.register_a = self.pop_stack();
        let a: u8 = self.register_a;
        self.set_zero_and_negative_flags(a);
    }

    pub(crate) fn plp(&mut self)
        requires
            old(self).inv(),
        ensures
            final(self).inv(),
            final(self).bus.frames_completed() == old(self).bus.frames_completed(),
            final(self).cycles == old(self).cycles,
            B::obeys_model() ==> final(self)@ == ({
                let (value, v1) = spec_pop(old(self)@);
                CpuView { p: spec_pulled_status(value), ..v1 }
            }),
    {
        let value: u8 = self.pop_stack();
        self.set_flags(value);
    }
}

fn page_cross_exec(addr1: u16, addr2: u16) -> (r: bool)
    ensures
        r == spec_page_cross(addr1, addr2),
{
    addr1 & 0xFF00 != addr2 & 0xFF00
}

} // verus!

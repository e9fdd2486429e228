//! The undocumented opcode group the NES library actually uses: stable
//! combinations such as LAX and DCP carry their documented semantics;
//! the unstable ones (XAA, TAS, AHX, SHX, SHY, LAS) get one fixed,
//! deterministic behaviour, and the JAM group halts the CPU by leaving
//! the program counter on the jamming opcode.

use vstd::prelude::*;

use crate::bus::CpuBus;
use crate::bus::Memory;
use crate::cpu::addr_mode_resolvable;
use crate::cpu::spec_set_flag;
use crate::cpu::spec_set_zn;
use crate::cpu::AddressingMode;
use crate::cpu::CpuView;
use crate::cpu::CARRY_FLAG;
use crate::cpu::CPU;
use crate::cpu::OVERFLOW_FLAG;
use crate::cpu_ops::spec_bump;
use crate::cpu_ops::spec_operand;

verus! {

/// ALR: A & M, then shift right into A; carry from the bit shifted out.
pub open spec fn spec_alr(v: CpuView, mode: AddressingMode) -> CpuView {
    let (addr, crossed) = spec_operand(v, mode);
    let value = v.mem[addr as int];
    let and_result = v.a & value;
    let shift_result = and_result >> 1;
    let p1 = spec_set_flag(v.p, CARRY_FLAG, and_result & 0x01 != 0);
    CpuView { a: shift_result, p: spec_set_zn(p1, shift_result), ..v }
}

/// ANC: A & M; the carry copies the new negative bit.
pub open spec fn spec_anc(v: CpuView, mode: AddressingMode) -> CpuView {
    let (addr, crossed) = spec_operand(v, mode);
    let value = v.mem[addr as int];
    let r = v.a & value;
    let p1 = spec_set_flag(v.p, CARRY_FLAG, (r & 0x80) != 0);
    CpuView { a: r, p: spec_set_zn(p1, r), ..v }
}

/// ARR: A & M rotated right through the carry; C and V come from bits 6
/// and 5 of the result.
pub open spec fn spec_arr(v: CpuView, mode: AddressingMode) -> CpuView {
    let (addr, crossed) = spec_operand(v, mode);
    let value = v.mem[addr as int];
    let carry = if v.p & CARRY_FLAG != 0 {
        1u8
    } else {
        0u8
    };
    let and_result = v.a & value;
    let r = (and_result >> 1) | (carry << 7);
    let bit_5 = (r >> 5) & 1;
    let bit_6 = (r >> 6) & 1;
    let p1 = spec_set_flag(v.p, CARRY_FLAG, bit_6 == 1);
    let p2 = spec_set_flag(p1, OVERFLOW_FLAG, (bit_5 ^ bit_6) == 1);
    CpuView { a: r, p: spec_set_zn(p2, r), ..v }
}

/// AXS: X = (A & X) - M, with carry as the not-borrow.
pub open spec fn spec_axs(v: CpuView, mode: AddressingMode) -> CpuView {
    let (addr, crossed) = spec_operand(v, mode);
    let value = v.mem[addr as int];
    let base = v.a & v.x;
    let r = base.wrapping_sub(value);
    let p1 = spec_set_flag(v.p, CARRY_FLAG, base >= value);
    CpuView { x: r, p: spec_set_zn(p1, r), ..v }
}

/// LAS: S & M into A, X and S.
pub open spec fn spec_las(v: CpuView, mode: AddressingMode) -> CpuView {
    let (addr, crossed) = spec_operand(v, mode);
    let value = v.mem[addr as int];
    let r = v.sp & value;
    CpuView {
        a: r,
        x: r,
        sp: r,
        p: spec_set_zn(v.p, r),
        cycles: spec_bump(v.cycles, crossed),
        ..v
    }
}

/// LAX: load A and X together.
pub open spec fn spec_lax(v: CpuView, mode: AddressingMode) -> CpuView {
    let (addr, crossed) = spec_operand(v, mode);
    let value = v.mem[addr as int];
    CpuView {
        a: value,
        x: value,
        p: spec_set_zn(v.p, value),
        cycles: spec_bump(v.cycles, crossed),
        ..v
    }
}

/// SAX: store A & X.
pub open spec fn spec_sax(v: CpuView, mode: AddressingMode) -> CpuView {
    let (addr, crossed) = spec_operand(v, mode);
    CpuView { mem: v.mem.update(addr as int, v.a & v.x), ..v }
}

/// DCP: decrement the memory byte, then compare A against it.
pub open spec fn spec_dcp(v: CpuView, mode: AddressingMode) -> CpuView {
    let (addr, crossed) = spec_operand(v, mode);
    let value = v.mem[addr as int];
    let dec = value.wrapping_sub(1);
    let p1 = spec_set_flag(v.p, CARRY_FLAG, v.a >= dec);
    CpuView {
        mem: v.mem.update(addr as int, dec),
        p: spec_set_zn(p1, v.a.wrapping_sub(dec)),
        ..v
    }
}

/// ISB: increment the memory byte, then subtract it from A with borrow.
pub open spec fn spec_isb(v: CpuView, mode: AddressingMode) -> CpuView {
    let (addr, crossed) = spec_operand(v, mode);
    let value = v.mem[addr as int];
    let inc = value.wrapping_add(1);
    let borrow = if v.p & CARRY_FLAG != 0 {
        0u8
    } else {
        1u8
    };
    let r = v.a.wrapping_sub(inc).wrapping_sub(borrow);
    let borrowed = (v.a as u16) < inc as u16 + borrow as u16;
    let p1 = spec_set_flag(v.p, CARRY_FLAG, !borrowed);
    let p2 = spec_set_flag(p1, OVERFLOW_FLAG, ((v.a ^ r) & 0x80) != 0 && ((v.a ^ inc) & 0x80) != 0);
    CpuView { mem: v.mem.update(addr as int, inc), a: r, p: spec_set_zn(p2, r), ..v }
}

/// SLO: shift the memory byte left, then OR it into A.
pub open spec fn spec_slo(v: CpuView, mode: AddressingMode) -> CpuView {
    let (addr, crossed) = spec_operand(v, mode);
    let value = v.mem[addr as int];
    let r = value << 1;
    let p1 = spec_set_flag(v.p, CARRY_FLAG, (value & 0x80) != 0);
    let p2 = spec_set_zn(p1, r);
    let a = v.a | r;
    CpuView { mem: v.mem.update(addr as int, r), a, p: spec_set_zn(p2, a), ..v }
}

/// RLA: rotate the memory byte left through the carry, then AND it into
/// A.
pub open spec fn spec_rla(v: CpuView, mode: AddressingMode) -> CpuView {
    let (addr, crossed) = spec_operand(v, mode);
    let value = v.mem[addr as int];
    let carry_in = if v.p & CARRY_FLAG != 0 {
        1u8
    } else {
        0u8
    };
    let r = (value << 1) | carry_in;
    let p1 = spec_set_flag(v.p, CARRY_FLAG, ((value >> 7) & 1) == 1);
    let p2 = spec_set_zn(p1, r);
    let a = v.a & r;
    CpuView { mem: v.mem.update(addr as int, r), a, p: spec_set_zn(p2, a), ..v }
}

/// SRE: shift the memory byte right, then XOR it into A.
pub open spec fn spec_sre(v: CpuView, mode: AddressingMode) -> CpuView {
    let (addr, crossed) = spec_operand(v, mode);
    let value = v.mem[addr as int];
    let r = value >> 1;
    let p1 = spec_set_flag(v.p, CARRY_FLAG, (value & 1) == 1);
    let p2 = spec_set_zn(p1, r);
    let a = v.a ^ r;
    CpuView { mem: v.mem.update(addr as int, r), a, p: spec_set_zn(p2, a), ..v }
}

/// RRA: rotate the memory byte right through the carry, then add it to
/// A with the carry the rotation produced.
pub open spec fn spec_rra(v: CpuView, mode: AddressingMode) -> CpuView {
    let (addr, crossed) = spec_operand(v, mode);
    let value = v.mem[addr as int];
    let carry_in = v.p & CARRY_FLAG != 0;
    let rot = if carry_in {
        (value >> 1) | 0x80
    } else {
        value >> 1
    };
    let new_carry = (value & 1) == 1;
    let p1 = spec_set_flag(v.p, CARRY_FLAG, new_carry);
    let p2 = spec_set_zn(p1, rot);
    let sum = (v.a as u16 + rot as u16 + if new_carry {
        1u16
    } else {
        0u16
    }) as u16;
    let r = sum as u8;
    let p3 = spec_set_flag(p2, CARRY_FLAG, sum > 255);
    let p4 = spec_set_flag(p3, OVERFLOW_FLAG, ((v.a ^ r) & (rot ^ r) & 0x80) == 0x80);
    CpuView { mem: v.mem.update(addr as int, rot), a: r, p: spec_set_zn(p4, r), ..v }
}

/// SHX / SHY: store a register ANDed with the high address byte plus
/// one; a page cross redirects the high byte of the target.
pub open spec fn spec_sh_reg(v: CpuView, reg: u8, mode: AddressingMode) -> CpuView {
    let (addr, crossed) = spec_operand(v, mode);
    let hi = (addr >> 8) as u8;
    let result = reg & hi.wrapping_add(
        if crossed {
            0u8
        } else {
            1u8
        },
    );
    let high = if crossed {
        result
    } else {
        hi
    };
    CpuView { mem: v.mem.update((addr & 0x00FF | (high as u16) << 8) as int, result), ..v }
}

/// XAA: one fixed choice of the unstable A = (A | 0xEE) & X & M.
pub open spec fn spec_xaa(v: CpuView, mode: AddressingMode) -> CpuView {
    let (addr, crossed) = spec_operand(v, mode);
    let value = v.mem[addr as int];
    let r = (v.a | 0xEE) & v.x & value;
    CpuView { a: r, p: spec_set_zn(v.p, r), ..v }
}

/// AHX: store A & X & (high address byte + 1).
pub open spec fn spec_ahx(v: CpuView, mode: AddressingMode) -> CpuView {
    let (addr, crossed) = spec_operand(v, mode);
    let hi = (addr >> 8) as u8;
    CpuView { mem: v.mem.update(addr as int, v.a & v.x & hi.wrapping_add(1)), ..v }
}

/// TAS: S = A & X, then store as AHX does.
pub open spec fn spec_tas(v: CpuView, mode: AddressingMode) -> CpuView {
    let (addr, crossed) = spec_operand(v, mode);
    let hi = (addr >> 8) as u8;
    CpuView {
        sp: v.a & v.x,
        mem: v.mem.update(addr as int, v.a & v.x & hi.wrapping_add(1)),
        ..v
    }
}

impl<B: Memory + CpuBus> CPU<B> {
    pub fn alr(&mut self, mode: &AddressingMode)
        requires
            old(self).inv(),
            addr_mode_resolvable(*mode),
        ensures
            final(self).inv(),
            final(self).bus.frames_completed() == old(self).bus.frames_completed(),
            final(self).cycles == old(self).cycles,
            B::obeys_model() ==> final(self)@ == spec_alr(old(self)@, *mode),
    {
        let (addr, _) = self.get_operand_address(mode);
        let value: u8 = self.bus.mem_read(addr);
        let and_result: u8 = self.register_a & value;
        let shift_result: u8 = and_result >> 1;
        self.set_flag(CARRY_FLAG, and_result & 0x01 != 0);
        self.set_zero_and_negative_flags(shift_result);
        self.register_a = shift_result;
    }

    pub fn anc(&mut self, mode: &AddressingMode)
        requires
            old(self).inv(),
            addr_mode_resolvable(*mode),
        ensures
            final(self).inv(),
            final(self).bus.frames_completed() == old(self).bus.frames_completed(),
            final(self).cycles == old(self).cycles,
            B::obeys_model() ==> final(self)@ == spec_anc(old(self)@, *mode),
    {
        let (addr, _) = self.get_operand_address(mode);
        let value: u8 = self.bus.mem_read(addr);
        self.register_a = self.register_a & value;
        self.set_flag(CARRY_FLAG, (self.register_a & 0x80) != 0);
        self.set_zero_and_negative_flags(self.register_a);
    }

    pub fn arr(&mut self, mode: &AddressingMode)
        requires
            old(self).inv(),
            addr_mode_resolvable(*mode),
        ensures
            final(self).inv(),
            final(self).bus.frames_completed() == old(self).bus.frames_completed(),
            final(self).cycles == old(self).cycles,
            B::obeys_model() ==> final(self)@ == spec_arr(old(self)@, *mode),
    {
        let (addr, _) = self.get_operand_address(mode);
        let value: u8 = self.bus.mem_read(addr);
        let carry: u8 = if self.get_flag(CARRY_FLAG) {
            1
        } else {
            0
        };
        let and_result: u8 = self.register_a & value;
        let result: u8 = (and_result >> 1) | (carry << 7);
        self.register_a = result;
        let bit_5: u8 = (result >> 5) & 1;
        let bit_6: u8 = (result >> 6) & 1;
        self.set_flag(CARRY_FLAG, bit_6 == 1);
        self.set_flag(OVERFLOW_FLAG, (bit_5 ^ bit_6) == 1);
        self.set_zero_and_negative_flags(result);
    }

    pub fn axs(&mut self, mode: &AddressingMode)
        requires
            old(self).inv(),
            addr_mode_resolvable(*mode),
        ensures
            final(self).inv(),
            final(self).bus.frames_completed() == old(self).bus.frames_completed(),
            final(self).cycles == old(self).cycles,
            B::obeys_model() ==> final(self)@ == spec_axs(old(self)@, *mode),
    {
        let (addr, _) = self.get_operand_address(mode);
        let value: u8 = self.bus.mem_read(addr);
        let base: u8 = self.register_a & self.register_x;
        let result: u8 = base.wrapping_sub(value);
        self.register_x = result;
        self.set_flag(CARRY_FLAG, base >= value);
        self.set_zero_and_negative_flags(result);
    }

    pub(crate) fn las(&mut self, mode: &AddressingMode)
        requires
            old(self).inv(),
            addr_mode_resolvable(*mode),
            old(self).cycles < u64::MAX,
        ensures
            final(self).inv(),
            final(self).bus.frames_completed() == old(self).bus.frames_completed(),
            old(self).cycles <= final(self).cycles <= old(self).cycles + 1,
            B::obeys_model() ==> final(self)@ == spec_las(old(self)@, *mode),
    {
        let (addr, page_cross) = self.get_operand_address(mode);
        let value: u8 = self.bus.mem_read(addr);
        let result: u8 = self.stack_pointer & value;
        self.register_a = result;
        self.register_x = result;
        self.stack_pointer = result;
        self.set_zero_and_negative_flags(result);
        if page_cross {
            self.cycles = self.cycles + 1;
        }
    }

    pub(crate) fn lax(&mut self, mode: &AddressingMode)
        requires
            old(self).inv(),
            addr_mode_resolvable(*mode),
            old(self).cycles < u64::MAX,
        ensures
            final(self).inv(),
            final(self).bus.frames_completed() == old(self).bus.frames_completed(),
            old(self).cycles <= final(self).cycles <= old(self).cycles + 1,
            B::obeys_model() ==> final(self)@ == spec_lax(old(self)@, *mode),
    {
        let (addr, page_cross) = self.get_operand_address(mode);
        let value: u8 = self.bus.mem_read(addr);
        self.register_a = value;
        self.register_x = value;
        self.set_zero_and_negative_flags(value);
        if page_cross {
            self.cycles = self.cycles + 1;
        }
    }

    pub(crate) fn sax(&mut self, mode: &AddressingMode)
        requires
            old(self).inv(),
            addr_mode_resolvable(*mode),
        ensures
            final(self).inv(),
            final(self).bus.frames_completed() == old(self).bus.frames_completed(),
            final(self).cycles == old(self).cycles,
            B::obeys_model() ==> final(self)@ == spec_sax(old(self)@, *mode),
    {
        let (addr, _) = self.get_operand_address(mode);
        let value: u8 = self.register_a & self.register_x;
        self.bus.mem_write(addr, value);
    }

    pub(crate) fn dcp(&mut self, mode: &AddressingMode)
        requires
            old(self).inv(),
            addr_mode_resolvable(*mode),
        ensures
            final(self).inv(),
            final(self).bus.frames_completed() == old(self).bus.frames_completed(),
            final(self).cycles == old(self).cycles,
            B::obeys_model() ==> final(self)@ == spec_dcp(old(self)@, *mode),
    {
        let (addr, _) = self.get_operand_address(mode);
        let value: u8 = self.bus.mem_read(addr);
        let decremented_value: u8 = value.wrapping_sub(1);
        self.bus.mem_write(addr, decremented_value);
        self.set_flag(CARRY_FLAG, self.register_a >= decremented_value);
        self.set_zero_and_negative_flags(self.register_a.wrapping_sub(decremented_value));
    }

    pub(crate) fn isb(&mut self, mode: &AddressingMode)
        requires
            old(self).inv(),
            addr_mode_resolvable(*mode),
        ensures
            final(self).inv(),
            final(self).bus.frames_completed() == old(self).bus.frames_completed(),
            final(self).cycles == old(self).cycles,
            B::obeys_model() ==> final(self)@ == spec_isb(old(self)@, *mode),
    {
        let (addr, _) = self.get_operand_address(mode);
        let value: u8 = self.bus.mem_read(addr);
        let incremented_value: u8 = value.wrapping_add(1);
        self.bus.mem_write(addr, incremented_value);
        let accumulator: u8 = self.register_a;
        let borrow: u8 = if self.get_flag(CARRY_FLAG) {
            0
        } else {
            1
        };
        let result: u8 = accumulator.wrapping_sub(incremented_value).wrapping_sub(borrow);
        let borrowed: bool = (accumulator as u16) < incremented_value as u16 + borrow as u16;
        self.set_flag(CARRY_FLAG, !borrowed);
        let overflow: bool = ((accumulator ^ result) & 0x80) != 0 && ((accumulator
            ^ incremented_value) & 0x80) != 0;
        self.set_flag(OVERFLOW_FLAG, overflow);
        self.register_a = result;
        self.set_zero_and_negative_flags(self.register_a);
    }

    pub(crate) fn slo(&mut self, mode: &AddressingMode)
        requires
            old(self).inv(),
            addr_mode_resolvable(*mode),
        ensures
            final(self).inv(),
            final(self).bus.frames_completed() == old(self).bus.frames_completed(),
            final(self).cycles == old(self).cycles,
            B::obeys_model() ==> final(self)@ == spec_slo(old(self)@, *mode),
    {
        let (addr, _) = self.get_operand_address(mode);
        let value: u8 = self.bus.mem_read(addr);
        let result: u8 = value << 1;
        self.bus.mem_write(addr, result);
        self.set_flag(CARRY_FLAG, (value & 0x80) != 0);
        self.set_zero_and_negative_flags(result);
        self.register_a = self.register_a | result;
        self.set_zero_and_negative_flags(self.register_a);
    }

    pub(crate) fn rla(&mut self, mode: &AddressingMode)
        requires
            old(self).inv(),
            addr_mode_resolvable(*mode),
        ensures
            final(self).inv(),
            final(self).bus.frames_completed() == old(self).bus.frames_completed(),
            final(self).cycles == old(self).cycles,
            B::obeys_model() ==> final(self)@ == spec_rla(old(self)@, *mode),
    {
        let (addr, _) = self.get_operand_address(mode);
        let value: u8 = self.bus.mem_read(addr);
        let current_carry_flag: u8 = if self.get_flag(CARRY_FLAG) {
            1
        } else {
            0
        };
        let new_carry_flag: bool = ((value >> 7) & 1) == 1;
        let result: u8 = (value << 1) | current_carry_flag;
        self.bus.mem_write(addr, result);
        self.set_flag(CARRY_FLAG, new_carry_flag);
        self.set_zero_and_negative_flags(result);
        self.register_a = self.register_a & result;
        self.set_zero_and_negative_flags(self.register_a);
    }

    pub(crate) fn sre(&mut self, mode: &AddressingMode)
        requires
            old(self).inv(),
            addr_mode_resolvable(*mode),
        ensures
            final(self).inv(),
            final(self).bus.frames_completed() == old(self).bus.frames_completed(),
            final(self).cycles == old(self).cycles,
            B::obeys_model() ==> final(self)@ == spec_sre(old(self)@, *mode),
    {
        let (addr, _) = self.get_operand_address(mode);
        let value: u8 = self.bus.mem_read(addr);
        let result: u8 = value >> 1;
        self.bus.mem_write(addr, result);
        self.set_flag(CARRY_FLAG, (value & 1) == 1);
        self.set_zero_and_negative_flags(result);
        self.register_a = self.register_a ^ result;
        self.set_zero_and_negative_flags(self.register_a);
    }

    pub(crate) fn rra(&mut self, mode: &AddressingMode)
        requires
            old(self).inv(),
            addr_mode_resolvable(*mode),
        ensures
            final(self).inv(),
            final(self).bus.frames_completed() == old(self).bus.frames_completed(),
            final(self).cycles == old(self).cycles,
            B::obeys_model() ==> final(self)@ == spec_rra(old(self)@, *mode),
    {
        let (addr, _) = self.get_operand_address(mode);
        let value: u8 = self.bus.mem_read(addr);
        let current_carry_flag: bool = self.get_flag(CARRY_FLAG);
        let new_carry_flag: bool = (value & 1) == 1;
        let mut rotate_result: u8 = value >> 1;
        if current_carry_flag {
            rotate_result = rotate_result | 0x80;
        }
        self.bus.mem_write(addr, rotate_result);
        self.set_flag(CARRY_FLAG, new_carry_flag);
        self.set_zero_and_negative_flags(rotate_result);
        proof {
            crate::bits::lemma_u8_or_preserves();
            crate::bits::lemma_u8_andnot_preserves();
            crate::bits::lemma_u8_or_sets();
            crate::bits::lemma_u8_andnot_clears();
            crate::bits::lemma_flag_pairs();
            crate::bits::lemma_u8_and_comm();
        }
        let mut result: u16 = self.register_a as u16 + rotate_result as u16;
        if self.get_flag(CARRY_FLAG) {
            result = result + 1;
        }
        self.set_flag(CARRY_FLAG, result > 255);
        let result: u8 = result as u8;
        self.set_flag(
            OVERFLOW_FLAG,
            ((self.register_a ^ result) & (rotate_result ^ result) & 0x80) == 0x80,
        );
        self.set_zero_and_negative_flags(result);
        self.register_a = result;
    }

    pub(crate) fn shx(&mut self, mode: &AddressingMode)
        requires
            old(self).inv(),
            addr_mode_resolvable(*mode),
        ensures
            final(self).inv(),
            final(self).bus.frames_completed() == old(self).bus.frames_completed(),
            final(self).cycles == old(self).cycles,
            B::obeys_model() ==> final(self)@ == spec_sh_reg(old(self)@, old(self).register_x, *mode),
    {
        let (addr, page_cross) = self.get_operand_address(mode);
        let hi: u8 = (addr >> 8) as u8;
        let result: u8 = self.register_x & hi.wrapping_add(
            if page_cross {
                0
            } else {
                1
            },
        );
        let high: u8 = if page_cross {
            result
        } else {
            hi
        };
        self.bus.mem_write(addr & 0x00FF | (high as u16) << 8, result);
    }

    pub(crate) fn shy(&mut self, mode: &AddressingMode)
        requires
            old(self).inv(),
            addr_mode_resolvable(*mode),
        ensures
            final(self).inv(),
            final(self).bus.frames_completed() == old(self).bus.frames_completed(),
            final(self).cycles == old(self).cycles,
            B::obeys_model() ==> final(self)@ == spec_sh_reg(old(self)@, old(self).register_y, *mode),
    {
        let (addr, page_cross) = self.get_operand_address(mode);
        let hi: u8 = (addr >> 8) as u8;
        let result: u8 = self.register_y & hi.wrapping_add(
            if page_cross {
                0
            } else {
                1
            },
        );
        let high: u8 = if page_cross {
            result
        } else {
            hi
        };
        self.bus.mem_write(addr & 0x00FF | (high as u16) << 8, result);
    }

    pub(crate) fn xaa(&mut self, mode: &AddressingMode)
        requires
            old(self).inv(),
            addr_mode_resolvable(*mode),
        ensures
            final(self).inv(),
            final(self).bus.frames_completed() == old(self).bus.frames_completed(),
            final(self).cycles == old(self).cycles,
            B::obeys_model() ==> final(self)@ == spec_xaa(old(self)@, *mode),
    {
        let (addr, _) = self.get_operand_address(mode);
        let value: u8 = self.bus.mem_read(addr);
        let result: u8 = (self.register_a | 0xEE) & self.register_x & value;
        self.register_a = result;
        self.set_zero_and_negative_flags(result);
    }

    pub(crate) fn ahx(&mut self, mode: &AddressingMode)
        requires
            old(self).inv(),
            addr_mode_resolvable(*mode),
        ensures
            final(self).inv(),
            final(self).bus.frames_completed() == old(self).bus.frames_completed(),
            final(self).cycles == old(self).cycles,
            B::obeys_model() ==> final(self)@ == spec_ahx(old(self)@, *mode),
    {
        let (addr, _) = self.get_operand_address(mode);
        let hi: u8 = (addr >> 8) as u8;
        let value: u8 = self.register_a & self.register_x & hi.wrapping_add(1);
        self.bus.mem_write(addr, value);
    }

    pub(crate) fn tas(&mut self, mode: &AddressingMode)
        requires
            old(self).inv(),
            addr_mode_resolvable(*mode),
        ensures
            final(self).inv(),
            final(self).bus.frames_completed() == old(self).bus.frames_completed(),
            final(self).cycles == old(self).cycles,
            B::obeys_model() ==> final(self)@ == spec_tas(old(self)@, *mode),
    {
        let (addr, _) = self.get_operand_address(mode);
        let hi: u8 = (addr >> 8) as u8;
        self.stack_pointer = self.register_a & self.register_x;
        let value: u8 = self.register_a & self.register_x & hi.wrapping_add(1);
        self.bus.mem_write(addr, value);
    }

    /// JAM: halt by stepping the program counter back onto the jamming
    /// opcode, so the CPU refetches it forever.
    pub(crate) fn jam(&mut self)
        ensures
            *final(self) == (CPU {
                program_counter: old(self).program_counter.wrapping_sub(1),
                ..*old(self)
            }),
    {
        self.program_counter = self.program_counter.wrapping_sub(1);
    }
}

} // verus!

//! The 6502-derived CPU core: registers, status flags, stack discipline,
//! and effective-address computation for every addressing mode.
//!
//! The CPU runs against any bus implementing [`Memory`] and [`CpuBus`].
//! Against a bus that obeys the flat memory model (`B::obeys_model()`),
//! every operation's contract pins the whole machine state down exactly,
//! through the ghost snapshot [`CpuView`].

use vstd::prelude::*;

use crate::bus::read16;
use crate::bus::CpuBus;
use crate::bus::Memory;

verus! {

pub const CARRY_FLAG: u8 = 0x01;

pub const ZERO_FLAG: u8 = 0x02;

pub const IRQ_FLAG: u8 = 0x04;

pub const DECIMAL_FLAG: u8 = 0x08;

pub const BREAK_FLAG: u8 = 0x10;

pub const OVERFLOW_FLAG: u8 = 0x40;

pub const NEGATIVE_FLAG: u8 = 0x80;

pub const STACK_RESET: u8 = 0xFD;

/// How an instruction names its operand.
#[derive(Clone, Copy, Debug, PartialEq, Eq, Structural)]
pub enum AddressingMode {
    Implied,
    Accumulator,
    Immediate,
    ZeroPage,
    ZeroPageX,
    ZeroPageY,
    Absolute,
    AbsoluteX,
    AbsoluteY,
    Indirect,
    IndirectX,
    IndirectY,
    Relative,
    NoneAddressing,
}

/// The whole machine state an instruction can observe or change, as the
/// contracts see it: the register file and the bus as a flat 64 KiB
/// image.
pub ghost struct CpuView {
    pub a: u8,
    pub x: u8,
    pub y: u8,
    pub p: u8,
    pub sp: u8,
    pub pc: u16,
    pub cycles: u64,
    pub mem: Seq<u8>,
}

/// Two snapshots with the same register file (the memory may differ).
pub open spec fn same_regs(v: CpuView, w: CpuView) -> bool {
    &&& v.a == w.a
    &&& v.x == w.x
    &&& v.y == w.y
    &&& v.p == w.p
    &&& v.sp == w.sp
    &&& v.pc == w.pc
    &&& v.cycles == w.cycles
}

/// Whether two addresses lie in different 256-byte pages.
pub open spec fn spec_page_cross(addr1: u16, addr2: u16) -> bool {
    addr1 & 0xFF00 != addr2 & 0xFF00
}

fn page_cross(addr1: u16, addr2: u16) -> (r: bool)
    ensures
        r == spec_page_cross(addr1, addr2),
{
    addr1 & 0xFF00 != addr2 & 0xFF00
}

/// The status byte with the bits of `flag` set or cleared.
pub open spec fn spec_set_flag(p: u8, flag: u8, on: bool) -> u8 {
    if on {
        p | flag
    } else {
        p & !flag
    }
}

/// The status byte a pulled value becomes: bit 4 (B) cleared and bit 5
/// forced, as PLP and RTI do.
pub open spec fn spec_pulled_status(value: u8) -> u8 {
    ((value | 0x30) - 0x10) as u8
}

/// The status byte after the zero and negative flags are refreshed from
/// `value`.
pub open spec fn spec_set_zn(p: u8, value: u8) -> u8 {
    spec_set_flag(spec_set_flag(p, ZERO_FLAG, value == 0), NEGATIVE_FLAG, value & 0x80 != 0)
}

/// The addressing modes that have an effective address to compute.
/// Accumulator, relative and implied-only instructions resolve their
/// operand elsewhere.
pub open spec fn addr_mode_resolvable(mode: AddressingMode) -> bool {
    !(mode is Accumulator || mode is Relative || mode is NoneAddressing)
}

/// The effective address an addressing mode yields at `address`, and
/// whether it crossed a page (which costs some instructions one cycle).
/// Reads are taken from the flat image `mem`.
pub open spec fn spec_operand_addr(mem: Seq<u8>, x: u8, y: u8, mode: AddressingMode, address: u16) -> (
    u16,
    bool,
) {
    match mode {
        AddressingMode::Immediate | AddressingMode::Implied => (address, false),
        AddressingMode::ZeroPage => (mem[address as int] as u16, false),
        AddressingMode::Absolute => (read16(mem, address), false),
        AddressingMode::ZeroPageX => ((mem[address as int].wrapping_add(x)) as u16, false),
        AddressingMode::ZeroPageY => ((mem[address as int].wrapping_add(y)) as u16, false),
        AddressingMode::AbsoluteX => {
            let base = read16(mem, address);
            let addr = base.wrapping_add(x as u16);
            (addr, spec_page_cross(base, addr))
        },
        AddressingMode::AbsoluteY => {
            let base = read16(mem, address);
            let addr = base.wrapping_add(y as u16);
            (addr, spec_page_cross(base, addr))
        },
        AddressingMode::Indirect => {
            let indirect = read16(mem, address);
            if indirect & 0x00FF == 0x00FF {
                let lo = mem[indirect as int];
                let hi = mem[(indirect & 0xFF00) as int];
                ((hi as u16) << 8 | (lo as u16), false)
            } else {
                (read16(mem, indirect), false)
            }
        },
        AddressingMode::IndirectX => {
            let base = mem[address as int];
            let ptr = base.wrapping_add(x);
            let lo = mem[ptr as int];
            let hi = mem[ptr.wrapping_add(1) as int];
            ((hi as u16) << 8 | (lo as u16), false)
        },
        AddressingMode::IndirectY => {
            let base = mem[address as int];
            let lo = mem[base as int];
            let hi = mem[base.wrapping_add(1) as int];
            let deref_base: u16 = (hi as u16) << 8 | (lo as u16);
            let deref = deref_base.wrapping_add(y as u16);
            (deref, spec_page_cross(deref, deref_base))
        },
        _ => (address, false),
    }
}

/// The snapshot after one byte is pushed: the byte lands in page 0x01 at
/// the stack pointer, which then decrements (wrapping).
pub open spec fn spec_push(v: CpuView, value: u8) -> CpuView {
    CpuView {
        mem: v.mem.update(0x0100 + v.sp as int, value),
        sp: v.sp.wrapping_sub(1),
        ..v
    }
}

/// The snapshot after a 16-bit push: high byte first, then low.
pub open spec fn spec_push16(v: CpuView, value: u16) -> CpuView {
    spec_push(spec_push(v, ((value >> 8) & 0xFF) as u8), (value & 0xFF) as u8)
}

/// The byte a pop returns, and the snapshot after it: the stack pointer
/// increments (wrapping), then the byte is read from page 0x01.
pub open spec fn spec_pop(v: CpuView) -> (u8, CpuView) {
    let sp = v.sp.wrapping_add(1);
    (v.mem[0x0100 + sp as int], CpuView { sp, ..v })
}

/// The word a 16-bit pop returns (low byte first), and the snapshot
/// after it.
pub open spec fn spec_pop16(v: CpuView) -> (u16, CpuView) {
    let (lsb, v1) = spec_pop(v);
    let (msb, v2) = spec_pop(v1);
    ((msb as u16) << 8 | (lsb as u16), v2)
}

/// The 2A03 CPU: three 8-bit registers, a status byte, a stack pointer
/// into page 0x01, a 16-bit program counter, a monotonically increasing
/// cycle counter, and the bus it runs against.
pub struct CPU<B: Memory + CpuBus> {
    pub register_a: u8,
    pub register_x: u8,
    pub register_y: u8,
    pub processor_status: u8,
    pub stack_pointer: u8,
    pub program_counter: u16,
    pub bus: B,
    pub cycles: u64,
}

impl<B: Memory + CpuBus> View for CPU<B> {
    type V = CpuView;

    open spec fn view(&self) -> CpuView {
        CpuView {
            a: self.register_a,
            x: self.register_x,
            y: self.register_y,
            p: self.processor_status,
            sp: self.stack_pointer,
            pc: self.program_counter,
            cycles: self.cycles,
            mem: self.bus.mem_model(),
        }
    }
}

impl<B: Memory + CpuBus> CPU<B> {
    /// The bus is well-formed.
    pub open spec fn inv(self) -> bool {
        self.bus.inv()
    }

    /// A CPU at power-up: cleared registers, status 0x24, stack pointer
    /// 0xFD, program counter 0 until reset reads the vector.
    pub fn new(bus: B) -> (cpu: CPU<B>)
        ensures
            cpu.bus == bus,
            cpu@.a == 0 && cpu@.x == 0 && cpu@.y == 0,
            cpu@.p == 0x24,
            cpu@.sp == STACK_RESET,
            cpu@.pc == 0,
            cpu@.cycles == 0,
    {
        CPU {
            register_a: 0,
            register_x: 0,
            register_y: 0,
            processor_status: 0x24,
            stack_pointer: STACK_RESET,
            program_counter: 0,
            cycles: 0,
            bus,
        }
    }

    /// Whether every bit of `flag` is clear in the status byte — with a
    /// single-bit mask, whether that flag is set.
    pub fn get_flag(&self, flag: u8) -> (r: bool)
        ensures
            r == (self.processor_status & flag != 0),
    {
        (self.processor_status & flag) != 0
    }

    /// Set or clear the bits of `flag` in the status byte.
    pub fn set_flag(&mut self, flag: u8, on: bool)
        ensures
            *final(self) == (CPU {
                processor_status: spec_set_flag(old(self).processor_status, flag, on),
                ..*old(self)
            }),
    {
        if on {
            self.processor_status = self.processor_status | flag;
        } else {
            self.processor_status = self.processor_status & !flag;
        }
    }

    /// Replace the status byte with a pulled value, clearing B and
    /// forcing bit 5, as PLP and RTI do.
    pub(crate) fn set_flags(&mut self, value: u8)
        ensures
            *final(self) == (CPU {
                processor_status: spec_pulled_status(value),
                ..*old(self)
            }),
    {
        proof {
            crate::bits::lemma_u8_or_bound();
        }
        self.processor_status = (value | 0x30) - 0x10;
    }

    /// Refresh the zero and negative flags from `value`.
    pub(crate) fn set_zero_and_negative_flags(&mut self, value: u8)
        ensures
            *final(self) == (CPU {
                processor_status: spec_set_zn(old(self).processor_status, value),
                ..*old(self)
            }),
    {
        self.set_flag(ZERO_FLAG, value == 0);
        self.set_flag(NEGATIVE_FLAG, (value & 0x80) != 0);
    }

    /// Push one byte: it lands at 0x0100 | S, then S decrements.
    pub(crate) fn push_stack(&mut self, v: u8)
        requires
            old(self).inv(),
        ensures
            final(self).inv(),
            final(self).bus.frames_completed() == old(self).bus.frames_completed(),
            final(self).cycles == old(self).cycles,
            B::obeys_model() ==> final(self)@ == spec_push(old(self)@, v),
    {
        let addr: u16 = (self.stack_pointer as u16) + 0x0100;
        self.bus.mem_write(addr, v);
        self.stack_pointer = self.stack_pointer.wrapping_sub(1);
    }

    /// Push a word, high byte first.
    pub(crate) fn push_stack16(&mut self, v: u16)
        requires
            old(self).inv(),
        ensures
            final(self).inv(),
            final(self).bus.frames_completed() == old(self).bus.frames_completed(),
            final(self).cycles == old(self).cycles,
            B::obeys_model() ==> final(self)@ == spec_push16(old(self)@, v),
    {
        self.push_stack(((v >> 8) & 0xFF) as u8);
        self.push_stack((v & 0xFF) as u8);
    }

    /// Pop one byte: S increments, then the byte is read from
    /// 0x0100 | S.
    pub(crate) fn pop_stack(&mut self) -> (r: u8)
        requires
            old(self).inv(),
        ensures
            final(self).inv(),
            final(self).bus.frames_completed() == old(self).bus.frames_completed(),
            final(self).cycles == old(self).cycles,
            B::obeys_model() ==> (r, final(self)@) == spec_pop(old(self)@),
    {
        self.stack_pointer = self.stack_pointer.wrapping_add(1);
        self.bus.mem_read((self.stack_pointer as u16) + 0x0100)
    }

    /// Pop a word, low byte first.
    pub(crate) fn pop_stack16(&mut self) -> (r: u16)
        requires
            old(self).inv(),
        ensures
            final(self).inv(),
            final(self).bus.frames_completed() == old(self).bus.frames_completed(),
            final(self).cycles == old(self).cycles,
            B::obeys_model() ==> (r, final(self)@) == spec_pop16(old(self)@),
    {
        let lsb: u16 = self.pop_stack() as u16;
        let msb: u16 = self.pop_stack() as u16;
        (msb << 8) | lsb
    }

    /// Resolve the operand of `mode` against the bytes at the program
    /// counter.
    pub fn get_operand_address(&mut self, mode: &AddressingMode) -> (r: (u16, bool))
        requires
            old(self).inv(),
            addr_mode_resolvable(*mode),
        ensures
            final(self).inv(),
            final(self).bus.frames_completed() == old(self).bus.frames_completed(),
            same_regs(final(self)@, old(self)@),
            B::obeys_model() ==> *final(self) == *old(self) && r == spec_operand_addr(
                old(self)@.mem,
                old(self)@.x,
                old(self)@.y,
                *mode,
                old(self).program_counter,
            ),
    {
        let pc: u16 = self.program_counter;
        self.get_address_by_addressing_mode(mode, pc)
    }

    /// Resolve the operand of `mode` against the bytes at `address`,
    /// with the documented 6502 quirks: the indirect page-wrap bug and
    /// zero-page pointer wrap-around.
    pub fn get_address_by_addressing_mode(&mut self, mode: &AddressingMode, address: u16) -> (r: (
        u16,
        bool,
    ))
        requires
            old(self).inv(),
            addr_mode_resolvable(*mode),
        ensures
            final(self).inv(),
            final(self).bus.frames_completed() == old(self).bus.frames_completed(),
            same_regs(final(self)@, old(self)@),
            B::obeys_model() ==> *final(self) == *old(self) && r == spec_operand_addr(
                old(self)@.mem,
                old(self)@.x,
                old(self)@.y,
                *mode,
                address,
            ),
    {
        match mode {
            AddressingMode::Immediate | AddressingMode::Implied => (address, false),
            AddressingMode::ZeroPage => (self.bus.mem_read(address) as u16, false),
            AddressingMode::Absolute => (self.bus.mem_read_u16(address), false),
            AddressingMode::ZeroPageX => {
                let base: u8 = self.bus.mem_read(address);
                let addr: u16 = base.wrapping_add(self.register_x) as u16;
                (addr, false)
            },
            AddressingMode::ZeroPageY => {
                let base: u8 = self.bus.mem_read(address);
                let addr: u16 = base.wrapping_add(self.register_y) as u16;
                (addr, false)
            },
            AddressingMode::AbsoluteX => {
                let base: u16 = self.bus.mem_read_u16(address);
                let addr: u16 = base.wrapping_add(self.register_x as u16);
                (addr, page_cross(base, addr))
            },
            AddressingMode::AbsoluteY => {
                let base: u16 = self.bus.mem_read_u16(address);
                let addr: u16 = base.wrapping_add(self.register_y as u16);
                (addr, page_cross(base, addr))
            },
            AddressingMode::Indirect => {
                let indirect_address: u16 = self.bus.mem_read_u16(address);
                if indirect_address & 0x00FF == 0x00FF {
                    let lo: u8 = self.bus.mem_read(indirect_address);
                    let hi: u8 = self.bus.mem_read(indirect_address & 0xFF00);
                    ((hi as u16) << 8 | (lo as u16), false)
                } else {
                    (self.bus.mem_read_u16(indirect_address), false)
                }
            },
            AddressingMode::IndirectX => {
                let base: u8 = self.bus.mem_read(address);
                let ptr: u8 = base.wrapping_add(self.register_x);
                let lo: u8 = self.bus.mem_read(ptr as u16);
                let hi: u8 = self.bus.mem_read(ptr.wrapping_add(1) as u16);
                ((hi as u16) << 8 | (lo as u16), false)
            },
            AddressingMode::IndirectY => {
                let base: u8 = self.bus.mem_read(address);
                let lo: u8 = self.bus.mem_read(base as u16);
                let hi: u8 = self.bus.mem_read(base.wrapping_add(1) as u16);
                let deref_base: u16 = (hi as u16) << 8 | (lo as u16);
                let deref: u16 = deref_base.wrapping_add(self.register_y as u16);
                (deref, page_cross(deref, deref_base))
            },
            _ => (address, false),
        }
    }
}

} // verus!

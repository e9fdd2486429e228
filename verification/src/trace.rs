//! The execution-trace line used to compare a run against a reference
//! log: program counter, instruction bytes, disassembly with the
//! resolved operand, register file, PPU position and cycle count.
//!
//! The whole line is pinned down by [`spec_trace_line`], and tracing is
//! observably pure: it peeks at the bus without side effects and leaves
//! the machine exactly as it was.

use vstd::prelude::*;

use crate::bus::spec_bus_peek;
use crate::bus::Bus;
use crate::bus::BusView;
use crate::cpu::AddressingMode;
use crate::cpu::CPU;
use crate::opcodes::opcode_for;
use crate::opcodes::spec_opcode;
use crate::opcodes::Mnemonic;
use crate::opcodes::OpCode;

verus! {

/// One uppercase hex digit.
pub open spec fn spec_digit(d: u8) -> Seq<char> {
    if d == 0 {
        "0"@
    } else if d == 1 {
        "1"@
    } else if d == 2 {
        "2"@
    } else if d == 3 {
        "3"@
    } else if d == 4 {
        "4"@
    } else if d == 5 {
        "5"@
    } else if d == 6 {
        "6"@
    } else if d == 7 {
        "7"@
    } else if d == 8 {
        "8"@
    } else if d == 9 {
        "9"@
    } else if d == 10 {
        "A"@
    } else if d == 11 {
        "B"@
    } else if d == 12 {
        "C"@
    } else if d == 13 {
        "D"@
    } else if d == 14 {
        "E"@
    } else {
        "F"@
    }
}

fn digit_str(d: u8) -> (s: &'static str)
    ensures
        s@ == spec_digit(d),
{
    if d == 0 {
        "0"
    } else if d == 1 {
        "1"
    } else if d == 2 {
        "2"
    } else if d == 3 {
        "3"
    } else if d == 4 {
        "4"
    } else if d == 5 {
        "5"
    } else if d == 6 {
        "6"
    } else if d == 7 {
        "7"
    } else if d == 8 {
        "8"
    } else if d == 9 {
        "9"
    } else if d == 10 {
        "A"
    } else if d == 11 {
        "B"
    } else if d == 12 {
        "C"
    } else if d == 13 {
        "D"
    } else if d == 14 {
        "E"
    } else {
        "F"
    }
}

/// A byte as two uppercase hex digits.
pub open spec fn spec_hex2(b: u8) -> Seq<char> {
    spec_digit(b >> 4) + spec_digit(b & 0x0F)
}

fn push_hex2(s: &mut String, b: u8)
    ensures
        final(s)@ == old(s)@ + spec_hex2(b),
{
    s.append(digit_str(b >> 4));
    s.append(digit_str(b & 0x0F));
    proof {
        assert(s@ =~= old(s)@ + spec_hex2(b));
    }
}

/// A word as four uppercase hex digits.
pub open spec fn spec_hex4(w: u16) -> Seq<char> {
    spec_hex2((w >> 8) as u8) + spec_hex2((w & 0xFF) as u8)
}

fn push_hex4(s: &mut String, w: u16)
    ensures
        final(s)@ == old(s)@ + spec_hex4(w),
{
    push_hex2(s, (w >> 8) as u8);
    push_hex2(s, (w & 0xFF) as u8);
    proof {
        assert(s@ =~= old(s)@ + spec_hex4(w));
    }
}

/// A number in decimal, most significant digit first.
pub open spec fn spec_dec(n: u64) -> Seq<char>
    decreases n,
{
    if n < 10 {
        spec_digit(n as u8)
    } else {
        spec_dec(n / 10) + spec_digit((n % 10) as u8)
    }
}

fn push_dec(s: &mut String, n: u64)
    ensures
        final(s)@ == old(s)@ + spec_dec(n),
    decreases n,
{
    if n < 10 {
        s.append(digit_str(n as u8));
    } else {
        push_dec(s, n / 10);
        s.append(digit_str((n % 10) as u8));
        proof {
            assert(s@ =~= old(s)@ + spec_dec(n));
        }
    }
}

/// How many spaces pad a decimal number to a three-column field.
pub open spec fn spec_dec_pad3(n: u64) -> int {
    if n < 10 {
        2int
    } else if n < 100 {
        1int
    } else {
        0int
    }
}

/// `n` spaces.
pub open spec fn spec_spaces(n: int) -> Seq<char>
    decreases n,
{
    if n <= 0 {
        Seq::empty()
    } else {
        spec_spaces(n - 1) + " "@
    }
}

fn push_spaces(s: &mut String, n: usize)
    ensures
        final(s)@ == old(s)@ + spec_spaces(n as int),
{
    let mut i: usize = 0;
    proof {
        assert(s@ =~= old(s)@ + spec_spaces(0));
    }
    while i < n
        invariant
            i <= n,
            s@ == old(s)@ + spec_spaces(i as int),
        decreases n - i,
    {
        s.append(" ");
        i = i + 1;
        proof {
            assert(s@ =~= old(s)@ + spec_spaces(i as int));
        }
    }
}

/// The mnemonic's name for the disassembly column.
pub open spec fn spec_mnemonic_name(m: Mnemonic) -> Seq<char> {
    match m {
        Mnemonic::INV => "INV"@,
        Mnemonic::ADC => "ADC"@,
        Mnemonic::AHX => "AHX"@,
        Mnemonic::ALR => "ALR"@,
        Mnemonic::ANC => "ANC"@,
        Mnemonic::AND => "AND"@,
        Mnemonic::ARR => "ARR"@,
        Mnemonic::ASL => "ASL"@,
        Mnemonic::AXS => "AXS"@,
        Mnemonic::BCC => "BCC"@,
        Mnemonic::BCS => "BCS"@,
        Mnemonic::BEQ => "BEQ"@,
        Mnemonic::BIT => "BIT"@,
        Mnemonic::BMI => "BMI"@,
        Mnemonic::BNE => "BNE"@,
        Mnemonic::BPL => "BPL"@,
        Mnemonic::BRK => "BRK"@,
        Mnemonic::BVC => "BVC"@,
        Mnemonic::BVS => "BVS"@,
        Mnemonic::CLC => "CLC"@,
        Mnemonic::CLD => "CLD"@,
        Mnemonic::CLI => "CLI"@,
        Mnemonic::CLV => "CLV"@,
        Mnemonic::CMP => "CMP"@,
        Mnemonic::CPX => "CPX"@,
        Mnemonic::CPY => "CPY"@,
        Mnemonic::DCP => "DCP"@,
        Mnemonic::DEC => "DEC"@,
        Mnemonic::DEX => "DEX"@,
        Mnemonic::DEY => "DEY"@,
        Mnemonic::EOR => "EOR"@,
        Mnemonic::INC => "INC"@,
        Mnemonic::INX => "INX"@,
        Mnemonic::INY => "INY"@,
        Mnemonic::ISB => "ISB"@,
        Mnemonic::JAM => "JAM"@,
        Mnemonic::JMP => "JMP"@,
        Mnemonic::JSR => "JSR"@,
        Mnemonic::LAX => "LAX"@,
        Mnemonic::LAS => "LAS"@,
        Mnemonic::LDA => "LDA"@,
        Mnemonic::LDX => "LDX"@,
        Mnemonic::LDY => "LDY"@,
        Mnemonic::LSR => "LSR"@,
        Mnemonic::NOP => "NOP"@,
        Mnemonic::ORA => "ORA"@,
        Mnemonic::PHA => "PHA"@,
        Mnemonic::PHP => "PHP"@,
        Mnemonic::PLA => "PLA"@,
        Mnemonic::PLP => "PLP"@,
        Mnemonic::RLA => "RLA"@,
        Mnemonic::ROL => "ROL"@,
        Mnemonic::ROR => "ROR"@,
        Mnemonic::RRA => "RRA"@,
        Mnemonic::RTI => "RTI"@,
        Mnemonic::RTS => "RTS"@,
        Mnemonic::SAX => "SAX"@,
        Mnemonic::SBC => "SBC"@,
        Mnemonic::SEC => "SEC"@,
        Mnemonic::SED => "SED"@,
        Mnemonic::SEI => "SEI"@,
        Mnemonic::SHX => "SHX"@,
        Mnemonic::SHY => "SHY"@,
        Mnemonic::SLO => "SLO"@,
        Mnemonic::SRE => "SRE"@,
        Mnemonic::STA => "STA"@,
        Mnemonic::STX => "STX"@,
        Mnemonic::STY => "STY"@,
        Mnemonic::TAS => "TAS"@,
        Mnemonic::TAX => "TAX"@,
        Mnemonic::TAY => "TAY"@,
        Mnemonic::TSX => "TSX"@,
        Mnemonic::TXA => "TXA"@,
        Mnemonic::TXS => "TXS"@,
        Mnemonic::TYA => "TYA"@,
        Mnemonic::XAA => "XAA"@,
    }
}

fn mnemonic_name(m: Mnemonic) -> (s: &'static str)
    ensures
        s@ == spec_mnemonic_name(m),
{
    match m {
        Mnemonic::INV => "INV",
        Mnemonic::ADC => "ADC",
        Mnemonic::AHX => "AHX",
        Mnemonic::ALR => "ALR",
        Mnemonic::ANC => "ANC",
        Mnemonic::AND => "AND",
        Mnemonic::ARR => "ARR",
        Mnemonic::ASL => "ASL",
        Mnemonic::AXS => "AXS",
        Mnemonic::BCC => "BCC",
        Mnemonic::BCS => "BCS",
        Mnemonic::BEQ => "BEQ",
        Mnemonic::BIT => "BIT",
        Mnemonic::BMI => "BMI",
        Mnemonic::BNE => "BNE",
        Mnemonic::BPL => "BPL",
        Mnemonic::BRK => "BRK",
        Mnemonic::BVC => "BVC",
        Mnemonic::BVS => "BVS",
        Mnemonic::CLC => "CLC",
        Mnemonic::CLD => "CLD",
        Mnemonic::CLI => "CLI",
        Mnemonic::CLV => "CLV",
        Mnemonic::CMP => "CMP",
        Mnemonic::CPX => "CPX",
        Mnemonic::CPY => "CPY",
        Mnemonic::DCP => "DCP",
        Mnemonic::DEC => "DEC",
        Mnemonic::DEX => "DEX",
        Mnemonic::DEY => "DEY",
        Mnemonic::EOR => "EOR",
        Mnemonic::INC => "INC",
        Mnemonic::INX => "INX",
        Mnemonic::INY => "INY",
        Mnemonic::ISB => "ISB",
        Mnemonic::JAM => "JAM",
        Mnemonic::JMP => "JMP",
        Mnemonic::JSR => "JSR",
        Mnemonic::LAX => "LAX",
        Mnemonic::LAS => "LAS",
        Mnemonic::LDA => "LDA",
        Mnemonic::LDX => "LDX",
        Mnemonic::LDY => "LDY",
        Mnemonic::LSR => "LSR",
        Mnemonic::NOP => "NOP",
        Mnemonic::ORA => "ORA",
        Mnemonic::PHA => "PHA",
        Mnemonic::PHP => "PHP",
        Mnemonic::PLA => "PLA",
        Mnemonic::PLP => "PLP",
        Mnemonic::RLA => "RLA",
        Mnemonic::ROL => "ROL",
        Mnemonic::ROR => "ROR",
        Mnemonic::RRA => "RRA",
        Mnemonic::RTI => "RTI",
        Mnemonic::RTS => "RTS",
        Mnemonic::SAX => "SAX",
        Mnemonic::SBC => "SBC",
        Mnemonic::SEC => "SEC",
        Mnemonic::SED => "SED",
        Mnemonic::SEI => "SEI",
        Mnemonic::SHX => "SHX",
        Mnemonic::SHY => "SHY",
        Mnemonic::SLO => "SLO",
        Mnemonic::SRE => "SRE",
        Mnemonic::STA => "STA",
        Mnemonic::STX => "STX",
        Mnemonic::STY => "STY",
        Mnemonic::TAS => "TAS",
        Mnemonic::TAX => "TAX",
        Mnemonic::TAY => "TAY",
        Mnemonic::TSX => "TSX",
        Mnemonic::TXA => "TXA",
        Mnemonic::TXS => "TXS",
        Mnemonic::TYA => "TYA",
        Mnemonic::XAA => "XAA",
    }
}

/// Whether the reference log marks this opcode as undocumented.
pub open spec fn spec_undocumented(op: OpCode) -> bool {
    match op.mnemonic {
        Mnemonic::LAX | Mnemonic::SAX | Mnemonic::DCP | Mnemonic::ISB | Mnemonic::SLO
            | Mnemonic::RLA | Mnemonic::SRE | Mnemonic::RRA | Mnemonic::ANC | Mnemonic::ALR
            | Mnemonic::ARR | Mnemonic::AXS | Mnemonic::XAA | Mnemonic::LAS | Mnemonic::TAS
            | Mnemonic::AHX | Mnemonic::SHX | Mnemonic::SHY | Mnemonic::JAM => true,
        Mnemonic::NOP => op.code != 0xEA,
        Mnemonic::SBC => op.code == 0xEB,
        _ => false,
    }
}

fn is_undocumented(op: &OpCode) -> (r: bool)
    ensures
        r == spec_undocumented(*op),
{
    match op.mnemonic {
        Mnemonic::LAX | Mnemonic::SAX | Mnemonic::DCP | Mnemonic::ISB | Mnemonic::SLO
            | Mnemonic::RLA | Mnemonic::SRE | Mnemonic::RRA | Mnemonic::ANC | Mnemonic::ALR
            | Mnemonic::ARR | Mnemonic::AXS | Mnemonic::XAA | Mnemonic::LAS | Mnemonic::TAS
            | Mnemonic::AHX | Mnemonic::SHX | Mnemonic::SHY | Mnemonic::JAM => true,
        Mnemonic::NOP => op.code != 0xEA,
        Mnemonic::SBC => op.code == 0xEB,
        _ => false,
    }
}

/// Ports whose reads would have side effects; the trace shows 0 there.
pub open spec fn spec_readable(addr: u16) -> bool {
    !(addr == 0x2001 || addr == 0x2002 || addr == 0x2003 || addr == 0x2004 || addr == 0x2005
        || addr == 0x2006 || addr == 0x2007 || addr == 0x4016 || addr == 0x4017)
}

fn readable(addr: u16) -> (r: bool)
    ensures
        r == spec_readable(addr),
{
    !(addr == 0x2001 || addr == 0x2002 || addr == 0x2003 || addr == 0x2004 || addr == 0x2005
        || addr == 0x2006 || addr == 0x2007 || addr == 0x4016 || addr == 0x4017)
}

/// The effective address an addressing mode resolves to, read through
/// side-effect-free peeks (so tracing cannot disturb the machine).
pub open spec fn spec_peek_operand(
    v: BusView,
    x: u8,
    y: u8,
    mode: AddressingMode,
    address: u16,
) -> u16 {
    match mode {
        AddressingMode::ZeroPage => spec_bus_peek(v, address) as u16,
        AddressingMode::ZeroPageX => spec_bus_peek(v, address).wrapping_add(x) as u16,
        AddressingMode::ZeroPageY => spec_bus_peek(v, address).wrapping_add(y) as u16,
        AddressingMode::Absolute => {
            let lo = spec_bus_peek(v, address);
            let hi = spec_bus_peek(v, address.wrapping_add(1));
            (hi as u16) << 8 | (lo as u16)
        },
        AddressingMode::AbsoluteX => {
            let lo = spec_bus_peek(v, address);
            let hi = spec_bus_peek(v, address.wrapping_add(1));
            ((hi as u16) << 8 | (lo as u16)).wrapping_add(x as u16)
        },
        AddressingMode::AbsoluteY => {
            let lo = spec_bus_peek(v, address);
            let hi = spec_bus_peek(v, address.wrapping_add(1));
            ((hi as u16) << 8 | (lo as u16)).wrapping_add(y as u16)
        },
        AddressingMode::Indirect => {
            let lo = spec_bus_peek(v, address);
            let hi = spec_bus_peek(v, address.wrapping_add(1));
            let indirect = (hi as u16) << 8 | (lo as u16);
            if indirect & 0x00FF == 0x00FF {
                (spec_bus_peek(v, indirect & 0xFF00) as u16) << 8 | (spec_bus_peek(
                    v,
                    indirect,
                ) as u16)
            } else {
                (spec_bus_peek(v, indirect.wrapping_add(1)) as u16) << 8 | (spec_bus_peek(
                    v,
                    indirect,
                ) as u16)
            }
        },
        AddressingMode::IndirectX => {
            let base = spec_bus_peek(v, address);
            let ptr = base.wrapping_add(x);
            (spec_bus_peek(v, ptr.wrapping_add(1) as u16) as u16) << 8 | (spec_bus_peek(
                v,
                ptr as u16,
            ) as u16)
        },
        AddressingMode::IndirectY => {
            let base = spec_bus_peek(v, address);
            let lo = spec_bus_peek(v, base as u16);
            let hi = spec_bus_peek(v, base.wrapping_add(1) as u16);
            ((hi as u16) << 8 | (lo as u16)).wrapping_add(y as u16)
        },
        _ => address,
    }
}

fn peek_operand(bus: &Bus, x: u8, y: u8, mode: &AddressingMode, address: u16) -> (r: u16)
    requires
        bus.wf(),
    ensures
        r == spec_peek_operand(bus@, x, y, *mode, address),
{
    match mode {
        AddressingMode::ZeroPage => bus.peek(address) as u16,
        AddressingMode::ZeroPageX => bus.peek(address).wrapping_add(x) as u16,
        AddressingMode::ZeroPageY => bus.peek(address).wrapping_add(y) as u16,
        AddressingMode::Absolute => {
            let lo: u8 = bus.peek(address);
            let hi: u8 = bus.peek(address.wrapping_add(1));
            (hi as u16) << 8 | (lo as u16)
        },
        AddressingMode::AbsoluteX => {
            let lo: u8 = bus.peek(address);
            let hi: u8 = bus.peek(address.wrapping_add(1));
            ((hi as u16) << 8 | (lo as u16)).wrapping_add(x as u16)
        },
        AddressingMode::AbsoluteY => {
            let lo: u8 = bus.peek(address);
            let hi: u8 = bus.peek(address.wrapping_add(1));
            ((hi as u16) << 8 | (lo as u16)).wrapping_add(y as u16)
        },
        AddressingMode::Indirect => {
            let lo: u8 = bus.peek(address);
            let hi: u8 = bus.peek(address.wrapping_add(1));
            let indirect: u16 = (hi as u16) << 8 | (lo as u16);
            if indirect & 0x00FF == 0x00FF {
                (bus.peek(indirect & 0xFF00) as u16) << 8 | (bus.peek(indirect) as u16)
            } else {
                (bus.peek(indirect.wrapping_add(1)) as u16) << 8 | (bus.peek(indirect) as u16)
            }
        },
        AddressingMode::IndirectX => {
            let base: u8 = bus.peek(address);
            let ptr: u8 = base.wrapping_add(x);
            (bus.peek(ptr.wrapping_add(1) as u16) as u16) << 8 | (bus.peek(ptr as u16) as u16)
        },
        AddressingMode::IndirectY => {
            let base: u8 = bus.peek(address);
            let lo: u8 = bus.peek(base as u16);
            let hi: u8 = bus.peek(base.wrapping_add(1) as u16);
            ((hi as u16) << 8 | (lo as u16)).wrapping_add(y as u16)
        },
        _ => address,
    }
}

/// The whole reference-log line of a machine snapshot.
pub open spec fn spec_trace_line(c: CPU<Bus>) -> Seq<char> {
    let v = c.bus@;
    let begin = c.program_counter;
    let code = spec_bus_peek(v, begin);
    let ops = spec_opcode(code);
    let operand_lo = if ops.len >= 2 {
        spec_bus_peek(v, begin.wrapping_add(1))
    } else {
        0u8
    };
    let operand_hi = if ops.len >= 3 {
        spec_bus_peek(v, begin.wrapping_add(2))
    } else {
        0u8
    };
    let resolves = !(ops.mode is Immediate || ops.mode is Implied || ops.mode is NoneAddressing
        || ops.mode is Accumulator || ops.mode is Relative);
    let mem_addr = if resolves {
        spec_peek_operand(v, c.register_x, c.register_y, ops.mode, begin.wrapping_add(1))
    } else {
        0u16
    };
    let stored_value = if resolves && spec_readable(mem_addr) {
        spec_bus_peek(v, mem_addr)
    } else {
        0u8
    };
    let t0 = Seq::<char>::empty() + spec_hex4(begin) + "  "@ + spec_hex2(code);
    let t1 = if ops.len >= 2 {
        t0 + " "@ + spec_hex2(operand_lo)
    } else {
        t0
    };
    let t2 = if ops.len >= 3 {
        t1 + " "@ + spec_hex2(operand_hi)
    } else {
        t1
    };
    let t3 = if ops.len <= 1 {
        t2 + spec_spaces(7)
    } else if ops.len == 2 {
        t2 + spec_spaces(4)
    } else {
        t2 + spec_spaces(1)
    };
    let t4 = if spec_undocumented(ops) {
        t3 + "*"@
    } else {
        t3 + " "@
    };
    let t5 = t4 + spec_mnemonic_name(ops.mnemonic) + " "@;
    let (t6, width) = spec_operand_column(c, ops, operand_lo, operand_hi, mem_addr, stored_value, t5);
    let t7 = if width < 28 {
        t6 + spec_spaces(28 - width)
    } else {
        t6
    };
    let t8 = t7 + "A:"@ + spec_hex2(c.register_a) + " X:"@ + spec_hex2(c.register_x) + " Y:"@
        + spec_hex2(c.register_y) + " P:"@ + spec_hex2(c.processor_status) + " SP:"@ + spec_hex2(
        c.stack_pointer,
    ) + " PPU:"@;
    let scanline = c.bus.ppu.scanline as u64;
    let dot = c.bus.ppu.cycle as u64;
    let t9 = t8 + spec_spaces(spec_dec_pad3(scanline)) + spec_dec(scanline) + ","@ + spec_spaces(
        spec_dec_pad3(dot),
    ) + spec_dec(dot);
    t9 + " CYC:"@ + spec_dec(c.cycles)
}

/// The operand column of the line and its printed width.
pub open spec fn spec_operand_column(
    c: CPU<Bus>,
    ops: OpCode,
    operand_lo: u8,
    operand_hi: u8,
    mem_addr: u16,
    stored_value: u8,
    t: Seq<char>,
) -> (Seq<char>, int) {
    match ops.mode {
        AddressingMode::Immediate => (t + "#$"@ + spec_hex2(operand_lo), 4int),
        AddressingMode::Accumulator => (t + "A"@, 1int),
        AddressingMode::ZeroPage => (
            t + "$"@ + spec_hex2(operand_lo) + " = "@ + spec_hex2(stored_value),
            8int,
        ),
        AddressingMode::ZeroPageX => (
            t + "$"@ + spec_hex2(operand_lo) + ",X @ "@ + spec_hex2(mem_addr as u8) + " = "@
                + spec_hex2(stored_value),
            16int,
        ),
        AddressingMode::ZeroPageY => (
            t + "$"@ + spec_hex2(operand_lo) + ",Y @ "@ + spec_hex2(mem_addr as u8) + " = "@
                + spec_hex2(stored_value),
            16int,
        ),
        AddressingMode::IndirectX => (
            t + "($"@ + spec_hex2(operand_lo) + ",X) @ "@ + spec_hex2(
                operand_lo.wrapping_add(c.register_x),
            ) + " = "@ + spec_hex4(mem_addr) + " = "@ + spec_hex2(stored_value),
            24int,
        ),
        AddressingMode::IndirectY => (
            t + "($"@ + spec_hex2(operand_lo) + "),Y = "@ + spec_hex4(
                mem_addr.wrapping_sub(c.register_y as u16),
            ) + " @ "@ + spec_hex4(mem_addr) + " = "@ + spec_hex2(stored_value),
            26int,
        ),
        AddressingMode::Absolute => {
            if ops.mnemonic is JMP || ops.mnemonic is JSR {
                (t + "$"@ + spec_hex4(mem_addr), 5int)
            } else {
                (t + "$"@ + spec_hex4(mem_addr) + " = "@ + spec_hex2(stored_value), 10int)
            }
        },
        AddressingMode::AbsoluteX => (
            t + "$"@ + spec_hex2(operand_hi) + spec_hex2(operand_lo) + ",X @ "@ + spec_hex4(
                mem_addr,
            ) + " = "@ + spec_hex2(stored_value),
            18int,
        ),
        AddressingMode::AbsoluteY => (
            t + "$"@ + spec_hex2(operand_hi) + spec_hex2(operand_lo) + ",Y @ "@ + spec_hex4(
                mem_addr,
            ) + " = "@ + spec_hex2(stored_value),
            18int,
        ),
        AddressingMode::Indirect => {
            let pointer = (operand_hi as u16) << 8 | operand_lo as u16;
            (t + "($"@ + spec_hex4(pointer) + ") = "@ + spec_hex4(mem_addr), 14int)
        },
        _ => {
            if ops.len == 2 {
                let target = c.program_counter.wrapping_add(2).wrapping_add(
                    (operand_lo as i8) as u16,
                );
                (t + "$"@ + spec_hex4(target), 5int)
            } else {
                (t, 0int)
            }
        },
    }
}

/// One line of the execution trace, in the reference-log layout: the
/// address and raw bytes of the next instruction, its disassembly with
/// the resolved operand, and the register file with the PPU position
/// and the cycle counter. The line is exactly `spec_trace_line` of the
/// snapshot, and the machine comes back untouched: every memory look
/// is a side-effect-free peek.
pub fn trace(cpu: &mut CPU<Bus>) -> (line: String)
    requires
        old(cpu).inv(),
    ensures
        *final(cpu) == *old(cpu),
        line@ == spec_trace_line(*old(cpu)),
{
    let begin: u16 = cpu.program_counter;
    let code: u8 = cpu.bus.peek(begin);
    let ops: OpCode = opcode_for(code);

    let operand_lo: u8 = if ops.len >= 2 {
        cpu.bus.peek(begin.wrapping_add(1))
    } else {
        0
    };
    let operand_hi: u8 = if ops.len >= 3 {
        cpu.bus.peek(begin.wrapping_add(2))
    } else {
        0
    };
    let resolves: bool = match ops.mode {
        AddressingMode::Immediate
        | AddressingMode::Implied
        | AddressingMode::NoneAddressing
        | AddressingMode::Accumulator
        | AddressingMode::Relative => false,
        _ => true,
    };
    let mem_addr: u16 = if resolves {
        peek_operand(&cpu.bus, cpu.register_x, cpu.register_y, &ops.mode, begin.wrapping_add(1))
    } else {
        0
    };
    let stored_value: u8 = if resolves && readable(mem_addr) {
        cpu.bus.peek(mem_addr)
    } else {
        0
    };

    let mut line = String::new();
    push_hex4(&mut line, begin);
    line.append("  ");
    push_hex2(&mut line, code);
    if ops.len >= 2 {
        line.append(" ");
        push_hex2(&mut line, operand_lo);
    }
    if ops.len >= 3 {
        line.append(" ");
        push_hex2(&mut line, operand_hi);
    }
    if ops.len <= 1 {
        push_spaces(&mut line, 7);
    } else if ops.len == 2 {
        push_spaces(&mut line, 4);
    } else {
        push_spaces(&mut line, 1);
    }
    if is_undocumented(&ops) {
        line.append("*");
    } else {
        line.append(" ");
    }
    line.append(mnemonic_name(ops.mnemonic));
    line.append(" ");

    let mut width: usize = 0;
    match ops.mode {
        AddressingMode::Immediate => {
            line.append("#$");
            push_hex2(&mut line, operand_lo);
            width = 4;
        },
        AddressingMode::Accumulator => {
            line.append("A");
            width = 1;
        },
        AddressingMode::ZeroPage => {
            line.append("$");
            push_hex2(&mut line, operand_lo);
            line.append(" = ");
            push_hex2(&mut line, stored_value);
            width = 8;
        },
        AddressingMode::ZeroPageX => {
            line.append("$");
            push_hex2(&mut line, operand_lo);
            line.append(",X @ ");
            push_hex2(&mut line, mem_addr as u8);
            line.append(" = ");
            push_hex2(&mut line, stored_value);
            width = 16;
        },
        AddressingMode::ZeroPageY => {
            line.append("$");
            push_hex2(&mut line, operand_lo);
            line.append(",Y @ ");
            push_hex2(&mut line, mem_addr as u8);
            line.append(" = ");
            push_hex2(&mut line, stored_value);
            width = 16;
        },
        AddressingMode::IndirectX => {
            line.append("($");
            push_hex2(&mut line, operand_lo);
            line.append(",X) @ ");
            push_hex2(&mut line, operand_lo.wrapping_add(cpu.register_x));
            line.append(" = ");
            push_hex4(&mut line, mem_addr);
            line.append(" = ");
            push_hex2(&mut line, stored_value);
            width = 24;
        },
        AddressingMode::IndirectY => {
            line.append("($");
            push_hex2(&mut line, operand_lo);
            line.append("),Y = ");
            push_hex4(&mut line, mem_addr.wrapping_sub(cpu.register_y as u16));
            line.append(" @ ");
            push_hex4(&mut line, mem_addr);
            line.append(" = ");
            push_hex2(&mut line, stored_value);
            width = 26;
        },
        AddressingMode::Absolute => {
            line.append("$");
            push_hex4(&mut line, mem_addr);
            match ops.mnemonic {
                Mnemonic::JMP | Mnemonic::JSR => {
                    width = 5;
                },
                _ => {
                    line.append(" = ");
                    push_hex2(&mut line, stored_value);
                    width = 10;
                },
            }
        },
        AddressingMode::AbsoluteX => {
            line.append("$");
            push_hex2(&mut line, operand_hi);
            push_hex2(&mut line, operand_lo);
            line.append(",X @ ");
            push_hex4(&mut line, mem_addr);
            line.append(" = ");
            push_hex2(&mut line, stored_value);
            width = 18;
        },
        AddressingMode::AbsoluteY => {
            line.append("$");
            push_hex2(&mut line, operand_hi);
            push_hex2(&mut line, operand_lo);
            line.append(",Y @ ");
            push_hex4(&mut line, mem_addr);
            line.append(" = ");
            push_hex2(&mut line, stored_value);
            width = 18;
        },
        AddressingMode::Indirect => {
            let pointer: u16 = (operand_hi as u16) << 8 | operand_lo as u16;
            line.append("($");
            push_hex4(&mut line, pointer);
            line.append(") = ");
            push_hex4(&mut line, mem_addr);
            width = 14;
        },
        _ => {
            if ops.len == 2 {
                // a branch target, relative to the following instruction
                let target: u16 = begin.wrapping_add(2).wrapping_add((operand_lo as i8) as u16);
                line.append("$");
                push_hex4(&mut line, target);
                width = 5;
            }
        },
    }
    if width < 28 {
        push_spaces(&mut line, 28 - width);
    }

    line.append("A:");
    push_hex2(&mut line, cpu.register_a);
    line.append(" X:");
    push_hex2(&mut line, cpu.register_x);
    line.append(" Y:");
    push_hex2(&mut line, cpu.register_y);
    line.append(" P:");
    push_hex2(&mut line, cpu.processor_status);
    line.append(" SP:");
    push_hex2(&mut line, cpu.stack_pointer);
    line.append(" PPU:");
    let scanline: u64 = cpu.bus.ppu.scanline as u64;
    let dot: u64 = cpu.bus.ppu.cycle as u64;
    if scanline < 10 {
        push_spaces(&mut line, 2);
    } else if scanline < 100 {
        push_spaces(&mut line, 1);
    } else {
        push_spaces(&mut line, 0);
    }
    push_dec(&mut line, scanline);
    line.append(",");
    if dot < 10 {
        push_spaces(&mut line, 2);
    } else if dot < 100 {
        push_spaces(&mut line, 1);
    } else {
        push_spaces(&mut line, 0);
    }
    push_dec(&mut line, dot);
    line.append(" CYC:");
    push_dec(&mut line, cpu.cycles);
    line
}

} // verus!

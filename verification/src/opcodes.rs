//! The opcode table: every one of the 256 encodings maps to a record of
//! mnemonic, addressing mode, instruction length and base cycle count.
//! Unofficial opcodes carry the timings the documented test ROMs expect.

use vstd::prelude::*;

use crate::cpu::addr_mode_resolvable;
use crate::cpu::AddressingMode;

verus! {

/// Every instruction the 2A03 decodes, official and undocumented.
#[allow(clippy::upper_case_acronyms)]
#[derive(Clone, Copy, Debug, PartialEq, Eq, Structural)]
pub enum Mnemonic {
    INV,
    ADC,
    AHX,
    ALR,
    ANC,
    AND,
    ARR,
    ASL,
    AXS,
    BCC,
    BCS,
    BEQ,
    BIT,
    BMI,
    BNE,
    BPL,
    BRK,
    BVC,
    BVS,
    CLC,
    CLD,
    CLI,
    CLV,
    CMP,
    CPX,
    CPY,
    DCP,
    DEC,
    DEX,
    DEY,
    EOR,
    INC,
    INX,
    INY,
    ISB,
    JAM,
    JMP,
    JSR,
    LAX,
    LAS,
    LDA,
    LDX,
    LDY,
    LSR,
    NOP,
    ORA,
    PHA,
    PHP,
    PLA,
    PLP,
    RLA,
    ROL,
    ROR,
    RRA,
    RTI,
    RTS,
    SAX,
    SBC,
    SEC,
    SED,
    SEI,
    SHX,
    SHY,
    SLO,
    SRE,
    STA,
    STX,
    STY,
    TAS,
    TAX,
    TAY,
    TSX,
    TXA,
    TXS,
    TYA,
    XAA,
}

/// One row of the opcode table.
#[derive(Clone, Copy, Debug, PartialEq, Eq, Structural)]
pub struct OpCode {
    pub code: u8,
    pub mnemonic: Mnemonic,
    pub len: u8,
    pub cycles: u8,
    pub mode: AddressingMode,
}

/// The table row of an opcode byte. Opaque so that reasoning about the
/// dispatcher does not split on all 256 rows; `opcode_for` hands rows
/// out together with `opcode_ok`.
#[verifier::opaque]
pub open spec fn spec_opcode(code: u8) -> OpCode {
    match code {
        0x00 => OpCode { code: 0x00, mnemonic: Mnemonic::BRK, len: 1, cycles: 7, mode: AddressingMode::NoneAddressing },
        0x01 => OpCode { code: 0x01, mnemonic: Mnemonic::ORA, len: 2, cycles: 6, mode: AddressingMode::IndirectX },
        0x02 => OpCode { code: 0x02, mnemonic: Mnemonic::JAM, len: 1, cycles: 2, mode: AddressingMode::NoneAddressing },
        0x03 => OpCode { code: 0x03, mnemonic: Mnemonic::SLO, len: 2, cycles: 8, mode: AddressingMode::IndirectX },
        0x04 => OpCode { code: 0x04, mnemonic: Mnemonic::NOP, len: 2, cycles: 3, mode: AddressingMode::ZeroPage },
        0x05 => OpCode { code: 0x05, mnemonic: Mnemonic::ORA, len: 2, cycles: 3, mode: AddressingMode::ZeroPage },
        0x06 => OpCode { code: 0x06, mnemonic: Mnemonic::ASL, len: 2, cycles: 5, mode: AddressingMode::ZeroPage },
        0x07 => OpCode { code: 0x07, mnemonic: Mnemonic::SLO, len: 2, cycles: 5, mode: AddressingMode::ZeroPage },
        0x08 => OpCode { code: 0x08, mnemonic: Mnemonic::PHP, len: 1, cycles: 3, mode: AddressingMode::NoneAddressing },
        0x09 => OpCode { code: 0x09, mnemonic: Mnemonic::ORA, len: 2, cycles: 2, mode: AddressingMode::Immediate },
        0x0A => OpCode { code: 0x0A, mnemonic: Mnemonic::ASL, len: 1, cycles: 2, mode: AddressingMode::Accumulator },
        0x0B => OpCode { code: 0x0B, mnemonic: Mnemonic::ANC, len: 2, cycles: 2, mode: AddressingMode::Immediate },
        0x0C => OpCode { code: 0x0C, mnemonic: Mnemonic::NOP, len: 3, cycles: 4, mode: AddressingMode::Absolute },
        0x0D => OpCode { code: 0x0D, mnemonic: Mnemonic::ORA, len: 3, cycles: 4, mode: AddressingMode::Absolute },
        0x0E => OpCode { code: 0x0E, mnemonic: Mnemonic::ASL, len: 3, cycles: 6, mode: AddressingMode::Absolute },
        0x0F => OpCode { code: 0x0F, mnemonic: Mnemonic::SLO, len: 3, cycles: 6, mode: AddressingMode::Absolute },
        0x10 => OpCode { code: 0x10, mnemonic: Mnemonic::BPL, len: 2, cycles: 2, mode: AddressingMode::NoneAddressing },
        0x11 => OpCode { code: 0x11, mnemonic: Mnemonic::ORA, len: 2, cycles: 5, mode: AddressingMode::IndirectY },
        0x12 => OpCode { code: 0x12, mnemonic: Mnemonic::JAM, len: 1, cycles: 2, mode: AddressingMode::NoneAddressing },
        0x13 => OpCode { code: 0x13, mnemonic: Mnemonic::SLO, len: 2, cycles: 8, mode: AddressingMode::IndirectY },
        0x14 => OpCode { code: 0x14, mnemonic: Mnemonic::NOP, len: 2, cycles: 4, mode: AddressingMode::ZeroPageX },
        0x15 => OpCode { code: 0x15, mnemonic: Mnemonic::ORA, len: 2, cycles: 4, mode: AddressingMode::ZeroPageX },
        0x16 => OpCode { code: 0x16, mnemonic: Mnemonic::ASL, len: 2, cycles: 6, mode: AddressingMode::ZeroPageX },
        0x17 => OpCode { code: 0x17, mnemonic: Mnemonic::SLO, len: 2, cycles: 6, mode: AddressingMode::ZeroPageX },
        0x18 => OpCode { code: 0x18, mnemonic: Mnemonic::CLC, len: 1, cycles: 2, mode: AddressingMode::NoneAddressing },
        0x19 => OpCode { code: 0x19, mnemonic: Mnemonic::ORA, len: 3, cycles: 4, mode: AddressingMode::AbsoluteY },
        0x1A => OpCode { code: 0x1A, mnemonic: Mnemonic::NOP, len: 1, cycles: 2, mode: AddressingMode::Implied },
        0x1B => OpCode { code: 0x1B, mnemonic: Mnemonic::SLO, len: 3, cycles: 7, mode: AddressingMode::AbsoluteY },
        0x1C => OpCode { code: 0x1C, mnemonic: Mnemonic::NOP, len: 3, cycles: 4, mode: AddressingMode::AbsoluteX },
        0x1D => OpCode { code: 0x1D, mnemonic: Mnemonic::ORA, len: 3, cycles: 4, mode: AddressingMode::AbsoluteX },
        0x1E => OpCode { code: 0x1E, mnemonic: Mnemonic::ASL, len: 3, cycles: 7, mode: AddressingMode::AbsoluteX },
        0x1F => OpCode { code: 0x1F, mnemonic: Mnemonic::SLO, len: 3, cycles: 7, mode: AddressingMode::AbsoluteX },
        0x20 => OpCode { code: 0x20, mnemonic: Mnemonic::JSR, len: 3, cycles: 6, mode: AddressingMode::Absolute },
        0x21 => OpCode { code: 0x21, mnemonic: Mnemonic::AND, len: 2, cycles: 6, mode: AddressingMode::IndirectX },
        0x22 => OpCode { code: 0x22, mnemonic: Mnemonic::JAM, len: 1, cycles: 2, mode: AddressingMode::NoneAddressing },
        0x23 => OpCode { code: 0x23, mnemonic: Mnemonic::RLA, len: 2, cycles: 8, mode: AddressingMode::IndirectX },
        0x24 => OpCode { code: 0x24, mnemonic: Mnemonic::BIT, len: 2, cycles: 3, mode: AddressingMode::ZeroPage },
        0x25 => OpCode { code: 0x25, mnemonic: Mnemonic::AND, len: 2, cycles: 3, mode: AddressingMode::ZeroPage },
        0x26 => OpCode { code: 0x26, mnemonic: Mnemonic::ROL, len: 2, cycles: 5, mode: AddressingMode::ZeroPage },
        0x27 => OpCode { code: 0x27, mnemonic: Mnemonic::RLA, len: 2, cycles: 5, mode: AddressingMode::ZeroPage },
        0x28 => OpCode { code: 0x28, mnemonic: Mnemonic::PLP, len: 1, cycles: 4, mode: AddressingMode::NoneAddressing },
        0x29 => OpCode { code: 0x29, mnemonic: Mnemonic::AND, len: 2, cycles: 2, mode: AddressingMode::Immediate },
        0x2A => OpCode { code: 0x2A, mnemonic: Mnemonic::ROL, len: 1, cycles: 2, mode: AddressingMode::Accumulator },
        0x2B => OpCode { code: 0x2B, mnemonic: Mnemonic::ANC, len: 2, cycles: 2, mode: AddressingMode::Immediate },
        0x2C => OpCode { code: 0x2C, mnemonic: Mnemonic::BIT, len: 3, cycles: 4, mode: AddressingMode::Absolute },
        0x2D => OpCode { code: 0x2D, mnemonic: Mnemonic::AND, len: 3, cycles: 4, mode: AddressingMode::Absolute },
        0x2E => OpCode { code: 0x2E, mnemonic: Mnemonic::ROL, len: 3, cycles: 6, mode: AddressingMode::Absolute },
        0x2F => OpCode { code: 0x2F, mnemonic: Mnemonic::RLA, len: 3, cycles: 6, mode: AddressingMode::Absolute },
        0x30 => OpCode { code: 0x30, mnemonic: Mnemonic::BMI, len: 2, cycles: 2, mode: AddressingMode::NoneAddressing },
        0x31 => OpCode { code: 0x31, mnemonic: Mnemonic::AND, len: 2, cycles: 5, mode: AddressingMode::IndirectY },
        0x32 => OpCode { code: 0x32, mnemonic: Mnemonic::JAM, len: 1, cycles: 2, mode: AddressingMode::NoneAddressing },
        0x33 => OpCode { code: 0x33, mnemonic: Mnemonic::RLA, len: 2, cycles: 8, mode: AddressingMode::IndirectY },
        0x34 => OpCode { code: 0x34, mnemonic: Mnemonic::NOP, len: 2, cycles: 4, mode: AddressingMode::ZeroPageX },
        0x35 => OpCode { code: 0x35, mnemonic: Mnemonic::AND, len: 2, cycles: 4, mode: AddressingMode::ZeroPageX },
        0x36 => OpCode { code: 0x36, mnemonic: Mnemonic::ROL, len: 2, cycles: 6, mode: AddressingMode::ZeroPageX },
        0x37 => OpCode { code: 0x37, mnemonic: Mnemonic::RLA, len: 2, cycles: 6, mode: AddressingMode::ZeroPageX },
        0x38 => OpCode { code: 0x38, mnemonic: Mnemonic::SEC, len: 1, cycles: 2, mode: AddressingMode::NoneAddressing },
        0x39 => OpCode { code: 0x39, mnemonic: Mnemonic::AND, len: 3, cycles: 4, mode: AddressingMode::AbsoluteY },
        0x3A => OpCode { code: 0x3A, mnemonic: Mnemonic::NOP, len: 1, cycles: 2, mode: AddressingMode::Implied },
        0x3B => OpCode { code: 0x3B, mnemonic: Mnemonic::RLA, len: 3, cycles: 7, mode: AddressingMode::AbsoluteY },
        0x3C => OpCode { code: 0x3C, mnemonic: Mnemonic::NOP, len: 3, cycles: 4, mode: AddressingMode::AbsoluteX },
        0x3D => OpCode { code: 0x3D, mnemonic: Mnemonic::AND, len: 3, cycles: 4, mode: AddressingMode::AbsoluteX },
        0x3E => OpCode { code: 0x3E, mnemonic: Mnemonic::ROL, len: 3, cycles: 7, mode: AddressingMode::AbsoluteX },
        0x3F => OpCode { code: 0x3F, mnemonic: Mnemonic::RLA, len: 3, cycles: 7, mode: AddressingMode::AbsoluteX },
        0x40 => OpCode { code: 0x40, mnemonic: Mnemonic::RTI, len: 1, cycles: 6, mode: AddressingMode::NoneAddressing },
        0x41 => OpCode { code: 0x41, mnemonic: Mnemonic::EOR, len: 2, cycles: 6, mode: AddressingMode::IndirectX },
        0x42 => OpCode { code: 0x42, mnemonic: Mnemonic::JAM, len: 1, cycles: 2, mode: AddressingMode::NoneAddressing },
        0x43 => OpCode { code: 0x43, mnemonic: Mnemonic::SRE, len: 2, cycles: 8, mode: AddressingMode::IndirectX },
        0x44 => OpCode { code: 0x44, mnemonic: Mnemonic::NOP, len: 2, cycles: 3, mode: AddressingMode::ZeroPage },
        0x45 => OpCode { code: 0x45, mnemonic: Mnemonic::EOR, len: 2, cycles: 3, mode: AddressingMode::ZeroPage },
        0x46 => OpCode { code: 0x46, mnemonic: Mnemonic::LSR, len: 2, cycles: 5, mode: AddressingMode::ZeroPage },
        0x47 => OpCode { code: 0x47, mnemonic: Mnemonic::SRE, len: 2, cycles: 5, mode: AddressingMode::ZeroPage },
        0x48 => OpCode { code: 0x48, mnemonic: Mnemonic::PHA, len: 1, cycles: 3, mode: AddressingMode::NoneAddressing },
        0x49 => OpCode { code: 0x49, mnemonic: Mnemonic::EOR, len: 2, cycles: 2, mode: AddressingMode::Immediate },
        0x4A => OpCode { code: 0x4A, mnemonic: Mnemonic::LSR, len: 1, cycles: 2, mode: AddressingMode::Accumulator },
        0x4B => OpCode { code: 0x4B, mnemonic: Mnemonic::ALR, len: 2, cycles: 2, mode: AddressingMode::Immediate },
        0x4C => OpCode { code: 0x4C, mnemonic: Mnemonic::JMP, len: 3, cycles: 3, mode: AddressingMode::Absolute },
        0x4D => OpCode { code: 0x4D, mnemonic: Mnemonic::EOR, len: 3, cycles: 4, mode: AddressingMode::Absolute },
        0x4E => OpCode { code: 0x4E, mnemonic: Mnemonic::LSR, len: 3, cycles: 6, mode: AddressingMode::Absolute },
        0x4F => OpCode { code: 0x4F, mnemonic: Mnemonic::SRE, len: 3, cycles: 6, mode: AddressingMode::Absolute },
        0x50 => OpCode { code: 0x50, mnemonic: Mnemonic::BVC, len: 2, cycles: 2, mode: AddressingMode::NoneAddressing },
        0x51 => OpCode { code: 0x51, mnemonic: Mnemonic::EOR, len: 2, cycles: 5, mode: AddressingMode::IndirectY },
        0x52 => OpCode { code: 0x52, mnemonic: Mnemonic::JAM, len: 1, cycles: 2, mode: AddressingMode::NoneAddressing },
        0x53 => OpCode { code: 0x53, mnemonic: Mnemonic::SRE, len: 2, cycles: 8, mode: AddressingMode::IndirectY },
        0x54 => OpCode { code: 0x54, mnemonic: Mnemonic::NOP, len: 2, cycles: 4, mode: AddressingMode::ZeroPageX },
        0x55 => OpCode { code: 0x55, mnemonic: Mnemonic::EOR, len: 2, cycles: 4, mode: AddressingMode::ZeroPageX },
        0x56 => OpCode { code: 0x56, mnemonic: Mnemonic::LSR, len: 2, cycles: 6, mode: AddressingMode::ZeroPageX },
        0x57 => OpCode { code: 0x57, mnemonic: Mnemonic::SRE, len: 2, cycles: 6, mode: AddressingMode::ZeroPageX },
        0x58 => OpCode { code: 0x58, mnemonic: Mnemonic::CLI, len: 1, cycles: 2, mode: AddressingMode::NoneAddressing },
        0x59 => OpCode { code: 0x59, mnemonic: Mnemonic::EOR, len: 3, cycles: 4, mode: AddressingMode::AbsoluteY },
        0x5A => OpCode { code: 0x5A, mnemonic: Mnemonic::NOP, len: 1, cycles: 2, mode: AddressingMode::Implied },
        0x5B => OpCode { code: 0x5B, mnemonic: Mnemonic::SRE, len: 3, cycles: 7, mode: AddressingMode::AbsoluteY },
        0x5C => OpCode { code: 0x5C, mnemonic: Mnemonic::NOP, len: 3, cycles: 4, mode: AddressingMode::AbsoluteX },
        0x5D => OpCode { code: 0x5D, mnemonic: Mnemonic::EOR, len: 3, cycles: 4, mode: AddressingMode::AbsoluteX },
        0x5E => OpCode { code: 0x5E, mnemonic: Mnemonic::LSR, len: 3, cycles: 7, mode: AddressingMode::AbsoluteX },
        0x5F => OpCode { code: 0x5F, mnemonic: Mnemonic::SRE, len: 3, cycles: 7, mode: AddressingMode::AbsoluteX },
        0x60 => OpCode { code: 0x60, mnemonic: Mnemonic::RTS, len: 1, cycles: 6, mode: AddressingMode::NoneAddressing },
        0x61 => OpCode { code: 0x61, mnemonic: Mnemonic::ADC, len: 2, cycles: 6, mode: AddressingMode::IndirectX },
        0x62 => OpCode { code: 0x62, mnemonic: Mnemonic::JAM, len: 1, cycles: 2, mode: AddressingMode::NoneAddressing },
        0x63 => OpCode { code: 0x63, mnemonic: Mnemonic::RRA, len: 2, cycles: 8, mode: AddressingMode::IndirectX },
        0x64 => OpCode { code: 0x64, mnemonic: Mnemonic::NOP, len: 2, cycles: 3, mode: AddressingMode::ZeroPage },
        0x65 => OpCode { code: 0x65, mnemonic: Mnemonic::ADC, len: 2, cycles: 3, mode: AddressingMode::ZeroPage },
        0x66 => OpCode { code: 0x66, mnemonic: Mnemonic::ROR, len: 2, cycles: 5, mode: AddressingMode::ZeroPage },
        0x67 => OpCode { code: 0x67, mnemonic: Mnemonic::RRA, len: 2, cycles: 5, mode: AddressingMode::ZeroPage },
        0x68 => OpCode { code: 0x68, mnemonic: Mnemonic::PLA, len: 1, cycles: 4, mode: AddressingMode::NoneAddressing },
        0x69 => OpCode { code: 0x69, mnemonic: Mnemonic::ADC, len: 2, cycles: 2, mode: AddressingMode::Immediate },
        0x6A => OpCode { code: 0x6A, mnemonic: Mnemonic::ROR, len: 1, cycles: 2, mode: AddressingMode::Accumulator },
        0x6B => OpCode { code: 0x6B, mnemonic: Mnemonic::ARR, len: 2, cycles: 2, mode: AddressingMode::Immediate },
        0x6C => OpCode { code: 0x6C, mnemonic: Mnemonic::JMP, len: 3, cycles: 5, mode: AddressingMode::Indirect },
        0x6D => OpCode { code: 0x6D, mnemonic: Mnemonic::ADC, len: 3, cycles: 4, mode: AddressingMode::Absolute },
        0x6E => OpCode { code: 0x6E, mnemonic: Mnemonic::ROR, len: 3, cycles: 6, mode: AddressingMode::Absolute },
        0x6F => OpCode { code: 0x6F, mnemonic: Mnemonic::RRA, len: 3, cycles: 6, mode: AddressingMode::Absolute },
        0x70 => OpCode { code: 0x70, mnemonic: Mnemonic::BVS, len: 2, cycles: 2, mode: AddressingMode::NoneAddressing },
        0x71 => OpCode { code: 0x71, mnemonic: Mnemonic::ADC, len: 2, cycles: 5, mode: AddressingMode::IndirectY },
        0x72 => OpCode { code: 0x72, mnemonic: Mnemonic::JAM, len: 1, cycles: 2, mode: AddressingMode::NoneAddressing },
        0x73 => OpCode { code: 0x73, mnemonic: Mnemonic::RRA, len: 2, cycles: 8, mode: AddressingMode::IndirectY },
        0x74 => OpCode { code: 0x74, mnemonic: Mnemonic::NOP, len: 2, cycles: 4, mode: AddressingMode::ZeroPageX },
        0x75 => OpCode { code: 0x75, mnemonic: Mnemonic::ADC, len: 2, cycles: 4, mode: AddressingMode::ZeroPageX },
        0x76 => OpCode { code: 0x76, mnemonic: Mnemonic::ROR, len: 2, cycles: 6, mode: AddressingMode::ZeroPageX },
        0x77 => OpCode { code: 0x77, mnemonic: Mnemonic::RRA, len: 2, cycles: 6, mode: AddressingMode::ZeroPageX },
        0x78 => OpCode { code: 0x78, mnemonic: Mnemonic::SEI, len: 1, cycles: 2, mode: AddressingMode::NoneAddressing },
        0x79 => OpCode { code: 0x79, mnemonic: Mnemonic::ADC, len: 3, cycles: 4, mode: AddressingMode::AbsoluteY },
        0x7A => OpCode { code: 0x7A, mnemonic: Mnemonic::NOP, len: 1, cycles: 2, mode: AddressingMode::Implied },
        0x7B => OpCode { code: 0x7B, mnemonic: Mnemonic::RRA, len: 3, cycles: 7, mode: AddressingMode::AbsoluteY },
        0x7C => OpCode { code: 0x7C, mnemonic: Mnemonic::NOP, len: 3, cycles: 4, mode: AddressingMode::AbsoluteX },
        0x7D => OpCode { code: 0x7D, mnemonic: Mnemonic::ADC, len: 3, cycles: 4, mode: AddressingMode::AbsoluteX },
        0x7E => OpCode { code: 0x7E, mnemonic: Mnemonic::ROR, len: 3, cycles: 7, mode: AddressingMode::AbsoluteX },
        0x7F => OpCode { code: 0x7F, mnemonic: Mnemonic::RRA, len: 3, cycles: 7, mode: AddressingMode::AbsoluteX },
        0x80 => OpCode { code: 0x80, mnemonic: Mnemonic::NOP, len: 2, cycles: 2, mode: AddressingMode::Immediate },
        0x81 => OpCode { code: 0x81, mnemonic: Mnemonic::STA, len: 2, cycles: 6, mode: AddressingMode::IndirectX },
        0x82 => OpCode { code: 0x82, mnemonic: Mnemonic::NOP, len: 2, cycles: 2, mode: AddressingMode::Immediate },
        0x83 => OpCode { code: 0x83, mnemonic: Mnemonic::SAX, len: 2, cycles: 6, mode: AddressingMode::IndirectX },
        0x84 => OpCode { code: 0x84, mnemonic: Mnemonic::STY, len: 2, cycles: 3, mode: AddressingMode::ZeroPage },
        0x85 => OpCode { code: 0x85, mnemonic: Mnemonic::STA, len: 2, cycles: 3, mode: AddressingMode::ZeroPage },
        0x86 => OpCode { code: 0x86, mnemonic: Mnemonic::STX, len: 2, cycles: 3, mode: AddressingMode::ZeroPage },
        0x87 => OpCode { code: 0x87, mnemonic: Mnemonic::SAX, len: 2, cycles: 3, mode: AddressingMode::ZeroPage },
        0x88 => OpCode { code: 0x88, mnemonic: Mnemonic::DEY, len: 1, cycles: 2, mode: AddressingMode::NoneAddressing },
        0x89 => OpCode { code: 0x89, mnemonic: Mnemonic::NOP, len: 2, cycles: 2, mode: AddressingMode::Immediate },
        0x8A => OpCode { code: 0x8A, mnemonic: Mnemonic::TXA, len: 1, cycles: 2, mode: AddressingMode::NoneAddressing },
        0x8B => OpCode { code: 0x8B, mnemonic: Mnemonic::XAA, len: 2, cycles: 3, mode: AddressingMode::Immediate },
        0x8C => OpCode { code: 0x8C, mnemonic: Mnemonic::STY, len: 3, cycles: 4, mode: AddressingMode::Absolute },
        0x8D => OpCode { code: 0x8D, mnemonic: Mnemonic::STA, len: 3, cycles: 4, mode: AddressingMode::Absolute },
        0x8E => OpCode { code: 0x8E, mnemonic: Mnemonic::STX, len: 3, cycles: 4, mode: AddressingMode::Absolute },
        0x8F => OpCode { code: 0x8F, mnemonic: Mnemonic::SAX, len: 3, cycles: 4, mode: AddressingMode::Absolute },
        0x90 => OpCode { code: 0x90, mnemonic: Mnemonic::BCC, len: 2, cycles: 2, mode: AddressingMode::NoneAddressing },
        0x91 => OpCode { code: 0x91, mnemonic: Mnemonic::STA, len: 2, cycles: 6, mode: AddressingMode::IndirectY },
        0x92 => OpCode { code: 0x92, mnemonic: Mnemonic::JAM, len: 1, cycles: 2, mode: AddressingMode::NoneAddressing },
        0x93 => OpCode { code: 0x93, mnemonic: Mnemonic::AHX, len: 2, cycles: 8, mode: AddressingMode::IndirectY },
        0x94 => OpCode { code: 0x94, mnemonic: Mnemonic::STY, len: 2, cycles: 4, mode: AddressingMode::ZeroPageX },
        0x95 => OpCode { code: 0x95, mnemonic: Mnemonic::STA, len: 2, cycles: 4, mode: AddressingMode::ZeroPageX },
        0x96 => OpCode { code: 0x96, mnemonic: Mnemonic::STX, len: 2, cycles: 4, mode: AddressingMode::ZeroPageY },
        0x97 => OpCode { code: 0x97, mnemonic: Mnemonic::SAX, len: 2, cycles: 4, mode: AddressingMode::ZeroPageY },
        0x98 => OpCode { code: 0x98, mnemonic: Mnemonic::TYA, len: 1, cycles: 2, mode: AddressingMode::NoneAddressing },
        0x99 => OpCode { code: 0x99, mnemonic: Mnemonic::STA, len: 3, cycles: 5, mode: AddressingMode::AbsoluteY },
        0x9A => OpCode { code: 0x9A, mnemonic: Mnemonic::TXS, len: 1, cycles: 2, mode: AddressingMode::NoneAddressing },
        0x9B => OpCode { code: 0x9B, mnemonic: Mnemonic::TAS, len: 3, cycles: 2, mode: AddressingMode::AbsoluteY },
        0x9C => OpCode { code: 0x9C, mnemonic: Mnemonic::SHY, len: 3, cycles: 4, mode: AddressingMode::AbsoluteX },
        0x9D => OpCode { code: 0x9D, mnemonic: Mnemonic::STA, len: 3, cycles: 5, mode: AddressingMode::AbsoluteX },
        0x9E => OpCode { code: 0x9E, mnemonic: Mnemonic::SHX, len: 3, cycles: 4, mode: AddressingMode::AbsoluteY },
        0x9F => OpCode { code: 0x9F, mnemonic: Mnemonic::AHX, len: 3, cycles: 4, mode: AddressingMode::AbsoluteY },
        0xA0 => OpCode { code: 0xA0, mnemonic: Mnemonic::LDY, len: 2, cycles: 2, mode: AddressingMode::Immediate },
        0xA1 => OpCode { code: 0xA1, mnemonic: Mnemonic::LDA, len: 2, cycles: 6, mode: AddressingMode::IndirectX },
        0xA2 => OpCode { code: 0xA2, mnemonic: Mnemonic::LDX, len: 2, cycles: 2, mode: AddressingMode::Immediate },
        0xA3 => OpCode { code: 0xA3, mnemonic: Mnemonic::LAX, len: 2, cycles: 6, mode: AddressingMode::IndirectX },
        0xA4 => OpCode { code: 0xA4, mnemonic: Mnemonic::LDY, len: 2, cycles: 3, mode: AddressingMode::ZeroPage },
        0xA5 => OpCode { code: 0xA5, mnemonic: Mnemonic::LDA, len: 2, cycles: 3, mode: AddressingMode::ZeroPage },
        0xA6 => OpCode { code: 0xA6, mnemonic: Mnemonic::LDX, len: 2, cycles: 3, mode: AddressingMode::ZeroPage },
        0xA7 => OpCode { code: 0xA7, mnemonic: Mnemonic::LAX, len: 2, cycles: 3, mode: AddressingMode::ZeroPage },
        0xA8 => OpCode { code: 0xA8, mnemonic: Mnemonic::TAY, len: 1, cycles: 2, mode: AddressingMode::NoneAddressing },
        0xA9 => OpCode { code: 0xA9, mnemonic: Mnemonic::LDA, len: 2, cycles: 2, mode: AddressingMode::Immediate },
        0xAA => OpCode { code: 0xAA, mnemonic: Mnemonic::TAX, len: 1, cycles: 2, mode: AddressingMode::NoneAddressing },
        0xAB => OpCode { code: 0xAB, mnemonic: Mnemonic::LAX, len: 2, cycles: 3, mode: AddressingMode::Immediate },
        0xAC => OpCode { code: 0xAC, mnemonic: Mnemonic::LDY, len: 3, cycles: 4, mode: AddressingMode::Absolute },
        0xAD => OpCode { code: 0xAD, mnemonic: Mnemonic::LDA, len: 3, cycles: 4, mode: AddressingMode::Absolute },
        0xAE => OpCode { code: 0xAE, mnemonic: Mnemonic::LDX, len: 3, cycles: 4, mode: AddressingMode::Absolute },
        0xAF => OpCode { code: 0xAF, mnemonic: Mnemonic::LAX, len: 3, cycles: 4, mode: AddressingMode::Absolute },
        0xB0 => OpCode { code: 0xB0, mnemonic: Mnemonic::BCS, len: 2, cycles: 2, mode: AddressingMode::NoneAddressing },
        0xB1 => OpCode { code: 0xB1, mnemonic: Mnemonic::LDA, len: 2, cycles: 5, mode: AddressingMode::IndirectY },
        0xB2 => OpCode { code: 0xB2, mnemonic: Mnemonic::JAM, len: 1, cycles: 2, mode: AddressingMode::NoneAddressing },
        0xB3 => OpCode { code: 0xB3, mnemonic: Mnemonic::LAX, len: 2, cycles: 5, mode: AddressingMode::IndirectY },
        0xB4 => OpCode { code: 0xB4, mnemonic: Mnemonic::LDY, len: 2, cycles: 4, mode: AddressingMode::ZeroPageX },
        0xB5 => OpCode { code: 0xB5, mnemonic: Mnemonic::LDA, len: 2, cycles: 4, mode: AddressingMode::ZeroPageX },
        0xB6 => OpCode { code: 0xB6, mnemonic: Mnemonic::LDX, len: 2, cycles: 4, mode: AddressingMode::ZeroPageY },
        0xB7 => OpCode { code: 0xB7, mnemonic: Mnemonic::LAX, len: 2, cycles: 4, mode: AddressingMode::ZeroPageY },
        0xB8 => OpCode { code: 0xB8, mnemonic: Mnemonic::CLV, len: 1, cycles: 2, mode: AddressingMode::NoneAddressing },
        0xB9 => OpCode { code: 0xB9, mnemonic: Mnemonic::LDA, len: 3, cycles: 4, mode: AddressingMode::AbsoluteY },
        0xBA => OpCode { code: 0xBA, mnemonic: Mnemonic::TSX, len: 1, cycles: 2, mode: AddressingMode::NoneAddressing },
        0xBB => OpCode { code: 0xBB, mnemonic: Mnemonic::LAS, len: 3, cycles: 2, mode: AddressingMode::AbsoluteY },
        0xBC => OpCode { code: 0xBC, mnemonic: Mnemonic::LDY, len: 3, cycles: 4, mode: AddressingMode::AbsoluteX },
        0xBD => OpCode { code: 0xBD, mnemonic: Mnemonic::LDA, len: 3, cycles: 4, mode: AddressingMode::AbsoluteX },
        0xBE => OpCode { code: 0xBE, mnemonic: Mnemonic::LDX, len: 3, cycles: 4, mode: AddressingMode::AbsoluteY },
        0xBF => OpCode { code: 0xBF, mnemonic: Mnemonic::LAX, len: 3, cycles: 4, mode: AddressingMode::AbsoluteY },
        0xC0 => OpCode { code: 0xC0, mnemonic: Mnemonic::CPY, len: 2, cycles: 2, mode: AddressingMode::Immediate },
        0xC1 => OpCode { code: 0xC1, mnemonic: Mnemonic::CMP, len: 2, cycles: 6, mode: AddressingMode::IndirectX },
        0xC2 => OpCode { code: 0xC2, mnemonic: Mnemonic::NOP, len: 2, cycles: 2, mode: AddressingMode::Immediate },
        0xC3 => OpCode { code: 0xC3, mnemonic: Mnemonic::DCP, len: 2, cycles: 8, mode: AddressingMode::IndirectX },
        0xC4 => OpCode { code: 0xC4, mnemonic: Mnemonic::CPY, len: 2, cycles: 3, mode: AddressingMode::ZeroPage },
        0xC5 => OpCode { code: 0xC5, mnemonic: Mnemonic::CMP, len: 2, cycles: 3, mode: AddressingMode::ZeroPage },
        0xC6 => OpCode { code: 0xC6, mnemonic: Mnemonic::DEC, len: 2, cycles: 5, mode: AddressingMode::ZeroPage },
        0xC7 => OpCode { code: 0xC7, mnemonic: Mnemonic::DCP, len: 2, cycles: 5, mode: AddressingMode::ZeroPage },
        0xC8 => OpCode { code: 0xC8, mnemonic: Mnemonic::INY, len: 1, cycles: 2, mode: AddressingMode::NoneAddressing },
        0xC9 => OpCode { code: 0xC9, mnemonic: Mnemonic::CMP, len: 2, cycles: 2, mode: AddressingMode::Immediate },
        0xCA => OpCode { code: 0xCA, mnemonic: Mnemonic::DEX, len: 1, cycles: 2, mode: AddressingMode::NoneAddressing },
        0xCB => OpCode { code: 0xCB, mnemonic: Mnemonic::AXS, len: 2, cycles: 2, mode: AddressingMode::Immediate },
        0xCC => OpCode { code: 0xCC, mnemonic: Mnemonic::CPY, len: 3, cycles: 4, mode: AddressingMode::Absolute },
        0xCD => OpCode { code: 0xCD, mnemonic: Mnemonic::CMP, len: 3, cycles: 4, mode: AddressingMode::Absolute },
        0xCE => OpCode { code: 0xCE, mnemonic: Mnemonic::DEC, len: 3, cycles: 6, mode: AddressingMode::Absolute },
        0xCF => OpCode { code: 0xCF, mnemonic: Mnemonic::DCP, len: 3, cycles: 6, mode: AddressingMode::Absolute },
        0xD0 => OpCode { code: 0xD0, mnemonic: Mnemonic::BNE, len: 2, cycles: 2, mode: AddressingMode::NoneAddressing },
        0xD1 => OpCode { code: 0xD1, mnemonic: Mnemonic::CMP, len: 2, cycles: 5, mode: AddressingMode::IndirectY },
        0xD2 => OpCode { code: 0xD2, mnemonic: Mnemonic::JAM, len: 1, cycles: 2, mode: AddressingMode::NoneAddressing },
        0xD3 => OpCode { code: 0xD3, mnemonic: Mnemonic::DCP, len: 2, cycles: 8, mode: AddressingMode::IndirectY },
        0xD4 => OpCode { code: 0xD4, mnemonic: Mnemonic::NOP, len: 2, cycles: 4, mode: AddressingMode::ZeroPageX },
        0xD5 => OpCode { code: 0xD5, mnemonic: Mnemonic::CMP, len: 2, cycles: 4, mode: AddressingMode::ZeroPageX },
        0xD6 => OpCode { code: 0xD6, mnemonic: Mnemonic::DEC, len: 2, cycles: 6, mode: AddressingMode::ZeroPageX },
        0xD7 => OpCode { code: 0xD7, mnemonic: Mnemonic::DCP, len: 2, cycles: 6, mode: AddressingMode::ZeroPageX },
        0xD8 => OpCode { code: 0xD8, mnemonic: Mnemonic::CLD, len: 1, cycles: 2, mode: AddressingMode::NoneAddressing },
        0xD9 => OpCode { code: 0xD9, mnemonic: Mnemonic::CMP, len: 3, cycles: 4, mode: AddressingMode::AbsoluteY },
        0xDA => OpCode { code: 0xDA, mnemonic: Mnemonic::NOP, len: 1, cycles: 2, mode: AddressingMode::Implied },
        0xDB => OpCode { code: 0xDB, mnemonic: Mnemonic::DCP, len: 3, cycles: 7, mode: AddressingMode::AbsoluteY },
        0xDC => OpCode { code: 0xDC, mnemonic: Mnemonic::NOP, len: 3, cycles: 4, mode: AddressingMode::AbsoluteX },
        0xDD => OpCode { code: 0xDD, mnemonic: Mnemonic::CMP, len: 3, cycles: 4, mode: AddressingMode::AbsoluteX },
        0xDE => OpCode { code: 0xDE, mnemonic: Mnemonic::DEC, len: 3, cycles: 7, mode: AddressingMode::AbsoluteX },
        0xDF => OpCode { code: 0xDF, mnemonic: Mnemonic::DCP, len: 3, cycles: 7, mode: AddressingMode::AbsoluteX },
        0xE0 => OpCode { code: 0xE0, mnemonic: Mnemonic::CPX, len: 2, cycles: 2, mode: AddressingMode::Immediate },
        0xE1 => OpCode { code: 0xE1, mnemonic: Mnemonic::SBC, len: 2, cycles: 6, mode: AddressingMode::IndirectX },
        0xE2 => OpCode { code: 0xE2, mnemonic: Mnemonic::NOP, len: 2, cycles: 2, mode: AddressingMode::Immediate },
        0xE3 => OpCode { code: 0xE3, mnemonic: Mnemonic::ISB, len: 2, cycles: 8, mode: AddressingMode::IndirectX },
        0xE4 => OpCode { code: 0xE4, mnemonic: Mnemonic::CPX, len: 2, cycles: 3, mode: AddressingMode::ZeroPage },
        0xE5 => OpCode { code: 0xE5, mnemonic: Mnemonic::SBC, len: 2, cycles: 3, mode: AddressingMode::ZeroPage },
        0xE6 => OpCode { code: 0xE6, mnemonic: Mnemonic::INC, len: 2, cycles: 5, mode: AddressingMode::ZeroPage },
        0xE7 => OpCode { code: 0xE7, mnemonic: Mnemonic::ISB, len: 2, cycles: 5, mode: AddressingMode::ZeroPage },
        0xE8 => OpCode { code: 0xE8, mnemonic: Mnemonic::INX, len: 1, cycles: 2, mode: AddressingMode::NoneAddressing },
        0xE9 => OpCode { code: 0xE9, mnemonic: Mnemonic::SBC, len: 2, cycles: 2, mode: AddressingMode::Immediate },
        0xEA => OpCode { code: 0xEA, mnemonic: Mnemonic::NOP, len: 1, cycles: 2, mode: AddressingMode::Implied },
        0xEB => OpCode { code: 0xEB, mnemonic: Mnemonic::SBC, len: 2, cycles: 2, mode: AddressingMode::Immediate },
        0xEC => OpCode { code: 0xEC, mnemonic: Mnemonic::CPX, len: 3, cycles: 4, mode: AddressingMode::Absolute },
        0xED => OpCode { code: 0xED, mnemonic: Mnemonic::SBC, len: 3, cycles: 4, mode: AddressingMode::Absolute },
        0xEE => OpCode { code: 0xEE, mnemonic: Mnemonic::INC, len: 3, cycles: 6, mode: AddressingMode::Absolute },
        0xEF => OpCode { code: 0xEF, mnemonic: Mnemonic::ISB, len: 3, cycles: 6, mode: AddressingMode::Absolute },
        0xF0 => OpCode { code: 0xF0, mnemonic: Mnemonic::BEQ, len: 2, cycles: 2, mode: AddressingMode::NoneAddressing },
        0xF1 => OpCode { code: 0xF1, mnemonic: Mnemonic::SBC, len: 2, cycles: 5, mode: AddressingMode::IndirectY },
        0xF2 => OpCode { code: 0xF2, mnemonic: Mnemonic::JAM, len: 1, cycles: 2, mode: AddressingMode::NoneAddressing },
        0xF3 => OpCode { code: 0xF3, mnemonic: Mnemonic::ISB, len: 2, cycles: 8, mode: AddressingMode::IndirectY },
        0xF4 => OpCode { code: 0xF4, mnemonic: Mnemonic::NOP, len: 2, cycles: 4, mode: AddressingMode::ZeroPageX },
        0xF5 => OpCode { code: 0xF5, mnemonic: Mnemonic::SBC, len: 2, cycles: 4, mode: AddressingMode::ZeroPageX },
        0xF6 => OpCode { code: 0xF6, mnemonic: Mnemonic::INC, len: 2, cycles: 6, mode: AddressingMode::ZeroPageX },
        0xF7 => OpCode { code: 0xF7, mnemonic: Mnemonic::ISB, len: 2, cycles: 6, mode: AddressingMode::ZeroPageX },
        0xF8 => OpCode { code: 0xF8, mnemonic: Mnemonic::SED, len: 1, cycles: 2, mode: AddressingMode::NoneAddressing },
        0xF9 => OpCode { code: 0xF9, mnemonic: Mnemonic::SBC, len: 3, cycles: 4, mode: AddressingMode::AbsoluteY },
        0xFA => OpCode { code: 0xFA, mnemonic: Mnemonic::NOP, len: 1, cycles: 2, mode: AddressingMode::Implied },
        0xFB => OpCode { code: 0xFB, mnemonic: Mnemonic::ISB, len: 3, cycles: 7, mode: AddressingMode::AbsoluteY },
        0xFC => OpCode { code: 0xFC, mnemonic: Mnemonic::NOP, len: 3, cycles: 4, mode: AddressingMode::AbsoluteX },
        0xFD => OpCode { code: 0xFD, mnemonic: Mnemonic::SBC, len: 3, cycles: 4, mode: AddressingMode::AbsoluteX },
        0xFE => OpCode { code: 0xFE, mnemonic: Mnemonic::INC, len: 3, cycles: 7, mode: AddressingMode::AbsoluteX },
        _ => OpCode { code: 0xFF, mnemonic: Mnemonic::ISB, len: 3, cycles: 7, mode: AddressingMode::AbsoluteX },
    }
}

/// What the dispatcher relies on about every table row: lengths and
/// cycle counts are in range, and instructions that resolve an operand
/// address carry a mode the address computation accepts.
pub open spec fn opcode_ok(op: OpCode) -> bool {
    &&& 1 <= op.len <= 3
    &&& 1 <= op.cycles <= 8
    &&& match op.mnemonic {
        Mnemonic::ASL | Mnemonic::LSR | Mnemonic::ROL | Mnemonic::ROR => op.mode is Accumulator
            || addr_mode_resolvable(op.mode),
        Mnemonic::ADC
        | Mnemonic::AND
        | Mnemonic::BIT
        | Mnemonic::CMP
        | Mnemonic::CPX
        | Mnemonic::CPY
        | Mnemonic::DEC
        | Mnemonic::EOR
        | Mnemonic::INC
        | Mnemonic::JMP
        | Mnemonic::JSR
        | Mnemonic::LDA
        | Mnemonic::LDX
        | Mnemonic::LDY
        | Mnemonic::NOP
        | Mnemonic::ORA
        | Mnemonic::SBC
        | Mnemonic::STA
        | Mnemonic::STX
        | Mnemonic::STY
        | Mnemonic::ALR
        | Mnemonic::ANC
        | Mnemonic::ARR
        | Mnemonic::AXS
        | Mnemonic::LAS
        | Mnemonic::LAX
        | Mnemonic::SAX
        | Mnemonic::DCP
        | Mnemonic::ISB
        | Mnemonic::SLO
        | Mnemonic::RLA
        | Mnemonic::SRE
        | Mnemonic::RRA
        | Mnemonic::SHX
        | Mnemonic::SHY
        | Mnemonic::XAA
        | Mnemonic::TAS
        | Mnemonic::AHX => addr_mode_resolvable(op.mode),
        _ => true,
    }
}

/// Look an opcode byte up in the table.
pub fn opcode_for(code: u8) -> (op: OpCode)
    ensures
        op == spec_opcode(code),
        opcode_ok(op),
{
    proof {
        reveal(spec_opcode);
    }
    match code {
        0x00 => OpCode { code: 0x00, mnemonic: Mnemonic::BRK, len: 1, cycles: 7, mode: AddressingMode::NoneAddressing },
        0x01 => OpCode { code: 0x01, mnemonic: Mnemonic::ORA, len: 2, cycles: 6, mode: AddressingMode::IndirectX },
        0x02 => OpCode { code: 0x02, mnemonic: Mnemonic::JAM, len: 1, cycles: 2, mode: AddressingMode::NoneAddressing },
        0x03 => OpCode { code: 0x03, mnemonic: Mnemonic::SLO, len: 2, cycles: 8, mode: AddressingMode::IndirectX },
        0x04 => OpCode { code: 0x04, mnemonic: Mnemonic::NOP, len: 2, cycles: 3, mode: AddressingMode::ZeroPage },
        0x05 => OpCode { code: 0x05, mnemonic: Mnemonic::ORA, len: 2, cycles: 3, mode: AddressingMode::ZeroPage },
        0x06 => OpCode { code: 0x06, mnemonic: Mnemonic::ASL, len: 2, cycles: 5, mode: AddressingMode::ZeroPage },
        0x07 => OpCode { code: 0x07, mnemonic: Mnemonic::SLO, len: 2, cycles: 5, mode: AddressingMode::ZeroPage },
        0x08 => OpCode { code: 0x08, mnemonic: Mnemonic::PHP, len: 1, cycles: 3, mode: AddressingMode::NoneAddressing },
        0x09 => OpCode { code: 0x09, mnemonic: Mnemonic::ORA, len: 2, cycles: 2, mode: AddressingMode::Immediate },
        0x0A => OpCode { code: 0x0A, mnemonic: Mnemonic::ASL, len: 1, cycles: 2, mode: AddressingMode::Accumulator },
        0x0B => OpCode { code: 0x0B, mnemonic: Mnemonic::ANC, len: 2, cycles: 2, mode: AddressingMode::Immediate },
        0x0C => OpCode { code: 0x0C, mnemonic: Mnemonic::NOP, len: 3, cycles: 4, mode: AddressingMode::Absolute },
        0x0D => OpCode { code: 0x0D, mnemonic: Mnemonic::ORA, len: 3, cycles: 4, mode: AddressingMode::Absolute },
        0x0E => OpCode { code: 0x0E, mnemonic: Mnemonic::ASL, len: 3, cycles: 6, mode: AddressingMode::Absolute },
        0x0F => OpCode { code: 0x0F, mnemonic: Mnemonic::SLO, len: 3, cycles: 6, mode: AddressingMode::Absolute },
        0x10 => OpCode { code: 0x10, mnemonic: Mnemonic::BPL, len: 2, cycles: 2, mode: AddressingMode::NoneAddressing },
        0x11 => OpCode { code: 0x11, mnemonic: Mnemonic::ORA, len: 2, cycles: 5, mode: AddressingMode::IndirectY },
        0x12 => OpCode { code: 0x12, mnemonic: Mnemonic::JAM, len: 1, cycles: 2, mode: AddressingMode::NoneAddressing },
        0x13 => OpCode { code: 0x13, mnemonic: Mnemonic::SLO, len: 2, cycles: 8, mode: AddressingMode::IndirectY },
        0x14 => OpCode { code: 0x14, mnemonic: Mnemonic::NOP, len: 2, cycles: 4, mode: AddressingMode::ZeroPageX },
        0x15 => OpCode { code: 0x15, mnemonic: Mnemonic::ORA, len: 2, cycles: 4, mode: AddressingMode::ZeroPageX },
        0x16 => OpCode { code: 0x16, mnemonic: Mnemonic::ASL, len: 2, cycles: 6, mode: AddressingMode::ZeroPageX },
        0x17 => OpCode { code: 0x17, mnemonic: Mnemonic::SLO, len: 2, cycles: 6, mode: AddressingMode::ZeroPageX },
        0x18 => OpCode { code: 0x18, mnemonic: Mnemonic::CLC, len: 1, cycles: 2, mode: AddressingMode::NoneAddressing },
        0x19 => OpCode { code: 0x19, mnemonic: Mnemonic::ORA, len: 3, cycles: 4, mode: AddressingMode::AbsoluteY },
        0x1A => OpCode { code: 0x1A, mnemonic: Mnemonic::NOP, len: 1, cycles: 2, mode: AddressingMode::Implied },
        0x1B => OpCode { code: 0x1B, mnemonic: Mnemonic::SLO, len: 3, cycles: 7, mode: AddressingMode::AbsoluteY },
        0x1C => OpCode { code: 0x1C, mnemonic: Mnemonic::NOP, len: 3, cycles: 4, mode: AddressingMode::AbsoluteX },
        0x1D => OpCode { code: 0x1D, mnemonic: Mnemonic::ORA, len: 3, cycles: 4, mode: AddressingMode::AbsoluteX },
        0x1E => OpCode { code: 0x1E, mnemonic: Mnemonic::ASL, len: 3, cycles: 7, mode: AddressingMode::AbsoluteX },
        0x1F => OpCode { code: 0x1F, mnemonic: Mnemonic::SLO, len: 3, cycles: 7, mode: AddressingMode::AbsoluteX },
        0x20 => OpCode { code: 0x20, mnemonic: Mnemonic::JSR, len: 3, cycles: 6, mode: AddressingMode::Absolute },
        0x21 => OpCode { code: 0x21, mnemonic: Mnemonic::AND, len: 2, cycles: 6, mode: AddressingMode::IndirectX },
        0x22 => OpCode { code: 0x22, mnemonic: Mnemonic::JAM, len: 1, cycles: 2, mode: AddressingMode::NoneAddressing },
        0x23 => OpCode { code: 0x23, mnemonic: Mnemonic::RLA, len: 2, cycles: 8, mode: AddressingMode::IndirectX },
        0x24 => OpCode { code: 0x24, mnemonic: Mnemonic::BIT, len: 2, cycles: 3, mode: AddressingMode::ZeroPage },
        0x25 => OpCode { code: 0x25, mnemonic: Mnemonic::AND, len: 2, cycles: 3, mode: AddressingMode::ZeroPage },
        0x26 => OpCode { code: 0x26, mnemonic: Mnemonic::ROL, len: 2, cycles: 5, mode: AddressingMode::ZeroPage },
        0x27 => OpCode { code: 0x27, mnemonic: Mnemonic::RLA, len: 2, cycles: 5, mode: AddressingMode::ZeroPage },
        0x28 => OpCode { code: 0x28, mnemonic: Mnemonic::PLP, len: 1, cycles: 4, mode: AddressingMode::NoneAddressing },
        0x29 => OpCode { code: 0x29, mnemonic: Mnemonic::AND, len: 2, cycles: 2, mode: AddressingMode::Immediate },
        0x2A => OpCode { code: 0x2A, mnemonic: Mnemonic::ROL, len: 1, cycles: 2, mode: AddressingMode::Accumulator },
        0x2B => OpCode { code: 0x2B, mnemonic: Mnemonic::ANC, len: 2, cycles: 2, mode: AddressingMode::Immediate },
        0x2C => OpCode { code: 0x2C, mnemonic: Mnemonic::BIT, len: 3, cycles: 4, mode: AddressingMode::Absolute },
        0x2D => OpCode { code: 0x2D, mnemonic: Mnemonic::AND, len: 3, cycles: 4, mode: AddressingMode::Absolute },
        0x2E => OpCode { code: 0x2E, mnemonic: Mnemonic::ROL, len: 3, cycles: 6, mode: AddressingMode::Absolute },
        0x2F => OpCode { code: 0x2F, mnemonic: Mnemonic::RLA, len: 3, cycles: 6, mode: AddressingMode::Absolute },
        0x30 => OpCode { code: 0x30, mnemonic: Mnemonic::BMI, len: 2, cycles: 2, mode: AddressingMode::NoneAddressing },
        0x31 => OpCode { code: 0x31, mnemonic: Mnemonic::AND, len: 2, cycles: 5, mode: AddressingMode::IndirectY },
        0x32 => OpCode { code: 0x32, mnemonic: Mnemonic::JAM, len: 1, cycles: 2, mode: AddressingMode::NoneAddressing },
        0x33 => OpCode { code: 0x33, mnemonic: Mnemonic::RLA, len: 2, cycles: 8, mode: AddressingMode::IndirectY },
        0x34 => OpCode { code: 0x34, mnemonic: Mnemonic::NOP, len: 2, cycles: 4, mode: AddressingMode::ZeroPageX },
        0x35 => OpCode { code: 0x35, mnemonic: Mnemonic::AND, len: 2, cycles: 4, mode: AddressingMode::ZeroPageX },
        0x36 => OpCode { code: 0x36, mnemonic: Mnemonic::ROL, len: 2, cycles: 6, mode: AddressingMode::ZeroPageX },
        0x37 => OpCode { code: 0x37, mnemonic: Mnemonic::RLA, len: 2, cycles: 6, mode: AddressingMode::ZeroPageX },
        0x38 => OpCode { code: 0x38, mnemonic: Mnemonic::SEC, len: 1, cycles: 2, mode: AddressingMode::NoneAddressing },
        0x39 => OpCode { code: 0x39, mnemonic: Mnemonic::AND, len: 3, cycles: 4, mode: AddressingMode::AbsoluteY },
        0x3A => OpCode { code: 0x3A, mnemonic: Mnemonic::NOP, len: 1, cycles: 2, mode: AddressingMode::Implied },
        0x3B => OpCode { code: 0x3B, mnemonic: Mnemonic::RLA, len: 3, cycles: 7, mode: AddressingMode::AbsoluteY },
        0x3C => OpCode { code: 0x3C, mnemonic: Mnemonic::NOP, len: 3, cycles: 4, mode: AddressingMode::AbsoluteX },
        0x3D => OpCode { code: 0x3D, mnemonic: Mnemonic::AND, len: 3, cycles: 4, mode: AddressingMode::AbsoluteX },
        0x3E => OpCode { code: 0x3E, mnemonic: Mnemonic::ROL, len: 3, cycles: 7, mode: AddressingMode::AbsoluteX },
        0x3F => OpCode { code: 0x3F, mnemonic: Mnemonic::RLA, len: 3, cycles: 7, mode: AddressingMode::AbsoluteX },
        0x40 => OpCode { code: 0x40, mnemonic: Mnemonic::RTI, len: 1, cycles: 6, mode: AddressingMode::NoneAddressing },
        0x41 => OpCode { code: 0x41, mnemonic: Mnemonic::EOR, len: 2, cycles: 6, mode: AddressingMode::IndirectX },
        0x42 => OpCode { code: 0x42, mnemonic: Mnemonic::JAM, len: 1, cycles: 2, mode: AddressingMode::NoneAddressing },
        0x43 => OpCode { code: 0x43, mnemonic: Mnemonic::SRE, len: 2, cycles: 8, mode: AddressingMode::IndirectX },
        0x44 => OpCode { code: 0x44, mnemonic: Mnemonic::NOP, len: 2, cycles: 3, mode: AddressingMode::ZeroPage },
        0x45 => OpCode { code: 0x45, mnemonic: Mnemonic::EOR, len: 2, cycles: 3, mode: AddressingMode::ZeroPage },
        0x46 => OpCode { code: 0x46, mnemonic: Mnemonic::LSR, len: 2, cycles: 5, mode: AddressingMode::ZeroPage },
        0x47 => OpCode { code: 0x47, mnemonic: Mnemonic::SRE, len: 2, cycles: 5, mode: AddressingMode::ZeroPage },
        0x48 => OpCode { code: 0x48, mnemonic: Mnemonic::PHA, len: 1, cycles: 3, mode: AddressingMode::NoneAddressing },
        0x49 => OpCode { code: 0x49, mnemonic: Mnemonic::EOR, len: 2, cycles: 2, mode: AddressingMode::Immediate },
        0x4A => OpCode { code: 0x4A, mnemonic: Mnemonic::LSR, len: 1, cycles: 2, mode: AddressingMode::Accumulator },
        0x4B => OpCode { code: 0x4B, mnemonic: Mnemonic::ALR, len: 2, cycles: 2, mode: AddressingMode::Immediate },
        0x4C => OpCode { code: 0x4C, mnemonic: Mnemonic::JMP, len: 3, cycles: 3, mode: AddressingMode::Absolute },
        0x4D => OpCode { code: 0x4D, mnemonic: Mnemonic::EOR, len: 3, cycles: 4, mode: AddressingMode::Absolute },
        0x4E => OpCode { code: 0x4E, mnemonic: Mnemonic::LSR, len: 3, cycles: 6, mode: AddressingMode::Absolute },
        0x4F => OpCode { code: 0x4F, mnemonic: Mnemonic::SRE, len: 3, cycles: 6, mode: AddressingMode::Absolute },
        0x50 => OpCode { code: 0x50, mnemonic: Mnemonic::BVC, len: 2, cycles: 2, mode: AddressingMode::NoneAddressing },
        0x51 => OpCode { code: 0x51, mnemonic: Mnemonic::EOR, len: 2, cycles: 5, mode: AddressingMode::IndirectY },
        0x52 => OpCode { code: 0x52, mnemonic: Mnemonic::JAM, len: 1, cycles: 2, mode: AddressingMode::NoneAddressing },
        0x53 => OpCode { code: 0x53, mnemonic: Mnemonic::SRE, len: 2, cycles: 8, mode: AddressingMode::IndirectY },
        0x54 => OpCode { code: 0x54, mnemonic: Mnemonic::NOP, len: 2, cycles: 4, mode: AddressingMode::ZeroPageX },
        0x55 => OpCode { code: 0x55, mnemonic: Mnemonic::EOR, len: 2, cycles: 4, mode: AddressingMode::ZeroPageX },
        0x56 => OpCode { code: 0x56, mnemonic: Mnemonic::LSR, len: 2, cycles: 6, mode: AddressingMode::ZeroPageX },
        0x57 => OpCode { code: 0x57, mnemonic: Mnemonic::SRE, len: 2, cycles: 6, mode: AddressingMode::ZeroPageX },
        0x58 => OpCode { code: 0x58, mnemonic: Mnemonic::CLI, len: 1, cycles: 2, mode: AddressingMode::NoneAddressing },
        0x59 => OpCode { code: 0x59, mnemonic: Mnemonic::EOR, len: 3, cycles: 4, mode: AddressingMode::AbsoluteY },
        0x5A => OpCode { code: 0x5A, mnemonic: Mnemonic::NOP, len: 1, cycles: 2, mode: AddressingMode::Implied },
        0x5B => OpCode { code: 0x5B, mnemonic: Mnemonic::SRE, len: 3, cycles: 7, mode: AddressingMode::AbsoluteY },
        0x5C => OpCode { code: 0x5C, mnemonic: Mnemonic::NOP, len: 3, cycles: 4, mode: AddressingMode::AbsoluteX },
        0x5D => OpCode { code: 0x5D, mnemonic: Mnemonic::EOR, len: 3, cycles: 4, mode: AddressingMode::AbsoluteX },
        0x5E => OpCode { code: 0x5E, mnemonic: Mnemonic::LSR, len: 3, cycles: 7, mode: AddressingMode::AbsoluteX },
        0x5F => OpCode { code: 0x5F, mnemonic: Mnemonic::SRE, len: 3, cycles: 7, mode: AddressingMode::AbsoluteX },
        0x60 => OpCode { code: 0x60, mnemonic: Mnemonic::RTS, len: 1, cycles: 6, mode: AddressingMode::NoneAddressing },
        0x61 => OpCode { code: 0x61, mnemonic: Mnemonic::ADC, len: 2, cycles: 6, mode: AddressingMode::IndirectX },
        0x62 => OpCode { code: 0x62, mnemonic: Mnemonic::JAM, len: 1, cycles: 2, mode: AddressingMode::NoneAddressing },
        0x63 => OpCode { code: 0x63, mnemonic: Mnemonic::RRA, len: 2, cycles: 8, mode: AddressingMode::IndirectX },
        0x64 => OpCode { code: 0x64, mnemonic: Mnemonic::NOP, len: 2, cycles: 3, mode: AddressingMode::ZeroPage },
        0x65 => OpCode { code: 0x65, mnemonic: Mnemonic::ADC, len: 2, cycles: 3, mode: AddressingMode::ZeroPage },
        0x66 => OpCode { code: 0x66, mnemonic: Mnemonic::ROR, len: 2, cycles: 5, mode: AddressingMode::ZeroPage },
        0x67 => OpCode { code: 0x67, mnemonic: Mnemonic::RRA, len: 2, cycles: 5, mode: AddressingMode::ZeroPage },
        0x68 => OpCode { code: 0x68, mnemonic: Mnemonic::PLA, len: 1, cycles: 4, mode: AddressingMode::NoneAddressing },
        0x69 => OpCode { code: 0x69, mnemonic: Mnemonic::ADC, len: 2, cycles: 2, mode: AddressingMode::Immediate },
        0x6A => OpCode { code: 0x6A, mnemonic: Mnemonic::ROR, len: 1, cycles: 2, mode: AddressingMode::Accumulator },
        0x6B => OpCode { code: 0x6B, mnemonic: Mnemonic::ARR, len: 2, cycles: 2, mode: AddressingMode::Immediate },
        0x6C => OpCode { code: 0x6C, mnemonic: Mnemonic::JMP, len: 3, cycles: 5, mode: AddressingMode::Indirect },
        0x6D => OpCode { code: 0x6D, mnemonic: Mnemonic::ADC, len: 3, cycles: 4, mode: AddressingMode::Absolute },
        0x6E => OpCode { code: 0x6E, mnemonic: Mnemonic::ROR, len: 3, cycles: 6, mode: AddressingMode::Absolute },
        0x6F => OpCode { code: 0x6F, mnemonic: Mnemonic::RRA, len: 3, cycles: 6, mode: AddressingMode::Absolute },
        0x70 => OpCode { code: 0x70, mnemonic: Mnemonic::BVS, len: 2, cycles: 2, mode: AddressingMode::NoneAddressing },
        0x71 => OpCode { code: 0x71, mnemonic: Mnemonic::ADC, len: 2, cycles: 5, mode: AddressingMode::IndirectY },
        0x72 => OpCode { code: 0x72, mnemonic: Mnemonic::JAM, len: 1, cycles: 2, mode: AddressingMode::NoneAddressing },
        0x73 => OpCode { code: 0x73, mnemonic: Mnemonic::RRA, len: 2, cycles: 8, mode: AddressingMode::IndirectY },
        0x74 => OpCode { code: 0x74, mnemonic: Mnemonic::NOP, len: 2, cycles: 4, mode: AddressingMode::ZeroPageX },
        0x75 => OpCode { code: 0x75, mnemonic: Mnemonic::ADC, len: 2, cycles: 4, mode: AddressingMode::ZeroPageX },
        0x76 => OpCode { code: 0x76, mnemonic: Mnemonic::ROR, len: 2, cycles: 6, mode: AddressingMode::ZeroPageX },
        0x77 => OpCode { code: 0x77, mnemonic: Mnemonic::RRA, len: 2, cycles: 6, mode: AddressingMode::ZeroPageX },
        0x78 => OpCode { code: 0x78, mnemonic: Mnemonic::SEI, len: 1, cycles: 2, mode: AddressingMode::NoneAddressing },
        0x79 => OpCode { code: 0x79, mnemonic: Mnemonic::ADC, len: 3, cycles: 4, mode: AddressingMode::AbsoluteY },
        0x7A => OpCode { code: 0x7A, mnemonic: Mnemonic::NOP, len: 1, cycles: 2, mode: AddressingMode::Implied },
        0x7B => OpCode { code: 0x7B, mnemonic: Mnemonic::RRA, len: 3, cycles: 7, mode: AddressingMode::AbsoluteY },
        0x7C => OpCode { code: 0x7C, mnemonic: Mnemonic::NOP, len: 3, cycles: 4, mode: AddressingMode::AbsoluteX },
        0x7D => OpCode { code: 0x7D, mnemonic: Mnemonic::ADC, len: 3, cycles: 4, mode: AddressingMode::AbsoluteX },
        0x7E => OpCode { code: 0x7E, mnemonic: Mnemonic::ROR, len: 3, cycles: 7, mode: AddressingMode::AbsoluteX },
        0x7F => OpCode { code: 0x7F, mnemonic: Mnemonic::RRA, len: 3, cycles: 7, mode: AddressingMode::AbsoluteX },
        0x80 => OpCode { code: 0x80, mnemonic: Mnemonic::NOP, len: 2, cycles: 2, mode: AddressingMode::Immediate },
        0x81 => OpCode { code: 0x81, mnemonic: Mnemonic::STA, len: 2, cycles: 6, mode: AddressingMode::IndirectX },
        0x82 => OpCode { code: 0x82, mnemonic: Mnemonic::NOP, len: 2, cycles: 2, mode: AddressingMode::Immediate },
        0x83 => OpCode { code: 0x83, mnemonic: Mnemonic::SAX, len: 2, cycles: 6, mode: AddressingMode::IndirectX },
        0x84 => OpCode { code: 0x84, mnemonic: Mnemonic::STY, len: 2, cycles: 3, mode: AddressingMode::ZeroPage },
        0x85 => OpCode { code: 0x85, mnemonic: Mnemonic::STA, len: 2, cycles: 3, mode: AddressingMode::ZeroPage },
        0x86 => OpCode { code: 0x86, mnemonic: Mnemonic::STX, len: 2, cycles: 3, mode: AddressingMode::ZeroPage },
        0x87 => OpCode { code: 0x87, mnemonic: Mnemonic::SAX, len: 2, cycles: 3, mode: AddressingMode::ZeroPage },
        0x88 => OpCode { code: 0x88, mnemonic: Mnemonic::DEY, len: 1, cycles: 2, mode: AddressingMode::NoneAddressing },
        0x89 => OpCode { code: 0x89, mnemonic: Mnemonic::NOP, len: 2, cycles: 2, mode: AddressingMode::Immediate },
        0x8A => OpCode { code: 0x8A, mnemonic: Mnemonic::TXA, len: 1, cycles: 2, mode: AddressingMode::NoneAddressing },
        0x8B => OpCode { code: 0x8B, mnemonic: Mnemonic::XAA, len: 2, cycles: 3, mode: AddressingMode::Immediate },
        0x8C => OpCode { code: 0x8C, mnemonic: Mnemonic::STY, len: 3, cycles: 4, mode: AddressingMode::Absolute },
        0x8D => OpCode { code: 0x8D, mnemonic: Mnemonic::STA, len: 3, cycles: 4, mode: AddressingMode::Absolute },
        0x8E => OpCode { code: 0x8E, mnemonic: Mnemonic::STX, len: 3, cycles: 4, mode: AddressingMode::Absolute },
        0x8F => OpCode { code: 0x8F, mnemonic: Mnemonic::SAX, len: 3, cycles: 4, mode: AddressingMode::Absolute },
        0x90 => OpCode { code: 0x90, mnemonic: Mnemonic::BCC, len: 2, cycles: 2, mode: AddressingMode::NoneAddressing },
        0x91 => OpCode { code: 0x91, mnemonic: Mnemonic::STA, len: 2, cycles: 6, mode: AddressingMode::IndirectY },
        0x92 => OpCode { code: 0x92, mnemonic: Mnemonic::JAM, len: 1, cycles: 2, mode: AddressingMode::NoneAddressing },
        0x93 => OpCode { code: 0x93, mnemonic: Mnemonic::AHX, len: 2, cycles: 8, mode: AddressingMode::IndirectY },
        0x94 => OpCode { code: 0x94, mnemonic: Mnemonic::STY, len: 2, cycles: 4, mode: AddressingMode::ZeroPageX },
        0x95 => OpCode { code: 0x95, mnemonic: Mnemonic::STA, len: 2, cycles: 4, mode: AddressingMode::ZeroPageX },
        0x96 => OpCode { code: 0x96, mnemonic: Mnemonic::STX, len: 2, cycles: 4, mode: AddressingMode::ZeroPageY },
        0x97 => OpCode { code: 0x97, mnemonic: Mnemonic::SAX, len: 2, cycles: 4, mode: AddressingMode::ZeroPageY },
        0x98 => OpCode { code: 0x98, mnemonic: Mnemonic::TYA, len: 1, cycles: 2, mode: AddressingMode::NoneAddressing },
        0x99 => OpCode { code: 0x99, mnemonic: Mnemonic::STA, len: 3, cycles: 5, mode: AddressingMode::AbsoluteY },
        0x9A => OpCode { code: 0x9A, mnemonic: Mnemonic::TXS, len: 1, cycles: 2, mode: AddressingMode::NoneAddressing },
        0x9B => OpCode { code: 0x9B, mnemonic: Mnemonic::TAS, len: 3, cycles: 2, mode: AddressingMode::AbsoluteY },
        0x9C => OpCode { code: 0x9C, mnemonic: Mnemonic::SHY, len: 3, cycles: 4, mode: AddressingMode::AbsoluteX },
        0x9D => OpCode { code: 0x9D, mnemonic: Mnemonic::STA, len: 3, cycles: 5, mode: AddressingMode::AbsoluteX },
        0x9E => OpCode { code: 0x9E, mnemonic: Mnemonic::SHX, len: 3, cycles: 4, mode: AddressingMode::AbsoluteY },
        0x9F => OpCode { code: 0x9F, mnemonic: Mnemonic::AHX, len: 3, cycles: 4, mode: AddressingMode::AbsoluteY },
        0xA0 => OpCode { code: 0xA0, mnemonic: Mnemonic::LDY, len: 2, cycles: 2, mode: AddressingMode::Immediate },
        0xA1 => OpCode { code: 0xA1, mnemonic: Mnemonic::LDA, len: 2, cycles: 6, mode: AddressingMode::IndirectX },
        0xA2 => OpCode { code: 0xA2, mnemonic: Mnemonic::LDX, len: 2, cycles: 2, mode: AddressingMode::Immediate },
        0xA3 => OpCode { code: 0xA3, mnemonic: Mnemonic::LAX, len: 2, cycles: 6, mode: AddressingMode::IndirectX },
        0xA4 => OpCode { code: 0xA4, mnemonic: Mnemonic::LDY, len: 2, cycles: 3, mode: AddressingMode::ZeroPage },
        0xA5 => OpCode { code: 0xA5, mnemonic: Mnemonic::LDA, len: 2, cycles: 3, mode: AddressingMode::ZeroPage },
        0xA6 => OpCode { code: 0xA6, mnemonic: Mnemonic::LDX, len: 2, cycles: 3, mode: AddressingMode::ZeroPage },
        0xA7 => OpCode { code: 0xA7, mnemonic: Mnemonic::LAX, len: 2, cycles: 3, mode: AddressingMode::ZeroPage },
        0xA8 => OpCode { code: 0xA8, mnemonic: Mnemonic::TAY, len: 1, cycles: 2, mode: AddressingMode::NoneAddressing },
        0xA9 => OpCode { code: 0xA9, mnemonic: Mnemonic::LDA, len: 2, cycles: 2, mode: AddressingMode::Immediate },
        0xAA => OpCode { code: 0xAA, mnemonic: Mnemonic::TAX, len: 1, cycles: 2, mode: AddressingMode::NoneAddressing },
        0xAB => OpCode { code: 0xAB, mnemonic: Mnemonic::LAX, len: 2, cycles: 3, mode: AddressingMode::Immediate },
        0xAC => OpCode { code: 0xAC, mnemonic: Mnemonic::LDY, len: 3, cycles: 4, mode: AddressingMode::Absolute },
        0xAD => OpCode { code: 0xAD, mnemonic: Mnemonic::LDA, len: 3, cycles: 4, mode: AddressingMode::Absolute },
        0xAE => OpCode { code: 0xAE, mnemonic: Mnemonic::LDX, len: 3, cycles: 4, mode: AddressingMode::Absolute },
        0xAF => OpCode { code: 0xAF, mnemonic: Mnemonic::LAX, len: 3, cycles: 4, mode: AddressingMode::Absolute },
        0xB0 => OpCode { code: 0xB0, mnemonic: Mnemonic::BCS, len: 2, cycles: 2, mode: AddressingMode::NoneAddressing },
        0xB1 => OpCode { code: 0xB1, mnemonic: Mnemonic::LDA, len: 2, cycles: 5, mode: AddressingMode::IndirectY },
        0xB2 => OpCode { code: 0xB2, mnemonic: Mnemonic::JAM, len: 1, cycles: 2, mode: AddressingMode::NoneAddressing },
        0xB3 => OpCode { code: 0xB3, mnemonic: Mnemonic::LAX, len: 2, cycles: 5, mode: AddressingMode::IndirectY },
        0xB4 => OpCode { code: 0xB4, mnemonic: Mnemonic::LDY, len: 2, cycles: 4, mode: AddressingMode::ZeroPageX },
        0xB5 => OpCode { code: 0xB5, mnemonic: Mnemonic::LDA, len: 2, cycles: 4, mode: AddressingMode::ZeroPageX },
        0xB6 => OpCode { code: 0xB6, mnemonic: Mnemonic::LDX, len: 2, cycles: 4, mode: AddressingMode::ZeroPageY },
        0xB7 => OpCode { code: 0xB7, mnemonic: Mnemonic::LAX, len: 2, cycles: 4, mode: AddressingMode::ZeroPageY },
        0xB8 => OpCode { code: 0xB8, mnemonic: Mnemonic::CLV, len: 1, cycles: 2, mode: AddressingMode::NoneAddressing },
        0xB9 => OpCode { code: 0xB9, mnemonic: Mnemonic::LDA, len: 3, cycles: 4, mode: AddressingMode::AbsoluteY },
        0xBA => OpCode { code: 0xBA, mnemonic: Mnemonic::TSX, len: 1, cycles: 2, mode: AddressingMode::NoneAddressing },
        0xBB => OpCode { code: 0xBB, mnemonic: Mnemonic::LAS, len: 3, cycles: 2, mode: AddressingMode::AbsoluteY },
        0xBC => OpCode { code: 0xBC, mnemonic: Mnemonic::LDY, len: 3, cycles: 4, mode: AddressingMode::AbsoluteX },
        0xBD => OpCode { code: 0xBD, mnemonic: Mnemonic::LDA, len: 3, cycles: 4, mode: AddressingMode::AbsoluteX },
        0xBE => OpCode { code: 0xBE, mnemonic: Mnemonic::LDX, len: 3, cycles: 4, mode: AddressingMode::AbsoluteY },
        0xBF => OpCode { code: 0xBF, mnemonic: Mnemonic::LAX, len: 3, cycles: 4, mode: AddressingMode::AbsoluteY },
        0xC0 => OpCode { code: 0xC0, mnemonic: Mnemonic::CPY, len: 2, cycles: 2, mode: AddressingMode::Immediate },
        0xC1 => OpCode { code: 0xC1, mnemonic: Mnemonic::CMP, len: 2, cycles: 6, mode: AddressingMode::IndirectX },
        0xC2 => OpCode { code: 0xC2, mnemonic: Mnemonic::NOP, len: 2, cycles: 2, mode: AddressingMode::Immediate },
        0xC3 => OpCode { code: 0xC3, mnemonic: Mnemonic::DCP, len: 2, cycles: 8, mode: AddressingMode::IndirectX },
        0xC4 => OpCode { code: 0xC4, mnemonic: Mnemonic::CPY, len: 2, cycles: 3, mode: AddressingMode::ZeroPage },
        0xC5 => OpCode { code: 0xC5, mnemonic: Mnemonic::CMP, len: 2, cycles: 3, mode: AddressingMode::ZeroPage },
        0xC6 => OpCode { code: 0xC6, mnemonic: Mnemonic::DEC, len: 2, cycles: 5, mode: AddressingMode::ZeroPage },
        0xC7 => OpCode { code: 0xC7, mnemonic: Mnemonic::DCP, len: 2, cycles: 5, mode: AddressingMode::ZeroPage },
        0xC8 => OpCode { code: 0xC8, mnemonic: Mnemonic::INY, len: 1, cycles: 2, mode: AddressingMode::NoneAddressing },
        0xC9 => OpCode { code: 0xC9, mnemonic: Mnemonic::CMP, len: 2, cycles: 2, mode: AddressingMode::Immediate },
        0xCA => OpCode { code: 0xCA, mnemonic: Mnemonic::DEX, len: 1, cycles: 2, mode: AddressingMode::NoneAddressing },
        0xCB => OpCode { code: 0xCB, mnemonic: Mnemonic::AXS, len: 2, cycles: 2, mode: AddressingMode::Immediate },
        0xCC => OpCode { code: 0xCC, mnemonic: Mnemonic::CPY, len: 3, cycles: 4, mode: AddressingMode::Absolute },
        0xCD => OpCode { code: 0xCD, mnemonic: Mnemonic::CMP, len: 3, cycles: 4, mode: AddressingMode::Absolute },
        0xCE => OpCode { code: 0xCE, mnemonic: Mnemonic::DEC, len: 3, cycles: 6, mode: AddressingMode::Absolute },
        0xCF => OpCode { code: 0xCF, mnemonic: Mnemonic::DCP, len: 3, cycles: 6, mode: AddressingMode::Absolute },
        0xD0 => OpCode { code: 0xD0, mnemonic: Mnemonic::BNE, len: 2, cycles: 2, mode: AddressingMode::NoneAddressing },
        0xD1 => OpCode { code: 0xD1, mnemonic: Mnemonic::CMP, len: 2, cycles: 5, mode: AddressingMode::IndirectY },
        0xD2 => OpCode { code: 0xD2, mnemonic: Mnemonic::JAM, len: 1, cycles: 2, mode: AddressingMode::NoneAddressing },
        0xD3 => OpCode { code: 0xD3, mnemonic: Mnemonic::DCP, len: 2, cycles: 8, mode: AddressingMode::IndirectY },
        0xD4 => OpCode { code: 0xD4, mnemonic: Mnemonic::NOP, len: 2, cycles: 4, mode: AddressingMode::ZeroPageX },
        0xD5 => OpCode { code: 0xD5, mnemonic: Mnemonic::CMP, len: 2, cycles: 4, mode: AddressingMode::ZeroPageX },
        0xD6 => OpCode { code: 0xD6, mnemonic: Mnemonic::DEC, len: 2, cycles: 6, mode: AddressingMode::ZeroPageX },
        0xD7 => OpCode { code: 0xD7, mnemonic: Mnemonic::DCP, len: 2, cycles: 6, mode: AddressingMode::ZeroPageX },
        0xD8 => OpCode { code: 0xD8, mnemonic: Mnemonic::CLD, len: 1, cycles: 2, mode: AddressingMode::NoneAddressing },
        0xD9 => OpCode { code: 0xD9, mnemonic: Mnemonic::CMP, len: 3, cycles: 4, mode: AddressingMode::AbsoluteY },
        0xDA => OpCode { code: 0xDA, mnemonic: Mnemonic::NOP, len: 1, cycles: 2, mode: AddressingMode::Implied },
        0xDB => OpCode { code: 0xDB, mnemonic: Mnemonic::DCP, len: 3, cycles: 7, mode: AddressingMode::AbsoluteY },
        0xDC => OpCode { code: 0xDC, mnemonic: Mnemonic::NOP, len: 3, cycles: 4, mode: AddressingMode::AbsoluteX },
        0xDD => OpCode { code: 0xDD, mnemonic: Mnemonic::CMP, len: 3, cycles: 4, mode: AddressingMode::AbsoluteX },
        0xDE => OpCode { code: 0xDE, mnemonic: Mnemonic::DEC, len: 3, cycles: 7, mode: AddressingMode::AbsoluteX },
        0xDF => OpCode { code: 0xDF, mnemonic: Mnemonic::DCP, len: 3, cycles: 7, mode: AddressingMode::AbsoluteX },
        0xE0 => OpCode { code: 0xE0, mnemonic: Mnemonic::CPX, len: 2, cycles: 2, mode: AddressingMode::Immediate },
        0xE1 => OpCode { code: 0xE1, mnemonic: Mnemonic::SBC, len: 2, cycles: 6, mode: AddressingMode::IndirectX },
        0xE2 => OpCode { code: 0xE2, mnemonic: Mnemonic::NOP, len: 2, cycles: 2, mode: AddressingMode::Immediate },
        0xE3 => OpCode { code: 0xE3, mnemonic: Mnemonic::ISB, len: 2, cycles: 8, mode: AddressingMode::IndirectX },
        0xE4 => OpCode { code: 0xE4, mnemonic: Mnemonic::CPX, len: 2, cycles: 3, mode: AddressingMode::ZeroPage },
        0xE5 => OpCode { code: 0xE5, mnemonic: Mnemonic::SBC, len: 2, cycles: 3, mode: AddressingMode::ZeroPage },
        0xE6 => OpCode { code: 0xE6, mnemonic: Mnemonic::INC, len: 2, cycles: 5, mode: AddressingMode::ZeroPage },
        0xE7 => OpCode { code: 0xE7, mnemonic: Mnemonic::ISB, len: 2, cycles: 5, mode: AddressingMode::ZeroPage },
        0xE8 => OpCode { code: 0xE8, mnemonic: Mnemonic::INX, len: 1, cycles: 2, mode: AddressingMode::NoneAddressing },
        0xE9 => OpCode { code: 0xE9, mnemonic: Mnemonic::SBC, len: 2, cycles: 2, mode: AddressingMode::Immediate },
        0xEA => OpCode { code: 0xEA, mnemonic: Mnemonic::NOP, len: 1, cycles: 2, mode: AddressingMode::Implied },
        0xEB => OpCode { code: 0xEB, mnemonic: Mnemonic::SBC, len: 2, cycles: 2, mode: AddressingMode::Immediate },
        0xEC => OpCode { code: 0xEC, mnemonic: Mnemonic::CPX, len: 3, cycles: 4, mode: AddressingMode::Absolute },
        0xED => OpCode { code: 0xED, mnemonic: Mnemonic::SBC, len: 3, cycles: 4, mode: AddressingMode::Absolute },
        0xEE => OpCode { code: 0xEE, mnemonic: Mnemonic::INC, len: 3, cycles: 6, mode: AddressingMode::Absolute },
        0xEF => OpCode { code: 0xEF, mnemonic: Mnemonic::ISB, len: 3, cycles: 6, mode: AddressingMode::Absolute },
        0xF0 => OpCode { code: 0xF0, mnemonic: Mnemonic::BEQ, len: 2, cycles: 2, mode: AddressingMode::NoneAddressing },
        0xF1 => OpCode { code: 0xF1, mnemonic: Mnemonic::SBC, len: 2, cycles: 5, mode: AddressingMode::IndirectY },
        0xF2 => OpCode { code: 0xF2, mnemonic: Mnemonic::JAM, len: 1, cycles: 2, mode: AddressingMode::NoneAddressing },
        0xF3 => OpCode { code: 0xF3, mnemonic: Mnemonic::ISB, len: 2, cycles: 8, mode: AddressingMode::IndirectY },
        0xF4 => OpCode { code: 0xF4, mnemonic: Mnemonic::NOP, len: 2, cycles: 4, mode: AddressingMode::ZeroPageX },
        0xF5 => OpCode { code: 0xF5, mnemonic: Mnemonic::SBC, len: 2, cycles: 4, mode: AddressingMode::ZeroPageX },
        0xF6 => OpCode { code: 0xF6, mnemonic: Mnemonic::INC, len: 2, cycles: 6, mode: AddressingMode::ZeroPageX },
        0xF7 => OpCode { code: 0xF7, mnemonic: Mnemonic::ISB, len: 2, cycles: 6, mode: AddressingMode::ZeroPageX },
        0xF8 => OpCode { code: 0xF8, mnemonic: Mnemonic::SED, len: 1, cycles: 2, mode: AddressingMode::NoneAddressing },
        0xF9 => OpCode { code: 0xF9, mnemonic: Mnemonic::SBC, len: 3, cycles: 4, mode: AddressingMode::AbsoluteY },
        0xFA => OpCode { code: 0xFA, mnemonic: Mnemonic::NOP, len: 1, cycles: 2, mode: AddressingMode::Implied },
        0xFB => OpCode { code: 0xFB, mnemonic: Mnemonic::ISB, len: 3, cycles: 7, mode: AddressingMode::AbsoluteY },
        0xFC => OpCode { code: 0xFC, mnemonic: Mnemonic::NOP, len: 3, cycles: 4, mode: AddressingMode::AbsoluteX },
        0xFD => OpCode { code: 0xFD, mnemonic: Mnemonic::SBC, len: 3, cycles: 4, mode: AddressingMode::AbsoluteX },
        0xFE => OpCode { code: 0xFE, mnemonic: Mnemonic::INC, len: 3, cycles: 7, mode: AddressingMode::AbsoluteX },
        _ => OpCode { code: 0xFF, mnemonic: Mnemonic::ISB, len: 3, cycles: 7, mode: AddressingMode::AbsoluteX },
    }
}


/// Every row of the table satisfies `opcode_ok`.
pub proof fn lemma_opcode_table_ok(code: u8)
    ensures
        opcode_ok(spec_opcode(code)),
{
    reveal(spec_opcode);
}

} // verus!

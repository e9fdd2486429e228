//! Fetch-decode-execute: one instruction per `run` call, preceded by an
//! NMI entry when the bus has latched one. Against a bus that obeys the
//! flat memory model, `run`'s contract says the machine performs exactly
//! one `spec_step` transition — the CPU is a function of its state.

use vstd::prelude::*;

use crate::bus::read16;
use crate::bus::CpuBus;
use crate::bus::Memory;
use crate::cpu::same_regs;
use crate::cpu::spec_pulled_status;
use crate::cpu::spec_push;
use crate::cpu::spec_push16;
use crate::cpu::spec_set_flag;
use crate::cpu::spec_set_zn;
use crate::cpu::CpuView;
use crate::cpu::BREAK_FLAG;
use crate::cpu::CARRY_FLAG;
use crate::cpu::CPU;
use crate::cpu::DECIMAL_FLAG;
use crate::cpu::IRQ_FLAG;
use crate::cpu::NEGATIVE_FLAG;
use crate::cpu::OVERFLOW_FLAG;
use crate::cpu::STACK_RESET;
use crate::cpu::ZERO_FLAG;
use crate::cpu_ops::spec_adc;
use crate::cpu_ops::spec_asl;
use crate::cpu_ops::spec_bit;
use crate::cpu_ops::spec_branch;
use crate::cpu_ops::spec_brk;
use crate::cpu_ops::spec_cmp_register;
use crate::cpu_ops::spec_dec;
use crate::cpu_ops::spec_inc;
use crate::cpu_ops::spec_jsr;
use crate::cpu_ops::spec_lda;
use crate::cpu_ops::spec_ldx;
use crate::cpu_ops::spec_ldy;
use crate::cpu_ops::spec_logic;
use crate::cpu_ops::spec_lsr;
use crate::cpu_ops::spec_nop;
use crate::cpu_ops::spec_operand;

use crate::cpu_ops::spec_rol;
use crate::cpu_ops::spec_ror;
use crate::cpu_ops::spec_rti;
use crate::cpu_ops::spec_rts;
use crate::cpu_ops::spec_sbc;
use crate::cpu_ops::spec_sta;
use crate::cpu_ops::spec_stx;
use crate::cpu_ops::spec_sty;
use crate::cpu_undoc::spec_ahx;
use crate::cpu_undoc::spec_alr;
use crate::cpu_undoc::spec_anc;
use crate::cpu_undoc::spec_arr;
use crate::cpu_undoc::spec_axs;
use crate::cpu_undoc::spec_dcp;
use crate::cpu_undoc::spec_isb;
use crate::cpu_undoc::spec_las;
use crate::cpu_undoc::spec_lax;
use crate::cpu_undoc::spec_rla;
use crate::cpu_undoc::spec_rra;
use crate::cpu_undoc::spec_sax;
use crate::cpu_undoc::spec_sh_reg;
use crate::cpu_undoc::spec_slo;
use crate::cpu_undoc::spec_sre;
use crate::cpu_undoc::spec_tas;
use crate::cpu_undoc::spec_xaa;
use crate::opcodes::opcode_for;
use crate::opcodes::spec_opcode;
use crate::opcodes::Mnemonic;
use crate::opcodes::OpCode;

verus! {

/// A register-to-register transfer with Z and N refreshed.
pub open spec fn spec_transfer_zn(v: CpuView, value: u8, to_a: bool, to_x: bool, to_y: bool) -> CpuView {
    CpuView {
        a: if to_a {
            value
        } else {
            v.a
        },
        x: if to_x {
            value
        } else {
            v.x
        },
        y: if to_y {
            value
        } else {
            v.y
        },
        p: spec_set_zn(v.p, value),
        ..v
    }
}

/// A flag set or cleared, nothing else.
pub open spec fn spec_flag_op(v: CpuView, flag: u8, on: bool) -> CpuView {
    CpuView { p: spec_set_flag(v.p, flag, on), ..v }
}

/// NMI entry: push the return address, push the status with B clear,
/// set the IRQ disable, charge seven cycles, and vector through 0xFFFA.
pub open spec fn spec_nmi(v: CpuView) -> CpuView {
    let v1 = spec_push16(v, v.pc);
    let v2 = spec_push(v1, v.p & !BREAK_FLAG);
    let v3 = CpuView {
        p: spec_set_flag(v2.p, IRQ_FLAG, true),
        cycles: (v2.cycles + 7) as u64,
        ..v2
    };
    CpuView { pc: read16(v3.mem, 0xFFFA), ..v3 }
}

/// Reset: clear the registers, set status 0x24 and stack pointer 0xFD,
/// and load the program counter from the vector at 0xFFFC.
pub open spec fn spec_reset(v: CpuView) -> CpuView {
    CpuView {
        a: 0,
        x: 0,
        y: 0,
        p: 0x24,
        sp: STACK_RESET,
        pc: read16(v.mem, 0xFFFC),
        ..v
    }
}

/// What one table row does to the machine, program counter already
/// advanced past the opcode byte.
pub open spec fn spec_instr(v: CpuView, op: OpCode) -> CpuView {
    match op.mnemonic {
        Mnemonic::ADC => spec_adc(v, op.mode),
        Mnemonic::AND => spec_logic(v, op.mode, 0),
        Mnemonic::ASL => spec_asl(v, op.mode),
        Mnemonic::BCC => if v.p & CARRY_FLAG == 0 {
            spec_branch(v, op)
        } else {
            v
        },
        Mnemonic::BCS => if v.p & CARRY_FLAG != 0 {
            spec_branch(v, op)
        } else {
            v
        },
        Mnemonic::BEQ => if v.p & ZERO_FLAG != 0 {
            spec_branch(v, op)
        } else {
            v
        },
        Mnemonic::BNE => if v.p & ZERO_FLAG == 0 {
            spec_branch(v, op)
        } else {
            v
        },
        Mnemonic::BMI => if v.p & NEGATIVE_FLAG != 0 {
            spec_branch(v, op)
        } else {
            v
        },
        Mnemonic::BPL => if v.p & NEGATIVE_FLAG == 0 {
            spec_branch(v, op)
        } else {
            v
        },
        Mnemonic::BVC => if v.p & OVERFLOW_FLAG == 0 {
            spec_branch(v, op)
        } else {
            v
        },
        Mnemonic::BVS => if v.p & OVERFLOW_FLAG != 0 {
            spec_branch(v, op)
        } else {
            v
        },
        Mnemonic::BIT => spec_bit(v, op.mode),
        Mnemonic::BRK => spec_brk(v),
        Mnemonic::CLC => spec_flag_op(v, CARRY_FLAG, false),
        Mnemonic::CLD => spec_flag_op(v, DECIMAL_FLAG, false),
        Mnemonic::CLI => spec_flag_op(v, IRQ_FLAG, false),
        Mnemonic::CLV => spec_flag_op(v, OVERFLOW_FLAG, false),
        Mnemonic::CMP => spec_cmp_register(v, v.a, op.mode),
        Mnemonic::CPX => spec_cmp_register(v, v.x, op.mode),
        Mnemonic::CPY => spec_cmp_register(v, v.y, op.mode),
        Mnemonic::DEC => spec_dec(v, op.mode),
        Mnemonic::DEX => spec_transfer_zn(v, v.x.wrapping_sub(1), false, true, false),
        Mnemonic::DEY => spec_transfer_zn(v, v.y.wrapping_sub(1), false, false, true),
        Mnemonic::EOR => spec_logic(v, op.mode, 1),
        Mnemonic::INC => spec_inc(v, op.mode),
        Mnemonic::INX => spec_transfer_zn(v, v.x.wrapping_add(1), false, true, false),
        Mnemonic::INY => spec_transfer_zn(v, v.y.wrapping_add(1), false, false, true),
        Mnemonic::JMP => {
            let (addr, crossed) = spec_operand(v, op.mode);
            CpuView { pc: addr, ..v }
        },
        Mnemonic::JSR => spec_jsr(v, op.mode),
        Mnemonic::LDA => spec_lda(v, op.mode),
        Mnemonic::LDX => spec_ldx(v, op.mode),
        Mnemonic::LDY => spec_ldy(v, op.mode),
        Mnemonic::LSR => spec_lsr(v, op.mode),
        Mnemonic::NOP => spec_nop(v, op.mode),
        Mnemonic::ORA => spec_logic(v, op.mode, 2),
        Mnemonic::PHA => spec_push(v, v.a),
        Mnemonic::PHP => spec_push(v, v.p | BREAK_FLAG),
        Mnemonic::PLA => {
            let (value, v1) = crate::cpu::spec_pop(v);
            CpuView { a: value, p: spec_set_zn(v1.p, value), ..v1 }
        },
        Mnemonic::PLP => {
            let (value, v1) = crate::cpu::spec_pop(v);
            CpuView { p: spec_pulled_status(value), ..v1 }
        },
        Mnemonic::ROL => spec_rol(v, op.mode),
        Mnemonic::ROR => spec_ror(v, op.mode),
        Mnemonic::RTI => spec_rti(v),
        Mnemonic::RTS => spec_rts(v),
        Mnemonic::SBC => spec_sbc(v, op.mode),
        Mnemonic::SEC => spec_flag_op(v, CARRY_FLAG, true),
        Mnemonic::SED => spec_flag_op(v, DECIMAL_FLAG, true),
        Mnemonic::SEI => spec_flag_op(v, IRQ_FLAG, true),
        Mnemonic::STA => spec_sta(v, op.mode),
        Mnemonic::STX => spec_stx(v, op.mode),
        Mnemonic::STY => spec_sty(v, op.mode),
        Mnemonic::TAX => spec_transfer_zn(v, v.a, false, true, false),
        Mnemonic::TAY => spec_transfer_zn(v, v.a, false, false, true),
        Mnemonic::TSX => spec_transfer_zn(v, v.sp, false, true, false),
        Mnemonic::TXA => spec_transfer_zn(v, v.x, true, false, false),
        Mnemonic::TXS => CpuView { sp: v.x, ..v },
        Mnemonic::TYA => spec_transfer_zn(v, v.y, true, false, false),
        Mnemonic::ALR => spec_alr(v, op.mode),
        Mnemonic::ARR => spec_arr(v, op.mode),
        Mnemonic::ANC => spec_anc(v, op.mode),
        Mnemonic::AXS => spec_axs(v, op.mode),
        Mnemonic::LAS => spec_las(v, op.mode),
        Mnemonic::LAX => spec_lax(v, op.mode),
        Mnemonic::SAX => spec_sax(v, op.mode),
        Mnemonic::DCP => spec_dcp(v, op.mode),
        Mnemonic::ISB => spec_isb(v, op.mode),
        Mnemonic::SLO => spec_slo(v, op.mode),
        Mnemonic::RLA => spec_rla(v, op.mode),
        Mnemonic::SHX => spec_sh_reg(v, v.x, op.mode),
        Mnemonic::SHY => spec_sh_reg(v, v.y, op.mode),
        Mnemonic::SRE => spec_sre(v, op.mode),
        Mnemonic::RRA => spec_rra(v, op.mode),
        Mnemonic::XAA => spec_xaa(v, op.mode),
        Mnemonic::TAS => spec_tas(v, op.mode),
        Mnemonic::AHX => spec_ahx(v, op.mode),
        Mnemonic::JAM => CpuView { pc: v.pc.wrapping_sub(1), ..v },
        Mnemonic::INV => v,
    }
}

/// One whole CPU step: serve a pending NMI, fetch and decode at the
/// program counter, execute, advance past the instruction unless it
/// reassigned the program counter, and charge the table's base cycles.
pub open spec fn spec_step(v0: CpuView, nmi: Option<u8>) -> CpuView {
    let v = if nmi is Some {
        spec_nmi(v0)
    } else {
        v0
    };
    let code = v.mem[v.pc as int];
    let op = spec_opcode(code);
    let v1 = CpuView { pc: v.pc.wrapping_add(1), ..v };
    let v2 = spec_instr(v1, op);
    let v3 = if v2.pc == v1.pc {
        CpuView { pc: v2.pc.wrapping_add((op.len - 1) as u16), ..v2 }
    } else {
        v2
    };
    CpuView { cycles: (v3.cycles + op.cycles) as u64, ..v3 }
}

impl<B: Memory + CpuBus> CPU<B> {
    pub(crate) fn tax(&mut self)
        ensures
            *final(self) == (CPU {
                register_x: old(self).register_a,
                processor_status: spec_set_zn(old(self).processor_status, old(self).register_a),
                ..*old(self)
            }),
    {
        self.register_x = self.register_a;
        let x: u8 = self.register_x;
        self.set_zero_and_negative_flags(x);
    }

    pub(crate) fn tay(&mut self)
        ensures
            *final(self) == (CPU {
                register_y: old(self).register_a,
                processor_status: spec_set_zn(old(self).processor_status, old(self).register_a),
                ..*old(self)
            }),
    {
        self.register_y = self.register_a;
        let y: u8 = self.register_y;
        self.set_zero_and_negative_flags(y);
    }

    pub(crate) fn tsx(&mut self)
        ensures
            *final(self) == (CPU {
                register_x: old(self).stack_pointer,
                processor_status: spec_set_zn(old(self).processor_status, old(self).stack_pointer),
                ..*old(self)
            }),
    {
        self.register_x = self.stack_pointer;
        let x: u8 = self.register_x;
        self.set_zero_and_negative_flags(x);
    }

    pub(crate) fn txa(&mut self)
        ensures
            *final(self) == (CPU {
                register_a: old(self).register_x,
                processor_status: spec_set_zn(old(self).processor_status, old(self).register_x),
                ..*old(self)
            }),
    {
        self.register_a = self.register_x;
        let a: u8 = self.register_a;
        self.set_zero_and_negative_flags(a);
    }

    pub(crate) fn txs(&mut self)
        ensures
            *final(self) == (CPU { stack_pointer: old(self).register_x, ..*old(self) }),
    {
        self.stack_pointer = self.register_x;
    }

    pub(crate) fn tya(&mut self)
        ensures
            *final(self) == (CPU {
                register_a: old(self).register_y,
                processor_status: spec_set_zn(old(self).processor_status, old(self).register_y),
                ..*old(self)
            }),
    {
        self.register_a = self.register_y;
        let a: u8 = self.register_a;
        self.set_zero_and_negative_flags(a);
    }

    pub(crate) fn dex(&mut self)
        ensures
            *final(self) == (CPU {
                register_x: old(self).register_x.wrapping_sub(1),
                processor_status: spec_set_zn(
                    old(self).processor_status,
                    old(self).register_x.wrapping_sub(1),
                ),
                ..*old(self)
            }),
    {
        self.register_x = self.register_x.wrapping_sub(1);
        let x: u8 = self.register_x;
        self.set_zero_and_negative_flags(x);
    }

    pub(crate) fn dey(&mut self)
        ensures
            *final(self) == (CPU {
                register_y: old(self).register_y.wrapping_sub(1),
                processor_status: spec_set_zn(
                    old(self).processor_status,
                    old(self).register_y.wrapping_sub(1),
                ),
                ..*old(self)
            }),
    {
        self.register_y = self.register_y.wrapping_sub(1);
        let y: u8 = self.register_y;
        self.set_zero_and_negative_flags(y);
    }

    pub(crate) fn inx(&mut self)
        ensures
            *final(self) == (CPU {
                register_x: old(self).register_x.wrapping_add(1),
                processor_status: spec_set_zn(
                    old(self).processor_status,
                    old(self).register_x.wrapping_add(1),
                ),
                ..*old(self)
            }),
    {
        self.register_x = self.register_x.wrapping_add(1);
        let x: u8 = self.register_x;
        self.set_zero_and_negative_flags(x);
    }

    pub(crate) fn iny(&mut self)
        ensures
            *final(self) == (CPU {
                register_y: old(self).register_y.wrapping_add(1),
                processor_status: spec_set_zn(
                    old(self).processor_status,
                    old(self).register_y.wrapping_add(1),
                ),
                ..*old(self)
            }),
    {
        self.register_y = self.register_y.wrapping_add(1);
        let y: u8 = self.register_y;
        self.set_zero_and_negative_flags(y);
    }

    /// Serve a latched NMI: push the return state with B clear, disable
    /// IRQs, charge seven cycles, vector through 0xFFFA.
    pub(crate) fn interrupt_nmi(&mut self)
        requires
            old(self).inv(),
            old(self).cycles <= u64::MAX - 7,
        ensures
            final(self).inv(),
            final(self).bus.frames_completed() == old(self).bus.frames_completed(),
            final(self).cycles == old(self).cycles + 7,
            B::obeys_model() ==> final(self)@ == spec_nmi(old(self)@),
    {
        let pc: u16 = self.program_counter;
        self.push_stack16(pc);
        let status: u8 = self.processor_status & !BREAK_FLAG;
        self.push_stack(status);
        self.cycles = self.cycles + 7;
        self.set_flag(IRQ_FLAG, true);
        self.program_counter = self.bus.mem_read_u16(0xFFFA);
    }

    /// Reset: clear the register file and jump through the reset
    /// vector.
    pub fn reset(&mut self)
        requires
            old(self).inv(),
        ensures
            final(self).inv(),
            final(self).bus.frames_completed() == old(self).bus.frames_completed(),
            final(self).register_a == 0,
            final(self).register_x == 0,
            final(self).register_y == 0,
            final(self).processor_status == 0x24,
            final(self).stack_pointer == STACK_RESET,
            final(self).cycles == old(self).cycles,
            // on a bus whose reset vector lies in side-effect-free
            // space, the jump target is pinned and the bus untouched
            old(self).bus.modeled_read(0xFFFC) && old(self).bus.modeled_read(0xFFFD) ==> ({
                &&& final(self).bus == old(self).bus
                &&& final(self).program_counter == (old(self).bus.read_value(0xFFFD) as u16) << 8
                    | (old(self).bus.read_value(0xFFFC) as u16)
            }),
            B::obeys_model() ==> final(self)@ == spec_reset(old(self)@),
    {
        self.register_a = 0;
        self.register_x = 0;
        self.register_y = 0;
        self.processor_status = 0x24;
        self.stack_pointer = STACK_RESET;
        self.program_counter = self.bus.mem_read_u16(0xFFFC);
    }

    /// Execute one decoded load, arithmetic, logic or shift instruction.
    #[verifier::rlimit(100)]
    #[verifier::spinoff_prover]
    fn execute_alu(&mut self, opcode: &OpCode)
        requires
            old(self).inv(),
            crate::opcodes::opcode_ok(*opcode),
            old(self).cycles <= u64::MAX - 10,
            ({
                ||| opcode.mnemonic is ADC
                ||| opcode.mnemonic is AND
                ||| opcode.mnemonic is ASL
                ||| opcode.mnemonic is BIT
                ||| opcode.mnemonic is CMP
                ||| opcode.mnemonic is CPX
                ||| opcode.mnemonic is CPY
                ||| opcode.mnemonic is DEC
                ||| opcode.mnemonic is EOR
                ||| opcode.mnemonic is INC
                ||| opcode.mnemonic is LDA
                ||| opcode.mnemonic is LDX
                ||| opcode.mnemonic is LDY
                ||| opcode.mnemonic is LSR
                ||| opcode.mnemonic is NOP
                ||| opcode.mnemonic is ORA
                ||| opcode.mnemonic is ROL
                ||| opcode.mnemonic is ROR
                ||| opcode.mnemonic is SBC
            }),
        ensures
            final(self).inv(),
            final(self).bus.frames_completed() == old(self).bus.frames_completed(),
            old(self).cycles <= final(self).cycles <= old(self).cycles + 2,
            B::obeys_model() ==> final(self)@ == spec_instr(old(self)@, *opcode),
    {
        match opcode.mnemonic {
            Mnemonic::ADC => self.adc(&opcode.mode),
            Mnemonic::AND => self.and(&opcode.mode),
            Mnemonic::ASL => self.asl(&opcode.mode),
            Mnemonic::BIT => self.bit(&opcode.mode),
            Mnemonic::CMP => self.cmp(&opcode.mode),
            Mnemonic::CPX => self.cpx(&opcode.mode),
            Mnemonic::CPY => self.cpy(&opcode.mode),
            Mnemonic::DEC => self.dec(&opcode.mode),
            Mnemonic::EOR => self.eor(&opcode.mode),
            Mnemonic::INC => self.inc(&opcode.mode),
            Mnemonic::LDA => self.lda(&opcode.mode),
            Mnemonic::LDX => self.ldx(&opcode.mode),
            Mnemonic::LDY => self.ldy(&opcode.mode),
            Mnemonic::LSR => self.lsr(&opcode.mode),
            Mnemonic::NOP => self.nop(&opcode.mode),
            Mnemonic::ORA => self.ora(&opcode.mode),
            Mnemonic::ROL => self.rol(&opcode.mode),
            Mnemonic::ROR => self.ror(&opcode.mode),
            Mnemonic::SBC => self.sbc(&opcode.mode),
            _ => (),
        }
    }

    /// Execute one decoded branch, jump, stack or flag instruction.
    #[verifier::rlimit(100)]
    #[verifier::spinoff_prover]
    fn execute_control(&mut self, opcode: &OpCode)
        requires
            old(self).inv(),
            crate::opcodes::opcode_ok(*opcode),
            old(self).cycles <= u64::MAX - 10,
            ({
                ||| opcode.mnemonic is BCC
                ||| opcode.mnemonic is BCS
                ||| opcode.mnemonic is BEQ
                ||| opcode.mnemonic is BNE
                ||| opcode.mnemonic is BMI
                ||| opcode.mnemonic is BPL
                ||| opcode.mnemonic is BVC
                ||| opcode.mnemonic is BVS
                ||| opcode.mnemonic is BRK
                ||| opcode.mnemonic is CLC
                ||| opcode.mnemonic is CLD
                ||| opcode.mnemonic is CLI
                ||| opcode.mnemonic is CLV
                ||| opcode.mnemonic is JMP
                ||| opcode.mnemonic is JSR
                ||| opcode.mnemonic is PHA
                ||| opcode.mnemonic is PHP
                ||| opcode.mnemonic is PLA
                ||| opcode.mnemonic is PLP
                ||| opcode.mnemonic is RTI
                ||| opcode.mnemonic is RTS
                ||| opcode.mnemonic is SEC
                ||| opcode.mnemonic is SED
                ||| opcode.mnemonic is SEI
            }),
        ensures
            final(self).inv(),
            final(self).bus.frames_completed() == old(self).bus.frames_completed(),
            old(self).cycles <= final(self).cycles <= old(self).cycles + 2,
            B::obeys_model() ==> final(self)@ == spec_instr(old(self)@, *opcode),
    {
        match opcode.mnemonic {
            Mnemonic::BCC => self.bcc(opcode),
            Mnemonic::BCS => self.bcs(opcode),
            Mnemonic::BEQ => self.beq(opcode),
            Mnemonic::BNE => self.bne(opcode),
            Mnemonic::BMI => self.bmi(opcode),
            Mnemonic::BPL => self.bpl(opcode),
            Mnemonic::BVC => self.bvc(opcode),
            Mnemonic::BVS => self.bvs(opcode),
            Mnemonic::BRK => self.brk(),
            Mnemonic::CLC => self.set_flag(CARRY_FLAG, false),
            Mnemonic::CLD => self.set_flag(DECIMAL_FLAG, false),
            Mnemonic::CLI => self.set_flag(IRQ_FLAG, false),
            Mnemonic::CLV => self.set_flag(OVERFLOW_FLAG, false),
            Mnemonic::JMP => self.jmp(&opcode.mode),
            Mnemonic::JSR => self.jsr(&opcode.mode),
            Mnemonic::PHA => self.pha(),
            Mnemonic::PHP => self.php(),
            Mnemonic::PLA => self.pla(),
            Mnemonic::PLP => self.plp(),
            Mnemonic::RTI => self.rti(),
            Mnemonic::RTS => self.rts(),
            Mnemonic::SEC => self.set_flag(CARRY_FLAG, true),
            Mnemonic::SED => self.set_flag(DECIMAL_FLAG, true),
            Mnemonic::SEI => self.set_flag(IRQ_FLAG, true),
            _ => (),
        }
    }

    /// Execute one decoded store, transfer or register step instruction.
    #[verifier::rlimit(100)]
    #[verifier::spinoff_prover]
    fn execute_transfer(&mut self, opcode: &OpCode)
        requires
            old(self).inv(),
            crate::opcodes::opcode_ok(*opcode),
            old(self).cycles <= u64::MAX - 10,
            ({
                ||| opcode.mnemonic is STA
                ||| opcode.mnemonic is STX
                ||| opcode.mnemonic is STY
                ||| opcode.mnemonic is TAX
                ||| opcode.mnemonic is TAY
                ||| opcode.mnemonic is TSX
                ||| opcode.mnemonic is TXA
                ||| opcode.mnemonic is TXS
                ||| opcode.mnemonic is TYA
                ||| opcode.mnemonic is DEX
                ||| opcode.mnemonic is DEY
                ||| opcode.mnemonic is INX
                ||| opcode.mnemonic is INY
            }),
        ensures
            final(self).inv(),
            final(self).bus.frames_completed() == old(self).bus.frames_completed(),
            old(self).cycles <= final(self).cycles <= old(self).cycles + 2,
            B::obeys_model() ==> final(self)@ == spec_instr(old(self)@, *opcode),
    {
        match opcode.mnemonic {
            Mnemonic::STA => self.sta(&opcode.mode),
            Mnemonic::STX => self.stx(&opcode.mode),
            Mnemonic::STY => self.sty(&opcode.mode),
            Mnemonic::TAX => self.tax(),
            Mnemonic::TAY => self.tay(),
            Mnemonic::TSX => self.tsx(),
            Mnemonic::TXA => self.txa(),
            Mnemonic::TXS => self.txs(),
            Mnemonic::TYA => self.tya(),
            Mnemonic::DEX => self.dex(),
            Mnemonic::DEY => self.dey(),
            Mnemonic::INX => self.inx(),
            Mnemonic::INY => self.iny(),
            _ => (),
        }
    }

    /// Execute one decoded undocumented instruction.
    #[verifier::rlimit(100)]
    #[verifier::spinoff_prover]
    fn execute_undocumented(&mut self, opcode: &OpCode)
        requires
            old(self).inv(),
            crate::opcodes::opcode_ok(*opcode),
            old(self).cycles <= u64::MAX - 10,
            ({
                ||| opcode.mnemonic is ALR
                ||| opcode.mnemonic is ARR
                ||| opcode.mnemonic is ANC
                ||| opcode.mnemonic is AXS
                ||| opcode.mnemonic is LAS
                ||| opcode.mnemonic is LAX
                ||| opcode.mnemonic is SAX
                ||| opcode.mnemonic is DCP
                ||| opcode.mnemonic is ISB
                ||| opcode.mnemonic is SLO
                ||| opcode.mnemonic is RLA
                ||| opcode.mnemonic is SHX
                ||| opcode.mnemonic is SHY
                ||| opcode.mnemonic is SRE
                ||| opcode.mnemonic is RRA
                ||| opcode.mnemonic is XAA
                ||| opcode.mnemonic is TAS
                ||| opcode.mnemonic is AHX
                ||| opcode.mnemonic is JAM
                ||| opcode.mnemonic is INV
            }),
        ensures
            final(self).inv(),
            final(self).bus.frames_completed() == old(self).bus.frames_completed(),
            old(self).cycles <= final(self).cycles <= old(self).cycles + 2,
            B::obeys_model() ==> final(self)@ == spec_instr(old(self)@, *opcode),
    {
        match opcode.mnemonic {
            Mnemonic::ALR => self.alr(&opcode.mode),
            Mnemonic::ARR => self.arr(&opcode.mode),
            Mnemonic::ANC => self.anc(&opcode.mode),
            Mnemonic::AXS => self.axs(&opcode.mode),
            Mnemonic::LAS => self.las(&opcode.mode),
            Mnemonic::LAX => self.lax(&opcode.mode),
            Mnemonic::SAX => self.sax(&opcode.mode),
            Mnemonic::DCP => self.dcp(&opcode.mode),
            Mnemonic::ISB => self.isb(&opcode.mode),
            Mnemonic::SLO => self.slo(&opcode.mode),
            Mnemonic::RLA => self.rla(&opcode.mode),
            Mnemonic::SHX => self.shx(&opcode.mode),
            Mnemonic::SHY => self.shy(&opcode.mode),
            Mnemonic::SRE => self.sre(&opcode.mode),
            Mnemonic::RRA => self.rra(&opcode.mode),
            Mnemonic::XAA => self.xaa(&opcode.mode),
            Mnemonic::TAS => self.tas(&opcode.mode),
            Mnemonic::AHX => self.ahx(&opcode.mode),
            Mnemonic::JAM => self.jam(),
            Mnemonic::INV => (),
            _ => (),
        }
    }

    /// Execute one decoded instruction.
    fn execute(&mut self, opcode: &OpCode)
        requires
            old(self).inv(),
            crate::opcodes::opcode_ok(*opcode),
            old(self).cycles <= u64::MAX - 10,
        ensures
            final(self).inv(),
            final(self).bus.frames_completed() == old(self).bus.frames_completed(),
            old(self).cycles <= final(self).cycles <= old(self).cycles + 2,
            B::obeys_model() ==> final(self)@ == spec_instr(old(self)@, *opcode),
    {
        match opcode.mnemonic {
            Mnemonic::ADC | Mnemonic::AND | Mnemonic::ASL | Mnemonic::BIT | Mnemonic::CMP | Mnemonic::CPX | Mnemonic::CPY | Mnemonic::DEC | Mnemonic::EOR | Mnemonic::INC | Mnemonic::LDA | Mnemonic::LDX | Mnemonic::LDY | Mnemonic::LSR | Mnemonic::NOP | Mnemonic::ORA | Mnemonic::ROL | Mnemonic::ROR | Mnemonic::SBC => self.execute_alu(opcode),
            Mnemonic::BCC | Mnemonic::BCS | Mnemonic::BEQ | Mnemonic::BNE | Mnemonic::BMI | Mnemonic::BPL | Mnemonic::BVC | Mnemonic::BVS | Mnemonic::BRK | Mnemonic::CLC | Mnemonic::CLD | Mnemonic::CLI | Mnemonic::CLV | Mnemonic::JMP | Mnemonic::JSR | Mnemonic::PHA | Mnemonic::PHP | Mnemonic::PLA | Mnemonic::PLP | Mnemonic::RTI | Mnemonic::RTS | Mnemonic::SEC | Mnemonic::SED | Mnemonic::SEI => self.execute_control(opcode),
            Mnemonic::STA | Mnemonic::STX | Mnemonic::STY | Mnemonic::TAX | Mnemonic::TAY | Mnemonic::TSX | Mnemonic::TXA | Mnemonic::TXS | Mnemonic::TYA | Mnemonic::DEX | Mnemonic::DEY | Mnemonic::INX | Mnemonic::INY => self.execute_transfer(opcode),
            Mnemonic::ALR | Mnemonic::ARR | Mnemonic::ANC | Mnemonic::AXS | Mnemonic::LAS | Mnemonic::LAX | Mnemonic::SAX | Mnemonic::DCP | Mnemonic::ISB | Mnemonic::SLO | Mnemonic::RLA | Mnemonic::SHX | Mnemonic::SHY | Mnemonic::SRE | Mnemonic::RRA | Mnemonic::XAA | Mnemonic::TAS | Mnemonic::AHX | Mnemonic::JAM | Mnemonic::INV => self.execute_undocumented(opcode),
        }
    }


    /// Place a program at 0x8600 through the bus and point the reset
    /// vector at it, as a simple development harness does.
    pub fn load(&mut self, program: Vec<u8>)
        requires
            old(self).inv(),
            program@.len() <= 0x7A00,
        ensures
            final(self).inv(),
            final(self).bus.frames_completed() == old(self).bus.frames_completed(),
            same_regs(final(self)@, old(self)@),
            B::obeys_model() && old(self)@.mem.len() == 0x10000 ==> final(self)@.mem
                == crate::bus::write16(
                crate::bus::loaded_at(old(self)@.mem, 0x8600, program@),
                0xFFFC,
                0x8600,
            ),
    {
        let mut i: usize = 0;
        while i < program.len()
            invariant
                self.inv(),
                i <= program@.len() <= 0x7A00,
                self.bus.frames_completed() == old(self).bus.frames_completed(),
                same_regs(self@, old(self)@),
                B::obeys_model() && old(self)@.mem.len() == 0x10000 ==> self@.mem
                    == crate::bus::loaded_at(
                    old(self)@.mem,
                    0x8600,
                    program@.subrange(0, i as int),
                ),
            decreases program@.len() - i,
        {
            let value: u8 = program[i];
            self.bus.mem_write(0x8600 + (i as u16), value);
            proof {
                if B::obeys_model() && old(self)@.mem.len() == 0x10000 {
                    assert(self@.mem =~= crate::bus::loaded_at(
                        old(self)@.mem,
                        0x8600,
                        program@.subrange(0, i as int + 1),
                    ));
                }
            }
            i = i + 1;
        }
        proof {
            assert(program@.subrange(0, program@.len() as int) =~= program@);
        }
        self.bus.mem_write_u16(0xFFFC, 0x8600);
    }

    /// Execute one instruction (after serving a pending NMI) and return
    /// how many cycles it took, the NMI entry excluded — the count the
    /// caller forwards to the PPU.
    pub fn run(&mut self) -> (delta: u8)
        requires
            old(self).inv(),
            old(self).cycles <= u64::MAX - 100,
        ensures
            final(self).inv(),
            final(self).bus.frames_completed() == old(self).bus.frames_completed(),
            old(self).cycles + 1 <= final(self).cycles <= old(self).cycles + 100,
            final(self).cycles - old(self).cycles == delta + if old(self).bus.nmi_value()
                is Some {
                7int
            } else {
                0int
            },
            B::obeys_model() ==> final(self)@ == spec_step(
                old(self)@,
                old(self).bus.nmi_value(),
            ),
    {
        if self.bus.poll_nmi_status().is_some() {
            self.interrupt_nmi();
        }
        let start_cycles: u64 = self.cycles;
        let pc: u16 = self.program_counter;
        let code: u8 = self.bus.mem_read(pc);
        self.program_counter = self.program_counter.wrapping_add(1);
        let program_counter_state: u16 = self.program_counter;
        let opcode: OpCode = opcode_for(code);
        self.execute(&opcode);
        if program_counter_state == self.program_counter {
            self.program_counter = self.program_counter.wrapping_add((opcode.len - 1) as u16);
        }
        self.cycles = self.cycles + opcode.cycles as u64;
        (self.cycles - start_cycles) as u8
    }
}

} // verus!

//! Instruction entries, operands and the routines they dispatch to.
//!
//! An entry names its addressing routine and its operation routine by a
//! tag; `call` on the tag runs the routine of that name.

pub mod addressing;
pub mod ops;

use vstd::prelude::*;
use crate::BusMessage;
use crate::cpu::CpuState;

verus! {

/// What an addressing routine hands to the operation routine.
#[derive(Debug, Clone, Copy, PartialEq, Eq, Structural)]
pub enum Operand {
    Implied,
    Immediate(u8),
    Address(u16),
}

/// One step of an addressing routine: either the tick is spent on a bus
/// request, or the operand is ready and execution starts in this tick.
#[derive(Debug, Clone, Copy, PartialEq, Eq, Structural)]
pub enum AddrDelegateReturn {
    Yield(BusMessage),
    Return(Operand),
}

/// Names an addressing routine of [`addressing`].
#[derive(Debug, Clone, Copy, PartialEq, Eq, Structural)]
pub enum AddrDelegate {
    /// Accumulator.
    Acc,
    /// Immediate.
    Imm,
    /// Absolute.
    Abs,
    /// Zero page.
    Zp,
    /// Zero page indexed by X.
    ZpX,
    /// Zero page indexed by Y.
    ZpY,
    /// Absolute indexed by X, no penalty.
    AbsX,
    /// Absolute indexed by Y, no penalty.
    AbsY,
    /// Implied.
    Imp,
    /// Relative.
    Rel,
    /// Indexed indirect, `(zp,X)`.
    IndX,
    /// Indirect indexed, `(zp),Y`, no penalty.
    IndY,
    /// Indirect.
    Ind,
    /// Absolute indexed by X, one cycle more on a page crossing.
    AbsXExtra,
    /// Absolute indexed by Y, one cycle more on a page crossing.
    AbsYExtra,
    /// Indirect indexed, `(zp),Y`, one cycle more on a page crossing.
    IndYExtra,
}

impl AddrDelegate {
    /// The last cycle on which the routine may be called: the one on
    /// which it returns its operand at the latest.
    pub open spec fn last_cycle(self) -> u8 {
        match self {
            AddrDelegate::ZpX
            | AddrDelegate::ZpY
            | AddrDelegate::AbsXExtra
            | AddrDelegate::AbsYExtra => 2,
            AddrDelegate::IndX
            | AddrDelegate::IndY
            | AddrDelegate::Ind
            | AddrDelegate::IndYExtra => 3,
            _ => 1,
        }
    }

    /// The cycles on which the routine may be called.
    pub open spec fn accepts(self, cycle: u8) -> bool {
        self.last_cycle() > 1 ==> 1 <= cycle <= self.last_cycle()
    }

    /// State and answer after the routine's call on `cycle`.
    pub open spec fn step(self, s: CpuState, cycle: u8) -> (CpuState, AddrDelegateReturn) {
        match self {
            AddrDelegate::Acc => addressing::acc_spec(s, cycle),
            AddrDelegate::Imm => addressing::imm_spec(s, cycle),
            AddrDelegate::Abs => addressing::abs_spec(s, cycle),
            AddrDelegate::Zp => addressing::zp_spec(s, cycle),
            AddrDelegate::ZpX => addressing::zp_x_spec(s, cycle),
            AddrDelegate::ZpY => addressing::zp_y_spec(s, cycle),
            AddrDelegate::AbsX => addressing::abs_x_spec(s, cycle),
            AddrDelegate::AbsY => addressing::abs_y_spec(s, cycle),
            AddrDelegate::Imp => addressing::imp_spec(s, cycle),
            AddrDelegate::Rel => addressing::rel_spec(s, cycle),
            AddrDelegate::IndX => addressing::ind_x_spec(s, cycle),
            AddrDelegate::IndY => addressing::ind_y_spec(s, cycle),
            AddrDelegate::Ind => addressing::ind_spec(s, cycle),
            AddrDelegate::AbsXExtra => addressing::abs_x_extra_spec(s, cycle),
            AddrDelegate::AbsYExtra => addressing::abs_y_extra_spec(s, cycle),
            AddrDelegate::IndYExtra => addressing::ind_y_extra_spec(s, cycle),
        }
    }

    /// Whether the operand that the routine returns is of the shape
    /// that `op` takes.
    pub open spec fn feeds(self, op: OpDelegate) -> bool {
        match self {
            AddrDelegate::Acc | AddrDelegate::Imp => op is Implied,
            AddrDelegate::Imm => op is Immediate,
            _ => op is Address,
        }
    }

    /// Bytes of an instruction in this mode, opcode included.
    #[verifier::allow_in_spec]
    pub fn bytes(self) -> u8
        returns
            (match self {
                AddrDelegate::Acc | AddrDelegate::Imp => 1u8,
                AddrDelegate::Abs
                | AddrDelegate::AbsX
                | AddrDelegate::AbsY
                | AddrDelegate::Ind
                | AddrDelegate::AbsXExtra
                | AddrDelegate::AbsYExtra => 3u8,
                _ => 2u8,
            }),
    {
        match self {
            AddrDelegate::Acc | AddrDelegate::Imp => 1,
            AddrDelegate::Abs
            | AddrDelegate::AbsX
            | AddrDelegate::AbsY
            | AddrDelegate::Ind
            | AddrDelegate::AbsXExtra
            | AddrDelegate::AbsYExtra => 3,
            _ => 2,
        }
    }

    /// The mode's name in a disassembly.
    #[verifier::allow_in_spec]
    pub fn label(self) -> &'static str
        returns
            (match self {
                AddrDelegate::Acc => "Accum",
                AddrDelegate::Imm => "IMM",
                AddrDelegate::Abs => "Absolute",
                AddrDelegate::Zp => "ZP",
                AddrDelegate::ZpX => "ZP, X",
                AddrDelegate::ZpY => "ZP, Y",
                AddrDelegate::AbsX => "ABS, X",
                AddrDelegate::AbsY => "ABS, Y",
                AddrDelegate::Imp => "Implied",
                AddrDelegate::Rel => "Relative",
                AddrDelegate::IndX => "(IND, X)",
                AddrDelegate::IndY => "(IND), Y",
                AddrDelegate::Ind => "Indirect",
                AddrDelegate::AbsXExtra => "ABS, X",
                AddrDelegate::AbsYExtra => "ABS, Y",
                AddrDelegate::IndYExtra => "(IND), Y",
            }),
    {
        match self {
            AddrDelegate::Acc => "Accum",
            AddrDelegate::Imm => "IMM",
            AddrDelegate::Abs => "Absolute",
            AddrDelegate::Zp => "ZP",
            AddrDelegate::ZpX => "ZP, X",
            AddrDelegate::ZpY => "ZP, Y",
            AddrDelegate::AbsX => "ABS, X",
            AddrDelegate::AbsY => "ABS, Y",
            AddrDelegate::Imp => "Implied",
            AddrDelegate::Rel => "Relative",
            AddrDelegate::IndX => "(IND, X)",
            AddrDelegate::IndY => "(IND), Y",
            AddrDelegate::Ind => "Indirect",
            AddrDelegate::AbsXExtra => "ABS, X",
            AddrDelegate::AbsYExtra => "ABS, Y",
            AddrDelegate::IndYExtra => "(IND), Y",
        }
    }

    /// Runs the routine.
    pub fn call(&self, s: &mut CpuState, cycle: u8) -> (r: AddrDelegateReturn)
        requires
            self.accepts(cycle),
        ensures
            (*final(s), r) == self.step(*old(s), cycle),
    {
        match self {
            AddrDelegate::Acc => addressing::acc(s, cycle),
            AddrDelegate::Imm => addressing::imm(s, cycle),
            AddrDelegate::Abs => addressing::abs(s, cycle),
            AddrDelegate::Zp => addressing::zp(s, cycle),
            AddrDelegate::ZpX => addressing::zp_x(s, cycle),
            AddrDelegate::ZpY => addressing::zp_y(s, cycle),
            AddrDelegate::AbsX => addressing::abs_x(s, cycle),
            AddrDelegate::AbsY => addressing::abs_y(s, cycle),
            AddrDelegate::Imp => addressing::imp(s, cycle),
            AddrDelegate::Rel => addressing::rel(s, cycle),
            AddrDelegate::IndX => addressing::ind_x(s, cycle),
            AddrDelegate::IndY => addressing::ind_y(s, cycle),
            AddrDelegate::Ind => addressing::ind(s, cycle),
            AddrDelegate::AbsXExtra => addressing::abs_x_extra(s, cycle),
            AddrDelegate::AbsYExtra => addressing::abs_y_extra(s, cycle),
            AddrDelegate::IndYExtra => addressing::ind_y_extra(s, cycle),
        }
    }
}

/// Names an operation routine without operand.
#[derive(Debug, Clone, Copy, PartialEq, Eq, Structural)]
pub enum OpDelegateImplied {
    Brk,
    Php,
    Asl,
    Clc,
    Plp,
    Rol,
    Sec,
    Rti,
    Pha,
    Lsr,
    Cli,
    Rts,
    Pla,
    Ror,
    Sei,
    Dey,
    Txa,
    Tya,
    Txs,
    Tay,
    Tax,
    Clv,
    Tsx,
    Iny,
    Dex,
    Cld,
    Inx,
    Nop,
    Sed,
}

impl OpDelegateImplied {
    /// The routine's mnemonic.
    #[verifier::allow_in_spec]
    pub fn mnemonic(self) -> &'static str
        returns
            (match self {
                OpDelegateImplied::Brk => "BRK",
                OpDelegateImplied::Php => "PHP",
                OpDelegateImplied::Asl => "ASL",
                OpDelegateImplied::Clc => "CLC",
                OpDelegateImplied::Plp => "PLP",
                OpDelegateImplied::Rol => "ROL",
                OpDelegateImplied::Sec => "SEC",
                OpDelegateImplied::Rti => "RTI",
                OpDelegateImplied::Pha => "PHA",
                OpDelegateImplied::Lsr => "LSR",
                OpDelegateImplied::Cli => "CLI",
                OpDelegateImplied::Rts => "RTS",
                OpDelegateImplied::Pla => "PLA",
                OpDelegateImplied::Ror => "ROR",
                OpDelegateImplied::Sei => "SEI",
                OpDelegateImplied::Dey => "DEY",
                OpDelegateImplied::Txa => "TXA",
                OpDelegateImplied::Tya => "TYA",
                OpDelegateImplied::Txs => "TXS",
                OpDelegateImplied::Tay => "TAY",
                OpDelegateImplied::Tax => "TAX",
                OpDelegateImplied::Clv => "CLV",
                OpDelegateImplied::Tsx => "TSX",
                OpDelegateImplied::Iny => "INY",
                OpDelegateImplied::Dex => "DEX",
                OpDelegateImplied::Cld => "CLD",
                OpDelegateImplied::Inx => "INX",
                OpDelegateImplied::Nop => "NOP",
                OpDelegateImplied::Sed => "SED",
            }),
    {
        match self {
            OpDelegateImplied::Brk => "BRK",
            OpDelegateImplied::Php => "PHP",
            OpDelegateImplied::Asl => "ASL",
            OpDelegateImplied::Clc => "CLC",
            OpDelegateImplied::Plp => "PLP",
            OpDelegateImplied::Rol => "ROL",
            OpDelegateImplied::Sec => "SEC",
            OpDelegateImplied::Rti => "RTI",
            OpDelegateImplied::Pha => "PHA",
            OpDelegateImplied::Lsr => "LSR",
            OpDelegateImplied::Cli => "CLI",
            OpDelegateImplied::Rts => "RTS",
            OpDelegateImplied::Pla => "PLA",
            OpDelegateImplied::Ror => "ROR",
            OpDelegateImplied::Sei => "SEI",
            OpDelegateImplied::Dey => "DEY",
            OpDelegateImplied::Txa => "TXA",
            OpDelegateImplied::Tya => "TYA",
            OpDelegateImplied::Txs => "TXS",
            OpDelegateImplied::Tay => "TAY",
            OpDelegateImplied::Tax => "TAX",
            OpDelegateImplied::Clv => "CLV",
            OpDelegateImplied::Tsx => "TSX",
            OpDelegateImplied::Iny => "INY",
            OpDelegateImplied::Dex => "DEX",
            OpDelegateImplied::Cld => "CLD",
            OpDelegateImplied::Inx => "INX",
            OpDelegateImplied::Nop => "NOP",
            OpDelegateImplied::Sed => "SED",
        }
    }

    /// State and bus request after the routine's call on `cycle`.
    pub open spec fn step(self, s: CpuState, cycle: u8) -> (CpuState, BusMessage) {
        match self {
            OpDelegateImplied::Brk => ops::brk_implied_spec(s, cycle),
            OpDelegateImplied::Php => ops::php_implied_spec(s, cycle),
            OpDelegateImplied::Asl => ops::asl_implied_spec(s, cycle),
            OpDelegateImplied::Clc => ops::clc_implied_spec(s, cycle),
            OpDelegateImplied::Plp => ops::plp_implied_spec(s, cycle),
            OpDelegateImplied::Rol => ops::rol_implied_spec(s, cycle),
            OpDelegateImplied::Sec => ops::sec_implied_spec(s, cycle),
            OpDelegateImplied::Rti => ops::rti_implied_spec(s, cycle),
            OpDelegateImplied::Pha => ops::pha_implied_spec(s, cycle),
            OpDelegateImplied::Lsr => ops::lsr_implied_spec(s, cycle),
            OpDelegateImplied::Cli => ops::cli_implied_spec(s, cycle),
            OpDelegateImplied::Rts => ops::rts_implied_spec(s, cycle),
            OpDelegateImplied::Pla => ops::pla_implied_spec(s, cycle),
            OpDelegateImplied::Ror => ops::ror_implied_spec(s, cycle),
            OpDelegateImplied::Sei => ops::sei_implied_spec(s, cycle),
            OpDelegateImplied::Dey => ops::dey_implied_spec(s, cycle),
            OpDelegateImplied::Txa => ops::txa_implied_spec(s, cycle),
            OpDelegateImplied::Tya => ops::tya_implied_spec(s, cycle),
            OpDelegateImplied::Txs => ops::txs_implied_spec(s, cycle),
            OpDelegateImplied::Tay => ops::tay_implied_spec(s, cycle),
            OpDelegateImplied::Tax => ops::tax_implied_spec(s, cycle),
            OpDelegateImplied::Clv => ops::clv_implied_spec(s, cycle),
            OpDelegateImplied::Tsx => ops::tsx_implied_spec(s, cycle),
            OpDelegateImplied::Iny => ops::iny_implied_spec(s, cycle),
            OpDelegateImplied::Dex => ops::dex_implied_spec(s, cycle),
            OpDelegateImplied::Cld => ops::cld_implied_spec(s, cycle),
            OpDelegateImplied::Inx => ops::inx_implied_spec(s, cycle),
            OpDelegateImplied::Nop => ops::nop_implied_spec(s, cycle),
            OpDelegateImplied::Sed => ops::sed_implied_spec(s, cycle),
        }
    }

    /// Runs the routine.
    pub fn call(&self, s: &mut CpuState, cycle: u8) -> (msg: BusMessage)
        ensures
            (*final(s), msg) == self.step(*old(s), cycle),
    {
        match self {
            OpDelegateImplied::Brk => ops::brk_implied(s, cycle),
            OpDelegateImplied::Php => ops::php_implied(s, cycle),
            OpDelegateImplied::Asl => ops::asl_implied(s, cycle),
            OpDelegateImplied::Clc => ops::clc_implied(s, cycle),
            OpDelegateImplied::Plp => ops::plp_implied(s, cycle),
            OpDelegateImplied::Rol => ops::rol_implied(s, cycle),
            OpDelegateImplied::Sec => ops::sec_implied(s, cycle),
            OpDelegateImplied::Rti => ops::rti_implied(s, cycle),
            OpDelegateImplied::Pha => ops::pha_implied(s, cycle),
            OpDelegateImplied::Lsr => ops::lsr_implied(s, cycle),
            OpDelegateImplied::Cli => ops::cli_implied(s, cycle),
            OpDelegateImplied::Rts => ops::rts_implied(s, cycle),
            OpDelegateImplied::Pla => ops::pla_implied(s, cycle),
            OpDelegateImplied::Ror => ops::ror_implied(s, cycle),
            OpDelegateImplied::Sei => ops::sei_implied(s, cycle),
            OpDelegateImplied::Dey => ops::dey_implied(s, cycle),
            OpDelegateImplied::Txa => ops::txa_implied(s, cycle),
            OpDelegateImplied::Tya => ops::tya_implied(s, cycle),
            OpDelegateImplied::Txs => ops::txs_implied(s, cycle),
            OpDelegateImplied::Tay => ops::tay_implied(s, cycle),
            OpDelegateImplied::Tax => ops::tax_implied(s, cycle),
            OpDelegateImplied::Clv => ops::clv_implied(s, cycle),
            OpDelegateImplied::Tsx => ops::tsx_implied(s, cycle),
            OpDelegateImplied::Iny => ops::iny_implied(s, cycle),
            OpDelegateImplied::Dex => ops::dex_implied(s, cycle),
            OpDelegateImplied::Cld => ops::cld_implied(s, cycle),
            OpDelegateImplied::Inx => ops::inx_implied(s, cycle),
            OpDelegateImplied::Nop => ops::nop_implied(s, cycle),
            OpDelegateImplied::Sed => ops::sed_implied(s, cycle),
        }
    }
}

/// Names an operation routine that takes its operand byte.
#[derive(Debug, Clone, Copy, PartialEq, Eq, Structural)]
pub enum OpDelegateImmediate {
    Ora,
    And,
    Eor,
    Adc,
    Ldy,
    Ldx,
    Lda,
    Cpy,
    Cmp,
    Cpx,
    Sbc,
}

impl OpDelegateImmediate {
    /// The routine's mnemonic.
    #[verifier::allow_in_spec]
    pub fn mnemonic(self) -> &'static str
        returns
            (match self {
                OpDelegateImmediate::Ora => "ORA",
                OpDelegateImmediate::And => "AND",
                OpDelegateImmediate::Eor => "EOR",
                OpDelegateImmediate::Adc => "ADC",
                OpDelegateImmediate::Ldy => "LDY",
                OpDelegateImmediate::Ldx => "LDX",
                OpDelegateImmediate::Lda => "LDA",
                OpDelegateImmediate::Cpy => "CPY",
                OpDelegateImmediate::Cmp => "CMP",
                OpDelegateImmediate::Cpx => "CPX",
                OpDelegateImmediate::Sbc => "SBC",
            }),
    {
        match self {
            OpDelegateImmediate::Ora => "ORA",
            OpDelegateImmediate::And => "AND",
            OpDelegateImmediate::Eor => "EOR",
            OpDelegateImmediate::Adc => "ADC",
            OpDelegateImmediate::Ldy => "LDY",
            OpDelegateImmediate::Ldx => "LDX",
            OpDelegateImmediate::Lda => "LDA",
            OpDelegateImmediate::Cpy => "CPY",
            OpDelegateImmediate::Cmp => "CMP",
            OpDelegateImmediate::Cpx => "CPX",
            OpDelegateImmediate::Sbc => "SBC",
        }
    }

    /// State and bus request after the routine's call on `cycle`.
    pub open spec fn step(self, s: CpuState, immediate: u8, cycle: u8) -> (CpuState, BusMessage) {
        match self {
            OpDelegateImmediate::Ora => ops::ora_immediate_spec(s, immediate, cycle),
            OpDelegateImmediate::And => ops::and_immediate_spec(s, immediate, cycle),
            OpDelegateImmediate::Eor => ops::eor_immediate_spec(s, immediate, cycle),
            OpDelegateImmediate::Adc => ops::adc_immediate_spec(s, immediate, cycle),
            OpDelegateImmediate::Ldy => ops::ldy_immediate_spec(s, immediate, cycle),
            OpDelegateImmediate::Ldx => ops::ldx_immediate_spec(s, immediate, cycle),
            OpDelegateImmediate::Lda => ops::lda_immediate_spec(s, immediate, cycle),
            OpDelegateImmediate::Cpy => ops::cpy_immediate_spec(s, immediate, cycle),
            OpDelegateImmediate::Cmp => ops::cmp_immediate_spec(s, immediate, cycle),
            OpDelegateImmediate::Cpx => ops::cpx_immediate_spec(s, immediate, cycle),
            OpDelegateImmediate::Sbc => ops::sbc_immediate_spec(s, immediate, cycle),
        }
    }

    /// Runs the routine.
    pub fn call(&self, s: &mut CpuState, immediate: u8, cycle: u8) -> (msg: BusMessage)
        ensures
            (*final(s), msg) == self.step(*old(s), immediate, cycle),
    {
        match self {
            OpDelegateImmediate::Ora => ops::ora_immediate(s, immediate, cycle),
            OpDelegateImmediate::And => ops::and_immediate(s, immediate, cycle),
            OpDelegateImmediate::Eor => ops::eor_immediate(s, immediate, cycle),
            OpDelegateImmediate::Adc => ops::adc_immediate(s, immediate, cycle),
            OpDelegateImmediate::Ldy => ops::ldy_immediate(s, immediate, cycle),
            OpDelegateImmediate::Ldx => ops::ldx_immediate(s, immediate, cycle),
            OpDelegateImmediate::Lda => ops::lda_immediate(s, immediate, cycle),
            OpDelegateImmediate::Cpy => ops::cpy_immediate(s, immediate, cycle),
            OpDelegateImmediate::Cmp => ops::cmp_immediate(s, immediate, cycle),
            OpDelegateImmediate::Cpx => ops::cpx_immediate(s, immediate, cycle),
            OpDelegateImmediate::Sbc => ops::sbc_immediate(s, immediate, cycle),
        }
    }
}

/// Names an operation routine that takes the address of its operand.
#[derive(Debug, Clone, Copy, PartialEq, Eq, Structural)]
pub enum OpDelegateAddress {
    Ora,
    Asl,
    Bpl,
    Jsr,
    And,
    Bit,
    Rol,
    Bmi,
    Eor,
    Lsr,
    Jmp,
    Bvc,
    Adc,
    Ror,
    Bvs,
    Sta,
    Sty,
    Stx,
    Bcc,
    Lda,
    Ldy,
    Ldx,
    Bcs,
    Cmp,
    Cpy,
    Dec,
    Bne,
    Sbc,
    Cpx,
    Inc,
    Beq,
    Reset,
    Interrupt,
}

impl OpDelegateAddress {
    /// The cycles on which the routine may be called: the reset and
    /// interrupt sequences end with their eighth.
    pub open spec fn accepts(self, cycle: u8) -> bool {
        (self is Reset || self is Interrupt) ==> cycle <= 8
    }

    /// The routine's mnemonic.
    #[verifier::allow_in_spec]
    pub fn mnemonic(self) -> &'static str
        returns
            (match self {
                OpDelegateAddress::Ora => "ORA",
                OpDelegateAddress::Asl => "ASL",
                OpDelegateAddress::Bpl => "BPL",
                OpDelegateAddress::Jsr => "JSR",
                OpDelegateAddress::And => "AND",
                OpDelegateAddress::Bit => "BIT",
                OpDelegateAddress::Rol => "ROL",
                OpDelegateAddress::Bmi => "BMI",
                OpDelegateAddress::Eor => "EOR",
                OpDelegateAddress::Lsr => "LSR",
                OpDelegateAddress::Jmp => "JMP",
                OpDelegateAddress::Bvc => "BVC",
                OpDelegateAddress::Adc => "ADC",
                OpDelegateAddress::Ror => "ROR",
                OpDelegateAddress::Bvs => "BVS",
                OpDelegateAddress::Sta => "STA",
                OpDelegateAddress::Sty => "STY",
                OpDelegateAddress::Stx => "STX",
                OpDelegateAddress::Bcc => "BCC",
                OpDelegateAddress::Lda => "LDA",
                OpDelegateAddress::Ldy => "LDY",
                OpDelegateAddress::Ldx => "LDX",
                OpDelegateAddress::Bcs => "BCS",
                OpDelegateAddress::Cmp => "CMP",
                OpDelegateAddress::Cpy => "CPY",
                OpDelegateAddress::Dec => "DEC",
                OpDelegateAddress::Bne => "BNE",
                OpDelegateAddress::Sbc => "SBC",
                OpDelegateAddress::Cpx => "CPX",
                OpDelegateAddress::Inc => "INC",
                OpDelegateAddress::Beq => "BEQ",
                OpDelegateAddress::Reset => "RESET",
                OpDelegateAddress::Interrupt => "IRQ",
            }),
    {
        match self {
            OpDelegateAddress::Ora => "ORA",
            OpDelegateAddress::Asl => "ASL",
            OpDelegateAddress::Bpl => "BPL",
            OpDelegateAddress::Jsr => "JSR",
            OpDelegateAddress::And => "AND",
            OpDelegateAddress::Bit => "BIT",
            OpDelegateAddress::Rol => "ROL",
            OpDelegateAddress::Bmi => "BMI",
            OpDelegateAddress::Eor => "EOR",
            OpDelegateAddress::Lsr => "LSR",
            OpDelegateAddress::Jmp => "JMP",
            OpDelegateAddress::Bvc => "BVC",
            OpDelegateAddress::Adc => "ADC",
            OpDelegateAddress::Ror => "ROR",
            OpDelegateAddress::Bvs => "BVS",
            OpDelegateAddress::Sta => "STA",
            OpDelegateAddress::Sty => "STY",
            OpDelegateAddress::Stx => "STX",
            OpDelegateAddress::Bcc => "BCC",
            OpDelegateAddress::Lda => "LDA",
            OpDelegateAddress::Ldy => "LDY",
            OpDelegateAddress::Ldx => "LDX",
            OpDelegateAddress::Bcs => "BCS",
            OpDelegateAddress::Cmp => "CMP",
            OpDelegateAddress::Cpy => "CPY",
            OpDelegateAddress::Dec => "DEC",
            OpDelegateAddress::Bne => "BNE",
            OpDelegateAddress::Sbc => "SBC",
            OpDelegateAddress::Cpx => "CPX",
            OpDelegateAddress::Inc => "INC",
            OpDelegateAddress::Beq => "BEQ",
            OpDelegateAddress::Reset => "RESET",
            OpDelegateAddress::Interrupt => "IRQ",
        }
    }

    /// State and bus request after the routine's call on `cycle`.
    pub open spec fn step(self, s: CpuState, address: u16, cycle: u8) -> (CpuState, BusMessage) {
        match self {
            OpDelegateAddress::Ora => ops::ora_address_spec(s, address, cycle),
            OpDelegateAddress::Asl => ops::asl_address_spec(s, address, cycle),
            OpDelegateAddress::Bpl => ops::bpl_address_spec(s, address, cycle),
            OpDelegateAddress::Jsr => ops::jsr_address_spec(s, address, cycle),
            OpDelegateAddress::And => ops::and_address_spec(s, address, cycle),
            OpDelegateAddress::Bit => ops::bit_address_spec(s, address, cycle),
            OpDelegateAddress::Rol => ops::rol_address_spec(s, address, cycle),
            OpDelegateAddress::Bmi => ops::bmi_address_spec(s, address, cycle),
            OpDelegateAddress::Eor => ops::eor_address_spec(s, address, cycle),
            OpDelegateAddress::Lsr => ops::lsr_address_spec(s, address, cycle),
            OpDelegateAddress::Jmp => ops::jmp_address_spec(s, address, cycle),
            OpDelegateAddress::Bvc => ops::bvc_address_spec(s, address, cycle),
            OpDelegateAddress::Adc => ops::adc_address_spec(s, address, cycle),
            OpDelegateAddress::Ror => ops::ror_address_spec(s, address, cycle),
            OpDelegateAddress::Bvs => ops::bvs_address_spec(s, address, cycle),
            OpDelegateAddress::Sta => ops::sta_address_spec(s, address, cycle),
            OpDelegateAddress::Sty => ops::sty_address_spec(s, address, cycle),
            OpDelegateAddress::Stx => ops::stx_address_spec(s, address, cycle),
            OpDelegateAddress::Bcc => ops::bcc_address_spec(s, address, cycle),
            OpDelegateAddress::Lda => ops::lda_address_spec(s, address, cycle),
            OpDelegateAddress::Ldy => ops::ldy_address_spec(s, address, cycle),
            OpDelegateAddress::Ldx => ops::ldx_address_spec(s, address, cycle),
            OpDelegateAddress::Bcs => ops::bcs_address_spec(s, address, cycle),
            OpDelegateAddress::Cmp => ops::cmp_address_spec(s, address, cycle),
            OpDelegateAddress::Cpy => ops::cpy_address_spec(s, address, cycle),
            OpDelegateAddress::Dec => ops::dec_address_spec(s, address, cycle),
            OpDelegateAddress::Bne => ops::bne_address_spec(s, address, cycle),
            OpDelegateAddress::Sbc => ops::sbc_address_spec(s, address, cycle),
            OpDelegateAddress::Cpx => ops::cpx_address_spec(s, address, cycle),
            OpDelegateAddress::Inc => ops::inc_address_spec(s, address, cycle),
            OpDelegateAddress::Beq => ops::beq_address_spec(s, address, cycle),
            OpDelegateAddress::Reset => ops::reset_spec(s, address, cycle),
            OpDelegateAddress::Interrupt => ops::interrupt_spec(s, address, cycle),
        }
    }

    /// Runs the routine.
    pub fn call(&self, s: &mut CpuState, address: u16, cycle: u8) -> (msg: BusMessage)
        requires
            self.accepts(cycle),
        ensures
            (*final(s), msg) == self.step(*old(s), address, cycle),
    {
        match self {
            OpDelegateAddress::Ora => ops::ora_address(s, address, cycle),
            OpDelegateAddress::Asl => ops::asl_address(s, address, cycle),
            OpDelegateAddress::Bpl => ops::bpl_address(s, address, cycle),
            OpDelegateAddress::Jsr => ops::jsr_address(s, address, cycle),
            OpDelegateAddress::And => ops::and_address(s, address, cycle),
            OpDelegateAddress::Bit => ops::bit_address(s, address, cycle),
            OpDelegateAddress::Rol => ops::rol_address(s, address, cycle),
            OpDelegateAddress::Bmi => ops::bmi_address(s, address, cycle),
            OpDelegateAddress::Eor => ops::eor_address(s, address, cycle),
            OpDelegateAddress::Lsr => ops::lsr_address(s, address, cycle),
            OpDelegateAddress::Jmp => ops::jmp_address(s, address, cycle),
            OpDelegateAddress::Bvc => ops::bvc_address(s, address, cycle),
            OpDelegateAddress::Adc => ops::adc_address(s, address, cycle),
            OpDelegateAddress::Ror => ops::ror_address(s, address, cycle),
            OpDelegateAddress::Bvs => ops::bvs_address(s, address, cycle),
            OpDelegateAddress::Sta => ops::sta_address(s, address, cycle),
            OpDelegateAddress::Sty => ops::sty_address(s, address, cycle),
            OpDelegateAddress::Stx => ops::stx_address(s, address, cycle),
            OpDelegateAddress::Bcc => ops::bcc_address(s, address, cycle),
            OpDelegateAddress::Lda => ops::lda_address(s, address, cycle),
            OpDelegateAddress::Ldy => ops::ldy_address(s, address, cycle),
            OpDelegateAddress::Ldx => ops::ldx_address(s, address, cycle),
            OpDelegateAddress::Bcs => ops::bcs_address(s, address, cycle),
            OpDelegateAddress::Cmp => ops::cmp_address(s, address, cycle),
            OpDelegateAddress::Cpy => ops::cpy_address(s, address, cycle),
            OpDelegateAddress::Dec => ops::dec_address(s, address, cycle),
            OpDelegateAddress::Bne => ops::bne_address(s, address, cycle),
            OpDelegateAddress::Sbc => ops::sbc_address(s, address, cycle),
            OpDelegateAddress::Cpx => ops::cpx_address(s, address, cycle),
            OpDelegateAddress::Inc => ops::inc_address(s, address, cycle),
            OpDelegateAddress::Beq => ops::beq_address(s, address, cycle),
            OpDelegateAddress::Reset => ops::reset(s, address, cycle),
            OpDelegateAddress::Interrupt => ops::interrupt(s, address, cycle),
        }
    }
}

/// An operation routine, tagged by the shape of operand it takes.
#[derive(Debug, Clone, Copy, PartialEq, Eq, Structural)]
pub enum OpDelegate {
    Implied(OpDelegateImplied),
    Immediate(OpDelegateImmediate),
    Address(OpDelegateAddress),
}

impl OpDelegate {
    /// The routine, if it takes no operand.
    pub fn implied(&self) -> (r: Option<&OpDelegateImplied>)
        ensures
            r == (match *self {
                OpDelegate::Implied(delegate) => Some(&delegate),
                _ => None,
            }),
    {
        if let OpDelegate::Implied(delegate) = self {
            Some(delegate)
        } else {
            None
        }
    }

    /// The routine, if it takes an operand byte.
    pub fn immediate(&self) -> (r: Option<&OpDelegateImmediate>)
        ensures
            r == (match *self {
                OpDelegate::Immediate(delegate) => Some(&delegate),
                _ => None,
            }),
    {
        if let OpDelegate::Immediate(delegate) = self {
            Some(delegate)
        } else {
            None
        }
    }

    /// The routine, if it takes an address.
    pub fn address(&self) -> (r: Option<&OpDelegateAddress>)
        ensures
            r == (match *self {
                OpDelegate::Address(delegate) => Some(&delegate),
                _ => None,
            }),
    {
        if let OpDelegate::Address(delegate) = self {
            Some(delegate)
        } else {
            None
        }
    }

    /// The routine's mnemonic.
    #[verifier::allow_in_spec]
    pub fn mnemonic(self) -> &'static str
        returns
            (match self {
                OpDelegate::Implied(delegate) => delegate.mnemonic(),
                OpDelegate::Immediate(delegate) => delegate.mnemonic(),
                OpDelegate::Address(delegate) => delegate.mnemonic(),
            }),
    {
        match self {
            OpDelegate::Implied(delegate) => delegate.mnemonic(),
            OpDelegate::Immediate(delegate) => delegate.mnemonic(),
            OpDelegate::Address(delegate) => delegate.mnemonic(),
        }
    }

    /// Whether the routine takes an operand of the shape of `operand`.
    pub open spec fn takes(self, operand: Operand) -> bool {
        match operand {
            Operand::Implied => self is Implied,
            Operand::Immediate(_) => self is Immediate,
            Operand::Address(_) => self is Address,
        }
    }
}

/// One entry of the instruction table.
#[derive(Debug, Clone, Copy)]
pub struct Instruction {
    /// Ticks the instruction takes, penalties not counted.
    pub cycles: u8,
    /// Bytes the instruction occupies, opcode included.
    pub bytes: u8,
    pub addr_delegate: AddrDelegate,
    pub op_delegate: OpDelegate,
    /// For disassembly.
    pub mnemonic: &'static str,
    /// For disassembly.
    pub addressing: &'static str,
}

impl Instruction {
    /// What holds of the entry of every opcode: its length is that of
    /// its addressing mode, its operation routine takes what its
    /// addressing routine returns, and its cycles suffice to fetch its
    /// bytes and form its address.
    pub open spec fn is_regular(self) -> bool {
        &&& self.bytes == self.addr_delegate.bytes()
        &&& self.addr_delegate.feeds(self.op_delegate)
        &&& self.bytes + self.addr_delegate.last_cycle() - 1 <= self.cycles <= 7
        &&& self.op_delegate != OpDelegate::Address(OpDelegateAddress::Reset)
        &&& self.op_delegate != OpDelegate::Address(OpDelegateAddress::Interrupt)
    }

    /// Whether this is one of the three entries that no opcode selects:
    /// reset, IRQ and NMI.
    pub open spec fn is_pseudo(self) -> bool {
        &&& self.cycles == 8
        &&& self.bytes == 0
        &&& self.addr_delegate == AddrDelegate::Imp
        &&& (self.op_delegate == OpDelegate::Address(OpDelegateAddress::Reset)
            || self.op_delegate == OpDelegate::Address(OpDelegateAddress::Interrupt))
    }
}

/// The entry that carries out a reset; its operand is the reset vector.
#[verifier::allow_in_spec]
pub fn reset_instruction() -> Instruction
    returns
        (Instruction {
            cycles: 8,
            bytes: 0,
            addr_delegate: AddrDelegate::Imp,
            op_delegate: OpDelegate::Address(OpDelegateAddress::Reset),
            mnemonic: "RESET",
            addressing: "Reset Vector",
        }),
{
    Instruction {
        cycles: 8,
        bytes: 0,
        addr_delegate: AddrDelegate::Imp,
        op_delegate: OpDelegate::Address(OpDelegateAddress::Reset),
        mnemonic: "RESET",
        addressing: "Reset Vector",
    }
}

/// The entry that services a maskable interrupt; its operand is the
/// IRQ vector.
#[verifier::allow_in_spec]
pub fn irq_instruction() -> Instruction
    returns
        (Instruction {
            cycles: 8,
            bytes: 0,
            addr_delegate: AddrDelegate::Imp,
            op_delegate: OpDelegate::Address(OpDelegateAddress::Interrupt),
            mnemonic: "IRQ",
            addressing: "IRQ Vector",
        }),
{
    Instruction {
        cycles: 8,
        bytes: 0,
        addr_delegate: AddrDelegate::Imp,
        op_delegate: OpDelegate::Address(OpDelegateAddress::Interrupt),
        mnemonic: "IRQ",
        addressing: "IRQ Vector",
    }
}

/// The entry that services a non-maskable interrupt; its operand is the
/// NMI vector.
#[verifier::allow_in_spec]
pub fn nmi_instruction() -> Instruction
    returns
        (Instruction {
            cycles: 8,
            bytes: 0,
            addr_delegate: AddrDelegate::Imp,
            op_delegate: OpDelegate::Address(OpDelegateAddress::Interrupt),
            mnemonic: "NMI",
            addressing: "NMI Vector",
        }),
{
    Instruction {
        cycles: 8,
        bytes: 0,
        addr_delegate: AddrDelegate::Imp,
        op_delegate: OpDelegate::Address(OpDelegateAddress::Interrupt),
        mnemonic: "NMI",
        addressing: "NMI Vector",
    }
}

/// The documented opcodes, each named by mnemonic and addressing mode.
#[derive(Debug, Clone, Copy, PartialEq, Eq, Structural)]
#[allow(non_camel_case_types)]
pub enum Opcode {
    BRK_imp,
    ORA_ind_x,
    ORA_zp,
    ASL_zp,
    PHP_imp,
    ORA_imm,
    ASL_acc,
    ORA_abs,
    ASL_abs,
    BPL_rel,
    ORA_ind_y,
    ORA_zp_x,
    ASL_zp_x,
    CLC_imp,
    ORA_abs_y,
    ORA_abs_x,
    ASL_abs_x,
    JSR_abs,
    AND_ind_x,
    BIT_zp,
    AND_zp,
    ROL_zp,
    PLP_imp,
    AND_imm,
    ROL_acc,
    BIT_abs,
    AND_abs,
    ROL_abs,
    BMI_rel,
    AND_ind_y,
    AND_zp_x,
    ROL_zp_x,
    SEC_imp,
    AND_abs_y,
    AND_abs_x,
    ROL_abs_x,
    RTI_imp,
    EOR_ind_x,
    EOR_zp,
    LSR_zp,
    PHA_imp,
    EOR_imm,
    LSR_acc,
    JMP_abs,
    EOR_abs,
    LSR_abs,
    BVC_rel,
    EOR_ind_y,
    EOR_zp_x,
    LSR_zp_x,
    CLI_imp,
    EOR_abs_y,
    EOR_abs_x,
    LSR_abs_x,
    RTS_imp,
    ADC_ind_x,
    ADC_zp,
    ROR_zp,
    PLA_imp,
    ADC_imm,
    ROR_acc,
    JMP_ind,
    ADC_abs,
    ROR_abs,
    BVS_rel,
    ADC_ind_y,
    ADC_zp_x,
    ROR_zp_x,
    SEI_imp,
    ADC_abs_y,
    ADC_abs_x,
    ROR_abs_x,
    STA_ind_x,
    STY_zp,
    STA_zp,
    STX_zp,
    DEY_imp,
    TXA_imp,
    STY_abs,
    STA_abs,
    STX_abs,
    BCC_rel,
    STA_ind_y,
    STY_zp_x,
    STA_zp_x,
    STX_zp_y,
    TYA_imp,
    STA_abs_y,
    TXS_imp,
    STA_abs_x,
    LDY_imm,
    LDA_ind_x,
    LDX_imm,
    LDY_zp,
    LDA_zp,
    LDX_zp,
    TAY_imp,
    LDA_imm,
    TAX_imp,
    LDY_abs,
    LDA_abs,
    LDX_abs,
    BCS_rel,
    LDA_ind_y,
    LDY_zp_x,
    LDA_zp_x,
    LDX_zp_y,
    CLV_imp,
    LDA_abs_y,
    TSX_imp,
    LDY_abs_x,
    LDA_abs_x,
    LDX_abs_y,
    CPY_imm,
    CMP_ind_x,
    CPY_zp,
    CMP_zp,
    DEC_zp,
    INY_imp,
    CMP_imm,
    DEX_imp,
    CPY_abs,
    CMP_abs,
    DEC_abs,
    BNE_rel,
    CMP_ind_y,
    CMP_zp_x,
    DEC_zp_x,
    CLD_imp,
    CMP_abs_y,
    CMP_abs_x,
    DEC_abs_x,
    CPX_imm,
    SBC_ind_x,
    CPX_zp,
    SBC_zp,
    INC_zp,
    INX_imp,
    SBC_imm,
    NOP_imp,
    CPX_abs,
    SBC_abs,
    INC_abs,
    BEQ_rel,
    SBC_ind_y,
    SBC_zp_x,
    INC_zp_x,
    SED_imp,
    SBC_abs_y,
    SBC_abs_x,
    INC_abs_x,
}

/// A table entry from its parts.
pub open spec fn entry(
    cycles: u8,
    bytes: u8,
    addr_delegate: AddrDelegate,
    op_delegate: OpDelegate,
    mnemonic: &'static str,
    addressing: &'static str,
) -> Instruction {
    Instruction { cycles, bytes, addr_delegate, op_delegate, mnemonic, addressing }
}

impl Opcode {
    /// The byte that encodes the opcode.
    pub open spec fn byte(self) -> u8 {
        match self {
            Opcode::BRK_imp => 0x00,
            Opcode::ORA_ind_x => 0x01,
            Opcode::ORA_zp => 0x05,
            Opcode::ASL_zp => 0x06,
            Opcode::PHP_imp => 0x08,
            Opcode::ORA_imm => 0x09,
            Opcode::ASL_acc => 0x0a,
            Opcode::ORA_abs => 0x0d,
            Opcode::ASL_abs => 0x0e,
            Opcode::BPL_rel => 0x10,
            Opcode::ORA_ind_y => 0x11,
            Opcode::ORA_zp_x => 0x15,
            Opcode::ASL_zp_x => 0x16,
            Opcode::CLC_imp => 0x18,
            Opcode::ORA_abs_y => 0x19,
            Opcode::ORA_abs_x => 0x1d,
            Opcode::ASL_abs_x => 0x1e,
            Opcode::JSR_abs => 0x20,
            Opcode::AND_ind_x => 0x21,
            Opcode::BIT_zp => 0x24,
            Opcode::AND_zp => 0x25,
            Opcode::ROL_zp => 0x26,
            Opcode::PLP_imp => 0x28,
            Opcode::AND_imm => 0x29,
            Opcode::ROL_acc => 0x2a,
            Opcode::BIT_abs => 0x2c,
            Opcode::AND_abs => 0x2d,
            Opcode::ROL_abs => 0x2e,
            Opcode::BMI_rel => 0x30,
            Opcode::AND_ind_y => 0x31,
            Opcode::AND_zp_x => 0x35,
            Opcode::ROL_zp_x => 0x36,
            Opcode::SEC_imp => 0x38,
            Opcode::AND_abs_y => 0x39,
            Opcode::AND_abs_x => 0x3d,
            Opcode::ROL_abs_x => 0x3e,
            Opcode::RTI_imp => 0x40,
            Opcode::EOR_ind_x => 0x41,
            Opcode::EOR_zp => 0x45,
            Opcode::LSR_zp => 0x46,
            Opcode::PHA_imp => 0x48,
            Opcode::EOR_imm => 0x49,
            Opcode::LSR_acc => 0x4a,
            Opcode::JMP_abs => 0x4c,
            Opcode::EOR_abs => 0x4d,
            Opcode::LSR_abs => 0x4e,
            Opcode::BVC_rel => 0x50,
            Opcode::EOR_ind_y => 0x51,
            Opcode::EOR_zp_x => 0x55,
            Opcode::LSR_zp_x => 0x56,
            Opcode::CLI_imp => 0x58,
            Opcode::EOR_abs_y => 0x59,
            Opcode::EOR_abs_x => 0x5d,
            Opcode::LSR_abs_x => 0x5e,
            Opcode::RTS_imp => 0x60,
            Opcode::ADC_ind_x => 0x61,
            Opcode::ADC_zp => 0x65,
            Opcode::ROR_zp => 0x66,
            Opcode::PLA_imp => 0x68,
            Opcode::ADC_imm => 0x69,
            Opcode::ROR_acc => 0x6a,
            Opcode::JMP_ind => 0x6c,
            Opcode::ADC_abs => 0x6d,
            Opcode::ROR_abs => 0x6e,
            Opcode::BVS_rel => 0x70,
            Opcode::ADC_ind_y => 0x71,
            Opcode::ADC_zp_x => 0x75,
            Opcode::ROR_zp_x => 0x76,
            Opcode::SEI_imp => 0x78,
            Opcode::ADC_abs_y => 0x79,
            Opcode::ADC_abs_x => 0x7d,
            Opcode::ROR_abs_x => 0x7e,
            Opcode::STA_ind_x => 0x81,
            Opcode::STY_zp => 0x84,
            Opcode::STA_zp => 0x85,
            Opcode::STX_zp => 0x86,
            Opcode::DEY_imp => 0x88,
            Opcode::TXA_imp => 0x8a,
            Opcode::STY_abs => 0x8c,
            Opcode::STA_abs => 0x8d,
            Opcode::STX_abs => 0x8e,
            Opcode::BCC_rel => 0x90,
            Opcode::STA_ind_y => 0x91,
            Opcode::STY_zp_x => 0x94,
            Opcode::STA_zp_x => 0x95,
            Opcode::STX_zp_y => 0x96,
            Opcode::TYA_imp => 0x98,
            Opcode::STA_abs_y => 0x99,
            Opcode::TXS_imp => 0x9a,
            Opcode::STA_abs_x => 0x9d,
            Opcode::LDY_imm => 0xa0,
            Opcode::LDA_ind_x => 0xa1,
            Opcode::LDX_imm => 0xa2,
            Opcode::LDY_zp => 0xa4,
            Opcode::LDA_zp => 0xa5,
            Opcode::LDX_zp => 0xa6,
            Opcode::TAY_imp => 0xa8,
            Opcode::LDA_imm => 0xa9,
            Opcode::TAX_imp => 0xaa,
            Opcode::LDY_abs => 0xac,
            Opcode::LDA_abs => 0xad,
            Opcode::LDX_abs => 0xae,
            Opcode::BCS_rel => 0xb0,
            Opcode::LDA_ind_y => 0xb1,
            Opcode::LDY_zp_x => 0xb4,
            Opcode::LDA_zp_x => 0xb5,
            Opcode::LDX_zp_y => 0xb6,
            Opcode::CLV_imp => 0xb8,
            Opcode::LDA_abs_y => 0xb9,
            Opcode::TSX_imp => 0xba,
            Opcode::LDY_abs_x => 0xbc,
            Opcode::LDA_abs_x => 0xbd,
            Opcode::LDX_abs_y => 0xbe,
            Opcode::CPY_imm => 0xc0,
            Opcode::CMP_ind_x => 0xc1,
            Opcode::CPY_zp => 0xc4,
            Opcode::CMP_zp => 0xc5,
            Opcode::DEC_zp => 0xc6,
            Opcode::INY_imp => 0xc8,
            Opcode::CMP_imm => 0xc9,
            Opcode::DEX_imp => 0xca,
            Opcode::CPY_abs => 0xcc,
            Opcode::CMP_abs => 0xcd,
            Opcode::DEC_abs => 0xce,
            Opcode::BNE_rel => 0xd0,
            Opcode::CMP_ind_y => 0xd1,
            Opcode::CMP_zp_x => 0xd5,
            Opcode::DEC_zp_x => 0xd6,
            Opcode::CLD_imp => 0xd8,
            Opcode::CMP_abs_y => 0xd9,
            Opcode::CMP_abs_x => 0xdd,
            Opcode::DEC_abs_x => 0xde,
            Opcode::CPX_imm => 0xe0,
            Opcode::SBC_ind_x => 0xe1,
            Opcode::CPX_zp => 0xe4,
            Opcode::SBC_zp => 0xe5,
            Opcode::INC_zp => 0xe6,
            Opcode::INX_imp => 0xe8,
            Opcode::SBC_imm => 0xe9,
            Opcode::NOP_imp => 0xea,
            Opcode::CPX_abs => 0xec,
            Opcode::SBC_abs => 0xed,
            Opcode::INC_abs => 0xee,
            Opcode::BEQ_rel => 0xf0,
            Opcode::SBC_ind_y => 0xf1,
            Opcode::SBC_zp_x => 0xf5,
            Opcode::INC_zp_x => 0xf6,
            Opcode::SED_imp => 0xf8,
            Opcode::SBC_abs_y => 0xf9,
            Opcode::SBC_abs_x => 0xfd,
            Opcode::INC_abs_x => 0xfe,
        }
    }

    /// No two opcodes share a byte.
    pub proof fn byte_is_injective(self, other: Opcode)
        requires
            self.byte() == other.byte(),
        ensures
            self == other,
    {
    }

    /// The opcode that `byte` encodes, if one does.
    pub open spec fn decode(byte: u8) -> Option<Opcode> {
        if exists|op: Opcode| op.byte() == byte {
            Some(choose|op: Opcode| op.byte() == byte)
        } else {
            None
        }
    }

    /// Decoding undoes encoding.
    pub proof fn decode_of_byte(self)
        ensures
            Opcode::decode(self.byte()) == Some(self),
    {
        let chosen = choose|op: Opcode| op.byte() == self.byte();
        chosen.byte_is_injective(self);
    }

    /// The opcode that `byte` encodes. The other 105 bytes encode none.
    pub fn from_u8(byte: u8) -> (r: Option<Opcode>)
        ensures
            r == Opcode::decode(byte),
            r matches Some(op) ==> op.byte() == byte,
            r is None ==> forall|op: Opcode| op.byte() != byte,
    {
        let r = match byte {
            0x00 => Some(Opcode::BRK_imp),
            0x01 => Some(Opcode::ORA_ind_x),
            0x05 => Some(Opcode::ORA_zp),
            0x06 => Some(Opcode::ASL_zp),
            0x08 => Some(Opcode::PHP_imp),
            0x09 => Some(Opcode::ORA_imm),
            0x0a => Some(Opcode::ASL_acc),
            0x0d => Some(Opcode::ORA_abs),
            0x0e => Some(Opcode::ASL_abs),
            0x10 => Some(Opcode::BPL_rel),
            0x11 => Some(Opcode::ORA_ind_y),
            0x15 => Some(Opcode::ORA_zp_x),
            0x16 => Some(Opcode::ASL_zp_x),
            0x18 => Some(Opcode::CLC_imp),
            0x19 => Some(Opcode::ORA_abs_y),
            0x1d => Some(Opcode::ORA_abs_x),
            0x1e => Some(Opcode::ASL_abs_x),
            0x20 => Some(Opcode::JSR_abs),
            0x21 => Some(Opcode::AND_ind_x),
            0x24 => Some(Opcode::BIT_zp),
            0x25 => Some(Opcode::AND_zp),
            0x26 => Some(Opcode::ROL_zp),
            0x28 => Some(Opcode::PLP_imp),
            0x29 => Some(Opcode::AND_imm),
            0x2a => Some(Opcode::ROL_acc),
            0x2c => Some(Opcode::BIT_abs),
            0x2d => Some(Opcode::AND_abs),
            0x2e => Some(Opcode::ROL_abs),
            0x30 => Some(Opcode::BMI_rel),
            0x31 => Some(Opcode::AND_ind_y),
            0x35 => Some(Opcode::AND_zp_x),
            0x36 => Some(Opcode::ROL_zp_x),
            0x38 => Some(Opcode::SEC_imp),
            0x39 => Some(Opcode::AND_abs_y),
            0x3d => Some(Opcode::AND_abs_x),
            0x3e => Some(Opcode::ROL_abs_x),
            0x40 => Some(Opcode::RTI_imp),
            0x41 => Some(Opcode::EOR_ind_x),
            0x45 => Some(Opcode::EOR_zp),
            0x46 => Some(Opcode::LSR_zp),
            0x48 => Some(Opcode::PHA_imp),
            0x49 => Some(Opcode::EOR_imm),
            0x4a => Some(Opcode::LSR_acc),
            0x4c => Some(Opcode::JMP_abs),
            0x4d => Some(Opcode::EOR_abs),
            0x4e => Some(Opcode::LSR_abs),
            0x50 => Some(Opcode::BVC_rel),
            0x51 => Some(Opcode::EOR_ind_y),
            0x55 => Some(Opcode::EOR_zp_x),
            0x56 => Some(Opcode::LSR_zp_x),
            0x58 => Some(Opcode::CLI_imp),
            0x59 => Some(Opcode::EOR_abs_y),
            0x5d => Some(Opcode::EOR_abs_x),
            0x5e => Some(Opcode::LSR_abs_x),
            0x60 => Some(Opcode::RTS_imp),
            0x61 => Some(Opcode::ADC_ind_x),
            0x65 => Some(Opcode::ADC_zp),
            0x66 => Some(Opcode::ROR_zp),
            0x68 => Some(Opcode::PLA_imp),
            0x69 => Some(Opcode::ADC_imm),
            0x6a => Some(Opcode::ROR_acc),
            0x6c => Some(Opcode::JMP_ind),
            0x6d => Some(Opcode::ADC_abs),
            0x6e => Some(Opcode::ROR_abs),
            0x70 => Some(Opcode::BVS_rel),
            0x71 => Some(Opcode::ADC_ind_y),
            0x75 => Some(Opcode::ADC_zp_x),
            0x76 => Some(Opcode::ROR_zp_x),
            0x78 => Some(Opcode::SEI_imp),
            0x79 => Some(Opcode::ADC_abs_y),
            0x7d => Some(Opcode::ADC_abs_x),
            0x7e => Some(Opcode::ROR_abs_x),
            0x81 => Some(Opcode::STA_ind_x),
            0x84 => Some(Opcode::STY_zp),
            0x85 => Some(Opcode::STA_zp),
            0x86 => Some(Opcode::STX_zp),
            0x88 => Some(Opcode::DEY_imp),
            0x8a => Some(Opcode::TXA_imp),
            0x8c => Some(Opcode::STY_abs),
            0x8d => Some(Opcode::STA_abs),
            0x8e => Some(Opcode::STX_abs),
            0x90 => Some(Opcode::BCC_rel),
            0x91 => Some(Opcode::STA_ind_y),
            0x94 => Some(Opcode::STY_zp_x),
            0x95 => Some(Opcode::STA_zp_x),
            0x96 => Some(Opcode::STX_zp_y),
            0x98 => Some(Opcode::TYA_imp),
            0x99 => Some(Opcode::STA_abs_y),
            0x9a => Some(Opcode::TXS_imp),
            0x9d => Some(Opcode::STA_abs_x),
            0xa0 => Some(Opcode::LDY_imm),
            0xa1 => Some(Opcode::LDA_ind_x),
            0xa2 => Some(Opcode::LDX_imm),
            0xa4 => Some(Opcode::LDY_zp),
            0xa5 => Some(Opcode::LDA_zp),
            0xa6 => Some(Opcode::LDX_zp),
            0xa8 => Some(Opcode::TAY_imp),
            0xa9 => Some(Opcode::LDA_imm),
            0xaa => Some(Opcode::TAX_imp),
            0xac => Some(Opcode::LDY_abs),
            0xad => Some(Opcode::LDA_abs),
            0xae => Some(Opcode::LDX_abs),
            0xb0 => Some(Opcode::BCS_rel),
            0xb1 => Some(Opcode::LDA_ind_y),
            0xb4 => Some(Opcode::LDY_zp_x),
            0xb5 => Some(Opcode::LDA_zp_x),
            0xb6 => Some(Opcode::LDX_zp_y),
            0xb8 => Some(Opcode::CLV_imp),
            0xb9 => Some(Opcode::LDA_abs_y),
            0xba => Some(Opcode::TSX_imp),
            0xbc => Some(Opcode::LDY_abs_x),
            0xbd => Some(Opcode::LDA_abs_x),
            0xbe => Some(Opcode::LDX_abs_y),
            0xc0 => Some(Opcode::CPY_imm),
            0xc1 => Some(Opcode::CMP_ind_x),
            0xc4 => Some(Opcode::CPY_zp),
            0xc5 => Some(Opcode::CMP_zp),
            0xc6 => Some(Opcode::DEC_zp),
            0xc8 => Some(Opcode::INY_imp),
            0xc9 => Some(Opcode::CMP_imm),
            0xca => Some(Opcode::DEX_imp),
            0xcc => Some(Opcode::CPY_abs),
            0xcd => Some(Opcode::CMP_abs),
            0xce => Some(Opcode::DEC_abs),
            0xd0 => Some(Opcode::BNE_rel),
            0xd1 => Some(Opcode::CMP_ind_y),
            0xd5 => Some(Opcode::CMP_zp_x),
            0xd6 => Some(Opcode::DEC_zp_x),
            0xd8 => Some(Opcode::CLD_imp),
            0xd9 => Some(Opcode::CMP_abs_y),
            0xdd => Some(Opcode::CMP_abs_x),
            0xde => Some(Opcode::DEC_abs_x),
            0xe0 => Some(Opcode::CPX_imm),
            0xe1 => Some(Opcode::SBC_ind_x),
            0xe4 => Some(Opcode::CPX_zp),
            0xe5 => Some(Opcode::SBC_zp),
            0xe6 => Some(Opcode::INC_zp),
            0xe8 => Some(Opcode::INX_imp),
            0xe9 => Some(Opcode::SBC_imm),
            0xea => Some(Opcode::NOP_imp),
            0xec => Some(Opcode::CPX_abs),
            0xed => Some(Opcode::SBC_abs),
            0xee => Some(Opcode::INC_abs),
            0xf0 => Some(Opcode::BEQ_rel),
            0xf1 => Some(Opcode::SBC_ind_y),
            0xf5 => Some(Opcode::SBC_zp_x),
            0xf6 => Some(Opcode::INC_zp_x),
            0xf8 => Some(Opcode::SED_imp),
            0xf9 => Some(Opcode::SBC_abs_y),
            0xfd => Some(Opcode::SBC_abs_x),
            0xfe => Some(Opcode::INC_abs_x),
            _ => None,
        };
        proof {
            if let Some(op) = r {
                assert(op.byte() == byte);
                let chosen = choose|op: Opcode| op.byte() == byte;
                chosen.byte_is_injective(op);
            }
        }
        r
    }

    /// The opcode's entry in the instruction table.
    pub open spec fn instruction(self) -> Instruction {
        match self {
            Opcode::BRK_imp => entry(
                7,
                1,
                AddrDelegate::Imp,
                OpDelegate::Implied(OpDelegateImplied::Brk),
                "BRK",
                "Implied",
            ),
            Opcode::ORA_ind_x => entry(
                6,
                2,
                AddrDelegate::IndX,
                OpDelegate::Address(OpDelegateAddress::Ora),
                "ORA",
                "(IND, X)",
            ),
            Opcode::ORA_zp => entry(
                3,
                2,
                AddrDelegate::Zp,
                OpDelegate::Address(OpDelegateAddress::Ora),
                "ORA",
                "ZP",
            ),
            Opcode::ASL_zp => entry(
                5,
                2,
                AddrDelegate::Zp,
                OpDelegate::Address(OpDelegateAddress::Asl),
                "ASL",
                "ZP",
            ),
            Opcode::PHP_imp => entry(
                3,
                1,
                AddrDelegate::Imp,
                OpDelegate::Implied(OpDelegateImplied::Php),
                "PHP",
                "Implied",
            ),
            Opcode::ORA_imm => entry(
                2,
                2,
                AddrDelegate::Imm,
                OpDelegate::Immediate(OpDelegateImmediate::Ora),
                "ORA",
                "IMM",
            ),
            Opcode::ASL_acc => entry(
                2,
                1,
                AddrDelegate::Acc,
                OpDelegate::Implied(OpDelegateImplied::Asl),
                "ASL",
                "Accum",
            ),
            Opcode::ORA_abs => entry(
                4,
                3,
                AddrDelegate::Abs,
                OpDelegate::Address(OpDelegateAddress::Ora),
                "ORA",
                "Absolute",
            ),
            Opcode::ASL_abs => entry(
                6,
                3,
                AddrDelegate::Abs,
                OpDelegate::Address(OpDelegateAddress::Asl),
                "ASL",
                "Absolute",
            ),
            Opcode::BPL_rel => entry(
                2,
                2,
                AddrDelegate::Rel,
                OpDelegate::Address(OpDelegateAddress::Bpl),
                "BPL",
                "Relative",
            ),
            Opcode::ORA_ind_y => entry(
                5,
                2,
                AddrDelegate::IndYExtra,
                OpDelegate::Address(OpDelegateAddress::Ora),
                "ORA",
                "(IND), Y",
            ),
            Opcode::ORA_zp_x => entry(
                4,
                2,
                AddrDelegate::ZpX,
                OpDelegate::Address(OpDelegateAddress::Ora),
                "ORA",
                "ZP, X",
            ),
            Opcode::ASL_zp_x => entry(
                6,
                2,
                AddrDelegate::ZpX,
                OpDelegate::Address(OpDelegateAddress::Asl),
                "ASL",
                "ZP, X",
            ),
            Opcode::CLC_imp => entry(
                2,
                1,
                AddrDelegate::Imp,
                OpDelegate::Implied(OpDelegateImplied::Clc),
                "CLC",
                "Implied",
            ),
            Opcode::ORA_abs_y => entry(
                4,
                3,
                AddrDelegate::AbsYExtra,
                OpDelegate::Address(OpDelegateAddress::Ora),
                "ORA",
                "ABS, Y",
            ),
            Opcode::ORA_abs_x => entry(
                4,
                3,
                AddrDelegate::AbsXExtra,
                OpDelegate::Address(OpDelegateAddress::Ora),
                "ORA",
                "ABS, X",
            ),
            Opcode::ASL_abs_x => entry(
                7,
                3,
                AddrDelegate::AbsX,
                OpDelegate::Address(OpDelegateAddress::Asl),
                "ASL",
                "ABS, X",
            ),
            Opcode::JSR_abs => entry(
                6,
                3,
                AddrDelegate::Abs,
                OpDelegate::Address(OpDelegateAddress::Jsr),
                "JSR",
                "Absolute",
            ),
            Opcode::AND_ind_x => entry(
                6,
                2,
                AddrDelegate::IndX,
                OpDelegate::Address(OpDelegateAddress::And),
                "AND",
                "(IND, X)",
            ),
            Opcode::BIT_zp => entry(
                3,
                2,
                AddrDelegate::Zp,
                OpDelegate::Address(OpDelegateAddress::Bit),
                "BIT",
                "ZP",
            ),
            Opcode::AND_zp => entry(
                3,
                2,
                AddrDelegate::Zp,
                OpDelegate::Address(OpDelegateAddress::And),
                "AND",
                "ZP",
            ),
            Opcode::ROL_zp => entry(
                5,
                2,
                AddrDelegate::Zp,
                OpDelegate::Address(OpDelegateAddress::Rol),
                "ROL",
                "ZP",
            ),
            Opcode::PLP_imp => entry(
                4,
                1,
                AddrDelegate::Imp,
                OpDelegate::Implied(OpDelegateImplied::Plp),
                "PLP",
                "Implied",
            ),
            Opcode::AND_imm => entry(
                2,
                2,
                AddrDelegate::Imm,
                OpDelegate::Immediate(OpDelegateImmediate::And),
                "AND",
                "IMM",
            ),
            Opcode::ROL_acc => entry(
                2,
                1,
                AddrDelegate::Acc,
                OpDelegate::Implied(OpDelegateImplied::Rol),
                "ROL",
                "Accum",
            ),
            Opcode::BIT_abs => entry(
                4,
                3,
                AddrDelegate::Abs,
                OpDelegate::Address(OpDelegateAddress::Bit),
                "BIT",
                "Absolute",
            ),
            Opcode::AND_abs => entry(
                4,
                3,
                AddrDelegate::Abs,
                OpDelegate::Address(OpDelegateAddress::And),
                "AND",
                "Absolute",
            ),
            Opcode::ROL_abs => entry(
                6,
                3,
                AddrDelegate::Abs,
                OpDelegate::Address(OpDelegateAddress::Rol),
                "ROL",
                "Absolute",
            ),
            Opcode::BMI_rel => entry(
                2,
                2,
                AddrDelegate::Rel,
                OpDelegate::Address(OpDelegateAddress::Bmi),
                "BMI",
                "Relative",
            ),
            Opcode::AND_ind_y => entry(
                5,
                2,
                AddrDelegate::IndYExtra,
                OpDelegate::Address(OpDelegateAddress::And),
                "AND",
                "(IND), Y",
            ),
            Opcode::AND_zp_x => entry(
                4,
                2,
                AddrDelegate::ZpX,
                OpDelegate::Address(OpDelegateAddress::And),
                "AND",
                "ZP, X",
            ),
            Opcode::ROL_zp_x => entry(
                6,
                2,
                AddrDelegate::ZpX,
                OpDelegate::Address(OpDelegateAddress::Rol),
                "ROL",
                "ZP, X",
            ),
            Opcode::SEC_imp => entry(
                2,
                1,
                AddrDelegate::Imp,
                OpDelegate::Implied(OpDelegateImplied::Sec),
                "SEC",
                "Implied",
            ),
            Opcode::AND_abs_y => entry(
                4,
                3,
                AddrDelegate::AbsYExtra,
                OpDelegate::Address(OpDelegateAddress::And),
                "AND",
                "ABS, Y",
            ),
            Opcode::AND_abs_x => entry(
                4,
                3,
                AddrDelegate::AbsXExtra,
                OpDelegate::Address(OpDelegateAddress::And),
                "AND",
                "ABS, X",
            ),
            Opcode::ROL_abs_x => entry(
                7,
                3,
                AddrDelegate::AbsX,
                OpDelegate::Address(OpDelegateAddress::Rol),
                "ROL",
                "ABS, X",
            ),
            Opcode::RTI_imp => entry(
                6,
                1,
                AddrDelegate::Imp,
                OpDelegate::Implied(OpDelegateImplied::Rti),
                "RTI",
                "Implied",
            ),
            Opcode::EOR_ind_x => entry(
                6,
                2,
                AddrDelegate::IndX,
                OpDelegate::Address(OpDelegateAddress::Eor),
                "EOR",
                "(IND, X)",
            ),
            Opcode::EOR_zp => entry(
                3,
                2,
                AddrDelegate::Zp,
                OpDelegate::Address(OpDelegateAddress::Eor),
                "EOR",
                "ZP",
            ),
            Opcode::LSR_zp => entry(
                5,
                2,
                AddrDelegate::Zp,
                OpDelegate::Address(OpDelegateAddress::Lsr),
                "LSR",
                "ZP",
            ),
            Opcode::PHA_imp => entry(
                3,
                1,
                AddrDelegate::Imp,
                OpDelegate::Implied(OpDelegateImplied::Pha),
                "PHA",
                "Implied",
            ),
            Opcode::EOR_imm => entry(
                2,
                2,
                AddrDelegate::Imm,
                OpDelegate::Immediate(OpDelegateImmediate::Eor),
                "EOR",
                "IMM",
            ),
            Opcode::LSR_acc => entry(
                2,
                1,
                AddrDelegate::Acc,
                OpDelegate::Implied(OpDelegateImplied::Lsr),
                "LSR",
                "Accum",
            ),
            Opcode::JMP_abs => entry(
                3,
                3,
                AddrDelegate::Abs,
                OpDelegate::Address(OpDelegateAddress::Jmp),
                "JMP",
                "Absolute",
            ),
            Opcode::EOR_abs => entry(
                4,
                3,
                AddrDelegate::Abs,
                OpDelegate::Address(OpDelegateAddress::Eor),
                "EOR",
                "Absolute",
            ),
            Opcode::LSR_abs => entry(
                6,
                3,
                AddrDelegate::Abs,
                OpDelegate::Address(OpDelegateAddress::Lsr),
                "LSR",
                "Absolute",
            ),
            Opcode::BVC_rel => entry(
                2,
                2,
                AddrDelegate::Rel,
                OpDelegate::Address(OpDelegateAddress::Bvc),
                "BVC",
                "Relative",
            ),
            Opcode::EOR_ind_y => entry(
                5,
                2,
                AddrDelegate::IndYExtra,
                OpDelegate::Address(OpDelegateAddress::Eor),
                "EOR",
                "(IND), Y",
            ),
            Opcode::EOR_zp_x => entry(
                4,
                2,
                AddrDelegate::ZpX,
                OpDelegate::Address(OpDelegateAddress::Eor),
                "EOR",
                "ZP, X",
            ),
            Opcode::LSR_zp_x => entry(
                6,
                2,
                AddrDelegate::ZpX,
                OpDelegate::Address(OpDelegateAddress::Lsr),
                "LSR",
                "ZP, X",
            ),
            Opcode::CLI_imp => entry(
                2,
                1,
                AddrDelegate::Imp,
                OpDelegate::Implied(OpDelegateImplied::Cli),
                "CLI",
                "Implied",
            ),
            Opcode::EOR_abs_y => entry(
                4,
                3,
                AddrDelegate::AbsYExtra,
                OpDelegate::Address(OpDelegateAddress::Eor),
                "EOR",
                "ABS, Y",
            ),
            Opcode::EOR_abs_x => entry(
                4,
                3,
                AddrDelegate::AbsXExtra,
                OpDelegate::Address(OpDelegateAddress::Eor),
                "EOR",
                "ABS, X",
            ),
            Opcode::LSR_abs_x => entry(
                7,
                3,
                AddrDelegate::AbsX,
                OpDelegate::Address(OpDelegateAddress::Lsr),
                "LSR",
                "ABS, X",
            ),
            Opcode::RTS_imp => entry(
                6,
                1,
                AddrDelegate::Imp,
                OpDelegate::Implied(OpDelegateImplied::Rts),
                "RTS",
                "Implied",
            ),
            Opcode::ADC_ind_x => entry(
                6,
                2,
                AddrDelegate::IndX,
                OpDelegate::Address(OpDelegateAddress::Adc),
                "ADC",
                "(IND, X)",
            ),
            Opcode::ADC_zp => entry(
                3,
                2,
                AddrDelegate::Zp,
                OpDelegate::Address(OpDelegateAddress::Adc),
                "ADC",
                "ZP",
            ),
            Opcode::ROR_zp => entry(
                5,
                2,
                AddrDelegate::Zp,
                OpDelegate::Address(OpDelegateAddress::Ror),
                "ROR",
                "ZP",
            ),
            Opcode::PLA_imp => entry(
                4,
                1,
                AddrDelegate::Imp,
                OpDelegate::Implied(OpDelegateImplied::Pla),
                "PLA",
                "Implied",
            ),
            Opcode::ADC_imm => entry(
                2,
                2,
                AddrDelegate::Imm,
                OpDelegate::Immediate(OpDelegateImmediate::Adc),
                "ADC",
                "IMM",
            ),
            Opcode::ROR_acc => entry(
                2,
                1,
                AddrDelegate::Acc,
                OpDelegate::Implied(OpDelegateImplied::Ror),
                "ROR",
                "Accum",
            ),
            Opcode::JMP_ind => entry(
                5,
                3,
                AddrDelegate::Ind,
                OpDelegate::Address(OpDelegateAddress::Jmp),
                "JMP",
                "Indirect",
            ),
            Opcode::ADC_abs => entry(
                4,
                3,
                AddrDelegate::Abs,
                OpDelegate::Address(OpDelegateAddress::Adc),
                "ADC",
                "Absolute",
            ),
            Opcode::ROR_abs => entry(
                6,
                3,
                AddrDelegate::Abs,
                OpDelegate::Address(OpDelegateAddress::Ror),
                "ROR",
                "Absolute",
            ),
            Opcode::BVS_rel => entry(
                2,
                2,
                AddrDelegate::Rel,
                OpDelegate::Address(OpDelegateAddress::Bvs),
                "BVS",
                "Relative",
            ),
            Opcode::ADC_ind_y => entry(
                5,
                2,
                AddrDelegate::IndYExtra,
                OpDelegate::Address(OpDelegateAddress::Adc),
                "ADC",
                "(IND), Y",
            ),
            Opcode::ADC_zp_x => entry(
                4,
                2,
                AddrDelegate::ZpX,
                OpDelegate::Address(OpDelegateAddress::Adc),
                "ADC",
                "ZP, X",
            ),
            Opcode::ROR_zp_x => entry(
                6,
                2,
                AddrDelegate::ZpX,
                OpDelegate::Address(OpDelegateAddress::Ror),
                "ROR",
                "ZP, X",
            ),
            Opcode::SEI_imp => entry(
                2,
                1,
                AddrDelegate::Imp,
                OpDelegate::Implied(OpDelegateImplied::Sei),
                "SEI",
                "Implied",
            ),
            Opcode::ADC_abs_y => entry(
                4,
                3,
                AddrDelegate::AbsYExtra,
                OpDelegate::Address(OpDelegateAddress::Adc),
                "ADC",
                "ABS, Y",
            ),
            Opcode::ADC_abs_x => entry(
                4,
                3,
                AddrDelegate::AbsXExtra,
                OpDelegate::Address(OpDelegateAddress::Adc),
                "ADC",
                "ABS, X",
            ),
            Opcode::ROR_abs_x => entry(
                7,
                3,
                AddrDelegate::AbsX,
                OpDelegate::Address(OpDelegateAddress::Ror),
                "ROR",
                "ABS, X",
            ),
            Opcode::STA_ind_x => entry(
                6,
                2,
                AddrDelegate::IndX,
                OpDelegate::Address(OpDelegateAddress::Sta),
                "STA",
                "(IND, X)",
            ),
            Opcode::STY_zp => entry(
                3,
                2,
                AddrDelegate::Zp,
                OpDelegate::Address(OpDelegateAddress::Sty),
                "STY",
                "ZP",
            ),
            Opcode::STA_zp => entry(
                3,
                2,
                AddrDelegate::Zp,
                OpDelegate::Address(OpDelegateAddress::Sta),
                "STA",
                "ZP",
            ),
            Opcode::STX_zp => entry(
                3,
                2,
                AddrDelegate::Zp,
                OpDelegate::Address(OpDelegateAddress::Stx),
                "STX",
                "ZP",
            ),
            Opcode::DEY_imp => entry(
                2,
                1,
                AddrDelegate::Imp,
                OpDelegate::Implied(OpDelegateImplied::Dey),
                "DEY",
                "Implied",
            ),
            Opcode::TXA_imp => entry(
                2,
                1,
                AddrDelegate::Imp,
                OpDelegate::Implied(OpDelegateImplied::Txa),
                "TXA",
                "Implied",
            ),
            Opcode::STY_abs => entry(
                4,
                3,
                AddrDelegate::Abs,
                OpDelegate::Address(OpDelegateAddress::Sty),
                "STY",
                "Absolute",
            ),
            Opcode::STA_abs => entry(
                4,
                3,
                AddrDelegate::Abs,
                OpDelegate::Address(OpDelegateAddress::Sta),
                "STA",
                "Absolute",
            ),
            Opcode::STX_abs => entry(
                4,
                3,
                AddrDelegate::Abs,
                OpDelegate::Address(OpDelegateAddress::Stx),
                "STX",
                "Absolute",
            ),
            Opcode::BCC_rel => entry(
                2,
                2,
                AddrDelegate::Rel,
                OpDelegate::Address(OpDelegateAddress::Bcc),
                "BCC",
                "Relative",
            ),
            Opcode::STA_ind_y => entry(
                6,
                2,
                AddrDelegate::IndY,
                OpDelegate::Address(OpDelegateAddress::Sta),
                "STA",
                "(IND), Y",
            ),
            Opcode::STY_zp_x => entry(
                4,
                2,
                AddrDelegate::ZpX,
                OpDelegate::Address(OpDelegateAddress::Sty),
                "STY",
                "ZP, X",
            ),
            Opcode::STA_zp_x => entry(
                4,
                2,
                AddrDelegate::ZpX,
                OpDelegate::Address(OpDelegateAddress::Sta),
                "STA",
                "ZP, X",
            ),
            Opcode::STX_zp_y => entry(
                4,
                2,
                AddrDelegate::ZpY,
                OpDelegate::Address(OpDelegateAddress::Stx),
                "STX",
                "ZP, Y",
            ),
            Opcode::TYA_imp => entry(
                2,
                1,
                AddrDelegate::Imp,
                OpDelegate::Implied(OpDelegateImplied::Tya),
                "TYA",
                "Implied",
            ),
            Opcode::STA_abs_y => entry(
                5,
                3,
                AddrDelegate::AbsY,
                OpDelegate::Address(OpDelegateAddress::Sta),
                "STA",
                "ABS, Y",
            ),
            Opcode::TXS_imp => entry(
                2,
                1,
                AddrDelegate::Imp,
                OpDelegate::Implied(OpDelegateImplied::Txs),
                "TXS",
                "Implied",
            ),
            Opcode::STA_abs_x => entry(
                5,
                3,
                AddrDelegate::AbsX,
                OpDelegate::Address(OpDelegateAddress::Sta),
                "STA",
                "ABS, X",
            ),
            Opcode::LDY_imm => entry(
                2,
                2,
                AddrDelegate::Imm,
                OpDelegate::Immediate(OpDelegateImmediate::Ldy),
                "LDY",
                "IMM",
            ),
            Opcode::LDA_ind_x => entry(
                6,
                2,
                AddrDelegate::IndX,
                OpDelegate::Address(OpDelegateAddress::Lda),
                "LDA",
                "(IND, X)",
            ),
            Opcode::LDX_imm => entry(
                2,
                2,
                AddrDelegate::Imm,
                OpDelegate::Immediate(OpDelegateImmediate::Ldx),
                "LDX",
                "IMM",
            ),
            Opcode::LDY_zp => entry(
                3,
                2,
                AddrDelegate::Zp,
                OpDelegate::Address(OpDelegateAddress::Ldy),
                "LDY",
                "ZP",
            ),
            Opcode::LDA_zp => entry(
                3,
                2,
                AddrDelegate::Zp,
                OpDelegate::Address(OpDelegateAddress::Lda),
                "LDA",
                "ZP",
            ),
            Opcode::LDX_zp => entry(
                3,
                2,
                AddrDelegate::Zp,
                OpDelegate::Address(OpDelegateAddress::Ldx),
                "LDX",
                "ZP",
            ),
            Opcode::TAY_imp => entry(
                2,
                1,
                AddrDelegate::Imp,
                OpDelegate::Implied(OpDelegateImplied::Tay),
                "TAY",
                "Implied",
            ),
            Opcode::LDA_imm => entry(
                2,
                2,
                AddrDelegate::Imm,
                OpDelegate::Immediate(OpDelegateImmediate::Lda),
                "LDA",
                "IMM",
            ),
            Opcode::TAX_imp => entry(
                2,
                1,
                AddrDelegate::Imp,
                OpDelegate::Implied(OpDelegateImplied::Tax),
                "TAX",
                "Implied",
            ),
            Opcode::LDY_abs => entry(
                4,
                3,
                AddrDelegate::Abs,
                OpDelegate::Address(OpDelegateAddress::Ldy),
                "LDY",
                "Absolute",
            ),
            Opcode::LDA_abs => entry(
                4,
                3,
                AddrDelegate::Abs,
                OpDelegate::Address(OpDelegateAddress::Lda),
                "LDA",
                "Absolute",
            ),
            Opcode::LDX_abs => entry(
                4,
                3,
                AddrDelegate::Abs,
                OpDelegate::Address(OpDelegateAddress::Ldx),
                "LDX",
                "Absolute",
            ),
            Opcode::BCS_rel => entry(
                2,
                2,
                AddrDelegate::Rel,
                OpDelegate::Address(OpDelegateAddress::Bcs),
                "BCS",
                "Relative",
            ),
            Opcode::LDA_ind_y => entry(
                5,
                2,
                AddrDelegate::IndYExtra,
                OpDelegate::Address(OpDelegateAddress::Lda),
                "LDA",
                "(IND), Y",
            ),
            Opcode::LDY_zp_x => entry(
                4,
                2,
                AddrDelegate::ZpX,
                OpDelegate::Address(OpDelegateAddress::Ldy),
                "LDY",
                "ZP, X",
            ),
            Opcode::LDA_zp_x => entry(
                4,
                2,
                AddrDelegate::ZpX,
                OpDelegate::Address(OpDelegateAddress::Lda),
                "LDA",
                "ZP, X",
            ),
            Opcode::LDX_zp_y => entry(
                4,
                2,
                AddrDelegate::ZpY,
                OpDelegate::Address(OpDelegateAddress::Ldx),
                "LDX",
                "ZP, Y",
            ),
            Opcode::CLV_imp => entry(
                2,
                1,
                AddrDelegate::Imp,
                OpDelegate::Implied(OpDelegateImplied::Clv),
                "CLV",
                "Implied",
            ),
            Opcode::LDA_abs_y => entry(
                4,
                3,
                AddrDelegate::AbsYExtra,
                OpDelegate::Address(OpDelegateAddress::Lda),
                "LDA",
                "ABS, Y",
            ),
            Opcode::TSX_imp => entry(
                2,
                1,
                AddrDelegate::Imp,
                OpDelegate::Implied(OpDelegateImplied::Tsx),
                "TSX",
                "Implied",
            ),
            Opcode::LDY_abs_x => entry(
                4,
                3,
                AddrDelegate::AbsXExtra,
                OpDelegate::Address(OpDelegateAddress::Ldy),
                "LDY",
                "ABS, X",
            ),
            Opcode::LDA_abs_x => entry(
                4,
                3,
                AddrDelegate::AbsXExtra,
                OpDelegate::Address(OpDelegateAddress::Lda),
                "LDA",
                "ABS, X",
            ),
            Opcode::LDX_abs_y => entry(
                4,
                3,
                AddrDelegate::AbsYExtra,
                OpDelegate::Address(OpDelegateAddress::Ldx),
                "LDX",
                "ABS, Y",
            ),
            Opcode::CPY_imm => entry(
                2,
                2,
                AddrDelegate::Imm,
                OpDelegate::Immediate(OpDelegateImmediate::Cpy),
                "CPY",
                "IMM",
            ),
            Opcode::CMP_ind_x => entry(
                6,
                2,
                AddrDelegate::IndX,
                OpDelegate::Address(OpDelegateAddress::Cmp),
                "CMP",
                "(IND, X)",
            ),
            Opcode::CPY_zp => entry(
                3,
                2,
                AddrDelegate::Zp,
                OpDelegate::Address(OpDelegateAddress::Cpy),
                "CPY",
                "ZP",
            ),
            Opcode::CMP_zp => entry(
                3,
                2,
                AddrDelegate::Zp,
                OpDelegate::Address(OpDelegateAddress::Cmp),
                "CMP",
                "ZP",
            ),
            Opcode::DEC_zp => entry(
                5,
                2,
                AddrDelegate::Zp,
                OpDelegate::Address(OpDelegateAddress::Dec),
                "DEC",
                "ZP",
            ),
            Opcode::INY_imp => entry(
                2,
                1,
                AddrDelegate::Imp,
                OpDelegate::Implied(OpDelegateImplied::Iny),
                "INY",
                "Implied",
            ),
            Opcode::CMP_imm => entry(
                2,
                2,
                AddrDelegate::Imm,
                OpDelegate::Immediate(OpDelegateImmediate::Cmp),
                "CMP",
                "IMM",
            ),
            Opcode::DEX_imp => entry(
                2,
                1,
                AddrDelegate::Imp,
                OpDelegate::Implied(OpDelegateImplied::Dex),
                "DEX",
                "Implied",
            ),
            Opcode::CPY_abs => entry(
                4,
                3,
                AddrDelegate::Abs,
                OpDelegate::Address(OpDelegateAddress::Cpy),
                "CPY",
                "Absolute",
            ),
            Opcode::CMP_abs => entry(
                4,
                3,
                AddrDelegate::Abs,
                OpDelegate::Address(OpDelegateAddress::Cmp),
                "CMP",
                "Absolute",
            ),
            Opcode::DEC_abs => entry(
                6,
                3,
                AddrDelegate::Abs,
                OpDelegate::Address(OpDelegateAddress::Dec),
                "DEC",
                "Absolute",
            ),
            Opcode::BNE_rel => entry(
                2,
                2,
                AddrDelegate::Rel,
                OpDelegate::Address(OpDelegateAddress::Bne),
                "BNE",
                "Relative",
            ),
            Opcode::CMP_ind_y => entry(
                5,
                2,
                AddrDelegate::IndYExtra,
                OpDelegate::Address(OpDelegateAddress::Cmp),
                "CMP",
                "(IND), Y",
            ),
            Opcode::CMP_zp_x => entry(
                4,
                2,
                AddrDelegate::ZpX,
                OpDelegate::Address(OpDelegateAddress::Cmp),
                "CMP",
                "ZP, X",
            ),
            Opcode::DEC_zp_x => entry(
                6,
                2,
                AddrDelegate::ZpX,
                OpDelegate::Address(OpDelegateAddress::Dec),
                "DEC",
                "ZP, X",
            ),
            Opcode::CLD_imp => entry(
                2,
                1,
                AddrDelegate::Imp,
                OpDelegate::Implied(OpDelegateImplied::Cld),
                "CLD",
                "Implied",
            ),
            Opcode::CMP_abs_y => entry(
                4,
                3,
                AddrDelegate::AbsYExtra,
                OpDelegate::Address(OpDelegateAddress::Cmp),
                "CMP",
                "ABS, Y",
            ),
            Opcode::CMP_abs_x => entry(
                4,
                3,
                AddrDelegate::AbsXExtra,
                OpDelegate::Address(OpDelegateAddress::Cmp),
                "CMP",
                "ABS, X",
            ),
            Opcode::DEC_abs_x => entry(
                7,
                3,
                AddrDelegate::AbsX,
                OpDelegate::Address(OpDelegateAddress::Dec),
                "DEC",
                "ABS, X",
            ),
            Opcode::CPX_imm => entry(
                2,
                2,
                AddrDelegate::Imm,
                OpDelegate::Immediate(OpDelegateImmediate::Cpx),
                "CPX",
                "IMM",
            ),
            Opcode::SBC_ind_x => entry(
                6,
                2,
                AddrDelegate::IndX,
                OpDelegate::Address(OpDelegateAddress::Sbc),
                "SBC",
                "(IND, X)",
            ),
            Opcode::CPX_zp => entry(
                3,
                2,
                AddrDelegate::Zp,
                OpDelegate::Address(OpDelegateAddress::Cpx),
                "CPX",
                "ZP",
            ),
            Opcode::SBC_zp => entry(
                3,
                2,
                AddrDelegate::Zp,
                OpDelegate::Address(OpDelegateAddress::Sbc),
                "SBC",
                "ZP",
            ),
            Opcode::INC_zp => entry(
                5,
                2,
                AddrDelegate::Zp,
                OpDelegate::Address(OpDelegateAddress::Inc),
                "INC",
                "ZP",
            ),
            Opcode::INX_imp => entry(
                2,
                1,
                AddrDelegate::Imp,
                OpDelegate::Implied(OpDelegateImplied::Inx),
                "INX",
                "Implied",
            ),
            Opcode::SBC_imm => entry(
                2,
                2,
                AddrDelegate::Imm,
                OpDelegate::Immediate(OpDelegateImmediate::Sbc),
                "SBC",
                "IMM",
            ),
            Opcode::NOP_imp => entry(
                2,
                1,
                AddrDelegate::Imp,
                OpDelegate::Implied(OpDelegateImplied::Nop),
                "NOP",
                "Implied",
            ),
            Opcode::CPX_abs => entry(
                4,
                3,
                AddrDelegate::Abs,
                OpDelegate::Address(OpDelegateAddress::Cpx),
                "CPX",
                "Absolute",
            ),
            Opcode::SBC_abs => entry(
                4,
                3,
                AddrDelegate::Abs,
                OpDelegate::Address(OpDelegateAddress::Sbc),
                "SBC",
                "Absolute",
            ),
            Opcode::INC_abs => entry(
                6,
                3,
                AddrDelegate::Abs,
                OpDelegate::Address(OpDelegateAddress::Inc),
                "INC",
                "Absolute",
            ),
            Opcode::BEQ_rel => entry(
                2,
                2,
                AddrDelegate::Rel,
                OpDelegate::Address(OpDelegateAddress::Beq),
                "BEQ",
                "Relative",
            ),
            Opcode::SBC_ind_y => entry(
                5,
                2,
                AddrDelegate::IndYExtra,
                OpDelegate::Address(OpDelegateAddress::Sbc),
                "SBC",
                "(IND), Y",
            ),
            Opcode::SBC_zp_x => entry(
                4,
                2,
                AddrDelegate::ZpX,
                OpDelegate::Address(OpDelegateAddress::Sbc),
                "SBC",
                "ZP, X",
            ),
            Opcode::INC_zp_x => entry(
                6,
                2,
                AddrDelegate::ZpX,
                OpDelegate::Address(OpDelegateAddress::Inc),
                "INC",
                "ZP, X",
            ),
            Opcode::SED_imp => entry(
                2,
                1,
                AddrDelegate::Imp,
                OpDelegate::Implied(OpDelegateImplied::Sed),
                "SED",
                "Implied",
            ),
            Opcode::SBC_abs_y => entry(
                4,
                3,
                AddrDelegate::AbsYExtra,
                OpDelegate::Address(OpDelegateAddress::Sbc),
                "SBC",
                "ABS, Y",
            ),
            Opcode::SBC_abs_x => entry(
                4,
                3,
                AddrDelegate::AbsXExtra,
                OpDelegate::Address(OpDelegateAddress::Sbc),
                "SBC",
                "ABS, X",
            ),
            Opcode::INC_abs_x => entry(
                7,
                3,
                AddrDelegate::AbsX,
                OpDelegate::Address(OpDelegateAddress::Inc),
                "INC",
                "ABS, X",
            ),
        }
    }

    /// Every entry of the table is regular.
    pub proof fn table_is_regular(self)
        ensures
            self.instruction().is_regular(),
    {
    }

    /// Looks the opcode up in the instruction table. The length and the
    /// two names follow from the routines.
    pub fn to_instruction(&self) -> (i: Instruction)
        ensures
            i == self.instruction(),
    {
        let (cycles, addr_delegate, op_delegate): (u8, AddrDelegate, OpDelegate) = match self
        {
            Opcode::BRK_imp => (7, AddrDelegate::Imp, OpDelegate::Implied(OpDelegateImplied::Brk)),
            Opcode::ORA_ind_x => (
                6,
                AddrDelegate::IndX,
                OpDelegate::Address(OpDelegateAddress::Ora),
            ),
            Opcode::ORA_zp => (3, AddrDelegate::Zp, OpDelegate::Address(OpDelegateAddress::Ora)),
            Opcode::ASL_zp => (5, AddrDelegate::Zp, OpDelegate::Address(OpDelegateAddress::Asl)),
            Opcode::PHP_imp => (3, AddrDelegate::Imp, OpDelegate::Implied(OpDelegateImplied::Php)),
            Opcode::ORA_imm => (
                2,
                AddrDelegate::Imm,
                OpDelegate::Immediate(OpDelegateImmediate::Ora),
            ),
            Opcode::ASL_acc => (2, AddrDelegate::Acc, OpDelegate::Implied(OpDelegateImplied::Asl)),
            Opcode::ORA_abs => (4, AddrDelegate::Abs, OpDelegate::Address(OpDelegateAddress::Ora)),
            Opcode::ASL_abs => (6, AddrDelegate::Abs, OpDelegate::Address(OpDelegateAddress::Asl)),
            Opcode::BPL_rel => (2, AddrDelegate::Rel, OpDelegate::Address(OpDelegateAddress::Bpl)),
            Opcode::ORA_ind_y => (
                5,
                AddrDelegate::IndYExtra,
                OpDelegate::Address(OpDelegateAddress::Ora),
            ),
            Opcode::ORA_zp_x => (4, AddrDelegate::ZpX, OpDelegate::Address(OpDelegateAddress::Ora)),
            Opcode::ASL_zp_x => (6, AddrDelegate::ZpX, OpDelegate::Address(OpDelegateAddress::Asl)),
            Opcode::CLC_imp => (2, AddrDelegate::Imp, OpDelegate::Implied(OpDelegateImplied::Clc)),
            Opcode::ORA_abs_y => (
                4,
                AddrDelegate::AbsYExtra,
                OpDelegate::Address(OpDelegateAddress::Ora),
            ),
            Opcode::ORA_abs_x => (
                4,
                AddrDelegate::AbsXExtra,
                OpDelegate::Address(OpDelegateAddress::Ora),
            ),
            Opcode::ASL_abs_x => (
                7,
                AddrDelegate::AbsX,
                OpDelegate::Address(OpDelegateAddress::Asl),
            ),
            Opcode::JSR_abs => (6, AddrDelegate::Abs, OpDelegate::Address(OpDelegateAddress::Jsr)),
            Opcode::AND_ind_x => (
                6,
                AddrDelegate::IndX,
                OpDelegate::Address(OpDelegateAddress::And),
            ),
            Opcode::BIT_zp => (3, AddrDelegate::Zp, OpDelegate::Address(OpDelegateAddress::Bit)),
            Opcode::AND_zp => (3, AddrDelegate::Zp, OpDelegate::Address(OpDelegateAddress::And)),
            Opcode::ROL_zp => (5, AddrDelegate::Zp, OpDelegate::Address(OpDelegateAddress::Rol)),
            Opcode::PLP_imp => (4, AddrDelegate::Imp, OpDelegate::Implied(OpDelegateImplied::Plp)),
            Opcode::AND_imm => (
                2,
                AddrDelegate::Imm,
                OpDelegate::Immediate(OpDelegateImmediate::And),
            ),
            Opcode::ROL_acc => (2, AddrDelegate::Acc, OpDelegate::Implied(OpDelegateImplied::Rol)),
            Opcode::BIT_abs => (4, AddrDelegate::Abs, OpDelegate::Address(OpDelegateAddress::Bit)),
            Opcode::AND_abs => (4, AddrDelegate::Abs, OpDelegate::Address(OpDelegateAddress::And)),
            Opcode::ROL_abs => (6, AddrDelegate::Abs, OpDelegate::Address(OpDelegateAddress::Rol)),
            Opcode::BMI_rel => (2, AddrDelegate::Rel, OpDelegate::Address(OpDelegateAddress::Bmi)),
            Opcode::AND_ind_y => (
                5,
                AddrDelegate::IndYExtra,
                OpDelegate::Address(OpDelegateAddress::And),
            ),
            Opcode::AND_zp_x => (4, AddrDelegate::ZpX, OpDelegate::Address(OpDelegateAddress::And)),
            Opcode::ROL_zp_x => (6, AddrDelegate::ZpX, OpDelegate::Address(OpDelegateAddress::Rol)),
            Opcode::SEC_imp => (2, AddrDelegate::Imp, OpDelegate::Implied(OpDelegateImplied::Sec)),
            Opcode::AND_abs_y => (
                4,
                AddrDelegate::AbsYExtra,
                OpDelegate::Address(OpDelegateAddress::And),
            ),
            Opcode::AND_abs_x => (
                4,
                AddrDelegate::AbsXExtra,
                OpDelegate::Address(OpDelegateAddress::And),
            ),
            Opcode::ROL_abs_x => (
                7,
                AddrDelegate::AbsX,
                OpDelegate::Address(OpDelegateAddress::Rol),
            ),
            Opcode::RTI_imp => (6, AddrDelegate::Imp, OpDelegate::Implied(OpDelegateImplied::Rti)),
            Opcode::EOR_ind_x => (
                6,
                AddrDelegate::IndX,
                OpDelegate::Address(OpDelegateAddress::Eor),
            ),
            Opcode::EOR_zp => (3, AddrDelegate::Zp, OpDelegate::Address(OpDelegateAddress::Eor)),
            Opcode::LSR_zp => (5, AddrDelegate::Zp, OpDelegate::Address(OpDelegateAddress::Lsr)),
            Opcode::PHA_imp => (3, AddrDelegate::Imp, OpDelegate::Implied(OpDelegateImplied::Pha)),
            Opcode::EOR_imm => (
                2,
                AddrDelegate::Imm,
                OpDelegate::Immediate(OpDelegateImmediate::Eor),
            ),
            Opcode::LSR_acc => (2, AddrDelegate::Acc, OpDelegate::Implied(OpDelegateImplied::Lsr)),
            Opcode::JMP_abs => (3, AddrDelegate::Abs, OpDelegate::Address(OpDelegateAddress::Jmp)),
            Opcode::EOR_abs => (4, AddrDelegate::Abs, OpDelegate::Address(OpDelegateAddress::Eor)),
            Opcode::LSR_abs => (6, AddrDelegate::Abs, OpDelegate::Address(OpDelegateAddress::Lsr)),
            Opcode::BVC_rel => (2, AddrDelegate::Rel, OpDelegate::Address(OpDelegateAddress::Bvc)),
            Opcode::EOR_ind_y => (
                5,
                AddrDelegate::IndYExtra,
                OpDelegate::Address(OpDelegateAddress::Eor),
            ),
            Opcode::EOR_zp_x => (4, AddrDelegate::ZpX, OpDelegate::Address(OpDelegateAddress::Eor)),
            Opcode::LSR_zp_x => (6, AddrDelegate::ZpX, OpDelegate::Address(OpDelegateAddress::Lsr)),
            Opcode::CLI_imp => (2, AddrDelegate::Imp, OpDelegate::Implied(OpDelegateImplied::Cli)),
            Opcode::EOR_abs_y => (
                4,
                AddrDelegate::AbsYExtra,
                OpDelegate::Address(OpDelegateAddress::Eor),
            ),
            Opcode::EOR_abs_x => (
                4,
                AddrDelegate::AbsXExtra,
                OpDelegate::Address(OpDelegateAddress::Eor),
            ),
            Opcode::LSR_abs_x => (
                7,
                AddrDelegate::AbsX,
                OpDelegate::Address(OpDelegateAddress::Lsr),
            ),
            Opcode::RTS_imp => (6, AddrDelegate::Imp, OpDelegate::Implied(OpDelegateImplied::Rts)),
            Opcode::ADC_ind_x => (
                6,
                AddrDelegate::IndX,
                OpDelegate::Address(OpDelegateAddress::Adc),
            ),
            Opcode::ADC_zp => (3, AddrDelegate::Zp, OpDelegate::Address(OpDelegateAddress::Adc)),
            Opcode::ROR_zp => (5, AddrDelegate::Zp, OpDelegate::Address(OpDelegateAddress::Ror)),
            Opcode::PLA_imp => (4, AddrDelegate::Imp, OpDelegate::Implied(OpDelegateImplied::Pla)),
            Opcode::ADC_imm => (
                2,
                AddrDelegate::Imm,
                OpDelegate::Immediate(OpDelegateImmediate::Adc),
            ),
            Opcode::ROR_acc => (2, AddrDelegate::Acc, OpDelegate::Implied(OpDelegateImplied::Ror)),
            Opcode::JMP_ind => (5, AddrDelegate::Ind, OpDelegate::Address(OpDelegateAddress::Jmp)),
            Opcode::ADC_abs => (4, AddrDelegate::Abs, OpDelegate::Address(OpDelegateAddress::Adc)),
            Opcode::ROR_abs => (6, AddrDelegate::Abs, OpDelegate::Address(OpDelegateAddress::Ror)),
            Opcode::BVS_rel => (2, AddrDelegate::Rel, OpDelegate::Address(OpDelegateAddress::Bvs)),
            Opcode::ADC_ind_y => (
                5,
                AddrDelegate::IndYExtra,
                OpDelegate::Address(OpDelegateAddress::Adc),
            ),
            Opcode::ADC_zp_x => (4, AddrDelegate::ZpX, OpDelegate::Address(OpDelegateAddress::Adc)),
            Opcode::ROR_zp_x => (6, AddrDelegate::ZpX, OpDelegate::Address(OpDelegateAddress::Ror)),
            Opcode::SEI_imp => (2, AddrDelegate::Imp, OpDelegate::Implied(OpDelegateImplied::Sei)),
            Opcode::ADC_abs_y => (
                4,
                AddrDelegate::AbsYExtra,
                OpDelegate::Address(OpDelegateAddress::Adc),
            ),
            Opcode::ADC_abs_x => (
                4,
                AddrDelegate::AbsXExtra,
                OpDelegate::Address(OpDelegateAddress::Adc),
            ),
            Opcode::ROR_abs_x => (
                7,
                AddrDelegate::AbsX,
                OpDelegate::Address(OpDelegateAddress::Ror),
            ),
            Opcode::STA_ind_x => (
                6,
                AddrDelegate::IndX,
                OpDelegate::Address(OpDelegateAddress::Sta),
            ),
            Opcode::STY_zp => (3, AddrDelegate::Zp, OpDelegate::Address(OpDelegateAddress::Sty)),
            Opcode::STA_zp => (3, AddrDelegate::Zp, OpDelegate::Address(OpDelegateAddress::Sta)),
            Opcode::STX_zp => (3, AddrDelegate::Zp, OpDelegate::Address(OpDelegateAddress::Stx)),
            Opcode::DEY_imp => (2, AddrDelegate::Imp, OpDelegate::Implied(OpDelegateImplied::Dey)),
            Opcode::TXA_imp => (2, AddrDelegate::Imp, OpDelegate::Implied(OpDelegateImplied::Txa)),
            Opcode::STY_abs => (4, AddrDelegate::Abs, OpDelegate::Address(OpDelegateAddress::Sty)),
            Opcode::STA_abs => (4, AddrDelegate::Abs, OpDelegate::Address(OpDelegateAddress::Sta)),
            Opcode::STX_abs => (4, AddrDelegate::Abs, OpDelegate::Address(OpDelegateAddress::Stx)),
            Opcode::BCC_rel => (2, AddrDelegate::Rel, OpDelegate::Address(OpDelegateAddress::Bcc)),
            Opcode::STA_ind_y => (
                6,
                AddrDelegate::IndY,
                OpDelegate::Address(OpDelegateAddress::Sta),
            ),
            Opcode::STY_zp_x => (4, AddrDelegate::ZpX, OpDelegate::Address(OpDelegateAddress::Sty)),
            Opcode::STA_zp_x => (4, AddrDelegate::ZpX, OpDelegate::Address(OpDelegateAddress::Sta)),
            Opcode::STX_zp_y => (4, AddrDelegate::ZpY, OpDelegate::Address(OpDelegateAddress::Stx)),
            Opcode::TYA_imp => (2, AddrDelegate::Imp, OpDelegate::Implied(OpDelegateImplied::Tya)),
            Opcode::STA_abs_y => (
                5,
                AddrDelegate::AbsY,
                OpDelegate::Address(OpDelegateAddress::Sta),
            ),
            Opcode::TXS_imp => (2, AddrDelegate::Imp, OpDelegate::Implied(OpDelegateImplied::Txs)),
            Opcode::STA_abs_x => (
                5,
                AddrDelegate::AbsX,
                OpDelegate::Address(OpDelegateAddress::Sta),
            ),
            Opcode::LDY_imm => (
                2,
                AddrDelegate::Imm,
                OpDelegate::Immediate(OpDelegateImmediate::Ldy),
            ),
            Opcode::LDA_ind_x => (
                6,
                AddrDelegate::IndX,
                OpDelegate::Address(OpDelegateAddress::Lda),
            ),
            Opcode::LDX_imm => (
                2,
                AddrDelegate::Imm,
                OpDelegate::Immediate(OpDelegateImmediate::Ldx),
            ),
            Opcode::LDY_zp => (3, AddrDelegate::Zp, OpDelegate::Address(OpDelegateAddress::Ldy)),
            Opcode::LDA_zp => (3, AddrDelegate::Zp, OpDelegate::Address(OpDelegateAddress::Lda)),
            Opcode::LDX_zp => (3, AddrDelegate::Zp, OpDelegate::Address(OpDelegateAddress::Ldx)),
            Opcode::TAY_imp => (2, AddrDelegate::Imp, OpDelegate::Implied(OpDelegateImplied::Tay)),
            Opcode::LDA_imm => (
                2,
                AddrDelegate::Imm,
                OpDelegate::Immediate(OpDelegateImmediate::Lda),
            ),
            Opcode::TAX_imp => (2, AddrDelegate::Imp, OpDelegate::Implied(OpDelegateImplied::Tax)),
            Opcode::LDY_abs => (4, AddrDelegate::Abs, OpDelegate::Address(OpDelegateAddress::Ldy)),
            Opcode::LDA_abs => (4, AddrDelegate::Abs, OpDelegate::Address(OpDelegateAddress::Lda)),
            Opcode::LDX_abs => (4, AddrDelegate::Abs, OpDelegate::Address(OpDelegateAddress::Ldx)),
            Opcode::BCS_rel => (2, AddrDelegate::Rel, OpDelegate::Address(OpDelegateAddress::Bcs)),
            Opcode::LDA_ind_y => (
                5,
                AddrDelegate::IndYExtra,
                OpDelegate::Address(OpDelegateAddress::Lda),
            ),
            Opcode::LDY_zp_x => (4, AddrDelegate::ZpX, OpDelegate::Address(OpDelegateAddress::Ldy)),
            Opcode::LDA_zp_x => (4, AddrDelegate::ZpX, OpDelegate::Address(OpDelegateAddress::Lda)),
            Opcode::LDX_zp_y => (4, AddrDelegate::ZpY, OpDelegate::Address(OpDelegateAddress::Ldx)),
            Opcode::CLV_imp => (2, AddrDelegate::Imp, OpDelegate::Implied(OpDelegateImplied::Clv)),
            Opcode::LDA_abs_y => (
                4,
                AddrDelegate::AbsYExtra,
                OpDelegate::Address(OpDelegateAddress::Lda),
            ),
            Opcode::TSX_imp => (2, AddrDelegate::Imp, OpDelegate::Implied(OpDelegateImplied::Tsx)),
            Opcode::LDY_abs_x => (
                4,
                AddrDelegate::AbsXExtra,
                OpDelegate::Address(OpDelegateAddress::Ldy),
            ),
            Opcode::LDA_abs_x => (
                4,
                AddrDelegate::AbsXExtra,
                OpDelegate::Address(OpDelegateAddress::Lda),
            ),
            Opcode::LDX_abs_y => (
                4,
                AddrDelegate::AbsYExtra,
                OpDelegate::Address(OpDelegateAddress::Ldx),
            ),
            Opcode::CPY_imm => (
                2,
                AddrDelegate::Imm,
                OpDelegate::Immediate(OpDelegateImmediate::Cpy),
            ),
            Opcode::CMP_ind_x => (
                6,
                AddrDelegate::IndX,
                OpDelegate::Address(OpDelegateAddress::Cmp),
            ),
            Opcode::CPY_zp => (3, AddrDelegate::Zp, OpDelegate::Address(OpDelegateAddress::Cpy)),
            Opcode::CMP_zp => (3, AddrDelegate::Zp, OpDelegate::Address(OpDelegateAddress::Cmp)),
            Opcode::DEC_zp => (5, AddrDelegate::Zp, OpDelegate::Address(OpDelegateAddress::Dec)),
            Opcode::INY_imp => (2, AddrDelegate::Imp, OpDelegate::Implied(OpDelegateImplied::Iny)),
            Opcode::CMP_imm => (
                2,
                AddrDelegate::Imm,
                OpDelegate::Immediate(OpDelegateImmediate::Cmp),
            ),
            Opcode::DEX_imp => (2, AddrDelegate::Imp, OpDelegate::Implied(OpDelegateImplied::Dex)),
            Opcode::CPY_abs => (4, AddrDelegate::Abs, OpDelegate::Address(OpDelegateAddress::Cpy)),
            Opcode::CMP_abs => (4, AddrDelegate::Abs, OpDelegate::Address(OpDelegateAddress::Cmp)),
            Opcode::DEC_abs => (6, AddrDelegate::Abs, OpDelegate::Address(OpDelegateAddress::Dec)),
            Opcode::BNE_rel => (2, AddrDelegate::Rel, OpDelegate::Address(OpDelegateAddress::Bne)),
            Opcode::CMP_ind_y => (
                5,
                AddrDelegate::IndYExtra,
                OpDelegate::Address(OpDelegateAddress::Cmp),
            ),
            Opcode::CMP_zp_x => (4, AddrDelegate::ZpX, OpDelegate::Address(OpDelegateAddress::Cmp)),
            Opcode::DEC_zp_x => (6, AddrDelegate::ZpX, OpDelegate::Address(OpDelegateAddress::Dec)),
            Opcode::CLD_imp => (2, AddrDelegate::Imp, OpDelegate::Implied(OpDelegateImplied::Cld)),
            Opcode::CMP_abs_y => (
                4,
                AddrDelegate::AbsYExtra,
                OpDelegate::Address(OpDelegateAddress::Cmp),
            ),
            Opcode::CMP_abs_x => (
                4,
                AddrDelegate::AbsXExtra,
                OpDelegate::Address(OpDelegateAddress::Cmp),
            ),
            Opcode::DEC_abs_x => (
                7,
                AddrDelegate::AbsX,
                OpDelegate::Address(OpDelegateAddress::Dec),
            ),
            Opcode::CPX_imm => (
                2,
                AddrDelegate::Imm,
                OpDelegate::Immediate(OpDelegateImmediate::Cpx),
            ),
            Opcode::SBC_ind_x => (
                6,
                AddrDelegate::IndX,
                OpDelegate::Address(OpDelegateAddress::Sbc),
            ),
            Opcode::CPX_zp => (3, AddrDelegate::Zp, OpDelegate::Address(OpDelegateAddress::Cpx)),
            Opcode::SBC_zp => (3, AddrDelegate::Zp, OpDelegate::Address(OpDelegateAddress::Sbc)),
            Opcode::INC_zp => (5, AddrDelegate::Zp, OpDelegate::Address(OpDelegateAddress::Inc)),
            Opcode::INX_imp => (2, AddrDelegate::Imp, OpDelegate::Implied(OpDelegateImplied::Inx)),
            Opcode::SBC_imm => (
                2,
                AddrDelegate::Imm,
                OpDelegate::Immediate(OpDelegateImmediate::Sbc),
            ),
            Opcode::NOP_imp => (2, AddrDelegate::Imp, OpDelegate::Implied(OpDelegateImplied::Nop)),
            Opcode::CPX_abs => (4, AddrDelegate::Abs, OpDelegate::Address(OpDelegateAddress::Cpx)),
            Opcode::SBC_abs => (4, AddrDelegate::Abs, OpDelegate::Address(OpDelegateAddress::Sbc)),
            Opcode::INC_abs => (6, AddrDelegate::Abs, OpDelegate::Address(OpDelegateAddress::Inc)),
            Opcode::BEQ_rel => (2, AddrDelegate::Rel, OpDelegate::Address(OpDelegateAddress::Beq)),
            Opcode::SBC_ind_y => (
                5,
                AddrDelegate::IndYExtra,
                OpDelegate::Address(OpDelegateAddress::Sbc),
            ),
            Opcode::SBC_zp_x => (4, AddrDelegate::ZpX, OpDelegate::Address(OpDelegateAddress::Sbc)),
            Opcode::INC_zp_x => (6, AddrDelegate::ZpX, OpDelegate::Address(OpDelegateAddress::Inc)),
            Opcode::SED_imp => (2, AddrDelegate::Imp, OpDelegate::Implied(OpDelegateImplied::Sed)),
            Opcode::SBC_abs_y => (
                4,
                AddrDelegate::AbsYExtra,
                OpDelegate::Address(OpDelegateAddress::Sbc),
            ),
            Opcode::SBC_abs_x => (
                4,
                AddrDelegate::AbsXExtra,
                OpDelegate::Address(OpDelegateAddress::Sbc),
            ),
            Opcode::INC_abs_x => (
                7,
                AddrDelegate::AbsX,
                OpDelegate::Address(OpDelegateAddress::Inc),
            ),
        };
        Instruction {
            cycles,
            bytes: addr_delegate.bytes(),
            addr_delegate,
            op_delegate,
            mnemonic: op_delegate.mnemonic(),
            addressing: addr_delegate.label(),
        }
    }
}

} // verus!

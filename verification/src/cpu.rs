//! The processor: register file, status flags and the interpreter that
//! advances it one tick at a time.

pub mod alu;
pub mod instructions;
pub mod machine;
pub mod timing;

use vstd::prelude::*;
use crate::BusMessage;
use crate::cpu::instructions::{Instruction, Operand};
use crate::cpu::machine::{CpuError, Machine};
use crate::debugger::CpuDebugger;

verus! {

/// What the bus drives: a processor that is advanced tick by tick and
/// takes interrupt and reset signals.
pub trait CPU {
    /// Advances the processor by one tick. `data` is the byte that the
    /// read of the previous tick produced, if that tick read.
    fn clock(&mut self, data: Option<u8>) -> Result<BusMessage, CpuError>;

    /// Raises the maskable interrupt line.
    fn irq(&mut self);

    /// Signals an edge on the non-maskable interrupt line.
    fn nmi(&mut self);

    /// Arms the reset sequence.
    fn reset(&mut self);
}

/// Address of the low byte of the NMI vector.
pub const NMI_VECTOR: u16 = 0xFFFA;

/// Address of the low byte of the reset vector.
pub const RESET_VECTOR: u16 = 0xFFFC;

/// Address of the low byte of the vector that IRQ and BRK share.
pub const IRQ_VECTOR: u16 = 0xFFFE;

/// The sixteen-bit word with low byte `lo` and high byte `hi`.
pub open spec fn word(lo: u8, hi: u8) -> u16 {
    (hi * 256 + lo) as u16
}

/// The page of an address: its high byte.
pub open spec fn page(addr: u16) -> u8 {
    (addr / 256) as u8
}

/// The low byte of an address.
pub open spec fn low(addr: u16) -> u8 {
    (addr % 256) as u8
}

/// The address of the stack slot that `sp` points at.
pub open spec fn stack_slot(sp: u8) -> u16 {
    (0x0100 + sp) as u16
}

/// The address after `addr`, with 0xFFFF followed by 0x0000.
pub open spec fn following(addr: u16) -> u16 {
    ((addr + 1) % 0x1_0000) as u16
}

/// The address before `addr`, with 0x0000 preceded by 0xFFFF.
pub open spec fn preceding(addr: u16) -> u16 {
    ((addr - 1) % 0x1_0000) as u16
}

pub fn make_word(lo: u8, hi: u8) -> (w: u16)
    ensures
        w == word(lo, hi),
{
    (hi as u16) * 256 + (lo as u16)
}

pub fn high_byte(addr: u16) -> (b: u8)
    ensures
        b == page(addr),
{
    (addr / 256) as u8
}

pub fn low_byte(addr: u16) -> (b: u8)
    ensures
        b == low(addr),
{
    (addr % 256) as u8
}

pub fn stack_address(sp: u8) -> (addr: u16)
    ensures
        addr == stack_slot(sp),
{
    0x0100 + (sp as u16)
}

/// Words are little-endian pairs of bytes: a word has the bytes it was
/// made of, and every address is the word of its low byte and its page.
pub proof fn word_bytes(lo: u8, hi: u8, addr: u16)
    ensures
        low(word(lo, hi)) == lo,
        page(word(lo, hi)) == hi,
        word(low(addr), page(addr)) == addr,
{
}

/// The seven status flags. Bit 5 of the status register carries no flag
/// and reads as one after a reset.
#[derive(Debug, Clone, Copy, PartialEq, Eq, Structural)]
pub enum CpuFlags {
    /// Carry.
    C,
    /// Zero.
    Z,
    /// Interrupt disable.
    I,
    /// Decimal mode; recorded, never consulted by the arithmetic.
    D,
    /// Break; only ever set in a status byte pushed by software.
    B,
    /// Signed overflow.
    V,
    /// Negative.
    N,
}

impl CpuFlags {
    /// The flag's bit in the status register.
    #[verifier::allow_in_spec]
    pub fn mask(self) -> u8
        returns
            (match self {
                CpuFlags::C => 0x01u8,
                CpuFlags::Z => 0x02u8,
                CpuFlags::I => 0x04u8,
                CpuFlags::D => 0x08u8,
                CpuFlags::B => 0x10u8,
                CpuFlags::V => 0x40u8,
                CpuFlags::N => 0x80u8,
            }),
    {
        match self {
            CpuFlags::C => 0x01,
            CpuFlags::Z => 0x02,
            CpuFlags::I => 0x04,
            CpuFlags::D => 0x08,
            CpuFlags::B => 0x10,
            CpuFlags::V => 0x40,
            CpuFlags::N => 0x80,
        }
    }
}

/// A pending interrupt request together with the vector it will load.
#[derive(Debug, Clone, Copy, PartialEq, Eq, Structural)]
pub enum Interrupt {
    /// Nothing is pending.
    Idle,
    /// A maskable request.
    Irq(u16),
    /// A non-maskable request.
    Nmi(u16),
}

/// The programmer-visible registers.
#[derive(Debug, Clone, Copy, PartialEq, Eq, Structural)]
pub struct CpuRegisters {
    /// Accumulator.
    pub a: u8,
    /// X index register.
    pub x: u8,
    /// Y index register.
    pub y: u8,
    /// Stack pointer; the stack lives at `0x0100 + sp`.
    pub sp: u8,
    /// Program counter.
    pub pc: u16,
    /// Status register, one bit per [`CpuFlags`].
    pub status: u8,
}

impl CpuRegisters {
    /// The status byte with `flag` forced to `value`.
    pub open spec fn status_with(status: u8, flag: CpuFlags, value: bool) -> u8 {
        if value {
            status | flag.mask()
        } else {
            status & !flag.mask()
        }
    }

    /// Whether `flag` is set.
    pub open spec fn flag(self, flag: CpuFlags) -> bool {
        self.status & flag.mask() != 0
    }

    /// These registers with `flag` forced to `value`.
    pub open spec fn with_flag(self, flag: CpuFlags, value: bool) -> CpuRegisters {
        CpuRegisters { status: Self::status_with(self.status, flag, value), ..self }
    }

    /// These registers with Z and N describing `value`: Z when it is
    /// zero, N when its bit 7 is set.
    pub open spec fn with_zn(self, value: u8) -> CpuRegisters {
        self.with_flag(CpuFlags::Z, value == 0).with_flag(CpuFlags::N, value >= 0x80)
    }

    pub fn get_flag(&self, flag: CpuFlags) -> (set: bool)
        ensures
            set == self.flag(flag),
    {
        (self.status & flag.mask()) != 0
    }

    pub fn set_flag(&mut self, flag: CpuFlags, value: bool)
        ensures
            *final(self) == old(self).with_flag(flag, value),
    {
        if value {
            self.status |= flag.mask();
        } else {
            self.status &= !flag.mask();
        }
    }

    /// Sets Z and N from `value`.
    pub fn set_zn(&mut self, value: u8)
        ensures
            *final(self) == old(self).with_zn(value),
    {
        self.set_flag(CpuFlags::Z, value == 0);
        self.set_flag(CpuFlags::N, value >= 0x80);
    }
}

impl Default for CpuRegisters {
    fn default() -> (regs: CpuRegisters)
        ensures
            regs == (CpuRegisters { a: 0, x: 0, y: 0, sp: 0, pc: 0, status: 0 }),
    {
        CpuRegisters { a: 0, x: 0, y: 0, sp: 0, pc: 0, status: 0 }
    }
}

/// No two flags share a bit, and none uses bit 5.
pub proof fn flags_are_apart(f: CpuFlags, g: CpuFlags)
    ensures
        f != g ==> f.mask() & g.mask() == 0,
        f.mask() != 0,
        f.mask() & 0x20 == 0,
{
    assert(0x01u8 & 0x02u8 == 0 && 0x01u8 & 0x04u8 == 0 && 0x01u8 & 0x08u8 == 0 && 0x01u8 & 0x10u8
        == 0 && 0x01u8 & 0x40u8 == 0 && 0x01u8 & 0x80u8 == 0 && 0x02u8 & 0x04u8 == 0 && 0x02u8
        & 0x08u8 == 0 && 0x02u8 & 0x10u8 == 0 && 0x02u8 & 0x40u8 == 0 && 0x02u8 & 0x80u8 == 0
        && 0x04u8 & 0x08u8 == 0 && 0x04u8 & 0x10u8 == 0 && 0x04u8 & 0x40u8 == 0 && 0x04u8 & 0x80u8
        == 0 && 0x08u8 & 0x10u8 == 0 && 0x08u8 & 0x40u8 == 0 && 0x08u8 & 0x80u8 == 0 && 0x10u8
        & 0x40u8 == 0 && 0x10u8 & 0x80u8 == 0 && 0x40u8 & 0x80u8 == 0 && 0x01u8 & 0x20u8 == 0
        && 0x02u8 & 0x20u8 == 0 && 0x04u8 & 0x20u8 == 0 && 0x08u8 & 0x20u8 == 0 && 0x10u8 & 0x20u8
        == 0 && 0x40u8 & 0x20u8 == 0 && 0x80u8 & 0x20u8 == 0) by (bit_vector);
    assert(forall|a: u8, b: u8| #[trigger] (a & b) == b & a) by (bit_vector);
}

/// A flag reads as it was last set, setting it leaves every other bit
/// of the status register alone, and no other register changes.
pub proof fn flag_reads_as_set(regs: CpuRegisters, f: CpuFlags, value: bool, g: CpuFlags)
    ensures
        regs.with_flag(f, value).flag(f) == value,
        f != g ==> regs.with_flag(f, value).flag(g) == regs.flag(g),
        regs.with_flag(f, value).status & 0x20 == regs.status & 0x20,
        regs.with_flag(f, value) == (CpuRegisters {
            status: regs.with_flag(f, value).status,
            ..regs
        }),
{
    flags_are_apart(f, g);
    let s = regs.status;
    let m = f.mask();
    let n = g.mask();
    assert(m != 0 ==> (s | m) & m != 0 && (s & !m) & m == 0) by (bit_vector);
    assert(m & n == 0 ==> (s | m) & n == s & n && (s & !m) & n == s & n) by (bit_vector);
    assert(m & 0x20 == 0 ==> (s | m) & 0x20 == s & 0x20 && (s & !m) & 0x20 == s & 0x20)
        by (bit_vector);
}

/// After Z and N were set from `value`, Z tells whether it is zero and N
/// whether its bit 7 is set; the other flags are as before.
pub proof fn zn_read_as_set(regs: CpuRegisters, value: u8, g: CpuFlags)
    ensures
        regs.with_zn(value).flag(CpuFlags::Z) == (value == 0),
        regs.with_zn(value).flag(CpuFlags::N) == (value >= 0x80),
        g != CpuFlags::Z && g != CpuFlags::N ==> regs.with_zn(value).flag(g) == regs.flag(g),
        regs.with_zn(value) == (CpuRegisters { status: regs.with_zn(value).status, ..regs }),
{
    let z = regs.with_flag(CpuFlags::Z, value == 0);
    flag_reads_as_set(regs, CpuFlags::Z, value == 0, g);
    flag_reads_as_set(z, CpuFlags::N, value >= 0x80, g);
    flag_reads_as_set(z, CpuFlags::N, value >= 0x80, CpuFlags::Z);
}

/// Registers plus the scratch values the interpreter carries from one
/// tick of an instruction to the next.
#[derive(Debug, Clone, Copy, PartialEq, Eq, Structural)]
pub struct CpuState {
    pub regs: CpuRegisters,
    /// First byte of the instruction in progress: the opcode.
    pub op: u8,
    /// Second byte of the instruction in progress.
    pub o1: u8,
    /// Third byte of the instruction in progress.
    pub o2: u8,
    /// Scratch for the effective address while it is being formed.
    pub addr: u16,
    /// The last byte the bus delivered.
    pub data: u8,
    /// One-shot request to lengthen the instruction in progress by a
    /// cycle; honoured and cleared at the start of the next tick.
    pub extra_cycle: bool,
}

impl Default for CpuState {
    fn default() -> (state: CpuState)
        ensures
            state == (CpuState {
                regs: CpuRegisters { a: 0, x: 0, y: 0, sp: 0, pc: 0, status: 0 },
                op: 0,
                o1: 0,
                o2: 0,
                addr: 0,
                data: 0,
                extra_cycle: false,
            }),
    {
        CpuState {
            regs: CpuRegisters::default(),
            op: 0,
            o1: 0,
            o2: 0,
            addr: 0,
            data: 0,
            extra_cycle: false,
        }
    }
}

/// Bookkeeping that an observer may read between ticks.
#[derive(Debug, Clone, Copy, PartialEq, Eq, Structural)]
pub struct EmulationState {
    /// Ticks since construction or the last reset, modulo 2^64.
    pub total_cycles: u64,
    /// Ticks spent on the instruction in progress.
    pub op_cycle: u8,
    /// Extra cycles granted to the instruction in progress so far.
    pub additional_cycles: u8,
    /// Whether the last tick completed an instruction.
    pub instruction_done: bool,
    pub interrupt_request: Interrupt,
}

impl Default for EmulationState {
    fn default() -> (state: EmulationState)
        ensures
            state == (EmulationState {
                total_cycles: 0,
                op_cycle: 0,
                additional_cycles: 0,
                instruction_done: true,
                interrupt_request: Interrupt::Idle,
            }),
    {
        EmulationState {
            total_cycles: 0,
            op_cycle: 0,
            additional_cycles: 0,
            instruction_done: true,
            interrupt_request: Interrupt::Idle,
        }
    }
}

/// What the interpreter keeps apart from the registers: a machine whose
/// registers are not looked at. It is well formed at all times.
struct Core {
    machine: Machine,
}

impl Core {
    #[verifier::type_invariant]
    spec fn inv(self) -> bool {
        self.machine.wf()
    }

    /// Holds `machine`.
    fn new(machine: Machine) -> (core: Core)
        requires
            machine.wf(),
        ensures
            core.machine == machine,
    {
        Core { machine }
    }

    /// The machine, with `regs` as its registers.
    fn with(&self, regs: CpuRegisters) -> (machine: Machine)
        ensures
            machine == self.machine.with_regs(regs),
            machine.wf(),
    {
        proof {
            use_type_invariant(self);
        }
        let mut machine = self.machine;
        machine.cpu_state.regs = regs;
        machine
    }
}

/// The interpreter. Its state is a [`Machine`] that is well formed at
/// all times, which is why no call on it has a precondition and every
/// call tells so. The registers alone can be handed out for a change:
/// no value of them makes the machine ill formed.
pub struct CpuInterpreter {
    regs: CpuRegisters,
    core: Core,
}

impl View for CpuInterpreter {
    type V = Machine;

    closed spec fn view(&self) -> Machine {
        self.core.machine.with_regs(self.regs)
    }
}

impl CpuInterpreter {
    /// A processor that waits for its first reset: halted, all
    /// registers and counters zero.
    pub fn new() -> (cpu: CpuInterpreter)
        ensures
            cpu@ == Machine::halted(),
            cpu@.wf(),
    {
        let machine = Machine::new();
        CpuInterpreter { regs: machine.cpu_state.regs, core: Core::new(machine) }
    }

    /// Replaces the machine.
    fn put(&mut self, machine: Machine)
        requires
            machine.wf(),
        ensures
            final(self)@ == machine,
    {
        self.regs = machine.cpu_state.regs;
        self.core = Core::new(machine);
    }
}

impl CPU for CpuInterpreter {
    /// One tick. It fails, and leaves the processor as it was, where
    /// the fetch phase is handed no byte or a first byte that is no
    /// opcode; every other tick answers with its bus request.
    fn clock(&mut self, data: Option<u8>) -> (r: Result<BusMessage, CpuError>)
        ensures
            old(self)@.wf(),
            final(self)@.wf(),
            match old(self)@.fault(data) {
                Some(e) => r == Err::<BusMessage, CpuError>(e) && final(self)@ == old(self)@,
                None => r == Ok::<BusMessage, CpuError>(old(self)@.tick(data).1) && final(self)@
                    == old(self)@.tick(data).0,
            },
    {
        let mut machine = self.core.with(self.regs);
        let r = machine.step(data);
        self.put(machine);
        r
    }

    fn irq(&mut self)
        ensures
            old(self)@.wf(),
            final(self)@.wf(),
            final(self)@ == old(self)@.irq_raised(),
    {
        let mut machine = self.core.with(self.regs);
        machine.irq();
        self.put(machine);
    }

    fn nmi(&mut self)
        ensures
            old(self)@.wf(),
            final(self)@.wf(),
            final(self)@ == old(self)@.nmi_raised(),
    {
        let mut machine = self.core.with(self.regs);
        machine.nmi();
        self.put(machine);
    }

    fn reset(&mut self)
        ensures
            final(self)@.wf(),
            final(self)@ == old(self)@.reset_armed(),
    {
        let mut machine = self.core.with(self.regs);
        machine.reset();
        self.put(machine);
    }
}

/// The bytes of the instruction in progress that `state` has consumed
/// for the entry `instruction`.
pub open spec fn raw_bytes(state: CpuState, instruction: Instruction) -> Seq<u8> {
    seq![state.op, state.o1, state.o2].take(
        if instruction.bytes <= 3 {
            instruction.bytes as int
        } else {
            3
        },
    )
}

impl CpuDebugger for CpuInterpreter {
    fn get_cpu_regs(&self) -> (regs: &CpuRegisters)
        ensures
            self@.wf(),
            *regs == self@.cpu_state.regs,
    {
        proof {
            use_type_invariant(&self.core);
        }
        &self.regs
    }

    /// The registers, to be changed in place, which only an
    /// instruction boundary allows.
    fn get_cup_regs_mut(&mut self) -> (regs: Option<&mut CpuRegisters>)
        ensures
            regs is Some == old(self)@.emu_state.instruction_done,
            match regs {
                Some(r) => *r == old(self)@.cpu_state.regs && final(self)@ == old(
                    self,
                )@.with_regs(*final(r)),
                None => final(self)@ == old(self)@,
            },
    {
        if self.core.machine.emu_state.instruction_done {
            Some(&mut self.regs)
        } else {
            None
        }
    }

    fn get_emulation_state(&self) -> (state: &EmulationState)
        ensures
            self@.wf(),
            *state == self@.emu_state,
    {
        proof {
            use_type_invariant(&self.core);
        }
        &self.core.machine.emu_state
    }

    fn get_decoded_instruction(&self) -> (r: (Option<&Instruction>, Option<&Operand>))
        ensures
            r.0 == (match self@.instruction {
                Some(instruction) => Some(&instruction),
                None => None,
            }),
            r.1 == (match self@.operand {
                Some(operand) => Some(&operand),
                None => None,
            }),
    {
        (self.core.machine.instruction.as_ref(), self.core.machine.operand.as_ref())
    }

    fn get_raw_instruction(&self) -> (raw: Option<Vec<u8>>)
        ensures
            match self@.instruction {
                Some(instruction) => raw matches Some(bytes) && bytes@ == raw_bytes(
                    self@.cpu_state,
                    instruction,
                ),
                None => raw is None,
            },
    {
        match self.core.machine.instruction {
            Some(instruction) => {
                let state = &self.core.machine.cpu_state;
                let mut bytes: Vec<u8> = Vec::new();
                if instruction.bytes >= 1 {
                    bytes.push(state.op);
                }
                if instruction.bytes >= 2 {
                    bytes.push(state.o1);
                }
                if instruction.bytes >= 3 {
                    bytes.push(state.o2);
                }
                assert(bytes@ =~= raw_bytes(self@.cpu_state, instruction));
                Some(bytes)
            },
            None => None,
        }
    }
}

} // verus!

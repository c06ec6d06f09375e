//! How long instructions take: laws about runs of ticks.

use vstd::prelude::*;
use crate::BusMessage;
use crate::cpu::{page, word, CpuFlags, CpuRegisters, CpuState, Interrupt, RESET_VECTOR};
use crate::cpu::instructions::reset_instruction;
use crate::cpu::instructions::ops::reset_spec;
use crate::cpu::instructions::{
    AddrDelegate,
    AddrDelegateReturn,
    Instruction,
    OpDelegate,
    OpDelegateAddress,
    Opcode,
    Operand,
};
use crate::cpu::instructions::addressing::{branch_target, crosses_page};
use crate::cpu::machine::{
    addressing_discipline,
    operation_discipline,
    pending,
    CpuInterpreterState,
    Machine,
};

verus! {

impl Machine {
    /// Whether the machine is not halted.
    pub open spec fn runs(self) -> bool {
        !(self.exec_state is Halt)
    }

    /// The entry of the instruction that a tick delivering `data` works
    /// on: the one that the tick decodes where it starts an instruction,
    /// else the one in progress.
    pub open spec fn working_on(self, data: Option<u8>) -> Instruction {
        if self.exec_state is Fetch && self.emu_state.op_cycle == 0 {
            Opcode::decode(data.unwrap()).unwrap().instruction()
        } else {
            self.instruction.unwrap()
        }
    }

    /// The extra cycles that the instruction in progress was granted or
    /// has asked for.
    pub open spec fn extra_cycles(self) -> int {
        self.emu_state.additional_cycles + pending(self.cpu_state.extra_cycle)
    }

    /// The machine after the ticks that deliver `inputs` in turn.
    pub open spec fn run(self, inputs: Seq<Option<u8>>) -> Machine
        decreases inputs.len(),
    {
        if inputs.len() == 0 {
            self
        } else {
            self.run(inputs.drop_last()).tick(inputs.last()).0
        }
    }

    /// Whether no tick of the run is at fault.
    pub open spec fn runs_clean(self, inputs: Seq<Option<u8>>) -> bool
        decreases inputs.len(),
    {
        inputs.len() > 0 ==> self.runs_clean(inputs.drop_last()) && self.run(
            inputs.drop_last(),
        ).fault(inputs.last()) is None
    }

    /// The number of ticks of the run that ended with an extra cycle
    /// asked for.
    pub open spec fn penalties(self, inputs: Seq<Option<u8>>) -> int
        decreases inputs.len(),
    {
        if inputs.len() == 0 {
            0
        } else {
            self.penalties(inputs.drop_last()) + pending(self.run(inputs).cpu_state.extra_cycle)
        }
    }

    /// Whether no tick of the run, except perhaps its last, completes an
    /// instruction.
    pub open spec fn within_instruction(self, inputs: Seq<Option<u8>>) -> bool
        decreases inputs.len(),
    {
        inputs.len() > 1 ==> self.within_instruction(inputs.drop_last()) && !self.run(
            inputs.drop_last(),
        ).emu_state.instruction_done
    }
}

/// The operation routine's tick: it keeps the machine well formed, and
/// it completes the instruction exactly when the ticks spent equal the
/// entry's cycles plus the extra cycles granted.
pub proof fn execute_accounting(m: Machine)
    requires
        m.may_execute(),
        !m.emu_state.instruction_done,
    ensures
        m.execute().0.wf(),
        m.execute().0.runs(),
        ({
            let t = m.execute().0;
            let i = m.instruction.unwrap();
            if t.emu_state.instruction_done {
                &&& m.emu_state.op_cycle == i.cycles + m.emu_state.additional_cycles
                &&& !t.cpu_state.extra_cycle
                &&& t.emu_state.op_cycle == 0
                &&& m.execute().1 == (BusMessage::Read { addr: t.cpu_state.regs.pc })
            } else {
                &&& t.emu_state.op_cycle == m.emu_state.op_cycle
                &&& t.emu_state.additional_cycles == m.emu_state.additional_cycles
                &&& t.instruction == m.instruction
                &&& t.emu_state.op_cycle < i.cycles + t.extra_cycles()
            }
        }),
{
    operation_discipline(
        m.instruction.unwrap().op_delegate,
        m.operand.unwrap(),
        m.cpu_state,
        (m.exec_cycle + 1) as u8,
    );
}

/// The addressing routine's tick, as [`execute_accounting`].
pub proof fn address_accounting(m: Machine)
    requires
        m.may_address(),
        !m.emu_state.instruction_done,
    ensures
        m.address().0.wf(),
        m.address().0.runs(),
        ({
            let t = m.address().0;
            let i = m.instruction.unwrap();
            if t.emu_state.instruction_done {
                &&& m.emu_state.op_cycle == i.cycles + m.emu_state.additional_cycles
                &&& !t.cpu_state.extra_cycle
                &&& t.emu_state.op_cycle == 0
                &&& m.address().1 == (BusMessage::Read { addr: t.cpu_state.regs.pc })
            } else {
                &&& t.emu_state.op_cycle == m.emu_state.op_cycle
                &&& t.emu_state.additional_cycles == m.emu_state.additional_cycles
                &&& t.instruction == m.instruction
                &&& t.emu_state.op_cycle < i.cycles + t.extra_cycles()
            }
        }),
{
    let i = m.instruction.unwrap();
    let cycle = (m.addr_cycle + 1) as u8;
    addressing_discipline(i.addr_delegate, m.cpu_state, cycle);
    let (cpu_state, answer) = i.addr_delegate.step(m.cpu_state, cycle);
    let called = Machine { cpu_state, addr_cycle: cycle, ..m };
    match answer {
        AddrDelegateReturn::Yield(msg) => {},
        AddrDelegateReturn::Return(operand) => {
            let ready = Machine {
                operand: Some(operand),
                exec_state: CpuInterpreterState::Execute,
                ..called
            };
            assert(i.op_delegate.takes(operand));
            assert(ready.may_execute());
            execute_accounting(ready);
        },
    }
}

/// One tick of a machine that is not halted: it keeps the machine well
/// formed and counts itself, and it completes the instruction exactly
/// when the ticks spent on it, this one included, equal the cycles of
/// its entry plus the extra cycles asked for before this tick. The tick
/// that completes the instruction asks for the byte at the program
/// counter.
pub proof fn tick_accounting(m: Machine, data: Option<u8>)
    requires
        m.wf(),
        m.runs(),
        m.fault(data) is None,
    ensures
        m.tick(data).0.wf(),
        m.tick(data).0.runs(),
        ({
            let t = m.tick(data).0;
            let i = m.working_on(data);
            if t.emu_state.instruction_done {
                &&& m.emu_state.op_cycle + 1 == i.cycles + m.extra_cycles()
                &&& !t.cpu_state.extra_cycle
                &&& t.emu_state.op_cycle == 0
                &&& m.tick(data).1 == (BusMessage::Read { addr: t.cpu_state.regs.pc })
            } else {
                &&& t.emu_state.op_cycle == m.emu_state.op_cycle + 1
                &&& t.emu_state.additional_cycles == m.extra_cycles()
                &&& t.instruction == Some(i)
                &&& t.emu_state.op_cycle < i.cycles + t.extra_cycles()
            }
        }),
{
    reveal(Machine::tick);
    let b = m.begun(data);
    match m.exec_state {
        CpuInterpreterState::Halt => {},
        CpuInterpreterState::Execute => {
            assert(b.may_execute());
            execute_accounting(b);
        },
        CpuInterpreterState::Addressing => {
            assert(b.may_address());
            address_accounting(b);
        },
        CpuInterpreterState::Fetch => {
            let byte = b.cpu_state.data;
            if b.emu_state.op_cycle == 1 {
                Opcode::decode(byte).unwrap().table_is_regular();
            }
            let i = m.working_on(data);
            let cpu = b.cpu_state;
            let pc = crate::cpu::following(cpu.regs.pc);
            let regs = CpuRegisters { pc, ..cpu.regs };
            let taken = if b.emu_state.op_cycle == 1 {
                Machine {
                    cpu_state: CpuState { op: byte, regs, ..cpu },
                    instruction: Some(Opcode::decode(byte).unwrap().instruction()),
                    ..b
                }
            } else if b.emu_state.op_cycle == 2 {
                Machine { cpu_state: CpuState { o1: byte, regs, ..cpu }, ..b }
            } else {
                Machine { cpu_state: CpuState { o2: byte, regs, ..cpu }, ..b }
            };
            assert(taken.instruction == Some(i));
            if taken.emu_state.op_cycle < i.bytes {
            } else {
                let ready = Machine { exec_state: CpuInterpreterState::Addressing, ..taken };
                assert(ready.may_address());
                address_accounting(ready);
            }
        },
    }
}

/// A run within one instruction: as long as the instruction lasts, the
/// ticks spent on it are counted and stay below its cycles plus the
/// extra cycles asked for so far.
proof fn run_accounting(m: Machine, inputs: Seq<Option<u8>>)
    requires
        m.wf(),
        m.runs(),
        m.emu_state.op_cycle == 0,
        inputs.len() >= 1,
        m.runs_clean(inputs),
        m.within_instruction(inputs),
    ensures
        m.run(inputs).wf(),
        m.run(inputs).runs(),
        ({
            let end = m.run(inputs);
            let i = m.working_on(inputs[0]);
            if end.emu_state.instruction_done {
                &&& inputs.len() == i.cycles + m.penalties(inputs)
                &&& end.emu_state.op_cycle == 0
            } else {
                &&& end.emu_state.op_cycle == inputs.len()
                &&& end.extra_cycles() == m.penalties(inputs)
                &&& end.instruction == Some(i)
                &&& inputs.len() < i.cycles + m.penalties(inputs)
            }
        }),
    decreases inputs.len(),
{
    let before = inputs.drop_last();
    let last = inputs.last();
    if inputs.len() == 1 {
        assert(before.len() == 0);
        assert(m.run(before) == m);
        assert(m.penalties(before) == 0);
        assert(m.extra_cycles() == 0);
        tick_accounting(m, last);
        assert(inputs[0] == last);
    } else {
        run_accounting(m, before);
        assert(before[0] == inputs[0]);
        let mid = m.run(before);
        tick_accounting(mid, last);
        assert(mid.working_on(last) == m.working_on(inputs[0]));
    }
}

/// Every instruction takes exactly the cycles of its entry plus the
/// penalties observed. Take a machine that is about to start an
/// instruction, be it that of an opcode or a reset or interrupt
/// sequence, and a run of ticks of which none is at fault and none
/// before the last completes the instruction. If the last tick
/// completes it, the run is as long as the cycles of the entry and the
/// extra cycles asked for during the run together; if it does not, the
/// run is shorter.
pub proof fn instruction_timing(m: Machine, inputs: Seq<Option<u8>>)
    requires
        m.wf(),
        m.runs(),
        m.emu_state.op_cycle == 0,
        inputs.len() >= 1,
        m.runs_clean(inputs),
        m.within_instruction(inputs),
    ensures
        m.run(inputs).emu_state.instruction_done ==> inputs.len() == m.working_on(
            inputs[0],
        ).cycles + m.penalties(inputs),
        !m.run(inputs).emu_state.instruction_done ==> inputs.len() < m.working_on(
            inputs[0],
        ).cycles + m.penalties(inputs),
{
    run_accounting(m, inputs);
}

/// The flag test of a conditional branch: whether the routine `op`
/// branches with the flags of `regs`. `None` for every other routine.
pub open spec fn branch_condition(op: OpDelegateAddress, regs: CpuRegisters) -> Option<bool> {
    match op {
        OpDelegateAddress::Bpl => Some(!regs.flag(CpuFlags::N)),
        OpDelegateAddress::Bmi => Some(regs.flag(CpuFlags::N)),
        OpDelegateAddress::Bvc => Some(!regs.flag(CpuFlags::V)),
        OpDelegateAddress::Bvs => Some(regs.flag(CpuFlags::V)),
        OpDelegateAddress::Bcc => Some(!regs.flag(CpuFlags::C)),
        OpDelegateAddress::Bcs => Some(regs.flag(CpuFlags::C)),
        OpDelegateAddress::Bne => Some(!regs.flag(CpuFlags::Z)),
        OpDelegateAddress::Beq => Some(regs.flag(CpuFlags::Z)),
        _ => None,
    }
}

/// The extra-cycle rules of addressing, all of them. In a state that
/// asks for no extra cycle, a call of an addressing routine asks for one
/// exactly where an absolute indexed mode with penalty, on its first
/// call, or the indirect indexed mode with penalty, on its last, leaves
/// the page of its base.
pub proof fn addressing_penalties(mode: AddrDelegate, s: CpuState, cycle: u8)
    requires
        !s.extra_cycle,
        1 <= cycle <= mode.last_cycle(),
    ensures
        mode.step(s, cycle).0.extra_cycle == (match mode {
            AddrDelegate::AbsXExtra => cycle == 1 && crosses_page(word(s.o1, s.o2), s.regs.x),
            AddrDelegate::AbsYExtra => cycle == 1 && crosses_page(word(s.o1, s.o2), s.regs.y),
            AddrDelegate::IndYExtra => cycle == 3 && crosses_page(
                word(crate::cpu::low(s.addr), s.data),
                s.regs.y,
            ),
            _ => false,
        }),
{
}

/// The extra-cycle rules of the operations, all of them. In a state
/// that asks for no extra cycle, a call of an operation routine asks for
/// one exactly where it is a branch and either this is its first call
/// and its condition holds, or this is its second call and the target
/// lies on another page than the program counter.
pub proof fn operation_penalties(op: OpDelegate, operand: Operand, s: CpuState, cycle: u8)
    requires
        !s.extra_cycle,
        op.takes(operand),
    ensures
        Machine::operate(op, operand, s, cycle).0.extra_cycle == (match (op, operand) {
            (OpDelegate::Address(routine), Operand::Address(target)) => match branch_condition(
                routine,
                s.regs,
            ) {
                Some(taken) => (cycle == 1 && taken) || (cycle == 2 && page(s.regs.pc) != page(
                    target,
                )),
                None => false,
            },
            _ => false,
        }),
{
}

/// A machine that is about to fetch an opcode.
pub open spec fn awaits_opcode(m: Machine) -> bool {
    &&& m.wf()
    &&& m.exec_state is Fetch
    &&& m.emu_state.op_cycle == 0
}

/// Whether `routine` is one of the eight conditional branches.
pub open spec fn is_branch(routine: OpDelegateAddress) -> bool {
    routine is Bpl || routine is Bmi || routine is Bvc || routine is Bvs || routine is Bcc
        || routine is Bcs || routine is Bne || routine is Beq
}

/// The entries with relative addressing are those of the branches: two
/// bytes, two cycles, and one of the eight branch routines.
pub proof fn relative_is_branch(op: Opcode)
    requires
        op.instruction().addr_delegate == AddrDelegate::Rel,
    ensures
        op.instruction().cycles == 2,
        op.instruction().bytes == 2,
        op.instruction().op_delegate is Address,
        is_branch(op.instruction().op_delegate->Address_0),
{
}

/// The tick that consumes the opcode of an instruction of more than one
/// byte: the entry is selected, the program counter steps past the
/// opcode, and the next byte is asked for.
pub proof fn opcode_tick(m: Machine, op: Opcode)
    requires
        awaits_opcode(m),
        op.instruction().bytes >= 2,
    ensures
        ({
            let (t, msg) = m.tick(Some(op.byte()));
            &&& t.wf()
            &&& t.exec_state is Fetch
            &&& t.emu_state.op_cycle == 1
            &&& !t.emu_state.instruction_done
            &&& t.instruction == Some(op.instruction())
            &&& t.cpu_state.regs == (CpuRegisters {
                pc: crate::cpu::following(m.cpu_state.regs.pc),
                ..m.cpu_state.regs
            })
            &&& t.cpu_state.op == op.byte()
            &&& msg == (BusMessage::Read { addr: t.cpu_state.regs.pc })
        }),
{
    reveal(Machine::tick);
    op.decode_of_byte();
    op.table_is_regular();
    tick_accounting(m, Some(op.byte()));
}

/// A machine in the middle of a taken branch to `target`: the operation
/// routine was called `calls` times and has just asked for an extra
/// cycle.
pub open spec fn branching_to(m: Machine, i: Instruction, target: u16, calls: u8) -> bool {
    &&& m.wf()
    &&& m.exec_state is Execute
    &&& m.exec_cycle == calls
    &&& m.cpu_state.extra_cycle
    &&& m.emu_state.op_cycle == calls + 1
    &&& m.emu_state.additional_cycles == calls - 1
    &&& m.instruction == Some(i)
    &&& m.operand == Some(Operand::Address(target))
    &&& i.cycles == 2
    &&& i.op_delegate is Address
    &&& is_branch(i.op_delegate->Address_0)
}

/// The second tick of a branch: it consumes the offset, forms the
/// target and tests the condition. Where the condition fails the
/// instruction is over; where it holds the branch asks for a cycle.
pub proof fn branch_decides(m: Machine, i: Instruction, offset: u8)
    requires
        m.wf(),
        m.exec_state is Fetch,
        m.emu_state.op_cycle == 1,
        m.instruction == Some(i),
        i.addr_delegate == AddrDelegate::Rel,
        i.bytes == 2,
        i.cycles == 2,
        i.op_delegate is Address,
        is_branch(i.op_delegate->Address_0),
    ensures
        ({
            let t = m.tick(Some(offset)).0;
            let next = crate::cpu::following(m.cpu_state.regs.pc);
            let taken = branch_condition(i.op_delegate->Address_0, m.cpu_state.regs).unwrap();
            &&& t.cpu_state.regs == (CpuRegisters { pc: next, ..m.cpu_state.regs })
            &&& t.emu_state.instruction_done == !taken
            &&& taken ==> branching_to(t, i, branch_target(next, offset), 1)
        }),
{
    reveal(Machine::tick);
    let b = m.begun(Some(offset));
    let cpu = b.cpu_state;
    let next = crate::cpu::following(cpu.regs.pc);
    let fetched = Machine {
        cpu_state: CpuState { o1: offset, regs: CpuRegisters { pc: next, ..cpu.regs }, ..cpu },
        exec_state: CpuInterpreterState::Addressing,
        ..b
    };
    assert(b.fetch() == fetched.address());
    let target = branch_target(next, offset);
    let ready = Machine {
        operand: Some(Operand::Address(target)),
        exec_state: CpuInterpreterState::Execute,
        addr_cycle: 1,
        ..fetched
    };
    assert(fetched.address() == ready.execute());
    assert(ready.may_execute());
    execute_accounting(ready);
    operation_penalties(i.op_delegate, Operand::Address(target), ready.cpu_state, 1);
}

/// A later tick of a taken branch. The second call of the routine
/// jumps, and asks for one more cycle where the target lies on another
/// page than the program counter; without that request, and in any case
/// with the third call, the instruction is over.
pub proof fn branch_proceeds(m: Machine, i: Instruction, target: u16, calls: u8, data: Option<u8>)
    requires
        branching_to(m, i, target, calls),
        calls == 1 || (calls == 2 && m.cpu_state.regs.pc == target),
    ensures
        ({
            let t = m.tick(data).0;
            let crossing = calls == 1 && page(m.cpu_state.regs.pc) != page(target);
            &&& t.cpu_state.regs == (CpuRegisters { pc: target, ..m.cpu_state.regs })
            &&& t.emu_state.instruction_done == !crossing
            &&& crossing ==> branching_to(t, i, target, 2)
        }),
{
    reveal(Machine::tick);
    let b = m.begun(data);
    assert(b.may_execute());
    execute_accounting(b);
    operation_penalties(
        i.op_delegate,
        Operand::Address(target),
        b.cpu_state,
        (calls + 1) as u8,
    );
}

/// The timing of a conditional branch. Take a machine that is about to
/// fetch the opcode, and deliver the opcode of a branch and its offset.
/// With `next` the address after the two bytes and `target` that address
/// plus the signed offset: a branch that is not taken is over after two
/// ticks, with the program counter at `next`; a taken one to the page
/// of `next` is over after three, and one to another page after four,
/// both with the program counter at `target`.
pub proof fn branch_timing(
    m: Machine,
    op: Opcode,
    offset: u8,
    third: Option<u8>,
    fourth: Option<u8>,
)
    requires
        awaits_opcode(m),
        op.instruction().addr_delegate == AddrDelegate::Rel,
    ensures
        ({
            let routine = op.instruction().op_delegate->Address_0;
            let taken = branch_condition(routine, m.cpu_state.regs).unwrap();
            let next = crate::cpu::following(crate::cpu::following(m.cpu_state.regs.pc));
            let target = branch_target(next, offset);
            let t1 = m.tick(Some(op.byte())).0;
            let t2 = t1.tick(Some(offset)).0;
            let t3 = t2.tick(third).0;
            let t4 = t3.tick(fourth).0;
            &&& !t1.emu_state.instruction_done
            &&& if !taken {
                &&& t2.emu_state.instruction_done
                &&& t2.cpu_state.regs.pc == next
            } else if page(target) == page(next) {
                &&& !t2.emu_state.instruction_done
                &&& t3.emu_state.instruction_done
                &&& t3.cpu_state.regs.pc == target
            } else {
                &&& !t2.emu_state.instruction_done
                &&& !t3.emu_state.instruction_done
                &&& t4.emu_state.instruction_done
                &&& t4.cpu_state.regs.pc == target
            }
        }),
{
    let i = op.instruction();
    relative_is_branch(op);
    opcode_tick(m, op);
    let t1 = m.tick(Some(op.byte())).0;
    branch_decides(t1, i, offset);
    let t2 = t1.tick(Some(offset)).0;
    let next = crate::cpu::following(crate::cpu::following(m.cpu_state.regs.pc));
    let target = branch_target(next, offset);
    if !t2.emu_state.instruction_done {
        branch_proceeds(t2, i, target, 1, third);
        let t3 = t2.tick(third).0;
        if !t3.emu_state.instruction_done {
            branch_proceeds(t3, i, target, 2, fourth);
        }
    }
}

/// BNE takes two ticks where Z is set, three where it branches within
/// the page of the next instruction, and four where it branches to
/// another page.
pub proof fn bne_timing(m: Machine, offset: u8, third: Option<u8>, fourth: Option<u8>)
    requires
        awaits_opcode(m),
    ensures
        ({
            let next = crate::cpu::following(crate::cpu::following(m.cpu_state.regs.pc));
            let target = branch_target(next, offset);
            let t1 = m.tick(Some(0xD0u8)).0;
            let t2 = t1.tick(Some(offset)).0;
            let t3 = t2.tick(third).0;
            let t4 = t3.tick(fourth).0;
            &&& !t1.emu_state.instruction_done
            &&& if m.cpu_state.regs.flag(CpuFlags::Z) {
                t2.emu_state.instruction_done
            } else if page(target) == page(next) {
                !t2.emu_state.instruction_done && t3.emu_state.instruction_done
            } else {
                !t2.emu_state.instruction_done && !t3.emu_state.instruction_done
                    && t4.emu_state.instruction_done
            }
        }),
{
    branch_timing(m, Opcode::BNE_rel, offset, third, fourth);
}

/// The entries whose addressing knows a page-crossing penalty are those
/// of instructions that read their operand: none of them branches, the
/// absolute ones take four cycles and the indirect one five.
pub proof fn penalty_modes_read(op: Opcode)
    requires
        op.instruction().addr_delegate == AddrDelegate::AbsXExtra || op.instruction().addr_delegate
            == AddrDelegate::AbsYExtra || op.instruction().addr_delegate
            == AddrDelegate::IndYExtra,
    ensures
        op.instruction().op_delegate is Address,
        !is_branch(op.instruction().op_delegate->Address_0),
        op.instruction().cycles == (if op.instruction().addr_delegate == AddrDelegate::IndYExtra {
            5u8
        } else {
            4u8
        }),
{
}

/// A machine that executes the entry `i`, has called its operation
/// routine `calls` times in `ticks` ticks, was granted `granted` extra
/// cycles and asks for none.
pub open spec fn executing(m: Machine, i: Instruction, calls: u8, ticks: u8, granted: u8) -> bool {
    &&& m.wf()
    &&& m.exec_state is Execute
    &&& m.exec_cycle == calls
    &&& m.emu_state.op_cycle == ticks
    &&& m.emu_state.additional_cycles == granted
    &&& !m.cpu_state.extra_cycle
    &&& m.instruction == Some(i)
    &&& m.operand is Some
}

/// A tick in the execute phase of an instruction that does not branch:
/// it asks for no extra cycle, so the instruction is over as soon as its
/// cycles and the granted ones are spent.
pub proof fn execute_tick(
    m: Machine,
    i: Instruction,
    calls: u8,
    ticks: u8,
    granted: u8,
    data: Option<u8>,
)
    requires
        executing(m, i, calls, ticks, granted),
        i.is_regular(),
        i.op_delegate is Address ==> !is_branch(i.op_delegate->Address_0),
    ensures
        ({
            let t = m.tick(data).0;
            &&& t.emu_state.instruction_done == (ticks + 1 >= i.cycles + granted)
            &&& !t.emu_state.instruction_done ==> executing(
                t,
                i,
                (calls + 1) as u8,
                (ticks + 1) as u8,
                granted,
            )
            &&& t.cpu_state == Machine::operate(
                i.op_delegate,
                m.operand.unwrap(),
                m.begun(data).cpu_state,
                (calls + 1) as u8,
            ).0
        }),
{
    reveal(Machine::tick);
    let b = m.begun(data);
    assert(b.may_execute());
    execute_accounting(b);
    operation_penalties(
        i.op_delegate,
        m.operand.unwrap(),
        b.cpu_state,
        (calls + 1) as u8,
    );
}

/// The tick that consumes the second byte of an instruction of three.
pub proof fn operand_tick(m: Machine, i: Instruction, byte: u8)
    requires
        m.wf(),
        m.exec_state is Fetch,
        m.emu_state.op_cycle == 1,
        m.instruction == Some(i),
        i.bytes == 3,
    ensures
        ({
            let (t, msg) = m.tick(Some(byte));
            &&& t.wf()
            &&& t.exec_state is Fetch
            &&& t.emu_state.op_cycle == 2
            &&& !t.emu_state.instruction_done
            &&& t.instruction == Some(i)
            &&& t.cpu_state.regs == (CpuRegisters {
                pc: crate::cpu::following(m.cpu_state.regs.pc),
                ..m.cpu_state.regs
            })
            &&& t.cpu_state.o1 == byte
            &&& msg == (BusMessage::Read { addr: t.cpu_state.regs.pc })
        }),
{
    reveal(Machine::tick);
    tick_accounting(m, Some(byte));
}

/// The index register of an absolute indexed mode.
pub open spec fn index_of(mode: AddrDelegate, regs: CpuRegisters) -> u8 {
    if mode == AddrDelegate::AbsXExtra || mode == AddrDelegate::AbsX {
        regs.x
    } else {
        regs.y
    }
}

/// A machine whose absolute indexed addressing has just found that it
/// leaves the page, asked for the extra cycle and spent its tick idle.
pub open spec fn paying_penalty(m: Machine, i: Instruction, addr: u16) -> bool {
    &&& m.wf()
    &&& m.exec_state is Addressing
    &&& m.addr_cycle == 1
    &&& m.emu_state.op_cycle == 3
    &&& m.emu_state.additional_cycles == 0
    &&& m.cpu_state.extra_cycle
    &&& m.cpu_state.addr == addr
    &&& m.instruction == Some(i)
}

/// The tick that consumes the third byte of an instruction in an
/// absolute indexed mode with penalty. Within the page the operation
/// starts at once; across pages the tick is idle and an extra cycle is
/// asked for.
pub proof fn index_tick(m: Machine, i: Instruction, high: u8)
    requires
        m.wf(),
        m.exec_state is Fetch,
        m.emu_state.op_cycle == 2,
        m.instruction == Some(i),
        i.addr_delegate == AddrDelegate::AbsXExtra || i.addr_delegate == AddrDelegate::AbsYExtra,
        i.op_delegate is Address,
        !is_branch(i.op_delegate->Address_0),
    ensures
        ({
            let (t, msg) = m.tick(Some(high));
            let base = word(m.cpu_state.o1, high);
            let index = index_of(i.addr_delegate, m.cpu_state.regs);
            let addr = crate::cpu::instructions::addressing::indexed(base, index);
            &&& !t.emu_state.instruction_done
            &&& if crosses_page(base, index) {
                &&& paying_penalty(t, i, addr)
                &&& msg == BusMessage::Nop
            } else {
                &&& executing(t, i, 1, 3, 0)
                &&& t.operand == Some(Operand::Address(addr))
                &&& msg == i.op_delegate->Address_0.step(
                    CpuState {
                        o2: high,
                        data: high,
                        addr,
                        regs: CpuRegisters {
                            pc: crate::cpu::following(m.cpu_state.regs.pc),
                            ..m.cpu_state.regs
                        },
                        ..m.cpu_state
                    },
                    addr,
                    1,
                ).1
            }
        }),
{
    reveal(Machine::tick);
    let b = m.begun(Some(high));
    let cpu = b.cpu_state;
    let next = crate::cpu::following(cpu.regs.pc);
    let fetched = Machine {
        cpu_state: CpuState { o2: high, regs: CpuRegisters { pc: next, ..cpu.regs }, ..cpu },
        exec_state: CpuInterpreterState::Addressing,
        ..b
    };
    assert(b.fetch() == fetched.address());
    assert(fetched.may_address());
    address_accounting(fetched);
    addressing_penalties(i.addr_delegate, fetched.cpu_state, 1);
    let base = word(m.cpu_state.o1, high);
    let index = index_of(i.addr_delegate, m.cpu_state.regs);
    if !crosses_page(base, index) {
        let addr = crate::cpu::instructions::addressing::indexed(base, index);
        let ready = Machine {
            cpu_state: CpuState { addr, ..fetched.cpu_state },
            operand: Some(Operand::Address(addr)),
            exec_state: CpuInterpreterState::Execute,
            addr_cycle: 1,
            ..fetched
        };
        assert(fetched.address() == ready.execute());
        operation_penalties(i.op_delegate, Operand::Address(addr), ready.cpu_state, 1);
    }
}

/// The tick after a page crossing was found: the address is returned and
/// the operation starts, one tick later than within the page.
pub proof fn penalty_tick(m: Machine, i: Instruction, addr: u16, data: Option<u8>)
    requires
        paying_penalty(m, i, addr),
        i.addr_delegate == AddrDelegate::AbsXExtra || i.addr_delegate == AddrDelegate::AbsYExtra,
        i.op_delegate is Address,
        !is_branch(i.op_delegate->Address_0),
        i.cycles == 4,
    ensures
        ({
            let (t, msg) = m.tick(data);
            &&& executing(t, i, 1, 4, 1)
            &&& !t.emu_state.instruction_done
            &&& t.operand == Some(Operand::Address(addr))
            &&& msg == i.op_delegate->Address_0.step(m.begun(data).cpu_state, addr, 1).1
        }),
{
    reveal(Machine::tick);
    let b = m.begun(data);
    assert(b.may_address());
    address_accounting(b);
    addressing_penalties(i.addr_delegate, b.cpu_state, 2);
    let ready = Machine {
        operand: Some(Operand::Address(addr)),
        exec_state: CpuInterpreterState::Execute,
        addr_cycle: 2,
        ..b
    };
    assert(b.address() == ready.execute());
    operation_penalties(i.op_delegate, Operand::Address(addr), ready.cpu_state, 1);
}

/// The page-crossing penalty of the absolute indexed modes. Take a
/// machine that is about to fetch the opcode, and deliver the opcode of
/// an instruction in such a mode and the two bytes of its base address.
/// Where base plus index stays in the page of the base the instruction
/// is over after four ticks, where it leaves the page after five.
pub proof fn indexed_timing(
    m: Machine,
    op: Opcode,
    low: u8,
    high: u8,
    fourth: Option<u8>,
    fifth: Option<u8>,
)
    requires
        awaits_opcode(m),
        op.instruction().addr_delegate == AddrDelegate::AbsXExtra || op.instruction().addr_delegate
            == AddrDelegate::AbsYExtra,
    ensures
        ({
            let crossing = crosses_page(
                word(low, high),
                index_of(op.instruction().addr_delegate, m.cpu_state.regs),
            );
            let t1 = m.tick(Some(op.byte())).0;
            let t2 = t1.tick(Some(low)).0;
            let t3 = t2.tick(Some(high)).0;
            let t4 = t3.tick(fourth).0;
            let t5 = t4.tick(fifth).0;
            &&& !t1.emu_state.instruction_done
            &&& !t2.emu_state.instruction_done
            &&& !t3.emu_state.instruction_done
            &&& t4.emu_state.instruction_done == !crossing
            &&& crossing ==> t5.emu_state.instruction_done
        }),
{
    let i = op.instruction();
    penalty_modes_read(op);
    op.table_is_regular();
    opcode_tick(m, op);
    let t1 = m.tick(Some(op.byte())).0;
    operand_tick(t1, i, low);
    let t2 = t1.tick(Some(low)).0;
    index_tick(t2, i, high);
    let t3 = t2.tick(Some(high)).0;
    let index = index_of(i.addr_delegate, m.cpu_state.regs);
    if crosses_page(word(low, high), index) {
        penalty_tick(t3, i, t3.cpu_state.addr, fourth);
        let t4 = t3.tick(fourth).0;
        execute_tick(t4, i, 1, 4, 1, fifth);
    } else {
        execute_tick(t3, i, 1, 3, 0, fourth);
    }
}

/// LDA absolute,X takes four ticks where adding X to the base stays in
/// the page of the base and five where the carry reaches the high byte;
/// either way its last tick loads the byte that it was delivered.
pub proof fn lda_abs_x_timing(m: Machine, low: u8, high: u8, fourth: u8, fifth: u8)
    requires
        awaits_opcode(m),
    ensures
        ({
            let crossing = crosses_page(word(low, high), m.cpu_state.regs.x);
            let addr = crate::cpu::instructions::addressing::indexed(
                word(low, high),
                m.cpu_state.regs.x,
            );
            let t1 = m.tick(Some(0xBDu8)).0;
            let t2 = t1.tick(Some(low)).0;
            let (t3, third_request) = t2.tick(Some(high));
            let (t4, fourth_request) = t3.tick(Some(fourth));
            let t5 = t4.tick(Some(fifth)).0;
            &&& !t1.emu_state.instruction_done
            &&& !t2.emu_state.instruction_done
            &&& !t3.emu_state.instruction_done
            &&& if crossing {
                &&& third_request == BusMessage::Nop
                &&& fourth_request == (BusMessage::Read { addr })
                &&& !t4.emu_state.instruction_done
                &&& t5.emu_state.instruction_done
                &&& t5.cpu_state.regs.a == fifth
            } else {
                &&& third_request == (BusMessage::Read { addr })
                &&& t4.emu_state.instruction_done
                &&& t4.cpu_state.regs.a == fourth
            }
        }),
{
    let op = Opcode::LDA_abs_x;
    let i = op.instruction();
    indexed_timing(m, op, low, high, Some(fourth), Some(fifth));
    penalty_modes_read(op);
    opcode_tick(m, op);
    let t1 = m.tick(Some(op.byte())).0;
    operand_tick(t1, i, low);
    let t2 = t1.tick(Some(low)).0;
    index_tick(t2, i, high);
    let t3 = t2.tick(Some(high)).0;
    op.table_is_regular();
    if crosses_page(word(low, high), m.cpu_state.regs.x) {
        penalty_tick(t3, i, t3.cpu_state.addr, Some(fourth));
        let t4 = t3.tick(Some(fourth)).0;
        execute_tick(t4, i, 1, 4, 1, Some(fifth));
    } else {
        execute_tick(t3, i, 1, 3, 0, Some(fourth));
    }
}

/// A machine whose indirect indexed addressing has read `reads` bytes of
/// its pointer, the first of which, if it was read, is in the address
/// scratch.
pub open spec fn reading_pointer(m: Machine, i: Instruction, reads: u8) -> bool {
    &&& m.wf()
    &&& m.exec_state is Addressing
    &&& m.addr_cycle == reads + 1
    &&& m.emu_state.op_cycle == reads + 2
    &&& m.emu_state.additional_cycles == 0
    &&& !m.cpu_state.extra_cycle
    &&& m.instruction == Some(i)
    &&& i.addr_delegate == AddrDelegate::IndYExtra
    &&& i.cycles == 5
    &&& i.op_delegate is Address
    &&& !is_branch(i.op_delegate->Address_0)
}

/// The tick that consumes the second byte of an instruction in the
/// indirect indexed mode with penalty: it asks for the low byte of the
/// pointer, which stands in the zero page at that byte.
pub proof fn pointer_tick(m: Machine, i: Instruction, zp: u8)
    requires
        m.wf(),
        m.exec_state is Fetch,
        m.emu_state.op_cycle == 1,
        m.instruction == Some(i),
        i.addr_delegate == AddrDelegate::IndYExtra,
        i.cycles == 5,
        i.op_delegate is Address,
        !is_branch(i.op_delegate->Address_0),
    ensures
        ({
            let (t, msg) = m.tick(Some(zp));
            &&& reading_pointer(t, i, 0)
            &&& !t.emu_state.instruction_done
            &&& t.cpu_state.o1 == zp
            &&& t.cpu_state.regs.y == m.cpu_state.regs.y
            &&& msg == (BusMessage::Read { addr: zp as u16 })
        }),
{
    reveal(Machine::tick);
    let b = m.begun(Some(zp));
    let cpu = b.cpu_state;
    let next = crate::cpu::following(cpu.regs.pc);
    let fetched = Machine {
        cpu_state: CpuState { o1: zp, regs: CpuRegisters { pc: next, ..cpu.regs }, ..cpu },
        exec_state: CpuInterpreterState::Addressing,
        ..b
    };
    assert(b.fetch() == fetched.address());
    assert(fetched.may_address());
    address_accounting(fetched);
    addressing_penalties(i.addr_delegate, fetched.cpu_state, 1);
}

/// The tick that is delivered the low byte of the pointer: it keeps the
/// byte and asks for the high byte, which stands next to the low byte
/// in the zero page.
pub proof fn pointer_low_tick(m: Machine, i: Instruction, low: u8)
    requires
        reading_pointer(m, i, 0),
    ensures
        ({
            let (t, msg) = m.tick(Some(low));
            &&& reading_pointer(t, i, 1)
            &&& !t.emu_state.instruction_done
            &&& t.cpu_state.addr == low
            &&& t.cpu_state.regs.y == m.cpu_state.regs.y
            &&& msg == (BusMessage::Read {
                addr: crate::cpu::instructions::addressing::zero_page_indexed(m.cpu_state.o1, 1)
                    as u16,
            })
        }),
{
    reveal(Machine::tick);
    let b = m.begun(Some(low));
    assert(b.may_address());
    address_accounting(b);
    addressing_penalties(i.addr_delegate, b.cpu_state, 2);
}

/// A machine that executes the entry `i`, has called its operation
/// routine once in four ticks and asks for an extra cycle exactly where
/// `asked` says.
pub open spec fn starting(m: Machine, i: Instruction, asked: bool) -> bool {
    &&& m.wf()
    &&& m.exec_state is Execute
    &&& m.exec_cycle == 1
    &&& m.emu_state.op_cycle == 4
    &&& m.emu_state.additional_cycles == 0
    &&& m.cpu_state.extra_cycle == asked
    &&& m.instruction == Some(i)
    &&& m.operand is Some
}

/// The tick that is delivered the high byte of the pointer: the pointer
/// is complete, Y is added to it, and the operation starts at once. An
/// extra cycle is asked for where adding Y leaves the page of the
/// pointer.
pub proof fn pointer_high_tick(m: Machine, i: Instruction, high: u8)
    requires
        reading_pointer(m, i, 1),
    ensures
        ({
            let t = m.tick(Some(high)).0;
            let pointer = word(crate::cpu::low(m.cpu_state.addr), high);
            &&& !t.emu_state.instruction_done
            &&& starting(t, i, crosses_page(pointer, m.cpu_state.regs.y))
            &&& t.operand == Some(
                Operand::Address(
                    crate::cpu::instructions::addressing::indexed(pointer, m.cpu_state.regs.y),
                ),
            )
        }),
{
    reveal(Machine::tick);
    let b = m.begun(Some(high));
    assert(b.may_address());
    address_accounting(b);
    addressing_penalties(i.addr_delegate, b.cpu_state, 3);
    let pointer = word(crate::cpu::low(m.cpu_state.addr), high);
    let addr = crate::cpu::instructions::addressing::indexed(pointer, m.cpu_state.regs.y);
    let ready = Machine {
        cpu_state: CpuState {
            addr,
            extra_cycle: crosses_page(pointer, m.cpu_state.regs.y),
            ..b.cpu_state
        },
        operand: Some(Operand::Address(addr)),
        exec_state: CpuInterpreterState::Execute,
        addr_cycle: 3,
        ..b
    };
    assert(b.address() == ready.execute());
    assert(ready.may_execute());
    execute_accounting(ready);
}

/// The tick after the operation has started in the indirect indexed
/// mode: without a crossing the instruction is over; with one the extra
/// cycle is granted and the instruction lasts one tick more.
pub proof fn granting_tick(m: Machine, i: Instruction, asked: bool, data: Option<u8>)
    requires
        starting(m, i, asked),
        i.is_regular(),
        i.cycles == 5,
        i.op_delegate is Address,
        !is_branch(i.op_delegate->Address_0),
    ensures
        ({
            let t = m.tick(data).0;
            &&& t.emu_state.instruction_done == !asked
            &&& asked ==> executing(t, i, 2, 5, 1)
        }),
{
    reveal(Machine::tick);
    let b = m.begun(data);
    assert(b.may_execute());
    execute_accounting(b);
    operation_penalties(i.op_delegate, m.operand.unwrap(), b.cpu_state, 2);
}

/// The page-crossing penalty of the indirect indexed mode. Take a
/// machine that is about to fetch the opcode, and deliver the opcode of
/// an instruction in that mode, the zero page address of its pointer,
/// and the two bytes of the pointer. Where pointer plus Y stays in the
/// page of the pointer the instruction is over after five ticks, where
/// it leaves the page after six.
pub proof fn indirect_indexed_timing(
    m: Machine,
    op: Opcode,
    zp: u8,
    low: u8,
    high: u8,
    fifth: Option<u8>,
    sixth: Option<u8>,
)
    requires
        awaits_opcode(m),
        op.instruction().addr_delegate == AddrDelegate::IndYExtra,
    ensures
        ({
            let crossing = crosses_page(word(low, high), m.cpu_state.regs.y);
            let t1 = m.tick(Some(op.byte())).0;
            let t2 = t1.tick(Some(zp)).0;
            let t3 = t2.tick(Some(low)).0;
            let t4 = t3.tick(Some(high)).0;
            let t5 = t4.tick(fifth).0;
            let t6 = t5.tick(sixth).0;
            &&& !t1.emu_state.instruction_done
            &&& !t2.emu_state.instruction_done
            &&& !t3.emu_state.instruction_done
            &&& !t4.emu_state.instruction_done
            &&& t5.emu_state.instruction_done == !crossing
            &&& crossing ==> t6.emu_state.instruction_done
        }),
{
    let i = op.instruction();
    penalty_modes_read(op);
    op.table_is_regular();
    opcode_tick(m, op);
    let t1 = m.tick(Some(op.byte())).0;
    pointer_tick(t1, i, zp);
    let t2 = t1.tick(Some(zp)).0;
    pointer_low_tick(t2, i, low);
    let t3 = t2.tick(Some(low)).0;
    pointer_high_tick(t3, i, high);
    let t4 = t3.tick(Some(high)).0;
    let crossing = crosses_page(word(low, high), m.cpu_state.regs.y);
    granting_tick(t4, i, crossing, fifth);
    if crossing {
        let t5 = t4.tick(fifth).0;
        execute_tick(t5, i, 2, 5, 1, sixth);
    }
}

/// A machine `ticks` ticks into the reset sequence.
pub open spec fn resetting(m: Machine, ticks: u8) -> bool {
    &&& m.wf()
    &&& m.exec_state is Execute
    &&& m.exec_cycle == ticks
    &&& m.emu_state.op_cycle == ticks
    &&& m.emu_state.additional_cycles == 0
    &&& !m.cpu_state.extra_cycle
    &&& m.instruction == Some(reset_instruction())
    &&& m.operand == Some(Operand::Address(RESET_VECTOR))
}

/// One tick of the reset sequence: the routine's call is all that
/// happens to the processor state, and its request is the tick's. The
/// eighth tick completes the sequence.
pub proof fn reset_tick(m: Machine, ticks: u8, data: Option<u8>)
    requires
        resetting(m, ticks),
        ticks < 8,
    ensures
        ({
            let (t, msg) = m.tick(data);
            let (cpu_state, request) = reset_spec(
                m.begun(data).cpu_state,
                RESET_VECTOR,
                (ticks + 1) as u8,
            );
            &&& t.cpu_state == cpu_state
            &&& msg == request
            &&& t.emu_state.instruction_done == (ticks == 7)
            &&& t.emu_state.interrupt_request == m.emu_state.interrupt_request
            &&& ticks < 7 ==> resetting(t, (ticks + 1) as u8)
            &&& ticks == 7 && m.emu_state.interrupt_request == Interrupt::Idle
                ==> awaits_opcode(t)
        }),
{
    reveal(Machine::tick);
    let b = m.begun(data);
    assert(b.may_execute());
    execute_accounting(b);
}

/// The reset sequence. After a reset, whatever the machine was doing,
/// eight ticks complete the sequence and no fewer do. The first five
/// are idle, the sixth and seventh read the two bytes of the reset
/// vector, and the eighth asks for the first opcode. With `low` and
/// `high` the bytes that the two reads deliver, the sequence ends with
/// the program counter at the word they form, the stack pointer at
/// 0xFD, the status register at 0x24 and A, X and Y at zero.
pub proof fn reset_sequence(m: Machine, first_six: Seq<Option<u8>>, low: u8, high: u8)
    requires
        first_six.len() == 6,
    ensures
        ({
            let (t1, r1) = m.reset_armed().tick(first_six[0]);
            let (t2, r2) = t1.tick(first_six[1]);
            let (t3, r3) = t2.tick(first_six[2]);
            let (t4, r4) = t3.tick(first_six[3]);
            let (t5, r5) = t4.tick(first_six[4]);
            let (t6, r6) = t5.tick(first_six[5]);
            let (t7, r7) = t6.tick(Some(low));
            let (t8, r8) = t7.tick(Some(high));
            &&& r1 == BusMessage::Nop && r2 == BusMessage::Nop && r3 == BusMessage::Nop
            &&& r4 == BusMessage::Nop && r5 == BusMessage::Nop
            &&& r6 == (BusMessage::Read { addr: 0xFFFC })
            &&& r7 == (BusMessage::Read { addr: 0xFFFD })
            &&& r8 == (BusMessage::Read { addr: word(low, high) })
            &&& !t1.emu_state.instruction_done && !t2.emu_state.instruction_done
            &&& !t3.emu_state.instruction_done && !t4.emu_state.instruction_done
            &&& !t5.emu_state.instruction_done && !t6.emu_state.instruction_done
            &&& !t7.emu_state.instruction_done
            &&& t8.emu_state.instruction_done
            &&& awaits_opcode(t8)
            &&& t8.cpu_state.regs == (CpuRegisters {
                a: 0,
                x: 0,
                y: 0,
                sp: 0xFD,
                pc: word(low, high),
                status: 0x24,
            })
        }),
{
    let t0 = m.reset_armed();
    reset_tick(t0, 0, first_six[0]);
    let t1 = t0.tick(first_six[0]).0;
    reset_tick(t1, 1, first_six[1]);
    let t2 = t1.tick(first_six[1]).0;
    reset_tick(t2, 2, first_six[2]);
    let t3 = t2.tick(first_six[2]).0;
    reset_tick(t3, 3, first_six[3]);
    let t4 = t3.tick(first_six[3]).0;
    reset_tick(t4, 4, first_six[4]);
    let t5 = t4.tick(first_six[4]).0;
    reset_tick(t5, 5, first_six[5]);
    let t6 = t5.tick(first_six[5]).0;
    reset_tick(t6, 6, Some(low));
    let t7 = t6.tick(Some(low)).0;
    reset_tick(t7, 7, Some(high));
}

/// Whether the tick that `m` is about to make is the one in which a
/// shift, a rotation or a count of a byte in memory replaces the byte
/// on the data latch by its result.
pub open spec fn rewrites_latch(m: Machine) -> bool {
    &&& m.exec_state is Execute
    &&& m.exec_cycle == 1
    &&& m.instruction matches Some(i)
    &&& i.op_delegate matches OpDelegate::Address(routine)
    &&& (routine is Asl || routine is Lsr || routine is Rol || routine is Ror || routine is Inc
        || routine is Dec)
}

/// The byte that a tick delivers is on the data latch when the tick's
/// routines run, and it is still there when the tick ends, unless a
/// shift, a rotation or a count of a byte in memory has just replaced
/// it by its result. A tick that delivers nothing leaves the latch to
/// the routines alone.
pub proof fn delivered_byte_is_latched(m: Machine, byte: u8)
    requires
        m.wf(),
        m.runs(),
        m.fault(Some(byte)) is None,
    ensures
        m.begun(Some(byte)).cpu_state.data == byte,
        !rewrites_latch(m) ==> m.tick(Some(byte)).0.cpu_state.data == byte,
{
    reveal(Machine::tick);
    let data = Some(byte);
    let b = m.begun(data);
    match m.exec_state {
        CpuInterpreterState::Halt => {},
        CpuInterpreterState::Execute => {
            assert(b.may_execute());
            latch_survives_operation(b);
        },
        CpuInterpreterState::Addressing => {
            assert(b.may_address());
            latch_survives_addressing(b);
        },
        CpuInterpreterState::Fetch => {
            if b.emu_state.op_cycle == 1 {
                Opcode::decode(byte).unwrap().table_is_regular();
            }
            let i = m.working_on(data);
            let cpu = b.cpu_state;
            let pc = crate::cpu::following(cpu.regs.pc);
            let regs = CpuRegisters { pc, ..cpu.regs };
            let taken = if b.emu_state.op_cycle == 1 {
                Machine {
                    cpu_state: CpuState { op: byte, regs, ..cpu },
                    instruction: Some(Opcode::decode(byte).unwrap().instruction()),
                    ..b
                }
            } else if b.emu_state.op_cycle == 2 {
                Machine { cpu_state: CpuState { o1: byte, regs, ..cpu }, ..b }
            } else {
                Machine { cpu_state: CpuState { o2: byte, regs, ..cpu }, ..b }
            };
            assert(taken.instruction == Some(i));
            if taken.emu_state.op_cycle < i.bytes {
            } else {
                let ready = Machine { exec_state: CpuInterpreterState::Addressing, ..taken };
                assert(ready.may_address());
                latch_survives_addressing(ready);
            }
        },
    }
}

/// A call of an operation routine changes the data latch only in the
/// second call of a shift, a rotation or a count of a byte in memory.
proof fn latch_survives_operation(m: Machine)
    requires
        m.may_execute(),
    ensures
        !(m.exec_cycle == 1 && rewrites_latch(Machine { exec_cycle: 1, ..m }))
            ==> m.execute().0.cpu_state.data == m.cpu_state.data,
{
}

/// No addressing routine changes the data latch.
proof fn latch_survives_addressing(m: Machine)
    requires
        m.may_address(),
    ensures
        m.address().0.cpu_state.data == m.cpu_state.data,
{
    let i = m.instruction.unwrap();
    let cycle = (m.addr_cycle + 1) as u8;
    addressing_discipline(i.addr_delegate, m.cpu_state, cycle);
    let (cpu_state, answer) = i.addr_delegate.step(m.cpu_state, cycle);
    let called = Machine { cpu_state, addr_cycle: cycle, ..m };
    match answer {
        AddrDelegateReturn::Yield(msg) => {},
        AddrDelegateReturn::Return(operand) => {
            let ready = Machine {
                operand: Some(operand),
                exec_state: CpuInterpreterState::Execute,
                ..called
            };
            assert(i.op_delegate.takes(operand));
            assert(ready.may_execute());
            latch_survives_operation(ready);
        },
    }
}

/// The program counter steps through the sixteen-bit address space and
/// wraps at its end. A tick of the fetch phase that is followed by
/// another one steps the program counter to the following address and
/// asks for the byte there; after 0xFFFF that address is 0x0000.
pub proof fn fetch_advances(m: Machine, byte: u8)
    requires
        m.wf(),
        m.exec_state is Fetch,
        m.fault(Some(byte)) is None,
        m.tick(Some(byte)).0.exec_state is Fetch,
        !m.tick(Some(byte)).0.emu_state.instruction_done,
    ensures
        m.tick(Some(byte)).0.cpu_state.regs.pc == crate::cpu::following(m.cpu_state.regs.pc),
        m.tick(Some(byte)).1 == (BusMessage::Read {
            addr: crate::cpu::following(m.cpu_state.regs.pc),
        }),
        crate::cpu::following(0xFFFF) == 0x0000,
{
    reveal(Machine::tick);
    let data = Some(byte);
    let b = m.begun(data);
    if b.emu_state.op_cycle == 1 {
        Opcode::decode(byte).unwrap().table_is_regular();
    }
    let i = m.working_on(data);
    let cpu = b.cpu_state;
    let pc = crate::cpu::following(cpu.regs.pc);
    let regs = CpuRegisters { pc, ..cpu.regs };
    let taken = if b.emu_state.op_cycle == 1 {
        Machine {
            cpu_state: CpuState { op: byte, regs, ..cpu },
            instruction: Some(Opcode::decode(byte).unwrap().instruction()),
            ..b
        }
    } else if b.emu_state.op_cycle == 2 {
        Machine { cpu_state: CpuState { o1: byte, regs, ..cpu }, ..b }
    } else {
        Machine { cpu_state: CpuState { o2: byte, regs, ..cpu }, ..b }
    };
    assert(taken.instruction == Some(i));
    if taken.emu_state.op_cycle < i.bytes {
    } else {
        let ready = Machine { exec_state: CpuInterpreterState::Addressing, ..taken };
        assert(ready.may_address());
        address_accounting(ready);
    }
}

/// The tick that consumes a one-byte instruction at 0xFFFF leaves the
/// program counter at 0x0000.
pub proof fn pc_wraps(m: Machine, op: Opcode)
    requires
        awaits_opcode(m),
        m.cpu_state.regs.pc == 0xFFFF,
        op.instruction().bytes == 1,
    ensures
        m.tick(Some(op.byte())).0.cpu_state.regs.pc == 0x0000,
{
    reveal(Machine::tick);
    op.decode_of_byte();
    op.table_is_regular();
    let byte = op.byte();
    let b = m.begun(Some(byte));
    let cpu = b.cpu_state;
    let regs = CpuRegisters { pc: 0, ..cpu.regs };
    let ready = Machine {
        cpu_state: CpuState { op: byte, regs, ..cpu },
        instruction: Some(op.instruction()),
        exec_state: CpuInterpreterState::Addressing,
        ..b
    };
    assert(b.fetch() == ready.address());
}

} // verus!

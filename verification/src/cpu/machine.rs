//! The interpreter as a state machine: its state between two ticks, the
//! condition that every reachable state meets, and the step from one
//! tick to the next.

use vstd::prelude::*;
use crate::BusMessage;
use crate::cpu::{CpuFlags, CpuRegisters, CpuState, EmulationState, Interrupt, following};
use crate::cpu::{IRQ_VECTOR, NMI_VECTOR, RESET_VECTOR};
use crate::cpu::instructions::{
    irq_instruction,
    nmi_instruction,
    reset_instruction,
    AddrDelegate,
    AddrDelegateReturn,
    Instruction,
    OpDelegate,
    OpDelegateAddress,
    Opcode,
    Operand,
};

verus! {

/// Where the interpreter stands within an instruction.
#[derive(Debug, Clone, Copy, PartialEq, Eq, Structural)]
pub enum CpuInterpreterState {
    /// Consuming the bytes of the next instruction.
    Fetch,
    /// Forming the operand.
    Addressing,
    /// Carrying the operation out.
    Execute,
    /// Stopped: every tick is idle.
    Halt,
}

/// Why a tick could not be carried out. The processor is then left as
/// it was.
#[derive(Debug, Clone, Copy, PartialEq, Eq, Structural)]
pub enum CpuError {
    /// The byte fetched as an opcode is none of the documented ones.
    IllegalOpcode(u8),
    /// The tick needed the byte of the previous read and was given
    /// none.
    MissingBusData,
}

/// The interpreter's whole state between two ticks.
#[derive(Debug, Clone, Copy)]
pub struct Machine {
    pub cpu_state: CpuState,
    pub emu_state: EmulationState,
    /// Calls made to the addressing routine of the instruction in
    /// progress.
    pub addr_cycle: u8,
    /// Calls made to the operation routine of the instruction in
    /// progress.
    pub exec_cycle: u8,
    pub exec_state: CpuInterpreterState,
    /// The entry of the instruction in progress, once decoded.
    pub instruction: Option<Instruction>,
    /// The operand of the instruction in progress, once formed.
    pub operand: Option<Operand>,
}

/// One or zero, for a requested extra cycle.
pub open spec fn pending(extra_cycle: bool) -> int {
    if extra_cycle {
        1
    } else {
        0
    }
}

impl Machine {
    /// What holds between ticks of every machine that started from
    /// [`Machine::halted`] or a reset; ticks, resets and interrupt
    /// requests keep it.
    ///
    /// A halted machine has completed whatever it did and holds no
    /// instruction. In the fetch phase fewer bytes are in than the entry
    /// asks for, the entry is known from the first byte on, and nothing
    /// else has begun. In the addressing phase the routine
    /// has spent a tick and has at least one call left. In the execute
    /// phase the operand fits the routine, the instruction is not over
    /// yet, and at most three extra cycles were asked for, the first two
    /// calls of the routine being the last that may ask. The reset and
    /// interrupt sequences run from their first tick in the execute
    /// phase and never ask for an extra cycle.
    pub open spec fn wf(self) -> bool {
        let cpu = self.cpu_state;
        let emu = self.emu_state;
        match self.exec_state {
            CpuInterpreterState::Halt => {
                &&& emu.instruction_done
                &&& self.instruction is None
            },
            CpuInterpreterState::Fetch => {
                &&& emu.op_cycle < 3
                &&& emu.additional_cycles == 0
                &&& !cpu.extra_cycle
                &&& self.addr_cycle == 0
                &&& self.exec_cycle == 0
                &&& emu.op_cycle == 0 ==> self.instruction is None
                &&& emu.op_cycle > 0 ==> {
                    &&& self.instruction matches Some(i)
                    &&& i.is_regular()
                    &&& emu.op_cycle < i.bytes
                }
            },
            CpuInterpreterState::Addressing => {
                &&& self.instruction matches Some(i)
                &&& i.is_regular()
                &&& 1 <= self.addr_cycle < i.addr_delegate.last_cycle()
                &&& self.exec_cycle == 0
                &&& emu.op_cycle == i.bytes + self.addr_cycle - 1
                &&& emu.additional_cycles + pending(cpu.extra_cycle) <= 1
            },
            CpuInterpreterState::Execute => {
                &&& self.instruction matches Some(i)
                &&& self.operand matches Some(operand)
                &&& i.op_delegate.takes(operand)
                &&& i.is_regular() || i.is_pseudo()
                &&& emu.op_cycle < i.cycles + emu.additional_cycles + pending(cpu.extra_cycle)
                &&& self.exec_cycle <= emu.op_cycle
                &&& emu.additional_cycles + pending(cpu.extra_cycle) <= 3
                &&& self.exec_cycle <= 1 ==> emu.additional_cycles + pending(cpu.extra_cycle) <= 2
                &&& self.exec_cycle == 0 ==> emu.additional_cycles + pending(cpu.extra_cycle) == 0
                &&& i.is_pseudo() ==> {
                    &&& self.exec_cycle == emu.op_cycle
                    &&& emu.additional_cycles == 0
                    &&& !cpu.extra_cycle
                }
            },
        }
    }

    /// Why a tick that delivers `data` cannot be carried out: in the
    /// fetch phase a byte must be delivered, and the first byte of an
    /// instruction must encode an opcode.
    pub open spec fn fault(self, data: Option<u8>) -> Option<CpuError> {
        if self.exec_state is Fetch {
            match data {
                None => Some(CpuError::MissingBusData),
                Some(byte) => if self.emu_state.op_cycle == 0 && Opcode::decode(byte) is None {
                    Some(CpuError::IllegalOpcode(byte))
                } else {
                    None
                },
            }
        } else {
            None
        }
    }

    /// The start of a tick: the tick is counted, the delivered byte is
    /// latched, and an extra cycle that was asked for is granted.
    pub open spec fn begun(self, data: Option<u8>) -> Machine {
        Machine {
            cpu_state: CpuState {
                data: match data {
                    Some(byte) => byte,
                    None => self.cpu_state.data,
                },
                extra_cycle: false,
                ..self.cpu_state
            },
            emu_state: EmulationState {
                total_cycles: self.emu_state.total_cycles.wrapping_add(1),
                op_cycle: (self.emu_state.op_cycle + 1) as u8,
                additional_cycles: (self.emu_state.additional_cycles + pending(
                    self.cpu_state.extra_cycle,
                )) as u8,
                instruction_done: false,
                ..self.emu_state
            },
            ..self
        }
    }

    /// A tick of the fetch phase, begun: the latched byte is the next
    /// byte of the instruction, the first one selects the entry, and the
    /// program counter steps past it. While bytes are missing the tick
    /// asks for the next; with the last byte addressing starts at once.
    pub open spec fn fetch(self) -> (Machine, BusMessage) {
        let byte = self.cpu_state.data;
        let cpu = self.cpu_state;
        let pc = following(cpu.regs.pc);
        let regs = CpuRegisters { pc, ..cpu.regs };
        let taken = if self.emu_state.op_cycle == 1 {
            Machine {
                cpu_state: CpuState { op: byte, regs, ..cpu },
                instruction: Some(Opcode::decode(byte).unwrap().instruction()),
                ..self
            }
        } else if self.emu_state.op_cycle == 2 {
            Machine { cpu_state: CpuState { o1: byte, regs, ..cpu }, ..self }
        } else {
            Machine { cpu_state: CpuState { o2: byte, regs, ..cpu }, ..self }
        };
        if taken.emu_state.op_cycle < taken.instruction.unwrap().bytes {
            (taken, BusMessage::Read { addr: pc })
        } else {
            Machine { exec_state: CpuInterpreterState::Addressing, ..taken }.address()
        }
    }

    /// A call of the addressing routine: either it spends the tick, or
    /// it returns the operand and execution starts at once.
    pub open spec fn address(self) -> (Machine, BusMessage) {
        let cycle = (self.addr_cycle + 1) as u8;
        let (cpu_state, answer) = self.instruction.unwrap().addr_delegate.step(
            self.cpu_state,
            cycle,
        );
        let called = Machine { cpu_state, addr_cycle: cycle, ..self };
        match answer {
            AddrDelegateReturn::Yield(msg) => (called, msg),
            AddrDelegateReturn::Return(operand) => Machine {
                operand: Some(operand),
                exec_state: CpuInterpreterState::Execute,
                ..called
            }.execute(),
        }
    }

    /// State and bus request after the operation routine `op` was
    /// called with `operand`.
    pub open spec fn operate(op: OpDelegate, operand: Operand, s: CpuState, cycle: u8) -> (
        CpuState,
        BusMessage,
    ) {
        match (op, operand) {
            (OpDelegate::Implied(delegate), Operand::Implied) => delegate.step(s, cycle),
            (OpDelegate::Immediate(delegate), Operand::Immediate(immediate)) => delegate.step(
                s,
                immediate,
                cycle,
            ),
            (OpDelegate::Address(delegate), Operand::Address(address)) => delegate.step(
                s,
                address,
                cycle,
            ),
            _ => (s, BusMessage::Nop),
        }
    }

    /// Whether the instruction is over with this tick: its cycles and
    /// the additional ones are spent and no further one is asked for.
    pub open spec fn is_over(self) -> bool {
        &&& self.emu_state.op_cycle >= self.instruction.unwrap().cycles
            + self.emu_state.additional_cycles
        &&& !self.cpu_state.extra_cycle
    }

    /// A call of the operation routine. While the instruction lasts the
    /// routine's request is the tick's; when it is over, the tick asks
    /// for the byte at the program counter instead.
    pub open spec fn execute(self) -> (Machine, BusMessage) {
        let cycle = (self.exec_cycle + 1) as u8;
        let (cpu_state, msg) = Self::operate(
            self.instruction.unwrap().op_delegate,
            self.operand.unwrap(),
            self.cpu_state,
            cycle,
        );
        let called = Machine { cpu_state, exec_cycle: cycle, ..self };
        if called.is_over() {
            (called.complete(), BusMessage::Read { addr: cpu_state.regs.pc })
        } else {
            (called, msg)
        }
    }

    /// Whether the instruction in progress is the interrupt sequence.
    pub open spec fn serves_interrupt(self) -> bool {
        self.instruction matches Some(i) && i.op_delegate == OpDelegate::Address(
            OpDelegateAddress::Interrupt,
        )
    }

    /// The request that is pending once the instruction in progress is
    /// over: the end of an interrupt sequence clears the latch.
    pub open spec fn request_left(self) -> Interrupt {
        if self.serves_interrupt() {
            Interrupt::Idle
        } else {
            self.emu_state.interrupt_request
        }
    }

    /// The instruction boundary: the counters return to zero, and either
    /// the pending interrupt is taken up, with its vector as operand, or
    /// the next opcode is awaited.
    pub open spec fn complete(self) -> Machine {
        let emu_state = EmulationState {
            op_cycle: 0,
            additional_cycles: 0,
            instruction_done: true,
            interrupt_request: self.request_left(),
            ..self.emu_state
        };
        let cleared = Machine { emu_state, addr_cycle: 0, exec_cycle: 0, ..self };
        match self.request_left() {
            Interrupt::Idle => Machine {
                instruction: None,
                operand: None,
                exec_state: CpuInterpreterState::Fetch,
                ..cleared
            },
            Interrupt::Irq(vector) => Machine {
                instruction: Some(irq_instruction()),
                operand: Some(Operand::Address(vector)),
                exec_state: CpuInterpreterState::Execute,
                ..cleared
            },
            Interrupt::Nmi(vector) => Machine {
                instruction: Some(nmi_instruction()),
                operand: Some(Operand::Address(vector)),
                exec_state: CpuInterpreterState::Execute,
                ..cleared
            },
        }
    }

    /// The machine after a tick that delivers `data`, and the tick's
    /// bus request, where nothing is at [`fault`](Machine::fault). A
    /// halted machine only counts the tick.
    #[verifier::opaque]
    pub open spec fn tick(self, data: Option<u8>) -> (Machine, BusMessage) {
        match self.exec_state {
            CpuInterpreterState::Halt => (
                Machine {
                    emu_state: EmulationState {
                        total_cycles: self.emu_state.total_cycles.wrapping_add(1),
                        ..self.emu_state
                    },
                    ..self
                },
                BusMessage::Nop,
            ),
            CpuInterpreterState::Fetch => self.begun(data).fetch(),
            CpuInterpreterState::Addressing => self.begun(data).address(),
            CpuInterpreterState::Execute => self.begun(data).execute(),
        }
    }

    /// The machine with the reset sequence armed: the counters and the
    /// interrupt latch are cleared, the status register holds 0x24, and
    /// the next eight ticks carry the sequence out on the reset vector.
    /// A, X, Y, the stack pointer and the program counter are left to
    /// the sequence.
    pub open spec fn reset_armed(self) -> Machine {
        Machine {
            cpu_state: CpuState {
                regs: CpuRegisters { status: 0x24, ..self.cpu_state.regs },
                extra_cycle: false,
                ..self.cpu_state
            },
            emu_state: EmulationState {
                total_cycles: 0,
                op_cycle: 0,
                additional_cycles: 0,
                instruction_done: true,
                interrupt_request: Interrupt::Idle,
            },
            addr_cycle: 0,
            exec_cycle: 0,
            exec_state: CpuInterpreterState::Execute,
            instruction: Some(reset_instruction()),
            operand: Some(Operand::Address(RESET_VECTOR)),
        }
    }

    /// The machine with `regs` as its registers. It is as well formed as
    /// the machine is: no register has a part in that.
    pub open spec fn with_regs(self, regs: CpuRegisters) -> Machine {
        Machine { cpu_state: CpuState { regs, ..self.cpu_state }, ..self }
    }

    /// The machine with `request` on the interrupt latch.
    pub open spec fn with_request(self, request: Interrupt) -> Machine {
        Machine {
            emu_state: EmulationState { interrupt_request: request, ..self.emu_state },
            ..self
        }
    }

    /// The machine after the IRQ line was raised: the request is
    /// latched unless interrupts are disabled or a request is pending.
    pub open spec fn irq_raised(self) -> Machine {
        if !self.cpu_state.regs.flag(CpuFlags::I) && self.emu_state.interrupt_request
            == Interrupt::Idle {
            self.with_request(Interrupt::Irq(IRQ_VECTOR))
        } else {
            self
        }
    }

    /// The machine after an NMI edge: the request is latched whatever
    /// the latch held.
    pub open spec fn nmi_raised(self) -> Machine {
        self.with_request(Interrupt::Nmi(NMI_VECTOR))
    }

    /// A machine that has not been reset yet: halted, all registers and
    /// counters zero.
    pub open spec fn halted() -> Machine {
        Machine {
            cpu_state: CpuState {
                regs: CpuRegisters { a: 0, x: 0, y: 0, sp: 0, pc: 0, status: 0 },
                op: 0,
                o1: 0,
                o2: 0,
                addr: 0,
                data: 0,
                extra_cycle: false,
            },
            emu_state: EmulationState {
                total_cycles: 0,
                op_cycle: 0,
                additional_cycles: 0,
                instruction_done: true,
                interrupt_request: Interrupt::Idle,
            },
            addr_cycle: 0,
            exec_cycle: 0,
            exec_state: CpuInterpreterState::Halt,
            instruction: None,
            operand: None,
        }
    }
}

/// No register has a part in whether a machine is well formed.
pub proof fn registers_are_free(m: Machine, regs: CpuRegisters)
    ensures
        m.with_regs(regs).wf() == m.wf(),
{
}

/// What the addressing routines have in common: a routine spends a tick
/// only before its last cycle, asks for an extra cycle in a spent tick
/// only on its first call, and returns an operand of the shape that its
/// mode promises.
pub proof fn addressing_discipline(mode: AddrDelegate, s: CpuState, cycle: u8)
    requires
        1 <= cycle <= mode.last_cycle(),
    ensures
        match mode.step(s, cycle).1 {
            AddrDelegateReturn::Yield(_) => {
                &&& cycle < mode.last_cycle()
                &&& mode.step(s, cycle).0.extra_cycle && !s.extra_cycle ==> cycle == 1
            },
            AddrDelegateReturn::Return(operand) => forall|op: OpDelegate|
                mode.feeds(op) ==> op.takes(operand),
        },
{
}

/// What the operation routines have in common: only the first two calls
/// ask for an extra cycle, and the reset and interrupt sequences never
/// do.
pub proof fn operation_discipline(op: OpDelegate, operand: Operand, s: CpuState, cycle: u8)
    ensures
        Machine::operate(op, operand, s, cycle).0.extra_cycle ==> s.extra_cycle || cycle <= 2,
        (op == OpDelegate::Address(OpDelegateAddress::Reset) || op == OpDelegate::Address(
            OpDelegateAddress::Interrupt,
        )) ==> Machine::operate(op, operand, s, cycle).0.extra_cycle == s.extra_cycle,
{
}

impl Machine {
    /// What holds when the operation routine is about to be called in a
    /// tick that has begun.
    pub open spec fn may_execute(self) -> bool {
        let cpu = self.cpu_state;
        let emu = self.emu_state;
        &&& self.exec_state is Execute
        &&& self.instruction matches Some(i)
        &&& self.operand matches Some(operand)
        &&& i.op_delegate.takes(operand)
        &&& i.is_regular() || i.is_pseudo()
        &&& emu.op_cycle <= i.cycles + emu.additional_cycles
        &&& self.exec_cycle < emu.op_cycle
        &&& emu.additional_cycles <= 3
        &&& self.exec_cycle <= 1 ==> emu.additional_cycles <= 2
        &&& self.exec_cycle == 0 ==> emu.additional_cycles <= 1
        &&& cpu.extra_cycle ==> self.exec_cycle == 0
        &&& i.is_pseudo() ==> {
            &&& self.exec_cycle + 1 == emu.op_cycle
            &&& emu.additional_cycles == 0
            &&& !cpu.extra_cycle
        }
    }

    /// What holds when the addressing routine is about to be called in a
    /// tick that has begun.
    pub open spec fn may_address(self) -> bool {
        let emu = self.emu_state;
        &&& self.exec_state is Addressing
        &&& self.instruction matches Some(i)
        &&& i.is_regular()
        &&& self.addr_cycle < i.addr_delegate.last_cycle()
        &&& self.exec_cycle == 0
        &&& emu.op_cycle == i.bytes + self.addr_cycle
        &&& emu.additional_cycles <= 1
        &&& self.addr_cycle == 0 ==> emu.additional_cycles == 0
        &&& !self.cpu_state.extra_cycle
    }

    /// Starts a tick.
    fn begin(&mut self, data: Option<u8>)
        requires
            old(self).emu_state.op_cycle < 0xFF,
            old(self).emu_state.additional_cycles < 0xFF,
        ensures
            *final(self) == old(self).begun(data),
    {
        self.emu_state.instruction_done = false;
        self.emu_state.total_cycles = self.emu_state.total_cycles.wrapping_add(1);
        self.emu_state.op_cycle = self.emu_state.op_cycle + 1;
        if let Some(byte) = data {
            self.cpu_state.data = byte;
        }
        if self.cpu_state.extra_cycle {
            self.emu_state.additional_cycles = self.emu_state.additional_cycles + 1;
            self.cpu_state.extra_cycle = false;
        }
    }

    /// Ends the instruction in progress.
    fn finish(&mut self)
        requires
            !old(self).cpu_state.extra_cycle,
        ensures
            *final(self) == old(self).complete(),
            final(self).wf(),
    {
        let served = match self.instruction {
            Some(i) => match i.op_delegate {
                OpDelegate::Address(OpDelegateAddress::Interrupt) => true,
                _ => false,
            },
            None => false,
        };
        self.emu_state.op_cycle = 0;
        self.addr_cycle = 0;
        self.exec_cycle = 0;
        self.emu_state.additional_cycles = 0;
        self.emu_state.instruction_done = true;
        if served {
            self.emu_state.interrupt_request = Interrupt::Idle;
        }
        match self.emu_state.interrupt_request {
            Interrupt::Idle => {
                self.instruction = None;
                self.operand = None;
                self.exec_state = CpuInterpreterState::Fetch;
            },
            Interrupt::Irq(vector) => {
                self.instruction = Some(irq_instruction());
                self.operand = Some(Operand::Address(vector));
                self.exec_state = CpuInterpreterState::Execute;
            },
            Interrupt::Nmi(vector) => {
                self.instruction = Some(nmi_instruction());
                self.operand = Some(Operand::Address(vector));
                self.exec_state = CpuInterpreterState::Execute;
            },
        }
    }

    /// Calls the operation routine and, where that was its last call,
    /// ends the instruction.
    fn run_operation(&mut self) -> (msg: BusMessage)
        requires
            old(self).may_execute(),
        ensures
            (*final(self), msg) == old(self).execute(),
            final(self).wf(),
    {
        let instruction = self.instruction.unwrap();
        let operand = self.operand.unwrap();
        proof {
            operation_discipline(
                instruction.op_delegate,
                operand,
                self.cpu_state,
                (self.exec_cycle + 1) as u8,
            );
        }
        self.exec_cycle = self.exec_cycle + 1;
        let msg = match operand {
            Operand::Implied => instruction.op_delegate.implied().unwrap().call(
                &mut self.cpu_state,
                self.exec_cycle,
            ),
            Operand::Immediate(immediate) => instruction.op_delegate.immediate().unwrap().call(
                &mut self.cpu_state,
                immediate,
                self.exec_cycle,
            ),
            Operand::Address(address) => instruction.op_delegate.address().unwrap().call(
                &mut self.cpu_state,
                address,
                self.exec_cycle,
            ),
        };
        if self.emu_state.op_cycle < instruction.cycles + self.emu_state.additional_cycles
            || self.cpu_state.extra_cycle {
            msg
        } else {
            self.finish();
            BusMessage::Read { addr: self.cpu_state.regs.pc }
        }
    }

    /// Calls the addressing routine and, where it returns the operand,
    /// goes on to the operation routine.
    fn run_addressing(&mut self) -> (msg: BusMessage)
        requires
            old(self).may_address(),
        ensures
            (*final(self), msg) == old(self).address(),
            final(self).wf(),
    {
        let instruction = self.instruction.unwrap();
        proof {
            addressing_discipline(
                instruction.addr_delegate,
                self.cpu_state,
                (self.addr_cycle + 1) as u8,
            );
        }
        self.addr_cycle = self.addr_cycle + 1;
        match instruction.addr_delegate.call(&mut self.cpu_state, self.addr_cycle) {
            AddrDelegateReturn::Yield(msg) => msg,
            AddrDelegateReturn::Return(operand) => {
                self.operand = Some(operand);
                self.exec_state = CpuInterpreterState::Execute;
                self.run_operation()
            },
        }
    }

    /// Consumes the latched byte as the next byte of the instruction
    /// with the entry `entry` and, where that was its last byte, goes
    /// on to the addressing routine.
    fn run_fetch(&mut self, entry: Instruction) -> (msg: BusMessage)
        requires
            old(self).exec_state is Fetch,
            1 <= old(self).emu_state.op_cycle <= 3,
            old(self).emu_state.additional_cycles == 0,
            !old(self).cpu_state.extra_cycle,
            old(self).addr_cycle == 0,
            old(self).exec_cycle == 0,
            entry.is_regular(),
            old(self).emu_state.op_cycle <= entry.bytes,
            old(self).emu_state.op_cycle == 1 ==> Opcode::decode(old(self).cpu_state.data)
                is Some && Opcode::decode(old(self).cpu_state.data).unwrap().instruction()
                == entry,
            old(self).emu_state.op_cycle > 1 ==> old(self).instruction == Some(entry),
        ensures
            (*final(self), msg) == old(self).fetch(),
            final(self).wf(),
    {
        let byte = self.cpu_state.data;
        if self.emu_state.op_cycle == 1 {
            self.cpu_state.op = byte;
            self.instruction = Some(entry);
        } else if self.emu_state.op_cycle == 2 {
            self.cpu_state.o1 = byte;
        } else {
            self.cpu_state.o2 = byte;
        }
        self.cpu_state.regs.pc = self.cpu_state.regs.pc.wrapping_add(1);
        if self.emu_state.op_cycle < entry.bytes {
            BusMessage::Read { addr: self.cpu_state.regs.pc }
        } else {
            self.exec_state = CpuInterpreterState::Addressing;
            self.run_addressing()
        }
    }

    /// Builds [`Machine::halted`].
    pub(crate) fn new() -> (m: Machine)
        ensures
            m == Machine::halted(),
            m.wf(),
    {
        Machine {
            cpu_state: CpuState::default(),
            emu_state: EmulationState::default(),
            addr_cycle: 0,
            exec_cycle: 0,
            exec_state: CpuInterpreterState::Halt,
            instruction: None,
            operand: None,
        }
    }

    /// Arms the reset sequence.
    pub(crate) fn reset(&mut self)
        ensures
            *final(self) == old(self).reset_armed(),
            final(self).wf(),
    {
        self.emu_state = EmulationState::default();
        self.addr_cycle = 0;
        self.exec_cycle = 0;
        self.cpu_state.extra_cycle = false;
        self.cpu_state.regs.status = 0x24;
        self.exec_state = CpuInterpreterState::Execute;
        self.operand = Some(Operand::Address(RESET_VECTOR));
        self.instruction = Some(reset_instruction());
    }

    /// Raises the IRQ line.
    pub(crate) fn irq(&mut self)
        requires
            old(self).wf(),
        ensures
            *final(self) == old(self).irq_raised(),
            final(self).wf(),
    {
        if !self.cpu_state.regs.get_flag(CpuFlags::I) && self.emu_state.interrupt_request
            == Interrupt::Idle {
            self.emu_state.interrupt_request = Interrupt::Irq(IRQ_VECTOR);
        }
    }

    /// Signals an NMI edge.
    pub(crate) fn nmi(&mut self)
        requires
            old(self).wf(),
        ensures
            *final(self) == old(self).nmi_raised(),
            final(self).wf(),
    {
        self.emu_state.interrupt_request = Interrupt::Nmi(NMI_VECTOR);
    }

    /// Advances the machine by one tick that delivers `data`. On a
    /// fault the machine stays as it was.
    pub(crate) fn step(&mut self, data: Option<u8>) -> (r: Result<BusMessage, CpuError>)
        requires
            old(self).wf(),
        ensures
            final(self).wf(),
            match old(self).fault(data) {
                Some(e) => r == Err::<BusMessage, CpuError>(e) && *final(self) == *old(self),
                None => r == Ok::<BusMessage, CpuError>(old(self).tick(data).1) && *final(self)
                    == old(self).tick(data).0,
            },
    {
        proof {
            reveal(Machine::tick);
        }
        match self.exec_state {
            CpuInterpreterState::Halt => {
                self.emu_state.total_cycles = self.emu_state.total_cycles.wrapping_add(1);
                Ok(BusMessage::Nop)
            },
            CpuInterpreterState::Fetch => {
                let Some(byte) = data else {
                    return Err(CpuError::MissingBusData);
                };
                let entry = if self.emu_state.op_cycle == 0 {
                    match Opcode::from_u8(byte) {
                        Some(op) => {
                            proof {
                                op.table_is_regular();
                            }
                            op.to_instruction()
                        },
                        None => {
                            return Err(CpuError::IllegalOpcode(byte));
                        },
                    }
                } else {
                    self.instruction.unwrap()
                };
                self.begin(data);
                Ok(self.run_fetch(entry))
            },
            CpuInterpreterState::Addressing => {
                self.begin(data);
                Ok(self.run_addressing())
            },
            CpuInterpreterState::Execute => {
                self.begin(data);
                Ok(self.run_operation())
            },
        }
    }
}

} // verus!

//! A debugging session: an emulator, the commands that wait to be run
//! on it, and the disassembly of the instructions it has completed.

use std::collections::VecDeque;
use std::sync::Arc;
use std::sync::atomic::{AtomicBool, Ordering};
use vstd::prelude::*;
use crate::{Emulator, EmulatorView};
use crate::cpu::raw_bytes;
use crate::cpu::machine::{CpuError, Machine};
use crate::cpu::timing::tick_accounting;
use crate::cpu::instructions::{Instruction, Operand};
use crate::debugger::{
    command_views,
    format_prompt,
    parse_line,
    prompt,
    Command,
    CommandParseError,
    CommandView,
    CpuDebugger,
};
use crate::debugger::disasm::{can_disassemble, disassemble, disassembly};

verus! {

/// The number of lines that the disassembly history keeps.
pub const HISTORY_SIZE: usize = 10;

/// The number of ticks within which every instruction is over.
pub const STEP_LIMIT: usize = 11;

/// A debugging session.
pub struct Debugger {
    emu: Emulator,
    commands: VecDeque<Command>,
    last_command: Option<Command>,
    /// Raised from outside, by whoever shares it, to stop a command
    /// that is running.
    interrupted: Arc<AtomicBool>,
    disasm_history: VecDeque<String>,
}

/// What a session holds.
pub struct DebuggerView {
    pub emu: EmulatorView,
    /// The commands that wait to be run, the next one first.
    pub commands: Seq<CommandView>,
    /// The command that was run last, for the prompt and for a repeat.
    pub last_command: Option<CommandView>,
    /// The lines of disassembly, the oldest first.
    pub disasm_history: Seq<Seq<char>>,
}

/// The texts that the strings hold.
pub open spec fn lines(history: Seq<String>) -> Seq<Seq<char>> {
    Seq::new(history.len(), |i: int| history[i]@)
}

/// The line of disassembly for what the processor shows of its
/// instruction.
pub open spec fn line_of(cpu: Machine) -> Seq<char> {
    disassembly(
        cpu.cpu_state.regs.pc,
        cpu.instruction,
        cpu.operand,
        match cpu.instruction {
            Some(instruction) => raw_bytes(cpu.cpu_state, instruction),
            None => Seq::empty(),
        },
    )
}

/// The history with `line` as its newest line. A full history loses its
/// oldest line.
pub open spec fn recorded(history: Seq<Seq<char>>, line: Seq<char>) -> Seq<Seq<char>> {
    if history.len() >= HISTORY_SIZE {
        history.drop_first().push(line)
    } else {
        history.push(line)
    }
}

impl DebuggerView {
    /// Whether the next tick is at fault.
    pub open spec fn fault(self) -> Option<CpuError> {
        self.emu.cpu.fault(self.emu.fetch)
    }

    /// Whether the last tick completed an instruction.
    pub open spec fn done(self) -> bool {
        self.emu.cpu.emu_state.instruction_done
    }

    /// The session after a tick that is not at fault. A tick that
    /// completes an instruction adds a line to the history: what the
    /// processor shows of its instruction after the tick.
    pub open spec fn cycled(self) -> DebuggerView {
        let emu = self.emu.ticked();
        DebuggerView {
            emu,
            disasm_history: if emu.cpu.emu_state.instruction_done {
                recorded(self.disasm_history, line_of(emu.cpu))
            } else {
                self.disasm_history
            },
            ..self
        }
    }

    /// The session after ticks up to the one that completes an
    /// instruction, and the fault that stopped them, if one did. `limit`
    /// bounds the ticks; [`STEP_LIMIT`] is one that is never reached.
    pub open spec fn stepped(self, limit: nat) -> (DebuggerView, Option<CpuError>)
        decreases limit,
    {
        match self.fault() {
            Some(e) => (self, Some(e)),
            None => if self.cycled().done() || limit == 0 {
                (self.cycled(), None)
            } else {
                self.cycled().stepped((limit - 1) as nat)
            },
        }
    }

    /// The session after `n` ticks of which none is at fault.
    pub open spec fn cycled_times(self, n: nat) -> DebuggerView
        decreases n,
    {
        if n == 0 {
            self
        } else {
            self.cycled_times((n - 1) as nat).cycled()
        }
    }

    /// Whether none of the next `n` ticks is at fault.
    pub open spec fn cycles_cleanly(self, n: nat) -> bool
        decreases n,
    {
        n > 0 ==> self.cycles_cleanly((n - 1) as nat) && self.cycled_times(
            (n - 1) as nat,
        ).fault() is None
    }

    /// The session after `n` instructions of which none is stopped by a
    /// fault.
    pub open spec fn stepped_times(self, n: nat) -> DebuggerView
        decreases n,
    {
        if n == 0 {
            self
        } else {
            self.stepped_times((n - 1) as nat).stepped(STEP_LIMIT as nat).0
        }
    }

    /// Whether none of the next `n` instructions is stopped by a fault.
    pub open spec fn steps_cleanly(self, n: nat) -> bool
        decreases n,
    {
        n > 0 ==> self.steps_cleanly((n - 1) as nat) && self.stepped_times(
            (n - 1) as nat,
        ).stepped(STEP_LIMIT as nat).1 is None
    }

    /// The session with `commands` behind those that wait.
    pub open spec fn with_commands(self, commands: Seq<CommandView>) -> DebuggerView {
        DebuggerView { commands: self.commands + commands, ..self }
    }

    /// The session after `line` was entered at the prompt. The commands
    /// of a line that is understood wait behind those that wait
    /// already. An empty line repeats the last command: it is taken
    /// from its place and waits again. Any other line changes nothing.
    pub open spec fn entered(self, line: Seq<char>) -> DebuggerView {
        match parse_line(line) {
            Ok(commands) => self.with_commands(commands),
            Err(CommandParseError::EmptyInput) => match self.last_command {
                Some(command) => DebuggerView {
                    commands: self.commands.push(command),
                    last_command: None,
                    ..self
                },
                None => self,
            },
            Err(_) => self,
        }
    }
}

impl View for Debugger {
    type V = DebuggerView;

    closed spec fn view(&self) -> DebuggerView {
        DebuggerView {
            emu: self.emu@,
            commands: command_views(self.commands@),
            last_command: match self.last_command {
                Some(command) => Some(command@),
                None => None,
            },
            disasm_history: lines(self.disasm_history@),
        }
    }
}

/// Every instruction is over within [`STEP_LIMIT`] ticks: while one
/// lasts, a well-formed processor has spent fewer ticks on it.
pub proof fn ticks_are_bounded(cpu: Machine)
    requires
        cpu.wf(),
        cpu.runs(),
    ensures
        cpu.emu_state.op_cycle < STEP_LIMIT,
{
}

impl Debugger {
    /// The command that was run last.
    pub closed spec fn last(self) -> Option<Command> {
        self.last_command
    }

    /// A session on `emu`, with no command waiting and an empty history.
    /// Whoever shares `interrupted` can stop a running command by
    /// raising it.
    pub fn new(emu: Emulator, interrupted: Arc<AtomicBool>) -> (debugger: Debugger)
        ensures
            debugger@ == (DebuggerView {
                emu: emu@,
                commands: Seq::empty(),
                last_command: None,
                disasm_history: Seq::empty(),
            }),
    {
        let debugger = Debugger {
            emu,
            commands: VecDeque::new(),
            last_command: None,
            interrupted,
            disasm_history: VecDeque::new(),
        };
        assert(command_views(debugger.commands@) =~= Seq::empty());
        assert(lines(debugger.disasm_history@) =~= Seq::empty());
        debugger
    }

    /// Lets `cmds` wait behind the commands that wait already.
    pub fn add_cmds(&mut self, cmds: Vec<Command>)
        ensures
            final(self)@ == old(self)@.with_commands(command_views(cmds@)),
    {
        let mut cmds = cmds;
        let ghost all = cmds@;
        let ghost before = self.commands@;
        assert(command_views(before) + command_views(all.take(0)) =~= command_views(before));
        while cmds.len() > 0
            invariant
                cmds@.len() <= all.len(),
                cmds@ == all.skip(all.len() - cmds@.len()),
                self.emu == old(self).emu,
                self.last_command == old(self).last_command,
                self.interrupted == old(self).interrupted,
                self.disasm_history == old(self).disasm_history,
                command_views(self.commands@) == command_views(before) + command_views(
                    all.take(all.len() - cmds@.len()),
                ),
            decreases cmds.len(),
        {
            let ghost done = all.len() - cmds@.len();
            let ghost waiting = self.commands@;
            let command = cmds.remove(0);
            self.commands.push_back(command);
            proof {
                assert(command == all[done]);
                assert(cmds@ =~= all.skip(done + 1));
                assert(command_views(self.commands@) =~= command_views(waiting).push(command@));
                assert(command_views(all.take(done + 1)) =~= command_views(all.take(done)).push(
                    command@,
                ));
            }
        }
        assert(all.take(all.len() as int) =~= all);
    }

    /// One tick of the emulator. It fails, and changes nothing, where
    /// the processor cannot carry its tick out.
    pub fn cycle(&mut self) -> (r: Result<(), CpuError>)
        ensures
            old(self)@.emu.cpu.wf(),
            final(self)@.emu.cpu.wf(),
            match old(self)@.fault() {
                Some(e) => r == Err::<(), CpuError>(e) && final(self)@ == old(self)@,
                None => r == Ok::<(), CpuError>(()) && final(self)@ == old(self)@.cycled(),
            },
    {
        if let Err(e) = self.emu.clock() {
            return Err(e);
        }
        let cpu = self.emu.cpu();
        if cpu.get_emulation_state().instruction_done {
            let ghost before = self.disasm_history@;
            if self.disasm_history.len() >= HISTORY_SIZE {
                self.disasm_history.pop_front();
            }
            let raw = match cpu.get_raw_instruction() {
                Some(raw) => raw,
                None => Vec::new(),
            };
            proof {
                if let Some(instruction) = cpu@.instruction {
                    assert(instruction.is_regular() || instruction.is_pseudo());
                }
            }
            let line = disassemble(cpu.get_cpu_regs().pc, cpu.get_decoded_instruction(), &raw);
            self.disasm_history.push_back(line);
            assert(lines(self.disasm_history@) =~= recorded(lines(before), line_of(cpu@)));
        }
        Ok(())
    }

    /// Ticks up to the one that completes an instruction. A fault stops
    /// the ticks; the session is then as the ticks before it left it.
    pub fn step(&mut self) -> (r: Result<(), CpuError>)
        ensures
            final(self)@ == old(self)@.stepped(STEP_LIMIT as nat).0,
            r == (match old(self)@.stepped(STEP_LIMIT as nat).1 {
                Some(e) => Err::<(), CpuError>(e),
                None => Ok::<(), CpuError>(()),
            }),
            r is Ok ==> final(self)@.done(),
    {
        let ghost mut limit: nat = STEP_LIMIT as nat;
        loop
            invariant
                old(self)@.stepped(STEP_LIMIT as nat) == self@.stepped(limit),
                limit <= STEP_LIMIT,
                self@.emu.cpu.wf() && self@.emu.cpu.runs() ==> self@.emu.cpu.emu_state.op_cycle
                    + limit >= STEP_LIMIT,
            decreases limit,
        {
            let ghost before = self@;
            match self.cycle() {
                Err(e) => {
                    return Err(e);
                },
                Ok(()) => {},
            }
            proof {
                let cpu = before.emu.cpu;
                if cpu.runs() {
                    tick_accounting(cpu, before.emu.fetch);
                    ticks_are_bounded(cpu);
                    if !self@.done() {
                        ticks_are_bounded(self@.emu.cpu);
                    }
                } else {
                    reveal(Machine::tick);
                }
            }
            if self.emu.cpu().get_emulation_state().instruction_done {
                return Ok(());
            }
            proof {
                limit = (limit - 1) as nat;
            }
        }
    }

    /// Takes the command that waits first, if one waits.
    pub fn next_command(&mut self) -> (command: Option<Command>)
        ensures
            match command {
                Some(c) => old(self)@.commands.len() > 0 && c@ == old(self)@.commands.first()
                    && final(self)@ == (DebuggerView {
                    commands: old(self)@.commands.drop_first(),
                    ..old(self)@
                }),
                None => old(self)@.commands.len() == 0 && final(self)@ == old(self)@,
            },
    {
        let ghost before = self.commands@;
        let command = self.commands.pop_front();
        proof {
            if before.len() > 0 {
                assert(command_views(self.commands@) =~= command_views(before).drop_first());
            }
        }
        command
    }

    /// Remembers `command` as the one that was run last.
    pub fn finished(&mut self, command: Command)
        ensures
            final(self)@ == (DebuggerView { last_command: Some(command@), ..old(self)@ }),
    {
        self.last_command = Some(command);
    }

    /// Takes a line from the prompt. What is not understood is handed
    /// back as the error, and so is the empty line, which repeats the
    /// last command.
    pub fn enter(&mut self, line: &str) -> (r: Result<(), CommandParseError>)
        ensures
            final(self)@ == old(self)@.entered(line@),
            r == (match parse_line(line@) {
                Ok(_) => Ok::<(), CommandParseError>(()),
                Err(e) => Err::<(), CommandParseError>(e),
            }),
    {
        match Command::parse(line) {
            Ok(commands) => {
                self.add_cmds(commands);
                Ok(())
            },
            Err(CommandParseError::EmptyInput) => {
                let ghost before = self.commands@;
                if let Some(command) = self.last_command.take() {
                    self.commands.push_back(command);
                    assert(command_views(self.commands@) =~= command_views(before).push(
                        command@,
                    ));
                }
                Err(CommandParseError::EmptyInput)
            },
            Err(e) => Err(e),
        }
    }

    /// The prompt: the last command in brackets, where there is one,
    /// and `>> `.
    pub fn format_prompt(&self) -> (text: String)
        ensures
            text@ == prompt(self.last()),
    {
        format_prompt(self.last_command.as_ref())
    }

    /// The line of disassembly for an instruction that has left the
    /// program counter where it stands.
    pub fn disassemble(
        &self,
        decoded: (Option<&Instruction>, Option<&Operand>),
        raw: Vec<u8>,
    ) -> (line: String)
        requires
            can_disassemble(
                match decoded.0 {
                    Some(ins) => Some(*ins),
                    None => None,
                },
                match decoded.1 {
                    Some(op) => Some(*op),
                    None => None,
                },
                raw@,
            ),
        ensures
            line@ == disassembly(
                self@.emu.cpu.cpu_state.regs.pc,
                match decoded.0 {
                    Some(ins) => Some(*ins),
                    None => None,
                },
                match decoded.1 {
                    Some(op) => Some(*op),
                    None => None,
                },
                raw@,
            ),
    {
        disassemble(self.emu.cpu().get_cpu_regs().pc, decoded, &raw)
    }

    /// Lowers the interrupt flag, before a command starts.
    pub(crate) fn clear_interrupt(&self) {
        self.interrupted.store(false, Ordering::SeqCst);
    }

    /// Whether the interrupt flag is raised. Nothing can be said of the
    /// answer: the flag is raised from outside at any time.
    pub(crate) fn is_interrupted(&self) -> bool {
        self.interrupted.load(Ordering::SeqCst)
    }

    /// The emulator.
    pub fn emulator(&self) -> (emu: &Emulator)
        ensures
            emu@ == self@.emu,
    {
        &self.emu
    }

    /// The command that was run last.
    pub fn last_command(&self) -> (command: Option<&Command>)
        ensures
            match command {
                Some(c) => self.last() == Some(*c) && self@.last_command == Some(c@),
                None => self.last() is None && self@.last_command is None,
            },
    {
        self.last_command.as_ref()
    }

    /// The lines of disassembly, the oldest first.
    pub fn history(&self) -> (history: &VecDeque<String>)
        ensures
            lines(history@) == self@.disasm_history,
    {
        &self.disasm_history
    }
}

} // verus!

use nesferratu_core::cpu::instructions::Operand;
use nesferratu_core::cpu::machine::CpuError;
use nesferratu_core::cpu::{CpuFlags, CpuInterpreter, CpuRegisters, Interrupt, CPU};
use nesferratu_core::debugger::CpuDebugger;
use nesferratu_core::BusMessage;
use nesferratu_core::BusMessage::{Nop, Read, Write};

/// A processor on a flat memory of 64 KiB.
struct Board {
    cpu: CpuInterpreter,
    memory: Vec<u8>,
    latch: Option<u8>,
    requests: Vec<BusMessage>,
}

impl Board {
    fn new(entry: u16, program: &[u8]) -> Board {
        let mut memory = vec![0u8; 0x1_0000];
        memory[entry as usize..entry as usize + program.len()].copy_from_slice(program);
        memory[0xFFFC] = entry as u8;
        memory[0xFFFD] = (entry >> 8) as u8;
        let mut cpu = CpuInterpreter::new();
        cpu.reset();
        let mut board = Board { cpu, memory, latch: None, requests: Vec::new() };
        for _ in 0..8 {
            board.tick();
        }
        board.requests.clear();
        board
    }

    fn tick(&mut self) {
        let request = self.cpu.clock(self.latch).unwrap();
        self.latch = match request {
            Read { addr } => Some(self.memory[addr as usize]),
            Write { addr, data } => {
                self.memory[addr as usize] = data;
                None
            }
            Nop => None,
        };
        self.requests.push(request);
    }

    fn step(&mut self) -> usize {
        let mut ticks = 1;
        self.tick();
        while !self.cpu.get_emulation_state().instruction_done {
            self.tick();
            ticks += 1;
        }
        ticks
    }

    fn regs(&self) -> CpuRegisters {
        *self.cpu.get_cpu_regs()
    }
}

#[test]
fn a_new_processor_is_halted() {
    let mut cpu = CpuInterpreter::new();
    assert_eq!(*cpu.get_cpu_regs(), CpuRegisters::default());
    assert!(cpu.get_emulation_state().instruction_done);
    for tick in 1..=300u64 {
        assert_eq!(cpu.clock(None), Ok(Nop));
        assert_eq!(cpu.clock(Some(0x02)), Ok(Nop));
        assert_eq!(cpu.get_emulation_state().total_cycles, 2 * tick);
    }
    assert_eq!(*cpu.get_cpu_regs(), CpuRegisters::default());
    assert_eq!(cpu.get_emulation_state().op_cycle, 0);
    assert!(cpu.get_decoded_instruction().0.is_none());
    assert!(cpu.get_raw_instruction().is_none());
}

#[test]
fn reset_arms_the_sequence() {
    let mut cpu = CpuInterpreter::new();
    cpu.reset();
    assert_eq!(cpu.get_cpu_regs().status, 0x24);
    assert_eq!((cpu.get_cpu_regs().a, cpu.get_cpu_regs().sp, cpu.get_cpu_regs().pc), (0, 0, 0));
    let (instruction, operand) = cpu.get_decoded_instruction();
    assert_eq!(instruction.unwrap().mnemonic, "RESET");
    assert_eq!(operand, Some(&Operand::Address(0xFFFC)));
    assert_eq!(cpu.get_raw_instruction(), Some(vec![]));
    let state = cpu.get_emulation_state();
    assert_eq!((state.total_cycles, state.op_cycle, state.additional_cycles), (0, 0, 0));
    assert_eq!(state.interrupt_request, Interrupt::Idle);
}

#[test]
fn reset_requests() {
    let mut cpu = CpuInterpreter::new();
    cpu.reset();
    for _ in 0..5 {
        assert_eq!(cpu.clock(None), Ok(Nop));
    }
    assert_eq!(cpu.clock(None), Ok(Read { addr: 0xFFFC }));
    assert_eq!(cpu.clock(Some(0xCD)), Ok(Read { addr: 0xFFFD }));
    assert!(!cpu.get_emulation_state().instruction_done);
    assert_eq!(cpu.clock(Some(0xAB)), Ok(Read { addr: 0xABCD }));
    assert!(cpu.get_emulation_state().instruction_done);
    assert_eq!(
        *cpu.get_cpu_regs(),
        CpuRegisters { a: 0, x: 0, y: 0, sp: 0xFD, pc: 0xABCD, status: 0x24 }
    );
    assert_eq!(cpu.get_emulation_state().op_cycle, 0);
}

#[test]
fn reset_keeps_a_x_y_until_its_last_tick() {
    let mut board = Board::new(0x8000, &[0xA9, 0x11, 0xA2, 0x22, 0xA0, 0x33]);
    board.step();
    board.step();
    board.step();
    board.cpu.reset();
    for _ in 0..7 {
        board.tick();
        assert_eq!((board.regs().a, board.regs().x, board.regs().y), (0x11, 0x22, 0x33));
    }
    board.tick();
    assert_eq!((board.regs().a, board.regs().x, board.regs().y), (0, 0, 0));
}

#[test]
fn fetch_needs_a_byte() {
    let mut board = Board::new(0x8000, &[0xAD, 0x34, 0x12]);
    let before = board.regs();
    assert_eq!(board.cpu.clock(None), Err(CpuError::MissingBusData));
    assert_eq!(board.regs(), before);
    assert_eq!(board.cpu.get_emulation_state().total_cycles, 8);
    assert_eq!(board.cpu.clock(Some(0xAD)), Ok(Read { addr: 0x8001 }));
    assert_eq!(board.cpu.clock(None), Err(CpuError::MissingBusData));
    assert_eq!(board.cpu.clock(Some(0x34)), Ok(Read { addr: 0x8002 }));
    assert_eq!(board.cpu.clock(None), Err(CpuError::MissingBusData));
    assert_eq!(board.cpu.clock(Some(0x12)), Ok(Read { addr: 0x1234 }));
    // The execute phase works on what the latch holds.
    assert_eq!(board.cpu.clock(None), Ok(Read { addr: 0x8003 }));
    assert_eq!(board.regs().a, 0x12);
}

#[test]
fn illegal_opcode_is_reported_and_changes_nothing() {
    let mut board = Board::new(0x8000, &[0xEA]);
    let before = board.regs();
    for byte in [0x02u8, 0xFF, 0x80] {
        assert_eq!(board.cpu.clock(Some(byte)), Err(CpuError::IllegalOpcode(byte)));
        assert_eq!(board.regs(), before);
        assert_eq!(board.cpu.get_emulation_state().total_cycles, 8);
        assert!(board.cpu.get_emulation_state().instruction_done);
    }
    assert_eq!(board.cpu.clock(Some(0xEA)), Ok(Nop));
}

#[test]
fn operand_bytes_may_be_anything() {
    // 0x02 is no opcode, but a fine operand.
    let mut board = Board::new(0x8000, &[0xA9, 0x02]);
    assert_eq!(board.step(), 2);
    assert_eq!(board.regs().a, 0x02);
}

#[test]
fn fetch_requests_follow_the_program_counter() {
    let mut board = Board::new(0x8000, &[0xAD, 0x34, 0x12, 0xEA]);
    assert_eq!(board.step(), 4);
    assert_eq!(
        board.requests,
        vec![
            Read { addr: 0x8001 },
            Read { addr: 0x8002 },
            Read { addr: 0x1234 },
            Read { addr: 0x8003 }
        ]
    );
    board.requests.clear();
    assert_eq!(board.step(), 2);
    assert_eq!(board.requests, vec![Nop, Read { addr: 0x8004 }]);
}

#[test]
fn one_request_per_tick_in_program_order() {
    // INC $0210,X with X = 0: fetch, fetch, fetch and read, modify,
    // write, idle, next opcode.
    let mut board = Board::new(0x8000, &[0xFE, 0x10, 0x02]);
    board.memory[0x0210] = 0x41;
    assert_eq!(board.step(), 7);
    assert_eq!(
        board.requests,
        vec![
            Read { addr: 0x8001 },
            Read { addr: 0x8002 },
            Read { addr: 0x0210 },
            Nop,
            Write { addr: 0x0210, data: 0x42 },
            Nop,
            Read { addr: 0x8003 }
        ]
    );
}

#[test]
fn an_observer_sees_the_bytes_as_they_are_consumed() {
    let mut board = Board::new(0x8000, &[0xAD, 0x34, 0x12]);
    board.tick();
    assert_eq!(board.cpu.get_raw_instruction(), Some(vec![0xAD, 0x00, 0x00]));
    board.tick();
    assert_eq!(board.cpu.get_raw_instruction(), Some(vec![0xAD, 0x34, 0x00]));
    board.tick();
    assert_eq!(board.cpu.get_raw_instruction(), Some(vec![0xAD, 0x34, 0x12]));
    let (instruction, operand) = board.cpu.get_decoded_instruction();
    assert_eq!(instruction.unwrap().mnemonic, "LDA");
    assert_eq!(operand, Some(&Operand::Address(0x1234)));
}

#[test]
fn counters_during_an_instruction() {
    // LDA $12FF,X with X = 1: five ticks, one of them additional.
    let mut board = Board::new(0x8000, &[0xA2, 0x01, 0xBD, 0xFF, 0x12]);
    board.step();
    let mut seen = Vec::new();
    for _ in 0..5 {
        board.tick();
        let state = board.cpu.get_emulation_state();
        seen.push((state.op_cycle, state.additional_cycles, state.instruction_done));
    }
    assert_eq!(
        seen,
        vec![(1, 0, false), (2, 0, false), (3, 0, false), (4, 1, false), (0, 0, true)]
    );
    assert_eq!(board.cpu.get_emulation_state().total_cycles, 8 + 2 + 5);
}

#[test]
fn registers_are_set_only_between_instructions() {
    let mut board = Board::new(0x8000, &[0xAD, 0x34, 0x12]);
    let regs = CpuRegisters { a: 1, x: 2, y: 3, sp: 4, pc: 0x8000, status: 0xFF };
    *board.cpu.get_cup_regs_mut().unwrap() = regs;
    assert_eq!(board.regs(), regs);
    board.cpu.get_cup_regs_mut().unwrap().x = 0x77;
    assert_eq!(board.regs().x, 0x77);
    board.latch = Some(0xAD);
    board.tick();
    let during = board.regs();
    assert!(board.cpu.get_cup_regs_mut().is_none());
    assert_eq!(board.regs(), during);
    board.tick();
    board.tick();
    assert!(board.cpu.get_cup_regs_mut().is_none());
    board.tick();
    assert!(board.cpu.get_cup_regs_mut().is_some());
}

#[test]
fn irq_is_masked_by_i() {
    let mut board = Board::new(0x8000, &[0xEA, 0xEA]);
    board.cpu.irq();
    assert_eq!(board.cpu.get_emulation_state().interrupt_request, Interrupt::Idle);
    board.cpu.get_cup_regs_mut().unwrap().status = 0x20;
    board.cpu.irq();
    assert_eq!(board.cpu.get_emulation_state().interrupt_request, Interrupt::Irq(0xFFFE));
}

#[test]
fn irq_does_not_replace_a_pending_request() {
    let mut board = Board::new(0x8000, &[0xEA, 0xEA]);
    board.cpu.get_cup_regs_mut().unwrap().status = 0x20;
    board.cpu.nmi();
    board.cpu.irq();
    assert_eq!(board.cpu.get_emulation_state().interrupt_request, Interrupt::Nmi(0xFFFA));
}

#[test]
fn nmi_replaces_a_pending_request() {
    let mut board = Board::new(0x8000, &[0xEA, 0xEA]);
    board.cpu.get_cup_regs_mut().unwrap().status = 0x20;
    board.cpu.irq();
    board.cpu.nmi();
    assert_eq!(board.cpu.get_emulation_state().interrupt_request, Interrupt::Nmi(0xFFFA));
}

#[test]
fn interrupt_sequence_on_the_bus() {
    let mut board = Board::new(0x8000, &[0xEA]);
    board.memory[0xFFFA] = 0x00;
    board.memory[0xFFFB] = 0x90;
    board.cpu.nmi();
    assert_eq!(board.step(), 2);
    let (instruction, operand) = board.cpu.get_decoded_instruction();
    assert_eq!(instruction.unwrap().mnemonic, "NMI");
    assert_eq!(operand, Some(&Operand::Address(0xFFFA)));
    board.requests.clear();
    assert_eq!(board.step(), 8);
    assert_eq!(
        board.requests,
        vec![
            Nop,
            Nop,
            Write { addr: 0x01FD, data: 0x80 },
            Write { addr: 0x01FC, data: 0x01 },
            Write { addr: 0x01FB, data: 0x24 },
            Read { addr: 0xFFFA },
            Read { addr: 0xFFFB },
            Read { addr: 0x9000 }
        ]
    );
    assert_eq!(board.cpu.get_emulation_state().interrupt_request, Interrupt::Idle);
    assert!(board.regs().get_flag(CpuFlags::I));
    assert!(board.cpu.get_decoded_instruction().0.is_none());
}

#[test]
fn the_latch_is_cleared_when_the_sequence_is_over() {
    let mut board = Board::new(0x8000, &[0xEA]);
    board.cpu.nmi();
    board.step();
    for _ in 0..7 {
        board.tick();
        assert_eq!(board.cpu.get_emulation_state().interrupt_request, Interrupt::Nmi(0xFFFA));
    }
    board.tick();
    assert_eq!(board.cpu.get_emulation_state().interrupt_request, Interrupt::Idle);
}

#[test]
fn total_cycles_count_every_tick() {
    let mut board = Board::new(0x8000, &[0xEA, 0xEA, 0xEA]);
    assert_eq!(board.cpu.get_emulation_state().total_cycles, 8);
    board.step();
    board.step();
    assert_eq!(board.cpu.get_emulation_state().total_cycles, 12);
    board.cpu.reset();
    assert_eq!(board.cpu.get_emulation_state().total_cycles, 0);
}

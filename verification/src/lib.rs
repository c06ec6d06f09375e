//! Cycle-accurate core of a MOS 6502 based console: the processor's
//! per-tick interpreter, the bus that connects it to work RAM and to the
//! cartridge, and the cartridge image loader with its address mapper.
//!
//! Every tick the processor is handed the byte that its previous read
//! produced and answers with exactly one [`BusMessage`].
//!
//! The module [`debugger`] adds what a debugger in front of the console
//! needs: an observer's view of processor and memory, a small command
//! language, and the text of disassembly, registers and hex dumps.

pub mod cartridge;
pub mod cpu;
pub mod debugger;

use vstd::prelude::*;
use crate::cartridge::{Cartridge, CartridgeView};
use crate::cpu::{word, CpuInterpreter, CpuRegisters, CPU};
use crate::cpu::timing::reset_sequence;
use crate::cpu::machine::{CpuError, Machine};
use crate::debugger::MemDebugger;

verus! {

/// One transaction on the CPU bus: what the processor asks of the bus
/// at the end of a clock tick.
#[derive(Debug, Clone, Copy, PartialEq, Eq, Structural)]
pub enum BusMessage {
    /// Fetch the byte at `addr`; it is delivered with the next tick.
    Read { addr: u16 },
    /// Store `data` at `addr`.
    Write { addr: u16, data: u8 },
    /// No bus activity this tick.
    Nop,
}

/// Size of the work RAM.
pub const RAM_SIZE: usize = 0x0800;

/// The work RAM: 2 KiB, zero after construction.
pub struct Ram {
    ram: [u8; 2048],
}

impl View for Ram {
    type V = Seq<u8>;

    closed spec fn view(&self) -> Seq<u8> {
        self.ram@
    }
}

impl Ram {
    /// A RAM of zeroes.
    pub fn new() -> (ram: Ram)
        ensures
            ram@.len() == RAM_SIZE,
            forall|i: int| 0 <= i < RAM_SIZE ==> ram@[i] == 0,
    {
        Ram { ram: [0x00;2048] }
    }

    /// The RAM holds 2 KiB at all times.
    pub proof fn size(self)
        ensures
            self@.len() == RAM_SIZE,
    {
    }

    /// The byte at `addr`.
    pub fn cpu_read(&self, addr: u16) -> (byte: u8)
        requires
            addr < RAM_SIZE,
        ensures
            byte == self@[addr as int],
    {
        self.ram[addr as usize]
    }

    /// Stores `data` at `addr`.
    pub fn cpu_write(&mut self, addr: u16, data: u8)
        requires
            addr < RAM_SIZE,
        ensures
            final(self)@ == old(self)@.update(addr as int, data),
    {
        self.ram[addr as usize] = data;
    }
}

impl MemDebugger for Ram {
    fn get_mem(&self) -> (mem: &[u8])
        ensures
            mem@ == self@,
    {
        self.ram.as_slice()
    }

    fn get_mem_mut(&mut self) -> (mem: &mut [u8])
        ensures
            mem@ == old(self)@,
            final(self)@ == final(mem)@,
    {
        &mut self.ram
    }
}

/// What the CPU finds at an address.
#[derive(Debug, Clone, Copy, PartialEq, Eq, Structural)]
pub enum Region {
    /// 0x0000 to 0x1FFF: the work RAM and its three mirrors. The index
    /// is that into the RAM.
    WorkRam(u16),
    /// 0x2000 to 0x3FFF: the picture unit's registers. Reads give zero,
    /// writes are dropped.
    Ppu,
    /// 0x4000 to 0x4017: the audio unit and the controller ports. Reads
    /// give zero, writes are dropped.
    ApuIo,
    /// 0x4018 to 0x401F: the test mode registers. Reads give zero,
    /// writes are dropped.
    TestMode,
    /// 0x4020 to 0xFFFF: the cartridge.
    Cartridge,
}

/// The region that `addr` lies in.
#[verifier::allow_in_spec]
pub fn decode(addr: u16) -> Region
    returns
        (if addr < 0x2000 {
            Region::WorkRam(addr % 0x0800)
        } else if addr < 0x4000 {
            Region::Ppu
        } else if addr < 0x4018 {
            Region::ApuIo
        } else if addr < 0x4020 {
            Region::TestMode
        } else {
            Region::Cartridge
        }),
{
    if addr < 0x2000 {
        Region::WorkRam(addr % 0x0800)
    } else if addr < 0x4000 {
        Region::Ppu
    } else if addr < 0x4018 {
        Region::ApuIo
    } else if addr < 0x4020 {
        Region::TestMode
    } else {
        Region::Cartridge
    }
}

/// What an emulator holds.
pub struct EmulatorView {
    /// The byte that the last tick's read produced, if it read.
    pub fetch: Option<u8>,
    pub cpu: Machine,
    pub memory: Seq<u8>,
    pub cartridge: CartridgeView,
}

impl EmulatorView {
    /// The byte that the CPU reads at `addr`.
    pub open spec fn read_cpu(self, addr: u16) -> u8 {
        match decode(addr) {
            Region::WorkRam(index) => self.memory[index as int],
            Region::Cartridge => self.cartridge.cpu_read(addr),
            _ => 0,
        }
    }

    /// The emulator after the CPU wrote `data` to `addr`.
    pub open spec fn written(self, addr: u16, data: u8) -> EmulatorView {
        match decode(addr) {
            Region::WorkRam(index) => EmulatorView {
                memory: self.memory.update(index as int, data),
                ..self
            },
            Region::Cartridge => EmulatorView {
                cartridge: self.cartridge.cpu_written(addr, data),
                ..self
            },
            _ => self,
        }
    }

    /// The emulator after the bus carried out `msg`: a read latches
    /// its byte for the next tick, a write and an idle tick clear the
    /// latch.
    pub open spec fn dispatched(self, msg: BusMessage) -> EmulatorView {
        match msg {
            BusMessage::Read { addr } => EmulatorView {
                fetch: Some(self.read_cpu(addr)),
                ..self
            },
            BusMessage::Write { addr, data } => EmulatorView {
                fetch: None,
                ..self.written(addr, data)
            },
            BusMessage::Nop => EmulatorView { fetch: None, ..self },
        }
    }

    /// The emulator after a tick that is not at fault: the CPU is
    /// handed the latched byte, and its request is carried out.
    pub open spec fn ticked(self) -> EmulatorView {
        let (cpu, msg) = self.cpu.tick(self.fetch);
        EmulatorView { cpu, ..self }.dispatched(msg)
    }

    /// The emulator after `n` ticks of which none is at fault.
    pub open spec fn ticked_times(self, n: nat) -> EmulatorView
        decreases n,
    {
        if n == 0 {
            self
        } else {
            self.ticked_times((n - 1) as nat).ticked()
        }
    }

    /// What `cartridge` is plugged into: zeroed RAM, an empty latch and
    /// a CPU that has its reset sequence armed.
    pub open spec fn powered_on(cartridge: CartridgeView) -> EmulatorView {
        EmulatorView {
            fetch: None,
            cpu: Machine::halted().reset_armed(),
            memory: Seq::new(RAM_SIZE as nat, |i: int| 0u8),
            cartridge,
        }
    }
}

/// The work RAM answers at four places: what is written at one address
/// below 0x2000 is read at every address below 0x2000 that differs from
/// it by a multiple of 0x0800.
pub proof fn ram_is_mirrored(e: EmulatorView, written: u16, read: u16, data: u8)
    requires
        e.memory.len() == RAM_SIZE,
        written < 0x2000,
        read < 0x2000,
        written % 0x0800 == read % 0x0800,
    ensures
        e.written(written, data).read_cpu(read) == data,
{
}

/// A write to the work RAM is read back 0x0800 above it.
pub proof fn ram_mirror_above(e: EmulatorView, addr: u16, data: u8)
    requires
        e.memory.len() == RAM_SIZE,
        addr < 0x1800,
    ensures
        e.written(addr, data).read_cpu((addr + 0x0800) as u16) == data,
{
    ram_is_mirrored(e, addr, (addr + 0x0800) as u16, data);
}

/// A write to the work RAM changes no byte of it but those that mirror
/// the written one.
pub proof fn ram_write_is_local(e: EmulatorView, written: u16, read: u16, data: u8)
    requires
        e.memory.len() == RAM_SIZE,
        written < 0x2000,
        read < 0x2000,
        written % 0x0800 != read % 0x0800,
    ensures
        e.written(written, data).read_cpu(read) == e.read_cpu(read),
{
}

/// What the picture unit, the audio unit, the controller ports and the
/// test registers will answer is not emulated: reads of 0x2000 to 0x401F
/// give zero, and writes there change nothing.
pub proof fn stubs_are_inert(e: EmulatorView, addr: u16, data: u8)
    requires
        0x2000 <= addr < 0x4020,
    ensures
        e.read_cpu(addr) == 0,
        e.written(addr, data) == e,
{
}

/// Power-on. Eight ticks after a cartridge was plugged in the reset
/// sequence is complete, and not before: the program counter holds the
/// little-endian word that the cartridge has at 0xFFFC and 0xFFFD, the
/// stack pointer 0xFD, the status register 0x24, and A, X and Y zero.
/// The byte at the program counter is on the latch, and RAM and
/// cartridge are untouched.
pub proof fn power_on_sequence(cartridge: CartridgeView)
    ensures
        ({
            let start = EmulatorView::powered_on(cartridge);
            let end = start.ticked_times(8);
            let entry = word(cartridge.cpu_read(0xFFFC), cartridge.cpu_read(0xFFFD));
            &&& forall|n: nat| 1 <= n < 8 ==> !(#[trigger] start.ticked_times(
                n,
            )).cpu.emu_state.instruction_done
            &&& end.cpu.emu_state.instruction_done
            &&& end.cpu.cpu_state.regs == (CpuRegisters {
                a: 0,
                x: 0,
                y: 0,
                sp: 0xFD,
                pc: entry,
                status: 0x24,
            })
            &&& end.fetch == Some(end.read_cpu(entry))
            &&& end.memory == start.memory
            &&& end.cartridge == cartridge
        }),
{
    let start = EmulatorView::powered_on(cartridge);
    let low = cartridge.cpu_read(0xFFFC);
    let high = cartridge.cpu_read(0xFFFD);
    let idle = seq![None::<u8>, None::<u8>, None::<u8>, None::<u8>, None::<u8>, None::<u8>];
    reset_sequence(Machine::halted(), idle, low, high);
    reveal_with_fuel(EmulatorView::ticked_times, 9);
    let e1 = start.ticked();
    let e2 = e1.ticked();
    let e3 = e2.ticked();
    let e4 = e3.ticked();
    let e5 = e4.ticked();
    let e6 = e5.ticked();
    let e7 = e6.ticked();
    let e8 = e7.ticked();
    assert(e6.fetch == Some(low));
    assert(e7.fetch == Some(high));
    assert(start.ticked_times(1) == e1);
    assert(start.ticked_times(2) == e2);
    assert(start.ticked_times(3) == e3);
    assert(start.ticked_times(4) == e4);
    assert(start.ticked_times(5) == e5);
    assert(start.ticked_times(6) == e6);
    assert(start.ticked_times(7) == e7);
    assert(start.ticked_times(8) == e8);
}

/// The console: the CPU, its work RAM and the cartridge, joined by the
/// bus.
pub struct Emulator {
    fetch: Option<u8>,
    cpu: CpuInterpreter,
    memory: Ram,
    cartridge: Cartridge,
}

impl View for Emulator {
    type V = EmulatorView;

    closed spec fn view(&self) -> EmulatorView {
        EmulatorView {
            fetch: self.fetch,
            cpu: self.cpu@,
            memory: self.memory@,
            cartridge: self.cartridge@,
        }
    }
}

impl Emulator {
    /// The work RAM of every emulator holds 2 KiB.
    pub proof fn ram_size(&self)
        ensures
            self@.memory.len() == RAM_SIZE,
    {
    }

    /// Plugs `cartridge` in and arms the reset sequence.
    pub fn new(cartridge: Cartridge) -> (emulator: Emulator)
        ensures
            emulator@ == EmulatorView::powered_on(cartridge@),
            emulator@.cpu.wf(),
    {
        let mut temp = Emulator {
            fetch: None,
            cpu: CpuInterpreter::new(),
            memory: Ram::new(),
            cartridge,
        };
        temp.cpu.reset();
        assert(temp@.memory =~= Seq::new(RAM_SIZE as nat, |i: int| 0u8));
        temp
    }

    /// One tick of the master clock. It fails, and changes nothing,
    /// where the CPU cannot carry its tick out.
    pub fn clock(&mut self) -> (r: Result<(), CpuError>)
        ensures
            old(self)@.cpu.wf(),
            final(self)@.cpu.wf(),
            match old(self)@.cpu.fault(old(self)@.fetch) {
                Some(e) => r == Err::<(), CpuError>(e) && final(self)@ == old(self)@,
                None => r == Ok::<(), CpuError>(()) && final(self)@ == old(self)@.ticked(),
            },
    {
        let msg = match self.cpu.clock(self.fetch) {
            Ok(msg) => msg,
            Err(e) => {
                return Err(e);
            },
        };
        match msg {
            BusMessage::Read { addr } => {
                self.fetch = self.read_cpu(addr);
            },
            BusMessage::Write { addr, data } => {
                self.fetch = None;
                self.write_cpu(addr, data);
            },
            BusMessage::Nop => {
                self.fetch = None;
            },
        }
        Ok(())
    }

    /// What the CPU reads at `addr`. Every address answers.
    pub fn read_cpu(&self, addr: u16) -> (byte: Option<u8>)
        ensures
            byte == Some(self@.read_cpu(addr)),
    {
        proof {
            self.memory.size();
        }
        match decode(addr) {
            Region::WorkRam(index) => Some(self.memory.cpu_read(index)),
            Region::Cartridge => Some(self.cartridge.cpu_read(addr)),
            _ => Some(0),
        }
    }

    /// Carries out a write of the CPU.
    pub fn write_cpu(&mut self, addr: u16, data: u8)
        ensures
            final(self)@ == old(self)@.written(addr, data),
    {
        proof {
            self.memory.size();
        }
        match decode(addr) {
            Region::WorkRam(index) => {
                self.memory.cpu_write(index, data);
            },
            Region::Cartridge => {
                self.cartridge.cpu_write(addr, data);
            },
            _ => {},
        }
    }

    /// The processor, for an observer.
    pub fn cpu(&self) -> (cpu: &CpuInterpreter)
        ensures
            cpu@ == self@.cpu,
    {
        &self.cpu
    }

    /// The work RAM, for an observer.
    pub fn memory(&self) -> (memory: &Ram)
        ensures
            memory@ == self@.memory,
    {
        &self.memory
    }

    /// The cartridge, for an observer.
    pub fn cartridge(&self) -> (cartridge: &Cartridge)
        ensures
            cartridge@ == self@.cartridge,
    {
        &self.cartridge
    }

    /// Raises the CPU's maskable interrupt line.
    pub fn irq(&mut self)
        ensures
            final(self)@ == (EmulatorView { cpu: old(self)@.cpu.irq_raised(), ..old(self)@ }),
    {
        self.cpu.irq();
    }

    /// Signals an edge on the CPU's non-maskable interrupt line.
    pub fn nmi(&mut self)
        ensures
            final(self)@ == (EmulatorView { cpu: old(self)@.cpu.nmi_raised(), ..old(self)@ }),
    {
        self.cpu.nmi();
    }

    /// Arms the CPU's reset sequence. RAM and cartridge keep what they
    /// hold.
    pub fn reset(&mut self)
        ensures
            final(self)@ == (EmulatorView { cpu: old(self)@.cpu.reset_armed(), ..old(self)@ }),
    {
        self.cpu.reset();
    }
}

} // verus!

//! The cartridge: its image format and the memories it holds.
//!
//! An image is a sixteen-byte header, an optional 512-byte trainer, the
//! PRG-ROM, the CHR-ROM, and whatever follows.

pub mod mappers;

use vstd::prelude::*;
use vstd::arithmetic::power2::{lemma2_to64, lemma2_to64_rest, lemma_pow2_unfold, pow2};
use vstd::arithmetic::power2::lemma_pow2_strictly_increases;
use crate::cartridge::mappers::{
    map_mapper,
    selected,
    AnyMapper,
    MappedCpuAddress,
    MappedPpuAddress,
    Mapper,
};

verus! {

/// Length of the header.
pub const HEADER_SIZE: usize = 16;

/// Length of a trainer.
pub const TRAINER_SIZE: usize = 512;

/// What the sixteen header bytes of an image say.
#[derive(Debug, Clone, Copy, PartialEq, Eq, Structural)]
pub struct Header {
    /// Whether the image is in the second version of the format.
    pub is_nes20: bool,
    /// PRG-ROM size in bytes.
    pub prg_rom_size: usize,
    /// CHR-ROM size in bytes.
    pub chr_rom_size: usize,
    pub mapper_id: u16,
    /// Whether a 512-byte trainer precedes the PRG-ROM.
    pub trainer_present: bool,
    /// Whether the PRG-RAM is battery-backed.
    pub persistent_memory_present: bool,
    /// PRG-RAM size in bytes.
    pub prg_ram_size: usize,
    /// CHR-RAM size in bytes.
    pub chr_ram_size: usize,
}

/// Why an image was not loaded.
#[derive(Debug, Clone, Copy, PartialEq, Eq, Structural)]
pub enum CartridgeError {
    /// The image does not start with the four magic bytes.
    NotInes,
    /// No mapper with the id that the header names is implemented.
    UnimplementedMapper(u16),
    /// The image ends before its header, trainer, PRG-ROM or CHR-ROM
    /// does.
    UnexpectedEof,
}

/// Whether the image starts with `NES` and 0x1A.
pub open spec fn has_magic(image: Seq<u8>) -> bool {
    &&& image.len() >= 4
    &&& image[0] == 0x4E
    &&& image[1] == 0x45
    &&& image[2] == 0x53
    &&& image[3] == 0x1A
}

/// Whether byte 7 marks the second version of the format: its bits 2
/// and 3 read `10`.
pub open spec fn declares_nes20(image: Seq<u8>) -> bool {
    image[7] & 0x0C == 0x08
}

/// The mapper id: its low nibble is the high nibble of byte 6, its high
/// nibble that of byte 7.
pub open spec fn declared_mapper(image: Seq<u8>) -> u16 {
    ((image[6] >> 4) | (image[7] & 0xF0)) as u16
}

/// Bit 2 of byte 6.
pub open spec fn declares_trainer(image: Seq<u8>) -> bool {
    image[6] & 0x04 != 0
}

/// Bit 1 of byte 6.
pub open spec fn declares_battery(image: Seq<u8>) -> bool {
    image[6] & 0x02 != 0
}

/// A ROM size of the second version of the format. With a high nibble
/// other than 0xF the twelve bits of `high` and `low` count units.
/// With 0xF the low byte holds a multiplier in its bits 0 and 1 and an
/// exponent above them, and the size is `2^exponent * (2 * multiplier
/// + 1)` bytes.
pub open spec fn rom_size(low: u8, high: u8, unit: nat) -> nat {
    if high != 0xF {
        ((high * 0x100 + low) * unit) as nat
    } else {
        pow2((low / 4) as nat) * ((low % 4) * 2 + 1) as nat
    }
}

/// PRG-ROM size in bytes: in the first version byte 4 counts banks of
/// 16 KiB; in the second the high nibble of byte 9 extends it.
pub open spec fn declared_prg_rom(image: Seq<u8>) -> nat {
    if declares_nes20(image) {
        rom_size(image[4], image[9] / 0x10, 0x4000)
    } else {
        (image[4] * 0x4000) as nat
    }
}

/// CHR-ROM size in bytes: in the first version byte 5 counts banks of
/// 8 KiB; in the second the low nibble of byte 9 extends it.
pub open spec fn declared_chr_rom(image: Seq<u8>) -> nat {
    if declares_nes20(image) {
        rom_size(image[5], image[9] % 0x10, 0x2000)
    } else {
        (image[5] * 0x2000) as nat
    }
}

/// PRG-RAM size in bytes: in the first version 8 KiB where the battery
/// bit is set and none where it is not; in the second 64 shifted left
/// by the low nibble of byte 10.
pub open spec fn declared_prg_ram(image: Seq<u8>) -> nat {
    if declares_nes20(image) {
        64 * pow2((image[10] % 0x10) as nat)
    } else if declares_battery(image) {
        0x2000
    } else {
        0
    }
}

/// CHR-RAM size in bytes: in the first version 8 KiB; in the second 64
/// shifted left by the low nibble of byte 11.
pub open spec fn declared_chr_ram(image: Seq<u8>) -> nat {
    if declares_nes20(image) {
        64 * pow2((image[11] % 0x10) as nat)
    } else {
        0x2000
    }
}

/// Where the PRG-ROM starts: after the header and the trainer.
pub open spec fn prg_start(image: Seq<u8>) -> nat {
    if declares_trainer(image) {
        (HEADER_SIZE + TRAINER_SIZE) as nat
    } else {
        HEADER_SIZE as nat
    }
}

/// Where the CHR-ROM starts.
pub open spec fn chr_start(image: Seq<u8>) -> nat {
    prg_start(image) + declared_prg_rom(image)
}

/// Where the CHR-ROM ends and the rest of the image starts.
pub open spec fn misc_start(image: Seq<u8>) -> nat {
    chr_start(image) + declared_chr_rom(image)
}

/// Why `image` cannot be loaded, if it cannot. The magic bytes are
/// looked at first, then the length of the header, then the mapper,
/// then the length of what the header announces.
pub open spec fn image_error(image: Seq<u8>) -> Option<CartridgeError> {
    if !has_magic(image) {
        Some(CartridgeError::NotInes)
    } else if image.len() < HEADER_SIZE {
        Some(CartridgeError::UnexpectedEof)
    } else if selected(declared_mapper(image)) is None {
        Some(CartridgeError::UnimplementedMapper(declared_mapper(image)))
    } else if image.len() < misc_start(image) {
        Some(CartridgeError::UnexpectedEof)
    } else {
        None
    }
}

/// A memory of `len` zero bytes.
pub open spec fn zeroes(len: nat) -> Seq<u8> {
    Seq::new(len, |i: int| 0u8)
}

/// The byte at `offset` of `memory`, zero beyond its end.
pub open spec fn byte_at(memory: Seq<u8>, offset: u16) -> u8 {
    if offset < memory.len() {
        memory[offset as int]
    } else {
        0
    }
}

/// `memory` with `data` at `offset`, unchanged where `offset` lies
/// beyond its end.
pub open spec fn with_byte(memory: Seq<u8>, offset: u16, data: u8) -> Seq<u8> {
    if offset < memory.len() {
        memory.update(offset as int, data)
    } else {
        memory
    }
}

/// What a cartridge holds.
pub struct CartridgeView {
    pub header: Header,
    pub mapper: AnyMapper,
    pub trainer: Option<Seq<u8>>,
    pub prg_rom: Seq<u8>,
    pub chr_rom: Seq<u8>,
    pub misc_rom: Seq<u8>,
    pub prg_ram: Seq<u8>,
    pub chr_ram: Seq<u8>,
}

impl CartridgeView {
    /// The cartridge that a loadable image describes. Its RAMs start
    /// out zeroed.
    pub open spec fn of_image(image: Seq<u8>) -> CartridgeView {
        CartridgeView {
            mapper: selected(declared_mapper(image)).unwrap(),
            header: Header {
                is_nes20: declares_nes20(image),
                prg_rom_size: declared_prg_rom(image) as usize,
                chr_rom_size: declared_chr_rom(image) as usize,
                mapper_id: declared_mapper(image),
                trainer_present: declares_trainer(image),
                persistent_memory_present: declares_battery(image),
                prg_ram_size: declared_prg_ram(image) as usize,
                chr_ram_size: declared_chr_ram(image) as usize,
            },
            trainer: if declares_trainer(image) {
                Some(image.subrange(HEADER_SIZE as int, (HEADER_SIZE + TRAINER_SIZE) as int))
            } else {
                None
            },
            prg_rom: image.subrange(prg_start(image) as int, chr_start(image) as int),
            chr_rom: image.subrange(chr_start(image) as int, misc_start(image) as int),
            misc_rom: image.subrange(misc_start(image) as int, image.len() as int),
            prg_ram: zeroes(declared_prg_ram(image)),
            chr_ram: zeroes(declared_chr_ram(image)),
        }
    }

    /// Where the cartridge's mapper sends `addr` on the CPU bus.
    pub open spec fn cpu_target(self, addr: u16) -> MappedCpuAddress {
        self.mapper.cpu_map(&self.header, addr)
    }

    /// Where the cartridge's mapper sends `addr` on the PPU bus.
    pub open spec fn ppu_target(self, addr: u16) -> MappedPpuAddress {
        self.mapper.ppu_map(&self.header, addr)
    }

    /// The byte that a read of `addr` on the CPU bus gives: that of the
    /// memory the mapper names, zero where it names none or the offset
    /// lies beyond the memory.
    pub open spec fn cpu_read(self, addr: u16) -> u8 {
        match self.cpu_target(addr) {
            MappedCpuAddress::PrgRom(offset) => byte_at(self.prg_rom, offset),
            MappedCpuAddress::PrgRam(offset) => byte_at(self.prg_ram, offset),
            MappedCpuAddress::Unmapped => 0,
        }
    }

    /// The cartridge after a write on the CPU bus: only PRG-RAM takes
    /// it.
    pub open spec fn cpu_written(self, addr: u16, data: u8) -> CartridgeView {
        match self.cpu_target(addr) {
            MappedCpuAddress::PrgRam(offset) => CartridgeView {
                prg_ram: with_byte(self.prg_ram, offset, data),
                ..self
            },
            _ => self,
        }
    }

    /// The byte that a read of `addr` on the PPU bus gives.
    pub open spec fn ppu_read(self, addr: u16) -> u8 {
        match self.ppu_target(addr) {
            MappedPpuAddress::ChrRom(offset) => byte_at(self.chr_rom, offset),
            MappedPpuAddress::ChrRam(offset) => byte_at(self.chr_ram, offset),
            MappedPpuAddress::Unmapped => 0,
        }
    }

    /// The cartridge after a write on the PPU bus: only CHR-RAM takes
    /// it.
    pub open spec fn ppu_written(self, addr: u16, data: u8) -> CartridgeView {
        match self.ppu_target(addr) {
            MappedPpuAddress::ChrRam(offset) => CartridgeView {
                chr_ram: with_byte(self.chr_ram, offset, data),
                ..self
            },
            _ => self,
        }
    }
}

/// With mapper 000 a PRG-ROM of one bank answers in both halves of
/// 0x8000 to 0xFFFF: an address in the upper half reads what the address
/// 0x4000 below it reads.
pub proof fn single_bank_is_mirrored(c: CartridgeView, addr: u16)
    requires
        c.mapper == (AnyMapper::Nrom(mappers::Mapper000 {  })),
        c.header.prg_rom_size <= mappers::PRG_BANK,
        0xC000 <= addr,
    ensures
        c.cpu_read(addr) == c.cpu_read((addr - 0x4000) as u16),
{
}

/// With mapper 000 a PRG-ROM of more than one bank is not mirrored:
/// 0x8000 to 0xFFFF reads its first 32 KiB in order.
pub proof fn two_banks_are_linear(c: CartridgeView, addr: u16)
    requires
        c.mapper == (AnyMapper::Nrom(mappers::Mapper000 {  })),
        c.header.prg_rom_size > mappers::PRG_BANK,
        0x8000 <= addr,
    ensures
        c.cpu_target(addr) == MappedCpuAddress::PrgRom((addr - 0x8000) as u16),
        c.cpu_read(addr) == byte_at(c.prg_rom, (addr - 0x8000) as u16),
{
}

/// A write on the CPU bus never changes what the PRG-ROM holds.
pub proof fn rom_ignores_writes(c: CartridgeView, addr: u16, data: u8)
    ensures
        c.cpu_written(addr, data).prg_rom == c.prg_rom,
        c.cpu_written(addr, data).chr_rom == c.chr_rom,
        c.cpu_target(addr) !is PrgRam ==> c.cpu_written(addr, data) == c,
{
}

/// The cartridge that an image loads into has memories of the sizes
/// that its header gives, and its PRG-ROM and CHR-ROM are the image's
/// bytes in that order.
pub proof fn image_layout(image: Seq<u8>)
    requires
        image_error(image) is None,
    ensures
        CartridgeView::of_image(image).prg_rom.len() == declared_prg_rom(image),
        CartridgeView::of_image(image).chr_rom.len() == declared_chr_rom(image),
        CartridgeView::of_image(image).prg_ram.len() == declared_prg_ram(image),
        CartridgeView::of_image(image).chr_ram.len() == declared_chr_ram(image),
        CartridgeView::of_image(image).misc_rom.len() == image.len() - misc_start(image),
        forall|i: int|
            0 <= i < declared_prg_rom(image) ==> #[trigger] CartridgeView::of_image(
                image,
            ).prg_rom[i] == image[prg_start(image) + i],
        forall|i: int|
            0 <= i < declared_chr_rom(image) ==> #[trigger] CartridgeView::of_image(
                image,
            ).chr_rom[i] == image[chr_start(image) + i],
{
}

/// A loaded cartridge.
pub struct Cartridge {
    header: Header,
    mapper: AnyMapper,
    trainer: Option<Vec<u8>>,
    prg_rom: Vec<u8>,
    chr_rom: Vec<u8>,
    misc_rom: Vec<u8>,
    prg_ram: Vec<u8>,
    chr_ram: Vec<u8>,
}

impl View for Cartridge {
    type V = CartridgeView;

    closed spec fn view(&self) -> CartridgeView {
        CartridgeView {
            header: self.header,
            mapper: self.mapper,
            trainer: match self.trainer {
                Some(trainer) => Some(trainer@),
                None => None,
            },
            prg_rom: self.prg_rom@,
            chr_rom: self.chr_rom@,
            misc_rom: self.misc_rom@,
            prg_ram: self.prg_ram@,
            chr_ram: self.chr_ram@,
        }
    }
}

/// `2^exponent`.
fn power_of_two(exponent: u8) -> (power: u128)
    requires
        exponent <= 63,
    ensures
        power == pow2(exponent as nat),
        power <= 0x8000_0000_0000_0000,
{
    let mut power: u128 = 1;
    let mut i: u8 = 0;
    proof {
        lemma2_to64();
        lemma2_to64_rest();
    }
    while i < exponent
        invariant
            i <= exponent <= 63,
            power == pow2(i as nat),
            pow2(63) == 0x8000_0000_0000_0000,
        decreases exponent - i,
    {
        proof {
            lemma_pow2_unfold((i + 1) as nat);
            if i + 1 < 63 {
                lemma_pow2_strictly_increases((i + 1) as nat, 63);
            }
        }
        power = power * 2;
        i = i + 1;
    }
    proof {
        if exponent < 63 {
            lemma_pow2_strictly_increases(exponent as nat, 63);
        }
    }
    power
}

/// A ROM size as the second version of the format encodes it.
fn decode_rom_size(low: u8, high: u8, unit: u128) -> (size: u128)
    requires
        high <= 0xF,
        unit <= 0x4000,
    ensures
        size == rom_size(low, high, unit as nat),
        size <= 0x4_0000_0000_0000_0000,
{
    if high != 0xF {
        let units = (high as u128) * 0x100 + (low as u128);
        assert(units * unit <= 0xF00 * 0x4000) by (nonlinear_arith)
            requires
                units <= 0xF00,
                unit <= 0x4000,
        ;
        units * unit
    } else {
        let power = power_of_two(low / 4);
        let factor = ((low % 4) as u128) * 2 + 1;
        assert(power * factor <= 0x8000_0000_0000_0000 * 7) by (nonlinear_arith)
            requires
                power <= 0x8000_0000_0000_0000,
                factor <= 7,
        ;
        power * factor
    }
}

/// A RAM size as the second version of the format encodes it.
fn decode_ram_size(shift: u8) -> (size: usize)
    requires
        shift <= 15,
    ensures
        size == 64 * pow2(shift as nat),
{
    let power = power_of_two(shift);
    proof {
        lemma2_to64();
        if shift < 15 {
            lemma_pow2_strictly_increases(shift as nat, 15);
        }
    }
    (64 * power) as usize
}

/// A copy of `len` bytes of `image` from `start`.
fn copy_of(image: &[u8], start: usize, len: usize) -> (bytes: Vec<u8>)
    requires
        start + len <= image@.len(),
    ensures
        bytes@ == image@.subrange(start as int, start + len),
{
    let total = image.len();
    let mut bytes: Vec<u8> = Vec::with_capacity(len);
    let mut i: usize = 0;
    while i < len
        invariant
            i <= len,
            start + len <= total == image@.len(),
            bytes@ == image@.subrange(start as int, start + i),
        decreases len - i,
    {
        bytes.push(image[start + i]);
        i = i + 1;
        assert(bytes@ =~= image@.subrange(start as int, start + i));
    }
    bytes
}

/// A memory of `len` zero bytes.
fn zeroed(len: usize) -> (bytes: Vec<u8>)
    ensures
        bytes@ == zeroes(len as nat),
{
    let mut bytes: Vec<u8> = Vec::with_capacity(len);
    let mut i: usize = 0;
    while i < len
        invariant
            i <= len,
            bytes@ == zeroes(i as nat),
        decreases len - i,
    {
        bytes.push(0);
        i = i + 1;
        assert(bytes@ =~= zeroes(i as nat));
    }
    bytes
}

impl Cartridge {
    /// Loads the cartridge that `image` holds.
    pub fn read(image: &[u8]) -> (loaded: Result<Cartridge, CartridgeError>)
        ensures
            match image_error(image@) {
                Some(e) => loaded matches Err(error) && error == e,
                None => loaded matches Ok(cartridge) && cartridge@ == CartridgeView::of_image(
                    image@,
                ),
            },
    {
        if !(image.len() >= 4 && image[0] == 0x4E && image[1] == 0x45 && image[2] == 0x53
            && image[3] == 0x1A) {
            return Err(CartridgeError::NotInes);
        }
        if image.len() < HEADER_SIZE {
            return Err(CartridgeError::UnexpectedEof);
        }
        let is_nes20 = image[7] & 0x0C == 0x08;
        let mapper_id = ((image[6] >> 4) | (image[7] & 0xF0)) as u16;
        let trainer_present = image[6] & 0x04 != 0;
        let persistent_memory_present = image[6] & 0x02 != 0;
        let prg_rom_size: u128;
        let chr_rom_size: u128;
        let prg_ram_size: usize;
        let chr_ram_size: usize;
        if is_nes20 {
            prg_rom_size = decode_rom_size(image[4], image[9] / 0x10, 0x4000);
            chr_rom_size = decode_rom_size(image[5], image[9] % 0x10, 0x2000);
            prg_ram_size = decode_ram_size(image[10] % 0x10);
            chr_ram_size = decode_ram_size(image[11] % 0x10);
        } else {
            prg_rom_size = (image[4] as u128) * 0x4000;
            chr_rom_size = (image[5] as u128) * 0x2000;
            prg_ram_size = if persistent_memory_present {
                0x2000
            } else {
                0
            };
            chr_ram_size = 0x2000;
        }
        let mapper = match map_mapper(mapper_id) {
            Some(mapper) => mapper,
            None => {
                return Err(CartridgeError::UnimplementedMapper(mapper_id));
            },
        };
        let prg_start: usize = if trainer_present {
            HEADER_SIZE + TRAINER_SIZE
        } else {
            HEADER_SIZE
        };
        if (image.len() as u128) < (prg_start as u128) + prg_rom_size + chr_rom_size {
            return Err(CartridgeError::UnexpectedEof);
        }
        let prg_len = prg_rom_size as usize;
        let chr_len = chr_rom_size as usize;
        let chr_start = prg_start + prg_len;
        let misc_start = chr_start + chr_len;
        let header = Header {
            is_nes20,
            prg_rom_size: prg_len,
            chr_rom_size: chr_len,
            mapper_id,
            trainer_present,
            persistent_memory_present,
            prg_ram_size,
            chr_ram_size,
        };
        let trainer = if trainer_present {
            Some(copy_of(image, HEADER_SIZE, TRAINER_SIZE))
        } else {
            None
        };
        let cartridge = Cartridge {
            header,
            mapper,
            trainer,
            prg_rom: copy_of(image, prg_start, prg_len),
            chr_rom: copy_of(image, chr_start, chr_len),
            misc_rom: copy_of(image, misc_start, image.len() - misc_start),
            prg_ram: zeroed(prg_ram_size),
            chr_ram: zeroed(chr_ram_size),
        };
        Ok(cartridge)
    }

    /// The header.
    pub fn header(&self) -> (header: &Header)
        ensures
            *header == self@.header,
    {
        &self.header
    }

    /// Reads the byte at `addr` of the CPU bus.
    pub fn cpu_read(&self, addr: u16) -> (byte: u8)
        ensures
            byte == self@.cpu_read(addr),
    {
        match self.mapper.map_cpu(&self.header, addr) {
            MappedCpuAddress::PrgRom(offset) => if (offset as usize) < self.prg_rom.len() {
                self.prg_rom[offset as usize]
            } else {
                0x00
            },
            MappedCpuAddress::PrgRam(offset) => if (offset as usize) < self.prg_ram.len() {
                self.prg_ram[offset as usize]
            } else {
                0x00
            },
            MappedCpuAddress::Unmapped => 0x00,
        }
    }

    /// Writes `data` to `addr` of the CPU bus. A write to ROM, or to
    /// where nothing is, is dropped.
    pub fn cpu_write(&mut self, addr: u16, data: u8)
        ensures
            final(self)@ == old(self)@.cpu_written(addr, data),
    {
        match self.mapper.map_cpu(&self.header, addr) {
            MappedCpuAddress::PrgRam(offset) => {
                if (offset as usize) < self.prg_ram.len() {
                    self.prg_ram.set(offset as usize, data);
                }
            },
            _ => {},
        }
    }

    /// Reads the byte at `addr` of the PPU bus.
    pub fn ppu_read(&self, addr: u16) -> (byte: u8)
        ensures
            byte == self@.ppu_read(addr),
    {
        match self.mapper.map_ppu(&self.header, addr) {
            MappedPpuAddress::ChrRom(offset) => if (offset as usize) < self.chr_rom.len() {
                self.chr_rom[offset as usize]
            } else {
                0x00
            },
            MappedPpuAddress::ChrRam(offset) => if (offset as usize) < self.chr_ram.len() {
                self.chr_ram[offset as usize]
            } else {
                0x00
            },
            MappedPpuAddress::Unmapped => 0x00,
        }
    }

    /// Writes `data` to `addr` of the PPU bus. A write to ROM, or to
    /// where nothing is, is dropped.
    pub fn ppu_write(&mut self, addr: u16, data: u8)
        ensures
            final(self)@ == old(self)@.ppu_written(addr, data),
    {
        match self.mapper.map_ppu(&self.header, addr) {
            MappedPpuAddress::ChrRam(offset) => {
                if (offset as usize) < self.chr_ram.len() {
                    self.chr_ram.set(offset as usize, data);
                }
            },
            _ => {},
        }
    }
}

} // verus!

//! Mappers: the cartridge's own logic that turns an address on the CPU
//! or PPU bus into an offset into one of its memories.

use vstd::prelude::*;
use crate::cartridge::Header;

verus! {

/// Where an address on the CPU bus lands in the cartridge.
#[derive(Debug, Clone, Copy, PartialEq, Eq, Structural)]
pub enum MappedCpuAddress {
    /// Offset into PRG-RAM.
    PrgRam(u16),
    /// Offset into PRG-ROM.
    PrgRom(u16),
    /// The cartridge does not answer.
    Unmapped,
}

/// Where an address on the PPU bus lands in the cartridge.
#[derive(Debug, Clone, Copy, PartialEq, Eq, Structural)]
pub enum MappedPpuAddress {
    /// Offset into CHR-RAM.
    ChrRam(u16),
    /// Offset into CHR-ROM.
    ChrRom(u16),
    /// The cartridge does not answer.
    Unmapped,
}

/// A mapper: two functions of the header and the address.
pub trait Mapper {
    /// Where `addr` on the CPU bus lands.
    spec fn cpu_map(&self, meta: &Header, addr: u16) -> MappedCpuAddress;

    /// Where `addr` on the PPU bus lands.
    spec fn ppu_map(&self, meta: &Header, addr: u16) -> MappedPpuAddress;

    fn map_cpu(&self, meta: &Header, addr: u16) -> (mapped: MappedCpuAddress)
        ensures
            mapped == self.cpu_map(meta, addr),
    ;

    fn map_ppu(&self, meta: &Header, addr: u16) -> (mapped: MappedPpuAddress)
        ensures
            mapped == self.ppu_map(meta, addr),
    ;
}

/// Mapper 000, NROM: no bank switching.
pub struct Mapper000 {}

/// Size of one PRG-ROM bank.
pub const PRG_BANK: usize = 0x4000;

impl Mapper for Mapper000 {
    /// 0x6000 to 0x7FFF is PRG-RAM, 0x8000 to 0xFFFF is PRG-ROM. A
    /// PRG-ROM of one bank or less appears a second time from 0xC000.
    open spec fn cpu_map(&self, meta: &Header, addr: u16) -> MappedCpuAddress {
        if addr >= 0x8000 {
            if meta.prg_rom_size > PRG_BANK {
                MappedCpuAddress::PrgRom((addr - 0x8000) as u16)
            } else {
                MappedCpuAddress::PrgRom(((addr - 0x8000) % 0x4000) as u16)
            }
        } else if addr >= 0x6000 {
            MappedCpuAddress::PrgRam((addr - 0x6000) as u16)
        } else {
            MappedCpuAddress::Unmapped
        }
    }

    /// The pattern tables, 0x0000 to 0x1FFF, are CHR-ROM where the
    /// cartridge has any and CHR-RAM where it has none.
    open spec fn ppu_map(&self, meta: &Header, addr: u16) -> MappedPpuAddress {
        if addr < 0x2000 {
            if meta.chr_rom_size > 0 {
                MappedPpuAddress::ChrRom(addr)
            } else {
                MappedPpuAddress::ChrRam(addr)
            }
        } else {
            MappedPpuAddress::Unmapped
        }
    }

    fn map_cpu(&self, meta: &Header, addr: u16) -> (mapped: MappedCpuAddress) {
        if addr >= 0xC000 {
            if meta.prg_rom_size > PRG_BANK {
                MappedCpuAddress::PrgRom(addr - 0x8000)
            } else {
                MappedCpuAddress::PrgRom(addr - 0xC000)
            }
        } else if addr >= 0x8000 {
            MappedCpuAddress::PrgRom(addr - 0x8000)
        } else if addr >= 0x6000 {
            MappedCpuAddress::PrgRam(addr - 0x6000)
        } else {
            MappedCpuAddress::Unmapped
        }
    }

    fn map_ppu(&self, meta: &Header, addr: u16) -> (mapped: MappedPpuAddress) {
        if addr < 0x2000 {
            if meta.chr_rom_size > 0 {
                MappedPpuAddress::ChrRom(addr)
            } else {
                MappedPpuAddress::ChrRam(addr)
            }
        } else {
            MappedPpuAddress::Unmapped
        }
    }
}

/// One of the implemented mappers.
pub enum AnyMapper {
    /// Mapper 000.
    Nrom(Mapper000),
}

impl Mapper for AnyMapper {
    open spec fn cpu_map(&self, meta: &Header, addr: u16) -> MappedCpuAddress {
        match self {
            AnyMapper::Nrom(mapper) => mapper.cpu_map(meta, addr),
        }
    }

    open spec fn ppu_map(&self, meta: &Header, addr: u16) -> MappedPpuAddress {
        match self {
            AnyMapper::Nrom(mapper) => mapper.ppu_map(meta, addr),
        }
    }

    fn map_cpu(&self, meta: &Header, addr: u16) -> (mapped: MappedCpuAddress) {
        match self {
            AnyMapper::Nrom(mapper) => mapper.map_cpu(meta, addr),
        }
    }

    fn map_ppu(&self, meta: &Header, addr: u16) -> (mapped: MappedPpuAddress) {
        match self {
            AnyMapper::Nrom(mapper) => mapper.map_ppu(meta, addr),
        }
    }
}

/// The mapper that an id selects: only 0 selects one.
pub open spec fn selected(mapper_id: u16) -> Option<AnyMapper> {
    if mapper_id == 0 {
        Some(AnyMapper::Nrom(Mapper000 {  }))
    } else {
        None
    }
}

/// The mapper with this id, if it is implemented.
pub fn map_mapper(mapper_id: u16) -> (mapper: Option<AnyMapper>)
    ensures
        mapper == selected(mapper_id),
{
    match mapper_id {
        0 => Some(AnyMapper::Nrom(Mapper000 {  })),
        _ => None,
    }
}

} // verus!

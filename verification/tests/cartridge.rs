use nesferratu_core::cartridge::mappers::{
    map_mapper, AnyMapper, MappedCpuAddress, MappedPpuAddress, Mapper, Mapper000,
};
use nesferratu_core::cartridge::{Cartridge, CartridgeError, Header};

fn header(bytes: [u8; 12]) -> Vec<u8> {
    let mut image = vec![0x4E, 0x45, 0x53, 0x1A];
    image.extend_from_slice(&bytes);
    image
}

fn with_payload(mut image: Vec<u8>, len: usize) -> Vec<u8> {
    for i in 0..len {
        image.push((i % 251) as u8);
    }
    image
}

fn meta(prg_rom_size: usize, chr_rom_size: usize) -> Header {
    Header {
        is_nes20: false,
        prg_rom_size,
        chr_rom_size,
        mapper_id: 0,
        trainer_present: false,
        persistent_memory_present: false,
        prg_ram_size: 0,
        chr_ram_size: 0x2000,
    }
}

fn error_of(image: &[u8]) -> CartridgeError {
    match Cartridge::read(image) {
        Ok(_) => panic!("the image loaded"),
        Err(error) => error,
    }
}

#[test]
fn first_version_header() {
    let image = with_payload(header([2, 1, 0, 0, 0, 0, 0, 0, 0, 0, 0, 0]), 2 * 0x4000 + 0x2000);
    let cartridge = Cartridge::read(&image).unwrap();
    assert_eq!(
        *cartridge.header(),
        Header {
            is_nes20: false,
            prg_rom_size: 0x8000,
            chr_rom_size: 0x2000,
            mapper_id: 0,
            trainer_present: false,
            persistent_memory_present: false,
            prg_ram_size: 0,
            chr_ram_size: 0x2000,
        }
    );
}

#[test]
fn battery_bit_gives_prg_ram() {
    let image = with_payload(header([1, 0, 0x02, 0, 0, 0, 0, 0, 0, 0, 0, 0]), 0x4000);
    let mut cartridge = Cartridge::read(&image).unwrap();
    assert!(cartridge.header().persistent_memory_present);
    assert!(!cartridge.header().trainer_present);
    assert_eq!(cartridge.header().prg_ram_size, 0x2000);
    assert_eq!(cartridge.cpu_read(0x6000), 0);
    cartridge.cpu_write(0x6000, 0x12);
    cartridge.cpu_write(0x7FFF, 0x34);
    assert_eq!(cartridge.cpu_read(0x6000), 0x12);
    assert_eq!(cartridge.cpu_read(0x7FFF), 0x34);
    assert_eq!(cartridge.cpu_read(0x6001), 0);
}

#[test]
fn without_prg_ram_its_range_reads_zero() {
    let image = with_payload(header([1, 0, 0, 0, 0, 0, 0, 0, 0, 0, 0, 0]), 0x4000);
    let mut cartridge = Cartridge::read(&image).unwrap();
    cartridge.cpu_write(0x6000, 0x12);
    assert_eq!(cartridge.cpu_read(0x6000), 0);
}

#[test]
fn trainer_precedes_prg_rom() {
    let mut image = header([1, 0, 0x04, 0, 0, 0, 0, 0, 0, 0, 0, 0]);
    image.extend(std::iter::repeat(0xEE).take(512));
    image.extend(std::iter::repeat(0x77).take(0x4000));
    let cartridge = Cartridge::read(&image).unwrap();
    assert!(cartridge.header().trainer_present);
    assert!(!cartridge.header().persistent_memory_present);
    assert_eq!(cartridge.cpu_read(0x8000), 0x77);
    assert_eq!(cartridge.cpu_read(0xFFFF), 0x77);
}

#[test]
fn bit_two_alone_decides_on_the_trainer() {
    // Byte 6 = 0x0C: bit 2 is set although the byte shifted right by
    // two is not one.
    let mut image = header([1, 0, 0x0C, 0, 0, 0, 0, 0, 0, 0, 0, 0]);
    image.extend(std::iter::repeat(0xEE).take(512));
    image.extend(std::iter::repeat(0x77).take(0x4000));
    let cartridge = Cartridge::read(&image).unwrap();
    assert!(cartridge.header().trainer_present);
    assert_eq!(cartridge.cpu_read(0x8000), 0x77);
}

#[test]
fn mapper_id_from_two_nibbles() {
    let image = header([1, 0, 0x10, 0x20, 0, 0, 0, 0, 0, 0, 0, 0]);
    assert_eq!(error_of(&image), CartridgeError::UnimplementedMapper(0x21));
    let image = header([1, 0, 0xF0, 0xF0, 0, 0, 0, 0, 0, 0, 0, 0]);
    assert_eq!(error_of(&image), CartridgeError::UnimplementedMapper(0xFF));
    let image = header([1, 0, 0x40, 0x00, 0, 0, 0, 0, 0, 0, 0, 0]);
    assert_eq!(error_of(&image), CartridgeError::UnimplementedMapper(4));
}

#[test]
fn not_an_image() {
    assert_eq!(error_of(&[]), CartridgeError::NotInes);
    assert_eq!(error_of(b"NES"), CartridgeError::NotInes);
    assert_eq!(error_of(b"NES\x1b0000000000000000"), CartridgeError::NotInes);
    assert_eq!(error_of(b"nes\x1a000000000000"), CartridgeError::NotInes);
    let mut image = with_payload(header([1, 0, 0, 0, 0, 0, 0, 0, 0, 0, 0, 0]), 0x4000);
    image[0] = 0x4F;
    assert_eq!(error_of(&image), CartridgeError::NotInes);
}

#[test]
fn truncated_header() {
    assert_eq!(error_of(b"NES\x1a"), CartridgeError::UnexpectedEof);
    assert_eq!(error_of(b"NES\x1a\x00\x00\x00\x00\x00\x00\x00\x00\x00\x00\x00"), CartridgeError::UnexpectedEof);
}

#[test]
fn truncated_payload() {
    let image = with_payload(header([1, 0, 0, 0, 0, 0, 0, 0, 0, 0, 0, 0]), 0x3FFF);
    assert_eq!(error_of(&image), CartridgeError::UnexpectedEof);
    let image = with_payload(header([1, 1, 0, 0, 0, 0, 0, 0, 0, 0, 0, 0]), 0x4000 + 0x1FFF);
    assert_eq!(error_of(&image), CartridgeError::UnexpectedEof);
    let image = with_payload(header([1, 0, 0x04, 0, 0, 0, 0, 0, 0, 0, 0, 0]), 0x4000 + 511);
    assert_eq!(error_of(&image), CartridgeError::UnexpectedEof);
    let image = with_payload(header([1, 1, 0, 0, 0, 0, 0, 0, 0, 0, 0, 0]), 0x4000 + 0x2000);
    assert!(Cartridge::read(&image).is_ok());
}

#[test]
fn mapper_is_checked_before_the_payload() {
    let image = header([1, 0, 0x10, 0, 0, 0, 0, 0, 0, 0, 0, 0]);
    assert_eq!(error_of(&image), CartridgeError::UnimplementedMapper(1));
}

#[test]
fn empty_cartridge() {
    let image = header([0, 0, 0, 0, 0, 0, 0, 0, 0, 0, 0, 0]);
    let cartridge = Cartridge::read(&image).unwrap();
    assert_eq!(cartridge.header().prg_rom_size, 0);
    assert_eq!(cartridge.cpu_read(0x8000), 0);
    assert_eq!(cartridge.cpu_read(0xFFFC), 0);
}

#[test]
fn second_version_sizes_count_units() {
    // Byte 9 = 0x10: PRG-ROM high nibble 1, CHR-ROM high nibble 0;
    // byte 4 = 0: 0x100 banks of 16 KiB. Too large to build; the
    // loader must ask for all of it.
    let image = header([0, 1, 0, 0x08, 0, 0x10, 0, 0, 0, 0, 0, 0]);
    assert_eq!(error_of(&image), CartridgeError::UnexpectedEof);

    let image = with_payload(
        header([2, 1, 0, 0x08, 0, 0x00, 3, 1, 0, 0, 0, 0]),
        2 * 0x4000 + 0x2000,
    );
    let cartridge = Cartridge::read(&image).unwrap();
    let header = cartridge.header();
    assert!(header.is_nes20);
    assert_eq!(header.prg_rom_size, 0x8000);
    assert_eq!(header.chr_rom_size, 0x2000);
    assert_eq!(header.prg_ram_size, 64 << 3);
    assert_eq!(header.chr_ram_size, 64 << 1);
}

#[test]
fn second_version_exponent_sizes() {
    // PRG-ROM: nibble 0xF, byte 4 = 0b001101_01: 2^13 * 3 bytes.
    // CHR-ROM: nibble 0xF, byte 5 = 0b001010_10: 2^10 * 5 bytes.
    let prg = (1usize << 13) * 3;
    let chr = (1usize << 10) * 5;
    let image = with_payload(header([0x35, 0x2A, 0, 0x08, 0, 0xFF, 0, 0, 0, 0, 0, 0]), prg + chr);
    let cartridge = Cartridge::read(&image).unwrap();
    assert_eq!(cartridge.header().prg_rom_size, prg);
    assert_eq!(cartridge.header().chr_rom_size, chr);
    assert_eq!(cartridge.header().prg_ram_size, 64);
    assert_eq!(cartridge.header().chr_ram_size, 64);
    let short = with_payload(header([0x35, 0x2A, 0, 0x08, 0, 0xFF, 0, 0, 0, 0, 0, 0]), prg + chr - 1);
    assert_eq!(error_of(&short), CartridgeError::UnexpectedEof);
}

#[test]
fn second_version_sizes_beyond_any_image() {
    // Exponent 63, multiplier 3: 2^63 * 7 bytes.
    let image = header([0xFF, 0, 0, 0x08, 0, 0xF0, 0, 0, 0, 0, 0, 0]);
    assert_eq!(error_of(&image), CartridgeError::UnexpectedEof);
}

#[test]
fn second_version_ram_sizes() {
    let image = header([0, 0, 0, 0x08, 0, 0, 0x0F, 0xF7, 0, 0, 0, 0]);
    let cartridge = Cartridge::read(&image).unwrap();
    assert_eq!(cartridge.header().prg_ram_size, 64 << 15);
    assert_eq!(cartridge.header().chr_ram_size, 64 << 7);
}

#[test]
fn version_is_in_bits_two_and_three_of_byte_seven() {
    for (byte, nes20) in [(0x00u8, false), (0x04, false), (0x08, true), (0x0C, false), (0x0B, true)] {
        let image = header([0, 0, 0, byte, 0, 0, 0, 0, 0, 0, 0, 0]);
        assert_eq!(Cartridge::read(&image).unwrap().header().is_nes20, nes20);
    }
}

#[test]
fn payload_order_and_rest() {
    let mut image = header([1, 1, 0, 0, 0, 0, 0, 0, 0, 0, 0, 0]);
    image.extend(std::iter::repeat(0x11).take(0x4000));
    image.extend(std::iter::repeat(0x22).take(0x2000));
    image.extend(std::iter::repeat(0x33).take(100));
    let cartridge = Cartridge::read(&image).unwrap();
    assert_eq!(cartridge.cpu_read(0x8000), 0x11);
    assert_eq!(cartridge.cpu_read(0xBFFF), 0x11);
    assert_eq!(cartridge.ppu_read(0x0000), 0x22);
    assert_eq!(cartridge.ppu_read(0x1FFF), 0x22);
    assert_eq!(cartridge.ppu_read(0x2000), 0x00);
}

#[test]
fn chr_rom_drops_writes_and_chr_ram_takes_them() {
    let mut image = header([0, 1, 0, 0, 0, 0, 0, 0, 0, 0, 0, 0]);
    image.extend(std::iter::repeat(0x22).take(0x2000));
    let mut with_rom = Cartridge::read(&image).unwrap();
    with_rom.ppu_write(0x0100, 0x99);
    assert_eq!(with_rom.ppu_read(0x0100), 0x22);

    let image = header([0, 0, 0, 0, 0, 0, 0, 0, 0, 0, 0, 0]);
    let mut with_ram = Cartridge::read(&image).unwrap();
    assert_eq!(with_ram.ppu_read(0x0100), 0x00);
    with_ram.ppu_write(0x0100, 0x99);
    with_ram.ppu_write(0x2000, 0x77);
    assert_eq!(with_ram.ppu_read(0x0100), 0x99);
    assert_eq!(with_ram.ppu_read(0x2000), 0x00);
}

#[test]
fn reads_below_the_cartridge_ram_are_unmapped() {
    let image = with_payload(header([1, 0, 0x02, 0, 0, 0, 0, 0, 0, 0, 0, 0]), 0x4000);
    let mut cartridge = Cartridge::read(&image).unwrap();
    cartridge.cpu_write(0x5FFF, 0x55);
    cartridge.cpu_write(0x4020, 0x55);
    assert_eq!(cartridge.cpu_read(0x5FFF), 0);
    assert_eq!(cartridge.cpu_read(0x4020), 0);
    assert_eq!(cartridge.cpu_read(0x0000), 0);
}

#[test]
fn mapper_000_cpu_side() {
    let mapper = Mapper000 {};
    let small = meta(0x4000, 0);
    let large = meta(0x8000, 0);
    assert_eq!(mapper.map_cpu(&small, 0x0000), MappedCpuAddress::Unmapped);
    assert_eq!(mapper.map_cpu(&small, 0x5FFF), MappedCpuAddress::Unmapped);
    assert_eq!(mapper.map_cpu(&small, 0x6000), MappedCpuAddress::PrgRam(0x0000));
    assert_eq!(mapper.map_cpu(&small, 0x7FFF), MappedCpuAddress::PrgRam(0x1FFF));
    assert_eq!(mapper.map_cpu(&small, 0x8000), MappedCpuAddress::PrgRom(0x0000));
    assert_eq!(mapper.map_cpu(&small, 0xBFFF), MappedCpuAddress::PrgRom(0x3FFF));
    assert_eq!(mapper.map_cpu(&small, 0xC000), MappedCpuAddress::PrgRom(0x0000));
    assert_eq!(mapper.map_cpu(&small, 0xFFFF), MappedCpuAddress::PrgRom(0x3FFF));
    assert_eq!(mapper.map_cpu(&large, 0x8000), MappedCpuAddress::PrgRom(0x0000));
    assert_eq!(mapper.map_cpu(&large, 0xC000), MappedCpuAddress::PrgRom(0x4000));
    assert_eq!(mapper.map_cpu(&large, 0xFFFF), MappedCpuAddress::PrgRom(0x7FFF));
    assert_eq!(mapper.map_cpu(&meta(0x4001, 0), 0xC000), MappedCpuAddress::PrgRom(0x4000));
}

#[test]
fn mapper_000_ppu_side() {
    let mapper = Mapper000 {};
    assert_eq!(mapper.map_ppu(&meta(0x4000, 0x2000), 0x0000), MappedPpuAddress::ChrRom(0x0000));
    assert_eq!(mapper.map_ppu(&meta(0x4000, 0x2000), 0x1FFF), MappedPpuAddress::ChrRom(0x1FFF));
    assert_eq!(mapper.map_ppu(&meta(0x4000, 0), 0x1FFF), MappedPpuAddress::ChrRam(0x1FFF));
    assert_eq!(mapper.map_ppu(&meta(0x4000, 0x2000), 0x2000), MappedPpuAddress::Unmapped);
    assert_eq!(mapper.map_ppu(&meta(0x4000, 0), 0xFFFF), MappedPpuAddress::Unmapped);
}

#[test]
fn only_mapper_zero_is_implemented() {
    assert!(matches!(map_mapper(0), Some(AnyMapper::Nrom(_))));
    for id in [1u16, 2, 4, 255, 256, 0xFFFF] {
        assert!(map_mapper(id).is_none());
    }
    let chosen = map_mapper(0).unwrap();
    assert_eq!(chosen.map_cpu(&meta(0x4000, 0), 0xC010), MappedCpuAddress::PrgRom(0x0010));
    assert_eq!(chosen.map_ppu(&meta(0x4000, 0), 0x0010), MappedPpuAddress::ChrRam(0x0010));
}

#[test]
fn sixteen_kib_rom_is_read_in_both_halves() {
    let image = with_payload(header([1, 0, 0, 0, 0, 0, 0, 0, 0, 0, 0, 0]), 0x4000);
    let cartridge = Cartridge::read(&image).unwrap();
    for addr in [0x8000u16, 0x8001, 0x9ABC, 0xBFFF] {
        assert_eq!(cartridge.cpu_read(addr), cartridge.cpu_read(addr + 0x4000));
        assert_eq!(cartridge.cpu_read(addr), ((addr as usize - 0x8000) % 251) as u8);
    }
}

#[test]
fn thirty_two_kib_rom_is_read_in_order() {
    let image = with_payload(header([2, 0, 0, 0, 0, 0, 0, 0, 0, 0, 0, 0]), 0x8000);
    let cartridge = Cartridge::read(&image).unwrap();
    assert_eq!(cartridge.cpu_read(0x8000), 0);
    assert_eq!(cartridge.cpu_read(0xC000), (0x4000 % 251) as u8);
    assert_ne!(cartridge.cpu_read(0x8000), cartridge.cpu_read(0xC000));
}

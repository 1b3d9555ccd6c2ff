//! Scenarios keyed to the cartridge geometries of a hardware test-ROM
//! suite (PRG size, CHR size or CHR RAM, save/work RAM, mirroring). Each
//! drives the chip models and fabric of the library with that geometry and
//! checks exact mapping results.

use plastic_core::cartridge::Cartridge;
use plastic_core::common::{Device, MappingResult, MirroringMode};
use plastic_core::mapper::AnyMapper;
use plastic_core::mapper1::Mapper1;
use plastic_core::mapper3::Mapper3;
use plastic_core::vram::VRam;

/// Commits a 5-bit value into the serial chip's register selected by
/// `address`: five writes carrying the value's bits, lowest first.
fn serial_commit(m: &mut Mapper1, address: u16, value: u8) {
    for i in 0..5 {
        let r = m.map_write(address, (value >> i) & 1, Device::Cpu);
        assert_eq!(r, MappingResult::Denied);
    }
}

fn mapper1(prg_count: u8, is_chr_ram: bool, chr_count_8kb: u8, sram_count: u8) -> Mapper1 {
    let mut m = Mapper1::new();
    m.init(prg_count, is_chr_ram, chr_count_8kb, sram_count);
    m
}

fn mapper3(prg_count: u8, is_chr_ram: bool, chr_count: u8) -> Mapper3 {
    let mut m = Mapper3::new();
    m.init(prg_count, is_chr_ram, chr_count, 0);
    m
}

fn patterned(len: usize) -> Vec<u8> {
    (0..len).map(|i| (i % 251) as u8).collect()
}

#[test]
fn holy_mapperel_m0_p32k_c8k_v_test() {
    // fixed geometry: 32 KiB PRG one-to-one, one 8 KiB CHR bank, vertical
    let m = mapper3(2, false, 1);
    assert_eq!(m.map_read(0x8123, Device::Cpu), MappingResult::Allowed(0x0123));
    assert_eq!(m.map_read(0xF123, Device::Cpu), MappingResult::Allowed(0x7123));
    assert_eq!(m.map_read(0x1ABC, Device::Ppu), MappingResult::Allowed(0x1ABC));
    // CHR is ROM: PPU writes never reach storage
    let mut m = m;
    assert_eq!(m.map_write(0x1ABC, 7, Device::Ppu), MappingResult::Denied);
    // vertical mirroring ignores address bit 11
    let vram = VRam::new();
    assert_eq!(vram.map_address(0x000, MirroringMode::Vertical), 0x000);
    assert_eq!(vram.map_address(0x400, MirroringMode::Vertical), 0x400);
    assert_eq!(vram.map_address(0x800, MirroringMode::Vertical), 0x000);
    assert_eq!(vram.map_address(0xC00, MirroringMode::Vertical), 0x400);
}

#[test]
fn holy_mapperel_m0_p32k_cr32k_v_test() {
    // CHR RAM: PPU writes reach storage through the cartridge
    let m = mapper3(2, true, 4);
    let cart_mapper = AnyMapper::Mapper3(m);
    let mut cart = Cartridge::new(
        cart_mapper,
        patterned(0x8000),
        vec![0u8; 4 * 0x2000],
        Vec::new(),
        MirroringMode::Vertical,
    );
    cart.write(0x0050, 0xAB, Device::Ppu);
    assert_eq!(cart.read(0x0050, Device::Ppu), 0xAB);
    // PRG reads come straight out of ROM
    assert_eq!(cart.read(0x8123, Device::Cpu), (0x0123 % 251) as u8);
    assert_eq!(cart.mirroring_mode(), MirroringMode::Vertical);
}

#[test]
fn holy_mapperel_m0_p32k_cr8k_v_test() {
    let mut m = mapper3(2, true, 1);
    assert_eq!(m.map_write(0x1234, 7, Device::Ppu), MappingResult::Allowed(0x1234));
    assert_eq!(m.map_read(0x0000, Device::Ppu), MappingResult::Allowed(0x0000));
    // writes to the CPU side still never reach storage
    assert_eq!(m.map_write(0x8000, 1, Device::Cpu), MappingResult::Denied);
}

#[test]
fn holy_mapperel_m1_p128k_test() {
    let mut m = mapper1(8, true, 1, 0);
    // power-up: 16 KiB mode with the last bank fixed at $C000
    assert_eq!(m.map_read(0xC123, Device::Cpu), MappingResult::Allowed(7 * 0x4000 + 0x123));
    // the switched window follows the PRG register
    serial_commit(&mut m, 0xE000, 3);
    assert_eq!(m.map_read(0x8123, Device::Cpu), MappingResult::Allowed(3 * 0x4000 + 0x123));
    assert_eq!(m.map_read(0xC123, Device::Cpu), MappingResult::Allowed(7 * 0x4000 + 0x123));
    // 8 KiB of CHR RAM accepts PPU writes
    assert_eq!(m.map_write(0x0456, 9, Device::Ppu), MappingResult::Allowed(0x0456));
}

#[test]
fn holy_mapperel_m1_p128k_c128k_test() {
    let mut m = mapper1(8, false, 16, 0);
    // two separate 4 KiB CHR windows
    serial_commit(&mut m, 0x8000, 0b11110);
    serial_commit(&mut m, 0xA000, 5);
    serial_commit(&mut m, 0xC000, 9);
    assert_eq!(m.map_read(0x0123, Device::Ppu), MappingResult::Allowed(5 * 0x1000 + 0x123));
    assert_eq!(m.map_read(0x1123, Device::Ppu), MappingResult::Allowed(9 * 0x1000 + 0x123));
    // 8 KiB CHR mode: CHR-0 with its low bit masked covers both halves
    serial_commit(&mut m, 0x8000, 0b01110);
    serial_commit(&mut m, 0xA000, 7);
    assert_eq!(m.map_read(0x1123, Device::Ppu), MappingResult::Allowed(6 * 0x1000 + 0x1123));
    assert_eq!(m.map_read(0x0123, Device::Ppu), MappingResult::Allowed(6 * 0x1000 + 0x123));
}

#[test]
fn holy_mapperel_m1_p128k_c128k_s8k_test() {
    let mut m = mapper1(8, false, 16, 1);
    // PRG RAM answers only once the enable flag is latched
    assert_eq!(m.map_read(0x6123, Device::Cpu), MappingResult::Denied);
    serial_commit(&mut m, 0xE000, 3);
    assert_eq!(m.map_read(0x6123, Device::Cpu), MappingResult::Allowed(0x123));
    assert_eq!(m.map_write(0x7FFF, 1, Device::Cpu), MappingResult::Allowed(0x1FFF));
    // bit 4 of the PRG commit disables the RAM again
    serial_commit(&mut m, 0xE000, 0b10011);
    assert_eq!(m.map_read(0x6123, Device::Cpu), MappingResult::Denied);
}

#[test]
fn holy_mapperel_m1_p128k_c128k_w8k_test() {
    let mut m = mapper1(8, false, 16, 1);
    serial_commit(&mut m, 0xE000, 0);
    let mut cart = Cartridge::new(
        AnyMapper::Mapper1(m),
        patterned(8 * 0x4000),
        patterned(32 * 0x1000),
        vec![0u8; 0x2000],
        MirroringMode::Vertical,
    );
    // work RAM round trip through the CPU window
    cart.write(0x6123, 0x5A, Device::Cpu);
    assert_eq!(cart.read(0x6123, Device::Cpu), 0x5A);
    // a CPU write to ROM space steps registers but never reaches storage
    cart.write(0x8000, 0x01, Device::Cpu);
    assert_eq!(cart.read(0xFFF0, Device::Cpu), ((7 * 0x4000 + 0x3FF0) % 251) as u8);
}

#[test]
fn holy_mapperel_m1_p128k_c32k_test() {
    let mut m = mapper1(8, false, 4, 0);
    // 8 KiB CHR mode with a bank count of eight 4 KiB units
    serial_commit(&mut m, 0x8000, 0b01110);
    serial_commit(&mut m, 0xA000, 7);
    assert_eq!(m.map_read(0x1FFF, Device::Ppu), MappingResult::Allowed(6 * 0x1000 + 0x1FFF));
    // 4 KiB mode: each window follows its own register
    serial_commit(&mut m, 0x8000, 0b11110);
    serial_commit(&mut m, 0xA000, 2);
    serial_commit(&mut m, 0xC000, 7);
    assert_eq!(m.map_read(0x0FFF, Device::Ppu), MappingResult::Allowed(2 * 0x1000 + 0xFFF));
    assert_eq!(m.map_read(0x1FFF, Device::Ppu), MappingResult::Allowed(7 * 0x1000 + 0xFFF));
}

#[test]
fn holy_mapperel_m1_p128k_c32k_s8k_test() {
    let mut m = mapper1(8, false, 4, 1);
    serial_commit(&mut m, 0xE000, 5);
    // one 8 KiB RAM bank: the whole $6000-$7FFF window folds onto it
    assert_eq!(m.map_read(0x6000, Device::Cpu), MappingResult::Allowed(0x0000));
    assert_eq!(m.map_read(0x7FFF, Device::Cpu), MappingResult::Allowed(0x1FFF));
    // the switched PRG window follows the committed bank
    assert_eq!(m.map_read(0x8000, Device::Cpu), MappingResult::Allowed(5 * 0x4000));
}

#[test]
fn holy_mapperel_m1_p128k_c32k_w8k_test() {
    let mut m = mapper1(8, false, 4, 1);
    serial_commit(&mut m, 0x8000, 0b11110);
    serial_commit(&mut m, 0xA000, 3);
    serial_commit(&mut m, 0xE000, 2);
    // a saved state restores identical subsequent translation
    let bytes = m.save_state();
    assert_eq!(bytes.len(), m.save_state_size());
    let mut restored = Mapper1::new();
    restored.load_state(bytes);
    for address in [0x8000u16, 0xC123, 0xFFFF] {
        assert_eq!(restored.map_read(address, Device::Cpu), m.map_read(address, Device::Cpu));
    }
    for address in [0x0000u16, 0x0FFF, 0x1FFF] {
        assert_eq!(restored.map_read(address, Device::Ppu), m.map_read(address, Device::Ppu));
    }
    assert_eq!(restored.map_read(0x6123, Device::Cpu), m.map_read(0x6123, Device::Cpu));
}

#[test]
fn holy_mapperel_m1_p128k_cr8k_test() {
    // the 8 KiB CHR RAM board sub-variant: two 4 KiB CHR banks, so the
    // active CHR register's bit 4 gates PRG RAM as well
    let mut m = mapper1(8, true, 1, 1);
    serial_commit(&mut m, 0xE000, 3);
    assert_eq!(m.map_read(0x6000, Device::Cpu), MappingResult::Allowed(0x0000));
    // power-up is 4 KiB CHR mode, so CHR-1 is the active register
    serial_commit(&mut m, 0xC000, 0b10000);
    assert_eq!(m.map_read(0x6000, Device::Cpu), MappingResult::Denied);
    // switching to 8 KiB CHR mode makes CHR-0 (bit 4 clear) active again
    serial_commit(&mut m, 0x8000, 0b01110);
    assert_eq!(m.map_read(0x6000, Device::Cpu), MappingResult::Allowed(0x0000));
}

#[test]
fn holy_mapperel_m2_p128k_cr8k_v_test() {
    // switched low window, fixed last bank, CHR RAM: the serial chip's
    // power-up PRG mode
    let mut m = mapper1(8, true, 1, 0);
    assert_eq!(m.map_read(0xC000, Device::Cpu), MappingResult::Allowed(7 * 0x4000));
    serial_commit(&mut m, 0xE000, 2);
    assert_eq!(m.map_read(0x8000, Device::Cpu), MappingResult::Allowed(2 * 0x4000));
    assert_eq!(m.map_read(0xC000, Device::Cpu), MappingResult::Allowed(7 * 0x4000));
    assert_eq!(m.map_write(0x0123, 1, Device::Ppu), MappingResult::Allowed(0x0123));
}

#[test]
fn holy_mapperel_m2_p128k_v_test() {
    let mut m = mapper1(8, false, 1, 0);
    // CHR is ROM here: PPU writes are denied
    assert_eq!(m.map_write(0x0123, 1, Device::Ppu), MappingResult::Denied);
    // the control register drives mirroring on this chip
    assert!(!m.is_hardwired_mirrored());
    serial_commit(&mut m, 0x8000, 0b11110);
    assert_eq!(m.nametable_mirroring(), MirroringMode::Vertical);
    serial_commit(&mut m, 0x8000, 0b11111);
    assert_eq!(m.nametable_mirroring(), MirroringMode::Horizontal);
}

#[test]
fn holy_mapperel_m3_p32k_c32k_h_test() {
    // latched chip, two PRG banks, four CHR banks
    let mut m = mapper3(2, false, 4);
    assert_eq!(m.map_write(0x9ABC, 0x02, Device::Cpu), MappingResult::Denied);
    assert_eq!(m.map_read(0x0050, Device::Ppu), MappingResult::Allowed(2 * 0x2000 + 0x50));
    // horizontal mirroring folds on address bit 11
    let vram = VRam::new();
    assert_eq!(vram.map_address(0x000, MirroringMode::Horizontal), 0x000);
    assert_eq!(vram.map_address(0x400, MirroringMode::Horizontal), 0x000);
    assert_eq!(vram.map_address(0x800, MirroringMode::Horizontal), 0x400);
    assert_eq!(vram.map_address(0xC00, MirroringMode::Horizontal), 0x400);
    // and mirroring for this chip is hardwired
    assert!(m.is_hardwired_mirrored());
}

#[test]
fn holy_mapperel_m4_p128k_test() {
    // every committed PRG value maps inside the eight-bank storage
    for value in 0u8..32 {
        let mut m = mapper1(8, true, 1, 0);
        serial_commit(&mut m, 0xE000, value);
        let expected_bank = ((value & 0xF) % 8) as usize;
        assert_eq!(
            m.map_read(0x8000, Device::Cpu),
            MappingResult::Allowed(expected_bank * 0x4000)
        );
        match m.map_read(0xFFFF, Device::Cpu) {
            MappingResult::Allowed(o) => assert!(o < 8 * 0x4000),
            MappingResult::Denied => panic!("ROM window read was denied"),
        }
    }
}

#[test]
fn holy_mapperel_m4_p128k_cr32k_test() {
    // every committed CHR value maps inside the 32 KiB CHR RAM
    for value in 0u8..32 {
        let mut m = mapper1(8, true, 4, 0);
        serial_commit(&mut m, 0xA000, value);
        assert_eq!(
            m.map_read(0x0FFF, Device::Ppu),
            MappingResult::Allowed(((value % 8) as usize) * 0x1000 + 0xFFF)
        );
        // 8 KiB mode: the low bit is masked before reduction
        serial_commit(&mut m, 0x8000, 0b01110);
        assert_eq!(
            m.map_read(0x1FFF, Device::Ppu),
            MappingResult::Allowed((((value & 0x1E) % 8) as usize) * 0x1000 + 0x1FFF)
        );
    }
}

#[test]
fn holy_mapperel_m4_p128k_cr8k_test() {
    let mut m = mapper1(8, true, 1, 0);
    serial_commit(&mut m, 0xE000, 6);
    let bytes = m.save_state();
    // the save layout is fixed: registers first, then the cached geometry
    assert_eq!(bytes[4], 6); // PRG bank register
    assert_eq!(bytes[5], 2); // CHR count, in 4 KiB units
    assert_eq!(bytes[6], 8); // PRG count
    assert_eq!(bytes[9], 1); // CHR-RAM flag
    let mut restored = Mapper1::new();
    restored.load_state(bytes);
    assert_eq!(restored.map_read(0x8050, Device::Cpu), m.map_read(0x8050, Device::Cpu));
}

#[test]
fn holy_mapperel_m4_p256k_c256k_test() {
    let mut m = mapper1(16, false, 32, 0);
    // large geometry: 4 KiB CHR windows up to bank 31
    serial_commit(&mut m, 0xA000, 31);
    assert_eq!(m.map_read(0x0FFF, Device::Ppu), MappingResult::Allowed(31 * 0x1000 + 0xFFF));
    // 32 KiB PRG mode ignores the PRG register's low bit
    serial_commit(&mut m, 0x8000, 0b00010);
    serial_commit(&mut m, 0xE000, 5);
    assert_eq!(m.map_read(0x8000, Device::Cpu), MappingResult::Allowed(4 * 0x4000));
    assert_eq!(m.map_read(0xFFFF, Device::Cpu), MappingResult::Allowed(4 * 0x4000 + 0x7FFF));
}

#[test]
fn holy_mapperel_m7_p128k_test() {
    // 32 KiB switching with single-screen mirroring
    let mut m = mapper1(8, true, 1, 0);
    serial_commit(&mut m, 0x8000, 0);
    assert_eq!(m.nametable_mirroring(), MirroringMode::SingleScreenLowBank);
    serial_commit(&mut m, 0xE000, 6);
    assert_eq!(m.map_read(0x8123, Device::Cpu), MappingResult::Allowed(6 * 0x4000 + 0x123));
    assert_eq!(m.map_read(0xC123, Device::Cpu), MappingResult::Allowed(6 * 0x4000 + 0x4123));
    serial_commit(&mut m, 0x8000, 1);
    assert_eq!(m.nametable_mirroring(), MirroringMode::SingleScreenHighBank);
}

#[test]
fn holy_mapperel_m7_p128k_cr8k_test() {
    let vram = VRam::new();
    // single-screen modes pin one 1 KiB block whatever the address
    assert_eq!(vram.map_address(0xABC, MirroringMode::SingleScreenLowBank), 0x2BC);
    assert_eq!(vram.map_address(0x0BC, MirroringMode::SingleScreenLowBank), 0x0BC);
    assert_eq!(vram.map_address(0xABC, MirroringMode::SingleScreenHighBank), 0x400 + 0x2BC);
    assert_eq!(vram.map_address(0x0BC, MirroringMode::SingleScreenHighBank), 0x400 + 0x0BC);
    // the pinned chip still switches its 32 KiB PRG window
    let mut m = mapper1(8, true, 1, 0);
    serial_commit(&mut m, 0x8000, 0);
    serial_commit(&mut m, 0xE000, 2);
    assert_eq!(m.map_read(0xFFFF, Device::Cpu), MappingResult::Allowed(2 * 0x4000 + 0x7FFF));
}

#[test]
fn holy_mapperel_m9_p128k_c64k_test() {
    // the two 4 KiB CHR windows switch independently
    let mut m = mapper1(8, false, 8, 0);
    serial_commit(&mut m, 0x8000, 0b11110);
    serial_commit(&mut m, 0xA000, 3);
    serial_commit(&mut m, 0xC000, 12);
    assert_eq!(m.map_read(0x0ABC, Device::Ppu), MappingResult::Allowed(3 * 0x1000 + 0xABC));
    assert_eq!(m.map_read(0x1ABC, Device::Ppu), MappingResult::Allowed(12 * 0x1000 + 0xABC));
}

#[test]
fn holy_mapperel_m10_p128k_c64k_s8k_test() {
    let mut m = mapper1(8, false, 8, 1);
    // RAM answers across its window once enabled
    serial_commit(&mut m, 0xE000, 1);
    assert_eq!(m.map_read(0x6000, Device::Cpu), MappingResult::Allowed(0x0000));
    assert_eq!(m.map_write(0x7FFF, 0, Device::Cpu), MappingResult::Allowed(0x1FFF));
    // and the $4020-$5FFF gap stays open bus
    assert_eq!(m.map_read(0x4123, Device::Cpu), MappingResult::Denied);
}

#[test]
fn holy_mapperel_m10_p128k_c64k_w8k_test() {
    let mut m = mapper1(8, false, 8, 1);
    serial_commit(&mut m, 0xE000, 0);
    let mut cart = Cartridge::new(
        AnyMapper::Mapper1(m),
        patterned(8 * 0x4000),
        patterned(16 * 0x1000),
        vec![0u8; 0x2000],
        MirroringMode::Vertical,
    );
    cart.write(0x7ABC, 0x77, Device::Cpu);
    assert_eq!(cart.read(0x7ABC, Device::Cpu), 0x77);
    // a denied window reads as open bus
    assert_eq!(cart.read(0x5000, Device::Cpu), 0);
}

#[test]
fn holy_mapperel_m11_p64k_c64k_v_test() {
    // more than four CHR banks: the latch register is used unmasked
    let mut m = mapper3(2, false, 8);
    assert_eq!(m.map_write(0x8000, 0x07, Device::Cpu), MappingResult::Denied);
    assert_eq!(m.map_read(0x0050, Device::Ppu), MappingResult::Allowed(7 * 0x2000 + 0x50));
    // and bank indexes still reduce modulo the bank count
    m.map_write(0x8000, 0x0D, Device::Cpu);
    assert_eq!(m.map_read(0x0050, Device::Ppu), MappingResult::Allowed(5 * 0x2000 + 0x50));
}

#[test]
fn holy_mapperel_m11_p64k_cr32k_v_test() {
    // at most four CHR banks: the latch register is masked to 2 bits
    let mut m = mapper3(2, true, 4);
    m.map_write(0x8000, 0x0F, Device::Cpu);
    assert_eq!(m.map_read(0x0050, Device::Ppu), MappingResult::Allowed(3 * 0x2000 + 0x50));
    // CHR RAM accepts PPU writes into the selected bank
    assert_eq!(m.map_write(0x0050, 1, Device::Ppu), MappingResult::Allowed(3 * 0x2000 + 0x50));
}

#[test]
fn holy_mapperel_m66_p64k_c16k_v_test() {
    let mut m = mapper3(2, false, 2);
    m.map_write(0x8000, 0x05, Device::Cpu);
    // masked to 2 bits, then reduced modulo the two banks
    assert_eq!(m.map_read(0x0123, Device::Ppu), MappingResult::Allowed(0x2000 + 0x123));
    m.map_write(0x8000, 0xFE, Device::Cpu);
    assert_eq!(m.map_read(0x0123, Device::Ppu), MappingResult::Allowed(0x0123));
}

//! Tests of the bus fabric: CPU-side decoding and RAM mirroring, PPU-side
//! routing with VRAM folds and palette mirroring, the interconnection
//! lines, whole-machine save/restore, and the frame clock.

use plastic_core::cartridge::Cartridge;
use plastic_core::common::{Device, MirroringMode, SaveError};
use plastic_core::cpu_bus::{decode_cpu_address, CPUBus, CpuBusTarget};
use plastic_core::mapper::AnyMapper;
use plastic_core::mapper1::Mapper1;
use plastic_core::mapper3::Mapper3;
use plastic_core::nes::{load_state, save_state, FrameClock};
use plastic_core::ppu_bus::PPUBus;

fn patterned(len: usize) -> Vec<u8> {
    (0..len).map(|i| (i % 251) as u8).collect()
}

fn latched_cart() -> Cartridge {
    let mut m = Mapper3::new();
    m.init(2, false, 4, 0);
    Cartridge::new(
        AnyMapper::Mapper3(m),
        patterned(0x8000),
        patterned(4 * 0x2000),
        Vec::new(),
        MirroringMode::Horizontal,
    )
}

fn serial_cart() -> Cartridge {
    let mut m = Mapper1::new();
    m.init(8, true, 1, 1);
    Cartridge::new(
        AnyMapper::Mapper1(m),
        patterned(8 * 0x4000),
        vec![0u8; 2 * 0x1000],
        vec![0u8; 0x2000],
        MirroringMode::Vertical,
    )
}

#[test]
fn cpu_address_decode_table() {
    assert_eq!(decode_cpu_address(0x0000), CpuBusTarget::InternalRam(0x0000));
    assert_eq!(decode_cpu_address(0x1FFF), CpuBusTarget::InternalRam(0x07FF));
    // RAM mirrors every 2 KiB
    assert_eq!(decode_cpu_address(0x0801), CpuBusTarget::InternalRam(0x0001));
    // the PPU register window mirrors every 8 bytes
    assert_eq!(decode_cpu_address(0x2000), CpuBusTarget::PpuRegister(0x2000));
    assert_eq!(decode_cpu_address(0x3FFA), CpuBusTarget::PpuRegister(0x2002));
    assert_eq!(decode_cpu_address(0x4000), CpuBusTarget::ApuRegister(0x4000));
    assert_eq!(decode_cpu_address(0x4013), CpuBusTarget::ApuRegister(0x4013));
    assert_eq!(decode_cpu_address(0x4014), CpuBusTarget::OamDma);
    assert_eq!(decode_cpu_address(0x4015), CpuBusTarget::ApuRegister(0x4015));
    assert_eq!(decode_cpu_address(0x4016), CpuBusTarget::ControllerPort);
    assert_eq!(decode_cpu_address(0x4017), CpuBusTarget::ApuRegister(0x4017));
    assert_eq!(decode_cpu_address(0x4018), CpuBusTarget::TestMode);
    assert_eq!(decode_cpu_address(0x401F), CpuBusTarget::TestMode);
    assert_eq!(decode_cpu_address(0x4020), CpuBusTarget::CartridgeSpace);
    assert_eq!(decode_cpu_address(0xFFFF), CpuBusTarget::CartridgeSpace);
}

#[test]
fn cpu_bus_ram_mirroring() {
    let mut bus = CPUBus::new();
    let mut cart = latched_cart();
    assert!(bus.write(&mut cart, 0x0005, 0x42));
    // the same cell answers at every 2 KiB mirror
    assert_eq!(bus.read(&cart, 0x0005), Some(0x42));
    assert_eq!(bus.read(&cart, 0x0805), Some(0x42));
    assert_eq!(bus.read(&cart, 0x1805), Some(0x42));
    // test-mode registers read zero and drop writes
    assert!(bus.write(&mut cart, 0x4018, 0x99));
    assert_eq!(bus.read(&cart, 0x401F), Some(0));
    // register windows are left to the owning peripherals
    assert!(!bus.write(&mut cart, 0x2000, 1));
    assert_eq!(bus.read(&cart, 0x2002), None);
    assert_eq!(bus.read(&cart, 0x4016), None);
}

#[test]
fn cpu_bus_routes_cartridge_space() {
    let mut bus = CPUBus::new();
    let mut cart = latched_cart();
    assert_eq!(bus.read(&cart, 0x8123), Some((0x0123 % 251) as u8));
    // the latch write goes through: the CHR bank switches
    assert!(bus.write(&mut cart, 0x8000, 0x02));
    assert_eq!(cart.read(0x0050, Device::Ppu), ((2 * 0x2000 + 0x50) % 251) as u8);
    // the unmapped gap reads as open bus
    assert_eq!(bus.read(&cart, 0x5000), Some(0));
}

#[test]
fn interconnection_lines_poll_and_clear() {
    let mut bus = CPUBus::new();
    let mut cart = latched_cart();
    // NMI: raised by the picture processor, cleared by the CPU
    assert!(!bus.is_nmi_pin_set());
    bus.set_nmi_pin(true);
    assert!(bus.is_nmi_pin_set());
    bus.clear_nmi_pin();
    assert!(!bus.is_nmi_pin_set());
    // OAM DMA: request carries the source page
    bus.request_dma(0x03);
    assert!(bus.is_dma_request());
    assert_eq!(bus.dma_address(), 0x03);
    bus.clear_dma_request();
    assert!(!bus.is_dma_request());
    // DMC fetch: the pending address is consumed with the delivered byte
    assert_eq!(bus.request_dmc_reader_read(), None);
    bus.request_dmc_read(0xC123);
    assert_eq!(bus.request_dmc_reader_read(), Some(0xC123));
    assert_eq!(bus.submit_dmc_buffer_byte(0x7F), Some((0xC123, 0x7F)));
    assert_eq!(bus.request_dmc_reader_read(), None);
    // IRQ merge: the line answers only while a change stands latched
    assert!(!bus.is_irq_change_requested(&cart));
    assert!(!bus.irq_pin_state(&cart));
    bus.set_apu_irq(true, true);
    assert!(bus.is_irq_change_requested(&cart));
    assert!(bus.irq_pin_state(&cart));
    bus.clear_irq_request_pin(&mut cart);
    assert!(!bus.irq_pin_state(&cart));
    assert!(!bus.is_irq_change_requested(&cart));
}

#[test]
fn ppu_bus_routes_and_wraps() {
    let bus = PPUBus::new();
    let cart = latched_cart();
    // CHR space comes from the cartridge (bank 0 before any latch write)
    assert_eq!(bus.read(&cart, 0x0123, Device::Ppu), (0x0123 % 251) as u8);
    // addresses above the 14-bit space wrap around
    assert_eq!(
        bus.read(&cart, 0x4123, Device::Ppu),
        bus.read(&cart, 0x0123, Device::Ppu)
    );
}

#[test]
fn ppu_bus_vram_follows_mirroring() {
    let mut bus = PPUBus::new();
    let mut cart = latched_cart();  // horizontal, hardwired
    bus.write(&mut cart, 0x2005, 0xAA, Device::Ppu);
    // under horizontal mirroring, $2005 and $2405 alias
    assert_eq!(bus.read(&cart, 0x2405, Device::Ppu), 0xAA);
    assert_eq!(bus.read(&cart, 0x2805, Device::Ppu), 0);
    // a serial-chip cartridge drives mirroring from its control register
    let mut cart = serial_cart();
    // power-up control selects single-screen low-bank mirroring
    assert_eq!(cart.mirroring_mode(), MirroringMode::SingleScreenLowBank);
    bus.write(&mut cart, 0x2005, 0xBB, Device::Ppu);
    assert_eq!(bus.read(&cart, 0x2C05, Device::Ppu), 0xBB);
}

#[test]
fn ppu_bus_palette_window() {
    let mut bus = PPUBus::new();
    let mut cart = latched_cart();
    bus.write(&mut cart, 0x3F05, 0x31, Device::Ppu);
    assert_eq!(bus.read(&cart, 0x3F05, Device::Ppu), 0x31);
    // the palette window mirrors every 32 bytes
    assert_eq!(bus.read(&cart, 0x3F25, Device::Ppu), 0x31);
    assert_eq!(bus.read(&cart, 0x3FE5, Device::Ppu), 0x31);
}

#[test]
fn chr_ram_write_through_ppu_bus() {
    let mut bus = PPUBus::new();
    let mut cart = serial_cart();
    bus.write(&mut cart, 0x0456, 0x5C, Device::Ppu);
    assert_eq!(bus.read(&cart, 0x0456, Device::Ppu), 0x5C);
    // CHR ROM ignores the same write
    let mut rom_cart = latched_cart();
    bus.write(&mut rom_cart, 0x0456, 0x5C, Device::Ppu);
    assert_eq!(bus.read(&rom_cart, 0x0456, Device::Ppu), (0x0456 % 251) as u8);
}

#[test]
fn machine_save_restore_round_trip() {
    let mut cart = serial_cart();
    let mut cpu_bus = CPUBus::new();
    let mut ppu_bus = PPUBus::new();
    cpu_bus.write(&mut cart, 0x0005, 0x42);
    // enable the chip's PRG RAM, then fill one work-RAM cell
    for _ in 0..5 {
        cpu_bus.write(&mut cart, 0xE000, 0);
    }
    cpu_bus.write(&mut cart, 0x6123, 0x66);
    ppu_bus.write(&mut cart, 0x2005, 0xAA, Device::Ppu);
    ppu_bus.write(&mut cart, 0x3F05, 0x31, Device::Ppu);
    ppu_bus.write(&mut cart, 0x0456, 0x5C, Device::Ppu);
    let saved = save_state(&cart, &cpu_bus, &ppu_bus);
    // scramble, then restore
    cpu_bus.write(&mut cart, 0x0005, 0);
    ppu_bus.write(&mut cart, 0x0456, 0, Device::Ppu);
    assert_eq!(load_state(&mut cart, &mut cpu_bus, &mut ppu_bus, &saved), Ok(()));
    assert_eq!(cpu_bus.read(&cart, 0x0005), Some(0x42));
    assert_eq!(cpu_bus.read(&cart, 0x6123), Some(0x66));
    assert_eq!(ppu_bus.read(&cart, 0x2005, Device::Ppu), 0xAA);
    assert_eq!(ppu_bus.read(&cart, 0x3F05, Device::Ppu), 0x31);
    assert_eq!(ppu_bus.read(&cart, 0x0456, Device::Ppu), 0x5C);
}

#[test]
fn machine_load_rejects_leftover_bytes() {
    let mut cart = latched_cart();
    let mut cpu_bus = CPUBus::new();
    let mut ppu_bus = PPUBus::new();
    let mut saved = save_state(&cart, &cpu_bus, &ppu_bus);
    saved.push(0);
    assert_eq!(
        load_state(&mut cart, &mut cpu_bus, &mut ppu_bus, &saved),
        Err(SaveError::ContainExtraData)
    );
}

#[test]
fn machine_load_rejects_short_stream() {
    let mut cart = latched_cart();
    let mut cpu_bus = CPUBus::new();
    let mut ppu_bus = PPUBus::new();
    let mut saved = save_state(&cart, &cpu_bus, &ppu_bus);
    saved.pop();
    assert_eq!(
        load_state(&mut cart, &mut cpu_bus, &mut ppu_bus, &saved),
        Err(SaveError::WrongSize)
    );
}

#[test]
fn machine_load_rejects_foreign_geometry() {
    // a save taken from a cartridge with a different bank geometry is
    // rejected without touching any state
    let mut small = Mapper3::new();
    small.init(2, false, 2, 0);
    let small_cart = Cartridge::new(
        AnyMapper::Mapper3(small),
        patterned(0x8000),
        patterned(2 * 0x2000),
        Vec::new(),
        MirroringMode::Horizontal,
    );
    let cpu_bus_s = CPUBus::new();
    let ppu_bus_s = PPUBus::new();
    let foreign = save_state(&small_cart, &cpu_bus_s, &ppu_bus_s);
    let mut cart = latched_cart();
    // pad the foreign stream to this cartridge's exact save length, so
    // only the recorded geometry can reject it
    let expected = save_state(&cart, &cpu_bus_s, &ppu_bus_s).len();
    let mut padded = foreign;
    while padded.len() < expected {
        padded.push(0);
    }
    let mut cpu_bus = CPUBus::new();
    let mut ppu_bus = PPUBus::new();
    let before = cart.read(0x0050, Device::Ppu);
    assert_eq!(
        load_state(&mut cart, &mut cpu_bus, &mut ppu_bus, &padded),
        Err(SaveError::WrongSize)
    );
    assert_eq!(cart.read(0x0050, Device::Ppu), before);
}

#[test]
fn cartridge_load_checks_length() {
    let mut cart = latched_cart();
    let saved = cart.save();
    assert_eq!(saved.len(), 4); // registers and geometry only: CHR is ROM
    let mut short = saved.clone();
    short.pop();
    assert_eq!(cart.load(&short), Err(SaveError::WrongSize));
    assert_eq!(cart.load(&saved), Ok(()));
}

#[test]
fn cartridge_save_carries_chr_ram() {
    let mut cart = serial_cart();
    cart.write(0x0000, 0x11, Device::Ppu);
    // enable the chip's PRG RAM before filling it
    for _ in 0..5 {
        cart.write(0xE000, 0, Device::Cpu);
    }
    cart.write(0x6000, 0x22, Device::Cpu);
    let saved = cart.save();
    // chip state, then PRG RAM, then the CHR RAM contents
    assert_eq!(saved.len(), 10 + 0x2000 + 0x2000);
    assert_eq!(saved[10], 0x22);
    assert_eq!(saved[10 + 0x2000], 0x11);
    // scramble and restore
    cart.write(0x0000, 0, Device::Ppu);
    cart.write(0x6000, 0, Device::Cpu);
    assert_eq!(cart.load(&saved), Ok(()));
    assert_eq!(cart.read(0x0000, Device::Ppu), 0x11);
    assert_eq!(cart.read(0x6000, Device::Cpu), 0x22);
}

#[test]
fn soft_reset_preserves_mapper_registers() {
    let mut cart = latched_cart();
    let mut cpu_bus = CPUBus::new();
    let mut ppu_bus = PPUBus::new();
    cpu_bus.write(&mut cart, 0x0005, 0x42);
    cpu_bus.write(&mut cart, 0x8000, 0x02); // latch CHR bank 2
    ppu_bus.write(&mut cart, 0x2005, 0xAA, Device::Ppu);
    plastic_core::nes::reset(&mut cpu_bus, &mut ppu_bus);
    // RAM and VRAM are discarded...
    assert_eq!(cpu_bus.read(&cart, 0x0005), Some(0));
    assert_eq!(ppu_bus.read(&cart, 0x2005, Device::Ppu), 0);
    // ...but the chip's programmed bank survives the reset line
    assert_eq!(cart.read(0x0050, Device::Ppu), ((2 * 0x2000 + 0x50) % 251) as u8);
}

#[test]
fn frame_clock_paces_exact_ratio() {
    let mut clock = FrameClock::new();
    let mut counts = Vec::new();
    for _ in 0..5 {
        clock.begin_frame();
        let mut cycles = 0u32;
        while clock.take_cycle() {
            cycles += 1;
        }
        counts.push(cycles);
    }
    // frames alternate so the long-run average is exactly 29780.5
    assert_eq!(counts, vec![29781, 29781, 29780, 29781, 29780]);
    assert_eq!(counts[1] + counts[2], 59561);
}

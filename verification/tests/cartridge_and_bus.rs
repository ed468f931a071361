use nes::bus::Bus;
use nes::controller::Controller;
use nes::fault::Fault;
use nes::mapper::init;
use nes::ppu::Ppu;
use nes::rom::{Rom, RomLoadError};

fn test_image() -> Vec<u8> {
    let mut data = vec![0u8; 16 + 16384 + 8192];
    data[0] = 0x4e;
    data[1] = 0x45;
    data[2] = 0x53;
    data[3] = 0x1a;
    data[4] = 1;
    data[5] = 1;
    data[8] = 1;
    data
}

fn make_bus() -> Bus {
    let rom = Rom::load(&test_image()).unwrap();
    let mapper = init(rom).unwrap();
    Bus::new(mapper, Controller::new(), Ppu::new())
}

#[test]
fn rom_load_parses_the_header() {
    let mut data = test_image();
    data[6] = 0x05;
    data[7] = 0x00;
    let rom = Rom::load(&data).unwrap();
    assert_eq!(rom.header.prg_rom_size, 1);
    assert_eq!(rom.header.chr_rom_size, 1);
    assert_eq!(rom.header.mapper(), 0);
    assert_eq!(rom.header.ines_mapper(), 0);
    assert!(rom.header.trainer());
    assert_eq!(rom.prg.len(), 16384);
    assert_eq!(rom.chr.len(), 8192);
    assert_eq!(rom.sram.len(), 0x2000);
}

#[test]
fn rom_load_rejects_bad_magic() {
    let mut data = test_image();
    data[0] = 0x4d;
    assert!(matches!(Rom::load(&data), Err(RomLoadError::FormatError)));
}

#[test]
fn rom_load_rejects_short_header() {
    let data = vec![0x4e, 0x45, 0x53, 0x1a, 1];
    assert!(matches!(Rom::load(&data), Err(RomLoadError::IoError)));
}

#[test]
fn rom_load_rejects_truncated_sections() {
    let mut data = test_image();
    data.truncate(16 + 1000);
    assert!(matches!(Rom::load(&data), Err(RomLoadError::IoError)));
}

#[test]
fn unsupported_mapper_is_fatal_at_startup() {
    let mut data = test_image();
    data[7] = 0x40;
    let rom = Rom::load(&data).unwrap();
    assert!(matches!(init(rom), Err(Fault::UnsupportedMapper(0x40))));
}

#[test]
fn ram_mirrors_every_0x800() {
    let mut bus = make_bus();
    bus.write(0x0005, 42).unwrap();
    assert_eq!(bus.read(0x0005).unwrap(), 42);
    assert_eq!(bus.read(0x0805).unwrap(), 42);
    assert_eq!(bus.read(0x1005).unwrap(), 42);
    assert_eq!(bus.read(0x1805).unwrap(), 42);
}

#[test]
fn writes_are_visible_to_the_next_read() {
    let mut bus = make_bus();
    bus.write(0x1FFF, 7).unwrap();
    assert_eq!(bus.read(0x07FF).unwrap(), 7);
}

#[test]
fn unmapped_addresses_fault() {
    let mut bus = make_bus();
    assert_eq!(bus.read(0x4000), Err(Fault::UnmappedRead(0x4000)));
    assert_eq!(bus.write(0x5000, 1), Err(Fault::UnmappedWrite(0x5000)));
}

#[test]
fn sram_round_trips_through_the_mapper() {
    let mut bus = make_bus();
    bus.write(0x6000, 0x5A).unwrap();
    bus.write(0x7FFF, 0xA5).unwrap();
    assert_eq!(bus.read(0x6000).unwrap(), 0x5A);
    assert_eq!(bus.read(0x7FFF).unwrap(), 0xA5);
}

#[test]
fn prg_window_reads_the_cartridge() {
    let mut data = test_image();
    data[16 + 0x123] = 0x99;
    let rom = Rom::load(&data).unwrap();
    let mapper = init(rom).unwrap();
    let mut bus = Bus::new(mapper, Controller::new(), Ppu::new());
    // With one bank, both windows map to the same 16 KiB.
    assert_eq!(bus.read(0x8123).unwrap(), 0x99);
    assert_eq!(bus.read(0xC123).unwrap(), 0x99);
}

#[test]
fn ppu_registers_mirror_every_8_bytes() {
    let mut bus = make_bus();
    bus.write(0x2007, 0x3C).unwrap();
    assert_eq!(bus.read(0x2007).unwrap(), 0x3C);
    assert_eq!(bus.read(0x200F).unwrap(), 0x3C);
    assert_eq!(bus.read(0x3FFF).unwrap(), 0x3C);
}

#[test]
fn controller_shifts_buttons_out_serially() {
    let mut controller = Controller::new();
    controller.set_buttons(0b1010_0101);
    assert_eq!(controller.raw_buttons(), 0xA5);
    let mut bits: Vec<u8> = Vec::new();
    for _ in 0..8 {
        bits.push(controller.read());
    }
    assert_eq!(bits, vec![1, 0, 1, 0, 0, 1, 0, 1]);
    // Past the eighth bit the register reads zero.
    assert_eq!(controller.read(), 0);
}

#[test]
fn controller_strobe_pins_the_first_button() {
    let mut controller = Controller::new();
    controller.set_buttons(0x01);
    controller.write(1);
    assert_eq!(controller.read(), 1);
    assert_eq!(controller.read(), 1);
    controller.write(0);
    assert_eq!(controller.read(), 1);
    assert_eq!(controller.read(), 0);
}

#[test]
fn controller_answers_on_the_bus_at_4016() {
    let mut bus = make_bus();
    bus.controller.set_buttons(0x01);
    bus.write(0x4016, 1).unwrap();
    bus.write(0x4016, 0).unwrap();
    assert_eq!(bus.read(0x4016).unwrap(), 1);
    assert_eq!(bus.read(0x4016).unwrap(), 0);
}

#[test]
fn bank_select_switches_the_low_prg_window() {
    let mut full = vec![0u8; 16 + 2 * 16384 + 8192];
    full[0] = 0x4e;
    full[1] = 0x45;
    full[2] = 0x53;
    full[3] = 0x1a;
    full[4] = 2;
    full[5] = 1;
    full[8] = 2;
    full[16 + 0x10] = 0x11;  // bank 0
    full[16 + 16384 + 0x10] = 0x22;  // bank 1
    let rom = Rom::load(&full).unwrap();
    let mapper = init(rom).unwrap();
    let mut bus = Bus::new(mapper, Controller::new(), Ppu::new());
    assert_eq!(bus.read(0x8010).unwrap(), 0x11);
    bus.write(0x8000, 1).unwrap();
    assert_eq!(bus.read(0x8010).unwrap(), 0x22);
    // The fixed window stays on the last bank.
    assert_eq!(bus.read(0xC010).unwrap(), 0x22);
}

#[test]
fn buttons_bitfield_sets_and_clears() {
    let mut c = Controller::new();
    c.buttons.set_a(true);
    c.buttons.set_start(true);
    assert_eq!(c.raw_buttons(), 0x09);
    c.buttons.set_a(false);
    assert_eq!(c.raw_buttons(), 0x08);
    c.buttons.set_right(true);
    assert_eq!(c.raw_buttons(), 0x88);
}

#[test]
fn missing_chr_faults_with_rom_bounds() {
    let mut data = vec![0u8; 16 + 16384];
    data[0] = 0x4e;
    data[1] = 0x45;
    data[2] = 0x53;
    data[3] = 0x1a;
    data[4] = 1;
    data[5] = 0;  // no CHR banks
    data[8] = 1;
    let rom = Rom::load(&data).unwrap();
    let mapper = init(rom).unwrap();
    assert_eq!(mapper.read(0x0000), Err(Fault::RomBounds(0x0000)));
}

#[test]
fn bank_select_without_ram_pages_faults() {
    let mut data = test_image();
    data[8] = 0;  // header names no PRG-RAM pages
    let rom = Rom::load(&data).unwrap();
    let mapper = init(rom).unwrap();
    let mut bus = Bus::new(mapper, Controller::new(), Ppu::new());
    assert_eq!(bus.write(0x8000, 1), Err(Fault::BankSelect(1)));
}

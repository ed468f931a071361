use nes::controller::Controller;
use nes::cpu::Cpu;
use nes::mapper::{init, Mapper};
use nes::ppu::{Ppu, Sprite};
use nes::rom::Rom;

fn test_image() -> Vec<u8> {
    let mut data = vec![0u8; 16 + 16384 + 8192];
    data[0] = 0x4e;
    data[1] = 0x45;
    data[2] = 0x53;
    data[3] = 0x1a;
    data[4] = 1;
    data[5] = 1;
    data[8] = 1;
    data
}

fn make_mapper() -> Mapper {
    init(Rom::load(&test_image()).unwrap()).unwrap()
}

#[test]
fn frame_wrap_without_rendering_takes_full_frame() {
    let mapper = make_mapper();
    let mut ppu = Ppu::new();
    for _ in 0..341 * 262 {
        ppu.step(&mapper).unwrap();
    }
    assert_eq!(ppu.timing(), (0, 0, 1));
}

#[test]
fn frame_wrap_with_rendering_skips_one_dot() {
    let mapper = make_mapper();
    let mut ppu = Ppu::new();
    ppu.write_register(0x2001, 0x08).unwrap();
    for _ in 0..341 * 262 - 1 {
        ppu.step(&mapper).unwrap();
    }
    assert_eq!(ppu.timing(), (0, 0, 1));
    // The following frame has odd parity and runs full length.
    for _ in 0..341 * 262 {
        ppu.step(&mapper).unwrap();
    }
    assert_eq!(ppu.timing(), (0, 0, 2));
}

#[test]
fn vblank_raises_nmi_when_enabled() {
    let mapper = make_mapper();
    let mut ppu = Ppu::new();
    ppu.write_register(0x2000, 0x80).unwrap();
    let mut nmi_seen = false;
    for _ in 0..241 * 341 + 1 {
        if ppu.step(&mapper).unwrap() {
            nmi_seen = true;
        }
    }
    assert!(nmi_seen);
    assert_eq!(ppu.timing().0, 241);
    assert_eq!(ppu.read_register(0x2002).unwrap() & 0x80, 0x80);
}

#[test]
fn vblank_flag_clears_on_the_pre_render_line() {
    let mapper = make_mapper();
    let mut ppu = Ppu::new();
    ppu.write_register(0x2000, 0x80).unwrap();
    for _ in 0..261 * 341 + 2 {
        ppu.step(&mapper).unwrap();
    }
    assert_eq!(ppu.read_register(0x2002).unwrap() & 0x80, 0x00);
}

#[test]
fn nine_sprites_in_range_set_overflow() {
    let mut ppu = Ppu::new();
    for i in 0..64 {
        let y = if i < 9 { 0 } else { 200 };
        ppu.set_sprite(i, Sprite { y, tile: 0, attributes: 0, x: 0 });
    }
    ppu.evaluate_sprites();
    assert_eq!(ppu.secondary_count(), 8);
    assert_eq!(ppu.read_register(0x2002).unwrap() & 0x20, 0x20);
}

#[test]
fn eight_or_fewer_sprites_leave_overflow_clear() {
    let mut ppu = Ppu::new();
    for i in 0..64 {
        let y = if i < 5 { 0 } else { 200 };
        ppu.set_sprite(i, Sprite { y, tile: 0, attributes: 0, x: 0 });
    }
    ppu.evaluate_sprites();
    assert_eq!(ppu.secondary_count(), 5);
    assert_eq!(ppu.read_register(0x2002).unwrap() & 0x20, 0x00);
}

#[test]
fn tall_sprites_cover_sixteen_rows() {
    let mut ppu = Ppu::new();
    // Sprite size bit on: a sprite at y = 0 still covers scanline 0,
    // and rows below 16 qualify where 8x8 sprites would not.
    ppu.write_register(0x2000, 0x20).unwrap();
    for i in 0..64 {
        ppu.set_sprite(i, Sprite { y: 200, tile: 0, attributes: 0, x: 0 });
    }
    ppu.set_sprite(0, Sprite { y: 0, tile: 0, attributes: 0, x: 0 });
    ppu.evaluate_sprites();
    assert_eq!(ppu.secondary_count(), 1);
}

#[test]
fn register_file_round_trips_latches() {
    let mut ppu = Ppu::new();
    ppu.write_register(0x2004, 0xAB).unwrap();
    assert_eq!(ppu.read_register(0x2004).unwrap(), 0xAB);
    ppu.write_register(0x2007, 0xCD).unwrap();
    assert_eq!(ppu.read_register(0x2007).unwrap(), 0xCD);
}

#[test]
fn status_register_is_not_writable() {
    let mut ppu = Ppu::new();
    assert_eq!(
        ppu.write_register(0x2002, 0xFF),
        Err(nes::fault::Fault::RegisterWrite(0x2002))
    );
}

#[test]
fn control_registers_are_not_readable() {
    let ppu = Ppu::new();
    assert_eq!(
        ppu.read_register(0x2000),
        Err(nes::fault::Fault::RegisterRead(0x2000))
    );
}

#[test]
fn nametable_mirrors_every_0x800() {
    let mut mapper = make_mapper();
    let mut ppu = Ppu::new();
    ppu.write(&mut mapper, 0x2400, 0x77).unwrap();
    assert_eq!(ppu.read(&mapper, 0x2C00).unwrap(), 0x77);
    assert_eq!(ppu.read(&mapper, 0x2400).unwrap(), 0x77);
}

#[test]
fn palette_mirrors_every_32_bytes() {
    let mut mapper = make_mapper();
    let mut ppu = Ppu::new();
    ppu.write(&mut mapper, 0x3F01, 0x2A).unwrap();
    assert_eq!(ppu.read(&mapper, 0x3F21).unwrap(), 0x2A);
}

#[test]
fn ppu_bus_rejects_addresses_past_0x3fff() {
    let mapper = make_mapper();
    let ppu = Ppu::new();
    assert_eq!(
        ppu.read(&mapper, 0x4000),
        Err(nes::fault::Fault::PpuAddress(0x4000))
    );
}

#[test]
fn rendering_fills_the_frame_buffer() {
    let mapper = make_mapper();
    let mut ppu = Ppu::new();
    ppu.write_register(0x2001, 0x08).unwrap();
    // Run one full frame; with an all-zero cartridge every pixel takes
    // the backdrop color, the first palette entry.
    for _ in 0..341 * 262 {
        ppu.step(&mapper).unwrap();
    }
    let screen = ppu.screen();
    assert_eq!(screen.len(), 256 * 240 * 3);
    assert_eq!(screen[0], 0x7C);
    assert_eq!(screen[1], 0x7C);
    assert_eq!(screen[2], 0x7C);
}

#[test]
fn ppu_nmi_reaches_the_cpu_through_step_ppu() {
    let mut data = test_image();
    // LDA #$42 at $C000, which is also where the NMI vector points.
    data[16] = 0xA9;
    data[17] = 0x42;
    data[16 + 0x3FFA] = 0x00;
    data[16 + 0x3FFB] = 0xC0;
    let rom = Rom::load(&data).unwrap();
    let mapper = init(rom).unwrap();
    let mut cpu = Cpu::new(mapper, Controller::new(), Ppu::new());
    // Enable NMI generation through the memory-mapped register.
    cpu.bus.write(0x2000, 0x80).unwrap();
    for _ in 0..241 * 341 + 2 {
        cpu.step_ppu().unwrap();
    }
    cpu.step().unwrap();
    let r = cpu.registers();
    assert_eq!(r.0, 0xC002);
    assert_eq!(r.2, 0x42);
    assert_eq!(r.5 & 0x04, 0x04);
}

#[test]
fn sprite_zero_hit_latches_on_overlap() {
    // An all-ones pattern table makes every background and sprite
    // pixel opaque; sprite 0 at the top-left corner then overlaps the
    // background as soon as its scanline renders.
    let mut data = test_image();
    for i in 0..8192 {
        data[16 + 16384 + i] = 0xFF;
    }
    let mapper = init(Rom::load(&data).unwrap()).unwrap();
    let mut ppu = Ppu::new();
    ppu.write_register(0x2001, 0x1E).unwrap();
    ppu.set_sprite(0, Sprite { y: 0, tile: 0, attributes: 0, x: 0 });
    for i in 1..64 {
        ppu.set_sprite(i, Sprite { y: 200, tile: 0, attributes: 0, x: 0 });
    }
    // Scanline 0 evaluates sprites at dot 257; scanline 1 composites
    // them over the opaque background.
    for _ in 0..341 + 16 {
        ppu.step(&mapper).unwrap();
    }
    assert_eq!(ppu.read_register(0x2002).unwrap() & 0x40, 0x40);
}

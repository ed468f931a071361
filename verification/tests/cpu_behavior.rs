use nes::controller::Controller;
use nes::cpu::Cpu;
use nes::mapper::init;
use nes::ppu::Ppu;
use nes::rom::Rom;

/// An iNES image with one PRG bank and one CHR bank whose PRG starts
/// with `program`; with a single bank the fixed window at `0xC000`
/// maps to the start of PRG, which is where the CPU begins.
fn test_image(program: &[u8]) -> Vec<u8> {
    let mut data = vec![0u8; 16 + 16384 + 8192];
    data[0] = 0x4e;
    data[1] = 0x45;
    data[2] = 0x53;
    data[3] = 0x1a;
    data[4] = 1;
    data[5] = 1;
    data[8] = 1;
    for (i, b) in program.iter().enumerate() {
        data[16 + i] = *b;
    }
    data
}

fn make_cpu(program: &[u8]) -> Cpu {
    let rom = Rom::load(&test_image(program)).unwrap();
    let mapper = init(rom).unwrap();
    Cpu::new(mapper, Controller::new(), Ppu::new())
}

#[test]
fn power_on_registers() {
    let cpu = make_cpu(&[]);
    assert_eq!(cpu.registers(), (0xC000, 0xFD, 0, 0, 0, 0x24, 0));
}

#[test]
fn lda_immediate_zero_sets_zero_flag() {
    let mut cpu = make_cpu(&[0xA9, 0x00]);
    assert_eq!(cpu.step().unwrap(), 2);
    let r = cpu.registers();
    assert_eq!(r.2, 0x00);
    assert_eq!(r.5, 0x26);
    assert_eq!(r.0, 0xC002);
}

#[test]
fn lda_immediate_negative_sets_negative_flag() {
    let mut cpu = make_cpu(&[0xA9, 0x80]);
    cpu.step().unwrap();
    let r = cpu.registers();
    assert_eq!(r.2, 0x80);
    assert_eq!(r.5, 0xA4);
}

#[test]
fn adc_signed_overflow_sets_v() {
    // 0x50 + 0x50 = 0xA0: two positives summing to a negative.
    let mut cpu = make_cpu(&[0xA9, 0x50, 0x69, 0x50]);
    cpu.step().unwrap();
    cpu.step().unwrap();
    let r = cpu.registers();
    assert_eq!(r.2, 0xA0);
    assert_eq!(r.5, 0xE4);
}

#[test]
fn adc_unsigned_carry_sets_c() {
    let mut cpu = make_cpu(&[0xA9, 0xFF, 0x69, 0x01]);
    cpu.step().unwrap();
    cpu.step().unwrap();
    let r = cpu.registers();
    assert_eq!(r.2, 0x00);
    assert_eq!(r.5, 0x27);
}

#[test]
fn sbc_borrow_clears_carry() {
    // SEC; LDA #$50; SBC #$F0 -> 0x60 with a borrow out, no overflow.
    let mut cpu = make_cpu(&[0x38, 0xA9, 0x50, 0xE9, 0xF0]);
    cpu.step().unwrap();
    cpu.step().unwrap();
    cpu.step().unwrap();
    let r = cpu.registers();
    assert_eq!(r.2, 0x60);
    assert_eq!(r.5 & 0x01, 0);
    assert_eq!(r.5 & 0x40, 0);
}

#[test]
fn cmp_equal_sets_zero_and_carry() {
    let mut cpu = make_cpu(&[0xA9, 0x10, 0xC9, 0x10]);
    cpu.step().unwrap();
    cpu.step().unwrap();
    let r = cpu.registers();
    assert_eq!(r.5 & 0x03, 0x03);
}

#[test]
fn asl_shifts_into_carry() {
    let mut cpu = make_cpu(&[0xA9, 0x81, 0x0A]);
    cpu.step().unwrap();
    cpu.step().unwrap();
    let r = cpu.registers();
    assert_eq!(r.2, 0x02);
    assert_eq!(r.5 & 0x01, 0x01);
}

#[test]
fn ror_rotates_carry_into_bit7() {
    // SEC; LDA #$02; ROR A -> 0x81, carry cleared.
    let mut cpu = make_cpu(&[0x38, 0xA9, 0x02, 0x6A]);
    cpu.step().unwrap();
    cpu.step().unwrap();
    cpu.step().unwrap();
    let r = cpu.registers();
    assert_eq!(r.2, 0x81);
    assert_eq!(r.5 & 0x01, 0);
}

#[test]
fn stack_push16_pull16_round_trip() {
    let mut cpu = make_cpu(&[]);
    let sp_before = cpu.registers().1;
    cpu.push16(0xABCD);
    assert_eq!(cpu.pull16(), 0xABCD);
    assert_eq!(cpu.registers().1, sp_before);
}

#[test]
fn stack_push16_pull16_wraps_at_page_edge() {
    // TXS with X = 0 puts the stack pointer at the bottom of the page.
    let mut cpu = make_cpu(&[0xA2, 0x00, 0x9A]);
    cpu.step().unwrap();
    cpu.step().unwrap();
    assert_eq!(cpu.registers().1, 0x00);
    cpu.push16(0x1234);
    assert_eq!(cpu.pull16(), 0x1234);
    assert_eq!(cpu.registers().1, 0x00);
}

#[test]
fn php_plp_round_trips_status() {
    let mut cpu = make_cpu(&[0x08, 0x28]);
    let p_before = cpu.registers().5;
    cpu.step().unwrap();
    cpu.step().unwrap();
    assert_eq!(cpu.registers().5, p_before);
}

#[test]
fn taken_branch_costs_an_extra_cycle() {
    let mut cpu = make_cpu(&[0xA9, 0x01, 0xD0, 0x10]);
    cpu.step().unwrap();
    assert_eq!(cpu.step().unwrap(), 3);
    assert_eq!(cpu.registers().0, 0xC014);
}

#[test]
fn untaken_branch_costs_base_cycles() {
    let mut cpu = make_cpu(&[0xA9, 0x00, 0xD0, 0x10]);
    cpu.step().unwrap();
    assert_eq!(cpu.step().unwrap(), 2);
    assert_eq!(cpu.registers().0, 0xC004);
}

#[test]
fn branch_across_page_costs_two_extra_cycles() {
    // JMP $C0F0; at $C0F0: LDA #$01; BNE +$20 lands at $C114.
    let mut program = vec![0u8; 0x100];
    program[0x00] = 0x4C;
    program[0x01] = 0xF0;
    program[0x02] = 0xC0;
    program[0xF0] = 0xA9;
    program[0xF1] = 0x01;
    program[0xF2] = 0xD0;
    program[0xF3] = 0x20;
    let mut cpu = make_cpu(&program);
    cpu.step().unwrap();
    cpu.step().unwrap();
    assert_eq!(cpu.step().unwrap(), 4);
    assert_eq!(cpu.registers().0, 0xC114);
}

#[test]
fn absolute_x_page_cross_costs_extra_cycle() {
    // LDX #$FF; LDA $C081,X reaches $C180 across a page boundary.
    let mut cpu = make_cpu(&[0xA2, 0xFF, 0xBD, 0x81, 0xC0]);
    cpu.step().unwrap();
    assert_eq!(cpu.step().unwrap(), 5);
}

#[test]
fn absolute_x_without_cross_costs_base_cycles() {
    let mut cpu = make_cpu(&[0xA2, 0x01, 0xBD, 0x10, 0xC0]);
    cpu.step().unwrap();
    assert_eq!(cpu.step().unwrap(), 4);
}

#[test]
fn jsr_and_rts_round_trip_the_return_address() {
    let mut program = vec![0u8; 0x20];
    program[0x00] = 0x20;
    program[0x01] = 0x10;
    program[0x02] = 0xC0;
    program[0x10] = 0x60;
    let mut cpu = make_cpu(&program);
    assert_eq!(cpu.step().unwrap(), 6);
    assert_eq!(cpu.registers().0, 0xC010);
    assert_eq!(cpu.step().unwrap(), 6);
    assert_eq!(cpu.registers().0, 0xC003);
}

#[test]
fn nmi_services_through_its_vector() {
    // NMI vector points back at $C000, where LDA #$42 sits.
    let mut data = test_image(&[0xA9, 0x42]);
    data[16 + 0x3FFA] = 0x00;
    data[16 + 0x3FFB] = 0xC0;
    let rom = Rom::load(&data).unwrap();
    let mapper = init(rom).unwrap();
    let mut cpu = Cpu::new(mapper, Controller::new(), Ppu::new());
    cpu.trigger_nmi();
    // The returned count covers the instruction alone; the seven
    // interrupt-entry cycles still land in the running total.
    assert_eq!(cpu.step().unwrap(), 2);
    let r = cpu.registers();
    assert_eq!(r.0, 0xC002);
    assert_eq!(r.2, 0x42);
    assert_eq!(r.5 & 0x04, 0x04);
    assert_eq!(r.6, 27);
}

#[test]
fn irq_is_held_off_by_interrupt_disable() {
    // The power-on status has interrupts disabled, so a latched IRQ is
    // dropped and the instruction at pc runs alone.
    let mut cpu = make_cpu(&[0xA9, 0x42]);
    cpu.trigger_irq();
    assert_eq!(cpu.step().unwrap(), 2);
    assert_eq!(cpu.registers().2, 0x42);
}

#[test]
fn illegal_lax_loads_both_registers() {
    // LAX $10 with RAM still zeroed loads 0 into A and X.
    let mut cpu = make_cpu(&[0xA9, 0x55, 0xA7, 0x10]);
    cpu.step().unwrap();
    cpu.step().unwrap();
    let r = cpu.registers();
    assert_eq!(r.2, 0x00);
    assert_eq!(r.3, 0x00);
    assert_eq!(r.5 & 0x02, 0x02);
}

#[test]
fn unknown_opcode_faults_with_context() {
    // 0x02 is a KIL opcode with no semantics.
    let mut cpu = make_cpu(&[0x02]);
    assert_eq!(cpu.step(), Err(nes::fault::Fault::IllegalOpcode(0x02)));
}

#[test]
fn stall_consumes_one_cycle() {
    let mut cpu = make_cpu(&[0xA9, 0x07]);
    cpu.stall = 2;
    assert_eq!(cpu.step().unwrap(), 1);
    assert_eq!(cpu.step().unwrap(), 1);
    assert_eq!(cpu.step().unwrap(), 2);
    assert_eq!(cpu.registers().2, 0x07);
}

#[test]
fn cycle_column_tracks_ppu_dots() {
    let mut cpu = make_cpu(&[0xA9, 0x01, 0xA9, 0x02]);
    cpu.step().unwrap();
    assert_eq!(cpu.registers().6, 6);
    cpu.step().unwrap();
    assert_eq!(cpu.registers().6, 12);
}

#[test]
fn reset_reloads_pc_from_the_reset_vector() {
    let mut data = test_image(&[]);
    data[16 + 0x3FFC] = 0x34;
    data[16 + 0x3FFD] = 0xC1;
    let rom = Rom::load(&data).unwrap();
    let mapper = init(rom).unwrap();
    let mut cpu = Cpu::new(mapper, Controller::new(), Ppu::new());
    cpu.reset().unwrap();
    let r = cpu.registers();
    assert_eq!(r.0, 0xC134);
    assert_eq!(r.1, 0xFD);
    assert_eq!(r.5, 0x24);
}

#[test]
fn memory_write_read_through_step() {
    // STA $10 after LDA #$99, then LDA $10 reads it back.
    let mut cpu = make_cpu(&[0xA9, 0x99, 0x85, 0x10, 0xA9, 0x00, 0xA5, 0x10]);
    for _ in 0..4 {
        cpu.step().unwrap();
    }
    assert_eq!(cpu.registers().2, 0x99);
}

#[test]
fn indirect_jump_wraps_within_the_page() {
    // Pointer at $02FF: low byte from $02FF, high byte from $0200 (not
    // $0300), per the 6502 page-wrap quirk.
    let mut cpu = make_cpu(&[
        0xA9, 0x34, 0x8D, 0xFF, 0x02, // LDA #$34; STA $02FF
        0xA9, 0xC0, 0x8D, 0x00, 0x02, // LDA #$C0; STA $0200
        0x6C, 0xFF, 0x02,             // JMP ($02FF)
    ]);
    for _ in 0..5 {
        cpu.step().unwrap();
    }
    assert_eq!(cpu.registers().0, 0xC034);
}

#[test]
fn illegal_slo_shifts_then_ors() {
    let mut cpu = make_cpu(&[
        0xA9, 0x81, 0x85, 0x10, // LDA #$81; STA $10
        0xA9, 0x04, 0x07, 0x10, // LDA #$04; SLO $10
        0xA5, 0x10,             // LDA $10
    ]);
    for _ in 0..4 {
        cpu.step().unwrap();
    }
    let r = cpu.registers();
    assert_eq!(r.2, 0x06);
    assert_eq!(r.5 & 0x01, 0x01);
    cpu.step().unwrap();
    assert_eq!(cpu.registers().2, 0x02);
}

#[test]
fn indirect_indexed_reads_through_a_zero_page_pointer() {
    let mut cpu = make_cpu(&[
        0xA9, 0x00, 0x85, 0x10, // pointer low at $10
        0xA9, 0x02, 0x85, 0x11, // pointer high at $11
        0xA9, 0x7B, 0x8D, 0x05, 0x02, // $0205 = $7B
        0xA0, 0x05, // LDY #$05
        0xB1, 0x10, // LDA ($10),Y
    ]);
    for _ in 0..7 {
        cpu.step().unwrap();
    }
    assert_eq!(cpu.step().unwrap(), 5);
    assert_eq!(cpu.registers().2, 0x7B);
}

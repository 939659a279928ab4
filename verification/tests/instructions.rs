use pgbr::cpu::CPU;
use pgbr::mmu::MMU;
use pgbr::rom::ROM;

fn run(program: &[u8], setup: impl FnOnce(&mut CPU)) -> CPU {
    let mut bytes = vec![0u8; 0x8000];
    bytes[0x100..0x100 + program.len()].copy_from_slice(program);
    let mut cpu = CPU::new(MMU::new(ROM::new(bytes)));
    cpu.reg.set_f(0);
    setup(&mut cpu);
    assert_eq!(cpu.emulate_instruction(), Some(program[0]));
    cpu
}

fn flags(cpu: &CPU) -> (bool, bool, bool, bool) {
    (cpu.reg.get_zero_flag(), cpu.reg.get_subtract_flag(), cpu.reg.get_half_carry_flag(), cpu.reg.get_carry_flag())
}

#[test]
fn add_sets_half_carry_and_carry() {
    let cpu = run(&[0x80], |c| {
        c.reg.set_a(0x3A);
        c.reg.set_b(0xC6);
    });
    assert_eq!(cpu.reg.get_a(), 0x00);
    assert_eq!(flags(&cpu), (true, false, true, true));
    let cpu = run(&[0xC6, 0xFF], |c| c.reg.set_a(0x3C));
    assert_eq!(cpu.reg.get_a(), 0x3B);
    assert_eq!(flags(&cpu), (false, false, true, true));
    let cpu = run(&[0x86], |c| {
        c.reg.set_a(0x3C);
        c.reg.set_hl(0xC000);
        c.write8(0xC000, 0x12);
    });
    assert_eq!(cpu.reg.get_a(), 0x4E);
    assert_eq!(flags(&cpu), (false, false, false, false));
    let cpu = run(&[0x87], |c| {
        c.reg.set_a(0x80);
        c.reg.set_carry_flag(true);
    });
    assert_eq!(cpu.reg.get_a(), 0x00);
    assert_eq!(flags(&cpu), (true, false, false, true));
}

#[test]
fn adc_takes_the_carry_in() {
    let cpu = run(&[0x8B], |c| {
        c.reg.set_a(0xE1);
        c.reg.set_e(0x0F);
        c.reg.set_carry_flag(true);
    });
    assert_eq!(cpu.reg.get_a(), 0xF1);
    assert_eq!(flags(&cpu), (false, false, true, false));
    let cpu = run(&[0xCE, 0x3B], |c| {
        c.reg.set_a(0xE1);
        c.reg.set_carry_flag(true);
    });
    assert_eq!(cpu.reg.get_a(), 0x1D);
    assert_eq!(flags(&cpu), (false, false, false, true));
    let cpu = run(&[0xCE, 0xFF], |c| {
        c.reg.set_a(0x00);
        c.reg.set_carry_flag(true);
    });
    assert_eq!(cpu.reg.get_a(), 0x00);
    assert_eq!(flags(&cpu), (true, false, true, true));
    let cpu = run(&[0xCE, 0x0F], |c| c.reg.set_a(0x01));
    assert_eq!(cpu.reg.get_a(), 0x10);
    assert_eq!(flags(&cpu), (false, false, true, false));
}

#[test]
fn sub_sets_borrows() {
    let cpu = run(&[0x93], |c| {
        c.reg.set_a(0x3E);
        c.reg.set_e(0x3E);
    });
    assert_eq!(cpu.reg.get_a(), 0x00);
    assert_eq!(flags(&cpu), (true, true, false, false));
    let cpu = run(&[0xD6, 0x0F], |c| c.reg.set_a(0x3E));
    assert_eq!(cpu.reg.get_a(), 0x2F);
    assert_eq!(flags(&cpu), (false, true, true, false));
    let cpu = run(&[0xD6, 0x40], |c| {
        c.reg.set_a(0x3E);
        c.reg.set_carry_flag(true);
    });
    assert_eq!(cpu.reg.get_a(), 0xFE);
    assert_eq!(flags(&cpu), (false, true, false, true));
    let cpu = run(&[0x97], |c| c.reg.set_a(0x77));
    assert_eq!(cpu.reg.get_a(), 0x00);
    assert_eq!(flags(&cpu), (true, true, false, false));
}

#[test]
fn sbc_takes_the_carry_in() {
    let cpu = run(&[0x9C], |c| {
        c.reg.set_a(0x3B);
        c.reg.set_h(0x2A);
        c.reg.set_carry_flag(true);
    });
    assert_eq!(cpu.reg.get_a(), 0x10);
    assert_eq!(flags(&cpu), (false, true, false, false));
    let cpu = run(&[0xDE, 0x3A], |c| {
        c.reg.set_a(0x3B);
        c.reg.set_carry_flag(true);
    });
    assert_eq!(cpu.reg.get_a(), 0x00);
    assert_eq!(flags(&cpu), (true, true, false, false));
    let cpu = run(&[0xDE, 0x4F], |c| {
        c.reg.set_a(0x3B);
        c.reg.set_carry_flag(true);
    });
    assert_eq!(cpu.reg.get_a(), 0xEB);
    assert_eq!(flags(&cpu), (false, true, true, true));
    let cpu = run(&[0xDE, 0xFF], |c| {
        c.reg.set_a(0x00);
        c.reg.set_carry_flag(true);
    });
    assert_eq!(cpu.reg.get_a(), 0x00);
    assert_eq!(flags(&cpu), (true, true, true, true));
}

#[test]
fn logic_operations() {
    let cpu = run(&[0xA5], |c| {
        c.reg.set_a(0x5A);
        c.reg.set_l(0x3F);
        c.reg.set_carry_flag(true);
    });
    assert_eq!(cpu.reg.get_a(), 0x1A);
    assert_eq!(flags(&cpu), (false, false, true, false));
    let cpu = run(&[0xE6, 0x00], |c| c.reg.set_a(0x5A));
    assert_eq!(cpu.reg.get_a(), 0x00);
    assert_eq!(flags(&cpu), (true, false, true, false));
    let cpu = run(&[0xEE, 0x0F], |c| {
        c.reg.set_a(0xFF);
        c.reg.set_f(0xF0);
    });
    assert_eq!(cpu.reg.get_a(), 0xF0);
    assert_eq!(flags(&cpu), (false, false, false, false));
    let cpu = run(&[0xB7], |c| c.reg.set_a(0x00));
    assert_eq!(cpu.reg.get_a(), 0x00);
    assert_eq!(flags(&cpu), (true, false, false, false));
    let cpu = run(&[0xF6, 0x03], |c| {
        c.reg.set_a(0x5A);
        c.reg.set_f(0xF0);
    });
    assert_eq!(cpu.reg.get_a(), 0x5B);
    assert_eq!(flags(&cpu), (false, false, false, false));
}

#[test]
fn compare_leaves_a() {
    let cpu = run(&[0xB8], |c| {
        c.reg.set_a(0x3C);
        c.reg.set_b(0x2F);
    });
    assert_eq!(cpu.reg.get_a(), 0x3C);
    assert_eq!(flags(&cpu), (false, true, true, false));
    let cpu = run(&[0xFE, 0x3C], |c| c.reg.set_a(0x3C));
    assert_eq!(flags(&cpu), (true, true, false, false));
    let cpu = run(&[0xFE, 0x40], |c| c.reg.set_a(0x3C));
    assert_eq!(cpu.reg.get_a(), 0x3C);
    assert_eq!(flags(&cpu), (false, true, false, true));
}

#[test]
fn increment_and_decrement_keep_the_carry() {
    let cpu = run(&[0x3C], |c| {
        c.reg.set_a(0xFF);
        c.reg.set_carry_flag(true);
    });
    assert_eq!(cpu.reg.get_a(), 0x00);
    assert_eq!(flags(&cpu), (true, false, true, true));
    let cpu = run(&[0x0C], |c| c.reg.set_c(0x0F));
    assert_eq!(cpu.reg.get_c(), 0x10);
    assert_eq!(flags(&cpu), (false, false, true, false));
    let cpu = run(&[0x2D], |c| c.reg.set_l(0x01));
    assert_eq!(cpu.reg.get_l(), 0x00);
    assert_eq!(flags(&cpu), (true, true, false, false));
    let cpu = run(&[0x05], |c| {
        c.reg.set_b(0x00);
        c.reg.set_carry_flag(true);
    });
    assert_eq!(cpu.reg.get_b(), 0xFF);
    assert_eq!(flags(&cpu), (false, true, true, true));
    let cpu = run(&[0x15], |c| c.reg.set_d(0x10));
    assert_eq!(cpu.reg.get_d(), 0x0F);
    assert_eq!(flags(&cpu), (false, true, true, false));
    let cpu = run(&[0x34], |c| {
        c.reg.set_hl(0xC100);
        c.write8(0xC100, 0x50);
    });
    assert_eq!(cpu.mmu().read8(0xC100), 0x51);
    assert_eq!(flags(&cpu), (false, false, false, false));
    let cpu = run(&[0x35], |c| {
        c.reg.set_hl(0xC100);
        c.write8(0xC100, 0x00);
    });
    assert_eq!(cpu.mmu().read8(0xC100), 0xFF);
    assert_eq!(flags(&cpu), (false, true, true, false));
}

#[test]
fn sixteen_bit_arithmetic() {
    let cpu = run(&[0x09], |c| {
        c.reg.set_hl(0x8A23);
        c.reg.set_bc(0x0605);
        c.reg.set_zero_flag(true);
    });
    assert_eq!(cpu.reg.get_hl(), 0x9028);
    assert_eq!(flags(&cpu), (true, false, true, false));
    let cpu = run(&[0x29], |c| c.reg.set_hl(0x8A23));
    assert_eq!(cpu.reg.get_hl(), 0x1446);
    assert_eq!(flags(&cpu), (false, false, true, true));
    let cpu = run(&[0x39], |c| {
        c.reg.set_hl(0x0001);
        c.reg.set_sp(0xFFFF);
    });
    assert_eq!(cpu.reg.get_hl(), 0x0000);
    assert_eq!(flags(&cpu), (false, false, true, true));
    let cpu = run(&[0x19], |c| {
        c.reg.set_hl(0x0FFF);
        c.reg.set_de(0x0001);
        c.reg.set_subtract_flag(true);
    });
    assert_eq!(cpu.reg.get_hl(), 0x1000);
    assert_eq!(flags(&cpu), (false, false, true, false));
    let cpu = run(&[0x03], |c| {
        c.reg.set_bc(0xFFFF);
        c.reg.set_f(0xF0);
    });
    assert_eq!(cpu.reg.get_bc(), 0x0000);
    assert_eq!(cpu.reg.get_f(), 0xF0);
    let cpu = run(&[0x1B], |c| c.reg.set_de(0x0000));
    assert_eq!(cpu.reg.get_de(), 0xFFFF);
    assert_eq!(cpu.reg.get_f(), 0x00);
    let cpu = run(&[0x33], |c| c.reg.set_sp(0x00FF));
    assert_eq!(cpu.reg.get_sp(), 0x0100);
    let cpu = run(&[0x2B], |c| c.reg.set_hl(0x0100));
    assert_eq!(cpu.reg.get_hl(), 0x00FF);
}

#[test]
fn stack_pointer_arithmetic() {
    let cpu = run(&[0xE8, 0x02], |c| {
        c.reg.set_sp(0xFFF8);
        c.reg.set_f(0xF0);
    });
    assert_eq!(cpu.reg.get_sp(), 0xFFFA);
    assert_eq!(flags(&cpu), (false, false, false, false));
    let cpu = run(&[0xE8, 0xFF], |c| c.reg.set_sp(0x0001));
    assert_eq!(cpu.reg.get_sp(), 0x0000);
    assert_eq!(flags(&cpu), (false, false, true, true));
    let cpu = run(&[0xE8, 0xFE], |c| c.reg.set_sp(0x0001));
    assert_eq!(cpu.reg.get_sp(), 0xFFFF);
    assert_eq!(flags(&cpu), (false, false, false, false));
    let cpu = run(&[0xE8, 0x08], |c| c.reg.set_sp(0x00F8));
    assert_eq!(cpu.reg.get_sp(), 0x0100);
    assert_eq!(flags(&cpu), (false, false, true, true));
    let cpu = run(&[0xF8, 0x02], |c| {
        c.reg.set_sp(0xFFF8);
        c.reg.set_f(0xF0);
    });
    assert_eq!(cpu.reg.get_hl(), 0xFFFA);
    assert_eq!(cpu.reg.get_sp(), 0xFFF8);
    assert_eq!(flags(&cpu), (false, false, false, false));
    let cpu = run(&[0xF8, 0x80], |c| c.reg.set_sp(0x0080));
    assert_eq!(cpu.reg.get_hl(), 0x0000);
    assert_eq!(flags(&cpu), (false, false, false, true));
    let cpu = run(&[0xF9], |c| c.reg.set_hl(0xC123));
    assert_eq!(cpu.reg.get_sp(), 0xC123);
    let cpu = run(&[0x08, 0x00, 0xC0], |c| c.reg.set_sp(0xBEEF));
    assert_eq!(cpu.mmu().read16(0xC000), 0xBEEF);
    assert_eq!(cpu.reg.get_pc(), 0x0103);
}

#[test]
fn rotations_of_a_clear_zero() {
    let cpu = run(&[0x07], |c| {
        c.reg.set_a(0x85);
        c.reg.set_f(0xE0);
    });
    assert_eq!(cpu.reg.get_a(), 0x0B);
    assert_eq!(flags(&cpu), (false, false, false, true));
    let cpu = run(&[0x17], |c| {
        c.reg.set_a(0x95);
        c.reg.set_carry_flag(true);
    });
    assert_eq!(cpu.reg.get_a(), 0x2B);
    assert_eq!(flags(&cpu), (false, false, false, true));
    let cpu = run(&[0x0F], |c| c.reg.set_a(0x3B));
    assert_eq!(cpu.reg.get_a(), 0x9D);
    assert_eq!(flags(&cpu), (false, false, false, true));
    let cpu = run(&[0x1F], |c| c.reg.set_a(0x81));
    assert_eq!(cpu.reg.get_a(), 0x40);
    assert_eq!(flags(&cpu), (false, false, false, true));
    let cpu = run(&[0x1F], |c| {
        c.reg.set_a(0x00);
        c.reg.set_carry_flag(true);
    });
    assert_eq!(cpu.reg.get_a(), 0x80);
    assert_eq!(flags(&cpu), (false, false, false, false));
    let cpu = run(&[0x07], |c| c.reg.set_a(0x00));
    assert_eq!(cpu.reg.get_a(), 0x00);
    assert_eq!(flags(&cpu), (false, false, false, false));
}

#[test]
fn prefixed_rotations_and_shifts() {
    let cpu = run(&[0xCB, 0x00], |c| c.reg.set_b(0x85));
    assert_eq!(cpu.reg.get_b(), 0x0B);
    assert_eq!(flags(&cpu), (false, false, false, true));
    let cpu = run(&[0xCB, 0x09], |c| c.reg.set_c(0x01));
    assert_eq!(cpu.reg.get_c(), 0x80);
    assert_eq!(flags(&cpu), (false, false, false, true));
    let cpu = run(&[0xCB, 0x15], |c| c.reg.set_l(0x80));
    assert_eq!(cpu.reg.get_l(), 0x00);
    assert_eq!(flags(&cpu), (true, false, false, true));
    let cpu = run(&[0xCB, 0x12], |c| {
        c.reg.set_d(0x11);
        c.reg.set_carry_flag(true);
    });
    assert_eq!(cpu.reg.get_d(), 0x23);
    assert_eq!(flags(&cpu), (false, false, false, false));
    let cpu = run(&[0xCB, 0x1F], |c| c.reg.set_a(0x01));
    assert_eq!(cpu.reg.get_a(), 0x00);
    assert_eq!(flags(&cpu), (true, false, false, true));
    let cpu = run(&[0xCB, 0x1B], |c| {
        c.reg.set_e(0x8A);
        c.reg.set_carry_flag(true);
    });
    assert_eq!(cpu.reg.get_e(), 0xC5);
    assert_eq!(flags(&cpu), (false, false, false, false));
    let cpu = run(&[0xCB, 0x22], |c| c.reg.set_d(0x80));
    assert_eq!(cpu.reg.get_d(), 0x00);
    assert_eq!(flags(&cpu), (true, false, false, true));
    let cpu = run(&[0xCB, 0x24], |c| {
        c.reg.set_h(0x7F);
        c.reg.set_carry_flag(true);
    });
    assert_eq!(cpu.reg.get_h(), 0xFE);
    assert_eq!(flags(&cpu), (false, false, false, false));
    let cpu = run(&[0xCB, 0x2F], |c| c.reg.set_a(0x8A));
    assert_eq!(cpu.reg.get_a(), 0xC5);
    assert_eq!(flags(&cpu), (false, false, false, false));
    let cpu = run(&[0xCB, 0x28], |c| c.reg.set_b(0x01));
    assert_eq!(cpu.reg.get_b(), 0x00);
    assert_eq!(flags(&cpu), (true, false, false, true));
    let cpu = run(&[0xCB, 0x3F], |c| c.reg.set_a(0x01));
    assert_eq!(cpu.reg.get_a(), 0x00);
    assert_eq!(flags(&cpu), (true, false, false, true));
    let cpu = run(&[0xCB, 0x38], |c| {
        c.reg.set_b(0xFE);
        c.reg.set_carry_flag(true);
    });
    assert_eq!(cpu.reg.get_b(), 0x7F);
    assert_eq!(flags(&cpu), (false, false, false, false));
    let cpu = run(&[0xCB, 0x37], |c| {
        c.reg.set_a(0xF1);
        c.reg.set_f(0xF0);
    });
    assert_eq!(cpu.reg.get_a(), 0x1F);
    assert_eq!(flags(&cpu), (false, false, false, false));
    let cpu = run(&[0xCB, 0x30], |c| c.reg.set_b(0x00));
    assert_eq!(flags(&cpu), (true, false, false, false));
    let cpu = run(&[0xCB, 0x06], |c| {
        c.reg.set_hl(0xC000);
        c.write8(0xC000, 0x81);
    });
    assert_eq!(cpu.mmu().read8(0xC000), 0x03);
    assert_eq!(flags(&cpu), (false, false, false, true));
}

#[test]
fn bit_set_and_reset() {
    let cpu = run(&[0xCB, 0x7F], |c| {
        c.reg.set_a(0x80);
        c.reg.set_subtract_flag(true);
    });
    assert_eq!(flags(&cpu), (false, false, true, false));
    let cpu = run(&[0xCB, 0x65], |c| {
        c.reg.set_l(0xEF);
        c.reg.set_carry_flag(true);
    });
    assert_eq!(flags(&cpu), (true, false, true, true));
    assert_eq!(cpu.reg.get_l(), 0xEF);
    let cpu = run(&[0xCB, 0x46], |c| {
        c.reg.set_hl(0xC000);
        c.write8(0xC000, 0xFE);
    });
    assert_eq!(flags(&cpu), (true, false, true, false));
    let cpu = run(&[0xCB, 0xFF], |c| {
        c.reg.set_a(0x00);
        c.reg.set_f(0xF0);
    });
    assert_eq!(cpu.reg.get_a(), 0x80);
    assert_eq!(cpu.reg.get_f(), 0xF0);
    let cpu = run(&[0xCB, 0xDD], |c| c.reg.set_l(0x3B));
    assert_eq!(cpu.reg.get_l(), 0x3B);
    let cpu = run(&[0xCB, 0xC0], |c| c.reg.set_b(0x00));
    assert_eq!(cpu.reg.get_b(), 0x01);
    let cpu = run(&[0xCB, 0xBF], |c| c.reg.set_a(0xFF));
    assert_eq!(cpu.reg.get_a(), 0x7F);
    assert_eq!(cpu.reg.get_f(), 0x00);
    let cpu = run(&[0xCB, 0x8D], |c| c.reg.set_l(0x3B));
    assert_eq!(cpu.reg.get_l(), 0x39);
    let cpu = run(&[0xCB, 0x9E], |c| {
        c.reg.set_hl(0xC000);
        c.write8(0xC000, 0xFF);
    });
    assert_eq!(cpu.mmu().read8(0xC000), 0xF7);
    let cpu = run(&[0xCB, 0xE6], |c| {
        c.reg.set_hl(0xC000);
        c.write8(0xC000, 0x00);
    });
    assert_eq!(cpu.mmu().read8(0xC000), 0x10);
}

#[test]
fn decimal_adjust() {
    let mut cpu = run(&[0x80, 0x27, 0x90, 0x27], |c| {
        c.reg.set_a(0x45);
        c.reg.set_b(0x38);
    });
    assert_eq!(cpu.reg.get_a(), 0x7D);
    assert_eq!(cpu.emulate_instruction(), Some(0x27));
    assert_eq!(cpu.reg.get_a(), 0x83);
    assert_eq!(flags(&cpu), (false, false, false, false));
    assert_eq!(cpu.emulate_instruction(), Some(0x90));
    assert_eq!(cpu.reg.get_a(), 0x4B);
    assert_eq!(flags(&cpu), (false, true, true, false));
    assert_eq!(cpu.emulate_instruction(), Some(0x27));
    assert_eq!(cpu.reg.get_a(), 0x45);
    assert_eq!(flags(&cpu), (false, true, false, false));
    let cpu = run(&[0x27], |c| {
        c.reg.set_a(0x9A);
    });
    assert_eq!(cpu.reg.get_a(), 0x00);
    assert_eq!(flags(&cpu), (true, false, false, true));
    let cpu = run(&[0x27], |c| {
        c.reg.set_a(0x32);
        c.reg.set_f(0x30);
    });
    assert_eq!(cpu.reg.get_a(), 0x98);
    assert_eq!(flags(&cpu), (false, false, false, true));
    let cpu = run(&[0x27], |c| {
        c.reg.set_a(0x00);
        c.reg.set_f(0x70);
    });
    assert_eq!(cpu.reg.get_a(), 0x9A);
    assert_eq!(flags(&cpu), (false, true, false, true));
    let cpu = run(&[0x27], |c| {
        c.reg.set_a(0x05);
        c.reg.set_f(0x60);
    });
    assert_eq!(cpu.reg.get_a(), 0xFF);
    assert_eq!(flags(&cpu), (false, true, false, false));
}

#[test]
fn complement_and_carry_flag_operations() {
    let cpu = run(&[0x2F], |c| {
        c.reg.set_a(0x35);
        c.reg.set_f(0x90);
    });
    assert_eq!(cpu.reg.get_a(), 0xCA);
    assert_eq!(flags(&cpu), (true, true, true, true));
    let cpu = run(&[0x37], |c| c.reg.set_f(0xE0));
    assert_eq!(flags(&cpu), (true, false, false, true));
    let cpu = run(&[0x3F], |c| c.reg.set_f(0xF0));
    assert_eq!(flags(&cpu), (true, false, false, false));
    let cpu = run(&[0x3F], |c| c.reg.set_f(0x60));
    assert_eq!(flags(&cpu), (false, false, false, true));
}

#[test]
fn loads_between_registers_and_memory() {
    let cpu = run(&[0x41], |c| c.reg.set_c(0x99));
    assert_eq!(cpu.reg.get_b(), 0x99);
    let cpu = run(&[0x7E], |c| {
        c.reg.set_hl(0xC000);
        c.write8(0xC000, 0x5C);
    });
    assert_eq!(cpu.reg.get_a(), 0x5C);
    let cpu = run(&[0x70], |c| {
        c.reg.set_hl(0xC000);
        c.reg.set_b(0x3C);
    });
    assert_eq!(cpu.mmu().read8(0xC000), 0x3C);
    let cpu = run(&[0x74], |c| c.reg.set_hl(0xC0C1));
    assert_eq!(cpu.mmu().read8(0xC0C1), 0xC0);
    let cpu = run(&[0x36, 0x77], |c| c.reg.set_hl(0xC000));
    assert_eq!(cpu.mmu().read8(0xC000), 0x77);
    assert_eq!(cpu.reg.get_pc(), 0x0102);
    let cpu = run(&[0x01, 0x34, 0x12], |_| {});
    assert_eq!(cpu.reg.get_bc(), 0x1234);
    let cpu = run(&[0x31, 0x00, 0xD0], |_| {});
    assert_eq!(cpu.reg.get_sp(), 0xD000);
    let cpu = run(&[0x02], |c| {
        c.reg.set_bc(0xC010);
        c.reg.set_a(0x42);
    });
    assert_eq!(cpu.mmu().read8(0xC010), 0x42);
    let cpu = run(&[0x1A], |c| {
        c.reg.set_de(0xC010);
        c.write8(0xC010, 0x24);
    });
    assert_eq!(cpu.reg.get_a(), 0x24);
    let cpu = run(&[0x22], |c| {
        c.reg.set_hl(0xCFFF);
        c.reg.set_a(0x56);
    });
    assert_eq!(cpu.mmu().read8(0xCFFF), 0x56);
    assert_eq!(cpu.reg.get_hl(), 0xD000);
    let cpu = run(&[0x32], |c| {
        c.reg.set_hl(0xC000);
        c.reg.set_a(0x57);
    });
    assert_eq!(cpu.mmu().read8(0xC000), 0x57);
    assert_eq!(cpu.reg.get_hl(), 0xBFFF);
    let cpu = run(&[0x2A], |c| {
        c.reg.set_hl(0xFFFF);
        c.write8(0xFFFF, 0x15);
    });
    assert_eq!(cpu.reg.get_a(), 0x15);
    assert_eq!(cpu.reg.get_hl(), 0x0000);
    let cpu = run(&[0x3A], |c| {
        c.reg.set_hl(0xC000);
        c.write8(0xC000, 0x16);
    });
    assert_eq!(cpu.reg.get_a(), 0x16);
    assert_eq!(cpu.reg.get_hl(), 0xBFFF);
}

#[test]
fn loads_through_the_high_page() {
    let cpu = run(&[0xE0, 0x80], |c| c.reg.set_a(0x11));
    assert_eq!(cpu.mmu().read8(0xFF80), 0x11);
    let cpu = run(&[0xF0, 0x81], |c| c.write8(0xFF81, 0x22));
    assert_eq!(cpu.reg.get_a(), 0x22);
    let cpu = run(&[0xE2], |c| {
        c.reg.set_c(0x82);
        c.reg.set_a(0x33);
    });
    assert_eq!(cpu.mmu().read8(0xFF82), 0x33);
    let cpu = run(&[0xF2], |c| {
        c.reg.set_c(0x83);
        c.write8(0xFF83, 0x44);
    });
    assert_eq!(cpu.reg.get_a(), 0x44);
    let cpu = run(&[0xEA, 0x00, 0xC0], |c| c.reg.set_a(0x55));
    assert_eq!(cpu.mmu().read8(0xC000), 0x55);
    let cpu = run(&[0xFA, 0x01, 0xC0], |c| c.write8(0xC001, 0x66));
    assert_eq!(cpu.reg.get_a(), 0x66);
    assert_eq!(cpu.reg.get_pc(), 0x0103);
}

#[test]
fn relative_jumps() {
    let cpu = run(&[0x18, 0x05], |_| {});
    assert_eq!(cpu.reg.get_pc(), 0x0107);
    let cpu = run(&[0x18, 0xFE], |_| {});
    assert_eq!(cpu.reg.get_pc(), 0x0100);
    let cpu = run(&[0x18, 0x80], |_| {});
    assert_eq!(cpu.reg.get_pc(), 0x0082);
    let cpu = run(&[0x20, 0x10], |c| c.reg.set_zero_flag(false));
    assert_eq!(cpu.reg.get_pc(), 0x0112);
    let cpu = run(&[0x20, 0x10], |c| c.reg.set_zero_flag(true));
    assert_eq!(cpu.reg.get_pc(), 0x0102);
    let cpu = run(&[0x28, 0x10], |c| c.reg.set_zero_flag(true));
    assert_eq!(cpu.reg.get_pc(), 0x0112);
    let cpu = run(&[0x30, 0x10], |c| c.reg.set_carry_flag(true));
    assert_eq!(cpu.reg.get_pc(), 0x0102);
    let cpu = run(&[0x38, 0xF0], |c| c.reg.set_carry_flag(true));
    assert_eq!(cpu.reg.get_pc(), 0x00F2);
}

#[test]
fn absolute_jumps_calls_and_returns() {
    let cpu = run(&[0xC2, 0x00, 0x20], |c| c.reg.set_zero_flag(true));
    assert_eq!(cpu.reg.get_pc(), 0x0103);
    let cpu = run(&[0xCA, 0x00, 0x20], |c| c.reg.set_zero_flag(true));
    assert_eq!(cpu.reg.get_pc(), 0x2000);
    let cpu = run(&[0xD2, 0x00, 0x20], |_| {});
    assert_eq!(cpu.reg.get_pc(), 0x2000);
    let cpu = run(&[0xDA, 0x00, 0x20], |_| {});
    assert_eq!(cpu.reg.get_pc(), 0x0103);
    let cpu = run(&[0xE9], |c| c.reg.set_hl(0x4321));
    assert_eq!(cpu.reg.get_pc(), 0x4321);
    let mut cpu = run(&[0xCD, 0x00, 0xC0], |c| {
        c.reg.set_sp(0xD000);
        c.write8(0xC000, 0xC9);
    });
    assert_eq!(cpu.reg.get_pc(), 0xC000);
    assert_eq!(cpu.reg.get_sp(), 0xCFFE);
    assert_eq!(cpu.mmu().read16(0xCFFE), 0x0103);
    assert_eq!(cpu.emulate_instruction(), Some(0xC9));
    assert_eq!(cpu.reg.get_pc(), 0x0103);
    assert_eq!(cpu.reg.get_sp(), 0xD000);
    let cpu = run(&[0xC4, 0x00, 0xC0], |c| c.reg.set_zero_flag(true));
    assert_eq!(cpu.reg.get_pc(), 0x0103);
    assert_eq!(cpu.reg.get_sp(), 0xFFFE);
    let cpu = run(&[0xDC, 0x00, 0xC0], |c| c.reg.set_carry_flag(true));
    assert_eq!(cpu.reg.get_pc(), 0xC000);
    assert_eq!(cpu.reg.get_sp(), 0xFFFC);
    assert_eq!(cpu.mmu().read16(0xFFFC), 0x0103);
    let cpu = run(&[0xC0], |c| {
        c.reg.set_sp(0xC000);
        c.write16(0xC000, 0x1234);
    });
    assert_eq!(cpu.reg.get_pc(), 0x1234);
    assert_eq!(cpu.reg.get_sp(), 0xC002);
    let cpu = run(&[0xC8], |c| {
        c.reg.set_sp(0xC000);
        c.write16(0xC000, 0x1234);
    });
    assert_eq!(cpu.reg.get_pc(), 0x0101);
    assert_eq!(cpu.reg.get_sp(), 0xC000);
    for y in 0..8u8 {
        let cpu = run(&[0xC7 | y << 3], |_| {});
        assert_eq!(cpu.reg.get_pc(), y as u16 * 8);
        assert_eq!(cpu.mmu().read16(0xFFFC), 0x0101);
        assert_eq!(cpu.reg.get_sp(), 0xFFFC);
    }
}

#[test]
fn push_and_pop() {
    let mut cpu = run(&[0xC5, 0xD1, 0xF5, 0xE1, 0xD5, 0xF1], |c| {
        c.reg.set_bc(0x12FF);
        c.reg.set_af(0xAB50);
    });
    assert_eq!(cpu.reg.get_sp(), 0xFFFC);
    assert_eq!(cpu.mmu().read8(0xFFFD), 0x12);
    assert_eq!(cpu.mmu().read8(0xFFFC), 0xFF);
    assert_eq!(cpu.emulate_instruction(), Some(0xD1));
    assert_eq!(cpu.reg.get_de(), 0x12FF);
    assert_eq!(cpu.reg.get_sp(), 0xFFFE);
    assert_eq!(cpu.emulate_instruction(), Some(0xF5));
    assert_eq!(cpu.emulate_instruction(), Some(0xE1));
    assert_eq!(cpu.reg.get_hl(), 0xAB50);
    assert_eq!(cpu.emulate_instruction(), Some(0xD5));
    assert_eq!(cpu.emulate_instruction(), Some(0xF1));
    assert_eq!(cpu.reg.get_af(), 0x12F0);
    assert_eq!(cpu.reg.get_sp(), 0xFFFE);
    assert_eq!(flags(&cpu), (true, true, true, true));
}

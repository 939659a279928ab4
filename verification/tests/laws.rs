use pgbr::cpu::CPU;
use pgbr::mmu::MMU;
use pgbr::rom::ROM;

fn cpu_with(program: &[u8]) -> CPU {
    let mut bytes = vec![0u8; 0x8000];
    bytes[0x147] = 0x03;
    bytes[0x100..0x100 + program.len()].copy_from_slice(program);
    CPU::new(MMU::new(ROM::new(bytes)))
}

fn get(cpu: &CPU, r: u8) -> u8 {
    match r {
        0 => cpu.reg.get_b(),
        1 => cpu.reg.get_c(),
        2 => cpu.reg.get_d(),
        3 => cpu.reg.get_e(),
        4 => cpu.reg.get_h(),
        5 => cpu.reg.get_l(),
        _ => cpu.reg.get_a(),
    }
}

fn fill(cpu: &mut CPU) {
    cpu.reg.set_b(0x10);
    cpu.reg.set_c(0x21);
    cpu.reg.set_d(0x32);
    cpu.reg.set_e(0x43);
    cpu.reg.set_h(0x54);
    cpu.reg.set_l(0x65);
    cpu.reg.set_a(0x76);
}

#[test]
fn f_keeps_its_low_nibble_clear_through_a_program() {
    let program = [
        0x3E, 0xFF, 0xC6, 0x01, 0xF5, 0x01, 0xFF, 0xFF, 0xC5, 0xF1, 0x27, 0x2F, 0x37, 0x3F, 0xCB, 0x37, 0x97, 0xAF,
    ];
    let mut cpu = cpu_with(&program);
    for _ in 0..14 {
        assert!(cpu.emulate_instruction().is_some());
        assert_eq!(cpu.reg.get_f() & 0x0F, 0);
        assert_eq!(cpu.reg.get_af() & 0x000F, 0);
    }
}

#[test]
fn ld_there_and_back_leaves_both_registers_with_the_source() {
    for y in [0u8, 1, 2, 3, 4, 5, 7] {
        for z in [0u8, 1, 2, 3, 4, 5, 7] {
            let mut cpu = cpu_with(&[0x40 | y << 3 | z, 0x40 | z << 3 | y]);
            fill(&mut cpu);
            let source = get(&cpu, z);
            assert!(cpu.emulate_instruction().is_some());
            let there: Vec<u8> = (0..8).map(|r| get(&cpu, r)).collect();
            assert!(cpu.emulate_instruction().is_some());
            let back: Vec<u8> = (0..8).map(|r| get(&cpu, r)).collect();
            assert_eq!(there, back);
            assert_eq!(get(&cpu, y), source);
            assert_eq!(get(&cpu, z), source);
        }
    }
}

#[test]
fn ld_there_and_back_restores_equal_registers() {
    let mut cpu = cpu_with(&[0x41, 0x48]);
    cpu.reg.set_b(0x5A);
    cpu.reg.set_c(0x5A);
    let before = cpu.get_state();
    cpu.emulate_instruction();
    cpu.emulate_instruction();
    let after = cpu.get_state();
    assert_eq!(before[..35], after[..35]);
    let mut cpu = cpu_with(&[0x41, 0x48]);
    cpu.reg.set_b(0x01);
    cpu.reg.set_c(0x02);
    cpu.emulate_instruction();
    cpu.emulate_instruction();
    assert_eq!((cpu.reg.get_b(), cpu.reg.get_c()), (0x02, 0x02));
}

#[test]
fn rlc_then_rrc_is_the_identity() {
    for v in 0..=255u8 {
        for carry in [false, true] {
            let mut cpu = cpu_with(&[0xCB, 0x02, 0xCB, 0x0A, 0xCB, 0x0A, 0xCB, 0x02]);
            cpu.reg.set_d(v);
            cpu.reg.set_carry_flag(carry);
            cpu.emulate_instruction();
            assert_eq!(cpu.reg.get_d(), v.rotate_left(1));
            cpu.emulate_instruction();
            assert_eq!(cpu.reg.get_d(), v);
            cpu.emulate_instruction();
            assert_eq!(cpu.reg.get_d(), v.rotate_right(1));
            cpu.emulate_instruction();
            assert_eq!(cpu.reg.get_d(), v);
        }
    }
}

#[test]
fn xor_a_and_sub_a_clear_a() {
    for a in 0..=255u8 {
        for f in [0x00u8, 0xF0] {
            let mut cpu = cpu_with(&[0xAF]);
            cpu.reg.set_a(a);
            cpu.reg.set_f(f);
            cpu.emulate_instruction();
            assert_eq!(cpu.reg.get_af(), 0x0080);
            let mut cpu = cpu_with(&[0x97]);
            cpu.reg.set_a(a);
            cpu.reg.set_f(f);
            cpu.emulate_instruction();
            assert_eq!(cpu.reg.get_af(), 0x00C0);
        }
    }
}

#[test]
fn daa_after_add_gives_the_decimal_sum() {
    for x in 0..100u8 {
        for y in 0..100u8 {
            for carry in [false, true] {
                let a = (x / 10) << 4 | x % 10;
                let b = (y / 10) << 4 | y % 10;
                let mut cpu = cpu_with(&[0x88, 0x27]);
                cpu.reg.set_a(a);
                cpu.reg.set_b(b);
                cpu.reg.set_carry_flag(carry);
                cpu.emulate_instruction();
                cpu.emulate_instruction();
                let total = x as u16 + y as u16 + carry as u16;
                let r = cpu.reg.get_a();
                assert!(r >> 4 <= 9 && r & 0x0F <= 9);
                assert_eq!((r >> 4) as u16 * 10 + (r & 0x0F) as u16, total % 100);
                assert_eq!(cpu.reg.get_carry_flag(), total > 99);
                assert_eq!(cpu.reg.get_zero_flag(), total % 100 == 0);
                assert!(!cpu.reg.get_half_carry_flag());
            }
        }
    }
}

#[test]
fn daa_after_sub_gives_the_decimal_difference() {
    for x in 0..100u8 {
        for y in 0..100u8 {
            let a = (x / 10) << 4 | x % 10;
            let b = (y / 10) << 4 | y % 10;
            let mut cpu = cpu_with(&[0x90, 0x27]);
            cpu.reg.set_a(a);
            cpu.reg.set_b(b);
            cpu.emulate_instruction();
            cpu.emulate_instruction();
            let difference = (100 + x as u16 - y as u16) % 100;
            let r = cpu.reg.get_a();
            assert_eq!((r >> 4) as u16 * 10 + (r & 0x0F) as u16, difference);
            assert_eq!(cpu.reg.get_carry_flag(), x < y);
        }
    }
}

#[test]
fn push_then_pop_restores_the_value() {
    for sp in [0xFFFEu16, 0xD000, 0xC002, 0xE100, 0xFF90, 0x0000, 0xA000, 0xA002] {
        for value in [0x0000u16, 0x1234, 0xFFFF, 0x80F1] {
            let mut cpu = cpu_with(&[0xC5, 0xD1, 0xC5, 0xF1]);
            cpu.write8(0x0000, 0x0A);
            cpu.reg.set_sp(sp);
            cpu.reg.set_bc(value);
            cpu.emulate_instruction();
            assert_eq!(cpu.reg.get_sp(), sp.wrapping_sub(2));
            cpu.emulate_instruction();
            assert_eq!(cpu.reg.get_de(), value);
            assert_eq!(cpu.reg.get_sp(), sp);
            cpu.emulate_instruction();
            cpu.emulate_instruction();
            assert_eq!(cpu.reg.get_af(), value & 0xFFF0);
            assert_eq!(cpu.reg.get_sp(), sp);
            assert_eq!(cpu.reg.get_bc(), value);
        }
    }
}

#[test]
fn push_then_pop_loses_the_value_on_a_stack_in_rom() {
    let mut cpu = cpu_with(&[0xC5, 0xD1]);
    cpu.reg.set_sp(0x2000);
    cpu.reg.set_bc(0x1234);
    cpu.emulate_instruction();
    cpu.emulate_instruction();
    assert_eq!(cpu.reg.get_de(), 0x0000);
    assert_eq!(cpu.reg.get_sp(), 0x2000);
}

#[test]
fn pc_and_sp_wrap_within_sixteen_bits() {
    let mut cpu = cpu_with(&[]);
    cpu.reg.set_pc(0xFFFF);
    cpu.write8(0xFFFF, 0x00);
    assert_eq!(cpu.emulate_instruction(), Some(0x00));
    assert_eq!(cpu.reg.get_pc(), 0x0000);
    let mut cpu = cpu_with(&[0xC1, 0x33, 0x3B, 0x3B]);
    cpu.reg.set_sp(0xFFFF);
    cpu.emulate_instruction();
    assert_eq!(cpu.reg.get_sp(), 0x0001);
    cpu.reg.set_sp(0xFFFF);
    cpu.emulate_instruction();
    assert_eq!(cpu.reg.get_sp(), 0x0000);
    cpu.emulate_instruction();
    assert_eq!(cpu.reg.get_sp(), 0xFFFF);
    let mut cpu = cpu_with(&[0x18, 0x7F]);
    cpu.reg.set_pc(0x0100);
    cpu.emulate_instruction();
    assert_eq!(cpu.reg.get_pc(), 0x0181);
}

#[test]
fn memory_that_holds_writes_reads_them_back() {
    let mut mmu = MMU::new(ROM::new(vec![0u8; 0x8000]));
    mmu.set_gpu_state(pgbr::enums::GpuMode::HBlank, 0);
    for addr in [0x8000u16, 0x9FFF, 0xC000, 0xCFFF, 0xD000, 0xDFFF, 0xE000, 0xFDFF, 0xFE00, 0xFE9F, 0xFF80, 0xFFFE, 0xFFFF] {
        let before = mmu.read8(addr.wrapping_add(1));
        let below = mmu.read8(addr.wrapping_sub(1));
        mmu.write8(addr, 0xA5);
        assert_eq!(mmu.read8(addr), 0xA5, "at {:04X}", addr);
        assert_eq!(mmu.read8(addr.wrapping_add(1)), before, "after {:04X}", addr);
        assert_eq!(mmu.read8(addr.wrapping_sub(1)), below, "before {:04X}", addr);
        mmu.write8(addr, 0x00);
    }
    mmu.write16(0xDFFF, 0xBEEF);
    assert_eq!(mmu.read16(0xDFFF), 0xBEEF);
    mmu.write16(0xFFFE, 0x1234);
    assert_eq!(mmu.read16(0xFFFE), 0x1234);
}

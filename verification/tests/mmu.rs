use pgbr::enums::{GBModel, GpuMode};
use pgbr::mmu::memorymap::MemoryMap;
use pgbr::mmu::{LCDControlFlags, LCDC_BG_ENABLE, LCDC_POWER, MMU};
use pgbr::rom::ROM;

fn bus(cart_type: u8) -> MMU {
    let mut bytes = vec![0u8; 0x10000];
    for b in 0..4 {
        bytes[b * 0x4000 + 0x10] = 0xB0 + b as u8;
    }
    bytes[0x147] = cart_type;
    MMU::new(ROM::new(bytes))
}

#[test]
fn regions_have_inclusive_bounds() {
    assert_eq!(MemoryMap::<0x8000, 0x9FFF>::start(), 0x8000);
    assert_eq!(MemoryMap::<0x8000, 0x9FFF>::end(), 0x9FFF);
    assert_eq!(MemoryMap::<0x8000, 0x9FFF>::size(), 0x2000);
    assert_eq!(MemoryMap::<0xFF80, 0xFFFE>::size(), 127);
    assert_eq!(MemoryMap::<0xFE00, 0xFE9F>::size(), 160);
    assert_eq!(MemoryMap::<0xFFFF, 0xFFFF>::size(), 1);
    assert_eq!(MemoryMap::<0x0000, 0xFFFF>::size(), 0x10000);
    assert_eq!(MemoryMap::<0x0010, 0x000F>::size(), 0);
    assert!(MemoryMap::<0x8000, 0x9FFF>::contains(0x8000));
    assert!(MemoryMap::<0x8000, 0x9FFF>::contains(0x9FFF));
    assert!(!MemoryMap::<0x8000, 0x9FFF>::contains(0x7FFF));
    assert!(!MemoryMap::<0x8000, 0x9FFF>::contains(0xA000));
    assert!(!MemoryMap::<0x0010, 0x000F>::contains(0x0010));
}

#[test]
fn lcd_control_flags_keep_every_bit() {
    let flags = LCDControlFlags::from_bits_retain(0x81);
    assert_eq!(flags.bits(), 0x81);
    assert!(flags.contains(LCDControlFlags::from_bits_retain(LCDC_POWER)));
    assert!(flags.contains(LCDControlFlags::from_bits_retain(LCDC_BG_ENABLE)));
    assert!(flags.contains(LCDControlFlags::from_bits_retain(LCDC_POWER | LCDC_BG_ENABLE)));
    assert!(!flags.contains(LCDControlFlags::from_bits_retain(0x82)));
    assert!(flags.contains(LCDControlFlags::from_bits_retain(0)));
    assert!(!LCDControlFlags::from_bits_retain(0x7F).contains(LCDControlFlags::from_bits_retain(LCDC_POWER)));
}

#[test]
fn models_with_banked_ram() {
    assert!(!GBModel::GB.has_banked_ram());
    assert!(!GBModel::GBP.has_banked_ram());
    assert!(!GBModel::SGB.has_banked_ram());
    assert!(!GBModel::SGB2.has_banked_ram());
    assert!(GBModel::GBC.has_banked_ram());
    assert!(GBModel::GBA.has_banked_ram());
    assert!(GBModel::GBASP.has_banked_ram());
    assert_eq!(GpuMode::HBlank.bits(), 0);
    assert_eq!(GpuMode::VBlank.bits(), 1);
    assert_eq!(GpuMode::ScanOAM.bits(), 2);
    assert_eq!(GpuMode::ScanVRAM.bits(), 3);
}

#[test]
fn rom_region_reads_the_cartridge() {
    let mut mmu = bus(0x01);
    assert_eq!(mmu.read8(0x0010), 0xB0);
    assert_eq!(mmu.read8(0x4010), 0xB1);
    mmu.write8(0x2000, 3);
    assert_eq!(mmu.read8(0x4010), 0xB3);
    assert_eq!(mmu.read8(0x0010), 0xB0);
    mmu.set_cart_inserted(false);
    assert_eq!(mmu.read8(0x0010), 0xFF);
    assert_eq!(mmu.read8(0x4010), 0xFF);
    mmu.write8(0x2000, 2);
    mmu.set_cart_inserted(true);
    assert_eq!(mmu.read8(0x4010), 0xB3);
}

#[test]
fn video_ram_is_locked_while_it_is_scanned() {
    let mut mmu = bus(0x00);
    mmu.write8(0x8000, 0x11);
    mmu.write8(0x9FFF, 0x22);
    assert_eq!(mmu.read8(0x8000), 0x11);
    assert_eq!(mmu.read8(0x9FFF), 0x22);
    mmu.set_gpu_state(GpuMode::ScanVRAM, 0);
    assert_eq!(mmu.read8(0x8000), 0xFF);
    mmu.write8(0x8000, 0x33);
    mmu.set_gpu_state(GpuMode::HBlank, 0);
    assert_eq!(mmu.read8(0x8000), 0x11);
    mmu.set_gpu_state(GpuMode::ScanVRAM, 0);
    mmu.write8(0xFF40, 0x00);
    assert_eq!(mmu.read8(0x8000), 0x11);
    mmu.write8(0x8000, 0x44);
    assert_eq!(mmu.read8(0x8000), 0x44);
}

#[test]
fn object_memory_is_locked_while_the_display_scans() {
    let mut mmu = bus(0x00);
    assert_eq!(mmu.read8(0xFE00), 0xFF);
    mmu.write8(0xFE00, 0x12);
    mmu.set_gpu_state(GpuMode::HBlank, 0);
    assert_eq!(mmu.read8(0xFE00), 0x00);
    mmu.write8(0xFE00, 0x34);
    mmu.write8(0xFE9F, 0x56);
    assert_eq!(mmu.read8(0xFE00), 0x34);
    assert_eq!(mmu.read8(0xFE9F), 0x56);
    mmu.set_gpu_state(GpuMode::ScanVRAM, 0);
    assert_eq!(mmu.read8(0xFE00), 0xFF);
    mmu.set_gpu_state(GpuMode::VBlank, 0);
    assert_eq!(mmu.read8(0xFE00), 0x34);
    mmu.set_gpu_state(GpuMode::ScanOAM, 0);
    mmu.write8(0xFF40, 0x7F);
    assert_eq!(mmu.read8(0xFE00), 0x34);
}

#[test]
fn unused_region_reads_zero() {
    let mut mmu = bus(0x00);
    mmu.write8(0xFEA0, 0x55);
    mmu.write8(0xFEFF, 0x55);
    assert_eq!(mmu.read8(0xFEA0), 0);
    assert_eq!(mmu.read8(0xFEFF), 0);
}

#[test]
fn cartridge_ram_goes_through_the_mapper() {
    let mut mmu = bus(0x03);
    assert_eq!(mmu.read8(0xA000), 0xFF);
    mmu.write8(0xA000, 0x12);
    mmu.write8(0x0000, 0x0A);
    assert_eq!(mmu.read8(0xA000), 0x00);
    mmu.write8(0xA000, 0x34);
    mmu.write8(0xBFFF, 0x56);
    assert_eq!(mmu.read8(0xA000), 0x34);
    assert_eq!(mmu.read8(0xBFFF), 0x56);
}

#[test]
fn work_ram_and_its_echo() {
    let mut mmu = bus(0x00);
    mmu.write8(0xC000, 0x01);
    mmu.write8(0xCFFF, 0x02);
    mmu.write8(0xD000, 0x03);
    mmu.write8(0xDFFF, 0x04);
    assert_eq!(mmu.read8(0xC000), 0x01);
    assert_eq!(mmu.read8(0xCFFF), 0x02);
    assert_eq!(mmu.read8(0xD000), 0x03);
    assert_eq!(mmu.read8(0xDFFF), 0x04);
    assert_eq!(mmu.read8(0xE000), 0x01);
    assert_eq!(mmu.read8(0xEFFF), 0x02);
    assert_eq!(mmu.read8(0xF000), 0x03);
    mmu.write8(0xE123, 0x77);
    assert_eq!(mmu.read8(0xC123), 0x77);
    mmu.write8(0xFDFF, 0x88);
    assert_eq!(mmu.read8(0xDDFF), 0x88);
    assert_eq!(mmu.read8(0xFDFF), 0x88);
}

#[test]
fn echo_in_duplicate_mode_also_drives_cartridge_ram() {
    let mut mmu = bus(0x03);
    mmu.write8(0x0000, 0x0A);
    mmu.set_duplicate_mode(true);
    mmu.write8(0xE010, 0x5A);
    assert_eq!(mmu.read8(0xC010), 0x5A);
    assert_eq!(mmu.read8(0xA010), 0x5A);
    assert_eq!(mmu.read8(0xE010), 0x5A);
    mmu.write8(0xA010, 0x0F);
    assert_eq!(mmu.read8(0xE010), 0x0A);
    mmu.set_duplicate_mode(false);
    assert_eq!(mmu.read8(0xE010), 0x5A);
    mmu.write8(0xE010, 0x11);
    assert_eq!(mmu.read8(0xA010), 0x0F);
}

#[test]
fn work_ram_banks_of_the_colour_models() {
    let mut mmu = bus(0x00);
    mmu.write8(0xFF70, 0x02);
    mmu.write8(0xD000, 0xAA);
    mmu.write8(0xFF70, 0x03);
    assert_eq!(mmu.read8(0xD000), 0xAA);
    mmu.set_model(GBModel::GBC, true);
    assert_eq!(mmu.model(), GBModel::GBC);
    assert!(mmu.gbc_mode());
    assert_eq!(mmu.read8(0xD000), 0x00);
    mmu.write8(0xD000, 0xBB);
    mmu.write8(0xFF70, 0x01);
    assert_eq!(mmu.read8(0xD000), 0xAA);
    mmu.write8(0xFF70, 0x0B);
    assert_eq!(mmu.read8(0xFF70), 0xFB);
    assert_eq!(mmu.read8(0xD000), 0xBB);
    mmu.write8(0xFF70, 0x07);
    assert_eq!(mmu.read8(0xD000), 0x00);
    assert_eq!(mmu.read8(0xC000), 0x00);
}

#[test]
fn video_ram_banks_of_the_colour_models() {
    let mut mmu = bus(0x00);
    assert_eq!(mmu.read8(0xFF4F), 0xFF);
    mmu.write8(0x8000, 0x11);
    mmu.write8(0xFF4F, 0xFE);
    assert_eq!(mmu.read8(0xFF4F), 0xFE);
    assert_eq!(mmu.read8(0x8000), 0x11);
    mmu.set_model(GBModel::GBA, true);
    assert_eq!(mmu.read8(0x8000), 0x11);
    mmu.write8(0xFF4F, 0x01);
    assert_eq!(mmu.read8(0x8000), 0x00);
    mmu.write8(0x8000, 0x22);
    mmu.write8(0xFF4F, 0x00);
    assert_eq!(mmu.read8(0x8000), 0x11);
}

#[test]
fn high_ram_and_interrupt_enable() {
    let mut mmu = bus(0x00);
    mmu.write8(0xFF80, 0x01);
    mmu.write8(0xFFFE, 0x02);
    mmu.write8(0xFFFF, 0x1F);
    assert_eq!(mmu.read8(0xFF80), 0x01);
    assert_eq!(mmu.read8(0xFFFE), 0x02);
    assert_eq!(mmu.read8(0xFFFF), 0x1F);
    assert_eq!(mmu.interrupt_enable(), 0x1F);
}

#[test]
fn interrupt_flags() {
    let mut mmu = bus(0x00);
    assert_eq!(mmu.read8(0xFF0F), 0x00);
    mmu.request_interrupt(0x01);
    mmu.request_interrupt(0x04);
    assert_eq!(mmu.read8(0xFF0F), 0x05);
    assert_eq!(mmu.interrupt_flag(), 0x05);
    assert_eq!(mmu.get_requested_and_enabled_interrupts(), 0x00);
    mmu.write8(0xFFFF, 0xFC);
    assert_eq!(mmu.get_requested_and_enabled_interrupts(), 0x04);
    mmu.clear_interrupt(0x04);
    assert_eq!(mmu.read8(0xFF0F), 0x01);
    mmu.write8(0xFF0F, 0xE0);
    mmu.write8(0xFFFF, 0xFF);
    assert_eq!(mmu.get_requested_and_enabled_interrupts(), 0x00);
    mmu.write8(0xFF0F, 0xFF);
    assert_eq!(mmu.get_requested_and_enabled_interrupts(), 0x1F);
}

#[test]
fn lcd_registers() {
    let mut mmu = bus(0x00);
    assert_eq!(mmu.read8(0xFF40), 0x80);
    mmu.write8(0xFF40, 0x91);
    assert_eq!(mmu.read8(0xFF40), 0x91);
    mmu.write8(0xFF42, 0x12);
    mmu.write8(0xFF43, 0x34);
    assert_eq!(mmu.read8(0xFF42), 0x12);
    assert_eq!(mmu.read8(0xFF43), 0x34);
    mmu.set_gpu_state(GpuMode::VBlank, 0x90);
    assert_eq!(mmu.read8(0xFF44), 0x90);
    mmu.write8(0xFF44, 0x00);
    assert_eq!(mmu.read8(0xFF44), 0x90);
    mmu.write8(0xFF45, 0x90);
    assert_eq!(mmu.read8(0xFF45), 0x90);
    mmu.write8(0xFF47, 0xE4);
    assert_eq!(mmu.read8(0xFF47), 0xFF);
}

#[test]
fn lcd_status_register() {
    let mut mmu = bus(0x00);
    assert_eq!(mmu.read8(0xFF41), 0x04 | 0x02);
    mmu.write8(0xFF45, 0x05);
    assert_eq!(mmu.read8(0xFF41), 0x02);
    mmu.set_gpu_state(GpuMode::ScanVRAM, 0x05);
    assert_eq!(mmu.read8(0xFF41), 0x04 | 0x03);
    mmu.write8(0xFF41, 0xFF);
    assert_eq!(mmu.read8(0xFF41), 0x78 | 0x04 | 0x03);
    mmu.write8(0xFF41, 0x28);
    mmu.set_gpu_state(GpuMode::HBlank, 0x06);
    assert_eq!(mmu.read8(0xFF41), 0x28);
    mmu.write8(0xFF41, 0x50);
    mmu.set_gpu_state(GpuMode::VBlank, 0x06);
    assert_eq!(mmu.read8(0xFF41), 0x51);
    mmu.write8(0xFF40, 0x00);
    assert_eq!(mmu.read8(0xFF41), 0x51);
}

#[test]
fn serial_writes_reach_the_sink() {
    let mut mmu = bus(0x00);
    mmu.write8(0xFF01, b'O');
    mmu.write8(0xFF01, b'K');
    assert_eq!(mmu.read8(0xFF01), 0xFF);
    assert_eq!(mmu.take_serial(), vec![b'O', b'K']);
    assert_eq!(mmu.take_serial(), Vec::<u8>::new());
    mmu.write8(0xFF01, b'!');
    assert_eq!(mmu.take_serial(), vec![b'!']);
}

#[test]
fn unmapped_io_reads_ff() {
    let mut mmu = bus(0x00);
    for addr in [0xFF00u16, 0xFF02, 0xFF04, 0xFF10, 0xFF46, 0xFF48, 0xFF50, 0xFF7F] {
        mmu.write8(addr, 0x12);
        assert_eq!(mmu.read8(addr), 0xFF);
    }
}

#[test]
fn sixteen_bit_values_are_little_endian() {
    let mut mmu = bus(0x00);
    mmu.write16(0xC000, 0x1234);
    assert_eq!(mmu.read8(0xC000), 0x34);
    assert_eq!(mmu.read8(0xC001), 0x12);
    assert_eq!(mmu.read16(0xC000), 0x1234);
    mmu.write8(0xC002, 0xCD);
    mmu.write8(0xC003, 0xAB);
    assert_eq!(mmu.read16(0xC002), 0xABCD);
    mmu.write16(0xFFFF, 0x0A1F);
    assert_eq!(mmu.read8(0xFFFF), 0x1F);
    assert_eq!(mmu.read16(0xFFFF), 0x1F | (mmu.read8(0x0000) as u16) << 8);
    assert_eq!(mmu.read16(0x0010), 0x00B0);
}

pub mod laws;
pub mod memorymap;

use crate::bits::{lemma_pair_exec, pair};
use crate::enums::{GBModel, GpuMode};
use crate::mmu::memorymap::MemoryMap;
use crate::rom::{RomView, ROM};
use vstd::prelude::*;

verus! {

pub type ROM0 = MemoryMap<0x0000, 0x3FFF>;

pub type ROMX = MemoryMap<0x4000, 0x7FFF>;

pub type VRAM = MemoryMap<0x8000, 0x9FFF>;

pub type SRAM = MemoryMap<0xA000, 0xBFFF>;

pub type WRAM0 = MemoryMap<0xC000, 0xCFFF>;

pub type WRAMX = MemoryMap<0xD000, 0xDFFF>;

pub type ECHO = MemoryMap<0xE000, 0xFDFF>;

pub type OAM = MemoryMap<0xFE00, 0xFE9F>;

pub type UNUSED = MemoryMap<0xFEA0, 0xFEFF>;

pub type IO = MemoryMap<0xFF00, 0xFF7F>;

pub type HRAM = MemoryMap<0xFF80, 0xFFFE>;

pub type IE = MemoryMap<0xFFFF, 0xFFFF>;

/// The size of a work RAM bank.
pub const WRAM_BANK_SIZE: usize = 0x1000;

/// The number of work RAM banks.
pub const WRAM_BANKS: usize = 8;

/// The size of a video RAM bank.
pub const VRAM_BANK_SIZE: usize = 0x2000;

/// The number of video RAM banks.
pub const VRAM_BANKS: usize = 2;

/// The size of high RAM.
pub const HRAM_SIZE: usize = 127;

/// The size of object attribute memory.
pub const OAM_SIZE: usize = 160;

/// The bit of the LCD control register that switches the display on.
pub const LCDC_POWER: u8 = 0b1000_0000;

pub const LCDC_WINDOW_TILES: u8 = 0b0100_0000;

pub const LCDC_WINDOW_ENABLE: u8 = 0b0010_0000;

pub const LCDC_BG_WINDOW_TILESET: u8 = 0b0001_0000;

pub const LCDC_BG_TILEMAP: u8 = 0b0000_1000;

pub const LCDC_SPRITE_SIZE: u8 = 0b0000_0100;

pub const LCDC_SPRITE_ENABLE: u8 = 0b0000_0010;

pub const LCDC_BG_ENABLE: u8 = 0b0000_0001;

/// The LCD control register as a set of flags. Every bit of the byte is kept.
#[derive(Debug, Clone, Copy, PartialEq, Eq, Structural)]
pub struct LCDControlFlags {
    pub bits: u8,
}

impl LCDControlFlags {
    /// Whether every flag of `other` is in this set.
    pub open spec fn spec_contains(self, other: LCDControlFlags) -> bool {
        self.bits & other.bits == other.bits
    }

    pub open spec fn power() -> LCDControlFlags {
        LCDControlFlags { bits: LCDC_POWER }
    }

    pub fn from_bits_retain(bits: u8) -> (r: Self)
        ensures
            r.bits == bits,
    {
        LCDControlFlags { bits }
    }

    pub fn bits(&self) -> (r: u8)
        ensures
            r == self.bits,
    {
        self.bits
    }

    pub fn contains(&self, other: LCDControlFlags) -> (r: bool)
        ensures
            r == self.spec_contains(other),
    {
        self.bits & other.bits == other.bits
    }
}

/// The memory behind the bus and the registers that decide what an address reaches.
pub struct MmuView {
    pub rom: RomView,
    pub wram_bank: u8,
    pub wram: Seq<Seq<u8>>,
    pub vram_bank: u8,
    pub vram: Seq<Seq<u8>>,
    pub hram: Seq<u8>,
    pub oam: Seq<u8>,
    pub interrupt_enable: u8,
    pub interrupt_flag: u8,
    pub model: GBModel,
    pub gbc_mode: bool,
    pub unused_memory_duplicate_mode: bool,
    pub cart_inserted: bool,
    pub gpu_mode: GpuMode,
    pub gpu_line: u8,
    pub scroll_x: u8,
    pub scroll_y: u8,
    pub lcd_control: LCDControlFlags,
    pub lyc_check_enable: bool,
    pub lyc_compare: u8,
    pub mode2_oam_check_enable: bool,
    pub mode1_vblank_check_enable: bool,
    pub mode0_hblank_check_enable: bool,
    /// The bytes written to the serial data register and not yet taken out.
    pub serial: Seq<u8>,
}

impl MmuView {
    pub open spec fn wf(self) -> bool {
        &&& self.rom.wf()
        &&& self.wram.len() == WRAM_BANKS
        &&& forall|b: int| 0 <= b < self.wram.len() ==> (#[trigger] self.wram[b]).len() == WRAM_BANK_SIZE
        &&& self.vram.len() == VRAM_BANKS
        &&& forall|b: int| 0 <= b < self.vram.len() ==> (#[trigger] self.vram[b]).len() == VRAM_BANK_SIZE
        &&& self.hram.len() == HRAM_SIZE
        &&& self.oam.len() == OAM_SIZE
    }

    /// The bus at power-on, around the cartridge `rom`: a first-generation Game Boy with the display
    /// on and scanning, all memory zero.
    pub open spec fn power_on(rom: RomView) -> MmuView {
        MmuView {
            rom,
            wram_bank: 1,
            wram: Seq::new(WRAM_BANKS as nat, |b: int| Seq::new(WRAM_BANK_SIZE as nat, |j: int| 0u8)),
            vram_bank: 1,
            vram: Seq::new(VRAM_BANKS as nat, |b: int| Seq::new(VRAM_BANK_SIZE as nat, |j: int| 0u8)),
            hram: Seq::new(HRAM_SIZE as nat, |j: int| 0u8),
            oam: Seq::new(OAM_SIZE as nat, |j: int| 0u8),
            interrupt_enable: 0,
            interrupt_flag: 0,
            model: GBModel::GB,
            gbc_mode: false,
            unused_memory_duplicate_mode: false,
            cart_inserted: true,
            gpu_mode: GpuMode::ScanOAM,
            gpu_line: 0,
            scroll_x: 0,
            scroll_y: 0,
            lcd_control: LCDControlFlags::power(),
            lyc_check_enable: false,
            lyc_compare: 0,
            mode2_oam_check_enable: false,
            mode1_vblank_check_enable: false,
            mode0_hblank_check_enable: false,
            serial: Seq::empty(),
        }
    }

    pub open spec fn lcd_on(self) -> bool {
        self.lcd_control.spec_contains(LCDControlFlags::power())
    }

    /// While the display is on and the LCD controller reads video RAM, the bus cannot.
    pub open spec fn vram_locked(self) -> bool {
        self.lcd_on() && self.gpu_mode == GpuMode::ScanVRAM
    }

    /// While the display is on and the LCD controller scans, the bus cannot reach object
    /// attribute memory.
    pub open spec fn oam_locked(self) -> bool {
        self.lcd_on() && (self.gpu_mode == GpuMode::ScanOAM || self.gpu_mode == GpuMode::ScanVRAM)
    }

    /// The video RAM bank that the bus reaches: bank 0 on the models without banked RAM.
    pub open spec fn selected_vram_bank(self) -> int {
        if self.model.spec_has_banked_ram() {
            self.vram_bank as int % VRAM_BANKS as int
        } else {
            0
        }
    }

    /// The work RAM bank that shows from 0xD000 on: bank 1 on the models without banked RAM.
    pub open spec fn selected_wram_bank(self) -> int {
        if self.model.spec_has_banked_ram() {
            self.wram_bank as int % WRAM_BANKS as int
        } else {
            1
        }
    }

    /// The interrupts that are both requested and enabled, one bit each.
    pub open spec fn pending_interrupts(self) -> u8 {
        self.interrupt_enable & self.interrupt_flag & 0x1F
    }

    /// The LCD status register: the four interrupt selections in bits 3 to 6, the line
    /// comparison in bit 2 and the mode of the LCD controller in bits 0 and 1.
    pub open spec fn stat(self) -> u8 {
        (if self.lyc_check_enable { 0x40u8 } else { 0u8 })
        | (if self.mode2_oam_check_enable { 0x20u8 } else { 0u8 })
        | (if self.mode1_vblank_check_enable { 0x10u8 } else { 0u8 })
        | (if self.mode0_hblank_check_enable { 0x08u8 } else { 0u8 })
        | (if self.lyc_compare == self.gpu_line { 0x04u8 } else { 0u8 })
        | self.gpu_mode.spec_bits()
    }

    /// Reads work RAM at an address from 0xC000 to 0xDFFF.
    pub open spec fn read_wram(self, addr: u16) -> u8 {
        if addr < 0xD000 {
            self.wram[0][addr - 0xC000]
        } else {
            self.wram[self.selected_wram_bank()][addr - 0xD000]
        }
    }

    pub open spec fn ioread(self, addr: u16) -> u8 {
        if addr == 0xFF0F {
            self.interrupt_flag
        } else if addr == 0xFF40 {
            self.lcd_control.bits
        } else if addr == 0xFF41 {
            self.stat()
        } else if addr == 0xFF42 {
            self.scroll_y
        } else if addr == 0xFF43 {
            self.scroll_x
        } else if addr == 0xFF44 {
            self.gpu_line
        } else if addr == 0xFF45 {
            self.lyc_compare
        } else if addr == 0xFF4F {
            0xFE | self.vram_bank
        } else if addr == 0xFF70 {
            0xF8 | self.wram_bank
        } else {
            0xFF
        }
    }

    /// What the bus reads at `addr`.
    #[verifier::opaque]
    pub open spec fn read8(self, addr: u16) -> u8 {
        if ROM0::spec_contains(addr) || ROMX::spec_contains(addr) {
            if self.cart_inserted {
                self.rom.read(addr)
            } else {
                0xFF
            }
        } else if VRAM::spec_contains(addr) {
            if self.vram_locked() {
                0xFF
            } else {
                self.vram[self.selected_vram_bank()][addr - 0x8000]
            }
        } else if SRAM::spec_contains(addr) {
            self.rom.read_sram((addr - 0xA000) as u16)
        } else if WRAM0::spec_contains(addr) || WRAMX::spec_contains(addr) {
            self.read_wram(addr)
        } else if ECHO::spec_contains(addr) {
            if self.unused_memory_duplicate_mode {
                self.read_wram((addr - 0x2000) as u16) & self.rom.read_sram((addr - 0xE000) as u16)
            } else {
                self.read_wram((addr - 0x2000) as u16)
            }
        } else if OAM::spec_contains(addr) {
            if self.oam_locked() {
                0xFF
            } else {
                self.oam[addr - 0xFE00]
            }
        } else if UNUSED::spec_contains(addr) {
            0
        } else if IO::spec_contains(addr) {
            self.ioread(addr)
        } else if HRAM::spec_contains(addr) {
            self.hram[addr - 0xFF80]
        } else {
            self.interrupt_enable
        }
    }

    /// The 16-bit value at `addr`, low byte first. The second byte of a value at 0xFFFF is
    /// the one at 0x0000.
    pub open spec fn read16(self, addr: u16) -> u16 {
        pair(self.read8(addr.wrapping_add(1)), self.read8(addr))
    }

    /// Writes work RAM at an address from 0xC000 to 0xDFFF.
    pub open spec fn write_wram(self, addr: u16, value: u8) -> MmuView {
        if addr < 0xD000 {
            MmuView { wram: self.wram.update(0, self.wram[0].update(addr - 0xC000, value)), ..self }
        } else {
            MmuView {
                wram: self.wram.update(
                    self.selected_wram_bank(),
                    self.wram[self.selected_wram_bank()].update(addr - 0xD000, value),
                ),
                ..self
            }
        }
    }

    /// Writes video RAM at an address from 0x8000 to 0x9FFF, unless it is locked.
    pub open spec fn write_vram(self, addr: u16, value: u8) -> MmuView {
        if self.vram_locked() {
            self
        } else {
            MmuView {
                vram: self.vram.update(
                    self.selected_vram_bank(),
                    self.vram[self.selected_vram_bank()].update(addr - 0x8000, value),
                ),
                ..self
            }
        }
    }

    /// Writes object attribute memory at an address from 0xFE00 to 0xFE9F, unless it is locked.
    pub open spec fn write_oam(self, addr: u16, value: u8) -> MmuView {
        if self.oam_locked() {
            self
        } else {
            MmuView { oam: self.oam.update(addr - 0xFE00, value), ..self }
        }
    }

    /// Writes cartridge RAM at an offset into its window.
    pub open spec fn write_sram(self, offset: u16, value: u8) -> MmuView {
        MmuView { rom: self.rom.write_sram(offset, value), ..self }
    }

    pub open spec fn iowrite(self, addr: u16, value: u8) -> MmuView {
        if addr == 0xFF01 {
            MmuView { serial: self.serial.push(value), ..self }
        } else if addr == 0xFF0F {
            MmuView { interrupt_flag: value, ..self }
        } else if addr == 0xFF40 {
            MmuView { lcd_control: LCDControlFlags { bits: value }, ..self }
        } else if addr == 0xFF41 {
            MmuView {
                lyc_check_enable: value & 0x40 != 0,
                mode2_oam_check_enable: value & 0x20 != 0,
                mode1_vblank_check_enable: value & 0x10 != 0,
                mode0_hblank_check_enable: value & 0x08 != 0,
                ..self
            }
        } else if addr == 0xFF42 {
            MmuView { scroll_y: value, ..self }
        } else if addr == 0xFF43 {
            MmuView { scroll_x: value, ..self }
        } else if addr == 0xFF45 {
            MmuView { lyc_compare: value, ..self }
        } else if addr == 0xFF4F {
            MmuView { vram_bank: value & 0x01, ..self }
        } else if addr == 0xFF70 {
            MmuView { wram_bank: value & 0x07, ..self }
        } else {
            self
        }
    }

    /// The bus after a write of `value` to `addr`.
    #[verifier::opaque]
    pub open spec fn write8(self, addr: u16, value: u8) -> MmuView {
        if ROM0::spec_contains(addr) || ROMX::spec_contains(addr) {
            if self.cart_inserted {
                MmuView { rom: self.rom.write(addr, value), ..self }
            } else {
                self
            }
        } else if VRAM::spec_contains(addr) {
            self.write_vram(addr, value)
        } else if SRAM::spec_contains(addr) {
            self.write_sram((addr - 0xA000) as u16, value)
        } else if WRAM0::spec_contains(addr) || WRAMX::spec_contains(addr) {
            self.write_wram(addr, value)
        } else if ECHO::spec_contains(addr) {
            if self.unused_memory_duplicate_mode {
                self.write_wram((addr - 0x2000) as u16, value).write_sram((addr - 0xE000) as u16, value)
            } else {
                self.write_wram((addr - 0x2000) as u16, value)
            }
        } else if OAM::spec_contains(addr) {
            self.write_oam(addr, value)
        } else if UNUSED::spec_contains(addr) {
            self
        } else if IO::spec_contains(addr) {
            self.iowrite(addr, value)
        } else if HRAM::spec_contains(addr) {
            MmuView { hram: self.hram.update(addr - 0xFF80, value), ..self }
        } else {
            MmuView { interrupt_enable: value, ..self }
        }
    }

    /// The bus after a write of a 16-bit value, low byte first.
    pub open spec fn write16(self, addr: u16, value: u16) -> MmuView {
        self.write8(addr, crate::bits::low_byte(value)).write8(addr.wrapping_add(1), crate::bits::high_byte(value))
    }
}

pub struct MMU {
    rom: ROM,
    wram_bank: u8,
    wram: [[u8; WRAM_BANK_SIZE]; WRAM_BANKS],
    vram_bank: u8,
    vram: [[u8; VRAM_BANK_SIZE]; VRAM_BANKS],
    hram: [u8; HRAM_SIZE],
    oam: [u8; OAM_SIZE],
    interrupt_enable: u8,
    interrupt_flag: u8,
    model: GBModel,
    gbc_mode: bool,
    unused_memory_duplicate_mode: bool,
    cart_inserted: bool,
    gpu_mode: GpuMode,
    gpu_line: u8,
    scroll_x: u8,
    scroll_y: u8,
    lcd_control: LCDControlFlags,
    lyc_check_enable: bool,
    lyc_compare: u8,
    mode2_oam_check_enable: bool,
    mode1_vblank_check_enable: bool,
    mode0_hblank_check_enable: bool,
    serial: Vec<u8>,
}

impl View for MMU {
    type V = MmuView;

    closed spec fn view(&self) -> MmuView {
        MmuView {
            rom: self.rom@,
            wram_bank: self.wram_bank,
            wram: Seq::new(WRAM_BANKS as nat, |b: int| self.wram@[b]@),
            vram_bank: self.vram_bank,
            vram: Seq::new(VRAM_BANKS as nat, |b: int| self.vram@[b]@),
            hram: self.hram@,
            oam: self.oam@,
            interrupt_enable: self.interrupt_enable,
            interrupt_flag: self.interrupt_flag,
            model: self.model,
            gbc_mode: self.gbc_mode,
            unused_memory_duplicate_mode: self.unused_memory_duplicate_mode,
            cart_inserted: self.cart_inserted,
            gpu_mode: self.gpu_mode,
            gpu_line: self.gpu_line,
            scroll_x: self.scroll_x,
            scroll_y: self.scroll_y,
            lcd_control: self.lcd_control,
            lyc_check_enable: self.lyc_check_enable,
            lyc_compare: self.lyc_compare,
            mode2_oam_check_enable: self.mode2_oam_check_enable,
            mode1_vblank_check_enable: self.mode1_vblank_check_enable,
            mode0_hblank_check_enable: self.mode0_hblank_check_enable,
            serial: self.serial@,
        }
    }
}

impl MMU {
    pub fn new(rom: ROM) -> (r: Self)
        ensures
            r@ == MmuView::power_on(rom@),
            r@.wf(),
    {
        let _ = rom.bank_count();
        let r = MMU {
            rom,
            wram_bank: 1,
            wram: [[0u8; WRAM_BANK_SIZE]; WRAM_BANKS],
            vram_bank: 1,
            vram: [[0u8; VRAM_BANK_SIZE]; VRAM_BANKS],
            hram: [0u8; HRAM_SIZE],
            oam: [0u8; OAM_SIZE],
            interrupt_enable: 0,
            interrupt_flag: 0,
            model: GBModel::GB,
            gbc_mode: false,
            unused_memory_duplicate_mode: false,
            cart_inserted: true,
            gpu_mode: GpuMode::ScanOAM,
            gpu_line: 0,
            scroll_x: 0,
            scroll_y: 0,
            lcd_control: LCDControlFlags::from_bits_retain(LCDC_POWER),
            lyc_check_enable: false,
            lyc_compare: 0,
            mode2_oam_check_enable: false,
            mode1_vblank_check_enable: false,
            mode0_hblank_check_enable: false,
            serial: Vec::new(),
        };
        assert(r@.wram =~~= MmuView::power_on(rom@).wram);
        assert(r@.vram =~~= MmuView::power_on(rom@).vram);
        assert(r@.hram =~= MmuView::power_on(rom@).hram);
        assert(r@.oam =~= MmuView::power_on(rom@).oam);
        assert(r@.serial =~= MmuView::power_on(rom@).serial);
        r
    }

    /// The number of ROM banks of the cartridge. Every memory of the bus has its size.
    pub fn rom_bank_count(&self) -> (r: usize)
        ensures
            r == self@.rom.banks.len(),
            r >= 1,
            self@.wf(),
    {
        self.rom.bank_count()
    }

    pub fn interrupt_enable(&self) -> (r: u8)
        ensures
            r == self@.interrupt_enable,
    {
        self.interrupt_enable
    }

    pub fn interrupt_flag(&self) -> (r: u8)
        ensures
            r == self@.interrupt_flag,
    {
        self.interrupt_flag
    }

    pub fn model(&self) -> (r: GBModel)
        ensures
            r == self@.model,
    {
        self.model
    }

    pub fn gbc_mode(&self) -> (r: bool)
        ensures
            r == self@.gbc_mode,
    {
        self.gbc_mode
    }

    /// Makes the bus that of another model.
    pub fn set_model(&mut self, model: GBModel, gbc_mode: bool)
        ensures
            final(self)@ == (MmuView { model, gbc_mode, ..old(self)@ }),
    {
        self.model = model;
        self.gbc_mode = gbc_mode;
    }

    /// Plugs the cartridge in or pulls it out. Without it the ROM region reads 0xFF.
    pub fn set_cart_inserted(&mut self, inserted: bool)
        ensures
            final(self)@ == (MmuView { cart_inserted: inserted, ..old(self)@ }),
    {
        self.cart_inserted = inserted;
    }

    /// Chooses whether the echo region also drives cartridge RAM.
    pub fn set_duplicate_mode(&mut self, on: bool)
        ensures
            final(self)@ == (MmuView { unused_memory_duplicate_mode: on, ..old(self)@ }),
    {
        self.unused_memory_duplicate_mode = on;
    }

    /// Takes over what the LCD controller shows of itself: its mode and its line.
    pub fn set_gpu_state(&mut self, mode: GpuMode, line: u8)
        ensures
            final(self)@ == (MmuView { gpu_mode: mode, gpu_line: line, ..old(self)@ }),
    {
        self.gpu_mode = mode;
        self.gpu_line = line;
    }

    /// Requests the interrupts whose bits are set in `mask`.
    pub fn request_interrupt(&mut self, mask: u8)
        ensures
            final(self)@ == (MmuView { interrupt_flag: old(self)@.interrupt_flag | mask, ..old(self)@ }),
    {
        self.interrupt_flag = self.interrupt_flag | mask;
    }

    /// Withdraws the requests of the interrupts whose bits are set in `mask`.
    pub fn clear_interrupt(&mut self, mask: u8)
        ensures
            final(self)@ == (MmuView { interrupt_flag: old(self)@.interrupt_flag & !mask, ..old(self)@ }),
    {
        self.interrupt_flag = self.interrupt_flag & !mask;
    }

    pub fn get_requested_and_enabled_interrupts(&self) -> (r: u8)
        ensures
            r == self@.pending_interrupts(),
    {
        self.interrupt_enable & self.interrupt_flag & 0x1F
    }

    /// Hands out the bytes written to the serial data register since the last call.
    pub fn take_serial(&mut self) -> (r: Vec<u8>)
        ensures
            r@ == old(self)@.serial,
            final(self)@ == (MmuView { serial: Seq::empty(), ..old(self)@ }),
    {
        let mut out: Vec<u8> = Vec::new();
        std::mem::swap(&mut out, &mut self.serial);
        out
    }

    fn lcd_on(&self) -> (r: bool)
        ensures
            r == self@.lcd_on(),
    {
        self.lcd_control.contains(LCDControlFlags::from_bits_retain(LCDC_POWER))
    }

    fn read_wram(&self, addr: u16) -> (r: u8)
        requires
            0xC000 <= addr < 0xE000,
        ensures
            r == self@.read_wram(addr),
    {
        if WRAM0::contains(addr) {
            self.wram[0][(addr - WRAM0::start()) as usize]
        } else {
            let bank: u8 = if self.model.has_banked_ram() {
                self.wram_bank
            } else {
                1
            };
            self.wram[bank as usize % WRAM_BANKS][(addr - WRAMX::start()) as usize]
        }
    }

    fn write_wram(&mut self, addr: u16, value: u8)
        requires
            0xC000 <= addr < 0xE000,
        ensures
            final(self)@ == old(self)@.write_wram(addr, value),
    {
        if WRAM0::contains(addr) {
            self.wram[0][(addr - WRAM0::start()) as usize] = value;
        } else {
            let bank: u8 = if self.model.has_banked_ram() {
                self.wram_bank
            } else {
                1
            };
            self.wram[bank as usize % WRAM_BANKS][(addr - WRAMX::start()) as usize] = value;
        }
        assert(self@.wram =~~= old(self)@.write_wram(addr, value).wram);
        assert(self@.vram =~~= old(self)@.vram);
    }

    pub fn read8(&self, addr: u16) -> (r: u8)
        ensures
            r == self@.read8(addr),
    {
        proof {
            reveal(MmuView::read8);
        }
        if ROM0::contains(addr) {
            if !self.cart_inserted {
                0xFF
            } else {
                self.rom.read(addr)
            }
        } else if ROMX::contains(addr) {
            if !self.cart_inserted {
                0xFF
            } else {
                self.rom.read(addr)
            }
        } else if VRAM::contains(addr) {
            if self.lcd_on() && self.gpu_mode == GpuMode::ScanVRAM {
                0xFF
            } else {
                let bank: usize = if self.model.has_banked_ram() {
                    self.vram_bank as usize % VRAM_BANKS
                } else {
                    0
                };
                self.vram[bank][(addr - VRAM::start()) as usize]
            }
        } else if SRAM::contains(addr) {
            self.rom.read_sram(addr - SRAM::start())
        } else if WRAM0::contains(addr) || WRAMX::contains(addr) {
            self.read_wram(addr)
        } else if ECHO::contains(addr) {
            let wram: u8 = self.read_wram(addr - ECHO::start() + WRAM0::start());
            if self.unused_memory_duplicate_mode {
                let sram: u8 = self.rom.read_sram(addr - ECHO::start());
                wram & sram
            } else {
                wram
            }
        } else if OAM::contains(addr) {
            if self.lcd_on() && (self.gpu_mode == GpuMode::ScanOAM || self.gpu_mode == GpuMode::ScanVRAM) {
                0xFF
            } else {
                self.oam[(addr - OAM::start()) as usize]
            }
        } else if UNUSED::contains(addr) {
            0
        } else if IO::contains(addr) {
            self.ioread(addr)
        } else if HRAM::contains(addr) {
            self.hram[(addr - HRAM::start()) as usize]
        } else {
            self.interrupt_enable
        }
    }

    pub fn write8(&mut self, addr: u16, value: u8)
        ensures
            final(self)@ == old(self)@.write8(addr, value),
    {
        proof {
            reveal(MmuView::write8);
        }
        if ROM0::contains(addr) || ROMX::contains(addr) {
            if self.cart_inserted {
                self.rom.write(addr, value);
            }
        } else if VRAM::contains(addr) {
            self.write_vram(addr, value);
        } else if SRAM::contains(addr) {
            self.write_sram(addr - SRAM::start(), value);
        } else if WRAM0::contains(addr) || WRAMX::contains(addr) {
            self.write_wram(addr, value);
        } else if ECHO::contains(addr) {
            self.write_wram(addr - ECHO::start() + WRAM0::start(), value);
            if self.unused_memory_duplicate_mode {
                self.write_sram(addr - ECHO::start(), value);
            }
        } else if OAM::contains(addr) {
            self.write_oam(addr, value);
        } else if UNUSED::contains(addr) {
        } else if IO::contains(addr) {
            self.iowrite(addr, value);
        } else if HRAM::contains(addr) {
            self.write_hram(addr, value);
        } else {
            self.interrupt_enable = value;
        }
    }

    fn write_vram(&mut self, addr: u16, value: u8)
        requires
            0x8000 <= addr < 0xA000,
        ensures
            final(self)@ == old(self)@.write_vram(addr, value),
    {
        if !self.lcd_on() || self.gpu_mode != GpuMode::ScanVRAM {
            let bank: usize = if self.model.has_banked_ram() {
                self.vram_bank as usize % VRAM_BANKS
            } else {
                0
            };
            self.vram[bank][(addr - VRAM::start()) as usize] = value;
            assert(self@.vram =~~= old(self)@.write_vram(addr, value).vram);
            assert(self@.wram =~~= old(self)@.wram);
        }
    }

    fn write_oam(&mut self, addr: u16, value: u8)
        requires
            0xFE00 <= addr < 0xFEA0,
        ensures
            final(self)@ == old(self)@.write_oam(addr, value),
    {
        if !self.lcd_on() || (self.gpu_mode != GpuMode::ScanOAM && self.gpu_mode != GpuMode::ScanVRAM) {
            self.oam[(addr - OAM::start()) as usize] = value;
        }
    }

    fn write_hram(&mut self, addr: u16, value: u8)
        requires
            0xFF80 <= addr < 0xFFFF,
        ensures
            final(self)@ == (MmuView { hram: old(self)@.hram.update(addr - 0xFF80, value), ..old(self)@ }),
    {
        self.hram[(addr - HRAM::start()) as usize] = value;
    }

    fn write_sram(&mut self, offset: u16, value: u8)
        ensures
            final(self)@ == old(self)@.write_sram(offset, value),
    {
        self.rom.write_sram(offset, value);
    }

    pub fn read16(&self, addr: u16) -> (r: u16)
        ensures
            r == self@.read16(addr),
    {
        let lo: u8 = self.read8(addr);
        let hi: u8 = self.read8(addr.wrapping_add(1));
        proof {
            lemma_pair_exec(0, hi, lo);
        }
        ((hi as u16) << 8) | (lo as u16)
    }

    pub fn write16(&mut self, addr: u16, value: u16)
        ensures
            final(self)@ == old(self)@.write16(addr, value),
    {
        proof {
            lemma_pair_exec(value, 0, 0);
        }
        self.write8(addr, value as u8);
        self.write8(addr.wrapping_add(1), (value >> 8) as u8);
    }

    fn iowrite(&mut self, addr: u16, value: u8)
        ensures
            final(self)@ == old(self)@.iowrite(addr, value),
    {
        match addr {
            0xFF01 => {
                self.serial.push(value);
            },
            0xFF0F => {
                self.interrupt_flag = value;
            },
            0xFF40 => {
                self.lcd_control = LCDControlFlags::from_bits_retain(value);
            },
            0xFF41 => {
                self.lyc_check_enable = (value & 0x40) != 0;
                self.mode2_oam_check_enable = (value & 0x20) != 0;
                self.mode1_vblank_check_enable = (value & 0x10) != 0;
                self.mode0_hblank_check_enable = (value & 0x08) != 0;
            },
            0xFF42 => {
                self.scroll_y = value;
            },
            0xFF43 => {
                self.scroll_x = value;
            },
            0xFF45 => {
                self.lyc_compare = value;
            },
            0xFF4F => {
                self.vram_bank = value & 0x01;
            },
            0xFF70 => {
                self.wram_bank = value & 0x07;
            },
            _ => {},
        }
    }

    fn ioread(&self, addr: u16) -> (r: u8)
        ensures
            r == self@.ioread(addr),
    {
        match addr {
            0xFF0F => self.interrupt_flag,
            0xFF40 => self.lcd_control.bits(),
            0xFF41 => {
                let mut res: u8 = 0;
                if self.lyc_check_enable {
                    res |= 0x40;
                }
                if self.mode2_oam_check_enable {
                    res |= 0x20;
                }
                if self.mode1_vblank_check_enable {
                    res |= 0x10;
                }
                if self.mode0_hblank_check_enable {
                    res |= 0x08;
                }
                if self.lyc_compare == self.gpu_line {
                    res |= 0x04;
                }
                res |= self.gpu_mode.bits();
                proof {
                    lemma_stat_bits(
                        self.lyc_check_enable,
                        self.mode2_oam_check_enable,
                        self.mode1_vblank_check_enable,
                        self.mode0_hblank_check_enable,
                        self.lyc_compare == self.gpu_line,
                        self.gpu_mode.spec_bits(),
                    );
                }
                res
            },
            0xFF42 => self.scroll_y,
            0xFF43 => self.scroll_x,
            0xFF44 => self.gpu_line,
            0xFF45 => self.lyc_compare,
            0xFF4F => 0xFE | self.vram_bank,
            0xFF70 => 0xF8 | self.wram_bank,
            _ => 0xFF,
        }
    }
}

proof fn lemma_stat_bits(b6: bool, b5: bool, b4: bool, b3: bool, b2: bool, mode: u8)
    by (bit_vector)
    ensures
        (if b6 { 0x40u8 } else { 0u8 }) | (if b5 { 0x20u8 } else { 0u8 }) | (if b4 { 0x10u8 } else { 0u8 }) | (if b3 {
            0x08u8
        } else {
            0u8
        }) | (if b2 { 0x04u8 } else { 0u8 }) | mode == {
            let r0 = 0u8;
            let r1 = if b6 { r0 | 0x40 } else { r0 };
            let r2 = if b5 { r1 | 0x20 } else { r1 };
            let r3 = if b4 { r2 | 0x10 } else { r2 };
            let r4 = if b3 { r3 | 0x08 } else { r3 };
            let r5 = if b2 { r4 | 0x04 } else { r4 };
            r5 | mode
        },
{
}

} // verus!

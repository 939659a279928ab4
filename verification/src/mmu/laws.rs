use crate::bits::{high_byte, low_byte};
use crate::mmu::{MmuView, ECHO, HRAM, IE, OAM, SRAM, VRAM, WRAM0, WRAMX};
use vstd::prelude::*;

verus! {

impl MmuView {
    /// Whether `addr` reaches memory that gives back what is written to it: work RAM and its
    /// echo, high RAM, the interrupt enable register, video RAM and object attribute memory
    /// while they are not locked, and cartridge RAM while it is enabled.
    pub open spec fn holds_writes(self, addr: u16) -> bool {
        ||| VRAM::spec_contains(addr) && !self.vram_locked()
        ||| SRAM::spec_contains(addr) && self.rom.sram_enabled
        ||| WRAM0::spec_contains(addr)
        ||| WRAMX::spec_contains(addr)
        ||| ECHO::spec_contains(addr)
        ||| OAM::spec_contains(addr) && !self.oam_locked()
        ||| HRAM::spec_contains(addr)
        ||| IE::spec_contains(addr)
    }
}

/// A write to the bus keeps every memory at its size.
pub proof fn lemma_write_keeps_wf(m: MmuView, addr: u16, value: u8, wide: u16)
    requires
        m.wf(),
    ensures
        m.write8(addr, value).wf(),
        m.write16(addr, wide).wf(),
{
    lemma_write8_keeps_wf(m, addr, value);
    lemma_write8_keeps_wf(m, addr, low_byte(wide));
    lemma_write8_keeps_wf(m.write8(addr, low_byte(wide)), addr.wrapping_add(1), high_byte(wide));
}

proof fn lemma_write8_keeps_wf(m: MmuView, addr: u16, value: u8)
    requires
        m.wf(),
    ensures
        m.write8(addr, value).wf(),
{
    reveal(MmuView::write8);
    crate::rom::lemma_write_keeps_memory(m.rom, addr, value);
    if SRAM::spec_contains(addr) {
        crate::rom::lemma_write_sram_keeps_shape(m.rom, (addr - 0xA000) as u16, value);
    }
    if ECHO::spec_contains(addr) {
        crate::rom::lemma_write_sram_keeps_shape(m.rom, (addr - 0xE000) as u16, value);
    }
}

/// Memory that holds writes gives back the byte that was written to it.
pub proof fn lemma_write_then_read(m: MmuView, addr: u16, value: u8)
    requires
        m.wf(),
        m.holds_writes(addr),
    ensures
        m.write8(addr, value).read8(addr) == value,
{
    reveal(MmuView::write8);
    reveal(MmuView::read8);
    if ECHO::spec_contains(addr) {
        assert(value & value == value && value & 0xFF == value) by (bit_vector);
    }
}

/// A write to memory that holds writes changes no register, so that the same memory holds
/// writes afterwards.
pub proof fn lemma_write_keeps_gates(m: MmuView, addr: u16, value: u8, other: u16)
    requires
        m.wf(),
        m.holds_writes(addr),
    ensures
        m.write8(addr, value).holds_writes(other) == m.holds_writes(other),
{
    reveal(MmuView::write8);
    let after = m.write8(addr, value);
    assert(after.lcd_control == m.lcd_control);
    assert(after.gpu_mode == m.gpu_mode);
    assert(after.rom.sram_enabled == m.rom.sram_enabled);
}

proof fn lemma_neighbours_of_video(m: MmuView, addr: u16, value: u8, other: u16)
    requires
        m.wf(),
        VRAM::spec_contains(addr) && !m.vram_locked(),
        other == addr.wrapping_add(1) || other == addr.wrapping_sub(1),
    ensures
        m.write8(addr, value).read8(other) == m.read8(other),
{
    reveal(MmuView::write8);
    reveal(MmuView::read8);
}

proof fn lemma_neighbours_of_cartridge(m: MmuView, addr: u16, value: u8, other: u16)
    requires
        m.wf(),
        SRAM::spec_contains(addr) && m.rom.sram_enabled,
        other == addr.wrapping_add(1) || other == addr.wrapping_sub(1),
    ensures
        m.write8(addr, value).read8(other) == m.read8(other),
{
    reveal(MmuView::write8);
    reveal(MmuView::read8);
}

proof fn lemma_neighbours_of_work(m: MmuView, addr: u16, value: u8, other: u16)
    requires
        m.wf(),
        WRAM0::spec_contains(addr) || WRAMX::spec_contains(addr),
        other == addr.wrapping_add(1) || other == addr.wrapping_sub(1),
    ensures
        m.write8(addr, value).read8(other) == m.read8(other),
{
    reveal(MmuView::write8);
    reveal(MmuView::read8);
}

proof fn lemma_neighbours_of_echo(m: MmuView, addr: u16, value: u8, other: u16)
    requires
        m.wf(),
        ECHO::spec_contains(addr),
        other == addr.wrapping_add(1) || other == addr.wrapping_sub(1),
    ensures
        m.write8(addr, value).read8(other) == m.read8(other),
{
    reveal(MmuView::write8);
    reveal(MmuView::read8);
}

proof fn lemma_neighbours_of_objects(m: MmuView, addr: u16, value: u8, other: u16)
    requires
        m.wf(),
        OAM::spec_contains(addr) && !m.oam_locked(),
        other == addr.wrapping_add(1) || other == addr.wrapping_sub(1),
    ensures
        m.write8(addr, value).read8(other) == m.read8(other),
{
    reveal(MmuView::write8);
    reveal(MmuView::read8);
}

proof fn lemma_neighbours_of_high(m: MmuView, addr: u16, value: u8, other: u16)
    requires
        m.wf(),
        HRAM::spec_contains(addr) || IE::spec_contains(addr),
        other == addr.wrapping_add(1) || other == addr.wrapping_sub(1),
    ensures
        m.write8(addr, value).read8(other) == m.read8(other),
{
    reveal(MmuView::write8);
    reveal(MmuView::read8);
}

/// A write to memory that holds writes leaves the byte before it and the byte after it as
/// they were.
pub proof fn lemma_write_keeps_neighbours(m: MmuView, addr: u16, value: u8, other: u16)
    requires
        m.wf(),
        m.holds_writes(addr),
        other == addr.wrapping_add(1) || other == addr.wrapping_sub(1),
    ensures
        m.write8(addr, value).read8(other) == m.read8(other),
{
    if VRAM::spec_contains(addr) {
        lemma_neighbours_of_video(m, addr, value, other);
    } else if SRAM::spec_contains(addr) {
        lemma_neighbours_of_cartridge(m, addr, value, other);
    } else if WRAM0::spec_contains(addr) || WRAMX::spec_contains(addr) {
        lemma_neighbours_of_work(m, addr, value, other);
    } else if ECHO::spec_contains(addr) {
        lemma_neighbours_of_echo(m, addr, value, other);
    } else if OAM::spec_contains(addr) {
        lemma_neighbours_of_objects(m, addr, value, other);
    } else {
        lemma_neighbours_of_high(m, addr, value, other);
    }
}

/// Memory that holds writes gives back the 16-bit value that was written to it.
pub proof fn lemma_write16_then_read16(m: MmuView, addr: u16, value: u16)
    requires
        m.wf(),
        m.holds_writes(addr),
        m.holds_writes(addr.wrapping_add(1)),
    ensures
        m.write16(addr, value).read16(addr) == value,
{
    let next = addr.wrapping_add(1);
    let first = m.write8(addr, low_byte(value));
    let second = first.write8(next, high_byte(value));
    lemma_write8_keeps_wf(m, addr, low_byte(value));
    lemma_write_then_read(m, addr, low_byte(value));
    lemma_write_keeps_gates(m, addr, low_byte(value), next);
    lemma_write_then_read(first, next, high_byte(value));
    lemma_write_keeps_neighbours(first, next, high_byte(value), addr);
    assert(addr == next.wrapping_sub(1));
    crate::bits::lemma_pair_split(value);
}

} // verus!

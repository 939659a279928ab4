use vstd::prelude::*;

verus! {

/// The phase of the LCD controller, as far as it gates access to video memory.
#[derive(Debug, PartialEq, Eq, Structural, Copy, Clone)]
pub enum GpuMode {
    ScanOAM,
    ScanVRAM,
    HBlank,
    VBlank,
}

impl GpuMode {
    /// The two-bit mode number that the LCD status register reports.
    pub open spec fn spec_bits(self) -> u8 {
        match self {
            GpuMode::HBlank => 0,
            GpuMode::VBlank => 1,
            GpuMode::ScanOAM => 2,
            GpuMode::ScanVRAM => 3,
        }
    }

    pub fn bits(self) -> (r: u8)
        ensures
            r == self.spec_bits(),
            r < 4,
    {
        match self {
            GpuMode::HBlank => 0,
            GpuMode::VBlank => 1,
            GpuMode::ScanOAM => 2,
            GpuMode::ScanVRAM => 3,
        }
    }
}

#[derive(Debug, PartialEq, Eq, Structural, Copy, Clone)]
pub enum BackgroundMode {
    BG,
    WINDOW,
}

#[derive(Debug, PartialEq, Eq, Structural, Copy, Clone)]
pub enum GBModel {
    /// The first Game Boy (DMG).
    GB,
    /// Game Boy Pocket / Game Boy Light (MGB).
    GBP,
    /// Super Game Boy.
    SGB,
    /// Super Game Boy 2.
    SGB2,
    /// Game Boy Color.
    GBC,
    /// Game Boy Advance.
    GBA,
    /// Game Boy Advance SP.
    GBASP,
}

impl GBModel {
    /// Models from the Game Boy Color on have switchable work and video RAM banks.
    pub open spec fn spec_has_banked_ram(self) -> bool {
        self == GBModel::GBC || self == GBModel::GBA || self == GBModel::GBASP
    }

    pub fn has_banked_ram(&self) -> (r: bool)
        ensures
            r == self.spec_has_banked_ram(),
    {
        match self {
            GBModel::GBC | GBModel::GBA | GBModel::GBASP => true,
            _ => false,
        }
    }
}

} // verus!

use crate::enums::GBModel;
use vstd::prelude::*;

verus! {

/// The values that the boot program leaves in the eight 8-bit registers.
#[derive(Debug, PartialEq, Eq, Structural, Copy, Clone)]
pub struct InitParams {
    pub a: u8,
    pub f: u8,
    pub b: u8,
    pub c: u8,
    pub d: u8,
    pub e: u8,
    pub h: u8,
    pub l: u8,
}

impl InitParams {
    /// The seed of each model; the colour models have one for each of their two modes.
    pub open spec fn spec_for_model(model: GBModel, gbc_mode: bool) -> InitParams {
        match model {
            GBModel::GB => InitParams { a: 0x01, f: 0xB0, b: 0x00, c: 0x13, d: 0x00, e: 0xD8, h: 0x01, l: 0x4D },
            GBModel::GBP => InitParams { a: 0xFF, f: 0xB0, b: 0x00, c: 0x13, d: 0x00, e: 0xD8, h: 0x01, l: 0x4D },
            GBModel::SGB => InitParams { a: 0x01, f: 0x00, b: 0x00, c: 0x14, d: 0x00, e: 0x00, h: 0xC0, l: 0x60 },
            GBModel::SGB2 => InitParams { a: 0xFF, f: 0x00, b: 0x00, c: 0x14, d: 0x00, e: 0x00, h: 0xC0, l: 0x60 },
            GBModel::GBC => if gbc_mode {
                InitParams { a: 0x11, f: 0x80, b: 0x00, c: 0x00, d: 0xFF, e: 0x56, h: 0x00, l: 0x0D }
            } else {
                InitParams { a: 0x11, f: 0x80, b: 0x00, c: 0x00, d: 0x00, e: 0x08, h: 0x00, l: 0x7C }
            },
            GBModel::GBA | GBModel::GBASP => if gbc_mode {
                InitParams { a: 0x11, f: 0x00, b: 0x01, c: 0x00, d: 0xFF, e: 0x56, h: 0x00, l: 0x0D }
            } else {
                InitParams { a: 0x11, f: 0x00, b: 0x01, c: 0x00, d: 0x00, e: 0x08, h: 0x00, l: 0x7C }
            },
        }
    }

    pub fn for_model(model: GBModel, gbc_mode: bool) -> (r: InitParams)
        ensures
            r == Self::spec_for_model(model, gbc_mode),
    {
        match model {
            GBModel::GB => InitParams { a: 0x01, f: 0xB0, b: 0x00, c: 0x13, d: 0x00, e: 0xD8, h: 0x01, l: 0x4D },
            GBModel::GBP => InitParams { a: 0xFF, f: 0xB0, b: 0x00, c: 0x13, d: 0x00, e: 0xD8, h: 0x01, l: 0x4D },
            GBModel::SGB => InitParams { a: 0x01, f: 0x00, b: 0x00, c: 0x14, d: 0x00, e: 0x00, h: 0xC0, l: 0x60 },
            GBModel::SGB2 => InitParams { a: 0xFF, f: 0x00, b: 0x00, c: 0x14, d: 0x00, e: 0x00, h: 0xC0, l: 0x60 },
            GBModel::GBC => if gbc_mode {
                InitParams { a: 0x11, f: 0x80, b: 0x00, c: 0x00, d: 0xFF, e: 0x56, h: 0x00, l: 0x0D }
            } else {
                InitParams { a: 0x11, f: 0x80, b: 0x00, c: 0x00, d: 0x00, e: 0x08, h: 0x00, l: 0x7C }
            },
            GBModel::GBA | GBModel::GBASP => if gbc_mode {
                InitParams { a: 0x11, f: 0x00, b: 0x01, c: 0x00, d: 0xFF, e: 0x56, h: 0x00, l: 0x0D }
            } else {
                InitParams { a: 0x11, f: 0x00, b: 0x01, c: 0x00, d: 0x00, e: 0x08, h: 0x00, l: 0x7C }
            },
        }
    }
}

} // verus!

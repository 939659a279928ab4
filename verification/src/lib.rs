//! The core of a Game Boy emulator: the SM83 processor with its interrupts and its cycle
//! count, the bus with its address map, and the cartridge with its bank controllers.
//!
//! Each part has a model, a record of plain values with the functions that say what the
//! part does, and an implementation whose contracts are stated over that model.

pub mod bits;
pub mod cpu;
pub mod enums;
pub mod mmu;
pub mod rom;

use vstd::prelude::*;

use crate::cartridge::{ConsoleType, Region};

verus! {

/// Everything that can go wrong while loading a cartridge or a saved state.
#[derive(Debug, PartialEq, Eq, Structural)]
pub enum NesError {
    /// The iNES 2.0 binary format is not supported.
    Ines2Unsupported,
    /// iNES trainers are not supported.
    TrainerUnsupported,
    /// The mapper with this number is not supported.
    UnSupportedMapper(u32),
    /// The console type is not supported.
    ConsoleUnsupported(ConsoleType),
    /// The region is not supported.
    RegionUnsupported(Region),
    /// The provided file is not a valid iNES ROM.
    InvalidInesFormat,
    /// Games with both CHR RAM and ROM are not supported.
    ChrRomAndRamUnsupported,
    /// The ROM file is corrupted.
    RomCorrupted,
    /// The saved state is corrupted or was made by an incompatible version.
    InvalidSaveState,
    /// The NES 2.0 XML game database contains invalid data.
    GameDbFormat,
}

} // verus!

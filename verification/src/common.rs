//! Shared vocabulary of the memory fabric: bus masters, mirroring modes,
//! mapping outcomes and save-state errors.

use vstd::prelude::*;

verus! {

/// Which bus master is issuing a memory access. The CPU and PPU address
/// spaces overlap numerically but mean different things, so every bus
/// operation carries this tag.
#[derive(Clone, Copy, Debug, PartialEq, Eq, Structural)]
pub enum Device {
    Cpu,
    Ppu,
}

/// How the four logical name-table quadrants fold onto the physical VRAM
/// blocks. Either hardwired at cartridge load or derived from mapper
/// control-register bits.
#[derive(Clone, Copy, Debug, PartialEq, Eq, Structural)]
pub enum MirroringMode {
    Vertical,
    Horizontal,
    SingleScreenLowBank,
    SingleScreenHighBank,
    FourScreen,
}

/// Outcome of translating a bus address through a mapper: a physical offset
/// into the corresponding storage, or a denied ("open bus") access. Denied
/// is not an error: a read returns a placeholder and a write is ignored.
#[derive(Clone, Copy, Debug, PartialEq, Eq, Structural)]
pub enum MappingResult {
    Allowed(usize),
    Denied,
}

/// Errors surfaced when restoring serialized state. Translation-level
/// denials never escalate; only malformed save data reaches callers.
#[derive(Clone, Copy, Debug, PartialEq, Eq, Structural)]
pub enum SaveError {
    /// The byte stream is shorter or longer than the state it should hold,
    /// or its recorded bank geometry does not match the loaded cartridge.
    WrongSize,
    /// Bytes remain after the whole state was consumed: a foreign or
    /// corrupted save stream.
    ContainExtraData,
}

} // verus!

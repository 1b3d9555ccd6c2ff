//! The closed set of bank-switching chips a cartridge can carry, dispatched
//! as a tagged union. `init`, translation and save/restore are the only
//! crossing points, so further chip models can be added without touching
//! bus code.

use vstd::prelude::*;

use crate::common::{Device, MappingResult, MirroringMode, SaveError};
use crate::mapper1::Mapper1;
use crate::mapper3::Mapper3;

verus! {

/// One bank-switching chip, of whichever board variant the cartridge uses
/// for its whole lifetime.
pub enum AnyMapper {
    Mapper1(Mapper1),
    Mapper3(Mapper3),
}

impl AnyMapper {
    /// The chip's geometry has been seeded by `init`.
    pub open spec fn wf(self) -> bool {
        match self {
            AnyMapper::Mapper1(m) => m.wf(),
            AnyMapper::Mapper3(m) => m.wf(),
        }
    }

    /// Bytes of PRG ROM the chip's geometry addresses.
    pub open spec fn prg_size(self) -> int {
        match self {
            AnyMapper::Mapper1(m) => m.prg_size(),
            AnyMapper::Mapper3(m) => m.prg_size(),
        }
    }

    /// Bytes of CHR storage the chip's geometry addresses.
    pub open spec fn chr_size(self) -> int {
        match self {
            AnyMapper::Mapper1(m) => m.chr_size(),
            AnyMapper::Mapper3(m) => m.chr_size(),
        }
    }

    /// Bytes of PRG RAM the chip's geometry addresses.
    pub open spec fn prg_ram_size(self) -> int {
        match self {
            AnyMapper::Mapper1(m) => m.prg_ram_size(),
            AnyMapper::Mapper3(_) => 0,
        }
    }

    /// Whether CHR storage is RAM.
    pub open spec fn chr_is_ram(self) -> bool {
        match self {
            AnyMapper::Mapper1(m) => m.is_chr_ram,
            AnyMapper::Mapper3(m) => m.is_chr_ram,
        }
    }

    /// Whether mirroring is fixed by the cartridge header rather than by
    /// chip registers.
    pub open spec fn spec_is_hardwired_mirrored(self) -> bool {
        match self {
            AnyMapper::Mapper1(_) => false,
            AnyMapper::Mapper3(_) => true,
        }
    }

    /// The register-driven mirroring mode; only meaningful when mirroring
    /// is not hardwired.
    pub open spec fn spec_nametable_mirroring(self) -> MirroringMode {
        match self {
            AnyMapper::Mapper1(m) => m.spec_nametable_mirroring(),
            AnyMapper::Mapper3(_) => MirroringMode::Vertical,
        }
    }

    /// What a read maps to.
    pub open spec fn spec_map_read(self, address: u16, device: Device) -> MappingResult {
        match self {
            AnyMapper::Mapper1(m) => m.spec_map_read(address, device),
            AnyMapper::Mapper3(m) => m.spec_map_read(address, device),
        }
    }

    /// The chip state after a write.
    pub open spec fn spec_map_write_state(
        self,
        address: u16,
        data: u8,
        device: Device,
    ) -> AnyMapper {
        match self {
            AnyMapper::Mapper1(m) => AnyMapper::Mapper1(
                m.spec_map_write_state(address, data, device),
            ),
            AnyMapper::Mapper3(m) => AnyMapper::Mapper3(
                m.spec_map_write_state(address, data, device),
            ),
        }
    }

    /// What a write maps to.
    pub open spec fn spec_map_write_result(self, address: u16, device: Device) -> MappingResult {
        match self {
            AnyMapper::Mapper1(m) => m.spec_map_write_result(address, device),
            AnyMapper::Mapper3(m) => m.spec_map_write_result(address, device),
        }
    }

    /// The storage a mapped offset points into, by access.
    pub open spec fn spec_target_size(self, address: u16, device: Device) -> int {
        match self {
            AnyMapper::Mapper1(m) => m.spec_target_size(address, device),
            AnyMapper::Mapper3(m) => m.spec_target_size(address, device),
        }
    }

    /// The register bytes and cached geometry, in the chip's save order.
    pub open spec fn spec_save(self) -> Seq<u8> {
        match self {
            AnyMapper::Mapper1(m) => m.spec_save(),
            AnyMapper::Mapper3(m) => m.spec_save(),
        }
    }

    /// The geometry arguments `init` accepts for this chip.
    pub open spec fn spec_init_allowed(self, prg_count: u8, chr_count: u8) -> bool {
        match self {
            AnyMapper::Mapper1(_) => 1 <= prg_count && 1 <= chr_count && chr_count * 2 <= 255,
            AnyMapper::Mapper3(_) => (prg_count == 1 || prg_count == 2) && 1 <= chr_count,
        }
    }

    /// The chip state after `init`.
    pub open spec fn spec_init_state(
        self,
        prg_count: u8,
        is_chr_ram: bool,
        chr_count: u8,
        sram_count: u8,
    ) -> AnyMapper {
        match self {
            AnyMapper::Mapper1(m) => AnyMapper::Mapper1(
                Mapper1 {
                    writing_shift_register: 0b10000,
                    control_register: 0b11100,
                    prg_bank: (prg_count - 1) as u8,
                    is_chr_ram,
                    chr_count: (chr_count * 2) as u8,
                    prg_count,
                    prg_ram_count: sram_count,
                    ..m
                },
            ),
            AnyMapper::Mapper3(m) => AnyMapper::Mapper3(
                Mapper3 {
                    has_32kb_prg_rom: prg_count == 2,
                    chr_bank: m.chr_bank,
                    chr_count,
                    is_chr_ram,
                },
            ),
        }
    }

    /// Whether CHR storage is RAM, and so part of the mutable state a save
    /// stream carries.
    pub fn is_chr_ram(&self) -> (r: bool)
        ensures
            r == self.chr_is_ram(),
    {
        match self {
            AnyMapper::Mapper1(m) => m.is_chr_ram,
            AnyMapper::Mapper3(m) => m.is_chr_ram,
        }
    }

    /// Seeds power-up register state and the bank geometry derived from the
    /// ROM header; called exactly once per cartridge load.
    pub fn init(&mut self, prg_count: u8, is_chr_ram: bool, chr_count: u8, sram_count: u8)
        requires
            old(self).spec_init_allowed(prg_count, chr_count),
        ensures
            *final(self) == old(self).spec_init_state(prg_count, is_chr_ram, chr_count, sram_count),
            final(self).wf(),
    {
        match self {
            AnyMapper::Mapper1(m) => m.init(prg_count, is_chr_ram, chr_count, sram_count),
            AnyMapper::Mapper3(m) => m.init(prg_count, is_chr_ram, chr_count, sram_count),
        }
    }

    /// Translates a read through the chip.
    pub fn map_read(&self, address: u16, device: Device) -> (r: MappingResult)
        requires
            self.wf(),
            device == Device::Cpu ==> 0x4020 <= address,
            device == Device::Ppu ==> address < 0x2000,
        ensures
            r == self.spec_map_read(address, device),
            r matches MappingResult::Allowed(o) ==> o < self.spec_target_size(address, device),
    {
        match self {
            AnyMapper::Mapper1(m) => m.map_read(address, device),
            AnyMapper::Mapper3(m) => m.map_read(address, device),
        }
    }

    /// Translates a write through the chip, stepping its registers.
    pub fn map_write(&mut self, address: u16, data: u8, device: Device) -> (r: MappingResult)
        requires
            old(self).wf(),
            device == Device::Cpu ==> 0x4020 <= address,
        ensures
            *final(self) == old(self).spec_map_write_state(address, data, device),
            final(self).wf(),
            r == old(self).spec_map_write_result(address, device),
            r matches MappingResult::Allowed(o) ==> o < old(self).spec_target_size(
                address,
                device,
            ),
    {
        match self {
            AnyMapper::Mapper1(m) => m.map_write(address, data, device),
            AnyMapper::Mapper3(m) => m.map_write(address, data, device),
        }
    }

    /// Which source governs mirroring: the cartridge header or the chip.
    pub fn is_hardwired_mirrored(&self) -> (r: bool)
        ensures
            r == self.spec_is_hardwired_mirrored(),
    {
        match self {
            AnyMapper::Mapper1(m) => m.is_hardwired_mirrored(),
            AnyMapper::Mapper3(m) => m.is_hardwired_mirrored(),
        }
    }

    /// The register-driven mirroring mode; hardwired chips never reach the
    /// fabric through this call.
    pub fn nametable_mirroring(&self) -> (r: MirroringMode)
        ensures
            r == self.spec_nametable_mirroring(),
    {
        match self {
            AnyMapper::Mapper1(m) => m.nametable_mirroring(),
            AnyMapper::Mapper3(_) => MirroringMode::Vertical,
        }
    }

    pub fn save_state_size(&self) -> (r: usize)
        ensures
            r == self.spec_save().len(),
    {
        match self {
            AnyMapper::Mapper1(m) => m.save_state_size(),
            AnyMapper::Mapper3(m) => m.save_state_size(),
        }
    }

    /// Serializes the chip's registers and cached geometry.
    pub fn save_state(&self) -> (r: Vec<u8>)
        ensures
            r@ == self.spec_save(),
    {
        match self {
            AnyMapper::Mapper1(m) => m.save_state(),
            AnyMapper::Mapper3(m) => m.save_state(),
        }
    }

    /// The chip state a save byte sequence denotes, for this chip's
    /// variant.
    pub open spec fn spec_load(self, data: Seq<u8>) -> AnyMapper {
        match self {
            AnyMapper::Mapper1(_) => AnyMapper::Mapper1(Mapper1::spec_load(data)),
            AnyMapper::Mapper3(_) => AnyMapper::Mapper3(Mapper3::spec_load(data)),
        }
    }

    /// Restores the chip from a saved byte vector of exactly its state
    /// size.
    pub fn load_state(&mut self, data: Vec<u8>)
        requires
            data@.len() == old(self).spec_save().len(),
        ensures
            *final(self) == old(self).spec_load(data@),
    {
        match self {
            AnyMapper::Mapper1(m) => m.load_state(data),
            AnyMapper::Mapper3(m) => m.load_state(data),
        }
    }

    /// Whether a save byte sequence carries the same bank geometry as this
    /// chip: restoring such a state cannot detach the chip from the storage
    /// sizes the cartridge was built with.
    pub open spec fn spec_load_matches_geometry(self, data: Seq<u8>) -> bool {
        match self {
            AnyMapper::Mapper1(m) => {
                let l = Mapper1::spec_load(data);
                l.chr_count == m.chr_count && l.prg_count == m.prg_count && l.prg_ram_count
                    == m.prg_ram_count && l.is_chr_ram == m.is_chr_ram
            },
            AnyMapper::Mapper3(m) => {
                let l = Mapper3::spec_load(data);
                l.chr_count == m.chr_count && l.has_32kb_prg_rom == m.has_32kb_prg_rom
                    && l.is_chr_ram == m.is_chr_ram
            },
        }
    }

    /// Restores the chip only from a save that fits it: the buffer must
    /// hold exactly the chip's state size and record the same bank
    /// geometry, else the state is left untouched and the save is rejected
    /// as malformed.
    pub fn load_state_checked(&mut self, data: &Vec<u8>) -> (r: Result<(), SaveError>)
        ensures
            r is Ok <==> (data@.len() == old(self).spec_save().len() && old(
                self,
            ).spec_load_matches_geometry(data@)),
            r is Ok ==> *final(self) == old(self).spec_load(data@),
            r is Err ==> *final(self) == *old(self) && r == Result::<(), SaveError>::Err(
                SaveError::WrongSize,
            ),
            old(self).wf() ==> final(self).wf(),
    {
        match self {
            AnyMapper::Mapper1(m) => {
                if data.len() != 10 {
                    return Err(SaveError::WrongSize);
                }
                if data[5] != m.chr_count || data[6] != m.prg_count || data[7] != m.prg_ram_count
                    || (data[9] != 0) != m.is_chr_ram {
                    return Err(SaveError::WrongSize);
                }
                let mut bytes: Vec<u8> = Vec::new();
                let mut i: usize = 0;
                while i < 10
                    invariant
                        i <= 10,
                        data@.len() == 10,
                        bytes@ == data@.subrange(0, i as int),
                    decreases 10 - i,
                {
                    bytes.push(data[i]);
                    proof {
                        assert(bytes@ =~= data@.subrange(0, i + 1));
                    }
                    i = i + 1;
                }
                proof {
                    assert(bytes@ =~= data@);
                }
                m.load_state(bytes);
                Ok(())
            },
            AnyMapper::Mapper3(m) => {
                if data.len() != 4 {
                    return Err(SaveError::WrongSize);
                }
                if data[1] != m.chr_count || (data[2] != 0) != m.has_32kb_prg_rom || (data[3] != 0)
                    != m.is_chr_ram {
                    return Err(SaveError::WrongSize);
                }
                let mut bytes: Vec<u8> = Vec::new();
                let mut i: usize = 0;
                while i < 4
                    invariant
                        i <= 4,
                        data@.len() == 4,
                        bytes@ == data@.subrange(0, i as int),
                    decreases 4 - i,
                {
                    bytes.push(data[i]);
                    proof {
                        assert(bytes@ =~= data@.subrange(0, i + 1));
                    }
                    i = i + 1;
                }
                proof {
                    assert(bytes@ =~= data@);
                }
                m.load_state(bytes);
                Ok(())
            },
        }
    }
}

} // verus!

//! Latched CHR-bank chip (board variant "3"): PRG is a fixed 32 KiB window,
//! or a mirrored 16 KiB one, and a single latched register selects the
//! 8 KiB CHR bank.

use vstd::prelude::*;

use crate::common::{Device, MappingResult};

verus! {

/// Chip state: one latched CHR-bank register plus the geometry cached by
/// `init`. Mirroring for this chip is always hardwired, sourced from the
/// cartridge header rather than from chip state.
pub struct Mapper3 {
    /// Whether the cartridge carries a full 32 KiB of PRG ROM; with only
    /// 16 KiB present the upper half of the CPU window mirrors the lower.
    pub has_32kb_prg_rom: bool,
    /// The latched CHR bank register, written by any CPU write to
    /// $8000-$FFFF.
    pub chr_bank: u8,
    /// CHR banks, in 8 KiB units.
    pub chr_count: u8,
    /// Whether CHR storage is RAM, and so accepts PPU writes.
    pub is_chr_ram: bool,
}

impl Mapper3 {
    /// Bank geometry has been seeded by `init`.
    pub open spec fn wf(self) -> bool {
        1 <= self.chr_count
    }

    /// Bytes of CHR storage this geometry addresses.
    pub open spec fn chr_size(self) -> int {
        self.chr_count as int * 0x2000
    }

    /// Bytes of PRG ROM this geometry addresses.
    pub open spec fn prg_size(self) -> int {
        if self.has_32kb_prg_rom {
            0x8000
        } else {
            0x4000
        }
    }

    /// The CHR bank register reduced modulo the bank count, so that bank
    /// counts that are not powers of two still map inside storage.
    pub open spec fn spec_chr_bank(self) -> int {
        self.chr_bank as int % self.chr_count as int
    }

    /// Physical CHR offset for a PPU address: start of the selected 8 KiB
    /// bank plus the offset within it.
    pub open spec fn spec_chr_offset(self, address: u16) -> int {
        self.spec_chr_bank() * 0x2000 + (address & 0x1FFF) as int
    }

    /// Physical PRG offset for a CPU address at $8000 and above: one-to-one
    /// into 32 KiB, or folded onto the single 16 KiB bank.
    pub open spec fn spec_prg_offset(self, address: u16) -> int {
        if self.has_32kb_prg_rom {
            (address & 0x7FFF) as int
        } else {
            (address & 0x3FFF) as int
        }
    }

    /// What a read maps to, for every address the decoding tables can hand
    /// this chip.
    pub open spec fn spec_map_read(self, address: u16, device: Device) -> MappingResult {
        match device {
            Device::Cpu => {
                if 0x8000 <= address {
                    MappingResult::Allowed(self.spec_prg_offset(address) as usize)
                } else {
                    // $4020-$7FFF: no PRG RAM on this board
                    MappingResult::Denied
                }
            },
            Device::Ppu => MappingResult::Allowed(self.spec_chr_offset(address) as usize),
        }
    }

    /// The chip state after a write: any CPU write to $8000-$FFFF latches
    /// the CHR bank register, masked to 2 bits when the cartridge carries at
    /// most 4 CHR banks (games may set extraneous high bits expecting that
    /// truncation).
    pub open spec fn spec_map_write_state(self, address: u16, data: u8, device: Device) -> Mapper3 {
        if device == Device::Cpu && 0x8000 <= address {
            if self.chr_count <= 4 {
                Mapper3 { chr_bank: data & 0b11, ..self }
            } else {
                Mapper3 { chr_bank: data, ..self }
            }
        } else {
            self
        }
    }

    /// What a write maps to: CPU writes never reach storage (ROM is never
    /// written through); PPU writes reach CHR only when it is RAM.
    pub open spec fn spec_map_write_result(self, address: u16, device: Device) -> MappingResult {
        match device {
            Device::Cpu => MappingResult::Denied,
            Device::Ppu => {
                if self.is_chr_ram && address <= 0x1FFF {
                    MappingResult::Allowed(self.spec_chr_offset(address) as usize)
                } else {
                    MappingResult::Denied
                }
            },
        }
    }

    /// The storage a mapped offset points into, by access: CHR for the PPU,
    /// PRG ROM for the CPU (this board has no PRG RAM).
    pub open spec fn spec_target_size(self, address: u16, device: Device) -> int {
        match device {
            Device::Cpu => self.prg_size(),
            Device::Ppu => self.chr_size(),
        }
    }

    /// The register bytes and cached geometry, in save order: CHR bank,
    /// CHR count, the 32 KiB-PRG flag, the CHR-RAM flag.
    pub open spec fn spec_save(self) -> Seq<u8> {
        seq![
            self.chr_bank,
            self.chr_count,
            if self.has_32kb_prg_rom { 1u8 } else { 0u8 },
            if self.is_chr_ram { 1u8 } else { 0u8 },
        ]
    }

    /// The chip state a save byte sequence denotes.
    pub open spec fn spec_load(data: Seq<u8>) -> Mapper3
        recommends
            data.len() == 4,
    {
        Mapper3 {
            chr_bank: data[0],
            chr_count: data[1],
            has_32kb_prg_rom: data[2] != 0,
            is_chr_ram: data[3] != 0,
        }
    }

    pub fn new() -> (r: Self)
        ensures
            r == (Mapper3 {
                has_32kb_prg_rom: false,
                chr_bank: 0,
                chr_count: 0,
                is_chr_ram: false,
            }),
    {
        Self { has_32kb_prg_rom: false, chr_bank: 0, chr_count: 0, is_chr_ram: false }
    }

    /// Every allowed CHR mapping lands inside CHR storage, whatever the
    /// register holds and for bank counts that are not powers of two.
    pub proof fn lemma_chr_offset_in_bounds(self, address: u16)
        requires
            self.wf(),
        ensures
            0 <= self.spec_chr_offset(address) < self.chr_size(),
    {
        assert(address & 0x1FFF < 0x2000) by (bit_vector);
        assert(0 <= self.spec_chr_bank() < self.chr_count as int);
    }

    /// Every allowed mapping, read or write, lands inside the corresponding
    /// storage.
    pub proof fn lemma_mapped_offset_in_bounds(self, address: u16, device: Device)
        requires
            self.wf(),
        ensures
            self.spec_map_read(address, device) matches MappingResult::Allowed(o) ==> 0 <= o
                < self.spec_target_size(address, device),
            self.spec_map_write_result(address, device) matches MappingResult::Allowed(o) ==> 0
                <= o < self.spec_target_size(address, device),
    {
        self.lemma_chr_offset_in_bounds(address);
        assert(address & 0x7FFF < 0x8000) by (bit_vector);
        assert(address & 0x3FFF < 0x4000) by (bit_vector);
    }

    /// Loading a saved state restores the chip exactly, so every subsequent
    /// translation behaves as it did when the state was taken.
    pub proof fn lemma_save_state_round_trip(m: Mapper3)
        ensures
            Self::spec_load(m.spec_save()) == m,
            forall|address: u16, device: Device|
                Self::spec_load(m.spec_save()).spec_map_read(address, device) == m.spec_map_read(
                    address,
                    device,
                ),
    {
    }

    fn map_ppu(&self, address: u16) -> (r: MappingResult)
        requires
            self.wf(),
        ensures
            r == MappingResult::Allowed(self.spec_chr_offset(address) as usize),
            self.spec_chr_offset(address) < self.chr_size(),
    {
        proof {
            self.lemma_chr_offset_in_bounds(address);
        }
        let bank: usize = (self.chr_bank as usize) % (self.chr_count as usize);
        let start_of_bank: usize = 0x2000 * bank;
        MappingResult::Allowed(start_of_bank + (address & 0x1FFF) as usize)
    }

    /// Seeds the geometry, called once per cartridge load. The board carries
    /// either one or two 16 KiB PRG banks.
    pub fn init(&mut self, prg_count: u8, is_chr_ram: bool, chr_count: u8, _sram_count: u8)
        requires
            prg_count == 1 || prg_count == 2,
            1 <= chr_count,
        ensures
            *final(self) == (Mapper3 {
                has_32kb_prg_rom: prg_count == 2,
                chr_bank: old(self).chr_bank,
                chr_count,
                is_chr_ram,
            }),
            final(self).wf(),
    {
        self.has_32kb_prg_rom = prg_count == 2;
        self.chr_count = chr_count;
        self.is_chr_ram = is_chr_ram;
    }

    /// Translates a read. The decoding tables only hand this chip CPU
    /// addresses at $4020 and above and PPU addresses below $2000; anything
    /// else is a decoding-table bug, excluded here rather than absorbed.
    pub fn map_read(&self, address: u16, device: Device) -> (r: MappingResult)
        requires
            self.wf(),
            device == Device::Cpu ==> 0x4020 <= address,
            device == Device::Ppu ==> address < 0x2000,
        ensures
            r == self.spec_map_read(address, device),
            r matches MappingResult::Allowed(o) ==> o < self.spec_target_size(address, device),
    {
        proof {
            self.lemma_mapped_offset_in_bounds(address, device);
        }
        match device {
            Device::Cpu => {
                if 0x8000 <= address {
                    // fold $8000-$FFFF onto the PRG array; with 16 KiB of PRG
                    // the upper half mirrors the lower
                    if self.has_32kb_prg_rom {
                        MappingResult::Allowed((address & 0x7FFF) as usize)
                    } else {
                        MappingResult::Allowed((address & 0x3FFF) as usize)
                    }
                } else {
                    MappingResult::Denied
                }
            },
            Device::Ppu => self.map_ppu(address),
        }
    }

    /// Translates a write and latches the CHR bank register on CPU writes to
    /// $8000-$FFFF. A write to ROM space never mutates storage, only the
    /// register, and returns Denied so the caller never writes through.
    pub fn map_write(&mut self, address: u16, data: u8, device: Device) -> (r: MappingResult)
        requires
            old(self).wf(),
            device == Device::Cpu ==> 0x4020 <= address,
        ensures
            *final(self) == old(self).spec_map_write_state(address, data, device),
            final(self).wf(),
            r == old(self).spec_map_write_result(address, device),
            r matches MappingResult::Allowed(o) ==> o < old(self).spec_target_size(
                address,
                device,
            ),
    {
        proof {
            old(self).lemma_mapped_offset_in_bounds(address, device);
        }
        match device {
            Device::Cpu => {
                if 0x8000 <= address {
                    if self.chr_count <= 4 {
                        self.chr_bank = data & 0b11;
                    } else {
                        self.chr_bank = data;
                    }
                }
                MappingResult::Denied
            },
            Device::Ppu => {
                if self.is_chr_ram && address <= 0x1FFF {
                    self.map_ppu(address)
                } else {
                    MappingResult::Denied
                }
            },
        }
    }

    /// This chip never drives mirroring from its registers.
    pub fn is_hardwired_mirrored(&self) -> (r: bool)
        ensures
            r,
    {
        true
    }

    pub fn save_state_size(&self) -> (r: usize)
        ensures
            r == self.spec_save().len(),
    {
        4
    }

    /// Serializes the register and cached geometry. The order is part of the
    /// save-state format; changing it breaks compatibility.
    pub fn save_state(&self) -> (r: Vec<u8>)
        ensures
            r@ == self.spec_save(),
    {
        let mut out: Vec<u8> = Vec::new();
        out.push(self.chr_bank);
        out.push(self.chr_count);
        out.push(if self.has_32kb_prg_rom { 1 } else { 0 });
        out.push(if self.is_chr_ram { 1 } else { 0 });
        proof {
            assert(out@ =~= self.spec_save());
        }
        out
    }

    /// Restores the register and cached geometry from a saved byte vector.
    /// The buffer size is checked by precondition: blind indexing of a wrong
    /// size would silently corrupt state.
    pub fn load_state(&mut self, data: Vec<u8>)
        requires
            data@.len() == old(self).spec_save().len(),
        ensures
            *final(self) == Self::spec_load(data@),
    {
        self.chr_bank = data[0];
        self.chr_count = data[1];
        self.has_32kb_prg_rom = data[2] != 0;
        self.is_chr_ram = data[3] != 0;
    }
}

} // verus!

//! The cartridge: PRG-ROM, CHR and PRG-RAM byte stores plus one mapper
//! chip. It answers both the CPU and the PPU side of the fabric by
//! delegating address translation to the chip and indexing the storage the
//! translation points into. Structure is immutable after load; only RAM
//! contents and chip registers mutate during play.

use vstd::prelude::*;

use crate::common::{Device, MappingResult, MirroringMode, SaveError};
use crate::mapper::AnyMapper;

verus! {

/// Copies `src[start..end]` into a fresh vector.
fn copy_range(src: &Vec<u8>, start: usize, end: usize) -> (r: Vec<u8>)
    requires
        start <= end <= src@.len(),
    ensures
        r@ == src@.subrange(start as int, end as int),
{
    let mut out: Vec<u8> = Vec::new();
    let mut i: usize = start;
    while i < end
        invariant
            start <= i <= end <= src@.len(),
            out@ == src@.subrange(start as int, i as int),
        decreases end - i,
    {
        out.push(src[i]);
        proof {
            assert(out@ =~= src@.subrange(start as int, i + 1));
        }
        i = i + 1;
    }
    out
}

pub struct Cartridge {
    /// Program ROM; never written through, whatever the CPU does.
    pub prg_rom: Vec<u8>,
    /// Tile storage: ROM on most boards, RAM on the boards whose chip
    /// reports CHR as RAM.
    pub chr: Vec<u8>,
    /// Battery or work RAM in the CPU's $6000-$7FFF window.
    pub prg_ram: Vec<u8>,
    /// The bank-switching chip, created and seeded once per load.
    pub mapper: AnyMapper,
    /// The header's mirroring bit, in force whenever the chip reports
    /// hardwired mirroring.
    pub hardwired_mirroring: MirroringMode,
}

impl Cartridge {
    /// The chip is seeded and every store has exactly the size the chip's
    /// geometry addresses.
    pub open spec fn wf(self) -> bool {
        &&& self.mapper.wf()
        &&& self.prg_rom@.len() == self.mapper.prg_size()
        &&& self.chr@.len() == self.mapper.chr_size()
        &&& self.prg_ram@.len() == self.mapper.prg_ram_size()
    }

    /// The byte a read returns: the mapped storage byte, or an open-bus
    /// placeholder of zero when the chip denies the access.
    pub open spec fn spec_read(self, address: u16, device: Device) -> u8 {
        match self.mapper.spec_map_read(address, device) {
            MappingResult::Allowed(o) => match device {
                Device::Ppu => self.chr@[o as int],
                Device::Cpu => {
                    if address < 0x8000 {
                        self.prg_ram@[o as int]
                    } else {
                        self.prg_rom@[o as int]
                    }
                },
            },
            MappingResult::Denied => 0,
        }
    }

    /// The one source of the mirroring mode at any time: the header bit for
    /// hardwired boards, else the chip's control register.
    pub open spec fn spec_mirroring_mode(self) -> MirroringMode {
        if self.mapper.spec_is_hardwired_mirrored() {
            self.hardwired_mirroring
        } else {
            self.mapper.spec_nametable_mirroring()
        }
    }

    /// The cartridge's save stream: the chip's registers and geometry, then
    /// PRG RAM, then CHR when it is RAM. Fixed order; part of the format.
    pub open spec fn spec_save_bytes(self) -> Seq<u8> {
        self.mapper.spec_save() + self.prg_ram@ + (if self.mapper.chr_is_ram() {
            self.chr@
        } else {
            Seq::<u8>::empty()
        })
    }

    /// Assembles a cartridge from parsed header data: a seeded chip, the
    /// stores its geometry addresses, and the header mirroring bit.
    pub fn new(
        mapper: AnyMapper,
        prg_rom: Vec<u8>,
        chr: Vec<u8>,
        prg_ram: Vec<u8>,
        hardwired_mirroring: MirroringMode,
    ) -> (r: Cartridge)
        requires
            mapper.wf(),
            prg_rom@.len() == mapper.prg_size(),
            chr@.len() == mapper.chr_size(),
            prg_ram@.len() == mapper.prg_ram_size(),
        ensures
            r == (Cartridge { prg_rom, chr, prg_ram, mapper, hardwired_mirroring }),
            r.wf(),
    {
        Cartridge { prg_rom, chr, prg_ram, mapper, hardwired_mirroring }
    }

    /// Reads through the chip: a denied access is absorbed as open bus, an
    /// allowed one indexes the storage the address range selects.
    pub fn read(&self, address: u16, device: Device) -> (r: u8)
        requires
            self.wf(),
            device == Device::Cpu ==> 0x4020 <= address,
            device == Device::Ppu ==> address < 0x2000,
        ensures
            r == self.spec_read(address, device),
    {
        match self.mapper.map_read(address, device) {
            MappingResult::Allowed(offset) => match device {
                Device::Ppu => self.chr[offset],
                Device::Cpu => {
                    if address < 0x8000 {
                        self.prg_ram[offset]
                    } else {
                        self.prg_rom[offset]
                    }
                },
            },
            MappingResult::Denied => {
                // open bus: the placeholder this implementation returns
                0
            },
        }
    }

    /// Writes through the chip: registers step on every CPU write to the
    /// ROM window, storage changes only where the chip allows it (PRG RAM,
    /// or CHR when it is RAM); everything else is ignored.
    pub fn write(&mut self, address: u16, data: u8, device: Device)
        requires
            old(self).wf(),
            device == Device::Cpu ==> 0x4020 <= address,
        ensures
            final(self).wf(),
            final(self).mapper == old(self).mapper.spec_map_write_state(address, data, device),
            final(self).prg_rom@ == old(self).prg_rom@,
            final(self).hardwired_mirroring == old(self).hardwired_mirroring,
            (match old(self).mapper.spec_map_write_result(address, device) {
                MappingResult::Allowed(o) => match device {
                    Device::Ppu => final(self).chr@ == old(self).chr@.update(o as int, data)
                        && final(self).prg_ram@ == old(self).prg_ram@,
                    Device::Cpu => final(self).prg_ram@ == old(self).prg_ram@.update(
                        o as int,
                        data,
                    ) && final(self).chr@ == old(self).chr@,
                },
                MappingResult::Denied => final(self).chr@ == old(self).chr@
                    && final(self).prg_ram@ == old(self).prg_ram@,
            }),
    {
        let result = self.mapper.map_write(address, data, device);
        match result {
            MappingResult::Allowed(offset) => match device {
                Device::Ppu => {
                    self.chr.set(offset, data);
                },
                Device::Cpu => {
                    self.prg_ram.set(offset, data);
                },
            },
            MappingResult::Denied => {},
        }
    }

    /// The mirroring mode in force right now. Queried fresh on every VRAM
    /// access, since chip-driven mirroring can change mid-frame.
    pub fn mirroring_mode(&self) -> (r: MirroringMode)
        ensures
            r == self.spec_mirroring_mode(),
    {
        if self.mapper.is_hardwired_mirrored() {
            self.hardwired_mirroring
        } else {
            self.mapper.nametable_mirroring()
        }
    }

    /// Whether the chip asked for an IRQ line change. The chips modeled
    /// here drive no IRQ line, so the cartridge's contribution to the
    /// merged line is constantly clear.
    pub fn is_irq_change_requested(&self) -> (r: bool)
        ensures
            !r,
    {
        false
    }

    /// The chip's IRQ pin state; constantly clear for these chips.
    pub fn irq_pin_state(&self) -> (r: bool)
        ensures
            !r,
    {
        false
    }

    /// Acknowledges an IRQ change request; nothing to clear on these chips.
    pub fn clear_irq_request_pin(&mut self)
        ensures
            *final(self) == *old(self),
    {
    }

    /// Serializes the mutable state: chip registers and geometry, PRG RAM,
    /// and CHR when it is RAM.
    pub fn save(&self) -> (r: Vec<u8>)
        requires
            self.wf(),
        ensures
            r@ == self.spec_save_bytes(),
    {
        let mut out = self.mapper.save_state();
        let mut i: usize = 0;
        while i < self.prg_ram.len()
            invariant
                i <= self.prg_ram@.len(),
                out@ == self.mapper.spec_save() + self.prg_ram@.subrange(0, i as int),
            decreases self.prg_ram@.len() - i,
        {
            out.push(self.prg_ram[i]);
            proof {
                assert(out@ =~= self.mapper.spec_save() + self.prg_ram@.subrange(0, i + 1));
            }
            i = i + 1;
        }
        proof {
            assert(self.prg_ram@.subrange(0, self.prg_ram@.len() as int) =~= self.prg_ram@);
        }
        if self.mapper.is_chr_ram() {
            let mut j: usize = 0;
            while j < self.chr.len()
                invariant
                    j <= self.chr@.len(),
                    out@ == self.mapper.spec_save() + self.prg_ram@ + self.chr@.subrange(
                        0,
                        j as int,
                    ),
                decreases self.chr@.len() - j,
            {
                out.push(self.chr[j]);
                proof {
                    assert(out@ =~= self.mapper.spec_save() + self.prg_ram@ + self.chr@.subrange(
                        0,
                        j + 1,
                    ));
                }
                j = j + 1;
            }
            proof {
                assert(self.chr@.subrange(0, self.chr@.len() as int) =~= self.chr@);
                assert(out@ =~= self.spec_save_bytes());
            }
        } else {
            proof {
                assert(out@ =~= self.spec_save_bytes());
            }
        }
        out
    }

    /// The exact number of bytes `save` produces and `load` consumes.
    pub open spec fn spec_save_len(self) -> int {
        self.spec_save_bytes().len() as int
    }

    /// Restores the mutable state from a save stream. The stream must hold
    /// exactly the cartridge's state, and the geometry it records must
    /// match the loaded cartridge; a foreign or truncated stream is
    /// rejected without touching any state.
    pub fn load(&mut self, data: &Vec<u8>) -> (r: Result<(), SaveError>)
        requires
            old(self).wf(),
        ensures
            final(self).wf(),
            r is Ok <==> (data@.len() == old(self).spec_save_len() && old(
                self,
            ).mapper.spec_load_matches_geometry(
                data@.subrange(0, old(self).mapper.spec_save().len() as int),
            )),
            r is Err ==> *final(self) == *old(self) && r == Result::<(), SaveError>::Err(
                SaveError::WrongSize,
            ),
            r is Ok ==> {
                &&& data@.len() == old(self).spec_save_len()
                &&& final(self).mapper == old(self).mapper.spec_load(
                    data@.subrange(0, old(self).mapper.spec_save().len() as int),
                )
                &&& final(self).prg_ram@ == data@.subrange(
                    old(self).mapper.spec_save().len() as int,
                    (old(self).mapper.spec_save().len() + old(self).prg_ram@.len()) as int,
                )
                &&& final(self).chr@ == (if old(self).mapper.chr_is_ram() {
                    data@.subrange(
                        (old(self).mapper.spec_save().len() + old(self).prg_ram@.len()) as int,
                        data@.len() as int,
                    )
                } else {
                    old(self).chr@
                })
                &&& final(self).prg_rom@ == old(self).prg_rom@
                &&& final(self).hardwired_mirroring == old(self).hardwired_mirroring
            },
    {
        let mapper_len = self.mapper.save_state_size();
        let ram_len = self.prg_ram.len();
        let chr_len = if self.mapper.is_chr_ram() {
            self.chr.len()
        } else {
            0
        };
        if data.len() != mapper_len + ram_len + chr_len {
            return Err(SaveError::WrongSize);
        }
        let mapper_bytes = copy_range(data, 0, mapper_len);
        match self.mapper.load_state_checked(&mapper_bytes) {
            Ok(()) => {},
            Err(_) => {
                return Err(SaveError::WrongSize);
            },
        }
        let new_ram = copy_range(data, mapper_len, mapper_len + ram_len);
        self.prg_ram = new_ram;
        if chr_len > 0 {
            let new_chr = copy_range(data, mapper_len + ram_len, mapper_len + ram_len + chr_len);
            self.chr = new_chr;
        }
        Ok(())
    }
}

} // verus!

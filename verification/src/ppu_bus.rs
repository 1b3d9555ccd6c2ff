//! The picture processor's bus: decodes its 14-bit address space into
//! cartridge CHR space, mirrored VRAM, and palette memory. Addresses above
//! the 14-bit range wrap around, as unconnected address lines do on real
//! hardware.

use vstd::prelude::*;

use crate::cartridge::Cartridge;
use crate::common::{Device, MappingResult};
use crate::vram::VRam;

verus! {

/// Palette memory: a 32-byte register window, mirrored across its $3F00
/// region by masking to its real size.
pub struct Palette {
    pub data: Vec<u8>,
}

impl Palette {
    /// The store holds its full 32 bytes.
    pub open spec fn wf(self) -> bool {
        self.data@.len() == 0x20
    }

    /// The palette cell an address selects.
    pub open spec fn spec_index(address: u16) -> int {
        (address & 0x1F) as int
    }

    /// A fresh palette, zero-filled.
    pub fn new() -> (r: Self)
        ensures
            r.wf(),
            forall|i: int| 0 <= i < 0x20 ==> r.data@[i] == 0u8,
    {
        let mut data: Vec<u8> = Vec::new();
        let mut i: usize = 0;
        while i < 0x20
            invariant
                i <= 0x20,
                data@.len() == i,
                forall|j: int| 0 <= j < i ==> data@[j] == 0u8,
            decreases 0x20 - i,
        {
            data.push(0);
            i = i + 1;
        }
        Palette { data }
    }

    /// Restores the palette bytes from a saved slice of exactly their size.
    pub fn load(&mut self, data: &Vec<u8>)
        requires
            old(self).wf(),
            data@.len() == 0x20,
        ensures
            final(self).wf(),
            final(self).data@ == data@,
    {
        let mut fresh: Vec<u8> = Vec::new();
        let mut i: usize = 0;
        while i < data.len()
            invariant
                i <= data@.len(),
                fresh@ == data@.subrange(0, i as int),
            decreases data@.len() - i,
        {
            fresh.push(data[i]);
            proof {
                assert(fresh@ =~= data@.subrange(0, i + 1));
            }
            i = i + 1;
        }
        proof {
            assert(fresh@ =~= data@);
        }
        self.data = fresh;
    }

    pub fn read(&self, address: u16) -> (r: u8)
        requires
            self.wf(),
        ensures
            r == self.data@[Self::spec_index(address)],
    {
        proof {
            assert(address & 0x1F < 0x20) by (bit_vector);
        }
        self.data[(address & 0x1F) as usize]
    }

    pub fn write(&mut self, address: u16, data: u8)
        requires
            old(self).wf(),
        ensures
            final(self).wf(),
            final(self).data@ == old(self).data@.update(Self::spec_index(address), data),
    {
        proof {
            assert(address & 0x1F < 0x20) by (bit_vector);
        }
        self.data.set((address & 0x1F) as usize, data);
    }
}

/// The PPU-side bus: name-table storage and palette memory. The cartridge
/// is not owned here: the orchestrator holds it and lends it to each
/// access, since the CPU-side bus routes into the same cartridge.
pub struct PPUBus {
    pub vram: VRam,
    pub palettes: Palette,
}

impl PPUBus {
    pub open spec fn wf(self) -> bool {
        self.vram.wf() && self.palettes.wf()
    }

    /// The byte a PPU-side read returns: CHR space below $2000, VRAM with
    /// the current mirroring fold up to $3EFF, palette memory at
    /// $3F00-$3FFF, all after folding the address into the 14-bit space.
    pub open spec fn spec_read(self, cart: Cartridge, address: u16) -> u8 {
        let a = address & 0x3FFF;
        if a < 0x2000 {
            cart.spec_read(a, Device::Ppu)
        } else if a < 0x3F00 {
            self.vram.vram_data@[VRam::spec_map_address(a & 0x2FFF, cart.spec_mirroring_mode())]
        } else {
            self.palettes.data@[Palette::spec_index(a)]
        }
    }

    pub fn new() -> (r: Self)
        ensures
            r.wf(),
            forall|i: int| 0 <= i < 0x1000 ==> r.vram.vram_data@[i] == 0u8,
            forall|i: int| 0 <= i < 0x20 ==> r.palettes.data@[i] == 0u8,
    {
        PPUBus { vram: VRam::new(), palettes: Palette::new() }
    }

    /// Routes a PPU-side read. The mirroring mode is queried from the
    /// cartridge on every VRAM access, never cached.
    pub fn read(&self, cart: &Cartridge, address: u16, device: Device) -> (r: u8)
        requires
            self.wf(),
            cart.wf(),
            device == Device::Ppu,
        ensures
            r == self.spec_read(*cart, address),
    {
        let a = address & 0x3FFF;
        proof {
            assert(a == address & 0x3FFF && (address & 0x3FFF) < 0x4000) by (bit_vector)
                requires
                    a == address & 0x3FFF,
            ;
        }
        if a < 0x2000 {
            cart.read(a, device)
        } else if a < 0x3F00 {
            self.vram.read(a & 0x2FFF, cart.mirroring_mode(), device)
        } else {
            self.palettes.read(a)
        }
    }

    /// Routes a PPU-side write: CHR space goes through the cartridge (and
    /// reaches storage only where CHR is RAM), name-table space goes to
    /// VRAM under the current fold, and the rest goes to palette memory.
    pub fn write(&mut self, cart: &mut Cartridge, address: u16, data: u8, device: Device)
        requires
            old(self).wf(),
            old(cart).wf(),
            device == Device::Ppu,
        ensures
            final(self).wf(),
            final(cart).wf(),
            ({
                let a = address & 0x3FFF;
                if a < 0x2000 {
                    &&& *final(self) == *old(self)
                    &&& final(cart).mapper == old(cart).mapper.spec_map_write_state(
                        a,
                        data,
                        Device::Ppu,
                    )
                    &&& final(cart).prg_rom@ == old(cart).prg_rom@
                    &&& final(cart).prg_ram@ == old(cart).prg_ram@
                    &&& final(cart).hardwired_mirroring == old(cart).hardwired_mirroring
                    &&& final(cart).chr@ == (match old(cart).mapper.spec_map_write_result(
                        a,
                        Device::Ppu,
                    ) {
                        MappingResult::Allowed(o) => old(cart).chr@.update(o as int, data),
                        MappingResult::Denied => old(cart).chr@,
                    })
                } else if a < 0x3F00 {
                    &&& *final(cart) == *old(cart)
                    &&& final(self).palettes == old(self).palettes
                    &&& final(self).vram.vram_data@ == old(self).vram.vram_data@.update(
                        VRam::spec_map_address(a & 0x2FFF, old(cart).spec_mirroring_mode()),
                        data,
                    )
                } else {
                    &&& *final(cart) == *old(cart)
                    &&& final(self).vram == old(self).vram
                    &&& final(self).palettes.data@ == old(self).palettes.data@.update(
                        Palette::spec_index(a),
                        data,
                    )
                }
            }),
    {
        let a = address & 0x3FFF;
        proof {
            assert(a == address & 0x3FFF && (address & 0x3FFF) < 0x4000) by (bit_vector)
                requires
                    a == address & 0x3FFF,
            ;
        }
        if a < 0x2000 {
            cart.write(a, data, device);
        } else if a < 0x3F00 {
            self.vram.write(a & 0x2FFF, data, cart.mirroring_mode(), device);
        } else {
            self.palettes.write(a, data);
        }
    }

    /// Serializes the bus's own state: VRAM, then palette memory.
    pub fn save(&self) -> (r: Vec<u8>)
        requires
            self.wf(),
        ensures
            r@ == self.vram.vram_data@ + self.palettes.data@,
    {
        let mut out = self.vram.save();
        let mut i: usize = 0;
        while i < self.palettes.data.len()
            invariant
                i <= self.palettes.data@.len(),
                out@ == self.vram.vram_data@ + self.palettes.data@.subrange(0, i as int),
            decreases self.palettes.data@.len() - i,
        {
            out.push(self.palettes.data[i]);
            proof {
                assert(out@ =~= self.vram.vram_data@ + self.palettes.data@.subrange(0, i + 1));
            }
            i = i + 1;
        }
        proof {
            assert(out@ =~= self.vram.vram_data@ + self.palettes.data@);
        }
        out
    }
}

} // verus!

//! Name-table storage: 4 KiB of VRAM, logically four 1 KiB blocks, folded
//! onto two physical blocks by the current mirroring mode (or addressed in
//! full in four-screen mode).

use vstd::prelude::*;

use crate::common::{Device, MirroringMode};

verus! {

/// The name-table byte store. The mirroring mode is supplied on every
/// access rather than cached: mapper-controlled mirroring can change
/// mid-frame, so the fold must be computed fresh each time.
pub struct VRam {
    /// Four 1 KiB blocks. Only the first two are used by the vertical,
    /// horizontal and single-screen modes; four-screen mode uses all four.
    pub vram_data: Vec<u8>,
}

impl VRam {
    /// The store holds its full 4 KiB.
    pub open spec fn wf(self) -> bool {
        self.vram_data@.len() == 0x1000
    }

    /// The physical offset a name-table address folds to: vertical
    /// mirroring selects the block by address bit 10, horizontal by bit 11,
    /// the single-screen modes pin block 0 or block 1, and four-screen
    /// addresses the whole store directly.
    pub open spec fn spec_map_address(address: u16, mode: MirroringMode) -> int {
        match mode {
            MirroringMode::Vertical => ((address >> 10) & 1) as int * 0x400 + (address
                & 0x3FF) as int,
            MirroringMode::Horizontal => ((address >> 11) & 1) as int * 0x400 + (address
                & 0x3FF) as int,
            MirroringMode::SingleScreenLowBank => (address & 0x3FF) as int,
            MirroringMode::SingleScreenHighBank => 0x400 + (address & 0x3FF) as int,
            MirroringMode::FourScreen => (address & 0xFFF) as int,
        }
    }

    /// The address bits a mode reads: every bit outside this mask is
    /// ignored by the fold, so addresses equal under the mask are aliases
    /// of one physical location.
    pub open spec fn spec_alias_mask(mode: MirroringMode) -> u16 {
        match mode {
            MirroringMode::Vertical => 0x7FF,
            MirroringMode::Horizontal => 0xBFF,
            MirroringMode::SingleScreenLowBank => 0x3FF,
            MirroringMode::SingleScreenHighBank => 0x3FF,
            MirroringMode::FourScreen => 0xFFF,
        }
    }

    /// The fold is total: for every address and every mode the offset lands
    /// inside the physical 4 KiB store.
    pub proof fn lemma_map_address_in_bounds(address: u16, mode: MirroringMode)
        ensures
            0 <= Self::spec_map_address(address, mode) < 0x1000,
    {
        assert((((address >> 10) & 1) as int) * 0x400 + ((address & 0x3FF) as int) < 0x1000)
            by (bit_vector);
        assert((((address >> 11) & 1) as int) * 0x400 + ((address & 0x3FF) as int) < 0x1000)
            by (bit_vector);
        assert(((address & 0x3FF) as int) < 0x400) by (bit_vector);
        assert(((address & 0xFFF) as int) < 0x1000) by (bit_vector);
    }

    /// The fold is idempotent: an offset it produces, read back as an
    /// address, folds to itself under the same mode. Horizontal mode is the
    /// one exception: it selects the block by input bit 11 but encodes it
    /// at bit 10 of the offset, so refolding an offset with the block bit
    /// set lands in block 0 instead.
    pub proof fn lemma_map_address_idempotent(address: u16, mode: MirroringMode)
        requires
            mode != MirroringMode::Horizontal,
        ensures
            Self::spec_map_address(
                Self::spec_map_address(address, mode) as u16,
                mode,
            ) == Self::spec_map_address(address, mode),
    {
        Self::lemma_map_address_in_bounds(address, mode);
        match mode {
            MirroringMode::Vertical => {
                assert({
                    let f = ((((address >> 10) & 1) * 0x400 + (address & 0x3FF)) as u16);
                    (((f >> 10) & 1) as int) * 0x400 + ((f & 0x3FF) as int) == (((address >> 10)
                        & 1) as int) * 0x400 + ((address & 0x3FF) as int)
                }) by (bit_vector);
            },
            MirroringMode::Horizontal => {
                assert(false);
            },
            MirroringMode::SingleScreenLowBank => {
                assert({
                    let f = (address & 0x3FF) as u16;
                    (f & 0x3FF) == (address & 0x3FF)
                }) by (bit_vector);
            },
            MirroringMode::SingleScreenHighBank => {
                assert({
                    let f = ((0x400 + (address & 0x3FF)) as u16);
                    0x400 + ((f & 0x3FF) as int) == 0x400 + ((address & 0x3FF) as int)
                }) by (bit_vector);
            },
            MirroringMode::FourScreen => {
                assert({
                    let f = (address & 0xFFF) as u16;
                    (f & 0xFFF) == (address & 0xFFF)
                }) by (bit_vector);
            },
        }
    }

    /// Addresses that agree on the bits a mode reads are aliases: they fold
    /// to the same physical offset. Under vertical mirroring, for example,
    /// two addresses differing only in bit 11 map identically.
    pub proof fn lemma_aliases_map_equal(a: u16, b: u16, mode: MirroringMode)
        requires
            a & Self::spec_alias_mask(mode) == b & Self::spec_alias_mask(mode),
        ensures
            Self::spec_map_address(a, mode) == Self::spec_map_address(b, mode),
    {
        match mode {
            MirroringMode::Vertical => {
                assert(a & 0x7FF == b & 0x7FF ==> (((a >> 10) & 1) as int) * 0x400 + ((a
                    & 0x3FF) as int) == (((b >> 10) & 1) as int) * 0x400 + ((b & 0x3FF) as int))
                    by (bit_vector);
            },
            MirroringMode::Horizontal => {
                assert(a & 0xBFF == b & 0xBFF ==> (((a >> 11) & 1) as int) * 0x400 + ((a
                    & 0x3FF) as int) == (((b >> 11) & 1) as int) * 0x400 + ((b & 0x3FF) as int))
                    by (bit_vector);
            },
            MirroringMode::SingleScreenLowBank => {
                assert(a & 0x3FF == b & 0x3FF ==> ((a & 0x3FF) as int) == ((b & 0x3FF) as int))
                    by (bit_vector);
            },
            MirroringMode::SingleScreenHighBank => {
                assert(a & 0x3FF == b & 0x3FF ==> ((a & 0x3FF) as int) == ((b & 0x3FF) as int))
                    by (bit_vector);
            },
            MirroringMode::FourScreen => {
                assert(a & 0xFFF == b & 0xFFF ==> ((a & 0xFFF) as int) == ((b & 0xFFF) as int))
                    by (bit_vector);
            },
        }
    }

    /// A fresh store, zero-filled.
    pub fn new() -> (r: Self)
        ensures
            r.wf(),
            forall|i: int| 0 <= i < 0x1000 ==> r.vram_data@[i] == 0u8,
    {
        let mut data: Vec<u8> = Vec::new();
        let mut i: usize = 0;
        while i < 0x1000
            invariant
                i <= 0x1000,
                data@.len() == i,
                forall|j: int| 0 <= j < i ==> data@[j] == 0u8,
            decreases 0x1000 - i,
        {
            data.push(0);
            i = i + 1;
        }
        VRam { vram_data: data }
    }

    /// Folds a name-table address onto the physical store under the given
    /// mode. Queried fresh on every access.
    pub fn map_address(&self, address: u16, mode: MirroringMode) -> (r: usize)
        ensures
            r == Self::spec_map_address(address, mode),
            r < 0x1000,
    {
        proof {
            Self::lemma_map_address_in_bounds(address, mode);
        }
        match mode {
            MirroringMode::Vertical => {
                let block_num: usize = (((address >> 10) & 1) as usize);
                block_num * 0x400 + (address & 0x3FF) as usize
            },
            MirroringMode::Horizontal => {
                let block_num: usize = (((address >> 11) & 1) as usize);
                block_num * 0x400 + (address & 0x3FF) as usize
            },
            MirroringMode::SingleScreenLowBank => (address & 0x3FF) as usize,
            MirroringMode::SingleScreenHighBank => 0x400 + (address & 0x3FF) as usize,
            MirroringMode::FourScreen => {
                // no folding: the whole 4 KiB store is addressable
                (address & 0xFFF) as usize
            },
        }
    }

    /// Reads the byte the address folds to. Only the picture processor's
    /// side of the fabric reaches VRAM.
    pub fn read(&self, address: u16, mode: MirroringMode, device: Device) -> (r: u8)
        requires
            self.wf(),
            device == Device::Ppu,
        ensures
            r == self.vram_data@[Self::spec_map_address(address, mode)],
    {
        let offset = self.map_address(address, mode);
        self.vram_data[offset]
    }

    /// Writes the byte the address folds to.
    pub fn write(&mut self, address: u16, data: u8, mode: MirroringMode, device: Device)
        requires
            old(self).wf(),
            device == Device::Ppu,
        ensures
            final(self).wf(),
            final(self).vram_data@ == old(self).vram_data@.update(
                Self::spec_map_address(address, mode),
                data,
            ),
    {
        let offset = self.map_address(address, mode);
        self.vram_data.set(offset, data);
    }

    /// The whole store, in save order.
    pub fn save(&self) -> (r: Vec<u8>)
        requires
            self.wf(),
        ensures
            r@ == self.vram_data@,
    {
        let mut out: Vec<u8> = Vec::new();
        let mut i: usize = 0;
        while i < self.vram_data.len()
            invariant
                i <= self.vram_data@.len(),
                out@ == self.vram_data@.subrange(0, i as int),
            decreases self.vram_data@.len() - i,
        {
            out.push(self.vram_data[i]);
            proof {
                assert(out@ =~= self.vram_data@.subrange(0, i + 1));
            }
            i = i + 1;
        }
        proof {
            assert(out@ =~= self.vram_data@);
        }
        out
    }

    /// Restores the whole store from a saved byte slice of exactly its
    /// size.
    pub fn load(&mut self, data: &Vec<u8>)
        requires
            old(self).wf(),
            data@.len() == 0x1000,
        ensures
            final(self).wf(),
            final(self).vram_data@ == data@,
    {
        let mut fresh: Vec<u8> = Vec::new();
        let mut i: usize = 0;
        while i < data.len()
            invariant
                i <= data@.len(),
                fresh@ == data@.subrange(0, i as int),
            decreases data@.len() - i,
        {
            fresh.push(data[i]);
            proof {
                assert(fresh@ =~= data@.subrange(0, i + 1));
            }
            i = i + 1;
        }
        proof {
            assert(fresh@ =~= data@);
        }
        self.vram_data = fresh;
    }
}

} // verus!

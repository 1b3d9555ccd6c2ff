//! The orchestrator's verified core: the fixed-ratio frame clock that paces
//! the cycle loop, and whole-machine save/restore over the fabric's state.
//! The CPU instruction engine and the picture/audio processors' internals
//! are external collaborators: the loop that steps them lives with the
//! caller, which performs one CPU step, three picture-processor steps and
//! one audio-processor step per cycle this clock grants.

use vstd::prelude::*;

use crate::cartridge::Cartridge;
use crate::common::SaveError;
use crate::cpu_bus::CPUBus;
use crate::ppu_bus::PPUBus;

verus! {

/// Half-CPU-cycles per video frame: twice the 29780.5 CPU cycles a frame
/// takes, kept doubled so the pacing stays exact in integers.
pub const HALF_CYCLES_PER_FRAME: i64 = 59561;

/// Paces the cycle loop at the exact frame rate. The half-cycle unit makes
/// frames alternate between 29780 and 29781 granted cycles, which keeps the
/// long-run average at exactly 29780.5 with no drift.
pub struct FrameClock {
    /// Pending half-cycles of the current frame; the loop runs while this
    /// has not gone negative.
    pub pending_half_cycles: i64,
}

impl FrameClock {
    /// The balance stays within one frame of zero in either direction.
    pub open spec fn wf(self) -> bool {
        -2 <= self.pending_half_cycles <= 2 * HALF_CYCLES_PER_FRAME
    }

    pub fn new() -> (r: Self)
        ensures
            r.pending_half_cycles == 0,
            r.wf(),
    {
        FrameClock { pending_half_cycles: 0 }
    }

    /// Credits one frame's worth of cycles.
    pub fn begin_frame(&mut self)
        requires
            old(self).wf(),
            old(self).pending_half_cycles <= HALF_CYCLES_PER_FRAME,
        ensures
            final(self).pending_half_cycles == old(self).pending_half_cycles
                + HALF_CYCLES_PER_FRAME,
            final(self).wf(),
    {
        self.pending_half_cycles = self.pending_half_cycles + HALF_CYCLES_PER_FRAME;
    }

    /// Grants one CPU cycle while credit remains: the loop steps the
    /// machine once for every true it receives and stops at the first
    /// false, leaving the fractional half-cycle for the next frame.
    pub fn take_cycle(&mut self) -> (r: bool)
        requires
            old(self).wf(),
        ensures
            r == (old(self).pending_half_cycles >= 0),
            r ==> final(self).pending_half_cycles == old(self).pending_half_cycles - 2,
            !r ==> *final(self) == *old(self),
            final(self).wf(),
    {
        if self.pending_half_cycles >= 0 {
            self.pending_half_cycles = self.pending_half_cycles - 2;
            true
        } else {
            false
        }
    }
}

/// A soft reset: the CPU bus RAM is discarded and the PPU-side bus is
/// rebuilt fresh, while the cartridge — and with it the mapper's programmed
/// registers — is left alone, matching real hardware whose power state is
/// independent of the reset line.
pub fn reset(cpu_bus: &mut CPUBus, ppu_bus: &mut PPUBus)
    requires
        old(cpu_bus).wf(),
    ensures
        final(cpu_bus).wf(),
        final(ppu_bus).wf(),
        forall|i: int| 0 <= i < 0x800 ==> final(cpu_bus).ram@[i] == 0u8,
        *final(cpu_bus) == (CPUBus { ram: final(cpu_bus).ram, ..*old(cpu_bus) }),
        forall|i: int| 0 <= i < 0x1000 ==> final(ppu_bus).vram.vram_data@[i] == 0u8,
        forall|i: int| 0 <= i < 0x20 ==> final(ppu_bus).palettes.data@[i] == 0u8,
{
    cpu_bus.reset();
    *ppu_bus = PPUBus::new();
}

/// The byte count of a whole-machine save stream for this cartridge: the
/// cartridge's own state, then the CPU bus RAM, then VRAM, then palette
/// memory, in that fixed order.
pub open spec fn spec_machine_save_len(cart: Cartridge) -> int {
    cart.spec_save_len() + 0x800 + 0x1000 + 0x20
}

/// Serializes the whole fabric: cartridge state (chip registers, geometry
/// and RAM stores), CPU bus RAM, VRAM and palette memory, concatenated in
/// fixed order. The external collaborators' own state is serialized by
/// their owners around this core.
pub fn save_state(cart: &Cartridge, cpu_bus: &CPUBus, ppu_bus: &PPUBus) -> (r: Vec<u8>)
    requires
        cart.wf(),
        cpu_bus.wf(),
        ppu_bus.wf(),
    ensures
        r@ == cart.spec_save_bytes() + cpu_bus.ram@ + ppu_bus.vram.vram_data@
            + ppu_bus.palettes.data@,
        r@.len() == spec_machine_save_len(*cart),
{
    let mut out = cart.save();
    let cpu_part = cpu_bus.save();
    let ppu_part = ppu_bus.save();
    let mut i: usize = 0;
    while i < cpu_part.len()
        invariant
            i <= cpu_part@.len(),
            out@ == cart.spec_save_bytes() + cpu_part@.subrange(0, i as int),
        decreases cpu_part@.len() - i,
    {
        out.push(cpu_part[i]);
        proof {
            assert(out@ =~= cart.spec_save_bytes() + cpu_part@.subrange(0, i + 1));
        }
        i = i + 1;
    }
    proof {
        assert(cpu_part@.subrange(0, cpu_part@.len() as int) =~= cpu_part@);
    }
    let mut j: usize = 0;
    while j < ppu_part.len()
        invariant
            j <= ppu_part@.len(),
            out@ == cart.spec_save_bytes() + cpu_part@ + ppu_part@.subrange(0, j as int),
        decreases ppu_part@.len() - j,
    {
        out.push(ppu_part[j]);
        proof {
            assert(out@ =~= cart.spec_save_bytes() + cpu_part@ + ppu_part@.subrange(0, j + 1));
        }
        j = j + 1;
    }
    proof {
        assert(ppu_part@.subrange(0, ppu_part@.len() as int) =~= ppu_part@);
        assert(out@ =~= cart.spec_save_bytes() + cpu_bus.ram@ + ppu_bus.vram.vram_data@
            + ppu_bus.palettes.data@);
    }
    out
}

/// Copies `src[start..end]` into a fresh vector.
fn take_range(src: &Vec<u8>, start: usize, end: usize) -> (r: Vec<u8>)
    requires
        start <= end <= src@.len(),
    ensures
        r@ == src@.subrange(start as int, end as int),
{
    let mut out: Vec<u8> = Vec::new();
    let mut i: usize = start;
    while i < end
        invariant
            start <= i <= end <= src@.len(),
            out@ == src@.subrange(start as int, i as int),
        decreases end - i,
    {
        out.push(src[i]);
        proof {
            assert(out@ =~= src@.subrange(start as int, i + 1));
        }
        i = i + 1;
    }
    out
}

/// Restores the whole fabric from a save stream, consuming it exactly. A
/// stream with leftover bytes is a foreign or corrupted save and is
/// rejected as such; a short stream, or one whose recorded geometry does
/// not fit the loaded cartridge, is rejected as malformed. Nothing is
/// mutated on any rejection.
pub fn load_state(
    cart: &mut Cartridge,
    cpu_bus: &mut CPUBus,
    ppu_bus: &mut PPUBus,
    data: &Vec<u8>,
) -> (r: Result<(), SaveError>)
    requires
        old(cart).wf(),
        old(cpu_bus).wf(),
        old(ppu_bus).wf(),
    ensures
        final(cart).wf(),
        final(cpu_bus).wf(),
        final(ppu_bus).wf(),
        r is Ok <==> (data@.len() == spec_machine_save_len(*old(cart)) && old(
            cart,
        ).mapper.spec_load_matches_geometry(
            data@.subrange(0, old(cart).mapper.spec_save().len() as int),
        )),
        data@.len() > spec_machine_save_len(*old(cart)) ==> r == Result::<(), SaveError>::Err(
            SaveError::ContainExtraData,
        ),
        data@.len() < spec_machine_save_len(*old(cart)) ==> r == Result::<(), SaveError>::Err(
            SaveError::WrongSize,
        ),
        r is Err ==> *final(cart) == *old(cart) && *final(cpu_bus) == *old(cpu_bus)
            && *final(ppu_bus) == *old(ppu_bus),
        r is Ok ==> {
            &&& data@.len() == spec_machine_save_len(*old(cart))
            &&& final(cart).mapper == old(cart).mapper.spec_load(
                data@.subrange(0, old(cart).mapper.spec_save().len() as int),
            )
            &&& final(cart).prg_ram@ == data@.subrange(
                old(cart).mapper.spec_save().len() as int,
                (old(cart).mapper.spec_save().len() + old(cart).prg_ram@.len()) as int,
            )
            &&& final(cart).chr@ == (if old(cart).mapper.chr_is_ram() {
                data@.subrange(
                    (old(cart).mapper.spec_save().len() + old(cart).prg_ram@.len()) as int,
                    old(cart).spec_save_len(),
                )
            } else {
                old(cart).chr@
            })
            &&& final(cart).prg_rom@ == old(cart).prg_rom@
            &&& final(cart).hardwired_mirroring == old(cart).hardwired_mirroring
            &&& final(cpu_bus).ram@ == data@.subrange(
                old(cart).spec_save_len(),
                old(cart).spec_save_len() + 0x800,
            )
            &&& final(ppu_bus).vram.vram_data@ == data@.subrange(
                old(cart).spec_save_len() + 0x800,
                old(cart).spec_save_len() + 0x1800,
            )
            &&& final(ppu_bus).palettes.data@ == data@.subrange(
                old(cart).spec_save_len() + 0x1800,
                old(cart).spec_save_len() + 0x1820,
            )
        },
{
    let cart_len = cart.mapper.save_state_size() + cart.prg_ram.len() + (
    if cart.mapper.is_chr_ram() {
        cart.chr.len()
    } else {
        0
    });
    let total = cart_len + 0x800 + 0x1000 + 0x20;
    if data.len() > total {
        return Err(SaveError::ContainExtraData);
    }
    if data.len() < total {
        return Err(SaveError::WrongSize);
    }
    let cart_part = take_range(data, 0, cart_len);
    match cart.load(&cart_part) {
        Ok(()) => {},
        Err(_) => {
            return Err(SaveError::WrongSize);
        },
    }
    let cpu_part = take_range(data, cart_len, cart_len + 0x800);
    cpu_bus.load(&cpu_part);
    let vram_part = take_range(data, cart_len + 0x800, cart_len + 0x1800);
    ppu_bus.vram.load(&vram_part);
    let palette_part = take_range(data, cart_len + 0x1800, cart_len + 0x1820);
    ppu_bus.palettes.load(&palette_part);
    proof {
        let msize = cart.mapper.spec_save().len() as int;
        let rsize = old(cart).prg_ram@.len() as int;
        assert(cart_part@.subrange(0, msize) =~= data@.subrange(0, msize));
        assert(cart_part@.subrange(msize, msize + rsize) =~= data@.subrange(msize, msize + rsize));
        assert(cart_part@.subrange(msize + rsize, cart_part@.len() as int) =~= data@.subrange(
            msize + rsize,
            cart_len as int,
        ));
    }
    Ok(())
}

} // verus!

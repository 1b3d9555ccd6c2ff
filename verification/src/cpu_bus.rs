//! The CPU's bus: decodes the full 16-bit address space into internal RAM
//! (mirrored every 2 KiB), the picture processor's register window
//! (mirrored every 8 bytes), audio/controller registers and cartridge
//! space, and carries the cross-component signal lines (NMI, OAM DMA, DMC
//! fetch, and the merged IRQ line) that the CPU polls once per cycle.

use vstd::prelude::*;

use crate::cartridge::Cartridge;
use crate::common::Device;

verus! {

/// Where the fixed address-range table routes a CPU access. Register
/// windows carry the canonical register address after mirroring, so the
/// peripheral behind them needs no decoding of its own.
#[derive(Clone, Copy, Debug, PartialEq, Eq, Structural)]
pub enum CpuBusTarget {
    /// Internal 2 KiB RAM; the offset is the address masked to the RAM's
    /// real size, which implements the mirroring of $0000-$1FFF.
    InternalRam(u16),
    /// A picture-processor register, $2000-$2007; the window $2000-$3FFF
    /// mirrors every 8 bytes.
    PpuRegister(u16),
    /// The OAM DMA trigger register at $4014.
    OamDma,
    /// An audio-processor register: $4000-$4013, $4015 or $4017.
    ApuRegister(u16),
    /// The controller port at $4016.
    ControllerPort,
    /// The unused CPU test-mode registers, $4018-$401F: reads are zero,
    /// writes are dropped.
    TestMode,
    /// Cartridge space, $4020-$FFFF, forwarded verbatim with the CPU tag.
    CartridgeSpace,
}

/// The fixed decoding table of the CPU address space.
pub open spec fn spec_decode_cpu_address(address: u16) -> CpuBusTarget {
    if address < 0x2000 {
        CpuBusTarget::InternalRam(address & 0x7FF)
    } else if address < 0x4000 {
        CpuBusTarget::PpuRegister(0x2000 | (address & 0x7))
    } else if address <= 0x4013 {
        CpuBusTarget::ApuRegister(address)
    } else if address == 0x4014 {
        CpuBusTarget::OamDma
    } else if address == 0x4015 {
        CpuBusTarget::ApuRegister(address)
    } else if address == 0x4016 {
        CpuBusTarget::ControllerPort
    } else if address == 0x4017 {
        CpuBusTarget::ApuRegister(address)
    } else if address <= 0x401F {
        CpuBusTarget::TestMode
    } else {
        CpuBusTarget::CartridgeSpace
    }
}

/// Decodes a CPU address. Total: every address lands in exactly one range,
/// so no access can fault.
pub fn decode_cpu_address(address: u16) -> (r: CpuBusTarget)
    ensures
        r == spec_decode_cpu_address(address),
{
    proof {
        assert(address & 0x7FF < 0x800) by (bit_vector);
    }
    if address < 0x2000 {
        CpuBusTarget::InternalRam(address & 0x7FF)
    } else if address < 0x4000 {
        CpuBusTarget::PpuRegister(0x2000 | (address & 0x7))
    } else if address <= 0x4013 {
        CpuBusTarget::ApuRegister(address)
    } else if address == 0x4014 {
        CpuBusTarget::OamDma
    } else if address == 0x4015 {
        CpuBusTarget::ApuRegister(address)
    } else if address == 0x4016 {
        CpuBusTarget::ControllerPort
    } else if address == 0x4017 {
        CpuBusTarget::ApuRegister(address)
    } else if address <= 0x401F {
        CpuBusTarget::TestMode
    } else {
        CpuBusTarget::CartridgeSpace
    }
}

/// The CPU-side bus. It owns the internal RAM and the latched signal lines
/// of the interconnection protocol; the picture and audio processors
/// themselves live outside this library and feed their lines in through
/// the raise/submit methods, while the CPU polls and clears them here.
pub struct CPUBus {
    /// Internal RAM: 2 KiB, mirrored over $0000-$1FFF.
    pub ram: Vec<u8>,
    /// The edge-triggered NMI line the picture processor raises.
    pub nmi_pin: bool,
    /// Whether an OAM DMA block copy is pending.
    pub dma_request: bool,
    /// The page the pending OAM DMA reads from.
    pub dma_page: u8,
    /// The cartridge address of a pending DMC sample fetch, if any.
    pub dmc_read_request: Option<u16>,
    /// The audio processor's IRQ line, as last fed in.
    pub apu_irq_pin: bool,
    /// Whether the audio processor signalled that its IRQ line changed.
    pub apu_irq_change_requested: bool,
    /// The merged-line latch: the CPU re-evaluates the IRQ line only when a
    /// source signalled a change, and this records the last poll's answer.
    pub irq_pin_change_requested: bool,
}

impl CPUBus {
    /// The RAM holds its full 2 KiB.
    pub open spec fn wf(self) -> bool {
        self.ram@.len() == 0x800
    }

    /// What a CPU read returns when this bus can serve it by itself: RAM,
    /// test mode (zero), or the cartridge. Register windows are served by
    /// the peripherals that own them.
    pub open spec fn spec_read(self, cart: Cartridge, address: u16) -> Option<u8> {
        match spec_decode_cpu_address(address) {
            CpuBusTarget::InternalRam(o) => Some(self.ram@[o as int]),
            CpuBusTarget::TestMode => Some(0),
            CpuBusTarget::CartridgeSpace => Some(cart.spec_read(address, Device::Cpu)),
            _ => None,
        }
    }

    /// A fresh bus: zeroed RAM, every line clear.
    pub fn new() -> (r: Self)
        ensures
            r.wf(),
            forall|i: int| 0 <= i < 0x800 ==> r.ram@[i] == 0u8,
            !r.nmi_pin && !r.dma_request && !r.apu_irq_pin && !r.apu_irq_change_requested
                && !r.irq_pin_change_requested,
            r.dmc_read_request is None,
            r.dma_page == 0,
    {
        let mut ram: Vec<u8> = Vec::new();
        let mut i: usize = 0;
        while i < 0x800
            invariant
                i <= 0x800,
                ram@.len() == i,
                forall|j: int| 0 <= j < i ==> ram@[j] == 0u8,
            decreases 0x800 - i,
        {
            ram.push(0);
            i = i + 1;
        }
        CPUBus {
            ram,
            nmi_pin: false,
            dma_request: false,
            dma_page: 0,
            dmc_read_request: None,
            apu_irq_pin: false,
            apu_irq_change_requested: false,
            irq_pin_change_requested: false,
        }
    }

    /// Serves a CPU read where this bus owns the target; a register window
    /// returns the decoded target's data through the owning peripheral, so
    /// the caller receives None and forwards the decoded address there.
    pub fn read(&self, cart: &Cartridge, address: u16) -> (r: Option<u8>)
        requires
            self.wf(),
            cart.wf(),
        ensures
            r == self.spec_read(*cart, address),
    {
        proof {
            assert(address & 0x7FF < 0x800) by (bit_vector);
        }
        match decode_cpu_address(address) {
            CpuBusTarget::InternalRam(offset) => Some(self.ram[offset as usize]),
            CpuBusTarget::TestMode => {
                // unused CPU test mode registers
                Some(0)
            },
            CpuBusTarget::CartridgeSpace => Some(cart.read(address, Device::Cpu)),
            _ => None,
        }
    }

    /// Serves a CPU write where this bus owns the target, returning whether
    /// it was handled; a register-window write is left to the owning
    /// peripheral.
    pub fn write(&mut self, cart: &mut Cartridge, address: u16, data: u8) -> (handled: bool)
        requires
            old(self).wf(),
            old(cart).wf(),
        ensures
            final(self).wf(),
            final(cart).wf(),
            handled == !(spec_decode_cpu_address(address) is PpuRegister
                || spec_decode_cpu_address(address) is OamDma || spec_decode_cpu_address(address)
                is ApuRegister || spec_decode_cpu_address(address) is ControllerPort),
            (match spec_decode_cpu_address(address) {
                CpuBusTarget::InternalRam(o) => *final(cart) == *old(cart) && final(self).ram@
                    == old(self).ram@.update(o as int, data) && *final(self) == (CPUBus {
                    ram: final(self).ram,
                    ..*old(self)
                }),
                CpuBusTarget::CartridgeSpace => {
                    &&& *final(self) == *old(self)
                    &&& final(cart).mapper == old(cart).mapper.spec_map_write_state(
                        address,
                        data,
                        Device::Cpu,
                    )
                    &&& final(cart).chr@ == old(cart).chr@
                    &&& final(cart).prg_rom@ == old(cart).prg_rom@
                    &&& final(cart).hardwired_mirroring == old(cart).hardwired_mirroring
                    &&& final(cart).prg_ram@ == (match old(cart).mapper.spec_map_write_result(
                        address,
                        Device::Cpu,
                    ) {
                        crate::common::MappingResult::Allowed(o) => old(cart).prg_ram@.update(
                            o as int,
                            data,
                        ),
                        crate::common::MappingResult::Denied => old(cart).prg_ram@,
                    })
                },
                _ => *final(self) == *old(self) && *final(cart) == *old(cart),
            }),
    {
        match decode_cpu_address(address) {
            CpuBusTarget::InternalRam(offset) => {
                proof {
                    assert(address < 0x2000 ==> (address & 0x7FF) < 0x800) by (bit_vector);
                }
                self.ram.set(offset as usize, data);
                true
            },
            CpuBusTarget::TestMode => {
                // unused CPU test mode registers: the write is dropped
                true
            },
            CpuBusTarget::CartridgeSpace => {
                cart.write(address, data, Device::Cpu);
                true
            },
            _ => false,
        }
    }

    /// Discards RAM contents on a soft reset. Signal lines and the
    /// cartridge's programmed state survive, matching real hardware.
    pub fn reset(&mut self)
        requires
            old(self).wf(),
        ensures
            final(self).wf(),
            forall|i: int| 0 <= i < 0x800 ==> final(self).ram@[i] == 0u8,
            *final(self) == (CPUBus { ram: final(self).ram, ..*old(self) }),
    {
        let mut i: usize = 0;
        while i < 0x800
            invariant
                old(self).wf(),
                i <= 0x800,
                *self == (CPUBus { ram: self.ram, ..*old(self) }),
                self.ram@.len() == 0x800,
                forall|j: int| 0 <= j < i ==> self.ram@[j] == 0u8,
            decreases 0x800 - i,
        {
            self.ram.set(i, 0);
            i = i + 1;
        }
    }

    /// The picture processor raises or clears the NMI line.
    pub fn set_nmi_pin(&mut self, value: bool)
        ensures
            *final(self) == (CPUBus { nmi_pin: value, ..*old(self) }),
    {
        self.nmi_pin = value;
    }

    /// The CPU polls the NMI line at its next instruction boundary.
    pub fn is_nmi_pin_set(&self) -> (r: bool)
        ensures
            r == self.nmi_pin,
    {
        self.nmi_pin
    }

    /// The CPU acknowledges the edge-triggered NMI.
    pub fn clear_nmi_pin(&mut self)
        ensures
            *final(self) == (CPUBus { nmi_pin: false, ..*old(self) }),
    {
        self.nmi_pin = false;
    }

    /// The picture processor requests a 256-byte OAM block copy from the
    /// given page.
    pub fn request_dma(&mut self, page: u8)
        ensures
            *final(self) == (CPUBus { dma_request: true, dma_page: page, ..*old(self) }),
    {
        self.dma_request = true;
        self.dma_page = page;
    }

    pub fn is_dma_request(&self) -> (r: bool)
        ensures
            r == self.dma_request,
    {
        self.dma_request
    }

    pub fn clear_dma_request(&mut self)
        ensures
            *final(self) == (CPUBus { dma_request: false, ..*old(self) }),
    {
        self.dma_request = false;
    }

    /// The page a pending OAM DMA sources its 256 bytes from.
    pub fn dma_address(&self) -> (r: u8)
        ensures
            r == self.dma_page,
    {
        self.dma_page
    }

    /// The audio processor asks for one byte of cartridge space, to be
    /// delivered on a later cycle.
    pub fn request_dmc_read(&mut self, address: u16)
        ensures
            *final(self) == (CPUBus { dmc_read_request: Some(address), ..*old(self) }),
    {
        self.dmc_read_request = Some(address);
    }

    /// The CPU polls for a pending DMC sample fetch.
    pub fn request_dmc_reader_read(&self) -> (r: Option<u16>)
        ensures
            r == self.dmc_read_request,
    {
        self.dmc_read_request
    }

    /// The CPU delivers the fetched sample byte; the pending request is
    /// consumed.
    pub fn submit_dmc_buffer_byte(&mut self, byte: u8) -> (r: Option<(u16, u8)>)
        ensures
            *final(self) == (CPUBus { dmc_read_request: None, ..*old(self) }),
            r == (match old(self).dmc_read_request {
                Some(address) => Some((address, byte)),
                None => None::<(u16, u8)>,
            }),
    {
        let pending = self.dmc_read_request;
        self.dmc_read_request = None;
        match pending {
            Some(address) => Some((address, byte)),
            None => None,
        }
    }

    /// The audio processor feeds in its IRQ line and whether it changed.
    pub fn set_apu_irq(&mut self, pin: bool, change_requested: bool)
        ensures
            *final(self) == (CPUBus {
                apu_irq_pin: pin,
                apu_irq_change_requested: change_requested,
                ..*old(self)
            }),
    {
        self.apu_irq_pin = pin;
        self.apu_irq_change_requested = change_requested;
    }

    /// Polls whether any IRQ source signalled a change, and latches the
    /// answer: the CPU re-evaluates the merged line only when this is set.
    pub fn is_irq_change_requested(&mut self, cart: &Cartridge) -> (r: bool)
        ensures
            r == old(self).apu_irq_change_requested,
            *final(self) == (CPUBus { irq_pin_change_requested: r, ..*old(self) }),
    {
        let result = self.apu_irq_change_requested || cart.is_irq_change_requested();
        self.irq_pin_change_requested = result;
        result
    }

    /// The merged IRQ line: the logical OR of the audio processor's and the
    /// cartridge chip's IRQ states, evaluated only while a change stands
    /// latched.
    pub fn irq_pin_state(&self, cart: &Cartridge) -> (r: bool)
        ensures
            r == (self.irq_pin_change_requested && self.apu_irq_pin),
    {
        if self.irq_pin_change_requested {
            let mut result = self.apu_irq_pin;
            if cart.is_irq_change_requested() {
                result = result || cart.irq_pin_state();
            }
            result
        } else {
            false
        }
    }

    /// The CPU acknowledges the merged line; every source's change flag is
    /// cleared with the latch.
    pub fn clear_irq_request_pin(&mut self, cart: &mut Cartridge)
        ensures
            *final(cart) == *old(cart),
            *final(self) == (CPUBus {
                irq_pin_change_requested: false,
                apu_irq_change_requested: false,
                ..*old(self)
            }),
    {
        self.irq_pin_change_requested = false;
        self.apu_irq_change_requested = false;
        cart.clear_irq_request_pin();
    }

    /// Serializes the bus's own state: the RAM bytes.
    pub fn save(&self) -> (r: Vec<u8>)
        requires
            self.wf(),
        ensures
            r@ == self.ram@,
    {
        let mut out: Vec<u8> = Vec::new();
        let mut i: usize = 0;
        while i < self.ram.len()
            invariant
                i <= self.ram@.len(),
                out@ == self.ram@.subrange(0, i as int),
            decreases self.ram@.len() - i,
        {
            out.push(self.ram[i]);
            proof {
                assert(out@ =~= self.ram@.subrange(0, i + 1));
            }
            i = i + 1;
        }
        proof {
            assert(out@ =~= self.ram@);
        }
        out
    }

    /// Restores the RAM bytes from a saved slice of exactly their size.
    pub fn load(&mut self, data: &Vec<u8>)
        requires
            old(self).wf(),
            data@.len() == 0x800,
        ensures
            final(self).wf(),
            final(self).ram@ == data@,
            *final(self) == (CPUBus { ram: final(self).ram, ..*old(self) }),
    {
        let mut fresh: Vec<u8> = Vec::new();
        let mut i: usize = 0;
        while i < data.len()
            invariant
                i <= data@.len(),
                fresh@ == data@.subrange(0, i as int),
            decreases data@.len() - i,
        {
            fresh.push(data[i]);
            proof {
                assert(fresh@ =~= data@.subrange(0, i + 1));
            }
            i = i + 1;
        }
        proof {
            assert(fresh@ =~= data@);
        }
        self.ram = fresh;
    }
}

} // verus!

//! Shift-register-programmed bank-switching chip (board variant "1"): five
//! latched registers, filled one bit at a time over a serial protocol,
//! control the PRG/CHR window sizes, PRG-RAM banking and mirroring.

use vstd::prelude::*;

use crate::common::{Device, MappingResult, MirroringMode};

verus! {

/// Chip registers plus the geometry cached by `init`.
pub struct Mapper1 {
    /// 5-bit serial shift register. A sentinel 1 starts at the top; once it
    /// has been shifted down to bit 0, the register holds five collected
    /// bits and the next serial write commits.
    pub writing_shift_register: u8,
    /// CPPMM: mirroring (2 bits), PRG window mode (2 bits), CHR window mode
    /// (1 bit).
    pub control_register: u8,
    /// CHR bank at PPU $0000 (its low bit is ignored in 8 KiB CHR mode). On
    /// some board sub-variants its high bits double as PRG-RAM bank select,
    /// PRG-RAM disable, or a PRG high address bit.
    pub chr_0_bank: u8,
    /// CHR bank at PPU $1000 (ignored in 8 KiB CHR mode); same double duty
    /// as `chr_0_bank` on the sub-variants.
    pub chr_1_bank: u8,
    /// 16 KiB PRG bank select (low bit ignored in 32 KiB mode).
    pub prg_bank: u8,
    /// PRG RAM chip enable, latched from bit 4 of the PRG register write.
    pub prg_ram_enable: bool,
    /// Whether CHR storage is RAM, and so accepts PPU writes.
    pub is_chr_ram: bool,
    /// CHR banks, in 4 KiB units. `init` receives 8 KiB units and doubles
    /// them, so this count is always even.
    pub chr_count: u8,
    /// PRG banks, in 16 KiB units.
    pub prg_count: u8,
    /// PRG RAM banks, in 8 KiB units.
    pub prg_ram_count: u8,
}

impl Mapper1 {
    /// Bank geometry has been seeded: counts are nonzero and the CHR count,
    /// kept in 4 KiB units, is even.
    pub open spec fn wf(self) -> bool {
        &&& 1 <= self.chr_count
        &&& self.chr_count % 2 == 0
        &&& 1 <= self.prg_count
    }

    /// Bytes of CHR storage this geometry addresses.
    pub open spec fn chr_size(self) -> int {
        self.chr_count as int * 0x1000
    }

    /// Bytes of PRG ROM this geometry addresses.
    pub open spec fn prg_size(self) -> int {
        self.prg_count as int * 0x4000
    }

    /// Bytes of PRG RAM this geometry addresses.
    pub open spec fn prg_ram_size(self) -> int {
        self.prg_ram_count as int * 0x2000
    }

    /// The mirroring field of the control register.
    pub open spec fn spec_mirroring(self) -> u8 {
        self.control_register & 0b00011
    }

    /// The PRG bank register, masked to its 4 live bits.
    pub open spec fn spec_prg_bank(self) -> u8 {
        self.prg_bank & 0b1111
    }

    /// Whether the whole $8000-$FFFF range is one switched 32 KiB bank.
    pub open spec fn spec_prg_32kb_mode(self) -> bool {
        self.control_register & 0b01000 == 0
    }

    /// In 16 KiB PRG mode: whether the first chunk is fixed at bank 0 (the
    /// second being switched), rather than the last chunk fixed at the last
    /// bank.
    pub open spec fn spec_first_prg_chunk_fixed(self) -> bool {
        self.control_register & 0b00100 == 0
    }

    /// Whether CHR switches as one 8 KiB bank rather than two separate
    /// 4 KiB banks.
    pub open spec fn spec_chr_8kb_mode(self) -> bool {
        self.control_register & 0b10000 == 0
    }

    /// The CHR register whose shared bits steer PRG-RAM and the PRG high
    /// bit: CHR-0 in 8 KiB mode, CHR-1 otherwise.
    pub open spec fn spec_active_chr_bank(self) -> u8 {
        if self.spec_chr_8kb_mode() {
            self.chr_0_bank
        } else {
            self.chr_1_bank
        }
    }

    /// Whether PRG RAM answers: the latched enable flag, and on the 8 KiB
    /// CHR-RAM board sub-variant (exactly two 4 KiB CHR banks, at most
    /// 256 KiB PRG) an additional enable bit borrowed from the active CHR
    /// register.
    pub open spec fn spec_prg_ram_enabled(self) -> bool {
        self.prg_ram_enable && (if self.chr_count == 2 && self.prg_count <= 16 {
            self.spec_active_chr_bank() & 0x10 == 0
        } else {
            true
        })
    }

    /// The CHR bank a PPU address selects, before reduction: one doubled
    /// 4 KiB index covering both halves in 8 KiB mode, else CHR-0 below
    /// $1000 and CHR-1 above.
    pub open spec fn spec_chr_bank_raw(self, address: u16) -> u8 {
        if self.spec_chr_8kb_mode() {
            self.chr_0_bank & 0b11110
        } else if address < 0x1000 {
            self.chr_0_bank
        } else {
            self.chr_1_bank
        }
    }

    /// The CHR bank after reduction modulo the bank count.
    pub open spec fn spec_chr_bank(self, address: u16) -> int {
        self.spec_chr_bank_raw(address) as int % self.chr_count as int
    }

    /// Physical CHR offset for a PPU address: start of the selected 4 KiB
    /// bank plus the in-window offset (8 KiB wide in 8 KiB mode).
    pub open spec fn spec_chr_offset(self, address: u16) -> int {
        self.spec_chr_bank(address) * 0x1000 + (address & (if self.spec_chr_8kb_mode() {
            0x1FFF
        } else {
            0x0FFF
        })) as int
    }

    /// The PRG ROM bank the window mode selects, before the high bit and
    /// reduction: the doubled register in 32 KiB mode; in 16 KiB mode one
    /// half is fixed (at bank 0 or at the last bank) and the other follows
    /// the register.
    pub open spec fn spec_prg_rom_bank_raw(self, address: u16) -> u8 {
        if self.spec_prg_32kb_mode() {
            self.spec_prg_bank() & 0b11110
        } else if address < 0xC000 {
            if self.spec_first_prg_chunk_fixed() {
                0
            } else {
                self.spec_prg_bank()
            }
        } else {
            if self.spec_first_prg_chunk_fixed() {
                self.spec_prg_bank()
            } else {
                (self.prg_count - 1) as u8
            }
        }
    }

    /// The board sub-variant that multiplexes a PRG high address bit through
    /// the CHR registers: at least 512 KiB of PRG and exactly two 4 KiB CHR
    /// banks.
    pub open spec fn spec_prg_high_bit(self) -> u8 {
        if self.prg_count > 16 && self.chr_count == 2 {
            self.spec_active_chr_bank() & 0x10
        } else {
            0
        }
    }

    /// The PRG ROM bank after the high bit is folded in and the result is
    /// reduced modulo the bank count.
    pub open spec fn spec_prg_rom_bank(self, address: u16) -> int {
        (self.spec_prg_rom_bank_raw(address) | self.spec_prg_high_bit()) as int
            % self.prg_count as int
    }

    /// Physical PRG ROM offset: start of the selected bank plus the offset
    /// within the window. The window is 32 KiB wide only in 32 KiB mode and
    /// away from the last bank, so that an odd bank count cannot push the
    /// mirrored window past the end of storage.
    pub open spec fn spec_prg_rom_offset(self, address: u16) -> int {
        let bank = self.spec_prg_rom_bank(address);
        let mask: u16 = if self.spec_prg_32kb_mode() && bank != self.prg_count - 1 {
            0x7FFF
        } else {
            0x3FFF
        };
        bank * 0x4000 + (address & mask) as int
    }

    /// The PRG RAM bank: bits 2-3 of the active CHR register when more than
    /// one 8 KiB bank exists, reduced modulo the bank count.
    pub open spec fn spec_prg_ram_bank(self) -> int {
        if self.prg_ram_count > 1 {
            ((self.spec_active_chr_bank() >> 2) & 0x3) as int % self.prg_ram_count as int
        } else {
            0
        }
    }

    /// Physical PRG RAM offset for a CPU address in $6000-$7FFF.
    pub open spec fn spec_prg_ram_offset(self, address: u16) -> int {
        self.spec_prg_ram_bank() * 0x2000 + (address & 0x1FFF) as int
    }

    /// What an access to the PRG RAM window maps to: an offset when RAM is
    /// present and enabled, else open bus.
    pub open spec fn spec_prg_ram_mapping(self, address: u16) -> MappingResult {
        if self.spec_prg_ram_enabled() && self.prg_ram_count > 0 {
            MappingResult::Allowed(self.spec_prg_ram_offset(address) as usize)
        } else {
            MappingResult::Denied
        }
    }

    /// What a read maps to, for every address the decoding tables can hand
    /// this chip.
    pub open spec fn spec_map_read(self, address: u16, device: Device) -> MappingResult {
        match device {
            Device::Cpu => {
                if 0x6000 <= address && address < 0x8000 {
                    self.spec_prg_ram_mapping(address)
                } else if 0x8000 <= address {
                    MappingResult::Allowed(self.spec_prg_rom_offset(address) as usize)
                } else {
                    // $4020-$5FFF
                    MappingResult::Denied
                }
            },
            Device::Ppu => MappingResult::Allowed(self.spec_chr_offset(address) as usize),
        }
    }

    /// The shift register restored to its reset state: the sentinel bit at
    /// the top, no bits collected.
    pub open spec fn spec_reset_shift(self) -> Mapper1 {
        Mapper1 { writing_shift_register: 0b10000, ..self }
    }

    /// An assembled 5-bit value committed into the register that the write
    /// address's high bits select: control, CHR-0, CHR-1 or PRG. A PRG
    /// commit also latches the RAM enable flag from bit 4.
    pub open spec fn spec_commit(self, address: u16, value: u8) -> Mapper1 {
        if address < 0xA000 {
            Mapper1 { control_register: value, ..self }
        } else if address < 0xC000 {
            Mapper1 { chr_0_bank: value, ..self }
        } else if address < 0xE000 {
            Mapper1 { chr_1_bank: value, ..self }
        } else {
            Mapper1 { prg_bank: value & 0xF, prg_ram_enable: value & 0x10 == 0, ..self }
        }
    }

    /// One step of the serial protocol, for a CPU write to $8000-$FFFF:
    /// bit 7 set resets the shift register without committing; otherwise
    /// bit 0 shifts into the top, and if the sentinel had already reached
    /// bit 0 the five collected bits commit and the register resets.
    pub open spec fn spec_serial_write(self, address: u16, data: u8) -> Mapper1 {
        if data & 0x80 != 0 {
            self.spec_reset_shift()
        } else {
            let full = self.writing_shift_register & 1 != 0;
            let shifted = (self.writing_shift_register >> 1) | ((data & 1) << 4);
            if full {
                self.spec_commit(address, shifted & 0b11111).spec_reset_shift()
            } else {
                Mapper1 { writing_shift_register: shifted, ..self }
            }
        }
    }

    /// The chip state after a write: only CPU writes to $8000-$FFFF mutate
    /// registers, through the serial protocol.
    pub open spec fn spec_map_write_state(self, address: u16, data: u8, device: Device) -> Mapper1 {
        if device == Device::Cpu && 0x8000 <= address {
            self.spec_serial_write(address, data)
        } else {
            self
        }
    }

    /// What a write maps to: the PRG RAM window behaves as for reads, ROM
    /// space is never written through, and PPU writes reach CHR only when
    /// it is RAM.
    pub open spec fn spec_map_write_result(self, address: u16, device: Device) -> MappingResult {
        match device {
            Device::Cpu => {
                if 0x6000 <= address && address < 0x8000 {
                    self.spec_prg_ram_mapping(address)
                } else {
                    MappingResult::Denied
                }
            },
            Device::Ppu => {
                if self.is_chr_ram && address <= 0x1FFF {
                    MappingResult::Allowed(self.spec_chr_offset(address) as usize)
                } else {
                    MappingResult::Denied
                }
            },
        }
    }

    /// The storage a mapped offset points into, by access: CHR for the PPU;
    /// PRG RAM below $8000 and PRG ROM above for the CPU.
    pub open spec fn spec_target_size(self, address: u16, device: Device) -> int {
        match device {
            Device::Cpu => {
                if address < 0x8000 {
                    self.prg_ram_size()
                } else {
                    self.prg_size()
                }
            },
            Device::Ppu => self.chr_size(),
        }
    }

    /// The mirroring mode the low control bits select.
    pub open spec fn spec_nametable_mirroring(self) -> MirroringMode {
        let m = self.spec_mirroring();
        if m == 0 {
            MirroringMode::SingleScreenLowBank
        } else if m == 1 {
            MirroringMode::SingleScreenHighBank
        } else if m == 2 {
            MirroringMode::Vertical
        } else {
            MirroringMode::Horizontal
        }
    }

    /// The register bytes and cached geometry, in save order: shift
    /// register, control, CHR-0, CHR-1, PRG bank, CHR count, PRG count,
    /// RAM count, RAM-enable flag, CHR-RAM flag.
    pub open spec fn spec_save(self) -> Seq<u8> {
        seq![
            self.writing_shift_register,
            self.control_register,
            self.chr_0_bank,
            self.chr_1_bank,
            self.prg_bank,
            self.chr_count,
            self.prg_count,
            self.prg_ram_count,
            if self.prg_ram_enable { 1u8 } else { 0u8 },
            if self.is_chr_ram { 1u8 } else { 0u8 },
        ]
    }

    /// The chip state a save byte sequence denotes.
    pub open spec fn spec_load(data: Seq<u8>) -> Mapper1
        recommends
            data.len() == 10,
    {
        Mapper1 {
            writing_shift_register: data[0],
            control_register: data[1],
            chr_0_bank: data[2],
            chr_1_bank: data[3],
            prg_bank: data[4],
            chr_count: data[5],
            prg_count: data[6],
            prg_ram_count: data[7],
            prg_ram_enable: data[8] != 0,
            is_chr_ram: data[9] != 0,
        }
    }

    pub fn new() -> (r: Self)
        ensures
            r == (Mapper1 {
                writing_shift_register: 0b10000,
                control_register: 0x0C,
                chr_0_bank: 0,
                chr_1_bank: 0,
                prg_bank: 0,
                prg_ram_enable: false,
                is_chr_ram: false,
                chr_count: 0,
                prg_count: 0,
                prg_ram_count: 0,
            }),
    {
        Self {
            writing_shift_register: 0b10000,
            control_register: 0x0C,  // power-up
            chr_0_bank: 0,
            chr_1_bank: 0,
            prg_bank: 0,
            prg_ram_enable: false,
            is_chr_ram: false,
            chr_count: 0,
            prg_count: 0,
            prg_ram_count: 0,
        }
    }

    fn reset_shift_register(&mut self)
        ensures
            *final(self) == old(self).spec_reset_shift(),
    {
        // the 1 marks where the collected bits end: once it reaches bit 0
        // the register is full
        self.writing_shift_register = 0b10000;
    }

    fn get_mirroring(&self) -> (r: u8)
        ensures
            r == self.spec_mirroring(),
    {
        self.control_register & 0b00011
    }

    fn get_prg_bank(&self) -> (r: u8)
        ensures
            r == self.spec_prg_bank(),
    {
        self.prg_bank & 0b1111
    }

    fn is_prg_32kb_mode(&self) -> (r: bool)
        ensures
            r == self.spec_prg_32kb_mode(),
    {
        self.control_register & 0b01000 == 0
    }

    fn is_first_prg_chunk_fixed(&self) -> (r: bool)
        ensures
            r == self.spec_first_prg_chunk_fixed(),
    {
        self.control_register & 0b00100 == 0
    }

    fn is_chr_8kb_mode(&self) -> (r: bool)
        ensures
            r == self.spec_chr_8kb_mode(),
    {
        self.control_register & 0b10000 == 0
    }

    fn is_prg_ram_enabled(&self) -> (r: bool)
        ensures
            r == self.spec_prg_ram_enabled(),
    {
        let snrom_prg_ram_enabled = if self.chr_count == 2 && self.prg_count <= 16 {
            if self.is_chr_8kb_mode() {
                self.chr_0_bank & 0x10 == 0
            } else {
                self.chr_1_bank & 0x10 == 0
            }
        } else {
            true
        };
        self.prg_ram_enable && snrom_prg_ram_enabled
    }

    /// An even bank index stays even, and at least two below an even bank
    /// count, after reduction modulo that count.
    proof fn lemma_even_bank_bound(raw: u8, count: u8)
        by (bit_vector)
        requires
            count != 0,
            count & 1 == 0,
            raw & 1 == 0,
        ensures
            raw % count <= count - 2,
    {
    }

    /// Every CHR mapping lands inside CHR storage, whatever the registers
    /// hold and for bank counts that are not powers of two.
    pub proof fn lemma_chr_offset_in_bounds(self, address: u16)
        requires
            self.wf(),
        ensures
            0 <= self.spec_chr_offset(address) < self.chr_size(),
    {
        assert(address & 0x1FFF < 0x2000) by (bit_vector);
        assert(address & 0x0FFF < 0x1000) by (bit_vector);
        if self.spec_chr_8kb_mode() {
            let reg = self.chr_0_bank;
            let raw = reg & 0b11110;
            let count = self.chr_count;
            assert(raw & 1 == 0) by (bit_vector)
                requires
                    raw == reg & 0b11110,
            ;
            assert(count & 1 == 0) by (bit_vector)
                requires
                    count % 2 == 0,
            ;
            Self::lemma_even_bank_bound(raw, count);
            assert(raw as int % count as int == (raw % count) as int);
        } else {
            assert(0 <= self.spec_chr_bank(address) < self.chr_count as int);
        }
    }

    /// Every PRG ROM mapping lands inside PRG storage: the mirrored 32 KiB
    /// window is only used away from the last bank.
    pub proof fn lemma_prg_rom_offset_in_bounds(self, address: u16)
        requires
            self.wf(),
        ensures
            0 <= self.spec_prg_rom_offset(address) < self.prg_size(),
    {
        assert(address & 0x3FFF < 0x4000) by (bit_vector);
        assert(address & 0x7FFF < 0x8000) by (bit_vector);
        let bank = self.spec_prg_rom_bank(address);
        assert(0 <= bank < self.prg_count as int);
    }

    /// Every PRG RAM mapping lands inside PRG RAM storage.
    pub proof fn lemma_prg_ram_offset_in_bounds(self, address: u16)
        requires
            self.prg_ram_count > 0,
        ensures
            0 <= self.spec_prg_ram_offset(address) < self.prg_ram_size(),
    {
        assert(address & 0x1FFF < 0x2000) by (bit_vector);
        assert(0 <= self.spec_prg_ram_bank() < self.prg_ram_count as int);
    }

    /// Every allowed mapping, read or write, lands inside the corresponding
    /// storage, whatever the registers hold and for bank counts that are not
    /// powers of two.
    pub proof fn lemma_mapped_offset_in_bounds(self, address: u16, device: Device)
        requires
            self.wf(),
        ensures
            self.spec_map_read(address, device) matches MappingResult::Allowed(o) ==> 0 <= o
                < self.spec_target_size(address, device),
            self.spec_map_write_result(address, device) matches MappingResult::Allowed(o) ==> 0
                <= o < self.spec_target_size(address, device),
    {
        self.lemma_chr_offset_in_bounds(address);
        self.lemma_prg_rom_offset_in_bounds(address);
        if self.prg_ram_count > 0 {
            self.lemma_prg_ram_offset_in_bounds(address);
        }
    }

    /// Loading a saved state restores the chip exactly, so every subsequent
    /// translation behaves as it did when the state was taken.
    pub proof fn lemma_save_state_round_trip(m: Mapper1)
        ensures
            Self::spec_load(m.spec_save()) == m,
            forall|address: u16, device: Device|
                Self::spec_load(m.spec_save()).spec_map_read(address, device) == m.spec_map_read(
                    address,
                    device,
                ),
    {
    }

    /// A serial write with bit 7 set resets the shift register and commits
    /// nothing: every latched register keeps its value.
    pub proof fn lemma_reset_write_aborts(m: Mapper1, address: u16, data: u8)
        requires
            data & 0x80 != 0,
        ensures
            m.spec_serial_write(address, data) == m.spec_reset_shift(),
    {
    }

    /// The serial protocol commits after five writes: starting from a reset
    /// shift register, five writes with bit 7 clear assemble the low bits of
    /// writes one to five, least significant first, and commit that 5-bit
    /// value into the register selected by the fifth write's address; the
    /// shift register is reset again immediately after the commit. The
    /// addresses of the first four writes play no part.
    pub proof fn lemma_serial_writes_commit(
        m: Mapper1,
        a1: u16,
        a2: u16,
        a3: u16,
        a4: u16,
        a5: u16,
        d1: u8,
        d2: u8,
        d3: u8,
        d4: u8,
        d5: u8,
    )
        requires
            m.writing_shift_register == 0b10000,
            d1 & 0x80 == 0,
            d2 & 0x80 == 0,
            d3 & 0x80 == 0,
            d4 & 0x80 == 0,
            d5 & 0x80 == 0,
        ensures
            m.spec_serial_write(a1, d1).spec_serial_write(a2, d2).spec_serial_write(
                a3,
                d3,
            ).spec_serial_write(a4, d4).spec_serial_write(a5, d5) == m.spec_commit(
                a5,
                ((d1 & 1) | ((d2 & 1) << 1) | ((d3 & 1) << 2) | ((d4 & 1) << 3) | ((d5 & 1) << 4))
                    as u8,
            ).spec_reset_shift(),
    {
        let s0: u8 = 0b10000;
        let s1: u8 = (s0 >> 1) | ((d1 & 1) << 4);
        let s2: u8 = (s1 >> 1) | ((d2 & 1) << 4);
        let s3: u8 = (s2 >> 1) | ((d3 & 1) << 4);
        let s4: u8 = (s3 >> 1) | ((d4 & 1) << 4);
        let s5: u8 = (s4 >> 1) | ((d5 & 1) << 4);
        assert(s0 & 1 == 0 && s1 & 1 == 0 && s2 & 1 == 0 && s3 & 1 == 0 && s4 & 1 == 1 && (s5
            & 0b11111) == ((d1 & 1) | ((d2 & 1) << 1) | ((d3 & 1) << 2) | ((d4 & 1) << 3) | ((d5
            & 1) << 4))) by (bit_vector)
            requires
                s1 == (s0 >> 1) | ((d1 & 1) << 4),
                s2 == (s1 >> 1) | ((d2 & 1) << 4),
                s3 == (s2 >> 1) | ((d3 & 1) << 4),
                s4 == (s3 >> 1) | ((d4 & 1) << 4),
                s5 == (s4 >> 1) | ((d5 & 1) << 4),
                s0 == 0b10000u8,
        ;
        let m1 = m.spec_serial_write(a1, d1);
        let m2 = m1.spec_serial_write(a2, d2);
        let m3 = m2.spec_serial_write(a3, d3);
        let m4 = m3.spec_serial_write(a4, d4);
        let m5 = m4.spec_serial_write(a5, d5);
        assert(m1 == Mapper1 { writing_shift_register: s1, ..m });
        assert(m2 == Mapper1 { writing_shift_register: s2, ..m });
        assert(m3 == Mapper1 { writing_shift_register: s3, ..m });
        assert(m4 == Mapper1 { writing_shift_register: s4, ..m });
        assert(m5 == m4.spec_commit(a5, s5 & 0b11111).spec_reset_shift());
    }

    fn map_ppu(&self, address: u16) -> (r: MappingResult)
        requires
            self.wf(),
            address < 0x2000,
        ensures
            r == MappingResult::Allowed(self.spec_chr_offset(address) as usize),
            self.spec_chr_offset(address) < self.chr_size(),
    {
        proof {
            self.lemma_chr_offset_in_bounds(address);
        }
        let bank_reg: u8 = if self.is_chr_8kb_mode() {
            self.chr_0_bank & 0b11110
        } else if address < 0x1000 {
            self.chr_0_bank
        } else {
            self.chr_1_bank
        };
        let bank: usize = (bank_reg as usize) % (self.chr_count as usize);
        let start_of_bank: usize = 0x1000 * bank;
        let mask: u16 = if self.is_chr_8kb_mode() {
            0x1FFF
        } else {
            0x0FFF
        };
        MappingResult::Allowed(start_of_bank + (address & mask) as usize)
    }

    fn map_prg_ram(&self, address: u16) -> (r: MappingResult)
        ensures
            r == self.spec_prg_ram_mapping(address),
            r matches MappingResult::Allowed(o) ==> o < self.prg_ram_size(),
    {
        if self.is_prg_ram_enabled() && self.prg_ram_count > 0 {
            proof {
                self.lemma_prg_ram_offset_in_bounds(address);
            }
            let bank_reg: u8 = if self.prg_ram_count > 1 {
                (if self.is_chr_8kb_mode() {
                    self.chr_0_bank
                } else {
                    self.chr_1_bank
                } >> 2) & 0x3
            } else {
                0
            };
            let bank: usize = (bank_reg as usize) % (self.prg_ram_count as usize);
            MappingResult::Allowed(bank * 0x2000 + (address & 0x1FFF) as usize)
        } else {
            MappingResult::Denied
        }
    }

    /// Seeds the geometry and power-up register state, called once per
    /// cartridge load. The CHR count arrives in 8 KiB units and is kept
    /// doubled, in 4 KiB units.
    pub fn init(&mut self, prg_count: u8, is_chr_ram: bool, chr_count: u8, sram_count: u8)
        requires
            1 <= prg_count,
            1 <= chr_count,
            chr_count * 2 <= 255,
        ensures
            *final(self) == (Mapper1 {
                writing_shift_register: 0b10000,
                control_register: 0b11100,
                prg_bank: (prg_count - 1) as u8,
                is_chr_ram,
                chr_count: (chr_count * 2) as u8,
                prg_count,
                prg_ram_count: sram_count,
                ..*old(self)
            }),
            final(self).wf(),
    {
        self.prg_count = prg_count;
        self.chr_count = chr_count * 2;  // passed as a count of 8 KiB banks
        self.is_chr_ram = is_chr_ram;
        self.prg_bank = prg_count - 1;  // power-up: all bits set
        self.control_register = 0b11100;  // power-up state
        self.prg_ram_count = sram_count;
        self.reset_shift_register();
    }

    /// Translates a read. The decoding tables only hand this chip CPU
    /// addresses at $4020 and above and PPU addresses below $2000; anything
    /// else is a decoding-table bug, excluded here rather than absorbed.
    pub fn map_read(&self, address: u16, device: Device) -> (r: MappingResult)
        requires
            self.wf(),
            device == Device::Cpu ==> 0x4020 <= address,
            device == Device::Ppu ==> address < 0x2000,
        ensures
            r == self.spec_map_read(address, device),
            r matches MappingResult::Allowed(o) ==> o < self.spec_target_size(address, device),
    {
        proof {
            self.lemma_mapped_offset_in_bounds(address, device);
        }
        match device {
            Device::Cpu => {
                if 0x6000 <= address && address < 0x8000 {
                    self.map_prg_ram(address)
                } else if 0x8000 <= address {
                    let bank_reg: u8 = if self.is_prg_32kb_mode() {
                        // ignore the register's low bit
                        self.get_prg_bank() & 0b11110
                    } else if address < 0xC000 {
                        if self.is_first_prg_chunk_fixed() {
                            0
                        } else {
                            self.get_prg_bank()
                        }
                    } else {
                        if self.is_first_prg_chunk_fixed() {
                            self.get_prg_bank()
                        } else {
                            // last bank
                            self.prg_count - 1
                        }
                    };
                    let high_bit: u8 = if self.prg_count > 16 && self.chr_count == 2 {
                        // the 512 KiB board sub-variant borrows a PRG high
                        // bit from the active CHR register
                        (if self.is_chr_8kb_mode() {
                            self.chr_0_bank
                        } else {
                            self.chr_1_bank
                        }) & 0x10
                    } else {
                        0
                    };
                    let with_high: u8 = bank_reg | high_bit;
                    let bank: usize = (with_high as usize) % (self.prg_count as usize);
                    let start_of_bank: usize = 0x4000 * bank;
                    // the mirrored 32 KiB window must not be used on the
                    // last bank: with an odd bank count it would run past
                    // the end of storage
                    let mask: u16 = if self.is_prg_32kb_mode() && bank != (self.prg_count
                        - 1) as usize {
                        0x7FFF
                    } else {
                        0x3FFF
                    };
                    MappingResult::Allowed(start_of_bank + (address & mask) as usize)
                } else {
                    // $4020-$5FFF
                    MappingResult::Denied
                }
            },
            Device::Ppu => self.map_ppu(address),
        }
    }

    /// Translates a write: the PRG RAM window maps as for reads; a CPU write
    /// to $8000-$FFFF steps the serial protocol and never reaches storage;
    /// a PPU write reaches CHR only when it is RAM.
    pub fn map_write(&mut self, address: u16, data: u8, device: Device) -> (r: MappingResult)
        requires
            old(self).wf(),
            device == Device::Cpu ==> 0x4020 <= address,
        ensures
            *final(self) == old(self).spec_map_write_state(address, data, device),
            final(self).wf(),
            r == old(self).spec_map_write_result(address, device),
            r matches MappingResult::Allowed(o) ==> o < old(self).spec_target_size(
                address,
                device,
            ),
    {
        proof {
            old(self).lemma_mapped_offset_in_bounds(address, device);
        }
        match device {
            Device::Cpu => {
                if 0x6000 <= address && address < 0x8000 {
                    self.map_prg_ram(address)
                } else if 0x8000 <= address {
                    if data & 0x80 != 0 {
                        self.reset_shift_register();
                    } else {
                        // the sentinel at bit 0 means five bits have been
                        // collected: this write completes the value
                        let should_save = self.writing_shift_register & 1 != 0;
                        self.writing_shift_register = (self.writing_shift_register >> 1) | ((data
                            & 1) << 4);
                        if should_save {
                            let result = self.writing_shift_register & 0b11111;
                            if address < 0xA000 {
                                self.control_register = result;
                            } else if address < 0xC000 {
                                self.chr_0_bank = result;
                            } else if address < 0xE000 {
                                self.chr_1_bank = result;
                            } else {
                                self.prg_bank = result & 0xF;
                                self.prg_ram_enable = result & 0x10 == 0;
                            }
                            self.reset_shift_register();
                        }
                    }
                    MappingResult::Denied
                } else {
                    // $4020-$5FFF
                    MappingResult::Denied
                }
            },
            Device::Ppu => {
                if self.is_chr_ram && address <= 0x1FFF {
                    self.map_ppu(address)
                } else {
                    MappingResult::Denied
                }
            },
        }
    }

    /// This chip drives mirroring from its control register, never from the
    /// cartridge header.
    pub fn is_hardwired_mirrored(&self) -> (r: bool)
        ensures
            !r,
    {
        false
    }

    /// The mirroring mode selected by the low two control bits.
    pub fn nametable_mirroring(&self) -> (r: MirroringMode)
        ensures
            r == self.spec_nametable_mirroring(),
    {
        let m = self.get_mirroring();
        if m == 0 {
            MirroringMode::SingleScreenLowBank
        } else if m == 1 {
            MirroringMode::SingleScreenHighBank
        } else if m == 2 {
            MirroringMode::Vertical
        } else {
            MirroringMode::Horizontal
        }
    }

    pub fn save_state_size(&self) -> (r: usize)
        ensures
            r == self.spec_save().len(),
    {
        10
    }

    /// Serializes every register and cached count. The order is part of the
    /// save-state format; changing it breaks compatibility.
    pub fn save_state(&self) -> (r: Vec<u8>)
        ensures
            r@ == self.spec_save(),
    {
        let mut out: Vec<u8> = Vec::new();
        out.push(self.writing_shift_register);
        out.push(self.control_register);
        out.push(self.chr_0_bank);
        out.push(self.chr_1_bank);
        out.push(self.prg_bank);
        out.push(self.chr_count);
        out.push(self.prg_count);
        out.push(self.prg_ram_count);
        out.push(if self.prg_ram_enable { 1 } else { 0 });
        out.push(if self.is_chr_ram { 1 } else { 0 });
        proof {
            assert(out@ =~= self.spec_save());
        }
        out
    }

    /// Restores every register and cached count from a saved byte vector.
    /// The buffer size is checked by precondition: blind indexing of a wrong
    /// size would silently corrupt state.
    pub fn load_state(&mut self, data: Vec<u8>)
        requires
            data@.len() == old(self).spec_save().len(),
        ensures
            *final(self) == Self::spec_load(data@),
    {
        self.writing_shift_register = data[0];
        self.control_register = data[1];
        self.chr_0_bank = data[2];
        self.chr_1_bank = data[3];
        self.prg_bank = data[4];
        self.chr_count = data[5];
        self.prg_count = data[6];
        self.prg_ram_count = data[7];
        self.prg_ram_enable = data[8] != 0;
        self.is_chr_ram = data[9] != 0;
    }
}

} // verus!


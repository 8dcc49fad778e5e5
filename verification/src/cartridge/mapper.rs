//! Cartridge mappers: how CPU addresses reach PRG ROM and RAM, and the registers some
//! mappers have for switching banks.

use vstd::prelude::*;

use crate::address::Address;

verus! {

pub const BANK_SIZE: usize = 16_384;

/// Where a CPU address lands on a cartridge.
#[derive(Copy, Clone, Debug, PartialEq, Eq, Structural)]
pub enum PRGAddress {
    /// An index into PRG ROM, before wrapping at the size of the ROM.
    ROM(usize),
    /// An index into the 8KB of PRG RAM.
    RAM(usize),
    Unmapped,
}

/// How each of four logical nametables is mapped to one of two physical nametables:
/// `0b0000abcd`, one bit per logical nametable, set for the upper physical one.
#[derive(Copy, Clone, Debug, PartialEq, Eq, Structural)]
pub struct NametableMirroring(pub u8);

impl NametableMirroring {
    pub const UPPER: u8 = 0b0000;
    pub const LOWER: u8 = 0b1111;
    pub const HORIZONTAL: u8 = 0b0011;
    pub const VERTICAL: u8 = 0b0101;

    /// The physical nametable (0 or 1) of a logical one; logical nametables 4 to 7 map to 0.
    pub open spec fn physical(self, logical: usize) -> usize {
        if (self.0 & (0b1000u8 >> logical as u8)) != 0 {
            1
        } else {
            0
        }
    }

    pub fn logical_to_physical_nametable(&self, logical_nametable: usize) -> (p: usize)
        requires
            logical_nametable < 8,
        ensures
            p == self.physical(logical_nametable),
    {
        if (self.0 & (0b1000u8 >> logical_nametable as u8)) != 0 {
            1
        } else {
            0
        }
    }

    /// The index in the 2KB of nametable RAM for an index in the 4KB of logical nametables.
    pub open spec fn map_index_spec(self, index: usize) -> usize {
        (self.physical(index / 0x400) * 0x400 + index % 0x400) as usize
    }

    pub fn map_index(&self, index: usize) -> (i: usize)
        requires
            index < 0x2000,
        ensures
            i == self.map_index_spec(index),
            i < 0x800,
    {
        let logical_nametable = index / 0x400;
        let physical_nametable = self.logical_to_physical_nametable(logical_nametable);

        (physical_nametable * 0x400) + (index % 0x400)
    }
}

impl Default for NametableMirroring {
    fn default() -> (m: Self)
        ensures
            m.0 == NametableMirroring::VERTICAL,
    {
        NametableMirroring(NametableMirroring::VERTICAL)
    }
}

/// A mapper: maps CPU addresses to PRG ROM or RAM, and may have registers written through
/// the ROM's addresses.
pub trait Mapper: Sized {
    spec fn map_spec(&self, address: Address) -> PRGAddress;

    /// The mapper after a write of `data` to `address`, and whether a register took it.
    spec fn register_written(self, address: Address, data: u8) -> (Self, bool);

    spec fn mirroring(&self) -> NametableMirroring;

    /// The mapper's own invariant.
    spec fn wf(&self) -> bool;

    /// Maps a CPU address to an address in the PRG.
    fn map_cpu(&self, address: Address) -> (a: PRGAddress)
        ensures
            a == self.map_spec(address),
    ;

    /// Writes to a register, if the mapper has one at this address; returns whether one was
    /// written.
    fn write_register(&mut self, address: Address, data: u8) -> (written: bool)
        requires
            old(self).wf(),
        ensures
            final(self).wf(),
            (*final(self), written) == old(self).register_written(address, data),
    ;

    /// The current nametable mirroring.
    fn nametable_mirroring(&self) -> (m: NametableMirroring)
        ensures
            m == self.mirroring(),
    ;
}

/// PRG RAM at 0x6000-0x7fff, and the ROM index for 0x8000 on.
pub open spec fn ram_or(address: Address, rom: usize) -> PRGAddress {
    if 0x6000 <= address.0 <= 0x7fff {
        PRGAddress::RAM((address.0 - 0x6000) as usize)
    } else if address.0 >= 0x8000 {
        PRGAddress::ROM(rom)
    } else {
        PRGAddress::Unmapped
    }
}

/// A ROM index in 16KB bank `bank`.
pub open spec fn bank_index(offset: int, bank: u8) -> usize {
    (bank * BANK_SIZE + offset) as usize
}

/// No mapper: 32KB of ROM at 0x8000, mirrored if smaller.
#[derive(Copy, Clone, Debug, PartialEq, Eq, Structural)]
pub struct NROM;

/// A switchable 16KB bank at 0x8000 and the last bank fixed at 0xc000; writing anywhere in
/// ROM selects the bank.
#[derive(Copy, Clone, Debug, PartialEq, Eq, Structural)]
pub struct UxROM {
    pub last_bank: u8,
    pub bank: u8,
}

/// Like UxROM, but written one bit at a time through a serial shift register; five writes
/// fill a register chosen by the address of the fifth. A write with bit 7 set resets the
/// shift register.
#[derive(Copy, Clone, Debug, PartialEq, Eq, Structural)]
pub struct MMC1 {
    pub last_bank: u8,
    pub bank: u8,
    pub nametable_mirroring: NametableMirroring,
    pub shift_register: u8,
    pub shift_register_writes: u8,
}

/// The number of the last 16KB bank of a PRG ROM of `len` bytes.
pub open spec fn last_bank_of(len: nat) -> u8 {
    ((len / BANK_SIZE as nat - 1) % 256) as u8
}

impl UxROM {
    pub fn new(prg_rom: &[u8]) -> (m: Self)
        requires
            prg_rom@.len() >= BANK_SIZE,
        ensures
            m == (UxROM { last_bank: last_bank_of(prg_rom@.len()), bank: 0 }),
    {
        Self { last_bank: ((prg_rom.len() / BANK_SIZE - 1) % 256) as u8, bank: 0 }
    }
}

impl MMC1 {
    pub fn new(prg_rom: &[u8]) -> (m: Self)
        requires
            prg_rom@.len() >= BANK_SIZE,
        ensures
            m == (MMC1 {
                last_bank: last_bank_of(prg_rom@.len()),
                bank: 0,
                nametable_mirroring: NametableMirroring(NametableMirroring::VERTICAL),
                shift_register: 0,
                shift_register_writes: 0,
            }),
    {
        Self {
            last_bank: ((prg_rom.len() / BANK_SIZE - 1) % 256) as u8,
            bank: 0,
            nametable_mirroring: NametableMirroring::default(),
            shift_register: 0,
            shift_register_writes: 0,
        }
    }
}

/// The mirroring chosen by the two low bits of the MMC1 control register.
pub open spec fn mmc1_mirroring(value: u8) -> NametableMirroring {
    NametableMirroring(
        if value % 4 == 0 {
            NametableMirroring::LOWER
        } else if value % 4 == 1 {
            NametableMirroring::UPPER
        } else if value % 4 == 2 {
            NametableMirroring::VERTICAL
        } else {
            NametableMirroring::HORIZONTAL
        },
    )
}

impl Mapper for NROM {
    open spec fn map_spec(&self, address: Address) -> PRGAddress {
        ram_or(address, (address.0 - 0x8000) as usize)
    }

    open spec fn register_written(self, address: Address, data: u8) -> (Self, bool) {
        (self, false)
    }

    open spec fn mirroring(&self) -> NametableMirroring {
        NametableMirroring(NametableMirroring::VERTICAL)
    }

    open spec fn wf(&self) -> bool {
        true
    }

    fn map_cpu(&self, address: Address) -> (a: PRGAddress) {
        if 0x6000 <= address.0 && address.0 <= 0x7fff {
            PRGAddress::RAM(address.index() - 0x6000)
        } else if address.0 >= 0x8000 {
            PRGAddress::ROM(address.index() - 0x8000)
        } else {
            PRGAddress::Unmapped
        }
    }

    fn write_register(&mut self, address: Address, data: u8) -> (written: bool) {
        false
    }

    fn nametable_mirroring(&self) -> (m: NametableMirroring) {
        NametableMirroring::default()
    }
}

impl Mapper for UxROM {
    open spec fn map_spec(&self, address: Address) -> PRGAddress {
        ram_or(
            address,
            if address.0 <= 0xbfff {
                bank_index(address.0 - 0x8000, self.bank)
            } else {
                bank_index(address.0 - 0xc000, self.last_bank)
            },
        )
    }

    open spec fn register_written(self, address: Address, data: u8) -> (Self, bool) {
        if address.0 >= 0x8000 {
            (UxROM { bank: data, ..self }, true)
        } else {
            (self, false)
        }
    }

    open spec fn mirroring(&self) -> NametableMirroring {
        NametableMirroring(NametableMirroring::VERTICAL)
    }

    open spec fn wf(&self) -> bool {
        true
    }

    fn map_cpu(&self, address: Address) -> (a: PRGAddress) {
        if 0x6000 <= address.0 && address.0 <= 0x7fff {
            PRGAddress::RAM(address.index() - 0x6000)
        } else if 0x8000 <= address.0 && address.0 <= 0xbfff {
            PRGAddress::ROM(self.bank as usize * BANK_SIZE + (address.index() - 0x8000))
        } else if address.0 >= 0xc000 {
            PRGAddress::ROM(self.last_bank as usize * BANK_SIZE + (address.index() - 0xc000))
        } else {
            PRGAddress::Unmapped
        }
    }

    fn write_register(&mut self, address: Address, data: u8) -> (written: bool) {
        if address.0 < 0x8000 {
            return false;
        }
        self.bank = data;
        true
    }

    fn nametable_mirroring(&self) -> (m: NametableMirroring) {
        NametableMirroring::default()
    }
}

impl Mapper for MMC1 {
    open spec fn map_spec(&self, address: Address) -> PRGAddress {
        ram_or(
            address,
            if address.0 <= 0xbfff {
                bank_index(address.0 - 0x8000, self.bank)
            } else {
                bank_index(address.0 - 0xc000, self.last_bank)
            },
        )
    }

    /// A write with bit 7 set resets the shift register. Otherwise bit 0 is shifted in from
    /// the top; on the fifth write the value goes to the register chosen by the address:
    /// 0x8000-0x9fff control (mirroring), 0xe000-0xffff PRG bank. The CHR bank registers
    /// (0xa000-0xdfff) are not supported and keep nothing.
    open spec fn register_written(self, address: Address, data: u8) -> (Self, bool) {
        if address.0 < 0x8000 {
            (self, false)
        } else if data & 0x80 != 0 {
            (MMC1 { shift_register: 0, shift_register_writes: 0, ..self }, true)
        } else {
            let shift = (self.shift_register >> 1u8) | ((data & 1) << 4u8);
            let writes = (self.shift_register_writes + 1) as u8;
            if writes < 5 {
                (MMC1 { shift_register: shift, shift_register_writes: writes, ..self }, true)
            } else {
                let m = if address.0 <= 0x9fff {
                    MMC1 { nametable_mirroring: mmc1_mirroring(shift), ..self }
                } else if address.0 >= 0xe000 {
                    MMC1 { bank: shift & 0b1111, ..self }
                } else {
                    self
                };
                (MMC1 { shift_register: 0, shift_register_writes: 0, ..m }, true)
            }
        }
    }

    open spec fn mirroring(&self) -> NametableMirroring {
        self.nametable_mirroring
    }

    open spec fn wf(&self) -> bool {
        self.shift_register_writes < 5
    }

    fn map_cpu(&self, address: Address) -> (a: PRGAddress) {
        if 0x6000 <= address.0 && address.0 <= 0x7fff {
            PRGAddress::RAM(address.index() - 0x6000)
        } else if 0x8000 <= address.0 && address.0 <= 0xbfff {
            PRGAddress::ROM(self.bank as usize * BANK_SIZE + (address.index() - 0x8000))
        } else if address.0 >= 0xc000 {
            PRGAddress::ROM(self.last_bank as usize * BANK_SIZE + (address.index() - 0xc000))
        } else {
            PRGAddress::Unmapped
        }
    }

    fn write_register(&mut self, address: Address, data: u8) -> (written: bool) {
        if address.0 < 0x8000 {
            return false;
        }

        let reset = data & 0x80 != 0;
        if reset {
            self.shift_register = 0;
            self.shift_register_writes = 0;
            return true;
        }

        self.shift_register = (self.shift_register >> 1u8) | ((data & 1) << 4u8);
        self.shift_register_writes = self.shift_register_writes + 1;

        if self.shift_register_writes < 5 {
            return true;
        }

        let value = self.shift_register;
        if address.0 <= 0x9fff {
            let bits = value % 4;
            let nametable_mirroring = if bits == 0 {
                NametableMirroring::LOWER
            } else if bits == 1 {
                NametableMirroring::UPPER
            } else if bits == 2 {
                NametableMirroring::VERTICAL
            } else {
                NametableMirroring::HORIZONTAL
            };
            self.nametable_mirroring = NametableMirroring(nametable_mirroring);
        } else if address.0 >= 0xe000 {
            self.bank = value & 0b1111;
        }

        self.shift_register = 0;
        self.shift_register_writes = 0;

        true
    }

    fn nametable_mirroring(&self) -> (m: NametableMirroring) {
        self.nametable_mirroring
    }
}

/// The mapper of a cartridge.
#[derive(Copy, Clone, Debug, PartialEq, Eq, Structural)]
pub enum AnyMapper {
    NROM(NROM),
    UxROM(UxROM),
    MMC1(MMC1),
}

impl Mapper for AnyMapper {
    open spec fn map_spec(&self, address: Address) -> PRGAddress {
        match self {
            AnyMapper::NROM(m) => m.map_spec(address),
            AnyMapper::UxROM(m) => m.map_spec(address),
            AnyMapper::MMC1(m) => m.map_spec(address),
        }
    }

    open spec fn register_written(self, address: Address, data: u8) -> (Self, bool) {
        match self {
            AnyMapper::NROM(m) => {
                let (m1, w) = m.register_written(address, data);
                (AnyMapper::NROM(m1), w)
            },
            AnyMapper::UxROM(m) => {
                let (m1, w) = m.register_written(address, data);
                (AnyMapper::UxROM(m1), w)
            },
            AnyMapper::MMC1(m) => {
                let (m1, w) = m.register_written(address, data);
                (AnyMapper::MMC1(m1), w)
            },
        }
    }

    open spec fn mirroring(&self) -> NametableMirroring {
        match self {
            AnyMapper::NROM(m) => m.mirroring(),
            AnyMapper::UxROM(m) => m.mirroring(),
            AnyMapper::MMC1(m) => m.mirroring(),
        }
    }

    open spec fn wf(&self) -> bool {
        match self {
            AnyMapper::NROM(m) => m.wf(),
            AnyMapper::UxROM(m) => m.wf(),
            AnyMapper::MMC1(m) => m.wf(),
        }
    }

    fn map_cpu(&self, address: Address) -> (a: PRGAddress) {
        match self {
            AnyMapper::NROM(m) => m.map_cpu(address),
            AnyMapper::UxROM(m) => m.map_cpu(address),
            AnyMapper::MMC1(m) => m.map_cpu(address),
        }
    }

    fn write_register(&mut self, address: Address, data: u8) -> (written: bool) {
        match self {
            AnyMapper::NROM(m) => {
                let mut m1 = *m;
                let w = m1.write_register(address, data);
                *self = AnyMapper::NROM(m1);
                w
            },
            AnyMapper::UxROM(m) => {
                let mut m1 = *m;
                let w = m1.write_register(address, data);
                *self = AnyMapper::UxROM(m1);
                w
            },
            AnyMapper::MMC1(m) => {
                let mut m1 = *m;
                let w = m1.write_register(address, data);
                *self = AnyMapper::MMC1(m1);
                w
            },
        }
    }

    fn nametable_mirroring(&self) -> (m: NametableMirroring) {
        match self {
            AnyMapper::NROM(m) => m.nametable_mirroring(),
            AnyMapper::UxROM(m) => m.nametable_mirroring(),
            AnyMapper::MMC1(m) => m.nametable_mirroring(),
        }
    }
}


/// The MMC1 after five writes of `d0` to `d4` at `a0` to `a4`.
pub open spec fn mmc1_after_five_writes(
    m: MMC1,
    a: (Address, Address, Address, Address, Address),
    d: (u8, u8, u8, u8, u8),
) -> MMC1 {
    let m1 = m.register_written(a.0, d.0).0;
    let m2 = m1.register_written(a.1, d.1).0;
    let m3 = m2.register_written(a.2, d.2).0;
    let m4 = m3.register_written(a.3, d.3).0;
    m4.register_written(a.4, d.4).0
}

/// The MMC1's serial port: after a reset, five writes to 0x8000 and up, each without bit 7,
/// deliver the value whose bit i is bit 0 of the i-th write, to the register that the fifth
/// write's address chooses. At 0x8000-0x9fff its low two bits choose the nametable
/// mirroring: 0 one screen from the lower nametable (0b1111), 1 one screen from the upper one
/// (0b0000), 2 vertical (0b0101), 3 horizontal (0b0011). At 0xe000-0xffff its low four bits
/// choose the 16KB PRG bank at 0x8000. The shift register is then empty again.
pub proof fn lemma_mmc1_serial_writes(
    m: MMC1,
    a: (Address, Address, Address, Address, Address),
    d: (u8, u8, u8, u8, u8),
)
    requires
        m.shift_register == 0,
        m.shift_register_writes == 0,
        a.0.0 >= 0x8000 && a.1.0 >= 0x8000 && a.2.0 >= 0x8000 && a.3.0 >= 0x8000 && a.4.0
            >= 0x8000,
        d.0 < 0x80 && d.1 < 0x80 && d.2 < 0x80 && d.3 < 0x80 && d.4 < 0x80,
    ensures
        ({
            let value = (d.0 % 2) + 2 * (d.1 % 2) + 4 * (d.2 % 2) + 8 * (d.3 % 2) + 16 * (d.4
                % 2);
            let r = mmc1_after_five_writes(m, a, d);
            &&& r.shift_register == 0
            &&& r.shift_register_writes == 0
            &&& r.last_bank == m.last_bank
            &&& a.4.0 <= 0x9fff ==> r.bank == m.bank && r.nametable_mirroring == NametableMirroring(
                if value % 4 == 0 {
                    0b1111u8
                } else if value % 4 == 1 {
                    0b0000u8
                } else if value % 4 == 2 {
                    0b0101u8
                } else {
                    0b0011u8
                },
            )
            &&& a.4.0 >= 0xe000 ==> r.bank == value % 16 && r.nametable_mirroring
                == m.nametable_mirroring
            &&& 0xa000 <= a.4.0 < 0xe000 ==> r.bank == m.bank && r.nametable_mirroring
                == m.nametable_mirroring
        }),
{
    let (d0, d1, d2, d3, d4) = d;
    assert(d0 & 0x80 == 0 && d1 & 0x80 == 0 && d2 & 0x80 == 0 && d3 & 0x80 == 0 && d4 & 0x80
        == 0) by (bit_vector)
        requires
            d0 < 0x80 && d1 < 0x80 && d2 < 0x80 && d3 < 0x80 && d4 < 0x80,
    ;
    let s1: u8 = (0u8 >> 1u8) | ((d0 & 1) << 4u8);
    let s2: u8 = (s1 >> 1u8) | ((d1 & 1) << 4u8);
    let s3: u8 = (s2 >> 1u8) | ((d2 & 1) << 4u8);
    let s4: u8 = (s3 >> 1u8) | ((d3 & 1) << 4u8);
    let s5: u8 = (s4 >> 1u8) | ((d4 & 1) << 4u8);
    assert(s5 == (d0 % 2) + 2 * (d1 % 2) + 4 * (d2 % 2) + 8 * (d3 % 2) + 16 * (d4 % 2))
        by (bit_vector)
        requires
            s1 == (0u8 >> 1u8) | ((d0 & 1) << 4u8),
            s2 == (s1 >> 1u8) | ((d1 & 1) << 4u8),
            s3 == (s2 >> 1u8) | ((d2 & 1) << 4u8),
            s4 == (s3 >> 1u8) | ((d3 & 1) << 4u8),
            s5 == (s4 >> 1u8) | ((d4 & 1) << 4u8),
    ;
    assert(s5 & 0b1111 == s5 % 16) by (bit_vector);
    let m1 = m.register_written(a.0, d0).0;
    assert(m1.shift_register == s1 && m1.shift_register_writes == 1);
    let m2 = m1.register_written(a.1, d1).0;
    assert(m2.shift_register == s2 && m2.shift_register_writes == 2);
    let m3 = m2.register_written(a.2, d2).0;
    assert(m3.shift_register == s3 && m3.shift_register_writes == 3);
    let m4 = m3.register_written(a.3, d3).0;
    assert(m4.shift_register == s4 && m4.shift_register_writes == 4);
}


/// UxROM bank switching: any write from 0x8000 on selects, by its value, the 16KB bank seen at
/// 0x8000-0xbfff; 0xc000-0xffff always shows the last bank, and 0x6000-0x7fff is RAM.
pub proof fn lemma_uxrom_bank_switch(m: UxROM, w: Address, d: u8, a: Address)
    requires
        w.0 >= 0x8000,
    ensures
        ({
            let n = m.register_written(w, d).0;
            &&& m.register_written(w, d).1
            &&& 0x8000 <= a.0 <= 0xbfff ==> n.map_spec(a) == PRGAddress::ROM(
                (d * 16384 + (a.0 - 0x8000)) as usize,
            )
            &&& a.0 >= 0xc000 ==> n.map_spec(a) == PRGAddress::ROM(
                (m.last_bank * 16384 + (a.0 - 0xc000)) as usize,
            )
            &&& 0x6000 <= a.0 < 0x8000 ==> n.map_spec(a) == PRGAddress::RAM((a.0 - 0x6000) as usize)
        }),
{
}

} // verus!

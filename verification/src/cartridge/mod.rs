//! A NES cartridge: PRG memory on the CPU's bus and CHR memory on the PPU's bus.
//!
//! The mapper lives with the PRG memory, where its registers are written. The one thing the
//! CHR side needs from it, the nametable mirroring, is handed over by whoever owns both
//! halves (`PRG::nametable_mirroring`, `CHR::set_nametable_mirroring`).

pub mod mapper;

use vstd::prelude::*;

use crate::address::Address;
use crate::mapper::Mapper as MapperKind;
use crate::memory::Memory;

use self::mapper::{AnyMapper, Mapper, NametableMirroring, PRGAddress, BANK_SIZE, MMC1, NROM, UxROM};

verus! {

/// Program memory on a cartridge, connected to the CPU: 8KB of RAM at 0x6000-0x7fff and ROM
/// from 0x8000, through the mapper.
pub struct PRG {
    pub rom: Vec<u8>,
    pub ram: [u8; 0x2000],
    /// Whether the RAM was written since it was last handed out.
    pub dirty_ram: bool,
    pub mapper: AnyMapper,
}

pub struct PrgModel {
    pub rom: Seq<u8>,
    pub ram: Seq<u8>,
    pub dirty_ram: bool,
    pub mapper: AnyMapper,
}

/// Character memory on a cartridge, connected to the PPU: the pattern tables at
/// 0x0000-0x1fff, and 2KB of nametable RAM behind the four logical nametables at
/// 0x2000-0x3eff.
pub struct CHR {
    pub chr_rom: Vec<u8>,
    pub chr_ram_enabled: bool,
    pub ppu_ram: [u8; 0x800],
    pub nametable_mirroring: NametableMirroring,
}

pub struct ChrModel {
    pub chr_rom: Seq<u8>,
    /// Whether the pattern tables are RAM. Writes reach the pattern tables either way.
    pub chr_ram_enabled: bool,
    pub ppu_ram: Seq<u8>,
    pub nametable_mirroring: NametableMirroring,
}

pub struct Cartridge {
    pub prg: PRG,
    pub chr: CHR,
}

/// The mapper state a new cartridge starts with.
pub open spec fn initial_mapper(kind: MapperKind, prg_len: nat) -> AnyMapper {
    match kind {
        MapperKind::UxROM => AnyMapper::UxROM(
            UxROM { last_bank: mapper::last_bank_of(prg_len), bank: 0 },
        ),
        MapperKind::MMC1 => AnyMapper::MMC1(
            MMC1 {
                last_bank: mapper::last_bank_of(prg_len),
                bank: 0,
                nametable_mirroring: NametableMirroring(NametableMirroring::VERTICAL),
                shift_register: 0,
                shift_register_writes: 0,
            },
        ),
        _ => AnyMapper::NROM(NROM),
    }
}

impl Cartridge {
    /// A cartridge with the given ROMs and mapper. There is no Namco 129 mapper: such a
    /// cartridge cannot be built.
    pub fn new(prg_rom: Vec<u8>, chr_rom: Vec<u8>, chr_ram_enabled: bool, mapper: MapperKind) -> (c:
        Self)
        requires
            mapper != MapperKind::Namco129,
            mapper == MapperKind::UxROM || mapper == MapperKind::MMC1 ==> prg_rom@.len()
                >= BANK_SIZE,
        ensures
            c.prg.rom@ == prg_rom@,
            c.prg.ram@ == Seq::new(0x2000, |i: int| 0u8),
            !c.prg.dirty_ram,
            c.prg.mapper == initial_mapper(mapper, prg_rom@.len()),
            c.chr.chr_rom@ == chr_rom@,
            c.chr.chr_ram_enabled == chr_ram_enabled,
            c.chr.ppu_ram@ == Seq::new(0x800, |i: int| 0u8),
            c.chr.nametable_mirroring == NametableMirroring(NametableMirroring::VERTICAL),
    {
        let any_mapper = match mapper {
            MapperKind::UxROM => AnyMapper::UxROM(UxROM::new(prg_rom.as_slice())),
            MapperKind::MMC1 => AnyMapper::MMC1(MMC1::new(prg_rom.as_slice())),
            _ => AnyMapper::NROM(NROM),
        };

        let prg = PRG { rom: prg_rom, ram: [0u8; 0x2000], dirty_ram: false, mapper: any_mapper };

        let chr = CHR {
            chr_rom,
            chr_ram_enabled,
            ppu_ram: [0u8; 0x800],
            nametable_mirroring: NametableMirroring::default(),
        };

        assert(prg.ram@ =~= Seq::new(0x2000, |i: int| 0u8));
        assert(chr.ppu_ram@ =~= Seq::new(0x800, |i: int| 0u8));
        Cartridge { prg, chr }
    }

    /// Loads saved PRG RAM.
    pub fn set_ram(&mut self, ram: &[u8])
        requires
            ram@.len() == 0x2000,
        ensures
            final(self).prg.ram@ == ram@,
            final(self).prg.rom == old(self).prg.rom,
            final(self).prg.dirty_ram == old(self).prg.dirty_ram,
            final(self).prg.mapper == old(self).prg.mapper,
            final(self).chr == old(self).chr,
    {
        let mut i: usize = 0;
        while i < 0x2000
            invariant
                i <= 0x2000,
                ram@.len() == 0x2000,
                self.prg.ram@.len() == 0x2000,
                forall|j: int| 0 <= j < i ==> self.prg.ram@[j] == ram@[j],
                self.prg.rom == old(self).prg.rom,
                self.prg.dirty_ram == old(self).prg.dirty_ram,
                self.prg.mapper == old(self).prg.mapper,
                self.chr == old(self).chr,
            decreases 0x2000 - i,
        {
            self.prg.ram[i] = ram[i];
            i = i + 1;
        }
        assert(self.prg.ram@ =~= ram@);
    }

    /// The PRG RAM, if it changed since the last call.
    pub fn changed_ram(&mut self) -> (r: Option<Vec<u8>>)
        ensures
            old(self).prg.dirty_ram ==> (r matches Some(v) && v@ == old(self).prg.ram@),
            !old(self).prg.dirty_ram ==> r is None,
            !final(self).prg.dirty_ram,
            final(self).prg.ram == old(self).prg.ram,
            final(self).prg.rom == old(self).prg.rom,
            final(self).prg.mapper == old(self).prg.mapper,
            final(self).chr == old(self).chr,
    {
        self.prg.changed_ram()
    }

    /// The two halves of the cartridge, for the CPU's bus and the PPU's.
    pub fn get_prg_chr(self) -> (r: (PRG, CHR))
        ensures
            r.0 == self.prg,
            r.1 == self.chr,
    {
        (self.prg, self.chr)
    }
}

impl Default for Cartridge {
    /// An NROM cartridge with 32KB of PRG ROM and 8KB of CHR ROM, all zero.
    fn default() -> (c: Self)
        ensures
            c.prg.rom@ == Seq::new(0x8000, |i: int| 0u8),
            c.chr.chr_rom@ == Seq::new(0x2000, |i: int| 0u8),
            c.prg.ram@ == Seq::new(0x2000, |i: int| 0u8),
            !c.prg.dirty_ram,
            c.prg.mapper == AnyMapper::NROM(NROM),
            !c.chr.chr_ram_enabled,
            c.chr.ppu_ram@ == Seq::new(0x800, |i: int| 0u8),
            c.chr.nametable_mirroring == NametableMirroring(NametableMirroring::VERTICAL),
            c.prg.inv(),
            c.chr.inv(),
    {
        let mut prg_rom: Vec<u8> = Vec::new();
        let mut i: usize = 0;
        while i < 0x8000
            invariant
                i <= 0x8000,
                prg_rom@ == Seq::new(i as nat, |k: int| 0u8),
            decreases 0x8000 - i,
        {
            prg_rom.push(0);
            i = i + 1;
            assert(prg_rom@ =~= Seq::new(i as nat, |k: int| 0u8));
        }
        let mut chr_rom: Vec<u8> = Vec::new();
        let mut j: usize = 0;
        while j < 0x2000
            invariant
                j <= 0x2000,
                chr_rom@ == Seq::new(j as nat, |k: int| 0u8),
            decreases 0x2000 - j,
        {
            chr_rom.push(0);
            j = j + 1;
            assert(chr_rom@ =~= Seq::new(j as nat, |k: int| 0u8));
        }
        Cartridge::new(prg_rom, chr_rom, false, MapperKind::NROM)
    }
}

impl PRG {
    /// The RAM, if it changed since the last call.
    pub fn changed_ram(&mut self) -> (r: Option<Vec<u8>>)
        ensures
            old(self).dirty_ram ==> (r matches Some(v) && v@ == old(self).ram@),
            !old(self).dirty_ram ==> r is None,
            !final(self).dirty_ram,
            final(self).ram == old(self).ram,
            final(self).rom == old(self).rom,
            final(self).mapper == old(self).mapper,
    {
        if !self.dirty_ram {
            return None;
        }

        self.dirty_ram = false;
        let mut v: Vec<u8> = Vec::new();
        let mut i: usize = 0;
        while i < 0x2000
            invariant
                i <= 0x2000,
                v@ == self.ram@.subrange(0, i as int),
                self.ram@.len() == 0x2000,
            decreases 0x2000 - i,
        {
            v.push(self.ram[i]);
            i = i + 1;
        }
        assert(v@ =~= self.ram@);
        Some(v)
    }

    /// The current nametable mirroring, as set through the mapper.
    pub fn nametable_mirroring(&self) -> (m: NametableMirroring)
        ensures
            m == self.mapper.mirroring(),
    {
        self.mapper.nametable_mirroring()
    }
}

impl CHR {
    pub fn set_nametable_mirroring(&mut self, mirroring: NametableMirroring)
        ensures
            final(self).nametable_mirroring == mirroring,
            final(self).chr_rom == old(self).chr_rom,
            final(self).chr_ram_enabled == old(self).chr_ram_enabled,
            final(self).ppu_ram == old(self).ppu_ram,
    {
        self.nametable_mirroring = mirroring;
    }

    /// The index in nametable RAM for a nametable address.
    pub fn map_nametable(&self, address: Address) -> (i: usize)
        requires
            0x2000 <= address.0 <= 0x3eff,
        ensures
            i == self.nametable_mirroring.map_index_spec((address.0 - 0x2000) as usize),
            i < 0x800,
    {
        self.nametable_mirroring.map_index(address.index() - 0x2000)
    }
}

impl Memory for PRG {
    type Model = PrgModel;

    open spec fn model(&self) -> PrgModel {
        PrgModel { rom: self.rom@, ram: self.ram@, dirty_ram: self.dirty_ram, mapper: self.mapper }
    }

    /// There is some ROM, and the mapper is well formed.
    open spec fn inv(&self) -> bool {
        self.rom@.len() > 0 && self.mapper.wf()
    }

    open spec fn accepts(address: Address) -> bool {
        address.0 >= 0x6000
    }

    /// ROM indexes wrap at the size of the ROM.
    open spec fn peek(m: PrgModel, address: Address) -> u8 {
        match m.mapper.map_spec(address) {
            PRGAddress::ROM(index) => m.rom[(index as int) % (m.rom.len() as int)],
            PRGAddress::RAM(index) => m.ram[index as int],
            PRGAddress::Unmapped => 0,
        }
    }

    open spec fn after_read(m: PrgModel, address: Address) -> PrgModel {
        m
    }

    /// A write goes to a mapper register if there is one at the address; otherwise to RAM.
    /// Writes to ROM are dropped.
    open spec fn after_write(m: PrgModel, address: Address, byte: u8) -> PrgModel {
        let (mapper, written) = m.mapper.register_written(address, byte);
        if written {
            PrgModel { mapper, ..m }
        } else {
            match m.mapper.map_spec(address) {
                PRGAddress::RAM(index) => PrgModel {
                    ram: m.ram.update(index as int, byte),
                    dirty_ram: true,
                    ..m
                },
                _ => m,
            }
        }
    }

    fn answers(address: Address) -> (b: bool) {
        address.0 >= 0x6000
    }

    fn read(&mut self, address: Address) -> (byte: u8) {
        match self.mapper.map_cpu(address) {
            PRGAddress::ROM(index) => self.rom[index % self.rom.len()],
            PRGAddress::RAM(index) => self.ram[index],
            PRGAddress::Unmapped => 0,
        }
    }

    fn write(&mut self, address: Address, byte: u8) {
        // Write to a register, if mapper has one at this address
        if self.mapper.write_register(address, byte) {
            return ;
        }
        // Otherwise write to RAM

        match self.mapper.map_cpu(address) {
            PRGAddress::RAM(index) => {
                self.dirty_ram = true;
                self.ram[index] = byte;
            },
            _ => {},
        }
    }
}

impl Memory for CHR {
    type Model = ChrModel;

    open spec fn model(&self) -> ChrModel {
        ChrModel {
            chr_rom: self.chr_rom@,
            chr_ram_enabled: self.chr_ram_enabled,
            ppu_ram: self.ppu_ram@,
            nametable_mirroring: self.nametable_mirroring,
        }
    }

    /// The pattern tables are all there.
    open spec fn inv(&self) -> bool {
        self.chr_rom@.len() >= 0x2000
    }

    open spec fn accepts(address: Address) -> bool {
        address.0 < 0x3f00
    }

    open spec fn peek(m: ChrModel, address: Address) -> u8 {
        if address.0 < 0x2000 {
            m.chr_rom[address.0 as int]
        } else {
            m.ppu_ram[m.nametable_mirroring.map_index_spec((address.0 - 0x2000) as usize) as int]
        }
    }

    open spec fn after_read(m: ChrModel, address: Address) -> ChrModel {
        m
    }

    open spec fn after_write(m: ChrModel, address: Address, byte: u8) -> ChrModel {
        if address.0 < 0x2000 {
            ChrModel { chr_rom: m.chr_rom.update(address.0 as int, byte), ..m }
        } else {
            ChrModel {
                ppu_ram: m.ppu_ram.update(
                    m.nametable_mirroring.map_index_spec((address.0 - 0x2000) as usize) as int,
                    byte,
                ),
                ..m
            }
        }
    }

    fn answers(address: Address) -> (b: bool) {
        address.0 < 0x3f00
    }

    fn read(&mut self, address: Address) -> (byte: u8) {
        if address.0 < 0x2000 {
            self.chr_rom[address.index()]
        } else {
            let index = self.map_nametable(address);
            self.ppu_ram[index]
        }
    }

    fn write(&mut self, address: Address, byte: u8) {
        if address.0 < 0x2000 {
            self.chr_rom.set(address.index(), byte);
        } else {
            let index = self.map_nametable(address);
            self.ppu_ram[index] = byte;
        }
    }
}

proof fn lemma_vertical_bits(l: u8)
    by (bit_vector)
    requires
        l < 2,
    ensures
        ((0b0101u8 & (0b1000u8 >> l)) != 0) == ((0b0101u8 & (0b1000u8 >> ((l + 2) as u8))) != 0),
{
}

proof fn lemma_horizontal_bits(l: u8)
    by (bit_vector)
    requires
        l == 0 || l == 2,
    ensures
        ((0b0011u8 & (0b1000u8 >> l)) != 0) == ((0b0011u8 & (0b1000u8 >> ((l + 1) as u8))) != 0),
{
}

impl CHR {
    /// With vertical mirroring the nametables at 0x2000 and 0x2800 are one, and so are those
    /// at 0x2400 and 0x2c00: a write is read back 0x800 further on.
    pub proof fn lemma_vertical_mirroring(m: ChrModel, address: Address, byte: u8)
        requires
            m.ppu_ram.len() == 0x800,
            m.nametable_mirroring.0 == NametableMirroring::VERTICAL,
            0x2000 <= address.0 < 0x2800,
        ensures
            Self::peek(Self::after_write(m, address, byte), Address((address.0 + 0x800) as u16))
                == byte,
    {
        let index = (address.0 - 0x2000) as usize;
        let mirror = (index + 0x800) as usize;
        lemma_vertical_bits((index / 0x400) as u8);
        assert(mirror / 0x400 == index / 0x400 + 2);
        assert(mirror % 0x400 == index % 0x400);
        assert(m.nametable_mirroring.map_index_spec(mirror) == m.nametable_mirroring.map_index_spec(
            index,
        ));
    }

    /// With horizontal mirroring the nametables at 0x2000 and 0x2400 are one, and so are
    /// those at 0x2800 and 0x2c00: a write is read back 0x400 further on.
    pub proof fn lemma_horizontal_mirroring(m: ChrModel, address: Address, byte: u8)
        requires
            m.ppu_ram.len() == 0x800,
            m.nametable_mirroring.0 == NametableMirroring::HORIZONTAL,
            0x2000 <= address.0 < 0x2400 || 0x2800 <= address.0 < 0x2c00,
        ensures
            Self::peek(Self::after_write(m, address, byte), Address((address.0 + 0x400) as u16))
                == byte,
    {
        let index = (address.0 - 0x2000) as usize;
        let mirror = (index + 0x400) as usize;
        lemma_horizontal_bits((index / 0x400) as u8);
        assert(mirror / 0x400 == index / 0x400 + 1);
        assert(mirror % 0x400 == index % 0x400);
        assert(m.nametable_mirroring.map_index_spec(mirror) == m.nametable_mirroring.map_index_spec(
            index,
        ));
    }
}

impl PRG {
    /// PRG RAM at 0x6000-0x7fff: a read gives back the last byte written there, whatever the
    /// mapper.
    pub proof fn lemma_ram_read_after_write(m: PrgModel, address: Address, byte: u8)
        requires
            m.ram.len() == 0x2000,
            0x6000 <= address.0 <= 0x7fff,
        ensures
            Self::peek(Self::after_write(m, address, byte), address) == byte,
    {
    }

    /// Without a mapper, a 16KB ROM answers at 0x8000 and again at 0xc000.
    pub proof fn lemma_nrom_mirrors_small_rom(m: PrgModel, address: Address)
        requires
            m.mapper == AnyMapper::NROM(NROM),
            m.rom.len() == 0x4000,
            0xc000 <= address.0,
        ensures
            Self::peek(m, address) == Self::peek(m, Address((address.0 - 0x4000) as u16)),
    {
    }
}


/// One access to a cartridge's PRG from the CPU's bus.
pub enum PrgAccess {
    Read(Address),
    Write(Address, u8),
}

/// The PRG after `accesses`, in order, starting from `m`.
pub open spec fn after_accesses(m: PrgModel, accesses: Seq<PrgAccess>) -> PrgModel
    decreases accesses.len(),
{
    if accesses.len() == 0 {
        m
    } else {
        let m1 = after_accesses(m, accesses.drop_last());
        match accesses.last() {
            PrgAccess::Read(a) => PRG::after_read(m1, a),
            PrgAccess::Write(a, b) => PRG::after_write(m1, a, b),
        }
    }
}

/// Whether an access writes the cartridge's RAM, at 0x6000-0x7fff.
pub open spec fn writes_ram(access: PrgAccess) -> bool {
    access matches PrgAccess::Write(a, _) && 0x6000 <= a.0 < 0x8000
}

/// A write sets the RAM's changed flag exactly when it writes the RAM; a read leaves it alone.
proof fn lemma_access_dirties(m: PrgModel, access: PrgAccess)
    ensures
        match access {
            PrgAccess::Read(a) => PRG::after_read(m, a).dirty_ram == m.dirty_ram,
            PrgAccess::Write(a, b) => PRG::after_write(m, a, b).dirty_ram == (m.dirty_ram
                || writes_ram(access)),
        },
{
}

/// The cartridge reports a change of its RAM once for each run of writes: starting from a
/// cartridge whose RAM is not marked changed (as `Cartridge::new` leaves it, and as
/// `changed_ram` leaves it after every call), after any reads and writes the RAM is marked
/// changed exactly when one of them wrote to 0x6000-0x7fff. `changed_ram` returns the RAM
/// exactly when it is marked changed, and clears the mark, so a second call straight after
/// returns `None`.
pub proof fn lemma_changed_ram_reports_ram_writes(m: PrgModel, accesses: Seq<PrgAccess>)
    requires
        !m.dirty_ram,
    ensures
        after_accesses(m, accesses).dirty_ram <==> exists|i: int|
            0 <= i < accesses.len() && #[trigger] writes_ram(accesses[i]),
    decreases accesses.len(),
{
    if accesses.len() > 0 {
        let init = accesses.drop_last();
        lemma_changed_ram_reports_ram_writes(m, init);
        lemma_access_dirties(after_accesses(m, init), accesses.last());
        if exists|i: int| 0 <= i < init.len() && #[trigger] writes_ram(init[i]) {
            let i = choose|i: int| 0 <= i < init.len() && #[trigger] writes_ram(init[i]);
            assert(accesses[i] == init[i]);
        }
        if exists|i: int| 0 <= i < accesses.len() && #[trigger] writes_ram(accesses[i]) {
            let i = choose|i: int| 0 <= i < accesses.len() && #[trigger] writes_ram(accesses[i]);
            if i < init.len() {
                assert(init[i] == accesses[i]);
            }
        }
    }
}

} // verus!

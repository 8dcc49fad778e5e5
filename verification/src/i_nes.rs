//! The iNES file format: a 16-byte header, then PRG ROM, then CHR ROM.

use vstd::prelude::*;

use crate::cartridge::mapper::BANK_SIZE;
use crate::cartridge::Cartridge;
use crate::mapper::{mapper_for, Mapper, UnrecognisedMapper};

verus! {

pub const HEADER_SIZE: usize = 16;

pub const PRG_ROM_SIZE_LOCATION: usize = 4;

pub const CHR_ROM_SIZE_LOCATION: usize = 5;

pub const MAPPER_LOW_LOCATION: usize = 6;

pub const MAPPER_HIGH_LOCATION: usize = 7;

pub const CHR_BANK_SIZE: usize = 8_192;

#[derive(Copy, Clone, Debug, PartialEq, Eq, Structural)]
pub enum INesReadError {
    /// The file ends before the header or a ROM it announces.
    Truncated,
    UnrecognisedMapper(u8),
}

/// The contents of an iNES file.
pub struct INes {
    pub prg_rom: Vec<u8>,
    pub chr_rom: Vec<u8>,
    /// Without CHR ROM, a cartridge has 8KB of CHR RAM instead.
    pub chr_ram_enabled: bool,
    pub mapper: Mapper,
}

/// The mapper number: its low nibble in the high nibble of byte 6, its high nibble in the
/// high nibble of byte 7.
pub open spec fn mapper_number(header: Seq<u8>) -> u8 {
    (header[MAPPER_LOW_LOCATION as int] >> 4u8) | (header[MAPPER_HIGH_LOCATION as int] & 0b1111_0000)
}

/// The size of the PRG ROM: byte 4 counts 16KB banks.
pub open spec fn prg_rom_size(header: Seq<u8>) -> int {
    header[PRG_ROM_SIZE_LOCATION as int] * BANK_SIZE
}

/// The size of the CHR ROM: byte 5 counts 8KB banks.
pub open spec fn chr_rom_size(header: Seq<u8>) -> int {
    header[CHR_ROM_SIZE_LOCATION as int] * CHR_BANK_SIZE
}

/// What an iNES file holds: PRG ROM, CHR ROM (8KB of zeroed CHR RAM when the header
/// announces none), whether CHR RAM is used, and the mapper; or why it cannot be read.
/// Bytes after the CHR ROM are ignored.
pub open spec fn ines_contents(bytes: Seq<u8>) -> Result<(Seq<u8>, Seq<u8>, bool, Mapper), INesReadError> {
    if bytes.len() < HEADER_SIZE {
        Err(INesReadError::Truncated)
    } else {
        match mapper_for(mapper_number(bytes)) {
            None => Err(INesReadError::UnrecognisedMapper(mapper_number(bytes))),
            Some(mapper) => {
                let prg_end = HEADER_SIZE + prg_rom_size(bytes);
                let chr_end = prg_end + chr_rom_size(bytes);
                if bytes.len() < prg_end {
                    Err(INesReadError::Truncated)
                } else if chr_rom_size(bytes) == 0 {
                    Ok(
                        (
                            bytes.subrange(HEADER_SIZE as int, prg_end),
                            Seq::new(CHR_BANK_SIZE as nat, |i: int| 0u8),
                            true,
                            mapper,
                        ),
                    )
                } else if bytes.len() < chr_end {
                    Err(INesReadError::Truncated)
                } else {
                    Ok(
                        (
                            bytes.subrange(HEADER_SIZE as int, prg_end),
                            bytes.subrange(prg_end, chr_end),
                            false,
                            mapper,
                        ),
                    )
                }
            },
        }
    }
}

/// The `len` bytes of `bytes` from `start`.
fn copy_range(bytes: &[u8], start: usize, len: usize) -> (v: Vec<u8>)
    requires
        start + len <= bytes@.len(),
    ensures
        v@ == bytes@.subrange(start as int, start + len),
{
    let total = bytes.len();
    let mut v: Vec<u8> = Vec::new();
    let mut i: usize = 0;
    while i < len
        invariant
            i <= len,
            start + len <= total,
            total == bytes@.len(),
            v@ == bytes@.subrange(start as int, start + i),
        decreases len - i,
    {
        v.push(bytes[start + i]);
        i = i + 1;
        assert(v@ =~= bytes@.subrange(start as int, start + i));
    }
    v
}

fn zeros(len: usize) -> (v: Vec<u8>)
    ensures
        v@ == Seq::new(len as nat, |i: int| 0u8),
{
    let mut v: Vec<u8> = Vec::new();
    let mut i: usize = 0;
    while i < len
        invariant
            i <= len,
            v@ == Seq::new(i as nat, |j: int| 0u8),
        decreases len - i,
    {
        v.push(0);
        i = i + 1;
        assert(v@ =~= Seq::new(i as nat, |j: int| 0u8));
    }
    v
}

impl INes {
    /// Reads an iNES file from its bytes.
    pub fn read(bytes: &[u8]) -> (r: Result<Self, INesReadError>)
        ensures
            match ines_contents(bytes@) {
                Ok((prg, chr, ram, mapper)) => r matches Ok(ines) && ines.prg_rom@ == prg
                    && ines.chr_rom@ == chr && ines.chr_ram_enabled == ram && ines.mapper
                    == mapper,
                Err(e) => r == Err::<Self, INesReadError>(e),
            },
    {
        if bytes.len() < HEADER_SIZE {
            return Err(INesReadError::Truncated);
        }

        let mapper = match INes::mapper(bytes) {
            Ok(mapper) => mapper,
            Err(e) => return Err(INesReadError::UnrecognisedMapper(e.0)),
        };

        let prg_rom_size = bytes[PRG_ROM_SIZE_LOCATION] as usize * BANK_SIZE;
        if bytes.len() - HEADER_SIZE < prg_rom_size {
            return Err(INesReadError::Truncated);
        }
        let prg_rom = copy_range(bytes, HEADER_SIZE, prg_rom_size);

        let chr_rom_size = bytes[CHR_ROM_SIZE_LOCATION] as usize * CHR_BANK_SIZE;
        let prg_end = HEADER_SIZE + prg_rom_size;

        let chr_rom: Vec<u8>;
        let chr_ram_enabled: bool;

        if chr_rom_size == 0 {
            // when CHR ROM size is zero, it should behave like 8KB RAM instead
            chr_rom = zeros(CHR_BANK_SIZE);
            chr_ram_enabled = true;
        } else {
            if bytes.len() - prg_end < chr_rom_size {
                return Err(INesReadError::Truncated);
            }
            chr_rom = copy_range(bytes, prg_end, chr_rom_size);
            chr_ram_enabled = false;
        };

        Ok(INes { prg_rom, chr_rom, chr_ram_enabled, mapper })
    }

    /// Builds the cartridge the file describes; there is none for a Namco 129 mapper.
    pub fn into_cartridge(self) -> (c: Cartridge)
        requires
            self.mapper != Mapper::Namco129,
            self.mapper == Mapper::UxROM || self.mapper == Mapper::MMC1 ==> self.prg_rom@.len()
                >= BANK_SIZE,
        ensures
            c.prg.rom@ == self.prg_rom@,
            c.chr.chr_rom@ == self.chr_rom@,
            c.chr.chr_ram_enabled == self.chr_ram_enabled,
            c.prg.mapper == crate::cartridge::initial_mapper(self.mapper, self.prg_rom@.len()),
            c.prg.ram@ == Seq::new(0x2000, |i: int| 0u8),
            !c.prg.dirty_ram,
            c.chr.ppu_ram@ == Seq::new(0x800, |i: int| 0u8),
            c.chr.nametable_mirroring == crate::cartridge::mapper::NametableMirroring(
                crate::cartridge::mapper::NametableMirroring::VERTICAL,
            ),
    {
        Cartridge::new(self.prg_rom, self.chr_rom, self.chr_ram_enabled, self.mapper)
    }

    fn mapper(header: &[u8]) -> (r: Result<Mapper, UnrecognisedMapper>)
        requires
            header@.len() >= HEADER_SIZE,
        ensures
            r matches Ok(m) ==> mapper_for(mapper_number(header@)) == Some(m),
            r is Err <==> mapper_for(mapper_number(header@)) is None,
            r matches Err(e) ==> e.0 == mapper_number(header@),
    {
        let low = header[MAPPER_LOW_LOCATION] >> 4u8;
        let high = header[MAPPER_HIGH_LOCATION] & 0b1111_0000;
        let byte = low | high;
        Mapper::try_from(byte)
    }
}


/// CHR RAM is used exactly when the header announces no CHR ROM (byte 5 is 0); then the
/// pattern tables are 8KB of zeroed RAM, and otherwise they are the `byte 5 * 8KB` bytes of
/// ROM that follow the PRG ROM, which stay read-only.
pub proof fn lemma_chr_ram_exactly_without_chr_rom(bytes: Seq<u8>)
    ensures
        ines_contents(bytes) matches Ok((prg, chr, chr_ram_enabled, mapper)) ==> {
            &&& chr_ram_enabled == (bytes[5] == 0)
            &&& bytes[5] == 0 ==> chr == Seq::new(8192, |i: int| 0u8)
            &&& bytes[5] != 0 ==> chr.len() == bytes[5] * 8192 && chr == bytes.subrange(
                16 + bytes[4] * 16384,
                16 + bytes[4] * 16384 + bytes[5] * 8192,
            )
            &&& prg == bytes.subrange(16, 16 + bytes[4] * 16384)
        },
{
}

} // verus!

//! The mappers a cartridge can name in its iNES header.

use vstd::prelude::*;

verus! {

/// A cartridge's memory mapper, by iNES mapper number.
#[derive(Copy, Clone, Debug, PartialEq, Eq, Structural)]
pub enum Mapper {
    NROM,
    UxROM,
    MMC1,
    Namco129,
}

/// A mapper number that names no supported mapper.
#[derive(Copy, Clone, Debug, PartialEq, Eq, Structural)]
pub struct UnrecognisedMapper(pub u8);

/// The mapper with iNES number `value`, if it is supported.
pub open spec fn mapper_for(value: u8) -> Option<Mapper> {
    if value == 0 {
        Some(Mapper::NROM)
    } else if value == 1 {
        Some(Mapper::MMC1)
    } else if value == 2 {
        Some(Mapper::UxROM)
    } else if value == 19 {
        Some(Mapper::Namco129)
    } else {
        None
    }
}

impl Mapper {
    /// The mapper with iNES number `value`: 0 NROM, 1 MMC1, 2 UxROM, 19 Namco 129.
    pub fn try_from(value: u8) -> (r: Result<Mapper, UnrecognisedMapper>)
        ensures
            r matches Ok(m) ==> mapper_for(value) == Some(m),
            r is Err <==> mapper_for(value) is None,
            r matches Err(e) ==> e.0 == value,
    {
        if value == 0 {
            Ok(Mapper::NROM)
        } else if value == 1 {
            Ok(Mapper::MMC1)
        } else if value == 2 {
            Ok(Mapper::UxROM)
        } else if value == 19 {
            Ok(Mapper::Namco129)
        } else {
            Err(UnrecognisedMapper(value))
        }
    }
}

} // verus!

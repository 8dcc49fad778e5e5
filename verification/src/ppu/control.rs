use vstd::prelude::*;

use crate::address::Address;

verus! {

/// PPUCTRL, the PPU control register. Every bit is meaningful:
/// bit 7 NMI on vblank, bit 6 master/slave, bit 5 sprite size, bit 4 background pattern table,
/// bit 3 sprite pattern table, bit 2 address increment, bits 0-1 nametable select.
#[derive(Copy, Clone, Debug, PartialEq, Eq, Structural)]
pub struct Control(pub u8);

/// Sprites are 8 pixels wide and 8 or 16 pixels tall.
#[derive(Copy, Clone, Debug, PartialEq, Eq, Structural)]
pub enum SpriteSize {
    _8x8,
    _8x16,
}

/// One of the two pattern tables, at 0x0000 or 0x1000.
#[derive(Copy, Clone, Debug, PartialEq, Eq, Structural)]
pub enum PatternTable {
    Left,
    Right,
}

/// Whether bit `i` (below 8) of `b` is set.
pub open spec fn bit_set(b: u8, i: nat) -> bool {
    (b as nat / (if i == 0 {
        1nat
    } else if i == 1 {
        2
    } else if i == 2 {
        4
    } else if i == 3 {
        8
    } else if i == 4 {
        16
    } else if i == 5 {
        32
    } else if i == 6 {
        64
    } else {
        128
    })) % 2 == 1
}

impl SpriteSize {
    pub open spec fn height_spec(self) -> u8 {
        match self {
            SpriteSize::_8x8 => 8,
            SpriteSize::_8x16 => 16,
        }
    }

    pub fn height(self) -> (h: u8)
        ensures
            h == self.height_spec(),
    {
        match self {
            SpriteSize::_8x8 => 8,
            SpriteSize::_8x16 => 16,
        }
    }
}

impl PatternTable {
    /// The address the pattern table starts at.
    pub open spec fn base(self) -> u16 {
        match self {
            PatternTable::Left => 0x0000,
            PatternTable::Right => 0x1000,
        }
    }

    /// The right table when `value` is set, the left one otherwise.
    pub fn from_bool(value: bool) -> (t: PatternTable)
        ensures
            t == (if value {
                PatternTable::Right
            } else {
                PatternTable::Left
            }),
    {
        if value {
            PatternTable::Right
        } else {
            PatternTable::Left
        }
    }

    /// The address the pattern table starts at.
    pub fn address(self) -> (a: Address)
        ensures
            a.0 == self.base(),
    {
        Address::new(
            match self {
                PatternTable::Left => 0x0000,
                PatternTable::Right => 0x1000,
            },
        )
    }
}

impl From<bool> for PatternTable {
    fn from(value: bool) -> (t: PatternTable) {
        PatternTable::from_bool(value)
    }
}

impl vstd::std_specs::convert::FromSpecImpl<bool> for PatternTable {
    open spec fn obeys_from_spec() -> bool {
        true
    }

    open spec fn from_spec(value: bool) -> Self {
        if value {
            PatternTable::Right
        } else {
            PatternTable::Left
        }
    }
}

impl Control {
    pub fn from_bits(bits: u8) -> (c: Self)
        ensures
            c.0 == bits,
    {
        Self(bits)
    }

    pub fn bits(self) -> (b: u8)
        ensures
            b == self.0,
    {
        self.0
    }

    pub open spec fn sprite_size_spec(self) -> SpriteSize {
        if bit_set(self.0, 5) {
            SpriteSize::_8x16
        } else {
            SpriteSize::_8x8
        }
    }

    pub fn sprite_size(self) -> (s: SpriteSize)
        ensures
            s == self.sprite_size_spec(),
    {
        if (self.0 / 32) % 2 == 1 {
            SpriteSize::_8x16
        } else {
            SpriteSize::_8x8
        }
    }

    /// Bits 0-1: which of the four nametables to start from.
    pub open spec fn nametable_select_spec(self) -> u8 {
        self.0 % 4
    }

    pub fn nametable_select(self) -> (n: u8)
        ensures
            n == self.nametable_select_spec(),
            n < 4,
    {
        self.0 % 4
    }

    pub open spec fn background_pattern_table_spec(self) -> PatternTable {
        if bit_set(self.0, 4) {
            PatternTable::Right
        } else {
            PatternTable::Left
        }
    }

    pub fn background_pattern_table(self) -> (t: PatternTable)
        ensures
            t == self.background_pattern_table_spec(),
    {
        PatternTable::from_bool((self.0 / 16) % 2 == 1)
    }

    pub open spec fn sprite_pattern_table_spec(self) -> PatternTable {
        if bit_set(self.0, 3) {
            PatternTable::Right
        } else {
            PatternTable::Left
        }
    }

    pub fn sprite_pattern_table(self) -> (t: PatternTable)
        ensures
            t == self.sprite_pattern_table_spec(),
    {
        PatternTable::from_bool((self.0 / 8) % 2 == 1)
    }

    /// How far the PPU address moves after each data access: 32 (down a row) when bit 2 is
    /// set, 1 (across) otherwise.
    pub open spec fn address_increment_spec(self) -> u16 {
        if bit_set(self.0, 2) {
            32
        } else {
            1
        }
    }

    pub fn address_increment(self) -> (inc: u16)
        ensures
            inc == self.address_increment_spec(),
    {
        if (self.0 / 4) % 2 == 1 {
            32
        } else {
            1
        }
    }

    pub open spec fn nmi_on_vblank_spec(self) -> bool {
        bit_set(self.0, 7)
    }

    pub fn nmi_on_vblank(self) -> (b: bool)
        ensures
            b == self.nmi_on_vblank_spec(),
    {
        self.0 >= 128
    }
}

impl Default for Control {
    fn default() -> (c: Self)
        ensures
            c.0 == 0,
    {
        Control(0)
    }
}

} // verus!

use vstd::prelude::*;

use super::control::{bit_set, SpriteSize};

verus! {

/// The attribute byte of a sprite: bit 7 vertical flip, bit 6 horizontal flip, bit 5 behind
/// background, bits 0-1 palette. Bits 2-4 are unused and dropped.
#[derive(Copy, Clone, Debug, PartialEq, Eq, Structural)]
pub struct SpriteAttributes(pub u8);

/// A sprite as stored in object attribute memory.
#[derive(Copy, Clone, Debug, PartialEq, Eq, Structural)]
pub struct Sprite {
    pub x: u8,
    pub y: u8,
    pub tile_index: u8,
    pub attributes: SpriteAttributes,
}

/// A sprite selected for the current scanline, with its row of pattern bits.
#[derive(Copy, Clone, Debug, PartialEq, Eq, Structural)]
pub struct ActiveSprite {
    pub sprite: Sprite,
    pub pattern0: u8,
    pub pattern1: u8,
}

/// The attribute bits that name flags: 0b1110_0011.
pub open spec fn attribute_bits(b: u8) -> u8 {
    (b - (b / 4 % 8) * 4) as u8
}

/// The sprite that fills unused slots: off screen, every attribute set.
pub open spec fn default_sprite() -> Sprite {
    Sprite { x: 0xff, y: 0xff, tile_index: 0xff, attributes: SpriteAttributes(0b1110_0011) }
}

pub open spec fn default_active_sprite() -> ActiveSprite {
    ActiveSprite { sprite: default_sprite(), pattern0: 0, pattern1: 0 }
}

impl SpriteAttributes {
    pub const VERTICAL_FLIP: u8 = 0b1000_0000;
    pub const HORIZONTAL_FLIP: u8 = 0b0100_0000;
    pub const PRIORITY: u8 = 0b0010_0000;
    pub const PALETTE: u8 = 0b0000_0011;

    pub fn from_bits_truncate(bits: u8) -> (a: Self)
        ensures
            a.0 == attribute_bits(bits),
    {
        SpriteAttributes(bits - (bits / 4 % 8) * 4)
    }

    pub fn empty() -> (a: Self)
        ensures
            a.0 == 0,
    {
        SpriteAttributes(0)
    }

    pub fn all() -> (a: Self)
        ensures
            a.0 == 0b1110_0011,
    {
        SpriteAttributes(0b1110_0011)
    }

    pub fn bits(self) -> (b: u8)
        ensures
            b == self.0,
    {
        self.0
    }

    /// These attributes without those set in `other`.
    pub fn difference(self, other: Self) -> (a: Self)
        ensures
            a.0 == self.0 & !other.0,
    {
        SpriteAttributes(self.0 & !other.0)
    }

    pub open spec fn horizontal_flip(self) -> bool {
        bit_set(self.0, 6)
    }

    pub open spec fn vertical_flip(self) -> bool {
        bit_set(self.0, 7)
    }

    /// Whether the sprite is drawn behind the background.
    pub open spec fn behind_background(self) -> bool {
        bit_set(self.0, 5)
    }

    /// The sprite palette, 0-3.
    pub open spec fn palette(self) -> u8 {
        self.0 % 4
    }

    /// The pattern column for screen column `x` of the sprite: sprite patterns are stored
    /// right to left, so the column is mirrored unless the sprite is flipped horizontally.
    pub open spec fn hor_flip_spec(self, x: u8) -> u8 {
        if self.horizontal_flip() {
            x
        } else {
            (7 - x) as u8
        }
    }

    pub fn hor_flip(self, x: u8) -> (r: u8)
        requires
            x < 8,
        ensures
            r == self.hor_flip_spec(x),
            r < 8,
    {
        if (self.0 / 64) % 2 == 1 {
            x
        } else {
            7 - x
        }
    }

    /// The pattern row for row `y` of a sprite, mirrored when flipped vertically.
    pub open spec fn ver_flip_spec(self, y: u8, sprite_size: SpriteSize) -> u8 {
        if self.vertical_flip() {
            (sprite_size.height_spec() - 1 - y) as u8
        } else {
            y
        }
    }

    pub fn ver_flip(self, y: u8, sprite_size: SpriteSize) -> (r: u8)
        requires
            y < sprite_size.height_spec(),
        ensures
            r == self.ver_flip_spec(y, sprite_size),
            r < sprite_size.height_spec(),
    {
        if self.0 >= 128 {
            sprite_size.height() - 1 - y
        } else {
            y
        }
    }
}

impl Sprite {
    pub fn new(x: u8, y: u8, tile_index: u8, attributes: SpriteAttributes) -> (s: Self)
        ensures
            s == (Sprite { x, y, tile_index, attributes }),
    {
        Sprite { x, y, tile_index, attributes }
    }
}

impl Default for Sprite {
    fn default() -> (s: Self)
        ensures
            s == default_sprite(),
    {
        Sprite::new(0xff, 0xff, 0xff, SpriteAttributes::all())
    }
}

impl Default for ActiveSprite {
    fn default() -> (s: Self)
        ensures
            s == default_active_sprite(),
    {
        ActiveSprite { sprite: Sprite::default(), pattern0: 0, pattern1: 0 }
    }
}

} // verus!

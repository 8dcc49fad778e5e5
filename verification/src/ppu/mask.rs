use vstd::prelude::*;

use super::control::bit_set;

verus! {

/// PPUMASK: bit 7-5 colour emphasis, bit 4 show sprites, bit 3 show background, bits 2-1 show
/// the leftmost column, bit 0 greyscale.
#[derive(Copy, Clone, Debug, PartialEq, Eq, Structural)]
pub struct Mask(pub u8);

impl Mask {
    pub const SHOW_SPRITES: u8 = 0b0001_0000;
    pub const SHOW_BACKGROUND: u8 = 0b0000_1000;

    pub fn from_bits(bits: u8) -> (m: Self)
        ensures
            m.0 == bits,
    {
        Self(bits)
    }

    /// Every bit names a flag, so nothing is dropped.
    pub fn from_bits_truncate(bits: u8) -> (m: Self)
        ensures
            m.0 == bits,
    {
        Self(bits)
    }

    pub fn bits(self) -> (b: u8)
        ensures
            b == self.0,
    {
        self.0
    }

    pub open spec fn show_background_spec(self) -> bool {
        bit_set(self.0, 3)
    }

    pub fn show_background(self) -> (b: bool)
        ensures
            b == self.show_background_spec(),
    {
        (self.0 / 8) % 2 == 1
    }

    pub open spec fn show_sprites_spec(self) -> bool {
        bit_set(self.0, 4)
    }

    pub fn show_sprites(self) -> (b: bool)
        ensures
            b == self.show_sprites_spec(),
    {
        (self.0 / 16) % 2 == 1
    }
}

impl Default for Mask {
    fn default() -> (m: Self)
        ensures
            m.0 == 0,
    {
        Mask(0)
    }
}

} // verus!

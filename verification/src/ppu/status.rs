use vstd::prelude::*;

use super::control::bit_set;

verus! {

/// PPUSTATUS: bit 7 vblank, bit 6 sprite zero hit, bit 5 sprite overflow; the other bits read
/// as clear.
#[derive(Copy, Clone, Debug, PartialEq, Eq, Structural)]
pub struct Status {
    pub vblank: bool,
    pub sprite_zero_hit: bool,
    pub sprite_overflow: bool,
}

/// The byte the status register reads as.
pub open spec fn ppu_status_bits(s: Status) -> u8 {
    ((if s.vblank {
        128int
    } else {
        0
    }) + (if s.sprite_zero_hit {
        64int
    } else {
        0
    }) + (if s.sprite_overflow {
        32int
    } else {
        0
    })) as u8
}

impl Status {
    pub const VBLANK: u8 = 0b1000_0000;
    pub const SPRITE_ZERO_HIT: u8 = 0b0100_0000;
    pub const SPRITE_OVERFLOW: u8 = 0b0010_0000;

    /// The status register with the flags named by the bits of `bits`; bits 0-4 are dropped.
    pub fn from_bits_truncate(bits: u8) -> (s: Self)
        ensures
            s.vblank == bit_set(bits, 7),
            s.sprite_zero_hit == bit_set(bits, 6),
            s.sprite_overflow == bit_set(bits, 5),
    {
        Status {
            vblank: bits >= 128,
            sprite_zero_hit: (bits / 64) % 2 == 1,
            sprite_overflow: (bits / 32) % 2 == 1,
        }
    }

    pub fn bits(self) -> (b: u8)
        ensures
            b == ppu_status_bits(self),
    {
        let mut b: u8 = 0;
        if self.vblank {
            b = b + 128;
        }
        if self.sprite_zero_hit {
            b = b + 64;
        }
        if self.sprite_overflow {
            b = b + 32;
        }
        b
    }

    /// Whether every flag named in the mask `flags` is set.
    pub fn contains(self, flags: u8) -> (b: bool)
        ensures
            b == ((bit_set(flags, 7) ==> self.vblank) && (bit_set(flags, 6)
                ==> self.sprite_zero_hit) && (bit_set(flags, 5) ==> self.sprite_overflow)),
    {
        let m = Status::from_bits_truncate(flags);
        (!m.vblank || self.vblank) && (!m.sprite_zero_hit || self.sprite_zero_hit) && (
        !m.sprite_overflow || self.sprite_overflow)
    }

    /// Sets the flags named in the mask `flags`.
    pub fn insert(&mut self, flags: u8)
        ensures
            final(self).vblank == (old(self).vblank || bit_set(flags, 7)),
            final(self).sprite_zero_hit == (old(self).sprite_zero_hit || bit_set(flags, 6)),
            final(self).sprite_overflow == (old(self).sprite_overflow || bit_set(flags, 5)),
    {
        let m = Status::from_bits_truncate(flags);
        self.vblank = self.vblank || m.vblank;
        self.sprite_zero_hit = self.sprite_zero_hit || m.sprite_zero_hit;
        self.sprite_overflow = self.sprite_overflow || m.sprite_overflow;
    }

    /// Clears the flags named in the mask `flags`.
    pub fn remove(&mut self, flags: u8)
        ensures
            final(self).vblank == (old(self).vblank && !bit_set(flags, 7)),
            final(self).sprite_zero_hit == (old(self).sprite_zero_hit && !bit_set(flags, 6)),
            final(self).sprite_overflow == (old(self).sprite_overflow && !bit_set(flags, 5)),
    {
        let m = Status::from_bits_truncate(flags);
        self.vblank = self.vblank && !m.vblank;
        self.sprite_zero_hit = self.sprite_zero_hit && !m.sprite_zero_hit;
        self.sprite_overflow = self.sprite_overflow && !m.sprite_overflow;
    }
}

impl Default for Status {
    fn default() -> (s: Self)
        ensures
            ppu_status_bits(s) == 0,
            !s.vblank && !s.sprite_zero_hit && !s.sprite_overflow,
    {
        Status { vblank: false, sprite_zero_hit: false, sprite_overflow: false }
    }
}

} // verus!

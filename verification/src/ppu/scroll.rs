use vstd::prelude::*;

use crate::address::Address;

verus! {

/// The PPU's scroll position, as held in its 15-bit address registers:
/// `0yyy NNYY YYYX XXXX` - fine Y, nametable select (vertical, horizontal), coarse Y, coarse X.
#[derive(Copy, Clone, Debug, PartialEq, Eq, Structural)]
pub struct Scroll {
    pub coarse_x: u8,
    pub coarse_y: u8,
    pub horizontal_nametable: bool,
    pub vertical_nametable: bool,
    pub fine_y: u8,
}

/// The scroll position held in a 15-bit register value (bit 15 is ignored).
pub open spec fn scroll_of(bits: u16) -> Scroll {
    Scroll {
        coarse_x: (bits % 32) as u8,
        coarse_y: ((bits / 32) % 32) as u8,
        horizontal_nametable: (bits / 1024) % 2 == 1,
        vertical_nametable: (bits / 2048) % 2 == 1,
        fine_y: ((bits / 4096) % 8) as u8,
    }
}

/// The register value holding a scroll position.
pub open spec fn scroll_bits(s: Scroll) -> u16 {
    (s.coarse_x + s.coarse_y * 32 + (if s.horizontal_nametable {
        1024int
    } else {
        0
    }) + (if s.vertical_nametable {
        2048int
    } else {
        0
    }) + s.fine_y * 4096) as u16
}

proof fn lemma_fields_of_bits(b: u16)
    by (bit_vector)
    ensures
        (b % 32) + ((b / 32) % 32) * 32 + (if (b / 1024) % 2 == 1 {
            1024u16
        } else {
            0u16
        }) + (if (b / 2048) % 2 == 1 {
            2048u16
        } else {
            0u16
        }) + ((b / 4096) % 8) * 4096 == b % 32768,
{
}

proof fn lemma_bits_of_fields(x: u16, y: u16, h: bool, v: bool, f: u16)
    by (bit_vector)
    requires
        x < 32,
        y < 32,
        f < 8,
    ensures
        ({
            let b: u16 = (x + y * 32 + (if h {
                1024u16
            } else {
                0u16
            }) + (if v {
                2048u16
            } else {
                0u16
            }) + f * 4096) as u16;
            &&& b % 32 == x
            &&& (b / 32) % 32 == y
            &&& ((b / 1024) % 2 == 1) == h
            &&& ((b / 2048) % 2 == 1) == v
            &&& (b / 4096) % 8 == f
            &&& b < 32768
        }),
{
}

/// Register values round-trip through scroll positions, dropping bit 15.
pub proof fn lemma_scroll_roundtrip(bits: u16)
    ensures
        scroll_of(bits).wf(),
        scroll_bits(scroll_of(bits)) == bits % 32768,
{
    lemma_fields_of_bits(bits);
}

/// Scroll positions round-trip through register values.
pub proof fn lemma_bits_roundtrip(s: Scroll)
    requires
        s.wf(),
    ensures
        scroll_of(scroll_bits(s)) == s,
        scroll_bits(s) < 32768,
{
    lemma_bits_of_fields(
        s.coarse_x as u16,
        s.coarse_y as u16,
        s.horizontal_nametable,
        s.vertical_nametable,
        s.fine_y as u16,
    );
}

impl Scroll {
    /// Every field fits in its bits.
    pub open spec fn wf(self) -> bool {
        self.coarse_x < 32 && self.coarse_y < 32 && self.fine_y < 8
    }

    pub fn new(bits: u16) -> (s: Scroll)
        ensures
            s == scroll_of(bits),
            s.wf(),
            scroll_bits(s) == bits % 32768,
    {
        proof {
            lemma_scroll_roundtrip(bits);
        }
        Scroll {
            coarse_x: (bits % 32) as u8,
            coarse_y: ((bits / 32) % 32) as u8,
            horizontal_nametable: (bits / 1024) % 2 == 1,
            vertical_nametable: (bits / 2048) % 2 == 1,
            fine_y: ((bits / 4096) % 8) as u8,
        }
    }

    /// The scroll position held in `bits`; bit 15 is dropped.
    pub fn from_bits_truncate(bits: u16) -> (s: Scroll)
        ensures
            s == scroll_of(bits),
            s.wf(),
    {
        Scroll::new(bits)
    }

    pub fn bits(self) -> (b: u16)
        requires
            self.wf(),
        ensures
            b == scroll_bits(self),
            b < 32768,
            scroll_of(b) == self,
    {
        proof {
            lemma_bits_roundtrip(self);
        }
        let h: u16 = if self.horizontal_nametable {
            1024
        } else {
            0
        };
        let v: u16 = if self.vertical_nametable {
            2048
        } else {
            0
        };
        self.coarse_x as u16 + self.coarse_y as u16 * 32 + h + v + self.fine_y as u16 * 4096
    }

    pub fn coarse_x(self) -> (c: u8)
        ensures
            c == self.coarse_x,
    {
        self.coarse_x
    }

    /// Sets coarse X to the low five bits of `coarse_x`.
    pub fn set_coarse_x(&mut self, coarse_x: u8)
        ensures
            *final(self) == (Scroll { coarse_x: coarse_x % 32, ..*old(self) }),
    {
        self.coarse_x = coarse_x % 32;
    }

    pub fn coarse_y(self) -> (c: u8)
        ensures
            c == self.coarse_y,
    {
        self.coarse_y
    }

    /// Sets coarse Y to the low five bits of `coarse_y`.
    pub fn set_coarse_y(&mut self, coarse_y: u8)
        ensures
            *final(self) == (Scroll { coarse_y: coarse_y % 32, ..*old(self) }),
    {
        self.coarse_y = coarse_y % 32;
    }

    pub fn fine_y(self) -> (f: u8)
        ensures
            f == self.fine_y,
    {
        self.fine_y
    }

    /// Sets fine Y to the low three bits of `fine_y`.
    pub fn set_fine_y(&mut self, fine_y: u8)
        ensures
            *final(self) == (Scroll { fine_y: fine_y % 8, ..*old(self) }),
    {
        self.fine_y = fine_y % 8;
    }

    /// The nametable byte of the tile at this position: 0x2000 plus the low twelve bits.
    pub open spec fn tile_address_spec(self) -> u16 {
        (0x2000 + scroll_bits(self) % 4096) as u16
    }

    pub fn tile_address(self) -> (a: Address)
        requires
            self.wf(),
        ensures
            a.0 == self.tile_address_spec(),
            0x2000 <= a.0 < 0x3000,
    {
        Address::new(0x2000 + self.bits() % 4096)
    }

    /// The attribute byte covering the tile at this position: in the attribute table of the
    /// selected nametable, row coarse Y / 4, column coarse X / 4.
    pub open spec fn attribute_address_spec(self) -> u16 {
        (0x23C0 + (if self.horizontal_nametable {
            0x400int
        } else {
            0
        }) + (if self.vertical_nametable {
            0x800int
        } else {
            0
        }) + self.coarse_x / 4 + (self.coarse_y / 4) * 8) as u16
    }

    pub fn attribute_address(self) -> (a: Address)
        requires
            self.wf(),
        ensures
            a.0 == self.attribute_address_spec(),
            0x23C0 <= a.0 < 0x3000,
    {
        let nametable: u16 = (if self.horizontal_nametable {
            0x400
        } else {
            0
        }) + (if self.vertical_nametable {
            0x800
        } else {
            0
        });
        let upper_coarse_x = (self.coarse_x / 4) as u16;
        let upper_coarse_y = (self.coarse_y / 4) as u16 * 8;
        Address::new(0x23C0 + nametable + upper_coarse_x + upper_coarse_y)
    }

    /// Moves one tile right; after coarse X 31 it wraps to 0 and switches horizontal nametable.
    pub fn increment_coarse_x(&mut self)
        requires
            old(self).wf(),
        ensures
            final(self).wf(),
            *final(self) == (if old(self).coarse_x != 31 {
                Scroll { coarse_x: (old(self).coarse_x + 1) as u8, ..*old(self) }
            } else {
                Scroll {
                    coarse_x: 0,
                    horizontal_nametable: !old(self).horizontal_nametable,
                    ..*old(self)
                }
            }),
    {
        if self.coarse_x != 31 {
            self.coarse_x = self.coarse_x + 1;
        } else {
            self.coarse_x = 0;
            self.horizontal_nametable = !self.horizontal_nametable;
        }
    }

    /// Moves one pixel row down: fine Y counts to 7, then coarse Y moves on; after row 29,
    /// coarse Y wraps to 0 and the vertical nametable switches. A coarse Y of 30 or 31 (outside
    /// the picture) moves on without switching nametable, the register carrying from 31 into
    /// the nametable bits.
    pub fn increment_fine_y(&mut self)
        requires
            old(self).wf(),
        ensures
            final(self).wf(),
            scroll_bits(*final(self)) == (if old(self).fine_y != 7 {
                scroll_bits(*old(self)) + 4096
            } else if old(self).coarse_y != 29 {
                scroll_bits(*old(self)) - 7 * 4096 + 32
            } else if old(self).vertical_nametable {
                scroll_bits(*old(self)) - 7 * 4096 - 29 * 32 - 2048
            } else {
                scroll_bits(*old(self)) - 7 * 4096 - 29 * 32 + 2048
            }),
            old(self).fine_y != 7 ==> *final(self) == (Scroll {
                fine_y: (old(self).fine_y + 1) as u8,
                ..*old(self)
            }),
            old(self).fine_y == 7 && old(self).coarse_y < 29 ==> *final(self) == (Scroll {
                fine_y: 0,
                coarse_y: (old(self).coarse_y + 1) as u8,
                ..*old(self)
            }),
            old(self).fine_y == 7 && old(self).coarse_y == 29 ==> *final(self) == (Scroll {
                fine_y: 0,
                coarse_y: 0,
                vertical_nametable: !old(self).vertical_nametable,
                ..*old(self)
            }),
    {
        let bits = self.bits();
        proof {
            lemma_bits_roundtrip(*self);
        }
        let new_bits: u16 = if self.fine_y != 7 {
            bits + 4096
        } else if self.coarse_y != 29 {
            bits - 7 * 4096 + 32
        } else if self.vertical_nametable {
            bits - 7 * 4096 - 29 * 32 - 2048
        } else {
            bits - 7 * 4096 - 29 * 32 + 2048
        };
        let ghost o = *self;
        *self = Scroll::new(new_bits);
        proof {
            lemma_scroll_roundtrip(new_bits);
            if o.fine_y != 7 {
                lemma_bits_roundtrip(Scroll { fine_y: (o.fine_y + 1) as u8, ..o });
            } else if o.coarse_y < 29 {
                lemma_bits_roundtrip(Scroll { fine_y: 0, coarse_y: (o.coarse_y + 1) as u8, ..o });
            } else if o.coarse_y == 29 {
                lemma_bits_roundtrip(
                    Scroll { fine_y: 0, coarse_y: 0, vertical_nametable: !o.vertical_nametable, ..o },
                );
            }
        }
    }

    /// Copies the horizontal part of the position (coarse X and horizontal nametable).
    pub fn set_horizontal(&mut self, from: Scroll)
        ensures
            *final(self) == (Scroll {
                coarse_x: from.coarse_x,
                horizontal_nametable: from.horizontal_nametable,
                ..*old(self)
            }),
    {
        self.coarse_x = from.coarse_x;
        self.horizontal_nametable = from.horizontal_nametable;
    }
}

} // verus!

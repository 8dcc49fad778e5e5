use vstd::prelude::*;

verus! {

/// A 16-bit address on the CPU or PPU bus.
#[derive(Copy, Clone, PartialEq, Eq, Structural, Debug)]
pub struct Address(pub u16);

/// The low byte of a 16-bit value.
pub open spec fn lo(v: u16) -> u8 {
    (v % 256) as u8
}

/// The high byte of a 16-bit value.
pub open spec fn hi(v: u16) -> u8 {
    (v / 256) as u8
}

/// The 16-bit value made of a high and a low byte.
pub open spec fn join(higher: u8, lower: u8) -> u16 {
    (higher as int * 256 + lower as int) as u16
}

/// Addition modulo 2^16.
pub open spec fn add16(a: u16, b: int) -> u16 {
    ((a as int + b) % 65536) as u16
}

/// Addition modulo 2^8.
pub open spec fn add8(a: u8, b: int) -> u8 {
    ((a as int + b) % 256) as u8
}

pub proof fn lemma_join_split(v: u16)
    ensures
        join(hi(v), lo(v)) == v,
{
}

pub proof fn lemma_split_join(higher: u8, lower: u8)
    ensures
        hi(join(higher, lower)) == higher,
        lo(join(higher, lower)) == lower,
{
}

impl Address {
    pub fn new(value: u16) -> (a: Self)
        ensures
            a.0 == value,
    {
        Address(value)
    }

    pub fn from_bytes(higher: u8, lower: u8) -> (a: Self)
        ensures
            a.0 == join(higher, lower),
    {
        Address((higher as u16) * 256 + (lower as u16))
    }

    pub fn bytes(self) -> (b: u16)
        ensures
            b == self.0,
    {
        self.0
    }

    pub fn index(self) -> (i: usize)
        ensures
            i == self.0,
    {
        self.0 as usize
    }

    pub fn higher(self) -> (b: u8)
        ensures
            b == hi(self.0),
    {
        (self.0 / 256) as u8
    }

    pub fn lower(self) -> (b: u8)
        ensures
            b == lo(self.0),
    {
        (self.0 % 256) as u8
    }

    /// The address with its low byte incremented, wrapping within the same page.
    pub fn incr_lower(self) -> (a: Self)
        ensures
            a.0 == join(hi(self.0), add8(lo(self.0), 1)),
            hi(a.0) == hi(self.0),
    {
        Address::from_bytes(self.higher(), self.lower().wrapping_add(1))
    }

    /// Whether the two addresses lie on different pages (differ in their high byte).
    pub fn page_crossed(self, other: Address) -> (b: bool)
        ensures
            b == (hi(self.0) != hi(other.0)),
    {
        self.higher() != other.higher()
    }

    /// The address `rhs` bytes further on, wrapping around the address space.
    pub fn wrapping_add(self, rhs: u16) -> (a: Self)
        ensures
            a.0 == add16(self.0, rhs as int),
    {
        Address(self.0.wrapping_add(rhs))
    }

    /// The address `rhs` bytes before, wrapping around the address space.
    pub fn wrapping_sub(self, rhs: u16) -> (a: Self)
        ensures
            a.0 == add16(self.0, 65536 - rhs),
    {
        Address(self.0.wrapping_sub(rhs))
    }
}

impl From<u16> for Address {
    fn from(value: u16) -> (a: Self) {
        Address(value)
    }
}

impl vstd::std_specs::convert::FromSpecImpl<u16> for Address {
    open spec fn obeys_from_spec() -> bool {
        true
    }

    open spec fn from_spec(v: u16) -> Self {
        Address(v)
    }
}

} // verus!

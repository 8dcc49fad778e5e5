use vstd::prelude::*;

verus! {

/// P - the 6502 processor status register, one field for each flag.
#[derive(Copy, Clone, PartialEq, Eq, Structural, Debug)]
pub struct Status {
    pub negative: bool,
    pub overflow: bool,
    pub unused: bool,
    pub brk: bool,
    pub decimal: bool,
    pub interrupt_disable: bool,
    pub zero: bool,
    pub carry: bool,
}

/// The flags in bit order: bit 0 (carry) first, bit 7 (negative) last.
pub open spec fn flag_list(s: Status) -> Seq<bool> {
    seq![s.carry, s.zero, s.interrupt_disable, s.decimal, s.brk, s.unused, s.overflow, s.negative]
}

/// The byte a status register is stored as.
pub open spec fn status_bits(s: Status) -> u8 {
    ((if s.negative { 128int } else { 0 }) + (if s.overflow { 64int } else { 0 }) + (if s.unused {
        32int
    } else {
        0
    }) + (if s.brk { 16int } else { 0 }) + (if s.decimal { 8int } else { 0 }) + (if s.interrupt_disable {
        4int
    } else {
        0
    }) + (if s.zero { 2int } else { 0 }) + (if s.carry { 1int } else { 0 })) as u8
}

/// The status register stored as byte `b`: every bit of the byte is a flag.
pub open spec fn status_from_bits(b: u8) -> Status {
    Status {
        negative: b >= 128,
        overflow: (b / 64) % 2 == 1,
        unused: (b / 32) % 2 == 1,
        brk: (b / 16) % 2 == 1,
        decimal: (b / 8) % 2 == 1,
        interrupt_disable: (b / 4) % 2 == 1,
        zero: (b / 2) % 2 == 1,
        carry: b % 2 == 1,
    }
}

/// The status with each flag named in the mask `flags` set to `value`, others kept.
pub open spec fn status_with(s: Status, flags: u8, value: bool) -> Status {
    let m = status_from_bits(flags);
    Status {
        negative: if m.negative { value } else { s.negative },
        overflow: if m.overflow { value } else { s.overflow },
        unused: if m.unused { value } else { s.unused },
        brk: if m.brk { value } else { s.brk },
        decimal: if m.decimal { value } else { s.decimal },
        interrupt_disable: if m.interrupt_disable { value } else { s.interrupt_disable },
        zero: if m.zero { value } else { s.zero },
        carry: if m.carry { value } else { s.carry },
    }
}

/// Whether every flag named in the mask `flags` is set in `s`.
pub open spec fn status_contains(s: Status, flags: u8) -> bool {
    let m = status_from_bits(flags);
    &&& m.negative ==> s.negative
    &&& m.overflow ==> s.overflow
    &&& m.unused ==> s.unused
    &&& m.brk ==> s.brk
    &&& m.decimal ==> s.decimal
    &&& m.interrupt_disable ==> s.interrupt_disable
    &&& m.zero ==> s.zero
    &&& m.carry ==> s.carry
}

/// The status after a value is loaded into a register: Z is set when it is zero, N when bit 7
/// is set; the other flags are kept.
pub open spec fn with_flags_for(s: Status, value: u8) -> Status {
    Status { zero: value == 0, negative: value >= 128, ..s }
}

proof fn lemma_byte_digits(b: u8)
    by (bit_vector)
    ensures
        b == (if b >= 128 { 128u8 } else { 0u8 }) + (if (b / 64) % 2 == 1 { 64u8 } else { 0u8 }) + (
        if (b / 32) % 2 == 1 { 32u8 } else { 0u8 }) + (if (b / 16) % 2 == 1 { 16u8 } else { 0u8 })
            + (if (b / 8) % 2 == 1 { 8u8 } else { 0u8 }) + (if (b / 4) % 2 == 1 { 4u8 } else { 0u8 })
            + (if (b / 2) % 2 == 1 { 2u8 } else { 0u8 }) + (if b % 2 == 1 { 1u8 } else { 0u8 }),
{
}

proof fn lemma_digits_byte(n: bool, v: bool, u: bool, k: bool, d: bool, i: bool, z: bool, c: bool)
    by (bit_vector)
    ensures
        ({
            let b: u8 = ((if n { 128u8 } else { 0u8 }) + (if v { 64u8 } else { 0u8 }) + (if u {
                32u8
            } else {
                0u8
            }) + (if k { 16u8 } else { 0u8 }) + (if d { 8u8 } else { 0u8 }) + (if i {
                4u8
            } else {
                0u8
            }) + (if z { 2u8 } else { 0u8 }) + (if c { 1u8 } else { 0u8 })) as u8;
            &&& n == (b >= 128)
            &&& v == ((b / 64) % 2 == 1)
            &&& u == ((b / 32) % 2 == 1)
            &&& k == ((b / 16) % 2 == 1)
            &&& d == ((b / 8) % 2 == 1)
            &&& i == ((b / 4) % 2 == 1)
            &&& z == ((b / 2) % 2 == 1)
            &&& c == (b % 2 == 1)
        }),
{
}

/// Bytes round-trip through the status register: every bit is a flag.
pub proof fn lemma_status_bits_roundtrip(b: u8)
    ensures
        status_bits(status_from_bits(b)) == b,
{
    lemma_byte_digits(b);
}

/// Status registers round-trip through their byte.
pub proof fn lemma_status_from_bits_roundtrip(s: Status)
    ensures
        status_from_bits(status_bits(s)) == s,
{
    lemma_digits_byte(
        s.negative,
        s.overflow,
        s.unused,
        s.brk,
        s.decimal,
        s.interrupt_disable,
        s.zero,
        s.carry,
    );
}

impl Status {
    pub const NEGATIVE: u8 = 0b1000_0000;
    pub const OVERFLOW: u8 = 0b0100_0000;
    pub const UNUSED: u8 = 0b0010_0000;
    pub const BREAK: u8 = 0b0001_0000;
    pub const DECIMAL: u8 = 0b0000_1000;
    pub const INTERRUPT_DISABLE: u8 = 0b0000_0100;
    pub const ZERO: u8 = 0b0000_0010;
    pub const CARRY: u8 = 0b0000_0001;

    /// All flags clear.
    pub fn empty() -> (s: Status)
        ensures
            status_bits(s) == 0,
            s == status_from_bits(0),
    {
        Status {
            negative: false,
            overflow: false,
            unused: false,
            brk: false,
            decimal: false,
            interrupt_disable: false,
            zero: false,
            carry: false,
        }
    }

    /// The status stored as byte `bits`; every bit of the byte names a flag.
    pub fn from_bits_truncate(bits: u8) -> (s: Status)
        ensures
            s == status_from_bits(bits),
            status_bits(s) == bits,
    {
        proof {
            lemma_status_bits_roundtrip(bits);
        }
        Status {
            negative: bits >= 128,
            overflow: (bits / 64) % 2 == 1,
            unused: (bits / 32) % 2 == 1,
            brk: (bits / 16) % 2 == 1,
            decimal: (bits / 8) % 2 == 1,
            interrupt_disable: (bits / 4) % 2 == 1,
            zero: (bits / 2) % 2 == 1,
            carry: bits % 2 == 1,
        }
    }

    /// The byte the status is stored as.
    pub fn bits(self) -> (b: u8)
        ensures
            b == status_bits(self),
            status_from_bits(b) == self,
    {
        let mut b: u8 = 0;
        if self.negative {
            b = b + 128;
        }
        if self.overflow {
            b = b + 64;
        }
        if self.unused {
            b = b + 32;
        }
        if self.brk {
            b = b + 16;
        }
        if self.decimal {
            b = b + 8;
        }
        if self.interrupt_disable {
            b = b + 4;
        }
        if self.zero {
            b = b + 2;
        }
        if self.carry {
            b = b + 1;
        }
        proof {
            lemma_status_from_bits_roundtrip(self);
        }
        b
    }

    /// Whether every flag named in the mask `flags` is set.
    pub fn contains(self, flags: u8) -> (r: bool)
        ensures
            r == status_contains(self, flags),
    {
        let m = Status::from_bits_truncate(flags);
        (!m.negative || self.negative) && (!m.overflow || self.overflow) && (!m.unused
            || self.unused) && (!m.brk || self.brk) && (!m.decimal || self.decimal) && (
        !m.interrupt_disable || self.interrupt_disable) && (!m.zero || self.zero) && (!m.carry
            || self.carry)
    }

    /// Sets each flag named in the mask `flags` to `value`.
    pub fn set(&mut self, flags: u8, value: bool)
        ensures
            *final(self) == status_with(*old(self), flags, value),
    {
        let m = Status::from_bits_truncate(flags);
        if m.negative {
            self.negative = value;
        }
        if m.overflow {
            self.overflow = value;
        }
        if m.unused {
            self.unused = value;
        }
        if m.brk {
            self.brk = value;
        }
        if m.decimal {
            self.decimal = value;
        }
        if m.interrupt_disable {
            self.interrupt_disable = value;
        }
        if m.zero {
            self.zero = value;
        }
        if m.carry {
            self.carry = value;
        }
    }

    /// Sets each flag named in the mask `flags`.
    pub fn insert(&mut self, flags: u8)
        ensures
            *final(self) == status_with(*old(self), flags, true),
    {
        self.set(flags, true);
    }

    /// Clears each flag named in the mask `flags`.
    pub fn remove(&mut self, flags: u8)
        ensures
            *final(self) == status_with(*old(self), flags, false),
    {
        self.set(flags, false);
    }

    /// Sets Z when `value` is zero and N when bit 7 of `value` is set.
    pub fn set_flags(&mut self, value: u8)
        ensures
            *final(self) == with_flags_for(*old(self), value),
    {
        self.zero = value == 0;
        self.negative = value >= 128;
    }
}

} // verus!

use vstd::prelude::*;

use crate::address::Address;

verus! {

/// A device on an address bus.
///
/// Reading takes `&mut self` because reading some devices changes their state (reading the
/// PPU status register clears its vblank bit, for example). A device is described by a model
/// of its state and three functions on that model: what a read gives back, and the state after
/// a read or a write. `accepts` tells which addresses the device answers at all.
pub trait Memory: Sized {
    type Model;

    /// The abstract state of the device.
    spec fn model(&self) -> Self::Model;

    /// What the device's own representation keeps true.
    spec fn inv(&self) -> bool;

    /// Whether the device answers reads and writes at `address`.
    spec fn accepts(address: Address) -> bool;

    /// The byte a read of `address` gives back from state `m`.
    spec fn peek(m: Self::Model, address: Address) -> u8;

    /// The state after a read of `address` from state `m`.
    spec fn after_read(m: Self::Model, address: Address) -> Self::Model;

    /// The state after writing `byte` to `address` in state `m`.
    spec fn after_write(m: Self::Model, address: Address, byte: u8) -> Self::Model;

    /// Whether the device answers at `address`, as an executable test.
    fn answers(address: Address) -> (b: bool)
        ensures
            b == Self::accepts(address),
    ;

    fn read(&mut self, address: Address) -> (byte: u8)
        requires
            old(self).inv(),
            Self::accepts(address),
        ensures
            final(self).inv(),
            byte == Self::peek(old(self).model(), address),
            final(self).model() == Self::after_read(old(self).model(), address),
    ;

    fn write(&mut self, address: Address, byte: u8)
        requires
            old(self).inv(),
            Self::accepts(address),
        ensures
            final(self).inv(),
            final(self).model() == Self::after_write(old(self).model(), address, byte),
    ;
}

/// Whether a device answers at every address.
pub open spec fn total<M: Memory>() -> bool {
    forall|a: Address| #[trigger] M::accepts(a)
}

/// 64KB of plain RAM: a read gives back the last byte written at the same address.
pub struct ArrayMemory {
    data: Vec<u8>,
}

impl ArrayMemory {
    /// The bytes held, one for each address.
    pub closed spec fn bytes(self) -> Seq<u8> {
        Seq::new(0x10000, |i: int| self.data@[i])
    }

    /// The memory holds one byte for each of the 0x10000 addresses.
    pub proof fn lemma_bytes_len(&self)
        ensures
            self.bytes().len() == 0x10000,
            self.model().len() == 0x10000,
    {
    }

    /// Every byte held, in address order.
    pub fn slice(&self) -> (s: &[u8])
        requires
            self.inv(),
        ensures
            s@ == self.bytes(),
            s@.len() == 0x10000,
    {
        let s = self.data.as_slice();
        assert(s@ =~= self.bytes());
        s
    }
}

impl Default for ArrayMemory {
    fn default() -> (m: Self)
        ensures
            m.inv(),
            m.bytes() == Seq::new(0x10000, |i: int| 0u8),
    {
        let mut data: Vec<u8> = Vec::new();
        let mut i: usize = 0;
        while i < 0x10000
            invariant
                i <= 0x10000,
                data@.len() == i,
                forall|j: int| 0 <= j < i ==> data@[j] == 0u8,
            decreases 0x10000 - i,
        {
            data.push(0);
            i = i + 1;
        }
        let m = ArrayMemory { data };
        assert(m.bytes() =~= Seq::new(0x10000, |i: int| 0u8));
        m
    }
}

impl Memory for ArrayMemory {
    type Model = Seq<u8>;

    open spec fn model(&self) -> Seq<u8> {
        self.bytes()
    }

    closed spec fn inv(&self) -> bool {
        self.data@.len() == 0x10000
    }

    open spec fn accepts(address: Address) -> bool {
        true
    }

    open spec fn peek(m: Seq<u8>, address: Address) -> u8 {
        m[address.0 as int]
    }

    open spec fn after_read(m: Seq<u8>, address: Address) -> Seq<u8> {
        m
    }

    open spec fn after_write(m: Seq<u8>, address: Address, byte: u8) -> Seq<u8> {
        m.update(address.0 as int, byte)
    }

    fn answers(address: Address) -> (b: bool) {
        true
    }

    fn read(&mut self, address: Address) -> (byte: u8) {
        self.data[address.index()]
    }

    fn write(&mut self, address: Address, byte: u8) {
        let i = address.index();
        self.data.set(i, byte);
        assert(self.bytes() =~= old(self).bytes().update(address.0 as int, byte));
    }
}

/// Plain RAM: a read gives back the last byte written at the same address, a write leaves
/// every other address alone, and reading changes nothing.
pub proof fn lemma_array_memory_read_after_write(m: Seq<u8>, a: Address, b: u8, c: Address)
    requires
        m.len() == 0x10000,
    ensures
        ArrayMemory::peek(ArrayMemory::after_write(m, a, b), a) == b,
        c != a ==> ArrayMemory::peek(ArrayMemory::after_write(m, a, b), c) == ArrayMemory::peek(
            m,
            c,
        ),
        ArrayMemory::after_read(m, a) == m,
{
}

} // verus!

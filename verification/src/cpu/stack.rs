use vstd::prelude::*;

use super::CPU;
use crate::address::{add16, add8, Address};
use crate::memory::Memory;

verus! {

/// The stack lives in page 1: the stack pointer is an index into this page.
pub const STACK_BASE: u16 = 0x0100;

/// S - 8-bit stack pointer, an index into the stack page.
#[derive(Debug, PartialEq, Eq, Structural, Copy, Clone)]
pub struct StackPointer(pub u8);

impl StackPointer {
    pub fn address(&self) -> (a: Address)
        ensures
            a.0 == add16(STACK_BASE, self.0 as int),
            a.0 == STACK_BASE + self.0,
    {
        Address::new(STACK_BASE).wrapping_add(self.0 as u16)
    }

    pub fn decrement(&mut self)
        ensures
            final(self).0 == add8(old(self).0, 255),
    {
        self.0 = self.0.wrapping_sub(1);
    }

    pub fn increment(&mut self)
        ensures
            final(self).0 == add8(old(self).0, 1),
    {
        self.0 = self.0.wrapping_add(1);
    }
}

impl Default for StackPointer {
    fn default() -> (s: Self)
        ensures
            s.0 == 0xFF,
    {
        Self(0xFF)
    }
}

impl<M: Memory> CPU<M> {
    /// Writes a byte on top of the stack and moves the stack pointer down.
    pub fn push_stack(&mut self, byte: u8)
        requires
            old(self).wf(),
            old(self).cycle_count < 255,
        ensures
            final(self).wf(),
            final(self).model() == Self::push_step(old(self).model(), byte),
    {
        let address = self.stack_pointer.address();
        self.write(address, byte);
        self.stack_pointer.decrement();
    }

    /// Moves the stack pointer up, taking a cycle.
    pub fn increment_stack(&mut self)
        requires
            old(self).cycle_count < 255,
        ensures
            final(self).model() == Self::increment_stack_step(old(self).model()),
            final(self).memory == old(self).memory,
    {
        self.stack_pointer.increment();
        self.cycle_count = self.cycle_count + 1;
    }

    /// Reads the byte the stack pointer points at, then moves the stack pointer up.
    pub fn pull_and_increment_stack(&mut self) -> (byte: u8)
        requires
            old(self).wf(),
            old(self).cycle_count < 255,
        ensures
            final(self).wf(),
            (final(self).model(), byte) == Self::pull_and_increment_step(old(self).model()),
    {
        let stack_address = self.stack_pointer.address();
        self.stack_pointer.increment();
        self.read(stack_address)
    }

    /// Reads the byte the stack pointer points at.
    pub fn pull_stack(&mut self) -> (byte: u8)
        requires
            old(self).wf(),
            old(self).cycle_count < 255,
        ensures
            final(self).wf(),
            (final(self).model(), byte) == Self::pull_step(old(self).model()),
    {
        let address = self.stack_pointer.address();
        self.read(address)
    }
}

} // verus!

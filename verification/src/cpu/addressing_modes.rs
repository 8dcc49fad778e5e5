use vstd::prelude::*;

use crate::address::Address;
use crate::memory::Memory;

use super::CPU;

verus! {

/// Every way a 6502 instruction can name its operand.
#[derive(Copy, Clone, PartialEq, Eq, Structural, Debug)]
pub enum AddressingMode {
    Accumulator,
    Immediate,
    ZeroPage,
    ZeroPageX,
    ZeroPageY,
    Absolute,
    AbsoluteX,
    AbsoluteY,
    Indirect,
    IndexedIndirect,
    IndirectIndexed,
}

/// An addressing mode that names an operand the CPU reads or writes.
pub trait ReferenceAddressingMode: Copy {
    /// The general addressing mode this one stands for.
    spec fn addressing(self) -> AddressingMode;

    fn mode(self) -> (m: AddressingMode)
        ensures
            m == self.addressing(),
    ;
}

/// An addressing mode whose operand can be read as a value: every addressing mode that names
/// an operand.
pub trait ValueAddressingMode: ReferenceAddressingMode {
    /// Resolves the addressing mode and reads the operand it names.
    fn fetch<M: Memory>(self, cpu: &mut CPU<M>) -> (v: u8)
        requires
            old(cpu).wf(),
            old(cpu).cycle_count <= 249,
        ensures
            final(cpu).wf(),
            ({
                let (s1, r) = CPU::<M>::addressing_step(old(cpu).model(), self.addressing());
                (final(cpu).model(), v) == CPU::<M>::read_reference_step(s1, r, true)
            }),
    ;
}

impl<T: ReferenceAddressingMode> ValueAddressingMode for T {
    fn fetch<M: Memory>(self, cpu: &mut CPU<M>) -> (v: u8) {
        cpu.fetch(self)
    }
}

#[derive(Copy, Clone, PartialEq, Eq, Structural, Debug)]
pub enum FlexibleAddressingMode {
    Immediate,
    ZeroPage,
    ZeroPageX,
    Absolute,
    AbsoluteX,
    AbsoluteY,
    IndexedIndirect,
    IndirectIndexed,
}

impl ReferenceAddressingMode for FlexibleAddressingMode {
    open spec fn addressing(self) -> AddressingMode {
        match self {
            FlexibleAddressingMode::Immediate => AddressingMode::Immediate,
            FlexibleAddressingMode::ZeroPage => AddressingMode::ZeroPage,
            FlexibleAddressingMode::ZeroPageX => AddressingMode::ZeroPageX,
            FlexibleAddressingMode::Absolute => AddressingMode::Absolute,
            FlexibleAddressingMode::AbsoluteX => AddressingMode::AbsoluteX,
            FlexibleAddressingMode::AbsoluteY => AddressingMode::AbsoluteY,
            FlexibleAddressingMode::IndexedIndirect => AddressingMode::IndexedIndirect,
            FlexibleAddressingMode::IndirectIndexed => AddressingMode::IndirectIndexed,
        }
    }

    fn mode(self) -> (m: AddressingMode) {
        match self {
            FlexibleAddressingMode::Immediate => AddressingMode::Immediate,
            FlexibleAddressingMode::ZeroPage => AddressingMode::ZeroPage,
            FlexibleAddressingMode::ZeroPageX => AddressingMode::ZeroPageX,
            FlexibleAddressingMode::Absolute => AddressingMode::Absolute,
            FlexibleAddressingMode::AbsoluteX => AddressingMode::AbsoluteX,
            FlexibleAddressingMode::AbsoluteY => AddressingMode::AbsoluteY,
            FlexibleAddressingMode::IndexedIndirect => AddressingMode::IndexedIndirect,
            FlexibleAddressingMode::IndirectIndexed => AddressingMode::IndirectIndexed,
        }
    }
}

#[derive(Copy, Clone, PartialEq, Eq, Structural, Debug)]
pub enum StoreAddressingMode {
    ZeroPage,
    ZeroPageX,
    Absolute,
    AbsoluteX,
    AbsoluteY,
    IndexedIndirect,
    IndirectIndexed,
}

impl ReferenceAddressingMode for StoreAddressingMode {
    open spec fn addressing(self) -> AddressingMode {
        match self {
            StoreAddressingMode::ZeroPage => AddressingMode::ZeroPage,
            StoreAddressingMode::ZeroPageX => AddressingMode::ZeroPageX,
            StoreAddressingMode::Absolute => AddressingMode::Absolute,
            StoreAddressingMode::AbsoluteX => AddressingMode::AbsoluteX,
            StoreAddressingMode::AbsoluteY => AddressingMode::AbsoluteY,
            StoreAddressingMode::IndexedIndirect => AddressingMode::IndexedIndirect,
            StoreAddressingMode::IndirectIndexed => AddressingMode::IndirectIndexed,
        }
    }

    fn mode(self) -> (m: AddressingMode) {
        match self {
            StoreAddressingMode::ZeroPage => AddressingMode::ZeroPage,
            StoreAddressingMode::ZeroPageX => AddressingMode::ZeroPageX,
            StoreAddressingMode::Absolute => AddressingMode::Absolute,
            StoreAddressingMode::AbsoluteX => AddressingMode::AbsoluteX,
            StoreAddressingMode::AbsoluteY => AddressingMode::AbsoluteY,
            StoreAddressingMode::IndexedIndirect => AddressingMode::IndexedIndirect,
            StoreAddressingMode::IndirectIndexed => AddressingMode::IndirectIndexed,
        }
    }
}

#[derive(Copy, Clone, PartialEq, Eq, Structural, Debug)]
pub enum ShiftAddressingMode {
    Accumulator,
    ZeroPage,
    ZeroPageX,
    Absolute,
    AbsoluteX,
}

impl ReferenceAddressingMode for ShiftAddressingMode {
    open spec fn addressing(self) -> AddressingMode {
        match self {
            ShiftAddressingMode::Accumulator => AddressingMode::Accumulator,
            ShiftAddressingMode::ZeroPage => AddressingMode::ZeroPage,
            ShiftAddressingMode::ZeroPageX => AddressingMode::ZeroPageX,
            ShiftAddressingMode::Absolute => AddressingMode::Absolute,
            ShiftAddressingMode::AbsoluteX => AddressingMode::AbsoluteX,
        }
    }

    fn mode(self) -> (m: AddressingMode) {
        match self {
            ShiftAddressingMode::Accumulator => AddressingMode::Accumulator,
            ShiftAddressingMode::ZeroPage => AddressingMode::ZeroPage,
            ShiftAddressingMode::ZeroPageX => AddressingMode::ZeroPageX,
            ShiftAddressingMode::Absolute => AddressingMode::Absolute,
            ShiftAddressingMode::AbsoluteX => AddressingMode::AbsoluteX,
        }
    }
}

#[derive(Copy, Clone, PartialEq, Eq, Structural, Debug)]
pub enum BITAddressingMode {
    ZeroPage,
    Absolute,
}

impl ReferenceAddressingMode for BITAddressingMode {
    open spec fn addressing(self) -> AddressingMode {
        match self {
            BITAddressingMode::ZeroPage => AddressingMode::ZeroPage,
            BITAddressingMode::Absolute => AddressingMode::Absolute,
        }
    }

    fn mode(self) -> (m: AddressingMode) {
        match self {
            BITAddressingMode::ZeroPage => AddressingMode::ZeroPage,
            BITAddressingMode::Absolute => AddressingMode::Absolute,
        }
    }
}

#[derive(Copy, Clone, PartialEq, Eq, Structural, Debug)]
pub enum CompareAddressingMode {
    Immediate,
    ZeroPage,
    Absolute,
}

impl ReferenceAddressingMode for CompareAddressingMode {
    open spec fn addressing(self) -> AddressingMode {
        match self {
            CompareAddressingMode::Immediate => AddressingMode::Immediate,
            CompareAddressingMode::ZeroPage => AddressingMode::ZeroPage,
            CompareAddressingMode::Absolute => AddressingMode::Absolute,
        }
    }

    fn mode(self) -> (m: AddressingMode) {
        match self {
            CompareAddressingMode::Immediate => AddressingMode::Immediate,
            CompareAddressingMode::ZeroPage => AddressingMode::ZeroPage,
            CompareAddressingMode::Absolute => AddressingMode::Absolute,
        }
    }
}

#[derive(Copy, Clone, PartialEq, Eq, Structural, Debug)]
pub enum IncDecAddressingMode {
    ZeroPage,
    ZeroPageX,
    Absolute,
    AbsoluteX,
}

impl ReferenceAddressingMode for IncDecAddressingMode {
    open spec fn addressing(self) -> AddressingMode {
        match self {
            IncDecAddressingMode::ZeroPage => AddressingMode::ZeroPage,
            IncDecAddressingMode::ZeroPageX => AddressingMode::ZeroPageX,
            IncDecAddressingMode::Absolute => AddressingMode::Absolute,
            IncDecAddressingMode::AbsoluteX => AddressingMode::AbsoluteX,
        }
    }

    fn mode(self) -> (m: AddressingMode) {
        match self {
            IncDecAddressingMode::ZeroPage => AddressingMode::ZeroPage,
            IncDecAddressingMode::ZeroPageX => AddressingMode::ZeroPageX,
            IncDecAddressingMode::Absolute => AddressingMode::Absolute,
            IncDecAddressingMode::AbsoluteX => AddressingMode::AbsoluteX,
        }
    }
}

/// Addressing modes of JMP, which name an address to jump to rather than an operand.
#[derive(Copy, Clone, PartialEq, Eq, Structural, Debug)]
pub enum JumpAddressingMode {
    Absolute,
    Indirect,
}

impl JumpAddressingMode {
    /// Reads the target of a jump: the address after the opcode, or the address stored
    /// there.
    pub fn fetch_address<M: Memory>(self, cpu: &mut CPU<M>) -> (a: Address)
        requires
            old(cpu).wf(),
            old(cpu).cycle_count <= 251,
        ensures
            final(cpu).wf(),
            (final(cpu).model(), a.0) == CPU::<M>::jump_target_step(old(cpu).model(), self),
            final(cpu).cycle_count <= old(cpu).cycle_count + 4,
    {
        match self {
            JumpAddressingMode::Absolute => cpu.absolute_address(),
            JumpAddressingMode::Indirect => cpu.indirect_address(),
        }
    }
}

#[derive(Copy, Clone, PartialEq, Eq, Structural, Debug)]
pub enum LDXAddressingMode {
    Immediate,
    ZeroPage,
    ZeroPageY,
    Absolute,
    AbsoluteY,
}

impl ReferenceAddressingMode for LDXAddressingMode {
    open spec fn addressing(self) -> AddressingMode {
        match self {
            LDXAddressingMode::Immediate => AddressingMode::Immediate,
            LDXAddressingMode::ZeroPage => AddressingMode::ZeroPage,
            LDXAddressingMode::ZeroPageY => AddressingMode::ZeroPageY,
            LDXAddressingMode::Absolute => AddressingMode::Absolute,
            LDXAddressingMode::AbsoluteY => AddressingMode::AbsoluteY,
        }
    }

    fn mode(self) -> (m: AddressingMode) {
        match self {
            LDXAddressingMode::Immediate => AddressingMode::Immediate,
            LDXAddressingMode::ZeroPage => AddressingMode::ZeroPage,
            LDXAddressingMode::ZeroPageY => AddressingMode::ZeroPageY,
            LDXAddressingMode::Absolute => AddressingMode::Absolute,
            LDXAddressingMode::AbsoluteY => AddressingMode::AbsoluteY,
        }
    }
}

#[derive(Copy, Clone, PartialEq, Eq, Structural, Debug)]
pub enum LDYAddressingMode {
    Immediate,
    ZeroPage,
    ZeroPageX,
    Absolute,
    AbsoluteX,
}

impl ReferenceAddressingMode for LDYAddressingMode {
    open spec fn addressing(self) -> AddressingMode {
        match self {
            LDYAddressingMode::Immediate => AddressingMode::Immediate,
            LDYAddressingMode::ZeroPage => AddressingMode::ZeroPage,
            LDYAddressingMode::ZeroPageX => AddressingMode::ZeroPageX,
            LDYAddressingMode::Absolute => AddressingMode::Absolute,
            LDYAddressingMode::AbsoluteX => AddressingMode::AbsoluteX,
        }
    }

    fn mode(self) -> (m: AddressingMode) {
        match self {
            LDYAddressingMode::Immediate => AddressingMode::Immediate,
            LDYAddressingMode::ZeroPage => AddressingMode::ZeroPage,
            LDYAddressingMode::ZeroPageX => AddressingMode::ZeroPageX,
            LDYAddressingMode::Absolute => AddressingMode::Absolute,
            LDYAddressingMode::AbsoluteX => AddressingMode::AbsoluteX,
        }
    }
}

#[derive(Copy, Clone, PartialEq, Eq, Structural, Debug)]
pub enum STXAddressingMode {
    ZeroPage,
    ZeroPageY,
    Absolute,
}

impl ReferenceAddressingMode for STXAddressingMode {
    open spec fn addressing(self) -> AddressingMode {
        match self {
            STXAddressingMode::ZeroPage => AddressingMode::ZeroPage,
            STXAddressingMode::ZeroPageY => AddressingMode::ZeroPageY,
            STXAddressingMode::Absolute => AddressingMode::Absolute,
        }
    }

    fn mode(self) -> (m: AddressingMode) {
        match self {
            STXAddressingMode::ZeroPage => AddressingMode::ZeroPage,
            STXAddressingMode::ZeroPageY => AddressingMode::ZeroPageY,
            STXAddressingMode::Absolute => AddressingMode::Absolute,
        }
    }
}

#[derive(Copy, Clone, PartialEq, Eq, Structural, Debug)]
pub enum STYAddressingMode {
    ZeroPage,
    ZeroPageX,
    Absolute,
}

impl ReferenceAddressingMode for STYAddressingMode {
    open spec fn addressing(self) -> AddressingMode {
        match self {
            STYAddressingMode::ZeroPage => AddressingMode::ZeroPage,
            STYAddressingMode::ZeroPageX => AddressingMode::ZeroPageX,
            STYAddressingMode::Absolute => AddressingMode::Absolute,
        }
    }

    fn mode(self) -> (m: AddressingMode) {
        match self {
            STYAddressingMode::ZeroPage => AddressingMode::ZeroPage,
            STYAddressingMode::ZeroPageX => AddressingMode::ZeroPageX,
            STYAddressingMode::Absolute => AddressingMode::Absolute,
        }
    }
}

#[derive(Copy, Clone, PartialEq, Eq, Structural, Debug)]
pub enum LAXAddressingMode {
    ZeroPage,
    ZeroPageY,
    Absolute,
    AbsoluteY,
    IndexedIndirect,
    IndirectIndexed,
}

impl ReferenceAddressingMode for LAXAddressingMode {
    open spec fn addressing(self) -> AddressingMode {
        match self {
            LAXAddressingMode::ZeroPage => AddressingMode::ZeroPage,
            LAXAddressingMode::ZeroPageY => AddressingMode::ZeroPageY,
            LAXAddressingMode::Absolute => AddressingMode::Absolute,
            LAXAddressingMode::AbsoluteY => AddressingMode::AbsoluteY,
            LAXAddressingMode::IndexedIndirect => AddressingMode::IndexedIndirect,
            LAXAddressingMode::IndirectIndexed => AddressingMode::IndirectIndexed,
        }
    }

    fn mode(self) -> (m: AddressingMode) {
        match self {
            LAXAddressingMode::ZeroPage => AddressingMode::ZeroPage,
            LAXAddressingMode::ZeroPageY => AddressingMode::ZeroPageY,
            LAXAddressingMode::Absolute => AddressingMode::Absolute,
            LAXAddressingMode::AbsoluteY => AddressingMode::AbsoluteY,
            LAXAddressingMode::IndexedIndirect => AddressingMode::IndexedIndirect,
            LAXAddressingMode::IndirectIndexed => AddressingMode::IndirectIndexed,
        }
    }
}

#[derive(Copy, Clone, PartialEq, Eq, Structural, Debug)]
pub enum SAXAddressingMode {
    ZeroPage,
    ZeroPageY,
    Absolute,
    IndexedIndirect,
}

impl ReferenceAddressingMode for SAXAddressingMode {
    open spec fn addressing(self) -> AddressingMode {
        match self {
            SAXAddressingMode::ZeroPage => AddressingMode::ZeroPage,
            SAXAddressingMode::ZeroPageY => AddressingMode::ZeroPageY,
            SAXAddressingMode::Absolute => AddressingMode::Absolute,
            SAXAddressingMode::IndexedIndirect => AddressingMode::IndexedIndirect,
        }
    }

    fn mode(self) -> (m: AddressingMode) {
        match self {
            SAXAddressingMode::ZeroPage => AddressingMode::ZeroPage,
            SAXAddressingMode::ZeroPageY => AddressingMode::ZeroPageY,
            SAXAddressingMode::Absolute => AddressingMode::Absolute,
            SAXAddressingMode::IndexedIndirect => AddressingMode::IndexedIndirect,
        }
    }
}

} // verus!

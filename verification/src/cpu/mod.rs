//! Emulates a 6502 (the NES CPU).
//!
//! The 6502 has six registers (A, PC, X, Y, S and P) and a 16-bit address bus. An instruction
//! is a one-byte opcode, naming the operation and its addressing mode, followed by zero to two
//! bytes of operand.
//!
//! The CPU is described by a model (`CpuModel`) holding the registers and the model of the
//! memory it is attached to. Every operation is stated as a function from model to model, one
//! bus access at a time, so that the order of reads and writes, which matters for devices such
//! as the PPU, is part of each contract, and so is the number of cycles counted.

mod addressing_modes;
mod execute;
mod instruction;
pub mod laws;
pub mod instructions;
pub mod memory;
mod stack;
mod status;

use vstd::prelude::*;

use crate::address::{add16, add8, hi, join, lo, Address};
use crate::memory::{total, Memory};

pub use self::addressing_modes::{
    AddressingMode,
    BITAddressingMode,
    CompareAddressingMode,
    FlexibleAddressingMode,
    IncDecAddressingMode,
    JumpAddressingMode,
    LAXAddressingMode,
    LDXAddressingMode,
    LDYAddressingMode,
    ReferenceAddressingMode,
    ValueAddressingMode,
    SAXAddressingMode,
    STXAddressingMode,
    STYAddressingMode,
    ShiftAddressingMode,
    StoreAddressingMode,
};
pub use self::execute::{add_status, shift_carry, shift_result, ShiftOp};
pub use self::instruction::{decode, encode, lemma_decode_encode, lemma_encode_decode, Instruction};
pub use self::memory::{CpuMemoryModel, NESCPUMemory};
pub use self::stack::{StackPointer, STACK_BASE};
pub use self::status::{
    status_bits,
    status_contains,
    status_from_bits,
    status_with,
    with_flags_for,
    Status,
};

verus! {

pub const NMI_VECTOR: u16 = 0xFFFA;

pub const RESET_VECTOR: u16 = 0xFFFC;

pub const INTERRUPT_VECTOR: u16 = 0xFFFE;

/// The 6502: its registers and the memory on its bus.
#[derive(Debug)]
pub struct CPU<M> {
    pub memory: M,
    /// A - 8-bit accumulator register.
    pub accumulator: u8,
    /// PC - 16-bit program counter register.
    pub program_counter: Address,
    /// X - 8-bit index register.
    pub x: u8,
    /// Y - 8-bit index register.
    pub y: u8,
    /// S - 8-bit stack pointer.
    pub stack_pointer: StackPointer,
    /// P - status register.
    pub status: Status,
    pub non_maskable_interrupt: bool,
    /// Counts cycles taken running the current instruction.
    pub cycle_count: u8,
    /// Set when the CPU reads or writes an address its bus does not answer; the access is
    /// not made.
    pub bus_fault: bool,
}

/// The state of a CPU: its registers, and the model of the memory on its bus.
pub struct CpuModel<Mo> {
    pub memory: Mo,
    pub accumulator: u8,
    pub program_counter: u16,
    pub x: u8,
    pub y: u8,
    pub stack_pointer: u8,
    pub status: Status,
    pub non_maskable_interrupt: bool,
    pub cycle_count: u8,
    /// Whether the CPU has read or written an address its bus does not answer.
    pub bus_fault: bool,
}

/// Where an instruction's operand lives.
#[derive(Copy, Clone, PartialEq, Eq, Structural, Debug)]
pub enum Reference {
    Immediate(u8),
    Address(Address),
    /// An address computed by adding an index register to a base; such operands can cost an
    /// extra cycle, always when written and when the index crossed a page when read.
    IndexedAddress { address: Address, page_cross: bool },
    Accumulator,
    X,
    Y,
}

/// The value of an 8-bit offset read as a signed byte, extended to 16 bits.
pub open spec fn sign_extend(offset: u8) -> u16 {
    if offset >= 128 {
        (offset as int + 0xFF00) as u16
    } else {
        offset as u16
    }
}

/// The value of a byte read as a two's complement signed number.
pub open spec fn signed(b: u8) -> int {
    if b >= 128 {
        b - 256
    } else {
        b as int
    }
}

impl Reference {
    /// The reference to `base + offset`, noting whether the sum left the page of `base`.
    pub open spec fn indexed_spec(base: Address, offset: u8) -> Reference {
        Reference::IndexedAddress {
            address: Address(add16(base.0, offset as int)),
            page_cross: hi(add16(base.0, offset as int)) != hi(base.0),
        }
    }

    /// The reference to `base` indexed by `offset`, noting whether a page was crossed.
    pub fn indexed_address(base: Address, offset: u8) -> (r: Reference)
        ensures
            r == Self::indexed_spec(base, offset),
    {
        let address = base.wrapping_add(offset as u16);
        Reference::IndexedAddress { address, page_cross: address.page_crossed(base) }
    }
}

impl<M: Memory> CPU<M> {
    /// The model of this CPU.
    pub open spec fn model(&self) -> CpuModel<M::Model> {
        CpuModel {
            memory: self.memory.model(),
            accumulator: self.accumulator,
            program_counter: self.program_counter.0,
            x: self.x,
            y: self.y,
            stack_pointer: self.stack_pointer.0,
            status: self.status,
            non_maskable_interrupt: self.non_maskable_interrupt,
            cycle_count: self.cycle_count,
            bus_fault: self.bus_fault,
        }
    }

    /// The memory is well formed.
    pub open spec fn wf(&self) -> bool {
        self.memory.inv()
    }

    /// Counting one cycle.
    pub open spec fn tick(s: CpuModel<M::Model>) -> CpuModel<M::Model> {
        CpuModel { cycle_count: (s.cycle_count + 1) as u8, ..s }
    }

    /// A read of `a` from the bus: one cycle. An address the bus does not answer is not read:
    /// the CPU notes a bus fault and takes 0.
    pub open spec fn read_step(s: CpuModel<M::Model>, a: Address) -> (CpuModel<M::Model>, u8) {
        if M::accepts(a) {
            (
                CpuModel {
                    memory: M::after_read(s.memory, a),
                    cycle_count: (s.cycle_count + 1) as u8,
                    ..s
                },
                M::peek(s.memory, a),
            )
        } else {
            (CpuModel { bus_fault: true, cycle_count: (s.cycle_count + 1) as u8, ..s }, 0)
        }
    }

    /// A write of `b` to `a` on the bus: one cycle. An address the bus does not answer is not
    /// written: the CPU notes a bus fault.
    pub open spec fn write_step(s: CpuModel<M::Model>, a: Address, b: u8) -> CpuModel<M::Model> {
        if M::accepts(a) {
            CpuModel {
                memory: M::after_write(s.memory, a, b),
                cycle_count: (s.cycle_count + 1) as u8,
                ..s
            }
        } else {
            CpuModel { bus_fault: true, cycle_count: (s.cycle_count + 1) as u8, ..s }
        }
    }

    /// The opcode a fetch at PC reads: 0 where the bus does not answer.
    pub open spec fn next_opcode(s: CpuModel<M::Model>) -> u8 {
        Self::read_step(s, Address(s.program_counter)).1
    }

    /// Reading the byte at PC and moving PC past it.
    pub open spec fn fetch_step(s: CpuModel<M::Model>) -> (CpuModel<M::Model>, u8) {
        let (s1, v) = Self::read_step(s, Address(s.program_counter));
        (CpuModel { program_counter: add16(s.program_counter, 1), ..s1 }, v)
    }

    /// Reading the byte at PC without moving PC.
    pub open spec fn ignore_argument_step(s: CpuModel<M::Model>) -> CpuModel<M::Model> {
        Self::read_step(s, Address(s.program_counter)).0
    }

    /// Reading a little-endian address at PC and moving PC past it.
    pub open spec fn fetch_address_step(s: CpuModel<M::Model>) -> (CpuModel<M::Model>, u16) {
        let (s1, lower) = Self::fetch_step(s);
        let (s2, higher) = Self::fetch_step(s1);
        (s2, join(higher, lower))
    }

    /// Reading a little-endian address stored at `a`; the high byte comes from the same page.
    pub open spec fn read_address_step(s: CpuModel<M::Model>, a: Address) -> (
        CpuModel<M::Model>,
        u16,
    ) {
        let (s1, lower) = Self::read_step(s, a);
        let (s2, higher) = Self::read_step(s1, Address(join(hi(a.0), add8(lo(a.0), 1))));
        (s2, join(higher, lower))
    }

    /// Reading a little-endian address from the zero page, wrapping within it.
    pub open spec fn read_zero_page_address_step(s: CpuModel<M::Model>, offset: u8) -> (
        CpuModel<M::Model>,
        u16,
    ) {
        let (s1, lower) = Self::read_step(s, Address(join(0, offset)));
        let (s2, higher) = Self::read_step(s1, Address(join(0, add8(offset, 1))));
        (s2, join(higher, lower))
    }

    /// The reference an addressing mode resolves to, reading its operand bytes.
    pub open spec fn addressing_step(s: CpuModel<M::Model>, mode: AddressingMode) -> (
        CpuModel<M::Model>,
        Reference,
    ) {
        match mode {
            AddressingMode::Accumulator => (Self::ignore_argument_step(s), Reference::Accumulator),
            AddressingMode::Immediate => {
                let (s1, v) = Self::fetch_step(s);
                (s1, Reference::Immediate(v))
            },
            AddressingMode::ZeroPage => {
                let (s1, v) = Self::fetch_step(s);
                (s1, Reference::Address(Address(join(0, v))))
            },
            AddressingMode::ZeroPageX => {
                let (s1, v) = Self::fetch_step(s);
                (Self::tick(s1), Reference::Address(Address(join(0, add8(v, s.x as int)))))
            },
            AddressingMode::ZeroPageY => {
                let (s1, v) = Self::fetch_step(s);
                (Self::tick(s1), Reference::Address(Address(join(0, add8(v, s.y as int)))))
            },
            AddressingMode::Absolute => {
                let (s1, a) = Self::fetch_address_step(s);
                (s1, Reference::Address(Address(a)))
            },
            AddressingMode::AbsoluteX => {
                let (s1, a) = Self::fetch_address_step(s);
                (s1, Self::indexed(a, s.x))
            },
            AddressingMode::AbsoluteY => {
                let (s1, a) = Self::fetch_address_step(s);
                (s1, Self::indexed(a, s.y))
            },
            AddressingMode::Indirect => {
                let (s1, a) = Self::fetch_address_step(s);
                let (s2, b) = Self::read_address_step(s1, Address(a));
                (s2, Reference::Address(Address(b)))
            },
            AddressingMode::IndexedIndirect => {
                let (s1, v) = Self::fetch_step(s);
                let (s2, a) = Self::read_zero_page_address_step(Self::tick(s1), add8(v, s.x as int));
                (s2, Reference::Address(Address(a)))
            },
            AddressingMode::IndirectIndexed => {
                let (s1, v) = Self::fetch_step(s);
                let (s2, a) = Self::read_zero_page_address_step(s1, v);
                (s2, Self::indexed(a, s.y))
            },
        }
    }

    /// The reference to `base + offset`.
    pub open spec fn indexed(base: u16, offset: u8) -> Reference {
        Reference::indexed_spec(Address(base), offset)
    }

    /// Reading an operand. Reading through an index costs an extra cycle when a page was
    /// crossed, or always when the read is part of a read-modify-write.
    pub open spec fn read_reference_step(s: CpuModel<M::Model>, r: Reference, readonly: bool) -> (
        CpuModel<M::Model>,
        u8,
    ) {
        match r {
            Reference::Immediate(v) => (s, v),
            Reference::Address(a) => Self::read_step(s, a),
            Reference::IndexedAddress { address, page_cross } => if page_cross || !readonly {
                Self::read_step(Self::tick(s), address)
            } else {
                Self::read_step(s, address)
            },
            Reference::Accumulator => (s, s.accumulator),
            Reference::X => (s, s.x),
            Reference::Y => (s, s.y),
        }
    }

    /// Writing an operand. Writing through an index that is not part of a read-modify-write
    /// costs an extra cycle.
    pub open spec fn write_reference_step(
        s: CpuModel<M::Model>,
        r: Reference,
        b: u8,
        writeonly: bool,
    ) -> CpuModel<M::Model> {
        match r {
            Reference::Immediate(_) => s,
            Reference::Address(a) => Self::write_step(s, a, b),
            Reference::IndexedAddress { address, page_cross } => if writeonly {
                Self::write_step(Self::tick(s), address, b)
            } else {
                Self::write_step(s, address, b)
            },
            Reference::Accumulator => CpuModel { accumulator: b, ..s },
            Reference::X => CpuModel { x: b, ..s },
            Reference::Y => CpuModel { y: b, ..s },
        }
    }

    /// Writing an operand and setting Z and N from the value written.
    pub open spec fn set_reference_step(
        s: CpuModel<M::Model>,
        r: Reference,
        v: u8,
        writeonly: bool,
    ) -> CpuModel<M::Model> {
        let s1 = Self::write_reference_step(s, r, v, writeonly);
        CpuModel { status: with_flags_for(s1.status, v), ..s1 }
    }

    /// Writing a byte on the stack and moving the stack pointer down.
    pub open spec fn push_step(s: CpuModel<M::Model>, b: u8) -> CpuModel<M::Model> {
        let s1 = Self::write_step(s, Address(add16(STACK_BASE, s.stack_pointer as int)), b);
        CpuModel { stack_pointer: add8(s.stack_pointer, 255), ..s1 }
    }

    /// Moving the stack pointer up: one cycle.
    pub open spec fn increment_stack_step(s: CpuModel<M::Model>) -> CpuModel<M::Model> {
        CpuModel {
            stack_pointer: add8(s.stack_pointer, 1),
            cycle_count: (s.cycle_count + 1) as u8,
            ..s
        }
    }

    /// Reading the byte on top of the stack, then moving the stack pointer up.
    pub open spec fn pull_and_increment_step(s: CpuModel<M::Model>) -> (CpuModel<M::Model>, u8) {
        let a = Address(add16(STACK_BASE, s.stack_pointer as int));
        let (s1, v) = Self::read_step(
            CpuModel { stack_pointer: add8(s.stack_pointer, 1), ..s },
            a,
        );
        (s1, v)
    }

    /// Reading the byte the stack pointer points at.
    pub open spec fn pull_step(s: CpuModel<M::Model>) -> (CpuModel<M::Model>, u8) {
        Self::read_step(s, Address(add16(STACK_BASE, s.stack_pointer as int)))
    }

    /// Pushing the status with the unused bit set and B as given; the register keeps them.
    pub open spec fn push_status_step(s: CpuModel<M::Model>, break_flag: bool) -> CpuModel<
        M::Model,
    > {
        let status = Status { unused: true, brk: break_flag, ..s.status };
        Self::push_step(CpuModel { status, ..s }, status_bits(status))
    }

    /// Pushing PC - 1 and the status, then jumping through `vector`.
    pub open spec fn interrupt_step(
        s: CpuModel<M::Model>,
        vector: u16,
        break_flag: bool,
    ) -> CpuModel<M::Model> {
        let data = add16(s.program_counter, 65535);
        let s1 = Self::push_step(s, hi(data));
        let s2 = Self::push_step(s1, lo(data));
        let s3 = Self::push_status_step(s2, break_flag);
        let (s4, target) = Self::read_address_step(s3, Address(vector));
        CpuModel { program_counter: target, ..s4 }
    }

    /// Builds a CPU attached to `memory`, with PC read from the reset vector.
    pub fn from_memory(memory: M) -> (cpu: Self)
        requires
            memory.inv(),
        ensures
            cpu.wf(),
            ({
                let s0 = CpuModel {
                    memory: memory.model(),
                    accumulator: 0,
                    program_counter: 0,
                    x: 0,
                    y: 0,
                    stack_pointer: 0xFF,
                    status: status_from_bits(0),
                    non_maskable_interrupt: false,
                    cycle_count: 0,
                    bus_fault: false,
                };
                let (s1, pc) = Self::read_address_step(s0, Address(RESET_VECTOR));
                cpu.model() == CpuModel { program_counter: pc, cycle_count: 0, ..s1 }
            }),
    {
        let mut cpu = CPU {
            memory,
            accumulator: 0,
            program_counter: Address::new(0),
            x: 0,
            y: 0,
            stack_pointer: StackPointer::default(),
            status: Status::empty(),
            non_maskable_interrupt: false,
            cycle_count: 0,
            bus_fault: false,
        };
        let pc = cpu.read_address(Address::new(RESET_VECTOR));
        cpu.program_counter = pc;
        cpu.cycle_count = 0;
        cpu
    }

    /// Builds a CPU attached to `memory`, with PC at 0: the reset vector is not read.
    pub fn with_memory(memory: M) -> (cpu: Self)
        requires
            memory.inv(),
        ensures
            cpu.wf(),
            cpu.model() == (CpuModel {
                memory: memory.model(),
                accumulator: 0,
                program_counter: 0,
                x: 0,
                y: 0,
                stack_pointer: 0xFF,
                status: status_from_bits(0),
                non_maskable_interrupt: false,
                cycle_count: 0,
                bus_fault: false,
            }),
    {
        CPU {
            memory,
            accumulator: 0,
            program_counter: Address::new(0),
            x: 0,
            y: 0,
            stack_pointer: StackPointer::default(),
            status: Status::empty(),
            non_maskable_interrupt: false,
            cycle_count: 0,
            bus_fault: false,
        }
    }

    /// The memory on the bus.
    pub fn memory(&mut self) -> (m: &mut M)
        ensures
            *m == old(self).memory,
            final(self).memory == *final(m),
            final(self).accumulator == old(self).accumulator,
            final(self).program_counter == old(self).program_counter,
            final(self).x == old(self).x,
            final(self).y == old(self).y,
            final(self).stack_pointer == old(self).stack_pointer,
            final(self).status == old(self).status,
            final(self).non_maskable_interrupt == old(self).non_maskable_interrupt,
            final(self).cycle_count == old(self).cycle_count,
            final(self).bus_fault == old(self).bus_fault,
    {
        &mut self.memory
    }

    pub fn program_counter(&self) -> (a: Address)
        ensures
            a == self.program_counter,
    {
        self.program_counter
    }

    pub fn set_program_counter(&mut self, address: Address)
        ensures
            final(self).model() == (CpuModel { program_counter: address.0, ..old(self).model() }),
            final(self).memory == old(self).memory,
    {
        self.program_counter = address;
    }

    /// Requests a non-maskable interrupt, served before the next instruction runs.
    pub fn non_maskable_interrupt(&mut self)
        ensures
            final(self).model() == (CpuModel {
                non_maskable_interrupt: true,
                ..old(self).model()
            }),
            final(self).memory == old(self).memory,
    {
        self.non_maskable_interrupt = true;
    }

    pub fn x(&self) -> (v: u8)
        ensures
            v == self.x,
    {
        self.x
    }

    pub fn y(&self) -> (v: u8)
        ensures
            v == self.y,
    {
        self.y
    }

    /// Reads a byte from the bus, counting a cycle.
    pub fn read(&mut self, address: Address) -> (byte: u8)
        requires
            old(self).wf(),
            old(self).cycle_count < 255,
        ensures
            final(self).wf(),
            (final(self).model(), byte) == Self::read_step(old(self).model(), address),
    {
        self.cycle_count = self.cycle_count + 1;
        if M::answers(address) {
            self.memory.read(address)
        } else {
            self.bus_fault = true;
            0
        }
    }

    /// Writes a byte to the bus, counting a cycle.
    pub fn write(&mut self, address: Address, byte: u8)
        requires
            old(self).wf(),
            old(self).cycle_count < 255,
        ensures
            final(self).wf(),
            final(self).model() == Self::write_step(old(self).model(), address, byte),
    {
        self.cycle_count = self.cycle_count + 1;
        if M::answers(address) {
            self.memory.write(address, byte);
        } else {
            self.bus_fault = true;
        }
    }

    fn read_address(&mut self, address: Address) -> (target: Address)
        requires
            old(self).wf(),
            old(self).cycle_count < 254,
        ensures
            final(self).wf(),
            (final(self).model(), target.0) == Self::read_address_step(old(self).model(), address),
    {
        let lower = self.read(address);
        let higher = self.read(address.incr_lower());
        Address::from_bytes(higher, lower)
    }

    fn incr_program_counter(&mut self) -> (data: u8)
        requires
            old(self).wf(),
            old(self).cycle_count < 255,
        ensures
            final(self).wf(),
            (final(self).model(), data) == Self::fetch_step(old(self).model()),
    {
        let data = self.read(self.program_counter);
        self.program_counter = self.program_counter.wrapping_add(1);
        data
    }

    /// Instructions without an operand still read the byte after the opcode; the read is
    /// emulated so that the cycle count is right.
    fn ignore_argument(&mut self)
        requires
            old(self).wf(),
            old(self).cycle_count < 255,
        ensures
            final(self).wf(),
            final(self).model() == Self::ignore_argument_step(old(self).model()),
    {
        self.read(self.program_counter);
    }

    fn fetch_address_at_program_counter(&mut self) -> (a: Address)
        requires
            old(self).wf(),
            old(self).cycle_count < 254,
        ensures
            final(self).wf(),
            (final(self).model(), a.0) == Self::fetch_address_step(old(self).model()),
    {
        let lower = self.incr_program_counter();
        let higher = self.incr_program_counter();
        Address::from_bytes(higher, lower)
    }

    fn read_zero_page_address(&mut self, offset: u8) -> (a: Address)
        requires
            old(self).wf(),
            old(self).cycle_count < 254,
        ensures
            final(self).wf(),
            (final(self).model(), a.0) == Self::read_zero_page_address_step(
                old(self).model(),
                offset,
            ),
    {
        let lower = self.read(Address::from_bytes(0, offset));
        let higher = self.read(Address::from_bytes(0, offset.wrapping_add(1)));
        Address::from_bytes(higher, lower)
    }

    fn absolute_address(&mut self) -> (a: Address)
        requires
            old(self).wf(),
            old(self).cycle_count < 254,
        ensures
            final(self).wf(),
            (final(self).model(), a.0) == Self::fetch_address_step(old(self).model()),
    {
        self.fetch_address_at_program_counter()
    }

    pub fn indirect_address(&mut self) -> (a: Address)
        requires
            old(self).wf(),
            old(self).cycle_count < 252,
        ensures
            final(self).wf(),
            ({
                let (s1, p) = Self::fetch_address_step(old(self).model());
                (final(self).model(), a.0) == Self::read_address_step(s1, Address(p))
            }),
    {
        let address_of_address = self.fetch_address_at_program_counter();
        self.read_address(address_of_address)
    }

    pub fn accumulator(&mut self) -> (r: Reference)
        requires
            old(self).wf(),
            old(self).cycle_count <= 251,
        ensures
            final(self).wf(),
            (final(self).model(), r) == Self::addressing_step(old(self).model(), AddressingMode::Accumulator),
            final(self).cycle_count <= old(self).cycle_count + 4,
    {
        self.ignore_argument();
        Reference::Accumulator
    }

    pub fn immediate(&mut self) -> (r: Reference)
        requires
            old(self).wf(),
            old(self).cycle_count <= 251,
        ensures
            final(self).wf(),
            (final(self).model(), r) == Self::addressing_step(old(self).model(), AddressingMode::Immediate),
            final(self).cycle_count <= old(self).cycle_count + 4,
    {
        Reference::Immediate(self.incr_program_counter())
    }

    pub fn zero_page(&mut self) -> (r: Reference)
        requires
            old(self).wf(),
            old(self).cycle_count <= 251,
        ensures
            final(self).wf(),
            (final(self).model(), r) == Self::addressing_step(old(self).model(), AddressingMode::ZeroPage),
            final(self).cycle_count <= old(self).cycle_count + 4,
    {
        let operand = self.incr_program_counter();
        Reference::Address(Address::from_bytes(0, operand))
    }

    pub fn zero_page_x(&mut self) -> (r: Reference)
        requires
            old(self).wf(),
            old(self).cycle_count <= 251,
        ensures
            final(self).wf(),
            (final(self).model(), r) == Self::addressing_step(old(self).model(), AddressingMode::ZeroPageX),
            final(self).cycle_count <= old(self).cycle_count + 4,
    {
        let operand = self.incr_program_counter();
        // Adding the index takes a cycle.
        self.cycle_count = self.cycle_count + 1;
        Reference::Address(Address::from_bytes(0, operand.wrapping_add(self.x)))
    }

    pub fn zero_page_y(&mut self) -> (r: Reference)
        requires
            old(self).wf(),
            old(self).cycle_count <= 251,
        ensures
            final(self).wf(),
            (final(self).model(), r) == Self::addressing_step(old(self).model(), AddressingMode::ZeroPageY),
            final(self).cycle_count <= old(self).cycle_count + 4,
    {
        let operand = self.incr_program_counter();
        // Adding the index takes a cycle.
        self.cycle_count = self.cycle_count + 1;
        Reference::Address(Address::from_bytes(0, operand.wrapping_add(self.y)))
    }

    pub fn absolute(&mut self) -> (r: Reference)
        requires
            old(self).wf(),
            old(self).cycle_count <= 251,
        ensures
            final(self).wf(),
            (final(self).model(), r) == Self::addressing_step(old(self).model(), AddressingMode::Absolute),
            final(self).cycle_count <= old(self).cycle_count + 4,
    {
        Reference::Address(self.absolute_address())
    }

    pub fn absolute_x(&mut self) -> (r: Reference)
        requires
            old(self).wf(),
            old(self).cycle_count <= 251,
        ensures
            final(self).wf(),
            (final(self).model(), r) == Self::addressing_step(old(self).model(), AddressingMode::AbsoluteX),
            final(self).cycle_count <= old(self).cycle_count + 4,
    {
        let base = self.absolute_address();
        Reference::indexed_address(base, self.x)
    }

    pub fn absolute_y(&mut self) -> (r: Reference)
        requires
            old(self).wf(),
            old(self).cycle_count <= 251,
        ensures
            final(self).wf(),
            (final(self).model(), r) == Self::addressing_step(old(self).model(), AddressingMode::AbsoluteY),
            final(self).cycle_count <= old(self).cycle_count + 4,
    {
        let base = self.absolute_address();
        Reference::indexed_address(base, self.y)
    }

    pub fn indirect(&mut self) -> (r: Reference)
        requires
            old(self).wf(),
            old(self).cycle_count <= 251,
        ensures
            final(self).wf(),
            (final(self).model(), r) == Self::addressing_step(old(self).model(), AddressingMode::Indirect),
            final(self).cycle_count <= old(self).cycle_count + 4,
    {
        Reference::Address(self.indirect_address())
    }

    pub fn indexed_indirect(&mut self) -> (r: Reference)
        requires
            old(self).wf(),
            old(self).cycle_count <= 251,
        ensures
            final(self).wf(),
            (final(self).model(), r) == Self::addressing_step(old(self).model(), AddressingMode::IndexedIndirect),
            final(self).cycle_count <= old(self).cycle_count + 4,
    {
        let ghost s0 = self.model();
        let operand = self.incr_program_counter();
        let offset = operand.wrapping_add(self.x);
        // Adding the index takes a cycle.
        self.cycle_count = self.cycle_count + 1;
        assert(self.model() == Self::tick(Self::fetch_step(s0).0));
        assert(offset == add8(operand, s0.x as int));
        let a = self.read_zero_page_address(offset);
        Reference::Address(a)
    }

    pub fn indirect_indexed(&mut self) -> (r: Reference)
        requires
            old(self).wf(),
            old(self).cycle_count <= 251,
        ensures
            final(self).wf(),
            (final(self).model(), r) == Self::addressing_step(old(self).model(), AddressingMode::IndirectIndexed),
            final(self).cycle_count <= old(self).cycle_count + 4,
    {
        let offset = self.incr_program_counter();
        let base = self.read_zero_page_address(offset);
        Reference::indexed_address(base, self.y)
    }

    /// Resolves an addressing mode to the operand it names, reading the operand bytes.
    pub fn exec_addressing_mode(&mut self, mode: AddressingMode) -> (r: Reference)
        requires
            old(self).wf(),
            old(self).cycle_count <= 251,
        ensures
            final(self).wf(),
            (final(self).model(), r) == Self::addressing_step(old(self).model(), mode),
            final(self).cycle_count <= old(self).cycle_count + 4,
            !(r is Immediate) || mode == AddressingMode::Immediate,
    {
        match mode {
            AddressingMode::Accumulator => self.accumulator(),
            AddressingMode::Immediate => self.immediate(),
            AddressingMode::ZeroPage => self.zero_page(),
            AddressingMode::ZeroPageX => self.zero_page_x(),
            AddressingMode::ZeroPageY => self.zero_page_y(),
            AddressingMode::Absolute => self.absolute(),
            AddressingMode::AbsoluteX => self.absolute_x(),
            AddressingMode::AbsoluteY => self.absolute_y(),
            AddressingMode::Indirect => self.indirect(),
            AddressingMode::IndexedIndirect => self.indexed_indirect(),
            AddressingMode::IndirectIndexed => self.indirect_indexed(),
        }
    }

    /// Reads an operand.
    pub fn read_reference(&mut self, reference: Reference, readonly: bool) -> (v: u8)
        requires
            old(self).wf(),
            old(self).cycle_count <= 253,
        ensures
            final(self).wf(),
            (final(self).model(), v) == Self::read_reference_step(
                old(self).model(),
                reference,
                readonly,
            ),
            final(self).cycle_count <= old(self).cycle_count + 2,
    {
        match reference {
            Reference::Immediate(value) => value,
            Reference::Address(address) => self.read(address),
            Reference::IndexedAddress { address, page_cross } => {
                if page_cross || !readonly {
                    self.cycle_count = self.cycle_count + 1;
                }
                self.read(address)
            },
            Reference::Accumulator => self.accumulator,
            Reference::X => self.x,
            Reference::Y => self.y,
        }
    }

    /// Writes an operand. An immediate operand cannot be written.
    pub fn write_reference(&mut self, reference: Reference, byte: u8, writeonly: bool)
        requires
            old(self).wf(),
            old(self).cycle_count <= 253,
            !(reference is Immediate),
        ensures
            final(self).wf(),
            final(self).model() == Self::write_reference_step(
                old(self).model(),
                reference,
                byte,
                writeonly,
            ),
            final(self).cycle_count <= old(self).cycle_count + 2,
    {
        match reference {
            Reference::Immediate(_) => {},
            Reference::Address(address) => {
                self.write(address, byte);
            },
            Reference::IndexedAddress { address, page_cross: _ } => {
                if writeonly {
                    self.cycle_count = self.cycle_count + 1;
                }
                self.write(address, byte)
            },
            Reference::Accumulator => self.accumulator = byte,
            Reference::X => self.x = byte,
            Reference::Y => self.y = byte,
        };
    }

    fn set_reference(&mut self, reference: Reference, value: u8, writeonly: bool)
        requires
            old(self).wf(),
            old(self).cycle_count <= 253,
            !(reference is Immediate),
        ensures
            final(self).wf(),
            final(self).model() == Self::set_reference_step(
                old(self).model(),
                reference,
                value,
                writeonly,
            ),
            final(self).cycle_count <= old(self).cycle_count + 2,
    {
        self.write_reference(reference, value, writeonly);
        self.status.set_flags(value);
    }

    /// Resolves an addressing mode to the operand it names.
    fn fetch_ref<T: ReferenceAddressingMode>(&mut self, addressing_mode: T) -> (r: Reference)
        requires
            old(self).wf(),
            old(self).cycle_count <= 251,
        ensures
            final(self).wf(),
            (final(self).model(), r) == Self::addressing_step(
                old(self).model(),
                addressing_mode.addressing(),
            ),
            final(self).cycle_count <= old(self).cycle_count + 4,
            !(r is Immediate) || addressing_mode.addressing() == AddressingMode::Immediate,
    {
        let mode = addressing_mode.mode();
        self.exec_addressing_mode(mode)
    }

    /// Resolves an addressing mode and reads the operand it names.
    fn fetch<T: ReferenceAddressingMode>(&mut self, addressing_mode: T) -> (v: u8)
        requires
            old(self).wf(),
            old(self).cycle_count <= 249,
        ensures
            final(self).wf(),
            ({
                let (s1, r) = Self::addressing_step(old(self).model(), addressing_mode.addressing());
                (final(self).model(), v) == Self::read_reference_step(s1, r, true)
            }),
            final(self).cycle_count <= old(self).cycle_count + 6,
    {
        let reference = self.fetch_ref(addressing_mode);
        self.read_reference(reference, true)
    }

    fn push_status(&mut self, break_flag: bool)
        requires
            old(self).wf(),
            old(self).cycle_count < 255,
        ensures
            final(self).wf(),
            final(self).model() == Self::push_status_step(old(self).model(), break_flag),
    {
        self.status.insert(Status::UNUSED);
        self.status.set(Status::BREAK, break_flag);
        let bits = self.status.bits();
        self.push_stack(bits);
    }

    fn interrupt(&mut self, address_vector: Address, break_flag: bool)
        requires
            old(self).wf(),
            old(self).cycle_count <= 250,
        ensures
            final(self).wf(),
            final(self).model() == Self::interrupt_step(
                old(self).model(),
                address_vector.0,
                break_flag,
            ),
            final(self).cycle_count == old(self).cycle_count + 5,
    {
        // The pushed address is that of the last byte of the instruction.
        let data = self.program_counter.wrapping_sub(1);

        self.push_stack(data.higher());
        self.push_stack(data.lower());
        self.push_status(break_flag);

        self.program_counter = self.read_address(address_vector);
    }
}

} // verus!

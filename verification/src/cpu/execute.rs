//! What each instruction does, as a function from CPU model to CPU model, and the code that
//! does it.

use vstd::prelude::*;

use super::addressing_modes::{
    AddressingMode,
    BITAddressingMode,
    CompareAddressingMode,
    FlexibleAddressingMode,
    IncDecAddressingMode,
    JumpAddressingMode,
    LAXAddressingMode,
    LDXAddressingMode,
    LDYAddressingMode,
    ReferenceAddressingMode,
    SAXAddressingMode,
    STXAddressingMode,
    STYAddressingMode,
    ShiftAddressingMode,
    StoreAddressingMode,
};
use super::instruction::{decode, Instruction};
use super::status::{status_from_bits, with_flags_for, Status};
use super::{sign_extend, signed, CpuModel, Reference, CPU, INTERRUPT_VECTOR, NMI_VECTOR};
use crate::address::{add16, add8, hi, join, lo, Address};
use crate::memory::Memory;

verus! {

/// The four shift and rotate operations.
#[derive(Copy, Clone, PartialEq, Eq, Structural, Debug)]
pub enum ShiftOp {
    /// Shift left; bit 0 becomes 0.
    ASL,
    /// Shift right; bit 7 becomes 0.
    LSR,
    /// Shift left; the carry goes into bit 0.
    ROL,
    /// Shift right; the carry goes into bit 7.
    ROR,
}

/// The result of a shift or rotate of `v` with carry `carry` in.
pub open spec fn shift_result(op: ShiftOp, v: u8, carry: bool) -> u8 {
    let c: int = if carry {
        1
    } else {
        0
    };
    match op {
        ShiftOp::ASL => ((v * 2) % 256) as u8,
        ShiftOp::LSR => (v / 2) as u8,
        ShiftOp::ROL => ((v * 2) % 256 + c) as u8,
        ShiftOp::ROR => (v / 2 + 128 * c) as u8,
    }
}

/// The carry out of a shift or rotate of `v`: the bit shifted out.
pub open spec fn shift_carry(op: ShiftOp, v: u8) -> bool {
    match op {
        ShiftOp::ASL | ShiftOp::ROL => v >= 128,
        ShiftOp::LSR | ShiftOp::ROR => v % 2 == 1,
    }
}

/// The status after adding with carry: `result` is the sum's low byte.
pub open spec fn add_status(s: Status, a: u8, v: u8) -> Status {
    let c: int = if s.carry {
        1
    } else {
        0
    };
    let full = a + v + c;
    let result = (full % 256) as u8;
    Status {
        overflow: (a >= 128) == (v >= 128) && (result >= 128) != (a >= 128),
        carry: full >= 256,
        ..with_flags_for(s, result)
    }
}

fn shift_value(op: ShiftOp, value: u8, carry: bool) -> (r: u8)
    ensures
        r == shift_result(op, value, carry),
{
    match op {
        ShiftOp::ASL => ((value as u16 * 2) % 256) as u8,
        ShiftOp::LSR => value / 2,
        ShiftOp::ROL => ((value as u16 * 2) % 256 + if carry {
            1
        } else {
            0
        }) as u8,
        ShiftOp::ROR => value / 2 + if carry {
            128
        } else {
            0
        },
    }
}

fn shift_carry_out(op: ShiftOp, value: u8) -> (r: bool)
    ensures
        r == shift_carry(op, value),
{
    match op {
        ShiftOp::ASL | ShiftOp::ROL => value >= 128,
        ShiftOp::LSR | ShiftOp::ROR => value % 2 == 1,
    }
}

/// An addition with carry in `carry` of `a` and `v` gave the byte `result` and the flags in
/// `status`: the carry out and the result make up the unsigned sum, and V is set exactly when
/// the signed sum does not fit in a byte, the result being the signed sum otherwise.
pub open spec fn add_is_sum(a: u8, v: u8, carry: bool, result: u8, status: Status) -> bool {
    let c: int = if carry {
        1
    } else {
        0
    };
    let signed_sum = signed(a) + signed(v) + c;
    &&& (if status.carry {
        256int
    } else {
        0
    }) + result == a + v + c
    &&& status.overflow == !(-128 <= signed_sum <= 127)
    &&& -128 <= signed_sum <= 127 ==> signed(result) == signed_sum
}

/// Adding with carry computes the sum: see `add_is_sum`.
pub proof fn lemma_add_is_sum(a: u8, v: u8, s: Status)
    ensures
        add_is_sum(
            a,
            v,
            s.carry,
            ((a + v + (if s.carry {
                1int
            } else {
                0
            })) % 256) as u8,
            add_status(s, a, v),
        ),
{
}

impl<M: Memory> CPU<M> {
    /// Reading the operand an addressing mode names.
    pub open spec fn load_step(s: CpuModel<M::Model>, mode: AddressingMode) -> (
        CpuModel<M::Model>,
        u8,
    ) {
        let (s1, r) = Self::addressing_step(s, mode);
        Self::read_reference_step(s1, r, true)
    }

    /// Loading the accumulator.
    pub open spec fn set_accumulator_step(s: CpuModel<M::Model>, v: u8) -> CpuModel<M::Model> {
        Self::set_reference_step(s, Reference::Accumulator, v, true)
    }

    /// Adding with carry to the accumulator.
    pub open spec fn add_step(s: CpuModel<M::Model>, v: u8) -> CpuModel<M::Model> {
        let c: int = if s.status.carry {
            1
        } else {
            0
        };
        CpuModel {
            accumulator: ((s.accumulator + v + c) % 256) as u8,
            status: add_status(s.status, s.accumulator, v),
            ..s
        }
    }

    /// Comparing a register with a value: C when the register is not below it, Z and N from
    /// the difference.
    pub open spec fn compare_step(s: CpuModel<M::Model>, register: u8, v: u8) -> CpuModel<
        M::Model,
    > {
        let result = ((register - v + 256) % 256) as u8;
        CpuModel {
            status: Status { carry: register >= v, ..with_flags_for(s.status, result) },
            ..s
        }
    }

    /// Incrementing an operand in place: read, write back, write the new value.
    pub open spec fn increment_step(s: CpuModel<M::Model>, r: Reference) -> CpuModel<M::Model> {
        let (s1, v) = Self::read_reference_step(s, r, false);
        let s2 = Self::set_reference_step(s1, r, v, false);
        Self::set_reference_step(s2, r, add8(v, 1), false)
    }

    /// Decrementing an operand in place: read, write back, write the new value.
    pub open spec fn decrement_step(s: CpuModel<M::Model>, r: Reference) -> CpuModel<M::Model> {
        let (s1, v) = Self::read_reference_step(s, r, false);
        let s2 = Self::set_reference_step(s1, r, v, false);
        Self::set_reference_step(s2, r, add8(v, 255), false)
    }

    /// A shift or rotate of the operand an addressing mode names, in place.
    pub open spec fn shift_step(s: CpuModel<M::Model>, mode: AddressingMode, op: ShiftOp) -> (
        CpuModel<M::Model>,
        u8,
    ) {
        let (s1, r) = Self::addressing_step(s, mode);
        let carry = s1.status.carry;
        let (s2, old_value) = Self::read_reference_step(s1, r, false);
        let s3 = Self::set_reference_step(s2, r, old_value, false);
        let new_value = shift_result(op, old_value, carry);
        let s4 = Self::set_reference_step(s3, r, new_value, false);
        (
            CpuModel {
                status: Status { carry: shift_carry(op, old_value), ..s4.status },
                ..s4
            },
            new_value,
        )
    }

    /// A branch: reads the signed offset, and when `cond` holds adds it to PC, taking a cycle,
    /// and another when the target is on another page.
    pub open spec fn branch_step(s: CpuModel<M::Model>, cond: bool) -> CpuModel<M::Model> {
        let (s1, offset) = Self::fetch_step(s);
        if cond {
            let target = add16(s1.program_counter, sign_extend(offset) as int);
            let cycles = if hi(target) != hi(s1.program_counter) {
                2int
            } else {
                1int
            };
            CpuModel {
                program_counter: target,
                cycle_count: (s1.cycle_count + cycles) as u8,
                ..s1
            }
        } else {
            s1
        }
    }

    /// An instruction without operand that changes the status register.
    pub open spec fn flag_step(s: CpuModel<M::Model>, status: Status) -> CpuModel<M::Model> {
        CpuModel { status, ..Self::ignore_argument_step(s) }
    }

    /// The address a JMP goes to.
    pub open spec fn jump_target_step(s: CpuModel<M::Model>, mode: JumpAddressingMode) -> (
        CpuModel<M::Model>,
        u16,
    ) {
        let (s1, a) = Self::fetch_address_step(s);
        match mode {
            JumpAddressingMode::Absolute => (s1, a),
            JumpAddressingMode::Indirect => Self::read_address_step(s1, Address(a)),
        }
    }

    /// What an instruction does, once its opcode has been read.
    #[verifier::opaque]
    pub open spec fn execute(s: CpuModel<M::Model>, instruction: Instruction) -> CpuModel<
        M::Model,
    > {
        match instruction {
            Instruction::LDA(m) => {
                let (s1, v) = Self::load_step(s, m.addressing());
                Self::set_accumulator_step(s1, v)
            },
            Instruction::LDX(m) => {
                let (s1, v) = Self::load_step(s, m.addressing());
                Self::set_reference_step(s1, Reference::X, v, true)
            },
            Instruction::LDY(m) => {
                let (s1, v) = Self::load_step(s, m.addressing());
                Self::set_reference_step(s1, Reference::Y, v, true)
            },
            Instruction::STA(m) => {
                let (s1, r) = Self::addressing_step(s, m.addressing());
                Self::write_reference_step(s1, r, s1.accumulator, true)
            },
            Instruction::STX(m) => {
                let (s1, r) = Self::addressing_step(s, m.addressing());
                Self::write_reference_step(s1, r, s1.x, true)
            },
            Instruction::STY(m) => {
                let (s1, r) = Self::addressing_step(s, m.addressing());
                Self::write_reference_step(s1, r, s1.y, true)
            },
            Instruction::TAX => {
                let s1 = Self::ignore_argument_step(s);
                Self::set_reference_step(s1, Reference::X, s1.accumulator, true)
            },
            Instruction::TAY => {
                let s1 = Self::ignore_argument_step(s);
                Self::set_reference_step(s1, Reference::Y, s1.accumulator, true)
            },
            Instruction::TXA => {
                let s1 = Self::ignore_argument_step(s);
                Self::set_accumulator_step(s1, s1.x)
            },
            Instruction::TYA => {
                let s1 = Self::ignore_argument_step(s);
                Self::set_accumulator_step(s1, s1.y)
            },
            Instruction::TSX => {
                let s1 = Self::ignore_argument_step(s);
                Self::set_reference_step(s1, Reference::X, s1.stack_pointer, true)
            },
            Instruction::TXS => {
                let s1 = Self::ignore_argument_step(s);
                CpuModel { stack_pointer: s1.x, ..s1 }
            },
            Instruction::PHA => {
                let s1 = Self::ignore_argument_step(s);
                Self::push_step(s1, s1.accumulator)
            },
            Instruction::PHP => Self::push_status_step(Self::ignore_argument_step(s), true),
            Instruction::PLA => {
                let s1 = Self::increment_stack_step(Self::ignore_argument_step(s));
                let (s2, v) = Self::pull_step(s1);
                Self::set_accumulator_step(s2, v)
            },
            Instruction::PLP => {
                let s1 = Self::increment_stack_step(Self::ignore_argument_step(s));
                let (s2, v) = Self::pull_step(s1);
                CpuModel { status: status_from_bits(v), ..s2 }
            },
            Instruction::AND(m) => {
                let (s1, v) = Self::load_step(s, m.addressing());
                Self::set_accumulator_step(s1, s1.accumulator & v)
            },
            Instruction::EOR(m) => {
                let (s1, v) = Self::load_step(s, m.addressing());
                Self::set_accumulator_step(s1, s1.accumulator ^ v)
            },
            Instruction::ORA(m) => {
                let (s1, v) = Self::load_step(s, m.addressing());
                Self::set_accumulator_step(s1, s1.accumulator | v)
            },
            Instruction::BIT(m) => {
                let (s1, v) = Self::load_step(s, m.addressing());
                CpuModel {
                    status: Status {
                        zero: s1.accumulator & v == 0,
                        overflow: v & 64 != 0,
                        negative: v >= 128,
                        ..s1.status
                    },
                    ..s1
                }
            },
            Instruction::ADC(m) => {
                let (s1, v) = Self::load_step(s, m.addressing());
                Self::add_step(s1, v)
            },
            Instruction::SBC(m) => {
                let (s1, v) = Self::load_step(s, m.addressing());
                Self::add_step(s1, (255 - v) as u8)
            },
            Instruction::CMP(m) => {
                let (s1, v) = Self::load_step(s, m.addressing());
                Self::compare_step(s1, s1.accumulator, v)
            },
            Instruction::CPX(m) => {
                let (s1, v) = Self::load_step(s, m.addressing());
                Self::compare_step(s1, s1.x, v)
            },
            Instruction::CPY(m) => {
                let (s1, v) = Self::load_step(s, m.addressing());
                Self::compare_step(s1, s1.y, v)
            },
            Instruction::INC(m) => {
                let (s1, r) = Self::addressing_step(s, m.addressing());
                Self::increment_step(s1, r)
            },
            Instruction::INX => Self::increment_step(Self::ignore_argument_step(s), Reference::X),
            Instruction::INY => Self::increment_step(Self::ignore_argument_step(s), Reference::Y),
            Instruction::DEC(m) => {
                let (s1, r) = Self::addressing_step(s, m.addressing());
                Self::decrement_step(s1, r)
            },
            Instruction::DEX => Self::decrement_step(Self::ignore_argument_step(s), Reference::X),
            Instruction::DEY => Self::decrement_step(Self::ignore_argument_step(s), Reference::Y),
            Instruction::ASL(m) => Self::shift_step(s, m.addressing(), ShiftOp::ASL).0,
            Instruction::LSR(m) => Self::shift_step(s, m.addressing(), ShiftOp::LSR).0,
            Instruction::ROL(m) => Self::shift_step(s, m.addressing(), ShiftOp::ROL).0,
            Instruction::ROR(m) => Self::shift_step(s, m.addressing(), ShiftOp::ROR).0,
            Instruction::JMP(m) => {
                let (s1, a) = Self::jump_target_step(s, m);
                CpuModel { program_counter: a, ..s1 }
            },
            Instruction::JSR => {
                let (s1, target) = Self::fetch_address_step(s);
                let s2 = Self::tick(s1);
                let data = add16(s2.program_counter, 65535);
                let s3 = Self::push_step(s2, hi(data));
                let s4 = Self::push_step(s3, lo(data));
                CpuModel { program_counter: target, ..s4 }
            },
            Instruction::RTS => {
                let s1 = Self::increment_stack_step(Self::ignore_argument_step(s));
                let (s2, lower) = Self::pull_and_increment_step(s1);
                let (s3, higher) = Self::pull_step(s2);
                Self::fetch_step(CpuModel { program_counter: join(higher, lower), ..s3 }).0
            },
            Instruction::BCC => Self::branch_step(s, !s.status.carry),
            Instruction::BCS => Self::branch_step(s, s.status.carry),
            Instruction::BEQ => Self::branch_step(s, s.status.zero),
            Instruction::BMI => Self::branch_step(s, s.status.negative),
            Instruction::BNE => Self::branch_step(s, !s.status.zero),
            Instruction::BPL => Self::branch_step(s, !s.status.negative),
            Instruction::BVC => Self::branch_step(s, !s.status.overflow),
            Instruction::BVS => Self::branch_step(s, s.status.overflow),
            Instruction::CLC => Self::flag_step(s, Status { carry: false, ..s.status }),
            Instruction::CLD => Self::flag_step(s, Status { decimal: false, ..s.status }),
            Instruction::CLI => Self::flag_step(s, Status { interrupt_disable: false, ..s.status }),
            Instruction::CLV => Self::flag_step(s, Status { overflow: false, ..s.status }),
            Instruction::SEC => Self::flag_step(s, Status { carry: true, ..s.status }),
            Instruction::SED => Self::flag_step(s, Status { decimal: true, ..s.status }),
            Instruction::SEI => Self::flag_step(s, Status { interrupt_disable: true, ..s.status }),
            Instruction::BRK => Self::interrupt_step(
                Self::ignore_argument_step(s),
                INTERRUPT_VECTOR,
                true,
            ),
            Instruction::NOP => Self::ignore_argument_step(s),
            Instruction::RTI => {
                let s1 = Self::increment_stack_step(Self::ignore_argument_step(s));
                let (s2, st) = Self::pull_and_increment_step(s1);
                let (s3, lower) = Self::pull_and_increment_step(
                    CpuModel { status: status_from_bits(st), ..s2 },
                );
                let (s4, higher) = Self::pull_step(s3);
                CpuModel { program_counter: join(higher, lower), ..s4 }
            },
            Instruction::IGN(m) => Self::addressing_step(s, m.addressing()).0,
            Instruction::SKB => Self::fetch_step(s).0,
            Instruction::LAX(m) => {
                let (s1, v) = Self::load_step(s, m.addressing());
                let s2 = Self::set_accumulator_step(s1, v);
                Self::set_reference_step(s2, Reference::X, v, true)
            },
            Instruction::SAX(m) => {
                let (s1, r) = Self::addressing_step(s, m.addressing());
                Self::write_reference_step(s1, r, s1.accumulator & s1.x, true)
            },
            Instruction::DCP(m) => {
                let (s1, r) = Self::addressing_step(s, m.addressing());
                let s2 = Self::decrement_step(s1, r);
                let (s3, v) = Self::read_reference_step(s2, r, false);
                Self::compare_step(s3, s3.accumulator, v)
            },
            Instruction::ISC(m) => {
                let (s1, r) = Self::addressing_step(s, m.addressing());
                let s2 = Self::increment_step(s1, r);
                let (s3, v) = Self::read_reference_step(s2, r, false);
                Self::add_step(s3, (255 - v) as u8)
            },
            Instruction::SLO(m) => {
                let (s1, v) = Self::shift_step(s, m.addressing(), ShiftOp::ASL);
                Self::set_accumulator_step(s1, s1.accumulator | v)
            },
            Instruction::RLA(m) => {
                let (s1, v) = Self::shift_step(s, m.addressing(), ShiftOp::ROL);
                Self::set_accumulator_step(s1, s1.accumulator & v)
            },
            Instruction::SRE(m) => {
                let (s1, v) = Self::shift_step(s, m.addressing(), ShiftOp::LSR);
                Self::set_accumulator_step(s1, s1.accumulator ^ v)
            },
            Instruction::RRA(m) => {
                let (s1, v) = Self::shift_step(s, m.addressing(), ShiftOp::ROR);
                Self::add_step(s1, v)
            },
        }
    }

    /// Running one instruction: the cycle counter restarts, the opcode is read, then a pending
    /// non-maskable interrupt is served in place of the instruction, or the instruction runs.
    /// Gives the new state and the number of cycles taken.
    pub open spec fn run_step(s: CpuModel<M::Model>) -> (CpuModel<M::Model>, u8) {
        let (s1, opcode) = Self::fetch_step(CpuModel { cycle_count: 0, ..s });
        let s2 = match decode(opcode) {
            Some(instruction) => if s1.non_maskable_interrupt {
                Self::interrupt_step(
                    CpuModel { non_maskable_interrupt: false, ..s1 },
                    NMI_VECTOR,
                    false,
                )
            } else {
                Self::execute(s1, instruction)
            },
            None => s1,
        };
        (s2, s2.cycle_count)
    }
}

impl<M: Memory> CPU<M> {
    fn set_accumulator(&mut self, value: u8)
        requires
            old(self).wf(),
        ensures
            final(self).wf(),
            final(self).cycle_count == old(self).cycle_count,
            final(self).model() == Self::set_accumulator_step(old(self).model(), value),
    {
        self.accumulator = value;
        self.status.set_flags(value);
    }

    pub fn set_x(&mut self, value: u8)
        requires
            old(self).wf(),
        ensures
            final(self).wf(),
            final(self).cycle_count == old(self).cycle_count,
            final(self).model() == Self::set_reference_step(old(self).model(), Reference::X, value, true),
    {
        self.x = value;
        self.status.set_flags(value);
    }

    pub fn set_y(&mut self, value: u8)
        requires
            old(self).wf(),
        ensures
            final(self).wf(),
            final(self).cycle_count == old(self).cycle_count,
            final(self).model() == Self::set_reference_step(old(self).model(), Reference::Y, value, true),
    {
        self.y = value;
        self.status.set_flags(value);
    }

    /// Adds with carry to the accumulator. The carry out and the new accumulator make up the
    /// unsigned sum; V is set exactly when the signed sum does not fit in a byte.
    fn add_to_accumulator(&mut self, value: u8)
        ensures
            final(self).model() == Self::add_step(old(self).model(), value),
            final(self).memory == old(self).memory,
            add_is_sum(
                old(self).accumulator,
                value,
                old(self).status.carry,
                final(self).accumulator,
                final(self).status,
            ),
    {
        let accumulator = self.accumulator;
        let carry_in: u16 = if self.status.carry {
            1
        } else {
            0
        };
        let full_result = (accumulator as u16) + (value as u16) + carry_in;
        let result = (full_result % 256) as u8;
        let carry_out = full_result >= 256;

        // The sign bit changed although both operands had the same sign
        let overflow = (accumulator >= 128) == (value >= 128) && (result >= 128) != (accumulator
            >= 128);
        self.status.overflow = overflow;

        self.accumulator = result;
        self.status.set_flags(result);
        self.status.carry = carry_out;
        proof {
            lemma_add_is_sum(accumulator, value, old(self).status);
        }
    }

    /// Subtracts with borrow: adds the complement of `value`.
    fn sub_from_accumulator(&mut self, value: u8)
        ensures
            final(self).model() == Self::add_step(old(self).model(), (255 - value) as u8),
            final(self).memory == old(self).memory,
            ({
                let c: int = if old(self).status.carry { 1 } else { 0 };
                (if final(self).status.carry { 0int } else { 256 }) + old(self).accumulator - value
                    - (1 - c) == final(self).accumulator
            }),
    {
        self.add_to_accumulator(255 - value);
    }

    /// Compares a register with a value: C is set when the register is at least the value,
    /// Z when they are equal, N from bit 7 of their difference.
    fn compare(&mut self, register: u8, value: u8)
        ensures
            final(self).model() == Self::compare_step(old(self).model(), register, value),
            final(self).memory == old(self).memory,
            final(self).status.carry == (register >= value),
            final(self).status.zero == (register == value),
    {
        let result = register.wrapping_sub(value);
        self.status.carry = register >= value;
        self.status.set_flags(result);
    }

    fn increment(&mut self, reference: Reference)
        requires
            old(self).wf(),
            old(self).cycle_count <= 249,
            !(reference is Immediate),
        ensures
            final(self).wf(),
            final(self).model() == Self::increment_step(old(self).model(), reference),
            final(self).cycle_count <= old(self).cycle_count + 6,
    {
        let value = self.read_reference(reference, false);
        // The 6502 writes the old value back before the new one
        self.set_reference(reference, value, false);
        self.set_reference(reference, value.wrapping_add(1), false);
    }

    fn decrement(&mut self, reference: Reference)
        requires
            old(self).wf(),
            old(self).cycle_count <= 249,
            !(reference is Immediate),
        ensures
            final(self).wf(),
            final(self).model() == Self::decrement_step(old(self).model(), reference),
            final(self).cycle_count <= old(self).cycle_count + 6,
    {
        let value = self.read_reference(reference, false);
        // The 6502 writes the old value back before the new one
        self.set_reference(reference, value, false);
        self.set_reference(reference, value.wrapping_sub(1), false);
    }

    /// Shifts or rotates the operand an addressing mode names, in place, giving the new value.
    pub fn shift<T: ReferenceAddressingMode>(&mut self, addressing_mode: T, op: ShiftOp) -> (v: u8)
        requires
            old(self).wf(),
            old(self).cycle_count <= 245,
            addressing_mode.addressing() != AddressingMode::Immediate,
        ensures
            final(self).wf(),
            (final(self).model(), v) == Self::shift_step(
                old(self).model(),
                addressing_mode.addressing(),
                op,
            ),
            final(self).cycle_count <= old(self).cycle_count + 10,
    {
        let reference = self.fetch_ref(addressing_mode);
        let carry = self.status.carry;

        let old_value = self.read_reference(reference, false);
        // The 6502 writes the old value back before the new one
        self.set_reference(reference, old_value, false);
        let new_value = shift_value(op, old_value, carry);
        self.set_reference(reference, new_value, false);
        self.status.carry = shift_carry_out(op, old_value);
        new_value
    }

    fn branch_if(&mut self, cond: bool)
        requires
            old(self).wf(),
            old(self).cycle_count <= 252,
        ensures
            final(self).wf(),
            final(self).model() == Self::branch_step(old(self).model(), cond),
            final(self).cycle_count <= old(self).cycle_count + 3,
    {
        let offset = self.incr_program_counter();
        if cond {
            let previous = self.program_counter;
            let delta: u16 = if offset >= 128 {
                offset as u16 + 0xFF00
            } else {
                offset as u16
            };
            self.program_counter = self.program_counter.wrapping_add(delta);
            self.cycle_count = self.cycle_count + 1;
            if self.program_counter.page_crossed(previous) {
                self.cycle_count = self.cycle_count + 1;
            }
        }
    }

    pub fn lda(&mut self, addressing_mode: FlexibleAddressingMode)
        requires
            old(self).wf(),
            old(self).cycle_count <= 243,
        ensures
            final(self).wf(),
            final(self).model() == Self::execute(old(self).model(), Instruction::LDA(addressing_mode)),
            final(self).cycle_count <= old(self).cycle_count + 12,
    {
        proof {
            reveal(CPU::execute);
        }
        let value = self.fetch(addressing_mode);
        self.set_accumulator(value);
    }

    pub fn ldx(&mut self, addressing_mode: LDXAddressingMode)
        requires
            old(self).wf(),
            old(self).cycle_count <= 243,
        ensures
            final(self).wf(),
            final(self).model() == Self::execute(old(self).model(), Instruction::LDX(addressing_mode)),
            final(self).cycle_count <= old(self).cycle_count + 12,
    {
        proof {
            reveal(CPU::execute);
        }
        let value = self.fetch(addressing_mode);
        self.set_x(value);
    }

    pub fn ldy(&mut self, addressing_mode: LDYAddressingMode)
        requires
            old(self).wf(),
            old(self).cycle_count <= 243,
        ensures
            final(self).wf(),
            final(self).model() == Self::execute(old(self).model(), Instruction::LDY(addressing_mode)),
            final(self).cycle_count <= old(self).cycle_count + 12,
    {
        proof {
            reveal(CPU::execute);
        }
        let value = self.fetch(addressing_mode);
        self.set_y(value);
    }

    pub fn sta(&mut self, addressing_mode: StoreAddressingMode)
        requires
            old(self).wf(),
            old(self).cycle_count <= 243,
        ensures
            final(self).wf(),
            final(self).model() == Self::execute(old(self).model(), Instruction::STA(addressing_mode)),
            final(self).cycle_count <= old(self).cycle_count + 12,
    {
        proof {
            reveal(CPU::execute);
        }
        let reference = self.fetch_ref(addressing_mode);
        let value = self.accumulator;
        self.write_reference(reference, value, true);
    }

    pub fn stx(&mut self, addressing_mode: STXAddressingMode)
        requires
            old(self).wf(),
            old(self).cycle_count <= 243,
        ensures
            final(self).wf(),
            final(self).model() == Self::execute(old(self).model(), Instruction::STX(addressing_mode)),
            final(self).cycle_count <= old(self).cycle_count + 12,
    {
        proof {
            reveal(CPU::execute);
        }
        let reference = self.fetch_ref(addressing_mode);
        let value = self.x;
        self.write_reference(reference, value, true);
    }

    pub fn sty(&mut self, addressing_mode: STYAddressingMode)
        requires
            old(self).wf(),
            old(self).cycle_count <= 243,
        ensures
            final(self).wf(),
            final(self).model() == Self::execute(old(self).model(), Instruction::STY(addressing_mode)),
            final(self).cycle_count <= old(self).cycle_count + 12,
    {
        proof {
            reveal(CPU::execute);
        }
        let reference = self.fetch_ref(addressing_mode);
        let value = self.y;
        self.write_reference(reference, value, true);
    }

    fn tax(&mut self)
        requires
            old(self).wf(),
            old(self).cycle_count <= 243,
        ensures
            final(self).wf(),
            final(self).model() == Self::execute(old(self).model(), Instruction::TAX),
            final(self).cycle_count <= old(self).cycle_count + 12,
    {
        proof {
            reveal(CPU::execute);
        }
        self.ignore_argument();
        self.set_x(self.accumulator);
    }

    fn tay(&mut self)
        requires
            old(self).wf(),
            old(self).cycle_count <= 243,
        ensures
            final(self).wf(),
            final(self).model() == Self::execute(old(self).model(), Instruction::TAY),
            final(self).cycle_count <= old(self).cycle_count + 12,
    {
        proof {
            reveal(CPU::execute);
        }
        self.ignore_argument();
        self.set_y(self.accumulator);
    }

    fn txa(&mut self)
        requires
            old(self).wf(),
            old(self).cycle_count <= 243,
        ensures
            final(self).wf(),
            final(self).model() == Self::execute(old(self).model(), Instruction::TXA),
            final(self).cycle_count <= old(self).cycle_count + 12,
    {
        proof {
            reveal(CPU::execute);
        }
        self.ignore_argument();
        self.set_accumulator(self.x);
    }

    fn tya(&mut self)
        requires
            old(self).wf(),
            old(self).cycle_count <= 243,
        ensures
            final(self).wf(),
            final(self).model() == Self::execute(old(self).model(), Instruction::TYA),
            final(self).cycle_count <= old(self).cycle_count + 12,
    {
        proof {
            reveal(CPU::execute);
        }
        self.ignore_argument();
        self.set_accumulator(self.y);
    }

    fn tsx(&mut self)
        requires
            old(self).wf(),
            old(self).cycle_count <= 243,
        ensures
            final(self).wf(),
            final(self).model() == Self::execute(old(self).model(), Instruction::TSX),
            final(self).cycle_count <= old(self).cycle_count + 12,
    {
        proof {
            reveal(CPU::execute);
        }
        self.ignore_argument();
        self.set_x(self.stack_pointer.0);
    }

    fn txs(&mut self)
        requires
            old(self).wf(),
            old(self).cycle_count <= 243,
        ensures
            final(self).wf(),
            final(self).model() == Self::execute(old(self).model(), Instruction::TXS),
            final(self).cycle_count <= old(self).cycle_count + 12,
    {
        proof {
            reveal(CPU::execute);
        }
        self.ignore_argument();
        self.stack_pointer.0 = self.x;
    }

    pub fn pla(&mut self)
        requires
            old(self).wf(),
            old(self).cycle_count <= 243,
        ensures
            final(self).wf(),
            final(self).model() == Self::execute(old(self).model(), Instruction::PLA),
            final(self).cycle_count <= old(self).cycle_count + 12,
    {
        proof {
            reveal(CPU::execute);
        }
        self.ignore_argument();
        self.increment_stack();
        let accumulator = self.pull_stack();
        self.set_accumulator(accumulator);
    }

    pub fn plp(&mut self)
        requires
            old(self).wf(),
            old(self).cycle_count <= 243,
        ensures
            final(self).wf(),
            final(self).model() == Self::execute(old(self).model(), Instruction::PLP),
            final(self).cycle_count <= old(self).cycle_count + 12,
    {
        proof {
            reveal(CPU::execute);
        }
        self.ignore_argument();
        self.increment_stack();
        let bits = self.pull_stack();
        self.status = Status::from_bits_truncate(bits);
    }

    pub fn pha(&mut self)
        requires
            old(self).wf(),
            old(self).cycle_count <= 243,
        ensures
            final(self).wf(),
            final(self).model() == Self::execute(old(self).model(), Instruction::PHA),
            final(self).cycle_count <= old(self).cycle_count + 12,
    {
        proof {
            reveal(CPU::execute);
        }
        self.ignore_argument();
        self.push_stack(self.accumulator);
    }

    pub fn php(&mut self)
        requires
            old(self).wf(),
            old(self).cycle_count <= 243,
        ensures
            final(self).wf(),
            final(self).model() == Self::execute(old(self).model(), Instruction::PHP),
            final(self).cycle_count <= old(self).cycle_count + 12,
    {
        proof {
            reveal(CPU::execute);
        }
        self.ignore_argument();
        self.push_status(true);
    }

    pub fn and(&mut self, addressing_mode: FlexibleAddressingMode)
        requires
            old(self).wf(),
            old(self).cycle_count <= 243,
        ensures
            final(self).wf(),
            final(self).model() == Self::execute(old(self).model(), Instruction::AND(addressing_mode)),
            final(self).cycle_count <= old(self).cycle_count + 12,
    {
        proof {
            reveal(CPU::execute);
        }
        let value = self.fetch(addressing_mode);
        self.set_accumulator(self.accumulator & value);
    }

    pub fn eor(&mut self, addressing_mode: FlexibleAddressingMode)
        requires
            old(self).wf(),
            old(self).cycle_count <= 243,
        ensures
            final(self).wf(),
            final(self).model() == Self::execute(old(self).model(), Instruction::EOR(addressing_mode)),
            final(self).cycle_count <= old(self).cycle_count + 12,
    {
        proof {
            reveal(CPU::execute);
        }
        let value = self.fetch(addressing_mode);
        self.set_accumulator(self.accumulator ^ value);
    }

    pub fn ora(&mut self, addressing_mode: FlexibleAddressingMode)
        requires
            old(self).wf(),
            old(self).cycle_count <= 243,
        ensures
            final(self).wf(),
            final(self).model() == Self::execute(old(self).model(), Instruction::ORA(addressing_mode)),
            final(self).cycle_count <= old(self).cycle_count + 12,
    {
        proof {
            reveal(CPU::execute);
        }
        let value = self.fetch(addressing_mode);
        self.set_accumulator(self.accumulator | value);
    }

    pub fn bit(&mut self, addressing_mode: BITAddressingMode)
        requires
            old(self).wf(),
            old(self).cycle_count <= 243,
        ensures
            final(self).wf(),
            final(self).model() == Self::execute(old(self).model(), Instruction::BIT(addressing_mode)),
            final(self).cycle_count <= old(self).cycle_count + 12,
    {
        proof {
            reveal(CPU::execute);
        }
        let value = self.fetch(addressing_mode);
        let result = self.accumulator & value;
        self.status.zero = result == 0;
        self.status.overflow = value & 64 != 0;
        self.status.negative = value >= 128;
    }

    fn adc(&mut self, addressing_mode: FlexibleAddressingMode)
        requires
            old(self).wf(),
            old(self).cycle_count <= 243,
        ensures
            final(self).wf(),
            final(self).model() == Self::execute(old(self).model(), Instruction::ADC(addressing_mode)),
            final(self).cycle_count <= old(self).cycle_count + 12,
    {
        proof {
            reveal(CPU::execute);
        }
        let value = self.fetch(addressing_mode);
        self.add_to_accumulator(value);
    }

    fn sbc(&mut self, addressing_mode: FlexibleAddressingMode)
        requires
            old(self).wf(),
            old(self).cycle_count <= 243,
        ensures
            final(self).wf(),
            final(self).model() == Self::execute(old(self).model(), Instruction::SBC(addressing_mode)),
            final(self).cycle_count <= old(self).cycle_count + 12,
    {
        proof {
            reveal(CPU::execute);
        }
        let value = self.fetch(addressing_mode);
        self.sub_from_accumulator(value);
    }

    fn cmp(&mut self, addressing_mode: FlexibleAddressingMode)
        requires
            old(self).wf(),
            old(self).cycle_count <= 243,
        ensures
            final(self).wf(),
            final(self).model() == Self::execute(old(self).model(), Instruction::CMP(addressing_mode)),
            final(self).cycle_count <= old(self).cycle_count + 12,
    {
        proof {
            reveal(CPU::execute);
        }
        let value = self.fetch(addressing_mode);
        self.compare(self.accumulator, value);
    }

    fn cpx(&mut self, addressing_mode: CompareAddressingMode)
        requires
            old(self).wf(),
            old(self).cycle_count <= 243,
        ensures
            final(self).wf(),
            final(self).model() == Self::execute(old(self).model(), Instruction::CPX(addressing_mode)),
            final(self).cycle_count <= old(self).cycle_count + 12,
    {
        proof {
            reveal(CPU::execute);
        }
        let value = self.fetch(addressing_mode);
        self.compare(self.x, value);
    }

    fn cpy(&mut self, addressing_mode: CompareAddressingMode)
        requires
            old(self).wf(),
            old(self).cycle_count <= 243,
        ensures
            final(self).wf(),
            final(self).model() == Self::execute(old(self).model(), Instruction::CPY(addressing_mode)),
            final(self).cycle_count <= old(self).cycle_count + 12,
    {
        proof {
            reveal(CPU::execute);
        }
        let value = self.fetch(addressing_mode);
        self.compare(self.y, value);
    }

    pub fn inc(&mut self, addressing_mode: IncDecAddressingMode)
        requires
            old(self).wf(),
            old(self).cycle_count <= 243,
        ensures
            final(self).wf(),
            final(self).model() == Self::execute(old(self).model(), Instruction::INC(addressing_mode)),
            final(self).cycle_count <= old(self).cycle_count + 12,
    {
        proof {
            reveal(CPU::execute);
        }
        let reference = self.fetch_ref(addressing_mode);
        self.increment(reference);
    }

    pub fn inx(&mut self)
        requires
            old(self).wf(),
            old(self).cycle_count <= 243,
        ensures
            final(self).wf(),
            final(self).model() == Self::execute(old(self).model(), Instruction::INX),
            final(self).cycle_count <= old(self).cycle_count + 12,
    {
        proof {
            reveal(CPU::execute);
        }
        self.ignore_argument();
        self.increment(Reference::X);
    }

    pub fn iny(&mut self)
        requires
            old(self).wf(),
            old(self).cycle_count <= 243,
        ensures
            final(self).wf(),
            final(self).model() == Self::execute(old(self).model(), Instruction::INY),
            final(self).cycle_count <= old(self).cycle_count + 12,
    {
        proof {
            reveal(CPU::execute);
        }
        self.ignore_argument();
        self.increment(Reference::Y);
    }

    pub fn dec(&mut self, addressing_mode: IncDecAddressingMode)
        requires
            old(self).wf(),
            old(self).cycle_count <= 243,
        ensures
            final(self).wf(),
            final(self).model() == Self::execute(old(self).model(), Instruction::DEC(addressing_mode)),
            final(self).cycle_count <= old(self).cycle_count + 12,
    {
        proof {
            reveal(CPU::execute);
        }
        let reference = self.fetch_ref(addressing_mode);
        self.decrement(reference);
    }

    pub fn dex(&mut self)
        requires
            old(self).wf(),
            old(self).cycle_count <= 243,
        ensures
            final(self).wf(),
            final(self).model() == Self::execute(old(self).model(), Instruction::DEX),
            final(self).cycle_count <= old(self).cycle_count + 12,
    {
        proof {
            reveal(CPU::execute);
        }
        self.ignore_argument();
        self.decrement(Reference::X);
    }

    pub fn dey(&mut self)
        requires
            old(self).wf(),
            old(self).cycle_count <= 243,
        ensures
            final(self).wf(),
            final(self).model() == Self::execute(old(self).model(), Instruction::DEY),
            final(self).cycle_count <= old(self).cycle_count + 12,
    {
        proof {
            reveal(CPU::execute);
        }
        self.ignore_argument();
        self.decrement(Reference::Y);
    }

    fn asl(&mut self, addressing_mode: ShiftAddressingMode)
        requires
            old(self).wf(),
            old(self).cycle_count <= 243,
        ensures
            final(self).wf(),
            final(self).model() == Self::execute(old(self).model(), Instruction::ASL(addressing_mode)),
            final(self).cycle_count <= old(self).cycle_count + 12,
    {
        proof {
            reveal(CPU::execute);
        }
        self.shift(addressing_mode, ShiftOp::ASL);
    }

    fn lsr(&mut self, addressing_mode: ShiftAddressingMode)
        requires
            old(self).wf(),
            old(self).cycle_count <= 243,
        ensures
            final(self).wf(),
            final(self).model() == Self::execute(old(self).model(), Instruction::LSR(addressing_mode)),
            final(self).cycle_count <= old(self).cycle_count + 12,
    {
        proof {
            reveal(CPU::execute);
        }
        self.shift(addressing_mode, ShiftOp::LSR);
    }

    fn rol(&mut self, addressing_mode: ShiftAddressingMode)
        requires
            old(self).wf(),
            old(self).cycle_count <= 243,
        ensures
            final(self).wf(),
            final(self).model() == Self::execute(old(self).model(), Instruction::ROL(addressing_mode)),
            final(self).cycle_count <= old(self).cycle_count + 12,
    {
        proof {
            reveal(CPU::execute);
        }
        self.shift(addressing_mode, ShiftOp::ROL);
    }

    fn ror(&mut self, addressing_mode: ShiftAddressingMode)
        requires
            old(self).wf(),
            old(self).cycle_count <= 243,
        ensures
            final(self).wf(),
            final(self).model() == Self::execute(old(self).model(), Instruction::ROR(addressing_mode)),
            final(self).cycle_count <= old(self).cycle_count + 12,
    {
        proof {
            reveal(CPU::execute);
        }
        self.shift(addressing_mode, ShiftOp::ROR);
    }

    fn slo(&mut self, addressing_mode: StoreAddressingMode)
        requires
            old(self).wf(),
            old(self).cycle_count <= 243,
        ensures
            final(self).wf(),
            final(self).model() == Self::execute(old(self).model(), Instruction::SLO(addressing_mode)),
            final(self).cycle_count <= old(self).cycle_count + 12,
    {
        proof {
            reveal(CPU::execute);
        }
        let value = self.shift(addressing_mode, ShiftOp::ASL);
        self.set_accumulator(self.accumulator | value);
    }

    fn rla(&mut self, addressing_mode: StoreAddressingMode)
        requires
            old(self).wf(),
            old(self).cycle_count <= 243,
        ensures
            final(self).wf(),
            final(self).model() == Self::execute(old(self).model(), Instruction::RLA(addressing_mode)),
            final(self).cycle_count <= old(self).cycle_count + 12,
    {
        proof {
            reveal(CPU::execute);
        }
        let value = self.shift(addressing_mode, ShiftOp::ROL);
        self.set_accumulator(self.accumulator & value);
    }

    fn sre(&mut self, addressing_mode: StoreAddressingMode)
        requires
            old(self).wf(),
            old(self).cycle_count <= 243,
        ensures
            final(self).wf(),
            final(self).model() == Self::execute(old(self).model(), Instruction::SRE(addressing_mode)),
            final(self).cycle_count <= old(self).cycle_count + 12,
    {
        proof {
            reveal(CPU::execute);
        }
        let value = self.shift(addressing_mode, ShiftOp::LSR);
        self.set_accumulator(self.accumulator ^ value);
    }

    fn rra(&mut self, addressing_mode: StoreAddressingMode)
        requires
            old(self).wf(),
            old(self).cycle_count <= 243,
        ensures
            final(self).wf(),
            final(self).model() == Self::execute(old(self).model(), Instruction::RRA(addressing_mode)),
            final(self).cycle_count <= old(self).cycle_count + 12,
    {
        proof {
            reveal(CPU::execute);
        }
        let value = self.shift(addressing_mode, ShiftOp::ROR);
        self.add_to_accumulator(value);
    }

    fn jmp(&mut self, addressing_mode: JumpAddressingMode)
        requires
            old(self).wf(),
            old(self).cycle_count <= 243,
        ensures
            final(self).wf(),
            final(self).model() == Self::execute(old(self).model(), Instruction::JMP(addressing_mode)),
            final(self).cycle_count <= old(self).cycle_count + 12,
    {
        proof {
            reveal(CPU::execute);
        }
        self.program_counter = addressing_mode.fetch_address(self);
    }

    fn jsr(&mut self)
        requires
            old(self).wf(),
            old(self).cycle_count <= 243,
        ensures
            final(self).wf(),
            final(self).model() == Self::execute(old(self).model(), Instruction::JSR),
            final(self).cycle_count <= old(self).cycle_count + 12,
    {
        proof {
            reveal(CPU::execute);
        }
        let addr = self.fetch_address_at_program_counter();

        // An internal operation takes a cycle here
        self.cycle_count = self.cycle_count + 1;

        // The pushed address is that of the last byte of the JSR instruction
        let data = self.program_counter.wrapping_sub(1);

        self.push_stack(data.higher());
        self.push_stack(data.lower());

        self.program_counter = addr;
    }

    fn rts(&mut self)
        requires
            old(self).wf(),
            old(self).cycle_count <= 243,
        ensures
            final(self).wf(),
            final(self).model() == Self::execute(old(self).model(), Instruction::RTS),
            final(self).cycle_count <= old(self).cycle_count + 12,
    {
        proof {
            reveal(CPU::execute);
        }
        self.ignore_argument();
        self.increment_stack();
        let lower = self.pull_and_increment_stack();
        let higher = self.pull_stack();
        self.program_counter = Address::from_bytes(higher, lower);
        self.incr_program_counter();
    }

    fn bcc(&mut self)
        requires
            old(self).wf(),
            old(self).cycle_count <= 243,
        ensures
            final(self).wf(),
            final(self).model() == Self::execute(old(self).model(), Instruction::BCC),
            final(self).cycle_count <= old(self).cycle_count + 12,
    {
        proof {
            reveal(CPU::execute);
        }
        let cond = !self.status.carry;
        self.branch_if(cond);
    }

    fn bcs(&mut self)
        requires
            old(self).wf(),
            old(self).cycle_count <= 243,
        ensures
            final(self).wf(),
            final(self).model() == Self::execute(old(self).model(), Instruction::BCS),
            final(self).cycle_count <= old(self).cycle_count + 12,
    {
        proof {
            reveal(CPU::execute);
        }
        let cond = self.status.carry;
        self.branch_if(cond);
    }

    fn beq(&mut self)
        requires
            old(self).wf(),
            old(self).cycle_count <= 243,
        ensures
            final(self).wf(),
            final(self).model() == Self::execute(old(self).model(), Instruction::BEQ),
            final(self).cycle_count <= old(self).cycle_count + 12,
    {
        proof {
            reveal(CPU::execute);
        }
        let cond = self.status.zero;
        self.branch_if(cond);
    }

    fn bmi(&mut self)
        requires
            old(self).wf(),
            old(self).cycle_count <= 243,
        ensures
            final(self).wf(),
            final(self).model() == Self::execute(old(self).model(), Instruction::BMI),
            final(self).cycle_count <= old(self).cycle_count + 12,
    {
        proof {
            reveal(CPU::execute);
        }
        let cond = self.status.negative;
        self.branch_if(cond);
    }

    fn bne(&mut self)
        requires
            old(self).wf(),
            old(self).cycle_count <= 243,
        ensures
            final(self).wf(),
            final(self).model() == Self::execute(old(self).model(), Instruction::BNE),
            final(self).cycle_count <= old(self).cycle_count + 12,
    {
        proof {
            reveal(CPU::execute);
        }
        let cond = !self.status.zero;
        self.branch_if(cond);
    }

    fn bpl(&mut self)
        requires
            old(self).wf(),
            old(self).cycle_count <= 243,
        ensures
            final(self).wf(),
            final(self).model() == Self::execute(old(self).model(), Instruction::BPL),
            final(self).cycle_count <= old(self).cycle_count + 12,
    {
        proof {
            reveal(CPU::execute);
        }
        let cond = !self.status.negative;
        self.branch_if(cond);
    }

    fn bvc(&mut self)
        requires
            old(self).wf(),
            old(self).cycle_count <= 243,
        ensures
            final(self).wf(),
            final(self).model() == Self::execute(old(self).model(), Instruction::BVC),
            final(self).cycle_count <= old(self).cycle_count + 12,
    {
        proof {
            reveal(CPU::execute);
        }
        let cond = !self.status.overflow;
        self.branch_if(cond);
    }

    fn bvs(&mut self)
        requires
            old(self).wf(),
            old(self).cycle_count <= 243,
        ensures
            final(self).wf(),
            final(self).model() == Self::execute(old(self).model(), Instruction::BVS),
            final(self).cycle_count <= old(self).cycle_count + 12,
    {
        proof {
            reveal(CPU::execute);
        }
        let cond = self.status.overflow;
        self.branch_if(cond);
    }

    fn clc(&mut self)
        requires
            old(self).wf(),
            old(self).cycle_count <= 243,
        ensures
            final(self).wf(),
            final(self).model() == Self::execute(old(self).model(), Instruction::CLC),
            final(self).cycle_count <= old(self).cycle_count + 12,
    {
        proof {
            reveal(CPU::execute);
        }
        self.ignore_argument();
        self.status.carry = false;
    }

    fn cld(&mut self)
        requires
            old(self).wf(),
            old(self).cycle_count <= 243,
        ensures
            final(self).wf(),
            final(self).model() == Self::execute(old(self).model(), Instruction::CLD),
            final(self).cycle_count <= old(self).cycle_count + 12,
    {
        proof {
            reveal(CPU::execute);
        }
        self.ignore_argument();
        self.status.decimal = false;
    }

    fn cli(&mut self)
        requires
            old(self).wf(),
            old(self).cycle_count <= 243,
        ensures
            final(self).wf(),
            final(self).model() == Self::execute(old(self).model(), Instruction::CLI),
            final(self).cycle_count <= old(self).cycle_count + 12,
    {
        proof {
            reveal(CPU::execute);
        }
        self.ignore_argument();
        self.status.interrupt_disable = false;
    }

    fn clv(&mut self)
        requires
            old(self).wf(),
            old(self).cycle_count <= 243,
        ensures
            final(self).wf(),
            final(self).model() == Self::execute(old(self).model(), Instruction::CLV),
            final(self).cycle_count <= old(self).cycle_count + 12,
    {
        proof {
            reveal(CPU::execute);
        }
        self.ignore_argument();
        self.status.overflow = false;
    }

    fn sec(&mut self)
        requires
            old(self).wf(),
            old(self).cycle_count <= 243,
        ensures
            final(self).wf(),
            final(self).model() == Self::execute(old(self).model(), Instruction::SEC),
            final(self).cycle_count <= old(self).cycle_count + 12,
    {
        proof {
            reveal(CPU::execute);
        }
        self.ignore_argument();
        self.status.carry = true;
    }

    fn sed(&mut self)
        requires
            old(self).wf(),
            old(self).cycle_count <= 243,
        ensures
            final(self).wf(),
            final(self).model() == Self::execute(old(self).model(), Instruction::SED),
            final(self).cycle_count <= old(self).cycle_count + 12,
    {
        proof {
            reveal(CPU::execute);
        }
        self.ignore_argument();
        self.status.decimal = true;
    }

    fn sei(&mut self)
        requires
            old(self).wf(),
            old(self).cycle_count <= 243,
        ensures
            final(self).wf(),
            final(self).model() == Self::execute(old(self).model(), Instruction::SEI),
            final(self).cycle_count <= old(self).cycle_count + 12,
    {
        proof {
            reveal(CPU::execute);
        }
        self.ignore_argument();
        self.status.interrupt_disable = true;
    }

    fn brk(&mut self)
        requires
            old(self).wf(),
            old(self).cycle_count <= 243,
        ensures
            final(self).wf(),
            final(self).model() == Self::execute(old(self).model(), Instruction::BRK),
            final(self).cycle_count <= old(self).cycle_count + 12,
    {
        proof {
            reveal(CPU::execute);
        }
        self.ignore_argument();
        self.interrupt(Address::new(INTERRUPT_VECTOR), true);
    }

    fn nop(&mut self)
        requires
            old(self).wf(),
            old(self).cycle_count <= 243,
        ensures
            final(self).wf(),
            final(self).model() == Self::execute(old(self).model(), Instruction::NOP),
            final(self).cycle_count <= old(self).cycle_count + 12,
    {
        proof {
            reveal(CPU::execute);
        }
        self.ignore_argument();
    }

    fn rti(&mut self)
        requires
            old(self).wf(),
            old(self).cycle_count <= 243,
        ensures
            final(self).wf(),
            final(self).model() == Self::execute(old(self).model(), Instruction::RTI),
            final(self).cycle_count <= old(self).cycle_count + 12,
    {
        proof {
            reveal(CPU::execute);
        }
        self.ignore_argument();
        self.increment_stack();
        let bits = self.pull_and_increment_stack();
        self.status = Status::from_bits_truncate(bits);
        let lower = self.pull_and_increment_stack();
        let higher = self.pull_stack();
        self.program_counter = Address::from_bytes(higher, lower);
    }

    fn ign(&mut self, addressing_mode: IncDecAddressingMode)
        requires
            old(self).wf(),
            old(self).cycle_count <= 243,
        ensures
            final(self).wf(),
            final(self).model() == Self::execute(old(self).model(), Instruction::IGN(addressing_mode)),
            final(self).cycle_count <= old(self).cycle_count + 12,
    {
        proof {
            reveal(CPU::execute);
        }
        self.fetch_ref(addressing_mode);
    }

    fn skb(&mut self)
        requires
            old(self).wf(),
            old(self).cycle_count <= 243,
        ensures
            final(self).wf(),
            final(self).model() == Self::execute(old(self).model(), Instruction::SKB),
            final(self).cycle_count <= old(self).cycle_count + 12,
    {
        proof {
            reveal(CPU::execute);
        }
        self.incr_program_counter();
    }

    fn lax(&mut self, addressing_mode: LAXAddressingMode)
        requires
            old(self).wf(),
            old(self).cycle_count <= 243,
        ensures
            final(self).wf(),
            final(self).model() == Self::execute(old(self).model(), Instruction::LAX(addressing_mode)),
            final(self).cycle_count <= old(self).cycle_count + 12,
    {
        proof {
            reveal(CPU::execute);
        }
        let value = self.fetch(addressing_mode);
        self.set_accumulator(value);
        self.set_x(value);
    }

    fn sax(&mut self, addressing_mode: SAXAddressingMode)
        requires
            old(self).wf(),
            old(self).cycle_count <= 243,
        ensures
            final(self).wf(),
            final(self).model() == Self::execute(old(self).model(), Instruction::SAX(addressing_mode)),
            final(self).cycle_count <= old(self).cycle_count + 12,
    {
        proof {
            reveal(CPU::execute);
        }
        let reference = self.fetch_ref(addressing_mode);
        let value = self.accumulator & self.x;
        self.write_reference(reference, value, true);
    }

    fn dcp(&mut self, addressing_mode: StoreAddressingMode)
        requires
            old(self).wf(),
            old(self).cycle_count <= 243,
        ensures
            final(self).wf(),
            final(self).model() == Self::execute(old(self).model(), Instruction::DCP(addressing_mode)),
            final(self).cycle_count <= old(self).cycle_count + 12,
    {
        proof {
            reveal(CPU::execute);
        }
        let reference = self.fetch_ref(addressing_mode);
        self.decrement(reference);
        let value = self.read_reference(reference, false);
        self.compare(self.accumulator, value);
    }

    fn isc(&mut self, addressing_mode: StoreAddressingMode)
        requires
            old(self).wf(),
            old(self).cycle_count <= 243,
        ensures
            final(self).wf(),
            final(self).model() == Self::execute(old(self).model(), Instruction::ISC(addressing_mode)),
            final(self).cycle_count <= old(self).cycle_count + 12,
    {
        proof {
            reveal(CPU::execute);
        }
        let reference = self.fetch_ref(addressing_mode);
        self.increment(reference);
        let value = self.read_reference(reference, false);
        self.sub_from_accumulator(value);
    }

    fn handle_load_store(&mut self, instruction: Instruction)
        requires
            old(self).wf(),
            old(self).cycle_count <= 243,
            instruction is LDA || instruction is LDX || instruction is LDY || instruction is STA || instruction is STX || instruction is STY || instruction is TAX || instruction is TAY || instruction is TXA || instruction is TYA || instruction is TSX || instruction is TXS || instruction is PHA || instruction is PHP || instruction is PLA || instruction is PLP,
        ensures
            final(self).wf(),
            final(self).model() == Self::execute(old(self).model(), instruction),
    {
        match instruction {
            Instruction::LDA(addressing_mode) => self.lda(addressing_mode),
            Instruction::LDX(addressing_mode) => self.ldx(addressing_mode),
            Instruction::LDY(addressing_mode) => self.ldy(addressing_mode),
            Instruction::STA(addressing_mode) => self.sta(addressing_mode),
            Instruction::STX(addressing_mode) => self.stx(addressing_mode),
            Instruction::STY(addressing_mode) => self.sty(addressing_mode),
            Instruction::TAX => self.tax(),
            Instruction::TAY => self.tay(),
            Instruction::TXA => self.txa(),
            Instruction::TYA => self.tya(),
            Instruction::TSX => self.tsx(),
            Instruction::TXS => self.txs(),
            Instruction::PHA => self.pha(),
            Instruction::PHP => self.php(),
            Instruction::PLA => self.pla(),
            Instruction::PLP => self.plp(),
            _ => {},
        }
    }

    fn handle_arithmetic(&mut self, instruction: Instruction)
        requires
            old(self).wf(),
            old(self).cycle_count <= 243,
            instruction is AND || instruction is EOR || instruction is ORA || instruction is BIT || instruction is ADC || instruction is SBC || instruction is CMP || instruction is CPX || instruction is CPY,
        ensures
            final(self).wf(),
            final(self).model() == Self::execute(old(self).model(), instruction),
    {
        match instruction {
            Instruction::AND(addressing_mode) => self.and(addressing_mode),
            Instruction::EOR(addressing_mode) => self.eor(addressing_mode),
            Instruction::ORA(addressing_mode) => self.ora(addressing_mode),
            Instruction::BIT(addressing_mode) => self.bit(addressing_mode),
            Instruction::ADC(addressing_mode) => self.adc(addressing_mode),
            Instruction::SBC(addressing_mode) => self.sbc(addressing_mode),
            Instruction::CMP(addressing_mode) => self.cmp(addressing_mode),
            Instruction::CPX(addressing_mode) => self.cpx(addressing_mode),
            Instruction::CPY(addressing_mode) => self.cpy(addressing_mode),
            _ => {},
        }
    }

    fn handle_increment_shift(&mut self, instruction: Instruction)
        requires
            old(self).wf(),
            old(self).cycle_count <= 243,
            instruction is INC || instruction is INX || instruction is INY || instruction is DEC || instruction is DEX || instruction is DEY || instruction is ASL || instruction is LSR || instruction is ROL || instruction is ROR,
        ensures
            final(self).wf(),
            final(self).model() == Self::execute(old(self).model(), instruction),
    {
        match instruction {
            Instruction::INC(addressing_mode) => self.inc(addressing_mode),
            Instruction::INX => self.inx(),
            Instruction::INY => self.iny(),
            Instruction::DEC(addressing_mode) => self.dec(addressing_mode),
            Instruction::DEX => self.dex(),
            Instruction::DEY => self.dey(),
            Instruction::ASL(addressing_mode) => self.asl(addressing_mode),
            Instruction::LSR(addressing_mode) => self.lsr(addressing_mode),
            Instruction::ROL(addressing_mode) => self.rol(addressing_mode),
            Instruction::ROR(addressing_mode) => self.ror(addressing_mode),
            _ => {},
        }
    }

    fn handle_jump_branch_flag(&mut self, instruction: Instruction)
        requires
            old(self).wf(),
            old(self).cycle_count <= 243,
            instruction is JMP || instruction is JSR || instruction is RTS || instruction is BCC || instruction is BCS || instruction is BEQ || instruction is BMI || instruction is BNE || instruction is BPL || instruction is BVC || instruction is BVS || instruction is CLC || instruction is CLD || instruction is CLI || instruction is CLV || instruction is SEC || instruction is SED || instruction is SEI,
        ensures
            final(self).wf(),
            final(self).model() == Self::execute(old(self).model(), instruction),
    {
        match instruction {
            Instruction::JMP(addressing_mode) => self.jmp(addressing_mode),
            Instruction::JSR => self.jsr(),
            Instruction::RTS => self.rts(),
            Instruction::BCC => self.bcc(),
            Instruction::BCS => self.bcs(),
            Instruction::BEQ => self.beq(),
            Instruction::BMI => self.bmi(),
            Instruction::BNE => self.bne(),
            Instruction::BPL => self.bpl(),
            Instruction::BVC => self.bvc(),
            Instruction::BVS => self.bvs(),
            Instruction::CLC => self.clc(),
            Instruction::CLD => self.cld(),
            Instruction::CLI => self.cli(),
            Instruction::CLV => self.clv(),
            Instruction::SEC => self.sec(),
            Instruction::SED => self.sed(),
            Instruction::SEI => self.sei(),
            _ => {},
        }
    }

    fn handle_system_unofficial(&mut self, instruction: Instruction)
        requires
            old(self).wf(),
            old(self).cycle_count <= 243,
            instruction is BRK || instruction is NOP || instruction is RTI || instruction is IGN || instruction is SKB || instruction is LAX || instruction is SAX || instruction is DCP || instruction is ISC || instruction is SLO || instruction is RLA || instruction is SRE || instruction is RRA,
        ensures
            final(self).wf(),
            final(self).model() == Self::execute(old(self).model(), instruction),
    {
        match instruction {
            Instruction::BRK => self.brk(),
            Instruction::NOP => self.nop(),
            Instruction::RTI => self.rti(),
            Instruction::IGN(addressing_mode) => self.ign(addressing_mode),
            Instruction::SKB => self.skb(),
            Instruction::LAX(addressing_mode) => self.lax(addressing_mode),
            Instruction::SAX(addressing_mode) => self.sax(addressing_mode),
            Instruction::DCP(addressing_mode) => self.dcp(addressing_mode),
            Instruction::ISC(addressing_mode) => self.isc(addressing_mode),
            Instruction::SLO(addressing_mode) => self.slo(addressing_mode),
            Instruction::RLA(addressing_mode) => self.rla(addressing_mode),
            Instruction::SRE(addressing_mode) => self.sre(addressing_mode),
            Instruction::RRA(addressing_mode) => self.rra(addressing_mode),
            _ => {},
        }
    }

    fn handle_instruction(&mut self, instruction: Instruction)
        requires
            old(self).wf(),
            old(self).cycle_count <= 243,
        ensures
            final(self).wf(),
            final(self).model() == Self::execute(old(self).model(), instruction),
    {
        match instruction {
            Instruction::LDA(_) | Instruction::LDX(_) | Instruction::LDY(_) | Instruction::STA(_) | Instruction::STX(_) | Instruction::STY(_) | Instruction::TAX | Instruction::TAY | Instruction::TXA | Instruction::TYA | Instruction::TSX | Instruction::TXS | Instruction::PHA | Instruction::PHP | Instruction::PLA | Instruction::PLP => self.handle_load_store(instruction),
            Instruction::AND(_) | Instruction::EOR(_) | Instruction::ORA(_) | Instruction::BIT(_) | Instruction::ADC(_) | Instruction::SBC(_) | Instruction::CMP(_) | Instruction::CPX(_) | Instruction::CPY(_) => self.handle_arithmetic(instruction),
            Instruction::INC(_) | Instruction::INX | Instruction::INY | Instruction::DEC(_) | Instruction::DEX | Instruction::DEY | Instruction::ASL(_) | Instruction::LSR(_) | Instruction::ROL(_) | Instruction::ROR(_) => self.handle_increment_shift(instruction),
            Instruction::JMP(_) | Instruction::JSR | Instruction::RTS | Instruction::BCC | Instruction::BCS | Instruction::BEQ | Instruction::BMI | Instruction::BNE | Instruction::BPL | Instruction::BVC | Instruction::BVS | Instruction::CLC | Instruction::CLD | Instruction::CLI | Instruction::CLV | Instruction::SEC | Instruction::SED | Instruction::SEI => self.handle_jump_branch_flag(instruction),
            Instruction::BRK | Instruction::NOP | Instruction::RTI | Instruction::IGN(_) | Instruction::SKB | Instruction::LAX(_) | Instruction::SAX(_) | Instruction::DCP(_) | Instruction::ISC(_) | Instruction::SLO(_) | Instruction::RLA(_) | Instruction::SRE(_) | Instruction::RRA(_) => self.handle_system_unofficial(instruction),
        }
    }

    /// Runs one instruction, or serves a pending non-maskable interrupt in its place, and
    /// gives the number of cycles taken. The opcode at PC must be one this CPU knows.
    pub fn run_instruction(&mut self) -> (cycles: u8)
        requires
            old(self).wf(),
            decode(Self::next_opcode(old(self).model())) is Some,
        ensures
            final(self).wf(),
            (final(self).model(), cycles) == Self::run_step(old(self).model()),
    {
        match self.try_run_instruction() {
            Some(cycles) => cycles,
            None => 0,
        }
    }

    /// As `run_instruction`, for any opcode: an opcode that names no instruction is read (PC
    /// moves past it) and nothing else happens, and the result is `None`.
    pub fn try_run_instruction(&mut self) -> (cycles: Option<u8>)
        requires
            old(self).wf(),
        ensures
            final(self).wf(),
            cycles is Some <==> decode(Self::next_opcode(old(self).model())) is Some,
            cycles matches Some(c) ==> (final(self).model(), c) == Self::run_step(
                old(self).model(),
            ),
            cycles is None ==> final(self).model() == Self::run_step(old(self).model()).0,
    {
        self.cycle_count = 0;

        let opcode = self.incr_program_counter();
        let instruction = Instruction::from_opcode(opcode);

        match instruction {
            Some(instruction) => {
                if self.non_maskable_interrupt {
                    self.non_maskable_interrupt = false;
                    self.interrupt(Address::new(NMI_VECTOR), false);
                } else {
                    self.handle_instruction(instruction);
                }
                Some(self.cycle_count)
            },
            None => None,
        }
    }
}

} // verus!

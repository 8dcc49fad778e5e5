//! Laws that relate the runs of two instructions on a CPU with plain RAM.

use vstd::prelude::*;

use crate::address::{add16, add8, hi, join, lemma_join_split, lo};
use crate::memory::ArrayMemory;

use super::instruction::{decode, Instruction};
use super::instructions::{JSR, PHA, PHP, PLA, PLP, RTS};
use super::stack::STACK_BASE;
use super::status::{lemma_status_from_bits_roundtrip, status_bits, status_from_bits, with_flags_for, Status};
use super::addressing_modes::{
    AddressingMode, CompareAddressingMode, FlexibleAddressingMode, LDXAddressingMode,
    LDYAddressingMode, ReferenceAddressingMode, ShiftAddressingMode, StoreAddressingMode,
};
use super::execute::ShiftOp;
use super::{CpuModel, Reference, CPU};

verus! {

/// The state after running the next two instructions.
pub open spec fn run_two(s: CpuModel<Seq<u8>>) -> CpuModel<Seq<u8>> {
    CPU::<ArrayMemory>::run_step(CPU::<ArrayMemory>::run_step(s).0).0
}

/// 64KB of RAM, and no interrupt pending.
pub open spec fn plain_run(s: CpuModel<Seq<u8>>) -> bool {
    s.memory.len() == 0x10000 && !s.non_maskable_interrupt
}

/// The stack slot the stack pointer points at.
pub open spec fn stack_top(s: CpuModel<Seq<u8>>) -> u16 {
    add16(STACK_BASE, s.stack_pointer as int)
}

/// What PHA does, with the definition of `execute` opened for this instruction only.
proof fn lemma_execute_pha(s: CpuModel<Seq<u8>>)
    ensures
        CPU::<ArrayMemory>::execute(s, Instruction::PHA) == ({
            let s1 = CPU::<ArrayMemory>::ignore_argument_step(s);
            CPU::<ArrayMemory>::push_step(s1, s1.accumulator)
        }),
{
    reveal(CPU::execute);
}

proof fn lemma_execute_pla(s: CpuModel<Seq<u8>>)
    ensures
        CPU::<ArrayMemory>::execute(s, Instruction::PLA) == ({
            let s1 = CPU::<ArrayMemory>::increment_stack_step(
                CPU::<ArrayMemory>::ignore_argument_step(s),
            );
            let (s2, v) = CPU::<ArrayMemory>::pull_step(s1);
            CPU::<ArrayMemory>::set_accumulator_step(s2, v)
        }),
{
    reveal(CPU::execute);
}

/// Pushing the accumulator (PHA) and pulling it back (PLA) leaves the accumulator, the stack
/// pointer and the other registers as they were; PLA sets Z and N from the value pulled.
pub proof fn lemma_pha_then_pla(s: CpuModel<Seq<u8>>)
    requires
        plain_run(s),
        s.memory[s.program_counter as int] == PHA,
        s.memory[add16(s.program_counter, 1) as int] == PLA,
        add16(s.program_counter, 1) != stack_top(s),
    ensures
        run_two(s).accumulator == s.accumulator,
        run_two(s).stack_pointer == s.stack_pointer,
        run_two(s).x == s.x,
        run_two(s).y == s.y,
        run_two(s).status == with_flags_for(s.status, s.accumulator),
        run_two(s).program_counter == add16(s.program_counter, 2),
{
    let (f1, op1) = CPU::<ArrayMemory>::fetch_step(CpuModel { cycle_count: 0, ..s });
    assert(op1 == PHA);
    assert(decode(PHA) == Some(Instruction::PHA));
    lemma_execute_pha(f1);
    let s1 = CPU::<ArrayMemory>::run_step(s).0;
    assert(s1 == CPU::<ArrayMemory>::execute(f1, Instruction::PHA));
    assert(s1.memory[add16(s.program_counter, 1) as int] == PLA);
    let (f2, op2) = CPU::<ArrayMemory>::fetch_step(CpuModel { cycle_count: 0, ..s1 });
    assert(op2 == PLA);
    assert(decode(PLA) == Some(Instruction::PLA));
    lemma_execute_pla(f2);
}

proof fn lemma_execute_php(s: CpuModel<Seq<u8>>)
    ensures
        CPU::<ArrayMemory>::execute(s, Instruction::PHP) == CPU::<ArrayMemory>::push_status_step(
            CPU::<ArrayMemory>::ignore_argument_step(s),
            true,
        ),
{
    reveal(CPU::execute);
}

proof fn lemma_execute_plp(s: CpuModel<Seq<u8>>)
    ensures
        CPU::<ArrayMemory>::execute(s, Instruction::PLP) == ({
            let s1 = CPU::<ArrayMemory>::increment_stack_step(
                CPU::<ArrayMemory>::ignore_argument_step(s),
            );
            let (s2, v) = CPU::<ArrayMemory>::pull_step(s1);
            CpuModel { status: status_from_bits(v), ..s2 }
        }),
{
    reveal(CPU::execute);
}

proof fn lemma_execute_jsr(s: CpuModel<Seq<u8>>)
    ensures
        CPU::<ArrayMemory>::execute(s, Instruction::JSR) == ({
            let (s1, target) = CPU::<ArrayMemory>::fetch_address_step(s);
            let s2 = CPU::<ArrayMemory>::tick(s1);
            let data = add16(s2.program_counter, 65535);
            let s3 = CPU::<ArrayMemory>::push_step(s2, hi(data));
            let s4 = CPU::<ArrayMemory>::push_step(s3, lo(data));
            CpuModel { program_counter: target, ..s4 }
        }),
{
    reveal(CPU::execute);
}

proof fn lemma_execute_rts(s: CpuModel<Seq<u8>>)
    ensures
        CPU::<ArrayMemory>::execute(s, Instruction::RTS) == ({
            let s1 = CPU::<ArrayMemory>::increment_stack_step(
                CPU::<ArrayMemory>::ignore_argument_step(s),
            );
            let (s2, lower) = CPU::<ArrayMemory>::pull_and_increment_step(s1);
            let (s3, higher) = CPU::<ArrayMemory>::pull_step(s2);
            CPU::<ArrayMemory>::fetch_step(
                CpuModel { program_counter: join(higher, lower), ..s3 },
            ).0
        }),
{
    reveal(CPU::execute);
}

/// Pushing the status (PHP) and pulling it back (PLP) restores the status register, with
/// the break and unused bits set as PHP pushes them, and restores the stack pointer.
pub proof fn lemma_php_then_plp(s: CpuModel<Seq<u8>>)
    requires
        plain_run(s),
        s.memory[s.program_counter as int] == PHP,
        s.memory[add16(s.program_counter, 1) as int] == PLP,
        add16(s.program_counter, 1) != stack_top(s),
    ensures
        run_two(s).status == (Status { unused: true, brk: true, ..s.status }),
        run_two(s).stack_pointer == s.stack_pointer,
        run_two(s).accumulator == s.accumulator,
        run_two(s).x == s.x,
        run_two(s).y == s.y,
        run_two(s).program_counter == add16(s.program_counter, 2),
{
    let (f1, op1) = CPU::<ArrayMemory>::fetch_step(CpuModel { cycle_count: 0, ..s });
    assert(op1 == PHP);
    assert(decode(PHP) == Some(Instruction::PHP));
    lemma_execute_php(f1);
    let s1 = CPU::<ArrayMemory>::run_step(s).0;
    assert(s1 == CPU::<ArrayMemory>::execute(f1, Instruction::PHP));
    assert(s1.memory[add16(s.program_counter, 1) as int] == PLP);
    let (f2, op2) = CPU::<ArrayMemory>::fetch_step(CpuModel { cycle_count: 0, ..s1 });
    assert(op2 == PLP);
    assert(decode(PLP) == Some(Instruction::PLP));
    lemma_execute_plp(f2);
    lemma_status_from_bits_roundtrip(Status { unused: true, brk: true, ..s.status });
}

/// The state after JSR, as far as RTS needs it.
proof fn lemma_jsr_effect(s: CpuModel<Seq<u8>>, target: u16)
    requires
        plain_run(s),
        s.memory[s.program_counter as int] == JSR,
        s.memory[add16(s.program_counter, 1) as int] == lo(target),
        s.memory[add16(s.program_counter, 2) as int] == hi(target),
    ensures
        ({
            let s1 = CPU::<ArrayMemory>::run_step(s).0;
            let data = add16(s.program_counter, 2);
            &&& s1.program_counter == target
            &&& s1.stack_pointer == add8(s.stack_pointer, 254)
            &&& s1.memory == s.memory.update(stack_top(s) as int, hi(data)).update(
                add16(STACK_BASE, add8(s.stack_pointer, 255) as int) as int,
                lo(data),
            )
            &&& !s1.non_maskable_interrupt
            &&& s1.accumulator == s.accumulator
            &&& s1.x == s.x
            &&& s1.y == s.y
            &&& s1.status == s.status
        }),
{
    let (f1, op1) = CPU::<ArrayMemory>::fetch_step(CpuModel { cycle_count: 0, ..s });
    assert(op1 == JSR);
    assert(decode(JSR) == Some(Instruction::JSR));
    lemma_execute_jsr(f1);
    lemma_join_split(target);
}

/// RTS pulls the return address from the two stack slots above the stack pointer, and
/// jumps just past it.
proof fn lemma_rts_effect(t: CpuModel<Seq<u8>>)
    requires
        plain_run(t),
        t.memory[t.program_counter as int] == RTS,
    ensures
        ({
            let t1 = CPU::<ArrayMemory>::run_step(t).0;
            let lower = t.memory[add16(STACK_BASE, add8(t.stack_pointer, 1) as int) as int];
            let higher = t.memory[add16(STACK_BASE, add8(t.stack_pointer, 2) as int) as int];
            &&& t1.program_counter == add16(join(higher, lower), 1)
            &&& t1.stack_pointer == add8(t.stack_pointer, 2)
            &&& t1.accumulator == t.accumulator
            &&& t1.x == t.x
            &&& t1.y == t.y
            &&& t1.status == t.status
        }),
{
    let (f2, op2) = CPU::<ArrayMemory>::fetch_step(CpuModel { cycle_count: 0, ..t });
    assert(op2 == RTS);
    assert(decode(RTS) == Some(Instruction::RTS));
    lemma_execute_rts(f2);
}

proof fn lemma_two_below(sp: u8)
    ensures
        add8(add8(sp, 254), 1) == add8(sp, 255),
        add8(add8(sp, 254), 2) == sp,
{
}

/// Calling a subroutine (JSR) whose first instruction returns (RTS) comes back to the
/// instruction after the JSR, with the stack pointer and registers as they were.
#[verifier::rlimit(50)]
pub proof fn lemma_jsr_then_rts(s: CpuModel<Seq<u8>>, target: u16)
    requires
        plain_run(s),
        s.memory[s.program_counter as int] == JSR,
        s.memory[add16(s.program_counter, 1) as int] == lo(target),
        s.memory[add16(s.program_counter, 2) as int] == hi(target),
        s.memory[target as int] == RTS,
        target != stack_top(s),
        target != add16(STACK_BASE, add8(s.stack_pointer, 255) as int),
    ensures
        run_two(s).program_counter == add16(s.program_counter, 3),
        run_two(s).stack_pointer == s.stack_pointer,
        run_two(s).accumulator == s.accumulator,
        run_two(s).x == s.x,
        run_two(s).y == s.y,
        run_two(s).status == s.status,
{
    lemma_jsr_effect(s, target);
    let s1 = CPU::<ArrayMemory>::run_step(s).0;
    assert(s1.memory[target as int] == RTS);
    lemma_rts_effect(s1);
    let data = add16(s.program_counter, 2);
    lemma_two_below(s.stack_pointer);
    assert(s1.memory[add16(STACK_BASE, add8(s1.stack_pointer, 1) as int) as int] == lo(data));
    assert(s1.memory[add16(STACK_BASE, add8(s1.stack_pointer, 2) as int) as int] == hi(data));
    lemma_join_split(data);
}


/// Where a JSR at the program counter leaves the stack pointer, and the two stack slots above
/// it that hold the return address.
pub open spec fn after_jsr(s: CpuModel<Seq<u8>>) -> CpuModel<Seq<u8>> {
    CPU::<ArrayMemory>::run_step(s).0
}

pub open spec fn return_slot(sp: u8, k: int) -> int {
    add16(STACK_BASE, add8(sp, k) as int) as int
}

/// A subroutine that leaves the stack pointer and the two bytes JSR pushed as they were,
/// whatever else it did, returns with RTS to the instruction after the JSR, with the stack
/// pointer as it was before the call. `t` is the state when the subroutine reaches its RTS.
pub proof fn lemma_jsr_then_subroutine_then_rts(
    s: CpuModel<Seq<u8>>,
    target: u16,
    t: CpuModel<Seq<u8>>,
)
    requires
        plain_run(s),
        s.memory[s.program_counter as int] == JSR,
        s.memory[add16(s.program_counter, 1) as int] == lo(target),
        s.memory[add16(s.program_counter, 2) as int] == hi(target),
        plain_run(t),
        t.memory[t.program_counter as int] == RTS,
        t.stack_pointer == after_jsr(s).stack_pointer,
        t.memory[return_slot(t.stack_pointer, 1)] == after_jsr(s).memory[return_slot(
            t.stack_pointer,
            1,
        )],
        t.memory[return_slot(t.stack_pointer, 2)] == after_jsr(s).memory[return_slot(
            t.stack_pointer,
            2,
        )],
    ensures
        CPU::<ArrayMemory>::run_step(t).0.program_counter == add16(s.program_counter, 3),
        CPU::<ArrayMemory>::run_step(t).0.stack_pointer == s.stack_pointer,
        CPU::<ArrayMemory>::run_step(t).0.accumulator == t.accumulator,
        CPU::<ArrayMemory>::run_step(t).0.x == t.x,
        CPU::<ArrayMemory>::run_step(t).0.y == t.y,
        CPU::<ArrayMemory>::run_step(t).0.status == t.status,
{
    lemma_jsr_effect(s, target);
    lemma_rts_effect(t);
    let data = add16(s.program_counter, 2);
    lemma_two_below(s.stack_pointer);
    let s1 = after_jsr(s);
    assert(s1.memory[return_slot(s1.stack_pointer, 1)] == lo(data));
    assert(s1.memory[return_slot(s1.stack_pointer, 2)] == hi(data));
    lemma_join_split(data);
}

/// The address an operand reference names, if it names one.
pub open spec fn operand_address(r: Reference) -> Option<u16> {
    match r {
        Reference::Address(a) => Some(a.0),
        Reference::IndexedAddress { address, .. } => Some(address.0),
        _ => None,
    }
}

proof fn lemma_execute_dcp(s: CpuModel<Seq<u8>>, m: StoreAddressingMode)
    ensures
        CPU::<ArrayMemory>::execute(s, Instruction::DCP(m)) == ({
            let (s1, r) = CPU::<ArrayMemory>::addressing_step(s, m.addressing());
            let s2 = CPU::<ArrayMemory>::decrement_step(s1, r);
            let (s3, v) = CPU::<ArrayMemory>::read_reference_step(s2, r, false);
            CPU::<ArrayMemory>::compare_step(s3, s3.accumulator, v)
        }),
{
    reveal(CPU::execute);
}

/// DCP is DEC followed by CMP on the same operand: the byte at the operand's address goes
/// down by one (wrapping), C, Z and N are set as comparing the accumulator with the new
/// byte sets them, and the accumulator, X, Y and the other flags are left alone.
pub proof fn lemma_dcp_decrements_then_compares(s: CpuModel<Seq<u8>>, m: StoreAddressingMode)
    requires
        s.memory.len() == 0x10000,
    ensures
        ({
            let (s1, r) = CPU::<ArrayMemory>::addressing_step(s, m.addressing());
            let t = CPU::<ArrayMemory>::execute(s, Instruction::DCP(m));
            operand_address(r) matches Some(a) ==> ({
                let d = add8(s1.memory[a as int], 255);
                &&& t.memory == s1.memory.update(a as int, d)
                &&& t.status == Status {
                    carry: s.accumulator >= d,
                    ..with_flags_for(s1.status, add8(s.accumulator, 256 - d))
                }
                &&& t.accumulator == s.accumulator
                &&& t.x == s.x
                &&& t.y == s.y
                &&& t.stack_pointer == s.stack_pointer
                &&& t.program_counter == s1.program_counter
            })
        }),
{
    lemma_execute_dcp(s, m);
}


/// The state after running the next instruction.
pub open spec fn run_one(s: CpuModel<Seq<u8>>) -> CpuModel<Seq<u8>> {
    CPU::<ArrayMemory>::run_step(s).0
}

/// What an increment or decrement of an index register leaves: `reg` holds the new value,
/// Z and N describe it, and every other register, flag and byte of memory is as before, with
/// PC past the one-byte instruction.
pub open spec fn index_register_stepped(s: CpuModel<Seq<u8>>, t: CpuModel<Seq<u8>>, x: u8, y: u8, new: u8) -> bool {
    &&& t.x == x
    &&& t.y == y
    &&& t.status.zero == (new == 0)
    &&& t.status.negative == (new >= 128)
    &&& t.status.carry == s.status.carry
    &&& t.status.overflow == s.status.overflow
    &&& t.status.decimal == s.status.decimal
    &&& t.status.interrupt_disable == s.status.interrupt_disable
    &&& t.status.brk == s.status.brk
    &&& t.status.unused == s.status.unused
    &&& t.accumulator == s.accumulator
    &&& t.stack_pointer == s.stack_pointer
    &&& t.program_counter == add16(s.program_counter, 1)
    &&& t.memory == s.memory
}

proof fn lemma_execute_index_steps(s: CpuModel<Seq<u8>>)
    ensures
        CPU::<ArrayMemory>::execute(s, Instruction::INX) == CPU::<ArrayMemory>::increment_step(
            CPU::<ArrayMemory>::ignore_argument_step(s),
            Reference::X,
        ),
        CPU::<ArrayMemory>::execute(s, Instruction::INY) == CPU::<ArrayMemory>::increment_step(
            CPU::<ArrayMemory>::ignore_argument_step(s),
            Reference::Y,
        ),
        CPU::<ArrayMemory>::execute(s, Instruction::DEX) == CPU::<ArrayMemory>::decrement_step(
            CPU::<ArrayMemory>::ignore_argument_step(s),
            Reference::X,
        ),
        CPU::<ArrayMemory>::execute(s, Instruction::DEY) == CPU::<ArrayMemory>::decrement_step(
            CPU::<ArrayMemory>::ignore_argument_step(s),
            Reference::Y,
        ),
{
    reveal(CPU::execute);
}

/// INX (0xe8) and INY (0xc8) add one to X or Y, wrapping from 0xff to 0; DEX (0xca) and DEY
/// (0x88) take one away, wrapping from 0 to 0xff. Each sets Z exactly when the new value is 0
/// and N exactly when its bit 7 is set, and changes no other register, flag or memory.
pub proof fn lemma_index_increments_and_decrements(s: CpuModel<Seq<u8>>)
    requires
        plain_run(s),
    ensures
        s.memory[s.program_counter as int] == 0xe8 ==> index_register_stepped(
            s,
            run_one(s),
            ((s.x + 1) % 256) as u8,
            s.y,
            ((s.x + 1) % 256) as u8,
        ),
        s.memory[s.program_counter as int] == 0xc8 ==> index_register_stepped(
            s,
            run_one(s),
            s.x,
            ((s.y + 1) % 256) as u8,
            ((s.y + 1) % 256) as u8,
        ),
        s.memory[s.program_counter as int] == 0xca ==> index_register_stepped(
            s,
            run_one(s),
            ((s.x + 255) % 256) as u8,
            s.y,
            ((s.x + 255) % 256) as u8,
        ),
        s.memory[s.program_counter as int] == 0x88 ==> index_register_stepped(
            s,
            run_one(s),
            s.x,
            ((s.y + 255) % 256) as u8,
            ((s.y + 255) % 256) as u8,
        ),
{
    let (f, op) = CPU::<ArrayMemory>::fetch_step(CpuModel { cycle_count: 0, ..s });
    lemma_execute_index_steps(f);
    assert(decode(0xe8) == Some(Instruction::INX));
    assert(decode(0xc8) == Some(Instruction::INY));
    assert(decode(0xca) == Some(Instruction::DEX));
    assert(decode(0x88) == Some(Instruction::DEY));
}


/// `t` holds registers `a`, `x`, `y` and stack pointer `sp`, flags `f`, the memory of `s`, and
/// PC `pc`.
pub open spec fn registers_are(
    s: CpuModel<Seq<u8>>,
    t: CpuModel<Seq<u8>>,
    a: u8,
    x: u8,
    y: u8,
    sp: u8,
    f: Status,
    pc: int,
) -> bool {
    &&& t.accumulator == a
    &&& t.x == x
    &&& t.y == y
    &&& t.stack_pointer == sp
    &&& t.status == f
    &&& t.memory == s.memory
    &&& t.program_counter == pc % 65536
}

/// The flags of `s` with Z and N describing `v`.
pub open spec fn zn(s: CpuModel<Seq<u8>>, v: u8) -> Status {
    Status { zero: v == 0, negative: v >= 128, ..s.status }
}

proof fn lemma_execute_transfers(s: CpuModel<Seq<u8>>)
    ensures
        CPU::<ArrayMemory>::execute(s, Instruction::TAX) == ({
            let s1 = CPU::<ArrayMemory>::ignore_argument_step(s);
            CPU::<ArrayMemory>::set_reference_step(s1, Reference::X, s1.accumulator, true)
        }),
        CPU::<ArrayMemory>::execute(s, Instruction::TAY) == ({
            let s1 = CPU::<ArrayMemory>::ignore_argument_step(s);
            CPU::<ArrayMemory>::set_reference_step(s1, Reference::Y, s1.accumulator, true)
        }),
        CPU::<ArrayMemory>::execute(s, Instruction::TXA) == ({
            let s1 = CPU::<ArrayMemory>::ignore_argument_step(s);
            CPU::<ArrayMemory>::set_accumulator_step(s1, s1.x)
        }),
        CPU::<ArrayMemory>::execute(s, Instruction::TYA) == ({
            let s1 = CPU::<ArrayMemory>::ignore_argument_step(s);
            CPU::<ArrayMemory>::set_accumulator_step(s1, s1.y)
        }),
        CPU::<ArrayMemory>::execute(s, Instruction::TSX) == ({
            let s1 = CPU::<ArrayMemory>::ignore_argument_step(s);
            CPU::<ArrayMemory>::set_reference_step(s1, Reference::X, s1.stack_pointer, true)
        }),
        CPU::<ArrayMemory>::execute(s, Instruction::TXS) == ({
            let s1 = CPU::<ArrayMemory>::ignore_argument_step(s);
            CpuModel { stack_pointer: s1.x, ..s1 }
        }),
        CPU::<ArrayMemory>::execute(s, Instruction::CLC) == CPU::<ArrayMemory>::flag_step(
            s,
            Status { carry: false, ..s.status },
        ),
        CPU::<ArrayMemory>::execute(s, Instruction::SEC) == CPU::<ArrayMemory>::flag_step(
            s,
            Status { carry: true, ..s.status },
        ),
        CPU::<ArrayMemory>::execute(s, Instruction::CLD) == CPU::<ArrayMemory>::flag_step(
            s,
            Status { decimal: false, ..s.status },
        ),
        CPU::<ArrayMemory>::execute(s, Instruction::SED) == CPU::<ArrayMemory>::flag_step(
            s,
            Status { decimal: true, ..s.status },
        ),
        CPU::<ArrayMemory>::execute(s, Instruction::CLI) == CPU::<ArrayMemory>::flag_step(
            s,
            Status { interrupt_disable: false, ..s.status },
        ),
        CPU::<ArrayMemory>::execute(s, Instruction::SEI) == CPU::<ArrayMemory>::flag_step(
            s,
            Status { interrupt_disable: true, ..s.status },
        ),
        CPU::<ArrayMemory>::execute(s, Instruction::CLV) == CPU::<ArrayMemory>::flag_step(
            s,
            Status { overflow: false, ..s.status },
        ),
{
    reveal(CPU::execute);
}

/// The register transfers and flag instructions, each one byte long. TAX (0xaa), TAY (0xa8),
/// TXA (0x8a), TYA (0x98) and TSX (0xba) copy one register into another and set Z and N
/// from the value copied; TXS (0x9a) copies X into the stack pointer and changes no flag.
/// CLC (0x18), SEC (0x38), CLD (0xd8), SED (0xf8), CLI (0x58), SEI (0x78) and CLV (0xb8)
/// clear or set one flag. Nothing else changes.
pub proof fn lemma_transfers_and_flags(s: CpuModel<Seq<u8>>)
    requires
        plain_run(s),
    ensures
        ({
            let t = run_one(s);
            let (a, x, y, sp, pc) = (s.accumulator, s.x, s.y, s.stack_pointer, s.program_counter
                + 1);
            let op = s.memory[s.program_counter as int];
            &&& op == 0xaa ==> registers_are(s, t, a, a, y, sp, zn(s, a), pc)
            &&& op == 0xa8 ==> registers_are(s, t, a, x, a, sp, zn(s, a), pc)
            &&& op == 0x8a ==> registers_are(s, t, x, x, y, sp, zn(s, x), pc)
            &&& op == 0x98 ==> registers_are(s, t, y, x, y, sp, zn(s, y), pc)
            &&& op == 0xba ==> registers_are(s, t, a, sp, y, sp, zn(s, sp), pc)
            &&& op == 0x9a ==> registers_are(s, t, a, x, y, x, s.status, pc)
            &&& op == 0x18 ==> registers_are(s, t, a, x, y, sp, Status { carry: false, ..s.status }, pc)
            &&& op == 0x38 ==> registers_are(s, t, a, x, y, sp, Status { carry: true, ..s.status }, pc)
            &&& op == 0xd8 ==> registers_are(s, t, a, x, y, sp, Status { decimal: false, ..s.status }, pc)
            &&& op == 0xf8 ==> registers_are(s, t, a, x, y, sp, Status { decimal: true, ..s.status }, pc)
            &&& op == 0x58 ==> registers_are(
                s,
                t,
                a,
                x,
                y,
                sp,
                Status { interrupt_disable: false, ..s.status },
                pc,
            )
            &&& op == 0x78 ==> registers_are(
                s,
                t,
                a,
                x,
                y,
                sp,
                Status { interrupt_disable: true, ..s.status },
                pc,
            )
            &&& op == 0xb8 ==> registers_are(s, t, a, x, y, sp, Status { overflow: false, ..s.status }, pc)
        }),
{
    let (f, op) = CPU::<ArrayMemory>::fetch_step(CpuModel { cycle_count: 0, ..s });
    lemma_execute_transfers(f);
    assert(decode(0xaa) == Some(Instruction::TAX));
    assert(decode(0xa8) == Some(Instruction::TAY));
    assert(decode(0x8a) == Some(Instruction::TXA));
    assert(decode(0x98) == Some(Instruction::TYA));
    assert(decode(0xba) == Some(Instruction::TSX));
    assert(decode(0x9a) == Some(Instruction::TXS));
    assert(decode(0x18) == Some(Instruction::CLC));
    assert(decode(0x38) == Some(Instruction::SEC));
    assert(decode(0xd8) == Some(Instruction::CLD));
    assert(decode(0xf8) == Some(Instruction::SED));
    assert(decode(0x58) == Some(Instruction::CLI));
    assert(decode(0x78) == Some(Instruction::SEI));
    assert(decode(0xb8) == Some(Instruction::CLV));
}

proof fn lemma_execute_branches(s: CpuModel<Seq<u8>>)
    ensures
        CPU::<ArrayMemory>::execute(s, Instruction::BCC) == CPU::<ArrayMemory>::branch_step(s, !s.status.carry),
        CPU::<ArrayMemory>::execute(s, Instruction::BCS) == CPU::<ArrayMemory>::branch_step(s, s.status.carry),
        CPU::<ArrayMemory>::execute(s, Instruction::BEQ) == CPU::<ArrayMemory>::branch_step(s, s.status.zero),
        CPU::<ArrayMemory>::execute(s, Instruction::BNE) == CPU::<ArrayMemory>::branch_step(s, !s.status.zero),
        CPU::<ArrayMemory>::execute(s, Instruction::BMI) == CPU::<ArrayMemory>::branch_step(s, s.status.negative),
        CPU::<ArrayMemory>::execute(s, Instruction::BPL) == CPU::<ArrayMemory>::branch_step(s, !s.status.negative),
        CPU::<ArrayMemory>::execute(s, Instruction::BVS) == CPU::<ArrayMemory>::branch_step(s, s.status.overflow),
        CPU::<ArrayMemory>::execute(s, Instruction::BVC) == CPU::<ArrayMemory>::branch_step(s, !s.status.overflow),
{
    reveal(CPU::execute);
}

/// Where a branch lands: `offset` bytes (a signed byte) past the end of the two-byte
/// instruction when `taken`, and the end of the instruction otherwise.
pub open spec fn branch_lands(s: CpuModel<Seq<u8>>, t: CpuModel<Seq<u8>>, taken: bool) -> bool {
    let offset = s.memory[((s.program_counter + 1) % 65536) as int];
    let signed_offset: int = if offset >= 128 {
        offset - 256
    } else {
        offset as int
    };
    &&& t.program_counter == (if taken {
        (s.program_counter + 2 + signed_offset) % 65536
    } else {
        (s.program_counter + 2) % 65536
    })
    &&& t.accumulator == s.accumulator
    &&& t.x == s.x
    &&& t.y == s.y
    &&& t.stack_pointer == s.stack_pointer
    &&& t.status == s.status
    &&& t.memory == s.memory
}

/// The branches: BCC (0x90) and BCS (0xb0) test carry, BNE (0xd0) and BEQ (0xf0) zero, BPL
/// (0x10) and BMI (0x30) negative, BVC (0x50) and BVS (0x70) overflow; the first of each pair
/// is taken when the flag is clear, the second when it is set. Nothing but PC changes.
pub proof fn lemma_branches(s: CpuModel<Seq<u8>>)
    requires
        plain_run(s),
    ensures
        ({
            let t = run_one(s);
            let op = s.memory[s.program_counter as int];
            &&& op == 0x90 ==> branch_lands(s, t, !s.status.carry)
            &&& op == 0xb0 ==> branch_lands(s, t, s.status.carry)
            &&& op == 0xd0 ==> branch_lands(s, t, !s.status.zero)
            &&& op == 0xf0 ==> branch_lands(s, t, s.status.zero)
            &&& op == 0x10 ==> branch_lands(s, t, !s.status.negative)
            &&& op == 0x30 ==> branch_lands(s, t, s.status.negative)
            &&& op == 0x50 ==> branch_lands(s, t, !s.status.overflow)
            &&& op == 0x70 ==> branch_lands(s, t, s.status.overflow)
        }),
{
    let (f, op) = CPU::<ArrayMemory>::fetch_step(CpuModel { cycle_count: 0, ..s });
    lemma_execute_branches(f);
    assert(decode(0x90) == Some(Instruction::BCC));
    assert(decode(0xb0) == Some(Instruction::BCS));
    assert(decode(0xd0) == Some(Instruction::BNE));
    assert(decode(0xf0) == Some(Instruction::BEQ));
    assert(decode(0x10) == Some(Instruction::BPL));
    assert(decode(0x30) == Some(Instruction::BMI));
    assert(decode(0x50) == Some(Instruction::BVC));
    assert(decode(0x70) == Some(Instruction::BVS));
}


/// The byte after the opcode.
pub open spec fn operand(s: CpuModel<Seq<u8>>) -> u8 {
    s.memory[((s.program_counter + 1) % 65536) as int]
}

proof fn lemma_execute_lda_immediate(s: CpuModel<Seq<u8>>)
    ensures
        CPU::<ArrayMemory>::execute(s, Instruction::LDA(FlexibleAddressingMode::Immediate)) == ({
            let (s1, v) = CPU::<ArrayMemory>::load_step(s, AddressingMode::Immediate);
            CPU::<ArrayMemory>::set_accumulator_step(s1, v)
        }),
{
    reveal(CPU::execute);
}

proof fn lemma_execute_ldx_immediate(s: CpuModel<Seq<u8>>)
    ensures
        CPU::<ArrayMemory>::execute(s, Instruction::LDX(LDXAddressingMode::Immediate)) == ({
            let (s1, v) = CPU::<ArrayMemory>::load_step(s, AddressingMode::Immediate);
            CPU::<ArrayMemory>::set_reference_step(s1, Reference::X, v, true)
        }),
{
    reveal(CPU::execute);
}

proof fn lemma_execute_ldy_immediate(s: CpuModel<Seq<u8>>)
    ensures
        CPU::<ArrayMemory>::execute(s, Instruction::LDY(LDYAddressingMode::Immediate)) == ({
            let (s1, v) = CPU::<ArrayMemory>::load_step(s, AddressingMode::Immediate);
            CPU::<ArrayMemory>::set_reference_step(s1, Reference::Y, v, true)
        }),
{
    reveal(CPU::execute);
}

proof fn lemma_execute_and_immediate(s: CpuModel<Seq<u8>>)
    ensures
        CPU::<ArrayMemory>::execute(s, Instruction::AND(FlexibleAddressingMode::Immediate)) == ({
            let (s1, v) = CPU::<ArrayMemory>::load_step(s, AddressingMode::Immediate);
            CPU::<ArrayMemory>::set_accumulator_step(s1, s1.accumulator & v)
        }),
{
    reveal(CPU::execute);
}

proof fn lemma_execute_eor_immediate(s: CpuModel<Seq<u8>>)
    ensures
        CPU::<ArrayMemory>::execute(s, Instruction::EOR(FlexibleAddressingMode::Immediate)) == ({
            let (s1, v) = CPU::<ArrayMemory>::load_step(s, AddressingMode::Immediate);
            CPU::<ArrayMemory>::set_accumulator_step(s1, s1.accumulator ^ v)
        }),
{
    reveal(CPU::execute);
}

proof fn lemma_execute_ora_immediate(s: CpuModel<Seq<u8>>)
    ensures
        CPU::<ArrayMemory>::execute(s, Instruction::ORA(FlexibleAddressingMode::Immediate)) == ({
            let (s1, v) = CPU::<ArrayMemory>::load_step(s, AddressingMode::Immediate);
            CPU::<ArrayMemory>::set_accumulator_step(s1, s1.accumulator | v)
        }),
{
    reveal(CPU::execute);
}

proof fn lemma_execute_adc_immediate(s: CpuModel<Seq<u8>>)
    ensures
        CPU::<ArrayMemory>::execute(s, Instruction::ADC(FlexibleAddressingMode::Immediate)) == ({
            let (s1, v) = CPU::<ArrayMemory>::load_step(s, AddressingMode::Immediate);
            CPU::<ArrayMemory>::add_step(s1, v)
        }),
{
    reveal(CPU::execute);
}

proof fn lemma_execute_sbc_immediate(s: CpuModel<Seq<u8>>)
    ensures
        CPU::<ArrayMemory>::execute(s, Instruction::SBC(FlexibleAddressingMode::Immediate)) == ({
            let (s1, v) = CPU::<ArrayMemory>::load_step(s, AddressingMode::Immediate);
            CPU::<ArrayMemory>::add_step(s1, (255 - v) as u8)
        }),
{
    reveal(CPU::execute);
}

proof fn lemma_execute_compare_a_immediate(s: CpuModel<Seq<u8>>)
    ensures
        CPU::<ArrayMemory>::execute(s, Instruction::CMP(FlexibleAddressingMode::Immediate)) == ({
            let (s1, v) = CPU::<ArrayMemory>::load_step(s, AddressingMode::Immediate);
            CPU::<ArrayMemory>::compare_step(s1, s1.accumulator, v)
        }),
{
    reveal(CPU::execute);
}

proof fn lemma_execute_cpx_immediate(s: CpuModel<Seq<u8>>)
    ensures
        CPU::<ArrayMemory>::execute(s, Instruction::CPX(CompareAddressingMode::Immediate)) == ({
            let (s1, v) = CPU::<ArrayMemory>::load_step(s, AddressingMode::Immediate);
            CPU::<ArrayMemory>::compare_step(s1, s1.x, v)
        }),
{
    reveal(CPU::execute);
}

proof fn lemma_execute_cpy_immediate(s: CpuModel<Seq<u8>>)
    ensures
        CPU::<ArrayMemory>::execute(s, Instruction::CPY(CompareAddressingMode::Immediate)) == ({
            let (s1, v) = CPU::<ArrayMemory>::load_step(s, AddressingMode::Immediate);
            CPU::<ArrayMemory>::compare_step(s1, s1.y, v)
        }),
{
    reveal(CPU::execute);
}


/// An immediate operand: the fetch after the opcode reads the next byte and moves PC past it.
proof fn lemma_immediate_operand(s: CpuModel<Seq<u8>>)
    requires
        plain_run(s),
    ensures
        ({
            let (f, op) = CPU::<ArrayMemory>::fetch_step(CpuModel { cycle_count: 0, ..s });
            let (f2, v) = CPU::<ArrayMemory>::load_step(f, AddressingMode::Immediate);
            &&& op == s.memory[s.program_counter as int]
            &&& v == operand(s)
            &&& f2.program_counter == (s.program_counter + 2) % 65536
            &&& f2.memory == s.memory
            &&& f2.accumulator == s.accumulator
            &&& f2.x == s.x
            &&& f2.y == s.y
            &&& f2.stack_pointer == s.stack_pointer
            &&& f2.status == s.status
            &&& !f2.non_maskable_interrupt
            &&& !f.non_maskable_interrupt
        }),
{
}

/// The flags of `s` after comparing `register` with `v`: C when the register is not below
/// `v`, Z when they are equal, N from bit 7 of their difference.
pub open spec fn compared(s: CpuModel<Seq<u8>>, register: u8, v: u8) -> Status {
    Status {
        carry: register >= v,
        zero: register == v,
        negative: (register - v + 256) % 256 >= 128,
        ..s.status
    }
}

/// The value of a byte as a two's complement number.
pub open spec fn as_signed(b: u8) -> int {
    if b >= 128 {
        b - 256
    } else {
        b as int
    }
}

/// The loads, logic and compares with an immediate operand (two bytes long): LDA (0xa9), LDX
/// (0xa2) and LDY (0xa0) load the operand; AND (0x29), ORA (0x09) and EOR (0x49) combine it
/// with A bit by bit; CMP (0xc9), CPX (0xe0) and CPY (0xc0) compare A, X or Y with it and
/// change only C, Z and N. Z and N describe the value loaded or computed.
#[verifier::spinoff_prover]
#[verifier::rlimit(80)]
pub proof fn lemma_immediate_loads_logic_compares(s: CpuModel<Seq<u8>>)
    requires
        plain_run(s),
    ensures
        ({
            let t = run_one(s);
            let (a, x, y, sp, pc) = (s.accumulator, s.x, s.y, s.stack_pointer, s.program_counter
                + 2);
            let v = operand(s);
            let op = s.memory[s.program_counter as int];
            &&& op == 0xa9 ==> registers_are(s, t, v, x, y, sp, zn(s, v), pc)
            &&& op == 0xa2 ==> registers_are(s, t, a, v, y, sp, zn(s, v), pc)
            &&& op == 0xa0 ==> registers_are(s, t, a, x, v, sp, zn(s, v), pc)
            &&& op == 0x29 ==> registers_are(s, t, a & v, x, y, sp, zn(s, a & v), pc)
            &&& op == 0x09 ==> registers_are(s, t, a | v, x, y, sp, zn(s, a | v), pc)
            &&& op == 0x49 ==> registers_are(s, t, a ^ v, x, y, sp, zn(s, a ^ v), pc)
            &&& op == 0xc9 ==> registers_are(s, t, a, x, y, sp, compared(s, a, v), pc)
            &&& op == 0xe0 ==> registers_are(s, t, a, x, y, sp, compared(s, x, v), pc)
            &&& op == 0xc0 ==> registers_are(s, t, a, x, y, sp, compared(s, y, v), pc)
        }),
{
    let (f, op) = CPU::<ArrayMemory>::fetch_step(CpuModel { cycle_count: 0, ..s });
    lemma_immediate_operand(s);
    let t = run_one(s);
    if op == 0xa9 {
        assert(decode(0xa9) == Some(Instruction::LDA(FlexibleAddressingMode::Immediate)));
        lemma_execute_lda_immediate(f);
    } else if op == 0xa2 {
        assert(decode(0xa2) == Some(Instruction::LDX(LDXAddressingMode::Immediate)));
        lemma_execute_ldx_immediate(f);
    } else if op == 0xa0 {
        assert(decode(0xa0) == Some(Instruction::LDY(LDYAddressingMode::Immediate)));
        lemma_execute_ldy_immediate(f);
    } else if op == 0x29 {
        assert(decode(0x29) == Some(Instruction::AND(FlexibleAddressingMode::Immediate)));
        lemma_execute_and_immediate(f);
    } else if op == 0x09 {
        assert(decode(0x09) == Some(Instruction::ORA(FlexibleAddressingMode::Immediate)));
        lemma_execute_ora_immediate(f);
    } else if op == 0x49 {
        assert(decode(0x49) == Some(Instruction::EOR(FlexibleAddressingMode::Immediate)));
        lemma_execute_eor_immediate(f);
    } else if op == 0xc9 {
        assert(decode(0xc9) == Some(Instruction::CMP(FlexibleAddressingMode::Immediate)));
        lemma_execute_compare_a_immediate(f);
    } else if op == 0xe0 {
        assert(decode(0xe0) == Some(Instruction::CPX(CompareAddressingMode::Immediate)));
        lemma_execute_cpx_immediate(f);
    } else if op == 0xc0 {
        assert(decode(0xc0) == Some(Instruction::CPY(CompareAddressingMode::Immediate)));
        lemma_execute_cpy_immediate(f);
    }
}

/// ADC (0x69) and SBC (0xe9) with an immediate operand: ADC adds the operand and the carry
/// to A; SBC subtracts the operand and the borrow (the clear carry) from A. A keeps the low
/// byte; C is set when the unsigned sum reaches 256 (for SBC: when no borrow is needed); V
/// when the signed result leaves -128..127; Z and N describe the new A.
#[verifier::spinoff_prover]
#[verifier::rlimit(80)]
pub proof fn lemma_immediate_add_and_subtract(s: CpuModel<Seq<u8>>)
    requires
        plain_run(s),
    ensures
        ({
            let t = run_one(s);
            let a = s.accumulator;
            let v = operand(s);
            let c: int = if s.status.carry {
                1
            } else {
                0
            };
            let op = s.memory[s.program_counter as int];
            let sum = a + v + c;
            let difference = a - v - (1 - c);
            let signed_sum = as_signed(a) + as_signed(v) + c;
            let signed_difference = as_signed(a) - as_signed(v) - (1 - c);
            &&& op == 0x69 ==> t.accumulator == sum % 256 && t.status.carry == (sum >= 256)
                && t.status.overflow == !(-128 <= signed_sum <= 127) && t.status.zero == (sum
                % 256 == 0) && t.status.negative == (sum % 256 >= 128) && t.x == s.x && t.y
                == s.y && t.memory == s.memory && t.program_counter == (s.program_counter + 2)
                % 65536
            &&& op == 0xe9 ==> t.accumulator == (difference + 256) % 256 && t.status.carry == (
            difference >= 0) && t.status.overflow == !(-128 <= signed_difference <= 127)
                && t.status.zero == ((difference + 256) % 256 == 0) && t.status.negative == ((
            difference + 256) % 256 >= 128) && t.x == s.x && t.y == s.y && t.memory == s.memory
                && t.program_counter == (s.program_counter + 2) % 65536
        }),
{
    let (f, op) = CPU::<ArrayMemory>::fetch_step(CpuModel { cycle_count: 0, ..s });
    lemma_immediate_operand(s);
    let (f2, v) = CPU::<ArrayMemory>::load_step(f, AddressingMode::Immediate);
    if op == 0x69 {
        assert(decode(0x69) == Some(Instruction::ADC(FlexibleAddressingMode::Immediate)));
        lemma_execute_adc_immediate(f);
        assert(run_one(s) == CPU::<ArrayMemory>::add_step(f2, v));
    } else if op == 0xe9 {
        assert(decode(0xe9) == Some(Instruction::SBC(FlexibleAddressingMode::Immediate)));
        lemma_execute_sbc_immediate(f);
        assert(run_one(s) == CPU::<ArrayMemory>::add_step(f2, (255 - v) as u8));
    }
}


proof fn lemma_execute_accumulator_shifts(s: CpuModel<Seq<u8>>)
    ensures
        CPU::<ArrayMemory>::execute(s, Instruction::ASL(ShiftAddressingMode::Accumulator))
            == CPU::<ArrayMemory>::shift_step(s, AddressingMode::Accumulator, ShiftOp::ASL).0,
        CPU::<ArrayMemory>::execute(s, Instruction::LSR(ShiftAddressingMode::Accumulator))
            == CPU::<ArrayMemory>::shift_step(s, AddressingMode::Accumulator, ShiftOp::LSR).0,
        CPU::<ArrayMemory>::execute(s, Instruction::ROL(ShiftAddressingMode::Accumulator))
            == CPU::<ArrayMemory>::shift_step(s, AddressingMode::Accumulator, ShiftOp::ROL).0,
        CPU::<ArrayMemory>::execute(s, Instruction::ROR(ShiftAddressingMode::Accumulator))
            == CPU::<ArrayMemory>::shift_step(s, AddressingMode::Accumulator, ShiftOp::ROR).0,
{
    reveal(CPU::execute);
}

/// The shifts and rotates of A (one byte long): ASL (0x0a) doubles A, LSR (0x4a) halves it,
/// ROL (0x2a) doubles it and adds the old carry, ROR (0x6a) halves it and puts the old carry
/// in bit 7. C takes the bit shifted out (bit 7 for ASL and ROL, bit 0 for LSR and ROR); Z
/// and N describe the new A; nothing else changes.
#[verifier::spinoff_prover]
#[verifier::rlimit(80)]
pub proof fn lemma_accumulator_shifts(s: CpuModel<Seq<u8>>)
    requires
        plain_run(s),
    ensures
        ({
            let t = run_one(s);
            let a = s.accumulator;
            let c: int = if s.status.carry {
                1
            } else {
                0
            };
            let op = s.memory[s.program_counter as int];
            let (x, y, sp, pc) = (s.x, s.y, s.stack_pointer, s.program_counter + 1);
            let asl = ((a * 2) % 256) as u8;
            let lsr = (a / 2) as u8;
            let rol = ((a * 2) % 256 + c) as u8;
            let ror = (a / 2 + 128 * c) as u8;
            &&& op == 0x0a ==> registers_are(s, t, asl, x, y, sp, Status { carry: a >= 128, ..zn(s, asl) }, pc)
            &&& op == 0x4a ==> registers_are(s, t, lsr, x, y, sp, Status { carry: a % 2 == 1, ..zn(s, lsr) }, pc)
            &&& op == 0x2a ==> registers_are(s, t, rol, x, y, sp, Status { carry: a >= 128, ..zn(s, rol) }, pc)
            &&& op == 0x6a ==> registers_are(s, t, ror, x, y, sp, Status { carry: a % 2 == 1, ..zn(s, ror) }, pc)
        }),
{
    let (f, op) = CPU::<ArrayMemory>::fetch_step(CpuModel { cycle_count: 0, ..s });
    lemma_execute_accumulator_shifts(f);
    if op == 0x0a {
        assert(decode(0x0a) == Some(Instruction::ASL(ShiftAddressingMode::Accumulator)));
    } else if op == 0x4a {
        assert(decode(0x4a) == Some(Instruction::LSR(ShiftAddressingMode::Accumulator)));
    } else if op == 0x2a {
        assert(decode(0x2a) == Some(Instruction::ROL(ShiftAddressingMode::Accumulator)));
    } else if op == 0x6a {
        assert(decode(0x6a) == Some(Instruction::ROR(ShiftAddressingMode::Accumulator)));
    }
}

} // verus!

use vstd::prelude::*;

use super::addressing_modes::{BITAddressingMode, CompareAddressingMode, FlexibleAddressingMode, IncDecAddressingMode, JumpAddressingMode, LAXAddressingMode, LDXAddressingMode, LDYAddressingMode, SAXAddressingMode, STXAddressingMode, STYAddressingMode, ShiftAddressingMode, StoreAddressingMode};

verus! {

/// A decoded 6502 instruction together with its addressing mode.
#[derive(Copy, Clone, PartialEq, Eq, Structural, Debug)]
pub enum Instruction {
    /// Load Accumulator: A,Z,N = M
    LDA(FlexibleAddressingMode),
    /// Load X Register: X,Z,N = M
    LDX(LDXAddressingMode),
    /// Load Y Register: Y,Z,N = M
    LDY(LDYAddressingMode),
    /// Store Accumulator: M = A
    STA(StoreAddressingMode),
    /// Store X Register: M = X
    STX(STXAddressingMode),
    /// Store Y Register: M = Y
    STY(STYAddressingMode),
    /// Transfer Accumulator to X: X,Z,N = A
    TAX,
    /// Transfer Accumulator to Y: Y,Z,N = A
    TAY,
    /// Transfer X to Accumulator: A,Z,N = X
    TXA,
    /// Transfer Y to Accumulator: A,Z,N = Y
    TYA,
    /// Transfer Stack Pointer to X: X,Z,N = S
    TSX,
    /// Transfer X to Stack Pointer: S = X (no flags change)
    TXS,
    /// Push Accumulator onto the stack
    PHA,
    /// Push Processor Status onto the stack, with B and the unused bit set
    PHP,
    /// Pull Accumulator from the stack: A,Z,N = pulled byte
    PLA,
    /// Pull Processor Status from the stack
    PLP,
    /// Logical AND: A,Z,N = A&M
    AND(FlexibleAddressingMode),
    /// Exclusive OR: A,Z,N = A^M
    EOR(FlexibleAddressingMode),
    /// Logical Inclusive OR: A,Z,N = A|M
    ORA(FlexibleAddressingMode),
    /// Bit Test: Z = (A&M == 0), V = M6, N = M7
    BIT(BITAddressingMode),
    /// Add With Carry: A,Z,C,N,V = A+M+C
    ADC(FlexibleAddressingMode),
    /// Subtract With Carry: A,Z,C,N,V = A-M-(1-C)
    SBC(FlexibleAddressingMode),
    /// Compare Accumulator: Z,C,N = A-M
    CMP(FlexibleAddressingMode),
    /// Compare X Register: Z,C,N = X-M
    CPX(CompareAddressingMode),
    /// Compare Y Register: Z,C,N = Y-M
    CPY(CompareAddressingMode),
    /// Increment Memory: M,Z,N = M+1
    INC(IncDecAddressingMode),
    /// Increment X Register: X,Z,N = X+1
    INX,
    /// Increment Y Register: Y,Z,N = Y+1
    INY,
    /// Decrement Memory: M,Z,N = M-1
    DEC(IncDecAddressingMode),
    /// Decrement X Register: X,Z,N = X-1
    DEX,
    /// Decrement Y Register: Y,Z,N = Y-1
    DEY,
    /// Arithmetic Shift Left: bit 7 goes to C, bit 0 becomes 0
    ASL(ShiftAddressingMode),
    /// Logical Shift Right: bit 0 goes to C, bit 7 becomes 0
    LSR(ShiftAddressingMode),
    /// Rotate Left: C goes into bit 0, bit 7 goes to C
    ROL(ShiftAddressingMode),
    /// Rotate Right: C goes into bit 7, bit 0 goes to C
    ROR(ShiftAddressingMode),
    /// Jump: PC = address
    JMP(JumpAddressingMode),
    /// Jump to Subroutine: push the address of its own last byte, then PC = address
    JSR,
    /// Return from Subroutine: pull PC, then add one
    RTS,
    /// Branch if Carry Clear
    BCC,
    /// Branch if Carry Set
    BCS,
    /// Branch if Equal (Z set)
    BEQ,
    /// Branch if Minus (N set)
    BMI,
    /// Branch if Not Equal (Z clear)
    BNE,
    /// Branch if Positive (N clear)
    BPL,
    /// Branch if Overflow Clear
    BVC,
    /// Branch if Overflow Set
    BVS,
    /// Clear Carry Flag
    CLC,
    /// Clear Decimal Mode
    CLD,
    /// Clear Interrupt Disable
    CLI,
    /// Clear Overflow Flag
    CLV,
    /// Set Carry Flag
    SEC,
    /// Set Decimal Flag
    SED,
    /// Set Interrupt Disable
    SEI,
    /// Force Interrupt: push PC and status (B set), then jump through the vector at $FFFE
    BRK,
    /// No Operation
    NOP,
    /// Return from Interrupt: pull status, then PC
    RTI,
    /// Unofficial: read an operand and ignore it
    IGN(IncDecAddressingMode),
    /// Unofficial: skip the next byte
    SKB,
    /// Unofficial: load A and X with M
    LAX(LAXAddressingMode),
    /// Unofficial: M = A & X, no flags change
    SAX(SAXAddressingMode),
    /// Unofficial: DEC then CMP on the same operand
    DCP(StoreAddressingMode),
    /// Unofficial: INC then SBC on the same operand
    ISC(StoreAddressingMode),
    /// Unofficial: ASL then ORA on the same operand
    SLO(StoreAddressingMode),
    /// Unofficial: ROL then AND on the same operand
    RLA(StoreAddressingMode),
    /// Unofficial: LSR then EOR on the same operand
    SRE(StoreAddressingMode),
    /// Unofficial: ROR then ADC on the same operand
    RRA(StoreAddressingMode),
}

/// The instruction an opcode stands for; `None` for opcodes this CPU does not know.
pub open spec fn decode(opcode: u8) -> Option<Instruction> {
    match opcode {
        0x00 => Some(Instruction::BRK),
        0x01 => Some(Instruction::ORA(FlexibleAddressingMode::IndexedIndirect)),
        0x03 => Some(Instruction::SLO(StoreAddressingMode::IndexedIndirect)),
        0x04 => Some(Instruction::IGN(IncDecAddressingMode::ZeroPage)),
        0x05 => Some(Instruction::ORA(FlexibleAddressingMode::ZeroPage)),
        0x06 => Some(Instruction::ASL(ShiftAddressingMode::ZeroPage)),
        0x07 => Some(Instruction::SLO(StoreAddressingMode::ZeroPage)),
        0x08 => Some(Instruction::PHP),
        0x09 => Some(Instruction::ORA(FlexibleAddressingMode::Immediate)),
        0x0A => Some(Instruction::ASL(ShiftAddressingMode::Accumulator)),
        0x0C => Some(Instruction::IGN(IncDecAddressingMode::Absolute)),
        0x0D => Some(Instruction::ORA(FlexibleAddressingMode::Absolute)),
        0x0E => Some(Instruction::ASL(ShiftAddressingMode::Absolute)),
        0x0F => Some(Instruction::SLO(StoreAddressingMode::Absolute)),
        0x10 => Some(Instruction::BPL),
        0x11 => Some(Instruction::ORA(FlexibleAddressingMode::IndirectIndexed)),
        0x13 => Some(Instruction::SLO(StoreAddressingMode::IndirectIndexed)),
        0x15 => Some(Instruction::ORA(FlexibleAddressingMode::ZeroPageX)),
        0x14 => Some(Instruction::IGN(IncDecAddressingMode::ZeroPageX)),
        0x16 => Some(Instruction::ASL(ShiftAddressingMode::ZeroPageX)),
        0x17 => Some(Instruction::SLO(StoreAddressingMode::ZeroPageX)),
        0x18 => Some(Instruction::CLC),
        0x19 => Some(Instruction::ORA(FlexibleAddressingMode::AbsoluteY)),
        0x1A => Some(Instruction::NOP),
        0x1B => Some(Instruction::SLO(StoreAddressingMode::AbsoluteY)),
        0x1C => Some(Instruction::IGN(IncDecAddressingMode::AbsoluteX)),
        0x1D => Some(Instruction::ORA(FlexibleAddressingMode::AbsoluteX)),
        0x1E => Some(Instruction::ASL(ShiftAddressingMode::AbsoluteX)),
        0x1F => Some(Instruction::SLO(StoreAddressingMode::AbsoluteX)),
        0x20 => Some(Instruction::JSR),
        0x21 => Some(Instruction::AND(FlexibleAddressingMode::IndexedIndirect)),
        0x23 => Some(Instruction::RLA(StoreAddressingMode::IndexedIndirect)),
        0x24 => Some(Instruction::BIT(BITAddressingMode::ZeroPage)),
        0x25 => Some(Instruction::AND(FlexibleAddressingMode::ZeroPage)),
        0x26 => Some(Instruction::ROL(ShiftAddressingMode::ZeroPage)),
        0x27 => Some(Instruction::RLA(StoreAddressingMode::ZeroPage)),
        0x28 => Some(Instruction::PLP),
        0x29 => Some(Instruction::AND(FlexibleAddressingMode::Immediate)),
        0x2A => Some(Instruction::ROL(ShiftAddressingMode::Accumulator)),
        0x2C => Some(Instruction::BIT(BITAddressingMode::Absolute)),
        0x2D => Some(Instruction::AND(FlexibleAddressingMode::Absolute)),
        0x2E => Some(Instruction::ROL(ShiftAddressingMode::Absolute)),
        0x2F => Some(Instruction::RLA(StoreAddressingMode::Absolute)),
        0x30 => Some(Instruction::BMI),
        0x31 => Some(Instruction::AND(FlexibleAddressingMode::IndirectIndexed)),
        0x33 => Some(Instruction::RLA(StoreAddressingMode::IndirectIndexed)),
        0x34 => Some(Instruction::IGN(IncDecAddressingMode::ZeroPageX)),
        0x35 => Some(Instruction::AND(FlexibleAddressingMode::ZeroPageX)),
        0x36 => Some(Instruction::ROL(ShiftAddressingMode::ZeroPageX)),
        0x37 => Some(Instruction::RLA(StoreAddressingMode::ZeroPageX)),
        0x38 => Some(Instruction::SEC),
        0x39 => Some(Instruction::AND(FlexibleAddressingMode::AbsoluteY)),
        0x3A => Some(Instruction::NOP),
        0x3B => Some(Instruction::RLA(StoreAddressingMode::AbsoluteY)),
        0x3C => Some(Instruction::IGN(IncDecAddressingMode::AbsoluteX)),
        0x3D => Some(Instruction::AND(FlexibleAddressingMode::AbsoluteX)),
        0x3E => Some(Instruction::ROL(ShiftAddressingMode::AbsoluteX)),
        0x3F => Some(Instruction::RLA(StoreAddressingMode::AbsoluteX)),
        0x40 => Some(Instruction::RTI),
        0x41 => Some(Instruction::EOR(FlexibleAddressingMode::IndexedIndirect)),
        0x43 => Some(Instruction::SRE(StoreAddressingMode::IndexedIndirect)),
        0x44 => Some(Instruction::IGN(IncDecAddressingMode::ZeroPage)),
        0x45 => Some(Instruction::EOR(FlexibleAddressingMode::ZeroPage)),
        0x46 => Some(Instruction::LSR(ShiftAddressingMode::ZeroPage)),
        0x47 => Some(Instruction::SRE(StoreAddressingMode::ZeroPage)),
        0x48 => Some(Instruction::PHA),
        0x49 => Some(Instruction::EOR(FlexibleAddressingMode::Immediate)),
        0x4A => Some(Instruction::LSR(ShiftAddressingMode::Accumulator)),
        0x4C => Some(Instruction::JMP(JumpAddressingMode::Absolute)),
        0x4D => Some(Instruction::EOR(FlexibleAddressingMode::Absolute)),
        0x4E => Some(Instruction::LSR(ShiftAddressingMode::Absolute)),
        0x4F => Some(Instruction::SRE(StoreAddressingMode::Absolute)),
        0x50 => Some(Instruction::BVC),
        0x51 => Some(Instruction::EOR(FlexibleAddressingMode::IndirectIndexed)),
        0x53 => Some(Instruction::SRE(StoreAddressingMode::IndirectIndexed)),
        0x54 => Some(Instruction::IGN(IncDecAddressingMode::ZeroPageX)),
        0x55 => Some(Instruction::EOR(FlexibleAddressingMode::ZeroPageX)),
        0x56 => Some(Instruction::LSR(ShiftAddressingMode::ZeroPageX)),
        0x57 => Some(Instruction::SRE(StoreAddressingMode::ZeroPageX)),
        0x58 => Some(Instruction::CLI),
        0x59 => Some(Instruction::EOR(FlexibleAddressingMode::AbsoluteY)),
        0x5A => Some(Instruction::NOP),
        0x5B => Some(Instruction::SRE(StoreAddressingMode::AbsoluteY)),
        0x5C => Some(Instruction::IGN(IncDecAddressingMode::AbsoluteX)),
        0x5D => Some(Instruction::EOR(FlexibleAddressingMode::AbsoluteX)),
        0x5E => Some(Instruction::LSR(ShiftAddressingMode::AbsoluteX)),
        0x5F => Some(Instruction::SRE(StoreAddressingMode::AbsoluteX)),
        0x60 => Some(Instruction::RTS),
        0x61 => Some(Instruction::ADC(FlexibleAddressingMode::IndexedIndirect)),
        0x63 => Some(Instruction::RRA(StoreAddressingMode::IndexedIndirect)),
        0x64 => Some(Instruction::IGN(IncDecAddressingMode::ZeroPage)),
        0x65 => Some(Instruction::ADC(FlexibleAddressingMode::ZeroPage)),
        0x66 => Some(Instruction::ROR(ShiftAddressingMode::ZeroPage)),
        0x67 => Some(Instruction::RRA(StoreAddressingMode::ZeroPage)),
        0x68 => Some(Instruction::PLA),
        0x69 => Some(Instruction::ADC(FlexibleAddressingMode::Immediate)),
        0x6A => Some(Instruction::ROR(ShiftAddressingMode::Accumulator)),
        0x6C => Some(Instruction::JMP(JumpAddressingMode::Indirect)),
        0x6D => Some(Instruction::ADC(FlexibleAddressingMode::Absolute)),
        0x6E => Some(Instruction::ROR(ShiftAddressingMode::Absolute)),
        0x6F => Some(Instruction::RRA(StoreAddressingMode::Absolute)),
        0x70 => Some(Instruction::BVS),
        0x71 => Some(Instruction::ADC(FlexibleAddressingMode::IndirectIndexed)),
        0x73 => Some(Instruction::RRA(StoreAddressingMode::IndirectIndexed)),
        0x74 => Some(Instruction::IGN(IncDecAddressingMode::ZeroPageX)),
        0x75 => Some(Instruction::ADC(FlexibleAddressingMode::ZeroPageX)),
        0x76 => Some(Instruction::ROR(ShiftAddressingMode::ZeroPageX)),
        0x77 => Some(Instruction::RRA(StoreAddressingMode::ZeroPageX)),
        0x78 => Some(Instruction::SEI),
        0x79 => Some(Instruction::ADC(FlexibleAddressingMode::AbsoluteY)),
        0x7A => Some(Instruction::NOP),
        0x7B => Some(Instruction::RRA(StoreAddressingMode::AbsoluteY)),
        0x7C => Some(Instruction::IGN(IncDecAddressingMode::AbsoluteX)),
        0x7D => Some(Instruction::ADC(FlexibleAddressingMode::AbsoluteX)),
        0x7E => Some(Instruction::ROR(ShiftAddressingMode::AbsoluteX)),
        0x7F => Some(Instruction::RRA(StoreAddressingMode::AbsoluteX)),
        0x80 => Some(Instruction::SKB),
        0x81 => Some(Instruction::STA(StoreAddressingMode::IndexedIndirect)),
        0x82 => Some(Instruction::SKB),
        0x83 => Some(Instruction::SAX(SAXAddressingMode::IndexedIndirect)),
        0x84 => Some(Instruction::STY(STYAddressingMode::ZeroPage)),
        0x85 => Some(Instruction::STA(StoreAddressingMode::ZeroPage)),
        0x86 => Some(Instruction::STX(STXAddressingMode::ZeroPage)),
        0x87 => Some(Instruction::SAX(SAXAddressingMode::ZeroPage)),
        0x88 => Some(Instruction::DEY),
        0x89 => Some(Instruction::SKB),
        0x8A => Some(Instruction::TXA),
        0x8C => Some(Instruction::STY(STYAddressingMode::Absolute)),
        0x8D => Some(Instruction::STA(StoreAddressingMode::Absolute)),
        0x8E => Some(Instruction::STX(STXAddressingMode::Absolute)),
        0x8F => Some(Instruction::SAX(SAXAddressingMode::Absolute)),
        0x90 => Some(Instruction::BCC),
        0x91 => Some(Instruction::STA(StoreAddressingMode::IndirectIndexed)),
        0x94 => Some(Instruction::STY(STYAddressingMode::ZeroPageX)),
        0x95 => Some(Instruction::STA(StoreAddressingMode::ZeroPageX)),
        0x96 => Some(Instruction::STX(STXAddressingMode::ZeroPageY)),
        0x97 => Some(Instruction::SAX(SAXAddressingMode::ZeroPageY)),
        0x98 => Some(Instruction::TYA),
        0x99 => Some(Instruction::STA(StoreAddressingMode::AbsoluteY)),
        0x9A => Some(Instruction::TXS),
        0x9D => Some(Instruction::STA(StoreAddressingMode::AbsoluteX)),
        0xA0 => Some(Instruction::LDY(LDYAddressingMode::Immediate)),
        0xA1 => Some(Instruction::LDA(FlexibleAddressingMode::IndexedIndirect)),
        0xA2 => Some(Instruction::LDX(LDXAddressingMode::Immediate)),
        0xA3 => Some(Instruction::LAX(LAXAddressingMode::IndexedIndirect)),
        0xA4 => Some(Instruction::LDY(LDYAddressingMode::ZeroPage)),
        0xA5 => Some(Instruction::LDA(FlexibleAddressingMode::ZeroPage)),
        0xA6 => Some(Instruction::LDX(LDXAddressingMode::ZeroPage)),
        0xA7 => Some(Instruction::LAX(LAXAddressingMode::ZeroPage)),
        0xA8 => Some(Instruction::TAY),
        0xA9 => Some(Instruction::LDA(FlexibleAddressingMode::Immediate)),
        0xAA => Some(Instruction::TAX),
        0xAC => Some(Instruction::LDY(LDYAddressingMode::Absolute)),
        0xAD => Some(Instruction::LDA(FlexibleAddressingMode::Absolute)),
        0xAE => Some(Instruction::LDX(LDXAddressingMode::Absolute)),
        0xAF => Some(Instruction::LAX(LAXAddressingMode::Absolute)),
        0xB0 => Some(Instruction::BCS),
        0xB1 => Some(Instruction::LDA(FlexibleAddressingMode::IndirectIndexed)),
        0xB3 => Some(Instruction::LAX(LAXAddressingMode::IndirectIndexed)),
        0xB4 => Some(Instruction::LDY(LDYAddressingMode::ZeroPageX)),
        0xB5 => Some(Instruction::LDA(FlexibleAddressingMode::ZeroPageX)),
        0xB6 => Some(Instruction::LDX(LDXAddressingMode::ZeroPageY)),
        0xB7 => Some(Instruction::LAX(LAXAddressingMode::ZeroPageY)),
        0xB8 => Some(Instruction::CLV),
        0xB9 => Some(Instruction::LDA(FlexibleAddressingMode::AbsoluteY)),
        0xBA => Some(Instruction::TSX),
        0xBC => Some(Instruction::LDY(LDYAddressingMode::AbsoluteX)),
        0xBD => Some(Instruction::LDA(FlexibleAddressingMode::AbsoluteX)),
        0xBE => Some(Instruction::LDX(LDXAddressingMode::AbsoluteY)),
        0xBF => Some(Instruction::LAX(LAXAddressingMode::AbsoluteY)),
        0xC0 => Some(Instruction::CPY(CompareAddressingMode::Immediate)),
        0xC1 => Some(Instruction::CMP(FlexibleAddressingMode::IndexedIndirect)),
        0xC2 => Some(Instruction::SKB),
        0xC3 => Some(Instruction::DCP(StoreAddressingMode::IndexedIndirect)),
        0xC4 => Some(Instruction::CPY(CompareAddressingMode::ZeroPage)),
        0xC5 => Some(Instruction::CMP(FlexibleAddressingMode::ZeroPage)),
        0xC6 => Some(Instruction::DEC(IncDecAddressingMode::ZeroPage)),
        0xC7 => Some(Instruction::DCP(StoreAddressingMode::ZeroPage)),
        0xC8 => Some(Instruction::INY),
        0xC9 => Some(Instruction::CMP(FlexibleAddressingMode::Immediate)),
        0xCA => Some(Instruction::DEX),
        0xCC => Some(Instruction::CPY(CompareAddressingMode::Absolute)),
        0xCD => Some(Instruction::CMP(FlexibleAddressingMode::Absolute)),
        0xCE => Some(Instruction::DEC(IncDecAddressingMode::Absolute)),
        0xCF => Some(Instruction::DCP(StoreAddressingMode::Absolute)),
        0xD0 => Some(Instruction::BNE),
        0xD1 => Some(Instruction::CMP(FlexibleAddressingMode::IndirectIndexed)),
        0xD3 => Some(Instruction::DCP(StoreAddressingMode::IndirectIndexed)),
        0xD4 => Some(Instruction::IGN(IncDecAddressingMode::ZeroPageX)),
        0xD5 => Some(Instruction::CMP(FlexibleAddressingMode::ZeroPageX)),
        0xD6 => Some(Instruction::DEC(IncDecAddressingMode::ZeroPageX)),
        0xD7 => Some(Instruction::DCP(StoreAddressingMode::ZeroPageX)),
        0xD8 => Some(Instruction::CLD),
        0xD9 => Some(Instruction::CMP(FlexibleAddressingMode::AbsoluteY)),
        0xDA => Some(Instruction::NOP),
        0xDB => Some(Instruction::DCP(StoreAddressingMode::AbsoluteY)),
        0xDC => Some(Instruction::IGN(IncDecAddressingMode::AbsoluteX)),
        0xDD => Some(Instruction::CMP(FlexibleAddressingMode::AbsoluteX)),
        0xDE => Some(Instruction::DEC(IncDecAddressingMode::AbsoluteX)),
        0xDF => Some(Instruction::DCP(StoreAddressingMode::AbsoluteX)),
        0xE0 => Some(Instruction::CPX(CompareAddressingMode::Immediate)),
        0xE1 => Some(Instruction::SBC(FlexibleAddressingMode::IndexedIndirect)),
        0xE2 => Some(Instruction::SKB),
        0xE3 => Some(Instruction::ISC(StoreAddressingMode::IndexedIndirect)),
        0xE4 => Some(Instruction::CPX(CompareAddressingMode::ZeroPage)),
        0xE5 => Some(Instruction::SBC(FlexibleAddressingMode::ZeroPage)),
        0xE6 => Some(Instruction::INC(IncDecAddressingMode::ZeroPage)),
        0xE7 => Some(Instruction::ISC(StoreAddressingMode::ZeroPage)),
        0xE8 => Some(Instruction::INX),
        0xE9 => Some(Instruction::SBC(FlexibleAddressingMode::Immediate)),
        0xEA => Some(Instruction::NOP),
        0xEB => Some(Instruction::ADC(FlexibleAddressingMode::Immediate)),
        0xEC => Some(Instruction::CPX(CompareAddressingMode::Absolute)),
        0xED => Some(Instruction::SBC(FlexibleAddressingMode::Absolute)),
        0xEE => Some(Instruction::INC(IncDecAddressingMode::Absolute)),
        0xEF => Some(Instruction::ISC(StoreAddressingMode::Absolute)),
        0xF0 => Some(Instruction::BEQ),
        0xF1 => Some(Instruction::SBC(FlexibleAddressingMode::IndirectIndexed)),
        0xF3 => Some(Instruction::ISC(StoreAddressingMode::IndirectIndexed)),
        0xF4 => Some(Instruction::IGN(IncDecAddressingMode::ZeroPageX)),
        0xF5 => Some(Instruction::SBC(FlexibleAddressingMode::ZeroPageX)),
        0xF6 => Some(Instruction::INC(IncDecAddressingMode::ZeroPageX)),
        0xF7 => Some(Instruction::ISC(StoreAddressingMode::ZeroPageX)),
        0xF8 => Some(Instruction::SED),
        0xF9 => Some(Instruction::SBC(FlexibleAddressingMode::AbsoluteY)),
        0xFA => Some(Instruction::NOP),
        0xFB => Some(Instruction::ISC(StoreAddressingMode::AbsoluteY)),
        0xFC => Some(Instruction::IGN(IncDecAddressingMode::AbsoluteX)),
        0xFD => Some(Instruction::SBC(FlexibleAddressingMode::AbsoluteX)),
        0xFE => Some(Instruction::INC(IncDecAddressingMode::AbsoluteX)),
        0xFF => Some(Instruction::ISC(StoreAddressingMode::AbsoluteX)),
        _ => None,
    }
}

/// The lowest opcode standing for an instruction.
pub open spec fn encode(instruction: Instruction) -> u8 {
    match instruction {
        Instruction::LDA(FlexibleAddressingMode::Immediate) => 0xA9,
        Instruction::LDA(FlexibleAddressingMode::ZeroPage) => 0xA5,
        Instruction::LDA(FlexibleAddressingMode::ZeroPageX) => 0xB5,
        Instruction::LDA(FlexibleAddressingMode::Absolute) => 0xAD,
        Instruction::LDA(FlexibleAddressingMode::AbsoluteX) => 0xBD,
        Instruction::LDA(FlexibleAddressingMode::AbsoluteY) => 0xB9,
        Instruction::LDA(FlexibleAddressingMode::IndexedIndirect) => 0xA1,
        Instruction::LDA(FlexibleAddressingMode::IndirectIndexed) => 0xB1,
        Instruction::LDX(LDXAddressingMode::Immediate) => 0xA2,
        Instruction::LDX(LDXAddressingMode::ZeroPage) => 0xA6,
        Instruction::LDX(LDXAddressingMode::ZeroPageY) => 0xB6,
        Instruction::LDX(LDXAddressingMode::Absolute) => 0xAE,
        Instruction::LDX(LDXAddressingMode::AbsoluteY) => 0xBE,
        Instruction::LDY(LDYAddressingMode::Immediate) => 0xA0,
        Instruction::LDY(LDYAddressingMode::ZeroPage) => 0xA4,
        Instruction::LDY(LDYAddressingMode::ZeroPageX) => 0xB4,
        Instruction::LDY(LDYAddressingMode::Absolute) => 0xAC,
        Instruction::LDY(LDYAddressingMode::AbsoluteX) => 0xBC,
        Instruction::STA(StoreAddressingMode::ZeroPage) => 0x85,
        Instruction::STA(StoreAddressingMode::ZeroPageX) => 0x95,
        Instruction::STA(StoreAddressingMode::Absolute) => 0x8D,
        Instruction::STA(StoreAddressingMode::AbsoluteX) => 0x9D,
        Instruction::STA(StoreAddressingMode::AbsoluteY) => 0x99,
        Instruction::STA(StoreAddressingMode::IndexedIndirect) => 0x81,
        Instruction::STA(StoreAddressingMode::IndirectIndexed) => 0x91,
        Instruction::STX(STXAddressingMode::ZeroPage) => 0x86,
        Instruction::STX(STXAddressingMode::ZeroPageY) => 0x96,
        Instruction::STX(STXAddressingMode::Absolute) => 0x8E,
        Instruction::STY(STYAddressingMode::ZeroPage) => 0x84,
        Instruction::STY(STYAddressingMode::ZeroPageX) => 0x94,
        Instruction::STY(STYAddressingMode::Absolute) => 0x8C,
        Instruction::TAX => 0xAA,
        Instruction::TAY => 0xA8,
        Instruction::TXA => 0x8A,
        Instruction::TYA => 0x98,
        Instruction::TSX => 0xBA,
        Instruction::TXS => 0x9A,
        Instruction::PHA => 0x48,
        Instruction::PHP => 0x08,
        Instruction::PLA => 0x68,
        Instruction::PLP => 0x28,
        Instruction::AND(FlexibleAddressingMode::Immediate) => 0x29,
        Instruction::AND(FlexibleAddressingMode::ZeroPage) => 0x25,
        Instruction::AND(FlexibleAddressingMode::ZeroPageX) => 0x35,
        Instruction::AND(FlexibleAddressingMode::Absolute) => 0x2D,
        Instruction::AND(FlexibleAddressingMode::AbsoluteX) => 0x3D,
        Instruction::AND(FlexibleAddressingMode::AbsoluteY) => 0x39,
        Instruction::AND(FlexibleAddressingMode::IndexedIndirect) => 0x21,
        Instruction::AND(FlexibleAddressingMode::IndirectIndexed) => 0x31,
        Instruction::EOR(FlexibleAddressingMode::Immediate) => 0x49,
        Instruction::EOR(FlexibleAddressingMode::ZeroPage) => 0x45,
        Instruction::EOR(FlexibleAddressingMode::ZeroPageX) => 0x55,
        Instruction::EOR(FlexibleAddressingMode::Absolute) => 0x4D,
        Instruction::EOR(FlexibleAddressingMode::AbsoluteX) => 0x5D,
        Instruction::EOR(FlexibleAddressingMode::AbsoluteY) => 0x59,
        Instruction::EOR(FlexibleAddressingMode::IndexedIndirect) => 0x41,
        Instruction::EOR(FlexibleAddressingMode::IndirectIndexed) => 0x51,
        Instruction::ORA(FlexibleAddressingMode::Immediate) => 0x09,
        Instruction::ORA(FlexibleAddressingMode::ZeroPage) => 0x05,
        Instruction::ORA(FlexibleAddressingMode::ZeroPageX) => 0x15,
        Instruction::ORA(FlexibleAddressingMode::Absolute) => 0x0D,
        Instruction::ORA(FlexibleAddressingMode::AbsoluteX) => 0x1D,
        Instruction::ORA(FlexibleAddressingMode::AbsoluteY) => 0x19,
        Instruction::ORA(FlexibleAddressingMode::IndexedIndirect) => 0x01,
        Instruction::ORA(FlexibleAddressingMode::IndirectIndexed) => 0x11,
        Instruction::BIT(BITAddressingMode::ZeroPage) => 0x24,
        Instruction::BIT(BITAddressingMode::Absolute) => 0x2C,
        Instruction::ADC(FlexibleAddressingMode::Immediate) => 0x69,
        Instruction::ADC(FlexibleAddressingMode::ZeroPage) => 0x65,
        Instruction::ADC(FlexibleAddressingMode::ZeroPageX) => 0x75,
        Instruction::ADC(FlexibleAddressingMode::Absolute) => 0x6D,
        Instruction::ADC(FlexibleAddressingMode::AbsoluteX) => 0x7D,
        Instruction::ADC(FlexibleAddressingMode::AbsoluteY) => 0x79,
        Instruction::ADC(FlexibleAddressingMode::IndexedIndirect) => 0x61,
        Instruction::ADC(FlexibleAddressingMode::IndirectIndexed) => 0x71,
        Instruction::SBC(FlexibleAddressingMode::Immediate) => 0xE9,
        Instruction::SBC(FlexibleAddressingMode::ZeroPage) => 0xE5,
        Instruction::SBC(FlexibleAddressingMode::ZeroPageX) => 0xF5,
        Instruction::SBC(FlexibleAddressingMode::Absolute) => 0xED,
        Instruction::SBC(FlexibleAddressingMode::AbsoluteX) => 0xFD,
        Instruction::SBC(FlexibleAddressingMode::AbsoluteY) => 0xF9,
        Instruction::SBC(FlexibleAddressingMode::IndexedIndirect) => 0xE1,
        Instruction::SBC(FlexibleAddressingMode::IndirectIndexed) => 0xF1,
        Instruction::CMP(FlexibleAddressingMode::Immediate) => 0xC9,
        Instruction::CMP(FlexibleAddressingMode::ZeroPage) => 0xC5,
        Instruction::CMP(FlexibleAddressingMode::ZeroPageX) => 0xD5,
        Instruction::CMP(FlexibleAddressingMode::Absolute) => 0xCD,
        Instruction::CMP(FlexibleAddressingMode::AbsoluteX) => 0xDD,
        Instruction::CMP(FlexibleAddressingMode::AbsoluteY) => 0xD9,
        Instruction::CMP(FlexibleAddressingMode::IndexedIndirect) => 0xC1,
        Instruction::CMP(FlexibleAddressingMode::IndirectIndexed) => 0xD1,
        Instruction::CPX(CompareAddressingMode::Immediate) => 0xE0,
        Instruction::CPX(CompareAddressingMode::ZeroPage) => 0xE4,
        Instruction::CPX(CompareAddressingMode::Absolute) => 0xEC,
        Instruction::CPY(CompareAddressingMode::Immediate) => 0xC0,
        Instruction::CPY(CompareAddressingMode::ZeroPage) => 0xC4,
        Instruction::CPY(CompareAddressingMode::Absolute) => 0xCC,
        Instruction::INC(IncDecAddressingMode::ZeroPage) => 0xE6,
        Instruction::INC(IncDecAddressingMode::ZeroPageX) => 0xF6,
        Instruction::INC(IncDecAddressingMode::Absolute) => 0xEE,
        Instruction::INC(IncDecAddressingMode::AbsoluteX) => 0xFE,
        Instruction::INX => 0xE8,
        Instruction::INY => 0xC8,
        Instruction::DEC(IncDecAddressingMode::ZeroPage) => 0xC6,
        Instruction::DEC(IncDecAddressingMode::ZeroPageX) => 0xD6,
        Instruction::DEC(IncDecAddressingMode::Absolute) => 0xCE,
        Instruction::DEC(IncDecAddressingMode::AbsoluteX) => 0xDE,
        Instruction::DEX => 0xCA,
        Instruction::DEY => 0x88,
        Instruction::ASL(ShiftAddressingMode::Accumulator) => 0x0A,
        Instruction::ASL(ShiftAddressingMode::ZeroPage) => 0x06,
        Instruction::ASL(ShiftAddressingMode::ZeroPageX) => 0x16,
        Instruction::ASL(ShiftAddressingMode::Absolute) => 0x0E,
        Instruction::ASL(ShiftAddressingMode::AbsoluteX) => 0x1E,
        Instruction::LSR(ShiftAddressingMode::Accumulator) => 0x4A,
        Instruction::LSR(ShiftAddressingMode::ZeroPage) => 0x46,
        Instruction::LSR(ShiftAddressingMode::ZeroPageX) => 0x56,
        Instruction::LSR(ShiftAddressingMode::Absolute) => 0x4E,
        Instruction::LSR(ShiftAddressingMode::AbsoluteX) => 0x5E,
        Instruction::ROL(ShiftAddressingMode::Accumulator) => 0x2A,
        Instruction::ROL(ShiftAddressingMode::ZeroPage) => 0x26,
        Instruction::ROL(ShiftAddressingMode::ZeroPageX) => 0x36,
        Instruction::ROL(ShiftAddressingMode::Absolute) => 0x2E,
        Instruction::ROL(ShiftAddressingMode::AbsoluteX) => 0x3E,
        Instruction::ROR(ShiftAddressingMode::Accumulator) => 0x6A,
        Instruction::ROR(ShiftAddressingMode::ZeroPage) => 0x66,
        Instruction::ROR(ShiftAddressingMode::ZeroPageX) => 0x76,
        Instruction::ROR(ShiftAddressingMode::Absolute) => 0x6E,
        Instruction::ROR(ShiftAddressingMode::AbsoluteX) => 0x7E,
        Instruction::JMP(JumpAddressingMode::Absolute) => 0x4C,
        Instruction::JMP(JumpAddressingMode::Indirect) => 0x6C,
        Instruction::JSR => 0x20,
        Instruction::RTS => 0x60,
        Instruction::BCC => 0x90,
        Instruction::BCS => 0xB0,
        Instruction::BEQ => 0xF0,
        Instruction::BMI => 0x30,
        Instruction::BNE => 0xD0,
        Instruction::BPL => 0x10,
        Instruction::BVC => 0x50,
        Instruction::BVS => 0x70,
        Instruction::CLC => 0x18,
        Instruction::CLD => 0xD8,
        Instruction::CLI => 0x58,
        Instruction::CLV => 0xB8,
        Instruction::SEC => 0x38,
        Instruction::SED => 0xF8,
        Instruction::SEI => 0x78,
        Instruction::BRK => 0x00,
        Instruction::NOP => 0x1A,
        Instruction::RTI => 0x40,
        Instruction::IGN(IncDecAddressingMode::ZeroPage) => 0x04,
        Instruction::IGN(IncDecAddressingMode::ZeroPageX) => 0x14,
        Instruction::IGN(IncDecAddressingMode::Absolute) => 0x0C,
        Instruction::IGN(IncDecAddressingMode::AbsoluteX) => 0x1C,
        Instruction::SKB => 0x80,
        Instruction::LAX(LAXAddressingMode::ZeroPage) => 0xA7,
        Instruction::LAX(LAXAddressingMode::ZeroPageY) => 0xB7,
        Instruction::LAX(LAXAddressingMode::Absolute) => 0xAF,
        Instruction::LAX(LAXAddressingMode::AbsoluteY) => 0xBF,
        Instruction::LAX(LAXAddressingMode::IndexedIndirect) => 0xA3,
        Instruction::LAX(LAXAddressingMode::IndirectIndexed) => 0xB3,
        Instruction::SAX(SAXAddressingMode::ZeroPage) => 0x87,
        Instruction::SAX(SAXAddressingMode::ZeroPageY) => 0x97,
        Instruction::SAX(SAXAddressingMode::Absolute) => 0x8F,
        Instruction::SAX(SAXAddressingMode::IndexedIndirect) => 0x83,
        Instruction::DCP(StoreAddressingMode::ZeroPage) => 0xC7,
        Instruction::DCP(StoreAddressingMode::ZeroPageX) => 0xD7,
        Instruction::DCP(StoreAddressingMode::Absolute) => 0xCF,
        Instruction::DCP(StoreAddressingMode::AbsoluteX) => 0xDF,
        Instruction::DCP(StoreAddressingMode::AbsoluteY) => 0xDB,
        Instruction::DCP(StoreAddressingMode::IndexedIndirect) => 0xC3,
        Instruction::DCP(StoreAddressingMode::IndirectIndexed) => 0xD3,
        Instruction::ISC(StoreAddressingMode::ZeroPage) => 0xE7,
        Instruction::ISC(StoreAddressingMode::ZeroPageX) => 0xF7,
        Instruction::ISC(StoreAddressingMode::Absolute) => 0xEF,
        Instruction::ISC(StoreAddressingMode::AbsoluteX) => 0xFF,
        Instruction::ISC(StoreAddressingMode::AbsoluteY) => 0xFB,
        Instruction::ISC(StoreAddressingMode::IndexedIndirect) => 0xE3,
        Instruction::ISC(StoreAddressingMode::IndirectIndexed) => 0xF3,
        Instruction::SLO(StoreAddressingMode::ZeroPage) => 0x07,
        Instruction::SLO(StoreAddressingMode::ZeroPageX) => 0x17,
        Instruction::SLO(StoreAddressingMode::Absolute) => 0x0F,
        Instruction::SLO(StoreAddressingMode::AbsoluteX) => 0x1F,
        Instruction::SLO(StoreAddressingMode::AbsoluteY) => 0x1B,
        Instruction::SLO(StoreAddressingMode::IndexedIndirect) => 0x03,
        Instruction::SLO(StoreAddressingMode::IndirectIndexed) => 0x13,
        Instruction::RLA(StoreAddressingMode::ZeroPage) => 0x27,
        Instruction::RLA(StoreAddressingMode::ZeroPageX) => 0x37,
        Instruction::RLA(StoreAddressingMode::Absolute) => 0x2F,
        Instruction::RLA(StoreAddressingMode::AbsoluteX) => 0x3F,
        Instruction::RLA(StoreAddressingMode::AbsoluteY) => 0x3B,
        Instruction::RLA(StoreAddressingMode::IndexedIndirect) => 0x23,
        Instruction::RLA(StoreAddressingMode::IndirectIndexed) => 0x33,
        Instruction::SRE(StoreAddressingMode::ZeroPage) => 0x47,
        Instruction::SRE(StoreAddressingMode::ZeroPageX) => 0x57,
        Instruction::SRE(StoreAddressingMode::Absolute) => 0x4F,
        Instruction::SRE(StoreAddressingMode::AbsoluteX) => 0x5F,
        Instruction::SRE(StoreAddressingMode::AbsoluteY) => 0x5B,
        Instruction::SRE(StoreAddressingMode::IndexedIndirect) => 0x43,
        Instruction::SRE(StoreAddressingMode::IndirectIndexed) => 0x53,
        Instruction::RRA(StoreAddressingMode::ZeroPage) => 0x67,
        Instruction::RRA(StoreAddressingMode::ZeroPageX) => 0x77,
        Instruction::RRA(StoreAddressingMode::Absolute) => 0x6F,
        Instruction::RRA(StoreAddressingMode::AbsoluteX) => 0x7F,
        Instruction::RRA(StoreAddressingMode::AbsoluteY) => 0x7B,
        Instruction::RRA(StoreAddressingMode::IndexedIndirect) => 0x63,
        Instruction::RRA(StoreAddressingMode::IndirectIndexed) => 0x73,
    }
}

/// Every instruction is what its opcode decodes to.
pub proof fn lemma_decode_encode(instruction: Instruction)
    ensures
        decode(encode(instruction)) == Some(instruction),
{
    match instruction {
        Instruction::LDA(m) => match m {
            FlexibleAddressingMode::Immediate => {},
            FlexibleAddressingMode::ZeroPage => {},
            FlexibleAddressingMode::ZeroPageX => {},
            FlexibleAddressingMode::Absolute => {},
            FlexibleAddressingMode::AbsoluteX => {},
            FlexibleAddressingMode::AbsoluteY => {},
            FlexibleAddressingMode::IndexedIndirect => {},
            FlexibleAddressingMode::IndirectIndexed => {},
        },
        Instruction::LDX(m) => match m {
            LDXAddressingMode::Immediate => {},
            LDXAddressingMode::ZeroPage => {},
            LDXAddressingMode::ZeroPageY => {},
            LDXAddressingMode::Absolute => {},
            LDXAddressingMode::AbsoluteY => {},
        },
        Instruction::LDY(m) => match m {
            LDYAddressingMode::Immediate => {},
            LDYAddressingMode::ZeroPage => {},
            LDYAddressingMode::ZeroPageX => {},
            LDYAddressingMode::Absolute => {},
            LDYAddressingMode::AbsoluteX => {},
        },
        Instruction::STA(m) => match m {
            StoreAddressingMode::ZeroPage => {},
            StoreAddressingMode::ZeroPageX => {},
            StoreAddressingMode::Absolute => {},
            StoreAddressingMode::AbsoluteX => {},
            StoreAddressingMode::AbsoluteY => {},
            StoreAddressingMode::IndexedIndirect => {},
            StoreAddressingMode::IndirectIndexed => {},
        },
        Instruction::STX(m) => match m {
            STXAddressingMode::ZeroPage => {},
            STXAddressingMode::ZeroPageY => {},
            STXAddressingMode::Absolute => {},
        },
        Instruction::STY(m) => match m {
            STYAddressingMode::ZeroPage => {},
            STYAddressingMode::ZeroPageX => {},
            STYAddressingMode::Absolute => {},
        },
        Instruction::TAX => {},
        Instruction::TAY => {},
        Instruction::TXA => {},
        Instruction::TYA => {},
        Instruction::TSX => {},
        Instruction::TXS => {},
        Instruction::PHA => {},
        Instruction::PHP => {},
        Instruction::PLA => {},
        Instruction::PLP => {},
        Instruction::AND(m) => match m {
            FlexibleAddressingMode::Immediate => {},
            FlexibleAddressingMode::ZeroPage => {},
            FlexibleAddressingMode::ZeroPageX => {},
            FlexibleAddressingMode::Absolute => {},
            FlexibleAddressingMode::AbsoluteX => {},
            FlexibleAddressingMode::AbsoluteY => {},
            FlexibleAddressingMode::IndexedIndirect => {},
            FlexibleAddressingMode::IndirectIndexed => {},
        },
        Instruction::EOR(m) => match m {
            FlexibleAddressingMode::Immediate => {},
            FlexibleAddressingMode::ZeroPage => {},
            FlexibleAddressingMode::ZeroPageX => {},
            FlexibleAddressingMode::Absolute => {},
            FlexibleAddressingMode::AbsoluteX => {},
            FlexibleAddressingMode::AbsoluteY => {},
            FlexibleAddressingMode::IndexedIndirect => {},
            FlexibleAddressingMode::IndirectIndexed => {},
        },
        Instruction::ORA(m) => match m {
            FlexibleAddressingMode::Immediate => {},
            FlexibleAddressingMode::ZeroPage => {},
            FlexibleAddressingMode::ZeroPageX => {},
            FlexibleAddressingMode::Absolute => {},
            FlexibleAddressingMode::AbsoluteX => {},
            FlexibleAddressingMode::AbsoluteY => {},
            FlexibleAddressingMode::IndexedIndirect => {},
            FlexibleAddressingMode::IndirectIndexed => {},
        },
        Instruction::BIT(m) => match m {
            BITAddressingMode::ZeroPage => {},
            BITAddressingMode::Absolute => {},
        },
        Instruction::ADC(m) => match m {
            FlexibleAddressingMode::Immediate => {},
            FlexibleAddressingMode::ZeroPage => {},
            FlexibleAddressingMode::ZeroPageX => {},
            FlexibleAddressingMode::Absolute => {},
            FlexibleAddressingMode::AbsoluteX => {},
            FlexibleAddressingMode::AbsoluteY => {},
            FlexibleAddressingMode::IndexedIndirect => {},
            FlexibleAddressingMode::IndirectIndexed => {},
        },
        Instruction::SBC(m) => match m {
            FlexibleAddressingMode::Immediate => {},
            FlexibleAddressingMode::ZeroPage => {},
            FlexibleAddressingMode::ZeroPageX => {},
            FlexibleAddressingMode::Absolute => {},
            FlexibleAddressingMode::AbsoluteX => {},
            FlexibleAddressingMode::AbsoluteY => {},
            FlexibleAddressingMode::IndexedIndirect => {},
            FlexibleAddressingMode::IndirectIndexed => {},
        },
        Instruction::CMP(m) => match m {
            FlexibleAddressingMode::Immediate => {},
            FlexibleAddressingMode::ZeroPage => {},
            FlexibleAddressingMode::ZeroPageX => {},
            FlexibleAddressingMode::Absolute => {},
            FlexibleAddressingMode::AbsoluteX => {},
            FlexibleAddressingMode::AbsoluteY => {},
            FlexibleAddressingMode::IndexedIndirect => {},
            FlexibleAddressingMode::IndirectIndexed => {},
        },
        Instruction::CPX(m) => match m {
            CompareAddressingMode::Immediate => {},
            CompareAddressingMode::ZeroPage => {},
            CompareAddressingMode::Absolute => {},
        },
        Instruction::CPY(m) => match m {
            CompareAddressingMode::Immediate => {},
            CompareAddressingMode::ZeroPage => {},
            CompareAddressingMode::Absolute => {},
        },
        Instruction::INC(m) => match m {
            IncDecAddressingMode::ZeroPage => {},
            IncDecAddressingMode::ZeroPageX => {},
            IncDecAddressingMode::Absolute => {},
            IncDecAddressingMode::AbsoluteX => {},
        },
        Instruction::INX => {},
        Instruction::INY => {},
        Instruction::DEC(m) => match m {
            IncDecAddressingMode::ZeroPage => {},
            IncDecAddressingMode::ZeroPageX => {},
            IncDecAddressingMode::Absolute => {},
            IncDecAddressingMode::AbsoluteX => {},
        },
        Instruction::DEX => {},
        Instruction::DEY => {},
        Instruction::ASL(m) => match m {
            ShiftAddressingMode::Accumulator => {},
            ShiftAddressingMode::ZeroPage => {},
            ShiftAddressingMode::ZeroPageX => {},
            ShiftAddressingMode::Absolute => {},
            ShiftAddressingMode::AbsoluteX => {},
        },
        Instruction::LSR(m) => match m {
            ShiftAddressingMode::Accumulator => {},
            ShiftAddressingMode::ZeroPage => {},
            ShiftAddressingMode::ZeroPageX => {},
            ShiftAddressingMode::Absolute => {},
            ShiftAddressingMode::AbsoluteX => {},
        },
        Instruction::ROL(m) => match m {
            ShiftAddressingMode::Accumulator => {},
            ShiftAddressingMode::ZeroPage => {},
            ShiftAddressingMode::ZeroPageX => {},
            ShiftAddressingMode::Absolute => {},
            ShiftAddressingMode::AbsoluteX => {},
        },
        Instruction::ROR(m) => match m {
            ShiftAddressingMode::Accumulator => {},
            ShiftAddressingMode::ZeroPage => {},
            ShiftAddressingMode::ZeroPageX => {},
            ShiftAddressingMode::Absolute => {},
            ShiftAddressingMode::AbsoluteX => {},
        },
        Instruction::JMP(m) => match m {
            JumpAddressingMode::Absolute => {},
            JumpAddressingMode::Indirect => {},
        },
        Instruction::JSR => {},
        Instruction::RTS => {},
        Instruction::BCC => {},
        Instruction::BCS => {},
        Instruction::BEQ => {},
        Instruction::BMI => {},
        Instruction::BNE => {},
        Instruction::BPL => {},
        Instruction::BVC => {},
        Instruction::BVS => {},
        Instruction::CLC => {},
        Instruction::CLD => {},
        Instruction::CLI => {},
        Instruction::CLV => {},
        Instruction::SEC => {},
        Instruction::SED => {},
        Instruction::SEI => {},
        Instruction::BRK => {},
        Instruction::NOP => {},
        Instruction::RTI => {},
        Instruction::IGN(m) => match m {
            IncDecAddressingMode::ZeroPage => {},
            IncDecAddressingMode::ZeroPageX => {},
            IncDecAddressingMode::Absolute => {},
            IncDecAddressingMode::AbsoluteX => {},
        },
        Instruction::SKB => {},
        Instruction::LAX(m) => match m {
            LAXAddressingMode::ZeroPage => {},
            LAXAddressingMode::ZeroPageY => {},
            LAXAddressingMode::Absolute => {},
            LAXAddressingMode::AbsoluteY => {},
            LAXAddressingMode::IndexedIndirect => {},
            LAXAddressingMode::IndirectIndexed => {},
        },
        Instruction::SAX(m) => match m {
            SAXAddressingMode::ZeroPage => {},
            SAXAddressingMode::ZeroPageY => {},
            SAXAddressingMode::Absolute => {},
            SAXAddressingMode::IndexedIndirect => {},
        },
        Instruction::DCP(m) => match m {
            StoreAddressingMode::ZeroPage => {},
            StoreAddressingMode::ZeroPageX => {},
            StoreAddressingMode::Absolute => {},
            StoreAddressingMode::AbsoluteX => {},
            StoreAddressingMode::AbsoluteY => {},
            StoreAddressingMode::IndexedIndirect => {},
            StoreAddressingMode::IndirectIndexed => {},
        },
        Instruction::ISC(m) => match m {
            StoreAddressingMode::ZeroPage => {},
            StoreAddressingMode::ZeroPageX => {},
            StoreAddressingMode::Absolute => {},
            StoreAddressingMode::AbsoluteX => {},
            StoreAddressingMode::AbsoluteY => {},
            StoreAddressingMode::IndexedIndirect => {},
            StoreAddressingMode::IndirectIndexed => {},
        },
        Instruction::SLO(m) => match m {
            StoreAddressingMode::ZeroPage => {},
            StoreAddressingMode::ZeroPageX => {},
            StoreAddressingMode::Absolute => {},
            StoreAddressingMode::AbsoluteX => {},
            StoreAddressingMode::AbsoluteY => {},
            StoreAddressingMode::IndexedIndirect => {},
            StoreAddressingMode::IndirectIndexed => {},
        },
        Instruction::RLA(m) => match m {
            StoreAddressingMode::ZeroPage => {},
            StoreAddressingMode::ZeroPageX => {},
            StoreAddressingMode::Absolute => {},
            StoreAddressingMode::AbsoluteX => {},
            StoreAddressingMode::AbsoluteY => {},
            StoreAddressingMode::IndexedIndirect => {},
            StoreAddressingMode::IndirectIndexed => {},
        },
        Instruction::SRE(m) => match m {
            StoreAddressingMode::ZeroPage => {},
            StoreAddressingMode::ZeroPageX => {},
            StoreAddressingMode::Absolute => {},
            StoreAddressingMode::AbsoluteX => {},
            StoreAddressingMode::AbsoluteY => {},
            StoreAddressingMode::IndexedIndirect => {},
            StoreAddressingMode::IndirectIndexed => {},
        },
        Instruction::RRA(m) => match m {
            StoreAddressingMode::ZeroPage => {},
            StoreAddressingMode::ZeroPageX => {},
            StoreAddressingMode::Absolute => {},
            StoreAddressingMode::AbsoluteX => {},
            StoreAddressingMode::AbsoluteY => {},
            StoreAddressingMode::IndexedIndirect => {},
            StoreAddressingMode::IndirectIndexed => {},
        },
    }
}

/// An opcode that decodes to an instruction is the lowest opcode of that instruction, or
/// decodes to the same instruction as it.
pub proof fn lemma_encode_decode(opcode: u8)
    ensures
        decode(opcode) matches Some(i) ==> decode(encode(i)) == decode(opcode),
{
    if let Some(i) = decode(opcode) {
        lemma_decode_encode(i);
    }
}

impl Instruction {
    /// The instruction an opcode stands for, or `None` if the opcode is not recognised.
    pub fn from_opcode(opcode: u8) -> (r: Option<Instruction>)
        ensures
            r == decode(opcode),
    {
        match opcode {
            0x00 => Some(Instruction::BRK),
            0x01 => Some(Instruction::ORA(FlexibleAddressingMode::IndexedIndirect)),
            0x03 => Some(Instruction::SLO(StoreAddressingMode::IndexedIndirect)),
            0x04 => Some(Instruction::IGN(IncDecAddressingMode::ZeroPage)),
            0x05 => Some(Instruction::ORA(FlexibleAddressingMode::ZeroPage)),
            0x06 => Some(Instruction::ASL(ShiftAddressingMode::ZeroPage)),
            0x07 => Some(Instruction::SLO(StoreAddressingMode::ZeroPage)),
            0x08 => Some(Instruction::PHP),
            0x09 => Some(Instruction::ORA(FlexibleAddressingMode::Immediate)),
            0x0A => Some(Instruction::ASL(ShiftAddressingMode::Accumulator)),
            0x0C => Some(Instruction::IGN(IncDecAddressingMode::Absolute)),
            0x0D => Some(Instruction::ORA(FlexibleAddressingMode::Absolute)),
            0x0E => Some(Instruction::ASL(ShiftAddressingMode::Absolute)),
            0x0F => Some(Instruction::SLO(StoreAddressingMode::Absolute)),
            0x10 => Some(Instruction::BPL),
            0x11 => Some(Instruction::ORA(FlexibleAddressingMode::IndirectIndexed)),
            0x13 => Some(Instruction::SLO(StoreAddressingMode::IndirectIndexed)),
            0x15 => Some(Instruction::ORA(FlexibleAddressingMode::ZeroPageX)),
            0x14 => Some(Instruction::IGN(IncDecAddressingMode::ZeroPageX)),
            0x16 => Some(Instruction::ASL(ShiftAddressingMode::ZeroPageX)),
            0x17 => Some(Instruction::SLO(StoreAddressingMode::ZeroPageX)),
            0x18 => Some(Instruction::CLC),
            0x19 => Some(Instruction::ORA(FlexibleAddressingMode::AbsoluteY)),
            0x1A => Some(Instruction::NOP),
            0x1B => Some(Instruction::SLO(StoreAddressingMode::AbsoluteY)),
            0x1C => Some(Instruction::IGN(IncDecAddressingMode::AbsoluteX)),
            0x1D => Some(Instruction::ORA(FlexibleAddressingMode::AbsoluteX)),
            0x1E => Some(Instruction::ASL(ShiftAddressingMode::AbsoluteX)),
            0x1F => Some(Instruction::SLO(StoreAddressingMode::AbsoluteX)),
            0x20 => Some(Instruction::JSR),
            0x21 => Some(Instruction::AND(FlexibleAddressingMode::IndexedIndirect)),
            0x23 => Some(Instruction::RLA(StoreAddressingMode::IndexedIndirect)),
            0x24 => Some(Instruction::BIT(BITAddressingMode::ZeroPage)),
            0x25 => Some(Instruction::AND(FlexibleAddressingMode::ZeroPage)),
            0x26 => Some(Instruction::ROL(ShiftAddressingMode::ZeroPage)),
            0x27 => Some(Instruction::RLA(StoreAddressingMode::ZeroPage)),
            0x28 => Some(Instruction::PLP),
            0x29 => Some(Instruction::AND(FlexibleAddressingMode::Immediate)),
            0x2A => Some(Instruction::ROL(ShiftAddressingMode::Accumulator)),
            0x2C => Some(Instruction::BIT(BITAddressingMode::Absolute)),
            0x2D => Some(Instruction::AND(FlexibleAddressingMode::Absolute)),
            0x2E => Some(Instruction::ROL(ShiftAddressingMode::Absolute)),
            0x2F => Some(Instruction::RLA(StoreAddressingMode::Absolute)),
            0x30 => Some(Instruction::BMI),
            0x31 => Some(Instruction::AND(FlexibleAddressingMode::IndirectIndexed)),
            0x33 => Some(Instruction::RLA(StoreAddressingMode::IndirectIndexed)),
            0x34 => Some(Instruction::IGN(IncDecAddressingMode::ZeroPageX)),
            0x35 => Some(Instruction::AND(FlexibleAddressingMode::ZeroPageX)),
            0x36 => Some(Instruction::ROL(ShiftAddressingMode::ZeroPageX)),
            0x37 => Some(Instruction::RLA(StoreAddressingMode::ZeroPageX)),
            0x38 => Some(Instruction::SEC),
            0x39 => Some(Instruction::AND(FlexibleAddressingMode::AbsoluteY)),
            0x3A => Some(Instruction::NOP),
            0x3B => Some(Instruction::RLA(StoreAddressingMode::AbsoluteY)),
            0x3C => Some(Instruction::IGN(IncDecAddressingMode::AbsoluteX)),
            0x3D => Some(Instruction::AND(FlexibleAddressingMode::AbsoluteX)),
            0x3E => Some(Instruction::ROL(ShiftAddressingMode::AbsoluteX)),
            0x3F => Some(Instruction::RLA(StoreAddressingMode::AbsoluteX)),
            0x40 => Some(Instruction::RTI),
            0x41 => Some(Instruction::EOR(FlexibleAddressingMode::IndexedIndirect)),
            0x43 => Some(Instruction::SRE(StoreAddressingMode::IndexedIndirect)),
            0x44 => Some(Instruction::IGN(IncDecAddressingMode::ZeroPage)),
            0x45 => Some(Instruction::EOR(FlexibleAddressingMode::ZeroPage)),
            0x46 => Some(Instruction::LSR(ShiftAddressingMode::ZeroPage)),
            0x47 => Some(Instruction::SRE(StoreAddressingMode::ZeroPage)),
            0x48 => Some(Instruction::PHA),
            0x49 => Some(Instruction::EOR(FlexibleAddressingMode::Immediate)),
            0x4A => Some(Instruction::LSR(ShiftAddressingMode::Accumulator)),
            0x4C => Some(Instruction::JMP(JumpAddressingMode::Absolute)),
            0x4D => Some(Instruction::EOR(FlexibleAddressingMode::Absolute)),
            0x4E => Some(Instruction::LSR(ShiftAddressingMode::Absolute)),
            0x4F => Some(Instruction::SRE(StoreAddressingMode::Absolute)),
            0x50 => Some(Instruction::BVC),
            0x51 => Some(Instruction::EOR(FlexibleAddressingMode::IndirectIndexed)),
            0x53 => Some(Instruction::SRE(StoreAddressingMode::IndirectIndexed)),
            0x54 => Some(Instruction::IGN(IncDecAddressingMode::ZeroPageX)),
            0x55 => Some(Instruction::EOR(FlexibleAddressingMode::ZeroPageX)),
            0x56 => Some(Instruction::LSR(ShiftAddressingMode::ZeroPageX)),
            0x57 => Some(Instruction::SRE(StoreAddressingMode::ZeroPageX)),
            0x58 => Some(Instruction::CLI),
            0x59 => Some(Instruction::EOR(FlexibleAddressingMode::AbsoluteY)),
            0x5A => Some(Instruction::NOP),
            0x5B => Some(Instruction::SRE(StoreAddressingMode::AbsoluteY)),
            0x5C => Some(Instruction::IGN(IncDecAddressingMode::AbsoluteX)),
            0x5D => Some(Instruction::EOR(FlexibleAddressingMode::AbsoluteX)),
            0x5E => Some(Instruction::LSR(ShiftAddressingMode::AbsoluteX)),
            0x5F => Some(Instruction::SRE(StoreAddressingMode::AbsoluteX)),
            0x60 => Some(Instruction::RTS),
            0x61 => Some(Instruction::ADC(FlexibleAddressingMode::IndexedIndirect)),
            0x63 => Some(Instruction::RRA(StoreAddressingMode::IndexedIndirect)),
            0x64 => Some(Instruction::IGN(IncDecAddressingMode::ZeroPage)),
            0x65 => Some(Instruction::ADC(FlexibleAddressingMode::ZeroPage)),
            0x66 => Some(Instruction::ROR(ShiftAddressingMode::ZeroPage)),
            0x67 => Some(Instruction::RRA(StoreAddressingMode::ZeroPage)),
            0x68 => Some(Instruction::PLA),
            0x69 => Some(Instruction::ADC(FlexibleAddressingMode::Immediate)),
            0x6A => Some(Instruction::ROR(ShiftAddressingMode::Accumulator)),
            0x6C => Some(Instruction::JMP(JumpAddressingMode::Indirect)),
            0x6D => Some(Instruction::ADC(FlexibleAddressingMode::Absolute)),
            0x6E => Some(Instruction::ROR(ShiftAddressingMode::Absolute)),
            0x6F => Some(Instruction::RRA(StoreAddressingMode::Absolute)),
            0x70 => Some(Instruction::BVS),
            0x71 => Some(Instruction::ADC(FlexibleAddressingMode::IndirectIndexed)),
            0x73 => Some(Instruction::RRA(StoreAddressingMode::IndirectIndexed)),
            0x74 => Some(Instruction::IGN(IncDecAddressingMode::ZeroPageX)),
            0x75 => Some(Instruction::ADC(FlexibleAddressingMode::ZeroPageX)),
            0x76 => Some(Instruction::ROR(ShiftAddressingMode::ZeroPageX)),
            0x77 => Some(Instruction::RRA(StoreAddressingMode::ZeroPageX)),
            0x78 => Some(Instruction::SEI),
            0x79 => Some(Instruction::ADC(FlexibleAddressingMode::AbsoluteY)),
            0x7A => Some(Instruction::NOP),
            0x7B => Some(Instruction::RRA(StoreAddressingMode::AbsoluteY)),
            0x7C => Some(Instruction::IGN(IncDecAddressingMode::AbsoluteX)),
            0x7D => Some(Instruction::ADC(FlexibleAddressingMode::AbsoluteX)),
            0x7E => Some(Instruction::ROR(ShiftAddressingMode::AbsoluteX)),
            0x7F => Some(Instruction::RRA(StoreAddressingMode::AbsoluteX)),
            0x80 => Some(Instruction::SKB),
            0x81 => Some(Instruction::STA(StoreAddressingMode::IndexedIndirect)),
            0x82 => Some(Instruction::SKB),
            0x83 => Some(Instruction::SAX(SAXAddressingMode::IndexedIndirect)),
            0x84 => Some(Instruction::STY(STYAddressingMode::ZeroPage)),
            0x85 => Some(Instruction::STA(StoreAddressingMode::ZeroPage)),
            0x86 => Some(Instruction::STX(STXAddressingMode::ZeroPage)),
            0x87 => Some(Instruction::SAX(SAXAddressingMode::ZeroPage)),
            0x88 => Some(Instruction::DEY),
            0x89 => Some(Instruction::SKB),
            0x8A => Some(Instruction::TXA),
            0x8C => Some(Instruction::STY(STYAddressingMode::Absolute)),
            0x8D => Some(Instruction::STA(StoreAddressingMode::Absolute)),
            0x8E => Some(Instruction::STX(STXAddressingMode::Absolute)),
            0x8F => Some(Instruction::SAX(SAXAddressingMode::Absolute)),
            0x90 => Some(Instruction::BCC),
            0x91 => Some(Instruction::STA(StoreAddressingMode::IndirectIndexed)),
            0x94 => Some(Instruction::STY(STYAddressingMode::ZeroPageX)),
            0x95 => Some(Instruction::STA(StoreAddressingMode::ZeroPageX)),
            0x96 => Some(Instruction::STX(STXAddressingMode::ZeroPageY)),
            0x97 => Some(Instruction::SAX(SAXAddressingMode::ZeroPageY)),
            0x98 => Some(Instruction::TYA),
            0x99 => Some(Instruction::STA(StoreAddressingMode::AbsoluteY)),
            0x9A => Some(Instruction::TXS),
            0x9D => Some(Instruction::STA(StoreAddressingMode::AbsoluteX)),
            0xA0 => Some(Instruction::LDY(LDYAddressingMode::Immediate)),
            0xA1 => Some(Instruction::LDA(FlexibleAddressingMode::IndexedIndirect)),
            0xA2 => Some(Instruction::LDX(LDXAddressingMode::Immediate)),
            0xA3 => Some(Instruction::LAX(LAXAddressingMode::IndexedIndirect)),
            0xA4 => Some(Instruction::LDY(LDYAddressingMode::ZeroPage)),
            0xA5 => Some(Instruction::LDA(FlexibleAddressingMode::ZeroPage)),
            0xA6 => Some(Instruction::LDX(LDXAddressingMode::ZeroPage)),
            0xA7 => Some(Instruction::LAX(LAXAddressingMode::ZeroPage)),
            0xA8 => Some(Instruction::TAY),
            0xA9 => Some(Instruction::LDA(FlexibleAddressingMode::Immediate)),
            0xAA => Some(Instruction::TAX),
            0xAC => Some(Instruction::LDY(LDYAddressingMode::Absolute)),
            0xAD => Some(Instruction::LDA(FlexibleAddressingMode::Absolute)),
            0xAE => Some(Instruction::LDX(LDXAddressingMode::Absolute)),
            0xAF => Some(Instruction::LAX(LAXAddressingMode::Absolute)),
            0xB0 => Some(Instruction::BCS),
            0xB1 => Some(Instruction::LDA(FlexibleAddressingMode::IndirectIndexed)),
            0xB3 => Some(Instruction::LAX(LAXAddressingMode::IndirectIndexed)),
            0xB4 => Some(Instruction::LDY(LDYAddressingMode::ZeroPageX)),
            0xB5 => Some(Instruction::LDA(FlexibleAddressingMode::ZeroPageX)),
            0xB6 => Some(Instruction::LDX(LDXAddressingMode::ZeroPageY)),
            0xB7 => Some(Instruction::LAX(LAXAddressingMode::ZeroPageY)),
            0xB8 => Some(Instruction::CLV),
            0xB9 => Some(Instruction::LDA(FlexibleAddressingMode::AbsoluteY)),
            0xBA => Some(Instruction::TSX),
            0xBC => Some(Instruction::LDY(LDYAddressingMode::AbsoluteX)),
            0xBD => Some(Instruction::LDA(FlexibleAddressingMode::AbsoluteX)),
            0xBE => Some(Instruction::LDX(LDXAddressingMode::AbsoluteY)),
            0xBF => Some(Instruction::LAX(LAXAddressingMode::AbsoluteY)),
            0xC0 => Some(Instruction::CPY(CompareAddressingMode::Immediate)),
            0xC1 => Some(Instruction::CMP(FlexibleAddressingMode::IndexedIndirect)),
            0xC2 => Some(Instruction::SKB),
            0xC3 => Some(Instruction::DCP(StoreAddressingMode::IndexedIndirect)),
            0xC4 => Some(Instruction::CPY(CompareAddressingMode::ZeroPage)),
            0xC5 => Some(Instruction::CMP(FlexibleAddressingMode::ZeroPage)),
            0xC6 => Some(Instruction::DEC(IncDecAddressingMode::ZeroPage)),
            0xC7 => Some(Instruction::DCP(StoreAddressingMode::ZeroPage)),
            0xC8 => Some(Instruction::INY),
            0xC9 => Some(Instruction::CMP(FlexibleAddressingMode::Immediate)),
            0xCA => Some(Instruction::DEX),
            0xCC => Some(Instruction::CPY(CompareAddressingMode::Absolute)),
            0xCD => Some(Instruction::CMP(FlexibleAddressingMode::Absolute)),
            0xCE => Some(Instruction::DEC(IncDecAddressingMode::Absolute)),
            0xCF => Some(Instruction::DCP(StoreAddressingMode::Absolute)),
            0xD0 => Some(Instruction::BNE),
            0xD1 => Some(Instruction::CMP(FlexibleAddressingMode::IndirectIndexed)),
            0xD3 => Some(Instruction::DCP(StoreAddressingMode::IndirectIndexed)),
            0xD4 => Some(Instruction::IGN(IncDecAddressingMode::ZeroPageX)),
            0xD5 => Some(Instruction::CMP(FlexibleAddressingMode::ZeroPageX)),
            0xD6 => Some(Instruction::DEC(IncDecAddressingMode::ZeroPageX)),
            0xD7 => Some(Instruction::DCP(StoreAddressingMode::ZeroPageX)),
            0xD8 => Some(Instruction::CLD),
            0xD9 => Some(Instruction::CMP(FlexibleAddressingMode::AbsoluteY)),
            0xDA => Some(Instruction::NOP),
            0xDB => Some(Instruction::DCP(StoreAddressingMode::AbsoluteY)),
            0xDC => Some(Instruction::IGN(IncDecAddressingMode::AbsoluteX)),
            0xDD => Some(Instruction::CMP(FlexibleAddressingMode::AbsoluteX)),
            0xDE => Some(Instruction::DEC(IncDecAddressingMode::AbsoluteX)),
            0xDF => Some(Instruction::DCP(StoreAddressingMode::AbsoluteX)),
            0xE0 => Some(Instruction::CPX(CompareAddressingMode::Immediate)),
            0xE1 => Some(Instruction::SBC(FlexibleAddressingMode::IndexedIndirect)),
            0xE2 => Some(Instruction::SKB),
            0xE3 => Some(Instruction::ISC(StoreAddressingMode::IndexedIndirect)),
            0xE4 => Some(Instruction::CPX(CompareAddressingMode::ZeroPage)),
            0xE5 => Some(Instruction::SBC(FlexibleAddressingMode::ZeroPage)),
            0xE6 => Some(Instruction::INC(IncDecAddressingMode::ZeroPage)),
            0xE7 => Some(Instruction::ISC(StoreAddressingMode::ZeroPage)),
            0xE8 => Some(Instruction::INX),
            0xE9 => Some(Instruction::SBC(FlexibleAddressingMode::Immediate)),
            0xEA => Some(Instruction::NOP),
            0xEB => Some(Instruction::ADC(FlexibleAddressingMode::Immediate)),
            0xEC => Some(Instruction::CPX(CompareAddressingMode::Absolute)),
            0xED => Some(Instruction::SBC(FlexibleAddressingMode::Absolute)),
            0xEE => Some(Instruction::INC(IncDecAddressingMode::Absolute)),
            0xEF => Some(Instruction::ISC(StoreAddressingMode::Absolute)),
            0xF0 => Some(Instruction::BEQ),
            0xF1 => Some(Instruction::SBC(FlexibleAddressingMode::IndirectIndexed)),
            0xF3 => Some(Instruction::ISC(StoreAddressingMode::IndirectIndexed)),
            0xF4 => Some(Instruction::IGN(IncDecAddressingMode::ZeroPageX)),
            0xF5 => Some(Instruction::SBC(FlexibleAddressingMode::ZeroPageX)),
            0xF6 => Some(Instruction::INC(IncDecAddressingMode::ZeroPageX)),
            0xF7 => Some(Instruction::ISC(StoreAddressingMode::ZeroPageX)),
            0xF8 => Some(Instruction::SED),
            0xF9 => Some(Instruction::SBC(FlexibleAddressingMode::AbsoluteY)),
            0xFA => Some(Instruction::NOP),
            0xFB => Some(Instruction::ISC(StoreAddressingMode::AbsoluteY)),
            0xFC => Some(Instruction::IGN(IncDecAddressingMode::AbsoluteX)),
            0xFD => Some(Instruction::SBC(FlexibleAddressingMode::AbsoluteX)),
            0xFE => Some(Instruction::INC(IncDecAddressingMode::AbsoluteX)),
            0xFF => Some(Instruction::ISC(StoreAddressingMode::AbsoluteX)),
            _ => None,
        }
    }

    /// The opcode of the instruction; where several opcodes stand for it, the lowest.
    pub fn to_opcode(self) -> (opcode: u8)
        ensures
            opcode == encode(self),
    {
        match self {
            Instruction::LDA(FlexibleAddressingMode::Immediate) => 0xA9,
            Instruction::LDA(FlexibleAddressingMode::ZeroPage) => 0xA5,
            Instruction::LDA(FlexibleAddressingMode::ZeroPageX) => 0xB5,
            Instruction::LDA(FlexibleAddressingMode::Absolute) => 0xAD,
            Instruction::LDA(FlexibleAddressingMode::AbsoluteX) => 0xBD,
            Instruction::LDA(FlexibleAddressingMode::AbsoluteY) => 0xB9,
            Instruction::LDA(FlexibleAddressingMode::IndexedIndirect) => 0xA1,
            Instruction::LDA(FlexibleAddressingMode::IndirectIndexed) => 0xB1,
            Instruction::LDX(LDXAddressingMode::Immediate) => 0xA2,
            Instruction::LDX(LDXAddressingMode::ZeroPage) => 0xA6,
            Instruction::LDX(LDXAddressingMode::ZeroPageY) => 0xB6,
            Instruction::LDX(LDXAddressingMode::Absolute) => 0xAE,
            Instruction::LDX(LDXAddressingMode::AbsoluteY) => 0xBE,
            Instruction::LDY(LDYAddressingMode::Immediate) => 0xA0,
            Instruction::LDY(LDYAddressingMode::ZeroPage) => 0xA4,
            Instruction::LDY(LDYAddressingMode::ZeroPageX) => 0xB4,
            Instruction::LDY(LDYAddressingMode::Absolute) => 0xAC,
            Instruction::LDY(LDYAddressingMode::AbsoluteX) => 0xBC,
            Instruction::STA(StoreAddressingMode::ZeroPage) => 0x85,
            Instruction::STA(StoreAddressingMode::ZeroPageX) => 0x95,
            Instruction::STA(StoreAddressingMode::Absolute) => 0x8D,
            Instruction::STA(StoreAddressingMode::AbsoluteX) => 0x9D,
            Instruction::STA(StoreAddressingMode::AbsoluteY) => 0x99,
            Instruction::STA(StoreAddressingMode::IndexedIndirect) => 0x81,
            Instruction::STA(StoreAddressingMode::IndirectIndexed) => 0x91,
            Instruction::STX(STXAddressingMode::ZeroPage) => 0x86,
            Instruction::STX(STXAddressingMode::ZeroPageY) => 0x96,
            Instruction::STX(STXAddressingMode::Absolute) => 0x8E,
            Instruction::STY(STYAddressingMode::ZeroPage) => 0x84,
            Instruction::STY(STYAddressingMode::ZeroPageX) => 0x94,
            Instruction::STY(STYAddressingMode::Absolute) => 0x8C,
            Instruction::TAX => 0xAA,
            Instruction::TAY => 0xA8,
            Instruction::TXA => 0x8A,
            Instruction::TYA => 0x98,
            Instruction::TSX => 0xBA,
            Instruction::TXS => 0x9A,
            Instruction::PHA => 0x48,
            Instruction::PHP => 0x08,
            Instruction::PLA => 0x68,
            Instruction::PLP => 0x28,
            Instruction::AND(FlexibleAddressingMode::Immediate) => 0x29,
            Instruction::AND(FlexibleAddressingMode::ZeroPage) => 0x25,
            Instruction::AND(FlexibleAddressingMode::ZeroPageX) => 0x35,
            Instruction::AND(FlexibleAddressingMode::Absolute) => 0x2D,
            Instruction::AND(FlexibleAddressingMode::AbsoluteX) => 0x3D,
            Instruction::AND(FlexibleAddressingMode::AbsoluteY) => 0x39,
            Instruction::AND(FlexibleAddressingMode::IndexedIndirect) => 0x21,
            Instruction::AND(FlexibleAddressingMode::IndirectIndexed) => 0x31,
            Instruction::EOR(FlexibleAddressingMode::Immediate) => 0x49,
            Instruction::EOR(FlexibleAddressingMode::ZeroPage) => 0x45,
            Instruction::EOR(FlexibleAddressingMode::ZeroPageX) => 0x55,
            Instruction::EOR(FlexibleAddressingMode::Absolute) => 0x4D,
            Instruction::EOR(FlexibleAddressingMode::AbsoluteX) => 0x5D,
            Instruction::EOR(FlexibleAddressingMode::AbsoluteY) => 0x59,
            Instruction::EOR(FlexibleAddressingMode::IndexedIndirect) => 0x41,
            Instruction::EOR(FlexibleAddressingMode::IndirectIndexed) => 0x51,
            Instruction::ORA(FlexibleAddressingMode::Immediate) => 0x09,
            Instruction::ORA(FlexibleAddressingMode::ZeroPage) => 0x05,
            Instruction::ORA(FlexibleAddressingMode::ZeroPageX) => 0x15,
            Instruction::ORA(FlexibleAddressingMode::Absolute) => 0x0D,
            Instruction::ORA(FlexibleAddressingMode::AbsoluteX) => 0x1D,
            Instruction::ORA(FlexibleAddressingMode::AbsoluteY) => 0x19,
            Instruction::ORA(FlexibleAddressingMode::IndexedIndirect) => 0x01,
            Instruction::ORA(FlexibleAddressingMode::IndirectIndexed) => 0x11,
            Instruction::BIT(BITAddressingMode::ZeroPage) => 0x24,
            Instruction::BIT(BITAddressingMode::Absolute) => 0x2C,
            Instruction::ADC(FlexibleAddressingMode::Immediate) => 0x69,
            Instruction::ADC(FlexibleAddressingMode::ZeroPage) => 0x65,
            Instruction::ADC(FlexibleAddressingMode::ZeroPageX) => 0x75,
            Instruction::ADC(FlexibleAddressingMode::Absolute) => 0x6D,
            Instruction::ADC(FlexibleAddressingMode::AbsoluteX) => 0x7D,
            Instruction::ADC(FlexibleAddressingMode::AbsoluteY) => 0x79,
            Instruction::ADC(FlexibleAddressingMode::IndexedIndirect) => 0x61,
            Instruction::ADC(FlexibleAddressingMode::IndirectIndexed) => 0x71,
            Instruction::SBC(FlexibleAddressingMode::Immediate) => 0xE9,
            Instruction::SBC(FlexibleAddressingMode::ZeroPage) => 0xE5,
            Instruction::SBC(FlexibleAddressingMode::ZeroPageX) => 0xF5,
            Instruction::SBC(FlexibleAddressingMode::Absolute) => 0xED,
            Instruction::SBC(FlexibleAddressingMode::AbsoluteX) => 0xFD,
            Instruction::SBC(FlexibleAddressingMode::AbsoluteY) => 0xF9,
            Instruction::SBC(FlexibleAddressingMode::IndexedIndirect) => 0xE1,
            Instruction::SBC(FlexibleAddressingMode::IndirectIndexed) => 0xF1,
            Instruction::CMP(FlexibleAddressingMode::Immediate) => 0xC9,
            Instruction::CMP(FlexibleAddressingMode::ZeroPage) => 0xC5,
            Instruction::CMP(FlexibleAddressingMode::ZeroPageX) => 0xD5,
            Instruction::CMP(FlexibleAddressingMode::Absolute) => 0xCD,
            Instruction::CMP(FlexibleAddressingMode::AbsoluteX) => 0xDD,
            Instruction::CMP(FlexibleAddressingMode::AbsoluteY) => 0xD9,
            Instruction::CMP(FlexibleAddressingMode::IndexedIndirect) => 0xC1,
            Instruction::CMP(FlexibleAddressingMode::IndirectIndexed) => 0xD1,
            Instruction::CPX(CompareAddressingMode::Immediate) => 0xE0,
            Instruction::CPX(CompareAddressingMode::ZeroPage) => 0xE4,
            Instruction::CPX(CompareAddressingMode::Absolute) => 0xEC,
            Instruction::CPY(CompareAddressingMode::Immediate) => 0xC0,
            Instruction::CPY(CompareAddressingMode::ZeroPage) => 0xC4,
            Instruction::CPY(CompareAddressingMode::Absolute) => 0xCC,
            Instruction::INC(IncDecAddressingMode::ZeroPage) => 0xE6,
            Instruction::INC(IncDecAddressingMode::ZeroPageX) => 0xF6,
            Instruction::INC(IncDecAddressingMode::Absolute) => 0xEE,
            Instruction::INC(IncDecAddressingMode::AbsoluteX) => 0xFE,
            Instruction::INX => 0xE8,
            Instruction::INY => 0xC8,
            Instruction::DEC(IncDecAddressingMode::ZeroPage) => 0xC6,
            Instruction::DEC(IncDecAddressingMode::ZeroPageX) => 0xD6,
            Instruction::DEC(IncDecAddressingMode::Absolute) => 0xCE,
            Instruction::DEC(IncDecAddressingMode::AbsoluteX) => 0xDE,
            Instruction::DEX => 0xCA,
            Instruction::DEY => 0x88,
            Instruction::ASL(ShiftAddressingMode::Accumulator) => 0x0A,
            Instruction::ASL(ShiftAddressingMode::ZeroPage) => 0x06,
            Instruction::ASL(ShiftAddressingMode::ZeroPageX) => 0x16,
            Instruction::ASL(ShiftAddressingMode::Absolute) => 0x0E,
            Instruction::ASL(ShiftAddressingMode::AbsoluteX) => 0x1E,
            Instruction::LSR(ShiftAddressingMode::Accumulator) => 0x4A,
            Instruction::LSR(ShiftAddressingMode::ZeroPage) => 0x46,
            Instruction::LSR(ShiftAddressingMode::ZeroPageX) => 0x56,
            Instruction::LSR(ShiftAddressingMode::Absolute) => 0x4E,
            Instruction::LSR(ShiftAddressingMode::AbsoluteX) => 0x5E,
            Instruction::ROL(ShiftAddressingMode::Accumulator) => 0x2A,
            Instruction::ROL(ShiftAddressingMode::ZeroPage) => 0x26,
            Instruction::ROL(ShiftAddressingMode::ZeroPageX) => 0x36,
            Instruction::ROL(ShiftAddressingMode::Absolute) => 0x2E,
            Instruction::ROL(ShiftAddressingMode::AbsoluteX) => 0x3E,
            Instruction::ROR(ShiftAddressingMode::Accumulator) => 0x6A,
            Instruction::ROR(ShiftAddressingMode::ZeroPage) => 0x66,
            Instruction::ROR(ShiftAddressingMode::ZeroPageX) => 0x76,
            Instruction::ROR(ShiftAddressingMode::Absolute) => 0x6E,
            Instruction::ROR(ShiftAddressingMode::AbsoluteX) => 0x7E,
            Instruction::JMP(JumpAddressingMode::Absolute) => 0x4C,
            Instruction::JMP(JumpAddressingMode::Indirect) => 0x6C,
            Instruction::JSR => 0x20,
            Instruction::RTS => 0x60,
            Instruction::BCC => 0x90,
            Instruction::BCS => 0xB0,
            Instruction::BEQ => 0xF0,
            Instruction::BMI => 0x30,
            Instruction::BNE => 0xD0,
            Instruction::BPL => 0x10,
            Instruction::BVC => 0x50,
            Instruction::BVS => 0x70,
            Instruction::CLC => 0x18,
            Instruction::CLD => 0xD8,
            Instruction::CLI => 0x58,
            Instruction::CLV => 0xB8,
            Instruction::SEC => 0x38,
            Instruction::SED => 0xF8,
            Instruction::SEI => 0x78,
            Instruction::BRK => 0x00,
            Instruction::NOP => 0x1A,
            Instruction::RTI => 0x40,
            Instruction::IGN(IncDecAddressingMode::ZeroPage) => 0x04,
            Instruction::IGN(IncDecAddressingMode::ZeroPageX) => 0x14,
            Instruction::IGN(IncDecAddressingMode::Absolute) => 0x0C,
            Instruction::IGN(IncDecAddressingMode::AbsoluteX) => 0x1C,
            Instruction::SKB => 0x80,
            Instruction::LAX(LAXAddressingMode::ZeroPage) => 0xA7,
            Instruction::LAX(LAXAddressingMode::ZeroPageY) => 0xB7,
            Instruction::LAX(LAXAddressingMode::Absolute) => 0xAF,
            Instruction::LAX(LAXAddressingMode::AbsoluteY) => 0xBF,
            Instruction::LAX(LAXAddressingMode::IndexedIndirect) => 0xA3,
            Instruction::LAX(LAXAddressingMode::IndirectIndexed) => 0xB3,
            Instruction::SAX(SAXAddressingMode::ZeroPage) => 0x87,
            Instruction::SAX(SAXAddressingMode::ZeroPageY) => 0x97,
            Instruction::SAX(SAXAddressingMode::Absolute) => 0x8F,
            Instruction::SAX(SAXAddressingMode::IndexedIndirect) => 0x83,
            Instruction::DCP(StoreAddressingMode::ZeroPage) => 0xC7,
            Instruction::DCP(StoreAddressingMode::ZeroPageX) => 0xD7,
            Instruction::DCP(StoreAddressingMode::Absolute) => 0xCF,
            Instruction::DCP(StoreAddressingMode::AbsoluteX) => 0xDF,
            Instruction::DCP(StoreAddressingMode::AbsoluteY) => 0xDB,
            Instruction::DCP(StoreAddressingMode::IndexedIndirect) => 0xC3,
            Instruction::DCP(StoreAddressingMode::IndirectIndexed) => 0xD3,
            Instruction::ISC(StoreAddressingMode::ZeroPage) => 0xE7,
            Instruction::ISC(StoreAddressingMode::ZeroPageX) => 0xF7,
            Instruction::ISC(StoreAddressingMode::Absolute) => 0xEF,
            Instruction::ISC(StoreAddressingMode::AbsoluteX) => 0xFF,
            Instruction::ISC(StoreAddressingMode::AbsoluteY) => 0xFB,
            Instruction::ISC(StoreAddressingMode::IndexedIndirect) => 0xE3,
            Instruction::ISC(StoreAddressingMode::IndirectIndexed) => 0xF3,
            Instruction::SLO(StoreAddressingMode::ZeroPage) => 0x07,
            Instruction::SLO(StoreAddressingMode::ZeroPageX) => 0x17,
            Instruction::SLO(StoreAddressingMode::Absolute) => 0x0F,
            Instruction::SLO(StoreAddressingMode::AbsoluteX) => 0x1F,
            Instruction::SLO(StoreAddressingMode::AbsoluteY) => 0x1B,
            Instruction::SLO(StoreAddressingMode::IndexedIndirect) => 0x03,
            Instruction::SLO(StoreAddressingMode::IndirectIndexed) => 0x13,
            Instruction::RLA(StoreAddressingMode::ZeroPage) => 0x27,
            Instruction::RLA(StoreAddressingMode::ZeroPageX) => 0x37,
            Instruction::RLA(StoreAddressingMode::Absolute) => 0x2F,
            Instruction::RLA(StoreAddressingMode::AbsoluteX) => 0x3F,
            Instruction::RLA(StoreAddressingMode::AbsoluteY) => 0x3B,
            Instruction::RLA(StoreAddressingMode::IndexedIndirect) => 0x23,
            Instruction::RLA(StoreAddressingMode::IndirectIndexed) => 0x33,
            Instruction::SRE(StoreAddressingMode::ZeroPage) => 0x47,
            Instruction::SRE(StoreAddressingMode::ZeroPageX) => 0x57,
            Instruction::SRE(StoreAddressingMode::Absolute) => 0x4F,
            Instruction::SRE(StoreAddressingMode::AbsoluteX) => 0x5F,
            Instruction::SRE(StoreAddressingMode::AbsoluteY) => 0x5B,
            Instruction::SRE(StoreAddressingMode::IndexedIndirect) => 0x43,
            Instruction::SRE(StoreAddressingMode::IndirectIndexed) => 0x53,
            Instruction::RRA(StoreAddressingMode::ZeroPage) => 0x67,
            Instruction::RRA(StoreAddressingMode::ZeroPageX) => 0x77,
            Instruction::RRA(StoreAddressingMode::Absolute) => 0x6F,
            Instruction::RRA(StoreAddressingMode::AbsoluteX) => 0x7F,
            Instruction::RRA(StoreAddressingMode::AbsoluteY) => 0x7B,
            Instruction::RRA(StoreAddressingMode::IndexedIndirect) => 0x63,
            Instruction::RRA(StoreAddressingMode::IndirectIndexed) => 0x73,
        }
    }
}

} // verus!

//! Opcodes of the 6502 instructions, one name for each opcode.

use vstd::prelude::*;

verus! {

pub const BRK: u8 = 0x00;
pub const ORA_INDEXED_INDIRECT: u8 = 0x01;
pub const SLO_INDEXED_INDIRECT: u8 = 0x03;
pub const IGN_ZERO_PAGE: u8 = 0x04;
pub const ORA_ZERO_PAGE: u8 = 0x05;
pub const ASL_ZERO_PAGE: u8 = 0x06;
pub const SLO_ZERO_PAGE: u8 = 0x07;
pub const PHP: u8 = 0x08;
pub const ORA_IMMEDIATE: u8 = 0x09;
pub const ASL_ACCUMULATOR: u8 = 0x0A;
pub const IGN_ABSOLUTE: u8 = 0x0C;
pub const ORA_ABSOLUTE: u8 = 0x0D;
pub const ASL_ABSOLUTE: u8 = 0x0E;
pub const SLO_ABSOLUTE: u8 = 0x0F;
pub const BPL: u8 = 0x10;
pub const ORA_INDIRECT_INDEXED: u8 = 0x11;
pub const SOL_INDIRECT_INDEXED: u8 = 0x13;
pub const ORA_ZERO_PAGE_X: u8 = 0x15;
pub const IGN_ZERO_PAGE_X: u8 = 0x14;
pub const ASL_ZERO_PAGE_X: u8 = 0x16;
pub const SLO_ZERO_PAGE_X: u8 = 0x17;
pub const CLC: u8 = 0x18;
pub const ORA_ABSOLUTE_Y: u8 = 0x19;
pub const SLO_ABSOLUTE_Y: u8 = 0x1B;
pub const IGN_ABSOLUTE_X: u8 = 0x1C;
pub const ORA_ABSOLUTE_X: u8 = 0x1D;
pub const ASL_ABSOLUTE_X: u8 = 0x1E;
pub const SLO_ABSOLUTE_X: u8 = 0x1F;
pub const JSR: u8 = 0x20;
pub const AND_INDEXED_INDIRECT: u8 = 0x21;
pub const RLA_INDEXED_INDIRECT: u8 = 0x23;
pub const BIT_ZERO_PAGE: u8 = 0x24;
pub const AND_ZERO_PAGE: u8 = 0x25;
pub const ROL_ZERO_PAGE: u8 = 0x26;
pub const RLA_ZERO_PAGE: u8 = 0x27;
pub const PLP: u8 = 0x28;
pub const AND_IMMEDIATE: u8 = 0x29;
pub const ROL_ACCUMULATOR: u8 = 0x2A;
pub const BIT_ABSOLUTE: u8 = 0x2C;
pub const AND_ABSOLUTE: u8 = 0x2D;
pub const ROL_ABSOLUTE: u8 = 0x2E;
pub const RLA_ABSOLUTE: u8 = 0x2F;
pub const BMI: u8 = 0x30;
pub const AND_INDIRECT_INDEXED: u8 = 0x31;
pub const RLA_INDIRECT_INDEXED: u8 = 0x33;
pub const AND_ZERO_PAGE_X: u8 = 0x35;
pub const ROL_ZERO_PAGE_X: u8 = 0x36;
pub const RLA_ZERO_PAGE_X: u8 = 0x37;
pub const SEC: u8 = 0x38;
pub const AND_ABSOLUTE_Y: u8 = 0x39;
pub const RLA_ABSOLUTE_Y: u8 = 0x3B;
pub const AND_ABSOLUTE_X: u8 = 0x3D;
pub const ROL_ABSOLUTE_X: u8 = 0x3E;
pub const RLA_ABSOLUTE_X: u8 = 0x3F;
pub const RTI: u8 = 0x40;
pub const EOR_INDEXED_INDIRECT: u8 = 0x41;
pub const SRE_INDEXED_INDIRECT: u8 = 0x43;
pub const EOR_ZERO_PAGE: u8 = 0x45;
pub const LSR_ZERO_PAGE: u8 = 0x46;
pub const SRE_ZERO_PAGE: u8 = 0x47;
pub const PHA: u8 = 0x48;
pub const EOR_IMMEDIATE: u8 = 0x49;
pub const LSR_ACCUMULATOR: u8 = 0x4A;
pub const JMP_ABSOLUTE: u8 = 0x4C;
pub const EOR_ABSOLUTE: u8 = 0x4D;
pub const LSR_ABSOLUTE: u8 = 0x4E;
pub const SRE_ABSOLUTE: u8 = 0x4F;
pub const BVC: u8 = 0x50;
pub const EOR_INDIRECT_INDEXED: u8 = 0x51;
pub const SRE_INDIRECT_INDEXED: u8 = 0x53;
pub const EOR_ZERO_PAGE_X: u8 = 0x55;
pub const LSR_ZERO_PAGE_X: u8 = 0x56;
pub const SRE_ZERO_PAGE_X: u8 = 0x57;
pub const CLI: u8 = 0x58;
pub const EOR_ABSOLUTE_Y: u8 = 0x59;
pub const SRE_ABSOLUTE_Y: u8 = 0x5B;
pub const EOR_ABSOLUTE_X: u8 = 0x5D;
pub const LSR_ABSOLUTE_X: u8 = 0x5E;
pub const SRE_ABSOLUTE_X: u8 = 0x5F;
pub const RTS: u8 = 0x60;
pub const ADC_INDEXED_INDIRECT: u8 = 0x61;
pub const RRA_INDEXED_INDIRECT: u8 = 0x63;
pub const ADC_ZERO_PAGE: u8 = 0x65;
pub const ROR_ZERO_PAGE: u8 = 0x66;
pub const RRA_ZERO_PAGE: u8 = 0x67;
pub const PLA: u8 = 0x68;
pub const ADC_IMMEDIATE: u8 = 0x69;
pub const ROR_ACCUMULATOR: u8 = 0x6A;
pub const JMP_INDIRECT: u8 = 0x6C;
pub const ADC_ABSOLUTE: u8 = 0x6D;
pub const ROR_ABSOLUTE: u8 = 0x6E;
pub const RRA_ABSOLUTE: u8 = 0x6F;
pub const BVS: u8 = 0x70;
pub const ADC_INDIRECT_INDEXED: u8 = 0x71;
pub const RRA_INDIRECT_INDEXED: u8 = 0x73;
pub const ADC_ZERO_PAGE_X: u8 = 0x75;
pub const ROR_ZERO_PAGE_X: u8 = 0x76;
pub const RRA_ZERO_PAGE_X: u8 = 0x77;
pub const SEI: u8 = 0x78;
pub const ADC_ABSOLUTE_Y: u8 = 0x79;
pub const RRA_ABSOLUTE_Y: u8 = 0x7B;
pub const ADC_ABSOLUTE_X: u8 = 0x7D;
pub const ROR_ABSOLUTE_X: u8 = 0x7E;
pub const RRA_ABSOLUTE_X: u8 = 0x7F;
pub const SKB: u8 = 0x80;
pub const STA_INDEXED_INDIRECT: u8 = 0x81;
pub const SAX_INDEXED_INDIRECT: u8 = 0x83;
pub const STY_ZERO_PAGE: u8 = 0x84;
pub const STA_ZERO_PAGE: u8 = 0x85;
pub const STX_ZERO_PAGE: u8 = 0x86;
pub const SAX_ZERO_PAGE: u8 = 0x87;
pub const DEY: u8 = 0x88;
pub const TXA: u8 = 0x8A;
pub const STY_ABSOLUTE: u8 = 0x8C;
pub const STA_ABSOLUTE: u8 = 0x8D;
pub const STX_ABSOLUTE: u8 = 0x8E;
pub const SAX_ABSOLUTE: u8 = 0x8F;
pub const BCC: u8 = 0x90;
pub const STA_INDIRECT_INDEXED: u8 = 0x91;
pub const STY_ZERO_PAGE_X: u8 = 0x94;
pub const STA_ZERO_PAGE_X: u8 = 0x95;
pub const STX_ZERO_PAGE_Y: u8 = 0x96;
pub const SAX_ZERO_PAGE_Y: u8 = 0x97;
pub const TYA: u8 = 0x98;
pub const STA_ABSOLUTE_Y: u8 = 0x99;
pub const TXS: u8 = 0x9A;
pub const STA_ABSOLUTE_X: u8 = 0x9D;
pub const LDY_IMMEDIATE: u8 = 0xA0;
pub const LDA_INDEXED_INDIRECT: u8 = 0xA1;
pub const LDX_IMMEDIATE: u8 = 0xA2;
pub const LAX_INDEXED_INDIRECT: u8 = 0xA3;
pub const LDY_ZERO_PAGE: u8 = 0xA4;
pub const LDA_ZERO_PAGE: u8 = 0xA5;
pub const LDX_ZERO_PAGE: u8 = 0xA6;
pub const LAX_ZERO_PAGE: u8 = 0xA7;
pub const TAY: u8 = 0xA8;
pub const LDA_IMMEDIATE: u8 = 0xA9;
pub const TAX: u8 = 0xAA;
pub const LDY_ABSOLUTE: u8 = 0xAC;
pub const LDA_ABSOLUTE: u8 = 0xAD;
pub const LDX_ABSOLUTE: u8 = 0xAE;
pub const LAX_ABSOLUTE: u8 = 0xAF;
pub const BCS: u8 = 0xB0;
pub const LDA_INDIRECT_INDEXED: u8 = 0xB1;
pub const LAX_INDIRECT_INDEXED: u8 = 0xB3;
pub const LDY_ZERO_PAGE_X: u8 = 0xB4;
pub const LDA_ZERO_PAGE_X: u8 = 0xB5;
pub const LDX_ZERO_PAGE_Y: u8 = 0xB6;
pub const LAX_ZERO_PAGE_Y: u8 = 0xB7;
pub const CLV: u8 = 0xB8;
pub const LDA_ABSOLUTE_Y: u8 = 0xB9;
pub const TSX: u8 = 0xBA;
pub const LDY_ABSOLUTE_X: u8 = 0xBC;
pub const LDA_ABSOLUTE_X: u8 = 0xBD;
pub const LDX_ABSOLUTE_Y: u8 = 0xBE;
pub const LAX_ABSOLUTE_Y: u8 = 0xBF;
pub const CPY_IMMEDIATE: u8 = 0xC0;
pub const CMP_INDEXED_INDIRECT: u8 = 0xC1;
pub const DCP_INDEXED_INDIRECT: u8 = 0xC3;
pub const CPY_ZERO_PAGE: u8 = 0xC4;
pub const CMP_ZERO_PAGE: u8 = 0xC5;
pub const DEC_ZERO_PAGE: u8 = 0xC6;
pub const DCP_ZERO_PAGE: u8 = 0xC7;
pub const INY: u8 = 0xC8;
pub const CMP_IMMEDIATE: u8 = 0xC9;
pub const DEX: u8 = 0xCA;
pub const CPY_ABSOLUTE: u8 = 0xCC;
pub const CMP_ABSOLUTE: u8 = 0xCD;
pub const DEC_ABSOLUTE: u8 = 0xCE;
pub const DCP_ABSOLUTE: u8 = 0xCF;
pub const BNE: u8 = 0xD0;
pub const CMP_INDIRECT_INDEXED: u8 = 0xD1;
pub const DCP_INDIRECT_INDEXED: u8 = 0xD3;
pub const CMP_ZERO_PAGE_X: u8 = 0xD5;
pub const DEC_ZERO_PAGE_X: u8 = 0xD6;
pub const DCP_ZERO_PAGE_X: u8 = 0xD7;
pub const CLD: u8 = 0xD8;
pub const CMP_ABSOLUTE_Y: u8 = 0xD9;
pub const DCP_ABSOLUTE_Y: u8 = 0xDB;
pub const CMP_ABSOLUTE_X: u8 = 0xDD;
pub const DEC_ABSOLUTE_X: u8 = 0xDE;
pub const DCP_ABSOLUTE_X: u8 = 0xDF;
pub const CPX_IMMEDIATE: u8 = 0xE0;
pub const SBC_INDEXED_INDIRECT: u8 = 0xE1;
pub const ISC_INDEXED_INDIRECT: u8 = 0xE3;
pub const CPX_ZERO_PAGE: u8 = 0xE4;
pub const SBC_ZERO_PAGE: u8 = 0xE5;
pub const INC_ZERO_PAGE: u8 = 0xE6;
pub const ISC_ZERO_PAGE: u8 = 0xE7;
pub const INX: u8 = 0xE8;
pub const SBC_IMMEDIATE: u8 = 0xE9;
pub const NOP: u8 = 0xEA;
pub const CPX_ABSOLUTE: u8 = 0xEC;
pub const SBC_ABSOLUTE: u8 = 0xED;
pub const INC_ABSOLUTE: u8 = 0xEE;
pub const ISC_ABSOLUTE: u8 = 0xEF;
pub const BEQ: u8 = 0xF0;
pub const SBC_INDIRECT_INDEXED: u8 = 0xF1;
pub const ISC_INDIRECT_INDEXED: u8 = 0xF3;
pub const SBC_ZERO_PAGE_X: u8 = 0xF5;
pub const INC_ZERO_PAGE_X: u8 = 0xF6;
pub const ISC_ZERO_PAGE_X: u8 = 0xF7;
pub const SED: u8 = 0xF8;
pub const SBC_ABSOLUTE_Y: u8 = 0xF9;
pub const ISC_ABSOLUTE_Y: u8 = 0xFB;
pub const SBC_ABSOLUTE_X: u8 = 0xFD;
pub const INC_ABSOLUTE_X: u8 = 0xFE;
pub const ISC_ABSOLUTE_X: u8 = 0xFF;

} // verus!

use nes_rust::address::Address;
use nes_rust::apu::APU;
use nes_rust::cartridge::mapper::{AnyMapper, Mapper as _, NametableMirroring, MMC1};
use nes_rust::cartridge::Cartridge;
use nes_rust::cpu::instructions::{
    BRK,
    JSR,
    LDA_IMMEDIATE,
    NOP,
    PHA,
    PHP,
    PLA,
    PLP,
    RTS,
    STA_ABSOLUTE,
};
use nes_rust::cpu::{
    BITAddressingMode,
    CompareAddressingMode,
    FlexibleAddressingMode,
    IncDecAddressingMode,
    JumpAddressingMode,
    LDXAddressingMode,
    LDYAddressingMode,
    STXAddressingMode,
    STYAddressingMode,
    ShiftAddressingMode,
    StackPointer,
    Status,
    StoreAddressingMode,
    CPU,
};
use nes_rust::i_nes::{INes, INesReadError};
use nes_rust::input::{Buttons, Controller};
use nes_rust::mapper::{Mapper, UnrecognisedMapper};
use nes_rust::memory::{ArrayMemory, Memory};
use nes_rust::nes::NES;
use nes_rust::ppu::Color;
use nes_rust::runner::{Command, RunnerState};
use nes_rust::Instruction;

fn mem(blocks: &[(u16, &[u8])]) -> ArrayMemory {
    let mut memory = ArrayMemory::default();
    for (offset, data) in blocks.iter() {
        let mut address = *offset;
        for byte in data.iter() {
            memory.write(Address::new(address), *byte);
            address = address.wrapping_add(1);
        }
    }
    memory
}

fn ines(prg_banks: u8, chr_banks: u8, mapper: u8) -> Vec<u8> {
    let mut bytes = vec![0x4E, 0x45, 0x53, 0x1A, prg_banks, chr_banks, mapper << 4, mapper & 0xf0];
    bytes.resize(16, 0);
    bytes.resize(16 + prg_banks as usize * 16_384 + chr_banks as usize * 8_192, 0);
    bytes
}

#[test]
fn basic_instructions_return_correct_number_of_cycles() {
    let table = [
        (Instruction::LDA(FlexibleAddressingMode::Immediate), 2, false),
        (Instruction::LDA(FlexibleAddressingMode::ZeroPage), 3, false),
        (Instruction::LDA(FlexibleAddressingMode::ZeroPageX), 4, false),
        (Instruction::LDA(FlexibleAddressingMode::Absolute), 4, false),
        (Instruction::LDA(FlexibleAddressingMode::AbsoluteX), 4, false),
        (Instruction::LDA(FlexibleAddressingMode::AbsoluteX), 5, true),
        (Instruction::LDA(FlexibleAddressingMode::AbsoluteY), 4, false),
        (Instruction::LDA(FlexibleAddressingMode::AbsoluteY), 5, true),
        (Instruction::LDA(FlexibleAddressingMode::IndexedIndirect), 6, false),
        (Instruction::LDA(FlexibleAddressingMode::IndirectIndexed), 5, false),
        (Instruction::LDA(FlexibleAddressingMode::IndirectIndexed), 6, true),
        (Instruction::LDX(LDXAddressingMode::Immediate), 2, false),
        (Instruction::LDX(LDXAddressingMode::ZeroPage), 3, false),
        (Instruction::LDX(LDXAddressingMode::ZeroPageY), 4, false),
        (Instruction::LDX(LDXAddressingMode::Absolute), 4, false),
        (Instruction::LDX(LDXAddressingMode::AbsoluteY), 4, false),
        (Instruction::LDX(LDXAddressingMode::AbsoluteY), 5, true),
        (Instruction::LDY(LDYAddressingMode::Immediate), 2, false),
        (Instruction::LDY(LDYAddressingMode::ZeroPage), 3, false),
        (Instruction::LDY(LDYAddressingMode::ZeroPageX), 4, false),
        (Instruction::LDY(LDYAddressingMode::Absolute), 4, false),
        (Instruction::LDY(LDYAddressingMode::AbsoluteX), 4, false),
        (Instruction::LDY(LDYAddressingMode::AbsoluteX), 5, true),
        (Instruction::STA(StoreAddressingMode::ZeroPage), 3, false),
        (Instruction::STA(StoreAddressingMode::ZeroPageX), 4, false),
        (Instruction::STA(StoreAddressingMode::Absolute), 4, false),
        (Instruction::STA(StoreAddressingMode::AbsoluteX), 5, false),
        (Instruction::STA(StoreAddressingMode::AbsoluteX), 5, true),
        (Instruction::STA(StoreAddressingMode::AbsoluteY), 5, false),
        (Instruction::STA(StoreAddressingMode::AbsoluteY), 5, true),
        (Instruction::STA(StoreAddressingMode::IndexedIndirect), 6, false),
        (Instruction::STA(StoreAddressingMode::IndirectIndexed), 6, false),
        (Instruction::STA(StoreAddressingMode::IndirectIndexed), 6, true),
        (Instruction::STX(STXAddressingMode::ZeroPage), 3, false),
        (Instruction::STX(STXAddressingMode::ZeroPageY), 4, false),
        (Instruction::STX(STXAddressingMode::Absolute), 4, false),
        (Instruction::STY(STYAddressingMode::ZeroPage), 3, false),
        (Instruction::STY(STYAddressingMode::ZeroPageX), 4, false),
        (Instruction::STY(STYAddressingMode::Absolute), 4, false),
        (Instruction::TAX, 2, false),
        (Instruction::TAY, 2, false),
        (Instruction::TXA, 2, false),
        (Instruction::TYA, 2, false),
        (Instruction::TSX, 2, false),
        (Instruction::TXS, 2, false),
        (Instruction::PHA, 3, false),
        (Instruction::PHP, 3, false),
        (Instruction::PLA, 4, false),
        (Instruction::PLP, 4, false),
        (Instruction::AND(FlexibleAddressingMode::Immediate), 2, false),
        (Instruction::AND(FlexibleAddressingMode::ZeroPage), 3, false),
        (Instruction::AND(FlexibleAddressingMode::ZeroPageX), 4, false),
        (Instruction::AND(FlexibleAddressingMode::Absolute), 4, false),
        (Instruction::AND(FlexibleAddressingMode::AbsoluteX), 4, false),
        (Instruction::AND(FlexibleAddressingMode::AbsoluteX), 5, true),
        (Instruction::AND(FlexibleAddressingMode::AbsoluteY), 4, false),
        (Instruction::AND(FlexibleAddressingMode::AbsoluteY), 5, true),
        (Instruction::AND(FlexibleAddressingMode::IndexedIndirect), 6, false),
        (Instruction::AND(FlexibleAddressingMode::IndirectIndexed), 5, false),
        (Instruction::AND(FlexibleAddressingMode::IndirectIndexed), 6, true),
        (Instruction::EOR(FlexibleAddressingMode::Immediate), 2, false),
        (Instruction::EOR(FlexibleAddressingMode::ZeroPage), 3, false),
        (Instruction::EOR(FlexibleAddressingMode::ZeroPageX), 4, false),
        (Instruction::EOR(FlexibleAddressingMode::Absolute), 4, false),
        (Instruction::EOR(FlexibleAddressingMode::AbsoluteX), 4, false),
        (Instruction::EOR(FlexibleAddressingMode::AbsoluteX), 5, true),
        (Instruction::EOR(FlexibleAddressingMode::AbsoluteY), 4, false),
        (Instruction::EOR(FlexibleAddressingMode::AbsoluteY), 5, true),
        (Instruction::EOR(FlexibleAddressingMode::IndexedIndirect), 6, false),
        (Instruction::EOR(FlexibleAddressingMode::IndirectIndexed), 5, false),
        (Instruction::EOR(FlexibleAddressingMode::IndirectIndexed), 6, true),
        (Instruction::ORA(FlexibleAddressingMode::Immediate), 2, false),
        (Instruction::ORA(FlexibleAddressingMode::ZeroPage), 3, false),
        (Instruction::ORA(FlexibleAddressingMode::ZeroPageX), 4, false),
        (Instruction::ORA(FlexibleAddressingMode::Absolute), 4, false),
        (Instruction::ORA(FlexibleAddressingMode::AbsoluteX), 4, false),
        (Instruction::ORA(FlexibleAddressingMode::AbsoluteX), 5, true),
        (Instruction::ORA(FlexibleAddressingMode::AbsoluteY), 4, false),
        (Instruction::ORA(FlexibleAddressingMode::AbsoluteY), 5, true),
        (Instruction::ORA(FlexibleAddressingMode::IndexedIndirect), 6, false),
        (Instruction::ORA(FlexibleAddressingMode::IndirectIndexed), 5, false),
        (Instruction::ORA(FlexibleAddressingMode::IndirectIndexed), 6, true),
        (Instruction::BIT(BITAddressingMode::ZeroPage), 3, false),
        (Instruction::BIT(BITAddressingMode::Absolute), 4, false),
        (Instruction::ADC(FlexibleAddressingMode::Immediate), 2, false),
        (Instruction::ADC(FlexibleAddressingMode::ZeroPage), 3, false),
        (Instruction::ADC(FlexibleAddressingMode::ZeroPageX), 4, false),
        (Instruction::ADC(FlexibleAddressingMode::Absolute), 4, false),
        (Instruction::ADC(FlexibleAddressingMode::AbsoluteX), 4, false),
        (Instruction::ADC(FlexibleAddressingMode::AbsoluteX), 5, true),
        (Instruction::ADC(FlexibleAddressingMode::AbsoluteY), 4, false),
        (Instruction::ADC(FlexibleAddressingMode::AbsoluteY), 5, true),
        (Instruction::ADC(FlexibleAddressingMode::IndexedIndirect), 6, false),
        (Instruction::ADC(FlexibleAddressingMode::IndirectIndexed), 5, false),
        (Instruction::ADC(FlexibleAddressingMode::IndirectIndexed), 6, true),
        (Instruction::SBC(FlexibleAddressingMode::Immediate), 2, false),
        (Instruction::SBC(FlexibleAddressingMode::ZeroPage), 3, false),
        (Instruction::SBC(FlexibleAddressingMode::ZeroPageX), 4, false),
        (Instruction::SBC(FlexibleAddressingMode::Absolute), 4, false),
        (Instruction::SBC(FlexibleAddressingMode::AbsoluteX), 4, false),
        (Instruction::SBC(FlexibleAddressingMode::AbsoluteX), 5, true),
        (Instruction::SBC(FlexibleAddressingMode::AbsoluteY), 4, false),
        (Instruction::SBC(FlexibleAddressingMode::AbsoluteY), 5, true),
        (Instruction::SBC(FlexibleAddressingMode::IndexedIndirect), 6, false),
        (Instruction::SBC(FlexibleAddressingMode::IndirectIndexed), 5, false),
        (Instruction::SBC(FlexibleAddressingMode::IndirectIndexed), 6, true),
        (Instruction::CMP(FlexibleAddressingMode::Immediate), 2, false),
        (Instruction::CMP(FlexibleAddressingMode::ZeroPage), 3, false),
        (Instruction::CMP(FlexibleAddressingMode::ZeroPageX), 4, false),
        (Instruction::CMP(FlexibleAddressingMode::Absolute), 4, false),
        (Instruction::CMP(FlexibleAddressingMode::AbsoluteX), 4, false),
        (Instruction::CMP(FlexibleAddressingMode::AbsoluteX), 5, true),
        (Instruction::CMP(FlexibleAddressingMode::AbsoluteY), 4, false),
        (Instruction::CMP(FlexibleAddressingMode::AbsoluteY), 5, true),
        (Instruction::CMP(FlexibleAddressingMode::IndexedIndirect), 6, false),
        (Instruction::CMP(FlexibleAddressingMode::IndirectIndexed), 5, false),
        (Instruction::CMP(FlexibleAddressingMode::IndirectIndexed), 6, true),
        (Instruction::CPX(CompareAddressingMode::Immediate), 2, false),
        (Instruction::CPX(CompareAddressingMode::ZeroPage), 3, false),
        (Instruction::CPX(CompareAddressingMode::Absolute), 4, false),
        (Instruction::CPY(CompareAddressingMode::Immediate), 2, false),
        (Instruction::CPY(CompareAddressingMode::ZeroPage), 3, false),
        (Instruction::CPY(CompareAddressingMode::Absolute), 4, false),
        (Instruction::INC(IncDecAddressingMode::ZeroPage), 5, false),
        (Instruction::INC(IncDecAddressingMode::ZeroPageX), 6, false),
        (Instruction::INC(IncDecAddressingMode::Absolute), 6, false),
        (Instruction::INC(IncDecAddressingMode::AbsoluteX), 7, false),
        (Instruction::INC(IncDecAddressingMode::AbsoluteX), 7, true),
        (Instruction::INX, 2, false),
        (Instruction::INY, 2, false),
        (Instruction::DEC(IncDecAddressingMode::ZeroPage), 5, false),
        (Instruction::DEC(IncDecAddressingMode::ZeroPageX), 6, false),
        (Instruction::DEC(IncDecAddressingMode::Absolute), 6, false),
        (Instruction::DEC(IncDecAddressingMode::AbsoluteX), 7, false),
        (Instruction::DEC(IncDecAddressingMode::AbsoluteX), 7, true),
        (Instruction::DEX, 2, false),
        (Instruction::DEY, 2, false),
        (Instruction::ASL(ShiftAddressingMode::Accumulator), 2, false),
        (Instruction::ASL(ShiftAddressingMode::ZeroPage), 5, false),
        (Instruction::ASL(ShiftAddressingMode::ZeroPageX), 6, false),
        (Instruction::ASL(ShiftAddressingMode::Absolute), 6, false),
        (Instruction::ASL(ShiftAddressingMode::AbsoluteX), 7, false),
        (Instruction::ASL(ShiftAddressingMode::AbsoluteX), 7, true),
        (Instruction::LSR(ShiftAddressingMode::Accumulator), 2, false),
        (Instruction::LSR(ShiftAddressingMode::ZeroPage), 5, false),
        (Instruction::LSR(ShiftAddressingMode::ZeroPageX), 6, false),
        (Instruction::LSR(ShiftAddressingMode::Absolute), 6, false),
        (Instruction::LSR(ShiftAddressingMode::AbsoluteX), 7, false),
        (Instruction::LSR(ShiftAddressingMode::AbsoluteX), 7, true),
        (Instruction::ROL(ShiftAddressingMode::Accumulator), 2, false),
        (Instruction::ROL(ShiftAddressingMode::ZeroPage), 5, false),
        (Instruction::ROL(ShiftAddressingMode::ZeroPageX), 6, false),
        (Instruction::ROL(ShiftAddressingMode::Absolute), 6, false),
        (Instruction::ROL(ShiftAddressingMode::AbsoluteX), 7, false),
        (Instruction::ROL(ShiftAddressingMode::AbsoluteX), 7, true),
        (Instruction::ROR(ShiftAddressingMode::Accumulator), 2, false),
        (Instruction::ROR(ShiftAddressingMode::ZeroPage), 5, false),
        (Instruction::ROR(ShiftAddressingMode::ZeroPageX), 6, false),
        (Instruction::ROR(ShiftAddressingMode::Absolute), 6, false),
        (Instruction::ROR(ShiftAddressingMode::AbsoluteX), 7, false),
        (Instruction::ROR(ShiftAddressingMode::AbsoluteX), 7, true),
        (Instruction::JMP(JumpAddressingMode::Absolute), 3, false),
        (Instruction::JMP(JumpAddressingMode::Indirect), 5, false),
        (Instruction::JSR, 6, false),
        (Instruction::RTS, 6, false),
        (Instruction::BCC, 3, false),
        (Instruction::BCC, 4, true),
        (Instruction::BCS, 2, false),
        (Instruction::BCS, 2, true),
        (Instruction::BEQ, 2, false),
        (Instruction::BEQ, 2, true),
        (Instruction::BMI, 2, false),
        (Instruction::BMI, 2, true),
        (Instruction::BNE, 3, false),
        (Instruction::BNE, 4, true),
        (Instruction::BPL, 3, false),
        (Instruction::BPL, 4, true),
        (Instruction::BVC, 3, false),
        (Instruction::BVC, 4, true),
        (Instruction::BVS, 2, false),
        (Instruction::BVS, 2, true),
        (Instruction::CLC, 2, false),
        (Instruction::CLD, 2, false),
        (Instruction::CLI, 2, false),
        (Instruction::CLV, 2, false),
        (Instruction::SEC, 2, false),
        (Instruction::SED, 2, false),
        (Instruction::SEI, 2, false),
        (Instruction::BRK, 7, false),
        (Instruction::NOP, 2, false),
        (Instruction::RTI, 6, false),
    ];

    for (instruction, expected_cycles, page_cross) in table.iter() {
        let mut cpu = CPU::from_memory(mem(&[(0, &[instruction.to_opcode()])]));

        if *page_cross {
            // Make sure a page cross happens with any addressing mode
            cpu.write(Address::new(0x01), 0x80);
            cpu.write(Address::new(0x80), 0xFF);
            cpu.x = 0xFF;
            cpu.y = 0xFF;
        }

        let actual_cycles = cpu.run_instruction();
        assert_eq!(actual_cycles, *expected_cycles, "{:?}", instruction);
    }
}

#[test]
fn opcodes_decode_to_the_instruction_they_encode() {
    for opcode in 0..=255u8 {
        if let Some(instruction) = Instruction::from_opcode(opcode) {
            assert_eq!(Instruction::from_opcode(instruction.to_opcode()), Some(instruction));
        }
    }
}

#[test]
fn unknown_opcode_runs_nothing() {
    let mut cpu = CPU::from_memory(mem(&[(0, &[0x02])]));
    assert_eq!(Instruction::from_opcode(0x02), None);
    assert_eq!(cpu.try_run_instruction(), None);
    assert_eq!(cpu.program_counter, Address::new(1));
    assert_eq!(cpu.accumulator, 0);
}

#[test]
fn pushing_then_pulling_accumulator_restores_it() {
    let mut cpu = CPU::from_memory(mem(&[(0x0200, &[PHA, LDA_IMMEDIATE, 0x00, PLA]), (0xFFFC, &[0x00, 0x02])]));
    cpu.accumulator = 0x9A;
    cpu.run_instruction();
    cpu.run_instruction();
    assert_eq!(cpu.accumulator, 0);
    cpu.run_instruction();
    assert_eq!(cpu.accumulator, 0x9A);
    assert_eq!(cpu.stack_pointer, StackPointer(0xFF));
    assert!(cpu.status.contains(Status::NEGATIVE));
    assert!(!cpu.status.contains(Status::ZERO));
}

#[test]
fn pushing_then_pulling_status_sets_break_and_unused() {
    let mut cpu = CPU::from_memory(mem(&[(0x0200, &[PHP, PLP]), (0xFFFC, &[0x00, 0x02])]));
    cpu.status = Status::from_bits_truncate(0b1100_0011);
    cpu.run_instruction();
    cpu.run_instruction();
    assert_eq!(cpu.status.bits(), 0b1111_0011);
    assert_eq!(cpu.stack_pointer, StackPointer(0xFF));
    assert_eq!(cpu.program_counter, Address::new(0x0202));
}

#[test]
fn subroutine_returns_after_the_call() {
    let mut cpu = CPU::from_memory(mem(&[
        (0x0200, &[JSR, 0x00, 0x03, NOP]),
        (0x0300, &[RTS]),
        (0xFFFC, &[0x00, 0x02]),
    ]));
    assert_eq!(cpu.run_instruction(), 6);
    assert_eq!(cpu.program_counter, Address::new(0x0300));
    assert_eq!(cpu.stack_pointer, StackPointer(0xFD));
    assert_eq!(cpu.run_instruction(), 6);
    assert_eq!(cpu.program_counter, Address::new(0x0203));
    assert_eq!(cpu.stack_pointer, StackPointer(0xFF));
}

#[test]
fn controller_reports_buttons_in_order_after_strobe() {
    let mut controller = Controller::default();
    controller.press(Buttons(Buttons::A | Buttons::START | Buttons::RIGHT));
    nes_rust::input::Input::write(&mut controller, 1);
    nes_rust::input::Input::write(&mut controller, 0);
    let reads: Vec<u8> = (0..10).map(|_| nes_rust::input::Input::read(&mut controller)).collect();
    assert_eq!(reads, vec![1, 0, 0, 1, 0, 0, 0, 1, 0, 0]);
}

#[test]
fn ines_file_too_short_for_header_is_truncated() {
    assert!(matches!(INes::read(&[0x4E, 0x45, 0x53]), Err(INesReadError::Truncated)));
}

#[test]
fn ines_file_too_short_for_prg_rom_is_truncated() {
    let mut bytes = ines(2, 1, 0);
    bytes.truncate(16 + 16_384);
    assert!(matches!(INes::read(&bytes), Err(INesReadError::Truncated)));
}

#[test]
fn ines_file_too_short_for_chr_rom_is_truncated() {
    let mut bytes = ines(1, 1, 0);
    bytes.truncate(16 + 16_384 + 100);
    assert!(matches!(INes::read(&bytes), Err(INesReadError::Truncated)));
}

#[test]
fn ines_file_with_unknown_mapper_is_refused() {
    let bytes = ines(1, 1, 4);
    assert!(matches!(INes::read(&bytes), Err(INesReadError::UnrecognisedMapper(4))));
}

#[test]
fn ines_file_without_chr_rom_gets_chr_ram() {
    let bytes = ines(1, 0, 2);
    let ines = INes::read(&bytes).unwrap();
    assert_eq!(ines.chr_rom.len(), 8_192);
    assert!(ines.chr_ram_enabled);
    assert_eq!(ines.mapper, Mapper::UxROM);
}

#[test]
fn mapper_numbers_name_mappers() {
    assert_eq!(Mapper::try_from(0), Ok(Mapper::NROM));
    assert_eq!(Mapper::try_from(1), Ok(Mapper::MMC1));
    assert_eq!(Mapper::try_from(2), Ok(Mapper::UxROM));
    assert_eq!(Mapper::try_from(19), Ok(Mapper::Namco129));
    assert_eq!(Mapper::try_from(3), Err(UnrecognisedMapper(3)));
}

#[test]
fn uxrom_switches_the_bank_at_0x8000() {
    let mut prg_rom = vec![0u8; 4 * 16_384];
    for (i, byte) in prg_rom.iter_mut().enumerate() {
        *byte = (i / 16_384) as u8 + 1;
    }
    let mut prg = Cartridge::new(prg_rom, vec![0u8; 0x2000], false, Mapper::UxROM).prg;
    assert_eq!(prg.read(Address::new(0x8000)), 1);
    assert_eq!(prg.read(Address::new(0xc000)), 4);
    prg.write(Address::new(0x8000), 2);
    assert_eq!(prg.read(Address::new(0x8000)), 3);
    assert_eq!(prg.read(Address::new(0xc000)), 4);
}

#[test]
fn mmc1_takes_five_serial_writes_to_switch_bank() {
    let mut prg_rom = vec![0u8; 4 * 16_384];
    for (i, byte) in prg_rom.iter_mut().enumerate() {
        *byte = (i / 16_384) as u8;
    }
    let mut prg = Cartridge::new(prg_rom, vec![0u8; 0x2000], false, Mapper::MMC1).prg;
    // Bank 2, low bit first.
    for bit in [0u8, 1, 0, 0] {
        prg.write(Address::new(0xe000), bit);
        assert_eq!(prg.read(Address::new(0x8000)), 0);
    }
    prg.write(Address::new(0xe000), 0);
    assert_eq!(prg.read(Address::new(0x8000)), 2);
    assert_eq!(prg.read(Address::new(0xc000)), 3);
}

#[test]
fn mmc1_reset_clears_the_shift_register() {
    let mut mmc1 = MMC1::new(&vec![0u8; 2 * 16_384]);
    mmc1.write_register(Address::new(0x8000), 1);
    mmc1.write_register(Address::new(0x8000), 1);
    assert_eq!(mmc1.shift_register_writes, 2);
    assert!(mmc1.write_register(Address::new(0x8000), 0x80));
    assert_eq!(mmc1.shift_register, 0);
    assert_eq!(mmc1.shift_register_writes, 0);
    assert!(!mmc1.write_register(Address::new(0x6000), 1));
}

#[test]
fn mmc1_control_register_sets_mirroring() {
    let mut mmc1 = MMC1::new(&vec![0u8; 2 * 16_384]);
    // 0b00011: horizontal mirroring.
    for bit in [1u8, 1, 0, 0, 0] {
        mmc1.write_register(Address::new(0x8000), bit);
    }
    assert_eq!(mmc1.nametable_mirroring(), NametableMirroring(NametableMirroring::HORIZONTAL));
    let any = AnyMapper::MMC1(mmc1);
    assert_eq!(any.nametable_mirroring(), NametableMirroring(NametableMirroring::HORIZONTAL));
}

#[test]
fn horizontal_mirroring_joins_first_two_nametables() {
    let mut chr = Cartridge::new(vec![0u8; 0x8000], vec![0u8; 0x2000], false, Mapper::NROM).chr;
    chr.set_nametable_mirroring(NametableMirroring(NametableMirroring::HORIZONTAL));
    chr.write(Address::new(0x2005), 77);
    assert_eq!(chr.read(Address::new(0x2405)), 77);
    assert_ne!(chr.read(Address::new(0x2805)), 77);
    chr.write(Address::new(0x2c10), 12);
    assert_eq!(chr.read(Address::new(0x2810)), 12);
}

#[test]
fn prg_ram_changes_are_reported_once() {
    let mut cartridge = Cartridge::new(vec![0u8; 0x8000], vec![0u8; 0x2000], false, Mapper::NROM);
    assert!(cartridge.changed_ram().is_none());
    cartridge.prg.write(Address::new(0x6001), 9);
    let ram = cartridge.changed_ram().unwrap();
    assert_eq!(ram.len(), 0x2000);
    assert_eq!(ram[1], 9);
    assert!(cartridge.changed_ram().is_none());
}

#[test]
fn saved_ram_is_loaded_back() {
    let mut cartridge = Cartridge::new(vec![0u8; 0x8000], vec![0u8; 0x2000], false, Mapper::NROM);
    let mut ram = vec![0u8; 0x2000];
    ram[0x10] = 0x42;
    cartridge.set_ram(&ram);
    assert_eq!(cartridge.prg.read(Address::new(0x6010)), 0x42);
}

#[test]
fn apu_status_reports_playing_pulse_channels() {
    let mut apu = APU::default();
    apu.write_status(0b0000_0011);
    apu.write_pulse_1_length(0b0000_1000);
    assert_eq!(apu.read_status(), 0b01);
    apu.write_pulse_2_length(0b0000_1000);
    assert_eq!(apu.read_status(), 0b11);
    apu.write_status(0b0000_0001);
    assert_eq!(apu.read_status(), 0b01);
    assert_eq!(apu.pulse_2.length_counter, 0);
}

#[test]
fn apu_length_table_gives_lengths() {
    let mut apu = APU::default();
    apu.write_status(0b0000_0100);
    apu.write_triangle_length(0b1111_1000);
    assert_eq!(apu.triangle.length_counter, 30);
    apu.write_triangle_length(0b0000_0000);
    assert_eq!(apu.triangle.length_counter, 10);
}

#[test]
fn color_zero_is_grey() {
    assert_eq!(Color(0).to_rgb(), (0x54, 0x54, 0x54));
    assert_eq!(Color(0x30).to_rgb(), (0xec, 0xee, 0xec));
    assert_eq!(Color(0x2a).to_byte(), 0x2a);
}

#[test]
fn console_runs_an_instruction_and_three_dots_per_cycle() {
    let mut prg_rom = vec![0u8; 0x8000];
    prg_rom[0] = LDA_IMMEDIATE;
    prg_rom[1] = 0x07;
    prg_rom[2] = STA_ABSOLUTE;
    prg_rom[3] = 0x00;
    prg_rom[4] = 0x03;
    prg_rom[5] = BRK;
    // Reset vector: 0x8000
    prg_rom[0x7ffc] = 0x00;
    prg_rom[0x7ffd] = 0x80;
    let mut nes = NES::new(Cartridge::new(prg_rom, vec![0u8; 0x2000], false, Mapper::NROM));
    assert_eq!(nes.cpu.program_counter, Address::new(0x8000));

    let step = nes.tick().unwrap();
    assert_eq!(step.cycles, 2);
    assert_eq!(step.colors.len(), 6);
    assert_eq!(step.audio.len(), 2);
    assert_eq!(nes.cpu.accumulator, 7);

    let step = nes.tick().unwrap();
    assert_eq!(step.cycles, 4);
    assert_eq!(step.colors.len(), 12);
    assert_eq!(nes.cpu.memory.internal_ram[0x300], 7);
}

#[test]
fn runner_state_follows_commands() {
    let mut nes = NES::new(Cartridge::default());
    let mut state = RunnerState::new();
    assert!(state.paused);
    state.handle(Command::Resume, &mut nes);
    assert!(!state.paused);
    state.handle(Command::Press(Buttons(Buttons::B)), &mut nes);
    assert_eq!(nes.cpu.memory.input.buttons, Buttons(Buttons::B));
    state.handle(Command::Release(Buttons(Buttons::B)), &mut nes);
    assert_eq!(nes.cpu.memory.input.buttons, Buttons(0));
    state.handle(Command::Pause, &mut nes);
    assert!(state.paused);
    state.handle(Command::Stop, &mut nes);
    assert!(state.stopped);
}

#[test]
fn console_program_counter_and_cpu_bus_reads() {
    let mut prg_rom = vec![0u8; 0x8000];
    prg_rom[0x1234] = 0x99;
    prg_rom[0x7ffc] = 0x00;
    prg_rom[0x7ffd] = 0x80;
    let mut nes = NES::new(Cartridge::new(prg_rom, vec![0u8; 0x2000], false, Mapper::NROM));
    assert_eq!(nes.program_counter(), Address::new(0x8000));
    nes.set_program_counter(Address::new(0x9234));
    assert_eq!(nes.program_counter(), Address::new(0x9234));
    assert_eq!(nes.read_cpu(Address::new(0x9234)), 0x99);

    // Internal RAM through one of its mirrors.
    nes.cpu.memory.internal_ram[0x12] = 0x34;
    assert_eq!(nes.read_cpu(Address::new(0x0812)), 0x34);
}

#[test]
fn loading_a_cartridge_starts_the_console_afresh() {
    let mut nes = NES::new(Cartridge::default());
    nes.set_program_counter(Address::new(0x1234));
    nes.cpu.memory.internal_ram[0] = 5;

    let mut prg_rom = vec![0u8; 0x4000];
    prg_rom[0x3ffc] = 0x10;
    prg_rom[0x3ffd] = 0xc0;
    nes.load_cartridge(Cartridge::new(prg_rom, vec![0u8; 0x2000], false, Mapper::NROM));
    assert_eq!(nes.program_counter(), Address::new(0xc010));
    assert_eq!(nes.cpu.memory.internal_ram[0], 0);

    let mut state = RunnerState::new();
    state.handle(Command::LoadCartridge(Cartridge::default()), &mut nes);
    assert_eq!(nes.program_counter(), Address::new(0x0000));
}

fn console_storing_to(address: u16) -> NES {
    let mut prg_rom = vec![0u8; 0x8000];
    prg_rom[0] = LDA_IMMEDIATE;
    prg_rom[1] = 0x07;
    prg_rom[2] = STA_ABSOLUTE;
    prg_rom[3] = (address & 0xff) as u8;
    prg_rom[4] = (address >> 8) as u8;
    prg_rom[0x7ffc] = 0x00;
    prg_rom[0x7ffd] = 0x80;
    NES::new(Cartridge::new(prg_rom, vec![0u8; 0x2000], false, Mapper::NROM))
}

#[test]
fn writing_where_the_bus_does_not_answer_is_a_bus_fault() {
    for address in [0x4018u16, 0x401f, 0x4020, 0x5fff] {
        let mut nes = console_storing_to(address);
        assert!(nes.tick().is_some());
        assert!(!nes.cpu.bus_fault);
        assert!(nes.tick().is_none());
        assert!(nes.cpu.bus_fault);
    }
}

#[test]
fn writing_cartridge_ram_reaches_the_cartridge() {
    let mut nes = console_storing_to(0x6123);
    assert!(nes.tick().is_some());
    assert!(nes.tick().is_some());
    assert!(!nes.cpu.bus_fault);
    assert_eq!(nes.cpu.memory.prg.ram[0x123], 7);
    assert!(nes.changed_ram().is_some());
    assert!(nes.changed_ram().is_none());
}

#[test]
fn oam_dma_from_a_page_the_bus_does_not_answer_is_a_fault() {
    let mut prg_rom = vec![0u8; 0x8000];
    prg_rom[0] = LDA_IMMEDIATE;
    prg_rom[1] = 0x40;
    prg_rom[2] = STA_ABSOLUTE;
    prg_rom[3] = 0x14;
    prg_rom[4] = 0x40;
    prg_rom[0x7ffc] = 0x00;
    prg_rom[0x7ffd] = 0x80;
    let mut nes = NES::new(Cartridge::new(prg_rom, vec![0u8; 0x2000], false, Mapper::NROM));
    assert!(nes.tick().is_some());
    assert!(nes.tick().is_none());
    assert!(nes.cpu.memory.dma_fault);
    assert!(!nes.cpu.bus_fault);
}

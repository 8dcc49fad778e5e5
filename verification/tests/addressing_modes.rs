use nes_rust::address::Address;
use nes_rust::cpu::{AddressingMode, FlexibleAddressingMode, Reference, ValueAddressingMode, CPU};
use nes_rust::memory::{ArrayMemory, Memory};
use nes_rust::cpu::instructions::LDA_IMMEDIATE;

fn mem(blocks: &[(u16, &[u8])]) -> ArrayMemory {
    let mut memory = ArrayMemory::default();
    for (offset, data) in blocks.iter() {
        let mut address = *offset;
        for byte in data.iter() {
            memory.write(Address::new(address), *byte);
            address = address.wrapping_add(1);
        }
    }
    memory
}

fn run_instr<F: FnOnce(&mut CPU<ArrayMemory>)>(memory: ArrayMemory, cpu_setup: F) -> CPU<ArrayMemory> {
    let mut cpu = CPU::from_memory(memory);

    cpu_setup(&mut cpu);

    cpu.run_instruction();

    cpu
}

#[test]
fn immediate_addressing_mode_fetches_given_value() {
    let mut cpu = CPU::with_memory(mem(&[(0, &[56u8])]));

    let reference = cpu.exec_addressing_mode(AddressingMode::Immediate);
    assert_eq!(cpu.read_reference(reference, true), 56);
}

#[test]
fn accumulator_addressing_mode_fetches_accumulator_value() {
    let mut cpu = CPU::with_memory(mem(&[(0, &[LDA_IMMEDIATE, 76u8])]));
    cpu.run_instruction();
    assert_eq!(cpu.read_reference(Reference::Accumulator, true), 76);
}

#[test]
fn zero_page_addressing_mode_fetches_value_at_given_zero_page_address() {
    let mut cpu = CPU::with_memory(mem(&[(0, &[15u8]), (15, &[35u8])]));

    let reference = cpu.exec_addressing_mode(AddressingMode::ZeroPage);
    assert_eq!(cpu.read_reference(reference, true), 35);
}

#[test]
fn zero_page_x_addressing_mode_fetches_value_at_given_zero_page_address_offset_by_x() {
    let mut cpu = CPU::with_memory(mem(&[(0, &[15u8]), (18, &[35u8])]));
    cpu.set_x(3);

    let reference = cpu.exec_addressing_mode(AddressingMode::ZeroPageX);
    assert_eq!(cpu.read_reference(reference, true), 35);
}

#[test]
fn zero_page_x_addressing_mode_wraps() {
    let mut cpu = CPU::with_memory(mem(&[(0, &[0xFFu8])]));
    cpu.set_x(1);

    let reference = cpu.exec_addressing_mode(AddressingMode::ZeroPageX);
    assert_eq!(cpu.read_reference(reference, true), 0xFF);
}

#[test]
fn zero_page_y_addressing_mode_fetches_value_at_given_zero_page_address_offset_by_y() {
    let mut cpu = CPU::with_memory(mem(&[(0, &[15u8]), (18, &[35u8])]));
    cpu.set_y(3);

    let reference = cpu.exec_addressing_mode(AddressingMode::ZeroPageY);
    assert_eq!(cpu.read_reference(reference, true), 35);
}

#[test]
fn zero_page_y_addressing_mode_wraps() {
    let mut cpu = CPU::with_memory(mem(&[(0, &[0xFFu8])]));
    cpu.set_y(1);

    let reference = cpu.exec_addressing_mode(AddressingMode::ZeroPageY);
    assert_eq!(cpu.read_reference(reference, true), 0xFF);
}

#[test]
fn absolute_addressing_mode_fetches_values_at_given_address() {
    let mut cpu = CPU::with_memory(mem(&[(0, &[0x32, 0x04]), (0x432, &[35u8])]));

    let reference = cpu.exec_addressing_mode(AddressingMode::Absolute);
    assert_eq!(cpu.read_reference(reference, true), 35);
}

#[test]
fn absolute_x_addressing_mode_fetches_values_at_given_address_offset_by_x() {
    let mut cpu = CPU::with_memory(mem(&[(0, &[0x32, 0x04]), (0x435, &[35u8])]));
    cpu.set_x(3);

    let reference = cpu.exec_addressing_mode(AddressingMode::AbsoluteX);
    assert_eq!(cpu.read_reference(reference, true), 35);
}

#[test]
fn absolute_y_addressing_mode_fetches_values_at_given_address_offset_by_y() {
    let mut cpu = CPU::with_memory(mem(&[(0, &[0x32, 0x04]), (0x435, &[35u8])]));
    cpu.set_y(3);

    let reference = cpu.exec_addressing_mode(AddressingMode::AbsoluteY);
    assert_eq!(cpu.read_reference(reference, true), 35);
}

#[test]
fn indirect_addressing_mode_fetches_address_at_given_address() {
    let mut cpu = CPU::with_memory(mem(&[(0, &[0x32, 0x04]), (0x432, &[0x35, 0])]));

    let address = cpu.indirect_address();
    assert_eq!(address, Address::new(0x35));
}

#[test]
fn indirect_addressing_mode_wraps_at_end_of_page() {
    let mut cpu = CPU::with_memory(mem(&[(0, &[0xff, 0x04]), (0x4ff, &[0x34]), (0x400, &[0x12])]));

    let address = cpu.indirect_address();
    assert_eq!(address, Address::new(0x1234));
}

#[test]
fn indexed_indirect_addressing_mode_fetches_address_at_given_zero_page_address_offset_by_x() {
    let mut cpu = CPU::with_memory(mem(&[(0, &[0x32]), (0x35, &[0x34, 0x12]), (0x1234, &[57])]));
    cpu.set_x(3);

    let reference = cpu.exec_addressing_mode(AddressingMode::IndexedIndirect);
    assert_eq!(cpu.read_reference(reference, true), 57);
}

#[test]
fn indexed_indirect_addressing_mode_wraps_on_zero_page_overflow() {
    let mut cpu = CPU::with_memory(mem(&[(0, &[0x32]), (0x31, &[0x34, 0x12]), (0x1234, &[57])]));
    cpu.set_x(255);

    let reference = cpu.exec_addressing_mode(AddressingMode::IndexedIndirect);
    assert_eq!(cpu.read_reference(reference, true), 57);
}

#[test]
fn indexed_indirect_addressing_mode_wraps_address_read_from_zero_page() {
    let mut cpu = CPU::with_memory(mem(&[(0x00, &[0xff]), (0xff, &[0x12]), (0xff12, &[57])]));
    cpu.set_x(0);

    let reference = cpu.exec_addressing_mode(AddressingMode::IndexedIndirect);
    assert_eq!(cpu.read_reference(reference, true), 57);
}

#[test]
fn indirect_indexed_addressing_mode_fetches_address_offset_by_y_at_given_zero_page_address() {
    let mut cpu = CPU::with_memory(mem(&[(0, &[0x32]), (0x32, &[0x34, 0x12]), (0x1237, &[57])]));
    cpu.set_y(3);

    let reference = cpu.exec_addressing_mode(AddressingMode::IndirectIndexed);
    assert_eq!(cpu.read_reference(reference, true), 57);
}

#[test]
fn indirect_indexed_addressing_mode_wraps_address_read_from_zero_page() {
    let mut cpu = CPU::with_memory(mem(&[(0x00, &[0xff]), (0xff, &[0x12]), (0xff12, &[57])]));
    cpu.set_y(0);

    let reference = cpu.exec_addressing_mode(AddressingMode::IndirectIndexed);
    assert_eq!(cpu.read_reference(reference, true), 57);
}

#[test]
fn addressing_modes_immediate_addressing_mode_fetches_given_value() {
    let mut cpu = CPU::with_memory(mem(&[(0, &[56u8])]));

    let reference = cpu.immediate();
    assert_eq!(cpu.read_reference(reference, true), 56);
}

#[test]
fn addressing_modes_accumulator_addressing_mode_fetches_accumulator_value() {
    let mut cpu = CPU::with_memory(mem(&[(0, &[LDA_IMMEDIATE, 76u8])]));
    cpu.run_instruction();
    assert_eq!(cpu.read_reference(Reference::Accumulator, true), 76);
}

#[test]
fn addressing_modes_zero_page_addressing_mode_fetches_value_at_given_zero_page_address() {
    let mut cpu = CPU::with_memory(mem(&[(0, &[15u8]), (15, &[35u8])]));

    let reference = cpu.zero_page();
    assert_eq!(cpu.read_reference(reference, true), 35);
}

#[test]
fn addressing_modes_zero_page_x_addressing_mode_fetches_value_at_given_zero_page_address_offset_by_x() {
    let mut cpu = CPU::with_memory(mem(&[(0, &[15u8]), (18, &[35u8])]));
    cpu.set_x(3);

    let reference = cpu.zero_page_x();
    assert_eq!(cpu.read_reference(reference, true), 35);
}

#[test]
fn addressing_modes_zero_page_x_addressing_mode_wraps() {
    let mut cpu = CPU::with_memory(mem(&[(0, &[0xFFu8])]));
    cpu.set_x(1);

    let reference = cpu.zero_page_x();
    assert_eq!(cpu.read_reference(reference, true), 0xFF);
}

#[test]
fn addressing_modes_zero_page_y_addressing_mode_fetches_value_at_given_zero_page_address_offset_by_y() {
    let mut cpu = CPU::with_memory(mem(&[(0, &[15u8]), (18, &[35u8])]));
    cpu.set_y(3);

    let reference = cpu.zero_page_y();
    assert_eq!(cpu.read_reference(reference, true), 35);
}

#[test]
fn addressing_modes_zero_page_y_addressing_mode_wraps() {
    let mut cpu = CPU::with_memory(mem(&[(0, &[0xFFu8])]));
    cpu.set_y(1);

    let reference = cpu.zero_page_y();
    assert_eq!(cpu.read_reference(reference, true), 0xFF);
}

#[test]
fn addressing_modes_absolute_addressing_mode_fetches_values_at_given_address() {
    let mut cpu = CPU::with_memory(mem(&[(0, &[0x32, 0x04]), (0x432, &[35u8])]));

    let reference = cpu.absolute();
    assert_eq!(cpu.read_reference(reference, true), 35);
}

#[test]
fn addressing_modes_absolute_x_addressing_mode_fetches_values_at_given_address_offset_by_x() {
    let mut cpu = CPU::with_memory(mem(&[(0, &[0x32, 0x04]), (0x435, &[35u8])]));
    cpu.set_x(3);

    let reference = cpu.absolute_x();
    assert_eq!(cpu.read_reference(reference, true), 35);
}

#[test]
fn addressing_modes_absolute_y_addressing_mode_fetches_values_at_given_address_offset_by_y() {
    let mut cpu = CPU::with_memory(mem(&[(0, &[0x32, 0x04]), (0x435, &[35u8])]));
    cpu.set_y(3);

    let reference = cpu.absolute_y();
    assert_eq!(cpu.read_reference(reference, true), 35);
}

#[test]
fn addressing_modes_indirect_addressing_mode_fetches_address_at_given_address() {
    let mut cpu = CPU::with_memory(mem(&[(0, &[0x32, 0x04]), (0x432, &[0x35, 0])]));

    let address = cpu.indirect_address();
    assert_eq!(address, Address::new(0x35));
}

#[test]
fn addressing_modes_indexed_indirect_addressing_mode_fetches_address_at_given_zero_page_address_offset_by_x() {
    let mut cpu = CPU::with_memory(mem(&[(0, &[0x32]), (0x35, &[0x34, 0x12]), (0x1234, &[57])]));
    cpu.set_x(3);

    let reference = cpu.indexed_indirect();
    assert_eq!(cpu.read_reference(reference, true), 57);
}

#[test]
fn addressing_modes_indexed_indirect_addressing_mode_wraps_on_zero_page_overflow() {
    let mut cpu = CPU::with_memory(mem(&[(0, &[0x32]), (0x31, &[0x34, 0x12]), (0x1234, &[57])]));
    cpu.set_x(255);

    let reference = cpu.indexed_indirect();
    assert_eq!(cpu.read_reference(reference, true), 57);
}

#[test]
fn addressing_modes_indexed_indirect_addressing_mode_wraps_address_read_from_zero_page() {
    let mut cpu = CPU::with_memory(mem(&[(0x00, &[0xff]), (0xff, &[0x12]), (0xff12, &[57])]));
    cpu.set_x(0);

    let reference = cpu.indexed_indirect();
    assert_eq!(cpu.read_reference(reference, true), 57);
}

#[test]
fn addressing_modes_indirect_indexed_addressing_mode_fetches_address_offset_by_y_at_given_zero_page_address() {
    let mut cpu = CPU::with_memory(mem(&[(0, &[0x32]), (0x32, &[0x34, 0x12]), (0x1237, &[57])]));
    cpu.set_y(3);

    let reference = cpu.indirect_indexed();
    assert_eq!(cpu.read_reference(reference, true), 57);
}

#[test]
fn addressing_modes_indirect_indexed_addressing_mode_wraps_address_read_from_zero_page() {
    let mut cpu = CPU::with_memory(mem(&[(0x00, &[0xff]), (0xff, &[0x12]), (0xff12, &[57])]));
    cpu.set_y(0);

    let reference = cpu.indirect_indexed();
    assert_eq!(cpu.read_reference(reference, true), 57);
}

#[test]
fn value_addressing_modes_read_the_operand_they_name() {
    let mut cpu = CPU::with_memory(mem(&[(0, &[56u8, 0x10]), (0x10, &[99u8])]));
    assert_eq!(FlexibleAddressingMode::Immediate.fetch(&mut cpu), 56);
    assert_eq!(FlexibleAddressingMode::ZeroPage.fetch(&mut cpu), 99);
}

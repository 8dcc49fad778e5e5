use nes_rust::address::Address;
use nes_rust::cpu::{INTERRUPT_VECTOR, RESET_VECTOR, StackPointer, Status, STACK_BASE, CPU};
use nes_rust::memory::{ArrayMemory, Memory};
use nes_rust::cpu::instructions::{
    ADC_IMMEDIATE,
    ASL_ABSOLUTE,
    ASL_ACCUMULATOR,
    BNE,
    BRK,
    CLC,
    CLD,
    CLI,
    CLV,
    CPX_ZERO_PAGE,
    INC_ZERO_PAGE,
    INX,
    JMP_ABSOLUTE,
    JSR,
    LSR_ACCUMULATOR,
    NOP,
    PHA,
    PLA,
    RTI,
    RTS,
    SBC_IMMEDIATE,
    SEC,
    SED,
    SEI,
};

fn mem(blocks: &[(u16, &[u8])]) -> ArrayMemory {
    let mut memory = ArrayMemory::default();
    for (offset, data) in blocks.iter() {
        let mut address = *offset;
        for byte in data.iter() {
            memory.write(Address::new(address), *byte);
            address = address.wrapping_add(1);
        }
    }
    memory
}

fn run_instr<F: FnOnce(&mut CPU<ArrayMemory>)>(memory: ArrayMemory, cpu_setup: F) -> CPU<ArrayMemory> {
    let mut cpu = CPU::from_memory(memory);

    cpu_setup(&mut cpu);

    cpu.run_instruction();

    cpu
}

#[test]
fn cpu_initialises_in_default_state() {
    let memory = ArrayMemory::default();
    let cpu = CPU::from_memory(memory);

    assert_eq!(cpu.program_counter, Address::new(0x00));
    assert_eq!(cpu.accumulator, 0);
    assert_eq!(cpu.x, 0);
    assert_eq!(cpu.y, 0);
    assert_eq!(cpu.stack_pointer, StackPointer(0xFF));
}

#[test]
fn cpu_initialises_program_counter_to_reset_vector() {
    let memory = mem(&[(0xFFFC, &[0x34, 0x12])]);

    let cpu = CPU::from_memory(memory);

    assert_eq!(cpu.program_counter, Address::new(0x1234));
}

#[test]
fn cpu_instr_clc_clears_carry_flag() {
    let cpu = run_instr(mem(&[(0, &[CLC])]), |cpu| {
        cpu.status.insert(Status::CARRY);
    });

    assert!(!cpu.status.contains(Status::CARRY));
}

#[test]
fn cpu_instr_cld_clears_decimal_flag() {
    let cpu = run_instr(mem(&[(0, &[CLD])]), |cpu| {
        cpu.status.insert(Status::DECIMAL);
    });

    assert!(!cpu.status.contains(Status::DECIMAL));
}

#[test]
fn cpu_instr_cli_clears_interrupt_disable_flag() {
    let cpu = run_instr(mem(&[(0, &[CLI])]), |cpu| {
        cpu.status.insert(Status::INTERRUPT_DISABLE);
    });

    assert!(!cpu.status.contains(Status::INTERRUPT_DISABLE));
}

#[test]
fn cpu_instr_clv_clears_overflow_flag() {
    let cpu = run_instr(mem(&[(0, &[CLV])]), |cpu| {
        cpu.status.insert(Status::OVERFLOW);
    });

    assert!(!cpu.status.contains(Status::OVERFLOW));
}

#[test]
fn cpu_instr_nop_increments_program_counter() {
    let cpu = run_instr(mem(&[(20, &[LSR_ACCUMULATOR])]), |cpu| {
        cpu.program_counter = Address::new(20);
    });

    assert_eq!(cpu.program_counter, Address::new(21));
}

#[test]
fn cpu_instr_sec_sets_carry_flag() {
    let cpu = run_instr(mem(&[(0, &[SEC])]), |cpu| {
        cpu.status.remove(Status::CARRY);
    });

    assert!(cpu.status.contains(Status::CARRY));
}

#[test]
fn cpu_instr_sed_sets_decimal_flag() {
    let cpu = run_instr(mem(&[(0, &[SED])]), |cpu| {
        cpu.status.remove(Status::DECIMAL);
    });

    assert!(cpu.status.contains(Status::DECIMAL));
}

#[test]
fn cpu_instr_sei_sets_interrupt_disable_flag() {
    let cpu = run_instr(mem(&[(0, &[SEI])]), |cpu| {
        cpu.status.remove(Status::INTERRUPT_DISABLE);
    });

    assert!(cpu.status.contains(Status::INTERRUPT_DISABLE));
}

#[test]
fn cpu_instr_brk_jumps_to_address_at_interrupt_vector() {
    let cpu = run_instr(
        mem(&[(0, &[BRK]), (INTERRUPT_VECTOR, &[0x34, 0x12])]),
        |_| {},
    );

    assert_eq!(cpu.program_counter, Address::new(0x1234));
}

#[test]
fn cpu_instr_brk_writes_program_counter_and_status_with_break_flag_set_to_stack_pointer() {
    let mut cpu = run_instr(mem(&[(0x1234, &[BRK])]), |cpu| {
        cpu.program_counter = Address::new(0x1234);
        cpu.status = Status::from_bits_truncate(0b1001_1000);
        cpu.stack_pointer.0 = 6;
    });

    assert_eq!(cpu.read(Address::new(STACK_BASE + 6)), 0x12);
    assert_eq!(cpu.read(Address::new(STACK_BASE + 5)), 0x34);
    assert_eq!(cpu.read(Address::new(STACK_BASE + 4)), 0b1011_1000);
}

#[test]
fn cpu_instr_brk_decrements_stack_pointer_by_three_bytes() {
    let cpu = run_instr(mem(&[(0, &[BRK])]), |cpu| {
        cpu.stack_pointer.0 = 6;
    });

    assert_eq!(cpu.stack_pointer.0, 3);
}

#[test]
fn cpu_instr_brk_sets_break_flag_on_stack() {
    let mut cpu = run_instr(mem(&[(0, &[BRK])]), |cpu| {
        cpu.status.remove(Status::BREAK);
        cpu.stack_pointer = StackPointer(6);
    });

    let status = Status::from_bits_truncate(cpu.read(Address::new(STACK_BASE + 4)));
    assert!(status.contains(Status::BREAK));
}

#[test]
fn cpu_instr_rti_reads_status_and_program_counter_from_stack() {
    let cpu = run_instr(
        mem(&[(0, &[RTI]), (STACK_BASE + 101, &[0x56, 0x34, 0x12])]),
        |cpu| {
            cpu.stack_pointer.0 = 100;
        },
    );

    assert_eq!(cpu.program_counter, Address::new(0x1234));
    assert_eq!(cpu.status.bits(), 0x56);
}

#[test]
fn cpu_instr_rti_increments_stack_pointer_by_three_bytes() {
    let cpu = run_instr(mem(&[(0, &[RTI])]), |cpu| {
        cpu.stack_pointer.0 = 6;
    });

    assert_eq!(cpu.stack_pointer.0, 9);
}

#[test]
fn cpu_addition_behaves_appropriately_across_many_values() {
    let carry_values = [true, false];
    let values = [0, 1, 2, 3, 126, 127, 128, 129, 252, 253, 254, 255];

    for x in values.iter() {
        for y in values.iter() {
            for carry_in in carry_values.iter() {
                let cpu = run_instr(mem(&[(0, &[ADC_IMMEDIATE, *y])]), |cpu| {
                    cpu.status.set(Status::CARRY, *carry_in);
                    cpu.accumulator = *x;
                });

                let carry_bit = *carry_in as u16;
                let expected = u16::from(*x) + u16::from(*y) + carry_bit;

                let carry_out = {
                    let this = &cpu;
                    this.status
                }
                .contains(Status::CARRY) as u8;
                let actual = u16::from_be_bytes([carry_out, cpu.accumulator]);

                assert_eq!(actual, expected, "{} + {} + {}", x, y, carry_bit);
            }
        }
    }
}

#[test]
fn cpu_subtraction_behaves_appropriately_across_many_values() {
    let carry_values = [true, false];
    let values = [0, 1, 2, 3, 126, 127, 128, 129, 252, 253, 254, 255];

    for x in values.iter() {
        for y in values.iter() {
            for carry_in in carry_values.iter() {
                let cpu = run_instr(mem(&[(0, &[SBC_IMMEDIATE, *y])]), |cpu| {
                    cpu.status.set(Status::CARRY, *carry_in);
                    cpu.accumulator = *x;
                });

                let carry_bit = *carry_in as u16;
                let expected = (u16::from(*x))
                    .wrapping_sub(u16::from(*y))
                    .wrapping_sub(1 - carry_bit);
                let expected = expected & 0b1_1111_1111;

                let carry_out = {
                    let this = &cpu;
                    this.status
                }
                .contains(Status::CARRY) as u8;
                let accumulator = cpu.accumulator;
                let actual = u16::from_be_bytes([1 - carry_out, accumulator]);

                assert_eq!(
                    actual, expected,
                    "\n input: {} - {} - (1 - {})\noutput: {}, carry {} = {}",
                    x, y, carry_bit, accumulator, carry_out, actual
                );
            }
        }
    }
}

#[test]
fn zero_flag_is_not_set_when_accumulator_is_non_zero() {
    let cpu = run_instr(mem(&[(0, &[ADC_IMMEDIATE, 1u8])]), |cpu| {
        cpu.accumulator = 42;
    });

    assert_eq!(cpu.accumulator, 43);
    assert!(!cpu.status.contains(Status::ZERO));
}

#[test]
fn zero_flag_is_set_when_accumulator_is_zero() {
    let cpu = run_instr(mem(&[(0, &[ADC_IMMEDIATE, 214u8])]), |cpu| {
        cpu.accumulator = 42;
    });

    assert_eq!(cpu.accumulator, 0);
    assert!(cpu.status.contains(Status::ZERO));
}

#[test]
fn negative_flag_is_not_set_when_accumulator_is_positive() {
    let cpu = run_instr(mem(&[(0, &[ADC_IMMEDIATE, 1u8])]), |cpu| {
        cpu.accumulator = 42;
    });

    assert_eq!(cpu.accumulator, 43);
    assert!(!cpu.status.contains(Status::NEGATIVE));
}

#[test]
fn negative_flag_is_set_when_accumulator_is_negative() {
    let cpu = run_instr(mem(&[(0, &[ADC_IMMEDIATE, -1i8 as u8])]), |cpu| {
        cpu.accumulator = 0;
    });

    assert_eq!(cpu.accumulator as i8, -1i8);
    assert!(cpu.status.contains(Status::NEGATIVE));
}

#[test]
fn program_counter_is_incremented_by_1_when_executing_1_byte_instr() {
    let cpu = run_instr(mem(&[(100, &[ASL_ACCUMULATOR])]), |cpu| {
        cpu.program_counter = Address::new(100)
    });

    assert_eq!(cpu.program_counter, Address::new(101));
}

#[test]
fn program_counter_is_incremented_by_2_when_executing_2_byte_instr() {
    let cpu = run_instr(mem(&[(100, &[ADC_IMMEDIATE, 0u8])]), |cpu| {
        cpu.program_counter = Address::new(100)
    });

    assert_eq!(cpu.program_counter, Address::new(102));
}

#[test]
fn program_counter_is_incremented_by_3_when_executing_3_byte_instr() {
    let cpu = run_instr(mem(&[(100, &[ASL_ABSOLUTE, 0, 0])]), |cpu| {
        cpu.program_counter = Address::new(100)
    });

    assert_eq!(cpu.program_counter, Address::new(103));
}

#[test]
fn stack_pointer_wraps_on_overflow() {
    let cpu = run_instr(mem(&[(0, &[PLA])]), |cpu| {
        cpu.stack_pointer.0 = 255;
    });

    assert_eq!(cpu.stack_pointer.0, 0);

    let cpu = run_instr(mem(&[(0, &[PHA])]), |cpu| {
        cpu.stack_pointer.0 = 0;
    });

    assert_eq!(cpu.stack_pointer.0, 255);
}

#[test]
fn stack_operations_wrap_value_on_overflow() {
    let mut cpu = run_instr(mem(&[(0x1234, &[JSR, 100, 0])]), |cpu| {
        cpu.stack_pointer.0 = 0;
        cpu.program_counter = Address::new(0x1234);
    });

    assert_eq!(cpu.read(Address::new(STACK_BASE)), 0x12);
    assert_eq!(cpu.read(Address::new(STACK_BASE + 0xff)), 0x36);

    let cpu = run_instr(
        mem(&[(40, &[RTS]), (STACK_BASE, &[0x12u8]), (STACK_BASE + 0xff, &[0x36u8])]),
        |cpu| {
            cpu.stack_pointer.0 = 0xfe;
            cpu.program_counter = Address::new(40);
        },
    );

    assert_eq!(cpu.program_counter, Address::new(0x1237));
}

#[test]
fn program_counter_wraps_on_overflow() {
    let cpu = run_instr(mem(&[(0xffff, &[NOP])]), |cpu| {
        cpu.program_counter = Address::new(0xffff);
    });

    assert_eq!(cpu.program_counter, Address::new(0));
}

#[test]
fn instructions_can_wrap_on_program_counter_overflow() {
    let cpu = run_instr(mem(&[(0xfffe, &[JMP_ABSOLUTE, 0x34, 0x12])]), |cpu| {
        cpu.program_counter = Address::new(0xfffe);
    });

    assert_eq!(cpu.program_counter, Address::new(0x1234));
}

#[test]
fn on_non_maskable_interrupt_reset_interrupt_flag() {
    let cpu = run_instr(mem(&[(0, &[])]), |cpu| {
        cpu.non_maskable_interrupt = true;
    });

    assert!(!cpu.non_maskable_interrupt);
}

#[test]
fn on_non_maskable_interrupt_push_program_counter_and_status_with_clear_break_flag_to_stack() {
    let mut cpu = run_instr(mem(&[(0x1234, &[INX])]), |cpu| {
        cpu.program_counter = Address::new(0x1234);
        cpu.status = Status::from_bits_truncate(0b1001_1000);
        cpu.stack_pointer.0 = 6;
        cpu.non_maskable_interrupt = true;
    });

    assert_eq!(cpu.read(Address::new(STACK_BASE + 6)), 0x12);
    assert_eq!(cpu.read(Address::new(STACK_BASE + 5)), 0x34);
    assert_eq!(cpu.read(Address::new(STACK_BASE + 4)), 0b1010_1000);
    assert_eq!(cpu.stack_pointer.0, 3);
}

#[test]
fn on_non_maskable_interrupt_jumps_to_address_at_nmi_vector() {
    let cpu = run_instr(
        mem(&[(0x1234, &[INX]), (0xfffa, &[0x78, 0x56])]),
        |cpu| {
            cpu.program_counter = Address::new(0x1234);
            cpu.non_maskable_interrupt = true;
        },
    );

    assert_eq!(cpu.program_counter, Address::new(0x5678));
}

#[test]
fn calling_non_maskable_interrupt_sets_interrupt_flag() {
    let mut cpu = CPU::from_memory(mem(&[(0, &[])]));
    cpu.non_maskable_interrupt = false;

    cpu.non_maskable_interrupt();

    assert!(cpu.non_maskable_interrupt);
}

#[test]
fn instruction_sequence_return_correct_number_of_cycles() {
    let start = Address::new(0xE084);
    let foo_zero_addr = 0x10;
    let foo_addr = Address::from_bytes(0, foo_zero_addr);
    let foo_init = 0xFE; // Nearly overflowing

    // Instructions from blargg_cpu_tests, not meaningful
    let mut cpu = CPU::from_memory(mem(&[(RESET_VECTOR, &[start.lower(), start.higher()]), (foo_addr.bytes(), &[foo_init]), (start.bytes(), &[CPX_ZERO_PAGE, 0x12, BNE, 9, INC_ZERO_PAGE, foo_zero_addr, BNE, (-8i8) as u8, INC_ZERO_PAGE, 0x11, JMP_ABSOLUTE, start.lower(), start.higher()])]));

    assert_eq!(cpu.program_counter, start);

    // CPX
    let cycles = cpu.run_instruction();
    assert_eq!(cycles, 3);
    assert_eq!(cpu.program_counter, start.wrapping_add(2));

    // BNE
    let cycles = cpu.run_instruction();
    assert_eq!(cycles, 2, "BNE should be 2 cycles if it doesn't branch");
    assert_eq!(cpu.program_counter, start.wrapping_add(4));

    // INC
    let cycles = cpu.run_instruction();
    assert_eq!(cycles, 5);
    assert_eq!(cpu.program_counter, start.wrapping_add(6));
    assert_eq!(cpu.memory.read(foo_addr), foo_init + 1);

    // BNE (jump to start because no overflow)
    let cycles = cpu.run_instruction();
    assert_eq!(cycles, 3, "BNE should be 3 cycles if it branches");
    assert_eq!(cpu.program_counter, start);

    // Run same instructions again
    cpu.run_instruction(); // CPX
    cpu.run_instruction(); // BNE

    // INC (overflows)
    let cycles = cpu.run_instruction();
    assert_eq!(cycles, 5);
    assert_eq!(cpu.program_counter, start.wrapping_add(6));
    assert_eq!(cpu.memory.read(foo_addr), 0, "INC should overflow");

    // BNE (don't jump because overflow)
    let cycles = cpu.run_instruction();
    assert_eq!(cycles, 2, "BNE should be 2 cycles if it doesn't branch");
    assert_eq!(cpu.program_counter, start.wrapping_add(8));

    // INC
    let cycles = cpu.run_instruction();
    assert_eq!(cycles, 5);
    assert_eq!(cpu.program_counter, start.wrapping_add(10));

    // JMP
    let cycles = cpu.run_instruction();
    assert_eq!(cycles, 3);
    assert_eq!(cpu.program_counter, start);
}

use chip8::cpu::Cpu;
use chip8::instruction::Instruction;
use chip8::model::{Fault, RunState};

fn run(cpu: &mut Cpu, ins: Instruction) {
    assert_eq!(cpu.execute_instruction(ins, 0), Ok(()));
}

#[test]
fn new_machine_is_zeroed_with_program_counter_at_0x200() {
    let cpu = Cpu::new();
    assert!(cpu.memory.iter().all(|b| *b == 0));
    assert!(cpu.registers.iter().all(|b| *b == 0));
    assert!(cpu.stack.iter().all(|a| *a == 0));
    assert!(cpu.display.iter().all(|p| !*p));
    assert_eq!(cpu.address_register, 0);
    assert_eq!(cpu.program_counter, 0x200);
    assert_eq!(cpu.stack_counter, 0);
    assert_eq!(cpu.delay_timer, 0);
    assert_eq!(cpu.sound_timer, 0);
    assert_eq!(cpu.keyboard, 0);
    assert_eq!(cpu.run_state, RunState::Running);
    assert!(!cpu.draw_flag);
    assert!(cpu.is_well_formed());
    assert!(!cpu.is_waiting());
}

#[test]
fn well_formedness_is_tested_at_run_time() {
    let mut cpu = Cpu::new();
    cpu.stack_counter = 24;
    assert!(cpu.is_well_formed());
    cpu.stack_counter = 25;
    assert!(!cpu.is_well_formed());
    cpu.stack_counter = 0;
    cpu.run_state = RunState::AwaitingKey { register: 15 };
    assert!(cpu.is_well_formed());
    cpu.run_state = RunState::AwaitingKey { register: 16 };
    assert!(!cpu.is_well_formed());
}

#[test]
fn no_op_changes_nothing() {
    let mut cpu = Cpu::new();
    cpu.registers[3] = 9;
    cpu.program_counter = 0x300;
    run(&mut cpu, Instruction::NoOp);
    assert_eq!(cpu.registers[3], 9);
    assert_eq!(cpu.program_counter, 0x300);
    assert_eq!(cpu.stack_counter, 0);
    assert!(!cpu.draw_flag);
}

#[test]
fn load_sets_register() {
    let mut cpu = Cpu::new();
    run(&mut cpu, Instruction::Load { x: 4, value: 0xAB });
    assert_eq!(cpu.registers[4], 0xAB);
    assert_eq!(cpu.program_counter, 0x200);
}

#[test]
fn add_immediate_truncates_and_sets_no_flag() {
    let mut cpu = Cpu::new();
    cpu.registers[2] = 250;
    cpu.registers[15] = 7;
    run(&mut cpu, Instruction::AddImmediate { x: 2, value: 10 });
    assert_eq!(cpu.registers[2], 4);
    assert_eq!(cpu.registers[15], 7);
}

#[test]
fn move_or_and_xor() {
    let mut cpu = Cpu::new();
    cpu.registers[1] = 0b1100;
    cpu.registers[2] = 0b1010;
    run(&mut cpu, Instruction::Or { x: 1, y: 2 });
    assert_eq!(cpu.registers[1], 0b1110);
    cpu.registers[1] = 0b1100;
    run(&mut cpu, Instruction::And { x: 1, y: 2 });
    assert_eq!(cpu.registers[1], 0b1000);
    cpu.registers[1] = 0b1100;
    run(&mut cpu, Instruction::Xor { x: 1, y: 2 });
    assert_eq!(cpu.registers[1], 0b0110);
    run(&mut cpu, Instruction::Move { x: 1, y: 2 });
    assert_eq!(cpu.registers[1], 0b1010);
    assert_eq!(cpu.registers[2], 0b1010);
}

#[test]
fn add_sets_carry_exactly_when_sum_exceeds_255() {
    for (a, b) in [(0u8, 0u8), (1, 254), (1, 255), (200, 100), (255, 255), (128, 127), (128, 128)] {
        let mut cpu = Cpu::new();
        cpu.registers[3] = a;
        cpu.registers[4] = b;
        run(&mut cpu, Instruction::Add { x: 3, y: 4 });
        let sum = a as u16 + b as u16;
        assert_eq!(cpu.registers[3], (sum % 256) as u8);
        assert_eq!(cpu.registers[15], if sum > 255 { 1 } else { 0 });
        assert_eq!(cpu.registers[4], b);
    }
}

#[test]
fn add_exact_values() {
    let mut cpu = Cpu::new();
    cpu.registers[0] = 200;
    cpu.registers[1] = 100;
    run(&mut cpu, Instruction::Add { x: 0, y: 1 });
    assert_eq!(cpu.registers[0], 44);
    assert_eq!(cpu.registers[15], 1);
}

#[test]
fn add_register_to_itself() {
    let mut cpu = Cpu::new();
    cpu.registers[6] = 0x90;
    run(&mut cpu, Instruction::Add { x: 6, y: 6 });
    assert_eq!(cpu.registers[6], 0x20);
    assert_eq!(cpu.registers[15], 1);
}

#[test]
fn add_into_flag_register_leaves_the_flag() {
    let mut cpu = Cpu::new();
    cpu.registers[15] = 1;
    cpu.registers[2] = 1;
    run(&mut cpu, Instruction::Add { x: 15, y: 2 });
    assert_eq!(cpu.registers[15], 0);
}

#[test]
fn subtract_sets_flag_exactly_when_greater() {
    for (a, b) in [(0u8, 0u8), (5, 3), (3, 5), (7, 7), (0, 255), (255, 0), (1, 0)] {
        let mut cpu = Cpu::new();
        cpu.registers[3] = a;
        cpu.registers[4] = b;
        run(&mut cpu, Instruction::Subtract { x: 3, y: 4 });
        assert_eq!(cpu.registers[3], a.wrapping_sub(b));
        assert_eq!(cpu.registers[15], if a > b { 1 } else { 0 });
    }
}

#[test]
fn subtract_exact_values() {
    let mut cpu = Cpu::new();
    cpu.registers[0] = 3;
    cpu.registers[1] = 5;
    run(&mut cpu, Instruction::Subtract { x: 0, y: 1 });
    assert_eq!(cpu.registers[0], 254);
    assert_eq!(cpu.registers[15], 0);
}

#[test]
fn subtract_of_equal_values_clears_the_flag() {
    let mut cpu = Cpu::new();
    cpu.registers[0] = 9;
    cpu.registers[1] = 9;
    cpu.registers[15] = 1;
    run(&mut cpu, Instruction::Subtract { x: 0, y: 1 });
    assert_eq!(cpu.registers[0], 0);
    assert_eq!(cpu.registers[15], 0);
}

#[test]
fn subtract_from_takes_register_y_minus_register_x() {
    let mut cpu = Cpu::new();
    cpu.registers[0] = 3;
    cpu.registers[1] = 5;
    run(&mut cpu, Instruction::SubtractFrom { x: 0, y: 1 });
    assert_eq!(cpu.registers[0], 2);
    assert_eq!(cpu.registers[15], 1);
    cpu.registers[0] = 5;
    cpu.registers[1] = 3;
    run(&mut cpu, Instruction::SubtractFrom { x: 0, y: 1 });
    assert_eq!(cpu.registers[0], 254);
    assert_eq!(cpu.registers[15], 0);
}

#[test]
fn shift_right_moves_lowest_bit_to_flag() {
    let mut cpu = Cpu::new();
    cpu.registers[2] = 0b0000_0101;
    run(&mut cpu, Instruction::ShiftRight { x: 2 });
    assert_eq!(cpu.registers[2], 0b0000_0010);
    assert_eq!(cpu.registers[15], 1);
    run(&mut cpu, Instruction::ShiftRight { x: 2 });
    assert_eq!(cpu.registers[2], 0b0000_0001);
    assert_eq!(cpu.registers[15], 0);
}

#[test]
fn shift_left_moves_highest_bit_to_flag() {
    let mut cpu = Cpu::new();
    cpu.registers[2] = 0b1100_0001;
    run(&mut cpu, Instruction::ShiftLeft { x: 2 });
    assert_eq!(cpu.registers[2], 0b1000_0010);
    assert_eq!(cpu.registers[15], 1);
    cpu.registers[2] = 0b0100_0001;
    run(&mut cpu, Instruction::ShiftLeft { x: 2 });
    assert_eq!(cpu.registers[2], 0b1000_0010);
    assert_eq!(cpu.registers[15], 0);
}

#[test]
fn shift_of_the_flag_register_keeps_the_shifted_flag() {
    let mut cpu = Cpu::new();
    cpu.registers[15] = 0b0000_0111;
    run(&mut cpu, Instruction::ShiftRight { x: 15 });
    assert_eq!(cpu.registers[15], 0);
    cpu.registers[15] = 0b1000_0001;
    run(&mut cpu, Instruction::ShiftLeft { x: 15 });
    assert_eq!(cpu.registers[15], 2);
}

#[test]
fn jump_and_jump_offset() {
    let mut cpu = Cpu::new();
    run(&mut cpu, Instruction::Jump { addr: 0x345 });
    assert_eq!(cpu.program_counter, 0x345);
    cpu.registers[0] = 0xFF;
    run(&mut cpu, Instruction::JumpOffset { addr: 0xFFF });
    assert_eq!(cpu.program_counter, 0x10FE);
}

#[test]
fn skips_add_two_to_program_counter() {
    let mut cpu = Cpu::new();
    cpu.registers[1] = 7;
    cpu.registers[2] = 7;
    cpu.registers[3] = 8;
    run(&mut cpu, Instruction::SkipIfEqual { x: 1, value: 7 });
    assert_eq!(cpu.program_counter, 0x202);
    run(&mut cpu, Instruction::SkipIfEqual { x: 1, value: 8 });
    assert_eq!(cpu.program_counter, 0x202);
    run(&mut cpu, Instruction::SkipIfNotEqual { x: 1, value: 8 });
    assert_eq!(cpu.program_counter, 0x204);
    run(&mut cpu, Instruction::SkipIfNotEqual { x: 1, value: 7 });
    assert_eq!(cpu.program_counter, 0x204);
    run(&mut cpu, Instruction::SkipIfRegistersEqual { x: 1, y: 2 });
    assert_eq!(cpu.program_counter, 0x206);
    run(&mut cpu, Instruction::SkipIfRegistersEqual { x: 1, y: 3 });
    assert_eq!(cpu.program_counter, 0x206);
    run(&mut cpu, Instruction::SkipIfRegistersDiffer { x: 1, y: 3 });
    assert_eq!(cpu.program_counter, 0x208);
    run(&mut cpu, Instruction::SkipIfRegistersDiffer { x: 1, y: 2 });
    assert_eq!(cpu.program_counter, 0x208);
}

#[test]
fn skip_wraps_the_sixteen_bit_program_counter() {
    let mut cpu = Cpu::new();
    cpu.program_counter = 0xFFFF;
    run(&mut cpu, Instruction::SkipIfEqual { x: 0, value: 0 });
    assert_eq!(cpu.program_counter, 1);
}

#[test]
fn key_skips_follow_the_keyboard() {
    let mut cpu = Cpu::new();
    cpu.key_down(0xA);
    cpu.registers[1] = 0xA;
    cpu.registers[2] = 0xB;
    cpu.registers[3] = 0x1A;
    run(&mut cpu, Instruction::SkipIfKeyDown { x: 1 });
    assert_eq!(cpu.program_counter, 0x202);
    run(&mut cpu, Instruction::SkipIfKeyDown { x: 2 });
    assert_eq!(cpu.program_counter, 0x202);
    run(&mut cpu, Instruction::SkipIfKeyUp { x: 2 });
    assert_eq!(cpu.program_counter, 0x204);
    run(&mut cpu, Instruction::SkipIfKeyUp { x: 1 });
    assert_eq!(cpu.program_counter, 0x204);
    // There is no key 0x1A: it is never held.
    run(&mut cpu, Instruction::SkipIfKeyDown { x: 3 });
    assert_eq!(cpu.program_counter, 0x204);
    run(&mut cpu, Instruction::SkipIfKeyUp { x: 3 });
    assert_eq!(cpu.program_counter, 0x206);
}

#[test]
fn call_then_return_restores_program_counter() {
    let mut cpu = Cpu::new();
    cpu.program_counter = 0x2A4;
    run(&mut cpu, Instruction::Call { addr: 0x400 });
    assert_eq!(cpu.program_counter, 0x400);
    assert_eq!(cpu.stack_counter, 1);
    assert_eq!(cpu.stack[0], 0x2A4);
    run(&mut cpu, Instruction::Return);
    assert_eq!(cpu.program_counter, 0x2A4);
    assert_eq!(cpu.stack_counter, 0);
    assert_eq!(cpu.stack[0], 0);
}

#[test]
fn calls_nest_up_to_capacity_and_return_in_reverse() {
    let mut cpu = Cpu::new();
    for depth in 0..24u16 {
        cpu.program_counter = 0x200 + 2 * depth;
        run(&mut cpu, Instruction::Call { addr: 0x800 + depth });
        assert_eq!(cpu.stack_counter, depth as usize + 1);
    }
    for depth in (0..24u16).rev() {
        run(&mut cpu, Instruction::Return);
        assert_eq!(cpu.program_counter, 0x200 + 2 * depth);
        assert_eq!(cpu.stack_counter, depth as usize);
    }
}

#[test]
fn call_on_full_stack_is_stack_overflow() {
    let mut cpu = Cpu::new();
    for _ in 0..24 {
        run(&mut cpu, Instruction::Call { addr: 0x300 });
    }
    cpu.program_counter = 0x555;
    assert_eq!(
        cpu.execute_instruction(Instruction::Call { addr: 0x300 }, 0),
        Err(Fault::StackOverflow)
    );
    assert_eq!(cpu.program_counter, 0x555);
    assert_eq!(cpu.stack_counter, 24);
}

#[test]
fn return_on_empty_stack_is_stack_underflow() {
    let mut cpu = Cpu::new();
    assert_eq!(cpu.execute_instruction(Instruction::Return, 0), Err(Fault::StackUnderflow));
    assert_eq!(cpu.program_counter, 0x200);
    assert_eq!(cpu.stack_counter, 0);
}

#[test]
fn load_address_and_add_address() {
    let mut cpu = Cpu::new();
    run(&mut cpu, Instruction::LoadAddress { addr: 0x123 });
    assert_eq!(cpu.address_register, 0x123);
    cpu.registers[5] = 0x10;
    run(&mut cpu, Instruction::AddAddress { x: 5 });
    assert_eq!(cpu.address_register, 0x133);
    cpu.address_register = 0xFFFF;
    cpu.registers[5] = 2;
    run(&mut cpu, Instruction::AddAddress { x: 5 });
    assert_eq!(cpu.address_register, 1);
}

#[test]
fn random_is_masked() {
    let mut cpu = Cpu::new();
    assert_eq!(cpu.execute_instruction(Instruction::Random { x: 3, mask: 0x0F }, 0xA7), Ok(()));
    assert_eq!(cpu.registers[3], 0x07);
    assert_eq!(cpu.execute_instruction(Instruction::Random { x: 3, mask: 0xFF }, 0xA7), Ok(()));
    assert_eq!(cpu.registers[3], 0xA7);
    assert_eq!(cpu.execute_instruction(Instruction::Random { x: 3, mask: 0x00 }, 0xA7), Ok(()));
    assert_eq!(cpu.registers[3], 0x00);
}

#[test]
fn timers_are_read_and_set() {
    let mut cpu = Cpu::new();
    cpu.registers[1] = 33;
    run(&mut cpu, Instruction::SetDelay { x: 1 });
    assert_eq!(cpu.delay_timer, 33);
    run(&mut cpu, Instruction::ReadDelay { x: 2 });
    assert_eq!(cpu.registers[2], 33);
    cpu.registers[1] = 44;
    run(&mut cpu, Instruction::SetSound { x: 1 });
    assert_eq!(cpu.sound_timer, 44);
    assert_eq!(cpu.delay_timer, 33);
}

#[test]
fn sound_is_active_while_sound_timer_is_not_zero() {
    let mut cpu = Cpu::new();
    assert!(!cpu.sound_active());
    cpu.sound_timer = 1;
    assert!(cpu.sound_active());
    cpu.sound_timer = 255;
    assert!(cpu.sound_active());
}

#[test]
fn store_decimal_writes_three_digits() {
    let mut cpu = Cpu::new();
    cpu.address_register = 0x300;
    cpu.registers[4] = 254;
    run(&mut cpu, Instruction::StoreDecimal { x: 4 });
    assert_eq!(&cpu.memory[0x300..0x303], &[2, 5, 4]);
    cpu.registers[4] = 7;
    run(&mut cpu, Instruction::StoreDecimal { x: 4 });
    assert_eq!(&cpu.memory[0x300..0x303], &[0, 0, 7]);
    cpu.registers[4] = 120;
    run(&mut cpu, Instruction::StoreDecimal { x: 4 });
    assert_eq!(&cpu.memory[0x300..0x303], &[1, 2, 0]);
}

#[test]
fn store_decimal_at_the_end_of_memory() {
    let mut cpu = Cpu::new();
    cpu.registers[0] = 199;
    cpu.address_register = 4093;
    run(&mut cpu, Instruction::StoreDecimal { x: 0 });
    assert_eq!(&cpu.memory[4093..4096], &[1, 9, 9]);
    cpu.address_register = 4094;
    cpu.registers[0] = 255;
    assert_eq!(
        cpu.execute_instruction(Instruction::StoreDecimal { x: 0 }, 0),
        Err(Fault::MemoryOutOfRange)
    );
    assert_eq!(&cpu.memory[4093..4096], &[1, 9, 9]);
}

#[test]
fn store_registers_copies_registers_zero_to_x() {
    let mut cpu = Cpu::new();
    for i in 0..16 {
        cpu.registers[i] = 0x10 + i as u8;
    }
    cpu.address_register = 0x400;
    cpu.memory[0x404] = 0xEE;
    run(&mut cpu, Instruction::StoreRegisters { x: 3 });
    assert_eq!(&cpu.memory[0x400..0x405], &[0x10, 0x11, 0x12, 0x13, 0xEE]);
    assert_eq!(cpu.memory[0x3FF], 0);
    assert_eq!(cpu.address_register, 0x400);
    run(&mut cpu, Instruction::StoreRegisters { x: 0 });
    assert_eq!(cpu.memory[0x400], 0x10);
}

#[test]
fn load_registers_fills_registers_zero_to_x() {
    let mut cpu = Cpu::new();
    cpu.address_register = 0x400;
    for i in 0..16 {
        cpu.memory[0x400 + i] = 0xA0 + i as u8;
        cpu.registers[i] = 1;
    }
    run(&mut cpu, Instruction::LoadRegisters { x: 2 });
    assert_eq!(&cpu.registers[0..4], &[0xA0, 0xA1, 0xA2, 1]);
    assert_eq!(cpu.address_register, 0x400);
    run(&mut cpu, Instruction::LoadRegisters { x: 15 });
    assert_eq!(cpu.registers[15], 0xAF);
}

#[test]
fn register_block_beyond_memory_is_a_fault() {
    let mut cpu = Cpu::new();
    cpu.address_register = 4093;
    cpu.registers[0] = 1;
    run(&mut cpu, Instruction::StoreRegisters { x: 2 });
    assert_eq!(cpu.memory[4093], 1);
    assert_eq!(
        cpu.execute_instruction(Instruction::StoreRegisters { x: 3 }, 0),
        Err(Fault::MemoryOutOfRange)
    );
    assert_eq!(
        cpu.execute_instruction(Instruction::LoadRegisters { x: 3 }, 0),
        Err(Fault::MemoryOutOfRange)
    );
    run(&mut cpu, Instruction::LoadRegisters { x: 2 });
    cpu.address_register = 0xFFFF;
    assert_eq!(
        cpu.execute_instruction(Instruction::LoadRegisters { x: 0 }, 0),
        Err(Fault::MemoryOutOfRange)
    );
}

#[test]
fn check_reports_the_fault_without_running() {
    let mut cpu = Cpu::new();
    assert_eq!(cpu.check(Instruction::Return), Some(Fault::StackUnderflow));
    assert_eq!(cpu.check(Instruction::Call { addr: 0 }), None);
    cpu.stack_counter = 24;
    assert_eq!(cpu.check(Instruction::Call { addr: 0 }), Some(Fault::StackOverflow));
    assert_eq!(cpu.check(Instruction::Return), None);
    cpu.address_register = 4090;
    assert_eq!(cpu.check(Instruction::Draw { x: 0, y: 0, rows: 6 }), None);
    assert_eq!(cpu.check(Instruction::Draw { x: 0, y: 0, rows: 7 }), Some(Fault::MemoryOutOfRange));
    assert_eq!(cpu.check(Instruction::NoOp), None);
}

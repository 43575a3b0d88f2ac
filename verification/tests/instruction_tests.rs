use chip8::cpu::{Cpu, Memory};
use chip8::fault::{Fault, FaultKind};
use chip8::memory::{FONT_BASE, MEMORY_SIZE};

fn word(opcode: u16) -> [u8; 2] {
    [(opcode >> 8) as u8, (opcode & 0xFF) as u8]
}

fn program(opcodes: &[u16]) -> Memory {
    let mut bytes = Vec::new();
    for opcode in opcodes {
        bytes.extend_from_slice(&word(*opcode));
    }
    Memory::of_bytes(&bytes, 0)
}

fn fault_of(cpu: &mut Cpu, memory: &mut Memory) -> Fault {
    let registers = (
        cpu.registers.v,
        cpu.registers.pc,
        cpu.registers.i,
        cpu.registers.stack,
        cpu.registers.stack_idx,
        cpu.registers.delay,
        cpu.registers.sound,
        cpu.registers.wait_for_key,
    );
    let data = memory.data;
    let frame_buffer = memory.frame_buffer;
    let fault = cpu.step(memory).unwrap_err();
    assert_eq!(
        registers,
        (
            cpu.registers.v,
            cpu.registers.pc,
            cpu.registers.i,
            cpu.registers.stack,
            cpu.registers.stack_idx,
            cpu.registers.delay,
            cpu.registers.sound,
            cpu.registers.wait_for_key,
        )
    );
    assert_eq!(data, memory.data);
    assert_eq!(frame_buffer, memory.frame_buffer);
    fault
}

#[test]
fn load_immediate_sets_the_register_and_moves_on_by_two() {
    for reg in 0..16u16 {
        for imm in [0u16, 1, 0x7F, 0x80, 0xFF] {
            let mut memory = Memory::new();
            let bytes = word(0x6000 | (reg << 8) | imm);
            memory.set(0x400, bytes[0]);
            memory.set(0x401, bytes[1]);
            let mut cpu = Cpu::new();
            cpu.registers.pc = 0x400;
            cpu.registers.v = [0x33; 16];
            cpu.step(&mut memory).unwrap();
            assert_eq!(cpu.registers.v[reg as usize], imm as u8);
            assert_eq!(cpu.registers.pc, 0x402);
            for other in 0..16 {
                if other != reg as usize {
                    assert_eq!(cpu.registers.v[other], 0x33);
                }
            }
        }
    }
}

#[test]
fn add_sets_the_flag_exactly_on_a_carry() {
    for (a, b) in [(0u8, 0u8), (1, 254), (1, 255), (255, 1), (200, 100), (255, 255), (128, 127)] {
        let mut memory = program(&[0x8124]);
        let mut cpu = Cpu::new();
        cpu.registers.v[1] = a;
        cpu.registers.v[2] = b;
        cpu.registers.v[0xF] = 7;
        cpu.step(&mut memory).unwrap();
        let sum = a as u16 + b as u16;
        assert_eq!(cpu.registers.v[1], (sum % 256) as u8);
        assert_eq!(cpu.registers.v[0xF], if sum > 255 { 1 } else { 0 });
        assert_eq!(cpu.registers.v[2], b);
        assert_eq!(cpu.registers.pc, 2);
    }
}

#[test]
fn add_of_a_register_to_itself() {
    let mut memory = program(&[0x8334]);
    let mut cpu = Cpu::new();
    cpu.registers.v[3] = 0x90;
    cpu.step(&mut memory).unwrap();
    assert_eq!(cpu.registers.v[3], 0x20);
    assert_eq!(cpu.registers.v[0xF], 1);
}

#[test]
fn add_into_the_flag_register_keeps_the_sum() {
    let mut memory = program(&[0x8F14]);
    let mut cpu = Cpu::new();
    cpu.registers.v[0xF] = 200;
    cpu.registers.v[1] = 100;
    cpu.step(&mut memory).unwrap();
    assert_eq!(cpu.registers.v[0xF], 44);
}

#[test]
fn sub_sets_the_flag_exactly_on_a_borrow() {
    for (a, b) in [(0u8, 0u8), (5, 5), (5, 6), (0, 1), (255, 0), (0, 255), (100, 200)] {
        let mut memory = program(&[0x8125]);
        let mut cpu = Cpu::new();
        cpu.registers.v[1] = a;
        cpu.registers.v[2] = b;
        cpu.step(&mut memory).unwrap();
        assert_eq!(cpu.registers.v[1], a.wrapping_sub(b));
        assert_eq!(cpu.registers.v[0xF], if b > a { 1 } else { 0 });
    }
}

#[test]
fn reverse_sub_sets_the_flag_exactly_on_a_borrow() {
    for (a, b) in [(0u8, 0u8), (5, 5), (5, 6), (6, 5), (255, 0), (0, 255)] {
        let mut memory = program(&[0x8127]);
        let mut cpu = Cpu::new();
        cpu.registers.v[1] = a;
        cpu.registers.v[2] = b;
        cpu.step(&mut memory).unwrap();
        assert_eq!(cpu.registers.v[1], b.wrapping_sub(a));
        assert_eq!(cpu.registers.v[0xF], if a > b { 1 } else { 0 });
    }
}

#[test]
fn add_immediate_wraps_and_leaves_the_flag() {
    let mut memory = program(&[0x71FF]);
    let mut cpu = Cpu::new();
    cpu.registers.v[1] = 2;
    cpu.registers.v[0xF] = 9;
    cpu.step(&mut memory).unwrap();
    assert_eq!(cpu.registers.v[1], 1);
    assert_eq!(cpu.registers.v[0xF], 9);
}

#[test]
fn shift_right_puts_bit_zero_in_the_flag() {
    let mut memory = program(&[0x8106, 0x8106]);
    let mut cpu = Cpu::new();
    cpu.registers.v[1] = 5;
    cpu.step(&mut memory).unwrap();
    assert_eq!(cpu.registers.v[1], 2);
    assert_eq!(cpu.registers.v[0xF], 1);
    cpu.step(&mut memory).unwrap();
    assert_eq!(cpu.registers.v[1], 1);
    assert_eq!(cpu.registers.v[0xF], 0);
}

#[test]
fn shift_left_puts_bit_seven_in_the_flag() {
    let mut memory = program(&[0x8108, 0x8108]);
    let mut cpu = Cpu::new();
    cpu.registers.v[1] = 0x81;
    cpu.step(&mut memory).unwrap();
    assert_eq!(cpu.registers.v[1], 0x02);
    assert_eq!(cpu.registers.v[0xF], 1);
    cpu.step(&mut memory).unwrap();
    assert_eq!(cpu.registers.v[1], 0x04);
    assert_eq!(cpu.registers.v[0xF], 0);
}

#[test]
fn shifting_the_flag_register_itself() {
    let mut memory = program(&[0x8F06]);
    let mut cpu = Cpu::new();
    cpu.registers.v[0xF] = 7;
    cpu.step(&mut memory).unwrap();
    // the flag is written first, and then shifted
    assert_eq!(cpu.registers.v[0xF], 0);
    let mut memory = program(&[0x8F08]);
    let mut cpu = Cpu::new();
    cpu.registers.v[0xF] = 0x80;
    cpu.step(&mut memory).unwrap();
    assert_eq!(cpu.registers.v[0xF], 2);
}

#[test]
fn call_then_return_goes_on_behind_the_call() {
    let mut memory = Memory::new();
    memory.set(0x300, 0x24);
    memory.set(0x301, 0x56);
    memory.set(0x456, 0x00);
    memory.set(0x457, 0xEE);
    let mut cpu = Cpu::new();
    cpu.registers.pc = 0x300;
    cpu.registers.stack_push16(0x0123);
    cpu.step(&mut memory).unwrap();
    assert_eq!(cpu.registers.pc, 0x456);
    assert_eq!(cpu.registers.stack_idx, 4);
    cpu.step(&mut memory).unwrap();
    assert_eq!(cpu.registers.pc, 0x302);
    assert_eq!(cpu.registers.stack_idx, 2);
    assert_eq!(cpu.registers.stack[0], 0x01);
    assert_eq!(cpu.registers.stack[1], 0x23);
}

#[test]
fn skip_if_equal_moves_on_by_four_or_by_two() {
    for value in 0..=255u8 {
        let mut memory = program(&[0x3A42]);
        let mut cpu = Cpu::new();
        cpu.registers.v[0xA] = value;
        cpu.step(&mut memory).unwrap();
        assert_eq!(cpu.registers.pc, if value == 0x42 { 4 } else { 2 });
    }
}

#[test]
fn two_instructions_end_to_end() {
    let mut memory = Memory::of_bytes(&[0x60, 0x05, 0x70, 0x03], 0);
    let mut cpu = Cpu::new();
    cpu.step(&mut memory).unwrap();
    cpu.step(&mut memory).unwrap();
    assert_eq!(cpu.registers.v[0], 8);
    assert_eq!(cpu.registers.pc, 4);
}

#[test]
fn call_and_return_end_to_end() {
    let mut memory = Memory::of_bytes(&[0x20, 0x04, 0x00, 0x00, 0x00, 0xEE], 0);
    let mut cpu = Cpu::new();
    cpu.step(&mut memory).unwrap();
    assert_eq!(cpu.registers.pc, 4);
    cpu.step(&mut memory).unwrap();
    assert_eq!(cpu.registers.pc, 2);
    assert_eq!(cpu.registers.stack_idx, 0);
}

#[test]
fn call_and_return_end_to_end_across_pages() {
    let mut memory = Memory::of_bytes(&[0x22, 0x04], 0);
    memory.set(0x204, 0x00);
    memory.set(0x205, 0xEE);
    let mut cpu = Cpu::new();
    cpu.step(&mut memory).unwrap();
    assert_eq!(cpu.registers.pc, 0x204);
    cpu.step(&mut memory).unwrap();
    assert_eq!(cpu.registers.pc, 2);
    assert_eq!(cpu.registers.stack_idx, 0);
}

#[test]
fn bcd_stores_the_three_digits() {
    let mut memory = program(&[0xF333]);
    let mut cpu = Cpu::new();
    cpu.registers.v[3] = 146;
    cpu.registers.i = 0x40;
    cpu.step(&mut memory).unwrap();
    assert_eq!(memory.get(0x40), 1);
    assert_eq!(memory.get(0x41), 4);
    assert_eq!(memory.get(0x42), 6);
    assert_eq!(cpu.registers.i, 0x43);
    let mut memory = program(&[0xF333]);
    let mut cpu = Cpu::new();
    cpu.registers.v[3] = 7;
    cpu.registers.i = 0x40;
    memory.set(0x40, 9);
    memory.set(0x41, 9);
    cpu.step(&mut memory).unwrap();
    assert_eq!(memory.get(0x40), 0);
    assert_eq!(memory.get(0x41), 0);
    assert_eq!(memory.get(0x42), 7);
}

#[test]
fn clear_display_instruction() {
    let mut memory = program(&[0x00E0]);
    memory.draw_sprite(0, 0, 5, FONT_BASE);
    let mut cpu = Cpu::new();
    cpu.step(&mut memory).unwrap();
    assert!(memory.frame_buffer.iter().all(|p| *p == 0));
    assert_eq!(cpu.registers.pc, 2);
}

#[test]
fn draw_instruction_sets_the_collision_flag() {
    let mut memory = program(&[0xD125, 0xD125]);
    let mut cpu = Cpu::new();
    cpu.registers.v[1] = 10;
    cpu.registers.v[2] = 4;
    cpu.registers.v[0xF] = 9;
    cpu.registers.i = FONT_BASE as u16;
    cpu.step(&mut memory).unwrap();
    assert_eq!(cpu.registers.v[0xF], 0);
    assert_eq!(memory.frame_buffer[4 * 64 + 10], 1);
    assert_eq!(memory.frame_buffer.iter().filter(|p| **p == 1).count(), 14);
    cpu.step(&mut memory).unwrap();
    assert_eq!(cpu.registers.v[0xF], 1);
    assert!(memory.frame_buffer.iter().all(|p| *p == 0));
    assert_eq!(cpu.registers.pc, 4);
}

#[test]
fn glyph_address_of_the_low_nibble() {
    let mut memory = program(&[0xF129]);
    let mut cpu = Cpu::new();
    cpu.registers.v[1] = 0x3A;
    cpu.step(&mut memory).unwrap();
    assert_eq!(cpu.registers.i, 0x4000 + 10 * 5);
    assert_eq!(cpu.registers.pc, 2);
}

#[test]
fn register_dump_and_load() {
    let mut memory = program(&[0xF355, 0xF365]);
    let mut cpu = Cpu::new();
    cpu.registers.v = [11, 22, 33, 44, 55, 0, 0, 0, 0, 0, 0, 0, 0, 0, 0, 0];
    cpu.registers.i = 0x100;
    memory.set(0x104, 0xEE);
    cpu.step(&mut memory).unwrap();
    assert_eq!(memory.get(0x100), 11);
    assert_eq!(memory.get(0x101), 22);
    assert_eq!(memory.get(0x102), 33);
    assert_eq!(memory.get(0x103), 44);
    assert_eq!(memory.get(0x104), 0xEE);
    assert_eq!(cpu.registers.i, 0x104);
    cpu.registers.v = [0; 16];
    cpu.registers.v[4] = 5;
    cpu.registers.i = 0x101;
    cpu.step(&mut memory).unwrap();
    assert_eq!(cpu.registers.v[0], 22);
    assert_eq!(cpu.registers.v[1], 33);
    assert_eq!(cpu.registers.v[2], 44);
    assert_eq!(cpu.registers.v[3], 0xEE);
    assert_eq!(cpu.registers.v[4], 5);
    assert_eq!(cpu.registers.i, 0x105);
    assert_eq!(cpu.registers.pc, 4);
}

#[test]
fn register_load_reads_the_glyph_window() {
    let mut memory = program(&[0xF165]);
    let mut cpu = Cpu::new();
    cpu.registers.i = FONT_BASE as u16 + 78;
    cpu.step(&mut memory).unwrap();
    assert_eq!(cpu.registers.v[0], 0x80);
    assert_eq!(cpu.registers.v[1], 0x80);
    assert_eq!(cpu.registers.i, FONT_BASE as u16 + 80);
}

#[test]
fn key_query_moves_on_by_two() {
    for opcode in [0xE19E, 0xE1A1, 0xE000, 0xEFFF] {
        let mut memory = program(&[opcode]);
        let mut cpu = Cpu::new();
        cpu.registers.keys[0] = true;
        cpu.step(&mut memory).unwrap();
        assert_eq!(cpu.registers.pc, 2);
    }
}

#[test]
fn wait_for_key_latches_the_register() {
    let mut memory = program(&[0xF70A]);
    let mut cpu = Cpu::new();
    cpu.step(&mut memory).unwrap();
    assert_eq!(cpu.registers.wait_for_key, Some(7));
    assert_eq!(cpu.registers.pc, 2);
}

#[test]
fn index_register_adds_wrapping() {
    let mut memory = program(&[0xF11E]);
    let mut cpu = Cpu::new();
    cpu.registers.i = 0xFFFF;
    cpu.registers.v[1] = 3;
    cpu.step(&mut memory).unwrap();
    assert_eq!(cpu.registers.i, 2);
}

#[test]
fn masked_random_with_a_given_byte() {
    let mut memory = program(&[0xC40F]);
    let mut cpu = Cpu::new();
    cpu.registers.v[4] = 0xFF;
    cpu.step_with(&mut memory, 0xAB).unwrap();
    assert_eq!(cpu.registers.v[4], 0x0B);
    assert_eq!(cpu.registers.pc, 2);
}

#[test]
fn masked_random_stays_under_the_mask() {
    let mut seen = [false; 4];
    for _ in 0..400 {
        let mut memory = program(&[0xC403, 0xC500]);
        let mut cpu = Cpu::new();
        cpu.registers.v[4] = 0xFF;
        cpu.registers.v[5] = 0xFF;
        cpu.step(&mut memory).unwrap();
        assert!(cpu.registers.v[4] < 4);
        seen[cpu.registers.v[4] as usize] = true;
        cpu.step(&mut memory).unwrap();
        assert_eq!(cpu.registers.v[5], 0);
        assert_eq!(cpu.registers.pc, 4);
    }
    // the byte is drawn anew each time: 400 draws do not all give one value
    assert!(seen.iter().filter(|s| **s).count() > 1);
}

#[test]
fn a_given_byte_is_not_used_by_other_instructions() {
    let mut memory = program(&[0x6105]);
    let mut cpu = Cpu::new();
    cpu.step_with(&mut memory, 0xAB).unwrap();
    assert_eq!(cpu.registers.v[1], 5);
}

#[test]
fn machine_call_is_a_fault() {
    let mut memory = program(&[0x0123]);
    let mut cpu = Cpu::new();
    let fault = fault_of(&mut cpu, &mut memory);
    assert_eq!(fault, Fault { kind: FaultKind::UnsupportedMachineCall, pc: 0, opcode: 0x0123 });
    let mut memory = Memory::new();
    let mut cpu = Cpu::new();
    let fault = fault_of(&mut cpu, &mut memory);
    assert_eq!(fault, Fault { kind: FaultKind::UnsupportedMachineCall, pc: 0, opcode: 0 });
}

#[test]
fn unmapped_selectors_are_faults() {
    for opcode in [0x8009u16, 0x812F, 0xF000, 0xF106, 0xF166, 0xF1FF, 0xF154] {
        let mut memory = Memory::new();
        memory.set(0x20, (opcode >> 8) as u8);
        memory.set(0x21, (opcode & 0xFF) as u8);
        let mut cpu = Cpu::new();
        cpu.registers.pc = 0x20;
        let fault = fault_of(&mut cpu, &mut memory);
        assert_eq!(fault, Fault { kind: FaultKind::InvalidOpcode, pc: 0x20, opcode });
    }
}

#[test]
fn return_with_an_empty_stack_is_a_fault() {
    let mut memory = program(&[0x00EE]);
    let mut cpu = Cpu::new();
    let fault = fault_of(&mut cpu, &mut memory);
    assert_eq!(fault, Fault { kind: FaultKind::StackUnderflow, pc: 0, opcode: 0x00EE });
}

#[test]
fn call_with_a_full_stack_is_a_fault() {
    let mut memory = program(&[0x2000]);
    let mut cpu = Cpu::new();
    for _ in 0..127 {
        cpu.step(&mut memory).unwrap();
    }
    assert_eq!(cpu.registers.stack_idx, 254);
    cpu.step(&mut memory).unwrap();
    assert_eq!(cpu.registers.stack_idx, 256);
    let fault = fault_of(&mut cpu, &mut memory);
    assert_eq!(fault, Fault { kind: FaultKind::StackOverflow, pc: 0, opcode: 0x2000 });
}

#[test]
fn fetching_outside_the_memory_is_a_fault() {
    for pc in [MEMORY_SIZE as u16, 0x3000, 0x3FFF, 0x4050, 0xFFFF, MEMORY_SIZE as u16 - 1, 0x404F] {
        let mut memory = Memory::new();
        let mut cpu = Cpu::new();
        cpu.registers.pc = pc;
        let fault = fault_of(&mut cpu, &mut memory);
        assert_eq!(fault, Fault { kind: FaultKind::FetchOutOfRange, pc, opcode: 0 });
    }
}

#[test]
fn the_last_word_of_the_store_can_be_fetched() {
    let mut memory = Memory::new();
    memory.set(MEMORY_SIZE - 2, 0x61);
    memory.set(MEMORY_SIZE - 1, 0x07);
    let mut cpu = Cpu::new();
    cpu.registers.pc = MEMORY_SIZE as u16 - 2;
    cpu.step(&mut memory).unwrap();
    assert_eq!(cpu.registers.v[1], 7);
    assert_eq!(cpu.registers.pc, MEMORY_SIZE as u16);
}

#[test]
fn operands_outside_the_memory_are_faults() {
    let cases: [(u16, u16); 9] = [
        (0xF133, MEMORY_SIZE as u16 - 2),
        (0xF133, MEMORY_SIZE as u16),
        (0xF133, FONT_BASE as u16),
        (0xF133, 0xFFFF),
        (0xF555, MEMORY_SIZE as u16 - 5),
        (0xF055, MEMORY_SIZE as u16),
        (0xF565, MEMORY_SIZE as u16 - 5),
        (0xF165, FONT_BASE as u16 + 79),
        (0xD125, MEMORY_SIZE as u16 - 4),
    ];
    for (opcode, i) in cases {
        let mut memory = program(&[opcode]);
        let mut cpu = Cpu::new();
        cpu.registers.i = i;
        cpu.registers.v = [1; 16];
        let fault = fault_of(&mut cpu, &mut memory);
        assert_eq!(fault, Fault { kind: FaultKind::AddressOutOfRange, pc: 0, opcode });
    }
}

#[test]
fn operands_at_the_edge_of_the_memory() {
    let mut memory = program(&[0xF133, 0xF555, 0xD125, 0xD120]);
    let mut cpu = Cpu::new();
    cpu.registers.i = MEMORY_SIZE as u16 - 3;
    cpu.registers.v[1] = 255;
    cpu.step(&mut memory).unwrap();
    assert_eq!(memory.get(MEMORY_SIZE - 3), 2);
    assert_eq!(memory.get(MEMORY_SIZE - 1), 5);
    assert_eq!(cpu.registers.i, MEMORY_SIZE as u16);
    cpu.registers.i = MEMORY_SIZE as u16 - 6;
    cpu.step(&mut memory).unwrap();
    assert_eq!(cpu.registers.i, MEMORY_SIZE as u16);
    cpu.registers.i = MEMORY_SIZE as u16 - 5;
    cpu.step(&mut memory).unwrap();
    // a sprite of no rows reads nothing
    cpu.registers.i = 0x3000;
    cpu.step(&mut memory).unwrap();
    assert_eq!(cpu.registers.pc, 8);
}

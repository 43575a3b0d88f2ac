use chip8::cpu::Cpu;
use chip8::cpu::Memory;

fn prepare_cpu() -> Cpu {
    let cpu = Cpu::new();
    cpu
}

fn assemble_goto(data: &mut [u8], address: u16) {
    data[0] = (1 << 4) | ((address >> 8) & 0x0F) as u8;
    data[1] = (address & 0x00FF) as u8;
}

fn assemble_call(data: &mut [u8], address: u16) {
    data[0] = (2 << 4) | ((address >> 8) & 0x0F) as u8;
    data[1] = (address & 0x00FF) as u8;
}

fn assemble_ret(data: &mut [u8]) {
    data[0] = 0x00;
    data[1] = 0xEE;
}

fn assemble_reg_eq_imm(data: &mut [u8], reg: u8, imm: u8) {
    data[0] = (3 << 4) | (reg & 0x0F);
    data[1] = imm;
}

fn assemble_reg_neq_imm(data: &mut [u8], reg: u8, imm: u8) {
    data[0] = (4 << 4) | (reg & 0x0F);
    data[1] = imm;
}

fn assemble_two_reg_eq(data: &mut [u8], reg: u8, reg2: u8) {
    data[0] = (5 << 4) | (reg & 0x0F);
    data[1] = reg2 << 4;
}

fn assemble_two_reg_neq(data: &mut [u8], reg: u8, reg2: u8) {
    data[0] = (0x9 << 4) | (reg & 0x0F);
    data[1] = reg2 << 4;
}

fn assemble_load_imm(data: &mut [u8], reg: u8, imm: u8) {
    data[0] = (6 << 4) | (reg & 0x0F);
    data[1] = imm;
}

fn assemble_add_imm(data: &mut [u8], reg: u8, imm: u8) {
    data[0] = (7 << 4) | (reg & 0x0F);
    data[1] = imm;
}

fn math_bitop_core(data: &mut [u8], dst: u8, src: u8, mathop: u8) {
    data[0] = (8 << 4) | (dst & 0x0F);
    data[1] = (src << 4) | mathop;
}

fn assemble_reg_mv(data: &mut [u8], dst: u8, src: u8) {
    math_bitop_core(data, dst, src, 0);
}

fn assemble_reg_or(data: &mut [u8], dst: u8, src: u8) {
    math_bitop_core(data, dst, src, 1);
}

fn assemble_reg_and(data: &mut [u8], dst: u8, src: u8) {
    math_bitop_core(data, dst, src, 2);
}

fn assemble_reg_xor(data: &mut [u8], dst: u8, src: u8) {
    math_bitop_core(data, dst, src, 3);
}

fn assemble_reg_add(data: &mut [u8], dst: u8, src: u8) {
    math_bitop_core(data, dst, src, 4);
}

fn assemble_reg_sub(data: &mut [u8], dst: u8, src: u8) {
    math_bitop_core(data, dst, src, 5);
}

fn assemble_reg_shr(data: &mut [u8], dst: u8, src: u8) {
    math_bitop_core(data, dst, src, 6);
}

fn assemble_reg_rsub(data: &mut [u8], dst: u8, src: u8) {
    math_bitop_core(data, dst, src, 7);
}

fn assemble_reg_shl(data: &mut [u8], dst: u8, src: u8) {
    math_bitop_core(data, dst, src, 8);
}

fn assemble_set_i(data: &mut [u8], dst: u16) {
    data[0] = (0xA << 4) | (((dst >> 8) & 0x0F) as u8);
    data[1] = (dst & 0xFF) as u8;
}

fn assemble_pc_plus_r(data: &mut [u8], dst: u16) {
    data[0] = (0xB << 4) | (((dst >> 8) & 0x0F) as u8);
    data[1] = (dst & 0xFF) as u8;
}

fn assemble_get_delay(data: &mut [u8], reg: u8) {
    data[0] = (0xF << 4) | reg;
    data[1] = 0x07;
}

fn assemble_set_delay(data: &mut [u8], reg: u8) {
    data[0] = (0xF << 4) | reg;
    data[1] = 0x15;
}

fn assemble_set_sound(data: &mut [u8], reg: u8) {
    data[0] = (0xF << 4) | reg;
    data[1] = 0x18;
}

fn assemble_i_plus_vx(data: &mut [u8], reg: u8) {
    data[0] = (0xF << 4) | reg;
    data[1] = 0x1E;
}

fn assemble_bcd(data: &mut [u8], reg: u8) {
    data[0] = (0xF << 4) | reg;
    data[1] = 0x33;
}

#[test]
fn mv() {
    let mut program = [0; 256];
    assemble_reg_mv(&mut program, 0x2, 0x4);
    let mut memory = Memory::of_bytes(&program, 0);
    let mut cpu = prepare_cpu();
    cpu.registers.v[0x4] = 40;
    cpu.step(&mut memory).unwrap();
    assert_eq!(cpu.registers.v[0x2], 40);
    assert_eq!(cpu.registers.v[0x4], 40);
    assert_eq!(cpu.registers.pc, 0x002);
}

#[test]
fn or() {
    let mut program = [0; 256];
    assemble_reg_or(&mut program, 0x2, 0x4);
    let mut memory = Memory::of_bytes(&program, 0);
    let mut cpu = prepare_cpu();
    cpu.registers.v[0x2] = 64;
    cpu.registers.v[0x4] = 40;
    cpu.step(&mut memory).unwrap();
    assert_eq!(cpu.registers.v[0x2], 40 | 64);
    assert_eq!(cpu.registers.v[0x4], 40);
    assert_eq!(cpu.registers.pc, 0x002);
}

#[test]
fn and() {
    let mut program = [0; 256];
    assemble_reg_and(&mut program, 0x2, 0x4);
    let mut memory = Memory::of_bytes(&program, 0);
    let mut cpu = prepare_cpu();
    cpu.registers.v[0x2] = 64;
    cpu.registers.v[0x4] = 40;
    cpu.step(&mut memory).unwrap();
    assert_eq!(cpu.registers.v[0x2], 40 & 64);
    assert_eq!(cpu.registers.v[0x4], 40);
    assert_eq!(cpu.registers.pc, 0x002);
}

#[test]
fn xor() {
    let mut program = [0; 256];
    assemble_reg_xor(&mut program, 0x2, 0x4);
    let mut memory = Memory::of_bytes(&program, 0);
    let mut cpu = prepare_cpu();
    cpu.registers.v[0x2] = 64;
    cpu.registers.v[0x4] = 40;
    cpu.step(&mut memory).unwrap();
    assert_eq!(cpu.registers.v[0x2], 40 ^ 64);
    assert_eq!(cpu.registers.v[0x4], 40);
    assert_eq!(cpu.registers.pc, 0x002);
}

#[test]
fn shr() {
    let mut program = [0; 256];
    assemble_reg_shr(&mut program, 0x2, 0x0);
    let mut memory = Memory::of_bytes(&program, 0);
    let mut cpu = prepare_cpu();
    cpu.registers.v[0x2] = 64;
    cpu.step(&mut memory).unwrap();
    assert_eq!(cpu.registers.v[0x2], 32);
    assert_eq!(cpu.registers.pc, 0x002);
}

#[test]
fn shl() {
    let mut program = [0; 256];
    assemble_reg_shl(&mut program, 0x2, 0x0);
    let mut memory = Memory::of_bytes(&program, 0);
    let mut cpu = prepare_cpu();
    cpu.registers.v[0x2] = 64;
    cpu.step(&mut memory).unwrap();
    assert_eq!(cpu.registers.v[0x2], 128);
    assert_eq!(cpu.registers.pc, 0x002);
}

#[test]
fn add_reg() {
    let mut program = [0; 256];
    assemble_reg_add(&mut program, 0x2, 0x4);
    let mut memory = Memory::of_bytes(&program, 0);
    let mut cpu = prepare_cpu();
    cpu.registers.v[0x2] = 64;
    cpu.registers.v[0x4] = 40;
    cpu.registers.v[0xF] = 40;
    cpu.step(&mut memory).unwrap();
    assert_eq!(cpu.registers.v[0x2], 40 + 64);
    assert_eq!(cpu.registers.v[0x4], 40);
    assert_eq!(cpu.registers.v[0xF], 0);
    assert_eq!(cpu.registers.pc, 0x002);
}

#[test]
fn add_reg_carry() {
    let mut program = [0; 256];
    assemble_reg_add(&mut program, 0x2, 0x4);
    let mut memory = Memory::of_bytes(&program, 0);
    let mut cpu = prepare_cpu();
    cpu.registers.v[0x2] = 128;
    cpu.registers.v[0x4] = 128;
    cpu.registers.v[0xF] = 40;
    cpu.step(&mut memory).unwrap();
    assert_eq!(cpu.registers.v[0x2], 128_u8.wrapping_add(128_u8));
    assert_eq!(cpu.registers.v[0x4], 128);
    assert_eq!(cpu.registers.v[0xF], 1);
    assert_eq!(cpu.registers.pc, 0x002);
}

#[test]
fn sub_reg() {
    let mut program = [0; 256];
    assemble_reg_sub(&mut program, 0x2, 0x4);
    let mut memory = Memory::of_bytes(&program, 0);
    let mut cpu = prepare_cpu();
    cpu.registers.v[0x2] = 64;
    cpu.registers.v[0x4] = 40;
    cpu.registers.v[0xF] = 40;
    cpu.step(&mut memory).unwrap();
    assert_eq!(cpu.registers.v[0x2], 64 - 40);
    assert_eq!(cpu.registers.v[0x4], 40);
    assert_eq!(cpu.registers.v[0xF], 0);
    assert_eq!(cpu.registers.pc, 0x002);
}

#[test]
fn sub_reg_carry() {
    let mut program = [0; 256];
    assemble_reg_sub(&mut program, 0x2, 0x4);
    let mut memory = Memory::of_bytes(&program, 0);
    let mut cpu = prepare_cpu();
    cpu.registers.v[0x2] = 64;
    cpu.registers.v[0x4] = 128;
    cpu.registers.v[0xF] = 40;
    cpu.step(&mut memory).unwrap();
    assert_eq!(cpu.registers.v[0x2], 64_u8.wrapping_add(128_u8));
    assert_eq!(cpu.registers.v[0x4], 128);
    assert_eq!(cpu.registers.v[0xF], 1);
    assert_eq!(cpu.registers.pc, 0x002);
}

#[test]
fn rsub_reg() {
    let mut program = [0; 256];
    assemble_reg_rsub(&mut program, 0x2, 0x4);
    let mut memory = Memory::of_bytes(&program, 0);
    let mut cpu = prepare_cpu();
    cpu.registers.v[0x2] = 40;
    cpu.registers.v[0x4] = 64;
    cpu.registers.v[0xF] = 40;
    cpu.step(&mut memory).unwrap();
    assert_eq!(cpu.registers.v[0x2], 64 - 40);
    assert_eq!(cpu.registers.v[0x4], 64);
    assert_eq!(cpu.registers.v[0xF], 0);
    assert_eq!(cpu.registers.pc, 0x002);
}

#[test]
fn rsub_reg_carry() {
    let mut program = [0; 256];
    assemble_reg_rsub(&mut program, 0x2, 0x4);
    let mut memory = Memory::of_bytes(&program, 0);
    let mut cpu = prepare_cpu();
    cpu.registers.v[0x2] = 128;
    cpu.registers.v[0x4] = 64;
    cpu.registers.v[0xF] = 40;
    cpu.step(&mut memory).unwrap();
    assert_eq!(cpu.registers.v[0x2], 64_u8.wrapping_add(128_u8));
    assert_eq!(cpu.registers.v[0x4], 64);
    assert_eq!(cpu.registers.v[0xF], 1);
    assert_eq!(cpu.registers.pc, 0x002);
}

#[test]
fn goto() {
    let mut program = [0; 256];
    assemble_goto(&mut program, 0xAF);
    let mut memory = Memory::of_bytes(&program, 0);
    let mut cpu = prepare_cpu();
    cpu.step(&mut memory).unwrap();
    assert!(cpu.registers.pc == 0x00AF);
    assert_eq!(cpu.registers.stack_idx, 0);
}

#[test]
fn call() {
    let mut program = [0; 256];
    assemble_call(&mut program, 0xADE);
    let mut memory = Memory::of_bytes(&program, 0);
    let mut cpu = prepare_cpu();
    // Mark the stack location we expect to get overwritten to be non-zero
    cpu.registers.stack[0] = 0xAA;
    cpu.registers.stack[1] = 0xBB;
    cpu.step(&mut memory).unwrap();
    assert_eq!(cpu.registers.stack_idx, 2);
    assert_eq!(cpu.registers.stack[0], 0x00);
    assert_eq!(cpu.registers.stack[1], 0x02);
    assert_eq!(cpu.registers.pc, 0xADE);
}

#[test]
fn reg_eq_imm() {
    let mut program = [0; 256];
    assemble_reg_eq_imm(&mut program, 5, 0xFE);

    let mut memory = Memory::of_bytes(&program, 0);
    let mut cpu = prepare_cpu();

    cpu.registers.v[5] = 0xFE;

    cpu.step(&mut memory).unwrap();
    assert_eq!(cpu.registers.pc, 0x04);

    cpu.registers.pc = 0;
    cpu.registers.v[5] = 0xAE;

    cpu.step(&mut memory).unwrap();
    assert_eq!(cpu.registers.pc, 0x02);
}

#[test]
fn reg_neq_imm() {
    let mut program = [0; 256];
    assemble_reg_neq_imm(&mut program, 5, 0xFE);

    let mut memory = Memory::of_bytes(&program, 0);
    let mut cpu = prepare_cpu();

    cpu.registers.v[5] = 0xFE;

    cpu.step(&mut memory).unwrap();
    assert_eq!(cpu.registers.pc, 0x02);

    cpu.registers.pc = 0;
    cpu.registers.v[5] = 0xAE;

    cpu.step(&mut memory).unwrap();
    assert_eq!(cpu.registers.pc, 0x04);
}

#[test]
fn two_reg_eq() {
    let mut program = [0; 256];
    assemble_two_reg_eq(&mut program, 0x7, 0xF);
    let mut memory = Memory::of_bytes(&program, 0);
    let mut cpu = prepare_cpu();
    cpu.registers.v[0x7] = 0xFE;
    cpu.registers.v[0xF] = 0xAA;
    cpu.step(&mut memory).unwrap();
    assert_eq!(cpu.registers.pc, 2);
    cpu.registers.pc = 0x0;
    cpu.registers.v[0xF] = 0xFE;
    cpu.step(&mut memory).unwrap();
    assert_eq!(cpu.registers.pc, 4);
}

#[test]
fn two_reg_neq() {
    let mut program = [0; 256];
    assemble_two_reg_neq(&mut program, 0x7, 0xF);
    let mut memory = Memory::of_bytes(&program, 0);
    let mut cpu = prepare_cpu();
    cpu.registers.v[0x7] = 0xFE;
    cpu.registers.v[0xF] = 0xAA;
    cpu.step(&mut memory).unwrap();
    assert_eq!(cpu.registers.pc, 4);
    cpu.registers.pc = 0x0;
    cpu.registers.v[0xF] = 0xFE;
    cpu.step(&mut memory).unwrap();
    assert_eq!(cpu.registers.pc, 2);
}

#[test]
fn load_imm() {
    let mut program = [0; 256];
    assemble_load_imm(&mut program, 7, 0xFE);

    let mut memory = Memory::of_bytes(&program, 0);
    let mut cpu = prepare_cpu();
    cpu.step(&mut memory).unwrap();
    assert_eq!(cpu.registers.v[7], 0xFE);
    assert_eq!(cpu.registers.pc, 0x2);
}

#[test]
fn add_imm() {
    let mut program = [0; 256];
    assemble_add_imm(&mut program, 3, 2);
    assemble_add_imm(&mut program[2..], 3, 8);

    let mut memory = Memory::of_bytes(&program, 0);
    let mut cpu = prepare_cpu();
    cpu.step(&mut memory).unwrap();
    assert_eq!(cpu.registers.v[3], 0x2);
    assert_eq!(cpu.registers.pc, 0x2);
    cpu.step(&mut memory).unwrap();
    assert_eq!(cpu.registers.v[3], 0xA);

    assert_eq!(cpu.registers.pc, 0x4);
}

#[test]
fn set_i() {
    let mut program = [0; 256];
    assemble_set_i(&mut program, 0x8FE);

    let mut memory = Memory::of_bytes(&program, 0);
    let mut cpu = prepare_cpu();
    cpu.step(&mut memory).unwrap();
    assert_eq!(cpu.registers.i, 0x8FE);
    assert_eq!(cpu.registers.pc, 0x2);
}

#[test]
fn get_delay() {
    let mut program = [0; 256];
    assemble_get_delay(&mut program, 0x3);
    let mut memory = Memory::of_bytes(&program, 0);
    let mut cpu = prepare_cpu();
    cpu.registers.delay = 0x40;
    cpu.step(&mut memory).unwrap();
    assert_eq!(cpu.registers.v[0x3], 0x40);
    assert_eq!(cpu.registers.pc, 0x2);
}

#[test]
fn set_delay() {
    let mut program = [0; 256];
    assemble_set_delay(&mut program, 0x3);
    let mut memory = Memory::of_bytes(&program, 0);
    let mut cpu = prepare_cpu();
    cpu.registers.v[0x3] = 0x69;
    cpu.step(&mut memory).unwrap();
    assert_eq!(cpu.registers.delay, 0x69);
    assert_eq!(cpu.registers.pc, 0x2);
}

#[test]
fn set_sound() {
    let mut program = [0; 256];
    assemble_set_sound(&mut program, 0x3);
    let mut memory = Memory::of_bytes(&program, 0);
    let mut cpu = prepare_cpu();
    cpu.registers.v[0x3] = 0x69;
    cpu.step(&mut memory).unwrap();
    assert_eq!(cpu.registers.sound, 0x69);
    assert_eq!(cpu.registers.pc, 0x2);
}

#[test]
fn i_plus_vx() {
    let mut program = [0; 256];
    assemble_i_plus_vx(&mut program, 0x3);
    let mut memory = Memory::of_bytes(&program, 0);
    let mut cpu = prepare_cpu();
    cpu.registers.v[0x3] = 0x69;
    cpu.registers.i = 0x40;
    cpu.step(&mut memory).unwrap();
    assert_eq!(cpu.registers.i, 0x40 + 0x69);
    assert_eq!(cpu.registers.pc, 0x2);
}

#[test]
fn bcd() {
    let mut program = [0; 256];
    assemble_bcd(&mut program, 0x3);
    let mut memory = Memory::of_bytes(&program, 0);
    let mut cpu = prepare_cpu();
    cpu.registers.v[0x3] = 146;
    cpu.registers.i = 0x40;
    cpu.step(&mut memory).unwrap();

    assert_eq!(memory.get(0x40), 1);
    assert_eq!(memory.get(0x41), 4);
    assert_eq!(memory.get(0x42), 6);

    assert_eq!(cpu.registers.i, 0x40 + 3);
    assert_eq!(cpu.registers.pc, 0x2);
}

#[test]
fn pc_plus_reg() {
    let mut program = [0; 256];
    assemble_pc_plus_r(&mut program, 0x8FE);
    let mut memory = Memory::of_bytes(&program, 0);
    let mut cpu = prepare_cpu();
    cpu.registers.v[0] = 0xFF;
    cpu.step(&mut memory).unwrap();
    assert_eq!(cpu.registers.pc, 0x8FE + 0xFF);
}

#[test]
fn ret() {
    let mut program = [0; 256];
    assemble_call(&mut program, 0x10);
    assemble_ret(&mut program[0x10..]);
    let mut memory = Memory::of_bytes(&program, 0);
    let mut cpu = prepare_cpu();
    // Mark the stack location we expect to get overwritten to be non-zero
    cpu.registers.stack[0] = 0xAA;
    cpu.registers.stack[1] = 0xBB;
    cpu.step(&mut memory).unwrap();
    assert_eq!(cpu.registers.stack_idx, 2);
    assert_eq!(cpu.registers.stack[0], 0x00);
    assert_eq!(cpu.registers.stack[1], 0x02);
    assert_eq!(cpu.registers.pc, 0x10);
    cpu.step(&mut memory).unwrap();
    assert_eq!(cpu.registers.stack_idx, 0);
    assert_eq!(cpu.registers.pc, 0x02);
}

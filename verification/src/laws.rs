//! What holds of the instructions whatever the state they are executed in.

use crate::fault::FaultKind;
use crate::instruction::{
    immediate, main_operation, nibble, register_x, register_y, Operation,
};
use crate::memory::lemma_draw_rows_len;
use crate::registers::{advance, FLAG_REGISTER, REGISTER_COUNT, STACK_SIZE};
use crate::semantics::{resolve, State};
use vstd::arithmetic::div_mod::lemma_fundamental_div_mod_converse;
use vstd::prelude::*;

verus! {

/// The instruction word that loads `imm` into register `reg`
pub open spec fn load_immediate_opcode(reg: int, imm: int) -> u16 {
    (0x6000 + reg * 256 + imm) as u16
}

/// The instruction word that skips the next instruction if register `reg` holds `imm`
pub open spec fn skip_if_equal_opcode(reg: int, imm: int) -> u16 {
    (0x3000 + reg * 256 + imm) as u16
}

/// The instruction word that adds register `y` to register `x`
pub open spec fn add_register_opcode(x: int, y: int) -> u16 {
    (0x8004 + x * 256 + y * 16) as u16
}

/// The instruction word that calls the routine at `address`
pub open spec fn call_opcode(address: int) -> u16 {
    (0x2000 + address) as u16
}

/// The instruction word that returns from a routine
pub open spec fn return_opcode() -> u16 {
    0x00EE
}

/// An instruction word taken apart: the top nibble selects the operation, and
/// the operands are what the other three nibbles hold
pub proof fn lemma_fields(selector: int, x: int, y: int, n: int)
    requires
        0 <= selector < 16,
        0 <= x < 16,
        0 <= y < 16,
        0 <= n < 16,
    ensures
        ({
            let opcode = (selector * 4096 + x * 256 + y * 16 + n) as u16;
            let data = (opcode % 4096) as u16;
            &&& opcode == selector * 4096 + x * 256 + y * 16 + n
            &&& opcode as int / 4096 == selector
            &&& data == x * 256 + y * 16 + n
            &&& register_x(data) == x
            &&& register_y(data) == y
            &&& nibble(data) == n
            &&& immediate(data) == y * 16 + n
            &&& data as int % 256 == y * 16 + n
        }),
{
    let word = selector * 4096 + x * 256 + y * 16 + n;
    let low = x * 256 + y * 16 + n;
    lemma_fundamental_div_mod_converse(word, 4096, selector, low);
    lemma_fundamental_div_mod_converse(low, 256, x, y * 16 + n);
    lemma_fundamental_div_mod_converse(x, 16, 0, x);
    lemma_fundamental_div_mod_converse(low, 16, x * 16 + y, n);
    lemma_fundamental_div_mod_converse(x * 16 + y, 16, x, y);
}

/// The registers that an instruction names exist: its register fields, and its
/// last nibble, are below 16.
pub proof fn law_register_fields_in_range(data: u16)
    ensures
        0 <= register_x(data) < REGISTER_COUNT,
        0 <= register_y(data) < REGISTER_COUNT,
        0 <= nibble(data) < 16,
{
}

/// Loading an immediate sets the register to it, moves `pc` on by exactly 2 and
/// changes nothing else.
pub proof fn law_load_immediate(s: State, reg: int, imm: int, random: u8)
    requires
        s.wf(),
        0 <= reg < REGISTER_COUNT,
        0 <= imm < 256,
    ensures
        s.execute(load_immediate_opcode(reg, imm), random) is Ok,
        s.execute(load_immediate_opcode(reg, imm), random)->Ok_0 == s.with_regs(
            s.regs.set_v(reg, imm as u8).inc_pc(2),
        ),
        s.execute(load_immediate_opcode(reg, imm), random)->Ok_0.regs.v[reg] == imm,
        s.execute(load_immediate_opcode(reg, imm), random)->Ok_0.regs.pc == advance(s.regs.pc, 2),
{
    lemma_fields(6, reg, imm / 16, imm % 16);
    let opcode = load_immediate_opcode(reg, imm);
    let data = (opcode % 4096) as u16;
    assert(main_operation(6) == Operation::LoadImmediate);
    assert(resolve(Operation::LoadImmediate, data) == Operation::LoadImmediate);
    assert(s.execute(opcode, random) == s.apply_leaf(Operation::LoadImmediate, data, random));
}

/// Adding register `y` to register `x`, which is not the flag register, leaves
/// the sum modulo 256 in `x`, and 1 in the flag register exactly if the sum
/// is above 255, else 0.
pub proof fn law_add_register_carry(s: State, x: int, y: int, random: u8)
    requires
        s.wf(),
        0 <= x < REGISTER_COUNT,
        0 <= y < REGISTER_COUNT,
        x != FLAG_REGISTER,
    ensures
        s.execute(add_register_opcode(x, y), random) is Ok,
        s.execute(add_register_opcode(x, y), random)->Ok_0.regs.v[x as int] == (s.regs.v[x]
            + s.regs.v[y]) % 256,
        s.execute(add_register_opcode(x, y), random)->Ok_0.regs.v[FLAG_REGISTER as int] == 1
            <==> s.regs.v[x] + s.regs.v[y] > 255,
        s.execute(add_register_opcode(x, y), random)->Ok_0.regs.v[FLAG_REGISTER as int] == 0
            <==> s.regs.v[x] + s.regs.v[y] <= 255,
        s.execute(add_register_opcode(x, y), random)->Ok_0.regs.pc == advance(s.regs.pc, 2),
{
    lemma_fields(8, x, y, 4);
    let opcode = add_register_opcode(x, y);
    let data = (opcode % 4096) as u16;
    assert(main_operation(8) == Operation::MathOrBitop);
    assert(resolve(Operation::MathOrBitop, data) == Operation::AddRegister);
    assert(s.execute(opcode, random) == s.apply_leaf(Operation::AddRegister, data, random));
    assert(s.execute(opcode, random) == Ok::<State, FaultKind>(
        s.with_regs(s.regs.add_register(data)),
    ));
}

/// A call followed by a return goes on behind the call: `pc` is 2 past where the
/// call stood and the stack holds the return addresses it held before the
/// call. This is for a stack with room for one more address.
pub proof fn law_call_then_return(s: State, address: int, random: u8)
    requires
        s.wf(),
        0 <= address < 4096,
        s.regs.stack_idx + 2 <= STACK_SIZE,
    ensures
        s.execute(call_opcode(address), random) is Ok,
        s.execute(call_opcode(address), random)->Ok_0.regs.pc == address,
        s.execute(call_opcode(address), random)->Ok_0.regs.call_stack()
            == s.regs.call_stack().push(advance(s.regs.pc, 2)),
        s.execute(call_opcode(address), random)->Ok_0.execute(return_opcode(), random) is Ok,
        s.execute(call_opcode(address), random)->Ok_0.execute(
            return_opcode(),
            random,
        )->Ok_0.regs.pc == advance(s.regs.pc, 2),
        s.execute(call_opcode(address), random)->Ok_0.execute(
            return_opcode(),
            random,
        )->Ok_0.regs.stack_idx == s.regs.stack_idx,
        s.execute(call_opcode(address), random)->Ok_0.execute(
            return_opcode(),
            random,
        )->Ok_0.regs.call_stack() == s.regs.call_stack(),
        s.execute(call_opcode(address), random)->Ok_0.execute(return_opcode(), random)->Ok_0.mem
            == s.mem,
{
    lemma_fields(2, address / 256, (address / 16) % 16, address % 16);
    lemma_fields(0, 0, 0xE, 0xE);
    let data = (call_opcode(address) % 4096) as u16;
    assert(main_operation(2) == Operation::Call);
    assert(resolve(Operation::Call, data) == Operation::Call);
    assert(s.execute(call_opcode(address), random) == s.apply_leaf(Operation::Call, data, random));
    assert(s.execute(call_opcode(address), random) == s.call(data));
    let called = s.execute(call_opcode(address), random)->Ok_0;
    assert(main_operation(0) == Operation::McallDisplayOrFlow);
    assert(resolve(Operation::McallDisplayOrFlow, 0xEE) == Operation::McallDisplayOrFlow);
    assert(called.execute(return_opcode(), random) == called.apply_leaf(
        Operation::McallDisplayOrFlow,
        0xEE,
        random,
    ));
    assert(called.execute(return_opcode(), random) == called.mcall_display_or_flow(0xEE));
    let target = advance(s.regs.pc, 2);
    assert(called.regs == s.regs.call(call_opcode(address) % 4096));
    assert((target / 256) as u8 * 256 + (target % 256) as u8 == target);
    assert(called.regs.call_stack() =~= s.regs.call_stack().push(target));
    let returned = called.execute(return_opcode(), random)->Ok_0;
    assert(returned.regs.call_stack() =~= s.regs.call_stack());
}

/// A call with no room left on the stack, and a return with nothing on it, are
/// faults.
pub proof fn law_stack_limits(s: State, address: int, random: u8)
    requires
        s.wf(),
        0 <= address < 4096,
    ensures
        s.regs.stack_idx + 2 > STACK_SIZE ==> s.execute(call_opcode(address), random) == Err::<
            State,
            FaultKind,
        >(FaultKind::StackOverflow),
        s.regs.stack_idx < 2 ==> s.execute(return_opcode(), random) == Err::<State, FaultKind>(
            FaultKind::StackUnderflow,
        ),
{
    lemma_fields(2, address / 256, (address / 16) % 16, address % 16);
    lemma_fields(0, 0, 0xE, 0xE);
    let data = (call_opcode(address) % 4096) as u16;
    assert(main_operation(2) == Operation::Call);
    assert(resolve(Operation::Call, data) == Operation::Call);
    assert(s.execute(call_opcode(address), random) == s.apply_leaf(Operation::Call, data, random));
    assert(s.execute(call_opcode(address), random) == s.call(data));
    assert(main_operation(0) == Operation::McallDisplayOrFlow);
    assert(resolve(Operation::McallDisplayOrFlow, 0xEE) == Operation::McallDisplayOrFlow);
    assert(s.execute(return_opcode(), random) == s.apply_leaf(
        Operation::McallDisplayOrFlow,
        0xEE,
        random,
    ));
    assert(s.execute(return_opcode(), random) == s.mcall_display_or_flow(0xEE));
}

/// Skip-if-equal moves `pc` on by 4 where the register holds the immediate and
/// by 2 where it does not, and changes nothing else.
pub proof fn law_skip_if_equal(s: State, reg: int, imm: int, random: u8)
    requires
        s.wf(),
        0 <= reg < REGISTER_COUNT,
        0 <= imm < 256,
    ensures
        s.execute(skip_if_equal_opcode(reg, imm), random) is Ok,
        s.execute(skip_if_equal_opcode(reg, imm), random)->Ok_0 == s.with_regs(
            s.regs.inc_pc(
                if s.regs.v[reg] == imm {
                    4
                } else {
                    2
                },
            ),
        ),
        s.regs.v[reg] == imm ==> s.execute(skip_if_equal_opcode(reg, imm), random)->Ok_0.regs.pc
            == advance(s.regs.pc, 4),
        s.regs.v[reg] != imm ==> s.execute(skip_if_equal_opcode(reg, imm), random)->Ok_0.regs.pc
            == advance(s.regs.pc, 2),
{
    lemma_fields(3, reg, imm / 16, imm % 16);
    let opcode = skip_if_equal_opcode(reg, imm);
    let data = (opcode % 4096) as u16;
    assert(main_operation(3) == Operation::RegEqual);
    assert(resolve(Operation::RegEqual, data) == Operation::RegEqual);
    assert(s.execute(opcode, random) == s.apply_leaf(Operation::RegEqual, data, random));
}

/// An operation keeps a well-formed state well formed.
pub proof fn law_apply_keeps_wf(s: State, operation: Operation, data: u16, random: u8)
    requires
        s.wf(),
        s.apply(operation, data, random) is Ok,
    ensures
        s.apply(operation, data, random)->Ok_0.wf(),
{
    let next = s.apply(operation, data, random)->Ok_0;
    assert(0 <= register_x(data) < 16);
    match resolve(operation, data) {
        Operation::McallDisplayOrFlow => {
            assert(next.wf());
        },
        Operation::Call => {
            assert(next.wf());
        },
        Operation::DrawSprite => {
            lemma_draw_rows_len(
                s.mem.frame_buffer,
                s.regs.v[register_x(data)] as int,
                s.regs.v[register_y(data)] as int,
                s.mem.sprite_rows(s.regs.i as int, nibble(data)),
            );
            assert(next.wf());
        },
        Operation::BcdVx => {
            assert(next.wf());
        },
        Operation::RegDump => {
            assert(next.wf());
        },
        Operation::RegLoad => {
            assert(next.wf());
        },
        Operation::WaitForKey => {
            assert(next.wf());
        },
        _ => {
            assert(next.mem == s.mem);
            assert(next.regs.v.len() == 16);
            assert(next.wf());
        },
    }
}

/// Executing an instruction keeps a well-formed state well formed.
pub proof fn law_execute_keeps_wf(s: State, opcode: u16, random: u8)
    requires
        s.wf(),
        s.execute(opcode, random) is Ok,
    ensures
        s.execute(opcode, random)->Ok_0.wf(),
{
    law_apply_keeps_wf(s, main_operation(opcode as int / 4096), (opcode % 4096) as u16, random);
}

} // verus!

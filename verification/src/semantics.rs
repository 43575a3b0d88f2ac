//! What each operation does, as functions on the machine's state.

use crate::fault::{Fault, FaultKind};
use crate::instruction::{
    immediate, load_operation, main_operation, math_operation, nibble, register_x, register_y,
    Operation,
};
use crate::memory::{
    blank_screen, draw_rows, readable, rows_collide, writable, MemoryView, FONT_BASE,
};
use crate::registers::{advance, RegistersView, FLAG_REGISTER, STACK_SIZE};
use vstd::prelude::*;

verus! {

/// The sum of two bytes, around the end of the byte range
pub open spec fn wrapping_sum(a: u8, b: u8) -> u8 {
    ((a + b) % 256) as u8
}

/// The difference of two bytes, around the start of the byte range
pub open spec fn wrapping_difference(a: u8, b: u8) -> u8 {
    ((a - b) % 256) as u8
}

/// A condition as the value of the flag register
pub open spec fn flag(condition: bool) -> u8 {
    if condition {
        1
    } else {
        0
    }
}

impl RegistersView {
    /// These registers with the program counter moved past the next
    /// instruction too if `condition` holds
    pub open spec fn skip_if(self, condition: bool) -> RegistersView {
        self.inc_pc(
            if condition {
                4
            } else {
                2
            },
        )
    }

    /// Jump: `pc = address`
    pub open spec fn goto(self, data: u16) -> RegistersView {
        RegistersView { pc: data, ..self }
    }

    /// Call: the address of the next instruction goes on the stack, `pc = address`
    pub open spec fn call(self, data: u16) -> RegistersView {
        RegistersView { pc: data, ..self.push16(advance(self.pc, 2)) }
    }

    /// Return: the address on top of the stack comes off it and into `pc`
    pub open spec fn ret(self) -> RegistersView {
        RegistersView { pc: self.top16(), ..self.pop16() }
    }

    /// Skip the next instruction if `v[x] == imm`
    pub open spec fn reg_equal(self, data: u16) -> RegistersView {
        self.skip_if(self.v[register_x(data)] == immediate(data))
    }

    /// Skip the next instruction if `v[x] != imm`
    pub open spec fn reg_not_equal(self, data: u16) -> RegistersView {
        self.skip_if(self.v[register_x(data)] != immediate(data))
    }

    /// Skip the next instruction if `v[x] == v[y]`
    pub open spec fn two_reg_equal(self, data: u16) -> RegistersView {
        self.skip_if(self.v[register_x(data)] == self.v[register_y(data)])
    }

    /// Skip the next instruction if `v[x] != v[y]`
    pub open spec fn two_registers_not_equal(self, data: u16) -> RegistersView {
        self.skip_if(self.v[register_x(data)] != self.v[register_y(data)])
    }

    /// `v[x] = imm`
    pub open spec fn load_immediate(self, data: u16) -> RegistersView {
        self.set_v(register_x(data), immediate(data)).inc_pc(2)
    }

    /// `v[x] += imm`, wrapping
    pub open spec fn add_immediate(self, data: u16) -> RegistersView {
        self.set_v(
            register_x(data),
            wrapping_sum(self.v[register_x(data)], immediate(data)),
        ).inc_pc(2)
    }

    /// `i = address`
    pub open spec fn set_i(self, data: u16) -> RegistersView {
        RegistersView { i: data, ..self }.inc_pc(2)
    }

    /// `pc = v[0] + address`, wrapping
    pub open spec fn jump_immediate_plus_register(self, data: u16) -> RegistersView {
        RegistersView { pc: advance(data, self.v[0] as int), ..self }
    }

    /// `v[x] = random & imm`
    pub open spec fn masked_random(self, data: u16, random: u8) -> RegistersView {
        self.set_v(register_x(data), random & immediate(data)).inc_pc(2)
    }

    /// A key-state query: goes on to the next instruction
    pub open spec fn key_op(self) -> RegistersView {
        self.inc_pc(2)
    }

    /// `v[x] = v[y]`
    pub open spec fn mv_register(self, data: u16) -> RegistersView {
        self.set_v(register_x(data), self.v[register_y(data)]).inc_pc(2)
    }

    /// `v[x] |= v[y]`
    pub open spec fn or_register(self, data: u16) -> RegistersView {
        self.set_v(
            register_x(data),
            self.v[register_x(data)] | self.v[register_y(data)],
        ).inc_pc(2)
    }

    /// `v[x] &= v[y]`
    pub open spec fn and_register(self, data: u16) -> RegistersView {
        self.set_v(
            register_x(data),
            self.v[register_x(data)] & self.v[register_y(data)],
        ).inc_pc(2)
    }

    /// `v[x] ^= v[y]`
    pub open spec fn xor_register(self, data: u16) -> RegistersView {
        self.set_v(
            register_x(data),
            self.v[register_x(data)] ^ self.v[register_y(data)],
        ).inc_pc(2)
    }

    /// `v[x] += v[y]`, wrapping. The flag register is set to 1 if the sum is less
    /// than `v[x]` was, else to 0; then the sum is stored, so with the flag
    /// register as `x` the sum stays
    pub open spec fn add_register(self, data: u16) -> RegistersView {
        let a = self.v[register_x(data)];
        let result = wrapping_sum(a, self.v[register_y(data)]);
        self.set_v(FLAG_REGISTER as int, flag(result < a)).set_v(register_x(data), result).inc_pc(
            2,
        )
    }

    /// `v[x] -= v[y]`, wrapping. The flag register is set to 1 if the difference is
    /// greater than `v[x]` was, else to 0; then the difference is stored
    pub open spec fn sub_register(self, data: u16) -> RegistersView {
        let a = self.v[register_x(data)];
        let result = wrapping_difference(a, self.v[register_y(data)]);
        self.set_v(FLAG_REGISTER as int, flag(result > a)).set_v(register_x(data), result).inc_pc(
            2,
        )
    }

    /// `v[x] = v[y] - v[x]`, wrapping. The flag register is set to 1 if the difference
    /// is greater than `v[y]` was, else to 0; then the difference is stored
    pub open spec fn rev_sub_register(self, data: u16) -> RegistersView {
        let b = self.v[register_y(data)];
        let result = wrapping_difference(b, self.v[register_x(data)]);
        self.set_v(FLAG_REGISTER as int, flag(result > b)).set_v(register_x(data), result).inc_pc(
            2,
        )
    }

    /// The flag register is set to bit 0 of `v[x]`; then `v[x] >>= 1`
    pub open spec fn shr_register(self, data: u16) -> RegistersView {
        let flagged = self.set_v(FLAG_REGISTER as int, self.v[register_x(data)] % 2);
        flagged.set_v(register_x(data), flagged.v[register_x(data)] / 2).inc_pc(2)
    }

    /// The flag register is set to bit 7 of `v[x]`; then `v[x] <<= 1`
    pub open spec fn shl_register(self, data: u16) -> RegistersView {
        let flagged = self.set_v(FLAG_REGISTER as int, self.v[register_x(data)] / 128);
        flagged.set_v(
            register_x(data),
            ((flagged.v[register_x(data)] * 2) % 256) as u8,
        ).inc_pc(2)
    }

    /// Key `key` goes down or up. A key that goes down while a register waits for
    /// one is stored in that register, which ends the wait
    pub open spec fn set_key(self, key: u8, pressed: bool) -> RegistersView {
        let noted = match self.wait_for_key {
            Some(register) if pressed && !self.keys[key as int] => RegistersView {
                v: self.v.update(register as int, key),
                wait_for_key: None,
                ..self
            },
            _ => self,
        };
        RegistersView { keys: self.keys.update(key as int, pressed), ..noted }
    }

    /// One tick of the timers: each goes down by one unless it is zero
    pub open spec fn tick_timers(self) -> RegistersView {
        RegistersView {
            sound: if self.sound > 0 {
                (self.sound - 1) as u8
            } else {
                0
            },
            delay: if self.delay > 0 {
                (self.delay - 1) as u8
            } else {
                0
            },
            ..self
        }
    }

    /// `v[x] = delay`
    pub open spec fn get_delay(self, data: u16) -> RegistersView {
        self.set_v(register_x(data), self.delay).inc_pc(2)
    }

    /// `delay = v[x]`
    pub open spec fn set_delay(self, data: u16) -> RegistersView {
        RegistersView { delay: self.v[register_x(data)], ..self }.inc_pc(2)
    }

    /// `sound = v[x]`
    pub open spec fn set_sound(self, data: u16) -> RegistersView {
        RegistersView { sound: self.v[register_x(data)], ..self }.inc_pc(2)
    }

    /// Register `x` waits for a key press
    pub open spec fn wait_for_key(self, data: u16) -> RegistersView {
        RegistersView { wait_for_key: Some(register_x(data) as usize), ..self }.inc_pc(2)
    }

    /// `i += v[x]`, wrapping
    pub open spec fn add_vx_i(self, data: u16) -> RegistersView {
        RegistersView { i: advance(self.i, self.v[register_x(data)] as int), ..self }.inc_pc(2)
    }

    /// `i` is set to where the glyph of the low nibble of `v[x]` is read
    pub open spec fn set_i_sprite_addr(self, data: u16) -> RegistersView {
        RegistersView {
            i: (FONT_BASE + (self.v[register_x(data)] % 16) * 5) as u16,
            ..self
        }.inc_pc(2)
    }
}

/// The operation that is carried out in the end. The arithmetic and logic family
/// goes by the last nibble of `data`, the load, store and timer family by its
/// low byte; any other operation is carried out itself
pub open spec fn resolve(operation: Operation, data: u16) -> Operation {
    match operation {
        Operation::MathOrBitop => math_operation(nibble(data)),
        Operation::LoadOrStore => load_operation(data as int % 256),
        _ => operation,
    }
}

/// Registers and memory: what an instruction works on
#[verifier::ext_equal]
pub struct State {
    pub regs: RegistersView,
    pub mem: MemoryView,
}

impl State {
    pub open spec fn wf(self) -> bool {
        self.regs.wf() && self.mem.wf()
    }

    /// This state with other registers
    pub open spec fn with_regs(self, regs: RegistersView) -> State {
        State { regs, ..self }
    }

    /// Selector 0: payload 0xE0 clears the display, 0xEE returns from a call, and
    /// any other is a call into machine code, which is a fault
    pub open spec fn mcall_display_or_flow(self, data: u16) -> Result<State, FaultKind> {
        if data == 0xE0 {
            Ok(
                State {
                    regs: self.regs.inc_pc(2),
                    mem: MemoryView { frame_buffer: blank_screen(), ..self.mem },
                },
            )
        } else if data == 0xEE {
            if self.regs.stack_idx < 2 {
                Err(FaultKind::StackUnderflow)
            } else {
                Ok(self.with_regs(self.regs.ret()))
            }
        } else {
            Err(FaultKind::UnsupportedMachineCall)
        }
    }

    /// Call, which is a fault where the stack has no room for one more address
    pub open spec fn call(self, data: u16) -> Result<State, FaultKind> {
        if self.regs.stack_idx + 2 > STACK_SIZE {
            Err(FaultKind::StackOverflow)
        } else {
            Ok(self.with_regs(self.regs.call(data)))
        }
    }

    /// Draw the sprite of `n` rows stored from `i` on at column `v[x]` and row
    /// `v[y]`; the flag register says whether a set pixel went off. A fault where
    /// one of the rows cannot be read
    pub open spec fn draw_sprite(self, data: u16) -> Result<State, FaultKind> {
        let x = self.regs.v[register_x(data)] as int;
        let y = self.regs.v[register_y(data)] as int;
        let n = nibble(data);
        let i = self.regs.i as int;
        if forall|a: int| i <= a < i + n ==> readable(a) {
            let rows = self.mem.sprite_rows(i, n);
            Ok(
                State {
                    regs: self.regs.set_v(
                        FLAG_REGISTER as int,
                        flag(rows_collide(self.mem.frame_buffer, x, y, rows)),
                    ).inc_pc(2),
                    mem: MemoryView {
                        frame_buffer: draw_rows(self.mem.frame_buffer, x, y, rows),
                        ..self.mem
                    },
                },
            )
        } else {
            Err(FaultKind::AddressOutOfRange)
        }
    }

    /// The three decimal digits of `v[x]` are stored at `i`, `i + 1` and `i + 2`,
    /// the hundreds first; then `i += 3`. A fault where one of the three
    /// addresses cannot be written
    pub open spec fn bcd_vx(self, data: u16) -> Result<State, FaultKind> {
        let value = self.regs.v[register_x(data)];
        let hundreds = self.regs.i as int;
        let tens = advance(self.regs.i, 1) as int;
        let units = advance(self.regs.i, 2) as int;
        if writable(hundreds) && writable(tens) && writable(units) {
            Ok(
                State {
                    regs: RegistersView { i: advance(self.regs.i, 3), ..self.regs }.inc_pc(2),
                    mem: self.mem.write_byte(units, value % 10).write_byte(
                        tens,
                        (value / 10) % 10,
                    ).write_byte(hundreds, (value / 100) % 10),
                },
            )
        } else {
            Err(FaultKind::AddressOutOfRange)
        }
    }

    /// `v[0]` to `v[x]` are stored from `i` on; then `i += x + 1`. A fault where
    /// one of the addresses cannot be written
    pub open spec fn reg_dump(self, data: u16) -> Result<State, FaultKind> {
        let x = register_x(data);
        let i = self.regs.i as int;
        if forall|a: int| i <= a <= i + x ==> writable(a) {
            Ok(
                State {
                    regs: RegistersView { i: advance(self.regs.i, x + 1), ..self.regs }.inc_pc(2),
                    mem: MemoryView {
                        data: Seq::new(
                            self.mem.data.len(),
                            |a: int|
                                if i <= a <= i + x {
                                    self.regs.v[a - i]
                                } else {
                                    self.mem.data[a]
                                },
                        ),
                        ..self.mem
                    },
                },
            )
        } else {
            Err(FaultKind::AddressOutOfRange)
        }
    }

    /// `v[0]` to `v[x]` are read from `i` on; then `i += x + 1`. A fault where one
    /// of the addresses cannot be read
    pub open spec fn reg_load(self, data: u16) -> Result<State, FaultKind> {
        let x = register_x(data);
        let i = self.regs.i as int;
        if forall|a: int| i <= a <= i + x ==> readable(a) {
            Ok(
                self.with_regs(
                    RegistersView {
                        v: Seq::new(
                            self.regs.v.len(),
                            |k: int|
                                if k <= x {
                                    self.mem.read_byte(i + k)
                                } else {
                                    self.regs.v[k]
                                },
                        ),
                        i: advance(self.regs.i, x + 1),
                        ..self.regs
                    }.inc_pc(2),
                ),
            )
        } else {
            Err(FaultKind::AddressOutOfRange)
        }
    }

    /// What an operation other than the two that dispatch further does to the
    /// state. `random` is the byte that the masked random operation draws
    pub open spec fn apply_leaf(self, operation: Operation, data: u16, random: u8) -> Result<
        State,
        FaultKind,
    > {
        match operation {
            Operation::McallDisplayOrFlow => self.mcall_display_or_flow(data),
            Operation::Goto => Ok(self.with_regs(self.regs.goto(data))),
            Operation::Call => self.call(data),
            Operation::RegEqual => Ok(self.with_regs(self.regs.reg_equal(data))),
            Operation::RegNotEqual => Ok(self.with_regs(self.regs.reg_not_equal(data))),
            Operation::TwoRegEqual => Ok(self.with_regs(self.regs.two_reg_equal(data))),
            Operation::LoadImmediate => Ok(self.with_regs(self.regs.load_immediate(data))),
            Operation::AddImmediate => Ok(self.with_regs(self.regs.add_immediate(data))),
            Operation::TwoRegistersNotEqual => Ok(
                self.with_regs(self.regs.two_registers_not_equal(data)),
            ),
            Operation::SetI => Ok(self.with_regs(self.regs.set_i(data))),
            Operation::JumpImmediatePlusRegister => Ok(
                self.with_regs(self.regs.jump_immediate_plus_register(data)),
            ),
            Operation::MaskedRandom => Ok(self.with_regs(self.regs.masked_random(data, random))),
            Operation::DrawSprite => self.draw_sprite(data),
            Operation::KeyOp => Ok(self.with_regs(self.regs.key_op())),
            Operation::MvRegister => Ok(self.with_regs(self.regs.mv_register(data))),
            Operation::OrRegister => Ok(self.with_regs(self.regs.or_register(data))),
            Operation::AndRegister => Ok(self.with_regs(self.regs.and_register(data))),
            Operation::XorRegister => Ok(self.with_regs(self.regs.xor_register(data))),
            Operation::AddRegister => Ok(self.with_regs(self.regs.add_register(data))),
            Operation::SubRegister => Ok(self.with_regs(self.regs.sub_register(data))),
            Operation::ShrRegister => Ok(self.with_regs(self.regs.shr_register(data))),
            Operation::RevSubRegister => Ok(self.with_regs(self.regs.rev_sub_register(data))),
            Operation::ShlRegister => Ok(self.with_regs(self.regs.shl_register(data))),
            Operation::GetDelay => Ok(self.with_regs(self.regs.get_delay(data))),
            Operation::WaitForKey => Ok(self.with_regs(self.regs.wait_for_key(data))),
            Operation::SetDelay => Ok(self.with_regs(self.regs.set_delay(data))),
            Operation::SetSound => Ok(self.with_regs(self.regs.set_sound(data))),
            Operation::AddVxI => Ok(self.with_regs(self.regs.add_vx_i(data))),
            Operation::SetISpriteAddr => Ok(self.with_regs(self.regs.set_i_sprite_addr(data))),
            Operation::BcdVx => self.bcd_vx(data),
            Operation::RegDump => self.reg_dump(data),
            Operation::RegLoad => self.reg_load(data),
            Operation::MathOrBitop | Operation::LoadOrStore | Operation::InvalidOp => Err(
                FaultKind::InvalidOpcode,
            ),
        }
    }

    /// What an operation does to the state
    pub open spec fn apply(self, operation: Operation, data: u16, random: u8) -> Result<
        State,
        FaultKind,
    > {
        self.apply_leaf(resolve(operation, data), data, random)
    }

    /// What executing the instruction word `opcode` does to the state: the top
    /// nibble selects the operation, the other twelve bits are its operands
    pub open spec fn execute(self, opcode: u16, random: u8) -> Result<State, FaultKind> {
        self.apply(main_operation(opcode as int / 4096), (opcode % 4096) as u16, random)
    }

    /// Whether the instruction word at `pc` can be fetched
    pub open spec fn fetchable(self) -> bool {
        readable(self.regs.pc as int) && readable(self.regs.pc + 1)
    }

    /// The instruction word at `pc`
    pub open spec fn fetch(self) -> u16 {
        self.mem.read_word(self.regs.pc as int)
    }

    /// Whether the instruction at `pc` is the one that draws a random byte
    pub open spec fn draws_random(self) -> bool {
        self.fetchable() && resolve(
            main_operation(self.fetch() as int / 4096),
            (self.fetch() % 4096) as u16,
        ) == Operation::MaskedRandom
    }

    /// One step: fetch the word at `pc` and execute it
    pub open spec fn step(self, random: u8) -> Result<State, Fault> {
        if !self.fetchable() {
            Err(Fault { kind: FaultKind::FetchOutOfRange, pc: self.regs.pc, opcode: 0 })
        } else {
            match self.execute(self.fetch(), random) {
                Ok(next) => Ok(next),
                Err(kind) => Err(Fault { kind, pc: self.regs.pc, opcode: self.fetch() }),
            }
        }
    }
}

/// The state that a register file and a memory make
pub open spec fn state(registers: RegistersView, memory: MemoryView) -> State {
    State { regs: registers, mem: memory }
}

/// Whether a call that was to do `expected` did it: on success the state is the
/// expected one, and on a fault that fault is returned and the state is as before
pub open spec fn carried_out<S, E>(
    expected: Result<S, E>,
    before: S,
    after: S,
    result: Result<(), E>,
) -> bool {
    match expected {
        Ok(next) => result is Ok && after == next,
        Err(fault) => result == Err::<(), E>(fault) && after == before,
    }
}

} // verus!

//! The operations, each against its statement in `semantics`.

use crate::fault::FaultKind;
use crate::instruction::{
    load_operation, math_operation, nibble, Instruction, OpTables, Operation, DATA_MASK, LOAD_OPS,
    MATH_OPS, NIBBLE_DATA_MASK,
};
use crate::memory::{readable, writable, Memory, FONT_BASE, FONT_SIZE, MEMORY_SIZE};
use crate::registers::{Registers, RegistersView, FLAG_REGISTER, INSTRUCTION_SIZE, STACK_SIZE};
use crate::rng::random_byte;
use crate::semantics::{carried_out, resolve, state};
use vstd::prelude::*;

verus! {

impl Instruction {
    /// The zero opcode can be either clear display, ret, or machine call (Call an instruction
    /// written in machine code) depending on parameters. We merge these all into one opcode
    /// execution.
    fn mcall_display_or_flow(registers: &mut Registers, memory: &mut Memory, data: u16) -> (result:
        Result<(), FaultKind>)
        requires
            old(registers).wf(),
        ensures
            carried_out(
                state(old(registers)@, old(memory)@).mcall_display_or_flow(data),
                state(old(registers)@, old(memory)@),
                state(final(registers)@, final(memory)@),
                result,
            ),
    {
        if data == 0xE0 {
            memory.clear_display();
            registers.inc_pc(2);
            Ok(())
        } else if data == 0xEE {
            if registers.stack_idx < 2 {
                Err(FaultKind::StackUnderflow)
            } else {
                let new_pc = registers.stack_pop16();
                registers.pc = new_pc;
                Ok(())
            }
        } else {
            Err(FaultKind::UnsupportedMachineCall)
        }
    }

    /// Goto changes the PC pointer to the fixed location
    fn goto(registers: &mut Registers, data: u16)
        ensures
            final(registers)@ == old(registers)@.goto(data),
    {
        registers.pc = data;
    }

    /// Call pushes a return address and then changes PC to the given location
    fn call(registers: &mut Registers, data: u16) -> (result: Result<(), FaultKind>)
        ensures
            old(registers)@.stack_idx + 2 <= STACK_SIZE ==> result is Ok && final(registers)@
                == old(registers)@.call(data),
            old(registers)@.stack_idx + 2 > STACK_SIZE ==> result == Err::<(), FaultKind>(
                FaultKind::StackOverflow,
            ) && final(registers)@ == old(registers)@,
    {
        if registers.stack_idx > STACK_SIZE - 2 {
            return Err(FaultKind::StackOverflow);
        }
        // First save the current PC + 2
        registers.stack_push16(registers.pc.wrapping_add(INSTRUCTION_SIZE));

        // Jump to the immediate
        registers.pc = data;
        Ok(())
    }

    /// Checks if a register and an immediate value are equal. If they are equal then we
    /// skip the next instruction, otherwise we run the next instruction.
    fn reg_equal(registers: &mut Registers, data: u16)
        ensures
            final(registers)@ == old(registers)@.reg_equal(data),
    {
        let (register, data) = Self::register_and_immediate_from_data(data);
        registers.inc_pc(
            if registers.v[register] == data {
                4
            } else {
                2
            },
        );
    }

    /// Checks if a register and an immediate are not equal. If they are not equal then skip the
    /// next instruction, otherwise run the next instruction.
    fn reg_not_equal(registers: &mut Registers, data: u16)
        ensures
            final(registers)@ == old(registers)@.reg_not_equal(data),
    {
        let (register, data) = Self::register_and_immediate_from_data(data);
        registers.inc_pc(
            if registers.v[register] != data {
                4
            } else {
                2
            },
        );
    }

    /// Checks if two registers are equal. If they are then skip the next instruction, otherwise
    /// run it.
    fn two_reg_equal(registers: &mut Registers, data: u16)
        ensures
            final(registers)@ == old(registers)@.two_reg_equal(data),
    {
        let (register1, register2) = Self::two_registers_from_data(data);
        registers.inc_pc(
            if registers.v[register1] == registers.v[register2] {
                4
            } else {
                2
            },
        );
    }

    /// Load an immediate into a register
    fn load_immediate(registers: &mut Registers, data: u16)
        ensures
            final(registers)@ == old(registers)@.load_immediate(data),
    {
        let (register, data) = Self::register_and_immediate_from_data(data);
        registers.v[register] = data;
        registers.inc_pc(2);
    }

    /// Same as load immediate but add it to the register rather than set it
    fn add_immediate(registers: &mut Registers, data: u16)
        ensures
            final(registers)@ == old(registers)@.add_immediate(data),
    {
        let (register, data) = Self::register_and_immediate_from_data(data);
        registers.v[register] = registers.v[register].wrapping_add(data);
        registers.inc_pc(2);
    }

    fn two_registers_not_equal(registers: &mut Registers, data: u16)
        ensures
            final(registers)@ == old(registers)@.two_registers_not_equal(data),
    {
        let (register1, register2) = Self::two_registers_from_data(data);
        registers.inc_pc(
            if registers.v[register1] != registers.v[register2] {
                4
            } else {
                2
            },
        );
    }

    fn set_i(registers: &mut Registers, data: u16)
        ensures
            final(registers)@ == old(registers)@.set_i(data),
    {
        registers.i = data;
        registers.inc_pc(2);
    }

    fn jump_immediate_plus_register(registers: &mut Registers, data: u16)
        ensures
            final(registers)@ == old(registers)@.jump_immediate_plus_register(data),
    {
        registers.pc = (registers.v[0] as u16).wrapping_add(data);
    }

    /// The masked random instruction takes a random value between 0 and 255, masks it with an
    /// immediate (& imm) and then places it in a specified register.
    fn masked_random(registers: &mut Registers, data: u16, rval: u8)
        ensures
            final(registers)@ == old(registers)@.masked_random(data, rval),
    {
        let (register, mask) = Self::register_and_immediate_from_data(data);
        registers.v[register] = rval & mask;
        registers.inc_pc(2);
    }

    fn draw_sprite(registers: &mut Registers, memory: &mut Memory, data: u16) -> (result: Result<
        (),
        FaultKind,
    >)
        ensures
            carried_out(
                state(old(registers)@, old(memory)@).draw_sprite(data),
                state(old(registers)@, old(memory)@),
                state(final(registers)@, final(memory)@),
                result,
            ),
    {
        let (register1, register2) = Self::two_registers_from_data(data);
        let d = data & NIBBLE_DATA_MASK;
        assert(data & 0x000F == data % 16) by (bit_vector);
        let n = d as usize;
        let i = registers.i as usize;
        if n > 0 && !(Memory::is_readable(i) && Memory::is_readable(i + n - 1)) {
            assert(!readable(i as int) || !readable(i + n - 1));
            return Err(FaultKind::AddressOutOfRange);
        }
        registers.v[FLAG_REGISTER] = memory.draw_sprite(
            registers.v[register1] as usize,
            registers.v[register2] as usize,
            n,
            i,
        );
        registers.inc_pc(2);
        Ok(())
    }

    fn key_op(registers: &mut Registers)
        ensures
            final(registers)@ == old(registers)@.key_op(),
    {
        registers.inc_pc(2);
    }

    fn mv_register(registers: &mut Registers, data: u16)
        ensures
            final(registers)@ == old(registers)@.mv_register(data),
    {
        let (register1, register2) = Self::two_registers_from_data(data);
        registers.v[register1] = registers.v[register2];
        registers.inc_pc(2);
    }

    fn or_register(registers: &mut Registers, data: u16)
        ensures
            final(registers)@ == old(registers)@.or_register(data),
    {
        let (register1, register2) = Self::two_registers_from_data(data);
        registers.v[register1] = registers.v[register1] | registers.v[register2];
        registers.inc_pc(2);
    }

    fn and_register(registers: &mut Registers, data: u16)
        ensures
            final(registers)@ == old(registers)@.and_register(data),
    {
        let (register1, register2) = Self::two_registers_from_data(data);
        registers.v[register1] = registers.v[register1] & registers.v[register2];
        registers.inc_pc(2);
    }

    fn xor_register(registers: &mut Registers, data: u16)
        ensures
            final(registers)@ == old(registers)@.xor_register(data),
    {
        let (register1, register2) = Self::two_registers_from_data(data);
        registers.v[register1] = registers.v[register1] ^ registers.v[register2];
        registers.inc_pc(2);
    }

    fn add_register(registers: &mut Registers, data: u16)
        ensures
            final(registers)@ == old(registers)@.add_register(data),
    {
        let (register1, register2) = Self::two_registers_from_data(data);
        let result = registers.v[register1].wrapping_add(registers.v[register2]);

        registers.v[FLAG_REGISTER] = if result < registers.v[register1] {
            1
        } else {
            0
        };

        registers.v[register1] = result;

        registers.inc_pc(2);
    }

    fn sub_register(registers: &mut Registers, data: u16)
        ensures
            final(registers)@ == old(registers)@.sub_register(data),
    {
        let (register1, register2) = Self::two_registers_from_data(data);
        let result = registers.v[register1].wrapping_sub(registers.v[register2]);

        registers.v[FLAG_REGISTER] = if result > registers.v[register1] {
            1
        } else {
            0
        };

        registers.v[register1] = result;

        registers.inc_pc(2);
    }

    fn shr_register(registers: &mut Registers, data: u16)
        ensures
            final(registers)@ == old(registers)@.shr_register(data),
    {
        let (register1, _register2) = Self::two_registers_from_data(data);
        let value = registers.v[register1];
        assert(value & 0x1 == value % 2) by (bit_vector);
        registers.v[FLAG_REGISTER] = value & 0x1;
        let value = registers.v[register1];
        assert(value >> 1 == value / 2) by (bit_vector);
        registers.v[register1] = value >> 1;
        registers.inc_pc(2);
    }

    fn shl_register(registers: &mut Registers, data: u16)
        ensures
            final(registers)@ == old(registers)@.shl_register(data),
    {
        let (register1, _register2) = Self::two_registers_from_data(data);
        let value = registers.v[register1];
        assert(value >> 7 == value / 128) by (bit_vector);
        registers.v[FLAG_REGISTER] = value >> 7;
        let value = registers.v[register1];
        assert(value << 1 == (value * 2) % 256) by (bit_vector);
        registers.v[register1] = value << 1;
        registers.inc_pc(2);
    }

    fn rev_sub_register(registers: &mut Registers, data: u16)
        ensures
            final(registers)@ == old(registers)@.rev_sub_register(data),
    {
        let (register1, register2) = Self::two_registers_from_data(data);
        let result = registers.v[register2].wrapping_sub(registers.v[register1]);

        registers.v[FLAG_REGISTER] = if result > registers.v[register2] {
            1
        } else {
            0
        };

        registers.v[register1] = result;

        registers.inc_pc(2);
    }

    fn get_delay(registers: &mut Registers, data: u16)
        ensures
            final(registers)@ == old(registers)@.get_delay(data),
    {
        let (register1, _register2) = Self::two_registers_from_data(data);
        registers.v[register1] = registers.delay;
        registers.inc_pc(2);
    }

    fn set_delay(registers: &mut Registers, data: u16)
        ensures
            final(registers)@ == old(registers)@.set_delay(data),
    {
        let (register1, _register2) = Self::two_registers_from_data(data);
        registers.delay = registers.v[register1];
        registers.inc_pc(2);
    }

    fn set_sound(registers: &mut Registers, data: u16)
        ensures
            final(registers)@ == old(registers)@.set_sound(data),
    {
        let (register1, _register2) = Self::two_registers_from_data(data);
        registers.sound = registers.v[register1];
        registers.inc_pc(2);
    }

    fn wait_for_key(registers: &mut Registers, data: u16)
        ensures
            final(registers)@ == old(registers)@.wait_for_key(data),
    {
        let (register1, _register2) = Self::two_registers_from_data(data);
        registers.wait_for_key = Some(register1);
        registers.inc_pc(2);
    }

    fn add_vx_i(registers: &mut Registers, data: u16)
        ensures
            final(registers)@ == old(registers)@.add_vx_i(data),
    {
        let (register1, _register2) = Self::two_registers_from_data(data);
        registers.i = registers.i.wrapping_add(registers.v[register1] as u16);
        registers.inc_pc(2);
    }

    fn set_i_sprite_addr(registers: &mut Registers, data: u16)
        ensures
            final(registers)@ == old(registers)@.set_i_sprite_addr(data),
    {
        let (register1, _register2) = Self::two_registers_from_data(data);
        let value = registers.v[register1];
        assert(value & 0x0F == value % 16) by (bit_vector);
        registers.i = FONT_BASE as u16 + ((value & 0x0F) as u16 * 5);
        registers.inc_pc(2);
    }

    fn bcd_vx(registers: &mut Registers, memory: &mut Memory, data: u16) -> (result: Result<
        (),
        FaultKind,
    >)
        ensures
            carried_out(
                state(old(registers)@, old(memory)@).bcd_vx(data),
                state(old(registers)@, old(memory)@),
                state(final(registers)@, final(memory)@),
                result,
            ),
    {
        let (register1, _) = Self::two_registers_from_data(data);
        let mut tmp = registers.v[register1];
        let hundreds = registers.i as usize;
        let tens = registers.i.wrapping_add(1) as usize;
        let units = registers.i.wrapping_add(2) as usize;
        if !(Memory::is_writable(hundreds) && Memory::is_writable(tens) && Memory::is_writable(
            units,
        )) {
            return Err(FaultKind::AddressOutOfRange);
        }
        // Least significant digit

        memory.set(units, tmp % 10);
        tmp /= 10;

        // Middle digit
        memory.set(tens, tmp % 10);
        tmp /= 10;

        // Most significant digit
        memory.set(hundreds, tmp % 10);

        registers.i = registers.i.wrapping_add(3);
        registers.inc_pc(2);
        Ok(())
    }

    fn reg_dump(registers: &mut Registers, memory: &mut Memory, data: u16) -> (result: Result<
        (),
        FaultKind,
    >)
        ensures
            carried_out(
                state(old(registers)@, old(memory)@).reg_dump(data),
                state(old(registers)@, old(memory)@),
                state(final(registers)@, final(memory)@),
                result,
            ),
    {
        let (register1, _) = Self::two_registers_from_data(data);
        let ghost start = registers.i as int;
        if !Memory::is_writable(registers.i as usize + register1) {
            assert(!writable(start + register1));
            return Err(FaultKind::AddressOutOfRange);
        }
        let mut i: usize = 0;
        while i < register1 + 1
            invariant
                i <= register1 + 1,
                register1 < 16,
                start == old(registers)@.i,
                start + register1 < MEMORY_SIZE,
                registers.i == start + i,
                registers@ == (RegistersView { i: registers.i, ..old(registers)@ }),
                memory@.frame_buffer == old(memory)@.frame_buffer,
                memory@.data.len() == MEMORY_SIZE,
                forall|a: int|
                    0 <= a < MEMORY_SIZE ==> memory@.data[a] == if start <= a < start + i {
                        old(registers)@.v[a - start]
                    } else {
                        old(memory)@.data[a]
                    },
            decreases register1 + 1 - i,
        {
            memory.set(registers.i as usize, registers.v[i]);
            registers.i = registers.i.wrapping_add(1);
            i += 1;
        }
        registers.inc_pc(2);
        proof {
            let before = state(old(registers)@, old(memory)@);
            assert(forall|a: int| start <= a <= start + register1 ==> writable(a));
            let expected = before.reg_dump(data)->Ok_0;
            assert(memory@.data =~= expected.mem.data);
            assert(registers@ =~= expected.regs);
        }
        Ok(())
    }

    fn reg_load(registers: &mut Registers, memory: &Memory, data: u16) -> (result: Result<
        (),
        FaultKind,
    >)
        ensures
            carried_out(
                state(old(registers)@, memory@).reg_load(data),
                state(old(registers)@, memory@),
                state(final(registers)@, memory@),
                result,
            ),
    {
        let (register1, _) = Self::two_registers_from_data(data);
        let ghost start = registers.i as int;
        if !(Memory::is_readable(registers.i as usize) && Memory::is_readable(
            registers.i as usize + register1,
        )) {
            assert(!readable(start) || !readable(start + register1));
            return Err(FaultKind::AddressOutOfRange);
        }
        let mut i: usize = 0;
        while i < register1 + 1
            invariant
                i <= register1 + 1,
                register1 < 16,
                forall|a: int| start <= a <= start + register1 ==> readable(a),
                start + register1 < FONT_BASE + FONT_SIZE,
                start == old(registers)@.i,
                registers.i == start + i,
                registers@ == (RegistersView {
                    i: registers.i,
                    v: registers@.v,
                    ..old(registers)@
                }),
                registers@.v.len() == 16,
                forall|k: int|
                    0 <= k < 16 ==> registers@.v[k] == if k < i {
                        memory@.read_byte(start + k)
                    } else {
                        old(registers)@.v[k]
                    },
            decreases register1 + 1 - i,
        {
            registers.v[i] = memory.get(registers.i as usize);
            registers.i = registers.i.wrapping_add(1);
            i += 1;
        }
        registers.inc_pc(2);
        proof {
            let before = state(old(registers)@, memory@);
            let expected = before.reg_load(data)->Ok_0;
            assert(registers@.v =~= expected.regs.v);
            assert(registers@ =~= expected.regs);
        }
        Ok(())
    }

    /// The entry of the arithmetic and logic table that the last nibble selects
    fn math_or_bitop(data: u16, op_tables: &OpTables) -> (operation: Operation)
        requires
            op_tables.wf(),
        ensures
            operation == math_operation(nibble(data)),
    {
        let math_opcode = data & NIBBLE_DATA_MASK;
        assert(data & 0x000F == data % 16) by (bit_vector);
        if (math_opcode as usize) < MATH_OPS {
            op_tables.math_op_table[math_opcode as usize].operation
        } else {
            Operation::InvalidOp
        }
    }

    /// The entry of the load, store and timer table that the low byte selects
    fn load_or_store(data: u16, op_tables: &OpTables) -> (operation: Operation)
        requires
            op_tables.wf(),
        ensures
            operation == load_operation(data as int % 256),
    {
        let opcode_mask = data & DATA_MASK;
        assert(data & 0x00FF == data % 256) by (bit_vector);
        if (opcode_mask as usize) < LOAD_OPS {
            op_tables.load_op_table[opcode_mask as usize].operation
        } else {
            Operation::InvalidOp
        }
    }

    /// The operation that executing this entry carries out in the end
    pub fn resolve(&self, data: u16, op_tables: &OpTables) -> (operation: Operation)
        requires
            op_tables.wf(),
        ensures
            operation == resolve(self.operation, data),
    {
        match self.operation {
            Operation::MathOrBitop => Self::math_or_bitop(data, op_tables),
            Operation::LoadOrStore => Self::load_or_store(data, op_tables),
            _ => self.operation,
        }
    }

    /// Carry out an operation that does not dispatch further
    fn execute_leaf(
        operation: Operation,
        registers: &mut Registers,
        memory: &mut Memory,
        data: u16,
        random: u8,
    ) -> (result: Result<(), FaultKind>)
        requires
            old(registers).wf(),
        ensures
            carried_out(
                state(old(registers)@, old(memory)@).apply_leaf(operation, data, random),
                state(old(registers)@, old(memory)@),
                state(final(registers)@, final(memory)@),
                result,
            ),
            final(registers).wf(),
    {
        match operation {
            Operation::McallDisplayOrFlow => Self::mcall_display_or_flow(registers, memory, data),
            Operation::Goto => {
                Self::goto(registers, data);
                Ok(())
            },
            Operation::Call => Self::call(registers, data),
            Operation::RegEqual => {
                Self::reg_equal(registers, data);
                Ok(())
            },
            Operation::RegNotEqual => {
                Self::reg_not_equal(registers, data);
                Ok(())
            },
            Operation::TwoRegEqual => {
                Self::two_reg_equal(registers, data);
                Ok(())
            },
            Operation::LoadImmediate => {
                Self::load_immediate(registers, data);
                Ok(())
            },
            Operation::AddImmediate => {
                Self::add_immediate(registers, data);
                Ok(())
            },
            Operation::TwoRegistersNotEqual => {
                Self::two_registers_not_equal(registers, data);
                Ok(())
            },
            Operation::SetI => {
                Self::set_i(registers, data);
                Ok(())
            },
            Operation::JumpImmediatePlusRegister => {
                Self::jump_immediate_plus_register(registers, data);
                Ok(())
            },
            Operation::MaskedRandom => {
                Self::masked_random(registers, data, random);
                Ok(())
            },
            Operation::DrawSprite => Self::draw_sprite(registers, memory, data),
            Operation::KeyOp => {
                Self::key_op(registers);
                Ok(())
            },
            Operation::MvRegister => {
                Self::mv_register(registers, data);
                Ok(())
            },
            Operation::OrRegister => {
                Self::or_register(registers, data);
                Ok(())
            },
            Operation::AndRegister => {
                Self::and_register(registers, data);
                Ok(())
            },
            Operation::XorRegister => {
                Self::xor_register(registers, data);
                Ok(())
            },
            Operation::AddRegister => {
                Self::add_register(registers, data);
                Ok(())
            },
            Operation::SubRegister => {
                Self::sub_register(registers, data);
                Ok(())
            },
            Operation::ShrRegister => {
                Self::shr_register(registers, data);
                Ok(())
            },
            Operation::RevSubRegister => {
                Self::rev_sub_register(registers, data);
                Ok(())
            },
            Operation::ShlRegister => {
                Self::shl_register(registers, data);
                Ok(())
            },
            Operation::GetDelay => {
                Self::get_delay(registers, data);
                Ok(())
            },
            Operation::WaitForKey => {
                Self::wait_for_key(registers, data);
                Ok(())
            },
            Operation::SetDelay => {
                Self::set_delay(registers, data);
                Ok(())
            },
            Operation::SetSound => {
                Self::set_sound(registers, data);
                Ok(())
            },
            Operation::AddVxI => {
                Self::add_vx_i(registers, data);
                Ok(())
            },
            Operation::SetISpriteAddr => {
                Self::set_i_sprite_addr(registers, data);
                Ok(())
            },
            Operation::BcdVx => Self::bcd_vx(registers, memory, data),
            Operation::RegDump => Self::reg_dump(registers, memory, data),
            Operation::RegLoad => Self::reg_load(registers, memory, data),
            Operation::MathOrBitop | Operation::LoadOrStore | Operation::InvalidOp => Err(
                FaultKind::InvalidOpcode,
            ),
        }
    }

    /// Execute the opcode with the operands `data`, taking `random` as the byte
    /// that the masked random operation draws. On a fault nothing has changed
    pub fn execute_with(
        &self,
        registers: &mut Registers,
        memory: &mut Memory,
        data: u16,
        op_tables: &OpTables,
        random: u8,
    ) -> (result: Result<(), FaultKind>)
        requires
            old(registers).wf(),
            op_tables.wf(),
        ensures
            carried_out(
                state(old(registers)@, old(memory)@).apply(self.operation, data, random),
                state(old(registers)@, old(memory)@),
                state(final(registers)@, final(memory)@),
                result,
            ),
            final(registers).wf(),
    {
        let operation = self.resolve(data, op_tables);
        Self::execute_leaf(operation, registers, memory, data, random)
    }

    /// Execute the opcode with the operands `data`, with the change in state being
    /// reflected in registers and memory. The masked random operation draws its
    /// byte from the registers' random source. On a fault nothing has changed
    pub fn execute(
        &self,
        registers: &mut Registers,
        memory: &mut Memory,
        data: u16,
        op_tables: &OpTables,
    ) -> (result: Result<(), FaultKind>)
        requires
            old(registers).wf(),
            op_tables.wf(),
        ensures
            exists|random: u8|
                carried_out(
                    #[trigger] state(old(registers)@, old(memory)@).apply(
                        self.operation,
                        data,
                        random,
                    ),
                    state(old(registers)@, old(memory)@),
                    state(final(registers)@, final(memory)@),
                    result,
                ),
            resolve(self.operation, data) != Operation::MaskedRandom ==> carried_out(
                state(old(registers)@, old(memory)@).apply(self.operation, data, 0),
                state(old(registers)@, old(memory)@),
                state(final(registers)@, final(memory)@),
                result,
            ),
            final(registers).wf(),
    {
        let operation = self.resolve(data, op_tables);
        let random = match operation {
            Operation::MaskedRandom => random_byte(&mut registers.rng),
            _ => 0,
        };
        let result = Self::execute_leaf(operation, registers, memory, data, random);
        proof {
            let before = state(old(registers)@, old(memory)@);
            assert(carried_out(
                before.apply(self.operation, data, random),
                before,
                state(registers@, memory@),
                result,
            ));
        }
        result
    }
}

} // verus!

use crate::fault::{Fault, FaultKind};
pub use crate::instruction::{Instruction, OpTables};
pub use crate::memory::Memory;
pub use crate::registers::Registers;
use crate::registers::{RegistersView, REGISTER_COUNT, STACK_SIZE};
use crate::rng::thread_rng;
use crate::semantics::{carried_out, state};
use vstd::prelude::*;

verus! {

/// The processor: the register file and the dispatch tables
pub struct Cpu {
    pub registers: Registers,
    pub op_tables: OpTables,
}

impl Cpu {
    /// The registers are well formed and the tables are the machine's own
    pub open spec fn wf(&self) -> bool {
        self.registers.wf() && self.op_tables.wf()
    }

    /// Whether the processor is well formed: for a caller that has written to
    /// the fields itself
    pub fn is_wf(&self) -> (yes: bool)
        ensures
            yes == self.wf(),
    {
        self.registers.is_wf() && self.op_tables.is_wf()
    }

    /// A processor that has not run yet, with the machine's dispatch tables and a
    /// handle to the thread's random source
    pub fn new() -> (cpu: Self)
        ensures
            cpu.wf(),
            cpu.op_tables.described(),
            cpu.registers@ == RegistersView::initial(),
    {
        Self {
            registers: Registers {
                pc: 0,
                v: [0; REGISTER_COUNT],
                i: 0,
                stack: [0; STACK_SIZE],
                stack_idx: 0,
                delay: 0,
                sound: 0,
                keys: [false; REGISTER_COUNT],
                wait_for_key: None,
                rng: thread_rng(),
            },
            op_tables: OpTables {
                main_op_table: Instruction::main_op_table(),
                math_op_table: Instruction::math_op_table(),
                load_op_table: Instruction::load_op_table(),
            },
        }
    }

    /// Fetch the instruction word at `pc`, taking it apart into the selector of
    /// the primary table and the operands
    fn fetch(&self, memory: &Memory) -> (fetched: Result<(u16, usize, u16), Fault>)
        ensures
            match fetched {
                Ok((opcode, op_id, data)) => {
                    &&& state(self.registers@, memory@).fetchable()
                    &&& opcode == state(self.registers@, memory@).fetch()
                    &&& op_id == opcode as int / 4096
                    &&& data == opcode % 4096
                },
                Err(fault) => {
                    &&& !state(self.registers@, memory@).fetchable()
                    &&& fault == (Fault {
                        kind: FaultKind::FetchOutOfRange,
                        pc: self.registers.pc,
                        opcode: 0,
                    })
                },
            },
    {
        let pc = self.registers.pc as usize;
        if !(Memory::is_readable(pc) && Memory::is_readable(pc + 1)) {
            return Err(Fault { kind: FaultKind::FetchOutOfRange, pc: self.registers.pc, opcode: 0 });
        }
        let next_opcode = memory.get16(pc);
        assert((next_opcode & 0xF000) >> 12 == next_opcode / 4096 && next_opcode & 0x0FFF
            == next_opcode % 4096) by (bit_vector);
        let op_id = ((next_opcode & 0xF000) >> 12) as usize;
        Ok((next_opcode, op_id, next_opcode & 0x0FFF))
    }

    /// Execute the instruction at `pc`. The masked random operation draws its byte
    /// from the registers' random source. On a fault nothing has changed
    pub fn step(&mut self, memory: &mut Memory) -> (result: Result<(), Fault>)
        requires
            old(self).wf(),
        ensures
            exists|random: u8|
                carried_out(
                    #[trigger] state(old(self).registers@, old(memory)@).step(random),
                    state(old(self).registers@, old(memory)@),
                    state(final(self).registers@, final(memory)@),
                    result,
                ),
            !state(old(self).registers@, old(memory)@).draws_random() ==> carried_out(
                state(old(self).registers@, old(memory)@).step(0),
                state(old(self).registers@, old(memory)@),
                state(final(self).registers@, final(memory)@),
                result,
            ),
            final(self).wf(),
            final(self).op_tables == old(self).op_tables,
    {
        let (next_opcode, op_id, data) = match self.fetch(memory) {
            Ok(fetched) => fetched,
            Err(fault) => {
                assert(carried_out(
                    state(self.registers@, memory@).step(0),
                    state(self.registers@, memory@),
                    state(self.registers@, memory@),
                    Err::<(), Fault>(fault),
                ));
                return Err(fault);
            },
        };
        let ghost before = state(self.registers@, memory@);
        let instruction = self.op_tables.main_op_table[op_id];
        let executed = instruction.execute(&mut self.registers, memory, data, &self.op_tables);
        let result = match executed {
            Ok(()) => Ok(()),
            Err(kind) => Err(Fault { kind, pc: self.registers.pc, opcode: next_opcode }),
        };
        proof {
            let after = state(self.registers@, memory@);
            let random = choose|random: u8|
                carried_out(
                    #[trigger] before.apply(instruction.operation, data, random),
                    before,
                    after,
                    executed,
                );
            assert(before.execute(next_opcode, random) == before.apply(
                instruction.operation,
                data,
                random,
            ));
            assert(carried_out(before.step(random), before, after, result));
            if !before.draws_random() {
                assert(before.execute(next_opcode, 0) == before.apply(
                    instruction.operation,
                    data,
                    0,
                ));
                assert(carried_out(before.step(0), before, after, result));
            }
        }
        result
    }

    /// Execute the instruction at `pc`, taking `random` as the byte that the
    /// masked random operation draws. On a fault nothing has changed
    pub fn step_with(&mut self, memory: &mut Memory, random: u8) -> (result: Result<(), Fault>)
        requires
            old(self).wf(),
        ensures
            carried_out(
                state(old(self).registers@, old(memory)@).step(random),
                state(old(self).registers@, old(memory)@),
                state(final(self).registers@, final(memory)@),
                result,
            ),
            final(self).wf(),
            final(self).op_tables == old(self).op_tables,
    {
        let (next_opcode, op_id, data) = match self.fetch(memory) {
            Ok(fetched) => fetched,
            Err(fault) => {
                return Err(fault);
            },
        };
        let instruction = self.op_tables.main_op_table[op_id];
        match instruction.execute_with(&mut self.registers, memory, data, &self.op_tables, random) {
            Ok(()) => Ok(()),
            Err(kind) => Err(Fault { kind, pc: self.registers.pc, opcode: next_opcode }),
        }
    }
}

} // verus!

use rand::rngs::ThreadRng;
use vstd::prelude::*;

verus! {

/// Size of an instruction (CHIP-8 uses fixed width opcodes)
pub const INSTRUCTION_SIZE: u16 = 0x2;

/// Number of general purpose registers, and of keys
pub const REGISTER_COUNT: usize = 16;

/// Number of bytes in the call stack: room for 128 return addresses
pub const STACK_SIZE: usize = 256;

/// Index of the register that doubles as carry, borrow and collision flag
pub const FLAG_REGISTER: usize = 0xF;

#[derive(Debug)]
pub struct Registers {
    /// The CHIP architecture has 16 8-bit general purpose registers.
    /// Register v[f] also doubles as the carry flag, collision flag, or borrow flag dependent on
    /// the operation.
    pub v: [u8; REGISTER_COUNT],
    /// The program counter
    pub pc: u16,
    /// The address register
    pub i: u16,
    /// The stack is only used for return. A return address takes two bytes, the
    /// most significant first
    pub stack: [u8; STACK_SIZE],
    /// Index of the first free byte of the stack
    pub stack_idx: usize,
    /// The delay timer counts down to zero at 60hz
    pub delay: u8,
    /// The sound timer emits a sound if it is not zero.
    /// This timer counts down to zero at 60hz and then stops.
    pub sound: u8,
    /// Which keys of the hex keypad are held down
    pub keys: [bool; REGISTER_COUNT],
    /// The register that waits for a key press, while the machine is halted for one
    pub wait_for_key: Option<usize>,
    /// Used to generate random values for the masked random command
    pub rng: ThreadRng,
}

/// The register file as the instructions see it: all of it but the random source
#[verifier::ext_equal]
pub struct RegistersView {
    pub v: Seq<u8>,
    pub pc: u16,
    pub i: u16,
    pub stack: Seq<u8>,
    pub stack_idx: int,
    pub delay: u8,
    pub sound: u8,
    pub keys: Seq<bool>,
    pub wait_for_key: Option<usize>,
}

/// `pc` moved on by `by`, around the end of the 16-bit address space
pub open spec fn advance(pc: u16, by: int) -> u16 {
    ((pc + by) % 0x10000) as u16
}

/// The 16-bit word whose bytes are `hi` and `lo`
pub open spec fn word(hi: u8, lo: u8) -> u16 {
    (hi as int * 256 + lo as int) as u16
}

impl RegistersView {
    /// The registers of a machine that has not run yet: all of them zero, the
    /// stack empty, no key held down and none waited for
    pub open spec fn initial() -> RegistersView {
        RegistersView {
            v: Seq::new(REGISTER_COUNT as nat, |k: int| 0u8),
            pc: 0,
            i: 0,
            stack: Seq::new(STACK_SIZE as nat, |k: int| 0u8),
            stack_idx: 0,
            delay: 0,
            sound: 0,
            keys: Seq::new(REGISTER_COUNT as nat, |k: int| false),
            wait_for_key: None,
        }
    }

    /// The sizes are those of the machine, the stack holds whole return addresses,
    /// and a register that waits for a key exists
    pub open spec fn wf(self) -> bool {
        &&& self.v.len() == REGISTER_COUNT
        &&& self.stack.len() == STACK_SIZE
        &&& self.keys.len() == REGISTER_COUNT
        &&& 0 <= self.stack_idx <= STACK_SIZE
        &&& self.stack_idx % 2 == 0
        &&& match self.wait_for_key {
            Some(register) => register < REGISTER_COUNT,
            None => true,
        }
    }

    /// The return addresses on the stack, the oldest first
    pub open spec fn call_stack(self) -> Seq<u16> {
        Seq::new(
            (self.stack_idx / 2) as nat,
            |k: int| word(self.stack[2 * k], self.stack[2 * k + 1]),
        )
    }

    /// These registers with the program counter moved on by `val`
    pub open spec fn inc_pc(self, val: int) -> RegistersView {
        RegistersView { pc: advance(self.pc, val), ..self }
    }

    /// These registers with general register `register` set to `val`
    pub open spec fn set_v(self, register: int, val: u8) -> RegistersView {
        RegistersView { v: self.v.update(register, val), ..self }
    }

    /// These registers with `value` on top of the stack
    pub open spec fn push16(self, value: u16) -> RegistersView {
        RegistersView {
            stack: self.stack.update(self.stack_idx, (value / 256) as u8).update(
                self.stack_idx + 1,
                (value % 256) as u8,
            ),
            stack_idx: self.stack_idx + 2,
            ..self
        }
    }

    /// The address on top of the stack
    pub open spec fn top16(self) -> u16 {
        word(self.stack[self.stack_idx - 2], self.stack[self.stack_idx - 1])
    }

    /// These registers with the top of the stack taken off
    pub open spec fn pop16(self) -> RegistersView {
        RegistersView { stack_idx: self.stack_idx - 2, ..self }
    }
}

impl View for Registers {
    type V = RegistersView;

    open spec fn view(&self) -> RegistersView {
        RegistersView {
            v: self.v@,
            pc: self.pc,
            i: self.i,
            stack: self.stack@,
            stack_idx: self.stack_idx as int,
            delay: self.delay,
            sound: self.sound,
            keys: self.keys@,
            wait_for_key: self.wait_for_key,
        }
    }
}

impl Registers {
    /// See `RegistersView::wf`
    pub open spec fn wf(&self) -> bool {
        self@.wf()
    }

    /// Whether the registers are well formed: for a caller that has written to
    /// the fields itself
    pub fn is_wf(&self) -> (yes: bool)
        ensures
            yes == self.wf(),
    {
        let waits_for_a_register = match self.wait_for_key {
            Some(register) => register < REGISTER_COUNT,
            None => true,
        };
        self.stack_idx <= STACK_SIZE && self.stack_idx % 2 == 0 && waits_for_a_register
    }

    /// Increment the PC by a given amount
    pub fn inc_pc(&mut self, val: u16)
        ensures
            final(self)@ == old(self)@.inc_pc(val as int),
    {
        self.pc = self.pc.wrapping_add(val);
    }

    /// Push a u16 to the stack in big-endian format
    pub fn stack_push16(&mut self, value: u16)
        requires
            old(self).stack_idx + 2 <= STACK_SIZE,
        ensures
            final(self)@ == old(self)@.push16(value),
    {
        let lower_part = (value & 0x00FF) as u8;
        let upper_part = ((value & 0xFF00) >> 8) as u8;
        assert((value & 0x00FF) == value % 256 && ((value & 0xFF00) >> 8) == value / 256) by (bit_vector);
        self.stack[self.stack_idx] = upper_part;
        self.stack[self.stack_idx + 1] = lower_part;
        self.stack_idx += 2;
    }

    /// Pop a u16 from the stack
    pub fn stack_pop16(&mut self) -> (value: u16)
        requires
            2 <= old(self).stack_idx <= STACK_SIZE,
        ensures
            value == old(self)@.top16(),
            final(self)@ == old(self)@.pop16(),
    {
        self.stack_idx -= 2;
        let upper_part = self.stack[self.stack_idx];
        let lower_part = self.stack[self.stack_idx + 1];
        assert(((upper_part as u16) << 8) | (lower_part as u16) == upper_part as u16 * 256
            + lower_part as u16) by (bit_vector);
        ((upper_part as u16) << 8) | (lower_part as u16)
    }
}

} // verus!

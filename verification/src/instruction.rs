use vstd::prelude::*;

verus! {

/// If opcode has the form _XN_ or _XR_ then the first register can be extracted with this mask
pub const REGISTER_MASK: u16 = 0x0F00;

/// If the opcode has the form _XR_ the second register can be extracted with this mask
pub const REGISTER_TWO_MASK: u16 = 0x00F0;

/// If opcodes have the form __II then the immediate value can be extracted with this mask
pub const DATA_MASK: u16 = 0x00FF;

/// If the opcode immediate contains only a single nibble of data (the final nibble of the opcode)
/// we extract it with this mask
pub const NIBBLE_DATA_MASK: u16 = 0x000F;

/// Number of entries of the primary dispatch table: one for each value of the top nibble
pub const MAIN_OPS: usize = 16;

/// Number of entries of the arithmetic and logic table
pub const MATH_OPS: usize = 9;

/// Number of entries of the load, store and timer table
pub const LOAD_OPS: usize = 0x66;

/// What an entry of a dispatch table does
#[derive(Clone, Copy, PartialEq, Eq, Structural, Debug)]
pub enum Operation {
    McallDisplayOrFlow,
    Goto,
    Call,
    RegEqual,
    RegNotEqual,
    TwoRegEqual,
    LoadImmediate,
    AddImmediate,
    MathOrBitop,
    TwoRegistersNotEqual,
    SetI,
    JumpImmediatePlusRegister,
    MaskedRandom,
    DrawSprite,
    KeyOp,
    LoadOrStore,
    MvRegister,
    OrRegister,
    AndRegister,
    XorRegister,
    AddRegister,
    SubRegister,
    ShrRegister,
    RevSubRegister,
    ShlRegister,
    GetDelay,
    WaitForKey,
    SetDelay,
    SetSound,
    AddVxI,
    SetISpriteAddr,
    BcdVx,
    RegDump,
    RegLoad,
    InvalidOp,
}

/// The first register of an opcode of the form _R__
pub open spec fn register_x(data: u16) -> int {
    (data as int / 256) % 16
}

/// The second register of an opcode of the form __R_
pub open spec fn register_y(data: u16) -> int {
    (data as int / 16) % 16
}

/// The immediate of an opcode of the form __II
pub open spec fn immediate(data: u16) -> u8 {
    (data % 256) as u8
}

/// The last nibble of an opcode
pub open spec fn nibble(data: u16) -> int {
    data as int % 16
}

/// The operation that the primary table holds for a top nibble
pub open spec fn main_operation(selector: int) -> Operation {
    if selector == 0x0 {
        Operation::McallDisplayOrFlow
    } else if selector == 0x1 {
        Operation::Goto
    } else if selector == 0x2 {
        Operation::Call
    } else if selector == 0x3 {
        Operation::RegEqual
    } else if selector == 0x4 {
        Operation::RegNotEqual
    } else if selector == 0x5 {
        Operation::TwoRegEqual
    } else if selector == 0x6 {
        Operation::LoadImmediate
    } else if selector == 0x7 {
        Operation::AddImmediate
    } else if selector == 0x8 {
        Operation::MathOrBitop
    } else if selector == 0x9 {
        Operation::TwoRegistersNotEqual
    } else if selector == 0xA {
        Operation::SetI
    } else if selector == 0xB {
        Operation::JumpImmediatePlusRegister
    } else if selector == 0xC {
        Operation::MaskedRandom
    } else if selector == 0xD {
        Operation::DrawSprite
    } else if selector == 0xE {
        Operation::KeyOp
    } else if selector == 0xF {
        Operation::LoadOrStore
    } else {
        Operation::InvalidOp
    }
}

/// The operation that the arithmetic and logic table holds for a last nibble
pub open spec fn math_operation(selector: int) -> Operation {
    if selector == 0 {
        Operation::MvRegister
    } else if selector == 1 {
        Operation::OrRegister
    } else if selector == 2 {
        Operation::AndRegister
    } else if selector == 3 {
        Operation::XorRegister
    } else if selector == 4 {
        Operation::AddRegister
    } else if selector == 5 {
        Operation::SubRegister
    } else if selector == 6 {
        Operation::ShrRegister
    } else if selector == 7 {
        Operation::RevSubRegister
    } else if selector == 8 {
        Operation::ShlRegister
    } else {
        Operation::InvalidOp
    }
}

/// The operation that the load, store and timer table holds for a low byte
pub open spec fn load_operation(selector: int) -> Operation {
    if selector == 0x07 {
        Operation::GetDelay
    } else if selector == 0x0A {
        Operation::WaitForKey
    } else if selector == 0x15 {
        Operation::SetDelay
    } else if selector == 0x18 {
        Operation::SetSound
    } else if selector == 0x1E {
        Operation::AddVxI
    } else if selector == 0x29 {
        Operation::SetISpriteAddr
    } else if selector == 0x33 {
        Operation::BcdVx
    } else if selector == 0x55 {
        Operation::RegDump
    } else if selector == 0x65 {
        Operation::RegLoad
    } else {
        Operation::InvalidOp
    }
}

/// The description that the primary table holds for a top nibble
pub open spec fn main_desc(selector: int) -> Seq<char> {
    if selector == 0x0 {
        "call XXX"@
    } else if selector == 0x1 {
        "goto NNN"@
    } else if selector == 0x2 {
        "call NNN"@
    } else if selector == 0x3 {
        "eq vX II"@
    } else if selector == 0x4 {
        "neq vX II"@
    } else if selector == 0x5 {
        "eq Vx Vy"@
    } else if selector == 0x6 {
        "ld Vx II"@
    } else if selector == 0x7 {
        "add Vx II"@
    } else if selector == 0x8 {
        "math or bitop"@
    } else if selector == 0x9 {
        "neq Vx Vy"@
    } else if selector == 0xA {
        "ld I, NNN"@
    } else if selector == 0xB {
        "jmp III + Vx"@
    } else if selector == 0xC {
        "rand Vx & II"@
    } else if selector == 0xD {
        "draw_sprite"@
    } else if selector == 0xE {
        "key"@
    } else {
        "load or store"@
    }
}

/// The description that the arithmetic and logic table holds for a last nibble
pub open spec fn math_desc(selector: int) -> Seq<char> {
    if selector == 0 {
        "mv X Y"@
    } else if selector == 1 {
        "or X Y"@
    } else if selector == 2 {
        "and X Y"@
    } else if selector == 3 {
        "xor X Y"@
    } else if selector == 4 {
        "add X Y"@
    } else if selector == 5 {
        "sub X Y"@
    } else if selector == 6 {
        "shr X Y"@
    } else if selector == 7 {
        "rsub X Y"@
    } else {
        "shl X Y"@
    }
}

/// The description that the load, store and timer table holds for a low byte
pub open spec fn load_desc(selector: int) -> Seq<char> {
    if selector == 0x07 {
        "mv Vx, delay"@
    } else if selector == 0x0A {
        "mv Vx, key"@
    } else if selector == 0x15 {
        "mv delay, Vx"@
    } else if selector == 0x18 {
        "mv sound, Vx"@
    } else if selector == 0x1E {
        "add I, Vx"@
    } else if selector == 0x29 {
        "mv I, sprite_addr[Vx]"@
    } else if selector == 0x33 {
        "mv I, bcd Vx"@
    } else if selector == 0x55 {
        "reg_dump"@
    } else if selector == 0x65 {
        "reg_load"@
    } else {
        "invalid"@
    }
}

/// An entry of a dispatch table
#[derive(Clone, Copy, Debug)]
pub struct Instruction {
    /// Rough description of the opcode from the first byte
    pub desc: &'static str,
    /// What executing the opcode does to registers and memory
    pub operation: Operation,
}

pub struct OpTables {
    pub main_op_table: [Instruction; MAIN_OPS],
    pub math_op_table: [Instruction; MATH_OPS],
    pub load_op_table: [Instruction; LOAD_OPS],
}

impl OpTables {
    /// Each table holds, for each selector, the operation that belongs to it
    pub open spec fn wf(&self) -> bool {
        &&& forall|k: int|
            0 <= k < MAIN_OPS ==> (#[trigger] self.main_op_table@[k]).operation == main_operation(k)
        &&& forall|k: int|
            0 <= k < MATH_OPS ==> (#[trigger] self.math_op_table@[k]).operation == math_operation(k)
        &&& forall|k: int|
            0 <= k < LOAD_OPS ==> (#[trigger] self.load_op_table@[k]).operation == load_operation(k)
    }
}

impl OpTables {
    /// Each entry of each table carries the description that belongs to its selector
    pub open spec fn described(&self) -> bool {
        &&& forall|k: int|
            0 <= k < MAIN_OPS ==> (#[trigger] self.main_op_table@[k]).desc@ == main_desc(k)
        &&& forall|k: int|
            0 <= k < MATH_OPS ==> (#[trigger] self.math_op_table@[k]).desc@ == math_desc(k)
        &&& forall|k: int|
            0 <= k < LOAD_OPS ==> (#[trigger] self.load_op_table@[k]).desc@ == load_desc(k)
    }

    /// Whether each table holds, for each selector, the operation that belongs
    /// to it: for a caller that has written to the tables itself
    pub fn is_wf(&self) -> (yes: bool)
        ensures
            yes == self.wf(),
    {
        let main_op_table = Instruction::main_op_table();
        let mut k: usize = 0;
        while k < MAIN_OPS
            invariant
                k <= MAIN_OPS,
                forall|j: int|
                    0 <= j < MAIN_OPS ==> (#[trigger] main_op_table@[j]).operation
                        == main_operation(j),
                forall|j: int|
                    0 <= j < k ==> (#[trigger] self.main_op_table@[j]).operation
                        == main_operation(j),
            decreases MAIN_OPS - k,
        {
            if self.main_op_table[k].operation != main_op_table[k].operation {
                return false;
            }
            k += 1;
        }
        let math_op_table = Instruction::math_op_table();
        let mut k: usize = 0;
        while k < MATH_OPS
            invariant
                k <= MATH_OPS,
                forall|j: int|
                    0 <= j < MATH_OPS ==> (#[trigger] math_op_table@[j]).operation
                        == math_operation(j),
                forall|j: int|
                    0 <= j < k ==> (#[trigger] self.math_op_table@[j]).operation
                        == math_operation(j),
            decreases MATH_OPS - k,
        {
            if self.math_op_table[k].operation != math_op_table[k].operation {
                return false;
            }
            k += 1;
        }
        let load_op_table = Instruction::load_op_table();
        let mut k: usize = 0;
        while k < LOAD_OPS
            invariant
                k <= LOAD_OPS,
                forall|j: int|
                    0 <= j < MAIN_OPS ==> (#[trigger] self.main_op_table@[j]).operation
                        == main_operation(j),
                forall|j: int|
                    0 <= j < MATH_OPS ==> (#[trigger] self.math_op_table@[j]).operation
                        == math_operation(j),
                forall|j: int|
                    0 <= j < LOAD_OPS ==> (#[trigger] load_op_table@[j]).operation
                        == load_operation(j),
                forall|j: int|
                    0 <= j < k ==> (#[trigger] self.load_op_table@[j]).operation
                        == load_operation(j),
            decreases LOAD_OPS - k,
        {
            if self.load_op_table[k].operation != load_op_table[k].operation {
                return false;
            }
            k += 1;
        }
        true
    }
}

impl Instruction {
    /// Extract the register from the opcode when the instruction has the form _R__
    pub(crate) fn register_from_data(data: u16) -> (register: u8)
        ensures
            register == register_x(data),
    {
        assert((data & 0x0F00) >> 8 == (data / 256) % 16) by (bit_vector);
        ((data & REGISTER_MASK) >> 8) as u8
    }

    /// Extract the register from the opcode when the register has the form __R_
    pub(crate) fn register_two_from_data(data: u16) -> (register: u8)
        ensures
            register == register_y(data),
    {
        assert((data & 0x00F0) >> 4 == (data / 16) % 16) by (bit_vector);
        ((data & REGISTER_TWO_MASK) >> 4) as u8
    }

    /// Extract the immediate from the opcode when the instruction has the form __II
    pub(crate) fn immediate_from_data(data: u16) -> (imm: u8)
        ensures
            imm == immediate(data),
    {
        assert(data & 0x00FF == data % 256) by (bit_vector);
        (data & DATA_MASK) as u8
    }

    /// Extract both the register and immediate for instructions in the form _RII
    pub(crate) fn register_and_immediate_from_data(data: u16) -> (fields: (usize, u8))
        ensures
            fields.0 == register_x(data),
            fields.1 == immediate(data),
    {
        (Self::register_from_data(data) as usize, Self::immediate_from_data(data))
    }

    /// Extract two registers from and opcode in the form _RV_
    pub(crate) fn two_registers_from_data(data: u16) -> (fields: (usize, usize))
        ensures
            fields.0 == register_x(data),
            fields.1 == register_y(data),
    {
        (Self::register_from_data(data) as usize, Self::register_two_from_data(data) as usize)
    }

    /// The load, store and timer table: one entry for each low byte up to 0x65,
    /// most of which stand for no operation
    pub fn load_op_table() -> (table: [Self; LOAD_OPS])
        ensures
            forall|k: int|
                0 <= k < LOAD_OPS ==> (#[trigger] table@[k]).operation == load_operation(k)
                    && table@[k].desc@ == load_desc(k),
    {
        let mut load_op_table: [Self; LOAD_OPS] = [Self {
            desc: "invalid",
            operation: Operation::InvalidOp,
        }; LOAD_OPS];

        load_op_table[0x07] = Self { desc: "mv Vx, delay", operation: Operation::GetDelay };

        load_op_table[0x0A] = Self { desc: "mv Vx, key", operation: Operation::WaitForKey };

        load_op_table[0x15] = Self { desc: "mv delay, Vx", operation: Operation::SetDelay };

        load_op_table[0x18] = Self { desc: "mv sound, Vx", operation: Operation::SetSound };

        load_op_table[0x1E] = Self { desc: "add I, Vx", operation: Operation::AddVxI };

        load_op_table[0x29] = Self {
            desc: "mv I, sprite_addr[Vx]",
            operation: Operation::SetISpriteAddr,
        };

        load_op_table[0x33] = Self { desc: "mv I, bcd Vx", operation: Operation::BcdVx };

        load_op_table[0x55] = Self { desc: "reg_dump", operation: Operation::RegDump };

        load_op_table[0x65] = Self { desc: "reg_load", operation: Operation::RegLoad };

        load_op_table
    }

    /// The arithmetic and logic table: one entry for each last nibble up to 8
    pub fn math_op_table() -> (table: [Self; MATH_OPS])
        ensures
            forall|k: int|
                0 <= k < MATH_OPS ==> (#[trigger] table@[k]).operation == math_operation(k)
                    && table@[k].desc@ == math_desc(k),
    {
        let mv = Self { desc: "mv X Y", operation: Operation::MvRegister };

        let or = Self { desc: "or X Y", operation: Operation::OrRegister };

        let and = Self { desc: "and X Y", operation: Operation::AndRegister };

        let xor = Self { desc: "xor X Y", operation: Operation::XorRegister };

        let add = Self { desc: "add X Y", operation: Operation::AddRegister };

        let sub = Self { desc: "sub X Y", operation: Operation::SubRegister };

        let shr = Self { desc: "shr X Y", operation: Operation::ShrRegister };

        let rsub = Self { desc: "rsub X Y", operation: Operation::RevSubRegister };

        let shl = Self { desc: "shl X Y", operation: Operation::ShlRegister };

        [mv, or, and, xor, add, sub, shr, rsub, shl]
    }

    /// The primary table: one entry for each top nibble
    pub fn main_op_table() -> (table: [Self; MAIN_OPS])
        ensures
            forall|k: int|
                0 <= k < MAIN_OPS ==> (#[trigger] table@[k]).operation == main_operation(k)
                    && table@[k].desc@ == main_desc(k),
    {
        let mcall_instruction = Self { desc: "call XXX", operation: Operation::McallDisplayOrFlow };

        let goto_instruction = Self { desc: "goto NNN", operation: Operation::Goto };

        let call_instruction = Self { desc: "call NNN", operation: Operation::Call };

        let reg_eq = Self { desc: "eq vX II", operation: Operation::RegEqual };

        let reg_neq = Self { desc: "neq vX II", operation: Operation::RegNotEqual };

        let two_reg_eq = Self { desc: "eq Vx Vy", operation: Operation::TwoRegEqual };

        let load_immediate = Self { desc: "ld Vx II", operation: Operation::LoadImmediate };

        let add_immediate = Self { desc: "add Vx II", operation: Operation::AddImmediate };

        let math_or_bitop = Self { desc: "math or bitop", operation: Operation::MathOrBitop };

        let two_reg_not_equal = Self {
            desc: "neq Vx Vy",
            operation: Operation::TwoRegistersNotEqual,
        };

        let set_i = Self { desc: "ld I, NNN", operation: Operation::SetI };

        let jump_imm_plus_register = Self {
            desc: "jmp III + Vx",
            operation: Operation::JumpImmediatePlusRegister,
        };

        let masked_random = Self { desc: "rand Vx & II", operation: Operation::MaskedRandom };

        let draw_sprite = Self { desc: "draw_sprite", operation: Operation::DrawSprite };

        let key_op = Self { desc: "key", operation: Operation::KeyOp };

        let load_or_store = Self { desc: "load or store", operation: Operation::LoadOrStore };

        [
            mcall_instruction,
            goto_instruction,
            call_instruction,
            reg_eq,
            reg_neq,
            two_reg_eq,
            load_immediate,
            add_immediate,
            math_or_bitop,
            two_reg_not_equal,
            set_i,
            jump_imm_plus_register,
            masked_random,
            draw_sprite,
            key_op,
            load_or_store,
        ]
    }
}

} // verus!

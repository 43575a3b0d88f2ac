//! A short readable rendering of each instruction, for diagnostics.

use crate::instruction::{
    immediate, nibble, register_x, register_y, Instruction, OpTables, Operation,
};
use crate::semantics::resolve;
use vstd::prelude::*;

verus! {

/// The numeral of a single digit below 16
pub open spec fn digit(d: int) -> Seq<char> {
    "0123456789abcdef"@.subrange(d, d + 1)
}

/// The decimal numeral of `n`
pub open spec fn decimal(n: int) -> Seq<char>
    decreases n,
{
    if n < 10 {
        digit(n)
    } else {
        decimal(n / 10) + digit(n % 10)
    }
}

/// The hexadecimal numeral of `n`, in lower case
pub open spec fn hexadecimal(n: int) -> Seq<char>
    decreases n,
{
    if n < 16 {
        digit(n)
    } else {
        hexadecimal(n / 16) + digit(n % 16)
    }
}

/// `label` followed by the first register of the opcode, in decimal
pub open spec fn with_register(label: Seq<char>, data: u16) -> Seq<char> {
    label + decimal(register_x(data))
}

/// `label`, the first register of the opcode and its immediate, both in decimal
pub open spec fn with_register_and_immediate(label: Seq<char>, data: u16) -> Seq<char> {
    label + decimal(register_x(data)) + " "@ + decimal(immediate(data) as int)
}

/// `label` and the two registers of the opcode, in decimal
pub open spec fn with_two_registers(label: Seq<char>, data: u16) -> Seq<char> {
    label + decimal(register_x(data)) + " v"@ + decimal(register_y(data))
}

/// `label` and the two registers of the opcode, in hexadecimal
pub open spec fn with_two_hex_registers(label: Seq<char>, data: u16) -> Seq<char> {
    label + hexadecimal(register_x(data)) + " v"@ + hexadecimal(register_y(data))
}

/// The rendering of an operation with the operands `data`
pub open spec fn mnemonic(operation: Operation, data: u16) -> Seq<char> {
    match operation {
        Operation::McallDisplayOrFlow => if data == 0xE0 {
            "clear_display"@
        } else if data == 0xEE {
            "return"@
        } else {
            "mcall "@ + hexadecimal(data as int)
        },
        Operation::Goto => "goto "@ + hexadecimal(data as int),
        Operation::Call => "call "@ + hexadecimal(data as int),
        Operation::RegEqual => with_register_and_immediate("eq v"@, data),
        Operation::RegNotEqual => with_register_and_immediate("neq v"@, data),
        Operation::TwoRegEqual => with_two_registers("eq v"@, data),
        Operation::LoadImmediate => with_register_and_immediate("ld v"@, data),
        Operation::AddImmediate => with_register_and_immediate("add v"@, data),
        Operation::TwoRegistersNotEqual => with_two_registers("neq v"@, data),
        Operation::SetI => "ld i "@ + hexadecimal(data as int),
        Operation::JumpImmediatePlusRegister => "jump v0 + "@ + decimal(data as int),
        Operation::MaskedRandom => with_register_and_immediate("rand v"@, data),
        Operation::DrawSprite => with_two_registers("draw v"@, data) + " "@ + decimal(
            nibble(data),
        ),
        Operation::KeyOp => "key"@,
        Operation::MvRegister => with_two_hex_registers("mv v"@, data),
        Operation::OrRegister => with_two_hex_registers("or v"@, data),
        Operation::AndRegister => with_two_hex_registers("and v"@, data),
        Operation::XorRegister => with_two_hex_registers("xor v"@, data),
        Operation::AddRegister => with_two_hex_registers("add v"@, data),
        Operation::SubRegister => with_two_hex_registers("sub v"@, data),
        Operation::ShrRegister => "shr v"@ + hexadecimal(register_x(data)),
        Operation::RevSubRegister => with_two_hex_registers("rsub v"@, data),
        Operation::ShlRegister => "shl v"@ + hexadecimal(register_x(data)),
        Operation::GetDelay => with_register("V"@, data) + " = get_delay()"@,
        Operation::WaitForKey => with_register("V"@, data) + " = wait_key ()"@,
        Operation::SetDelay => with_register("mv delay, V"@, data),
        Operation::SetSound => with_register("mv sound, V"@, data),
        Operation::AddVxI => with_register("add I, V"@, data),
        Operation::SetISpriteAddr => with_register("mv I, sprite_addr(V"@, data) + ")"@,
        Operation::BcdVx => with_register("bcd v"@, data),
        Operation::RegDump => with_register("reg_dump v0, v"@, data),
        Operation::RegLoad => with_register("reg_load v0, v"@, data),
        Operation::MathOrBitop | Operation::LoadOrStore | Operation::InvalidOp => "invalid"@,
    }
}

/// The numeral of a single digit below 16
fn digit_str(d: u16) -> (s: &'static str)
    requires
        d < 16,
    ensures
        s@ == digit(d as int),
{
    proof {
        reveal_strlit("0123456789abcdef");
    }
    "0123456789abcdef".substring_char(d as usize, d as usize + 1)
}

/// The decimal numeral of `n`
pub fn format_decimal(n: u16) -> (s: String)
    ensures
        s@ == decimal(n as int),
    decreases n,
{
    if n < 10 {
        String::from_str(digit_str(n))
    } else {
        format_decimal(n / 10).concat(digit_str(n % 10))
    }
}

/// The hexadecimal numeral of `n`, in lower case
pub fn format_hexadecimal(n: u16) -> (s: String)
    ensures
        s@ == hexadecimal(n as int),
    decreases n,
{
    if n < 16 {
        String::from_str(digit_str(n))
    } else {
        format_hexadecimal(n / 16).concat(digit_str(n % 16))
    }
}

impl Instruction {
    fn label_and_number(label: &str, number: String) -> (s: String)
        ensures
            s@ == label@ + number@,
    {
        String::from_str(label).concat(number.as_str())
    }

    fn register_to_string(label: &str, data: u16) -> (s: String)
        ensures
            s@ == with_register(label@, data),
    {
        let register = Self::register_from_data(data);
        Self::label_and_number(label, format_decimal(register as u16))
    }

    fn register_and_immediate_to_string(label: &str, data: u16) -> (s: String)
        ensures
            s@ == with_register_and_immediate(label@, data),
    {
        let (register, data) = Self::register_and_immediate_from_data(data);
        let mut s = Self::label_and_number(label, format_decimal(register as u16));
        s.append(" ");
        s.append(format_decimal(data as u16).as_str());
        s
    }

    fn two_registers_to_string(label: &str, data: u16) -> (s: String)
        ensures
            s@ == with_two_registers(label@, data),
    {
        let (register1, register2) = Self::two_registers_from_data(data);
        let mut s = Self::label_and_number(label, format_decimal(register1 as u16));
        s.append(" v");
        s.append(format_decimal(register2 as u16).as_str());
        s
    }

    fn two_hex_registers_to_string(label: &str, data: u16) -> (s: String)
        ensures
            s@ == with_two_hex_registers(label@, data),
    {
        let (register1, register2) = Self::two_registers_from_data(data);
        let mut s = Self::label_and_number(label, format_hexadecimal(register1 as u16));
        s.append(" v");
        s.append(format_hexadecimal(register2 as u16).as_str());
        s
    }

    fn mcall_display_or_flow_to_string(data: u16) -> (s: String)
        ensures
            s@ == mnemonic(Operation::McallDisplayOrFlow, data),
    {
        if data == 0xE0 {
            String::from_str("clear_display")
        } else if data == 0xEE {
            String::from_str("return")
        } else {
            Self::label_and_number("mcall ", format_hexadecimal(data))
        }
    }

    fn draw_sprite_to_string(data: u16) -> (s: String)
        ensures
            s@ == mnemonic(Operation::DrawSprite, data),
    {
        let imm = data & 0x000F;
        assert(data & 0x000F == data % 16) by (bit_vector);
        let mut s = Self::two_registers_to_string("draw v", data);
        s.append(" ");
        s.append(format_decimal(imm).as_str());
        s
    }

    /// Granular description of the opcode that requires the opcode data (not just the first
    /// nibble)
    pub fn to_string(&self, data: u16, op_tables: &OpTables) -> (s: String)
        requires
            op_tables.wf(),
        ensures
            s@ == mnemonic(resolve(self.operation, data), data),
    {
        match self.resolve(data, op_tables) {
            Operation::McallDisplayOrFlow => Self::mcall_display_or_flow_to_string(data),
            Operation::Goto => Self::label_and_number("goto ", format_hexadecimal(data)),
            Operation::Call => Self::label_and_number("call ", format_hexadecimal(data)),
            Operation::RegEqual => Self::register_and_immediate_to_string("eq v", data),
            Operation::RegNotEqual => Self::register_and_immediate_to_string("neq v", data),
            Operation::TwoRegEqual => Self::two_registers_to_string("eq v", data),
            Operation::LoadImmediate => Self::register_and_immediate_to_string("ld v", data),
            Operation::AddImmediate => Self::register_and_immediate_to_string("add v", data),
            Operation::TwoRegistersNotEqual => Self::two_registers_to_string("neq v", data),
            Operation::SetI => Self::label_and_number("ld i ", format_hexadecimal(data)),
            Operation::JumpImmediatePlusRegister => Self::label_and_number(
                "jump v0 + ",
                format_decimal(data),
            ),
            Operation::MaskedRandom => Self::register_and_immediate_to_string("rand v", data),
            Operation::DrawSprite => Self::draw_sprite_to_string(data),
            Operation::KeyOp => String::from_str("key"),
            Operation::MvRegister => Self::two_hex_registers_to_string("mv v", data),
            Operation::OrRegister => Self::two_hex_registers_to_string("or v", data),
            Operation::AndRegister => Self::two_hex_registers_to_string("and v", data),
            Operation::XorRegister => Self::two_hex_registers_to_string("xor v", data),
            Operation::AddRegister => Self::two_hex_registers_to_string("add v", data),
            Operation::SubRegister => Self::two_hex_registers_to_string("sub v", data),
            Operation::ShrRegister => Self::label_and_number(
                "shr v",
                format_hexadecimal(Self::register_from_data(data) as u16),
            ),
            Operation::RevSubRegister => Self::two_hex_registers_to_string("rsub v", data),
            Operation::ShlRegister => Self::label_and_number(
                "shl v",
                format_hexadecimal(Self::register_from_data(data) as u16),
            ),
            Operation::GetDelay => Self::register_to_string("V", data).concat(" = get_delay()"),
            Operation::WaitForKey => Self::register_to_string("V", data).concat(" = wait_key ()"),
            Operation::SetDelay => Self::register_to_string("mv delay, V", data),
            Operation::SetSound => Self::register_to_string("mv sound, V", data),
            Operation::AddVxI => Self::register_to_string("add I, V", data),
            Operation::SetISpriteAddr => Self::register_to_string(
                "mv I, sprite_addr(V",
                data,
            ).concat(")"),
            Operation::BcdVx => Self::register_to_string("bcd v", data),
            Operation::RegDump => Self::register_to_string("reg_dump v0, v", data),
            Operation::RegLoad => Self::register_to_string("reg_load v0, v", data),
            Operation::MathOrBitop | Operation::LoadOrStore | Operation::InvalidOp => {
                String::from_str("invalid")
            },
        }
    }
}

} // verus!

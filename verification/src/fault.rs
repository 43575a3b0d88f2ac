use vstd::prelude::*;

verus! {

/// Why an instruction could not be executed
#[derive(Clone, Copy, PartialEq, Eq, Structural, Debug)]
pub enum FaultKind {
    /// The program counter does not address two readable bytes
    FetchOutOfRange,
    /// A machine-code call: selector 0 with a payload other than 0xE0 and 0xEE
    UnsupportedMachineCall,
    /// A selector or sub-selector that stands for no operation
    InvalidOpcode,
    /// A return with no return address on the stack
    StackUnderflow,
    /// A call with no room left on the stack
    StackOverflow,
    /// An operand address outside what the instruction may read or write
    AddressOutOfRange,
}

/// A fatal condition: what failed, and at which instruction
#[derive(Clone, Copy, PartialEq, Eq, Structural, Debug)]
pub struct Fault {
    pub kind: FaultKind,
    /// Address of the instruction that failed
    pub pc: u16,
    /// The instruction word at that address; 0 where it could not be fetched
    pub opcode: u16,
}

} // verus!

use vstd::prelude::*;

verus! {

/// Why an instruction could not be carried out.
#[derive(Clone, Copy, Debug, PartialEq, Eq, Structural)]
pub enum Trap {
    /// The operand stack holds fewer values than the instruction takes.
    StackUnderflow,
    /// An operand does not have the tag that the instruction asks for.
    TypeMismatch,
    /// An integer was divided by zero.
    DivideByZero,
    /// The result of a signed division, or a truncated floating-point
    /// value, lies outside the integer type.
    IntegerOverflow,
    /// A NaN was to be converted to an integer.
    InvalidConversionToInteger,
    /// A memory access reaches beyond the last byte of the memory.
    OutOfBoundsMemoryAccess,
    /// The opcode has no handler.
    NoHandler,
    /// The argument of an instruction is not the one its handler takes.
    InvalidArgument,
}

impl Trap {
    /// The text that describes the trap.
    pub open spec fn text(self) -> Seq<char> {
        match self {
            Trap::StackUnderflow => "operand stack underflow"@,
            Trap::TypeMismatch => "operand type mismatch"@,
            Trap::DivideByZero => "integer divide by zero"@,
            Trap::IntegerOverflow => "integer overflow"@,
            Trap::InvalidConversionToInteger => "invalid conversion to integer"@,
            Trap::OutOfBoundsMemoryAccess => "out of bounds memory access"@,
            Trap::NoHandler => "no handler for opcode"@,
            Trap::InvalidArgument => "invalid instruction argument"@,
        }
    }

    /// A description of the trap for a reader.
    pub fn message(&self) -> (r: String)
        ensures
            r@ == self.text(),
    {
        let text = match self {
            Trap::StackUnderflow => "operand stack underflow",
            Trap::TypeMismatch => "operand type mismatch",
            Trap::DivideByZero => "integer divide by zero",
            Trap::IntegerOverflow => "integer overflow",
            Trap::InvalidConversionToInteger => "invalid conversion to integer",
            Trap::OutOfBoundsMemoryAccess => "out of bounds memory access",
            Trap::NoHandler => "no handler for opcode",
            Trap::InvalidArgument => "invalid instruction argument",
        };
        text.to_string()
    }
}

} // verus!

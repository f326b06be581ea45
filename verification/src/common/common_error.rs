use vstd::prelude::*;

verus! {

/// Why a byte buffer is not a well-formed module.
#[derive(Clone, Copy, Debug, PartialEq, Eq, Structural)]
pub enum CommonError {
    /// A variable-length integer runs on past the last byte its width allows.
    Leb128Error,
    /// The input ends before the value being read is complete.
    UnexpectedEnd,
    /// A name is not UTF-8.
    InvalidUtf8,
    /// A section id is larger than that of the data section.
    InvalidSectionId,
    /// A section comes after one with the same or a larger id.
    SectionOrder,
    /// A section did not take exactly the bytes that its header declared.
    SectionSizeMismatch,
    /// A function type does not start with the function-type tag.
    InvalidFuncTypeTag,
    /// An import description has a tag that names no kind of import.
    InvalidImportTag,
    /// An export description has a tag that names no kind of export.
    InvalidExportTag,
    /// A table holds something other than function references.
    InvalidElemType,
    /// A mutability flag is neither 0 nor 1.
    InvalidMutability,
    /// A byte that should name a value type names none.
    InvalidValueType,
    /// A block type is negative and none of the inline result types.
    InvalidBlockType,
    /// A function declares 2^32 - 1 local variables or more.
    TooManyLocals,
    /// An opcode byte is not part of the instruction set.
    UnknownOpcode,
    /// The input ends inside an instruction sequence.
    UnterminatedExpr,
    /// An instruction sequence ends with `else` where only `end` may stand.
    InvalidTerminator,
    /// A reserved byte is not zero.
    ZeroFlagExpected,
    /// Blocks are nested deeper than the decoder follows them.
    NestingTooDeep,
}

impl CommonError {
    /// The text that describes the error.
    pub open spec fn text(self) -> Seq<char> {
        match self {
            CommonError::Leb128Error => "malformed variable-length integer"@,
            CommonError::UnexpectedEnd => "unexpected end of input"@,
            CommonError::InvalidUtf8 => "name is not UTF-8"@,
            CommonError::InvalidSectionId => "section id out of range"@,
            CommonError::SectionOrder => "section out of order"@,
            CommonError::SectionSizeMismatch => "section size mismatch"@,
            CommonError::InvalidFuncTypeTag => "invalid function type tag"@,
            CommonError::InvalidImportTag => "invalid import tag"@,
            CommonError::InvalidExportTag => "invalid export tag"@,
            CommonError::InvalidElemType => "invalid element type"@,
            CommonError::InvalidMutability => "malformed mutability"@,
            CommonError::InvalidValueType => "malformed value type"@,
            CommonError::InvalidBlockType => "malformed block type"@,
            CommonError::TooManyLocals => "too many locals"@,
            CommonError::UnknownOpcode => "unknown opcode"@,
            CommonError::UnterminatedExpr => "unterminated instruction sequence"@,
            CommonError::InvalidTerminator => "invalid end of expression"@,
            CommonError::ZeroFlagExpected => "zero flag expected"@,
            CommonError::NestingTooDeep => "blocks nested too deep"@,
        }
    }

    /// A description of the error for a reader.
    pub fn message(&self) -> (r: String)
        ensures
            r@ == self.text(),
    {
        let text = match self {
            CommonError::Leb128Error => "malformed variable-length integer",
            CommonError::UnexpectedEnd => "unexpected end of input",
            CommonError::InvalidUtf8 => "name is not UTF-8",
            CommonError::InvalidSectionId => "section id out of range",
            CommonError::SectionOrder => "section out of order",
            CommonError::SectionSizeMismatch => "section size mismatch",
            CommonError::InvalidFuncTypeTag => "invalid function type tag",
            CommonError::InvalidImportTag => "invalid import tag",
            CommonError::InvalidExportTag => "invalid export tag",
            CommonError::InvalidElemType => "invalid element type",
            CommonError::InvalidMutability => "malformed mutability",
            CommonError::InvalidValueType => "malformed value type",
            CommonError::InvalidBlockType => "malformed block type",
            CommonError::TooManyLocals => "too many locals",
            CommonError::UnknownOpcode => "unknown opcode",
            CommonError::UnterminatedExpr => "unterminated instruction sequence",
            CommonError::InvalidTerminator => "invalid end of expression",
            CommonError::ZeroFlagExpected => "zero flag expected",
            CommonError::NestingTooDeep => "blocks nested too deep",
        };
        text.to_string()
    }
}

} // verus!

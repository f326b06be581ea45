//! The binary format: the data model of a module, the format as functions
//! of the bytes, and the decoder.

use vstd::prelude::*;

pub mod opcodes;
pub mod instruction;
pub mod module;
pub mod leb128;
pub mod format;
pub mod reader;

verus! {

/// The table of the mnemonics of the opcodes, which messages are made with.
pub fn init() -> (table: Vec<Option<&'static str>>)
    ensures
        opcodes::is_name_table(table@),
{
    opcodes::init()
}

} // verus!

//! A decoder for the binary module format of a stack machine, and the
//! numeric core of an interpreter for it: a typed operand stack, a paged
//! linear memory and the per-opcode semantics, each with a proved contract.

pub mod common;
pub mod binary;
pub mod interpreter;

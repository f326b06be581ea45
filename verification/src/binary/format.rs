//! The binary format, stated as functions of the bytes.
//!
//! Each `parse_*` function says what stands at a position of a byte
//! sequence and how many bytes it takes, or why nothing of that kind stands
//! there.

use vstd::prelude::*;
use vstd::utf8::{decode_utf8, valid_utf8};
use crate::binary::{module, opcodes};
use crate::binary::instruction::{ArgsView, InstructionView, MemArg};
use crate::binary::leb128::{decode_var_int_spec, decode_var_uint_spec};
use crate::binary::module::{
    CodeView, CustomSecsView, DataView, ElemView, ExportDesc, ExportView, FuncTypeView,
    GlobalSecView, GlobalType, ImportDesc, ImportView, Limits, Locals, ModuleView, TableType,
};
use crate::common::common_error::CommonError;

verus! {

/// How deep blocks may be nested inside one another.
pub const MAX_NESTING_DEPTH: usize = 128;

/// What a decoder finds at a position: a value and the number of bytes that
/// it takes, or the reason why no value stands there.
pub type Parsed<T> = Result<(T, nat), CommonError>;

/// The number that four bytes spell, the first being the least significant.
pub open spec fn le_u32(b: Seq<u8>) -> u32 {
    (b[0] as int + b[1] as int * 0x100 + b[2] as int * 0x1_0000 + b[3] as int * 0x100_0000) as u32
}

/// The number that eight bytes spell, the first being the least significant.
pub open spec fn le_u64(b: Seq<u8>) -> u64 {
    (le_u32(b) as int + le_u32(b.skip(4)) as int * 0x1_0000_0000) as u64
}

/// One byte.
pub open spec fn parse_byte(data: Seq<u8>, pos: nat) -> Parsed<u8> {
    if pos < data.len() {
        Ok((data[pos as int], 1))
    } else {
        Err(CommonError::UnexpectedEnd)
    }
}

/// Four bytes, read as a little-endian number.
pub open spec fn parse_u32(data: Seq<u8>, pos: nat) -> Parsed<u32> {
    if pos + 4 <= data.len() {
        Ok((le_u32(data.subrange(pos as int, pos + 4 as int)), 4))
    } else {
        Err(CommonError::UnexpectedEnd)
    }
}

/// Eight bytes, read as a little-endian number.
pub open spec fn parse_u64(data: Seq<u8>, pos: nat) -> Parsed<u64> {
    if pos + 8 <= data.len() {
        Ok((le_u64(data.subrange(pos as int, pos + 8 as int)), 8))
    } else {
        Err(CommonError::UnexpectedEnd)
    }
}

/// A variable-length unsigned number of at most five bytes, of which the
/// low 32 bits count.
pub open spec fn parse_var_u32(data: Seq<u8>, pos: nat) -> Parsed<u32> {
    match decode_var_uint_spec(data.skip(pos as int), 32) {
        Ok((v, n)) => Ok(((v % 0x1_0000_0000) as u32, n)),
        Err(e) => Err(e),
    }
}

/// The 32-bit two's-complement number with the low 32 bits of `v`.
pub open spec fn low_i32(v: i64) -> i32 {
    if v % 0x1_0000_0000 >= 0x8000_0000 {
        (v % 0x1_0000_0000 - 0x1_0000_0000) as i32
    } else {
        (v % 0x1_0000_0000) as i32
    }
}

/// A variable-length signed number of at most five bytes, of which the low
/// 32 bits count.
pub open spec fn parse_var_s32(data: Seq<u8>, pos: nat) -> Parsed<i32> {
    match decode_var_int_spec(data.skip(pos as int), 32) {
        Ok((v, n)) => Ok((low_i32(v), n)),
        Err(e) => Err(e),
    }
}

/// A variable-length signed number of at most ten bytes.
pub open spec fn parse_var_s64(data: Seq<u8>, pos: nat) -> Parsed<i64> {
    decode_var_int_spec(data.skip(pos as int), 64)
}

/// A byte vector: its length, then the bytes.
pub open spec fn parse_bytes(data: Seq<u8>, pos: nat) -> Parsed<Seq<u8>> {
    match parse_var_u32(data, pos) {
        Err(e) => Err(e),
        Ok((len, n)) => if pos + n + len <= data.len() {
            Ok((data.subrange((pos + n) as int, pos + n + len), n + len as nat))
        } else {
            Err(CommonError::UnexpectedEnd)
        },
    }
}

/// A name: a byte vector that is UTF-8.
pub open spec fn parse_name(data: Seq<u8>, pos: nat) -> Parsed<Seq<char>> {
    match parse_bytes(data, pos) {
        Err(e) => Err(e),
        Ok((bytes, n)) => if valid_utf8(bytes) {
            Ok((decode_utf8(bytes), n))
        } else {
            Err(CommonError::InvalidUtf8)
        },
    }
}

/// `count` items, one behind the other.
pub open spec fn parse_many<T>(
    item: spec_fn(Seq<u8>, nat) -> Parsed<T>,
    data: Seq<u8>,
    pos: nat,
    count: nat,
) -> Parsed<Seq<T>>
    decreases count,
{
    if count == 0 {
        Ok((Seq::empty(), 0))
    } else {
        match item(data, pos) {
            Err(e) => Err(e),
            Ok((x, n)) => match parse_many(item, data, pos + n, (count - 1) as nat) {
                Err(e) => Err(e),
                Ok((xs, m)) => Ok((seq![x] + xs, n + m)),
            },
        }
    }
}

/// A vector: the number of its items, then the items.
pub open spec fn parse_vec<T>(
    item: spec_fn(Seq<u8>, nat) -> Parsed<T>,
    data: Seq<u8>,
    pos: nat,
) -> Parsed<Seq<T>> {
    match parse_var_u32(data, pos) {
        Err(e) => Err(e),
        Ok((count, n)) => match parse_many(item, data, pos + n, count as nat) {
            Err(e) => Err(e),
            Ok((xs, m)) => Ok((xs, n + m)),
        },
    }
}

/// What was found so far, followed by what is found from here on.
pub open spec fn after<T>(done: Seq<T>, used: nat, rest: Parsed<Seq<T>>) -> Parsed<Seq<T>> {
    match rest {
        Ok((xs, m)) => Ok((done + xs, used + m)),
        Err(e) => Err(e),
    }
}

/// One more item read: `parse_many` from the start is what was read,
/// followed by `parse_many` of the items that are left.
pub proof fn lemma_parse_many_step<T>(
    item: spec_fn(Seq<u8>, nat) -> Parsed<T>,
    data: Seq<u8>,
    pos: nat,
    left: nat,
    done: Seq<T>,
    used: nat,
)
    requires
        left > 0,
    ensures
        match item(data, pos) {
            Ok((x, n)) => after(done, used, parse_many(item, data, pos, left)) == after(
                done.push(x),
                used + n,
                parse_many(item, data, pos + n, (left - 1) as nat),
            ),
            Err(e) => after(done, used, parse_many(item, data, pos, left)) == Err::<
                (Seq<T>, nat),
                CommonError,
            >(e),
        },
{
    match item(data, pos) {
        Ok((x, n)) => {
            match parse_many(item, data, pos + n, (left - 1) as nat) {
                Ok((xs, m)) => {
                    assert(done + (seq![x] + xs) =~= done.push(x) + xs);
                },
                Err(_) => {},
            }
        },
        Err(_) => {},
    }
}

/// Nothing left to read: what was read is the result.
pub proof fn lemma_parse_many_done<T>(
    item: spec_fn(Seq<u8>, nat) -> Parsed<T>,
    data: Seq<u8>,
    pos: nat,
    done: Seq<T>,
    used: nat,
)
    ensures
        after(done, used, parse_many(item, data, pos, 0)) == Ok::<(Seq<T>, nat), CommonError>(
            (done, used),
        ),
{
    assert(done + Seq::<T>::empty() =~= done);
}

/// Whether `b` names a value type.
pub open spec fn is_val_type(b: u8) -> bool {
    b == module::VAL_TYPE_I32 || b == module::VAL_TYPE_I64 || b == module::VAL_TYPE_F32 || b == module::VAL_TYPE_F64
}

/// A byte that names a value type.
pub open spec fn parse_val_type(data: Seq<u8>, pos: nat) -> Parsed<u8> {
    match parse_byte(data, pos) {
        Err(e) => Err(e),
        Ok((b, n)) => if is_val_type(b) {
            Ok((b, n))
        } else {
            Err(CommonError::InvalidValueType)
        },
    }
}

/// `parse_val_type` as the item of a vector.
pub open spec fn val_type_item() -> spec_fn(Seq<u8>, nat) -> Parsed<u8> {
    |data: Seq<u8>, pos: nat| parse_val_type(data, pos)
}

/// A vector of value types.
pub open spec fn parse_val_types(data: Seq<u8>, pos: nat) -> Parsed<Seq<u8>> {
    parse_vec(val_type_item(), data, pos)
}

/// `parse_var_u32` as the item of a vector.
pub open spec fn index_item() -> spec_fn(Seq<u8>, nat) -> Parsed<u32> {
    |data: Seq<u8>, pos: nat| parse_var_u32(data, pos)
}

/// A vector of indices.
pub open spec fn parse_indices(data: Seq<u8>, pos: nat) -> Parsed<Seq<u32>> {
    parse_vec(index_item(), data, pos)
}

/// Limits: a tag, the minimum, and the maximum where the tag is 1.
pub open spec fn parse_limits(data: Seq<u8>, pos: nat) -> Parsed<Limits> {
    match parse_byte(data, pos) {
        Err(e) => Err(e),
        Ok((tag, n0)) => match parse_var_u32(data, pos + n0) {
            Err(e) => Err(e),
            Ok((min, n1)) => if tag == 1 {
                match parse_var_u32(data, pos + n0 + n1) {
                    Err(e) => Err(e),
                    Ok((max, n2)) => Ok((Limits { tag, min, max: Some(max) }, n0 + n1 + n2)),
                }
            } else {
                Ok((Limits { tag, min, max: None }, n0 + n1))
            },
        },
    }
}

/// A table type: the element type, which is a function reference, and limits.
pub open spec fn parse_table_type(data: Seq<u8>, pos: nat) -> Parsed<TableType> {
    match parse_byte(data, pos) {
        Err(e) => Err(e),
        Ok((elem_type, n0)) => if elem_type != module::FUNC_REF {
            Err(CommonError::InvalidElemType)
        } else {
            match parse_limits(data, pos + n0) {
                Err(e) => Err(e),
                Ok((limits, n1)) => Ok((TableType { elem_type, limits }, n0 + n1)),
            }
        },
    }
}

/// A global type: a value type and a mutability flag.
pub open spec fn parse_global_type(data: Seq<u8>, pos: nat) -> Parsed<GlobalType> {
    match parse_val_type(data, pos) {
        Err(e) => Err(e),
        Ok((val_type, n0)) => match parse_byte(data, pos + n0) {
            Err(e) => Err(e),
            Ok((m, n1)) => if m == module::MUT_CONST || m == module::MUT_VAR {
                Ok((GlobalType { val_type, m }, n0 + n1))
            } else {
                Err(CommonError::InvalidMutability)
            },
        },
    }
}

/// A function type: the tag, the parameter types and the result types.
#[verifier::opaque]
pub open spec fn parse_func_type(data: Seq<u8>, pos: nat) -> Parsed<FuncTypeView> {
    match parse_byte(data, pos) {
        Err(e) => Err(e),
        Ok((tag, n0)) => if tag != module::FT_TAG {
            Err(CommonError::InvalidFuncTypeTag)
        } else {
            match parse_val_types(data, pos + n0) {
                Err(e) => Err(e),
                Ok((param_types, n1)) => match parse_val_types(data, pos + n0 + n1) {
                    Err(e) => Err(e),
                    Ok((result_types, n2)) => Ok(
                        (FuncTypeView { tag, param_types, result_types }, n0 + n1 + n2),
                    ),
                },
            }
        },
    }
}


/// Whether `bt` is one of the negative numbers that stand for the result
/// type of a block.
pub open spec fn is_inline_block_type(bt: i32) -> bool {
    bt == module::BLOCK_TYPE_I32 || bt == module::BLOCK_TYPE_I64 || bt == module::BLOCK_TYPE_F32 || bt
        == module::BLOCK_TYPE_F64 || bt == module::BLOCK_TYPE_EMPTY
}

/// A block type: a type index, or one of the negative numbers that stand
/// for an inline result type.
pub open spec fn parse_block_type(data: Seq<u8>, pos: nat) -> Parsed<i32> {
    match parse_var_s32(data, pos) {
        Err(e) => Err(e),
        Ok((bt, n)) => if bt >= 0 || is_inline_block_type(bt) {
            Ok((bt, n))
        } else {
            Err(CommonError::InvalidBlockType)
        },
    }
}

/// A reserved byte, which is zero.
pub open spec fn parse_zero(data: Seq<u8>, pos: nat) -> Parsed<u8> {
    match parse_byte(data, pos) {
        Err(e) => Err(e),
        Ok((b, n)) => if b == 0 {
            Ok((0u8, n))
        } else {
            Err(CommonError::ZeroFlagExpected)
        },
    }
}

/// The argument of a load or a store: alignment, then offset.
pub open spec fn parse_mem_arg(data: Seq<u8>, pos: nat) -> Parsed<MemArg> {
    match parse_var_u32(data, pos) {
        Err(e) => Err(e),
        Ok((align, n0)) => match parse_var_u32(data, pos + n0) {
            Err(e) => Err(e),
            Ok((offset, n1)) => Ok((MemArg { align, offset }, n0 + n1)),
        },
    }
}

/// The argument of `br_table`: the labels, then the default label.
pub open spec fn parse_br_table_args(data: Seq<u8>, pos: nat) -> Parsed<ArgsView> {
    match parse_indices(data, pos) {
        Err(e) => Err(e),
        Ok((labels, n0)) => match parse_var_u32(data, pos + n0) {
            Err(e) => Err(e),
            Ok((default, n1)) => Ok((ArgsView::BrTableArgs { labels, default }, n0 + n1)),
        },
    }
}

/// The argument of `call_indirect`: a type index, then a reserved byte.
pub open spec fn parse_call_indirect_args(data: Seq<u8>, pos: nat) -> Parsed<u32> {
    match parse_var_u32(data, pos) {
        Err(e) => Err(e),
        Ok((idx, n0)) => match parse_zero(data, pos + n0) {
            Err(e) => Err(e),
            Ok((_, n1)) => Ok((idx, n0 + n1)),
        },
    }
}

/// The number of bytes from `pos` to the end.
pub open spec fn remaining_len(data: Seq<u8>, pos: nat) -> nat {
    if pos <= data.len() {
        (data.len() - pos) as nat
    } else {
        0
    }
}

/// Whether `op` ends an instruction sequence.
pub open spec fn is_terminator(op: u8) -> bool {
    op == opcodes::Else_ || op == opcodes::End_
}

/// An instruction sequence inside `depth` enclosing blocks: the
/// instructions up to the first `else` or `end` at their own level, and that
/// opcode.
pub open spec fn parse_instructions(data: Seq<u8>, pos: nat, depth: nat) -> Parsed<
    (Seq<InstructionView>, u8),
>
    decreases MAX_NESTING_DEPTH - depth, remaining_len(data, pos), 2int,
{
    match parse_byte(data, pos) {
        Err(_) => Err(CommonError::UnterminatedExpr),
        Ok((op, _)) => if !opcodes::is_known_opcode(op) {
            Err(CommonError::UnknownOpcode)
        } else if is_terminator(op) {
            Ok(((Seq::empty(), op), 1))
        } else {
            match parse_args(data, pos + 1, op, depth) {
                Err(e) => Err(e),
                Ok((args, n)) => match parse_instructions(data, pos + 1 + n, depth) {
                    Err(e) => Err(e),
                    Ok(((rest, end), m)) => Ok(
                        ((seq![InstructionView { opcode: op, args }] + rest, end), 1 + n + m),
                    ),
                },
            }
        },
    }
}

/// The immediate argument that `opcode` calls for.
pub open spec fn parse_args(data: Seq<u8>, pos: nat, opcode: u8, depth: nat) -> Parsed<
    Option<ArgsView>,
>
    decreases MAX_NESTING_DEPTH - depth, remaining_len(data, pos), 1int,
{
    if opcode == opcodes::Block || opcode == opcodes::Loop {
        match parse_block_args(data, pos, depth) {
            Err(e) => Err(e),
            Ok((a, n)) => Ok((Some(a), n)),
        }
    } else if opcode == opcodes::If {
        match parse_if_args(data, pos, depth) {
            Err(e) => Err(e),
            Ok((a, n)) => Ok((Some(a), n)),
        }
    } else {
        parse_plain_args(data, pos, opcode)
    }
}

/// The argument of an opcode that holds no instructions.
pub open spec fn parse_plain_args(data: Seq<u8>, pos: nat, opcode: u8) -> Parsed<Option<ArgsView>> {
    if opcode == opcodes::Br || opcode == opcodes::BrIf || opcode == opcodes::Call || opcode
        == opcodes::LocalGet || opcode == opcodes::LocalSet || opcode == opcodes::LocalTee || opcode
        == opcodes::GlobalGet || opcode == opcodes::GlobalSet {
        match parse_var_u32(data, pos) {
            Err(e) => Err(e),
            Ok((v, n)) => Ok((Some(ArgsView::U32(v)), n)),
        }
    } else if opcode == opcodes::BrTable {
        match parse_br_table_args(data, pos) {
            Err(e) => Err(e),
            Ok((a, n)) => Ok((Some(a), n)),
        }
    } else if opcode == opcodes::CallIndirect {
        match parse_call_indirect_args(data, pos) {
            Err(e) => Err(e),
            Ok((v, n)) => Ok((Some(ArgsView::U32(v)), n)),
        }
    } else if opcode == opcodes::MemorySize || opcode == opcodes::MemoryGrow {
        match parse_zero(data, pos) {
            Err(e) => Err(e),
            Ok((v, n)) => Ok((Some(ArgsView::U8(v)), n)),
        }
    } else if opcode == opcodes::I32Const {
        match parse_var_s32(data, pos) {
            Err(e) => Err(e),
            Ok((v, n)) => Ok((Some(ArgsView::I32(v)), n)),
        }
    } else if opcode == opcodes::I64Const {
        match parse_var_s64(data, pos) {
            Err(e) => Err(e),
            Ok((v, n)) => Ok((Some(ArgsView::I64(v)), n)),
        }
    } else if opcode == opcodes::F32Const {
        match parse_u32(data, pos) {
            Err(e) => Err(e),
            Ok((v, n)) => Ok((Some(ArgsView::F32(v)), n)),
        }
    } else if opcode == opcodes::F64Const {
        match parse_u64(data, pos) {
            Err(e) => Err(e),
            Ok((v, n)) => Ok((Some(ArgsView::F64(v)), n)),
        }
    } else if opcode == opcodes::TruncSat {
        match parse_byte(data, pos) {
            Err(e) => Err(e),
            Ok((v, n)) => Ok((Some(ArgsView::U8(v)), n)),
        }
    } else if opcodes::is_memory_access(opcode) {
        match parse_mem_arg(data, pos) {
            Err(e) => Err(e),
            Ok((m, n)) => Ok((Some(ArgsView::MemArg(m)), n)),
        }
    } else {
        Ok((None, 0))
    }
}

/// The argument of `block` and `loop`: a block type and a body that `end`
/// closes.
pub open spec fn parse_block_args(data: Seq<u8>, pos: nat, depth: nat) -> Parsed<ArgsView>
    decreases MAX_NESTING_DEPTH - depth, remaining_len(data, pos), 0int,
{
    match parse_block_type(data, pos) {
        Err(e) => Err(e),
        Ok((bt, n0)) => if depth >= MAX_NESTING_DEPTH {
            Err(CommonError::NestingTooDeep)
        } else {
            match parse_instructions(data, pos + n0, depth + 1) {
                Err(e) => Err(e),
                Ok(((instrs, end), n1)) => if end != opcodes::End_ {
                    Err(CommonError::InvalidTerminator)
                } else {
                    Ok((ArgsView::BlockArgs { bt, instrs }, n0 + n1))
                },
            }
        },
    }
}

/// The argument of `if`: a block type, the instructions of the first
/// branch and, where `else` closes them, those of the second, which `end`
/// closes.
pub open spec fn parse_if_args(data: Seq<u8>, pos: nat, depth: nat) -> Parsed<ArgsView>
    decreases MAX_NESTING_DEPTH - depth, remaining_len(data, pos), 0int,
{
    match parse_block_type(data, pos) {
        Err(e) => Err(e),
        Ok((bt, n0)) => if depth >= MAX_NESTING_DEPTH {
            Err(CommonError::NestingTooDeep)
        } else {
            match parse_instructions(data, pos + n0, depth + 1) {
                Err(e) => Err(e),
                Ok(((instrs1, end), n1)) => if end == opcodes::End_ {
                    Ok((ArgsView::IfArgs { bt, instrs1, instrs2: None }, n0 + n1))
                } else {
                    match parse_instructions(data, pos + n0 + n1, depth + 1) {
                        Err(e) => Err(e),
                        Ok(((instrs2, end2), n2)) => if end2 != opcodes::End_ {
                            Err(CommonError::InvalidTerminator)
                        } else {
                            Ok(
                                (
                                    ArgsView::IfArgs { bt, instrs1, instrs2: Some(instrs2) },
                                    n0 + n1 + n2,
                                ),
                            )
                        },
                    }
                },
            }
        },
    }
}

/// The instructions found so far, followed by those found from here on.
pub open spec fn after_instrs(
    done: Seq<InstructionView>,
    used: nat,
    rest: Parsed<(Seq<InstructionView>, u8)>,
) -> Parsed<(Seq<InstructionView>, u8)> {
    match rest {
        Ok(((xs, end), m)) => Ok(((done + xs, end), used + m)),
        Err(e) => Err(e),
    }
}

/// One more instruction read: the sequence from the start is what was
/// read, followed by the sequence from here on.
pub proof fn lemma_parse_instructions_step(
    data: Seq<u8>,
    pos: nat,
    depth: nat,
    done: Seq<InstructionView>,
    used: nat,
)
    ensures
        match parse_instruction(data, pos, depth) {
            Ok((i, n)) => if is_terminator(i.opcode) {
                after_instrs(done, used, parse_instructions(data, pos, depth)) == Ok::<
                    ((Seq<InstructionView>, u8), nat),
                    CommonError,
                >(((done, i.opcode), used + n))
            } else {
                after_instrs(done, used, parse_instructions(data, pos, depth)) == after_instrs(
                    done.push(i),
                    used + n,
                    parse_instructions(data, pos + n, depth),
                )
            },
            Err(e) => after_instrs(done, used, parse_instructions(data, pos, depth)) == Err::<
                ((Seq<InstructionView>, u8), nat),
                CommonError,
            >(e),
        },
{
    match parse_instruction(data, pos, depth) {
        Ok((i, n)) => {
            if is_terminator(i.opcode) {
                assert(done + Seq::<InstructionView>::empty() =~= done);
            } else {
                match parse_instructions(data, pos + n, depth) {
                    Ok(((xs, end), m)) => {
                        assert(done + (seq![i] + xs) =~= done.push(i) + xs);
                    },
                    Err(_) => {},
                }
            }
        },
        Err(_) => {},
    }
}

/// One instruction: a known opcode and its argument.
pub open spec fn parse_instruction(data: Seq<u8>, pos: nat, depth: nat) -> Parsed<InstructionView> {
    match parse_byte(data, pos) {
        Err(_) => Err(CommonError::UnterminatedExpr),
        Ok((op, _)) => if !opcodes::is_known_opcode(op) {
            Err(CommonError::UnknownOpcode)
        } else {
            match parse_args(data, pos + 1, op, depth) {
                Err(e) => Err(e),
                Ok((args, n)) => Ok((InstructionView { opcode: op, args }, 1 + n)),
            }
        },
    }
}

/// An expression: an instruction sequence that `end` closes.
pub open spec fn parse_expr(data: Seq<u8>, pos: nat, depth: nat) -> Parsed<Seq<InstructionView>> {
    match parse_instructions(data, pos, depth) {
        Err(e) => Err(e),
        Ok(((instrs, end), n)) => if end != opcodes::End_ {
            Err(CommonError::InvalidTerminator)
        } else {
            Ok((instrs, n))
        },
    }
}

/// What an import brings in: a tag, and what the tag calls for.
#[verifier::opaque]
pub open spec fn parse_import_desc(data: Seq<u8>, pos: nat) -> Parsed<ImportDesc> {
    match parse_byte(data, pos) {
        Err(e) => Err(e),
        Ok((tag, n0)) => if tag == module::IMPORT_TAG_FUNC {
            match parse_var_u32(data, pos + n0) {
                Err(e) => Err(e),
                Ok((idx, n1)) => Ok(
                    (
                        ImportDesc { tag, fun_type: Some(idx), table: None, mem: None, global: None },
                        n0 + n1,
                    ),
                ),
            }
        } else if tag == module::IMPORT_TAG_TABLE {
            match parse_table_type(data, pos + n0) {
                Err(e) => Err(e),
                Ok((t, n1)) => Ok(
                    (
                        ImportDesc { tag, fun_type: None, table: Some(t), mem: None, global: None },
                        n0 + n1,
                    ),
                ),
            }
        } else if tag == module::IMPORT_TAG_MEM {
            match parse_limits(data, pos + n0) {
                Err(e) => Err(e),
                Ok((l, n1)) => Ok(
                    (
                        ImportDesc { tag, fun_type: None, table: None, mem: Some(l), global: None },
                        n0 + n1,
                    ),
                ),
            }
        } else if tag == module::IMPORT_TAG_GLOBAL {
            match parse_global_type(data, pos + n0) {
                Err(e) => Err(e),
                Ok((g, n1)) => Ok(
                    (
                        ImportDesc { tag, fun_type: None, table: None, mem: None, global: Some(g) },
                        n0 + n1,
                    ),
                ),
            }
        } else {
            Err(CommonError::InvalidImportTag)
        },
    }
}

/// An import: the name of a module, the name of an item, a description.
#[verifier::opaque]
pub open spec fn parse_import(data: Seq<u8>, pos: nat) -> Parsed<ImportView> {
    match parse_name(data, pos) {
        Err(e) => Err(e),
        Ok((module, n0)) => match parse_name(data, pos + n0) {
            Err(e) => Err(e),
            Ok((name, n1)) => match parse_import_desc(data, pos + n0 + n1) {
                Err(e) => Err(e),
                Ok((import_desc, n2)) => Ok((ImportView { module, name, import_desc }, n0 + n1 + n2)),
            },
        },
    }
}

/// Whether `tag` names a kind of export.
pub open spec fn is_export_tag(tag: u8) -> bool {
    tag == module::EXPORT_TAG_FUNC || tag == module::EXPORT_TAG_TABLE || tag
        == module::EXPORT_TAG_MEM || tag == module::EXPORT_TAG_GLOBAL
}

/// An export: a name, a tag and an index.
#[verifier::opaque]
pub open spec fn parse_export(data: Seq<u8>, pos: nat) -> Parsed<ExportView> {
    match parse_name(data, pos) {
        Err(e) => Err(e),
        Ok((name, n0)) => match parse_byte(data, pos + n0) {
            Err(e) => Err(e),
            Ok((tag, n1)) => if !is_export_tag(tag) {
                Err(CommonError::InvalidExportTag)
            } else {
                match parse_var_u32(data, pos + n0 + n1) {
                    Err(e) => Err(e),
                    Ok((idx, n2)) => Ok(
                        (ExportView { name, desc: ExportDesc { tag, idx } }, n0 + n1 + n2),
                    ),
                }
            },
        },
    }
}

/// A global: its type and the expression that gives its first value.
#[verifier::opaque]
pub open spec fn parse_global(data: Seq<u8>, pos: nat, depth: nat) -> Parsed<GlobalSecView> {
    match parse_global_type(data, pos) {
        Err(e) => Err(e),
        Ok((ty, n0)) => match parse_expr(data, pos + n0, depth) {
            Err(e) => Err(e),
            Ok((init, n1)) => Ok((GlobalSecView { ty, init }, n0 + n1)),
        },
    }
}

/// An element segment: a table index, an offset expression, function indices.
#[verifier::opaque]
pub open spec fn parse_elem(data: Seq<u8>, pos: nat, depth: nat) -> Parsed<ElemView> {
    match parse_var_u32(data, pos) {
        Err(e) => Err(e),
        Ok((table, n0)) => match parse_expr(data, pos + n0, depth) {
            Err(e) => Err(e),
            Ok((offset, n1)) => match parse_indices(data, pos + n0 + n1) {
                Err(e) => Err(e),
                Ok((init, n2)) => Ok((ElemView { table, offset, init }, n0 + n1 + n2)),
            },
        },
    }
}

/// A data segment: a memory index, an offset expression, bytes.
#[verifier::opaque]
pub open spec fn parse_data(data: Seq<u8>, pos: nat, depth: nat) -> Parsed<DataView> {
    match parse_var_u32(data, pos) {
        Err(e) => Err(e),
        Ok((mem, n0)) => match parse_expr(data, pos + n0, depth) {
            Err(e) => Err(e),
            Ok((offset, n1)) => match parse_bytes(data, pos + n0 + n1) {
                Err(e) => Err(e),
                Ok((init, n2)) => Ok((DataView { mem, offset, init }, n0 + n1 + n2)),
            },
        },
    }
}

/// A group of locals: how many, and of which value type.
pub open spec fn parse_locals(data: Seq<u8>, pos: nat) -> Parsed<Locals> {
    match parse_var_u32(data, pos) {
        Err(e) => Err(e),
        Ok((n, n0)) => match parse_val_type(data, pos + n0) {
            Err(e) => Err(e),
            Ok((ty, n1)) => Ok((Locals { n, ty }, n0 + n1)),
        },
    }
}

/// `parse_locals` as the item of a vector.
pub open spec fn locals_item() -> spec_fn(Seq<u8>, nat) -> Parsed<Locals> {
    |data: Seq<u8>, pos: nat| parse_locals(data, pos)
}

/// The groups of locals of a function: a vector.
pub open spec fn parse_locals_vec(data: Seq<u8>, pos: nat) -> Parsed<Seq<Locals>> {
    parse_vec(locals_item(), data, pos)
}

/// The body of a function, which has a byte sequence to itself: the groups
/// of locals, which declare fewer than 2^32 - 1 locals together, and the
/// instructions.
pub open spec fn parse_code_body(body: Seq<u8>) -> Result<CodeView, CommonError> {
    match parse_locals_vec(body, 0) {
        Err(e) => Err(e),
        Ok((locals, n0)) => match parse_expr(body, n0, 0) {
            Err(e) => Err(e),
            Ok((expr, _)) => if module::local_count(locals) >= u32::MAX {
                Err(CommonError::TooManyLocals)
            } else {
                Ok(CodeView { locals, expr })
            },
        },
    }
}

/// An entry of the code section: a byte vector that holds a function body.
#[verifier::opaque]
pub open spec fn parse_code(data: Seq<u8>, pos: nat) -> Parsed<CodeView> {
    match parse_bytes(data, pos) {
        Err(e) => Err(e),
        Ok((body, n)) => match parse_code_body(body) {
            Err(e) => Err(e),
            Ok(c) => Ok((c, n)),
        },
    }
}

/// A custom section: a byte vector that holds a name and, behind it, bytes
/// that are kept as they are.
#[verifier::opaque]
pub open spec fn parse_custom_sec(data: Seq<u8>, pos: nat) -> Parsed<CustomSecsView> {
    match parse_bytes(data, pos) {
        Err(e) => Err(e),
        Ok((body, n)) => match parse_name(body, 0) {
            Err(e) => Err(e),
            Ok((name, k)) => Ok((CustomSecsView { name, bytes: body.skip(k as int) }, n)),
        },
    }
}

/// `parse_func_type` as the item of a vector.
pub open spec fn func_type_item() -> spec_fn(Seq<u8>, nat) -> Parsed<FuncTypeView> {
    |data: Seq<u8>, pos: nat| parse_func_type(data, pos)
}

/// `parse_import` as the item of a vector.
pub open spec fn import_item() -> spec_fn(Seq<u8>, nat) -> Parsed<ImportView> {
    |data: Seq<u8>, pos: nat| parse_import(data, pos)
}

/// `parse_table_type` as the item of a vector.
pub open spec fn table_type_item() -> spec_fn(Seq<u8>, nat) -> Parsed<TableType> {
    |data: Seq<u8>, pos: nat| parse_table_type(data, pos)
}

/// `parse_limits` as the item of a vector.
pub open spec fn limits_item() -> spec_fn(Seq<u8>, nat) -> Parsed<Limits> {
    |data: Seq<u8>, pos: nat| parse_limits(data, pos)
}

/// `parse_global` inside `depth` blocks as the item of a vector.
pub open spec fn global_item(depth: nat) -> spec_fn(Seq<u8>, nat) -> Parsed<GlobalSecView> {
    |data: Seq<u8>, pos: nat| parse_global(data, pos, depth)
}

/// `parse_export` as the item of a vector.
pub open spec fn export_item() -> spec_fn(Seq<u8>, nat) -> Parsed<ExportView> {
    |data: Seq<u8>, pos: nat| parse_export(data, pos)
}

/// `parse_elem` inside `depth` blocks as the item of a vector.
pub open spec fn elem_item(depth: nat) -> spec_fn(Seq<u8>, nat) -> Parsed<ElemView> {
    |data: Seq<u8>, pos: nat| parse_elem(data, pos, depth)
}

/// `parse_code` as the item of a vector.
pub open spec fn code_item() -> spec_fn(Seq<u8>, nat) -> Parsed<CodeView> {
    |data: Seq<u8>, pos: nat| parse_code(data, pos)
}

/// `parse_data` inside `depth` blocks as the item of a vector.
pub open spec fn data_item(depth: nat) -> spec_fn(Seq<u8>, nat) -> Parsed<DataView> {
    |data: Seq<u8>, pos: nat| parse_data(data, pos, depth)
}

/// The payload of the type section: a vector of function types.
pub open spec fn parse_type_sec(data: Seq<u8>, pos: nat) -> Parsed<Seq<FuncTypeView>> {
    parse_vec(func_type_item(), data, pos)
}

/// The payload of the import section: a vector of imports.
pub open spec fn parse_import_sec(data: Seq<u8>, pos: nat) -> Parsed<Seq<ImportView>> {
    parse_vec(import_item(), data, pos)
}

/// The payload of the table section: a vector of table types.
pub open spec fn parse_table_sec(data: Seq<u8>, pos: nat) -> Parsed<Seq<TableType>> {
    parse_vec(table_type_item(), data, pos)
}

/// The payload of the memory section: a vector of limits.
pub open spec fn parse_mem_sec(data: Seq<u8>, pos: nat) -> Parsed<Seq<Limits>> {
    parse_vec(limits_item(), data, pos)
}

/// The payload of the global section: a vector of globals.
pub open spec fn parse_global_sec(data: Seq<u8>, pos: nat, depth: nat) -> Parsed<Seq<GlobalSecView>> {
    parse_vec(global_item(depth), data, pos)
}

/// The payload of the export section: a vector of exports.
pub open spec fn parse_export_sec(data: Seq<u8>, pos: nat) -> Parsed<Seq<ExportView>> {
    parse_vec(export_item(), data, pos)
}

/// The payload of the element section: a vector of element segments.
pub open spec fn parse_elem_sec(data: Seq<u8>, pos: nat, depth: nat) -> Parsed<Seq<ElemView>> {
    parse_vec(elem_item(depth), data, pos)
}

/// The payload of the code section: a vector of function bodies.
pub open spec fn parse_code_sec(data: Seq<u8>, pos: nat) -> Parsed<Seq<CodeView>> {
    parse_vec(code_item(), data, pos)
}

/// The payload of the data section: a vector of data segments.
pub open spec fn parse_data_sec(data: Seq<u8>, pos: nat, depth: nat) -> Parsed<Seq<DataView>> {
    parse_vec(data_item(depth), data, pos)
}

/// A module in which no section has been seen yet.
pub open spec fn empty_module(magic: u32, version: u32) -> ModuleView {
    ModuleView {
        magic,
        version,
        custom_secs: None,
        type_sec: None,
        import_sec: None,
        func_sec: None,
        table_sec: None,
        mem_sec: None,
        global_sec: None,
        export_sec: None,
        start_sec: None,
        elem_sec: None,
        code_sec: None,
        data_sec: None,
    }
}

/// `m` with one more custom section.
pub open spec fn with_custom_sec(m: ModuleView, c: CustomSecsView) -> ModuleView {
    ModuleView {
        custom_secs: match m.custom_secs {
            Some(v) => Some(v.push(c)),
            None => Some(seq![c]),
        },
        ..m
    }
}

/// The payload of the section with the given id, put into `m`.
#[verifier::opaque]
pub open spec fn parse_section(id: u8, data: Seq<u8>, pos: nat, depth: nat, m: ModuleView) -> Parsed<
    ModuleView,
> {
    if id == module::SEC_TYPE_ID {
        match parse_type_sec(data, pos) {
            Err(e) => Err(e),
            Ok((v, n)) => Ok((ModuleView { type_sec: Some(v), ..m }, n)),
        }
    } else if id == module::SEC_IMPORT_ID {
        match parse_import_sec(data, pos) {
            Err(e) => Err(e),
            Ok((v, n)) => Ok((ModuleView { import_sec: Some(v), ..m }, n)),
        }
    } else if id == module::SEC_FUNC_ID {
        match parse_indices(data, pos) {
            Err(e) => Err(e),
            Ok((v, n)) => Ok((ModuleView { func_sec: Some(v), ..m }, n)),
        }
    } else if id == module::SEC_TABLE_ID {
        match parse_table_sec(data, pos) {
            Err(e) => Err(e),
            Ok((v, n)) => Ok((ModuleView { table_sec: Some(v), ..m }, n)),
        }
    } else if id == module::SEC_MEM_ID {
        match parse_mem_sec(data, pos) {
            Err(e) => Err(e),
            Ok((v, n)) => Ok((ModuleView { mem_sec: Some(v), ..m }, n)),
        }
    } else if id == module::SEC_GLOBAL_ID {
        match parse_global_sec(data, pos, depth) {
            Err(e) => Err(e),
            Ok((v, n)) => Ok((ModuleView { global_sec: Some(v), ..m }, n)),
        }
    } else if id == module::SEC_EXPORT_ID {
        match parse_export_sec(data, pos) {
            Err(e) => Err(e),
            Ok((v, n)) => Ok((ModuleView { export_sec: Some(v), ..m }, n)),
        }
    } else if id == module::SEC_START_ID {
        match parse_var_u32(data, pos) {
            Err(e) => Err(e),
            Ok((v, n)) => Ok((ModuleView { start_sec: Some(v), ..m }, n)),
        }
    } else if id == module::SEC_ELEM_ID {
        match parse_elem_sec(data, pos, depth) {
            Err(e) => Err(e),
            Ok((v, n)) => Ok((ModuleView { elem_sec: Some(v), ..m }, n)),
        }
    } else if id == module::SEC_CODE_ID {
        match parse_code_sec(data, pos) {
            Err(e) => Err(e),
            Ok((v, n)) => Ok((ModuleView { code_sec: Some(v), ..m }, n)),
        }
    } else if id == module::SEC_DATA_ID {
        match parse_data_sec(data, pos, depth) {
            Err(e) => Err(e),
            Ok((v, n)) => Ok((ModuleView { data_sec: Some(v), ..m }, n)),
        }
    } else {
        Ok((m, 0))
    }
}

/// The sections from `pos` to the end of the bytes, put into `m` one after
/// the other. `prev_id` is the id of the last section seen that is not a
/// custom section. A custom section may stand anywhere and any number of
/// times; the others come with strictly increasing ids, and each takes
/// exactly the bytes that its header declares.
pub open spec fn parse_sections(data: Seq<u8>, pos: nat, depth: nat, prev_id: u8, m: ModuleView) -> Result<
    ModuleView,
    CommonError,
>
    decreases remaining_len(data, pos),
{
    if pos >= data.len() {
        Ok(m)
    } else {
        let id = data[pos as int];
        if id == module::SEC_CUSTOM_ID {
            match parse_custom_sec(data, pos + 1) {
                Err(e) => Err(e),
                Ok((c, n)) => parse_sections(data, pos + 1 + n, depth, prev_id, with_custom_sec(m, c)),
            }
        } else if id > module::SEC_DATA_ID {
            Err(CommonError::InvalidSectionId)
        } else if id <= prev_id {
            Err(CommonError::SectionOrder)
        } else {
            match parse_var_u32(data, pos + 1) {
                Err(e) => Err(e),
                Ok((size, n0)) => match parse_section(id, data, pos + 1 + n0, depth, m) {
                    Err(e) => Err(e),
                    Ok((m2, n1)) => if n1 != size {
                        Err(CommonError::SectionSizeMismatch)
                    } else {
                        parse_sections(data, pos + 1 + n0 + n1, depth, id, m2)
                    },
                },
            }
        }
    }
}

/// A module: the magic number, the version, and the sections up to the end
/// of the bytes.
pub open spec fn parse_module(data: Seq<u8>, pos: nat, depth: nat) -> Result<ModuleView, CommonError> {
    match parse_u32(data, pos) {
        Err(e) => Err(e),
        Ok((magic, _)) => match parse_u32(data, pos + 4) {
            Err(e) => Err(e),
            Ok((version, _)) => parse_sections(data, pos + 8, depth, 0, empty_module(magic, version)),
        },
    }
}

} // verus!

//! Decoding a module from its bytes: each `read_*` method of `WasmReader`
//! returns what the format says stands at the cursor, and moves the cursor
//! over it.

use vstd::prelude::*;
use vstd::slice::{slice_subrange, slice_to_vec};
use vstd::utf8::{decode_utf8, valid_utf8};
use byteorder::{ByteOrder, LittleEndian};
use crate::binary::{module, opcodes};
use crate::binary::format::{
    after, after_instrs, code_item, data_item, elem_item, export_item, func_type_item, global_item,
    import_item, index_item, le_u32, le_u64, lemma_parse_instructions_step, lemma_parse_many_done,
    lemma_parse_many_step, limits_item, locals_item, MAX_NESTING_DEPTH, parse_args,
    parse_block_args, parse_block_type, parse_br_table_args, parse_byte, parse_bytes,
    parse_call_indirect_args, parse_code, parse_code_sec, parse_custom_sec, parse_data,
    parse_data_sec, parse_elem, parse_elem_sec, parse_export, parse_export_sec, parse_expr,
    parse_func_type, parse_global, parse_global_sec, parse_global_type, parse_if_args,
    parse_import, parse_import_desc, parse_import_sec, parse_indices, parse_instruction,
    parse_instructions, parse_limits, parse_locals, parse_locals_vec, parse_many, parse_mem_arg,
    parse_mem_sec, parse_module, parse_name, parse_section, parse_sections, parse_table_sec,
    parse_table_type, parse_type_sec, parse_u32, parse_u64, parse_val_type, parse_val_types,
    parse_var_s32, parse_var_s64, parse_var_u32, parse_zero, Parsed, table_type_item,
    val_type_item, with_custom_sec,
};
use crate::binary::instruction::{
    args_view, ArgsEnum, BlockArgs, BrTableArgs, Expr, expr_view, IfArgs, instr_view, Instruction,
    InstructionView, lemma_expr_view_empty, lemma_expr_view_push, MemArg, opt_args_view,
};
use crate::binary::leb128::{decode_var_int, decode_var_uint, lemma_decoded_len};
use crate::binary::module::{
    Code, CustomSecs, CustomSecsView, Data, Elem, Export, ExportDesc, FuncType, GlobalSec,
    GlobalType, Import, ImportDesc, lemma_views_empty, lemma_views_push, Limits, Locals, Module,
    ModuleView, TableType, views,
};
use crate::common::common_error::CommonError;

verus! {

/// `byteorder::LittleEndian::read_u32`: the number that the first four bytes
/// of `buf` spell, the first byte being the least significant.
#[verifier::external_body]
fn le_read_u32(buf: &[u8]) -> (r: u32)
    requires
        buf@.len() >= 4,
    ensures
        r == le_u32(buf@),
{
    LittleEndian::read_u32(buf)
}

/// `byteorder::LittleEndian::read_u64`: the number that the first eight bytes
/// of `buf` spell, the first byte being the least significant.
#[verifier::external_body]
fn le_read_u64(buf: &[u8]) -> (r: u64)
    requires
        buf@.len() >= 8,
    ensures
        r == le_u64(buf@),
{
    LittleEndian::read_u64(buf)
}

/// `String::from_utf8`: the text that the bytes spell, or nothing where they
/// are not UTF-8.
#[verifier::external_body]
fn string_from_utf8(bytes: Vec<u8>) -> (r: Option<String>)
    ensures
        match r {
            Some(s) => valid_utf8(bytes@) && s@ == decode_utf8(bytes@),
            None => !valid_utf8(bytes@),
        },
{
    match String::from_utf8(bytes) {
        Ok(s) => Some(s),
        Err(_) => None,
    }
}

/// The content of what a read returned.
pub open spec fn viewed<T: View>(r: Result<T, CommonError>) -> Result<T::V, CommonError> {
    match r {
        Ok(v) => Ok(v@),
        Err(e) => Err(e),
    }
}

/// A cursor over the bytes of a module.
pub struct WasmReader {
    data: Vec<u8>,
    pos: usize,
    depth: usize,
}

/// How a read relates the reader before and after it to the value that
/// stands at the cursor: the bytes stay, and on success the cursor has moved
/// over the bytes of the value and the nesting depth is what it was.
pub open spec fn reads<T>(pre: WasmReader, post: WasmReader, got: Result<T, CommonError>, want: Parsed<T>) -> bool {
    &&& post.bytes() == pre.bytes()
    &&& match got {
        Ok(v) => {
            &&& want == Ok::<(T, nat), CommonError>((v, (post.position() - pre.position()) as nat))
            &&& post.position() >= pre.position()
            &&& post.depth() == pre.depth()
        },
        Err(e) => want == Err::<(T, nat), CommonError>(e),
    }
}

impl WasmReader {
    #[verifier::type_invariant]
    spec fn inv(&self) -> bool {
        self.pos <= self.data.len() && self.depth <= MAX_NESTING_DEPTH
    }

    /// All the bytes, read or not.
    pub closed spec fn bytes(&self) -> Seq<u8> {
        self.data@
    }

    /// The index of the next byte to read.
    pub closed spec fn position(&self) -> nat {
        self.pos as nat
    }

    /// The number of blocks that enclose the cursor.
    pub closed spec fn depth(&self) -> nat {
        self.depth as nat
    }

    /// A reader at the start of `data`.
    pub fn new(data: Vec<u8>) -> (r: WasmReader)
        ensures
            r.bytes() == data@,
            r.position() == 0,
            r.depth() == 0,
    {
        WasmReader { data, pos: 0, depth: 0 }
    }

    /// The number of bytes not read yet.
    pub fn remaining(&self) -> (n: usize)
        ensures
            n == self.bytes().len() - self.position(),
            self.position() <= self.bytes().len(),
    {
        proof {
            use_type_invariant(self);
        }
        self.data.len() - self.pos
    }

    /// Reads one byte.
    pub fn read_byte(&mut self) -> (r: Result<u8, CommonError>)
        ensures
            reads(*old(self), *final(self), r, parse_byte(old(self).bytes(), old(self).position())),
    {
        proof {
            use_type_invariant(&*self);
        }
        if self.pos < self.data.len() {
            let b = self.data[self.pos];
            self.pos = self.pos + 1;
            Ok(b)
        } else {
            Err(CommonError::UnexpectedEnd)
        }
    }

    /// Reads four bytes as a little-endian number.
    pub fn read_u32(&mut self) -> (r: Result<u32, CommonError>)
        ensures
            reads(*old(self), *final(self), r, parse_u32(old(self).bytes(), old(self).position())),
    {
        proof {
            use_type_invariant(&*self);
        }
        if self.data.len() - self.pos >= 4 {
            let v = le_read_u32(slice_subrange(self.data.as_slice(), self.pos, self.pos + 4));
            self.pos = self.pos + 4;
            Ok(v)
        } else {
            Err(CommonError::UnexpectedEnd)
        }
    }

    /// Reads the four bytes of a binary32 value and returns its bit pattern.
    pub fn read_f32(&mut self) -> (r: Result<u32, CommonError>)
        ensures
            reads(*old(self), *final(self), r, parse_u32(old(self).bytes(), old(self).position())),
    {
        self.read_u32()
    }

    /// Reads the eight bytes of a binary64 value and returns its bit pattern.
    pub fn read_f64(&mut self) -> (r: Result<u64, CommonError>)
        ensures
            reads(*old(self), *final(self), r, parse_u64(old(self).bytes(), old(self).position())),
    {
        proof {
            use_type_invariant(&*self);
        }
        if self.data.len() - self.pos >= 8 {
            let v = le_read_u64(slice_subrange(self.data.as_slice(), self.pos, self.pos + 8));
            self.pos = self.pos + 8;
            Ok(v)
        } else {
            Err(CommonError::UnexpectedEnd)
        }
    }

    /// Reads a variable-length unsigned number and keeps its low 32 bits.
    pub fn read_var_u32(&mut self) -> (r: Result<u32, CommonError>)
        ensures
            reads(*old(self), *final(self), r, parse_var_u32(old(self).bytes(), old(self).position())),
    {
        proof {
            use_type_invariant(&*self);
        }
        let rest = slice_subrange(self.data.as_slice(), self.pos, self.data.len());
        match decode_var_uint(rest, 32) {
            Ok((v, n)) => {
                proof {
                    lemma_decoded_len(rest@, 32);
                }
                self.pos = self.pos + n;
                Ok((v % 0x1_0000_0000) as u32)
            },
            Err(e) => Err(e),
        }
    }

    /// Reads a variable-length signed number and keeps its low 32 bits.
    pub fn read_var_s32(&mut self) -> (r: Result<i32, CommonError>)
        ensures
            reads(*old(self), *final(self), r, parse_var_s32(old(self).bytes(), old(self).position())),
    {
        proof {
            use_type_invariant(&*self);
        }
        let rest = slice_subrange(self.data.as_slice(), self.pos, self.data.len());
        match decode_var_int(rest, 32) {
            Ok((v, n)) => {
                proof {
                    lemma_decoded_len(rest@, 32);
                }
                self.pos = self.pos + n;
                let low = v % 0x1_0000_0000;
                let low = if low < 0 { low + 0x1_0000_0000 } else { low };
                if low >= 0x8000_0000 {
                    Ok((low - 0x1_0000_0000) as i32)
                } else {
                    Ok(low as i32)
                }
            },
            Err(e) => Err(e),
        }
    }

    /// Reads a variable-length signed number of 64 bits.
    pub fn read_var_s64(&mut self) -> (r: Result<i64, CommonError>)
        ensures
            reads(*old(self), *final(self), r, parse_var_s64(old(self).bytes(), old(self).position())),
    {
        proof {
            use_type_invariant(&*self);
        }
        let rest = slice_subrange(self.data.as_slice(), self.pos, self.data.len());
        match decode_var_int(rest, 64) {
            Ok((v, n)) => {
                proof {
                    lemma_decoded_len(rest@, 64);
                }
                self.pos = self.pos + n;
                Ok(v)
            },
            Err(e) => Err(e),
        }
    }

    /// Reads a byte vector: its length, then that many bytes.
    pub fn read_bytes(&mut self) -> (r: Result<Vec<u8>, CommonError>)
        ensures
            reads(
                *old(self),
                *final(self),
                match r {
                    Ok(v) => Ok(v@),
                    Err(e) => Err(e),
                },
                parse_bytes(old(self).bytes(), old(self).position()),
            ),
    {
        let len = self.read_var_u32()? as usize;
        proof {
            use_type_invariant(&*self);
        }
        if self.data.len() - self.pos >= len {
            let v = slice_to_vec(slice_subrange(self.data.as_slice(), self.pos, self.pos + len));
            self.pos = self.pos + len;
            Ok(v)
        } else {
            Err(CommonError::UnexpectedEnd)
        }
    }

    /// Reads a name: a byte vector that must be UTF-8.
    pub fn read_name(&mut self) -> (r: Result<String, CommonError>)
        ensures
            reads(
                *old(self),
                *final(self),
                match r {
                    Ok(v) => Ok(v@),
                    Err(e) => Err(e),
                },
                parse_name(old(self).bytes(), old(self).position()),
            ),
    {
        let bytes = self.read_bytes()?;
        match string_from_utf8(bytes) {
            Some(s) => Ok(s),
            None => Err(CommonError::InvalidUtf8),
        }
    }
    /// Reads a byte that names a value type.
    pub fn read_val_type(&mut self) -> (r: Result<u8, CommonError>)
        ensures
            reads(*old(self), *final(self), r, parse_val_type(old(self).bytes(), old(self).position())),
    {
        let b = self.read_byte()?;
        if b == module::VAL_TYPE_I32 || b == module::VAL_TYPE_I64 || b == module::VAL_TYPE_F32 || b
            == module::VAL_TYPE_F64 {
            Ok(b)
        } else {
            Err(CommonError::InvalidValueType)
        }
    }

    /// Reads a vector of value types.
    pub fn read_val_types(&mut self) -> (r: Result<Vec<u8>, CommonError>)
        ensures
            reads(
                *old(self),
                *final(self),
                viewed(r),
                parse_val_types(old(self).bytes(), old(self).position()),
            ),
    {
        let ghost data = self.data@;
        let ghost depth = self.depth;
        let ghost start = self.pos as nat;
        let count = self.read_var_u32()?;
        let ghost first = self.pos as nat;
        let mut v: Vec<u8> = Vec::new();
        let mut i: u32 = 0;
        while i < count
            invariant
                old(self).data@ == data,
                old(self).pos == start,
                old(self).depth == depth,
                start <= first,
                parse_var_u32(data, start) == Ok::<(u32, nat), CommonError>(
                    (count, (first - start) as nat),
                ),
                self.data@ == data,
                self.depth == depth,
                i <= count,
                first <= self.pos,
                parse_many(val_type_item(), data, first, count as nat) == after(
                    v@,
                    (self.pos - first) as nat,
                    parse_many(val_type_item(), data, self.pos as nat, (count - i) as nat),
                ),
            decreases count - i,
        {
            proof {
                lemma_parse_many_step(
                    val_type_item(),
                    data,
                    self.pos as nat,
                    (count - i) as nat,
                    v@,
                    (self.pos - first) as nat,
                );
            }
            let x = self.read_val_type()?;
            v.push(x);
            i = i + 1;
        }
        proof {
            lemma_parse_many_done(val_type_item(), data, self.pos as nat, v@, (self.pos - first) as nat);
        }
        Ok(v)
    }

    /// Reads a vector of indices.
    pub fn read_indices(&mut self) -> (r: Result<Vec<module::TypeIdx>, CommonError>)
        ensures
            reads(
                *old(self),
                *final(self),
                viewed(r),
                parse_indices(old(self).bytes(), old(self).position()),
            ),
    {
        let ghost data = self.data@;
        let ghost depth = self.depth;
        let ghost start = self.pos as nat;
        let count = self.read_var_u32()?;
        let ghost first = self.pos as nat;
        let mut v: Vec<u32> = Vec::new();
        let mut i: u32 = 0;
        while i < count
            invariant
                old(self).data@ == data,
                old(self).pos == start,
                old(self).depth == depth,
                start <= first,
                parse_var_u32(data, start) == Ok::<(u32, nat), CommonError>(
                    (count, (first - start) as nat),
                ),
                self.data@ == data,
                self.depth == depth,
                i <= count,
                first <= self.pos,
                parse_many(index_item(), data, first, count as nat) == after(
                    v@,
                    (self.pos - first) as nat,
                    parse_many(index_item(), data, self.pos as nat, (count - i) as nat),
                ),
            decreases count - i,
        {
            proof {
                lemma_parse_many_step(
                    index_item(),
                    data,
                    self.pos as nat,
                    (count - i) as nat,
                    v@,
                    (self.pos - first) as nat,
                );
            }
            let x = self.read_var_u32()?;
            v.push(x);
            i = i + 1;
        }
        proof {
            lemma_parse_many_done(index_item(), data, self.pos as nat, v@, (self.pos - first) as nat);
        }
        Ok(v)
    }

    /// Reads limits: a tag, the minimum and, where the tag is 1, the maximum.
    pub fn read_limits(&mut self) -> (r: Result<Limits, CommonError>)
        ensures
            reads(*old(self), *final(self), r, parse_limits(old(self).bytes(), old(self).position())),
    {
        let tag = self.read_byte()?;
        let min = self.read_var_u32()?;
        if tag == 1 {
            let max = self.read_var_u32()?;
            Ok(Limits { tag, min, max: Some(max) })
        } else {
            Ok(Limits { tag, min, max: None })
        }
    }

    /// Reads a table type: the element type and the limits.
    pub fn read_table_type(&mut self) -> (r: Result<TableType, CommonError>)
        ensures
            reads(
                *old(self),
                *final(self),
                r,
                parse_table_type(old(self).bytes(), old(self).position()),
            ),
    {
        let elem_type = self.read_byte()?;
        if elem_type != module::FUNC_REF {
            return Err(CommonError::InvalidElemType);
        }
        let limits = self.read_limits()?;
        Ok(TableType { elem_type, limits })
    }

    /// Reads a global type: the value type and the mutability.
    pub fn read_global_type(&mut self) -> (r: Result<GlobalType, CommonError>)
        ensures
            reads(
                *old(self),
                *final(self),
                r,
                parse_global_type(old(self).bytes(), old(self).position()),
            ),
    {
        let val_type = self.read_val_type()?;
        let m = self.read_byte()?;
        if m == module::MUT_CONST || m == module::MUT_VAR {
            Ok(GlobalType { val_type, m })
        } else {
            Err(CommonError::InvalidMutability)
        }
    }

    /// Reads a function type: the tag, the parameter types, the result types.
    pub fn read_func_type(&mut self) -> (r: Result<FuncType, CommonError>)
        ensures
            reads(
                *old(self),
                *final(self),
                viewed(r),
                parse_func_type(old(self).bytes(), old(self).position()),
            ),
    {
        proof {
            reveal(parse_func_type);
        }
        let tag = self.read_byte()?;
        if tag != module::FT_TAG {
            return Err(CommonError::InvalidFuncTypeTag);
        }
        let param_types = self.read_val_types()?;
        let result_types = self.read_val_types()?;
        Ok(FuncType { tag, param_types, result_types })
    }

    /// Reads a reserved byte, which must be zero.
    pub fn read_zero(&mut self) -> (r: Result<u8, CommonError>)
        ensures
            reads(*old(self), *final(self), r, parse_zero(old(self).bytes(), old(self).position())),
    {
        let b = self.read_byte()?;
        if b != 0 {
            Err(CommonError::ZeroFlagExpected)
        } else {
            Ok(0)
        }
    }

    /// Reads the argument of a load or a store.
    pub fn read_mem_arg(&mut self) -> (r: Result<MemArg, CommonError>)
        ensures
            reads(*old(self), *final(self), r, parse_mem_arg(old(self).bytes(), old(self).position())),
    {
        let align = self.read_var_u32()?;
        let offset = self.read_var_u32()?;
        Ok(MemArg { align, offset })
    }

    /// Reads the argument of `call_indirect`: a type index and a reserved byte.
    pub fn read_call_indirect_args(&mut self) -> (r: Result<u32, CommonError>)
        ensures
            reads(
                *old(self),
                *final(self),
                r,
                parse_call_indirect_args(old(self).bytes(), old(self).position()),
            ),
    {
        let idx = self.read_var_u32()?;
        let _ = self.read_zero()?;
        Ok(idx)
    }

    /// Reads the argument of `br_table`: the labels and the default label.
    pub fn read_br_table_args(&mut self) -> (r: Result<ArgsEnum, CommonError>)
        ensures
            reads(
                *old(self),
                *final(self),
                match r {
                    Ok(a) => Ok(args_view(a)),
                    Err(e) => Err(e),
                },
                parse_br_table_args(old(self).bytes(), old(self).position()),
            ),
    {
        let labels = self.read_indices()?;
        let default = self.read_var_u32()?;
        Ok(ArgsEnum::BrTableArgs(BrTableArgs { labels, default }))
    }

    /// Reads a block type.
    pub fn read_block_type(&mut self) -> (r: Result<i32, CommonError>)
        ensures
            reads(
                *old(self),
                *final(self),
                r,
                parse_block_type(old(self).bytes(), old(self).position()),
            ),
    {
        let bt = self.read_var_s32()?;
        if bt >= 0 || bt == module::BLOCK_TYPE_I32 || bt == module::BLOCK_TYPE_I64 || bt
            == module::BLOCK_TYPE_F32 || bt == module::BLOCK_TYPE_F64 || bt
            == module::BLOCK_TYPE_EMPTY {
            Ok(bt)
        } else {
            Err(CommonError::InvalidBlockType)
        }
    }

    /// Reads instructions up to the `else` or `end` that closes them, and
    /// returns them with that opcode.
    pub fn read_instructions(&mut self) -> (r: Result<(Expr, u8), CommonError>)
        ensures
            reads(
                *old(self),
                *final(self),
                match r {
                    Ok((v, end)) => Ok((expr_view(v), end)),
                    Err(e) => Err(e),
                },
                parse_instructions(old(self).bytes(), old(self).position(), old(self).depth()),
            ),
        decreases MAX_NESTING_DEPTH - old(self).depth(), old(self).bytes().len() - old(self).position(), 3int,
    {
        let ghost data = self.data@;
        let ghost depth = self.depth as nat;
        let ghost start = self.pos as nat;
        let mut v: Vec<Instruction> = Vec::new();
        proof {
            use_type_invariant(&*self);
            lemma_expr_view_empty(v);
            assert(Seq::<InstructionView>::empty() + Seq::<InstructionView>::empty()
                =~= Seq::<InstructionView>::empty());
        }
        loop
            invariant
                old(self).data@ == data,
                old(self).pos == start,
                old(self).depth == depth,
                self.data@ == data,
                self.depth == depth,
                start <= self.pos <= data.len(),
                parse_instructions(data, start, depth) == after_instrs(
                    expr_view(v),
                    (self.pos - start) as nat,
                    parse_instructions(data, self.pos as nat, depth),
                ),
            decreases data.len() - self.pos,
        {
            proof {
                lemma_parse_instructions_step(
                    data,
                    self.pos as nat,
                    depth,
                    expr_view(v),
                    (self.pos - start) as nat,
                );
            }
            let i = self.read_instruction()?;
            proof {
                use_type_invariant(&*self);
            }
            if i.opcode == opcodes::Else_ || i.opcode == opcodes::End_ {
                return Ok((v, i.opcode));
            }
            let ghost before = v;
            v.push(i);
            proof {
                lemma_expr_view_push(before, v, i);
            }
        }
    }

    /// Reads one instruction: its opcode, which must be known, and its
    /// argument.
    pub fn read_instruction(&mut self) -> (r: Result<Instruction, CommonError>)
        ensures
            reads(
                *old(self),
                *final(self),
                match r {
                    Ok(i) => Ok(instr_view(i)),
                    Err(e) => Err(e),
                },
                parse_instruction(old(self).bytes(), old(self).position(), old(self).depth()),
            ),
        decreases MAX_NESTING_DEPTH - old(self).depth(), old(self).bytes().len() - old(self).position(), 2int,
    {
        proof {
            use_type_invariant(&*self);
        }
        let op = match self.read_byte() {
            Ok(b) => b,
            Err(_) => {
                return Err(CommonError::UnterminatedExpr);
            },
        };
        if !opcodes::known_opcode(op) {
            return Err(CommonError::UnknownOpcode);
        }
        let args = self.read_args(op)?;
        Ok(Instruction { opcode: op, args })
    }

    /// Reads the immediate argument that `opcode` calls for.
    pub fn read_args(&mut self, opcode: u8) -> (r: Result<Option<ArgsEnum>, CommonError>)
        ensures
            reads(
                *old(self),
                *final(self),
                match r {
                    Ok(a) => Ok(opt_args_view(a)),
                    Err(e) => Err(e),
                },
                parse_args(old(self).bytes(), old(self).position(), opcode, old(self).depth()),
            ),
        decreases MAX_NESTING_DEPTH - old(self).depth(), old(self).bytes().len() - old(self).position(), 1int,
    {
        if opcode == opcodes::Block || opcode == opcodes::Loop {
            Ok(Some(self.read_block_args()?))
        } else if opcode == opcodes::If {
            Ok(Some(self.read_if_args()?))
        } else if opcode == opcodes::Br || opcode == opcodes::BrIf || opcode == opcodes::Call
            || opcode == opcodes::LocalGet || opcode == opcodes::LocalSet || opcode
            == opcodes::LocalTee || opcode == opcodes::GlobalGet || opcode == opcodes::GlobalSet {
            Ok(Some(ArgsEnum::U32(self.read_var_u32()?)))
        } else if opcode == opcodes::BrTable {
            Ok(Some(self.read_br_table_args()?))
        } else if opcode == opcodes::CallIndirect {
            Ok(Some(ArgsEnum::U32(self.read_call_indirect_args()?)))
        } else if opcode == opcodes::MemorySize || opcode == opcodes::MemoryGrow {
            Ok(Some(ArgsEnum::U8(self.read_zero()?)))
        } else if opcode == opcodes::I32Const {
            Ok(Some(ArgsEnum::I32(self.read_var_s32()?)))
        } else if opcode == opcodes::I64Const {
            Ok(Some(ArgsEnum::I64(self.read_var_s64()?)))
        } else if opcode == opcodes::F32Const {
            Ok(Some(ArgsEnum::F32(self.read_f32()?)))
        } else if opcode == opcodes::F64Const {
            Ok(Some(ArgsEnum::F64(self.read_f64()?)))
        } else if opcode == opcodes::TruncSat {
            Ok(Some(ArgsEnum::U8(self.read_byte()?)))
        } else if opcodes::I32Load <= opcode && opcode <= opcodes::I64Store32 {
            Ok(Some(ArgsEnum::MemArg(self.read_mem_arg()?)))
        } else {
            Ok(None)
        }
    }

    /// Reads the argument of `block` and `loop`: the block type and the
    /// body, which `end` must close.
    pub fn read_block_args(&mut self) -> (r: Result<ArgsEnum, CommonError>)
        ensures
            reads(
                *old(self),
                *final(self),
                match r {
                    Ok(a) => Ok(args_view(a)),
                    Err(e) => Err(e),
                },
                parse_block_args(old(self).bytes(), old(self).position(), old(self).depth()),
            ),
        decreases MAX_NESTING_DEPTH - old(self).depth(), old(self).bytes().len() - old(self).position(), 0int,
    {
        proof {
            use_type_invariant(&*self);
        }
        let bt = self.read_block_type()?;
        if self.depth >= MAX_NESTING_DEPTH {
            return Err(CommonError::NestingTooDeep);
        }
        proof {
            use_type_invariant(&*self);
        }
        self.depth = self.depth + 1;
        let (instrs, end) = self.read_instructions()?;
        proof {
            use_type_invariant(&*self);
        }
        self.depth = self.depth - 1;
        if end != opcodes::End_ {
            Err(CommonError::InvalidTerminator)
        } else {
            Ok(ArgsEnum::BlockArgs(BlockArgs { bt, instrs }))
        }
    }

    /// Reads the argument of `if`: the block type, the first branch and,
    /// where `else` closes it, the second branch, which `end` must close.
    pub fn read_if_args(&mut self) -> (r: Result<ArgsEnum, CommonError>)
        ensures
            reads(
                *old(self),
                *final(self),
                match r {
                    Ok(a) => Ok(args_view(a)),
                    Err(e) => Err(e),
                },
                parse_if_args(old(self).bytes(), old(self).position(), old(self).depth()),
            ),
        decreases MAX_NESTING_DEPTH - old(self).depth(), old(self).bytes().len() - old(self).position(), 0int,
    {
        proof {
            use_type_invariant(&*self);
        }
        let bt = self.read_block_type()?;
        if self.depth >= MAX_NESTING_DEPTH {
            return Err(CommonError::NestingTooDeep);
        }
        proof {
            use_type_invariant(&*self);
        }
        self.depth = self.depth + 1;
        let (instrs1, end) = self.read_instructions()?;
        if end == opcodes::End_ {
            proof {
                use_type_invariant(&*self);
            }
            self.depth = self.depth - 1;
            return Ok(ArgsEnum::IfArgs(IfArgs { bt, instrs1, instrs2: None }));
        }
        let (instrs2, end2) = self.read_instructions()?;
        proof {
            use_type_invariant(&*self);
        }
        self.depth = self.depth - 1;
        if end2 != opcodes::End_ {
            Err(CommonError::InvalidTerminator)
        } else {
            Ok(ArgsEnum::IfArgs(IfArgs { bt, instrs1, instrs2: Some(instrs2) }))
        }
    }

    /// Reads an expression: instructions that `end` must close.
    pub fn read_expr(&mut self) -> (r: Result<Expr, CommonError>)
        ensures
            reads(
                *old(self),
                *final(self),
                match r {
                    Ok(v) => Ok(expr_view(v)),
                    Err(e) => Err(e),
                },
                parse_expr(old(self).bytes(), old(self).position(), old(self).depth()),
            ),
    {
        let (instrs, end) = self.read_instructions()?;
        if end != opcodes::End_ {
            Err(CommonError::InvalidTerminator)
        } else {
            Ok(instrs)
        }
    }
    /// Reads what an import brings in: a tag and what the tag calls for.
    pub fn read_import_desc(&mut self) -> (r: Result<ImportDesc, CommonError>)
        ensures
            reads(
                *old(self),
                *final(self),
                r,
                parse_import_desc(old(self).bytes(), old(self).position()),
            ),
    {
        proof {
            reveal(parse_import_desc);
        }
        let tag = self.read_byte()?;
        if tag == module::IMPORT_TAG_FUNC {
            let idx = self.read_var_u32()?;
            Ok(ImportDesc { tag, fun_type: Some(idx), table: None, mem: None, global: None })
        } else if tag == module::IMPORT_TAG_TABLE {
            let t = self.read_table_type()?;
            Ok(ImportDesc { tag, fun_type: None, table: Some(t), mem: None, global: None })
        } else if tag == module::IMPORT_TAG_MEM {
            let l = self.read_limits()?;
            Ok(ImportDesc { tag, fun_type: None, table: None, mem: Some(l), global: None })
        } else if tag == module::IMPORT_TAG_GLOBAL {
            let g = self.read_global_type()?;
            Ok(ImportDesc { tag, fun_type: None, table: None, mem: None, global: Some(g) })
        } else {
            Err(CommonError::InvalidImportTag)
        }
    }

    /// Reads an import: two names and a description.
    pub fn read_import(&mut self) -> (r: Result<Import, CommonError>)
        ensures
            reads(
                *old(self),
                *final(self),
                viewed(r),
                parse_import(old(self).bytes(), old(self).position()),
            ),
    {
        proof {
            reveal(parse_import);
        }
        let module = self.read_name()?;
        let name = self.read_name()?;
        let import_desc = self.read_import_desc()?;
        Ok(Import { module, name, import_desc })
    }

    /// Reads an export: a name, a tag and an index.
    fn read_export(&mut self) -> (r: Result<Export, CommonError>)
        ensures
            reads(
                *old(self),
                *final(self),
                viewed(r),
                parse_export(old(self).bytes(), old(self).position()),
            ),
    {
        proof {
            reveal(parse_export);
        }
        let name = self.read_name()?;
        let tag = self.read_byte()?;
        if !(tag == module::EXPORT_TAG_FUNC || tag == module::EXPORT_TAG_TABLE || tag
            == module::EXPORT_TAG_MEM || tag == module::EXPORT_TAG_GLOBAL) {
            return Err(CommonError::InvalidExportTag);
        }
        let idx = self.read_var_u32()?;
        Ok(Export { name, desc: ExportDesc { tag, idx } })
    }

    /// Reads a global: its type and its initializer.
    fn read_global(&mut self) -> (r: Result<GlobalSec, CommonError>)
        ensures
            reads(
                *old(self),
                *final(self),
                viewed(r),
                parse_global(old(self).bytes(), old(self).position(), old(self).depth()),
            ),
    {
        proof {
            reveal(parse_global);
        }
        let ty = self.read_global_type()?;
        let init = self.read_expr()?;
        Ok(GlobalSec { ty, init })
    }

    /// Reads an element segment.
    fn read_elem(&mut self) -> (r: Result<Elem, CommonError>)
        ensures
            reads(
                *old(self),
                *final(self),
                viewed(r),
                parse_elem(old(self).bytes(), old(self).position(), old(self).depth()),
            ),
    {
        proof {
            reveal(parse_elem);
        }
        let table = self.read_var_u32()?;
        let offset = self.read_expr()?;
        let init = self.read_indices()?;
        Ok(Elem { table, offset, init })
    }

    /// Reads a data segment.
    fn read_data(&mut self) -> (r: Result<Data, CommonError>)
        ensures
            reads(
                *old(self),
                *final(self),
                viewed(r),
                parse_data(old(self).bytes(), old(self).position(), old(self).depth()),
            ),
    {
        proof {
            reveal(parse_data);
        }
        let mem = self.read_var_u32()?;
        let offset = self.read_expr()?;
        let init = self.read_bytes()?;
        Ok(Data { mem, offset, init })
    }

    /// Reads a group of locals: how many, and of which type.
    fn read_locals(&mut self) -> (r: Result<Locals, CommonError>)
        ensures
            reads(*old(self), *final(self), r, parse_locals(old(self).bytes(), old(self).position())),
    {
        let n = self.read_var_u32()?;
        let ty = self.read_val_type()?;
        Ok(Locals { n, ty })
    }

    /// Reads the groups of locals of a function.
    pub fn read_locals_vec(&mut self) -> (r: Result<Vec<Locals>, CommonError>)
        ensures
            reads(
                *old(self),
                *final(self),
                viewed(r),
                parse_locals_vec(old(self).bytes(), old(self).position()),
            ),
    {
        let ghost data = self.data@;
        let ghost depth = self.depth;
        let ghost start = self.pos as nat;
        let count = self.read_var_u32()?;
        let ghost first = self.pos as nat;
        let mut v: Vec<Locals> = Vec::new();
        let mut i: u32 = 0;
        while i < count
            invariant
                old(self).data@ == data,
                old(self).pos == start,
                old(self).depth == depth,
                start <= first,
                parse_var_u32(data, start) == Ok::<(u32, nat), CommonError>(
                    (count, (first - start) as nat),
                ),
                self.data@ == data,
                self.depth == depth,
                i <= count,
                first <= self.pos,
                parse_many(locals_item(), data, first, count as nat) == after(
                    v@,
                    (self.pos - first) as nat,
                    parse_many(locals_item(), data, self.pos as nat, (count - i) as nat),
                ),
            decreases count - i,
        {
            proof {
                lemma_parse_many_step(
                    locals_item(),
                    data,
                    self.pos as nat,
                    (count - i) as nat,
                    v@,
                    (self.pos - first) as nat,
                );
            }
            let x = self.read_locals()?;
            v.push(x);
            i = i + 1;
        }
        proof {
            lemma_parse_many_done(locals_item(), data, self.pos as nat, v@, (self.pos - first) as nat);
        }
        Ok(v)
    }

    /// The bytes from the cursor to the end.
    fn rest(&self) -> (v: Vec<u8>)
        ensures
            v@ == self.bytes().skip(self.position() as int),
    {
        proof {
            use_type_invariant(self);
        }
        slice_to_vec(slice_subrange(self.data.as_slice(), self.pos, self.data.len()))
    }

    /// Reads an entry of the code section: a byte vector that holds the
    /// locals and the instructions of a function.
    pub fn read_code(&mut self) -> (r: Result<Code, CommonError>)
        ensures
            reads(*old(self), *final(self), viewed(r), parse_code(old(self).bytes(), old(self).position())),
    {
        proof {
            reveal(parse_code);
        }
        let body = self.read_bytes()?;
        let mut inner = WasmReader::new(body);
        let locals = inner.read_locals_vec()?;
        let expr = inner.read_expr()?;
        let code = Code { locals, expr };
        match code.get_local_count() {
            None => Err(CommonError::TooManyLocals),
            Some(_) => Ok(code),
        }
    }

    /// Reads a custom section: a byte vector that holds a name and bytes.
    pub fn read_custom_sec(&mut self) -> (r: Result<CustomSecs, CommonError>)
        ensures
            reads(
                *old(self),
                *final(self),
                viewed(r),
                parse_custom_sec(old(self).bytes(), old(self).position()),
            ),
    {
        proof {
            reveal(parse_custom_sec);
        }
        let body = self.read_bytes()?;
        let mut inner = WasmReader::new(body);
        let name = inner.read_name()?;
        let bytes = inner.rest();
        Ok(CustomSecs { name, bytes })
    }

    /// Reads the type section: a vector of function types.
    pub fn read_type_sec(&mut self) -> (r: Result<Vec<FuncType>, CommonError>)
        ensures
            reads(
                *old(self),
                *final(self),
                match r {
                    Ok(v) => Ok(views(v)),
                    Err(e) => Err(e),
                },
                parse_type_sec(old(self).bytes(), old(self).position()),
            ),
    {
        let ghost data = self.data@;
        let ghost depth = self.depth;
        let ghost start = self.pos as nat;
        let count = self.read_var_u32()?;
        let ghost first = self.pos as nat;
        let mut v: Vec<FuncType> = Vec::new();
        proof {
            lemma_views_empty(v);
        }
        let mut i: u32 = 0;
        while i < count
            invariant
                old(self).data@ == data,
                old(self).pos == start,
                old(self).depth == depth,
                start <= first,
                parse_var_u32(data, start) == Ok::<(u32, nat), CommonError>(
                    (count, (first - start) as nat),
                ),
                self.data@ == data,
                self.depth == depth,
                i <= count,
                first <= self.pos,
                parse_many(func_type_item(), data, first, count as nat) == after(
                    views(v),
                    (self.pos - first) as nat,
                    parse_many(func_type_item(), data, self.pos as nat, (count - i) as nat),
                ),
            decreases count - i,
        {
            proof {
                lemma_parse_many_step(
                    func_type_item(),
                    data,
                    self.pos as nat,
                    (count - i) as nat,
                    views(v),
                    (self.pos - first) as nat,
                );
            }
            let x = self.read_func_type()?;
            let ghost before = v;
            v.push(x);
            proof {
                lemma_views_push(before, v, x);
            }
            i = i + 1;
        }
        proof {
            lemma_parse_many_done(func_type_item(), data, self.pos as nat, views(v), (self.pos - first) as nat);
        }
        Ok(v)
    }

    /// Reads the import section: a vector of imports.
    pub fn read_import_sec(&mut self) -> (r: Result<Vec<Import>, CommonError>)
        ensures
            reads(
                *old(self),
                *final(self),
                match r {
                    Ok(v) => Ok(views(v)),
                    Err(e) => Err(e),
                },
                parse_import_sec(old(self).bytes(), old(self).position()),
            ),
    {
        let ghost data = self.data@;
        let ghost depth = self.depth;
        let ghost start = self.pos as nat;
        let count = self.read_var_u32()?;
        let ghost first = self.pos as nat;
        let mut v: Vec<Import> = Vec::new();
        proof {
            lemma_views_empty(v);
        }
        let mut i: u32 = 0;
        while i < count
            invariant
                old(self).data@ == data,
                old(self).pos == start,
                old(self).depth == depth,
                start <= first,
                parse_var_u32(data, start) == Ok::<(u32, nat), CommonError>(
                    (count, (first - start) as nat),
                ),
                self.data@ == data,
                self.depth == depth,
                i <= count,
                first <= self.pos,
                parse_many(import_item(), data, first, count as nat) == after(
                    views(v),
                    (self.pos - first) as nat,
                    parse_many(import_item(), data, self.pos as nat, (count - i) as nat),
                ),
            decreases count - i,
        {
            proof {
                lemma_parse_many_step(
                    import_item(),
                    data,
                    self.pos as nat,
                    (count - i) as nat,
                    views(v),
                    (self.pos - first) as nat,
                );
            }
            let x = self.read_import()?;
            let ghost before = v;
            v.push(x);
            proof {
                lemma_views_push(before, v, x);
            }
            i = i + 1;
        }
        proof {
            lemma_parse_many_done(import_item(), data, self.pos as nat, views(v), (self.pos - first) as nat);
        }
        Ok(v)
    }

    /// Reads the table section: a vector of table types.
    pub fn read_table_sec(&mut self) -> (r: Result<Vec<TableType>, CommonError>)
        ensures
            reads(
                *old(self),
                *final(self),
                viewed(r),
                parse_table_sec(old(self).bytes(), old(self).position()),
            ),
    {
        let ghost data = self.data@;
        let ghost depth = self.depth;
        let ghost start = self.pos as nat;
        let count = self.read_var_u32()?;
        let ghost first = self.pos as nat;
        let mut v: Vec<TableType> = Vec::new();
        let mut i: u32 = 0;
        while i < count
            invariant
                old(self).data@ == data,
                old(self).pos == start,
                old(self).depth == depth,
                start <= first,
                parse_var_u32(data, start) == Ok::<(u32, nat), CommonError>(
                    (count, (first - start) as nat),
                ),
                self.data@ == data,
                self.depth == depth,
                i <= count,
                first <= self.pos,
                parse_many(table_type_item(), data, first, count as nat) == after(
                    v@,
                    (self.pos - first) as nat,
                    parse_many(table_type_item(), data, self.pos as nat, (count - i) as nat),
                ),
            decreases count - i,
        {
            proof {
                lemma_parse_many_step(
                    table_type_item(),
                    data,
                    self.pos as nat,
                    (count - i) as nat,
                    v@,
                    (self.pos - first) as nat,
                );
            }
            let x = self.read_table_type()?;
            v.push(x);
            i = i + 1;
        }
        proof {
            lemma_parse_many_done(table_type_item(), data, self.pos as nat, v@, (self.pos - first) as nat);
        }
        Ok(v)
    }

    /// Reads the memory section: a vector of limits.
    pub fn read_mem_sec(&mut self) -> (r: Result<Vec<module::MemType>, CommonError>)
        ensures
            reads(
                *old(self),
                *final(self),
                viewed(r),
                parse_mem_sec(old(self).bytes(), old(self).position()),
            ),
    {
        let ghost data = self.data@;
        let ghost depth = self.depth;
        let ghost start = self.pos as nat;
        let count = self.read_var_u32()?;
        let ghost first = self.pos as nat;
        let mut v: Vec<module::MemType> = Vec::new();
        let mut i: u32 = 0;
        while i < count
            invariant
                old(self).data@ == data,
                old(self).pos == start,
                old(self).depth == depth,
                start <= first,
                parse_var_u32(data, start) == Ok::<(u32, nat), CommonError>(
                    (count, (first - start) as nat),
                ),
                self.data@ == data,
                self.depth == depth,
                i <= count,
                first <= self.pos,
                parse_many(limits_item(), data, first, count as nat) == after(
                    v@,
                    (self.pos - first) as nat,
                    parse_many(limits_item(), data, self.pos as nat, (count - i) as nat),
                ),
            decreases count - i,
        {
            proof {
                lemma_parse_many_step(
                    limits_item(),
                    data,
                    self.pos as nat,
                    (count - i) as nat,
                    v@,
                    (self.pos - first) as nat,
                );
            }
            let x = self.read_limits()?;
            v.push(x);
            i = i + 1;
        }
        proof {
            lemma_parse_many_done(limits_item(), data, self.pos as nat, v@, (self.pos - first) as nat);
        }
        Ok(v)
    }

    /// Reads the global section: a vector of globals.
    pub fn read_global_sec(&mut self) -> (r: Result<Vec<GlobalSec>, CommonError>)
        ensures
            reads(
                *old(self),
                *final(self),
                match r {
                    Ok(v) => Ok(views(v)),
                    Err(e) => Err(e),
                },
                parse_global_sec(old(self).bytes(), old(self).position(), old(self).depth()),
            ),
    {
        let ghost data = self.data@;
        let ghost depth = self.depth;
        let ghost start = self.pos as nat;
        let count = self.read_var_u32()?;
        let ghost first = self.pos as nat;
        let mut v: Vec<GlobalSec> = Vec::new();
        proof {
            lemma_views_empty(v);
        }
        let mut i: u32 = 0;
        while i < count
            invariant
                old(self).data@ == data,
                old(self).pos == start,
                old(self).depth == depth,
                start <= first,
                parse_var_u32(data, start) == Ok::<(u32, nat), CommonError>(
                    (count, (first - start) as nat),
                ),
                self.data@ == data,
                self.depth == depth,
                i <= count,
                first <= self.pos,
                parse_many(global_item(depth as nat), data, first, count as nat) == after(
                    views(v),
                    (self.pos - first) as nat,
                    parse_many(global_item(depth as nat), data, self.pos as nat, (count - i) as nat),
                ),
            decreases count - i,
        {
            proof {
                lemma_parse_many_step(
                    global_item(depth as nat),
                    data,
                    self.pos as nat,
                    (count - i) as nat,
                    views(v),
                    (self.pos - first) as nat,
                );
            }
            let x = self.read_global()?;
            let ghost before = v;
            v.push(x);
            proof {
                lemma_views_push(before, v, x);
            }
            i = i + 1;
        }
        proof {
            lemma_parse_many_done(global_item(depth as nat), data, self.pos as nat, views(v), (self.pos - first) as nat);
        }
        Ok(v)
    }

    /// Reads the export section: a vector of exports.
    pub fn read_export_sec(&mut self) -> (r: Result<Vec<Export>, CommonError>)
        ensures
            reads(
                *old(self),
                *final(self),
                match r {
                    Ok(v) => Ok(views(v)),
                    Err(e) => Err(e),
                },
                parse_export_sec(old(self).bytes(), old(self).position()),
            ),
    {
        let ghost data = self.data@;
        let ghost depth = self.depth;
        let ghost start = self.pos as nat;
        let count = self.read_var_u32()?;
        let ghost first = self.pos as nat;
        let mut v: Vec<Export> = Vec::new();
        proof {
            lemma_views_empty(v);
        }
        let mut i: u32 = 0;
        while i < count
            invariant
                old(self).data@ == data,
                old(self).pos == start,
                old(self).depth == depth,
                start <= first,
                parse_var_u32(data, start) == Ok::<(u32, nat), CommonError>(
                    (count, (first - start) as nat),
                ),
                self.data@ == data,
                self.depth == depth,
                i <= count,
                first <= self.pos,
                parse_many(export_item(), data, first, count as nat) == after(
                    views(v),
                    (self.pos - first) as nat,
                    parse_many(export_item(), data, self.pos as nat, (count - i) as nat),
                ),
            decreases count - i,
        {
            proof {
                lemma_parse_many_step(
                    export_item(),
                    data,
                    self.pos as nat,
                    (count - i) as nat,
                    views(v),
                    (self.pos - first) as nat,
                );
            }
            let x = self.read_export()?;
            let ghost before = v;
            v.push(x);
            proof {
                lemma_views_push(before, v, x);
            }
            i = i + 1;
        }
        proof {
            lemma_parse_many_done(export_item(), data, self.pos as nat, views(v), (self.pos - first) as nat);
        }
        Ok(v)
    }

    /// Reads the element section: a vector of element segments.
    pub fn read_elem_sec(&mut self) -> (r: Result<Vec<Elem>, CommonError>)
        ensures
            reads(
                *old(self),
                *final(self),
                match r {
                    Ok(v) => Ok(views(v)),
                    Err(e) => Err(e),
                },
                parse_elem_sec(old(self).bytes(), old(self).position(), old(self).depth()),
            ),
    {
        let ghost data = self.data@;
        let ghost depth = self.depth;
        let ghost start = self.pos as nat;
        let count = self.read_var_u32()?;
        let ghost first = self.pos as nat;
        let mut v: Vec<Elem> = Vec::new();
        proof {
            lemma_views_empty(v);
        }
        let mut i: u32 = 0;
        while i < count
            invariant
                old(self).data@ == data,
                old(self).pos == start,
                old(self).depth == depth,
                start <= first,
                parse_var_u32(data, start) == Ok::<(u32, nat), CommonError>(
                    (count, (first - start) as nat),
                ),
                self.data@ == data,
                self.depth == depth,
                i <= count,
                first <= self.pos,
                parse_many(elem_item(depth as nat), data, first, count as nat) == after(
                    views(v),
                    (self.pos - first) as nat,
                    parse_many(elem_item(depth as nat), data, self.pos as nat, (count - i) as nat),
                ),
            decreases count - i,
        {
            proof {
                lemma_parse_many_step(
                    elem_item(depth as nat),
                    data,
                    self.pos as nat,
                    (count - i) as nat,
                    views(v),
                    (self.pos - first) as nat,
                );
            }
            let x = self.read_elem()?;
            let ghost before = v;
            v.push(x);
            proof {
                lemma_views_push(before, v, x);
            }
            i = i + 1;
        }
        proof {
            lemma_parse_many_done(elem_item(depth as nat), data, self.pos as nat, views(v), (self.pos - first) as nat);
        }
        Ok(v)
    }

    /// Reads the code section: a vector of function bodies.
    pub fn read_code_sec(&mut self) -> (r: Result<Vec<Code>, CommonError>)
        ensures
            reads(
                *old(self),
                *final(self),
                match r {
                    Ok(v) => Ok(views(v)),
                    Err(e) => Err(e),
                },
                parse_code_sec(old(self).bytes(), old(self).position()),
            ),
    {
        let ghost data = self.data@;
        let ghost depth = self.depth;
        let ghost start = self.pos as nat;
        let count = self.read_var_u32()?;
        let ghost first = self.pos as nat;
        let mut v: Vec<Code> = Vec::new();
        proof {
            lemma_views_empty(v);
        }
        let mut i: u32 = 0;
        while i < count
            invariant
                old(self).data@ == data,
                old(self).pos == start,
                old(self).depth == depth,
                start <= first,
                parse_var_u32(data, start) == Ok::<(u32, nat), CommonError>(
                    (count, (first - start) as nat),
                ),
                self.data@ == data,
                self.depth == depth,
                i <= count,
                first <= self.pos,
                parse_many(code_item(), data, first, count as nat) == after(
                    views(v),
                    (self.pos - first) as nat,
                    parse_many(code_item(), data, self.pos as nat, (count - i) as nat),
                ),
            decreases count - i,
        {
            proof {
                lemma_parse_many_step(
                    code_item(),
                    data,
                    self.pos as nat,
                    (count - i) as nat,
                    views(v),
                    (self.pos - first) as nat,
                );
            }
            let x = self.read_code()?;
            let ghost before = v;
            v.push(x);
            proof {
                lemma_views_push(before, v, x);
            }
            i = i + 1;
        }
        proof {
            lemma_parse_many_done(code_item(), data, self.pos as nat, views(v), (self.pos - first) as nat);
        }
        Ok(v)
    }

    /// Reads the data section: a vector of data segments.
    pub fn read_data_sec(&mut self) -> (r: Result<Vec<Data>, CommonError>)
        ensures
            reads(
                *old(self),
                *final(self),
                match r {
                    Ok(v) => Ok(views(v)),
                    Err(e) => Err(e),
                },
                parse_data_sec(old(self).bytes(), old(self).position(), old(self).depth()),
            ),
    {
        let ghost data = self.data@;
        let ghost depth = self.depth;
        let ghost start = self.pos as nat;
        let count = self.read_var_u32()?;
        let ghost first = self.pos as nat;
        let mut v: Vec<Data> = Vec::new();
        proof {
            lemma_views_empty(v);
        }
        let mut i: u32 = 0;
        while i < count
            invariant
                old(self).data@ == data,
                old(self).pos == start,
                old(self).depth == depth,
                start <= first,
                parse_var_u32(data, start) == Ok::<(u32, nat), CommonError>(
                    (count, (first - start) as nat),
                ),
                self.data@ == data,
                self.depth == depth,
                i <= count,
                first <= self.pos,
                parse_many(data_item(depth as nat), data, first, count as nat) == after(
                    views(v),
                    (self.pos - first) as nat,
                    parse_many(data_item(depth as nat), data, self.pos as nat, (count - i) as nat),
                ),
            decreases count - i,
        {
            proof {
                lemma_parse_many_step(
                    data_item(depth as nat),
                    data,
                    self.pos as nat,
                    (count - i) as nat,
                    views(v),
                    (self.pos - first) as nat,
                );
            }
            let x = self.read_data()?;
            let ghost before = v;
            v.push(x);
            proof {
                lemma_views_push(before, v, x);
            }
            i = i + 1;
        }
        proof {
            lemma_parse_many_done(data_item(depth as nat), data, self.pos as nat, views(v), (self.pos - first) as nat);
        }
        Ok(v)
    }

    /// Reads the start section: the index of a function.
    pub fn read_start_sec(&mut self) -> (r: Result<module::FuncIdx, CommonError>)
        ensures
            reads(*old(self), *final(self), r, parse_var_u32(old(self).bytes(), old(self).position())),
    {
        self.read_var_u32()
    }

    /// Reads the payload of the section with the id `sec_id` into `m`.
    pub fn read_non_custom_sec(&mut self, sec_id: u8, m: &mut Module) -> (r: Result<(), CommonError>)
        ensures
            final(self).bytes() == old(self).bytes(),
            match r {
                Ok(_) => {
                    &&& parse_section(
                        sec_id,
                        old(self).bytes(),
                        old(self).position(),
                        old(self).depth(),
                        old(m)@,
                    ) == Ok::<(ModuleView, nat), CommonError>(
                        (final(m)@, (final(self).position() - old(self).position()) as nat),
                    )
                    &&& final(self).position() >= old(self).position()
                    &&& final(self).depth() == old(self).depth()
                },
                Err(e) => parse_section(
                    sec_id,
                    old(self).bytes(),
                    old(self).position(),
                    old(self).depth(),
                    old(m)@,
                ) == Err::<(ModuleView, nat), CommonError>(e),
            },
    {
        proof {
            reveal(parse_section);
        }
        if sec_id == module::SEC_TYPE_ID {
            let v = self.read_type_sec()?;
            m.type_sec = Some(v);
        } else if sec_id == module::SEC_IMPORT_ID {
            let v = self.read_import_sec()?;
            m.import_sec = Some(v);
        } else if sec_id == module::SEC_FUNC_ID {
            let v = self.read_indices()?;
            m.func_sec = Some(v);
        } else if sec_id == module::SEC_TABLE_ID {
            let v = self.read_table_sec()?;
            m.table_sec = Some(v);
        } else if sec_id == module::SEC_MEM_ID {
            let v = self.read_mem_sec()?;
            m.mem_sec = Some(v);
        } else if sec_id == module::SEC_GLOBAL_ID {
            let v = self.read_global_sec()?;
            m.global_sec = Some(v);
        } else if sec_id == module::SEC_EXPORT_ID {
            let v = self.read_export_sec()?;
            m.export_sec = Some(v);
        } else if sec_id == module::SEC_START_ID {
            let v = self.read_start_sec()?;
            m.start_sec = Some(v);
        } else if sec_id == module::SEC_ELEM_ID {
            let v = self.read_elem_sec()?;
            m.elem_sec = Some(v);
        } else if sec_id == module::SEC_CODE_ID {
            let v = self.read_code_sec()?;
            m.code_sec = Some(v);
        } else if sec_id == module::SEC_DATA_ID {
            let v = self.read_data_sec()?;
            m.data_sec = Some(v);
        }
        Ok(())
    }

    /// Reads a module: the magic number, the version, and sections up to
    /// the end of the bytes.
    pub fn read_sections(&mut self) -> (r: Result<Module, CommonError>)
        ensures
            final(self).bytes() == old(self).bytes(),
            match r {
                Ok(m) => {
                    &&& parse_module(old(self).bytes(), old(self).position(), old(self).depth())
                        == Ok::<ModuleView, CommonError>(m@)
                    &&& final(self).position() == final(self).bytes().len()
                    &&& final(self).depth() == old(self).depth()
                },
                Err(e) => parse_module(old(self).bytes(), old(self).position(), old(self).depth())
                    == Err::<ModuleView, CommonError>(e),
            },
    {
        let ghost data = self.data@;
        let ghost depth = self.depth as nat;
        let ghost start = self.pos as nat;
        let magic = self.read_u32()?;
        let version = self.read_u32()?;
        let mut m = Module {
            magic,
            version,
            custom_secs: None,
            type_sec: None,
            import_sec: None,
            func_sec: None,
            table_sec: None,
            mem_sec: None,
            global_sec: None,
            export_sec: None,
            start_sec: None,
            elem_sec: None,
            code_sec: None,
            data_sec: None,
        };
        let mut prev_sec_id: u8 = 0;
        proof {
            use_type_invariant(&*self);
        }
        while self.pos < self.data.len()
            invariant
                old(self).data@ == data,
                old(self).pos == start,
                old(self).depth == depth,
                self.data@ == data,
                self.depth == depth,
                self.pos <= data.len(),
                parse_module(data, start, depth) == parse_sections(
                    data,
                    self.pos as nat,
                    depth,
                    prev_sec_id,
                    m@,
                ),
            decreases data.len() - self.pos,
        {
            let id = self.read_byte()?;
            if id == module::SEC_CUSTOM_ID {
                let c = self.read_custom_sec()?;
                let ghost before_m = m@;
                let mut customs = match m.custom_secs.take() {
                    Some(v) => v,
                    None => Vec::new(),
                };
                let ghost before = customs;
                customs.push(c);
                proof {
                    lemma_views_push(before, customs, c);
                    if before@.len() == 0 {
                        lemma_views_empty(before);
                        assert(Seq::<CustomSecsView>::empty().push(c@) =~= seq![c@]);
                    }
                }
                m.custom_secs = Some(customs);
                assert(m@ == with_custom_sec(before_m, c@));
            } else {
                if id > module::SEC_DATA_ID {
                    return Err(CommonError::InvalidSectionId);
                }
                if id <= prev_sec_id {
                    return Err(CommonError::SectionOrder);
                }
                let size = self.read_var_u32()?;
                let before = self.pos;
                self.read_non_custom_sec(id, &mut m)?;
                if self.pos - before != size as usize {
                    return Err(CommonError::SectionSizeMismatch);
                }
                prev_sec_id = id;
            }
            proof {
                use_type_invariant(&*self);
            }
        }
        Ok(m)
    }

    /// Reads a module, as `read_sections` does.
    pub fn read_module(&mut self) -> (r: Result<Module, CommonError>)
        ensures
            final(self).bytes() == old(self).bytes(),
            match r {
                Ok(m) => {
                    &&& parse_module(old(self).bytes(), old(self).position(), old(self).depth())
                        == Ok::<ModuleView, CommonError>(m@)
                    &&& final(self).position() == final(self).bytes().len()
                    &&& final(self).depth() == old(self).depth()
                },
                Err(e) => parse_module(old(self).bytes(), old(self).position(), old(self).depth())
                    == Err::<ModuleView, CommonError>(e),
            },
    {
        self.read_sections()
    }
}

/// Decodes a module from its bytes.
pub fn decode(data: Vec<u8>) -> (r: Result<Module, CommonError>)
    ensures
        match r {
            Ok(m) => parse_module(data@, 0, 0) == Ok::<ModuleView, CommonError>(m@),
            Err(e) => parse_module(data@, 0, 0) == Err::<ModuleView, CommonError>(e),
        },
{
    let mut reader = WasmReader::new(data);
    reader.read_module()
}

} // verus!

//! Decoded instructions and their immediate arguments.

use vstd::prelude::*;
use vstd::std_specs::cmp::PartialEqSpecImpl;
use crate::binary::opcodes::{name_of, opcode_name};
use crate::common::float_bits::{eq32, eq64, f32_eq, f64_eq};

verus! {

/// An instruction sequence, without the opcode that ended it.
pub type Expr = Vec<Instruction>;

/// One instruction: its opcode and the immediate argument that the opcode
/// calls for.
#[derive(Debug)]
pub struct Instruction {
    pub opcode: u8,
    pub args: Option<ArgsEnum>,
}

/// The block type and the body of a `block` or a `loop`.
#[derive(Debug)]
pub struct BlockArgs {
    pub bt: i32,
    pub instrs: Vec<Instruction>,
}

/// The block type and the two branches of an `if`; the second is absent
/// where the instruction has no `else`.
#[derive(Debug)]
pub struct IfArgs {
    pub bt: i32,
    pub instrs1: Vec<Instruction>,
    pub instrs2: Option<Vec<Instruction>>,
}

/// The labels of a `br_table` and its default label.
#[derive(Clone, Debug)]
pub struct BrTableArgs {
    pub labels: Vec<u32>,
    pub default: u32,
}

/// The alignment hint and the offset of a load or a store.
#[derive(Clone, Copy, Debug, PartialEq, Eq, Structural)]
pub struct MemArg {
    pub align: u32,
    pub offset: u32,
}

/// A tagged value: the immediate argument of an instruction, or a value on
/// the operand stack. A floating-point value is held as its IEEE 754 bit
/// pattern.
#[derive(Debug)]
pub enum ArgsEnum {
    BlockArgs(BlockArgs),
    IfArgs(IfArgs),
    BrTableArgs(BrTableArgs),
    MemArg(MemArg),
    Bool(bool),
    U8(u8),
    I8(i8),
    U16(u16),
    I16(i16),
    U32(u32),
    U64(u64),
    I32(i32),
    I64(i64),
    F32(u32),
    F64(u64),
    NONE,
}

/// The mathematical content of an `Instruction`.
pub struct InstructionView {
    pub opcode: u8,
    pub args: Option<ArgsView>,
}

/// The mathematical content of an `ArgsEnum`.
pub enum ArgsView {
    BlockArgs { bt: i32, instrs: Seq<InstructionView> },
    IfArgs { bt: i32, instrs1: Seq<InstructionView>, instrs2: Option<Seq<InstructionView>> },
    BrTableArgs { labels: Seq<u32>, default: u32 },
    MemArg(MemArg),
    Bool(bool),
    U8(u8),
    I8(i8),
    U16(u16),
    I16(i16),
    U32(u32),
    U64(u64),
    I32(i32),
    I64(i64),
    F32(u32),
    F64(u64),
    NONE,
}

/// The content of an instruction.
pub open spec fn instr_view(i: Instruction) -> InstructionView
    decreases i,
{
    InstructionView {
        opcode: i.opcode,
        args: match i.args {
            Some(a) => Some(args_view(a)),
            None => None,
        },
    }
}

/// The content of an instruction sequence.
pub open spec fn expr_view(v: Vec<Instruction>) -> Seq<InstructionView>
    decreases v,
{
    Seq::new(
        v@.len(),
        |k: int|
            if 0 <= k < v@.len() {
                instr_view(v@[k])
            } else {
                arbitrary()
            },
    )
}

/// The content of an argument.
pub open spec fn args_view(a: ArgsEnum) -> ArgsView
    decreases a,
{
    match a {
        ArgsEnum::BlockArgs(b) => ArgsView::BlockArgs { bt: b.bt, instrs: expr_view(b.instrs) },
        ArgsEnum::IfArgs(b) => ArgsView::IfArgs {
            bt: b.bt,
            instrs1: expr_view(b.instrs1),
            instrs2: match b.instrs2 {
                Some(e) => Some(expr_view(e)),
                None => None,
            },
        },
        ArgsEnum::BrTableArgs(b) => ArgsView::BrTableArgs { labels: b.labels@, default: b.default },
        ArgsEnum::MemArg(m) => ArgsView::MemArg(m),
        ArgsEnum::Bool(v) => ArgsView::Bool(v),
        ArgsEnum::U8(v) => ArgsView::U8(v),
        ArgsEnum::I8(v) => ArgsView::I8(v),
        ArgsEnum::U16(v) => ArgsView::U16(v),
        ArgsEnum::I16(v) => ArgsView::I16(v),
        ArgsEnum::U32(v) => ArgsView::U32(v),
        ArgsEnum::U64(v) => ArgsView::U64(v),
        ArgsEnum::I32(v) => ArgsView::I32(v),
        ArgsEnum::I64(v) => ArgsView::I64(v),
        ArgsEnum::F32(v) => ArgsView::F32(v),
        ArgsEnum::F64(v) => ArgsView::F64(v),
        ArgsEnum::NONE => ArgsView::NONE,
    }
}

/// The place of the variant of `a` among the variants: two values have one
/// tag where this number is the same for both.
pub open spec fn tag_index(a: ArgsEnum) -> int {
    match a {
        ArgsEnum::BlockArgs(_) => 0,
        ArgsEnum::IfArgs(_) => 1,
        ArgsEnum::BrTableArgs(_) => 2,
        ArgsEnum::MemArg(_) => 3,
        ArgsEnum::Bool(_) => 4,
        ArgsEnum::U8(_) => 5,
        ArgsEnum::I8(_) => 6,
        ArgsEnum::U16(_) => 7,
        ArgsEnum::I16(_) => 8,
        ArgsEnum::U32(_) => 9,
        ArgsEnum::U64(_) => 10,
        ArgsEnum::I32(_) => 11,
        ArgsEnum::I64(_) => 12,
        ArgsEnum::F32(_) => 13,
        ArgsEnum::F64(_) => 14,
        ArgsEnum::NONE => 15,
    }
}

/// The name of the variant of `a`.
pub open spec fn variant_name(a: ArgsEnum) -> Seq<char> {
    match a {
        ArgsEnum::BlockArgs(_) => "BlockArgs"@,
        ArgsEnum::IfArgs(_) => "IfArgs"@,
        ArgsEnum::BrTableArgs(_) => "BrTableArgs"@,
        ArgsEnum::MemArg(_) => "MemArg"@,
        ArgsEnum::Bool(_) => "Bool"@,
        ArgsEnum::U8(_) => "U8"@,
        ArgsEnum::U32(_) => "U32"@,
        ArgsEnum::U64(_) => "U64"@,
        ArgsEnum::I32(_) => "I32"@,
        ArgsEnum::I64(_) => "I64"@,
        ArgsEnum::F32(_) => "F32"@,
        ArgsEnum::F64(_) => "F64"@,
        ArgsEnum::I8(_) => "I8"@,
        ArgsEnum::I16(_) => "I16"@,
        ArgsEnum::U16(_) => "U16"@,
        ArgsEnum::NONE => "None"@,
    }
}

/// When two arguments are equal: both are scalars of one variant with equal
/// values, floating-point values being compared as IEEE 754 compares them,
/// or both are `NONE`. An argument that holds instructions, labels or a
/// memory argument equals nothing.
pub open spec fn args_eq(x: ArgsEnum, y: ArgsEnum) -> bool {
    match (x, y) {
        (ArgsEnum::Bool(a), ArgsEnum::Bool(b)) => a == b,
        (ArgsEnum::U8(a), ArgsEnum::U8(b)) => a == b,
        (ArgsEnum::I8(a), ArgsEnum::I8(b)) => a == b,
        (ArgsEnum::U16(a), ArgsEnum::U16(b)) => a == b,
        (ArgsEnum::I16(a), ArgsEnum::I16(b)) => a == b,
        (ArgsEnum::U32(a), ArgsEnum::U32(b)) => a == b,
        (ArgsEnum::U64(a), ArgsEnum::U64(b)) => a == b,
        (ArgsEnum::I32(a), ArgsEnum::I32(b)) => a == b,
        (ArgsEnum::I64(a), ArgsEnum::I64(b)) => a == b,
        (ArgsEnum::F32(a), ArgsEnum::F32(b)) => f32_eq(a, b),
        (ArgsEnum::F64(a), ArgsEnum::F64(b)) => f64_eq(a, b),
        (ArgsEnum::NONE, ArgsEnum::NONE) => true,
        _ => false,
    }
}

impl ArgsEnum {
    /// The value of a `I8`, and `None` for any other variant.
    pub fn get_i8(&self) -> (r: Option<i8>)
        ensures
            r == match *self {
                ArgsEnum::I8(v) => Some(v),
                _ => None::<i8>,
            },
    {
        match self {
            ArgsEnum::I8(v) => Some(*v),
            _ => None,
        }
    }

    /// The value of a `U16`, and `None` for any other variant.
    pub fn get_u16(&self) -> (r: Option<u16>)
        ensures
            r == match *self {
                ArgsEnum::U16(v) => Some(v),
                _ => None::<u16>,
            },
    {
        match self {
            ArgsEnum::U16(v) => Some(*v),
            _ => None,
        }
    }

    /// The value of a `I16`, and `None` for any other variant.
    pub fn get_i16(&self) -> (r: Option<i16>)
        ensures
            r == match *self {
                ArgsEnum::I16(v) => Some(v),
                _ => None::<i16>,
            },
    {
        match self {
            ArgsEnum::I16(v) => Some(*v),
            _ => None,
        }
    }

    /// The value of a `I32`, and `None` for any other variant.
    pub fn get_i32(&self) -> (r: Option<i32>)
        ensures
            r == match *self {
                ArgsEnum::I32(v) => Some(v),
                _ => None::<i32>,
            },
    {
        match self {
            ArgsEnum::I32(v) => Some(*v),
            _ => None,
        }
    }

    /// The value of a `U32`, and `None` for any other variant.
    pub fn get_u32(&self) -> (r: Option<u32>)
        ensures
            r == match *self {
                ArgsEnum::U32(v) => Some(v),
                _ => None::<u32>,
            },
    {
        match self {
            ArgsEnum::U32(v) => Some(*v),
            _ => None,
        }
    }

    /// The value of a `U64`, and `None` for any other variant.
    pub fn get_u64(&self) -> (r: Option<u64>)
        ensures
            r == match *self {
                ArgsEnum::U64(v) => Some(v),
                _ => None::<u64>,
            },
    {
        match self {
            ArgsEnum::U64(v) => Some(*v),
            _ => None,
        }
    }

    /// The value of a `U8`, and `None` for any other variant.
    pub fn get_u8(&self) -> (r: Option<u8>)
        ensures
            r == match *self {
                ArgsEnum::U8(v) => Some(v),
                _ => None::<u8>,
            },
    {
        match self {
            ArgsEnum::U8(v) => Some(*v),
            _ => None,
        }
    }

    /// The value of a `I64`, and `None` for any other variant.
    pub fn get_i64(&self) -> (r: Option<i64>)
        ensures
            r == match *self {
                ArgsEnum::I64(v) => Some(v),
                _ => None::<i64>,
            },
    {
        match self {
            ArgsEnum::I64(v) => Some(*v),
            _ => None,
        }
    }

    /// The bit pattern of the binary64 value of a `F64`, and `None` for any other variant.
    pub fn get_f64(&self) -> (r: Option<u64>)
        ensures
            r == match *self {
                ArgsEnum::F64(v) => Some(v),
                _ => None::<u64>,
            },
    {
        match self {
            ArgsEnum::F64(v) => Some(*v),
            _ => None,
        }
    }

    /// The bit pattern of the binary32 value of a `F32`, and `None` for any other variant.
    pub fn get_f32(&self) -> (r: Option<u32>)
        ensures
            r == match *self {
                ArgsEnum::F32(v) => Some(v),
                _ => None::<u32>,
            },
    {
        match self {
            ArgsEnum::F32(v) => Some(*v),
            _ => None,
        }
    }

    /// The value of a `Bool`, and `None` for any other variant.
    pub fn get_bool(&self) -> (r: Option<bool>)
        ensures
            r == match *self {
                ArgsEnum::Bool(v) => Some(v),
                _ => None::<bool>,
            },
    {
        match self {
            ArgsEnum::Bool(v) => Some(*v),
            _ => None,
        }
    }

    /// The `BlockArgs` of a `BlockArgs`, and `None` for any other variant.
    pub fn get_block_args(&self) -> (r: Option<&BlockArgs>)
        ensures
            r == match self {
                ArgsEnum::BlockArgs(v) => Some(v),
                _ => None::<&BlockArgs>,
            },
    {
        match self {
            ArgsEnum::BlockArgs(v) => Some(v),
            _ => None,
        }
    }

    /// The `IfArgs` of a `IfArgs`, and `None` for any other variant.
    pub fn get_if_args(&self) -> (r: Option<&IfArgs>)
        ensures
            r == match self {
                ArgsEnum::IfArgs(v) => Some(v),
                _ => None::<&IfArgs>,
            },
    {
        match self {
            ArgsEnum::IfArgs(v) => Some(v),
            _ => None,
        }
    }

    /// The `MemArg` of a `MemArg`, and `None` for any other variant.
    pub fn get_mem_args(&self) -> (r: Option<&MemArg>)
        ensures
            r == match self {
                ArgsEnum::MemArg(v) => Some(v),
                _ => None::<&MemArg>,
            },
    {
        match self {
            ArgsEnum::MemArg(v) => Some(v),
            _ => None,
        }
    }

    /// The place of the variant among the variants.
    pub fn tag(&self) -> (r: u8)
        ensures
            r == tag_index(*self),
    {
        match self {
            ArgsEnum::BlockArgs(_) => 0,
            ArgsEnum::IfArgs(_) => 1,
            ArgsEnum::BrTableArgs(_) => 2,
            ArgsEnum::MemArg(_) => 3,
            ArgsEnum::Bool(_) => 4,
            ArgsEnum::U8(_) => 5,
            ArgsEnum::I8(_) => 6,
            ArgsEnum::U16(_) => 7,
            ArgsEnum::I16(_) => 8,
            ArgsEnum::U32(_) => 9,
            ArgsEnum::U64(_) => 10,
            ArgsEnum::I32(_) => 11,
            ArgsEnum::I64(_) => 12,
            ArgsEnum::F32(_) => 13,
            ArgsEnum::F64(_) => 14,
            ArgsEnum::NONE => 15,
        }
    }

    /// The name of the variant.
    pub fn get_type(&self) -> (r: &'static str)
        ensures
            r@ == variant_name(*self),
    {
        match self {
            ArgsEnum::BlockArgs(_) => "BlockArgs",
            ArgsEnum::IfArgs(_) => "IfArgs",
            ArgsEnum::BrTableArgs(_) => "BrTableArgs",
            ArgsEnum::MemArg(_) => "MemArg",
            ArgsEnum::Bool(_) => "Bool",
            ArgsEnum::U8(_) => "U8",
            ArgsEnum::U32(_) => "U32",
            ArgsEnum::U64(_) => "U64",
            ArgsEnum::I32(_) => "I32",
            ArgsEnum::I64(_) => "I64",
            ArgsEnum::F32(_) => "F32",
            ArgsEnum::F64(_) => "F64",
            ArgsEnum::I8(_) => "I8",
            ArgsEnum::I16(_) => "I16",
            ArgsEnum::U16(_) => "U16",
            ArgsEnum::NONE => "None",
        }
    }
}

impl PartialEq for ArgsEnum {
    fn eq(&self, other: &Self) -> (r: bool) {
        match (self, other) {
            (ArgsEnum::Bool(a), ArgsEnum::Bool(b)) => *a == *b,
            (ArgsEnum::U8(a), ArgsEnum::U8(b)) => *a == *b,
            (ArgsEnum::I8(a), ArgsEnum::I8(b)) => *a == *b,
            (ArgsEnum::U16(a), ArgsEnum::U16(b)) => *a == *b,
            (ArgsEnum::I16(a), ArgsEnum::I16(b)) => *a == *b,
            (ArgsEnum::U32(a), ArgsEnum::U32(b)) => *a == *b,
            (ArgsEnum::U64(a), ArgsEnum::U64(b)) => *a == *b,
            (ArgsEnum::I32(a), ArgsEnum::I32(b)) => *a == *b,
            (ArgsEnum::I64(a), ArgsEnum::I64(b)) => *a == *b,
            (ArgsEnum::F32(a), ArgsEnum::F32(b)) => eq32(*a, *b),
            (ArgsEnum::F64(a), ArgsEnum::F64(b)) => eq64(*a, *b),
            (ArgsEnum::NONE, ArgsEnum::NONE) => true,
            _ => false,
        }
    }
}

impl PartialEqSpecImpl for ArgsEnum {
    open spec fn obeys_eq_spec() -> bool {
        true
    }

    open spec fn eq_spec(&self, other: &Self) -> bool {
        args_eq(*self, *other)
    }
}

impl Instruction {
    /// The mnemonic of the opcode; `None` where the opcode is none of the
    /// instruction set.
    pub fn get_op_name(&self) -> (r: Option<&'static str>)
        ensures
            match r {
                Some(name) => name_of(self.opcode) == Some(name@),
                None => name_of(self.opcode) is None,
            },
    {
        opcode_name(self.opcode)
    }

    /// The instruction with the given opcode and argument.
    pub fn new(opcode: u8, data: ArgsEnum) -> (r: Instruction)
        ensures
            r.opcode == opcode,
            r.args == Some(data),
    {
        Instruction { opcode, args: Some(data) }
    }
}

/// The content of an argument that may be absent.
pub open spec fn opt_args_view(a: Option<ArgsEnum>) -> Option<ArgsView> {
    match a {
        Some(a) => Some(args_view(a)),
        None => None,
    }
}

/// The content of a sequence with one more instruction at its end.
pub proof fn lemma_expr_view_push(before: Vec<Instruction>, now: Vec<Instruction>, i: Instruction)
    requires
        now@ == before@.push(i),
    ensures
        expr_view(now) == expr_view(before).push(instr_view(i)),
{
    assert(expr_view(now) =~= expr_view(before).push(instr_view(i)));
}

/// The content of an empty sequence.
pub proof fn lemma_expr_view_empty(v: Vec<Instruction>)
    requires
        v@.len() == 0,
    ensures
        expr_view(v) == Seq::<InstructionView>::empty(),
{
    assert(expr_view(v) =~= Seq::<InstructionView>::empty());
}

/// A copy of `v` with the same content.
pub fn clone_expr(v: &Vec<Instruction>) -> (r: Vec<Instruction>)
    ensures
        expr_view(r) == expr_view(*v),
    decreases v,
{
    let mut out: Vec<Instruction> = Vec::new();
    let mut i: usize = 0;
    while i < v.len()
        invariant
            i <= v.len(),
            out@.len() == i,
            forall|k: int| 0 <= k < i ==> instr_view(out@[k]) == instr_view(v@[k]),
        decreases v.len() - i,
    {
        out.push(clone_instruction(&v[i]));
        i = i + 1;
    }
    assert(expr_view(out) =~= expr_view(*v));
    out
}

/// A copy of `i` with the same content.
pub fn clone_instruction(i: &Instruction) -> (r: Instruction)
    ensures
        instr_view(r) == instr_view(*i),
    decreases i,
{
    Instruction {
        opcode: i.opcode,
        args: match &i.args {
            Some(a) => Some(clone_args(a)),
            None => None,
        },
    }
}

/// A copy of `a` with the same content.
pub fn clone_args(a: &ArgsEnum) -> (r: ArgsEnum)
    ensures
        args_view(r) == args_view(*a),
    decreases a,
{
    match a {
        ArgsEnum::BlockArgs(b) => ArgsEnum::BlockArgs(
            BlockArgs { bt: b.bt, instrs: clone_expr(&b.instrs) },
        ),
        ArgsEnum::IfArgs(b) => ArgsEnum::IfArgs(
            IfArgs {
                bt: b.bt,
                instrs1: clone_expr(&b.instrs1),
                instrs2: match &b.instrs2 {
                    Some(e) => Some(clone_expr(e)),
                    None => None,
                },
            },
        ),
        ArgsEnum::BrTableArgs(b) => {
            let labels = b.labels.clone();
            assert(labels@ =~= b.labels@);
            ArgsEnum::BrTableArgs(BrTableArgs { labels, default: b.default })
        },
        ArgsEnum::MemArg(m) => ArgsEnum::MemArg(*m),
        ArgsEnum::Bool(x) => ArgsEnum::Bool(*x),
        ArgsEnum::U8(x) => ArgsEnum::U8(*x),
        ArgsEnum::I8(x) => ArgsEnum::I8(*x),
        ArgsEnum::U16(x) => ArgsEnum::U16(*x),
        ArgsEnum::I16(x) => ArgsEnum::I16(*x),
        ArgsEnum::U32(x) => ArgsEnum::U32(*x),
        ArgsEnum::U64(x) => ArgsEnum::U64(*x),
        ArgsEnum::I32(x) => ArgsEnum::I32(*x),
        ArgsEnum::I64(x) => ArgsEnum::I64(*x),
        ArgsEnum::F32(x) => ArgsEnum::F32(*x),
        ArgsEnum::F64(x) => ArgsEnum::F64(*x),
        ArgsEnum::NONE => ArgsEnum::NONE,
    }
}

impl Clone for Instruction {
    fn clone(&self) -> (r: Self)
        ensures
            instr_view(r) == instr_view(*self),
    {
        clone_instruction(self)
    }
}

impl Clone for ArgsEnum {
    fn clone(&self) -> (r: Self)
        ensures
            args_view(r) == args_view(*self),
    {
        clone_args(self)
    }
}

impl Clone for BlockArgs {
    fn clone(&self) -> (r: Self)
        ensures
            r.bt == self.bt,
            expr_view(r.instrs) == expr_view(self.instrs),
    {
        BlockArgs { bt: self.bt, instrs: clone_expr(&self.instrs) }
    }
}

impl Clone for IfArgs {
    fn clone(&self) -> (r: Self)
        ensures
            args_view(ArgsEnum::IfArgs(r)) == args_view(ArgsEnum::IfArgs(*self)),
    {
        IfArgs {
            bt: self.bt,
            instrs1: clone_expr(&self.instrs1),
            instrs2: match &self.instrs2 {
                Some(e) => Some(clone_expr(e)),
                None => None,
            },
        }
    }
}

} // verus!

//! The decoded module: its sections and what they hold.

use vstd::prelude::*;
use crate::binary::instruction::{Expr, expr_view, InstructionView};

verus! {

/// The first four bytes of a module, `\0asm`, read as a little-endian word.
pub const MAGIC_NUMBER: u32 = 0x6D73_6100;

/// The version of the format that is in use.
pub const VERSION: u32 = 1;

/// The tag of an import description that names a function type.
pub const IMPORT_TAG_FUNC: u8 = 0;
/// The tag of an import description that holds a table type.
pub const IMPORT_TAG_TABLE: u8 = 1;
/// The tag of an import description that holds a memory type.
pub const IMPORT_TAG_MEM: u8 = 2;
/// The tag of an import description that holds a global type.
pub const IMPORT_TAG_GLOBAL: u8 = 3;

/// The tag of an export that is a function.
pub const EXPORT_TAG_FUNC: u8 = 0;
/// The tag of an export that is a table.
pub const EXPORT_TAG_TABLE: u8 = 1;
/// The tag of an export that is a memory.
pub const EXPORT_TAG_MEM: u8 = 2;
/// The tag of an export that is a global.
pub const EXPORT_TAG_GLOBAL: u8 = 3;

/// The id of a custom section.
pub const SEC_CUSTOM_ID: u8 = 0;
/// The id of the type section.
pub const SEC_TYPE_ID: u8 = 1;
/// The id of the import section.
pub const SEC_IMPORT_ID: u8 = 2;
/// The id of the function section.
pub const SEC_FUNC_ID: u8 = 3;
/// The id of the table section.
pub const SEC_TABLE_ID: u8 = 4;
/// The id of the memory section.
pub const SEC_MEM_ID: u8 = 5;
/// The id of the global section.
pub const SEC_GLOBAL_ID: u8 = 6;
/// The id of the export section.
pub const SEC_EXPORT_ID: u8 = 7;
/// The id of the start section.
pub const SEC_START_ID: u8 = 8;
/// The id of the element section.
pub const SEC_ELEM_ID: u8 = 9;
/// The id of the code section.
pub const SEC_CODE_ID: u8 = 10;
/// The id of the data section, the largest id.
pub const SEC_DATA_ID: u8 = 11;

/// The value type of 32-bit integers.
pub const VAL_TYPE_I32: u8 = 0x7f;
/// The value type of 64-bit integers.
pub const VAL_TYPE_I64: u8 = 0x7e;
/// The value type of binary32 numbers.
pub const VAL_TYPE_F32: u8 = 0x7d;
/// The value type of binary64 numbers.
pub const VAL_TYPE_F64: u8 = 0x7c;

/// The block type of a block that gives one 32-bit integer.
pub const BLOCK_TYPE_I32: i32 = -1;
/// The block type of a block that gives one 64-bit integer.
pub const BLOCK_TYPE_I64: i32 = -2;
/// The block type of a block that gives one binary32 number.
pub const BLOCK_TYPE_F32: i32 = -3;
/// The block type of a block that gives one binary64 number.
pub const BLOCK_TYPE_F64: i32 = -4;
/// The block type of a block that gives nothing.
pub const BLOCK_TYPE_EMPTY: i32 = -64;

/// The mutability flag of a global that is never assigned to.
pub const MUT_CONST: u8 = 0;
/// The mutability flag of a global that may be assigned to.
pub const MUT_VAR: u8 = 1;
/// The byte that a function type starts with.
pub const FT_TAG: u8 = 0x60;
/// The element type of a table of function references.
pub const FUNC_REF: u8 = 0x70;

/// The bytes of one page of linear memory.
pub const PAGE_SIZE: usize = 65536;

/// The most pages a memory may have where its type names no maximum.
pub const MAX_PAGE_COUNT: usize = 65536;

/// The index of a function type in the type section.
pub type TypeIdx = u32;
/// The index of a function, imported functions coming first.
pub type FuncIdx = u32;
/// The index of a table.
pub type TableIdx = u32;
/// The index of a memory.
pub type MemIdx = u32;
/// The index of a global, imported globals coming first.
pub type GlobalIdx = u32;
/// The index of a local variable, parameters coming first.
pub type LocalIdx = u32;
/// The index of a label, counted from the innermost block outward.
pub type LabelIdx = u32;

/// The bounds of a table or a memory. `tag` is the byte that said whether
/// `max` follows.
#[derive(Clone, Copy, Debug, PartialEq, Eq)]
pub struct Limits {
    pub tag: u8,
    pub min: u32,
    pub max: Option<u32>,
}

/// The type of a memory: its limits, in pages.
pub type MemType = Limits;

/// The type of a table: what it holds, and its limits.
#[derive(Clone, Copy, Debug, PartialEq, Eq)]
pub struct TableType {
    pub elem_type: u8,
    pub limits: Limits,
}

/// The value type of a global and whether it may be assigned to.
#[derive(Clone, Copy, Debug, PartialEq, Eq)]
pub struct GlobalType {
    pub val_type: u8,
    pub m: u8,
}

/// What an import brings in: `tag` tells which one of the other fields is set.
#[derive(Clone, Copy, Debug, PartialEq, Eq)]
pub struct ImportDesc {
    pub tag: u8,
    pub fun_type: Option<TypeIdx>,
    pub table: Option<TableType>,
    pub mem: Option<MemType>,
    pub global: Option<GlobalType>,
}

/// What an export is: the kind, given by `tag`, and the index of the item.
#[derive(Clone, Copy, Debug, PartialEq, Eq)]
pub struct ExportDesc {
    pub tag: u8,
    pub idx: u32,
}

/// `n` local variables of the value type `ty`.
#[derive(Clone, Copy, Debug, PartialEq, Eq)]
pub struct Locals {
    pub n: u32,
    pub ty: u8,
}

/// The type of a function: the types of its parameters and of its results.
#[derive(Clone, Debug)]
pub struct FuncType {
    pub tag: u8,
    pub param_types: Vec<u8>,
    pub result_types: Vec<u8>,
}

/// An import: the module it comes from, its name there, and what it is.
#[derive(Clone, Debug)]
pub struct Import {
    pub module: String,
    pub name: String,
    pub import_desc: ImportDesc,
}

/// A global: its type and the expression that gives its first value.
#[derive(Clone, Debug)]
pub struct GlobalSec {
    pub ty: GlobalType,
    pub init: Expr,
}

/// An export: the name it goes by, and what it is.
#[derive(Clone, Debug)]
pub struct Export {
    pub name: String,
    pub desc: ExportDesc,
}

/// An element segment: function indices for a table, and where they go.
#[derive(Clone, Debug)]
pub struct Elem {
    pub table: TableIdx,
    pub offset: Expr,
    pub init: Vec<FuncIdx>,
}

/// The body of a function: its locals and its instructions.
#[derive(Clone, Debug)]
pub struct Code {
    pub locals: Vec<Locals>,
    pub expr: Expr,
}

/// A data segment: bytes for a memory, and where they go.
#[derive(Clone, Debug)]
pub struct Data {
    pub mem: MemIdx,
    pub offset: Expr,
    pub init: Vec<u8>,
}

/// A custom section: a name and bytes that the decoder does not look into.
#[derive(Clone, Debug)]
pub struct CustomSecs {
    pub name: String,
    pub bytes: Vec<u8>,
}

/// A decoded module. A section that the binary does not hold is `None`.
#[derive(Clone, Debug)]
pub struct Module {
    pub magic: u32,
    pub version: u32,
    pub custom_secs: Option<Vec<CustomSecs>>,
    pub type_sec: Option<Vec<FuncType>>,
    pub import_sec: Option<Vec<Import>>,
    pub func_sec: Option<Vec<TypeIdx>>,
    pub table_sec: Option<Vec<TableType>>,
    pub mem_sec: Option<Vec<MemType>>,
    pub global_sec: Option<Vec<GlobalSec>>,
    pub export_sec: Option<Vec<Export>>,
    pub start_sec: Option<FuncIdx>,
    pub elem_sec: Option<Vec<Elem>>,
    pub code_sec: Option<Vec<Code>>,
    pub data_sec: Option<Vec<Data>>,
}

/// The mathematical content of a `FuncType`.
pub struct FuncTypeView {
    pub tag: u8,
    pub param_types: Seq<u8>,
    pub result_types: Seq<u8>,
}

/// The mathematical content of an `Import`.
pub struct ImportView {
    pub module: Seq<char>,
    pub name: Seq<char>,
    pub import_desc: ImportDesc,
}

/// The mathematical content of a `GlobalSec`.
pub struct GlobalSecView {
    pub ty: GlobalType,
    pub init: Seq<InstructionView>,
}

/// The mathematical content of an `Export`.
pub struct ExportView {
    pub name: Seq<char>,
    pub desc: ExportDesc,
}

/// The mathematical content of an `Elem`.
pub struct ElemView {
    pub table: TableIdx,
    pub offset: Seq<InstructionView>,
    pub init: Seq<FuncIdx>,
}

/// The mathematical content of a `Code`.
pub struct CodeView {
    pub locals: Seq<Locals>,
    pub expr: Seq<InstructionView>,
}

/// The mathematical content of a `Data`.
pub struct DataView {
    pub mem: MemIdx,
    pub offset: Seq<InstructionView>,
    pub init: Seq<u8>,
}

/// The mathematical content of a `CustomSecs`.
pub struct CustomSecsView {
    pub name: Seq<char>,
    pub bytes: Seq<u8>,
}

/// The mathematical content of a `Module`.
pub struct ModuleView {
    pub magic: u32,
    pub version: u32,
    pub custom_secs: Option<Seq<CustomSecsView>>,
    pub type_sec: Option<Seq<FuncTypeView>>,
    pub import_sec: Option<Seq<ImportView>>,
    pub func_sec: Option<Seq<TypeIdx>>,
    pub table_sec: Option<Seq<TableType>>,
    pub mem_sec: Option<Seq<MemType>>,
    pub global_sec: Option<Seq<GlobalSecView>>,
    pub export_sec: Option<Seq<ExportView>>,
    pub start_sec: Option<FuncIdx>,
    pub elem_sec: Option<Seq<ElemView>>,
    pub code_sec: Option<Seq<CodeView>>,
    pub data_sec: Option<Seq<DataView>>,
}

impl View for FuncType {
    type V = FuncTypeView;

    open spec fn view(&self) -> FuncTypeView {
        FuncTypeView {
            tag: self.tag,
            param_types: self.param_types@,
            result_types: self.result_types@,
        }
    }
}

impl View for Import {
    type V = ImportView;

    open spec fn view(&self) -> ImportView {
        ImportView { module: self.module@, name: self.name@, import_desc: self.import_desc }
    }
}

impl View for GlobalSec {
    type V = GlobalSecView;

    open spec fn view(&self) -> GlobalSecView {
        GlobalSecView { ty: self.ty, init: expr_view(self.init) }
    }
}

impl View for Export {
    type V = ExportView;

    open spec fn view(&self) -> ExportView {
        ExportView { name: self.name@, desc: self.desc }
    }
}

impl View for Elem {
    type V = ElemView;

    open spec fn view(&self) -> ElemView {
        ElemView { table: self.table, offset: expr_view(self.offset), init: self.init@ }
    }
}

impl View for Code {
    type V = CodeView;

    open spec fn view(&self) -> CodeView {
        CodeView { locals: self.locals@, expr: expr_view(self.expr) }
    }
}

impl View for Data {
    type V = DataView;

    open spec fn view(&self) -> DataView {
        DataView { mem: self.mem, offset: expr_view(self.offset), init: self.init@ }
    }
}

impl View for CustomSecs {
    type V = CustomSecsView;

    open spec fn view(&self) -> CustomSecsView {
        CustomSecsView { name: self.name@, bytes: self.bytes@ }
    }
}

/// The contents of the items of a vector.
pub open spec fn views<T: View>(v: Vec<T>) -> Seq<T::V> {
    Seq::new(v@.len(), |k: int| v@[k]@)
}

/// The contents of a vector with one more item at its end.
pub proof fn lemma_views_push<T: View>(before: Vec<T>, now: Vec<T>, x: T)
    requires
        now@ == before@.push(x),
    ensures
        views(now) == views(before).push(x@),
{
    assert(views(now) =~= views(before).push(x@));
}

/// The contents of an empty vector.
pub proof fn lemma_views_empty<T: View>(v: Vec<T>)
    requires
        v@.len() == 0,
    ensures
        views(v) == Seq::<T::V>::empty(),
{
    assert(views(v) =~= Seq::<T::V>::empty());
}

/// The contents of the items of a section that may be absent.
pub open spec fn section_views<T: View>(v: Option<Vec<T>>) -> Option<Seq<T::V>> {
    match v {
        Some(items) => Some(views(items)),
        None => None,
    }
}

/// The items of a section of plain values that may be absent.
pub open spec fn section_items<T>(v: Option<Vec<T>>) -> Option<Seq<T>> {
    match v {
        Some(items) => Some(items@),
        None => None,
    }
}

impl View for Module {
    type V = ModuleView;

    open spec fn view(&self) -> ModuleView {
        ModuleView {
            magic: self.magic,
            version: self.version,
            custom_secs: section_views(self.custom_secs),
            type_sec: section_views(self.type_sec),
            import_sec: section_views(self.import_sec),
            func_sec: section_items(self.func_sec),
            table_sec: section_items(self.table_sec),
            mem_sec: section_items(self.mem_sec),
            global_sec: section_views(self.global_sec),
            export_sec: section_views(self.export_sec),
            start_sec: self.start_sec,
            elem_sec: section_views(self.elem_sec),
            code_sec: section_views(self.code_sec),
            data_sec: section_views(self.data_sec),
        }
    }
}

/// The number of local variables that the groups declare together.
pub open spec fn local_count(locals: Seq<Locals>) -> nat
    decreases locals.len(),
{
    if locals.len() == 0 {
        0
    } else {
        local_count(locals.drop_last()) + locals.last().n as nat
    }
}

/// The number of locals that the first `k` groups declare never exceeds
/// what all of them declare.
pub proof fn lemma_local_count_prefix(locals: Seq<Locals>, k: int)
    requires
        0 <= k <= locals.len(),
    ensures
        local_count(locals.take(k)) <= local_count(locals),
    decreases locals.len(),
{
    if k == locals.len() {
        assert(locals.take(k) =~= locals);
    } else {
        lemma_local_count_prefix(locals.drop_last(), k);
        assert(locals.drop_last().take(k) =~= locals.take(k));
    }
}

impl Code {
    /// The number of local variables of the function, or `None` where it
    /// reaches the largest 32-bit number, which no function may have.
    pub fn get_local_count(&self) -> (r: Option<u32>)
        ensures
            r == if local_count(self.locals@) < u32::MAX {
                Some(local_count(self.locals@) as u32)
            } else {
                None::<u32>
            },
    {
        let mut total: u64 = 0;
        let mut i: usize = 0;
        while i < self.locals.len()
            invariant
                i <= self.locals.len(),
                total == local_count(self.locals@.take(i as int)),
                total < u32::MAX,
            decreases self.locals.len() - i,
        {
            proof {
                assert(self.locals@.take(i + 1).drop_last() =~= self.locals@.take(i as int));
                lemma_local_count_prefix(self.locals@, i + 1);
            }
            total = total + self.locals[i].n as u64;
            if total >= u32::MAX as u64 {
                return None;
            }
            i = i + 1;
        }
        proof {
            assert(self.locals@.take(i as int) =~= self.locals@);
        }
        Some(total as u32)
    }
}

} // verus!

//! The opcode bytes of the instruction set.

#![allow(non_upper_case_globals)]

use vstd::prelude::*;

verus! {

/// `unreachable`
pub const Unreachable: u8 = 0x00;
/// `nop`
pub const Nop: u8 = 0x01;
/// `block`
pub const Block: u8 = 0x02;
/// `loop`
pub const Loop: u8 = 0x03;
/// `if`
pub const If: u8 = 0x04;
/// `else`
pub const Else_: u8 = 0x05;
/// `end`
pub const End_: u8 = 0x0B;
/// `br`
pub const Br: u8 = 0x0C;
/// `br_if`
pub const BrIf: u8 = 0x0D;
/// `br_table`
pub const BrTable: u8 = 0x0E;
/// `return`
pub const Return: u8 = 0x0F;
/// `call`
pub const Call: u8 = 0x10;
/// `call_indirect`
pub const CallIndirect: u8 = 0x11;
/// `drop`
pub const Drop: u8 = 0x1A;
/// `select`
pub const Select: u8 = 0x1B;
/// `local.get`
pub const LocalGet: u8 = 0x20;
/// `local.set`
pub const LocalSet: u8 = 0x21;
/// `local.tee`
pub const LocalTee: u8 = 0x22;
/// `global.get`
pub const GlobalGet: u8 = 0x23;
/// `global.set`
pub const GlobalSet: u8 = 0x24;
/// `i32.load`
pub const I32Load: u8 = 0x28;
/// `i64.load`
pub const I64Load: u8 = 0x29;
/// `f32.load`
pub const F32Load: u8 = 0x2A;
/// `f64.load`
pub const F64Load: u8 = 0x2B;
/// `i32.load8_s`
pub const I32Load8S: u8 = 0x2C;
/// `i32.load8_u`
pub const I32Load8U: u8 = 0x2D;
/// `i32.load16_s`
pub const I32Load16S: u8 = 0x2E;
/// `i32.load16_u`
pub const I32Load16U: u8 = 0x2F;
/// `i64.load8_s`
pub const I64Load8S: u8 = 0x30;
/// `i64.load8_u`
pub const I64Load8U: u8 = 0x31;
/// `i64.load16_s`
pub const I64Load16S: u8 = 0x32;
/// `i64.load16_u`
pub const I64Load16U: u8 = 0x33;
/// `i64.load32_s`
pub const I64Load32S: u8 = 0x34;
/// `i64.load32_u`
pub const I64Load32U: u8 = 0x35;
/// `i32.store`
pub const I32Store: u8 = 0x36;
/// `i64.store`
pub const I64Store: u8 = 0x37;
/// `f32.store`
pub const F32Store: u8 = 0x38;
/// `f64.store`
pub const F64Store: u8 = 0x39;
/// `i32.store8`
pub const I32Store8: u8 = 0x3A;
/// `i32.store16`
pub const I32Store16: u8 = 0x3B;
/// `i64.store8`
pub const I64Store8: u8 = 0x3C;
/// `i64.store16`
pub const I64Store16: u8 = 0x3D;
/// `i64.store32`
pub const I64Store32: u8 = 0x3E;
/// `memory.size`
pub const MemorySize: u8 = 0x3F;
/// `memory.grow`
pub const MemoryGrow: u8 = 0x40;
/// `i32.const`
pub const I32Const: u8 = 0x41;
/// `i64.const`
pub const I64Const: u8 = 0x42;
/// `f32.const`
pub const F32Const: u8 = 0x43;
/// `f64.const`
pub const F64Const: u8 = 0x44;
/// `i32.eqz`
pub const I32Eqz: u8 = 0x45;
/// `i32.eq`
pub const I32Eq: u8 = 0x46;
/// `i32.ne`
pub const I32Ne: u8 = 0x47;
/// `i32.lt_s`
pub const I32LtS: u8 = 0x48;
/// `i32.lt_u`
pub const I32LtU: u8 = 0x49;
/// `i32.gt_s`
pub const I32GtS: u8 = 0x4A;
/// `i32.gt_u`
pub const I32GtU: u8 = 0x4B;
/// `i32.le_s`
pub const I32LeS: u8 = 0x4C;
/// `i32.le_u`
pub const I32LeU: u8 = 0x4D;
/// `i32.ge_s`
pub const I32GeS: u8 = 0x4E;
/// `i32.ge_u`
pub const I32GeU: u8 = 0x4F;
/// `i64.eqz`
pub const I64Eqz: u8 = 0x50;
/// `i64.eq`
pub const I64Eq: u8 = 0x51;
/// `i64.ne`
pub const I64Ne: u8 = 0x52;
/// `i64.lt_s`
pub const I64LtS: u8 = 0x53;
/// `i64.lt_u`
pub const I64LtU: u8 = 0x54;
/// `i64.gt_s`
pub const I64GtS: u8 = 0x55;
/// `i64.gt_u`
pub const I64GtU: u8 = 0x56;
/// `i64.le_s`
pub const I64LeS: u8 = 0x57;
/// `i64.le_u`
pub const I64LeU: u8 = 0x58;
/// `i64.ge_s`
pub const I64GeS: u8 = 0x59;
/// `i64.ge_u`
pub const I64GeU: u8 = 0x5A;
/// `f32.eq`
pub const F32Eq: u8 = 0x5B;
/// `f32.ne`
pub const F32Ne: u8 = 0x5C;
/// `f32.lt`
pub const F32Lt: u8 = 0x5D;
/// `f32.gt`
pub const F32Gt: u8 = 0x5E;
/// `f32.le`
pub const F32Le: u8 = 0x5F;
/// `f32.ge`
pub const F32Ge: u8 = 0x60;
/// `f64.eq`
pub const F64Eq: u8 = 0x61;
/// `f64.ne`
pub const F64Ne: u8 = 0x62;
/// `f64.lt`
pub const F64Lt: u8 = 0x63;
/// `f64.gt`
pub const F64Gt: u8 = 0x64;
/// `f64.le`
pub const F64Le: u8 = 0x65;
/// `f64.ge`
pub const F64Ge: u8 = 0x66;
/// `i32.clz`
pub const I32Clz: u8 = 0x67;
/// `i32.ctz`
pub const I32Ctz: u8 = 0x68;
/// `i32.popcnt`
pub const I32PopCnt: u8 = 0x69;
/// `i32.add`
pub const I32Add: u8 = 0x6A;
/// `i32.sub`
pub const I32Sub: u8 = 0x6B;
/// `i32.mul`
pub const I32Mul: u8 = 0x6C;
/// `i32.div_s`
pub const I32DivS: u8 = 0x6D;
/// `i32.div_u`
pub const I32DivU: u8 = 0x6E;
/// `i32.rem_s`
pub const I32RemS: u8 = 0x6F;
/// `i32.rem_u`
pub const I32RemU: u8 = 0x70;
/// `i32.and`
pub const I32And: u8 = 0x71;
/// `i32.or`
pub const I32Or: u8 = 0x72;
/// `i32.xor`
pub const I32Xor: u8 = 0x73;
/// `i32.shl`
pub const I32Shl: u8 = 0x74;
/// `i32.shr_s`
pub const I32ShrS: u8 = 0x75;
/// `i32.shr_u`
pub const I32ShrU: u8 = 0x76;
/// `i32.rotl`
pub const I32Rotl: u8 = 0x77;
/// `i32.rotr`
pub const I32Rotr: u8 = 0x78;
/// `i64.clz`
pub const I64Clz: u8 = 0x79;
/// `i64.ctz`
pub const I64Ctz: u8 = 0x7A;
/// `i64.popcnt`
pub const I64PopCnt: u8 = 0x7B;
/// `i64.add`
pub const I64Add: u8 = 0x7C;
/// `i64.sub`
pub const I64Sub: u8 = 0x7D;
/// `i64.mul`
pub const I64Mul: u8 = 0x7E;
/// `i64.div_s`
pub const I64DivS: u8 = 0x7F;
/// `i64.div_u`
pub const I64DivU: u8 = 0x80;
/// `i64.rem_s`
pub const I64RemS: u8 = 0x81;
/// `i64.rem_u`
pub const I64RemU: u8 = 0x82;
/// `i64.and`
pub const I64And: u8 = 0x83;
/// `i64.or`
pub const I64Or: u8 = 0x84;
/// `i64.xor`
pub const I64Xor: u8 = 0x85;
/// `i64.shl`
pub const I64Shl: u8 = 0x86;
/// `i64.shr_s`
pub const I64ShrS: u8 = 0x87;
/// `i64.shr_u`
pub const I64ShrU: u8 = 0x88;
/// `i64.rotl`
pub const I64Rotl: u8 = 0x89;
/// `i64.rotr`
pub const I64Rotr: u8 = 0x8A;
/// `f32.abs`
pub const F32Abs: u8 = 0x8B;
/// `f32.neg`
pub const F32Neg: u8 = 0x8C;
/// `f32.ceil`
pub const F32Ceil: u8 = 0x8D;
/// `f32.floor`
pub const F32Floor: u8 = 0x8E;
/// `f32.trunc`
pub const F32Trunc: u8 = 0x8F;
/// `f32.nearest`
pub const F32Nearest: u8 = 0x90;
/// `f32.sqrt`
pub const F32Sqrt: u8 = 0x91;
/// `f32.add`
pub const F32Add: u8 = 0x92;
/// `f32.sub`
pub const F32Sub: u8 = 0x93;
/// `f32.mul`
pub const F32Mul: u8 = 0x94;
/// `f32.div`
pub const F32Div: u8 = 0x95;
/// `f32.min`
pub const F32Min: u8 = 0x96;
/// `f32.max`
pub const F32Max: u8 = 0x97;
/// `f32.copysign`
pub const F32CopySign: u8 = 0x98;
/// `f64.abs`
pub const F64Abs: u8 = 0x99;
/// `f64.neg`
pub const F64Neg: u8 = 0x9A;
/// `f64.ceil`
pub const F64Ceil: u8 = 0x9B;
/// `f64.floor`
pub const F64Floor: u8 = 0x9C;
/// `f64.trunc`
pub const F64Trunc: u8 = 0x9D;
/// `f64.nearest`
pub const F64Nearest: u8 = 0x9E;
/// `f64.sqrt`
pub const F64Sqrt: u8 = 0x9F;
/// `f64.add`
pub const F64Add: u8 = 0xA0;
/// `f64.sub`
pub const F64Sub: u8 = 0xA1;
/// `f64.mul`
pub const F64Mul: u8 = 0xA2;
/// `f64.div`
pub const F64Div: u8 = 0xA3;
/// `f64.min`
pub const F64Min: u8 = 0xA4;
/// `f64.max`
pub const F64Max: u8 = 0xA5;
/// `f64.copysign`
pub const F64CopySign: u8 = 0xA6;
/// `i32.wrap_i64`
pub const I32WrapI64: u8 = 0xA7;
/// `i32.trunc_f32_s`
pub const I32TruncF32S: u8 = 0xA8;
/// `i32.trunc_f32_u`
pub const I32TruncF32U: u8 = 0xA9;
/// `i32.trunc_f64_s`
pub const I32TruncF64S: u8 = 0xAA;
/// `i32.trunc_f64_u`
pub const I32TruncF64U: u8 = 0xAB;
/// `i64.extend_i32_s`
pub const I64ExtendI32S: u8 = 0xAC;
/// `i64.extend_i32_u`
pub const I64ExtendI32U: u8 = 0xAD;
/// `i64.trunc_f32_s`
pub const I64TruncF32S: u8 = 0xAE;
/// `i64.trunc_f32_u`
pub const I64TruncF32U: u8 = 0xAF;
/// `i64.trunc_f64_s`
pub const I64TruncF64S: u8 = 0xB0;
/// `i64.trunc_f64_u`
pub const I64TruncF64U: u8 = 0xB1;
/// `f32.convert_i32_s`
pub const F32ConvertI32S: u8 = 0xB2;
/// `f32.convert_i32_u`
pub const F32ConvertI32U: u8 = 0xB3;
/// `f32.convert_i64_s`
pub const F32ConvertI64S: u8 = 0xB4;
/// `f32.convert_i64_u`
pub const F32ConvertI64U: u8 = 0xB5;
/// `f32.demote_f64`
pub const F32DemoteF64: u8 = 0xB6;
/// `f64.convert_i32_s`
pub const F64ConvertI32S: u8 = 0xB7;
/// `f64.convert_i32_u`
pub const F64ConvertI32U: u8 = 0xB8;
/// `f64.convert_i64_s`
pub const F64ConvertI64S: u8 = 0xB9;
/// `f64.convert_i64_u`
pub const F64ConvertI64U: u8 = 0xBA;
/// `f64.promote_f32`
pub const F64PromoteF32: u8 = 0xBB;
/// `i32.reinterpret_f32`
pub const I32ReinterpretF32: u8 = 0xBC;
/// `i64.reinterpret_f64`
pub const I64ReinterpretF64: u8 = 0xBD;
/// `f32.reinterpret_i32`
pub const F32ReinterpretI32: u8 = 0xBE;
/// `f64.reinterpret_i64`
pub const F64ReinterpretI64: u8 = 0xBF;
/// `i32.extend8_s`
pub const I32Extend8S: u8 = 0xC0;
/// `i32.extend16_s`
pub const I32Extend16S: u8 = 0xC1;
/// `i64.extend8_s`
pub const I64Extend8S: u8 = 0xC2;
/// `i64.extend16_s`
pub const I64Extend16S: u8 = 0xC3;
/// `i64.extend32_s`
pub const I64Extend32S: u8 = 0xC4;
/// `trunc_sat`
pub const TruncSat: u8 = 0xFC;

/// Whether `op` is an opcode of the instruction set.
pub open spec fn is_known_opcode(op: u8) -> bool {
    ||| op <= Else_
    ||| End_ <= op <= CallIndirect
    ||| op == Drop
    ||| op == Select
    ||| LocalGet <= op <= GlobalSet
    ||| I32Load <= op <= I64Extend32S
    ||| op == TruncSat
}

/// Whether `op` takes a memory argument: the loads and stores, which lie
/// next to each other.
pub open spec fn is_memory_access(op: u8) -> bool {
    I32Load <= op <= I64Store32
}

/// Tells whether `op` is an opcode of the instruction set.
pub fn known_opcode(op: u8) -> (r: bool)
    ensures
        r == is_known_opcode(op),
{
    op <= Else_ || (End_ <= op && op <= CallIndirect) || op == Drop || op == Select || (LocalGet
        <= op && op <= GlobalSet) || (I32Load <= op && op <= I64Extend32S) || op == TruncSat
}

/// The mnemonic of `op`, and `None` where `op` is no opcode of the
/// instruction set.
pub open spec fn name_of(op: u8) -> Option<Seq<char>> {
    if op == Unreachable {
        Some("unreachable"@)
    } else if op == Nop {
        Some("nop"@)
    } else if op == Block {
        Some("block"@)
    } else if op == Loop {
        Some("loop"@)
    } else if op == If {
        Some("if"@)
    } else if op == Else_ {
        Some("else"@)
    } else if op == End_ {
        Some("end"@)
    } else if op == Br {
        Some("br"@)
    } else if op == BrIf {
        Some("br_if"@)
    } else if op == BrTable {
        Some("br_table"@)
    } else if op == Return {
        Some("return"@)
    } else if op == Call {
        Some("call"@)
    } else if op == CallIndirect {
        Some("call_indirect"@)
    } else if op == Drop {
        Some("drop"@)
    } else if op == Select {
        Some("select"@)
    } else if op == LocalGet {
        Some("local.get"@)
    } else if op == LocalSet {
        Some("local.set"@)
    } else if op == LocalTee {
        Some("local.tee"@)
    } else if op == GlobalGet {
        Some("global.get"@)
    } else if op == GlobalSet {
        Some("global.set"@)
    } else if op == I32Load {
        Some("i32.load"@)
    } else if op == I64Load {
        Some("i64.load"@)
    } else if op == F32Load {
        Some("f32.load"@)
    } else if op == F64Load {
        Some("f64.load"@)
    } else if op == I32Load8S {
        Some("i32.load8_s"@)
    } else if op == I32Load8U {
        Some("i32.load8_u"@)
    } else if op == I32Load16S {
        Some("i32.load16_s"@)
    } else if op == I32Load16U {
        Some("i32.load16_u"@)
    } else if op == I64Load8S {
        Some("i64.load8_s"@)
    } else if op == I64Load8U {
        Some("i64.load8_u"@)
    } else if op == I64Load16S {
        Some("i64.load16_s"@)
    } else if op == I64Load16U {
        Some("i64.load16_u"@)
    } else if op == I64Load32S {
        Some("i64.load32_s"@)
    } else if op == I64Load32U {
        Some("i64.load32_u"@)
    } else if op == I32Store {
        Some("i32.store"@)
    } else if op == I64Store {
        Some("i64.store"@)
    } else if op == F32Store {
        Some("f32.store"@)
    } else if op == F64Store {
        Some("f64.store"@)
    } else if op == I32Store8 {
        Some("i32.store8"@)
    } else if op == I32Store16 {
        Some("i32.store16"@)
    } else if op == I64Store8 {
        Some("i64.store8"@)
    } else if op == I64Store16 {
        Some("i64.store16"@)
    } else if op == I64Store32 {
        Some("i64.store32"@)
    } else if op == MemorySize {
        Some("memory.size"@)
    } else if op == MemoryGrow {
        Some("memory.grow"@)
    } else if op == I32Const {
        Some("i32.const"@)
    } else if op == I64Const {
        Some("i64.const"@)
    } else if op == F32Const {
        Some("f32.const"@)
    } else if op == F64Const {
        Some("f64.const"@)
    } else if op == I32Eqz {
        Some("i32.eqz"@)
    } else if op == I32Eq {
        Some("i32.eq"@)
    } else if op == I32Ne {
        Some("i32.ne"@)
    } else if op == I32LtS {
        Some("i32.lt_s"@)
    } else if op == I32LtU {
        Some("i32.lt_u"@)
    } else if op == I32GtS {
        Some("i32.gt_s"@)
    } else if op == I32GtU {
        Some("i32.gt_u"@)
    } else if op == I32LeS {
        Some("i32.le_s"@)
    } else if op == I32LeU {
        Some("i32.le_u"@)
    } else if op == I32GeS {
        Some("i32.ge_s"@)
    } else if op == I32GeU {
        Some("i32.ge_u"@)
    } else if op == I64Eqz {
        Some("i64.eqz"@)
    } else if op == I64Eq {
        Some("i64.eq"@)
    } else if op == I64Ne {
        Some("i64.ne"@)
    } else if op == I64LtS {
        Some("i64.lt_s"@)
    } else if op == I64LtU {
        Some("i64.lt_u"@)
    } else if op == I64GtS {
        Some("i64.gt_s"@)
    } else if op == I64GtU {
        Some("i64.gt_u"@)
    } else if op == I64LeS {
        Some("i64.le_s"@)
    } else if op == I64LeU {
        Some("i64.le_u"@)
    } else if op == I64GeS {
        Some("i64.ge_s"@)
    } else if op == I64GeU {
        Some("i64.ge_u"@)
    } else if op == F32Eq {
        Some("f32.eq"@)
    } else if op == F32Ne {
        Some("f32.ne"@)
    } else if op == F32Lt {
        Some("f32.lt"@)
    } else if op == F32Gt {
        Some("f32.gt"@)
    } else if op == F32Le {
        Some("f32.le"@)
    } else if op == F32Ge {
        Some("f32.ge"@)
    } else if op == F64Eq {
        Some("f64.eq"@)
    } else if op == F64Ne {
        Some("f64.ne"@)
    } else if op == F64Lt {
        Some("f64.lt"@)
    } else if op == F64Gt {
        Some("f64.gt"@)
    } else if op == F64Le {
        Some("f64.le"@)
    } else if op == F64Ge {
        Some("f64.ge"@)
    } else if op == I32Clz {
        Some("i32.clz"@)
    } else if op == I32Ctz {
        Some("i32.ctz"@)
    } else if op == I32PopCnt {
        Some("i32.popcnt"@)
    } else if op == I32Add {
        Some("i32.add"@)
    } else if op == I32Sub {
        Some("i32.sub"@)
    } else if op == I32Mul {
        Some("i32.mul"@)
    } else if op == I32DivS {
        Some("i32.div_s"@)
    } else if op == I32DivU {
        Some("i32.div_u"@)
    } else if op == I32RemS {
        Some("i32.rem_s"@)
    } else if op == I32RemU {
        Some("i32.rem_u"@)
    } else if op == I32And {
        Some("i32.and"@)
    } else if op == I32Or {
        Some("i32.or"@)
    } else if op == I32Xor {
        Some("i32.xor"@)
    } else if op == I32Shl {
        Some("i32.shl"@)
    } else if op == I32ShrS {
        Some("i32.shr_s"@)
    } else if op == I32ShrU {
        Some("i32.shr_u"@)
    } else if op == I32Rotl {
        Some("i32.rotl"@)
    } else if op == I32Rotr {
        Some("i32.rotr"@)
    } else if op == I64Clz {
        Some("i64.clz"@)
    } else if op == I64Ctz {
        Some("i64.ctz"@)
    } else if op == I64PopCnt {
        Some("i64.popcnt"@)
    } else if op == I64Add {
        Some("i64.add"@)
    } else if op == I64Sub {
        Some("i64.sub"@)
    } else if op == I64Mul {
        Some("i64.mul"@)
    } else if op == I64DivS {
        Some("i64.div_s"@)
    } else if op == I64DivU {
        Some("i64.div_u"@)
    } else if op == I64RemS {
        Some("i64.rem_s"@)
    } else if op == I64RemU {
        Some("i64.rem_u"@)
    } else if op == I64And {
        Some("i64.and"@)
    } else if op == I64Or {
        Some("i64.or"@)
    } else if op == I64Xor {
        Some("i64.xor"@)
    } else if op == I64Shl {
        Some("i64.shl"@)
    } else if op == I64ShrS {
        Some("i64.shr_s"@)
    } else if op == I64ShrU {
        Some("i64.shr_u"@)
    } else if op == I64Rotl {
        Some("i64.rotl"@)
    } else if op == I64Rotr {
        Some("i64.rotr"@)
    } else if op == F32Abs {
        Some("f32.abs"@)
    } else if op == F32Neg {
        Some("f32.neg"@)
    } else if op == F32Ceil {
        Some("f32.ceil"@)
    } else if op == F32Floor {
        Some("f32.floor"@)
    } else if op == F32Trunc {
        Some("f32.trunc"@)
    } else if op == F32Nearest {
        Some("f32.nearest"@)
    } else if op == F32Sqrt {
        Some("f32.sqrt"@)
    } else if op == F32Add {
        Some("f32.add"@)
    } else if op == F32Sub {
        Some("f32.sub"@)
    } else if op == F32Mul {
        Some("f32.mul"@)
    } else if op == F32Div {
        Some("f32.div"@)
    } else if op == F32Min {
        Some("f32.min"@)
    } else if op == F32Max {
        Some("f32.max"@)
    } else if op == F32CopySign {
        Some("f32.copysign"@)
    } else if op == F64Abs {
        Some("f64.abs"@)
    } else if op == F64Neg {
        Some("f64.neg"@)
    } else if op == F64Ceil {
        Some("f64.ceil"@)
    } else if op == F64Floor {
        Some("f64.floor"@)
    } else if op == F64Trunc {
        Some("f64.trunc"@)
    } else if op == F64Nearest {
        Some("f64.nearest"@)
    } else if op == F64Sqrt {
        Some("f64.sqrt"@)
    } else if op == F64Add {
        Some("f64.add"@)
    } else if op == F64Sub {
        Some("f64.sub"@)
    } else if op == F64Mul {
        Some("f64.mul"@)
    } else if op == F64Div {
        Some("f64.div"@)
    } else if op == F64Min {
        Some("f64.min"@)
    } else if op == F64Max {
        Some("f64.max"@)
    } else if op == F64CopySign {
        Some("f64.copysign"@)
    } else if op == I32WrapI64 {
        Some("i32.wrap_i64"@)
    } else if op == I32TruncF32S {
        Some("i32.trunc_f32_s"@)
    } else if op == I32TruncF32U {
        Some("i32.trunc_f32_u"@)
    } else if op == I32TruncF64S {
        Some("i32.trunc_f64_s"@)
    } else if op == I32TruncF64U {
        Some("i32.trunc_f64_u"@)
    } else if op == I64ExtendI32S {
        Some("i64.extend_i32_s"@)
    } else if op == I64ExtendI32U {
        Some("i64.extend_i32_u"@)
    } else if op == I64TruncF32S {
        Some("i64.trunc_f32_s"@)
    } else if op == I64TruncF32U {
        Some("i64.trunc_f32_u"@)
    } else if op == I64TruncF64S {
        Some("i64.trunc_f64_s"@)
    } else if op == I64TruncF64U {
        Some("i64.trunc_f64_u"@)
    } else if op == F32ConvertI32S {
        Some("f32.convert_i32_s"@)
    } else if op == F32ConvertI32U {
        Some("f32.convert_i32_u"@)
    } else if op == F32ConvertI64S {
        Some("f32.convert_i64_s"@)
    } else if op == F32ConvertI64U {
        Some("f32.convert_i64_u"@)
    } else if op == F32DemoteF64 {
        Some("f32.demote_f64"@)
    } else if op == F64ConvertI32S {
        Some("f64.convert_i32_s"@)
    } else if op == F64ConvertI32U {
        Some("f64.convert_i32_u"@)
    } else if op == F64ConvertI64S {
        Some("f64.convert_i64_s"@)
    } else if op == F64ConvertI64U {
        Some("f64.convert_i64_u"@)
    } else if op == F64PromoteF32 {
        Some("f64.promote_f32"@)
    } else if op == I32ReinterpretF32 {
        Some("i32.reinterpret_f32"@)
    } else if op == I64ReinterpretF64 {
        Some("i64.reinterpret_f64"@)
    } else if op == F32ReinterpretI32 {
        Some("f32.reinterpret_i32"@)
    } else if op == F64ReinterpretI64 {
        Some("f64.reinterpret_i64"@)
    } else if op == I32Extend8S {
        Some("i32.extend8_s"@)
    } else if op == I32Extend16S {
        Some("i32.extend16_s"@)
    } else if op == I64Extend8S {
        Some("i64.extend8_s"@)
    } else if op == I64Extend16S {
        Some("i64.extend16_s"@)
    } else if op == I64Extend32S {
        Some("i64.extend32_s"@)
    } else if op == TruncSat {
        Some("trunc_sat"@)
    } else {
        None
    }
}

/// The mnemonic of `op`, for messages; `None` where `op` is no opcode of
/// the instruction set.
pub fn opcode_name(op: u8) -> (r: Option<&'static str>)
    ensures
        match r {
            Some(name) => name_of(op) == Some(name@),
            None => name_of(op) is None,
        },
        r is Some == is_known_opcode(op),
{
    if op == Unreachable {
        Some("unreachable")
    } else if op == Nop {
        Some("nop")
    } else if op == Block {
        Some("block")
    } else if op == Loop {
        Some("loop")
    } else if op == If {
        Some("if")
    } else if op == Else_ {
        Some("else")
    } else if op == End_ {
        Some("end")
    } else if op == Br {
        Some("br")
    } else if op == BrIf {
        Some("br_if")
    } else if op == BrTable {
        Some("br_table")
    } else if op == Return {
        Some("return")
    } else if op == Call {
        Some("call")
    } else if op == CallIndirect {
        Some("call_indirect")
    } else if op == Drop {
        Some("drop")
    } else if op == Select {
        Some("select")
    } else if op == LocalGet {
        Some("local.get")
    } else if op == LocalSet {
        Some("local.set")
    } else if op == LocalTee {
        Some("local.tee")
    } else if op == GlobalGet {
        Some("global.get")
    } else if op == GlobalSet {
        Some("global.set")
    } else if op == I32Load {
        Some("i32.load")
    } else if op == I64Load {
        Some("i64.load")
    } else if op == F32Load {
        Some("f32.load")
    } else if op == F64Load {
        Some("f64.load")
    } else if op == I32Load8S {
        Some("i32.load8_s")
    } else if op == I32Load8U {
        Some("i32.load8_u")
    } else if op == I32Load16S {
        Some("i32.load16_s")
    } else if op == I32Load16U {
        Some("i32.load16_u")
    } else if op == I64Load8S {
        Some("i64.load8_s")
    } else if op == I64Load8U {
        Some("i64.load8_u")
    } else if op == I64Load16S {
        Some("i64.load16_s")
    } else if op == I64Load16U {
        Some("i64.load16_u")
    } else if op == I64Load32S {
        Some("i64.load32_s")
    } else if op == I64Load32U {
        Some("i64.load32_u")
    } else if op == I32Store {
        Some("i32.store")
    } else if op == I64Store {
        Some("i64.store")
    } else if op == F32Store {
        Some("f32.store")
    } else if op == F64Store {
        Some("f64.store")
    } else if op == I32Store8 {
        Some("i32.store8")
    } else if op == I32Store16 {
        Some("i32.store16")
    } else if op == I64Store8 {
        Some("i64.store8")
    } else if op == I64Store16 {
        Some("i64.store16")
    } else if op == I64Store32 {
        Some("i64.store32")
    } else if op == MemorySize {
        Some("memory.size")
    } else if op == MemoryGrow {
        Some("memory.grow")
    } else if op == I32Const {
        Some("i32.const")
    } else if op == I64Const {
        Some("i64.const")
    } else if op == F32Const {
        Some("f32.const")
    } else if op == F64Const {
        Some("f64.const")
    } else if op == I32Eqz {
        Some("i32.eqz")
    } else if op == I32Eq {
        Some("i32.eq")
    } else if op == I32Ne {
        Some("i32.ne")
    } else if op == I32LtS {
        Some("i32.lt_s")
    } else if op == I32LtU {
        Some("i32.lt_u")
    } else if op == I32GtS {
        Some("i32.gt_s")
    } else if op == I32GtU {
        Some("i32.gt_u")
    } else if op == I32LeS {
        Some("i32.le_s")
    } else if op == I32LeU {
        Some("i32.le_u")
    } else if op == I32GeS {
        Some("i32.ge_s")
    } else if op == I32GeU {
        Some("i32.ge_u")
    } else if op == I64Eqz {
        Some("i64.eqz")
    } else if op == I64Eq {
        Some("i64.eq")
    } else if op == I64Ne {
        Some("i64.ne")
    } else if op == I64LtS {
        Some("i64.lt_s")
    } else if op == I64LtU {
        Some("i64.lt_u")
    } else if op == I64GtS {
        Some("i64.gt_s")
    } else if op == I64GtU {
        Some("i64.gt_u")
    } else if op == I64LeS {
        Some("i64.le_s")
    } else if op == I64LeU {
        Some("i64.le_u")
    } else if op == I64GeS {
        Some("i64.ge_s")
    } else if op == I64GeU {
        Some("i64.ge_u")
    } else if op == F32Eq {
        Some("f32.eq")
    } else if op == F32Ne {
        Some("f32.ne")
    } else if op == F32Lt {
        Some("f32.lt")
    } else if op == F32Gt {
        Some("f32.gt")
    } else if op == F32Le {
        Some("f32.le")
    } else if op == F32Ge {
        Some("f32.ge")
    } else if op == F64Eq {
        Some("f64.eq")
    } else if op == F64Ne {
        Some("f64.ne")
    } else if op == F64Lt {
        Some("f64.lt")
    } else if op == F64Gt {
        Some("f64.gt")
    } else if op == F64Le {
        Some("f64.le")
    } else if op == F64Ge {
        Some("f64.ge")
    } else if op == I32Clz {
        Some("i32.clz")
    } else if op == I32Ctz {
        Some("i32.ctz")
    } else if op == I32PopCnt {
        Some("i32.popcnt")
    } else if op == I32Add {
        Some("i32.add")
    } else if op == I32Sub {
        Some("i32.sub")
    } else if op == I32Mul {
        Some("i32.mul")
    } else if op == I32DivS {
        Some("i32.div_s")
    } else if op == I32DivU {
        Some("i32.div_u")
    } else if op == I32RemS {
        Some("i32.rem_s")
    } else if op == I32RemU {
        Some("i32.rem_u")
    } else if op == I32And {
        Some("i32.and")
    } else if op == I32Or {
        Some("i32.or")
    } else if op == I32Xor {
        Some("i32.xor")
    } else if op == I32Shl {
        Some("i32.shl")
    } else if op == I32ShrS {
        Some("i32.shr_s")
    } else if op == I32ShrU {
        Some("i32.shr_u")
    } else if op == I32Rotl {
        Some("i32.rotl")
    } else if op == I32Rotr {
        Some("i32.rotr")
    } else if op == I64Clz {
        Some("i64.clz")
    } else if op == I64Ctz {
        Some("i64.ctz")
    } else if op == I64PopCnt {
        Some("i64.popcnt")
    } else if op == I64Add {
        Some("i64.add")
    } else if op == I64Sub {
        Some("i64.sub")
    } else if op == I64Mul {
        Some("i64.mul")
    } else if op == I64DivS {
        Some("i64.div_s")
    } else if op == I64DivU {
        Some("i64.div_u")
    } else if op == I64RemS {
        Some("i64.rem_s")
    } else if op == I64RemU {
        Some("i64.rem_u")
    } else if op == I64And {
        Some("i64.and")
    } else if op == I64Or {
        Some("i64.or")
    } else if op == I64Xor {
        Some("i64.xor")
    } else if op == I64Shl {
        Some("i64.shl")
    } else if op == I64ShrS {
        Some("i64.shr_s")
    } else if op == I64ShrU {
        Some("i64.shr_u")
    } else if op == I64Rotl {
        Some("i64.rotl")
    } else if op == I64Rotr {
        Some("i64.rotr")
    } else if op == F32Abs {
        Some("f32.abs")
    } else if op == F32Neg {
        Some("f32.neg")
    } else if op == F32Ceil {
        Some("f32.ceil")
    } else if op == F32Floor {
        Some("f32.floor")
    } else if op == F32Trunc {
        Some("f32.trunc")
    } else if op == F32Nearest {
        Some("f32.nearest")
    } else if op == F32Sqrt {
        Some("f32.sqrt")
    } else if op == F32Add {
        Some("f32.add")
    } else if op == F32Sub {
        Some("f32.sub")
    } else if op == F32Mul {
        Some("f32.mul")
    } else if op == F32Div {
        Some("f32.div")
    } else if op == F32Min {
        Some("f32.min")
    } else if op == F32Max {
        Some("f32.max")
    } else if op == F32CopySign {
        Some("f32.copysign")
    } else if op == F64Abs {
        Some("f64.abs")
    } else if op == F64Neg {
        Some("f64.neg")
    } else if op == F64Ceil {
        Some("f64.ceil")
    } else if op == F64Floor {
        Some("f64.floor")
    } else if op == F64Trunc {
        Some("f64.trunc")
    } else if op == F64Nearest {
        Some("f64.nearest")
    } else if op == F64Sqrt {
        Some("f64.sqrt")
    } else if op == F64Add {
        Some("f64.add")
    } else if op == F64Sub {
        Some("f64.sub")
    } else if op == F64Mul {
        Some("f64.mul")
    } else if op == F64Div {
        Some("f64.div")
    } else if op == F64Min {
        Some("f64.min")
    } else if op == F64Max {
        Some("f64.max")
    } else if op == F64CopySign {
        Some("f64.copysign")
    } else if op == I32WrapI64 {
        Some("i32.wrap_i64")
    } else if op == I32TruncF32S {
        Some("i32.trunc_f32_s")
    } else if op == I32TruncF32U {
        Some("i32.trunc_f32_u")
    } else if op == I32TruncF64S {
        Some("i32.trunc_f64_s")
    } else if op == I32TruncF64U {
        Some("i32.trunc_f64_u")
    } else if op == I64ExtendI32S {
        Some("i64.extend_i32_s")
    } else if op == I64ExtendI32U {
        Some("i64.extend_i32_u")
    } else if op == I64TruncF32S {
        Some("i64.trunc_f32_s")
    } else if op == I64TruncF32U {
        Some("i64.trunc_f32_u")
    } else if op == I64TruncF64S {
        Some("i64.trunc_f64_s")
    } else if op == I64TruncF64U {
        Some("i64.trunc_f64_u")
    } else if op == F32ConvertI32S {
        Some("f32.convert_i32_s")
    } else if op == F32ConvertI32U {
        Some("f32.convert_i32_u")
    } else if op == F32ConvertI64S {
        Some("f32.convert_i64_s")
    } else if op == F32ConvertI64U {
        Some("f32.convert_i64_u")
    } else if op == F32DemoteF64 {
        Some("f32.demote_f64")
    } else if op == F64ConvertI32S {
        Some("f64.convert_i32_s")
    } else if op == F64ConvertI32U {
        Some("f64.convert_i32_u")
    } else if op == F64ConvertI64S {
        Some("f64.convert_i64_s")
    } else if op == F64ConvertI64U {
        Some("f64.convert_i64_u")
    } else if op == F64PromoteF32 {
        Some("f64.promote_f32")
    } else if op == I32ReinterpretF32 {
        Some("i32.reinterpret_f32")
    } else if op == I64ReinterpretF64 {
        Some("i64.reinterpret_f64")
    } else if op == F32ReinterpretI32 {
        Some("f32.reinterpret_i32")
    } else if op == F64ReinterpretI64 {
        Some("f64.reinterpret_i64")
    } else if op == I32Extend8S {
        Some("i32.extend8_s")
    } else if op == I32Extend16S {
        Some("i32.extend16_s")
    } else if op == I64Extend8S {
        Some("i64.extend8_s")
    } else if op == I64Extend16S {
        Some("i64.extend16_s")
    } else if op == I64Extend32S {
        Some("i64.extend32_s")
    } else if op == TruncSat {
        Some("trunc_sat")
    } else {
        None
    }
}

/// Whether `table` holds at each opcode the mnemonic of that opcode.
pub open spec fn is_name_table(table: Seq<Option<&'static str>>) -> bool {
    &&& table.len() == 256
    &&& forall|op: u8|
        match #[trigger] table[op as int] {
            Some(name) => name_of(op) == Some(name@),
            None => name_of(op) is None,
        }
}

/// The table of the mnemonics: 256 entries, one for each byte.
pub fn init() -> (table: Vec<Option<&'static str>>)
    ensures
        is_name_table(table@),
{
    let mut table: Vec<Option<&'static str>> = Vec::new();
    let mut i: usize = 0;
    while i < 256
        invariant
            i <= 256,
            table@.len() == i,
            forall|op: u8|
                op < i ==> match #[trigger] table@[op as int] {
                    Some(name) => name_of(op) == Some(name@),
                    None => name_of(op) is None,
                },
        decreases 256 - i,
    {
        table.push(opcode_name(i as u8));
        i = i + 1;
    }
    table
}

} // verus!

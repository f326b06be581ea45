use wasm_core::binary::instruction::{ArgsEnum, BlockArgs, BrTableArgs, IfArgs, Instruction, MemArg};
use wasm_core::binary::module::{
    ExportDesc, GlobalType, ImportDesc, Limits, Locals, TableType, MAGIC_NUMBER, VERSION,
};
use wasm_core::binary::opcodes;
use wasm_core::binary::reader::{decode, WasmReader};
use wasm_core::common::common_error::CommonError;

const HEADER: [u8; 8] = [0x00, 0x61, 0x73, 0x6d, 0x01, 0x00, 0x00, 0x00];

fn module_with(sections: &[&[u8]]) -> Vec<u8> {
    let mut bytes = HEADER.to_vec();
    for s in sections {
        bytes.extend_from_slice(s);
    }
    bytes
}

fn show(expr: &[Instruction]) -> String {
    format!("{:?}", expr)
}

fn plain(opcode: u8) -> Instruction {
    Instruction { opcode, args: None }
}

fn with(opcode: u8, args: ArgsEnum) -> Instruction {
    Instruction { opcode, args: Some(args) }
}

#[test]
fn reader_test1() {
    let v = b"hello".to_vec();
    let mut r = WasmReader::new(v);
    let word = r.read_u32();
    println!("{:?}", word);
    println!("{:?}", r.remaining());
    assert_eq!(word, Ok(0x6c6c6568));
    assert_eq!(r.remaining(), 1);
}

#[test]
fn reader_test2() {
    let v: Vec<u8> = vec![
        0x01, 0x02, 0x03, 0x04, 0x05, 0x00, 0x00, 0xc0, 0x3f, 0x00, 0x00, 0x00, 0x00, 0x00, 0x00,
        0xf8, 0x3f, 0xE5, 0x8E, 0x26, 0xC0, 0xBB, 0x78, 0xC0, 0xBB, 0x78, 0x03, 0x01, 0x02, 0x03,
        0x03, 0x66, 0x6f, 0x6f, 0x80, 0x80, 0xc0, 0x0b,
    ];
    let mut reader = WasmReader::new(v);
    assert_eq!(1u8, reader.read_byte().unwrap());
    assert_eq!(0x05040302, reader.read_u32().unwrap());
    assert_eq!(1.5f32, f32::from_bits(reader.read_f32().unwrap()));
    assert_eq!(1.5f64, f64::from_bits(reader.read_f64().unwrap()));
    assert_eq!(624485u32, reader.read_var_u32().unwrap());
    assert_eq!(-123456i32, reader.read_var_s32().unwrap());
    assert_eq!(-123456i64, reader.read_var_s64().unwrap());
    assert_eq!(vec![0x01, 0x02, 0x03], reader.read_bytes().unwrap());
    assert_eq!("foo".to_string(), reader.read_name().unwrap());
    // 0x80 0x80 0xc0 0x0b spells 0x40 << 14 | 0x0b << 21.
    assert_eq!((0x40u32 << 14) | (0x0bu32 << 21), reader.read_var_u32().unwrap());
    assert_eq!(reader.remaining(), 0);
}

#[test]
fn fixed_width_reads_are_little_endian() {
    let mut r = WasmReader::new(vec![0x02, 0x03, 0x04, 0x05]);
    assert_eq!(r.read_u32(), Ok(0x05040302));
    let mut r = WasmReader::new(1.5f32.to_le_bytes().to_vec());
    assert_eq!(r.read_f32().map(f32::from_bits), Ok(1.5f32));
    let mut r = WasmReader::new(1.5f64.to_le_bytes().to_vec());
    assert_eq!(r.read_f64().map(f64::from_bits), Ok(1.5f64));
    let mut r = WasmReader::new(vec![0x01, 0x02, 0x03, 0x04, 0x05, 0x06, 0x07, 0x08]);
    assert_eq!(r.read_f64(), Ok(0x0807_0605_0403_0201));
    let mut r = WasmReader::new(vec![0x03, b'f', b'o', b'o']);
    assert_eq!(r.read_name(), Ok("foo".to_string()));
}

#[test]
fn reads_fail_at_the_end_of_the_input() {
    assert_eq!(WasmReader::new(vec![]).read_byte(), Err(CommonError::UnexpectedEnd));
    assert_eq!(WasmReader::new(vec![1, 2, 3]).read_u32(), Err(CommonError::UnexpectedEnd));
    assert_eq!(WasmReader::new(vec![1, 2, 3]).read_f32(), Err(CommonError::UnexpectedEnd));
    assert_eq!(WasmReader::new(vec![0; 7]).read_f64(), Err(CommonError::UnexpectedEnd));
    assert_eq!(WasmReader::new(vec![0x80]).read_var_u32(), Err(CommonError::UnexpectedEnd));
    assert_eq!(WasmReader::new(vec![]).read_var_s32(), Err(CommonError::UnexpectedEnd));
    assert_eq!(WasmReader::new(vec![0xff]).read_var_s64(), Err(CommonError::UnexpectedEnd));
    assert_eq!(WasmReader::new(vec![0x03, 1, 2]).read_bytes(), Err(CommonError::UnexpectedEnd));
    assert_eq!(WasmReader::new(vec![0x02, b'a']).read_name(), Err(CommonError::UnexpectedEnd));
}

#[test]
fn a_failed_fixed_read_leaves_the_cursor() {
    let mut r = WasmReader::new(vec![1, 2, 3]);
    assert_eq!(r.read_u32(), Err(CommonError::UnexpectedEnd));
    assert_eq!(r.remaining(), 3);
    assert_eq!(r.read_byte(), Ok(1));
    assert_eq!(r.remaining(), 2);
}

#[test]
fn var_reads_keep_the_low_32_bits() {
    // 2^32 + 5 in five bytes.
    let mut r = WasmReader::new(vec![0x85, 0x80, 0x80, 0x80, 0x10]);
    assert_eq!(r.read_var_u32(), Ok(5));
    let mut r = WasmReader::new(vec![0x80, 0x80, 0x80, 0x80, 0x78]);
    assert_eq!(r.read_var_s32(), Ok(i32::MIN));
    let mut r = WasmReader::new(vec![0xff, 0xff, 0xff, 0xff, 0x07]);
    assert_eq!(r.read_var_s32(), Ok(i32::MAX));
    let mut r = WasmReader::new(vec![0xff, 0xff, 0xff, 0xff, 0x0f]);
    assert_eq!(r.read_var_u32(), Ok(u32::MAX));
    let mut r = WasmReader::new(vec![0x80, 0x80, 0x80, 0x80, 0x80, 0x01]);
    assert_eq!(r.read_var_u32(), Err(CommonError::Leb128Error));
    let mut r = WasmReader::new(vec![0x80, 0x80, 0x80, 0x80, 0x80, 0x80, 0x80, 0x80, 0x80, 0x7f]);
    assert_eq!(r.read_var_s64(), Ok(i64::MIN));
}

#[test]
fn a_name_must_be_utf8() {
    assert_eq!(WasmReader::new(vec![0x02, 0xff, 0xfe]).read_name(), Err(CommonError::InvalidUtf8));
    assert_eq!(WasmReader::new(vec![0x01, 0x80]).read_name(), Err(CommonError::InvalidUtf8));
    assert_eq!(
        WasmReader::new(vec![0x04, 0xf0, 0x9f, 0xa6, 0x80]).read_name(),
        Ok("\u{1f980}".to_string())
    );
    assert_eq!(WasmReader::new(vec![0x02, 0xc3, 0xa9]).read_name(), Ok("\u{e9}".to_string()));
    assert_eq!(WasmReader::new(vec![0x00]).read_name(), Ok(String::new()));
}

#[test]
fn value_types() {
    for b in [0x7fu8, 0x7e, 0x7d, 0x7c] {
        assert_eq!(WasmReader::new(vec![b]).read_val_type(), Ok(b));
    }
    for b in [0x00u8, 0x7b, 0x80, 0x70, 0xff] {
        assert_eq!(WasmReader::new(vec![b]).read_val_type(), Err(CommonError::InvalidValueType));
    }
    assert_eq!(
        WasmReader::new(vec![0x03, 0x7f, 0x7c, 0x7e]).read_val_types(),
        Ok(vec![0x7f, 0x7c, 0x7e])
    );
    assert_eq!(
        WasmReader::new(vec![0x02, 0x7f, 0x01]).read_val_types(),
        Err(CommonError::InvalidValueType)
    );
    assert_eq!(
        WasmReader::new(vec![0x02, 0x7f]).read_val_types(),
        Err(CommonError::UnexpectedEnd)
    );
    assert_eq!(WasmReader::new(vec![0x00]).read_val_types(), Ok(vec![]));
}

#[test]
fn limits_and_types() {
    assert_eq!(
        WasmReader::new(vec![0x00, 0x11]).read_limits(),
        Ok(Limits { tag: 0, min: 17, max: None })
    );
    assert_eq!(
        WasmReader::new(vec![0x01, 0x01, 0x80, 0x01]).read_limits(),
        Ok(Limits { tag: 1, min: 1, max: Some(128) })
    );
    let mut r = WasmReader::new(vec![0x02, 0x05, 0x09]);
    assert_eq!(r.read_limits(), Ok(Limits { tag: 2, min: 5, max: None }));
    assert_eq!(r.remaining(), 1);
    assert_eq!(
        WasmReader::new(vec![0x70, 0x01, 0x01, 0x01]).read_table_type(),
        Ok(TableType { elem_type: 0x70, limits: Limits { tag: 1, min: 1, max: Some(1) } })
    );
    assert_eq!(
        WasmReader::new(vec![0x6f, 0x00, 0x01]).read_table_type(),
        Err(CommonError::InvalidElemType)
    );
    assert_eq!(
        WasmReader::new(vec![0x7f, 0x01]).read_global_type(),
        Ok(GlobalType { val_type: 0x7f, m: 1 })
    );
    assert_eq!(
        WasmReader::new(vec![0x7e, 0x00]).read_global_type(),
        Ok(GlobalType { val_type: 0x7e, m: 0 })
    );
    assert_eq!(
        WasmReader::new(vec![0x7f, 0x02]).read_global_type(),
        Err(CommonError::InvalidMutability)
    );
    assert_eq!(
        WasmReader::new(vec![0x10, 0x00]).read_global_type(),
        Err(CommonError::InvalidValueType)
    );
}

#[test]
fn function_types() {
    let ft = WasmReader::new(vec![0x60, 0x02, 0x7f, 0x7e, 0x01, 0x7c]).read_func_type().unwrap();
    assert_eq!(ft.tag, 0x60);
    assert_eq!(ft.param_types, vec![0x7f, 0x7e]);
    assert_eq!(ft.result_types, vec![0x7c]);
    assert_eq!(
        WasmReader::new(vec![0x61, 0x00, 0x00]).read_func_type().map(|f| f.tag),
        Err(CommonError::InvalidFuncTypeTag)
    );
}

#[test]
fn import_descriptions() {
    assert_eq!(
        WasmReader::new(vec![0x00, 0x07]).read_import_desc(),
        Ok(ImportDesc { tag: 0, fun_type: Some(7), table: None, mem: None, global: None })
    );
    assert_eq!(
        WasmReader::new(vec![0x01, 0x70, 0x00, 0x02]).read_import_desc(),
        Ok(ImportDesc {
            tag: 1,
            fun_type: None,
            table: Some(TableType {
                elem_type: 0x70,
                limits: Limits { tag: 0, min: 2, max: None }
            }),
            mem: None,
            global: None
        })
    );
    assert_eq!(
        WasmReader::new(vec![0x02, 0x01, 0x01, 0x02]).read_import_desc(),
        Ok(ImportDesc {
            tag: 2,
            fun_type: None,
            table: None,
            mem: Some(Limits { tag: 1, min: 1, max: Some(2) }),
            global: None
        })
    );
    assert_eq!(
        WasmReader::new(vec![0x03, 0x7d, 0x00]).read_import_desc(),
        Ok(ImportDesc {
            tag: 3,
            fun_type: None,
            table: None,
            mem: None,
            global: Some(GlobalType { val_type: 0x7d, m: 0 })
        })
    );
    assert_eq!(
        WasmReader::new(vec![0x04, 0x00]).read_import_desc(),
        Err(CommonError::InvalidImportTag)
    );
    let import = WasmReader::new(vec![0x03, b'e', b'n', b'v', 0x01, b'f', 0x00, 0x02])
        .read_import()
        .unwrap();
    assert_eq!(import.module, "env");
    assert_eq!(import.name, "f");
    assert_eq!(import.import_desc.fun_type, Some(2));
}

#[test]
fn instructions_without_an_argument() {
    let mut r = WasmReader::new(vec![0x01, 0x6a, 0x1a, 0x0b]);
    let expr = r.read_expr().unwrap();
    assert_eq!(show(&expr), show(&[plain(opcodes::Nop), plain(opcodes::I32Add), plain(opcodes::Drop)]));
    assert_eq!(r.remaining(), 0);
}

#[test]
fn instructions_with_an_index() {
    let bytes = vec![
        0x0c, 0x01, 0x0d, 0x02, 0x10, 0xe5, 0x8e, 0x26, 0x20, 0x00, 0x21, 0x01, 0x22, 0x02, 0x23,
        0x03, 0x24, 0x04, 0x0b,
    ];
    let expr = WasmReader::new(bytes).read_expr().unwrap();
    let want = [
        with(opcodes::Br, ArgsEnum::U32(1)),
        with(opcodes::BrIf, ArgsEnum::U32(2)),
        with(opcodes::Call, ArgsEnum::U32(624485)),
        with(opcodes::LocalGet, ArgsEnum::U32(0)),
        with(opcodes::LocalSet, ArgsEnum::U32(1)),
        with(opcodes::LocalTee, ArgsEnum::U32(2)),
        with(opcodes::GlobalGet, ArgsEnum::U32(3)),
        with(opcodes::GlobalSet, ArgsEnum::U32(4)),
    ];
    assert_eq!(show(&expr), show(&want));
}

#[test]
fn constants() {
    let mut bytes = vec![0x41, 0xc0, 0xbb, 0x78, 0x42, 0x7f, 0x43];
    bytes.extend_from_slice(&1.5f32.to_le_bytes());
    bytes.push(0x44);
    bytes.extend_from_slice(&(-2.25f64).to_le_bytes());
    bytes.push(0x0b);
    let expr = WasmReader::new(bytes).read_expr().unwrap();
    let want = [
        with(opcodes::I32Const, ArgsEnum::I32(-123456)),
        with(opcodes::I64Const, ArgsEnum::I64(-1)),
        with(opcodes::F32Const, ArgsEnum::F32(1.5f32.to_bits())),
        with(opcodes::F64Const, ArgsEnum::F64((-2.25f64).to_bits())),
    ];
    assert_eq!(show(&expr), show(&want));
}

#[test]
fn memory_instructions() {
    let bytes = vec![0x28, 0x02, 0x10, 0x3e, 0x00, 0x80, 0x01, 0x3f, 0x00, 0x40, 0x00, 0x0b];
    let expr = WasmReader::new(bytes).read_expr().unwrap();
    let want = [
        with(opcodes::I32Load, ArgsEnum::MemArg(MemArg { align: 2, offset: 16 })),
        with(opcodes::I64Store32, ArgsEnum::MemArg(MemArg { align: 0, offset: 128 })),
        with(opcodes::MemorySize, ArgsEnum::U8(0)),
        with(opcodes::MemoryGrow, ArgsEnum::U8(0)),
    ];
    assert_eq!(show(&expr), show(&want));
    // Every opcode from the first load to the last store takes a memory argument.
    for op in opcodes::I32Load..=opcodes::I64Store32 {
        let i = WasmReader::new(vec![op, 0x01, 0x02]).read_instruction().unwrap();
        assert_eq!(format!("{:?}", i), format!("{:?}", with(op, ArgsEnum::MemArg(MemArg { align: 1, offset: 2 }))));
    }
    assert_eq!(
        WasmReader::new(vec![0x3f, 0x01, 0x0b]).read_expr().map(|e| e.len()),
        Err(CommonError::ZeroFlagExpected)
    );
}

#[test]
fn call_indirect_and_br_table() {
    let bytes = vec![0x11, 0x05, 0x00, 0x0e, 0x03, 0x00, 0x01, 0x02, 0x07, 0xfc, 0x06, 0x0b];
    let expr = WasmReader::new(bytes).read_expr().unwrap();
    let want = [
        with(opcodes::CallIndirect, ArgsEnum::U32(5)),
        with(
            opcodes::BrTable,
            ArgsEnum::BrTableArgs(BrTableArgs { labels: vec![0, 1, 2], default: 7 }),
        ),
        with(opcodes::TruncSat, ArgsEnum::U8(6)),
    ];
    assert_eq!(show(&expr), show(&want));
    assert_eq!(
        WasmReader::new(vec![0x11, 0x05, 0x01, 0x0b]).read_expr().map(|e| e.len()),
        Err(CommonError::ZeroFlagExpected)
    );
    assert_eq!(WasmReader::new(vec![0x05, 0x00]).read_call_indirect_args(), Ok(5));
    assert_eq!(WasmReader::new(vec![0x00]).read_zero(), Ok(0));
    assert_eq!(WasmReader::new(vec![0x09]).read_zero(), Err(CommonError::ZeroFlagExpected));
    assert_eq!(
        WasmReader::new(vec![0x02, 0x03]).read_mem_arg(),
        Ok(MemArg { align: 2, offset: 3 })
    );
}

#[test]
fn blocks_and_branches() {
    let bytes = vec![
        0x02, 0x40, 0x41, 0x01, 0x04, 0x7f, 0x41, 0x02, 0x05, 0x41, 0x03, 0x0b, 0x03, 0x00, 0x01,
        0x0b, 0x0b, 0x04, 0x7e, 0x01, 0x0b, 0x0b,
    ];
    let mut r = WasmReader::new(bytes);
    let expr = r.read_expr().unwrap();
    assert_eq!(r.remaining(), 0);
    let inner_if = with(
        opcodes::If,
        ArgsEnum::IfArgs(IfArgs {
            bt: -1,
            instrs1: vec![with(opcodes::I32Const, ArgsEnum::I32(2))],
            instrs2: Some(vec![with(opcodes::I32Const, ArgsEnum::I32(3))]),
        }),
    );
    let inner_loop = with(
        opcodes::Loop,
        ArgsEnum::BlockArgs(BlockArgs { bt: 0, instrs: vec![plain(opcodes::Nop)] }),
    );
    let want = [
        with(
            opcodes::Block,
            ArgsEnum::BlockArgs(BlockArgs {
                bt: -64,
                instrs: vec![with(opcodes::I32Const, ArgsEnum::I32(1)), inner_if, inner_loop],
            }),
        ),
        with(
            opcodes::If,
            ArgsEnum::IfArgs(IfArgs { bt: -2, instrs1: vec![plain(opcodes::Nop)], instrs2: None }),
        ),
    ];
    assert_eq!(show(&expr), show(&want));
}

#[test]
fn block_types() {
    for (byte, bt) in [(0x7fu8, -1), (0x7e, -2), (0x7d, -3), (0x7c, -4), (0x40, -64), (0x00, 0), (0x05, 5)] {
        assert_eq!(WasmReader::new(vec![byte]).read_block_type(), Ok(bt));
    }
    assert_eq!(WasmReader::new(vec![0x80, 0x01]).read_block_type(), Ok(128));
    for byte in [0x7bu8, 0x41, 0x70] {
        assert_eq!(WasmReader::new(vec![byte]).read_block_type(), Err(CommonError::InvalidBlockType));
    }
    assert_eq!(
        WasmReader::new(vec![0x02, 0x7b, 0x0b, 0x0b]).read_expr().map(|e| e.len()),
        Err(CommonError::InvalidBlockType)
    );
}

#[test]
fn terminators() {
    // A block that `else` closes.
    assert_eq!(
        WasmReader::new(vec![0x02, 0x40, 0x05, 0x0b]).read_expr().map(|e| e.len()),
        Err(CommonError::InvalidTerminator)
    );
    // An expression that `else` closes.
    assert_eq!(
        WasmReader::new(vec![0x01, 0x05]).read_expr().map(|e| e.len()),
        Err(CommonError::InvalidTerminator)
    );
    // An `if` with two `else`.
    assert_eq!(
        WasmReader::new(vec![0x04, 0x40, 0x05, 0x05, 0x0b, 0x0b]).read_expr().map(|e| e.len()),
        Err(CommonError::InvalidTerminator)
    );
    // The sequence and the opcode that ended it.
    let (v, end) = WasmReader::new(vec![0x01, 0x05, 0x01]).read_instructions().unwrap();
    assert_eq!((v.len(), end), (1, opcodes::Else_));
    let (v, end) = WasmReader::new(vec![0x0b]).read_instructions().unwrap();
    assert_eq!((v.len(), end), (0, opcodes::End_));
}

#[test]
fn unterminated_and_unknown() {
    assert_eq!(
        WasmReader::new(vec![0x01, 0x01]).read_expr().map(|e| e.len()),
        Err(CommonError::UnterminatedExpr)
    );
    assert_eq!(
        WasmReader::new(vec![]).read_instructions().map(|e| e.1),
        Err(CommonError::UnterminatedExpr)
    );
    assert_eq!(
        WasmReader::new(vec![0x02, 0x40, 0x01]).read_expr().map(|e| e.len()),
        Err(CommonError::UnterminatedExpr)
    );
    for op in [0x06u8, 0x0a, 0x12, 0x19, 0x1c, 0x25, 0x27, 0xc5, 0xfb, 0xfd, 0xff] {
        assert_eq!(
            WasmReader::new(vec![op, 0x0b]).read_expr().map(|e| e.len()),
            Err(CommonError::UnknownOpcode)
        );
        assert!(!opcodes::known_opcode(op));
    }
    for op in [0x00u8, 0x05, 0x0b, 0x11, 0x1a, 0x1b, 0x20, 0x24, 0x28, 0x2a, 0x44, 0xb1, 0xc4, 0xfc] {
        assert!(opcodes::known_opcode(op));
    }
    // An index that is cut off inside an instruction.
    assert_eq!(
        WasmReader::new(vec![0x20, 0x80]).read_expr().map(|e| e.len()),
        Err(CommonError::UnexpectedEnd)
    );
}

fn nested_blocks(n: usize) -> Vec<u8> {
    let mut bytes = Vec::new();
    for _ in 0..n {
        bytes.extend_from_slice(&[0x02, 0x40]);
    }
    for _ in 0..n {
        bytes.push(0x0b);
    }
    bytes.push(0x0b);
    bytes
}

#[test]
fn nesting_is_bounded() {
    let mut r = WasmReader::new(nested_blocks(128));
    let expr = r.read_expr().unwrap();
    assert_eq!(expr.len(), 1);
    assert_eq!(r.remaining(), 0);
    let mut depth = 0;
    let mut cur = &expr;
    while let Some(Instruction { args: Some(ArgsEnum::BlockArgs(b)), .. }) = cur.first() {
        depth += 1;
        cur = &b.instrs;
    }
    assert_eq!(depth, 128);
    assert_eq!(
        WasmReader::new(nested_blocks(129)).read_expr().map(|e| e.len()),
        Err(CommonError::NestingTooDeep)
    );
    assert_eq!(
        WasmReader::new(nested_blocks(5000)).read_expr().map(|e| e.len()),
        Err(CommonError::NestingTooDeep)
    );
    // An `if` nests as a block does.
    let mut bytes = nested_blocks(128);
    bytes.splice(256..256, [0x04, 0x40, 0x0b]);
    assert_eq!(
        WasmReader::new(bytes).read_expr().map(|e| e.len()),
        Err(CommonError::NestingTooDeep)
    );
}

#[test]
fn header_only() {
    let m = decode(HEADER.to_vec()).unwrap();
    assert_eq!(m.magic, MAGIC_NUMBER);
    assert_eq!(m.version, VERSION);
    assert!(m.custom_secs.is_none());
    assert!(m.type_sec.is_none());
    assert!(m.code_sec.is_none());
    assert_eq!(decode(vec![]).map(|m| m.magic), Err(CommonError::UnexpectedEnd));
    assert_eq!(decode(HEADER[..7].to_vec()).map(|m| m.magic), Err(CommonError::UnexpectedEnd));
}

const TYPE_SEC: [u8; 9] = [0x01, 0x07, 0x01, 0x60, 0x02, 0x7f, 0x7f, 0x01, 0x7f];
const IMPORT_SEC: [u8; 11] = [0x02, 0x09, 0x01, 0x03, 0x65, 0x6e, 0x76, 0x01, 0x66, 0x00, 0x00];
const FUNC_SEC: [u8; 4] = [0x03, 0x02, 0x01, 0x00];
const TABLE_SEC: [u8; 6] = [0x04, 0x04, 0x01, 0x70, 0x00, 0x01];
const MEM_SEC: [u8; 6] = [0x05, 0x04, 0x01, 0x01, 0x01, 0x02];
const GLOBAL_SEC: [u8; 8] = [0x06, 0x06, 0x01, 0x7f, 0x00, 0x41, 0x2a, 0x0b];
const EXPORT_SEC: [u8; 9] = [0x07, 0x07, 0x01, 0x03, 0x61, 0x64, 0x64, 0x00, 0x01];
const START_SEC: [u8; 3] = [0x08, 0x01, 0x01];
const ELEM_SEC: [u8; 9] = [0x09, 0x07, 0x01, 0x00, 0x41, 0x00, 0x0b, 0x01, 0x01];
const CODE_SEC: [u8; 13] =
    [0x0a, 0x0b, 0x01, 0x09, 0x01, 0x02, 0x7f, 0x20, 0x00, 0x20, 0x01, 0x6a, 0x0b];
const DATA_SEC: [u8; 11] = [0x0b, 0x09, 0x01, 0x00, 0x41, 0x00, 0x0b, 0x03, 0x61, 0x62, 0x63];
const CUSTOM_SEC: [u8; 8] = [0x00, 0x06, 0x02, 0x6e, 0x6d, 0x01, 0x02, 0x03];

#[test]
fn a_module_with_every_section() {
    let bytes = module_with(&[
        &CUSTOM_SEC,
        &TYPE_SEC,
        &IMPORT_SEC,
        &FUNC_SEC,
        &TABLE_SEC,
        &CUSTOM_SEC,
        &MEM_SEC,
        &GLOBAL_SEC,
        &EXPORT_SEC,
        &START_SEC,
        &ELEM_SEC,
        &CODE_SEC,
        &DATA_SEC,
        &[0x00, 0x01, 0x00],
    ]);
    let m = decode(bytes).unwrap();
    assert_eq!(m.magic, 0x6d73_6100);
    assert_eq!(m.version, 1);

    let customs = m.custom_secs.unwrap();
    assert_eq!(customs.len(), 3);
    assert_eq!(customs[0].name, "nm");
    assert_eq!(customs[0].bytes, vec![1, 2, 3]);
    assert_eq!(customs[1].name, "nm");
    assert_eq!(customs[2].name, "");
    assert_eq!(customs[2].bytes, Vec::<u8>::new());

    let types = m.type_sec.unwrap();
    assert_eq!(types.len(), 1);
    assert_eq!(types[0].tag, 0x60);
    assert_eq!(types[0].param_types, vec![0x7f, 0x7f]);
    assert_eq!(types[0].result_types, vec![0x7f]);

    let imports = m.import_sec.unwrap();
    assert_eq!(imports.len(), 1);
    assert_eq!(imports[0].module, "env");
    assert_eq!(imports[0].name, "f");
    assert_eq!(
        imports[0].import_desc,
        ImportDesc { tag: 0, fun_type: Some(0), table: None, mem: None, global: None }
    );

    assert_eq!(m.func_sec, Some(vec![0]));
    assert_eq!(
        m.table_sec,
        Some(vec![TableType { elem_type: 0x70, limits: Limits { tag: 0, min: 1, max: None } }])
    );
    assert_eq!(m.mem_sec, Some(vec![Limits { tag: 1, min: 1, max: Some(2) }]));

    let globals = m.global_sec.unwrap();
    assert_eq!(globals.len(), 1);
    assert_eq!(globals[0].ty, GlobalType { val_type: 0x7f, m: 0 });
    assert_eq!(show(&globals[0].init), show(&[with(opcodes::I32Const, ArgsEnum::I32(42))]));

    let exports = m.export_sec.unwrap();
    assert_eq!(exports.len(), 1);
    assert_eq!(exports[0].name, "add");
    assert_eq!(exports[0].desc, ExportDesc { tag: 0, idx: 1 });

    assert_eq!(m.start_sec, Some(1));

    let elems = m.elem_sec.unwrap();
    assert_eq!(elems.len(), 1);
    assert_eq!(elems[0].table, 0);
    assert_eq!(show(&elems[0].offset), show(&[with(opcodes::I32Const, ArgsEnum::I32(0))]));
    assert_eq!(elems[0].init, vec![1]);

    let code = m.code_sec.unwrap();
    assert_eq!(code.len(), 1);
    assert_eq!(code[0].locals, vec![Locals { n: 2, ty: 0x7f }]);
    assert_eq!(code[0].get_local_count(), Some(2));
    assert_eq!(
        show(&code[0].expr),
        show(&[
            with(opcodes::LocalGet, ArgsEnum::U32(0)),
            with(opcodes::LocalGet, ArgsEnum::U32(1)),
            plain(opcodes::I32Add),
        ])
    );

    let data = m.data_sec.unwrap();
    assert_eq!(data.len(), 1);
    assert_eq!(data[0].mem, 0);
    assert_eq!(show(&data[0].offset), show(&[with(opcodes::I32Const, ArgsEnum::I32(0))]));
    assert_eq!(data[0].init, b"abc".to_vec());
}

#[test]
fn sections_must_come_in_order() {
    let bytes = module_with(&[&TABLE_SEC, &IMPORT_SEC]);
    assert_eq!(decode(bytes).map(|m| m.version), Err(CommonError::SectionOrder));
    let bytes = module_with(&[&TYPE_SEC, &TYPE_SEC]);
    assert_eq!(decode(bytes).map(|m| m.version), Err(CommonError::SectionOrder));
    let bytes = module_with(&[&DATA_SEC, &CUSTOM_SEC, &TYPE_SEC]);
    assert_eq!(decode(bytes).map(|m| m.version), Err(CommonError::SectionOrder));
    // Sections may be left out, and custom sections do not count.
    let bytes = module_with(&[&TYPE_SEC, &CUSTOM_SEC, &MEM_SEC, &CUSTOM_SEC, &DATA_SEC]);
    let m = decode(bytes).unwrap();
    assert!(m.import_sec.is_none());
    assert_eq!(m.custom_secs.map(|c| c.len()), Some(2));
}

#[test]
fn section_ids_are_bounded() {
    let bytes = module_with(&[&[0x0c, 0x00]]);
    assert_eq!(decode(bytes).map(|m| m.version), Err(CommonError::InvalidSectionId));
    let bytes = module_with(&[&DATA_SEC, &[0xff, 0x00]]);
    assert_eq!(decode(bytes).map(|m| m.version), Err(CommonError::InvalidSectionId));
}

#[test]
fn a_section_takes_the_bytes_it_declares() {
    // One byte too many declared.
    let bytes = module_with(&[&[0x03, 0x03, 0x01, 0x00], &[0x00]]);
    assert_eq!(decode(bytes).map(|m| m.version), Err(CommonError::SectionSizeMismatch));
    // One byte too few declared.
    let bytes = module_with(&[&[0x03, 0x01, 0x01, 0x00]]);
    assert_eq!(decode(bytes).map(|m| m.version), Err(CommonError::SectionSizeMismatch));
    let bytes = module_with(&[&[0x08, 0x02, 0x01]]);
    assert_eq!(decode(bytes).map(|m| m.version), Err(CommonError::SectionSizeMismatch));
    // The size itself is cut off.
    let bytes = module_with(&[&[0x03]]);
    assert_eq!(decode(bytes).map(|m| m.version), Err(CommonError::UnexpectedEnd));
}

#[test]
fn errors_inside_sections() {
    let cases: Vec<(Vec<u8>, CommonError)> = vec![
        (vec![0x01, 0x04, 0x01, 0x5f, 0x00, 0x00], CommonError::InvalidFuncTypeTag),
        (vec![0x01, 0x05, 0x01, 0x60, 0x01, 0x7b, 0x00], CommonError::InvalidValueType),
        (vec![0x02, 0x06, 0x01, 0x00, 0x00, 0x04, 0x00], CommonError::InvalidImportTag),
        (vec![0x02, 0x06, 0x01, 0x01, 0xff, 0x00, 0x00, 0x00], CommonError::InvalidUtf8),
        (vec![0x04, 0x04, 0x01, 0x6f, 0x00, 0x01], CommonError::InvalidElemType),
        (vec![0x06, 0x06, 0x01, 0x7f, 0x02, 0x41, 0x00, 0x0b], CommonError::InvalidMutability),
        (vec![0x06, 0x06, 0x01, 0x7f, 0x00, 0x41, 0x00, 0x05], CommonError::InvalidTerminator),
        (vec![0x07, 0x04, 0x01, 0x00, 0x04, 0x00], CommonError::InvalidExportTag),
        (vec![0x09, 0x05, 0x01, 0x00, 0xc5, 0x0b, 0x00], CommonError::UnknownOpcode),
        (vec![0x0a, 0x04, 0x01, 0x02, 0x00, 0x01], CommonError::UnterminatedExpr),
        (vec![0x0b, 0x07, 0x01, 0x00, 0x41, 0x00, 0x0b, 0x05, 0x61], CommonError::UnexpectedEnd),
        (vec![0x00, 0x03, 0x02, 0x61], CommonError::UnexpectedEnd),
        (vec![0x00, 0x03, 0x05, 0x61, 0x62], CommonError::UnexpectedEnd),
        (vec![0x00, 0x02, 0x01, 0xff], CommonError::InvalidUtf8),
        (vec![0x05, 0x80, 0x80, 0x80, 0x80, 0x80, 0x00], CommonError::Leb128Error),
    ];
    for (section, want) in cases {
        let bytes = module_with(&[&section]);
        assert_eq!(decode(bytes).map(|m| m.version), Err(want));
    }
}

#[test]
fn too_many_locals() {
    // Two groups of 2^31 locals and 2^31 - 1 locals: 2^32 - 1 together.
    let body = vec![0x02, 0x80, 0x80, 0x80, 0x80, 0x08, 0x7f, 0xff, 0xff, 0xff, 0xff, 0x07, 0x7e, 0x0b];
    let mut entry = vec![body.len() as u8];
    entry.extend_from_slice(&body);
    assert_eq!(
        WasmReader::new(entry).read_code().map(|c| c.locals.len()),
        Err(CommonError::TooManyLocals)
    );
    // One fewer is fine.
    let body = vec![0x02, 0x80, 0x80, 0x80, 0x80, 0x08, 0x7f, 0xfe, 0xff, 0xff, 0xff, 0x07, 0x7e, 0x0b];
    let mut entry = vec![body.len() as u8];
    entry.extend_from_slice(&body);
    let code = WasmReader::new(entry).read_code().unwrap();
    assert_eq!(code.get_local_count(), Some(u32::MAX - 1));
    assert_eq!(code.locals, vec![Locals { n: 1 << 31, ty: 0x7f }, Locals { n: (1 << 31) - 2, ty: 0x7e }]);
    // A single group of 2^32 - 1 locals.
    let entry = vec![0x08, 0x01, 0xff, 0xff, 0xff, 0xff, 0x0f, 0x7f, 0x0b];
    assert_eq!(
        WasmReader::new(entry).read_code().map(|c| c.locals.len()),
        Err(CommonError::TooManyLocals)
    );
}

#[test]
fn section_readers_read_vectors() {
    assert_eq!(WasmReader::new(vec![0x02, 0x05, 0x80, 0x01]).read_indices(), Ok(vec![5, 128]));
    assert_eq!(WasmReader::new(vec![0x2a]).read_start_sec(), Ok(42));
    assert_eq!(
        WasmReader::new(vec![0x02, 0x00, 0x01, 0x01, 0x02, 0x03]).read_mem_sec(),
        Ok(vec![Limits { tag: 0, min: 1, max: None }, Limits { tag: 1, min: 2, max: Some(3) }])
    );
    assert_eq!(
        WasmReader::new(vec![0x01, 0x70, 0x00, 0x00]).read_table_sec(),
        Ok(vec![TableType { elem_type: 0x70, limits: Limits { tag: 0, min: 0, max: None } }])
    );
    assert_eq!(
        WasmReader::new(vec![0x02, 0x03, 0x7f, 0x01, 0x7c]).read_locals_vec(),
        Ok(vec![Locals { n: 3, ty: 0x7f }, Locals { n: 1, ty: 0x7c }])
    );
    let types = WasmReader::new(TYPE_SEC[2..].to_vec()).read_type_sec().unwrap();
    assert_eq!(types.len(), 1);
    let imports = WasmReader::new(IMPORT_SEC[2..].to_vec()).read_import_sec().unwrap();
    assert_eq!(imports[0].module, "env");
    let globals = WasmReader::new(GLOBAL_SEC[2..].to_vec()).read_global_sec().unwrap();
    assert_eq!(globals[0].ty.val_type, 0x7f);
    let exports = WasmReader::new(EXPORT_SEC[2..].to_vec()).read_export_sec().unwrap();
    assert_eq!(exports[0].name, "add");
    let elems = WasmReader::new(ELEM_SEC[2..].to_vec()).read_elem_sec().unwrap();
    assert_eq!(elems[0].init, vec![1]);
    let code = WasmReader::new(CODE_SEC[2..].to_vec()).read_code_sec().unwrap();
    assert_eq!(code[0].expr.len(), 3);
    let data = WasmReader::new(DATA_SEC[2..].to_vec()).read_data_sec().unwrap();
    assert_eq!(data[0].init, b"abc".to_vec());
    let custom = WasmReader::new(CUSTOM_SEC[1..].to_vec()).read_custom_sec().unwrap();
    assert_eq!((custom.name.as_str(), custom.bytes), ("nm", vec![1, 2, 3]));
    let mut r = WasmReader::new(module_with(&[&TYPE_SEC, &FUNC_SEC]));
    let m = r.read_module().unwrap();
    assert_eq!(m.func_sec, Some(vec![0]));
    assert_eq!(r.remaining(), 0);
    let m = WasmReader::new(module_with(&[&START_SEC])).read_sections().unwrap();
    assert_eq!(m.start_sec, Some(1));
}

#[test]
fn read_non_custom_sec_fills_the_section_it_is_asked_for() {
    let mut m = decode(HEADER.to_vec()).unwrap();
    let mut r = WasmReader::new(FUNC_SEC[2..].to_vec());
    assert_eq!(r.read_non_custom_sec(3, &mut m), Ok(()));
    assert_eq!(m.func_sec, Some(vec![0]));
    assert!(m.type_sec.is_none());
    let mut r = WasmReader::new(vec![0x07]);
    assert_eq!(r.read_non_custom_sec(8, &mut m), Ok(()));
    assert_eq!(m.start_sec, Some(7));
    // An id that names no section reads nothing.
    let mut r = WasmReader::new(vec![0x07]);
    assert_eq!(r.read_non_custom_sec(12, &mut m), Ok(()));
    assert_eq!(r.remaining(), 1);
    let mut r = WasmReader::new(vec![0x01, 0x6f, 0x00, 0x00]);
    assert_eq!(r.read_non_custom_sec(4, &mut m), Err(CommonError::InvalidElemType));
    assert!(m.table_sec.is_none());
}

#[test]
fn error_messages() {
    assert_eq!(CommonError::Leb128Error.message(), "malformed variable-length integer");
    assert_eq!(CommonError::UnexpectedEnd.message(), "unexpected end of input");
    assert_eq!(CommonError::SectionOrder.message(), "section out of order");
    assert_eq!(CommonError::NestingTooDeep.message(), "blocks nested too deep");
}

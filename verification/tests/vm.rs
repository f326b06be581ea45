use wasm_core::binary::instruction::ArgsEnum;
use wasm_core::binary::instruction::ArgsEnum::{F32, F64, I32, I64, U32, U64};
use wasm_core::binary::opcodes;
use wasm_core::binary::reader::decode;
use wasm_core::interpreter::operand;
use wasm_core::interpreter::trap::Trap;
use wasm_core::interpreter::vm::{handler_for, init, Handler, HostOp, Vm};

fn new_vm() -> Vm {
    let m = decode(vec![0x00, 0x61, 0x73, 0x6d, 0x01, 0x00, 0x00, 0x00]).unwrap();
    Vm::new(operand::new(), m)
}

fn f32_of(v: &ArgsEnum) -> f32 {
    f32::from_bits(v.get_f32().unwrap())
}

fn f64_of(v: &ArgsEnum) -> f64 {
    f64::from_bits(v.get_f64().unwrap())
}

/// The arithmetic that the machine leaves to its host.
fn host(op: HostOp, a: ArgsEnum, b: Option<ArgsEnum>) -> u64 {
    let b32 = || f32_of(b.as_ref().unwrap());
    let b64 = || f64_of(b.as_ref().unwrap());
    let r32 = |x: f32| x.to_bits() as u64;
    let r64 = |x: f64| x.to_bits();
    match op {
        HostOp::F32Ceil => r32(f32_of(&a).ceil()),
        HostOp::F32Floor => r32(f32_of(&a).floor()),
        HostOp::F32Trunc => r32(f32_of(&a).trunc()),
        HostOp::F32Nearest => r32(f32_of(&a).round()),
        HostOp::F32Sqrt => r32(f32_of(&a).sqrt()),
        HostOp::F32Add => r32(f32_of(&a) + b32()),
        HostOp::F32Sub => r32(f32_of(&a) - b32()),
        HostOp::F32Mul => r32(f32_of(&a) * b32()),
        HostOp::F32Div => r32(f32_of(&a) / b32()),
        HostOp::F64Ceil => r64(f64_of(&a).ceil()),
        HostOp::F64Floor => r64(f64_of(&a).floor()),
        HostOp::F64Trunc => r64(f64_of(&a).trunc()),
        HostOp::F64Nearest => r64(f64_of(&a).round()),
        HostOp::F64Sqrt => r64(f64_of(&a).sqrt()),
        HostOp::F64Add => r64(f64_of(&a) + b64()),
        HostOp::F64Sub => r64(f64_of(&a) - b64()),
        HostOp::F64Mul => r64(f64_of(&a) * b64()),
        HostOp::F64Div => r64(f64_of(&a) / b64()),
        HostOp::F32ConvertI32S => r32(a.get_i32().unwrap() as f32),
        HostOp::F32ConvertI32U => r32(a.get_u32().unwrap() as f32),
        HostOp::F32ConvertI64S => r32(a.get_i64().unwrap() as f32),
        HostOp::F32ConvertI64U => r32(a.get_u64().unwrap() as f32),
        HostOp::F32DemoteF64 => r32(f64_of(&a) as f32),
        HostOp::F64ConvertI32S => r64(a.get_i32().unwrap() as f64),
        HostOp::F64ConvertI32U => r64(a.get_u32().unwrap() as f64),
        HostOp::F64ConvertI64S => r64(a.get_i64().unwrap() as f64),
        HostOp::F64ConvertI64U => r64(a.get_u64().unwrap() as f64),
        HostOp::F64PromoteF32 => r64(f32_of(&a) as f64),
    }
}

fn run(vm: &mut Vm, table: &Vec<Option<Handler>>, opcode: u8, args: &ArgsEnum) -> Result<(), Trap> {
    match vm.dispatch(table, opcode, args)? {
        None => Ok(()),
        Some(op) => {
            let (a, b) = vm.host_operands(op)?;
            vm.host_result(op, host(op, a, b))
        }
    }
}

fn none_args(vm: &mut Vm, var1: ArgsEnum, var2: ArgsEnum, op_code: u8) -> ArgsEnum {
    let table = init();
    vm.push(var1);
    vm.push(var2);
    run(vm, &table, op_code, &ArgsEnum::NONE).unwrap();
    vm.pop().unwrap()
}

fn none_args_2(vm: &mut Vm, var1: ArgsEnum, op_code: u8) -> ArgsEnum {
    let table = init();
    vm.push(var1);
    run(vm, &table, op_code, &ArgsEnum::NONE).unwrap();
    vm.pop().unwrap()
}

fn trap_of(values: Vec<ArgsEnum>, op_code: u8, args: ArgsEnum) -> Option<Trap> {
    let table = init();
    let mut vm = new_vm();
    let n = values.len();
    let shown = format!("{:?}", values);
    for v in values {
        vm.push(v);
    }
    let r = run(&mut vm, &table, op_code, &args);
    if r.is_err() {
        // A trap leaves the stack as it was.
        let mut left = Vec::new();
        while let Some(v) = vm.pop() {
            left.insert(0, v);
        }
        assert_eq!(left.len(), n);
        assert_eq!(format!("{:?}", left), shown);
    }
    r.err()
}

fn f(x: f32) -> ArgsEnum {
    F32(x.to_bits())
}

fn d(x: f64) -> ArgsEnum {
    F64(x.to_bits())
}

#[test]
fn vm_test1() {}

#[test]
fn vm_test2() {
    let mut vm = new_vm();

    vm.i32_const(100_i32);
    vm.i64_const(200_i64);
    vm.f32_const(1.5_f32.to_bits());
    vm.f64_const(2.5_f64.to_bits());

    assert_eq!(Some(2.5_f64), vm.pop().and_then(|v| v.get_f64()).map(f64::from_bits));
    assert_eq!(Some(1.5_f32), vm.pop().and_then(|v| v.get_f32()).map(f32::from_bits));
    assert_eq!(Some(200_i64), vm.pop().and_then(|v| v.get_i64()));
    assert_eq!(Some(100_i32), vm.pop().and_then(|v| v.get_i32()));
}

#[test]
fn test3() {
    let mut vm = new_vm();

    //i32eq
    assert_eq!(none_args(&mut vm, ArgsEnum::I32(1), ArgsEnum::I32(1), opcodes::I32Eq), ArgsEnum::Bool(true));
    //i32ne
    assert_eq!(none_args(&mut vm, ArgsEnum::I32(1), ArgsEnum::I32(1), opcodes::I32Ne), ArgsEnum::Bool(false));
    assert_eq!(none_args(&mut vm, ArgsEnum::I32(1), ArgsEnum::I32(-1), opcodes::I32Ne), ArgsEnum::Bool(true));
    //i32lts
    assert_eq!(none_args(&mut vm, ArgsEnum::I32(-1), ArgsEnum::I32(1), opcodes::I32LtS), ArgsEnum::Bool(true));
    assert_eq!(none_args(&mut vm, ArgsEnum::I32(1), ArgsEnum::I32(-1), opcodes::I32LtS), ArgsEnum::Bool(false));
    //i32ltu
    assert_eq!(none_args(&mut vm, ArgsEnum::U32(2), ArgsEnum::U32(1), opcodes::I32LtU), ArgsEnum::Bool(false));
    assert_eq!(none_args(&mut vm, ArgsEnum::U32(1), ArgsEnum::U32(1), opcodes::I32LtU), ArgsEnum::Bool(false));
    //i32gts
    assert_eq!(none_args(&mut vm, ArgsEnum::I32(-1), ArgsEnum::I32(1), opcodes::I32GtS), ArgsEnum::Bool(false));
    assert_eq!(none_args(&mut vm, ArgsEnum::I32(1), ArgsEnum::I32(-1), opcodes::I32GtS), ArgsEnum::Bool(true));
    //i32gtu
    assert_eq!(none_args(&mut vm, ArgsEnum::U32(1), ArgsEnum::U32(2), opcodes::I32GtU), ArgsEnum::Bool(false));
    assert_eq!(none_args(&mut vm, ArgsEnum::U32(2), ArgsEnum::U32(1), opcodes::I32GtU), ArgsEnum::Bool(true));
    //i32les
    assert_eq!(none_args(&mut vm, ArgsEnum::I32(-1), ArgsEnum::I32(1), opcodes::I32LeS), ArgsEnum::Bool(true));
    assert_eq!(none_args(&mut vm, ArgsEnum::I32(1), ArgsEnum::I32(-1), opcodes::I32LeS), ArgsEnum::Bool(false));
    //i32leu
    assert_eq!(none_args(&mut vm, ArgsEnum::U32(1), ArgsEnum::U32(2), opcodes::I32LeU), ArgsEnum::Bool(true));
    assert_eq!(none_args(&mut vm, ArgsEnum::U32(2), ArgsEnum::U32(1), opcodes::I32LeU), ArgsEnum::Bool(false));
    //i32ges
    assert_eq!(none_args(&mut vm, ArgsEnum::I32(-1), ArgsEnum::I32(1), opcodes::I32GeS), ArgsEnum::Bool(false));
    assert_eq!(none_args(&mut vm, ArgsEnum::I32(1), ArgsEnum::I32(-1), opcodes::I32GeS), ArgsEnum::Bool(true));
    //i32geu
    assert_eq!(none_args(&mut vm, ArgsEnum::U32(2), ArgsEnum::U32(1), opcodes::I32GeU), ArgsEnum::Bool(true));
    assert_eq!(none_args(&mut vm, ArgsEnum::U32(1), ArgsEnum::U32(2), opcodes::I32GeU), ArgsEnum::Bool(false));

    //i64eq
    assert_eq!(none_args(&mut vm, ArgsEnum::I64(1), ArgsEnum::I64(1), opcodes::I64Eq), ArgsEnum::Bool(true));
    //i64ne
    assert_eq!(none_args(&mut vm, ArgsEnum::I64(1), ArgsEnum::I64(1), opcodes::I64Ne), ArgsEnum::Bool(false));
    assert_eq!(none_args(&mut vm, ArgsEnum::I64(1), ArgsEnum::I64(-1), opcodes::I64Ne), ArgsEnum::Bool(true));
    //i64lts
    assert_eq!(none_args(&mut vm, ArgsEnum::I64(-1), ArgsEnum::I64(1), opcodes::I64LtS), ArgsEnum::Bool(true));
    assert_eq!(none_args(&mut vm, ArgsEnum::I64(1), ArgsEnum::I64(-1), opcodes::I64LtS), ArgsEnum::Bool(false));
    //i64ltu
    assert_eq!(none_args(&mut vm, ArgsEnum::U64(2), ArgsEnum::U64(1), opcodes::I64LtU), ArgsEnum::Bool(false));
    assert_eq!(none_args(&mut vm, ArgsEnum::U64(1), ArgsEnum::U64(1), opcodes::I64LtU), ArgsEnum::Bool(false));
    //i64gts
    assert_eq!(none_args(&mut vm, ArgsEnum::I64(-1), ArgsEnum::I64(1), opcodes::I64GtS), ArgsEnum::Bool(false));
    assert_eq!(none_args(&mut vm, ArgsEnum::I64(1), ArgsEnum::I64(-1), opcodes::I64GtS), ArgsEnum::Bool(true));
    //i64gtu
    assert_eq!(none_args(&mut vm, ArgsEnum::U64(1), ArgsEnum::U64(2), opcodes::I64GtU), ArgsEnum::Bool(false));
    assert_eq!(none_args(&mut vm, ArgsEnum::U64(2), ArgsEnum::U64(1), opcodes::I64GtU), ArgsEnum::Bool(true));
    //i64les
    assert_eq!(none_args(&mut vm, ArgsEnum::I64(-1), ArgsEnum::I64(1), opcodes::I64LeS), ArgsEnum::Bool(true));
    assert_eq!(none_args(&mut vm, ArgsEnum::I64(1), ArgsEnum::I64(-1), opcodes::I64LeS), ArgsEnum::Bool(false));
    //i64leu
    assert_eq!(none_args(&mut vm, ArgsEnum::U64(1), ArgsEnum::U64(2), opcodes::I64LeU), ArgsEnum::Bool(true));
    assert_eq!(none_args(&mut vm, ArgsEnum::U64(2), ArgsEnum::U64(1), opcodes::I64LeU), ArgsEnum::Bool(false));
    //i64ges
    assert_eq!(none_args(&mut vm, ArgsEnum::I64(-1), ArgsEnum::I64(1), opcodes::I64GeS), ArgsEnum::Bool(false));
    assert_eq!(none_args(&mut vm, ArgsEnum::I64(1), ArgsEnum::I64(-1), opcodes::I64GeS), ArgsEnum::Bool(true));
    //i64geu
    assert_eq!(none_args(&mut vm, ArgsEnum::U64(2), ArgsEnum::U64(1), opcodes::I64GeU), ArgsEnum::Bool(true));
    assert_eq!(none_args(&mut vm, ArgsEnum::U64(1), ArgsEnum::U64(2), opcodes::I64GeU), ArgsEnum::Bool(false));

    //f32eq
    assert_eq!(none_args(&mut vm, f(1.0), f(1.0), opcodes::F32Eq), ArgsEnum::Bool(true));
    assert_eq!(none_args(&mut vm, f(1.0), f(2.0), opcodes::F32Eq), ArgsEnum::Bool(false));
    //f32ne
    assert_eq!(none_args(&mut vm, f(1.0), f(1.0), opcodes::F32Ne), ArgsEnum::Bool(false));
    assert_eq!(none_args(&mut vm, f(1.0), f(2.0), opcodes::F32Ne), ArgsEnum::Bool(true));
    //f32lt
    assert_eq!(none_args(&mut vm, f(1.0), f(2.0), opcodes::F32Lt), ArgsEnum::Bool(true));
    assert_eq!(none_args(&mut vm, f(2.0), f(1.0), opcodes::F32Lt), ArgsEnum::Bool(false));
    //f32gt
    assert_eq!(none_args(&mut vm, f(1.0), f(2.0), opcodes::F32Gt), ArgsEnum::Bool(false));
    assert_eq!(none_args(&mut vm, f(2.0), f(1.0), opcodes::F32Gt), ArgsEnum::Bool(true));
    //f32le
    assert_eq!(none_args(&mut vm, f(1.0), f(2.0), opcodes::F32Le), ArgsEnum::Bool(true));
    assert_eq!(none_args(&mut vm, f(2.0), f(1.0), opcodes::F32Le), ArgsEnum::Bool(false));
    //f32ge
    assert_eq!(none_args(&mut vm, f(1.0), f(2.0), opcodes::F32Ge), ArgsEnum::Bool(false));
    assert_eq!(none_args(&mut vm, f(2.0), f(1.0), opcodes::F32Ge), ArgsEnum::Bool(true));

    //f64eq
    assert_eq!(none_args(&mut vm, d(1.0), d(1.0), opcodes::F64Eq), ArgsEnum::Bool(true));
    assert_eq!(none_args(&mut vm, d(1.0), d(2.0), opcodes::F64Eq), ArgsEnum::Bool(false));
    //f64ne
    assert_eq!(none_args(&mut vm, d(1.0), d(1.0), opcodes::F64Ne), ArgsEnum::Bool(false));
    assert_eq!(none_args(&mut vm, d(1.0), d(2.0), opcodes::F64Ne), ArgsEnum::Bool(true));
    //f64lt
    assert_eq!(none_args(&mut vm, d(1.0), d(2.0), opcodes::F64Lt), ArgsEnum::Bool(true));
    assert_eq!(none_args(&mut vm, d(2.0), d(1.0), opcodes::F64Lt), ArgsEnum::Bool(false));
    //f64gt
    assert_eq!(none_args(&mut vm, d(1.0), d(2.0), opcodes::F64Gt), ArgsEnum::Bool(false));
    assert_eq!(none_args(&mut vm, d(2.0), d(1.0), opcodes::F64Gt), ArgsEnum::Bool(true));
    //f64le
    assert_eq!(none_args(&mut vm, d(1.0), d(2.0), opcodes::F64Le), ArgsEnum::Bool(true));
    assert_eq!(none_args(&mut vm, d(2.0), d(1.0), opcodes::F64Le), ArgsEnum::Bool(false));
    //f64ge
    assert_eq!(none_args(&mut vm, d(1.0), d(2.0), opcodes::F64Ge), ArgsEnum::Bool(false));
    assert_eq!(none_args(&mut vm, d(2.0), d(1.0), opcodes::F64Ge), ArgsEnum::Bool(true));

    assert_eq!(none_args_2(&mut vm, ArgsEnum::U32(0xF0), opcodes::I32Clz), ArgsEnum::U32(24));
    assert_eq!(none_args_2(&mut vm, ArgsEnum::U32(0xF0), opcodes::I32Ctz), ArgsEnum::U32(4));
    assert_eq!(none_args_2(&mut vm, ArgsEnum::U32(0xF0F0), opcodes::I32PopCnt), ArgsEnum::U32(8));
    assert_eq!(none_args(&mut vm, ArgsEnum::U32(3), ArgsEnum::U32(2), opcodes::I32Add), ArgsEnum::U32(5));
    assert_eq!(none_args(&mut vm, ArgsEnum::U32(3), ArgsEnum::U32(2), opcodes::I32Sub), ArgsEnum::U32(1));
    assert_eq!(none_args(&mut vm, ArgsEnum::U32(3), ArgsEnum::U32(2), opcodes::I32Mul), ArgsEnum::U32(6));
    assert_eq!(none_args(&mut vm, ArgsEnum::U32(8), ArgsEnum::U32(2), opcodes::I32DivU), ArgsEnum::U32(4));
    assert_eq!(none_args(&mut vm, ArgsEnum::I32(-8), ArgsEnum::I32(4), opcodes::I32DivS), ArgsEnum::I32(-2));
    assert_eq!(none_args(&mut vm, ArgsEnum::I32(-5), ArgsEnum::I32(2), opcodes::I32RemS), ArgsEnum::I32(-1));
    assert_eq!(none_args(&mut vm, ArgsEnum::U32(-5_i32 as u32), ArgsEnum::U32(2), opcodes::I32RemU), ArgsEnum::U32(1));
    assert_eq!(none_args(&mut vm, ArgsEnum::U32(0x0F0F), ArgsEnum::U32(0xF00F), opcodes::I32Or), ArgsEnum::U32(0xFF0F));
    assert_eq!(none_args(&mut vm, ArgsEnum::U32(0x0F0F), ArgsEnum::U32(0xF00F), opcodes::I32Xor), ArgsEnum::U32(0xFF00));
    assert_eq!(none_args(&mut vm, ArgsEnum::U32(-1_i32 as u32), ArgsEnum::U32(8), opcodes::I32Shl), ArgsEnum::U32(-256_i32 as u32));
    assert_eq!(none_args(&mut vm, ArgsEnum::U32(-1_i32 as u32), ArgsEnum::U32(200), opcodes::I32Shl), ArgsEnum::U32(-256_i32 as u32));
    assert_eq!(none_args(&mut vm, ArgsEnum::I32(-1_i32), ArgsEnum::I32(8), opcodes::I32ShrS), ArgsEnum::I32(-1_i32));
    assert_eq!(none_args(&mut vm, ArgsEnum::I32(-1_i32), ArgsEnum::I32(200), opcodes::I32ShrS), ArgsEnum::I32(-1_i32));
    assert_eq!(none_args(&mut vm, ArgsEnum::U32(-1_i32 as u32), ArgsEnum::U32(8), opcodes::I32ShrU), ArgsEnum::U32(0xFF_FFFF));
    assert_eq!(none_args(&mut vm, ArgsEnum::U32(-1_i32 as u32), ArgsEnum::U32(200), opcodes::I32ShrU), ArgsEnum::U32(0xFF_FFFF));
    assert_eq!(none_args(&mut vm, ArgsEnum::U32(0x1234_5678), ArgsEnum::U32(8), opcodes::I32Rotl), ArgsEnum::U32(0x3456_7812));
    assert_eq!(none_args(&mut vm, ArgsEnum::U32(0x1234_5678), ArgsEnum::U32(200), opcodes::I32Rotl), ArgsEnum::U32(0x3456_7812));
    assert_eq!(none_args(&mut vm, ArgsEnum::U32(0x1234_5678), ArgsEnum::U32(8), opcodes::I32Rotr), ArgsEnum::U32(0x7812_3456));
    assert_eq!(none_args(&mut vm, ArgsEnum::U32(0x1234_5678), ArgsEnum::U32(200), opcodes::I32Rotr), ArgsEnum::U32(0x7812_3456));

    assert_eq!(none_args_2(&mut vm, ArgsEnum::U64(0xF0), opcodes::I64Clz), ArgsEnum::U64(56));
    assert_eq!(none_args_2(&mut vm, ArgsEnum::U64(0xF0), opcodes::I64Ctz), ArgsEnum::U64(4));
    assert_eq!(none_args_2(&mut vm, ArgsEnum::U64(0xF0F0), opcodes::I64PopCnt), ArgsEnum::U64(8));
    assert_eq!(none_args(&mut vm, ArgsEnum::U64(3), ArgsEnum::U64(2), opcodes::I64Add), ArgsEnum::U64(5));
    assert_eq!(none_args(&mut vm, ArgsEnum::U64(3), ArgsEnum::U64(2), opcodes::I64Sub), ArgsEnum::U64(1));
    assert_eq!(none_args(&mut vm, ArgsEnum::U64(3), ArgsEnum::U64(2), opcodes::I64Mul), ArgsEnum::U64(6));
    assert_eq!(none_args(&mut vm, ArgsEnum::I64(-8), ArgsEnum::I64(2), opcodes::I64DivS), ArgsEnum::I64(-4));
    assert_eq!(none_args(&mut vm, ArgsEnum::U64(-8_i64 as u64), ArgsEnum::U64(2), opcodes::I64DivU), ArgsEnum::U64(0x7FFF_FFFF_FFFF_FFFC));
    assert_eq!(none_args(&mut vm, ArgsEnum::I64(-5), ArgsEnum::I64(2), opcodes::I64RemS), ArgsEnum::I64(-1));
    assert_eq!(none_args(&mut vm, ArgsEnum::U64(-5_i64 as u64), ArgsEnum::U64(2), opcodes::I64RemU), ArgsEnum::U64(1));
    assert_eq!(none_args(&mut vm, ArgsEnum::U64(0x0F0F), ArgsEnum::U64(0xF00F), opcodes::I64And), ArgsEnum::U64(0x000F));
    assert_eq!(none_args(&mut vm, ArgsEnum::U64(0x0F0F), ArgsEnum::U64(0xF00F), opcodes::I64Or), ArgsEnum::U64(0xFF0F));
    assert_eq!(none_args(&mut vm, ArgsEnum::U64(-1_i64 as u64), ArgsEnum::U64(8), opcodes::I64Shl), ArgsEnum::U64(-256_i64 as u64));
    assert_eq!(none_args(&mut vm, ArgsEnum::U64(-1_i64 as u64), ArgsEnum::U64(200), opcodes::I64Shl), ArgsEnum::U64(-256_i64 as u64));
    assert_eq!(none_args(&mut vm, ArgsEnum::I64(-1), ArgsEnum::I64(8), opcodes::I64ShrS), ArgsEnum::I64(-1));
    assert_eq!(none_args(&mut vm, ArgsEnum::I64(-1), ArgsEnum::I64(200), opcodes::I64ShrS), ArgsEnum::I64(-1));
    assert_eq!(none_args(&mut vm, ArgsEnum::U64(-1_i64 as u64), ArgsEnum::U64(8), opcodes::I64ShrU), ArgsEnum::U64(0xFF_FFFF_FFFF_FFFF));
    assert_eq!(none_args(&mut vm, ArgsEnum::U64(-1_i64 as u64), ArgsEnum::U64(200), opcodes::I64ShrU), ArgsEnum::U64(0xFF_FFFF_FFFF_FFFF));
    assert_eq!(none_args(&mut vm, ArgsEnum::U64(0x1234_5678_1234_5678), ArgsEnum::U64(8), opcodes::I64Rotl), ArgsEnum::U64(0x3456_7812_3456_7812));
    assert_eq!(none_args(&mut vm, ArgsEnum::U64(0x1234_5678_1234_5678), ArgsEnum::U64(200), opcodes::I64Rotl), ArgsEnum::U64(0x3456_7812_3456_7812));
    assert_eq!(none_args(&mut vm, ArgsEnum::U64(0x1234_5678_1234_5678), ArgsEnum::U64(8), opcodes::I64Rotr), ArgsEnum::U64(0x7812_3456_7812_3456));
    assert_eq!(none_args(&mut vm, ArgsEnum::U64(0x1234_5678_1234_5678), ArgsEnum::U64(200), opcodes::I64Rotr), ArgsEnum::U64(0x7812_3456_7812_3456));

    assert_eq!(none_args_2(&mut vm, f(-1.5), opcodes::F32Abs), f(1.5));
    assert_eq!(none_args_2(&mut vm, f(1.5), opcodes::F32Neg), f(-1.5));
    assert_eq!(none_args_2(&mut vm, f(1.5), opcodes::F32Ceil), f(2.0));
    assert_eq!(none_args_2(&mut vm, f(1.5), opcodes::F32Floor), f(1.0));
    assert_eq!(none_args_2(&mut vm, f(1.5), opcodes::F32Trunc), f(1.0));
    assert_eq!(none_args_2(&mut vm, f(0.5), opcodes::F32Nearest), f(1.0));
    assert_eq!(none_args_2(&mut vm, f(1.1), opcodes::F32Nearest), f(1.0));
    assert_eq!(none_args_2(&mut vm, f(1.5), opcodes::F32Nearest), f(2.0));
    assert_eq!(none_args_2(&mut vm, f(1.9), opcodes::F32Nearest), f(2.0));
    assert_eq!(none_args_2(&mut vm, f(-0.5), opcodes::F32Nearest), f(-1.0));
    assert_eq!(none_args_2(&mut vm, f(4.0), opcodes::F32Sqrt), f(2.0));
    assert_eq!(none_args(&mut vm, f(3.0), f(2.0), opcodes::F32Add), f(5.0));
    assert_eq!(none_args(&mut vm, f(3.0), f(2.0), opcodes::F32Sub), f(1.0));
    assert_eq!(none_args(&mut vm, f(3.0), f(2.0), opcodes::F32Mul), f(6.0));
    assert_eq!(none_args(&mut vm, f(3.0), f(2.0), opcodes::F32Div), f(1.5));
    assert_eq!(none_args(&mut vm, f(3.0), f(2.0), opcodes::F32Min), f(2.0));
    assert_eq!(none_args(&mut vm, f(3.0), f(2.0), opcodes::F32Max), f(3.0));
    assert_eq!(none_args(&mut vm, f(3.0), f(2.0), opcodes::F32CopySign), f(3.0));
    assert_eq!(none_args(&mut vm, f(3.0), f(-2.0), opcodes::F32CopySign), f(-3.0));

    assert_eq!(none_args_2(&mut vm, d(-1.5), opcodes::F64Abs), d(1.5));
    assert_eq!(none_args_2(&mut vm, d(1.5), opcodes::F64Neg), d(-1.5));
    assert_eq!(none_args_2(&mut vm, d(1.5), opcodes::F64Ceil), d(2.0));
    assert_eq!(none_args_2(&mut vm, d(1.5), opcodes::F64Floor), d(1.0));
    assert_eq!(none_args_2(&mut vm, d(1.5), opcodes::F64Trunc), d(1.0));
    assert_eq!(none_args_2(&mut vm, d(0.5), opcodes::F64Nearest), d(1.0));
    assert_eq!(none_args_2(&mut vm, d(1.1), opcodes::F64Nearest), d(1.0));
    assert_eq!(none_args_2(&mut vm, d(1.5), opcodes::F64Nearest), d(2.0));
    assert_eq!(none_args_2(&mut vm, d(1.9), opcodes::F64Nearest), d(2.0));
    assert_eq!(none_args_2(&mut vm, d(-0.5), opcodes::F64Nearest), d(-1.0));
    assert_eq!(none_args_2(&mut vm, d(4.0), opcodes::F64Sqrt), d(2.0));
    assert_eq!(none_args(&mut vm, d(3.0), d(2.0), opcodes::F64Add), d(5.0));
    assert_eq!(none_args(&mut vm, d(3.0), d(2.0), opcodes::F64Sub), d(1.0));
    assert_eq!(none_args(&mut vm, d(3.0), d(2.0), opcodes::F64Mul), d(6.0));
    assert_eq!(none_args(&mut vm, d(3.0), d(2.0), opcodes::F64Div), d(1.5));
    assert_eq!(none_args(&mut vm, d(3.0), d(2.0), opcodes::F64Min), d(2.0));
    assert_eq!(none_args(&mut vm, d(3.0), d(2.0), opcodes::F64Max), d(3.0));
    assert_eq!(none_args(&mut vm, d(3.0), d(2.0), opcodes::F64CopySign), d(3.0));
    assert_eq!(none_args(&mut vm, d(3.0), d(-2.0), opcodes::F64CopySign), d(-3.0));

    assert_eq!(none_args_2(&mut vm, U64(0x7F7F_7F7F_7F7F_7F7F), opcodes::I32WrapI64), U32(0x7F7F_7F7F));
    assert_eq!(none_args_2(&mut vm, f(-1.5), opcodes::I32TruncF32S), I32(-1));
    assert_eq!(none_args_2(&mut vm, f(1.5), opcodes::I32TruncF32U), U32(1));
    assert_eq!(none_args_2(&mut vm, d(-1.5), opcodes::I32TruncF64S), I32(-1));
    assert_eq!(none_args_2(&mut vm, d(1.5), opcodes::I32TruncF64U), U32(1));
    assert_eq!(none_args_2(&mut vm, I32(-1), opcodes::I64ExtendI32S), I64(-1));
    assert_eq!(none_args_2(&mut vm, U32(-1_i32 as u32), opcodes::I64ExtendI32U), U64(0xFFFF_FFFF));
    assert_eq!(none_args_2(&mut vm, f(-1.5), opcodes::I64TruncF32S), I64(-1));
    assert_eq!(none_args_2(&mut vm, f(1.5), opcodes::I64TruncF32U), U64(1));
    assert_eq!(none_args_2(&mut vm, d(-1.5), opcodes::I64TruncF64S), I64(-1));
    assert_eq!(none_args_2(&mut vm, d(1.5), opcodes::I64TruncF64U), U64(1));
    assert_eq!(none_args_2(&mut vm, I32(-1), opcodes::F32ConvertI32S), f(-1.0));
    assert_eq!(none_args_2(&mut vm, U32(-1_i32 as u32), opcodes::F32ConvertI32U), f(4.2949673e+09));
    assert_eq!(none_args_2(&mut vm, I64(-1), opcodes::F32ConvertI64S), f(-1.0));
    assert_eq!(none_args_2(&mut vm, U64(-1_i64 as u64), opcodes::F32ConvertI64U), f(1.8446744e+19));
    assert_eq!(none_args_2(&mut vm, d(1.5), opcodes::F32DemoteF64), f(1.5));
    assert_eq!(none_args_2(&mut vm, I32(-1), opcodes::F64ConvertI32S), d(-1.0));
    assert_eq!(none_args_2(&mut vm, U32(-1_i32 as u32), opcodes::F64ConvertI32U), d(4.294967295e+09));
    assert_eq!(none_args_2(&mut vm, I64(-1), opcodes::F64ConvertI64S), d(-1.0));
    assert_eq!(none_args_2(&mut vm, U64(-1_i64 as u64), opcodes::F64ConvertI64U), d(1.8446744073709552e+19));
    assert_eq!(none_args_2(&mut vm, f(1.5), opcodes::F64PromoteF32), d(1.5));
    assert_eq!(none_args_2(&mut vm, f(1.5), opcodes::I32ReinterpretF32), I32(0x3FC0_0000));
}

#[test]
fn integer_arithmetic_wraps() {
    let mut vm = new_vm();
    assert_eq!(none_args(&mut vm, U32(u32::MAX), U32(1), opcodes::I32Add), U32(0));
    assert_eq!(none_args(&mut vm, U32(0), U32(1), opcodes::I32Sub), U32(u32::MAX));
    assert_eq!(none_args(&mut vm, U32(0x8000_0001), U32(2), opcodes::I32Mul), U32(2));
    assert_eq!(none_args(&mut vm, U32(0xFFFF_FFFF), U32(0xFFFF_FFFF), opcodes::I32Mul), U32(1));
    assert_eq!(none_args(&mut vm, U64(u64::MAX), U64(2), opcodes::I64Add), U64(1));
    assert_eq!(none_args(&mut vm, U64(1), U64(2), opcodes::I64Sub), U64(u64::MAX));
    assert_eq!(none_args(&mut vm, U64(u64::MAX), U64(u64::MAX), opcodes::I64Mul), U64(1));
    assert_eq!(none_args(&mut vm, U32(0x0F0F), U32(0xF00F), opcodes::I32And), U32(0x000F));
    assert_eq!(none_args(&mut vm, U64(0x0F0F), U64(0xF00F), opcodes::I64Xor), U64(0xFF00));
}

#[test]
fn division_and_remainder() {
    let mut vm = new_vm();
    assert_eq!(none_args(&mut vm, I32(7), I32(2), opcodes::I32DivS), I32(3));
    assert_eq!(none_args(&mut vm, I32(-7), I32(2), opcodes::I32DivS), I32(-3));
    assert_eq!(none_args(&mut vm, I32(7), I32(-2), opcodes::I32DivS), I32(-3));
    assert_eq!(none_args(&mut vm, I32(-7), I32(-2), opcodes::I32DivS), I32(3));
    assert_eq!(none_args(&mut vm, I32(i32::MIN), I32(1), opcodes::I32DivS), I32(i32::MIN));
    assert_eq!(none_args(&mut vm, I32(i32::MAX), I32(-1), opcodes::I32DivS), I32(-i32::MAX));
    assert_eq!(none_args(&mut vm, I32(7), I32(2), opcodes::I32RemS), I32(1));
    assert_eq!(none_args(&mut vm, I32(-7), I32(2), opcodes::I32RemS), I32(-1));
    assert_eq!(none_args(&mut vm, I32(7), I32(-2), opcodes::I32RemS), I32(1));
    assert_eq!(none_args(&mut vm, I32(-7), I32(-2), opcodes::I32RemS), I32(-1));
    assert_eq!(none_args(&mut vm, I32(i32::MIN), I32(-1), opcodes::I32RemS), I32(0));
    assert_eq!(none_args(&mut vm, I64(i64::MIN), I64(-1), opcodes::I64RemS), I64(0));
    assert_eq!(none_args(&mut vm, I64(-7), I64(-2), opcodes::I64DivS), I64(3));
    assert_eq!(none_args(&mut vm, I64(i64::MIN), I64(2), opcodes::I64DivS), I64(i64::MIN / 2));
    assert_eq!(none_args(&mut vm, I64(-9), I64(4), opcodes::I64RemS), I64(-1));
    assert_eq!(none_args(&mut vm, U32(7), U32(2), opcodes::I32DivU), U32(3));
    assert_eq!(none_args(&mut vm, U32(7), U32(2), opcodes::I32RemU), U32(1));
    assert_eq!(none_args(&mut vm, U64(u64::MAX), U64(10), opcodes::I64RemU), U64(5));

    assert_eq!(trap_of(vec![I32(i32::MIN), I32(-1)], opcodes::I32DivS, ArgsEnum::NONE), Some(Trap::IntegerOverflow));
    assert_eq!(trap_of(vec![I64(i64::MIN), I64(-1)], opcodes::I64DivS, ArgsEnum::NONE), Some(Trap::IntegerOverflow));
    assert_eq!(trap_of(vec![I32(5), I32(0)], opcodes::I32DivS, ArgsEnum::NONE), Some(Trap::DivideByZero));
    assert_eq!(trap_of(vec![I32(i32::MIN), I32(0)], opcodes::I32DivS, ArgsEnum::NONE), Some(Trap::DivideByZero));
    for x in [0u32, 1, 77, u32::MAX] {
        assert_eq!(trap_of(vec![U32(x), U32(0)], opcodes::I32DivU, ArgsEnum::NONE), Some(Trap::DivideByZero));
        assert_eq!(trap_of(vec![U32(x), U32(0)], opcodes::I32RemU, ArgsEnum::NONE), Some(Trap::DivideByZero));
    }
    assert_eq!(trap_of(vec![I32(5), I32(0)], opcodes::I32RemS, ArgsEnum::NONE), Some(Trap::DivideByZero));
    assert_eq!(trap_of(vec![I64(5), I64(0)], opcodes::I64DivS, ArgsEnum::NONE), Some(Trap::DivideByZero));
    assert_eq!(trap_of(vec![I64(5), I64(0)], opcodes::I64RemS, ArgsEnum::NONE), Some(Trap::DivideByZero));
    assert_eq!(trap_of(vec![U64(5), U64(0)], opcodes::I64DivU, ArgsEnum::NONE), Some(Trap::DivideByZero));
    assert_eq!(trap_of(vec![U64(5), U64(0)], opcodes::I64RemU, ArgsEnum::NONE), Some(Trap::DivideByZero));
}

#[test]
fn shifts_and_rotations() {
    let mut vm = new_vm();
    assert_eq!(none_args(&mut vm, U32(1), U32(31), opcodes::I32Shl), U32(0x8000_0000));
    assert_eq!(none_args(&mut vm, U32(1), U32(32), opcodes::I32Shl), U32(1));
    assert_eq!(none_args(&mut vm, U32(1), U32(33), opcodes::I32Shl), U32(2));
    assert_eq!(none_args(&mut vm, U64(1), U64(32), opcodes::I64Shl), U64(1 << 32));
    assert_eq!(none_args(&mut vm, U64(1), U64(63), opcodes::I64Shl), U64(1 << 63));
    assert_eq!(none_args(&mut vm, U64(1), U64(64), opcodes::I64Shl), U64(1));
    assert_eq!(none_args(&mut vm, U64(u64::MAX), U64(40), opcodes::I64ShrU), U64(0xFF_FFFF));
    assert_eq!(none_args(&mut vm, I64(i64::MIN), I64(40), opcodes::I64ShrS), I64(-(1 << 23)));
    assert_eq!(none_args(&mut vm, I64(i64::MIN), I64(63), opcodes::I64ShrS), I64(-1));
    assert_eq!(none_args(&mut vm, I32(i32::MIN), I32(31), opcodes::I32ShrS), I32(-1));
    assert_eq!(none_args(&mut vm, I32(-16), I32(2), opcodes::I32ShrS), I32(-4));
    assert_eq!(none_args(&mut vm, I32(16), I32(-30), opcodes::I32ShrS), I32(4));
    assert_eq!(none_args(&mut vm, I64(16), I64(-62), opcodes::I64ShrS), I64(4));
    assert_eq!(none_args(&mut vm, U32(0x8000_0001), U32(1), opcodes::I32Rotl), U32(3));
    assert_eq!(none_args(&mut vm, U32(0x8000_0001), U32(1), opcodes::I32Rotr), U32(0xC000_0000));
    assert_eq!(none_args(&mut vm, U32(0x1234_5678), U32(0), opcodes::I32Rotl), U32(0x1234_5678));
    assert_eq!(none_args(&mut vm, U32(0x1234_5678), U32(32), opcodes::I32Rotr), U32(0x1234_5678));
    assert_eq!(none_args(&mut vm, U64(0x8000_0000_0000_0001), U64(1), opcodes::I64Rotl), U64(3));
    assert_eq!(none_args(&mut vm, U64(1), U64(1), opcodes::I64Rotr), U64(1 << 63));
    assert_eq!(none_args(&mut vm, U64(0xABCD), U64(64), opcodes::I64Rotl), U64(0xABCD));
    assert_eq!(none_args(&mut vm, U64(0xABCD), U64(1 << 32), opcodes::I64Rotr), U64(0xABCD));
    for x in [0u32, 1, 0xF0, 0x8000_0000, u32::MAX, 0x1234_5678] {
        assert_eq!(none_args_2(&mut vm, U32(x), opcodes::I32Clz), U32(x.leading_zeros()));
        assert_eq!(none_args_2(&mut vm, U32(x), opcodes::I32Ctz), U32(x.trailing_zeros()));
        assert_eq!(none_args_2(&mut vm, U32(x), opcodes::I32PopCnt), U32(x.count_ones()));
        for n in [0u32, 1, 7, 31, 32, 33, 200, u32::MAX] {
            assert_eq!(none_args(&mut vm, U32(x), U32(n), opcodes::I32Rotl), U32(x.rotate_left(n)));
            assert_eq!(none_args(&mut vm, U32(x), U32(n), opcodes::I32Rotr), U32(x.rotate_right(n)));
        }
    }
    for x in [0u64, 1, 0xF0, 1 << 63, u64::MAX, 0x1234_5678_9ABC_DEF0] {
        assert_eq!(none_args_2(&mut vm, U64(x), opcodes::I64Clz), U64(x.leading_zeros() as u64));
        assert_eq!(none_args_2(&mut vm, U64(x), opcodes::I64Ctz), U64(x.trailing_zeros() as u64));
        assert_eq!(none_args_2(&mut vm, U64(x), opcodes::I64PopCnt), U64(x.count_ones() as u64));
        for n in [0u64, 1, 63, 64, 65, 200, u64::MAX] {
            assert_eq!(none_args(&mut vm, U64(x), U64(n), opcodes::I64Rotl), U64(x.rotate_left(n as u32)));
            assert_eq!(none_args(&mut vm, U64(x), U64(n), opcodes::I64Rotr), U64(x.rotate_right(n as u32)));
        }
    }
}

#[test]
fn zero_tests() {
    let mut vm = new_vm();
    assert_eq!(none_args_2(&mut vm, I32(0), opcodes::I32Eqz), ArgsEnum::Bool(true));
    assert_eq!(none_args_2(&mut vm, I32(-3), opcodes::I32Eqz), ArgsEnum::Bool(false));
    assert_eq!(none_args_2(&mut vm, I64(0), opcodes::I64Eqz), ArgsEnum::Bool(true));
    assert_eq!(none_args_2(&mut vm, I64(1 << 40), opcodes::I64Eqz), ArgsEnum::Bool(false));
}

#[test]
fn operands_are_taken_in_order() {
    // The first operand is the one pushed first, and the rest of the stack stays.
    let mut vm = new_vm();
    vm.push(U32(99));
    vm.push(U32(10));
    vm.push(U32(3));
    assert_eq!(vm.i32_sub(), Ok(()));
    assert_eq!(vm.pop(), Some(U32(7)));
    assert_eq!(vm.pop(), Some(U32(99)));
    assert_eq!(vm.pop(), None);
}

#[test]
fn extension_and_reinterpretation() {
    let mut vm = new_vm();
    assert_eq!(none_args_2(&mut vm, I32(0x17F), opcodes::I32Extend8S), ArgsEnum::I8(0x7F));
    assert_eq!(none_args_2(&mut vm, I32(0x180), opcodes::I32Extend8S), ArgsEnum::I8(-128));
    assert_eq!(none_args_2(&mut vm, I32(-1), opcodes::I32Extend8S), ArgsEnum::I8(-1));
    assert_eq!(none_args_2(&mut vm, I32(0x1_8000), opcodes::I32Extend16S), ArgsEnum::I16(i16::MIN));
    assert_eq!(none_args_2(&mut vm, I64(0x1FF), opcodes::I64Extend8S), ArgsEnum::I8(-1));
    assert_eq!(none_args_2(&mut vm, I64(-0x8001), opcodes::I64Extend16S), ArgsEnum::I16(i16::MAX));
    assert_eq!(none_args_2(&mut vm, I64(0x1_8000_0000), opcodes::I64Extend32S), I32(i32::MIN));
    assert_eq!(none_args_2(&mut vm, I64(-1), opcodes::I64Extend32S), I32(-1));
    assert_eq!(none_args_2(&mut vm, I64(0x7_0000_0005), opcodes::I64Extend32S), I32(5));
    assert_eq!(none_args_2(&mut vm, U64(u64::MAX), opcodes::I32WrapI64), U32(u32::MAX));
    assert_eq!(none_args_2(&mut vm, U64(1 << 32), opcodes::I32WrapI64), U32(0));
    assert_eq!(none_args_2(&mut vm, I32(i32::MIN), opcodes::I64ExtendI32S), I64(i32::MIN as i64));
    assert_eq!(none_args_2(&mut vm, f(-0.0), opcodes::I32ReinterpretF32), I32(i32::MIN));
    assert_eq!(none_args_2(&mut vm, d(-0.0), opcodes::I64ReinterpretF64), I64(i64::MIN));
    assert_eq!(none_args_2(&mut vm, d(1.5), opcodes::I64ReinterpretF64), I64(0x3FF8_0000_0000_0000));
    assert_eq!(none_args_2(&mut vm, I32(0x3FC0_0000), opcodes::F32ReinterpretI32), f(1.5));
    assert_eq!(none_args_2(&mut vm, I32(i32::MIN), opcodes::F32ReinterpretI32).get_f32(), Some(0x8000_0000));
    assert_eq!(none_args_2(&mut vm, I64(-1), opcodes::F64ReinterpretI64).get_f64(), Some(u64::MAX));
}

#[test]
fn a_lone_nan_is_the_minimum_and_the_maximum() {
    let mut vm = new_vm();
    let nan = f32::NAN.to_bits();
    assert_eq!(none_args(&mut vm, F32(nan), f(2.0), opcodes::F32Min).get_f32(), Some(nan));
    assert_eq!(none_args(&mut vm, f(2.0), F32(nan), opcodes::F32Max).get_f32(), Some(nan));
    assert_eq!(none_args(&mut vm, f(2.0), F32(nan), opcodes::F32Min).get_f32(), Some(nan));
    assert_eq!(none_args(&mut vm, F32(nan), f(2.0), opcodes::F32Max).get_f32(), Some(nan));
    let nan = f64::NAN.to_bits();
    assert_eq!(none_args(&mut vm, F64(nan), d(2.0), opcodes::F64Min).get_f64(), Some(nan));
    assert_eq!(none_args(&mut vm, d(2.0), F64(nan), opcodes::F64Max).get_f64(), Some(nan));
    assert_eq!(none_args(&mut vm, F32(f32::NAN.to_bits()), f(1.0), opcodes::F32Eq), ArgsEnum::Bool(false));
    assert_eq!(none_args(&mut vm, F32(f32::NAN.to_bits()), f(1.0), opcodes::F32Ne), ArgsEnum::Bool(true));
    assert_eq!(none_args(&mut vm, f(0.0), f(-0.0), opcodes::F32Eq), ArgsEnum::Bool(true));
    assert_eq!(none_args(&mut vm, d(-0.0), d(0.0), opcodes::F64Lt), ArgsEnum::Bool(false));
}

#[test]
fn trapping_truncation() {
    assert_eq!(trap_of(vec![d(f64::NAN)], opcodes::I32TruncF64S, ArgsEnum::NONE), Some(Trap::InvalidConversionToInteger));
    assert_eq!(trap_of(vec![d(2147483648.0)], opcodes::I32TruncF64S, ArgsEnum::NONE), Some(Trap::IntegerOverflow));
    assert_eq!(trap_of(vec![d(-2147483649.0)], opcodes::I32TruncF64S, ArgsEnum::NONE), Some(Trap::IntegerOverflow));
    assert_eq!(trap_of(vec![d(f64::INFINITY)], opcodes::I32TruncF64S, ArgsEnum::NONE), Some(Trap::IntegerOverflow));
    assert_eq!(trap_of(vec![d(-1.0)], opcodes::I32TruncF64U, ArgsEnum::NONE), Some(Trap::IntegerOverflow));
    assert_eq!(trap_of(vec![d(4294967296.0)], opcodes::I32TruncF64U, ArgsEnum::NONE), Some(Trap::IntegerOverflow));
    assert_eq!(trap_of(vec![f(f32::NAN)], opcodes::I32TruncF32S, ArgsEnum::NONE), Some(Trap::InvalidConversionToInteger));
    assert_eq!(trap_of(vec![f(2147483648.0)], opcodes::I32TruncF32S, ArgsEnum::NONE), Some(Trap::IntegerOverflow));
    assert_eq!(trap_of(vec![f(f32::NAN)], opcodes::I32TruncF32U, ArgsEnum::NONE), Some(Trap::InvalidConversionToInteger));
    assert_eq!(trap_of(vec![f(9223372036854775808.0)], opcodes::I64TruncF32S, ArgsEnum::NONE), Some(Trap::IntegerOverflow));
    assert_eq!(trap_of(vec![f(-1.0)], opcodes::I64TruncF32U, ArgsEnum::NONE), Some(Trap::IntegerOverflow));
    assert_eq!(trap_of(vec![d(9223372036854775808.0)], opcodes::I64TruncF64S, ArgsEnum::NONE), Some(Trap::IntegerOverflow));
    assert_eq!(trap_of(vec![d(18446744073709551616.0)], opcodes::I64TruncF64U, ArgsEnum::NONE), Some(Trap::IntegerOverflow));
    assert_eq!(trap_of(vec![d(f64::NAN)], opcodes::I64TruncF64U, ArgsEnum::NONE), Some(Trap::InvalidConversionToInteger));
    let mut vm = new_vm();
    assert_eq!(none_args_2(&mut vm, d(2147483647.9), opcodes::I32TruncF64S), I32(i32::MAX));
    assert_eq!(none_args_2(&mut vm, d(-2147483648.9), opcodes::I32TruncF64S), I32(i32::MIN));
    assert_eq!(none_args_2(&mut vm, d(4294967295.5), opcodes::I32TruncF64U), U32(u32::MAX));
    assert_eq!(none_args_2(&mut vm, d(-0.5), opcodes::I32TruncF64U), U32(0));
    assert_eq!(none_args_2(&mut vm, d(-9223372036854775808.0), opcodes::I64TruncF64S), I64(i64::MIN));
    assert_eq!(none_args_2(&mut vm, d(18446744073709549568.0), opcodes::I64TruncF64U), U64(18446744073709549568));
    assert_eq!(none_args_2(&mut vm, f(16777216.0), opcodes::I64TruncF32U), U64(16777216));
}

fn sat(vm: &mut Vm, v: ArgsEnum, sub: u8) -> ArgsEnum {
    let table = init();
    vm.push(v);
    run(vm, &table, opcodes::TruncSat, &ArgsEnum::U8(sub)).unwrap();
    vm.pop().unwrap()
}

#[test]
fn saturating_truncation() {
    let mut vm = new_vm();
    assert_eq!(sat(&mut vm, f(f32::NAN), 0), I32(0));
    assert_eq!(sat(&mut vm, f(1e20), 0), I32(i32::MAX));
    assert_eq!(sat(&mut vm, f(-1e20), 0), I32(i32::MIN));
    assert_eq!(sat(&mut vm, f(-7.9), 0), I32(-7));
    assert_eq!(sat(&mut vm, f(f32::INFINITY), 1), U32(u32::MAX));
    assert_eq!(sat(&mut vm, f(-3.0), 1), U32(0));
    assert_eq!(sat(&mut vm, d(f64::NAN), 2), I32(0));
    assert_eq!(sat(&mut vm, d(f64::NEG_INFINITY), 2), I32(i32::MIN));
    assert_eq!(sat(&mut vm, d(f64::INFINITY), 3), U32(u32::MAX));
    assert_eq!(sat(&mut vm, d(4294967295.9), 3), U32(u32::MAX));
    assert_eq!(sat(&mut vm, f(f32::INFINITY), 4), I64(i64::MAX));
    assert_eq!(sat(&mut vm, f(-1.5), 4), I64(-1));
    assert_eq!(sat(&mut vm, f(f32::NAN), 5), U64(0));
    assert_eq!(sat(&mut vm, f(1e30), 5), U64(u64::MAX));
    assert_eq!(sat(&mut vm, d(-1e300), 6), I64(i64::MIN));
    assert_eq!(sat(&mut vm, d(1e18), 6), I64(1_000_000_000_000_000_000));
    assert_eq!(sat(&mut vm, d(1e300), 7), U64(u64::MAX));
    assert_eq!(sat(&mut vm, d(-0.0), 7), U64(0));
    assert_eq!(trap_of(vec![d(1.0)], opcodes::TruncSat, ArgsEnum::U8(8)), Some(Trap::InvalidArgument));
    assert_eq!(trap_of(vec![d(1.0)], opcodes::TruncSat, ArgsEnum::NONE), Some(Trap::InvalidArgument));
    assert_eq!(trap_of(vec![d(1.0)], opcodes::TruncSat, ArgsEnum::U8(0)), Some(Trap::TypeMismatch));
    assert_eq!(trap_of(vec![], opcodes::TruncSat, ArgsEnum::U8(0)), Some(Trap::StackUnderflow));
    let mut vm = new_vm();
    vm.push(d(2.5));
    assert_eq!(vm.trunc_sat(6), Ok(()));
    assert_eq!(vm.pop(), Some(I64(2)));
}

#[test]
fn a_wrong_tag_or_a_missing_operand_traps() {
    assert_eq!(trap_of(vec![I32(3), I32(2)], opcodes::I32Add, ArgsEnum::NONE), Some(Trap::TypeMismatch));
    assert_eq!(trap_of(vec![U32(3), I32(2)], opcodes::I32Add, ArgsEnum::NONE), Some(Trap::TypeMismatch));
    assert_eq!(trap_of(vec![I32(3), U32(2)], opcodes::I32Add, ArgsEnum::NONE), Some(Trap::TypeMismatch));
    assert_eq!(trap_of(vec![U32(2)], opcodes::I32Add, ArgsEnum::NONE), Some(Trap::StackUnderflow));
    assert_eq!(trap_of(vec![], opcodes::I32Add, ArgsEnum::NONE), Some(Trap::StackUnderflow));
    assert_eq!(trap_of(vec![U32(1)], opcodes::I32Eqz, ArgsEnum::NONE), Some(Trap::TypeMismatch));
    assert_eq!(trap_of(vec![], opcodes::I64Clz, ArgsEnum::NONE), Some(Trap::StackUnderflow));
    assert_eq!(trap_of(vec![U32(1), U32(1)], opcodes::I64Add, ArgsEnum::NONE), Some(Trap::TypeMismatch));
    assert_eq!(trap_of(vec![F64(0), F64(0)], opcodes::F32Eq, ArgsEnum::NONE), Some(Trap::TypeMismatch));
    assert_eq!(trap_of(vec![F32(0)], opcodes::F64Abs, ArgsEnum::NONE), Some(Trap::TypeMismatch));
    assert_eq!(trap_of(vec![U32(0)], opcodes::I32TruncF32S, ArgsEnum::NONE), Some(Trap::TypeMismatch));
    assert_eq!(trap_of(vec![F64(0)], opcodes::F32Sqrt, ArgsEnum::NONE), Some(Trap::TypeMismatch));
    assert_eq!(trap_of(vec![F32(0)], opcodes::F32Add, ArgsEnum::NONE), Some(Trap::StackUnderflow));
    assert_eq!(trap_of(vec![F64(0), F32(0)], opcodes::F32Add, ArgsEnum::NONE), Some(Trap::TypeMismatch));
    assert_eq!(trap_of(vec![U32(0)], opcodes::F32ConvertI32S, ArgsEnum::NONE), Some(Trap::TypeMismatch));
    assert_eq!(trap_of(vec![], opcodes::F64PromoteF32, ArgsEnum::NONE), Some(Trap::StackUnderflow));
}

#[test]
fn opcodes_without_a_handler() {
    for op in [opcodes::Unreachable, opcodes::Nop, opcodes::Block, opcodes::Br, opcodes::LocalGet, opcodes::I32Load, opcodes::MemoryGrow, 0x06, 0xC5, 0xFF] {
        assert_eq!(handler_for(op), None);
        assert_eq!(trap_of(vec![U32(1), U32(2)], op, ArgsEnum::NONE), Some(Trap::NoHandler));
    }
    let table = init();
    assert_eq!(table.len(), 256);
    for op in 0..=255u8 {
        assert_eq!(table[op as usize], handler_for(op));
    }
    assert_eq!(table[opcodes::I32Add as usize], Some(Handler::I32Add));
    assert_eq!(table[opcodes::F64Sqrt as usize], Some(Handler::Host(HostOp::F64Sqrt)));
    assert_eq!(table[opcodes::TruncSat as usize], Some(Handler::TruncSat));
    assert_eq!(table.iter().filter(|h| h.is_some()).count(), 136);
    // A table that is too short has no handler for the opcodes beyond it.
    let mut vm = new_vm();
    assert_eq!(vm.dispatch(&vec![], opcodes::Drop, &ArgsEnum::NONE), Err(Trap::NoHandler));
}

#[test]
fn constants_take_their_argument_from_the_instruction() {
    let table = init();
    let mut vm = new_vm();
    assert_eq!(run(&mut vm, &table, opcodes::I32Const, &I32(-7)), Ok(()));
    assert_eq!(run(&mut vm, &table, opcodes::I64Const, &I64(1 << 40)), Ok(()));
    assert_eq!(run(&mut vm, &table, opcodes::F32Const, &f(1.5)), Ok(()));
    assert_eq!(run(&mut vm, &table, opcodes::F64Const, &d(-2.5)), Ok(()));
    assert_eq!(run(&mut vm, &table, opcodes::Call, &U32(3)), Ok(()));
    assert_eq!(vm.pop(), Some(d(-2.5)));
    assert_eq!(vm.pop(), Some(f(1.5)));
    assert_eq!(vm.pop(), Some(I64(1 << 40)));
    assert_eq!(vm.pop(), Some(I32(-7)));
    assert_eq!(vm.pop(), None);
    assert_eq!(trap_of(vec![], opcodes::I32Const, U32(1)), Some(Trap::InvalidArgument));
    assert_eq!(trap_of(vec![], opcodes::I64Const, I32(1)), Some(Trap::InvalidArgument));
    assert_eq!(trap_of(vec![], opcodes::F32Const, F64(1)), Some(Trap::InvalidArgument));
    assert_eq!(trap_of(vec![], opcodes::F64Const, ArgsEnum::NONE), Some(Trap::InvalidArgument));
}

#[test]
fn drop_and_select() {
    let table = init();
    let mut vm = new_vm();
    vm.drop();
    assert_eq!(vm.pop(), None);
    vm.push(I32(1));
    vm.push(I32(2));
    assert_eq!(run(&mut vm, &table, opcodes::Drop, &ArgsEnum::NONE), Ok(()));
    assert_eq!(vm.pop(), Some(I32(1)));

    vm.push(I32(10));
    vm.push(I32(20));
    vm.push(ArgsEnum::Bool(true));
    assert_eq!(vm.select(), Ok(()));
    assert_eq!(vm.pop(), Some(I32(10)));
    assert_eq!(vm.pop(), None);

    vm.push(U64(5));
    vm.push(f(1.0));
    vm.push(f(2.0));
    vm.push(ArgsEnum::Bool(false));
    assert_eq!(run(&mut vm, &table, opcodes::Select, &ArgsEnum::NONE), Ok(()));
    assert_eq!(vm.pop(), Some(f(2.0)));
    assert_eq!(vm.pop(), Some(U64(5)));
    assert_eq!(vm.pop(), None);

    assert_eq!(trap_of(vec![I32(1), I64(2), ArgsEnum::Bool(true)], opcodes::Select, ArgsEnum::NONE), Some(Trap::TypeMismatch));
    assert_eq!(trap_of(vec![I32(1), I32(2), I32(1)], opcodes::Select, ArgsEnum::NONE), Some(Trap::TypeMismatch));
    assert_eq!(trap_of(vec![I32(2), ArgsEnum::Bool(true)], opcodes::Select, ArgsEnum::NONE), Some(Trap::StackUnderflow));
    assert_eq!(trap_of(vec![], opcodes::Select, ArgsEnum::NONE), Some(Trap::StackUnderflow));
}

#[test]
fn the_host_gets_the_operands_and_gives_the_result() {
    let mut vm = new_vm();
    vm.push(U32(7));
    vm.push(f(3.0));
    vm.push(f(2.0));
    assert_eq!(vm.execute(Handler::Host(HostOp::F32Sub), &ArgsEnum::NONE), Ok(Some(HostOp::F32Sub)));
    let (a, b) = vm.host_operands(HostOp::F32Sub).unwrap();
    assert_eq!((a, b), (f(3.0), Some(f(2.0))));
    assert_eq!(vm.host_result(HostOp::F32Sub, 1.0f32.to_bits() as u64), Ok(()));
    assert_eq!(vm.pop(), Some(f(1.0)));
    assert_eq!(vm.pop(), Some(U32(7)));

    vm.push(I64(-3));
    let (a, b) = vm.host_operands(HostOp::F64ConvertI64S).unwrap();
    assert_eq!((a, b), (I64(-3), None));
    assert_eq!(vm.host_result(HostOp::F64ConvertI64S, (-3.0f64).to_bits()), Ok(()));
    assert_eq!(vm.pop(), Some(d(-3.0)));

    // A result of more than 32 bits is none of a binary32 instruction.
    assert_eq!(vm.host_result(HostOp::F32Add, 1 << 32), Err(Trap::InvalidArgument));
    assert_eq!(vm.host_result(HostOp::F32DemoteF64, u64::MAX), Err(Trap::InvalidArgument));
    assert_eq!(vm.pop(), None);
    assert_eq!(vm.execute(Handler::I32Add, &ArgsEnum::NONE), Err(Trap::StackUnderflow));
    assert_eq!(vm.execute(Handler::Call, &ArgsEnum::NONE), Ok(None));
    assert_eq!(Trap::DivideByZero.message(), "integer divide by zero");
}

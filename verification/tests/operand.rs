use wasm_core::binary::instruction::ArgsEnum;
use wasm_core::interpreter::operand;

#[test]
fn operand_test1() {
    let mut stack = operand::new();

    stack.push_u64(64_u64);
    assert_eq!(stack.pop_u64(), Some(64_u64));

    stack.push_f64(0.64_f64.to_bits());
    assert_eq!(stack.pop_f64().map(f64::from_bits), Some(0.64_f64));

    stack.push_u32(32_u32);
    assert_eq!(stack.pop_u32(), Some(32_u32));

    stack.push_f32(0.32_f32.to_bits());
    assert_eq!(stack.pop_f32().map(f32::from_bits), Some(0.32_f32));

    stack.push_s32(31_i32);
    assert_eq!(stack.pop_s32(), Some(31_i32));

    stack.push_s64(61_i64);
    assert_eq!(stack.pop_s64(), Some(61_i64));

    stack.push_bool(1);
    assert_eq!(stack.pop_bool(), Some(true));
}

#[test]
fn the_last_pushed_is_the_first_popped() {
    let mut stack = operand::new();
    assert_eq!(stack.len(), 0);
    stack.push_i8(-8);
    stack.push_i16(-16);
    stack.push_u16(16);
    stack.push(ArgsEnum::U8(8));
    assert_eq!(stack.len(), 4);
    assert_eq!(stack.peek(0), Some(&ArgsEnum::U8(8)));
    assert_eq!(stack.peek(1), Some(&ArgsEnum::U16(16)));
    assert_eq!(stack.peek(3), Some(&ArgsEnum::I8(-8)));
    assert_eq!(stack.peek(4), None);
    assert_eq!(stack.pop(), Some(ArgsEnum::U8(8)));
    assert_eq!(stack.pop_u16(), Some(16));
    assert_eq!(stack.pop_i16(), Some(-16));
    assert_eq!(stack.pop_i8(), Some(-8));
    assert_eq!(stack.len(), 0);
}

#[test]
fn popping_an_empty_stack_gives_nothing() {
    let mut stack = operand::new();
    assert_eq!(stack.pop(), None);
    assert_eq!(stack.pop_i8(), None);
    assert_eq!(stack.pop_i16(), None);
    assert_eq!(stack.pop_u16(), None);
    assert_eq!(stack.pop_u32(), None);
    assert_eq!(stack.pop_s32(), None);
    assert_eq!(stack.pop_u64(), None);
    assert_eq!(stack.pop_s64(), None);
    assert_eq!(stack.pop_f32(), None);
    assert_eq!(stack.pop_f64(), None);
    assert_eq!(stack.pop_bool(), None);
    assert_eq!(stack.peek(0), None);
    assert_eq!(stack.len(), 0);
}

#[test]
fn push_bool_takes_any_number_but_zero_for_true() {
    let mut stack = operand::new();
    for v in [1, 2, -1, i32::MIN, i32::MAX] {
        stack.push_bool(v);
        assert_eq!(stack.pop_bool(), Some(true));
    }
    stack.push_bool(0);
    assert_eq!(stack.pop_bool(), Some(false));
}

#[test]
fn floating_point_values_keep_their_bits() {
    let mut stack = operand::new();
    let nan = 0x7fc0_1234u32;
    stack.push_f32(nan);
    stack.push_f64(f64::NEG_INFINITY.to_bits());
    stack.push_f32((-0.0f32).to_bits());
    assert_eq!(stack.pop_f32(), Some(0x8000_0000));
    assert_eq!(stack.pop_f64(), Some(0xfff0_0000_0000_0000));
    assert_eq!(stack.pop_f32(), Some(nan));
}

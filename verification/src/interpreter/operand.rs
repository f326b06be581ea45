//! The operand stack: tagged values, the last pushed being the first popped.

use vstd::prelude::*;
use crate::binary::instruction::ArgsEnum;

verus! {

/// A stack of tagged values.
#[derive(Clone, Debug)]
pub struct OperandStack {
    slots: Vec<ArgsEnum>,
}

impl View for OperandStack {
    type V = Seq<ArgsEnum>;

    /// The values from the bottom to the top.
    closed spec fn view(&self) -> Seq<ArgsEnum> {
        self.slots@
    }
}

/// The value on top of `s`.
pub open spec fn top(s: Seq<ArgsEnum>) -> Option<ArgsEnum> {
    if s.len() > 0 {
        Some(s.last())
    } else {
        None
    }
}

/// What a pop makes of a stack: `after` is `before` without its top value,
/// and an empty stack stays empty.
pub open spec fn popped(before: Seq<ArgsEnum>, after: Seq<ArgsEnum>) -> bool {
    if before.len() > 0 {
        after == before.drop_last()
    } else {
        after == before
    }
}

/// An empty stack.
pub fn new() -> (s: OperandStack)
    ensures
        s@ == Seq::<ArgsEnum>::empty(),
{
    OperandStack { slots: Vec::new() }
}

impl OperandStack {
    /// The number of values on the stack.
    pub fn len(&self) -> (n: usize)
        ensures
            n == self@.len(),
    {
        self.slots.len()
    }

    /// The value `depth` places below the top, the top itself being at
    /// depth 0.
    pub fn peek(&self, depth: usize) -> (r: Option<&ArgsEnum>)
        ensures
            r == if depth < self@.len() {
                Some(&self@[self@.len() - 1 - depth])
            } else {
                None::<&ArgsEnum>
            },
    {
        if depth < self.slots.len() {
            Some(&self.slots[self.slots.len() - 1 - depth])
        } else {
            None
        }
    }

    /// Pushes a tagged value.
    pub fn push(&mut self, val: ArgsEnum)
        ensures
            final(self)@ == old(self)@.push(val),
    {
        self.slots.push(val);
    }

    /// Pushes `val` under the tag `I8`.
    pub fn push_i8(&mut self, val: i8)
        ensures
            final(self)@ == old(self)@.push(ArgsEnum::I8(val)),
    {
        self.slots.push(ArgsEnum::I8(val));
    }

    /// Pops the top value, which has the tag `I8`. Returns `None` and
    /// leaves the stack as it is where it is empty.
    pub fn pop_i8(&mut self) -> (r: Option<i8>)
        requires
            old(self)@.len() > 0 ==> old(self)@.last() is I8,
        ensures
            popped(old(self)@, final(self)@),
            r == match top(old(self)@) {
                Some(ArgsEnum::I8(v)) => Some(v),
                _ => None::<i8>,
            },
    {
        match self.slots.pop() {
            Some(ArgsEnum::I8(v)) => Some(v),
            _ => None,
        }
    }

    /// Pushes `val` under the tag `I16`.
    pub fn push_i16(&mut self, val: i16)
        ensures
            final(self)@ == old(self)@.push(ArgsEnum::I16(val)),
    {
        self.slots.push(ArgsEnum::I16(val));
    }

    /// Pops the top value, which has the tag `I16`. Returns `None` and
    /// leaves the stack as it is where it is empty.
    pub fn pop_i16(&mut self) -> (r: Option<i16>)
        requires
            old(self)@.len() > 0 ==> old(self)@.last() is I16,
        ensures
            popped(old(self)@, final(self)@),
            r == match top(old(self)@) {
                Some(ArgsEnum::I16(v)) => Some(v),
                _ => None::<i16>,
            },
    {
        match self.slots.pop() {
            Some(ArgsEnum::I16(v)) => Some(v),
            _ => None,
        }
    }

    /// Pushes `val` under the tag `U16`.
    pub fn push_u16(&mut self, val: u16)
        ensures
            final(self)@ == old(self)@.push(ArgsEnum::U16(val)),
    {
        self.slots.push(ArgsEnum::U16(val));
    }

    /// Pops the top value, which has the tag `U16`. Returns `None` and
    /// leaves the stack as it is where it is empty.
    pub fn pop_u16(&mut self) -> (r: Option<u16>)
        requires
            old(self)@.len() > 0 ==> old(self)@.last() is U16,
        ensures
            popped(old(self)@, final(self)@),
            r == match top(old(self)@) {
                Some(ArgsEnum::U16(v)) => Some(v),
                _ => None::<u16>,
            },
    {
        match self.slots.pop() {
            Some(ArgsEnum::U16(v)) => Some(v),
            _ => None,
        }
    }

    /// Pushes `val` under the tag `U64`.
    pub fn push_u64(&mut self, val: u64)
        ensures
            final(self)@ == old(self)@.push(ArgsEnum::U64(val)),
    {
        self.slots.push(ArgsEnum::U64(val));
    }

    /// Pops the top value, which has the tag `U64`. Returns `None` and
    /// leaves the stack as it is where it is empty.
    pub fn pop_u64(&mut self) -> (r: Option<u64>)
        requires
            old(self)@.len() > 0 ==> old(self)@.last() is U64,
        ensures
            popped(old(self)@, final(self)@),
            r == match top(old(self)@) {
                Some(ArgsEnum::U64(v)) => Some(v),
                _ => None::<u64>,
            },
    {
        match self.slots.pop() {
            Some(ArgsEnum::U64(v)) => Some(v),
            _ => None,
        }
    }

    /// Pushes `val` under the tag `I64`.
    pub fn push_s64(&mut self, val: i64)
        ensures
            final(self)@ == old(self)@.push(ArgsEnum::I64(val)),
    {
        self.slots.push(ArgsEnum::I64(val));
    }

    /// Pops the top value, which has the tag `I64`. Returns `None` and
    /// leaves the stack as it is where it is empty.
    pub fn pop_s64(&mut self) -> (r: Option<i64>)
        requires
            old(self)@.len() > 0 ==> old(self)@.last() is I64,
        ensures
            popped(old(self)@, final(self)@),
            r == match top(old(self)@) {
                Some(ArgsEnum::I64(v)) => Some(v),
                _ => None::<i64>,
            },
    {
        match self.slots.pop() {
            Some(ArgsEnum::I64(v)) => Some(v),
            _ => None,
        }
    }

    /// Pushes `val` under the tag `U32`.
    pub fn push_u32(&mut self, val: u32)
        ensures
            final(self)@ == old(self)@.push(ArgsEnum::U32(val)),
    {
        self.slots.push(ArgsEnum::U32(val));
    }

    /// Pops the top value, which has the tag `U32`. Returns `None` and
    /// leaves the stack as it is where it is empty.
    pub fn pop_u32(&mut self) -> (r: Option<u32>)
        requires
            old(self)@.len() > 0 ==> old(self)@.last() is U32,
        ensures
            popped(old(self)@, final(self)@),
            r == match top(old(self)@) {
                Some(ArgsEnum::U32(v)) => Some(v),
                _ => None::<u32>,
            },
    {
        match self.slots.pop() {
            Some(ArgsEnum::U32(v)) => Some(v),
            _ => None,
        }
    }

    /// Pushes `val` under the tag `I32`.
    pub fn push_s32(&mut self, val: i32)
        ensures
            final(self)@ == old(self)@.push(ArgsEnum::I32(val)),
    {
        self.slots.push(ArgsEnum::I32(val));
    }

    /// Pops the top value, which has the tag `I32`. Returns `None` and
    /// leaves the stack as it is where it is empty.
    pub fn pop_s32(&mut self) -> (r: Option<i32>)
        requires
            old(self)@.len() > 0 ==> old(self)@.last() is I32,
        ensures
            popped(old(self)@, final(self)@),
            r == match top(old(self)@) {
                Some(ArgsEnum::I32(v)) => Some(v),
                _ => None::<i32>,
            },
    {
        match self.slots.pop() {
            Some(ArgsEnum::I32(v)) => Some(v),
            _ => None,
        }
    }

    /// Pushes the binary64 value with the bit pattern `val` under the tag `F64`.
    pub fn push_f64(&mut self, val: u64)
        ensures
            final(self)@ == old(self)@.push(ArgsEnum::F64(val)),
    {
        self.slots.push(ArgsEnum::F64(val));
    }

    /// Pops the top value, which has the tag `F64`. Returns `None` and
    /// leaves the stack as it is where it is empty.
    pub fn pop_f64(&mut self) -> (r: Option<u64>)
        requires
            old(self)@.len() > 0 ==> old(self)@.last() is F64,
        ensures
            popped(old(self)@, final(self)@),
            r == match top(old(self)@) {
                Some(ArgsEnum::F64(v)) => Some(v),
                _ => None::<u64>,
            },
    {
        match self.slots.pop() {
            Some(ArgsEnum::F64(v)) => Some(v),
            _ => None,
        }
    }

    /// Pushes the binary32 value with the bit pattern `val` under the tag `F32`.
    pub fn push_f32(&mut self, val: u32)
        ensures
            final(self)@ == old(self)@.push(ArgsEnum::F32(val)),
    {
        self.slots.push(ArgsEnum::F32(val));
    }

    /// Pops the top value, which has the tag `F32`. Returns `None` and
    /// leaves the stack as it is where it is empty.
    pub fn pop_f32(&mut self) -> (r: Option<u32>)
        requires
            old(self)@.len() > 0 ==> old(self)@.last() is F32,
        ensures
            popped(old(self)@, final(self)@),
            r == match top(old(self)@) {
                Some(ArgsEnum::F32(v)) => Some(v),
                _ => None::<u32>,
            },
    {
        match self.slots.pop() {
            Some(ArgsEnum::F32(v)) => Some(v),
            _ => None,
        }
    }

    /// Pushes the truth value of `val` under the tag `Bool`: true for any
    /// number but zero.
    pub fn push_bool(&mut self, val: i32)
        ensures
            final(self)@ == old(self)@.push(ArgsEnum::Bool(val != 0)),
    {
        self.slots.push(ArgsEnum::Bool(val != 0));
    }

    /// Pops the top value, which has the tag `Bool`. Returns `None` and
    /// leaves the stack as it is where it is empty.
    pub fn pop_bool(&mut self) -> (r: Option<bool>)
        requires
            old(self)@.len() > 0 ==> old(self)@.last() is Bool,
        ensures
            popped(old(self)@, final(self)@),
            r == match top(old(self)@) {
                Some(ArgsEnum::Bool(v)) => Some(v),
                _ => None::<bool>,
            },
    {
        match self.slots.pop() {
            Some(ArgsEnum::Bool(v)) => Some(v),
            _ => None,
        }
    }

    /// Pops the top value, whatever its tag. Returns `None` where the stack
    /// is empty.
    pub fn pop(&mut self) -> (r: Option<ArgsEnum>)
        ensures
            popped(old(self)@, final(self)@),
            r == top(old(self)@),
    {
        self.slots.pop()
    }
}

} // verus!

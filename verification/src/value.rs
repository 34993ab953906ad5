//! The four value types of the calling convention and the values they hold.

use vstd::prelude::*;

verus! {

/// The type of an argument or of a result.
#[derive(Clone, Copy, Debug, PartialEq, Eq, Structural)]
pub enum ValueType {
    I32,
    I64,
    F32,
    F64,
}

/// A typed value. Integers are signed; a float is carried as its IEEE 754 bit
/// pattern, so that no bit of it is lost or altered on the way.
#[derive(Clone, Copy, Debug, PartialEq, Eq, Structural)]
pub enum Value {
    I32(i32),
    I64(i64),
    F32(u32),
    F64(u64),
}

impl ValueType {
    /// The number of bytes a value of this type occupies.
    pub open spec fn spec_width(self) -> nat {
        match self {
            ValueType::I32 => 4,
            ValueType::I64 => 8,
            ValueType::F32 => 4,
            ValueType::F64 => 8,
        }
    }

    /// The number of bytes a value of this type occupies.
    pub fn width(self) -> (w: usize)
        ensures
            w == self.spec_width(),
    {
        match self {
            ValueType::I32 => 4,
            ValueType::I64 => 8,
            ValueType::F32 => 4,
            ValueType::F64 => 8,
        }
    }
}

impl Value {
    /// The type of this value.
    pub open spec fn spec_value_type(self) -> ValueType {
        match self {
            Value::I32(_) => ValueType::I32,
            Value::I64(_) => ValueType::I64,
            Value::F32(_) => ValueType::F32,
            Value::F64(_) => ValueType::F64,
        }
    }

    /// The type of this value.
    #[verifier::when_used_as_spec(spec_value_type)]
    pub fn value_type(self) -> (t: ValueType)
        ensures
            t == self.spec_value_type(),
    {
        match self {
            Value::I32(_) => ValueType::I32,
            Value::I64(_) => ValueType::I64,
            Value::F32(_) => ValueType::F32,
            Value::F64(_) => ValueType::F64,
        }
    }
}

} // verus!

//! The tags and values that globals exchange with the rest of the engine.

use vstd::prelude::*;

verus! {

/// The kind of value that a global is declared to hold.
#[derive(Clone, Copy, Debug, PartialEq, Eq, Structural)]
pub enum ValType {
    I32,
    I64,
    F32,
    F64,
    V128,
    FuncRef,
    ExternRef,
}

/// Whether a global may be written after it has been created.
#[derive(Clone, Copy, Debug, PartialEq, Eq, Structural)]
pub enum Mutability {
    /// Written once, when the global is created.
    Const,
    /// Writable for as long as the global lives.
    Var,
}

/// Who is responsible for releasing a descriptor or a global.
///
/// The only transition is from `Owned` to `Registered`.
#[derive(Clone, Copy, Debug, PartialEq, Eq, Structural)]
pub enum Ownership {
    /// Free-standing: the holder of the handle releases it.
    Owned,
    /// Handed to, or borrowed from, another owner: the handle releases nothing.
    Registered,
}

/// Why an operation on a global was rejected.
#[derive(Clone, Copy, Debug, PartialEq, Eq, Structural)]
pub enum GlobalError {
    /// The descriptor or the cell could not be constructed.
    CreationError,
    /// The value's tag is not the declared value type.
    TypeMismatchError,
    /// A write was attempted on a constant global.
    ImmutableGlobalError,
    /// The cell could not report its own type.
    QueryError,
}

/// A tagged runtime value.
///
/// The two floating-point kinds carry the IEEE 754 bit pattern of the number,
/// so that two values are equal exactly when they are the same bits.
#[derive(Clone, Copy, Debug, PartialEq, Eq, Structural)]
pub enum Value {
    I32(i32),
    I64(i64),
    /// The bits of a 32-bit float.
    F32(u32),
    /// The bits of a 64-bit float.
    F64(u64),
    V128(u128),
    /// A function reference, by its index.
    FuncRef(u128),
    /// A reference to a host object, by its index.
    ExternRef(u128),
}

impl Value {
    /// The tag of this value.
    pub open spec fn spec_val_type(&self) -> ValType {
        match self {
            Value::I32(_) => ValType::I32,
            Value::I64(_) => ValType::I64,
            Value::F32(_) => ValType::F32,
            Value::F64(_) => ValType::F64,
            Value::V128(_) => ValType::V128,
            Value::FuncRef(_) => ValType::FuncRef,
            Value::ExternRef(_) => ValType::ExternRef,
        }
    }

    /// The tag of this value.
    #[verifier::when_used_as_spec(spec_val_type)]
    pub fn val_type(&self) -> (tag: ValType)
        ensures
            tag == self.spec_val_type(),
    {
        match self {
            Value::I32(_) => ValType::I32,
            Value::I64(_) => ValType::I64,
            Value::F32(_) => ValType::F32,
            Value::F64(_) => ValType::F64,
            Value::V128(_) => ValType::V128,
            Value::FuncRef(_) => ValType::FuncRef,
            Value::ExternRef(_) => ValType::ExternRef,
        }
    }

    /// Whether this value may be stored in a global declared with `ty`.
    pub open spec fn spec_has_type(&self, ty: ValType) -> bool {
        self.spec_val_type() == ty
    }

    /// Whether this value may be stored in a global declared with `ty`.
    #[verifier::when_used_as_spec(spec_has_type)]
    pub fn has_type(&self, ty: ValType) -> (fits: bool)
        ensures
            fits == self.spec_has_type(ty),
    {
        self.val_type() == ty
    }
}

} // verus!

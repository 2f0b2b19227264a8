//! Runtime values, runtime types, runtime errors, and how a value is rendered
//! as a line of output.

use crate::numtext::int_text;
use vstd::prelude::*;

verus! {

/// A runtime value. Values are immutable and copied on every use.
#[derive(Clone, Copy, PartialEq, Eq, Structural, Debug)]
pub enum Value {
    Integer(i32),
    Boolean(bool),
    /// The absence of a value: an unbound identifier, a side-effecting
    /// statement's result, or the result of an empty program.
    Undefined,
}

/// The runtime type tag of a value, used for dynamic type checking.
#[derive(Clone, Copy, PartialEq, Eq, Structural, Debug)]
pub enum RuntimeType {
    Integer,
    Boolean,
    Undefined,
}

impl Value {
    /// The runtime type of this value.
    pub open spec fn spec_type_of(&self) -> RuntimeType {
        match self {
            Value::Integer(_) => RuntimeType::Integer,
            Value::Boolean(_) => RuntimeType::Boolean,
            Value::Undefined => RuntimeType::Undefined,
        }
    }

    /// The runtime type of this value.
    #[verifier::when_used_as_spec(spec_type_of)]
    pub fn type_of(&self) -> (t: RuntimeType)
        ensures
            t == self.spec_type_of(),
    {
        match self {
            Value::Integer(_) => RuntimeType::Integer,
            Value::Boolean(_) => RuntimeType::Boolean,
            Value::Undefined => RuntimeType::Undefined,
        }
    }
}

/// An evaluation-time error. Evaluation halts at the first one; completed
/// statements and already-emitted output stand.
#[derive(PartialEq, Eq, Debug)]
pub enum RuntimeError {
    /// An operator was applied to operands of incompatible runtime types.
    TypeMismatch { expected: RuntimeType, actual: RuntimeType },
    /// A call named a built-in that does not exist.
    UnknownMethod(String),
    /// Division or remainder by zero.
    DivisionByZero,
}

/// The ghost mirror of a runtime error.
pub enum RuntimeErrorView {
    TypeMismatch { expected: RuntimeType, actual: RuntimeType },
    UnknownMethod(Seq<char>),
    DivisionByZero,
}

impl View for RuntimeError {
    type V = RuntimeErrorView;

    open spec fn view(&self) -> RuntimeErrorView {
        match self {
            RuntimeError::TypeMismatch { expected, actual } => RuntimeErrorView::TypeMismatch {
                expected: *expected,
                actual: *actual,
            },
            RuntimeError::UnknownMethod(name) => RuntimeErrorView::UnknownMethod(name@),
            RuntimeError::DivisionByZero => RuntimeErrorView::DivisionByZero,
        }
    }
}

/// The text of one output line for a value: the canonical decimal for an
/// integer, `true`/`false` for a boolean, `undefined` for the undefined value.
pub open spec fn render(v: Value) -> Seq<char> {
    match v {
        Value::Integer(n) => int_text(n as int),
        Value::Boolean(b) => if b {
            "true"@
        } else {
            "false"@
        },
        Value::Undefined => "undefined"@,
    }
}

} // verus!

//! The fault taxonomy.
//!
//! Every failure of a run is fatal: the faulting expression stops the
//! whole evaluation and the fault travels up to the caller of `run`.
//! Each variant records one failure condition; `describe` renders the
//! diagnostic message shown to the user.

use vstd::prelude::*;

use crate::ast::Operator;

verus! {

/// One fatal fault.
#[derive(Debug)]
pub enum Fault {
    /// Operand variants incompatible with the requested operator.
    TypeMismatch(Operator),
    /// An identifier referenced before any assignment bound it.
    UnboundName(String),
    /// A function-call name not found in the built-in registry.
    UnknownCallee(String),
    /// A call supplying fewer arguments than the built-in requires.
    ArityFault,
    /// Integer division by zero, or a result outside the 64-bit range.
    ArithmeticFault,
}

/// Ghost counterpart of `Fault`.
pub enum FaultModel {
    TypeMismatch(Operator),
    UnboundName(Seq<char>),
    UnknownCallee(Seq<char>),
    ArityFault,
    ArithmeticFault,
}

pub open spec fn fault_model(f: Fault) -> FaultModel {
    match f {
        Fault::TypeMismatch(op) => FaultModel::TypeMismatch(op),
        Fault::UnboundName(x) => FaultModel::UnboundName(x@),
        Fault::UnknownCallee(x) => FaultModel::UnknownCallee(x@),
        Fault::ArityFault => FaultModel::ArityFault,
        Fault::ArithmeticFault => FaultModel::ArithmeticFault,
    }
}

impl View for Fault {
    type V = FaultModel;

    open spec fn view(&self) -> FaultModel {
        fault_model(*self)
    }
}

/// The diagnostic message of each fault.
pub open spec fn fault_text(f: FaultModel) -> Seq<char> {
    match f {
        FaultModel::TypeMismatch(op) => match op {
            Operator::SetVal => "Cannot assign to this expression"@,
            Operator::Add => "Cannot add non-numeric values"@,
            Operator::Sub => "Cannot subtract non-numeric values"@,
            Operator::Mul => "Cannot multiply non-numeric values"@,
            Operator::Div => "Cannot divide non-numeric values"@,
            Operator::Equal => "Cannot compare non-numeric values"@,
            Operator::NotEqual => "Cannot compare non-numeric values"@,
        },
        FaultModel::UnboundName(x) => "Undefined variable: "@ + x,
        FaultModel::UnknownCallee(x) => "Undefined function: "@ + x,
        FaultModel::ArityFault => "Missing argument in function call"@,
        FaultModel::ArithmeticFault => "Arithmetic fault"@,
    }
}

impl Fault {
    /// The diagnostic message naming this fault condition.
    pub fn describe(&self) -> (s: String)
        ensures
            s@ == fault_text(fault_model(*self)),
    {
        match self {
            Fault::TypeMismatch(op) => match op {
                Operator::SetVal => String::from_str("Cannot assign to this expression"),
                Operator::Add => String::from_str("Cannot add non-numeric values"),
                Operator::Sub => String::from_str("Cannot subtract non-numeric values"),
                Operator::Mul => String::from_str("Cannot multiply non-numeric values"),
                Operator::Div => String::from_str("Cannot divide non-numeric values"),
                Operator::Equal => String::from_str("Cannot compare non-numeric values"),
                Operator::NotEqual => String::from_str("Cannot compare non-numeric values"),
            },
            Fault::UnboundName(x) => {
                let mut s = String::from_str("Undefined variable: ");
                s.append(x.as_str());
                s
            },
            Fault::UnknownCallee(x) => {
                let mut s = String::from_str("Undefined function: ");
                s.append(x.as_str());
                s
            },
            Fault::ArityFault => String::from_str("Missing argument in function call"),
            Fault::ArithmeticFault => String::from_str("Arithmetic fault"),
        }
    }
}

} // verus!

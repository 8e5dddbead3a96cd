//! The reduction semantics.
//!
//! `reduce` says, over the ghost models, what reducing one
//! abstract-syntax-tree node yields and how it changes the evaluation
//! state; `run_outcome` folds it over a whole program.  The executable
//! evaluator in `interp` is proved to agree with these functions
//! exactly, so every contract of the library bottoms out here.

use vstd::math::abs;
use vstd::prelude::*;

use crate::ast::{ExprModel, Operator, TokenModel};
use crate::fault::FaultModel;
use crate::value::{render_model, ValModel};

verus! {

/// Whether `i` fits the signed 64-bit values the evaluator computes on.
pub open spec fn fits_i64(i: int) -> bool {
    i64::MIN <= i <= i64::MAX
}

/// Truncating division: the quotient rounded toward zero, as the
/// host's 64-bit signed division computes it.
pub open spec fn trunc_div(a: int, b: int) -> int {
    let q = (abs(a) / abs(b)) as int;
    if (a < 0) != (b < 0) {
        -q
    } else {
        q
    }
}

/// The evaluation state one reduction step acts on: the global
/// environment and the text written to the output sink so far.
pub struct EvalState {
    pub env: Map<Seq<char>, ValModel>,
    pub out: Seq<char>,
}

/// The value or fault of one binary operator applied to two reduced
/// operands.  Arithmetic and comparison are defined pairwise on
/// same-variant operands only; every other pairing is a type mismatch.
/// An integer result outside the 64-bit range, and division by zero,
/// are arithmetic faults.
pub open spec fn apply_binop(op: Operator, l: ValModel, r: ValModel) -> Result<
    ValModel,
    FaultModel,
> {
    match op {
        Operator::SetVal => Err(FaultModel::TypeMismatch(Operator::SetVal)),
        Operator::Add => match (l, r) {
            (ValModel::Int(a), ValModel::Int(b)) => if fits_i64(a + b) {
                Ok(ValModel::Int(a + b))
            } else {
                Err(FaultModel::ArithmeticFault)
            },
            (ValModel::Text(s), ValModel::Text(t)) => Ok(ValModel::Text(s + t)),
            _ => Err(FaultModel::TypeMismatch(Operator::Add)),
        },
        Operator::Sub => match (l, r) {
            (ValModel::Int(a), ValModel::Int(b)) => if fits_i64(a - b) {
                Ok(ValModel::Int(a - b))
            } else {
                Err(FaultModel::ArithmeticFault)
            },
            _ => Err(FaultModel::TypeMismatch(Operator::Sub)),
        },
        Operator::Mul => match (l, r) {
            (ValModel::Int(a), ValModel::Int(b)) => if fits_i64(a * b) {
                Ok(ValModel::Int(a * b))
            } else {
                Err(FaultModel::ArithmeticFault)
            },
            _ => Err(FaultModel::TypeMismatch(Operator::Mul)),
        },
        Operator::Div => match (l, r) {
            (ValModel::Int(a), ValModel::Int(b)) => if b == 0 {
                Err(FaultModel::ArithmeticFault)
            } else if fits_i64(trunc_div(a, b)) {
                Ok(ValModel::Int(trunc_div(a, b)))
            } else {
                Err(FaultModel::ArithmeticFault)
            },
            _ => Err(FaultModel::TypeMismatch(Operator::Div)),
        },
        Operator::Equal => match (l, r) {
            (ValModel::Int(a), ValModel::Int(b)) => Ok(ValModel::Bool(a == b)),
            (ValModel::Text(s), ValModel::Text(t)) => Ok(ValModel::Bool(s == t)),
            (ValModel::Bool(x), ValModel::Bool(y)) => Ok(ValModel::Bool(x == y)),
            _ => Err(FaultModel::TypeMismatch(Operator::Equal)),
        },
        Operator::NotEqual => match (l, r) {
            (ValModel::Int(a), ValModel::Int(b)) => Ok(ValModel::Bool(a != b)),
            (ValModel::Text(s), ValModel::Text(t)) => Ok(ValModel::Bool(s != t)),
            (ValModel::Bool(x), ValModel::Bool(y)) => Ok(ValModel::Bool(x != y)),
            _ => Err(FaultModel::TypeMismatch(Operator::NotEqual)),
        },
    }
}

/// The renderings of `vals` joined with a comma and a space between
/// neighbours.
pub open spec fn joined(vals: Seq<ValModel>) -> Seq<char>
    decreases vals.len(),
{
    if vals.len() == 0 {
        Seq::empty()
    } else if vals.len() == 1 {
        render_model(vals[0])
    } else {
        joined(vals.drop_last()) + ", "@ + render_model(vals.last())
    }
}

/// What one `print` call appends to the output sink.
pub open spec fn print_text(vals: Seq<ValModel>) -> Seq<char> {
    joined(vals) + "\n"@
}

/// A call dispatched by name against the built-in registry (which
/// holds only `print`): `print` with no argument is an arity fault,
/// otherwise it appends the joined renderings and a newline and yields
/// `Nothing`; any other name is an unknown callee.
pub open spec fn call_outcome(st: EvalState, name: Seq<char>, args: Seq<ValModel>) -> (Result<
    ValModel,
    FaultModel,
>, EvalState) {
    if name == "print"@ {
        if args.len() == 0 {
            (Err(FaultModel::ArityFault), st)
        } else {
            (Ok(ValModel::Nothing), EvalState { env: st.env, out: st.out + print_text(args) })
        }
    } else {
        (Err(FaultModel::UnknownCallee(name)), st)
    }
}

/// One reduction step: `e` reduced in state `st` to a value or a
/// fault, together with the state as it stands when the step ends.
/// Side effects of sub-expressions reduced before a fault are kept.
///
/// Assignment reduces the right side, binds it under the left side's
/// identifier, and yields `Nothing`.  Other binary nodes reduce left
/// before right and then apply the operator.  Literal tokens map to
/// their value; an identifier is looked up in the environment; token
/// kinds without a meaning reduce to `Nothing`.  A call reduces its
/// arguments left to right and dispatches by name.
pub open spec fn reduce(st: EvalState, e: ExprModel) -> (Result<ValModel, FaultModel>, EvalState)
    decreases e,
{
    match e {
        ExprModel::Binary { op, lhs, rhs } => {
            if op == Operator::SetVal {
                let (r, st1) = reduce(st, *rhs);
                match r {
                    Ok(v) => match *lhs {
                        ExprModel::Leaf(TokenModel::Identifier(x)) => (
                            Ok(ValModel::Nothing),
                            EvalState { env: st1.env.insert(x, v), out: st1.out },
                        ),
                        _ => (Err(FaultModel::TypeMismatch(Operator::SetVal)), st1),
                    },
                    Err(f) => (Err(f), st1),
                }
            } else {
                let (rl, st1) = reduce(st, *lhs);
                match rl {
                    Err(f) => (Err(f), st1),
                    Ok(lv) => {
                        let (rr, st2) = reduce(st1, *rhs);
                        match rr {
                            Err(f) => (Err(f), st2),
                            Ok(rv) => (apply_binop(op, lv, rv), st2),
                        }
                    },
                }
            }
        },
        ExprModel::Leaf(t) => match t {
            TokenModel::Num(n) => (Ok(ValModel::Int(n)), st),
            TokenModel::Text(s) => (Ok(ValModel::Text(s)), st),
            TokenModel::Bool(b) => (Ok(ValModel::Bool(b)), st),
            TokenModel::Identifier(x) => if st.env.contains_key(x) {
                (Ok(st.env[x]), st)
            } else {
                (Err(FaultModel::UnboundName(x)), st)
            },
            TokenModel::Other => (Ok(ValModel::Nothing), st),
        },
        ExprModel::Call { name, args } => {
            let (r, st1) = reduce_args(st, args);
            match r {
                Err(f) => (Err(f), st1),
                Ok(vs) => call_outcome(st1, name, vs),
            }
        },
    }
}

/// Argument expressions reduced left to right; the first fault stops
/// the sequence.
pub open spec fn reduce_args(st: EvalState, args: Seq<ExprModel>) -> (Result<
    Seq<ValModel>,
    FaultModel,
>, EvalState)
    decreases args,
{
    if args.len() == 0 {
        (Ok(Seq::empty()), st)
    } else {
        let (r, st1) = reduce(st, args[0]);
        match r {
            Err(f) => (Err(f), st1),
            Ok(v) => {
                let (rs, st2) = reduce_args(st1, args.drop_first());
                match rs {
                    Err(f) => (Err(f), st2),
                    Ok(vs) => (Ok(seq![v] + vs), st2),
                }
            },
        }
    }
}

/// A whole program: the top-level expressions reduced in order with
/// their results discarded; the first fault aborts the run.
pub open spec fn run_outcome(st: EvalState, es: Seq<ExprModel>) -> (Result<(), FaultModel>, EvalState)
    decreases es.len(),
{
    if es.len() == 0 {
        (Ok(()), st)
    } else {
        let (r, st1) = reduce(st, es[0]);
        match r {
            Err(f) => (Err(f), st1),
            Ok(v) => run_outcome(st1, es.drop_first()),
        }
    }
}

} // verus!

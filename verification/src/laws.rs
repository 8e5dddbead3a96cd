//! Laws of the reduction semantics.
//!
//! Each proof function here states one property that holds of the
//! evaluator for all inputs, over the same spec functions the
//! executable functions' contracts use.

use vstd::arithmetic::div_mod::{lemma_div_nonincreasing, lemma_div_pos_is_pos};
use vstd::math::abs;
use vstd::prelude::*;

use crate::ast::{ExprModel, Operator, TokenModel};
use crate::fault::FaultModel;
use crate::semantics::{
    apply_binop, call_outcome, fits_i64, print_text, reduce, reduce_args, trunc_div, EvalState,
};
use crate::value::{render_model, ValModel};

verus! {

/// An integer-literal leaf.
pub open spec fn lit_int(a: i64) -> ExprModel {
    ExprModel::Leaf(TokenModel::Num(a as int))
}

/// A text-literal leaf.
pub open spec fn lit_text(s: Seq<char>) -> ExprModel {
    ExprModel::Leaf(TokenModel::Text(s))
}

/// An identifier leaf.
pub open spec fn ident(x: Seq<char>) -> ExprModel {
    ExprModel::Leaf(TokenModel::Identifier(x))
}

/// A binary node.
pub open spec fn binary(op: Operator, l: ExprModel, r: ExprModel) -> ExprModel {
    ExprModel::Binary { op, lhs: Box::new(l), rhs: Box::new(r) }
}

/// An assignment node binding `x`.
pub open spec fn assign(x: Seq<char>, rhs: ExprModel) -> ExprModel {
    binary(Operator::SetVal, ident(x), rhs)
}

/// Law: for all 64-bit integers `a` and `b` whose sum fits, `a + b`
/// reduces to the integer sum and leaves the state alone.
pub proof fn lemma_reduce_add(st: EvalState, a: i64, b: i64)
    requires
        fits_i64(a + b),
    ensures
        reduce(st, binary(Operator::Add, lit_int(a), lit_int(b))) == (
            Ok::<ValModel, FaultModel>(ValModel::Int(a + b)),
            st,
        ),
{
    assert(reduce(st, lit_int(a)) == (Ok::<ValModel, FaultModel>(ValModel::Int(a as int)), st));
    assert(reduce(st, lit_int(b)) == (Ok::<ValModel, FaultModel>(ValModel::Int(b as int)), st));
}

/// Law: for all 64-bit integers `a` and `b` whose difference fits,
/// `a - b` reduces to the integer difference.
pub proof fn lemma_reduce_sub(st: EvalState, a: i64, b: i64)
    requires
        fits_i64(a - b),
    ensures
        reduce(st, binary(Operator::Sub, lit_int(a), lit_int(b))) == (
            Ok::<ValModel, FaultModel>(ValModel::Int(a - b)),
            st,
        ),
{
    assert(reduce(st, lit_int(a)) == (Ok::<ValModel, FaultModel>(ValModel::Int(a as int)), st));
    assert(reduce(st, lit_int(b)) == (Ok::<ValModel, FaultModel>(ValModel::Int(b as int)), st));
}

/// Law: for all 64-bit integers `a` and `b` whose product fits,
/// `a * b` reduces to the integer product.
pub proof fn lemma_reduce_mul(st: EvalState, a: i64, b: i64)
    requires
        fits_i64(a * b),
    ensures
        reduce(st, binary(Operator::Mul, lit_int(a), lit_int(b))) == (
            Ok::<ValModel, FaultModel>(ValModel::Int(a * b)),
            st,
        ),
{
    assert(reduce(st, lit_int(a)) == (Ok::<ValModel, FaultModel>(ValModel::Int(a as int)), st));
    assert(reduce(st, lit_int(b)) == (Ok::<ValModel, FaultModel>(ValModel::Int(b as int)), st));
}

/// Law: for all 64-bit integers `a` and `b` with `b` non-zero (and the
/// one pair whose quotient overflows left out), `a / b` reduces to the
/// truncating quotient.
pub proof fn lemma_reduce_div(st: EvalState, a: i64, b: i64)
    requires
        b != 0,
        !(a == i64::MIN && b == -1),
    ensures
        reduce(st, binary(Operator::Div, lit_int(a), lit_int(b))) == (
            Ok::<ValModel, FaultModel>(ValModel::Int(trunc_div(a as int, b as int))),
            st,
        ),
{
    assert(reduce(st, lit_int(a)) == (Ok::<ValModel, FaultModel>(ValModel::Int(a as int)), st));
    assert(reduce(st, lit_int(b)) == (Ok::<ValModel, FaultModel>(ValModel::Int(b as int)), st));
    let q = abs(a as int) / abs(b as int);
    lemma_div_pos_is_pos(abs(a as int) as int, abs(b as int) as int);
    lemma_div_nonincreasing(abs(a as int) as int, abs(b as int) as int);
    if a == i64::MIN {
        assert(abs(a as int) == 0x8000000000000000);
        if abs(b as int) >= 2 {
            assert(q < 0x8000000000000000) by {
                vstd::arithmetic::div_mod::lemma_div_decreases(abs(a as int) as int, abs(b as int) as int);
            }
        } else {
            assert(b == 1);
            vstd::arithmetic::div_mod::lemma_div_by_self(1);
        }
    }
    assert(fits_i64(trunc_div(a as int, b as int)));
}

/// Law: for all strings `s` and `t`, `s + t` reduces to their
/// concatenation.
pub proof fn lemma_reduce_concat(st: EvalState, s: Seq<char>, t: Seq<char>)
    ensures
        reduce(st, binary(Operator::Add, lit_text(s), lit_text(t))) == (
            Ok::<ValModel, FaultModel>(ValModel::Text(s + t)),
            st,
        ),
{
    assert(reduce(st, lit_text(s)) == (Ok::<ValModel, FaultModel>(ValModel::Text(s)), st));
    assert(reduce(st, lit_text(t)) == (Ok::<ValModel, FaultModel>(ValModel::Text(t)), st));
}

/// Law: reducing `x := rhs` binds `x` to the value the right side
/// reduced to and yields the unit value, and looking `x` up afterwards
/// yields exactly that value — whether or not `x` was bound before.
pub proof fn lemma_assign_then_lookup(
    st: EvalState,
    x: Seq<char>,
    rhs: ExprModel,
    v: ValModel,
    st1: EvalState,
)
    requires
        reduce(st, rhs) == (Ok::<ValModel, FaultModel>(v), st1),
    ensures
        reduce(st, assign(x, rhs)) == (
            Ok::<ValModel, FaultModel>(ValModel::Nothing),
            (EvalState { env: st1.env.insert(x, v), out: st1.out }),
        ),
        ({
            let st2 = (EvalState { env: st1.env.insert(x, v), out: st1.out });
            reduce(st2, ident(x)) == (Ok::<ValModel, FaultModel>(v), st2)
        }),
{
    let st2 = EvalState { env: st1.env.insert(x, v), out: st1.out };
    assert(st2.env.contains_key(x));
    assert(st2.env[x] == v);
}

/// Law: binding `x` twice leaves the second value on lookup, never the
/// first.
pub proof fn lemma_rebind_overwrites(
    st: EvalState,
    x: Seq<char>,
    rhs1: ExprModel,
    rhs2: ExprModel,
    v1: ValModel,
    v2: ValModel,
    st1: EvalState,
    st2: EvalState,
)
    requires
        reduce(st, rhs1) == (Ok::<ValModel, FaultModel>(v1), st1),
        reduce((EvalState { env: st1.env.insert(x, v1), out: st1.out }), rhs2) == (
            Ok::<ValModel, FaultModel>(v2),
            st2,
        ),
    ensures
        ({
            let (ra, sta) = reduce(st, assign(x, rhs1));
            let (rb, stb) = reduce(sta, assign(x, rhs2));
            &&& ra == Ok::<ValModel, FaultModel>(ValModel::Nothing)
            &&& rb == Ok::<ValModel, FaultModel>(ValModel::Nothing)
            &&& stb.env[x] == v2
            &&& reduce(stb, ident(x)) == (Ok::<ValModel, FaultModel>(v2), stb)
        }),
{
    lemma_assign_then_lookup(st, x, rhs1, v1, st1);
    let sta = EvalState { env: st1.env.insert(x, v1), out: st1.out };
    lemma_assign_then_lookup(sta, x, rhs2, v2, st2);
}

/// Whether two values are comparable: the same variant among integers,
/// text and booleans.
pub open spec fn comparable(l: ValModel, r: ValModel) -> bool {
    ||| (l is Int && r is Int)
    ||| (l is Text && r is Text)
    ||| (l is Bool && r is Bool)
}

/// Law: equality is reflexive on comparable operands.
pub proof fn lemma_equality_reflexive(v: ValModel)
    requires
        comparable(v, v),
    ensures
        apply_binop(Operator::Equal, v, v) == Ok::<ValModel, FaultModel>(ValModel::Bool(true)),
{
}

/// Law: equality and inequality are symmetric — on comparable operands
/// the compared outcome is the same either way round, and on any other
/// pair both orders fault alike.
pub proof fn lemma_equality_symmetric(l: ValModel, r: ValModel)
    ensures
        apply_binop(Operator::Equal, l, r) == apply_binop(Operator::Equal, r, l),
        apply_binop(Operator::NotEqual, l, r) == apply_binop(Operator::NotEqual, r, l),
{
}

/// Law: comparing operands of different variants, or operands that are
/// function descriptors or the unit value, always faults.
pub proof fn lemma_cross_variant_comparison_faults(l: ValModel, r: ValModel)
    requires
        !comparable(l, r),
    ensures
        apply_binop(Operator::Equal, l, r) == Err::<ValModel, FaultModel>(
            FaultModel::TypeMismatch(Operator::Equal),
        ),
        apply_binop(Operator::NotEqual, l, r) == Err::<ValModel, FaultModel>(
            FaultModel::TypeMismatch(Operator::NotEqual),
        ),
{
}

/// Law: `print` with one argument appends that argument's rendering
/// and a newline to the output, and yields the unit value.
pub proof fn lemma_print_one(st: EvalState, v: ValModel)
    ensures
        call_outcome(st, "print"@, seq![v]) == (
            Ok::<ValModel, FaultModel>(ValModel::Nothing),
            (EvalState { env: st.env, out: st.out + render_model(v) + "\n"@ }),
        ),
{
    assert(print_text(seq![v]) == render_model(v) + "\n"@);
    assert(st.out + (render_model(v) + "\n"@) =~= st.out + render_model(v) + "\n"@);
}

/// Law: looking up an identifier no assignment has bound faults with
/// `UnboundName` and changes nothing.
pub proof fn lemma_unbound_name_faults(st: EvalState, x: Seq<char>)
    requires
        !st.env.contains_key(x),
    ensures
        reduce(st, ident(x)) == (
            Err::<ValModel, FaultModel>(FaultModel::UnboundName(x)),
            st,
        ),
{
}

/// Law: dispatching any name but `print` faults with `UnknownCallee`,
/// whatever the arguments reduced to.
pub proof fn lemma_unknown_callee_faults(
    st: EvalState,
    name: Seq<char>,
    args: Seq<ExprModel>,
    vals: Seq<ValModel>,
    st1: EvalState,
)
    requires
        name != "print"@,
        reduce_args(st, args) == (Ok::<Seq<ValModel>, FaultModel>(vals), st1),
    ensures
        call_outcome(st1, name, vals) == (
            Err::<ValModel, FaultModel>(FaultModel::UnknownCallee(name)),
            st1,
        ),
        reduce(st, (ExprModel::Call { name, args })) == (
            Err::<ValModel, FaultModel>(FaultModel::UnknownCallee(name)),
            st1,
        ),
{
}

} // verus!

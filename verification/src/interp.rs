//! The executable evaluator.
//!
//! `Interpreter` owns the program's top-level expressions, the global
//! environment and the output sink.  `interpret_expr` reduces one node,
//! `run` the whole program; both are proved to agree with the reduction
//! semantics in `semantics` exactly, fault for fault and character for
//! character of output.

use vstd::prelude::*;

use crate::ast::{
    arg_models, expr_model, exprs_model, lemma_arg_models, Expr, ExprModel, Operator, Token,
};
use crate::fault::{fault_model, Fault, FaultModel};
use crate::semantics::{
    apply_binop, call_outcome, joined, print_text, reduce, reduce_args, run_outcome, EvalState,
};
use crate::state::State;
use crate::value::{val_model, vals_model, ValModel, ValueType};

verus! {

/// The evaluator: a program and the state its reduction acts on.
pub struct Interpreter {
    pub state: State,
    pub exprs: Vec<Expr>,
    pub output: String,
}

/// The model of an `Ok`/`Err` outcome of one reduction.
pub open spec fn result_model(r: Result<ValueType, Fault>) -> Result<ValModel, FaultModel> {
    match r {
        Ok(v) => Ok(val_model(v)),
        Err(f) => Err(fault_model(f)),
    }
}

/// The model of the outcome of a whole run.
pub open spec fn run_result_model(r: Result<(), Fault>) -> Result<(), FaultModel> {
    match r {
        Ok(u) => Ok(u),
        Err(f) => Err(fault_model(f)),
    }
}

/// Prepends already-reduced argument values to the outcome of the
/// remaining ones.
pub open spec fn args_continue(
    done: Seq<ValModel>,
    rest: (Result<Seq<ValModel>, FaultModel>, EvalState),
) -> (Result<Seq<ValModel>, FaultModel>, EvalState) {
    match rest.0 {
        Ok(vs) => (Ok(done + vs), rest.1),
        Err(f) => (Err(f), rest.1),
    }
}

proof fn lemma_args_continue_push(
    done: Seq<ValModel>,
    v: ValModel,
    rest: (Result<Seq<ValModel>, FaultModel>, EvalState),
)
    ensures
        args_continue(done, args_continue(seq![v], rest)) == args_continue(done.push(v), rest),
{
    match rest.0 {
        Ok(vs) => {
            assert(done + (seq![v] + vs) =~= done.push(v) + vs);
        },
        Err(_) => {},
    }
}

/// The magnitude of a 64-bit integer, computed without overflow.
fn magnitude(x: i64) -> (m: u64)
    ensures
        m as int == vstd::math::abs(x as int),
{
    if x >= 0 {
        x as u64
    } else {
        ((-(x + 1)) as u64) + 1
    }
}

fn add_ints(a: i64, b: i64) -> (res: Result<ValueType, Fault>)
    ensures
        result_model(res) == apply_binop(
            Operator::Add,
            ValModel::Int(a as int),
            ValModel::Int(b as int),
        ),
{
    let s: i128 = a as i128 + b as i128;
    if i64::MIN as i128 <= s && s <= i64::MAX as i128 {
        Ok(ValueType::Int(s as i64))
    } else {
        Err(Fault::ArithmeticFault)
    }
}

fn sub_ints(a: i64, b: i64) -> (res: Result<ValueType, Fault>)
    ensures
        result_model(res) == apply_binop(
            Operator::Sub,
            ValModel::Int(a as int),
            ValModel::Int(b as int),
        ),
{
    let s: i128 = a as i128 - b as i128;
    if i64::MIN as i128 <= s && s <= i64::MAX as i128 {
        Ok(ValueType::Int(s as i64))
    } else {
        Err(Fault::ArithmeticFault)
    }
}

fn mul_ints(a: i64, b: i64) -> (res: Result<ValueType, Fault>)
    ensures
        result_model(res) == apply_binop(
            Operator::Mul,
            ValModel::Int(a as int),
            ValModel::Int(b as int),
        ),
{
    proof {
        let ai = a as int;
        let bi = b as int;
        assert((-0x80000000000000000000000000000000) <= ai * bi
            < 0x80000000000000000000000000000000) by (nonlinear_arith)
            requires
                (-0x8000000000000000) <= ai <= 0x7fffffffffffffff,
                (-0x8000000000000000) <= bi <= 0x7fffffffffffffff,
        ;
    }
    let s: i128 = (a as i128) * (b as i128);
    if i64::MIN as i128 <= s && s <= i64::MAX as i128 {
        Ok(ValueType::Int(s as i64))
    } else {
        Err(Fault::ArithmeticFault)
    }
}

fn div_ints(a: i64, b: i64) -> (res: Result<ValueType, Fault>)
    ensures
        result_model(res) == apply_binop(
            Operator::Div,
            ValModel::Int(a as int),
            ValModel::Int(b as int),
        ),
{
    if b == 0 {
        return Err(Fault::ArithmeticFault);
    }
    let negative = (a < 0) != (b < 0);
    let q = magnitude(a) / magnitude(b);
    if negative {
        if q <= i64::MAX as u64 {
            Ok(ValueType::Int(-(q as i64)))
        } else if q == (i64::MAX as u64) + 1 {
            Ok(ValueType::Int(i64::MIN))
        } else {
            Err(Fault::ArithmeticFault)
        }
    } else {
        if q <= i64::MAX as u64 {
            Ok(ValueType::Int(q as i64))
        } else {
            Err(Fault::ArithmeticFault)
        }
    }
}

/// Applies one binary operator to two reduced operands.
fn apply_op(op: Operator, l: ValueType, r: ValueType) -> (res: Result<ValueType, Fault>)
    ensures
        result_model(res) == apply_binop(op, val_model(l), val_model(r)),
{
    match op {
        Operator::SetVal => Err(Fault::TypeMismatch(Operator::SetVal)),
        Operator::Add => match (l, r) {
            (ValueType::Int(a), ValueType::Int(b)) => add_ints(a, b),
            (ValueType::Text(s), ValueType::Text(t)) => Ok(ValueType::Text(s.concat(t.as_str()))),
            _ => Err(Fault::TypeMismatch(Operator::Add)),
        },
        Operator::Sub => match (l, r) {
            (ValueType::Int(a), ValueType::Int(b)) => sub_ints(a, b),
            _ => Err(Fault::TypeMismatch(Operator::Sub)),
        },
        Operator::Mul => match (l, r) {
            (ValueType::Int(a), ValueType::Int(b)) => mul_ints(a, b),
            _ => Err(Fault::TypeMismatch(Operator::Mul)),
        },
        Operator::Div => match (l, r) {
            (ValueType::Int(a), ValueType::Int(b)) => div_ints(a, b),
            _ => Err(Fault::TypeMismatch(Operator::Div)),
        },
        Operator::Equal => match (l, r) {
            (ValueType::Int(a), ValueType::Int(b)) => Ok(ValueType::Bool(a == b)),
            (ValueType::Text(s), ValueType::Text(t)) => Ok(ValueType::Bool(s == t)),
            (ValueType::Bool(x), ValueType::Bool(y)) => Ok(ValueType::Bool(x == y)),
            _ => Err(Fault::TypeMismatch(Operator::Equal)),
        },
        Operator::NotEqual => match (l, r) {
            (ValueType::Int(a), ValueType::Int(b)) => Ok(ValueType::Bool(a != b)),
            (ValueType::Text(s), ValueType::Text(t)) => Ok(ValueType::Bool(!(s == t))),
            (ValueType::Bool(x), ValueType::Bool(y)) => Ok(ValueType::Bool(x != y)),
            _ => Err(Fault::TypeMismatch(Operator::NotEqual)),
        },
    }
}

/// Renders the arguments of a `print` call: the renderings joined with
/// a comma and a space, then a newline.
#[verifier::loop_isolation(false)]
fn print_line(args: &Vec<ValueType>) -> (s: String)
    requires
        args@.len() > 0,
    ensures
        s@ == print_text(vals_model(args@)),
{
    let ghost vs = vals_model(args@);
    let mut text = String::new();
    let mut i: usize = 0;
    while i < args.len()
        invariant
            i <= args@.len(),
            text@ == joined(vs.subrange(0, i as int)),
        decreases args@.len() - i,
    {
        if i > 0 {
            text.append(", ");
        }
        text.append(args[i].render().as_str());
        proof {
            assert(vs.subrange(0, (i + 1) as int).drop_last() =~= vs.subrange(0, i as int));
            assert(vs.subrange(0, (i + 1) as int).last() == vs[i as int]);
            assert(vs[i as int] == val_model(args@[i as int]));
        }
        i = i + 1;
    }
    proof {
        assert(vs.subrange(0, vs.len() as int) =~= vs);
    }
    text.append("\n");
    text
}

/// Dispatches a call, its arguments already reduced, against the
/// built-in registry, writing any `print` output to the sink.
fn dispatch_call(
    output: &mut String,
    name: &str,
    args: Vec<ValueType>,
    Ghost(env): Ghost<Map<Seq<char>, ValModel>>,
) -> (res: Result<ValueType, Fault>)
    ensures
        ({
            let (r, st1) = call_outcome(
                (EvalState { env, out: old(output)@ }),
                name@,
                vals_model(args@),
            );
            &&& result_model(res) == r
            &&& final(output)@ == st1.out
        }),
{
    let name_string = name.to_owned();
    if name_string == String::from_str("print") {
        if args.len() == 0 {
            Err(Fault::ArityFault)
        } else {
            let line = print_line(&args);
            output.append(line.as_str());
            Ok(ValueType::Nothing)
        }
    } else {
        Err(Fault::UnknownCallee(name_string))
    }
}

/// Reduces one node against the environment and the output sink.
#[verifier::loop_isolation(false)]
fn eval_node(state: &mut State, output: &mut String, e: &Expr) -> (res: Result<ValueType, Fault>)
    ensures
        ({
            let (r, st1) = reduce(
                (EvalState { env: old(state).model(), out: old(output)@ }),
                expr_model(*e),
            );
            &&& result_model(res) == r
            &&& final(state).model() == st1.env
            &&& final(output)@ == st1.out
        }),
    decreases *e,
{
    match e {
        Expr::BinaryExpr { op, lhs, rhs } => {
            let o = *op;
            let ghost st_in = EvalState { env: state.model(), out: output@ };
            proof {
                assert(expr_model(*e) == (ExprModel::Binary {
                    op: o,
                    lhs: Box::new(expr_model(**lhs)),
                    rhs: Box::new(expr_model(**rhs)),
                }));
            }
            if o == Operator::SetVal {
                match eval_node(state, output, rhs) {
                    Ok(v) => match &**lhs {
                        Expr::Token(Token::Identifier(x)) => {
                            state.bind(x.clone(), v);
                            Ok(ValueType::Nothing)
                        },
                        _ => Err(Fault::TypeMismatch(Operator::SetVal)),
                    },
                    Err(f) => Err(f),
                }
            } else {
                match eval_node(state, output, lhs) {
                    Err(f) => Err(f),
                    Ok(lv) => match eval_node(state, output, rhs) {
                        Err(f) => Err(f),
                        Ok(rv) => apply_op(o, lv, rv),
                    },
                }
            }
        },
        Expr::Token(t) => match t {
            Token::Num(n) => Ok(ValueType::Int(*n)),
            Token::Text(s) => Ok(ValueType::Text(s.clone())),
            Token::Bool(b) => Ok(ValueType::Bool(*b)),
            Token::Identifier(x) => match state.lookup(x.as_str()) {
                Some(v) => Ok(v),
                None => Err(Fault::UnboundName(x.clone())),
            },
            Token::Other => Ok(ValueType::Nothing),
        },
        Expr::FnCall { name, args } => {
            let ghost st0 = EvalState { env: state.model(), out: output@ };
            let ghost ams = arg_models(args@);
            proof {
                lemma_arg_models(args@);
            }
            let mut vals: Vec<ValueType> = Vec::new();
            let mut i: usize = 0;
            proof {
                assert(ams.subrange(0, ams.len() as int) =~= ams);
                assert(vals_model(vals@) =~= Seq::<ValModel>::empty());
                match reduce_args(st0, ams).0 {
                    Ok(vs) => {
                        assert(Seq::<ValModel>::empty() + vs =~= vs);
                    },
                    Err(_) => {},
                }
            }
            while i < args.len()
                invariant
                    i <= args@.len(),
                    reduce_args(st0, ams) == args_continue(
                        vals_model(vals@),
                        reduce_args(
                            (EvalState { env: state.model(), out: output@ }),
                            ams.subrange(i as int, ams.len() as int),
                        ),
                    ),
                decreases args@.len() - i,
            {
                let ghost done = vals_model(vals@);
                let ghost cur = EvalState { env: state.model(), out: output@ };
                let ghost rest = ams.subrange(i as int, ams.len() as int);
                proof {
                    assert(*args == e->FnCall_args);
                    assert(decreases_to!(*e => e->FnCall_args));
                    assert(decreases_to!(*args => args@[i as int]));
                    assert(rest[0] == ams[i as int]);
                    assert(rest.drop_first() =~= ams.subrange(i as int + 1, ams.len() as int));
                }
                match eval_node(state, output, &args[i]) {
                    Err(f) => {
                        proof {
                            assert(reduce_args(st0, ams).0 == Err::<Seq<ValModel>, FaultModel>(
                                fault_model(f),
                            ));
                        }
                        return Err(f);
                    },
                    Ok(v) => {
                        proof {
                            let next = EvalState { env: state.model(), out: output@ };
                            lemma_args_continue_push(
                                done,
                                val_model(v),
                                reduce_args(next, rest.drop_first()),
                            );
                            assert(vals_model(vals@.push(v)) =~= done.push(val_model(v)));
                        }
                        vals.push(v);
                    },
                }
                i = i + 1;
            }
            let ghost done = vals_model(vals@);
            let ghost cur = EvalState { env: state.model(), out: output@ };
            proof {
                assert(ams.subrange(i as int, ams.len() as int) =~= Seq::<ExprModel>::empty());
                assert(done + Seq::<ValModel>::empty() =~= done);
                assert(reduce_args(st0, ams) == (Ok::<Seq<ValModel>, FaultModel>(done), cur));
                assert(expr_model(*e) == (ExprModel::Call { name: name@, args: ams }));
                assert(reduce(st0, expr_model(*e)) == call_outcome(cur, name@, done));
            }
            dispatch_call(output, name.as_str(), vals, Ghost(state.model()))
        },
    }
}

impl Interpreter {
    /// The ghost evaluation state of the environment and the output.
    pub open spec fn eval_state(self) -> EvalState {
        EvalState { env: self.state.model(), out: self.output@ }
    }

    /// A fresh evaluator over `exprs`, with an empty environment and an
    /// empty output sink.
    pub fn new(exprs: Vec<Expr>) -> (r: Interpreter)
        ensures
            r.state.model() == Map::<Seq<char>, ValModel>::empty(),
            r.output@ == Seq::<char>::empty(),
            r.exprs == exprs,
    {
        Interpreter { state: State::new(), exprs, output: String::new() }
    }

    /// Reduces one node, mutating the environment and the output sink
    /// as the reduction semantics says.
    pub fn interpret_expr(&mut self, expr: &Expr) -> (res: Result<ValueType, Fault>)
        ensures
            ({
                let (r, st1) = reduce(old(self).eval_state(), expr_model(*expr));
                &&& result_model(res) == r
                &&& final(self).eval_state() == st1
                &&& final(self).exprs == old(self).exprs
            }),
    {
        eval_node(&mut self.state, &mut self.output, expr)
    }

    /// Reduces every top-level expression in order, discarding results;
    /// the first fault stops the run and is returned.
    #[verifier::loop_isolation(false)]
    pub fn run(&mut self) -> (res: Result<(), Fault>)
        ensures
            ({
                let (r, st1) = run_outcome(
                    old(self).eval_state(),
                    exprs_model(old(self).exprs@),
                );
                &&& run_result_model(res) == r
                &&& final(self).eval_state() == st1
                &&& final(self).exprs == old(self).exprs
            }),
    {
        let ghost st0 = self.eval_state();
        let ghost ems = exprs_model(self.exprs@);
        let mut i: usize = 0;
        proof {
            assert(ems.subrange(0, ems.len() as int) =~= ems);
        }
        while i < self.exprs.len()
            invariant
                i <= self.exprs@.len(),
                self.exprs == old(self).exprs,
                run_outcome(st0, ems) == run_outcome(
                    self.eval_state(),
                    ems.subrange(i as int, ems.len() as int),
                ),
            decreases self.exprs@.len() - i,
        {
            let ghost rest = ems.subrange(i as int, ems.len() as int);
            proof {
                assert(rest[0] == expr_model(self.exprs@[i as int]));
                assert(rest.drop_first() =~= ems.subrange(i as int + 1, ems.len() as int));
            }
            match eval_node(&mut self.state, &mut self.output, &self.exprs[i]) {
                Err(f) => {
                    return Err(f);
                },
                Ok(_) => {},
            }
            i = i + 1;
        }
        proof {
            assert(ems.subrange(i as int, ems.len() as int) =~= Seq::<ExprModel>::empty());
        }
        Ok(())
    }

    /// Resolves a call by name against the built-in registry, its
    /// arguments already reduced, writing any output to the sink.
    pub fn call_fn(&mut self, name: &str, args: Vec<ValueType>) -> (res: Result<ValueType, Fault>)
        ensures
            ({
                let (r, st1) = call_outcome(old(self).eval_state(), name@, vals_model(args@));
                &&& result_model(res) == r
                &&& final(self).eval_state() == st1
                &&& final(self).exprs == old(self).exprs
                &&& final(self).state == old(self).state
            }),
    {
        dispatch_call(&mut self.output, name, args, Ghost(self.state.model()))
    }
}

} // verus!

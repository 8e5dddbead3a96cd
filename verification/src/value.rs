//! Runtime values and their text rendering.
//!
//! A `ValueType` is the closed sum of everything an expression can reduce
//! to: a signed 64-bit integer, a string, a boolean, a function
//! descriptor, or the unit value `Nothing`.  Values are immutable once
//! produced.  The ghost counterpart `ValModel` replaces machine types by
//! `int` and `Seq<char>`; all contracts of the evaluator are stated over
//! it.
//!
//! Rendering follows the display contract: integers in decimal, strings
//! as their raw content, booleans as `true`/`false`, the unit value as
//! `Nothing`, and function descriptors as empty text.

use vstd::prelude::*;

use crate::ast::{arg_models, expr_model, lemma_arg_models, Expr, ExprModel};

verus! {

/// A runtime value.
#[derive(Debug)]
pub enum ValueType {
    Int(i64),
    Text(String),
    Bool(bool),
    Fn(FnType),
    Nothing,
}

/// A function descriptor: either implemented natively by the evaluator
/// or authored by the user.  The present evaluator never invokes a
/// `User` descriptor; both variants are carried as data only.
#[derive(Debug)]
pub enum FnType {
    Builtin(BuiltinFn),
    User(UserFn),
}

/// Descriptor of a natively implemented function.
#[derive(Debug)]
pub struct BuiltinFn {
    pub name: String,
    pub args: Vec<String>,
    pub body: Vec<Expr>,
    pub return_type: Box<ValueType>,
}

/// Descriptor of a user-authored function.
#[derive(Debug)]
pub struct UserFn {
    pub name: String,
    pub args: Vec<String>,
    pub body: Vec<Expr>,
    pub return_type: Box<ValueType>,
}

/// Ghost counterpart of `ValueType`.
pub enum ValModel {
    Int(int),
    Text(Seq<char>),
    Bool(bool),
    Fn(FnModel),
    Nothing,
}

/// Ghost counterpart of `FnType`.
pub enum FnModel {
    Builtin(FnSigModel),
    User(FnSigModel),
}

/// Ghost counterpart of a function descriptor's fields.
pub struct FnSigModel {
    pub name: Seq<char>,
    pub params: Seq<Seq<char>>,
    pub body: Seq<ExprModel>,
    pub ret: Box<ValModel>,
}

pub open spec fn val_model(v: ValueType) -> ValModel
    decreases v,
{
    match v {
        ValueType::Int(i) => ValModel::Int(i as int),
        ValueType::Text(s) => ValModel::Text(s@),
        ValueType::Bool(b) => ValModel::Bool(b),
        ValueType::Fn(f) => ValModel::Fn(fn_model(f)),
        ValueType::Nothing => ValModel::Nothing,
    }
}

pub open spec fn fn_model(f: FnType) -> FnModel
    decreases f,
{
    match f {
        FnType::Builtin(b) => FnModel::Builtin(builtin_sig(b)),
        FnType::User(u) => FnModel::User(user_sig(u)),
    }
}

pub open spec fn builtin_sig(b: BuiltinFn) -> FnSigModel
    decreases b,
{
    FnSigModel {
        name: b.name@,
        params: b.args@.map_values(|s: String| s@),
        body: arg_models(b.body@),
        ret: Box::new(val_model(*b.return_type)),
    }
}

pub open spec fn user_sig(u: UserFn) -> FnSigModel
    decreases u,
{
    FnSigModel {
        name: u.name@,
        params: u.args@.map_values(|s: String| s@),
        body: arg_models(u.body@),
        ret: Box::new(val_model(*u.return_type)),
    }
}

impl View for ValueType {
    type V = ValModel;

    open spec fn view(&self) -> ValModel {
        val_model(*self)
    }
}

/// The sequence of models of a vector of values, in order.
pub open spec fn vals_model(vs: Seq<ValueType>) -> Seq<ValModel> {
    vs.map_values(|v: ValueType| val_model(v))
}

impl ValueType {
    /// A deep copy with the same model.
    pub fn duplicate(&self) -> (r: ValueType)
        ensures
            val_model(r) == val_model(*self),
        decreases self,
    {
        match self {
            ValueType::Int(i) => ValueType::Int(*i),
            ValueType::Text(s) => ValueType::Text(s.clone()),
            ValueType::Bool(b) => ValueType::Bool(*b),
            ValueType::Fn(f) => ValueType::Fn(f.duplicate()),
            ValueType::Nothing => ValueType::Nothing,
        }
    }
}

impl FnType {
    /// A deep copy with the same model.
    pub fn duplicate(&self) -> (r: FnType)
        ensures
            fn_model(r) == fn_model(*self),
        decreases self,
    {
        match self {
            FnType::Builtin(b) => FnType::Builtin(b.duplicate()),
            FnType::User(u) => FnType::User(u.duplicate()),
        }
    }
}

impl BuiltinFn {
    /// A deep copy with the same model.
    pub fn duplicate(&self) -> (r: BuiltinFn)
        ensures
            builtin_sig(r) == builtin_sig(*self),
        decreases self,
    {
        let r = BuiltinFn {
            name: self.name.clone(),
            args: copy_names(&self.args),
            body: copy_body(&self.body),
            return_type: Box::new((*self.return_type).duplicate()),
        };
        proof {
            lemma_arg_models(r.body@);
            lemma_arg_models(self.body@);
            assert(arg_models(r.body@) =~= arg_models(self.body@));
        }
        r
    }
}

impl UserFn {
    /// A deep copy with the same model.
    pub fn duplicate(&self) -> (r: UserFn)
        ensures
            user_sig(r) == user_sig(*self),
        decreases self,
    {
        let r = UserFn {
            name: self.name.clone(),
            args: copy_names(&self.args),
            body: copy_body(&self.body),
            return_type: Box::new((*self.return_type).duplicate()),
        };
        proof {
            lemma_arg_models(r.body@);
            lemma_arg_models(self.body@);
            assert(arg_models(r.body@) =~= arg_models(self.body@));
        }
        r
    }
}

/// Copies a vector of parameter names exactly.
fn copy_names(v: &Vec<String>) -> (r: Vec<String>)
    ensures
        r@ == v@,
{
    let mut r: Vec<String> = Vec::new();
    let mut i: usize = 0;
    while i < v.len()
        invariant
            i <= v.len(),
            r@.len() == i as int,
            forall|j: int| 0 <= j < i as int ==> r@[j] == v@[j],
        decreases v@.len() - i,
    {
        r.push(v[i].clone());
        i = i + 1;
    }
    proof {
        assert(r@ =~= v@);
    }
    r
}

/// Copies a vector of body expressions, preserving their models.
fn copy_body(v: &Vec<Expr>) -> (r: Vec<Expr>)
    ensures
        r@.len() == v@.len(),
        forall|j: int| 0 <= j < v@.len() ==> expr_model(r@[j]) == expr_model(v@[j]),
{
    let mut r: Vec<Expr> = Vec::new();
    let mut i: usize = 0;
    while i < v.len()
        invariant
            i <= v.len(),
            r@.len() == i as int,
            forall|j: int| 0 <= j < i as int ==> expr_model(r@[j]) == expr_model(v@[j]),
        decreases v@.len() - i,
    {
        r.push(v[i].duplicate());
        i = i + 1;
    }
    r
}

/// The decimal digit character for `d`.
pub open spec fn dec_digit(d: int) -> char {
    if d == 0 {
        '0'
    } else if d == 1 {
        '1'
    } else if d == 2 {
        '2'
    } else if d == 3 {
        '3'
    } else if d == 4 {
        '4'
    } else if d == 5 {
        '5'
    } else if d == 6 {
        '6'
    } else if d == 7 {
        '7'
    } else if d == 8 {
        '8'
    } else {
        '9'
    }
}

/// The decimal rendering of a non-negative integer, most significant
/// digit first, with no leading zeros (a lone zero renders as `0`).
pub open spec fn dec_nat(n: nat) -> Seq<char>
    decreases n,
{
    if n < 10 {
        seq![dec_digit(n as int)]
    } else {
        dec_nat(n / 10) + seq![dec_digit((n % 10) as int)]
    }
}

/// The decimal rendering of an integer: a leading `-` for negatives.
pub open spec fn dec_int(i: int) -> Seq<char> {
    if i < 0 {
        seq!['-'] + dec_nat((-i) as nat)
    } else {
        dec_nat(i as nat)
    }
}

/// How each value variant renders as text.
pub open spec fn render_model(v: ValModel) -> Seq<char> {
    match v {
        ValModel::Int(i) => dec_int(i),
        ValModel::Text(s) => s,
        ValModel::Bool(b) => if b {
            "true"@
        } else {
            "false"@
        },
        ValModel::Fn(_) => Seq::empty(),
        ValModel::Nothing => "Nothing"@,
    }
}

/// The one-character string for a decimal digit.
fn digit_text(d: u64) -> (r: &'static str)
    requires
        d < 10,
    ensures
        r@ == seq![dec_digit(d as int)],
{
    proof {
        reveal_strlit("0");
        reveal_strlit("1");
        reveal_strlit("2");
        reveal_strlit("3");
        reveal_strlit("4");
        reveal_strlit("5");
        reveal_strlit("6");
        reveal_strlit("7");
        reveal_strlit("8");
        reveal_strlit("9");
    }
    let r = if d == 0 {
        "0"
    } else if d == 1 {
        "1"
    } else if d == 2 {
        "2"
    } else if d == 3 {
        "3"
    } else if d == 4 {
        "4"
    } else if d == 5 {
        "5"
    } else if d == 6 {
        "6"
    } else if d == 7 {
        "7"
    } else if d == 8 {
        "8"
    } else {
        "9"
    };
    proof {
        assert(r@ =~= seq![dec_digit(d as int)]);
    }
    r
}

/// The decimal text of a non-negative 64-bit integer.
fn nat_text(n: u64) -> (s: String)
    ensures
        s@ == dec_nat(n as nat),
    decreases n,
{
    if n < 10 {
        String::from_str(digit_text(n))
    } else {
        let mut s = nat_text(n / 10);
        s.append(digit_text(n % 10));
        s
    }
}

/// The decimal text of a signed 64-bit integer.
fn int_text(n: i64) -> (s: String)
    ensures
        s@ == dec_int(n as int),
{
    if n >= 0 {
        nat_text(n as u64)
    } else {
        let below = -(n + 1);
        let magnitude = (below as u64) + 1;
        let mut s = String::from_str("-");
        s.append(nat_text(magnitude).as_str());
        proof {
            reveal_strlit("-");
            assert("-"@ =~= seq!['-']);
        }
        s
    }
}

impl ValueType {
    /// The text rendering of this value.
    pub fn render(&self) -> (s: String)
        ensures
            s@ == render_model(val_model(*self)),
    {
        match self {
            ValueType::Int(i) => int_text(*i),
            ValueType::Text(t) => t.clone(),
            ValueType::Bool(b) => if *b {
                String::from_str("true")
            } else {
                String::from_str("false")
            },
            ValueType::Fn(_) => String::new(),
            ValueType::Nothing => String::from_str("Nothing"),
        }
    }
}

} // verus!

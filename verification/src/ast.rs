//! The abstract syntax consumed by the evaluator, together with its
//! mathematical model.
//!
//! `Token` and `Expr` are produced by a lexer and parser outside this
//! library; the evaluator only reads them.  Each executable type has a
//! ghost counterpart (`TokenModel`, `ExprModel`) over `int` and
//! `Seq<char>`, which is what the evaluation semantics is stated over.

use vstd::prelude::*;

verus! {

/// One lexical token wrapped in a leaf expression.  Kinds the evaluator
/// does not give a meaning to are collapsed into `Other`, which reduces
/// to the unit value.
#[derive(Debug)]
pub enum Token {
    Num(i64),
    Text(String),
    Bool(bool),
    Identifier(String),
    Other,
}

/// The operator of a binary expression node.
#[derive(Debug, Clone, Copy, PartialEq, Eq, Structural)]
pub enum Operator {
    SetVal,
    Add,
    Sub,
    Mul,
    Div,
    Equal,
    NotEqual,
}

/// One abstract-syntax-tree node: a binary expression, a token leaf, or
/// a function call with ordered argument expressions.
#[derive(Debug)]
pub enum Expr {
    BinaryExpr { op: Operator, lhs: Box<Expr>, rhs: Box<Expr> },
    Token(Token),
    FnCall { name: String, args: Vec<Expr> },
}

/// Ghost counterpart of `Token`: integers become `int`, strings become
/// `Seq<char>`.
pub enum TokenModel {
    Num(int),
    Text(Seq<char>),
    Bool(bool),
    Identifier(Seq<char>),
    Other,
}

/// Ghost counterpart of `Expr`.
pub enum ExprModel {
    Binary { op: Operator, lhs: Box<ExprModel>, rhs: Box<ExprModel> },
    Leaf(TokenModel),
    Call { name: Seq<char>, args: Seq<ExprModel> },
}

pub open spec fn token_model(t: Token) -> TokenModel {
    match t {
        Token::Num(n) => TokenModel::Num(n as int),
        Token::Text(s) => TokenModel::Text(s@),
        Token::Bool(b) => TokenModel::Bool(b),
        Token::Identifier(x) => TokenModel::Identifier(x@),
        Token::Other => TokenModel::Other,
    }
}

pub open spec fn expr_model(e: Expr) -> ExprModel
    decreases e,
{
    match e {
        Expr::BinaryExpr { op, lhs, rhs } => ExprModel::Binary {
            op,
            lhs: Box::new(expr_model(*lhs)),
            rhs: Box::new(expr_model(*rhs)),
        },
        Expr::Token(t) => ExprModel::Leaf(token_model(t)),
        Expr::FnCall { name, args } => {
            proof {
                assert(decreases_to!(e => args));
                assert(decreases_to!(args => args@));
            }
            ExprModel::Call { name: name@, args: arg_models(args@) }
        },
    }
}

/// The models of the argument expressions of a call, in order.
pub open spec fn arg_models(s: Seq<Expr>) -> Seq<ExprModel>
    decreases s,
{
    if s.len() == 0 {
        Seq::empty()
    } else {
        seq![expr_model(s[0])] + arg_models(s.drop_first())
    }
}

/// The models of a sequence of expressions, in order.
pub open spec fn exprs_model(es: Seq<Expr>) -> Seq<ExprModel> {
    es.map_values(|e: Expr| expr_model(e))
}

/// `arg_models` is the element-wise model of its argument.
pub proof fn lemma_arg_models(s: Seq<Expr>)
    ensures
        arg_models(s).len() == s.len(),
        forall|i: int| 0 <= i < s.len() ==> arg_models(s)[i] == expr_model(s[i]),
        arg_models(s) == exprs_model(s),
    decreases s.len(),
{
    if s.len() > 0 {
        lemma_arg_models(s.drop_first());
    }
    assert(arg_models(s) =~= exprs_model(s));
}

impl View for Expr {
    type V = ExprModel;

    open spec fn view(&self) -> ExprModel {
        expr_model(*self)
    }
}

impl Token {
    /// A deep copy; tokens copy exactly.
    pub fn duplicate(&self) -> (r: Token)
        ensures
            r == *self,
    {
        match self {
            Token::Num(n) => Token::Num(*n),
            Token::Text(s) => Token::Text(s.clone()),
            Token::Bool(b) => Token::Bool(*b),
            Token::Identifier(s) => Token::Identifier(s.clone()),
            Token::Other => Token::Other,
        }
    }
}

impl Expr {
    /// A deep copy with the same model.
    #[verifier::loop_isolation(false)]
    pub fn duplicate(&self) -> (r: Expr)
        ensures
            expr_model(r) == expr_model(*self),
        decreases self,
    {
        match self {
            Expr::BinaryExpr { op, lhs, rhs } => Expr::BinaryExpr {
                op: *op,
                lhs: Box::new((**lhs).duplicate()),
                rhs: Box::new((**rhs).duplicate()),
            },
            Expr::Token(t) => Expr::Token(t.duplicate()),
            Expr::FnCall { name, args } => {
                let mut copies: Vec<Expr> = Vec::new();
                let mut i: usize = 0;
                while i < args.len()
                    invariant
                        i <= args.len(),
                        copies@.len() == i as int,
                        forall|j: int|
                            0 <= j < i as int ==> expr_model(copies@[j]) == expr_model(args@[j]),
                    decreases args@.len() - i,
                {
                    proof {
                        assert(*args == self->FnCall_args);
                        assert(decreases_to!(*self => self->FnCall_args));
                        assert(decreases_to!(*args => args@[i as int]));
                    }
                    copies.push(args[i].duplicate());
                    i = i + 1;
                }
                proof {
                    lemma_arg_models(copies@);
                    lemma_arg_models(args@);
                    assert(arg_models(copies@) =~= arg_models(args@));
                }
                Expr::FnCall { name: name.clone(), args: copies }
            },
        }
    }
}

} // verus!

use treewalk::ast::{Expr, Operator, Token};
use treewalk::fault::Fault;
use treewalk::interp::Interpreter;
use treewalk::value::{BuiltinFn, FnType, UserFn, ValueType};

fn num(n: i64) -> Expr {
    Expr::Token(Token::Num(n))
}

fn text(s: &str) -> Expr {
    Expr::Token(Token::Text(s.to_string()))
}

fn boolean(b: bool) -> Expr {
    Expr::Token(Token::Bool(b))
}

fn ident(x: &str) -> Expr {
    Expr::Token(Token::Identifier(x.to_string()))
}

fn bin(op: Operator, l: Expr, r: Expr) -> Expr {
    Expr::BinaryExpr { op, lhs: Box::new(l), rhs: Box::new(r) }
}

fn assign(x: &str, rhs: Expr) -> Expr {
    bin(Operator::SetVal, ident(x), rhs)
}

fn call(name: &str, args: Vec<Expr>) -> Expr {
    Expr::FnCall { name: name.to_string(), args }
}

fn empty() -> Interpreter {
    Interpreter::new(Vec::new())
}

#[test]
fn addition_of_integers() {
    let mut interp = empty();
    let r = interp.interpret_expr(&bin(Operator::Add, num(5), num(3)));
    assert!(matches!(r, Ok(ValueType::Int(8))));
}

#[test]
fn subtraction_of_integers() {
    let mut interp = empty();
    let r = interp.interpret_expr(&bin(Operator::Sub, num(5), num(8)));
    assert!(matches!(r, Ok(ValueType::Int(-3))));
}

#[test]
fn multiplication_of_integers() {
    let mut interp = empty();
    let r = interp.interpret_expr(&bin(Operator::Mul, num(-4), num(6)));
    assert!(matches!(r, Ok(ValueType::Int(-24))));
}

#[test]
fn division_truncates_toward_zero() {
    let mut interp = empty();
    let cases: Vec<(i64, i64, i64)> =
        vec![(7, 2, 3), (-7, 2, -3), (7, -2, -3), (-7, -2, 3), (0, -5, 0)];
    for (a, b, q) in cases {
        let r = interp.interpret_expr(&bin(Operator::Div, num(a), num(b)));
        match r {
            Ok(ValueType::Int(got)) => assert_eq!(got, q),
            _ => panic!("expected an integer quotient"),
        }
    }
}

#[test]
fn division_by_zero_faults() {
    let mut interp = empty();
    let r = interp.interpret_expr(&bin(Operator::Div, num(1), num(0)));
    assert!(matches!(r, Err(Fault::ArithmeticFault)));
}

#[test]
fn arithmetic_overflow_faults() {
    let mut interp = empty();
    let r = interp.interpret_expr(&bin(Operator::Add, num(i64::MAX), num(1)));
    assert!(matches!(r, Err(Fault::ArithmeticFault)));
    let r = interp.interpret_expr(&bin(Operator::Sub, num(i64::MIN), num(1)));
    assert!(matches!(r, Err(Fault::ArithmeticFault)));
    let r = interp.interpret_expr(&bin(Operator::Mul, num(i64::MIN), num(-1)));
    assert!(matches!(r, Err(Fault::ArithmeticFault)));
    let r = interp.interpret_expr(&bin(Operator::Div, num(i64::MIN), num(-1)));
    assert!(matches!(r, Err(Fault::ArithmeticFault)));
}

#[test]
fn text_concatenation() {
    let mut interp = empty();
    let r = interp.interpret_expr(&bin(Operator::Add, text("con"), text("cat")));
    match r {
        Ok(ValueType::Text(s)) => assert_eq!(s, "concat"),
        _ => panic!("expected text"),
    }
}

#[test]
fn adding_mixed_variants_faults() {
    let mut interp = empty();
    let r = interp.interpret_expr(&bin(Operator::Add, num(1), boolean(true)));
    match r {
        Err(f) => {
            assert!(matches!(f, Fault::TypeMismatch(Operator::Add)));
            assert_eq!(f.describe(), "Cannot add non-numeric values");
        },
        _ => panic!("expected a type mismatch"),
    }
}

#[test]
fn assignment_yields_nothing_and_binds() {
    let mut interp = empty();
    let r = interp.interpret_expr(&assign("x", num(5)));
    assert!(matches!(r, Ok(ValueType::Nothing)));
    let v = interp.state.lookup("x");
    assert!(matches!(v, Some(ValueType::Int(5))));
}

#[test]
fn assignment_then_lookup_yields_the_value() {
    let mut interp = empty();
    interp.interpret_expr(&assign("s", text("hello"))).unwrap();
    let r = interp.interpret_expr(&ident("s"));
    match r {
        Ok(ValueType::Text(s)) => assert_eq!(s, "hello"),
        _ => panic!("expected the bound text"),
    }
}

#[test]
fn reassignment_overwrites() {
    let mut interp = empty();
    interp.interpret_expr(&assign("x", num(1))).unwrap();
    interp.interpret_expr(&assign("x", num(2))).unwrap();
    let r = interp.interpret_expr(&ident("x"));
    assert!(matches!(r, Ok(ValueType::Int(2))));
}

#[test]
fn equality_on_same_variants() {
    let mut interp = empty();
    let r = interp.interpret_expr(&bin(Operator::Equal, num(4), num(4)));
    assert!(matches!(r, Ok(ValueType::Bool(true))));
    let r = interp.interpret_expr(&bin(Operator::Equal, text("a"), text("b")));
    assert!(matches!(r, Ok(ValueType::Bool(false))));
    let r = interp.interpret_expr(&bin(Operator::NotEqual, boolean(true), boolean(false)));
    assert!(matches!(r, Ok(ValueType::Bool(true))));
    let r = interp.interpret_expr(&bin(Operator::NotEqual, text("a"), text("a")));
    assert!(matches!(r, Ok(ValueType::Bool(false))));
}

#[test]
fn cross_variant_comparison_faults() {
    let mut interp = empty();
    let r = interp.interpret_expr(&bin(Operator::Equal, num(1), text("1")));
    match r {
        Err(f) => {
            assert!(matches!(f, Fault::TypeMismatch(Operator::Equal)));
            assert_eq!(f.describe(), "Cannot compare non-numeric values");
        },
        _ => panic!("expected a type mismatch"),
    }
    let r = interp.interpret_expr(&bin(Operator::Equal, call("print", vec![num(1)]), num(1)));
    assert!(matches!(r, Err(Fault::TypeMismatch(Operator::Equal))));
}

#[test]
fn unbound_identifier_faults() {
    let mut interp = empty();
    let r = interp.interpret_expr(&ident("q"));
    match r {
        Err(f) => {
            assert!(matches!(&f, Fault::UnboundName(x) if x == "q"));
            assert_eq!(f.describe(), "Undefined variable: q");
        },
        _ => panic!("expected an unbound-name fault"),
    }
}

#[test]
fn unknown_callee_faults() {
    let mut interp = empty();
    let r = interp.interpret_expr(&call("launch", vec![num(1)]));
    match r {
        Err(f) => {
            assert!(matches!(&f, Fault::UnknownCallee(x) if x == "launch"));
            assert_eq!(f.describe(), "Undefined function: launch");
        },
        _ => panic!("expected an unknown-callee fault"),
    }
}

#[test]
fn print_without_arguments_faults() {
    let mut interp = empty();
    let r = interp.interpret_expr(&call("print", vec![]));
    assert!(matches!(r, Err(Fault::ArityFault)));
    assert_eq!(interp.output, "");
}

#[test]
fn print_one_argument_writes_rendering_and_newline() {
    let mut interp = empty();
    let r = interp.interpret_expr(&call("print", vec![num(17)]));
    assert!(matches!(r, Ok(ValueType::Nothing)));
    assert_eq!(interp.output, "17\n");
}

#[test]
fn print_three_arguments_joins_with_comma_and_space() {
    let mut interp = Interpreter::new(vec![call("print", vec![num(1), num(2), num(3)])]);
    assert!(interp.run().is_ok());
    assert_eq!(interp.output, "1, 2, 3\n");
}

#[test]
fn print_renders_each_variant() {
    let mut interp = empty();
    interp.interpret_expr(&call("print", vec![boolean(true)])).unwrap();
    interp.interpret_expr(&call("print", vec![boolean(false)])).unwrap();
    interp.interpret_expr(&call("print", vec![Expr::Token(Token::Other)])).unwrap();
    interp.interpret_expr(&call("print", vec![num(-45)])).unwrap();
    assert_eq!(interp.output, "true\nfalse\nNothing\n-45\n");
}

#[test]
fn rendering_of_extreme_integers() {
    assert_eq!(ValueType::Int(i64::MIN).render(), "-9223372036854775808");
    assert_eq!(ValueType::Int(i64::MAX).render(), "9223372036854775807");
    assert_eq!(ValueType::Int(0).render(), "0");
}

#[test]
fn other_token_reduces_to_nothing() {
    let mut interp = empty();
    let r = interp.interpret_expr(&Expr::Token(Token::Other));
    assert!(matches!(r, Ok(ValueType::Nothing)));
}

#[test]
fn call_fn_dispatches_print_directly() {
    let mut interp = empty();
    let r = interp.call_fn("print", vec![ValueType::Int(3), ValueType::Text("x".to_string())]);
    assert!(matches!(r, Ok(ValueType::Nothing)));
    assert_eq!(interp.output, "3, x\n");
}

#[test]
fn scenario_sum_and_print() {
    let program = vec![
        assign("x", num(5)),
        assign("y", bin(Operator::Add, ident("x"), num(3))),
        call("print", vec![ident("y")]),
    ];
    let mut interp = Interpreter::new(program);
    assert!(interp.run().is_ok());
    assert_eq!(interp.output, "8\n");
    assert!(matches!(interp.state.lookup("x"), Some(ValueType::Int(5))));
    assert!(matches!(interp.state.lookup("y"), Some(ValueType::Int(8))));
}

#[test]
fn scenario_print_two_texts() {
    let mut interp = Interpreter::new(vec![call("print", vec![text("a"), text("b")])]);
    assert!(interp.run().is_ok());
    assert_eq!(interp.output, "a, b\n");
}

#[test]
fn scenario_increment_in_place() {
    let program = vec![
        assign("x", num(1)),
        assign("x", bin(Operator::Add, ident("x"), num(1))),
        call("print", vec![ident("x")]),
    ];
    let mut interp = Interpreter::new(program);
    assert!(interp.run().is_ok());
    assert_eq!(interp.output, "2\n");
}

#[test]
fn scenario_print_of_unbound_name_faults_without_output() {
    let mut interp = Interpreter::new(vec![call("print", vec![ident("unbound_name")])]);
    let r = interp.run();
    match r {
        Err(f) => assert!(matches!(&f, Fault::UnboundName(x) if x == "unbound_name")),
        _ => panic!("expected an unbound-name fault"),
    }
    assert_eq!(interp.output, "");
}

#[test]
fn run_stops_at_the_first_fault() {
    let program = vec![
        assign("x", num(1)),
        call("print", vec![num(7)]),
        call("missing", vec![]),
        assign("x", num(2)),
    ];
    let mut interp = Interpreter::new(program);
    let r = interp.run();
    assert!(matches!(&r, Err(Fault::UnknownCallee(x)) if x == "missing"));
    assert_eq!(interp.output, "7\n");
    assert!(matches!(interp.state.lookup("x"), Some(ValueType::Int(1))));
}

#[test]
fn output_accumulates_across_prints() {
    let program = vec![call("print", vec![num(1)]), call("print", vec![num(2)])];
    let mut interp = Interpreter::new(program);
    assert!(interp.run().is_ok());
    assert_eq!(interp.output, "1\n2\n");
}

#[test]
fn nested_expressions_reduce_left_to_right() {
    let mut interp = empty();
    let e = bin(
        Operator::Mul,
        bin(Operator::Add, num(2), num(3)),
        bin(Operator::Sub, num(10), num(4)),
    );
    let r = interp.interpret_expr(&e);
    assert!(matches!(r, Ok(ValueType::Int(30))));
}

#[test]
fn empty_program_runs_without_output() {
    let mut interp = Interpreter::new(Vec::new());
    assert!(interp.run().is_ok());
    assert_eq!(interp.output, "");
}

#[test]
fn function_descriptors_render_as_empty_text() {
    let descriptor = BuiltinFn {
        name: "print".to_string(),
        args: vec!["value".to_string()],
        body: vec![num(1)],
        return_type: Box::new(ValueType::Nothing),
    };
    let value = ValueType::Fn(FnType::Builtin(descriptor));
    assert_eq!(value.render(), "");
    let mut interp = empty();
    interp.state.bind("f".to_string(), value);
    let looked_up = interp.interpret_expr(&ident("f"));
    assert!(matches!(looked_up, Ok(ValueType::Fn(FnType::Builtin(_)))));
    interp.interpret_expr(&call("print", vec![ident("f")])).unwrap();
    assert_eq!(interp.output, "\n");
}

#[test]
fn user_descriptors_are_carried_but_never_invoked() {
    let descriptor = UserFn {
        name: "twice".to_string(),
        args: vec!["n".to_string()],
        body: vec![bin(Operator::Mul, ident("n"), num(2))],
        return_type: Box::new(ValueType::Int(0)),
    };
    let mut interp = empty();
    interp.state.bind("twice".to_string(), ValueType::Fn(FnType::User(descriptor)));
    let r = interp.interpret_expr(&call("twice", vec![num(3)]));
    assert!(matches!(&r, Err(Fault::UnknownCallee(x)) if x == "twice"));
}

#[test]
fn comparing_unit_values_faults() {
    let mut interp = empty();
    let r = interp.interpret_expr(
        &bin(Operator::Equal, Expr::Token(Token::Other), Expr::Token(Token::Other)),
    );
    assert!(matches!(r, Err(Fault::TypeMismatch(Operator::Equal))));
}

#[test]
fn duplicate_preserves_expressions() {
    let e = bin(Operator::Add, ident("x"), num(3));
    let copy = e.duplicate();
    let mut a = empty();
    let mut b = empty();
    a.interpret_expr(&assign("x", num(4))).unwrap();
    b.interpret_expr(&assign("x", num(4))).unwrap();
    let ra = a.interpret_expr(&e);
    let rb = b.interpret_expr(&copy);
    assert!(matches!(ra, Ok(ValueType::Int(7))));
    assert!(matches!(rb, Ok(ValueType::Int(7))));
}

use minitt::ast::{Declaration, Expression, Pattern, Value};
use minitt::check::expr::{check, check_infer, check_type};
use minitt::check::tcm::{TCE, TCS};
use minitt::check::check_declaration_main;
use minitt::list::{branch_insert_exec, List};

fn sum(entries: Vec<(&str, Expression)>) -> Expression {
    let mut b = List::Nil;
    for (name, e) in entries {
        b = branch_insert_exec(b, name.to_string(), e);
    }
    Expression::Sum(b)
}

#[test]
fn error_invalid_constructor() {
    let d = Declaration::simple(
        Pattern::Unit,
        vec![],
        sum(vec![("A", Expression::One)]),
        Expression::Constructor("B".to_string(), Box::new(Expression::Unit)),
    );
    let e = check_declaration_main(d).unwrap_err();
    assert_eq!(e.to_string(), "Invalid constructor: `B`.\nWhen checking the declaration of `_`.");
}

#[test]
fn error_unreachable_declaration_in_inference() {
    let d = Declaration::simple(Pattern::Unit, vec![], Expression::One, Expression::Unit);
    let e = check_infer(0, TCS::default(), Expression::Declaration(Box::new(d), Box::new(Expression::Void))).unwrap_err();
    assert_eq!(
        e.to_string(),
        "An internal error has occurred. Please report this as a bug.\nLocation of the error: src/check/expr.rs, line 649, column 51."
    );
}

#[test]
fn error_want_sum() {
    let e = check_infer(
        0,
        TCS::default(),
        Expression::Merge(Box::new(Expression::One), Box::new(sum(vec![("A", Expression::One)]))),
    )
    .unwrap_err();
    assert_eq!(e.to_string(), "Expected Sum type, instead got: `1`.");
}

#[test]
fn error_want_sigma() {
    let e = check_infer(0, TCS::default(), Expression::First(Box::new(Expression::Unit))).unwrap_err();
    assert_eq!(e.to_string(), "Expected Σ type, instead got: `1`.");
}

#[test]
fn error_want_pi() {
    let e = check_infer(
        0,
        TCS::default(),
        Expression::Application(Box::new(Expression::Unit), Box::new(Expression::Unit)),
    )
    .unwrap_err();
    assert_eq!(e.to_string(), "Expected Π type, instead got: `1`\nWhen checking the application whose argument is `0`.");
}

#[test]
fn error_not_a_type() {
    let e = check_type(0, TCS::default(), Expression::Unit).unwrap_err();
    assert_eq!(e.to_string(), "Expected a type expression, instead got: `1`.");
}

#[test]
fn error_level_mismatch() {
    let d = Declaration::simple(Pattern::Unit, vec![], Expression::Type(0), sum(vec![("A", Expression::Type(0))]));
    let e = check_declaration_main(d).unwrap_err();
    assert_eq!(
        e.to_string(),
        "Expected a type expression at level `0`, instead got one at level: `1`.\nWhen checking the declaration of `_`."
    );
}

#[test]
fn error_universe_mismatch() {
    let e = check(0, TCS::default(), Expression::Type(1), Value::Type(1)).unwrap_err();
    assert_eq!(e.to_string(), "Type mismatch: expected `Type1`, got (inferred): `Type2`.");
    assert!(check(0, TCS::default(), Expression::Type(0), Value::Type(1)).is_ok());
}

#[test]
fn error_default_is_textual() {
    let r: Result<(), TCE> = TCE::default_error("custom".to_string());
    assert_eq!(r.unwrap_err().to_string(), "custom");
}

#[test]
fn check_constant_declaration_inferred() {
    let program = Expression::Constant(
        Pattern::Var("c".to_string()),
        Box::new(Expression::Pair(Box::new(Expression::Unit), Box::new(Expression::Unit))),
        Box::new(Expression::Void),
    );
    let tcs = minitt::check::check_main(program).unwrap();
    assert_eq!(minitt::repl::gamma_report(&tcs.gamma), "Current Gamma:\nc: Σ 1. 1\n");
}

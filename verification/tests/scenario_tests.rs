use minitt::ast::{nil_rc, Declaration, Expression, Pattern, Value};
use minitt::check::read_back::ReadBack;
use minitt::check::decl::check_simple_declaration;
use minitt::check::expr::{check, check_infer};
use minitt::check::tcm::TCS;
use minitt::list::{branch_insert_exec, branch_keys_exec, List};
use minitt::repl::{parse_command, repl_step, CommandKind, ReplAction};

fn sum_a() -> Expression {
    Expression::Sum(branch_insert_exec(List::Nil, "A".to_string(), Expression::One))
}

#[test]
fn merge_of_a_sum_with_itself_is_a_duplicate() {
    let e = check_infer(0, TCS::default(), Expression::Merge(Box::new(sum_a()), Box::new(sum_a()))).unwrap_err();
    assert_eq!(e.to_string(), "Found duplicated branch: `A`.");
}

#[test]
fn simple_declaration_keeps_inner_names_local() {
    let body = Expression::Declaration(
        Box::new(Declaration::simple(Pattern::Var("y".to_string()), vec![], Expression::One, Expression::Unit)),
        Box::new(Expression::Unit),
    );
    let g = check_simple_declaration(0, TCS::default(), Pattern::Var("x".to_string()), Expression::One, body).unwrap();
    let keys = branch_keys_exec(&g);
    match keys {
        List::Cons(k, rest) => {
            assert_eq!(k, "x");
            assert!(rest.is_empty());
        },
        List::Nil => panic!("x is missing"),
    }
}

#[test]
fn fallback_rule_reads_back() {
    let e = check(0, TCS::default(), Expression::Unit, Value::Type(0)).unwrap_err();
    assert_eq!(e.to_string(), "Type mismatch: expected `Type0`, got (inferred): `1`.");
}

#[test]
fn repl_step_decides() {
    let (next, action) = repl_step(TCS::default(), parse_command(":quit"));
    assert!(next.is_none());
    assert!(matches!(action, ReplAction::Stop));
    let (next, action) = repl_step(TCS::default(), parse_command(":gamma"));
    assert!(next.is_some());
    match action {
        ReplAction::Print(t) => assert_eq!(t, "Current Gamma is empty.\n"),
        _ => panic!("expected a report"),
    }
    let (_, action) = repl_step(TCS::default(), parse_command(":oops"));
    match action {
        ReplAction::Print(t) => assert_eq!(t, "Unrecognized command: :oops\nMaybe you want to get some `:help`?\n"),
        _ => panic!("expected a message"),
    }
    let (_, action) = repl_step(TCS::default(), parse_command(":eval 1"));
    match action {
        ReplAction::Run(k, a) => {
            assert_eq!(k, CommandKind::Eval);
            assert_eq!(a, "1");
        },
        _ => panic!("expected a run"),
    }
    let (_, action) = repl_step(TCS::default(), parse_command(":load f.minitt"));
    assert!(matches!(action, ReplAction::Load(f) if f == "f.minitt"));
}

#[test]
fn nested_declaration_error_located_once() {
    let body = Expression::Declaration(
        Box::new(Declaration::simple(Pattern::Var("y".to_string()), vec![], Expression::One, Expression::One)),
        Box::new(Expression::Unit),
    );
    let d = Declaration::simple(Pattern::Var("x".to_string()), vec![], Expression::One, body);
    let e = minitt::check::check_declaration_main(d).unwrap_err();
    let text = e.to_string();
    assert!(text.ends_with("\nWhen checking the declaration of `y`."));
    assert!(!text.contains("`x`"));
}

#[test]
fn read_back_ignores_parameter_names() {
    let id = |x: &str| {
        Expression::Lambda(Pattern::Var(x.to_string()), None, Box::new(Expression::Var(x.to_string())))
    };
    let a = id("x").eval(nil_rc()).read_back(3).to_string();
    let b = id("y").eval(nil_rc()).read_back(3).to_string();
    assert_eq!(a, "λ <3> [<3>]");
    assert_eq!(a, b);
}

#[test]
fn checking_a_lambda_keeps_the_state() {
    let pi = Expression::Pi(
        minitt::ast::Typed::new(Pattern::Var("a".to_string()), Expression::One),
        Box::new(Expression::One),
    )
    .eval(nil_rc());
    let lambda = Expression::Lambda(Pattern::Var("x".to_string()), None, Box::new(Expression::Var("x".to_string())));
    let tcs = check(0, TCS::default(), lambda, pi).unwrap();
    assert!(tcs.gamma.is_empty());
    assert_eq!(tcs.context.to_string(), "");
}

#[test]
fn sigma_with_a_value_second_part_prints_both() {
    let v = Value::Sigma(Box::new(Value::One), minitt::ast::Closure::Value(Box::new(Value::One)));
    assert_eq!(v.to_string(), "Σ 1. 1");
}

use minitt::ast::{nil_rc, up_dec_rc, up_var_rc, Declaration, Expression, Pattern, Typed, Value};
use minitt::check::read_back::generate_value;
use minitt::check::tcm::{update_gamma, TCS};
use minitt::list::{branch_get_exec, branch_insert_exec, List};

fn pair_pattern(a: &str, b: &str) -> Pattern {
    Pattern::Pair(Box::new(Pattern::Var(a.to_string())), Box::new(Pattern::Var(b.to_string())))
}

#[test]
fn eval_pattern_contains() {
    let p = Pattern::Pair(Box::new(Pattern::Var("a".to_string())), Box::new(pair_pattern("b", "c")));
    assert!(p.contains("a"));
    assert!(p.contains("c"));
    assert!(!p.contains("d"));
    assert!(!Pattern::Unit.contains("a"));
}

#[test]
fn eval_project_pair() {
    let v = Value::Pair(Box::new(Value::One), Box::new(Value::Unit));
    let p = pair_pattern("x", "y");
    assert_eq!(p.project("x", Value::Pair(Box::new(Value::One), Box::new(Value::Unit))).unwrap().to_string(), "1");
    assert_eq!(p.project("y", v).unwrap().to_string(), "0");
}

#[test]
fn eval_project_errors() {
    let p = pair_pattern("x", "y");
    let e = p.project("z", Value::Unit).unwrap_err();
    assert_eq!(e, "Cannot project with `z`");
    let e = Pattern::Var("x".to_string()).project("z", Value::Unit).unwrap_err();
    assert_eq!(e, "Expected projection: `x`, found: `z`.");
    let e = Pattern::Unit.project("z", Value::Unit).unwrap_err();
    assert_eq!(e, "Cannot project unit pattern");
}

#[test]
fn eval_project_neutral() {
    let p = pair_pattern("x", "y");
    assert_eq!(p.project("y", generate_value(0)).unwrap().to_string(), "[(<0>.2)]");
}

#[test]
fn eval_resolve_bound_and_shadowed() {
    let ctx = up_var_rc(nil_rc(), Pattern::Var("x".to_string()), Value::One);
    let ctx = up_var_rc(ctx, Pattern::Var("y".to_string()), Value::Unit);
    assert_eq!(ctx.resolve("x").unwrap().to_string(), "1");
    assert_eq!(ctx.resolve("y").unwrap().to_string(), "0");
    let ctx = up_var_rc(ctx, Pattern::Var("x".to_string()), Value::Type(3));
    assert_eq!(ctx.resolve("x").unwrap().to_string(), "Type3");
    assert_eq!(ctx.resolve("z").unwrap_err(), "Unresolved reference: `z`.");
}

#[test]
fn eval_resolve_declaration() {
    let d = Declaration::simple(Pattern::Var("u".to_string()), vec![], Expression::One, Expression::Unit);
    let ctx = up_dec_rc(nil_rc(), d);
    assert_eq!(ctx.resolve("u").unwrap().to_string(), "0");
}

#[test]
fn eval_application_of_lambda() {
    let id = Expression::Lambda(Pattern::Var("x".to_string()), None, Box::new(Expression::Var("x".to_string())));
    let app = Expression::Application(Box::new(id), Box::new(Expression::One));
    assert_eq!(app.eval(nil_rc()).to_string(), "1");
}

#[test]
fn eval_first_second_and_neutral() {
    let pair = Expression::Pair(Box::new(Expression::One), Box::new(Expression::Unit));
    let first = Expression::First(Box::new(pair));
    assert_eq!(first.eval(nil_rc()).to_string(), "1");
    assert_eq!(generate_value(2).first().to_string(), "[(<2>.1)]");
    assert_eq!(generate_value(2).second().to_string(), "[(<2>.2)]");
    assert_eq!(generate_value(1).apply(Value::Unit).to_string(), "[(<1> 0)]");
    assert!(Value::One.first_checked().is_none());
}

#[test]
fn eval_split_on_constructor() {
    let mut branches = List::Nil;
    branches = branch_insert_exec(
        branches,
        "A".to_string(),
        Expression::Lambda(Pattern::Var("x".to_string()), None, Box::new(Expression::Var("x".to_string()))),
    );
    branches = branch_insert_exec(
        branches,
        "B".to_string(),
        Expression::Lambda(Pattern::Unit, None, Box::new(Expression::Type(1))),
    );
    let split = Expression::Split(branches);
    let arg = Expression::Constructor("A".to_string(), Box::new(Expression::One));
    let app = Expression::Application(Box::new(split), Box::new(arg));
    assert_eq!(app.eval(nil_rc()).to_string(), "1");
}

#[test]
fn eval_constant_binding() {
    let e = Expression::Constant(
        Pattern::Var("c".to_string()),
        Box::new(Expression::Type(2)),
        Box::new(Expression::Var("c".to_string())),
    );
    assert_eq!(e.eval(nil_rc()).to_string(), "Type2");
}

#[test]
fn eval_merge_and_sum_names() {
    let mut a = List::Nil;
    a = branch_insert_exec(a, "B".to_string(), Expression::One);
    let mut b = List::Nil;
    b = branch_insert_exec(b, "A".to_string(), Expression::One);
    let merged = Expression::Merge(Box::new(Expression::Sum(a)), Box::new(Expression::Sum(b)));
    let names = merged.eval_to_sum(nil_rc()).unwrap();
    assert_eq!(names, vec!["A".to_string(), "B".to_string()]);
    assert!(Expression::One.eval_to_sum(nil_rc()).is_none());
}

#[test]
fn eval_levels() {
    assert_eq!(Value::One.level(), 0);
    assert_eq!(Value::Type(0).level(), 1);
    assert_eq!(Value::Unit.level_safe(), None);
    let pi = Expression::Pi(Typed::new(Pattern::Unit, Expression::Type(0)), Box::new(Expression::One));
    assert_eq!(pi.eval(nil_rc()).level_safe(), Some(0));
}

#[test]
fn eval_update_gamma_binds_names() {
    let gamma = update_gamma(List::Nil, &Pattern::Var("x".to_string()), Value::One, Value::Unit).unwrap();
    assert_eq!(branch_get_exec(&gamma, "x").unwrap().to_string(), "1");
    assert!(branch_get_exec(&gamma, "y").is_none());
    let gamma = update_gamma(gamma, &Pattern::Unit, Value::Type(0), Value::Unit).unwrap();
    assert_eq!(branch_get_exec(&gamma, "x").unwrap().to_string(), "1");
    let err = update_gamma(gamma, &pair_pattern("a", "b"), Value::One, Value::Unit).unwrap_err();
    assert_eq!(err.to_string(), "Cannot update Gamma by: `(a, b)`.");
}

#[test]
fn eval_tcs_update_extends_both_contexts() {
    let tcs = TCS::default().update(Pattern::Var("x".to_string()), Value::One, Value::Unit).unwrap();
    assert_eq!(branch_get_exec(&tcs.gamma, "x").unwrap().to_string(), "1");
    assert_eq!(tcs.context().resolve("x").unwrap().to_string(), "0");
}

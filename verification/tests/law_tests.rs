use minitt::ast::{nil_rc, Closure, Either, Expression, GenericCase, Pattern, Typed, Value};
use minitt::check::subtype::{check_subtype, check_subtype_sum};
use minitt::check::tcm::TCS;
use minitt::list::{branch_get_exec, branch_insert_exec, branch_keys_exec, List};

fn keys<T>(b: &List<(String, Box<T>)>) -> Vec<String> {
    let names = branch_keys_exec(b);
    let mut out = vec![];
    let mut cur = &names;
    while let List::Cons(n, rest) = cur {
        out.push(n.clone());
        cur = rest;
    }
    out
}

fn sum_of(names: &[&str]) -> Value {
    let mut tree = List::Nil;
    for n in names {
        tree = branch_insert_exec(tree, n.to_string(), GenericCase::new(Either::Left(Value::One), nil_rc()));
    }
    Value::Sum(tree)
}

#[test]
fn law_case_order_does_not_matter() {
    let mut a = List::Nil;
    for n in ["C", "A", "B"] {
        a = branch_insert_exec(a, n.to_string(), Expression::One);
    }
    let mut b = List::Nil;
    for n in ["B", "C", "A"] {
        b = branch_insert_exec(b, n.to_string(), Expression::One);
    }
    assert_eq!(keys(&a), vec!["A", "B", "C"]);
    assert_eq!(keys(&a), keys(&b));
    assert_eq!(Expression::Sum(a).to_string(), Expression::Sum(b).to_string());
}

#[test]
fn law_insert_then_get() {
    let mut b = List::Nil;
    b = branch_insert_exec(b, "x".to_string(), 1u64);
    b = branch_insert_exec(b, "y".to_string(), 2u64);
    b = branch_insert_exec(b, "x".to_string(), 3u64);
    assert_eq!(branch_get_exec(&b, "x"), Some(&3));
    assert_eq!(branch_get_exec(&b, "y"), Some(&2));
    assert_eq!(branch_get_exec(&b, "z"), None);
}

#[test]
fn law_sum_subtype_of_larger_sum() {
    assert!(check_subtype(0, TCS::default(), sum_of(&["A"]), sum_of(&["A", "B"]), true).is_ok());
    let e = check_subtype(0, TCS::default(), sum_of(&["A", "B"]), sum_of(&["A"]), true).unwrap_err();
    assert_eq!(e.to_string(), "Unexpected case-split: `B`.");
}

#[test]
fn law_subtype_sum_trees() {
    let sub = match sum_of(&["A"]) {
        Value::Sum(t) => t,
        _ => unreachable!(),
    };
    let sup = match sum_of(&["A", "B", "C"]) {
        Value::Sum(t) => t,
        _ => unreachable!(),
    };
    assert!(check_subtype_sum(0, TCS::default(), sub, sup).is_ok());
}

#[test]
fn law_universe_cumulativity() {
    assert!(check_subtype(0, TCS::default(), Value::Type(1), Value::Type(2), false).is_ok());
    assert!(check_subtype(0, TCS::default(), Value::Type(2), Value::Type(2), false).is_ok());
    let e = check_subtype(0, TCS::default(), Value::Type(3), Value::Type(2), false).unwrap_err();
    assert_eq!(e.to_string(), "Type mismatch: expected `Type2`, got (inferred): `Type3`.");
}

#[test]
fn law_subtype_reflexive() {
    let pi = Expression::Pi(
        Typed::new(Pattern::Var("x".to_string()), Expression::Type(0)),
        Box::new(Expression::Var("x".to_string())),
    );
    let v = pi.eval(nil_rc());
    let w = Expression::Pi(
        Typed::new(Pattern::Var("x".to_string()), Expression::Type(0)),
        Box::new(Expression::Var("x".to_string())),
    )
    .eval(nil_rc());
    assert!(check_subtype(0, TCS::default(), v, w, true).is_ok());
    let s = Value::Sigma(Box::new(Value::One), Closure::Value(Box::new(Value::One)));
    let t = Value::Sigma(Box::new(Value::One), Closure::Value(Box::new(Value::One)));
    assert!(check_subtype(0, TCS::default(), s, t, true).is_ok());
}

#[test]
fn law_fuel_does_not_change_values() {
    let e = || {
        Expression::Application(
            Box::new(Expression::Lambda(
                Pattern::Var("x".to_string()),
                None,
                Box::new(Expression::Pair(
                    Box::new(Expression::Var("x".to_string())),
                    Box::new(Expression::Var("x".to_string())),
                )),
            )),
            Box::new(Expression::One),
        )
    };
    assert!(e().eval_fuel(nil_rc(), 2).is_none());
    let small = e().eval_fuel(nil_rc(), 10).unwrap().to_string();
    let large = e().eval_fuel(nil_rc(), 1000).unwrap().to_string();
    assert_eq!(small, "(1, 1)");
    assert_eq!(small, large);
}

#[test]
fn law_sum_value_finds_each_case() {
    let mut b = List::Nil;
    b = branch_insert_exec(b, "B".to_string(), Expression::Type(1));
    b = branch_insert_exec(b, "A".to_string(), Expression::One);
    match Expression::Sum(b).eval(nil_rc()) {
        Value::Sum(tree) => {
            assert_eq!(branch_get_exec(&tree, "A").unwrap().to_string(), "1");
            assert_eq!(branch_get_exec(&tree, "B").unwrap().to_string(), "Type1");
            assert!(branch_get_exec(&tree, "C").is_none());
        },
        _ => unreachable!(),
    }
}

fn declare(name: &str, signature: Expression, body: Expression, rest: Expression) -> Expression {
    Expression::Declaration(
        Box::new(minitt::ast::Declaration::simple(Pattern::Var(name.to_string()), vec![], signature, body)),
        Box::new(rest),
    )
}

#[test]
fn law_checking_keeps_one_entry_per_name() {
    let program = declare(
        "z",
        Expression::One,
        Expression::Unit,
        declare(
            "a",
            Expression::Type(0),
            Expression::One,
            declare("z", Expression::Type(1), Expression::Type(0), Expression::Void),
        ),
    );
    let tcs = minitt::check::check_main(program).unwrap();
    assert_eq!(keys(&tcs.gamma), vec!["a", "z"]);
    assert_eq!(minitt::repl::gamma_report(&tcs.gamma), "Current Gamma:\na: Type0\nz: Type1\n");
}

#[test]
fn law_checking_does_not_depend_on_fuel() {
    let program = || {
        declare(
            "p",
            Expression::Sigma(Typed::new(Pattern::Unit, Expression::One), Box::new(Expression::One)),
            Expression::Pair(Box::new(Expression::Unit), Box::new(Expression::Unit)),
            Expression::Void,
        )
    };
    assert!(minitt::check::check_main_fuel(program(), 3).is_none());
    let small = minitt::check::check_main_fuel(program(), 60).unwrap().unwrap();
    let large = minitt::check::check_main_fuel(program(), 100000).unwrap().unwrap();
    assert_eq!(minitt::repl::gamma_report(&small.gamma), minitt::repl::gamma_report(&large.gamma));
    assert_eq!(small.context.to_string(), large.context.to_string());
}

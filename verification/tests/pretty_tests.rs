use minitt::ast::{nil_rc, Closure, Declaration, Either, Expression, GenericCase, Pattern, Typed, Value};
use minitt::check::read_back::ReadBack;
use minitt::check::tcm::TCE;
use minitt::list::{branch_insert_exec, List};
use minitt::pretty::{fmt_branch, mismatch, write_decimal};

#[test]
fn simple_expr() {
    let expr = Expression::Second(Box::new(Expression::Pair(
        Box::new(Expression::One),
        Box::new(Expression::Unit),
    )));
    println!("{}", expr.to_string());
}

#[test]
fn simple_decl() {
    let var = "a".to_string();
    let expr = Expression::Declaration(
        Box::new(Declaration::simple(
            Pattern::Unit,
            vec![],
            Expression::One,
            Expression::Second(Box::new(Expression::Pair(
                Box::new(Expression::Unit),
                Box::new(Expression::Unit),
            ))),
        )),
        Box::new(Expression::Declaration(
            Box::new(Declaration::recursive(
                Pattern::Var(var.clone()),
                vec![],
                Expression::One,
                Expression::First(Box::new(Expression::Pair(
                    Box::new(Expression::Unit),
                    Box::new(Expression::Var(var)),
                ))),
            )),
            Box::new(Expression::Void),
        )),
    );
    println!("{}", expr.to_string());
}

#[test]
fn pretty_simple_expr_text() {
    let expr = Expression::Second(Box::new(Expression::Pair(
        Box::new(Expression::One),
        Box::new(Expression::Unit),
    )));
    assert_eq!(expr.to_string(), "((1, 0).2)");
}

#[test]
fn pretty_declarations_text() {
    let expr = Expression::Declaration(
        Box::new(Declaration::simple(Pattern::Unit, vec![], Expression::One, Expression::Unit)),
        Box::new(Expression::Declaration(
            Box::new(Declaration::recursive(
                Pattern::Var("a".to_string()),
                vec![Typed::new(Pattern::Var("x".to_string()), Expression::One)],
                Expression::One,
                Expression::Var("a".to_string()),
            )),
            Box::new(Expression::Void),
        )),
    );
    assert_eq!(expr.to_string(), "let _: 1 = 0;\nrec a(x: 1): 1 = a;\n\n\n");
}

#[test]
fn pretty_expression_forms() {
    let lambda = Expression::Lambda(
        Pattern::Pair(Box::new(Pattern::Var("x".to_string())), Box::new(Pattern::Unit)),
        None,
        Box::new(Expression::Var("x".to_string())),
    );
    assert_eq!(lambda.to_string(), "λ (x, _). x");
    let typed_lambda = Expression::Lambda(
        Pattern::Var("x".to_string()),
        Some(minitt::ast::AnonymousValue::new(Value::One)),
        Box::new(Expression::Var("x".to_string())),
    );
    assert_eq!(typed_lambda.to_string(), "λ x: 1. x");
    let pi = Expression::Pi(Typed::new(Pattern::Var("x".to_string()), Expression::One), Box::new(Expression::Type(3)));
    assert_eq!(pi.to_string(), "Π x: 1. Type3");
    let sigma = Expression::Sigma(Typed::new(Pattern::Unit, Expression::One), Box::new(Expression::One));
    assert_eq!(sigma.to_string(), "Σ _: 1. 1");
    let app = Expression::Application(Box::new(Expression::Var("f".to_string())), Box::new(Expression::Unit));
    assert_eq!(app.to_string(), "(f 0)");
    let cons = Expression::Constructor("C".to_string(), Box::new(Expression::Unit));
    assert_eq!(cons.to_string(), "C 0");
    let merge = Expression::Merge(Box::new(Expression::Var("a".to_string())), Box::new(Expression::Var("b".to_string())));
    assert_eq!(merge.to_string(), "a ++ b");
    let constant = Expression::Constant(Pattern::Unit, Box::new(Expression::Unit), Box::new(Expression::Void));
    assert_eq!(constant.to_string(), "const _ = 0;\n");
    assert_eq!(Expression::Void.to_string(), "");
    assert_eq!(Expression::Type(4294967295).to_string(), "Type4294967295");
}

#[test]
fn pretty_branches_sorted_and_split_clauses() {
    let mut b = List::Nil;
    b = branch_insert_exec(b, "True".to_string(), Expression::One);
    b = branch_insert_exec(b, "False".to_string(), Expression::One);
    assert_eq!(Expression::Sum(b).to_string(), "Sum {False 1 | True 1}");
    let mut s = List::Nil;
    s = branch_insert_exec(
        s,
        "True".to_string(),
        Expression::Lambda(Pattern::Var("n".to_string()), None, Box::new(Expression::Var("n".to_string()))),
    );
    s = branch_insert_exec(s, "False".to_string(), Expression::One);
    assert_eq!(Expression::Split(s).to_string(), "split {False 1 | True n => n}");
}

#[test]
fn pretty_values() {
    let pair = Value::Pair(Box::new(Value::One), Box::new(Value::Unit));
    assert_eq!(pair.to_string(), "(1, 0)");
    let sum = Value::Sum(List::Cons(
        ("A".to_string(), Box::new(GenericCase::new(Either::Left(Value::One), nil_rc()))),
        Box::new(List::Nil),
    ));
    assert_eq!(sum.to_string(), "Sum {A 1}");
    let pi = Value::Pi(Box::new(Value::One), Closure::Value(Box::new(Value::Type(2))));
    assert_eq!(pi.to_string(), "Π 1. Type2");
    let lambda = Value::Lambda(Closure::Abstraction(
        Pattern::Var("x".to_string()),
        Some(Box::new(Value::One)),
        Expression::Var("x".to_string()),
        Box::new(nil_rc()),
    ));
    assert_eq!(lambda.to_string(), "λ x. x");
    let closure = Closure::Abstraction(
        Pattern::Var("x".to_string()),
        Some(Box::new(Value::One)),
        Expression::Var("x".to_string()),
        Box::new(nil_rc()),
    );
    assert_eq!(closure.to_string(), "x: 1. x");
    let choice = Closure::Choice(Box::new(Closure::Value(Box::new(Value::One))), "C".to_string());
    assert_eq!(choice.to_string(), "C. 1");
    let mut out = String::new();
    closure.fmt_with_type(&mut out, Some(&Value::Unit));
    assert_eq!(out, "x: 0. x");
    let neutral = minitt::check::read_back::generate_value(7);
    assert_eq!(neutral.to_string(), "[<7>]");
}

#[test]
fn pretty_normal_forms() {
    let term = Expression::Lambda(
        Pattern::Var("a".to_string()),
        None,
        Box::new(Expression::Lambda(
            Pattern::Var("b".to_string()),
            None,
            Box::new(Expression::Var("a".to_string())),
        )),
    );
    let value = term.eval(nil_rc());
    assert_eq!(value.to_string(), "λ a. λ b. a");
    assert_eq!(value.read_back_please().to_string(), "λ <0> λ <1> [<0>]");
    let term = Expression::Lambda(
        Pattern::Var("a".to_string()),
        None,
        Box::new(Expression::Lambda(
            Pattern::Var("b".to_string()),
            None,
            Box::new(Expression::Var("b".to_string())),
        )),
    );
    assert_eq!(term.eval(nil_rc()).read_back_please().to_string(), "λ <0> λ <1> [<1>]");
}

#[test]
fn pretty_errors() {
    assert_eq!(TCE::Textual("plain".to_string()).to_string(), "plain");
    assert_eq!(
        TCE::UpdateGammaFailed(Pattern::Pair(Box::new(Pattern::Unit), Box::new(Pattern::Unit))).to_string(),
        "Cannot update Gamma by: `(_, _)`."
    );
    assert_eq!(TCE::InvalidConstructor("C".to_string()).to_string(), "Invalid constructor: `C`.");
    assert_eq!(TCE::WantSigmaBut(Value::One).to_string(), "Expected Σ type, instead got: `1`.");
    assert_eq!(
        TCE::WantSumBut(Either::Right(Expression::Unit)).to_string(),
        "Expected Sum type, instead got: `0`."
    );
    assert_eq!(
        TCE::WantPiBut(Value::One, Expression::Unit).to_string(),
        "Expected Π type, instead got: `1`\nWhen checking the application whose argument is `0`."
    );
    assert_eq!(TCE::NotTypeType(Value::Unit).to_string(), "Expected a type expression, instead got: `0`.");
    assert_eq!(
        TCE::LevelMismatch(3, 2).to_string(),
        "Expected a type expression at level `2`, instead got one at level: `3`."
    );
    assert_eq!(
        TCE::TypeMismatch(Value::One, Value::Type(0)).to_string(),
        "Type mismatch: expected `Type0`, got (inferred): `1`."
    );
    assert_eq!(
        TCE::Unreachable("f.rs", 12, 3).to_string(),
        "An internal error has occurred. Please report this as a bug.\nLocation of the error: f.rs, line 12, column 3."
    );
    assert_eq!(
        TCE::Located(Box::new(TCE::MissingCase("A".to_string())), Pattern::Var("f".to_string())).to_string(),
        "Missing case-split: `A`.\nWhen checking the declaration of `f`."
    );
    let names = List::Cons("B".to_string(), Box::new(List::Cons("C".to_string(), Box::new(List::Nil))));
    assert_eq!(TCE::UnexpectedCases(names).to_string(), "Unexpected case-split: `B | C`.");
}

#[test]
fn pretty_helpers() {
    let mut out = String::from("> ");
    mismatch(&mut out, "1", "Type0");
    assert_eq!(out, "> Type mismatch: expected `Type0`, got (inferred): `1`.");
    let mut out = String::new();
    let entries = List::Cons(
        ("A".to_string(), "1".to_string()),
        Box::new(List::Cons(("B".to_string(), "0".to_string()), Box::new(List::Nil))),
    );
    fmt_branch(&mut out, &entries);
    assert_eq!(out, "A 1 | B 0");
    let mut out = String::new();
    fmt_branch(&mut out, &List::Nil);
    assert_eq!(out, "");
    let mut out = String::new();
    write_decimal(&mut out, 0);
    write_decimal(&mut out, 1024);
    assert_eq!(out, "01024");
}

use minitt::ast::{Declaration, Expression, Pattern, Typed};
use minitt::check::tcm::TCS;
use minitt::check::{check_declaration_main, check_infer_contextual, check_main};
use minitt::list::{branch_insert_exec, List};

fn branch(entries: Vec<(&str, Expression)>) -> List<(String, Box<Expression>)> {
    let mut b = List::Nil;
    for (name, e) in entries {
        b = branch_insert_exec(b, name.to_string(), e);
    }
    b
}

fn var(name: &str) -> Expression {
    Expression::Var(name.to_string())
}

#[test]
fn tests_simple_check() {
    check_declaration_main(Declaration::simple(
        Pattern::Unit,
        vec![],
        Expression::Type(0),
        Expression::One,
    ))
    .unwrap();
    let error_message = check_declaration_main(Declaration::simple(
        Pattern::Unit,
        vec![],
        Expression::Type(0),
        Expression::Unit,
    ))
    .unwrap_err();
    println!("{}", error_message.to_string());
}

#[test]
fn tests_check_pair() {
    let expr = Expression::Declaration(
        Box::new(Declaration::simple(
            Pattern::Unit,
            vec![],
            Expression::One,
            Expression::Second(Box::new(Expression::Pair(
                Box::new(Expression::Unit),
                Box::new(Expression::Unit),
            ))),
        )),
        Box::new(Expression::Void),
    );
    check_main(expr).unwrap();
}

#[test]
fn type_check_simple_check() {
    check_declaration_main(Declaration::simple(
        Pattern::Unit,
        vec![],
        Expression::Type(0),
        Expression::One,
    ))
    .unwrap();
    let error_message = check_declaration_main(Declaration::simple(
        Pattern::Unit,
        vec![],
        Expression::Type(0),
        Expression::Unit,
    ))
    .unwrap_err();
    println!("{}", error_message.to_string());
}

#[test]
fn type_check_check_pair() {
    let expr = Expression::Declaration(
        Box::new(Declaration::simple(
            Pattern::Unit,
            vec![],
            Expression::One,
            Expression::Second(Box::new(Expression::Pair(
                Box::new(Expression::Unit),
                Box::new(Expression::Unit),
            ))),
        )),
        Box::new(Expression::Void),
    );
    check_main(expr).unwrap();
}

/// The sample program of the README: a function whose result type depends on its
/// argument.
fn readme_program(true_case: Expression) -> Expression {
    let bool_decl = Declaration::simple(
        Pattern::Var("bool".to_string()),
        vec![],
        Expression::Type(0),
        Expression::Sum(branch(vec![("True", Expression::One), ("False", Expression::One)])),
    );
    let unit_decl = Declaration::simple(
        Pattern::Var("unit".to_string()),
        vec![],
        Expression::Type(0),
        Expression::Sum(branch(vec![("TT", Expression::One)])),
    );
    let return_type = Declaration::simple(
        Pattern::Var("return_type".to_string()),
        vec![],
        Expression::Pi(Typed::new(Pattern::Unit, var("bool")), Box::new(Expression::Type(0))),
        Expression::Split(branch(vec![
            ("True", Expression::Lambda(Pattern::Unit, None, Box::new(var("unit")))),
            ("False", Expression::Lambda(Pattern::Unit, None, Box::new(Expression::One))),
        ])),
    );
    let function = Declaration::simple(
        Pattern::Var("function".to_string()),
        vec![],
        Expression::Pi(
            Typed::new(Pattern::Var("b".to_string()), var("bool")),
            Box::new(Expression::Application(Box::new(var("return_type")), Box::new(var("b")))),
        ),
        Expression::Split(branch(vec![
            ("True", Expression::Lambda(Pattern::Unit, None, Box::new(true_case))),
            ("False", Expression::Lambda(Pattern::Unit, None, Box::new(Expression::Unit))),
        ])),
    );
    let mut program = Expression::Void;
    for d in vec![function, return_type, unit_decl, bool_decl] {
        program = Expression::Declaration(Box::new(d), Box::new(program));
    }
    program
}

#[test]
fn readme_dependent_function_checks() {
    let program = readme_program(Expression::Constructor("TT".to_string(), Box::new(Expression::Unit)));
    let tcs = check_main(program).unwrap();
    let t = check_infer_contextual(tcs, var("function")).unwrap();
    assert_eq!(t.to_string(), "Π b: Sum {False 1 | True 1}. (return_type b)");
}

#[test]
fn readme_dependent_function_wrong_case_fails() {
    let program = readme_program(Expression::Unit);
    assert!(check_main(program).is_err());
}

#[test]
fn check_infers_pair_type() {
    let t = check_infer_contextual(
        TCS::default(),
        Expression::Pair(Box::new(Expression::Unit), Box::new(Expression::Unit)),
    )
    .unwrap();
    assert_eq!(t.to_string(), "Σ 1. 1");
}

#[test]
fn check_infers_universe_levels() {
    let t = check_infer_contextual(TCS::default(), Expression::One).unwrap();
    assert_eq!(t.to_string(), "Type0");
    let t = check_infer_contextual(TCS::default(), Expression::Type(0)).unwrap();
    assert_eq!(t.to_string(), "Type1");
}

#[test]
fn check_unresolved_name_message() {
    let e = check_infer_contextual(TCS::default(), var("x")).unwrap_err();
    assert_eq!(e.to_string(), "Unresolved reference: `x`.");
}

#[test]
fn check_cannot_infer_lambda_message() {
    let e = check_infer_contextual(
        TCS::default(),
        Expression::Lambda(Pattern::Var("x".to_string()), None, Box::new(var("x"))),
    )
    .unwrap_err();
    assert_eq!(e.to_string(), "Cannot infer type of: `λ x. x`.");
}

#[test]
fn check_type_mismatch_message() {
    let e = check_declaration_main(Declaration::simple(
        Pattern::Unit,
        vec![],
        Expression::Type(0),
        Expression::Unit,
    ))
    .unwrap_err();
    assert!(e.to_string().contains("Type mismatch: expected `Type0`, got (inferred): `1`."));
    assert!(e.to_string().ends_with("\nWhen checking the declaration of `_`."));
}

#[test]
fn check_duplicate_branch_in_merge() {
    let left = Expression::Sum(branch(vec![("A", Expression::One)]));
    let right = Expression::Sum(branch(vec![("A", Expression::One), ("B", Expression::One)]));
    let d = Declaration::simple(
        Pattern::Unit,
        vec![],
        Expression::Type(0),
        Expression::Merge(Box::new(left), Box::new(right)),
    );
    let e = check_declaration_main(d).unwrap_err();
    assert!(e.to_string().starts_with("Found duplicated branch: `A`."));
}

#[test]
fn check_merge_of_disjoint_sums() {
    let left = Expression::Sum(branch(vec![("A", Expression::One)]));
    let right = Expression::Sum(branch(vec![("B", Expression::One)]));
    let t = check_infer_contextual(TCS::default(), Expression::Merge(Box::new(left), Box::new(right))).unwrap();
    assert_eq!(t.to_string(), "Type0");
}

#[test]
fn check_missing_case_message() {
    let d = Declaration::simple(
        Pattern::Var("f".to_string()),
        vec![],
        Expression::Pi(
            Typed::new(Pattern::Unit, Expression::Sum(branch(vec![("A", Expression::One), ("B", Expression::One)]))),
            Box::new(Expression::One),
        ),
        Expression::Split(branch(vec![("A", Expression::Lambda(Pattern::Unit, None, Box::new(Expression::Unit)))])),
    );
    let e = check_declaration_main(d).unwrap_err();
    assert!(e.to_string().contains("Missing case-split: `B`."));
}

#[test]
fn check_unexpected_case_message() {
    let d = Declaration::simple(
        Pattern::Var("f".to_string()),
        vec![],
        Expression::Pi(
            Typed::new(Pattern::Unit, Expression::Sum(branch(vec![("A", Expression::One)]))),
            Box::new(Expression::One),
        ),
        Expression::Split(branch(vec![
            ("A", Expression::Lambda(Pattern::Unit, None, Box::new(Expression::Unit))),
            ("B", Expression::Lambda(Pattern::Unit, None, Box::new(Expression::Unit))),
            ("C", Expression::Lambda(Pattern::Unit, None, Box::new(Expression::Unit))),
        ])),
    );
    let e = check_declaration_main(d).unwrap_err();
    assert!(e.to_string().contains("Unexpected case-split: `B | C`."));
}

#[test]
fn check_recursive_declaration() {
    let d = Declaration::recursive(
        Pattern::Var("nat".to_string()),
        vec![],
        Expression::Type(0),
        Expression::Sum(branch(vec![("Zero", Expression::One), ("Suc", var("nat"))])),
    );
    check_declaration_main(d).unwrap();
}

use minitt::ast::{Expression, Pattern};
use minitt::check::check_main_fuel;
use minitt::parser::parse_str;

fn successful_test_case(code: &str) {
    let expr = parse_str(code).unwrap();
    let printed = expr.to_string();
    let again = parse_str(printed.as_str()).unwrap();
    assert_eq!(again.to_string(), printed);
}

#[test]
fn simple_parse() {
    successful_test_case("let unit_one : 1 = 0;\nlet type_one : U = unit_one;");
    successful_test_case("let application : k = f e;");
    successful_test_case("let pair_first_second : k = ((x, y).1).2;");
    successful_test_case("let sigma_type : \\Sigma x : x_type . y = x, y;");
    successful_test_case("let constructor : C k = C e;");
    successful_test_case("let pi_lambda : \\Pi a : b . c = \\lambda a . expr;");
    parse_str("let function : sum {C e} = split {C _ => e};").unwrap();
    successful_test_case("let pat, pat2 : \\Pi _ : b . c = \\lambda _ . expr;");
}

#[test]
fn parse_atoms() {
    assert!(matches!(parse_str("0"), Ok(Expression::Unit)));
    assert!(matches!(parse_str("  1"), Ok(Expression::One)));
    assert!(matches!(parse_str("Type3"), Ok(Expression::Type(3))));
    assert!(matches!(parse_str("Type"), Ok(Expression::Type(0))));
    assert!(matches!(parse_str("U"), Ok(Expression::Type(0))));
    assert!(matches!(parse_str("-- a comment\nx"), Ok(Expression::Var(ref x)) if x == "x"));
    // A level past `u32` is no universe: the word reads as a name.
    assert!(matches!(parse_str("Type99999999999"), Ok(Expression::Var(ref x)) if x == "Type99999999999"));
}

#[test]
fn parse_errors() {
    let message = "Parse failed: the input does not start with an expression.";
    assert_eq!(parse_str("").unwrap_err(), message);
    assert_eq!(parse_str("   ").unwrap_err(), message);
    assert_eq!(parse_str("= x").unwrap_err(), message);
    assert_eq!(parse_str("let x : 1 = ;").unwrap_err(), message);
    assert_eq!(parse_str("(x").unwrap_err(), message);
}

#[test]
fn application_is_right_associative() {
    let e = parse_str("f a b").unwrap();
    assert_eq!(e.to_string(), "(f (a b))");
}

#[test]
fn times_and_arrow_are_non_dependent() {
    for code in ["a * b", "a \\times b", "a × b"] {
        match parse_str(code).unwrap() {
            Expression::Sigma(typed, second) => {
                assert!(matches!(typed.pattern, Pattern::Unit));
                assert!(matches!(*typed.expression, Expression::Var(ref x) if x == "a"));
                assert!(matches!(*second, Expression::Var(ref y) if y == "b"));
            },
            _ => panic!("not a pair type"),
        }
    }
    match parse_str("a -> b").unwrap() {
        Expression::Pi(typed, _) => assert!(matches!(typed.pattern, Pattern::Unit)),
        _ => panic!("not a function type"),
    }
}

#[test]
fn parse_sum_keeps_names_sorted() {
    let e = parse_str("Sum { B 1 | A 0 }").unwrap();
    assert_eq!(e.to_string(), "Sum {A 0 | B 1}");
    let d = parse_str("Sum { A 1 | A 0 }").unwrap();
    assert_eq!(d.to_string(), "Sum {A 0}");
}

#[test]
fn parse_declarations_and_constants() {
    let e = parse_str("let f (x : 1) : 1 = x;\nconst c = 0;\nrec g : 1 = 0;").unwrap();
    let printed = e.to_string();
    assert_eq!(printed, "let f(x: 1): 1 = x;\nconst c = 0;\nrec g: 1 = 0;\n\n\n");
    assert_eq!(parse_str(printed.as_str()).unwrap().to_string(), printed);
    let m = parse_str("Sum {A 1} ++ Sum {B 1}").unwrap();
    assert_eq!(m.to_string(), "Sum {A 1} ++ Sum {B 1}");
}

#[test]
fn parsed_program_checks() {
    let code = "let bool: U = sum { True 1 | False 1 };\n\
                let unit: U = sum { TT 1 };\n\
                -- A 2 type and a 1 type\n\
                let return_type: bool -> U = split\n { True _ => unit\n | False _ => 1\n };\n\
                let function: \\Pi b: bool. return_type b = split\n { True _ => TT 0\n | False _ => 0\n };";
    let e = parse_str(code).unwrap();
    let checked = check_main_fuel(e, 1_000_000).unwrap();
    assert!(checked.is_ok());
}

fn name(x: &str) -> Expression {
    Expression::Var(x.to_string())
}

#[test]
fn plain_expressions_read_back() {
    let e = Expression::Pair(
        Box::new(Expression::Application(Box::new(name("f")), Box::new(name("x")))),
        Box::new(Expression::Second(Box::new(Expression::First(Box::new(Expression::One))))),
    );
    let printed = e.to_string();
    assert_eq!(printed, "((f x), ((1.1).2))");
    let again = parse_str(printed.as_str()).unwrap();
    assert_eq!(again.to_string(), printed);
    assert!(matches!(again, Expression::Pair(_, _)));
}

#[test]
fn eval_to_sum_lists_names_in_order() {
    let sum = parse_str("Sum { Zed 1 | Alpha 0 | Mid 1 }").unwrap();
    let names = sum.eval_to_sum(minitt::ast::nil_rc()).unwrap();
    assert_eq!(names, vec!["Alpha".to_string(), "Mid".to_string(), "Zed".to_string()]);
    let merged = parse_str("Sum { B 1 } ++ Sum { C 1 | A 1 }").unwrap();
    let names = merged.eval_to_sum(minitt::ast::nil_rc()).unwrap();
    assert_eq!(names, vec!["A".to_string(), "B".to_string(), "C".to_string()]);
    assert!(parse_str("1").unwrap().eval_to_sum(minitt::ast::nil_rc()).is_none());
}

#[test]
fn prefix_parameters_are_lifted() {
    let e = parse_str("let id (x : 1) : 1 = x;\nlet one : 1 = id 0;").unwrap();
    let checked = check_main_fuel(e, 1_000_000).unwrap();
    let tcs = checked.unwrap();
    let report = minitt::repl::gamma_report(&tcs.gamma);
    assert!(report.contains("id: "));
    assert!(report.contains("one: 1"));
}

#[test]
fn split_must_cover_the_sum() {
    let code = "let bool: U = sum { True 1 | False 1 };\n\
                let f: bool -> 1 = split { True _ => 0 };";
    let e = parse_str(code).unwrap();
    let checked = check_main_fuel(e, 1_000_000).unwrap();
    assert!(checked.is_err());
}

#[test]
fn binders_read_back() {
    let code = "\\Pi (a, _) : \\Sigma x : t . u . \\lambda y . (f y)";
    let e = parse_str(code).unwrap();
    let printed = e.to_string();
    assert_eq!(printed, "Π (a, _): Σ x: t. u. λ y. (f y)");
    let again = parse_str(printed.as_str()).unwrap();
    assert_eq!(again.to_string(), printed);
}

#[test]
fn declarations_read_back() {
    let code = "rec f : \\Pi x : a . C x = \\lambda y . C (f y);\nlet g : b = (f, 1);";
    let e = parse_str(code).unwrap();
    let printed = e.to_string();
    assert_eq!(printed, "rec f: Π x: a. C x = λ y. C (f y);\nlet g: b = (f, 1);\n\n\n");
    assert_eq!(parse_str(printed.as_str()).unwrap().to_string(), printed);
}

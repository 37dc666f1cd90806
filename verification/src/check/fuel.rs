use vstd::prelude::*;

use crate::ast::{Branch, CaseTree, Closure, Declaration, Expression, Pattern, Typed, Value};
use crate::check::decl::{
    check_body_s, check_declaration_s, check_lift_parameters_s, check_recursive_declaration_s, check_simple_declaration_s,
    LiftBody,
};
use crate::check::expr::{
    first_duplicate, check_fallback_s, check_infer_s, check_merge_type_s, check_s, check_split_s, check_sum_type_s, check_telescoped_s,
    check_type_s, infer_binder_s, sum_type_loop_s,
};
use crate::check::read_back::generated;
use crate::check::subtype::lemma_subtype_fuel;
use crate::check::tcm::{
    lemma_tcs_update_fuel, lemma_update_gamma_fuel, lemma_update_gamma_lazy_fuel, tcs_update_s, update_gamma_s, TCS,
};
use crate::eval::{eval_s, instantiate_s, lemma_eval_fuel, lemma_instantiate_fuel, lemma_level_fuel, lemma_reduce_fuel, reduce_s};
use crate::list::{branch_get, branch_keys, branch_remove, List};

verus! {

/// Type inference does not depend on the fuel once it finishes: with more fuel the
/// answer is the same.
#[verifier::rlimit(40)]
pub proof fn lemma_infer_fuel(index: u32, tcs: TCS, e: Expression, n: nat, m: nat)
    requires
        n <= m,
        check_infer_s(index, tcs, e, n) is Some,
    ensures
        check_infer_s(index, tcs, e, m) == check_infer_s(index, tcs, e, n),
    decreases n, 0nat,
{
    let f = (n - 1) as nat;
    let g = (m - 1) as nat;
    match e {
        Expression::Constructor(_, body) => lemma_infer_fuel(index, tcs, *body, f, g),
        Expression::Pair(left, right) => {
            lemma_infer_fuel(index, tcs, *left, f, g);
            if let Some(Ok(_)) = check_infer_s(index, tcs, *left, f) {
                lemma_infer_fuel(index, tcs, *right, f, g);
            }
        },
        Expression::First(pair) => lemma_infer_fuel(index, tcs, *pair, f, g),
        Expression::Second(pair) => {
            lemma_infer_fuel(index, tcs, *pair, f, g);
            if let Some(Ok(Value::Sigma(_, second))) = check_infer_s(index, tcs, *pair, f) {
                lemma_eval_fuel(*pair, tcs.context, f, g);
                if let Some(v) = eval_s(*pair, tcs.context, f) {
                    if let Some(v1) = crate::eval::spec_first(v) {
                        lemma_instantiate_fuel(second, v1, f, g);
                    }
                }
            }
        },
        Expression::Sum(branches) => lemma_sum_type_fuel(index, tcs, branches, f, g),
        Expression::Merge(left, right) => lemma_infer_merge_fuel(index, tcs, *left, *right, f, g),
        Expression::Pi(input, output) => lemma_infer_binder_fuel(index, tcs, input, *output, f, g),
        Expression::Sigma(input, output) => lemma_infer_binder_fuel(index, tcs, input, *output, f, g),
        Expression::Application(function, argument) => {
            match *function {
                Expression::Lambda(pattern, Some(parameter_type), return_value) => {
                    let t = *parameter_type.internal;
                    lemma_check_fuel(index, tcs, *argument, t, f, g);
                    if let Some(Ok(tcs1)) = check_s(index, tcs, *argument, t, f) {
                        if index < u32::MAX {
                            lemma_tcs_update_fuel(tcs1, pattern, t, generated((index + 1) as u32), f, g);
                            if let Some(Ok(tcs2)) = tcs_update_s(tcs1, pattern, t, generated((index + 1) as u32), f) {
                                lemma_infer_fuel((index + 1) as u32, tcs2, *return_value, f, g);
                            }
                        }
                    }
                },
                function => {
                    lemma_infer_fuel(index, tcs, function, f, g);
                    if let Some(Ok(Value::Pi(input, output))) = check_infer_s(index, tcs, function, f) {
                        lemma_check_fuel(index, tcs, *argument, *input, f, g);
                        if let Some(Ok(_)) = check_s(index, tcs, *argument, *input, f) {
                            lemma_eval_fuel(*argument, tcs.context, f, g);
                            if let Some(av) = eval_s(*argument, tcs.context, f) {
                                lemma_instantiate_fuel(output, av, f, g);
                            }
                        }
                    }
                },
            }
        },
        _ => {},
    }
}

/// The merge case of `lemma_infer_fuel`.
pub proof fn lemma_infer_merge_fuel(index: u32, tcs: TCS, left: Expression, right: Expression, f: nat, g: nat)
    requires
        f <= g,
        check_infer_s(index, tcs, Expression::Merge(Box::new(left), Box::new(right)), f + 1) is Some,
    ensures
        check_infer_s(index, tcs, Expression::Merge(Box::new(left), Box::new(right)), g + 1) == check_infer_s(
            index,
            tcs,
            Expression::Merge(Box::new(left), Box::new(right)),
            f + 1,
        ),
    decreases f, 1nat,
{
    lemma_eval_fuel(left, tcs.context, f, g);
    if let Some(Value::Sum(l)) = eval_s(left, tcs.context, f) {
        lemma_eval_fuel(right, tcs.context, f, g);
        if let Some(Value::Sum(r)) = eval_s(right, tcs.context, f) {
            if first_duplicate(branch_keys(l), branch_keys(r)) is None {
                lemma_infer_fuel(index, tcs, left, f, g);
                if let Some(Ok(Value::Type(_))) = check_infer_s(index, tcs, left, f) {
                    lemma_infer_fuel(index, tcs, right, f, g);
                }
            }
        }
    }
}

/// The Pi and Sigma case of `lemma_infer_fuel`.
pub proof fn lemma_infer_binder_fuel(index: u32, tcs: TCS, input: Typed, output: Expression, n: nat, m: nat)
    requires
        n <= m,
        infer_binder_s(index, tcs, input, output, n) is Some,
    ensures
        infer_binder_s(index, tcs, input, output, m) == infer_binder_s(index, tcs, input, output, n),
    decreases n, 0nat,
{
    let f = (n - 1) as nat;
    let g = (m - 1) as nat;
    lemma_type_fuel(index, tcs, *input.expression, f, g);
    if let Some(Ok((_, tcs1))) = check_type_s(index, tcs, *input.expression, f) {
        lemma_eval_fuel(*input.expression, tcs1.context, f, g);
        if let Some(input_type) = eval_s(*input.expression, tcs1.context, f) {
            lemma_update_gamma_fuel(tcs1.gamma, input.pattern, input_type, generated(index), f, g);
            if let Some(Ok(gamma)) = update_gamma_s(tcs1.gamma, input.pattern, input_type, generated(index), f) {
                if index < u32::MAX {
                    lemma_type_fuel((index + 1) as u32, TCS { gamma, context: tcs1.context }, output, f, g);
                }
            }
        }
    }
}

/// Checking a type does not depend on the fuel once it finishes.
pub proof fn lemma_type_fuel(index: u32, tcs: TCS, e: Expression, n: nat, m: nat)
    requires
        n <= m,
        check_type_s(index, tcs, e, n) is Some,
    ensures
        check_type_s(index, tcs, e, m) == check_type_s(index, tcs, e, n),
    decreases n, 0nat,
{
    let f = (n - 1) as nat;
    let g = (m - 1) as nat;
    match e {
        Expression::Sum(constructors) => lemma_sum_type_fuel(index, tcs, constructors, f, g),
        Expression::Pi(first, second) => lemma_telescoped_fuel(index, tcs, first, *second, f, g),
        Expression::Sigma(first, second) => lemma_telescoped_fuel(index, tcs, first, *second, f, g),
        Expression::Merge(left, right) => lemma_merge_type_fuel(index, tcs, *left, *right, f, g),
        Expression::Type(_) => {},
        Expression::Void => {},
        Expression::One => {},
        e => {
            lemma_infer_fuel(index, tcs, e, f, g);
            if let Some(Ok(inferred)) = check_infer_s(index, tcs, e, f) {
                lemma_level_fuel(inferred, f, g);
            }
        },
    }
}

/// Checking a merge of sums does not depend on the fuel once it finishes.
pub proof fn lemma_merge_type_fuel(index: u32, tcs: TCS, left: Expression, right: Expression, n: nat, m: nat)
    requires
        n <= m,
        check_merge_type_s(index, tcs, left, right, n) is Some,
    ensures
        check_merge_type_s(index, tcs, left, right, m) == check_merge_type_s(index, tcs, left, right, n),
    decreases n, 0nat,
{
    let f = (n - 1) as nat;
    let g = (m - 1) as nat;
    lemma_type_fuel(index, tcs, left, f, g);
    if let Some(Ok((_, tcs1))) = check_type_s(index, tcs, left, f) {
        lemma_type_fuel(index, tcs1, right, f, g);
        if let Some(Ok((_, tcs2))) = check_type_s(index, tcs1, right, f) {
            lemma_eval_fuel(left, tcs2.context, f, g);
            if let Some(Value::Sum(_)) = eval_s(left, tcs2.context, f) {
                lemma_eval_fuel(right, tcs2.context, f, g);
            }
        }
    }
}

/// Checking a sum type does not depend on the fuel once it finishes.
pub proof fn lemma_sum_type_fuel(index: u32, tcs: TCS, constructors: Branch, n: nat, m: nat)
    requires
        n <= m,
        check_sum_type_s(index, tcs, constructors, n) is Some,
    ensures
        check_sum_type_s(index, tcs, constructors, m) == check_sum_type_s(index, tcs, constructors, n),
    decreases n, 0nat,
{
    lemma_sum_type_loop_fuel(index, tcs, constructors, 0, (n - 1) as nat, (m - 1) as nat);
}

/// The loop of `lemma_sum_type_fuel`.
pub proof fn lemma_sum_type_loop_fuel(index: u32, tcs: TCS, constructors: Branch, max: u32, n: nat, m: nat)
    requires
        n <= m,
        sum_type_loop_s(index, tcs, constructors, max, n) is Some,
    ensures
        sum_type_loop_s(index, tcs, constructors, max, m) == sum_type_loop_s(index, tcs, constructors, max, n),
    decreases n, 0nat,
{
    let f = (n - 1) as nat;
    let g = (m - 1) as nat;
    if let List::Cons(entry, rest) = constructors {
        lemma_type_fuel(index, tcs, *entry.1, f, g);
        if let Some(Ok((level, tcs1))) = check_type_s(index, tcs, *entry.1, f) {
            lemma_sum_type_loop_fuel(index, tcs1, *rest, if level > max { level } else { max }, f, g);
        }
    }
}

/// Checking a Pi or Sigma type does not depend on the fuel once it finishes.
pub proof fn lemma_telescoped_fuel(index: u32, tcs: TCS, first: Typed, second: Expression, n: nat, m: nat)
    requires
        n <= m,
        check_telescoped_s(index, tcs, first, second, n) is Some,
    ensures
        check_telescoped_s(index, tcs, first, second, m) == check_telescoped_s(index, tcs, first, second, n),
    decreases n, 0nat,
{
    let f = (n - 1) as nat;
    let g = (m - 1) as nat;
    lemma_type_fuel(index, tcs, *first.expression, f, g);
    if let Some(Ok((_, tcs1))) = check_type_s(index, tcs, *first.expression, f) {
        lemma_eval_fuel(*first.expression, tcs1.context, f, g);
        if let Some(t) = eval_s(*first.expression, tcs1.context, f) {
            lemma_tcs_update_fuel(tcs1, first.pattern, t, generated(index), f, g);
            if let Some(Ok(internal)) = tcs_update_s(tcs1, first.pattern, t, generated(index), f) {
                if index < u32::MAX {
                    lemma_type_fuel((index + 1) as u32, internal, second, f, g);
                }
            }
        }
    }
}

/// Checking does not depend on the fuel once it finishes.
pub proof fn lemma_check_fuel(index: u32, tcs: TCS, e: Expression, v: Value, n: nat, m: nat)
    requires
        n <= m,
        check_s(index, tcs, e, v, n) is Some,
    ensures
        check_s(index, tcs, e, v, m) == check_s(index, tcs, e, v, n),
    decreases n, 0nat,
{
    let f = (n - 1) as nat;
    let g = (m - 1) as nat;
    match (e, v) {
        (Expression::Unit, Value::One) => {},
        (Expression::One, Value::Type(0)) => {},
        (Expression::Type(_), Value::Type(_)) => {},
        (Expression::Void, _) => {},
        (Expression::Lambda(pattern, _, body), Value::Pi(signature, closure)) => {
            lemma_tcs_update_fuel(tcs, pattern, *signature, generated(index), f, g);
            if let Some(Ok(fake)) = tcs_update_s(tcs, pattern, *signature, generated(index), f) {
                if index < u32::MAX {
                    lemma_instantiate_fuel(closure, generated(index), f, g);
                    if let Some(t) = instantiate_s(closure, generated(index), f) {
                        lemma_check_fuel((index + 1) as u32, fake, *body, t, f, g);
                    }
                }
            }
        },
        (Expression::Pair(first, second), Value::Sigma(first_type, second_type)) => {
            lemma_check_fuel(index, tcs, *first, *first_type, f, g);
            if let Some(Ok(tcs1)) = check_s(index, tcs, *first, *first_type, f) {
                lemma_eval_fuel(*first, tcs1.context, f, g);
                if let Some(fv) = eval_s(*first, tcs1.context, f) {
                    lemma_instantiate_fuel(second_type, fv, f, g);
                    if let Some(t) = instantiate_s(second_type, fv, f) {
                        lemma_check_fuel(index, tcs1, *second, t, f, g);
                    }
                }
            }
        },
        (Expression::Constructor(name, body), Value::Sum(constructors)) => {
            if let Some(case) = branch_get(constructors, name@) {
                lemma_reduce_fuel(case, f, g);
                if let Some(t) = reduce_s(case, f) {
                    lemma_check_fuel(index, tcs, *body, t, f, g);
                }
            }
        },
        (Expression::Sum(constructors), Value::Type(_)) => lemma_sum_type_fuel(index, tcs, constructors, f, g),
        (Expression::Merge(left, right), Value::Type(_)) => lemma_merge_type_fuel(index, tcs, *left, *right, f, g),
        (Expression::Sigma(first, second), Value::Type(_)) => lemma_telescoped_fuel(index, tcs, first, *second, f, g),
        (Expression::Pi(first, second), Value::Type(_)) => lemma_telescoped_fuel(index, tcs, first, *second, f, g),
        (Expression::Declaration(declaration, rest), rest_type) => {
            lemma_declaration_fuel(index, tcs, *declaration, f, g);
            if let Some(Ok(tcs1)) = check_declaration_s(index, tcs, *declaration, f) {
                lemma_check_fuel(index, tcs1, *rest, rest_type, f, g);
            }
        },
        (Expression::Constant(pattern, body, rest), rest_type) => {
            lemma_infer_fuel(index, tcs, *body, f, g);
            if let Some(Ok(signature)) = check_infer_s(index, tcs, *body, f) {
                lemma_eval_fuel(*body, tcs.context, f, g);
                if let Some(body_val) = eval_s(*body, tcs.context, f) {
                    lemma_tcs_update_fuel(tcs, pattern, signature, body_val, f, g);
                    if let Some(Ok(tcs1)) = tcs_update_s(tcs, pattern, signature, body_val, f) {
                        lemma_check_fuel(index, tcs1, *rest, rest_type, f, g);
                    }
                }
            }
        },
        (Expression::Split(branches), Value::Pi(sum, closure)) => {
            match *sum {
                Value::Sum(sum_branches) => lemma_split_fuel(index, tcs, branches, sum_branches, closure, f, g),
                not_sum => lemma_fallback_fuel(
                    index,
                    tcs,
                    Expression::Split(branches),
                    Value::Pi(Box::new(not_sum), closure),
                    f,
                    g,
                ),
            }
        },
        (e, v) => lemma_fallback_fuel(index, tcs, e, v, f, g),
    }
}

/// The fallback rule does not depend on the fuel once it finishes.
pub proof fn lemma_fallback_fuel(index: u32, tcs: TCS, body: Expression, signature: Value, n: nat, m: nat)
    requires
        n <= m,
        check_fallback_s(index, tcs, body, signature, n) is Some,
    ensures
        check_fallback_s(index, tcs, body, signature, m) == check_fallback_s(index, tcs, body, signature, n),
    decreases n, 0nat,
{
    let f = (n - 1) as nat;
    let g = (m - 1) as nat;
    lemma_infer_fuel(index, tcs, body, f, g);
    if let Some(Ok(inferred)) = check_infer_s(index, tcs, body, f) {
        lemma_subtype_fuel(index, tcs, inferred, signature, true, f, g);
    }
}

/// Checking a case-split does not depend on the fuel once it finishes.
pub proof fn lemma_split_fuel(
    index: u32,
    tcs: TCS,
    branches: Branch,
    sum_branches: CaseTree,
    closure: Closure,
    n: nat,
    m: nat,
)
    requires
        n <= m,
        check_split_s(index, tcs, branches, sum_branches, closure, n) is Some,
    ensures
        check_split_s(index, tcs, branches, sum_branches, closure, m) == check_split_s(
            index,
            tcs,
            branches,
            sum_branches,
            closure,
            n,
        ),
    decreases n, 0nat,
{
    let f = (n - 1) as nat;
    let g = (m - 1) as nat;
    if let List::Cons(entry, rest) = sum_branches {
        let (found, remaining) = branch_remove(branches, entry.0@);
        if let Some(pattern_match) = found {
            lemma_reduce_fuel(*entry.1, f, g);
            if let Some(branch_value) = reduce_s(*entry.1, f) {
                let signature = Value::Pi(Box::new(branch_value), Closure::Choice(Box::new(closure), entry.0));
                lemma_check_fuel(index, tcs, pattern_match, signature, f, g);
                if let Some(Ok(tcs1)) = check_s(index, tcs, pattern_match, signature, f) {
                    lemma_split_fuel(index, tcs1, remaining, *rest, closure, f, g);
                }
            }
        }
    }
}

/// Checking the body of a declaration does not depend on the fuel once it finishes.
pub proof fn lemma_body_fuel(tcs: TCS, body: LiftBody, n: nat, m: nat)
    requires
        n <= m,
        check_body_s(tcs, body, n) is Some,
    ensures
        check_body_s(tcs, body, m) == check_body_s(tcs, body, n),
    decreases n, 0nat,
{
    let f = (n - 1) as nat;
    let g = (m - 1) as nat;
    match body {
        LiftBody::Simple { index, pattern, signature, body } => {
            lemma_type_fuel(index, tcs, signature, f, g);
            if let Some(Ok((_, tcs1))) = check_type_s(index, tcs, signature, f) {
                lemma_eval_fuel(signature, tcs1.context, f, g);
                if let Some(sv) = eval_s(signature, tcs1.context, f) {
                    lemma_check_fuel(index, tcs1, body, sv, f, g);
                }
            }
        },
        LiftBody::Recursive { index, declaration } => {
            let pattern = declaration.pattern;
            lemma_type_fuel(index, tcs, declaration.signature, f, g);
            if let Some(Ok((_, tcs1))) = check_type_s(index, tcs, declaration.signature, f) {
                lemma_eval_fuel(declaration.signature, tcs1.context, f, g);
                if let Some(sv) = eval_s(declaration.signature, tcs1.context, f) {
                    lemma_tcs_update_fuel(tcs1, pattern, sv, generated(index), f, g);
                    if let Some(Ok(fake)) = tcs_update_s(tcs1, pattern, sv, generated(index), f) {
                        if index < u32::MAX {
                            lemma_check_fuel((index + 1) as u32, fake, declaration.body, sv, f, g);
                        }
                    }
                }
            }
        },
    }
}

/// Lifting prefix parameters does not depend on the fuel once it finishes.
pub proof fn lemma_lift_parameters_fuel(index: u32, tcs: TCS, parameters: List<Typed>, body: LiftBody, n: nat, m: nat)
    requires
        n <= m,
        check_lift_parameters_s(index, tcs, parameters, body, n) is Some,
    ensures
        check_lift_parameters_s(index, tcs, parameters, body, m) == check_lift_parameters_s(index, tcs, parameters, body, n),
    decreases n, 0nat,
{
    let f = (n - 1) as nat;
    let g = (m - 1) as nat;
    match parameters {
        List::Nil => lemma_body_fuel(tcs, body, f, g),
        List::Cons(parameter, rest) => {
            lemma_type_fuel(index, tcs, *parameter.expression, f, g);
            if let Some(Ok((_, tcs1))) = check_type_s(index, tcs, *parameter.expression, f) {
                lemma_eval_fuel(*parameter.expression, tcs1.context, f, g);
                if let Some(type_val) = eval_s(*parameter.expression, tcs1.context, f) {
                    lemma_tcs_update_fuel(tcs1, parameter.pattern, type_val, generated(index), f, g);
                    if let Some(Ok(tcs2)) = tcs_update_s(tcs1, parameter.pattern, type_val, generated(index), f) {
                        if index < u32::MAX {
                            lemma_lift_parameters_fuel((index + 1) as u32, tcs2, *rest, body, f, g);
                        }
                    }
                }
            }
        },
    }
}

/// Checking a recursive declaration does not depend on the fuel once it finishes.
pub proof fn lemma_recursive_declaration_fuel(index: u32, tcs: TCS, declaration: Declaration, n: nat, m: nat)
    requires
        n <= m,
        check_recursive_declaration_s(index, tcs, declaration, n) is Some,
    ensures
        check_recursive_declaration_s(index, tcs, declaration, m) == check_recursive_declaration_s(index, tcs, declaration, n),
    decreases n, 0nat,
{
    let f = (n - 1) as nat;
    let g = (m - 1) as nat;
    let pattern = declaration.pattern;
    lemma_type_fuel(index, tcs, declaration.signature, f, g);
    if let Some(Ok(_)) = check_type_s(index, tcs, declaration.signature, f) {
        lemma_eval_fuel(declaration.signature, tcs.context, f, g);
        if let Some(signature) = eval_s(declaration.signature, tcs.context, f) {
            lemma_tcs_update_fuel(tcs, pattern, signature, generated(index), f, g);
            if let Some(Ok(fake)) = tcs_update_s(tcs, pattern, signature, generated(index), f) {
                if index < u32::MAX {
                    lemma_check_fuel((index + 1) as u32, fake, declaration.body, signature, f, g);
                    if let Some(Ok(_)) = check_s((index + 1) as u32, fake, declaration.body, signature, f) {
                        lemma_update_gamma_lazy_fuel(
                            tcs.gamma,
                            pattern,
                            signature,
                            declaration.body,
                            std::rc::Rc::new(crate::ast::GenericTelescope::UpDec(tcs.context, declaration)),
                            f,
                            g,
                        );
                    }
                }
            }
        }
    }
}

/// Checking a non-recursive declaration does not depend on the fuel once it finishes.
pub proof fn lemma_simple_declaration_fuel(
    index: u32,
    tcs: TCS,
    pattern: Pattern,
    signature: Expression,
    body: Expression,
    n: nat,
    m: nat,
)
    requires
        n <= m,
        check_simple_declaration_s(index, tcs, pattern, signature, body, n) is Some,
    ensures
        check_simple_declaration_s(index, tcs, pattern, signature, body, m) == check_simple_declaration_s(
            index,
            tcs,
            pattern,
            signature,
            body,
            n,
        ),
    decreases n, 0nat,
{
    let f = (n - 1) as nat;
    let g = (m - 1) as nat;
    lemma_type_fuel(index, tcs, signature, f, g);
    if let Some(Ok((_, tcs1))) = check_type_s(index, tcs, signature, f) {
        lemma_eval_fuel(signature, tcs1.context, f, g);
        if let Some(sv) = eval_s(signature, tcs1.context, f) {
            lemma_check_fuel(index, tcs1, body, sv, f, g);
            if let Some(Ok(_)) = check_s(index, tcs1, body, sv, f) {
                lemma_update_gamma_lazy_fuel(tcs1.gamma, pattern, sv, body, tcs1.context, f, g);
            }
        }
    }
}

/// Checking a declaration does not depend on the fuel once it finishes.
pub proof fn lemma_declaration_fuel(index: u32, tcs: TCS, declaration: Declaration, n: nat, m: nat)
    requires
        n <= m,
        check_declaration_s(index, tcs, declaration, n) is Some,
    ensures
        check_declaration_s(index, tcs, declaration, m) == check_declaration_s(index, tcs, declaration, n),
    decreases n, 0nat,
{
    let f = (n - 1) as nat;
    let g = (m - 1) as nat;
    match declaration.prefix_parameters {
        List::Nil => {
            if !declaration.is_recursive {
                lemma_simple_declaration_fuel(
                    index,
                    tcs,
                    declaration.pattern,
                    declaration.signature,
                    declaration.body,
                    f,
                    g,
                );
            } else {
                lemma_recursive_declaration_fuel(index, tcs, declaration, f, g);
            }
        },
        List::Cons(_, _) => {
            let body = if !declaration.is_recursive {
                LiftBody::Simple {
                    index,
                    pattern: declaration.pattern,
                    signature: declaration.signature,
                    body: declaration.body,
                }
            } else {
                LiftBody::Recursive { index, declaration }
            };
            lemma_lift_parameters_fuel(index, tcs, declaration.prefix_parameters, body, f, g);
            if let Some(Ok((signature, lifted_body, _))) = check_lift_parameters_s(
                index,
                tcs,
                declaration.prefix_parameters,
                body,
                f,
            ) {
                lemma_eval_fuel(lifted_body, tcs.context, f, g);
                if let Some(body_val) = eval_s(lifted_body, tcs.context, f) {
                    lemma_eval_fuel(signature, tcs.context, f, g);
                    if let Some(signature_val) = eval_s(signature, tcs.context, f) {
                        lemma_update_gamma_fuel(tcs.gamma, declaration.pattern, signature_val, body_val, f, g);
                    }
                }
            }
        },
    }
}

} // verus!

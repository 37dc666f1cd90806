use vstd::prelude::*;

use crate::ast::{Branch, CaseTree, Closure, Declaration, Expression, Pattern, Typed, Value};
use crate::check::decl::{
    check_body_s, check_declaration_s, check_lift_parameters_s, check_recursive_declaration_s, check_simple_declaration_s,
    LiftBody,
};
use crate::check::expr::{
    first_duplicate, check_fallback_s, check_infer_s, check_merge_type_s, check_s, check_split_s, check_sum_type_s, check_telescoped_s,
    check_type_s, infer_binder_s, sum_type_loop_s,
};
use crate::check::read_back::generated;
use crate::check::rules::located_once;
use crate::check::subtype::{check_subtype_binder_s, check_subtype_s, check_subtype_sum_s};
use crate::check::tcm::{tcs_update_s, update_gamma_by_pair_s, update_gamma_lazy_s, update_gamma_s, Gamma, TCS};
use crate::eval::{eval_s, instantiate_s, reduce_s, spec_first, spec_second};
use crate::list::{branch_get, branch_keys, branch_remove, List};

verus! {

/// Type inference reports its errors located at most once: every located error holds
/// one that is not.
#[verifier::rlimit(40)]
pub proof fn lemma_infer_located(index: u32, tcs: TCS, e: Expression, fuel: nat)
    ensures
        check_infer_s(index, tcs, e, fuel) matches Some(Err(err)) ==> located_once(err),
    decreases fuel, 0nat,
{
    if fuel > 0 {
        let f = (fuel - 1) as nat;
        match e {
            Expression::Constructor(_, body) => lemma_infer_located(index, tcs, *body, f),
            Expression::Pair(left, right) => {
                lemma_infer_located(index, tcs, *left, f);
                if let Some(Ok(_)) = check_infer_s(index, tcs, *left, f) {
                    lemma_infer_located(index, tcs, *right, f);
                }
            },
            Expression::First(pair) => lemma_infer_located(index, tcs, *pair, f),
            Expression::Second(pair) => {
                lemma_infer_located(index, tcs, *pair, f);
            },
            Expression::Sum(branches) => lemma_sum_type_located(index, tcs, branches, f),
            Expression::Merge(left, right) => lemma_infer_merge_located(index, tcs, *left, *right, f),
            Expression::Pi(input, output) => lemma_infer_binder_located(index, tcs, input, *output, f),
            Expression::Sigma(input, output) => lemma_infer_binder_located(index, tcs, input, *output, f),
            Expression::Application(function, argument) => {
                match *function {
                    Expression::Lambda(pattern, Some(parameter_type), return_value) => {
                        let t = *parameter_type.internal;
                        lemma_check_located(index, tcs, *argument, t, f);
                        if let Some(Ok(tcs1)) = check_s(index, tcs, *argument, t, f) {
                            if index < u32::MAX {
                                lemma_tcs_update_located(tcs1, pattern, t, generated((index + 1) as u32), f);
                                if let Some(Ok(tcs2)) = tcs_update_s(tcs1, pattern, t, generated((index + 1) as u32), f) {
                                    lemma_infer_located((index + 1) as u32, tcs2, *return_value, f);
                                }
                            }
                        }
                    },
                    function => {
                        lemma_infer_located(index, tcs, function, f);
                        if let Some(Ok(Value::Pi(input, output))) = check_infer_s(index, tcs, function, f) {
                            lemma_check_located(index, tcs, *argument, *input, f);
                        }
                    },
                }
            },
            _ => {},
        }
    }
}

/// The merge case of `lemma_infer_located`.
pub proof fn lemma_infer_merge_located(index: u32, tcs: TCS, left: Expression, right: Expression, fuel: nat)
    ensures
        check_infer_s(index, tcs, Expression::Merge(Box::new(left), Box::new(right)), fuel + 1) matches Some(
            Err(err),
        ) ==> located_once(err),
    decreases fuel, 1nat,
{
    if let Some(Value::Sum(l)) = eval_s(left, tcs.context, fuel) {
        if let Some(Value::Sum(r)) = eval_s(right, tcs.context, fuel) {
            if first_duplicate(branch_keys(l), branch_keys(r)) is None {
                lemma_infer_located(index, tcs, left, fuel);
                if let Some(Ok(Value::Type(_))) = check_infer_s(index, tcs, left, fuel) {
                    lemma_infer_located(index, tcs, right, fuel);
                }
            }
        }
    }
}

/// The Pi and Sigma case of `lemma_infer_located`.
pub proof fn lemma_infer_binder_located(index: u32, tcs: TCS, input: Typed, output: Expression, fuel: nat)
    ensures
        infer_binder_s(index, tcs, input, output, fuel) matches Some(Err(err)) ==> located_once(err),
    decreases fuel, 0nat,
{
    if fuel > 0 {
        let f = (fuel - 1) as nat;
        lemma_type_located(index, tcs, *input.expression, f);
        if let Some(Ok((_, tcs1))) = check_type_s(index, tcs, *input.expression, f) {
            if let Some(input_type) = eval_s(*input.expression, tcs1.context, f) {
                lemma_update_gamma_located(tcs1.gamma, input.pattern, input_type, generated(index), f);
                if let Some(Ok(gamma)) = update_gamma_s(tcs1.gamma, input.pattern, input_type, generated(index), f) {
                    if index < u32::MAX {
                        lemma_type_located((index + 1) as u32, TCS { gamma, context: tcs1.context }, output, f);
                    }
                }
            }
        }
    }
}

/// Checking a type reports its errors located at most once.
pub proof fn lemma_type_located(index: u32, tcs: TCS, e: Expression, fuel: nat)
    ensures
        check_type_s(index, tcs, e, fuel) matches Some(Err(err)) ==> located_once(err),
    decreases fuel, 0nat,
{
    if fuel > 0 {
        let f = (fuel - 1) as nat;
        match e {
            Expression::Sum(constructors) => lemma_sum_type_located(index, tcs, constructors, f),
            Expression::Pi(first, second) => lemma_telescoped_located(index, tcs, first, *second, f),
            Expression::Sigma(first, second) => lemma_telescoped_located(index, tcs, first, *second, f),
            Expression::Merge(left, right) => lemma_merge_type_located(index, tcs, *left, *right, f),
            Expression::Type(_) => {},
            Expression::Void => {},
            Expression::One => {},
            e => {
                lemma_infer_located(index, tcs, e, f);
            },
        }
    }
}

/// Checking a merge of sums reports its errors located at most once.
pub proof fn lemma_merge_type_located(index: u32, tcs: TCS, left: Expression, right: Expression, fuel: nat)
    ensures
        check_merge_type_s(index, tcs, left, right, fuel) matches Some(Err(err)) ==> located_once(err),
    decreases fuel, 0nat,
{
    if fuel > 0 {
        let f = (fuel - 1) as nat;
        lemma_type_located(index, tcs, left, f);
        if let Some(Ok((_, tcs1))) = check_type_s(index, tcs, left, f) {
            lemma_type_located(index, tcs1, right, f);
        }
    }
}

/// Checking a sum type reports its errors located at most once.
pub proof fn lemma_sum_type_located(index: u32, tcs: TCS, constructors: Branch, fuel: nat)
    ensures
        check_sum_type_s(index, tcs, constructors, fuel) matches Some(Err(err)) ==> located_once(err),
    decreases fuel, 0nat,
{
    if fuel > 0 {
        let f = (fuel - 1) as nat;
        lemma_sum_type_loop_located(index, tcs, constructors, 0, (fuel - 1) as nat);
    }
}

/// The loop of `lemma_sum_type_located`.
pub proof fn lemma_sum_type_loop_located(index: u32, tcs: TCS, constructors: Branch, max: u32, fuel: nat)
    ensures
        sum_type_loop_s(index, tcs, constructors, max, fuel) matches Some(Err(err)) ==> located_once(err),
    decreases fuel, 0nat,
{
    if fuel > 0 {
        let f = (fuel - 1) as nat;
        if let List::Cons(entry, rest) = constructors {
            lemma_type_located(index, tcs, *entry.1, f);
            if let Some(Ok((level, tcs1))) = check_type_s(index, tcs, *entry.1, f) {
                lemma_sum_type_loop_located(index, tcs1, *rest, if level > max { level } else { max }, f);
            }
        }
    }
}

/// Checking a Pi or Sigma type reports its errors located at most once.
pub proof fn lemma_telescoped_located(index: u32, tcs: TCS, first: Typed, second: Expression, fuel: nat)
    ensures
        check_telescoped_s(index, tcs, first, second, fuel) matches Some(Err(err)) ==> located_once(err),
    decreases fuel, 0nat,
{
    if fuel > 0 {
        let f = (fuel - 1) as nat;
        lemma_type_located(index, tcs, *first.expression, f);
        if let Some(Ok((_, tcs1))) = check_type_s(index, tcs, *first.expression, f) {
            if let Some(t) = eval_s(*first.expression, tcs1.context, f) {
                lemma_tcs_update_located(tcs1, first.pattern, t, generated(index), f);
                if let Some(Ok(internal)) = tcs_update_s(tcs1, first.pattern, t, generated(index), f) {
                    if index < u32::MAX {
                        lemma_type_located((index + 1) as u32, internal, second, f);
                    }
                }
            }
        }
    }
}

/// Checking reports its errors located at most once.
pub proof fn lemma_check_located(index: u32, tcs: TCS, e: Expression, v: Value, fuel: nat)
    ensures
        check_s(index, tcs, e, v, fuel) matches Some(Err(err)) ==> located_once(err),
    decreases fuel, 0nat,
{
    if fuel > 0 {
        let f = (fuel - 1) as nat;
        match (e, v) {
            (Expression::Unit, Value::One) => {},
            (Expression::One, Value::Type(0)) => {},
            (Expression::Type(_), Value::Type(_)) => {},
            (Expression::Void, _) => {},
            (Expression::Lambda(pattern, _, body), Value::Pi(signature, closure)) => {
                lemma_tcs_update_located(tcs, pattern, *signature, generated(index), f);
                if let Some(Ok(fake)) = tcs_update_s(tcs, pattern, *signature, generated(index), f) {
                    if index < u32::MAX {
                        if let Some(t) = instantiate_s(closure, generated(index), f) {
                            lemma_check_located((index + 1) as u32, fake, *body, t, f);
                        }
                    }
                }
            },
            (Expression::Pair(first, second), Value::Sigma(first_type, second_type)) => {
                lemma_check_located(index, tcs, *first, *first_type, f);
                if let Some(Ok(tcs1)) = check_s(index, tcs, *first, *first_type, f) {
                    if let Some(fv) = eval_s(*first, tcs1.context, f) {
                        if let Some(t) = instantiate_s(second_type, fv, f) {
                            lemma_check_located(index, tcs1, *second, t, f);
                        }
                    }
                }
            },
            (Expression::Constructor(name, body), Value::Sum(constructors)) => {
                if let Some(case) = branch_get(constructors, name@) {
                    if let Some(t) = reduce_s(case, f) {
                        lemma_check_located(index, tcs, *body, t, f);
                    }
                }
            },
            (Expression::Sum(constructors), Value::Type(_)) => lemma_sum_type_located(index, tcs, constructors, f),
            (Expression::Merge(left, right), Value::Type(_)) => lemma_merge_type_located(index, tcs, *left, *right, f),
            (Expression::Sigma(first, second), Value::Type(_)) => lemma_telescoped_located(index, tcs, first, *second, f),
            (Expression::Pi(first, second), Value::Type(_)) => lemma_telescoped_located(index, tcs, first, *second, f),
            (Expression::Declaration(declaration, rest), rest_type) => {
                lemma_declaration_located(index, tcs, *declaration, f);
                if let Some(Ok(tcs1)) = check_declaration_s(index, tcs, *declaration, f) {
                    lemma_check_located(index, tcs1, *rest, rest_type, f);
                }
            },
            (Expression::Constant(pattern, body, rest), rest_type) => {
                lemma_infer_located(index, tcs, *body, f);
                if let Some(Ok(signature)) = check_infer_s(index, tcs, *body, f) {
                    if let Some(body_val) = eval_s(*body, tcs.context, f) {
                        lemma_tcs_update_located(tcs, pattern, signature, body_val, f);
                        if let Some(Ok(tcs1)) = tcs_update_s(tcs, pattern, signature, body_val, f) {
                            lemma_check_located(index, tcs1, *rest, rest_type, f);
                        }
                    }
                }
            },
            (Expression::Split(branches), Value::Pi(sum, closure)) => {
                match *sum {
                    Value::Sum(sum_branches) => lemma_split_located(index, tcs, branches, sum_branches, closure, f),
                    not_sum => lemma_fallback_located(
                        index,
                        tcs,
                        Expression::Split(branches),
                        Value::Pi(Box::new(not_sum), closure), f),
                }
            },
            (e, v) => lemma_fallback_located(index, tcs, e, v, f),
        }
    }
}

/// The fallback rule reports its errors located at most once.
pub proof fn lemma_fallback_located(index: u32, tcs: TCS, body: Expression, signature: Value, fuel: nat)
    ensures
        check_fallback_s(index, tcs, body, signature, fuel) matches Some(Err(err)) ==> located_once(err),
    decreases fuel, 0nat,
{
    if fuel > 0 {
        let f = (fuel - 1) as nat;
        lemma_infer_located(index, tcs, body, f);
        if let Some(Ok(inferred)) = check_infer_s(index, tcs, body, f) {
            lemma_subtype_located(index, tcs, inferred, signature, true, f);
        }
    }
}

/// Checking a case-split reports its errors located at most once.
pub proof fn lemma_split_located(
    index: u32,
    tcs: TCS,
    branches: Branch,
    sum_branches: CaseTree,
    closure: Closure,
    fuel: nat,
)
    ensures
        check_split_s(index, tcs, branches, sum_branches, closure, fuel) matches Some(Err(err)) ==> located_once(err),
    decreases fuel, 0nat,
{
    if fuel > 0 {
        let f = (fuel - 1) as nat;
        if let List::Cons(entry, rest) = sum_branches {
            let (found, remaining) = branch_remove(branches, entry.0@);
            if let Some(pattern_match) = found {
                if let Some(branch_value) = reduce_s(*entry.1, f) {
                    let signature = Value::Pi(Box::new(branch_value), Closure::Choice(Box::new(closure), entry.0));
                    lemma_check_located(index, tcs, pattern_match, signature, f);
                    if let Some(Ok(tcs1)) = check_s(index, tcs, pattern_match, signature, f) {
                        lemma_split_located(index, tcs1, remaining, *rest, closure, f);
                    }
                }
            }
        }
    }
}

/// Checking the body of a declaration reports its errors located at most once.
pub proof fn lemma_body_located(tcs: TCS, body: LiftBody, fuel: nat)
    ensures
        check_body_s(tcs, body, fuel) matches Some(Err(err)) ==> located_once(err),
    decreases fuel, 0nat,
{
    if fuel > 0 {
        let f = (fuel - 1) as nat;
        match body {
            LiftBody::Simple { index, pattern, signature, body } => {
                lemma_type_located(index, tcs, signature, f);
                if let Some(Ok((_, tcs1))) = check_type_s(index, tcs, signature, f) {
                    if let Some(sv) = eval_s(signature, tcs1.context, f) {
                        lemma_check_located(index, tcs1, body, sv, f);
                    }
                }
            },
            LiftBody::Recursive { index, declaration } => {
                let pattern = declaration.pattern;
                lemma_type_located(index, tcs, declaration.signature, f);
                if let Some(Ok((_, tcs1))) = check_type_s(index, tcs, declaration.signature, f) {
                    if let Some(sv) = eval_s(declaration.signature, tcs1.context, f) {
                        lemma_tcs_update_located(tcs1, pattern, sv, generated(index), f);
                        if let Some(Ok(fake)) = tcs_update_s(tcs1, pattern, sv, generated(index), f) {
                            if index < u32::MAX {
                                lemma_check_located((index + 1) as u32, fake, declaration.body, sv, f);
                            }
                        }
                    }
                }
            },
        }
    }
}

/// Lifting prefix parameters reports its errors located at most once.
pub proof fn lemma_lift_parameters_located(index: u32, tcs: TCS, parameters: List<Typed>, body: LiftBody, fuel: nat)
    ensures
        check_lift_parameters_s(index, tcs, parameters, body, fuel) matches Some(Err(err)) ==> located_once(err),
    decreases fuel, 0nat,
{
    if fuel > 0 {
        let f = (fuel - 1) as nat;
        match parameters {
            List::Nil => lemma_body_located(tcs, body, f),
            List::Cons(parameter, rest) => {
                lemma_type_located(index, tcs, *parameter.expression, f);
                if let Some(Ok((_, tcs1))) = check_type_s(index, tcs, *parameter.expression, f) {
                    if let Some(type_val) = eval_s(*parameter.expression, tcs1.context, f) {
                        lemma_tcs_update_located(tcs1, parameter.pattern, type_val, generated(index), f);
                        if let Some(Ok(tcs2)) = tcs_update_s(tcs1, parameter.pattern, type_val, generated(index), f) {
                            if index < u32::MAX {
                                lemma_lift_parameters_located((index + 1) as u32, tcs2, *rest, body, f);
                            }
                        }
                    }
                }
            },
        }
    }
}

/// Checking a recursive declaration reports its errors located at most once.
pub proof fn lemma_recursive_declaration_located(index: u32, tcs: TCS, declaration: Declaration, fuel: nat)
    ensures
        check_recursive_declaration_s(index, tcs, declaration, fuel) matches Some(Err(err)) ==> located_once(err),
    decreases fuel, 0nat,
{
    if fuel > 0 {
        let f = (fuel - 1) as nat;
        let pattern = declaration.pattern;
        lemma_type_located(index, tcs, declaration.signature, f);
        if let Some(Ok(_)) = check_type_s(index, tcs, declaration.signature, f) {
            if let Some(signature) = eval_s(declaration.signature, tcs.context, f) {
                lemma_tcs_update_located(tcs, pattern, signature, generated(index), f);
                if let Some(Ok(fake)) = tcs_update_s(tcs, pattern, signature, generated(index), f) {
                    if index < u32::MAX {
                        lemma_check_located((index + 1) as u32, fake, declaration.body, signature, f);
                        if let Some(Ok(_)) = check_s((index + 1) as u32, fake, declaration.body, signature, f) {
                            lemma_update_gamma_lazy_located(
                                tcs.gamma,
                                pattern,
                                signature,
                                declaration.body,
                                std::rc::Rc::new(crate::ast::GenericTelescope::UpDec(tcs.context, declaration)), f);
                        }
                    }
                }
            }
        }
    }
}

/// Checking a non-recursive declaration reports its errors located at most once.
pub proof fn lemma_simple_declaration_located(
    index: u32,
    tcs: TCS,
    pattern: Pattern,
    signature: Expression,
    body: Expression,
    fuel: nat,
)
    ensures
        check_simple_declaration_s(index, tcs, pattern, signature, body, fuel) matches Some(Err(err)) ==> located_once(err),
    decreases fuel, 0nat,
{
    if fuel > 0 {
        let f = (fuel - 1) as nat;
        lemma_type_located(index, tcs, signature, f);
        if let Some(Ok((_, tcs1))) = check_type_s(index, tcs, signature, f) {
            if let Some(sv) = eval_s(signature, tcs1.context, f) {
                lemma_check_located(index, tcs1, body, sv, f);
                if let Some(Ok(_)) = check_s(index, tcs1, body, sv, f) {
                    lemma_update_gamma_lazy_located(tcs1.gamma, pattern, sv, body, tcs1.context, f);
                }
            }
        }
    }
}

/// Checking a declaration reports its errors located at most once.
pub proof fn lemma_declaration_located(index: u32, tcs: TCS, declaration: Declaration, fuel: nat)
    ensures
        check_declaration_s(index, tcs, declaration, fuel) matches Some(Err(err)) ==> located_once(err),
    decreases fuel, 0nat,
{
    if fuel > 0 {
        let f = (fuel - 1) as nat;
        match declaration.prefix_parameters {
            List::Nil => {
                if !declaration.is_recursive {
                    lemma_simple_declaration_located(
                        index,
                        tcs,
                        declaration.pattern,
                        declaration.signature,
                        declaration.body,
                        f,
                    );
                } else {
                    lemma_recursive_declaration_located(index, tcs, declaration, f);
                }
            },
            List::Cons(_, _) => {
                let body = if !declaration.is_recursive {
                    LiftBody::Simple {
                        index,
                        pattern: declaration.pattern,
                        signature: declaration.signature,
                        body: declaration.body,
                    }
                } else {
                    LiftBody::Recursive { index, declaration }
                };
                lemma_lift_parameters_located(index, tcs, declaration.prefix_parameters, body, f);
                if let Some(Ok((signature, lifted_body, _))) = check_lift_parameters_s(
                    index,
                    tcs,
                    declaration.prefix_parameters,
                    body,
                    f,
                ) {
                    if let Some(body_val) = eval_s(lifted_body, tcs.context, f) {
                        if let Some(signature_val) = eval_s(signature, tcs.context, f) {
                            lemma_update_gamma_located(tcs.gamma, declaration.pattern, signature_val, body_val, f);
                        }
                    }
                }
            },
        }
    }
}

/// Updating the typing context reports its errors located at most once.
pub proof fn lemma_update_gamma_located(gamma: Gamma, pattern: Pattern, type_val: Value, body: Value, fuel: nat)
    ensures
        update_gamma_s(gamma, pattern, type_val, body, fuel) matches Some(Err(err)) ==> located_once(err),
    decreases fuel,
{
    if fuel > 0 {
        if let Pattern::Pair(first, second) = pattern {
            if let Value::Sigma(t, g) = type_val {
                lemma_update_gamma_by_pair_located(gamma, *first, *second, *t, g, body, (fuel - 1) as nat);
            }
        }
    }
}

/// The pair case of `lemma_update_gamma_located`.
pub proof fn lemma_update_gamma_by_pair_located(
    gamma: Gamma,
    pattern_first: Pattern,
    pattern_second: Pattern,
    first: Value,
    second: Closure,
    generated_val: Value,
    fuel: nat,
)
    ensures
        update_gamma_by_pair_s(gamma, pattern_first, pattern_second, first, second, generated_val, fuel) matches Some(
            Err(err),
        ) ==> located_once(err),
    decreases fuel,
{
    if fuel > 0 {
        let f = (fuel - 1) as nat;
        if let (Some(val_first), Some(val_second)) = (spec_first(generated_val), spec_second(generated_val)) {
            lemma_update_gamma_located(gamma, pattern_first, first, val_first, f);
            if let Some(Ok(g1)) = update_gamma_s(gamma, pattern_first, first, val_first, f) {
                if let Some(second_type) = instantiate_s(second, val_first, f) {
                    lemma_update_gamma_located(g1, pattern_second, second_type, val_second, f);
                }
            }
        }
    }
}

/// The lazy update reports its errors located at most once.
pub proof fn lemma_update_gamma_lazy_located(
    gamma: Gamma,
    pattern: Pattern,
    type_val: Value,
    body: Expression,
    context: crate::ast::Telescope,
    fuel: nat,
)
    ensures
        update_gamma_lazy_s(gamma, pattern, type_val, body, context, fuel) matches Some(Err(err)) ==> located_once(err),
{
    if fuel > 0 {
        let f = (fuel - 1) as nat;
        if let Pattern::Pair(first, second) = pattern {
            if let Value::Sigma(t, c) = type_val {
                if let Some(v) = eval_s(body, context, f) {
                    lemma_update_gamma_by_pair_located(gamma, *first, *second, *t, c, v, f);
                }
            }
        }
    }
}

/// Binding a pattern in a state reports its errors located at most once.
pub proof fn lemma_tcs_update_located(tcs: TCS, pattern: Pattern, type_val: Value, body: Value, fuel: nat)
    ensures
        tcs_update_s(tcs, pattern, type_val, body, fuel) matches Some(Err(err)) ==> located_once(err),
{
    lemma_update_gamma_located(tcs.gamma, pattern, type_val, body, fuel);
}

/// Subtyping reports its errors located at most once (it never locates them).
pub proof fn lemma_subtype_located(index: u32, tcs: TCS, subtype: Value, supertype: Value, read_back: bool, fuel: nat)
    ensures
        check_subtype_s(index, tcs, subtype, supertype, read_back, fuel) matches Some(Err(err)) ==> located_once(err),
    decreases fuel,
{
    if fuel > 0 {
        let f = (fuel - 1) as nat;
        match (subtype, supertype) {
            (Value::Sum(a), Value::Sum(b)) => lemma_subtype_sum_located(index, tcs, a, b, f),
            (Value::Pi(a, c), Value::Pi(b, d)) => lemma_subtype_binder_located(index, tcs, *a, c, *b, d, f),
            (Value::Sigma(a, c), Value::Sigma(b, d)) => lemma_subtype_binder_located(index, tcs, *a, c, *b, d, f),
            _ => {},
        }
    }
}

/// The Pi and Sigma case of `lemma_subtype_located`.
pub proof fn lemma_subtype_binder_located(
    index: u32,
    tcs: TCS,
    sub_param: Value,
    sub_closure: Closure,
    super_param: Value,
    super_closure: Closure,
    fuel: nat,
)
    ensures
        check_subtype_binder_s(index, tcs, sub_param, sub_closure, super_param, super_closure, fuel) matches Some(
            Err(err),
        ) ==> located_once(err),
    decreases fuel,
{
    if fuel > 0 {
        let f = (fuel - 1) as nat;
        lemma_subtype_located(index, tcs, super_param, sub_param, true, f);
        if let Some(Ok(tcs1)) = check_subtype_s(index, tcs, super_param, sub_param, true, f) {
            if index < u32::MAX {
                if let Some(sub_body) = instantiate_s(sub_closure, generated(index), f) {
                    if let Some(super_body) = instantiate_s(super_closure, generated(index), f) {
                        lemma_subtype_located((index + 1) as u32, tcs1, sub_body, super_body, true, f);
                    }
                }
            }
        }
    }
}

/// The sum case of `lemma_subtype_located`.
pub proof fn lemma_subtype_sum_located(index: u32, tcs: TCS, sub_tree: CaseTree, super_tree: CaseTree, fuel: nat)
    ensures
        check_subtype_sum_s(index, tcs, sub_tree, super_tree, fuel) matches Some(Err(err)) ==> located_once(err),
    decreases fuel,
{
    if fuel > 0 {
        let f = (fuel - 1) as nat;
        if let List::Cons(entry, rest) = sub_tree {
            let (found, super_rest) = branch_remove(super_tree, entry.0@);
            if let Some(super_case) = found {
                if let Some(sub_parameter) = reduce_s(*entry.1, f) {
                    if let Some(super_parameter) = reduce_s(super_case, f) {
                        lemma_subtype_located(index, tcs, sub_parameter, super_parameter, false, f);
                        lemma_subtype_sum_located(index, tcs, *rest, super_rest, f);
                    }
                }
            }
        }
    }
}

} // verus!

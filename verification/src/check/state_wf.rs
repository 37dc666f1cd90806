use vstd::prelude::*;

use crate::ast::{Branch, CaseTree, Closure, Declaration, Expression, Typed, Value};
use crate::check::decl::{check_declaration_s, check_simple_declaration_s, check_recursive_declaration_s};
use crate::check::expr::{
    check_fallback_s, check_infer_s, check_merge_type_s, check_s, check_split_s, check_sum_type_s, check_telescoped_s,
    check_type_s, sum_type_loop_s,
};
use crate::check::subtype::lemma_subtype_keeps_state;
use crate::check::tcm::{
    lemma_tcs_update_keeps, lemma_update_gamma_keeps, lemma_update_gamma_lazy_keeps, tcs_update_s, Gamma, TCM, TCS,
};
use crate::eval::{eval_s, instantiate_s, reduce_s};
use crate::list::{branch_remove, branch_wf, List};

verus! {

/// A result whose state, if any, has a well-formed typing context.
pub open spec fn state_wf(r: Option<TCM<TCS>>) -> bool {
    match r {
        Some(Ok(t)) => branch_wf(t.gamma),
        _ => true,
    }
}

/// A result with a level whose state, if any, has a well-formed typing context.
pub open spec fn level_state_wf(r: Option<TCM<(u32, TCS)>>) -> bool {
    match r {
        Some(Ok(t)) => branch_wf(t.1.gamma),
        _ => true,
    }
}

/// A typing context result that, if any, is well formed.
pub open spec fn gamma_wf(r: Option<TCM<Gamma>>) -> bool {
    match r {
        Some(Ok(g)) => branch_wf(g),
        _ => true,
    }
}

/// Checking keeps the invariant of the state: from a typing context that names each
/// variable once, `check` gives one that names each variable once.
pub proof fn lemma_check_keeps_wf(index: u32, tcs: TCS, e: Expression, v: Value, fuel: nat)
    requires
        branch_wf(tcs.gamma),
    ensures
        state_wf(check_s(index, tcs, e, v, fuel)),
    decreases fuel,
{
    if fuel > 0 {
        let f = (fuel - 1) as nat;
        match (e, v) {
            (Expression::Unit, Value::One) => {},
            (Expression::One, Value::Type(0)) => {},
            (Expression::Type(_), Value::Type(_)) => {},
            (Expression::Void, _) => {},
            (Expression::Lambda(_, _, _), Value::Pi(_, _)) => {},
            (Expression::Pair(first, second), Value::Sigma(first_type, second_type)) => {
                lemma_check_keeps_wf(index, tcs, *first, *first_type, f);
                if let Some(Ok(tcs1)) = check_s(index, tcs, *first, *first_type, f) {
                    if let Some(fv) = eval_s(*first, tcs1.context, f) {
                        if let Some(t) = instantiate_s(second_type, fv, f) {
                            lemma_check_keeps_wf(index, tcs1, *second, t, f);
                        }
                    }
                }
            },
            (Expression::Constructor(name, body), Value::Sum(constructors)) => {
                if let Some(case) = crate::list::branch_get(constructors, name@) {
                    if let Some(t) = reduce_s(case, f) {
                        lemma_check_keeps_wf(index, tcs, *body, t, f);
                    }
                }
            },
            (Expression::Sum(constructors), Value::Type(_)) => lemma_sum_type_keeps_wf(index, tcs, constructors, f),
            (Expression::Merge(left, right), Value::Type(_)) => lemma_merge_type_keeps_wf(index, tcs, *left, *right, f),
            (Expression::Sigma(first, second), Value::Type(_)) => lemma_telescoped_keeps_wf(index, tcs, first, *second, f),
            (Expression::Pi(first, second), Value::Type(_)) => lemma_telescoped_keeps_wf(index, tcs, first, *second, f),
            (Expression::Declaration(declaration, rest), rest_type) => {
                lemma_declaration_keeps_wf(index, tcs, *declaration, f);
                if let Some(Ok(tcs1)) = check_declaration_s(index, tcs, *declaration, f) {
                    lemma_check_keeps_wf(index, tcs1, *rest, rest_type, f);
                }
            },
            (Expression::Constant(pattern, body, rest), rest_type) => {
                if let Some(Ok(signature)) = check_infer_s(index, tcs, *body, f) {
                    if let Some(body_val) = eval_s(*body, tcs.context, f) {
                        lemma_tcs_update_keeps(tcs, pattern, signature, body_val, f);
                        if let Some(Ok(tcs1)) = tcs_update_s(tcs, pattern, signature, body_val, f) {
                            lemma_check_keeps_wf(index, tcs1, *rest, rest_type, f);
                        }
                    }
                }
            },
            (Expression::Split(branches), Value::Pi(sum, closure)) => {
                match *sum {
                    Value::Sum(sum_branches) => lemma_split_keeps_wf(index, tcs, branches, sum_branches, closure, f),
                    not_sum => lemma_fallback_keeps_wf(
                        index,
                        tcs,
                        Expression::Split(branches),
                        Value::Pi(Box::new(not_sum), closure),
                        f,
                    ),
                }
            },
            (e, v) => lemma_fallback_keeps_wf(index, tcs, e, v, f),
        }
    }
}

/// The fallback rule returns the state it was given.
pub proof fn lemma_fallback_keeps_wf(index: u32, tcs: TCS, body: Expression, signature: Value, fuel: nat)
    requires
        branch_wf(tcs.gamma),
    ensures
        state_wf(check_fallback_s(index, tcs, body, signature, fuel)),
    decreases fuel,
{
    if fuel > 0 {
        let f = (fuel - 1) as nat;
        if let Some(Ok(inferred)) = check_infer_s(index, tcs, body, f) {
            lemma_subtype_keeps_state(index, tcs, inferred, signature, true, f);
        }
    }
}

/// Checking the clauses of a case-split keeps the invariant of the state.
pub proof fn lemma_split_keeps_wf(
    index: u32,
    tcs: TCS,
    branches: Branch,
    sum_branches: CaseTree,
    closure: Closure,
    fuel: nat,
)
    requires
        branch_wf(tcs.gamma),
    ensures
        state_wf(check_split_s(index, tcs, branches, sum_branches, closure, fuel)),
    decreases fuel,
{
    if fuel > 0 {
        let f = (fuel - 1) as nat;
        if let List::Cons(entry, rest) = sum_branches {
            let (found, remaining) = branch_remove(branches, entry.0@);
            if let Some(pattern_match) = found {
                if let Some(branch_value) = reduce_s(*entry.1, f) {
                    let signature = Value::Pi(Box::new(branch_value), Closure::Choice(Box::new(closure), entry.0));
                    lemma_check_keeps_wf(index, tcs, pattern_match, signature, f);
                    if let Some(Ok(tcs1)) = check_s(index, tcs, pattern_match, signature, f) {
                        lemma_split_keeps_wf(index, tcs1, remaining, *rest, closure, f);
                    }
                }
            }
        }
    }
}

/// Checking a type keeps the invariant of the state.
pub proof fn lemma_type_keeps_wf(index: u32, tcs: TCS, e: Expression, fuel: nat)
    requires
        branch_wf(tcs.gamma),
    ensures
        level_state_wf(check_type_s(index, tcs, e, fuel)),
    decreases fuel,
{
    if fuel > 0 {
        let f = (fuel - 1) as nat;
        match e {
            Expression::Sum(constructors) => lemma_sum_type_keeps_wf(index, tcs, constructors, f),
            Expression::Pi(first, second) => lemma_telescoped_keeps_wf(index, tcs, first, *second, f),
            Expression::Sigma(first, second) => lemma_telescoped_keeps_wf(index, tcs, first, *second, f),
            Expression::Merge(left, right) => lemma_merge_type_keeps_wf(index, tcs, *left, *right, f),
            _ => {},
        }
    }
}

/// Checking a merge of sums keeps the invariant of the state.
pub proof fn lemma_merge_type_keeps_wf(index: u32, tcs: TCS, left: Expression, right: Expression, fuel: nat)
    requires
        branch_wf(tcs.gamma),
    ensures
        level_state_wf(check_merge_type_s(index, tcs, left, right, fuel)),
    decreases fuel,
{
    if fuel > 0 {
        let f = (fuel - 1) as nat;
        lemma_type_keeps_wf(index, tcs, left, f);
        if let Some(Ok((_, tcs1))) = check_type_s(index, tcs, left, f) {
            lemma_type_keeps_wf(index, tcs1, right, f);
        }
    }
}

/// Checking a sum type keeps the invariant of the state.
pub proof fn lemma_sum_type_keeps_wf(index: u32, tcs: TCS, constructors: Branch, fuel: nat)
    requires
        branch_wf(tcs.gamma),
    ensures
        level_state_wf(check_sum_type_s(index, tcs, constructors, fuel)),
    decreases fuel,
{
    if fuel > 0 {
        lemma_sum_type_loop_keeps_wf(index, tcs, constructors, 0, (fuel - 1) as nat);
    }
}

/// Checking the constructors of a sum type keeps the invariant of the state.
pub proof fn lemma_sum_type_loop_keeps_wf(index: u32, tcs: TCS, constructors: Branch, max: u32, fuel: nat)
    requires
        branch_wf(tcs.gamma),
    ensures
        level_state_wf(sum_type_loop_s(index, tcs, constructors, max, fuel)),
    decreases fuel,
{
    if fuel > 0 {
        let f = (fuel - 1) as nat;
        if let List::Cons(entry, rest) = constructors {
            lemma_type_keeps_wf(index, tcs, *entry.1, f);
            if let Some(Ok((level, tcs1))) = check_type_s(index, tcs, *entry.1, f) {
                lemma_sum_type_loop_keeps_wf(index, tcs1, *rest, if level > max { level } else { max }, f);
            }
        }
    }
}

/// Checking a Pi or Sigma type keeps the invariant of the state.
pub proof fn lemma_telescoped_keeps_wf(index: u32, tcs: TCS, first: Typed, second: Expression, fuel: nat)
    requires
        branch_wf(tcs.gamma),
    ensures
        level_state_wf(check_telescoped_s(index, tcs, first, second, fuel)),
    decreases fuel,
{
    if fuel > 0 {
        lemma_type_keeps_wf(index, tcs, *first.expression, (fuel - 1) as nat);
    }
}

/// Checking a declaration keeps the invariant of the state.
pub proof fn lemma_declaration_keeps_wf(index: u32, tcs: TCS, declaration: Declaration, fuel: nat)
    requires
        branch_wf(tcs.gamma),
    ensures
        state_wf(check_declaration_s(index, tcs, declaration, fuel)),
    decreases fuel,
{
    if fuel > 0 {
        let f = (fuel - 1) as nat;
        match declaration.prefix_parameters {
            List::Nil => {
                if !declaration.is_recursive {
                    lemma_simple_declaration_keeps_wf(
                        index,
                        tcs,
                        declaration.pattern,
                        declaration.signature,
                        declaration.body,
                        f,
                    );
                } else {
                    lemma_recursive_declaration_keeps_wf(index, tcs, declaration, f);
                }
            },
            List::Cons(_, _) => {
                let body = crate::check::decl::check_lift_parameters_s(
                    index,
                    tcs,
                    declaration.prefix_parameters,
                    if !declaration.is_recursive {
                        crate::check::decl::LiftBody::Simple {
                            index,
                            pattern: declaration.pattern,
                            signature: declaration.signature,
                            body: declaration.body,
                        }
                    } else {
                        crate::check::decl::LiftBody::Recursive { index, declaration }
                    },
                    f,
                );
                if let Some(Ok((signature, lifted_body, _))) = body {
                    if let Some(body_val) = eval_s(lifted_body, tcs.context, f) {
                        if let Some(signature_val) = eval_s(signature, tcs.context, f) {
                            lemma_update_gamma_keeps(
                                tcs.gamma,
                                declaration.pattern,
                                signature_val,
                                body_val,
                                Seq::empty(),
                                f,
                            );
                        }
                    }
                }
            },
        }
    }
}

/// A non-recursive declaration gives a well-formed typing context.
pub proof fn lemma_simple_declaration_keeps_wf(
    index: u32,
    tcs: TCS,
    pattern: crate::ast::Pattern,
    signature: Expression,
    body: Expression,
    fuel: nat,
)
    requires
        branch_wf(tcs.gamma),
    ensures
        gamma_wf(check_simple_declaration_s(index, tcs, pattern, signature, body, fuel)),
    decreases fuel,
{
    if fuel > 0 {
        let f = (fuel - 1) as nat;
        lemma_type_keeps_wf(index, tcs, signature, f);
        if let Some(Ok((_, tcs1))) = check_type_s(index, tcs, signature, f) {
            if let Some(sv) = eval_s(signature, tcs1.context, f) {
                lemma_update_gamma_lazy_keeps(tcs1.gamma, pattern, sv, body, tcs1.context, Seq::empty(), f);
            }
        }
    }
}

/// A recursive declaration gives a well-formed typing context.
pub proof fn lemma_recursive_declaration_keeps_wf(index: u32, tcs: TCS, declaration: Declaration, fuel: nat)
    requires
        branch_wf(tcs.gamma),
    ensures
        gamma_wf(check_recursive_declaration_s(index, tcs, declaration, fuel)),
{
    if fuel > 0 {
        let f = (fuel - 1) as nat;
        if let Some(signature) = eval_s(declaration.signature, tcs.context, f) {
            lemma_update_gamma_lazy_keeps(
                tcs.gamma,
                declaration.pattern,
                signature,
                declaration.body,
                std::rc::Rc::new(crate::ast::GenericTelescope::UpDec(tcs.context, declaration)),
                Seq::empty(),
                f,
            );
        }
    }
}

} // verus!

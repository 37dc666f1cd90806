use vstd::prelude::*;

use crate::ast::{CaseTree, Value};
use crate::check::read_back::{
    generate_value, generated, lemma_normal_equiv_refl, lemma_rb_value_fuel, normal_eq, normal_equiv, rb_value_s, ReadBack,
};
use crate::check::tcm::{TCE, TCM, TCS};
use crate::eval::{instantiate_s, lemma_instantiate_fuel, lemma_reduce_fuel, reduce_s, MAX_FUEL};
use crate::list::{
    branch_get, branch_remove, branch_remove_exec, branch_wf, lemma_branch_remove_get, lemma_keys_above_absent, Duplicate, List,
};

verus! {

/// Reads back both types and compares the normal forms.
pub open spec fn compare_normal_s(index: u32, tcs: TCS, subtype: Value, supertype: Value, fuel: nat) -> Option<TCM<TCS>> {
    match rb_value_s(subtype, index, fuel) {
        Some(inferred) => match rb_value_s(supertype, index, fuel) {
            Some(expected) => Some(if normal_equiv(inferred, expected) {
                Ok(tcs)
            } else {
                Err(TCE::ReadBackTypeMismatch(inferred, expected))
            }),
            None => None,
        },
        None => None,
    }
}

/// Whether `subtype` is a subtype of `supertype`: `Type_i <: Type_j` for `i <= j`,
/// sums by their cases, Pi and Sigma types contravariantly in the parameter and
/// covariantly in the body; otherwise the normal forms must agree (if `read_back`).
pub open spec fn check_subtype_s(index: u32, tcs: TCS, subtype: Value, supertype: Value, read_back: bool, fuel: nat) -> Option<TCM<TCS>>
    decreases fuel,
{
    if fuel == 0 {
        None
    } else {
        let f = (fuel - 1) as nat;
        match (subtype, supertype) {
            (Value::Type(sub_level), Value::Type(super_level)) => Some(if sub_level <= super_level {
                Ok(tcs)
            } else {
                Err(TCE::TypeMismatch(Value::Type(sub_level), Value::Type(super_level)))
            }),
            (Value::Sum(sub_tree), Value::Sum(super_tree)) => check_subtype_sum_s(index, tcs, sub_tree, super_tree, f),
            (Value::Pi(sub_param, sub_closure), Value::Pi(super_param, super_closure)) => check_subtype_binder_s(
                index, tcs, *sub_param, sub_closure, *super_param, super_closure, f),
            (Value::Sigma(sub_param, sub_closure), Value::Sigma(super_param, super_closure)) => check_subtype_binder_s(
                index, tcs, *sub_param, sub_closure, *super_param, super_closure, f),
            (subtype, supertype) => if read_back {
                compare_normal_s(index, tcs, subtype, supertype, f)
            } else {
                Some(Err(TCE::TypeMismatch(subtype, supertype)))
            },
        }
    }
}

pub open spec fn check_subtype_binder_s(
    index: u32,
    tcs: TCS,
    sub_param: Value,
    sub_closure: crate::ast::Closure,
    super_param: Value,
    super_closure: crate::ast::Closure,
    fuel: nat,
) -> Option<TCM<TCS>>
    decreases fuel,
{
    if fuel == 0 {
        None
    } else {
        let f = (fuel - 1) as nat;
        match check_subtype_s(index, tcs, super_param, sub_param, true, f) {
            Some(Ok(tcs)) => if index == u32::MAX {
                None
            } else {
                match instantiate_s(sub_closure, generated(index), f) {
                    Some(sub_body) => match instantiate_s(super_closure, generated(index), f) {
                        Some(super_body) => match check_subtype_s((index + 1) as u32, tcs, sub_body, super_body, true, f) {
                            Some(Ok(_)) => Some(Ok(tcs)),
                            Some(Err(e)) => Some(Err(e)),
                            None => None,
                        },
                        None => None,
                    },
                    None => None,
                }
            },
            Some(Err(e)) => Some(Err(e)),
            None => None,
        }
    }
}

/// Every case of `sub_tree` must occur in `super_tree` with a parameter type of equal
/// normal form or a subtype of it (without falling back to read-back).
pub open spec fn check_subtype_sum_s(index: u32, tcs: TCS, sub_tree: CaseTree, super_tree: CaseTree, fuel: nat) -> Option<TCM<TCS>>
    decreases fuel,
{
    if fuel == 0 {
        None
    } else {
        let f = (fuel - 1) as nat;
        match sub_tree {
            List::Nil => Some(Ok(tcs)),
            List::Cons(entry, rest) => {
                let (found, super_rest) = branch_remove(super_tree, entry.0@);
                match found {
                    None => Some(Err(TCE::UnexpectedCases(List::Cons(entry.0, Box::new(List::Nil))))),
                    Some(super_case) => match reduce_s(*entry.1, f) {
                        Some(sub_parameter) => match reduce_s(super_case, f) {
                            Some(super_parameter) => match compare_normal_s(index, tcs, sub_parameter, super_parameter, f) {
                                Some(Ok(_)) => check_subtype_sum_s(index, tcs, *rest, super_rest, f),
                                Some(Err(_)) => match check_subtype_s(index, tcs, sub_parameter, super_parameter, false, f) {
                                    Some(Ok(_)) => check_subtype_sum_s(index, tcs, *rest, super_rest, f),
                                    Some(Err(e)) => Some(Err(e)),
                                    None => None,
                                },
                                None => None,
                            },
                            None => None,
                        },
                        None => None,
                    },
                }
            },
        }
    }
}

/// Reads back the two type values and compares them syntactically, with at most
/// `fuel` nested steps.
pub fn compare_normal_fuel(index: u32, tcs: TCS, subtype: Value, supertype: Value, fuel: u64) -> (r: Option<TCM<TCS>>)
    ensures
        r == compare_normal_s(index, tcs, subtype, supertype, fuel as nat),
{
    let inferred_normal = match subtype.read_back_fuel(index, fuel) {
        Some(n) => n,
        None => return None,
    };
    let expected_normal = match supertype.read_back_fuel(index, fuel) {
        Some(n) => n,
        None => return None,
    };
    if normal_eq(&inferred_normal, &expected_normal) {
        Some(Ok(tcs))
    } else {
        Some(Err(TCE::ReadBackTypeMismatch(inferred_normal, expected_normal)))
    }
}

/// Reads back the type values and compares them syntactically.
pub fn compare_normal(index: u32, tcs: TCS, subtype: Value, supertype: Value) -> (r: TCM<TCS>)
    requires
        compare_normal_s(index, tcs, subtype, supertype, MAX_FUEL as nat) is Some,
    ensures
        Some(r) == compare_normal_s(index, tcs, subtype, supertype, MAX_FUEL as nat),
{
    match compare_normal_fuel(index, tcs, subtype, supertype, MAX_FUEL) {
        Some(r) => r,
        None => vstd::pervasive::unreached(),
    }
}

/// Checks that `subtype` is a subtype of `supertype`, with at most `fuel` nested steps.
pub fn check_subtype_fuel(index: u32, tcs: TCS, subtype: Value, supertype: Value, read_back: bool, fuel: u64) -> (r: Option<TCM<TCS>>)
    ensures
        r == check_subtype_s(index, tcs, subtype, supertype, read_back, fuel as nat),
    decreases fuel,
{
    if fuel == 0 {
        return None;
    }
    let f = fuel - 1;
    match (subtype, supertype) {
        (Value::Type(sub_level), Value::Type(super_level)) => Some(if sub_level <= super_level {
            Ok(tcs)
        } else {
            Err(TCE::TypeMismatch(Value::Type(sub_level), Value::Type(super_level)))
        }),
        (Value::Sum(sub_tree), Value::Sum(super_tree)) => check_subtype_sum_fuel(index, tcs, sub_tree, super_tree, f),
        (Value::Pi(sub_param, sub_closure), Value::Pi(super_param, super_closure)) => check_subtype_binder(
            index, tcs, *sub_param, sub_closure, *super_param, super_closure, f),
        (Value::Sigma(sub_param, sub_closure), Value::Sigma(super_param, super_closure)) => check_subtype_binder(
            index, tcs, *sub_param, sub_closure, *super_param, super_closure, f),
        (subtype, supertype) => if read_back {
            compare_normal_fuel(index, tcs, subtype, supertype, f)
        } else {
            Some(Err(TCE::TypeMismatch(subtype, supertype)))
        },
    }
}

fn check_subtype_binder(
    index: u32,
    tcs: TCS,
    sub_param: Value,
    sub_closure: crate::ast::Closure,
    super_param: Value,
    super_closure: crate::ast::Closure,
    fuel: u64,
) -> (r: Option<TCM<TCS>>)
    ensures
        r == check_subtype_binder_s(index, tcs, sub_param, sub_closure, super_param, super_closure, fuel as nat),
    decreases fuel,
{
    if fuel == 0 {
        return None;
    }
    let f = fuel - 1;
    let tcs = match check_subtype_fuel(index, tcs, super_param, sub_param, true, f) {
        Some(Ok(tcs)) => tcs,
        Some(Err(e)) => return Some(Err(e)),
        None => return None,
    };
    if index == u32::MAX {
        return None;
    }
    let generated = generate_value(index);
    let sub_body = match sub_closure.instantiate_fuel(generated.duplicate(), f) {
        Some(v) => v,
        None => return None,
    };
    let super_body = match super_closure.instantiate_fuel(generated, f) {
        Some(v) => v,
        None => return None,
    };
    match check_subtype_fuel(index + 1, tcs.duplicate(), sub_body, super_body, true, f) {
        Some(Ok(_)) => Some(Ok(tcs)),
        Some(Err(e)) => Some(Err(e)),
        None => None,
    }
}

/// Checks a sum against a sum, case by case, with at most `fuel` nested steps.
pub fn check_subtype_sum_fuel(index: u32, tcs: TCS, sub_tree: CaseTree, super_tree: CaseTree, fuel: u64) -> (r: Option<TCM<TCS>>)
    ensures
        r == check_subtype_sum_s(index, tcs, sub_tree, super_tree, fuel as nat),
    decreases fuel,
{
    if fuel == 0 {
        return None;
    }
    let f = fuel - 1;
    match sub_tree {
        List::Nil => Some(Ok(tcs)),
        List::Cons(entry, rest) => {
            let (found, super_rest) = branch_remove_exec(super_tree, entry.0.as_str());
            match found {
                None => Some(Err(TCE::UnexpectedCases(List::Cons(entry.0, Box::new(List::Nil))))),
                Some(super_case) => {
                    let sub_parameter = match (*entry.1).reduce_to_value_fuel(f) {
                        Some(v) => v,
                        None => return None,
                    };
                    let super_parameter = match super_case.reduce_to_value_fuel(f) {
                        Some(v) => v,
                        None => return None,
                    };
                    match compare_normal_fuel(index, tcs.duplicate(), sub_parameter.duplicate(), super_parameter.duplicate(), f) {
                        Some(Ok(_)) => check_subtype_sum_fuel(index, tcs, *rest, super_rest, f),
                        Some(Err(_)) => match check_subtype_fuel(index, tcs.duplicate(), sub_parameter, super_parameter, false, f) {
                            Some(Ok(_)) => check_subtype_sum_fuel(index, tcs, *rest, super_rest, f),
                            Some(Err(e)) => Some(Err(e)),
                            None => None,
                        },
                        None => None,
                    }
                },
            }
        },
    }
}

/// Checks that `subtype` is a subtype of `supertype`.
pub fn check_subtype(index: u32, tcs: TCS, subtype: Value, supertype: Value, read_back: bool) -> (r: TCM<TCS>)
    requires
        check_subtype_s(index, tcs, subtype, supertype, read_back, MAX_FUEL as nat) is Some,
    ensures
        Some(r) == check_subtype_s(index, tcs, subtype, supertype, read_back, MAX_FUEL as nat),
{
    match check_subtype_fuel(index, tcs, subtype, supertype, read_back, MAX_FUEL) {
        Some(r) => r,
        None => vstd::pervasive::unreached(),
    }
}

/// Checks a sum type against another, case by case.
pub fn check_subtype_sum(index: u32, tcs: TCS, sub_tree: CaseTree, super_tree: CaseTree) -> (r: TCM<TCS>)
    requires
        check_subtype_sum_s(index, tcs, sub_tree, super_tree, MAX_FUEL as nat) is Some,
    ensures
        Some(r) == check_subtype_sum_s(index, tcs, sub_tree, super_tree, MAX_FUEL as nat),
{
    match check_subtype_sum_fuel(index, tcs, sub_tree, super_tree, MAX_FUEL) {
        Some(r) => r,
        None => vstd::pervasive::unreached(),
    }
}


/// Universes are cumulative: `Type_a` is a subtype of `Type_b` exactly when
/// `a <= b`; otherwise the answer is a type mismatch of the two.
pub proof fn lemma_subtype_universe(index: u32, tcs: TCS, a: crate::ast::Level, b: crate::ast::Level, read_back: bool, fuel: nat)
    requires
        fuel > 0,
    ensures
        check_subtype_s(index, tcs, Value::Type(a), Value::Type(b), read_back, fuel) == Some(
            if a <= b {
                Ok::<TCS, TCE>(tcs)
            } else {
                Err(TCE::TypeMismatch(Value::Type(a), Value::Type(b)))
            },
        ),
{
}

/// Comparing the normal forms of a type with itself succeeds wherever the normal
/// form can be computed.
pub proof fn lemma_compare_normal_reflexive(index: u32, tcs: TCS, t: Value, fuel: nat)
    requires
        rb_value_s(t, index, fuel) is Some,
    ensures
        compare_normal_s(index, tcs, t, t, fuel) == Some(Ok::<TCS, TCE>(tcs)),
{
    lemma_normal_equiv_refl(rb_value_s(t, index, fuel).unwrap());
}

/// Subtyping is reflexive: a type is never rejected as a subtype of itself.
pub proof fn lemma_subtype_reflexive(index: u32, tcs: TCS, t: Value, fuel: nat)
    ensures
        !(check_subtype_s(index, tcs, t, t, true, fuel) matches Some(Err(_))),
    decreases fuel,
{
    if fuel > 0 {
        let f = (fuel - 1) as nat;
        match t {
            Value::Type(_) => {},
            Value::Sum(tree) => lemma_subtype_sum_reflexive(index, tcs, tree, f),
            Value::Pi(p, c) => lemma_subtype_binder_reflexive(index, tcs, *p, c, f),
            Value::Sigma(p, c) => lemma_subtype_binder_reflexive(index, tcs, *p, c, f),
            _ => {
                if rb_value_s(t, index, f) is Some {
                    lemma_compare_normal_reflexive(index, tcs, t, f);
                }
            },
        }
    }
}

/// A Pi or Sigma type is never rejected as a subtype of itself.
pub proof fn lemma_subtype_binder_reflexive(index: u32, tcs: TCS, p: Value, c: crate::ast::Closure, fuel: nat)
    ensures
        !(check_subtype_binder_s(index, tcs, p, c, p, c, fuel) matches Some(Err(_))),
    decreases fuel,
{
    if fuel > 0 {
        let f = (fuel - 1) as nat;
        lemma_subtype_reflexive(index, tcs, p, f);
        if let Some(Ok(tcs2)) = check_subtype_s(index, tcs, p, p, true, f) {
            if index < u32::MAX {
                if let Some(body) = instantiate_s(c, generated(index), f) {
                    lemma_subtype_reflexive((index + 1) as u32, tcs2, body, f);
                }
            }
        }
    }
}

/// A sum is never rejected as a subtype of itself.
pub proof fn lemma_subtype_sum_reflexive(index: u32, tcs: TCS, tree: CaseTree, fuel: nat)
    ensures
        !(check_subtype_sum_s(index, tcs, tree, tree, fuel) matches Some(Err(_))),
    decreases fuel,
{
    if fuel > 0 {
        let f = (fuel - 1) as nat;
        if let List::Cons(entry, rest) = tree {
            if let Some(parameter) = reduce_s(*entry.1, f) {
                if rb_value_s(parameter, index, f) is Some {
                    lemma_compare_normal_reflexive(index, tcs, parameter, f);
                    lemma_subtype_sum_reflexive(index, tcs, *rest, f);
                }
            }
        }
    }
}


/// A sum is a subtype of every sum that has its cases (`Sum { A }` is a subtype of
/// `Sum { A | B }`): checking the cases never fails.
pub proof fn lemma_subtype_sum_included(index: u32, tcs: TCS, sub_tree: CaseTree, super_tree: CaseTree, fuel: nat)
    requires
        branch_wf(sub_tree),
        forall|name: Seq<char>| #[trigger]
            branch_get(sub_tree, name) is Some ==> branch_get(super_tree, name) == branch_get(sub_tree, name),
    ensures
        !(check_subtype_sum_s(index, tcs, sub_tree, super_tree, fuel) matches Some(Err(_))),
    decreases fuel,
{
    if fuel > 0 {
        let f = (fuel - 1) as nat;
        if let List::Cons(entry, rest) = sub_tree {
            let key = entry.0@;
            assert(branch_get(sub_tree, key) is Some);
            lemma_branch_remove_get(super_tree, key, key);
            let super_rest = branch_remove(super_tree, key).1;
            lemma_keys_above_absent(*rest, key);
            assert forall|name: Seq<char>| #[trigger] branch_get(*rest, name) is Some implies branch_get(super_rest, name)
                == branch_get(*rest, name) by {
                assert(name != key);
                assert(branch_get(sub_tree, name) == branch_get(*rest, name));
                lemma_branch_remove_get(super_tree, key, name);
            }
            if let Some(parameter) = reduce_s(*entry.1, f) {
                if rb_value_s(parameter, index, f) is Some {
                    lemma_compare_normal_reflexive(index, tcs, parameter, f);
                    lemma_subtype_sum_included(index, tcs, *rest, super_rest, f);
                }
            }
        }
    }
}

/// `Sum { A }` is a subtype of `Sum { A | B }`: a sum type is never rejected as a
/// subtype of a sum type that has all its cases.
pub proof fn lemma_subtype_sum_value(index: u32, tcs: TCS, sub_tree: CaseTree, super_tree: CaseTree, read_back: bool, fuel: nat)
    requires
        branch_wf(sub_tree),
        forall|name: Seq<char>| #[trigger]
            branch_get(sub_tree, name) is Some ==> branch_get(super_tree, name) == branch_get(sub_tree, name),
    ensures
        !(check_subtype_s(index, tcs, Value::Sum(sub_tree), Value::Sum(super_tree), read_back, fuel) matches Some(Err(_))),
{
    if fuel > 0 {
        lemma_subtype_sum_included(index, tcs, sub_tree, super_tree, (fuel - 1) as nat);
    }
}


/// Subtyping only answers: where it succeeds, the state is the one it was given.
pub proof fn lemma_subtype_keeps_state(index: u32, tcs: TCS, subtype: Value, supertype: Value, read_back: bool, fuel: nat)
    ensures
        check_subtype_s(index, tcs, subtype, supertype, read_back, fuel) matches Some(Ok(t)) ==> t == tcs,
    decreases fuel,
{
    if fuel > 0 {
        let f = (fuel - 1) as nat;
        match (subtype, supertype) {
            (Value::Sum(a), Value::Sum(b)) => lemma_subtype_sum_keeps_state(index, tcs, a, b, f),
            (Value::Pi(a, c), Value::Pi(b, d)) => lemma_subtype_binder_keeps_state(index, tcs, *a, c, *b, d, f),
            (Value::Sigma(a, c), Value::Sigma(b, d)) => lemma_subtype_binder_keeps_state(index, tcs, *a, c, *b, d, f),
            _ => {},
        }
    }
}

/// The Pi and Sigma case of `lemma_subtype_keeps_state`.
pub proof fn lemma_subtype_binder_keeps_state(
    index: u32,
    tcs: TCS,
    sub_param: Value,
    sub_closure: crate::ast::Closure,
    super_param: Value,
    super_closure: crate::ast::Closure,
    fuel: nat,
)
    ensures
        check_subtype_binder_s(index, tcs, sub_param, sub_closure, super_param, super_closure, fuel) matches Some(Ok(t))
            ==> t == tcs,
    decreases fuel,
{
    if fuel > 0 {
        lemma_subtype_keeps_state(index, tcs, super_param, sub_param, true, (fuel - 1) as nat);
    }
}

/// The sum case of `lemma_subtype_keeps_state`.
pub proof fn lemma_subtype_sum_keeps_state(index: u32, tcs: TCS, sub_tree: CaseTree, super_tree: CaseTree, fuel: nat)
    ensures
        check_subtype_sum_s(index, tcs, sub_tree, super_tree, fuel) matches Some(Ok(t)) ==> t == tcs,
    decreases fuel,
{
    if fuel > 0 {
        let f = (fuel - 1) as nat;
        if let List::Cons(entry, rest) = sub_tree {
            let super_rest = branch_remove(super_tree, entry.0@).1;
            lemma_subtype_sum_keeps_state(index, tcs, *rest, super_rest, f);
        }
    }
}


/// Comparing normal forms does not depend on the fuel once it finishes.
pub proof fn lemma_compare_normal_fuel(index: u32, tcs: TCS, subtype: Value, supertype: Value, n: nat, m: nat)
    requires
        n <= m,
        compare_normal_s(index, tcs, subtype, supertype, n) is Some,
    ensures
        compare_normal_s(index, tcs, subtype, supertype, m) == compare_normal_s(index, tcs, subtype, supertype, n),
{
    lemma_rb_value_fuel(subtype, index, n, m);
    lemma_rb_value_fuel(supertype, index, n, m);
}

/// Subtyping does not depend on the fuel once it finishes.
pub proof fn lemma_subtype_fuel(index: u32, tcs: TCS, subtype: Value, supertype: Value, read_back: bool, n: nat, m: nat)
    requires
        n <= m,
        check_subtype_s(index, tcs, subtype, supertype, read_back, n) is Some,
    ensures
        check_subtype_s(index, tcs, subtype, supertype, read_back, m) == check_subtype_s(
            index,
            tcs,
            subtype,
            supertype,
            read_back,
            n,
        ),
    decreases n,
{
    let f = (n - 1) as nat;
    let g = (m - 1) as nat;
    match (subtype, supertype) {
        (Value::Type(_), Value::Type(_)) => {},
        (Value::Sum(a), Value::Sum(b)) => lemma_subtype_sum_fuel(index, tcs, a, b, f, g),
        (Value::Pi(a, c), Value::Pi(b, d)) => lemma_subtype_binder_fuel(index, tcs, *a, c, *b, d, f, g),
        (Value::Sigma(a, c), Value::Sigma(b, d)) => lemma_subtype_binder_fuel(index, tcs, *a, c, *b, d, f, g),
        _ => {
            if read_back {
                lemma_compare_normal_fuel(index, tcs, subtype, supertype, f, g);
            }
        },
    }
}

/// The Pi and Sigma case of `lemma_subtype_fuel`.
pub proof fn lemma_subtype_binder_fuel(
    index: u32,
    tcs: TCS,
    sub_param: Value,
    sub_closure: crate::ast::Closure,
    super_param: Value,
    super_closure: crate::ast::Closure,
    n: nat,
    m: nat,
)
    requires
        n <= m,
        check_subtype_binder_s(index, tcs, sub_param, sub_closure, super_param, super_closure, n) is Some,
    ensures
        check_subtype_binder_s(index, tcs, sub_param, sub_closure, super_param, super_closure, m)
            == check_subtype_binder_s(index, tcs, sub_param, sub_closure, super_param, super_closure, n),
    decreases n,
{
    let f = (n - 1) as nat;
    let g = (m - 1) as nat;
    lemma_subtype_fuel(index, tcs, super_param, sub_param, true, f, g);
    if let Some(Ok(tcs1)) = check_subtype_s(index, tcs, super_param, sub_param, true, f) {
        if index < u32::MAX {
            lemma_instantiate_fuel(sub_closure, generated(index), f, g);
            if let Some(sub_body) = instantiate_s(sub_closure, generated(index), f) {
                lemma_instantiate_fuel(super_closure, generated(index), f, g);
                if let Some(super_body) = instantiate_s(super_closure, generated(index), f) {
                    lemma_subtype_fuel((index + 1) as u32, tcs1, sub_body, super_body, true, f, g);
                }
            }
        }
    }
}

/// The sum case of `lemma_subtype_fuel`.
pub proof fn lemma_subtype_sum_fuel(index: u32, tcs: TCS, sub_tree: CaseTree, super_tree: CaseTree, n: nat, m: nat)
    requires
        n <= m,
        check_subtype_sum_s(index, tcs, sub_tree, super_tree, n) is Some,
    ensures
        check_subtype_sum_s(index, tcs, sub_tree, super_tree, m) == check_subtype_sum_s(index, tcs, sub_tree, super_tree, n),
    decreases n,
{
    let f = (n - 1) as nat;
    let g = (m - 1) as nat;
    if let List::Cons(entry, rest) = sub_tree {
        let (found, super_rest) = branch_remove(super_tree, entry.0@);
        if let Some(super_case) = found {
            lemma_reduce_fuel(*entry.1, f, g);
            if let Some(sub_parameter) = reduce_s(*entry.1, f) {
                lemma_reduce_fuel(super_case, f, g);
                if let Some(super_parameter) = reduce_s(super_case, f) {
                    lemma_compare_normal_fuel(index, tcs, sub_parameter, super_parameter, f, g);
                    match compare_normal_s(index, tcs, sub_parameter, super_parameter, f) {
                        Some(Ok(_)) => lemma_subtype_sum_fuel(index, tcs, *rest, super_rest, f, g),
                        Some(Err(_)) => {
                            lemma_subtype_fuel(index, tcs, sub_parameter, super_parameter, false, f, g);
                            if let Some(Ok(_)) = check_subtype_s(index, tcs, sub_parameter, super_parameter, false, f) {
                                lemma_subtype_sum_fuel(index, tcs, *rest, super_rest, f, g);
                            }
                        },
                        None => {},
                    }
                }
            }
        }
    }
}


/// Subtyping with the read-back fallback is reflexive: where the check of a type
/// against itself finishes, it succeeds and gives back the state it was given.
pub proof fn lemma_subtype_reflexive_state(index: u32, tcs: TCS, t: Value, fuel: nat)
    requires
        check_subtype_s(index, tcs, t, t, true, fuel) is Some,
    ensures
        check_subtype_s(index, tcs, t, t, true, fuel) == Some(Ok::<TCS, TCE>(tcs)),
{
    lemma_subtype_reflexive(index, tcs, t, fuel);
    lemma_subtype_keeps_state(index, tcs, t, t, true, fuel);
}

} // verus!

use vstd::prelude::*;

use crate::ast::{Branch, CaseTree, Closure, Either, Expression, GenericCase, Level, Typed, Value};
use crate::check::decl::{check_declaration_fuel, check_declaration_s};
use crate::check::read_back::{generate_value, generated};
use crate::check::subtype::{check_subtype_fuel, check_subtype_s};
use crate::check::tcm::{tcs_update_s, update_gamma_fuel_pub, update_gamma_s, TCE, TCM, TCS};
use crate::eval::{eval_s, instantiate_s, level_s, max_level, reduce_s, spec_first, MAX_FUEL};
use crate::list::{
    branch_get, branch_get_exec, branch_keys, branch_keys_exec, branch_remove, branch_remove_exec, names_contain,
    names_contain_exec, Duplicate, List,
};

verus! {

/// The first name of `left` that also occurs in `right`.
pub open spec fn first_duplicate(left: List<String>, right: List<String>) -> Option<String>
    decreases left,
{
    match left {
        List::Nil => None,
        List::Cons(name, rest) => if names_contain(right, name@) {
            Some(name)
        } else {
            first_duplicate(*rest, right)
        },
    }
}

/// `checkI` in Mini-TT: infers the type of an expression, with at most `fuel` nested
/// steps (`None` where inference gets stuck, overflows or does not finish).
pub open spec fn check_infer_s(index: u32, tcs: TCS, e: Expression, fuel: nat) -> Option<TCM<Value>>
    decreases fuel,
{
    if fuel == 0 {
        None
    } else {
        let f = (fuel - 1) as nat;
        match e {
            Expression::Unit => Some(Ok(Value::One)),
            Expression::Type(level) => if level == u32::MAX {
                None
            } else {
                Some(Ok(Value::Type((level + 1) as u32)))
            },
            Expression::Void => Some(Ok(Value::Type(0))),
            Expression::One => Some(Ok(Value::Type(0))),
            Expression::Var(name) => Some(match branch_get(tcs.gamma, name@) {
                Some(t) => Ok(t),
                None => Err(TCE::UnresolvedName(name)),
            }),
            Expression::Constructor(name, body) => match check_infer_s(index, tcs, *body, f) {
                Some(Ok(inferred)) => Some(Ok(Value::Sum(List::Cons(
                    (name, Box::new(GenericCase { expression: Either::Left(inferred), context: tcs.context })),
                    Box::new(List::Nil),
                )))),
                Some(Err(err)) => Some(Err(err)),
                None => None,
            },
            Expression::Pair(left, right) => match check_infer_s(index, tcs, *left, f) {
                Some(Ok(l)) => match check_infer_s(index, tcs, *right, f) {
                    Some(Ok(r)) => Some(Ok(Value::Sigma(Box::new(l), Closure::Value(Box::new(r))))),
                    Some(Err(err)) => Some(Err(err)),
                    None => None,
                },
                Some(Err(err)) => Some(Err(err)),
                None => None,
            },
            Expression::First(pair) => match check_infer_s(index, tcs, *pair, f) {
                Some(Ok(Value::Sigma(first, _))) => Some(Ok(*first)),
                Some(Ok(v)) => Some(Err(TCE::WantSigmaBut(v))),
                Some(Err(err)) => Some(Err(err)),
                None => None,
            },
            Expression::Second(pair) => match check_infer_s(index, tcs, *pair, f) {
                Some(Ok(Value::Sigma(_, second))) => match eval_s(*pair, tcs.context, f) {
                    Some(v) => match spec_first(v) {
                        Some(v1) => match instantiate_s(second, v1, f) {
                            Some(t) => Some(Ok(t)),
                            None => None,
                        },
                        None => None,
                    },
                    None => None,
                },
                Some(Ok(v)) => Some(Err(TCE::WantSigmaBut(v))),
                Some(Err(err)) => Some(Err(err)),
                None => None,
            },
            Expression::Sum(branches) => match check_sum_type_s(index, tcs, branches, f) {
                Some(Ok((level, _))) => Some(Ok(Value::Type(level))),
                Some(Err(err)) => Some(Err(err)),
                None => None,
            },
            Expression::Merge(left, right) => match eval_s(*left, tcs.context, f) {
                Some(lv) => if !(lv matches Value::Sum(_)) {
                    Some(Err(TCE::WantSumBut(Either::Right(*left))))
                } else {
                    match eval_s(*right, tcs.context, f) {
                        Some(rv) => if !(rv matches Value::Sum(_)) {
                            Some(Err(TCE::WantSumBut(Either::Right(*right))))
                        } else if first_duplicate(branch_keys(lv->Sum_0), branch_keys(rv->Sum_0)) is Some {
                            Some(Err(TCE::DuplicateBranch(first_duplicate(branch_keys(lv->Sum_0), branch_keys(rv->Sum_0))->Some_0)))
                        } else {
                            match check_infer_s(index, tcs, *left, f) {
                                Some(Ok(Value::Type(left_level))) => match check_infer_s(index, tcs, *right, f) {
                                    Some(Ok(Value::Type(right_level))) => Some(Ok(Value::Type(max_level(left_level, right_level)))),
                                    Some(Ok(v)) => Some(Err(TCE::WantSumBut(Either::Left(v)))),
                                    Some(Err(err)) => Some(Err(err)),
                                    None => None,
                                },
                                Some(Ok(v)) => Some(Err(TCE::WantSumBut(Either::Left(v)))),
                                Some(Err(err)) => Some(Err(err)),
                                None => None,
                            }
                        },
                        None => None,
                    }
                },
                None => None,
            },
            Expression::Pi(input, output) => infer_binder_s(index, tcs, input, *output, f),
            Expression::Sigma(input, output) => infer_binder_s(index, tcs, input, *output, f),
            Expression::Application(function, argument) => match *function {
                Expression::Lambda(pattern, Some(parameter_type), return_value) => {
                    let t = *parameter_type.internal;
                    match check_s(index, tcs, *argument, t, f) {
                        Some(Ok(tcs1)) => if index == u32::MAX {
                            None
                        } else {
                            match tcs_update_s(tcs1, pattern, t, generated((index + 1) as u32), f) {
                                Some(Ok(tcs2)) => check_infer_s((index + 1) as u32, tcs2, *return_value, f),
                                Some(Err(err)) => Some(Err(err)),
                                None => None,
                            }
                        },
                        Some(Err(err)) => Some(Err(err)),
                        None => None,
                    }
                },
                function => match check_infer_s(index, tcs, function, f) {
                    Some(Ok(Value::Pi(input, output))) => match check_s(index, tcs, *argument, *input, f) {
                        Some(Ok(_)) => match eval_s(*argument, tcs.context, f) {
                            Some(av) => match instantiate_s(output, av, f) {
                                Some(t) => Some(Ok(t)),
                                None => None,
                            },
                            None => None,
                        },
                        Some(Err(err)) => Some(Err(err)),
                        None => None,
                    },
                    Some(Ok(v)) => Some(Err(TCE::WantPiBut(v, *argument))),
                    Some(Err(err)) => Some(Err(err)),
                    None => None,
                },
            },
            Expression::Declaration(_, _) => Some(Err(TCE::Unreachable("src/check/expr.rs", 649, 51))),
            Expression::Constant(_, _, _) => Some(Err(TCE::Unreachable("src/check/expr.rs", 649, 51))),
            e => Some(Err(TCE::CannotInfer(e))),
        }
    }
}

/// Infers the type of `\Pi p: A. B` or `\Sigma p: A. B`: the greater of the levels.
pub open spec fn infer_binder_s(index: u32, tcs: TCS, input: Typed, output: Expression, fuel: nat) -> Option<TCM<Value>>
    decreases fuel,
{
    if fuel == 0 {
        None
    } else {
        let f = (fuel - 1) as nat;
        match check_type_s(index, tcs, *input.expression, f) {
            Some(Ok((left_level, tcs1))) => match eval_s(*input.expression, tcs1.context, f) {
                Some(input_type) => match update_gamma_s(tcs1.gamma, input.pattern, input_type, generated(index), f) {
                    Some(Ok(gamma)) => if index == u32::MAX {
                        None
                    } else {
                        match check_type_s((index + 1) as u32, TCS { gamma, context: tcs1.context }, output, f) {
                            Some(Ok((right_level, _))) => Some(Ok(Value::Type(max_level(left_level, right_level)))),
                            Some(Err(err)) => Some(Err(err)),
                            None => None,
                        }
                    },
                    Some(Err(err)) => Some(Err(err)),
                    None => None,
                },
                None => None,
            },
            Some(Err(err)) => Some(Err(err)),
            None => None,
        }
    }
}

/// `checkT` in Mini-TT: checks that an expression is a type; returns its level.
pub open spec fn check_type_s(index: u32, tcs: TCS, e: Expression, fuel: nat) -> Option<TCM<(Level, TCS)>>
    decreases fuel,
{
    if fuel == 0 {
        None
    } else {
        let f = (fuel - 1) as nat;
        match e {
            Expression::Sum(constructors) => check_sum_type_s(index, tcs, constructors, f),
            Expression::Pi(first, second) => check_telescoped_s(index, tcs, first, *second, f),
            Expression::Sigma(first, second) => check_telescoped_s(index, tcs, first, *second, f),
            Expression::Merge(left, right) => check_merge_type_s(index, tcs, *left, *right, f),
            Expression::Type(level) => if level == u32::MAX {
                None
            } else {
                Some(Ok(((level + 1) as u32, tcs)))
            },
            Expression::Void => Some(Ok((0, tcs))),
            Expression::One => Some(Ok((0, tcs))),
            e => match check_infer_s(index, tcs, e, f) {
                Some(Ok(inferred)) => match level_s(inferred, f) {
                    Some(Some(level)) => if level > 0 {
                        Some(Ok(((level - 1) as u32, tcs)))
                    } else {
                        Some(Err(TCE::NotTypeType(inferred)))
                    },
                    Some(None) => Some(Err(TCE::NotTypeType(inferred))),
                    None => None,
                },
                Some(Err(err)) => Some(Err(err)),
                None => None,
            },
        }
    }
}

/// Checks that both sides of `A ++ B` are types that evaluate to sums without a
/// constructor in common.
pub open spec fn check_merge_type_s(index: u32, tcs: TCS, left: Expression, right: Expression, fuel: nat) -> Option<TCM<(Level, TCS)>>
    decreases fuel,
{
    if fuel == 0 {
        None
    } else {
        let f = (fuel - 1) as nat;
        match check_type_s(index, tcs, left, f) {
            Some(Ok((left_level, tcs1))) => match check_type_s(index, tcs1, right, f) {
                Some(Ok((right_level, tcs2))) => match eval_s(left, tcs2.context, f) {
                    Some(Value::Sum(left_branches)) => match eval_s(right, tcs2.context, f) {
                        Some(Value::Sum(right_branches)) => Some(
                            match first_duplicate(branch_keys(left_branches), branch_keys(right_branches)) {
                                Some(name) => Err(TCE::DuplicateBranch(name)),
                                None => Ok((max_level(left_level, right_level), tcs2)),
                            },
                        ),
                        Some(_) => Some(Err(TCE::WantSumBut(Either::Right(right)))),
                        None => None,
                    },
                    Some(_) => Some(Err(TCE::WantSumBut(Either::Right(left)))),
                    None => None,
                },
                Some(Err(err)) => Some(Err(err)),
                None => None,
            },
            Some(Err(err)) => Some(Err(err)),
            None => None,
        }
    }
}

/// Level comparison: `Type_i <: Type_j` for `i <= j`.
pub open spec fn check_level_s(level: u32, actual: (u32, TCS)) -> TCM<TCS> {
    if actual.0 <= level {
        Ok(actual.1)
    } else {
        Err(TCE::LevelMismatch(actual.0, level))
    }
}

pub open spec fn check_level_opt_s(level: u32, r: Option<TCM<(Level, TCS)>>) -> Option<TCM<TCS>> {
    match r {
        Some(Ok(actual)) => Some(check_level_s(level, actual)),
        Some(Err(err)) => Some(Err(err)),
        None => None,
    }
}

/// `check` in Mini-TT: checks that an expression is an instance of a type, keeping
/// the typing and evaluation contexts.
pub open spec fn check_s(index: u32, tcs: TCS, e: Expression, v: Value, fuel: nat) -> Option<TCM<TCS>>
    decreases fuel,
{
    if fuel == 0 {
        None
    } else {
        let f = (fuel - 1) as nat;
        match (e, v) {
            (Expression::Unit, Value::One) => Some(Ok(tcs)),
            (Expression::One, Value::Type(0)) => Some(Ok(tcs)),
            (Expression::Type(low), Value::Type(high)) => if low < high {
                Some(Ok(tcs))
            } else if low == u32::MAX {
                None
            } else {
                Some(Err(TCE::TypeMismatch(Value::Type((low + 1) as u32), Value::Type(high))))
            },
            (Expression::Void, _) => Some(Ok(tcs)),
            (Expression::Lambda(pattern, _, body), Value::Pi(signature, closure)) => match tcs_update_s(
                tcs, pattern, *signature, generated(index), f) {
                Some(Ok(fake)) => if index == u32::MAX {
                    None
                } else {
                    match instantiate_s(closure, generated(index), f) {
                        Some(t) => match check_s((index + 1) as u32, fake, *body, t, f) {
                            Some(Ok(_)) => Some(Ok(tcs)),
                            Some(Err(err)) => Some(Err(err)),
                            None => None,
                        },
                        None => None,
                    }
                },
                Some(Err(err)) => Some(Err(err)),
                None => None,
            },
            (Expression::Pair(first, second), Value::Sigma(first_type, second_type)) => match check_s(
                index, tcs, *first, *first_type, f) {
                Some(Ok(tcs1)) => match eval_s(*first, tcs1.context, f) {
                    Some(fv) => match instantiate_s(second_type, fv, f) {
                        Some(t) => check_s(index, tcs1, *second, t, f),
                        None => None,
                    },
                    None => None,
                },
                Some(Err(err)) => Some(Err(err)),
                None => None,
            },
            (Expression::Constructor(name, body), Value::Sum(constructors)) => match branch_get(constructors, name@) {
                Some(case) => match reduce_s(case, f) {
                    Some(t) => check_s(index, tcs, *body, t, f),
                    None => None,
                },
                None => Some(Err(TCE::InvalidConstructor(name))),
            },
            (Expression::Sum(constructors), Value::Type(level)) => check_level_opt_s(
                level, check_sum_type_s(index, tcs, constructors, f)),
            (Expression::Merge(left, right), Value::Type(level)) => check_level_opt_s(
                level, check_merge_type_s(index, tcs, *left, *right, f)),
            (Expression::Sigma(first, second), Value::Type(level)) => check_level_opt_s(
                level, check_telescoped_s(index, tcs, first, *second, f)),
            (Expression::Pi(first, second), Value::Type(level)) => check_level_opt_s(
                level, check_telescoped_s(index, tcs, first, *second, f)),
            (Expression::Declaration(declaration, rest), rest_type) => match check_declaration_s(
                index, tcs, *declaration, f) {
                Some(Ok(tcs1)) => check_s(index, tcs1, *rest, rest_type, f),
                Some(Err(err)) => Some(Err(err)),
                None => None,
            },
            (Expression::Constant(pattern, body, rest), rest_type) => match check_infer_s(index, tcs, *body, f) {
                Some(Ok(signature)) => match eval_s(*body, tcs.context, f) {
                    Some(body_val) => match tcs_update_s(tcs, pattern, signature, body_val, f) {
                        Some(Ok(tcs1)) => check_s(index, tcs1, *rest, rest_type, f),
                        Some(Err(err)) => Some(Err(err)),
                        None => None,
                    },
                    None => None,
                },
                Some(Err(err)) => Some(Err(err)),
                None => None,
            },
            (Expression::Split(branches), Value::Pi(sum, closure)) => match *sum {
                Value::Sum(sum_branches) => check_split_s(index, tcs, branches, sum_branches, closure, f),
                not_sum => check_fallback_s(
                    index, tcs, Expression::Split(branches), Value::Pi(Box::new(not_sum), closure), f),
            },
            (e, v) => check_fallback_s(index, tcs, e, v, f),
        }
    }
}

/// A case-split against `\Pi (Sum ...) g`: every case of the sum must be covered, by a
/// clause that is an instance of `\Pi A_i (g . c_i)`, and no other clause may remain.
pub open spec fn check_split_s(index: u32, tcs: TCS, branches: Branch, sum_branches: CaseTree, closure: Closure, fuel: nat) -> Option<TCM<TCS>>
    decreases fuel,
{
    if fuel == 0 {
        None
    } else {
        let f = (fuel - 1) as nat;
        match sum_branches {
            List::Nil => Some(match branches {
                List::Nil => Ok(tcs),
                _ => Err(TCE::UnexpectedCases(branch_keys(branches))),
            }),
            List::Cons(entry, rest) => {
                let (found, remaining) = branch_remove(branches, entry.0@);
                match found {
                    None => Some(Err(TCE::MissingCase(entry.0))),
                    Some(pattern_match) => match reduce_s(*entry.1, f) {
                        Some(branch_value) => match check_s(
                            index,
                            tcs,
                            pattern_match,
                            Value::Pi(Box::new(branch_value), Closure::Choice(Box::new(closure), entry.0)),
                            f,
                        ) {
                            Some(Ok(tcs1)) => check_split_s(index, tcs1, remaining, *rest, closure, f),
                            Some(Err(err)) => Some(Err(err)),
                            None => None,
                        },
                        None => None,
                    },
                }
            },
        }
    }
}

/// Fallback rule of the instance check: infer the type, then check subtyping.
pub open spec fn check_fallback_s(index: u32, tcs: TCS, body: Expression, signature: Value, fuel: nat) -> Option<TCM<TCS>>
    decreases fuel,
{
    if fuel == 0 {
        None
    } else {
        let f = (fuel - 1) as nat;
        match check_infer_s(index, tcs, body, f) {
            Some(Ok(inferred)) => check_subtype_s(index, tcs, inferred, signature, true, f),
            Some(Err(err)) => Some(Err(err)),
            None => None,
        }
    }
}

/// Checks that every constructor's parameter is a type; the level is the greatest.
pub open spec fn check_sum_type_s(index: u32, tcs: TCS, constructors: Branch, fuel: nat) -> Option<TCM<(Level, TCS)>>
    decreases fuel,
{
    if fuel == 0 {
        None
    } else {
        sum_type_loop_s(index, tcs, constructors, 0, (fuel - 1) as nat)
    }
}

pub open spec fn sum_type_loop_s(index: u32, tcs: TCS, constructors: Branch, max: Level, fuel: nat) -> Option<TCM<(Level, TCS)>>
    decreases fuel,
{
    if fuel == 0 {
        None
    } else {
        let f = (fuel - 1) as nat;
        match constructors {
            List::Nil => Some(Ok((max, tcs))),
            List::Cons(entry, rest) => match check_type_s(index, tcs, *entry.1, f) {
                Some(Ok((level, tcs1))) => sum_type_loop_s(index, tcs1, *rest, if level > max { level } else { max }, f),
                Some(Err(err)) => Some(Err(err)),
                None => None,
            },
        }
    }
}

/// Checks `\Pi p: A. B` or `\Sigma p: A. B`: `A` is a type and, with `p` bound to a
/// generated value of type `A`, so is `B`; the level is that of `B`.
pub open spec fn check_telescoped_s(index: u32, tcs: TCS, first: Typed, second: Expression, fuel: nat) -> Option<TCM<(Level, TCS)>>
    decreases fuel,
{
    if fuel == 0 {
        None
    } else {
        let f = (fuel - 1) as nat;
        match check_type_s(index, tcs, *first.expression, f) {
            Some(Ok((_, tcs1))) => match eval_s(*first.expression, tcs1.context, f) {
                Some(t) => match tcs_update_s(tcs1, first.pattern, t, generated(index), f) {
                    Some(Ok(internal)) => if index == u32::MAX {
                        None
                    } else {
                        match check_type_s((index + 1) as u32, internal, second, f) {
                            Some(Ok((level, _))) => Some(Ok((level, tcs1))),
                            Some(Err(err)) => Some(Err(err)),
                            None => None,
                        }
                    },
                    Some(Err(err)) => Some(Err(err)),
                    None => None,
                },
                None => None,
            },
            Some(Err(err)) => Some(Err(err)),
            None => None,
        }
    }
}

} // verus!

verus! {

fn first_duplicate_exec(left: &List<String>, right: &List<String>) -> (r: Option<String>)
    ensures
        r == first_duplicate(*left, *right),
    decreases left,
{
    match left {
        List::Nil => None,
        List::Cons(name, rest) => if names_contain_exec(right, name.as_str()) {
            Some(name.clone())
        } else {
            first_duplicate_exec(&**rest, right)
        },
    }
}

/// `checkI` in Mini-TT, with at most `fuel` nested steps.
pub fn check_infer_fuel(index: u32, tcs: TCS, expression: Expression, fuel: u64) -> (r: Option<TCM<Value>>)
    ensures
        r == check_infer_s(index, tcs, expression, fuel as nat),
    decreases fuel,
{
    if fuel == 0 {
        return None;
    }
    let f = fuel - 1;
    match expression {
        Expression::Unit => Some(Ok(Value::One)),
        Expression::Type(level) => if level == u32::MAX {
            None
        } else {
            Some(Ok(Value::Type(level + 1)))
        },
        Expression::Void => Some(Ok(Value::Type(0))),
        Expression::One => Some(Ok(Value::Type(0))),
        Expression::Var(name) => Some(match branch_get_exec(&tcs.gamma, name.as_str()) {
            Some(t) => Ok(t.duplicate()),
            None => Err(TCE::UnresolvedName(name)),
        }),
        Expression::Constructor(name, body) => {
            let context = tcs.context.clone();
            match check_infer_fuel(index, tcs, *body, f) {
                Some(Ok(inferred)) => {
                    let case = GenericCase::new(Either::Left(inferred), context);
                    Some(Ok(Value::Sum(List::Cons((name, Box::new(case)), Box::new(List::Nil)))))
                },
                Some(Err(err)) => Some(Err(err)),
                None => None,
            }
        },
        Expression::Pair(left, right) => {
            let l = match check_infer_fuel(index, tcs.duplicate(), *left, f) {
                Some(Ok(l)) => l,
                Some(Err(err)) => return Some(Err(err)),
                None => return None,
            };
            match check_infer_fuel(index, tcs, *right, f) {
                Some(Ok(r)) => Some(Ok(Value::Sigma(Box::new(l), Closure::Value(Box::new(r))))),
                Some(Err(err)) => Some(Err(err)),
                None => None,
            }
        },
        Expression::First(pair) => match check_infer_fuel(index, tcs, *pair, f) {
            Some(Ok(Value::Sigma(first, _))) => Some(Ok(*first)),
            Some(Ok(v)) => Some(Err(TCE::WantSigmaBut(v))),
            Some(Err(err)) => Some(Err(err)),
            None => None,
        },
        Expression::Second(pair) => {
            let context = tcs.context.clone();
            match check_infer_fuel(index, tcs, (*pair).duplicate(), f) {
                Some(Ok(Value::Sigma(_, second))) => match (*pair).eval_fuel(context, f) {
                    Some(v) => match v.first_checked() {
                        Some(v1) => match second.instantiate_fuel(v1, f) {
                            Some(t) => Some(Ok(t)),
                            None => None,
                        },
                        None => None,
                    },
                    None => None,
                },
                Some(Ok(v)) => Some(Err(TCE::WantSigmaBut(v))),
                Some(Err(err)) => Some(Err(err)),
                None => None,
            }
        },
        Expression::Sum(branches) => match check_sum_type_fuel(index, tcs, branches, f) {
            Some(Ok((level, _))) => Some(Ok(Value::Type(level))),
            Some(Err(err)) => Some(Err(err)),
            None => None,
        },
        Expression::Merge(left, right) => {
            let left_keys = match (*left).duplicate().eval_fuel(tcs.context(), f) {
                Some(Value::Sum(branches)) => branch_keys_exec(&branches),
                Some(_) => return Some(Err(TCE::WantSumBut(Either::Right(*left)))),
                None => return None,
            };
            let right_keys = match (*right).duplicate().eval_fuel(tcs.context(), f) {
                Some(Value::Sum(branches)) => branch_keys_exec(&branches),
                Some(_) => return Some(Err(TCE::WantSumBut(Either::Right(*right)))),
                None => return None,
            };
            if let Some(name) = first_duplicate_exec(&left_keys, &right_keys) {
                return Some(Err(TCE::DuplicateBranch(name)));
            }
            let left_level = match check_infer_fuel(index, tcs.duplicate(), *left, f) {
                Some(Ok(Value::Type(left_level))) => left_level,
                Some(Ok(v)) => return Some(Err(TCE::WantSumBut(Either::Left(v)))),
                Some(Err(err)) => return Some(Err(err)),
                None => return None,
            };
            match check_infer_fuel(index, tcs, *right, f) {
                Some(Ok(Value::Type(right_level))) => Some(Ok(Value::Type(
                    if left_level >= right_level { left_level } else { right_level },
                ))),
                Some(Ok(v)) => Some(Err(TCE::WantSumBut(Either::Left(v)))),
                Some(Err(err)) => Some(Err(err)),
                None => None,
            }
        },
        Expression::Pi(input, output) => infer_binder_fuel(index, tcs, input, *output, f),
        Expression::Sigma(input, output) => infer_binder_fuel(index, tcs, input, *output, f),
        Expression::Application(function, argument) => match *function {
            Expression::Lambda(pattern, Some(parameter_type), return_value) => {
                let t = *parameter_type.internal;
                let tcs1 = match check_fuel(index, tcs, *argument, t.duplicate(), f) {
                    Some(Ok(tcs1)) => tcs1,
                    Some(Err(err)) => return Some(Err(err)),
                    None => return None,
                };
                if index == u32::MAX {
                    return None;
                }
                let generated = generate_value(index + 1);
                match tcs1.update_fuel(pattern, t, generated, f) {
                    Some(Ok(tcs2)) => check_infer_fuel(index + 1, tcs2, *return_value, f),
                    Some(Err(err)) => Some(Err(err)),
                    None => None,
                }
            },
            function => match check_infer_fuel(index, tcs.duplicate(), function, f) {
                Some(Ok(Value::Pi(input, output))) => {
                    let context = tcs.context();
                    match check_fuel(index, tcs, (*argument).duplicate(), *input, f) {
                        Some(Ok(_)) => match (*argument).eval_fuel(context, f) {
                            Some(av) => match output.instantiate_fuel(av, f) {
                                Some(t) => Some(Ok(t)),
                                None => None,
                            },
                            None => None,
                        },
                        Some(Err(err)) => Some(Err(err)),
                        None => None,
                    }
                },
                Some(Ok(v)) => Some(Err(TCE::WantPiBut(v, *argument))),
                Some(Err(err)) => Some(Err(err)),
                None => None,
            },
        },
        Expression::Declaration(_, _) => Some(Err(TCE::Unreachable("src/check/expr.rs", 649, 51))),
        Expression::Constant(_, _, _) => Some(Err(TCE::Unreachable("src/check/expr.rs", 649, 51))),
        e => Some(Err(TCE::CannotInfer(e))),
    }
}

fn infer_binder_fuel(index: u32, tcs: TCS, input: Typed, output: Expression, fuel: u64) -> (r: Option<TCM<Value>>)
    ensures
        r == infer_binder_s(index, tcs, input, output, fuel as nat),
    decreases fuel,
{
    if fuel == 0 {
        return None;
    }
    let f = fuel - 1;
    let (left_level, tcs1) = match check_type_fuel(index, tcs, (*input.expression).duplicate(), f) {
        Some(Ok(r)) => r,
        Some(Err(err)) => return Some(Err(err)),
        None => return None,
    };
    let input_type = match (*input.expression).eval_fuel(tcs1.context(), f) {
        Some(t) => t,
        None => return None,
    };
    let generated = generate_value(index);
    let gamma = match update_gamma_fuel_pub(tcs1.gamma, &input.pattern, input_type, generated, f) {
        Some(Ok(gamma)) => gamma,
        Some(Err(err)) => return Some(Err(err)),
        None => return None,
    };
    if index == u32::MAX {
        return None;
    }
    match check_type_fuel(index + 1, TCS::new(gamma, tcs1.context), output, f) {
        Some(Ok((right_level, _))) => Some(Ok(Value::Type(
            if left_level >= right_level { left_level } else { right_level },
        ))),
        Some(Err(err)) => Some(Err(err)),
        None => None,
    }
}

/// `checkT` in Mini-TT, with at most `fuel` nested steps.
pub fn check_type_fuel(index: u32, tcs: TCS, expression: Expression, fuel: u64) -> (r: Option<TCM<(Level, TCS)>>)
    ensures
        r == check_type_s(index, tcs, expression, fuel as nat),
    decreases fuel,
{
    if fuel == 0 {
        return None;
    }
    let f = fuel - 1;
    match expression {
        Expression::Sum(constructors) => check_sum_type_fuel(index, tcs, constructors, f),
        Expression::Pi(first, second) => check_telescoped_fuel(index, tcs, first, *second, f),
        Expression::Sigma(first, second) => check_telescoped_fuel(index, tcs, first, *second, f),
        Expression::Merge(left, right) => check_merge_type_fuel(index, tcs, *left, *right, f),
        Expression::Type(level) => if level == u32::MAX {
            None
        } else {
            Some(Ok((level + 1, tcs)))
        },
        Expression::Void => Some(Ok((0, tcs))),
        Expression::One => Some(Ok((0, tcs))),
        expression => match check_infer_fuel(index, tcs.duplicate(), expression, f) {
            Some(Ok(inferred)) => match inferred.level_safe_fuel(f) {
                Some(Some(level)) => if level > 0 {
                    Some(Ok((level - 1, tcs)))
                } else {
                    Some(Err(TCE::NotTypeType(inferred)))
                },
                Some(None) => Some(Err(TCE::NotTypeType(inferred))),
                None => None,
            },
            Some(Err(err)) => Some(Err(err)),
            None => None,
        },
    }
}

/// Checks `A ++ B`, with at most `fuel` nested steps.
pub fn check_merge_type_fuel(index: u32, tcs: TCS, left: Expression, right: Expression, fuel: u64) -> (r: Option<TCM<(Level, TCS)>>)
    ensures
        r == check_merge_type_s(index, tcs, left, right, fuel as nat),
    decreases fuel,
{
    if fuel == 0 {
        return None;
    }
    let f = fuel - 1;
    let (left_level, tcs1) = match check_type_fuel(index, tcs, left.duplicate(), f) {
        Some(Ok(r)) => r,
        Some(Err(err)) => return Some(Err(err)),
        None => return None,
    };
    let (right_level, tcs2) = match check_type_fuel(index, tcs1, right.duplicate(), f) {
        Some(Ok(r)) => r,
        Some(Err(err)) => return Some(Err(err)),
        None => return None,
    };
    let left_branches = match left.duplicate().eval_fuel(tcs2.context(), f) {
        Some(Value::Sum(b)) => b,
        Some(_) => return Some(Err(TCE::WantSumBut(Either::Right(left)))),
        None => return None,
    };
    let right_branches = match right.duplicate().eval_fuel(tcs2.context(), f) {
        Some(Value::Sum(b)) => b,
        Some(_) => return Some(Err(TCE::WantSumBut(Either::Right(right)))),
        None => return None,
    };
    let left_names = branch_keys_exec(&left_branches);
    let right_names = branch_keys_exec(&right_branches);
    Some(match first_duplicate_exec(&left_names, &right_names) {
        Some(name) => Err(TCE::DuplicateBranch(name)),
        None => Ok((if left_level >= right_level { left_level } else { right_level }, tcs2)),
    })
}

/// Level comparison: `Type_i <: Type_j` for `i <= j`.
pub fn check_level(level: u32, actual: (u32, TCS)) -> (r: TCM<TCS>)
    ensures
        r == check_level_s(level, actual),
{
    let (actual_level, tcs) = actual;
    if actual_level <= level {
        Ok(tcs)
    } else {
        Err(TCE::LevelMismatch(actual_level, level))
    }
}

fn check_level_opt(level: u32, r: Option<TCM<(Level, TCS)>>) -> (o: Option<TCM<TCS>>)
    ensures
        o == check_level_opt_s(level, r),
{
    match r {
        Some(Ok(actual)) => Some(check_level(level, actual)),
        Some(Err(err)) => Some(Err(err)),
        None => None,
    }
}

/// `check` in Mini-TT, with at most `fuel` nested steps.
pub fn check_fuel(index: u32, tcs: TCS, expression: Expression, value: Value, fuel: u64) -> (r: Option<TCM<TCS>>)
    ensures
        r == check_s(index, tcs, expression, value, fuel as nat),
    decreases fuel,
{
    if fuel == 0 {
        return None;
    }
    let f = fuel - 1;
    match (expression, value) {
        (Expression::Unit, Value::One) => Some(Ok(tcs)),
        (Expression::One, Value::Type(0)) => Some(Ok(tcs)),
        (Expression::Type(low), Value::Type(high)) => if low < high {
            Some(Ok(tcs))
        } else if low == u32::MAX {
            None
        } else {
            Some(Err(TCE::TypeMismatch(Value::Type(low + 1), Value::Type(high))))
        },
        (Expression::Void, _) => Some(Ok(tcs)),
        (Expression::Lambda(pattern, _, body), Value::Pi(signature, closure)) => {
            let generated = generate_value(index);
            let fake = match tcs.duplicate().update_fuel(pattern, *signature, generated.duplicate(), f) {
                Some(Ok(fake)) => fake,
                Some(Err(err)) => return Some(Err(err)),
                None => return None,
            };
            if index == u32::MAX {
                return None;
            }
            let t = match closure.instantiate_fuel(generated, f) {
                Some(t) => t,
                None => return None,
            };
            match check_fuel(index + 1, fake, *body, t, f) {
                Some(Ok(_)) => Some(Ok(tcs)),
                Some(Err(err)) => Some(Err(err)),
                None => None,
            }
        },
        (Expression::Pair(first, second), Value::Sigma(first_type, second_type)) => {
            let tcs1 = match check_fuel(index, tcs, (*first).duplicate(), *first_type, f) {
                Some(Ok(tcs1)) => tcs1,
                Some(Err(err)) => return Some(Err(err)),
                None => return None,
            };
            let fv = match (*first).eval_fuel(tcs1.context(), f) {
                Some(fv) => fv,
                None => return None,
            };
            match second_type.instantiate_fuel(fv, f) {
                Some(t) => check_fuel(index, tcs1, *second, t, f),
                None => None,
            }
        },
        (Expression::Constructor(name, body), Value::Sum(constructors)) => match branch_get_exec(&constructors, name.as_str()) {
            Some(case) => match case.duplicate().reduce_to_value_fuel(f) {
                Some(t) => check_fuel(index, tcs, *body, t, f),
                None => None,
            },
            None => Some(Err(TCE::InvalidConstructor(name))),
        },
        (Expression::Sum(constructors), Value::Type(level)) => check_level_opt(
            level,
            check_sum_type_fuel(index, tcs, constructors, f),
        ),
        (Expression::Merge(left, right), Value::Type(level)) => check_level_opt(
            level,
            check_merge_type_fuel(index, tcs, *left, *right, f),
        ),
        (Expression::Sigma(first, second), Value::Type(level)) => check_level_opt(
            level,
            check_telescoped_fuel(index, tcs, first, *second, f),
        ),
        (Expression::Pi(first, second), Value::Type(level)) => check_level_opt(
            level,
            check_telescoped_fuel(index, tcs, first, *second, f),
        ),
        (Expression::Declaration(declaration, rest), rest_type) => match check_declaration_fuel(index, tcs, *declaration, f) {
            Some(Ok(tcs1)) => check_fuel(index, tcs1, *rest, rest_type, f),
            Some(Err(err)) => Some(Err(err)),
            None => None,
        },
        (Expression::Constant(pattern, body, rest), rest_type) => {
            let signature = match check_infer_fuel(index, tcs.duplicate(), (*body).duplicate(), f) {
                Some(Ok(s)) => s,
                Some(Err(err)) => return Some(Err(err)),
                None => return None,
            };
            let body_val = match (*body).eval_fuel(tcs.context(), f) {
                Some(v) => v,
                None => return None,
            };
            match tcs.update_fuel(pattern, signature, body_val, f) {
                Some(Ok(tcs1)) => check_fuel(index, tcs1, *rest, rest_type, f),
                Some(Err(err)) => Some(Err(err)),
                None => None,
            }
        },
        (Expression::Split(branches), Value::Pi(sum, closure)) => match *sum {
            Value::Sum(sum_branches) => check_split_fuel(index, tcs, branches, sum_branches, closure, f),
            not_sum => check_fallback_fuel(
                index,
                tcs,
                Expression::Split(branches),
                Value::Pi(Box::new(not_sum), closure),
                f,
            ),
        },
        (expression, value) => check_fallback_fuel(index, tcs, expression, value, f),
    }
}

fn check_split_fuel(index: u32, tcs: TCS, branches: Branch, sum_branches: CaseTree, closure: Closure, fuel: u64) -> (r: Option<TCM<TCS>>)
    ensures
        r == check_split_s(index, tcs, branches, sum_branches, closure, fuel as nat),
    decreases fuel,
{
    if fuel == 0 {
        return None;
    }
    let f = fuel - 1;
    match sum_branches {
        List::Nil => Some(match branches {
            List::Nil => Ok(tcs),
            _ => Err(TCE::UnexpectedCases(branch_keys_exec(&branches))),
        }),
        List::Cons(entry, rest) => {
            let (name, branch) = entry;
            let (found, remaining) = branch_remove_exec(branches, name.as_str());
            match found {
                None => Some(Err(TCE::MissingCase(name))),
                Some(pattern_match) => match (*branch).reduce_to_value_fuel(f) {
                    Some(branch_value) => {
                        let signature = Value::Pi(
                            Box::new(branch_value),
                            Closure::Choice(Box::new(closure.duplicate()), name),
                        );
                        match check_fuel(index, tcs, pattern_match, signature, f) {
                            Some(Ok(tcs1)) => check_split_fuel(index, tcs1, remaining, *rest, closure, f),
                            Some(Err(err)) => Some(Err(err)),
                            None => None,
                        }
                    },
                    None => None,
                },
            }
        },
    }
}

/// The fallback rule of the instance check, with at most `fuel` nested steps.
pub fn check_fallback_fuel(index: u32, tcs: TCS, body: Expression, signature: Value, fuel: u64) -> (r: Option<TCM<TCS>>)
    ensures
        r == check_fallback_s(index, tcs, body, signature, fuel as nat),
    decreases fuel,
{
    if fuel == 0 {
        return None;
    }
    let f = fuel - 1;
    match check_infer_fuel(index, tcs.duplicate(), body, f) {
        Some(Ok(inferred)) => check_subtype_fuel(index, tcs, inferred, signature, true, f),
        Some(Err(err)) => Some(Err(err)),
        None => None,
    }
}

/// Checks a sum type, with at most `fuel` nested steps.
pub fn check_sum_type_fuel(index: u32, tcs: TCS, constructors: Branch, fuel: u64) -> (r: Option<TCM<(Level, TCS)>>)
    ensures
        r == check_sum_type_s(index, tcs, constructors, fuel as nat),
    decreases fuel,
{
    if fuel == 0 {
        return None;
    }
    sum_type_loop(index, tcs, constructors, 0, fuel - 1)
}

fn sum_type_loop(index: u32, tcs: TCS, constructors: Branch, max: Level, fuel: u64) -> (r: Option<TCM<(Level, TCS)>>)
    ensures
        r == sum_type_loop_s(index, tcs, constructors, max, fuel as nat),
    decreases fuel,
{
    if fuel == 0 {
        return None;
    }
    let f = fuel - 1;
    match constructors {
        List::Nil => Some(Ok((max, tcs))),
        List::Cons(entry, rest) => match check_type_fuel(index, tcs, *entry.1, f) {
            Some(Ok((level, tcs1))) => sum_type_loop(index, tcs1, *rest, if level > max { level } else { max }, f),
            Some(Err(err)) => Some(Err(err)),
            None => None,
        },
    }
}

/// Checks `\Pi p: A. B` or `\Sigma p: A. B`, with at most `fuel` nested steps.
pub fn check_telescoped_fuel(index: u32, tcs: TCS, first: Typed, second: Expression, fuel: u64) -> (r: Option<TCM<(Level, TCS)>>)
    ensures
        r == check_telescoped_s(index, tcs, first, second, fuel as nat),
    decreases fuel,
{
    if fuel == 0 {
        return None;
    }
    let f = fuel - 1;
    let (_, tcs1) = match check_type_fuel(index, tcs, (*first.expression).duplicate(), f) {
        Some(Ok(r)) => r,
        Some(Err(err)) => return Some(Err(err)),
        None => return None,
    };
    let t = match (*first.expression).eval_fuel(tcs1.context(), f) {
        Some(t) => t,
        None => return None,
    };
    let generated = generate_value(index);
    let internal = match tcs1.duplicate().update_fuel(first.pattern, t, generated, f) {
        Some(Ok(internal)) => internal,
        Some(Err(err)) => return Some(Err(err)),
        None => return None,
    };
    if index == u32::MAX {
        return None;
    }
    match check_type_fuel(index + 1, internal, second, f) {
        Some(Ok((level, _))) => Some(Ok((level, tcs1))),
        Some(Err(err)) => Some(Err(err)),
        None => None,
    }
}

} // verus!

verus! {

/// `checkI` in Mini-TT: infers the type of an expression.
pub fn check_infer(index: u32, tcs: TCS, expression: Expression) -> (r: TCM<Value>)
    requires
        check_infer_s(index, tcs, expression, MAX_FUEL as nat) is Some,
    ensures
        Some(r) == check_infer_s(index, tcs, expression, MAX_FUEL as nat),
{
    match check_infer_fuel(index, tcs, expression, MAX_FUEL) {
        Some(r) => r,
        None => vstd::pervasive::unreached(),
    }
}

/// `checkT` in Mini-TT: checks that an expression is a type, returning its level.
pub fn check_type(index: u32, tcs: TCS, expression: Expression) -> (r: TCM<(Level, TCS)>)
    requires
        check_type_s(index, tcs, expression, MAX_FUEL as nat) is Some,
    ensures
        Some(r) == check_type_s(index, tcs, expression, MAX_FUEL as nat),
{
    match check_type_fuel(index, tcs, expression, MAX_FUEL) {
        Some(r) => r,
        None => vstd::pervasive::unreached(),
    }
}

/// Checks that `left ++ right` is a well-typed merge of two sums.
pub fn check_merge_type(index: u32, tcs: TCS, left: Expression, right: Expression) -> (r: TCM<(Level, TCS)>)
    requires
        check_merge_type_s(index, tcs, left, right, MAX_FUEL as nat) is Some,
    ensures
        Some(r) == check_merge_type_s(index, tcs, left, right, MAX_FUEL as nat),
{
    match check_merge_type_fuel(index, tcs, left, right, MAX_FUEL) {
        Some(r) => r,
        None => vstd::pervasive::unreached(),
    }
}

/// `check` in Mini-TT: checks that `expression` is an instance of `value`.
pub fn check(index: u32, tcs: TCS, expression: Expression, value: Value) -> (r: TCM<TCS>)
    requires
        check_s(index, tcs, expression, value, MAX_FUEL as nat) is Some,
    ensures
        Some(r) == check_s(index, tcs, expression, value, MAX_FUEL as nat),
{
    match check_fuel(index, tcs, expression, value, MAX_FUEL) {
        Some(r) => r,
        None => vstd::pervasive::unreached(),
    }
}

/// Fallback rule of the instance check: infers the type, then checks subtyping.
pub fn check_fallback(index: u32, tcs: TCS, body: Expression, signature: Value) -> (r: TCM<TCS>)
    requires
        check_fallback_s(index, tcs, body, signature, MAX_FUEL as nat) is Some,
    ensures
        Some(r) == check_fallback_s(index, tcs, body, signature, MAX_FUEL as nat),
{
    match check_fallback_fuel(index, tcs, body, signature, MAX_FUEL) {
        Some(r) => r,
        None => vstd::pervasive::unreached(),
    }
}

/// Checks that every constructor of a sum takes a type; returns the greatest level.
pub fn check_sum_type(index: u32, tcs: TCS, constructors: Branch) -> (r: TCM<(Level, TCS)>)
    requires
        check_sum_type_s(index, tcs, constructors, MAX_FUEL as nat) is Some,
    ensures
        Some(r) == check_sum_type_s(index, tcs, constructors, MAX_FUEL as nat),
{
    match check_sum_type_fuel(index, tcs, constructors, MAX_FUEL) {
        Some(r) => r,
        None => vstd::pervasive::unreached(),
    }
}

/// Checks a Pi or Sigma type expression.
pub fn check_telescoped(index: u32, tcs: TCS, first: Typed, second: Expression) -> (r: TCM<(Level, TCS)>)
    requires
        check_telescoped_s(index, tcs, first, second, MAX_FUEL as nat) is Some,
    ensures
        Some(r) == check_telescoped_s(index, tcs, first, second, MAX_FUEL as nat),
{
    match check_telescoped_fuel(index, tcs, first, second, MAX_FUEL) {
        Some(r) => r,
        None => vstd::pervasive::unreached(),
    }
}


/// Two sums can be merged exactly when they share no constructor: the first shared
/// name is one of both, and where there is none, no name of one is a name of the other.
pub proof fn lemma_first_duplicate(left: List<String>, right: List<String>)
    ensures
        match first_duplicate(left, right) {
            Some(name) => names_contain(left, name@) && names_contain(right, name@),
            None => forall|x: Seq<char>| #[trigger] names_contain(left, x) ==> !names_contain(right, x),
        },
    decreases left,
{
    if let List::Cons(head, rest) = left {
        lemma_first_duplicate(*rest, right);
        if first_duplicate(left, right) is None {
            assert forall|x: Seq<char>| #[trigger] names_contain(left, x) implies !names_contain(right, x) by {
                if x != head@ {
                    assert(names_contain(*rest, x));
                }
            }
        }
    }
}


/// The type of `1` is `Type_0`, and the type of `Type_l` is `Type_(l + 1)`.
pub proof fn lemma_infer_universes(index: u32, tcs: TCS, l: Level, fuel: nat)
    requires
        fuel > 0,
        l < u32::MAX,
    ensures
        check_infer_s(index, tcs, Expression::One, fuel) == Some(Ok::<Value, TCE>(Value::Type(0))),
        check_infer_s(index, tcs, Expression::Type(l), fuel) == Some(Ok::<Value, TCE>(Value::Type((l + 1) as u32))),
{
}

} // verus!

use std::rc::Rc;
use vstd::prelude::*;

use crate::ast::{up_dec_rc, up_var_rc, AnonymousValue, Declaration, Expression, GenericTelescope, Pattern, Typed};
use crate::check::expr::{check_fuel, check_s, check_type_fuel, check_type_s};
use crate::check::read_back::{generate_value, generated};
use crate::check::tcm::{
    tcs_update_s, update_gamma_fuel_pub, update_gamma_lazy_fuel, update_gamma_lazy_s, update_gamma_s, Gamma, TCE, TCM, TCS,
};
use crate::eval::{eval_s, MAX_FUEL};
use crate::list::{Duplicate, List};

verus! {

/// Internal state when lifting prefix parameters: signature, body and state.
pub type LiftState = (Expression, Expression, TCS);

/// What is checked once the prefix parameters of a declaration are in the context.
#[derive(Debug)]
pub enum LiftBody {
    /// A non-recursive declaration: its signature is a type and its body an instance of it.
    Simple { index: u32, pattern: Pattern, signature: Expression, body: Expression },
    /// A recursive declaration, checked with its own name bound to a generated value.
    Recursive { index: u32, declaration: Declaration },
}

/// Wraps an error with the declaration it occurred in, unless it already has one.
pub open spec fn try_locate(err: TCE, pattern: Pattern) -> TCE {
    match err {
        TCE::Located(_, _) => err,
        e => TCE::Located(Box::new(e), pattern),
    }
}

pub open spec fn locate<T>(r: Option<TCM<T>>, pattern: Pattern) -> Option<TCM<T>> {
    match r {
        Some(Err(err)) => Some(Err(try_locate(err, pattern))),
        other => other,
    }
}

/// Checks the body of a declaration once its prefix parameters are bound.
pub open spec fn check_body_s(tcs: TCS, body: LiftBody, fuel: nat) -> Option<TCM<LiftState>>
    decreases fuel,
{
    if fuel == 0 {
        None
    } else {
        let f = (fuel - 1) as nat;
        match body {
            LiftBody::Simple { index, pattern, signature, body } => match locate(check_type_s(index, tcs, signature, f), pattern) {
                Some(Ok((_, tcs1))) => match eval_s(signature, tcs1.context, f) {
                    Some(sv) => match locate(check_s(index, tcs1, body, sv, f), pattern) {
                        Some(Ok(tcs2)) => Some(Ok((signature, body, tcs2))),
                        Some(Err(err)) => Some(Err(err)),
                        None => None,
                    },
                    None => None,
                },
                Some(Err(err)) => Some(Err(err)),
                None => None,
            },
            LiftBody::Recursive { index, declaration } => {
                let pattern = declaration.pattern;
                match locate(check_type_s(index, tcs, declaration.signature, f), pattern) {
                    Some(Ok((_, tcs1))) => match eval_s(declaration.signature, tcs1.context, f) {
                        Some(sv) => match locate(tcs_update_s(tcs1, pattern, sv, generated(index), f), pattern) {
                            Some(Ok(fake)) => if index == u32::MAX {
                                None
                            } else {
                                match locate(check_s((index + 1) as u32, fake, declaration.body, sv, f), pattern) {
                                    Some(Ok(_)) => Some(Ok((
                                        declaration.signature,
                                        declaration.body,
                                        TCS {
                                            gamma: tcs1.gamma,
                                            context: Rc::new(GenericTelescope::UpDec(tcs1.context, declaration)),
                                        },
                                    ))),
                                    Some(Err(err)) => Some(Err(err)),
                                    None => None,
                                }
                            },
                            Some(Err(err)) => Some(Err(err)),
                            None => None,
                        },
                        None => None,
                    },
                    Some(Err(err)) => Some(Err(err)),
                    None => None,
                }
            },
        }
    }
}

/// Lifts the prefix parameters into the context, one by one, then checks the body;
/// the signature and body come back wrapped in a Pi type and lambdas.
pub open spec fn check_lift_parameters_s(index: u32, tcs: TCS, parameters: List<Typed>, body: LiftBody, fuel: nat) -> Option<TCM<LiftState>>
    decreases fuel,
{
    if fuel == 0 {
        None
    } else {
        let f = (fuel - 1) as nat;
        match parameters {
            List::Nil => check_body_s(tcs, body, f),
            List::Cons(parameter, rest) => match check_type_s(index, tcs, *parameter.expression, f) {
                Some(Ok((_, tcs1))) => match eval_s(*parameter.expression, tcs1.context, f) {
                    Some(type_val) => match tcs_update_s(tcs1, parameter.pattern, type_val, generated(index), f) {
                        Some(Ok(tcs2)) => if index == u32::MAX {
                            None
                        } else {
                            match check_lift_parameters_s((index + 1) as u32, tcs2, *rest, body, f) {
                                Some(Ok((signature, lifted_body, tcs3))) => Some(Ok((
                                    Expression::Pi(parameter, Box::new(signature)),
                                    Expression::Lambda(
                                        parameter.pattern,
                                        Some(AnonymousValue { internal: Box::new(type_val) }),
                                        Box::new(lifted_body),
                                    ),
                                    tcs3,
                                ))),
                                Some(Err(err)) => Some(Err(err)),
                                None => None,
                            }
                        },
                        Some(Err(err)) => Some(Err(err)),
                        None => None,
                    },
                    None => None,
                },
                Some(Err(err)) => Some(Err(err)),
                None => None,
            },
        }
    }
}

/// `rec p : A = M`: `A` is a type, `M` an instance of it with `p` bound to a generated
/// value, and `p` then gets the type `[[A]]` and the value of `M` under the recursive context.
pub open spec fn check_recursive_declaration_s(index: u32, tcs: TCS, declaration: Declaration, fuel: nat) -> Option<TCM<Gamma>>
    decreases fuel,
{
    if fuel == 0 {
        None
    } else {
        let f = (fuel - 1) as nat;
        let pattern = declaration.pattern;
        match locate(check_type_s(index, tcs, declaration.signature, f), pattern) {
            Some(Ok(_)) => match eval_s(declaration.signature, tcs.context, f) {
                Some(signature) => match locate(tcs_update_s(tcs, pattern, signature, generated(index), f), pattern) {
                    Some(Ok(fake)) => if index == u32::MAX {
                        None
                    } else {
                        match locate(check_s((index + 1) as u32, fake, declaration.body, signature, f), pattern) {
                            Some(Ok(_)) => locate(
                                update_gamma_lazy_s(
                                    tcs.gamma,
                                    pattern,
                                    signature,
                                    declaration.body,
                                    Rc::new(GenericTelescope::UpDec(tcs.context, declaration)),
                                    f,
                                ),
                                pattern,
                            ),
                            Some(Err(err)) => Some(Err(err)),
                            None => None,
                        }
                    },
                    Some(Err(err)) => Some(Err(err)),
                    None => None,
                },
                None => None,
            },
            Some(Err(err)) => Some(Err(err)),
            None => None,
        }
    }
}

/// `p : A = M`: `A` is a type, `M` an instance of it, and `p` gets the type `[[A]]`.
pub open spec fn check_simple_declaration_s(
    index: u32,
    tcs: TCS,
    pattern: Pattern,
    signature: Expression,
    body: Expression,
    fuel: nat,
) -> Option<TCM<Gamma>>
    decreases fuel,
{
    if fuel == 0 {
        None
    } else {
        let f = (fuel - 1) as nat;
        match locate(check_type_s(index, tcs, signature, f), pattern) {
            Some(Ok((_, tcs1))) => match eval_s(signature, tcs1.context, f) {
                Some(sv) => match locate(check_s(index, tcs1, body, sv, f), pattern) {
                    Some(Ok(_)) => locate(update_gamma_lazy_s(tcs1.gamma, pattern, sv, body, tcs1.context, f), pattern),
                    Some(Err(err)) => Some(Err(err)),
                    None => None,
                },
                None => None,
            },
            Some(Err(err)) => Some(Err(err)),
            None => None,
        }
    }
}

/// `checkD`, extended with prefix parameters: checks a declaration and extends the state.
pub open spec fn check_declaration_s(index: u32, tcs: TCS, declaration: Declaration, fuel: nat) -> Option<TCM<TCS>>
    decreases fuel,
{
    if fuel == 0 {
        None
    } else {
        let f = (fuel - 1) as nat;
        match declaration.prefix_parameters {
            List::Nil => match (if !declaration.is_recursive {
                check_simple_declaration_s(index, tcs, declaration.pattern, declaration.signature, declaration.body, f)
            } else {
                check_recursive_declaration_s(index, tcs, declaration, f)
            }) {
                Some(Ok(gamma)) => Some(Ok(TCS {
                    gamma,
                    context: Rc::new(GenericTelescope::UpDec(tcs.context, declaration)),
                })),
                Some(Err(err)) => Some(Err(err)),
                None => None,
            },
            List::Cons(_, _) => {
                let body = if !declaration.is_recursive {
                    LiftBody::Simple {
                        index,
                        pattern: declaration.pattern,
                        signature: declaration.signature,
                        body: declaration.body,
                    }
                } else {
                    LiftBody::Recursive { index, declaration }
                };
                match check_lift_parameters_s(index, tcs, declaration.prefix_parameters, body, f) {
                    Some(Ok((signature, lifted_body, _))) => match eval_s(lifted_body, tcs.context, f) {
                        Some(body_val) => match eval_s(signature, tcs.context, f) {
                            Some(signature_val) => match update_gamma_s(tcs.gamma, declaration.pattern, signature_val, body_val, f) {
                                Some(Ok(gamma)) => Some(Ok(TCS {
                                    gamma,
                                    context: Rc::new(GenericTelescope::UpVar(tcs.context, declaration.pattern, body_val)),
                                })),
                                Some(Err(err)) => Some(Err(try_locate(err, declaration.pattern))),
                                None => None,
                            },
                            None => None,
                        },
                        None => None,
                    },
                    Some(Err(err)) => Some(Err(err)),
                    None => None,
                }
            },
        }
    }
}

} // verus!

verus! {

fn locate_exec<T>(r: Option<TCM<T>>, pattern: &Pattern) -> (o: Option<TCM<T>>)
    ensures
        o == locate(r, *pattern),
{
    match r {
        Some(Err(err)) => Some(Err(match err {
            TCE::Located(e, p) => TCE::Located(e, p),
            e => TCE::Located(Box::new(e), pattern.duplicate()),
        })),
        other => other,
    }
}

fn check_body_fuel(tcs: TCS, body: LiftBody, fuel: u64) -> (r: Option<TCM<LiftState>>)
    ensures
        r == check_body_s(tcs, body, fuel as nat),
    decreases fuel,
{
    if fuel == 0 {
        return None;
    }
    let f = fuel - 1;
    match body {
        LiftBody::Simple { index, pattern, signature, body } => {
            let (_, tcs1) = match locate_exec(check_type_fuel(index, tcs, signature.duplicate(), f), &pattern) {
                Some(Ok(r)) => r,
                Some(Err(err)) => return Some(Err(err)),
                None => return None,
            };
            let sv = match signature.duplicate().eval_fuel(tcs1.context(), f) {
                Some(sv) => sv,
                None => return None,
            };
            match locate_exec(check_fuel(index, tcs1, body.duplicate(), sv, f), &pattern) {
                Some(Ok(tcs2)) => Some(Ok((signature, body, tcs2))),
                Some(Err(err)) => Some(Err(err)),
                None => None,
            }
        },
        LiftBody::Recursive { index, declaration } => {
            let pattern = declaration.pattern.duplicate();
            let (_, tcs1) = match locate_exec(check_type_fuel(index, tcs, declaration.signature.duplicate(), f), &pattern) {
                Some(Ok(r)) => r,
                Some(Err(err)) => return Some(Err(err)),
                None => return None,
            };
            let sv = match declaration.signature.duplicate().eval_fuel(tcs1.context(), f) {
                Some(sv) => sv,
                None => return None,
            };
            let generated = generate_value(index);
            let fake = match locate_exec(tcs1.duplicate().update_fuel(pattern.duplicate(), sv.duplicate(), generated, f), &pattern) {
                Some(Ok(fake)) => fake,
                Some(Err(err)) => return Some(Err(err)),
                None => return None,
            };
            if index == u32::MAX {
                return None;
            }
            match locate_exec(check_fuel(index + 1, fake, declaration.body.duplicate(), sv, f), &pattern) {
                Some(Ok(_)) => {
                    let signature = declaration.signature.duplicate();
                    let body = declaration.body.duplicate();
                    Some(Ok((signature, body, TCS::new(tcs1.gamma, up_dec_rc(tcs1.context, declaration)))))
                },
                Some(Err(err)) => Some(Err(err)),
                None => None,
            }
        },
    }
}

/// Lifts prefix parameters into the context (an extension of Mini-TT), then checks
/// the body; with at most `fuel` nested steps.
pub fn check_lift_parameters_fuel(index: u32, tcs: TCS, parameters: List<Typed>, check_body: LiftBody, fuel: u64) -> (r: Option<TCM<LiftState>>)
    ensures
        r == check_lift_parameters_s(index, tcs, parameters, check_body, fuel as nat),
    decreases fuel,
{
    if fuel == 0 {
        return None;
    }
    let f = fuel - 1;
    match parameters {
        List::Nil => check_body_fuel(tcs, check_body, f),
        List::Cons(parameter, rest) => {
            let clone = parameter.duplicate();
            let (pattern, expression) = parameter.destruct();
            let (_, tcs1) = match check_type_fuel(index, tcs, expression.duplicate(), f) {
                Some(Ok(r)) => r,
                Some(Err(err)) => return Some(Err(err)),
                None => return None,
            };
            let generated = generate_value(index);
            let type_val = match expression.eval_fuel(tcs1.context(), f) {
                Some(t) => t,
                None => return None,
            };
            let tcs2 = match tcs1.update_fuel(pattern.duplicate(), type_val.duplicate(), generated, f) {
                Some(Ok(tcs2)) => tcs2,
                Some(Err(err)) => return Some(Err(err)),
                None => return None,
            };
            if index == u32::MAX {
                return None;
            }
            match check_lift_parameters_fuel(index + 1, tcs2, *rest, check_body, f) {
                Some(Ok((signature, body, tcs3))) => Some(Ok((
                    Expression::Pi(clone, Box::new(signature)),
                    Expression::Lambda(pattern, AnonymousValue::some(type_val), Box::new(body)),
                    tcs3,
                ))),
                Some(Err(err)) => Some(Err(err)),
                None => None,
            }
        },
    }
}

/// Checks a recursive declaration without prefix parameters, with at most `fuel` nested steps.
pub fn check_recursive_declaration_fuel(index: u32, tcs: TCS, declaration: Declaration, fuel: u64) -> (r: Option<TCM<Gamma>>)
    ensures
        r == check_recursive_declaration_s(index, tcs, declaration, fuel as nat),
    decreases fuel,
{
    if fuel == 0 {
        return None;
    }
    let f = fuel - 1;
    let pattern = declaration.pattern.duplicate();
    match locate_exec(check_type_fuel(index, tcs.duplicate(), declaration.signature.duplicate(), f), &pattern) {
        Some(Ok(_)) => {},
        Some(Err(err)) => return Some(Err(err)),
        None => return None,
    }
    let signature = match declaration.signature.duplicate().eval_fuel(tcs.context(), f) {
        Some(s) => s,
        None => return None,
    };
    let generated = generate_value(index);
    let fake = match locate_exec(tcs.duplicate().update_fuel(pattern.duplicate(), signature.duplicate(), generated, f), &pattern) {
        Some(Ok(fake)) => fake,
        Some(Err(err)) => return Some(Err(err)),
        None => return None,
    };
    if index == u32::MAX {
        return None;
    }
    match locate_exec(check_fuel(index + 1, fake, declaration.body.duplicate(), signature.duplicate(), f), &pattern) {
        Some(Ok(_)) => {},
        Some(Err(err)) => return Some(Err(err)),
        None => return None,
    }
    let body = declaration.body.duplicate();
    let context = tcs.context;
    locate_exec(update_gamma_lazy_fuel(tcs.gamma, &pattern, signature, body, up_dec_rc(context, declaration), f), &pattern)
}

/// Checks a non-recursive declaration without prefix parameters, with at most `fuel`
/// nested steps.
pub fn check_simple_declaration_fuel(
    index: u32,
    tcs: TCS,
    pattern: Pattern,
    signature: Expression,
    body: Expression,
    fuel: u64,
) -> (r: Option<TCM<Gamma>>)
    ensures
        r == check_simple_declaration_s(index, tcs, pattern, signature, body, fuel as nat),
    decreases fuel,
{
    if fuel == 0 {
        return None;
    }
    let f = fuel - 1;
    let (_, tcs1) = match locate_exec(check_type_fuel(index, tcs, signature.duplicate(), f), &pattern) {
        Some(Ok(r)) => r,
        Some(Err(err)) => return Some(Err(err)),
        None => return None,
    };
    let sv = match signature.eval_fuel(tcs1.context(), f) {
        Some(sv) => sv,
        None => return None,
    };
    let TCS { gamma, context } = tcs1;
    match locate_exec(check_fuel(index, TCS::new(gamma.duplicate(), context.clone()), body.duplicate(), sv.duplicate(), f), &pattern) {
        Some(Ok(_)) => {},
        Some(Err(err)) => return Some(Err(err)),
        None => return None,
    }
    locate_exec(update_gamma_lazy_fuel(gamma, &pattern, sv, body, context, f), &pattern)
}

/// `checkD` extended with prefix parameters, with at most `fuel` nested steps.
pub fn check_declaration_fuel(index: u32, tcs: TCS, declaration: Declaration, fuel: u64) -> (r: Option<TCM<TCS>>)
    ensures
        r == check_declaration_s(index, tcs, declaration, fuel as nat),
    decreases fuel,
{
    if fuel == 0 {
        return None;
    }
    let f = fuel - 1;
    if declaration.prefix_parameters.is_empty() {
        proof {
            assert(declaration.prefix_parameters matches List::Nil);
        }
        let context = tcs.context();
        let r = if !declaration.is_recursive {
            check_simple_declaration_fuel(
                index,
                tcs,
                declaration.pattern.duplicate(),
                declaration.signature.duplicate(),
                declaration.body.duplicate(),
                f,
            )
        } else {
            check_recursive_declaration_fuel(index, tcs, declaration.duplicate(), f)
        };
        return match r {
            Some(Ok(gamma)) => Some(Ok(TCS::new(gamma, up_dec_rc(context, declaration)))),
            Some(Err(err)) => Some(Err(err)),
            None => None,
        };
    }
    let pattern = declaration.pattern.duplicate();
    let parameters = declaration.prefix_parameters.duplicate();
    let body = if !declaration.is_recursive {
        LiftBody::Simple {
            index,
            pattern: declaration.pattern.duplicate(),
            signature: declaration.signature.duplicate(),
            body: declaration.body.duplicate(),
        }
    } else {
        LiftBody::Recursive { index, declaration: declaration.duplicate() }
    };
    let (signature, lifted_body) = match check_lift_parameters_fuel(index, tcs.duplicate(), parameters, body, f) {
        Some(Ok((signature, lifted_body, _))) => (signature, lifted_body),
        Some(Err(err)) => return Some(Err(err)),
        None => return None,
    };
    let TCS { gamma, context } = tcs;
    let body_val = match lifted_body.eval_fuel(context.clone(), f) {
        Some(v) => v,
        None => return None,
    };
    let signature_val = match signature.eval_fuel(context.clone(), f) {
        Some(v) => v,
        None => return None,
    };
    match update_gamma_fuel_pub(gamma, &pattern, signature_val, body_val.duplicate(), f) {
        Some(Ok(gamma)) => Some(Ok(TCS::new(gamma, up_var_rc(context, pattern, body_val)))),
        Some(Err(err)) => Some(Err(locate_error(err, &declaration.pattern))),
        None => None,
    }
}

fn locate_error(err: TCE, pattern: &Pattern) -> (r: TCE)
    ensures
        r == try_locate(err, *pattern),
{
    match err {
        TCE::Located(e, p) => TCE::Located(e, p),
        e => TCE::Located(Box::new(e), pattern.duplicate()),
    }
}

} // verus!

verus! {

/// Lifts prefix parameters into the context, then checks the body.
pub fn check_lift_parameters(index: u32, tcs: TCS, parameters: List<Typed>, check_body: LiftBody) -> (r: TCM<LiftState>)
    requires
        check_lift_parameters_s(index, tcs, parameters, check_body, MAX_FUEL as nat) is Some,
    ensures
        Some(r) == check_lift_parameters_s(index, tcs, parameters, check_body, MAX_FUEL as nat),
{
    match check_lift_parameters_fuel(index, tcs, parameters, check_body, MAX_FUEL) {
        Some(r) => r,
        None => vstd::pervasive::unreached(),
    }
}

/// Checks a recursive declaration (without prefix parameters).
pub fn check_recursive_declaration(index: u32, tcs: TCS, declaration: Declaration) -> (r: TCM<Gamma>)
    requires
        check_recursive_declaration_s(index, tcs, declaration, MAX_FUEL as nat) is Some,
    ensures
        Some(r) == check_recursive_declaration_s(index, tcs, declaration, MAX_FUEL as nat),
{
    match check_recursive_declaration_fuel(index, tcs, declaration, MAX_FUEL) {
        Some(r) => r,
        None => vstd::pervasive::unreached(),
    }
}

/// Checks a non-recursive declaration (without prefix parameters).
pub fn check_simple_declaration(index: u32, tcs: TCS, pattern: Pattern, signature: Expression, body: Expression) -> (r: TCM<Gamma>)
    requires
        check_simple_declaration_s(index, tcs, pattern, signature, body, MAX_FUEL as nat) is Some,
    ensures
        Some(r) == check_simple_declaration_s(index, tcs, pattern, signature, body, MAX_FUEL as nat),
{
    match check_simple_declaration_fuel(index, tcs, pattern, signature, body, MAX_FUEL) {
        Some(r) => r,
        None => vstd::pervasive::unreached(),
    }
}

/// Checks a declaration and extends the typing and evaluation contexts with it.
pub fn check_declaration(index: u32, tcs: TCS, declaration: Declaration) -> (r: TCM<TCS>)
    requires
        check_declaration_s(index, tcs, declaration, MAX_FUEL as nat) is Some,
    ensures
        Some(r) == check_declaration_s(index, tcs, declaration, MAX_FUEL as nat),
{
    match check_declaration_fuel(index, tcs, declaration, MAX_FUEL) {
        Some(r) => r,
        None => vstd::pervasive::unreached(),
    }
}

} // verus!

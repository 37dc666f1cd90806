use vstd::prelude::*;

use crate::ast::{Branch, Declaration, Expression, Pattern, Typed, Value};
use crate::ast::{CaseTree, Closure, GenericTelescope};
use crate::check::decl::{
    check_body_s, check_declaration_s, check_lift_parameters_s, check_recursive_declaration_s, check_simple_declaration_s,
    try_locate, LiftBody,
};
use crate::check::expr::{
    check_fallback_s, check_infer_s, check_merge_type_s, check_s, check_split_s, check_sum_type_s, check_telescoped_s,
    check_type_s, sum_type_loop_s,
};
use crate::check::read_back::generated;
use crate::check::tcm::{tcs_update_s, update_gamma_lazy_s, TCE, TCS};
use crate::eval::{eval_s, instantiate_s, spec_first};
use crate::list::{branch_get, branch_insert, branch_remove, lemma_branch_remove_get, List};

verus! {

/// Whether `check` has a rule of its own for an expression against a type; every
/// other pair goes to the fallback rule.
pub open spec fn has_dedicated_rule(e: Expression, v: Value) -> bool {
    match (e, v) {
        (Expression::Unit, Value::One) => true,
        (Expression::One, Value::Type(0)) => true,
        (Expression::Type(_), Value::Type(_)) => true,
        (Expression::Void, _) => true,
        (Expression::Lambda(_, _, _), Value::Pi(_, _)) => true,
        (Expression::Pair(_, _), Value::Sigma(_, _)) => true,
        (Expression::Constructor(_, _), Value::Sum(_)) => true,
        (Expression::Sum(_), Value::Type(_)) => true,
        (Expression::Merge(_, _), Value::Type(_)) => true,
        (Expression::Sigma(_, _), Value::Type(_)) => true,
        (Expression::Pi(_, _), Value::Type(_)) => true,
        (Expression::Declaration(_, _), _) => true,
        (Expression::Constant(_, _, _), _) => true,
        (Expression::Split(_), Value::Pi(_, _)) => true,
        _ => false,
    }
}

/// The fallback rule of `check`: an expression without a rule of its own against a
/// type is checked by inferring its type and comparing it with the expected one.
pub proof fn lemma_check_fallback_rule(index: u32, tcs: TCS, e: Expression, v: Value, fuel: nat)
    requires
        !has_dedicated_rule(e, v),
    ensures
        check_s(index, tcs, e, v, fuel + 1) == check_fallback_s(index, tcs, e, v, fuel),
{
}

/// Checking a type keeps the state it was given.
pub proof fn lemma_type_keeps_state(index: u32, tcs: TCS, e: Expression, fuel: nat)
    ensures
        check_type_s(index, tcs, e, fuel) matches Some(Ok(r)) ==> r.1 == tcs,
    decreases fuel,
{
    if fuel > 0 {
        let f = (fuel - 1) as nat;
        match e {
            Expression::Sum(constructors) => lemma_sum_type_keeps_state(index, tcs, constructors, f),
            Expression::Pi(first, second) => lemma_telescoped_keeps_state(index, tcs, first, *second, f),
            Expression::Sigma(first, second) => lemma_telescoped_keeps_state(index, tcs, first, *second, f),
            Expression::Merge(left, right) => lemma_merge_type_keeps_state(index, tcs, *left, *right, f),
            _ => {},
        }
    }
}

/// Checking a merge of sums keeps the state it was given.
pub proof fn lemma_merge_type_keeps_state(index: u32, tcs: TCS, left: Expression, right: Expression, fuel: nat)
    ensures
        check_merge_type_s(index, tcs, left, right, fuel) matches Some(Ok(r)) ==> r.1 == tcs,
    decreases fuel,
{
    if fuel > 0 {
        let f = (fuel - 1) as nat;
        lemma_type_keeps_state(index, tcs, left, f);
        if let Some(Ok((_, tcs1))) = check_type_s(index, tcs, left, f) {
            lemma_type_keeps_state(index, tcs1, right, f);
        }
    }
}

/// Checking a sum type keeps the state it was given.
pub proof fn lemma_sum_type_keeps_state(index: u32, tcs: TCS, constructors: Branch, fuel: nat)
    ensures
        check_sum_type_s(index, tcs, constructors, fuel) matches Some(Ok(r)) ==> r.1 == tcs,
    decreases fuel,
{
    if fuel > 0 {
        lemma_sum_type_loop_keeps_state(index, tcs, constructors, 0, (fuel - 1) as nat);
    }
}

/// The loop of `lemma_sum_type_keeps_state`.
pub proof fn lemma_sum_type_loop_keeps_state(index: u32, tcs: TCS, constructors: Branch, max: u32, fuel: nat)
    ensures
        sum_type_loop_s(index, tcs, constructors, max, fuel) matches Some(Ok(r)) ==> r.1 == tcs,
    decreases fuel,
{
    if fuel > 0 {
        let f = (fuel - 1) as nat;
        if let List::Cons(entry, rest) = constructors {
            lemma_type_keeps_state(index, tcs, *entry.1, f);
            if let Some(Ok((level, tcs1))) = check_type_s(index, tcs, *entry.1, f) {
                lemma_sum_type_loop_keeps_state(index, tcs1, *rest, if level > max { level } else { max }, f);
            }
        }
    }
}

/// Checking a Pi or Sigma type keeps the state it was given.
pub proof fn lemma_telescoped_keeps_state(index: u32, tcs: TCS, first: Typed, second: Expression, fuel: nat)
    ensures
        check_telescoped_s(index, tcs, first, second, fuel) matches Some(Ok(r)) ==> r.1 == tcs,
    decreases fuel,
{
    if fuel > 0 {
        lemma_type_keeps_state(index, tcs, *first.expression, (fuel - 1) as nat);
    }
}

/// `p : A = M` with `p` a name `x` extends the typing context it is checked in by
/// `x : [[A]]` and nothing else: what the body declares stays inside the body.
pub proof fn lemma_simple_declaration_extends(
    index: u32,
    tcs: TCS,
    x: String,
    signature: Expression,
    body: Expression,
    fuel: nat,
)
    ensures
        check_simple_declaration_s(index, tcs, Pattern::Var(x), signature, body, fuel) matches Some(Ok(g)) ==> g
            == branch_insert(tcs.gamma, x, eval_s(signature, tcs.context, (fuel - 1) as nat)->Some_0),
{
    if fuel > 0 {
        lemma_type_keeps_state(index, tcs, signature, (fuel - 1) as nat);
    }
}

/// Where a declaration without prefix parameters that binds the name `x` is checked,
/// the evaluation context gets the declaration and the typing context gets `x` with
/// the value of its signature, all other names keeping their types.
pub proof fn lemma_declaration_extends(index: u32, tcs: TCS, d: Declaration, x: String, fuel: nat)
    requires
        d.prefix_parameters is Nil,
        !d.is_recursive,
        d.pattern == Pattern::Var(x),
    ensures
        check_declaration_s(index, tcs, d, fuel) matches Some(Ok(r)) ==> r == (TCS {
            gamma: branch_insert(tcs.gamma, x, eval_s(d.signature, tcs.context, (fuel - 2) as nat)->Some_0),
            context: std::rc::Rc::new(crate::ast::GenericTelescope::UpDec(tcs.context, d)),
        }),
{
    if fuel > 0 {
        lemma_simple_declaration_extends(index, tcs, x, d.signature, d.body, (fuel - 1) as nat);
    }
}

/// Whether an error is located at most once: a located error holds an error that
/// is not itself located.
pub open spec fn located_once(e: TCE) -> bool {
    match e {
        TCE::Located(inner, _) => !(*inner is Located),
        _ => true,
    }
}

/// Locating an error marks it with the declaration once: the result is located, and
/// never twice where the error was located at most once.
pub proof fn lemma_try_locate(e: TCE, pattern: Pattern)
    ensures
        try_locate(e, pattern) is Located,
        located_once(e) ==> located_once(try_locate(e, pattern)),
        e is Located ==> try_locate(e, pattern) == e,
{
}

/// A failed declaration without prefix parameters always reports a located error.
pub proof fn lemma_declaration_error_located(index: u32, tcs: TCS, d: Declaration, fuel: nat)
    requires
        d.prefix_parameters is Nil,
    ensures
        check_declaration_s(index, tcs, d, fuel) matches Some(Err(e)) ==> e is Located,
{
}


/// Checking a lambda against a Pi type binds the parameter only while the body is
/// checked: where it succeeds, the state given back is the one it was given.
pub proof fn lemma_check_lambda_keeps_state(
    index: u32,
    tcs: TCS,
    pattern: Pattern,
    parameter_type: Option<crate::ast::AnonymousValue>,
    body: Expression,
    t: Value,
    g: crate::ast::Closure,
    fuel: nat,
)
    ensures
        check_s(index, tcs, Expression::Lambda(pattern, parameter_type, Box::new(body)), Value::Pi(Box::new(t), g), fuel)
            matches Some(Ok(r)) ==> r == tcs,
{
}

/// A failed declaration without prefix parameters reports an error located at the
/// declaration that failed, and never located twice.
pub proof fn lemma_declaration_error_located_once(index: u32, tcs: TCS, d: Declaration, fuel: nat)
    requires
        d.prefix_parameters is Nil,
    ensures
        check_declaration_s(index, tcs, d, fuel) matches Some(Err(e)) ==> (e is Located && located_once(e)),
{
    lemma_declaration_error_located(index, tcs, d, fuel);
    crate::check::located::lemma_declaration_located(index, tcs, d, fuel);
}

/// Inference of the simplest forms: `0 => 1`, `1 => Type0`, `Type_l => Type_(l+1)`,
/// and a name has the type that the typing context gives it (an unknown name is an
/// error).
pub proof fn lemma_infer_axioms(index: u32, tcs: TCS, x: String, l: u32, fuel: nat)
    requires
        l < u32::MAX,
    ensures
        check_infer_s(index, tcs, Expression::Unit, fuel + 1) == Some(Ok::<Value, TCE>(Value::One)),
        check_infer_s(index, tcs, Expression::One, fuel + 1) == Some(Ok::<Value, TCE>(Value::Type(0))),
        check_infer_s(index, tcs, Expression::Type(l), fuel + 1) == Some(Ok::<Value, TCE>(Value::Type((l + 1) as u32))),
        branch_get(tcs.gamma, x@) matches Some(t) ==> check_infer_s(index, tcs, Expression::Var(x), fuel + 1) == Some(
            Ok::<Value, TCE>(t),
        ),
        branch_get(tcs.gamma, x@) is None ==> check_infer_s(index, tcs, Expression::Var(x), fuel + 1) == Some(
            Err::<Value, TCE>(TCE::UnresolvedName(x)),
        ),
{
}

/// Application: where `M => \Pi t g` and `N <= t`, `M N => inst g ([[N]] rho)`; where
/// `M` has a type that is no Pi type, the application is refused with that type.
/// (A lambda that carries its parameter type has a rule of its own.)
pub proof fn lemma_infer_application(index: u32, tcs: TCS, m: Expression, n: Expression, fuel: nat)
    requires
        !(m matches Expression::Lambda(_, Some(_), _)),
    ensures
        check_infer_s(index, tcs, m, fuel) matches Some(Ok(Value::Pi(t, g))) ==> (
        check_s(index, tcs, n, *t, fuel) matches Some(Ok(_)) ==> (eval_s(n, tcs.context, fuel) matches Some(v) ==> (
        instantiate_s(g, v, fuel) matches Some(r) ==> check_infer_s(
            index,
            tcs,
            Expression::Application(Box::new(m), Box::new(n)),
            fuel + 1,
        ) == Some(Ok::<Value, TCE>(r))))),
        check_infer_s(index, tcs, m, fuel) matches Some(Ok(v)) ==> (!(v is Pi) ==> check_infer_s(
            index,
            tcs,
            Expression::Application(Box::new(m), Box::new(n)),
            fuel + 1,
        ) == Some(Err::<Value, TCE>(TCE::WantPiBut(v, n)))),
{
}

/// Projections: where `M => \Sigma t g`, `M.1 => t`, and `M.2 => inst g (([[M]] rho).1)`;
/// where `M` has a type that is no Sigma type, both are refused with that type.
pub proof fn lemma_infer_projections(index: u32, tcs: TCS, m: Expression, fuel: nat)
    ensures
        check_infer_s(index, tcs, m, fuel) matches Some(Ok(Value::Sigma(t, g))) ==> (check_infer_s(
            index,
            tcs,
            Expression::First(Box::new(m)),
            fuel + 1,
        ) == Some(Ok::<Value, TCE>(*t)) && (eval_s(m, tcs.context, fuel) matches Some(v) ==> (spec_first(v) matches Some(
            v1,
        ) ==> (instantiate_s(g, v1, fuel) matches Some(r) ==> check_infer_s(
            index,
            tcs,
            Expression::Second(Box::new(m)),
            fuel + 1,
        ) == Some(Ok::<Value, TCE>(r)))))),
        check_infer_s(index, tcs, m, fuel) matches Some(Ok(v)) ==> (!(v is Sigma) ==> check_infer_s(
            index,
            tcs,
            Expression::First(Box::new(m)),
            fuel + 1,
        ) == Some(Err::<Value, TCE>(TCE::WantSigmaBut(v))) && check_infer_s(
            index,
            tcs,
            Expression::Second(Box::new(m)),
            fuel + 1,
        ) == Some(Err::<Value, TCE>(TCE::WantSigmaBut(v)))),
{
}

/// Inference of a pair (an extension): where `M => t` and `N => u`, `M, N` has the
/// non-dependent pair type `\Sigma t (_ => u)`.
pub proof fn lemma_infer_pair(index: u32, tcs: TCS, m: Expression, n: Expression, fuel: nat)
    ensures
        check_infer_s(index, tcs, m, fuel) matches Some(Ok(t)) ==> (check_infer_s(index, tcs, n, fuel) matches Some(
            Ok(u),
        ) ==> check_infer_s(index, tcs, Expression::Pair(Box::new(m), Box::new(n)), fuel + 1) == Some(
            Ok::<Value, TCE>(Value::Sigma(Box::new(t), Closure::Value(Box::new(u)))),
        )),
{
}

/// The split rule: a case-split is checked against `\Pi (Sum S) g` clause by clause,
/// each clause `c_i` against `\Pi [[A_i]] (g . c_i)`.
pub proof fn lemma_check_split_rule(index: u32, tcs: TCS, branches: Branch, sum: CaseTree, g: Closure, fuel: nat)
    ensures
        check_s(
            index,
            tcs,
            Expression::Split(branches),
            Value::Pi(Box::new(Value::Sum(sum)), g),
            fuel + 1,
        ) == check_split_s(index, tcs, branches, sum, g, fuel),
{
}

/// A case-split that checks covers the constructors of its sum exactly: a
/// constructor has a clause if and only if it is a case of the sum.
pub proof fn lemma_split_covers_sum(
    index: u32,
    tcs: TCS,
    branches: Branch,
    sum: CaseTree,
    g: Closure,
    fuel: nat,
    name: Seq<char>,
)
    requires
        check_split_s(index, tcs, branches, sum, g, fuel) matches Some(Ok(_)),
    ensures
        (branch_get(branches, name) is Some) <==> (branch_get(sum, name) is Some),
    decreases fuel,
{
    let f = (fuel - 1) as nat;
    match sum {
        List::Nil => {},
        List::Cons(entry, rest) => {
            let (found, remaining) = branch_remove(branches, entry.0@);
            lemma_branch_remove_get(branches, entry.0@, name);
            let branch_value = crate::eval::reduce_s(*entry.1, f)->Some_0;
            let tcs1 = check_s(
                index,
                tcs,
                found->Some_0,
                Value::Pi(Box::new(branch_value), Closure::Choice(Box::new(g), entry.0)),
                f,
            )->Some_0->Ok_0;
            lemma_split_covers_sum(index, tcs1, remaining, *rest, g, f, name);
        },
    }
}

/// The rule of a declaration `p : A = M`: where `A` is a type, `M <= [[A]]` and `p`
/// binds `[[A]]` against `[[M]]` to give `Gamma_1`, the declaration gives `Gamma_1`.
pub proof fn lemma_simple_declaration_rule(
    index: u32,
    tcs: TCS,
    p: Pattern,
    a: Expression,
    m: Expression,
    fuel: nat,
)
    ensures
        check_type_s(index, tcs, a, fuel) matches Some(Ok((_, tcs1))) ==> (eval_s(a, tcs1.context, fuel) matches Some(
            t,
        ) ==> (check_s(index, tcs1, m, t, fuel) matches Some(Ok(_)) ==> (update_gamma_lazy_s(
            tcs1.gamma,
            p,
            t,
            m,
            tcs1.context,
            fuel,
        ) matches Some(Ok(gamma1)) ==> check_simple_declaration_s(index, tcs, p, a, m, fuel + 1) == Some(
            Ok::<crate::check::tcm::Gamma, TCE>(gamma1),
        )))),
        check_type_s(index, tcs, a, fuel) matches Some(Ok((_, tcs1))) ==> (eval_s(a, tcs1.context, fuel) matches Some(
            t,
        ) ==> (check_s(index, tcs1, m, t, fuel) matches Some(Err(err)) ==> check_simple_declaration_s(
            index,
            tcs,
            p,
            a,
            m,
            fuel + 1,
        ) == Some(Err::<crate::check::tcm::Gamma, TCE>(try_locate(err, p))))),
{
}

/// The rule of a recursive declaration `rec p : A = M`: where `A` is a type and `M`
/// checks against `[[A]]` with `p` bound to a fresh variable of that type, `p` is
/// bound against the value of `M` in the context that holds the declaration itself.
pub proof fn lemma_recursive_declaration_rule(index: u32, tcs: TCS, d: Declaration, fuel: nat)
    requires
        index < u32::MAX,
    ensures
        check_type_s(index, tcs, d.signature, fuel) matches Some(Ok(_)) ==> (eval_s(d.signature, tcs.context, fuel) matches Some(
            t,
        ) ==> (tcs_update_s(tcs, d.pattern, t, generated(index), fuel) matches Some(Ok(fake)) ==> (check_s(
            (index + 1) as u32,
            fake,
            d.body,
            t,
            fuel,
        ) matches Some(Ok(_)) ==> (update_gamma_lazy_s(
            tcs.gamma,
            d.pattern,
            t,
            d.body,
            std::rc::Rc::new(GenericTelescope::UpDec(tcs.context, d)),
            fuel,
        ) matches Some(Ok(gamma1)) ==> check_recursive_declaration_s(index, tcs, d, fuel + 1) == Some(
            Ok::<crate::check::tcm::Gamma, TCE>(gamma1),
        ))))),
{
}

/// The signature and the body of what is checked under the prefix parameters.
pub open spec fn lift_body_parts(body: LiftBody) -> (Expression, Expression) {
    match body {
        LiftBody::Simple { signature, body, .. } => (signature, body),
        LiftBody::Recursive { declaration, .. } => (declaration.signature, declaration.body),
    }
}

/// `\Pi p_1: A_1. ... \Pi p_n: A_n. s`.
pub open spec fn pi_over(parameters: List<Typed>, s: Expression) -> Expression
    decreases parameters,
{
    match parameters {
        List::Nil => s,
        List::Cons(p, rest) => Expression::Pi(p, Box::new(pi_over(*rest, s))),
    }
}

/// `lifted` is `\lambda p_1. ... \lambda p_n. b`, each lambda carrying its parameter's type.
pub open spec fn lambdas_over(parameters: List<Typed>, b: Expression, lifted: Expression) -> bool
    decreases parameters,
{
    match parameters {
        List::Nil => lifted == b,
        List::Cons(p, rest) => lifted matches Expression::Lambda(q, Some(_), inner) && q == p.pattern && lambdas_over(
            *rest,
            b,
            *inner,
        ),
    }
}

/// Lifting prefix parameters: with none, the body is checked in the state given; with
/// some, where the check succeeds, the signature comes back as a Pi type over all the
/// parameters, in order, and the body as lambdas over their patterns.
pub proof fn lemma_lift_parameters(index: u32, tcs: TCS, parameters: List<Typed>, body: LiftBody, fuel: nat)
    ensures
        parameters is Nil ==> check_lift_parameters_s(index, tcs, parameters, body, fuel + 1) == check_body_s(
            tcs,
            body,
            fuel,
        ),
        check_lift_parameters_s(index, tcs, parameters, body, fuel) matches Some(Ok((signature, lifted, _))) ==> (
        signature == pi_over(parameters, lift_body_parts(body).0) && lambdas_over(
            parameters,
            lift_body_parts(body).1,
            lifted,
        )),
    decreases fuel,
{
    if fuel > 0 {
        let f = (fuel - 1) as nat;
        match parameters {
            List::Nil => {
                if check_body_s(tcs, body, f) matches Some(Ok(_)) {
                    assert(f > 0);
                }
            },
            List::Cons(parameter, rest) => {
                if let Some(Ok((_, tcs1))) = check_type_s(index, tcs, *parameter.expression, f) {
                    if let Some(type_val) = eval_s(*parameter.expression, tcs1.context, f) {
                        if let Some(Ok(tcs2)) = tcs_update_s(tcs1, parameter.pattern, type_val, generated(index), f) {
                            if index < u32::MAX {
                                lemma_lift_parameters((index + 1) as u32, tcs2, *rest, body, f);
                            }
                        }
                    }
                }
            },
        }
    }
}

/// The constructor rule: `c M` checks against `Sum S` exactly as `M` checks against
/// the type `[[A]]` of the case `c` of `S` (so it fails with `M`'s error wherever `M`
/// is no instance of `A`), and a constructor that is no case of `S` is refused.
pub proof fn lemma_check_constructor_rule(index: u32, tcs: TCS, c: String, m: Expression, cases: CaseTree, fuel: nat)
    ensures
        branch_get(cases, c@) matches Some(case) ==> (crate::eval::reduce_s(case, fuel) matches Some(t) ==> check_s(
            index,
            tcs,
            Expression::Constructor(c, Box::new(m)),
            Value::Sum(cases),
            fuel + 1,
        ) == check_s(index, tcs, m, t, fuel)),
        branch_get(cases, c@) matches Some(case) ==> (crate::eval::reduce_s(case, fuel) matches Some(t) ==> (check_s(
            index,
            tcs,
            m,
            t,
            fuel,
        ) matches Some(Err(err)) ==> check_s(
            index,
            tcs,
            Expression::Constructor(c, Box::new(m)),
            Value::Sum(cases),
            fuel + 1,
        ) == Some(Err::<TCS, TCE>(err)))),
        branch_get(cases, c@) is None ==> check_s(
            index,
            tcs,
            Expression::Constructor(c, Box::new(m)),
            Value::Sum(cases),
            fuel + 1,
        ) == Some(Err::<TCS, TCE>(TCE::InvalidConstructor(c))),
{
}

/// Subtyping of Pi and Sigma types is contravariant in the parameter type: where the
/// expected parameter type is no subtype of the given one, `\Pi t g <: \Pi t' g'` (and
/// the same for Sigma) fails with that error; where both the parameter types and the
/// bodies under a fresh variable are related, it holds.
pub proof fn lemma_subtype_binder_rule(
    index: u32,
    tcs: TCS,
    t: Value,
    g: Closure,
    t2: Value,
    g2: Closure,
    read_back: bool,
    fuel: nat,
)
    ensures
        crate::check::subtype::check_subtype_s(index, tcs, t2, t, true, fuel) matches Some(Err(e)) ==> (
        crate::check::subtype::check_subtype_s(
            index,
            tcs,
            Value::Pi(Box::new(t), g),
            Value::Pi(Box::new(t2), g2),
            read_back,
            fuel + 2,
        ) == Some(Err::<TCS, TCE>(e)) && crate::check::subtype::check_subtype_s(
            index,
            tcs,
            Value::Sigma(Box::new(t), g),
            Value::Sigma(Box::new(t2), g2),
            read_back,
            fuel + 2,
        ) == Some(Err::<TCS, TCE>(e))),
        crate::check::subtype::check_subtype_s(index, tcs, t2, t, true, fuel) matches Some(Ok(tcs1)) ==> (index
            < u32::MAX ==> (instantiate_s(g, generated(index), fuel) matches Some(b) ==> (instantiate_s(
            g2,
            generated(index),
            fuel,
        ) matches Some(b2) ==> (crate::check::subtype::check_subtype_s((index + 1) as u32, tcs1, b, b2, true, fuel)
            matches Some(Ok(_)) ==> crate::check::subtype::check_subtype_s(
            index,
            tcs,
            Value::Pi(Box::new(t), g),
            Value::Pi(Box::new(t2), g2),
            read_back,
            fuel + 2,
        ) == Some(Ok::<TCS, TCE>(tcs1)))))),
{
    assert(crate::check::subtype::check_subtype_s(
        index,
        tcs,
        Value::Pi(Box::new(t), g),
        Value::Pi(Box::new(t2), g2),
        read_back,
        fuel + 2,
    ) == crate::check::subtype::check_subtype_binder_s(index, tcs, t, g, t2, g2, fuel + 1));
    assert(crate::check::subtype::check_subtype_s(
        index,
        tcs,
        Value::Sigma(Box::new(t), g),
        Value::Sigma(Box::new(t2), g2),
        read_back,
        fuel + 2,
    ) == crate::check::subtype::check_subtype_binder_s(index, tcs, t, g, t2, g2, fuel + 1));
}

/// The rule of a pair against a Sigma type: `(M, N) <= \Sigma t g` holds where
/// `M <= t` and `N <= inst g ([[M]] rho)`, in the state that checking `M` leaves; it
/// fails with `M`'s error where `M` is no instance of `t`.
pub proof fn lemma_check_pair_rule(index: u32, tcs: TCS, m: Expression, n: Expression, t: Value, g: Closure, fuel: nat)
    ensures
        check_s(index, tcs, m, t, fuel) matches Some(Ok(tcs1)) ==> (eval_s(m, tcs1.context, fuel) matches Some(v) ==> (
        instantiate_s(g, v, fuel) matches Some(u) ==> check_s(
            index,
            tcs,
            Expression::Pair(Box::new(m), Box::new(n)),
            Value::Sigma(Box::new(t), g),
            fuel + 1,
        ) == check_s(index, tcs1, n, u, fuel))),
        check_s(index, tcs, m, t, fuel) matches Some(Err(err)) ==> check_s(
            index,
            tcs,
            Expression::Pair(Box::new(m), Box::new(n)),
            Value::Sigma(Box::new(t), g),
            fuel + 1,
        ) == Some(Err::<TCS, TCE>(err)),
{
}

/// The rule of a lambda against a Pi type: `\lambda p. M <= \Pi t g` holds where `M`
/// checks against `inst g [x_i]` with `p : t` bound to the fresh variable `x_i`, and the
/// state given back is the one given; `M`'s error is the lambda's.
pub proof fn lemma_check_lambda_rule(
    index: u32,
    tcs: TCS,
    p: Pattern,
    a: Option<crate::ast::AnonymousValue>,
    m: Expression,
    t: Value,
    g: Closure,
    fuel: nat,
)
    requires
        index < u32::MAX,
    ensures
        tcs_update_s(tcs, p, t, generated(index), fuel) matches Some(Ok(fake)) ==> (instantiate_s(
            g,
            generated(index),
            fuel,
        ) matches Some(u) ==> (check_s((index + 1) as u32, fake, m, u, fuel) matches Some(Ok(_)) ==> check_s(
            index,
            tcs,
            Expression::Lambda(p, a, Box::new(m)),
            Value::Pi(Box::new(t), g),
            fuel + 1,
        ) == Some(Ok::<TCS, TCE>(tcs))) && (check_s((index + 1) as u32, fake, m, u, fuel) matches Some(Err(err))
            ==> check_s(
            index,
            tcs,
            Expression::Lambda(p, a, Box::new(m)),
            Value::Pi(Box::new(t), g),
            fuel + 1,
        ) == Some(Err::<TCS, TCE>(err)))),
{
}

/// The rules of the constants: `0 <= 1`, `1 <= Type0`, and `Type_l <= Type_h` exactly
/// where `l < h` (otherwise the error names `Type_(l+1)` and `Type_h`).
pub proof fn lemma_check_constants(index: u32, tcs: TCS, l: u32, h: u32, fuel: nat)
    requires
        l < u32::MAX,
    ensures
        check_s(index, tcs, Expression::Unit, Value::One, fuel + 1) == Some(Ok::<TCS, TCE>(tcs)),
        check_s(index, tcs, Expression::One, Value::Type(0), fuel + 1) == Some(Ok::<TCS, TCE>(tcs)),
        l < h ==> check_s(index, tcs, Expression::Type(l), Value::Type(h), fuel + 1) == Some(Ok::<TCS, TCE>(tcs)),
        l >= h ==> check_s(index, tcs, Expression::Type(l), Value::Type(h), fuel + 1) == Some(
            Err::<TCS, TCE>(TCE::TypeMismatch(Value::Type((l + 1) as u32), Value::Type(h))),
        ),
{
}

/// Universes are ordered by their levels: `Type_a <: Type_b` exactly where `a <= b`.
pub proof fn lemma_subtype_universes(index: u32, tcs: TCS, a: u32, b: u32, read_back: bool, fuel: nat)
    ensures
        a <= b ==> crate::check::subtype::check_subtype_s(index, tcs, Value::Type(a), Value::Type(b), read_back, fuel + 1)
            == Some(Ok::<TCS, TCE>(tcs)),
        a > b ==> crate::check::subtype::check_subtype_s(index, tcs, Value::Type(a), Value::Type(b), read_back, fuel + 1)
            == Some(Err::<TCS, TCE>(TCE::TypeMismatch(Value::Type(a), Value::Type(b)))),
{
}

} // verus!

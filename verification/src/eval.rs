use std::rc::Rc;
use vstd::prelude::*;

use crate::ast::{branch_to_righted, righted, up_dec_rc, up_var_rc, Case, CaseTree, Closure, Either, Expression, GenericNeutral, GenericTelescope, Level, Pattern, Telescope, Value};
use crate::list::{
    branch_append, branch_append_exec, branch_get, branch_get_exec, branch_keys, branch_keys_exec, names_to_vec, Duplicate, List,
};
use crate::strings::{push_str, str_eq};

verus! {

/// The most evaluation steps that the executable functions without an explicit
/// fuel take: no evaluation that can run on a machine needs more.
pub const MAX_FUEL: u64 = 0xffff_ffff_ffff_ffffu64;

/// `inPat` in Mini-TT: whether `name` is bound by the pattern.
pub open spec fn pattern_contains(p: Pattern, name: Seq<char>) -> bool
    decreases p,
{
    match p {
        Pattern::Var(n) => n@ == name,
        Pattern::Pair(a, b) => pattern_contains(*a, name) || pattern_contains(*b, name),
        Pattern::Unit => false,
    }
}

/// `vfst` in Mini-TT: `(u, v).1 = u`, `[k].1 = [k.1]`; undefined on other values.
pub open spec fn spec_first(v: Value) -> Option<Value> {
    match v {
        Value::Pair(first, _) => Some(*first),
        Value::Neutral(k) => Some(Value::Neutral(GenericNeutral::First(Box::new(k)))),
        _ => None,
    }
}

/// `vsnd` in Mini-TT: `(u, v).2 = v`, `[k].2 = [k.2]`; undefined on other values.
pub open spec fn spec_second(v: Value) -> Option<Value> {
    match v {
        Value::Pair(_, second) => Some(*second),
        Value::Neutral(k) => Some(Value::Neutral(GenericNeutral::Second(Box::new(k)))),
        _ => None,
    }
}

/// `patProj` in Mini-TT. `None` where a projection of a value that is neither a
/// pair nor neutral is needed; `Some(Err(message))` where the name is not bound.
pub open spec fn project_s(p: Pattern, name: Seq<char>, v: Value) -> Option<Result<Value, Seq<char>>>
    decreases p,
{
    match p {
        Pattern::Pair(first, second) => if pattern_contains(*first, name) {
            match spec_first(v) {
                Some(x) => project_s(*first, name, x),
                None => None,
            }
        } else if pattern_contains(*second, name) {
            match spec_second(v) {
                Some(x) => project_s(*second, name, x),
                None => None,
            }
        } else {
            Some(Err("Cannot project with `"@ + name + "`"@))
        },
        Pattern::Var(pattern_name) => if pattern_name@ == name {
            Some(Ok(v))
        } else {
            Some(Err("Expected projection: `"@ + pattern_name@ + "`, found: `"@ + name + "`."@))
        },
        Pattern::Unit => Some(Err("Cannot project unit pattern"@)),
    }
}

/// `getRho` in Mini-TT, with at most `fuel` nested evaluation steps.
pub open spec fn resolve_s(ctx: GenericTelescope<Value>, name: Seq<char>, fuel: nat) -> Option<Result<Value, Seq<char>>>
    decreases fuel,
{
    if fuel == 0 {
        None
    } else {
        let f = (fuel - 1) as nat;
        match ctx {
            GenericTelescope::Nil => Some(Err("Unresolved reference: `"@ + name + "`."@)),
            GenericTelescope::UpDec(parent, declaration) => if pattern_contains(declaration.pattern, name) {
                let scope = if declaration.is_recursive {
                    Rc::new(GenericTelescope::UpDec(parent, declaration))
                } else {
                    parent
                };
                match eval_s(declaration.body, scope, f) {
                    Some(v) => project_s(declaration.pattern, name, v),
                    None => None,
                }
            } else {
                resolve_s(*parent, name, f)
            },
            GenericTelescope::UpVar(parent, pattern, v) => if pattern_contains(pattern, name) {
                project_s(pattern, name, v)
            } else {
                resolve_s(*parent, name, f)
            },
        }
    }
}

/// `inst` in Mini-TT: `inst <\lambda p. M, rho> v = [[M]](rho, p = v)`,
/// `inst (f . c) v = inst f (c v)`.
pub open spec fn instantiate_s(c: Closure, v: Value, fuel: nat) -> Option<Value>
    decreases fuel,
{
    if fuel == 0 {
        None
    } else {
        let f = (fuel - 1) as nat;
        match c {
            Closure::Abstraction(pattern, _, body, context) => eval_s(
                body,
                Rc::new(GenericTelescope::UpVar(*context, pattern, v)),
                f,
            ),
            Closure::Value(x) => Some(*x),
            Closure::Choice(inner, name) => instantiate_s(*inner, Value::Constructor(name, Box::new(v)), f),
        }
    }
}

/// Evaluates a case of a case tree.
pub open spec fn reduce_s(case: Case, fuel: nat) -> Option<Value>
    decreases fuel,
{
    if fuel == 0 {
        None
    } else {
        match case.expression {
            Either::Left(v) => Some(v),
            Either::Right(e) => eval_s(e, case.context, (fuel - 1) as nat),
        }
    }
}

/// `app` in Mini-TT.
pub open spec fn apply_s(function: Value, argument: Value, fuel: nat) -> Option<Value>
    decreases fuel,
{
    if fuel == 0 {
        None
    } else {
        let f = (fuel - 1) as nat;
        match function {
            Value::Lambda(closure) => instantiate_s(closure, argument, f),
            Value::Split(tree) => match argument {
                Value::Constructor(name, body) => match branch_get(tree, name@) {
                    Some(case) => match reduce_s(case, f) {
                        Some(g) => apply_s(g, *body, f),
                        None => None,
                    },
                    None => None,
                },
                Value::Neutral(k) => Some(Value::Neutral(GenericNeutral::Split(tree, Box::new(k)))),
                _ => None,
            },
            Value::Neutral(k) => Some(Value::Neutral(GenericNeutral::Application(Box::new(k), Box::new(argument)))),
            _ => None,
        }
    }
}

/// `eval` in Mini-TT: `[[M]] rho`, with at most `fuel` nested evaluation steps.
/// `None` where the evaluation gets stuck on an ill-typed term or runs out of fuel.
pub open spec fn eval_s(e: Expression, ctx: Telescope, fuel: nat) -> Option<Value>
    decreases fuel,
{
    if fuel == 0 {
        None
    } else {
        let f = (fuel - 1) as nat;
        match e {
            Expression::Unit => Some(Value::Unit),
            Expression::One => Some(Value::One),
            Expression::Type(level) => Some(Value::Type(level)),
            Expression::Var(name) => match resolve_s(*ctx, name@, f) {
                Some(Ok(v)) => Some(v),
                _ => None,
            },
            Expression::Sum(branch) => Some(Value::Sum(righted(branch, ctx))),
            Expression::Merge(left, right) => match eval_s(*left, ctx, f) {
                Some(Value::Sum(l)) => match eval_s(*right, ctx, f) {
                    Some(Value::Sum(r)) => Some(Value::Sum(branch_append(l, r))),
                    _ => None,
                },
                _ => None,
            },
            Expression::Split(branch) => Some(Value::Split(righted(branch, ctx))),
            Expression::Pi(input, output) => match eval_s(*input.expression, ctx, f) {
                Some(t) => Some(Value::Pi(
                    Box::new(t),
                    Closure::Abstraction(input.pattern, Some(Box::new(t)), *output, Box::new(ctx)),
                )),
                None => None,
            },
            Expression::Sigma(first, second) => match eval_s(*first.expression, ctx, f) {
                Some(t) => Some(Value::Sigma(
                    Box::new(t),
                    Closure::Abstraction(first.pattern, Some(Box::new(t)), *second, Box::new(ctx)),
                )),
                None => None,
            },
            Expression::Lambda(pattern, parameter_type, body) => Some(Value::Lambda(
                Closure::Abstraction(
                    pattern,
                    match parameter_type {
                        Some(t) => Some(t.internal),
                        None => None,
                    },
                    *body,
                    Box::new(ctx),
                ),
            )),
            Expression::First(pair) => match eval_s(*pair, ctx, f) {
                Some(v) => spec_first(v),
                None => None,
            },
            Expression::Second(pair) => match eval_s(*pair, ctx, f) {
                Some(v) => spec_second(v),
                None => None,
            },
            Expression::Application(function, argument) => match eval_s(*function, ctx, f) {
                Some(fv) => match eval_s(*argument, ctx, f) {
                    Some(av) => apply_s(fv, av, f),
                    None => None,
                },
                None => None,
            },
            Expression::Pair(first, second) => match eval_s(*first, ctx, f) {
                Some(a) => match eval_s(*second, ctx, f) {
                    Some(b) => Some(Value::Pair(Box::new(a), Box::new(b))),
                    None => None,
                },
                None => None,
            },
            Expression::Constructor(name, body) => match eval_s(*body, ctx, f) {
                Some(v) => Some(Value::Constructor(name, Box::new(v))),
                None => None,
            },
            Expression::Declaration(declaration, rest) => eval_s(
                *rest,
                Rc::new(GenericTelescope::UpDec(ctx, *declaration)),
                f,
            ),
            Expression::Constant(pattern, expression, rest) => match eval_s(*expression, ctx, f) {
                Some(v) => eval_s(*rest, Rc::new(GenericTelescope::UpVar(ctx, pattern, v)), f),
                None => None,
            },
            Expression::Void => None,
        }
    }
}

/// The value of an expression, where evaluation finishes.
pub open spec fn evaluate(e: Expression, ctx: Telescope) -> Option<Value> {
    eval_s(e, ctx, MAX_FUEL as nat)
}

/// How a lookup's result is seen by the specification: messages by their characters.
pub open spec fn lookup_view(r: Option<Result<Value, String>>) -> Option<Result<Value, Seq<char>>> {
    match r {
        None => None,
        Some(Ok(v)) => Some(Ok(v)),
        Some(Err(s)) => Some(Err(s@)),
    }
}

pub open spec fn result_view(r: Result<Value, String>) -> Result<Value, Seq<char>> {
    match r {
        Ok(v) => Ok(v),
        Err(s) => Err(s@),
    }
}

/// `max` on levels.
pub open spec fn max_level(a: Level, b: Level) -> Level {
    if a >= b { a } else { b }
}

/// Level of a Pi or Sigma component: one less than that of its type, at least 0.
pub open spec fn component_level(l: Option<Level>) -> Level {
    match l {
        Some(level) => if level > 1 { (level - 1) as Level } else { 0 },
        None => 0,
    }
}

/// Level of a type value (an extension of Mini-TT): `Some(None)` for a value that
/// is not a type, `None` where the computation gets stuck or overflows.
pub open spec fn level_s(v: Value, fuel: nat) -> Option<Option<Level>>
    decreases fuel,
{
    if fuel == 0 {
        None
    } else {
        let f = (fuel - 1) as nat;
        match v {
            Value::One => Some(Some(0)),
            Value::Type(level) => if level < u32::MAX {
                Some(Some((level + 1) as Level))
            } else {
                None
            },
            Value::Sum(branches) => match sum_level_s(branches, f) {
                Some(m) => Some(Some(if m > 0 { (m - 1) as Level } else { 0 })),
                None => None,
            },
            Value::Pi(first, second) => binder_level_s(*first, second, f),
            Value::Sigma(first, second) => binder_level_s(*first, second, f),
            _ => Some(None),
        }
    }
}

/// The greatest level of the cases of a sum (a case that is no type counts as 0).
pub open spec fn sum_level_s(branches: CaseTree, fuel: nat) -> Option<Level>
    decreases fuel,
{
    if fuel == 0 {
        None
    } else {
        let f = (fuel - 1) as nat;
        match branches {
            List::Nil => Some(0),
            List::Cons(entry, rest) => match reduce_s(*entry.1, f) {
                Some(v) => match level_s(v, f) {
                    Some(l) => match sum_level_s(*rest, f) {
                        Some(m) => Some(
                            max_level(
                                match l {
                                    Some(x) => x,
                                    None => 0,
                                },
                                m,
                            ),
                        ),
                        None => None,
                    },
                    None => None,
                },
                None => None,
            },
        }
    }
}

/// Level of `\Pi t g` or `\Sigma t g`.
pub open spec fn binder_level_s(first: Value, second: Closure, fuel: nat) -> Option<Option<Level>>
    decreases fuel,
{
    if fuel == 0 {
        None
    } else {
        let f = (fuel - 1) as nat;
        match level_s(first, f) {
            Some(a) => match instantiate_s(second, Value::Unit, f) {
                Some(body) => match level_s(body, f) {
                    Some(b) => Some(Some(max_level(component_level(a), component_level(b)))),
                    None => None,
                },
                None => None,
            },
            None => None,
        }
    }
}

fn pattern_contains_exec(p: &Pattern, name: &str) -> (r: bool)
    ensures
        r == pattern_contains(*p, name@),
    decreases p,
{
    match p {
        Pattern::Var(pattern_name) => str_eq(pattern_name.as_str(), name),
        Pattern::Pair(first, second) => pattern_contains_exec(first, name) || pattern_contains_exec(second, name),
        Pattern::Unit => false,
    }
}

fn string_of(s: &str) -> (r: String)
    ensures
        r@ == s@,
{
    let mut out = String::new();
    push_str(&mut out, s);
    out
}

impl Pattern {
    /// `inPat` in Mini-TT.
    pub fn contains(&self, name: &str) -> (r: bool)
        ensures
            r == pattern_contains(*self, name@),
    {
        pattern_contains_exec(self, name)
    }

    /// `patProj` in Mini-TT, where no projection gets stuck.
    pub fn project_checked(&self, name: &str, val: Value) -> (r: Option<Result<Value, String>>)
        ensures
            lookup_view(r) == project_s(*self, name@, val),
        decreases self,
    {
        match self {
            Pattern::Pair(first, second) => {
                if first.contains(name) {
                    match val.first_checked() {
                        Some(x) => first.project_checked(name, x),
                        None => None,
                    }
                } else if second.contains(name) {
                    match val.second_checked() {
                        Some(x) => second.project_checked(name, x),
                        None => None,
                    }
                } else {
                    let mut message = string_of("Cannot project with `");
                    push_str(&mut message, name);
                    push_str(&mut message, "`");
                    Some(Err(message))
                }
            },
            Pattern::Var(pattern_name) => {
                if str_eq(pattern_name.as_str(), name) {
                    Some(Ok(val))
                } else {
                    let mut message = string_of("Expected projection: `");
                    push_str(&mut message, pattern_name.as_str());
                    push_str(&mut message, "`, found: `");
                    push_str(&mut message, name);
                    push_str(&mut message, "`.");
                    Some(Err(message))
                }
            },
            Pattern::Unit => Some(Err(string_of("Cannot project unit pattern"))),
        }
    }

    /// `patProj` in Mini-TT: `proj^x_x(v) = v`,
    /// `proj^(p1, p2)_x(v) = proj^p1_x(v.1)` if `x` is in `p1`, else `proj^p2_x(v.2)`.
    pub fn project(&self, name: &str, val: Value) -> (r: Result<Value, String>)
        requires
            project_s(*self, name@, val) is Some,
        ensures
            Some(result_view(r)) == project_s(*self, name@, val),
    {
        match self.project_checked(name, val) {
            Some(r) => r,
            None => {
                assert(false);
                Err(String::new())
            },
        }
    }
}

impl GenericTelescope<Value> {
    /// `getRho` in Mini-TT, with at most `fuel` nested evaluation steps.
    pub fn resolve_fuel(&self, name: &str, fuel: u64) -> (r: Option<Result<Value, String>>)
        ensures
            lookup_view(r) == resolve_s(*self, name@, fuel as nat),
        decreases fuel,
    {
        if fuel == 0 {
            return None;
        }
        let f = fuel - 1;
        match self {
            GenericTelescope::Nil => {
                let mut message = string_of("Unresolved reference: `");
                push_str(&mut message, name);
                push_str(&mut message, "`.");
                Some(Err(message))
            },
            GenericTelescope::UpDec(context, declaration) => {
                let pattern = &declaration.pattern;
                if pattern.contains(name) {
                    let scope = if declaration.is_recursive {
                        up_dec_rc(context.clone(), declaration.duplicate())
                    } else {
                        context.clone()
                    };
                    match declaration.body.duplicate().eval_fuel(scope, f) {
                        Some(v) => pattern.project_checked(name, v),
                        None => None,
                    }
                } else {
                    context.resolve_fuel(name, f)
                }
            },
            GenericTelescope::UpVar(context, pattern, val) => {
                if pattern.contains(name) {
                    pattern.project_checked(name, val.duplicate())
                } else {
                    context.resolve_fuel(name, f)
                }
            },
        }
    }

    /// `getRho` in Mini-TT: `(rho, p = v)(x) = proj^p_x(v)`,
    /// `(rho, p : A = M)(x) = proj^p_x([[M]] rho)`,
    /// `(rho, rec p : A = M)(x) = proj^p_x([[M]](rho, rec p : A = M))` if `x` is in `p`;
    /// otherwise `rho(x)`.
    pub fn resolve(&self, name: &str) -> (r: Result<Value, String>)
        requires
            resolve_s(*self, name@, MAX_FUEL as nat) is Some,
        ensures
            Some(result_view(r)) == resolve_s(*self, name@, MAX_FUEL as nat),
    {
        match self.resolve_fuel(name, MAX_FUEL) {
            Some(r) => r,
            None => {
                assert(false);
                Err(String::new())
            },
        }
    }
}

impl Closure {
    /// `inst` in Mini-TT, with at most `fuel` nested evaluation steps.
    pub fn instantiate_fuel(self, value: Value, fuel: u64) -> (r: Option<Value>)
        ensures
            r == instantiate_s(self, value, fuel as nat),
        decreases fuel,
    {
        if fuel == 0 {
            return None;
        }
        let f = fuel - 1;
        match self {
            Closure::Abstraction(pattern, _, expression, context) => {
                expression.eval_fuel(up_var_rc(*context, pattern, value), f)
            },
            Closure::Value(v) => Some(*v),
            Closure::Choice(closure, name) => {
                (*closure).instantiate_fuel(Value::Constructor(name, Box::new(value)), f)
            },
        }
    }

    /// `inst` in Mini-TT: instantiates a closure with `value`.
    pub fn instantiate(self, value: Value) -> (r: Value)
        requires
            instantiate_s(self, value, MAX_FUEL as nat) is Some,
        ensures
            Some(r) == instantiate_s(self, value, MAX_FUEL as nat),
    {
        match self.instantiate_fuel(value, MAX_FUEL) {
            Some(v) => v,
            None => {
                assert(false);
                Value::Unit
            },
        }
    }
}

impl Case {
    /// Evaluates a case, with at most `fuel` nested evaluation steps.
    pub fn reduce_to_value_fuel(self, fuel: u64) -> (r: Option<Value>)
        ensures
            r == reduce_s(self, fuel as nat),
        decreases fuel,
    {
        if fuel == 0 {
            return None;
        }
        match self.expression {
            Either::Left(v) => Some(v),
            Either::Right(e) => e.eval_fuel(self.context, fuel - 1),
        }
    }

    /// Evaluates a case of a case tree under its context.
    pub fn reduce_to_value(self) -> (r: Value)
        requires
            reduce_s(self, MAX_FUEL as nat) is Some,
        ensures
            Some(r) == reduce_s(self, MAX_FUEL as nat),
    {
        match self.reduce_to_value_fuel(MAX_FUEL) {
            Some(v) => v,
            None => {
                assert(false);
                Value::Unit
            },
        }
    }
}

impl Value {
    /// `vfst` where it is defined.
    pub fn first_checked(self) -> (r: Option<Value>)
        ensures
            r == spec_first(self),
    {
        match self {
            Value::Pair(first, _) => Some(*first),
            Value::Neutral(neutral) => Some(Value::Neutral(GenericNeutral::First(Box::new(neutral)))),
            _ => None,
        }
    }

    /// `vsnd` where it is defined.
    pub fn second_checked(self) -> (r: Option<Value>)
        ensures
            r == spec_second(self),
    {
        match self {
            Value::Pair(_, second) => Some(*second),
            Value::Neutral(neutral) => Some(Value::Neutral(GenericNeutral::Second(Box::new(neutral)))),
            _ => None,
        }
    }

    /// `vfst` in Mini-TT: `(u, v).1 = u`, `[k].1 = [k.1]`.
    pub fn first(self) -> (r: Self)
        requires
            spec_first(self) is Some,
        ensures
            Some(r) == spec_first(self),
    {
        match self.first_checked() {
            Some(v) => v,
            None => Value::Unit,
        }
    }

    /// `vsnd` in Mini-TT: `(u, v).2 = v`, `[k].2 = [k.2]`.
    pub fn second(self) -> (r: Self)
        requires
            spec_second(self) is Some,
        ensures
            Some(r) == spec_second(self),
    {
        match self.second_checked() {
            Some(v) => v,
            None => Value::Unit,
        }
    }

    /// Both projections of a pair (or of a neutral value) at once.
    pub fn destruct(self) -> (r: (Self, Self))
        requires
            spec_first(self) is Some,
        ensures
            Some(r.0) == spec_first(self),
            Some(r.1) == spec_second(self),
    {
        match self {
            Value::Pair(first, second) => (*first, *second),
            Value::Neutral(neutral) => (
                Value::Neutral(GenericNeutral::First(Box::new(neutral.duplicate()))),
                Value::Neutral(GenericNeutral::Second(Box::new(neutral))),
            ),
            _ => (Value::Unit, Value::Unit),
        }
    }

    /// `app` in Mini-TT, with at most `fuel` nested evaluation steps.
    pub fn apply_fuel(self, argument: Self, fuel: u64) -> (r: Option<Value>)
        ensures
            r == apply_s(self, argument, fuel as nat),
        decreases fuel,
    {
        if fuel == 0 {
            return None;
        }
        let f = fuel - 1;
        match self {
            Value::Lambda(closure) => closure.instantiate_fuel(argument, f),
            Value::Split(case_tree) => match argument {
                Value::Constructor(name, body) => match branch_get_exec(&case_tree, name.as_str()) {
                    Some(case) => match case.duplicate().reduce_to_value_fuel(f) {
                        Some(g) => g.apply_fuel(*body, f),
                        None => None,
                    },
                    None => None,
                },
                Value::Neutral(neutral) => Some(
                    Value::Neutral(GenericNeutral::Split(case_tree, Box::new(neutral))),
                ),
                _ => None,
            },
            Value::Neutral(neutral) => Some(
                Value::Neutral(GenericNeutral::Application(Box::new(neutral), Box::new(argument))),
            ),
            _ => None,
        }
    }

    /// `app` in Mini-TT: `app (\lambda f) v = inst f v`,
    /// `app (fun <S, rho>) (c_i v) = app ([[M_i]] rho) v`, `app (fun s) [k] = [s k]`,
    /// `app [k] v = [k v]`.
    pub fn apply(self, argument: Self) -> (r: Self)
        requires
            apply_s(self, argument, MAX_FUEL as nat) is Some,
        ensures
            Some(r) == apply_s(self, argument, MAX_FUEL as nat),
    {
        match self.apply_fuel(argument, MAX_FUEL) {
            Some(v) => v,
            None => {
                assert(false);
                Value::Unit
            },
        }
    }

    /// Level of a type value, with at most `fuel` nested steps.
    pub fn level_safe_fuel(&self, fuel: u64) -> (r: Option<Option<Level>>)
        ensures
            r == level_s(*self, fuel as nat),
        decreases fuel,
    {
        if fuel == 0 {
            return None;
        }
        let f = fuel - 1;
        match self {
            Value::One => Some(Some(0)),
            Value::Type(level) => if *level < u32::MAX {
                Some(Some(*level + 1))
            } else {
                None
            },
            Value::Sum(branches) => match sum_level_fuel(branches, f) {
                Some(m) => Some(Some(if m > 0 { m - 1 } else { 0 })),
                None => None,
            },
            Value::Pi(first, second) => binder_level_fuel(first, second, f),
            Value::Sigma(first, second) => binder_level_fuel(first, second, f),
            _ => Some(None),
        }
    }

    /// The level of a type value (not present in Mini-TT): `1` is of level 0,
    /// `Type_l` of level `l + 1`; `None` if `self` is not a type.
    pub fn level_safe(&self) -> (r: Option<Level>)
        requires
            level_s(*self, MAX_FUEL as nat) is Some,
        ensures
            Some(r) == level_s(*self, MAX_FUEL as nat),
    {
        match self.level_safe_fuel(MAX_FUEL) {
            Some(r) => r,
            None => {
                assert(false);
                None
            },
        }
    }

    /// The level of a type value.
    pub fn level(&self) -> (r: Level)
        requires
            level_s(*self, MAX_FUEL as nat) matches Some(Some(_)),
        ensures
            level_s(*self, MAX_FUEL as nat) == Some(Some(r)),
    {
        match self.level_safe() {
            Some(l) => l,
            None => 0,
        }
    }
}

fn sum_level_fuel(branches: &CaseTree, fuel: u64) -> (r: Option<Level>)
    ensures
        r == sum_level_s(*branches, fuel as nat),
    decreases fuel,
{
    if fuel == 0 {
        return None;
    }
    let f = fuel - 1;
    match branches {
        List::Nil => Some(0),
        List::Cons(entry, rest) => match (*entry.1).duplicate().reduce_to_value_fuel(f) {
            Some(v) => match v.level_safe_fuel(f) {
                Some(l) => match sum_level_fuel(&**rest, f) {
                    Some(m) => {
                        let x = match l {
                            Some(x) => x,
                            None => 0,
                        };
                        Some(if x >= m { x } else { m })
                    },
                    None => None,
                },
                None => None,
            },
            None => None,
        },
    }
}

fn component_level_exec(l: Option<Level>) -> (r: Level)
    ensures
        r == component_level(l),
{
    match l {
        Some(level) => if level > 1 { level - 1 } else { 0 },
        None => 0,
    }
}

fn binder_level_fuel(first: &Value, second: &Closure, fuel: u64) -> (r: Option<Option<Level>>)
    ensures
        r == binder_level_s(*first, *second, fuel as nat),
    decreases fuel,
{
    if fuel == 0 {
        return None;
    }
    let f = fuel - 1;
    match first.level_safe_fuel(f) {
        Some(a) => match second.duplicate().instantiate_fuel(Value::Unit, f) {
            Some(body) => match body.level_safe_fuel(f) {
                Some(b) => {
                    let x = component_level_exec(a);
                    let y = component_level_exec(b);
                    Some(Some(if x >= y { x } else { y }))
                },
                None => None,
            },
            None => None,
        },
        None => None,
    }
}

impl Expression {
    /// `eval` in Mini-TT, with at most `fuel` nested evaluation steps: `None` where
    /// the evaluation gets stuck on an ill-typed term or runs out of fuel.
    pub fn eval_fuel(self, context: Telescope, fuel: u64) -> (r: Option<Value>)
        ensures
            r == eval_s(self, context, fuel as nat),
        decreases fuel,
    {
        if fuel == 0 {
            return None;
        }
        let f = fuel - 1;
        match self {
            Expression::Unit => Some(Value::Unit),
            Expression::One => Some(Value::One),
            Expression::Type(level) => Some(Value::Type(level)),
            Expression::Var(name) => match context.resolve_fuel(name.as_str(), f) {
                Some(Ok(v)) => Some(v),
                _ => None,
            },
            Expression::Sum(constructors) => Some(Value::Sum(branch_to_righted(constructors, context))),
            Expression::Merge(left, right) => {
                let left = match (*left).eval_fuel(context.clone(), f) {
                    Some(Value::Sum(constructors)) => constructors,
                    _ => return None,
                };
                let right = match (*right).eval_fuel(context, f) {
                    Some(Value::Sum(constructors)) => constructors,
                    _ => return None,
                };
                Some(Value::Sum(branch_append_exec(left, right)))
            },
            Expression::Split(case_tree) => Some(Value::Split(branch_to_righted(case_tree, context))),
            Expression::Pi(input, output) => {
                let pattern = input.pattern;
                match (*input.expression).eval_fuel(context.clone(), f) {
                    Some(t) => {
                        let extra_info = Some(Box::new(t.duplicate()));
                        Some(Value::Pi(
                            Box::new(t),
                            Closure::Abstraction(pattern, extra_info, *output, Box::new(context)),
                        ))
                    },
                    None => None,
                }
            },
            Expression::Sigma(first, second) => {
                let pattern = first.pattern;
                match (*first.expression).eval_fuel(context.clone(), f) {
                    Some(t) => {
                        let extra_info = Some(Box::new(t.duplicate()));
                        Some(Value::Sigma(
                            Box::new(t),
                            Closure::Abstraction(pattern, extra_info, *second, Box::new(context)),
                        ))
                    },
                    None => None,
                }
            },
            Expression::Lambda(pattern, parameter_type, body) => Some(Value::Lambda(
                Closure::Abstraction(
                    pattern,
                    match parameter_type {
                        Some(t) => Some(t.internal),
                        None => None,
                    },
                    *body,
                    Box::new(context),
                ),
            )),
            Expression::First(pair) => match (*pair).eval_fuel(context, f) {
                Some(v) => v.first_checked(),
                None => None,
            },
            Expression::Second(pair) => match (*pair).eval_fuel(context, f) {
                Some(v) => v.second_checked(),
                None => None,
            },
            Expression::Application(function, argument) => match (*function).eval_fuel(context.clone(), f) {
                Some(fv) => match (*argument).eval_fuel(context, f) {
                    Some(av) => fv.apply_fuel(av, f),
                    None => None,
                },
                None => None,
            },
            Expression::Pair(first, second) => match (*first).eval_fuel(context.clone(), f) {
                Some(a) => match (*second).eval_fuel(context, f) {
                    Some(b) => Some(Value::Pair(Box::new(a), Box::new(b))),
                    None => None,
                },
                None => None,
            },
            Expression::Constructor(name, body) => match (*body).eval_fuel(context, f) {
                Some(v) => Some(Value::Constructor(name, Box::new(v))),
                None => None,
            },
            Expression::Declaration(declaration, rest) => (*rest).eval_fuel(up_dec_rc(context, *declaration), f),
            Expression::Constant(pattern, expression, rest) => match (*expression).eval_fuel(context.clone(), f) {
                Some(v) => (*rest).eval_fuel(up_var_rc(context, pattern, v), f),
                None => None,
            },
            Expression::Void => None,
        }
    }

    /// `eval` in Mini-TT: `[[M]] rho`.
    pub fn eval(self, context: Telescope) -> (r: Value)
        requires
            evaluate(self, context) is Some,
        ensures
            Some(r) == evaluate(self, context),
    {
        match self.eval_fuel(context, MAX_FUEL) {
            Some(v) => v,
            None => {
                assert(false);
                Value::Unit
            },
        }
    }

    /// The constructor names of the sum that `self` evaluates to, in order, or `None`
    /// if it does not evaluate to a sum.
    pub fn eval_to_sum_fuel(self, context: Telescope, fuel: u64) -> (r: Option<Option<Vec<String>>>)
        ensures
            match eval_s(self, context, fuel as nat) {
                Some(Value::Sum(constructors)) => r matches Some(Some(names)) && names@ == branch_keys(constructors).seq(),
                Some(_) => r matches Some(None),
                None => r is None,
            },
    {
        match self.eval_fuel(context, fuel) {
            Some(Value::Sum(constructors)) => Some(Some(names_to_vec(&branch_keys_exec(&constructors)))),
            Some(_) => Some(None),
            None => None,
        }
    }

    /// The constructor names of the sum that `self` evaluates to, in order, or `None`
    /// if it evaluates to another value.
    pub fn eval_to_sum(self, context: Telescope) -> (r: Option<Vec<String>>)
        requires
            evaluate(self, context) is Some,
        ensures
            match evaluate(self, context) {
                Some(Value::Sum(constructors)) => r matches Some(names) && names@ == branch_keys(constructors).seq(),
                _ => r is None,
            },
    {
        match self.eval_to_sum_fuel(context, MAX_FUEL) {
            Some(r) => r,
            None => None,
        }
    }
}

} // verus!

verus! {

/// Evaluation does not depend on the fuel once it finishes: more fuel gives the same
/// value.
pub proof fn lemma_eval_fuel(e: Expression, ctx: Telescope, n: nat, m: nat)
    requires
        n <= m,
        eval_s(e, ctx, n) is Some,
    ensures
        eval_s(e, ctx, m) == eval_s(e, ctx, n),
    decreases n,
{
    let f = (n - 1) as nat;
    let g = (m - 1) as nat;
    match e {
        Expression::Var(name) => {
            lemma_resolve_fuel(telescope_of(ctx), name@, f, g);
        },
        Expression::Merge(left, right) => {
            lemma_eval_fuel(*left, ctx, f, g);
            lemma_eval_fuel(*right, ctx, f, g);
        },
        Expression::Pi(input, _) => {
            lemma_eval_fuel(*input.expression, ctx, f, g);
        },
        Expression::Sigma(first, _) => {
            lemma_eval_fuel(*first.expression, ctx, f, g);
        },
        Expression::First(pair) => {
            lemma_eval_fuel(*pair, ctx, f, g);
        },
        Expression::Second(pair) => {
            lemma_eval_fuel(*pair, ctx, f, g);
        },
        Expression::Application(function, argument) => {
            lemma_eval_fuel(*function, ctx, f, g);
            lemma_eval_fuel(*argument, ctx, f, g);
            let fv = eval_s(*function, ctx, f).unwrap();
            let av = eval_s(*argument, ctx, f).unwrap();
            lemma_apply_fuel(fv, av, f, g);
        },
        Expression::Pair(first, second) => {
            lemma_eval_fuel(*first, ctx, f, g);
            lemma_eval_fuel(*second, ctx, f, g);
        },
        Expression::Constructor(_, body) => {
            lemma_eval_fuel(*body, ctx, f, g);
        },
        Expression::Declaration(declaration, rest) => {
            lemma_eval_fuel(*rest, Rc::new(GenericTelescope::UpDec(ctx, *declaration)), f, g);
        },
        Expression::Constant(pattern, expression, rest) => {
            lemma_eval_fuel(*expression, ctx, f, g);
            let v = eval_s(*expression, ctx, f).unwrap();
            lemma_eval_fuel(*rest, Rc::new(GenericTelescope::UpVar(ctx, pattern, v)), f, g);
        },
        _ => {},
    }
}

/// The telescope that a shared reference points to.
pub open spec fn telescope_of<V>(t: Rc<GenericTelescope<V>>) -> GenericTelescope<V> {
    *t
}

/// Lookups do not depend on the fuel once they finish.
pub proof fn lemma_resolve_fuel(ctx: GenericTelescope<Value>, name: Seq<char>, n: nat, m: nat)
    requires
        n <= m,
        resolve_s(ctx, name, n) is Some,
    ensures
        resolve_s(ctx, name, m) == resolve_s(ctx, name, n),
    decreases n,
{
    let f = (n - 1) as nat;
    let g = (m - 1) as nat;
    if ctx is UpDec {
        let parent = ctx->UpDec_0;
        let declaration = ctx->UpDec_1;
        if pattern_contains(declaration.pattern, name) {
            let scope = if declaration.is_recursive {
                Rc::new(GenericTelescope::UpDec(parent, declaration))
            } else {
                parent
            };
            lemma_eval_fuel(declaration.body, scope, f, g);
        } else {
            lemma_resolve_fuel(telescope_of(ctx->UpDec_0), name, f, g);
        }
    } else if ctx is UpVar {
        if !pattern_contains(ctx->UpVar_1, name) {
            lemma_resolve_fuel(telescope_of(ctx->UpVar_0), name, f, g);
        }
    }
}

/// Instantiation does not depend on the fuel once it finishes.
pub proof fn lemma_instantiate_fuel(c: Closure, v: Value, n: nat, m: nat)
    requires
        n <= m,
        instantiate_s(c, v, n) is Some,
    ensures
        instantiate_s(c, v, m) == instantiate_s(c, v, n),
    decreases n,
{
    let f = (n - 1) as nat;
    let g = (m - 1) as nat;
    match c {
        Closure::Abstraction(pattern, _, body, context) => {
            lemma_eval_fuel(body, Rc::new(GenericTelescope::UpVar(*context, pattern, v)), f, g);
        },
        Closure::Value(_) => {},
        Closure::Choice(inner, name) => {
            lemma_instantiate_fuel(*inner, Value::Constructor(name, Box::new(v)), f, g);
        },
    }
}

/// Evaluating a case does not depend on the fuel once it finishes.
pub proof fn lemma_reduce_fuel(case: Case, n: nat, m: nat)
    requires
        n <= m,
        reduce_s(case, n) is Some,
    ensures
        reduce_s(case, m) == reduce_s(case, n),
    decreases n,
{
    match case.expression {
        Either::Left(_) => {},
        Either::Right(e) => {
            lemma_eval_fuel(e, case.context, (n - 1) as nat, (m - 1) as nat);
        },
    }
}

/// Application does not depend on the fuel once it finishes.
pub proof fn lemma_apply_fuel(function: Value, argument: Value, n: nat, m: nat)
    requires
        n <= m,
        apply_s(function, argument, n) is Some,
    ensures
        apply_s(function, argument, m) == apply_s(function, argument, n),
    decreases n,
{
    let f = (n - 1) as nat;
    let g = (m - 1) as nat;
    match function {
        Value::Lambda(closure) => {
            lemma_instantiate_fuel(closure, argument, f, g);
        },
        Value::Split(tree) => {
            if let Value::Constructor(name, body) = argument {
                let case = branch_get(tree, name@).unwrap();
                lemma_reduce_fuel(case, f, g);
                lemma_apply_fuel(reduce_s(case, f).unwrap(), *body, f, g);
            }
        },
        _ => {},
    }
}

/// The value of an expression is the value that evaluation finds with any fuel with
/// which it finishes.
pub proof fn lemma_evaluate(e: Expression, ctx: Telescope, n: nat)
    requires
        n <= MAX_FUEL,
        eval_s(e, ctx, n) is Some,
    ensures
        evaluate(e, ctx) == eval_s(e, ctx, n),
{
    lemma_eval_fuel(e, ctx, n, MAX_FUEL as nat);
}


/// Projection finds exactly the names that the pattern binds: a name that the
/// pattern does not bind is an error, and a bound name is never one (the projection
/// can only get stuck on a value that is neither a pair nor neutral).
pub proof fn lemma_project_bound(p: Pattern, name: Seq<char>, v: Value)
    ensures
        (project_s(p, name, v) matches Some(Err(_))) <==> !pattern_contains(p, name),
    decreases p,
{
    if let Pattern::Pair(first, second) = p {
        if pattern_contains(*first, name) {
            if let Some(x) = spec_first(v) {
                lemma_project_bound(*first, name, x);
            }
        } else if pattern_contains(*second, name) {
            if let Some(x) = spec_second(v) {
                lemma_project_bound(*second, name, x);
            }
        }
    }
}

/// Projecting a pair pattern of two names out of a pair gives the component of
/// each name.
pub proof fn lemma_project_pair(x: String, y: String, a: Value, b: Value)
    requires
        x@ != y@,
    ensures
        project_s(
            Pattern::Pair(Box::new(Pattern::Var(x)), Box::new(Pattern::Var(y))),
            x@,
            Value::Pair(Box::new(a), Box::new(b)),
        ) == Some(Ok::<Value, Seq<char>>(a)),
        project_s(
            Pattern::Pair(Box::new(Pattern::Var(x)), Box::new(Pattern::Var(y))),
            y@,
            Value::Pair(Box::new(a), Box::new(b)),
        ) == Some(Ok::<Value, Seq<char>>(b)),
{
    reveal_with_fuel(project_s, 2);
    reveal_with_fuel(pattern_contains, 2);
}

/// Reading a name just bound in the evaluation context gives the bound value.
pub proof fn lemma_resolve_bound(ctx: Telescope, x: String, v: Value, fuel: nat)
    requires
        fuel > 0,
    ensures
        resolve_s(GenericTelescope::UpVar(ctx, Pattern::Var(x), v), x@, fuel) == Some(Ok::<Value, Seq<char>>(v)),
{
}

/// Binding a pattern leaves every name that it does not bind as it was.
pub proof fn lemma_resolve_frame(ctx: Telescope, p: Pattern, v: Value, name: Seq<char>, fuel: nat)
    requires
        !pattern_contains(p, name),
    ensures
        resolve_s(GenericTelescope::UpVar(ctx, p, v), name, fuel + 1) == resolve_s(*ctx, name, fuel),
{
}


/// `1` is a type of level 0 and `Type_l` one of level `l + 1`.
pub proof fn lemma_level_universes(l: Level, fuel: nat)
    requires
        fuel > 0,
        l < u32::MAX,
    ensures
        level_s(Value::One, fuel) == Some(Some(0u32)),
        level_s(Value::Type(l), fuel) == Some(Some((l + 1) as u32)),
{
}


/// The level of a type does not depend on the fuel once its computation finishes.
pub proof fn lemma_level_fuel(v: Value, n: nat, m: nat)
    requires
        n <= m,
        level_s(v, n) is Some,
    ensures
        level_s(v, m) == level_s(v, n),
    decreases n,
{
    let f = (n - 1) as nat;
    let g = (m - 1) as nat;
    match v {
        Value::Sum(branches) => lemma_sum_level_fuel(branches, f, g),
        Value::Pi(first, second) => lemma_binder_level_fuel(*first, second, f, g),
        Value::Sigma(first, second) => lemma_binder_level_fuel(*first, second, f, g),
        _ => {},
    }
}

/// The sum case of `lemma_level_fuel`.
pub proof fn lemma_sum_level_fuel(branches: CaseTree, n: nat, m: nat)
    requires
        n <= m,
        sum_level_s(branches, n) is Some,
    ensures
        sum_level_s(branches, m) == sum_level_s(branches, n),
    decreases n,
{
    let f = (n - 1) as nat;
    let g = (m - 1) as nat;
    if let List::Cons(entry, rest) = branches {
        lemma_reduce_fuel(*entry.1, f, g);
        let v = reduce_s(*entry.1, f).unwrap();
        lemma_level_fuel(v, f, g);
        lemma_sum_level_fuel(*rest, f, g);
    }
}

/// The Pi and Sigma case of `lemma_level_fuel`.
pub proof fn lemma_binder_level_fuel(first: Value, second: Closure, n: nat, m: nat)
    requires
        n <= m,
        binder_level_s(first, second, n) is Some,
    ensures
        binder_level_s(first, second, m) == binder_level_s(first, second, n),
    decreases n,
{
    let f = (n - 1) as nat;
    let g = (m - 1) as nat;
    lemma_level_fuel(first, f, g);
    lemma_instantiate_fuel(second, Value::Unit, f, g);
    let body = instantiate_s(second, Value::Unit, f).unwrap();
    lemma_level_fuel(body, f, g);
}


/// `[[M N]] rho = app([[M]] rho, [[N]] rho)`, for the values that evaluation finds.
pub proof fn lemma_evaluate_application(m: Expression, n: Expression, rho: Telescope)
    requires
        evaluate(Expression::Application(Box::new(m), Box::new(n)), rho) is Some,
    ensures
        evaluate(m, rho) is Some,
        evaluate(n, rho) is Some,
        evaluate(Expression::Application(Box::new(m), Box::new(n)), rho) == apply_s(
            evaluate(m, rho)->Some_0,
            evaluate(n, rho)->Some_0,
            MAX_FUEL as nat,
        ),
{
    let f = (MAX_FUEL - 1) as nat;
    lemma_eval_fuel(m, rho, f, MAX_FUEL as nat);
    lemma_eval_fuel(n, rho, f, MAX_FUEL as nat);
    lemma_apply_fuel(eval_s(m, rho, f)->Some_0, eval_s(n, rho, f)->Some_0, f, MAX_FUEL as nat);
}

/// `[[D; M]] rho = [[M]] (rho, D)`.
pub proof fn lemma_evaluate_declaration(d: crate::ast::Declaration, m: Expression, rho: Telescope)
    requires
        evaluate(Expression::Declaration(Box::new(d), Box::new(m)), rho) is Some,
    ensures
        evaluate(Expression::Declaration(Box::new(d), Box::new(m)), rho) == evaluate(
            m,
            Rc::new(GenericTelescope::UpDec(rho, d)),
        ),
{
    lemma_eval_fuel(m, Rc::new(GenericTelescope::UpDec(rho, d)), (MAX_FUEL - 1) as nat, MAX_FUEL as nat);
}

/// `[[const p = N; M]] rho = [[M]] (rho, p = [[N]] rho)`.
pub proof fn lemma_evaluate_constant(p: Pattern, n: Expression, m: Expression, rho: Telescope)
    requires
        evaluate(Expression::Constant(p, Box::new(n), Box::new(m)), rho) is Some,
    ensures
        evaluate(n, rho) is Some,
        evaluate(Expression::Constant(p, Box::new(n), Box::new(m)), rho) == evaluate(
            m,
            Rc::new(GenericTelescope::UpVar(rho, p, evaluate(n, rho)->Some_0)),
        ),
{
    let f = (MAX_FUEL - 1) as nat;
    lemma_eval_fuel(n, rho, f, MAX_FUEL as nat);
    lemma_eval_fuel(m, Rc::new(GenericTelescope::UpVar(rho, p, eval_s(n, rho, f)->Some_0)), f, MAX_FUEL as nat);
}

/// `[[x]] rho = rho(x)`: a name evaluates to what the context resolves it to, and
/// the empty program has no value.
pub proof fn lemma_evaluate_var(x: String, rho: Telescope)
    ensures
        evaluate(Expression::Var(x), rho) is Some ==> resolve_s(telescope_of(rho), x@, MAX_FUEL as nat) == Some(
            Ok::<Value, Seq<char>>(evaluate(Expression::Var(x), rho)->Some_0),
        ),
        evaluate(Expression::Void, rho) is None,
{
    let f = (MAX_FUEL - 1) as nat;
    if resolve_s(telescope_of(rho), x@, f) is Some {
        lemma_resolve_fuel(telescope_of(rho), x@, f, MAX_FUEL as nat);
    }
}

/// `(rho, D)(x)`: a name that the declaration binds is projected out of the value of
/// its body (under `rho, D` for a recursive declaration, `rho` otherwise); any
/// other name is looked up in `rho`.
pub proof fn lemma_resolve_declaration(rho: Telescope, d: crate::ast::Declaration, x: Seq<char>)
    requires
        resolve_s(GenericTelescope::UpDec(rho, d), x, MAX_FUEL as nat) is Some,
    ensures
        pattern_contains(d.pattern, x) ==> ({
            let scope = if d.is_recursive {
                Rc::new(GenericTelescope::UpDec(rho, d))
            } else {
                rho
            };
            &&& evaluate(d.body, scope) is Some
            &&& resolve_s(GenericTelescope::UpDec(rho, d), x, MAX_FUEL as nat) == project_s(
                d.pattern,
                x,
                evaluate(d.body, scope)->Some_0,
            )
        }),
        !pattern_contains(d.pattern, x) ==> resolve_s(GenericTelescope::UpDec(rho, d), x, MAX_FUEL as nat)
            == resolve_s(telescope_of(rho), x, MAX_FUEL as nat),
{
    let f = (MAX_FUEL - 1) as nat;
    if pattern_contains(d.pattern, x) {
        let scope = if d.is_recursive {
            Rc::new(GenericTelescope::UpDec(rho, d))
        } else {
            rho
        };
        lemma_eval_fuel(d.body, scope, f, MAX_FUEL as nat);
    } else {
        lemma_resolve_fuel(telescope_of(rho), x, f, MAX_FUEL as nat);
    }
}

/// The rules of application: a neutral function stays neutral, a case-split on a
/// neutral value becomes a neutral split, a lambda is instantiated, and a case-split
/// on a constructor applies the constructor's case to its argument.
pub proof fn lemma_apply_rules(function: Value, argument: Value)
    ensures
        function is Neutral ==> apply_s(function, argument, MAX_FUEL as nat) == Some(
            Value::Neutral(GenericNeutral::Application(Box::new(function->Neutral_0), Box::new(argument))),
        ),
        (function is Split && argument is Neutral) ==> apply_s(function, argument, MAX_FUEL as nat) == Some(
            Value::Neutral(GenericNeutral::Split(function->Split_0, Box::new(argument->Neutral_0))),
        ),
        (function is Lambda && instantiate_s(function->Lambda_0, argument, (MAX_FUEL - 2) as nat) is Some)
            ==> apply_s(function, argument, MAX_FUEL as nat) == instantiate_s(
            function->Lambda_0,
            argument,
            (MAX_FUEL - 2) as nat,
        ),
        (function is Split && argument is Constructor && branch_get(function->Split_0, argument->Constructor_0@)
            is None) ==> apply_s(function, argument, MAX_FUEL as nat) is None,
{
    if function is Lambda && instantiate_s(function->Lambda_0, argument, (MAX_FUEL - 2) as nat) is Some {
        lemma_instantiate_fuel(function->Lambda_0, argument, (MAX_FUEL - 2) as nat, (MAX_FUEL - 1) as nat);
    }
}


/// A sum expression evaluates to its cases closed over the context, in ascending
/// order of their names.
pub proof fn lemma_evaluate_sum_sorted(b: crate::ast::Branch, rho: Telescope)
    ensures
        evaluate(Expression::Sum(b), rho) == Some(Value::Sum(righted(b, rho))),
        crate::list::branch_wf(righted(b, rho)),
        forall|i: int, j: int|
            0 <= i < j < branch_keys(righted(b, rho)).seq().len() ==> crate::strings::str_less(
                #[trigger] branch_keys(righted(b, rho)).seq()[i]@,
                #[trigger] branch_keys(righted(b, rho)).seq()[j]@,
            ),
{
    crate::ast::lemma_righted(b, rho, Seq::empty());
    crate::list::lemma_branch_keys_sorted(righted(b, rho));
}

/// Merging two sums whose cases are in order gives their union in order, a case of
/// the right one replacing a case of the same name on the left.
pub proof fn lemma_evaluate_merge_sorted(
    left: Expression,
    right: Expression,
    rho: Telescope,
    a: CaseTree,
    b: CaseTree,
    fuel: nat,
)
    requires
        eval_s(left, rho, fuel) == Some(Value::Sum(a)),
        eval_s(right, rho, fuel) == Some(Value::Sum(b)),
        crate::list::branch_wf(a),
        crate::list::branch_wf(b),
    ensures
        eval_s(Expression::Merge(Box::new(left), Box::new(right)), rho, fuel + 1) == Some(Value::Sum(branch_append(a, b))),
        crate::list::branch_wf(branch_append(a, b)),
        forall|i: int, j: int|
            0 <= i < j < branch_keys(branch_append(a, b)).seq().len() ==> crate::strings::str_less(
                #[trigger] branch_keys(branch_append(a, b)).seq()[i]@,
                #[trigger] branch_keys(branch_append(a, b)).seq()[j]@,
            ),
{
    crate::list::lemma_branch_append_get(a, b, Seq::empty());
    crate::list::lemma_branch_keys_sorted(branch_append(a, b));
}


/// `eval_to_sum` of a sum expression: the sum's value holds the constructor names
/// it was written with, each once and in ascending order, whatever order they were
/// written in.
pub proof fn lemma_eval_to_sum_sum(b: crate::ast::Branch, rho: Telescope, name: Seq<char>)
    ensures
        evaluate(Expression::Sum(b), rho) == Some(Value::Sum(righted(b, rho))),
        crate::list::names_contain(branch_keys(righted(b, rho)), name) <==> (crate::list::branch_get(b, name) is Some),
        forall|i: int, j: int|
            0 <= i < j < branch_keys(righted(b, rho)).seq().len() ==> crate::strings::str_less(
                #[trigger] branch_keys(righted(b, rho)).seq()[i]@,
                #[trigger] branch_keys(righted(b, rho)).seq()[j]@,
            ),
{
    lemma_evaluate_sum_sorted(b, rho);
    crate::ast::lemma_righted_into_names(List::Nil, b, rho, name);
    crate::list::lemma_branch_keys_contain(righted(b, rho), name);
}

/// `eval_to_sum` of a merge of two sums: the names of both, each once and in
/// ascending order.
pub proof fn lemma_eval_to_sum_merge(
    left: Expression,
    right: Expression,
    rho: Telescope,
    a: CaseTree,
    b: CaseTree,
    fuel: nat,
    name: Seq<char>,
)
    requires
        eval_s(left, rho, fuel) == Some(Value::Sum(a)),
        eval_s(right, rho, fuel) == Some(Value::Sum(b)),
        crate::list::branch_wf(a),
        crate::list::branch_wf(b),
    ensures
        eval_s(Expression::Merge(Box::new(left), Box::new(right)), rho, fuel + 1) == Some(Value::Sum(branch_append(a, b))),
        crate::list::names_contain(branch_keys(branch_append(a, b)), name) <==> (crate::list::branch_get(a, name) is Some
            || crate::list::branch_get(b, name) is Some),
        forall|i: int, j: int|
            0 <= i < j < branch_keys(branch_append(a, b)).seq().len() ==> crate::strings::str_less(
                #[trigger] branch_keys(branch_append(a, b)).seq()[i]@,
                #[trigger] branch_keys(branch_append(a, b)).seq()[j]@,
            ),
{
    lemma_evaluate_merge_sorted(left, right, rho, a, b, fuel);
    crate::list::lemma_branch_append_get(a, b, name);
    crate::list::lemma_branch_keys_contain(branch_append(a, b), name);
}

/// A case-split applied to a constructor that it covers applies the constructor's
/// case to the constructor's argument, for the values that application finds.
pub proof fn lemma_apply_split_constructor(tree: CaseTree, name: String, body: Value)
    requires
        apply_s(Value::Split(tree), Value::Constructor(name, Box::new(body)), MAX_FUEL as nat) is Some,
    ensures
        branch_get(tree, name@) is Some,
        reduce_s(branch_get(tree, name@)->Some_0, MAX_FUEL as nat) is Some,
        apply_s(Value::Split(tree), Value::Constructor(name, Box::new(body)), MAX_FUEL as nat) == apply_s(
            reduce_s(branch_get(tree, name@)->Some_0, MAX_FUEL as nat)->Some_0,
            body,
            MAX_FUEL as nat,
        ),
{
    let f = (MAX_FUEL - 1) as nat;
    let case = branch_get(tree, name@)->Some_0;
    lemma_reduce_fuel(case, f, MAX_FUEL as nat);
    lemma_apply_fuel(reduce_s(case, f)->Some_0, body, f, MAX_FUEL as nat);
}

/// Projections of a pair: `(M, N).1` is the value of `M` and `(M, N).2` the value of
/// `N`, wherever the pair evaluates.
pub proof fn lemma_eval_pair_projections(a: Expression, b: Expression, ctx: Telescope, fuel: nat)
    ensures
        eval_s(a, ctx, fuel) is Some ==> eval_s(
            Expression::Second(Box::new(Expression::Pair(Box::new(a), Box::new(b)))),
            ctx,
            fuel + 2,
        ) == eval_s(b, ctx, fuel),
        eval_s(b, ctx, fuel) is Some ==> eval_s(
            Expression::First(Box::new(Expression::Pair(Box::new(a), Box::new(b)))),
            ctx,
            fuel + 2,
        ) == eval_s(a, ctx, fuel),
{
    reveal_with_fuel(eval_s, 2);
}

/// The same, for the values that evaluation finds with any budget: `[[(M, N).2]] rho =
/// [[N]] rho` and `[[(M, N).1]] rho = [[M]] rho`.
pub proof fn lemma_evaluate_pair_projections(a: Expression, b: Expression, rho: Telescope)
    ensures
        evaluate(Expression::Second(Box::new(Expression::Pair(Box::new(a), Box::new(b)))), rho) is Some ==> evaluate(
            Expression::Second(Box::new(Expression::Pair(Box::new(a), Box::new(b)))),
            rho,
        ) == evaluate(b, rho),
        evaluate(Expression::First(Box::new(Expression::Pair(Box::new(a), Box::new(b)))), rho) is Some ==> evaluate(
            Expression::First(Box::new(Expression::Pair(Box::new(a), Box::new(b)))),
            rho,
        ) == evaluate(a, rho),
{
    reveal_with_fuel(eval_s, 2);
    let f = (MAX_FUEL - 2) as nat;
    if eval_s(a, rho, f) is Some {
        lemma_eval_fuel(a, rho, f, MAX_FUEL as nat);
    }
    if eval_s(b, rho, f) is Some {
        lemma_eval_fuel(b, rho, f, MAX_FUEL as nat);
    }
    lemma_eval_pair_projections(a, b, rho, f);
}

/// Evaluation of the canonical forms: `0`, `1` and `Type_l` are their own values, a
/// pair evaluates to the pair of its components' values in order, and a constructor
/// keeps its name around its argument's value.
pub proof fn lemma_eval_canonical(a: Expression, b: Expression, c: String, l: Level, ctx: Telescope, fuel: nat)
    ensures
        eval_s(Expression::Unit, ctx, fuel + 1) == Some(Value::Unit),
        eval_s(Expression::One, ctx, fuel + 1) == Some(Value::One),
        eval_s(Expression::Type(l), ctx, fuel + 1) == Some(Value::Type(l)),
        eval_s(a, ctx, fuel) matches Some(u) ==> (eval_s(b, ctx, fuel) matches Some(w) ==> eval_s(
            Expression::Pair(Box::new(a), Box::new(b)),
            ctx,
            fuel + 1,
        ) == Some(Value::Pair(Box::new(u), Box::new(w)))),
        eval_s(a, ctx, fuel) matches Some(u) ==> eval_s(Expression::Constructor(c, Box::new(a)), ctx, fuel + 1) == Some(
            Value::Constructor(c, Box::new(u)),
        ),
{
}

} // verus!

pub mod decl;
pub mod expr;
pub mod fuel;
pub mod located;
pub mod state_wf;
pub mod read_back;
pub mod rules;
pub mod subtype;
pub mod tcm;

use vstd::prelude::*;

use crate::ast::{Declaration, Expression, Value};
use crate::check::decl::{check_declaration_fuel, check_declaration_s};
use crate::check::expr::{check_fuel, check_infer_fuel, check_infer_s, check_s};
use crate::check::tcm::{empty_tcs, TCM, TCS};
use crate::eval::MAX_FUEL;

verus! {

/// `checkMain` in Mini-TT, with at most `fuel` nested steps: checks a program against
/// the type `1` in the empty context.
pub fn check_main_fuel(expression: Expression, fuel: u64) -> (r: Option<TCM<TCS>>)
    ensures
        r == check_s(0, empty_tcs(), expression, Value::One, fuel as nat),
{
    check_fuel(0, TCS::default(), expression, Value::One, fuel)
}

/// `checkMain` in Mini-TT: checks a program against the type `1` in the empty context.
pub fn check_main(expression: Expression) -> (r: TCM<TCS>)
    requires
        check_s(0, empty_tcs(), expression, Value::One, MAX_FUEL as nat) is Some,
    ensures
        Some(r) == check_s(0, empty_tcs(), expression, Value::One, MAX_FUEL as nat),
{
    check_contextual(TCS::default(), expression)
}

/// Checks a program under an existing state, with at most `fuel` nested steps.
pub fn check_contextual_fuel(tcs: TCS, expression: Expression, fuel: u64) -> (r: Option<TCM<TCS>>)
    ensures
        r == check_s(0, tcs, expression, Value::One, fuel as nat),
{
    check_fuel(0, tcs, expression, Value::One, fuel)
}

/// Checks a program under an existing state (for the REPL).
pub fn check_contextual(tcs: TCS, expression: Expression) -> (r: TCM<TCS>)
    requires
        check_s(0, tcs, expression, Value::One, MAX_FUEL as nat) is Some,
    ensures
        Some(r) == check_s(0, tcs, expression, Value::One, MAX_FUEL as nat),
{
    match check_fuel(0, tcs, expression, Value::One, MAX_FUEL) {
        Some(r) => r,
        None => vstd::pervasive::unreached(),
    }
}

/// Infers the type of an expression under an existing state, with at most `fuel`
/// nested steps.
pub fn check_infer_contextual_fuel(tcs: TCS, expression: Expression, fuel: u64) -> (r: Option<TCM<Value>>)
    ensures
        r == check_infer_s(0, tcs, expression, fuel as nat),
{
    check_infer_fuel(0, tcs, expression, fuel)
}

/// Infers the type of an expression under an existing state (for the REPL).
pub fn check_infer_contextual(tcs: TCS, expression: Expression) -> (r: TCM<Value>)
    requires
        check_infer_s(0, tcs, expression, MAX_FUEL as nat) is Some,
    ensures
        Some(r) == check_infer_s(0, tcs, expression, MAX_FUEL as nat),
{
    match check_infer_fuel(0, tcs, expression, MAX_FUEL) {
        Some(r) => r,
        None => vstd::pervasive::unreached(),
    }
}

/// Checks a declaration in the empty context, with at most `fuel` nested steps.
pub fn check_declaration_main_fuel(declaration: Declaration, fuel: u64) -> (r: Option<TCM<TCS>>)
    ensures
        r == check_declaration_s(0, empty_tcs(), declaration, fuel as nat),
{
    check_declaration_fuel(0, TCS::default(), declaration, fuel)
}

/// Like `checkMain` in Mini-TT, for a single declaration.
pub fn check_declaration_main(declaration: Declaration) -> (r: TCM<TCS>)
    requires
        check_declaration_s(0, empty_tcs(), declaration, MAX_FUEL as nat) is Some,
    ensures
        Some(r) == check_declaration_s(0, empty_tcs(), declaration, MAX_FUEL as nat),
{
    match check_declaration_fuel(0, TCS::default(), declaration, MAX_FUEL) {
        Some(r) => r,
        None => vstd::pervasive::unreached(),
    }
}

} // verus!

use vstd::prelude::*;

use crate::ast::{Declaration, Expression, Pattern, Typed};
use crate::list::List;
use crate::strings::str_eq;

verus! {

/// Equality of patterns: the same shape and the same names.
pub open spec fn pattern_equiv(a: Pattern, b: Pattern) -> bool
    decreases a,
{
    match (a, b) {
        (Pattern::Pair(a1, a2), Pattern::Pair(b1, b2)) => pattern_equiv(*a1, *b1) && pattern_equiv(*a2, *b2),
        (Pattern::Unit, Pattern::Unit) => true,
        (Pattern::Var(x), Pattern::Var(y)) => x@ == y@,
        _ => false,
    }
}

/// Equality of expressions: the same shape and the same names, where the parameter
/// types carried by lambdas (`AnonymousValue`) count as equal.
pub open spec fn expression_equiv(a: Expression, b: Expression) -> bool
    decreases a,
{
    match (a, b) {
        (Expression::Unit, Expression::Unit) => true,
        (Expression::One, Expression::One) => true,
        (Expression::Type(x), Expression::Type(y)) => x == y,
        (Expression::Void, Expression::Void) => true,
        (Expression::Var(x), Expression::Var(y)) => x@ == y@,
        (Expression::Sum(x), Expression::Sum(y)) => branch_equiv(x, y),
        (Expression::Split(x), Expression::Split(y)) => branch_equiv(x, y),
        (Expression::Merge(a1, a2), Expression::Merge(b1, b2)) => expression_equiv(*a1, *b1) && expression_equiv(*a2, *b2),
        (Expression::Pi(t1, a2), Expression::Pi(t2, b2)) => typed_equiv(t1, t2) && expression_equiv(*a2, *b2),
        (Expression::Sigma(t1, a2), Expression::Sigma(t2, b2)) => typed_equiv(t1, t2) && expression_equiv(*a2, *b2),
        (Expression::Lambda(p1, _, a2), Expression::Lambda(p2, _, b2)) => pattern_equiv(p1, p2) && expression_equiv(*a2, *b2),
        (Expression::First(x), Expression::First(y)) => expression_equiv(*x, *y),
        (Expression::Second(x), Expression::Second(y)) => expression_equiv(*x, *y),
        (Expression::Application(a1, a2), Expression::Application(b1, b2)) => expression_equiv(*a1, *b1) && expression_equiv(*a2, *b2),
        (Expression::Pair(a1, a2), Expression::Pair(b1, b2)) => expression_equiv(*a1, *b1) && expression_equiv(*a2, *b2),
        (Expression::Constructor(x, a2), Expression::Constructor(y, b2)) => x@ == y@ && expression_equiv(*a2, *b2),
        (Expression::Constant(p1, a1, a2), Expression::Constant(p2, b1, b2)) => pattern_equiv(p1, p2)
            && expression_equiv(*a1, *b1) && expression_equiv(*a2, *b2),
        (Expression::Declaration(d1, a2), Expression::Declaration(d2, b2)) => declaration_equiv(*d1, *d2) && expression_equiv(*a2, *b2),
        _ => false,
    }
}

pub open spec fn branch_equiv(a: List<(String, Box<Expression>)>, b: List<(String, Box<Expression>)>) -> bool
    decreases a,
{
    match (a, b) {
        (List::Nil, List::Nil) => true,
        (List::Cons(x, xs), List::Cons(y, ys)) => x.0@ == y.0@ && expression_equiv(*x.1, *y.1) && branch_equiv(*xs, *ys),
        _ => false,
    }
}

pub open spec fn typed_equiv(a: Typed, b: Typed) -> bool
    decreases a,
{
    pattern_equiv(a.pattern, b.pattern) && expression_equiv(*a.expression, *b.expression)
}

pub open spec fn typed_list_equiv(a: List<Typed>, b: List<Typed>) -> bool
    decreases a,
{
    match (a, b) {
        (List::Nil, List::Nil) => true,
        (List::Cons(x, xs), List::Cons(y, ys)) => typed_equiv(x, y) && typed_list_equiv(*xs, *ys),
        _ => false,
    }
}

pub open spec fn declaration_equiv(a: Declaration, b: Declaration) -> bool
    decreases a,
{
    pattern_equiv(a.pattern, b.pattern) && typed_list_equiv(a.prefix_parameters, b.prefix_parameters)
        && expression_equiv(a.signature, b.signature) && expression_equiv(a.body, b.body)
        && a.is_recursive == b.is_recursive
}

pub fn pattern_eq(a: &Pattern, b: &Pattern) -> (r: bool)
    ensures
        r == pattern_equiv(*a, *b),
    decreases a,
{
    match (a, b) {
        (Pattern::Pair(a1, a2), Pattern::Pair(b1, b2)) => pattern_eq(a1, b1) && pattern_eq(a2, b2),
        (Pattern::Unit, Pattern::Unit) => true,
        (Pattern::Var(x), Pattern::Var(y)) => str_eq(x.as_str(), y.as_str()),
        _ => false,
    }
}

pub fn expression_eq(a: &Expression, b: &Expression) -> (r: bool)
    ensures
        r == expression_equiv(*a, *b),
    decreases a,
{
    match (a, b) {
        (Expression::Unit, Expression::Unit) => true,
        (Expression::One, Expression::One) => true,
        (Expression::Type(x), Expression::Type(y)) => *x == *y,
        (Expression::Void, Expression::Void) => true,
        (Expression::Var(x), Expression::Var(y)) => str_eq(x.as_str(), y.as_str()),
        (Expression::Sum(x), Expression::Sum(y)) => branch_eq(x, y),
        (Expression::Split(x), Expression::Split(y)) => branch_eq(x, y),
        (Expression::Merge(a1, a2), Expression::Merge(b1, b2)) => expression_eq(a1, b1) && expression_eq(a2, b2),
        (Expression::Pi(t1, a2), Expression::Pi(t2, b2)) => typed_eq(t1, t2) && expression_eq(a2, b2),
        (Expression::Sigma(t1, a2), Expression::Sigma(t2, b2)) => typed_eq(t1, t2) && expression_eq(a2, b2),
        (Expression::Lambda(p1, _, a2), Expression::Lambda(p2, _, b2)) => pattern_eq(p1, p2) && expression_eq(a2, b2),
        (Expression::First(x), Expression::First(y)) => expression_eq(x, y),
        (Expression::Second(x), Expression::Second(y)) => expression_eq(x, y),
        (Expression::Application(a1, a2), Expression::Application(b1, b2)) => expression_eq(a1, b1) && expression_eq(a2, b2),
        (Expression::Pair(a1, a2), Expression::Pair(b1, b2)) => expression_eq(a1, b1) && expression_eq(a2, b2),
        (Expression::Constructor(x, a2), Expression::Constructor(y, b2)) => str_eq(x.as_str(), y.as_str()) && expression_eq(a2, b2),
        (Expression::Constant(p1, a1, a2), Expression::Constant(p2, b1, b2)) => pattern_eq(p1, p2)
            && expression_eq(a1, b1) && expression_eq(a2, b2),
        (Expression::Declaration(d1, a2), Expression::Declaration(d2, b2)) => declaration_eq(d1, d2) && expression_eq(a2, b2),
        _ => false,
    }
}

fn branch_eq(a: &List<(String, Box<Expression>)>, b: &List<(String, Box<Expression>)>) -> (r: bool)
    ensures
        r == branch_equiv(*a, *b),
    decreases a,
{
    match (a, b) {
        (List::Nil, List::Nil) => true,
        (List::Cons(x, xs), List::Cons(y, ys)) => str_eq(x.0.as_str(), y.0.as_str()) && expression_eq(&x.1, &y.1)
            && branch_eq(xs, ys),
        _ => false,
    }
}

fn typed_eq(a: &Typed, b: &Typed) -> (r: bool)
    ensures
        r == typed_equiv(*a, *b),
    decreases a,
{
    pattern_eq(&a.pattern, &b.pattern) && expression_eq(&a.expression, &b.expression)
}

fn typed_list_eq(a: &List<Typed>, b: &List<Typed>) -> (r: bool)
    ensures
        r == typed_list_equiv(*a, *b),
    decreases a,
{
    match (a, b) {
        (List::Nil, List::Nil) => true,
        (List::Cons(x, xs), List::Cons(y, ys)) => typed_eq(x, y) && typed_list_eq(xs, ys),
        _ => false,
    }
}

pub fn declaration_eq(a: &Declaration, b: &Declaration) -> (r: bool)
    ensures
        r == declaration_equiv(*a, *b),
    decreases a,
{
    pattern_eq(&a.pattern, &b.pattern) && typed_list_eq(&a.prefix_parameters, &b.prefix_parameters)
        && expression_eq(&a.signature, &b.signature) && expression_eq(&a.body, &b.body)
        && a.is_recursive == b.is_recursive
}


/// Every pattern equals itself.
pub proof fn lemma_pattern_equiv_refl(p: Pattern)
    ensures
        pattern_equiv(p, p),
    decreases p,
{
    if let Pattern::Pair(a, b) = p {
        lemma_pattern_equiv_refl(*a);
        lemma_pattern_equiv_refl(*b);
    }
}

/// Every expression equals itself.
pub proof fn lemma_expression_equiv_refl(e: Expression)
    ensures
        expression_equiv(e, e),
    decreases e,
{
    match e {
        Expression::Sum(x) => lemma_branch_equiv_refl(x),
        Expression::Split(x) => lemma_branch_equiv_refl(x),
        Expression::Merge(a, b) => {
            lemma_expression_equiv_refl(*a);
            lemma_expression_equiv_refl(*b);
        },
        Expression::Pi(t, b) => {
            lemma_typed_equiv_refl(t);
            lemma_expression_equiv_refl(*b);
        },
        Expression::Sigma(t, b) => {
            lemma_typed_equiv_refl(t);
            lemma_expression_equiv_refl(*b);
        },
        Expression::Lambda(p, _, b) => {
            lemma_pattern_equiv_refl(p);
            lemma_expression_equiv_refl(*b);
        },
        Expression::First(x) => lemma_expression_equiv_refl(*x),
        Expression::Second(x) => lemma_expression_equiv_refl(*x),
        Expression::Application(a, b) => {
            lemma_expression_equiv_refl(*a);
            lemma_expression_equiv_refl(*b);
        },
        Expression::Pair(a, b) => {
            lemma_expression_equiv_refl(*a);
            lemma_expression_equiv_refl(*b);
        },
        Expression::Constructor(_, b) => lemma_expression_equiv_refl(*b),
        Expression::Constant(p, a, b) => {
            lemma_pattern_equiv_refl(p);
            lemma_expression_equiv_refl(*a);
            lemma_expression_equiv_refl(*b);
        },
        Expression::Declaration(d, b) => {
            lemma_declaration_equiv_refl(*d);
            lemma_expression_equiv_refl(*b);
        },
        _ => {},
    }
}

/// Every branch equals itself.
pub proof fn lemma_branch_equiv_refl(b: List<(String, Box<Expression>)>)
    ensures
        branch_equiv(b, b),
    decreases b,
{
    if let List::Cons(x, xs) = b {
        lemma_expression_equiv_refl(*x.1);
        lemma_branch_equiv_refl(*xs);
    }
}

/// Every typed pattern equals itself.
pub proof fn lemma_typed_equiv_refl(t: Typed)
    ensures
        typed_equiv(t, t),
    decreases t,
{
    lemma_pattern_equiv_refl(t.pattern);
    lemma_expression_equiv_refl(*t.expression);
}

/// Every list of typed patterns equals itself.
pub proof fn lemma_typed_list_equiv_refl(l: List<Typed>)
    ensures
        typed_list_equiv(l, l),
    decreases l,
{
    if let List::Cons(x, xs) = l {
        lemma_typed_equiv_refl(x);
        lemma_typed_list_equiv_refl(*xs);
    }
}

/// Every declaration equals itself.
pub proof fn lemma_declaration_equiv_refl(d: Declaration)
    ensures
        declaration_equiv(d, d),
    decreases d,
{
    lemma_pattern_equiv_refl(d.pattern);
    lemma_typed_list_equiv_refl(d.prefix_parameters);
    lemma_expression_equiv_refl(d.signature);
    lemma_expression_equiv_refl(d.body);
}

} // verus!

use std::rc::Rc;
use vstd::prelude::*;

use crate::ast::{Case, CaseTree, Either, Expression, GenericCase, GenericNeutral, GenericTelescope, Level, Value};
use crate::equiv::{
    declaration_eq, declaration_equiv, expression_eq, expression_equiv, lemma_declaration_equiv_refl, lemma_expression_equiv_refl,
    lemma_pattern_equiv_refl, pattern_eq, pattern_equiv,
};
use crate::eval::{instantiate_s, lemma_instantiate_fuel, telescope_of, MAX_FUEL};
use crate::list::{branch_insert, branch_insert_exec, Duplicate, GenericBranch, List};
use crate::strings::str_eq;

verus! {

/// `NRho` in Mini-TT: normal-form telescopes.
pub type NormalTelescope = Rc<GenericTelescope<NormalExpression>>;

pub type NormalCase = GenericCase<Either<NormalExpression, Expression>, NormalExpression>;

/// `NSClos` in Mini-TT: normal-form case trees.
pub type NormalCaseTree = GenericBranch<NormalCase>;

/// `NNeut` in Mini-TT: normal-form neutral values.
pub type NormalNeutral = GenericNeutral<NormalExpression, NormalCase>;

/// `NExp` in Mini-TT: normal forms, with generated variables as de Bruijn levels.
#[derive(Debug)]
pub enum NormalExpression {
    /// `\lambda x_i. E`
    Lambda(u32, Box<NormalExpression>),
    /// `E1, E2`
    Pair(Box<NormalExpression>, Box<NormalExpression>),
    /// `0`
    Unit,
    /// `1`
    One,
    /// `Type`
    Type(Level),
    /// `\Pi x_i: E1. E2`
    Pi(Box<NormalExpression>, u32, Box<NormalExpression>),
    /// `\Sigma x_i: E1. E2`
    Sigma(Box<NormalExpression>, u32, Box<NormalExpression>),
    /// `c E`
    Constructor(String, Box<NormalExpression>),
    /// `fun <S, alpha>`
    Split(NormalCaseTree),
    /// `Sum <S, alpha>`
    Sum(NormalCaseTree),
    /// `[K]`
    Neutral(NormalNeutral),
}

/// `genV` in Mini-TT: the neutral value of the generated variable `x_id`.
pub open spec fn generated(id: u32) -> Value {
    Value::Neutral(GenericNeutral::Generated(id))
}

/// `genV` in Mini-TT.
pub fn generate_value(id: u32) -> (r: Value)
    ensures
        r == generated(id),
{
    Value::Neutral(GenericNeutral::Generated(id))
}

/// `rbV` in Mini-TT, with at most `fuel` nested steps: `None` where an
/// instantiation gets stuck or the index of a generated variable overflows.
pub open spec fn rb_value_s(v: Value, index: u32, fuel: nat) -> Option<NormalExpression>
    decreases fuel,
{
    if fuel == 0 {
        None
    } else {
        let f = (fuel - 1) as nat;
        match v {
            Value::Lambda(closure) => if index == u32::MAX {
                None
            } else {
                match instantiate_s(closure, generated(index), f) {
                    Some(body) => match rb_value_s(body, (index + 1) as u32, f) {
                        Some(n) => Some(NormalExpression::Lambda(index, Box::new(n))),
                        None => None,
                    },
                    None => None,
                }
            },
            Value::Unit => Some(NormalExpression::Unit),
            Value::One => Some(NormalExpression::One),
            Value::Type(level) => Some(NormalExpression::Type(level)),
            Value::Pi(input, output) => rb_binder_s(*input, output, index, f, true),
            Value::Sigma(first, second) => rb_binder_s(*first, second, index, f, false),
            Value::Pair(first, second) => match rb_value_s(*first, index, f) {
                Some(a) => match rb_value_s(*second, index, f) {
                    Some(b) => Some(NormalExpression::Pair(Box::new(a), Box::new(b))),
                    None => None,
                },
                None => None,
            },
            Value::Constructor(name, body) => match rb_value_s(*body, index, f) {
                Some(b) => Some(NormalExpression::Constructor(name, Box::new(b))),
                None => None,
            },
            Value::Split(tree) => match rb_branches_s(List::Nil, tree, index, f) {
                Some(t) => Some(NormalExpression::Split(t)),
                None => None,
            },
            Value::Sum(tree) => match rb_branches_s(List::Nil, tree, index, f) {
                Some(t) => Some(NormalExpression::Sum(t)),
                None => None,
            },
            Value::Neutral(k) => match rb_neutral_s(k, index, f) {
                Some(n) => Some(NormalExpression::Neutral(n)),
                None => None,
            },
        }
    }
}

/// `R_i (\Pi t g) = \Pi x_i : R_i t. R_{i+1} (inst g [x_i])`, and the same for Sigma.
pub open spec fn rb_binder_s(t: Value, g: crate::ast::Closure, index: u32, fuel: nat, is_pi: bool) -> Option<NormalExpression>
    decreases fuel,
{
    if fuel == 0 || index == u32::MAX {
        None
    } else {
        let f = (fuel - 1) as nat;
        match instantiate_s(g, generated(index), f) {
            Some(body) => match rb_value_s(body, (index + 1) as u32, f) {
                Some(out) => match rb_value_s(t, index, f) {
                    Some(inp) => Some(if is_pi {
                        NormalExpression::Pi(Box::new(inp), index, Box::new(out))
                    } else {
                        NormalExpression::Sigma(Box::new(inp), index, Box::new(out))
                    }),
                    None => None,
                },
                None => None,
            },
            None => None,
        }
    }
}

/// Reads back every case of a tree, in order, inserting into `acc`.
pub open spec fn rb_branches_s(acc: NormalCaseTree, tree: CaseTree, index: u32, fuel: nat) -> Option<NormalCaseTree>
    decreases fuel,
{
    if fuel == 0 {
        None
    } else {
        let f = (fuel - 1) as nat;
        match tree {
            List::Nil => Some(acc),
            List::Cons(entry, rest) => match rb_case_s(*entry.1, index, f) {
                Some(c) => rb_branches_s(branch_insert(acc, entry.0, c), *rest, index, f),
                None => None,
            },
        }
    }
}

/// Reads back a case: its value, if it has one, and its context.
pub open spec fn rb_case_s(case: Case, index: u32, fuel: nat) -> Option<NormalCase>
    decreases fuel,
{
    if fuel == 0 {
        None
    } else {
        let f = (fuel - 1) as nat;
        match rb_telescope_s(*case.context, index, f) {
            Some(t) => match case.expression {
                Either::Left(v) => match rb_value_s(v, index, f) {
                    Some(n) => Some(GenericCase { expression: Either::Left(n), context: Rc::new(t) }),
                    None => None,
                },
                Either::Right(e) => Some(GenericCase { expression: Either::Right(e), context: Rc::new(t) }),
            },
            None => None,
        }
    }
}

/// `rbRho` in Mini-TT: `R_i (rho, p = v) = R_i rho, p = R_i v`, `R_i (rho, D) = R_i rho, D`,
/// `R_i () = ()`.
pub open spec fn rb_telescope_s(t: GenericTelescope<Value>, index: u32, fuel: nat) -> Option<GenericTelescope<NormalExpression>>
    decreases fuel,
{
    if fuel == 0 {
        None
    } else {
        let f = (fuel - 1) as nat;
        match t {
            GenericTelescope::Nil => Some(GenericTelescope::Nil),
            GenericTelescope::UpDec(context, declaration) => match rb_telescope_s(*context, index, f) {
                Some(c) => Some(GenericTelescope::UpDec(Rc::new(c), declaration)),
                None => None,
            },
            GenericTelescope::UpVar(context, pattern, v) => match rb_telescope_s(*context, index, f) {
                Some(c) => match rb_value_s(v, index, f) {
                    Some(n) => Some(GenericTelescope::UpVar(Rc::new(c), pattern, n)),
                    None => None,
                },
                None => None,
            },
        }
    }
}

/// `rbN` in Mini-TT: `R_i x_j = x_j`, `R_i (k v) = (R_i k) (R_i v)`, `R_i (k.1) = (R_i k).1`,
/// `R_i (k.2) = (R_i k).2`, `R_i (<S, rho> k) = <S, R_i rho> (R_i k)`.
pub open spec fn rb_neutral_s(k: crate::ast::Neutral, index: u32, fuel: nat) -> Option<NormalNeutral>
    decreases fuel,
{
    if fuel == 0 {
        None
    } else {
        let f = (fuel - 1) as nat;
        match k {
            GenericNeutral::Generated(i) => Some(GenericNeutral::Generated(i)),
            GenericNeutral::Application(function, argument) => match rb_neutral_s(*function, index, f) {
                Some(a) => match rb_value_s(*argument, index, f) {
                    Some(b) => Some(GenericNeutral::Application(Box::new(a), Box::new(b))),
                    None => None,
                },
                None => None,
            },
            GenericNeutral::First(n) => match rb_neutral_s(*n, index, f) {
                Some(a) => Some(GenericNeutral::First(Box::new(a))),
                None => None,
            },
            GenericNeutral::Second(n) => match rb_neutral_s(*n, index, f) {
                Some(a) => Some(GenericNeutral::Second(Box::new(a))),
                None => None,
            },
            GenericNeutral::Split(tree, body) => match rb_branches_s(List::Nil, tree, index, f) {
                Some(t) => match rb_neutral_s(*body, index, f) {
                    Some(b) => Some(GenericNeutral::Split(t, Box::new(b))),
                    None => None,
                },
                None => None,
            },
        }
    }
}

/// Read-back (`rbV`, `rbN` and `rbRho` in Mini-TT): converts values, neutral values,
/// cases and telescopes into normal forms, where generated variables are numbered
/// from `index` on, so that comparing normal forms needs no alpha-conversion.
pub trait ReadBack: Sized {
    type NormalForm;

    /// The normal form, with at most `fuel` nested steps.
    spec fn read_back_s(self, index: u32, fuel: nat) -> Option<Self::NormalForm>;

    fn read_back_fuel(self, index: u32, fuel: u64) -> (r: Option<Self::NormalForm>)
        ensures
            r == self.read_back_s(index, fuel as nat),
    ;

    fn read_back(self, index: u32) -> (r: Self::NormalForm)
        requires
            self.read_back_s(index, MAX_FUEL as nat) is Some,
        ensures
            Some(r) == self.read_back_s(index, MAX_FUEL as nat),
    {
        match self.read_back_fuel(index, MAX_FUEL) {
            Some(n) => n,
            None => vstd::pervasive::unreached(),
        }
    }

    /// Read-back from the first generated variable on.
    fn read_back_please(self) -> (r: Self::NormalForm)
        requires
            self.read_back_s(0, MAX_FUEL as nat) is Some,
        ensures
            Some(r) == self.read_back_s(0, MAX_FUEL as nat),
    {
        self.read_back(0)
    }

    /// `eqNf` in Mini-TT, returning both normal forms (for error reporting).
    fn normal(index: u32, me: Self, other: Self) -> (r: (Self::NormalForm, Self::NormalForm))
        requires
            me.read_back_s(index, MAX_FUEL as nat) is Some,
            other.read_back_s(index, MAX_FUEL as nat) is Some,
        ensures
            Some(r.0) == me.read_back_s(index, MAX_FUEL as nat),
            Some(r.1) == other.read_back_s(index, MAX_FUEL as nat),
    {
        let me_read_back = me.read_back(index);
        let other_read_back = other.read_back(index);
        (me_read_back, other_read_back)
    }
}

impl ReadBack for Value {
    type NormalForm = NormalExpression;

    open spec fn read_back_s(self, index: u32, fuel: nat) -> Option<NormalExpression> {
        rb_value_s(self, index, fuel)
    }

    fn read_back_fuel(self, index: u32, fuel: u64) -> (r: Option<NormalExpression>) {
        read_back_value(self, index, fuel)
    }
}

impl ReadBack for Case {
    type NormalForm = NormalCase;

    open spec fn read_back_s(self, index: u32, fuel: nat) -> Option<NormalCase> {
        rb_case_s(self, index, fuel)
    }

    fn read_back_fuel(self, index: u32, fuel: u64) -> (r: Option<NormalCase>) {
        read_back_case(self, index, fuel)
    }
}

impl<'a> ReadBack for &'a GenericTelescope<Value> {
    type NormalForm = NormalTelescope;

    open spec fn read_back_s(self, index: u32, fuel: nat) -> Option<NormalTelescope> {
        match rb_telescope_s(*self, index, fuel) {
            Some(t) => Some(Rc::new(t)),
            None => None,
        }
    }

    fn read_back_fuel(self, index: u32, fuel: u64) -> (r: Option<NormalTelescope>) {
        match read_back_telescope(self, index, fuel) {
            Some(t) => Some(Rc::new(t)),
            None => None,
        }
    }
}

impl ReadBack for crate::ast::Neutral {
    type NormalForm = NormalNeutral;

    open spec fn read_back_s(self, index: u32, fuel: nat) -> Option<NormalNeutral> {
        rb_neutral_s(self, index, fuel)
    }

    fn read_back_fuel(self, index: u32, fuel: u64) -> (r: Option<NormalNeutral>) {
        read_back_neutral(self, index, fuel)
    }
}

fn read_back_value(v: Value, index: u32, fuel: u64) -> (r: Option<NormalExpression>)
    ensures
        r == rb_value_s(v, index, fuel as nat),
    decreases fuel,
{
    if fuel == 0 {
        return None;
    }
    let f = fuel - 1;
    match v {
        Value::Lambda(closure) => {
            if index == u32::MAX {
                return None;
            }
            match closure.instantiate_fuel(generate_value(index), f) {
                Some(body) => match read_back_value(body, index + 1, f) {
                    Some(n) => Some(NormalExpression::Lambda(index, Box::new(n))),
                    None => None,
                },
                None => None,
            }
        },
        Value::Unit => Some(NormalExpression::Unit),
        Value::One => Some(NormalExpression::One),
        Value::Type(level) => Some(NormalExpression::Type(level)),
        Value::Pi(input, output) => read_back_binder(*input, output, index, f, true),
        Value::Sigma(first, second) => read_back_binder(*first, second, index, f, false),
        Value::Pair(first, second) => match read_back_value(*first, index, f) {
            Some(a) => match read_back_value(*second, index, f) {
                Some(b) => Some(NormalExpression::Pair(Box::new(a), Box::new(b))),
                None => None,
            },
            None => None,
        },
        Value::Constructor(name, body) => match read_back_value(*body, index, f) {
            Some(b) => Some(NormalExpression::Constructor(name, Box::new(b))),
            None => None,
        },
        Value::Split(tree) => match read_back_branches(List::Nil, tree, index, f) {
            Some(t) => Some(NormalExpression::Split(t)),
            None => None,
        },
        Value::Sum(tree) => match read_back_branches(List::Nil, tree, index, f) {
            Some(t) => Some(NormalExpression::Sum(t)),
            None => None,
        },
        Value::Neutral(k) => match read_back_neutral(k, index, f) {
            Some(n) => Some(NormalExpression::Neutral(n)),
            None => None,
        },
    }
}

fn read_back_binder(t: Value, g: crate::ast::Closure, index: u32, fuel: u64, is_pi: bool) -> (r: Option<NormalExpression>)
    ensures
        r == rb_binder_s(t, g, index, fuel as nat, is_pi),
    decreases fuel,
{
    if fuel == 0 || index == u32::MAX {
        return None;
    }
    let f = fuel - 1;
    match g.instantiate_fuel(generate_value(index), f) {
        Some(body) => match read_back_value(body, index + 1, f) {
            Some(out) => match read_back_value(t, index, f) {
                Some(inp) => Some(if is_pi {
                    NormalExpression::Pi(Box::new(inp), index, Box::new(out))
                } else {
                    NormalExpression::Sigma(Box::new(inp), index, Box::new(out))
                }),
                None => None,
            },
            None => None,
        },
        None => None,
    }
}

fn read_back_branches(acc: NormalCaseTree, tree: CaseTree, index: u32, fuel: u64) -> (r: Option<NormalCaseTree>)
    ensures
        r == rb_branches_s(acc, tree, index, fuel as nat),
    decreases fuel,
{
    if fuel == 0 {
        return None;
    }
    let f = fuel - 1;
    match tree {
        List::Nil => Some(acc),
        List::Cons(entry, rest) => match read_back_case(*entry.1, index, f) {
            Some(c) => read_back_branches(branch_insert_exec(acc, entry.0, c), *rest, index, f),
            None => None,
        },
    }
}

fn read_back_case(case: Case, index: u32, fuel: u64) -> (r: Option<NormalCase>)
    ensures
        r == rb_case_s(case, index, fuel as nat),
    decreases fuel,
{
    if fuel == 0 {
        return None;
    }
    let f = fuel - 1;
    match read_back_telescope(&*case.context, index, f) {
        Some(t) => match case.expression {
            Either::Left(v) => match read_back_value(v, index, f) {
                Some(n) => Some(GenericCase { expression: Either::Left(n), context: Rc::new(t) }),
                None => None,
            },
            Either::Right(e) => Some(GenericCase { expression: Either::Right(e), context: Rc::new(t) }),
        },
        None => None,
    }
}

fn read_back_telescope(t: &GenericTelescope<Value>, index: u32, fuel: u64) -> (r: Option<GenericTelescope<NormalExpression>>)
    ensures
        r == rb_telescope_s(*t, index, fuel as nat),
    decreases fuel,
{
    if fuel == 0 {
        return None;
    }
    let f = fuel - 1;
    match t {
        GenericTelescope::Nil => Some(GenericTelescope::Nil),
        GenericTelescope::UpDec(context, declaration) => match read_back_telescope(&**context, index, f) {
            Some(c) => Some(GenericTelescope::UpDec(Rc::new(c), declaration.duplicate())),
            None => None,
        },
        GenericTelescope::UpVar(context, pattern, v) => match read_back_telescope(&**context, index, f) {
            Some(c) => match read_back_value(v.duplicate(), index, f) {
                Some(n) => Some(GenericTelescope::UpVar(Rc::new(c), pattern.duplicate(), n)),
                None => None,
            },
            None => None,
        },
    }
}

fn read_back_neutral(k: crate::ast::Neutral, index: u32, fuel: u64) -> (r: Option<NormalNeutral>)
    ensures
        r == rb_neutral_s(k, index, fuel as nat),
    decreases fuel,
{
    if fuel == 0 {
        return None;
    }
    let f = fuel - 1;
    match k {
        GenericNeutral::Generated(i) => Some(GenericNeutral::Generated(i)),
        GenericNeutral::Application(function, argument) => match read_back_neutral(*function, index, f) {
            Some(a) => match read_back_value(*argument, index, f) {
                Some(b) => Some(GenericNeutral::Application(Box::new(a), Box::new(b))),
                None => None,
            },
            None => None,
        },
        GenericNeutral::First(n) => match read_back_neutral(*n, index, f) {
            Some(a) => Some(GenericNeutral::First(Box::new(a))),
            None => None,
        },
        GenericNeutral::Second(n) => match read_back_neutral(*n, index, f) {
            Some(a) => Some(GenericNeutral::Second(Box::new(a))),
            None => None,
        },
        GenericNeutral::Split(tree, body) => match read_back_branches(List::Nil, tree, index, f) {
            Some(t) => match read_back_neutral(*body, index, f) {
                Some(b) => Some(GenericNeutral::Split(t, Box::new(b))),
                None => None,
            },
            None => None,
        },
    }
}

} // verus!

verus! {

/// Equality of normal forms (derived structural equality; names by their characters,
/// expressions by `expression_equiv`).
pub open spec fn normal_equiv(a: NormalExpression, b: NormalExpression) -> bool
    decreases a,
{
    match (a, b) {
        (NormalExpression::Lambda(i, x), NormalExpression::Lambda(j, y)) => i == j && normal_equiv(*x, *y),
        (NormalExpression::Pair(a1, a2), NormalExpression::Pair(b1, b2)) => normal_equiv(*a1, *b1) && normal_equiv(*a2, *b2),
        (NormalExpression::Unit, NormalExpression::Unit) => true,
        (NormalExpression::One, NormalExpression::One) => true,
        (NormalExpression::Type(x), NormalExpression::Type(y)) => x == y,
        (NormalExpression::Pi(a1, i, a2), NormalExpression::Pi(b1, j, b2)) => normal_equiv(*a1, *b1) && i == j
            && normal_equiv(*a2, *b2),
        (NormalExpression::Sigma(a1, i, a2), NormalExpression::Sigma(b1, j, b2)) => normal_equiv(*a1, *b1) && i == j
            && normal_equiv(*a2, *b2),
        (NormalExpression::Constructor(x, a1), NormalExpression::Constructor(y, b1)) => x@ == y@ && normal_equiv(*a1, *b1),
        (NormalExpression::Split(x), NormalExpression::Split(y)) => normal_tree_equiv(x, y),
        (NormalExpression::Sum(x), NormalExpression::Sum(y)) => normal_tree_equiv(x, y),
        (NormalExpression::Neutral(x), NormalExpression::Neutral(y)) => normal_neutral_equiv(x, y),
        _ => false,
    }
}

pub open spec fn normal_tree_equiv(a: NormalCaseTree, b: NormalCaseTree) -> bool
    decreases a,
{
    match (a, b) {
        (List::Nil, List::Nil) => true,
        (List::Cons(x, xs), List::Cons(y, ys)) => x.0@ == y.0@ && normal_case_equiv(*x.1, *y.1) && normal_tree_equiv(*xs, *ys),
        _ => false,
    }
}

pub open spec fn normal_case_equiv(a: NormalCase, b: NormalCase) -> bool
    decreases a,
{
    (match (a.expression, b.expression) {
        (Either::Left(x), Either::Left(y)) => normal_equiv(x, y),
        (Either::Right(x), Either::Right(y)) => expression_equiv(x, y),
        _ => false,
    }) && normal_telescope_equiv(*a.context, *b.context)
}

pub open spec fn normal_telescope_equiv(a: GenericTelescope<NormalExpression>, b: GenericTelescope<NormalExpression>) -> bool
    decreases a,
{
    match (a, b) {
        (GenericTelescope::Nil, GenericTelescope::Nil) => true,
        (GenericTelescope::UpDec(x, d), GenericTelescope::UpDec(y, e)) => normal_telescope_equiv(*x, *y) && declaration_equiv(d, e),
        (GenericTelescope::UpVar(x, p, v), GenericTelescope::UpVar(y, q, w)) => normal_telescope_equiv(*x, *y)
            && pattern_equiv(p, q) && normal_equiv(v, w),
        _ => false,
    }
}

pub open spec fn normal_neutral_equiv(a: NormalNeutral, b: NormalNeutral) -> bool
    decreases a,
{
    match (a, b) {
        (GenericNeutral::Generated(i), GenericNeutral::Generated(j)) => i == j,
        (GenericNeutral::Application(a1, a2), GenericNeutral::Application(b1, b2)) => normal_neutral_equiv(*a1, *b1)
            && normal_equiv(*a2, *b2),
        (GenericNeutral::First(x), GenericNeutral::First(y)) => normal_neutral_equiv(*x, *y),
        (GenericNeutral::Second(x), GenericNeutral::Second(y)) => normal_neutral_equiv(*x, *y),
        (GenericNeutral::Split(s, x), GenericNeutral::Split(t, y)) => normal_tree_equiv(s, t) && normal_neutral_equiv(*x, *y),
        _ => false,
    }
}

/// Whether two normal forms are equal.
pub fn normal_eq(a: &NormalExpression, b: &NormalExpression) -> (r: bool)
    ensures
        r == normal_equiv(*a, *b),
    decreases a,
{
    match (a, b) {
        (NormalExpression::Lambda(i, x), NormalExpression::Lambda(j, y)) => *i == *j && normal_eq(x, y),
        (NormalExpression::Pair(a1, a2), NormalExpression::Pair(b1, b2)) => normal_eq(a1, b1) && normal_eq(a2, b2),
        (NormalExpression::Unit, NormalExpression::Unit) => true,
        (NormalExpression::One, NormalExpression::One) => true,
        (NormalExpression::Type(x), NormalExpression::Type(y)) => *x == *y,
        (NormalExpression::Pi(a1, i, a2), NormalExpression::Pi(b1, j, b2)) => normal_eq(a1, b1) && *i == *j
            && normal_eq(a2, b2),
        (NormalExpression::Sigma(a1, i, a2), NormalExpression::Sigma(b1, j, b2)) => normal_eq(a1, b1) && *i == *j
            && normal_eq(a2, b2),
        (NormalExpression::Constructor(x, a1), NormalExpression::Constructor(y, b1)) => str_eq(x.as_str(), y.as_str())
            && normal_eq(a1, b1),
        (NormalExpression::Split(x), NormalExpression::Split(y)) => normal_tree_eq(x, y),
        (NormalExpression::Sum(x), NormalExpression::Sum(y)) => normal_tree_eq(x, y),
        (NormalExpression::Neutral(x), NormalExpression::Neutral(y)) => normal_neutral_eq(x, y),
        _ => false,
    }
}

fn normal_tree_eq(a: &NormalCaseTree, b: &NormalCaseTree) -> (r: bool)
    ensures
        r == normal_tree_equiv(*a, *b),
    decreases a,
{
    match (a, b) {
        (List::Nil, List::Nil) => true,
        (List::Cons(x, xs), List::Cons(y, ys)) => str_eq(x.0.as_str(), y.0.as_str()) && normal_case_eq(&x.1, &y.1)
            && normal_tree_eq(xs, ys),
        _ => false,
    }
}

fn normal_case_eq(a: &NormalCase, b: &NormalCase) -> (r: bool)
    ensures
        r == normal_case_equiv(*a, *b),
    decreases a,
{
    (match (&a.expression, &b.expression) {
        (Either::Left(x), Either::Left(y)) => normal_eq(x, y),
        (Either::Right(x), Either::Right(y)) => expression_eq(x, y),
        _ => false,
    }) && normal_telescope_eq(&*a.context, &*b.context)
}

fn normal_telescope_eq(a: &GenericTelescope<NormalExpression>, b: &GenericTelescope<NormalExpression>) -> (r: bool)
    ensures
        r == normal_telescope_equiv(*a, *b),
    decreases a,
{
    match (a, b) {
        (GenericTelescope::Nil, GenericTelescope::Nil) => true,
        (GenericTelescope::UpDec(x, d), GenericTelescope::UpDec(y, e)) => normal_telescope_eq(&**x, &**y)
            && declaration_eq(d, e),
        (GenericTelescope::UpVar(x, p, v), GenericTelescope::UpVar(y, q, w)) => normal_telescope_eq(&**x, &**y)
            && pattern_eq(p, q) && normal_eq(v, w),
        _ => false,
    }
}

fn normal_neutral_eq(a: &NormalNeutral, b: &NormalNeutral) -> (r: bool)
    ensures
        r == normal_neutral_equiv(*a, *b),
    decreases a,
{
    match (a, b) {
        (GenericNeutral::Generated(i), GenericNeutral::Generated(j)) => *i == *j,
        (GenericNeutral::Application(a1, a2), GenericNeutral::Application(b1, b2)) => normal_neutral_eq(a1, b1)
            && normal_eq(a2, b2),
        (GenericNeutral::First(x), GenericNeutral::First(y)) => normal_neutral_eq(x, y),
        (GenericNeutral::Second(x), GenericNeutral::Second(y)) => normal_neutral_eq(x, y),
        (GenericNeutral::Split(s, x), GenericNeutral::Split(t, y)) => normal_tree_eq(s, t) && normal_neutral_eq(x, y),
        _ => false,
    }
}


/// Every normal form equals itself.
pub proof fn lemma_normal_equiv_refl(a: NormalExpression)
    ensures
        normal_equiv(a, a),
    decreases a,
{
    match a {
        NormalExpression::Lambda(_, x) => lemma_normal_equiv_refl(*x),
        NormalExpression::Pair(x, y) => {
            lemma_normal_equiv_refl(*x);
            lemma_normal_equiv_refl(*y);
        },
        NormalExpression::Pi(x, _, y) => {
            lemma_normal_equiv_refl(*x);
            lemma_normal_equiv_refl(*y);
        },
        NormalExpression::Sigma(x, _, y) => {
            lemma_normal_equiv_refl(*x);
            lemma_normal_equiv_refl(*y);
        },
        NormalExpression::Constructor(_, x) => lemma_normal_equiv_refl(*x),
        NormalExpression::Split(t) => lemma_normal_tree_equiv_refl(t),
        NormalExpression::Sum(t) => lemma_normal_tree_equiv_refl(t),
        NormalExpression::Neutral(k) => lemma_normal_neutral_equiv_refl(k),
        _ => {},
    }
}

/// Every normal case tree equals itself.
pub proof fn lemma_normal_tree_equiv_refl(t: NormalCaseTree)
    ensures
        normal_tree_equiv(t, t),
    decreases t,
{
    if let List::Cons(x, xs) = t {
        lemma_normal_case_equiv_refl(*x.1);
        lemma_normal_tree_equiv_refl(*xs);
    }
}

/// Every normal case equals itself.
pub proof fn lemma_normal_case_equiv_refl(c: NormalCase)
    ensures
        normal_case_equiv(c, c),
    decreases c,
{
    match c.expression {
        Either::Left(x) => lemma_normal_equiv_refl(x),
        Either::Right(x) => lemma_expression_equiv_refl(x),
    }
    lemma_normal_telescope_equiv_refl(telescope_of(c.context));
}

/// Every normal telescope equals itself.
pub proof fn lemma_normal_telescope_equiv_refl(t: GenericTelescope<NormalExpression>)
    ensures
        normal_telescope_equiv(t, t),
    decreases t,
{
    match t {
        GenericTelescope::Nil => {},
        GenericTelescope::UpDec(x, d) => {
            lemma_normal_telescope_equiv_refl(telescope_of(x));
            lemma_declaration_equiv_refl(d);
        },
        GenericTelescope::UpVar(x, p, v) => {
            lemma_normal_telescope_equiv_refl(telescope_of(x));
            lemma_pattern_equiv_refl(p);
            lemma_normal_equiv_refl(v);
        },
    }
}

/// Every normal neutral value equals itself.
pub proof fn lemma_normal_neutral_equiv_refl(k: NormalNeutral)
    ensures
        normal_neutral_equiv(k, k),
    decreases k,
{
    match k {
        GenericNeutral::Generated(_) => {},
        GenericNeutral::Application(x, y) => {
            lemma_normal_neutral_equiv_refl(*x);
            lemma_normal_equiv_refl(*y);
        },
        GenericNeutral::First(x) => lemma_normal_neutral_equiv_refl(*x),
        GenericNeutral::Second(x) => lemma_normal_neutral_equiv_refl(*x),
        GenericNeutral::Split(s, x) => {
            lemma_normal_tree_equiv_refl(s);
            lemma_normal_neutral_equiv_refl(*x);
        },
    }
}


/// Read-back does not depend on the fuel once it finishes.
pub proof fn lemma_rb_value_fuel(v: Value, index: u32, n: nat, m: nat)
    requires
        n <= m,
        rb_value_s(v, index, n) is Some,
    ensures
        rb_value_s(v, index, m) == rb_value_s(v, index, n),
    decreases n,
{
    let f = (n - 1) as nat;
    let g = (m - 1) as nat;
    match v {
        Value::Lambda(closure) => {
            lemma_instantiate_fuel(closure, generated(index), f, g);
            let body = instantiate_s(closure, generated(index), f).unwrap();
            lemma_rb_value_fuel(body, (index + 1) as u32, f, g);
        },
        Value::Pi(input, output) => lemma_rb_binder_fuel(*input, output, index, f, g, true),
        Value::Sigma(first, second) => lemma_rb_binder_fuel(*first, second, index, f, g, false),
        Value::Pair(first, second) => {
            lemma_rb_value_fuel(*first, index, f, g);
            lemma_rb_value_fuel(*second, index, f, g);
        },
        Value::Constructor(_, body) => lemma_rb_value_fuel(*body, index, f, g),
        Value::Split(tree) => lemma_rb_branches_fuel(List::Nil, tree, index, f, g),
        Value::Sum(tree) => lemma_rb_branches_fuel(List::Nil, tree, index, f, g),
        Value::Neutral(k) => lemma_rb_neutral_fuel(k, index, f, g),
        _ => {},
    }
}

/// The Pi and Sigma case of `lemma_rb_value_fuel`.
pub proof fn lemma_rb_binder_fuel(t: Value, c: crate::ast::Closure, index: u32, n: nat, m: nat, is_pi: bool)
    requires
        n <= m,
        rb_binder_s(t, c, index, n, is_pi) is Some,
    ensures
        rb_binder_s(t, c, index, m, is_pi) == rb_binder_s(t, c, index, n, is_pi),
    decreases n,
{
    let f = (n - 1) as nat;
    let g = (m - 1) as nat;
    lemma_instantiate_fuel(c, generated(index), f, g);
    let body = instantiate_s(c, generated(index), f).unwrap();
    lemma_rb_value_fuel(body, (index + 1) as u32, f, g);
    lemma_rb_value_fuel(t, index, f, g);
}

/// The case-tree part of `lemma_rb_value_fuel`.
pub proof fn lemma_rb_branches_fuel(acc: NormalCaseTree, tree: CaseTree, index: u32, n: nat, m: nat)
    requires
        n <= m,
        rb_branches_s(acc, tree, index, n) is Some,
    ensures
        rb_branches_s(acc, tree, index, m) == rb_branches_s(acc, tree, index, n),
    decreases n,
{
    let f = (n - 1) as nat;
    let g = (m - 1) as nat;
    if let List::Cons(entry, rest) = tree {
        lemma_rb_case_fuel(*entry.1, index, f, g);
        let c = rb_case_s(*entry.1, index, f).unwrap();
        lemma_rb_branches_fuel(branch_insert(acc, entry.0, c), *rest, index, f, g);
    }
}

/// The case part of `lemma_rb_value_fuel`.
pub proof fn lemma_rb_case_fuel(case: Case, index: u32, n: nat, m: nat)
    requires
        n <= m,
        rb_case_s(case, index, n) is Some,
    ensures
        rb_case_s(case, index, m) == rb_case_s(case, index, n),
    decreases n,
{
    let f = (n - 1) as nat;
    let g = (m - 1) as nat;
    lemma_rb_telescope_fuel(telescope_of(case.context), index, f, g);
    if let Either::Left(v) = case.expression {
        lemma_rb_value_fuel(v, index, f, g);
    }
}

/// The telescope part of `lemma_rb_value_fuel`.
pub proof fn lemma_rb_telescope_fuel(t: GenericTelescope<Value>, index: u32, n: nat, m: nat)
    requires
        n <= m,
        rb_telescope_s(t, index, n) is Some,
    ensures
        rb_telescope_s(t, index, m) == rb_telescope_s(t, index, n),
    decreases n,
{
    let f = (n - 1) as nat;
    let g = (m - 1) as nat;
    match t {
        GenericTelescope::Nil => {},
        GenericTelescope::UpDec(context, _) => lemma_rb_telescope_fuel(telescope_of(context), index, f, g),
        GenericTelescope::UpVar(context, _, v) => {
            lemma_rb_telescope_fuel(telescope_of(context), index, f, g);
            lemma_rb_value_fuel(v, index, f, g);
        },
    }
}

/// The neutral part of `lemma_rb_value_fuel`.
pub proof fn lemma_rb_neutral_fuel(k: crate::ast::Neutral, index: u32, n: nat, m: nat)
    requires
        n <= m,
        rb_neutral_s(k, index, n) is Some,
    ensures
        rb_neutral_s(k, index, m) == rb_neutral_s(k, index, n),
    decreases n,
{
    let f = (n - 1) as nat;
    let g = (m - 1) as nat;
    match k {
        GenericNeutral::Generated(_) => {},
        GenericNeutral::Application(function, argument) => {
            lemma_rb_neutral_fuel(*function, index, f, g);
            lemma_rb_value_fuel(*argument, index, f, g);
        },
        GenericNeutral::First(p) => lemma_rb_neutral_fuel(*p, index, f, g),
        GenericNeutral::Second(p) => lemma_rb_neutral_fuel(*p, index, f, g),
        GenericNeutral::Split(tree, body) => {
            lemma_rb_branches_fuel(List::Nil, tree, index, f, g);
            lemma_rb_neutral_fuel(*body, index, f, g);
        },
    }
}


/// Every variable that the normal form `n` binds is numbered `j` or above, and every
/// variable bound inside the body of a binder numbered `k` is numbered above `k`: the
/// variables bound around a point of a normal form have distinct numbers.
pub open spec fn numbered_from(n: NormalExpression, j: int) -> bool
    decreases n,
{
    match n {
        NormalExpression::Lambda(k, body) => k >= j && numbered_from(*body, k + 1),
        NormalExpression::Pair(a, b) => numbered_from(*a, j) && numbered_from(*b, j),
        NormalExpression::Pi(a, k, b) => numbered_from(*a, j) && k >= j && numbered_from(*b, k + 1),
        NormalExpression::Sigma(a, k, b) => numbered_from(*a, j) && k >= j && numbered_from(*b, k + 1),
        NormalExpression::Constructor(_, b) => numbered_from(*b, j),
        NormalExpression::Split(t) => tree_numbered_from(t, j),
        NormalExpression::Sum(t) => tree_numbered_from(t, j),
        NormalExpression::Neutral(k) => neutral_numbered_from(k, j),
        _ => true,
    }
}

pub open spec fn tree_numbered_from(t: NormalCaseTree, j: int) -> bool
    decreases t,
{
    match t {
        List::Nil => true,
        List::Cons(entry, rest) => case_numbered_from(*entry.1, j) && tree_numbered_from(*rest, j),
    }
}

pub open spec fn case_numbered_from(c: NormalCase, j: int) -> bool
    decreases c,
{
    (match c.expression {
        Either::Left(n) => numbered_from(n, j),
        Either::Right(_) => true,
    }) && telescope_numbered_from(*c.context, j)
}

pub open spec fn telescope_numbered_from(t: GenericTelescope<NormalExpression>, j: int) -> bool
    decreases t,
{
    match t {
        GenericTelescope::Nil => true,
        GenericTelescope::UpDec(c, _) => telescope_numbered_from(*c, j),
        GenericTelescope::UpVar(c, _, v) => telescope_numbered_from(*c, j) && numbered_from(v, j),
    }
}

pub open spec fn neutral_numbered_from(k: NormalNeutral, j: int) -> bool
    decreases k,
{
    match k {
        GenericNeutral::Generated(_) => true,
        GenericNeutral::Application(f, v) => neutral_numbered_from(*f, j) && numbered_from(*v, j),
        GenericNeutral::First(n) => neutral_numbered_from(*n, j),
        GenericNeutral::Second(n) => neutral_numbered_from(*n, j),
        GenericNeutral::Split(t, n) => tree_numbered_from(t, j) && neutral_numbered_from(*n, j),
    }
}

/// Storing a case keeps a tree numbered from `j`.
proof fn lemma_tree_numbered_insert(acc: NormalCaseTree, key: String, c: NormalCase, j: int)
    requires
        tree_numbered_from(acc, j),
        case_numbered_from(c, j),
    ensures
        tree_numbered_from(branch_insert(acc, key, c), j),
    decreases acc,
{
    if let List::Cons(entry, rest) = acc {
        lemma_tree_numbered_insert(*rest, key, c, j);
    }
}

/// Read-back at index `i` numbers each bound variable after those bound around it: a
/// binder is numbered `i` or above and what its body binds is numbered above it, so
/// two variables in scope at once never share a number (and `\Pi a. \Pi b. a` and
/// `\Pi a. \Pi b. b` keep different normal forms).
pub proof fn lemma_read_back_numbering(v: Value, index: u32, fuel: nat)
    ensures
        rb_value_s(v, index, fuel) matches Some(n) ==> numbered_from(n, index as int),
        v is Pi ==> (rb_value_s(v, index, fuel) matches Some(n) ==> n matches NormalExpression::Pi(_, k, _) && k
            == index),
        v is Sigma ==> (rb_value_s(v, index, fuel) matches Some(n) ==> n matches NormalExpression::Sigma(_, k, _) && k
            == index),
    decreases fuel,
{
    if fuel > 0 {
        let f = (fuel - 1) as nat;
        match v {
            Value::Lambda(closure) => {
                if index < u32::MAX {
                    if let Some(body) = instantiate_s(closure, generated(index), f) {
                        lemma_read_back_numbering(body, (index + 1) as u32, f);
                    }
                }
            },
            Value::Pi(input, output) => lemma_binder_numbering(*input, output, index, f, true),
            Value::Sigma(first, second) => lemma_binder_numbering(*first, second, index, f, false),
            Value::Pair(first, second) => {
                lemma_read_back_numbering(*first, index, f);
                lemma_read_back_numbering(*second, index, f);
            },
            Value::Constructor(_, body) => lemma_read_back_numbering(*body, index, f),
            Value::Split(tree) => lemma_branches_numbering(List::Nil, tree, index, f),
            Value::Sum(tree) => lemma_branches_numbering(List::Nil, tree, index, f),
            Value::Neutral(k) => lemma_neutral_numbering(k, index, f),
            _ => {},
        }
    }
}

/// The Pi and Sigma case of `lemma_read_back_numbering`: the binder is numbered
/// `index` and its body is read back from `index + 1`.
pub proof fn lemma_binder_numbering(t: Value, g: crate::ast::Closure, index: u32, fuel: nat, is_pi: bool)
    ensures
        rb_binder_s(t, g, index, fuel, is_pi) matches Some(n) ==> numbered_from(n, index as int),
        is_pi ==> (rb_binder_s(t, g, index, fuel, is_pi) matches Some(n) ==> n matches NormalExpression::Pi(_, k, _)
            && k == index),
        !is_pi ==> (rb_binder_s(t, g, index, fuel, is_pi) matches Some(n) ==> n matches NormalExpression::Sigma(
            _,
            k,
            _,
        ) && k == index),
    decreases fuel,
{
    if fuel > 0 && index < u32::MAX {
        let f = (fuel - 1) as nat;
        if let Some(body) = instantiate_s(g, generated(index), f) {
            lemma_read_back_numbering(body, (index + 1) as u32, f);
        }
        lemma_read_back_numbering(t, index, f);
    }
}

/// The case-tree part of `lemma_read_back_numbering`.
pub proof fn lemma_branches_numbering(acc: NormalCaseTree, tree: CaseTree, index: u32, fuel: nat)
    requires
        tree_numbered_from(acc, index as int),
    ensures
        rb_branches_s(acc, tree, index, fuel) matches Some(t) ==> tree_numbered_from(t, index as int),
    decreases fuel,
{
    if fuel > 0 {
        let f = (fuel - 1) as nat;
        if let List::Cons(entry, rest) = tree {
            lemma_case_numbering(*entry.1, index, f);
            if let Some(c) = rb_case_s(*entry.1, index, f) {
                lemma_tree_numbered_insert(acc, entry.0, c, index as int);
                lemma_branches_numbering(branch_insert(acc, entry.0, c), *rest, index, f);
            }
        }
    }
}

/// The case part of `lemma_read_back_numbering`.
pub proof fn lemma_case_numbering(case: Case, index: u32, fuel: nat)
    ensures
        rb_case_s(case, index, fuel) matches Some(c) ==> case_numbered_from(c, index as int),
    decreases fuel,
{
    if fuel > 0 {
        let f = (fuel - 1) as nat;
        lemma_telescope_numbering(telescope_of(case.context), index, f);
        if let Either::Left(v) = case.expression {
            lemma_read_back_numbering(v, index, f);
        }
    }
}

/// The telescope part of `lemma_read_back_numbering`.
pub proof fn lemma_telescope_numbering(t: GenericTelescope<Value>, index: u32, fuel: nat)
    ensures
        rb_telescope_s(t, index, fuel) matches Some(r) ==> telescope_numbered_from(r, index as int),
    decreases fuel,
{
    if fuel > 0 {
        let f = (fuel - 1) as nat;
        match t {
            GenericTelescope::Nil => {},
            GenericTelescope::UpDec(context, _) => lemma_telescope_numbering(telescope_of(context), index, f),
            GenericTelescope::UpVar(context, _, v) => {
                lemma_telescope_numbering(telescope_of(context), index, f);
                lemma_read_back_numbering(v, index, f);
            },
        }
    }
}

/// The neutral part of `lemma_read_back_numbering`.
pub proof fn lemma_neutral_numbering(k: crate::ast::Neutral, index: u32, fuel: nat)
    ensures
        rb_neutral_s(k, index, fuel) matches Some(r) ==> neutral_numbered_from(r, index as int),
    decreases fuel,
{
    if fuel > 0 {
        let f = (fuel - 1) as nat;
        match k {
            GenericNeutral::Generated(_) => {},
            GenericNeutral::Application(function, argument) => {
                lemma_neutral_numbering(*function, index, f);
                lemma_read_back_numbering(*argument, index, f);
            },
            GenericNeutral::First(p) => lemma_neutral_numbering(*p, index, f),
            GenericNeutral::Second(p) => lemma_neutral_numbering(*p, index, f),
            GenericNeutral::Split(tree, body) => {
                lemma_branches_numbering(List::Nil, tree, index, f);
                lemma_neutral_numbering(*body, index, f);
            },
        }
    }
}

/// Read-back keeps the shape of what it reads: a generated variable reads back as
/// itself, a pair as the pair of its components read back in order, a constructor
/// with its name and its argument read back.
pub proof fn lemma_read_back_shapes(u: Value, w: Value, c: String, j: u32, index: u32, fuel: nat)
    ensures
        rb_value_s(generated(j), index, fuel + 2) == Some(NormalExpression::Neutral(GenericNeutral::Generated(j))),
        rb_value_s(u, index, fuel) matches Some(a) ==> (rb_value_s(w, index, fuel) matches Some(b) ==> rb_value_s(
            Value::Pair(Box::new(u), Box::new(w)),
            index,
            fuel + 1,
        ) == Some(NormalExpression::Pair(Box::new(a), Box::new(b)))),
        rb_value_s(u, index, fuel) matches Some(a) ==> rb_value_s(Value::Constructor(c, Box::new(u)), index, fuel + 1)
            == Some(NormalExpression::Constructor(c, Box::new(a))),
{
    assert(rb_neutral_s(GenericNeutral::Generated(j), index, fuel + 1) == Some(
        GenericNeutral::<NormalExpression, NormalCase>::Generated(j),
    ));
}

/// Read-back names bound variables by their generated index, not by their name: the
/// identity function reads back to `\lambda x_i. x_i` whatever its parameter is
/// called, so `\lambda x. x` and `\lambda y. y` have the same normal form.
pub proof fn lemma_read_back_identity(x: String, rho: crate::ast::Telescope, index: u32, fuel: nat)
    requires
        index < u32::MAX,
        fuel >= 4,
    ensures
        rb_value_s(
            Value::Lambda(crate::ast::Closure::Abstraction(
                crate::ast::Pattern::Var(x),
                None,
                Expression::Var(x),
                Box::new(rho),
            )),
            index,
            fuel,
        ) == Some(
            NormalExpression::Lambda(
                index,
                Box::new(NormalExpression::Neutral(GenericNeutral::Generated(index))),
            ),
        ),
{
    let f = (fuel - 1) as nat;
    let c = crate::ast::Closure::Abstraction(crate::ast::Pattern::Var(x), None, Expression::Var(x), Box::new(rho));
    let ctx = Rc::new(GenericTelescope::UpVar(rho, crate::ast::Pattern::Var(x), generated(index)));
    assert(crate::eval::resolve_s(*ctx, x@, (f - 2) as nat) == Some(Ok::<Value, Seq<char>>(generated(index))));
    assert(crate::eval::eval_s(Expression::Var(x), ctx, (f - 1) as nat) == Some(generated(index)));
    assert(instantiate_s(c, generated(index), f) == Some(generated(index)));
    assert(rb_neutral_s(GenericNeutral::Generated(index), (index + 1) as u32, (f - 1) as nat) == Some(
        GenericNeutral::<NormalExpression, NormalCase>::Generated(index),
    ));
    assert(rb_value_s(generated(index), (index + 1) as u32, f) == Some(
        NormalExpression::Neutral(GenericNeutral::Generated(index)),
    ));
}

} // verus!

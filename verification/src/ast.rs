use std::rc::Rc;
use vstd::prelude::*;

use crate::list::{
    branch_get, branch_insert, branch_insert_exec, branch_wf, lemma_branch_insert_get, lemma_branch_insert_wf, lemma_keys_above_absent,
    Duplicate, GenericBranch, List,
};

verus! {

/// Universe levels.
pub type Level = u32;

/// `Exp` in Mini-TT: the expression language.
#[derive(Debug)]
pub enum Expression {
    /// `0`
    Unit,
    /// `1`
    One,
    /// `Type`, extended with levels.
    Type(Level),
    /// The empty program.
    Void,
    /// `x`
    Var(String),
    /// `Sum { C x }`
    Sum(Branch),
    /// `split { C x => y }`
    Split(Branch),
    /// `A ++ B`, the merge of two sums (an extension of Mini-TT).
    Merge(Box<Expression>, Box<Expression>),
    /// `\Pi p: A. B`
    Pi(Typed, Box<Expression>),
    /// `\Sigma p: A. B`
    Sigma(Typed, Box<Expression>),
    /// `\lambda p. M`, with the parameter type for generated intermediate values.
    Lambda(Pattern, Option<AnonymousValue>, Box<Expression>),
    /// `M.1`
    First(Box<Expression>),
    /// `M.2`
    Second(Box<Expression>),
    /// `M N`
    Application(Box<Expression>, Box<Expression>),
    /// `M, N`
    Pair(Box<Expression>, Box<Expression>),
    /// `C M`
    Constructor(String, Box<Expression>),
    /// `const p = M; N`: a declaration whose signature is inferred (an extension).
    Constant(Pattern, Box<Expression>, Box<Expression>),
    /// `D; M`
    Declaration(Box<Declaration>, Box<Expression>),
}

/// A value carried by an expression that plays no part in comparing expressions
/// (see `expression_equiv`).
#[derive(Debug)]
pub struct AnonymousValue {
    pub internal: Box<Value>,
}

impl AnonymousValue {
    pub fn new(value: Value) -> (r: Self)
        ensures
            *r.internal == value,
    {
        AnonymousValue { internal: Box::new(value) }
    }

    pub fn some(value: Value) -> (r: Option<Self>)
        ensures
            r matches Some(a) && *a.internal == value,
    {
        Some(Self::new(value))
    }
}

/// `S ::= () | (c M, S)`: pattern matching branches.
pub type Branch = GenericBranch<Expression>;

/// `p: A`, a pattern with its type.
#[derive(Debug)]
pub struct Typed {
    pub pattern: Pattern,
    pub expression: Box<Expression>,
}

impl Typed {
    pub fn new(pattern: Pattern, expression: Expression) -> (r: Self)
        ensures
            r.pattern == pattern,
            *r.expression == expression,
    {
        Typed { pattern, expression: Box::new(expression) }
    }

    pub fn destruct(self) -> (r: (Pattern, Expression))
        ensures
            r == (self.pattern, *self.expression),
    {
        (self.pattern, *self.expression)
    }
}

/// `Val` in Mini-TT: values are canonical forms or neutral forms.
#[derive(Debug)]
pub enum Value {
    /// `\lambda f`
    Lambda(Closure),
    /// `0`
    Unit,
    /// `1`
    One,
    /// `Type`
    Type(Level),
    /// `\Pi t g`
    Pi(Box<Value>, Closure),
    /// `\Sigma t g`
    Sigma(Box<Value>, Closure),
    /// `u, v`
    Pair(Box<Value>, Box<Value>),
    /// `c t`
    Constructor(String, Box<Value>),
    /// `fun s`
    Split(CaseTree),
    /// `Sum s`
    Sum(CaseTree),
    /// `[k]`
    Neutral(Neutral),
}

/// Neutral terms, for values (`Neutral`) and for normal forms (`NormalNeutral`).
/// `C` is the kind of case carried by a stuck case-split.
#[derive(Debug)]
pub enum GenericNeutral<V, C> {
    /// `x_n`: stuck on a free variable.
    Generated(u32),
    /// `k v`
    Application(Box<GenericNeutral<V, C>>, Box<V>),
    /// `k.1`
    First(Box<GenericNeutral<V, C>>),
    /// `k.2`
    Second(Box<GenericNeutral<V, C>>),
    /// `s k`: a case-split stuck on a neutral scrutinee.
    Split(GenericBranch<C>, Box<GenericNeutral<V, C>>),
}

/// `Neut` in Mini-TT.
pub type Neutral = GenericNeutral<Value, Case>;

/// `Patt` in Mini-TT.
#[derive(Debug)]
pub enum Pattern {
    /// `p, p`
    Pair(Box<Pattern>, Box<Pattern>),
    /// `_`
    Unit,
    /// `x`
    Var(String),
}

/// `Decl` in Mini-TT: `p : A = M` or `rec p : A = M`, with prefix parameters.
#[derive(Debug)]
pub struct Declaration {
    pub pattern: Pattern,
    /// Parameters before the signature (an extension).
    pub prefix_parameters: List<Typed>,
    pub signature: Expression,
    pub body: Expression,
    pub is_recursive: bool,
}

impl Declaration {
    pub fn new(
        pattern: Pattern,
        prefix_parameters: Vec<Typed>,
        signature: Expression,
        body: Expression,
        is_recursive: bool,
    ) -> (r: Self)
        ensures
            r.pattern == pattern,
            r.prefix_parameters.seq() == prefix_parameters@,
            r.signature == signature,
            r.body == body,
            r.is_recursive == is_recursive,
    {
        Declaration {
            pattern,
            prefix_parameters: List::from_vec(prefix_parameters),
            signature,
            body,
            is_recursive,
        }
    }

    /// A non-recursive declaration.
    pub fn simple(
        pattern: Pattern,
        prefix_parameters: Vec<Typed>,
        signature: Expression,
        body: Expression,
    ) -> (r: Self)
        ensures
            r.pattern == pattern,
            r.prefix_parameters.seq() == prefix_parameters@,
            r.signature == signature,
            r.body == body,
            !r.is_recursive,
    {
        Self::new(pattern, prefix_parameters, signature, body, false)
    }

    /// A recursive declaration.
    pub fn recursive(
        pattern: Pattern,
        prefix_parameters: Vec<Typed>,
        signature: Expression,
        body: Expression,
    ) -> (r: Self)
        ensures
            r.pattern == pattern,
            r.prefix_parameters.seq() == prefix_parameters@,
            r.signature == signature,
            r.body == body,
            r.is_recursive,
    {
        Self::new(pattern, prefix_parameters, signature, body, true)
    }
}

/// Telescopes (`Rho` in Mini-TT), for values and for normal forms.
#[derive(Debug)]
pub enum GenericTelescope<V> {
    /// `()`
    Nil,
    /// `rho, p = D`
    UpDec(Rc<GenericTelescope<V>>, Declaration),
    /// `rho, p = v`
    UpVar(Rc<GenericTelescope<V>>, Pattern, V),
}

pub type TelescopeRc<V> = Rc<GenericTelescope<V>>;

/// `Rho` in Mini-TT, the evaluation context.
pub type Telescope = Rc<GenericTelescope<Value>>;

/// `rho, p = v`
pub fn up_var_rc<V>(me: TelescopeRc<V>, pattern: Pattern, value: V) -> (r: TelescopeRc<V>)
    ensures
        *r == GenericTelescope::UpVar(me, pattern, value),
{
    Rc::new(GenericTelescope::UpVar(me, pattern, value))
}

/// `rho, D`
pub fn up_dec_rc<V>(me: TelescopeRc<V>, declaration: Declaration) -> (r: TelescopeRc<V>)
    ensures
        *r == GenericTelescope::UpDec(me, declaration),
{
    Rc::new(GenericTelescope::UpDec(me, declaration))
}

/// `()`
pub fn nil_rc<V>() -> (r: TelescopeRc<V>)
    ensures
        *r == GenericTelescope::<V>::Nil,
{
    Rc::new(GenericTelescope::Nil)
}

/// `Clos` in Mini-TT.
#[derive(Debug)]
pub enum Closure {
    /// `<\lambda p. M, rho>`, with the optional parameter type.
    Abstraction(Pattern, Option<Box<Value>>, Expression, Box<Telescope>),
    /// A closure that is already a value (an extension).
    Value(Box<Value>),
    /// `f . c`, a closure inside a case-split.
    Choice(Box<Closure>, String),
}

/// One of two values.
#[derive(Debug)]
pub enum Either<L, R> {
    Left(L),
    Right(R),
}

/// A case of a case tree: an expression or a value, with its context.
#[derive(Debug)]
pub struct GenericCase<E, V> {
    pub expression: E,
    pub context: TelescopeRc<V>,
}

impl<E, V> GenericCase<E, V> {
    pub fn new(expression: E, context: TelescopeRc<V>) -> (r: Self)
        ensures
            r.expression == expression,
            r.context == context,
    {
        GenericCase { expression, context }
    }
}

/// One case of a case tree.
pub type Case = GenericCase<Either<Value, Expression>, Value>;

/// `SClos` in Mini-TT: `<S, rho>`.
pub type CaseTree = GenericBranch<Case>;

/// Turns a `Branch` into a `CaseTree`, every case closed over `context`; the cases
/// are inserted in order, as into a fresh map.
pub open spec fn righted(branch: Branch, context: Telescope) -> CaseTree
    decreases branch,
{
    righted_into(List::Nil, branch, context)
}

pub open spec fn righted_into(acc: CaseTree, branch: Branch, context: Telescope) -> CaseTree
    decreases branch,
{
    match branch {
        List::Nil => acc,
        List::Cons(entry, rest) => righted_into(
            branch_insert(acc, entry.0, GenericCase { expression: Either::Right(*entry.1), context }),
            *rest,
            context,
        ),
    }
}

fn branch_to_righted_into(acc: CaseTree, branch: Branch, context: &Telescope) -> (r: CaseTree)
    ensures
        r == righted_into(acc, branch, *context),
    decreases branch,
{
    match branch {
        List::Nil => acc,
        List::Cons(entry, rest) => {
            let case = GenericCase::new(Either::Right(*entry.1), context.clone());
            branch_to_righted_into(branch_insert_exec(acc, entry.0, case), *rest, context)
        },
    }
}

/// Converts a `Branch` into a `CaseTree` by closing every case over `context`.
pub fn branch_to_righted(branch: Branch, context: Telescope) -> (r: CaseTree)
    ensures
        r == righted(branch, context),
{
    branch_to_righted_into(List::Nil, branch, &context)
}

impl Duplicate for Pattern {
    fn duplicate(&self) -> (r: Self)
        decreases self,
    {
        match self {
            Pattern::Pair(a, b) => Pattern::Pair(Box::new((**a).duplicate()), Box::new((**b).duplicate())),
            Pattern::Unit => Pattern::Unit,
            Pattern::Var(n) => Pattern::Var(n.clone()),
        }
    }
}

impl Duplicate for Typed {
    fn duplicate(&self) -> (r: Self)
        decreases self, 1nat,
    {
        Typed { pattern: self.pattern.duplicate(), expression: Box::new((*self.expression).duplicate()) }
    }
}

impl Duplicate for Declaration {
    fn duplicate(&self) -> (r: Self)
        decreases self, 1nat,
    {
        Declaration {
            pattern: self.pattern.duplicate(),
            prefix_parameters: duplicate_typed_list(&self.prefix_parameters),
            signature: self.signature.duplicate(),
            body: self.body.duplicate(),
            is_recursive: self.is_recursive,
        }
    }
}

fn duplicate_typed_list(l: &List<Typed>) -> (r: List<Typed>)
    ensures
        r == *l,
    decreases l, 0nat,
{
    match l {
        List::Nil => List::Nil,
        List::Cons(t, rest) => List::Cons(t.duplicate(), Box::new(duplicate_typed_list(&**rest))),
    }
}

fn duplicate_branch(b: &Branch) -> (r: Branch)
    ensures
        r == *b,
    decreases b, 0nat,
{
    match b {
        List::Nil => List::Nil,
        List::Cons(entry, rest) => List::Cons(
            (entry.0.clone(), Box::new((*entry.1).duplicate())),
            Box::new(duplicate_branch(&**rest)),
        ),
    }
}

impl Duplicate for Expression {
    fn duplicate(&self) -> (r: Self)
        decreases self, 1nat,
    {
        match self {
            Expression::Unit => Expression::Unit,
            Expression::One => Expression::One,
            Expression::Type(l) => Expression::Type(*l),
            Expression::Void => Expression::Void,
            Expression::Var(n) => Expression::Var(n.clone()),
            Expression::Sum(b) => Expression::Sum(duplicate_branch(b)),
            Expression::Split(b) => Expression::Split(duplicate_branch(b)),
            Expression::Merge(a, b) => Expression::Merge(
                Box::new((**a).duplicate()),
                Box::new((**b).duplicate()),
            ),
            Expression::Pi(t, b) => Expression::Pi(t.duplicate(), Box::new((**b).duplicate())),
            Expression::Sigma(t, b) => Expression::Sigma(t.duplicate(), Box::new((**b).duplicate())),
            Expression::Lambda(p, a, b) => Expression::Lambda(
                p.duplicate(),
                match a {
                    Some(a) => Some(AnonymousValue { internal: Box::new((*a.internal).duplicate()) }),
                    None => None,
                },
                Box::new((**b).duplicate()),
            ),
            Expression::First(a) => Expression::First(Box::new((**a).duplicate())),
            Expression::Second(a) => Expression::Second(Box::new((**a).duplicate())),
            Expression::Application(a, b) => Expression::Application(
                Box::new((**a).duplicate()),
                Box::new((**b).duplicate()),
            ),
            Expression::Pair(a, b) => Expression::Pair(
                Box::new((**a).duplicate()),
                Box::new((**b).duplicate()),
            ),
            Expression::Constructor(n, a) => Expression::Constructor(n.clone(), Box::new((**a).duplicate())),
            Expression::Constant(p, a, b) => Expression::Constant(
                p.duplicate(),
                Box::new((**a).duplicate()),
                Box::new((**b).duplicate()),
            ),
            Expression::Declaration(d, b) => Expression::Declaration(
                Box::new((**d).duplicate()),
                Box::new((**b).duplicate()),
            ),
        }
    }
}

impl Duplicate for Closure {
    fn duplicate(&self) -> (r: Self)
        decreases self, 1nat,
    {
        match self {
            Closure::Abstraction(p, t, e, c) => Closure::Abstraction(
                p.duplicate(),
                match t {
                    Some(t) => Some(Box::new((**t).duplicate())),
                    None => None,
                },
                e.duplicate(),
                Box::new((**c).clone()),
            ),
            Closure::Value(v) => Closure::Value(Box::new((**v).duplicate())),
            Closure::Choice(c, n) => Closure::Choice(Box::new((**c).duplicate()), n.clone()),
        }
    }
}

impl Duplicate for Case {
    fn duplicate(&self) -> (r: Self)
        decreases self, 1nat,
    {
        GenericCase {
            expression: match &self.expression {
                Either::Left(v) => Either::Left(v.duplicate()),
                Either::Right(e) => Either::Right(e.duplicate()),
            },
            context: self.context.clone(),
        }
    }
}

fn duplicate_case_tree(b: &CaseTree) -> (r: CaseTree)
    ensures
        r == *b,
    decreases b, 0nat,
{
    match b {
        List::Nil => List::Nil,
        List::Cons(entry, rest) => List::Cons(
            (entry.0.clone(), Box::new((*entry.1).duplicate())),
            Box::new(duplicate_case_tree(&**rest)),
        ),
    }
}

impl Duplicate for Neutral {
    fn duplicate(&self) -> (r: Self)
        decreases self, 1nat,
    {
        match self {
            GenericNeutral::Generated(i) => GenericNeutral::Generated(*i),
            GenericNeutral::Application(k, v) => GenericNeutral::Application(
                Box::new((**k).duplicate()),
                Box::new((**v).duplicate()),
            ),
            GenericNeutral::First(k) => GenericNeutral::First(Box::new((**k).duplicate())),
            GenericNeutral::Second(k) => GenericNeutral::Second(Box::new((**k).duplicate())),
            GenericNeutral::Split(b, k) => GenericNeutral::Split(
                duplicate_case_tree(b),
                Box::new((**k).duplicate()),
            ),
        }
    }
}

impl Duplicate for Value {
    fn duplicate(&self) -> (r: Self)
        decreases self, 1nat,
    {
        match self {
            Value::Lambda(c) => Value::Lambda(c.duplicate()),
            Value::Unit => Value::Unit,
            Value::One => Value::One,
            Value::Type(l) => Value::Type(*l),
            Value::Pi(t, c) => Value::Pi(Box::new((**t).duplicate()), c.duplicate()),
            Value::Sigma(t, c) => Value::Sigma(Box::new((**t).duplicate()), c.duplicate()),
            Value::Pair(a, b) => Value::Pair(Box::new((**a).duplicate()), Box::new((**b).duplicate())),
            Value::Constructor(n, a) => Value::Constructor(n.clone(), Box::new((**a).duplicate())),
            Value::Split(b) => Value::Split(duplicate_case_tree(b)),
            Value::Sum(b) => Value::Sum(duplicate_case_tree(b)),
            Value::Neutral(k) => Value::Neutral(k.duplicate()),
        }
    }
}


/// Closing the cases of a branch over a context gives a well-formed case tree; where
/// the branch names each constructor once, every name finds its own case, closed
/// over the context, and the names it lacks keep what `acc` had.
pub proof fn lemma_righted_into(acc: CaseTree, branch: Branch, context: Telescope, name: Seq<char>)
    requires
        branch_wf(acc),
    ensures
        branch_wf(righted_into(acc, branch, context)),
        branch_wf(branch) ==> branch_get(righted_into(acc, branch, context), name) == match branch_get(branch, name) {
            Some(e) => Some(GenericCase { expression: Either::<Value, Expression>::Right(e), context }),
            None => branch_get(acc, name),
        },
    decreases branch,
{
    if let List::Cons(entry, rest) = branch {
        let case = GenericCase { expression: Either::Right(*entry.1), context };
        lemma_branch_insert_wf(acc, entry.0, case);
        lemma_branch_insert_get(acc, entry.0, case, name);
        lemma_righted_into(branch_insert(acc, entry.0, case), *rest, context, name);
        if branch_wf(branch) && name == entry.0@ {
            lemma_keys_above_absent(*rest, name);
        }
    }
}

/// `righted_into` keeps the names: a name has a case in the result exactly where it
/// has an entry in the branch or a case in the accumulator.
pub proof fn lemma_righted_into_names(acc: CaseTree, branch: Branch, context: Telescope, name: Seq<char>)
    ensures
        (branch_get(righted_into(acc, branch, context), name) is Some) <==> (branch_get(branch, name) is Some
            || branch_get(acc, name) is Some),
    decreases branch,
{
    if let List::Cons(entry, rest) = branch {
        let case = GenericCase { expression: Either::Right(*entry.1), context };
        lemma_branch_insert_get(acc, entry.0, case, name);
        lemma_righted_into_names(branch_insert(acc, entry.0, case), *rest, context, name);
    }
}

/// `righted` on a branch that names each constructor once: each name finds its case.
pub proof fn lemma_righted(branch: Branch, context: Telescope, name: Seq<char>)
    ensures
        branch_wf(righted(branch, context)),
        branch_wf(branch) ==> branch_get(righted(branch, context), name) == match branch_get(branch, name) {
            Some(e) => Some(GenericCase { expression: Either::<Value, Expression>::Right(e), context }),
            None => None,
        },
{
    lemma_righted_into(List::Nil, branch, context, name);
}

} // verus!

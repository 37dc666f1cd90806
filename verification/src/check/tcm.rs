use std::rc::Rc;
use vstd::prelude::*;

use crate::ast::{nil_rc, up_var_rc, Closure, Either, Expression, GenericTelescope, Level, Pattern, Telescope, Value};
use crate::check::read_back::NormalExpression;
use crate::eval::{eval_s, instantiate_s, lemma_eval_fuel, lemma_instantiate_fuel, pattern_contains, spec_first, spec_second, MAX_FUEL};
use crate::list::{
    branch_get, branch_insert, branch_insert_exec, branch_wf, lemma_branch_insert_get, lemma_branch_insert_wf, Duplicate, GenericBranch, List,
};

verus! {

/// The typing context: name to type. `lookupG` in Mini-TT is a lookup in it.
pub type GammaRaw = GenericBranch<Value>;

/// `Gamma ::= () | Gamma, x : t`, `Gamma` in Mini-TT.
pub type Gamma = GammaRaw;

/// Type-checking errors.
#[derive(Debug)]
pub enum TCE {
    Textual(String),
    UpdateGammaFailed(Pattern),
    CannotInfer(Expression),
    UnresolvedName(String),
    InvalidConstructor(String),
    MissingCase(String),
    /// The names of the unexpected cases.
    UnexpectedCases(List<String>),
    /// Reaching somewhere that is not expected to reach: file, line, column.
    Unreachable(&'static str, u32, u32),
    WantSumBut(Either<Value, Expression>),
    DuplicateBranch(String),
    WantSigmaBut(Value),
    /// The function's type and the argument of the application.
    WantPiBut(Value, Expression),
    /// Actual first value, expected second value.
    TypeMismatch(Value, Value),
    /// Wanted a type's type.
    NotTypeType(Value),
    /// Actual first level, expected second level.
    LevelMismatch(Level, Level),
    /// Inferred first, expected second.
    ReadBackTypeMismatch(NormalExpression, NormalExpression),
    Located(Box<TCE>, Pattern),
}

/// `G` in Mini-TT: the type-checking monad.
pub type TCM<T> = Result<T, TCE>;

/// Type-checking state: the typing context and the evaluation context.
#[derive(Debug)]
pub struct TCS {
    pub gamma: Gamma,
    pub context: Telescope,
}

impl Duplicate for TCS {
    fn duplicate(&self) -> (r: Self) {
        TCS { gamma: self.gamma.duplicate(), context: self.context.clone() }
    }
}

impl TCE {
    /// The default error: a message.
    pub fn default_error<T>(str: String) -> (r: TCM<T>)
        ensures
            r == Err::<T, TCE>(TCE::Textual(str)),
    {
        Err(TCE::Textual(str))
    }
}

/// The empty state.
pub open spec fn empty_tcs() -> TCS {
    TCS { gamma: List::Nil, context: Rc::new(GenericTelescope::Nil) }
}

/// `TCS::update`: binds `pattern` to `type_val` in the typing context and to `body`
/// in the evaluation context.
pub open spec fn tcs_update_s(tcs: TCS, pattern: Pattern, type_val: Value, body: Value, fuel: nat) -> Option<TCM<TCS>> {
    match update_gamma_s(tcs.gamma, pattern, type_val, body, fuel) {
        Some(Ok(gamma)) => Some(Ok(TCS {
            gamma,
            context: Rc::new(GenericTelescope::UpVar(tcs.context, pattern, body)),
        })),
        Some(Err(e)) => Some(Err(e)),
        None => None,
    }
}

/// `upG` in Mini-TT: `Gamma |- x : t = v => Gamma, x : t`, `Gamma |- _ : t = v => Gamma`,
/// and a pair pattern against a Sigma type binds both components.
pub open spec fn update_gamma_s(gamma: Gamma, pattern: Pattern, type_val: Value, body: Value, fuel: nat) -> Option<TCM<Gamma>>
    decreases fuel,
{
    if fuel == 0 {
        None
    } else {
        let f = (fuel - 1) as nat;
        match pattern {
            Pattern::Pair(first, second) => match type_val {
                Value::Sigma(t, g) => update_gamma_by_pair_s(gamma, *first, *second, *t, g, body, f),
                _ => Some(Err(TCE::UpdateGammaFailed(pattern))),
            },
            Pattern::Var(name) => Some(Ok(branch_insert(gamma, name, type_val))),
            Pattern::Unit => Some(Ok(gamma)),
        }
    }
}

/// `upG` where the body is evaluated only when a pair pattern needs it.
pub open spec fn update_gamma_lazy_s(
    gamma: Gamma,
    pattern: Pattern,
    type_val: Value,
    body: Expression,
    context: Telescope,
    fuel: nat,
) -> Option<TCM<Gamma>> {
    if fuel == 0 {
        None
    } else {
        let f = (fuel - 1) as nat;
        match pattern {
            Pattern::Pair(first, second) => match type_val {
                Value::Sigma(t, g) => match eval_s(body, context, f) {
                    Some(v) => update_gamma_by_pair_s(gamma, *first, *second, *t, g, v, f),
                    None => None,
                },
                _ => Some(Err(TCE::UpdateGammaFailed(pattern))),
            },
            Pattern::Var(name) => Some(Ok(branch_insert(gamma, name, type_val))),
            Pattern::Unit => Some(Ok(gamma)),
        }
    }
}

pub open spec fn update_gamma_by_pair_s(
    gamma: Gamma,
    pattern_first: Pattern,
    pattern_second: Pattern,
    first: Value,
    second: Closure,
    generated_val: Value,
    fuel: nat,
) -> Option<TCM<Gamma>>
    decreases fuel,
{
    if fuel == 0 {
        None
    } else {
        let f = (fuel - 1) as nat;
        match (spec_first(generated_val), spec_second(generated_val)) {
            (Some(val_first), Some(val_second)) => match update_gamma_s(gamma, pattern_first, first, val_first, f) {
                Some(Ok(gamma)) => match instantiate_s(second, val_first, f) {
                    Some(second) => update_gamma_s(gamma, pattern_second, second, val_second, f),
                    None => None,
                },
                Some(Err(e)) => Some(Err(e)),
                None => None,
            },
            _ => None,
        }
    }
}

fn update_gamma_fuel(gamma: Gamma, pattern: &Pattern, type_val: Value, body: Value, fuel: u64) -> (r: Option<TCM<Gamma>>)
    ensures
        r == update_gamma_s(gamma, *pattern, type_val, body, fuel as nat),
    decreases fuel,
{
    if fuel == 0 {
        return None;
    }
    let f = fuel - 1;
    match pattern {
        Pattern::Pair(pattern_first, pattern_second) => match type_val {
            Value::Sigma(first, second) => update_gamma_by_pair(gamma, pattern_first, pattern_second, *first, second, body, f),
            _ => Some(Err(TCE::UpdateGammaFailed(pattern.duplicate()))),
        },
        Pattern::Var(name) => Some(Ok(branch_insert_exec(gamma, name.clone(), type_val))),
        Pattern::Unit => Some(Ok(gamma)),
    }
}

fn update_gamma_by_pair(
    gamma: Gamma,
    pattern_first: &Pattern,
    pattern_second: &Pattern,
    first: Value,
    second: Closure,
    generated_val: Value,
    fuel: u64,
) -> (r: Option<TCM<Gamma>>)
    ensures
        r == update_gamma_by_pair_s(gamma, *pattern_first, *pattern_second, first, second, generated_val, fuel as nat),
    decreases fuel,
{
    if fuel == 0 {
        return None;
    }
    let f = fuel - 1;
    let (val_first, val_second) = match generated_val {
        Value::Pair(a, b) => (*a, *b),
        Value::Neutral(neutral) => (
            Value::Neutral(crate::ast::GenericNeutral::First(Box::new(neutral.duplicate()))),
            Value::Neutral(crate::ast::GenericNeutral::Second(Box::new(neutral))),
        ),
        _ => return None,
    };
    let gamma = match update_gamma_fuel(gamma, pattern_first, first, val_first.duplicate(), f) {
        Some(Ok(gamma)) => gamma,
        Some(Err(e)) => return Some(Err(e)),
        None => return None,
    };
    match second.instantiate_fuel(val_first, f) {
        Some(second) => update_gamma_fuel(gamma, pattern_second, second, val_second, f),
        None => None,
    }
}

/// `upG` in Mini-TT, where the body is the value of `body` under `context`, evaluated
/// only when a pair pattern needs it; with at most `fuel` nested steps.
pub fn update_gamma_lazy_fuel(
    gamma: Gamma,
    pattern: &Pattern,
    type_val: Value,
    body: Expression,
    context: Telescope,
    fuel: u64,
) -> (r: Option<TCM<Gamma>>)
    ensures
        r == update_gamma_lazy_s(gamma, *pattern, type_val, body, context, fuel as nat),
{
    if fuel == 0 {
        return None;
    }
    let f = fuel - 1;
    match pattern {
        Pattern::Pair(pattern_first, pattern_second) => match type_val {
            Value::Sigma(first, second) => match body.eval_fuel(context, f) {
                Some(v) => update_gamma_by_pair(gamma, pattern_first, pattern_second, *first, second, v, f),
                None => None,
            },
            _ => Some(Err(TCE::UpdateGammaFailed(pattern.duplicate()))),
        },
        Pattern::Var(name) => Some(Ok(branch_insert_exec(gamma, name.clone(), type_val))),
        Pattern::Unit => Some(Ok(gamma)),
    }
}

/// `upG` in Mini-TT, with at most `fuel` nested steps.
pub fn update_gamma_fuel_pub(gamma: Gamma, pattern: &Pattern, type_val: Value, body: Value, fuel: u64) -> (r: Option<TCM<Gamma>>)
    ensures
        r == update_gamma_s(gamma, *pattern, type_val, body, fuel as nat),
{
    update_gamma_fuel(gamma, pattern, type_val, body, fuel)
}

/// Move version of `upG` in Mini-TT.
pub fn update_gamma(gamma: Gamma, pattern: &Pattern, type_val: Value, body: Value) -> (r: TCM<Gamma>)
    requires
        update_gamma_s(gamma, *pattern, type_val, body, MAX_FUEL as nat) is Some,
    ensures
        Some(r) == update_gamma_s(gamma, *pattern, type_val, body, MAX_FUEL as nat),
{
    match update_gamma_fuel(gamma, pattern, type_val, body, MAX_FUEL) {
        Some(r) => r,
        None => vstd::pervasive::unreached(),
    }
}

/// Borrow version of `upG` in Mini-TT.
pub fn update_gamma_borrow(gamma: Gamma, pattern: &Pattern, type_val: Value, body: &Value) -> (r: TCM<Gamma>)
    requires
        update_gamma_s(gamma, *pattern, type_val, *body, MAX_FUEL as nat) is Some,
    ensures
        Some(r) == update_gamma_s(gamma, *pattern, type_val, *body, MAX_FUEL as nat),
{
    update_gamma(gamma, pattern, type_val, body.duplicate())
}

/// Lazy version of `upG` in Mini-TT: the body is the value of `body` under
/// `context`, evaluated only when a pair pattern needs it.
pub fn update_gamma_lazy(gamma: Gamma, pattern: &Pattern, type_val: Value, body: Expression, context: Telescope) -> (r: TCM<Gamma>)
    requires
        update_gamma_lazy_s(gamma, *pattern, type_val, body, context, MAX_FUEL as nat) is Some,
    ensures
        Some(r) == update_gamma_lazy_s(gamma, *pattern, type_val, body, context, MAX_FUEL as nat),
{
    match update_gamma_lazy_fuel(gamma, pattern, type_val, body, context, MAX_FUEL) {
        Some(r) => r,
        None => vstd::pervasive::unreached(),
    }
}

impl TCS {
    pub fn new(gamma: Gamma, context: Telescope) -> (r: Self)
        ensures
            r == (TCS { gamma, context }),
    {
        TCS { gamma, context }
    }

    /// The evaluation context (cheap to copy).
    pub fn context(&self) -> (r: Telescope)
        ensures
            r == self.context,
    {
        self.context.clone()
    }

    /// The empty state.
    pub fn default() -> (r: Self)
        ensures
            r == empty_tcs(),
    {
        TCS { gamma: List::Nil, context: nil_rc() }
    }

    /// Binds `pattern`, with at most `fuel` nested steps.
    pub fn update_fuel(self, pattern: Pattern, type_val: Value, body: Value, fuel: u64) -> (r: Option<TCM<TCS>>)
        ensures
            r == tcs_update_s(self, pattern, type_val, body, fuel as nat),
    {
        match update_gamma_fuel(self.gamma, &pattern, type_val, body.duplicate(), fuel) {
            Some(Ok(gamma)) => Some(Ok(TCS { gamma, context: up_var_rc(self.context, pattern, body) })),
            Some(Err(e)) => Some(Err(e)),
            None => None,
        }
    }

    /// Binds `pattern` to `type_val` in the typing context and to `body` in the
    /// evaluation context.
    pub fn update(self, pattern: Pattern, type_val: Value, body: Value) -> (r: TCM<TCS>)
        requires
            tcs_update_s(self, pattern, type_val, body, MAX_FUEL as nat) is Some,
        ensures
            Some(r) == tcs_update_s(self, pattern, type_val, body, MAX_FUEL as nat),
    {
        match self.update_fuel(pattern, type_val, body, MAX_FUEL) {
            Some(r) => r,
            None => vstd::pervasive::unreached(),
        }
    }
}


/// Binding a name gives it the type in the typing context and leaves every other
/// name's type as it was.
pub proof fn lemma_update_gamma_var(gamma: Gamma, x: String, t: Value, v: Value, name: Seq<char>, fuel: nat)
    requires
        fuel > 0,
    ensures
        update_gamma_s(gamma, Pattern::Var(x), t, v, fuel) == Some(Ok::<Gamma, TCE>(branch_insert(gamma, x, t))),
        branch_get(branch_insert(gamma, x, t), name) == if name == x@ {
            Some(t)
        } else {
            branch_get(gamma, name)
        },
{
    lemma_branch_insert_get(gamma, x, t, name);
}

/// Updating the typing context keeps it well formed and changes the types of the
/// names that the pattern binds only.
pub proof fn lemma_update_gamma_keeps(gamma: Gamma, pattern: Pattern, type_val: Value, body: Value, name: Seq<char>, fuel: nat)
    requires
        branch_wf(gamma),
    ensures
        match update_gamma_s(gamma, pattern, type_val, body, fuel) {
            Some(Ok(g)) => branch_wf(g) && (!pattern_contains(pattern, name) ==> branch_get(g, name) == branch_get(gamma, name)),
            _ => true,
        },
    decreases fuel,
{
    if fuel > 0 {
        let f = (fuel - 1) as nat;
        match pattern {
            Pattern::Pair(first, second) => {
                if let Value::Sigma(t, g) = type_val {
                    lemma_update_gamma_by_pair_keeps(gamma, *first, *second, *t, g, body, name, f);
                }
            },
            Pattern::Var(x) => {
                lemma_branch_insert_wf(gamma, x, type_val);
                lemma_branch_insert_get(gamma, x, type_val, name);
            },
            Pattern::Unit => {},
        }
    }
}

/// The pair case of `lemma_update_gamma_keeps`.
pub proof fn lemma_update_gamma_by_pair_keeps(
    gamma: Gamma,
    pattern_first: Pattern,
    pattern_second: Pattern,
    first: Value,
    second: Closure,
    generated_val: Value,
    name: Seq<char>,
    fuel: nat,
)
    requires
        branch_wf(gamma),
    ensures
        match update_gamma_by_pair_s(gamma, pattern_first, pattern_second, first, second, generated_val, fuel) {
            Some(Ok(g)) => branch_wf(g) && (!pattern_contains(pattern_first, name) && !pattern_contains(pattern_second, name)
                ==> branch_get(g, name) == branch_get(gamma, name)),
            _ => true,
        },
    decreases fuel,
{
    if fuel > 0 {
        let f = (fuel - 1) as nat;
        if let (Some(val_first), Some(val_second)) = (spec_first(generated_val), spec_second(generated_val)) {
            lemma_update_gamma_keeps(gamma, pattern_first, first, val_first, name, f);
            if let Some(Ok(g1)) = update_gamma_s(gamma, pattern_first, first, val_first, f) {
                if let Some(second_type) = instantiate_s(second, val_first, f) {
                    lemma_update_gamma_keeps(g1, pattern_second, second_type, val_second, name, f);
                }
            }
        }
    }
}


/// The lazy update keeps the typing context well formed and changes the types of the
/// names that the pattern binds only.
pub proof fn lemma_update_gamma_lazy_keeps(
    gamma: Gamma,
    pattern: Pattern,
    type_val: Value,
    body: Expression,
    context: Telescope,
    name: Seq<char>,
    fuel: nat,
)
    requires
        branch_wf(gamma),
    ensures
        match update_gamma_lazy_s(gamma, pattern, type_val, body, context, fuel) {
            Some(Ok(g)) => branch_wf(g) && (!pattern_contains(pattern, name) ==> branch_get(g, name) == branch_get(gamma, name)),
            _ => true,
        },
{
    if fuel > 0 {
        let f = (fuel - 1) as nat;
        match pattern {
            Pattern::Pair(first, second) => {
                if let Value::Sigma(t, g) = type_val {
                    if let Some(v) = eval_s(body, context, f) {
                        lemma_update_gamma_by_pair_keeps(gamma, *first, *second, *t, g, v, name, f);
                    }
                }
            },
            Pattern::Var(x) => {
                lemma_branch_insert_wf(gamma, x, type_val);
                lemma_branch_insert_get(gamma, x, type_val, name);
            },
            Pattern::Unit => {},
        }
    }
}

/// Binding a pattern in a state keeps its typing context well formed.
pub proof fn lemma_tcs_update_keeps(tcs: TCS, pattern: Pattern, type_val: Value, body: Value, fuel: nat)
    requires
        branch_wf(tcs.gamma),
    ensures
        match tcs_update_s(tcs, pattern, type_val, body, fuel) {
            Some(Ok(t)) => branch_wf(t.gamma),
            _ => true,
        },
{
    lemma_update_gamma_keeps(tcs.gamma, pattern, type_val, body, Seq::empty(), fuel);
}


/// Updating the typing context does not depend on the fuel once it finishes.
pub proof fn lemma_update_gamma_fuel(gamma: Gamma, pattern: Pattern, type_val: Value, body: Value, n: nat, m: nat)
    requires
        n <= m,
        update_gamma_s(gamma, pattern, type_val, body, n) is Some,
    ensures
        update_gamma_s(gamma, pattern, type_val, body, m) == update_gamma_s(gamma, pattern, type_val, body, n),
    decreases n,
{
    if let Pattern::Pair(first, second) = pattern {
        if let Value::Sigma(t, g) = type_val {
            lemma_update_gamma_by_pair_fuel(gamma, *first, *second, *t, g, body, (n - 1) as nat, (m - 1) as nat);
        }
    }
}

/// The pair case of `lemma_update_gamma_fuel`.
pub proof fn lemma_update_gamma_by_pair_fuel(
    gamma: Gamma,
    pattern_first: Pattern,
    pattern_second: Pattern,
    first: Value,
    second: Closure,
    generated_val: Value,
    n: nat,
    m: nat,
)
    requires
        n <= m,
        update_gamma_by_pair_s(gamma, pattern_first, pattern_second, first, second, generated_val, n) is Some,
    ensures
        update_gamma_by_pair_s(gamma, pattern_first, pattern_second, first, second, generated_val, m)
            == update_gamma_by_pair_s(gamma, pattern_first, pattern_second, first, second, generated_val, n),
    decreases n,
{
    let f = (n - 1) as nat;
    let g = (m - 1) as nat;
    if let (Some(val_first), Some(val_second)) = (spec_first(generated_val), spec_second(generated_val)) {
        lemma_update_gamma_fuel(gamma, pattern_first, first, val_first, f, g);
        if let Some(Ok(g1)) = update_gamma_s(gamma, pattern_first, first, val_first, f) {
            lemma_instantiate_fuel(second, val_first, f, g);
            if let Some(second_type) = instantiate_s(second, val_first, f) {
                lemma_update_gamma_fuel(g1, pattern_second, second_type, val_second, f, g);
            }
        }
    }
}

/// The lazy update does not depend on the fuel once it finishes.
pub proof fn lemma_update_gamma_lazy_fuel(
    gamma: Gamma,
    pattern: Pattern,
    type_val: Value,
    body: Expression,
    context: Telescope,
    n: nat,
    m: nat,
)
    requires
        n <= m,
        update_gamma_lazy_s(gamma, pattern, type_val, body, context, n) is Some,
    ensures
        update_gamma_lazy_s(gamma, pattern, type_val, body, context, m) == update_gamma_lazy_s(
            gamma,
            pattern,
            type_val,
            body,
            context,
            n,
        ),
{
    let f = (n - 1) as nat;
    let g = (m - 1) as nat;
    if let Pattern::Pair(first, second) = pattern {
        if let Value::Sigma(t, c) = type_val {
            lemma_eval_fuel(body, context, f, g);
            let v = eval_s(body, context, f).unwrap();
            lemma_update_gamma_by_pair_fuel(gamma, *first, *second, *t, c, v, f, g);
        }
    }
}

/// Binding a pattern in a state does not depend on the fuel once it finishes.
pub proof fn lemma_tcs_update_fuel(tcs: TCS, pattern: Pattern, type_val: Value, body: Value, n: nat, m: nat)
    requires
        n <= m,
        tcs_update_s(tcs, pattern, type_val, body, n) is Some,
    ensures
        tcs_update_s(tcs, pattern, type_val, body, m) == tcs_update_s(tcs, pattern, type_val, body, n),
{
    lemma_update_gamma_fuel(tcs.gamma, pattern, type_val, body, n, m);
}


/// The lazy update is `upG` on the value of the body, and it evaluates the body only
/// for a pair pattern against a Sigma type; otherwise the body plays no part.
pub proof fn lemma_update_gamma_lazy_is_update(
    gamma: Gamma,
    pattern: Pattern,
    type_val: Value,
    body: Expression,
    context: Telescope,
    any_value: Value,
    fuel: nat,
)
    requires
        fuel > 0,
    ensures
        (pattern is Pair && type_val is Sigma) ==> update_gamma_lazy_s(gamma, pattern, type_val, body, context, fuel)
            == match eval_s(body, context, (fuel - 1) as nat) {
            Some(v) => update_gamma_s(gamma, pattern, type_val, v, fuel),
            None => None,
        },
        !(pattern is Pair && type_val is Sigma) ==> update_gamma_lazy_s(gamma, pattern, type_val, body, context, fuel)
            == update_gamma_s(gamma, pattern, type_val, any_value, fuel),
{
}

} // verus!

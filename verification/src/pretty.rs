use vstd::prelude::*;

use crate::ast::{
    Case, CaseTree, Closure, Declaration, Either, Expression, GenericCase, GenericNeutral, GenericTelescope, Neutral, Pattern, Typed, Value,
};
use crate::check::read_back::{NormalCase, NormalCaseTree, NormalExpression, NormalNeutral};
use crate::check::tcm::TCE;
use crate::list::List;
use crate::strings::push_str;

verus! {

/// The text of a decimal digit.
pub open spec fn digit_text(d: nat) -> Seq<char> {
    if d == 0 {
        "0"@
    } else if d == 1 {
        "1"@
    } else if d == 2 {
        "2"@
    } else if d == 3 {
        "3"@
    } else if d == 4 {
        "4"@
    } else if d == 5 {
        "5"@
    } else if d == 6 {
        "6"@
    } else if d == 7 {
        "7"@
    } else if d == 8 {
        "8"@
    } else {
        "9"@
    }
}

/// A natural number in decimal, without leading zeros.
pub open spec fn decimal(n: nat) -> Seq<char>
    decreases n,
{
    if n < 10 {
        digit_text(n)
    } else {
        decimal(n / 10) + digit_text(n % 10)
    }
}

/// How a pattern is printed: `(p1, p2)`, `_` or the name.
pub open spec fn pattern_text(p: Pattern) -> Seq<char>
    decreases p,
{
    match p {
        Pattern::Pair(first, second) => "("@ + pattern_text(*first) + ", "@ + pattern_text(*second) + ")"@,
        Pattern::Unit => "_"@,
        Pattern::Var(name) => name@,
    }
}

/// The clauses of a branch, each its name, a space and its text, separated by ` | `.
pub open spec fn branch_text(entries: Seq<(Seq<char>, Seq<char>)>) -> Seq<char>
    decreases entries.len(),
{
    if entries.len() == 0 {
        Seq::empty()
    } else if entries.len() == 1 {
        entries[0].0 + " "@ + entries[0].1
    } else {
        entries[0].0 + " "@ + entries[0].1 + " | "@ + branch_text(entries.drop_first())
    }
}

/// How a value is printed; closures and case trees are printed without their
/// context.
pub open spec fn value_text(v: Value) -> Seq<char>
    decreases v, 0nat,
{
    match v {
        Value::Lambda(closure) => "\u{03BB} "@ + closure_text_typed(closure, None),
        Value::Pair(first, second) => "("@ + value_text(*first) + ", "@ + value_text(*second) + ")"@,
        Value::Unit => "0"@,
        Value::One => "1"@,
        Value::Pi(input, output) => "\u{03A0} "@ + closure_text_typed(output, Some(value_text(*input))),
        Value::Type(level) => "Type"@ + decimal(level as nat),
        Value::Sigma(first, second) => "\u{03A3} "@ + closure_text_typed(second, Some(value_text(*first))),
        Value::Constructor(name, arguments) => name@ + " "@ + value_text(*arguments),
        Value::Split(branches) => "split {"@ + branch_text(case_entries(branches)) + "}"@,
        Value::Sum(constructors) => "Sum {"@ + branch_text(case_entries(constructors)) + "}"@,
        Value::Neutral(neutral) => "["@ + neutral_text(neutral) + "]"@,
    }
}

/// How a closure is printed on its own: an abstraction with the parameter type it
/// carries.
pub open spec fn closure_text(c: Closure) -> Seq<char>
    decreases c, 1nat,
{
    match c {
        Closure::Abstraction(_, parameter_type, _, _) => closure_text_typed(
            c,
            match parameter_type {
                Some(t) => Some(value_text(*t)),
                None => None,
            },
        ),
        _ => closure_text_typed(c, None),
    }
}

/// How a closure is printed after the text of its parameter type, if any:
/// `p: T. M`, `T. v` for a value (the value alone without a type), or `c. f` for a
/// choice.
pub open spec fn closure_text_typed(c: Closure, parameter_type: Option<Seq<char>>) -> Seq<char>
    decreases c, 0nat,
{
    match c {
        Closure::Abstraction(pattern, _, body, _) => pattern_text(pattern) + match parameter_type {
            Some(t) => ": "@ + t,
            None => Seq::empty(),
        } + ". "@ + expression_text(body),
        Closure::Value(value) => match parameter_type {
            Some(t) => t + ". "@ + value_text(*value),
            None => value_text(*value),
        },
        Closure::Choice(rest, name) => name@ + ". "@ + closure_text(*rest),
    }
}

/// How a case is printed: its value or its expression, without the context.
pub open spec fn case_text(c: Case) -> Seq<char>
    decreases c, 0nat,
{
    match c.expression {
        Either::Left(value) => value_text(value),
        Either::Right(expression) => expression_text(expression),
    }
}

/// The clauses of a case tree, in the order of their names.
pub open spec fn case_entries(tree: CaseTree) -> Seq<(Seq<char>, Seq<char>)>
    decreases tree, 0nat,
{
    match tree {
        List::Nil => Seq::empty(),
        List::Cons(entry, rest) => seq![(entry.0@, case_text(*entry.1))] + case_entries(*rest),
    }
}

/// How a neutral value is printed: `<i>`, `(k v)`, `(k.1)`, `(k.2)`, or
/// `app k {clauses}`.
pub open spec fn neutral_text(k: Neutral) -> Seq<char>
    decreases k, 0nat,
{
    match k {
        GenericNeutral::Generated(index) => "<"@ + decimal(index as nat) + ">"@,
        GenericNeutral::Application(function, argument) => "("@ + neutral_text(*function) + " "@ + value_text(*argument)
            + ")"@,
        GenericNeutral::First(pair) => "("@ + neutral_text(*pair) + ".1)"@,
        GenericNeutral::Second(pair) => "("@ + neutral_text(*pair) + ".2)"@,
        GenericNeutral::Split(clauses, argument) => "app "@ + neutral_text(*argument) + " {"@ + branch_text(
            case_entries(clauses),
        ) + "}"@,
    }
}

/// How an expression is printed.
pub open spec fn expression_text(e: Expression) -> Seq<char>
    decreases e, 0nat,
{
    match e {
        Expression::Var(name) => name@,
        Expression::First(pair) => "("@ + expression_text(*pair) + ".1)"@,
        Expression::Second(pair) => "("@ + expression_text(*pair) + ".2)"@,
        Expression::Application(function, argument) => "("@ + expression_text(*function) + " "@ + expression_text(
            *argument,
        ) + ")"@,
        Expression::Lambda(pattern, parameter_type, body) => "\u{03BB} "@ + pattern_text(pattern) + match parameter_type {
            Some(t) => ": "@ + value_text(*t.internal),
            None => Seq::empty(),
        } + ". "@ + expression_text(*body),
        Expression::Pair(first, second) => "("@ + expression_text(*first) + ", "@ + expression_text(*second) + ")"@,
        Expression::Unit => "0"@,
        Expression::One => "1"@,
        Expression::Pi(input, output) => "\u{03A0} "@ + typed_text(input) + ". "@ + expression_text(*output),
        Expression::Type(level) => "Type"@ + decimal(level as nat),
        Expression::Sigma(first, second) => "\u{03A3} "@ + typed_text(first) + ". "@ + expression_text(*second),
        Expression::Constructor(name, arguments) => name@ + " "@ + expression_text(*arguments),
        Expression::Split(clauses) => "split {"@ + branch_text(split_entries(clauses)) + "}"@,
        Expression::Sum(constructors) => "Sum {"@ + branch_text(expression_entries(constructors)) + "}"@,
        Expression::Declaration(declaration, rest) => declaration_text(*declaration) + ";\n"@ + expression_text(*rest)
            + "\n"@,
        Expression::Constant(pattern, body, rest) => "const "@ + pattern_text(pattern) + " = "@ + expression_text(*body)
            + ";\n"@ + expression_text(*rest),
        Expression::Void => Seq::empty(),
        Expression::Merge(left, right) => expression_text(*left) + " ++ "@ + expression_text(*right),
    }
}

/// The clauses of a branch of expressions, in the order of their names.
pub open spec fn expression_entries(branch: List<(String, Box<Expression>)>) -> Seq<(Seq<char>, Seq<char>)>
    decreases branch, 0nat,
{
    match branch {
        List::Nil => Seq::empty(),
        List::Cons(entry, rest) => seq![(entry.0@, expression_text(*entry.1))] + expression_entries(*rest),
    }
}

/// The clauses of a case-split: a lambda clause is printed as `p => M`.
pub open spec fn split_entries(branch: List<(String, Box<Expression>)>) -> Seq<(Seq<char>, Seq<char>)>
    decreases branch, 0nat,
{
    match branch {
        List::Nil => Seq::empty(),
        List::Cons(entry, rest) => seq![(entry.0@, split_clause_text(*entry.1))] + split_entries(*rest),
    }
}

/// A constructor value is printed with its name in front, then a blank, then its
/// argument: the text starts with the name, and two constructor values with the same
/// argument print alike only where their names are the same.
pub proof fn lemma_constructor_value_text(c: String, d: String, v: Value)
    ensures
        value_text(Value::Constructor(c, Box::new(v))).len() == c@.len() + 1 + value_text(v).len(),
        value_text(Value::Constructor(c, Box::new(v))).subrange(0, c@.len() as int) == c@,
        value_text(Value::Constructor(c, Box::new(v)))[c@.len() as int] == ' ',
        value_text(Value::Constructor(c, Box::new(v))).subrange(c@.len() as int + 1, value_text(Value::Constructor(c, Box::new(v))).len() as int)
            == value_text(v),
        value_text(Value::Constructor(c, Box::new(v))) == value_text(Value::Constructor(d, Box::new(v))) ==> c@ == d@,
{
    reveal_strlit(" ");
    let t = value_text(Value::Constructor(c, Box::new(v)));
    let u = value_text(Value::Constructor(d, Box::new(v)));
    assert(t == c@ + " "@ + value_text(v));
    assert(u == d@ + " "@ + value_text(v));
    assert(t.subrange(0, c@.len() as int) =~= c@);
    assert(t.subrange(c@.len() as int + 1, t.len() as int) =~= value_text(v));
    if t == u {
        assert(c@.len() == d@.len());
        assert(u.subrange(0, d@.len() as int) =~= d@);
    }
}

/// A pair value is printed between brackets with its first component first and its
/// second last; `0`, `1` and `Type_n` print as themselves.
pub proof fn lemma_pair_value_text(a: Value, b: Value, n: u32)
    ensures
        value_text(Value::Pair(Box::new(a), Box::new(b))).subrange(0, 1 + value_text(a).len() as int) == "("@
            + value_text(a),
        value_text(Value::Pair(Box::new(a), Box::new(b))).subrange(
            value_text(Value::Pair(Box::new(a), Box::new(b))).len() - value_text(b).len() - 1,
            value_text(Value::Pair(Box::new(a), Box::new(b))).len() as int,
        ) == value_text(b) + ")"@,
        value_text(Value::Unit) == "0"@,
        value_text(Value::One) == "1"@,
        value_text(Value::Type(n)) == "Type"@ + decimal(n as nat),
{
    reveal_strlit("(");
    reveal_strlit(")");
    reveal_strlit(", ");
    let t = value_text(Value::Pair(Box::new(a), Box::new(b)));
    assert(t == "("@ + value_text(a) + ", "@ + value_text(b) + ")"@);
    assert(t.subrange(0, 1 + value_text(a).len() as int) =~= "("@ + value_text(a));
    assert(t.subrange(t.len() - value_text(b).len() - 1, t.len() as int) =~= value_text(b) + ")"@);
}

/// The entries of a sum or a split are printed in the order of the branch's names.
pub proof fn lemma_entries_names(b: List<(String, Box<Expression>)>)
    ensures
        expression_entries(b).len() == crate::list::branch_keys(b).seq().len(),
        split_entries(b).len() == crate::list::branch_keys(b).seq().len(),
        forall|i: int|
            0 <= i < expression_entries(b).len() ==> #[trigger] expression_entries(b)[i].0 == crate::list::branch_keys(
                b,
            ).seq()[i]@ && split_entries(b)[i].0 == crate::list::branch_keys(b).seq()[i]@,
    decreases b,
{
    if let List::Cons(entry, rest) = b {
        lemma_entries_names(*rest);
        assert forall|i: int| 0 <= i < expression_entries(b).len() implies #[trigger] expression_entries(b)[i].0
            == crate::list::branch_keys(b).seq()[i]@ && split_entries(b)[i].0 == crate::list::branch_keys(b).seq()[i]@ by {
            if i > 0 {
                assert(expression_entries(b)[i] == expression_entries(*rest)[i - 1]);
                assert(split_entries(b)[i] == split_entries(*rest)[i - 1]);
                assert(crate::list::branch_keys(b).seq()[i] == crate::list::branch_keys(*rest).seq()[i - 1]);
            }
        }
    }
}

/// A sum or a split is printed entry by entry in the order the branch keeps them: for
/// a branch in order (as the parser and evaluation build them), the names come out in
/// ascending order.
pub proof fn lemma_printed_names_sorted(b: List<(String, Box<Expression>)>)
    requires
        crate::list::branch_wf(b),
    ensures
        forall|i: int, j: int|
            0 <= i < j < expression_entries(b).len() ==> crate::strings::str_less(
                #[trigger] expression_entries(b)[i].0,
                #[trigger] expression_entries(b)[j].0,
            ),
        forall|i: int, j: int|
            0 <= i < j < split_entries(b).len() ==> crate::strings::str_less(
                #[trigger] split_entries(b)[i].0,
                #[trigger] split_entries(b)[j].0,
            ),
{
    lemma_entries_names(b);
    crate::list::lemma_branch_keys_sorted(b);
    assert forall|i: int, j: int| 0 <= i < j < expression_entries(b).len() implies crate::strings::str_less(
        #[trigger] expression_entries(b)[i].0,
        #[trigger] expression_entries(b)[j].0,
    ) by {
        assert(crate::strings::str_less(crate::list::branch_keys(b).seq()[i]@, crate::list::branch_keys(b).seq()[j]@));
    }
    assert forall|i: int, j: int| 0 <= i < j < split_entries(b).len() implies crate::strings::str_less(
        #[trigger] split_entries(b)[i].0,
        #[trigger] split_entries(b)[j].0,
    ) by {
        assert(expression_entries(b)[i].0 == split_entries(b)[i].0);
        assert(expression_entries(b)[j].0 == split_entries(b)[j].0);
        assert(crate::strings::str_less(crate::list::branch_keys(b).seq()[i]@, crate::list::branch_keys(b).seq()[j]@));
    }
}

/// A clause of a case-split: a lambda clause is printed as `p => M`.
pub open spec fn split_clause_text(clause: Expression) -> Seq<char>
    decreases clause, 1nat,
{
    match clause {
        Expression::Lambda(pattern, _, body) => pattern_text(pattern) + " => "@ + expression_text(*body),
        _ => expression_text(clause),
    }
}

/// How a typed pattern is printed: `p: A`.
pub open spec fn typed_text(t: Typed) -> Seq<char>
    decreases t, 0nat,
{
    pattern_text(t.pattern) + ": "@ + expression_text(*t.expression)
}

/// The prefix parameters of a declaration, each in parentheses.
pub open spec fn prefix_text(parameters: List<Typed>) -> Seq<char>
    decreases parameters, 0nat,
{
    match parameters {
        List::Nil => Seq::empty(),
        List::Cons(typed, rest) => "("@ + typed_text(typed) + ")"@ + prefix_text(*rest),
    }
}

/// How a declaration is printed: `let p(x: A): T = M` or `rec p(x: A): T = M`.
pub open spec fn declaration_text(d: Declaration) -> Seq<char>
    decreases d, 0nat,
{
    (if d.is_recursive {
        "rec"@
    } else {
        "let"@
    }) + " "@ + pattern_text(d.pattern) + prefix_text(d.prefix_parameters) + ": "@ + expression_text(d.signature) + " = "@
        + expression_text(d.body)
}


/// The characters of an optional text.
pub open spec fn optional_text(t: Option<&str>) -> Option<Seq<char>> {
    match t {
        Some(s) => Some(s@),
        None => None,
    }
}

/// The clauses of a branch, each a name and the text of its clause, by their
/// characters.
pub open spec fn pairs_view(entries: List<(String, String)>) -> Seq<(Seq<char>, Seq<char>)>
    decreases entries,
{
    match entries {
        List::Nil => Seq::empty(),
        List::Cons(entry, rest) => seq![(entry.0@, entry.1@)] + pairs_view(*rest),
    }
}

fn write_digit(out: &mut String, d: u32)
    requires
        d < 10,
    ensures
        final(out)@ == old(out)@ + digit_text(d as nat),
{
    if d == 0 {
        push_str(out, "0");
    } else if d == 1 {
        push_str(out, "1");
    } else if d == 2 {
        push_str(out, "2");
    } else if d == 3 {
        push_str(out, "3");
    } else if d == 4 {
        push_str(out, "4");
    } else if d == 5 {
        push_str(out, "5");
    } else if d == 6 {
        push_str(out, "6");
    } else if d == 7 {
        push_str(out, "7");
    } else if d == 8 {
        push_str(out, "8");
    } else {
        push_str(out, "9");
    }
}

/// Writes `n` in decimal.
pub fn write_decimal(out: &mut String, n: u32)
    ensures
        final(out)@ == old(out)@ + decimal(n as nat),
    decreases n,
{
    if n >= 10 {
        write_decimal(out, n / 10);
    }
    write_digit(out, n % 10);
}

/// Writes a pattern.
pub fn write_pattern(out: &mut String, p: &Pattern)
    ensures
        final(out)@ == old(out)@ + pattern_text(*p),
    decreases p,
{
    match p {
        Pattern::Pair(first, second) => {
            push_str(out, "(");
            write_pattern(out, first);
            push_str(out, ", ");
            write_pattern(out, second);
            push_str(out, ")");
        },
        Pattern::Unit => push_str(out, "_"),
        Pattern::Var(name) => push_str(out, name.as_str()),
    }
}

/// Writes the clauses of a branch: each name, a space and the text of its clause,
/// separated by ` | `.
pub fn fmt_branch(out: &mut String, entries: &List<(String, String)>)
    ensures
        final(out)@ == old(out)@ + branch_text(pairs_view(*entries)),
    decreases entries,
{
    if let List::Cons(entry, rest) = entries {
        push_str(out, entry.0.as_str());
        push_str(out, " ");
        push_str(out, entry.1.as_str());
        let ghost tail = pairs_view(**rest);
        proof {
            assert(pairs_view(*entries).drop_first() =~= tail);
        }
        if let List::Cons(_, _) = &**rest {
            push_str(out, " | ");
            fmt_branch(out, rest);
        } else {
            proof {
                assert(pairs_view(*entries).len() == 1);
            }
        }
    }
}


/// Writes a value.
pub fn write_value(out: &mut String, v: &Value)
    ensures
        final(out)@ == old(out)@ + value_text(*v),
    decreases v, 0nat,
{
    match v {
        Value::Lambda(closure) => {
            push_str(out, "\u{03BB} ");
            write_closure_typed(out, closure, None);
        },
        Value::Pair(first, second) => {
            push_str(out, "(");
            write_value(out, first);
            push_str(out, ", ");
            write_value(out, second);
            push_str(out, ")");
        },
        Value::Unit => push_str(out, "0"),
        Value::One => push_str(out, "1"),
        Value::Pi(input, output) => {
            let mut t = String::new();
            write_value(&mut t, input);
            proof {
                assert(t@ =~= value_text(**input));
            }
            push_str(out, "\u{03A0} ");
            write_closure_typed(out, output, Some(t.as_str()));
        },
        Value::Type(level) => {
            push_str(out, "Type");
            write_decimal(out, *level);
        },
        Value::Sigma(first, second) => {
            let mut t = String::new();
            write_value(&mut t, first);
            proof {
                assert(t@ =~= value_text(**first));
            }
            push_str(out, "\u{03A3} ");
            write_closure_typed(out, second, Some(t.as_str()));
        },
        Value::Constructor(name, arguments) => {
            push_str(out, name.as_str());
            push_str(out, " ");
            write_value(out, arguments);
        },
        Value::Split(branches) => {
            push_str(out, "split {");
            let entries = case_entries_exec(branches);
            fmt_branch(out, &entries);
            push_str(out, "}");
        },
        Value::Sum(constructors) => {
            push_str(out, "Sum {");
            let entries = case_entries_exec(constructors);
            fmt_branch(out, &entries);
            push_str(out, "}");
        },
        Value::Neutral(neutral) => {
            push_str(out, "[");
            write_neutral(out, neutral);
            push_str(out, "]");
        },
    }
}

fn write_closure(out: &mut String, c: &Closure)
    ensures
        final(out)@ == old(out)@ + closure_text(*c),
    decreases c, 1nat,
{
    match c {
        Closure::Abstraction(_, Some(t), _, _) => {
            let mut text = String::new();
            write_value(&mut text, t);
            proof {
                assert(text@ =~= value_text(**t));
            }
            write_closure_typed(out, c, Some(text.as_str()));
        },
        _ => write_closure_typed(out, c, None),
    }
}

fn write_closure_typed(out: &mut String, c: &Closure, parameter_type: Option<&str>)
    ensures
        final(out)@ == old(out)@ + closure_text_typed(*c, optional_text(parameter_type)),
    decreases c, 0nat,
{
    match c {
        Closure::Abstraction(pattern, _, body, _) => {
            write_pattern(out, pattern);
            match parameter_type {
                Some(t) => {
                    push_str(out, ": ");
                    push_str(out, t);
                },
                None => {},
            }
            push_str(out, ". ");
            write_expression(out, body);
        },
        Closure::Value(value) => {
            if let Some(t) = parameter_type {
                push_str(out, t);
                push_str(out, ". ");
            }
            write_value(out, value);
        },
        Closure::Choice(rest, name) => {
            push_str(out, name.as_str());
            push_str(out, ". ");
            write_closure(out, rest);
        },
    }
}

fn write_case(out: &mut String, c: &Case)
    ensures
        final(out)@ == old(out)@ + case_text(*c),
    decreases c, 0nat,
{
    match &c.expression {
        Either::Left(value) => write_value(out, value),
        Either::Right(expression) => write_expression(out, expression),
    }
}

fn case_entries_exec(tree: &CaseTree) -> (r: List<(String, String)>)
    ensures
        pairs_view(r) == case_entries(*tree),
    decreases tree, 0nat,
{
    match tree {
        List::Nil => List::Nil,
        List::Cons(entry, rest) => {
            let mut text = String::new();
            write_case(&mut text, &entry.1);
            proof {
                assert(text@ =~= case_text(*entry.1));
            }
            let tail = case_entries_exec(rest);
            List::Cons((entry.0.clone(), text), Box::new(tail))
        },
    }
}

fn write_neutral(out: &mut String, k: &Neutral)
    ensures
        final(out)@ == old(out)@ + neutral_text(*k),
    decreases k, 0nat,
{
    match k {
        GenericNeutral::Generated(index) => {
            push_str(out, "<");
            write_decimal(out, *index);
            push_str(out, ">");
        },
        GenericNeutral::Application(function, argument) => {
            push_str(out, "(");
            write_neutral(out, function);
            push_str(out, " ");
            write_value(out, argument);
            push_str(out, ")");
        },
        GenericNeutral::First(pair) => {
            push_str(out, "(");
            write_neutral(out, pair);
            push_str(out, ".1)");
        },
        GenericNeutral::Second(pair) => {
            push_str(out, "(");
            write_neutral(out, pair);
            push_str(out, ".2)");
        },
        GenericNeutral::Split(clauses, argument) => {
            push_str(out, "app ");
            write_neutral(out, argument);
            push_str(out, " {");
            let entries = case_entries_exec(clauses);
            fmt_branch(out, &entries);
            push_str(out, "}");
        },
    }
}

/// Writes an expression.
pub fn write_expression(out: &mut String, e: &Expression)
    ensures
        final(out)@ == old(out)@ + expression_text(*e),
    decreases e, 0nat,
{
    match e {
        Expression::Var(name) => push_str(out, name.as_str()),
        Expression::First(pair) => {
            push_str(out, "(");
            write_expression(out, pair);
            push_str(out, ".1)");
        },
        Expression::Second(pair) => {
            push_str(out, "(");
            write_expression(out, pair);
            push_str(out, ".2)");
        },
        Expression::Application(function, argument) => {
            push_str(out, "(");
            write_expression(out, function);
            push_str(out, " ");
            write_expression(out, argument);
            push_str(out, ")");
        },
        Expression::Lambda(pattern, parameter_type, body) => {
            push_str(out, "\u{03BB} ");
            write_pattern(out, pattern);
            match parameter_type {
                Some(t) => {
                    push_str(out, ": ");
                    write_value(out, &t.internal);
                },
                None => {},
            }
            push_str(out, ". ");
            write_expression(out, body);
        },
        Expression::Pair(first, second) => {
            push_str(out, "(");
            write_expression(out, first);
            push_str(out, ", ");
            write_expression(out, second);
            push_str(out, ")");
        },
        Expression::Unit => push_str(out, "0"),
        Expression::One => push_str(out, "1"),
        Expression::Pi(input, output) => {
            push_str(out, "\u{03A0} ");
            write_typed(out, input);
            push_str(out, ". ");
            write_expression(out, output);
        },
        Expression::Type(level) => {
            push_str(out, "Type");
            write_decimal(out, *level);
        },
        Expression::Sigma(first, second) => {
            push_str(out, "\u{03A3} ");
            write_typed(out, first);
            push_str(out, ". ");
            write_expression(out, second);
        },
        Expression::Constructor(name, arguments) => {
            push_str(out, name.as_str());
            push_str(out, " ");
            write_expression(out, arguments);
        },
        Expression::Split(clauses) => {
            push_str(out, "split {");
            let entries = split_entries_exec(clauses);
            fmt_branch(out, &entries);
            push_str(out, "}");
        },
        Expression::Sum(constructors) => {
            push_str(out, "Sum {");
            let entries = expression_entries_exec(constructors);
            fmt_branch(out, &entries);
            push_str(out, "}");
        },
        Expression::Declaration(declaration, rest) => {
            write_declaration(out, declaration);
            push_str(out, ";\n");
            write_expression(out, rest);
            push_str(out, "\n");
        },
        Expression::Constant(pattern, body, rest) => {
            push_str(out, "const ");
            write_pattern(out, pattern);
            push_str(out, " = ");
            write_expression(out, body);
            push_str(out, ";\n");
            write_expression(out, rest);
        },
        Expression::Void => {},
        Expression::Merge(left, right) => {
            write_expression(out, left);
            push_str(out, " ++ ");
            write_expression(out, right);
        },
    }
}

fn expression_entries_exec(branch: &List<(String, Box<Expression>)>) -> (r: List<(String, String)>)
    ensures
        pairs_view(r) == expression_entries(*branch),
    decreases branch, 0nat,
{
    match branch {
        List::Nil => List::Nil,
        List::Cons(entry, rest) => {
            let mut text = String::new();
            write_expression(&mut text, &entry.1);
            proof {
                assert(text@ =~= expression_text(*entry.1));
            }
            let tail = expression_entries_exec(rest);
            List::Cons((entry.0.clone(), text), Box::new(tail))
        },
    }
}

fn split_entries_exec(branch: &List<(String, Box<Expression>)>) -> (r: List<(String, String)>)
    ensures
        pairs_view(r) == split_entries(*branch),
    decreases branch, 0nat,
{
    match branch {
        List::Nil => List::Nil,
        List::Cons(entry, rest) => {
            let mut text = String::new();
            match &*entry.1 {
                Expression::Lambda(pattern, _, body) => {
                    write_pattern(&mut text, pattern);
                    push_str(&mut text, " => ");
                    write_expression(&mut text, body);
                },
                clause => write_expression(&mut text, clause),
            }
            proof {
                assert(text@ =~= split_clause_text(*entry.1));
            }
            let tail = split_entries_exec(rest);
            List::Cons((entry.0.clone(), text), Box::new(tail))
        },
    }
}

fn write_typed(out: &mut String, t: &Typed)
    ensures
        final(out)@ == old(out)@ + typed_text(*t),
    decreases t, 0nat,
{
    write_pattern(out, &t.pattern);
    push_str(out, ": ");
    write_expression(out, &t.expression);
}

fn write_prefix(out: &mut String, parameters: &List<Typed>)
    ensures
        final(out)@ == old(out)@ + prefix_text(*parameters),
    decreases parameters, 0nat,
{
    if let List::Cons(typed, rest) = parameters {
        push_str(out, "(");
        write_typed(out, typed);
        push_str(out, ")");
        write_prefix(out, rest);
    }
}

fn write_declaration(out: &mut String, d: &Declaration)
    ensures
        final(out)@ == old(out)@ + declaration_text(*d),
    decreases d, 0nat,
{
    if d.is_recursive {
        push_str(out, "rec");
    } else {
        push_str(out, "let");
    }
    push_str(out, " ");
    write_pattern(out, &d.pattern);
    write_prefix(out, &d.prefix_parameters);
    push_str(out, ": ");
    write_expression(out, &d.signature);
    push_str(out, " = ");
    write_expression(out, &d.body);
}


/// How a normal form is printed; generated variables are printed as `<i>`.
pub open spec fn normal_text(n: NormalExpression) -> Seq<char>
    decreases n, 0nat,
{
    match n {
        NormalExpression::Lambda(index, body) => "\u{03BB} <"@ + decimal(index as nat) + "> "@ + normal_text(*body),
        NormalExpression::Pair(first, second) => "("@ + normal_text(*first) + ", "@ + normal_text(*second) + ")"@,
        NormalExpression::Unit => "0"@,
        NormalExpression::One => "1"@,
        NormalExpression::Pi(input, index, output) => "\u{03A0} <"@ + decimal(index as nat) + "> "@ + normal_text(*input)
            + ". "@ + normal_text(*output),
        NormalExpression::Type(level) => "Type"@ + decimal(level as nat),
        NormalExpression::Sigma(first, index, second) => "\u{03A3} <"@ + decimal(index as nat) + "> "@ + normal_text(*first)
            + ". "@ + normal_text(*second),
        NormalExpression::Constructor(name, arguments) => name@ + " "@ + normal_text(*arguments),
        NormalExpression::Split(clauses) => "split {"@ + branch_text(normal_entries(clauses)) + "}"@,
        NormalExpression::Sum(constructors) => "Sum {"@ + branch_text(normal_entries(constructors)) + "}"@,
        NormalExpression::Neutral(neutral) => "["@ + normal_neutral_text(neutral) + "]"@,
    }
}

/// How a normal case is printed: its normal form or its expression.
pub open spec fn normal_case_text(c: NormalCase) -> Seq<char>
    decreases c, 0nat,
{
    match c.expression {
        Either::Left(n) => normal_text(n),
        Either::Right(e) => expression_text(e),
    }
}

/// The clauses of a normal case tree, in the order of their names.
pub open spec fn normal_entries(tree: NormalCaseTree) -> Seq<(Seq<char>, Seq<char>)>
    decreases tree, 0nat,
{
    match tree {
        List::Nil => Seq::empty(),
        List::Cons(entry, rest) => seq![(entry.0@, normal_case_text(*entry.1))] + normal_entries(*rest),
    }
}

/// How a normal neutral value is printed.
pub open spec fn normal_neutral_text(k: NormalNeutral) -> Seq<char>
    decreases k, 0nat,
{
    match k {
        GenericNeutral::Generated(index) => "<"@ + decimal(index as nat) + ">"@,
        GenericNeutral::Application(function, argument) => "("@ + normal_neutral_text(*function) + " "@ + normal_text(
            *argument,
        ) + ")"@,
        GenericNeutral::First(pair) => "("@ + normal_neutral_text(*pair) + ".1)"@,
        GenericNeutral::Second(pair) => "("@ + normal_neutral_text(*pair) + ".2)"@,
        GenericNeutral::Split(clauses, argument) => "app "@ + normal_neutral_text(*argument) + " {"@ + branch_text(
            normal_entries(clauses),
        ) + "}"@,
    }
}

/// How an evaluation context is printed: the latest binding first, each followed by
/// `;` and a line break.
pub open spec fn telescope_text(t: GenericTelescope<Value>) -> Seq<char>
    decreases t,
{
    match t {
        GenericTelescope::Nil => Seq::empty(),
        GenericTelescope::UpDec(previous, declaration) => declaration_text(declaration) + ";\n"@ + telescope_text(
            *previous,
        ),
        GenericTelescope::UpVar(previous, pattern, value) => "var "@ + pattern_text(pattern) + ": "@ + value_text(value)
            + ";\n"@ + telescope_text(*previous),
    }
}

/// Names separated by ` | `.
pub open spec fn names_text(names: List<String>) -> Seq<char>
    decreases names,
{
    match names {
        List::Nil => Seq::empty(),
        List::Cons(name, rest) => name@ + match *rest {
            List::Nil => Seq::empty(),
            _ => " | "@ + names_text(*rest),
        },
    }
}

/// The message of a type mismatch.
pub open spec fn mismatch_text(inferred: Seq<char>, expected: Seq<char>) -> Seq<char> {
    "Type mismatch: expected `"@ + expected + "`, got (inferred): `"@ + inferred + "`."@
}

/// The message of a type-checking error.
pub open spec fn tce_text(e: TCE) -> Seq<char>
    decreases e,
{
    match e {
        TCE::Textual(s) => s@,
        TCE::UpdateGammaFailed(pattern) => "Cannot update Gamma by: `"@ + pattern_text(pattern) + "`."@,
        TCE::CannotInfer(expression) => "Cannot infer type of: `"@ + expression_text(expression) + "`."@,
        TCE::UnresolvedName(name) => "Unresolved reference: `"@ + name@ + "`."@,
        TCE::InvalidConstructor(name) => "Invalid constructor: `"@ + name@ + "`."@,
        TCE::WantSigmaBut(value) => "Expected \u{03A3} type, instead got: `"@ + value_text(value) + "`."@,
        TCE::WantSumBut(either) => "Expected Sum type, instead got: `"@ + match either {
            Either::Left(value) => value_text(value),
            Either::Right(expression) => expression_text(expression),
        } + "`."@,
        TCE::DuplicateBranch(branch) => "Found duplicated branch: `"@ + branch@ + "`."@,
        TCE::Unreachable(file, line, column) => "An internal error has occurred. Please report this as a bug.\nLocation of the error: "@
            + file@ + ", line "@ + decimal(line as nat) + ", column "@ + decimal(column as nat) + "."@,
        TCE::WantPiBut(value, argument) => "Expected \u{03A0} type, instead got: `"@ + value_text(value)
            + "`\nWhen checking the application whose argument is `"@ + expression_text(argument) + "`."@,
        TCE::NotTypeType(value) => "Expected a type expression, instead got: `"@ + value_text(value) + "`."@,
        TCE::LevelMismatch(actual, expected) => "Expected a type expression at level `"@ + decimal(expected as nat)
            + "`, instead got one at level: `"@ + decimal(actual as nat) + "`."@,
        TCE::MissingCase(name) => "Missing case-split: `"@ + name@ + "`."@,
        TCE::UnexpectedCases(names) => "Unexpected case-split: `"@ + names_text(names) + "`."@,
        TCE::ReadBackTypeMismatch(inferred, expected) => mismatch_text(normal_text(inferred), normal_text(expected)),
        TCE::TypeMismatch(inferred, expected) => mismatch_text(value_text(inferred), value_text(expected)),
        TCE::Located(wrapped, pattern) => tce_text(*wrapped) + "\nWhen checking the declaration of `"@ + pattern_text(
            pattern,
        ) + "`."@,
    }
}


/// Writes a normal form.
pub fn write_normal(out: &mut String, n: &NormalExpression)
    ensures
        final(out)@ == old(out)@ + normal_text(*n),
    decreases n, 0nat,
{
    match n {
        NormalExpression::Lambda(index, body) => {
            push_str(out, "\u{03BB} <");
            write_decimal(out, *index);
            push_str(out, "> ");
            write_normal(out, body);
        },
        NormalExpression::Pair(first, second) => {
            push_str(out, "(");
            write_normal(out, first);
            push_str(out, ", ");
            write_normal(out, second);
            push_str(out, ")");
        },
        NormalExpression::Unit => push_str(out, "0"),
        NormalExpression::One => push_str(out, "1"),
        NormalExpression::Pi(input, index, output) => {
            push_str(out, "\u{03A0} <");
            write_decimal(out, *index);
            push_str(out, "> ");
            write_normal(out, input);
            push_str(out, ". ");
            write_normal(out, output);
        },
        NormalExpression::Type(level) => {
            push_str(out, "Type");
            write_decimal(out, *level);
        },
        NormalExpression::Sigma(first, index, second) => {
            push_str(out, "\u{03A3} <");
            write_decimal(out, *index);
            push_str(out, "> ");
            write_normal(out, first);
            push_str(out, ". ");
            write_normal(out, second);
        },
        NormalExpression::Constructor(name, arguments) => {
            push_str(out, name.as_str());
            push_str(out, " ");
            write_normal(out, arguments);
        },
        NormalExpression::Split(clauses) => {
            push_str(out, "split {");
            let entries = normal_entries_exec(clauses);
            fmt_branch(out, &entries);
            push_str(out, "}");
        },
        NormalExpression::Sum(constructors) => {
            push_str(out, "Sum {");
            let entries = normal_entries_exec(constructors);
            fmt_branch(out, &entries);
            push_str(out, "}");
        },
        NormalExpression::Neutral(neutral) => {
            push_str(out, "[");
            write_normal_neutral(out, neutral);
            push_str(out, "]");
        },
    }
}

fn write_normal_case(out: &mut String, c: &NormalCase)
    ensures
        final(out)@ == old(out)@ + normal_case_text(*c),
    decreases c, 0nat,
{
    match &c.expression {
        Either::Left(n) => write_normal(out, n),
        Either::Right(e) => write_expression(out, e),
    }
}

fn normal_entries_exec(tree: &NormalCaseTree) -> (r: List<(String, String)>)
    ensures
        pairs_view(r) == normal_entries(*tree),
    decreases tree, 0nat,
{
    match tree {
        List::Nil => List::Nil,
        List::Cons(entry, rest) => {
            let mut text = String::new();
            write_normal_case(&mut text, &entry.1);
            proof {
                assert(text@ =~= normal_case_text(*entry.1));
            }
            let tail = normal_entries_exec(rest);
            List::Cons((entry.0.clone(), text), Box::new(tail))
        },
    }
}

fn write_normal_neutral(out: &mut String, k: &NormalNeutral)
    ensures
        final(out)@ == old(out)@ + normal_neutral_text(*k),
    decreases k, 0nat,
{
    match k {
        GenericNeutral::Generated(index) => {
            push_str(out, "<");
            write_decimal(out, *index);
            push_str(out, ">");
        },
        GenericNeutral::Application(function, argument) => {
            push_str(out, "(");
            write_normal_neutral(out, function);
            push_str(out, " ");
            write_normal(out, argument);
            push_str(out, ")");
        },
        GenericNeutral::First(pair) => {
            push_str(out, "(");
            write_normal_neutral(out, pair);
            push_str(out, ".1)");
        },
        GenericNeutral::Second(pair) => {
            push_str(out, "(");
            write_normal_neutral(out, pair);
            push_str(out, ".2)");
        },
        GenericNeutral::Split(clauses, argument) => {
            push_str(out, "app ");
            write_normal_neutral(out, argument);
            push_str(out, " {");
            let entries = normal_entries_exec(clauses);
            fmt_branch(out, &entries);
            push_str(out, "}");
        },
    }
}

fn write_telescope(out: &mut String, t: &GenericTelescope<Value>)
    ensures
        final(out)@ == old(out)@ + telescope_text(*t),
    decreases t,
{
    match t {
        GenericTelescope::Nil => {},
        GenericTelescope::UpDec(previous, declaration) => {
            write_declaration(out, declaration);
            push_str(out, ";\n");
            write_telescope(out, previous);
        },
        GenericTelescope::UpVar(previous, pattern, value) => {
            push_str(out, "var ");
            write_pattern(out, pattern);
            push_str(out, ": ");
            write_value(out, value);
            push_str(out, ";\n");
            write_telescope(out, previous);
        },
    }
}

fn write_names(out: &mut String, names: &List<String>)
    ensures
        final(out)@ == old(out)@ + names_text(*names),
    decreases names,
{
    if let List::Cons(name, rest) = names {
        push_str(out, name.as_str());
        if let List::Cons(_, _) = &**rest {
            push_str(out, " | ");
            write_names(out, rest);
        }
    }
}

/// Writes the message of a type mismatch between two printed types.
pub fn mismatch(out: &mut String, inferred: &str, expected: &str)
    ensures
        final(out)@ == old(out)@ + mismatch_text(inferred@, expected@),
{
    push_str(out, "Type mismatch: expected `");
    push_str(out, expected);
    push_str(out, "`, got (inferred): `");
    push_str(out, inferred);
    push_str(out, "`.");
}

fn write_tce(out: &mut String, e: &TCE)
    ensures
        final(out)@ == old(out)@ + tce_text(*e),
    decreases e,
{
    match e {
        TCE::Textual(s) => push_str(out, s.as_str()),
        TCE::UpdateGammaFailed(pattern) => {
            push_str(out, "Cannot update Gamma by: `");
            write_pattern(out, pattern);
            push_str(out, "`.");
        },
        TCE::CannotInfer(expression) => {
            push_str(out, "Cannot infer type of: `");
            write_expression(out, expression);
            push_str(out, "`.");
        },
        TCE::UnresolvedName(name) => {
            push_str(out, "Unresolved reference: `");
            push_str(out, name.as_str());
            push_str(out, "`.");
        },
        TCE::InvalidConstructor(name) => {
            push_str(out, "Invalid constructor: `");
            push_str(out, name.as_str());
            push_str(out, "`.");
        },
        TCE::WantSigmaBut(value) => {
            push_str(out, "Expected \u{03A3} type, instead got: `");
            write_value(out, value);
            push_str(out, "`.");
        },
        TCE::WantSumBut(either) => {
            push_str(out, "Expected Sum type, instead got: `");
            match either {
                Either::Left(value) => write_value(out, value),
                Either::Right(expression) => write_expression(out, expression),
            }
            push_str(out, "`.");
        },
        TCE::DuplicateBranch(branch) => {
            push_str(out, "Found duplicated branch: `");
            push_str(out, branch.as_str());
            push_str(out, "`.");
        },
        TCE::Unreachable(file, line, column) => {
            push_str(out, "An internal error has occurred. Please report this as a bug.\nLocation of the error: ");
            push_str(out, file);
            push_str(out, ", line ");
            write_decimal(out, *line);
            push_str(out, ", column ");
            write_decimal(out, *column);
            push_str(out, ".");
        },
        TCE::WantPiBut(value, argument) => {
            push_str(out, "Expected \u{03A0} type, instead got: `");
            write_value(out, value);
            push_str(out, "`\nWhen checking the application whose argument is `");
            write_expression(out, argument);
            push_str(out, "`.");
        },
        TCE::NotTypeType(value) => {
            push_str(out, "Expected a type expression, instead got: `");
            write_value(out, value);
            push_str(out, "`.");
        },
        TCE::LevelMismatch(actual, expected) => {
            push_str(out, "Expected a type expression at level `");
            write_decimal(out, *expected);
            push_str(out, "`, instead got one at level: `");
            write_decimal(out, *actual);
            push_str(out, "`.");
        },
        TCE::MissingCase(name) => {
            push_str(out, "Missing case-split: `");
            push_str(out, name.as_str());
            push_str(out, "`.");
        },
        TCE::UnexpectedCases(names) => {
            push_str(out, "Unexpected case-split: `");
            write_names(out, names);
            push_str(out, "`.");
        },
        TCE::ReadBackTypeMismatch(inferred, expected) => {
            let i = inferred.to_string();
            let x = expected.to_string();
            mismatch(out, i.as_str(), x.as_str());
        },
        TCE::TypeMismatch(inferred, expected) => {
            let i = inferred.to_string();
            let x = expected.to_string();
            mismatch(out, i.as_str(), x.as_str());
        },
        TCE::Located(wrapped, pattern) => {
            write_tce(out, wrapped);
            push_str(out, "\nWhen checking the declaration of `");
            write_pattern(out, pattern);
            push_str(out, "`.");
        },
    }
}

impl Value {
    /// The printed value.
    pub fn to_string(&self) -> (r: String)
        ensures
            r@ == value_text(*self),
    {
        let mut out = String::new();
        write_value(&mut out, self);
        out
    }
}

impl Expression {
    /// The printed expression.
    pub fn to_string(&self) -> (r: String)
        ensures
            r@ == expression_text(*self),
    {
        let mut out = String::new();
        write_expression(&mut out, self);
        out
    }
}

impl Pattern {
    /// The printed pattern.
    pub fn to_string(&self) -> (r: String)
        ensures
            r@ == pattern_text(*self),
    {
        let mut out = String::new();
        write_pattern(&mut out, self);
        out
    }
}

impl Typed {
    /// The printed typed pattern.
    pub fn to_string(&self) -> (r: String)
        ensures
            r@ == typed_text(*self),
    {
        let mut out = String::new();
        write_typed(&mut out, self);
        out
    }
}

impl Declaration {
    /// The printed declaration.
    pub fn to_string(&self) -> (r: String)
        ensures
            r@ == declaration_text(*self),
    {
        let mut out = String::new();
        write_declaration(&mut out, self);
        out
    }
}

impl Closure {
    /// The printed closure (without its context).
    pub fn to_string(&self) -> (r: String)
        ensures
            r@ == closure_text(*self),
    {
        let mut out = String::new();
        write_closure(&mut out, self);
        out
    }

    /// Writes the closure after the parameter type `t`, if any.
    pub fn fmt_with_type(&self, out: &mut String, t: Option<&Value>)
        ensures
            final(out)@ == old(out)@ + closure_text_typed(
                *self,
                match t {
                    Some(v) => Some(value_text(*v)),
                    None => None,
                },
            ),
    {
        match t {
            Some(v) => {
                let text = v.to_string();
                write_closure_typed(out, self, Some(text.as_str()));
            },
            None => write_closure_typed(out, self, None),
        }
    }
}

impl GenericNeutral<Value, Case> {
    /// The printed neutral value.
    pub fn to_string(&self) -> (r: String)
        ensures
            r@ == neutral_text(*self),
    {
        let mut out = String::new();
        write_neutral(&mut out, self);
        out
    }
}

impl GenericCase<Either<Value, Expression>, Value> {
    /// The printed case (without its context).
    pub fn to_string(&self) -> (r: String)
        ensures
            r@ == case_text(*self),
    {
        let mut out = String::new();
        write_case(&mut out, self);
        out
    }
}

impl GenericTelescope<Value> {
    /// The printed evaluation context.
    pub fn to_string(&self) -> (r: String)
        ensures
            r@ == telescope_text(*self),
    {
        let mut out = String::new();
        write_telescope(&mut out, self);
        out
    }
}

impl NormalExpression {
    /// The printed normal form.
    pub fn to_string(&self) -> (r: String)
        ensures
            r@ == normal_text(*self),
    {
        let mut out = String::new();
        write_normal(&mut out, self);
        out
    }
}

impl TCE {
    /// The error message.
    pub fn to_string(&self) -> (r: String)
        ensures
            r@ == tce_text(*self),
    {
        let mut out = String::new();
        write_tce(&mut out, self);
        out
    }
}

} // verus!

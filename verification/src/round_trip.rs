use vstd::prelude::*;

use crate::ast::{Declaration, Expression, Pattern, Typed};
use crate::equiv::{expression_equiv, pattern_equiv};
use crate::list::List;
use crate::parser::{
    digits_end, digits_value, is_digit, is_upper, name_at,
    after_p, atom_p, atom_pattern_p, binder_p, constant_p, constructor_at, constructor_p, declaration_p, declaration_rest_p,
    expression_p, follow_p, ident_at, ident_char_at, ident_end, is_ident_char, is_space, lambda_p, lemma_str_of, lit_at,
    parameters_p, paren_p, parse_s, pattern_p, rest_p, skip_ws, split_p, sum_p, times_tok, tok, universe_p, word, ws,
};
use crate::pretty::{decimal, digit_text, declaration_text, expression_text, pattern_text, prefix_text, typed_text};

verus! {

pub open spec fn is_lower(c: char) -> bool {
    'a' <= c && c <= 'z'
}

pub open spec fn starts_with(x: Seq<char>, w: Seq<char>) -> bool {
    x.len() >= w.len() && x.subrange(0, w.len() as int) == w
}

/// A name that reads back as itself: a lower-case letter, then identifier
/// characters, with none of the words `let`, `rec`, `const`, `sum`, `split` in front.
pub open spec fn plain_name(x: Seq<char>) -> bool {
    &&& x.len() > 0
    &&& is_lower(x[0])
    &&& forall|j: int| 0 <= j < x.len() ==> is_ident_char(#[trigger] x[j])
    &&& !starts_with(x, "let"@)
    &&& !starts_with(x, "rec"@)
    &&& !starts_with(x, "const"@)
    &&& !starts_with(x, "sum"@)
    &&& !starts_with(x, "split"@)
}

/// A constructor name that reads back as itself: an upper-case letter, then
/// identifier characters, neither `U` nor starting with `Type` or `Sum`.
pub open spec fn plain_constructor(x: Seq<char>) -> bool {
    &&& x.len() > 0
    &&& is_upper(x[0])
    &&& forall|j: int| 0 <= j < x.len() ==> is_ident_char(#[trigger] x[j])
    &&& x != "U"@
    &&& !starts_with(x, "Type"@)
    &&& !starts_with(x, "Sum"@)
}

/// Patterns made of plain names, `_` and pairs.
pub open spec fn plain_pattern(p: Pattern) -> bool
    decreases p,
{
    match p {
        Pattern::Var(x) => plain_name(x@),
        Pattern::Unit => true,
        Pattern::Pair(a, b) => plain_pattern(*a) && plain_pattern(*b),
    }
}

/// Expressions made of plain names, `0`, `1`, universes, projections, applications, pairs,
/// lambdas (without parameter type), Pi and Sigma types over plain patterns, and
/// constructors applied to an argument. A lambda, Pi, Sigma or constructor, whose
/// last part reaches as far as it can, stands only where nothing follows it (`tail`):
/// last in a pair, as an argument, or as a body itself.
pub open spec fn plain_expression(e: Expression, tail: bool) -> bool
    decreases e,
{
    match e {
        Expression::Unit => true,
        Expression::One => true,
        Expression::Type(_) => true,
        Expression::Var(x) => plain_name(x@),
        Expression::First(a) => plain_expression(*a, false),
        Expression::Second(a) => plain_expression(*a, false),
        Expression::Application(f, a) => plain_expression(*f, false) && plain_expression(*a, true),
        Expression::Pair(a, b) => plain_expression(*a, false) && plain_expression(*b, true),
        Expression::Lambda(p, None, b) => tail && plain_pattern(p) && plain_expression(*b, true),
        Expression::Pi(t, b) => tail && plain_pattern(t.pattern) && plain_expression(*t.expression, true)
            && plain_expression(*b, true),
        Expression::Sigma(t, b) => tail && plain_pattern(t.pattern) && plain_expression(*t.expression, true)
            && plain_expression(*b, true),
        Expression::Constructor(x, a) => tail && plain_constructor(x@) && plain_expression(*a, true),
        _ => false,
    }
}

/// Where an expression may end: at the end, before `)` or `;`, before a `.` that
/// starts no projection, or before ` =`.
pub open spec fn stops_expression(s: Seq<char>, j: int) -> bool {
    j == s.len() || (0 <= j < s.len() && (s[j] == ')' || s[j] == ';' || (s[j] == '.' && !lit_at(s, j, ".1"@) && !lit_at(
        s,
        j,
        ".2"@,
    )) || (s[j] == ' ' && j + 1 < s.len() && s[j + 1] == '=')))
}

/// `t` is written at `k` in `s`.
pub open spec fn written_at(s: Seq<char>, k: int, t: Seq<char>) -> bool {
    0 <= k && k + t.len() <= s.len() && s.subrange(k, k + t.len()) == t
}

/// White space ends within the text, not before where it starts.
proof fn lemma_ws_bounds(s: Seq<char>, i: int, comment: bool)
    requires
        0 <= i <= s.len(),
    ensures
        i <= skip_ws(s, i, comment) <= s.len(),
    decreases s.len() - i,
{
    if i < s.len() {
        if comment {
            lemma_ws_bounds(s, i + 1, s[i] != '\n');
        } else if is_space(s[i]) {
            lemma_ws_bounds(s, i + 1, false);
        } else if s[i] == '-' && i + 1 < s.len() && s[i + 1] == '-' {
            lemma_ws_bounds(s, i + 2, true);
        }
    }
}

/// A piece of what is written is written at its place.
proof fn lemma_piece(s: Seq<char>, k: int, t: Seq<char>, a: int, b: int)
    requires
        written_at(s, k, t),
        0 <= a <= b <= t.len(),
    ensures
        written_at(s, k + a, t.subrange(a, b)),
{
    assert forall|m: int| 0 <= m < b - a implies #[trigger] s.subrange(k + a, k + b)[m] == t.subrange(a, b)[m] by {
        assert(s.subrange(k, k + t.len())[a + m] == s[k + a + m]);
    }
    assert(s.subrange(k + a, k + b) =~= t.subrange(a, b));
}

/// A token whose first character is not the one at `k` does not stand at `k`.
proof fn lemma_lit_first(s: Seq<char>, k: int, w: Seq<char>)
    requires
        w.len() > 0,
        0 <= k,
        k >= s.len() || s[k] != w[0],
    ensures
        !lit_at(s, k, w),
{
    if lit_at(s, k, w) {
        assert(s.subrange(k, k + w.len())[0] == s[k]);
    }
}

/// A word does not stand where a name that does not start with it is written and
/// ends.
proof fn lemma_no_word(s: Seq<char>, k: int, x: Seq<char>, w: Seq<char>)
    requires
        written_at(s, k, x),
        !ident_char_at(s, k + x.len()),
        forall|j: int| 0 <= j < w.len() ==> is_ident_char(#[trigger] w[j]),
        !starts_with(x, w),
    ensures
        !lit_at(s, k, w),
{
    if lit_at(s, k, w) {
        if x.len() >= w.len() {
            lemma_piece(s, k, x, 0, w.len() as int);
            assert(s.subrange(k, k + w.len()) == x.subrange(0, w.len() as int));
        } else {
            assert(s.subrange(k, k + w.len())[x.len() as int] == s[k + x.len()]);
        }
    }
}

proof fn lemma_ws_here(s: Seq<char>, k: int)
    requires
        0 <= k < s.len(),
        !is_space(s[k]),
        s[k] != '-',
    ensures
        ws(s, k) == k,
{
}

/// The end of a run of identifier characters.
proof fn lemma_ident_run(s: Seq<char>, k: int, x: Seq<char>)
    requires
        written_at(s, k, x),
        forall|j: int| 0 <= j < x.len() ==> is_ident_char(#[trigger] x[j]),
        !ident_char_at(s, k + x.len()),
    ensures
        ident_end(s, k) == k + x.len(),
    decreases x.len(),
{
    if x.len() > 0 {
        assert(s.subrange(k, k + x.len())[0] == s[k]);
        lemma_piece(s, k, x, 1, x.len() as int);
        lemma_ident_run(s, k + 1, x.subrange(1, x.len() as int));
    }
}

/// The first character of a printed plain expression.
proof fn lemma_plain_first(e: Expression, tail: bool)
    requires
        plain_expression(e, tail),
    ensures
        expression_text(e).len() > 0,
        !is_space(expression_text(e)[0]),
        expression_text(e)[0] != '-',
        expression_text(e)[0] == '(' || expression_text(e)[0] == '0' || expression_text(e)[0] == '1' || is_lower(
            expression_text(e)[0],
        ) || expression_text(e)[0] == 'λ' || expression_text(e)[0] == 'Π' || expression_text(e)[0] == 'Σ' || is_upper(
            expression_text(e)[0],
        ),
        !tail && !(e is Type) ==> expression_text(e)[0] == '(' || expression_text(e)[0] == '0' || expression_text(e)[0]
            == '1' || is_lower(expression_text(e)[0]),
        e is Type ==> expression_text(e)[0] == 'T',
        (e is Var) || !is_lower(expression_text(e)[0]),
{
    reveal_strlit("(");
    reveal_strlit("0");
    reveal_strlit("1");
    reveal_strlit("λ ");
    reveal_strlit("Π ");
    reveal_strlit("Σ ");
    reveal_strlit("Type");
    if let Expression::Constructor(x, a) = e {
        assert(expression_text(e)[0] == x@[0]);
    }
}

/// The first character of a printed plain pattern.
proof fn lemma_pattern_first(p: Pattern)
    requires
        plain_pattern(p),
    ensures
        pattern_text(p).len() > 0,
        pattern_text(p)[0] == '(' || pattern_text(p)[0] == '_' || is_lower(pattern_text(p)[0]),
        (p is Var) || !is_lower(pattern_text(p)[0]),
{
    reveal_strlit("(");
    reveal_strlit("_");
}

/// Nothing starts an expression at a closing bracket, a comma, a dot or the end.
proof fn lemma_no_expression(s: Seq<char>, i: int)
    requires
        0 <= i <= s.len(),
        ws(s, i) >= s.len() || s[ws(s, i)] == ')' || s[ws(s, i)] == ',' || s[ws(s, i)] == '.' || s[ws(s, i)] == ';'
            || s[ws(s, i)] == '=',
    ensures
        expression_p(s, i) is None,
{
    let k = ws(s, i);
    lemma_ws_bounds(s, i, false);
    reveal_strlit("let");
    reveal_strlit("rec");
    reveal_strlit("const");
    reveal_strlit("sum");
    reveal_strlit("split");
    reveal_strlit("Type");
    reveal_strlit("U");
    reveal_strlit("Sum");
    reveal_strlit("λ");
    reveal_strlit("\\lambda");
    reveal_strlit("Π");
    reveal_strlit("\\Pi");
    reveal_strlit("Σ");
    reveal_strlit("\\Sigma");
    reveal_strlit("(");
    reveal_strlit("1");
    reveal_strlit("0");
    lemma_lit_first(s, k, "let"@);
    lemma_lit_first(s, k, "rec"@);
    lemma_lit_first(s, k, "const"@);
    lemma_lit_first(s, k, "Type"@);
    lemma_lit_first(s, k, "U"@);
    lemma_lit_first(s, k, "Sum"@);
    lemma_lit_first(s, k, "sum"@);
    lemma_lit_first(s, k, "split"@);
    lemma_lit_first(s, k, "λ"@);
    lemma_lit_first(s, k, "\\lambda"@);
    lemma_lit_first(s, k, "Π"@);
    lemma_lit_first(s, k, "\\Pi"@);
    lemma_lit_first(s, k, "Σ"@);
    lemma_lit_first(s, k, "\\Sigma"@);
    lemma_lit_first(s, k, "("@);
    lemma_lit_first(s, k, "1"@);
    lemma_lit_first(s, k, "0"@);
    assert(declaration_p(s, i) is None);
    assert(constant_p(s, i) is None);
    assert(paren_p(s, i) is None);
    assert(universe_p(s, i) is None);
    assert(sum_p(s, i) is None);
    assert(split_p(s, i) is None);
    assert(lambda_p(s, i) is None);
    assert(binder_p(s, i, true) is None);
    assert(binder_p(s, i, false) is None);
    assert(constructor_at(s, i) is None);
    assert(constructor_p(s, i) is None);
    assert(ident_at(s, i) is None);
    assert(atom_p(s, i) is None);
}

/// A printed plain expression starts with no keyword of a declaration.
proof fn lemma_no_declaration(e: Expression, s: Seq<char>, i: int, tail: bool)
    requires
        plain_expression(e, tail),
        0 <= i <= ws(s, i),
        written_at(s, ws(s, i), expression_text(e)),
        !ident_char_at(s, ws(s, i) + expression_text(e).len()),
    ensures
        declaration_p(s, i) is None,
        constant_p(s, i) is None,
{
    let k = ws(s, i);
    let t = expression_text(e);
    lemma_plain_first(e, tail);
    reveal_strlit("let");
    reveal_strlit("rec");
    reveal_strlit("const");
    assert(s.subrange(k, k + t.len())[0] == s[k]);
    if let Expression::Var(x) = e {
        lemma_no_word(s, k, x@, "let"@);
        lemma_no_word(s, k, x@, "rec"@);
        lemma_no_word(s, k, x@, "const"@);
    } else {
        lemma_lit_first(s, k, "let"@);
        lemma_lit_first(s, k, "rec"@);
        lemma_lit_first(s, k, "const"@);
    }
    assert(declaration_p(s, i) is None);
    assert(constant_p(s, i) is None);
}

/// `ws` stops at a character that is neither blank nor `-`, and skips one blank
/// before such a character.
proof fn lemma_ws_one(s: Seq<char>, j: int)
    requires
        0 <= j,
        j + 1 < s.len(),
        s[j] == ' ',
        !is_space(s[j + 1]),
        s[j + 1] != '-',
    ensures
        ws(s, j) == j + 1,
{
    assert(skip_ws(s, j + 1, false) == j + 1);
}

/// Where nothing but a closing bracket or the end follows the atom, the expression
/// is the atom.
proof fn lemma_follow_stops(s: Seq<char>, i: int, a: Expression, j: int)
    requires
        0 <= i < j <= s.len(),
        stops_expression(s, j) || (j < s.len() && s[j] == ',' && !(after_p(s, i, tok(s, j, ","@)) is Some)),
    ensures
        follow_p(s, i, a, j) == Some((a, j)),
{
    reveal_strlit("->");
    reveal_strlit("*");
    reveal_strlit("\\times");
    reveal_strlit("×");
    reveal_strlit(".1");
    reveal_strlit(".2");
    reveal_strlit(",");
    reveal_strlit("++");
    let w = if j < s.len() && s[j] == ' ' {
        j + 1
    } else {
        j
    };
    assert(ws(s, j) == w) by {
        if j < s.len() && s[j] == ' ' {
            assert(skip_ws(s, j + 1, false) == j + 1);
        }
    }
    lemma_no_expression(s, j);
    lemma_lit_first(s, w, "->"@);
    lemma_lit_first(s, w, "*"@);
    lemma_lit_first(s, w, "\\times"@);
    lemma_lit_first(s, w, "×"@);
    lemma_lit_first(s, w, "++"@);
    if w < s.len() && s[w] == '.' {
        lemma_lit_first(s, w, ","@);
    } else if w < s.len() && s[w] == ',' {
        lemma_lit_first(s, w, ".1"@);
        lemma_lit_first(s, w, ".2"@);
    } else {
        lemma_lit_first(s, w, ".1"@);
        lemma_lit_first(s, w, ".2"@);
        lemma_lit_first(s, w, ","@);
    }
    assert(times_tok(s, j) is None);
    assert(after_p(s, i, tok(s, j, "->"@)) is None);
    assert(after_p(s, i, times_tok(s, j)) is None);
    assert(after_p(s, i, tok(s, j, "++"@)) is None);
}

/// A printed plain expression followed by where an expression stops (the end, `)`,
/// or a `.` that starts no projection) reads back as itself.
proof fn lemma_expression_reads(e: Expression, s: Seq<char>, i: int)
    requires
        plain_expression(e, true),
        0 <= i <= ws(s, i),
        written_at(s, ws(s, i), expression_text(e)),
        stops_expression(s, ws(s, i) + expression_text(e).len()),
    ensures
        expression_p(s, i) matches Some((e2, j)) && j == ws(s, i) + expression_text(e).len() && expression_equiv(e, e2),
    decreases e, 3int,
{
    let k = ws(s, i);
    let t = expression_text(e);
    lemma_plain_first(e, true);
    lemma_no_declaration(e, s, i, true);
    if e is Constructor {
        lemma_constructor_reads(e, e->Constructor_0, *e->Constructor_1, s, i);
    } else if e is Lambda || e is Pi || e is Sigma {
        lemma_binder_reads(e, s, i);
    } else {
        assert(plain_expression(e, false));
        lemma_atom_reads(e, s, i);
    }
    let (e2, j) = atom_p(s, i)->Some_0;
    lemma_follow_stops(s, i, e2, j);
}

/// A `.` followed by a blank starts no projection.
proof fn lemma_dot_stops(s: Seq<char>, j: int)
    requires
        0 <= j,
        j + 1 < s.len(),
        s[j] == '.',
        s[j + 1] == ' ',
    ensures
        stops_expression(s, j),
{
    reveal_strlit(".1");
    reveal_strlit(".2");
    if lit_at(s, j, ".1"@) || lit_at(s, j, ".2"@) {
        assert(s.subrange(j, j + 2)[1] == s[j + 1]);
    }
}

/// A printed plain pattern followed by no identifier character reads back as itself,
/// as an atom of patterns.
proof fn lemma_atom_pattern_reads(p: Pattern, s: Seq<char>, i: int)
    requires
        plain_pattern(p),
        0 <= i <= ws(s, i),
        written_at(s, ws(s, i), pattern_text(p)),
        !ident_char_at(s, ws(s, i) + pattern_text(p).len()),
    ensures
        atom_pattern_p(s, i) matches Some((p2, j)) && j == ws(s, i) + pattern_text(p).len() && pattern_equiv(p, p2),
    decreases p, 0int,
{
    let k = ws(s, i);
    let t = pattern_text(p);
    let lt: int = t.len() as int;
    lemma_pattern_first(p);
    reveal_strlit("(");
    reveal_strlit(")");
    reveal_strlit("_");
    reveal_strlit(", ");
    reveal_strlit(",");
    reveal_strlit("let");
    reveal_strlit("rec");
    assert(s.subrange(k, k + lt)[0] == s[k]);
    match p {
        Pattern::Var(x) => {
            lemma_no_word(s, k, x@, "let"@);
            lemma_no_word(s, k, x@, "rec"@);
            lemma_ident_run(s, k, x@);
            lemma_str_of(x);
            assert(ident_at(s, i) == Some((k, k + lt)));
        },
        Pattern::Unit => {
            assert(ident_at(s, i) is None);
            assert(s.subrange(k, k + 1) =~= "_"@);
            assert(tok(s, i, "_"@) == Some(k + 1));
        },
        Pattern::Pair(a, b) => {
            let ta = pattern_text(*a);
            let tb = pattern_text(*b);
            let la: int = ta.len() as int;
            let lb: int = tb.len() as int;
            lemma_piece(s, k, t, 1, 1 + la);
            assert(t.subrange(1, 1 + la) =~= ta);
            lemma_piece(s, k, t, 3 + la, 3 + la + lb);
            assert(t.subrange(3 + la, 3 + la + lb) =~= tb);
            let j = k + 1 + la;
            let m = j + 2 + lb;
            assert(s.subrange(k, k + lt)[1 + la] == s[j]);
            assert(s.subrange(k, k + lt)[2 + la] == s[j + 1]);
            assert(s.subrange(k, k + lt)[lt - 1] == s[m]);
            lemma_pattern_first(*a);
            lemma_pattern_first(*b);
            assert(s.subrange(k + 1, j)[0] == s[k + 1]);
            assert(s.subrange(j + 2, m)[0] == s[j + 2]);
            assert(ident_at(s, i) is None);
            lemma_lit_first(s, k, "_"@);
            assert(s.subrange(k, k + 1) =~= "("@);
            assert(tok(s, i, "("@) == Some(k + 1));
            lemma_ws_here(s, k + 1);
            lemma_atom_pattern_reads(*a, s, k + 1);
            let (a2, j2) = atom_pattern_p(s, k + 1)->Some_0;
            lemma_ws_here(s, j);
            assert(s.subrange(j, j + 1) =~= ","@);
            assert(tok(s, j, ","@) == Some(j + 1));
            lemma_ws_one(s, j + 1);
            lemma_pattern_reads(*b, s, j + 1);
            let (b2, m2) = pattern_p(s, j + 1)->Some_0;
            assert(pattern_p(s, k + 1) == Some((Pattern::Pair(Box::new(a2), Box::new(b2)), m)));
            lemma_ws_here(s, m);
            assert(s.subrange(m, m + 1) =~= ")"@);
            assert(tok(s, m, ")"@) == Some(m + 1));
        },
    }
}

/// A printed plain pattern followed by `:`, `.` or `)` reads back as itself.
proof fn lemma_pattern_reads(p: Pattern, s: Seq<char>, i: int)
    requires
        plain_pattern(p),
        0 <= i <= ws(s, i),
        written_at(s, ws(s, i), pattern_text(p)),
        ws(s, i) + pattern_text(p).len() < s.len(),
        s[ws(s, i) + pattern_text(p).len()] == ':' || s[ws(s, i) + pattern_text(p).len()] == '.' || s[ws(s, i)
            + pattern_text(p).len()] == ')',
    ensures
        pattern_p(s, i) matches Some((p2, j)) && j == ws(s, i) + pattern_text(p).len() && pattern_equiv(p, p2),
    decreases p, 1int,
{
    let j = ws(s, i) + pattern_text(p).len();
    lemma_atom_pattern_reads(p, s, i);
    reveal_strlit(",");
    lemma_ws_here(s, j);
    lemma_lit_first(s, j, ","@);
}

/// A printed plain lambda, Pi or Sigma followed by where an expression stops reads
/// back as itself, as an atom.
#[verifier::rlimit(80)]
proof fn lemma_binder_reads(e: Expression, s: Seq<char>, i: int)
    requires
        plain_expression(e, true),
        e is Lambda || e is Pi || e is Sigma,
        0 <= i <= ws(s, i),
        written_at(s, ws(s, i), expression_text(e)),
        stops_expression(s, ws(s, i) + expression_text(e).len()),
    ensures
        atom_p(s, i) matches Some((e2, j)) && j == ws(s, i) + expression_text(e).len() && expression_equiv(e, e2),
    decreases e, 2int,
{
    let k = ws(s, i);
    let t = expression_text(e);
    let lt: int = t.len() as int;
    reveal_strlit("(");
    reveal_strlit("Type");
    reveal_strlit("U");
    reveal_strlit("Sum");
    reveal_strlit("sum");
    reveal_strlit("split");
    reveal_strlit("λ");
    reveal_strlit("\\lambda");
    reveal_strlit("Π");
    reveal_strlit("\\Pi");
    reveal_strlit("Σ");
    reveal_strlit("\\Sigma");
    reveal_strlit("λ ");
    reveal_strlit("Π ");
    reveal_strlit("Σ ");
    reveal_strlit(". ");
    reveal_strlit(": ");
    reveal_strlit(".");
    reveal_strlit(":");
    assert(s.subrange(k, k + lt)[0] == s[k]);
    lemma_lit_first(s, k, "("@);
    lemma_lit_first(s, k, "Type"@);
    lemma_lit_first(s, k, "U"@);
    lemma_lit_first(s, k, "Sum"@);
    lemma_lit_first(s, k, "sum"@);
    lemma_lit_first(s, k, "split"@);
    lemma_lit_first(s, k, "\\lambda"@);
    lemma_lit_first(s, k, "\\Pi"@);
    lemma_lit_first(s, k, "\\Sigma"@);
    assert(paren_p(s, i) is None);
    assert(universe_p(s, i) is None);
    assert(sum_p(s, i) is None);
    assert(split_p(s, i) is None);
    match e {
        Expression::Lambda(p, _, b) => {
            lemma_lambda_reads(e, p, *b, s, i);
        },
        Expression::Pi(ty, b) => {
            lemma_typed_binder(e, ty, *b, s, i, true);
        },
        Expression::Sigma(ty, b) => {
            lemma_typed_binder(e, ty, *b, s, i, false);
        },
        _ => {},
    }
}

/// The lambda case of `lemma_binder_reads`.
#[verifier::rlimit(60)]
proof fn lemma_lambda_reads(e: Expression, p: Pattern, b: Expression, s: Seq<char>, i: int)
    requires
        e == Expression::Lambda(p, None, Box::new(b)),
        plain_expression(e, true),
        0 <= i <= ws(s, i),
        written_at(s, ws(s, i), expression_text(e)),
        stops_expression(s, ws(s, i) + expression_text(e).len()),
    ensures
        atom_p(s, i) matches Some((e2, j)) && j == ws(s, i) + expression_text(e).len() && expression_equiv(e, e2),
    decreases e, 1int,
{
    let k = ws(s, i);
    let t = expression_text(e);
    let lt: int = t.len() as int;
    reveal_strlit("(");
    reveal_strlit("Type");
    reveal_strlit("U");
    reveal_strlit("Sum");
    reveal_strlit("sum");
    reveal_strlit("split");
    reveal_strlit("λ");
    reveal_strlit("λ ");
    reveal_strlit(". ");
    reveal_strlit(".");
    assert(s.subrange(k, k + lt)[0] == s[k]);
    lemma_lit_first(s, k, "("@);
    lemma_lit_first(s, k, "Type"@);
    lemma_lit_first(s, k, "U"@);
    lemma_lit_first(s, k, "Sum"@);
    lemma_lit_first(s, k, "sum"@);
    lemma_lit_first(s, k, "split"@);
    assert(paren_p(s, i) is None);
    assert(universe_p(s, i) is None);
    assert(sum_p(s, i) is None);
    assert(split_p(s, i) is None);
    let tp = pattern_text(p);
    let tb = expression_text(b);
    let lp: int = tp.len() as int;
    let lb: int = tb.len() as int;
    assert(decreases_to!(e => e->Lambda_2));
    assert(t =~= "λ "@ + tp + ". "@ + tb);
    lemma_piece(s, k, t, 2, 2 + lp);
    assert(t.subrange(2, 2 + lp) =~= tp);
    lemma_piece(s, k, t, 4 + lp, lt);
    assert(t.subrange(4 + lp, lt) =~= tb);
    let jp = k + 2 + lp;
    assert(s.subrange(k, k + lt)[1] == s[k + 1]);
    assert(s.subrange(k, k + lt)[2 + lp] == s[jp]);
    assert(s.subrange(k, k + lt)[3 + lp] == s[jp + 1]);
    lemma_pattern_first(p);
    lemma_plain_first(b, true);
    assert(s.subrange(k + 2, jp)[0] == s[k + 2]);
    assert(s.subrange(jp + 2, k + lt)[0] == s[jp + 2]);
    assert(s.subrange(k, k + 1) =~= "λ"@);
    assert(tok(s, i, "λ"@) == Some(k + 1));
    lemma_ws_one(s, k + 1);
    lemma_pattern_reads(p, s, k + 1);
    let (p2, jp2) = pattern_p(s, k + 1)->Some_0;
    lemma_ws_here(s, jp);
    assert(s.subrange(jp, jp + 1) =~= "."@);
    assert(tok(s, jp, "."@) == Some(jp + 1));
    lemma_ws_one(s, jp + 1);
    lemma_expression_reads(b, s, jp + 1);
    let (b2, m2) = expression_p(s, jp + 1)->Some_0;
    assert(lambda_p(s, i) == Some((Expression::Lambda(p2, None, Box::new(b2)), k + lt)));
    assert(atom_p(s, i) == lambda_p(s, i));
}

/// A printed constructor with its argument, followed by where an expression stops,
/// reads back as itself, as an atom.
#[verifier::rlimit(60)]
proof fn lemma_constructor_reads(e: Expression, x: String, a: Expression, s: Seq<char>, i: int)
    requires
        e == Expression::Constructor(x, Box::new(a)),
        plain_expression(e, true),
        0 <= i <= ws(s, i),
        written_at(s, ws(s, i), expression_text(e)),
        stops_expression(s, ws(s, i) + expression_text(e).len()),
    ensures
        atom_p(s, i) matches Some((e2, j)) && j == ws(s, i) + expression_text(e).len() && expression_equiv(e, e2),
    decreases e, 1int,
{
    let k = ws(s, i);
    let t = expression_text(e);
    let lt: int = t.len() as int;
    let ta = expression_text(a);
    let lx: int = x@.len() as int;
    reveal_strlit("(");
    reveal_strlit("Type");
    reveal_strlit("U");
    reveal_strlit("Sum");
    reveal_strlit("sum");
    reveal_strlit("split");
    reveal_strlit("λ");
    reveal_strlit("\\lambda");
    reveal_strlit("Π");
    reveal_strlit("\\Pi");
    reveal_strlit("Σ");
    reveal_strlit("\\Sigma");
    reveal_strlit("1");
    reveal_strlit("0");
    reveal_strlit(" ");
    assert(decreases_to!(e => e->Constructor_1));
    assert(t =~= x@ + " "@ + ta);
    lemma_piece(s, k, t, 0, lx);
    assert(t.subrange(0, lx) =~= x@);
    lemma_piece(s, k, t, lx + 1, lt);
    assert(t.subrange(lx + 1, lt) =~= ta);
    assert(s.subrange(k, k + lt)[lx] == s[k + lx]);
    lemma_written_first(s, k, x@);
    lemma_plain_first(a, true);
    lemma_written_first(s, k + lx + 1, ta);
    lemma_lit_first(s, k, "("@);
    lemma_no_word(s, k, x@, "Type"@);
    lemma_no_word(s, k, x@, "Sum"@);
    lemma_lit_first(s, k, "sum"@);
    lemma_lit_first(s, k, "split"@);
    lemma_lit_first(s, k, "λ"@);
    lemma_lit_first(s, k, "\\lambda"@);
    lemma_lit_first(s, k, "Π"@);
    lemma_lit_first(s, k, "\\Pi"@);
    lemma_lit_first(s, k, "Σ"@);
    lemma_lit_first(s, k, "\\Sigma"@);
    lemma_lit_first(s, k, "1"@);
    lemma_lit_first(s, k, "0"@);
    assert(word(s, i, "U"@) is None) by {
        if lx == 1 {
            if x@[0] == 'U' {
                assert(x@ =~= "U"@);
            }
            lemma_lit_first(s, k, "U"@);
        } else {
            assert(s.subrange(k, k + lx)[1] == s[k + 1]);
        }
    }
    assert(paren_p(s, i) is None);
    assert(universe_p(s, i) is None);
    assert(sum_p(s, i) is None);
    assert(split_p(s, i) is None);
    assert(lambda_p(s, i) is None);
    assert(binder_p(s, i, true) is None);
    assert(binder_p(s, i, false) is None);
    lemma_ident_run(s, k, x@);
    assert(constructor_at(s, i) == Some((k, k + lx)));
    lemma_ws_one(s, k + lx);
    lemma_expression_reads(a, s, k + lx);
    let (a2, m) = expression_p(s, k + lx)->Some_0;
    lemma_str_of(x);
    assert(name_at(s, k, k + lx)@ == x@);
    assert(constructor_p(s, i) == Some((Expression::Constructor(name_at(s, k, k + lx), Box::new(a2)), k + lt)));
    assert(atom_p(s, i) == constructor_p(s, i));
}

/// The first character of what is written is at its place.
proof fn lemma_written_first(s: Seq<char>, k: int, t: Seq<char>)
    requires
        written_at(s, k, t),
        t.len() > 0,
    ensures
        s[k] == t[0],
{
    assert(s.subrange(k, k + t.len())[0] == s[k]);
}

/// How `X p: A. B` is laid out, with `X` a character and a blank.
proof fn lemma_binder_layout(s: Seq<char>, k: int, head: Seq<char>, tp: Seq<char>, ta: Seq<char>, tb: Seq<char>)
    requires
        written_at(s, k, head + tp + ": "@ + ta + ". "@ + tb),
        head.len() == 2,
    ensures
        written_at(s, k + 2, tp),
        written_at(s, k + 4 + tp.len(), ta),
        written_at(s, k + 6 + tp.len() + ta.len(), tb),
        s[k] == head[0],
        s[k + 1] == head[1],
        s[k + 2 + tp.len()] == ':',
        s[k + 3 + tp.len()] == ' ',
        s[k + 4 + tp.len() + ta.len()] == '.',
        s[k + 5 + tp.len() + ta.len()] == ' ',
{
    reveal_strlit(": ");
    reveal_strlit(". ");
    let t = head + tp + ": "@ + ta + ". "@ + tb;
    let lt: int = t.len() as int;
    let lp: int = tp.len() as int;
    let la: int = ta.len() as int;
    lemma_piece(s, k, t, 2, 2 + lp);
    assert(t.subrange(2, 2 + lp) =~= tp);
    lemma_piece(s, k, t, 4 + lp, 4 + lp + la);
    assert(t.subrange(4 + lp, 4 + lp + la) =~= ta);
    lemma_piece(s, k, t, 6 + lp + la, lt);
    assert(t.subrange(6 + lp + la, lt) =~= tb);
    assert(s.subrange(k, k + lt)[0] == s[k]);
    assert(s.subrange(k, k + lt)[1] == s[k + 1]);
    assert(s.subrange(k, k + lt)[2 + lp] == s[k + 2 + lp]);
    assert(s.subrange(k, k + lt)[3 + lp] == s[k + 3 + lp]);
    assert(s.subrange(k, k + lt)[4 + lp + la] == s[k + 4 + lp + la]);
    assert(s.subrange(k, k + lt)[5 + lp + la] == s[k + 5 + lp + la]);
}

/// What follows the binder of `X p: A. B` (at `k + 1`) reads back as `p`, `A` and `B`.
#[verifier::rlimit(40)]
proof fn lemma_binder_parts(e: Expression, ty: Typed, b: Expression, s: Seq<char>, k: int, end: int)
    requires
        e == Expression::Pi(ty, Box::new(b)) || e == Expression::Sigma(ty, Box::new(b)),
        plain_pattern(ty.pattern),
        plain_expression(*ty.expression, true),
        plain_expression(b, true),
        0 <= k,
        s[k + 1] == ' ',
        written_at(s, k + 2, pattern_text(ty.pattern)),
        written_at(s, k + 4 + pattern_text(ty.pattern).len(), expression_text(*ty.expression)),
        written_at(s, k + 6 + pattern_text(ty.pattern).len() + expression_text(*ty.expression).len(), expression_text(b)),
        s[k + 2 + pattern_text(ty.pattern).len()] == ':',
        s[k + 3 + pattern_text(ty.pattern).len()] == ' ',
        s[k + 4 + pattern_text(ty.pattern).len() + expression_text(*ty.expression).len()] == '.',
        s[k + 5 + pattern_text(ty.pattern).len() + expression_text(*ty.expression).len()] == ' ',
        end == k + 6 + pattern_text(ty.pattern).len() + expression_text(*ty.expression).len() + expression_text(b).len(),
        stops_expression(s, end),
    ensures
        pattern_p(s, k + 1) is Some,
        pattern_equiv(ty.pattern, pattern_p(s, k + 1)->Some_0.0),
        pattern_p(s, k + 1)->Some_0.1 == k + 2 + pattern_text(ty.pattern).len(),
        tok(s, k + 2 + pattern_text(ty.pattern).len(), ":"@) == Some(k + 3 + pattern_text(ty.pattern).len()),
        expression_p(s, k + 3 + pattern_text(ty.pattern).len()) is Some,
        expression_equiv(*ty.expression, expression_p(s, k + 3 + pattern_text(ty.pattern).len())->Some_0.0),
        expression_p(s, k + 3 + pattern_text(ty.pattern).len())->Some_0.1 == k + 4 + pattern_text(ty.pattern).len()
            + expression_text(*ty.expression).len(),
        tok(s, k + 4 + pattern_text(ty.pattern).len() + expression_text(*ty.expression).len(), "."@) == Some(
            k + 5 + pattern_text(ty.pattern).len() + expression_text(*ty.expression).len(),
        ),
        expression_p(s, k + 5 + pattern_text(ty.pattern).len() + expression_text(*ty.expression).len()) is Some,
        expression_equiv(
            b,
            expression_p(s, k + 5 + pattern_text(ty.pattern).len() + expression_text(*ty.expression).len())->Some_0.0,
        ),
        expression_p(s, k + 5 + pattern_text(ty.pattern).len() + expression_text(*ty.expression).len())->Some_0.1
            == end,
    decreases e, 0int,
{
    reveal_strlit(".");
    reveal_strlit(":");
    let tp = pattern_text(ty.pattern);
    let ta = expression_text(*ty.expression);
    let tb = expression_text(b);
    let jp = k + 2 + tp.len();
    let ja = jp + 2 + ta.len();
    lemma_pattern_first(ty.pattern);
    lemma_plain_first(*ty.expression, true);
    lemma_plain_first(b, true);
    lemma_written_first(s, k + 2, tp);
    lemma_written_first(s, jp + 2, ta);
    lemma_written_first(s, ja + 2, tb);
    if e is Pi {
        assert(decreases_to!(e => e->Pi_0));
        assert(decreases_to!(e => e->Pi_1));
    } else {
        assert(decreases_to!(e => e->Sigma_0));
        assert(decreases_to!(e => e->Sigma_1));
    }
    lemma_ws_one(s, k + 1);
    lemma_pattern_reads(ty.pattern, s, k + 1);
    lemma_ws_here(s, jp);
    assert(s.subrange(jp, jp + 1) =~= ":"@);
    lemma_ws_one(s, jp + 1);
    lemma_dot_stops(s, ja);
    lemma_expression_reads(*ty.expression, s, jp + 1);
    lemma_ws_here(s, ja);
    assert(s.subrange(ja, ja + 1) =~= "."@);
    lemma_ws_one(s, ja + 1);
    lemma_expression_reads(b, s, ja + 1);
}

/// The Pi (with `pi`) and Sigma cases of `lemma_binder_reads`.
#[verifier::rlimit(60)]
proof fn lemma_typed_binder(e: Expression, ty: Typed, b: Expression, s: Seq<char>, i: int, pi: bool)
    requires
        pi ==> e == Expression::Pi(ty, Box::new(b)),
        !pi ==> e == Expression::Sigma(ty, Box::new(b)),
        plain_expression(e, true),
        0 <= i <= ws(s, i),
        written_at(s, ws(s, i), expression_text(e)),
        stops_expression(s, ws(s, i) + expression_text(e).len()),
    ensures
        atom_p(s, i) matches Some((e2, j)) && j == ws(s, i) + expression_text(e).len() && expression_equiv(e, e2),
    decreases e, 1int,
{
    let k = ws(s, i);
    let t = expression_text(e);
    let lt: int = t.len() as int;
    reveal_strlit("(");
    reveal_strlit("Type");
    reveal_strlit("U");
    reveal_strlit("Sum");
    reveal_strlit("sum");
    reveal_strlit("split");
    reveal_strlit("λ");
    reveal_strlit("\\lambda");
    reveal_strlit("Π");
    reveal_strlit("\\Pi");
    reveal_strlit("Σ");
    reveal_strlit("\\Sigma");
    reveal_strlit("Π ");
    reveal_strlit("Σ ");
    reveal_strlit(": ");
    reveal_strlit(". ");
    let tp = pattern_text(ty.pattern);
    let ta = expression_text(*ty.expression);
    let tb = expression_text(b);
    assert(typed_text(ty) == tp + ": "@ + ta);
    let head = if pi { "Π "@ } else { "Σ "@ };
    assert(t =~= head + tp + ": "@ + ta + ". "@ + tb);
    lemma_binder_layout(s, k, head, tp, ta, tb);
    lemma_lit_first(s, k, "("@);
    lemma_lit_first(s, k, "Type"@);
    lemma_lit_first(s, k, "U"@);
    lemma_lit_first(s, k, "Sum"@);
    lemma_lit_first(s, k, "sum"@);
    lemma_lit_first(s, k, "split"@);
    lemma_lit_first(s, k, "λ"@);
    lemma_lit_first(s, k, "\\lambda"@);
    lemma_lit_first(s, k, "\\Pi"@);
    lemma_lit_first(s, k, "\\Sigma"@);
    if !pi {
        lemma_lit_first(s, k, "Π"@);
    }
    assert(paren_p(s, i) is None);
    assert(universe_p(s, i) is None);
    assert(sum_p(s, i) is None);
    assert(split_p(s, i) is None);
    assert(lambda_p(s, i) is None);
    lemma_binder_parts(e, ty, b, s, k, k + lt);
    if pi {
        assert(s.subrange(k, k + 1) =~= "Π"@);
        assert(tok(s, i, "Π"@) == Some(k + 1));
    } else {
        assert(s.subrange(k, k + 1) =~= "Σ"@);
        assert(tok(s, i, "Σ"@) == Some(k + 1));
    }
    let (p2, jp) = pattern_p(s, k + 1)->Some_0;
    let (a2, ja) = expression_p(s, jp + 1)->Some_0;
    let (b2, m) = expression_p(s, ja + 1)->Some_0;
    let typed = Typed { pattern: p2, expression: Box::new(a2) };
    assert(crate::equiv::typed_equiv(ty, typed));
    if pi {
        assert(binder_p(s, i, true) == Some((Expression::Pi(typed, Box::new(b2)), k + lt)));
        assert(atom_p(s, i) == Some((Expression::Pi(typed, Box::new(b2)), k + lt)));
        assert(expression_equiv(e, Expression::Pi(typed, Box::new(b2))));
    } else {
        assert(binder_p(s, i, true) is None);
        assert(binder_p(s, i, false) == Some((Expression::Sigma(typed, Box::new(b2)), k + lt)));
        assert(atom_p(s, i) == Some((Expression::Sigma(typed, Box::new(b2)), k + lt)));
        assert(expression_equiv(e, Expression::Sigma(typed, Box::new(b2))));
    }
}

/// A printed plain expression followed by no identifier character reads back as
/// itself, as an atom.
proof fn lemma_atom_reads(e: Expression, s: Seq<char>, i: int)
    requires
        plain_expression(e, false),
        0 <= i <= ws(s, i),
        written_at(s, ws(s, i), expression_text(e)),
        !ident_char_at(s, ws(s, i) + expression_text(e).len()),
    ensures
        atom_p(s, i) matches Some((e2, j)) && j == ws(s, i) + expression_text(e).len() && expression_equiv(e, e2),
    decreases e, 1int,
{
    match e {
        Expression::Type(_) => lemma_atom_universe(e, s, i),
        Expression::Unit => lemma_atom_constant(e, s, i),
        Expression::One => lemma_atom_constant(e, s, i),
        Expression::Var(_) => lemma_atom_name(e, s, i),
        Expression::First(..) => lemma_atom_first(e, s, i),
        Expression::Second(..) => lemma_atom_second(e, s, i),
        Expression::Application(..) => lemma_atom_application(e, s, i),
        Expression::Pair(..) => lemma_atom_pair(e, s, i),
        _ => {},
    }
}

/// A decimal digit is one character, a digit, of its value.
proof fn lemma_digit_text(d: nat)
    requires
        d < 10,
    ensures
        digit_text(d).len() == 1,
        is_digit(digit_text(d)[0]),
        digit_text(d)[0] as int - '0' as int == d,
{
    reveal_strlit("0");
    reveal_strlit("1");
    reveal_strlit("2");
    reveal_strlit("3");
    reveal_strlit("4");
    reveal_strlit("5");
    reveal_strlit("6");
    reveal_strlit("7");
    reveal_strlit("8");
    reveal_strlit("9");
}

/// A number written in decimal reads back as its digits' value.
proof fn lemma_decimal_reads(s: Seq<char>, j: int, n: nat)
    requires
        written_at(s, j, decimal(n)),
    ensures
        decimal(n).len() > 0,
        forall|m: int| j <= m < j + decimal(n).len() ==> is_digit(#[trigger] s[m]),
        digits_value(s, j, j + decimal(n).len()) == n,
    decreases n,
{
    if n < 10 {
        lemma_digit_text(n);
        lemma_written_first(s, j, decimal(n));
        assert(digits_value(s, j, j) == 0);
        assert(digits_value(s, j, j + 1) == digits_value(s, j, j) * 10 + (s[j] as int - '0' as int));
    } else {
        let q = n / 10;
        let r = n % 10;
        let tq = decimal(q);
        let t = decimal(n);
        lemma_digit_text(r);
        assert(t == tq + digit_text(r));
        lemma_piece(s, j, t, 0, tq.len() as int);
        assert(t.subrange(0, tq.len() as int) =~= tq);
        lemma_decimal_reads(s, j, q);
        assert(s.subrange(j, j + t.len())[tq.len() as int] == s[j + tq.len()]);
        assert(s[j + tq.len()] == digit_text(r)[0]);
        assert(digits_value(s, j, j + t.len()) == digits_value(s, j, j + tq.len()) * 10 + (s[j + tq.len()] as int
            - '0' as int));
        assert(q * 10 + r == n) by (nonlinear_arith)
            requires
                q == n / 10,
                r == n % 10,
        ;
        assert forall|m: int| j <= m < j + t.len() implies is_digit(#[trigger] s[m]) by {
            if m == j + tq.len() {
            } else {
                assert(j <= m < j + tq.len());
            }
        }
    }
}

/// The digits from `j` run up to `d`.
proof fn lemma_digits_run(s: Seq<char>, j: int, d: int)
    requires
        0 <= j <= d <= s.len(),
        forall|m: int| j <= m < d ==> is_digit(#[trigger] s[m]),
        d == s.len() || !is_digit(s[d]),
    ensures
        digits_end(s, j) == d,
    decreases d - j,
{
    if j < d {
        lemma_digits_run(s, j + 1, d);
    }
}

/// `Type n` reads back as itself.
#[verifier::rlimit(30)]
proof fn lemma_atom_universe(e: Expression, s: Seq<char>, i: int)
    requires
        e is Type,
        plain_expression(e, false),
        0 <= i <= ws(s, i),
        written_at(s, ws(s, i), expression_text(e)),
        !ident_char_at(s, ws(s, i) + expression_text(e).len()),
    ensures
        atom_p(s, i) matches Some((e2, j)) && j == ws(s, i) + expression_text(e).len() && expression_equiv(e, e2),
    decreases e, 0int,
{
    let k = ws(s, i);
    let t = expression_text(e);
    let lt: int = t.len() as int;
    let n = e->Type_0;
    let td = decimal(n as nat);
    reveal_strlit("(");
    reveal_strlit("Type");
    assert(t == "Type"@ + td);
    lemma_piece(s, k, t, 0, 4);
    assert(t.subrange(0, 4) =~= "Type"@);
    lemma_piece(s, k, t, 4, lt);
    assert(t.subrange(4, lt) =~= td);
    lemma_written_first(s, k, t);
    lemma_lit_first(s, k, "("@);
    assert(paren_p(s, i) is None);
    assert(tok(s, i, "Type"@) == Some(k + 4));
    lemma_decimal_reads(s, k + 4, n as nat);
    lemma_digits_run(s, k + 4, k + lt);
    assert(universe_p(s, i) == Some((Expression::Type(n), k + lt)));
    assert(atom_p(s, i) == universe_p(s, i));
}

/// `0` and `1` read back as themselves.
#[verifier::rlimit(30)]
proof fn lemma_atom_constant(e: Expression, s: Seq<char>, i: int)
    requires
        e is Unit || e is One,
        plain_expression(e, false),
        0 <= i <= ws(s, i),
        written_at(s, ws(s, i), expression_text(e)),
        !ident_char_at(s, ws(s, i) + expression_text(e).len()),
    ensures
        atom_p(s, i) matches Some((e2, j)) && j == ws(s, i) + expression_text(e).len() && expression_equiv(e, e2),
    decreases e, 0int,
{
    let k = ws(s, i);
    let t = expression_text(e);
    let lt: int = t.len() as int;
    lemma_plain_first(e, false);
    reveal_strlit("(");
    reveal_strlit(")");
    reveal_strlit("0");
    reveal_strlit("1");
    reveal_strlit("Type");
    reveal_strlit("U");
    reveal_strlit("Sum");
    reveal_strlit("sum");
    reveal_strlit("split");
    reveal_strlit("λ");
    reveal_strlit("\\lambda");
    reveal_strlit("Π");
    reveal_strlit("\\Pi");
    reveal_strlit("Σ");
    reveal_strlit("\\Sigma");
    reveal_strlit("let");
    reveal_strlit("rec");
    reveal_strlit(".1)");
    reveal_strlit(".2)");
    reveal_strlit(".1");
    reveal_strlit(".2");
    reveal_strlit(" ");
    reveal_strlit(", ");
    reveal_strlit(",");
    assert(s.subrange(k, k + t.len())[0] == s[k]);
    if !(e is Var) {
        lemma_lit_first(s, k, "Type"@);
        lemma_lit_first(s, k, "U"@);
        lemma_lit_first(s, k, "Sum"@);
        lemma_lit_first(s, k, "sum"@);
        lemma_lit_first(s, k, "split"@);
    }
    lemma_lit_first(s, k, "λ"@);
    lemma_lit_first(s, k, "\\lambda"@);
    lemma_lit_first(s, k, "Π"@);
    lemma_lit_first(s, k, "\\Pi"@);
    lemma_lit_first(s, k, "Σ"@);
    lemma_lit_first(s, k, "\\Sigma"@);
    match e {
        Expression::Unit => {
            lemma_lit_first(s, k, "("@);
            lemma_lit_first(s, k, "1"@);
            assert(tok(s, i, "1"@) is None);
            assert(s.subrange(k, k + 1) =~= "0"@);
            assert(tok(s, i, "0"@) == Some(k + 1));
            assert(paren_p(s, i) is None);
            assert(atom_p(s, i) == Some((Expression::Unit, k + 1)));
            assert(paren_p(s, i) is None);
            assert(universe_p(s, i) is None);
            assert(sum_p(s, i) is None);
            assert(split_p(s, i) is None);
            assert(lambda_p(s, i) is None);
            assert(binder_p(s, i, true) is None);
            assert(binder_p(s, i, false) is None);
        },
        Expression::One => {
            lemma_lit_first(s, k, "("@);
            assert(s.subrange(k, k + 1) =~= "1"@);
            assert(tok(s, i, "1"@) == Some(k + 1));
            assert(paren_p(s, i) is None);
            assert(universe_p(s, i) is None);
            assert(sum_p(s, i) is None);
            assert(split_p(s, i) is None);
            assert(lambda_p(s, i) is None);
            assert(binder_p(s, i, true) is None);
            assert(binder_p(s, i, false) is None);
        },
        _ => {},
    }
}

/// A plain name reads back as itself.
#[verifier::rlimit(30)]
proof fn lemma_atom_name(e: Expression, s: Seq<char>, i: int)
    requires
        e is Var,
        plain_expression(e, false),
        0 <= i <= ws(s, i),
        written_at(s, ws(s, i), expression_text(e)),
        !ident_char_at(s, ws(s, i) + expression_text(e).len()),
    ensures
        atom_p(s, i) matches Some((e2, j)) && j == ws(s, i) + expression_text(e).len() && expression_equiv(e, e2),
    decreases e, 0int,
{
    let k = ws(s, i);
    let t = expression_text(e);
    let lt: int = t.len() as int;
    lemma_plain_first(e, false);
    reveal_strlit("(");
    reveal_strlit(")");
    reveal_strlit("0");
    reveal_strlit("1");
    reveal_strlit("Type");
    reveal_strlit("U");
    reveal_strlit("Sum");
    reveal_strlit("sum");
    reveal_strlit("split");
    reveal_strlit("λ");
    reveal_strlit("\\lambda");
    reveal_strlit("Π");
    reveal_strlit("\\Pi");
    reveal_strlit("Σ");
    reveal_strlit("\\Sigma");
    reveal_strlit("let");
    reveal_strlit("rec");
    reveal_strlit(".1)");
    reveal_strlit(".2)");
    reveal_strlit(".1");
    reveal_strlit(".2");
    reveal_strlit(" ");
    reveal_strlit(", ");
    reveal_strlit(",");
    assert(s.subrange(k, k + t.len())[0] == s[k]);
    if !(e is Var) {
        lemma_lit_first(s, k, "Type"@);
        lemma_lit_first(s, k, "U"@);
        lemma_lit_first(s, k, "Sum"@);
        lemma_lit_first(s, k, "sum"@);
        lemma_lit_first(s, k, "split"@);
    }
    lemma_lit_first(s, k, "λ"@);
    lemma_lit_first(s, k, "\\lambda"@);
    lemma_lit_first(s, k, "Π"@);
    lemma_lit_first(s, k, "\\Pi"@);
    lemma_lit_first(s, k, "Σ"@);
    lemma_lit_first(s, k, "\\Sigma"@);
    if let Expression::Var(x) = e {
        lemma_lit_first(s, k, "("@);
        lemma_lit_first(s, k, "Type"@);
        lemma_lit_first(s, k, "U"@);
        lemma_lit_first(s, k, "Sum"@);
        lemma_lit_first(s, k, "1"@);
        lemma_lit_first(s, k, "0"@);
        lemma_no_word(s, k, x@, "sum"@);
        lemma_no_word(s, k, x@, "split"@);
        lemma_no_word(s, k, x@, "let"@);
        lemma_no_word(s, k, x@, "rec"@);
        lemma_ident_run(s, k, x@);
        lemma_str_of(x);
        assert(s.subrange(k, k + t.len()) == x@);
        assert(paren_p(s, i) is None);
        assert(universe_p(s, i) is None);
        assert(sum_p(s, i) is None);
        assert(split_p(s, i) is None);
        assert(lambda_p(s, i) is None);
        assert(binder_p(s, i, true) is None);
        assert(binder_p(s, i, false) is None);
        assert(constructor_at(s, i) is None);
        assert(constructor_p(s, i) is None);
        assert(ident_at(s, i) == Some((k, k + t.len())));

    }
}

/// `(M.1)` reads back as itself.
#[verifier::rlimit(30)]
proof fn lemma_atom_first(e: Expression, s: Seq<char>, i: int)
    requires
        e is First,
        plain_expression(e, false),
        0 <= i <= ws(s, i),
        written_at(s, ws(s, i), expression_text(e)),
        !ident_char_at(s, ws(s, i) + expression_text(e).len()),
    ensures
        atom_p(s, i) matches Some((e2, j)) && j == ws(s, i) + expression_text(e).len() && expression_equiv(e, e2),
    decreases e, 0int,
{
    let k = ws(s, i);
    let t = expression_text(e);
    let lt: int = t.len() as int;
    lemma_plain_first(e, false);
    reveal_strlit("(");
    reveal_strlit(")");
    reveal_strlit("0");
    reveal_strlit("1");
    reveal_strlit("Type");
    reveal_strlit("U");
    reveal_strlit("Sum");
    reveal_strlit("sum");
    reveal_strlit("split");
    reveal_strlit("λ");
    reveal_strlit("\\lambda");
    reveal_strlit("Π");
    reveal_strlit("\\Pi");
    reveal_strlit("Σ");
    reveal_strlit("\\Sigma");
    reveal_strlit("let");
    reveal_strlit("rec");
    reveal_strlit(".1)");
    reveal_strlit(".2)");
    reveal_strlit(".1");
    reveal_strlit(".2");
    reveal_strlit(" ");
    reveal_strlit(", ");
    reveal_strlit(",");
    assert(s.subrange(k, k + t.len())[0] == s[k]);
    if !(e is Var) {
        lemma_lit_first(s, k, "Type"@);
        lemma_lit_first(s, k, "U"@);
        lemma_lit_first(s, k, "Sum"@);
        lemma_lit_first(s, k, "sum"@);
        lemma_lit_first(s, k, "split"@);
    }
    lemma_lit_first(s, k, "λ"@);
    lemma_lit_first(s, k, "\\lambda"@);
    lemma_lit_first(s, k, "Π"@);
    lemma_lit_first(s, k, "\\Pi"@);
    lemma_lit_first(s, k, "Σ"@);
    lemma_lit_first(s, k, "\\Sigma"@);
    if let Expression::First(a) = e {
        let ta = expression_text(*a);
        let la: int = ta.len() as int;
        lemma_piece(s, k, t, 1, 1 + la);
        assert(t.subrange(1, 1 + la) =~= ta);
        lemma_piece(s, k, t, 1 + la, lt);
        assert(t.subrange(1 + la, lt) =~= ".1)"@);
        let j = k + 1 + la;
        assert(s.subrange(j, j + 3)[0] == s[j]);
        assert(s.subrange(j, j + 3)[2] == s[j + 2]);
        lemma_plain_first(*a, false);
        assert(s.subrange(k + 1, j)[0] == s[k + 1]);
        lemma_ws_here(s, k + 1);
        lemma_no_declaration(*a, s, k + 1, false);
        lemma_atom_reads(*a, s, k + 1);
        let (a2, j2) = atom_p(s, k + 1)->Some_0;
        assert(s.subrange(j, j + 3).subrange(0, 2) =~= ".1"@);
        lemma_piece(s, j, s.subrange(j, j + 3), 0, 2);
        assert(lit_at(s, j, ".1"@));
        lemma_ws_here(s, j);
        lemma_no_expression(s, j);
        reveal_strlit("->");
        reveal_strlit("*");
        reveal_strlit("\\times");
        reveal_strlit("×");
        lemma_lit_first(s, j, "->"@);
        lemma_lit_first(s, j, "*"@);
        lemma_lit_first(s, j, "\\times"@);
        lemma_lit_first(s, j, "×"@);
        assert(times_tok(s, j) is None);
        assert(follow_p(s, k + 1, a2, j) == Some((Expression::First(Box::new(a2)), j + 2)));
        assert(expression_p(s, k + 1) == Some((Expression::First(Box::new(a2)), j + 2)));
        lemma_ws_here(s, j + 2);
        assert(s.subrange(k, k + 1) =~= "("@);
        assert(tok(s, i, "("@) == Some(k + 1));
        assert(s.subrange(j + 2, j + 2 + 1) =~= ")"@);
        assert(tok(s, j + 2, ")"@) == Some(j + 2 + 1));
        assert(paren_p(s, i) == Some((Expression::First(Box::new(a2)), j + 3)));
        assert(atom_p(s, i) == paren_p(s, i));

    }
}

/// `(M.2)` reads back as itself.
#[verifier::rlimit(30)]
proof fn lemma_atom_second(e: Expression, s: Seq<char>, i: int)
    requires
        e is Second,
        plain_expression(e, false),
        0 <= i <= ws(s, i),
        written_at(s, ws(s, i), expression_text(e)),
        !ident_char_at(s, ws(s, i) + expression_text(e).len()),
    ensures
        atom_p(s, i) matches Some((e2, j)) && j == ws(s, i) + expression_text(e).len() && expression_equiv(e, e2),
    decreases e, 0int,
{
    let k = ws(s, i);
    let t = expression_text(e);
    let lt: int = t.len() as int;
    lemma_plain_first(e, false);
    reveal_strlit("(");
    reveal_strlit(")");
    reveal_strlit("0");
    reveal_strlit("1");
    reveal_strlit("Type");
    reveal_strlit("U");
    reveal_strlit("Sum");
    reveal_strlit("sum");
    reveal_strlit("split");
    reveal_strlit("λ");
    reveal_strlit("\\lambda");
    reveal_strlit("Π");
    reveal_strlit("\\Pi");
    reveal_strlit("Σ");
    reveal_strlit("\\Sigma");
    reveal_strlit("let");
    reveal_strlit("rec");
    reveal_strlit(".1)");
    reveal_strlit(".2)");
    reveal_strlit(".1");
    reveal_strlit(".2");
    reveal_strlit(" ");
    reveal_strlit(", ");
    reveal_strlit(",");
    assert(s.subrange(k, k + t.len())[0] == s[k]);
    if !(e is Var) {
        lemma_lit_first(s, k, "Type"@);
        lemma_lit_first(s, k, "U"@);
        lemma_lit_first(s, k, "Sum"@);
        lemma_lit_first(s, k, "sum"@);
        lemma_lit_first(s, k, "split"@);
    }
    lemma_lit_first(s, k, "λ"@);
    lemma_lit_first(s, k, "\\lambda"@);
    lemma_lit_first(s, k, "Π"@);
    lemma_lit_first(s, k, "\\Pi"@);
    lemma_lit_first(s, k, "Σ"@);
    lemma_lit_first(s, k, "\\Sigma"@);
    if let Expression::Second(a) = e {
        let ta = expression_text(*a);
        let la: int = ta.len() as int;
        lemma_piece(s, k, t, 1, 1 + la);
        assert(t.subrange(1, 1 + la) =~= ta);
        lemma_piece(s, k, t, 1 + la, lt);
        assert(t.subrange(1 + la, lt) =~= ".2)"@);
        let j = k + 1 + la;
        assert(s.subrange(j, j + 3)[0] == s[j]);
        assert(s.subrange(j, j + 3)[1] == s[j + 1]);
        assert(s.subrange(j, j + 3)[2] == s[j + 2]);
        lemma_plain_first(*a, false);
        assert(s.subrange(k + 1, j)[0] == s[k + 1]);
        lemma_ws_here(s, k + 1);
        lemma_no_declaration(*a, s, k + 1, false);
        lemma_atom_reads(*a, s, k + 1);
        let (a2, j2) = atom_p(s, k + 1)->Some_0;
        assert(s.subrange(j, j + 3).subrange(0, 2) =~= ".2"@);
        lemma_piece(s, j, s.subrange(j, j + 3), 0, 2);
        assert(lit_at(s, j, ".2"@));
        if lit_at(s, j, ".1"@) {
            assert(s.subrange(j, j + 2)[1] == s[j + 1]);
        }
        lemma_ws_here(s, j);
        lemma_no_expression(s, j);
        reveal_strlit("->");
        reveal_strlit("*");
        reveal_strlit("\\times");
        reveal_strlit("×");
        lemma_lit_first(s, j, "->"@);
        lemma_lit_first(s, j, "*"@);
        lemma_lit_first(s, j, "\\times"@);
        lemma_lit_first(s, j, "×"@);
        assert(times_tok(s, j) is None);
        assert(follow_p(s, k + 1, a2, j) == Some((Expression::Second(Box::new(a2)), j + 2)));
        assert(expression_p(s, k + 1) == Some((Expression::Second(Box::new(a2)), j + 2)));
        lemma_ws_here(s, j + 2);
        assert(s.subrange(k, k + 1) =~= "("@);
        assert(tok(s, i, "("@) == Some(k + 1));
        assert(s.subrange(j + 2, j + 2 + 1) =~= ")"@);
        assert(tok(s, j + 2, ")"@) == Some(j + 2 + 1));
        assert(paren_p(s, i) == Some((Expression::Second(Box::new(a2)), j + 3)));
        assert(atom_p(s, i) == paren_p(s, i));

    }
}

/// `(M N)` reads back as itself.
#[verifier::rlimit(30)]
proof fn lemma_atom_application(e: Expression, s: Seq<char>, i: int)
    requires
        e is Application,
        plain_expression(e, false),
        0 <= i <= ws(s, i),
        written_at(s, ws(s, i), expression_text(e)),
        !ident_char_at(s, ws(s, i) + expression_text(e).len()),
    ensures
        atom_p(s, i) matches Some((e2, j)) && j == ws(s, i) + expression_text(e).len() && expression_equiv(e, e2),
    decreases e, 0int,
{
    let k = ws(s, i);
    let t = expression_text(e);
    let lt: int = t.len() as int;
    lemma_plain_first(e, false);
    reveal_strlit("(");
    reveal_strlit(")");
    reveal_strlit("0");
    reveal_strlit("1");
    reveal_strlit("Type");
    reveal_strlit("U");
    reveal_strlit("Sum");
    reveal_strlit("sum");
    reveal_strlit("split");
    reveal_strlit("λ");
    reveal_strlit("\\lambda");
    reveal_strlit("Π");
    reveal_strlit("\\Pi");
    reveal_strlit("Σ");
    reveal_strlit("\\Sigma");
    reveal_strlit("let");
    reveal_strlit("rec");
    reveal_strlit(".1)");
    reveal_strlit(".2)");
    reveal_strlit(".1");
    reveal_strlit(".2");
    reveal_strlit(" ");
    reveal_strlit(", ");
    reveal_strlit(",");
    assert(s.subrange(k, k + t.len())[0] == s[k]);
    if !(e is Var) {
        lemma_lit_first(s, k, "Type"@);
        lemma_lit_first(s, k, "U"@);
        lemma_lit_first(s, k, "Sum"@);
        lemma_lit_first(s, k, "sum"@);
        lemma_lit_first(s, k, "split"@);
    }
    lemma_lit_first(s, k, "λ"@);
    lemma_lit_first(s, k, "\\lambda"@);
    lemma_lit_first(s, k, "Π"@);
    lemma_lit_first(s, k, "\\Pi"@);
    lemma_lit_first(s, k, "Σ"@);
    lemma_lit_first(s, k, "\\Sigma"@);
    if let Expression::Application(f, x) = e {
        let tf = expression_text(*f);
        let lf: int = tf.len() as int;
        let tx = expression_text(*x);
        let lx: int = tx.len() as int;
        lemma_piece(s, k, t, 1, 1 + lf);
        assert(t.subrange(1, 1 + lf) =~= tf);
        lemma_piece(s, k, t, 2 + lf, 2 + lf + lx);
        assert(t.subrange(2 + lf, 2 + lf + lx) =~= tx);
        let j = k + 1 + lf;
        let m = j + 1 + lx;
        assert(s.subrange(k, k + t.len())[1 + lf] == s[j]);
        assert(s.subrange(k, k + t.len())[lt - 1] == s[m]);
        lemma_plain_first(*f, false);
        lemma_plain_first(*x, true);
        assert(s.subrange(k + 1, j)[0] == s[k + 1]);
        assert(s.subrange(j + 1, m)[0] == s[j + 1]);
        lemma_ws_here(s, k + 1);
        lemma_no_declaration(*f, s, k + 1, false);
        lemma_atom_reads(*f, s, k + 1);
        let (f2, j2) = atom_p(s, k + 1)->Some_0;
        lemma_ws_one(s, j);
        lemma_expression_reads(*x, s, j);
        let (x2, m2) = expression_p(s, j)->Some_0;
        assert(follow_p(s, k + 1, f2, j) == Some((Expression::Application(Box::new(f2), Box::new(x2)), m)));
        assert(expression_p(s, k + 1) == Some((Expression::Application(Box::new(f2), Box::new(x2)), m)));
        lemma_ws_here(s, m);
        assert(s.subrange(k, k + 1) =~= "("@);
        assert(tok(s, i, "("@) == Some(k + 1));
        assert(s.subrange(m, m + 1) =~= ")"@);
        assert(tok(s, m, ")"@) == Some(m + 1));
        assert(paren_p(s, i) == Some((Expression::Application(Box::new(f2), Box::new(x2)), m + 1)));
        assert(atom_p(s, i) == paren_p(s, i));

    }
}

/// `(M, N)` reads back as itself.
#[verifier::rlimit(30)]
proof fn lemma_atom_pair(e: Expression, s: Seq<char>, i: int)
    requires
        e is Pair,
        plain_expression(e, false),
        0 <= i <= ws(s, i),
        written_at(s, ws(s, i), expression_text(e)),
        !ident_char_at(s, ws(s, i) + expression_text(e).len()),
    ensures
        atom_p(s, i) matches Some((e2, j)) && j == ws(s, i) + expression_text(e).len() && expression_equiv(e, e2),
    decreases e, 0int,
{
    let k = ws(s, i);
    let t = expression_text(e);
    let lt: int = t.len() as int;
    lemma_plain_first(e, false);
    reveal_strlit("(");
    reveal_strlit(")");
    reveal_strlit("0");
    reveal_strlit("1");
    reveal_strlit("Type");
    reveal_strlit("U");
    reveal_strlit("Sum");
    reveal_strlit("sum");
    reveal_strlit("split");
    reveal_strlit("λ");
    reveal_strlit("\\lambda");
    reveal_strlit("Π");
    reveal_strlit("\\Pi");
    reveal_strlit("Σ");
    reveal_strlit("\\Sigma");
    reveal_strlit("let");
    reveal_strlit("rec");
    reveal_strlit(".1)");
    reveal_strlit(".2)");
    reveal_strlit(".1");
    reveal_strlit(".2");
    reveal_strlit(" ");
    reveal_strlit(", ");
    reveal_strlit(",");
    assert(s.subrange(k, k + t.len())[0] == s[k]);
    if !(e is Var) {
        lemma_lit_first(s, k, "Type"@);
        lemma_lit_first(s, k, "U"@);
        lemma_lit_first(s, k, "Sum"@);
        lemma_lit_first(s, k, "sum"@);
        lemma_lit_first(s, k, "split"@);
    }
    lemma_lit_first(s, k, "λ"@);
    lemma_lit_first(s, k, "\\lambda"@);
    lemma_lit_first(s, k, "Π"@);
    lemma_lit_first(s, k, "\\Pi"@);
    lemma_lit_first(s, k, "Σ"@);
    lemma_lit_first(s, k, "\\Sigma"@);
    if let Expression::Pair(a, b) = e {
        let ta = expression_text(*a);
        let la: int = ta.len() as int;
        let tb = expression_text(*b);
        let lb: int = tb.len() as int;
        lemma_piece(s, k, t, 1, 1 + la);
        assert(t.subrange(1, 1 + la) =~= ta);
        lemma_piece(s, k, t, 3 + la, 3 + la + lb);
        assert(t.subrange(3 + la, 3 + la + lb) =~= tb);
        let j = k + 1 + la;
        let m = j + 2 + lb;
        assert(s.subrange(k, k + t.len())[1 + la] == s[j]);
        assert(s.subrange(k, k + t.len())[2 + la] == s[j + 1]);
        assert(s.subrange(k, k + t.len())[lt - 1] == s[m]);
        lemma_plain_first(*a, false);
        lemma_plain_first(*b, true);
        assert(s.subrange(k + 1, j)[0] == s[k + 1]);
        assert(s.subrange(j + 2, m)[0] == s[j + 2]);
        lemma_ws_here(s, k + 1);
        lemma_no_declaration(*a, s, k + 1, false);
        lemma_atom_reads(*a, s, k + 1);
        let (a2, j2) = atom_p(s, k + 1)->Some_0;
        lemma_ws_here(s, j);
        assert(s.subrange(j, j + 1) =~= ","@);
        assert(tok(s, j, ","@) == Some(j + 1));
        lemma_ws_one(s, j + 1);
        lemma_expression_reads(*b, s, j + 1);
        let (b2, m2) = expression_p(s, j + 1)->Some_0;
        lemma_no_expression(s, j);
        reveal_strlit("->");
        reveal_strlit("*");
        reveal_strlit("\\times");
        reveal_strlit("×");
        lemma_lit_first(s, j, "->"@);
        lemma_lit_first(s, j, "*"@);
        lemma_lit_first(s, j, "\\times"@);
        lemma_lit_first(s, j, "×"@);
        lemma_lit_first(s, j, ".1"@);
        lemma_lit_first(s, j, ".2"@);
        assert(times_tok(s, j) is None);
        assert(follow_p(s, k + 1, a2, j) == Some((Expression::Pair(Box::new(a2), Box::new(b2)), m)));
        assert(expression_p(s, k + 1) == Some((Expression::Pair(Box::new(a2), Box::new(b2)), m)));
        lemma_ws_here(s, m);
        assert(s.subrange(k, k + 1) =~= "("@);
        assert(tok(s, i, "("@) == Some(k + 1));
        assert(s.subrange(m, m + 1) =~= ")"@);
        assert(tok(s, m, ")"@) == Some(m + 1));
        assert(paren_p(s, i) == Some((Expression::Pair(Box::new(a2), Box::new(b2)), m + 1)));
        assert(atom_p(s, i) == paren_p(s, i));

    }
}

/// What the printer writes of a plain expression (names, `0`, `1`, universes, projections,
/// applications, pairs, and lambdas, Pi and Sigma types and constructors where nothing
/// follows them) the parser reads back as the same expression, names compared by
/// their characters.
pub proof fn lemma_round_trip(e: Expression)
    requires
        plain_expression(e, true),
    ensures
        parse_s(expression_text(e)) matches Some(p) && expression_equiv(e, p),
{
    let s = expression_text(e);
    lemma_plain_first(e, true);
    lemma_ws_here(s, 0);
    assert(s.subrange(0, s.len() as int) =~= s);
    lemma_expression_reads(e, s, 0);
}

/// Programs made of `let` and `rec` declarations without prefix parameters, over
/// plain patterns, signatures and bodies, one after the other.
pub open spec fn plain_program(e: Expression) -> bool
    decreases e,
{
    match e {
        Expression::Declaration(d, rest) => d.prefix_parameters is Nil && plain_pattern(d.pattern) && plain_expression(
            d.signature,
            true,
        ) && plain_expression(d.body, true) && (*rest is Void || plain_program(*rest)),
        _ => false,
    }
}

/// A line break is white space.
proof fn lemma_ws_newline(s: Seq<char>, j: int)
    requires
        0 <= j < s.len(),
        s[j] == '\n',
    ensures
        ws(s, j) == ws(s, j + 1),
{
}

/// How `kw p: S = M;` followed by a line break, the rest and a line break is laid out.
proof fn lemma_declaration_layout(
    s: Seq<char>,
    k: int,
    kw: Seq<char>,
    tp: Seq<char>,
    ts: Seq<char>,
    tm: Seq<char>,
    tr: Seq<char>,
)
    requires
        written_at(s, k, kw + " "@ + tp + Seq::<char>::empty() + ": "@ + ts + " = "@ + tm + ";\n"@ + tr + "\n"@),
        kw.len() == 3,
    ensures
        written_at(s, k, kw),
        s[k + 3] == ' ',
        written_at(s, k + 4, tp),
        s[k + 4 + tp.len()] == ':',
        s[k + 5 + tp.len()] == ' ',
        written_at(s, k + 6 + tp.len(), ts),
        s[k + 6 + tp.len() + ts.len()] == ' ',
        s[k + 7 + tp.len() + ts.len()] == '=',
        s[k + 8 + tp.len() + ts.len()] == ' ',
        written_at(s, k + 9 + tp.len() + ts.len(), tm),
        s[k + 9 + tp.len() + ts.len() + tm.len()] == ';',
        s[k + 10 + tp.len() + ts.len() + tm.len()] == '\n',
        written_at(s, k + 11 + tp.len() + ts.len() + tm.len(), tr),
        s[k + 11 + tp.len() + ts.len() + tm.len() + tr.len()] == '\n',
{
    reveal_strlit(" ");
    reveal_strlit(": ");
    reveal_strlit(" = ");
    reveal_strlit(";\n");
    reveal_strlit("\n");
    let t = kw + " "@ + tp + Seq::<char>::empty() + ": "@ + ts + " = "@ + tm + ";\n"@ + tr + "\n"@;
    let lt: int = t.len() as int;
    let lp: int = tp.len() as int;
    let ls: int = ts.len() as int;
    let lm: int = tm.len() as int;
    let lr: int = tr.len() as int;
    lemma_piece(s, k, t, 0, 3);
    assert(t.subrange(0, 3) =~= kw);
    lemma_piece(s, k, t, 4, 4 + lp);
    assert(t.subrange(4, 4 + lp) =~= tp);
    lemma_piece(s, k, t, 6 + lp, 6 + lp + ls);
    assert(t.subrange(6 + lp, 6 + lp + ls) =~= ts);
    lemma_piece(s, k, t, 9 + lp + ls, 9 + lp + ls + lm);
    assert(t.subrange(9 + lp + ls, 9 + lp + ls + lm) =~= tm);
    lemma_piece(s, k, t, 11 + lp + ls + lm, 11 + lp + ls + lm + lr);
    assert(t.subrange(11 + lp + ls + lm, 11 + lp + ls + lm + lr) =~= tr);
    assert(s.subrange(k, k + lt)[3] == s[k + 3]);
    assert(s.subrange(k, k + lt)[4 + lp] == s[k + 4 + lp]);
    assert(s.subrange(k, k + lt)[5 + lp] == s[k + 5 + lp]);
    assert(s.subrange(k, k + lt)[6 + lp + ls] == s[k + 6 + lp + ls]);
    assert(s.subrange(k, k + lt)[7 + lp + ls] == s[k + 7 + lp + ls]);
    assert(s.subrange(k, k + lt)[8 + lp + ls] == s[k + 8 + lp + ls]);
    assert(s.subrange(k, k + lt)[9 + lp + ls + lm] == s[k + 9 + lp + ls + lm]);
    assert(s.subrange(k, k + lt)[10 + lp + ls + lm] == s[k + 10 + lp + ls + lm]);
    assert(s.subrange(k, k + lt)[11 + lp + ls + lm + lr] == s[k + 11 + lp + ls + lm + lr]);
}

/// A printed plain program followed by nothing but white space reads back as itself.
#[verifier::rlimit(100)]
proof fn lemma_program_reads(e: Expression, s: Seq<char>, i: int)
    requires
        plain_program(e),
        0 <= i <= ws(s, i),
        written_at(s, ws(s, i), expression_text(e)),
        ws(s, ws(s, i) + expression_text(e).len()) == s.len(),
    ensures
        expression_p(s, i) matches Some((e2, _)) && expression_equiv(e, e2),
    decreases e,
{
    let k = ws(s, i);
    let t = expression_text(e);
    let lt: int = t.len() as int;
    reveal_strlit("let");
    reveal_strlit("rec");
    reveal_strlit("(");
    reveal_strlit(":");
    reveal_strlit("=");
    reveal_strlit(";");
    reveal_strlit(" ");
    reveal_strlit(": ");
    reveal_strlit(" = ");
    reveal_strlit(";\n");
    reveal_strlit("\n");
    if let Expression::Declaration(d, rest) = e {
        let kw = if d.is_recursive { "rec"@ } else { "let"@ };
        let tp = pattern_text(d.pattern);
        let ts = expression_text(d.signature);
        let tm = expression_text(d.body);
        let tr = expression_text(*rest);
        let lp: int = tp.len() as int;
        let ls: int = ts.len() as int;
        let lm: int = tm.len() as int;
        let lr: int = tr.len() as int;
        assert(prefix_text(d.prefix_parameters) == Seq::<char>::empty());
        assert(declaration_text(*d) == kw + " "@ + tp + Seq::<char>::empty() + ": "@ + ts + " = "@ + tm);
        assert(t =~= kw + " "@ + tp + Seq::<char>::empty() + ": "@ + ts + " = "@ + tm + ";\n"@ + tr + "\n"@);
        lemma_declaration_layout(s, k, kw, tp, ts, tm, tr);
        let a = k + 4 + lp;
        let c = a + 2 + ls;
        let dd = c + 3 + lm;
        lemma_pattern_first(d.pattern);
        lemma_plain_first(d.signature, true);
        lemma_plain_first(d.body, true);
        lemma_written_first(s, k + 4, tp);
        lemma_written_first(s, a + 2, ts);
        lemma_written_first(s, c + 3, tm);
        assert(word(s, i, if d.is_recursive { "rec"@ } else { "let"@ }) == Some(k + 3)) by {
            assert(s.subrange(k, k + 3) == kw);
        }
        assert(d.is_recursive ==> word(s, i, "let"@) is None) by {
            if d.is_recursive {
                lemma_written_first(s, k, kw);
                lemma_lit_first(s, k, "let"@);
            }
        }
        assert(pattern_p(s, k + 3) matches Some((p2, a2)) && pattern_equiv(d.pattern, p2) && a2 == a) by {
            lemma_ws_one(s, k + 3);
            lemma_pattern_reads(d.pattern, s, k + 3);
        }
        let (p2, a2) = pattern_p(s, k + 3)->Some_0;
        assert(parameters_p(s, a) == (List::<Typed>::Nil, a) && tok(s, a, ":"@) == Some(a + 1)) by {
            lemma_ws_here(s, a);
            lemma_lit_first(s, a, "("@);
            assert(s.subrange(a, a + 1) =~= ":"@);
        }
        assert(expression_p(s, a + 1) matches Some((s2, c2)) && expression_equiv(d.signature, s2) && c2 == c) by {
            lemma_ws_one(s, a + 1);
            lemma_expression_reads(d.signature, s, a + 1);
        }
        let (s2, c2) = expression_p(s, a + 1)->Some_0;
        assert(tok(s, c, "="@) == Some(c + 2)) by {
            lemma_ws_one(s, c);
            assert(s.subrange(c + 1, c + 2) =~= "="@);
        }
        assert(expression_p(s, c + 2) matches Some((m2, d2)) && expression_equiv(d.body, m2) && d2 == dd) by {
            lemma_ws_one(s, c + 2);
            lemma_expression_reads(d.body, s, c + 2);
        }
        let (m2, d2) = expression_p(s, c + 2)->Some_0;
        assert(tok(s, dd, ";"@) == Some(dd + 1)) by {
            lemma_ws_here(s, dd);
            assert(s.subrange(dd, dd + 1) =~= ";"@);
        }
        assert(rest_p(s, i, dd + 1) matches (r2, _) && expression_equiv(*rest, r2)) by {
            lemma_ws_newline(s, dd + 1);
            lemma_ws_newline(s, dd + 2 + lr);
            if *rest is Void {
                lemma_ws_bounds(s, dd + 2, false);
                lemma_no_expression(s, dd + 1);
            } else {
                lemma_program_first(*rest);
                lemma_written_first(s, dd + 2, tr);
                lemma_ws_here(s, dd + 2);
                lemma_program_reads(*rest, s, dd + 1);
            }
        }
        let (r2, f) = rest_p(s, i, dd + 1);
        let d_read = Declaration {
            pattern: p2,
            prefix_parameters: List::Nil,
            signature: s2,
            body: m2,
            is_recursive: d.is_recursive,
        };
        assert(declaration_rest_p(s, i, k + 3, d.is_recursive) == Some((Expression::Declaration(Box::new(d_read), Box::new(r2)), f)));
        assert(declaration_p(s, i) == Some((Expression::Declaration(Box::new(d_read), Box::new(r2)), f)));
        assert(crate::equiv::declaration_equiv(*d, d_read));
    }
}

/// A printed plain program starts with `let` or `rec`.
proof fn lemma_program_first(e: Expression)
    requires
        plain_program(e),
    ensures
        expression_text(e).len() > 0,
        expression_text(e)[0] == 'l' || expression_text(e)[0] == 'r',
{
    reveal_strlit("let");
    reveal_strlit("rec");
    if let Expression::Declaration(d, rest) = e {
        assert(declaration_text(*d)[0] == 'l' || declaration_text(*d)[0] == 'r');
    }
}

/// What the printer writes of a plain program (`let` and `rec` declarations over
/// plain patterns, signatures and bodies) the parser reads back as the same program.
pub proof fn lemma_round_trip_program(e: Expression)
    requires
        plain_program(e),
    ensures
        parse_s(expression_text(e)) matches Some(p) && expression_equiv(e, p),
{
    let s = expression_text(e);
    lemma_program_first(e);
    lemma_ws_here(s, 0);
    assert(s.subrange(0, s.len() as int) =~= s);
    lemma_program_reads(e, s, 0);
}

} // verus!

use vstd::prelude::*;

use crate::ast::{Branch, Declaration, Expression, Pattern, Typed};
use crate::equiv::{branch_equiv, expression_equiv, pattern_equiv, typed_list_equiv};
use crate::list::{branch_insert, branch_insert_exec, branch_wf, lemma_branch_insert_wf, List};

verus! {

// The concrete syntax, as a parsing expression grammar over characters. Every rule
// skips white space (blanks and `--` line comments) before each of its tokens,
// tries its alternatives in order, and commits to the first that succeeds.
//
// ```text
// expression  = declaration | constant | atom follow
// declaration = ("let" | "rec") pattern parameter* ":" expression "=" expression ";" expression?
// parameter   = "(" pattern ":" expression ")"
// constant    = "const" pattern "=" expression ";" expression?
// follow      = expression                    -- application, right-associative
//             | "->" expression               -- non-dependent function type
//             | ("*" | "\times" | "×") expression   -- non-dependent pair type
//             | ".1" | ".2" | "," expression | "++" expression
//             | (nothing)
// atom        = "(" expression ")" | universe
//             | ("Sum" | "sum") "{" entries "}" | "split" "{" choices "}"
//             | ("λ" | "\lambda") pattern "." expression
//             | ("Π" | "\Pi") pattern ":" expression "." expression
//             | ("Σ" | "\Sigma") pattern ":" expression "." expression
//             | "1" | "0" | constructor_name expression | identifier
// universe    = "Type" digit* | "U"
// entries     = (constructor_name expression ("|" constructor_name expression)*)?
// choices     = (constructor_name pattern "=>" expression ("|" ...)*)?
// pattern     = atom_pattern "," pattern | atom_pattern
// atom_pattern = identifier | "_" | "(" pattern ")"
// ```
//
// Identifiers start with a letter and go on with letters, digits, `_` and `'`; they
// do not start with `let` or `rec`. Constructor names start with an upper-case
// letter. The words `let`, `rec`, `const` and `U`, and a universe `Type` with its
// digits, are not followed by an identifier character; a universe's level fits in
// `u32`.

pub open spec fn is_space(c: char) -> bool {
    c == ' ' || c == '\t' || c == '\r' || c == '\n'
}

pub open spec fn is_upper(c: char) -> bool {
    'A' <= c && c <= 'Z'
}

pub open spec fn is_letter(c: char) -> bool {
    is_upper(c) || ('a' <= c && c <= 'z')
}

pub open spec fn is_digit(c: char) -> bool {
    '0' <= c && c <= '9'
}

pub open spec fn is_ident_char(c: char) -> bool {
    is_letter(c) || is_digit(c) || c == '_' || c == '\''
}

/// The position after the white space and comments that start at `i`
/// (`comment`: `i` is inside a line comment).
pub open spec fn skip_ws(s: Seq<char>, i: int, comment: bool) -> int
    decreases s.len() - i,
{
    if i < 0 || i >= s.len() {
        i
    } else if comment {
        skip_ws(s, i + 1, s[i] != '\n')
    } else if is_space(s[i]) {
        skip_ws(s, i + 1, false)
    } else if s[i] == '-' && i + 1 < s.len() && s[i + 1] == '-' {
        skip_ws(s, i + 2, true)
    } else {
        i
    }
}

pub open spec fn ws(s: Seq<char>, i: int) -> int {
    skip_ws(s, i, false)
}

/// `w` stands at position `i`.
pub open spec fn lit_at(s: Seq<char>, i: int, w: Seq<char>) -> bool {
    0 <= i && i + w.len() <= s.len() && s.subrange(i, i + w.len()) == w
}

/// After white space, the token `w`; the position after it.
pub open spec fn tok(s: Seq<char>, i: int, w: Seq<char>) -> Option<int> {
    let k = ws(s, i);
    if lit_at(s, k, w) {
        Some(k + w.len())
    } else {
        None
    }
}

pub open spec fn ident_char_at(s: Seq<char>, i: int) -> bool {
    0 <= i < s.len() && is_ident_char(s[i])
}

/// After white space, the keyword `w`, not followed by an identifier character.
pub open spec fn word(s: Seq<char>, i: int, w: Seq<char>) -> Option<int> {
    let k = ws(s, i);
    if lit_at(s, k, w) && !ident_char_at(s, k + w.len()) {
        Some(k + w.len())
    } else {
        None
    }
}

/// The end of the run of identifier characters that starts at `i`.
pub open spec fn ident_end(s: Seq<char>, i: int) -> int
    decreases s.len() - i,
{
    if ident_char_at(s, i) {
        ident_end(s, i + 1)
    } else {
        i
    }
}

/// The end of the run of digits that starts at `i`.
pub open spec fn digits_end(s: Seq<char>, i: int) -> int
    decreases s.len() - i,
{
    if 0 <= i < s.len() && is_digit(s[i]) {
        digits_end(s, i + 1)
    } else {
        i
    }
}

/// The number written by the digits from `i` to `j`.
pub open spec fn digits_value(s: Seq<char>, i: int, j: int) -> int
    decreases j - i,
{
    if j <= i {
        0
    } else {
        digits_value(s, i, j - 1) * 10 + (s[j - 1] as int - '0' as int)
    }
}

/// After white space, an identifier: its start and its end.
pub open spec fn ident_at(s: Seq<char>, i: int) -> Option<(int, int)> {
    let k = ws(s, i);
    if 0 <= k < s.len() && is_letter(s[k]) && !lit_at(s, k, "let"@) && !lit_at(s, k, "rec"@) {
        Some((k, ident_end(s, k)))
    } else {
        None
    }
}

/// After white space, a constructor name: its start and its end.
pub open spec fn constructor_at(s: Seq<char>, i: int) -> Option<(int, int)> {
    let k = ws(s, i);
    if 0 <= k < s.len() && is_upper(s[k]) {
        Some((k, ident_end(s, k)))
    } else {
        None
    }
}

/// A string of the given characters.
pub open spec fn str_of(q: Seq<char>) -> String {
    choose|x: String| x@ == q
}

/// The name written from `a` to `b`.
pub open spec fn name_at(s: Seq<char>, a: int, b: int) -> String {
    str_of(s.subrange(a, b))
}

/// `k` is a position after `i` and within the text.
pub open spec fn adv(s: Seq<char>, i: int, k: int) -> bool {
    i < k <= s.len()
}

/// A universe: `Type` followed by its level (none meaning 0), or `U`.
pub open spec fn universe_p(s: Seq<char>, i: int) -> Option<(Expression, int)> {
    match tok(s, i, "Type"@) {
        Some(j) => {
            let d = digits_end(s, j);
            let v = digits_value(s, j, d);
            if ident_char_at(s, d) || v > u32::MAX {
                None
            } else {
                Some((Expression::Type(v as u32), d))
            }
        },
        None => match word(s, i, "U"@) {
            Some(j) => Some((Expression::Type(0), j)),
            None => None,
        },
    }
}

/// The token of a non-dependent pair type.
pub open spec fn times_tok(s: Seq<char>, i: int) -> Option<int> {
    match tok(s, i, "*"@) {
        Some(k) => Some(k),
        None => match tok(s, i, "\\times"@) {
            Some(k) => Some(k),
            None => tok(s, i, "×"@),
        },
    }
}

pub open spec fn expression_p(s: Seq<char>, i: int) -> Option<(Expression, int)>
    decreases s.len() - i, 7int,
{
    if i < 0 || i > s.len() {
        None
    } else {
        match declaration_p(s, i) {
            Some(r) => Some(r),
            None => match constant_p(s, i) {
                Some(r) => Some(r),
                None => match atom_p(s, i) {
                    Some((a, j)) => follow_p(s, i, a, j),
                    None => None,
                },
            },
        }
    }
}

/// What may follow the atom `a`, which ends at `j` (it started at `i`).
pub open spec fn follow_p(s: Seq<char>, i: int, a: Expression, j: int) -> Option<(Expression, int)>
    decreases s.len() - i, 6int,
{
    if !adv(s, i, j) {
        None
    } else {
        match expression_p(s, j) {
            Some((e, k)) => Some((Expression::Application(Box::new(a), Box::new(e)), k)),
            None => match after_p(s, i, tok(s, j, "->"@)) {
                Some((e, k)) => Some((Expression::Pi(Typed { pattern: Pattern::Unit, expression: Box::new(a) }, Box::new(e)), k)),
                None => match after_p(s, i, times_tok(s, j)) {
                    Some((e, k)) => Some((Expression::Sigma(Typed { pattern: Pattern::Unit, expression: Box::new(a) }, Box::new(e)), k)),
                    None => match tok(s, j, ".1"@) {
                        Some(k) => Some((Expression::First(Box::new(a)), k)),
                        None => match tok(s, j, ".2"@) {
                            Some(k) => Some((Expression::Second(Box::new(a)), k)),
                            None => match after_p(s, i, tok(s, j, ","@)) {
                                Some((e, k)) => Some((Expression::Pair(Box::new(a), Box::new(e)), k)),
                                None => match after_p(s, i, tok(s, j, "++"@)) {
                                    Some((e, k)) => Some((Expression::Merge(Box::new(a), Box::new(e)), k)),
                                    None => Some((a, j)),
                                },
                            },
                        },
                    },
                },
            },
        }
    }
}

/// An expression after a token that ended at `t` (a rule that started at `i`).
pub open spec fn after_p(s: Seq<char>, i: int, t: Option<int>) -> Option<(Expression, int)>
    decreases s.len() - i, 0int,
{
    match t {
        Some(k) => if adv(s, i, k) {
            expression_p(s, k)
        } else {
            None
        },
        None => None,
    }
}

/// An expression at `k` where one may stand, or else nothing (`Void`).
pub open spec fn rest_p(s: Seq<char>, i: int, k: int) -> (Expression, int)
    decreases s.len() - i, 1int,
{
    match after_p(s, i, Some(k)) {
        Some(r) => r,
        None => (Expression::Void, k),
    }
}

/// `let` or `rec` declarations.
pub open spec fn declaration_p(s: Seq<char>, i: int) -> Option<(Expression, int)>
    decreases s.len() - i, 6int,
{
    match word(s, i, "let"@) {
        Some(k) => declaration_rest_p(s, i, k, false),
        None => match word(s, i, "rec"@) {
            Some(k) => declaration_rest_p(s, i, k, true),
            None => None,
        },
    }
}

/// A declaration after its keyword, which ends at `k`.
pub open spec fn declaration_rest_p(s: Seq<char>, i: int, k: int, is_recursive: bool) -> Option<(Expression, int)>
    decreases s.len() - i, 5int,
{
    if !adv(s, i, k) {
        None
    } else {
        match pattern_p(s, k) {
            Some((p, a)) => if !adv(s, i, a) {
                None
            } else {
                let (params, b) = parameters_p(s, a);
                if !(a <= b <= s.len()) {
                    None
                } else {
                    match after_p(s, i, tok(s, b, ":"@)) {
                        Some((signature, c)) => match after_p(s, i, tok(s, c, "="@)) {
                            Some((body, d)) => match tok(s, d, ";"@) {
                                Some(e) => if !adv(s, i, e) {
                                    None
                                } else {
                                    let (rest, f) = rest_p(s, i, e);
                                    let declaration = Declaration {
                                        pattern: p,
                                        prefix_parameters: params,
                                        signature,
                                        body,
                                        is_recursive,
                                    };
                                    Some((Expression::Declaration(Box::new(declaration), Box::new(rest)), f))
                                },
                                None => None,
                            },
                            None => None,
                        },
                        None => None,
                    }
                }
            },
            None => None,
        }
    }
}

/// Parameters before the signature of a declaration: `(p: A)`, as many as stand.
pub open spec fn parameters_p(s: Seq<char>, i: int) -> (List<Typed>, int)
    decreases s.len() - i, 5int,
{
    match tok(s, i, "("@) {
        Some(k) => if !adv(s, i, k) {
            (List::Nil, i)
        } else {
            match pattern_p(s, k) {
                Some((p, a)) => match after_p(s, i, tok(s, a, ":"@)) {
                    Some((t, b)) => match tok(s, b, ")"@) {
                        Some(c) => if !adv(s, i, c) {
                            (List::Nil, i)
                        } else {
                            let (rest, d) = parameters_p(s, c);
                            (List::Cons(Typed { pattern: p, expression: Box::new(t) }, Box::new(rest)), d)
                        },
                        None => (List::Nil, i),
                    },
                    None => (List::Nil, i),
                },
                None => (List::Nil, i),
            }
        },
        None => (List::Nil, i),
    }
}

/// `const p = M; N`.
pub open spec fn constant_p(s: Seq<char>, i: int) -> Option<(Expression, int)>
    decreases s.len() - i, 6int,
{
    match word(s, i, "const"@) {
        Some(k) => if !adv(s, i, k) {
            None
        } else {
            match pattern_p(s, k) {
                Some((p, a)) => match after_p(s, i, tok(s, a, "="@)) {
                    Some((body, b)) => match tok(s, b, ";"@) {
                        Some(c) => if !adv(s, i, c) {
                            None
                        } else {
                            let (rest, d) = rest_p(s, i, c);
                            Some((Expression::Constant(p, Box::new(body), Box::new(rest)), d))
                        },
                        None => None,
                    },
                    None => None,
                },
                None => None,
            }
        },
        None => None,
    }
}

pub open spec fn atom_p(s: Seq<char>, i: int) -> Option<(Expression, int)>
    decreases s.len() - i, 5int,
{
    match paren_p(s, i) {
        Some(r) => Some(r),
        None => match universe_p(s, i) {
            Some(r) => Some(r),
            None => match sum_p(s, i) {
                Some(r) => Some(r),
                None => match split_p(s, i) {
                    Some(r) => Some(r),
                    None => match lambda_p(s, i) {
                        Some(r) => Some(r),
                        None => match binder_p(s, i, true) {
                            Some(r) => Some(r),
                            None => match binder_p(s, i, false) {
                                Some(r) => Some(r),
                                None => match tok(s, i, "1"@) {
                                    Some(k) => Some((Expression::One, k)),
                                    None => match tok(s, i, "0"@) {
                                        Some(k) => Some((Expression::Unit, k)),
                                        None => match constructor_p(s, i) {
                                            Some(r) => Some(r),
                                            None => match ident_at(s, i) {
                                                Some((a, b)) => Some((Expression::Var(name_at(s, a, b)), b)),
                                                None => None,
                                            },
                                        },
                                    },
                                },
                            },
                        },
                    },
                },
            },
        },
    }
}

/// `(M)`.
pub open spec fn paren_p(s: Seq<char>, i: int) -> Option<(Expression, int)>
    decreases s.len() - i, 4int,
{
    match tok(s, i, "("@) {
        Some(k) => if !adv(s, i, k) {
            None
        } else {
            match expression_p(s, k) {
                Some((e, a)) => match tok(s, a, ")"@) {
                    Some(b) => Some((e, b)),
                    None => None,
                },
                None => None,
            }
        },
        None => None,
    }
}

/// `Sum { C M | ... }`.
pub open spec fn sum_p(s: Seq<char>, i: int) -> Option<(Expression, int)>
    decreases s.len() - i, 4int,
{
    let t = match tok(s, i, "Sum"@) {
        Some(k) => Some(k),
        None => tok(s, i, "sum"@),
    };
    match t {
        Some(k) => match tok(s, k, "{"@) {
            Some(a) => if !adv(s, i, a) {
                None
            } else {
                match branches_p(s, a, false) {
                    Some((b, c)) => Some((Expression::Sum(b), c)),
                    None => None,
                }
            },
            None => None,
        },
        None => None,
    }
}

/// `split { C p => M | ... }`.
pub open spec fn split_p(s: Seq<char>, i: int) -> Option<(Expression, int)>
    decreases s.len() - i, 4int,
{
    match tok(s, i, "split"@) {
        Some(k) => match tok(s, k, "{"@) {
            Some(a) => if !adv(s, i, a) {
                None
            } else {
                match branches_p(s, a, true) {
                    Some((b, c)) => Some((Expression::Split(b), c)),
                    None => None,
                }
            },
            None => None,
        },
        None => None,
    }
}

/// The entries of a sum (or, with `choices`, the clauses of a split) after the
/// opening brace, and the closing brace.
pub open spec fn branches_p(s: Seq<char>, i: int, choices: bool) -> Option<(Branch, int)>
    decreases s.len() - i, 4int,
{
    match entry_p(s, i, choices) {
        Some((name, e, k)) => if !adv(s, i, k) {
            None
        } else {
            more_branches_p(s, k, branch_insert(List::Nil, name, e), choices)
        },
        None => close_p(s, i, List::Nil),
    }
}

/// Further entries, each after a `|`, then the closing brace.
pub open spec fn more_branches_p(s: Seq<char>, i: int, acc: Branch, choices: bool) -> Option<(Branch, int)>
    decreases s.len() - i, 3int,
{
    match tok(s, i, "|"@) {
        Some(k) => if !adv(s, i, k) {
            None
        } else {
            match entry_p(s, k, choices) {
                Some((name, e, a)) => if !adv(s, i, a) {
                    None
                } else {
                    more_branches_p(s, a, branch_insert(acc, name, e), choices)
                },
                None => close_p(s, i, acc),
            }
        },
        None => close_p(s, i, acc),
    }
}

pub open spec fn close_p(s: Seq<char>, i: int, acc: Branch) -> Option<(Branch, int)> {
    match tok(s, i, "}"@) {
        Some(k) => Some((acc, k)),
        None => None,
    }
}

/// One entry: `C M` in a sum, `C p => M` in a split (stored as `λ p. M`).
pub open spec fn entry_p(s: Seq<char>, i: int, choices: bool) -> Option<(String, Expression, int)>
    decreases s.len() - i, 2int,
{
    match constructor_at(s, i) {
        Some((a, b)) => if !adv(s, i, b) {
            None
        } else if choices {
            match pattern_p(s, b) {
                Some((p, c)) => match after_p(s, i, tok(s, c, "=>"@)) {
                    Some((e, d)) => Some((name_at(s, a, b), Expression::Lambda(p, None, Box::new(e)), d)),
                    None => None,
                },
                None => None,
            }
        } else {
            match after_p(s, i, Some(b)) {
                Some((e, c)) => Some((name_at(s, a, b), e, c)),
                None => None,
            }
        },
        None => None,
    }
}

/// `λ p. M`.
pub open spec fn lambda_p(s: Seq<char>, i: int) -> Option<(Expression, int)>
    decreases s.len() - i, 4int,
{
    let t = match tok(s, i, "λ"@) {
        Some(k) => Some(k),
        None => tok(s, i, "\\lambda"@),
    };
    match t {
        Some(k) => if !adv(s, i, k) {
            None
        } else {
            match pattern_p(s, k) {
                Some((p, a)) => match after_p(s, i, tok(s, a, "."@)) {
                    Some((e, b)) => Some((Expression::Lambda(p, None, Box::new(e)), b)),
                    None => None,
                },
                None => None,
            }
        },
        None => None,
    }
}

/// `Π p: A. B` (with `pi`) or `Σ p: A. B`.
pub open spec fn binder_p(s: Seq<char>, i: int, pi: bool) -> Option<(Expression, int)>
    decreases s.len() - i, 4int,
{
    let t = if pi {
        match tok(s, i, "Π"@) {
            Some(k) => Some(k),
            None => tok(s, i, "\\Pi"@),
        }
    } else {
        match tok(s, i, "Σ"@) {
            Some(k) => Some(k),
            None => tok(s, i, "\\Sigma"@),
        }
    };
    match t {
        Some(k) => if !adv(s, i, k) {
            None
        } else {
            match pattern_p(s, k) {
                Some((p, a)) => match after_p(s, i, tok(s, a, ":"@)) {
                    Some((t, b)) => match after_p(s, i, tok(s, b, "."@)) {
                        Some((e, c)) => {
                            let typed = Typed { pattern: p, expression: Box::new(t) };
                            if pi {
                                Some((Expression::Pi(typed, Box::new(e)), c))
                            } else {
                                Some((Expression::Sigma(typed, Box::new(e)), c))
                            }
                        },
                        None => None,
                    },
                    None => None,
                },
                None => None,
            }
        },
        None => None,
    }
}

/// `C M`.
pub open spec fn constructor_p(s: Seq<char>, i: int) -> Option<(Expression, int)>
    decreases s.len() - i, 4int,
{
    match constructor_at(s, i) {
        Some((a, b)) => match after_p(s, i, Some(b)) {
            Some((e, c)) => Some((Expression::Constructor(name_at(s, a, b), Box::new(e)), c)),
            None => None,
        },
        None => None,
    }
}

pub open spec fn pattern_p(s: Seq<char>, i: int) -> Option<(Pattern, int)>
    decreases s.len() - i, 4int,
{
    match atom_pattern_p(s, i) {
        Some((p, j)) => match tok(s, j, ","@) {
            Some(k) => if !adv(s, i, k) {
                Some((p, j))
            } else {
                match pattern_p(s, k) {
                    Some((q, a)) => Some((Pattern::Pair(Box::new(p), Box::new(q)), a)),
                    None => Some((p, j)),
                }
            },
            None => Some((p, j)),
        },
        None => None,
    }
}

pub open spec fn atom_pattern_p(s: Seq<char>, i: int) -> Option<(Pattern, int)>
    decreases s.len() - i, 3int,
{
    match ident_at(s, i) {
        Some((a, b)) => Some((Pattern::Var(name_at(s, a, b)), b)),
        None => match tok(s, i, "_"@) {
            Some(k) => Some((Pattern::Unit, k)),
            None => match tok(s, i, "("@) {
                Some(k) => if !adv(s, i, k) {
                    None
                } else {
                    match pattern_p(s, k) {
                        Some((p, a)) => match tok(s, a, ")"@) {
                            Some(b) => Some((p, b)),
                            None => None,
                        },
                        None => None,
                    }
                },
                None => None,
            },
        },
    }
}

/// The expression at the start of `input` (what follows it is not read).
pub open spec fn parse_s(input: Seq<char>) -> Option<Expression> {
    match expression_p(input, 0) {
        Some((e, _)) => Some(e),
        None => None,
    }
}

/// The further entries of a sum or a split are stored in order, each name once.
pub proof fn lemma_more_branches_wf(s: Seq<char>, i: int, acc: Branch, choices: bool)
    requires
        branch_wf(acc),
    ensures
        more_branches_p(s, i, acc, choices) matches Some((b, _)) ==> branch_wf(b),
    decreases s.len() - i,
{
    if let Some(k) = tok(s, i, "|"@) {
        if adv(s, i, k) {
            if let Some((name, e, a)) = entry_p(s, k, choices) {
                if adv(s, i, a) {
                    lemma_branch_insert_wf(acc, name, e);
                    lemma_more_branches_wf(s, a, branch_insert(acc, name, e), choices);
                }
            }
        }
    }
}

/// The entries of a sum or a split are stored in order, each name once.
pub proof fn lemma_branches_wf(s: Seq<char>, i: int, choices: bool)
    ensures
        branches_p(s, i, choices) matches Some((b, _)) ==> branch_wf(b),
{
    if let Some((name, e, k)) = entry_p(s, i, choices) {
        if adv(s, i, k) {
            lemma_branch_insert_wf(List::Nil, name, e);
            lemma_more_branches_wf(s, k, branch_insert(List::Nil, name, e), choices);
        }
    }
}

/// The sums and splits that the parser reads keep their entries in ascending order of
/// their names, each name once, whatever order they were written in (a name written
/// twice keeps its first place and its last entry).
pub proof fn lemma_parsed_branches_wf(s: Seq<char>, i: int)
    ensures
        sum_p(s, i) matches Some((Expression::Sum(b), _)) ==> branch_wf(b),
        split_p(s, i) matches Some((Expression::Split(b), _)) ==> branch_wf(b),
{
    let t = match tok(s, i, "Sum"@) {
        Some(k) => Some(k),
        None => tok(s, i, "sum"@),
    };
    if let Some(k) = t {
        if let Some(a) = tok(s, k, "{"@) {
            lemma_branches_wf(s, a, false);
        }
    }
    if let Some(k) = tok(s, i, "split"@) {
        if let Some(a) = tok(s, k, "{"@) {
            lemma_branches_wf(s, a, true);
        }
    }
}

/// The text being read: its characters, for scanning, and the text itself, from
/// which names are cut.
struct Source<'a> {
    chars: Vec<char>,
    text: &'a str,
}

impl<'a> Source<'a> {
    spec fn s(&self) -> Seq<char> {
        self.chars@
    }

    spec fn wf(&self) -> bool {
        self.chars@ == self.text@
    }
}

/// An executable result stands for a result of the grammar: equal expressions up to
/// the names' storage, at the same position.
pub open spec fn expr_res(r: Option<(Expression, usize)>, p: Option<(Expression, int)>, n: int) -> bool {
    match (r, p) {
        (Some((e, j)), Some((q, k))) => expression_equiv(e, q) && j == k && j <= n,
        (None, None) => true,
        _ => false,
    }
}

pub open spec fn pat_res(r: Option<(Pattern, usize)>, p: Option<(Pattern, int)>, n: int) -> bool {
    match (r, p) {
        (Some((e, j)), Some((q, k))) => pattern_equiv(e, q) && j == k && j <= n,
        (None, None) => true,
        _ => false,
    }
}

pub open spec fn branch_res(r: Option<(Branch, usize)>, p: Option<(Branch, int)>, n: int) -> bool {
    match (r, p) {
        (Some((e, j)), Some((q, k))) => branch_equiv(e, q) && j == k && j <= n,
        (None, None) => true,
        _ => false,
    }
}

pub open spec fn entry_res(r: Option<(String, Expression, usize)>, p: Option<(String, Expression, int)>, n: int) -> bool {
    match (r, p) {
        (Some((x, e, j)), Some((y, q, k))) => x@ == y@ && expression_equiv(e, q) && j == k && j <= n,
        (None, None) => true,
        _ => false,
    }
}

pub open spec fn pos_res(r: Option<usize>, p: Option<int>, n: int) -> bool {
    match (r, p) {
        (Some(j), Some(k)) => j == k && j <= n,
        (None, None) => true,
        _ => false,
    }
}

pub open spec fn span_res(r: Option<(usize, usize)>, p: Option<(int, int)>, n: int) -> bool {
    match (r, p) {
        (Some((a, b)), Some((c, d))) => a == c && b == d && a < b <= n,
        (None, None) => true,
        _ => false,
    }
}

/// A string's characters are those of the string that `str_of` picks for them.
pub proof fn lemma_str_of(x: String)
    ensures
        str_of(x@)@ == x@,
{
    assert(exists|y: String| #![trigger y.view()] y.view() == x.view()) by {
        assert(x.view() == x.view());
    }
}

proof fn lemma_ident_end_ge(s: Seq<char>, i: int)
    ensures
        ident_end(s, i) >= i,
    decreases s.len() - i,
{
    if ident_char_at(s, i) {
        lemma_ident_end_ge(s, i + 1);
    }
}

/// Storing equivalent entries in equivalent branches gives equivalent branches.
pub proof fn lemma_branch_insert_equiv(a: Branch, b: Branch, ka: String, kb: String, va: Expression, vb: Expression)
    requires
        branch_equiv(a, b),
        ka@ == kb@,
        expression_equiv(va, vb),
    ensures
        branch_equiv(branch_insert(a, ka, va), branch_insert(b, kb, vb)),
    decreases a,
{
    match (a, b) {
        (List::Cons(x, xs), List::Cons(y, ys)) => {
            if x.0@ != ka@ && !crate::strings::str_less(ka@, x.0@) {
                lemma_branch_insert_equiv(*xs, *ys, ka, kb, va, vb);
            }
        },
        _ => {},
    }
}

fn skip_ws_at(src: &Source, i: usize) -> (r: usize)
    requires
        i <= src.s().len(),
    ensures
        r == ws(src.s(), i as int),
        i <= r <= src.s().len(),
{
    let n = src.chars.len();
    let mut k = i;
    let mut comment = false;
    while k < n
        invariant
            n == src.s().len(),
            i <= k <= n,
            skip_ws(src.s(), i as int, false) == skip_ws(src.s(), k as int, comment),
        decreases n - k,
    {
        let c = src.chars[k];
        if comment {
            comment = c != '\n';
            k = k + 1;
        } else if c == ' ' || c == '\t' || c == '\r' || c == '\n' {
            k = k + 1;
        } else if c == '-' && k + 1 < n && src.chars[k + 1] == '-' {
            comment = true;
            k = k + 2;
        } else {
            return k;
        }
    }
    k
}

/// Whether `w` stands at `i`.
fn lit_matches(src: &Source, i: usize, w: &str) -> (r: bool)
    requires
        i <= src.s().len(),
    ensures
        r == lit_at(src.s(), i as int, w@),
        r ==> i + w@.len() <= src.s().len(),
{
    let n = src.chars.len();
    let m = w.unicode_len();
    if m > n - i {
        return false;
    }
    let mut j: usize = 0;
    while j < m
        invariant
            n == src.s().len(),
            m == w@.len(),
            i + m <= n,
            j <= m,
            forall|t: int| 0 <= t < j ==> src.s()[i + t] == w@[t],
        decreases m - j,
    {
        if src.chars[i + j] != w.get_char(j) {
            assert(src.s().subrange(i as int, i + m)[j as int] != w@[j as int]);
            return false;
        }
        j = j + 1;
    }
    assert(src.s().subrange(i as int, i + m) =~= w@);
    true
}

fn tok_at(src: &Source, i: usize, w: &str) -> (r: Option<usize>)
    requires
        i <= src.s().len(),
    ensures
        pos_res(r, tok(src.s(), i as int, w@), src.s().len() as int),
{
    let n = src.chars.len();
    let k = skip_ws_at(src, i);
    if lit_matches(src, k, w) {
        Some(k + w.unicode_len())
    } else {
        None
    }
}

fn ident_char_at_x(src: &Source, i: usize) -> (r: bool)
    ensures
        r == ident_char_at(src.s(), i as int),
        r ==> i < src.s().len(),
{
    if i < src.chars.len() {
        let c = src.chars[i];
        ('a' <= c && c <= 'z') || ('A' <= c && c <= 'Z') || ('0' <= c && c <= '9') || c == '_' || c == '\''
    } else {
        false
    }
}

fn word_at(src: &Source, i: usize, w: &str) -> (r: Option<usize>)
    requires
        i <= src.s().len(),
    ensures
        pos_res(r, word(src.s(), i as int, w@), src.s().len() as int),
{
    let n = src.chars.len();
    let k = skip_ws_at(src, i);
    if lit_matches(src, k, w) {
        let e = k + w.unicode_len();
        if ident_char_at_x(src, e) {
            None
        } else {
            Some(e)
        }
    } else {
        None
    }
}

fn ident_end_at(src: &Source, i: usize) -> (r: usize)
    requires
        i <= src.s().len(),
    ensures
        r == ident_end(src.s(), i as int),
        i <= r <= src.s().len(),
{
    let n = src.chars.len();
    let mut k = i;
    while ident_char_at_x(src, k)
        invariant
            n == src.s().len(),
            i <= k <= src.s().len(),
            ident_end(src.s(), i as int) == ident_end(src.s(), k as int),
        decreases src.s().len() - k,
    {
        k = k + 1;
    }
    k
}

fn identifier_at(src: &Source, i: usize) -> (r: Option<(usize, usize)>)
    requires
        i <= src.s().len(),
    ensures
        span_res(r, ident_at(src.s(), i as int), src.s().len() as int),
{
    let k = skip_ws_at(src, i);
    if k < src.chars.len() {
        let c = src.chars[k];
        if (('a' <= c && c <= 'z') || ('A' <= c && c <= 'Z')) && !lit_matches(src, k, "let") && !lit_matches(src, k, "rec") {
            let e = ident_end_at(src, k);
            proof {
                lemma_ident_end_ge(src.s(), k + 1);
            }
            return Some((k, e));
        }
    }
    None
}

fn constructor_name_at(src: &Source, i: usize) -> (r: Option<(usize, usize)>)
    requires
        i <= src.s().len(),
    ensures
        span_res(r, constructor_at(src.s(), i as int), src.s().len() as int),
{
    let k = skip_ws_at(src, i);
    if k < src.chars.len() {
        let c = src.chars[k];
        if 'A' <= c && c <= 'Z' {
            let e = ident_end_at(src, k);
            proof {
                lemma_ident_end_ge(src.s(), k + 1);
            }
            return Some((k, e));
        }
    }
    None
}

/// The name written from `a` to `b`.
fn name_from(src: &Source, a: usize, b: usize) -> (r: String)
    requires
        src.wf(),
        a <= b <= src.s().len(),
    ensures
        r@ == name_at(src.s(), a as int, b as int)@,
        r@ == src.s().subrange(a as int, b as int),
{
    let r = src.text.substring_char(a, b).to_owned();
    proof {
        lemma_str_of(r);
    }
    r
}

fn universe_at(src: &Source, i: usize) -> (r: Option<(Expression, usize)>)
    requires
        i <= src.s().len(),
    ensures
        expr_res(r, universe_p(src.s(), i as int), src.s().len() as int),
{
    let n = src.chars.len();
    match tok_at(src, i, "Type") {
        Some(j) => {
            let mut k = j;
            let mut v: u64 = 0;
            let mut big = false;
            while k < n && '0' <= src.chars[k] && src.chars[k] <= '9'
                invariant
                    n == src.s().len(),
                    j <= k <= n,
                    digits_end(src.s(), j as int) == digits_end(src.s(), k as int),
                    digits_value(src.s(), j as int, k as int) >= 0,
                    !big ==> v == digits_value(src.s(), j as int, k as int) && v <= u32::MAX,
                    big ==> digits_value(src.s(), j as int, k as int) > u32::MAX,
                decreases n - k,
            {
                let d = (src.chars[k] as u32 - '0' as u32) as u64;
                if !big {
                    let w = v * 10 + d;
                    if w > 4294967295 {
                        big = true;
                    } else {
                        v = w;
                    }
                }
                k = k + 1;
            }
            if ident_char_at_x(src, k) || big {
                None
            } else {
                Some((Expression::Type(v as u32), k))
            }
        },
        None => match word_at(src, i, "U") {
            Some(j) => Some((Expression::Type(0), j)),
            None => None,
        },
    }
}

fn times_at(src: &Source, i: usize) -> (r: Option<usize>)
    requires
        i <= src.s().len(),
    ensures
        pos_res(r, times_tok(src.s(), i as int), src.s().len() as int),
{
    match tok_at(src, i, "*") {
        Some(k) => Some(k),
        None => match tok_at(src, i, "\\times") {
            Some(k) => Some(k),
            None => tok_at(src, i, "×"),
        },
    }
}

pub open spec fn opt_int(t: Option<usize>) -> Option<int> {
    match t {
        Some(k) => Some(k as int),
        None => None,
    }
}

fn expression_at(src: &Source, i: usize) -> (r: Option<(Expression, usize)>)
    requires
        src.wf(),
        i <= src.s().len(),
    ensures
        expr_res(r, expression_p(src.s(), i as int), src.s().len() as int),
    decreases src.s().len() - i, 7int,
{
    match declaration_at(src, i) {
        Some(r) => Some(r),
        None => match constant_at(src, i) {
            Some(r) => Some(r),
            None => match atom_at(src, i) {
                Some((a, j)) => follow_at(src, i, a, Ghost(atom_p(src.s(), i as int).unwrap().0), j),
                None => None,
            },
        },
    }
}

fn follow_at(src: &Source, i: usize, a: Expression, Ghost(a_s): Ghost<Expression>, j: usize) -> (r: Option<(Expression, usize)>)
    requires
        src.wf(),
        i <= src.s().len(),
        expression_equiv(a, a_s),
    ensures
        expr_res(r, follow_p(src.s(), i as int, a_s, j as int), src.s().len() as int),
    decreases src.s().len() - i, 6int,
{
    proof {
        reveal_with_fuel(expression_equiv, 3);
        reveal_with_fuel(typed_list_equiv, 3);
    }
    let n = src.chars.len();
    if !(i < j && j <= n) {
        return None;
    }
    match expression_at(src, j) {
        Some((e, k)) => Some((Expression::Application(Box::new(a), Box::new(e)), k)),
        None => match after_at(src, i, tok_at(src, j, "->")) {
            Some((e, k)) => Some((Expression::Pi(Typed { pattern: Pattern::Unit, expression: Box::new(a) }, Box::new(e)), k)),
            None => match after_at(src, i, times_at(src, j)) {
                Some((e, k)) => Some((Expression::Sigma(Typed { pattern: Pattern::Unit, expression: Box::new(a) }, Box::new(e)), k)),
                None => match tok_at(src, j, ".1") {
                    Some(k) => Some((Expression::First(Box::new(a)), k)),
                    None => match tok_at(src, j, ".2") {
                        Some(k) => Some((Expression::Second(Box::new(a)), k)),
                        None => match after_at(src, i, tok_at(src, j, ",")) {
                            Some((e, k)) => Some((Expression::Pair(Box::new(a), Box::new(e)), k)),
                            None => match after_at(src, i, tok_at(src, j, "++")) {
                                Some((e, k)) => Some((Expression::Merge(Box::new(a), Box::new(e)), k)),
                                None => Some((a, j)),
                            },
                        },
                    },
                },
            },
        },
    }
}

fn after_at(src: &Source, i: usize, t: Option<usize>) -> (r: Option<(Expression, usize)>)
    requires
        src.wf(),
        i <= src.s().len(),
    ensures
        expr_res(r, after_p(src.s(), i as int, opt_int(t)), src.s().len() as int),
    decreases src.s().len() - i, 0int,
{
    match t {
        Some(k) => if i < k && k <= src.chars.len() {
            expression_at(src, k)
        } else {
            None
        },
        None => None,
    }
}

fn rest_at(src: &Source, i: usize, k: usize) -> (r: (Expression, usize))
    requires
        src.wf(),
        i <= src.s().len(),
        k <= src.s().len(),
    ensures
        expression_equiv(r.0, rest_p(src.s(), i as int, k as int).0),
        r.1 == rest_p(src.s(), i as int, k as int).1,
        r.1 <= src.s().len(),
    decreases src.s().len() - i, 1int,
{
    match after_at(src, i, Some(k)) {
        Some(r) => r,
        None => (Expression::Void, k),
    }
}

fn declaration_at(src: &Source, i: usize) -> (r: Option<(Expression, usize)>)
    requires
        src.wf(),
        i <= src.s().len(),
    ensures
        expr_res(r, declaration_p(src.s(), i as int), src.s().len() as int),
    decreases src.s().len() - i, 6int,
{
    match word_at(src, i, "let") {
        Some(k) => declaration_rest_at(src, i, k, false),
        None => match word_at(src, i, "rec") {
            Some(k) => declaration_rest_at(src, i, k, true),
            None => None,
        },
    }
}

fn declaration_rest_at(src: &Source, i: usize, k: usize, is_recursive: bool) -> (r: Option<(Expression, usize)>)
    requires
        src.wf(),
        i <= src.s().len(),
    ensures
        expr_res(r, declaration_rest_p(src.s(), i as int, k as int, is_recursive), src.s().len() as int),
    decreases src.s().len() - i, 5int,
{
    proof {
        reveal_with_fuel(expression_equiv, 3);
        reveal_with_fuel(typed_list_equiv, 3);
    }
    let n = src.chars.len();
    if !(i < k && k <= n) {
        return None;
    }
    match pattern_at(src, k) {
        Some((p, a)) => {
            if !(i < a && a <= n) {
                return None;
            }
            let (params, b) = parameters_at(src, a);
            if !(a <= b && b <= n) {
                return None;
            }
            match after_at(src, i, tok_at(src, b, ":")) {
                Some((signature, c)) => match after_at(src, i, tok_at(src, c, "=")) {
                    Some((body, d)) => match tok_at(src, d, ";") {
                        Some(e) => {
                            if !(i < e && e <= n) {
                                return None;
                            }
                            let (rest, f) = rest_at(src, i, e);
                            let declaration = Declaration {
                                pattern: p,
                                prefix_parameters: params,
                                signature,
                                body,
                                is_recursive,
                            };
                            Some((Expression::Declaration(Box::new(declaration), Box::new(rest)), f))
                        },
                        None => None,
                    },
                    None => None,
                },
                None => None,
            }
        },
        None => None,
    }
}

fn parameters_at(src: &Source, i: usize) -> (r: (List<Typed>, usize))
    requires
        src.wf(),
        i <= src.s().len(),
    ensures
        typed_list_equiv(r.0, parameters_p(src.s(), i as int).0),
        r.1 == parameters_p(src.s(), i as int).1,
        r.1 <= src.s().len(),
    decreases src.s().len() - i, 5int,
{
    proof {
        reveal_with_fuel(expression_equiv, 3);
        reveal_with_fuel(typed_list_equiv, 3);
    }
    let n = src.chars.len();
    match tok_at(src, i, "(") {
        Some(k) => {
            if !(i < k && k <= n) {
                return (List::Nil, i);
            }
            match pattern_at(src, k) {
                Some((p, a)) => match after_at(src, i, tok_at(src, a, ":")) {
                    Some((t, b)) => match tok_at(src, b, ")") {
                        Some(c) => {
                            if !(i < c && c <= n) {
                                return (List::Nil, i);
                            }
                            let (rest, d) = parameters_at(src, c);
                            (List::Cons(Typed { pattern: p, expression: Box::new(t) }, Box::new(rest)), d)
                        },
                        None => (List::Nil, i),
                    },
                    None => (List::Nil, i),
                },
                None => (List::Nil, i),
            }
        },
        None => (List::Nil, i),
    }
}

fn constant_at(src: &Source, i: usize) -> (r: Option<(Expression, usize)>)
    requires
        src.wf(),
        i <= src.s().len(),
    ensures
        expr_res(r, constant_p(src.s(), i as int), src.s().len() as int),
    decreases src.s().len() - i, 6int,
{
    let n = src.chars.len();
    match word_at(src, i, "const") {
        Some(k) => {
            if !(i < k && k <= n) {
                return None;
            }
            match pattern_at(src, k) {
                Some((p, a)) => match after_at(src, i, tok_at(src, a, "=")) {
                    Some((body, b)) => match tok_at(src, b, ";") {
                        Some(c) => {
                            if !(i < c && c <= n) {
                                return None;
                            }
                            let (rest, d) = rest_at(src, i, c);
                            Some((Expression::Constant(p, Box::new(body), Box::new(rest)), d))
                        },
                        None => None,
                    },
                    None => None,
                },
                None => None,
            }
        },
        None => None,
    }
}

fn atom_at(src: &Source, i: usize) -> (r: Option<(Expression, usize)>)
    requires
        src.wf(),
        i <= src.s().len(),
    ensures
        expr_res(r, atom_p(src.s(), i as int), src.s().len() as int),
    decreases src.s().len() - i, 5int,
{
    if let Some(r) = paren_at(src, i) {
        return Some(r);
    }
    if let Some(r) = universe_at(src, i) {
        return Some(r);
    }
    if let Some(r) = sum_at(src, i) {
        return Some(r);
    }
    if let Some(r) = split_at(src, i) {
        return Some(r);
    }
    if let Some(r) = lambda_at(src, i) {
        return Some(r);
    }
    if let Some(r) = binder_at(src, i, true) {
        return Some(r);
    }
    if let Some(r) = binder_at(src, i, false) {
        return Some(r);
    }
    if let Some(k) = tok_at(src, i, "1") {
        return Some((Expression::One, k));
    }
    if let Some(k) = tok_at(src, i, "0") {
        return Some((Expression::Unit, k));
    }
    if let Some(r) = constructor_expr_at(src, i) {
        return Some(r);
    }
    match identifier_at(src, i) {
        Some((a, b)) => Some((Expression::Var(name_from(src, a, b)), b)),
        None => None,
    }
}

fn paren_at(src: &Source, i: usize) -> (r: Option<(Expression, usize)>)
    requires
        src.wf(),
        i <= src.s().len(),
    ensures
        expr_res(r, paren_p(src.s(), i as int), src.s().len() as int),
    decreases src.s().len() - i, 4int,
{
    let n = src.chars.len();
    match tok_at(src, i, "(") {
        Some(k) => {
            if !(i < k && k <= n) {
                return None;
            }
            match expression_at(src, k) {
                Some((e, a)) => match tok_at(src, a, ")") {
                    Some(b) => Some((e, b)),
                    None => None,
                },
                None => None,
            }
        },
        None => None,
    }
}

fn sum_at(src: &Source, i: usize) -> (r: Option<(Expression, usize)>)
    requires
        src.wf(),
        i <= src.s().len(),
    ensures
        expr_res(r, sum_p(src.s(), i as int), src.s().len() as int),
    decreases src.s().len() - i, 4int,
{
    let n = src.chars.len();
    let t = match tok_at(src, i, "Sum") {
        Some(k) => Some(k),
        None => tok_at(src, i, "sum"),
    };
    match t {
        Some(k) => match tok_at(src, k, "{") {
            Some(a) => {
                if !(i < a && a <= n) {
                    return None;
                }
                match branches_at(src, a, false) {
                    Some((b, c)) => Some((Expression::Sum(b), c)),
                    None => None,
                }
            },
            None => None,
        },
        None => None,
    }
}

fn split_at(src: &Source, i: usize) -> (r: Option<(Expression, usize)>)
    requires
        src.wf(),
        i <= src.s().len(),
    ensures
        expr_res(r, split_p(src.s(), i as int), src.s().len() as int),
    decreases src.s().len() - i, 4int,
{
    let n = src.chars.len();
    match tok_at(src, i, "split") {
        Some(k) => match tok_at(src, k, "{") {
            Some(a) => {
                if !(i < a && a <= n) {
                    return None;
                }
                match branches_at(src, a, true) {
                    Some((b, c)) => Some((Expression::Split(b), c)),
                    None => None,
                }
            },
            None => None,
        },
        None => None,
    }
}

fn branches_at(src: &Source, i: usize, choices: bool) -> (r: Option<(Branch, usize)>)
    requires
        src.wf(),
        i <= src.s().len(),
    ensures
        branch_res(r, branches_p(src.s(), i as int, choices), src.s().len() as int),
    decreases src.s().len() - i, 4int,
{
    let n = src.chars.len();
    match entry_at(src, i, choices) {
        Some((name, e, k)) => {
            if !(i < k && k <= n) {
                return None;
            }
            let ghost entry = entry_p(src.s(), i as int, choices).unwrap();
            proof {
                lemma_branch_insert_equiv(List::Nil, List::Nil, name, entry.0, e, entry.1);
            }
            let acc = branch_insert_exec(List::Nil, name, e);
            more_branches_at(src, k, acc, Ghost(branch_insert(List::Nil, entry.0, entry.1)), choices)
        },
        None => close_at(src, i, List::Nil, Ghost(List::Nil)),
    }
}

fn more_branches_at(src: &Source, i: usize, acc: Branch, Ghost(acc_s): Ghost<Branch>, choices: bool) -> (r: Option<(Branch, usize)>)
    requires
        src.wf(),
        i <= src.s().len(),
        branch_equiv(acc, acc_s),
    ensures
        branch_res(r, more_branches_p(src.s(), i as int, acc_s, choices), src.s().len() as int),
    decreases src.s().len() - i, 3int,
{
    let n = src.chars.len();
    match tok_at(src, i, "|") {
        Some(k) => {
            if !(i < k && k <= n) {
                return None;
            }
            match entry_at(src, k, choices) {
                Some((name, e, a)) => {
                    if !(i < a && a <= n) {
                        return None;
                    }
                    let ghost entry = entry_p(src.s(), k as int, choices).unwrap();
                    proof {
                        lemma_branch_insert_equiv(acc, acc_s, name, entry.0, e, entry.1);
                    }
                    let acc = branch_insert_exec(acc, name, e);
                    more_branches_at(src, a, acc, Ghost(branch_insert(acc_s, entry.0, entry.1)), choices)
                },
                None => close_at(src, i, acc, Ghost(acc_s)),
            }
        },
        None => close_at(src, i, acc, Ghost(acc_s)),
    }
}

fn close_at(src: &Source, i: usize, acc: Branch, Ghost(acc_s): Ghost<Branch>) -> (r: Option<(Branch, usize)>)
    requires
        i <= src.s().len(),
        branch_equiv(acc, acc_s),
    ensures
        branch_res(r, close_p(src.s(), i as int, acc_s), src.s().len() as int),
{
    match tok_at(src, i, "}") {
        Some(k) => Some((acc, k)),
        None => None,
    }
}

fn entry_at(src: &Source, i: usize, choices: bool) -> (r: Option<(String, Expression, usize)>)
    requires
        src.wf(),
        i <= src.s().len(),
    ensures
        entry_res(r, entry_p(src.s(), i as int, choices), src.s().len() as int),
    decreases src.s().len() - i, 2int,
{
    let n = src.chars.len();
    match constructor_name_at(src, i) {
        Some((a, b)) => {
            if !(i < b && b <= n) {
                return None;
            }
            if choices {
                match pattern_at(src, b) {
                    Some((p, c)) => match after_at(src, i, tok_at(src, c, "=>")) {
                        Some((e, d)) => Some((name_from(src, a, b), Expression::Lambda(p, None, Box::new(e)), d)),
                        None => None,
                    },
                    None => None,
                }
            } else {
                match after_at(src, i, Some(b)) {
                    Some((e, c)) => Some((name_from(src, a, b), e, c)),
                    None => None,
                }
            }
        },
        None => None,
    }
}

fn lambda_at(src: &Source, i: usize) -> (r: Option<(Expression, usize)>)
    requires
        src.wf(),
        i <= src.s().len(),
    ensures
        expr_res(r, lambda_p(src.s(), i as int), src.s().len() as int),
    decreases src.s().len() - i, 4int,
{
    let n = src.chars.len();
    let t = match tok_at(src, i, "λ") {
        Some(k) => Some(k),
        None => tok_at(src, i, "\\lambda"),
    };
    match t {
        Some(k) => {
            if !(i < k && k <= n) {
                return None;
            }
            match pattern_at(src, k) {
                Some((p, a)) => match after_at(src, i, tok_at(src, a, ".")) {
                    Some((e, b)) => Some((Expression::Lambda(p, None, Box::new(e)), b)),
                    None => None,
                },
                None => None,
            }
        },
        None => None,
    }
}

fn binder_at(src: &Source, i: usize, pi: bool) -> (r: Option<(Expression, usize)>)
    requires
        src.wf(),
        i <= src.s().len(),
    ensures
        expr_res(r, binder_p(src.s(), i as int, pi), src.s().len() as int),
    decreases src.s().len() - i, 4int,
{
    proof {
        reveal_with_fuel(expression_equiv, 3);
        reveal_with_fuel(typed_list_equiv, 3);
    }
    let n = src.chars.len();
    let t = if pi {
        match tok_at(src, i, "Π") {
            Some(k) => Some(k),
            None => tok_at(src, i, "\\Pi"),
        }
    } else {
        match tok_at(src, i, "Σ") {
            Some(k) => Some(k),
            None => tok_at(src, i, "\\Sigma"),
        }
    };
    match t {
        Some(k) => {
            if !(i < k && k <= n) {
                return None;
            }
            match pattern_at(src, k) {
                Some((p, a)) => match after_at(src, i, tok_at(src, a, ":")) {
                    Some((t, b)) => match after_at(src, i, tok_at(src, b, ".")) {
                        Some((e, c)) => {
                            let typed = Typed { pattern: p, expression: Box::new(t) };
                            if pi {
                                Some((Expression::Pi(typed, Box::new(e)), c))
                            } else {
                                Some((Expression::Sigma(typed, Box::new(e)), c))
                            }
                        },
                        None => None,
                    },
                    None => None,
                },
                None => None,
            }
        },
        None => None,
    }
}

fn constructor_expr_at(src: &Source, i: usize) -> (r: Option<(Expression, usize)>)
    requires
        src.wf(),
        i <= src.s().len(),
    ensures
        expr_res(r, constructor_p(src.s(), i as int), src.s().len() as int),
    decreases src.s().len() - i, 4int,
{
    match constructor_name_at(src, i) {
        Some((a, b)) => match after_at(src, i, Some(b)) {
            Some((e, c)) => Some((Expression::Constructor(name_from(src, a, b), Box::new(e)), c)),
            None => None,
        },
        None => None,
    }
}

fn pattern_at(src: &Source, i: usize) -> (r: Option<(Pattern, usize)>)
    requires
        src.wf(),
        i <= src.s().len(),
    ensures
        pat_res(r, pattern_p(src.s(), i as int), src.s().len() as int),
    decreases src.s().len() - i, 4int,
{
    let n = src.chars.len();
    match atom_pattern_at(src, i) {
        Some((p, j)) => match tok_at(src, j, ",") {
            Some(k) => {
                if !(i < k && k <= n) {
                    return Some((p, j));
                }
                match pattern_at(src, k) {
                    Some((q, a)) => Some((Pattern::Pair(Box::new(p), Box::new(q)), a)),
                    None => Some((p, j)),
                }
            },
            None => Some((p, j)),
        },
        None => None,
    }
}

fn atom_pattern_at(src: &Source, i: usize) -> (r: Option<(Pattern, usize)>)
    requires
        src.wf(),
        i <= src.s().len(),
    ensures
        pat_res(r, atom_pattern_p(src.s(), i as int), src.s().len() as int),
    decreases src.s().len() - i, 3int,
{
    let n = src.chars.len();
    match identifier_at(src, i) {
        Some((a, b)) => Some((Pattern::Var(name_from(src, a, b)), b)),
        None => match tok_at(src, i, "_") {
            Some(k) => Some((Pattern::Unit, k)),
            None => match tok_at(src, i, "(") {
                Some(k) => {
                    if !(i < k && k <= n) {
                        return None;
                    }
                    match pattern_at(src, k) {
                        Some((p, a)) => match tok_at(src, a, ")") {
                            Some(b) => Some((p, b)),
                            None => None,
                        },
                        None => None,
                    }
                },
                None => None,
            },
        },
    }
}

/// Reads the expression at the start of `input`, in the grammar above; the text
/// that follows it is not read. Names are compared by their characters
/// (`expression_equiv`).
pub fn parse_str(input: &str) -> (r: Result<Expression, String>)
    ensures
        r is Ok <==> parse_s(input@) is Some,
        r matches Ok(e) ==> parse_s(input@) matches Some(p) && expression_equiv(e, p),
        r matches Err(m) ==> m@ == "Parse failed: the input does not start with an expression."@,
{
    let n = input.unicode_len();
    let mut chars: Vec<char> = Vec::new();
    let mut i: usize = 0;
    while i < n
        invariant
            n == input@.len(),
            i <= n,
            chars@ == input@.subrange(0, i as int),
        decreases n - i,
    {
        chars.push(input.get_char(i));
        i = i + 1;
    }
    assert(chars@ =~= input@);
    let src = Source { chars, text: input };
    match expression_at(&src, 0) {
        Some((e, _)) => Ok(e),
        None => Err("Parse failed: the input does not start with an expression.".to_owned()),
    }
}
} // verus!

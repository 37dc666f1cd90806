use vstd::prelude::*;

use crate::strings::{lemma_str_less_order, str_eq, str_less, str_lt};

verus! {

/// A persistent singly linked list.
#[derive(Debug)]
pub enum List<T> {
    Nil,
    Cons(T, Box<List<T>>),
}

/// Values that can be copied so that the copy equals the source.
pub trait Duplicate: Sized {
    fn duplicate(&self) -> (r: Self)
        ensures
            r == *self,
    ;
}

impl Duplicate for String {
    fn duplicate(&self) -> (r: Self) {
        self.clone()
    }
}

impl<T: Duplicate> Duplicate for Box<T> {
    fn duplicate(&self) -> (r: Self) {
        Box::new((**self).duplicate())
    }
}

impl<A: Duplicate, B: Duplicate> Duplicate for (A, B) {
    fn duplicate(&self) -> (r: Self) {
        (self.0.duplicate(), self.1.duplicate())
    }
}

impl<T: Duplicate> Duplicate for List<T> {
    fn duplicate(&self) -> (r: Self)
        decreases self,
    {
        match self {
            List::Nil => List::Nil,
            List::Cons(head, tail) => List::Cons(head.duplicate(), Box::new((**tail).duplicate())),
        }
    }
}

impl<T> List<T> {
    /// The elements, in order.
    pub open spec fn seq(self) -> Seq<T>
        decreases self,
    {
        match self {
            List::Nil => Seq::empty(),
            List::Cons(head, tail) => seq![head] + tail.seq(),
        }
    }

    pub open spec fn spec_len(self) -> nat {
        self.seq().len()
    }

    pub fn is_empty(&self) -> (r: bool)
        ensures
            r == (self.seq().len() == 0),
    {
        match self {
            List::Nil => true,
            List::Cons(_, tail) => {
                proof {
                    assert(self.seq().len() == 1 + tail.seq().len());
                }
                false
            },
        }
    }

    /// Builds a list holding the elements of `v`, in order.
    pub fn from_vec(v: Vec<T>) -> (r: List<T>)
        ensures
            r.seq() == v@,
    {
        let mut v = v;
        let mut r: List<T> = List::Nil;
        let ghost whole = v@;
        while v.len() > 0
            invariant
                whole == v@ + r.seq(),
            decreases v@.len(),
        {
            let x = v.pop().unwrap();
            proof {
                assert(whole =~= v@ + (seq![x] + r.seq()));
            }
            r = List::Cons(x, Box::new(r));
        }
        proof {
            assert(whole =~= r.seq());
        }
        r
    }
}

/// `S(M) ::= () | (c M, S)`: branches of a sum or of a case-split, named by
/// their constructors. The entries are kept in the order of their names, and a
/// name occurs at most once (see `branch_wf`).
pub type GenericBranch<T> = List<(String, Box<T>)>;

/// Every name in `b` comes after `x`.
pub open spec fn keys_above<T>(b: GenericBranch<T>, x: Seq<char>) -> bool
    decreases b,
{
    match b {
        List::Nil => true,
        List::Cons(entry, rest) => str_less(x, entry.0@) && keys_above(*rest, x),
    }
}

/// The invariant of a branch: the names of the entries are strictly increasing, so
/// that each name occurs at most once.
pub open spec fn branch_wf<T>(b: GenericBranch<T>) -> bool
    decreases b,
{
    match b {
        List::Nil => true,
        List::Cons(entry, rest) => keys_above(*rest, entry.0@) && branch_wf(*rest),
    }
}

/// The value stored under `name`.
pub open spec fn branch_get<T>(b: GenericBranch<T>, name: Seq<char>) -> Option<T>
    decreases b,
{
    match b {
        List::Nil => None,
        List::Cons(entry, rest) => if entry.0@ == name {
            Some(*entry.1)
        } else {
            branch_get(*rest, name)
        },
    }
}

/// Stores `value` under `key`: an entry of the same name keeps its position and its
/// key and gets the new value; otherwise the entry goes before the first greater name.
pub open spec fn branch_insert<T>(b: GenericBranch<T>, key: String, value: T) -> GenericBranch<T>
    decreases b,
{
    match b {
        List::Nil => List::Cons((key, Box::new(value)), Box::new(List::Nil)),
        List::Cons(entry, rest) => if entry.0@ == key@ {
            List::Cons((entry.0, Box::new(value)), rest)
        } else if str_less(key@, entry.0@) {
            List::Cons((key, Box::new(value)), Box::new(List::Cons(entry, rest)))
        } else {
            List::Cons(entry, Box::new(branch_insert(*rest, key, value)))
        },
    }
}

/// Takes the entry named `name` out of the branch.
pub open spec fn branch_remove<T>(b: GenericBranch<T>, name: Seq<char>) -> (Option<T>, GenericBranch<T>)
    decreases b,
{
    match b {
        List::Nil => (None, List::Nil),
        List::Cons(entry, rest) => if entry.0@ == name {
            (Some(*entry.1), *rest)
        } else {
            let (found, left) = branch_remove(*rest, name);
            (found, List::Cons(entry, Box::new(left)))
        },
    }
}

/// Inserts every entry of `right`, in order, into `left`: an entry of `right`
/// replaces the value of `left` of the same name.
pub open spec fn branch_append<T>(left: GenericBranch<T>, right: GenericBranch<T>) -> GenericBranch<T>
    decreases right,
{
    match right {
        List::Nil => left,
        List::Cons(entry, rest) => branch_append(branch_insert(left, entry.0, *entry.1), *rest),
    }
}

/// The names of the entries, in order.
pub open spec fn branch_keys<T>(b: GenericBranch<T>) -> List<String>
    decreases b,
{
    match b {
        List::Nil => List::Nil,
        List::Cons(entry, rest) => List::Cons(entry.0, Box::new(branch_keys(*rest))),
    }
}

/// Whether `name` occurs in a list of names.
pub open spec fn names_contain(names: List<String>, name: Seq<char>) -> bool
    decreases names,
{
    match names {
        List::Nil => false,
        List::Cons(n, rest) => n@ == name || names_contain(*rest, name),
    }
}

/// The names of a list, in order, in a vector.
pub fn names_to_vec(names: &List<String>) -> (r: Vec<String>)
    ensures
        r@ == names.seq(),
{
    let mut out: Vec<String> = Vec::new();
    let mut cur: &List<String> = names;
    loop
        invariant
            out@ + cur.seq() == names.seq(),
        ensures
            out@ == names.seq(),
        decreases cur.seq().len(),
    {
        match cur {
            List::Nil => {
                assert(out@ + cur.seq() =~= out@);
                break;
            },
            List::Cons(name, rest) => {
                let ghost before = out@;
                out.push(name.clone());
                assert(out@ + rest.seq() =~= before + cur.seq());
                cur = rest;
            },
        }
    }
    out
}

pub fn branch_get_exec<'a, T>(b: &'a GenericBranch<T>, name: &str) -> (r: Option<&'a T>)
    ensures
        match r {
            Some(x) => branch_get(*b, name@) == Some(*x),
            None => branch_get(*b, name@) is None,
        },
    decreases b,
{
    match b {
        List::Nil => None,
        List::Cons(entry, rest) => {
            if str_eq(entry.0.as_str(), name) {
                Some(&*entry.1)
            } else {
                branch_get_exec(&**rest, name)
            }
        },
    }
}

pub fn branch_insert_exec<T>(b: GenericBranch<T>, key: String, value: T) -> (r: GenericBranch<T>)
    ensures
        r == branch_insert(b, key, value),
    decreases b,
{
    match b {
        List::Nil => List::Cons((key, Box::new(value)), Box::new(List::Nil)),
        List::Cons(entry, rest) => {
            if str_eq(entry.0.as_str(), key.as_str()) {
                List::Cons((entry.0, Box::new(value)), rest)
            } else if str_lt(key.as_str(), entry.0.as_str()) {
                List::Cons((key, Box::new(value)), Box::new(List::Cons(entry, rest)))
            } else {
                List::Cons(entry, Box::new(branch_insert_exec(*rest, key, value)))
            }
        },
    }
}

pub fn branch_remove_exec<T>(b: GenericBranch<T>, name: &str) -> (r: (Option<T>, GenericBranch<T>))
    ensures
        r == branch_remove(b, name@),
    decreases b,
{
    match b {
        List::Nil => (None, List::Nil),
        List::Cons(entry, rest) => {
            if str_eq(entry.0.as_str(), name) {
                (Some(*entry.1), *rest)
            } else {
                let (found, left) = branch_remove_exec(*rest, name);
                (found, List::Cons(entry, Box::new(left)))
            }
        },
    }
}

pub fn branch_append_exec<T>(left: GenericBranch<T>, right: GenericBranch<T>) -> (r: GenericBranch<T>)
    ensures
        r == branch_append(left, right),
    decreases right,
{
    match right {
        List::Nil => left,
        List::Cons(entry, rest) => branch_append_exec(
            branch_insert_exec(left, entry.0, *entry.1),
            *rest,
        ),
    }
}

pub fn branch_keys_exec<T>(b: &GenericBranch<T>) -> (r: List<String>)
    ensures
        r == branch_keys(*b),
    decreases b,
{
    match b {
        List::Nil => List::Nil,
        List::Cons(entry, rest) => List::Cons(entry.0.clone(), Box::new(branch_keys_exec(&**rest))),
    }
}

pub fn names_contain_exec(names: &List<String>, name: &str) -> (r: bool)
    ensures
        r == names_contain(*names, name@),
    decreases names,
{
    match names {
        List::Nil => false,
        List::Cons(n, rest) => str_eq(n.as_str(), name) || names_contain_exec(&**rest, name),
    }
}

} // verus!

verus! {

/// Reading after a write: looking up the name just inserted gives the inserted value;
/// every other name keeps its value.
pub proof fn lemma_branch_insert_get<T>(b: GenericBranch<T>, key: String, value: T, name: Seq<char>)
    ensures
        branch_get(branch_insert(b, key, value), name) == if name == key@ {
            Some(value)
        } else {
            branch_get(b, name)
        },
    decreases b,
{
    match b {
        List::Nil => {},
        List::Cons(entry, rest) => {
            if entry.0@ != key@ && !str_less(key@, entry.0@) {
                lemma_branch_insert_get(*rest, key, value, name);
            }
        },
    }
}

proof fn lemma_keys_above_lower<T>(b: GenericBranch<T>, x: Seq<char>, y: Seq<char>)
    requires
        str_less(x, y),
        keys_above(b, y),
    ensures
        keys_above(b, x),
    decreases b,
{
    match b {
        List::Nil => {},
        List::Cons(entry, rest) => {
            lemma_str_less_order(x, y, entry.0@);
            lemma_keys_above_lower(*rest, x, y);
        },
    }
}

proof fn lemma_keys_above_insert<T>(b: GenericBranch<T>, key: String, value: T, x: Seq<char>)
    requires
        keys_above(b, x),
        str_less(x, key@),
    ensures
        keys_above(branch_insert(b, key, value), x),
    decreases b,
{
    match b {
        List::Nil => {},
        List::Cons(entry, rest) => {
            if entry.0@ != key@ && !str_less(key@, entry.0@) {
                lemma_keys_above_insert(*rest, key, value, x);
            }
        },
    }
}

/// A name above every name of a branch is not in it.
pub proof fn lemma_keys_above_absent<T>(b: GenericBranch<T>, x: Seq<char>)
    requires
        keys_above(b, x),
    ensures
        branch_get(b, x) is None,
    decreases b,
{
    match b {
        List::Nil => {},
        List::Cons(entry, rest) => {
            lemma_str_less_order(x, entry.0@, x);
            lemma_keys_above_absent(*rest, x);
        },
    }
}

/// Inserting keeps the names strictly increasing.
pub proof fn lemma_branch_insert_wf<T>(b: GenericBranch<T>, key: String, value: T)
    requires
        branch_wf(b),
    ensures
        branch_wf(branch_insert(b, key, value)),
    decreases b,
{
    match b {
        List::Nil => {},
        List::Cons(entry, rest) => {
            if entry.0@ == key@ {
            } else if str_less(key@, entry.0@) {
                lemma_keys_above_lower(*rest, key@, entry.0@);
            } else {
                lemma_str_less_order(entry.0@, key@, entry.0@);
                lemma_branch_insert_wf(*rest, key, value);
                lemma_keys_above_insert(*rest, key, value, entry.0@);
            }
        },
    }
}

/// Removing takes out the value that a lookup of the same name gives; every other
/// name keeps its value.
pub proof fn lemma_branch_remove_get<T>(b: GenericBranch<T>, key: Seq<char>, name: Seq<char>)
    ensures
        branch_remove(b, key).0 == branch_get(b, key),
        name != key ==> branch_get(branch_remove(b, key).1, name) == branch_get(b, name),
    decreases b,
{
    match b {
        List::Nil => {},
        List::Cons(entry, rest) => {
            lemma_branch_remove_get(*rest, key, name);
        },
    }
}

proof fn lemma_keys_above_remove<T>(b: GenericBranch<T>, key: Seq<char>, x: Seq<char>)
    requires
        keys_above(b, x),
    ensures
        keys_above(branch_remove(b, key).1, x),
    decreases b,
{
    match b {
        List::Nil => {},
        List::Cons(entry, rest) => {
            lemma_keys_above_remove(*rest, key, x);
        },
    }
}

/// In a well-formed branch a removed name is gone, and the rest stays well-formed.
pub proof fn lemma_branch_remove_wf<T>(b: GenericBranch<T>, key: Seq<char>)
    requires
        branch_wf(b),
    ensures
        branch_wf(branch_remove(b, key).1),
        branch_get(branch_remove(b, key).1, key) is None,
    decreases b,
{
    match b {
        List::Nil => {},
        List::Cons(entry, rest) => {
            if entry.0@ == key {
                lemma_keys_above_absent(*rest, key);
            } else {
                lemma_branch_remove_wf(*rest, key);
                lemma_keys_above_remove(*rest, key, entry.0@);
            }
        },
    }
}

/// Appending a well-formed branch: a name of `right` gets its value from `right`,
/// every other name keeps its value in `left`; the order of `left` is kept.
pub proof fn lemma_branch_append_get<T>(left: GenericBranch<T>, right: GenericBranch<T>, name: Seq<char>)
    requires
        branch_wf(right),
    ensures
        branch_get(branch_append(left, right), name) == match branch_get(right, name) {
            Some(v) => Some(v),
            None => branch_get(left, name),
        },
        branch_wf(left) ==> branch_wf(branch_append(left, right)),
    decreases right,
{
    match right {
        List::Nil => {},
        List::Cons(entry, rest) => {
            let inserted = branch_insert(left, entry.0, *entry.1);
            lemma_branch_append_get(inserted, *rest, name);
            lemma_branch_insert_get(left, entry.0, *entry.1, name);
            if name == entry.0@ {
                lemma_keys_above_absent(*rest, entry.0@);
            }
            if branch_wf(left) {
                lemma_branch_insert_wf(left, entry.0, *entry.1);
            }
        },
    }
}

/// A name is among the keys of a branch exactly when a lookup finds it.
pub proof fn lemma_branch_keys_contain<T>(b: GenericBranch<T>, name: Seq<char>)
    ensures
        names_contain(branch_keys(b), name) == (branch_get(b, name) is Some),
    decreases b,
{
    match b {
        List::Nil => {},
        List::Cons(entry, rest) => {
            lemma_branch_keys_contain(*rest, name);
        },
    }
}


/// The order in which cases are added does not matter: inserting two different
/// names into a well-formed branch gives the same branch in either order.
pub proof fn lemma_branch_insert_commute<T>(b: GenericBranch<T>, k1: String, v1: T, k2: String, v2: T)
    requires
        branch_wf(b),
        k1@ != k2@,
    ensures
        branch_insert(branch_insert(b, k1, v1), k2, v2) == branch_insert(branch_insert(b, k2, v2), k1, v1),
    decreases b,
{
    lemma_str_less_order(k1@, k2@, k1@);
    lemma_str_less_order(k2@, k1@, k2@);
    match b {
        List::Nil => {},
        List::Cons(entry, rest) => {
            let e = entry.0@;
            lemma_str_less_order(k1@, k2@, e);
            lemma_str_less_order(k2@, k1@, e);
            lemma_str_less_order(k1@, e, k2@);
            lemma_str_less_order(k2@, e, k1@);
            lemma_str_less_order(e, k1@, k2@);
            lemma_str_less_order(e, k2@, k1@);
            lemma_str_less_order(e, k1@, e);
            lemma_str_less_order(e, k2@, e);
            if e != k1@ && e != k2@ && !str_less(k1@, e) && !str_less(k2@, e) {
                lemma_branch_insert_commute(*rest, k1, v1, k2, v2);
            }
        },
    }
}


/// Every key of a branch whose keys all come after `x` comes after `x`.
pub proof fn lemma_keys_above_all<T>(b: GenericBranch<T>, x: Seq<char>)
    requires
        keys_above(b, x),
    ensures
        forall|i: int| 0 <= i < branch_keys(b).seq().len() ==> str_less(x, #[trigger] branch_keys(b).seq()[i]@),
    decreases b,
{
    if let List::Cons(entry, rest) = b {
        lemma_keys_above_all(*rest, x);
        assert(branch_keys(b).seq() == seq![entry.0] + branch_keys(*rest).seq());
    }
}

/// The keys of a well-formed branch come in strictly ascending order, so its clauses
/// are listed and printed in the order of their names.
pub proof fn lemma_branch_keys_sorted<T>(b: GenericBranch<T>)
    requires
        branch_wf(b),
    ensures
        forall|i: int, j: int|
            0 <= i < j < branch_keys(b).seq().len() ==> str_less(
                #[trigger] branch_keys(b).seq()[i]@,
                #[trigger] branch_keys(b).seq()[j]@,
            ),
    decreases b,
{
    if let List::Cons(entry, rest) = b {
        lemma_branch_keys_sorted(*rest);
        lemma_keys_above_all(*rest, entry.0@);
        let k = branch_keys(b).seq();
        let r = branch_keys(*rest).seq();
        assert(k == seq![entry.0] + r);
        assert forall|i: int, j: int| 0 <= i < j < k.len() implies str_less(#[trigger] k[i]@, #[trigger] k[j]@) by {
            if i == 0 {
                assert(k[j] == r[j - 1]);
            } else {
                assert(k[i] == r[i - 1]);
                assert(k[j] == r[j - 1]);
            }
        }
    }
}

} // verus!

//! Environment overrides: names with values, kept in the order of the names.
use vstd::prelude::*;

use crate::text;
use crate::text::{chars_of, compare_chars, TextOrder};

verus! {

/// Whether the names of `pairs` are strictly increasing, so that none occurs twice.
pub open spec fn names_increase(pairs: Seq<(Seq<char>, Seq<char>)>) -> bool {
    forall|i: int, j: int|
        0 <= i < j < pairs.len() ==> text::text_before(#[trigger] pairs[i].0, #[trigger] pairs[j].0)
}

/// Whether `pairs` gives `name` the value `value`.
pub open spec fn gives(
    pairs: Seq<(Seq<char>, Seq<char>)>,
    name: Seq<char>,
    value: Seq<char>,
) -> bool {
    exists|i: int| 0 <= i < pairs.len() && #[trigger] pairs[i] == (name, value)
}

/// A set of environment overrides. Its view is the sequence of names with their values, in the
/// order of the names; no name occurs twice.
#[derive(Debug, PartialEq, Eq)]
pub struct Environment {
    pairs: Vec<(String, String)>,
}

impl View for Environment {
    type V = Seq<(Seq<char>, Seq<char>)>;

    closed spec fn view(&self) -> Seq<(Seq<char>, Seq<char>)> {
        text::text_pairs(self.pairs@)
    }
}

impl Environment {
    #[verifier::type_invariant]
    spec fn well_formed(self) -> bool {
        names_increase(self@)
    }

    /// The environment without any override.
    pub fn new() -> (env: Environment)
        ensures
            env@ == Seq::<(Seq<char>, Seq<char>)>::empty(),
    {
        let env = Environment { pairs: Vec::new() };
        assert(env@ =~= Seq::<(Seq<char>, Seq<char>)>::empty());
        env
    }

    /// Gives `name` the value `value`, in place of any value that it had.
    pub fn insert(&mut self, name: String, value: String)
        ensures
            names_increase(final(self)@),
            forall|n: Seq<char>, v: Seq<char>|
                #![trigger gives(final(self)@, n, v)]
                gives(final(self)@, n, v) <==> (n == name@ && v == value@) || (n != name@ && gives(
                    old(self)@,
                    n,
                    v,
                )),
    {
        proof {
            use_type_invariant(&*self);
        }
        let ghost before = self@;
        let key = chars_of(name.as_str());
        let mut at: usize = 0;
        let mut replaces: bool = false;
        while at < self.pairs.len()
            invariant_except_break
                !replaces,
            invariant
                *self == *old(self),
                before == self@,
                names_increase(before),
                key@ == name@,
                at <= self.pairs.len(),
                forall|i: int| 0 <= i < at ==> text::text_before(#[trigger] before[i].0, name@),
            ensures
                replaces ==> at < self.pairs.len() && before[at as int].0 == name@,
                !replaces ==> at == self.pairs.len() || text::text_before(
                    name@,
                    before[at as int].0,
                ),
            decreases self.pairs.len() - at,
        {
            let other = chars_of(self.pairs[at].0.as_str());
            assert(before[at as int].0 == other@);
            match compare_chars(other.as_slice(), key.as_slice()) {
                TextOrder::Before => {
                    at += 1;
                },
                TextOrder::Same => {
                    replaces = true;
                    break;
                },
                TextOrder::After => {
                    break;
                },
            }
        }
        let ghost entry = (name@, value@);
        let mut pairs: Vec<(String, String)> = Vec::new();
        std::mem::swap(&mut pairs, &mut self.pairs);
        if replaces {
            pairs.set(at, (name, value));
            assert(text::text_pairs(pairs@) =~= before.update(at as int, entry));
        } else {
            pairs.insert(at, (name, value));
            assert(text::text_pairs(pairs@) =~= before.insert(at as int, entry));
        }
        proof {
            lemma_entry_fits(before, at as int, entry, replaces, text::text_pairs(pairs@));
        }
        self.pairs = pairs;
    }

    /// The overrides, in the order of their names.
    pub fn pairs(&self) -> (pairs: &Vec<(String, String)>)
        ensures
            text::text_pairs(pairs@) == self@,
            names_increase(self@),
    {
        proof {
            use_type_invariant(self);
        }
        &self.pairs
    }
}

impl Clone for Environment {
    fn clone(&self) -> (copy: Environment)
        ensures
            copy@ == self@,
    {
        proof {
            use_type_invariant(self);
        }
        let mut pairs: Vec<(String, String)> = Vec::new();
        let mut i: usize = 0;
        while i < self.pairs.len()
            invariant
                i <= self.pairs.len(),
                pairs@ == self.pairs@.take(i as int),
            decreases self.pairs.len() - i,
        {
            pairs.push((self.pairs[i].0.clone(), self.pairs[i].1.clone()));
            i += 1;
        }
        assert(pairs@ =~= self.pairs@);
        Environment { pairs }
    }
}

/// An entry put at its place among increasing names keeps them increasing and changes the value
/// of its own name only.
proof fn lemma_entry_fits(
    pairs: Seq<(Seq<char>, Seq<char>)>,
    at: int,
    entry: (Seq<char>, Seq<char>),
    replaces: bool,
    after: Seq<(Seq<char>, Seq<char>)>,
)
    requires
        replaces ==> after == pairs.update(at, entry),
        !replaces ==> after == pairs.insert(at, entry),
        names_increase(pairs),
        0 <= at <= pairs.len(),
        forall|i: int| 0 <= i < at ==> text::text_before(#[trigger] pairs[i].0, entry.0),
        replaces ==> at < pairs.len() && pairs[at].0 == entry.0,
        !replaces ==> at == pairs.len() || text::text_before(entry.0, pairs[at].0),
    ensures
        names_increase(after),
        forall|n: Seq<char>, v: Seq<char>|
            #![trigger gives(after, n, v)]
            gives(after, n, v) <==> (n == entry.0 && v == entry.1) || (n != entry.0 && gives(
                pairs,
                n,
                v,
            )),
{
    // Every entry from `at` on has a name after the new one, but for the entry it replaces.
    assert forall|i: int| at <= i < pairs.len() && (replaces ==> i > at) implies text::text_before(
        entry.0,
        #[trigger] pairs[i].0,
    ) by {
        if !replaces && i > at {
            assert(text::text_before(pairs[at].0, pairs[i].0));
            text::text_before_transitive(entry.0, pairs[at].0, pairs[i].0);
        }
    }
    assert(names_increase(after));
    assert forall|n: Seq<char>, v: Seq<char>|
        #![trigger gives(after, n, v)]
        gives(after, n, v) <==> (n == entry.0 && v == entry.1) || (n != entry.0 && gives(
            pairs,
            n,
            v,
        )) by {
        text::text_before_irreflexive(n);
        if gives(after, n, v) {
            let k = choose|k: int| 0 <= k < after.len() && #[trigger] after[k] == (n, v);
            if replaces {
                if k != at {
                    assert(pairs[k] == (n, v) && pairs[k].0 == n);
                }
            } else if k < at {
                assert(pairs[k] == (n, v) && pairs[k].0 == n);
            } else if k > at {
                assert(pairs[k - 1] == (n, v) && pairs[k - 1].0 == n);
            }
        }
        if n == entry.0 && v == entry.1 {
            assert(after[at] == (n, v));
        }
        if n != entry.0 && gives(pairs, n, v) {
            let k = choose|k: int| 0 <= k < pairs.len() && #[trigger] pairs[k] == (n, v);
            if replaces || k < at {
                assert(after[k] == (n, v));
            } else {
                assert(after[k + 1] == (n, v));
            }
        }
    }
}

/// Environments that give every name the same value hold the same entries in the same order.
pub proof fn environments_are_their_values(
    a: Seq<(Seq<char>, Seq<char>)>,
    b: Seq<(Seq<char>, Seq<char>)>,
)
    requires
        names_increase(a),
        names_increase(b),
        forall|n: Seq<char>, v: Seq<char>|
            #![trigger gives(a, n, v)]
            #![trigger gives(b, n, v)]
            gives(a, n, v) <==> gives(b, n, v),
    ensures
        a == b,
    decreases a.len(),
{
    if a.len() == 0 {
        if b.len() > 0 {
            assert(b[0] == (b[0].0, b[0].1));
            assert(gives(b, b[0].0, b[0].1));
        }
        assert(a =~= b);
    } else {
        let last = a.last();
        assert(a[a.len() - 1] == (last.0, last.1));
        assert(gives(a, last.0, last.1));
        assert(gives(b, last.0, last.1));
        let end = b.last();
        assert(b[b.len() - 1] == (end.0, end.1));
        assert(gives(b, end.0, end.1));
        assert(gives(a, end.0, end.1));
        let i = choose|i: int| 0 <= i < a.len() && #[trigger] a[i] == (end.0, end.1);
        let j = choose|j: int| 0 <= j < b.len() && #[trigger] b[j] == (last.0, last.1);
        if i != a.len() - 1 {
            assert(text::text_before(a[i].0, a[a.len() - 1].0));
            if j != b.len() - 1 {
                assert(text::text_before(b[j].0, b[b.len() - 1].0));
                text::text_before_asymmetric(last.0, end.0);
            } else {
                text::text_before_irreflexive(last.0);
            }
        }
        assert(last == end);
        let front = a.drop_last();
        let rest = b.drop_last();
        assert forall|n: Seq<char>, v: Seq<char>|
            #![trigger gives(front, n, v)]
            #![trigger gives(rest, n, v)]
            gives(front, n, v) <==> gives(rest, n, v) by {
            if gives(front, n, v) {
                let k = choose|k: int| 0 <= k < front.len() && #[trigger] front[k] == (n, v);
                assert(a[k] == (n, v));
                assert(gives(a, n, v));
                let m = choose|m: int| 0 <= m < b.len() && #[trigger] b[m] == (n, v);
                if m == b.len() - 1 {
                    assert(text::text_before(a[k].0, a[a.len() - 1].0));
                    text::text_before_irreflexive(n);
                }
                assert(rest[m] == (n, v));
            }
            if gives(rest, n, v) {
                let k = choose|k: int| 0 <= k < rest.len() && #[trigger] rest[k] == (n, v);
                assert(b[k] == (n, v));
                assert(gives(b, n, v));
                let m = choose|m: int| 0 <= m < a.len() && #[trigger] a[m] == (n, v);
                if m == a.len() - 1 {
                    assert(text::text_before(b[k].0, b[b.len() - 1].0));
                    text::text_before_irreflexive(n);
                }
                assert(front[m] == (n, v));
            }
        }
        environments_are_their_values(front, rest);
        assert(a =~= front.push(last));
        assert(b =~= rest.push(end));
    }
}

/// An environment gives a name at most one value, and gives it exactly where it stands among the
/// pairs with that value.
pub proof fn names_have_one_value(
    pairs: Seq<(Seq<char>, Seq<char>)>,
    name: Seq<char>,
    value: Seq<char>,
    other: Seq<char>,
)
    requires
        names_increase(pairs),
    ensures
        gives(pairs, name, value) <==> pairs.contains((name, value)),
        gives(pairs, name, value) && gives(pairs, name, other) ==> value == other,
        forall|i: int, j: int|
            0 <= i < j < pairs.len() ==> text::text_before(
                #[trigger] pairs[i].0,
                #[trigger] pairs[j].0,
            ),
{
    if gives(pairs, name, value) && gives(pairs, name, other) {
        let i = choose|i: int| 0 <= i < pairs.len() && #[trigger] pairs[i] == (name, value);
        let j = choose|j: int| 0 <= j < pairs.len() && #[trigger] pairs[j] == (name, other);
        text::text_before_irreflexive(name);
        if i < j {
            assert(text::text_before(pairs[i].0, pairs[j].0));
        } else if j < i {
            assert(text::text_before(pairs[j].0, pairs[i].0));
        }
    }
}

} // verus!

//! Lists of named entries that are kept in the order of their names, so that
//! a walk over one always meets the same entries in the same order.
//!
//! An ordered map of the standard library would walk its entries in the
//! same order. Verus accepts such a map with a `String` for a key, but
//! proves nothing of what it holds, not even that an entry that was just put
//! in can be found. A vector with its order for an invariant says all that
//! the map promised: no name twice, and the names ascending.

use vstd::prelude::*;
use crate::text::{
    lemma_precedes_irreflexive, lemma_precedes_total, lemma_precedes_transitive, precedes,
    str_eq, str_precedes,
};

verus! {

/// The names stand in strictly ascending order: none occurs twice.
pub open spec fn ascending<M>(s: Seq<(Seq<char>, M)>) -> bool {
    forall|i: int, j: int|
        #![trigger s[i], s[j]]
        0 <= i < j < s.len() ==> precedes(s[i].0, s[j].0)
}

/// Some entry goes by the name `key`.
pub open spec fn has_key<M>(s: Seq<(Seq<char>, M)>, key: Seq<char>) -> bool {
    exists|i: int| 0 <= i < s.len() && (#[trigger] s[i]).0 == key
}

/// The place of an entry that goes by the name `key`.
pub open spec fn index_of<M>(s: Seq<(Seq<char>, M)>, key: Seq<char>) -> int {
    choose|i: int| 0 <= i < s.len() && (#[trigger] s[i]).0 == key
}

/// What stands under the name `key`.
pub open spec fn value_of<M>(s: Seq<(Seq<char>, M)>, key: Seq<char>) -> M {
    s[index_of(s, key)].1
}

/// Where an entry that goes by the name `key` belongs in an ascending list:
/// behind the entries whose names precede it.
pub open spec fn place_of<M>(s: Seq<(Seq<char>, M)>, key: Seq<char>) -> int
    decreases s.len(),
{
    if s.len() == 0 {
        0
    } else if precedes(s.last().0, key) {
        s.len() as int
    } else {
        place_of(s.drop_last(), key)
    }
}

/// The list with `value` put under the name `key` at the place where it
/// belongs.
pub open spec fn inserted<M>(s: Seq<(Seq<char>, M)>, key: Seq<char>, value: M) -> Seq<
    (Seq<char>, M),
> {
    s.insert(place_of(s, key), (key, value))
}

/// The place of a name is behind the names that precede it and before the
/// others.
pub proof fn lemma_place_of<M>(s: Seq<(Seq<char>, M)>, key: Seq<char>, p: int)
    requires
        0 <= p <= s.len(),
        forall|j: int| 0 <= j < p ==> precedes((#[trigger] s[j]).0, key),
        forall|j: int| p <= j < s.len() ==> !precedes((#[trigger] s[j]).0, key),
    ensures
        place_of(s, key) == p,
    decreases s.len(),
{
    if s.len() > p {
        let t = s.drop_last();
        assert forall|j: int| 0 <= j < p implies precedes((#[trigger] t[j]).0, key) by {
            assert(t[j] == s[j]);
        }
        assert forall|j: int| p <= j < t.len() implies !precedes((#[trigger] t[j]).0, key) by {
            assert(t[j] == s[j]);
        }
        assert(!precedes(s[s.len() - 1].0, key));
        lemma_place_of(t, key, p);
    } else if s.len() > 0 {
        assert(precedes(s[s.len() - 1].0, key));
    }
}

/// In an ascending list that does not hold the name `key`, the names before
/// the place of `key` precede it and the names from that place on come
/// behind it.
pub proof fn lemma_place_divides<M>(s: Seq<(Seq<char>, M)>, key: Seq<char>)
    requires
        ascending(s),
        !has_key(s, key),
    ensures
        0 <= place_of(s, key) <= s.len(),
        forall|j: int| 0 <= j < place_of(s, key) ==> precedes((#[trigger] s[j]).0, key),
        forall|j: int| place_of(s, key) <= j < s.len() ==> precedes(key, (#[trigger] s[j]).0),
    decreases s.len(),
{
    if s.len() > 0 {
        let last = s[s.len() - 1];
        if precedes(last.0, key) {
            assert forall|j: int| 0 <= j < s.len() implies precedes((#[trigger] s[j]).0, key) by {
                if j < s.len() - 1 {
                    assert(precedes(s[j].0, last.0));
                    lemma_precedes_transitive(s[j].0, last.0, key, 0);
                }
            }
        } else {
            let t = s.drop_last();
            assert forall|i: int, j: int| #![trigger t[i], t[j]] 0 <= i < j < t.len() implies precedes(
                t[i].0,
                t[j].0,
            ) by {
                assert(t[i] == s[i] && t[j] == s[j]);
            }
            assert forall|j: int| 0 <= j < t.len() implies (#[trigger] t[j]).0 != key by {
                assert(t[j] == s[j]);
            }
            lemma_place_divides(t, key);
            assert forall|j: int| 0 <= j < place_of(s, key) implies precedes(
                (#[trigger] s[j]).0,
                key,
            ) by {
                assert(s[j] == t[j]);
            }
            assert forall|j: int| place_of(s, key) <= j < s.len() implies precedes(
                key,
                (#[trigger] s[j]).0,
            ) by {
                if j < t.len() {
                    assert(s[j] == t[j]);
                } else {
                    assert(s[j] == last);
                    assert(last.0 != key);
                    if !precedes(key, last.0) {
                        assert(key.subrange(0, 0) =~= last.0.subrange(0, 0));
                        lemma_precedes_total(key, last.0, 0);
                    }
                }
            }
        }
    }
}

/// Putting a new name into an ascending list keeps the list ascending.
pub proof fn lemma_inserted_ascending<M>(s: Seq<(Seq<char>, M)>, key: Seq<char>, value: M)
    requires
        ascending(s),
        !has_key(s, key),
    ensures
        ascending(inserted(s, key, value)),
{
    lemma_place_divides(s, key);
    lemma_insert_ascending(s, place_of(s, key), key, value);
}

/// An entry whose name comes behind all names of an ascending list is put
/// at the end.
pub proof fn lemma_inserted_last<M>(s: Seq<(Seq<char>, M)>, key: Seq<char>, value: M)
    requires
        forall|j: int| 0 <= j < s.len() ==> precedes((#[trigger] s[j]).0, key),
    ensures
        inserted(s, key, value) == s.push((key, value)),
        !has_key(s, key),
{
    lemma_place_of(s, key, s.len() as int);
    assert(s.insert(s.len() as int, (key, value)) =~= s.push((key, value)));
    lemma_precedes_irreflexive(key, 0);
    assert forall|j: int| 0 <= j < s.len() implies (#[trigger] s[j]).0 != key by {
        assert(precedes(s[j].0, key));
    }
}

/// In an ascending list a name has one place.
pub proof fn lemma_one_place<M>(s: Seq<(Seq<char>, M)>, key: Seq<char>, i: int)
    requires
        ascending(s),
        0 <= i < s.len(),
        s[i].0 == key,
    ensures
        has_key(s, key),
        index_of(s, key) == i,
        value_of(s, key) == s[i].1,
{
    let j = index_of(s, key);
    lemma_precedes_irreflexive(key, 0);
    if j < i {
        assert(precedes(s[j].0, s[i].0));
    } else if i < j {
        assert(precedes(s[i].0, s[j].0));
    }
}

/// Putting a new name at its place keeps the list ascending.
pub proof fn lemma_insert_ascending<M>(s: Seq<(Seq<char>, M)>, p: int, key: Seq<char>, value: M)
    requires
        ascending(s),
        0 <= p <= s.len(),
        forall|j: int| 0 <= j < p ==> precedes((#[trigger] s[j]).0, key),
        forall|j: int| p <= j < s.len() ==> precedes(key, (#[trigger] s[j]).0),
    ensures
        ascending(s.insert(p, (key, value))),
        !has_key(s, key),
{
    let t = s.insert(p, (key, value));
    assert forall|i: int, j: int| #![trigger t[i], t[j]] 0 <= i < j < t.len() implies precedes(
        t[i].0,
        t[j].0,
    ) by {
        if j < p {
            assert(t[i] == s[i] && t[j] == s[j]);
        } else if j == p {
            assert(t[i] == s[i]);
        } else if i < p {
            assert(t[i] == s[i] && t[j] == s[j - 1]);
            if i < j - 1 {
            } else {
                assert(i == j - 1);
            }
        } else if i == p {
            assert(t[j] == s[j - 1]);
        } else {
            assert(t[i] == s[i - 1] && t[j] == s[j - 1]);
        }
    }
    lemma_precedes_irreflexive(key, 0);
    assert forall|j: int| 0 <= j < s.len() implies (#[trigger] s[j]).0 != key by {
        if j < p {
            assert(precedes(s[j].0, key));
        } else {
            assert(precedes(key, s[j].0));
        }
    }
}

/// Looks for the entry that goes by the name `key`.
pub fn find<T: DeepView>(v: &Vec<(String, T)>, key: &str) -> (r: Option<usize>)
    ensures
        match r {
            Some(i) => i < v.len() && v.deep_view()[i as int].0 == key@,
            None => !has_key(v.deep_view(), key@),
        },
{
    let mut i: usize = 0;
    while i < v.len()
        invariant
            i <= v.len(),
            forall|j: int| 0 <= j < i ==> (#[trigger] v.deep_view()[j]).0 != key@,
        decreases v.len() - i,
    {
        if str_eq(v[i].0.as_str(), key) {
            return Some(i);
        }
        i = i + 1;
    }
    None
}

/// Puts `value` under the name `key`, at the place that keeps the names
/// ascending. A name that is taken already is refused: the list stays as it
/// was and the answer is `false`.
pub fn insert<T: DeepView>(v: &mut Vec<(String, T)>, key: String, value: T) -> (r: bool)
    requires
        ascending(old(v).deep_view()),
    ensures
        ascending(final(v).deep_view()),
        r == !has_key(old(v).deep_view(), key@),
        r ==> final(v).deep_view() == inserted(old(v).deep_view(), key@, value.deep_view()),
        !r ==> final(v).deep_view() == old(v).deep_view(),
{
    let ghost before = v.deep_view();
    let mut i: usize = 0;
    while i < v.len() && str_precedes(v[i].0.as_str(), key.as_str())
        invariant
            i <= v.len(),
            v.deep_view() == before,
            forall|j: int| 0 <= j < i ==> precedes((#[trigger] before[j]).0, key@),
        decreases v.len() - i,
    {
        i = i + 1;
    }
    if i < v.len() && str_eq(v[i].0.as_str(), key.as_str()) {
        assert(before[i as int].0 == key@);
        return false;
    }
    proof {
        assert forall|j: int| i <= j < before.len() implies precedes(
            key@,
            (#[trigger] before[j]).0,
        ) by {
            let at = before[i as int].0;
            assert(!precedes(at, key@));
            if !precedes(key@, at) {
                assert(key@.subrange(0, 0) =~= at.subrange(0, 0));
                lemma_precedes_total(key@, at, 0);
            }
            if i < j {
                assert(precedes(before[i as int].0, before[j].0));
                lemma_precedes_transitive(key@, at, before[j].0, 0);
            }
        }
        lemma_insert_ascending(before, i as int, key@, value.deep_view());
        assert forall|j: int| i <= j < before.len() implies !precedes(
            (#[trigger] before[j]).0,
            key@,
        ) by {
            assert(precedes(key@, before[j].0));
            if precedes(before[j].0, key@) {
                lemma_precedes_transitive(key@, before[j].0, key@, 0);
                lemma_precedes_irreflexive(key@, 0);
            }
        }
        lemma_place_of(before, key@, i as int);
    }
    let ghost k = key@;
    let ghost val = value.deep_view();
    v.insert(i, (key, value));
    assert(v.deep_view() =~= before.insert(i as int, (k, val)));
    true
}

} // verus!

//! The order of object members: keys that ascend strictly, as in the objects
//! that a JSON reader builds, and what setting members does to them.
use vstd::prelude::*;

use crate::json::{entries_get, insert_entries, insert_entry, lemma_insert_entry_skip, seq_lt, Json};

verus! {

/// Whether the keys of `e` ascend strictly (so no key occurs twice).
pub open spec fn sorted_entries(e: Seq<(Seq<char>, Json)>) -> bool {
    forall|i: int, j: int| 0 <= i < j < e.len() ==> seq_lt(#[trigger] e[i].0, #[trigger] e[j].0)
}

/// Whether some member of `e` has the key `k`.
pub open spec fn has_key(e: Seq<(Seq<char>, Json)>, k: Seq<char>) -> bool {
    exists|i: int| 0 <= i < e.len() && #[trigger] e[i].0 == k
}

/// The value of the last member of `s` with the key `k`.
pub open spec fn last_value(s: Seq<(Seq<char>, Json)>, k: Seq<char>) -> Option<Json>
    decreases s.len(),
{
    if s.len() == 0 {
        None
    } else if s.last().0 == k {
        Some(s.last().1)
    } else {
        last_value(s.drop_last(), k)
    }
}

pub proof fn lemma_seq_lt_irreflexive(a: Seq<char>)
    ensures
        !seq_lt(a, a),
    decreases a.len(),
{
    if a.len() > 0 {
        lemma_seq_lt_irreflexive(a.drop_first());
    }
}

pub proof fn lemma_seq_lt_asymmetric(a: Seq<char>, b: Seq<char>)
    ensures
        !(seq_lt(a, b) && seq_lt(b, a)),
    decreases a.len(),
{
    if a.len() > 0 && b.len() > 0 && a[0] == b[0] {
        lemma_seq_lt_asymmetric(a.drop_first(), b.drop_first());
    }
}

pub proof fn lemma_seq_lt_transitive(a: Seq<char>, b: Seq<char>, c: Seq<char>)
    requires
        seq_lt(a, b),
        seq_lt(b, c),
    ensures
        seq_lt(a, c),
    decreases a.len(),
{
    if a.len() > 0 && b.len() > 0 && c.len() > 0 && a[0] == b[0] && b[0] == c[0] {
        lemma_seq_lt_transitive(a.drop_first(), b.drop_first(), c.drop_first());
    }
}

pub proof fn lemma_seq_lt_total(a: Seq<char>, b: Seq<char>)
    requires
        a != b,
    ensures
        seq_lt(a, b) || seq_lt(b, a),
    decreases a.len(),
{
    if a.len() > 0 && b.len() > 0 && a[0] == b[0] {
        if a.drop_first() == b.drop_first() {
            assert(a =~= seq![a[0]] + a.drop_first());
            assert(b =~= seq![b[0]] + b.drop_first());
        }
        lemma_seq_lt_total(a.drop_first(), b.drop_first());
    } else if a.len() == 0 && b.len() == 0 {
        assert(a =~= b);
    } else if a.len() > 0 && b.len() > 0 {
        vstd::utf8::char_u32_cast(a[0], a[0] as u32);
        vstd::utf8::char_u32_cast(b[0], b[0] as u32);
    }
}

/// In strictly ascending members a key occurs at one place only.
pub proof fn lemma_sorted_keys_distinct(e: Seq<(Seq<char>, Json)>, i: int, j: int)
    requires
        sorted_entries(e),
        0 <= i < e.len(),
        0 <= j < e.len(),
        e[i].0 == e[j].0,
    ensures
        i == j,
{
    if i < j {
        lemma_seq_lt_irreflexive(e[i].0);
        assert(seq_lt(e[i].0, e[j].0));
    } else if j < i {
        lemma_seq_lt_irreflexive(e[i].0);
        assert(seq_lt(e[j].0, e[i].0));
    }
}

/// Setting a key in strictly ascending members keeps them ascending, holds the
/// new member, keeps every key, and leaves the other members as they were.
pub proof fn lemma_insert_entry_sorted(e: Seq<(Seq<char>, Json)>, k: Seq<char>, v: Json)
    requires
        sorted_entries(e),
    ensures
        sorted_entries(insert_entry(e, k, v)),
        insert_entry(e, k, v).contains((k, v)),
        forall|j: int| 0 <= j < e.len() ==> has_key(insert_entry(e, k, v), #[trigger] e[j].0),
        forall|i: int|
            0 <= i < insert_entry(e, k, v).len() && (#[trigger] insert_entry(e, k, v)[i]).0 != k
                ==> e.contains(insert_entry(e, k, v)[i]),
    decreases e.len(),
{
    let r = insert_entry(e, k, v);
    if e.len() == 0 {
        assert(r[0] == (k, v));
    } else if e[0].0 == k {
        assert(r =~= e.update(0, (k, v)));
        assert(r[0] == (k, v));
        assert forall|j: int| 0 <= j < e.len() implies has_key(r, #[trigger] e[j].0) by {
            assert(r[j].0 == e[j].0);
        }
        assert forall|i: int| 0 <= i < r.len() && (#[trigger] r[i]).0 != k implies e.contains(r[i]) by {
            assert(r[i] == e[i]);
        }
        assert forall|i: int, j: int| 0 <= i < j < r.len() implies seq_lt(#[trigger] r[i].0, #[trigger] r[j].0) by {
            assert(r[i].0 == e[i].0 && r[j].0 == e[j].0);
        }
    } else if seq_lt(k, e[0].0) {
        assert(r =~= seq![(k, v)] + e);
        assert(r[0] == (k, v));
        assert forall|j: int| 0 <= j < e.len() implies has_key(r, #[trigger] e[j].0) by {
            assert(r[j + 1].0 == e[j].0);
        }
        assert forall|i: int| 0 <= i < r.len() && (#[trigger] r[i]).0 != k implies e.contains(r[i]) by {
            assert(r[i] == e[i - 1]);
        }
        assert forall|i: int, j: int| 0 <= i < j < r.len() implies seq_lt(#[trigger] r[i].0, #[trigger] r[j].0) by {
            if i == 0 {
                if j > 1 {
                    assert(seq_lt(e[0].0, e[j - 1].0));
                    lemma_seq_lt_transitive(k, e[0].0, e[j - 1].0);
                }
            } else {
                assert(r[i] == e[i - 1] && r[j] == e[j - 1]);
            }
        }
    } else {
        let d = e.drop_first();
        assert forall|i: int, j: int| 0 <= i < j < d.len() implies seq_lt(#[trigger] d[i].0, #[trigger] d[j].0) by {
            assert(d[i] == e[i + 1] && d[j] == e[j + 1]);
        }
        lemma_insert_entry_sorted(d, k, v);
        let rd = insert_entry(d, k, v);
        assert(r =~= seq![e[0]] + rd);
        lemma_seq_lt_total(e[0].0, k);
        assert(seq_lt(e[0].0, k));
        let p = choose|p: int| 0 <= p < rd.len() && rd[p] == (k, v);
        assert(r[p + 1] == (k, v));
        assert forall|j: int| 0 <= j < e.len() implies has_key(r, #[trigger] e[j].0) by {
            if j == 0 {
                assert(r[0].0 == e[0].0);
            } else {
                assert(e[j] == d[j - 1]);
                assert(has_key(rd, d[j - 1].0));
                let m = choose|m: int| 0 <= m < rd.len() && #[trigger] rd[m].0 == d[j - 1].0;
                assert(r[m + 1].0 == e[j].0);
            }
        }
        assert forall|i: int| 0 <= i < r.len() && (#[trigger] r[i]).0 != k implies e.contains(r[i]) by {
            if i == 0 {
                assert(e[0] == r[0]);
            } else {
                assert(r[i] == rd[i - 1]);
                assert(d.contains(rd[i - 1]));
                let m = choose|m: int| 0 <= m < d.len() && d[m] == rd[i - 1];
                assert(e[m + 1] == d[m]);
            }
        }
        assert forall|i: int, j: int| 0 <= i < j < r.len() implies seq_lt(#[trigger] r[i].0, #[trigger] r[j].0) by {
            if i == 0 {
                assert(r[j] == rd[j - 1]);
                if rd[j - 1].0 != k {
                    assert(d.contains(rd[j - 1]));
                    let m = choose|m: int| 0 <= m < d.len() && d[m] == rd[j - 1];
                    assert(e[m + 1] == d[m]);
                    assert(seq_lt(e[0].0, e[m + 1].0));
                }
            } else {
                assert(r[i] == rd[i - 1] && r[j] == rd[j - 1]);
            }
        }
    }
}

/// Setting a key that strictly ascending members already hold replaces that member in place.
pub proof fn lemma_insert_entry_present(e: Seq<(Seq<char>, Json)>, p: int, v: Json)
    requires
        sorted_entries(e),
        0 <= p < e.len(),
    ensures
        insert_entry(e, e[p].0, v) == e.update(p, (e[p].0, v)),
{
    let k = e[p].0;
    assert forall|j: int| 0 <= j < p implies (#[trigger] e[j]).0 != k && !seq_lt(k, e[j].0) by {
        assert(seq_lt(e[j].0, e[p].0));
        lemma_seq_lt_irreflexive(k);
        lemma_seq_lt_asymmetric(e[j].0, k);
    }
    lemma_insert_entry_skip(e, k, v, p);
    let rest = e.subrange(p, e.len() as int);
    assert(rest[0].0 == k);
    assert(e.subrange(0, p) + rest.update(0, (k, v)) =~= e.update(p, (k, v)));
}

/// Setting members in turn on strictly ascending members keeps them ascending,
/// holds every key that was set, and each set key has its last value.
pub proof fn lemma_insert_entries_sorted(e: Seq<(Seq<char>, Json)>, s: Seq<(Seq<char>, Json)>)
    requires
        sorted_entries(e),
    ensures
        sorted_entries(insert_entries(e, s)),
        forall|j: int| 0 <= j < s.len() ==> has_key(insert_entries(e, s), #[trigger] s[j].0),
        forall|i: int|
            0 <= i < insert_entries(e, s).len() && last_value(s, (#[trigger] insert_entries(e, s)[i]).0)
                is Some ==> insert_entries(e, s)[i].1 == last_value(s, insert_entries(e, s)[i].0)->0,
    decreases s.len(),
{
    if s.len() > 0 {
        let sp = s.drop_last();
        let (k, v) = s.last();
        lemma_insert_entries_sorted(e, sp);
        let ep = insert_entries(e, sp);
        lemma_insert_entry_sorted(ep, k, v);
        let r = insert_entries(e, s);
        assert(r == insert_entry(ep, k, v));
        let p = choose|p: int| 0 <= p < r.len() && r[p] == (k, v);
        assert forall|j: int| 0 <= j < s.len() implies has_key(r, #[trigger] s[j].0) by {
            if j == s.len() - 1 {
                assert(r[p].0 == s[j].0);
            } else {
                assert(s[j] == sp[j]);
                assert(has_key(ep, sp[j].0));
                let m = choose|m: int| 0 <= m < ep.len() && #[trigger] ep[m].0 == sp[j].0;
                assert(has_key(r, ep[m].0));
            }
        }
        assert forall|i: int| 0 <= i < r.len() && last_value(s, (#[trigger] r[i]).0) is Some implies r[i].1
            == last_value(s, r[i].0)->0 by {
            if r[i].0 == k {
                lemma_sorted_keys_distinct(r, i, p);
            } else {
                assert(ep.contains(r[i]));
                let m = choose|m: int| 0 <= m < ep.len() && ep[m] == r[i];
                assert(last_value(s, r[i].0) == last_value(sp, ep[m].0));
            }
        }
    }
}

/// Setting members whose keys strictly ascending members all hold changes each
/// held value to its last set value and moves nothing.
pub proof fn lemma_insert_entries_present(x: Seq<(Seq<char>, Json)>, s: Seq<(Seq<char>, Json)>)
    requires
        sorted_entries(x),
        forall|j: int| 0 <= j < s.len() ==> has_key(x, #[trigger] s[j].0),
    ensures
        insert_entries(x, s).len() == x.len(),
        forall|i: int|
            0 <= i < x.len() ==> (#[trigger] insert_entries(x, s)[i]).0 == x[i].0
                && insert_entries(x, s)[i].1 == if last_value(s, x[i].0) is Some {
                last_value(s, x[i].0)->0
            } else {
                x[i].1
            },
    decreases s.len(),
{
    if s.len() > 0 {
        let sp = s.drop_last();
        let (k, v) = s.last();
        assert forall|j: int| 0 <= j < sp.len() implies has_key(x, #[trigger] sp[j].0) by {
            assert(sp[j] == s[j]);
        }
        lemma_insert_entries_present(x, sp);
        let rp = insert_entries(x, sp);
        assert(has_key(x, s[s.len() - 1].0));
        let p = choose|p: int| 0 <= p < x.len() && #[trigger] x[p].0 == k;
        assert(rp[p].0 == k);
        assert forall|i: int, j: int| 0 <= i < j < rp.len() implies seq_lt(#[trigger] rp[i].0, #[trigger] rp[j].0) by {
            assert(rp[i].0 == x[i].0 && rp[j].0 == x[j].0);
        }
        lemma_insert_entry_present(rp, p, v);
        let r = insert_entries(x, s);
        assert(r == rp.update(p, (k, v)));
        assert forall|i: int| 0 <= i < x.len() implies (#[trigger] r[i]).0 == x[i].0 && r[i].1 == if last_value(
            s,
            x[i].0,
        ) is Some {
            last_value(s, x[i].0)->0
        } else {
            x[i].1
        } by {
            if i != p {
                if x[i].0 == k {
                    lemma_sorted_keys_distinct(x, i, p);
                }
                assert(r[i] == rp[i]);
            }
        }
    }
}

/// Setting the same members twice in turn gives what setting them once gives.
pub proof fn lemma_insert_entries_idempotent(e: Seq<(Seq<char>, Json)>, s: Seq<(Seq<char>, Json)>)
    requires
        sorted_entries(e),
    ensures
        insert_entries(insert_entries(e, s), s) == insert_entries(e, s),
{
    let first = insert_entries(e, s);
    lemma_insert_entries_sorted(e, s);
    lemma_insert_entries_present(first, s);
    let second = insert_entries(first, s);
    assert forall|i: int| 0 <= i < first.len() implies #[trigger] second[i] == first[i] by {
        assert(second[i].0 == first[i].0);
    }
    assert(second =~= first);
}

/// After setting a key, looking it up finds the value set.
pub proof fn lemma_insert_entry_get(e: Seq<(Seq<char>, Json)>, k: Seq<char>, v: Json)
    ensures
        entries_get(insert_entry(e, k, v), k) == Some(v),
    decreases e.len(),
{
    let r = insert_entry(e, k, v);
    if e.len() == 0 {
        assert(r[0] == (k, v));
    } else if e[0].0 == k {
        assert(r[0] == (k, v));
    } else if seq_lt(k, e[0].0) {
        assert(r[0] == (k, v));
    } else {
        lemma_insert_entry_get(e.drop_first(), k, v);
        assert(r.drop_first() =~= insert_entry(e.drop_first(), k, v));
    }
}

/// Setting one key leaves what every other key looks up.
pub proof fn lemma_insert_entry_get_other(e: Seq<(Seq<char>, Json)>, k: Seq<char>, v: Json, other: Seq<char>)
    requires
        other != k,
    ensures
        entries_get(insert_entry(e, k, v), other) == entries_get(e, other),
    decreases e.len(),
{
    let r = insert_entry(e, k, v);
    if e.len() == 0 {
        assert(r.drop_first() =~= Seq::<(Seq<char>, Json)>::empty());
        assert(r[0].0 == k);
        assert(entries_get(r.drop_first(), other) is None);
    } else if e[0].0 == k {
        assert(r.drop_first() =~= e.drop_first());
        assert(r[0].0 == k);
    } else if seq_lt(k, e[0].0) {
        assert(r.drop_first() =~= e);
        assert(r[0].0 == k);
    } else {
        lemma_insert_entry_get_other(e.drop_first(), k, v, other);
        assert(r.drop_first() =~= insert_entry(e.drop_first(), k, v));
    }
}

/// After setting members in turn, a key looks up the last value set for it,
/// or what it looked up before when none was set.
pub proof fn lemma_insert_entries_get(e: Seq<(Seq<char>, Json)>, s: Seq<(Seq<char>, Json)>, k: Seq<char>)
    ensures
        entries_get(insert_entries(e, s), k) == if last_value(s, k) is Some {
            last_value(s, k)
        } else {
            entries_get(e, k)
        },
    decreases s.len(),
{
    if s.len() > 0 {
        lemma_insert_entries_get(e, s.drop_last(), k);
        if s.last().0 == k {
            lemma_insert_entry_get(insert_entries(e, s.drop_last()), k, s.last().1);
        } else {
            lemma_insert_entry_get_other(insert_entries(e, s.drop_last()), s.last().0, s.last().1, k);
        }
    }
}

/// The last value of a key in two runs of members is its last in the second
/// run, or its last in the first when the second has none.
pub proof fn lemma_last_value_concat(a: Seq<(Seq<char>, Json)>, b: Seq<(Seq<char>, Json)>, k: Seq<char>)
    ensures
        last_value(a + b, k) == if last_value(b, k) is Some {
            last_value(b, k)
        } else {
            last_value(a, k)
        },
    decreases b.len(),
{
    if b.len() == 0 {
        assert(a + b =~= a);
    } else {
        assert((a + b).drop_last() =~= a + b.drop_last());
        assert((a + b).last() == b.last());
        lemma_last_value_concat(a, b.drop_last(), k);
    }
}

} // verus!

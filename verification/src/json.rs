use vstd::prelude::*;
use vstd::string::*;

use crate::text::{push_char, push_str};

verus! {

broadcast use vstd::string::group_string_axioms;

/// A JSON document as the components exchange it. Numbers are kept in the
/// textual form that a JSON writer gives them.
#[derive(Debug, PartialEq)]
pub enum JsonValue {
    Null,
    Bool(bool),
    Number(String),
    Str(String),
    Array(Vec<JsonValue>),
    Object(Vec<(String, JsonValue)>),
}

/// The mathematical model of a JSON document.
pub enum Json {
    Null,
    Bool(bool),
    Number(Seq<char>),
    Str(Seq<char>),
    Array(Seq<Json>),
    Object(Seq<(Seq<char>, Json)>),
}

pub open spec fn jv(v: JsonValue) -> Json
    decreases v,
{
    match v {
        JsonValue::Null => Json::Null,
        JsonValue::Bool(b) => Json::Bool(b),
        JsonValue::Number(t) => Json::Number(t@),
        JsonValue::Str(s) => Json::Str(s@),
        JsonValue::Array(items) => Json::Array(jv_items(items@)),
        JsonValue::Object(entries) => Json::Object(jv_entries(entries@)),
    }
}

pub open spec fn jv_items(s: Seq<JsonValue>) -> Seq<Json>
    decreases s,
{
    if s.len() == 0 {
        Seq::empty()
    } else {
        jv_items(s.drop_last()).push(jv(s.last()))
    }
}

pub open spec fn jv_entries(s: Seq<(String, JsonValue)>) -> Seq<(Seq<char>, Json)>
    decreases s,
{
    if s.len() == 0 {
        Seq::empty()
    } else {
        jv_entries(s.drop_last()).push((s.last().0@, jv(s.last().1)))
    }
}

impl View for JsonValue {
    type V = Json;

    open spec fn view(&self) -> Json {
        jv(*self)
    }
}

pub proof fn lemma_jv_items(s: Seq<JsonValue>)
    ensures
        jv_items(s).len() == s.len(),
        forall|i: int| 0 <= i < s.len() ==> #[trigger] jv_items(s)[i] == jv(s[i]),
    decreases s.len(),
{
    if s.len() > 0 {
        lemma_jv_items(s.drop_last());
    }
}

pub proof fn lemma_jv_entries(s: Seq<(String, JsonValue)>)
    ensures
        jv_entries(s).len() == s.len(),
        forall|i: int|
            0 <= i < s.len() ==> #[trigger] jv_entries(s)[i] == (s[i].0@, jv(s[i].1)),
    decreases s.len(),
{
    if s.len() > 0 {
        lemma_jv_entries(s.drop_last());
    }
}

/// The value of the first entry under `key`.
pub open spec fn entries_get(e: Seq<(Seq<char>, Json)>, key: Seq<char>) -> Option<Json>
    decreases e.len(),
{
    if e.len() == 0 {
        None
    } else if e[0].0 == key {
        Some(e[0].1)
    } else {
        entries_get(e.drop_first(), key)
    }
}

/// The member `key` of an object, as `Value::get` with a string key gives it.
pub open spec fn json_get(v: Json, key: Seq<char>) -> Option<Json> {
    match v {
        Json::Object(e) => entries_get(e, key),
        _ => None,
    }
}

/// The text of a string value, as `Value::as_str` gives it.
pub open spec fn json_str(v: Json) -> Option<Seq<char>> {
    match v {
        Json::Str(s) => Some(s),
        _ => None,
    }
}

/// `json_get` followed by `json_str`.
pub open spec fn json_get_str(v: Json, key: Seq<char>) -> Option<Seq<char>> {
    match json_get(v, key) {
        Some(m) => json_str(m),
        None => None,
    }
}

/// Whether a value is an object with at least one member.
pub open spec fn is_nonempty_object(v: Json) -> bool {
    match v {
        Json::Object(e) => e.len() > 0,
        _ => false,
    }
}

/// The map that an object's entries stand for, first entries winning.
pub open spec fn entries_map(e: Seq<(Seq<char>, Json)>) -> Map<Seq<char>, Json> {
    Map::new(|k: Seq<char>| entries_get(e, k) is Some, |k: Seq<char>| entries_get(e, k)->0)
}

proof fn lemma_entries_get_skip(e: Seq<(Seq<char>, Json)>, key: Seq<char>, i: int)
    requires
        0 <= i <= e.len(),
        forall|j: int| 0 <= j < i ==> (#[trigger] e[j]).0 != key,
    ensures
        entries_get(e, key) == entries_get(e.subrange(i, e.len() as int), key),
    decreases i,
{
    if i == 0 {
        assert(e.subrange(0, e.len() as int) == e);
    } else {
        assert(e[0].0 != key);
        assert forall|j: int| 0 <= j < i - 1 implies (#[trigger] e.drop_first()[j]).0 != key by {
            assert(e.drop_first()[j] == e[j + 1]);
        }
        lemma_entries_get_skip(e.drop_first(), key, i - 1);
        assert(e.drop_first().subrange(i - 1, e.drop_first().len() as int) == e.subrange(
            i,
            e.len() as int,
        ));
    }
}

/// Looking up a key finds the value of the first entry with that key.
pub proof fn lemma_entries_get_index(e: Seq<(Seq<char>, Json)>, key: Seq<char>, i: int)
    requires
        0 <= i < e.len(),
        e[i].0 == key,
        forall|j: int| 0 <= j < i ==> (#[trigger] e[j]).0 != key,
    ensures
        entries_get(e, key) == Some(e[i].1),
{
    lemma_entries_get_skip(e, key, i);
    assert(e.subrange(i, e.len() as int)[0] == e[i]);
}

/// Looking up a key that no entry has finds nothing.
pub proof fn lemma_entries_get_none(e: Seq<(Seq<char>, Json)>, key: Seq<char>)
    requires
        forall|j: int| 0 <= j < e.len() ==> (#[trigger] e[j]).0 != key,
    ensures
        entries_get(e, key) is None,
{
    lemma_entries_get_skip(e, key, e.len() as int);
}

/// Looking up a key in two runs of entries finds it in the first run, else in the second.
pub proof fn lemma_entries_get_concat(a: Seq<(Seq<char>, Json)>, b: Seq<(Seq<char>, Json)>, k: Seq<char>)
    ensures
        entries_get(a + b, k) == if entries_get(a, k) is Some {
            entries_get(a, k)
        } else {
            entries_get(b, k)
        },
    decreases a.len(),
{
    if a.len() == 0 {
        assert(a + b =~= b);
    } else {
        assert((a + b).drop_first() =~= a.drop_first() + b);
        lemma_entries_get_concat(a.drop_first(), b, k);
    }
}

impl JsonValue {
    /// A string value with the text of `s`.
    pub fn from_str(s: &str) -> (r: JsonValue)
        ensures
            r@ == Json::Str(s@),
    {
        JsonValue::Str(s.to_string())
    }

    /// An object with no members.
    pub fn empty_object() -> (r: JsonValue)
        ensures
            r@ == Json::Object(Seq::empty()),
    {
        let v: Vec<(String, JsonValue)> = Vec::new();
        proof {
            assert(jv_entries(v@) == Seq::<(Seq<char>, Json)>::empty());
        }
        JsonValue::Object(v)
    }

    /// The member `key` of an object; `None` for a missing member or a value that is no object.
    pub fn get<'a>(&'a self, key: &str) -> (r: Option<&'a JsonValue>)
        ensures
            match r {
                Some(m) => json_get(self@, key@) == Some(m@),
                None => json_get(self@, key@) is None,
            },
    {
        match self {
            JsonValue::Object(entries) => entries_lookup(entries, key),
            _ => None,
        }
    }

    /// The text of a string value.
    pub fn as_str<'a>(&'a self) -> (r: Option<&'a String>)
        ensures
            match r {
                Some(s) => json_str(self@) == Some(s@),
                None => json_str(self@) is None,
            },
    {
        match self {
            JsonValue::Str(s) => Some(s),
            _ => None,
        }
    }

    /// Whether the value is an object.
    pub fn is_object(&self) -> (b: bool)
        ensures
            b == (self@ is Object),
    {
        match self {
            JsonValue::Object(_) => true,
            _ => false,
        }
    }

    /// Whether the value is an object with at least one member.
    pub fn is_nonempty_object(&self) -> (b: bool)
        ensures
            b == is_nonempty_object(self@),
    {
        match self {
            JsonValue::Object(entries) => {
                proof {
                    lemma_jv_entries(entries@);
                }
                entries.len() > 0
            },
            _ => false,
        }
    }

    /// The string member `key` of an object.
    pub fn get_str<'a>(&'a self, key: &str) -> (r: Option<&'a String>)
        ensures
            match r {
                Some(s) => json_get_str(self@, key@) == Some(s@),
                None => json_get_str(self@, key@) is None,
            },
    {
        match self.get(key) {
            Some(m) => m.as_str(),
            None => None,
        }
    }

    /// The JSON text of the value, in the compact form that `serde_json::to_string` writes.
    pub fn render(&self) -> (r: String)
        ensures
            r@ == render(self@),
    {
        let mut out = String::new();
        render_into(self, &mut out);
        out
    }
}

/// The first entry under `key`.
pub fn entries_lookup<'a>(entries: &'a Vec<(String, JsonValue)>, key: &str) -> (r: Option<
    &'a JsonValue,
>)
    ensures
        match r {
            Some(m) => entries_get(jv_entries(entries@), key@) == Some(m@),
            None => entries_get(jv_entries(entries@), key@) is None,
        },
{
    proof {
        lemma_jv_entries(entries@);
    }
    let ghost e = jv_entries(entries@);
    let mut i: usize = 0;
    while i < entries.len()
        invariant
            e == jv_entries(entries@),
            e.len() == entries@.len(),
            forall|j: int| 0 <= j < entries@.len() ==> #[trigger] e[j] == (entries@[j].0@, jv(entries@[j].1)),
            i <= entries.len(),
            forall|j: int| 0 <= j < i ==> (#[trigger] e[j]).0 != key@,
        decreases entries.len() - i,
    {
        if str_eq(entries[i].0.as_str(), key) {
            proof {
                lemma_entries_get_index(e, key@, i as int);
            }
            return Some(&entries[i].1);
        }
        i = i + 1;
    }
    proof {
        lemma_entries_get_none(e, key@);
    }
    None
}

/// Whether two strings are equal.
pub fn str_eq(a: &str, b: &str) -> (r: bool)
    ensures
        r == (a@ == b@),
{
    let n = a.unicode_len();
    let m = b.unicode_len();
    if n != m {
        return false;
    }
    let mut i: usize = 0;
    while i < n
        invariant
            n == a@.len(),
            m == b@.len(),
            n == m,
            i <= n,
            forall|j: int| 0 <= j < i ==> a@[j] == b@[j],
        decreases n - i,
    {
        if a.get_char(i) != b.get_char(i) {
            return false;
        }
        i = i + 1;
    }
    proof {
        assert(a@ == b@);
    }
    true
}

/// Whether `a` sorts strictly before `b` by code points, as `str` orders.
pub open spec fn seq_lt(a: Seq<char>, b: Seq<char>) -> bool
    decreases a.len(),
{
    if b.len() == 0 {
        false
    } else if a.len() == 0 {
        true
    } else if a[0] != b[0] {
        (a[0] as u32) < (b[0] as u32)
    } else {
        seq_lt(a.drop_first(), b.drop_first())
    }
}

/// Whether `a` sorts strictly before `b`.
pub fn str_lt(a: &str, b: &str) -> (r: bool)
    ensures
        r == seq_lt(a@, b@),
{
    let n = a.unicode_len();
    let m = b.unicode_len();
    let mut i: usize = 0;
    proof {
        assert(a@.subrange(0, n as int) == a@);
        assert(b@.subrange(0, m as int) == b@);
    }
    while i < n && i < m
        invariant
            n == a@.len(),
            m == b@.len(),
            i <= n,
            i <= m,
            forall|j: int| 0 <= j < i ==> a@[j] == b@[j],
            seq_lt(a@, b@) == seq_lt(a@.subrange(i as int, n as int), b@.subrange(i as int, m as int)),
        decreases n - i,
    {
        let ca = a.get_char(i);
        let cb = b.get_char(i);
        if ca != cb {
            proof {
                assert(a@.subrange(i as int, n as int)[0] == ca);
                assert(b@.subrange(i as int, m as int)[0] == cb);
            }
            return (ca as u32) < (cb as u32);
        }
        proof {
            assert(a@.subrange(i as int, n as int).drop_first() == a@.subrange(i + 1, n as int));
            assert(b@.subrange(i as int, m as int).drop_first() == b@.subrange(i + 1, m as int));
        }
        i = i + 1;
    }
    i < m
}

/// The entries of an object after setting `key` to `value`: scanning from the
/// start, the first entry with that key is replaced, or the entry is put before the
/// first key that sorts after it, or at the end.
pub open spec fn insert_entry(e: Seq<(Seq<char>, Json)>, k: Seq<char>, v: Json) -> Seq<
    (Seq<char>, Json),
>
    decreases e.len(),
{
    if e.len() == 0 {
        seq![(k, v)]
    } else if e[0].0 == k {
        e.update(0, (k, v))
    } else if seq_lt(k, e[0].0) {
        seq![(k, v)] + e
    } else {
        seq![e[0]] + insert_entry(e.drop_first(), k, v)
    }
}

pub(crate) proof fn lemma_insert_entry_skip(e: Seq<(Seq<char>, Json)>, k: Seq<char>, v: Json, i: int)
    requires
        0 <= i <= e.len(),
        forall|j: int| 0 <= j < i ==> (#[trigger] e[j]).0 != k && !seq_lt(k, e[j].0),
    ensures
        insert_entry(e, k, v) == e.subrange(0, i) + insert_entry(e.subrange(i, e.len() as int), k, v),
    decreases i,
{
    if i == 0 {
        assert(e.subrange(0, 0) + insert_entry(e.subrange(0, e.len() as int), k, v) =~= insert_entry(e, k, v)) by {
            assert(e.subrange(0, e.len() as int) == e);
        }
    } else {
        let d = e.drop_first();
        assert(e[0].0 != k && !seq_lt(k, e[0].0));
        assert forall|j: int| 0 <= j < i - 1 implies (#[trigger] d[j]).0 != k && !seq_lt(k, d[j].0) by {
            assert(d[j] == e[j + 1]);
        }
        lemma_insert_entry_skip(d, k, v, i - 1);
        assert(d.subrange(i - 1, d.len() as int) == e.subrange(i, e.len() as int));
        assert(seq![e[0]] + d.subrange(0, i - 1) =~= e.subrange(0, i));
    }
}

/// Sets `key` to `value` in an object: an entry with that key is replaced;
/// otherwise the entry goes where the keys stay in ascending order.
pub fn entries_insert(entries: &mut Vec<(String, JsonValue)>, key: String, value: JsonValue)
    ensures
        jv_entries(final(entries)@) == insert_entry(jv_entries(old(entries)@), key@, value@),
        entries_map(jv_entries(final(entries)@)) == entries_map(jv_entries(old(entries)@)).insert(
            key@,
            value@,
        ),
{
    proof {
        lemma_jv_entries(entries@);
    }
    let ghost e = jv_entries(entries@);
    let ghost ghost_key = key@;
    let ghost ghost_val = value@;
    let mut i: usize = 0;
    while i < entries.len()
        invariant
            e == jv_entries(entries@),
            e.len() == entries@.len(),
            forall|j: int| 0 <= j < entries@.len() ==> #[trigger] e[j] == (entries@[j].0@, jv(entries@[j].1)),
            i <= entries.len(),
            forall|j: int| 0 <= j < i ==> (#[trigger] e[j]).0 != ghost_key && !seq_lt(ghost_key, e[j].0),
            key@ == ghost_key,
            value@ == ghost_val,
            e == jv_entries(old(entries)@),
        ensures
            i < entries.len() ==> e[i as int].0 != ghost_key && seq_lt(ghost_key, e[i as int].0),
        decreases entries.len() - i,
    {
        if str_eq(entries[i].0.as_str(), key.as_str()) {
            let ghost old_e = e;
            let ghost old_entries = entries@;
            entries.set(i, (key, value));
            proof {
                lemma_jv_entries(entries@);
                let ne = jv_entries(entries@);
                assert(entries@ == old_entries.update(i as int, entries@[i as int]));
                assert(ne[i as int] == (ghost_key, ghost_val));
                assert forall|j: int| 0 <= j < ne.len() && j != i implies ne[j] == old_e[j] by {
                    assert(entries@[j] == old_entries[j]);
                }
                assert(ne =~= old_e.update(i as int, (ghost_key, ghost_val)));
                lemma_entries_get_index(ne, ghost_key, i as int);
                assert forall|k: Seq<char>| k != ghost_key implies entries_get(ne, k) == entries_get(old_e, k) by {
                    lemma_entries_get_same_but_one(old_e, ne, i as int, k);
                }
                assert(entries_map(ne) =~= entries_map(old_e).insert(ghost_key, ghost_val));
                lemma_insert_entry_skip(old_e, ghost_key, ghost_val, i as int);
                let rest = old_e.subrange(i as int, old_e.len() as int);
                assert(rest[0].0 == ghost_key);
                assert(old_e.subrange(0, i as int) + rest.update(0, (ghost_key, ghost_val)) =~= ne);
            }
            return;
        }
        if str_lt(key.as_str(), entries[i].0.as_str()) {
            break;
        }
        i = i + 1;
    }
    let ghost old_e = e;
    proof {
        lemma_insert_entry_skip(old_e, ghost_key, ghost_val, i as int);
        let rest = old_e.subrange(i as int, old_e.len() as int);
        if i < old_e.len() {
            assert(rest[0] == old_e[i as int]);
        }
        assert(insert_entry(rest, ghost_key, ghost_val) =~= seq![(ghost_key, ghost_val)] + rest);
        assert(old_e.subrange(0, i as int) + (seq![(ghost_key, ghost_val)] + rest) =~= old_e.insert(
            i as int,
            (ghost_key, ghost_val),
        ));
    }
    entries.insert(i, (key, value));
    proof {
        lemma_jv_entries(entries@);
        let ne = jv_entries(entries@);
        assert(ne =~= old_e.insert(i as int, (ghost_key, ghost_val)));
        lemma_entries_get_index(ne, ghost_key, i as int);
        assert forall|k: Seq<char>| k != ghost_key implies entries_get(ne, k) == entries_get(old_e, k) by {
            lemma_entries_get_inserted(old_e, i as int, (ghost_key, ghost_val), k);
        }
        assert(entries_map(ne) =~= entries_map(old_e).insert(ghost_key, ghost_val));
    }
}

proof fn lemma_entries_get_same_but_one(
    e1: Seq<(Seq<char>, Json)>,
    e2: Seq<(Seq<char>, Json)>,
    i: int,
    k: Seq<char>,
)
    requires
        e1.len() == e2.len(),
        0 <= i < e1.len(),
        e1[i].0 != k,
        e2[i].0 != k,
        forall|j: int| 0 <= j < e1.len() && j != i ==> e1[j] == e2[j],
    ensures
        entries_get(e1, k) == entries_get(e2, k),
    decreases e1.len(),
{
    if i == 0 {
        assert(e1.drop_first() == e2.drop_first());
    } else {
        assert forall|j: int| 0 <= j < e1.len() - 1 && j != i - 1 implies e1.drop_first()[j]
            == e2.drop_first()[j] by {
            assert(e1.drop_first()[j] == e1[j + 1]);
        }
        if e1[0].0 != k {
            lemma_entries_get_same_but_one(e1.drop_first(), e2.drop_first(), i - 1, k);
        }
    }
}

proof fn lemma_entries_get_inserted(
    e: Seq<(Seq<char>, Json)>,
    i: int,
    x: (Seq<char>, Json),
    k: Seq<char>,
)
    requires
        0 <= i <= e.len(),
        x.0 != k,
    ensures
        entries_get(e.insert(i, x), k) == entries_get(e, k),
    decreases e.len(),
{
    let ne = e.insert(i, x);
    if i == 0 {
        assert(ne.drop_first() == e);
    } else {
        assert(ne[0] == e[0]);
        if e[0].0 != k {
            assert(ne.drop_first() == e.drop_first().insert(i - 1, x));
            lemma_entries_get_inserted(e.drop_first(), i - 1, x, k);
        }
    }
}

/// A copy of `v`.
pub fn deep_clone(v: &JsonValue) -> (r: JsonValue)
    ensures
        r@ == v@,
    decreases v,
{
    match v {
        JsonValue::Null => JsonValue::Null,
        JsonValue::Bool(b) => JsonValue::Bool(*b),
        JsonValue::Number(t) => JsonValue::Number(t.clone()),
        JsonValue::Str(s) => JsonValue::Str(s.clone()),
        JsonValue::Array(items) => {
            proof {
                lemma_jv_items(items@);
            }
            let mut out: Vec<JsonValue> = Vec::new();
            let mut i: usize = 0;
            while i < items.len()
                invariant
                    *v == JsonValue::Array(*items),
                    i <= items.len(),
                    out@.len() == i,
                    jv_items(items@).len() == items@.len(),
                    forall|j: int| 0 <= j < items@.len() ==> #[trigger] jv_items(items@)[j] == jv(items@[j]),
                    forall|j: int| 0 <= j < i ==> #[trigger] jv(out@[j]) == jv(items@[j]),
                decreases items.len() - i,
            {
                proof {
                    assert(decreases_to!(*v => (*v)->Array_0));
                    assert(decreases_to!(*items => items[i as int]));
                }
                let c = deep_clone(&items[i]);
                out.push(c);
                i = i + 1;
            }
            proof {
                lemma_jv_items(out@);
                assert(jv_items(out@) =~= jv_items(items@));
            }
            JsonValue::Array(out)
        },
        JsonValue::Object(entries) => {
            proof {
                lemma_jv_entries(entries@);
            }
            let mut out: Vec<(String, JsonValue)> = Vec::new();
            let mut i: usize = 0;
            while i < entries.len()
                invariant
                    *v == JsonValue::Object(*entries),
                    i <= entries.len(),
                    out@.len() == i,
                    jv_entries(entries@).len() == entries@.len(),
                    forall|j: int|
                        0 <= j < entries@.len() ==> #[trigger] jv_entries(entries@)[j] == (
                            entries@[j].0@,
                            jv(entries@[j].1),
                        ),
                    forall|j: int|
                        0 <= j < i ==> #[trigger] out@[j].0@ == entries@[j].0@ && jv(out@[j].1)
                            == jv(entries@[j].1),
                decreases entries.len() - i,
            {
                proof {
                    assert(decreases_to!(*v => (*v)->Object_0));
                    assert(decreases_to!(*entries => entries[i as int]));
                    assert(decreases_to!(entries[i as int] => entries[i as int].1));
                }
                let c = deep_clone(&entries[i].1);
                out.push((entries[i].0.clone(), c));
                i = i + 1;
            }
            proof {
                lemma_jv_entries(out@);
                assert(jv_entries(out@) =~= jv_entries(entries@));
            }
            JsonValue::Object(out)
        },
    }
}

/// The members of an object value, or none for any other value.
pub open spec fn object_entries(v: Json) -> Seq<(Seq<char>, Json)> {
    match v {
        Json::Object(e) => e,
        _ => Seq::empty(),
    }
}

/// `m` with each entry of `s` set in turn.
pub open spec fn insert_all(m: Map<Seq<char>, Json>, s: Seq<(Seq<char>, Json)>) -> Map<Seq<char>, Json>
    decreases s.len(),
{
    if s.len() == 0 {
        m
    } else {
        insert_all(m, s.drop_last()).insert(s.last().0, s.last().1)
    }
}

/// The entries `e` with each entry of `s` set in turn by `insert_entry`.
pub open spec fn insert_entries(e: Seq<(Seq<char>, Json)>, s: Seq<(Seq<char>, Json)>) -> Seq<
    (Seq<char>, Json),
>
    decreases s.len(),
{
    if s.len() == 0 {
        e
    } else {
        insert_entry(insert_entries(e, s.drop_last()), s.last().0, s.last().1)
    }
}

/// Sets each member of `source` (when it is an object) in `target`, in order.
pub fn insert_members(target: &mut Vec<(String, JsonValue)>, source: &JsonValue)
    ensures
        jv_entries(final(target)@) == insert_entries(jv_entries(old(target)@), object_entries(source@)),
        entries_map(jv_entries(final(target)@)) == insert_all(
            entries_map(jv_entries(old(target)@)),
            object_entries(source@),
        ),
{
    match source {
        JsonValue::Object(entries) => {
            proof {
                lemma_jv_entries(entries@);
            }
            let ghost start = entries_map(jv_entries(target@));
            let mut i: usize = 0;
            while i < entries.len()
                invariant
                    *source == JsonValue::Object(*entries),
                    i <= entries.len(),
                    start == entries_map(jv_entries(old(target)@)),
                    jv_entries(entries@).len() == entries@.len(),
                    forall|j: int|
                        0 <= j < entries@.len() ==> #[trigger] jv_entries(entries@)[j] == (
                            entries@[j].0@,
                            jv(entries@[j].1),
                        ),
                    entries_map(jv_entries(target@)) == insert_all(
                        start,
                        jv_entries(entries@).subrange(0, i as int),
                    ),
                    jv_entries(target@) == insert_entries(
                        jv_entries(old(target)@),
                        jv_entries(entries@).subrange(0, i as int),
                    ),
                decreases entries.len() - i,
            {
                let key = entries[i].0.clone();
                let value = deep_clone(&entries[i].1);
                entries_insert(target, key, value);
                proof {
                    let all = jv_entries(entries@);
                    assert(all.subrange(0, i + 1).drop_last() == all.subrange(0, i as int));
                }
                i = i + 1;
            }
            proof {
                assert(jv_entries(entries@).subrange(0, entries@.len() as int) == jv_entries(
                    entries@,
                ));
            }
        },
        _ => {},
    }
}

// ---------------------------------------------------------------------------
// Compact JSON text
// ---------------------------------------------------------------------------

/// The lower-case hexadecimal digit of `n`.
pub open spec fn hex_digit(n: u32) -> char {
    if n < 10 {
        (('0' as u32) + n) as char
    } else {
        (('a' as u32) + n - 10) as char
    }
}

/// The escaped form of one character inside a JSON string.
pub open spec fn esc_char(c: char) -> Seq<char> {
    if c == '"' {
        seq!['\\', '"']
    } else if c == '\\' {
        seq!['\\', '\\']
    } else if c == '\u{8}' {
        seq!['\\', 'b']
    } else if c == '\u{c}' {
        seq!['\\', 'f']
    } else if c == '\n' {
        seq!['\\', 'n']
    } else if c == '\r' {
        seq!['\\', 'r']
    } else if c == '\t' {
        seq!['\\', 't']
    } else if (c as u32) < 0x20 {
        seq!['\\', 'u', '0', '0', hex_digit((c as u32) / 16), hex_digit((c as u32) % 16)]
    } else {
        seq![c]
    }
}

/// The escaped form of a string's characters.
pub open spec fn escape(s: Seq<char>) -> Seq<char>
    decreases s.len(),
{
    if s.len() == 0 {
        Seq::empty()
    } else {
        escape(s.drop_last()) + esc_char(s.last())
    }
}

/// A JSON string literal.
pub open spec fn quote(s: Seq<char>) -> Seq<char> {
    seq!['"'] + escape(s) + seq!['"']
}

/// The compact JSON text of a value.
pub open spec fn render(v: Json) -> Seq<char>
    decreases v,
{
    match v {
        Json::Null => seq!['n', 'u', 'l', 'l'],
        Json::Bool(b) => if b {
            seq!['t', 'r', 'u', 'e']
        } else {
            seq!['f', 'a', 'l', 's', 'e']
        },
        Json::Number(t) => t,
        Json::Str(s) => quote(s),
        Json::Array(items) => seq!['['] + render_items(items) + seq![']'],
        Json::Object(e) => seq!['{'] + render_entries(e) + seq!['}'],
    }
}

/// Rendered items, separated by commas.
pub open spec fn render_items(s: Seq<Json>) -> Seq<char>
    decreases s,
{
    if s.len() == 0 {
        Seq::empty()
    } else if s.len() == 1 {
        render(s[0])
    } else {
        render_items(s.drop_last()) + seq![','] + render(s.last())
    }
}

/// Rendered members, separated by commas.
pub open spec fn render_entries(s: Seq<(Seq<char>, Json)>) -> Seq<char>
    decreases s,
{
    if s.len() == 0 {
        Seq::empty()
    } else if s.len() == 1 {
        quote(s[0].0) + seq![':'] + render(s[0].1)
    } else {
        render_entries(s.drop_last()) + seq![','] + quote(s.last().0) + seq![':'] + render(
            s.last().1,
        )
    }
}

fn hex_digit_exec(n: u32) -> (c: char)
    requires
        n < 16,
    ensures
        c == hex_digit(n),
{
    if n < 10 {
        crate::text::char_from_ascii(48 + n)
    } else {
        crate::text::char_from_ascii(97 + n - 10)
    }
}

/// Appends the escaped form of `c`.
fn push_escaped(out: &mut String, c: char)
    ensures
        final(out)@ == old(out)@ + esc_char(c),
{
    let code = c as u32;
    if c == '"' {
        push_char(out, '\\');
        push_char(out, '"');
    } else if c == '\\' {
        push_char(out, '\\');
        push_char(out, '\\');
    } else if c == '\u{8}' {
        push_char(out, '\\');
        push_char(out, 'b');
    } else if c == '\u{c}' {
        push_char(out, '\\');
        push_char(out, 'f');
    } else if c == '\n' {
        push_char(out, '\\');
        push_char(out, 'n');
    } else if c == '\r' {
        push_char(out, '\\');
        push_char(out, 'r');
    } else if c == '\t' {
        push_char(out, '\\');
        push_char(out, 't');
    } else if code < 0x20 {
        push_char(out, '\\');
        push_char(out, 'u');
        push_char(out, '0');
        push_char(out, '0');
        push_char(out, hex_digit_exec(code / 16));
        push_char(out, hex_digit_exec(code % 16));
    } else {
        push_char(out, c);
    }
    proof {
        assert(final(out)@ =~= old(out)@ + esc_char(c));
    }
}

/// Appends the JSON string literal of `s`.
pub fn push_quoted(out: &mut String, s: &str)
    ensures
        final(out)@ == old(out)@ + quote(s@),
{
    let ghost start = out@;
    push_char(out, '"');
    let n = s.unicode_len();
    let mut i: usize = 0;
    while i < n
        invariant
            n == s@.len(),
            i <= n,
            out@ == start + seq!['"'] + escape(s@.subrange(0, i as int)),
        decreases n - i,
    {
        let c = s.get_char(i);
        push_escaped(out, c);
        proof {
            let pre = s@.subrange(0, i + 1);
            assert(pre.drop_last() == s@.subrange(0, i as int));
            assert(pre.last() == c);
        }
        i = i + 1;
    }
    push_char(out, '"');
    proof {
        assert(s@.subrange(0, n as int) == s@);
        assert(out@ =~= start + quote(s@));
    }
}

/// Appends the compact JSON text of `v`.
pub fn render_into(v: &JsonValue, out: &mut String)
    ensures
        final(out)@ == old(out)@ + render(v@),
    decreases v,
{
    match v {
        JsonValue::Null => {
            push_char(out, 'n');
            push_char(out, 'u');
            push_char(out, 'l');
            push_char(out, 'l');
        },
        JsonValue::Bool(b) => {
            if *b {
                push_char(out, 't');
                push_char(out, 'r');
                push_char(out, 'u');
                push_char(out, 'e');
            } else {
                push_char(out, 'f');
                push_char(out, 'a');
                push_char(out, 'l');
                push_char(out, 's');
                push_char(out, 'e');
            }
        },
        JsonValue::Number(t) => {
            push_str(out, t.as_str());
        },
        JsonValue::Str(s) => {
            push_quoted(out, s.as_str());
        },
        JsonValue::Array(items) => {
            let ghost start = out@;
            proof {
                lemma_jv_items(items@);
            }
            push_char(out, '[');
            let mut i: usize = 0;
            while i < items.len()
                invariant
                    *v == JsonValue::Array(*items),
                    i <= items.len(),
                    jv_items(items@).len() == items@.len(),
                    forall|j: int| 0 <= j < items@.len() ==> #[trigger] jv_items(items@)[j] == jv(items@[j]),
                    out@ == start + seq!['['] + render_items(jv_items(items@).subrange(0, i as int)),
                decreases items.len() - i,
            {
                if i > 0 {
                    push_char(out, ',');
                }
                proof {
                    assert(decreases_to!(*v => (*v)->Array_0));
                    assert(decreases_to!(*items => items[i as int]));
                    assert(decreases_to!(*v => items[i as int]));
                }
                render_into(&items[i], out);
                proof {
                    let all = jv_items(items@);
                    let pre = all.subrange(0, i + 1);
                    assert(pre.drop_last() == all.subrange(0, i as int));
                    assert(pre.last() == jv(items@[i as int]));
                    if i == 0 {
                        assert(render_items(pre) == render(pre[0]));
                    }
                }
                i = i + 1;
            }
            push_char(out, ']');
            proof {
                assert(jv_items(items@).subrange(0, items@.len() as int) == jv_items(items@));
                assert(out@ =~= start + render(v@));
            }
        },
        JsonValue::Object(entries) => {
            let ghost start = out@;
            proof {
                lemma_jv_entries(entries@);
            }
            push_char(out, '{');
            let mut i: usize = 0;
            while i < entries.len()
                invariant
                    *v == JsonValue::Object(*entries),
                    i <= entries.len(),
                    jv_entries(entries@).len() == entries@.len(),
                    forall|j: int|
                        0 <= j < entries@.len() ==> #[trigger] jv_entries(entries@)[j] == (
                            entries@[j].0@,
                            jv(entries@[j].1),
                        ),
                    out@ == start + seq!['{'] + render_entries(
                        jv_entries(entries@).subrange(0, i as int),
                    ),
                decreases entries.len() - i,
            {
                if i > 0 {
                    push_char(out, ',');
                }
                push_quoted(out, entries[i].0.as_str());
                push_char(out, ':');
                proof {
                    assert(decreases_to!(*v => (*v)->Object_0));
                    assert(decreases_to!(*entries => entries[i as int]));
                    assert(decreases_to!(entries[i as int] => entries[i as int].1));
                    assert(decreases_to!(*v => entries[i as int].1));
                }
                render_into(&entries[i].1, out);
                proof {
                    let all = jv_entries(entries@);
                    let pre = all.subrange(0, i + 1);
                    assert(pre.drop_last() == all.subrange(0, i as int));
                    assert(pre.last() == (entries@[i as int].0@, jv(entries@[i as int].1)));
                }
                i = i + 1;
            }
            push_char(out, '}');
            proof {
                assert(jv_entries(entries@).subrange(0, entries@.len() as int) == jv_entries(
                    entries@,
                ));
                assert(out@ =~= start + render(v@));
            }
        },
    }
}

} // verus!

verus! {

// ---------------------------------------------------------------------------
// Indented JSON text
// ---------------------------------------------------------------------------

/// One more level of indentation.
pub open spec fn deeper(ind: Seq<char>) -> Seq<char> {
    ind + seq![' ', ' ']
}

/// The indented JSON text of a value whose line starts at indentation `ind`, as
/// `serde_json::to_string_pretty` writes it.
pub open spec fn pretty(v: Json, ind: Seq<char>) -> Seq<char>
    decreases v,
{
    match v {
        Json::Array(items) => if items.len() == 0 {
            seq!['[', ']']
        } else {
            seq!['[', '\n'] + pretty_items(items, ind) + seq!['\n'] + ind + seq![']']
        },
        Json::Object(e) => if e.len() == 0 {
            seq!['{', '}']
        } else {
            seq!['{', '\n'] + pretty_entries(e, ind) + seq!['\n'] + ind + seq!['}']
        },
        _ => render(v),
    }
}

/// The items of an array, one per line at the next indentation.
pub open spec fn pretty_items(s: Seq<Json>, ind: Seq<char>) -> Seq<char>
    decreases s,
{
    if s.len() == 0 {
        Seq::empty()
    } else if s.len() == 1 {
        deeper(ind) + pretty(s[0], deeper(ind))
    } else {
        pretty_items(s.drop_last(), ind) + seq![',', '\n'] + deeper(ind) + pretty(
            s.last(),
            deeper(ind),
        )
    }
}

/// The members of an object, one per line at the next indentation.
pub open spec fn pretty_entries(s: Seq<(Seq<char>, Json)>, ind: Seq<char>) -> Seq<char>
    decreases s,
{
    if s.len() == 0 {
        Seq::empty()
    } else if s.len() == 1 {
        deeper(ind) + quote(s[0].0) + seq![':', ' '] + pretty(s[0].1, deeper(ind))
    } else {
        pretty_entries(s.drop_last(), ind) + seq![',', '\n'] + deeper(ind) + quote(s.last().0)
            + seq![':', ' '] + pretty(s.last().1, deeper(ind))
    }
}

impl JsonValue {
    /// The indented JSON text of the value.
    pub fn render_pretty(&self) -> (r: String)
        ensures
            r@ == pretty(self@, Seq::empty()),
    {
        let mut out = String::new();
        let ind = String::new();
        pretty_into(self, &ind, &mut out);
        out
    }
}

/// Appends the indented JSON text of `v`, whose line starts at indentation `ind`.
pub fn pretty_into(v: &JsonValue, ind: &String, out: &mut String)
    ensures
        final(out)@ == old(out)@ + pretty(v@, ind@),
    decreases v,
{
    match v {
        JsonValue::Array(items) => {
            proof {
                lemma_jv_items(items@);
            }
            if items.len() == 0 {
                push_char(out, '[');
                push_char(out, ']');
                return;
            }
            let ghost start = out@;
            let mut inner = ind.clone();
            push_char(&mut inner, ' ');
            push_char(&mut inner, ' ');
            push_char(out, '[');
            push_char(out, '\n');
            let mut i: usize = 0;
            while i < items.len()
                invariant
                    *v == JsonValue::Array(*items),
                    items@.len() > 0,
                    inner@ == deeper(ind@),
                    i <= items.len(),
                    jv_items(items@).len() == items@.len(),
                    forall|j: int| 0 <= j < items@.len() ==> #[trigger] jv_items(items@)[j] == jv(items@[j]),
                    out@ == start + seq!['[', '\n'] + pretty_items(
                        jv_items(items@).subrange(0, i as int),
                        ind@,
                    ),
                decreases items.len() - i,
            {
                if i > 0 {
                    push_char(out, ',');
                    push_char(out, '\n');
                }
                push_str(out, inner.as_str());
                proof {
                    assert(decreases_to!(*v => (*v)->Array_0));
                    assert(decreases_to!(*items => items[i as int]));
                }
                pretty_into(&items[i], &inner, out);
                proof {
                    let all = jv_items(items@);
                    let pre = all.subrange(0, i + 1);
                    assert(pre.drop_last() == all.subrange(0, i as int));
                    assert(pre.last() == jv(items@[i as int]));
                }
                i = i + 1;
            }
            push_char(out, '\n');
            push_str(out, ind.as_str());
            push_char(out, ']');
            proof {
                assert(jv_items(items@).subrange(0, items@.len() as int) == jv_items(items@));
                assert(out@ =~= start + pretty(v@, ind@));
            }
        },
        JsonValue::Object(entries) => {
            proof {
                lemma_jv_entries(entries@);
            }
            if entries.len() == 0 {
                push_char(out, '{');
                push_char(out, '}');
                return;
            }
            let ghost start = out@;
            let mut inner = ind.clone();
            push_char(&mut inner, ' ');
            push_char(&mut inner, ' ');
            push_char(out, '{');
            push_char(out, '\n');
            let mut i: usize = 0;
            while i < entries.len()
                invariant
                    *v == JsonValue::Object(*entries),
                    entries@.len() > 0,
                    inner@ == deeper(ind@),
                    i <= entries.len(),
                    jv_entries(entries@).len() == entries@.len(),
                    forall|j: int|
                        0 <= j < entries@.len() ==> #[trigger] jv_entries(entries@)[j] == (
                            entries@[j].0@,
                            jv(entries@[j].1),
                        ),
                    out@ == start + seq!['{', '\n'] + pretty_entries(
                        jv_entries(entries@).subrange(0, i as int),
                        ind@,
                    ),
                decreases entries.len() - i,
            {
                if i > 0 {
                    push_char(out, ',');
                    push_char(out, '\n');
                }
                push_str(out, inner.as_str());
                push_quoted(out, entries[i].0.as_str());
                push_char(out, ':');
                push_char(out, ' ');
                proof {
                    assert(decreases_to!(*v => (*v)->Object_0));
                    assert(decreases_to!(*entries => entries[i as int]));
                    assert(decreases_to!(entries[i as int] => entries[i as int].1));
                }
                pretty_into(&entries[i].1, &inner, out);
                proof {
                    let all = jv_entries(entries@);
                    let pre = all.subrange(0, i + 1);
                    assert(pre.drop_last() == all.subrange(0, i as int));
                    assert(pre.last() == (entries@[i as int].0@, jv(entries@[i as int].1)));
                }
                i = i + 1;
            }
            push_char(out, '\n');
            push_str(out, ind.as_str());
            push_char(out, '}');
            proof {
                assert(jv_entries(entries@).subrange(0, entries@.len() as int) == jv_entries(
                    entries@,
                ));
                assert(out@ =~= start + pretty(v@, ind@));
            }
        },
        _ => {
            render_into(v, out);
        },
    }
}

} // verus!

//! Small constructors of JSON objects and arrays whose contracts give the
//! exact value built, so that nested documents are known member by member.
use vstd::prelude::*;

use crate::json::{jv_entries, jv_items, lemma_jv_entries, Json, JsonValue};

verus! {

broadcast use vstd::string::group_string_axioms;

/// A string value.
pub fn text(s: &str) -> (r: JsonValue)
    ensures
        r@ == Json::Str(s@),
{
    JsonValue::Str(s.to_string())
}

/// An object with two members, in the order given.
pub fn obj2(k1: &str, v1: JsonValue, k2: &str, v2: JsonValue) -> (r: JsonValue)
    ensures
        r@ == Json::Object(seq![(k1@, v1@), (k2@, v2@)]),
{
    let ghost g = seq![(k1@, v1@), (k2@, v2@)];
    let e = vec![(k1.to_string(), v1), (k2.to_string(), v2)];
    proof {
        lemma_jv_entries(e@);
        assert(jv_entries(e@) =~= g);
    }
    JsonValue::Object(e)
}

/// An object with three members, in the order given.
pub fn obj3(k1: &str, v1: JsonValue, k2: &str, v2: JsonValue, k3: &str, v3: JsonValue) -> (r:
    JsonValue)
    ensures
        r@ == Json::Object(seq![(k1@, v1@), (k2@, v2@), (k3@, v3@)]),
{
    let ghost g = seq![(k1@, v1@), (k2@, v2@), (k3@, v3@)];
    let e = vec![(k1.to_string(), v1), (k2.to_string(), v2), (k3.to_string(), v3)];
    proof {
        lemma_jv_entries(e@);
        assert(jv_entries(e@) =~= g);
    }
    JsonValue::Object(e)
}

/// An object with four members, in the order given.
pub fn obj4(
    k1: &str,
    v1: JsonValue,
    k2: &str,
    v2: JsonValue,
    k3: &str,
    v3: JsonValue,
    k4: &str,
    v4: JsonValue,
) -> (r: JsonValue)
    ensures
        r@ == Json::Object(seq![(k1@, v1@), (k2@, v2@), (k3@, v3@), (k4@, v4@)]),
{
    let ghost g = seq![(k1@, v1@), (k2@, v2@), (k3@, v3@), (k4@, v4@)];
    let e = vec![(k1.to_string(), v1), (k2.to_string(), v2), (k3.to_string(), v3), (k4.to_string(), v4)];
    proof {
        lemma_jv_entries(e@);
        assert(jv_entries(e@) =~= g);
    }
    JsonValue::Object(e)
}

/// An object with five members, in the order given.
pub fn obj5(
    k1: &str,
    v1: JsonValue,
    k2: &str,
    v2: JsonValue,
    k3: &str,
    v3: JsonValue,
    k4: &str,
    v4: JsonValue,
    k5: &str,
    v5: JsonValue,
) -> (r: JsonValue)
    ensures
        r@ == Json::Object(seq![(k1@, v1@), (k2@, v2@), (k3@, v3@), (k4@, v4@), (k5@, v5@)]),
{
    let ghost g = seq![(k1@, v1@), (k2@, v2@), (k3@, v3@), (k4@, v4@), (k5@, v5@)];
    let e = vec![
        (k1.to_string(), v1),
        (k2.to_string(), v2),
        (k3.to_string(), v3),
        (k4.to_string(), v4),
        (k5.to_string(), v5),
    ];
    proof {
        lemma_jv_entries(e@);
        assert(jv_entries(e@) =~= g);
    }
    JsonValue::Object(e)
}

/// An object with six members, in the order given.
pub fn obj6(
    k1: &str,
    v1: JsonValue,
    k2: &str,
    v2: JsonValue,
    k3: &str,
    v3: JsonValue,
    k4: &str,
    v4: JsonValue,
    k5: &str,
    v5: JsonValue,
    k6: &str,
    v6: JsonValue,
) -> (r: JsonValue)
    ensures
        r@ == Json::Object(
            seq![(k1@, v1@), (k2@, v2@), (k3@, v3@), (k4@, v4@), (k5@, v5@), (k6@, v6@)],
        ),
{
    let ghost g = seq![(k1@, v1@), (k2@, v2@), (k3@, v3@), (k4@, v4@), (k5@, v5@), (k6@, v6@)];
    let e = vec![
        (k1.to_string(), v1),
        (k2.to_string(), v2),
        (k3.to_string(), v3),
        (k4.to_string(), v4),
        (k5.to_string(), v5),
        (k6.to_string(), v6),
    ];
    proof {
        lemma_jv_entries(e@);
        assert(jv_entries(e@) =~= g);
    }
    JsonValue::Object(e)
}

/// An array of the given items.
pub fn array(items: Vec<JsonValue>) -> (r: JsonValue)
    ensures
        r@ == Json::Array(jv_items(items@)),
{
    JsonValue::Array(items)
}

/// An empty list of items.
pub fn items0() -> (r: Vec<JsonValue>)
    ensures
        jv_items(r@) == Seq::<Json>::empty(),
{
    let v: Vec<JsonValue> = Vec::new();
    proof {
        assert(jv_items(v@) =~= Seq::<Json>::empty());
    }
    v
}

/// A list of items with `x` added at its end.
pub fn push_item(items: &mut Vec<JsonValue>, x: JsonValue)
    ensures
        jv_items(final(items)@) == jv_items(old(items)@).push(x@),
{
    let ghost before = items@;
    items.push(x);
    proof {
        assert(items@.drop_last() =~= before);
    }
}

/// A list of one item.
pub fn items1(a: JsonValue) -> (r: Vec<JsonValue>)
    ensures
        jv_items(r@) == seq![a@],
{
    let mut v = items0();
    push_item(&mut v, a);
    proof {
        assert(jv_items(v@) =~= seq![a@]);
    }
    v
}

/// A list of two items.
pub fn items2(a: JsonValue, b: JsonValue) -> (r: Vec<JsonValue>)
    ensures
        jv_items(r@) == seq![a@, b@],
{
    let ghost (ga, gb) = (a@, b@);
    let mut v = items1(a);
    push_item(&mut v, b);
    proof {
        assert(jv_items(v@) =~= seq![ga, gb]);
    }
    v
}

/// A list of three items.
pub fn items3(a: JsonValue, b: JsonValue, c: JsonValue) -> (r: Vec<JsonValue>)
    ensures
        jv_items(r@) == seq![a@, b@, c@],
{
    let ghost (ga, gb, gc) = (a@, b@, c@);
    let mut v = items2(a, b);
    push_item(&mut v, c);
    proof {
        assert(jv_items(v@) =~= seq![ga, gb, gc]);
    }
    v
}

/// A list of four items.
pub fn items4(a: JsonValue, b: JsonValue, c: JsonValue, d: JsonValue) -> (r: Vec<JsonValue>)
    ensures
        jv_items(r@) == seq![a@, b@, c@, d@],
{
    let ghost (ga, gb, gc, gd) = (a@, b@, c@, d@);
    let mut v = items3(a, b, c);
    push_item(&mut v, d);
    proof {
        assert(jv_items(v@) =~= seq![ga, gb, gc, gd]);
    }
    v
}

} // verus!

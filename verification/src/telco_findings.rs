//! The findings panel and the summary facts of a playbook report, as the
//! run's presentation gives them. A number shows with two decimals; its text
//! comes from a table that pairs number texts with their two-decimal texts.
use vstd::prelude::*;

use crate::i18n::string_views;
use crate::json::{json_get, json_get_str, jv, jv_entries, jv_items, lemma_jv_entries, lemma_jv_items, render, Json, JsonValue};
use crate::json_build::{items0, push_item};
use crate::telco_analysis::{
    bold, bold_json, fact, fact_json, join, join_exec, pair_views, presentation_sections, section_items, wrapped,
};
use crate::telco_cards::intro_json;
use crate::telco_messages::{main_menu_action_set, main_menu_json};
use crate::telco_port_report::summary_items;
use crate::text::push_str;

verus! {

broadcast use vstd::string::group_string_axioms;

/// The first `n` elements of `s`, or all of them when it has fewer.
pub open spec fn first_n<A>(s: Seq<A>, n: int) -> Seq<A> {
    if s.len() <= n {
        s
    } else {
        s.subrange(0, n)
    }
}

/// The values of the elements that have one, in order.
pub open spec fn somes<A>(s: Seq<Option<A>>) -> Seq<A>
    decreases s.len(),
{
    if s.len() == 0 {
        Seq::empty()
    } else {
        match s.last() {
            Some(x) => somes(s.drop_last()).push(x),
            None => somes(s.drop_last()),
        }
    }
}

proof fn lemma_somes_push<A>(s: Seq<Option<A>>, x: Option<A>)
    ensures
        somes(s.push(x)) == match x {
            Some(v) => somes(s).push(v),
            None => somes(s),
        },
{
    assert(s.push(x).drop_last() =~= s);
}

/// The two-decimal text that the table gives for the number text `t` (its
/// first pair for `t`); `t` itself where the table has none.
pub open spec fn decimal_text(decimals: Seq<(Seq<char>, Seq<char>)>, t: Seq<char>) -> Seq<char>
    decreases decimals.len(),
{
    if decimals.len() == 0 {
        t
    } else if decimals[0].0 == t {
        decimals[0].1
    } else {
        decimal_text(decimals.drop_first(), t)
    }
}

/// The text of a string, or of a number with two decimals; none for other values.
pub open spec fn value_text(v: Json, decimals: Seq<(Seq<char>, Seq<char>)>) -> Option<Seq<char>> {
    match v {
        Json::Str(s) => Some(s),
        Json::Number(t) => Some(decimal_text(decimals, t)),
        _ => None,
    }
}

/// The text of an item's value; empty where `value_text` shows none.
pub open spec fn item_value_text(item: Json, decimals: Seq<(Seq<char>, Seq<char>)>) -> Seq<char> {
    match json_get(item, "value"@) {
        Some(v) => match value_text(v, decimals) {
            Some(s) => s,
            None => Seq::empty(),
        },
        None => Seq::empty(),
    }
}

/// The line of a section item: `label: value`, the value alone without a
/// label, none without a value.
pub open spec fn finding_line(item: Json, decimals: Seq<(Seq<char>, Seq<char>)>) -> Option<Seq<char>> {
    let label = json_get_str(item, "label"@).unwrap_or(Seq::empty());
    let value = item_value_text(item, decimals);
    if value.len() == 0 {
        None
    } else if label.len() == 0 {
        Some(value)
    } else {
        Some(label + ": "@ + value)
    }
}

/// How a row shows a member's value: as `value_text` does, other values as their JSON text.
pub open spec fn row_value_text(v: Json, decimals: Seq<(Seq<char>, Seq<char>)>) -> Seq<char> {
    match value_text(v, decimals) {
        Some(s) => s,
        None => render(v),
    }
}

pub open spec fn row_entry_text(e: (Seq<char>, Json), decimals: Seq<(Seq<char>, Seq<char>)>) -> Seq<char> {
    e.0 + ": "@ + row_value_text(e.1, decimals)
}

/// The line of a row: its first four members as `key: value`, joined by
/// ` | `; none for a row that is no object or has no member.
pub open spec fn row_line(row: Json, decimals: Seq<(Seq<char>, Seq<char>)>) -> Option<Seq<char>> {
    match row {
        Json::Object(e) => {
            let t = join(first_n(e, 4).map_values(|m: (Seq<char>, Json)| row_entry_text(m, decimals)), " | "@);
            if t.len() == 0 {
                None
            } else {
                Some(t)
            }
        },
        _ => None,
    }
}

/// The rows of a presentation section, where it has an array of them.
pub open spec fn section_rows(section: Json) -> Seq<Json> {
    match json_get(section, "rows"@) {
        Some(Json::Array(rows)) => rows,
        _ => Seq::empty(),
    }
}

/// The lines of a section: one for each of its first four items and first
/// three rows that shows something.
pub open spec fn section_lines(section: Json, decimals: Seq<(Seq<char>, Seq<char>)>) -> Seq<Seq<char>> {
    somes(first_n(section_items(section), 4).map_values(|it: Json| finding_line(it, decimals))) + somes(
        first_n(section_rows(section), 3).map_values(|r: Json| row_line(r, decimals)),
    )
}

/// The text of a section: its title (`Analysis section` without one), then its lines.
pub open spec fn section_text(section: Json, decimals: Seq<(Seq<char>, Seq<char>)>) -> Seq<char> {
    let title = json_get_str(section, "title"@).unwrap_or("Analysis section"@);
    let lines = section_lines(section, decimals);
    if lines.len() == 0 {
        title
    } else {
        title + "\n"@ + join(lines, "\n"@)
    }
}

/// The findings panel: a heading, the text of each of the first three
/// sections (the fallback summary when there is none), and the main menu.
pub open spec fn findings_json(presentation: Json, fallback: Seq<char>, decimals: Seq<(Seq<char>, Seq<char>)>) -> Seq<
    Json,
> {
    let sections = presentation_sections(presentation);
    if sections.len() == 0 {
        seq![bold_json("Findings"@), intro_json(fallback), main_menu_json()]
    } else {
        seq![bold_json("Findings"@)] + first_n(sections, 3).map_values(
            |s: Json| intro_json(section_text(s, decimals)),
        ) + seq![main_menu_json()]
    }
}

/// The fact of a summary item with both a label and a value.
pub open spec fn summary_fact(item: Json, decimals: Seq<(Seq<char>, Seq<char>)>) -> Option<Json> {
    let title = json_get_str(item, "label"@).unwrap_or(Seq::empty());
    let value = item_value_text(item, decimals);
    if title.len() > 0 && value.len() > 0 {
        Some(fact_json(title, value))
    } else {
        None
    }
}

/// The facts of the first four items of the first section; a `Status` fact
/// when none of them gives one.
pub open spec fn summary_facts_json(presentation: Json, decimals: Seq<(Seq<char>, Seq<char>)>) -> Seq<Json> {
    let facts = somes(first_n(summary_items(presentation), 4).map_values(|it: Json| summary_fact(it, decimals)));
    if facts.len() == 0 {
        seq![fact_json("Status"@, "Review prepared"@)]
    } else {
        facts
    }
}

// ---------------------------------------------------------------------------
// Computing them
// ---------------------------------------------------------------------------

fn decimal_text_exec(decimals: &Vec<(String, String)>, t: &str) -> (r: String)
    ensures
        r@ == decimal_text(pair_views(decimals@), t@),
{
    let ghost d = pair_views(decimals@);
    let mut i: usize = 0;
    proof {
        assert(d.subrange(0, d.len() as int) =~= d);
    }
    while i < decimals.len()
        invariant
            d == pair_views(decimals@),
            d.len() == decimals@.len(),
            i <= decimals@.len(),
            decimal_text(d, t@) == decimal_text(d.subrange(i as int, d.len() as int), t@),
        decreases decimals@.len() - i,
    {
        proof {
            let rest = d.subrange(i as int, d.len() as int);
            assert(rest.drop_first() =~= d.subrange(i + 1, d.len() as int));
            assert(rest[0] == d[i as int]);
        }
        if crate::json::str_eq(decimals[i].0.as_str(), t) {
            return decimals[i].1.clone();
        }
        i = i + 1;
    }
    t.to_string()
}

fn value_text_exec(v: &JsonValue, decimals: &Vec<(String, String)>) -> (r: Option<String>)
    ensures
        match r {
            Some(s) => value_text(v@, pair_views(decimals@)) == Some(s@),
            None => value_text(v@, pair_views(decimals@)) is None,
        },
{
    match v {
        JsonValue::Str(s) => Some(s.clone()),
        JsonValue::Number(t) => Some(decimal_text_exec(decimals, t.as_str())),
        _ => None,
    }
}

fn item_value_text_exec(item: &JsonValue, decimals: &Vec<(String, String)>) -> (r: String)
    ensures
        r@ == item_value_text(item@, pair_views(decimals@)),
{
    match item.get("value") {
        Some(v) => match value_text_exec(v, decimals) {
            Some(s) => s,
            None => String::new(),
        },
        None => String::new(),
    }
}

fn finding_line_exec(item: &JsonValue, decimals: &Vec<(String, String)>) -> (r: Option<String>)
    ensures
        match r {
            Some(s) => finding_line(item@, pair_views(decimals@)) == Some(s@),
            None => finding_line(item@, pair_views(decimals@)) is None,
        },
{
    let label: String = match item.get_str("label") {
        Some(l) => l.clone(),
        None => String::new(),
    };
    let value = item_value_text_exec(item, decimals);
    if value.unicode_len() == 0 {
        None
    } else if label.unicode_len() == 0 {
        Some(value)
    } else {
        let mut line = label;
        push_str(&mut line, ": ");
        push_str(&mut line, value.as_str());
        Some(line)
    }
}

fn row_line_exec(row: &JsonValue, decimals: &Vec<(String, String)>) -> (r: Option<String>)
    ensures
        match r {
            Some(s) => row_line(row@, pair_views(decimals@)) == Some(s@),
            None => row_line(row@, pair_views(decimals@)) is None,
        },
{
    let ghost d = pair_views(decimals@);
    match row {
        JsonValue::Object(entries) => {
            let ghost es = jv_entries(entries@);
            proof {
                lemma_jv_entries(entries@);
            }
            let n: usize = if entries.len() <= 4 {
                entries.len()
            } else {
                4
            };
            let ghost shown = first_n(es, 4).map_values(|m: (Seq<char>, Json)| row_entry_text(m, d));
            let mut pieces: Vec<String> = Vec::new();
            let mut i: usize = 0;
            while i < n
                invariant
                    es == jv_entries(entries@),
                    es.len() == entries@.len(),
                    forall|j: int|
                        0 <= j < entries@.len() ==> #[trigger] es[j] == (entries@[j].0@, jv(entries@[j].1)),
                    n == first_n(es, 4).len(),
                    n <= entries@.len(),
                    shown == first_n(es, 4).map_values(|m: (Seq<char>, Json)| row_entry_text(m, d)),
                    d == pair_views(decimals@),
                    i <= n,
                    pieces@.len() == i,
                    forall|j: int| 0 <= j < i ==> #[trigger] pieces@[j]@ == shown[j],
                decreases n - i,
            {
                let mut piece = entries[i].0.clone();
                push_str(&mut piece, ": ");
                let shown_value = match value_text_exec(&entries[i].1, decimals) {
                    Some(s) => s,
                    None => entries[i].1.render(),
                };
                push_str(&mut piece, shown_value.as_str());
                proof {
                    assert(first_n(es, 4)[i as int] == es[i as int]);
                    assert(piece@ == row_entry_text(es[i as int], d));
                }
                pieces.push(piece);
                i = i + 1;
            }
            proof {
                assert(string_views(pieces@) =~= shown);
            }
            let joined = join_exec(&pieces, " | ");
            if joined.unicode_len() == 0 {
                None
            } else {
                Some(joined)
            }
        },
        _ => None,
    }
}

/// The lines of a section.
fn section_lines_exec(section: &JsonValue, decimals: &Vec<(String, String)>) -> (r: Vec<String>)
    ensures
        string_views(r@) == section_lines(section@, pair_views(decimals@)),
{
    let ghost d = pair_views(decimals@);
    let empty: Vec<JsonValue> = Vec::new();
    proof {
        lemma_jv_items(empty@);
    }
    let items: &Vec<JsonValue> = match section.get("items") {
        Some(JsonValue::Array(items)) => items,
        _ => &empty,
    };
    let rows: &Vec<JsonValue> = match section.get("rows") {
        Some(JsonValue::Array(rows)) => rows,
        _ => &empty,
    };
    proof {
        lemma_jv_items(items@);
        lemma_jv_items(rows@);
        assert(jv_items(items@) == section_items(section@));
        assert(jv_items(rows@) == section_rows(section@));
    }
    let ghost its = first_n(jv_items(items@), 4);
    let ghost rws = first_n(jv_items(rows@), 3);
    let ghost f = |it: Json| finding_line(it, d);
    let ghost g = |r: Json| row_line(r, d);
    let n: usize = if items.len() <= 4 {
        items.len()
    } else {
        4
    };
    let mut lines: Vec<String> = Vec::new();
    let mut i: usize = 0;
    proof {
        assert(its.subrange(0, 0).map_values(f) =~= Seq::<Option<Seq<char>>>::empty());
        assert(string_views(lines@) =~= Seq::<Seq<char>>::empty());
    }
    while i < n
        invariant
            its == first_n(jv_items(items@), 4),
            n == its.len(),
            n <= items@.len(),
            forall|j: int| 0 <= j < n ==> #[trigger] its[j] == jv(items@[j]),
            d == pair_views(decimals@),
            f == (|it: Json| finding_line(it, d)),
            i <= n,
            string_views(lines@) == somes(its.subrange(0, i as int).map_values(f)),
        decreases n - i,
    {
        let ghost before = string_views(lines@);
        proof {
            assert(its.subrange(0, i + 1).map_values(f) =~= its.subrange(0, i as int).map_values(f).push(
                f(its[i as int]),
            ));
            lemma_somes_push(its.subrange(0, i as int).map_values(f), f(its[i as int]));
        }
        match finding_line_exec(&items[i], decimals) {
            Some(l) => {
                lines.push(l);
                proof {
                    assert(string_views(lines@) =~= before.push(lines@.last()@));
                }
            },
            None => {},
        }
        i = i + 1;
    }
    let ghost first_part = string_views(lines@);
    proof {
        assert(its.subrange(0, n as int) =~= its);
        assert(rws.subrange(0, 0).map_values(g) =~= Seq::<Option<Seq<char>>>::empty());
        assert(first_part + somes(rws.subrange(0, 0).map_values(g)) =~= first_part);
    }
    let m: usize = if rows.len() <= 3 {
        rows.len()
    } else {
        3
    };
    let mut k: usize = 0;
    while k < m
        invariant
            rws == first_n(jv_items(rows@), 3),
            m == rws.len(),
            m <= rows@.len(),
            forall|j: int| 0 <= j < m ==> #[trigger] rws[j] == jv(rows@[j]),
            d == pair_views(decimals@),
            g == (|r: Json| row_line(r, d)),
            k <= m,
            string_views(lines@) == first_part + somes(rws.subrange(0, k as int).map_values(g)),
        decreases m - k,
    {
        let ghost before = string_views(lines@);
        proof {
            assert(rws.subrange(0, k + 1).map_values(g) =~= rws.subrange(0, k as int).map_values(g).push(
                g(rws[k as int]),
            ));
            lemma_somes_push(rws.subrange(0, k as int).map_values(g), g(rws[k as int]));
        }
        match row_line_exec(&rows[k], decimals) {
            Some(l) => {
                lines.push(l);
                proof {
                    assert(string_views(lines@) =~= before.push(lines@.last()@));
                }
            },
            None => {},
        }
        k = k + 1;
    }
    proof {
        assert(rws.subrange(0, m as int) =~= rws);
    }
    lines
}

fn section_text_exec(section: &JsonValue, decimals: &Vec<(String, String)>) -> (r: String)
    ensures
        r@ == section_text(section@, pair_views(decimals@)),
{
    let mut out: String = match section.get_str("title") {
        Some(t) => t.clone(),
        None => "Analysis section".to_string(),
    };
    let lines = section_lines_exec(section, decimals);
    if lines.len() > 0 {
        push_str(&mut out, "\n");
        let joined = join_exec(&lines, "\n");
        push_str(&mut out, joined.as_str());
    }
    out
}

/// The items of the findings panel of a report.
pub fn presentation_section_items(presentation: &JsonValue, fallback: &str, decimals: &Vec<(String, String)>) -> (r: Vec<
    JsonValue,
>)
    ensures
        jv_items(r@) == findings_json(presentation@, fallback@, pair_views(decimals@)),
{
    let ghost d = pair_views(decimals@);
    let empty: Vec<JsonValue> = Vec::new();
    proof {
        lemma_jv_items(empty@);
    }
    let sections: &Vec<JsonValue> = match presentation.get("sections") {
        Some(JsonValue::Array(sections)) => sections,
        _ => &empty,
    };
    proof {
        lemma_jv_items(sections@);
        assert(jv_items(sections@) == presentation_sections(presentation@));
    }
    let mut out = items0();
    push_item(&mut out, bold("Findings"));
    if sections.len() == 0 {
        push_item(&mut out, wrapped(fallback));
        push_item(&mut out, main_menu_action_set());
        proof {
            assert(jv_items(out@) =~= seq![bold_json("Findings"@), intro_json(fallback@), main_menu_json()]);
        }
        return out;
    }
    let ghost secs = first_n(jv_items(sections@), 3);
    let ghost h = |s: Json| intro_json(section_text(s, d));
    let n: usize = if sections.len() <= 3 {
        sections.len()
    } else {
        3
    };
    let mut i: usize = 0;
    proof {
        assert(jv_items(out@) =~= seq![bold_json("Findings"@)] + secs.subrange(0, 0).map_values(h));
    }
    while i < n
        invariant
            secs == first_n(jv_items(sections@), 3),
            n == secs.len(),
            n <= sections@.len(),
            forall|j: int| 0 <= j < n ==> #[trigger] secs[j] == jv(sections@[j]),
            d == pair_views(decimals@),
            h == (|s: Json| intro_json(section_text(s, d))),
            i <= n,
            jv_items(out@) == seq![bold_json("Findings"@)] + secs.subrange(0, i as int).map_values(h),
        decreases n - i,
    {
        let ghost before = jv_items(out@);
        let t = section_text_exec(&sections[i], decimals);
        push_item(&mut out, wrapped(t.as_str()));
        proof {
            assert(seq![bold_json("Findings"@)] + secs.subrange(0, i + 1).map_values(h) =~= before.push(
                h(secs[i as int]),
            ));
        }
        i = i + 1;
    }
    let ghost before = jv_items(out@);
    push_item(&mut out, main_menu_action_set());
    proof {
        assert(secs.subrange(0, n as int) =~= secs);
        assert(jv_items(out@) =~= before + seq![main_menu_json()]);
    }
    out
}

fn summary_fact_exec(item: &JsonValue, decimals: &Vec<(String, String)>) -> (r: Option<JsonValue>)
    ensures
        match r {
            Some(f) => summary_fact(item@, pair_views(decimals@)) == Some(f@),
            None => summary_fact(item@, pair_views(decimals@)) is None,
        },
{
    let title: String = match item.get_str("label") {
        Some(l) => l.clone(),
        None => String::new(),
    };
    let value = item_value_text_exec(item, decimals);
    if title.unicode_len() > 0 && value.unicode_len() > 0 {
        Some(fact(title.as_str(), value.as_str()))
    } else {
        None
    }
}

/// The facts of the summary panel of a report.
pub fn summary_fact_set(presentation: &JsonValue, decimals: &Vec<(String, String)>) -> (r: Vec<JsonValue>)
    ensures
        jv_items(r@) == summary_facts_json(presentation@, pair_views(decimals@)),
{
    let ghost d = pair_views(decimals@);
    let empty: Vec<JsonValue> = Vec::new();
    let items = crate::telco_port_report::summary_items_of(presentation, &empty);
    proof {
        lemma_jv_items(items@);
    }
    let ghost its = first_n(jv_items(items@), 4);
    let ghost f = |it: Json| summary_fact(it, d);
    let n: usize = if items.len() <= 4 {
        items.len()
    } else {
        4
    };
    let mut out = items0();
    let mut i: usize = 0;
    proof {
        assert(its.subrange(0, 0).map_values(f) =~= Seq::<Option<Json>>::empty());
    }
    while i < n
        invariant
            its == first_n(jv_items(items@), 4),
            n == its.len(),
            n <= items@.len(),
            forall|j: int| 0 <= j < n ==> #[trigger] its[j] == jv(items@[j]),
            d == pair_views(decimals@),
            f == (|it: Json| summary_fact(it, d)),
            i <= n,
            jv_items(out@) == somes(its.subrange(0, i as int).map_values(f)),
        decreases n - i,
    {
        proof {
            assert(its.subrange(0, i + 1).map_values(f) =~= its.subrange(0, i as int).map_values(f).push(
                f(its[i as int]),
            ));
            lemma_somes_push(its.subrange(0, i as int).map_values(f), f(its[i as int]));
        }
        match summary_fact_exec(&items[i], decimals) {
            Some(x) => push_item(&mut out, x),
            None => {},
        }
        i = i + 1;
    }
    proof {
        assert(its.subrange(0, n as int) =~= its);
    }
    if out.len() == 0 {
        proof {
            lemma_jv_items(out@);
        }
        let mut only = items0();
        push_item(&mut only, fact("Status", "Review prepared"));
        return only;
    }
    proof {
        lemma_jv_items(out@);
    }
    out
}

} // verus!

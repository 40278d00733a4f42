//! The presentation of a service degradation triage, composed from the
//! presentations of its three runs: the change analysis, the VM RCA and the
//! port review.
use vstd::prelude::*;

use crate::json::{deep_clone, jv, jv_items, lemma_jv_items, Json, JsonValue};
use crate::json_build::{obj2, text};
use crate::telco_present::{severity_rank, severity_rank_of};
use crate::text::push_str;

verus! {

broadcast use vstd::string::group_string_axioms;

/// A section of a run's presentation.
pub struct PresentationSection {
    pub section_id: String,
    pub section_type: String,
    pub title: String,
    pub items: Vec<JsonValue>,
    pub columns: Vec<JsonValue>,
    pub rows: Vec<JsonValue>,
}

/// A presentation section as a mathematical value.
pub struct SectionModel {
    pub section_id: Seq<char>,
    pub section_type: Seq<char>,
    pub title: Seq<char>,
    pub items: Seq<Json>,
    pub columns: Seq<Json>,
    pub rows: Seq<Json>,
}

impl View for PresentationSection {
    type V = SectionModel;

    open spec fn view(&self) -> SectionModel {
        SectionModel {
            section_id: self.section_id@,
            section_type: self.section_type@,
            title: self.title@,
            items: jv_items(self.items@),
            columns: jv_items(self.columns@),
            rows: jv_items(self.rows@),
        }
    }
}

/// What a playbook run presents: its summary and severity, the entities and
/// evidence it refers to, its sections and the actions it recommends.
pub struct PresentationModel {
    pub playbook_id: String,
    pub summary: String,
    pub severity: String,
    pub entities: Vec<JsonValue>,
    pub evidence_refs: Vec<String>,
    pub sections: Vec<PresentationSection>,
    pub recommended_actions: Vec<String>,
}

/// A presentation as a mathematical value.
pub struct PresentationView {
    pub playbook_id: Seq<char>,
    pub summary: Seq<char>,
    pub severity: Seq<char>,
    pub entities: Seq<Json>,
    pub evidence_refs: Seq<Seq<char>>,
    pub sections: Seq<SectionModel>,
    pub recommended_actions: Seq<Seq<char>>,
}

pub open spec fn section_views(s: Seq<PresentationSection>) -> Seq<SectionModel> {
    s.map_values(|x: PresentationSection| x@)
}

impl View for PresentationModel {
    type V = PresentationView;

    open spec fn view(&self) -> PresentationView {
        PresentationView {
            playbook_id: self.playbook_id@,
            summary: self.summary@,
            severity: self.severity@,
            entities: jv_items(self.entities@),
            evidence_refs: crate::i18n::string_views(self.evidence_refs@),
            sections: section_views(self.sections@),
            recommended_actions: crate::i18n::string_views(self.recommended_actions@),
        }
    }
}

// ---------------------------------------------------------------------------
// The composition
// ---------------------------------------------------------------------------

/// The gravest of three severities by rank; the later one among equally grave ones.
pub open spec fn gravest(a: Seq<char>, b: Seq<char>, c: Seq<char>) -> Seq<char> {
    let (ra, rb, rc) = (severity_rank_of(a), severity_rank_of(b), severity_rank_of(c));
    if rc >= ra && rc >= rb {
        c
    } else if rb >= ra {
        b
    } else {
        a
    }
}

/// The elements of `s` in order, each at its first occurrence only.
pub open spec fn dedup(s: Seq<Seq<char>>) -> Seq<Seq<char>>
    decreases s.len(),
{
    if s.len() == 0 {
        Seq::empty()
    } else {
        let d = dedup(s.drop_last());
        if d.contains(s.last()) {
            d
        } else {
            d.push(s.last())
        }
    }
}

/// A section under a prefix: `prefix_` before its id, `label: ` before its title.
pub open spec fn prefixed_section(s: SectionModel, prefix: Seq<char>, label: Seq<char>) -> SectionModel {
    SectionModel { section_id: prefix + "_"@ + s.section_id, title: label + ": "@ + s.title, ..s }
}

pub open spec fn prefixed_sections(s: Seq<SectionModel>, prefix: Seq<char>, label: Seq<char>) -> Seq<SectionModel> {
    s.map_values(|x: SectionModel| prefixed_section(x, prefix, label))
}

pub open spec fn labelled_json(label: Seq<char>, value: Seq<char>) -> Json {
    Json::Object(seq![("label"@, Json::Str(label)), ("value"@, Json::Str(value))])
}

/// The section that opens a triage: the summary of each run.
pub open spec fn triage_summary_section(change: Seq<char>, vm_rca: Seq<char>, port: Seq<char>) -> SectionModel {
    SectionModel {
        section_id: "triage_summary"@,
        section_type: "facts"@,
        title: "Triage summary"@,
        items: seq![
            labelled_json("change_analysis"@, change),
            labelled_json("vm_rca"@, vm_rca),
            labelled_json("network_signal"@, port),
        ],
        columns: Seq::empty(),
        rows: Seq::empty(),
    }
}

/// The triage of the three runs: the gravest severity, a summary of the three
/// summaries (VM RCA first), the opening section followed by each run's
/// sections under its prefix, the evidence of all three, and their
/// recommended actions without repeats.
pub open spec fn triage_view(change: PresentationView, vm_rca: PresentationView, port: PresentationView) -> PresentationView {
    PresentationView {
        playbook_id: "tx.playbook.service_degradation_triage"@,
        summary: vm_rca.summary + " "@ + change.summary + " "@ + port.summary,
        severity: gravest(change.severity, vm_rca.severity, port.severity),
        entities: Seq::empty(),
        evidence_refs: change.evidence_refs + vm_rca.evidence_refs + port.evidence_refs,
        sections: seq![triage_summary_section(change.summary, vm_rca.summary, port.summary)]
            + prefixed_sections(change.sections, "change"@, "Recent changes"@)
            + prefixed_sections(vm_rca.sections, "rca"@, "RCA"@)
            + prefixed_sections(port.sections, "network"@, "Network"@),
        recommended_actions: dedup(
            change.recommended_actions + vm_rca.recommended_actions + port.recommended_actions,
        ),
    }
}

// ---------------------------------------------------------------------------
// What the composition keeps
// ---------------------------------------------------------------------------

proof fn lemma_push_contains(q: Seq<Seq<char>>, y: Seq<char>, x: Seq<char>)
    ensures
        q.push(y).contains(x) <==> (q.contains(x) || x == y),
{
    if q.push(y).contains(x) && x != y {
        let i = choose|i: int| 0 <= i < q.len() + 1 && q.push(y)[i] == x;
        assert(i < q.len());
        assert(q[i] == x);
    }
    if q.contains(x) {
        let i = choose|i: int| 0 <= i < q.len() && q[i] == x;
        assert(q.push(y)[i] == x);
    }
    if x == y {
        assert(q.push(y)[q.len() as int] == x);
    }
}

/// Removing repeats leaves each element once and loses none.
pub proof fn lemma_dedup(s: Seq<Seq<char>>)
    ensures
        dedup(s).no_duplicates(),
        forall|x: Seq<char>| #[trigger] dedup(s).contains(x) <==> s.contains(x),
    decreases s.len(),
{
    if s.len() > 0 {
        let p = s.drop_last();
        lemma_dedup(p);
        let d = dedup(p);
        assert(s =~= p.push(s.last()));
        assert forall|x: Seq<char>| #[trigger] dedup(s).contains(x) <==> s.contains(x) by {
            lemma_push_contains(p, s.last(), x);
            lemma_push_contains(d, s.last(), x);
        }
    }
}

/// The triage is as grave as the gravest of its runs, and takes the severity of one of them.
pub proof fn lemma_triage_severity(change: PresentationView, vm_rca: PresentationView, port: PresentationView)
    ensures
        severity_rank_of(triage_view(change, vm_rca, port).severity) >= severity_rank_of(change.severity),
        severity_rank_of(triage_view(change, vm_rca, port).severity) >= severity_rank_of(vm_rca.severity),
        severity_rank_of(triage_view(change, vm_rca, port).severity) >= severity_rank_of(port.severity),
        triage_view(change, vm_rca, port).severity == change.severity
            || triage_view(change, vm_rca, port).severity == vm_rca.severity
            || triage_view(change, vm_rca, port).severity == port.severity,
{
}

/// A triage recommends each action of its runs once, and nothing else.
pub proof fn lemma_triage_actions(change: PresentationView, vm_rca: PresentationView, port: PresentationView)
    ensures
        triage_view(change, vm_rca, port).recommended_actions.no_duplicates(),
        forall|a: Seq<char>|
            #[trigger] triage_view(change, vm_rca, port).recommended_actions.contains(a) <==> (
            change.recommended_actions.contains(a) || vm_rca.recommended_actions.contains(a)
                || port.recommended_actions.contains(a)),
{
    let all = change.recommended_actions + vm_rca.recommended_actions + port.recommended_actions;
    lemma_dedup(all);
    assert forall|a: Seq<char>| all.contains(a) <==> (change.recommended_actions.contains(a)
        || vm_rca.recommended_actions.contains(a) || port.recommended_actions.contains(a)) by {
        let c = change.recommended_actions;
        let v = vm_rca.recommended_actions;
        let p = port.recommended_actions;
        if all.contains(a) {
            let i = choose|i: int| 0 <= i < all.len() && all[i] == a;
            if i < c.len() {
                assert(c[i] == a);
            } else if i < c.len() + v.len() {
                assert(v[i - c.len()] == a);
            } else {
                assert(p[i - c.len() - v.len()] == a);
            }
        }
        if c.contains(a) {
            let i = choose|i: int| 0 <= i < c.len() && c[i] == a;
            assert(all[i] == a);
        }
        if v.contains(a) {
            let i = choose|i: int| 0 <= i < v.len() && v[i] == a;
            assert(all[c.len() + i] == a);
        }
        if p.contains(a) {
            let i = choose|i: int| 0 <= i < p.len() && p[i] == a;
            assert(all[c.len() + v.len() + i] == a);
        }
    }
}

// ---------------------------------------------------------------------------
// Computing it
// ---------------------------------------------------------------------------

fn clone_values(v: &Vec<JsonValue>) -> (r: Vec<JsonValue>)
    ensures
        jv_items(r@) == jv_items(v@),
{
    proof {
        lemma_jv_items(v@);
    }
    let mut out: Vec<JsonValue> = Vec::new();
    let mut i: usize = 0;
    while i < v.len()
        invariant
            i <= v@.len(),
            out@.len() == i,
            forall|j: int| 0 <= j < i ==> #[trigger] jv(out@[j]) == jv(v@[j]),
        decreases v@.len() - i,
    {
        out.push(deep_clone(&v[i]));
        i = i + 1;
    }
    proof {
        lemma_jv_items(out@);
        lemma_jv_items(v@);
        assert(jv_items(out@) =~= jv_items(v@));
    }
    out
}

/// Appends copies of `more` to `out`.
fn append_strings(out: &mut Vec<String>, more: &Vec<String>)
    ensures
        crate::i18n::string_views(final(out)@) == crate::i18n::string_views(old(out)@)
            + crate::i18n::string_views(more@),
{
    let ghost start = crate::i18n::string_views(out@);
    let mut i: usize = 0;
    proof {
        assert(crate::i18n::string_views(more@).subrange(0, 0) =~= Seq::<Seq<char>>::empty());
        assert(start + Seq::<Seq<char>>::empty() =~= start);
    }
    while i < more.len()
        invariant
            i <= more@.len(),
            crate::i18n::string_views(out@) == start + crate::i18n::string_views(more@).subrange(0, i as int),
        decreases more@.len() - i,
    {
        let ghost before = crate::i18n::string_views(out@);
        out.push(more[i].clone());
        proof {
            assert(crate::i18n::string_views(out@) =~= before.push(more@[i as int]@));
            assert(start + crate::i18n::string_views(more@).subrange(0, i + 1) =~= before.push(
                more@[i as int]@,
            ));
        }
        i = i + 1;
    }
    proof {
        assert(crate::i18n::string_views(more@).subrange(0, more@.len() as int) =~= crate::i18n::string_views(
            more@,
        ));
    }
}

/// Whether `s` holds the text `t`.
fn holds(s: &Vec<String>, t: &str) -> (b: bool)
    ensures
        b == crate::i18n::string_views(s@).contains(t@),
{
    let ghost sv = crate::i18n::string_views(s@);
    let mut i: usize = 0;
    while i < s.len()
        invariant
            sv == crate::i18n::string_views(s@),
            sv.len() == s@.len(),
            i <= s@.len(),
            forall|j: int| 0 <= j < i ==> sv[j] != t@,
        decreases s@.len() - i,
    {
        if crate::json::str_eq(s[i].as_str(), t) {
            proof {
                assert(sv[i as int] == t@);
            }
            return true;
        }
        i = i + 1;
    }
    false
}

/// Appends the elements of `more` that `out` does not hold yet, in order.
fn append_new(out: &mut Vec<String>, more: &Vec<String>)
    ensures
        crate::i18n::string_views(final(out)@) == dedup_onto(
            crate::i18n::string_views(old(out)@),
            crate::i18n::string_views(more@),
        ),
{
    let ghost start = crate::i18n::string_views(out@);
    let ghost mv = crate::i18n::string_views(more@);
    let mut i: usize = 0;
    proof {
        assert(mv.subrange(0, 0) =~= Seq::<Seq<char>>::empty());
    }
    while i < more.len()
        invariant
            mv == crate::i18n::string_views(more@),
            mv.len() == more@.len(),
            i <= more@.len(),
            crate::i18n::string_views(out@) == dedup_onto(start, mv.subrange(0, i as int)),
        decreases more@.len() - i,
    {
        let ghost before = crate::i18n::string_views(out@);
        proof {
            assert(mv.subrange(0, i + 1).drop_last() =~= mv.subrange(0, i as int));
            assert(mv.subrange(0, i + 1).last() == more@[i as int]@);
        }
        if !holds(out, more[i].as_str()) {
            out.push(more[i].clone());
            proof {
                assert(crate::i18n::string_views(out@) =~= before.push(more@[i as int]@));
            }
        }
        i = i + 1;
    }
    proof {
        assert(mv.subrange(0, more@.len() as int) =~= mv);
    }
}

/// `d` followed by the elements of `s` that are new, each at its first occurrence.
pub open spec fn dedup_onto(d: Seq<Seq<char>>, s: Seq<Seq<char>>) -> Seq<Seq<char>>
    decreases s.len(),
{
    if s.len() == 0 {
        d
    } else {
        let e = dedup_onto(d, s.drop_last());
        if e.contains(s.last()) {
            e
        } else {
            e.push(s.last())
        }
    }
}

/// Removing repeats from a concatenation continues from the repeat-free first part.
proof fn lemma_dedup_onto(a: Seq<Seq<char>>, b: Seq<Seq<char>>)
    ensures
        dedup(a + b) == dedup_onto(dedup(a), b),
    decreases b.len(),
{
    if b.len() == 0 {
        assert(a + b =~= a);
    } else {
        lemma_dedup_onto(a, b.drop_last());
        assert((a + b).drop_last() =~= a + b.drop_last());
        assert((a + b).last() == b.last());
    }
}

/// The sections of a run under a prefix.
pub fn prefix_sections(prefix: &str, label: &str, sections: &Vec<PresentationSection>) -> (r: Vec<PresentationSection>)
    ensures
        section_views(r@) == prefixed_sections(section_views(sections@), prefix@, label@),
{
    let ghost want = prefixed_sections(section_views(sections@), prefix@, label@);
    let mut out: Vec<PresentationSection> = Vec::new();
    let mut i: usize = 0;
    while i < sections.len()
        invariant
            want == prefixed_sections(section_views(sections@), prefix@, label@),
            i <= sections@.len(),
            out@.len() == i,
            forall|j: int| 0 <= j < i ==> #[trigger] out@[j]@ == want[j],
        decreases sections@.len() - i,
    {
        let s = &sections[i];
        let mut id = prefix.to_string();
        push_str(&mut id, "_");
        push_str(&mut id, s.section_id.as_str());
        let mut title = label.to_string();
        push_str(&mut title, ": ");
        push_str(&mut title, s.title.as_str());
        let section = PresentationSection {
            section_id: id,
            section_type: s.section_type.clone(),
            title,
            items: clone_values(&s.items),
            columns: clone_values(&s.columns),
            rows: clone_values(&s.rows),
        };
        proof {
            assert(section@ == want[i as int]);
        }
        out.push(section);
        i = i + 1;
    }
    proof {
        assert(section_views(out@) =~= want);
    }
    out
}

fn labelled(label: &str, value: &str) -> (r: JsonValue)
    ensures
        r@ == labelled_json(label@, value@),
{
    obj2("label", text(label), "value", text(value))
}

/// The presentation of a service degradation triage of the three runs.
pub fn composed_triage_presentation(
    change: &PresentationModel,
    vm_rca: &PresentationModel,
    port: &PresentationModel,
) -> (r: PresentationModel)
    ensures
        r@ == triage_view(change@, vm_rca@, port@),
{
    let (rc, rv, rp) = (
        severity_rank(change.severity.as_str()),
        severity_rank(vm_rca.severity.as_str()),
        severity_rank(port.severity.as_str()),
    );
    let severity = if rp >= rc && rp >= rv {
        port.severity.clone()
    } else if rv >= rc {
        vm_rca.severity.clone()
    } else {
        change.severity.clone()
    };
    let mut items: Vec<JsonValue> = Vec::new();
    items.push(labelled("change_analysis", change.summary.as_str()));
    items.push(labelled("vm_rca", vm_rca.summary.as_str()));
    items.push(labelled("network_signal", port.summary.as_str()));
    let opening = PresentationSection {
        section_id: "triage_summary".to_string(),
        section_type: "facts".to_string(),
        title: "Triage summary".to_string(),
        items,
        columns: Vec::new(),
        rows: Vec::new(),
    };
    proof {
        lemma_jv_items(opening.items@);
        lemma_jv_items(opening.columns@);
        assert(opening@.items =~= triage_summary_section(change.summary@, vm_rca.summary@, port.summary@).items);
        assert(opening@ == triage_summary_section(change.summary@, vm_rca.summary@, port.summary@));
    }
    let mut sections: Vec<PresentationSection> = Vec::new();
    sections.push(opening);
    let mut more = prefix_sections("change", "Recent changes", &change.sections);
    sections.append(&mut more);
    let mut more = prefix_sections("rca", "RCA", &vm_rca.sections);
    sections.append(&mut more);
    let mut more = prefix_sections("network", "Network", &port.sections);
    sections.append(&mut more);
    let mut actions: Vec<String> = Vec::new();
    proof {
        assert(crate::i18n::string_views(actions@) =~= Seq::<Seq<char>>::empty());
    }
    append_new(&mut actions, &change.recommended_actions);
    append_new(&mut actions, &vm_rca.recommended_actions);
    append_new(&mut actions, &port.recommended_actions);
    let mut evidence: Vec<String> = Vec::new();
    proof {
        assert(crate::i18n::string_views(evidence@) =~= Seq::<Seq<char>>::empty());
    }
    append_strings(&mut evidence, &change.evidence_refs);
    append_strings(&mut evidence, &vm_rca.evidence_refs);
    append_strings(&mut evidence, &port.evidence_refs);
    let mut summary = vm_rca.summary.clone();
    push_str(&mut summary, " ");
    push_str(&mut summary, change.summary.as_str());
    push_str(&mut summary, " ");
    push_str(&mut summary, port.summary.as_str());
    let entities: Vec<JsonValue> = Vec::new();
    proof {
        lemma_jv_items(entities@);
        let (c, v, p) = (
            change@.recommended_actions,
            vm_rca@.recommended_actions,
            port@.recommended_actions,
        );
        lemma_dedup_onto(Seq::empty(), c);
        assert(Seq::<Seq<char>>::empty() + c =~= c);
        assert(dedup(Seq::<Seq<char>>::empty()) == Seq::<Seq<char>>::empty());
        lemma_dedup_onto(c, v);
        lemma_dedup_onto(c + v, p);
        assert(section_views(sections@) =~= seq![
            triage_summary_section(change.summary@, vm_rca.summary@, port.summary@),
        ] + prefixed_sections(change@.sections, "change"@, "Recent changes"@) + prefixed_sections(
            vm_rca@.sections,
            "rca"@,
            "RCA"@,
        ) + prefixed_sections(port@.sections, "network"@, "Network"@));
    }
    PresentationModel {
        playbook_id: "tx.playbook.service_degradation_triage".to_string(),
        summary,
        severity,
        entities,
        evidence_refs: evidence,
        sections,
        recommended_actions: actions,
    }
}

} // verus!

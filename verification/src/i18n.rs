//! The i18n keys that the Telco-X presentation component refers to.
use vstd::prelude::*;

verus! {

broadcast use vstd::string::group_string_axioms;

/// The text of `key` in `locale`: the key itself, as no bundle is shipped.
pub fn t(_locale: &str, key: &str) -> (r: String)
    ensures
        r@ == key@,
{
    key.to_string()
}

/// Every i18n key that the QA metadata refers to, in a fixed order.
pub open spec fn all_i18n_keys() -> Seq<Seq<char>> {
    seq![
        "qa.install.title"@,
        "qa.install.description"@,
        "qa.update.title"@,
        "qa.update.description"@,
        "qa.remove.title"@,
        "qa.remove.description"@,
        "qa.field.query_hint.label"@,
        "qa.field.query_hint.help"@,
        "qa.field.confirm_remove.label"@,
        "qa.field.confirm_remove.help"@,
        "qa.error.remove_confirmation"@,
    ]
}

pub open spec fn string_views(v: Seq<String>) -> Seq<Seq<char>> {
    v.map_values(|s: String| s@)
}

/// Every i18n key that the QA metadata refers to.
pub fn all_keys() -> (r: Vec<String>)
    ensures
        string_views(r@) == all_i18n_keys(),
{
    let r = vec![
        "qa.install.title".to_string(),
        "qa.install.description".to_string(),
        "qa.update.title".to_string(),
        "qa.update.description".to_string(),
        "qa.remove.title".to_string(),
        "qa.remove.description".to_string(),
        "qa.field.query_hint.label".to_string(),
        "qa.field.query_hint.help".to_string(),
        "qa.field.confirm_remove.label".to_string(),
        "qa.field.confirm_remove.help".to_string(),
        "qa.error.remove_confirmation".to_string(),
    ];
    proof {
        assert(string_views(r@) =~= all_i18n_keys());
    }
    r
}

} // verus!

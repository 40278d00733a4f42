//! The command-line flags of the demo server and the environment they set.
use vstd::prelude::*;

use crate::text::{decimal, u64_to_decimal};

verus! {

broadcast use vstd::string::group_string_axioms;

/// The flags of the demo server; each one overrides an environment variable.
#[derive(Debug, Clone, PartialEq, Eq, Default)]
pub struct CliArgs {
    pub packs_dir: Option<String>,
    pub port: Option<u16>,
    pub secrets_backend: Option<String>,
    pub pack_source: Option<String>,
    pub pack_index_url: Option<String>,
    pub pack_cache_dir: Option<String>,
    pub pack_public_key: Option<String>,
    pub pack_refresh_interval: Option<String>,
    pub pack_refresh_interval_secs: Option<u64>,
    pub tenant_resolver: Option<String>,
}

pub open spec fn text_var(key: Seq<char>, v: Option<String>) -> Seq<(Seq<char>, Seq<char>)> {
    match v {
        Some(s) => seq![(key, s@)],
        None => Seq::empty(),
    }
}

pub open spec fn number_var(key: Seq<char>, v: Option<u64>) -> Seq<(Seq<char>, Seq<char>)> {
    match v {
        Some(n) => seq![(key, decimal(n as nat))],
        None => Seq::empty(),
    }
}

/// The environment variables that the given flags set, in the order they are set.
pub open spec fn env_overrides(args: CliArgs) -> Seq<(Seq<char>, Seq<char>)> {
    text_var("PACKS_DIR"@, args.packs_dir) + number_var(
        "PORT"@,
        match args.port {
            Some(p) => Some(p as u64),
            None => None,
        },
    ) + text_var("SECRETS_BACKEND"@, args.secrets_backend) + text_var(
        "PACK_SOURCE"@,
        args.pack_source,
    ) + text_var("PACK_INDEX_URL"@, args.pack_index_url) + text_var(
        "PACK_CACHE_DIR"@,
        args.pack_cache_dir,
    ) + text_var("PACK_PUBLIC_KEY"@, args.pack_public_key) + text_var(
        "PACK_REFRESH_INTERVAL"@,
        args.pack_refresh_interval,
    ) + number_var("PACK_REFRESH_INTERVAL_SECS"@, args.pack_refresh_interval_secs) + text_var(
        "TENANT_RESOLVER"@,
        args.tenant_resolver,
    )
}

pub open spec fn pair_views(v: Seq<(String, String)>) -> Seq<(Seq<char>, Seq<char>)> {
    v.map_values(|p: (String, String)| (p.0@, p.1@))
}

fn push_text(out: &mut Vec<(String, String)>, key: &str, v: &Option<String>)
    ensures
        pair_views(final(out)@) == pair_views(old(out)@) + text_var(key@, *v),
{
    let ghost before = pair_views(out@);
    if let Some(s) = v {
        out.push((key.to_string(), s.clone()));
    }
    proof {
        assert(pair_views(out@) =~= before + text_var(key@, *v));
    }
}

fn push_number(out: &mut Vec<(String, String)>, key: &str, v: Option<u64>)
    ensures
        pair_views(final(out)@) == pair_views(old(out)@) + number_var(key@, v),
{
    let ghost before = pair_views(out@);
    if let Some(n) = v {
        out.push((key.to_string(), u64_to_decimal(n)));
    }
    proof {
        assert(pair_views(out@) =~= before + number_var(key@, v));
    }
}

/// The environment variables that the given flags override, with their values,
/// in the order the server sets them.
pub fn apply_cli_overrides(args: &CliArgs) -> (r: Vec<(String, String)>)
    ensures
        pair_views(r@) == env_overrides(*args),
{
    let mut out: Vec<(String, String)> = Vec::new();
    proof {
        assert(pair_views(out@) =~= Seq::<(Seq<char>, Seq<char>)>::empty());
    }
    push_text(&mut out, "PACKS_DIR", &args.packs_dir);
    let port: Option<u64> = match args.port {
        Some(p) => Some(p as u64),
        None => None,
    };
    push_number(&mut out, "PORT", port);
    push_text(&mut out, "SECRETS_BACKEND", &args.secrets_backend);
    push_text(&mut out, "PACK_SOURCE", &args.pack_source);
    push_text(&mut out, "PACK_INDEX_URL", &args.pack_index_url);
    push_text(&mut out, "PACK_CACHE_DIR", &args.pack_cache_dir);
    push_text(&mut out, "PACK_PUBLIC_KEY", &args.pack_public_key);
    push_text(&mut out, "PACK_REFRESH_INTERVAL", &args.pack_refresh_interval);
    push_number(&mut out, "PACK_REFRESH_INTERVAL_SECS", args.pack_refresh_interval_secs);
    push_text(&mut out, "TENANT_RESOLVER", &args.tenant_resolver);
    proof {
        assert(pair_views(out@) =~= env_overrides(*args));
    }
    out
}

/// Why no tenant packs could be served, when none was found in `packs_dir`.
pub fn no_tenants_error(packs_dir: &str) -> (r: String)
    ensures
        r@ == "no tenant bindings found in "@ + packs_dir@ + "; add at least one pack"@,
{
    let mut r = "no tenant bindings found in ".to_string();
    crate::text::push_str(&mut r, packs_dir);
    crate::text::push_str(&mut r, "; add at least one pack");
    r
}

} // verus!

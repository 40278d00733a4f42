//! Weighted random route selection for the red-button scenario.
use vstd::prelude::*;

use rand::rngs::SmallRng;
use rand::{Rng, SeedableRng};

use crate::component::{describe_payload_for, handle_message_for, handled_message};
use crate::component::descriptor_json;
use crate::json::render;

verus! {

broadcast use vstd::string::group_string_axioms;

pub const COMPONENT_NAME: &'static str = "component-random";

/// One branch that the red button can take.
#[derive(Debug, Clone, PartialEq, Eq)]
pub struct RouteOption {
    pub route: String,
    pub audio_url: Option<String>,
    pub incident_name: Option<String>,
    pub incident_summary: Option<String>,
    pub http_endpoint: Option<String>,
    pub weight: u32,
}

/// The routes to choose from, and an optional seed that fixes the draw.
#[derive(Debug, Clone, PartialEq, Eq)]
pub struct RandomRequest {
    pub routes: Vec<RouteOption>,
    pub seed: Option<u64>,
}

/// The chosen route and its position in the request.
#[derive(Debug, Clone, PartialEq, Eq)]
pub struct RandomSelection {
    pub route: String,
    pub audio_url: Option<String>,
    pub incident_name: Option<String>,
    pub incident_summary: Option<String>,
    pub http_endpoint: Option<String>,
    pub index: usize,
}

/// The weight that a route gets when its input leaves it out.
pub fn default_weight() -> (w: u32)
    ensures
        w == 1,
{
    1
}

/// The weight that a route counts with: its own, but at least one.
pub open spec fn effective_weight(r: RouteOption) -> nat {
    if r.weight == 0 {
        1
    } else {
        r.weight as nat
    }
}

/// The summed effective weights of the first `i` routes.
pub open spec fn cumulative_weight(routes: Seq<RouteOption>, i: int) -> nat
    decreases i,
{
    if i <= 0 {
        0
    } else {
        cumulative_weight(routes, i - 1) + effective_weight(routes[i - 1])
    }
}

/// The summed effective weights of all routes.
pub open spec fn total_weight(routes: Seq<RouteOption>) -> nat {
    cumulative_weight(routes, routes.len() as int)
}

/// Route `i` owns the tickets `[cumulative_weight(i), cumulative_weight(i + 1))`.
pub open spec fn owns_ticket(routes: Seq<RouteOption>, i: int, ticket: int) -> bool {
    0 <= i < routes.len() && cumulative_weight(routes, i) <= ticket < cumulative_weight(
        routes,
        i + 1,
    )
}

/// `sel` copies route `i` of `routes`.
pub open spec fn copies_route(sel: RandomSelection, routes: Seq<RouteOption>, i: int) -> bool {
    &&& sel.index == i
    &&& sel.route == routes[i].route
    &&& sel.audio_url == routes[i].audio_url
    &&& sel.incident_name == routes[i].incident_name
    &&& sel.incident_summary == routes[i].incident_summary
    &&& sel.http_endpoint == routes[i].http_endpoint
}

/// Whether `sel` is what `ticket` draws from `routes`.
pub open spec fn selected_by_ticket(
    sel: RandomSelection,
    routes: Seq<RouteOption>,
    ticket: int,
) -> bool {
    owns_ticket(routes, sel.index as int, ticket) && copies_route(sel, routes, sel.index as int)
}

pub open spec fn err_no_routes() -> Seq<char> {
    "routes must not be empty"@
}

pub open spec fn err_not_chosen() -> Seq<char> {
    "failed to choose route"@
}

/// Adding a route never lowers the running weight, and each route adds at least one.
pub proof fn lemma_cumulative_monotone(routes: Seq<RouteOption>, i: int, j: int)
    requires
        0 <= i <= j,
    ensures
        cumulative_weight(routes, i) + (j - i) <= cumulative_weight(routes, j),
    decreases j - i,
{
    if i < j {
        lemma_cumulative_monotone(routes, i, j - 1);
    }
}

/// Every ticket below the total weight is owned by exactly one route.
pub proof fn lemma_ticket_owner_unique(routes: Seq<RouteOption>, ticket: int, i: int, j: int)
    requires
        owns_ticket(routes, i, ticket),
        owns_ticket(routes, j, ticket),
    ensures
        i == j,
{
    if i < j {
        lemma_cumulative_monotone(routes, i + 1, j);
    } else if j < i {
        lemma_cumulative_monotone(routes, j + 1, i);
    }
}

/// Every ticket below the total weight has an owner.
pub proof fn lemma_ticket_has_owner(routes: Seq<RouteOption>, ticket: int)
    requires
        0 <= ticket < total_weight(routes),
    ensures
        exists|i: int| owns_ticket(routes, i, ticket),
{
    lemma_owner_below(routes, ticket, routes.len() as int);
}

proof fn lemma_owner_below(routes: Seq<RouteOption>, ticket: int, k: int)
    requires
        0 <= k <= routes.len(),
        0 <= ticket < cumulative_weight(routes, k),
    ensures
        exists|i: int| owns_ticket(routes, i, ticket),
    decreases k,
{
    if ticket >= cumulative_weight(routes, k - 1) {
        assert(owns_ticket(routes, k - 1, ticket));
    } else {
        lemma_owner_below(routes, ticket, k - 1);
    }
}

/// Weighted fairness: route `i` is drawn by exactly as many tickets as its
/// effective weight, so a route with a larger weight is drawn proportionally more often.
pub proof fn lemma_tickets_per_route(routes: Seq<RouteOption>, i: int)
    requires
        0 <= i < routes.len(),
    ensures
        cumulative_weight(routes, i + 1) - cumulative_weight(routes, i) == effective_weight(
            routes[i],
        ),
        forall|t: int| owns_ticket(routes, i, t) <==> cumulative_weight(routes, i) <= t
            < cumulative_weight(routes, i) + effective_weight(routes[i]),
{
}

/// A request with a single route always selects it.
pub proof fn lemma_single_route(routes: Seq<RouteOption>, ticket: int)
    requires
        routes.len() == 1,
        0 <= ticket < total_weight(routes),
    ensures
        owns_ticket(routes, 0, ticket),
{
}

/// The small, fast generator of `rand` that draws the tickets.
#[verifier::external_type_specification]
#[verifier::external_body]
pub struct ExSmallRng(SmallRng);

/// A generator seeded with `seed`. Calls `SeedableRng::seed_from_u64`; the stream
/// of a `SmallRng` differs between platforms, so nothing is claimed of it.
#[verifier::external_body]
fn rng_from_seed(seed: u64) -> SmallRng {
    SmallRng::seed_from_u64(seed)
}

/// A generator seeded by the operating system. Calls `SeedableRng::from_entropy`.
#[verifier::external_body]
fn rng_from_entropy() -> SmallRng {
    SmallRng::from_entropy()
}

/// A ticket in `[0, bound)`. Calls `Rng::gen_range` with the half-open range
/// `0..bound`, which returns a value inside the range and panics on an empty one.
#[verifier::external_body]
fn draw_below(rng: &mut SmallRng, bound: u64) -> (t: u64)
    requires
        bound > 0,
    ensures
        t < bound,
{
    rng.gen_range(0..bound)
}

fn clone_opt(o: &Option<String>) -> (r: Option<String>)
    ensures
        r == *o,
{
    match o {
        Some(s) => Some(s.clone()),
        None => None,
    }
}

fn effective_weight_exec(r: &RouteOption) -> (w: u32)
    ensures
        w as nat == effective_weight(*r),
{
    if r.weight == 0 {
        1
    } else {
        r.weight
    }
}

/// The route that `ticket` draws: the first route whose running weight exceeds the ticket.
/// Fails with "failed to choose route" when the ticket is not below the total weight.
pub fn select_route_with_ticket(request: &RandomRequest, ticket: u64) -> (r: Result<
    RandomSelection,
    String,
>)
    ensures
        match r {
            Ok(sel) => selected_by_ticket(sel, request.routes@, ticket as int),
            Err(e) => ticket >= total_weight(request.routes@) && e@ == err_not_chosen(),
        },
        r is Ok <==> ticket < total_weight(request.routes@),
{
    let routes = &request.routes;
    let mut cursor: u128 = 0;
    let mut index: usize = 0;
    while index < routes.len()
        invariant
            routes@ == request.routes@,
            index <= routes@.len(),
            cursor as nat == cumulative_weight(routes@, index as int),
            cursor <= index * 0x1_0000_0000,
            ticket >= cursor,
        decreases routes@.len() - index,
    {
        let route = &routes[index];
        let w = effective_weight_exec(route);
        proof {
            assert(cumulative_weight(routes@, index + 1) == cumulative_weight(routes@, index as int)
                + effective_weight(routes@[index as int]));
            assert(cursor + w <= (index + 1) * 0x1_0000_0000) by (nonlinear_arith)
                requires
                    cursor <= index * 0x1_0000_0000,
                    w < 0x1_0000_0000,
            ;
        }
        cursor = cursor + w as u128;
        if (ticket as u128) < cursor {
            let sel = RandomSelection {
                route: route.route.clone(),
                audio_url: clone_opt(&route.audio_url),
                incident_name: clone_opt(&route.incident_name),
                incident_summary: clone_opt(&route.incident_summary),
                http_endpoint: clone_opt(&route.http_endpoint),
                index,
            };
            proof {
                lemma_cumulative_monotone(routes@, index + 1, routes@.len() as int);
            }
            return Ok(sel);
        }
        index = index + 1;
    }
    Err("failed to choose route".to_string())
}

/// The summed effective weights of the routes, or `None` where the sum does not fit in a `u64`.
pub fn checked_total_weight(routes: &Vec<RouteOption>) -> (r: Option<u64>)
    ensures
        match r {
            Some(t) => t as nat == total_weight(routes@),
            None => total_weight(routes@) > u64::MAX,
        },
{
    let mut total: u64 = 0;
    let mut i: usize = 0;
    while i < routes.len()
        invariant
            i <= routes@.len(),
            total as nat == cumulative_weight(routes@, i as int),
        decreases routes@.len() - i,
    {
        let w = effective_weight_exec(&routes[i]) as u64;
        if total > u64::MAX - w {
            proof {
                lemma_cumulative_monotone(routes@, i + 1, routes@.len() as int);
            }
            return None;
        }
        total = total + w;
        i = i + 1;
    }
    Some(total)
}

/// Selects one route at random, each with a chance proportional to its weight
/// (a weight of zero counts as one). With a seed the generator is seeded from
/// it, else from the operating system; which ticket the generator draws is not
/// stated, only that the selected route owns it.
pub fn select_route(request: &RandomRequest) -> (r: Result<RandomSelection, String>)
    requires
        total_weight(request.routes@) <= u64::MAX,
    ensures
        r is Err <==> request.routes@.len() == 0,
        match r {
            Ok(sel) => exists|t: int|
                0 <= t < total_weight(request.routes@) && selected_by_ticket(
                    sel,
                    request.routes@,
                    t,
                ),
            Err(e) => e@ == err_no_routes(),
        },
{
    if request.routes.len() == 0 {
        return Err("routes must not be empty".to_string());
    }
    let routes = &request.routes;
    let mut total: u64 = 0;
    let mut i: usize = 0;
    while i < routes.len()
        invariant
            routes@ == request.routes@,
            i <= routes@.len(),
            total as nat == cumulative_weight(routes@, i as int),
            total_weight(routes@) <= u64::MAX,
        decreases routes@.len() - i,
    {
        proof {
            lemma_cumulative_monotone(routes@, i + 1, routes@.len() as int);
        }
        total = total + effective_weight_exec(&routes[i]) as u64;
        i = i + 1;
    }
    if total == 0 {
        return Err("routes must contain at least one positive weight".to_string());
    }
    let mut rng = match request.seed {
        Some(seed) => rng_from_seed(seed),
        None => rng_from_entropy(),
    };
    let ticket = draw_below(&mut rng, total);
    let r = select_route_with_ticket(request, ticket);
    match r {
        Ok(sel) => Ok(sel),
        Err(e) => {
            proof {
                lemma_cumulative_monotone(routes@, 0, routes@.len() as int);
            }
            Err(e)
        },
    }
}

/// The descriptor that the component reports as JSON text.
pub fn describe_payload() -> (r: String)
    ensures
        r@ == render(descriptor_json(COMPONENT_NAME@)),
{
    describe_payload_for(COMPONENT_NAME)
}

/// Echoes an operation and its trimmed input, prefixed with the component's name.
pub fn handle_message(operation: &str, input: &str) -> (r: String)
    ensures
        r@ == handled_message(COMPONENT_NAME@, operation@, input@),
{
    handle_message_for(COMPONENT_NAME, operation, input)
}

} // verus!

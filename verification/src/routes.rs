//! Delivery routes and the route sets that a request asks for.
use vstd::prelude::*;
use vstd::slice::slice_to_vec;

verus! {

/// A path by which the relay can deliver a transaction.
#[derive(Debug, Clone, Copy, PartialEq, Eq, Hash, Structural)]
pub enum RelayRoute {
    TpuQuic,
    TpuUdp,
    HarmonicBundle,
    HeliusSenderSwqos,
    RpcFallback,
    JitoTransaction,
    JitoBundle,
}

impl RelayRoute {
    /// Whether the route goes through Jito.
    pub fn is_jito(self) -> (res: bool)
        ensures
            res == (self == RelayRoute::JitoTransaction || self == RelayRoute::JitoBundle),
    {
        matches!(self, RelayRoute::JitoTransaction | RelayRoute::JitoBundle)
    }
}

/// How a route set combines its routes with the server's defaults.
#[derive(Debug, Clone, Copy, PartialEq, Eq, Structural)]
pub enum RouteSetMode {
    ServerDefault,
    Only,
    DefaultPlus,
    DefaultMinus,
}

/// The routes that a request asks for.
#[derive(Debug, PartialEq, Eq)]
pub struct RouteSet {
    pub mode: RouteSetMode,
    pub routes: Vec<RelayRoute>,
}

/// `out` followed by the routes of `routes` that it does not hold yet, each once, in the order
/// of their first occurrence.
pub open spec fn with_unique(out: Seq<RelayRoute>, routes: Seq<RelayRoute>) -> Seq<RelayRoute>
    decreases routes.len(),
{
    if routes.len() == 0 {
        out
    } else {
        let before = with_unique(out, routes.drop_last());
        if before.contains(routes.last()) {
            before
        } else {
            before.push(routes.last())
        }
    }
}

/// `defaults` without the routes that occur in `removed`, in the same order.
pub open spec fn without_routes(
    defaults: Seq<RelayRoute>,
    removed: Seq<RelayRoute>,
) -> Seq<RelayRoute> {
    defaults.filter(|r: RelayRoute| !removed.contains(r))
}

/// The routes that a set in `mode` over `routes` resolves to, given the server's `defaults`.
pub open spec fn resolution(
    mode: RouteSetMode,
    routes: Seq<RelayRoute>,
    defaults: Seq<RelayRoute>,
) -> Seq<RelayRoute> {
    match mode {
        RouteSetMode::ServerDefault => defaults,
        RouteSetMode::Only => with_unique(Seq::empty(), routes),
        RouteSetMode::DefaultPlus => with_unique(defaults, routes),
        RouteSetMode::DefaultMinus => without_routes(defaults, routes),
    }
}

impl Default for RouteSet {
    fn default() -> (res: Self)
        ensures
            res.mode == RouteSetMode::ServerDefault,
            res.routes@ == Seq::<RelayRoute>::empty(),
    {
        RouteSet { mode: RouteSetMode::ServerDefault, routes: Vec::new() }
    }
}

impl Clone for RouteSet {
    fn clone(&self) -> (res: Self)
        ensures
            res.mode == self.mode,
            res.routes@ == self.routes@,
    {
        RouteSet { mode: self.mode, routes: slice_to_vec(self.routes.as_slice()) }
    }
}

impl RouteSet {
    /// The server's own choice of routes.
    pub fn server_default() -> (res: Self)
        ensures
            res.mode == RouteSetMode::ServerDefault,
            res.routes@ == Seq::<RelayRoute>::empty(),
    {
        RouteSet::default()
    }

    /// Exactly `routes`.
    pub fn only(routes: Vec<RelayRoute>) -> (res: Self)
        ensures
            res.mode == RouteSetMode::Only,
            res.routes == routes,
    {
        RouteSet { mode: RouteSetMode::Only, routes }
    }

    /// The server's defaults and `routes`.
    pub fn default_plus(routes: Vec<RelayRoute>) -> (res: Self)
        ensures
            res.mode == RouteSetMode::DefaultPlus,
            res.routes == routes,
    {
        RouteSet { mode: RouteSetMode::DefaultPlus, routes }
    }

    /// The server's defaults without `routes`.
    pub fn default_minus(routes: Vec<RelayRoute>) -> (res: Self)
        ensures
            res.mode == RouteSetMode::DefaultMinus,
            res.routes == routes,
    {
        RouteSet { mode: RouteSetMode::DefaultMinus, routes }
    }

    /// The routes to use, given the server's defaults.
    pub fn resolve(&self, defaults: &[RelayRoute]) -> (res: Vec<RelayRoute>)
        ensures
            res@ == resolution(self.mode, self.routes@, defaults@),
            self.mode == RouteSetMode::ServerDefault ==> res@ == defaults@,
    {
        match self.mode {
            RouteSetMode::ServerDefault => slice_to_vec(defaults),
            RouteSetMode::Only => {
                let mut out: Vec<RelayRoute> = Vec::new();
                push_unique_all(&mut out, self.routes.as_slice());
                out
            },
            RouteSetMode::DefaultPlus => {
                let mut out = slice_to_vec(defaults);
                push_unique_all(&mut out, self.routes.as_slice());
                out
            },
            RouteSetMode::DefaultMinus => retain_absent(defaults, self.routes.as_slice()),
        }
    }
}

/// Whether `route` occurs in `routes`.
pub fn contains_route(routes: &[RelayRoute], route: RelayRoute) -> (res: bool)
    ensures
        res == routes@.contains(route),
{
    let mut i: usize = 0;
    while i < routes.len()
        invariant
            i <= routes@.len(),
            forall|j: int| 0 <= j < i ==> routes@[j] != route,
        decreases routes@.len() - i,
    {
        if routes[i] == route {
            return true;
        }
        i = i + 1;
    }
    false
}

/// Appends to `out` each route of `routes` that it does not hold yet.
pub fn push_unique_all(out: &mut Vec<RelayRoute>, routes: &[RelayRoute])
    ensures
        final(out)@ == with_unique(old(out)@, routes@),
{
    let mut i: usize = 0;
    while i < routes.len()
        invariant
            i <= routes@.len(),
            out@ == with_unique(old(out)@, routes@.take(i as int)),
        decreases routes@.len() - i,
    {
        assert(routes@.take(i + 1).drop_last() =~= routes@.take(i as int));
        if !contains_route(out.as_slice(), routes[i]) {
            out.push(routes[i]);
        }
        i = i + 1;
    }
    assert(routes@.take(i as int) =~= routes@);
}

/// The routes of `defaults` that do not occur in `removed`.
fn retain_absent(defaults: &[RelayRoute], removed: &[RelayRoute]) -> (res: Vec<RelayRoute>)
    ensures
        res@ == without_routes(defaults@, removed@),
{
    let mut out: Vec<RelayRoute> = Vec::new();
    let mut i: usize = 0;
    let ghost keep = |r: RelayRoute| !removed@.contains(r);
    assert(defaults@.take(0) =~= Seq::<RelayRoute>::empty());
    proof {
        reveal(Seq::filter);
    }
    while i < defaults.len()
        invariant
            i <= defaults@.len(),
            keep == (|r: RelayRoute| !removed@.contains(r)),
            out@ == defaults@.take(i as int).filter(keep),
        decreases defaults@.len() - i,
    {
        assert(defaults@.take(i + 1).drop_last() =~= defaults@.take(i as int));
        proof {
            reveal(Seq::filter);
        }
        if !contains_route(removed, defaults[i]) {
            out.push(defaults[i]);
        }
        i = i + 1;
    }
    assert(defaults@.take(i as int) =~= defaults@);
    out
}

/// A union of routes holds what either side holds, and starts with the first side unchanged.
pub proof fn lemma_with_unique(out: Seq<RelayRoute>, routes: Seq<RelayRoute>)
    ensures
        out.len() <= with_unique(out, routes).len(),
        with_unique(out, routes).take(out.len() as int) == out,
        forall|r: RelayRoute| #[trigger]
            with_unique(out, routes).contains(r) <==> out.contains(r) || routes.contains(r),
        out.no_duplicates() ==> with_unique(out, routes).no_duplicates(),
    decreases routes.len(),
{
    if routes.len() > 0 {
        let rest = routes.drop_last();
        let before = with_unique(out, rest);
        let all = with_unique(out, routes);
        lemma_with_unique(out, rest);
        assert(routes =~= rest.push(routes.last()));
        assert forall|r: RelayRoute| #[trigger] all.contains(r) <==> out.contains(r)
            || routes.contains(r) by {
            if all.contains(r) {
                let k = choose|k: int| 0 <= k < all.len() && all[k] == r;
                if k < before.len() {
                    assert(before[k] == r);
                    assert(before.contains(r));
                    if rest.contains(r) {
                        let j = choose|j: int| 0 <= j < rest.len() && rest[j] == r;
                        assert(routes[j] == r);
                    }
                } else {
                    assert(routes[routes.len() - 1] == r);
                }
            }
            if routes.contains(r) {
                let j = choose|j: int| 0 <= j < routes.len() && routes[j] == r;
                if j < rest.len() {
                    assert(rest[j] == r);
                    assert(before.contains(r));
                }
            }
            if before.contains(r) {
                let k = choose|k: int| 0 <= k < before.len() && before[k] == r;
                assert(all[k] == r);
            } else if r == routes.last() {
                assert(all[before.len() as int] == r);
            }
        }
        assert(all.take(out.len() as int) =~= before.take(out.len() as int));
    } else {
        assert(out.take(out.len() as int) =~= out);
    }
}

proof fn lemma_with_unique_by_parts(out: Seq<RelayRoute>, routes: Seq<RelayRoute>, n: int)
    requires
        0 <= n <= routes.len(),
    ensures
        ({
            let part = with_unique(out, routes.take(n));
            let all = with_unique(out, routes);
            &&& part.len() <= all.len()
            &&& forall|k: int| 0 <= k < part.len() ==> #[trigger] all[k] == part[k]
            &&& forall|k: int| part.len() <= k < all.len() ==> !part.contains(#[trigger] all[k])
        }),
    decreases routes.len(),
{
    let part = with_unique(out, routes.take(n));
    let all = with_unique(out, routes);
    if n == routes.len() {
        assert(routes.take(n) =~= routes);
    } else {
        let rest = routes.drop_last();
        let before = with_unique(out, rest);
        assert(rest.take(n) =~= routes.take(n));
        lemma_with_unique_by_parts(out, rest, n);
        if part.contains(routes.last()) {
            let k = choose|k: int| 0 <= k < part.len() && part[k] == routes.last();
            assert(before[k] == part[k]);
        }
        assert forall|k: int| part.len() <= k < all.len() implies !part.contains(
            #[trigger] all[k],
        ) by {
            if k < before.len() {
                assert(all[k] == before[k]);
            }
        }
    }
}

/// Routes are added in the order of their first occurrence: of two routes that were not held
/// before, both are added, and the one that is asked for first comes first.
pub proof fn lemma_with_unique_keeps_order(
    out: Seq<RelayRoute>,
    routes: Seq<RelayRoute>,
    i: int,
    j: int,
)
    requires
        0 <= i < j < routes.len(),
        !out.contains(routes[i]),
        !out.contains(routes[j]),
        !routes.take(i).contains(routes[i]),
        !routes.take(j).contains(routes[j]),
    ensures
        with_unique(out, routes).contains(routes[i]),
        with_unique(out, routes).contains(routes[j]),
        forall|a: int, b: int|
            #![trigger with_unique(out, routes)[a], with_unique(out, routes)[b]]
            0 <= a < with_unique(out, routes).len() && 0 <= b < with_unique(out, routes).len()
                && with_unique(out, routes)[a] == routes[i] && with_unique(out, routes)[b]
                == routes[j] ==> a < b,
{
    let part = with_unique(out, routes.take(j));
    let all = with_unique(out, routes);
    lemma_with_unique(out, routes);
    lemma_with_unique(out, routes.take(j));
    lemma_with_unique_by_parts(out, routes, j);
    assert(routes.take(j)[i] == routes[i]);
    assert(routes.take(j).contains(routes[i]));
    assert(part.contains(routes[i]));
    assert(!part.contains(routes[j]));
    assert forall|a: int, b: int|
        #![trigger all[a], all[b]]
        0 <= a < all.len() && 0 <= b < all.len() && all[a] == routes[i] && all[b]
            == routes[j] implies a < b by {
        if b < part.len() {
            assert(part[b] == all[b]);
        }
    }
}

/// A set in mode `Only` resolves to its routes, each once, whatever the server's defaults are.
pub proof fn lemma_only_ignores_defaults(
    routes: Seq<RelayRoute>,
    first_defaults: Seq<RelayRoute>,
    second_defaults: Seq<RelayRoute>,
)
    ensures
        resolution(RouteSetMode::Only, routes, first_defaults) == resolution(
            RouteSetMode::Only,
            routes,
            second_defaults,
        ),
        resolution(RouteSetMode::Only, routes, first_defaults).no_duplicates(),
        forall|r: RelayRoute| #[trigger]
            resolution(RouteSetMode::Only, routes, first_defaults).contains(r)
                <==> routes.contains(r),
{
    lemma_with_unique(Seq::empty(), routes);
}

/// A set in mode `DefaultPlus` keeps every default in its place and adds the routes asked for.
pub proof fn lemma_default_plus_extends(routes: Seq<RelayRoute>, defaults: Seq<RelayRoute>)
    ensures
        resolution(RouteSetMode::DefaultPlus, routes, defaults).take(defaults.len() as int)
            == defaults,
        forall|r: RelayRoute| #[trigger]
            resolution(RouteSetMode::DefaultPlus, routes, defaults).contains(r)
                <==> defaults.contains(r) || routes.contains(r),
{
    lemma_with_unique(defaults, routes);
}

/// A set in mode `DefaultMinus` holds exactly the defaults that it does not remove.
pub proof fn lemma_default_minus_removes(routes: Seq<RelayRoute>, defaults: Seq<RelayRoute>)
    ensures
        resolution(RouteSetMode::DefaultMinus, routes, defaults).len() <= defaults.len(),
        forall|r: RelayRoute| #[trigger]
            resolution(RouteSetMode::DefaultMinus, routes, defaults).contains(r)
                <==> defaults.contains(r) && !routes.contains(r),
{
    let keep = |r: RelayRoute| !routes.contains(r);
    let left = resolution(RouteSetMode::DefaultMinus, routes, defaults);
    assert(left == defaults.filter(keep));
    defaults.lemma_filter_len(keep);
    assert forall|r: RelayRoute| #[trigger] left.contains(r) <==> defaults.contains(r)
        && !routes.contains(r) by {
        if left.contains(r) {
            let k = choose|k: int| 0 <= k < left.len() && left[k] == r;
            defaults.lemma_filter_pred(keep, k);
            defaults.lemma_filter_contains_rev(keep, r);
        }
        if defaults.contains(r) && !routes.contains(r) {
            let k = choose|k: int| 0 <= k < defaults.len() && defaults[k] == r;
            defaults.lemma_filter_contains(keep, k);
        }
    }
}

/// Routes that are distinct and not yet held are all added, in their order: in mode `Only` they
/// are the resolution, in mode `DefaultPlus` they follow the defaults.
pub proof fn lemma_distinct_routes_are_kept(routes: Seq<RelayRoute>, defaults: Seq<RelayRoute>)
    requires
        routes.no_duplicates(),
    ensures
        resolution(RouteSetMode::Only, routes, defaults) == routes,
        (forall|r: RelayRoute| #[trigger] routes.contains(r) ==> !defaults.contains(r))
            ==> resolution(RouteSetMode::DefaultPlus, routes, defaults) == defaults + routes,
{
    lemma_with_unique_distinct(Seq::empty(), routes);
    assert(Seq::<RelayRoute>::empty() + routes =~= routes);
    if forall|r: RelayRoute| #[trigger] routes.contains(r) ==> !defaults.contains(r) {
        lemma_with_unique_distinct(defaults, routes);
    }
}

proof fn lemma_with_unique_distinct(out: Seq<RelayRoute>, routes: Seq<RelayRoute>)
    requires
        routes.no_duplicates(),
        forall|r: RelayRoute| #[trigger] routes.contains(r) ==> !out.contains(r),
    ensures
        with_unique(out, routes) == out + routes,
    decreases routes.len(),
{
    if routes.len() > 0 {
        let rest = routes.drop_last();
        assert forall|r: RelayRoute| #[trigger] rest.contains(r) implies !out.contains(r) by {
            let k = choose|k: int| 0 <= k < rest.len() && rest[k] == r;
            assert(routes[k] == r);
            assert(routes.contains(r));
        }
        lemma_with_unique_distinct(out, rest);
        let last = routes.last();
        assert(routes.contains(last));
        assert(!(out + rest).contains(last)) by {
            if (out + rest).contains(last) {
                let k = choose|k: int| 0 <= k < (out + rest).len() && (out + rest)[k] == last;
                if k < out.len() {
                    assert(out[k] == last);
                } else {
                    assert(routes[k - out.len()] == last);
                }
            }
        }
        assert((out + rest).push(last) =~= out + routes);
    } else {
        assert(out + routes =~= out);
    }
}

/// Each route that a union adds has one place in it.
pub proof fn lemma_with_unique_places(out: Seq<RelayRoute>, routes: Seq<RelayRoute>)
    ensures
        ({
            let all = with_unique(out, routes);
            forall|k: int, l: int|
                out.len() <= k < all.len() && 0 <= l < all.len() && k != l ==> #[trigger] all[k]
                    != #[trigger] all[l]
        }),
    decreases routes.len(),
{
    let all = with_unique(out, routes);
    if routes.len() > 0 {
        let before = with_unique(out, routes.drop_last());
        lemma_with_unique_places(out, routes.drop_last());
        lemma_with_unique(out, routes.drop_last());
        assert forall|k: int, l: int|
            out.len() <= k < all.len() && 0 <= l < all.len() && k != l implies #[trigger] all[k]
            != #[trigger] all[l] by {
            if k < before.len() && l < before.len() {
                assert(all[k] == before[k]);
                assert(all[l] == before[l]);
            } else if k < before.len() {
                assert(before[k] == all[k]);
                assert(before.contains(all[k]));
            } else if l < before.len() {
                assert(before[l] == all[l]);
                assert(before.contains(all[l]));
            }
        }
    }
}

/// A set in mode `ServerDefault` resolves to the server's defaults, route for route, whatever
/// routes it holds.
pub proof fn lemma_server_default_changes_nothing(
    routes: Seq<RelayRoute>,
    defaults: Seq<RelayRoute>,
)
    ensures
        resolution(RouteSetMode::ServerDefault, routes, defaults).len() == defaults.len(),
        forall|i: int|
            0 <= i < defaults.len() ==> #[trigger] resolution(
                RouteSetMode::ServerDefault,
                routes,
                defaults,
            )[i] == defaults[i],
        resolution(RouteSetMode::ServerDefault, routes, defaults) == defaults,
{
}

/// A set that adds routes, to nothing in mode `Only` and to the defaults in mode `DefaultPlus`,
/// keeps what it adds to in its place, holds that and the routes asked for and nothing else, and
/// has one place for each route that it adds.
pub proof fn lemma_resolution_adds_each_route_once(
    mode: RouteSetMode,
    routes: Seq<RelayRoute>,
    defaults: Seq<RelayRoute>,
)
    requires
        mode == RouteSetMode::Only || mode == RouteSetMode::DefaultPlus,
    ensures
        ({
            let base = if mode == RouteSetMode::Only {
                Seq::empty()
            } else {
                defaults
            };
            let all = resolution(mode, routes, defaults);
            &&& base.len() <= all.len()
            &&& forall|k: int| 0 <= k < base.len() ==> #[trigger] all[k] == base[k]
            &&& forall|r: RelayRoute| #[trigger]
                all.contains(r) <==> base.contains(r) || routes.contains(r)
            &&& forall|k: int, l: int|
                base.len() <= k < all.len() && 0 <= l < all.len() && k != l ==> #[trigger] all[k]
                    != #[trigger] all[l]
        }),
{
    let base = if mode == RouteSetMode::Only {
        Seq::empty()
    } else {
        defaults
    };
    lemma_with_unique(base, routes);
    lemma_with_unique_places(base, routes);
    let all = resolution(mode, routes, defaults);
    assert forall|k: int| 0 <= k < base.len() implies #[trigger] all[k] == base[k] by {
        assert(all.take(base.len() as int)[k] == base[k]);
    }
}

/// A set that adds routes adds them in the order in which they are first asked for.
pub proof fn lemma_resolution_keeps_order(
    mode: RouteSetMode,
    routes: Seq<RelayRoute>,
    defaults: Seq<RelayRoute>,
    i: int,
    j: int,
)
    requires
        mode == RouteSetMode::Only || mode == RouteSetMode::DefaultPlus,
        0 <= i < j < routes.len(),
        mode == RouteSetMode::DefaultPlus ==> !defaults.contains(routes[i]) && !defaults.contains(
            routes[j],
        ),
        !routes.take(i).contains(routes[i]),
        !routes.take(j).contains(routes[j]),
    ensures
        ({
            let all = resolution(mode, routes, defaults);
            forall|a: int, b: int|
                #![trigger all[a], all[b]]
                0 <= a < all.len() && 0 <= b < all.len() && all[a] == routes[i] && all[b]
                    == routes[j] ==> a < b
        }),
{
    let base = if mode == RouteSetMode::Only {
        Seq::empty()
    } else {
        defaults
    };
    lemma_with_unique_keeps_order(base, routes, i, j);
}

/// Asking for one route more adds it at the end where it was not there yet, and changes nothing
/// else.
pub proof fn lemma_asking_for_one_route_more(
    mode: RouteSetMode,
    routes: Seq<RelayRoute>,
    defaults: Seq<RelayRoute>,
    r: RelayRoute,
)
    requires
        mode == RouteSetMode::Only || mode == RouteSetMode::DefaultPlus,
    ensures
        resolution(mode, Seq::empty(), defaults) == (if mode == RouteSetMode::Only {
            Seq::empty()
        } else {
            defaults
        }),
        resolution(mode, routes.push(r), defaults) == (if resolution(
            mode,
            routes,
            defaults,
        ).contains(r) {
            resolution(mode, routes, defaults)
        } else {
            resolution(mode, routes, defaults).push(r)
        }),
{
    assert(routes.push(r).drop_last() =~= routes);
}

/// One default more is kept at the end by a set in mode `DefaultMinus` exactly where the set does
/// not remove it, and changes nothing else.
pub proof fn lemma_one_default_more(
    routes: Seq<RelayRoute>,
    defaults: Seq<RelayRoute>,
    r: RelayRoute,
)
    ensures
        resolution(RouteSetMode::DefaultMinus, routes, Seq::empty()).len() == 0,
        resolution(RouteSetMode::DefaultMinus, routes, defaults.push(r)) == (if routes.contains(r) {
            resolution(RouteSetMode::DefaultMinus, routes, defaults)
        } else {
            resolution(RouteSetMode::DefaultMinus, routes, defaults).push(r)
        }),
{
    let keep = |x: RelayRoute| !routes.contains(x);
    reveal(Seq::filter);
    assert(defaults.push(r).drop_last() =~= defaults);
    assert(defaults.push(r).last() == r);
    assert(without_routes(defaults.push(r), routes) == defaults.push(r).filter(keep));
    assert(without_routes(defaults, routes) == defaults.filter(keep));
}

} // verus!

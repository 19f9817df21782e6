use vstd::prelude::*;
use crate::method::{HttpMethod, MethodFilter, is_routable, method_bit, method_to_filter};

verus! {

/// What a route dispatches to.
#[derive(Clone, Copy, Debug, PartialEq, Eq, Structural)]
pub enum Handler {
    /// The `i`-th schema-typed endpoint of the table's endpoint list.
    Endpoint(usize),
    /// Reading a room state event of a type, with the empty state key.
    GetStateForEmptyKey,
    /// Sending a room state event of a type, with the empty state key.
    SendStateForEmptyKey,
    /// The server's signing keys.
    ServerKeys,
    /// The server's signing keys, by the retired key-id path.
    ServerKeysDeprecated,
    /// The retired room initial-sync endpoint.
    InitialSync,
}

/// The static description of one protocol operation: its method and every URL
/// template under which it has been published.
#[derive(Clone, Debug)]
pub struct EndpointMetadata {
    pub method: HttpMethod,
    pub path_aliases: Vec<String>,
}

/// An endpoint as plain values: its method and its path templates.
pub type EndpointView = (HttpMethod, Seq<Seq<char>>);

/// A route as plain values: method filter, path template, handler.
pub type RouteView = (MethodFilter, Seq<char>, Handler);

impl EndpointMetadata {
    pub open spec fn view(&self) -> EndpointView {
        (self.method, self.path_aliases@.map_values(|s: String| s@))
    }
}

/// One registration of the route table.
#[derive(Clone, Debug)]
pub struct RouteRegistration {
    pub filter: MethodFilter,
    pub path: String,
    pub handler: Handler,
}

impl RouteRegistration {
    pub open spec fn view(&self) -> RouteView {
        (self.filter, self.path@, self.handler)
    }
}

/// The route table: registrations in the order they were made. Requests that
/// no registration matches go to the catch-all, which is always consulted last.
#[derive(Clone, Debug)]
pub struct RouteTable {
    pub routes: Vec<RouteRegistration>,
}

/// The filter of a route registered for method `m`.
pub open spec fn filter_of(m: HttpMethod) -> MethodFilter {
    MethodFilter { bits: method_bit(m) }
}

/// The registrations that one endpoint expands into: one per path alias, all with
/// the endpoint's method and the same handler.
pub open spec fn alias_routes(e: EndpointView, h: Handler) -> Seq<RouteView> {
    e.1.map_values(|p: Seq<char>| (filter_of(e.0), p, h))
}

/// The registrations of the first `n` endpoints of `es`, the `i`-th with handler `Endpoint(i)`.
pub open spec fn endpoint_routes(es: Seq<EndpointView>, n: nat) -> Seq<RouteView>
    decreases n,
{
    if n == 0 {
        Seq::empty()
    } else {
        endpoint_routes(es, (n - 1) as nat) + alias_routes(es[n - 1], Handler::Endpoint(
            (n - 1) as usize,
        ))
    }
}

/// The routes that are registered by hand: the empty-state-key paths (versioned,
/// with and without a trailing slash, each for reading and sending), the two
/// server-key paths and the two initial-sync paths.
pub open spec fn irregular_routes() -> Seq<RouteView> {
    let get = filter_of(HttpMethod::Get);
    let put = filter_of(HttpMethod::Put);
    seq![
        (get, "/_matrix/client/r0/rooms/:room_id/state/:event_type"@, Handler::GetStateForEmptyKey),
        (put, "/_matrix/client/r0/rooms/:room_id/state/:event_type"@, Handler::SendStateForEmptyKey),
        (get, "/_matrix/client/v3/rooms/:room_id/state/:event_type"@, Handler::GetStateForEmptyKey),
        (put, "/_matrix/client/v3/rooms/:room_id/state/:event_type"@, Handler::SendStateForEmptyKey),
        (get, "/_matrix/client/r0/rooms/:room_id/state/:event_type/"@, Handler::GetStateForEmptyKey),
        (put, "/_matrix/client/r0/rooms/:room_id/state/:event_type/"@, Handler::SendStateForEmptyKey),
        (get, "/_matrix/client/v3/rooms/:room_id/state/:event_type/"@, Handler::GetStateForEmptyKey),
        (put, "/_matrix/client/v3/rooms/:room_id/state/:event_type/"@, Handler::SendStateForEmptyKey),
        (get, "/_matrix/key/v2/server"@, Handler::ServerKeys),
        (get, "/_matrix/key/v2/server/:key_id"@, Handler::ServerKeysDeprecated),
        (get, "/_matrix/client/r0/rooms/:room_id/initialSync"@, Handler::InitialSync),
        (get, "/_matrix/client/v3/rooms/:room_id/initialSync"@, Handler::InitialSync),
    ]
}

/// Whether every endpoint of the list has a routable method.
pub open spec fn all_routable(es: Seq<EndpointView>) -> bool {
    forall|i: int| 0 <= i < es.len() ==> is_routable(#[trigger] es[i].0)
}

impl RouteTable {
    pub open spec fn view(&self) -> Seq<RouteView> {
        self.routes@.map_values(|r: RouteRegistration| r@)
    }

    /// An empty table.
    pub fn new() -> (r: RouteTable)
        ensures
            r@.len() == 0,
    {
        RouteTable { routes: Vec::new() }
    }

    /// Registers `handler` under `path` for the methods of `filter`.
    pub fn route(&mut self, path: &str, filter: MethodFilter, handler: Handler)
        ensures
            final(self)@ == old(self)@.push((filter, path@, handler)),
    {
        let reg = RouteRegistration { filter, path: path.to_string(), handler };
        self.routes.push(reg);
        assert(final(self)@ =~= old(self)@.push((filter, path@, handler)));
    }

    /// Registers one schema-typed endpoint: one route per path alias, each with the
    /// endpoint's method and the same handler.
    pub fn ruma_route(&mut self, meta: &EndpointMetadata, handler: Handler)
        requires
            is_routable(meta.method),
        ensures
            final(self)@ == old(self)@ + alias_routes(meta@, handler),
    {
        let filter = method_to_filter(meta.method);
        let n = meta.path_aliases.len();
        let mut i: usize = 0;
        while i < n
            invariant
                n == meta.path_aliases@.len(),
                0 <= i <= n,
                filter == filter_of(meta.method),
                self@ == old(self)@ + alias_routes(meta@, handler).subrange(0, i as int),
            decreases n - i,
        {
            let reg = RouteRegistration {
                filter,
                path: meta.path_aliases[i].clone(),
                handler,
            };
            let ghost before = self@;
            self.routes.push(reg);
            assert(alias_routes(meta@, handler).subrange(0, i + 1) =~= alias_routes(
                meta@,
                handler,
            ).subrange(0, i as int).push(alias_routes(meta@, handler)[i as int]));
            assert(self@ =~= before.push(reg@));
            i = i + 1;
        }
        assert(alias_routes(meta@, handler).subrange(0, n as int) =~= alias_routes(
            meta@,
            handler,
        ));
    }

    /// Registers the routes that the endpoint schema cannot express, as `irregular_routes`
    /// lists them.
    pub fn add_irregular_routes(&mut self)
        ensures
            final(self)@ == old(self)@ + irregular_routes(),
    {
        let get = method_to_filter(HttpMethod::Get);
        let put = method_to_filter(HttpMethod::Put);
        self.route("/_matrix/client/r0/rooms/:room_id/state/:event_type", get, Handler::GetStateForEmptyKey);
        self.route("/_matrix/client/r0/rooms/:room_id/state/:event_type", put, Handler::SendStateForEmptyKey);
        self.route("/_matrix/client/v3/rooms/:room_id/state/:event_type", get, Handler::GetStateForEmptyKey);
        self.route("/_matrix/client/v3/rooms/:room_id/state/:event_type", put, Handler::SendStateForEmptyKey);
        self.route("/_matrix/client/r0/rooms/:room_id/state/:event_type/", get, Handler::GetStateForEmptyKey);
        self.route("/_matrix/client/r0/rooms/:room_id/state/:event_type/", put, Handler::SendStateForEmptyKey);
        self.route("/_matrix/client/v3/rooms/:room_id/state/:event_type/", get, Handler::GetStateForEmptyKey);
        self.route("/_matrix/client/v3/rooms/:room_id/state/:event_type/", put, Handler::SendStateForEmptyKey);
        self.route("/_matrix/key/v2/server", get, Handler::ServerKeys);
        self.route("/_matrix/key/v2/server/:key_id", get, Handler::ServerKeysDeprecated);
        self.route("/_matrix/client/r0/rooms/:room_id/initialSync", get, Handler::InitialSync);
        self.route("/_matrix/client/v3/rooms/:room_id/initialSync", get, Handler::InitialSync);
        assert(final(self)@ =~= old(self)@ + irregular_routes());
    }
}

/// Builds the complete route table: every endpoint of `endpoints` in order, the `i`-th
/// dispatching to `Handler::Endpoint(i)`, followed by the irregular routes. Requests
/// that match none of them fall through to the catch-all (`not_found`).
pub fn routes(endpoints: &Vec<EndpointMetadata>) -> (r: RouteTable)
    requires
        all_routable(endpoints@.map_values(|e: EndpointMetadata| e@)),
    ensures
        r@ == endpoint_routes(endpoints@.map_values(|e: EndpointMetadata| e@), endpoints@.len())
            + irregular_routes(),
{
    let ghost es = endpoints@.map_values(|e: EndpointMetadata| e@);
    let mut table = RouteTable::new();
    let n = endpoints.len();
    let mut i: usize = 0;
    while i < n
        invariant
            n == endpoints@.len(),
            es == endpoints@.map_values(|e: EndpointMetadata| e@),
            all_routable(es),
            0 <= i <= n,
            table@ == endpoint_routes(es, i as nat),
        decreases n - i,
    {
        assert(es[i as int] == endpoints@[i as int]@);
        assert(is_routable(es[i as int].0));
        table.ruma_route(&endpoints[i], Handler::Endpoint(i));
        i = i + 1;
    }
    table.add_irregular_routes();
    table
}

/// Aliasing law: after an endpoint is registered, each of its path aliases is
/// routed with the endpoint's method to one and the same handler, so a request to
/// any alias with the same inputs reaches the same handler.
pub proof fn lemma_aliases_share_handler(table: RouteTable, after: RouteTable, meta: EndpointMetadata, h: Handler)
    requires
        after@ == table@ + alias_routes(meta@, h),
    ensures
        after@.len() == table@.len() + meta.path_aliases@.len(),
        forall|i: int|
            0 <= i < meta.path_aliases@.len() ==> {
                let r = #[trigger] after@[table@.len() + i];
                r.0 == filter_of(meta.method) && r.1 == meta.path_aliases@[i]@ && r.2 == h
            },
{
    assert forall|i: int| 0 <= i < meta.path_aliases@.len() implies {
        let r = #[trigger] after@[table@.len() + i];
        r.0 == filter_of(meta.method) && r.1 == meta.path_aliases@[i]@ && r.2 == h
    } by {
        assert(after@[table@.len() + i] == alias_routes(meta@, h)[i]);
    }
}

} // verus!

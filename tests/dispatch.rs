use conduit_serve::envelope::{initial_sync, not_found, unrecognized_method, ErrorKind};
use conduit_serve::method::{method_to_filter, HttpMethod, MethodFilter};
use conduit_serve::routes::{routes, EndpointMetadata, Handler, RouteTable};

fn endpoint(method: HttpMethod, paths: &[&str]) -> EndpointMetadata {
    EndpointMetadata {
        method,
        path_aliases: paths.iter().map(|p| p.to_string()).collect(),
    }
}

#[test]
fn method_filters_match_router_bits() {
    assert_eq!(method_to_filter(HttpMethod::Delete).bits, 0b000000010);
    assert_eq!(method_to_filter(HttpMethod::Get).bits, 0b000000100);
    assert_eq!(method_to_filter(HttpMethod::Head).bits, 0b000001000);
    assert_eq!(method_to_filter(HttpMethod::Options).bits, 0b000010000);
    assert_eq!(method_to_filter(HttpMethod::Patch).bits, 0b000100000);
    assert_eq!(method_to_filter(HttpMethod::Post).bits, 0b001000000);
    assert_eq!(method_to_filter(HttpMethod::Put).bits, 0b010000000);
    assert_eq!(method_to_filter(HttpMethod::Trace).bits, 0b100000000);
}

#[test]
fn filter_allows_only_its_method() {
    let f = method_to_filter(HttpMethod::Post);
    assert!(f.contains_method(HttpMethod::Post));
    assert!(!f.contains_method(HttpMethod::Get));
    assert!(!f.contains_method(HttpMethod::Connect));
    assert!(!MethodFilter { bits: 0xffff }.contains_method(HttpMethod::Extension));
}

#[test]
fn every_alias_reaches_the_same_handler() {
    let meta = endpoint(
        HttpMethod::Get,
        &["/_matrix/client/r0/account/whoami", "/_matrix/client/v3/account/whoami"],
    );
    let mut table = RouteTable::new();
    table.ruma_route(&meta, Handler::Endpoint(7));
    assert_eq!(table.routes.len(), 2);
    assert_eq!(table.routes[0].path, "/_matrix/client/r0/account/whoami");
    assert_eq!(table.routes[1].path, "/_matrix/client/v3/account/whoami");
    for r in &table.routes {
        assert_eq!(r.handler, Handler::Endpoint(7));
        assert_eq!(r.filter, method_to_filter(HttpMethod::Get));
    }
}

#[test]
fn route_table_lists_endpoints_then_irregular_routes() {
    let endpoints = vec![
        endpoint(HttpMethod::Get, &["/_matrix/client/versions"]),
        endpoint(
            HttpMethod::Post,
            &["/_matrix/client/r0/login", "/_matrix/client/v3/login"],
        ),
    ];
    let table = routes(&endpoints);
    assert_eq!(table.routes.len(), 3 + 12);
    assert_eq!(table.routes[0].handler, Handler::Endpoint(0));
    assert_eq!(table.routes[1].handler, Handler::Endpoint(1));
    assert_eq!(table.routes[2].handler, Handler::Endpoint(1));
    assert_eq!(table.routes[2].path, "/_matrix/client/v3/login");
    assert_eq!(table.routes[2].filter, method_to_filter(HttpMethod::Post));
    let last = &table.routes[14];
    assert_eq!(last.path, "/_matrix/client/v3/rooms/:room_id/initialSync");
    assert_eq!(last.handler, Handler::InitialSync);
    let keys = &table.routes[3 + 9];
    assert_eq!(keys.path, "/_matrix/key/v2/server/:key_id");
    assert_eq!(keys.handler, Handler::ServerKeysDeprecated);
    let put = &table.routes[3 + 7];
    assert_eq!(put.path, "/_matrix/client/v3/rooms/:room_id/state/:event_type/");
    assert_eq!(put.handler, Handler::SendStateForEmptyKey);
    assert_eq!(put.filter, method_to_filter(HttpMethod::Put));
}

#[test]
fn empty_endpoint_list_keeps_irregular_routes() {
    let table = routes(&Vec::new());
    assert_eq!(table.routes.len(), 12);
    assert_eq!(table.routes[8].path, "/_matrix/key/v2/server");
    assert_eq!(table.routes[8].handler, Handler::ServerKeys);
}

#[test]
fn method_mismatch_becomes_unrecognized() {
    let e = unrecognized_method(405).unwrap();
    assert_eq!(e.kind, ErrorKind::Unrecognized);
    assert_eq!(e.message, "M_UNRECOGNIZED: Unrecognized request");
    assert_eq!(e.http_status, 405);
    assert_eq!(e.kind.errcode(), "M_UNRECOGNIZED");
    assert!(unrecognized_method(200).is_none());
    assert!(unrecognized_method(404).is_none());
}

#[test]
fn unknown_path_gets_unrecognized_envelope() {
    let e = not_found();
    assert_eq!(e.kind, ErrorKind::Unrecognized);
    assert_eq!(e.message, "Unrecognized request");
    assert_eq!(e.http_status, 404);
}

#[test]
fn repeated_requests_give_identical_bodies() {
    let a = not_found();
    let b = not_found();
    assert_eq!(a.kind, b.kind);
    assert_eq!(a.message, b.message);
    assert_eq!(a.http_status, b.http_status);
    let c = initial_sync();
    let d = initial_sync();
    assert_eq!(c.message, d.message);
    assert_eq!(c.http_status, d.http_status);
}

#[test]
fn initial_sync_is_guest_access_forbidden() {
    let e = initial_sync();
    assert_eq!(e.kind, ErrorKind::GuestAccessForbidden);
    assert_eq!(e.kind.errcode(), "M_GUEST_ACCESS_FORBIDDEN");
    assert_eq!(e.message, "Guest access not implemented");
    assert_eq!(e.http_status, 403);
}

use rust_router::{route_key, Router};

#[test]
fn route_key_joins_method_and_path_with_a_space() {
    assert_eq!(route_key("GET", "/ping"), "GET /ping");
    assert_eq!(route_key("POST", "/api/v1/process"), "POST /api/v1/process");
}

#[test]
fn route_key_keeps_empty_parts() {
    assert_eq!(route_key("", ""), " ");
    assert_eq!(route_key("GET", ""), "GET ");
    assert_eq!(route_key("", "/"), " /");
}

#[test]
fn route_key_keeps_every_character() {
    assert_eq!(route_key("GÉT", "/caf\u{e9}/\u{1f600}"), "GÉT /caf\u{e9}/\u{1f600}");
    assert_eq!(route_key("GET", "/a//b/"), "GET /a//b/");
    assert_eq!(route_key("GET", "/a?b=c"), "GET /a?b=c");
}

#[test]
fn route_key_is_stable_across_calls() {
    assert_eq!(route_key("GET", "/a/b"), route_key("GET", "/a/b"));
}

#[test]
fn route_key_differs_for_different_pairs_without_spaces() {
    assert_ne!(route_key("GET", "/a"), route_key("POST", "/a"));
    assert_ne!(route_key("GET", "/a"), route_key("GET", "/b"));
    assert_ne!(route_key("GET", "/a"), route_key("GE", "T/a"));
}

#[test]
fn route_key_of_a_method_with_a_space_can_collide() {
    assert_eq!(route_key("GET /a", "b"), route_key("GET", "/a b"));
}

#[test]
fn new_router_has_no_routes() {
    let router: Router<u32> = Router::new();
    assert_eq!(router.lookup("GET", "/ping"), None);
    assert_eq!(router.lookup("", ""), None);
}

#[test]
fn lookup_after_register_returns_that_handler() {
    let mut router: Router<u32> = Router::new();
    router.add_route("GET", "/ping", 1);
    assert_eq!(router.lookup("GET", "/ping"), Some(&1));
}

#[test]
fn lookup_keeps_routes_apart() {
    let mut router: Router<&'static str> = Router::new();
    router.add_route("GET", "/ping", "ping");
    router.add_route("GET", "/api/v1/data", "data");
    router.add_route("POST", "/api/v1/process", "process");
    assert_eq!(router.lookup("GET", "/ping"), Some(&"ping"));
    assert_eq!(router.lookup("GET", "/api/v1/data"), Some(&"data"));
    assert_eq!(router.lookup("POST", "/api/v1/process"), Some(&"process"));
    assert_eq!(router.lookup("POST", "/ping"), None);
    assert_eq!(router.lookup("GET", "/api/v1/process"), None);
}

#[test]
fn registering_again_replaces_the_handler() {
    let mut router: Router<u32> = Router::new();
    router.add_route("GET", "/ping", 1);
    router.add_route("GET", "/other", 5);
    router.add_route("GET", "/ping", 2);
    assert_eq!(router.lookup("GET", "/ping"), Some(&2));
    assert_eq!(router.lookup("GET", "/other"), Some(&5));
    router.add_route("GET", "/ping", 3);
    assert_eq!(router.lookup("GET", "/ping"), Some(&3));
    assert_eq!(router.lookup("GET", "/other"), Some(&5));
}

#[test]
fn registering_after_a_replacement_keeps_every_route() {
    let mut router: Router<u32> = Router::new();
    router.add_route("GET", "/a", 1);
    router.add_route("GET", "/a", 2);
    router.add_route("GET", "/b", 3);
    router.add_route("GET", "/c", 4);
    router.add_route("GET", "/b", 5);
    assert_eq!(router.lookup("GET", "/a"), Some(&2));
    assert_eq!(router.lookup("GET", "/b"), Some(&5));
    assert_eq!(router.lookup("GET", "/c"), Some(&4));
}

#[test]
fn lookup_does_not_normalise_trailing_slashes() {
    let mut router: Router<u32> = Router::new();
    router.add_route("GET", "/ping", 1);
    assert_eq!(router.lookup("GET", "/ping/"), None);
    assert_eq!(router.lookup("GET", "/ping"), Some(&1));
}

#[test]
fn lookup_does_not_fold_case() {
    let mut router: Router<u32> = Router::new();
    router.add_route("GET", "/Ping", 1);
    assert_eq!(router.lookup("GET", "/ping"), None);
    assert_eq!(router.lookup("get", "/Ping"), None);
    assert_eq!(router.lookup("GET", "/Ping"), Some(&1));
}

#[test]
fn lookup_does_not_match_prefixes() {
    let mut router: Router<u32> = Router::new();
    router.add_route("GET", "/api", 1);
    assert_eq!(router.lookup("GET", "/api/v1"), None);
    assert_eq!(router.lookup("GET", "/ap"), None);
}

#[test]
fn malformed_strings_are_stored_as_given() {
    let mut router: Router<u32> = Router::new();
    router.add_route("", "", 1);
    router.add_route("G E T", "no-slash", 2);
    assert_eq!(router.lookup("", ""), Some(&1));
    assert_eq!(router.lookup("G E T", "no-slash"), Some(&2));
}

#[test]
fn pairs_that_share_a_key_share_a_route() {
    let mut router: Router<u32> = Router::new();
    router.add_route("GET", "/a b", 1);
    assert_eq!(router.lookup("GET /a", "b"), Some(&1));
}

#[test]
fn many_routes_each_find_their_own_handler() {
    let mut router: Router<usize> = Router::new();
    for i in 0..200 {
        router.add_route("GET", &format!("/route/{}", i), i);
    }
    for i in 0..200 {
        assert_eq!(router.lookup("GET", &format!("/route/{}", i)), Some(&i));
    }
    assert_eq!(router.lookup("GET", "/route/200"), None);
}

#[test]
fn router_can_be_shared_between_threads() {
    fn shared<T: Send + Sync>(_value: &T) {}
    let mut router: Router<fn() -> u32> = Router::new();
    router.add_route("GET", "/ping", || 1);
    shared(&router);
}

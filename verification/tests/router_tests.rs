use homepage::router::{app_routes, HandlerId, Pattern, Route, RouteTable};

#[test]
fn root_selects_counter_page() {
    let table = app_routes();
    assert_eq!(table.dispatch(""), Some(HandlerId::CounterPage));
}

#[test]
fn other_paths_select_not_found() {
    let table = app_routes();
    assert_eq!(table.dispatch("/anything/else"), Some(HandlerId::NotFoundPage));
    assert_eq!(table.dispatch("x"), Some(HandlerId::NotFoundPage));
    assert_eq!(table.dispatch("/"), Some(HandlerId::NotFoundPage));
    assert_eq!(table.dispatch("about"), Some(HandlerId::NotFoundPage));
}

#[test]
fn empty_table_matches_nothing() {
    let table = RouteTable { routes: Vec::new() };
    assert_eq!(table.dispatch(""), None);
    assert_eq!(table.dispatch("a"), None);
}

#[test]
fn declaration_order_decides_precedence() {
    // With the wildcard declared first, it shadows the literal root route.
    let table = RouteTable {
        routes: vec![
            Route { pattern: Pattern::Wildcard, handler: HandlerId::NotFoundPage },
            Route { pattern: Pattern::Literal(String::new()), handler: HandlerId::CounterPage },
        ],
    };
    assert_eq!(table.dispatch(""), Some(HandlerId::NotFoundPage));
}

#[test]
fn literal_matches_exactly_one_path() {
    let table = RouteTable {
        routes: vec![
            Route { pattern: Pattern::Literal("about".to_owned()), handler: HandlerId::CounterPage },
        ],
    };
    assert_eq!(table.dispatch("about"), Some(HandlerId::CounterPage));
    assert_eq!(table.dispatch("abou"), None);
    assert_eq!(table.dispatch("about/"), None);
    assert_eq!(table.dispatch(""), None);
}

#[test]
fn wildcard_matches_every_path() {
    assert!(Pattern::Wildcard.matches_path(""));
    assert!(Pattern::Wildcard.matches_path("/deep/nested/path"));
    assert!(Pattern::Wildcard.matches_path("ようこそ"));
}

use harrow::route::{App, Method, RouteMetadata};

#[test]
fn app_registers_routes_in_order() {
    let app: App<u32, &str> = App::new().get("/a", 1).post("/b", 2).delete("/c/:id", 3);
    let table = app.route_table();
    assert_eq!(table.len(), 3);
    assert_eq!(table.get(0).unwrap().method, Method::Get);
    assert_eq!(table.get(1).unwrap().pattern, "/b");
    assert_eq!(table.get(2).unwrap().handler, 3);
    assert!(table.get(3).is_none());
    assert_eq!(Method::Patch.as_str(), "PATCH");
}

#[test]
fn metadata_edits_the_last_matching_route() {
    let app: App<u32, ()> = App::new()
        .get("/users", 1)
        .post("/users", 2)
        .with_metadata("/users", |mut m: RouteMetadata| {
            m.name = Some("createUser".to_string());
            m
        });
    let table = app.route_table();
    assert!(table.get(0).unwrap().metadata.name.is_none());
    assert_eq!(table.get(1).unwrap().metadata.name.as_deref(), Some("createUser"));
}

#[test]
fn groups_prefix_patterns_and_scope_middleware() {
    let app: App<u32, &str> = App::new().middleware("global").group("/api/", |g| {
        g.middleware("auth")
            .get("/users", 1)
            .group("/v1/", |inner| inner.middleware("rate").get("/ping", 2))
    });
    let (table, global) = app.into_parts();
    assert_eq!(global, vec!["global"]);
    let routes = table.as_slice();
    assert_eq!(routes.len(), 2);
    assert_eq!(routes[0].pattern, "/api/users");
    assert_eq!(routes[0].middleware, vec!["auth"]);
    // Outer group first, each group's middleware once.
    assert_eq!(routes[1].pattern, "/api/v1/ping");
    assert_eq!(routes[1].middleware, vec!["auth", "rate"]);
}

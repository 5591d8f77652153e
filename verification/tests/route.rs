use simple_server::route::{root, router, Method, Route, Router, Response};

const METHODS: [Method; 9] = [
    Method::Get,
    Method::Head,
    Method::Post,
    Method::Put,
    Method::Delete,
    Method::Connect,
    Method::Options,
    Method::Trace,
    Method::Patch,
];

fn text(status: u16, body: &str) -> Response {
    Response {
        status,
        content_type: "text/plain; charset=utf-8".to_string(),
        body: body.to_string(),
    }
}

#[test]
fn root_returns_hello_world() {
    assert_eq!(root(), "Hello, World!");
}

#[test]
fn router_has_exactly_one_route() {
    let table = router();
    assert_eq!(
        table.routes,
        vec![Route {
            method: Method::Get,
            path: "/".to_string(),
            response: text(200, "Hello, World!"),
        }]
    );
}

#[test]
fn get_root_is_200_hello_world() {
    assert_eq!(router().respond(Method::Get, "/"), Some(text(200, "Hello, World!")));
}

#[test]
fn get_root_is_plain_text() {
    let answer = router().respond(Method::Get, "/").expect("GET / is served");
    assert_eq!(answer.status, 200);
    assert_eq!(answer.content_type, "text/plain; charset=utf-8");
    assert_eq!(answer.body, "Hello, World!");
}

#[test]
fn content_type_is_that_of_the_route() {
    let page = Response {
        status: 200,
        content_type: "text/html".to_string(),
        body: "<p>hi</p>".to_string(),
    };
    let table = Router {
        routes: vec![Route { method: Method::Get, path: "/page".to_string(), response: page }],
    };
    let answer = table.respond(Method::Get, "/page").expect("the page is served");
    assert_eq!(answer.content_type, "text/html");
}

#[test]
fn get_root_is_the_same_every_time() {
    let table = router();
    let first = table.respond(Method::Get, "/");
    let second = table.respond(Method::Get, "/");
    assert_eq!(first, second);
    assert_eq!(first, Some(text(200, "Hello, World!")));
}

#[test]
fn only_get_is_served_on_root() {
    let table = router();
    for method in METHODS {
        let answer = table.respond(method, "/");
        if method == Method::Get {
            assert!(answer.is_some());
        } else {
            assert_eq!(answer, None);
        }
    }
}

#[test]
fn other_paths_are_not_served() {
    let table = router();
    for path in ["", "//", "/index.html", "/hello", " /", "/ ", "/?x=1", "*"] {
        assert_eq!(table.respond(Method::Get, path), None);
    }
}

#[test]
fn empty_table_serves_nothing() {
    let table = Router { routes: Vec::new() };
    assert_eq!(table.respond(Method::Get, "/"), None);
}

#[test]
fn first_matching_route_wins() {
    let table = Router {
        routes: vec![
            Route { method: Method::Post, path: "/".to_string(), response: text(201, "made") },
            Route { method: Method::Get, path: "/a".to_string(), response: text(200, "a") },
            Route { method: Method::Get, path: "/".to_string(), response: text(200, "first") },
            Route { method: Method::Get, path: "/".to_string(), response: text(500, "second") },
        ],
    };
    assert_eq!(table.respond(Method::Get, "/"), Some(text(200, "first")));
    assert_eq!(table.respond(Method::Post, "/"), Some(text(201, "made")));
    assert_eq!(table.respond(Method::Get, "/a"), Some(text(200, "a")));
    assert_eq!(table.respond(Method::Post, "/a"), None);
    assert_eq!(table.respond(Method::Get, "/b"), None);
}

#[test]
fn last_route_is_found() {
    let table = Router {
        routes: vec![
            Route { method: Method::Get, path: "/a".to_string(), response: text(200, "a") },
            Route { method: Method::Get, path: "/b".to_string(), response: text(200, "b") },
            Route { method: Method::Get, path: "/c".to_string(), response: text(204, "") },
        ],
    };
    assert_eq!(table.respond(Method::Get, "/c"), Some(text(204, "")));
}

#[test]
fn non_ascii_paths_match_exactly() {
    let table = Router {
        routes: vec![Route {
            method: Method::Get,
            path: "/grüße".to_string(),
            response: text(200, "Grüß Gott"),
        }],
    };
    assert_eq!(table.respond(Method::Get, "/grüße"), Some(text(200, "Grüß Gott")));
    assert_eq!(table.respond(Method::Get, "/grusse"), None);
}

#[test]
fn response_clone_is_equal() {
    let response = text(200, "Hello, World!");
    assert_eq!(response.clone(), response);
}

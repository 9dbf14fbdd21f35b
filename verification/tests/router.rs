use todo::logging::DEFAULT_DIRECTIVES;
use todo::{create_router, init_tracing, Handler, Method, Route};

#[test]
fn directives_default() {
    assert_eq!(init_tracing(None), "sqlx=info,tower_http=debug,info");
    assert_eq!(DEFAULT_DIRECTIVES, "sqlx=info,tower_http=debug,info");
}

#[test]
fn directives_given() {
    assert_eq!(init_tracing(Some("debug".to_string())), "debug");
    assert_eq!(init_tracing(Some(String::new())), "");
}

#[test]
fn router_binds_the_seven_routes() {
    let expected = vec![
        Route { method: Method::Get, path: "/alive", handler: Handler::Alive },
        Route { method: Method::Get, path: "/ready", handler: Handler::Ping },
        Route { method: Method::Get, path: "/todos", handler: Handler::TodoList },
        Route { method: Method::Post, path: "/todos", handler: Handler::TodoCreate },
        Route { method: Method::Get, path: "/todos/:id", handler: Handler::TodoRead },
        Route { method: Method::Put, path: "/todos/:id", handler: Handler::TodoUpdate },
        Route { method: Method::Delete, path: "/todos/:id", handler: Handler::TodoDelete },
    ];
    assert_eq!(create_router(), expected);
}

#[test]
fn router_binds_nothing_twice() {
    let table = create_router();
    for i in 0..table.len() {
        for j in (i + 1)..table.len() {
            assert!(table[i].method != table[j].method || table[i].path != table[j].path);
            assert_ne!(table[i].handler, table[j].handler);
        }
    }
}

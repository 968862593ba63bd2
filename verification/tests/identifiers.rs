use user_store::doc_id::DocId;
use user_store::hello;
use user_store::models::users_from_rows;
use user_store::routes::HttpMethod;
use user_store::routes::user_mongo_routes;
use user_store::routes::user_routes;

#[test]
fn parse_accepts_exactly_24_hex_digits() {
    assert!(DocId::parse("0123456789abcdef01234567").is_some());
    assert!(DocId::parse("ABCDEF0123456789abcdef01").is_some());
    assert!(DocId::parse("").is_none());
    assert!(DocId::parse("0123456789abcdef0123456").is_none());
    assert!(DocId::parse("0123456789abcdef012345678").is_none());
    assert!(DocId::parse("0123456789abcdef0123456g").is_none());
    assert!(DocId::parse("0123456789abcdef 1234567").is_none());
}

#[test]
fn parse_preserves_the_string() {
    let d = DocId::parse("00ffAA11bb22cc33dd44ee55").unwrap();
    assert_eq!(d.as_str(), "00ffAA11bb22cc33dd44ee55");
    assert!(d.matches_str("00ffAA11bb22cc33dd44ee55"));
    assert!(!d.matches_str("00ffAA11bb22cc33dd44ee56"));
}

#[test]
fn generated_id_is_24_hex_digits_and_parses_back() {
    let d = DocId::generate();
    let s = d.as_str();
    assert_eq!(s.len(), 24);
    assert!(s.chars().all(|c| c.is_ascii_hexdigit()));
    let reparsed = DocId::parse(s).unwrap();
    assert_eq!(reparsed.as_str(), s);
}

#[test]
fn generated_ids_differ() {
    let a = DocId::generate();
    let b = DocId::generate();
    assert_ne!(a.as_str(), b.as_str());
}

#[test]
fn rows_become_users_in_order() {
    let rows = vec![
        (1, "Ada".to_string(), "ada@example.com".to_string()),
        (2, "Grace".to_string(), "grace@example.com".to_string()),
    ];
    let users = users_from_rows(rows);
    assert_eq!(users.len(), 2);
    assert_eq!(users[0].id, Some(1));
    assert_eq!(users[0].name, "Ada");
    assert_eq!(users[0].email, "ada@example.com");
    assert_eq!(users[1].id, Some(2));
    assert_eq!(users[1].name, "Grace");
}

#[test]
fn greeting_text() {
    assert_eq!(hello(), "Hello, Rocket!");
}

#[test]
fn relational_route_table() {
    let routes = user_routes();
    assert_eq!(routes.len(), 4);
    assert!(matches!(routes[0].method, HttpMethod::Post));
    assert_eq!(routes[0].path, "/users");
    assert!(matches!(routes[1].method, HttpMethod::Get));
    assert_eq!(routes[1].path, "/users");
    assert!(matches!(routes[2].method, HttpMethod::Put));
    assert_eq!(routes[2].path, "/users/<id>");
    assert!(matches!(routes[3].method, HttpMethod::Delete));
    assert_eq!(routes[3].path, "/users/<id>");
}

#[test]
fn document_route_table() {
    let routes = user_mongo_routes();
    assert_eq!(routes.len(), 4);
    assert!(matches!(routes[0].method, HttpMethod::Post));
    assert_eq!(routes[0].path, "/v2/users");
    assert!(matches!(routes[3].method, HttpMethod::Delete));
    assert_eq!(routes[3].path, "/v2/users/<id>");
}

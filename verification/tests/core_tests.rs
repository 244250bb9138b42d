use phm::app::{Closed, combine_route};
use phm::router::Node;
use phm::str_map::{KeyMap, StrMap};
use phm::text::{
    chars_of, decimal_string, find_first, find_last, parse_usize, split_chars, split_once_chars,
    string_of, strip_char,
};
use phm::web::http_request::Parsers;
use phm::{HttpMethod, RouterError};

#[test]
fn str_map_get_after_insert() {
    let mut m = StrMap::new();
    assert_eq!(m.len(), 0);
    assert_eq!(m.insert("a".to_string(), "1".to_string()), None);
    assert_eq!(m.insert("b".to_string(), "2".to_string()), None);
    assert_eq!(m.insert("a".to_string(), "3".to_string()), Some("1".to_string()));
    assert_eq!(m.len(), 2);
    assert_eq!(m.get("a").map(|s| s.as_str()), Some("3"));
    assert_eq!(m.get("b").map(|s| s.as_str()), Some("2"));
    assert_eq!(m.get("c"), None);
    assert_eq!(m.entries()[0].0, "a");
}

#[test]
fn key_map_get_after_insert() {
    let mut m: KeyMap<u8> = KeyMap::new();
    assert_eq!(m.insert("k".to_string(), 1), None);
    assert_eq!(m.insert("k".to_string(), 2), Some(1));
    assert_eq!(m.get("k"), Some(&2));
    assert_eq!(m.get("j"), None);
}

#[test]
fn module_routes_join_with_one_slash() {
    assert_eq!(combine_route("/api", "/user"), "/api/user");
    assert_eq!(combine_route("/api", "user"), "/api/user");
    assert_eq!(combine_route("/api/", "/user"), "/api/user");
    assert_eq!(combine_route("/api/", "user"), "/api/user");
    assert_eq!(combine_route("", "user"), "/user");
}

#[test]
fn closed_app_parser_choice() {
    let mut c = Closed::new();
    assert_eq!(c.parser(), Parsers::HttpV1);
    c.set_parser(Parsers::HttpV1);
    assert_eq!(c.parser(), Parsers::HttpV1);
    assert_eq!(Closed::with_parser(Parsers::HttpV1).parser(), Parsers::HttpV1);
    assert_eq!(Parsers::default(), Parsers::HttpV1);
}

#[test]
fn node_children_by_segment_and_method() {
    let mut head: Node<u32, u32> = Node::new_head();
    assert_eq!(head.route(), "/");
    assert!(!head.is_variable());
    assert!(head.request_fn().is_none());

    head.add_child(HttpMethod::GET, "users", vec![1], Some(9)).unwrap();
    head.add_empty_child(HttpMethod::GET, ":id").unwrap();
    assert!(matches!(head.add_empty_child(HttpMethod::GET, ""), Err(RouterError::BadName)));
    assert!(matches!(
        head.add_child(HttpMethod::GET, "users", vec![], Some(10)),
        Err(RouterError::AlreadyExist)
    ));

    let users = head.get_child("users", &HttpMethod::GET).unwrap();
    assert_eq!(users.request_fn(), Some(&9));
    assert_eq!(users.middleware(), &vec![1]);

    let var = head.get_child("someone", &HttpMethod::GET).unwrap();
    assert!(var.is_variable());
    assert_eq!(var.route(), ":id");
    assert!(head.get_child("users", &HttpMethod::POST).is_none());

    head.set_request_fn(Some(3));
    head.middleware_mut().push(4);
    assert_eq!(head.request_fn(), Some(&3));
    assert_eq!(head.middleware(), &vec![4]);
}

#[test]
fn text_helpers() {
    assert_eq!(string_of(&chars_of("héllo")), "héllo");
    assert_eq!(phm::text::concat("ab", "cd"), "abcd");
    assert_eq!(decimal_string(0), "0");
    assert_eq!(decimal_string(1234567890), "1234567890");
    assert_eq!(parse_usize(&chars_of("42")), Some(42));
    assert_eq!(parse_usize(&chars_of("+7")), Some(7));
    assert_eq!(parse_usize(&chars_of("")), None);
    assert_eq!(parse_usize(&chars_of("+")), None);
    assert_eq!(parse_usize(&chars_of("-1")), None);
    assert_eq!(parse_usize(&chars_of("99999999999999999999999")), None);
    let parts = split_chars(&chars_of("/a//b"), '/');
    let parts: Vec<String> = parts.iter().map(|p| string_of(p)).collect();
    assert_eq!(parts, vec!["", "a", "", "b"]);
    assert_eq!(find_first(&chars_of("a?b?c"), '?'), Some(1));
    assert_eq!(find_last(&chars_of("a?b?c"), '?'), Some(3));
    assert_eq!(find_last(&chars_of("abc"), '?'), None);
    let (a, b) = split_once_chars(&chars_of("k: v: w"), ':').unwrap();
    assert_eq!(string_of(&a), "k");
    assert_eq!(string_of(&b), " v: w");
    assert_eq!(string_of(&strip_char(&chars_of("\"a.txt\""), '"')), "a.txt");
}

use phm::postman::{ApiSchema, Info, Item, Request, Url, Variable, base_url};

fn request(path: &str, method: &str) -> Request {
    Request::new("r".to_string(), path.to_string(), method.to_string(), None)
}

#[test]
fn url_joins_base_and_route() {
    let url = Url::new("{{base_url}}".to_string(), "api/user".to_string());
    let other = Url::new("{{base_url}}".to_string(), "/api/user".to_string());
    let req = Request::new("n".to_string(), "/api/ user /".to_string(), "GET".to_string(), None);
    assert_eq!(url.raw(), "{{base_url}}/api/user");
    assert_eq!(url.host(), &vec!["{{base_url}}".to_string()]);
    assert_eq!(url.path(), &vec!["api".to_string(), "user".to_string()]);
    assert_eq!(other.raw(), "{{base_url}}/api/user");
    assert_eq!(other.path(), &vec!["api".to_string(), "user".to_string()]);
    assert_eq!(req.url.raw(), "{{base_url}}/api/ user /");
    assert_eq!(req.url.path(), &vec!["api".to_string(), "user".to_string()]);
    assert!(!url.is_empty());
    assert!(!other.is_empty());
    assert!(!req.url.is_empty());
    assert!(Url::empty().is_empty());
    assert!(Url::default().is_empty());
}

#[test]
fn request_takes_description_or_nothing() {
    let r = Request::new(
        "n".to_string(),
        "/a".to_string(),
        "POST".to_string(),
        Some("makes a user".to_string()),
    );
    assert_eq!(r.method, "POST");
    assert_eq!(r.description, "makes a user");
    assert!(!r.is_default());
    let r = request("/a", "GET");
    assert_eq!(r.description, "");
    assert!(Request::default().is_default());
    assert!(Request::folder_request().is_default());
    assert_eq!(base_url(), "{{base_url}}");
}

#[test]
fn items_and_folders() {
    let it = Item::create("get_user".to_string(), request("/api/user", "GET"));
    assert_eq!(it.name, "get_user");
    assert!(!it.is_folder());
    assert!(it.item.is_empty());
    let f = Item::folder("users".to_string());
    assert!(f.is_folder());
    assert_eq!(f.name, "users");
}

#[test]
fn info_holds_name_and_schema() {
    let info = Info::new("My API".to_string());
    assert_eq!(info.name, "My API");
    assert_eq!(
        info.schema(),
        "https://schema.getpostman.com/json/collection/v2.1.0/collection.json"
    );
    let info = Info::with_schema("A".to_string(), "s".to_string());
    assert_eq!(info.schema(), "s");
}

#[test]
fn adding_an_item_replaces_same_name_and_method() {
    let mut schema = ApiSchema::new("My API".to_string());
    assert_eq!(schema.info().name, "My API");
    schema.add_item(Item::create("get_user".to_string(), request("/a", "GET")));
    schema.add_item(Item::create("post_user".to_string(), request("/a", "POST")));
    schema.add_item(Item::create("GET_USER".to_string(), request("/b", "get")));
    let names: Vec<&str> = schema.item_list().iter().map(|i| i.name.as_str()).collect();
    assert_eq!(names, vec!["post_user", "GET_USER"]);

    schema.add_item(Item::create("get_user".to_string(), request("/c", "POST")));
    assert_eq!(schema.item_list().len(), 3);
}

#[test]
fn variables_and_info_are_kept() {
    let mut schema = ApiSchema::new("My API".to_string());
    schema.add_variable("base_url".to_string(), "http://localhost".to_string());
    let vars: &Vec<Variable> = schema.variable_list();
    assert_eq!(vars.len(), 1);
    assert_eq!(vars[0].key, "base_url");
    assert_eq!(vars[0].value, "http://localhost");
    schema.set_info(Info::new("Other".to_string()));
    assert_eq!(schema.info().name, "Other");
    assert_eq!(schema.variable_list().len(), 1);
}

#[test]
fn documented_routes_are_filed_in_their_module() {
    let mut schema = ApiSchema::new("My API".to_string());
    schema.document(Item::create("root".to_string(), request("/", "GET")), String::new());
    schema.document(Item::create("get_user".to_string(), request("/u", "GET")), "users".to_string());
    schema.document(Item::create("post_user".to_string(), request("/u", "POST")), "users".to_string());

    let items = schema.item_list();
    assert_eq!(items.len(), 2);
    assert_eq!(items[0].name, "root");
    assert_eq!(items[1].name, "users");
    assert!(items[1].is_folder());
    let inner: Vec<&str> = items[1].item.iter().map(|i| i.name.as_str()).collect();
    assert_eq!(inner, vec!["get_user", "post_user"]);

    let taken = schema.take_module("users").expect("the folder is there");
    assert_eq!(taken.item.len(), 2);
    assert_eq!(schema.item_list().len(), 1);
    assert!(schema.take_module("users").is_none());
}

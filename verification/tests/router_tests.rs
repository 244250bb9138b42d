use phm::str_map::StrMap;
use phm::{HttpMethod, Router, RouterError};

type Handler = fn() -> Result<(), String>;

fn ok_handler() -> Result<(), String> {
    Ok(())
}

fn dummy_handler() -> Handler {
    ok_handler
}

fn new_router() -> Router<Handler, Handler> {
    Router::new()
}

#[test]
fn routes_sharing_prefix_both_resolve() {
    let mut router = new_router();

    router
        .add_route("/api/user", HttpMethod::POST, vec![], dummy_handler())
        .expect("first route should add");

    router
        .add_route("/api/user-signin", HttpMethod::POST, vec![], dummy_handler())
        .expect("second route should add");

    let mut vars = StrMap::new();

    let user_node = router
        .get_route("/api/user", &HttpMethod::POST, &mut vars)
        .expect("/api/user should resolve");
    assert!(user_node.request_fn().is_some());

    let signin_node = router
        .get_route("/api/user-signin", &HttpMethod::POST, &mut vars)
        .expect("/api/user-signin should resolve");
    assert!(signin_node.request_fn().is_some());
}

#[test]
fn different_methods_on_same_path_coexist() {
    let mut router = new_router();

    router
        .add_route("/api/user/:user_id", HttpMethod::GET, vec![], dummy_handler())
        .expect("GET should add");

    router
        .add_route("/api/user/:user_id", HttpMethod::PATCH, vec![], dummy_handler())
        .expect("PATCH should add");

    router
        .add_route("/api/user", HttpMethod::POST, vec![], dummy_handler())
        .expect("POST /api/user should add");

    let mut vars = StrMap::new();

    let get_node = router
        .get_route("/api/user/abc", &HttpMethod::GET, &mut vars)
        .expect("GET should resolve");
    assert!(get_node.request_fn().is_some());

    let patch_node = router
        .get_route("/api/user/abc", &HttpMethod::PATCH, &mut vars)
        .expect("PATCH should resolve");
    assert!(patch_node.request_fn().is_some());

    let post_node = router
        .get_route("/api/user", &HttpMethod::POST, &mut vars)
        .expect("POST should resolve");
    assert!(post_node.request_fn().is_some());
}

#[test]
fn duplicate_route_returns_already_exist() {
    let mut router = new_router();

    router
        .add_route("/api/user", HttpMethod::POST, vec![], dummy_handler())
        .expect("first should succeed");

    let dup = router.add_route("/api/user", HttpMethod::POST, vec![], dummy_handler());
    assert!(matches!(dup, Err(RouterError::AlreadyExist)));
}

#[test]
fn variable_segment_is_captured_without_colon() {
    let mut router: Router<u32, u32> = Router::new();
    router.add_route("/api/user/:user_id", HttpMethod::GET, vec![], 7).unwrap();

    let mut vars = StrMap::new();
    let node = router.get_route("/api/user/abc", &HttpMethod::GET, &mut vars).unwrap();
    assert_eq!(node.request_fn(), Some(&7));
    assert_eq!(vars.get("user_id").map(|s| s.as_str()), Some("abc"));
    assert_eq!(vars.get(":user_id"), None);
    assert_eq!(vars.len(), 1);
}

#[test]
fn exact_segment_wins_over_variable() {
    let mut router: Router<u32, u32> = Router::new();
    router.add_route("/api/user/:user_id", HttpMethod::GET, vec![], 1).unwrap();
    router.add_route("/api/user/me", HttpMethod::GET, vec![], 2).unwrap();

    let mut vars = StrMap::new();
    let node = router.get_route("/api/user/me", &HttpMethod::GET, &mut vars).unwrap();
    assert_eq!(node.request_fn(), Some(&2));
    assert_eq!(vars.len(), 0);

    let node = router.get_route("/api/user/you", &HttpMethod::GET, &mut vars).unwrap();
    assert_eq!(node.request_fn(), Some(&1));
    assert_eq!(vars.get("user_id").map(|s| s.as_str()), Some("you"));
}

#[test]
fn unknown_route_is_not_found_until_404_is_set() {
    let mut router: Router<u32, u32> = Router::new();
    router.add_route("/api/user", HttpMethod::GET, vec![], 1).unwrap();

    let mut vars = StrMap::new();
    let missing = router.get_route("/nothing", &HttpMethod::GET, &mut vars);
    assert!(matches!(missing, Err(RouterError::NotFound)));

    let wrong_method = router.get_route("/api/user", &HttpMethod::POST, &mut vars);
    assert!(matches!(wrong_method, Err(RouterError::NotFound)));

    router.set_404(404);
    let fallback = router.get_route("/nothing", &HttpMethod::GET, &mut vars).unwrap();
    assert_eq!(fallback.request_fn(), Some(&404));
}

#[test]
fn root_route_is_kept_per_method() {
    let mut router: Router<u32, u32> = Router::new();
    router.add_route("/", HttpMethod::GET, vec![5, 6], 1).unwrap();
    router.add_route("/", HttpMethod::POST, vec![], 2).unwrap();
    assert!(matches!(
        router.add_route("/", HttpMethod::GET, vec![], 3),
        Err(RouterError::AlreadyExist)
    ));

    let mut vars = StrMap::new();
    let get = router.get_route("/", &HttpMethod::GET, &mut vars).unwrap();
    assert_eq!(get.request_fn(), Some(&1));
    assert_eq!(get.middleware(), &vec![5, 6]);
    let post = router.get_route("/", &HttpMethod::POST, &mut vars).unwrap();
    assert_eq!(post.request_fn(), Some(&2));
    assert!(matches!(
        router.get_route("/", &HttpMethod::PUT, &mut vars),
        Err(RouterError::NotFound)
    ));
}

#[test]
fn middleware_is_attached_to_the_route() {
    let mut router: Router<u32, u32> = Router::new();
    router.add_route("/a/b", HttpMethod::GET, vec![10, 20], 1).unwrap();

    let mut vars = StrMap::new();
    let node = router.get_route("/a/b", &HttpMethod::GET, &mut vars).unwrap();
    assert_eq!(node.middleware(), &vec![10, 20]);
    assert_eq!(node.route(), "b");

    let intermediate = router.get_route("/a", &HttpMethod::GET, &mut vars).unwrap();
    assert!(intermediate.request_fn().is_none());
}

#[test]
fn trailing_and_doubled_slashes_reach_the_same_route() {
    let mut router: Router<u32, u32> = Router::new();
    router.add_route("/a/b", HttpMethod::GET, vec![], 1).unwrap();

    let mut vars = StrMap::new();
    let node = router.get_route("/a//b/", &HttpMethod::GET, &mut vars).unwrap();
    assert_eq!(node.request_fn(), Some(&1));
}

#[test]
fn empty_segments_are_skipped_when_registering() {
    let mut router: Router<u32, u32> = Router::new();
    router.add_route("/a//b", HttpMethod::GET, vec![], 1).unwrap();

    let mut vars = StrMap::new();
    let node = router.get_route("/a//b", &HttpMethod::GET, &mut vars).unwrap();
    assert_eq!(node.request_fn(), Some(&1));
    let node = router.get_route("/a/b", &HttpMethod::GET, &mut vars).unwrap();
    assert_eq!(node.request_fn(), Some(&1));
    let prefix = router.get_route("/a", &HttpMethod::GET, &mut vars).unwrap();
    assert!(prefix.request_fn().is_none());
    assert!(matches!(
        router.add_route("/a/b/", HttpMethod::GET, vec![], 2),
        Err(RouterError::AlreadyExist)
    ));
}

#[test]
fn earlier_routes_survive_later_additions() {
    let mut router: Router<u32, u32> = Router::new();
    router.add_route("/a/b", HttpMethod::GET, vec![], 1).unwrap();
    router.add_route("/a", HttpMethod::GET, vec![], 2).unwrap();
    router.add_route("/a/b/c", HttpMethod::GET, vec![], 3).unwrap();
    assert!(router.add_route("/a/b", HttpMethod::GET, vec![], 4).is_err());

    let mut vars = StrMap::new();
    assert_eq!(router.get_route("/a/b", &HttpMethod::GET, &mut vars).unwrap().request_fn(), Some(&1));
    assert_eq!(router.get_route("/a", &HttpMethod::GET, &mut vars).unwrap().request_fn(), Some(&2));
    assert_eq!(router.get_route("/a/b/c", &HttpMethod::GET, &mut vars).unwrap().request_fn(), Some(&3));
}

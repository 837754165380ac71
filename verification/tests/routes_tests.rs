use qrshare::registry::{FileKind, PathCandidate, Registry};
use qrshare::routes::{content_disposition, route, Enqueue, Method, RouteOutcome};
use qrshare::strutil::basename;
use qrshare::utils::{query_split, query_split_opt};

fn sample_registry() -> (Registry, String) {
    let cands = vec![PathCandidate {
        supplied: "file.txt".to_string(),
        canonical: Some("/srv/data/file.txt".to_string()),
    }];
    let mut reg = Registry::new(&cands, false).unwrap();
    let bytes = b"served contents".to_vec();
    let path = "/srv/data/file.txt".to_string();
    reg.record_file(&path, FileKind::File, Some(&bytes));
    let digest = reg.query_digest("/srv/data/file.txt").unwrap();
    (reg, digest)
}

#[test]
fn known_digest_is_served_with_filename() {
    let (reg, digest) = sample_registry();
    let query = format!("h={}", digest);
    match route(Method::Get, "/sha512/", Some(&query), &reg, false) {
        RouteOutcome::Download { path, filename } => {
            assert_eq!(path, "/srv/data/file.txt");
            assert_eq!(filename, "file.txt");
        }
        _ => panic!("expected a download"),
    }
    // without the trailing slash as well
    assert!(matches!(
        route(Method::Get, "/sha512", Some(&query), &reg, false),
        RouteOutcome::Download { .. }
    ));
}

#[test]
fn unknown_digest_is_not_found() {
    let (reg, _) = sample_registry();
    let out = route(Method::Get, "/sha512/", Some("h=deadbeef"), &reg, false);
    assert!(matches!(out, RouteOutcome::NotFound));
}

#[test]
fn missing_digest_parameter_is_unprocessable() {
    let (reg, _) = sample_registry();
    assert!(matches!(
        route(Method::Get, "/sha512/", None, &reg, false),
        RouteOutcome::Unprocessable
    ));
    assert!(matches!(
        route(Method::Get, "/sha512/", Some("x=1"), &reg, false),
        RouteOutcome::Unprocessable
    ));
}

#[test]
fn unrouted_requests_are_method_not_allowed() {
    let (reg, digest) = sample_registry();
    let query = format!("h={}", digest);
    assert!(matches!(
        route(Method::Get, "/elsewhere", Some(&query), &reg, false),
        RouteOutcome::MethodNotAllowed
    ));
    assert!(matches!(
        route(Method::Post, "/sha512/", Some(&query), &reg, false),
        RouteOutcome::MethodNotAllowed
    ));
    assert!(matches!(
        route(Method::Other, "/sha512/", Some(&query), &reg, false),
        RouteOutcome::MethodNotAllowed
    ));
}

#[test]
fn qr_route_mirrors_download_route() {
    let (reg, digest) = sample_registry();
    let query = format!("h={}", digest);
    match route(Method::Get, "/qr/sha512/", Some(&query), &reg, false) {
        RouteOutcome::QrPage { digest: d } => assert_eq!(d, digest),
        _ => panic!("expected the QR page"),
    }
    assert!(matches!(
        route(Method::Get, "/qr/sha512/", Some("h=deadbeef"), &reg, false),
        RouteOutcome::NotFound
    ));
    assert!(matches!(
        route(Method::Get, "/qr/sha512/", None, &reg, false),
        RouteOutcome::Unprocessable
    ));
}

#[test]
fn listing_favicon_and_enqueue_routes() {
    let (reg, _) = sample_registry();
    assert!(matches!(
        route(Method::Get, "/list.html", None, &reg, false),
        RouteOutcome::ListPage
    ));
    assert!(matches!(
        route(Method::Get, "/favicon.ico", None, &reg, false),
        RouteOutcome::Favicon
    ));
    assert!(matches!(
        route(Method::Post, "/serve", None, &reg, false),
        RouteOutcome::Forbidden
    ));
    assert!(matches!(
        route(Method::Post, "/serve", None, &reg, true),
        RouteOutcome::Enqueue
    ));
}

#[test]
fn query_splitting() {
    let pairs = query_split("a=b&c=d");
    assert_eq!(pairs.len(), 2);
    assert_eq!(pairs[0], ("a".to_string(), "b".to_string()));
    assert_eq!(pairs[1], ("c".to_string(), "d".to_string()));

    assert!(query_split("").is_empty());
    assert!(query_split("noequals").is_empty());
    assert_eq!(query_split("a="), vec![("a".to_string(), "".to_string())]);
    assert_eq!(query_split("=b"), vec![("".to_string(), "b".to_string())]);
    assert_eq!(
        query_split("k=v=w"),
        vec![("k".to_string(), "v=w".to_string())]
    );

    assert!(query_split_opt(None).is_empty());
    assert_eq!(query_split_opt(Some("h=x")).len(), 1);
}

#[test]
fn first_h_parameter_wins() {
    let (reg, digest) = sample_registry();
    let query = format!("h={}&h=deadbeef", digest);
    assert!(matches!(
        route(Method::Get, "/sha512/", Some(&query), &reg, false),
        RouteOutcome::Download { .. }
    ));
}

#[test]
fn basenames() {
    assert_eq!(basename("/a/b/c.txt"), "c.txt");
    assert_eq!(basename("plain"), "plain");
    assert_eq!(basename("/ends/with/slash/"), "");
    assert_eq!(basename(""), "");
}

#[test]
fn content_disposition_header() {
    assert_eq!(
        content_disposition("file.txt"),
        "attachment; filename=\"file.txt\""
    );
}

#[test]
fn enqueue_bodies_flatten() {
    let single = Enqueue::Single { path: "/one".to_string() };
    assert_eq!(single.into_paths(), vec!["/one".to_string()]);
    let multiple = Enqueue::Multiple { path: vec!["/a".to_string(), "/b".to_string()] };
    assert_eq!(multiple.into_paths(), vec!["/a".to_string(), "/b".to_string()]);
}

//! Tests for the in-memory file server.

use bytes::Bytes;
use sap::mem_fs_server::{
    Header, MemFsServer, Response, STATUS_METHOD_NOT_ALLOWED, STATUS_NOT_FOUND, STATUS_OK,
};

fn page(body: &'static str) -> Response {
    let mut response = Response::new(Bytes::from_static(body.as_bytes()));
    response.headers.push(Header {
        name: "content-type".to_string(),
        value: Bytes::from_static(b"text/html"),
    });
    response
}

fn server() -> MemFsServer {
    let mut server = MemFsServer::new();
    server.insert("/".to_string(), page("root")).unwrap();
    server.insert("/about".to_string(), page("about")).unwrap();
    server
}

#[test]
fn new_response_is_found_and_bare() {
    let response = Response::new(Bytes::from_static(b"body"));
    assert_eq!(response.status, 200);
    assert_eq!(STATUS_OK, 200);
    assert!(response.headers.is_empty());
    assert_eq!(&response.body[..], b"body");
}

#[test]
fn other_methods_are_not_allowed() {
    let server = server();
    for method in ["POST", "HEAD", "PUT", "DELETE", "get", ""] {
        let response = server.handle_request(method, "/");
        assert_eq!(response.status, 405);
        assert_eq!(response.status, STATUS_METHOD_NOT_ALLOWED);
        assert!(response.body.is_empty());
        assert!(response.headers.is_empty());
    }
}

#[test]
fn exact_match_is_served() {
    let server = server();
    let response = server.handle_request("GET", "/about");
    assert_eq!(response.status, 200);
    assert_eq!(&response.body[..], b"about");
    assert_eq!(response.headers.len(), 1);
    assert_eq!(response.headers[0].name, "content-type");
    assert_eq!(&response.headers[0].value[..], b"text/html");
}

#[test]
fn match_is_exact() {
    let server = server();
    for path in ["/about/", "/About", "about", "/abou", "/about?x=1", ""] {
        let response = server.handle_request("GET", path);
        assert_eq!(response.status, 404);
        assert_eq!(response.status, STATUS_NOT_FOUND);
        assert!(response.body.is_empty());
        assert!(response.headers.is_empty());
        assert!(server.handle_path(path).is_none());
    }
}

#[test]
fn fallback_is_served_as_installed() {
    let mut server = server();
    assert!(server.not_found().is_none());
    server.set_not_found(page("fallback"));
    assert_eq!(&server.not_found().unwrap().body[..], b"fallback");
    let response = server.handle_request("GET", "/missing");
    assert_eq!(response.status, 200);
    assert_eq!(&response.body[..], b"fallback");
    assert_eq!(response.headers.len(), 1);
    // A route still wins over the fallback.
    assert_eq!(&server.handle_request("GET", "/").body[..], b"root");
    // The method is checked first.
    assert_eq!(server.handle_request("POST", "/missing").status, 405);
}

#[test]
fn fallback_keeps_its_own_status() {
    let mut server = MemFsServer::default();
    let mut gone = page("gone");
    gone.status = 410;
    server.set_not_found(gone);
    assert_eq!(server.handle_request("GET", "/anything").status, 410);
}

#[test]
fn taken_route_is_not_overwritten() {
    let mut server = server();
    assert_eq!(server.len(), 2);
    let taken = server.insert("/about".to_string(), page("other")).unwrap_err();
    assert_eq!(taken, "/about");
    assert_eq!(server.len(), 2);
    assert_eq!(&server.get("/about").unwrap().body[..], b"about");
    assert!(server.get("/other").is_none());
}

#[test]
fn served_copy_shares_the_body() {
    let server = server();
    let first = server.handle_path("/").unwrap();
    let second = server.handle_path("/").unwrap();
    assert_eq!(first.body.as_ptr(), second.body.as_ptr());
    assert_eq!(first.body.as_ptr(), server.get("/").unwrap().body.as_ptr());
    let copy = first.duplicate();
    assert_eq!(copy.status, first.status);
    assert_eq!(copy.headers.len(), first.headers.len());
    assert_eq!(
        copy.headers[0].value.as_ptr(),
        first.headers[0].value.as_ptr()
    );
}

#[test]
fn empty_response_has_the_status_only() {
    let response = Response::empty(204);
    assert_eq!(response.status, 204);
    assert!(response.headers.is_empty());
    assert!(response.body.is_empty());
}

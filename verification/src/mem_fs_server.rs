//! A file server that loads files in-memory and then serves them without touching the disk.

use crate::bytes_cache::{bytes_clone, bytes_from_static, bytes_of};
use crate::text::str_eq;
use bytes::Bytes;
use vstd::prelude::*;

verus! {

/// The status of a response that was found.
pub const STATUS_OK: u16 = 200;

/// The status of the response to a path that is not served.
pub const STATUS_NOT_FOUND: u16 = 404;

/// The status of the response to a request that is no `GET`.
pub const STATUS_METHOD_NOT_ALLOWED: u16 = 405;

/// A header of a response.
#[derive(Debug)]
pub struct Header {
    /// The name of the header.
    pub name: String,
    /// The value of the header.
    pub value: Bytes,
}

/// A response: what is served for a route.
#[derive(Debug)]
pub struct Response {
    /// The status code.
    pub status: u16,
    /// The headers, in the order in which they are sent.
    pub headers: Vec<Header>,
    /// The body.
    pub body: Bytes,
}

/// A header as a pair of its name and the bytes of its value.
pub type HeaderView = (Seq<char>, Seq<u8>);

/// A response as a mathematical value.
pub struct ResponseView {
    /// The status code.
    pub status: u16,
    /// The headers, in the order in which they are sent.
    pub headers: Seq<HeaderView>,
    /// The bytes of the body.
    pub body: Seq<u8>,
}

/// The headers as pairs of a name and the bytes of a value.
pub open spec fn header_views(headers: Seq<Header>) -> Seq<HeaderView> {
    headers.map_values(|h: Header| (h.name@, bytes_of(h.value)))
}

impl View for Response {
    type V = ResponseView;

    open spec fn view(&self) -> ResponseView {
        ResponseView {
            status: self.status,
            headers: header_views(self.headers@),
            body: bytes_of(self.body),
        }
    }
}

/// Returns empty bytes.
fn empty_bytes() -> (r: Bytes)
    ensures
        bytes_of(r) == Seq::<u8>::empty(),
{
    proof {
        reveal_strlit("");
        assert(""@ =~= Seq::<char>::empty());
        assert(vstd::utf8::encode_utf8(Seq::<char>::empty()) =~= Seq::<u8>::empty());
    }
    bytes_from_static("".as_bytes())
}

impl Response {
    /// A response with the given body, the status of a response that was found, and no
    /// headers.
    pub fn new(body: Bytes) -> (r: Self)
        ensures
            r@ == (ResponseView { status: STATUS_OK, headers: Seq::empty(), body: bytes_of(body) }),
            r.body == body,
    {
        let r = Response { status: STATUS_OK, headers: Vec::new(), body };
        assert(header_views(r.headers@) =~= Seq::empty());
        r
    }

    /// A response with the given status, no headers and an empty body.
    pub fn empty(status: u16) -> (r: Self)
        ensures
            r@ == empty_response(status),
    {
        let r = Response { status, headers: Vec::new(), body: empty_bytes() };
        assert(header_views(r.headers@) =~= Seq::empty());
        r
    }

    /// A copy of the response, which shares the memory of the body and of the header
    /// values.
    pub fn duplicate(&self) -> (r: Self)
        ensures
            r@ == self@,
            r.body == self.body,
            r.headers@.len() == self.headers@.len(),
            forall|i: int|
                0 <= i < self.headers@.len() ==> (#[trigger] r.headers@[i]).value
                    == self.headers@[i].value,
    {
        let mut headers: Vec<Header> = Vec::new();
        let mut i: usize = 0;
        while i < self.headers.len()
            invariant
                0 <= i <= self.headers.len(),
                headers@.len() == i,
                forall|j: int|
                    0 <= j < i ==> (#[trigger] headers@[j]).name@ == self.headers@[j].name@
                        && headers@[j].value == self.headers@[j].value,
            decreases self.headers.len() - i,
        {
            headers.push(
                Header { name: self.headers[i].name.clone(), value: bytes_clone(&self.headers[i].value) },
            );
            i += 1;
        }
        assert(header_views(headers@) =~= header_views(self.headers@));
        Response { status: self.status, headers, body: bytes_clone(&self.body) }
    }
}

/// The response with the given status, no headers and an empty body.
pub open spec fn empty_response(status: u16) -> ResponseView {
    ResponseView { status, headers: Seq::empty(), body: Seq::empty() }
}

/// A route with the response that is served for it.
#[derive(Debug)]
pub struct Route {
    /// The path of the route.
    pub path: String,
    /// The response to serve.
    pub response: Response,
}

/// The response of the first of `routes` whose path is `path`.
pub open spec fn served(routes: Seq<Route>, path: Seq<char>) -> Option<ResponseView>
    decreases routes.len(),
{
    if routes.len() == 0 {
        None
    } else if routes[0].path@ == path {
        Some(routes[0].response@)
    } else {
        served(routes.drop_first(), path)
    }
}

/// Whether no two routes have the same path.
pub open spec fn distinct_paths(routes: Seq<Route>) -> bool {
    forall|i: int, j: int| 0 <= i < j < routes.len() ==> routes[i].path@ != routes[j].path@
}

/// A path is served exactly where a route has it.
pub proof fn served_iff_present(routes: Seq<Route>, path: Seq<char>)
    ensures
        served(routes, path) is Some <==> exists|i: int|
            0 <= i < routes.len() && (#[trigger] routes[i]).path@ == path,
    decreases routes.len(),
{
    if routes.len() == 0 {
    } else if routes[0].path@ == path {
    } else {
        let rest = routes.drop_first();
        served_iff_present(rest, path);
        if served(rest, path) is Some {
            let i = choose|i: int| 0 <= i < rest.len() && (#[trigger] rest[i]).path@ == path;
            assert(routes[i + 1] == rest[i]);
        }
        if exists|i: int| 0 <= i < routes.len() && (#[trigger] routes[i]).path@ == path {
            let i = choose|i: int| 0 <= i < routes.len() && (#[trigger] routes[i]).path@ == path;
            assert(rest[i - 1] == routes[i]);
        }
    }
}

/// A route that is added at the end is served under its path where that path was not
/// served before, and every other path is served as before.
pub proof fn served_after_push(routes: Seq<Route>, route: Route, path: Seq<char>)
    ensures
        served(routes.push(route), path) == if served(routes, path) is Some {
            served(routes, path)
        } else if route.path@ == path {
            Some(route.response@)
        } else {
            None
        },
    decreases routes.len(),
{
    let after = routes.push(route);
    if routes.len() == 0 {
        assert(after.drop_first() =~= Seq::<Route>::empty());
    } else {
        assert(after[0] == routes[0]);
        assert(after.drop_first() =~= routes.drop_first().push(route));
        if routes[0].path@ != path {
            served_after_push(routes.drop_first(), route, path);
        }
    }
}

/// A memory-fs server.
#[derive(Debug)]
pub struct MemFsServer {
    /// The routes to serve.
    ///
    /// Only exact matches are respected.
    routes: Vec<Route>,
    /// The response to present when the routes do not have a matching path.
    not_found: Option<Response>,
}

impl MemFsServer {
    /// Whether no two routes have the same path.
    pub closed spec fn wf(&self) -> bool {
        distinct_paths(self.routes@)
    }

    /// The response of the route `path`, where there is such a route.
    pub closed spec fn route(&self, path: Seq<char>) -> Option<ResponseView> {
        served(self.routes@, path)
    }

    /// The number of routes.
    pub closed spec fn route_count(&self) -> nat {
        self.routes@.len()
    }

    /// The response to present when the routes do not have a matching path.
    pub closed spec fn fallback(&self) -> Option<ResponseView> {
        match self.not_found {
            Some(response) => Some(response@),
            None => None,
        }
    }

    /// The response to present for `path`: that of its route, else the one for paths
    /// that are not found, if any.
    pub open spec fn response_for(&self, path: Seq<char>) -> Option<ResponseView> {
        if self.route(path) is Some {
            self.route(path)
        } else {
            self.fallback()
        }
    }

    /// A server without routes.
    pub fn new() -> (r: Self)
        ensures
            r.wf(),
            r.route_count() == 0,
            r.fallback() is None,
            forall|path: Seq<char>| r.route(path) is None,
    {
        MemFsServer { routes: Vec::new(), not_found: None }
    }

    /// The number of routes.
    pub fn len(&self) -> (r: usize)
        ensures
            r == self.route_count(),
    {
        self.routes.len()
    }

    /// The response of the route `path`.
    pub fn get(&self, path: &str) -> (r: Option<&Response>)
        ensures
            match r {
                Some(response) => self.route(path@) == Some(response@),
                None => self.route(path@) is None,
            },
    {
        let mut i: usize = 0;
        assert(self.routes@.skip(0) =~= self.routes@);
        while i < self.routes.len()
            invariant
                0 <= i <= self.routes.len(),
                served(self.routes@, path@) == served(self.routes@.skip(i as int), path@),
            decreases self.routes.len() - i,
        {
            let ghost rest = self.routes@.skip(i as int);
            assert(rest[0] == self.routes@[i as int]);
            assert(rest.drop_first() =~= self.routes@.skip(i + 1));
            if str_eq(self.routes[i].path.as_str(), path) {
                return Some(&self.routes[i].response);
            }
            i += 1;
        }
        None
    }

    /// Add a route, unless its path has a route already: then the server stays as it
    /// is, and the path is handed back.
    pub fn insert(&mut self, path: String, response: Response) -> (r: Result<(), String>)
        requires
            old(self).wf(),
        ensures
            final(self).wf(),
            final(self).fallback() == old(self).fallback(),
            match r {
                Ok(()) => old(self).route(path@) is None && final(self).route_count() == old(
                    self,
                ).route_count() + 1 && forall|other: Seq<char>|
                    final(self).route(other) == if other == path@ {
                        Some(response@)
                    } else {
                        old(self).route(other)
                    },
                Err(taken) => old(self).route(path@) is Some && taken@ == path@ && *final(self)
                    == *old(self),
            },
    {
        if self.get(path.as_str()).is_some() {
            return Err(path);
        }
        let ghost before = self.routes@;
        let ghost route = Route { path, response };
        proof {
            served_iff_present(before, path@);
            assert forall|other: Seq<char>| served(before.push(route), other) == if other == path@ {
                Some(response@)
            } else {
                served(before, other)
            } by {
                served_after_push(before, route, other);
            }
        }
        self.routes.push(Route { path, response });
        Ok(())
    }

    /// The response to present when the routes do not have a matching path.
    pub fn not_found(&self) -> (r: Option<&Response>)
        ensures
            match r {
                Some(response) => self.fallback() == Some(response@),
                None => self.fallback() is None,
            },
    {
        self.not_found.as_ref()
    }

    /// Install the response to present when the routes do not have a matching path.
    pub fn set_not_found(&mut self, response: Response)
        ensures
            final(self).fallback() == Some(response@),
            final(self).wf() == old(self).wf(),
            final(self).route_count() == old(self).route_count(),
            forall|path: Seq<char>| final(self).route(path) == old(self).route(path),
    {
        self.not_found = Some(response);
    }

    /// Handle an incoming HTTP request and provide an HTTP response.
    ///
    /// Any method but `GET` is refused. A path that is not served, on a server without
    /// a response for such paths, is not found. The response for paths that are not
    /// found is sent as it was installed, with its own status.
    pub fn handle_request(&self, method: &str, path: &str) -> (r: Response)
        ensures
            r@ == self.response_to(method@, path@),
    {
        if !str_eq(method, "GET") {
            return Response::empty(STATUS_METHOD_NOT_ALLOWED);
        }
        if let Some(res) = self.handle_path(path) {
            return res;
        }
        Response::empty(STATUS_NOT_FOUND)
    }

    /// The response to a request.
    pub open spec fn response_to(&self, method: Seq<char>, path: Seq<char>) -> ResponseView {
        if method != get_method() {
            empty_response(STATUS_METHOD_NOT_ALLOWED)
        } else {
            match self.response_for(path) {
                Some(response) => response,
                None => empty_response(STATUS_NOT_FOUND),
            }
        }
    }

    /// Handle an incoming request for a given path and provide the response.
    pub fn handle_path(&self, path: &str) -> (r: Option<Response>)
        ensures
            match r {
                Some(response) => self.response_for(path@) == Some(response@),
                None => self.response_for(path@) is None,
            },
    {
        if let Some(route_res) = self.get(path) {
            return Some(route_res.duplicate());
        }
        if let Some(not_found_res) = &self.not_found {
            return Some(not_found_res.duplicate());
        }
        None
    }
}

impl Default for MemFsServer {
    fn default() -> (r: Self)
        ensures
            r.wf(),
            r.route_count() == 0,
            r.fallback() is None,
            forall|path: Seq<char>| r.route(path) is None,
    {
        MemFsServer::new()
    }
}

/// The method of the requests that are served.
pub open spec fn get_method() -> Seq<char> {
    "GET"@
}

} // verus!

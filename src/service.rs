//! The HTTP surface: a router that sends the health route straight to its
//! handler and the cache routes through the authentication guard first.
use vstd::prelude::*;
use vstd::string::StringSliceAdditionalSpecFns;
use crate::auth::{auth_outcome, authenticate};
use crate::errors::{status_of, ServerError};
use crate::handlers::{
    health_check, retrieve_artifact, retrieve_spec, store_artifact, store_spec, HEALTH_BODY,
    STATUS_ACCEPTED, STATUS_OK,
};
use crate::storage::MemoryStorage;
use crate::text::{is_prefix_of, opt_view, same_text, starts_with};
use crate::tokens::TokenRegistry;

verus! {

/// The path of the health route.
pub const HEALTH_PATH: &'static str = "/health";

/// The path prefix of the cache routes; the key follows it.
pub const CACHE_PREFIX: &'static str = "/v1/cache/";

/// The status for a path that no route serves.
pub const STATUS_NO_ROUTE: u16 = 404;

/// The status for a known path asked with a method it does not serve.
pub const STATUS_BAD_METHOD: u16 = 405;

/// The request methods the router tells apart.
#[derive(Debug, Clone, Copy, PartialEq, Eq, Structural)]
pub enum Method {
    /// `GET`.
    Get,
    /// `PUT`.
    Put,
    /// Any other method.
    Other,
}

/// Where the router sends a request.
#[derive(Debug, Clone, PartialEq, Eq)]
pub enum Route {
    /// The health check.
    Health,
    /// Read the artifact under the key.
    Retrieve(String),
    /// Write the artifact under the key.
    Store(String),
    /// A served path with a method it does not serve.
    MethodNotAllowed,
    /// No route serves the path.
    NoRoute,
}

/// The key in a cache path: one non-empty path segment after the prefix.
pub open spec fn cache_key(path: Seq<char>) -> Option<Seq<char>> {
    let n = CACHE_PREFIX@.len();
    if is_prefix_of(CACHE_PREFIX@, path) && path.len() > n
        && forall|i: int| n <= i < path.len() ==> path[i] != '/' {
        Some(path.subrange(n as int, path.len() as int))
    } else {
        None
    }
}

/// A request as the pipeline sees it.
pub struct Request {
    /// The request method.
    pub method: Method,
    /// The request path, without query.
    pub path: String,
    /// The value of the `Authorization` header, if present.
    pub authorization: Option<String>,
    /// The request body.
    pub body: Vec<u8>,
}

/// A response: a status and a body.
pub struct Response {
    /// The HTTP status code.
    pub status: u16,
    /// The response body.
    pub body: Vec<u8>,
}

/// The status, the body and the store's contents after a request with
/// these parts reaches a store holding `m`.
pub open spec fn respond(
    entries: Seq<(Option<Seq<char>>, Seq<char>)>,
    m: Map<Seq<char>, Seq<u8>>,
    method: Method,
    path: Seq<char>,
    authorization: Option<Seq<char>>,
    body: Seq<u8>,
) -> (u16, Seq<u8>, Map<Seq<char>, Seq<u8>>) {
    if path == HEALTH_PATH@ {
        if method == Method::Get {
            (STATUS_OK, HEALTH_BODY.spec_bytes(), m)
        } else {
            (STATUS_BAD_METHOD, Seq::empty(), m)
        }
    } else {
        match cache_key(path) {
            None => (STATUS_NO_ROUTE, Seq::empty(), m),
            Some(k) => if method == Method::Other {
                (STATUS_BAD_METHOD, Seq::empty(), m)
            } else if auth_outcome(entries, authorization) is Err {
                (status_of(ServerError::Unauthorized), Seq::empty(), m)
            } else if method == Method::Get {
                match retrieve_spec(m, k) {
                    Ok(b) => (STATUS_OK, b, m),
                    Err(e) => (status_of(e), Seq::empty(), m),
                }
            } else {
                match store_spec(m, k, body) {
                    (Ok(()), m2) => (STATUS_ACCEPTED, Seq::empty(), m2),
                    (Err(e), m2) => (status_of(e), Seq::empty(), m2),
                }
            },
        }
    }
}

/// The key in a cache path, if the path is one.
pub fn cache_key_of(path: &str) -> (r: Option<&str>)
    ensures
        match r {
            Some(k) => cache_key(path@) == Some(k@),
            None => cache_key(path@) is None,
        },
{
    if !starts_with(path, CACHE_PREFIX) {
        return None;
    }
    let m = CACHE_PREFIX.unicode_len();
    let n = path.unicode_len();
    if n <= m {
        return None;
    }
    let mut i: usize = m;
    while i < n
        invariant
            m == CACHE_PREFIX@.len(),
            n == path@.len(),
            m <= i <= n,
            forall|k: int| m <= k < i ==> path@[k] != '/',
        decreases n - i,
    {
        if path.get_char(i) == '/' {
            return None;
        }
        i = i + 1;
    }
    Some(path.substring_char(m, n))
}

/// Routes a request by its method and path.
pub fn route(method: Method, path: &str) -> (r: Route)
    ensures
        path@ == HEALTH_PATH@ ==> r == (if method == Method::Get {
            Route::Health
        } else {
            Route::MethodNotAllowed
        }),
        path@ != HEALTH_PATH@ ==> match cache_key(path@) {
            None => r == Route::NoRoute,
            Some(k) => match method {
                Method::Get => r is Retrieve && r->Retrieve_0@ == k,
                Method::Put => r is Store && r->Store_0@ == k,
                Method::Other => r == Route::MethodNotAllowed,
            },
        },
{
    if same_text(path, HEALTH_PATH) {
        return match method {
            Method::Get => Route::Health,
            _ => Route::MethodNotAllowed,
        };
    }
    match cache_key_of(path) {
        None => Route::NoRoute,
        Some(k) => match method {
            Method::Get => Route::Retrieve(k.to_owned()),
            Method::Put => Route::Store(k.to_owned()),
            Method::Other => Route::MethodNotAllowed,
        },
    }
}

fn error_response(e: ServerError) -> (r: Response)
    ensures
        r.status == status_of(e),
        r.body@ == Seq::<u8>::empty(),
{
    Response { status: e.status_code(), body: Vec::new() }
}

/// Serves one request against the registry and the in-memory store.
pub fn handle(registry: &TokenRegistry, storage: &mut MemoryStorage, req: Request) -> (r: Response)
    requires
        old(storage).wf(),
    ensures
        final(storage).wf(),
        (r.status, r.body@, final(storage).view()) == respond(
            registry.view(),
            old(storage).view(),
            req.method,
            req.path@,
            opt_view(req.authorization),
            req.body@,
        ),
{
    let Request { method, path, authorization, body } = req;
    match route(method, path.as_str()) {
        Route::Health => {
            let (status, text) = health_check();
            Response { status, body: text.as_bytes_vec() }
        },
        Route::MethodNotAllowed => Response { status: STATUS_BAD_METHOD, body: Vec::new() },
        Route::NoRoute => Response { status: STATUS_NO_ROUTE, body: Vec::new() },
        Route::Retrieve(key) => {
            let header = match &authorization {
                Some(h) => Some(h.as_str()),
                None => None,
            };
            if let Err(e) = authenticate(registry, header) {
                return error_response(e);
            }
            match retrieve_artifact(storage, key.as_str()) {
                Ok(bytes) => Response { status: STATUS_OK, body: bytes },
                Err(e) => error_response(e),
            }
        },
        Route::Store(key) => {
            let header = match &authorization {
                Some(h) => Some(h.as_str()),
                None => None,
            };
            if let Err(e) = authenticate(registry, header) {
                return error_response(e);
            }
            match store_artifact(storage, key.as_str(), body) {
                Ok(()) => Response { status: STATUS_ACCEPTED, body: Vec::new() },
                Err(e) => error_response(e),
            }
        },
    }
}

/// The health route answers `200` with no `Authorization` header, whatever
/// the registry holds, and leaves the store alone.
pub proof fn health_needs_no_token(
    entries: Seq<(Option<Seq<char>>, Seq<char>)>,
    m: Map<Seq<char>, Seq<u8>>,
    body: Seq<u8>,
)
    ensures
        respond(entries, m, Method::Get, HEALTH_PATH@, None, body) == (
            STATUS_OK,
            HEALTH_BODY.spec_bytes(),
            m,
        ),
{
}

/// On a cache route, a request the guard refuses is answered `401` and
/// leaves the store alone; a request it admits, whatever the credential's
/// position or name, reaches the handler and gets the handler's answer.
pub proof fn protected_routes_need_registered_token(
    entries: Seq<(Option<Seq<char>>, Seq<char>)>,
    m: Map<Seq<char>, Seq<u8>>,
    method: Method,
    path: Seq<char>,
    authorization: Option<Seq<char>>,
    body: Seq<u8>,
)
    requires
        path != HEALTH_PATH@,
        cache_key(path) is Some,
        method != Method::Other,
    ensures
        auth_outcome(entries, authorization) is Err ==> respond(
            entries,
            m,
            method,
            path,
            authorization,
            body,
        ) == (401u16, Seq::<u8>::empty(), m),
        auth_outcome(entries, authorization) is Ok && method == Method::Get ==> respond(
            entries,
            m,
            method,
            path,
            authorization,
            body,
        ) == match retrieve_spec(m, cache_key(path)->Some_0) {
            Ok(b) => (STATUS_OK, b, m),
            Err(e) => (status_of(e), Seq::<u8>::empty(), m),
        },
        auth_outcome(entries, authorization) is Ok && method == Method::Put ==> respond(
            entries,
            m,
            method,
            path,
            authorization,
            body,
        ) == match store_spec(m, cache_key(path)->Some_0, body) {
            (Ok(()), m2) => (STATUS_ACCEPTED, Seq::<u8>::empty(), m2),
            (Err(e), m2) => (status_of(e), Seq::<u8>::empty(), m2),
        },
{
}

} // verus!

//! The authentication guard in front of the protected routes.
use vstd::prelude::*;
use crate::errors::ServerError;
use crate::text::{is_prefix_of, opt_view, starts_with};
use crate::tokens::{first_match, TokenRegistry};

verus! {

/// The scheme prefix an `Authorization` header must start with, exactly.
pub const BEARER_PREFIX: &'static str = "Bearer ";

/// The token a header value carries: what follows the bearer prefix.
pub open spec fn bearer_token(h: Seq<char>) -> Option<Seq<char>> {
    if is_prefix_of(BEARER_PREFIX@, h) {
        Some(h.subrange(BEARER_PREFIX@.len() as int, h.len() as int))
    } else {
        None
    }
}

/// The guard's verdict on a request whose `Authorization` header is
/// `header`: the name of the first credential whose secret the bearer token
/// equals (`None` for an anonymous one), or `Unauthorized`.
pub open spec fn auth_outcome(
    entries: Seq<(Option<Seq<char>>, Seq<char>)>,
    header: Option<Seq<char>>,
) -> Result<Option<Seq<char>>, ServerError> {
    match header {
        None => Err(ServerError::Unauthorized),
        Some(h) => match bearer_token(h) {
            None => Err(ServerError::Unauthorized),
            Some(t) => lookup_outcome(entries, t),
        },
    }
}

/// The name of the first credential whose secret is `t`, or `Unauthorized`.
pub open spec fn lookup_outcome(
    entries: Seq<(Option<Seq<char>>, Seq<char>)>,
    t: Seq<char>,
) -> Result<Option<Seq<char>>, ServerError> {
    if exists|i: int| first_match(entries, t, i) {
        Ok(entries[choose|i: int| first_match(entries, t, i)].0)
    } else {
        Err(ServerError::Unauthorized)
    }
}

/// The characters of an optional header value.
pub open spec fn header_view(h: Option<&str>) -> Option<Seq<char>> {
    match h {
        Some(s) => Some(s@),
        None => None,
    }
}

/// The outcome of the guard with the name seen as characters.
pub open spec fn outcome_view(r: Result<Option<String>, ServerError>) -> Result<Option<Seq<char>>, ServerError> {
    match r {
        Ok(n) => Ok(opt_view(n)),
        Err(e) => Err(e),
    }
}

/// Extracts the bearer token from a header value.
pub fn extract_bearer(h: &str) -> (r: Option<&str>)
    ensures
        match r {
            Some(t) => bearer_token(h@) == Some(t@),
            None => bearer_token(h@) is None,
        },
{
    if starts_with(h, BEARER_PREFIX) {
        let m = BEARER_PREFIX.unicode_len();
        let n = h.unicode_len();
        Some(h.substring_char(m, n))
    } else {
        None
    }
}

/// Checks the `Authorization` header of a protected request against the
/// registry. On success returns the name of the matching credential.
pub fn authenticate(registry: &TokenRegistry, header: Option<&str>) -> (r: Result<Option<String>, ServerError>)
    ensures
        outcome_view(r) == auth_outcome(registry.view(), header_view(header)),
{
    let h = match header {
        Some(h) => h,
        None => return Err(ServerError::Unauthorized),
    };
    let token = match extract_bearer(h) {
        Some(t) => t,
        None => return Err(ServerError::Unauthorized),
    };
    match registry.find(token) {
        Some(i) => {
            proof {
                let entries = registry.view();
                assert(first_match(entries, token@, i as int));
                let c = choose|c: int| first_match(entries, token@, c);
                assert(c == i) by {
                    if c < i {
                        assert(entries[c].1 != token@);
                    } else if i < c {
                        assert(entries[i as int].1 != token@);
                    }
                }
                assert(lookup_outcome(entries, token@) == Ok::<Option<Seq<char>>, ServerError>(entries[i as int].0));
            }
            Ok(registry.name_at(i))
        },
        None => {
            assert(!exists|c: int| first_match(registry.view(), token@, c)) by {
                if exists|c: int| first_match(registry.view(), token@, c) {
                    let c = choose|c: int| first_match(registry.view(), token@, c);
                    assert(registry.view()[c].1 != token@);
                }
            }
            Err(ServerError::Unauthorized)
        },
    }
}

proof fn lemma_first_match_exists(entries: Seq<(Option<Seq<char>>, Seq<char>)>, t: Seq<char>, i: int)
    requires
        0 <= i < entries.len(),
        entries[i].1 == t,
    ensures
        exists|j: int| first_match(entries, t, j),
    decreases i,
{
    if forall|k: int| 0 <= k < i ==> entries[k].1 != t {
        assert(first_match(entries, t, i));
    } else {
        let k = choose|k: int| 0 <= k < i && entries[k].1 == t;
        lemma_first_match_exists(entries, t, k);
    }
}

/// The guard lets a request through exactly when its header holds the bearer
/// prefix followed by a token that some configured secret equals, at any
/// position and under any name; a missing header, another scheme or an
/// unknown token is `Unauthorized`.
pub proof fn guard_admits_exactly_registered(
    entries: Seq<(Option<Seq<char>>, Seq<char>)>,
    header: Option<Seq<char>>,
)
    ensures
        auth_outcome(entries, header) is Ok <==> (header is Some && bearer_token(header->Some_0) is Some
            && exists|i: int|
            0 <= i < entries.len() && (#[trigger] entries[i]).1 == bearer_token(header->Some_0)->Some_0),
        auth_outcome(entries, header) is Err ==> auth_outcome(entries, header) == Err::<
            Option<Seq<char>>,
            ServerError,
        >(ServerError::Unauthorized),
{
    if let Some(h) = header {
        if let Some(t) = bearer_token(h) {
            if exists|i: int| 0 <= i < entries.len() && (#[trigger] entries[i]).1 == t {
                let i = choose|i: int| 0 <= i < entries.len() && (#[trigger] entries[i]).1 == t;
                lemma_first_match_exists(entries, t, i);
            }
        }
    }
}

} // verus!

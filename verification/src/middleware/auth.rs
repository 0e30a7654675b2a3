//! Who a request comes from: the holder of an API key, or a guest.

use vstd::prelude::*;
use crate::db::api_keys::ApiKeyRole;
use crate::models::auth::AuthInfo;
use crate::models::response::ErrorResponse;
use crate::text::{
    chars_of, find_first, first_index, has_prefix, lemma_first_index, range_has_prefix,
    string_from_range,
};

verus! {

/// What the stored keys say of a key that a request presents.
#[derive(Debug)]
pub enum KeyLookup {
    /// The key is stored.
    Found { id: String, role: ApiKeyRole, is_active: bool },
    /// No such key is stored.
    Missing,
    /// The stored keys could not be read.
    Failed,
}

/// A text without the copies of a prefix that it starts with.
pub open spec fn without_prefixes(s: Seq<char>, prefix: Seq<char>) -> Seq<char>
    decreases s.len(),
{
    if prefix.len() > 0 && has_prefix(s, prefix) {
        without_prefixes(s.subrange(prefix.len() as int, s.len() as int), prefix)
    } else {
        s
    }
}

/// The key that a query string carries: the value of its first parameter
/// `api_key`.
pub open spec fn query_key(query: Seq<char>) -> Option<Seq<char>>
    decreases query.len(),
{
    let e = first_index(query, '&');
    if 0 <= e <= query.len() {
        let part = query.subrange(0, e);
        if has_prefix(part, "api_key="@) {
            Some(without_prefixes(part, "api_key="@))
        } else if e < query.len() {
            query_key(query.subrange(e + 1, query.len() as int))
        } else {
            None
        }
    } else {
        None
    }
}

/// The key that an `Authorization` header carries as a bearer token.
pub open spec fn bearer_key(authorization: Seq<char>) -> Option<Seq<char>> {
    if has_prefix(authorization, "Bearer "@) {
        Some(authorization.subrange(7, authorization.len() as int))
    } else {
        None
    }
}

/// The key that a request presents: that of the header `X-API-Key`, else that
/// of the query, else the bearer token.
pub open spec fn presented_key(
    header: Option<Seq<char>>,
    query: Option<Seq<char>>,
    authorization: Option<Seq<char>>,
) -> Option<Seq<char>> {
    match header {
        Some(k) => Some(k),
        None => match (
            match query {
                Some(q) => query_key(q),
                None => None,
            }
        ) {
            Some(k) => Some(k),
            None => match authorization {
                Some(a) => bearer_key(a),
                None => None,
            },
        },
    }
}

fn key_of_query(query: &str) -> (r: Option<String>)
    ensures
        r.deep_view() == query_key(query@),
{
    let v: Vec<char> = chars_of(query);
    let n: usize = v.len();
    let mut start: usize = 0;
    assert(v@.subrange(0, n as int) =~= v@);
    proof {
        reveal_strlit("api_key=");
    }
    loop
        invariant
            start <= n,
            n == v.len(),
            v@ == query@,
            "api_key="@.len() == 8,
            query_key(v@) == query_key(v@.subrange(start as int, n as int)),
        decreases n - start,
    {
        let ghost rest = v@.subrange(start as int, n as int);
        let end: usize = find_first(&v, start, n, '&');
        proof {
            lemma_first_index(rest, '&');
            assert(rest.subrange(0, end - start) =~= v@.subrange(start as int, end as int));
        }
        if range_has_prefix(&v, start, end, "api_key=") {
            let ghost part = v@.subrange(start as int, end as int);
            let mut from: usize = start;
            while range_has_prefix(&v, from, end, "api_key=")
                invariant
                    start <= from <= end <= n,
                    n == v.len(),
                    "api_key="@.len() == 8,
                    without_prefixes(part, "api_key="@) == without_prefixes(
                        v@.subrange(from as int, end as int),
                        "api_key="@,
                    ),
                decreases end - from,
            {
                proof {
                    let cur = v@.subrange(from as int, end as int);
                    assert(cur.subrange(8, cur.len() as int) =~= v@.subrange(from + 8, end as int));
                }
                from = from + 8;
            }
            return Some(string_from_range(&v, from, end));
        }
        if end >= n {
            return None;
        }
        proof {
            assert(rest.subrange(end - start + 1, rest.len() as int) =~= v@.subrange(
                end + 1,
                n as int,
            ));
        }
        start = end + 1;
    }
}

fn key_of_bearer(authorization: &str) -> (r: Option<String>)
    ensures
        r.deep_view() == bearer_key(authorization@),
{
    let v: Vec<char> = chars_of(authorization);
    proof {
        reveal_strlit("Bearer ");
        assert(v@.subrange(0, v.len() as int) =~= v@);
    }
    if range_has_prefix(&v, 0, v.len(), "Bearer ") {
        Some(string_from_range(&v, 7, v.len()))
    } else {
        None
    }
}

/// Finds the key that a request presents.
pub fn provided_key(header: Option<&str>, query: Option<&str>, authorization: Option<&str>) -> (r:
    Option<String>)
    ensures
        r.deep_view() == presented_key(
            header.deep_view(),
            query.deep_view(),
            authorization.deep_view(),
        ),
{
    match header {
        Some(k) => {
            return Some(k.to_string());
        },
        None => {},
    }
    let from_query: Option<String> = match query {
        Some(q) => key_of_query(q),
        None => None,
    };
    match from_query {
        Some(k) => Some(k),
        None => match authorization {
            Some(a) => key_of_bearer(a),
            None => None,
        },
    }
}

/// Decides who a request comes from. A request without a key comes from a
/// guest. A request with a key comes from the holder of the key, where the
/// key is stored and active; any other key is refused.
pub fn api_key_auth(lookup: Option<KeyLookup>, client_ip: Option<String>) -> (r: Result<
    AuthInfo,
    ErrorResponse,
>)
    ensures
        match lookup {
            None => r matches Ok(auth) && auth.api_key_id is None && auth.is_guest && auth.role
                == ApiKeyRole::User && auth.client_ip.deep_view() == client_ip.deep_view(),
            Some(KeyLookup::Found { id, role, is_active }) => if is_active {
                r matches Ok(auth) && auth.api_key_id.deep_view() == Some(id@) && !auth.is_guest
                    && auth.role == role && auth.client_ip.deep_view() == client_ip.deep_view()
            } else {
                r matches Err(e) && e.status == 401 && e.error@ == "API Key disattivata"@
            },
            Some(KeyLookup::Missing) => r matches Err(e) && e.status == 401 && e.error@
                == "API Key non valida"@,
            Some(KeyLookup::Failed) => r matches Err(e) && e.status == 500 && e.error@
                == "Errore interno autenticazione"@,
        },
{
    match lookup {
        None => Ok(
            AuthInfo { api_key_id: None, is_guest: true, role: ApiKeyRole::User, client_ip },
        ),
        Some(KeyLookup::Found { id, role, is_active }) => {
            if !is_active {
                return Err(ErrorResponse { error: "API Key disattivata".to_string(), status: 401 });
            }
            Ok(AuthInfo { api_key_id: Some(id), is_guest: false, role, client_ip })
        },
        Some(KeyLookup::Missing) => Err(
            ErrorResponse { error: "API Key non valida".to_string(), status: 401 },
        ),
        Some(KeyLookup::Failed) => Err(
            ErrorResponse { error: "Errore interno autenticazione".to_string(), status: 500 },
        ),
    }
}

/// Lets the holder of a key pass and refuses a guest.
pub fn require_auth(auth: &AuthInfo) -> (r: Result<(), ErrorResponse>)
    ensures
        !auth.is_guest ==> r is Ok,
        auth.is_guest ==> (r matches Err(e) && e.status == 401 && e.error@
            == "Autenticazione richiesta. Fornire una API Key valida."@),
{
    if auth.is_guest {
        return Err(
            ErrorResponse {
                error: "Autenticazione richiesta. Fornire una API Key valida.".to_string(),
                status: 401,
            },
        );
    }
    Ok(())
}

/// Lets an administrator pass, refuses a guest as not authenticated and any
/// other sender as not allowed.
pub fn require_admin(auth: &AuthInfo) -> (r: Result<(), ErrorResponse>)
    ensures
        auth.is_guest ==> (r matches Err(e) && e.status == 401 && e.error@
            == "Autenticazione richiesta"@),
        !auth.is_guest && auth.role != ApiKeyRole::Admin ==> (r matches Err(e) && e.status == 403
            && e.error@ == "Privilegi admin richiesti"@),
        !auth.is_guest && auth.role == ApiKeyRole::Admin ==> r is Ok,
{
    if auth.is_guest {
        return Err(ErrorResponse { error: "Autenticazione richiesta".to_string(), status: 401 });
    }
    match auth.role {
        ApiKeyRole::Admin => Ok(()),
        ApiKeyRole::User => Err(
            ErrorResponse { error: "Privilegi admin richiesti".to_string(), status: 403 },
        ),
    }
}

} // verus!

//! The per-request authentication state machine: extract a credential from
//! cookie or bearer header, verify it, consult the token cache, resolve the
//! user, and hand the handler an authenticated context — or stop the request
//! with a classified failure.
//!
//! The user store lookup is the one step done outside this library; the
//! machine is split around it into `authenticate` (everything before the
//! lookup) and `resolve_user` (everything after).
use vstd::prelude::*;

use crate::claims::expect_lit;
use crate::errors::AuthError;
use crate::jwt::{spec_verify_token, verify_jwt_token, TokenDetails};
use crate::token_cache::{cache_entries, TokenCache};
use crate::user::User;
use vstd::utf8::encode_utf8;

verus! {

/// The identity attached to a request once authentication succeeds: the
/// resolved user and the identifier of the access token that proved them.
pub struct JWTAuthMiddleware {
    pub user: User,
    pub access_token_uuid: u128,
}

/// The part of an authentication decision that precedes the user lookup:
/// which user the token cache says the credential stands for.
pub struct PendingAuth {
    pub user_id: i32,
    pub access_token_uuid: u128,
}

/// What the user store answered when asked for the pending user.
pub enum UserLookup {
    /// The user exists.
    Found(User),
    /// No user has the id.
    Missing,
    /// The store itself failed.
    StoreError,
}

/// The structured body of an authentication failure response.
pub struct ErrorResponse {
    pub status: &'static str,
    pub message: String,
}

/// The view of an optional borrowed string.
pub open spec fn opt_str_view(o: Option<&String>) -> Option<Seq<char>> {
    match o {
        Some(s) => Some(s@),
        None => None,
    }
}

/// The credential a request carries: the access-token cookie when present,
/// otherwise the text after `Bearer ` in the authorization header.
pub open spec fn spec_extract_token(cookie: Option<Seq<char>>, header: Option<Seq<char>>) -> Option<
    Seq<char>,
> {
    match cookie {
        Some(c) => Some(c),
        None => match header {
            Some(h) => if h.len() >= 7 && h.subrange(0, 7) == ("Bearer ")@ {
                Some(h.subrange(7, h.len() as int))
            } else {
                None
            },
            None => None,
        },
    }
}

/// Extracts the request's credential: cookie first, bearer header second.
pub fn extract_access_token(cookie: Option<&String>, auth_header: Option<&String>) -> (r: Option<
    String,
>)
    ensures
        match spec_extract_token(opt_str_view(cookie), opt_str_view(auth_header)) {
            Some(t) => r matches Some(s) && s@ == t,
            None => r is None,
        },
{
    match cookie {
        Some(c) => Some(c.clone()),
        None => match auth_header {
            Some(h) => {
                proof {
                    reveal_strlit("Bearer ");
                }
                let n = h.as_str().unicode_len();
                if n >= 7 && expect_lit(h.as_str(), n, 0, "Bearer ") {
                    proof {
                        assert(h@.subrange(0, 7) =~= ("Bearer ")@);
                    }
                    Some(h.as_str().substring_char(7, n).to_owned())
                } else {
                    None
                }
            },
            None => None,
        },
    }
}

/// What the pre-lookup authentication decision is, for every cache content
/// and request: the cached user id and token identifier on success, or the
/// first failure met: no credential, a verification failure, or a cache
/// miss. The cache entry's user id, not the token's own claim, names the
/// user.
pub open spec fn spec_authenticate(
    entries: Map<u128, TokenDetails>,
    cookie: Option<Seq<char>>,
    header: Option<Seq<char>>,
    key_pem: Seq<u8>,
    now: int,
) -> Result<(int, u128), AuthError> {
    match spec_extract_token(cookie, header) {
        None => Err(AuthError::MissingToken),
        Some(tok) => match spec_verify_token(tok, key_pem, now) {
            Err(e) => Err(e),
            Ok(v) => if !entries.contains_key(v.token_uuid) {
                Err(AuthError::NotCached)
            } else {
                Ok((entries[v.token_uuid].user_id as int, v.token_uuid))
            },
        },
    }
}

/// Runs the authentication state machine up to the user lookup: extract the
/// credential, verify it against the access public key, and require its
/// identifier to be cached. A cache miss is `NotCached` no matter how valid
/// the signature still is.
pub fn authenticate(
    cache: &TokenCache,
    access_public_key: &str,
    cookie: Option<&String>,
    auth_header: Option<&String>,
    now: i64,
) -> (r: Result<PendingAuth, AuthError>)
    ensures
        match spec_authenticate(
            cache_entries(*cache),
            opt_str_view(cookie),
            opt_str_view(auth_header),
            encode_utf8(access_public_key@),
            now as int,
        ) {
            Ok((uid, uuid)) => r matches Ok(p) && p.user_id as int == uid && p.access_token_uuid
                == uuid,
            Err(e) => r matches Err(e2) && e2 == e,
        },
{
    let token = match extract_access_token(cookie, auth_header) {
        Some(t) => t,
        None => {
            return Err(AuthError::MissingToken);
        },
    };
    let details = match verify_jwt_token(access_public_key, token.as_str(), now) {
        Ok(d) => d,
        Err(e) => {
            return Err(e);
        },
    };
    let cached = match cache.get(details.token_uuid) {
        Some(c) => c,
        None => {
            return Err(AuthError::NotCached);
        },
    };
    Ok(PendingAuth { user_id: cached.user_id, access_token_uuid: details.token_uuid })
}

/// Finishes the authentication decision once the user store has answered:
/// a found user yields the request's context, a missing user is
/// `UserNotFound`, a store failure is `DatabaseError` and aborts the
/// request with no context attached.
pub fn resolve_user(pending: PendingAuth, lookup: UserLookup) -> (r: Result<
    JWTAuthMiddleware,
    AuthError,
>)
    ensures
        match lookup {
            UserLookup::Found(u) => r matches Ok(m) && m.user == u && m.access_token_uuid
                == pending.access_token_uuid,
            UserLookup::Missing => r matches Err(e) && e == AuthError::UserNotFound,
            UserLookup::StoreError => r matches Err(e) && e == AuthError::DatabaseError,
        },
{
    match lookup {
        UserLookup::Found(user) => Ok(
            JWTAuthMiddleware { user, access_token_uuid: pending.access_token_uuid },
        ),
        UserLookup::Missing => Err(AuthError::UserNotFound),
        UserLookup::StoreError => Err(AuthError::DatabaseError),
    }
}

/// The HTTP status and structured body for each authentication failure:
/// 401 for everything a client could mend by logging in again, 500 for
/// server-side signing and store failures. Bodies carry only a classified
/// message, never internal error text.
pub fn auth_error_response(e: &AuthError) -> (r: (u16, ErrorResponse))
    ensures
        match *e {
            AuthError::MissingToken => r.0 == 401 && r.1.status@ == ("fail")@ && r.1.message@ == (
            "You are not logged in, please provide a token")@,
            AuthError::MalformedToken => r.0 == 401 && r.1.status@ == ("fail")@ && r.1.message@
                == ("Invalid token")@,
            AuthError::SignatureInvalid => r.0 == 401 && r.1.status@ == ("fail")@ && r.1.message@
                == ("Invalid token signature")@,
            AuthError::Expired => r.0 == 401 && r.1.status@ == ("fail")@ && r.1.message@ == (
            "Token has expired")@,
            AuthError::NotCached => r.0 == 401 && r.1.status@ == ("fail")@ && r.1.message@ == (
            "Token is invalid or session has expired")@,
            AuthError::UserNotFound => r.0 == 401 && r.1.status@ == ("fail")@ && r.1.message@ == (
            "The user belonging to this token no longer exists")@,
            AuthError::SigningFailure => r.0 == 500 && r.1.status@ == ("error")@ && r.1.message@
                == ("Failed to generate token")@,
            AuthError::CacheUnavailable => r.0 == 500 && r.1.status@ == ("error")@ && r.1.message@
                == ("Token cache unavailable")@,
            AuthError::DatabaseError => r.0 == 500 && r.1.status@ == ("error")@ && r.1.message@
                == ("Database error")@,
        },
{
    match e {
        AuthError::MissingToken => (
            401,
            ErrorResponse {
                status: "fail",
                message: "You are not logged in, please provide a token".to_owned(),
            },
        ),
        AuthError::MalformedToken => (
            401,
            ErrorResponse { status: "fail", message: "Invalid token".to_owned() },
        ),
        AuthError::SignatureInvalid => (
            401,
            ErrorResponse { status: "fail", message: "Invalid token signature".to_owned() },
        ),
        AuthError::Expired => (
            401,
            ErrorResponse { status: "fail", message: "Token has expired".to_owned() },
        ),
        AuthError::NotCached => (
            401,
            ErrorResponse {
                status: "fail",
                message: "Token is invalid or session has expired".to_owned(),
            },
        ),
        AuthError::UserNotFound => (
            401,
            ErrorResponse {
                status: "fail",
                message: "The user belonging to this token no longer exists".to_owned(),
            },
        ),
        AuthError::SigningFailure => (
            500,
            ErrorResponse { status: "error", message: "Failed to generate token".to_owned() },
        ),
        AuthError::CacheUnavailable => (
            500,
            ErrorResponse { status: "error", message: "Token cache unavailable".to_owned() },
        ),
        AuthError::DatabaseError => (
            500,
            ErrorResponse { status: "error", message: "Database error".to_owned() },
        ),
    }
}

/// Revocation outranks cryptography: when the credential extracts and
/// verifies but its identifier has no cache entry, authentication fails
/// with `NotCached`, however valid the signature and however distant the
/// expiry.
pub proof fn lemma_revocation_over_cryptography(
    entries: Map<u128, TokenDetails>,
    cookie: Option<Seq<char>>,
    header: Option<Seq<char>>,
    key_pem: Seq<u8>,
    now: int,
)
    ensures
        (spec_extract_token(cookie, header) matches Some(tok) && spec_verify_token(
            tok,
            key_pem,
            now,
        ) matches Ok(v) && !entries.contains_key(v.token_uuid)) ==> spec_authenticate(
            entries,
            cookie,
            header,
            key_pem,
            now,
        ) == Err::<(int, u128), AuthError>(AuthError::NotCached),
{
}

/// Expiry outranks the cache: when the credential extracts but verification
/// reports it expired, authentication fails with `Expired` whatever the
/// cache holds — in particular even when the identifier is still cached.
pub proof fn lemma_expiry_over_cache(
    entries: Map<u128, TokenDetails>,
    cookie: Option<Seq<char>>,
    header: Option<Seq<char>>,
    key_pem: Seq<u8>,
    now: int,
)
    ensures
        (spec_extract_token(cookie, header) matches Some(tok) && spec_verify_token(
            tok,
            key_pem,
            now,
        ) == Err::<crate::jwt::TokenDetailsV, AuthError>(AuthError::Expired)) ==> spec_authenticate(
            entries,
            cookie,
            header,
            key_pem,
            now,
        ) == Err::<(int, u128), AuthError>(AuthError::Expired),
{
}

} // verus!

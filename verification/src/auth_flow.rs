//! The session flows: login issues a paired access and refresh token and
//! caches both; refresh re-issues the access token alone against the cached
//! refresh entry; logout removes the access entry and nothing else.
//!
//! The user store and the clock stay outside: callers pass the loaded user
//! and the current epoch seconds in, together with the fresh identifiers the
//! new tokens are to carry.
use vstd::prelude::*;

use crate::errors::AuthError;
use crate::jwt::{
    generate_jwt_token, rs256_signature, spec_issued_claims, spec_message, spec_verify_token,
    verify_jwt_token, TokenDetails,
};
use crate::jwt_auth::opt_str_view;
use crate::password::{bcrypt_verifies, verify_password};
use crate::token_cache::{cache_entries, TokenCache};
use crate::user::User;
use vstd::utf8::encode_utf8;

verus! {

/// The immutable signing configuration: one key pair and one time-to-live
/// (in minutes) per token class.
pub struct KeyMaterial {
    pub access_token_private_key: String,
    pub access_token_public_key: String,
    pub refresh_token_private_key: String,
    pub refresh_token_public_key: String,
    pub access_token_max_age: i64,
    pub refresh_token_max_age: i64,
}

/// A cookie as the flows ask the HTTP layer to set it.
pub struct CookieSpec {
    pub name: String,
    pub value: String,
    pub max_age_seconds: i64,
    pub path: String,
    pub same_site_lax: bool,
    pub http_only: bool,
}

/// What a caller sends to log in.
pub struct LoginRequest {
    pub email: String,
    pub password: String,
}

/// Why a login failed.
#[derive(Clone, Copy, PartialEq, Eq, Structural, Debug)]
pub enum LoginError {
    /// The password does not match the stored hash.
    InvalidCredentials,
    /// A signing key could not be used.
    SigningFailure,
}

/// What a successful login carries: both token records and the three
/// cookies to set.
pub struct LoginSuccess {
    pub access_token_details: TokenDetails,
    pub refresh_token_details: TokenDetails,
    pub access_cookie: CookieSpec,
    pub refresh_cookie: CookieSpec,
    pub logged_in_cookie: CookieSpec,
}

/// What the cached refresh entry says before re-issuance: whom to
/// re-authenticate, and under which refresh identifier.
pub struct RefreshTicket {
    pub user_id: i32,
    pub refresh_token_uuid: u128,
}

/// What a successful refresh carries: the new access token record and the
/// two cookies to set.
pub struct RefreshSuccess {
    pub access_token_details: TokenDetails,
    pub access_cookie: CookieSpec,
    pub logged_in_cookie: CookieSpec,
}

/// The access-token cookie: httponly, lax, rooted, living exactly as long
/// as the token.
pub fn access_cookie(token: &str, max_age_minutes: i64) -> (r: CookieSpec)
    requires
        0 <= max_age_minutes,
        max_age_minutes * 60 <= i64::MAX,
    ensures
        r.name@ == ("access_token")@,
        r.value@ == token@,
        r.max_age_seconds == max_age_minutes * 60,
        r.path@ == ("/")@,
        r.same_site_lax,
        r.http_only,
{
    CookieSpec {
        name: "access_token".to_owned(),
        value: token.to_owned(),
        max_age_seconds: max_age_minutes * 60,
        path: "/".to_owned(),
        same_site_lax: true,
        http_only: true,
    }
}

/// The refresh-token cookie: httponly, lax, rooted, living exactly as long
/// as the refresh token.
pub fn refresh_cookie(token: &str, max_age_minutes: i64) -> (r: CookieSpec)
    requires
        0 <= max_age_minutes,
        max_age_minutes * 60 <= i64::MAX,
    ensures
        r.name@ == ("refresh_token")@,
        r.value@ == token@,
        r.max_age_seconds == max_age_minutes * 60,
        r.path@ == ("/")@,
        r.same_site_lax,
        r.http_only,
{
    CookieSpec {
        name: "refresh_token".to_owned(),
        value: token.to_owned(),
        max_age_seconds: max_age_minutes * 60,
        path: "/".to_owned(),
        same_site_lax: true,
        http_only: true,
    }
}

/// The `logged_in` cookie: visible to client script, a UX signal with no
/// security weight, living as long as the access token.
pub fn logged_in_cookie(access_max_age_minutes: i64) -> (r: CookieSpec)
    requires
        0 <= access_max_age_minutes,
        access_max_age_minutes * 60 <= i64::MAX,
    ensures
        r.name@ == ("logged_in")@,
        r.value@ == ("true")@,
        r.max_age_seconds == access_max_age_minutes * 60,
        r.path@ == ("/")@,
        r.same_site_lax,
        !r.http_only,
{
    CookieSpec {
        name: "logged_in".to_owned(),
        value: "true".to_owned(),
        max_age_seconds: access_max_age_minutes * 60,
        path: "/".to_owned(),
        same_site_lax: true,
        http_only: false,
    }
}

/// Logs a user in: checks the password against the stored hash, issues an
/// access and a refresh token under the given fresh identifiers, caches
/// both, and hands back the cookies to set. The two tokens are independent
/// artifacts — different identifier, different key, independent lifetime —
/// bound only by the shared user id.
pub fn login(
    cache: &mut TokenCache,
    keys: &KeyMaterial,
    user: &User,
    password: &str,
    now: i64,
    access_uuid: u128,
    refresh_uuid: u128,
) -> (r: Result<LoginSuccess, LoginError>)
    requires
        0 <= now,
        0 <= keys.access_token_max_age,
        0 <= keys.refresh_token_max_age,
        now + keys.access_token_max_age * 60 <= i64::MAX,
        now + keys.refresh_token_max_age * 60 <= i64::MAX,
    ensures
        ({
            let pw_ok = bcrypt_verifies(password@, user@.password);
            let ca = spec_issued_claims(
                user@.id,
                access_uuid,
                now as int,
                keys.access_token_max_age as int,
            );
            let cr = spec_issued_claims(
                user@.id,
                refresh_uuid,
                now as int,
                keys.refresh_token_max_age as int,
            );
            let sa = rs256_signature(
                encode_utf8(keys.access_token_private_key@),
                encode_utf8(spec_message(ca)),
            );
            let sr = rs256_signature(
                encode_utf8(keys.refresh_token_private_key@),
                encode_utf8(spec_message(cr)),
            );
            &&& (r matches Err(e) && e == LoginError::InvalidCredentials <==> !pw_ok)
            &&& (r matches Err(e) && e == LoginError::SigningFailure <==> pw_ok && (sa is None
                || sr is None))
            &&& (r is Ok <==> pw_ok && sa is Some && sr is Some)
            &&& (r is Err ==> cache_entries(*final(cache)) == cache_entries(*old(cache)))
            &&& (r matches Ok(s) ==> {
                &&& s.access_token_details@.token == Some(
                    spec_message(ca) + seq!['.'] + sa.unwrap(),
                )
                &&& s.access_token_details@.token_uuid == access_uuid
                &&& s.access_token_details@.user_id == user@.id
                &&& s.access_token_details@.expires_in == Some(ca.exp)
                &&& s.refresh_token_details@.token == Some(
                    spec_message(cr) + seq!['.'] + sr.unwrap(),
                )
                &&& s.refresh_token_details@.token_uuid == refresh_uuid
                &&& s.refresh_token_details@.user_id == user@.id
                &&& s.refresh_token_details@.expires_in == Some(cr.exp)
                &&& cache_entries(*final(cache)) == cache_entries(*old(cache)).insert(
                    access_uuid,
                    s.access_token_details,
                ).insert(refresh_uuid, s.refresh_token_details)
                &&& s.access_cookie.name@ == ("access_token")@
                &&& s.access_cookie.value@ == s.access_token_details@.token.unwrap()
                &&& s.access_cookie.max_age_seconds == keys.access_token_max_age * 60
                &&& s.access_cookie.http_only
                &&& s.access_cookie.same_site_lax
                &&& s.access_cookie.path@ == ("/")@
                &&& s.refresh_cookie.name@ == ("refresh_token")@
                &&& s.refresh_cookie.value@ == s.refresh_token_details@.token.unwrap()
                &&& s.refresh_cookie.max_age_seconds == keys.refresh_token_max_age * 60
                &&& s.refresh_cookie.http_only
                &&& s.refresh_cookie.same_site_lax
                &&& s.refresh_cookie.path@ == ("/")@
                &&& s.logged_in_cookie.name@ == ("logged_in")@
                &&& s.logged_in_cookie.value@ == ("true")@
                &&& s.logged_in_cookie.max_age_seconds == keys.access_token_max_age * 60
                &&& !s.logged_in_cookie.http_only
                &&& s.logged_in_cookie.same_site_lax
                &&& s.logged_in_cookie.path@ == ("/")@
            })
        }),
{
    if !verify_password(password, user.get_hash().as_str()) {
        return Err(LoginError::InvalidCredentials);
    }
    let access_details = match generate_jwt_token(
        user.id(),
        keys.access_token_max_age,
        now,
        access_uuid,
        keys.access_token_private_key.as_str(),
    ) {
        Ok(d) => d,
        Err(_) => {
            return Err(LoginError::SigningFailure);
        },
    };
    let refresh_details = match generate_jwt_token(
        user.id(),
        keys.refresh_token_max_age,
        now,
        refresh_uuid,
        keys.refresh_token_private_key.as_str(),
    ) {
        Ok(d) => d,
        Err(_) => {
            return Err(LoginError::SigningFailure);
        },
    };
    cache.insert(access_uuid, access_details.duplicate());
    cache.insert(refresh_uuid, refresh_details.duplicate());
    let access_token_text = match &access_details.token {
        Some(t) => t.clone(),
        None => {
            assert(false);
            String::new()
        },
    };
    let refresh_token_text = match &refresh_details.token {
        Some(t) => t.clone(),
        None => {
            assert(false);
            String::new()
        },
    };
    let a_cookie = access_cookie(access_token_text.as_str(), keys.access_token_max_age);
    let r_cookie = refresh_cookie(refresh_token_text.as_str(), keys.refresh_token_max_age);
    let l_cookie = logged_in_cookie(keys.access_token_max_age);
    Ok(
        LoginSuccess {
            access_token_details: access_details,
            refresh_token_details: refresh_details,
            access_cookie: a_cookie,
            refresh_cookie: r_cookie,
            logged_in_cookie: l_cookie,
        },
    )
}

/// Logs the current request's access token out: its cache entry is removed,
/// and no other entry — in particular not the paired refresh token's — is
/// touched.
pub fn logout(cache: &mut TokenCache, access_token_uuid: u128)
    ensures
        cache_entries(*final(cache)) == cache_entries(*old(cache)).remove(access_token_uuid),
{
    let _ = cache.remove(access_token_uuid);
}

/// Reads the refresh credential before re-issuance: no cookie is
/// `MissingToken` (the HTTP layer answers it with 403), a verification
/// failure is passed through, a cache miss is fatal, and on success the
/// cached entry — not the presented token's own claim — names the user to
/// re-authenticate.
pub fn refresh_lookup(
    cache: &TokenCache,
    keys: &KeyMaterial,
    refresh_cookie_value: Option<&String>,
    now: i64,
) -> (r: Result<RefreshTicket, AuthError>)
    ensures
        match opt_str_view(refresh_cookie_value) {
            None => r matches Err(e) && e == AuthError::MissingToken,
            Some(tok) => match spec_verify_token(
                tok,
                encode_utf8(keys.refresh_token_public_key@),
                now as int,
            ) {
                Err(e) => r matches Err(e2) && e2 == e,
                Ok(v) => if !cache_entries(*cache).contains_key(v.token_uuid) {
                    r matches Err(e) && e == AuthError::NotCached
                } else {
                    r matches Ok(t) && t.refresh_token_uuid == v.token_uuid && t.user_id
                        == cache_entries(*cache)[v.token_uuid].user_id
                },
            },
        },
{
    let token = match refresh_cookie_value {
        Some(t) => t,
        None => {
            return Err(AuthError::MissingToken);
        },
    };
    let details = match verify_jwt_token(
        keys.refresh_token_public_key.as_str(),
        token.as_str(),
        now,
    ) {
        Ok(d) => d,
        Err(e) => {
            return Err(e);
        },
    };
    let cached = match cache.get(details.token_uuid) {
        Some(c) => c,
        None => {
            return Err(AuthError::NotCached);
        },
    };
    Ok(RefreshTicket { user_id: cached.user_id, refresh_token_uuid: details.token_uuid })
}

/// Re-issues the access token for the user the refresh entry named: a new
/// access token under a fresh identifier is signed and cached, and new
/// `access_token` and `logged_in` cookies are handed back. The refresh
/// token is not rotated, and the old access entry is left to expire on its
/// own.
pub fn refresh_issue(
    cache: &mut TokenCache,
    keys: &KeyMaterial,
    user: &User,
    now: i64,
    new_access_uuid: u128,
) -> (r: Result<RefreshSuccess, AuthError>)
    requires
        0 <= now,
        0 <= keys.access_token_max_age,
        now + keys.access_token_max_age * 60 <= i64::MAX,
    ensures
        ({
            let ca = spec_issued_claims(
                user@.id,
                new_access_uuid,
                now as int,
                keys.access_token_max_age as int,
            );
            let sa = rs256_signature(
                encode_utf8(keys.access_token_private_key@),
                encode_utf8(spec_message(ca)),
            );
            &&& (r is Ok <==> sa is Some)
            &&& (r matches Err(e) ==> e == AuthError::SigningFailure && cache_entries(
                *final(cache),
            ) == cache_entries(*old(cache)))
            &&& (r matches Ok(s) ==> {
                &&& s.access_token_details@.token == Some(
                    spec_message(ca) + seq!['.'] + sa.unwrap(),
                )
                &&& s.access_token_details@.token_uuid == new_access_uuid
                &&& s.access_token_details@.user_id == user@.id
                &&& s.access_token_details@.expires_in == Some(ca.exp)
                &&& cache_entries(*final(cache)) == cache_entries(*old(cache)).insert(
                    new_access_uuid,
                    s.access_token_details,
                )
                &&& s.access_cookie.name@ == ("access_token")@
                &&& s.access_cookie.value@ == s.access_token_details@.token.unwrap()
                &&& s.access_cookie.max_age_seconds == keys.access_token_max_age * 60
                &&& s.access_cookie.http_only
                &&& s.access_cookie.same_site_lax
                &&& s.access_cookie.path@ == ("/")@
                &&& s.logged_in_cookie.name@ == ("logged_in")@
                &&& s.logged_in_cookie.value@ == ("true")@
                &&& s.logged_in_cookie.max_age_seconds == keys.access_token_max_age * 60
                &&& !s.logged_in_cookie.http_only
                &&& s.logged_in_cookie.same_site_lax
                &&& s.logged_in_cookie.path@ == ("/")@
            })
        }),
{
    let access_details = match generate_jwt_token(
        user.id(),
        keys.access_token_max_age,
        now,
        new_access_uuid,
        keys.access_token_private_key.as_str(),
    ) {
        Ok(d) => d,
        Err(_) => {
            return Err(AuthError::SigningFailure);
        },
    };
    cache.insert(new_access_uuid, access_details.duplicate());
    let access_token_text = match &access_details.token {
        Some(t) => t.clone(),
        None => {
            assert(false);
            String::new()
        },
    };
    let a_cookie = access_cookie(access_token_text.as_str(), keys.access_token_max_age);
    let l_cookie = logged_in_cookie(keys.access_token_max_age);
    Ok(
        RefreshSuccess {
            access_token_details: access_details,
            access_cookie: a_cookie,
            logged_in_cookie: l_cookie,
        },
    )
}

/// Logout invalidates the access token alone: removing the access entry
/// leaves every other entry — the paired refresh token's in particular —
/// present and unchanged, while the access entry itself is gone.
pub proof fn lemma_logout_spares_refresh(
    entries: Map<u128, TokenDetails>,
    access_uuid: u128,
    refresh_uuid: u128,
)
    ensures
        access_uuid != refresh_uuid && entries.contains_key(refresh_uuid) ==> {
            &&& entries.remove(access_uuid).contains_key(refresh_uuid)
            &&& entries.remove(access_uuid)[refresh_uuid] == entries[refresh_uuid]
        },
        !entries.remove(access_uuid).contains_key(access_uuid),
{
}

} // verus!

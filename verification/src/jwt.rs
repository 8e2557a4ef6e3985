//! Signed tokens. A token is `b64(header) . b64(claims json) . signature`,
//! where the header is fixed, the claims json is the canonical text of
//! `claims::TokenClaims`, and the signature is an RS256 signature of
//! everything before the second dot. Building and checking the format is the
//! library's own verified logic; only the two signature primitives of the
//! jsonwebtoken crate are trusted.
use vstd::prelude::*;

use crate::b64::{b64u_decoding, b64u_encode, b64u_encoding, b64u_decode_utf8, dot_free};
use crate::claims::{
    claims_wf, emit_claims, expect_lit, lemma_parse_of_emitted, parse_claims, spec_claims_json,
    spec_parse_claims, str_len, ClaimsV, TokenClaims,
};
use crate::errors::AuthError;
use vstd::utf8::{decode_utf8, encode_utf8, encode_utf8_decode_utf8, encode_utf8_valid_utf8,
    valid_utf8};

verus! {

/// A token as the issuer hands it out: the signed string itself, the
/// identifier that keys its cache entry, the user it stands for, and its
/// expiry in epoch seconds. Verification paths strip the signed string.
#[derive(Clone, Debug)]
pub struct TokenDetails {
    pub token: Option<String>,
    pub token_uuid: u128,
    pub user_id: i32,
    pub expires_in: Option<i64>,
}

/// The mathematical content of a `TokenDetails`.
pub ghost struct TokenDetailsV {
    pub token: Option<Seq<char>>,
    pub token_uuid: u128,
    pub user_id: int,
    pub expires_in: Option<int>,
}

impl TokenDetails {
    /// A field-wise copy, equal to the original.
    pub fn duplicate(&self) -> (r: TokenDetails)
        ensures
            r == *self,
    {
        let r = TokenDetails {
            token: match &self.token {
                Some(t) => Some(t.clone()),
                None => None,
            },
            token_uuid: self.token_uuid,
            user_id: self.user_id,
            expires_in: self.expires_in,
        };
        assert(r.token == self.token);
        r
    }
}

impl View for TokenDetails {
    type V = TokenDetailsV;

    open spec fn view(&self) -> TokenDetailsV {
        TokenDetailsV {
            token: match self.token {
                Some(s) => Some(s@),
                None => None,
            },
            token_uuid: self.token_uuid,
            user_id: self.user_id as int,
            expires_in: match self.expires_in {
                Some(e) => Some(e as int),
                None => None,
            },
        }
    }
}

/// What jsonwebtoken's `crypto::sign` returns for RS256 over the given
/// message with the given PEM private key, or nothing when the key cannot be
/// used. RS256 is deterministic, so the result depends on the arguments
/// alone.
pub uninterp spec fn rs256_signature(key_pem: Seq<u8>, message: Seq<u8>) -> Option<Seq<char>>;

/// What jsonwebtoken's `crypto::verify` returns for RS256: whether the
/// signature text validates the message under the given PEM public key.
pub uninterp spec fn rs256_sig_valid(key_pem: Seq<u8>, message: Seq<u8>, signature: Seq<char>) -> bool;

/// Relies on jsonwebtoken's `EncodingKey::from_rsa_pem` and `crypto::sign`
/// with `Algorithm::RS256`: the signature text is base64url (dot-free), and
/// RSA PKCS#1 v1.5 signing is a function of key and message alone.
#[verifier::external_body]
fn sign_rs256(message: &str, private_key_pem: &str) -> (r: Option<String>)
    ensures
        match r {
            Some(sig) => {
                &&& rs256_signature(encode_utf8(private_key_pem@), encode_utf8(message@))
                    == Some(sig@)
                &&& dot_free(sig@)
            },
            None => rs256_signature(encode_utf8(private_key_pem@), encode_utf8(message@)) is None,
        },
{
    let key = match jsonwebtoken::EncodingKey::from_rsa_pem(private_key_pem.as_bytes()) {
        Ok(k) => k,
        Err(_) => {
            return None;
        },
    };
    jsonwebtoken::crypto::sign(message.as_bytes(), &key, jsonwebtoken::Algorithm::RS256).ok()
}

/// Relies on jsonwebtoken's `DecodingKey::from_rsa_pem` and `crypto::verify`
/// with `Algorithm::RS256`; an unusable key or an undecodable signature
/// counts as not validating.
#[verifier::external_body]
fn verify_rs256(signature: &str, message: &str, public_key_pem: &str) -> (r: bool)
    ensures
        r == rs256_sig_valid(
            encode_utf8(public_key_pem@),
            encode_utf8(message@),
            signature@,
        ),
{
    let key = match jsonwebtoken::DecodingKey::from_rsa_pem(public_key_pem.as_bytes()) {
        Ok(k) => k,
        Err(_) => {
            return false;
        },
    };
    jsonwebtoken::crypto::verify(signature, message.as_bytes(), &key, jsonwebtoken::Algorithm::RS256)
        .unwrap_or(false)
}

/// The fixed token header: RS256, JWT.
pub open spec fn spec_header() -> Seq<char> {
    ("{\"typ\":\"JWT\",\"alg\":\"RS256\"}")@
}

/// The claims a token issued at `now` carries: subject and identifier as
/// given, issue and not-before times equal to `now`, expiry `ttl_minutes`
/// minutes later.
pub open spec fn spec_issued_claims(user_id: int, token_uuid: u128, now: int, ttl_minutes: int) -> ClaimsV {
    ClaimsV {
        sub: user_id,
        token_uuid,
        exp: now + ttl_minutes * 60,
        iat: now,
        nbf: now,
    }
}

/// The signed part of a token: base64url of the header, a dot, base64url of
/// the claims text.
pub open spec fn spec_message(c: ClaimsV) -> Seq<char> {
    b64u_encoding(encode_utf8(spec_header())) + seq!['.'] + b64u_encoding(
        encode_utf8(spec_claims_json(c)),
    )
}

/// The first dot at or after `i`.
pub open spec fn spec_find_dot(s: Seq<char>, i: int) -> Option<int>
    decreases s.len() - i,
    when 0 <= i <= s.len()
{
    if i == s.len() {
        None
    } else if s[i] == '.' {
        Some(i)
    } else {
        spec_find_dot(s, i + 1)
    }
}

/// What a found dot position means.
pub proof fn lemma_find_dot_props(s: Seq<char>, i: int)
    requires
        0 <= i <= s.len(),
    ensures
        match spec_find_dot(s, i) {
            Some(j) => {
                &&& i <= j < s.len()
                &&& s[j] == '.'
                &&& forall|k: int| i <= k < j ==> #[trigger] s[k] != '.'
            },
            None => forall|k: int| i <= k < s.len() ==> #[trigger] s[k] != '.',
        },
    decreases s.len() - i,
{
    if i == s.len() {
    } else if s[i] == '.' {
    } else {
        lemma_find_dot_props(s, i + 1);
    }
}

/// Where the first dot is, given a dot-free stretch ending at a dot or at
/// the end of the text.
pub proof fn lemma_find_dot_at(s: Seq<char>, i: int, j: int)
    requires
        0 <= i <= j <= s.len(),
        forall|k: int| i <= k < j ==> #[trigger] s[k] != '.',
        j == s.len() || s[j] == '.',
    ensures
        spec_find_dot(s, i) == if j == s.len() {
            None::<int>
        } else {
            Some(j)
        },
    decreases j - i,
{
    if i == j {
    } else {
        lemma_find_dot_at(s, i + 1, j);
    }
}

/// A compact token split at its two dots: header text, payload text,
/// signature text. Nothing when the text does not hold exactly two dots.
pub open spec fn spec_split3(s: Seq<char>) -> Option<(Seq<char>, Seq<char>, Seq<char>)> {
    match spec_find_dot(s, 0) {
        None => None,
        Some(d1) => match spec_find_dot(s, d1 + 1) {
            None => None,
            Some(d2) => if spec_find_dot(s, d2 + 1) is None {
                Some(
                    (
                        s.subrange(0, d1),
                        s.subrange(d1 + 1, d2),
                        s.subrange(d2 + 1, s.len() as int),
                    ),
                )
            } else {
                None
            },
        },
    }
}

/// Joining three dot-free pieces with dots and splitting again yields the
/// pieces.
pub proof fn lemma_split3_of_parts(h: Seq<char>, p: Seq<char>, g: Seq<char>)
    requires
        dot_free(h),
        dot_free(p),
        dot_free(g),
    ensures
        spec_split3(h + seq!['.'] + p + seq!['.'] + g) == Some((h, p, g)),
{
    let s = h + seq!['.'] + p + seq!['.'] + g;
    let d1 = h.len() as int;
    let d2 = d1 + 1 + p.len() as int;
    assert(s.len() == h.len() + 1 + p.len() + 1 + g.len());
    assert(s[d1] == '.');
    assert(s[d2] == '.');
    assert(forall|k: int| 0 <= k < d1 ==> #[trigger] s[k] != '.') by {
        assert(forall|k: int| 0 <= k < d1 ==> #[trigger] s[k] == h[k]);
    };
    lemma_find_dot_at(s, 0, d1);
    assert(forall|k: int| d1 + 1 <= k < d2 ==> #[trigger] s[k] != '.') by {
        assert(forall|k: int| d1 + 1 <= k < d2 ==> #[trigger] s[k] == p[k - (d1 + 1)]);
    };
    lemma_find_dot_at(s, d1 + 1, d2);
    assert(forall|k: int| d2 + 1 <= k < s.len() ==> #[trigger] s[k] != '.') by {
        assert(forall|k: int| d2 + 1 <= k < s.len() ==> #[trigger] s[k] == g[k - (d2 + 1)]);
    };
    lemma_find_dot_at(s, d2 + 1, s.len() as int);
    assert(s.subrange(0, d1) =~= h);
    assert(s.subrange(d1 + 1, d2) =~= p);
    assert(s.subrange(d2 + 1, s.len() as int) =~= g);
}

/// Finds the first dot at or after `i`.
fn find_dot(s: &str, n: usize, i: usize) -> (r: Option<usize>)
    requires
        n == s@.len(),
        i <= n,
    ensures
        match r {
            Some(j) => spec_find_dot(s@, i as int) == Some(j as int) && i <= j < n,
            None => spec_find_dot(s@, i as int) is None,
        },
{
    let mut j: usize = i;
    while j < n
        invariant
            i <= j <= n,
            n == s@.len(),
            spec_find_dot(s@, i as int) == spec_find_dot(s@, j as int),
        decreases n - j,
    {
        if s.get_char(j) == '.' {
            return Some(j);
        }
        j = j + 1;
    }
    None
}

/// What verifying a token text yields at time `now` under a verification
/// key: the token's details with the signed string stripped, or the first
/// failure met on the way: a shape failure, a signature that does not
/// validate, or a time outside the token's window.
pub open spec fn spec_verify_token(token: Seq<char>, key_pem: Seq<u8>, now: int) -> Result<
    TokenDetailsV,
    AuthError,
> {
    match spec_split3(token) {
        None => Err(AuthError::MalformedToken),
        Some((h, p, g)) => {
            if !rs256_sig_valid(key_pem, encode_utf8(h + seq!['.'] + p), g) {
                Err(AuthError::SignatureInvalid)
            } else if h != b64u_encoding(encode_utf8(spec_header())) {
                Err(AuthError::MalformedToken)
            } else {
                match b64u_decoding(p) {
                    None => Err(AuthError::MalformedToken),
                    Some(bytes) => if !valid_utf8(bytes) {
                        Err(AuthError::MalformedToken)
                    } else {
                        match spec_parse_claims(decode_utf8(bytes)) {
                            None => Err(AuthError::MalformedToken),
                            Some(c) => if !(c.nbf <= now <= c.exp) {
                                Err(AuthError::Expired)
                            } else {
                                Ok(
                                    TokenDetailsV {
                                        token: None,
                                        token_uuid: c.token_uuid,
                                        user_id: c.sub,
                                        expires_in: Some(c.exp),
                                    },
                                )
                            },
                        }
                    },
                }
            }
        },
    }
}

/// Builds and signs a token for `user_id`, valid from `now` for
/// `ttl_minutes` minutes, carrying `token_uuid` as its identifier.
///
/// On success, the details hold the signed string, and — the round trip —
/// under any verification key that validates the signature, verifying that
/// string at any time within the token's window yields exactly the claims
/// that were signed.
pub fn generate_jwt_token(
    user_id: i32,
    ttl_minutes: i64,
    now: i64,
    token_uuid: u128,
    private_key_pem: &str,
) -> (r: Result<TokenDetails, AuthError>)
    requires
        0 <= now,
        0 <= ttl_minutes,
        now + ttl_minutes * 60 <= i64::MAX,
    ensures
        ({
            let c = spec_issued_claims(user_id as int, token_uuid, now as int, ttl_minutes as int);
            let sig = rs256_signature(encode_utf8(private_key_pem@), encode_utf8(spec_message(c)));
            &&& (r is Ok <==> sig is Some)
            &&& (r is Err ==> r == Err::<TokenDetails, AuthError>(AuthError::SigningFailure))
            &&& (r matches Ok(d) ==> {
                &&& d@.token == Some(spec_message(c) + seq!['.'] + sig.unwrap())
                &&& d@.token_uuid == token_uuid
                &&& d@.user_id == user_id as int
                &&& d@.expires_in == Some(c.exp)
                &&& forall|vkey: Seq<u8>, t: int|
                    rs256_sig_valid(vkey, encode_utf8(spec_message(c)), sig.unwrap()) && c.nbf <= t
                        <= c.exp ==> #[trigger] spec_verify_token(d@.token.unwrap(), vkey, t)
                        == Ok::<TokenDetailsV, AuthError>(
                        TokenDetailsV {
                            token: None,
                            token_uuid,
                            user_id: user_id as int,
                            expires_in: Some(c.exp),
                        },
                    )
                &&& forall|vkey: Seq<u8>, t: int|
                    rs256_sig_valid(vkey, encode_utf8(spec_message(c)), sig.unwrap()) && !(c.nbf
                        <= t <= c.exp) ==> #[trigger] spec_verify_token(d@.token.unwrap(), vkey, t)
                        == Err::<TokenDetailsV, AuthError>(AuthError::Expired)
            })
        }),
{
    let ttl_seconds = ttl_minutes * 60;
    let exp = now + ttl_seconds;
    let claims = TokenClaims { sub: user_id, token_uuid, exp, iat: now, nbf: now };
    let ghost c = spec_issued_claims(user_id as int, token_uuid, now as int, ttl_minutes as int);
    assert(claims@ == c);
    let payload = emit_claims(&claims);
    let header_b64 = b64u_encode("{\"typ\":\"JWT\",\"alg\":\"RS256\"}");
    let payload_b64 = b64u_encode(payload.as_str());
    let mut message = header_b64;
    message.append(".");
    message.append(payload_b64.as_str());
    proof {
        reveal_strlit(".");
        assert((".")@ =~= seq!['.']);
        assert(message@ =~= spec_message(c));
    }
    match sign_rs256(message.as_str(), private_key_pem) {
        Some(sig) => {
            let ghost hb = b64u_encoding(encode_utf8(spec_header()));
            let ghost pb = b64u_encoding(encode_utf8(spec_claims_json(c)));
            let mut token = message;
            token.append(".");
            token.append(sig.as_str());
            proof {
                reveal_strlit(".");
                assert(token@ =~= spec_message(c) + seq!['.'] + sig@);
                assert(token@ =~= hb + seq!['.'] + pb + seq!['.'] + sig@);
                lemma_split3_of_parts(hb, pb, sig@);
                assert forall|vkey: Seq<u8>, t: int|
                    rs256_sig_valid(vkey, encode_utf8(spec_message(c)), sig@) && c.nbf <= t
                        <= c.exp implies #[trigger] spec_verify_token(token@, vkey, t)
                    == Ok::<TokenDetailsV, AuthError>(
                    TokenDetailsV {
                        token: None,
                        token_uuid,
                        user_id: user_id as int,
                        expires_in: Some(c.exp),
                    },
                ) by {
                    assert(spec_split3(token@) == Some((hb, pb, sig@)));
                    assert(hb + seq!['.'] + pb =~= spec_message(c));
                    assert(rs256_sig_valid(vkey, encode_utf8(hb + seq!['.'] + pb), sig@));
                    assert(b64u_decoding(pb) == Some(encode_utf8(payload@)));
                    encode_utf8_valid_utf8(payload@);
                    encode_utf8_decode_utf8(payload@);
                    assert(decode_utf8(encode_utf8(payload@)) == payload@);
                    assert(payload@ == spec_claims_json(c));
                    lemma_parse_of_emitted(c);
                    assert(spec_parse_claims(payload@) == Some(c));
                };
                assert forall|vkey: Seq<u8>, t: int|
                    rs256_sig_valid(vkey, encode_utf8(spec_message(c)), sig@) && !(c.nbf <= t
                        <= c.exp) implies #[trigger] spec_verify_token(token@, vkey, t)
                    == Err::<TokenDetailsV, AuthError>(AuthError::Expired) by {
                    assert(spec_split3(token@) == Some((hb, pb, sig@)));
                    assert(hb + seq!['.'] + pb =~= spec_message(c));
                    assert(rs256_sig_valid(vkey, encode_utf8(hb + seq!['.'] + pb), sig@));
                    assert(b64u_decoding(pb) == Some(encode_utf8(payload@)));
                    encode_utf8_valid_utf8(payload@);
                    encode_utf8_decode_utf8(payload@);
                    assert(decode_utf8(encode_utf8(payload@)) == payload@);
                    assert(payload@ == spec_claims_json(c));
                    lemma_parse_of_emitted(c);
                    assert(spec_parse_claims(payload@) == Some(c));
                };
            }
            Ok(
                TokenDetails {
                    token: Some(token),
                    token_uuid,
                    user_id,
                    expires_in: Some(exp),
                },
            )
        },
        None => Err(AuthError::SigningFailure),
    }
}

/// Tokens wear their identifiers: two token texts that verify under the
/// same key and time to different identifiers cannot be the same text. So
/// issuing with pairwise distinct identifiers yields pairwise distinct
/// credentials.
pub proof fn lemma_distinct_ids_distinct_tokens(
    t1: Seq<char>,
    t2: Seq<char>,
    key_pem: Seq<u8>,
    now: int,
)
    ensures
        (spec_verify_token(t1, key_pem, now) matches Ok(v1) && spec_verify_token(
            t2,
            key_pem,
            now,
        ) matches Ok(v2) && v1.token_uuid != v2.token_uuid) ==> t1 != t2,
{
}

/// Verifies a token text against a PEM public key at time `now` and returns
/// its details, the signed string stripped. The result is exactly what
/// `spec_verify_token` says for every input.
pub fn verify_jwt_token(public_key_pem: &str, token: &str, now: i64) -> (r: Result<
    TokenDetails,
    AuthError,
>)
    ensures
        match spec_verify_token(token@, encode_utf8(public_key_pem@), now as int) {
            Ok(v) => r matches Ok(d) && d@ == v,
            Err(e) => r matches Err(e2) && e2 == e,
        },
{
    let n = token.unicode_len();
    let d1 = match find_dot(token, n, 0) {
        Some(j) => j,
        None => {
            return Err(AuthError::MalformedToken);
        },
    };
    let d2 = match find_dot(token, n, d1 + 1) {
        Some(j) => j,
        None => {
            return Err(AuthError::MalformedToken);
        },
    };
    match find_dot(token, n, d2 + 1) {
        Some(_) => {
            return Err(AuthError::MalformedToken);
        },
        None => {},
    }
    let h = token.substring_char(0, d1);
    let p = token.substring_char(d1 + 1, d2);
    let g = token.substring_char(d2 + 1, n);
    let msg = token.substring_char(0, d2);
    proof {
        lemma_find_dot_props(token@, 0);
        assert(msg@ =~= h@ + seq!['.'] + p@);
    }
    if !verify_rs256(g, msg, public_key_pem) {
        return Err(AuthError::SignatureInvalid);
    }
    let header_b64 = b64u_encode("{\"typ\":\"JWT\",\"alg\":\"RS256\"}");
    let hn = str_len(h);
    let same_header = hn == header_b64.as_str().unicode_len() && expect_lit(
        h,
        hn,
        0,
        header_b64.as_str(),
    );
    if !same_header {
        proof {
            assert(h@ != b64u_encoding(encode_utf8(spec_header()))) by {
                if h@ == header_b64@ {
                    assert(h@.subrange(0, header_b64@.len() as int) =~= header_b64@);
                }
            };
        }
        return Err(AuthError::MalformedToken);
    }
    proof {
        assert(h@.subrange(0, header_b64@.len() as int) =~= h@);
        assert(h@ == b64u_encoding(encode_utf8(spec_header())));
    }
    let payload = match b64u_decode_utf8(p) {
        Some(t) => t,
        None => {
            return Err(AuthError::MalformedToken);
        },
    };
    proof {
        encode_utf8_valid_utf8(payload@);
        encode_utf8_decode_utf8(payload@);
    }
    let claims = match parse_claims(payload.as_str()) {
        Some(cl) => cl,
        None => {
            return Err(AuthError::MalformedToken);
        },
    };
    if !(claims.nbf <= now && now <= claims.exp) {
        return Err(AuthError::Expired);
    }
    Ok(
        TokenDetails {
            token: None,
            token_uuid: claims.token_uuid,
            user_id: claims.sub,
            expires_in: Some(claims.exp),
        },
    )
}

} // verus!

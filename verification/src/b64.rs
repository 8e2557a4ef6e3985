//! Base64url text, the outer coat of every token piece. The encoding itself
//! is done by the base64 crate; its results are named here and the facts the
//! token format depends on are stated against the crate's documentation.
use base64::Engine;
use vstd::prelude::*;

use vstd::utf8::{encode_utf8, valid_utf8};

verus! {

/// What base64's URL_SAFE_NO_PAD `encode` returns for the given bytes.
pub uninterp spec fn b64u_encoding(bytes: Seq<u8>) -> Seq<char>;

/// What base64's URL_SAFE_NO_PAD `decode` returns for the given text:
/// the decoded bytes, or nothing when the text is not valid base64url.
pub uninterp spec fn b64u_decoding(text: Seq<char>) -> Option<Seq<u8>>;

/// No character of `s` is a dot. Base64url text is dot-free, which is what
/// lets a compact token be split unambiguously at its dots.
pub open spec fn dot_free(s: Seq<char>) -> bool {
    forall|i: int| 0 <= i < s.len() ==> #[trigger] s[i] != '.'
}

/// Relies on base64's `Engine::encode` with the URL_SAFE_NO_PAD engine: the
/// output is drawn from the URL-safe alphabet (`A`-`Z`, `a`-`z`, `0`-`9`,
/// `-`, `_`), which holds no dot, and `Engine::decode` inverts it.
#[verifier::external_body]
pub fn b64u_encode(s: &str) -> (r: String)
    ensures
        r@ == b64u_encoding(encode_utf8(s@)),
        b64u_decoding(r@) == Some(encode_utf8(s@)),
        dot_free(r@),
{
    base64::engine::general_purpose::URL_SAFE_NO_PAD.encode(s.as_bytes())
}

/// Relies on base64's `Engine::decode` with the URL_SAFE_NO_PAD engine; the
/// decoded bytes are handed back as text exactly when they are valid UTF-8.
#[verifier::external_body]
pub fn b64u_decode_utf8(s: &str) -> (r: Option<String>)
    ensures
        match r {
            Some(t) => b64u_decoding(s@) == Some(encode_utf8(t@)),
            None => !(b64u_decoding(s@) matches Some(b) && valid_utf8(b)),
        },
{
    match base64::engine::general_purpose::URL_SAFE_NO_PAD.decode(s.as_bytes()) {
        Ok(bytes) => String::from_utf8(bytes).ok(),
        Err(_) => None,
    }
}

} // verus!

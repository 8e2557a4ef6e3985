//! The signed payload of a token: the claims record, its canonical JSON text,
//! and a parser for that text, proved inverse to the formatter.
//!
//! The canonical text is
//! `{"sub":S,"token_uuid":"U","exp":E,"iat":I,"nbf":N}` where `S`, `E`, `I`
//! and `N` are decimal integers and `U` is the 32-digit lowercase hex text of
//! the token identifier.
use vstd::prelude::*;

use crate::decimal::{
    lemma_scan_of_dec, push_dec_i64, scan_i64, spec_dec, spec_scan_i64,
};
use crate::hexid::{
    lemma_hex32_shape, lemma_scan_of_hex32, push_hex32, scan_hex32, spec_hex32, spec_scan_hex32,
};

verus! {

/// The claims carried inside a signed token: subject (the user id), token
/// identifier, expiry, issue time, and not-before time, the last three in
/// epoch seconds.
#[derive(Clone, Copy, PartialEq, Eq, Structural, Debug)]
pub struct TokenClaims {
    pub sub: i32,
    pub token_uuid: u128,
    pub exp: i64,
    pub iat: i64,
    pub nbf: i64,
}

/// The mathematical content of a claims record.
pub ghost struct ClaimsV {
    pub sub: int,
    pub token_uuid: u128,
    pub exp: int,
    pub iat: int,
    pub nbf: int,
}

impl View for TokenClaims {
    type V = ClaimsV;

    open spec fn view(&self) -> ClaimsV {
        ClaimsV {
            sub: self.sub as int,
            token_uuid: self.token_uuid,
            exp: self.exp as int,
            iat: self.iat as int,
            nbf: self.nbf as int,
        }
    }
}

/// The fields of a claims record fit the machine types that carry them.
pub open spec fn claims_wf(c: ClaimsV) -> bool {
    &&& i32::MIN <= c.sub <= i32::MAX
    &&& i64::MIN <= c.exp <= i64::MAX
    &&& i64::MIN <= c.iat <= i64::MAX
    &&& i64::MIN <= c.nbf <= i64::MAX
}

/// The canonical JSON text of a claims record.
pub open spec fn spec_claims_json(c: ClaimsV) -> Seq<char> {
    ("{\"sub\":")@ + spec_dec(c.sub) + (",\"token_uuid\":\"")@ + spec_hex32(c.token_uuid) + (
    "\",\"exp\":")@ + spec_dec(c.exp) + (",\"iat\":")@ + spec_dec(c.iat) + (",\"nbf\":")@
        + spec_dec(c.nbf) + ("}")@
}

/// Writes the canonical JSON text of a claims record.
pub fn emit_claims(c: &TokenClaims) -> (r: String)
    ensures
        r@ == spec_claims_json(c@),
{
    let mut s = String::new();
    s.append("{\"sub\":");
    push_dec_i64(&mut s, c.sub as i64);
    s.append(",\"token_uuid\":\"");
    push_hex32(&mut s, c.token_uuid);
    s.append("\",\"exp\":");
    push_dec_i64(&mut s, c.exp);
    s.append(",\"iat\":");
    push_dec_i64(&mut s, c.iat);
    s.append(",\"nbf\":");
    push_dec_i64(&mut s, c.nbf);
    s.append("}");
    proof {
        assert(s@ =~= spec_claims_json(c@));
    }
    s
}

/// The literal `lit` stands in `s` at position `i`.
pub open spec fn match_lit(s: Seq<char>, i: int, lit: Seq<char>) -> bool {
    &&& 0 <= i
    &&& i + lit.len() <= s.len()
    &&& s.subrange(i, i + lit.len() as int) == lit
}

/// Checks whether the literal `lit` stands in `s` at position `i`.
pub(crate) fn expect_lit(s: &str, n: usize, i: usize, lit: &str) -> (r: bool)
    requires
        n == s@.len(),
        i <= n,
    ensures
        r == match_lit(s@, i as int, lit@),
{
    let litlen = lit.unicode_len();
    if n - i < litlen {
        return false;
    }
    let mut k: usize = 0;
    while k < litlen
        invariant
            0 <= k <= litlen,
            litlen == lit@.len(),
            i + litlen <= n,
            n == s@.len(),
            forall|m: int| 0 <= m < k ==> s@[i + m] == lit@[m],
        decreases litlen - k,
    {
        let a = s.get_char(i + k);
        let b = lit.get_char(k);
        if a != b {
            proof {
                assert(s@[i + k as int] != lit@[k as int]);
                assert(!match_lit(s@, i as int, lit@)) by {
                    if match_lit(s@, i as int, lit@) {
                        let kk = k as int;
                        assert(s@.subrange(i as int, i + lit@.len() as int)[kk] == lit@[kk]);
                    }
                };
            }
            return false;
        }
        k = k + 1;
    }
    proof {
        assert(s@.subrange(i as int, i + lit@.len() as int) =~= lit@);
    }
    true
}

/// What parsing the canonical claims text yields: the claims record, when the
/// whole of `s` is the canonical text of one.
pub open spec fn spec_parse_claims(s: Seq<char>) -> Option<ClaimsV> {
    let l1 = ("{\"sub\":")@;
    let l2 = (",\"token_uuid\":\"")@;
    let l3 = ("\",\"exp\":")@;
    let l4 = (",\"iat\":")@;
    let l5 = (",\"nbf\":")@;
    let l6 = ("}")@;
    if !match_lit(s, 0, l1) {
        None
    } else {
        match spec_scan_i64(s, l1.len() as int) {
            None => None,
            Some((sub, i2)) => if !(i32::MIN <= sub <= i32::MAX) {
                None
            } else if !match_lit(s, i2, l2) {
                None
            } else {
                match spec_scan_hex32(s, i2 + l2.len()) {
                    None => None,
                    Some((uuid, i3)) => if !match_lit(s, i3, l3) {
                        None
                    } else {
                        match spec_scan_i64(s, i3 + l3.len()) {
                            None => None,
                            Some((exp, i4)) => if !match_lit(s, i4, l4) {
                                None
                            } else {
                                match spec_scan_i64(s, i4 + l4.len()) {
                                    None => None,
                                    Some((iat, i5)) => if !match_lit(s, i5, l5) {
                                        None
                                    } else {
                                        match spec_scan_i64(s, i5 + l5.len()) {
                                            None => None,
                                            Some((nbf, i6)) => if i6 + l6.len() == s.len()
                                                && match_lit(s, i6, l6) {
                                                Some(
                                                    ClaimsV {
                                                        sub,
                                                        token_uuid: uuid as u128,
                                                        exp,
                                                        iat,
                                                        nbf,
                                                    },
                                                )
                                            } else {
                                                None
                                            },
                                        }
                                    },
                                }
                            },
                        }
                    },
                }
            },
        }
    }
}

/// Parses the canonical claims text.
pub fn parse_claims(s: &str) -> (r: Option<TokenClaims>)
    ensures
        match spec_parse_claims(s@) {
            Some(v) => r matches Some(c) && c@ == v,
            None => r is None,
        },
{
    let n = s.unicode_len();
    if !expect_lit(s, n, 0, "{\"sub\":") {
        return None;
    }
    let i1 = str_len("{\"sub\":");
    let (sub64, i2) = match scan_i64(s, n, i1) {
        Some(p) => p,
        None => {
            return None;
        },
    };
    if sub64 < i32::MIN as i64 || sub64 > i32::MAX as i64 {
        return None;
    }
    if !expect_lit(s, n, i2, ",\"token_uuid\":\"") {
        return None;
    }
    let i2b = i2 + str_len(",\"token_uuid\":\"");
    let (uuid, i3) = match scan_hex32(s, n, i2b) {
        Some(p) => p,
        None => {
            return None;
        },
    };
    if !expect_lit(s, n, i3, "\",\"exp\":") {
        return None;
    }
    let i3b = i3 + str_len("\",\"exp\":");
    let (exp, i4) = match scan_i64(s, n, i3b) {
        Some(p) => p,
        None => {
            return None;
        },
    };
    if !expect_lit(s, n, i4, ",\"iat\":") {
        return None;
    }
    let i4b = i4 + str_len(",\"iat\":");
    let (iat, i5) = match scan_i64(s, n, i4b) {
        Some(p) => p,
        None => {
            return None;
        },
    };
    if !expect_lit(s, n, i5, ",\"nbf\":") {
        return None;
    }
    let i5b = i5 + str_len(",\"nbf\":");
    let (nbf, i6) = match scan_i64(s, n, i5b) {
        Some(p) => p,
        None => {
            return None;
        },
    };
    if !expect_lit(s, n, i6, "}") {
        return None;
    }
    if i6 + str_len("}") != n {
        return None;
    }
    Some(
        TokenClaims {
            sub: sub64 as i32,
            token_uuid: uuid,
            exp,
            iat,
            nbf,
        },
    )
}

/// The character length of a string slice.
pub(crate) fn str_len(s: &str) -> (r: usize)
    ensures
        r == s@.len(),
{
    s.unicode_len()
}

/// Parsing the canonical text of a claims record yields that record back.
#[verifier::rlimit(100)]
pub proof fn lemma_parse_of_emitted(c: ClaimsV)
    requires
        claims_wf(c),
    ensures
        spec_parse_claims(spec_claims_json(c)) == Some(c),
{
    let l1 = ("{\"sub\":")@;
    let l2 = (",\"token_uuid\":\"")@;
    let l3 = ("\",\"exp\":")@;
    let l4 = (",\"iat\":")@;
    let l5 = (",\"nbf\":")@;
    let l6 = ("}")@;
    reveal_strlit("{\"sub\":");
    reveal_strlit(",\"token_uuid\":\"");
    reveal_strlit("\",\"exp\":");
    reveal_strlit(",\"iat\":");
    reveal_strlit(",\"nbf\":");
    reveal_strlit("}");
    let s = spec_claims_json(c);
    let dsub = spec_dec(c.sub);
    let dhex = spec_hex32(c.token_uuid);
    let dexp = spec_dec(c.exp);
    let diat = spec_dec(c.iat);
    let dnbf = spec_dec(c.nbf);
    let i1 = l1.len() as int;
    let i2 = i1 + dsub.len() as int;
    let i2b = i2 + l2.len() as int;
    let i3 = i2b + 32;
    let i3b = i3 + l3.len() as int;
    let i4 = i3b + dexp.len() as int;
    let i4b = i4 + l4.len() as int;
    let i5 = i4b + diat.len() as int;
    let i5b = i5 + l5.len() as int;
    let i6 = i5b + dnbf.len() as int;
    lemma_hex32_shape(c.token_uuid);
    assert(s.len() == i6 + l6.len());
    // the opening literal
    assert(s.subrange(0, i1) =~= l1);
    assert(match_lit(s, 0, l1));
    // the subject
    assert(s.subrange(0, i1) + spec_dec(c.sub as i64 as int) + (l2 + dhex + l3 + dexp + l4 + diat
        + l5 + dnbf + l6) =~= s);
    lemma_scan_of_dec(s, i1, c.sub as i64, l2 + dhex + l3 + dexp + l4 + diat + l5 + dnbf + l6);
    assert(spec_scan_i64(s, i1) == Some((c.sub, i2)));
    // the token identifier
    assert(s.subrange(i2, i2b) =~= l2);
    assert(match_lit(s, i2, l2));
    assert(s.subrange(i2b, i3) =~= dhex);
    lemma_scan_of_hex32(s, i2b, c.token_uuid);
    assert(spec_scan_hex32(s, i2b) == Some((c.token_uuid as int, i3)));
    // the expiry
    assert(s.subrange(i3, i3b) =~= l3);
    assert(match_lit(s, i3, l3));
    assert(s.subrange(0, i3b) + spec_dec(c.exp as i64 as int) + (l4 + diat + l5 + dnbf + l6)
        =~= s);
    lemma_scan_of_dec(s, i3b, c.exp as i64, l4 + diat + l5 + dnbf + l6);
    assert(spec_scan_i64(s, i3b) == Some((c.exp, i4)));
    // the issue time
    assert(s.subrange(i4, i4b) =~= l4);
    assert(match_lit(s, i4, l4));
    assert(s.subrange(0, i4b) + spec_dec(c.iat as i64 as int) + (l5 + dnbf + l6) =~= s);
    lemma_scan_of_dec(s, i4b, c.iat as i64, l5 + dnbf + l6);
    assert(spec_scan_i64(s, i4b) == Some((c.iat, i5)));
    // the not-before time
    assert(s.subrange(i5, i5b) =~= l5);
    assert(match_lit(s, i5, l5));
    assert(s.subrange(0, i5b) + spec_dec(c.nbf as i64 as int) + l6 =~= s);
    lemma_scan_of_dec(s, i5b, c.nbf as i64, l6);
    assert(spec_scan_i64(s, i5b) == Some((c.nbf, i6)));
    // the closing brace
    assert(s.subrange(i6, i6 + l6.len() as int) =~= l6);
    assert(match_lit(s, i6, l6));
    assert(spec_parse_claims(s) == Some(c));
}

} // verus!

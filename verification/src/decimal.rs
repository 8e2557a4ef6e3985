//! Decimal text for the integer fields of a token's claims: formatting of
//! signed 64-bit values and scanning of digit runs, with proofs that the two
//! are inverse to each other.
use vstd::prelude::*;

verus! {

/// A decimal digit.
pub open spec fn is_dec_digit(c: char) -> bool {
    '0' <= c && c <= '9'
}

/// The numeric value of a decimal digit.
pub open spec fn dec_digit_val(c: char) -> int {
    c as int - '0' as int
}

/// The digit character for a value below ten.
pub open spec fn dec_digit_char(d: int) -> char {
    if d == 0 {
        '0'
    } else if d == 1 {
        '1'
    } else if d == 2 {
        '2'
    } else if d == 3 {
        '3'
    } else if d == 4 {
        '4'
    } else if d == 5 {
        '5'
    } else if d == 6 {
        '6'
    } else if d == 7 {
        '7'
    } else if d == 8 {
        '8'
    } else {
        '9'
    }
}

/// The decimal text of a natural number: no sign, no leading zeros.
pub open spec fn spec_udec(n: nat) -> Seq<char>
    decreases n,
{
    if n < 10 {
        seq![dec_digit_char(n as int)]
    } else {
        spec_udec(n / 10).push(dec_digit_char((n % 10) as int))
    }
}

/// The decimal text of an integer: a minus sign before the magnitude when negative.
pub open spec fn spec_dec(n: int) -> Seq<char> {
    if n < 0 {
        seq!['-'] + spec_udec((-n) as nat)
    } else {
        spec_udec(n as nat)
    }
}

/// Every character of `s` is a decimal digit.
pub open spec fn all_dec_digits(s: Seq<char>) -> bool {
    forall|i: int| 0 <= i < s.len() ==> is_dec_digit(#[trigger] s[i])
}

/// The value of a run of decimal digits, most significant first.
pub open spec fn dec_seq_val(s: Seq<char>) -> int
    decreases s.len(),
{
    if s.len() == 0 {
        0
    } else {
        dec_seq_val(s.drop_last()) * 10 + dec_digit_val(s.last())
    }
}

/// The formatted text of a natural number is made of digits, is never empty,
/// and evaluates back to the number.
pub proof fn lemma_udec_digits(n: nat)
    ensures
        all_dec_digits(spec_udec(n)),
        spec_udec(n).len() >= 1,
        dec_seq_val(spec_udec(n)) == n,
    decreases n,
{
    if n < 10 {
        assert(spec_udec(n) =~= seq![dec_digit_char(n as int)]);
        assert(spec_udec(n).drop_last() =~= Seq::<char>::empty());
        assert(spec_udec(n).last() == dec_digit_char(n as int));
        assert(dec_digit_val(dec_digit_char(n as int)) == n);
        assert(dec_seq_val(spec_udec(n)) == dec_seq_val(Seq::<char>::empty()) * 10
            + dec_digit_val(dec_digit_char(n as int)));
    } else {
        lemma_udec_digits(n / 10);
        assert(spec_udec(n).drop_last() =~= spec_udec(n / 10));
        assert(dec_digit_val(dec_digit_char((n % 10) as int)) == n % 10);
        assert(dec_seq_val(spec_udec(n)) == (n / 10) * 10 + n % 10);
    }
}

/// A run of decimal digits has a value that is not negative.
pub proof fn lemma_dec_seq_val_nonneg(s: Seq<char>)
    requires
        all_dec_digits(s),
    ensures
        dec_seq_val(s) >= 0,
    decreases s.len(),
{
    if s.len() > 0 {
        assert(all_dec_digits(s.drop_last()));
        lemma_dec_seq_val_nonneg(s.drop_last());
    }
}

/// Appends one decimal digit to a string.
fn push_digit(s: &mut String, d: u8)
    requires
        d < 10,
    ensures
        final(s)@ == old(s)@.push(dec_digit_char(d as int)),
{
    proof {
        reveal_strlit("0");
        reveal_strlit("1");
        reveal_strlit("2");
        reveal_strlit("3");
        reveal_strlit("4");
        reveal_strlit("5");
        reveal_strlit("6");
        reveal_strlit("7");
        reveal_strlit("8");
        reveal_strlit("9");
    }
    match d {
        0 => s.append("0"),
        1 => s.append("1"),
        2 => s.append("2"),
        3 => s.append("3"),
        4 => s.append("4"),
        5 => s.append("5"),
        6 => s.append("6"),
        7 => s.append("7"),
        8 => s.append("8"),
        _ => s.append("9"),
    }
    proof {
        assert(final(s)@ =~= old(s)@.push(dec_digit_char(d as int)));
    }
}

/// Appends the decimal text of a natural number.
fn push_udec(s: &mut String, n: u64)
    ensures
        final(s)@ == old(s)@ + spec_udec(n as nat),
    decreases n,
{
    if n < 10 {
        push_digit(s, n as u8);
        proof {
            assert(final(s)@ =~= old(s)@ + spec_udec(n as nat));
        }
    } else {
        push_udec(s, n / 10);
        push_digit(s, (n % 10) as u8);
        proof {
            assert(final(s)@ =~= old(s)@ + spec_udec(n as nat));
        }
    }
}

/// Appends the decimal text of a signed 64-bit integer.
pub fn push_dec_i64(s: &mut String, n: i64)
    ensures
        final(s)@ == old(s)@ + spec_dec(n as int),
{
    proof {
        reveal_strlit("-");
    }
    if n < 0 {
        s.append("-");
        let m: u64 = ((-(n + 1)) as u64) + 1;
        assert(m == -(n as int));
        push_udec(s, m);
        proof {
            assert(final(s)@ =~= old(s)@ + spec_dec(n as int));
        }
    } else {
        push_udec(s, n as u64);
    }
}

/// The first position at or after `i` that does not hold a decimal digit.
pub open spec fn dec_span_end(s: Seq<char>, i: int) -> int
    decreases s.len() - i,
    when 0 <= i <= s.len()
{
    if i == s.len() || !is_dec_digit(s[i]) {
        i
    } else {
        dec_span_end(s, i + 1)
    }
}

/// Bounds and content of a digit span.
pub proof fn lemma_dec_span_end(s: Seq<char>, i: int)
    requires
        0 <= i <= s.len(),
    ensures
        i <= dec_span_end(s, i) <= s.len(),
        forall|j: int| i <= j < dec_span_end(s, i) ==> is_dec_digit(#[trigger] s[j]),
        dec_span_end(s, i) == s.len() || !is_dec_digit(s[dec_span_end(s, i)]),
    decreases s.len() - i,
{
    if i == s.len() || !is_dec_digit(s[i]) {
    } else {
        lemma_dec_span_end(s, i + 1);
    }
}

/// A digit span ends exactly where the digits written into `s` end.
pub proof fn lemma_dec_span_end_of_digits(s: Seq<char>, i: int, d: Seq<char>)
    requires
        0 <= i,
        i + d.len() <= s.len(),
        all_dec_digits(d),
        s.subrange(i, i + d.len() as int) == d,
        i + d.len() == s.len() || !is_dec_digit(s[i + d.len()]),
    ensures
        dec_span_end(s, i) == i + d.len(),
    decreases d.len(),
{
    if d.len() == 0 {
    } else {
        assert(s[i] == d[0]);
        assert(is_dec_digit(s[i]));
        assert(s.subrange(i + 1, i + d.len() as int) =~= d.subrange(1, d.len() as int));
        assert(all_dec_digits(d.subrange(1, d.len() as int)));
        lemma_dec_span_end_of_digits(s, i + 1, d.subrange(1, d.len() as int));
    }
}

/// What scanning a digit run yields: the value of the span and the position
/// after it, or nothing when the span is empty or its value does not fit in
/// an unsigned 64-bit integer.
pub open spec fn spec_scan_udec(s: Seq<char>, i: int) -> Option<(int, int)> {
    let e = dec_span_end(s, i);
    if e == i {
        None
    } else if dec_seq_val(s.subrange(i, e)) > u64::MAX {
        None
    } else {
        Some((dec_seq_val(s.subrange(i, e)), e))
    }
}

/// Scans a run of decimal digits starting at `i`, returning its value and the
/// position after the run.
pub fn scan_udec(s: &str, n: usize, i: usize) -> (r: Option<(u64, usize)>)
    requires
        n == s@.len(),
        i <= n,
    ensures
        match r {
            Some((v, j)) => {
                &&& spec_scan_udec(s@, i as int) == Some((v as int, j as int))
                &&& i < j <= n
            },
            None => spec_scan_udec(s@, i as int) is None,
        },
{
    proof {
        lemma_dec_span_end(s@, i as int);
    }
    let ghost e = dec_span_end(s@, i as int);
    let mut j: usize = i;
    let mut acc: u64 = 0;
    let mut overflowed: bool = false;
    let mut done: bool = false;
    while !done && j < n
        invariant
            done ==> j == e,
            i <= j <= n,
            n == s@.len(),
            e == dec_span_end(s@, i as int),
            i <= e <= n,
            j <= e,
            forall|k: int| i <= k < e ==> is_dec_digit(#[trigger] s@[k]),
            e == s@.len() || !is_dec_digit(s@[e as int]),
            dec_span_end(s@, j as int) == e,
            !overflowed ==> acc == dec_seq_val(s@.subrange(i as int, j as int)),
            overflowed ==> dec_seq_val(s@.subrange(i as int, j as int)) > u64::MAX,
            overflowed ==> j > i,
        decreases n - j, if done { 0int } else { 1int },
    {
        let c = s.get_char(j);
        if !('0' <= c && c <= '9') {
            done = true;
            proof {
                assert(!is_dec_digit(s@[j as int]));
                assert(j == e) by {
                    if j < e {
                        assert(is_dec_digit(s@[j as int]));
                    }
                };
            }
        } else {
        let d: u64 = (c as u32 as u64) - ('0' as u32 as u64);
        assert(is_dec_digit(s@[j as int]));
        assert(d == dec_digit_val(s@[j as int])) by {
            assert(c == s@[j as int]);
        };
        proof {
            assert(s@.subrange(i as int, j + 1 as int).drop_last() =~= s@.subrange(
                i as int,
                j as int,
            ));
            assert(s@.subrange(i as int, j + 1 as int).last() == s@[j as int]);
            assert(forall|k: int| i <= k < j + 1 ==> is_dec_digit(#[trigger] s@[k]));
            assert(all_dec_digits(s@.subrange(i as int, j + 1))) by {
                assert(forall|k: int|
                    0 <= k < j + 1 - i ==> is_dec_digit(
                        #[trigger] s@.subrange(i as int, j + 1)[k],
                    ));
            };
            lemma_dec_seq_val_nonneg(s@.subrange(i as int, j + 1));
        }
        if !overflowed {
            if acc > (u64::MAX - d) / 10 {
                overflowed = true;
                proof {
                    assert(dec_seq_val(s@.subrange(i as int, j + 1)) == acc * 10 + d);
                    assert(acc * 10 + d > u64::MAX) by (nonlinear_arith)
                        requires
                            acc > (u64::MAX - d) / 10,
                            d < 10,
                            0 <= d,
                            acc <= u64::MAX,
                    ;
                }
            } else {
                proof {
                    assert(acc * 10 + d <= u64::MAX) by (nonlinear_arith)
                        requires
                            acc <= (u64::MAX - d) / 10,
                            0 <= acc,
                            d < 10,
                            0 <= d,
                    ;
                }
                acc = acc * 10 + d;
            }
        } else {
            proof {
                lemma_dec_seq_val_nonneg(s@.subrange(i as int, j as int));
                assert(dec_seq_val(s@.subrange(i as int, j + 1)) == dec_seq_val(
                    s@.subrange(i as int, j as int),
                ) * 10 + d);
                assert(dec_seq_val(s@.subrange(i as int, j as int)) * 10 >= dec_seq_val(
                    s@.subrange(i as int, j as int),
                )) by (nonlinear_arith)
                    requires
                        dec_seq_val(s@.subrange(i as int, j as int)) >= 0,
                ;
            }
        }
        j = j + 1;
        }
    }
    proof {
        assert(j == e) by {
            if !done {
                assert(j == n);
                if j < e {
                    assert(is_dec_digit(s@[j as int]));
                }
            }
        };
    }
    if j == i {
        proof {
            assert(spec_scan_udec(s@, i as int) is None);
        }
        None
    } else if overflowed {
        None
    } else {
        proof {
            assert(s@.subrange(i as int, e) =~= s@.subrange(i as int, j as int));
        }
        Some((acc, j))
    }
}

/// What scanning a signed decimal number yields: an optional minus sign and a
/// digit run whose signed value fits in a signed 64-bit integer.
pub open spec fn spec_scan_i64(s: Seq<char>, i: int) -> Option<(int, int)> {
    if 0 <= i < s.len() && s[i] == '-' {
        match spec_scan_udec(s, i + 1) {
            Some((m, j)) => if m <= 0x8000_0000_0000_0000 {
                Some((-m, j))
            } else {
                None
            },
            None => None,
        }
    } else {
        match spec_scan_udec(s, i) {
            Some((m, j)) => if m <= i64::MAX {
                Some((m, j))
            } else {
                None
            },
            None => None,
        }
    }
}

/// Scans a signed decimal number starting at `i`.
pub fn scan_i64(s: &str, n: usize, i: usize) -> (r: Option<(i64, usize)>)
    requires
        n == s@.len(),
        i <= n,
    ensures
        match r {
            Some((v, j)) => {
                &&& spec_scan_i64(s@, i as int) == Some((v as int, j as int))
                &&& i < j <= n
            },
            None => spec_scan_i64(s@, i as int) is None,
        },
{
    if i < n && s.get_char(i) == '-' {
        match scan_udec(s, n, i + 1) {
            Some((m, j)) => {
                if m <= 0x8000_0000_0000_0000 {
                    let v: i64 = if m == 0x8000_0000_0000_0000 {
                        i64::MIN
                    } else {
                        -(m as i64)
                    };
                    assert(v as int == -(m as int));
                    Some((v, j))
                } else {
                    None
                }
            },
            None => None,
        }
    } else {
        match scan_udec(s, n, i) {
            Some((m, j)) => {
                if m <= i64::MAX as u64 {
                    Some((m as i64, j))
                } else {
                    None
                }
            },
            None => None,
        }
    }
}

/// Scanning starts with the sign or first digit that formatting wrote, so a
/// formatted signed value scans back to itself when what follows it is not a
/// digit.
pub proof fn lemma_scan_of_dec(s: Seq<char>, i: int, n: i64, rest: Seq<char>)
    requires
        0 <= i,
        s.subrange(0, i) + spec_dec(n as int) + rest =~= s,
        i + spec_dec(n as int).len() + rest.len() == s.len(),
        rest.len() == 0 || !is_dec_digit(rest[0]),
    ensures
        spec_scan_i64(s, i) == Some((n as int, i + spec_dec(n as int).len())),
{
    let d = spec_dec(n as int);
    assert(s.subrange(i, i + d.len() as int) =~= d);
    if n < 0 {
        let m = (-(n as int)) as nat;
        lemma_udec_digits(m);
        let u = spec_udec(m);
        assert(d =~= seq!['-'] + u);
        assert(s[i] == '-');
        assert(s.subrange(i + 1, i + 1 + u.len() as int) =~= u);
        assert(i + 1 + u.len() == s.len() || !is_dec_digit(s[i + 1 + u.len()])) by {
            if i + 1 + u.len() < s.len() {
                assert(s[i + 1 + u.len()] == rest[0]);
            }
        };
        lemma_dec_span_end_of_digits(s, i + 1, u);
        assert(dec_span_end(s, i + 1) == i + 1 + u.len());
        assert(s.subrange(i + 1, i + 1 + u.len() as int) == u);
        assert(dec_seq_val(u) == m);
        assert(m <= 0x8000_0000_0000_0000);
        assert(spec_scan_udec(s, i + 1) == Some((m as int, i + 1 + u.len() as int)));
        assert(spec_scan_i64(s, i) == Some((n as int, i + d.len() as int)));
    } else {
        let m = n as nat;
        lemma_udec_digits(m);
        let u = spec_udec(m);
        assert(d =~= u);
        assert(s[i] == u[0]);
        assert(is_dec_digit(s[i]));
        assert(s[i] != '-');
        assert(s.subrange(i, i + u.len() as int) =~= u);
        assert(i + u.len() == s.len() || !is_dec_digit(s[i + u.len()])) by {
            if i + u.len() < s.len() {
                assert(s[i + u.len()] == rest[0]);
            }
        };
        lemma_dec_span_end_of_digits(s, i, u);
        assert(s.subrange(i, i + u.len() as int) == u);
        assert(dec_seq_val(u) == m);
        assert(spec_scan_udec(s, i) == Some((m as int, i + u.len() as int)));
        assert(spec_scan_i64(s, i) == Some((n as int, i + d.len() as int)));
    }
}

} // verus!

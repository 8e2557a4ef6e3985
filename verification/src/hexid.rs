//! Hexadecimal text for token identifiers: a 128-bit identifier is carried in
//! a token's claims as exactly 32 lowercase hex digits. Formatting and
//! scanning are proved inverse to each other.
use vstd::prelude::*;

verus! {

/// A lowercase hexadecimal digit.
pub open spec fn is_hex_digit(c: char) -> bool {
    ('0' <= c && c <= '9') || ('a' <= c && c <= 'f')
}

/// The numeric value of a lowercase hexadecimal digit.
pub open spec fn hex_digit_val(c: char) -> int {
    if '0' <= c && c <= '9' {
        c as int - '0' as int
    } else {
        c as int - 'a' as int + 10
    }
}

/// The lowercase digit character for a value below sixteen.
pub open spec fn hex_digit_char(d: int) -> char {
    if d == 0 {
        '0'
    } else if d == 1 {
        '1'
    } else if d == 2 {
        '2'
    } else if d == 3 {
        '3'
    } else if d == 4 {
        '4'
    } else if d == 5 {
        '5'
    } else if d == 6 {
        '6'
    } else if d == 7 {
        '7'
    } else if d == 8 {
        '8'
    } else if d == 9 {
        '9'
    } else if d == 10 {
        'a'
    } else if d == 11 {
        'b'
    } else if d == 12 {
        'c'
    } else if d == 13 {
        'd'
    } else if d == 14 {
        'e'
    } else {
        'f'
    }
}

/// Sixteen to the given power.
pub open spec fn pow16(w: nat) -> int
    decreases w,
{
    if w == 0 {
        1
    } else {
        16 * pow16((w - 1) as nat)
    }
}

/// The hexadecimal text of `n` written with exactly `w` digits, leading
/// zeros included.
pub open spec fn spec_hex_fixed(n: int, w: nat) -> Seq<char>
    decreases w,
{
    if w == 0 {
        Seq::<char>::empty()
    } else {
        spec_hex_fixed(n / 16, (w - 1) as nat).push(hex_digit_char(n % 16))
    }
}

/// The 32-digit hexadecimal text of a 128-bit identifier.
pub open spec fn spec_hex32(u: u128) -> Seq<char> {
    spec_hex_fixed(u as int, 32)
}

/// Every character of `s` is a lowercase hexadecimal digit.
pub open spec fn all_hex_digits(s: Seq<char>) -> bool {
    forall|i: int| 0 <= i < s.len() ==> is_hex_digit(#[trigger] s[i])
}

/// The value of a run of hexadecimal digits, most significant first.
pub open spec fn hex_seq_val(s: Seq<char>) -> int
    decreases s.len(),
{
    if s.len() == 0 {
        0
    } else {
        hex_seq_val(s.drop_last()) * 16 + hex_digit_val(s.last())
    }
}

/// Fixed-width hexadecimal text has the stated width, is made of digits, and
/// evaluates back to the number when the number fits the width.
pub proof fn lemma_hex_fixed(n: int, w: nat)
    requires
        0 <= n < pow16(w),
    ensures
        spec_hex_fixed(n, w).len() == w,
        all_hex_digits(spec_hex_fixed(n, w)),
        hex_seq_val(spec_hex_fixed(n, w)) == n,
    decreases w,
{
    if w == 0 {
    } else {
        assert(n / 16 < pow16((w - 1) as nat)) by (nonlinear_arith)
            requires
                0 <= n,
                n < 16 * pow16((w - 1) as nat),
        ;
        lemma_hex_fixed(n / 16, (w - 1) as nat);
        let s = spec_hex_fixed(n, w);
        assert(s.drop_last() =~= spec_hex_fixed(n / 16, (w - 1) as nat));
        assert(hex_digit_val(hex_digit_char(n % 16)) == n % 16);
        assert(hex_seq_val(s) == (n / 16) * 16 + n % 16);
    }
}

/// Appends one lowercase hexadecimal digit to a string.
fn push_hex_digit(s: &mut String, d: u8)
    requires
        d < 16,
    ensures
        final(s)@ == old(s)@.push(hex_digit_char(d as int)),
{
    proof {
        reveal_strlit("0");
        reveal_strlit("1");
        reveal_strlit("2");
        reveal_strlit("3");
        reveal_strlit("4");
        reveal_strlit("5");
        reveal_strlit("6");
        reveal_strlit("7");
        reveal_strlit("8");
        reveal_strlit("9");
        reveal_strlit("a");
        reveal_strlit("b");
        reveal_strlit("c");
        reveal_strlit("d");
        reveal_strlit("e");
        reveal_strlit("f");
    }
    match d {
        0 => s.append("0"),
        1 => s.append("1"),
        2 => s.append("2"),
        3 => s.append("3"),
        4 => s.append("4"),
        5 => s.append("5"),
        6 => s.append("6"),
        7 => s.append("7"),
        8 => s.append("8"),
        9 => s.append("9"),
        10 => s.append("a"),
        11 => s.append("b"),
        12 => s.append("c"),
        13 => s.append("d"),
        14 => s.append("e"),
        _ => s.append("f"),
    }
    proof {
        assert(final(s)@ =~= old(s)@.push(hex_digit_char(d as int)));
    }
}

/// Appends the hexadecimal text of `u`, written with exactly `w` digits.
fn push_hex_fixed(s: &mut String, u: u128, w: u32)
    ensures
        final(s)@ == old(s)@ + spec_hex_fixed(u as int, w as nat),
    decreases w,
{
    if w == 0 {
        proof {
            assert(final(s)@ =~= old(s)@ + spec_hex_fixed(u as int, 0));
        }
    } else {
        push_hex_fixed(s, u / 16, w - 1);
        push_hex_digit(s, (u % 16) as u8);
        proof {
            assert(final(s)@ =~= old(s)@ + spec_hex_fixed(u as int, w as nat));
        }
    }
}

/// Appends the 32-digit hexadecimal text of a 128-bit identifier.
pub fn push_hex32(s: &mut String, u: u128)
    ensures
        final(s)@ == old(s)@ + spec_hex32(u),
{
    push_hex_fixed(s, u, 32);
}

/// The 32-digit hexadecimal text of a 128-bit identifier, as a new string.
pub fn hex32_string(u: u128) -> (r: String)
    ensures
        r@ == spec_hex32(u),
{
    let mut s = String::new();
    push_hex32(&mut s, u);
    proof {
        assert(s@ =~= spec_hex32(u));
    }
    s
}

/// What scanning a 32-digit identifier yields: the identifier's value and the
/// position after it, or nothing when fewer than 32 hexadecimal digits stand
/// at `i`.
pub open spec fn spec_scan_hex32(s: Seq<char>, i: int) -> Option<(int, int)> {
    if i + 32 <= s.len() && all_hex_digits(s.subrange(i, i + 32)) {
        Some((hex_seq_val(s.subrange(i, i + 32)), i + 32))
    } else {
        None
    }
}

/// Scans exactly 32 lowercase hexadecimal digits starting at `i`.
pub fn scan_hex32(s: &str, n: usize, i: usize) -> (r: Option<(u128, usize)>)
    requires
        n == s@.len(),
        i <= n,
    ensures
        match r {
            Some((v, j)) => spec_scan_hex32(s@, i as int) == Some((v as int, j as int)),
            None => spec_scan_hex32(s@, i as int) is None,
        },
{
    if n - i < 32 {
        return None;
    }
    let mut k: usize = 0;
    let mut acc: u128 = 0;
    while k < 32
        invariant
            0 <= k <= 32,
            i + 32 <= n,
            n == s@.len(),
            all_hex_digits(s@.subrange(i as int, i + k as int)),
            acc == hex_seq_val(s@.subrange(i as int, i + k as int)),
            acc < pow16(k as nat),
        decreases 32 - k,
    {
        let c = s.get_char(i + k);
        let d: u128 = if '0' <= c && c <= '9' {
            (c as u32 as u128) - ('0' as u32 as u128)
        } else if 'a' <= c && c <= 'f' {
            (c as u32 as u128) - ('a' as u32 as u128) + 10
        } else {
            proof {
                assert(!is_hex_digit(s@[i + k as int]));
                assert(spec_scan_hex32(s@, i as int) is None) by {
                    if i + 32 <= s@.len() && all_hex_digits(s@.subrange(i as int, i + 32)) {
                        assert(is_hex_digit(s@.subrange(i as int, i + 32)[k as int]));
                    }
                };
            }
            return None;
        };
        assert(is_hex_digit(s@[i + k as int]));
        assert(d == hex_digit_val(s@[i + k as int]));
        proof {
            let prev = s@.subrange(i as int, i + k as int);
            let cur = s@.subrange(i as int, i + k + 1 as int);
            assert(cur.drop_last() =~= prev);
            assert(cur.last() == s@[i + k as int]);
            assert(forall|m: int| 0 <= m < cur.len() ==> is_hex_digit(#[trigger] cur[m]));
            assert(pow16((k + 1) as nat) == 16 * pow16(k as nat));
            assert(acc * 16 + d < pow16((k + 1) as nat)) by (nonlinear_arith)
                requires
                    0 <= acc < pow16(k as nat),
                    0 <= d < 16,
                    pow16((k + 1) as nat) == 16 * pow16(k as nat),
            ;
            lemma_pow16_32();
            lemma_pow16_monotone(k as nat + 1, 32);
        }
        acc = acc * 16 + d;
        k = k + 1;
    }
    proof {
        assert(s@.subrange(i as int, i + 32) =~= s@.subrange(i as int, i + k as int));
    }
    Some((acc, i + 32))
}

/// Sixteen to the power 32 is exactly the count of 128-bit values.
proof fn lemma_pow16_32()
    ensures
        pow16(32) == 0x1_0000_0000_0000_0000_0000_0000_0000_0000,
{
    reveal_with_fuel(pow16, 33);
}

/// Powers of sixteen grow with the exponent.
proof fn lemma_pow16_monotone(a: nat, b: nat)
    requires
        a <= b,
    ensures
        pow16(a) <= pow16(b),
        pow16(a) >= 1,
    decreases b,
{
    if a == b {
        lemma_pow16_pos(a);
    } else {
        lemma_pow16_monotone(a, (b - 1) as nat);
        lemma_pow16_pos((b - 1) as nat);
    }
}

/// Powers of sixteen are positive.
proof fn lemma_pow16_pos(w: nat)
    ensures
        pow16(w) >= 1,
    decreases w,
{
    if w > 0 {
        lemma_pow16_pos((w - 1) as nat);
    }
}

/// The 32-digit text of an identifier indeed has 32 digit characters.
pub proof fn lemma_hex32_shape(u: u128)
    ensures
        spec_hex32(u).len() == 32,
        all_hex_digits(spec_hex32(u)),
{
    lemma_pow16_32();
    lemma_hex_fixed(u as int, 32);
}

/// Scanning starts where formatting wrote the 32 digits, so a formatted
/// identifier scans back to itself.
pub proof fn lemma_scan_of_hex32(s: Seq<char>, i: int, u: u128)
    requires
        0 <= i,
        i + 32 <= s.len(),
        s.subrange(i, i + 32) == spec_hex32(u),
    ensures
        spec_scan_hex32(s, i) == Some((u as int, i + 32)),
{
    lemma_pow16_32();
    lemma_hex_fixed(u as int, 32);
    assert(all_hex_digits(s.subrange(i, i + 32)));
    assert(hex_seq_val(s.subrange(i, i + 32)) == u as int);
}

} // verus!

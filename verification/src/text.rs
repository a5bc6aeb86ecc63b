//! Character-level utilities: string equality, decimal numerals,
//! substring search, and removal of `"00"` pairs from hour labels.

use vstd::prelude::*;

verus! {

/// Equality of two string slices, decided character by character.
pub fn str_eq(a: &str, b: &str) -> (r: bool)
    ensures
        r == (a@ == b@),
{
    let alen = a.unicode_len();
    let blen = b.unicode_len();
    if alen != blen {
        return false;
    }
    let mut i: usize = 0;
    while i < alen
        invariant
            alen == a@.len(),
            blen == b@.len(),
            alen == blen,
            0 <= i <= alen,
            forall|j: int| 0 <= j < i ==> a@[j] == b@[j],
        decreases alen - i,
    {
        if a.get_char(i) != b.get_char(i) {
            return false;
        }
        i += 1;
    }
    proof {
        assert(a@ =~= b@);
    }
    true
}

/// A decimal digit.
pub open spec fn is_digit(c: char) -> bool {
    '0' as int <= c as int <= '9' as int
}

pub open spec fn digit_val(c: char) -> int {
    c as int - '0' as int
}

pub open spec fn all_digits(s: Seq<char>) -> bool {
    forall|i: int| 0 <= i < s.len() ==> is_digit(#[trigger] s[i])
}

/// Value of a string of decimal digits, most significant first.
pub open spec fn digits_value(s: Seq<char>) -> int
    decreases s.len(),
{
    if s.len() == 0 {
        0
    } else {
        digits_value(s.drop_last()) * 10 + digit_val(s.last())
    }
}

/// The digits of a numeral, after an optional leading plus sign.
pub open spec fn numeral_digits(s: Seq<char>) -> Seq<char> {
    if s.len() > 0 && s[0] == '+' {
        s.skip(1)
    } else {
        s
    }
}

/// What `str::parse::<u32>` returns: an optional `+`, then at least one
/// digit, and a value that fits.
pub open spec fn u32_parse(s: Seq<char>) -> Option<u32> {
    let d = numeral_digits(s);
    if d.len() > 0 && all_digits(d) && digits_value(d) <= u32::MAX {
        Some(digits_value(d) as u32)
    } else {
        None
    }
}

proof fn lemma_digits_value_nonneg(s: Seq<char>)
    requires
        all_digits(s),
    ensures
        digits_value(s) >= 0,
    decreases s.len(),
{
    if s.len() > 0 {
        assert(all_digits(s.drop_last()));
        lemma_digits_value_nonneg(s.drop_last());
    }
}

/// The characters of a string slice, gathered into a vector.
pub fn chars_of(s: &str) -> (v: Vec<char>)
    ensures
        v@ == s@,
{
    let n = s.unicode_len();
    let mut v: Vec<char> = Vec::new();
    let mut i: usize = 0;
    while i < n
        invariant
            n == s@.len(),
            0 <= i <= n,
            v@ == s@.take(i as int),
        decreases n - i,
    {
        v.push(s.get_char(i));
        proof {
            assert(v@ =~= s@.take(i + 1));
        }
        i += 1;
    }
    proof {
        assert(v@ =~= s@);
    }
    v
}

/// Decimal parse of a character sequence, with `str::parse::<u32>`'s shape.
pub fn parse_chars(v: &Vec<char>) -> (r: Option<u32>)
    ensures
        r == u32_parse(v@),
{
    let n = v.len();
    let mut i: usize = 0;
    if n > 0 && v[0] == '+' {
        i = 1;
    }
    let ghost d = numeral_digits(v@);
    proof {
        assert(d =~= v@.skip(i as int));
    }
    if i >= n {
        return None;
    }
    let mut val: u32 = 0;
    let mut over: bool = false;
    let ghost start = i as int;
    while i < n
        invariant
            0 <= start <= i <= n,
            n == v@.len(),
            d == v@.skip(start),
            d == numeral_digits(v@),
            all_digits(d.take(i - start)),
            !over ==> val == digits_value(d.take(i - start)),
            over ==> digits_value(d.take(i - start)) > u32::MAX,
        decreases n - i,
    {
        let c = v[i];
        if !('0' <= c && c <= '9') {
            proof {
                assert(d[i - start] == c);
                assert(!all_digits(d));
            }
            return None;
        }
        let dv: u32 = c as u32 - 48;
        proof {
            assert(d.take(i - start + 1).drop_last() =~= d.take(i - start));
            assert(d.take(i - start + 1).last() == c);
        }
        if over {
            proof {
                lemma_digits_value_nonneg(d.take(i - start));
            }
        } else if val > (u32::MAX - dv) / 10 {
            proof {
                assert(digits_value(d.take(i - start + 1)) == val * 10 + dv);
                assert(val * 10 + dv > u32::MAX) by (nonlinear_arith)
                    requires
                        val > (u32::MAX - dv) / 10,
                        dv < 10,
                ;
            }
            over = true;
        } else {
            proof {
                assert(val * 10 + dv <= u32::MAX) by (nonlinear_arith)
                    requires
                        val <= (u32::MAX - dv) / 10,
                        0 <= dv < 10,
                ;
            }
            val = val * 10 + dv;
        }
        i += 1;
    }
    proof {
        assert(d.take(n - start) =~= d);
    }
    if over {
        return None;
    }
    Some(val)
}

/// Decimal parse of a string slice, as `str::parse::<u32>` would do it.
pub fn parse_u32(s: &str) -> (r: Option<u32>)
    ensures
        r == u32_parse(s@),
{
    let v = chars_of(s);
    parse_chars(&v)
}

/// The character for one decimal digit.
pub open spec fn digit_char(d: int) -> char {
    if d == 0 {
        '0'
    } else if d == 1 {
        '1'
    } else if d == 2 {
        '2'
    } else if d == 3 {
        '3'
    } else if d == 4 {
        '4'
    } else if d == 5 {
        '5'
    } else if d == 6 {
        '6'
    } else if d == 7 {
        '7'
    } else if d == 8 {
        '8'
    } else {
        '9'
    }
}

/// Decimal rendering of a non-negative integer, as the unsigned
/// integers' `to_string` produces it.
pub open spec fn dec_str(n: int) -> Seq<char>
    recommends
        n >= 0,
    decreases n,
{
    if n < 10 {
        seq![digit_char(n)]
    } else {
        dec_str(n / 10) + seq![digit_char(n % 10)]
    }
}

fn digit_str(d: u32) -> (r: &'static str)
    requires
        d < 10,
    ensures
        r@ == seq![digit_char(d as int)],
{
    proof {
        reveal_strlit("0");
        reveal_strlit("1");
        reveal_strlit("2");
        reveal_strlit("3");
        reveal_strlit("4");
        reveal_strlit("5");
        reveal_strlit("6");
        reveal_strlit("7");
        reveal_strlit("8");
        reveal_strlit("9");
    }
    let r = if d == 0 {
        "0"
    } else if d == 1 {
        "1"
    } else if d == 2 {
        "2"
    } else if d == 3 {
        "3"
    } else if d == 4 {
        "4"
    } else if d == 5 {
        "5"
    } else if d == 6 {
        "6"
    } else if d == 7 {
        "7"
    } else if d == 8 {
        "8"
    } else {
        "9"
    };
    proof {
        assert(r@ =~= seq![digit_char(d as int)]);
    }
    r
}

/// Decimal rendering of a `u64`.
pub fn u64_to_string(n: u64) -> (r: String)
    ensures
        r@ == dec_str(n as int),
    decreases n,
{
    if n < 10 {
        digit_str(n as u32).to_owned()
    } else {
        let prefix = u64_to_string(n / 10);
        let r = prefix.concat(digit_str((n % 10) as u32));
        proof {
            assert(r@ =~= dec_str(n as int));
        }
        r
    }
}

/// A two-character, zero-padded decimal rendering.
pub open spec fn two_digit(n: int) -> Seq<char>
    recommends
        0 <= n < 100,
{
    seq![digit_char(n / 10), digit_char(n % 10)]
}

/// Zero-padded two-digit rendering of a small number.
pub fn two_digit_string(n: u32) -> (r: String)
    requires
        n < 100,
    ensures
        r@ == two_digit(n as int),
{
    let r = digit_str(n / 10).to_owned().concat(digit_str(n % 10));
    proof {
        assert(r@ =~= two_digit(n as int));
    }
    r
}

/// The needle occurs in the haystack starting at position `i`.
pub open spec fn contains_at(h: Seq<char>, n: Seq<char>, i: int) -> bool {
    0 <= i && i + n.len() <= h.len() && h.subrange(i, i + n.len()) == n
}

/// The needle occurs somewhere in the haystack, as `str::contains`
/// decides it.
pub open spec fn seq_contains(h: Seq<char>, n: Seq<char>) -> bool {
    exists|i: int| contains_at(h, n, i)
}

/// Substring search, character by character.
pub fn str_contains(h: &str, n: &str) -> (r: bool)
    ensures
        r == seq_contains(h@, n@),
{
    let hlen = h.unicode_len();
    let nlen = n.unicode_len();
    if nlen > hlen {
        proof {
            assert(forall|i: int| !contains_at(h@, n@, i));
        }
        return false;
    }
    if nlen == 0 {
        proof {
            assert(h@.subrange(0, 0) =~= n@);
            assert(contains_at(h@, n@, 0));
        }
        return true;
    }
    let mut i: usize = 0;
    while i <= hlen - nlen
        invariant
            hlen == h@.len(),
            nlen == n@.len(),
            0 < nlen <= hlen,
            0 <= i <= hlen - nlen + 1,
            forall|k: int| 0 <= k < i ==> !contains_at(h@, n@, k),
        decreases hlen - nlen - i + 1,
    {
        let mut j: usize = 0;
        let mut matched = true;
        while j < nlen
            invariant
                hlen == h@.len(),
                nlen == n@.len(),
                0 <= i <= hlen - nlen,
                0 <= j <= nlen,
                matched ==> forall|k: int| 0 <= k < j ==> h@[i + k] == n@[k],
                !matched ==> !contains_at(h@, n@, i as int),
            decreases nlen - j,
        {
            if h.get_char(i + j) != n.get_char(j) {
                proof {
                    if contains_at(h@, n@, i as int) {
                        assert(h@.subrange(i as int, i + nlen)[j as int] == n@[j as int]);
                    }
                }
                matched = false;
                j = nlen;
            } else {
                j += 1;
            }
        }
        if matched {
            proof {
                assert(h@.subrange(i as int, i + nlen) =~= n@);
                assert(contains_at(h@, n@, i as int));
            }
            return true;
        }
        i += 1;
    }
    proof {
        assert(forall|k: int| !contains_at(h@, n@, k));
    }
    false
}

/// What `str::replace("00", "")` leaves behind: every non-overlapping
/// `"00"` pair is removed, scanning left to right.
pub open spec fn strip00(s: Seq<char>) -> Seq<char>
    decreases s.len(),
{
    if s.len() >= 2 && s[0] == '0' && s[1] == '0' {
        strip00(s.skip(2))
    } else if s.len() >= 1 {
        seq![s[0]] + strip00(s.skip(1))
    } else {
        Seq::empty()
    }
}

/// Removes every non-overlapping `"00"` pair from a string, scanning
/// left to right, and yields the remaining characters.
pub fn strip_double_zero(s: &str) -> (v: Vec<char>)
    ensures
        v@ == strip00(s@),
{
    let n = s.unicode_len();
    let mut v: Vec<char> = Vec::new();
    let mut i: usize = 0;
    proof {
        assert(s@.skip(0) =~= s@);
        assert(Seq::<char>::empty() + strip00(s@) =~= strip00(s@));
    }
    while i < n
        invariant
            n == s@.len(),
            0 <= i <= n,
            strip00(s@) == v@ + strip00(s@.skip(i as int)),
        decreases n - i,
    {
        let c = s.get_char(i);
        if i + 1 < n && c == '0' && s.get_char(i + 1) == '0' {
            proof {
                assert(s@.skip(i as int).skip(2) =~= s@.skip(i + 2));
            }
            i += 2;
        } else {
            proof {
                let rest = s@.skip(i as int);
                assert(rest[0] == c);
                if rest.len() >= 2 && rest[0] == '0' && rest[1] == '0' {
                    assert(s@[i + 1] == '0');
                    assert(false);
                }
                assert(strip00(rest) == seq![c] + strip00(rest.skip(1)));
                assert(rest.skip(1) =~= s@.skip(i + 1));
                assert((v@ + seq![c]) + strip00(s@.skip(i + 1)) =~= v@ + strip00(rest));
            }
            v.push(c);
            i += 1;
        }
    }
    proof {
        assert(s@.skip(n as int) =~= Seq::<char>::empty());
        assert(strip00(s@.skip(n as int)) =~= Seq::<char>::empty());
        assert(v@ + strip00(s@.skip(n as int)) =~= v@);
    }
    v
}

} // verus!

//! Verified string building blocks: pattern replacement, decimal
//! rendering and parsing, and whitespace trimming.
//!
//! Output filename templating and the textual parts of the specification
//! merge are defined over these functions, so their contracts pin the
//! exact character sequences that the pipeline produces.

use vstd::prelude::*;

verus! {

/// `s` with every non-overlapping occurrence of `pat`, found left to
/// right, replaced by `to`; the identity when `pat` is empty.
pub open spec fn replace_seq(s: Seq<char>, pat: Seq<char>, to: Seq<char>) -> Seq<char>
    decreases s.len(),
{
    if pat.len() == 0 {
        s
    } else if s.len() < pat.len() {
        s
    } else if s.subrange(0, pat.len() as int) == pat {
        to + replace_seq(s.skip(pat.len() as int), pat, to)
    } else {
        seq![s[0]] + replace_seq(s.skip(1), pat, to)
    }
}

/// Whether `pat` occurs in `s` starting at character index `i`.
fn match_at(s: &str, s_len: usize, i: usize, pat: &str, pat_len: usize) -> (r: bool)
    requires
        s_len == s@.len(),
        pat_len == pat@.len(),
        i + pat_len <= s_len,
    ensures
        r == (s@.subrange(i as int, i + pat_len) == pat@),
{
    let mut j: usize = 0;
    while j < pat_len
        invariant
            j <= pat_len,
            s_len == s@.len(),
            pat_len == pat@.len(),
            i + pat_len <= s_len,
            forall|k: int| 0 <= k < j ==> s@[i + k] == pat@[k],
        decreases pat_len - j,
    {
        if s.get_char(i + j) != pat.get_char(j) {
            proof {
                assert(s@.subrange(i as int, i + pat_len)[j as int] == s@[i + j]);
            }
            return false;
        }
        j += 1;
    }
    proof {
        assert(s@.subrange(i as int, i + pat_len) =~= pat@);
    }
    true
}

/// Replaces every non-overlapping occurrence of `pat` in `s` by `to`,
/// scanning left to right, as `str::replace` does.
pub fn replace_all(s: &str, pat: &str, to: &str) -> (r: String)
    requires
        pat@.len() > 0,
    ensures
        r@ == replace_seq(s@, pat@, to@),
{
    let s_len = s.unicode_len();
    let pat_len = pat.unicode_len();
    let mut out = String::new();
    let mut i: usize = 0;
    proof {
        assert(s@.skip(0) =~= s@);
    }
    while i < s_len
        invariant
            i <= s_len,
            s_len == s@.len(),
            pat_len == pat@.len(),
            pat_len > 0,
            out@ + replace_seq(s@.skip(i as int), pat@, to@) == replace_seq(s@, pat@, to@),
        decreases s_len - i,
    {
        if pat_len <= s_len - i && match_at(s, s_len, i, pat, pat_len) {
            out.append(to);
            proof {
                assert(s@.skip(i as int).subrange(0, pat_len as int) =~= s@.subrange(
                    i as int,
                    i + pat_len,
                ));
                assert(s@.skip(i as int).skip(pat_len as int) =~= s@.skip(i + pat_len));
            }
            i += pat_len;
        } else {
            out.append(s.substring_char(i, i + 1));
            proof {
                if pat_len <= s_len - i {
                    assert(s@.skip(i as int).subrange(0, pat_len as int) =~= s@.subrange(
                        i as int,
                        i + pat_len,
                    ));
                }
                assert(seq![s@.skip(i as int)[0]] =~= s@.subrange(i as int, i + 1));
                assert(s@.skip(i as int).skip(1) =~= s@.skip(i + 1));
            }
            i += 1;
        }
    }
    proof {
        assert(s@.skip(i as int) =~= Seq::<char>::empty());
    }
    out
}

/// The character sequences that a list of strings reads as, in order.
pub open spec fn views_of(v: Seq<String>) -> Seq<Seq<char>> {
    v.map_values(|s: String| s@)
}

/// A copy of an optional string, equal to the original.
pub fn clone_opt_string(o: &Option<String>) -> (r: Option<String>)
    ensures
        r == *o,
{
    match o {
        Some(s) => Some(s.clone()),
        None => None,
    }
}

/// A copy of a list of strings, equal to the original.
pub fn clone_string_vec(v: &Vec<String>) -> (r: Vec<String>)
    ensures
        r@ == v@,
{
    let mut out: Vec<String> = Vec::new();
    let n = v.len();
    let mut i: usize = 0;
    while i < n
        invariant
            i <= n,
            n == v@.len(),
            out@ =~= v@.take(i as int),
        decreases n - i,
    {
        out.push(v[i].clone());
        proof {
            assert(out@ =~= v@.take(i + 1));
        }
        i += 1;
    }
    proof {
        assert(v@.take(n as int) =~= v@);
    }
    out
}

/// Whether two strings read the same.
pub fn str_eq(a: &str, b: &str) -> (r: bool)
    ensures
        r == (a@ == b@),
{
    let la = a.unicode_len();
    let lb = b.unicode_len();
    if la != lb {
        return false;
    }
    let r = match_at(a, la, 0, b, lb);
    proof {
        assert(a@.subrange(0, lb as int) =~= a@);
    }
    r
}

/// The character for the decimal digit `d`.
pub open spec fn dec_digit(d: int) -> char {
    if d == 0 {
        '0'
    } else if d == 1 {
        '1'
    } else if d == 2 {
        '2'
    } else if d == 3 {
        '3'
    } else if d == 4 {
        '4'
    } else if d == 5 {
        '5'
    } else if d == 6 {
        '6'
    } else if d == 7 {
        '7'
    } else if d == 8 {
        '8'
    } else {
        '9'
    }
}

/// The decimal rendering of a non-negative number, without leading zeros.
pub open spec fn dec_seq(n: int) -> Seq<char>
    decreases n,
{
    if n < 10 {
        seq![dec_digit(n)]
    } else {
        dec_seq(n / 10).push(dec_digit(n % 10))
    }
}

fn dec_digit_str(d: u64) -> (r: &'static str)
    requires
        d < 10,
    ensures
        r@ == seq![dec_digit(d as int)],
{
    if d == 0 {
        proof {
            reveal_strlit("0");
            assert("0"@ =~= seq![dec_digit(0)]);
        }
        "0"
    } else if d == 1 {
        proof {
            reveal_strlit("1");
            assert("1"@ =~= seq![dec_digit(1)]);
        }
        "1"
    } else if d == 2 {
        proof {
            reveal_strlit("2");
            assert("2"@ =~= seq![dec_digit(2)]);
        }
        "2"
    } else if d == 3 {
        proof {
            reveal_strlit("3");
            assert("3"@ =~= seq![dec_digit(3)]);
        }
        "3"
    } else if d == 4 {
        proof {
            reveal_strlit("4");
            assert("4"@ =~= seq![dec_digit(4)]);
        }
        "4"
    } else if d == 5 {
        proof {
            reveal_strlit("5");
            assert("5"@ =~= seq![dec_digit(5)]);
        }
        "5"
    } else if d == 6 {
        proof {
            reveal_strlit("6");
            assert("6"@ =~= seq![dec_digit(6)]);
        }
        "6"
    } else if d == 7 {
        proof {
            reveal_strlit("7");
            assert("7"@ =~= seq![dec_digit(7)]);
        }
        "7"
    } else if d == 8 {
        proof {
            reveal_strlit("8");
            assert("8"@ =~= seq![dec_digit(8)]);
        }
        "8"
    } else {
        proof {
            reveal_strlit("9");
            assert("9"@ =~= seq![dec_digit(9)]);
        }
        "9"
    }
}

/// Renders `n` in decimal.
pub fn dec_string_u64(n: u64) -> (r: String)
    ensures
        r@ == dec_seq(n as int),
    decreases n,
{
    if n < 10 {
        dec_digit_str(n).to_owned()
    } else {
        let mut out = dec_string_u64(n / 10);
        out.append(dec_digit_str(n % 10));
        proof {
            assert(dec_seq((n / 10) as int) + seq![dec_digit((n % 10) as int)] =~= dec_seq(
                (n / 10) as int,
            ).push(dec_digit((n % 10) as int)));
        }
        out
    }
}

/// Renders `n` in decimal.
pub fn dec_string_u32(n: u32) -> (r: String)
    ensures
        r@ == dec_seq(n as int),
{
    dec_string_u64(n as u64)
}

/// Renders `n` in decimal.
pub fn dec_string_usize(n: usize) -> (r: String)
    ensures
        r@ == dec_seq(n as int),
{
    dec_string_u64(n as u64)
}

/// Ten to the power `d`.
pub open spec fn pow10(d: nat) -> int
    decreases d,
{
    if d == 0 {
        1
    } else {
        10 * pow10((d - 1) as nat)
    }
}

/// A number below ten to the `d` has at most `d` decimal digits.
pub proof fn lemma_dec_seq_len(n: int, d: nat)
    requires
        0 <= n,
        n < pow10(d),
        d >= 1,
    ensures
        dec_seq(n).len() <= d,
    decreases d,
{
    if n >= 10 {
        assert(pow10(d) == 10 * pow10((d - 1) as nat));
        assert(n / 10 < pow10((d - 1) as nat)) by (nonlinear_arith)
            requires
                n < 10 * pow10((d - 1) as nat),
                0 <= n,
        ;
        lemma_dec_seq_len(n / 10, (d - 1) as nat);
    }
}

/// A sequence of `n` zero characters.
pub open spec fn zeros(n: int) -> Seq<char> {
    Seq::new(if n >= 0 {
        n as nat
    } else {
        0
    }, |i: int| '0')
}

/// Renders `n` in decimal, left-padded with zeros to nine digits.
pub fn dec_string_nanos(n: u32) -> (r: String)
    requires
        n < 1_000_000_000,
    ensures
        r@ == zeros(9 - dec_seq(n as int).len()) + dec_seq(n as int),
{
    proof {
        reveal_with_fuel(pow10, 10);
        lemma_dec_seq_len(n as int, 9);
    }
    let digits = dec_string_u64(n as u64);
    let digits_len = digits.as_str().unicode_len();
    let mut out = String::new();
    let mut k = digits_len;
    while k < 9
        invariant
            digits_len <= k <= 9,
            digits_len == dec_seq(n as int).len(),
            out@ =~= zeros(k - digits_len),
        decreases 9 - k,
    {
        out.append("0");
        proof {
            reveal_strlit("0");
            assert(out@ =~= zeros(k + 1 - digits_len));
        }
        k += 1;
    }
    out.append(digits.as_str());
    out
}

/// Whether `c` is one of the characters that `str::trim` removes: the
/// code points with the White_Space property.
pub open spec fn is_space_char(c: char) -> bool {
    c as u32 == 0x9 || c as u32 == 0xa || c as u32 == 0xb || c as u32 == 0xc || c as u32 == 0xd
        || c as u32 == 0x20 || c as u32 == 0x85 || c as u32 == 0xa0 || c as u32 == 0x1680 || (0x2000
        <= c as u32 && c as u32 <= 0x200a) || c as u32 == 0x2028 || c as u32 == 0x2029 || c as u32
        == 0x202f || c as u32 == 0x205f || c as u32 == 0x3000
}

fn is_space(c: char) -> (r: bool)
    ensures
        r == is_space_char(c),
{
    let u = c as u32;
    u == 0x9 || u == 0xa || u == 0xb || u == 0xc || u == 0xd || u == 0x20 || u == 0x85 || u == 0xa0
        || u == 0x1680 || (0x2000 <= u && u <= 0x200a) || u == 0x2028 || u == 0x2029 || u == 0x202f
        || u == 0x205f || u == 0x3000
}

/// The index of the first character that is not whitespace, or the length.
pub open spec fn first_non_space(s: Seq<char>) -> int
    decreases s.len(),
{
    if s.len() == 0 {
        0
    } else if !is_space_char(s[0]) {
        0
    } else {
        1 + first_non_space(s.skip(1))
    }
}

/// One past the index of the last character that is not whitespace, or zero.
pub open spec fn last_non_space_end(s: Seq<char>) -> int
    decreases s.len(),
{
    if s.len() == 0 {
        0
    } else if !is_space_char(s[s.len() - 1]) {
        s.len() as int
    } else {
        last_non_space_end(s.take(s.len() - 1))
    }
}

/// `s` without leading and trailing whitespace.
pub open spec fn trim_seq(s: Seq<char>) -> Seq<char> {
    if first_non_space(s) < last_non_space_end(s) {
        s.subrange(first_non_space(s), last_non_space_end(s))
    } else {
        Seq::empty()
    }
}

proof fn lemma_first_non_space(s: Seq<char>, a: int)
    requires
        0 <= a <= s.len(),
        forall|k: int| 0 <= k < a ==> is_space_char(s[k]),
        a == s.len() || !is_space_char(s[a]),
    ensures
        first_non_space(s) == a,
    decreases a,
{
    if a > 0 {
        lemma_first_non_space(s.skip(1), a - 1);
    }
}

proof fn lemma_last_non_space_end(s: Seq<char>, b: int)
    requires
        0 <= b <= s.len(),
        forall|k: int| b <= k < s.len() ==> is_space_char(s[k]),
        b == 0 || !is_space_char(s[b - 1]),
    ensures
        last_non_space_end(s) == b,
    decreases s.len(),
{
    if b < s.len() {
        assert(s.take(s.len() - 1) =~= s.subrange(0, s.len() - 1));
        lemma_last_non_space_end(s.take(s.len() - 1), b);
    }
}

/// `s` without leading and trailing whitespace, as `str::trim` returns it.
pub fn str_trim(s: &str) -> (r: &str)
    ensures
        r@ == trim_seq(s@),
{
    let len = s.unicode_len();
    let mut a: usize = 0;
    while a < len && is_space(s.get_char(a))
        invariant
            a <= len,
            len == s@.len(),
            forall|k: int| 0 <= k < a ==> is_space_char(s@[k]),
        decreases len - a,
    {
        a += 1;
    }
    let mut b: usize = len;
    while b > a && is_space(s.get_char(b - 1))
        invariant
            a <= b <= len,
            len == s@.len(),
            forall|k: int| b <= k < len ==> is_space_char(s@[k]),
        decreases b,
    {
        b -= 1;
    }
    proof {
        lemma_first_non_space(s@, a as int);
        if a < b {
            lemma_last_non_space_end(s@, b as int);
        } else {
            // The backward scan met the forward one, so the whole string is
            // whitespace and trims to nothing.
            assert(a == len);
            lemma_last_non_space_end(s@, 0);
        }
    }
    s.substring_char(a, b)
}

} // verus!

//! Verified building blocks for the string work the rest of the crate does:
//! equality, repetition, character-wise mapping, pattern replacement and
//! decimal rendering of integers.

use vstd::prelude::*;

verus! {

/// `p` concatenated with itself `c` times.
pub open spec fn spec_repeat(p: Seq<char>, c: nat) -> Seq<char>
    decreases c,
{
    if c == 0 {
        Seq::empty()
    } else {
        spec_repeat(p, (c - 1) as nat) + p
    }
}

/// `s` with every occurrence of `pat` replaced by `to`, scanning left to
/// right without overlap, as `str::replace` does for a non-empty pattern.
pub open spec fn spec_replace_all(s: Seq<char>, pat: Seq<char>, to: Seq<char>) -> Seq<char>
    decreases s.len(),
{
    if pat.len() == 0 || s.len() < pat.len() {
        s
    } else if s.take(pat.len() as int) == pat {
        to + spec_replace_all(s.skip(pat.len() as int), pat, to)
    } else {
        seq![s[0]] + spec_replace_all(s.skip(1), pat, to)
    }
}

/// `needle` occurs somewhere in `hay` as a contiguous run.
pub open spec fn spec_contains_seq(hay: Seq<char>, needle: Seq<char>) -> bool {
    exists|i: int|
        0 <= i && i + needle.len() <= hay.len() && #[trigger] hay.subrange(i, i + needle.len())
            == needle
}

/// The sequence holds no terminal escape character, so styling it for the
/// terminal keeps it verbatim inside the styled result.
pub open spec fn spec_no_esc(s: Seq<char>) -> bool {
    forall|i: int| 0 <= i < s.len() ==> #[trigger] s[i] != '\u{1b}'
}

/// The decimal digit `d` as a character; meaningful for `0 <= d < 10`.
pub open spec fn spec_digit(d: int) -> char {
    if d == 0 {
        '0'
    } else if d == 1 {
        '1'
    } else if d == 2 {
        '2'
    } else if d == 3 {
        '3'
    } else if d == 4 {
        '4'
    } else if d == 5 {
        '5'
    } else if d == 6 {
        '6'
    } else if d == 7 {
        '7'
    } else if d == 8 {
        '8'
    } else {
        '9'
    }
}

/// The decimal digits of a non-negative integer, most significant first.
pub open spec fn spec_nat_digits(n: int) -> Seq<char>
    recommends
        n >= 0,
    decreases n,
{
    if n < 10 {
        seq![spec_digit(n)]
    } else {
        spec_nat_digits(n / 10).push(spec_digit(n % 10))
    }
}

/// The decimal rendering of an integer, with a leading `-` when negative.
pub open spec fn spec_int_str(n: int) -> Seq<char> {
    if n < 0 {
        seq!['-'] + spec_nat_digits(-n)
    } else {
        spec_nat_digits(n)
    }
}

/// Relies on std's `String::push`: appends exactly the one character.
#[verifier::external_body]
pub fn push_char(s: &mut String, c: char)
    ensures
        final(s)@ == old(s)@.push(c),
{
    s.push(c);
}

/// Character-for-character equality of two string slices.
pub fn str_eq(a: &str, b: &str) -> (r: bool)
    ensures
        r == (a@ == b@),
{
    let alen = a.unicode_len();
    let blen = b.unicode_len();
    if alen != blen {
        return false;
    }
    let mut i: usize = 0;
    while i < alen
        invariant
            i <= alen,
            alen == a@.len(),
            alen == b@.len(),
            forall|j: int| 0 <= j < i ==> a@[j] == b@[j],
        decreases alen - i,
    {
        if a.get_char(i) != b.get_char(i) {
            return false;
        }
        i += 1;
    }
    proof {
        assert(a@ =~= b@);
    }
    true
}

/// `p` repeated `c` times, built by appending.
pub fn repeat_str(p: &str, c: usize) -> (r: String)
    ensures
        r@ == spec_repeat(p@, c as nat),
{
    let mut r = String::new();
    let mut i: usize = 0;
    while i < c
        invariant
            i <= c,
            r@ == spec_repeat(p@, i as nat),
        decreases c - i,
    {
        r.append(p);
        i += 1;
    }
    r
}

/// Whether `pat` stands in `s` starting at character index `i`.
fn match_at(s: &str, i: usize, pat: &str) -> (r: bool)
    requires
        i + pat@.len() <= s@.len(),
        i + pat@.len() <= usize::MAX,
    ensures
        r == (s@.subrange(i as int, i + pat@.len()) == pat@),
{
    let plen = pat.unicode_len();
    let mut j: usize = 0;
    while j < plen
        invariant
            j <= plen,
            plen == pat@.len(),
            i + plen <= s@.len(),
            i + plen <= usize::MAX,
            forall|k: int| 0 <= k < j ==> s@[i + k] == pat@[k],
        decreases plen - j,
    {
        if s.get_char(i + j) != pat.get_char(j) {
            proof {
                assert(s@.subrange(i as int, i + plen as int)[j as int] == s@[i + j]);
            }
            return false;
        }
        j += 1;
    }
    proof {
        assert(s@.subrange(i as int, i + plen as int) =~= pat@);
    }
    true
}

/// `s` with every occurrence of the non-empty `pat` replaced by `to`.
pub fn replace_all(s: &str, pat: &str, to: &str) -> (r: String)
    requires
        pat@.len() > 0,
    ensures
        r@ == spec_replace_all(s@, pat@, to@),
{
    let slen = s.unicode_len();
    let plen = pat.unicode_len();
    let mut r = String::new();
    let mut i: usize = 0;
    proof {
        assert(s@.skip(0) =~= s@);
        assert(r@ + spec_replace_all(s@, pat@, to@) =~= spec_replace_all(s@, pat@, to@));
    }
    while i < slen
        invariant
            i <= slen,
            slen == s@.len(),
            plen == pat@.len(),
            plen > 0,
            spec_replace_all(s@, pat@, to@) == r@ + spec_replace_all(
                s@.skip(i as int),
                pat@,
                to@,
            ),
        decreases slen - i,
    {
        let ghost rest = s@.skip(i as int);
        if plen <= slen - i && match_at(s, i, pat) {
            proof {
                assert(rest.take(plen as int) =~= s@.subrange(i as int, i + plen as int));
                assert(rest.skip(plen as int) =~= s@.skip(i + plen as int));
            }
            r.append(to);
            i += plen;
        } else {
            let c = s.get_char(i);
            proof {
                if rest.len() >= plen {
                    assert(rest.take(plen as int) =~= s@.subrange(i as int, i + plen as int));
                }
                assert(rest.skip(1) =~= s@.skip(i + 1));
                assert(rest[0] == s@[i as int]);
                if rest.len() < plen {
                    assert(spec_replace_all(rest, pat@, to@) == rest);
                    assert(spec_replace_all(rest.skip(1), pat@, to@) == rest.skip(1));
                    assert(rest =~= seq![rest[0]] + rest.skip(1));
                }
            }
            push_char(&mut r, c);
            i += 1;
        }
    }
    proof {
        assert(s@.skip(slen as int) =~= Seq::<char>::empty());
    }
    r
}

/// The character for a single decimal digit.
fn digit_char(d: u64) -> (c: char)
    requires
        d < 10,
    ensures
        c == spec_digit(d as int),
{
    if d == 0 {
        '0'
    } else if d == 1 {
        '1'
    } else if d == 2 {
        '2'
    } else if d == 3 {
        '3'
    } else if d == 4 {
        '4'
    } else if d == 5 {
        '5'
    } else if d == 6 {
        '6'
    } else if d == 7 {
        '7'
    } else if d == 8 {
        '8'
    } else {
        '9'
    }
}

proof fn lemma_reverse_push(s: Seq<char>, c: char)
    ensures
        s.push(c).reverse() =~= seq![c] + s.reverse(),
{
}

/// The decimal rendering of `n`.
pub fn u64_to_string(n: u64) -> (r: String)
    ensures
        r@ == spec_nat_digits(n as int),
{
    let mut low: Vec<char> = Vec::new();
    let mut m = n;
    while m >= 10
        invariant
            spec_nat_digits(n as int) == spec_nat_digits(m as int) + low@.reverse(),
        decreases m,
    {
        let d = digit_char(m % 10);
        proof {
            lemma_reverse_push(low@, spec_digit((m % 10) as int));
        }
        low.push(d);
        m = m / 10;
    }
    let mut r = String::new();
    push_char(&mut r, digit_char(m));
    let mut k: usize = 0;
    while k < low.len()
        invariant
            k <= low@.len(),
            r@ == seq![spec_digit(m as int)] + low@.reverse().take(k as int),
            m < 10,
        decreases low@.len() - k,
    {
        let c = low[low.len() - 1 - k];
        proof {
            assert(low@.reverse()[k as int] == low@[low@.len() - 1 - k]);
            assert(low@.reverse().take(k + 1) =~= low@.reverse().take(k as int).push(
                low@.reverse()[k as int],
            ));
        }
        push_char(&mut r, c);
        k += 1;
    }
    proof {
        assert(low@.reverse().take(low@.len() as int) =~= low@.reverse());
        assert(seq![spec_digit(m as int)] =~= spec_nat_digits(m as int));
    }
    r
}

/// The decimal rendering of `n`, with a leading `-` when negative.
pub fn i32_to_string(n: i32) -> (r: String)
    ensures
        r@ == spec_int_str(n as int),
{
    if n < 0 {
        let mag: u64 = (-(n as i64)) as u64;
        let mut r = String::from_str("-");
        let digits = u64_to_string(mag);
        proof {
            reveal_strlit("-");
            assert("-"@ =~= seq!['-']);
        }
        r.append(digits.as_str());
        r
    } else {
        u64_to_string(n as u64)
    }
}

} // verus!

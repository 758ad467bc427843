//! String-building primitives shared by the rendering code: decimal
//! rendering of integers, substring predicates, separator joins, and
//! character-level searching.

use itertools::Itertools;
use vstd::prelude::*;
use vstd::string::StrSliceExecFns;
use vstd::string::StringExecFns;

verus! {

/// The decimal digit character for a value below ten.
pub open spec fn spec_digit(d: nat) -> char {
    if d == 0 {
        '0'
    } else if d == 1 {
        '1'
    } else if d == 2 {
        '2'
    } else if d == 3 {
        '3'
    } else if d == 4 {
        '4'
    } else if d == 5 {
        '5'
    } else if d == 6 {
        '6'
    } else if d == 7 {
        '7'
    } else if d == 8 {
        '8'
    } else {
        '9'
    }
}

/// Decimal rendering of a natural number, most significant digit first,
/// with no leading zeros (a lone zero renders as "0").
pub open spec fn spec_dec_nat(n: nat) -> Seq<char>
    decreases n,
{
    if n < 10 {
        seq![spec_digit(n)]
    } else {
        spec_dec_nat(n / 10).push(spec_digit(n % 10))
    }
}

/// Decimal rendering of an integer: a minus sign before the magnitude when
/// negative.
pub open spec fn spec_dec_int(i: int) -> Seq<char> {
    if i < 0 {
        seq!['-'] + spec_dec_nat((-i) as nat)
    } else {
        spec_dec_nat(i as nat)
    }
}

/// Decimal rendering of a natural number zero-padded on the left to at
/// least four characters.
pub open spec fn spec_dec4(n: nat) -> Seq<char> {
    if n < 10 {
        seq!['0', '0', '0'] + spec_dec_nat(n)
    } else if n < 100 {
        seq!['0', '0'] + spec_dec_nat(n)
    } else if n < 1000 {
        seq!['0'] + spec_dec_nat(n)
    } else {
        spec_dec_nat(n)
    }
}

/// The one-character string for a decimal digit below ten.
pub fn digit_str(d: usize) -> (r: &'static str)
    requires
        d < 10,
    ensures
        r@ == seq![spec_digit(d as nat)],
{
    if d == 0 {
        let r = "0";
        proof {
            reveal_strlit("0");
            assert(r@ =~= seq![spec_digit(d as nat)]);
        }
        r
    } else if d == 1 {
        let r = "1";
        proof {
            reveal_strlit("1");
            assert(r@ =~= seq![spec_digit(d as nat)]);
        }
        r
    } else if d == 2 {
        let r = "2";
        proof {
            reveal_strlit("2");
            assert(r@ =~= seq![spec_digit(d as nat)]);
        }
        r
    } else if d == 3 {
        let r = "3";
        proof {
            reveal_strlit("3");
            assert(r@ =~= seq![spec_digit(d as nat)]);
        }
        r
    } else if d == 4 {
        let r = "4";
        proof {
            reveal_strlit("4");
            assert(r@ =~= seq![spec_digit(d as nat)]);
        }
        r
    } else if d == 5 {
        let r = "5";
        proof {
            reveal_strlit("5");
            assert(r@ =~= seq![spec_digit(d as nat)]);
        }
        r
    } else if d == 6 {
        let r = "6";
        proof {
            reveal_strlit("6");
            assert(r@ =~= seq![spec_digit(d as nat)]);
        }
        r
    } else if d == 7 {
        let r = "7";
        proof {
            reveal_strlit("7");
            assert(r@ =~= seq![spec_digit(d as nat)]);
        }
        r
    } else if d == 8 {
        let r = "8";
        proof {
            reveal_strlit("8");
            assert(r@ =~= seq![spec_digit(d as nat)]);
        }
        r
    } else {
        let r = "9";
        proof {
            reveal_strlit("9");
            assert(r@ =~= seq![spec_digit(d as nat)]);
        }
        r
    }
}

/// Renders a natural number in decimal.
pub fn dec_nat(n: usize) -> (r: String)
    ensures
        r@ == spec_dec_nat(n as nat),
    decreases n,
{
    if n < 10 {
        String::from_str(digit_str(n))
    } else {
        let prefix = dec_nat(n / 10);
        let r = prefix.concat(digit_str(n % 10));
        proof {
            assert(r@ =~= spec_dec_nat(n as nat));
        }
        r
    }
}

/// Renders a signed integer in decimal.
pub fn dec_int(i: isize) -> (r: String)
    requires
        i != isize::MIN,
    ensures
        r@ == spec_dec_int(i as int),
{
    if i < 0 {
        let mut s = String::from_str("-");
        let mag = dec_nat((-i) as usize);
        s.append(mag.as_str());
        proof {
            reveal_strlit("-");
            assert(s@ =~= spec_dec_int(i as int));
        }
        s
    } else {
        dec_nat(i as usize)
    }
}

/// Renders a natural number in decimal, zero-padded to at least four
/// characters.
pub fn dec4(n: usize) -> (r: String)
    ensures
        r@ == spec_dec4(n as nat),
{
    let digits = dec_nat(n);
    let mut s = if n < 10 {
        String::from_str("000")
    } else if n < 100 {
        String::from_str("00")
    } else if n < 1000 {
        String::from_str("0")
    } else {
        String::new()
    };
    s.append(digits.as_str());
    proof {
        reveal_strlit("000");
        reveal_strlit("00");
        reveal_strlit("0");
        assert(s@ =~= spec_dec4(n as nat));
    }
    s
}

/// The strings of `items` concatenated in order with `sep` between
/// consecutive items; an empty list yields the empty string.
pub open spec fn spec_join(items: Seq<Seq<char>>, sep: Seq<char>) -> Seq<char>
    decreases items.len(),
{
    if items.len() == 0 {
        Seq::empty()
    } else if items.len() == 1 {
        items[0]
    } else {
        items[0] + sep + spec_join(items.drop_first(), sep)
    }
}

/// Relies on itertools' `Itertools::join`: writes each item in order with
/// the separator between consecutive items; an empty iterator yields the
/// empty string.
#[verifier::external_body]
pub(crate) fn join_strings(items: &Vec<String>, sep: &str) -> (r: String)
    ensures
        r@ == spec_join(items.deep_view(), sep@),
{
    items.iter().join(sep)
}

/// `sub` occurs contiguously somewhere in `s`.
pub open spec fn spec_contains(s: Seq<char>, sub: Seq<char>) -> bool {
    exists|i: int| 0 <= i && i + sub.len() <= s.len() && #[trigger] s.subrange(i, i + sub.len())
        == sub
}

/// `p` is a prefix of `s`.
pub open spec fn spec_starts_with(s: Seq<char>, p: Seq<char>) -> bool {
    p.len() <= s.len() && s.subrange(0, p.len() as int) == p
}

/// Whether `sub` occurs in `s` starting at position `at`.
fn str_match_at(s: &str, sub: &str, at: usize) -> (r: bool)
    requires
        at + sub@.len() <= s@.len(),
    ensures
        r == (s@.subrange(at as int, at + sub@.len()) == sub@),
{
    let n = s.unicode_len();
    let m = sub.unicode_len();
    let mut j: usize = 0;
    while j < m
        invariant
            n == s@.len(),
            m == sub@.len(),
            at + m <= n,
            j <= m,
            forall|k: int| 0 <= k < j ==> s@[at + k] == sub@[k],
        decreases m - j,
    {
        if s.get_char(at + j) != sub.get_char(j) {
            proof {
                assert(s@.subrange(at as int, at + sub@.len())[j as int] != sub@[j as int]);
            }
            return false;
        }
        j += 1;
    }
    proof {
        assert(s@.subrange(at as int, at + sub@.len()) =~= sub@);
    }
    true
}

/// Whether the strings are equal, character for character.
pub fn str_eq(a: &str, b: &str) -> (r: bool)
    ensures
        r == (a@ == b@),
{
    let n = a.unicode_len();
    if n != b.unicode_len() {
        return false;
    }
    let r = str_match_at(a, b, 0);
    proof {
        assert(a@.subrange(0, a@.len() as int) =~= a@);
        if a@.subrange(0, b@.len() as int) == b@ {
            assert(a@ =~= b@);
        }
    }
    r
}

/// Whether `p` is a prefix of `s`.
pub fn str_starts_with(s: &str, p: &str) -> (r: bool)
    ensures
        r == spec_starts_with(s@, p@),
{
    if p.unicode_len() > s.unicode_len() {
        return false;
    }
    str_match_at(s, p, 0)
}

/// Whether `sub` occurs contiguously somewhere in `s`.
pub fn str_contains(s: &str, sub: &str) -> (r: bool)
    ensures
        r == spec_contains(s@, sub@),
{
    let n = s.unicode_len();
    let m = sub.unicode_len();
    if m > n {
        return false;
    }
    if m == 0 {
        proof {
            assert(s@.subrange(0, 0 + sub@.len() as int) =~= sub@);
            assert(spec_contains(s@, sub@));
        }
        return true;
    }
    let mut i: usize = 0;
    while i <= n - m
        invariant
            n == s@.len(),
            m == sub@.len(),
            0 < m <= n,
            i <= n - m + 1,
            forall|k: int| 0 <= k < i ==> #[trigger] s@.subrange(k, k + sub@.len()) != sub@,
        decreases n - i,
    {
        if str_match_at(s, sub, i) {
            return true;
        }
        i += 1;
    }
    false
}

/// The index of the first occurrence of `c` in `s`, or `s.len()` when `c`
/// does not occur.
pub open spec fn spec_first_ix(s: Seq<char>, c: char) -> int
    decreases s.len(),
{
    if s.len() == 0 {
        0
    } else if s[0] == c {
        0
    } else {
        1 + spec_first_ix(s.drop_first(), c)
    }
}

/// The index of the last occurrence of `c` in `s`, or `-1` when `c` does
/// not occur.
pub open spec fn spec_last_ix(s: Seq<char>, c: char) -> int
    decreases s.len(),
{
    if s.len() == 0 {
        -1
    } else if s[s.len() - 1] == c {
        s.len() - 1
    } else {
        spec_last_ix(s.drop_last(), c)
    }
}

pub proof fn lemma_first_ix(s: Seq<char>, c: char)
    ensures
        0 <= spec_first_ix(s, c) <= s.len(),
        spec_first_ix(s, c) < s.len() ==> s[spec_first_ix(s, c)] == c,
        forall|k: int| 0 <= k < spec_first_ix(s, c) ==> s[k] != c,
    decreases s.len(),
{
    if s.len() > 0 && s[0] != c {
        let rest = s.drop_first();
        lemma_first_ix(rest, c);
        assert(spec_first_ix(s, c) == 1 + spec_first_ix(rest, c));
        assert forall|k: int| 0 <= k < spec_first_ix(s, c) implies s[k] != c by {
            if k >= 1 {
                assert(s[k] == rest[k - 1]);
            }
        }
    }
}

pub proof fn lemma_last_ix(s: Seq<char>, c: char)
    ensures
        -1 <= spec_last_ix(s, c) < s.len(),
        spec_last_ix(s, c) >= 0 ==> s[spec_last_ix(s, c)] == c,
        forall|k: int| spec_last_ix(s, c) < k < s.len() ==> s[k] != c,
    decreases s.len(),
{
    if s.len() > 0 && s[s.len() - 1] != c {
        lemma_last_ix(s.drop_last(), c);
        assert(forall|k: int| spec_last_ix(s, c) < k < s.len() - 1 ==> s.drop_last()[k] == s[k]);
    }
}

/// The index of the first occurrence of `c` in `s`, or the length of `s`
/// when `c` does not occur.
pub fn first_ix(s: &str, c: char) -> (r: usize)
    ensures
        r == spec_first_ix(s@, c),
{
    proof {
        lemma_first_ix(s@, c);
    }
    let n = s.unicode_len();
    let mut i: usize = 0;
    while i < n
        invariant
            n == s@.len(),
            i <= n,
            forall|k: int| 0 <= k < i ==> s@[k] != c,
            0 <= spec_first_ix(s@, c) <= s@.len(),
            spec_first_ix(s@, c) < s@.len() ==> s@[spec_first_ix(s@, c)] == c,
            forall|k: int| 0 <= k < spec_first_ix(s@, c) ==> s@[k] != c,
        decreases n - i,
    {
        if s.get_char(i) == c {
            return i;
        }
        i += 1;
    }
    i
}

/// The index of the last occurrence of `c` in `s`, or the length of `s`
/// when `c` does not occur (so that the result is a `usize`); the contract
/// relates it to `spec_last_ix`, whose no-occurrence value is `-1`.
pub fn last_ix_or_len(s: &str, c: char) -> (r: usize)
    ensures
        spec_last_ix(s@, c) >= 0 ==> r == spec_last_ix(s@, c),
        spec_last_ix(s@, c) < 0 ==> r == s@.len(),
{
    proof {
        lemma_last_ix(s@, c);
    }
    let n = s.unicode_len();
    let mut i: usize = n;
    while i > 0
        invariant
            n == s@.len(),
            i <= n,
            forall|k: int| i <= k < n ==> s@[k] != c,
            -1 <= spec_last_ix(s@, c) < s@.len(),
            spec_last_ix(s@, c) >= 0 ==> s@[spec_last_ix(s@, c)] == c,
            forall|k: int| spec_last_ix(s@, c) < k < s@.len() ==> s@[k] != c,
        decreases i,
    {
        i -= 1;
        if s.get_char(i) == c {
            return i;
        }
    }
    n
}

/// Whether `c` occurs in `s`.
pub fn str_has_char(s: &str, c: char) -> (r: bool)
    ensures
        r == s@.contains(c),
{
    proof {
        lemma_first_ix(s@, c);
    }
    let i = first_ix(s, c);
    let r = i < s.unicode_len();
    proof {
        if r {
            assert(s@.contains(c));
        } else {
            assert(forall|k: int| 0 <= k < s@.len() ==> s@[k] != c);
        }
    }
    r
}

pub proof fn lemma_first_ix_contains(s: Seq<char>, c: char)
    ensures
        s.contains(c) <==> spec_first_ix(s, c) < s.len(),
{
    lemma_first_ix(s, c);
    if s.contains(c) {
        let w = choose|k: int| 0 <= k < s.len() && s[k] == c;
        assert(spec_first_ix(s, c) <= w);
    } else {
        if spec_first_ix(s, c) < s.len() {
            assert(s[spec_first_ix(s, c)] == c);
        }
    }
}

pub proof fn lemma_last_ix_contains(s: Seq<char>, c: char)
    ensures
        s.contains(c) <==> spec_last_ix(s, c) >= 0,
{
    lemma_last_ix(s, c);
    if s.contains(c) {
        let w = choose|k: int| 0 <= k < s.len() && s[k] == c;
        assert(spec_last_ix(s, c) >= w);
    } else {
        if spec_last_ix(s, c) >= 0 {
            assert(s[spec_last_ix(s, c)] == c);
        }
    }
}

/// The part of `s` before the first occurrence of `c` (all of `s` when `c`
/// does not occur).
pub open spec fn spec_before_first(s: Seq<char>, c: char) -> Seq<char> {
    s.subrange(0, spec_first_ix(s, c))
}

/// The part of `s` after the first occurrence of `c`; meaningful only when
/// `c` occurs.
pub open spec fn spec_after_first(s: Seq<char>, c: char) -> Seq<char> {
    s.subrange(spec_first_ix(s, c) + 1, s.len() as int)
}

/// The part of `s` before the last occurrence of `c`; meaningful only when
/// `c` occurs.
pub open spec fn spec_before_last(s: Seq<char>, c: char) -> Seq<char> {
    s.subrange(0, spec_last_ix(s, c))
}

/// The part of `s` after the last occurrence of `c`.
pub open spec fn spec_after_last(s: Seq<char>, c: char) -> Seq<char> {
    s.subrange(spec_last_ix(s, c) + 1, s.len() as int)
}

/// The substring of `s` from `from` (inclusive) to `to` (exclusive), as an
/// owned string.
pub fn substring(s: &str, from: usize, to: usize) -> (r: String)
    requires
        from <= to <= s@.len(),
    ensures
        r@ == s@.subrange(from as int, to as int),
{
    String::from_str(s.substring_char(from, to))
}

/// Splits `s` at the first occurrence of `c`, which must occur; neither
/// part contains that occurrence.
pub fn split_first(s: &str, c: char) -> (r: (String, String))
    requires
        s@.contains(c),
    ensures
        r.0@ == spec_before_first(s@, c),
        r.1@ == spec_after_first(s@, c),
{
    proof {
        lemma_first_ix_contains(s@, c);
        lemma_first_ix(s@, c);
    }
    let i = first_ix(s, c);
    let n = s.unicode_len();
    (substring(s, 0, i), substring(s, i + 1, n))
}

/// Splits `s` at the last occurrence of `c`, which must occur; neither
/// part contains that occurrence.
pub fn split_last(s: &str, c: char) -> (r: (String, String))
    requires
        s@.contains(c),
    ensures
        r.0@ == spec_before_last(s@, c),
        r.1@ == spec_after_last(s@, c),
{
    proof {
        lemma_last_ix_contains(s@, c);
        lemma_last_ix(s@, c);
    }
    let i = last_ix_or_len(s, c);
    let n = s.unicode_len();
    (substring(s, 0, i), substring(s, i + 1, n))
}

} // verus!

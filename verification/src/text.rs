//! Character-level text utilities: conversion between strings and
//! character vectors, whitespace trimming, prefix and suffix tests, and
//! decimal rendering.

use vstd::prelude::*;
use vstd::string::*;

verus! {

/// Appends one character to a string.
///
/// Trusted: this is `String::push` of the standard library, which appends
/// the given character to the end of the string and changes nothing else.
#[verifier::external_body]
pub(crate) fn push_char(s: &mut String, c: char)
    ensures
        final(s)@ == old(s)@.push(c),
{
    s.push(c);
}

/// The characters of a string, in order.
pub fn to_chars(s: &str) -> (v: Vec<char>)
    ensures
        v@ == s@,
{
    let mut v: Vec<char> = Vec::new();
    for c in it: s.chars()
        invariant
            it.seq() == s@,
            v@ == s@.take(it.index()),
    {
        v.push(c);
        assert(v@ =~= s@.take(it.index() + 1));
    }
    assert(v@ =~= s@);
    v
}

/// The string made of the given characters, in order.
pub fn to_text(v: &Vec<char>) -> (s: String)
    ensures
        s@ == v@,
{
    let mut s = String::new();
    let mut i: usize = 0;
    while i < v.len()
        invariant
            i <= v.len(),
            s@ == v@.take(i as int),
        decreases v.len() - i,
    {
        push_char(&mut s, v[i]);
        i += 1;
        assert(s@ =~= v@.take(i as int));
    }
    assert(s@ =~= v@);
    s
}

/// A copy of the characters from position `lo` up to, not including, `hi`.
pub fn slice_chars(v: &Vec<char>, lo: usize, hi: usize) -> (r: Vec<char>)
    requires
        lo <= hi <= v.len(),
    ensures
        r@ == v@.subrange(lo as int, hi as int),
{
    let mut r: Vec<char> = Vec::new();
    let mut i: usize = lo;
    while i < hi
        invariant
            lo <= i <= hi <= v.len(),
            r@ == v@.subrange(lo as int, i as int),
        decreases hi - i,
    {
        r.push(v[i]);
        i += 1;
        assert(r@ =~= v@.subrange(lo as int, i as int));
    }
    r
}

/// Whether two character vectors hold the same text.
pub fn chars_equal(a: &Vec<char>, b: &Vec<char>) -> (r: bool)
    ensures
        r == (a@ == b@),
{
    if a.len() != b.len() {
        return false;
    }
    let mut i: usize = 0;
    while i < a.len()
        invariant
            i <= a.len(),
            a.len() == b.len(),
            a@.take(i as int) == b@.take(i as int),
        decreases a.len() - i,
    {
        if a[i] != b[i] {
            return false;
        }
        i += 1;
        assert(a@.take(i as int) =~= a@.take(i - 1).push(a@[i - 1]));
        assert(b@.take(i as int) =~= b@.take(i - 1).push(b@[i - 1]));
    }
    assert(a@ =~= a@.take(i as int));
    assert(b@ =~= b@.take(i as int));
    true
}

/// The characters that count as white space: those with the Unicode
/// property `White_Space`.
pub open spec fn is_whitespace(c: char) -> bool {
    let n = c as u32;
    ||| 0x09 <= n <= 0x0D
    ||| n == 0x20
    ||| n == 0x85
    ||| n == 0xA0
    ||| n == 0x1680
    ||| 0x2000 <= n <= 0x200A
    ||| n == 0x2028
    ||| n == 0x2029
    ||| n == 0x202F
    ||| n == 0x205F
    ||| n == 0x3000
}

/// Whether every character of the text is white space.
pub open spec fn all_whitespace(s: Seq<char>) -> bool {
    forall|i: int| 0 <= i < s.len() ==> is_whitespace(#[trigger] s[i])
}

/// The text without its leading white space.
pub open spec fn trim_start(s: Seq<char>) -> Seq<char>
    decreases s.len(),
{
    if s.len() > 0 && is_whitespace(s[0]) {
        trim_start(s.drop_first())
    } else {
        s
    }
}

/// The text without its trailing white space.
pub open spec fn trim_end(s: Seq<char>) -> Seq<char>
    decreases s.len(),
{
    if s.len() > 0 && is_whitespace(s.last()) {
        trim_end(s.drop_last())
    } else {
        s
    }
}

/// The text without leading and trailing white space.
pub open spec fn trim(s: Seq<char>) -> Seq<char> {
    trim_end(trim_start(s))
}

/// Trimming at the start removes exactly the leading run of white space.
pub proof fn lemma_trim_start_skips(s: Seq<char>, a: int)
    requires
        0 <= a <= s.len(),
        forall|k: int| 0 <= k < a ==> is_whitespace(#[trigger] s[k]),
        a < s.len() ==> !is_whitespace(s[a]),
    ensures
        trim_start(s) == s.subrange(a, s.len() as int),
    decreases a,
{
    if a == 0 {
        assert(s.subrange(0, s.len() as int) =~= s);
    } else {
        let rest = s.drop_first();
        assert forall|k: int| 0 <= k < a - 1 implies is_whitespace(#[trigger] rest[k]) by {
            assert(rest[k] == s[k + 1]);
        }
        lemma_trim_start_skips(rest, a - 1);
        assert(rest.subrange(a - 1, rest.len() as int) =~= s.subrange(a, s.len() as int));
    }
}

/// Trimming at the end removes exactly the trailing run of white space.
pub proof fn lemma_trim_end_skips(s: Seq<char>, b: int)
    requires
        0 <= b <= s.len(),
        forall|k: int| b <= k < s.len() ==> is_whitespace(#[trigger] s[k]),
        b > 0 ==> !is_whitespace(s[b - 1]),
    ensures
        trim_end(s) == s.subrange(0, b),
    decreases s.len() - b,
{
    if b == s.len() {
        assert(s.subrange(0, b) =~= s);
    } else {
        let rest = s.drop_last();
        assert forall|k: int| b <= k < rest.len() implies is_whitespace(#[trigger] rest[k]) by {
            assert(rest[k] == s[k]);
        }
        lemma_trim_end_skips(rest, b);
        assert(rest.subrange(0, b) =~= s.subrange(0, b));
    }
}

/// Whether the leading run of white space in `s` ends at `a`.
pub open spec fn leading_run_ends(s: Seq<char>, a: int) -> bool {
    &&& 0 <= a <= s.len()
    &&& forall|k: int| 0 <= k < a ==> is_whitespace(#[trigger] s[k])
    &&& a < s.len() ==> !is_whitespace(s[a])
}

/// Whether the trailing run of white space in `s` starts at `b`.
pub open spec fn trailing_run_starts(s: Seq<char>, b: int) -> bool {
    &&& 0 <= b <= s.len()
    &&& forall|k: int| b <= k < s.len() ==> is_whitespace(#[trigger] s[k])
    &&& b > 0 ==> !is_whitespace(s[b - 1])
}

proof fn lemma_leading_run_exists(s: Seq<char>, from: int)
    requires
        0 <= from <= s.len(),
        forall|k: int| 0 <= k < from ==> is_whitespace(#[trigger] s[k]),
    ensures
        exists|a: int| leading_run_ends(s, a),
    decreases s.len() - from,
{
    if from < s.len() && is_whitespace(s[from]) {
        lemma_leading_run_exists(s, from + 1);
    } else {
        assert(leading_run_ends(s, from));
    }
}

proof fn lemma_trailing_run_exists(s: Seq<char>, to: int)
    requires
        0 <= to <= s.len(),
        forall|k: int| to <= k < s.len() ==> is_whitespace(#[trigger] s[k]),
    ensures
        exists|b: int| trailing_run_starts(s, b),
    decreases to,
{
    if to > 0 && is_whitespace(s[to - 1]) {
        lemma_trailing_run_exists(s, to - 1);
    } else {
        assert(trailing_run_starts(s, to));
    }
}

/// Trimming keeps one unbroken part of the text: from `bounds.0` up to,
/// not including, `bounds.1`.  What it drops on either side is white
/// space, and what it keeps neither starts nor ends with white space.
pub proof fn lemma_trim_bounds(s: Seq<char>) -> (bounds: (int, int))
    ensures
        0 <= bounds.0 <= bounds.1 <= s.len(),
        trim(s) == s.subrange(bounds.0, bounds.1),
        forall|k: int| 0 <= k < bounds.0 ==> is_whitespace(#[trigger] s[k]),
        forall|k: int| bounds.1 <= k < s.len() ==> is_whitespace(#[trigger] s[k]),
        bounds.0 < bounds.1 ==> !is_whitespace(s[bounds.0]) && !is_whitespace(s[bounds.1 - 1]),
{
    lemma_leading_run_exists(s, 0);
    let a = choose|a: int| leading_run_ends(s, a);
    lemma_trim_start_skips(s, a);
    let tail = s.subrange(a, s.len() as int);
    lemma_trailing_run_exists(tail, tail.len() as int);
    let b = choose|b: int| trailing_run_starts(tail, b);
    lemma_trim_end_skips(tail, b);
    assert(tail.subrange(0, b) =~= s.subrange(a, a + b));
    assert forall|k: int| a + b <= k < s.len() implies is_whitespace(#[trigger] s[k]) by {
        assert(tail[k - a] == s[k]);
    }
    if b > 0 {
        assert(tail[b - 1] == s[a + b - 1]);
        assert(tail[0] == s[a]);
    }
    (a, a + b)
}

/// Trimming a text that neither starts nor ends with white space, wrapped
/// in white space on both sides, gives the text back.
pub proof fn lemma_trim_of_padded(before: Seq<char>, core: Seq<char>, after: Seq<char>)
    requires
        all_whitespace(before),
        all_whitespace(after),
        core.len() > 0 ==> !is_whitespace(core.first()) && !is_whitespace(core.last()),
    ensures
        trim(before + core + after) == core,
{
    let whole = before + core + after;
    let a = before.len() as int;
    if core.len() == 0 {
        assert forall|k: int| 0 <= k < whole.len() implies is_whitespace(#[trigger] whole[k]) by {
            if k < a {
                assert(whole[k] == before[k]);
            } else {
                assert(whole[k] == after[k - a]);
            }
        }
        lemma_trim_start_skips(whole, whole.len() as int);
        assert(whole.subrange(whole.len() as int, whole.len() as int) =~= core);
    } else {
        assert forall|k: int| 0 <= k < a implies is_whitespace(#[trigger] whole[k]) by {
            assert(whole[k] == before[k]);
        }
        assert(whole[a] == core[0]);
        lemma_trim_start_skips(whole, a);
        let tail = whole.subrange(a, whole.len() as int);
        assert(tail =~= core + after);
        let b = core.len() as int;
        assert forall|k: int| b <= k < tail.len() implies is_whitespace(#[trigger] tail[k]) by {
            assert(tail[k] == after[k - b]);
        }
        assert(tail[b - 1] == core[b - 1]);
        lemma_trim_end_skips(tail, b);
        assert(tail.subrange(0, b) =~= core);
    }
}

/// Whether a character is white space.
pub fn char_is_whitespace(c: char) -> (r: bool)
    ensures
        r == is_whitespace(c),
{
    let n: u32 = c as u32;
    (0x09 <= n && n <= 0x0D) || n == 0x20 || n == 0x85 || n == 0xA0 || n == 0x1680 || (0x2000 <= n
        && n <= 0x200A) || n == 0x2028 || n == 0x2029 || n == 0x202F || n == 0x205F || n == 0x3000
}

/// The characters without leading and trailing white space.
pub fn trim_chars(v: &Vec<char>) -> (r: Vec<char>)
    ensures
        r@ == trim(v@),
{
    let n: usize = v.len();
    let mut lo: usize = 0;
    while lo < n && char_is_whitespace(v[lo])
        invariant
            lo <= n,
            n == v.len(),
            forall|k: int| 0 <= k < lo ==> is_whitespace(#[trigger] v@[k]),
        decreases n - lo,
    {
        lo += 1;
    }
    let mut hi: usize = n;
    while hi > lo && char_is_whitespace(v[hi - 1])
        invariant
            lo <= hi <= n,
            n == v.len(),
            forall|k: int| hi <= k < n ==> is_whitespace(#[trigger] v@[k]),
        decreases hi,
    {
        hi -= 1;
    }
    proof {
        lemma_trim_start_skips(v@, lo as int);
        let tail = v@.subrange(lo as int, n as int);
        assert forall|k: int| hi - lo <= k < tail.len() implies is_whitespace(
            #[trigger] tail[k],
        ) by {
            assert(tail[k] == v@[k + lo]);
        }
        if hi > lo {
            assert(tail[hi - lo - 1] == v@[hi - 1]);
        }
        lemma_trim_end_skips(tail, hi - lo);
        assert(tail.subrange(0, hi - lo) =~= v@.subrange(lo as int, hi as int));
    }
    slice_chars(v, lo, hi)
}

/// Whether a text is blank: empty once trimmed.
pub fn is_blank(s: &str) -> (r: bool)
    ensures
        r == (trim(s@).len() == 0),
{
    let chars = to_chars(s);
    trim_chars(&chars).len() == 0
}

/// Whether `s` begins with `prefix`.
pub fn starts_with_chars(s: &Vec<char>, prefix: &Vec<char>) -> (r: bool)
    ensures
        r == prefix@.is_prefix_of(s@),
{
    if prefix.len() > s.len() {
        return false;
    }
    let head = slice_chars(s, 0, prefix.len());
    chars_equal(&head, prefix)
}

/// Whether `s` ends with `suffix`.
pub fn ends_with_chars(s: &Vec<char>, suffix: &Vec<char>) -> (r: bool)
    ensures
        r == suffix@.is_suffix_of(s@),
{
    if suffix.len() > s.len() {
        return false;
    }
    let tail = slice_chars(s, s.len() - suffix.len(), s.len());
    chars_equal(&tail, suffix)
}

/// The code of a character, with the ASCII capital letters mapped to
/// their small forms.
pub open spec fn lower_code(c: char) -> int {
    if 'A' <= c && c <= 'Z' {
        c as u32 + 32
    } else {
        c as u32 as int
    }
}

/// Whether a text equals a name written in small letters, if the case of
/// ASCII letters is ignored.
pub open spec fn matches_ignoring_case(s: Seq<char>, name: Seq<char>) -> bool {
    &&& s.len() == name.len()
    &&& forall|i: int| 0 <= i < s.len() ==> lower_code(#[trigger] s[i]) == name[i] as u32
}

/// Whether a text equals a name written in small letters, if the case of
/// ASCII letters is ignored.
pub fn eq_ignoring_case(s: &Vec<char>, name: &Vec<char>) -> (r: bool)
    ensures
        r == matches_ignoring_case(s@, name@),
{
    if s.len() != name.len() {
        return false;
    }
    let mut i: usize = 0;
    while i < s.len()
        invariant
            i <= s.len(),
            s.len() == name.len(),
            forall|k: int| 0 <= k < i ==> lower_code(#[trigger] s@[k]) == name@[k] as u32,
        decreases s.len() - i,
    {
        let c = s[i];
        let code: u32 = if 'A' <= c && c <= 'Z' {
            c as u32 + 32
        } else {
            c as u32
        };
        if code != name[i] as u32 {
            assert(lower_code(s@[i as int]) != name@[i as int] as u32);
            return false;
        }
        i += 1;
    }
    true
}

/// The decimal digit for a value below ten.
pub open spec fn digit_char(d: nat) -> char {
    if d == 0 {
        '0'
    } else if d == 1 {
        '1'
    } else if d == 2 {
        '2'
    } else if d == 3 {
        '3'
    } else if d == 4 {
        '4'
    } else if d == 5 {
        '5'
    } else if d == 6 {
        '6'
    } else if d == 7 {
        '7'
    } else if d == 8 {
        '8'
    } else {
        '9'
    }
}

/// The decimal numeral of a natural number, without leading zeros.
pub open spec fn decimal(n: nat) -> Seq<char>
    decreases n,
{
    if n < 10 {
        seq![digit_char(n)]
    } else {
        decimal(n / 10).push(digit_char(n % 10))
    }
}

/// Ten to the power `k`.
pub open spec fn pow10(k: nat) -> nat
    decreases k,
{
    if k == 0 {
        1
    } else {
        10 * pow10((k - 1) as nat)
    }
}

/// A number below ten to the `k` has at most `k` digits.
pub proof fn lemma_decimal_len(n: nat, k: nat)
    requires
        k >= 1,
        n < pow10(k),
    ensures
        1 <= decimal(n).len() <= k,
    decreases k,
{
    reveal_with_fuel(pow10, 2);
    if n >= 10 {
        assert(k >= 2);
        lemma_decimal_len(n / 10, (k - 1) as nat);
    }
}

/// The numeral of a machine-sized count has at most twenty digits.
pub proof fn lemma_decimal_len_usize(n: usize)
    ensures
        1 <= decimal(n as nat).len() <= 20,
{
    reveal_with_fuel(pow10, 21);
    assert(pow10(20) == 100000000000000000000);
    lemma_decimal_len(n as nat, 20);
}

fn digit_of(d: usize) -> (c: char)
    requires
        d < 10,
    ensures
        c == digit_char(d as nat),
{
    if d == 0 {
        '0'
    } else if d == 1 {
        '1'
    } else if d == 2 {
        '2'
    } else if d == 3 {
        '3'
    } else if d == 4 {
        '4'
    } else if d == 5 {
        '5'
    } else if d == 6 {
        '6'
    } else if d == 7 {
        '7'
    } else if d == 8 {
        '8'
    } else {
        '9'
    }
}

/// The decimal numeral of a count.
pub fn decimal_chars(n: usize) -> (r: Vec<char>)
    ensures
        r@ == decimal(n as nat),
{
    let mut digits: Vec<char> = Vec::new();
    let mut m: usize = n;
    while m >= 10
        invariant
            decimal(n as nat) == decimal(m as nat) + digits@,
        decreases m,
    {
        let c = digit_of(m % 10);
        let ghost before = digits@;
        digits.insert(0, c);
        assert(decimal(m as nat) == decimal((m / 10) as nat).push(c));
        assert(decimal((m / 10) as nat).push(c) + before =~= decimal((m / 10) as nat) + digits@);
        m = m / 10;
    }
    let c = digit_of(m);
    digits.insert(0, c);
    assert(decimal(n as nat) =~= digits@);
    digits
}

} // verus!

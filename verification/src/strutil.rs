//! Verified string utilities: joining, searching and replacing over
//! `Seq<char>` views, shared by the plan and recipe modules.
use vstd::prelude::*;

verus! {

/// The tail of a separated join: one separator before every element.
pub open spec fn spec_join_rest(parts: Seq<Seq<char>>, sep: Seq<char>) -> Seq<char>
    decreases parts.len(),
{
    if parts.len() == 0 {
        Seq::empty()
    } else {
        sep + parts[0] + spec_join_rest(parts.skip(1), sep)
    }
}

/// The elements of `parts` concatenated with `sep` between neighbours.
pub open spec fn spec_join(parts: Seq<Seq<char>>, sep: Seq<char>) -> Seq<char> {
    if parts.len() == 0 {
        Seq::empty()
    } else {
        parts[0] + spec_join_rest(parts.skip(1), sep)
    }
}

/// Joins the strings of `parts`, separated by `sep`.
pub fn join_strings(parts: &Vec<String>, sep: &str) -> (r: String)
    ensures
        r@ == spec_join(parts.deep_view(), sep@),
{
    let ghost pd: Seq<Seq<char>> = parts.deep_view();
    let mut r = String::new();
    let mut i: usize = 0;
    while i < parts.len()
        invariant
            0 <= i <= parts.len(),
            i == 0 ==> r@ == Seq::<char>::empty(),
            i > 0 ==> spec_join(pd, sep@) == r@ + spec_join_rest(pd.skip(i as int), sep@),
        decreases parts.len() - i,
    {
        assert(pd[i as int] == parts[i as int].deep_view());
        if i > 0 {
            assert(pd.skip(i as int).skip(1) =~= pd.skip(i as int + 1));
            assert(pd.skip(i as int)[0] == pd[i as int]);
            r.append(sep);
        } else {
            assert(pd.skip(1) =~= pd.skip(0).skip(1));
        }
        r.append(parts[i].as_str());
        i = i + 1;
    }
    if parts.len() == 0 {
        assert(r@ == spec_join(pd, sep@));
    } else {
        assert(pd.skip(parts.len() as int).len() == 0);
        assert(r@ + spec_join_rest(pd.skip(parts.len() as int), sep@) =~= r@);
    }
    r
}

/// True when the two string slices hold the same characters.
pub fn str_eq(a: &str, b: &str) -> (r: bool)
    ensures
        r == (a@ == b@),
{
    let x: String = a.to_owned();
    let y: String = b.to_owned();
    x == y
}

/// `pat` occurs in `s` starting at position `i`.
pub open spec fn spec_match_at(s: Seq<char>, pat: Seq<char>, i: int) -> bool {
    0 <= i && i + pat.len() <= s.len() && s.subrange(i, i + pat.len() as int) == pat
}

/// `pat` occurs somewhere in `s`.
pub open spec fn spec_contains(s: Seq<char>, pat: Seq<char>) -> bool {
    exists|i: int| spec_match_at(s, pat, i)
}

/// True when `pat` occurs in `s` starting at character position `i`.
pub fn match_at(s: &str, pat: &str, i: usize) -> (r: bool)
    requires
        i + pat@.len() <= s@.len(),
    ensures
        r == spec_match_at(s@, pat@, i as int),
{
    let slen = s.unicode_len();
    let plen = pat.unicode_len();
    let mut k: usize = 0;
    while k < plen
        invariant
            0 <= k <= plen,
            forall|j: int| 0 <= j < k ==> s@[i + j] == pat@[j],
        decreases plen - k,
    {
        if s.get_char(i + k) != pat.get_char(k) {
            assert(s@.subrange(i as int, i + pat@.len() as int)[k as int] != pat@[k as int]);
            return false;
        }
        k = k + 1;
    }
    assert(s@.subrange(i as int, i + pat@.len() as int) =~= pat@);
    true
}

/// True when `pat` occurs somewhere in `s`.
pub fn contains_str(s: &str, pat: &str) -> (r: bool)
    ensures
        r == spec_contains(s@, pat@),
{
    let slen = s.unicode_len();
    let plen = pat.unicode_len();
    if plen > slen {
        assert(!spec_contains(s@, pat@));
        return false;
    }
    let mut i: usize = 0;
    loop
        invariant
            plen <= slen,
            0 <= i <= slen - plen,
            forall|j: int| 0 <= j < i ==> !spec_match_at(s@, pat@, j),
        decreases slen - plen - i,
    {
        if match_at(s, pat, i) {
            return true;
        }
        if i == slen - plen {
            assert(forall|j: int| spec_match_at(s@, pat@, j) ==> 0 <= j <= slen - plen);
            return false;
        }
        i = i + 1;
    }
}

/// `s` ends with the characters of `pat`.
pub open spec fn spec_ends_with(s: Seq<char>, pat: Seq<char>) -> bool {
    pat.len() <= s.len() && s.subrange(s.len() - pat.len(), s.len() as int) == pat
}

/// True when `s` ends with `pat`.
pub fn ends_with_str(s: &str, pat: &str) -> (r: bool)
    ensures
        r == spec_ends_with(s@, pat@),
{
    let slen = s.unicode_len();
    let plen = pat.unicode_len();
    if plen > slen {
        return false;
    }
    match_at(s, pat, slen - plen)
}

/// Every occurrence of `pat` in `s` replaced by `to`, scanning left to
/// right without overlap.
pub open spec fn spec_replace(s: Seq<char>, pat: Seq<char>, to: Seq<char>) -> Seq<char>
    decreases s.len(),
{
    if s.len() == 0 {
        Seq::empty()
    } else if pat.len() > 0 && spec_match_at(s, pat, 0) {
        to + spec_replace(s.skip(pat.len() as int), pat, to)
    } else {
        seq![s[0]] + spec_replace(s.skip(1), pat, to)
    }
}

/// Replaces every occurrence of `pat` in `s` by `to`, left to right.
pub fn replace_all(s: &str, pat: &str, to: &str) -> (r: String)
    requires
        pat@.len() > 0,
    ensures
        r@ == spec_replace(s@, pat@, to@),
{
    let slen = s.unicode_len();
    let plen = pat.unicode_len();
    let mut r = String::new();
    let ghost full = spec_replace(s@, pat@, to@);
    proof {
        assert(s@.skip(0) =~= s@);
        assert(r@ + full =~= full);
    }
    let mut i: usize = 0;
    while i < slen
        invariant
            0 <= i <= slen,
            pat@.len() > 0,
            spec_replace(s@, pat@, to@) == r@ + spec_replace(s@.skip(i as int), pat@, to@),
        decreases slen - i,
    {
        let ghost rest = s@.skip(i as int);
        if plen <= slen - i && match_at(s, pat, i) {
            assert(rest.subrange(0, pat@.len() as int) =~= s@.subrange(
                i as int,
                i + pat@.len() as int,
            ));
            assert(spec_match_at(rest, pat@, 0));
            assert(rest.skip(pat@.len() as int) =~= s@.skip(i + pat@.len()));
            r.append(to);
            i = i + plen;
        } else {
            assert(!spec_match_at(rest, pat@, 0)) by {
                if spec_match_at(rest, pat@, 0) {
                    assert(rest.subrange(0, pat@.len() as int) =~= s@.subrange(
                        i as int,
                        i + pat@.len() as int,
                    ));
                }
            }
            assert(rest.skip(1) =~= s@.skip(i as int + 1));
            assert(rest[0] == s@[i as int]);
            let piece = s.substring_char(i, i + 1);
            assert(piece@ =~= seq![s@[i as int]]);
            r.append(piece);
            i = i + 1;
        }
    }
    assert(s@.skip(slen as int).len() == 0);
    assert(r@ + spec_replace(s@.skip(slen as int), pat@, to@) =~= r@);
    r
}

/// Whether a character counts as whitespace for trimming, as the Unicode
/// `White_Space` property defines it.
pub uninterp spec fn is_unicode_space(c: char) -> bool;

/// Relies on char::is_whitespace: true exactly for characters with the
/// Unicode `White_Space` property, a function of the character alone.
#[verifier::external_body]
fn char_is_whitespace(c: char) -> (r: bool)
    ensures
        r == is_unicode_space(c),
{
    c.is_whitespace()
}

/// `s` without its leading whitespace.
pub open spec fn spec_trim_start(s: Seq<char>) -> Seq<char>
    decreases s.len(),
{
    if s.len() > 0 && is_unicode_space(s[0]) {
        spec_trim_start(s.skip(1))
    } else {
        s
    }
}

/// `s` without its trailing whitespace.
pub open spec fn spec_trim_end(s: Seq<char>) -> Seq<char>
    decreases s.len(),
{
    if s.len() > 0 && is_unicode_space(s[s.len() - 1]) {
        spec_trim_end(s.take(s.len() - 1))
    } else {
        s
    }
}

/// `s` without leading and trailing whitespace.
pub open spec fn spec_trim(s: Seq<char>) -> Seq<char> {
    spec_trim_end(spec_trim_start(s))
}

/// Removes leading and trailing whitespace characters.
pub fn trim_str<'a>(s: &'a str) -> (r: &'a str)
    ensures
        r@ == spec_trim(s@),
{
    let slen = s.unicode_len();
    assert(s@.skip(0) =~= s@);
    let mut lo: usize = 0;
    while lo < slen && char_is_whitespace(s.get_char(lo))
        invariant
            0 <= lo <= slen,
            spec_trim_start(s@) == spec_trim_start(s@.skip(lo as int)),
        decreases slen - lo,
    {
        assert(s@.skip(lo as int).skip(1) =~= s@.skip(lo as int + 1));
        lo = lo + 1;
    }
    assert(spec_trim_start(s@) == s@.skip(lo as int));
    assert(s@.skip(lo as int).take(slen - lo as int) =~= s@.skip(lo as int));
    let mut hi: usize = slen;
    while hi > lo && char_is_whitespace(s.get_char(hi - 1))
        invariant
            lo <= hi <= slen,
            spec_trim_end(s@.skip(lo as int)) == spec_trim_end(
                s@.skip(lo as int).take(hi - lo as int),
            ),
        decreases hi,
    {
        let ghost seg = s@.skip(lo as int).take(hi - lo as int);
        assert(seg[seg.len() - 1] == s@[hi - 1]);
        assert(seg.take(seg.len() - 1) =~= s@.skip(lo as int).take(hi - 1 - lo as int));
        hi = hi - 1;
    }
    proof {
        let seg = s@.skip(lo as int).take(hi - lo as int);
        if hi > lo {
            assert(seg[seg.len() - 1] == s@[hi - 1]);
            assert(spec_trim_end(seg) == seg);
        }
    }
    let r = s.substring_char(lo, hi);
    assert(r@ =~= s@.skip(lo as int).take(hi - lo as int));
    r
}

/// An ASCII decimal digit.
pub open spec fn spec_is_digit(c: char) -> bool {
    '0' <= c && c <= '9'
}

/// Every character of `s` is an ASCII decimal digit.
pub open spec fn spec_all_digits(s: Seq<char>) -> bool {
    forall|i: int| 0 <= i < s.len() ==> spec_is_digit(#[trigger] s[i])
}

/// The numeric value of a digit string, most significant digit first.
pub open spec fn spec_digits_value(s: Seq<char>) -> int
    decreases s.len(),
{
    if s.len() == 0 {
        0
    } else {
        spec_digits_value(s.take(s.len() - 1)) * 10 + (s[s.len() - 1] as int - '0' as int)
    }
}

proof fn lemma_digits_value_nonneg(s: Seq<char>)
    requires
        spec_all_digits(s),
    ensures
        spec_digits_value(s) >= 0,
    decreases s.len(),
{
    if s.len() > 0 {
        assert(spec_all_digits(s.take(s.len() - 1)));
        lemma_digits_value_nonneg(s.take(s.len() - 1));
        assert(spec_digits_value(s.take(s.len() - 1)) * 10 >= 0) by (nonlinear_arith)
            requires
                spec_digits_value(s.take(s.len() - 1)) >= 0,
        ;
    }
}

/// The digits of `d` read as an `i32` with the given sign; out-of-range
/// values and non-digit strings give zero.
pub open spec fn spec_parse_digits_signed(d: Seq<char>, neg: bool) -> int {
    if d.len() == 0 || !spec_all_digits(d) {
        0
    } else if neg {
        if spec_digits_value(d) <= 0x8000_0000 {
            -spec_digits_value(d)
        } else {
            0
        }
    } else {
        if spec_digits_value(d) <= 0x7fff_ffff {
            spec_digits_value(d)
        } else {
            0
        }
    }
}

/// `s` read as an optionally signed decimal `i32`; anything unparsable or
/// out of range gives zero.
pub open spec fn spec_parse_i32_or_zero(s: Seq<char>) -> int {
    if s.len() > 0 && (s[0] == '+' || s[0] == '-') {
        spec_parse_digits_signed(s.skip(1), s[0] == '-')
    } else {
        spec_parse_digits_signed(s, false)
    }
}

/// Parses `s` as a decimal `i32`; returns zero when `s` is not a number or
/// does not fit.
pub fn parse_i32_or_zero(s: &str) -> (r: i32)
    ensures
        r as int == spec_parse_i32_or_zero(s@),
{
    let slen = s.unicode_len();
    let mut start: usize = 0;
    let mut neg = false;
    if slen > 0 {
        let c0 = s.get_char(0);
        if c0 == '+' || c0 == '-' {
            start = 1;
            neg = c0 == '-';
        }
    }
    let ghost digits = s@.skip(start as int);
    proof {
        if start == 0 {
            assert(s@.skip(0) =~= s@);
        }
    }
    if slen == start {
        return 0;
    }
    let mut acc: u64 = 0;
    let mut over = false;
    let mut i: usize = start;
    while i < slen
        invariant
            start <= i <= slen,
            start < slen,
            spec_all_digits(s@.subrange(start as int, i as int)),
            !over ==> acc <= 0x8000_0000 && acc as int == spec_digits_value(
                s@.subrange(start as int, i as int),
            ),
            over ==> spec_digits_value(s@.subrange(start as int, i as int)) > 0x8000_0000,
        decreases slen - i,
    {
        let c = s.get_char(i);
        if !((c as u32) >= 48 && (c as u32) <= 57) {
            assert(s@[i as int] == digits[i - start]);
            assert(!spec_all_digits(digits));
            return 0;
        }
        let d: u64 = ((c as u32) - 48) as u64;
        let ghost pre = s@.subrange(start as int, i as int);
        let ghost post = s@.subrange(start as int, i as int + 1);
        assert(post.take(post.len() - 1) =~= pre);
        assert(post[post.len() - 1] == s@[i as int]);
        if over {
            proof {
                assert(spec_all_digits(post));
                lemma_digits_value_nonneg(pre);
                assert(spec_digits_value(pre) * 10 >= spec_digits_value(pre)) by (nonlinear_arith)
                    requires
                        spec_digits_value(pre) >= 0,
                ;
            }
        } else {
            let next = acc * 10 + d;
            if next > 0x8000_0000 {
                over = true;
            } else {
                acc = next;
            }
        }
        i = i + 1;
    }
    proof {
        assert(s@.subrange(start as int, slen as int) =~= digits);
    }
    if over {
        return 0;
    }
    if neg {
        if acc == 0x8000_0000 {
            i32::MIN
        } else {
            let v = acc as i32;
            0i32 - v
        }
    } else {
        if acc <= 0x7fff_ffff {
            acc as i32
        } else {
            0
        }
    }
}

/// Position of the last occurrence of `c` in `s`, if any.
pub open spec fn spec_rfind(s: Seq<char>, c: char) -> Option<int>
    decreases s.len(),
{
    if s.len() == 0 {
        Option::None
    } else if s.last() == c {
        Option::Some(s.len() - 1)
    } else {
        spec_rfind(s.drop_last(), c)
    }
}

/// A position holding `c` with nothing but other characters after it is
/// the last occurrence.
pub proof fn lemma_rfind_at(s: Seq<char>, c: char, i: int)
    requires
        0 <= i < s.len(),
        s[i] == c,
        forall|j: int| i < j < s.len() ==> s[j] != c,
    ensures
        spec_rfind(s, c) == Option::Some(i),
    decreases s.len(),
{
    if s.last() == c {
        assert(i == s.len() - 1);
    } else {
        assert(i < s.len() - 1);
        lemma_rfind_at(s.drop_last(), c, i);
    }
}

/// A string without `c` has no last occurrence of it.
pub proof fn lemma_rfind_absent(s: Seq<char>, c: char)
    requires
        forall|j: int| 0 <= j < s.len() ==> s[j] != c,
    ensures
        spec_rfind(s, c) is None,
    decreases s.len(),
{
    if s.len() > 0 {
        lemma_rfind_absent(s.drop_last(), c);
    }
}

/// Position of the last occurrence of `c` in `s`, if any.
pub fn rfind_char(s: &str, c: char) -> (r: Option<usize>)
    ensures
        match r {
            Some(i) => i < s@.len() && s@[i as int] == c && forall|j: int|
                i < j < s@.len() ==> s@[j] != c,
            None => forall|j: int| 0 <= j < s@.len() ==> s@[j] != c,
        },
{
    let slen = s.unicode_len();
    let mut i: usize = slen;
    while i > 0
        invariant
            0 <= i <= slen,
            forall|j: int| i <= j < s@.len() ==> s@[j] != c,
        decreases i,
    {
        if s.get_char(i - 1) == c {
            return Some(i - 1);
        }
        i = i - 1;
    }
    None
}

/// Copies a vector of strings, preserving every element.
pub fn clone_string_vec(v: &Vec<String>) -> (r: Vec<String>)
    ensures
        r@ == v@,
{
    let mut r: Vec<String> = Vec::new();
    let mut i: usize = 0;
    while i < v.len()
        invariant
            0 <= i <= v.len(),
            r@ =~= v@.take(i as int),
        decreases v.len() - i,
    {
        r.push(v[i].clone());
        assert(r@ =~= v@.take(i as int + 1));
        i = i + 1;
    }
    assert(v@.take(v.len() as int) =~= v@);
    r
}

/// Copies an optional string, preserving its content.
pub fn clone_opt_string(o: &Option<String>) -> (r: Option<String>)
    ensures
        r.deep_view() == o.deep_view(),
{
    match o {
        Option::Some(s) => Option::Some(s.clone()),
        Option::None => Option::None,
    }
}

/// Position of the first occurrence of `c` in `s`, if any.
pub fn find_char(s: &str, c: char) -> (r: Option<usize>)
    ensures
        match r {
            Some(i) => i < s@.len() && s@[i as int] == c && forall|j: int|
                0 <= j < i ==> s@[j] != c,
            None => forall|j: int| 0 <= j < s@.len() ==> s@[j] != c,
        },
{
    let slen = s.unicode_len();
    let mut i: usize = 0;
    while i < slen
        invariant
            0 <= i <= slen,
            forall|j: int| 0 <= j < i ==> s@[j] != c,
        decreases slen - i,
    {
        if s.get_char(i) == c {
            return Some(i);
        }
        i = i + 1;
    }
    None
}

} // verus!

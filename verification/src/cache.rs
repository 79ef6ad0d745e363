//! The cache-key sanitizer: a pure transform that turns a free-form string
//! into a backend-safe cache-mount identifier.
use vstd::prelude::*;

verus! {

/// Characters that may appear unchanged in a cache-mount identifier:
/// ASCII letters, digits, `-`, `_` and `.`.
pub open spec fn spec_allowed_key_char(c: char) -> bool {
    ('a' <= c && c <= 'z') || ('A' <= c && c <= 'Z') || ('0' <= c && c <= '9') || c == '-' || c
        == '_' || c == '.'
}

/// `s` with every disallowed character replaced by `-`.
pub open spec fn spec_sanitize(s: Seq<char>) -> Seq<char> {
    Seq::new(
        s.len(),
        |i: int|
            if spec_allowed_key_char(s[i]) {
                s[i]
            } else {
                '-'
            },
    )
}

/// True when `c` may stand unchanged in a cache-mount identifier.
pub fn is_allowed_key_char(c: char) -> (r: bool)
    ensures
        r == spec_allowed_key_char(c),
{
    let u = c as u32;
    (97 <= u && u <= 122) || (65 <= u && u <= 90) || (48 <= u && u <= 57) || c == '-' || c == '_'
        || c == '.'
}

/// Replaces every character of `key` that is not an ASCII letter, digit,
/// `-`, `_` or `.` by `-`, yielding a backend-legal cache identifier.
pub fn sanitize_cache_key(key: &str) -> (r: String)
    ensures
        r@ == spec_sanitize(key@),
{
    let klen = key.unicode_len();
    let mut r = String::new();
    let mut i: usize = 0;
    while i < klen
        invariant
            0 <= i <= klen,
            r@.len() == i,
            forall|j: int| 0 <= j < i ==> r@[j] == spec_sanitize(key@)[j],
        decreases klen - i,
    {
        let c = key.get_char(i);
        if is_allowed_key_char(c) {
            let piece = key.substring_char(i, i + 1);
            assert(piece@ =~= seq![key@[i as int]]);
            r.append(piece);
        } else {
            r.append("-");
            proof {
                reveal_strlit("-");
            }
        }
        i = i + 1;
    }
    assert(r@ =~= spec_sanitize(key@));
    r
}

/// Sanitizing is idempotent: a sanitized key passes through unchanged.
pub proof fn lemma_sanitize_idempotent(s: Seq<char>)
    ensures
        spec_sanitize(spec_sanitize(s)) == spec_sanitize(s),
{
    assert(spec_sanitize(spec_sanitize(s)) =~= spec_sanitize(s));
}

/// A key made only of allowed characters is left exactly as it was.
pub proof fn lemma_sanitize_identity_on_legal(s: Seq<char>)
    requires
        forall|i: int| 0 <= i < s.len() ==> spec_allowed_key_char(#[trigger] s[i]),
    ensures
        spec_sanitize(s) == s,
{
    assert(spec_sanitize(s) =~= s);
}

/// Distinct identifiers made only of allowed characters sanitize to
/// distinct identifiers: collisions can only come from disallowed
/// characters.
pub proof fn lemma_sanitize_injective_on_legal(s: Seq<char>, t: Seq<char>)
    requires
        forall|i: int| 0 <= i < s.len() ==> spec_allowed_key_char(#[trigger] s[i]),
        forall|i: int| 0 <= i < t.len() ==> spec_allowed_key_char(#[trigger] t[i]),
        s != t,
    ensures
        spec_sanitize(s) != spec_sanitize(t),
{
    lemma_sanitize_identity_on_legal(s);
    lemma_sanitize_identity_on_legal(t);
}

} // verus!

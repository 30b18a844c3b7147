//! Text helpers shared by the rest of the library: whitespace trimming,
//! lower-casing, and decimal rendering of integers.

use vstd::prelude::*;

verus! {

/// A character with the Unicode `White_Space` property.
pub open spec fn is_unicode_whitespace(c: char) -> bool {
    let u = c as u32;
    ||| 0x09 <= u <= 0x0d
    ||| u == 0x20
    ||| u == 0x85
    ||| u == 0xa0
    ||| u == 0x1680
    ||| 0x2000 <= u <= 0x200a
    ||| u == 0x2028
    ||| u == 0x2029
    ||| u == 0x202f
    ||| u == 0x205f
    ||| u == 0x3000
}

/// `s` without its leading whitespace.
pub open spec fn trim_start_spec(s: Seq<char>) -> Seq<char>
    decreases s.len(),
{
    if s.len() > 0 && is_unicode_whitespace(s[0]) {
        trim_start_spec(s.drop_first())
    } else {
        s
    }
}

/// `s` without its trailing whitespace.
pub open spec fn trim_end_spec(s: Seq<char>) -> Seq<char>
    decreases s.len(),
{
    if s.len() > 0 && is_unicode_whitespace(s.last()) {
        trim_end_spec(s.drop_last())
    } else {
        s
    }
}

/// `s` without leading and trailing whitespace.
pub open spec fn trim_spec(s: Seq<char>) -> Seq<char> {
    trim_end_spec(trim_start_spec(s))
}

/// Every character of `s` is ASCII.
pub open spec fn all_ascii(s: Seq<char>) -> bool {
    forall|i: int| 0 <= i < s.len() ==> (s[i] as u32) < 128
}

/// The character `c` with ASCII upper-case letters mapped to lower case.
pub open spec fn ascii_lower_char(c: char) -> char {
    if 'A' <= c && c <= 'Z' {
        ((c as u32) + 32) as char
    } else {
        c
    }
}

/// `s` with ASCII upper-case letters mapped to lower case.
pub open spec fn ascii_lowercase(s: Seq<char>) -> Seq<char> {
    s.map_values(|c: char| ascii_lower_char(c))
}

/// What `str::to_lowercase` gives for a string that is not all ASCII: the
/// Unicode `Lowercase` mapping, a function of the string alone.
pub uninterp spec fn unicode_lowercase(s: Seq<char>) -> Seq<char>;

/// The lower-case form of `s` as `str::to_lowercase` computes it.
pub open spec fn lowercase_spec(s: Seq<char>) -> Seq<char> {
    if all_ascii(s) {
        ascii_lowercase(s)
    } else {
        unicode_lowercase(s)
    }
}

/// Calls `str::trim`, which removes the leading and trailing characters
/// that have the Unicode `White_Space` property.
#[verifier::external_body]
pub(crate) fn trim(s: &str) -> (r: &str)
    ensures
        r@ == trim_spec(s@),
{
    s.trim()
}

/// Calls `str::to_lowercase`. On an ASCII string it maps `A`..`Z` to
/// `a`..`z` and keeps every other character; on other strings its result is
/// named by `unicode_lowercase`.
#[verifier::external_body]
pub(crate) fn to_lowercase(s: &str) -> (r: String)
    ensures
        r@ == (if all_ascii(s@) { ascii_lowercase(s@) } else { unicode_lowercase(s@) }),
{
    s.to_lowercase()
}

/// The text a name is compared by: lower-cased, then trimmed.
pub open spec fn normalized_key(s: Seq<char>) -> Seq<char> {
    trim_spec(lowercase_spec(s))
}

/// Every character of `s` is ASCII whitespace.
pub open spec fn ascii_blank(s: Seq<char>) -> bool {
    forall|i: int| 0 <= i < s.len() ==> (s[i] as u32) < 128 && is_unicode_whitespace(#[trigger] s[i])
}

proof fn lemma_trim_start_blank_prefix(p: Seq<char>, x: Seq<char>)
    requires
        ascii_blank(p),
    ensures
        trim_start_spec(p + x) == trim_start_spec(x),
    decreases p.len(),
{
    if p.len() == 0 {
        assert(p + x =~= x);
    } else {
        assert((p + x)[0] == p[0]);
        assert((p + x).drop_first() =~= p.drop_first() + x);
        lemma_trim_start_blank_prefix(p.drop_first(), x);
    }
}

proof fn lemma_trim_end_blank_suffix(x: Seq<char>, q: Seq<char>)
    requires
        ascii_blank(q),
    ensures
        trim_end_spec(x + q) == trim_end_spec(x),
    decreases q.len(),
{
    if q.len() == 0 {
        assert(x + q =~= x);
    } else {
        assert((x + q).last() == q.last());
        assert((x + q).drop_last() =~= x + q.drop_last());
        lemma_trim_end_blank_suffix(x, q.drop_last());
    }
}

proof fn lemma_trim_start_append(x: Seq<char>, q: Seq<char>)
    ensures
        trim_start_spec(x + q) == (if trim_start_spec(x).len() > 0 {
            trim_start_spec(x) + q
        } else {
            trim_start_spec(q)
        }),
    decreases x.len(),
{
    if x.len() == 0 {
        assert(x + q =~= q);
    } else {
        assert((x + q)[0] == x[0]);
        if is_unicode_whitespace(x[0]) {
            assert((x + q).drop_first() =~= x.drop_first() + q);
            lemma_trim_start_append(x.drop_first(), q);
        }
    }
}

proof fn lemma_lowercase_padding(p: Seq<char>, s: Seq<char>, q: Seq<char>)
    requires
        all_ascii(s),
        ascii_blank(p),
        ascii_blank(q),
    ensures
        all_ascii(p + s + q),
        lowercase_spec(p + s + q) == p + ascii_lowercase(s) + q,
{
    let t = p + s + q;
    assert forall|i: int| 0 <= i < t.len() implies (t[i] as u32) < 128 by {
        if i < p.len() {
            assert(t[i] == p[i]);
        } else if i < p.len() + s.len() {
            assert(t[i] == s[i - p.len()]);
        } else {
            assert(t[i] == q[i - p.len() - s.len()]);
        }
    }
    assert forall|i: int| 0 <= i < t.len() implies ascii_lower_char(t[i]) == (p + ascii_lowercase(
        s,
    ) + q)[i] by {
        if i < p.len() {
            assert(t[i] == p[i]);
            assert(is_unicode_whitespace(p[i]));
        } else if i < p.len() + s.len() {
            assert(t[i] == s[i - p.len()]);
        } else {
            assert(t[i] == q[i - p.len() - s.len()]);
            assert(is_unicode_whitespace(q[i - p.len() - s.len()]));
        }
    }
    assert(ascii_lowercase(t) =~= p + ascii_lowercase(s) + q);
}

/// Comparing names by `normalized_key` ignores ASCII whitespace around an
/// ASCII name.
pub proof fn lemma_key_ignores_padding(p: Seq<char>, s: Seq<char>, q: Seq<char>)
    requires
        all_ascii(s),
        ascii_blank(p),
        ascii_blank(q),
    ensures
        normalized_key(p + s + q) == normalized_key(s),
{
    lemma_lowercase_padding(p, s, q);
    let l = ascii_lowercase(s);
    assert(lowercase_spec(s) == l);
    assert(p + l + q =~= p + (l + q));
    lemma_trim_start_blank_prefix(p, l + q);
    lemma_trim_start_append(l, q);
    if trim_start_spec(l).len() > 0 {
        lemma_trim_end_blank_suffix(trim_start_spec(l), q);
    } else {
        lemma_trim_start_blank_prefix(q, Seq::<char>::empty());
        assert(q + Seq::<char>::empty() =~= q);
    }
}

/// A name of lower-case ASCII letters is its own key.
pub proof fn lemma_plain_key(s: Seq<char>)
    requires
        forall|i: int| 0 <= i < s.len() ==> 'a' <= #[trigger] s[i] <= 'z',
    ensures
        normalized_key(s) == s,
{
    assert(all_ascii(s));
    assert(ascii_lowercase(s) =~= s);
    if s.len() > 0 {
        assert(!is_unicode_whitespace(s[0]));
        assert(!is_unicode_whitespace(s.last()));
    }
    assert(trim_start_spec(s) == s);
    assert(trim_end_spec(s) == s);
}

/// Comparing names by `normalized_key` ignores the case of ASCII letters.
pub proof fn lemma_key_ignores_case(s1: Seq<char>, s2: Seq<char>)
    requires
        all_ascii(s1),
        all_ascii(s2),
        ascii_lowercase(s1) == ascii_lowercase(s2),
    ensures
        normalized_key(s1) == normalized_key(s2),
{
}

/// The character of the decimal digit `d`.
pub open spec fn digit_char(d: nat) -> char {
    (48 + d) as char
}

/// The decimal representation of `n`, without sign or leading zeros.
pub open spec fn decimal(n: nat) -> Seq<char>
    decreases n,
{
    if n < 10 {
        seq![digit_char(n)]
    } else {
        decimal(n / 10).push(digit_char(n % 10))
    }
}

fn digit_str(d: u64) -> (r: &'static str)
    requires
        d < 10,
    ensures
        r@ == seq![digit_char(d as nat)],
{
    proof {
        reveal_strlit("0");
        reveal_strlit("1");
        reveal_strlit("2");
        reveal_strlit("3");
        reveal_strlit("4");
        reveal_strlit("5");
        reveal_strlit("6");
        reveal_strlit("7");
        reveal_strlit("8");
        reveal_strlit("9");
    }
    match d {
        0 => "0",
        1 => "1",
        2 => "2",
        3 => "3",
        4 => "4",
        5 => "5",
        6 => "6",
        7 => "7",
        8 => "8",
        _ => "9",
    }
}

/// Renders `n` in decimal, as `n.to_string()` does.
pub fn decimal_string(n: u64) -> (s: String)
    ensures
        s@ == decimal(n as nat),
    decreases n,
{
    if n < 10 {
        let d = digit_str(n);
        d.to_string()
    } else {
        let mut s = decimal_string(n / 10);
        s.append(digit_str(n % 10));
        s
    }
}

} // verus!

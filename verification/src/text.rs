//! Character-level rules for the texts that callers send.
//!
//! The functions of `std` that the library relies on are specified here, because
//! `vstd` has no specification of them.

use vstd::prelude::*;

verus! {

/// The characters with the Unicode property `White_Space`.
pub open spec fn is_white_space(c: char) -> bool {
    ||| '\u{9}' <= c <= '\u{d}'
    ||| c == '\u{20}'
    ||| c == '\u{85}'
    ||| c == '\u{a0}'
    ||| c == '\u{1680}'
    ||| '\u{2000}' <= c <= '\u{200a}'
    ||| c == '\u{2028}'
    ||| c == '\u{2029}'
    ||| c == '\u{202f}'
    ||| c == '\u{205f}'
    ||| c == '\u{3000}'
}

/// `s` without its leading white space.
pub open spec fn trim_start(s: Seq<char>) -> Seq<char>
    decreases s.len(),
{
    if s.len() > 0 && is_white_space(s.first()) {
        trim_start(s.drop_first())
    } else {
        s
    }
}

/// `s` without its trailing white space.
pub open spec fn trim_end(s: Seq<char>) -> Seq<char>
    decreases s.len(),
{
    if s.len() > 0 && is_white_space(s.last()) {
        trim_end(s.drop_last())
    } else {
        s
    }
}

/// `s` without leading and trailing white space.
pub open spec fn trimmed(s: Seq<char>) -> Seq<char> {
    trim_end(trim_start(s))
}

/// `s` without the occurrences of `c` at its end.
pub open spec fn without_trailing(s: Seq<char>, c: char) -> Seq<char>
    decreases s.len(),
{
    if s.len() > 0 && s.last() == c {
        without_trailing(s.drop_last(), c)
    } else {
        s
    }
}

/// What follows `prefix` in `s`, if `s` starts with it.
pub open spec fn after_prefix(s: Seq<char>, prefix: Seq<char>) -> Option<Seq<char>> {
    if prefix.is_prefix_of(s) {
        Some(s.skip(prefix.len() as int))
    } else {
        None
    }
}

/// `c` in upper case if it is one of the letters `a` to `z`, else `c`.
pub open spec fn ascii_upper_char(c: char) -> char {
    if 'a' <= c <= 'z' {
        (c as u32 - 32) as char
    } else {
        c
    }
}

/// `c` in lower case if it is one of the letters `A` to `Z`, else `c`.
pub open spec fn ascii_lower_char(c: char) -> char {
    if 'A' <= c <= 'Z' {
        (c as u32 + 32) as char
    } else {
        c
    }
}

/// `s` with the letters `a` to `z` in upper case.
pub open spec fn ascii_upper(s: Seq<char>) -> Seq<char> {
    Seq::new(s.len(), |i: int| ascii_upper_char(s[i]))
}

/// `s` with the letters `A` to `Z` in lower case.
pub open spec fn ascii_lower(s: Seq<char>) -> Seq<char> {
    Seq::new(s.len(), |i: int| ascii_lower_char(s[i]))
}

/// Whether `c` is one of the letters `A` to `Z` and `a` to `z`.
pub open spec fn is_ascii_letter(c: char) -> bool {
    'A' <= c <= 'Z' || 'a' <= c <= 'z'
}

/// Whether a text holds nothing but white space.
pub open spec fn is_blank(s: Seq<char>) -> bool {
    forall|i: int| 0 <= i < s.len() ==> is_white_space(#[trigger] s[i])
}

/// `str::trim` drops leading and trailing white space, as Unicode defines it.
pub assume_specification<'a>[ str::trim ](s: &'a str) -> (r: &'a str)
    ensures
        r@ == trimmed(s@),
;

/// `str::to_ascii_uppercase` maps the letters `a` to `z` to `A` to `Z` and keeps
/// every other character.
pub assume_specification[ str::to_ascii_uppercase ](s: &str) -> (r: String)
    ensures
        r@ == ascii_upper(s@),
;

/// Two string slices are equal when they hold the same characters.
pub assume_specification[ <str as PartialEq>::eq ](a: &str, b: &str) -> (r: bool)
    ensures
        r == (a@ == b@),
;

/// `str::strip_prefix`, for a prefix that is itself a string: what follows the
/// prefix, or nothing where the text does not start with it.
#[verifier::external_body]
pub(crate) fn strip_prefix<'a>(s: &'a str, prefix: &str) -> (r: Option<&'a str>)
    ensures
        r is Some <==> after_prefix(s@, prefix@) is Some,
        r is Some ==> r->0@ == after_prefix(s@, prefix@)->0,
{
    s.strip_prefix(prefix)
}

/// `str::trim_end_matches`, for a single character: the text without the
/// occurrences of that character at its end.
#[verifier::external_body]
pub(crate) fn trim_end_matches(s: &str, c: char) -> (r: &str)
    ensures
        r@ == without_trailing(s@, c),
{
    s.trim_end_matches(c)
}

/// Whether `c` is one of the letters `A` to `Z` and `a` to `z`.
pub(crate) fn is_letter(c: char) -> (r: bool)
    ensures
        r == is_ascii_letter(c),
{
    ('A' <= c && c <= 'Z') || ('a' <= c && c <= 'z')
}

proof fn lemma_trim_start_shape(s: Seq<char>)
    ensures
        trim_start(s).len() <= s.len(),
        trim_start(s).len() > 0 ==> !is_white_space(trim_start(s).first()),
    decreases s.len(),
{
    if s.len() > 0 && is_white_space(s.first()) {
        lemma_trim_start_shape(s.drop_first());
    }
}

proof fn lemma_trim_end_shape(s: Seq<char>)
    ensures
        trim_end(s).is_prefix_of(s),
        trim_end(s).len() > 0 ==> !is_white_space(trim_end(s).last()),
    decreases s.len(),
{
    if s.len() > 0 && is_white_space(s.last()) {
        lemma_trim_end_shape(s.drop_last());
    }
}

/// White space is what has one of these code points.
pub proof fn white_space_by_code_point(c: char)
    ensures
        is_white_space(c) <==> {
            let n = c as u32;
            ||| 9 <= n <= 13
            ||| n == 32
            ||| n == 133
            ||| n == 160
            ||| n == 5760
            ||| 8192 <= n <= 8202
            ||| n == 8232
            ||| n == 8233
            ||| n == 8239
            ||| n == 8287
            ||| n == 12288
        },
{
}

/// The letters are what has one of these code points, ends included.
pub proof fn letters_by_code_point(c: char)
    ensures
        is_ascii_letter(c) <==> 65 <= c as u32 <= 90 || 97 <= c as u32 <= 122,
{
}

/// Putting a character in upper case changes the twenty-six small letters, each to the
/// capital at the same place in the alphabet, and nothing else. Putting it in lower case
/// does the opposite.
pub proof fn cases_by_code_point(c: char)
    ensures
        97 <= c as u32 <= 122 ==> ascii_upper_char(c) as u32 + 32 == c as u32,
        !(97 <= c as u32 <= 122) ==> ascii_upper_char(c) == c,
        65 <= c as u32 <= 90 ==> ascii_lower_char(c) as u32 == c as u32 + 32,
        !(65 <= c as u32 <= 90) ==> ascii_lower_char(c) == c,
{
}

/// A change of case keeps the length of a text, and works on each character by itself.
pub proof fn cases_keep_places(s: Seq<char>, i: int)
    requires
        0 <= i < s.len(),
    ensures
        ascii_upper(s).len() == s.len(),
        ascii_lower(s).len() == s.len(),
        97 <= s[i] as u32 <= 122 ==> ascii_upper(s)[i] as u32 + 32 == s[i] as u32,
        !(97 <= s[i] as u32 <= 122) ==> ascii_upper(s)[i] == s[i],
        65 <= s[i] as u32 <= 90 ==> ascii_lower(s)[i] as u32 == s[i] as u32 + 32,
        !(65 <= s[i] as u32 <= 90) ==> ascii_lower(s)[i] == s[i],
{
    cases_by_code_point(s[i]);
}

proof fn lemma_trim_start(s: Seq<char>) -> (k: int)
    ensures
        0 <= k <= s.len(),
        trim_start(s) == s.skip(k),
        forall|i: int| 0 <= i < k ==> is_white_space(#[trigger] s[i]),
        k < s.len() ==> !is_white_space(s[k]),
    decreases s.len(),
{
    if s.len() > 0 && is_white_space(s.first()) {
        let rest = s.drop_first();
        let k = lemma_trim_start(rest);
        assert(rest.skip(k) =~= s.skip(k + 1));
        assert forall|i: int| 0 <= i < k + 1 implies is_white_space(#[trigger] s[i]) by {
            if i > 0 {
                assert(rest[i - 1] == s[i]);
            }
        }
        k + 1
    } else {
        assert(s.skip(0) =~= s);
        0
    }
}

proof fn lemma_trim_end(s: Seq<char>) -> (k: int)
    ensures
        0 <= k <= s.len(),
        trim_end(s) == s.take(k),
        forall|i: int| k <= i < s.len() ==> is_white_space(#[trigger] s[i]),
        k > 0 ==> !is_white_space(s[k - 1]),
    decreases s.len(),
{
    if s.len() > 0 && is_white_space(s.last()) {
        let rest = s.drop_last();
        let k = lemma_trim_end(rest);
        assert(rest.take(k) =~= s.take(k));
        assert forall|i: int| k <= i < s.len() implies is_white_space(#[trigger] s[i]) by {
            if i < rest.len() {
                assert(rest[i] == s[i]);
            }
        }
        k
    } else {
        assert(s.take(s.len() as int) =~= s);
        s.len() as int
    }
}

/// Trimming drops white space at both ends, all of it, and nothing else: what is left is
/// the part of the text between two places, everything outside it is white space, and it
/// neither starts nor ends with white space.
pub proof fn trimming_drops_the_ends(s: Seq<char>) -> (ends: (int, int))
    ensures
        0 <= ends.0 <= ends.1 <= s.len(),
        trimmed(s) == s.subrange(ends.0, ends.1),
        forall|i: int| 0 <= i < ends.0 ==> is_white_space(#[trigger] s[i]),
        forall|i: int| ends.1 <= i < s.len() ==> is_white_space(#[trigger] s[i]),
        ends.0 < ends.1 ==> !is_white_space(s[ends.0]) && !is_white_space(s[ends.1 - 1]),
{
    let k = lemma_trim_start(s);
    let t = s.skip(k);
    let n = lemma_trim_end(t);
    assert(t.take(n) =~= s.subrange(k, k + n));
    assert forall|i: int| k + n <= i < s.len() implies is_white_space(#[trigger] s[i]) by {
        assert(t[i - k] == s[i]);
    }
    (k, k + n)
}

/// A text trims to nothing exactly where it is blank.
pub proof fn blank_texts_trim_to_nothing(s: Seq<char>)
    ensures
        trimmed(s).len() == 0 <==> is_blank(s),
{
    let (i, j) = trimming_drops_the_ends(s);
    if i < j {
        assert(!is_white_space(s[i]));
    }
}

/// A text that starts and ends with something else than white space is not changed by
/// trimming, whatever white space is put around it.
pub proof fn trimming_undoes_padding(before: Seq<char>, s: Seq<char>, after: Seq<char>)
    requires
        is_blank(before),
        is_blank(after),
        s.len() > 0,
        !is_white_space(s.first()),
        !is_white_space(s.last()),
    ensures
        trimmed(before + s + after) == s,
{
    let t = before + s + after;
    let (i, j) = trimming_drops_the_ends(t);
    let b = before.len() as int;
    let e = b + s.len();
    assert(t[b] == s.first() && t[e - 1] == s.last());
    if i < b {
        assert(i < j);
        assert(t[i] == before[i]);
    }
    if j > e {
        assert(t[j - 1] == after[j - 1 - e]);
    }
    assert(t.subrange(b, e) =~= s);
}

/// Dropping a character from the end of a text leaves the part before the last run of it.
pub proof fn trailing_characters_are_dropped(s: Seq<char>, c: char) -> (k: int)
    ensures
        0 <= k <= s.len(),
        without_trailing(s, c) == s.take(k),
        forall|i: int| k <= i < s.len() ==> #[trigger] s[i] == c,
        k > 0 ==> s[k - 1] != c,
    decreases s.len(),
{
    if s.len() > 0 && s.last() == c {
        let rest = s.drop_last();
        let k = trailing_characters_are_dropped(rest, c);
        assert(rest.take(k) =~= s.take(k));
        assert forall|i: int| k <= i < s.len() implies #[trigger] s[i] == c by {
            if i < rest.len() {
                assert(rest[i] == s[i]);
            }
        }
        k
    } else {
        assert(s.take(s.len() as int) =~= s);
        s.len() as int
    }
}

/// What follows a prefix is what makes the text up with it, and there is something to
/// follow exactly where the text starts with the prefix.
pub proof fn prefixes_are_split_off(s: Seq<char>, prefix: Seq<char>, rest: Seq<char>)
    ensures
        after_prefix(s, prefix) == Some(rest) <==> s == prefix + rest,
        after_prefix(prefix + rest, prefix) == Some(rest),
{
    let t = prefix + rest;
    assert(prefix.is_prefix_of(t)) by {
        assert(t.take(prefix.len() as int) =~= prefix);
    }
    assert(t.skip(prefix.len() as int) =~= rest);
    if after_prefix(s, prefix) == Some(rest) {
        assert(s =~= prefix + rest);
    }
}

/// A trimmed text has nothing left to trim.
pub proof fn trimmed_is_stable(s: Seq<char>)
    ensures
        trimmed(trimmed(s)) == trimmed(s),
{
    let t = trim_start(s);
    lemma_trim_start_shape(s);
    lemma_trim_end_shape(t);
    let u = trim_end(t);
    if u.len() > 0 {
        assert(u.first() == t.first());
    }
    assert(trim_start(u) == u);
    assert(trim_end(u) == u);
}

/// A text in upper case has nothing left to put in upper case.
pub proof fn ascii_upper_is_stable(s: Seq<char>)
    ensures
        ascii_upper(ascii_upper(s)) == ascii_upper(s),
{
    assert(ascii_upper(ascii_upper(s)) =~= ascii_upper(s));
}

} // verus!

//! Text as sequences of characters: ASCII lower case, and cutting at a
//! separator.
//!
//! The functions of the library that take text apart work on a slice of
//! characters; what they find is stated over the sequence of characters that
//! the text is.
use vstd::prelude::*;
use vstd::slice::slice_subrange;

verus! {

/// The ASCII lower case of a character: the letters `A` to `Z` become `a`
/// to `z`, every other character is itself.
pub open spec fn lower(c: char) -> char {
    if 'A' <= c && c <= 'Z' {
        ((c as u8) + 32) as char
    } else {
        c
    }
}

/// The text with each character in ASCII lower case.
pub open spec fn lowered(s: Seq<char>) -> Seq<char> {
    Seq::new(s.len(), |i: int| lower(s[i]))
}

/// Where `sep` first stands in `s`, or the length of `s` where it stands
/// nowhere.
pub open spec fn find(s: Seq<char>, sep: char) -> nat
    decreases s.len(),
{
    if s.len() == 0 || s[0] == sep {
        0
    } else {
        1 + find(s.skip(1), sep)
    }
}

/// The text before the first `sep` and, where there is one, the text after
/// it.
pub open spec fn cut(s: Seq<char>, sep: char) -> (Seq<char>, Option<Seq<char>>) {
    let i = find(s, sep) as int;
    if i < s.len() {
        (s.take(i), Some(s.skip(i + 1)))
    } else {
        (s, None)
    }
}

/// The characters of a string that may be absent.
pub open spec fn text_view(text: Option<String>) -> Option<Seq<char>> {
    match text {
        Some(t) => Some(t@),
        None => None,
    }
}

/// The characters of a slice that may be absent.
pub open spec fn slice_view(s: Option<&[char]>) -> Option<Seq<char>> {
    match s {
        Some(t) => Some(t@),
        None => None,
    }
}

/// The characters of a text that may be absent.
pub open spec fn str_view(text: Option<&str>) -> Option<Seq<char>> {
    match text {
        Some(t) => Some(t@),
        None => None,
    }
}

/// Whether `c` stands nowhere in `s`.
pub open spec fn free_of(s: Seq<char>, c: char) -> bool {
    forall|i: int| 0 <= i < s.len() ==> s[i] != c
}

/// Whether `s` is its own lower case.
pub open spec fn is_lower(s: Seq<char>) -> bool {
    forall|i: int| 0 <= i < s.len() ==> lower(#[trigger] s[i]) == s[i]
}

/// `find` gives the first place of `sep`: nothing before it is `sep`, and
/// it is a place in the text only if `sep` stands there.
pub proof fn lemma_find(s: Seq<char>, sep: char)
    ensures
        find(s, sep) <= s.len(),
        forall|j: int| 0 <= j < find(s, sep) ==> s[j] != sep,
        find(s, sep) < s.len() ==> s[find(s, sep) as int] == sep,
    decreases s.len(),
{
    if s.len() == 0 || s[0] == sep {
    } else {
        lemma_find(s.skip(1), sep);
        assert forall|j: int| 0 <= j < find(s, sep) implies s[j] != sep by {
            if j > 0 {
                assert(s.skip(1)[j - 1] == s[j]);
            }
        }
    }
}

/// The first place of `sep` is `find`: a place with no `sep` before it,
/// which holds `sep` or is the end of the text.
pub proof fn lemma_find_is(s: Seq<char>, sep: char, i: int)
    requires
        0 <= i <= s.len(),
        forall|j: int| 0 <= j < i ==> s[j] != sep,
        i < s.len() ==> s[i] == sep,
    ensures
        find(s, sep) == i,
{
    lemma_find(s, sep);
    let k = find(s, sep) as int;
    if k < i {
        assert(s[k] == sep);
    } else if i < k {
        assert(s[i] == sep);
    }
}

/// A text without `sep` is not cut.
pub proof fn lemma_cut_whole(s: Seq<char>, sep: char)
    requires
        free_of(s, sep),
    ensures
        cut(s, sep) == (s, None::<Seq<char>>),
{
    lemma_find_is(s, sep, s.len() as int);
}

/// A text is cut at the first `sep`: where `a` holds none, `a`, `sep` and
/// `b` in a row are cut into `a` and `b`.
pub proof fn lemma_cut_joined(a: Seq<char>, sep: char, b: Seq<char>)
    requires
        free_of(a, sep),
    ensures
        cut(a + seq![sep] + b, sep) == (a, Some(b)),
{
    let s = a + seq![sep] + b;
    lemma_find_is(s, sep, a.len() as int);
    assert(s.take(a.len() as int) =~= a);
    assert(s.skip(a.len() as int + 1) =~= b);
}

/// A text that is its own lower case is left as it is.
pub proof fn lemma_lowered_same(s: Seq<char>)
    requires
        is_lower(s),
    ensures
        lowered(s) == s,
{
    assert(lowered(s) =~= s);
}

/// `String::push` of the standard library: the character is appended to
/// the end of the string, and nothing else of the string changes.
pub assume_specification[ String::push ](s: &mut String, ch: char)
    ensures
        final(s)@ == old(s)@.push(ch),
;

/// The ASCII lower case of a character.
pub(crate) fn to_lower(c: char) -> (r: char)
    ensures
        r == lower(c),
{
    if 'A' <= c && c <= 'Z' {
        ((c as u8) + 32) as char
    } else {
        c
    }
}

/// The characters of `text`, each in ASCII lower case.
pub(crate) fn lowered_chars(text: &str) -> (r: Vec<char>)
    ensures
        r@ == lowered(text@),
{
    let mut out: Vec<char> = Vec::new();
    for c in it: text.chars()
        invariant
            it.seq() == text@,
            out@ == lowered(text@.take(it.index())),
    {
        out.push(to_lower(c));
        assert(out@ =~= lowered(text@.take(it.index() + 1)));
    }
    assert(text@.take(text@.len() as int) =~= text@);
    out
}

/// The string that holds the characters of `s`.
pub(crate) fn string_of(s: &[char]) -> (r: String)
    ensures
        r@ == s@,
{
    let mut out = String::new();
    let mut i: usize = 0;
    while i < s.len()
        invariant
            i <= s@.len(),
            out@ == s@.take(i as int),
        decreases s@.len() - i,
    {
        out.push(s[i]);
        i += 1;
        assert(out@ =~= s@.take(i as int));
    }
    assert(s@.take(s@.len() as int) =~= s@);
    out
}

/// Where `sep` first stands in `s`, or the length of `s`.
pub(crate) fn position(s: &[char], sep: char) -> (i: usize)
    ensures
        i == find(s@, sep),
        i <= s@.len(),
{
    let mut i: usize = 0;
    while i < s.len() && s[i] != sep
        invariant
            i <= s@.len(),
            forall|j: int| 0 <= j < i ==> s@[j] != sep,
        decreases s@.len() - i,
    {
        i += 1;
    }
    proof {
        lemma_find_is(s@, sep, i as int);
    }
    i
}

/// The part of `s` before the first `sep` and, where there is one, the
/// part after it.
pub(crate) fn cut_at<'a>(s: &'a [char], sep: char) -> (r: (&'a [char], Option<&'a [char]>))
    ensures
        r.0@ == cut(s@, sep).0,
        r.1 is Some == cut(s@, sep).1 is Some,
        r.1 matches Some(rest) ==> rest@ == cut(s@, sep).1->0,
{
    let i: usize = position(s, sep);
    if i < s.len() {
        (slice_subrange(s, 0, i), Some(slice_subrange(s, i + 1, s.len())))
    } else {
        (s, None)
    }
}

} // verus!

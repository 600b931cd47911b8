//! Small verified operations on text: prefixes, substrings, decimal numbers.
//!
//! Strings are described by their sequence of characters (`s@`).

use vstd::prelude::*;

verus! {

/// `String::push` of std: the character is appended, the rest is kept.
pub assume_specification[ String::push ](s: &mut String, c: char)
    ensures
        final(s)@ == old(s)@.push(c),
;

/// `==` on `str` of std: two string slices are equal when they hold the same characters.
pub assume_specification[ <str as PartialEq>::eq ](a: &str, b: &str) -> (r: bool)
    ensures
        r == (a@ == b@),
;

/// `needle` stands in `hay` at index `i`.
pub open spec fn occurs_at(needle: Seq<char>, hay: Seq<char>, i: int) -> bool {
    &&& 0 <= i
    &&& i + needle.len() <= hay.len()
    &&& hay.subrange(i, i + needle.len()) == needle
}

/// `needle` stands somewhere in `hay`.
pub open spec fn occurs_in(needle: Seq<char>, hay: Seq<char>) -> bool {
    exists|i: int| occurs_at(needle, hay, i)
}

/// `s` begins with `prefix`.
pub open spec fn begins_with(s: Seq<char>, prefix: Seq<char>) -> bool {
    occurs_at(prefix, s, 0)
}

/// The lower-case form of an ASCII capital letter; any other character is itself.
pub open spec fn lower_ascii(c: char) -> char {
    if 'A' <= c && c <= 'Z' {
        ((c as u8) + 32) as char
    } else {
        c
    }
}

/// A text with its ASCII capital letters in lower case.
pub open spec fn lower_text(s: Seq<char>) -> Seq<char> {
    s.map_values(|c: char| lower_ascii(c))
}

/// The character of a decimal digit.
pub open spec fn digit_char(d: nat) -> char
    recommends
        d < 10,
{
    (48 + d) as char
}

/// The decimal notation of a number, without leading zeros.
pub open spec fn decimal(n: nat) -> Seq<char>
    decreases n,
{
    if n < 10 {
        seq![digit_char(n)]
    } else {
        decimal(n / 10).push(digit_char(n % 10))
    }
}

/// The text whose characters are the given bytes, one character per byte.
pub open spec fn bytes_as_chars(bytes: Seq<u8>) -> Seq<char> {
    Seq::new(bytes.len(), |i: int| bytes[i] as char)
}

/// Computes [`lower_ascii`].
pub fn to_lower_ascii(c: char) -> (r: char)
    ensures
        r == lower_ascii(c),
{
    if 'A' <= c && c <= 'Z' {
        ((c as u8) + 32) as char
    } else {
        c
    }
}

/// Appends [`lower_text`] of `chars` to `out`.
pub fn push_lower(out: &mut String, chars: &Vec<char>)
    ensures
        final(out)@ == old(out)@ + lower_text(chars@),
{
    let mut i: usize = 0;
    assert(out@ =~= old(out)@ + lower_text(chars@.take(0)));
    while i < chars.len()
        invariant
            i <= chars.len(),
            out@ == old(out)@ + lower_text(chars@.take(i as int)),
        decreases chars.len() - i,
    {
        out.push(to_lower_ascii(chars[i]));
        i += 1;
        assert(lower_text(chars@.take(i as int)) =~= lower_text(chars@.take(i as int - 1)).push(
            lower_ascii(chars@[i as int - 1]),
        ));
        assert(out@ =~= old(out)@ + lower_text(chars@.take(i as int)));
    }
    assert(chars@.take(chars.len() as int) =~= chars@);
}

/// Lower case changes nothing in a text that is in lower case already.
pub proof fn lemma_lower_text_idempotent(s: Seq<char>)
    ensures
        lower_text(lower_text(s)) == lower_text(s),
{
    assert(lower_text(lower_text(s)) =~= lower_text(s));
}

/// The text of `s` with its ASCII capital letters in lower case.
pub fn lowered(s: &str) -> (r: String)
    ensures
        r@ == lower_text(s@),
{
    let chars = chars_of(s);
    let mut r = String::new();
    push_lower(&mut r, &chars);
    assert(Seq::<char>::empty() + lower_text(chars@) =~= lower_text(chars@));
    r
}

/// The characters of a string slice, in a vector.
pub fn chars_of(s: &str) -> (v: Vec<char>)
    ensures
        v@ == s@,
{
    let mut v: Vec<char> = Vec::new();
    for c in it: s.chars()
        invariant
            v@ == it.seq().take(it.index() as int),
    {
        v.push(c);
    }
    v
}

/// The string made of the given characters.
pub fn string_of(chars: &Vec<char>) -> (s: String)
    ensures
        s@ == chars@,
{
    let mut s = String::new();
    let mut i: usize = 0;
    while i < chars.len()
        invariant
            i <= chars.len(),
            s@ == chars@.take(i as int),
        decreases chars.len() - i,
    {
        s.push(chars[i]);
        i += 1;
        assert(chars@.take(i as int) =~= chars@.take(i as int - 1).push(chars@[i as int - 1]));
    }
    assert(chars@.take(chars.len() as int) =~= chars@);
    s
}

/// Whether `needle` stands in `hay` at index `at`.
fn matches_at(hay: &Vec<char>, needle: &Vec<char>, at: usize) -> (r: bool)
    requires
        at + needle.len() <= hay.len(),
    ensures
        r == occurs_at(needle@, hay@, at as int),
{
    let mut j: usize = 0;
    while j < needle.len()
        invariant
            j <= needle.len(),
            at + needle.len() <= hay.len(),
            forall|k: int| 0 <= k < j ==> hay@[at + k] == needle@[k],
        decreases needle.len() - j,
    {
        if hay[at + j] != needle[j] {
            assert(hay@.subrange(at as int, at + needle.len())[j as int] == hay@[at + j]);
            return false;
        }
        j += 1;
    }
    assert(hay@.subrange(at as int, at + needle.len()) =~= needle@);
    true
}

/// Whether `s` begins with `prefix`.
pub fn starts_with(s: &str, prefix: &str) -> (r: bool)
    ensures
        r == begins_with(s@, prefix@),
{
    let hay = chars_of(s);
    let needle = chars_of(prefix);
    if needle.len() > hay.len() {
        return false;
    }
    matches_at(&hay, &needle, 0)
}

/// Whether `needle` stands somewhere in `hay`.
pub fn contains(hay: &str, needle: &str) -> (r: bool)
    ensures
        r == occurs_in(needle@, hay@),
{
    let h = chars_of(hay);
    let n = chars_of(needle);
    if n.len() > h.len() {
        return false;
    }
    let last: usize = h.len() - n.len();
    let mut i: usize = 0;
    loop
        invariant
            i <= last,
            last == h.len() - n.len(),
            h@ == hay@,
            n@ == needle@,
            forall|k: int| 0 <= k < i ==> !occurs_at(n@, h@, k),
        decreases last - i,
    {
        if matches_at(&h, &n, i) {
            return true;
        }
        if i == last {
            return false;
        }
        i += 1;
    }
}

/// What follows the first `n` characters of `s`.
pub fn skip_chars(s: &str, n: usize) -> (r: String)
    requires
        n <= s@.len(),
    ensures
        r@ == s@.skip(n as int),
{
    let chars = chars_of(s);
    let mut r = String::new();
    let mut i: usize = n;
    while i < chars.len()
        invariant
            n <= i <= chars.len(),
            r@ == chars@.subrange(n as int, i as int),
        decreases chars.len() - i,
    {
        r.push(chars[i]);
        i += 1;
        assert(chars@.subrange(n as int, i as int) =~= chars@.subrange(n as int, i as int - 1).push(
            chars@[i as int - 1],
        ));
    }
    assert(chars@.subrange(n as int, chars.len() as int) =~= chars@.skip(n as int));
    r
}

/// Appends the decimal notation of `n` to `out`.
pub fn push_decimal(out: &mut String, n: u64)
    ensures
        final(out)@ == old(out)@ + decimal(n as nat),
    decreases n,
{
    if n >= 10 {
        push_decimal(out, n / 10);
    }
    let d: u8 = (n % 10) as u8;
    out.push((48 + d) as char);
    proof {
        if n >= 10 {
            assert(old(out)@ + decimal(n as nat) =~= (old(out)@ + decimal((n / 10) as nat)).push(
                digit_char((n % 10) as nat),
            ));
        } else {
            assert(old(out)@ + decimal(n as nat) =~= old(out)@.push(digit_char(n as nat)));
        }
    }
}

} // verus!

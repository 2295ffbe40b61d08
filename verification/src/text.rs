//! Text as sequences of characters.
//!
//! Every string of the engine is read through its view, a `Seq<char>`; the
//! functions here are the few operations on whole strings that the buffer
//! logic needs, each stated over that view.

use vstd::prelude::*;
use vstd::string::*;

verus! {

/// `String::push` of the standard library: appends one character to the
/// end of the string and leaves the rest as it was.
pub assume_specification[ String::push ](s: &mut String, c: char)
    ensures
        final(s)@ == old(s)@.push(c),
;

/// `char::from_u32` of the standard library: the character with the given
/// code point, and `None` exactly for the surrogate range and for values
/// above `0x10FFFF`.
pub assume_specification[ char::from_u32 ](code: u32) -> (r: Option<char>)
    ensures
        is_scalar_value(code as int) ==> r == Some(code as char),
        !is_scalar_value(code as int) ==> r is None,
;

/// Whether `code` is a Unicode scalar value.
pub open spec fn is_scalar_value(code: int) -> bool {
    0 <= code <= 0xD7FF || 0xE000 <= code <= 0x10FFFF
}

/// `text` without its first `count` characters: all of it for a count of
/// zero or less, nothing where it has no more than `count` characters.
pub open spec fn without_front(text: Seq<char>, count: int) -> Seq<char> {
    if count <= 0 {
        text
    } else if count >= text.len() {
        Seq::empty()
    } else {
        text.subrange(count, text.len() as int)
    }
}

/// The text that remains of `text` once `prefix` is taken from its front;
/// all of `text` where it does not start with `prefix`.
pub open spec fn without_prefix(text: Seq<char>, prefix: Seq<char>) -> Seq<char> {
    if prefix.is_prefix_of(text) {
        without_front(text, prefix.len() as int)
    } else {
        text
    }
}

/// `text` without its last character; the empty text stays empty.
pub open spec fn without_last(text: Seq<char>) -> Seq<char> {
    if text.len() == 0 {
        text
    } else {
        text.drop_last()
    }
}

/// The character that writes the digit `d` (0 to 9).
pub open spec fn digit_glyph(d: int) -> char
    recommends
        0 <= d <= 9,
{
    (0x30 + d) as char
}

/// The decimal digits of `n`, most significant first, with no leading zero.
pub open spec fn decimal_digits(n: nat) -> Seq<char>
    decreases n,
{
    if n < 10 {
        seq![digit_glyph(n as int)]
    } else {
        decimal_digits(n / 10).push(digit_glyph((n % 10) as int))
    }
}

/// The decimal notation of `value`, with a leading `-` below zero.
pub open spec fn decimal_notation(value: int) -> Seq<char> {
    if value < 0 {
        seq!['-'] + decimal_digits((-value) as nat)
    } else {
        decimal_digits(value as nat)
    }
}

/// The characters of `s`, in order.
pub fn to_chars(s: &str) -> (out: Vec<char>)
    ensures
        out@ == s@,
{
    let mut out: Vec<char> = Vec::new();
    for c in it: s.chars()
        invariant
            it.seq() == s@,
            out@ == s@.take(it.index() as int),
    {
        out.push(c);
    }
    out
}

/// The text made of the one character `c`.
pub fn char_text(c: char) -> (out: String)
    ensures
        out@ == seq![c],
{
    let mut out = String::new();
    out.push(c);
    out
}

/// `first` followed by `second`.
pub fn joined(first: &str, second: &str) -> (out: String)
    ensures
        out@ == first@ + second@,
{
    let mut out = String::from_str(first);
    out.append(second);
    out
}

/// `text` without its first `count` characters.
pub fn drop_front(text: &str, count: usize) -> (out: String)
    ensures
        out@ == without_front(text@, count as int),
{
    let len = text.unicode_len();
    if count >= len {
        String::new()
    } else {
        let out = String::from_str(text.substring_char(count, len));
        assert(out@ =~= without_front(text@, count as int));
        out
    }
}

/// `text` without its last character.
pub fn drop_back(text: &str) -> (out: String)
    ensures
        out@ == without_last(text@),
{
    let len = text.unicode_len();
    if len == 0 {
        String::from_str(text)
    } else {
        let out = String::from_str(text.substring_char(0, len - 1));
        assert(out@ =~= text@.drop_last());
        out
    }
}

/// Whether `text` starts with `prefix`.
pub fn starts_with(text: &str, prefix: &str) -> (b: bool)
    ensures
        b == prefix@.is_prefix_of(text@),
{
    let t = to_chars(text);
    let p = to_chars(prefix);
    if p.len() > t.len() {
        return false;
    }
    let mut i: usize = 0;
    while i < p.len()
        invariant
            i <= p.len() <= t.len(),
            t@ == text@,
            p@ == prefix@,
            forall|j: int| 0 <= j < i ==> p@[j] == t@[j],
        decreases p.len() - i,
    {
        if p[i] != t[i] {
            return false;
        }
        i += 1;
    }
    assert(p@ =~= t@.subrange(0, p@.len() as int));
    true
}

/// Whether two texts hold the same characters.
pub fn same_text(first: &str, second: &str) -> (b: bool)
    ensures
        b == (first@ == second@),
{
    let a = to_chars(first);
    let b = to_chars(second);
    if a.len() != b.len() {
        return false;
    }
    let mut i: usize = 0;
    while i < a.len()
        invariant
            i <= a.len(),
            a.len() == b.len(),
            a@ == first@,
            b@ == second@,
            forall|j: int| 0 <= j < i ==> a@[j] == b@[j],
        decreases a.len() - i,
    {
        if a[i] != b[i] {
            return false;
        }
        i += 1;
    }
    assert(a@ =~= b@);
    true
}

/// Whether the text is the one character `c`.
pub fn is_single_char(text: &str, c: char) -> (b: bool)
    ensures
        b == (text@ == seq![c]),
{
    if text.unicode_len() == 1 {
        let first = text.get_char(0);
        assert(first == c ==> text@ =~= seq![c]);
        first == c
    } else {
        false
    }
}

/// `text` without the leading `prefix`; all of `text` where it does not
/// start with `prefix`.
pub fn strip_prefix(text: &str, prefix: &str) -> (out: String)
    ensures
        out@ == without_prefix(text@, prefix@),
{
    if starts_with(text, prefix) {
        drop_front(text, prefix.unicode_len())
    } else {
        String::from_str(text)
    }
}

/// A copy of a list of texts.
pub fn clone_texts(texts: &Vec<String>) -> (out: Vec<String>)
    ensures
        out.deep_view() == texts.deep_view(),
{
    let mut out: Vec<String> = Vec::new();
    let mut i: usize = 0;
    while i < texts.len()
        invariant
            i <= texts.len(),
            out.len() == i,
            forall|j: int| 0 <= j < i ==> out[j]@ == texts[j]@,
        decreases texts.len() - i,
    {
        out.push(texts[i].clone());
        i += 1;
    }
    assert(out.deep_view() =~= texts.deep_view());
    out
}

/// A copy of a list of counts.
pub fn clone_counts(counts: &Vec<i32>) -> (out: Vec<i32>)
    ensures
        out@ == counts@,
{
    let mut out: Vec<i32> = Vec::new();
    let mut i: usize = 0;
    while i < counts.len()
        invariant
            i <= counts.len(),
            out@ == counts@.take(i as int),
        decreases counts.len() - i,
    {
        out.push(counts[i]);
        i += 1;
    }
    out
}

/// The character of the digit `d`; `'0'` for anything that is no digit.
pub fn digit_char(d: i8) -> (c: char)
    ensures
        c == if 0 <= d <= 9 { digit_glyph(d as int) } else { '0' },
{
    match d {
        1 => '1',
        2 => '2',
        3 => '3',
        4 => '4',
        5 => '5',
        6 => '6',
        7 => '7',
        8 => '8',
        9 => '9',
        _ => '0',
    }
}

/// The decimal notation of `value`.
pub fn decimal_text(value: i8) -> (out: String)
    ensures
        out@ == decimal_notation(value as int),
{
    let mut out = String::new();
    let magnitude: u8 = if value < 0 {
        out.push('-');
        if value == i8::MIN { 128u8 } else { (-value) as u8 }
    } else {
        value as u8
    };
    let ghost sign = out@;
    let hundreds: u8 = magnitude / 100;
    let tens: u8 = (magnitude / 10) % 10;
    let ones: u8 = magnitude % 10;
    if hundreds > 0 {
        out.push(digit_char(hundreds as i8));
    }
    if hundreds > 0 || tens > 0 {
        out.push(digit_char(tens as i8));
    }
    out.push(digit_char(ones as i8));
    proof {
        let m = magnitude as nat;
        reveal_with_fuel(decimal_digits, 3);
        assert(out@ =~= sign + decimal_digits(m));
        if value < 0 {
            assert(sign =~= seq!['-']);
        } else {
            assert(sign =~= Seq::<char>::empty());
            assert(out@ =~= decimal_digits(m));
        }
    }
    out
}

} // verus!

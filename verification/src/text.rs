//! Text helpers: comparing strings, capitalising an identifier, and composing
//! the lines that are written to the terminal.

use vstd::prelude::*;
use vstd::string::*;
use vstd::utf8::*;

verus! {

/// Taken on trust from the standard library, not proved here: `String::push`
/// appends the given character to the end of the string and changes nothing
/// else of it.
pub assume_specification[ String::push ](s: &mut String, c: char)
    ensures
        final(s)@ == old(s)@.push(c),
;

/// The ASCII upper-case form of `c`: `'a'..='z'` map to `'A'..='Z'`, every
/// other character is unchanged.
pub open spec fn ascii_upper(c: char) -> char {
    if 'a' <= c && c <= 'z' {
        ((c as u32) - 32) as char
    } else {
        c
    }
}

/// `s` with its first character in ASCII upper case and the rest unchanged.
pub open spec fn capitalize(s: Seq<char>) -> Seq<char> {
    if s.len() == 0 {
        s
    } else {
        s.update(0, ascii_upper(s[0]))
    }
}

/// The line of one render tick: carriage return, glyph, a space, the message.
pub open spec fn frame_line(glyph: Seq<char>, message: Seq<char>) -> Seq<char> {
    seq!['\r'] + glyph + seq![' '] + message
}

/// The line that replaces the spinner with a bare text: carriage return, text.
pub open spec fn final_line(text: Seq<char>) -> Seq<char> {
    seq!['\r'] + text
}

/// Whether `a` and `b` hold the same characters.
pub fn str_eq(a: &str, b: &str) -> (r: bool)
    ensures
        r == (a@ == b@),
{
    let x = a.as_bytes();
    let y = b.as_bytes();
    proof {
        // Encoding is injective: decoding gives the characters back.
        encode_utf8_decode_utf8(a@);
        encode_utf8_decode_utf8(b@);
    }
    if x.len() != y.len() {
        return false;
    }
    let mut i: usize = 0;
    while i < x.len()
        invariant
            i <= x.len(),
            x.len() == y.len(),
            x@ == encode_utf8(a@),
            y@ == encode_utf8(b@),
            forall|j: int| 0 <= j < i ==> x@[j] == y@[j],
        decreases x.len() - i,
    {
        if x[i] != y[i] {
            return false;
        }
        i += 1;
    }
    assert(x@ =~= y@);
    true
}

/// Converts `c` to ASCII upper case.
pub fn to_ascii_upper(c: char) -> (r: char)
    ensures
        r == ascii_upper(c),
{
    if c >= 'a' && c <= 'z' {
        let b: u8 = c as u8;
        (b - 32) as char
    } else {
        c
    }
}

/// Returns `s` with its first character in ASCII upper case.
pub fn capitalized(s: &str) -> (r: String)
    ensures
        r@ == capitalize(s@),
{
    let n: usize = s.unicode_len();
    let mut out = String::new();
    if n > 0 {
        out.push(to_ascii_upper(s.get_char(0)));
        out.append(s.substring_char(1, n));
        assert(out@ =~= capitalize(s@));
    }
    out
}

/// Composes the line of one render tick.
pub fn compose_frame_line(glyph: &str, message: &str) -> (r: String)
    ensures
        r@ == frame_line(glyph@, message@),
{
    let mut out = String::new();
    out.push('\r');
    out.append(glyph);
    out.push(' ');
    out.append(message);
    assert(out@ =~= frame_line(glyph@, message@));
    out
}

/// Composes the line that replaces the spinner with a bare text.
pub fn compose_final_line(text: &str) -> (r: String)
    ensures
        r@ == final_line(text@),
{
    let mut out = String::new();
    out.push('\r');
    out.append(text);
    assert(out@ =~= final_line(text@));
    out
}

} // verus!

//! Symbol derivation and character classes.
//!
//! Manifest values such as application identifiers may contain characters
//! that are not valid in programming-language symbols. [`symbolize`] derives
//! a symbol-safe variant of such a value. The character classes used by the
//! manifest validators are defined here as well.

use vstd::prelude::*;

verus! {

/// Whether a character counts as alphanumeric, in the full Unicode sense.
///
/// The exact character class is the one of `char::is_alphanumeric`; it is
/// left abstract here and tied to the standard library below.
pub uninterp spec fn char_alphanumeric(c: char) -> bool;

/// Relies on `char::is_alphanumeric`: membership in the Unicode
/// alphanumeric class, a function of the character alone.
pub assume_specification[ char::is_alphanumeric ](c: char) -> (r: bool)
    ensures
        r == char_alphanumeric(c),
;

/// Whether a character is a control character: the Unicode general
/// category Cc, that is U+0000 through U+001F and U+007F through U+009F.
pub open spec fn char_is_control(c: char) -> bool {
    (c as u32) < 32 || (127 <= (c as u32) && (c as u32) <= 159)
}

/// Whether a character is an ASCII digit.
pub open spec fn char_is_ascii_digit(c: char) -> bool {
    ('0' as u32) <= (c as u32) && (c as u32) <= ('9' as u32)
}

/// Executable check for [`char_is_control`].
pub fn is_control(c: char) -> (r: bool)
    ensures
        r == char_is_control(c),
{
    let u = c as u32;
    u < 32 || (127 <= u && u <= 159)
}

/// Relies on `String::push`: appends exactly the given character.
#[verifier::external_body]
pub(crate) fn push_char(s: &mut String, c: char)
    ensures
        final(s)@ == old(s)@.push(c),
{
    s.push(c);
}

/// Relies on `<str as PartialEq>::eq`: string equality is equality of the
/// character sequences.
#[verifier::external_body]
pub(crate) fn str_eq(a: &str, b: &str) -> (r: bool)
    ensures
        r == (a@ == b@),
{
    a == b
}

/// Whether a character may stand in a derived symbol as it is.
pub open spec fn symbol_char(c: char) -> bool {
    char_alphanumeric(c) || c == '_'
}

/// Per-character symbol mapping: characters that are not symbol-safe
/// become underscores.
pub open spec fn symbolize_map(s: Seq<char>) -> Seq<char> {
    s.map_values(|c: char| if symbol_char(c) { c } else { '_' })
}

/// The symbol derived from a string: every character that is neither
/// alphanumeric nor an underscore becomes an underscore, and a leading
/// ASCII digit is guarded by a prepended underscore.
pub open spec fn symbolize_spec(s: Seq<char>) -> Seq<char> {
    if s.len() > 0 && char_is_ascii_digit(s[0]) {
        seq!['_'] + symbolize_map(s)
    } else {
        symbolize_map(s)
    }
}

/// Derive a symbol-safe variant of `input`: replace characters that are
/// not valid in symbols and make sure the result does not start with a
/// digit.
pub fn symbolize(input: &str) -> (r: String)
    ensures
        r@ == symbolize_spec(input@),
{
    let len = input.unicode_len();
    let mut out = String::new();
    if len > 0 {
        let c0 = input.get_char(0);
        let u0 = c0 as u32;
        if 48 <= u0 && u0 <= 57 {
            push_char(&mut out, '_');
        }
    }
    let ghost prefix: Seq<char> = out@;
    proof {
        assert(out@ =~= prefix + symbolize_map(input@.take(0)));
    }
    let mut i: usize = 0;
    while i < len
        invariant
            i <= len,
            len == input@.len(),
            out@ == prefix + symbolize_map(input@.take(i as int)),
            prefix == (if input@.len() > 0 && char_is_ascii_digit(input@[0]) {
                seq!['_']
            } else {
                Seq::<char>::empty()
            }),
        decreases len - i,
    {
        let c = input.get_char(i);
        let mapped = if c.is_alphanumeric() || c == '_' {
            c
        } else {
            '_'
        };
        push_char(&mut out, mapped);
        proof {
            assert(symbolize_map(input@.take(i as int + 1)) =~= symbolize_map(
                input@.take(i as int),
            ).push(mapped));
        }
        i = i + 1;
    }
    proof {
        assert(input@.take(len as int) =~= input@);
        assert(out@ =~= symbolize_spec(input@));
    }
    out
}

} // verus!

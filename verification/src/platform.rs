//! Platform identifiers.
//!
//! Enumeration of the target platforms the integration supports, together
//! with the string representation used on the command line.

use vstd::prelude::*;

verus! {

/// One character equals another up to ASCII case folding.
pub open spec fn ascii_case_eq(x: char, y: char) -> bool {
    ||| x == y
    ||| (x as u32) + 32 == (y as u32) && ('A' as u32) <= (x as u32) <= ('Z' as u32)
    ||| (y as u32) + 32 == (x as u32) && ('A' as u32) <= (y as u32) <= ('Z' as u32)
}

/// Two strings are equal up to ASCII case folding.
pub open spec fn eq_ignore_ascii_case_spec(a: Seq<char>, b: Seq<char>) -> bool {
    a.len() == b.len() && forall|i: int| 0 <= i < a.len() ==> ascii_case_eq(a[i], b[i])
}

/// Compare two strings for equality, ignoring ASCII case.
pub fn eq_ignore_ascii_case(a: &str, b: &str) -> (r: bool)
    ensures
        r == eq_ignore_ascii_case_spec(a@, b@),
{
    let a_len = a.unicode_len();
    let b_len = b.unicode_len();
    if a_len != b_len {
        return false;
    }
    let mut i: usize = 0;
    while i < a_len
        invariant
            i <= a_len,
            a_len == a@.len(),
            b_len == b@.len(),
            a_len == b_len,
            forall|j: int| 0 <= j < i ==> ascii_case_eq(a@[j], b@[j]),
        decreases a_len - i,
    {
        let x = a.get_char(i);
        let y = b.get_char(i);
        let xu = x as u32;
        let yu = y as u32;
        let x_upper = 65 <= xu && xu <= 90;
        let y_upper = 65 <= yu && yu <= 90;
        let same = x == y || (x_upper && xu + 32 == yu) || (y_upper && yu + 32 == xu);
        if !same {
            return false;
        }
        i = i + 1;
    }
    true
}

/// Platform Identifier
///
/// This enum is an enumeration of supported platforms. It implements
/// `FromStr` to allow creation from string representation. Use `as_str()`
/// to get a static string-representation back.
#[derive(Clone, Copy, Debug)]
pub enum Id {
    Android,
}

impl Id {
    /// Get string representation
    ///
    /// Return the string representation of the platform identifier. This
    /// is guaranteed to be parsable by the `FromStr` implementation.
    pub fn as_str(&self) -> (r: &'static str)
        ensures
            r@ == "android"@,
    {
        match self {
            Id::Android => "android",
        }
    }
}

// Parse platform identifiers from strings
//
// This implements `FromStr` to allow using `std::str::parse()` and thus
// get platform identifiers from their respective string representation.
// Note that this uses case-insensitive matching.
impl std::str::FromStr for Id {
    type Err = ();

    fn from_str(s: &str) -> Result<Self, Self::Err> {
        if eq_ignore_ascii_case(s, "android") {
            Ok(Id::Android)
        } else {
            Err(())
        }
    }
}

} // verus!

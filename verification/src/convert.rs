//! The built-in conversion capability: turns one captured substring into one
//! typed field value, keyed by the field's declared [`TypeRef`]. Text keeps
//! the substring as it is; an unsigned integer is read from decimal digits,
//! rejecting empty text, a non-digit, and a value that does not fit.

use vstd::prelude::*;

use crate::schema::TypeRef;
use crate::value::{FieldValue, ValV};

verus! {

/// Why decimal parsing rejected its input.
#[derive(Clone, Copy, PartialEq, Eq, Structural, Debug)]
pub enum UintError {
    /// The text was empty.
    Empty,
    /// A character other than an ASCII digit occurred before the digits
    /// already read had overflowed.
    InvalidDigit,
    /// The digits read so far no longer fit in `usize`.
    Overflow,
}

/// An ASCII decimal digit.
pub open spec fn is_digit(c: char) -> bool {
    48 <= c as u32 <= 57
}

/// The numeric value of an ASCII decimal digit.
pub open spec fn digit_val(c: char) -> int {
    c as u32 - 48
}

/// Reads digits of `s` from position `i` on, having already accumulated
/// `acc`, exactly as one left-to-right pass does: the first non-digit is
/// reported before an overflow that a later digit would cause, and an
/// overflow is reported as soon as the accumulated value no longer fits.
pub open spec fn uint_from(s: Seq<char>, i: int, acc: usize) -> Result<usize, UintError>
    decreases s.len() - i,
{
    if i < 0 || i >= s.len() {
        Ok(acc)
    } else if !is_digit(s[i]) {
        Err(UintError::InvalidDigit)
    } else if acc * 10 + digit_val(s[i]) > usize::MAX {
        Err(UintError::Overflow)
    } else {
        uint_from(s, i + 1, (acc * 10 + digit_val(s[i])) as usize)
    }
}

/// What parsing decimal text as `usize` yields: the digits' value, or the
/// first defect found reading left to right.
pub open spec fn spec_parse_uint(s: Seq<char>) -> Result<usize, UintError> {
    if s.len() == 0 {
        Err(UintError::Empty)
    } else {
        uint_from(s, 0, 0)
    }
}

/// The conversion capability's message for each way decimal parsing fails.
pub open spec fn uint_error_text(e: UintError) -> Seq<char> {
    match e {
        UintError::Empty => "cannot parse integer from empty string"@,
        UintError::InvalidDigit => "invalid digit found in string"@,
        UintError::Overflow => "number too large to fit in target type"@,
    }
}

/// What converting captured text to a declared field type yields: the typed
/// value, or the conversion capability's message.
pub open spec fn spec_convert(ty: TypeRef, text: Seq<char>) -> Result<ValV, Seq<char>> {
    match ty {
        TypeRef::Text => Ok(ValV::Text(text)),
        TypeRef::Uint => match spec_parse_uint(text) {
            Ok(n) => Ok(ValV::Uint(n)),
            Err(e) => Err(uint_error_text(e)),
        },
    }
}

/// Reads `text` as a decimal `usize` in one left-to-right pass.
pub fn parse_uint(text: &str) -> (r: Result<usize, UintError>)
    ensures
        r == spec_parse_uint(text@),
{
    let n: usize = text.unicode_len();
    if n == 0 {
        return Err(UintError::Empty);
    }
    let mut acc: usize = 0;
    let mut i: usize = 0;
    while i < n
        invariant
            0 <= i <= n,
            n == text@.len(),
            spec_parse_uint(text@) == uint_from(text@, i as int, acc),
        decreases n - i,
    {
        let c: char = text.get_char(i);
        let v: u32 = c as u32;
        if v < 48 || v > 57 {
            return Err(UintError::InvalidDigit);
        }
        let d: usize = (v - 48) as usize;
        match acc.checked_mul(10) {
            None => {
                return Err(UintError::Overflow);
            },
            Some(acc10) => match acc10.checked_add(d) {
                None => {
                    return Err(UintError::Overflow);
                },
                Some(next) => {
                    acc = next;
                },
            },
        }
        i = i + 1;
    }
    Ok(acc)
}

/// Converts one captured substring to the declared field type — the
/// capability the field binder invokes once per field.
pub fn convert(ty: TypeRef, text: &str) -> (r: Result<FieldValue, String>)
    ensures
        match spec_convert(ty, text@) {
            Ok(v) => r matches Ok(fv) && fv@ == v,
            Err(m) => r matches Err(s) && s@ == m,
        },
{
    match ty {
        TypeRef::Text => Ok(FieldValue::Text(text.to_owned())),
        TypeRef::Uint => match parse_uint(text) {
            Ok(n) => Ok(FieldValue::Uint(n)),
            Err(e) => Err(uint_error_message(e)),
        },
    }
}

/// The error message for each way decimal parsing fails, as a `String`.
pub fn uint_error_message(e: UintError) -> (r: String)
    ensures
        r@ == uint_error_text(e),
{
    match e {
        UintError::Empty => String::from_str("cannot parse integer from empty string"),
        UintError::InvalidDigit => String::from_str("invalid digit found in string"),
        UintError::Overflow => String::from_str("number too large to fit in target type"),
    }
}

} // verus!

//! Shared parsing utilities.

use vstd::prelude::*;

use crate::strutil::{extract_number_chars, spec_extract_number, str_to_chars};

verus! {

/// The number formed by the digits in `s`, fullwidth digits included, or
/// nothing when there is no digit or the value does not fit.
pub fn extract_number(s: &str) -> (r: Option<u32>)
    ensures
        r == spec_extract_number(s@),
{
    let v = str_to_chars(s);
    extract_number_chars(&v)
}

} // verus!

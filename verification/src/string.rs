//! Construction of string identifiers.

use vstd::prelude::*;

use crate::text::string_of;
use crate::StringId;

verus! {

/// Creates a string identifier from the given text. Identifiers carry the
/// whole text.
pub fn new_truncate(s: &str) -> (res: StringId)
    ensures
        res@ == s@,
{
    string_of(s)
}

} // verus!

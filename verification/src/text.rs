//! Questions about texts, stated over their characters.

use vstd::prelude::*;

verus! {

/// Whether `text` begins with `prefix`.
///
/// Trusted: this is `str::starts_with` with a string pattern, which is true
/// when the pattern matches a prefix of the slice.
#[verifier::external_body]
pub(crate) fn has_prefix(text: &str, prefix: &str) -> (begins: bool)
    ensures
        begins == prefix@.is_prefix_of(text@),
{
    text.starts_with(prefix)
}

} // verus!

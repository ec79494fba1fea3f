//! Characters into strings.
use vstd::prelude::*;

verus! {

/// The string that holds the characters of `chars`, in their order. This is
/// `String::from_iter` of the standard library over the characters.
#[verifier::external_body]
pub(crate) fn string_of(chars: &Vec<char>) -> (s: String)
    ensures
        s@ == chars@,
{
    String::from_iter(chars.iter())
}

} // verus!

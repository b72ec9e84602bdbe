use vstd::prelude::*;

verus! {

/// Relies on `String::push`, which appends one character.
#[verifier::external_body]
pub(crate) fn push_char(s: &mut String, c: char)
    ensures
        final(s)@ == old(s)@.push(c),
{
    s.push(c);
}

/// Relies on `String::push_str`, which appends a string slice.
#[verifier::external_body]
pub(crate) fn push_str(s: &mut String, t: &str)
    ensures
        final(s)@ == old(s)@ + t@,
{
    s.push_str(t);
}

} // verus!

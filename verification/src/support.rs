//! Small helpers around std.

use std::sync::Arc;
use vstd::prelude::*;

verus! {

/// Calls `String::push` of std. Trusted: the character is added at the end
/// and nothing else changes.
#[verifier::external_body]
pub(crate) fn push_char(out: &mut String, c: char)
    ensures
        final(out)@ == old(out)@.push(c),
{
    out.push(c)
}

/// Calls `Arc::clone` of std. Trusted: the new handle points to the same
/// value.
#[verifier::external_body]
pub(crate) fn share<T>(handle: &Arc<T>) -> (other: Arc<T>)
    ensures
        other == *handle,
{
    Arc::clone(handle)
}

} // verus!

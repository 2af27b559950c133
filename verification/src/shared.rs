//! Shared ownership.

use std::sync::Arc;
use vstd::prelude::*;

verus! {

/// `Arc::clone` of std: another owner of the same object. What it points to is what
/// `owner` points to; that it is the same allocation, and not a copy of it, is not stated.
#[verifier::external_body]
pub(crate) fn share<T>(owner: &Arc<T>) -> (other: Arc<T>)
    ensures
        other == *owner,
{
    Arc::clone(owner)
}

} // verus!

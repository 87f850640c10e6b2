//! Helpers for reading and writing records.

use vstd::prelude::*;
use crate::constants::MAX_TRANSPORT_VECTOR_ITEMS;

verus! {

/// Whether an optional value is absent (used to skip absent fields when writing).
pub fn is_none<T>(option: &Option<T>) -> (r: bool)
    ensures
        r == (option is None),
{
    option.is_none()
}

/// Whether a list of `len` items read from outside is within the transport limit;
/// a longer list is refused with the message of `transport_limit_message`.
pub fn within_transport_limit(len: usize) -> (r: bool)
    ensures
        r == (len <= MAX_TRANSPORT_VECTOR_ITEMS),
{
    len <= MAX_TRANSPORT_VECTOR_ITEMS
}

/// The message for a list over the transport limit.
pub fn transport_limit_message() -> (r: &'static str)
    ensures
        r@ == "Vector exceeds limit of 100,000 items"@,
{
    "Vector exceeds limit of 100,000 items"
}

} // verus!

//! The writes that the coordinate endpoints submit to the replicated store.

use vstd::prelude::*;

verus! {

/// A write to the replicated key/value store.
#[derive(Debug, Clone)]
pub enum CoordinateRequest {
    /// Sets `key` to `value`.
    SetKey { key: String, value: String },
}

/// The write that creates (or overwrites) coordinate `key` with `value`.
pub fn create_request(key: String, value: String) -> (r: CoordinateRequest)
    ensures
        r == (CoordinateRequest::SetKey { key, value }),
{
    CoordinateRequest::SetKey { key, value }
}

/// The write that deletes coordinate `key`: deletion sets the key to the
/// empty value.
pub fn delete_request(key: String) -> (r: CoordinateRequest)
    ensures
        r matches CoordinateRequest::SetKey { key: k, value: v } && k == key && v@ == Seq::<
            char,
        >::empty(),
{
    CoordinateRequest::SetKey { key, value: String::new() }
}

} // verus!

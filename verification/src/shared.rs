//! Shared ownership of records.

use std::sync::Arc;
use vstd::prelude::*;

verus! {

/// Another handle on a shared record.
///
/// Calls `Arc::clone`, which, by its documentation, makes a new pointer to
/// the same allocation: the new handle stands for the same record.
#[verifier::external_body]
pub(crate) fn share<T>(record: &Arc<T>) -> (res: Arc<T>)
    ensures
        res == *record,
{
    Arc::clone(record)
}

/// A copy of a byte vector.
pub fn clone_bytes(bytes: &Vec<u8>) -> (res: Vec<u8>)
    ensures
        res@ == bytes@,
{
    let res = bytes.clone();
    assert(res@ =~= bytes@);
    res
}

} // verus!

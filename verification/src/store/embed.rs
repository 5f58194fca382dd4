//! Dimension guards of the sqlite-vec vector encoding (a little-endian
//! `f32` buffer with no header): a stored vector must have exactly the
//! dimension its table was built for.
use vstd::prelude::*;

use crate::store::error::Error;

verus! {

/// Whether a BLOB of `blob_len` bytes holds exactly `expected_dim` `f32`
/// values; when it does not, the mismatch reports the whole values it holds.
pub fn check_blob_len(blob_len: usize, expected_dim: usize) -> (r: Result<(), Error>)
    requires
        expected_dim * 4 <= usize::MAX,
    ensures
        blob_len == expected_dim * 4 ==> r is Ok,
        blob_len != expected_dim * 4 ==> r == Err::<(), Error>(
            Error::VecDimMismatch { expected: expected_dim, got: blob_len / 4 },
        ),
{
    if blob_len != expected_dim * 4 {
        return Err(Error::VecDimMismatch { expected: expected_dim, got: blob_len / 4 });
    }
    Ok(())
}

/// Validates that a vector of `len` values has the `expected_dim` its table
/// was built for. Used at API boundaries.
pub fn guard_dim(len: usize, expected_dim: usize) -> (r: Result<(), Error>)
    ensures
        len == expected_dim ==> r is Ok,
        len != expected_dim ==> r == Err::<(), Error>(
            Error::VecDimMismatch { expected: expected_dim, got: len },
        ),
{
    if len != expected_dim {
        return Err(Error::VecDimMismatch { expected: expected_dim, got: len });
    }
    Ok(())
}

} // verus!

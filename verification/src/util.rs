//! Byte-level checks for values that cross into the engine as C strings.

use vstd::prelude::*;

use crate::error::Error;
use crate::error::invalid_input_error;

verus! {

/// Whether the bytes hold an interior NUL, which no C string can carry.
pub(crate) fn contains_nul(bytes: &[u8]) -> (r: bool)
    ensures
        r == bytes@.contains(0u8),
{
    let mut i: usize = 0;
    while i < bytes.len()
        invariant
            0 <= i <= bytes@.len(),
            forall|j: int| 0 <= j < i ==> bytes@[j] != 0u8,
        decreases bytes@.len() - i,
    {
        if bytes[i] == 0 {
            return true;
        }
        i = i + 1;
    }
    false
}

/// Validate a path for the engine: a path holding a NUL byte cannot cross
/// the C boundary and is rejected as invalid input; any other path is
/// passed through unchanged.
pub fn path_to_bytes(path: &[u8]) -> (r: Result<Vec<u8>, Error>)
    ensures
        if path@.contains(0u8) {
            r matches Err(e) && e is Io
        } else {
            r matches Ok(b) && b@ == path@
        },
{
    if contains_nul(path) {
        Err(Error::Io(invalid_input_error("unexpected null character in a path")))
    } else {
        Ok(vstd::slice::slice_to_vec(path))
    }
}

} // verus!

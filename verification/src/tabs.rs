//! Identifiers of open buffers.

use vstd::prelude::*;

verus! {

/// Names one open buffer for as long as it is open.
#[derive(Clone, Copy, Debug, PartialEq, Eq, Hash)]
pub struct BufferIdentifier(pub usize);

impl BufferIdentifier {
    /// The identifier with the given number.
    pub fn new(val: usize) -> (id: BufferIdentifier)
        ensures
            id.0 == val,
    {
        BufferIdentifier(val)
    }
}

} // verus!

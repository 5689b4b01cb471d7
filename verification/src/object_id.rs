use vstd::prelude::*;

verus! {

/// The twelve bytes that identify a stored document.
#[derive(Clone, Copy, Debug)]
pub struct ObjectId {
    pub bytes: [u8; 12],
}

impl ObjectId {
    /// The identifier made of the given bytes.
    pub fn from_bytes(bytes: [u8; 12]) -> (r: ObjectId)
        ensures
            r.bytes == bytes,
    {
        ObjectId { bytes }
    }

    /// The bytes of this identifier.
    pub fn bytes(&self) -> (r: [u8; 12])
        ensures
            r == self.bytes,
    {
        self.bytes
    }
}

} // verus!

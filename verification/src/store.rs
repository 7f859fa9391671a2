//! How an encoded value is laid into the buffer that the store hands out.

use vstd::prelude::*;

verus! {

/// The size of the buffer through which the store reads and writes.
pub const STORAGE_RWBUFFER_SIZE: usize = 1024;

#[derive(Clone, Copy, Debug, PartialEq, Eq, Structural)]
pub enum SerDeError {
    /// The encoded value is longer than the buffer.
    SliceTooSmall,
}

impl SerDeError {
    /// The error in words.
    pub fn message(&self) -> (text: &'static str)
        ensures
            text@ == "Slice too small"@,
    {
        "Slice too small"
    }
}

pub struct PostCardSerDe;

impl PostCardSerDe {
    /// Lays `encoded` into the front of `slice` and returns its length.
    /// Where it does not fit, the slice is left as it was.
    pub fn serialize(&self, slice: &mut [u8], encoded: &[u8]) -> (res: Result<usize, SerDeError>)
        ensures
            res is Ok <==> encoded@.len() <= old(slice)@.len(),
            res matches Ok(len) ==> len == encoded@.len(),
            res is Ok ==> final(slice)@ == encoded@ + old(slice)@.subrange(
                encoded@.len() as int,
                old(slice)@.len() as int,
            ),
            res is Err ==> res == Err::<usize, SerDeError>(SerDeError::SliceTooSmall),
            res is Err ==> final(slice)@ == old(slice)@,
    {
        let len = encoded.len();
        if len > slice.len() {
            return Err(SerDeError::SliceTooSmall);
        }
        let mut i: usize = 0;
        while i < len
            invariant
                i <= len,
                len == encoded@.len(),
                len <= slice@.len(),
                slice@.len() == old(slice)@.len(),
                forall|k: int| 0 <= k < i ==> #[trigger] slice@[k] == encoded@[k],
                forall|k: int| i <= k < slice@.len() ==> #[trigger] slice@[k] == old(slice)@[k],
            decreases len - i,
        {
            slice[i] = encoded[i];
            i += 1;
        }
        assert(slice@ =~= encoded@ + old(slice)@.subrange(
            encoded@.len() as int,
            old(slice)@.len() as int,
        ));
        Ok(len)
    }
}

} // verus!

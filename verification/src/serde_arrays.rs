//! Bloom filters on the wire: 256 bytes, carried as a byte list that may be
//! absent.

use vstd::prelude::*;

verus! {

/// A byte list that should have held a bloom filter has another length.
#[derive(Debug, Clone, Copy, PartialEq, Eq, Structural)]
pub struct InvalidLength {
    pub found: usize,
}

/// The wire form of a bloom filter: its bytes as a list, or nothing.
pub fn serialize_256(bytes: &Option<[u8; 256]>) -> (wire: Option<Vec<u8>>)
    ensures
        match *bytes {
            Some(array) => wire is Some && wire->Some_0@ == array@,
            None => wire is None,
        },
{
    match bytes {
        None => None,
        Some(array) => {
            let mut list: Vec<u8> = Vec::new();
            let mut i: usize = 0;
            while i < 256
                invariant
                    i <= 256,
                    list@.len() == i,
                    forall|j: int| 0 <= j < i ==> list@[j] == array@[j],
                decreases 256 - i,
            {
                list.push(array[i]);
                i += 1;
            }
            Some(list)
        },
    }
}

/// Reads a bloom filter from its wire form. A list of exactly 256 bytes is
/// the filter; nothing stays nothing; a list of any other length is
/// refused.
pub fn deserialize_256(wire: Option<Vec<u8>>) -> (bytes: Result<Option<[u8; 256]>, InvalidLength>)
    ensures
        match wire {
            None => bytes is Ok && bytes->Ok_0 is None,
            Some(list) => if list@.len() == 256 {
                bytes is Ok && bytes->Ok_0 is Some && bytes->Ok_0->Some_0@ == list@
            } else {
                bytes is Err && bytes->Err_0.found == list@.len()
            },
        },
{
    match wire {
        None => Ok(None),
        Some(list) => {
            if list.len() != 256 {
                return Err(InvalidLength { found: list.len() });
            }
            let mut array = [0u8; 256];
            let mut i: usize = 0;
            while i < 256
                invariant
                    i <= 256,
                    list@.len() == 256,
                    forall|j: int| 0 <= j < i ==> array@[j] == list@[j],
                decreases 256 - i,
            {
                array[i] = list[i];
                i += 1;
            }
            Ok(Some(array))
        },
    }
}

} // verus!

//! Content hashes and the references built from them.

use vstd::prelude::*;
use vstd::std_specs::cmp::PartialEqSpecImpl;

verus! {

/// Compares two 32-byte arrays byte by byte.
pub fn hash_bytes_eq(a: &[u8; 32], b: &[u8; 32]) -> (r: bool)
    ensures
        r == (*a == *b),
{
    let mut i: usize = 0;
    while i < 32
        invariant
            i <= 32,
            forall|j: int| 0 <= j < i ==> a[j] == b[j],
        decreases 32 - i,
    {
        if a[i] != b[i] {
            return false;
        }
        i += 1;
    }
    assert(*a =~= *b);
    true
}

/// The hash that names a transaction.
#[derive(Clone, Copy, Debug, Eq, Hash)]
pub struct Txid {
    pub bytes: [u8; 32],
}

impl PartialEq for Txid {
    fn eq(&self, other: &Self) -> (r: bool) {
        hash_bytes_eq(&self.bytes, &other.bytes)
    }
}

impl PartialEqSpecImpl for Txid {
    open spec fn obeys_eq_spec() -> bool {
        true
    }

    open spec fn eq_spec(&self, other: &Self) -> bool {
        *self == *other
    }
}

/// The hash that names a block.
#[derive(Clone, Copy, Debug, Eq, Hash)]
pub struct BlockHash {
    pub bytes: [u8; 32],
}

impl PartialEq for BlockHash {
    fn eq(&self, other: &Self) -> (r: bool) {
        hash_bytes_eq(&self.bytes, &other.bytes)
    }
}

impl PartialEqSpecImpl for BlockHash {
    open spec fn obeys_eq_spec() -> bool {
        true
    }

    open spec fn eq_spec(&self, other: &Self) -> bool {
        *self == *other
    }
}

/// One output of a transaction: the transaction's id and the output's index in it.
#[derive(Clone, Copy, Debug, Eq, Hash)]
pub struct OutPoint {
    pub txid: Txid,
    pub vout: u32,
}

impl PartialEq for OutPoint {
    fn eq(&self, other: &Self) -> (r: bool) {
        self.vout == other.vout && self.txid == other.txid
    }
}

impl PartialEqSpecImpl for OutPoint {
    open spec fn obeys_eq_spec() -> bool {
        true
    }

    open spec fn eq_spec(&self, other: &Self) -> bool {
        *self == *other
    }
}

} // verus!

//! Blocks reduced to a header and a proof that some transactions are in them.

use crate::hashes::Txid;
use crate::transaction::Header;
use vstd::prelude::*;

verus! {

/// A block header with a partial Merkle tree. `txn` is the tree in its
/// consensus encoding, as a server hands it out.
#[derive(Clone, Debug, PartialEq, Eq)]
pub struct MerkleBlock {
    pub header: Header,
    pub txn: Vec<u8>,
}

/// The transaction ids that an encoded partial Merkle tree marks as matched,
/// and the position of each in its block; `None` where the bytes are no such
/// tree.
pub uninterp spec fn merkle_matches(txn: Seq<u8>) -> Option<(Seq<Txid>, Seq<u32>)>;

/// Decodes `txn` with `bitcoin::consensus::deserialize` and hands back what
/// `bitcoin::merkle_tree::PartialMerkleTree::extract_matches` leaves in its two
/// vectors, whether or not it reports an error. `None` where the bytes do not
/// decode. The result depends on the bytes and on nothing else.
#[verifier::external_body]
pub(crate) fn extract_matches(txn: &Vec<u8>) -> (r: Option<(Vec<Txid>, Vec<u32>)>)
    ensures
        r is Some <==> merkle_matches(txn@) is Some,
        r matches Some(found) ==> merkle_matches(txn@) == Some((found.0@, found.1@)),
{
    let tree: bitcoin::merkle_tree::PartialMerkleTree = bitcoin::consensus::deserialize(txn).ok()?;
    let mut matches = Vec::new();
    let mut indexes = Vec::new();
    let _ = tree.extract_matches(&mut matches, &mut indexes);
    let ids = matches.into_iter().map(|t| Txid { bytes: bitcoin::hashes::Hash::to_byte_array(t) });
    Some((ids.collect(), indexes))
}

} // verus!

//! How a block is named, and what is asked of peers.

use vstd::prelude::*;

verus! {

/// Names a block by the hash of its header or by its height.
#[derive(Clone, Copy, Debug, PartialEq, Eq)]
pub enum BlockIdentifier {
    Hash([u8; 32]),
    Number(u64),
}

impl BlockIdentifier {
    /// The hash that the identifier gives without any peer being asked.
    pub open spec fn spec_known_hash(&self) -> Option<[u8; 32]> {
        match *self {
            BlockIdentifier::Hash(hash) => Some(hash),
            BlockIdentifier::Number(_) => None,
        }
    }

    /// The hash that the identifier gives without any peer being asked: its
    /// own where it is one, and none where it is a height.
    #[verifier::when_used_as_spec(spec_known_hash)]
    pub fn known_hash(&self) -> (hash: Option<[u8; 32]>)
        ensures
            hash == self.spec_known_hash(),
    {
        match self {
            BlockIdentifier::Hash(hash) => Some(*hash),
            BlockIdentifier::Number(_) => None,
        }
    }
}

/// A request to the peers of the node.
#[derive(Clone, Copy, Debug, PartialEq, Eq)]
pub enum Request {
    /// The header of the block that the identifier names.
    Header(BlockIdentifier),
    /// The bodies of the blocks with these header hashes: here always one.
    Bodies([u8; 32]),
}

/// A header as a peer delivered it, with the hash derived from it. The header
/// itself is never looked into.
#[derive(Debug, PartialEq, Eq)]
pub struct FetchedHeader<H> {
    pub hash: [u8; 32],
    pub header: H,
}

} // verus!

//! Block identities that serve as cursor positions.

use crate::primitives::Hash256;
use vstd::prelude::*;

verus! {

/// The identity of a block and what its header says of its place in the
/// chain.
#[derive(Debug, Clone, Copy, PartialEq, Eq)]
pub struct BlockInfo {
    /// The hash of the block.
    pub hash: Hash256,
    /// The number of the block.
    pub number: u64,
    /// The hash of the block before it.
    pub parent_hash: Hash256,
    /// The time of the block, in seconds.
    pub timestamp: u64,
}

impl BlockInfo {
    /// Puts the parts of a block's identity together.
    pub fn new(hash: Hash256, number: u64, parent_hash: Hash256, timestamp: u64) -> (info: Self)
        ensures
            info == (BlockInfo { hash, number, parent_hash, timestamp }),
    {
        BlockInfo { hash, number, parent_hash, timestamp }
    }
}

/// A block named by number and hash.
#[derive(Debug, Clone, Copy, PartialEq, Eq)]
pub struct BlockNumHash {
    /// The number of the block.
    pub number: u64,
    /// The hash of the block.
    pub hash: Hash256,
}

/// An L2 block together with the L1 block it was derived from.
#[derive(Debug, Clone, Copy, PartialEq, Eq)]
pub struct L2BlockInfo {
    /// The L2 block.
    pub block_info: BlockInfo,
    /// The L1 block the L2 block was derived from.
    pub l1_origin: BlockNumHash,
    /// The place of the L2 block among the blocks of its L1 origin.
    pub seq_num: u64,
}

impl L2BlockInfo {
    /// Puts an L2 block and its origin together.
    pub fn new(block_info: BlockInfo, l1_origin: BlockNumHash, seq_num: u64) -> (info: Self)
        ensures
            info == (L2BlockInfo { block_info, l1_origin, seq_num }),
    {
        L2BlockInfo { block_info, l1_origin, seq_num }
    }
}

/// What the executor reads of a block header.
#[derive(Debug, Clone, Copy, PartialEq, Eq)]
pub struct Header {
    /// The number of the block.
    pub number: u64,
    /// The time of the block, in seconds.
    pub timestamp: u64,
}

/// A header together with the hash it is known by.
#[derive(Debug, Clone, Copy, PartialEq, Eq)]
pub struct SealedHeader {
    /// The header.
    pub header: Header,
    /// The hash of the header.
    pub hash: Hash256,
}

impl SealedHeader {
    /// Seals a header with a hash that the caller vouches for.
    pub fn new_unchecked(header: Header, hash: Hash256) -> (sealed: Self)
        ensures
            sealed == (SealedHeader { header, hash }),
    {
        SealedHeader { header, hash }
    }
}

} // verus!

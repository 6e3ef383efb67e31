//! What the validators ask of the store that holds the chain.

use crate::blocks::BlockHeader;
use crate::transactions::{TransactionKernel, TransactionOutput};
use vstd::prelude::*;

verus! {

/// Why the store could not answer.
#[derive(Clone, Debug, PartialEq, Eq)]
pub enum ChainStorageError {
    /// The store could not be read.
    AccessError(String),
    /// The store does not hold what was asked for.
    ValueNotFound,
    /// The store answered with something other than what was asked for.
    UnexpectedResult,
}

/// The Merkle mountain ranges that the store keeps.
#[derive(Clone, Copy, Debug, PartialEq, Eq)]
pub enum MmrTree {
    Utxo,
    Kernel,
}

/// The headers of the first `count` heights in the snapshot of `db`.
pub open spec fn first_headers<B: BlockchainBackend + ?Sized>(db: &B, count: nat) -> Seq<BlockHeader> {
    Seq::new(count, |height: int| db.header_at(height as u64))
}

/// Nodes of a Merkle mountain range as plain values: the hash of each, and whether the
/// output it stands for has been spent.
pub open spec fn nodes_view(nodes: Seq<(Vec<u8>, bool)>) -> Seq<(Seq<u8>, bool)> {
    nodes.map_values(|node: (Vec<u8>, bool)| (node.0@, node.1))
}

/// Hashes as plain values.
pub open spec fn hashes_view(hashes: Seq<Vec<u8>>) -> Seq<Seq<u8>> {
    hashes.map_values(|hash: Vec<u8>| hash@)
}

/// A store that holds the chain. The validators only read from it.
///
/// The spec functions describe a snapshot of the chain. An implementation that answers
/// every successful request from that snapshot says so by giving
/// [`obeys_snapshot_spec`](BlockchainBackend::obeys_snapshot_spec) the value `true`, and is
/// then held to the postconditions below. Of an implementation that keeps the defaults
/// nothing is assumed. No method is ever required to succeed.
pub trait BlockchainBackend: Send + Sync {
    /// Whether every successful answer is read off the snapshot that the other spec
    /// functions describe.
    open spec fn obeys_snapshot_spec(&self) -> bool {
        false
    }

    /// The header of the block at `height`.
    open spec fn header_at(&self, height: u64) -> BlockHeader {
        arbitrary()
    }

    /// The unspent outputs.
    open spec fn utxos(&self) -> Seq<TransactionOutput> {
        arbitrary()
    }

    /// The kernels.
    open spec fn kernels(&self) -> Seq<TransactionKernel> {
        arbitrary()
    }

    /// The number of leaves that `tree` had when the block at `height` had been added.
    open spec fn mmr_node_count(&self, tree: MmrTree, height: u64) -> u64 {
        arbitrary()
    }

    /// The `count` leaves of `tree` from the one at index `start` on.
    open spec fn mmr_nodes(&self, tree: MmrTree, start: u64, count: u64, hist_height: Option<u64>) -> Seq<(Seq<u8>, bool)> {
        arbitrary()
    }

    /// The root that `tree` has once `additions` are appended to it and the leaves at the
    /// indices `deletions` are marked as deleted.
    open spec fn mmr_root(&self, tree: MmrTree, additions: Seq<Seq<u8>>, deletions: Seq<u64>) -> Seq<u8> {
        arbitrary()
    }

    /// The headers of the blocks at `heights`, one for each height and in the same order.
    fn fetch_headers(&self, heights: Vec<u64>) -> (reply: Result<Vec<BlockHeader>, ChainStorageError>)
        ensures
            self.obeys_snapshot_spec() ==> (reply matches Ok(headers) ==> {
                &&& headers@.len() == heights@.len()
                &&& forall|i: int|
                    0 <= i < heights@.len() ==> headers@[i] == self.header_at(#[trigger] heights@[i])
            }),
    ;

    /// All unspent outputs.
    fn fetch_all_utxos(&self) -> (reply: Result<Vec<TransactionOutput>, ChainStorageError>)
        ensures
            self.obeys_snapshot_spec() ==> (reply matches Ok(utxos) ==> utxos@ == self.utxos()),
    ;

    /// All kernels.
    fn fetch_all_kernels(&self) -> (reply: Result<Vec<TransactionKernel>, ChainStorageError>)
        ensures
            self.obeys_snapshot_spec() ==> (reply matches Ok(kernels) ==> kernels@
                == self.kernels()),
    ;

    /// The number of leaves that `tree` had when the block at `height` had been added.
    fn fetch_mmr_node_count(&self, tree: MmrTree, height: u64) -> (reply: Result<u64, ChainStorageError>)
        ensures
            self.obeys_snapshot_spec() ==> (reply matches Ok(count) ==> count
                == self.mmr_node_count(tree, height)),
    ;

    /// `count` leaves of `tree` from the one at index `start` on, each with the flag that
    /// says whether it has been spent; as they were at `hist_height`, or as they are now.
    fn fetch_mmr_nodes(&self, tree: MmrTree, start: u64, count: u64, hist_height: Option<u64>) -> (reply: Result<
        Vec<(Vec<u8>, bool)>,
        ChainStorageError,
    >)
        ensures
            self.obeys_snapshot_spec() ==> (reply matches Ok(nodes) ==> nodes_view(nodes@)
                == self.mmr_nodes(tree, start, count, hist_height)),
    ;

    /// The root that `tree` has once `additions` are appended to it and the leaves at the
    /// indices `deletions` are marked as deleted. The store is not changed.
    fn calculate_mmr_root(&self, tree: MmrTree, additions: Vec<Vec<u8>>, deletions: Vec<u64>) -> (reply: Result<
        Vec<u8>,
        ChainStorageError,
    >)
        ensures
            self.obeys_snapshot_spec() ==> (reply matches Ok(root) ==> root@ == self.mmr_root(
                tree,
                hashes_view(additions@),
                deletions@,
            )),
    ;
}

} // verus!

//! The check that the roots of the Merkle mountain ranges of outputs and of kernels are
//! those that the horizon header declares.

use crate::blocks::BlockHeader;
use crate::chain_storage::{hashes_view, nodes_view, BlockchainBackend, ChainStorageError, MmrTree};
use crate::consensus::ConsensusRules;
use crate::validation::error::ValidationError;
use crate::validation::traits::StatelessValidation;
use std::sync::Arc;
use vstd::prelude::*;

verus! {

/// The hashes of the leaves among `nodes` that have not been spent, in order.
pub open spec fn unspent_hashes(nodes: Seq<(Seq<u8>, bool)>) -> Seq<Seq<u8>>
    decreases nodes.len(),
{
    if nodes.len() == 0 {
        Seq::empty()
    } else if nodes.last().1 {
        unspent_hashes(nodes.drop_last())
    } else {
        unspent_hashes(nodes.drop_last()).push(nodes.last().0)
    }
}

/// The indices of the leaves among `nodes` that have been spent, in ascending order.
pub open spec fn spent_indices(nodes: Seq<(Seq<u8>, bool)>) -> Seq<u64>
    decreases nodes.len(),
{
    if nodes.len() == 0 {
        Seq::empty()
    } else if nodes.last().1 {
        spent_indices(nodes.drop_last()).push((nodes.len() - 1) as u64)
    } else {
        spent_indices(nodes.drop_last())
    }
}

/// The hashes of all of `nodes`, in order.
pub open spec fn all_hashes(nodes: Seq<(Seq<u8>, bool)>) -> Seq<Seq<u8>> {
    nodes.map_values(|node: (Seq<u8>, bool)| node.0)
}

/// The root of the outputs' Merkle mountain range at `height`, from the snapshot of
/// `db`: all its leaves up to `height` are read, those not spent are the additions and
/// the indices of those spent are the deletions.
pub open spec fn utxo_root<B: BlockchainBackend>(db: &B, height: u64) -> Seq<u8> {
    let count = db.mmr_node_count(MmrTree::Utxo, height);
    let nodes = db.mmr_nodes(MmrTree::Utxo, 0, count, None);
    db.mmr_root(MmrTree::Utxo, unspent_hashes(nodes), spent_indices(nodes))
}

/// The root of the kernels' Merkle mountain range at `height`, from the snapshot of
/// `db`: all its leaves up to `height` are the additions, and nothing is deleted.
pub open spec fn kernel_root<B: BlockchainBackend>(db: &B, height: u64) -> Seq<u8> {
    let count = db.mmr_node_count(MmrTree::Kernel, height);
    let nodes = db.mmr_nodes(MmrTree::Kernel, 0, count, None);
    db.mmr_root(MmrTree::Kernel, all_hashes(nodes), Seq::empty())
}

/// A copy of `hash`.
pub fn copy_hash(hash: &Vec<u8>) -> (copy: Vec<u8>)
    ensures
        copy@ == hash@,
{
    let mut copy: Vec<u8> = Vec::new();
    let mut i: usize = 0;
    while i < hash.len()
        invariant
            i <= hash.len(),
            copy@ == hash@.take(i as int),
        decreases hash.len() - i,
    {
        copy.push(hash[i]);
        assert(hash@.take(i + 1) =~= hash@.take(i as int).push(hash@[i as int]));
        i = i + 1;
    }
    assert(hash@.take(hash.len() as int) =~= hash@);
    copy
}

/// Whether the two hashes are the same.
pub fn hashes_equal(a: &Vec<u8>, b: &Vec<u8>) -> (same: bool)
    ensures
        same == (a@ == b@),
{
    if a.len() != b.len() {
        return false;
    }
    let mut i: usize = 0;
    while i < a.len()
        invariant
            i <= a.len(),
            a.len() == b.len(),
            forall|j: int| 0 <= j < i ==> a@[j] == b@[j],
        decreases a.len() - i,
    {
        if a[i] != b[i] {
            return false;
        }
        i = i + 1;
    }
    assert(a@ =~= b@);
    true
}

/// Splits the leaves of the outputs' Merkle mountain range into the additions, the hashes
/// of those not spent, and the deletions, the indices of those spent.
pub fn partition_nodes(nodes: &Vec<(Vec<u8>, bool)>) -> (parts: (Vec<Vec<u8>>, Vec<u64>))
    ensures
        hashes_view(parts.0@) == unspent_hashes(nodes_view(nodes@)),
        parts.1@ == spent_indices(nodes_view(nodes@)),
{
    let mut additions: Vec<Vec<u8>> = Vec::new();
    let mut deletions: Vec<u64> = Vec::new();
    let mut i: usize = 0;
    while i < nodes.len()
        invariant
            i <= nodes.len(),
            hashes_view(additions@) == unspent_hashes(nodes_view(nodes@.take(i as int))),
            deletions@ == spent_indices(nodes_view(nodes@.take(i as int))),
        decreases nodes.len() - i,
    {
        let ghost seen = nodes_view(nodes@.take(i as int));
        let ghost longer = nodes_view(nodes@.take(i + 1));
        proof {
            assert(longer.drop_last() =~= seen);
            assert(longer.last() == (nodes@[i as int].0@, nodes@[i as int].1));
        }
        if nodes[i].1 {
            deletions.push(i as u64);
        } else {
            let ghost before = additions@;
            additions.push(copy_hash(&nodes[i].0));
            proof {
                assert(hashes_view(additions@) =~= hashes_view(before).push(nodes@[i as int].0@));
            }
        }
        i = i + 1;
    }
    proof {
        assert(nodes@.take(nodes.len() as int) =~= nodes@);
    }
    (additions, deletions)
}

/// The hashes of the leaves of the kernels' Merkle mountain range, in order.
pub fn collect_hashes(nodes: &Vec<(Vec<u8>, bool)>) -> (hashes: Vec<Vec<u8>>)
    ensures
        hashes_view(hashes@) == all_hashes(nodes_view(nodes@)),
{
    let mut hashes: Vec<Vec<u8>> = Vec::new();
    let mut i: usize = 0;
    while i < nodes.len()
        invariant
            i <= nodes.len(),
            hashes@.len() == i,
            forall|j: int| 0 <= j < i ==> (#[trigger] hashes@[j])@ == nodes@[j].0@,
        decreases nodes.len() - i,
    {
        hashes.push(copy_hash(&nodes[i].0));
        i = i + 1;
    }
    assert(hashes_view(hashes@) =~= all_hashes(nodes_view(nodes@)));
    hashes
}

/// Holds `computed`, the root that the store worked out, against `declared`, the root in
/// the header: `Ok` where they are the same, and `mismatch` where they are not.
pub fn compare_roots(declared: &Vec<u8>, computed: &Vec<u8>, mismatch: ValidationError) -> (outcome: Result<
    (),
    ValidationError,
>)
    ensures
        outcome is Ok <==> declared@ == computed@,
        outcome matches Err(error) ==> error == mismatch,
{
    if !hashes_equal(declared, computed) {
        return Err(mismatch);
    }
    Ok(())
}

/// Takes the store's answer to a request for the header at one height: that header, the
/// error of the store, or `UnexpectedResult` where the answer holds another number of
/// headers than one.
pub fn tip_from_reply(reply: Result<Vec<BlockHeader>, ChainStorageError>) -> (outcome: Result<
    BlockHeader,
    ValidationError,
>)
    ensures
        match reply {
            Ok(headers) if headers@.len() == 1 => outcome == Ok::<BlockHeader, ValidationError>(headers@[0]),
            Ok(_) => outcome == Err::<BlockHeader, ValidationError>(
                ValidationError::StorageError(ChainStorageError::UnexpectedResult),
            ),
            Err(error) => outcome == Err::<BlockHeader, ValidationError>(ValidationError::StorageError(error)),
        },
{
    match reply {
        Err(error) => Err(ValidationError::StorageError(error)),
        Ok(mut headers) => {
            if headers.len() != 1 {
                return Err(ValidationError::StorageError(ChainStorageError::UnexpectedResult));
            }
            Ok(headers.remove(0))
        },
    }
}

/// Checks the roots of the Merkle mountain ranges of a horizon state against the header
/// at the horizon height. The check is switched off unless it is asked for: a validator
/// from [`MmrRootsValidator::new`] passes every state.
pub struct MmrRootsValidator<B, R> {
    rules: Arc<R>,
    db: Arc<B>,
    check_roots: bool,
}

impl<B: BlockchainBackend, R: ConsensusRules> MmrRootsValidator<B, R> {
    /// The store that the check reads.
    pub closed spec fn db(&self) -> &B {
        &*self.db
    }

    /// The rules that the check was made with.
    pub closed spec fn rules(&self) -> &R {
        &*self.rules
    }

    /// Whether the roots are checked at all.
    pub closed spec fn checks_roots(&self) -> bool {
        self.check_roots
    }

    /// A validator that does not check the roots.
    pub fn new(db: Arc<B>, rules: Arc<R>) -> (validator: Self)
        ensures
            validator.db() == &*db,
            validator.rules() == &*rules,
            !validator.checks_roots(),
    {
        Self { db, rules, check_roots: false }
    }

    /// The same validator, with the check of the roots switched on or off.
    pub fn with_root_checks(self, enabled: bool) -> (validator: Self)
        ensures
            validator.db() == self.db(),
            validator.rules() == self.rules(),
            validator.checks_roots() == enabled,
    {
        Self { db: self.db, rules: self.rules, check_roots: enabled }
    }

    /// Works out the root of the outputs' Merkle mountain range at the height of
    /// `tip_header` and holds it against the root that `tip_header` declares.
    pub fn check_utxo_mr(&self, tip_header: &BlockHeader) -> (outcome: Result<(), ValidationError>)
        ensures
            outcome matches Err(error) ==> error is StorageError || error is InvalidOutputMr,
            self.db().obeys_snapshot_spec() ==> match outcome {
                Ok(_) => tip_header.output_mr@ == utxo_root(self.db(), tip_header.height),
                Err(ValidationError::InvalidOutputMr) => tip_header.output_mr@ != utxo_root(
                    self.db(),
                    tip_header.height,
                ),
                Err(_) => true,
            },
    {
        let node_count = match self.db.fetch_mmr_node_count(MmrTree::Utxo, tip_header.height) {
            Ok(count) => count,
            Err(error) => {
                return Err(ValidationError::StorageError(error));
            },
        };
        let nodes = match self.db.fetch_mmr_nodes(MmrTree::Utxo, 0, node_count, None) {
            Ok(nodes) => nodes,
            Err(error) => {
                return Err(ValidationError::StorageError(error));
            },
        };
        let (additions, deletions) = partition_nodes(&nodes);
        let output_mr = match self.db.calculate_mmr_root(MmrTree::Utxo, additions, deletions) {
            Ok(root) => root,
            Err(error) => {
                return Err(ValidationError::StorageError(error));
            },
        };
        compare_roots(&tip_header.output_mr, &output_mr, ValidationError::InvalidOutputMr)
    }

    /// Works out the root of the kernels' Merkle mountain range at the height of
    /// `tip_header` and holds it against the root that `tip_header` declares.
    pub fn check_kernel_mr(&self, tip_header: &BlockHeader) -> (outcome: Result<(), ValidationError>)
        ensures
            outcome matches Err(error) ==> error is StorageError || error is InvalidKernelMr,
            self.db().obeys_snapshot_spec() ==> match outcome {
                Ok(_) => tip_header.kernel_mr@ == kernel_root(self.db(), tip_header.height),
                Err(ValidationError::InvalidKernelMr) => tip_header.kernel_mr@ != kernel_root(
                    self.db(),
                    tip_header.height,
                ),
                Err(_) => true,
            },
    {
        let node_count = match self.db.fetch_mmr_node_count(MmrTree::Kernel, tip_header.height) {
            Ok(count) => count,
            Err(error) => {
                return Err(ValidationError::StorageError(error));
            },
        };
        let nodes = match self.db.fetch_mmr_nodes(MmrTree::Kernel, 0, node_count, None) {
            Ok(nodes) => nodes,
            Err(error) => {
                return Err(ValidationError::StorageError(error));
            },
        };
        let hashes = collect_hashes(&nodes);
        let kernel_mr = match self.db.calculate_mmr_root(MmrTree::Kernel, hashes, Vec::new()) {
            Ok(root) => root,
            Err(error) => {
                return Err(ValidationError::StorageError(error));
            },
        };
        compare_roots(&tip_header.kernel_mr, &kernel_mr, ValidationError::InvalidKernelMr)
    }

    /// The header at `height`, or the error of the store.
    pub fn fetch_tip_header(&self, height: u64) -> (outcome: Result<BlockHeader, ValidationError>)
        ensures
            outcome matches Err(error) ==> error is StorageError,
            self.db().obeys_snapshot_spec() ==> (outcome matches Ok(header) ==> header
                == self.db().header_at(height)),
    {
        let mut heights: Vec<u64> = Vec::new();
        heights.push(height);
        let ghost request = heights@;
        let reply = self.db.fetch_headers(heights);
        proof {
            assert(request[0] == height);
        }
        tip_from_reply(reply)
    }
}

impl<B: BlockchainBackend, R: ConsensusRules> StatelessValidation<u64> for MmrRootsValidator<B, R> {
    /// A validator that does not check the roots passes every state. One that does fails
    /// only with an error of the store or with one of the two mismatches; where the store
    /// obeys its snapshot, it passes only a state whose two roots are those that the header
    /// at the horizon height declares, reports a mismatch of the kernels only where theirs
    /// differs, and one of the outputs only where the kernels' agrees and theirs differs.
    open spec fn admits(&self, horizon_height: &u64, outcome: Result<(), ValidationError>) -> bool {
        if !self.checks_roots() {
            outcome is Ok
        } else {
            let tip = self.db().header_at(*horizon_height);
            &&& outcome matches Err(error) ==> {
                ||| error is StorageError
                ||| error is InvalidKernelMr
                ||| error is InvalidOutputMr
            }
            &&& self.db().obeys_snapshot_spec() ==> match outcome {
                Ok(_) => {
                    &&& tip.kernel_mr@ == kernel_root(self.db(), tip.height)
                    &&& tip.output_mr@ == utxo_root(self.db(), tip.height)
                },
                Err(ValidationError::InvalidKernelMr) => tip.kernel_mr@ != kernel_root(
                    self.db(),
                    tip.height,
                ),
                Err(ValidationError::InvalidOutputMr) => {
                    &&& tip.kernel_mr@ == kernel_root(self.db(), tip.height)
                    &&& tip.output_mr@ != utxo_root(self.db(), tip.height)
                },
                Err(_) => true,
            }
        }
    }

    fn validate(&self, horizon_height: &u64) -> (outcome: Result<(), ValidationError>) {
        if !self.check_roots {
            return Ok(());
        }
        let tip_header = self.fetch_tip_header(*horizon_height)?;
        self.check_kernel_mr(&tip_header)?;
        self.check_utxo_mr(&tip_header)
    }
}

} // verus!

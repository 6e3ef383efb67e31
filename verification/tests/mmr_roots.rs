use horizon_validation::blocks::BlockHeader;
use horizon_validation::chain_storage::{BlockchainBackend, ChainStorageError, MmrTree};
use horizon_validation::consensus::ConsensusRules;
use horizon_validation::crypto::{CryptoFactories, PrivateKey};
use horizon_validation::transactions::{MicroTari, TransactionKernel, TransactionOutput};
use horizon_validation::validation::{StatelessValidation, StatelessValidationExt, ValidationError};
use horizon_validation::validators::mmr_roots::{
    collect_hashes, compare_roots, copy_hash, hashes_equal, partition_nodes, tip_from_reply,
};
use horizon_validation::validators::{ChainBalanceValidator, HorizonSyncValidators, MmrRootsValidator};
use std::sync::{Arc, Mutex};

/// A store of two Merkle mountain ranges. Its root of a tree is the additions followed by
/// a zero byte and by the deletions, so that a test can tell what it was asked to hash.
#[derive(Default)]
struct Store {
    utxo_nodes: Vec<(Vec<u8>, bool)>,
    kernel_nodes: Vec<(Vec<u8>, bool)>,
    tip: Option<BlockHeader>,
    fail_count: bool,
    fail_nodes: bool,
    fail_root: bool,
    calls: Mutex<Vec<String>>,
}

fn toy_root(additions: &[Vec<u8>], deletions: &[u64]) -> Vec<u8> {
    let mut root: Vec<u8> = additions.iter().flatten().copied().collect();
    root.push(0);
    root.extend(deletions.iter().map(|index| *index as u8));
    root
}

impl BlockchainBackend for Store {
    fn fetch_headers(&self, heights: Vec<u64>) -> Result<Vec<BlockHeader>, ChainStorageError> {
        self.calls.lock().unwrap().push(format!("headers {:?}", heights));
        match &self.tip {
            Some(tip) if heights == vec![tip.height] => Ok(vec![tip.clone()]),
            _ => Err(ChainStorageError::ValueNotFound),
        }
    }

    fn fetch_all_utxos(&self) -> Result<Vec<TransactionOutput>, ChainStorageError> {
        Ok(vec![])
    }

    fn fetch_all_kernels(&self) -> Result<Vec<TransactionKernel>, ChainStorageError> {
        Ok(vec![])
    }

    fn fetch_mmr_node_count(&self, tree: MmrTree, height: u64) -> Result<u64, ChainStorageError> {
        self.calls.lock().unwrap().push(format!("count {:?} {}", tree, height));
        if self.fail_count {
            return Err(ChainStorageError::AccessError("count".to_string()));
        }
        Ok(match tree {
            MmrTree::Utxo => self.utxo_nodes.len() as u64,
            MmrTree::Kernel => self.kernel_nodes.len() as u64,
        })
    }

    fn fetch_mmr_nodes(
        &self,
        tree: MmrTree,
        start: u64,
        count: u64,
        hist_height: Option<u64>,
    ) -> Result<Vec<(Vec<u8>, bool)>, ChainStorageError> {
        self.calls.lock().unwrap().push(format!("nodes {:?} {} {} {:?}", tree, start, count, hist_height));
        if self.fail_nodes {
            return Err(ChainStorageError::AccessError("nodes".to_string()));
        }
        let nodes = match tree {
            MmrTree::Utxo => &self.utxo_nodes,
            MmrTree::Kernel => &self.kernel_nodes,
        };
        Ok(nodes[start as usize..(start + count) as usize].to_vec())
    }

    fn calculate_mmr_root(
        &self,
        tree: MmrTree,
        additions: Vec<Vec<u8>>,
        deletions: Vec<u64>,
    ) -> Result<Vec<u8>, ChainStorageError> {
        self.calls.lock().unwrap().push(format!("root {:?} {:?} {:?}", tree, additions, deletions));
        if self.fail_root {
            return Err(ChainStorageError::AccessError("root".to_string()));
        }
        Ok(toy_root(&additions, &deletions))
    }
}

struct Rules;

impl ConsensusRules for Rules {
    fn supply_at_block(&self, _height: u64) -> MicroTari {
        MicroTari(0)
    }

    fn genesis_coinbase_value_offset(&self) -> MicroTari {
        MicroTari(0)
    }

    fn genesis_block_outputs(&self) -> Vec<TransactionOutput> {
        vec![]
    }
}

struct AcceptEveryHeader;

impl StatelessValidation<BlockHeader> for AcceptEveryHeader {
    fn validate(&self, _item: &BlockHeader) -> Result<(), ValidationError> {
        Ok(())
    }
}

fn store() -> Store {
    Store {
        utxo_nodes: vec![(vec![1, 1], false), (vec![2, 2], true), (vec![3, 3], true), (vec![4, 4], false)],
        kernel_nodes: vec![(vec![7], false), (vec![8], false), (vec![9], false)],
        ..Store::default()
    }
}

fn tip(height: u64, output_mr: Vec<u8>, kernel_mr: Vec<u8>) -> BlockHeader {
    BlockHeader { height, total_kernel_offset: PrivateKey::zero(), output_mr, kernel_mr }
}

const OUTPUT_ROOT: [u8; 7] = [1, 1, 4, 4, 0, 1, 2];
const KERNEL_ROOT: [u8; 4] = [7, 8, 9, 0];

fn validator(store: Store) -> (MmrRootsValidator<Store, Rules>, Arc<Store>) {
    let store = Arc::new(store);
    (MmrRootsValidator::new(store.clone(), Arc::new(Rules)), store)
}

#[test]
fn matching_output_root_passes() {
    let (validator, store) = validator(store());
    assert_eq!(validator.check_utxo_mr(&tip(5, OUTPUT_ROOT.to_vec(), vec![])), Ok(()));
    assert_eq!(
        store.calls.lock().unwrap().clone(),
        vec![
            "count Utxo 5".to_string(),
            "nodes Utxo 0 4 None".to_string(),
            "root Utxo [[1, 1], [4, 4]] [1, 2]".to_string(),
        ]
    );
}

#[test]
fn other_output_root_is_invalid() {
    let (validator, _) = validator(store());
    assert_eq!(
        validator.check_utxo_mr(&tip(5, vec![1, 1, 4, 4, 0, 1, 3], vec![])),
        Err(ValidationError::InvalidOutputMr)
    );
    assert_eq!(validator.check_utxo_mr(&tip(5, vec![], vec![])), Err(ValidationError::InvalidOutputMr));
    assert_eq!(
        validator.check_utxo_mr(&tip(5, vec![1, 1, 4, 4, 0, 1, 2, 0], KERNEL_ROOT.to_vec())),
        Err(ValidationError::InvalidOutputMr)
    );
}

#[test]
fn output_root_follows_the_leaf_set_of_the_store() {
    let mut changed = store();
    changed.utxo_nodes[3].1 = true;
    let (validator, _) = validator(changed);
    assert_eq!(
        validator.check_utxo_mr(&tip(5, OUTPUT_ROOT.to_vec(), vec![])),
        Err(ValidationError::InvalidOutputMr)
    );
    assert_eq!(validator.check_utxo_mr(&tip(5, vec![1, 1, 0, 1, 2, 3], vec![])), Ok(()));
}

#[test]
fn matching_kernel_root_passes() {
    let (validator, store) = validator(store());
    assert_eq!(validator.check_kernel_mr(&tip(6, vec![], KERNEL_ROOT.to_vec())), Ok(()));
    assert_eq!(
        store.calls.lock().unwrap().clone(),
        vec![
            "count Kernel 6".to_string(),
            "nodes Kernel 0 3 None".to_string(),
            "root Kernel [[7], [8], [9]] []".to_string(),
        ]
    );
}

#[test]
fn other_kernel_root_is_invalid() {
    let (validator, _) = validator(store());
    assert_eq!(
        validator.check_kernel_mr(&tip(6, OUTPUT_ROOT.to_vec(), vec![7, 8, 0])),
        Err(ValidationError::InvalidKernelMr)
    );
}

#[test]
fn store_errors_stop_the_root_checks() {
    for step in 0..3 {
        let mut failing = store();
        failing.fail_count = step == 0;
        failing.fail_nodes = step == 1;
        failing.fail_root = step == 2;
        let name = ["count", "nodes", "root"][step];
        let expected = Err(ValidationError::StorageError(ChainStorageError::AccessError(name.to_string())));
        let (validator, _) = validator(failing);
        assert_eq!(validator.check_utxo_mr(&tip(1, OUTPUT_ROOT.to_vec(), KERNEL_ROOT.to_vec())), expected);
        assert_eq!(validator.check_kernel_mr(&tip(1, OUTPUT_ROOT.to_vec(), KERNEL_ROOT.to_vec())), expected);
    }
}

#[test]
fn validator_passes_every_state_unless_asked_to_check() {
    let mut failing = store();
    failing.fail_count = true;
    let (validator, store) = validator(failing);
    assert_eq!(validator.validate(&0), Ok(()));
    assert_eq!(validator.validate(&u64::MAX), Ok(()));
    assert!(store.calls.lock().unwrap().is_empty());
}

#[test]
fn switched_on_validator_checks_both_roots_of_the_tip() {
    let mut with_tip = store();
    with_tip.tip = Some(tip(12, OUTPUT_ROOT.to_vec(), KERNEL_ROOT.to_vec()));
    let (validator, store) = validator(with_tip);
    let validator = validator.with_root_checks(true);
    assert_eq!(validator.validate(&12), Ok(()));
    assert_eq!(
        store.calls.lock().unwrap().iter().map(|call| call.split(' ').take(2).collect::<Vec<_>>().join(" ")).collect::<Vec<_>>(),
        vec!["headers [12]", "count Kernel", "nodes Kernel", "root Kernel", "count Utxo", "nodes Utxo", "root Utxo"]
    );
    assert_eq!(
        validator.validate(&13),
        Err(ValidationError::StorageError(ChainStorageError::ValueNotFound))
    );
    assert_eq!(validator.with_root_checks(false).validate(&13), Ok(()));
}

#[test]
fn switched_on_validator_reports_the_kernel_root_first() {
    let mut with_tip = store();
    with_tip.tip = Some(tip(12, vec![9, 9], vec![9, 9]));
    let (both_wrong, _) = validator(with_tip);
    assert_eq!(both_wrong.with_root_checks(true).validate(&12), Err(ValidationError::InvalidKernelMr));

    let mut with_tip = store();
    with_tip.tip = Some(tip(12, vec![9, 9], KERNEL_ROOT.to_vec()));
    let (outputs_wrong, _) = validator(with_tip);
    assert_eq!(outputs_wrong.with_root_checks(true).validate(&12), Err(ValidationError::InvalidOutputMr));
}

#[test]
fn partition_splits_unspent_hashes_from_spent_indices() {
    let nodes = vec![
        (vec![10], true),
        (vec![11, 11], false),
        (vec![], false),
        (vec![13], true),
        (vec![14], true),
    ];
    assert_eq!(partition_nodes(&nodes), (vec![vec![11, 11], vec![]], vec![0, 3, 4]));
    assert_eq!(partition_nodes(&vec![]), (vec![], vec![]));
    assert_eq!(collect_hashes(&nodes), vec![vec![10], vec![11, 11], vec![], vec![13], vec![14]]);
}

#[test]
fn hashes_compare_by_their_bytes() {
    assert!(hashes_equal(&vec![1, 2, 3], &vec![1, 2, 3]));
    assert!(hashes_equal(&vec![], &vec![]));
    assert!(!hashes_equal(&vec![1, 2, 3], &vec![1, 2, 4]));
    assert!(!hashes_equal(&vec![1, 2, 3], &vec![1, 2]));
    assert!(!hashes_equal(&vec![1, 2], &vec![1, 2, 3]));
    assert_eq!(copy_hash(&vec![5, 6, 7]), vec![5, 6, 7]);
    assert_eq!(compare_roots(&vec![1], &vec![1], ValidationError::InvalidKernelMr), Ok(()));
    assert_eq!(
        compare_roots(&vec![1], &vec![2], ValidationError::InvalidKernelMr),
        Err(ValidationError::InvalidKernelMr)
    );
}

#[test]
fn production_bundle_chains_balance_and_roots() {
    let mut empty = store();
    empty.tip = Some(tip(0, vec![9], vec![9]));
    let db = Arc::new(empty);
    let bundle = HorizonSyncValidators::full_consensus(
        AcceptEveryHeader,
        db.clone(),
        Arc::new(Rules),
        CryptoFactories::default(),
    );
    assert_eq!(bundle.header.validate(&tip(3, vec![], vec![])), Ok(()));
    // Nothing emitted and nothing unspent: the state balances, and the roots are not checked.
    assert_eq!(bundle.final_state.validate(&0), Ok(()));
    // No header at height 1: the balance check fails first.
    assert_eq!(
        bundle.final_state.validate(&1),
        Err(ValidationError::StorageError(ChainStorageError::ValueNotFound))
    );
}

#[test]
fn bundle_holds_the_checks_it_was_given() {
    let db = Arc::new(store());
    let rules = Arc::new(Rules);
    let final_state = ChainBalanceValidator::new(db.clone(), rules.clone(), CryptoFactories::default())
        .chain(MmrRootsValidator::new(db, rules).with_root_checks(true));
    let bundle = HorizonSyncValidators::new(AcceptEveryHeader, final_state);
    assert_eq!(bundle.header.validate(&tip(0, vec![], vec![])), Ok(()));
    assert_eq!(
        bundle.final_state.validate(&0),
        Err(ValidationError::StorageError(ChainStorageError::ValueNotFound))
    );
}

#[test]
fn tip_is_the_single_header_of_the_answer() {
    assert_eq!(tip_from_reply(Ok(vec![tip(4, vec![1], vec![2])])), Ok(tip(4, vec![1], vec![2])));
    assert_eq!(
        tip_from_reply(Ok(vec![])),
        Err(ValidationError::StorageError(ChainStorageError::UnexpectedResult))
    );
    assert_eq!(
        tip_from_reply(Ok(vec![tip(4, vec![], vec![]), tip(5, vec![], vec![])])),
        Err(ValidationError::StorageError(ChainStorageError::UnexpectedResult))
    );
    assert_eq!(
        tip_from_reply(Err(ChainStorageError::AccessError("down".to_string()))),
        Err(ValidationError::StorageError(ChainStorageError::AccessError("down".to_string())))
    );
}

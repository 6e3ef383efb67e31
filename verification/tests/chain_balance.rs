use horizon_validation::blocks::BlockHeader;
use horizon_validation::chain_storage::{BlockchainBackend, ChainStorageError, MmrTree};
use horizon_validation::consensus::ConsensusRules;
use horizon_validation::crypto::{Commitment, CommitmentFactory, CryptoFactories, PrivateKey};
use horizon_validation::transactions::{MicroTari, TransactionKernel, TransactionOutput};
use horizon_validation::validation::{StatelessValidation, ValidationError};
use horizon_validation::validators::chain_balance::{
    check_balance, collect_kernel_excesses, collect_output_commitments, collect_spendable_commitments,
    HEADER_CHUNK_SIZE,
};
use horizon_validation::validators::ChainBalanceValidator;
use std::sync::atomic::{AtomicUsize, Ordering};
use std::sync::Arc;

#[derive(Default)]
struct Store {
    offsets: Vec<u64>,
    utxos: Vec<TransactionOutput>,
    kernels: Vec<TransactionKernel>,
    fail_headers: bool,
    fail_utxos: bool,
    fail_kernels: bool,
    header_fetches: AtomicUsize,
}

impl BlockchainBackend for Store {
    fn fetch_headers(&self, heights: Vec<u64>) -> Result<Vec<BlockHeader>, ChainStorageError> {
        self.header_fetches.fetch_add(1, Ordering::SeqCst);
        if self.fail_headers {
            return Err(ChainStorageError::AccessError("headers".to_string()));
        }
        heights
            .into_iter()
            .map(|height| match self.offsets.get(height as usize) {
                Some(offset) => Ok(BlockHeader {
                    height,
                    total_kernel_offset: PrivateKey::from_u64(*offset),
                    output_mr: vec![],
                    kernel_mr: vec![],
                }),
                None => Err(ChainStorageError::ValueNotFound),
            })
            .collect()
    }

    fn fetch_all_utxos(&self) -> Result<Vec<TransactionOutput>, ChainStorageError> {
        if self.fail_utxos {
            return Err(ChainStorageError::AccessError("utxos".to_string()));
        }
        Ok(self.utxos.clone())
    }

    fn fetch_all_kernels(&self) -> Result<Vec<TransactionKernel>, ChainStorageError> {
        if self.fail_kernels {
            return Err(ChainStorageError::AccessError("kernels".to_string()));
        }
        Ok(self.kernels.clone())
    }

    fn fetch_mmr_node_count(&self, _tree: MmrTree, _height: u64) -> Result<u64, ChainStorageError> {
        Err(ChainStorageError::ValueNotFound)
    }

    fn fetch_mmr_nodes(
        &self,
        _tree: MmrTree,
        _start: u64,
        _count: u64,
        _hist_height: Option<u64>,
    ) -> Result<Vec<(Vec<u8>, bool)>, ChainStorageError> {
        Err(ChainStorageError::ValueNotFound)
    }

    fn calculate_mmr_root(
        &self,
        _tree: MmrTree,
        _additions: Vec<Vec<u8>>,
        _deletions: Vec<u64>,
    ) -> Result<Vec<u8>, ChainStorageError> {
        Err(ChainStorageError::ValueNotFound)
    }
}

/// Rules with a reward of 1000 for every block, the genesis block included.
struct Rules {
    genesis_offset: u64,
    genesis: Vec<TransactionOutput>,
}

impl ConsensusRules for Rules {
    fn supply_at_block(&self, height: u64) -> MicroTari {
        MicroTari(1000 * (height + 1))
    }

    fn genesis_coinbase_value_offset(&self) -> MicroTari {
        MicroTari(self.genesis_offset)
    }

    fn genesis_block_outputs(&self) -> Vec<TransactionOutput> {
        self.genesis.clone()
    }
}

fn commit(k: u64, v: u64) -> Commitment {
    CommitmentFactory::default().commit_value(&PrivateKey::from_u64(k), v)
}

fn validator(store: Store, rules: Rules) -> ChainBalanceValidator<Store, Rules> {
    ChainBalanceValidator::new(Arc::new(store), Arc::new(rules), CryptoFactories::default())
}

fn assert_mismatch_at(outcome: Result<(), ValidationError>, expected: u64) {
    match outcome {
        Err(ValidationError::BalanceMismatch { height, .. }) => assert_eq!(height, expected),
        other => panic!("expected a balance mismatch, got {:?}", other),
    }
}

/// Genesis: a coinbase of 100 and another output of 50. The coinbase is the whole of the
/// supply at height 0, so nothing has been emitted besides it.
fn genesis_rules() -> Rules {
    Rules {
        genesis_offset: 1000,
        genesis: vec![
            TransactionOutput::new(commit(7, 100), true),
            TransactionOutput::new(commit(8, 50), false),
        ],
    }
}

#[test]
fn genesis_state_without_the_coinbase_balances() {
    let store = Store { offsets: vec![0], utxos: vec![TransactionOutput::new(commit(8, 50), false)], ..Store::default() };
    assert_eq!(validator(store, genesis_rules()).validate(&0), Ok(()));
}

#[test]
fn genesis_state_with_the_coinbase_does_not_balance() {
    let store = Store {
        offsets: vec![0],
        utxos: vec![TransactionOutput::new(commit(8, 50), false), TransactionOutput::new(commit(7, 100), true)],
        ..Store::default()
    };
    assert_mismatch_at(validator(store, genesis_rules()).validate(&0), 0);
}

/// A state at height 3: 4000 emitted, 250 of it held back by the genesis offset; kernels
/// and kernel offsets account for the blinding factors of the outputs.
fn balanced_store() -> (Store, Rules) {
    let rules = Rules {
        genesis_offset: 250,
        genesis: vec![
            TransactionOutput::new(commit(1, 250), true),
            TransactionOutput::new(commit(5, 30), false),
            TransactionOutput::new(commit(6, 20), false),
        ],
    };
    // values: 3750 emitted + 50 from genesis = 3800
    // blinding factors: genesis 5 + 6, kernels 100 + 200, offsets 1 + 2 + 3 + 4 = 321
    let store = Store {
        offsets: vec![1, 2, 3, 4],
        utxos: vec![
            TransactionOutput::new(commit(300, 3000), false),
            TransactionOutput::new(commit(20, 799), true),
            TransactionOutput::new(commit(1, 1), false),
        ],
        kernels: vec![TransactionKernel::new(commit(100, 0)), TransactionKernel::new(commit(200, 0))],
        ..Store::default()
    };
    (store, rules)
}

#[test]
fn state_that_nets_to_equality_balances() {
    let (store, rules) = balanced_store();
    assert_eq!(validator(store, rules).validate(&3), Ok(()));
}

#[test]
fn balanced_state_passes_again_on_the_same_validator() {
    let (store, rules) = balanced_store();
    let validator = validator(store, rules);
    assert_eq!(validator.validate(&3), Ok(()));
    assert_eq!(validator.validate(&3), Ok(()));
    assert_mismatch_at(validator.validate(&2), 2);
}

#[test]
fn perturbed_utxo_value_fails() {
    let (mut store, rules) = balanced_store();
    store.utxos[1] = TransactionOutput::new(commit(20, 800), true);
    assert_mismatch_at(validator(store, rules).validate(&3), 3);
}

#[test]
fn perturbed_utxo_blinding_factor_fails() {
    let (mut store, rules) = balanced_store();
    store.utxos[0] = TransactionOutput::new(commit(301, 3000), false);
    assert_mismatch_at(validator(store, rules).validate(&3), 3);
}

#[test]
fn perturbed_kernel_excess_fails() {
    let (mut store, rules) = balanced_store();
    store.kernels[0] = TransactionKernel::new(commit(101, 0));
    assert_mismatch_at(validator(store, rules).validate(&3), 3);
}

#[test]
fn perturbed_kernel_offset_fails() {
    let (mut store, rules) = balanced_store();
    store.offsets[2] = 4;
    assert_mismatch_at(validator(store, rules).validate(&3), 3);
}

#[test]
fn perturbed_genesis_output_fails() {
    let (store, mut rules) = balanced_store();
    rules.genesis[1] = TransactionOutput::new(commit(5, 31), false);
    assert_mismatch_at(validator(store, rules).validate(&3), 3);
}

#[test]
fn perturbed_emission_fails() {
    let (store, mut rules) = balanced_store();
    rules.genesis_offset = 251;
    assert_mismatch_at(validator(store, rules).validate(&3), 3);
}

#[test]
fn coinbase_genesis_outputs_are_left_out_of_the_sum() {
    let (store, mut rules) = balanced_store();
    rules.genesis[0] = TransactionOutput::new(commit(99, 12345), true);
    assert_eq!(validator(store, rules).validate(&3), Ok(()));
}

#[test]
fn headers_beyond_the_height_are_not_read() {
    let (mut store, rules) = balanced_store();
    store.offsets.push(1000);
    let validator = validator(store, rules);
    assert_eq!(validator.validate(&3), Ok(()));
    assert_mismatch_at(validator.validate(&4), 4);
}

#[test]
fn store_errors_are_passed_on_as_they_are() {
    let (mut store, rules) = balanced_store();
    store.fail_headers = true;
    assert_eq!(
        validator(store, rules).validate(&3),
        Err(ValidationError::StorageError(ChainStorageError::AccessError("headers".to_string())))
    );
    let (mut store, rules) = balanced_store();
    store.fail_kernels = true;
    assert_eq!(
        validator(store, rules).validate(&3),
        Err(ValidationError::StorageError(ChainStorageError::AccessError("kernels".to_string())))
    );
    let (mut store, rules) = balanced_store();
    store.fail_utxos = true;
    assert_eq!(
        validator(store, rules).validate(&3),
        Err(ValidationError::StorageError(ChainStorageError::AccessError("utxos".to_string())))
    );
}

#[test]
fn missing_header_is_a_storage_error() {
    let (store, rules) = balanced_store();
    assert_eq!(
        validator(store, rules).validate(&9),
        Err(ValidationError::StorageError(ChainStorageError::ValueNotFound))
    );
}

#[test]
fn headers_are_streamed_in_chunks() {
    assert_eq!(HEADER_CHUNK_SIZE, 50);
    let (mut store, rules) = balanced_store();
    store.offsets = vec![0; 120];
    let store = Arc::new(store);
    let validator = ChainBalanceValidator::new(store.clone(), Arc::new(rules), CryptoFactories::default());
    assert!(validator.fetch_total_offset_commitment(119).is_ok());
    // 51 + 51 + 18 headers
    assert_eq!(store.header_fetches.load(Ordering::SeqCst), 3);
}

#[test]
fn supply_below_the_genesis_offset_is_an_error() {
    let (store, mut rules) = balanced_store();
    rules.genesis_offset = 4001;
    let validator = validator(store, rules);
    assert!(matches!(validator.get_emission_commitment_at(3), Err(ValidationError::CustomError(_))));
    assert!(matches!(validator.validate(&3), Err(ValidationError::CustomError(_))));
    assert_eq!(validator.get_emission_commitment_at(4), Ok(commit(0, 999)));
}

#[test]
fn aggregates_are_the_sums_of_their_parts() {
    let (store, rules) = balanced_store();
    let validator = validator(store, rules);
    assert_eq!(validator.fetch_total_offset_commitment(3), Ok(commit(10, 0)));
    assert_eq!(validator.fetch_total_offset_commitment(1), Ok(commit(3, 0)));
    assert_eq!(validator.fetch_total_offset_commitment(0), Ok(commit(1, 0)));
    assert_eq!(validator.fetch_aggregate_utxo_commitment(), Ok(commit(321, 3800)));
    assert_eq!(validator.fetch_aggregate_kernel_excess(), Ok(commit(300, 0)));
    assert_eq!(validator.get_aggregate_genesis_commitment(), commit(11, 50));
    assert_eq!(validator.get_emission_commitment_at(3), Ok(commit(0, 3750)));
    assert_eq!(validator.get_emission_commitment_at(0), Ok(commit(0, 750)));
    assert_eq!(validator.commit_value(MicroTari(42)), commit(0, 42));
}

#[test]
fn empty_sets_sum_to_the_identity() {
    let store = Store { offsets: vec![0], ..Store::default() };
    let rules = Rules { genesis_offset: 1000, genesis: vec![] };
    let validator = validator(store, rules);
    let zero = CommitmentFactory::default().zero();
    assert_eq!(validator.fetch_aggregate_utxo_commitment(), Ok(zero));
    assert_eq!(validator.fetch_aggregate_kernel_excess(), Ok(zero));
    assert_eq!(validator.get_aggregate_genesis_commitment(), zero);
    assert_eq!(validator.validate(&0), Ok(()));
}

#[test]
fn check_balance_decides_the_equation() {
    let (utxos, emission, kernels, genesis, offsets) =
        (commit(321, 3800), commit(0, 3750), commit(300, 0), commit(11, 50), commit(10, 0));
    assert_eq!(check_balance(3, &utxos, &emission, &kernels, &genesis, &offsets), Ok(()));
    assert_mismatch_at(check_balance(3, &commit(321, 3801), &emission, &kernels, &genesis, &offsets), 3);
    assert_mismatch_at(check_balance(8, &utxos, &commit(0, 3751), &kernels, &genesis, &offsets), 8);
    assert_mismatch_at(check_balance(0, &utxos, &emission, &commit(301, 0), &genesis, &offsets), 0);
    assert_mismatch_at(check_balance(1, &utxos, &emission, &kernels, &commit(11, 49), &offsets), 1);
    assert_mismatch_at(check_balance(u64::MAX, &utxos, &emission, &kernels, &genesis, &commit(9, 0)), u64::MAX);
}

#[test]
fn collectors_keep_the_order_and_drop_only_coinbases() {
    let outputs = vec![
        TransactionOutput::new(commit(1, 1), true),
        TransactionOutput::new(commit(2, 2), false),
        TransactionOutput::new(commit(3, 3), true),
        TransactionOutput::new(commit(4, 4), false),
    ];
    assert!(outputs[0].is_coinbase());
    assert!(!outputs[1].is_coinbase());
    assert_eq!(
        collect_output_commitments(&outputs),
        vec![commit(1, 1), commit(2, 2), commit(3, 3), commit(4, 4)]
    );
    assert_eq!(collect_spendable_commitments(&outputs), vec![commit(2, 2), commit(4, 4)]);
    assert_eq!(collect_spendable_commitments(&vec![]), vec![]);
    let kernels = vec![TransactionKernel::new(commit(5, 0)), TransactionKernel::new(commit(6, 0))];
    assert_eq!(collect_kernel_excesses(&kernels), vec![commit(5, 0), commit(6, 0)]);
}

#[test]
fn micro_tari_subtracts_checked() {
    assert_eq!(MicroTari(10).checked_sub(MicroTari(3)), Some(MicroTari(7)));
    assert_eq!(MicroTari(10).checked_sub(MicroTari(10)), Some(MicroTari(0)));
    assert_eq!(MicroTari(10).checked_sub(MicroTari(11)), None);
}

#[test]
fn adding_a_nonzero_amount_to_any_single_commitment_fails() {
    let amounts = [commit(0, 1), commit(1, 0), commit(u64::MAX, u64::MAX)];
    for amount in amounts {
        let (mut store, rules) = balanced_store();
        for index in 0..store.utxos.len() {
            let kept = store.utxos[index];
            store.utxos[index] = TransactionOutput::new(kept.commitment.plus(&amount), kept.coinbase);
            let store_now = Store {
                offsets: store.offsets.clone(),
                utxos: store.utxos.clone(),
                kernels: store.kernels.clone(),
                ..Store::default()
            };
            let rules_now = Rules { genesis_offset: rules.genesis_offset, genesis: rules.genesis.clone() };
            assert_mismatch_at(validator(store_now, rules_now).validate(&3), 3);
            store.utxos[index] = kept;
        }
        for index in 0..store.kernels.len() {
            let kept = store.kernels[index];
            store.kernels[index] = TransactionKernel::new(kept.excess.plus(&amount));
            let store_now = Store {
                offsets: store.offsets.clone(),
                utxos: store.utxos.clone(),
                kernels: store.kernels.clone(),
                ..Store::default()
            };
            let rules_now = Rules { genesis_offset: rules.genesis_offset, genesis: rules.genesis.clone() };
            assert_mismatch_at(validator(store_now, rules_now).validate(&3), 3);
            store.kernels[index] = kept;
        }
        assert_eq!(validator(store, rules).validate(&3), Ok(()));
    }
}

#[test]
fn adding_the_identity_changes_nothing() {
    let (mut store, rules) = balanced_store();
    let zero = CommitmentFactory::default().zero();
    store.utxos[1] = TransactionOutput::new(store.utxos[1].commitment.plus(&zero), true);
    store.utxos.push(TransactionOutput::new(zero, false));
    store.kernels.push(TransactionKernel::new(zero));
    assert_eq!(validator(store, rules).validate(&3), Ok(()));
}

//! The check that a horizon state balances: that the unspent outputs commit to exactly
//! what has been emitted, under the blinding factors that the kernels and the kernel
//! offsets account for.

use crate::blocks::offset_total;
use crate::chain_storage::{first_headers, BlockchainBackend};
use crate::consensus::ConsensusRules;
use crate::crypto::{
    are_point_encodings, commitment_total, commitment_views, is_point_encoding,
    lemma_total_is_point_encoding, lemma_total_of_perturbed, pedersen_commit, point_sum,
    point_sum_obeys_group_laws, zero_commitment, BlindingFactor, Commitment, CryptoFactories, PrivateKey,
};
use crate::transactions::{
    kernel_excesses, micro_tari_difference, output_commitments, spendable_outputs, MicroTari,
    TransactionKernel, TransactionOutput,
};
use crate::validation::error::ValidationError;
use crate::validation::traits::StatelessValidation;
use crate::validators::header_iter::HeaderIter;
use std::sync::Arc;
use vstd::prelude::*;

verus! {

/// The number that sets how many headers the check holds in memory at a time.
pub const HEADER_CHUNK_SIZE: usize = 50;

/// The commitment to the value zero under the sum of the kernel offsets of the headers
/// of the heights `0..=height`.
pub open spec fn offset_commitment<B: BlockchainBackend>(db: &B, height: u64) -> Seq<u8> {
    pedersen_commit(offset_total(first_headers(db, (height + 1) as nat)), 0)
}

/// What the unspent outputs should hold at `height`: the supply at `height` less the
/// genesis offset, where the supply covers the offset.
pub open spec fn expected_supply<R: ConsensusRules>(rules: &R, height: u64) -> Option<MicroTari> {
    micro_tari_difference(rules.supply(height), rules.genesis_offset())
}

/// The commitment to `supply` under the blinding factor zero.
pub open spec fn emission_commitment(supply: MicroTari) -> Seq<u8> {
    pedersen_commit(0, supply.0 as nat)
}

/// The commitments of those of `outputs` that pay out no block reward.
pub open spec fn spendable_commitments(outputs: Seq<TransactionOutput>) -> Seq<Seq<u8>> {
    output_commitments(spendable_outputs(outputs))
}

/// The right-hand side of the balance equation: the emission, plus the kernel excesses
/// and the spendable genesis outputs, plus the kernel offsets.
pub open spec fn expected_total(
    emission: Seq<u8>,
    kernel_excess: Seq<u8>,
    genesis: Seq<u8>,
    total_offset: Seq<u8>,
) -> Seq<u8> {
    point_sum(point_sum(emission, point_sum(kernel_excess, genesis)), total_offset)
}

/// The balance equation, over the five aggregates.
pub open spec fn balance_holds(
    utxo_total: Seq<u8>,
    emission: Seq<u8>,
    kernel_excess: Seq<u8>,
    genesis: Seq<u8>,
    total_offset: Seq<u8>,
) -> bool {
    utxo_total == expected_total(emission, kernel_excess, genesis, total_offset)
}

/// Whether the state in the snapshot of `db` balances at `height` under `rules`.
pub open spec fn is_balanced<B: BlockchainBackend, R: ConsensusRules>(db: &B, rules: &R, height: u64) -> bool {
    expected_supply(rules, height) matches Some(supply) && balance_holds(
        commitment_total(output_commitments(db.utxos())),
        emission_commitment(supply),
        commitment_total(kernel_excesses(db.kernels())),
        commitment_total(spendable_commitments(rules.genesis_outputs())),
        offset_commitment(db, height),
    )
}

/// The commitments of `outputs`, in order.
pub fn collect_output_commitments(outputs: &Vec<TransactionOutput>) -> (commitments: Vec<Commitment>)
    ensures
        commitment_views(commitments@) == output_commitments(outputs@),
{
    let mut commitments: Vec<Commitment> = Vec::new();
    let mut i: usize = 0;
    while i < outputs.len()
        invariant
            i <= outputs.len(),
            commitments@.len() == i,
            forall|j: int| 0 <= j < i ==> commitments@[j] == outputs@[j].commitment,
        decreases outputs.len() - i,
    {
        commitments.push(outputs[i].commitment);
        i = i + 1;
    }
    assert(commitment_views(commitments@) =~= output_commitments(outputs@));
    commitments
}

/// The commitments of those of `outputs` that pay out no block reward, in order.
pub fn collect_spendable_commitments(outputs: &Vec<TransactionOutput>) -> (commitments: Vec<Commitment>)
    ensures
        commitment_views(commitments@) == spendable_commitments(outputs@),
{
    let mut commitments: Vec<Commitment> = Vec::new();
    let mut i: usize = 0;
    while i < outputs.len()
        invariant
            i <= outputs.len(),
            commitment_views(commitments@) == spendable_commitments(outputs@.take(i as int)),
        decreases outputs.len() - i,
    {
        proof {
            assert(outputs@.take(i + 1).drop_last() =~= outputs@.take(i as int));
            assert(outputs@.take(i + 1).last() == outputs@[i as int]);
        }
        if !outputs[i].is_coinbase() {
            commitments.push(outputs[i].commitment);
            proof {
                let kept = spendable_outputs(outputs@.take(i as int));
                assert(output_commitments(kept.push(outputs@[i as int])) =~= output_commitments(kept).push(
                    outputs@[i as int].commitment@,
                ));
                assert(commitment_views(commitments@) =~= spendable_commitments(outputs@.take(i + 1)));
            }
        }
        i = i + 1;
    }
    proof {
        assert(outputs@.take(outputs.len() as int) =~= outputs@);
    }
    commitments
}

/// The excesses of `kernels`, in order.
pub fn collect_kernel_excesses(kernels: &Vec<TransactionKernel>) -> (excesses: Vec<Commitment>)
    ensures
        commitment_views(excesses@) == kernel_excesses(kernels@),
{
    let mut excesses: Vec<Commitment> = Vec::new();
    let mut i: usize = 0;
    while i < kernels.len()
        invariant
            i <= kernels.len(),
            excesses@.len() == i,
            forall|j: int| 0 <= j < i ==> excesses@[j] == kernels@[j].excess,
        decreases kernels.len() - i,
    {
        excesses.push(kernels[i].excess);
        i = i + 1;
    }
    assert(commitment_views(excesses@) =~= kernel_excesses(kernels@));
    excesses
}

/// Decides the balance equation on the five aggregates: `Ok` where the unspent outputs
/// add up to the emission, the kernel excesses, the spendable genesis outputs and the
/// kernel offsets together, and a balance mismatch at `height` where they do not.
pub fn check_balance(
    height: u64,
    utxo_total: &Commitment,
    emission: &Commitment,
    kernel_excess: &Commitment,
    genesis: &Commitment,
    total_offset: &Commitment,
) -> (outcome: Result<(), ValidationError>)
    ensures
        outcome is Ok <==> balance_holds(utxo_total@, emission@, kernel_excess@, genesis@, total_offset@),
        outcome matches Err(error) ==> error matches ValidationError::BalanceMismatch { height: h, .. }
            && h == height,
{
    let agg_excess = kernel_excess.plus(genesis);
    let input = emission.plus(&agg_excess).plus(total_offset);
    if !utxo_total.equals(&input) {
        return Err(ValidationError::balance_mismatch(height));
    }
    Ok(())
}

/// Checks that the unspent outputs of a horizon state balance at the horizon height.
pub struct ChainBalanceValidator<B, R> {
    rules: Arc<R>,
    db: Arc<B>,
    factories: CryptoFactories,
}

impl<B: BlockchainBackend, R: ConsensusRules> ChainBalanceValidator<B, R> {
    /// The store that the check reads.
    pub closed spec fn db(&self) -> &B {
        &*self.db
    }

    /// The rules that the check goes by.
    pub closed spec fn rules(&self) -> &R {
        &*self.rules
    }

    pub fn new(db: Arc<B>, rules: Arc<R>, factories: CryptoFactories) -> (validator: Self)
        ensures
            validator.db() == &*db,
            validator.rules() == &*rules,
    {
        Self { db, rules, factories }
    }

    /// The commitment to zero under the sum of the kernel offsets of the headers of the
    /// heights `0..=height`, which are streamed from the store a chunk at a time.
    pub fn fetch_total_offset_commitment(&self, height: u64) -> (outcome: Result<Commitment, ValidationError>)
        ensures
            outcome matches Err(error) ==> error is StorageError,
            self.db().obeys_snapshot_spec() ==> (outcome matches Ok(commitment) ==> commitment@
                == offset_commitment(self.db(), height)),
    {
        let mut header_iter = HeaderIter::new(&*self.db, height, HEADER_CHUNK_SIZE);
        let mut total_offset = BlindingFactor::default();
        let mut done = false;
        while !done
            invariant
                header_iter.wf(),
                header_iter.db() == self.db(),
                header_iter.height() == height,
                !header_iter.is_errored(),
                done ==> header_iter.spec_state() is Exhausted,
                self.db().obeys_snapshot_spec() ==> total_offset@ == offset_total(
                    first_headers(self.db(), header_iter.position() as nat),
                ),
            decreases
                    (if done {
                        0
                    } else {
                        height + 2 - header_iter.position()
                    }),
        {
            let ghost position = header_iter.position();
            match header_iter.next() {
                None => {
                    done = true;
                },
                Some(Err(error)) => {
                    return Err(ValidationError::StorageError(error));
                },
                Some(Ok(header)) => {
                    total_offset = total_offset.plus(&header.total_kernel_offset);
                    proof {
                        let longer = first_headers(self.db(), (position + 1) as nat);
                        assert(longer.drop_last() =~= first_headers(self.db(), position as nat));
                        assert(longer.last() == self.db().header_at(position as u64));
                    }
                },
            }
        }
        let zero = PrivateKey::from_u64(0);
        Ok(self.factories.commitment.commit(&total_offset, &zero))
    }

    /// The sum of the commitments of all unspent outputs in the store.
    pub fn fetch_aggregate_utxo_commitment(&self) -> (outcome: Result<Commitment, ValidationError>)
        ensures
            outcome matches Err(error) ==> error is StorageError,
            self.db().obeys_snapshot_spec() ==> (outcome matches Ok(commitment) ==> commitment@
                == commitment_total(output_commitments(self.db().utxos()))),
    {
        match self.db.fetch_all_utxos() {
            Err(error) => Err(ValidationError::StorageError(error)),
            Ok(utxos) => Ok(self.factories.commitment.sum(&collect_output_commitments(&utxos))),
        }
    }

    /// The commitment, under the blinding factor zero, to what the unspent outputs should
    /// hold at `height`: the supply at `height` less the genesis offset. An error where
    /// the rules give a supply below that offset.
    pub fn get_emission_commitment_at(&self, height: u64) -> (outcome: Result<Commitment, ValidationError>)
        ensures
            outcome matches Err(error) ==> error is CustomError,
            self.rules().obeys_rules_spec() ==> match expected_supply(self.rules(), height) {
                Some(supply) => outcome matches Ok(commitment) && commitment@ == emission_commitment(
                    supply,
                ),
                None => outcome is Err,
            },
    {
        let supply = self.rules.supply_at_block(height);
        let offset = self.rules.genesis_coinbase_value_offset();
        match supply.checked_sub(offset) {
            Some(total_supply) => Ok(self.commit_value(total_supply)),
            None => Err(
                ValidationError::custom_error("The emission at the horizon height is below the genesis offset"),
            ),
        }
    }

    /// The sum of the commitments of the genesis block's outputs, but for those that pay
    /// out a block reward.
    pub fn get_aggregate_genesis_commitment(&self) -> (commitment: Commitment)
        ensures
            self.rules().obeys_rules_spec() ==> commitment@ == commitment_total(
                spendable_commitments(self.rules().genesis_outputs()),
            ),
    {
        let outputs = self.rules.genesis_block_outputs();
        self.factories.commitment.sum(&collect_spendable_commitments(&outputs))
    }

    /// The sum of the excesses of all kernels in the store.
    pub fn fetch_aggregate_kernel_excess(&self) -> (outcome: Result<Commitment, ValidationError>)
        ensures
            outcome matches Err(error) ==> error is StorageError,
            self.db().obeys_snapshot_spec() ==> (outcome matches Ok(commitment) ==> commitment@
                == commitment_total(kernel_excesses(self.db().kernels()))),
    {
        match self.db.fetch_all_kernels() {
            Err(error) => Err(ValidationError::StorageError(error)),
            Ok(kernels) => Ok(self.factories.commitment.sum(&collect_kernel_excesses(&kernels))),
        }
    }

    /// The commitment to the value `v` under the blinding factor zero.
    pub fn commit_value(&self, v: MicroTari) -> (commitment: Commitment)
        ensures
            commitment@ == emission_commitment(v),
    {
        self.factories.commitment.commit_value(&PrivateKey::default(), v.0)
    }
}

impl<B: BlockchainBackend, R: ConsensusRules> StatelessValidation<u64> for ChainBalanceValidator<B, R> {
    /// The check fails only with an error of the store, with a supply that the rules put
    /// below the genesis offset, or with a balance mismatch at the height it was given.
    /// Where the store obeys its snapshot and the rules obey their description, it passes
    /// only a state that balances, and reports a mismatch only of one that does not.
    open spec fn admits(&self, horizon_height: &u64, outcome: Result<(), ValidationError>) -> bool {
        &&& outcome matches Err(error) ==> {
            ||| error is StorageError
            ||| error is CustomError
            ||| error matches ValidationError::BalanceMismatch { height, .. } && height == *horizon_height
        }
        &&& self.db().obeys_snapshot_spec() && self.rules().obeys_rules_spec() ==> match outcome {
            Ok(_) => is_balanced(self.db(), self.rules(), *horizon_height),
            Err(ValidationError::BalanceMismatch { .. }) => {
                &&& expected_supply(self.rules(), *horizon_height) is Some
                &&& !is_balanced(self.db(), self.rules(), *horizon_height)
            },
            Err(ValidationError::CustomError(_)) => expected_supply(self.rules(), *horizon_height) is None,
            Err(_) => true,
        }
    }

    fn validate(&self, horizon_height: &u64) -> (outcome: Result<(), ValidationError>) {
        let total_offset = self.fetch_total_offset_commitment(*horizon_height)?;
        let emission_h = self.get_emission_commitment_at(*horizon_height)?;
        let kernel_excess = self.fetch_aggregate_kernel_excess()?;
        let genesis_input_commit = self.get_aggregate_genesis_commitment();
        let output = self.fetch_aggregate_utxo_commitment()?;
        check_balance(
            *horizon_height,
            &output,
            &emission_h,
            &kernel_excess,
            &genesis_input_commit,
            &total_offset,
        )
    }
}

/// A state that balances is never reported as a mismatch: on a store that obeys its
/// snapshot and under rules that obey their description, the check passes it unless the
/// store fails.
pub proof fn lemma_balanced_state_passes<B: BlockchainBackend, R: ConsensusRules>(
    validator: ChainBalanceValidator<B, R>,
    height: u64,
    outcome: Result<(), ValidationError>,
)
    requires
        validator.db().obeys_snapshot_spec(),
        validator.rules().obeys_rules_spec(),
        is_balanced(validator.db(), validator.rules(), height),
        validator.admits(&height, outcome),
    ensures
        outcome is Ok || outcome matches Err(ValidationError::StorageError(_)),
{
}

/// A state that does not balance is never passed: on a store that obeys its snapshot and
/// under rules that obey their description, the check fails on it, and where the supply is
/// defined and the store answers, the failure is a balance mismatch at that height.
pub proof fn lemma_unbalanced_state_fails<B: BlockchainBackend, R: ConsensusRules>(
    validator: ChainBalanceValidator<B, R>,
    height: u64,
    outcome: Result<(), ValidationError>,
)
    requires
        validator.db().obeys_snapshot_spec(),
        validator.rules().obeys_rules_spec(),
        !is_balanced(validator.db(), validator.rules(), height),
        validator.admits(&height, outcome),
    ensures
        outcome is Err,
        expected_supply(validator.rules(), height) is Some ==> {
            ||| outcome matches Err(ValidationError::StorageError(_))
            ||| outcome matches Err(ValidationError::BalanceMismatch { height: h, .. }) && h == height
        },
{
}

/// Under the group laws, adding `amount` to one of the four aggregates on the right-hand
/// side of the balance equation adds `amount` to their total.
pub proof fn lemma_expected_total_of_perturbed(
    emission: Seq<u8>,
    kernel_excess: Seq<u8>,
    genesis: Seq<u8>,
    total_offset: Seq<u8>,
    amount: Seq<u8>,
)
    requires
        point_sum_obeys_group_laws(),
        is_point_encoding(emission),
        is_point_encoding(kernel_excess),
        is_point_encoding(genesis),
        is_point_encoding(total_offset),
        is_point_encoding(amount),
    ensures
        expected_total(point_sum(emission, amount), kernel_excess, genesis, total_offset) == point_sum(
            expected_total(emission, kernel_excess, genesis, total_offset),
            amount,
        ),
        expected_total(emission, point_sum(kernel_excess, amount), genesis, total_offset) == point_sum(
            expected_total(emission, kernel_excess, genesis, total_offset),
            amount,
        ),
        expected_total(emission, kernel_excess, point_sum(genesis, amount), total_offset) == point_sum(
            expected_total(emission, kernel_excess, genesis, total_offset),
            amount,
        ),
        expected_total(emission, kernel_excess, genesis, point_sum(total_offset, amount)) == point_sum(
            expected_total(emission, kernel_excess, genesis, total_offset),
            amount,
        ),
{
    let inner = point_sum(kernel_excess, genesis);
    let front = point_sum(emission, inner);
    // The kernel offsets come last: one use of associativity.
    assert(point_sum(point_sum(front, total_offset), amount) == point_sum(front, point_sum(total_offset, amount)));
    // Anything added to `front` moves past the kernel offsets.
    assert(point_sum(point_sum(front, amount), total_offset) == point_sum(front, point_sum(amount, total_offset)));
    assert(point_sum(amount, total_offset) == point_sum(total_offset, amount));
    // The genesis outputs come last in `inner`, and `inner` last in `front`.
    assert(point_sum(point_sum(kernel_excess, genesis), amount) == point_sum(kernel_excess, point_sum(genesis, amount)));
    assert(point_sum(point_sum(emission, inner), amount) == point_sum(emission, point_sum(inner, amount)));
    // Anything added to the kernel excesses moves past the genesis outputs.
    assert(point_sum(point_sum(kernel_excess, amount), genesis) == point_sum(kernel_excess, point_sum(amount, genesis)));
    assert(point_sum(amount, genesis) == point_sum(genesis, amount));
    // Anything added to the emission moves past `inner`.
    assert(point_sum(point_sum(emission, amount), inner) == point_sum(emission, point_sum(amount, inner)));
    assert(point_sum(amount, inner) == point_sum(inner, amount));
}

/// Under the group laws, a state that balances no longer does once a group element other
/// than the identity has been added to exactly one of the five aggregates.
pub proof fn lemma_perturbed_aggregate_unbalances(
    utxo_total: Seq<u8>,
    emission: Seq<u8>,
    kernel_excess: Seq<u8>,
    genesis: Seq<u8>,
    total_offset: Seq<u8>,
    amount: Seq<u8>,
)
    requires
        point_sum_obeys_group_laws(),
        is_point_encoding(utxo_total),
        is_point_encoding(emission),
        is_point_encoding(kernel_excess),
        is_point_encoding(genesis),
        is_point_encoding(total_offset),
        is_point_encoding(amount),
        amount != zero_commitment(),
        balance_holds(utxo_total, emission, kernel_excess, genesis, total_offset),
    ensures
        !balance_holds(point_sum(utxo_total, amount), emission, kernel_excess, genesis, total_offset),
        !balance_holds(utxo_total, point_sum(emission, amount), kernel_excess, genesis, total_offset),
        !balance_holds(utxo_total, emission, point_sum(kernel_excess, amount), genesis, total_offset),
        !balance_holds(utxo_total, emission, kernel_excess, point_sum(genesis, amount), total_offset),
        !balance_holds(utxo_total, emission, kernel_excess, genesis, point_sum(total_offset, amount)),
{
    lemma_expected_total_of_perturbed(emission, kernel_excess, genesis, total_offset, amount);
    // `utxo_total + amount == utxo_total` would make `amount` the identity.
    assert(point_sum(utxo_total, zero_commitment()) == utxo_total);
    if point_sum(utxo_total, amount) == utxo_total {
        assert(point_sum(utxo_total, amount) == point_sum(utxo_total, zero_commitment()));
        assert(amount == zero_commitment());
    }
}

/// Under the group laws, a state that balances no longer does once a group element other
/// than the identity has been added to a single commitment that the balance equation
/// sums: to one unspent output, to one kernel excess, or to one genesis output.
pub proof fn lemma_perturbed_commitment_unbalances(
    utxos: Seq<Seq<u8>>,
    kernels: Seq<Seq<u8>>,
    genesis: Seq<Seq<u8>>,
    emission: Seq<u8>,
    total_offset: Seq<u8>,
    amount: Seq<u8>,
)
    requires
        point_sum_obeys_group_laws(),
        are_point_encodings(utxos),
        are_point_encodings(kernels),
        are_point_encodings(genesis),
        is_point_encoding(emission),
        is_point_encoding(total_offset),
        is_point_encoding(amount),
        amount != zero_commitment(),
        balance_holds(
            commitment_total(utxos),
            emission,
            commitment_total(kernels),
            commitment_total(genesis),
            total_offset,
        ),
    ensures
        forall|i: int|
            0 <= i < utxos.len() ==> !balance_holds(
                commitment_total(#[trigger] utxos.update(i, point_sum(utxos[i], amount))),
                emission,
                commitment_total(kernels),
                commitment_total(genesis),
                total_offset,
            ),
        forall|i: int|
            0 <= i < kernels.len() ==> !balance_holds(
                commitment_total(utxos),
                emission,
                commitment_total(#[trigger] kernels.update(i, point_sum(kernels[i], amount))),
                commitment_total(genesis),
                total_offset,
            ),
        forall|i: int|
            0 <= i < genesis.len() ==> !balance_holds(
                commitment_total(utxos),
                emission,
                commitment_total(kernels),
                commitment_total(#[trigger] genesis.update(i, point_sum(genesis[i], amount))),
                total_offset,
            ),
{
    lemma_total_is_point_encoding(utxos);
    lemma_total_is_point_encoding(kernels);
    lemma_total_is_point_encoding(genesis);
    lemma_perturbed_aggregate_unbalances(
        commitment_total(utxos),
        emission,
        commitment_total(kernels),
        commitment_total(genesis),
        total_offset,
        amount,
    );
    assert forall|i: int| 0 <= i < utxos.len() implies commitment_total(
        #[trigger] utxos.update(i, point_sum(utxos[i], amount)),
    ) == point_sum(commitment_total(utxos), amount) by {
        lemma_total_of_perturbed(utxos, i, amount);
    }
    assert forall|i: int| 0 <= i < kernels.len() implies commitment_total(
        #[trigger] kernels.update(i, point_sum(kernels[i], amount)),
    ) == point_sum(commitment_total(kernels), amount) by {
        lemma_total_of_perturbed(kernels, i, amount);
    }
    assert forall|i: int| 0 <= i < genesis.len() implies commitment_total(
        #[trigger] genesis.update(i, point_sum(genesis[i], amount)),
    ) == point_sum(commitment_total(genesis), amount) by {
        lemma_total_of_perturbed(genesis, i, amount);
    }
}

} // verus!

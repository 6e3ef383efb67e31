//! The parts of a transaction that the horizon checks read.

use crate::crypto::Commitment;
use vstd::prelude::*;

verus! {

/// An amount of the currency, in its smallest unit.
#[derive(Clone, Copy, Debug, PartialEq, Eq)]
pub struct MicroTari(pub u64);

impl MicroTari {
    /// `self - other`, or `None` where `other` is the larger.
    pub fn checked_sub(self, other: MicroTari) -> (difference: Option<MicroTari>)
        ensures
            difference == micro_tari_difference(self, other),
    {
        if self.0 >= other.0 {
            Some(MicroTari(self.0 - other.0))
        } else {
            None
        }
    }
}

/// `a - b` where `b` does not exceed `a`.
pub open spec fn micro_tari_difference(a: MicroTari, b: MicroTari) -> Option<MicroTari> {
    if a.0 >= b.0 {
        Some(MicroTari((a.0 - b.0) as u64))
    } else {
        None
    }
}

/// An output of a transaction: a commitment that hides its value, and whether it pays out a
/// block reward.
#[derive(Clone, Copy, Debug, PartialEq, Eq)]
pub struct TransactionOutput {
    pub commitment: Commitment,
    pub coinbase: bool,
}

impl TransactionOutput {
    pub fn new(commitment: Commitment, coinbase: bool) -> (output: TransactionOutput)
        ensures
            output.commitment == commitment,
            output.coinbase == coinbase,
    {
        TransactionOutput { commitment, coinbase }
    }

    /// Whether this output pays out a block reward.
    pub fn is_coinbase(&self) -> (coinbase: bool)
        ensures
            coinbase == self.coinbase,
    {
        self.coinbase
    }
}

/// The kernel of a transaction. Its excess commits to the value zero under the blinding
/// factors that the transaction's inputs and outputs leave over.
#[derive(Clone, Copy, Debug, PartialEq, Eq)]
pub struct TransactionKernel {
    pub excess: Commitment,
}

impl TransactionKernel {
    pub fn new(excess: Commitment) -> (kernel: TransactionKernel)
        ensures
            kernel.excess == excess,
    {
        TransactionKernel { excess }
    }
}

/// The commitments of `outputs`, in order.
pub open spec fn output_commitments(outputs: Seq<TransactionOutput>) -> Seq<Seq<u8>> {
    outputs.map_values(|output: TransactionOutput| output.commitment@)
}

/// Those of `outputs` that pay out no block reward, in order.
pub open spec fn spendable_outputs(outputs: Seq<TransactionOutput>) -> Seq<TransactionOutput>
    decreases outputs.len(),
{
    if outputs.len() == 0 {
        Seq::empty()
    } else if outputs.last().coinbase {
        spendable_outputs(outputs.drop_last())
    } else {
        spendable_outputs(outputs.drop_last()).push(outputs.last())
    }
}

/// The excesses of `kernels`, in order.
pub open spec fn kernel_excesses(kernels: Seq<TransactionKernel>) -> Seq<Seq<u8>> {
    kernels.map_values(|kernel: TransactionKernel| kernel.excess@)
}

} // verus!

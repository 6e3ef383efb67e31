//! What the validators ask of the consensus rules.

use crate::transactions::{MicroTari, TransactionOutput};
use vstd::prelude::*;

verus! {

/// The rules of the chain: its emission schedule and its genesis block.
///
/// The spec functions describe the rules. An implementation whose methods return what they
/// describe says so by giving [`obeys_rules_spec`](ConsensusRules::obeys_rules_spec) the
/// value `true`, and is then held to the postconditions below. Of an implementation that
/// keeps the defaults nothing is assumed.
pub trait ConsensusRules: Send + Sync {
    /// Whether the methods return what the other spec functions describe.
    open spec fn obeys_rules_spec(&self) -> bool {
        false
    }

    /// All that has been emitted once the block at `height` has been mined.
    open spec fn supply(&self, height: u64) -> MicroTari {
        arbitrary()
    }

    /// The part of the supply that the genesis block's coinbase does not pay out as an
    /// output.
    open spec fn genesis_offset(&self) -> MicroTari {
        arbitrary()
    }

    /// The outputs of the genesis block.
    open spec fn genesis_outputs(&self) -> Seq<TransactionOutput> {
        arbitrary()
    }

    /// All that has been emitted once the block at `height` has been mined.
    fn supply_at_block(&self, height: u64) -> (supply: MicroTari)
        ensures
            self.obeys_rules_spec() ==> supply == self.supply(height),
    ;

    /// The part of the supply that the genesis block's coinbase does not pay out as an
    /// output.
    fn genesis_coinbase_value_offset(&self) -> (offset: MicroTari)
        ensures
            self.obeys_rules_spec() ==> offset == self.genesis_offset(),
    ;

    /// The outputs of the genesis block.
    fn genesis_block_outputs(&self) -> (outputs: Vec<TransactionOutput>)
        ensures
            self.obeys_rules_spec() ==> outputs@ == self.genesis_outputs(),
    ;
}

} // verus!

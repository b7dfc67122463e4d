//! The configuration that the module tests run with.

use vstd::prelude::*;
use crate::primitives::{AccountId, Balance};
use crate::storage_miner::{Module, MinerState, Trait};

verus! {

/// The test runtime.
#[derive(Clone, Copy, PartialEq, Eq, Debug)]
pub struct Test;

/// The smallest balance an account may keep.
pub const EXISTENTIAL_DEPOSIT: Balance = 100;

/// The flat fee for storing and pinning data.
pub const STORAGE_FEE: Balance = 200_000_000_000_000;

/// The flat refund for unpinned or unavailable data.
pub const REFUND_FEE: Balance = 100_000_000_000_000;

/// The balance that each endowed account starts with.
pub const ENDOWMENT: Balance = 100_000_000_000_000;

impl Trait for Test {
    open spec fn storage_fee_spec() -> Balance {
        STORAGE_FEE
    }

    open spec fn refund_fee_spec() -> Balance {
        REFUND_FEE
    }

    fn storage_fee() -> (fee: Balance) {
        STORAGE_FEE
    }

    fn refund_fee() -> (fee: Balance) {
        REFUND_FEE
    }
}

/// The genesis of the test runtime: the endowed accounts with their
/// balances, and the storage miner's state.
pub struct TestExternalities {
    /// The endowed accounts and their balances.
    pub balances: Vec<(AccountId, Balance)>,
    /// The storage miner, whose off-chain worker account is the default one.
    pub storage_miner: Module<Test>,
}

/// The genesis of the test runtime: accounts 0 and 1 are endowed, nothing is
/// stored or queued.
pub fn new_test_ext() -> (ext: TestExternalities)
    ensures
        ext.balances@ == seq![(0u64, ENDOWMENT), (1u64, ENDOWMENT)],
        ext.storage_miner.wf(),
        ext.storage_miner@ == (MinerState {
            ow_account_id: 0,
            storage: Map::empty(),
            queue: Seq::empty(),
        }),
{
    let mut balances = Vec::new();
    balances.push((0u64, ENDOWMENT));
    balances.push((1u64, ENDOWMENT));
    assert(balances@ =~= seq![(0u64, ENDOWMENT), (1u64, ENDOWMENT)]);
    TestExternalities { balances, storage_miner: Module::new(0) }
}

} // verus!

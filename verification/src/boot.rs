//! What one invocation is given: the agreed pre-state, the claim, and the
//! configurations of the chains.

use crate::primitives::Hash256;
use crate::state::PreState;
use std::collections::HashMap;
use vstd::prelude::*;

verus! {

broadcast use vstd::std_specs::hash::group_hash_axioms;

/// The static parameters of one chain that the executor reads.
#[derive(Debug, Clone, Copy, PartialEq, Eq)]
pub struct RollupConfig {
    /// The chain the configuration belongs to.
    pub l2_chain_id: u64,
    /// The time between two blocks of the chain, in seconds.
    pub block_time: u64,
}

/// The input of one invocation.
#[derive(Debug, Clone, PartialEq, Eq)]
pub struct BootInfo {
    /// The hash of the L1 block that bounds the data to derive from.
    pub l1_head: Hash256,
    /// The state both parties agree on.
    pub agreed_pre_state: PreState,
    /// The claimed commitment to the state after the sub-transition.
    pub claimed_post_state: Hash256,
    /// The configuration of every chain, by chain id.
    pub rollup_configs: HashMap<u64, RollupConfig>,
}

/// The configuration of a chain among the given ones, if it is there.
pub open spec fn config_of(configs: Map<u64, RollupConfig>, chain_id: Option<u64>) -> Option<
    RollupConfig,
> {
    match chain_id {
        Some(id) => if configs.contains_key(id) {
            Some(configs[id])
        } else {
            None
        },
        None => None,
    }
}

impl BootInfo {
    /// The configuration of the chain that is handled next: none where no
    /// chain is, or where the chain has no configuration.
    pub open spec fn spec_active_rollup_config(self) -> Option<RollupConfig> {
        config_of(self.rollup_configs@, self.agreed_pre_state@.active_l2_chain_id())
    }

    /// Looks up the configuration of a chain.
    pub fn rollup_config(&self, chain_id: u64) -> (config: Option<RollupConfig>)
        ensures
            config == config_of(self.rollup_configs@, Some(chain_id)),
    {
        match self.rollup_configs.get(&chain_id) {
            Some(config) => Some(*config),
            None => None,
        }
    }

    /// Looks up the configuration of the chain that is handled next.
    pub fn active_rollup_config(&self) -> (config: Option<RollupConfig>)
        ensures
            config == self.spec_active_rollup_config(),
    {
        match self.agreed_pre_state.active_l2_chain_id() {
            Some(chain_id) => self.rollup_config(chain_id),
            None => None,
        }
    }
}

} // verus!

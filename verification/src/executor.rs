//! The sub-transition executor: one pass that decides whether a claimed
//! post-state commitment is the commitment of the state that follows the
//! agreed pre-state.
//!
//! The pass is a chain of stages. Each stage says what it needs from a
//! collaborator, takes the answer, and gives the next stage or the result of the pass.
//! Nothing is tried twice: every input is addressed by its content.

use crate::boot::{BootInfo, RollupConfig};
use crate::driver::{spec_at, Cursor, Driver, DriverError, DriverResult};
use crate::pipeline::PipelineError;
use crate::primitives::Hash256;
use crate::protocol::{Header, SealedHeader};
use crate::state::{
    invalid_transition_hash, spec_invalid_transition_hash, OptimisticBlock, OutputRootWithChain,
    PreState, PreStateView,
};
use vstd::prelude::*;

verus! {

/// How a sub-transition fails. `E` is the error of the collaborators.
#[derive(Debug, Clone, PartialEq, Eq)]
pub enum FaultProofProgramError<E> {
    /// The claim is not the commitment that was computed.
    InvalidClaim {
        /// The commitment that was computed.
        expected: Hash256,
        /// The commitment that was claimed.
        actual: Hash256,
    },
    /// The safe head, the chain's configuration or its output root is
    /// missing, or the step is not valid for the pre-state.
    StateTransitionFailed,
    /// A provider failed.
    OracleProvider(E),
    /// Driving the derivation failed.
    Driver(DriverError<E>),
}

/// What a claim is worth: success where it is the computed commitment, and
/// otherwise the failure that names both.
pub open spec fn spec_check_claim<E>(computed: Hash256, claimed: Hash256) -> Result<
    (),
    FaultProofProgramError<E>,
> {
    if computed == claimed {
        Ok(())
    } else {
        Err(FaultProofProgramError::InvalidClaim { expected: computed, actual: claimed })
    }
}

/// What a claim about the state after a step is worth: a failed state
/// transition where the step is not valid, and otherwise what the claim is
/// worth against the commitment of the state after the step.
pub open spec fn spec_transition_and_check<E>(
    pre_state: PreStateView,
    optimistic_block: Option<OptimisticBlock>,
    expected_post_state: Hash256,
) -> Result<(), FaultProofProgramError<E>> {
    match pre_state.transition(optimistic_block) {
        Some(post_state) => spec_check_claim(post_state.commitment(), expected_post_state),
        None => Err(FaultProofProgramError::StateTransitionFailed),
    }
}

/// Compares a computed commitment with the claim.
pub fn check_claim<E>(computed: Hash256, claimed: Hash256) -> (result: Result<
    (),
    FaultProofProgramError<E>,
>)
    ensures
        result == spec_check_claim::<E>(computed, claimed),
{
    proof {
        Hash256::lemma_view_injective(computed, claimed);
    }
    if computed == claimed {
        Ok(())
    } else {
        Err(FaultProofProgramError::InvalidClaim { expected: computed, actual: claimed })
    }
}

/// Applies a step to the pre-state and compares the commitment of the state
/// after it with the claim.
pub fn transition_and_check<E>(
    pre_state: PreState,
    optimistic_block: Option<OptimisticBlock>,
    expected_post_state: Hash256,
) -> (result: Result<(), FaultProofProgramError<E>>)
    ensures
        result == spec_transition_and_check::<E>(
            pre_state@,
            optimistic_block,
            expected_post_state,
        ),
{
    match pre_state.transition(optimistic_block) {
        Some(post_state) => {
            let post_state_commitment = post_state.hash();
            check_claim(post_state_commitment, expected_post_state)
        },
        None => Err(FaultProofProgramError::StateTransitionFailed),
    }
}

/// The stage that waits for the hash of the safe head: the block that the
/// active output root commits to.
#[derive(Debug, Clone, PartialEq, Eq)]
pub struct AwaitSafeHeadHash {
    /// The input of the invocation.
    pub boot: BootInfo,
    /// The output root of the chain that is handled.
    pub active_root: OutputRootWithChain,
}

/// The stage that waits for the header of the safe head. The providers that
/// answer are built for this stage: bound to the L1 head of the input, to
/// the safe head and to the active chain.
#[derive(Debug, Clone, PartialEq, Eq)]
pub struct AwaitSafeHeadHeader {
    /// The input of the invocation.
    pub boot: BootInfo,
    /// The configuration of the active chain.
    pub rollup_config: RollupConfig,
    /// The hash of the safe head.
    pub safe_head_hash: Hash256,
}

/// The stage that waits for the derivation of the disputed block.
#[derive(Debug, Clone, PartialEq, Eq)]
pub struct AwaitDerivation {
    /// The input of the invocation.
    pub boot: BootInfo,
    /// The configuration of the active chain.
    pub rollup_config: RollupConfig,
    /// The safe head to derive from.
    pub safe_head: SealedHeader,
    /// The number of the block to derive.
    pub disputed_l2_block_number: u64,
}

/// What the executor needs next, or the result of the pass.
#[derive(Debug, PartialEq, Eq)]
pub enum Step<E> {
    /// The hash of the safe head is needed.
    FetchSafeHeadHash(AwaitSafeHeadHash),
    /// The header of the safe head is needed.
    FetchSafeHeadHeader(AwaitSafeHeadHeader),
    /// The disputed block is to be derived.
    Derive(AwaitDerivation),
    /// The pass has ended.
    Finished(Result<(), FaultProofProgramError<E>>),
}

/// Whether the next block of a chain is not yet due: the block after the
/// safe head would lie past the second that follows the pre-state.
pub open spec fn not_yet_due(safe_head_timestamp: u64, block_time: u64, pre_state_timestamp: u64) -> bool {
    safe_head_timestamp + block_time > pre_state_timestamp + 1
}

/// The first stage: a saturated round needs no derivation and is judged at
/// once by the empty step; every other pre-state needs its safe head.
pub open spec fn spec_sub_transition<E>(boot: BootInfo) -> Step<E> {
    if boot.agreed_pre_state@.saturated() {
        Step::Finished(
            spec_transition_and_check(boot.agreed_pre_state@, None, boot.claimed_post_state),
        )
    } else {
        match boot.agreed_pre_state@.active_l2_output_root() {
            Some(active_root) => Step::FetchSafeHeadHash(AwaitSafeHeadHash { boot, active_root }),
            None => Step::Finished(Err(FaultProofProgramError::StateTransitionFailed)),
        }
    }
}

/// The stage after the safe head's hash: without the hash, or without a
/// configuration for the active chain, the state transition has failed.
pub open spec fn spec_on_safe_head_hash<E>(
    stage: AwaitSafeHeadHash,
    safe_head_hash: Option<Hash256>,
) -> Step<E> {
    match safe_head_hash {
        None => Step::Finished(Err(FaultProofProgramError::StateTransitionFailed)),
        Some(hash) => match stage.boot.spec_active_rollup_config() {
            None => Step::Finished(Err(FaultProofProgramError::StateTransitionFailed)),
            Some(rollup_config) => Step::FetchSafeHeadHeader(
                AwaitSafeHeadHeader { boot: stage.boot, rollup_config, safe_head_hash: hash },
            ),
        },
    }
}

/// The stage after the safe head's header. A provider's failure is handed
/// on. Where the next block is not yet due, the active output root is
/// appended again, at the safe head's hash, and the claim is judged
/// without derivation. Otherwise the block after the safe head is derived.
pub open spec fn spec_on_safe_head_header<E>(
    stage: AwaitSafeHeadHeader,
    header: Result<Header, E>,
) -> Step<E> {
    match header {
        Err(e) => Step::Finished(Err(FaultProofProgramError::OracleProvider(e))),
        Ok(header) => {
            let pre_state = stage.boot.agreed_pre_state@;
            if not_yet_due(
                header.timestamp,
                stage.rollup_config.block_time,
                pre_state.timestamp(),
            ) {
                match pre_state.active_l2_output_root() {
                    None => Step::Finished(Err(FaultProofProgramError::StateTransitionFailed)),
                    Some(active_root) => Step::Finished(
                        spec_transition_and_check(
                            pre_state,
                            Some(
                                OptimisticBlock {
                                    block_hash: stage.safe_head_hash,
                                    output_root: active_root.output_root,
                                },
                            ),
                            stage.boot.claimed_post_state,
                        ),
                    ),
                }
            } else {
                Step::Derive(
                    AwaitDerivation {
                        boot: stage.boot,
                        rollup_config: stage.rollup_config,
                        safe_head: SealedHeader { header, hash: stage.safe_head_hash },
                        disputed_l2_block_number: (header.number + 1) as u64,
                    },
                )
            }
        },
    }
}

/// The result of the pass after the derivation. A derived block is appended and the
/// claim judged. An exhausted data source is no failure: then the only
/// valid claim is the invalid-transition commitment. Every other failure is
/// handed on as it is.
pub open spec fn spec_on_derivation<E>(stage: AwaitDerivation, outcome: DriverResult<E>) -> Result<
    (),
    FaultProofProgramError<E>,
> {
    match outcome {
        Ok((safe_head, output_root)) => spec_transition_and_check(
            stage.boot.agreed_pre_state@,
            Some(OptimisticBlock { block_hash: safe_head.block_info.hash, output_root }),
            stage.boot.claimed_post_state,
        ),
        Err(DriverError::Pipeline(PipelineError::EndOfSource)) => spec_check_claim(
            spec_invalid_transition_hash(),
            stage.boot.claimed_post_state,
        ),
        Err(e) => Err(FaultProofProgramError::Driver(e)),
    }
}

/// Starts a sub-transition on the input of an invocation.
pub fn sub_transition<E>(boot: BootInfo) -> (step: Step<E>)
    ensures
        step == spec_sub_transition::<E>(boot),
{
    if boot.agreed_pre_state.is_saturated() {
        let claimed = boot.claimed_post_state;
        return Step::Finished(transition_and_check(boot.agreed_pre_state, None, claimed));
    }
    match boot.agreed_pre_state.active_l2_output_root() {
        Some(active_root) => Step::FetchSafeHeadHash(AwaitSafeHeadHash { boot, active_root }),
        None => Step::Finished(Err(FaultProofProgramError::StateTransitionFailed)),
    }
}

impl AwaitSafeHeadHash {
    /// Takes the hash of the safe head, or `None` where it cannot be
    /// resolved.
    pub fn on_safe_head_hash<E>(self, safe_head_hash: Option<Hash256>) -> (step: Step<E>)
        ensures
            step == spec_on_safe_head_hash::<E>(self, safe_head_hash),
    {
        match safe_head_hash {
            None => Step::Finished(Err(FaultProofProgramError::StateTransitionFailed)),
            Some(hash) => match self.boot.active_rollup_config() {
                None => Step::Finished(Err(FaultProofProgramError::StateTransitionFailed)),
                Some(rollup_config) => Step::FetchSafeHeadHeader(
                    AwaitSafeHeadHeader { boot: self.boot, rollup_config, safe_head_hash: hash },
                ),
            },
        }
    }
}

impl AwaitSafeHeadHeader {
    /// The chain that the L2 provider is bound to.
    pub fn chain_id(&self) -> (chain_id: Option<u64>)
        ensures
            chain_id == self.boot.agreed_pre_state@.active_l2_chain_id(),
    {
        self.boot.agreed_pre_state.active_l2_chain_id()
    }

    /// Takes the header of the safe head, or the provider's failure.
    pub fn on_safe_head_header<E>(self, header: Result<Header, E>) -> (step: Step<E>)
        requires
            header matches Ok(h) ==> h.number < u64::MAX,
        ensures
            step == spec_on_safe_head_header::<E>(self, header),
    {
        let header = match header {
            Err(e) => {
                return Step::Finished(Err(FaultProofProgramError::OracleProvider(e)));
            },
            Ok(header) => header,
        };
        let safe_head = SealedHeader::new_unchecked(header, self.safe_head_hash);
        let disputed_l2_block_number = safe_head.header.number + 1;

        let next_block_time: u128 = safe_head.header.timestamp as u128
            + self.rollup_config.block_time as u128;
        let round_end: u128 = self.boot.agreed_pre_state.timestamp() as u128 + 1;
        if next_block_time > round_end {
            let active_root = match self.boot.agreed_pre_state.active_l2_output_root() {
                None => {
                    return Step::Finished(Err(FaultProofProgramError::StateTransitionFailed));
                },
                Some(active_root) => active_root,
            };
            let optimistic_block = OptimisticBlock::new(safe_head.hash, active_root.output_root);
            let claimed = self.boot.claimed_post_state;
            return Step::Finished(
                transition_and_check(self.boot.agreed_pre_state, Some(optimistic_block), claimed),
            );
        }
        Step::Derive(
            AwaitDerivation {
                boot: self.boot,
                rollup_config: self.rollup_config,
                safe_head,
                disputed_l2_block_number,
            },
        )
    }
}

impl AwaitDerivation {
    /// The driver of the derivation from a cursor: its target is the disputed
    /// block.
    pub fn driver<E>(&self, cursor: Cursor) -> (driver: Driver<E>)
        ensures
            driver == spec_at::<E>(cursor, Some(self.disputed_l2_block_number)),
    {
        Driver::new(cursor, Some(self.disputed_l2_block_number))
    }

    /// Takes what driving the derivation ended with and gives the result of the pass.
    pub fn on_derivation<E>(self, outcome: DriverResult<E>) -> (result: Result<
        (),
        FaultProofProgramError<E>,
    >)
        ensures
            result == spec_on_derivation::<E>(self, outcome),
    {
        match outcome {
            Ok((safe_head, output_root)) => {
                let optimistic_block = OptimisticBlock::new(safe_head.block_info.hash, output_root);
                transition_and_check(
                    self.boot.agreed_pre_state,
                    Some(optimistic_block),
                    self.boot.claimed_post_state,
                )
            },
            Err(e) => match e {
                DriverError::Pipeline(PipelineError::EndOfSource) => check_claim(
                    invalid_transition_hash(),
                    self.boot.claimed_post_state,
                ),
                other => Err(FaultProofProgramError::Driver(other)),
            },
        }
    }
}

} // verus!

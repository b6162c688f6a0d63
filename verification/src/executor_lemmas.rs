//! What holds of the executor's stages, whatever the collaborators answer.

use crate::boot::BootInfo;
use crate::driver::{DriverError, DriverResult};
use crate::executor::{
    not_yet_due, spec_on_derivation, spec_on_safe_head_header, spec_sub_transition,
    spec_transition_and_check, AwaitDerivation, AwaitSafeHeadHeader, FaultProofProgramError, Step,
};
use crate::pipeline::PipelineError;
use crate::primitives::Hash256;
use crate::protocol::{Header, L2BlockInfo, SealedHeader};
use crate::state::{spec_invalid_transition_hash, OptimisticBlock, PreStateView};
use vstd::prelude::*;

verus! {

/// For a saturated round the pass ends in its first stage: no collaborator
/// is asked for anything, and the result is that of the empty step.
pub proof fn lemma_saturated_ends_at_once<E>(boot: BootInfo)
    requires
        boot.agreed_pre_state@ matches PreStateView::TransitionState(round) && round.step
            >= round.pre_state.output_roots.len(),
    ensures
        spec_sub_transition::<E>(boot) == Step::<E>::Finished(
            spec_transition_and_check(boot.agreed_pre_state@, None, boot.claimed_post_state),
        ),
{
}

/// A pre-state that is not a saturated round names an active chain, and the
/// pass asks for that chain's safe head.
pub proof fn lemma_unsaturated_asks_for_safe_head<E>(boot: BootInfo)
    requires
        !boot.agreed_pre_state@.saturated(),
    ensures
        spec_sub_transition::<E>(boot) matches Step::FetchSafeHeadHash(stage) && stage.boot == boot
            && Some(stage.active_root) == boot.agreed_pre_state@.active_l2_output_root(),
{
}

/// Where the block after the safe head falls exactly on the second that
/// follows the pre-state, it is due: the disputed block is derived.
pub proof fn lemma_boundary_is_derived<E>(stage: AwaitSafeHeadHeader, header: Header)
    requires
        header.number < u64::MAX,
        header.timestamp + stage.rollup_config.block_time == stage.boot.agreed_pre_state@.timestamp()
            + 1,
    ensures
        spec_on_safe_head_header::<E>(stage, Ok(header)) == Step::<E>::Derive(
            AwaitDerivation {
                boot: stage.boot,
                rollup_config: stage.rollup_config,
                safe_head: SealedHeader { header, hash: stage.safe_head_hash },
                disputed_l2_block_number: (header.number + 1) as u64,
            },
        ),
{
}

/// The disputed block is derived exactly where the next block is due, and
/// the pass ends without derivation exactly where it is not.
pub proof fn lemma_derives_iff_due<E>(stage: AwaitSafeHeadHeader, header: Header)
    ensures
        spec_on_safe_head_header::<E>(stage, Ok(header)) is Derive <==> header.timestamp
            + stage.rollup_config.block_time <= stage.boot.agreed_pre_state@.timestamp() + 1,
        spec_on_safe_head_header::<E>(stage, Ok(header)) is Finished <==> not_yet_due(
            header.timestamp,
            stage.rollup_config.block_time,
            stage.boot.agreed_pre_state@.timestamp(),
        ),
{
}

/// Where the data source is exhausted before the disputed block, the pass
/// succeeds exactly where the claim is the invalid-transition commitment,
/// and otherwise fails with that commitment as the expected one.
pub proof fn lemma_exhaustion_result<E>(stage: AwaitDerivation)
    ensures
        ({
            let outcome: DriverResult<E> = Err(DriverError::Pipeline(PipelineError::EndOfSource));
            let claimed = stage.boot.claimed_post_state;
            &&& spec_on_derivation(stage, outcome) is Ok <==> claimed
                == spec_invalid_transition_hash()
            &&& claimed != spec_invalid_transition_hash() ==> spec_on_derivation(stage, outcome)
                == Err::<(), FaultProofProgramError<E>>(
                FaultProofProgramError::InvalidClaim {
                    expected: spec_invalid_transition_hash(),
                    actual: claimed,
                },
            )
        }),
{
}

/// Where the disputed block was derived and can be appended, the pass
/// succeeds exactly where the claim is the commitment of the state after the
/// append, and otherwise fails with that commitment as the expected one.
pub proof fn lemma_derived_result<E>(
    stage: AwaitDerivation,
    safe_head: L2BlockInfo,
    output_root: Hash256,
)
    requires
        stage.boot.agreed_pre_state@.transition(
            Some(OptimisticBlock { block_hash: safe_head.block_info.hash, output_root }),
        ) is Some,
    ensures
        ({
            let outcome: DriverResult<E> = Ok((safe_head, output_root));
            let claimed = stage.boot.claimed_post_state;
            let expected = stage.boot.agreed_pre_state@.transition(
                Some(OptimisticBlock { block_hash: safe_head.block_info.hash, output_root }),
            ).unwrap().commitment();
            &&& spec_on_derivation(stage, outcome) is Ok <==> claimed == expected
            &&& claimed != expected ==> spec_on_derivation(stage, outcome) == Err::<
                (),
                FaultProofProgramError<E>,
            >(FaultProofProgramError::InvalidClaim { expected, actual: claimed })
        }),
{
}

/// A failure of the derivation other than exhaustion is handed on as it is.
pub proof fn lemma_fatal_is_handed_on<E>(stage: AwaitDerivation, error: DriverError<E>)
    requires
        error != DriverError::<E>::Pipeline(PipelineError::EndOfSource),
    ensures
        spec_on_derivation(stage, Err(error)) == Err::<(), FaultProofProgramError<E>>(
            FaultProofProgramError::Driver(error),
        ),
{
}

} // verus!

use interop_proof::boot::{BootInfo, RollupConfig};
use interop_proof::driver::{Cursor, Driver, DriverError, DriverResult, ExecutedBlock};
use interop_proof::executor::{
    check_claim, sub_transition, transition_and_check, AwaitDerivation, AwaitSafeHeadHash,
    AwaitSafeHeadHeader, FaultProofProgramError, Step,
};
use interop_proof::pipeline::{PipelineError, StepResult};
use interop_proof::primitives::Hash256;
use interop_proof::protocol::{BlockInfo, BlockNumHash, Header, L2BlockInfo, SealedHeader};
use interop_proof::state::{
    invalid_transition_hash, OptimisticBlock, OutputRootWithChain, PreState, SingleChainState,
    SuperRoot, TransitionState,
};
use std::collections::HashMap;

type Outcome = Result<(), FaultProofProgramError<String>>;

const CHAIN: u64 = 10;
const BLOCK_TIME: u64 = 2;

fn w(byte: u8) -> Hash256 {
    Hash256::new([byte; 32])
}

fn configs() -> HashMap<u64, RollupConfig> {
    let mut map = HashMap::new();
    map.insert(CHAIN, RollupConfig { l2_chain_id: CHAIN, block_time: BLOCK_TIME });
    map.insert(11, RollupConfig { l2_chain_id: 11, block_time: 1 });
    map
}

fn single(timestamp: u64, output_root: u8) -> PreState {
    PreState::SingleChainState(SingleChainState {
        timestamp,
        root: OutputRootWithChain::new(CHAIN, w(output_root)),
    })
}

fn boot_with(pre: PreState, claim: Hash256) -> BootInfo {
    BootInfo {
        l1_head: w(0xf1),
        agreed_pre_state: pre,
        claimed_post_state: claim,
        rollup_configs: configs(),
    }
}

fn l2(number: u64, hash: u8) -> L2BlockInfo {
    L2BlockInfo::new(
        BlockInfo::new(w(hash), number, w(hash.wrapping_sub(1)), BLOCK_TIME * number),
        BlockNumHash { number: 3, hash: w(3) },
        0,
    )
}

fn await_hash(step: Step<String>) -> AwaitSafeHeadHash {
    match step {
        Step::FetchSafeHeadHash(stage) => stage,
        other => panic!("expected the safe head's hash to be asked for: {other:?}"),
    }
}

fn await_header(step: Step<String>) -> AwaitSafeHeadHeader {
    match step {
        Step::FetchSafeHeadHeader(stage) => stage,
        other => panic!("expected the safe head's header to be asked for: {other:?}"),
    }
}

fn await_derivation(step: Step<String>) -> AwaitDerivation {
    match step {
        Step::Derive(stage) => stage,
        other => panic!("expected a derivation to be asked for: {other:?}"),
    }
}

fn finished(step: Step<String>) -> Outcome {
    match step {
        Step::Finished(result) => result,
        other => panic!("the pass has not ended: {other:?}"),
    }
}

/// Runs the pass on a state at rest up to the derivation of block `n + 1`.
fn up_to_derivation(pre: PreState, claim: Hash256, n: u64, safe_head_time: u64) -> AwaitDerivation {
    let stage = await_hash(sub_transition(boot_with(pre, claim)));
    let stage = await_header(stage.on_safe_head_hash(Some(w(0x51))));
    await_derivation(stage.on_safe_head_header(Ok(Header { number: n, timestamp: safe_head_time })))
}

#[test]
fn check_claim_accepts_the_computed_commitment() {
    let result: Outcome = check_claim(w(1), w(1));
    assert_eq!(result, Ok(()));
}

#[test]
fn check_claim_names_both_commitments() {
    let result: Outcome = check_claim(w(1), w(2));
    assert_eq!(result, Err(FaultProofProgramError::InvalidClaim { expected: w(1), actual: w(2) }));
}

#[test]
fn transition_and_check_accepts_the_right_claim() {
    let pre = single(100, 0xa0);
    let block = OptimisticBlock::new(w(0x52), w(0xa1));
    let claim = pre.clone().transition(Some(block)).unwrap().hash();
    let result: Outcome = transition_and_check(pre, Some(block), claim);
    assert_eq!(result, Ok(()));
}

#[test]
fn transition_and_check_rejects_a_wrong_claim() {
    let pre = single(100, 0xa0);
    let block = OptimisticBlock::new(w(0x52), w(0xa1));
    let computed = pre.clone().transition(Some(block)).unwrap().hash();
    let result: Outcome = transition_and_check(pre, Some(block), w(0x99));
    assert_eq!(
        result,
        Err(FaultProofProgramError::InvalidClaim { expected: computed, actual: w(0x99) })
    );
}

#[test]
fn transition_and_check_fails_on_an_invalid_step() {
    let result: Outcome = transition_and_check(single(100, 0xa0), None, w(0x99));
    assert_eq!(result, Err(FaultProofProgramError::StateTransitionFailed));
}

#[test]
fn saturated_round_is_judged_without_collaborators() {
    let pre = PreState::TransitionState(TransitionState::new(
        SuperRoot::new(100, vec![OutputRootWithChain::new(CHAIN, w(0xa0))]),
        vec![OptimisticBlock::new(w(0x52), w(0xa1))],
        1,
    ));
    let claim = pre.hash();
    assert_eq!(finished(sub_transition(boot_with(pre.clone(), claim))), Ok(()));
    let computed = pre.hash();
    assert_eq!(
        finished(sub_transition(boot_with(pre, w(0x99)))),
        Err(FaultProofProgramError::InvalidClaim { expected: computed, actual: w(0x99) })
    );
}

#[test]
fn saturated_round_with_a_bad_counter_fails() {
    let pre = PreState::TransitionState(TransitionState::new(
        SuperRoot::new(100, vec![OutputRootWithChain::new(CHAIN, w(0xa0))]),
        vec![],
        5,
    ));
    assert_eq!(
        finished(sub_transition(boot_with(pre, w(0x99)))),
        Err(FaultProofProgramError::StateTransitionFailed)
    );
}

#[test]
fn state_at_rest_asks_for_its_safe_head() {
    let stage = await_hash(sub_transition(boot_with(single(100, 0xa0), w(0x99))));
    assert_eq!(stage.active_root, OutputRootWithChain::new(CHAIN, w(0xa0)));
    assert_eq!(stage.boot.claimed_post_state, w(0x99));
    assert_eq!(stage.boot.agreed_pre_state, single(100, 0xa0));
}

#[test]
fn round_in_progress_asks_for_the_active_chains_safe_head() {
    let pre = PreState::TransitionState(TransitionState::new(
        SuperRoot::new(
            100,
            vec![OutputRootWithChain::new(CHAIN, w(0xa0)), OutputRootWithChain::new(11, w(0xb0))],
        ),
        vec![OptimisticBlock::new(w(0x52), w(0xa1))],
        1,
    ));
    let stage = await_hash(sub_transition(boot_with(pre, w(0x99))));
    assert_eq!(stage.active_root, OutputRootWithChain::new(11, w(0xb0)));
}

#[test]
fn missing_safe_head_fails_the_transition() {
    let stage = await_hash(sub_transition(boot_with(single(100, 0xa0), w(0x99))));
    assert_eq!(
        finished(stage.on_safe_head_hash(None)),
        Err(FaultProofProgramError::StateTransitionFailed)
    );
}

#[test]
fn missing_configuration_fails_the_transition() {
    let mut boot = boot_with(single(100, 0xa0), w(0x99));
    boot.rollup_configs.remove(&CHAIN);
    assert_eq!(boot.active_rollup_config(), None);
    let stage = await_hash(sub_transition(boot));
    assert_eq!(
        finished(stage.on_safe_head_hash(Some(w(0x51)))),
        Err(FaultProofProgramError::StateTransitionFailed)
    );
}

#[test]
fn configuration_is_resolved_for_the_active_chain() {
    let boot = boot_with(single(100, 0xa0), w(0x99));
    assert_eq!(
        boot.active_rollup_config(),
        Some(RollupConfig { l2_chain_id: CHAIN, block_time: BLOCK_TIME })
    );
    assert_eq!(boot.rollup_config(11), Some(RollupConfig { l2_chain_id: 11, block_time: 1 }));
    assert_eq!(boot.rollup_config(12), None);
    let stage = await_hash(sub_transition(boot));
    let stage = await_header(stage.on_safe_head_hash(Some(w(0x51))));
    assert_eq!(stage.rollup_config, RollupConfig { l2_chain_id: CHAIN, block_time: BLOCK_TIME });
    assert_eq!(stage.safe_head_hash, w(0x51));
    assert_eq!(stage.chain_id(), Some(CHAIN));
    assert_eq!(stage.boot.l1_head, w(0xf1));
}

#[test]
fn failed_header_lookup_is_handed_on() {
    let stage = await_hash(sub_transition(boot_with(single(100, 0xa0), w(0x99))));
    let stage = await_header(stage.on_safe_head_hash(Some(w(0x51))));
    assert_eq!(
        finished(stage.on_safe_head_header(Err("no header".to_string()))),
        Err(FaultProofProgramError::OracleProvider("no header".to_string()))
    );
}

#[test]
fn block_on_the_boundary_is_derived() {
    // 99 + 2 == 100 + 1: the next block is due.
    let stage = up_to_derivation(single(100, 0xa0), w(0x99), 40, 99);
    assert_eq!(stage.disputed_l2_block_number, 41);
    assert_eq!(
        stage.safe_head,
        SealedHeader::new_unchecked(Header { number: 40, timestamp: 99 }, w(0x51))
    );
    assert_eq!(stage.rollup_config.block_time, BLOCK_TIME);
}

#[test]
fn block_before_the_boundary_is_derived() {
    let stage = up_to_derivation(single(100, 0xa0), w(0x99), 40, 90);
    assert_eq!(stage.disputed_l2_block_number, 41);
}

#[test]
fn block_past_the_boundary_is_not_derived() {
    // 100 + 2 > 100 + 1: the next block is not yet due. The active root is
    // appended again at the safe head's hash.
    let pre = single(100, 0xa0);
    let repeated = OptimisticBlock::new(w(0x51), w(0xa0));
    let claim = pre.clone().transition(Some(repeated)).unwrap().hash();
    let stage = await_hash(sub_transition(boot_with(pre.clone(), claim)));
    let stage = await_header(stage.on_safe_head_hash(Some(w(0x51))));
    assert_eq!(
        finished(stage.on_safe_head_header(Ok(Header { number: 40, timestamp: 100 }))),
        Ok(())
    );

    let stage = await_hash(sub_transition(boot_with(pre, w(0x99))));
    let stage = await_header(stage.on_safe_head_hash(Some(w(0x51))));
    assert_eq!(
        finished(stage.on_safe_head_header(Ok(Header { number: 40, timestamp: 100 }))),
        Err(FaultProofProgramError::InvalidClaim { expected: claim, actual: w(0x99) })
    );
}

#[test]
fn due_time_does_not_wrap() {
    // The sum is past the range of the machine word, yet it compares as a number.
    let pre = single(5, 0xa0);
    let repeated = OptimisticBlock::new(w(0x51), w(0xa0));
    let claim = pre.clone().transition(Some(repeated)).unwrap().hash();
    let stage = await_hash(sub_transition(boot_with(pre, claim)));
    let stage = await_header(stage.on_safe_head_hash(Some(w(0x51))));
    assert_eq!(
        finished(stage.on_safe_head_header(Ok(Header { number: 40, timestamp: u64::MAX }))),
        Ok(())
    );

    let stage = up_to_derivation(single(u64::MAX, 0xa0), w(0x99), 40, u64::MAX - 1);
    assert_eq!(stage.disputed_l2_block_number, 41);
}

#[test]
fn exhaustion_accepts_only_the_invalid_transition_claim() {
    let exhausted: DriverResult<String> = Err(DriverError::Pipeline(PipelineError::EndOfSource));
    let stage = up_to_derivation(single(100, 0xa0), invalid_transition_hash(), 40, 99);
    assert_eq!(stage.on_derivation(exhausted.clone()), Ok(()));

    let stage = up_to_derivation(single(100, 0xa0), w(0x99), 40, 99);
    assert_eq!(
        stage.on_derivation(exhausted),
        Err(FaultProofProgramError::InvalidClaim {
            expected: invalid_transition_hash(),
            actual: w(0x99)
        })
    );
}

#[test]
fn exhaustion_reported_by_the_driver_decides_the_pass() {
    let cursor = Cursor::new(
        BlockInfo::new(w(3), 3, w(2), 36),
        l2(40, 0x51),
        w(0xa0),
    );
    let mut driver: Driver<String> = Driver::new(cursor, Some(41));
    for event in [
        StepResult::AdvancedOrigin,
        StepResult::NeedsMoreData,
        StepResult::StepFailed(PipelineError::EndOfSource),
    ] {
        driver = match driver {
            Driver::Stepping(state) => state.on_step(event),
            other => panic!("the driver ended early: {other:?}"),
        };
    }
    let outcome = driver.into_result().unwrap();
    let stage = up_to_derivation(single(100, 0xa0), invalid_transition_hash(), 40, 99);
    assert_eq!(stage.on_derivation(outcome.clone()), Ok(()));
    let stage = up_to_derivation(single(100, 0xa0), w(0), 40, 99);
    assert_eq!(
        stage.on_derivation(outcome),
        Err(FaultProofProgramError::InvalidClaim {
            expected: invalid_transition_hash(),
            actual: w(0)
        })
    );
}

#[test]
fn fatal_failures_are_handed_on() {
    let stage = up_to_derivation(single(100, 0xa0), invalid_transition_hash(), 40, 99);
    assert_eq!(
        stage.on_derivation(Err(DriverError::Executor("out of gas".to_string()))),
        Err(FaultProofProgramError::Driver(DriverError::Executor("out of gas".to_string())))
    );
    let stage = up_to_derivation(single(100, 0xa0), invalid_transition_hash(), 40, 99);
    assert_eq!(
        stage.on_derivation(Err(DriverError::Pipeline(PipelineError::Other("x".to_string())))),
        Err(FaultProofProgramError::Driver(DriverError::Pipeline(PipelineError::Other(
            "x".to_string()
        ))))
    );
    let stage = up_to_derivation(single(100, 0xa0), invalid_transition_hash(), 40, 99);
    assert_eq!(
        stage.on_derivation::<String>(Err(DriverError::Pipeline(PipelineError::MissingOrigin))),
        Err(FaultProofProgramError::Driver(DriverError::Pipeline(PipelineError::MissingOrigin)))
    );
}

#[test]
fn end_to_end_success() {
    let n = 40;
    let pre = single(100, 0xa0);
    let derived = OptimisticBlock::new(w(0x52), w(0xa1));
    let claim = pre.clone().transition(Some(derived)).unwrap().hash();

    let stage = up_to_derivation(pre, claim, n, 99);
    assert_eq!(stage.disputed_l2_block_number, n + 1);

    let cursor = Cursor::new(BlockInfo::new(w(3), 3, w(2), 36), l2(n, 0x51), w(0xa0));
    let driver: Driver<String> = Driver::new(cursor, Some(stage.disputed_l2_block_number));
    let driver: Driver<String> = match driver {
        Driver::Stepping(state) => state.on_step(StepResult::PreparedAttributes),
        other => panic!("the driver ended early: {other:?}"),
    };
    let driver: Driver<String> = match driver {
        Driver::Produced(state) => state.on_executed(Ok(ExecutedBlock {
            origin: Some(BlockInfo::new(w(3), 3, w(2), 36)),
            l2_block: l2(n + 1, 0x52),
            output_root: w(0xa1),
        })),
        other => panic!("nothing was produced: {other:?}"),
    };
    let outcome = driver.into_result().unwrap();
    assert_eq!(outcome, Ok((l2(n + 1, 0x52), w(0xa1))));
    assert_eq!(stage.on_derivation(outcome), Ok(()));
}

#[test]
fn end_to_end_mismatch() {
    let n = 40;
    let pre = single(100, 0xa0);
    let derived = OptimisticBlock::new(w(0x52), w(0xa1));
    let expected = pre.clone().transition(Some(derived)).unwrap().hash();
    let unrelated = w(0x77);

    let stage = up_to_derivation(pre, unrelated, n, 99);
    assert_eq!(
        stage.on_derivation::<String>(Ok((l2(n + 1, 0x52), w(0xa1)))),
        Err(FaultProofProgramError::InvalidClaim { expected, actual: unrelated })
    );
}

#[test]
fn derived_block_for_a_round_in_progress() {
    let roots =
        vec![OutputRootWithChain::new(CHAIN, w(0xa0)), OutputRootWithChain::new(11, w(0xb0))];
    let pre = PreState::TransitionState(TransitionState::new(
        SuperRoot::new(100, roots.clone()),
        vec![OptimisticBlock::new(w(0x52), w(0xa1))],
        1,
    ));
    let post = PreState::TransitionState(TransitionState::new(
        SuperRoot::new(100, roots),
        vec![OptimisticBlock::new(w(0x52), w(0xa1)), OptimisticBlock::new(w(0x62), w(0xb1))],
        2,
    ));
    let stage = await_hash(sub_transition(boot_with(pre, post.hash())));
    let stage = await_header(stage.on_safe_head_hash(Some(w(0x61))));
    assert_eq!(stage.chain_id(), Some(11));
    assert_eq!(stage.rollup_config.block_time, 1);
    let stage =
        await_derivation(stage.on_safe_head_header(Ok(Header { number: 7, timestamp: 100 })));
    assert_eq!(stage.disputed_l2_block_number, 8);
    assert_eq!(stage.on_derivation::<String>(Ok((l2(8, 0x62), w(0xb1)))), Ok(()));
}

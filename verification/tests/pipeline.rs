use interop_proof::pipeline::{
    ActivationSignal, PipelineError, PipelineSetup, ResetSignal, Signal, StepResult,
};
use interop_proof::primitives::Hash256;
use interop_proof::protocol::{BlockInfo, BlockNumHash, L2BlockInfo};

fn l1_block(number: u64) -> BlockInfo {
    BlockInfo::new(
        Hash256::new([number as u8; 32]),
        number,
        Hash256::new([number.wrapping_sub(1) as u8; 32]),
        12 * number,
    )
}

fn l2_block(number: u64, origin: u64) -> L2BlockInfo {
    L2BlockInfo::new(
        BlockInfo::new(
            Hash256::new([0x80 | number as u8; 32]),
            number,
            Hash256::new([0x80 | number.wrapping_sub(1) as u8; 32]),
            2 * number,
        ),
        BlockNumHash { number: origin, hash: Hash256::new([origin as u8; 32]) },
        0,
    )
}

#[test]
fn reset_signal_wraps_itself() {
    let reset = ResetSignal { l2_safe_head: l2_block(5, 2), l1_origin: l1_block(2), system_config: Some(9u32) };
    assert_eq!(reset.clone().signal(), Signal::Reset(reset));
}

#[test]
fn activation_signal_wraps_itself() {
    let activation = ActivationSignal {
        l2_safe_head: l2_block(5, 2),
        l1_origin: l1_block(2),
        system_config: None::<u32>,
    };
    assert_eq!(activation.clone().signal(), Signal::Activation(activation.clone()));
    assert_ne!(Signal::<u32>::FlushChannel, activation.signal());
}

#[test]
fn setup_asks_for_the_safe_heads_configuration() {
    let setup = PipelineSetup::new(l2_block(41, 7), l1_block(7));
    assert_eq!(setup.system_config_number(), 41);
    assert_eq!(setup.l2_safe_head, l2_block(41, 7));
    assert_eq!(setup.l1_origin, l1_block(7));
}

#[test]
fn initial_reset_carries_the_configuration() {
    let setup = PipelineSetup::new(l2_block(41, 7), l1_block(7));
    let signal = setup.initial_reset::<&str, String>(Ok("config"));
    assert_eq!(
        signal,
        Signal::Reset(ResetSignal {
            l2_safe_head: l2_block(41, 7),
            l1_origin: l1_block(7),
            system_config: Some("config"),
        })
    );
}

#[test]
fn initial_reset_survives_a_failed_lookup() {
    let setup = PipelineSetup::new(l2_block(41, 7), l1_block(7));
    let signal = setup.initial_reset::<&str, String>(Err("no such block".to_string()));
    assert_eq!(
        signal,
        Signal::Reset(ResetSignal {
            l2_safe_head: l2_block(41, 7),
            l1_origin: l1_block(7),
            system_config: None,
        })
    );
}

#[test]
fn setup_succeeds_where_the_reset_was_processed() {
    let built: Result<&str, String> = PipelineSetup::finish("pipeline", Ok(()));
    assert_eq!(built, Ok("pipeline"));
}

#[test]
fn setup_fails_with_the_pipelines_error() {
    let built: Result<&str, PipelineError<String>> =
        PipelineSetup::finish("pipeline", Err(PipelineError::Other("bad reset".to_string())));
    assert_eq!(built, Err(PipelineError::Other("bad reset".to_string())));
}

#[test]
fn step_results_are_distinct() {
    let results: Vec<StepResult<String>> = vec![
        StepResult::PreparedAttributes,
        StepResult::NeedsMoreData,
        StepResult::AdvancedOrigin,
        StepResult::StepFailed(PipelineError::EndOfSource),
        StepResult::StepFailed(PipelineError::MissingOrigin),
        StepResult::StepFailed(PipelineError::Other("x".to_string())),
    ];
    for i in 0..results.len() {
        for j in 0..results.len() {
            assert_eq!(results[i] == results[j], i == j);
        }
    }
}

//! The vocabulary between a derivation pipeline and whoever drives it: what a
//! step reports, how a pipeline fails, and the signals that make its stages
//! start over.

use crate::protocol::{BlockInfo, L2BlockInfo};
use vstd::prelude::*;

verus! {

/// How a pipeline fails. `E` is the error of the collaborator behind it.
#[derive(Debug, Clone, PartialEq, Eq)]
pub enum PipelineError<E> {
    /// The data source holds nothing more to derive blocks from.
    EndOfSource,
    /// The pipeline has no L1 origin.
    MissingOrigin,
    /// Any other failure.
    Other(E),
}

/// What one step of a pipeline reports.
#[derive(Debug, Clone, PartialEq, Eq)]
pub enum StepResult<E> {
    /// Payload attributes were prepared and can be taken.
    PreparedAttributes,
    /// No progress was possible yet: more data is needed.
    NeedsMoreData,
    /// The pipeline moved on to the next L1 origin.
    AdvancedOrigin,
    /// The step failed.
    StepFailed(PipelineError<E>),
}

/// The signal that makes every stage start over from a safe head. `C` is the
/// system configuration, which the library only carries.
#[derive(Debug, Clone, PartialEq, Eq)]
pub struct ResetSignal<C> {
    /// The L2 safe head to start from.
    pub l2_safe_head: L2BlockInfo,
    /// The L1 origin to start from.
    pub l1_origin: BlockInfo,
    /// The system configuration as of the safe head, where it is known.
    pub system_config: Option<C>,
}

/// The signal that a hard fork became active at a safe head.
#[derive(Debug, Clone, PartialEq, Eq)]
pub struct ActivationSignal<C> {
    /// The L2 safe head to start from.
    pub l2_safe_head: L2BlockInfo,
    /// The L1 origin to start from.
    pub l1_origin: BlockInfo,
    /// The system configuration as of the safe head, where it is known.
    pub system_config: Option<C>,
}

/// A signal to the stages of a pipeline.
#[derive(Debug, Clone, PartialEq, Eq)]
pub enum Signal<C> {
    /// Start over from a safe head.
    Reset(ResetSignal<C>),
    /// A hard fork became active.
    Activation(ActivationSignal<C>),
    /// Drop the channel that is being read.
    FlushChannel,
}

impl<C> ResetSignal<C> {
    /// Wraps the reset as a signal.
    pub fn signal(self) -> (signal: Signal<C>)
        ensures
            signal == Signal::Reset(self),
    {
        Signal::Reset(self)
    }
}

impl<C> ActivationSignal<C> {
    /// Wraps the activation as a signal.
    pub fn signal(self) -> (signal: Signal<C>)
        ensures
            signal == Signal::Activation(self),
    {
        Signal::Activation(self)
    }
}

/// The reset that a new pipeline starts with: the safe head and origin it was
/// built for, and the system configuration where the lookup gave one.
pub open spec fn spec_initial_reset<C, E>(
    l2_safe_head: L2BlockInfo,
    l1_origin: BlockInfo,
    system_config: Result<C, E>,
) -> Signal<C> {
    Signal::Reset(
        ResetSignal {
            l2_safe_head,
            l1_origin,
            system_config: match system_config {
                Ok(config) => Some(config),
                Err(_) => None,
            },
        },
    )
}

/// A pipeline under construction: its stages are built, and it waits for the
/// system configuration as of its safe head before it resets them.
#[derive(Debug, Clone, Copy, PartialEq, Eq)]
pub struct PipelineSetup {
    /// The L2 safe head the pipeline starts from.
    pub l2_safe_head: L2BlockInfo,
    /// The L1 origin the pipeline starts from.
    pub l1_origin: BlockInfo,
}

impl PipelineSetup {
    /// Starts the construction of a pipeline at a safe head and its origin.
    pub fn new(l2_safe_head: L2BlockInfo, l1_origin: BlockInfo) -> (setup: Self)
        ensures
            setup == (PipelineSetup { l2_safe_head, l1_origin }),
    {
        PipelineSetup { l2_safe_head, l1_origin }
    }

    /// The number of the L2 block whose system configuration is to be looked
    /// up: the safe head.
    pub fn system_config_number(&self) -> (number: u64)
        ensures
            number == self.l2_safe_head.block_info.number,
    {
        self.l2_safe_head.block_info.number
    }

    /// Takes the outcome of the lookup and gives the signal to send to the new
    /// pipeline. A failed lookup is no failure of the construction: the reset
    /// then carries no system configuration.
    pub fn initial_reset<C, E>(self, system_config: Result<C, E>) -> (signal: Signal<C>)
        ensures
            signal == spec_initial_reset(self.l2_safe_head, self.l1_origin, system_config),
    {
        let system_config = match system_config {
            Ok(config) => Some(config),
            Err(_) => None,
        };
        ResetSignal { l2_safe_head: self.l2_safe_head, l1_origin: self.l1_origin, system_config }
            .signal()
    }

    /// Takes the pipeline's answer to the reset: the construction succeeds
    /// where the signal was processed and fails with the pipeline's error
    /// where it was not.
    pub fn finish<P, E>(pipeline: P, answer: Result<(), E>) -> (built: Result<P, E>)
        ensures
            built == match answer {
                Ok(_) => Ok::<P, E>(pipeline),
                Err(e) => Err::<P, E>(e),
            },
    {
        match answer {
            Ok(_) => Ok(pipeline),
            Err(e) => Err(e),
        }
    }
}

} // verus!

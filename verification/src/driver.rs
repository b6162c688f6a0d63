//! The driver: it steps a derivation pipeline and has every payload that the
//! pipeline produces executed, until the target block is reached, the data
//! source is exhausted, or something fails.
//!
//! The driver is a state machine. The caller does the work a state asks for
//! and reports the outcome; the driver decides what comes next.

use crate::pipeline::{PipelineError, StepResult};
use crate::primitives::Hash256;
use crate::protocol::{BlockInfo, L2BlockInfo};
use vstd::prelude::*;

verus! {

/// How driving fails. `E` is the error of the collaborators.
#[derive(Debug, Clone, PartialEq, Eq)]
pub enum DriverError<E> {
    /// The pipeline failed.
    Pipeline(PipelineError<E>),
    /// The execution of a payload failed.
    Executor(E),
}

/// What driving ends with: the safe head that reached the target and its
/// output root, or the failure.
pub type DriverResult<E> = Result<(L2BlockInfo, Hash256), DriverError<E>>;

/// The position of a derivation: the latest safe L2 block, its output root,
/// and the L1 origin the pipeline reads from.
#[derive(Debug, Clone, Copy, PartialEq, Eq)]
pub struct Cursor {
    /// The L1 origin that is being consumed.
    pub origin: BlockInfo,
    /// The latest safe L2 block.
    pub l2_safe_head: L2BlockInfo,
    /// The output root after the latest safe L2 block.
    pub l2_safe_head_output_root: Hash256,
}

impl Cursor {
    /// A cursor at a safe head.
    pub fn new(origin: BlockInfo, l2_safe_head: L2BlockInfo, l2_safe_head_output_root: Hash256) -> (cursor:
        Self)
        ensures
            cursor == (Cursor { origin, l2_safe_head, l2_safe_head_output_root }),
    {
        Cursor { origin, l2_safe_head, l2_safe_head_output_root }
    }

    /// Moves the cursor to a new safe head.
    pub fn advance(
        &mut self,
        origin: BlockInfo,
        l2_safe_head: L2BlockInfo,
        l2_safe_head_output_root: Hash256,
    )
        ensures
            *final(self) == (Cursor { origin, l2_safe_head, l2_safe_head_output_root }),
    {
        self.origin = origin;
        self.l2_safe_head = l2_safe_head;
        self.l2_safe_head_output_root = l2_safe_head_output_root;
    }

    /// Whether the safe head has reached the target. Without a target no
    /// safe head has.
    pub open spec fn reached(self, target: Option<u64>) -> bool {
        target matches Some(number) && self.l2_safe_head.block_info.number >= number
    }
}

/// A block that was executed and sealed.
#[derive(Debug, Clone, Copy, PartialEq, Eq)]
pub struct ExecutedBlock {
    /// The L1 origin of the pipeline after the payload was taken, if it has
    /// one.
    pub origin: Option<BlockInfo>,
    /// The new L2 block.
    pub l2_block: L2BlockInfo,
    /// The output root after the new L2 block.
    pub output_root: Hash256,
}

/// The driver waits for the outcome of a pipeline step at the cursor's safe
/// head.
#[derive(Debug, Clone, Copy, PartialEq, Eq)]
pub struct Stepping {
    /// Where the derivation stands.
    pub cursor: Cursor,
    /// The number of the block to reach, if there is one.
    pub target: Option<u64>,
}

/// The pipeline holds prepared payload attributes; the driver waits for their
/// execution on top of the cursor's safe head.
#[derive(Debug, Clone, Copy, PartialEq, Eq)]
pub struct Produced {
    /// Where the derivation stands.
    pub cursor: Cursor,
    /// The number of the block to reach, if there is one.
    pub target: Option<u64>,
}

/// The states of the driver.
#[derive(Debug, Clone, PartialEq, Eq)]
pub enum Driver<E> {
    /// Step the pipeline.
    Stepping(Stepping),
    /// Take the prepared attributes and execute them.
    Produced(Produced),
    /// The target was reached: the safe head and its output root.
    Done(L2BlockInfo, Hash256),
    /// The data source was exhausted before the target was reached.
    Exhausted,
    /// Driving failed.
    Fatal(DriverError<E>),
}

/// The state of a driver whose cursor stands at `cursor`: done where the safe
/// head has reached the target, stepping otherwise.
pub open spec fn spec_at<E>(cursor: Cursor, target: Option<u64>) -> Driver<E> {
    if cursor.reached(target) {
        Driver::Done(cursor.l2_safe_head, cursor.l2_safe_head_output_root)
    } else {
        Driver::Stepping(Stepping { cursor, target })
    }
}

/// The state after a pipeline step: prepared attributes are executed next;
/// a step that only moved the origin, or needs more data, is followed by
/// another step; an exhausted source ends the derivation; every other
/// failure is fatal and kept as it is.
pub open spec fn spec_on_step<E>(state: Stepping, result: StepResult<E>) -> Driver<E> {
    match result {
        StepResult::PreparedAttributes => Driver::Produced(
            Produced { cursor: state.cursor, target: state.target },
        ),
        StepResult::NeedsMoreData => Driver::Stepping(state),
        StepResult::AdvancedOrigin => Driver::Stepping(state),
        StepResult::StepFailed(PipelineError::EndOfSource) => Driver::Exhausted,
        StepResult::StepFailed(e) => Driver::Fatal(DriverError::Pipeline(e)),
    }
}

/// The state after an execution: a failed execution is fatal, and so is a
/// pipeline without an origin; otherwise the cursor moves to the new block,
/// and the driver is done where that block has reached the target.
pub open spec fn spec_on_executed<E>(state: Produced, outcome: Result<ExecutedBlock, E>) -> Driver<
    E,
> {
    match outcome {
        Err(e) => Driver::Fatal(DriverError::Executor(e)),
        Ok(block) => match block.origin {
            None => Driver::Fatal(DriverError::Pipeline(PipelineError::MissingOrigin)),
            Some(origin) => spec_at(
                Cursor {
                    origin,
                    l2_safe_head: block.l2_block,
                    l2_safe_head_output_root: block.output_root,
                },
                state.target,
            ),
        },
    }
}

/// What a driver that has ended hands to its caller. Exhaustion is reported
/// as the pipeline's end-of-source failure.
pub open spec fn spec_result<E>(driver: Driver<E>) -> Option<DriverResult<E>> {
    match driver {
        Driver::Stepping(_) => None,
        Driver::Produced(_) => None,
        Driver::Done(safe_head, output_root) => Some(Ok((safe_head, output_root))),
        Driver::Exhausted => Some(Err(DriverError::Pipeline(PipelineError::EndOfSource))),
        Driver::Fatal(e) => Some(Err(e)),
    }
}

impl<E> Driver<E> {
    /// A driver whose cursor stands at `cursor` and that is to reach the
    /// block numbered `target`.
    pub fn new(cursor: Cursor, target: Option<u64>) -> (driver: Self)
        ensures
            driver == spec_at::<E>(cursor, target),
    {
        match target {
            Some(number) => {
                if cursor.l2_safe_head.block_info.number >= number {
                    return Driver::Done(cursor.l2_safe_head, cursor.l2_safe_head_output_root);
                }
            },
            None => {},
        }
        Driver::Stepping(Stepping { cursor, target })
    }

    /// Whether the driver has ended.
    pub fn is_terminal(&self) -> (ended: bool)
        ensures
            ended == (spec_result(*self) is Some),
            ended == !(*self is Stepping || *self is Produced),
    {
        match self {
            Driver::Stepping(_) => false,
            Driver::Produced(_) => false,
            _ => true,
        }
    }

    /// What a driver that has ended hands to its caller; `None` while it has
    /// not ended.
    pub fn into_result(self) -> (result: Option<DriverResult<E>>)
        ensures
            result == spec_result(self),
    {
        match self {
            Driver::Stepping(_) => None,
            Driver::Produced(_) => None,
            Driver::Done(safe_head, output_root) => Some(Ok((safe_head, output_root))),
            Driver::Exhausted => Some(Err(DriverError::Pipeline(PipelineError::EndOfSource))),
            Driver::Fatal(e) => Some(Err(e)),
        }
    }
}

impl Stepping {
    /// The safe head that the pipeline is to be stepped at.
    pub fn l2_safe_head(&self) -> (safe_head: L2BlockInfo)
        ensures
            safe_head == self.cursor.l2_safe_head,
    {
        self.cursor.l2_safe_head
    }

    /// Takes the outcome of the pipeline step.
    pub fn on_step<E>(self, result: StepResult<E>) -> (next: Driver<E>)
        ensures
            next == spec_on_step(self, result),
    {
        match result {
            StepResult::PreparedAttributes => Driver::Produced(
                Produced { cursor: self.cursor, target: self.target },
            ),
            StepResult::NeedsMoreData => Driver::Stepping(self),
            StepResult::AdvancedOrigin => Driver::Stepping(self),
            StepResult::StepFailed(e) => match e {
                PipelineError::EndOfSource => Driver::Exhausted,
                other => Driver::Fatal(DriverError::Pipeline(other)),
            },
        }
    }
}

impl Produced {
    /// The safe head that the prepared attributes are to be executed on.
    pub fn l2_safe_head(&self) -> (safe_head: L2BlockInfo)
        ensures
            safe_head == self.cursor.l2_safe_head,
    {
        self.cursor.l2_safe_head
    }

    /// Takes the report that the pipeline held no attributes after all: the
    /// pipeline is stepped again at the same safe head.
    pub fn on_nothing_taken<E>(self) -> (next: Driver<E>)
        ensures
            next == Driver::<E>::Stepping(Stepping { cursor: self.cursor, target: self.target }),
    {
        Driver::Stepping(Stepping { cursor: self.cursor, target: self.target })
    }

    /// Takes the outcome of the execution.
    pub fn on_executed<E>(self, outcome: Result<ExecutedBlock, E>) -> (next: Driver<E>)
        ensures
            next == spec_on_executed(self, outcome),
    {
        match outcome {
            Err(e) => Driver::Fatal(DriverError::Executor(e)),
            Ok(block) => match block.origin {
                None => Driver::Fatal(DriverError::Pipeline(PipelineError::MissingOrigin)),
                Some(origin) => {
                    let mut cursor = self.cursor;
                    cursor.advance(origin, block.l2_block, block.output_root);
                    Driver::new(cursor, self.target)
                },
            },
        }
    }
}

/// A driver is done only with the safe head of a block that has reached the
/// target, and a step of the pipeline never reaches it: only an execution
/// does.
pub proof fn lemma_done_reached_target<E>(state: Produced, outcome: Result<ExecutedBlock, E>)
    requires
        spec_on_executed(state, outcome) is Done,
    ensures
        outcome is Ok,
        state.target is Some,
        spec_on_executed(state, outcome)->Done_0 == outcome->Ok_0.l2_block,
        spec_on_executed(state, outcome)->Done_1 == outcome->Ok_0.output_root,
        outcome->Ok_0.l2_block.block_info.number >= state.target->Some_0,
{
}

/// A pipeline that reports exhaustion ends the derivation as exhausted,
/// whatever the target, and the caller is handed the end-of-source failure.
pub proof fn lemma_exhaustion<E>(state: Stepping)
    ensures
        spec_on_step::<E>(state, StepResult::StepFailed(PipelineError::EndOfSource))
            == Driver::<E>::Exhausted,
        spec_result(Driver::<E>::Exhausted) == Some(
            Err::<(L2BlockInfo, Hash256), DriverError<E>>(
                DriverError::Pipeline(PipelineError::EndOfSource),
            ),
        ),
{
}

} // verus!

//! Bounded, interruptible execution control for EVM inspection.
//!
//! An execution is run in segments. A [`ControlledInspector`] counts the opcode
//! steps of a segment; its `step` and `step_end` hooks return a [`StepAction`]
//! that tells the caller to suspend the interpreter once the configured step
//! limit is reached, and never later. A suspended run hands back a resumable
//! snapshot.
//! The module `counters` models the step accounting and proves its laws.
pub mod control;
pub mod controlled;
pub mod counters;

pub use control::{
    ControlledExecutionResult, ExecutionControl, ExecutionSnapshotCodec, ExecutionSnapshotStore,
    InMemoryExecutionSnapshot, SnapshotEnvelope, SuspendedExecution,
};
pub use controlled::{completed_execution, suspended_execution, ControlledInspector, StepAction};

//! The lifecycle state machine: which operations are legal when.
//!
//! An instance starts `Uninitialized`; `Initialize` must precede everything
//! except `Shutdown` and the metadata queries.  Processing toggles between
//! the suspended/initialized stages and `Processing`, the editor flag is
//! orthogonal to the processing stage, preset transfers are bracketed, and
//! offline batches follow the order notify, prepare, run.  Misuse is never
//! fatal: an operation invoked outside its legal window leaves the state
//! unchanged and returns the neutral result 0.

use vstd::prelude::*;
use crate::opcode::OpCode;

verus! {

/// The processing stage of an instance.
#[derive(Clone, Copy, Debug, PartialEq, Eq, Structural)]
pub enum Stage {
    /// Created but not yet initialized; only metadata queries, `Initialize`
    /// and `Shutdown` have any effect here.
    Uninitialized,
    /// Initialized and enabled; the render path may be started.
    Initialized,
    /// Initialized but disabled by the host.
    Suspended,
    /// Between `StartProcess` and `StopProcess`: the render path is being
    /// invoked repeatedly without interruption.
    Processing,
}

/// Where the current offline batch stands in the order notify, prepare, run.
#[derive(Clone, Copy, Debug, PartialEq, Eq, Structural)]
pub enum OfflineSeq {
    /// No offline batch announced.
    Idle,
    /// A batch was announced by `OfflineNotify`.
    Notified,
    /// The announced batch was prepared by `OfflinePrepare`.
    Prepared,
    /// The prepared batch was run by `OfflineRun`.
    Running,
}

/// The instance-scoped lifecycle state, mutated exclusively by dispatch
/// calls and never by the render path itself.
#[derive(Clone, Copy, Debug, PartialEq, Eq, Structural)]
pub struct LifecycleState {
    /// Processing stage.
    pub stage: Stage,
    /// Whether the editor window is open; orthogonal to the stage.
    pub editor_open: bool,
    /// Whether a preset change bracket is in progress; parameter queries
    /// inside the bracket may observe transitional values, which is
    /// expected and not an error.
    pub preset_transfer: bool,
    /// Offline batch progress.
    pub offline: OfflineSeq,
}

impl LifecycleState {
    /// The state of a freshly created instance.
    pub open spec fn initial_spec() -> LifecycleState {
        LifecycleState {
            stage: Stage::Uninitialized,
            editor_open: false,
            preset_transfer: false,
            offline: OfflineSeq::Idle,
        }
    }

    /// Create the state of a freshly created instance.
    pub fn initial() -> (r: LifecycleState)
        ensures
            r == LifecycleState::initial_spec(),
    {
        LifecycleState {
            stage: Stage::Uninitialized,
            editor_open: false,
            preset_transfer: false,
            offline: OfflineSeq::Idle,
        }
    }
}

/// Whether an operation is interpreted by the lifecycle state machine (as
/// opposed to the marshaling layer alone).
pub open spec fn is_lifecycle_op(op: OpCode) -> bool {
    match op {
        OpCode::Initialize
        | OpCode::Shutdown
        | OpCode::StateChanged
        | OpCode::EditorOpen
        | OpCode::EditorClose
        | OpCode::EditorIdle
        | OpCode::BeginSetPreset
        | OpCode::EndSetPreset
        | OpCode::OfflineNotify
        | OpCode::OfflinePrepare
        | OpCode::OfflineRun
        | OpCode::StartProcess
        | OpCode::StopProcess => true,
        _ => false,
    }
}

/// The state after a lifecycle operation.  An operation invoked outside its
/// legal window leaves the state unchanged; operations that are not
/// lifecycle operations never touch it.
pub open spec fn life_step(s: LifecycleState, op: OpCode, value: i64) -> LifecycleState {
    match op {
        OpCode::Initialize => if s.stage is Uninitialized {
            LifecycleState { stage: Stage::Initialized, ..s }
        } else {
            s
        },
        OpCode::Shutdown => LifecycleState::initial_spec(),
        OpCode::StateChanged => if s.stage is Initialized || s.stage is Suspended {
            if value != 0 {
                LifecycleState { stage: Stage::Initialized, ..s }
            } else {
                LifecycleState { stage: Stage::Suspended, ..s }
            }
        } else {
            s
        },
        OpCode::EditorOpen => if !(s.stage is Uninitialized) && !s.editor_open {
            LifecycleState { editor_open: true, ..s }
        } else {
            s
        },
        OpCode::EditorClose => if s.editor_open {
            LifecycleState { editor_open: false, ..s }
        } else {
            s
        },
        OpCode::EditorIdle => s,
        OpCode::BeginSetPreset => if !(s.stage is Uninitialized) {
            LifecycleState { preset_transfer: true, ..s }
        } else {
            s
        },
        OpCode::EndSetPreset => if !(s.stage is Uninitialized) {
            LifecycleState { preset_transfer: false, ..s }
        } else {
            s
        },
        OpCode::OfflineNotify => if !(s.stage is Uninitialized) {
            LifecycleState { offline: OfflineSeq::Notified, ..s }
        } else {
            s
        },
        OpCode::OfflinePrepare => if !(s.stage is Uninitialized) && s.offline is Notified {
            LifecycleState { offline: OfflineSeq::Prepared, ..s }
        } else {
            s
        },
        OpCode::OfflineRun => if !(s.stage is Uninitialized) && s.offline is Prepared {
            LifecycleState { offline: OfflineSeq::Running, ..s }
        } else {
            s
        },
        OpCode::StartProcess => if s.stage is Initialized || s.stage is Suspended {
            LifecycleState { stage: Stage::Processing, ..s }
        } else {
            s
        },
        OpCode::StopProcess => if s.stage is Processing {
            LifecycleState { stage: Stage::Initialized, ..s }
        } else {
            s
        },
        _ => s,
    }
}

/// The result of a lifecycle operation: 1 when the editor was actually
/// opened, the neutral result 0 in every other case (including misuse).
pub open spec fn life_result(s: LifecycleState, op: OpCode, value: i64) -> i64 {
    if op is EditorOpen && !(s.stage is Uninitialized) && !s.editor_open {
        1
    } else {
        0
    }
}

/// Apply one lifecycle operation; returns the new state and the result.
pub fn advance(s: LifecycleState, op: OpCode, value: i64) -> (r: (LifecycleState, i64))
    ensures
        r.0 == life_step(s, op, value),
        r.1 == life_result(s, op, value),
{
    match op {
        OpCode::Initialize => if matches!(s.stage, Stage::Uninitialized) {
            (LifecycleState { stage: Stage::Initialized, ..s }, 0)
        } else {
            (s, 0)
        },
        OpCode::Shutdown => (LifecycleState::initial(), 0),
        OpCode::StateChanged => if matches!(s.stage, Stage::Initialized | Stage::Suspended) {
            if value != 0 {
                (LifecycleState { stage: Stage::Initialized, ..s }, 0)
            } else {
                (LifecycleState { stage: Stage::Suspended, ..s }, 0)
            }
        } else {
            (s, 0)
        },
        OpCode::EditorOpen => if !matches!(s.stage, Stage::Uninitialized) && !s.editor_open {
            (LifecycleState { editor_open: true, ..s }, 1)
        } else {
            (s, 0)
        },
        OpCode::EditorClose => if s.editor_open {
            (LifecycleState { editor_open: false, ..s }, 0)
        } else {
            (s, 0)
        },
        OpCode::EditorIdle => (s, 0),
        OpCode::BeginSetPreset => if !matches!(s.stage, Stage::Uninitialized) {
            (LifecycleState { preset_transfer: true, ..s }, 0)
        } else {
            (s, 0)
        },
        OpCode::EndSetPreset => if !matches!(s.stage, Stage::Uninitialized) {
            (LifecycleState { preset_transfer: false, ..s }, 0)
        } else {
            (s, 0)
        },
        OpCode::OfflineNotify => if !matches!(s.stage, Stage::Uninitialized) {
            (LifecycleState { offline: OfflineSeq::Notified, ..s }, 0)
        } else {
            (s, 0)
        },
        OpCode::OfflinePrepare => if !matches!(s.stage, Stage::Uninitialized)
            && matches!(s.offline, OfflineSeq::Notified) {
            (LifecycleState { offline: OfflineSeq::Prepared, ..s }, 0)
        } else {
            (s, 0)
        },
        OpCode::OfflineRun => if !matches!(s.stage, Stage::Uninitialized)
            && matches!(s.offline, OfflineSeq::Prepared) {
            (LifecycleState { offline: OfflineSeq::Running, ..s }, 0)
        } else {
            (s, 0)
        },
        OpCode::StartProcess => if matches!(s.stage, Stage::Initialized | Stage::Suspended) {
            (LifecycleState { stage: Stage::Processing, ..s }, 0)
        } else {
            (s, 0)
        },
        OpCode::StopProcess => if matches!(s.stage, Stage::Processing) {
            (LifecycleState { stage: Stage::Initialized, ..s }, 0)
        } else {
            (s, 0)
        },
        _ => (s, 0),
    }
}

/// Before `Initialize`, `StartProcess` is illegal: it changes nothing and
/// returns the neutral result.
pub proof fn lemma_start_process_before_initialize(s: LifecycleState, value: i64)
    requires
        s.stage is Uninitialized,
    ensures
        life_step(s, OpCode::StartProcess, value) == s,
        life_result(s, OpCode::StartProcess, value) == 0,
{
}

/// `EditorIdle` has no effect on the lifecycle state, in particular when the
/// editor has never been opened, and always returns the neutral result.
pub proof fn lemma_editor_idle_without_open(s: LifecycleState, value: i64)
    requires
        !s.editor_open,
    ensures
        life_step(s, OpCode::EditorIdle, value) == s,
        life_result(s, OpCode::EditorIdle, value) == 0,
{
}

/// `OfflineRun` before `OfflineNotify`/`OfflinePrepare` for the same batch
/// is rejected: the neutral result, no state change, and in particular the
/// offline sequence does not move to `Running`.
pub proof fn lemma_offline_run_before_prepare(s: LifecycleState, value: i64)
    requires
        s.offline is Idle || s.offline is Notified,
    ensures
        life_step(s, OpCode::OfflineRun, value) == s,
        life_step(s, OpCode::OfflineRun, value).offline != OfflineSeq::Running,
        life_result(s, OpCode::OfflineRun, value) == 0,
{
}

/// Operations outside the lifecycle set never touch the lifecycle state.
pub proof fn lemma_non_lifecycle_op_keeps_state(s: LifecycleState, op: OpCode, value: i64)
    requires
        !is_lifecycle_op(op),
    ensures
        life_step(s, op, value) == s,
{
}

} // verus!

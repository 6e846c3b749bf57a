//! The capture session: sequencing of the layer-switch protocol.
//!
//! The device's active layer is shared hardware state that the capture only
//! temporarily perturbs. A session runs query-original-layer, switch to the
//! target, map the window, switch back, and must leave the device on its
//! original layer on every path that actually left it: after a successful
//! map, and also after a failed map (best-effort restore that never masks
//! the mapping error). The control calls themselves are blocking device
//! operations performed by the surrounding binary; this module fixes, state
//! by state, which call to issue next and how each outcome advances the
//! session.

use vstd::prelude::*;
use crate::error::CaptureError;

verus! {

/// Progress of one capture session. The layer carried by `Switching`,
/// `Mapping`, `Restoring` and `Complete` is the device's original active
/// layer, recorded once when queried and never changed afterward.
#[derive(Clone, Copy, Debug, PartialEq, Eq, Structural)]
pub enum SessionState {
    /// Waiting for the query of the currently active layer.
    Querying,
    /// Original layer known; waiting for the switch to the target layer.
    Switching(i32),
    /// Target layer active; waiting for the memory window to be mapped.
    Mapping(i32),
    /// Waiting for the switch back to the original layer. The flag is true
    /// when the window was mapped, false when mapping failed and the
    /// restore is best-effort compensation.
    Restoring(i32, bool),
    /// The window is mapped and the original layer is active again.
    Complete(i32),
    /// The session failed with the first error; the second value is the
    /// non-masking code of a restore that failed during compensation.
    Failed(CaptureError, Option<i32>),
}

/// Outcome of one device control or mapping operation, reported back to the
/// session by the caller that performed it.
#[derive(Clone, Copy, Debug, PartialEq, Eq, Structural)]
pub enum DeviceEvent {
    /// The query control call returned the active layer.
    QueryOk(i32),
    /// The query control call returned the carried non-zero code.
    QueryFailed(i32),
    /// The switch control call to the target layer succeeded.
    SwitchOk,
    /// The switch control call returned the carried non-zero code.
    SwitchFailed(i32),
    /// The memory window was established.
    MapOk,
    /// Establishing the memory window failed.
    MapFailed,
    /// The switch back to the original layer succeeded.
    RestoreOk,
    /// The switch back returned the carried non-zero code.
    RestoreFailed(i32),
}

/// The next device operation a session asks its caller to perform.
#[derive(Clone, Copy, Debug, PartialEq, Eq, Structural)]
pub enum DeviceAction {
    /// Query the currently active layer.
    Query,
    /// Switch the active layer to the carried target layer.
    Switch(u8),
    /// Map the read-only memory window over the layer.
    MapWindow,
    /// Switch the active layer back to the carried original layer.
    Restore(i32),
}

/// Whether a state expects this event: exactly the outcomes of the action
/// the state is waiting for.
pub open spec fn accepts(s: SessionState, ev: DeviceEvent) -> bool {
    match s {
        SessionState::Querying => ev is QueryOk || ev is QueryFailed,
        SessionState::Switching(_) => ev is SwitchOk || ev is SwitchFailed,
        SessionState::Mapping(_) => ev is MapOk || ev is MapFailed,
        SessionState::Restoring(_, _) => ev is RestoreOk || ev is RestoreFailed,
        SessionState::Complete(_) => false,
        SessionState::Failed(_, _) => false,
    }
}

/// The transition relation of the session, as a function.
pub open spec fn step_spec(s: SessionState, ev: DeviceEvent) -> SessionState {
    match (s, ev) {
        (SessionState::Querying, DeviceEvent::QueryOk(layer)) => SessionState::Switching(layer),
        (SessionState::Querying, DeviceEvent::QueryFailed(code)) => SessionState::Failed(
            CaptureError::ControlCall(code),
            None,
        ),
        // A failed switch never left the original layer: nothing to undo.
        (SessionState::Switching(o), DeviceEvent::SwitchOk) => SessionState::Mapping(o),
        (SessionState::Switching(_), DeviceEvent::SwitchFailed(code)) => SessionState::Failed(
            CaptureError::ControlCall(code),
            None,
        ),
        // A failed map still restores before the error is surfaced.
        (SessionState::Mapping(o), DeviceEvent::MapOk) => SessionState::Restoring(o, true),
        (SessionState::Mapping(o), DeviceEvent::MapFailed) => SessionState::Restoring(o, false),
        (SessionState::Restoring(o, true), DeviceEvent::RestoreOk) => SessionState::Complete(o),
        (SessionState::Restoring(_, true), DeviceEvent::RestoreFailed(code)) => SessionState::Failed(
            CaptureError::ControlCall(code),
            None,
        ),
        // The mapping error is surfaced whatever the compensating restore
        // did; its failure code is kept only as a secondary diagnostic.
        (SessionState::Restoring(_, false), DeviceEvent::RestoreOk) => SessionState::Failed(
            CaptureError::Mapping,
            None,
        ),
        (SessionState::Restoring(_, false), DeviceEvent::RestoreFailed(code)) => SessionState::Failed(
            CaptureError::Mapping,
            Some(code),
        ),
        (s, _) => s,
    }
}

/// The device operation awaited in a state; `None` in the terminal states.
pub open spec fn action_of(target: u8, s: SessionState) -> Option<DeviceAction> {
    match s {
        SessionState::Querying => Some(DeviceAction::Query),
        SessionState::Switching(_) => Some(DeviceAction::Switch(target)),
        SessionState::Mapping(_) => Some(DeviceAction::MapWindow),
        SessionState::Restoring(o, _) => Some(DeviceAction::Restore(o)),
        SessionState::Complete(_) => None,
        SessionState::Failed(_, _) => None,
    }
}

/// The original layer a state has recorded, if it has one.
pub open spec fn recorded_original(s: SessionState) -> Option<i32> {
    match s {
        SessionState::Querying => None,
        SessionState::Switching(o) => Some(o),
        SessionState::Mapping(o) => Some(o),
        SessionState::Restoring(o, _) => Some(o),
        SessionState::Complete(o) => Some(o),
        SessionState::Failed(_, _) => None,
    }
}

/// One capture session over a fixed target layer.
#[derive(Clone, Copy, Debug, PartialEq, Eq, Structural)]
pub struct CaptureSession {
    /// The layer to capture.
    pub target: u8,
    /// Current progress.
    pub state: SessionState,
}

impl CaptureSession {
    /// Starts a session: the first operation is the query of the active
    /// layer.
    pub fn new(target: u8) -> (s: Self)
        ensures
            s.target == target,
            s.state == SessionState::Querying,
    {
        CaptureSession { target, state: SessionState::Querying }
    }

    /// The device operation the caller must perform next, or `None` once
    /// the session is over.
    pub fn pending_action(&self) -> (a: Option<DeviceAction>)
        ensures
            a == action_of(self.target, self.state),
    {
        match self.state {
            SessionState::Querying => Some(DeviceAction::Query),
            SessionState::Switching(_) => Some(DeviceAction::Switch(self.target)),
            SessionState::Mapping(_) => Some(DeviceAction::MapWindow),
            SessionState::Restoring(o, _) => Some(DeviceAction::Restore(o)),
            SessionState::Complete(_) => None,
            SessionState::Failed(_, _) => None,
        }
    }

    /// Advances the session by the outcome of the operation it was waiting
    /// for.
    pub fn step(&mut self, ev: DeviceEvent)
        requires
            accepts(old(self).state, ev),
        ensures
            final(self).target == old(self).target,
            final(self).state == step_spec(old(self).state, ev),
    {
        let next = match (self.state, ev) {
            (SessionState::Querying, DeviceEvent::QueryOk(layer)) => SessionState::Switching(
                layer,
            ),
            (SessionState::Querying, DeviceEvent::QueryFailed(code)) => SessionState::Failed(
                CaptureError::ControlCall(code),
                None,
            ),
            (SessionState::Switching(o), DeviceEvent::SwitchOk) => SessionState::Mapping(o),
            (SessionState::Switching(_), DeviceEvent::SwitchFailed(code)) => SessionState::Failed(
                CaptureError::ControlCall(code),
                None,
            ),
            (SessionState::Mapping(o), DeviceEvent::MapOk) => SessionState::Restoring(o, true),
            (SessionState::Mapping(o), DeviceEvent::MapFailed) => SessionState::Restoring(
                o,
                false,
            ),
            (SessionState::Restoring(o, true), DeviceEvent::RestoreOk) => SessionState::Complete(
                o,
            ),
            (SessionState::Restoring(_, true), DeviceEvent::RestoreFailed(code)) => SessionState::Failed(
                CaptureError::ControlCall(code),
                None,
            ),
            (SessionState::Restoring(_, false), DeviceEvent::RestoreOk) => SessionState::Failed(
                CaptureError::Mapping,
                None,
            ),
            (SessionState::Restoring(_, false), DeviceEvent::RestoreFailed(code)) => SessionState::Failed(
                CaptureError::Mapping,
                Some(code),
            ),
            (s, _) => s,
        };
        self.state = next;
    }
}

/// Once recorded, the original layer is never changed by any accepted
/// event: every later state that carries an original carries the recorded
/// one, so a restore can only ever be issued with the pre-switch value.
pub proof fn lemma_original_preserved(s: SessionState, ev: DeviceEvent)
    requires
        accepts(s, ev),
        recorded_original(s) is Some,
        recorded_original(step_spec(s, ev)) is Some,
    ensures
        recorded_original(step_spec(s, ev)) == recorded_original(s),
{
}

/// A successful run restores the device: after query (original `o`),
/// switch, and map all succeed, the session demands exactly the restore of
/// `o`, and a successful restore completes the session with `o` recorded.
pub proof fn lemma_restores_original_on_success(target: u8, o: i32)
    ensures
        ({
            let s1 = step_spec(SessionState::Querying, DeviceEvent::QueryOk(o));
            let s2 = step_spec(s1, DeviceEvent::SwitchOk);
            let s3 = step_spec(s2, DeviceEvent::MapOk);
            action_of(target, s3) == Some(DeviceAction::Restore(o)) && step_spec(
                s3,
                DeviceEvent::RestoreOk,
            ) == SessionState::Complete(o)
        }),
{
}

/// A failed map still restores the original layer, and the surfaced error
/// stays the mapping error whatever the compensating restore did: its own
/// failure is kept only as a secondary code beside the mapping error.
pub proof fn lemma_restores_original_on_map_failure(target: u8, o: i32, restore_code: i32)
    ensures
        ({
            let s1 = step_spec(SessionState::Querying, DeviceEvent::QueryOk(o));
            let s2 = step_spec(s1, DeviceEvent::SwitchOk);
            let s3 = step_spec(s2, DeviceEvent::MapFailed);
            action_of(target, s3) == Some(DeviceAction::Restore(o)) && step_spec(
                s3,
                DeviceEvent::RestoreOk,
            ) == SessionState::Failed(CaptureError::Mapping, None) && step_spec(
                s3,
                DeviceEvent::RestoreFailed(restore_code),
            ) == SessionState::Failed(CaptureError::Mapping, Some(restore_code))
        }),
{
}

/// A failed switch propagates without any restore: the original layer was
/// never left, and the session ends at once with the control-call error.
pub proof fn lemma_no_restore_on_switch_failure(o: i32, code: i32)
    ensures
        step_spec(SessionState::Switching(o), DeviceEvent::SwitchFailed(code))
            == SessionState::Failed(CaptureError::ControlCall(code), None),
{
}

} // verus!

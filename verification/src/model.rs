//! The data model: immutable log records as received from the remote log
//! source, the single mutable view model that drives rendering, the message
//! union that is the only permitted mutation trigger, and the pure reducer
//! that folds a message into the view model.

use vstd::prelude::*;
use crate::timefmt::TS_MAX_MS;
use crate::timefmt::TS_MIN_MS;

verus! {

/// The sub-entity that issued a logged actuation.
#[derive(Debug)]
pub struct ControlledBy {
    pub id: String,
    pub name: String,
    pub image: String,
    pub custom_name: Option<String>,
}

/// One immutable remote event. `created_on` is milliseconds since the Unix
/// epoch and is the source of truth for ordering and relative-time display;
/// `intensity` is a percentage (clamped defensively at render time);
/// `duration` is in milliseconds.
#[derive(Debug)]
pub struct LogEntry {
    pub id: String,
    pub hub_id: String,
    pub hub_name: String,
    pub shocker_id: String,
    pub shocker_name: String,
    pub created_on: i64,
    pub typ: String,
    pub controlled_by: ControlledBy,
    pub intensity: u32,
    pub duration: u32,
}

impl LogEntry {
    /// The record's timestamp lies in the representable range.
    pub open spec fn wf(self) -> bool {
        TS_MIN_MS <= self.created_on <= TS_MAX_MS
    }
}

/// A full log snapshot as the remote log source hands it out; display order
/// is the order received.
#[derive(Debug)]
pub struct LogResponse {
    pub logs: Vec<LogEntry>,
}

impl LogResponse {
    /// Every record's timestamp lies in the representable range.
    pub open spec fn wf(self) -> bool {
        forall|i: int| 0 <= i < self.logs@.len() ==> (#[trigger] self.logs@[i]).wf()
    }
}

/// Whether the event loop keeps running or exits.
#[derive(Debug, Clone, Copy, PartialEq, Eq, Structural)]
pub enum RunningState {
    Running,
    Done,
}

/// The only permitted mutation triggers: a fresh log snapshot, or quit.
#[derive(Debug)]
pub enum Message {
    UpdateLog(LogResponse),
    Quit,
}

impl Message {
    /// Any log snapshot carried by the message is well-formed.
    pub open spec fn wf(self) -> bool {
        self matches Message::UpdateLog(resp) ==> resp.wf()
    }
}

/// The single application state: the current records, the time of the last
/// successful refresh (milliseconds since the Unix epoch; starts at the
/// epoch sentinel 0 so the first loop iteration refreshes at once), and the
/// run state.
#[derive(Debug)]
pub struct ViewModel {
    pub log: Vec<LogEntry>,
    pub last_updated: i64,
    pub running_state: RunningState,
}

impl ViewModel {
    /// All held timestamps lie in the representable range.
    pub open spec fn wf(self) -> bool {
        &&& TS_MIN_MS <= self.last_updated <= TS_MAX_MS
        &&& forall|i: int| 0 <= i < self.log@.len() ==> (#[trigger] self.log@[i]).wf()
    }

    /// The state the event loop starts from: empty log, epoch sentinel,
    /// running.
    pub fn init() -> (m: ViewModel)
        ensures
            m.log@.len() == 0,
            m.last_updated == 0,
            m.running_state is Running,
            m.wf(),
    {
        ViewModel { log: Vec::new(), last_updated: 0, running_state: RunningState::Running }
    }

    /// The loop-exit check: true exactly when the run state is `Done`.
    pub fn is_done(&self) -> (r: bool)
        ensures
            r == (self.running_state is Done),
    {
        match self.running_state {
            RunningState::Done => true,
            RunningState::Running => false,
        }
    }
}

/// The reducer: a pure, total step function from a view model and a message
/// to the next view model. `now` is the clock reading taken when the message
/// is dispatched. `UpdateLog` replaces the records wholesale and stamps
/// `last_updated` with `now`; `Quit` only moves the run state to `Done`; no
/// other transition exists.
pub fn update(model: ViewModel, msg: Message, now: i64) -> (m: ViewModel)
    ensures
        msg is Quit ==> m.running_state is Done && m.log == model.log && m.last_updated
            == model.last_updated,
        msg matches Message::UpdateLog(resp) ==> m.log == resp.logs && m.last_updated == now
            && m.running_state == model.running_state,
        model.wf() && msg.wf() && TS_MIN_MS <= now <= TS_MAX_MS ==> m.wf(),
{
    match msg {
        Message::UpdateLog(resp) => ViewModel {
            log: resp.logs,
            last_updated: now,
            running_state: model.running_state,
        },
        Message::Quit => ViewModel {
            log: model.log,
            last_updated: model.last_updated,
            running_state: RunningState::Done,
        },
    }
}

} // verus!

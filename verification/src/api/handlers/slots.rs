use vstd::prelude::*;

use crate::calendar::Date;
use crate::scheduler::models::TimeSlot;

verus! {

/// The query of the slot listing: optional inclusive date bounds.
#[derive(Debug)]
pub struct SlotsQuery {
    pub from: Option<Date>,
    pub to: Option<Date>,
}

/// How a changed slot is brought to the tracker.
#[derive(Debug, Clone, Copy, PartialEq, Eq, Structural)]
pub enum SyncAction {
    /// The slot has a task: update it.
    UpdateTask,
    /// The slot has no task yet: create one and record its id.
    CreateTask,
}

/// How a changed slot is brought to the tracker: its task is updated where it has one,
/// created where it has none.
pub fn sync_action(slot: &TimeSlot) -> (r: SyncAction)
    ensures
        (r == SyncAction::UpdateTask) == (slot.yougile_task_id is Some),
{
    if slot.yougile_task_id.is_some() {
        SyncAction::UpdateTask
    } else {
        SyncAction::CreateTask
    }
}

/// The task id to record after a task creation: the returned id, unless it is empty (the
/// integration was switched off and no task was made).
pub fn created_task_id(task_id: String) -> (r: Option<String>)
    ensures
        task_id@.len() == 0 ==> r is None,
        task_id@.len() > 0 ==> r == Some(task_id),
{
    if task_id.as_str().is_empty() {
        None
    } else {
        Some(task_id)
    }
}

} // verus!

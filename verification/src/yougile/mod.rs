pub mod config;
pub mod models;

use vstd::prelude::*;

pub use config::YougileConfig;

use crate::error::AppError;
use crate::ids::{uuid_text, uuid_to_string};
use crate::scheduler::models::{task_description, task_title, TimeSlot};
use config::clone_opt;

verus! {

/// The deadline of a tracker task: the slot's start and end as Unix milliseconds, with the
/// time of day shown.
#[derive(Debug, Clone, Copy, PartialEq, Eq, Structural)]
pub struct TaskDeadline {
    pub start_ms: i64,
    pub end_ms: i64,
    pub with_time: bool,
}

/// The tracker task to create for a slot.
#[derive(Debug)]
pub struct NewTask {
    pub title: String,
    pub column_id: Option<String>,
    pub description: String,
    pub assigned: Option<Vec<String>>,
    pub deadline: TaskDeadline,
}

/// The change to send to a slot's tracker task.
#[derive(Debug)]
pub struct TaskChange {
    pub title: String,
    pub description: String,
    pub completed: bool,
    pub assigned: Option<Vec<String>>,
    pub deadline: TaskDeadline,
}

/// The assignee list of a task: the configured assignee alone, if one is configured.
pub open spec fn assignees(config: YougileConfig) -> Option<Seq<String>> {
    match config.assignee_id {
        Some(a) => Some(seq![a]),
        None => None,
    }
}

/// The column of a new task: the configured column, unless it is empty.
pub open spec fn task_column(config: YougileConfig) -> Option<String> {
    match config.column_id {
        Some(c) => if c@.len() == 0 {
            None
        } else {
            Some(c)
        },
        None => None,
    }
}

pub open spec fn assigned_view(a: Option<Vec<String>>) -> Option<Seq<String>> {
    match a {
        Some(v) => Some(v@),
        None => None,
    }
}

/// The text of the error for an update of a slot that has no tracker task.
pub open spec fn no_task_message(slot_id: u128) -> Seq<char> {
    "Slot "@ + uuid_text(slot_id as int) + " has no Yougile task ID to update"@
}

fn assigned_of(config: &YougileConfig) -> (r: Option<Vec<String>>)
    ensures
        assigned_view(r) == assignees(*config),
{
    match &config.assignee_id {
        Some(a) => {
            let mut v: Vec<String> = Vec::new();
            v.push(a.clone());
            assert(v@ =~= seq![*a]);
            Some(v)
        },
        None => None,
    }
}

/// The task to create for `slot`, whose start and end are `start_ms` and `end_ms`.
pub fn build_new_task(config: &YougileConfig, slot: &TimeSlot, start_ms: i64, end_ms: i64) -> (r:
    NewTask)
    ensures
        r.title@ == task_title(*slot),
        r.description@ == task_description(*slot),
        r.column_id == task_column(*config),
        assigned_view(r.assigned) == assignees(*config),
        r.deadline == (TaskDeadline { start_ms, end_ms, with_time: true }),
        match config.column_id {
            Some(c) => if c@.len() > 0 {
                r.column_id == Some(c)
            } else {
                r.column_id is None
            },
            None => r.column_id is None,
        },
        match config.assignee_id {
            Some(a) => r.assigned matches Some(v) && v@ == seq![a],
            None => r.assigned is None,
        },
{
    let column_id = match &config.column_id {
        Some(c) => {
            if c.as_str().is_empty() {
                None
            } else {
                Some(c.clone())
            }
        },
        None => None,
    };
    NewTask {
        title: slot.build_task_title(),
        column_id,
        description: slot.build_task_description(),
        assigned: assigned_of(config),
        deadline: TaskDeadline { start_ms, end_ms, with_time: true },
    }
}

/// The change to send to the task of `slot`, whose start and end are `start_ms` and
/// `end_ms`.
pub fn build_task_change(config: &YougileConfig, slot: &TimeSlot, start_ms: i64, end_ms: i64) -> (r:
    TaskChange)
    ensures
        r.title@ == task_title(*slot),
        r.description@ == task_description(*slot),
        r.completed == slot.completed,
        assigned_view(r.assigned) == assignees(*config),
        r.deadline == (TaskDeadline { start_ms, end_ms, with_time: true }),
{
    TaskChange {
        title: slot.build_task_title(),
        description: slot.build_task_description(),
        completed: slot.completed,
        assigned: assigned_of(config),
        deadline: TaskDeadline { start_ms, end_ms, with_time: true },
    }
}

/// The id of the tracker task to update for `slot`; an error where the slot has none.
pub fn task_id_to_update(slot: &TimeSlot) -> (r: Result<String, AppError>)
    ensures
        match slot.yougile_task_id {
            Some(t) => r == Ok::<String, AppError>(t),
            None => r matches Err(AppError::Yougile(m)) && m@ == no_task_message(slot.id),
        },
{
    match &slot.yougile_task_id {
        Some(t) => Ok(t.clone()),
        None => {
            let mut m = String::from_str("Slot ");
            let id = uuid_to_string(slot.id);
            m.append(id.as_str());
            m.append(" has no Yougile task ID to update");
            Err(AppError::Yougile(m))
        },
    }
}

/// Whether calls to the tracker are skipped under `config`: exactly while the integration is
/// switched off. A skipped task creation reports an empty task id, a skipped listing an
/// empty list, and a skipped update or deletion success.
pub fn skip_if_disabled(config: &YougileConfig) -> (r: bool)
    ensures
        r == !config.enabled,
{
    !config.enabled
}

/// New tracker settings, keeping the current API token where the new settings bring none.
pub open spec fn merged_config(new: YougileConfig, current: YougileConfig) -> YougileConfig {
    YougileConfig {
        api_token: if new.api_token is None {
            current.api_token
        } else {
            new.api_token
        },
        ..new
    }
}

/// New tracker settings, keeping the current API token where the new settings bring none.
pub fn merge_config(new: YougileConfig, current: &YougileConfig) -> (r: YougileConfig)
    ensures
        r == merged_config(new, *current),
        r.enabled == new.enabled,
        r.api_url == new.api_url,
        r.project_id == new.project_id,
        r.board_id == new.board_id,
        r.column_id == new.column_id,
        r.assignee_id == new.assignee_id,
        new.api_token is Some ==> r.api_token == new.api_token,
        new.api_token is None ==> r.api_token == current.api_token,
{
    let mut new = new;
    if new.api_token.is_none() {
        new.api_token = clone_opt(&current.api_token);
    }
    new
}

/// Saving tracker settings takes every setting from the new ones (the switch, the address,
/// project, board, column and assignee) and only the API token, where the new settings bring
/// none, from the current ones.
pub proof fn law_merge_takes_new_settings(new: YougileConfig, current: YougileConfig)
    ensures
        ({
            let r = merged_config(new, current);
            &&& r.enabled == new.enabled
            &&& r.api_url == new.api_url
            &&& r.project_id == new.project_id
            &&& r.board_id == new.board_id
            &&& r.column_id == new.column_id
            &&& r.assignee_id == new.assignee_id
            &&& (new.api_token matches Some(t) ==> r.api_token == Some(t))
            &&& (new.api_token is None ==> r.api_token == current.api_token)
        }),
{
}

/// A new task goes to the configured column exactly when one is configured and it is not
/// empty, and is assigned to exactly the configured assignee.
pub proof fn law_task_placement(config: YougileConfig)
    ensures
        config.column_id matches Some(c) ==> (c@.len() > 0 ==> task_column(config) == Some(c)),
        config.column_id matches Some(c) ==> (c@.len() == 0 ==> task_column(config) is None),
        config.column_id is None ==> task_column(config) is None,
        config.assignee_id matches Some(a) ==> assignees(config) == Some(seq![a]),
        config.assignee_id is None ==> assignees(config) is None,
{
}

} // verus!

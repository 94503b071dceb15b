//! Steps of a task board.
use vstd::prelude::*;
use crate::text::str_eq;

verus! {

#[derive(Debug, Clone, Copy, PartialEq, Eq, Structural)]
pub enum TaskStage {
    Pending,
    InProgress,
    Completed,
    Failed,
}

impl TaskStage {
    /// The stored name.
    pub open spec fn name(self) -> Seq<char> {
        match self {
            TaskStage::Pending => "pending"@,
            TaskStage::InProgress => "in_progress"@,
            TaskStage::Completed => "completed"@,
            TaskStage::Failed => "failed"@,
        }
    }

    /// The stage a stored name denotes; unknown names read as `Pending`.
    pub open spec fn from_name(s: Seq<char>) -> TaskStage {
        if s == "pending"@ {
            TaskStage::Pending
        } else if s == "in_progress"@ {
            TaskStage::InProgress
        } else if s == "completed"@ {
            TaskStage::Completed
        } else if s == "failed"@ {
            TaskStage::Failed
        } else {
            TaskStage::Pending
        }
    }

    /// The stored name.
    pub fn as_str(&self) -> (r: &'static str)
        ensures
            r@ == self.name(),
    {
        match self {
            TaskStage::Pending => "pending",
            TaskStage::InProgress => "in_progress",
            TaskStage::Completed => "completed",
            TaskStage::Failed => "failed",
        }
    }

    /// The value a stored name denotes.
    pub fn from_db_str(s: &str) -> (r: TaskStage)
        ensures
            r == TaskStage::from_name(s@),
    {
        if str_eq(s, "pending") {
            TaskStage::Pending
        } else if str_eq(s, "in_progress") {
            TaskStage::InProgress
        } else if str_eq(s, "completed") {
            TaskStage::Completed
        } else if str_eq(s, "failed") {
            TaskStage::Failed
        } else {
            TaskStage::Pending
        }
    }
}

/// Reading back the stored name of a stage gives the same stage.
pub proof fn lemma_task_stage_round_trip(st: TaskStage)
    ensures
        TaskStage::from_name(st.name()) == st,
{
    reveal_strlit("pending");
    reveal_strlit("in_progress");
    reveal_strlit("completed");
    reveal_strlit("failed");
    assert("pending"@.len() == 7 && "in_progress"@.len() == 11);
    assert("completed"@.len() == 9 && "failed"@.len() == 6);
}

/// A stored task step row.
#[derive(Debug, Clone)]
pub struct TaskItemRecord {
    pub id: String,
    pub task_board_id: String,
    pub description: String,
    pub stage: TaskStage,
    pub sort_order: i32,
    pub error_detail: Option<String>,
    pub created_at: String,
    pub updated_at: String,
}

/// A task step as sent to the frontend.
#[derive(Debug, Clone)]
pub struct TaskItemDto {
    pub id: String,
    pub task_board_id: String,
    pub description: String,
    pub stage: TaskStage,
    pub sort_order: i32,
    pub error_detail: Option<String>,
    pub created_at: String,
    pub updated_at: String,
}

/// The DTO of a step row: every field carried over unchanged.
pub open spec fn task_item_dto_of(r: TaskItemRecord) -> TaskItemDto {
    TaskItemDto {
        id: r.id,
        task_board_id: r.task_board_id,
        description: r.description,
        stage: r.stage,
        sort_order: r.sort_order,
        error_detail: r.error_detail,
        created_at: r.created_at,
        updated_at: r.updated_at,
    }
}

impl From<TaskItemRecord> for TaskItemDto {
    fn from(r: TaskItemRecord) -> (d: TaskItemDto)
        ensures
            d == task_item_dto_of(r),
    {
        TaskItemDto {
            id: r.id,
            task_board_id: r.task_board_id,
            description: r.description,
            stage: r.stage,
            sort_order: r.sort_order,
            error_detail: r.error_detail,
            created_at: r.created_at,
            updated_at: r.updated_at,
        }
    }
}

impl vstd::std_specs::convert::FromSpecImpl<TaskItemRecord> for TaskItemDto {
    open spec fn obeys_from_spec() -> bool {
        true
    }

    open spec fn from_spec(v: TaskItemRecord) -> TaskItemDto {
        task_item_dto_of(v)
    }
}

} // verus!

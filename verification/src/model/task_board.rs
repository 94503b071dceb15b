//! Task boards: tracked tasks within a thread, and the tool inputs that
//! create and update them.
use vstd::prelude::*;
use crate::model::task_item::TaskItemDto;
use crate::text::str_eq;

verus! {

#[derive(Debug, Clone, Copy, PartialEq, Eq, Structural)]
pub enum TaskBoardStatus {
    Active,
    Completed,
    Abandoned,
}

impl TaskBoardStatus {
    /// The stored name.
    pub open spec fn name(self) -> Seq<char> {
        match self {
            TaskBoardStatus::Active => "active"@,
            TaskBoardStatus::Completed => "completed"@,
            TaskBoardStatus::Abandoned => "abandoned"@,
        }
    }

    /// The status a stored name denotes; unknown names read as `Active`.
    pub open spec fn from_name(s: Seq<char>) -> TaskBoardStatus {
        if s == "active"@ {
            TaskBoardStatus::Active
        } else if s == "completed"@ {
            TaskBoardStatus::Completed
        } else if s == "abandoned"@ {
            TaskBoardStatus::Abandoned
        } else {
            TaskBoardStatus::Active
        }
    }

    /// The stored name.
    pub fn as_str(&self) -> (r: &'static str)
        ensures
            r@ == self.name(),
    {
        match self {
            TaskBoardStatus::Active => "active",
            TaskBoardStatus::Completed => "completed",
            TaskBoardStatus::Abandoned => "abandoned",
        }
    }

    /// The value a stored name denotes.
    pub fn from_db_str(s: &str) -> (r: TaskBoardStatus)
        ensures
            r == TaskBoardStatus::from_name(s@),
    {
        if str_eq(s, "active") {
            TaskBoardStatus::Active
        } else if str_eq(s, "completed") {
            TaskBoardStatus::Completed
        } else if str_eq(s, "abandoned") {
            TaskBoardStatus::Abandoned
        } else {
            TaskBoardStatus::Active
        }
    }
}

/// Reading back the stored name of a board status gives the same status.
pub proof fn lemma_task_board_status_round_trip(st: TaskBoardStatus)
    ensures
        TaskBoardStatus::from_name(st.name()) == st,
{
    reveal_strlit("active");
    reveal_strlit("completed");
    reveal_strlit("abandoned");
    assert("active"@.len() == 6 && "completed"@.len() == 9 && "abandoned"@.len() == 9);
    assert("completed"@[0] != "abandoned"@[0]);
}

/// A stored task board row.
#[derive(Debug, Clone)]
pub struct TaskBoardRecord {
    pub id: String,
    pub thread_id: String,
    pub title: String,
    pub status: TaskBoardStatus,
    pub active_task_id: Option<String>,
    pub created_at: String,
    pub updated_at: String,
}

/// A task board with its steps, as sent to the frontend.
#[derive(Debug, Clone)]
pub struct TaskBoardDto {
    pub id: String,
    pub thread_id: String,
    pub title: String,
    pub status: TaskBoardStatus,
    pub active_task_id: Option<String>,
    pub tasks: Vec<TaskItemDto>,
    pub created_at: String,
    pub updated_at: String,
}

/// Input of the `create_task` tool.
#[derive(Debug)]
pub struct CreateTaskInput {
    pub title: String,
    pub steps: Vec<CreateTaskStep>,
}

#[derive(Debug)]
pub struct CreateTaskStep {
    pub description: String,
}

/// Input of the `update_task` tool.
#[derive(Debug)]
pub struct UpdateTaskInput {
    pub task_board_id: String,
    pub action: UpdateTaskAction,
}

#[derive(Debug)]
pub enum UpdateTaskAction {
    StartStep { step_id: String },
    CompleteStep { step_id: String },
    FailStep { step_id: String, error_detail: String },
    CompleteBoard,
    AbandonBoard { reason: Option<String> },
}

} // verus!

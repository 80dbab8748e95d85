use vstd::prelude::*;

verus! {

/// Where a task stands. Any status may follow any other.
#[derive(PartialEq, Eq, Structural, Debug, Clone, Copy)]
pub enum TaskStatus {
    Created,
    Progress,
    Completed,
    Archived,
}

impl TaskStatus {
    /// The status's name as a word.
    pub open spec fn name(self) -> Seq<char> {
        match self {
            TaskStatus::Created => "Created"@,
            TaskStatus::Progress => "Progress"@,
            TaskStatus::Completed => "Completed"@,
            TaskStatus::Archived => "Archived"@,
        }
    }

    /// The status's name as a word, e.g. `"Archived"`.
    pub fn to_string(&self) -> (text: String)
        ensures
            text@ == self.name(),
    {
        match self {
            TaskStatus::Created => "Created".to_owned(),
            TaskStatus::Progress => "Progress".to_owned(),
            TaskStatus::Completed => "Completed".to_owned(),
            TaskStatus::Archived => "Archived".to_owned(),
        }
    }
}

/// A task starts as `Created`.
impl Default for TaskStatus {
    fn default() -> (status: TaskStatus)
        ensures
            status == TaskStatus::Created,
    {
        TaskStatus::Created
    }
}

} // verus!

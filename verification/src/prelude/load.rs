use vstd::prelude::*;
use crate::task::{Category, Tag, Task};

verus! {

/// Where a list gets what it starts with. The list takes what it is given
/// as it comes.
pub trait TodoListLoad {
    /// The categories to start with.
    fn get_todolist_categories(&self) -> Vec<Category>;

    /// The tasks to start with.
    fn get_todolist_tasks(&self) -> Vec<Task>;

    /// The tags to start with.
    fn get_todolist_tags(&self) -> Vec<Tag>;
}

} // verus!

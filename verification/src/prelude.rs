pub mod load;

pub use crate::task::{Category, Priority, Tag, Task, TaskBuilder, TaskStatus};
pub use crate::task::TaskStatus as Status;
pub use crate::time::Timestamp;

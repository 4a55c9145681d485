//! The task record.
use vstd::prelude::*;

verus! {

/// A stored task. `id` is the UUID as a 128-bit value; `created_at` is the
/// creation time in microseconds since the Unix epoch, absent until the store
/// has set it.
#[derive(Debug)]
pub struct TaskModel {
    pub id: u128,
    pub title: String,
    pub content: String,
    pub created_at: Option<i64>,
}

/// The mathematical value of a task.
pub ghost struct TaskView {
    pub id: u128,
    pub title: Seq<char>,
    pub content: Seq<char>,
    pub created_at: Option<i64>,
}

impl View for TaskModel {
    type V = TaskView;

    open spec fn view(&self) -> TaskView {
        TaskView {
            id: self.id,
            title: self.title@,
            content: self.content@,
            created_at: self.created_at,
        }
    }
}

impl TaskModel {
    /// A copy of the task, equal in every field.
    pub fn duplicate(&self) -> (r: TaskModel)
        ensures
            r@ == self@,
    {
        TaskModel {
            id: self.id,
            title: self.title.clone(),
            content: self.content.clone(),
            created_at: self.created_at,
        }
    }
}

} // verus!

//! The task entity and the payload it is created or updated from.

use vstd::prelude::*;

verus! {

/// A persisted task.
///
/// `id` is assigned by the store and never changes; `user_id` names the owner
/// and never changes either. `completed` starts out `false`.
#[derive(Debug, PartialEq, Eq)]
pub struct Task {
    pub id: i32,
    pub title: String,
    pub description: String,
    pub completed: bool,
    pub user_id: i32,
}

/// The caller-supplied part of a task: what a create or an update carries.
#[derive(Debug, PartialEq, Eq)]
pub struct NewTask {
    pub title: String,
    pub description: String,
}

/// What a [`Task`] is to a contract.
pub struct TaskView {
    pub id: int,
    pub title: Seq<char>,
    pub description: Seq<char>,
    pub completed: bool,
    pub user_id: int,
}

/// What a [`NewTask`] is to a contract.
pub struct NewTaskView {
    pub title: Seq<char>,
    pub description: Seq<char>,
}

impl View for Task {
    type V = TaskView;

    open spec fn view(&self) -> TaskView {
        TaskView {
            id: self.id as int,
            title: self.title@,
            description: self.description@,
            completed: self.completed,
            user_id: self.user_id as int,
        }
    }
}

impl View for NewTask {
    type V = NewTaskView;

    open spec fn view(&self) -> NewTaskView {
        NewTaskView { title: self.title@, description: self.description@ }
    }
}

/// The views of a sequence of tasks, in the same order.
pub open spec fn task_views(tasks: Seq<Task>) -> Seq<TaskView> {
    tasks.map_values(|task: Task| task@)
}

/// The view of an optional task.
pub open spec fn optional_task_view(task: Option<Task>) -> Option<TaskView> {
    match task {
        Some(task) => Some(task@),
        None => None,
    }
}

impl TaskView {
    /// The same row under the title and the description of `new_task`.
    pub open spec fn revised(self, new_task: NewTaskView) -> TaskView {
        TaskView { title: new_task.title, description: new_task.description, ..self }
    }
}

impl Clone for Task {
    fn clone(&self) -> (copy: Task)
        ensures
            copy@ == self@,
    {
        Task {
            id: self.id,
            title: self.title.clone(),
            description: self.description.clone(),
            completed: self.completed,
            user_id: self.user_id,
        }
    }
}

} // verus!

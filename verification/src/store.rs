//! A task table kept in memory.
//!
//! [`TaskStore`] carries out the five store operations on rows that it holds
//! itself. What each operation returns and what it does to the rows is stated
//! over the [`Table`] that the store is a view of.

use vstd::prelude::*;
use crate::models::{NewTask, Task, optional_task_view, task_views};
use crate::filters::{
    lemma_filter_all, lemma_filter_none, lemma_first_hit, lemma_only_hit, lemma_only_miss,
};
use crate::errors::StoreError;
use crate::table::{
    MAX_TASK_ID, Table, addressed_by, ascending, lemma_delete_wf,
    lemma_list_ascending, one_row_affected, owned_by, revise, spared_by,
};

verus! {

/// Whether a statement that affected `rows_affected` rows changed a row.
///
/// Exactly one affected row counts as a change. None means that no row
/// matched; more than one cannot happen while ids are unique and counts as no
/// change either.
pub fn row_changed(rows_affected: u64) -> (changed: bool)
    ensures
        changed == one_row_affected(rows_affected as int),
{
    rows_affected == 1
}

/// The task table, held in memory.
pub struct TaskStore {
    rows: Vec<Task>,
    last_id: i32,
}

impl View for TaskStore {
    type V = Table;

    closed spec fn view(&self) -> Table {
        Table { rows: task_views(self.rows@), last_id: self.last_id as int }
    }
}

impl TaskStore {
    /// The invariant of the store: the table it holds is well formed.
    #[verifier::type_invariant]
    pub open spec fn well_formed(self) -> bool {
        self@.wf()
    }

    /// A store without tasks.
    pub fn new() -> (store: TaskStore)
        ensures
            store@ == Table::empty(),
            store@.wf(),
    {
        let store = TaskStore { rows: Vec::new(), last_id: 0 };
        assert(store@.rows =~= Table::empty().rows);
        store
    }

    /// A store without tasks that has assigned the ids up to `last_id`
    /// before: its first task gets the id after `last_id`. `None` where
    /// `last_id` is negative.
    pub fn resuming_after(last_id: i32) -> (store: Option<TaskStore>)
        ensures
            match store {
                Some(store) => {
                    &&& last_id >= 0
                    &&& store@ == (Table { rows: Seq::empty(), last_id: last_id as int })
                    &&& store@.wf()
                },
                None => last_id < 0,
            },
    {
        if last_id < 0 {
            return None;
        }
        let store = TaskStore { rows: Vec::new(), last_id };
        assert(store@.rows =~= Seq::empty());
        Some(store)
    }

    /// The index of the row with id `task_id` that `user_id` owns.
    fn position(&self, user_id: i32, task_id: i32) -> (found: Option<usize>)
        ensures
            match found {
                Some(k) => {
                    &&& k < self@.rows.len()
                    &&& addressed_by(user_id as int, task_id as int)(self@.rows[k as int])
                    &&& forall|j: int|
                        0 <= j < self@.rows.len() && j != k ==> !addressed_by(
                            user_id as int,
                            task_id as int,
                        )(#[trigger] self@.rows[j])
                },
                None => forall|j: int|
                    0 <= j < self@.rows.len() ==> !addressed_by(user_id as int, task_id as int)(
                        #[trigger] self@.rows[j],
                    ),
            },
    {
        proof {
            use_type_invariant(self);
        }
        let mut i: usize = 0;
        while i < self.rows.len()
            invariant
                i <= self.rows.len(),
                self@.wf(),
                forall|j: int|
                    0 <= j < i ==> !addressed_by(user_id as int, task_id as int)(
                        #[trigger] self@.rows[j],
                    ),
            decreases self.rows.len() - i,
        {
            if self.rows[i].id == task_id && self.rows[i].user_id == user_id {
                assert forall|j: int| 0 <= j < self@.rows.len() && j != i implies !addressed_by(
                    user_id as int,
                    task_id as int,
                )(#[trigger] self@.rows[j]) by {
                    if j > i {
                        assert(self@.rows[i as int].id < self@.rows[j].id);
                    }
                }
                return Some(i);
            }
            i += 1;
        }
        None
    }

    /// Inserts a task for `user_id` and returns the inserted row.
    ///
    /// The row gets the next id, the title and the description of `new_task`,
    /// and is not completed. The insert fails, and changes nothing, exactly
    /// when no id is left to assign.
    pub fn create(&mut self, user_id: i32, new_task: &NewTask) -> (created: Result<
        Task,
        StoreError,
    >)
        ensures
            created is Ok <==> !old(self)@.is_full(),
            match created {
                Ok(task) => {
                    &&& task@ == old(self)@.new_row(user_id as int, new_task@)
                    &&& final(self)@ == old(self)@.insert(user_id as int, new_task@)
                },
                Err(_) => final(self)@ == old(self)@,
            },
            final(self)@.wf(),
    {
        proof {
            use_type_invariant(&*self);
        }
        if self.last_id >= MAX_TASK_ID {
            return Err(StoreError);
        }
        let id: i32 = self.last_id + 1;
        let task = Task {
            id,
            title: new_task.title.clone(),
            description: new_task.description.clone(),
            completed: false,
            user_id,
        };
        let inserted = task.clone();
        let mut rows: Vec<Task> = Vec::new();
        std::mem::swap(&mut rows, &mut self.rows);
        rows.push(task);
        assert(task_views(rows@) =~= old(self)@.rows.push(task@));
        self.last_id = id;
        self.rows = rows;
        Ok(inserted)
    }

    /// The tasks that `user_id` owns, in ascending order of id.
    pub fn list(&self, user_id: i32) -> (tasks: Vec<Task>)
        ensures
            task_views(tasks@) == self@.list(user_id as int),
            ascending(task_views(tasks@)),
    {
        proof {
            use_type_invariant(self);
        }
        let mut tasks: Vec<Task> = Vec::new();
        let mut i: usize = 0;
        assert(self@.rows.take(0) =~= Seq::empty());
        proof {
            lemma_filter_none(self@.rows.take(0), owned_by(user_id as int));
        }
        while i < self.rows.len()
            invariant
                i <= self.rows.len(),
                task_views(tasks@) == self@.rows.take(i as int).filter(owned_by(user_id as int)),
            decreases self.rows.len() - i,
        {
            proof {
                self@.rows.lemma_take_succ_push(i as int);
                self@.rows.take(i as int).lemma_filter_push(
                    self@.rows[i as int],
                    owned_by(user_id as int),
                );
            }
            if self.rows[i].user_id == user_id {
                let ghost before = tasks@;
                let task = self.rows[i].clone();
                tasks.push(task);
                assert(task_views(tasks@) =~= task_views(before).push(task@));
            }
            i += 1;
        }
        assert(self@.rows.take(i as int) =~= self@.rows);
        proof {
            lemma_list_ascending(self@, user_id as int);
        }
        tasks
    }

    /// The task with id `task_id` that `user_id` owns, if there is one.
    pub fn get(&self, user_id: i32, task_id: i32) -> (found: Option<Task>)
        ensures
            optional_task_view(found) == self@.get(user_id as int, task_id as int),
    {
        proof {
            use_type_invariant(self);
        }
        match self.position(user_id, task_id) {
            Some(k) => {
                proof {
                    lemma_first_hit(
                        self@.rows,
                        addressed_by(user_id as int, task_id as int),
                        k as int,
                    );
                }
                Some(self.rows[k].clone())
            },
            None => {
                proof {
                    lemma_filter_none(self@.rows, addressed_by(user_id as int, task_id as int));
                }
                None
            },
        }
    }

    /// Replaces title and description of the task with id `task_id` that
    /// `user_id` owns, and says whether a row changed.
    pub fn update(&mut self, user_id: i32, task_id: i32, new_task: &NewTask) -> (changed: bool)
        ensures
            final(self)@ == old(self)@.update(user_id as int, task_id as int, new_task@),
            changed == one_row_affected(
                old(self)@.selected(user_id as int, task_id as int).len() as int,
            ),
            final(self)@.wf(),
    {
        proof {
            use_type_invariant(&*self);
        }
        let ghost selection = addressed_by(user_id as int, task_id as int);
        let ghost revision = revise(user_id as int, task_id as int, new_task@);
        match self.position(user_id, task_id) {
            Some(k) => {
                let mut rows: Vec<Task> = Vec::new();
                std::mem::swap(&mut rows, &mut self.rows);
                let revised = Task {
                    id: rows[k].id,
                    title: new_task.title.clone(),
                    description: new_task.description.clone(),
                    completed: rows[k].completed,
                    user_id: rows[k].user_id,
                };
                rows.set(k, revised);
                proof {
                    lemma_only_hit(old(self)@.rows, selection, k as int);
                    assert(task_views(rows@) =~= old(self)@.rows.map_values(revision));
                }
                self.rows = rows;
                row_changed(1)
            },
            None => {
                proof {
                    lemma_filter_none(old(self)@.rows, selection);
                    assert(old(self)@.rows.map_values(revision) =~= old(self)@.rows);
                }
                row_changed(0)
            },
        }
    }

    /// Removes the task with id `task_id` that `user_id` owns, and says
    /// whether a row changed.
    pub fn delete(&mut self, user_id: i32, task_id: i32) -> (changed: bool)
        ensures
            final(self)@ == old(self)@.delete(user_id as int, task_id as int),
            changed == one_row_affected(
                old(self)@.selected(user_id as int, task_id as int).len() as int,
            ),
            final(self)@.wf(),
    {
        proof {
            use_type_invariant(&*self);
        }
        let ghost selection = addressed_by(user_id as int, task_id as int);
        let ghost rest = spared_by(user_id as int, task_id as int);
        match self.position(user_id, task_id) {
            Some(k) => {
                let mut rows: Vec<Task> = Vec::new();
                std::mem::swap(&mut rows, &mut self.rows);
                rows.remove(k);
                proof {
                    lemma_only_hit(old(self)@.rows, selection, k as int);
                    lemma_only_miss(old(self)@.rows, rest, k as int);
                    assert(task_views(rows@) =~= old(self)@.rows.remove(k as int));
                    lemma_delete_wf(old(self)@, user_id as int, task_id as int);
                }
                self.rows = rows;
                row_changed(1)
            },
            None => {
                proof {
                    lemma_filter_none(old(self)@.rows, selection);
                    lemma_filter_all(old(self)@.rows, rest);
                }
                row_changed(0)
            },
        }
    }
}

} // verus!

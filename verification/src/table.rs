//! The task table as a mathematical model, and what holds of it.
//!
//! A [`Table`] is the rows in ascending order of id together with the highest
//! id assigned so far. The five store operations are functions on it; the
//! proof functions at the end state what every well-formed table guarantees.

use vstd::prelude::*;
use crate::filters::{
    lemma_filter_all, lemma_filter_none, lemma_filter_of_filtered, lemma_filter_of_unmoved,
    lemma_first_hit, lemma_no_hit, lemma_only_hit,
};
use crate::models::{NewTaskView, TaskView};

verus! {

/// The largest id that a table can assign.
pub const MAX_TASK_ID: i32 = 2147483647;

/// Selects the rows that `user_id` owns.
pub open spec fn owned_by(user_id: int) -> spec_fn(TaskView) -> bool {
    |row: TaskView| row.user_id == user_id
}

/// Selects the rows with id `task_id` that `user_id` owns.
pub open spec fn addressed_by(user_id: int, task_id: int) -> spec_fn(TaskView) -> bool {
    |row: TaskView| row.id == task_id && row.user_id == user_id
}

/// Selects every row that [`addressed_by`] does not.
pub open spec fn spared_by(user_id: int, task_id: int) -> spec_fn(TaskView) -> bool {
    |row: TaskView| !(row.id == task_id && row.user_id == user_id)
}

/// Replaces title and description in the rows that [`addressed_by`] selects.
pub open spec fn revise(user_id: int, task_id: int, new_task: NewTaskView) -> spec_fn(
    TaskView,
) -> TaskView {
    |row: TaskView|
        if row.id == task_id && row.user_id == user_id {
            row.revised(new_task)
        } else {
            row
        }
}

/// Whether a statement that affected `rows_affected` rows changed a row:
/// exactly one row has to be affected.
pub open spec fn one_row_affected(rows_affected: int) -> bool {
    rows_affected == 1
}

/// The ids ascend strictly along `rows`.
pub open spec fn ascending(rows: Seq<TaskView>) -> bool {
    forall|i: int, j: int|
        0 <= i < j < rows.len() ==> (#[trigger] rows[i]).id < (#[trigger] rows[j]).id
}

/// The table of tasks.
pub struct Table {
    /// The rows, in the order in which they were inserted.
    pub rows: Seq<TaskView>,
    /// The highest id assigned so far, 0 before the first insert.
    pub last_id: int,
}

impl Table {
    /// The table before the first insert.
    pub open spec fn empty() -> Table {
        Table { rows: Seq::empty(), last_id: 0 }
    }

    /// Ids are positive, none is above `last_id`, and they ascend strictly
    /// along the rows, so no id occurs twice.
    pub open spec fn wf(self) -> bool {
        &&& 0 <= self.last_id <= MAX_TASK_ID
        &&& forall|i: int|
            0 <= i < self.rows.len() ==> 1 <= (#[trigger] self.rows[i]).id <= self.last_id
        &&& ascending(self.rows)
    }

    /// No id is left to assign.
    pub open spec fn is_full(self) -> bool {
        self.last_id >= MAX_TASK_ID
    }

    /// The row that an insert for `user_id` adds.
    pub open spec fn new_row(self, user_id: int, new_task: NewTaskView) -> TaskView {
        TaskView {
            id: self.last_id + 1,
            title: new_task.title,
            description: new_task.description,
            completed: false,
            user_id,
        }
    }

    /// The table after an insert for `user_id`.
    pub open spec fn insert(self, user_id: int, new_task: NewTaskView) -> Table {
        Table { rows: self.rows.push(self.new_row(user_id, new_task)), last_id: self.last_id + 1 }
    }

    /// The rows that `user_id` owns, in table order.
    pub open spec fn list(self, user_id: int) -> Seq<TaskView> {
        self.rows.filter(owned_by(user_id))
    }

    /// The rows with id `task_id` that `user_id` owns.
    pub open spec fn selected(self, user_id: int, task_id: int) -> Seq<TaskView> {
        self.rows.filter(addressed_by(user_id, task_id))
    }

    /// The first row with id `task_id` that `user_id` owns, if there is one.
    pub open spec fn get(self, user_id: int, task_id: int) -> Option<TaskView> {
        let hits = self.selected(user_id, task_id);
        if hits.len() > 0 {
            Some(hits[0])
        } else {
            None
        }
    }

    /// The table after an update of `(task_id, user_id)`.
    pub open spec fn update(self, user_id: int, task_id: int, new_task: NewTaskView) -> Table {
        Table { rows: self.rows.map_values(revise(user_id, task_id, new_task)), ..self }
    }

    /// The table after a delete of `(task_id, user_id)`.
    pub open spec fn delete(self, user_id: int, task_id: int) -> Table {
        Table { rows: self.rows.filter(spared_by(user_id, task_id)), ..self }
    }
}

/// A filter keeps ascending ids ascending, and every row it leaves is a row
/// of the sequence it was given.
pub proof fn lemma_filter_ascending(rows: Seq<TaskView>, pred: spec_fn(TaskView) -> bool)
    requires
        ascending(rows),
    ensures
        ascending(rows.filter(pred)),
        forall|i: int|
            0 <= i < rows.filter(pred).len() ==> rows.contains(#[trigger] rows.filter(pred)[i])
                && pred(rows.filter(pred)[i]),
    decreases rows.len(),
{
    reveal(Seq::filter);
    if rows.len() > 0 {
        let front = rows.drop_last();
        lemma_filter_ascending(front, pred);
        let kept = front.filter(pred);
        assert forall|i: int| 0 <= i < kept.len() implies rows.contains(#[trigger] kept[i])
            && kept[i].id < rows.last().id by {
            let at = choose|at: int| 0 <= at < front.len() && front[at] == kept[i];
            assert(rows[at] == kept[i]);
        }
        if pred(rows.last()) {
            assert(rows[rows.len() - 1] == rows.last());
        }
    }
}

/// An insert keeps a table well formed as long as an id is left to assign.
pub proof fn lemma_insert_wf(table: Table, user_id: int, new_task: NewTaskView)
    requires
        table.wf(),
        !table.is_full(),
    ensures
        table.insert(user_id, new_task).wf(),
{
}

/// An update keeps a table well formed. It changes neither the number of rows
/// nor the id, the owner or the completion flag of any row.
pub proof fn lemma_update_wf(table: Table, user_id: int, task_id: int, new_task: NewTaskView)
    requires
        table.wf(),
    ensures
        table.update(user_id, task_id, new_task).wf(),
        table.update(user_id, task_id, new_task).rows.len() == table.rows.len(),
        forall|i: int|
            #![trigger table.update(user_id, task_id, new_task).rows[i]]
            0 <= i < table.rows.len() ==> {
                let before = table.rows[i];
                let after = table.update(user_id, task_id, new_task).rows[i];
                &&& after.id == before.id
                &&& after.user_id == before.user_id
                &&& after.completed == before.completed
            },
{
}

/// A delete keeps a table well formed.
pub proof fn lemma_delete_wf(table: Table, user_id: int, task_id: int)
    requires
        table.wf(),
    ensures
        table.delete(user_id, task_id).wf(),
{
    let spared = spared_by(user_id, task_id);
    lemma_filter_ascending(table.rows, spared);
    let left = table.rows.filter(spared);
    assert forall|i: int| 0 <= i < left.len() implies 1 <= (#[trigger] left[i]).id
        <= table.last_id by {
        let at = choose|at: int| 0 <= at < table.rows.len() && table.rows[at] == left[i];
        assert(1 <= table.rows[at].id <= table.last_id);
    }
}

/// Uniqueness of ids: in a well-formed table an id and an owner together
/// select at most one row, so no update or delete affects more than one.
pub proof fn lemma_at_most_one_selected(table: Table, user_id: int, task_id: int)
    requires
        table.wf(),
    ensures
        table.selected(user_id, task_id).len() <= 1,
{
    let hits = table.selected(user_id, task_id);
    lemma_filter_ascending(table.rows, addressed_by(user_id, task_id));
    if hits.len() > 1 {
        assert(hits[0].id == task_id);
        assert(hits[1].id == task_id);
        assert(hits[0].id < hits[1].id);
    }
}

/// Round trip: a task that was created for `user_id` is found again under the
/// id it was given and `user_id`, with the title and the description it was
/// created from, not completed, and owned by `user_id`.
pub proof fn lemma_get_after_insert(table: Table, user_id: int, new_task: NewTaskView)
    requires
        table.wf(),
        !table.is_full(),
    ensures
        table.insert(user_id, new_task).get(user_id, table.last_id + 1) == Some(
            TaskView {
                id: table.last_id + 1,
                title: new_task.title,
                description: new_task.description,
                completed: false,
                user_id,
            },
        ),
{
    let after = table.insert(user_id, new_task);
    lemma_first_hit(after.rows, addressed_by(user_id, table.last_id + 1), table.rows.len() as int);
}

/// Deleting what is not there: where no row has id `task_id` and owner
/// `user_id`, a delete affects no row and leaves the table as it was, so
/// every repetition of the call meets the same table and answers the same.
pub proof fn lemma_delete_absent(table: Table, user_id: int, task_id: int)
    requires
        table.get(user_id, task_id) is None,
    ensures
        !one_row_affected(table.selected(user_id, task_id).len() as int),
        table.delete(user_id, task_id) == table,
{
    lemma_no_hit(table.rows, addressed_by(user_id, task_id));
    lemma_filter_all(table.rows, spared_by(user_id, task_id));
}

/// After a delete of `(task_id, user_id)`, whatever it removed, no row with
/// that id and owner is left: a second delete finds nothing.
pub proof fn lemma_deleted_is_absent(table: Table, user_id: int, task_id: int)
    ensures
        table.delete(user_id, task_id).get(user_id, task_id) is None,
        table.delete(user_id, task_id).selected(user_id, task_id).len() == 0,
        table.delete(user_id, task_id).delete(user_id, task_id) == table.delete(
            user_id,
            task_id,
        ),
{
    let left = table.delete(user_id, task_id);
    assert forall|i: int| 0 <= i < left.rows.len() implies !addressed_by(user_id, task_id)(
        #[trigger] left.rows[i],
    ) by {
        table.rows.lemma_filter_pred(spared_by(user_id, task_id), i);
    }
    lemma_filter_none(left.rows, addressed_by(user_id, task_id));
    lemma_filter_all(left.rows, spared_by(user_id, task_id));
}

/// Ownership isolation: a row is invisible to every user but its owner. Under
/// another user id a get of the row's id finds nothing, and an update or a
/// delete of it affects no row and leaves the table as it was.
pub proof fn lemma_row_is_isolated(table: Table, i: int, other: int, revision: NewTaskView)
    requires
        table.wf(),
        0 <= i < table.rows.len(),
        table.rows[i].user_id != other,
    ensures
        table.get(other, table.rows[i].id) is None,
        table.selected(other, table.rows[i].id).len() == 0,
        table.update(other, table.rows[i].id, revision) == table,
        table.delete(other, table.rows[i].id) == table,
{
    let id = table.rows[i].id;
    assert forall|j: int| 0 <= j < table.rows.len() implies !addressed_by(other, id)(
        #[trigger] table.rows[j],
    ) by {
        if j < i {
            assert(table.rows[j].id < table.rows[i].id);
        } else if i < j {
            assert(table.rows[i].id < table.rows[j].id);
        }
    }
    lemma_filter_none(table.rows, addressed_by(other, id));
    lemma_filter_all(table.rows, spared_by(other, id));
    assert(table.rows.map_values(revise(other, id, revision)) =~= table.rows);
}

/// Ownership isolation of a new task: a task created for `owner` cannot be
/// fetched, updated or deleted under any other user id.
pub proof fn lemma_created_task_is_isolated(
    table: Table,
    owner: int,
    other: int,
    new_task: NewTaskView,
    revision: NewTaskView,
)
    requires
        table.wf(),
        !table.is_full(),
        owner != other,
    ensures
        ({
            let after = table.insert(owner, new_task);
            let id = table.last_id + 1;
            &&& after.get(other, id) is None
            &&& after.selected(other, id).len() == 0
            &&& after.update(other, id, revision) == after
            &&& after.delete(other, id) == after
        }),
{
    let after = table.insert(owner, new_task);
    lemma_row_is_isolated(after, table.rows.len() as int, other, revision);
}

/// List ordering: the list of a user holds that user's rows and no others,
/// each once, in ascending order of id.
pub proof fn lemma_list_ascending(table: Table, user_id: int)
    requires
        table.wf(),
    ensures
        ascending(table.list(user_id)),
        forall|i: int|
            0 <= i < table.list(user_id).len() ==> (#[trigger] table.list(user_id)[i]).user_id
                == user_id && table.rows.contains(table.list(user_id)[i]),
        forall|i: int|
            0 <= i < table.rows.len() && (#[trigger] table.rows[i]).user_id == user_id
                ==> table.list(user_id).contains(table.rows[i]),
{
    lemma_filter_ascending(table.rows, owned_by(user_id));
    assert forall|i: int|
        0 <= i < table.rows.len() && (#[trigger] table.rows[i]).user_id
            == user_id implies table.list(user_id).contains(table.rows[i]) by {
        table.rows.lemma_filter_contains(owned_by(user_id), i);
    }
}

/// A new task goes to the end of its owner's list and into no other list.
pub proof fn lemma_insert_appends(table: Table, owner: int, user_id: int, new_task: NewTaskView)
    ensures
        table.insert(owner, new_task).list(user_id) == if user_id == owner {
            table.list(user_id).push(table.new_row(owner, new_task))
        } else {
            table.list(user_id)
        },
{
    table.rows.lemma_filter_push(table.new_row(owner, new_task), owned_by(user_id));
}

/// List ordering of three creates: tasks created one after the other for one
/// user come last in that user's list, in the order of their creation, which
/// is the order of their ids.
pub proof fn lemma_three_inserts_in_order(
    table: Table,
    user_id: int,
    a: NewTaskView,
    b: NewTaskView,
    c: NewTaskView,
)
    requires
        table.wf(),
        table.last_id + 3 <= MAX_TASK_ID,
    ensures
        ({
            let with_a = table.insert(user_id, a);
            let with_b = with_a.insert(user_id, b);
            let with_c = with_b.insert(user_id, c);
            let row_a = table.new_row(user_id, a);
            let row_b = with_a.new_row(user_id, b);
            let row_c = with_b.new_row(user_id, c);
            &&& with_c.list(user_id) == table.list(user_id).push(row_a).push(row_b).push(row_c)
            &&& row_a.id < row_b.id < row_c.id
            &&& ascending(with_c.list(user_id))
        }),
{
    let with_a = table.insert(user_id, a);
    let with_b = with_a.insert(user_id, b);
    let with_c = with_b.insert(user_id, c);
    lemma_insert_appends(table, user_id, user_id, a);
    lemma_insert_appends(with_a, user_id, user_id, b);
    lemma_insert_appends(with_b, user_id, user_id, c);
    lemma_insert_wf(table, user_id, a);
    lemma_insert_wf(with_a, user_id, b);
    lemma_insert_wf(with_b, user_id, c);
    lemma_list_ascending(with_c, user_id);
}

/// An update shows in the next fetch: the task that a get found before the
/// update is found after it with the new title and description and is
/// otherwise the same; where the get found nothing, it still finds nothing.
pub proof fn lemma_get_after_update(
    table: Table,
    user_id: int,
    task_id: int,
    new_task: NewTaskView,
)
    requires
        table.wf(),
    ensures
        table.update(user_id, task_id, new_task).get(user_id, task_id) == match table.get(
            user_id,
            task_id,
        ) {
            Some(row) => Some(row.revised(new_task)),
            None => None,
        },
{
    let selection = addressed_by(user_id, task_id);
    let after = table.update(user_id, task_id, new_task);
    if table.selected(user_id, task_id).len() == 0 {
        lemma_no_hit(table.rows, selection);
        assert(after.rows =~= table.rows);
    } else {
        lemma_filter_ascending(table.rows, selection);
        let hit = table.selected(user_id, task_id)[0];
        let k = choose|k: int| 0 <= k < table.rows.len() && table.rows[k] == hit;
        assert forall|j: int| 0 <= j < table.rows.len() && j != k implies !selection(
            #[trigger] table.rows[j],
        ) && !selection(after.rows[j]) by {
            if j < k {
                assert(table.rows[j].id < table.rows[k].id);
            } else {
                assert(table.rows[k].id < table.rows[j].id);
            }
        }
        lemma_only_hit(table.rows, selection, k);
        lemma_only_hit(after.rows, selection, k);
    }
}

/// An update reaches one task only: a get of any other id, or under any other
/// user id, finds after the update what it found before, and every list but
/// that of `user_id` is as it was.
pub proof fn lemma_update_leaves_the_rest(
    table: Table,
    user_id: int,
    task_id: int,
    new_task: NewTaskView,
    other_user: int,
    other_task: int,
)
    requires
        other_user != user_id || other_task != task_id,
    ensures
        table.update(user_id, task_id, new_task).get(other_user, other_task) == table.get(
            other_user,
            other_task,
        ),
        other_user != user_id ==> table.update(user_id, task_id, new_task).list(other_user)
            == table.list(other_user),
{
    let change = revise(user_id, task_id, new_task);
    lemma_filter_of_unmoved(table.rows, change, addressed_by(other_user, other_task));
    if other_user != user_id {
        lemma_filter_of_unmoved(table.rows, change, owned_by(other_user));
    }
}

/// A delete reaches one task only: a get of any other id, or under any other
/// user id, finds after the delete what it found before, and every list but
/// that of `user_id` is as it was.
pub proof fn lemma_delete_leaves_the_rest(
    table: Table,
    user_id: int,
    task_id: int,
    other_user: int,
    other_task: int,
)
    requires
        other_user != user_id || other_task != task_id,
    ensures
        table.delete(user_id, task_id).get(other_user, other_task) == table.get(
            other_user,
            other_task,
        ),
        other_user != user_id ==> table.delete(user_id, task_id).list(other_user) == table.list(
            other_user,
        ),
{
    let rest = spared_by(user_id, task_id);
    lemma_filter_of_filtered(table.rows, rest, addressed_by(other_user, other_task));
    if other_user != user_id {
        lemma_filter_of_filtered(table.rows, rest, owned_by(other_user));
    }
}

} // verus!

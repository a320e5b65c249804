//! The request handlers, one per route.
//!
//! Each handler lets the ownership guard judge the path user id, runs one
//! store operation and maps what came of it to a response. The functions
//! whose names end in `_response` are the last step alone: they serve a
//! caller that runs the store operation elsewhere.

use vstd::prelude::*;
use crate::models::{NewTask, NewTaskView, Task, TaskView, optional_task_view, task_views};
use crate::errors::{ApiError, StoreError};
use crate::response::{
    Body, BodyView, Response, ResponseView, Status, empty_reply, empty_response,
    error_reply, error_response,
};
use crate::store::TaskStore;
use crate::table::{
    Table, lemma_at_most_one_selected, lemma_created_task_is_isolated,
    lemma_delete_absent, lemma_deleted_is_absent, lemma_get_after_insert,
    lemma_get_after_update, one_row_affected,
};
use crate::utils::{authorize, is_authorized};

verus! {

/// The body of a create or an update request.
#[derive(Debug, PartialEq, Eq)]
pub struct CreateTaskRequest {
    pub title: String,
    pub description: String,
}

impl View for CreateTaskRequest {
    type V = NewTaskView;

    open spec fn view(&self) -> NewTaskView {
        NewTaskView { title: self.title@, description: self.description@ }
    }
}

impl CreateTaskRequest {
    /// The payload that the store takes: the title and the description of
    /// the request.
    pub fn into_new_task(self) -> (new_task: NewTask)
        ensures
            new_task@ == self@,
    {
        NewTask { title: self.title, description: self.description }
    }
}

/// 201 with the created task.
pub open spec fn created_reply(task: TaskView) -> ResponseView {
    ResponseView { status: Status::Created, body: BodyView::Task(task) }
}

/// 200 with one task.
pub open spec fn task_reply(task: TaskView) -> ResponseView {
    ResponseView { status: Status::Success, body: BodyView::Task(task) }
}

/// 200 with a sequence of tasks.
pub open spec fn tasks_reply(tasks: Seq<TaskView>) -> ResponseView {
    ResponseView { status: Status::Success, body: BodyView::Tasks(tasks) }
}

/// 200 with the task, or 404 without one.
pub open spec fn lookup_reply(found: Option<TaskView>) -> ResponseView {
    match found {
        Some(task) => task_reply(task),
        None => error_reply(ApiError::NotFound),
    }
}

/// 204 where a row changed, 404 where none did.
pub open spec fn change_reply(changed: bool) -> ResponseView {
    if changed {
        empty_reply(Status::NoContent)
    } else {
        error_reply(ApiError::NotFound)
    }
}

/// What `create_task` answers on a store that holds `table`.
pub open spec fn create_task_reply(table: Table, user_id: int, request: NewTaskView)
    -> ResponseView {
    if !is_authorized(user_id) {
        error_reply(ApiError::Forbidden)
    } else if table.is_full() {
        error_reply(ApiError::StoreError)
    } else {
        created_reply(table.new_row(user_id, request))
    }
}

/// What `create_task` leaves of a store that holds `table`.
pub open spec fn create_task_effect(table: Table, user_id: int, request: NewTaskView) -> Table {
    if is_authorized(user_id) && !table.is_full() {
        table.insert(user_id, request)
    } else {
        table
    }
}

/// What `get_tasks` answers on a store that holds `table`.
pub open spec fn get_tasks_reply(table: Table, user_id: int) -> ResponseView {
    if !is_authorized(user_id) {
        error_reply(ApiError::Forbidden)
    } else {
        tasks_reply(table.list(user_id))
    }
}

/// What `get_task` answers on a store that holds `table`.
pub open spec fn get_task_reply(table: Table, user_id: int, task_id: int) -> ResponseView {
    if !is_authorized(user_id) {
        error_reply(ApiError::Forbidden)
    } else {
        lookup_reply(table.get(user_id, task_id))
    }
}

/// What `update_task` and `delete_task` answer on a store that holds `table`.
pub open spec fn change_task_reply(table: Table, user_id: int, task_id: int) -> ResponseView {
    if !is_authorized(user_id) {
        error_reply(ApiError::Forbidden)
    } else {
        change_reply(one_row_affected(table.selected(user_id, task_id).len() as int))
    }
}

/// What `update_task` leaves of a store that holds `table`.
pub open spec fn update_task_effect(
    table: Table,
    user_id: int,
    task_id: int,
    request: NewTaskView,
) -> Table {
    if is_authorized(user_id) {
        table.update(user_id, task_id, request)
    } else {
        table
    }
}

/// What `delete_task` leaves of a store that holds `table`.
pub open spec fn delete_task_effect(table: Table, user_id: int, task_id: int) -> Table {
    if is_authorized(user_id) {
        table.delete(user_id, task_id)
    } else {
        table
    }
}

/// The response to the outcome of an insert: 201 with the inserted task, or
/// 500 where the store failed.
pub fn create_task_response(outcome: Result<Task, StoreError>) -> (response: Response)
    ensures
        response@ == match outcome {
            Ok(task) => created_reply(task@),
            Err(_) => error_reply(ApiError::StoreError),
        },
{
    match outcome {
        Ok(task) => Response { status: Status::Created, body: Body::Task(task) },
        Err(_) => error_response(ApiError::StoreError),
    }
}

/// The response to the outcome of a listing: 200 with the tasks, or 500
/// where the store failed.
pub fn get_tasks_response(outcome: Result<Vec<Task>, StoreError>) -> (response: Response)
    ensures
        response@ == match outcome {
            Ok(tasks) => tasks_reply(task_views(tasks@)),
            Err(_) => error_reply(ApiError::StoreError),
        },
{
    match outcome {
        Ok(tasks) => Response { status: Status::Success, body: Body::Tasks(tasks) },
        Err(_) => error_response(ApiError::StoreError),
    }
}

/// The response to the outcome of a lookup: 200 with the task, 404 where
/// there is none, or 500 where the store failed.
pub fn get_task_response(outcome: Result<Option<Task>, StoreError>) -> (response: Response)
    ensures
        response@ == match outcome {
            Ok(found) => lookup_reply(optional_task_view(found)),
            Err(_) => error_reply(ApiError::StoreError),
        },
{
    match outcome {
        Ok(Some(task)) => Response { status: Status::Success, body: Body::Task(task) },
        Ok(None) => error_response(ApiError::NotFound),
        Err(_) => error_response(ApiError::StoreError),
    }
}

/// The response to the outcome of an update: 204 where a row changed, 404
/// where none did, or 500 where the store failed.
pub fn update_task_response(outcome: Result<bool, StoreError>) -> (response: Response)
    ensures
        response@ == match outcome {
            Ok(changed) => change_reply(changed),
            Err(_) => error_reply(ApiError::StoreError),
        },
{
    match outcome {
        Ok(true) => empty_response(Status::NoContent),
        Ok(false) => error_response(ApiError::NotFound),
        Err(_) => error_response(ApiError::StoreError),
    }
}

/// The response to the outcome of a delete: 204 where a row changed, 404
/// where none did, or 500 where the store failed.
pub fn delete_task_response(outcome: Result<bool, StoreError>) -> (response: Response)
    ensures
        response@ == match outcome {
            Ok(changed) => change_reply(changed),
            Err(_) => error_reply(ApiError::StoreError),
        },
{
    match outcome {
        Ok(true) => empty_response(Status::NoContent),
        Ok(false) => error_response(ApiError::NotFound),
        Err(_) => error_response(ApiError::StoreError),
    }
}

/// Creates a task for `user_id` from the request body.
///
/// 403 where the guard refuses `user_id`, and the store is not touched; 500
/// where the store has no id left; else 201 with the created task, which has
/// the next id, is not completed and belongs to `user_id`.
pub fn create_task(store: &mut TaskStore, user_id: i32, task: CreateTaskRequest) -> (response:
    Response)
    ensures
        response@ == create_task_reply(old(store)@, user_id as int, task@),
        final(store)@ == create_task_effect(old(store)@, user_id as int, task@),
{
    if let Err(refusal) = authorize(user_id) {
        return error_response(refusal);
    }
    let new_task = task.into_new_task();
    create_task_response(store.create(user_id, &new_task))
}

/// Lists the tasks of `user_id` in ascending order of id.
///
/// 403 where the guard refuses `user_id`; else 200 with the tasks.
pub fn get_tasks(store: &TaskStore, user_id: i32) -> (response: Response)
    ensures
        response@ == get_tasks_reply(store@, user_id as int),
{
    if let Err(refusal) = authorize(user_id) {
        return error_response(refusal);
    }
    get_tasks_response(Ok(store.list(user_id)))
}

/// Fetches the task with id `task_id` of `user_id`.
///
/// 403 where the guard refuses `user_id`; 404 where `user_id` owns no task
/// with that id, whether or not another user does; else 200 with the task.
pub fn get_task(store: &TaskStore, user_id: i32, task_id: i32) -> (response: Response)
    ensures
        response@ == get_task_reply(store@, user_id as int, task_id as int),
{
    if let Err(refusal) = authorize(user_id) {
        return error_response(refusal);
    }
    get_task_response(Ok(store.get(user_id, task_id)))
}

/// Replaces title and description of the task with id `task_id` of `user_id`
/// by those of the request body. Both are always replaced together.
///
/// 403 where the guard refuses `user_id`, and the store is not touched; 404
/// where `user_id` owns no task with that id; else 204.
pub fn update_task(
    store: &mut TaskStore,
    user_id: i32,
    task_id: i32,
    updated_task: CreateTaskRequest,
) -> (response: Response)
    ensures
        response@ == change_task_reply(old(store)@, user_id as int, task_id as int),
        final(store)@ == update_task_effect(
            old(store)@,
            user_id as int,
            task_id as int,
            updated_task@,
        ),
{
    if let Err(refusal) = authorize(user_id) {
        return error_response(refusal);
    }
    let updated_task = updated_task.into_new_task();
    update_task_response(Ok(store.update(user_id, task_id, &updated_task)))
}

/// Deletes the task with id `task_id` of `user_id`.
///
/// 403 where the guard refuses `user_id`, and the store is not touched; 404
/// where `user_id` owns no task with that id; else 204.
pub fn delete_task(store: &mut TaskStore, user_id: i32, task_id: i32) -> (response: Response)
    ensures
        response@ == change_task_reply(old(store)@, user_id as int, task_id as int),
        final(store)@ == delete_task_effect(old(store)@, user_id as int, task_id as int),
{
    if let Err(refusal) = authorize(user_id) {
        return error_response(refusal);
    }
    delete_task_response(Ok(store.delete(user_id, task_id)))
}

/// The guard comes first: under a user id that is not positive every route
/// answers 403 with the guard's text and leaves the table as it was,
/// whatever the table holds and whatever else the request carries. No
/// handler reads a credential, so a valid one changes nothing about this.
pub proof fn lemma_guard_refuses(table: Table, user_id: int, task_id: int, request: NewTaskView)
    requires
        user_id <= 0,
    ensures
        create_task_reply(table, user_id, request) == error_reply(ApiError::Forbidden),
        get_tasks_reply(table, user_id) == error_reply(ApiError::Forbidden),
        get_task_reply(table, user_id, task_id) == error_reply(ApiError::Forbidden),
        change_task_reply(table, user_id, task_id) == error_reply(ApiError::Forbidden),
        create_task_effect(table, user_id, request) == table,
        update_task_effect(table, user_id, task_id, request) == table,
        delete_task_effect(table, user_id, task_id) == table,
        error_reply(ApiError::Forbidden).status.spec_code() == 403,
{
}

/// Create, then fetch: where the guard admits `user_id` and the table has an
/// id left, `create_task` answers 201 with the new task, and a `get_task` of
/// its id under `user_id` then answers 200 with the same task.
pub proof fn lemma_created_task_is_served(table: Table, user_id: int, request: NewTaskView)
    requires
        table.wf(),
        !table.is_full(),
        is_authorized(user_id),
    ensures
        create_task_reply(table, user_id, request) == created_reply(
            table.new_row(user_id, request),
        ),
        get_task_reply(
            create_task_effect(table, user_id, request),
            user_id,
            table.last_id + 1,
        ) == task_reply(table.new_row(user_id, request)),
{
    lemma_get_after_insert(table, user_id, request);
}

/// Update, then fetch: where `user_id` owns a task with id `task_id`,
/// `update_task` answers 204, and a `get_task` then answers 200 with the task
/// as it was but for the new title and description.
pub proof fn lemma_updated_task_is_served(
    table: Table,
    user_id: int,
    task_id: int,
    request: NewTaskView,
)
    requires
        table.wf(),
        is_authorized(user_id),
        table.get(user_id, task_id) is Some,
    ensures
        change_task_reply(table, user_id, task_id) == empty_reply(Status::NoContent),
        get_task_reply(
            update_task_effect(table, user_id, task_id, request),
            user_id,
            task_id,
        ) == task_reply(table.get(user_id, task_id)->Some_0.revised(request)),
{
    lemma_at_most_one_selected(table, user_id, task_id);
    lemma_get_after_update(table, user_id, task_id, request);
}

/// Delete, then fetch: where `user_id` owns a task with id `task_id`,
/// `delete_task` answers 204, and a `get_task` then answers 404, as does a
/// second `delete_task`.
pub proof fn lemma_deleted_task_is_gone(table: Table, user_id: int, task_id: int)
    requires
        table.wf(),
        is_authorized(user_id),
        table.get(user_id, task_id) is Some,
    ensures
        change_task_reply(table, user_id, task_id) == empty_reply(Status::NoContent),
        get_task_reply(delete_task_effect(table, user_id, task_id), user_id, task_id)
            == error_reply(ApiError::NotFound),
        change_task_reply(delete_task_effect(table, user_id, task_id), user_id, task_id)
            == error_reply(ApiError::NotFound),
{
    lemma_at_most_one_selected(table, user_id, task_id);
    lemma_deleted_is_absent(table, user_id, task_id);
}

/// Deleting what is not there: where the guard admits `user_id` and
/// `user_id` owns no task with id `task_id`, `delete_task` answers 404 and
/// leaves the table as it was, so it answers 404 again however often the
/// call is repeated.
pub proof fn lemma_delete_absent_is_not_found(table: Table, user_id: int, task_id: int)
    requires
        is_authorized(user_id),
        table.get(user_id, task_id) is None,
    ensures
        change_task_reply(table, user_id, task_id) == error_reply(ApiError::NotFound),
        delete_task_effect(table, user_id, task_id) == table,
{
    lemma_delete_absent(table, user_id, task_id);
}

/// Ownership isolation: a task created for `owner` is out of reach for every
/// other user, though the guard admits that user too. Under the other user id
/// `get_task`, `update_task` and `delete_task` of the task's id answer 404,
/// and neither changes the table.
pub proof fn lemma_other_user_gets_not_found(
    table: Table,
    owner: int,
    other: int,
    request: NewTaskView,
    revision: NewTaskView,
)
    requires
        table.wf(),
        !table.is_full(),
        is_authorized(owner),
        is_authorized(other),
        owner != other,
    ensures
        ({
            let after = create_task_effect(table, owner, request);
            let id = table.last_id + 1;
            &&& create_task_reply(table, owner, request).status == Status::Created
            &&& get_task_reply(after, other, id) == error_reply(ApiError::NotFound)
            &&& change_task_reply(after, other, id) == error_reply(ApiError::NotFound)
            &&& update_task_effect(after, other, id, revision) == after
            &&& delete_task_effect(after, other, id) == after
        }),
{
    lemma_created_task_is_isolated(table, owner, other, request, revision);
}

} // verus!

//! Responses: a status and a body.

use vstd::prelude::*;
use vstd::string::StringExecFns;
use crate::errors::ApiError;
use crate::models::{Task, TaskView, task_views};

verus! {

/// The status line of a response.
#[derive(Debug, Clone, Copy, PartialEq, Eq, Structural)]
pub enum Status {
    Success,
    Created,
    NoContent,
    Unauthorized,
    Forbidden,
    NotFound,
    InternalServerError,
}

impl Status {
    /// The status code on the wire.
    pub open spec fn spec_code(self) -> int {
        match self {
            Status::Success => 200,
            Status::Created => 201,
            Status::NoContent => 204,
            Status::Unauthorized => 401,
            Status::Forbidden => 403,
            Status::NotFound => 404,
            Status::InternalServerError => 500,
        }
    }

    /// The status code on the wire.
    pub fn code(&self) -> (code: u16)
        ensures
            code == self.spec_code(),
    {
        match self {
            Status::Success => 200,
            Status::Created => 201,
            Status::NoContent => 204,
            Status::Unauthorized => 401,
            Status::Forbidden => 403,
            Status::NotFound => 404,
            Status::InternalServerError => 500,
        }
    }
}

/// What a response carries behind its status line.
#[derive(Debug, PartialEq, Eq)]
pub enum Body {
    /// Nothing.
    Empty,
    /// A plain text.
    Text(String),
    /// One task.
    Task(Task),
    /// A sequence of tasks.
    Tasks(Vec<Task>),
}

/// A response: a status and a body.
#[derive(Debug, PartialEq, Eq)]
pub struct Response {
    pub status: Status,
    pub body: Body,
}

/// What a [`Body`] is to a contract.
pub enum BodyView {
    Empty,
    Text(Seq<char>),
    Task(TaskView),
    Tasks(Seq<TaskView>),
}

/// What a [`Response`] is to a contract.
pub struct ResponseView {
    pub status: Status,
    pub body: BodyView,
}

impl View for Body {
    type V = BodyView;

    open spec fn view(&self) -> BodyView {
        match self {
            Body::Empty => BodyView::Empty,
            Body::Text(text) => BodyView::Text(text@),
            Body::Task(task) => BodyView::Task(task@),
            Body::Tasks(tasks) => BodyView::Tasks(task_views(tasks@)),
        }
    }
}

impl View for Response {
    type V = ResponseView;

    open spec fn view(&self) -> ResponseView {
        ResponseView { status: self.status, body: self.body@ }
    }
}

/// The text that a refusal by the ownership guard carries.
pub open spec fn invalid_user_id_text() -> Seq<char> {
    "Invalid user ID"@
}

/// The response that reports `error`: its status, and a text only where the
/// ownership guard refused. No failure tells its cause.
pub open spec fn error_reply(error: ApiError) -> ResponseView {
    ResponseView {
        status: error.spec_status(),
        body: match error {
            ApiError::Forbidden => BodyView::Text(invalid_user_id_text()),
            _ => BodyView::Empty,
        },
    }
}

/// A response with status `status` and no body.
pub open spec fn empty_reply(status: Status) -> ResponseView {
    ResponseView { status, body: BodyView::Empty }
}

/// The response that reports `error`.
pub fn error_response(error: ApiError) -> (response: Response)
    ensures
        response@ == error_reply(error),
{
    let body = match error {
        ApiError::Forbidden => Body::Text(String::from_str("Invalid user ID")),
        _ => Body::Empty,
    };
    Response { status: error.status(), body }
}

/// A response with status `status` and no body.
pub fn empty_response(status: Status) -> (response: Response)
    ensures
        response@ == empty_reply(status),
{
    Response { status, body: Body::Empty }
}

} // verus!

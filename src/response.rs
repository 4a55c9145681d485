//! Errors, and the mapping from an operation's outcome to an HTTP response
//! with a uniform envelope.
use vstd::prelude::*;
use vstd::string::*;
use crate::model::TaskModel;

verus! {

/// What can go wrong in handling a request.
#[derive(Debug)]
pub enum ApiError {
    /// The request's shape, identifier or parameters are malformed.
    Validation(String),
    /// No task has the identifier asked for.
    NotFound(String),
    /// The store rejected or failed the operation.
    Storage(String),
}

impl ApiError {
    /// The HTTP status of each kind of error.
    pub open spec fn code(&self) -> u16 {
        match self {
            ApiError::Validation(_) => 400,
            ApiError::NotFound(_) => 404,
            ApiError::Storage(_) => 500,
        }
    }

    /// The HTTP status of this error.
    pub fn status_code(&self) -> (r: u16)
        ensures
            r == self.code(),
    {
        match self {
            ApiError::Validation(_) => 400,
            ApiError::NotFound(_) => 404,
            ApiError::Storage(_) => 500,
        }
    }
}

/// The payload of a response envelope.
#[derive(Debug)]
pub enum Body {
    /// Success with one task.
    Task(TaskModel),
    /// Success with a list of tasks and their count.
    TaskList { result: usize, tasks: Vec<TaskModel> },
    /// Success with a message.
    Message(String),
    /// A request the client got wrong: malformed, or naming no task.
    Fail(String),
    /// A failure of the store.
    Error(String),
    /// Success with no body.
    Empty,
}

impl Body {
    /// The envelope's `status` word: `success`, `fail` or `error`.
    pub fn status_word(&self) -> (r: &'static str)
        ensures
            self is Fail ==> r@ == "fail"@,
            self is Error ==> r@ == "error"@,
            !(self is Fail) && !(self is Error) ==> r@ == "success"@,
    {
        match self {
            Body::Fail(_) => "fail",
            Body::Error(_) => "error",
            _ => "success",
        }
    }
}

/// An HTTP status and the envelope sent with it.
#[derive(Debug)]
pub struct ApiResponse {
    pub status: u16,
    pub body: Body,
}

/// The response for an error: its status, with a `fail` envelope for client
/// errors and an `error` envelope for storage failures, carrying the message.
pub fn error_response(e: ApiError) -> (r: ApiResponse)
    ensures
        r == error_response_spec(e),
        r.status == e.code(),
{
    let status = e.status_code();
    match e {
        ApiError::Validation(m) => ApiResponse { status, body: Body::Fail(m) },
        ApiError::NotFound(m) => ApiResponse { status, body: Body::Fail(m) },
        ApiError::Storage(m) => ApiResponse { status, body: Body::Error(m) },
    }
}

/// The response for an operation that yields one task: 200 with the task, or
/// the error's response.
pub fn task_response(r: Result<TaskModel, ApiError>) -> (resp: ApiResponse)
    ensures
        match r {
            Ok(t) => resp.status == 200 && resp.body == Body::Task(t),
            Err(e) => resp == error_response_spec(e),
        },
{
    match r {
        Ok(t) => ApiResponse { status: 200, body: Body::Task(t) },
        Err(e) => error_response(e),
    }
}

/// The response for a listing: 200 with the tasks and their count, or the
/// error's response.
pub fn list_response(r: Result<Vec<TaskModel>, ApiError>) -> (resp: ApiResponse)
    ensures
        match r {
            Ok(v) => resp.status == 200 && resp.body == (Body::TaskList { result: v.len(), tasks: v }),
            Err(e) => resp == error_response_spec(e),
        },
{
    match r {
        Ok(v) => {
            let n = v.len();
            ApiResponse { status: 200, body: Body::TaskList { result: n, tasks: v } }
        },
        Err(e) => error_response(e),
    }
}

/// The response for a deletion: 204 with no body, or the error's response.
pub fn deleted_response(r: Result<(), ApiError>) -> (resp: ApiResponse)
    ensures
        match r {
            Ok(_) => resp.status == 204 && resp.body == Body::Empty,
            Err(e) => resp == error_response_spec(e),
        },
{
    match r {
        Ok(_) => ApiResponse { status: 204, body: Body::Empty },
        Err(e) => error_response(e),
    }
}

/// The response `error_response` gives for `e`.
pub open spec fn error_response_spec(e: ApiError) -> ApiResponse {
    match e {
        ApiError::Validation(m) => ApiResponse { status: 400, body: Body::Fail(m) },
        ApiError::NotFound(m) => ApiResponse { status: 404, body: Body::Fail(m) },
        ApiError::Storage(m) => ApiResponse { status: 500, body: Body::Error(m) },
    }
}

/// The message of the health check.
pub open spec fn health_message() -> Seq<char> {
    "Health check: API is up and running smoothly."@
}

/// The response of the health check: 200 with a fixed message.
pub fn health_response() -> (r: ApiResponse)
    ensures
        r.status == 200,
        r.body is Message,
        r.body->Message_0@ == health_message(),
{
    ApiResponse { status: 200, body: Body::Message(String::from_str("Health check: API is up and running smoothly.")) }
}

} // verus!

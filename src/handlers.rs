//! The request handlers over an in-memory task table: each checks the
//! request, runs one repository operation and maps the outcome to a response.
use vstd::prelude::*;
use vstd::string::*;
use crate::ident::{parse_task_id, uuid_parse};
use crate::model::TaskView;
use crate::response::{
    ApiError, ApiResponse, deleted_response, error_response,
    health_response, health_message, list_response, task_response,
};
use crate::schema::{CreateTaskSchema, FilterOptions, UpdateTaskSchema};
use crate::store::MemoryStore;

verus! {

/// Reads the identifier of a request path; a validation error where the text
/// is not a UUID.
pub fn parse_id(text: &str) -> (r: Result<u128, ApiError>)
    ensures
        match uuid_parse(text@) {
            Some(v) => r == Ok::<u128, ApiError>(v),
            None => r is Err && r->Err_0 is Validation,
        },
{
    match parse_task_id(text) {
        Some(v) => Ok(v),
        None => Err(ApiError::Validation(String::from_str("malformed task identifier"))),
    }
}

/// `GET /healthchecker`: 200 with a fixed message.
pub fn health_checker() -> (r: ApiResponse)
    ensures
        r.status == 200,
        r.body is Message,
        r.body->Message_0@ == health_message(),
{
    health_response()
}

/// `POST /task`: a request with an empty title gets 400; otherwise the task
/// is stored, stamped with `now`, and returned with 200, or 500 where the store
/// fails.
pub fn create_task(store: &mut MemoryStore, body: &CreateTaskSchema, now: i64) -> (r: ApiResponse)
    requires
        old(store).wf(),
    ensures
        final(store).wf(),
        !body.is_valid() ==> r.status == 400 && r.body is Fail && final(store).rows() == old(store).rows(),
        body.is_valid() && old(store).exhausted() ==> r.status == 500 && r.body is Error
            && final(store).rows() == old(store).rows(),
        body.is_valid() && !old(store).exhausted() ==> {
            &&& r.status == 200
            &&& r.body is Task
            &&& r.body->Task_0@ == (TaskView {
                id: old(store).next_id(),
                title: body.title@,
                content: body.content@,
                created_at: Some(old(store).stamp_for(now)),
            })
            &&& !old(store).has(r.body->Task_0.id)
            &&& final(store).rows() == old(store).rows().push(r.body->Task_0@)
        },
{
    match body.validate() {
        Err(e) => error_response(e),
        Ok(_) => task_response(store.create(body.title.as_str(), body.content.as_str(), now)),
    }
}

/// `GET /tasks`: 200 with the page of tasks that `opts` asks for and their
/// count, or 400 where the page or limit is too large for the store.
pub fn get_all_tasks(store: &MemoryStore, opts: &FilterOptions) -> (r: ApiResponse)
    requires
        store.wf(),
    ensures
        !opts.fits() ==> r.status == 400 && r.body is Fail,
        opts.fits() ==> {
            &&& r.status == 200
            &&& r.body is TaskList
            &&& r.body->tasks@.map_values(|t: crate::model::TaskModel| t@)
                == store.window(opts.first_row(), opts.page_size())
            &&& r.body->result == r.body->tasks@.len()
        },
{
    match opts.window() {
        Err(e) => error_response(e),
        Ok(w) => list_response(Ok(store.list(w))),
    }
}

/// `GET /tasks/{id}`: 400 for a malformed identifier, 404 where no task has
/// it, else 200 with the task.
pub fn get_task(store: &MemoryStore, id_text: &str) -> (r: ApiResponse)
    requires
        store.wf(),
    ensures
        match uuid_parse(id_text@) {
            None => r.status == 400 && r.body is Fail,
            Some(id) => match store.lookup(id) {
                None => r.status == 404 && r.body is Fail,
                Some(t) => r.status == 200 && r.body is Task && r.body->Task_0@ == t,
            },
        },
{
    match parse_id(id_text) {
        Err(e) => error_response(e),
        Ok(id) => task_response(store.get_by_id(id)),
    }
}

/// `PATCH /tasks/{id}`: 400 for a malformed identifier, 404 where no task has
/// it, else the fields that `patch` sets are written, the others kept, and the
/// updated task is returned with 200.
pub fn update_task(store: &mut MemoryStore, id_text: &str, patch: &UpdateTaskSchema) -> (r: ApiResponse)
    requires
        old(store).wf(),
    ensures
        final(store).wf(),
        match uuid_parse(id_text@) {
            None => r.status == 400 && r.body is Fail && final(store).rows() == old(store).rows(),
            Some(id) => match old(store).lookup(id) {
                None => r.status == 404 && r.body is Fail && final(store).rows() == old(store).rows(),
                Some(t) => {
                    &&& r.status == 200
                    &&& r.body is Task
                    &&& r.body->Task_0@ == patch.applied(t)
                    &&& final(store).rows() == old(store).rows().update(old(store).position(id), patch.applied(t))
                },
            },
        },
{
    match parse_id(id_text) {
        Err(e) => error_response(e),
        Ok(id) => task_response(store.update(id, patch)),
    }
}

/// `DELETE /tasks/{id}`: 400 for a malformed identifier, 404 where no task has
/// it, else the task is removed and 204 returned with no body.
pub fn delete_task(store: &mut MemoryStore, id_text: &str) -> (r: ApiResponse)
    requires
        old(store).wf(),
    ensures
        final(store).wf(),
        match uuid_parse(id_text@) {
            None => r.status == 400 && r.body is Fail && final(store).rows() == old(store).rows(),
            Some(id) => if old(store).has(id) {
                &&& r.status == 204
                &&& r.body is Empty
                &&& final(store).rows() == old(store).rows().remove(old(store).position(id))
            } else {
                r.status == 404 && r.body is Fail && final(store).rows() == old(store).rows()
            },
        },
{
    match parse_id(id_text) {
        Err(e) => error_response(e),
        Ok(id) => deleted_response(store.delete(id)),
    }
}

} // verus!

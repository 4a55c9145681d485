//! The request shapes the service accepts: a new task, a partial update, and
//! the paging options of a listing.
use vstd::prelude::*;
use vstd::string::*;
use crate::model::{TaskModel, TaskView};
use crate::response::ApiError;

verus! {

/// Page size used when a listing names none.
pub const DEFAULT_LIMIT: usize = 10;

/// The largest value a limit or offset may take: the store binds both as a
/// signed 64-bit integer.
pub const MAX_WINDOW_BOUND: u64 = 9223372036854775807;

/// The body of a create request: both fields are required.
pub struct CreateTaskSchema {
    pub title: String,
    pub content: String,
}

impl CreateTaskSchema {
    /// A task must have a non-empty title.
    pub open spec fn is_valid(&self) -> bool {
        self.title@.len() > 0
    }

    /// Accepts the request when its title is non-empty.
    pub fn validate(&self) -> (r: Result<(), ApiError>)
        ensures
            r is Ok <==> self.is_valid(),
            r is Err ==> r->Err_0 is Validation,
    {
        if self.title.as_str().is_empty() {
            Err(ApiError::Validation(String::from_str("title must not be empty")))
        } else {
            Ok(())
        }
    }
}

/// The body of an update request: each field is set independently; a field
/// left out keeps its stored value.
pub struct UpdateTaskSchema {
    pub title: Option<String>,
    pub content: Option<String>,
}

impl UpdateTaskSchema {
    /// The task that results from applying this update to `t`.
    pub open spec fn applied(&self, t: TaskView) -> TaskView {
        TaskView {
            id: t.id,
            title: match self.title {
                Some(s) => s@,
                None => t.title,
            },
            content: match self.content {
                Some(s) => s@,
                None => t.content,
            },
            created_at: t.created_at,
        }
    }

    /// True when the update sets no field.
    pub open spec fn is_empty(&self) -> bool {
        self.title is None && self.content is None
    }

    /// Applies this update to `existing`: a set field replaces the stored
    /// value, an unset one keeps it.
    pub fn apply_to(&self, existing: &TaskModel) -> (r: TaskModel)
        ensures
            r@ == self.applied(existing@),
    {
        let title = match &self.title {
            Some(s) => s.clone(),
            None => existing.title.clone(),
        };
        let content = match &self.content {
            Some(s) => s.clone(),
            None => existing.content.clone(),
        };
        TaskModel { id: existing.id, title, content, created_at: existing.created_at }
    }
}

/// A partial update changes exactly the fields it sets: a set field takes the
/// new value, every other field keeps the stored one.
pub proof fn lemma_update_keeps_unset_fields(u: UpdateTaskSchema, t: TaskView)
    ensures
        u.applied(t).id == t.id,
        u.applied(t).created_at == t.created_at,
        u.title is None ==> u.applied(t).title == t.title,
        u.content is None ==> u.applied(t).content == t.content,
        u.title is Some ==> u.applied(t).title == u.title->Some_0@,
        u.content is Some ==> u.applied(t).content == u.content->Some_0@,
{
}

/// An update that sets no field leaves the task as it was.
pub proof fn lemma_empty_update_is_identity(u: UpdateTaskSchema, t: TaskView)
    requires
        u.is_empty(),
    ensures
        u.applied(t) == t,
{
}

/// The paging options of a listing: a 1-based page and a page size.
pub struct FilterOptions {
    pub page: Option<usize>,
    pub limit: Option<usize>,
}

/// The rows a listing asks for: `limit` rows after skipping `offset`.
#[derive(Clone, Copy, Debug, PartialEq, Eq)]
pub struct PageWindow {
    pub limit: u64,
    pub offset: u64,
}

impl FilterOptions {
    /// The page asked for; an absent page, or one below 1, is page 1.
    pub open spec fn page_number(&self) -> int {
        match self.page {
            Some(p) => if p >= 1 { p as int } else { 1 },
            None => 1,
        }
    }

    /// The page size asked for, 10 when absent.
    pub open spec fn page_size(&self) -> int {
        match self.limit {
            Some(l) => l as int,
            None => DEFAULT_LIMIT as int,
        }
    }

    /// The number of rows before the page asked for.
    pub open spec fn first_row(&self) -> int {
        (self.page_number() - 1) * self.page_size()
    }

    /// True when the limit and offset both fit the store's integer type.
    pub open spec fn fits(&self) -> bool {
        self.page_size() <= MAX_WINDOW_BOUND && self.first_row() <= MAX_WINDOW_BOUND
    }

    /// The window of rows this listing asks for: `offset = (page - 1) * limit`
    /// with `page` at least 1. A window too large for the store is a
    /// validation error.
    pub fn window(&self) -> (r: Result<PageWindow, ApiError>)
        ensures
            r is Ok <==> self.fits(),
            r is Ok ==> r->Ok_0.limit == self.page_size() && r->Ok_0.offset == self.first_row(),
            r is Err ==> r->Err_0 is Validation,
    {
        let page: u64 = match self.page {
            Some(p) => if p >= 1 { p as u64 } else { 1 },
            None => 1,
        };
        let limit: u64 = match self.limit {
            Some(l) => l as u64,
            None => DEFAULT_LIMIT as u64,
        };
        if limit > MAX_WINDOW_BOUND {
            return Err(ApiError::Validation(String::from_str("limit is too large")));
        }
        match (page - 1).checked_mul(limit) {
            Some(offset) => {
                if offset <= MAX_WINDOW_BOUND {
                    Ok(PageWindow { limit, offset })
                } else {
                    Err(ApiError::Validation(String::from_str("page is too large")))
                }
            },
            None => Err(ApiError::Validation(String::from_str("page is too large"))),
        }
    }
}

} // verus!

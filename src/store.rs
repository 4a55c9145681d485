//! An in-memory task repository: the five data operations over a table of
//! tasks kept in identifier order.
use vstd::prelude::*;
use vstd::string::*;
use crate::ident::task_id_text;
use crate::model::{TaskModel, TaskView};
use crate::response::ApiError;
use crate::schema::{PageWindow, UpdateTaskSchema};

verus! {

/// The rows of a table from `offset` on, at most `limit` of them.
pub open spec fn window_of(rows: Seq<TaskView>, offset: int, limit: int) -> Seq<TaskView> {
    let start = if offset < rows.len() { offset } else { rows.len() as int };
    let end = if start + limit < rows.len() { start + limit } else { rows.len() as int };
    rows.subrange(start, end)
}

/// The rows of 1-based page `page` when pages hold `limit` rows.
pub open spec fn page_of(rows: Seq<TaskView>, page: int, limit: int) -> Seq<TaskView> {
    window_of(rows, (page - 1) * limit, limit)
}

/// True when the identifiers of `rows` strictly ascend.
pub open spec fn ids_ascending(rows: Seq<TaskView>) -> bool {
    forall|i: int, j: int| 0 <= i < j < rows.len() ==> rows[i].id < rows[j].id
}

/// A task table held in memory. Identifiers are handed out in ascending order
/// from 1, so the table's order is both identifier and insertion order.
pub struct MemoryStore {
    rows: Vec<TaskModel>,
    next_id: u128,
    latest_stamp: i64,
}

impl MemoryStore {
    /// The stored tasks, in ascending identifier order.
    pub closed spec fn rows(&self) -> Seq<TaskView> {
        self.rows@.map_values(|t: TaskModel| t@)
    }

    /// The identifier the next created task receives.
    pub closed spec fn next_id(&self) -> u128 {
        self.next_id
    }

    /// True when no identifier is left to hand out.
    pub closed spec fn exhausted(&self) -> bool {
        self.next_id == u128::MAX
    }

    /// The creation time given to a task created at `now`: never earlier than
    /// that of a task created before it.
    pub closed spec fn stamp_for(&self, now: i64) -> i64 {
        if now > self.latest_stamp { now } else { self.latest_stamp }
    }

    /// The table's invariant: identifiers are non-nil, strictly ascending and
    /// below the next one to hand out; creation times are set and never
    /// decrease along the table.
    pub closed spec fn wf(&self) -> bool {
        &&& self.next_id >= 1
        &&& ids_ascending(self.rows())
        &&& forall|i: int| 0 <= i < self.rows().len() ==> {
            &&& 1 <= #[trigger] self.rows()[i].id < self.next_id
            &&& self.rows()[i].created_at is Some
            &&& self.rows()[i].created_at->Some_0 <= self.latest_stamp
        }
        &&& forall|i: int, j: int| 0 <= i < j < self.rows().len() ==>
            self.rows()[i].created_at->Some_0 <= self.rows()[j].created_at->Some_0
    }

    /// True when a task with identifier `id` is stored.
    pub open spec fn has(&self, id: u128) -> bool {
        exists|i: int| 0 <= i < self.rows().len() && #[trigger] self.rows()[i].id == id
    }

    /// The index of the task with identifier `id`, where there is one.
    pub open spec fn position(&self, id: u128) -> int {
        choose|i: int| 0 <= i < self.rows().len() && #[trigger] self.rows()[i].id == id
    }

    /// The task with identifier `id`, if any.
    pub open spec fn lookup(&self, id: u128) -> Option<TaskView> {
        if self.has(id) { Some(self.rows()[self.position(id)]) } else { None }
    }

    /// The rows a listing of `limit` rows after `offset` returns.
    pub open spec fn window(&self, offset: int, limit: int) -> Seq<TaskView> {
        window_of(self.rows(), offset, limit)
    }

    /// The task at index `i` is the one found by its identifier.
    proof fn lemma_position(&self, i: int)
        requires
            self.wf(),
            0 <= i < self.rows().len(),
        ensures
            self.has(self.rows()[i].id),
            self.position(self.rows()[i].id) == i,
            self.lookup(self.rows()[i].id) == Some(self.rows()[i]),
    {
        let id = self.rows()[i].id;
        assert(self.rows()[i].id == id);
        let p = self.position(id);
        if p < i {
            assert(self.rows()[p].id < self.rows()[i].id);
        } else if p > i {
            assert(self.rows()[i].id < self.rows()[p].id);
        }
    }

    /// An empty table.
    pub fn new() -> (r: MemoryStore)
        ensures
            r.wf(),
            r.rows() == Seq::<TaskView>::empty(),
            !r.exhausted(),
    {
        let r = MemoryStore { rows: Vec::new(), next_id: 1, latest_stamp: i64::MIN };
        assert(r.rows() =~= Seq::<TaskView>::empty());
        r
    }

    /// The index of the task with identifier `id`, if any.
    fn find(&self, id: u128) -> (r: Option<usize>)
        requires
            self.wf(),
        ensures
            r is None <==> !self.has(id),
            r is Some ==> r->Some_0 == self.position(id) && r->Some_0 < self.rows().len(),
    {
        let mut i: usize = 0;
        while i < self.rows.len()
            invariant
                self.wf(),
                i <= self.rows.len(),
                forall|j: int| 0 <= j < i ==> #[trigger] self.rows()[j].id != id,
            decreases self.rows.len() - i,
        {
            if self.rows[i].id == id {
                proof {
                    self.lemma_position(i as int);
                }
                return Some(i);
            }
            i += 1;
        }
        None
    }

    /// Stores a new task with the given title and content, stamped with `now`
    /// (microseconds since the epoch) or, if later, the latest creation time
    /// so far. Returns the stored task. Fails with a storage error only when
    /// no identifier is left.
    pub fn create(&mut self, title: &str, content: &str, now: i64) -> (r: Result<TaskModel, ApiError>)
        requires
            old(self).wf(),
        ensures
            final(self).wf(),
            match r {
                Ok(t) => {
                    &&& !old(self).exhausted()
                    &&& t@ == (TaskView {
                        id: old(self).next_id(),
                        title: title@,
                        content: content@,
                        created_at: Some(old(self).stamp_for(now)),
                    })
                    &&& t.id != 0
                    &&& !old(self).has(t.id)
                    &&& final(self).rows() == old(self).rows().push(t@)
                },
                Err(e) => {
                    &&& old(self).exhausted()
                    &&& e is Storage
                    &&& final(self).rows() == old(self).rows()
                },
            },
    {
        if self.next_id == u128::MAX {
            return Err(ApiError::Storage(String::from_str("no task identifier is left")));
        }
        let stamp = if now > self.latest_stamp { now } else { self.latest_stamp };
        let task = TaskModel {
            id: self.next_id,
            title: String::from_str(title),
            content: String::from_str(content),
            created_at: Some(stamp),
        };
        let out = task.duplicate();
        let ghost before = self.rows();
        self.rows.push(task);
        self.next_id = self.next_id + 1;
        self.latest_stamp = stamp;
        proof {
            assert(self.rows() =~= before.push(out@));
            assert(forall|i: int| 0 <= i < before.len() ==> #[trigger] before[i].id != out.id);
        }
        Ok(out)
    }

    /// The stored rows from `w.offset` on, at most `w.limit` of them, in
    /// ascending identifier order; empty when the offset is past the end.
    pub fn list(&self, w: PageWindow) -> (r: Vec<TaskModel>)
        requires
            self.wf(),
        ensures
            r@.map_values(|t: TaskModel| t@) == self.window(w.offset as int, w.limit as int),
    {
        let len = self.rows.len();
        let mut out: Vec<TaskModel> = Vec::new();
        if w.offset >= len as u64 {
            proof {
                assert(out@.map_values(|t: TaskModel| t@) =~= self.window(w.offset as int, w.limit as int));
            }
            return out;
        }
        let start = w.offset as usize;
        let end = if w.limit >= (len - start) as u64 { len } else { start + w.limit as usize };
        let mut i: usize = start;
        while i < end
            invariant
                start <= i <= end <= len == self.rows.len(),
                out@.map_values(|t: TaskModel| t@) == self.rows().subrange(start as int, i as int),
            decreases end - i,
        {
            let t = self.rows[i].duplicate();
            let ghost prev = out@;
            out.push(t);
            proof {
                assert(self.rows()[i as int] == self.rows@[i as int]@);
                assert(out@ == prev.push(t));
                assert(out@.map_values(|t: TaskModel| t@) =~= prev.map_values(|t: TaskModel| t@).push(t@));
                assert(out@.map_values(|t: TaskModel| t@) =~= self.rows().subrange(start as int, i + 1));
            }
            i += 1;
        }
        proof {
            assert(self.window(w.offset as int, w.limit as int) =~= self.rows().subrange(start as int, end as int));
        }
        out
    }

    /// The task with identifier `id`; a not-found error when there is none.
    pub fn get_by_id(&self, id: u128) -> (r: Result<TaskModel, ApiError>)
        requires
            self.wf(),
        ensures
            match r {
                Ok(t) => self.lookup(id) == Some(t@),
                Err(e) => self.lookup(id) is None && e is NotFound,
            },
    {
        match self.find(id) {
            Some(i) => {
                let t = self.rows[i].duplicate();
                Ok(t)
            },
            None => Err(not_found(id)),
        }
    }

    /// Applies `patch` to the task with identifier `id` and returns the
    /// result; a not-found error, with the table unchanged, when there is no
    /// such task.
    pub fn update(&mut self, id: u128, patch: &UpdateTaskSchema) -> (r: Result<TaskModel, ApiError>)
        requires
            old(self).wf(),
        ensures
            final(self).wf(),
            match r {
                Ok(t) => {
                    &&& old(self).lookup(id) is Some
                    &&& t@ == patch.applied(old(self).lookup(id)->Some_0)
                    &&& final(self).rows() == old(self).rows().update(old(self).position(id), t@)
                },
                Err(e) => {
                    &&& old(self).lookup(id) is None
                    &&& e is NotFound
                    &&& final(self).rows() == old(self).rows()
                },
            },
    {
        match self.find(id) {
            Some(i) => {
                let t = patch.apply_to(&self.rows[i]);
                let out = t.duplicate();
                let ghost before = self.rows();
                self.rows.set(i, t);
                proof {
                    assert(self.rows() =~= before.update(i as int, out@));
                }
                Ok(out)
            },
            None => Err(not_found(id)),
        }
    }

    /// Removes the task with identifier `id`; a not-found error, with the
    /// table unchanged, when there is no such task.
    pub fn delete(&mut self, id: u128) -> (r: Result<(), ApiError>)
        requires
            old(self).wf(),
        ensures
            final(self).wf(),
            match r {
                Ok(_) => {
                    &&& old(self).has(id)
                    &&& final(self).rows() == old(self).rows().remove(old(self).position(id))
                },
                Err(e) => {
                    &&& !old(self).has(id)
                    &&& e is NotFound
                    &&& final(self).rows() == old(self).rows()
                },
            },
    {
        match self.find(id) {
            Some(i) => {
                let ghost before = self.rows();
                self.rows.remove(i);
                proof {
                    assert(self.rows() =~= before.remove(i as int));
                }
                Ok(())
            },
            None => Err(not_found(id)),
        }
    }
}

/// Paging: a page holds at most `limit` rows in ascending identifier order,
/// every row of the next page has a larger identifier, and the two pages
/// together are the rows that follow the first page's offset, with none left
/// out between them.
pub proof fn lemma_consecutive_pages(s: MemoryStore, page: int, limit: int)
    requires
        s.wf(),
        page >= 1,
        limit >= 1,
    ensures
        page_of(s.rows(), page, limit).len() <= limit,
        ids_ascending(page_of(s.rows(), page, limit)),
        forall|a: int, b: int|
            0 <= a < page_of(s.rows(), page, limit).len() && 0 <= b < page_of(s.rows(), page + 1, limit).len()
            ==> #[trigger] page_of(s.rows(), page, limit)[a].id < #[trigger] page_of(s.rows(), page + 1, limit)[b].id,
        page_of(s.rows(), page, limit) + page_of(s.rows(), page + 1, limit)
            == window_of(s.rows(), (page - 1) * limit, 2 * limit),
{
    let rows = s.rows();
    let off = (page - 1) * limit;
    assert(page * limit == off + limit) by (nonlinear_arith)
        requires off == (page - 1) * limit;
    assert(off >= 0) by (nonlinear_arith)
        requires page >= 1, limit >= 1, off == (page - 1) * limit;
    let p1 = page_of(rows, page, limit);
    let p2 = page_of(rows, page + 1, limit);
    let n = rows.len() as int;
    let s1 = if off < n { off } else { n };
    let e1 = if s1 + limit < n { s1 + limit } else { n };
    let s2 = if off + limit < n { off + limit } else { n };
    let e2 = if s2 + limit < n { s2 + limit } else { n };
    assert(p1 == rows.subrange(s1, e1));
    assert(p2 == rows.subrange(s2, e2));
    assert(e1 == s2);
    assert forall|a: int, b: int| 0 <= a < p1.len() && 0 <= b < p2.len() implies
        #[trigger] p1[a].id < #[trigger] p2[b].id by {
        assert(p1[a] == rows[s1 + a]);
        assert(p2[b] == rows[s2 + b]);
    }
    assert forall|i: int, j: int| 0 <= i < j < p1.len() implies p1[i].id < p1[j].id by {
        assert(p1[i] == rows[s1 + i]);
        assert(p1[j] == rows[s1 + j]);
    }
    assert(p1 + p2 =~= window_of(rows, off, 2 * limit));
}

/// A task just created is found by its identifier, equal in every field.
pub proof fn lemma_get_after_create(before: MemoryStore, after: MemoryStore, t: TaskView)
    requires
        before.wf(),
        after.wf(),
        after.rows() == before.rows().push(t),
    ensures
        after.lookup(t.id) == Some(t),
{
    let i = before.rows().len() as int;
    assert(after.rows()[i] == t);
    after.lemma_position(i);
}

/// After a task is deleted, it is no longer found.
pub proof fn lemma_gone_after_delete(before: MemoryStore, after: MemoryStore, id: u128)
    requires
        before.wf(),
        after.wf(),
        before.has(id) ==> after.rows() == before.rows().remove(before.position(id)),
        !before.has(id) ==> after.rows() == before.rows(),
    ensures
        after.lookup(id) is None,
{
    if before.has(id) {
        let p = before.position(id);
        before.lemma_position(p);
        if after.has(id) {
            let q = after.position(id);
            if q < p {
                assert(after.rows()[q] == before.rows()[q]);
                before.lemma_position(q);
            } else {
                assert(after.rows()[q] == before.rows()[q + 1]);
                before.lemma_position(q + 1);
            }
        }
    }
}

/// An update that sets no field leaves the stored table as it was.
pub proof fn lemma_empty_update_keeps_table(
    before: MemoryStore,
    after: MemoryStore,
    id: u128,
    patch: UpdateTaskSchema,
)
    requires
        before.wf(),
        patch.is_empty(),
        before.lookup(id) is Some,
        after.rows() == before.rows().update(before.position(id), patch.applied(before.lookup(id)->Some_0)),
    ensures
        patch.applied(before.lookup(id)->Some_0) == before.lookup(id)->Some_0,
        after.rows() == before.rows(),
{
    assert(after.rows() =~= before.rows());
}

/// The error for a task that is not stored.
fn not_found(id: u128) -> (r: ApiError)
    ensures
        r is NotFound,
{
    let msg = String::from_str("Task with ID: ").concat(task_id_text(id).as_str()).concat(" not found");
    ApiError::NotFound(msg)
}

} // verus!

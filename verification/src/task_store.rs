//! Task persistence: the pluggable store capability, its mathematical
//! model, and the in-memory implementation.

use vstd::prelude::*;
use crate::core_types::Task;
use crate::errors::A2AError;
use crate::seq_facts::{lemma_filter_all_pass, lemma_filter_drops_one};
use crate::views::TaskView;

verus! {

/// No two stored tasks share an id.
pub open spec fn unique_task_ids(s: Seq<TaskView>) -> bool {
    forall|i: int, j: int|
        0 <= i < s.len() && 0 <= j < s.len() && i != j ==> s[i].id != s[j].id
}

pub open spec fn has_task(s: Seq<TaskView>, id: Seq<char>) -> bool {
    exists|i: int| 0 <= i < s.len() && s[i].id == id
}

/// The stored task carrying `id` (meaningful when `has_task` holds and
/// ids are unique).
pub open spec fn task_with_id(s: Seq<TaskView>, id: Seq<char>) -> TaskView {
    s[choose|i: int| 0 <= i < s.len() && s[i].id == id]
}

/// Upsert by id: replace the task that carries `t.id`, or append `t`.
pub open spec fn upsert_task(s: Seq<TaskView>, t: TaskView) -> Seq<TaskView> {
    if has_task(s, t.id) {
        s.map(|i: int, x: TaskView| if x.id == t.id { t } else { x })
    } else {
        s.push(t)
    }
}

/// The store without the task carrying `id`; order of the rest is kept.
pub open spec fn drop_task(s: Seq<TaskView>, id: Seq<char>) -> Seq<TaskView> {
    s.filter(|t: TaskView| t.id != id)
}

/// The tasks grouped under one context id, in store order.
pub open spec fn tasks_in_context(s: Seq<TaskView>, ctx: Seq<char>) -> Seq<TaskView> {
    s.filter(|t: TaskView| t.context_id == ctx)
}

/// Law: saving a task twice leaves the store exactly as saving it once.
pub proof fn lemma_upsert_idempotent(s: Seq<TaskView>, t: TaskView)
    ensures
        upsert_task(upsert_task(s, t), t) == upsert_task(s, t),
{
    if has_task(s, t.id) {
        let u = upsert_task(s, t);
        assert(s[choose|i: int| 0 <= i < s.len() && s[i].id == t.id].id == t.id);
        let w = choose|i: int| 0 <= i < s.len() && s[i].id == t.id;
        assert(u[w].id == t.id);
        assert(has_task(u, t.id));
        assert(upsert_task(u, t) =~= u);
    } else {
        let u = s.push(t);
        assert(u[s.len() as int].id == t.id);
        assert(has_task(u, t.id));
        assert(upsert_task(u, t) =~= u);
    }
}

/// Law: after saving a task, looking its id up finds exactly that task.
pub proof fn lemma_save_then_get(s: Seq<TaskView>, t: TaskView)
    ensures
        has_task(upsert_task(s, t), t.id),
        task_with_id(upsert_task(s, t), t.id) == t,
{
    let u = upsert_task(s, t);
    if has_task(s, t.id) {
        let w = choose|i: int| 0 <= i < s.len() && s[i].id == t.id;
        assert(s[w].id == t.id);
        assert(u[w] == t);
        assert(has_task(u, t.id));
    } else {
        assert(u[s.len() as int] == t);
        assert(has_task(u, t.id));
    }
    let k = choose|i: int| 0 <= i < u.len() && u[i].id == t.id;
    assert(u[k].id == t.id);
    if has_task(s, t.id) {
        assert(u[k] == if s[k].id == t.id { t } else { s[k] });
        assert(u[k] == t);
    } else {
        if k < s.len() {
            assert(s[k].id == t.id);
            assert(false);
        }
        assert(u[k] == t);
    }
}

/// Upsert keeps ids unique.
pub proof fn lemma_upsert_preserves_unique(s: Seq<TaskView>, t: TaskView)
    requires
        unique_task_ids(s),
    ensures
        unique_task_ids(upsert_task(s, t)),
{
    let u = upsert_task(s, t);
    if has_task(s, t.id) {
        assert forall|i: int, j: int|
            0 <= i < u.len() && 0 <= j < u.len() && i != j implies u[i].id != u[j].id by {
            assert(u[i].id == s[i].id);
            assert(u[j].id == s[j].id);
        }
    } else {
        assert forall|i: int, j: int|
            0 <= i < u.len() && 0 <= j < u.len() && i != j implies u[i].id != u[j].id by {
            if i < s.len() && j < s.len() {
                assert(s[i].id != s[j].id);
            } else if i == s.len() {
                assert(u[j].id == s[j].id);
            } else {
                assert(u[i].id == s[i].id);
            }
        }
    }
}

/// The store capability the request handler and task manager consume:
/// persist and retrieve tasks by id and by context id. Contracts are
/// phrased over the stored sequence of task models; `fallible` says
/// whether the backing medium may report failures at all.
pub trait TaskStore: Sized {
    spec fn tasks(&self) -> Seq<TaskView>;

    spec fn wf(&self) -> bool;

    spec fn fallible(&self) -> bool;

    /// Upsert by id: full replacement of the stored task, or append.
    fn save(&mut self, task: Task) -> (r: Result<(), A2AError>)
        requires
            old(self).wf(),
        ensures
            final(self).wf(),
            final(self).fallible() == old(self).fallible(),
            !old(self).fallible() ==> r is Ok,
            match r {
                Ok(()) => final(self).tasks() == upsert_task(old(self).tasks(), task@),
                Err(e) => final(self).tasks() == old(self).tasks() && e is Internal,
            },
    ;

    fn get(&self, task_id: &String) -> (r: Result<Option<Task>, A2AError>)
        requires
            self.wf(),
        ensures
            !self.fallible() ==> r is Ok,
            match r {
                Ok(Some(t)) => has_task(self.tasks(), task_id@) && t@ == task_with_id(
                    self.tasks(),
                    task_id@,
                ),
                Ok(None) => !has_task(self.tasks(), task_id@),
                Err(e) => e is Internal,
            },
    ;

    fn delete(&mut self, task_id: &String) -> (r: Result<(), A2AError>)
        requires
            old(self).wf(),
        ensures
            final(self).wf(),
            final(self).fallible() == old(self).fallible(),
            !old(self).fallible() ==> r is Ok,
            match r {
                Ok(()) => final(self).tasks() == drop_task(old(self).tasks(), task_id@),
                Err(e) => final(self).tasks() == old(self).tasks() && e is Internal,
            },
    ;

    fn list(&self) -> (r: Result<Vec<Task>, A2AError>)
        requires
            self.wf(),
        ensures
            !self.fallible() ==> r is Ok,
            match r {
                Ok(v) => v.deep_view() == self.tasks(),
                Err(e) => e is Internal,
            },
    ;

    fn list_by_context(&self, context_id: &String) -> (r: Result<Vec<Task>, A2AError>)
        requires
            self.wf(),
        ensures
            !self.fallible() ==> r is Ok,
            match r {
                Ok(v) => v.deep_view() == tasks_in_context(self.tasks(), context_id@),
                Err(e) => e is Internal,
            },
    ;
}

/// Tasks held in process memory, in insertion order, at most one per id.
pub struct InMemoryTaskStore {
    tasks: Vec<Task>,
}

impl InMemoryTaskStore {
    pub fn new() -> (r: InMemoryTaskStore)
        ensures
            r.wf(),
            !r.fallible(),
            r.tasks() == Seq::<TaskView>::empty(),
    {
        let r = InMemoryTaskStore { tasks: Vec::new() };
        proof {
            assert(r.tasks() =~= Seq::<TaskView>::empty());
        }
        r
    }
}

impl TaskStore for InMemoryTaskStore {
    closed spec fn tasks(&self) -> Seq<TaskView> {
        self.tasks.deep_view()
    }

    closed spec fn wf(&self) -> bool {
        unique_task_ids(self.tasks.deep_view())
    }

    closed spec fn fallible(&self) -> bool {
        false
    }

    #[verifier::loop_isolation(false)]
    fn save(&mut self, task: Task) -> (r: Result<(), A2AError>) {
        let ghost s0 = self.tasks.deep_view();
        let ghost tv = task@;
        let mut i: usize = 0;
        while i < self.tasks.len()
            invariant
                i <= self.tasks.len(),
                self.tasks.deep_view() == s0,
                unique_task_ids(s0),
                forall|j: int| 0 <= j < i ==> s0[j].id != tv.id,
            decreases self.tasks.len() - i,
        {
            if self.tasks[i].id == task.id {
                proof {
                    assert(self.tasks@[i as int].id@ == task.id@);
                    assert(s0[i as int] == self.tasks@[i as int].deep_view());
                    assert(s0[i as int].id == tv.id);
                    assert(has_task(s0, tv.id));
                    lemma_upsert_preserves_unique(s0, tv);
                }
                let slot = &mut self.tasks[i];
                *slot = task;
                proof {
                    let s1 = self.tasks.deep_view();
                    assert forall|j: int| 0 <= j < s1.len() implies s1[j] == upsert_task(
                        s0,
                        tv,
                    )[j] by {
                        if j != i {
                            assert(s0[j].id != s0[i as int].id);
                        }
                    }
                    assert(s1 =~= upsert_task(s0, tv));
                }
                return Ok(());
            }
            i += 1;
        }
        proof {
            assert(!has_task(s0, tv.id));
            lemma_upsert_preserves_unique(s0, tv);
        }
        self.tasks.push(task);
        proof {
            assert(self.tasks.deep_view() =~= upsert_task(s0, tv));
        }
        Ok(())
    }

    #[verifier::loop_isolation(false)]
    fn get(&self, task_id: &String) -> (r: Result<Option<Task>, A2AError>) {
        let ghost s = self.tasks.deep_view();
        let mut i: usize = 0;
        while i < self.tasks.len()
            invariant
                i <= self.tasks.len(),
                s == self.tasks.deep_view(),
                unique_task_ids(s),
                forall|j: int| 0 <= j < i ==> s[j].id != task_id@,
            decreases self.tasks.len() - i,
        {
            if self.tasks[i].id == *task_id {
                let t = self.tasks[i].clone();
                proof {
                    assert(s[i as int].id == task_id@);
                    assert(has_task(s, task_id@));
                    let k = choose|k: int| 0 <= k < s.len() && s[k].id == task_id@;
                    assert(s[k].id == task_id@);
                    assert(k == i);
                }
                return Ok(Some(t));
            }
            i += 1;
        }
        proof {
            assert(!has_task(s, task_id@));
        }
        Ok(None)
    }

    #[verifier::loop_isolation(false)]
    fn delete(&mut self, task_id: &String) -> (r: Result<(), A2AError>) {
        let ghost s0 = self.tasks.deep_view();
        let ghost pred = |t: TaskView| t.id != task_id@;
        let mut i: usize = 0;
        while i < self.tasks.len()
            invariant
                i <= self.tasks.len(),
                self.tasks.deep_view() == s0,
                unique_task_ids(s0),
                forall|j: int| 0 <= j < i ==> s0[j].id != task_id@,
            decreases self.tasks.len() - i,
        {
            if self.tasks[i].id == *task_id {
                proof {
                    assert(s0[i as int].id == task_id@);
                }
                self.tasks.remove(i);
                proof {
                    let s1 = self.tasks.deep_view();
                    assert forall|j: int| 0 <= j < s1.len() implies s1[j] == s0.remove(
                        i as int,
                    )[j] by {}
                    assert(s1 =~= s0.remove(i as int));
                    assert(!pred(s0[i as int]));
                    assert forall|j: int|
                        0 <= j < s0.len() && j != i implies pred(#[trigger] s0[j]) by {
                        assert(s0[j].id != s0[i as int].id);
                    }
                    lemma_filter_drops_one(s0, pred, i as int);
                    assert forall|a: int, b: int|
                        0 <= a < s1.len() && 0 <= b < s1.len() && a != b implies s1[a].id
                        != s1[b].id by {
                        let a0: int = if a < i { a } else { a + 1 };
                        let b0: int = if b < i { b } else { b + 1 };
                        assert(s1[a] == s0[a0]);
                        assert(s1[b] == s0[b0]);
                    }
                }
                return Ok(());
            }
            i += 1;
        }
        proof {
            lemma_filter_all_pass(s0, pred);
        }
        Ok(())
    }

    #[verifier::loop_isolation(false)]
    fn list(&self) -> (r: Result<Vec<Task>, A2AError>) {
        let mut out: Vec<Task> = Vec::new();
        let mut i: usize = 0;
        while i < self.tasks.len()
            invariant
                i <= self.tasks.len(),
                out.deep_view() =~= self.tasks.deep_view().take(i as int),
            decreases self.tasks.len() - i,
        {
            out.push(self.tasks[i].clone());
            proof {
                assert(out.deep_view() =~= self.tasks.deep_view().take(i as int + 1));
            }
            i += 1;
        }
        proof {
            assert(out.deep_view() =~= self.tasks.deep_view());
        }
        Ok(out)
    }

    #[verifier::loop_isolation(false)]
    fn list_by_context(&self, context_id: &String) -> (r: Result<Vec<Task>, A2AError>) {
        let ghost s = self.tasks.deep_view();
        let ghost pred = |t: TaskView| t.context_id == context_id@;
        let mut out: Vec<Task> = Vec::new();
        let mut i: usize = 0;
        while i < self.tasks.len()
            invariant
                i <= self.tasks.len(),
                s == self.tasks.deep_view(),
                out.deep_view() =~= s.take(i as int).filter(pred),
            decreases self.tasks.len() - i,
        {
            let keep = self.tasks[i].context_id == *context_id;
            if keep {
                out.push(self.tasks[i].clone());
            }
            proof {
                let t1 = s.take(i as int + 1);
                assert(t1.len() == i + 1);
                assert(t1.drop_last() =~= s.take(i as int));
                assert(t1.last() == s[i as int]);
                reveal_with_fuel(Seq::filter, 2);
                if pred(s[i as int]) {
                    assert(t1.filter(pred) == t1.drop_last().filter(pred).push(t1.last()));
                } else {
                    assert(t1.filter(pred) == t1.drop_last().filter(pred));
                }
                assert(out.deep_view() =~= t1.filter(pred));
            }
            i += 1;
        }
        proof {
            assert(s.take(s.len() as int) =~= s);
            assert(out.deep_view() =~= tasks_in_context(s, context_id@));
        }
        Ok(out)
    }
}

} // verus!

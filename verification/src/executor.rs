//! The owner of every live task. All submissions, queries and control
//! calls go through this one value, which the surrounding process drives
//! from a single mailbox — its exclusive ownership of the registry is the
//! design's substitute for locking.

use vstd::prelude::*;

use crate::headers::HeadersGen;
use crate::message::{Message, Reply};
use crate::state::{state_code, Trigger};
use crate::task::{stepped, titled, Task};
use crate::text::{progress_rep, unknown_id_message, unknown_id_rep};

verus! {

/// No two registered tasks share an id.
pub open spec fn distinct_ids(tasks: Seq<Task>) -> bool {
    forall|i: int, j: int|
        0 <= i < j < tasks.len() ==> (#[trigger] tasks[i]).id != (#[trigger] tasks[j]).id
}

/// The registry of live tasks, keyed by their ids. Once terminated it
/// accepts no further job.
#[derive(Debug)]
pub struct Executor {
    pub tasks: Vec<Task>,
    pub accepting: bool,
}

impl Executor {
    /// No two registered tasks share an id.
    pub open spec fn wf(&self) -> bool {
        distinct_ids(self.tasks@)
    }

    /// Some registered task carries this id.
    pub open spec fn contains_id(&self, id: usize) -> bool {
        exists|i: int| 0 <= i < self.tasks@.len() && (#[trigger] self.tasks@[i]).id == id
    }

    /// An empty registry, accepting jobs.
    pub fn new() -> (e: Executor)
        ensures
            e.wf(),
            e.tasks@.len() == 0,
            e.accepting,
    {
        Executor { tasks: Vec::new(), accepting: true }
    }

    /// Register one freshly created task. The caller owns id assignment
    /// and never reuses one, so the new task collides with nothing. After
    /// termination the job is refused and dropped.
    pub fn spawn_task(&mut self, task: Task)
        requires
            old(self).wf(),
            !old(self).contains_id(task.id),
        ensures
            final(self).wf(),
            final(self).accepting == old(self).accepting,
            old(self).accepting ==> final(self).tasks@ == old(self).tasks@.push(task),
            !old(self).accepting ==> final(self).tasks@ == old(self).tasks@,
    {
        if self.accepting {
            self.tasks.push(task);
        }
    }

    /// A task's progress string, or the unknown-id reply when no task
    /// carries the id — a normal outcome, not an error.
    #[verifier::loop_isolation(false)]
    pub fn process(&self, id: usize) -> (s: String)
        requires
            self.wf(),
        ensures
            forall|i: int|
                0 <= i < self.tasks@.len() && (#[trigger] self.tasks@[i]).id == id ==> s@
                    == progress_rep(
                    self.tasks@[i].process.finished as nat,
                    self.tasks@[i].process.total as nat,
                ),
            !self.contains_id(id) ==> s@ == unknown_id_rep(id as nat),
    {
        let n = self.tasks.len();
        let mut j: usize = 0;
        while j < n
            invariant
                0 <= j <= n,
                n == self.tasks@.len(),
                forall|i: int| 0 <= i < j ==> (#[trigger] self.tasks@[i]).id != id,
            decreases n - j,
        {
            if self.tasks[j].id == id {
                return self.tasks[j].process();
            }
            j = j + 1;
        }
        unknown_id_message(id)
    }

    /// A task's state code, or the sentinel `404` for an unknown id.
    #[verifier::loop_isolation(false)]
    pub fn state(&self, id: usize) -> (code: usize)
        requires
            self.wf(),
        ensures
            forall|i: int|
                0 <= i < self.tasks@.len() && (#[trigger] self.tasks@[i]).id == id ==> code
                    == state_code(self.tasks@[i].fsm@),
            !self.contains_id(id) ==> code == 404,
    {
        let n = self.tasks.len();
        let mut j: usize = 0;
        while j < n
            invariant
                0 <= j <= n,
                n == self.tasks@.len(),
                forall|i: int| 0 <= i < j ==> (#[trigger] self.tasks@[i]).id != id,
            decreases n - j,
        {
            if self.tasks[j].id == id {
                return self.tasks[j].state();
            }
            j = j + 1;
        }
        404
    }

    /// A task's resolved title, or the empty string for an unknown id or
    /// an unresolved task.
    #[verifier::loop_isolation(false)]
    pub fn title(&self, id: usize) -> (t: String)
        requires
            self.wf(),
        ensures
            forall|i: int|
                0 <= i < self.tasks@.len() && (#[trigger] self.tasks@[i]).id == id ==> t@
                    == self.tasks@[i].title@,
            !self.contains_id(id) ==> t@ == Seq::<char>::empty(),
    {
        let n = self.tasks.len();
        let mut j: usize = 0;
        while j < n
            invariant
                0 <= j <= n,
                n == self.tasks@.len(),
                forall|i: int| 0 <= i < j ==> (#[trigger] self.tasks@[i]).id != id,
            decreases n - j,
        {
            if self.tasks[j].id == id {
                return self.tasks[j].title();
            }
            j = j + 1;
        }
        String::new()
    }

    /// Toggle the task carrying this id between working and pausing; an
    /// unknown id changes nothing.
    pub fn switch(&mut self, id: usize)
        requires
            old(self).wf(),
        ensures
            final(self).wf(),
            final(self).tasks@.len() == old(self).tasks@.len(),
            forall|i: int|
                0 <= i < old(self).tasks@.len() && (#[trigger] old(self).tasks@[i]).id != id
                    ==> final(self).tasks@[i] == old(self).tasks@[i],
            forall|i: int|
                0 <= i < old(self).tasks@.len() && (#[trigger] old(self).tasks@[i]).id == id
                    ==> stepped(old(self).tasks@[i], final(self).tasks@[i], Trigger::Switch),
            final(self).accepting == old(self).accepting,
    {
        self.apply_trigger(id, Trigger::Switch);
    }

    /// Cancel the task carrying this id; an unknown id changes nothing.
    pub fn cancel(&mut self, id: usize)
        requires
            old(self).wf(),
        ensures
            final(self).wf(),
            final(self).tasks@.len() == old(self).tasks@.len(),
            forall|i: int|
                0 <= i < old(self).tasks@.len() && (#[trigger] old(self).tasks@[i]).id != id
                    ==> final(self).tasks@[i] == old(self).tasks@[i],
            forall|i: int|
                0 <= i < old(self).tasks@.len() && (#[trigger] old(self).tasks@[i]).id == id
                    ==> stepped(old(self).tasks@[i], final(self).tasks@[i], Trigger::Cancel),
            final(self).accepting == old(self).accepting,
    {
        self.apply_trigger(id, Trigger::Cancel);
    }

    #[verifier::loop_isolation(false)]
    fn apply_trigger(&mut self, id: usize, t: Trigger)
        requires
            old(self).wf(),
        ensures
            final(self).wf(),
            final(self).tasks@.len() == old(self).tasks@.len(),
            forall|i: int|
                0 <= i < old(self).tasks@.len() && (#[trigger] old(self).tasks@[i]).id != id
                    ==> final(self).tasks@[i] == old(self).tasks@[i],
            forall|i: int|
                0 <= i < old(self).tasks@.len() && (#[trigger] old(self).tasks@[i]).id == id
                    ==> stepped(old(self).tasks@[i], final(self).tasks@[i], t),
            final(self).accepting == old(self).accepting,
    {
        let ghost tasks0 = self.tasks@;
        let n = self.tasks.len();
        let mut j: usize = 0;
        while j < n
            invariant
                0 <= j <= n,
                n == self.tasks@.len() == tasks0.len(),
                self.accepting == old(self).accepting,
                forall|i: int| j <= i < n ==> self.tasks@[i] == tasks0[i],
                forall|i: int|
                    0 <= i < j && (#[trigger] tasks0[i]).id != id ==> self.tasks@[i] == tasks0[i],
                forall|i: int|
                    0 <= i < j && (#[trigger] tasks0[i]).id == id ==> stepped(
                        tasks0[i],
                        self.tasks@[i],
                        t,
                    ),
            decreases n - j,
        {
            if self.tasks[j].id == id {
                match t {
                    Trigger::Switch => self.tasks[j].switch(),
                    Trigger::Cancel => self.tasks[j].cancel(),
                    Trigger::Finish => self.tasks[j].fsm.finish(),
                }
            }
            j = j + 1;
        }
        proof {
            assert forall|i: int, k: int|
                0 <= i < k < self.tasks@.len() implies (#[trigger] self.tasks@[i]).id != (
            #[trigger] self.tasks@[k]).id by {
                assert(self.tasks@[i].id == tasks0[i].id);
                assert(self.tasks@[k].id == tasks0[k].id);
            }
        }
    }

    /// Toggle every registered task between working and pausing.
    pub fn switch_all(&mut self)
        requires
            old(self).wf(),
        ensures
            final(self).wf(),
            final(self).tasks@.len() == old(self).tasks@.len(),
            forall|i: int|
                0 <= i < old(self).tasks@.len() ==> stepped(
                    old(self).tasks@[i],
                    final(self).tasks@[i],
                    Trigger::Switch,
                ),
            final(self).accepting == old(self).accepting,
    {
        self.apply_trigger_all(Trigger::Switch);
    }

    /// Cancel every registered task; no further job should be submitted.
    pub fn terminate(&mut self)
        requires
            old(self).wf(),
        ensures
            final(self).wf(),
            final(self).tasks@.len() == old(self).tasks@.len(),
            forall|i: int|
                0 <= i < old(self).tasks@.len() ==> stepped(
                    old(self).tasks@[i],
                    final(self).tasks@[i],
                    Trigger::Cancel,
                ),
            !final(self).accepting,
    {
        self.apply_trigger_all(Trigger::Cancel);
        self.accepting = false;
    }

    #[verifier::loop_isolation(false)]
    fn apply_trigger_all(&mut self, t: Trigger)
        requires
            old(self).wf(),
        ensures
            final(self).wf(),
            final(self).tasks@.len() == old(self).tasks@.len(),
            forall|i: int|
                0 <= i < old(self).tasks@.len() ==> stepped(
                    old(self).tasks@[i],
                    final(self).tasks@[i],
                    t,
                ),
            final(self).accepting == old(self).accepting,
    {
        let ghost tasks0 = self.tasks@;
        let n = self.tasks.len();
        let mut j: usize = 0;
        while j < n
            invariant
                0 <= j <= n,
                n == self.tasks@.len() == tasks0.len(),
                self.accepting == old(self).accepting,
                forall|i: int| j <= i < n ==> self.tasks@[i] == tasks0[i],
                forall|i: int| 0 <= i < j ==> stepped(tasks0[i], #[trigger] self.tasks@[i], t),
            decreases n - j,
        {
            match t {
                Trigger::Switch => self.tasks[j].switch(),
                Trigger::Cancel => self.tasks[j].cancel(),
                Trigger::Finish => self.tasks[j].fsm.finish(),
            }
            j = j + 1;
        }
        proof {
            assert forall|i: int, k: int|
                0 <= i < k < self.tasks@.len() implies (#[trigger] self.tasks@[i]).id != (
            #[trigger] self.tasks@[k]).id by {
                assert(self.tasks@[i].id == tasks0[i].id);
                assert(self.tasks@[k].id == tasks0[k].id);
            }
        }
    }

    /// Record the resolved title on the task carrying this id. A title is
    /// write-once: a second record, like an unknown id, changes nothing.
    #[verifier::loop_isolation(false)]
    pub fn record_title(&mut self, id: usize, title: String)
        requires
            old(self).wf(),
        ensures
            final(self).wf(),
            final(self).tasks@.len() == old(self).tasks@.len(),
            forall|i: int|
                0 <= i < old(self).tasks@.len() && (#[trigger] old(self).tasks@[i]).id != id
                    ==> final(self).tasks@[i] == old(self).tasks@[i],
            forall|i: int|
                0 <= i < old(self).tasks@.len() && (#[trigger] old(self).tasks@[i]).id == id
                    ==> titled(old(self).tasks@[i], final(self).tasks@[i], title@),
            final(self).accepting == old(self).accepting,
    {
        let ghost tasks0 = self.tasks@;
        let n = self.tasks.len();
        let mut j: usize = 0;
        while j < n
            invariant
                0 <= j <= n,
                n == self.tasks@.len() == tasks0.len(),
                self.accepting == old(self).accepting,
                forall|i: int| j <= i < n ==> self.tasks@[i] == tasks0[i],
                forall|i: int|
                    0 <= i < j && (#[trigger] tasks0[i]).id != id ==> self.tasks@[i] == tasks0[i],
                forall|i: int|
                    0 <= i < j && (#[trigger] tasks0[i]).id == id ==> titled(
                        tasks0[i],
                        self.tasks@[i],
                        title@,
                    ),
            decreases n - j,
        {
            if self.tasks[j].id == id {
                if self.tasks[j].title.as_str().is_empty() {
                    self.tasks[j].set_title(title);
                    proof {
                        assert forall|i: int, k: int|
                            0 <= i < k < self.tasks@.len() implies (
                        #[trigger] self.tasks@[i]).id != (#[trigger] self.tasks@[k]).id by {
                            assert(self.tasks@[i].id == tasks0[i].id);
                            assert(self.tasks@[k].id == tasks0[k].id);
                        }
                    }
                    return ;
                }
            }
            j = j + 1;
        }
        proof {
            assert forall|i: int, k: int|
                0 <= i < k < self.tasks@.len() implies (#[trigger] self.tasks@[i]).id != (
            #[trigger] self.tasks@[k]).id by {
                assert(self.tasks@[i].id == tasks0[i].id);
                assert(self.tasks@[k].id == tasks0[k].id);
            }
        }
    }

    /// Add one written chunk's length to the progress of the task carrying
    /// this id. An unknown id, or a length the counter cannot hold,
    /// changes nothing.
    #[verifier::loop_isolation(false)]
    pub fn add_progress(&mut self, id: usize, val: usize)
        requires
            old(self).wf(),
        ensures
            final(self).wf(),
            final(self).tasks@.len() == old(self).tasks@.len(),
            forall|i: int|
                0 <= i < old(self).tasks@.len() && (#[trigger] old(self).tasks@[i]).id != id
                    ==> final(self).tasks@[i] == old(self).tasks@[i],
            forall|i: int|
                0 <= i < old(self).tasks@.len() && (#[trigger] old(self).tasks@[i]).id == id ==> {
                    let pre = old(self).tasks@[i];
                    let post = final(self).tasks@[i];
                    &&& post.id == pre.id
                    &&& post.target == pre.target
                    &&& post.save_dir == pre.save_dir
                    &&& post.title == pre.title
                    &&& post.fsm == pre.fsm
                    &&& post.process.total == pre.process.total
                    &&& post.process.finished == if pre.process.finished + val <= usize::MAX {
                        pre.process.finished + val
                    } else {
                        pre.process.finished as int
                    }
                },
            final(self).accepting == old(self).accepting,
    {
        let ghost tasks0 = self.tasks@;
        let n = self.tasks.len();
        let mut j: usize = 0;
        while j < n
            invariant
                0 <= j <= n,
                n == self.tasks@.len() == tasks0.len(),
                self.accepting == old(self).accepting,
                self.tasks@ == tasks0,
                forall|i: int| 0 <= i < j ==> (#[trigger] tasks0[i]).id != id,
            decreases n - j,
        {
            if self.tasks[j].id == id {
                if self.tasks[j].process.finished <= usize::MAX - val {
                    self.tasks[j].process.add_finished(val);
                    proof {
                        assert forall|i: int, k: int|
                            0 <= i < k < self.tasks@.len() implies (
                        #[trigger] self.tasks@[i]).id != (#[trigger] self.tasks@[k]).id by {
                            assert(self.tasks@[i].id == tasks0[i].id);
                            assert(self.tasks@[k].id == tasks0[k].id);
                        }
                        assert forall|i: int|
                            0 <= i < n && (#[trigger] tasks0[i]).id != id implies self.tasks@[i]
                            == tasks0[i] by {
                            if i != j {
                            }
                        }
                    }
                }
                return ;
            }
            j = j + 1;
        }
    }

    /// Register one probed stream length on the task carrying this id and
    /// hand back the stream's fresh range allocator. Nothing is handed back
    /// — and nothing changes — for an unknown id, a zero length, a zero
    /// chunk, or lengths the counters cannot hold.
    #[verifier::loop_isolation(false)]
    pub fn register_stream(&mut self, id: usize, total: usize, chunk: usize) -> (g: Option<
        HeadersGen,
    >)
        requires
            old(self).wf(),
        ensures
            final(self).wf(),
            final(self).tasks@.len() == old(self).tasks@.len(),
            forall|i: int|
                0 <= i < old(self).tasks@.len() && (#[trigger] old(self).tasks@[i]).id != id
                    ==> final(self).tasks@[i] == old(self).tasks@[i],
            !old(self).contains_id(id) ==> g is None && final(self).tasks@ == old(self).tasks@,
            forall|i: int|
                0 <= i < old(self).tasks@.len() && (#[trigger] old(self).tasks@[i]).id == id ==> {
                    let pre = old(self).tasks@[i];
                    let post = final(self).tasks@[i];
                    if total >= 1 && chunk >= 1 && total - 1 + chunk <= usize::MAX
                        && pre.process.total + total <= usize::MAX {
                        &&& g is Some
                        &&& g->0.wf()
                        &&& g->0.base() == 0
                        &&& g->0.bound() == total - 1
                        &&& g->0.chunk_size() == chunk
                        &&& g->0.cursor() == 0
                        &&& g->0.taken() == Seq::<(usize, usize)>::empty()
                        &&& post.id == pre.id
                        &&& post.target == pre.target
                        &&& post.save_dir == pre.save_dir
                        &&& post.title == pre.title
                        &&& post.fsm == pre.fsm
                        &&& post.process.total == pre.process.total + total
                        &&& post.process.finished == pre.process.finished
                    } else {
                        g is None && post == pre
                    }
                },
            final(self).accepting == old(self).accepting,
    {
        let ghost tasks0 = self.tasks@;
        let n = self.tasks.len();
        let mut j: usize = 0;
        while j < n
            invariant
                0 <= j <= n,
                n == self.tasks@.len() == tasks0.len(),
                self.accepting == old(self).accepting,
                self.tasks@ == tasks0,
                forall|i: int| 0 <= i < j ==> (#[trigger] tasks0[i]).id != id,
            decreases n - j,
        {
            if self.tasks[j].id == id {
                if total >= 1 && chunk >= 1 && chunk <= usize::MAX - (total - 1)
                    && self.tasks[j].process.total <= usize::MAX - total {
                    let g = self.tasks[j].begin_stream(total, chunk);
                    proof {
                        assert forall|i: int, k: int|
                            0 <= i < k < self.tasks@.len() implies (
                        #[trigger] self.tasks@[i]).id != (#[trigger] self.tasks@[k]).id by {
                            assert(self.tasks@[i].id == tasks0[i].id);
                            assert(self.tasks@[k].id == tasks0[k].id);
                        }
                    }
                    return Some(g);
                } else {
                    return None;
                }
            }
            j = j + 1;
        }
        None
    }

    /// Record the joined outcome of the task carrying this id: full
    /// success finishes it, anything less cancels it. An unknown id
    /// changes nothing.
    pub fn complete_task(&mut self, id: usize, success: bool)
        requires
            old(self).wf(),
        ensures
            final(self).wf(),
            final(self).tasks@.len() == old(self).tasks@.len(),
            forall|i: int|
                0 <= i < old(self).tasks@.len() && (#[trigger] old(self).tasks@[i]).id != id
                    ==> final(self).tasks@[i] == old(self).tasks@[i],
            forall|i: int|
                0 <= i < old(self).tasks@.len() && (#[trigger] old(self).tasks@[i]).id == id
                    ==> stepped(
                    old(self).tasks@[i],
                    final(self).tasks@[i],
                    if success {
                        Trigger::Finish
                    } else {
                        Trigger::Cancel
                    },
                ),
            final(self).accepting == old(self).accepting,
    {
        if success {
            self.apply_trigger(id, Trigger::Finish);
        } else {
            self.apply_trigger(id, Trigger::Cancel);
        }
    }

    /// Drop the task carrying this id out of the registry, handing it
    /// back; an unknown id changes nothing. Called once a task's execution
    /// has fully unwound.
    #[verifier::loop_isolation(false)]
    pub fn remove_task(&mut self, id: usize) -> (removed: Option<Task>)
        requires
            old(self).wf(),
        ensures
            final(self).wf(),
            !old(self).contains_id(id) ==> removed is None && final(self).tasks@ == old(
                self,
            ).tasks@,
            old(self).contains_id(id) ==> exists|i: int|
                0 <= i < old(self).tasks@.len() && (#[trigger] old(self).tasks@[i]).id == id
                    && final(self).tasks@ == old(self).tasks@.remove(i) && removed == Some(
                    old(self).tasks@[i],
                ),
            final(self).accepting == old(self).accepting,
    {
        let ghost tasks0 = self.tasks@;
        let n = self.tasks.len();
        let mut j: usize = 0;
        while j < n
            invariant
                0 <= j <= n,
                n == self.tasks@.len(),
                self.tasks@ == tasks0,
                self.accepting == old(self).accepting,
                forall|i: int| 0 <= i < j ==> (#[trigger] tasks0[i]).id != id,
            decreases n - j,
        {
            if self.tasks[j].id == id {
                let t = self.tasks.remove(j);
                proof {
                    assert forall|a: int, b: int|
                        0 <= a < b < self.tasks@.len() implies (#[trigger] self.tasks@[a]).id != (
                    #[trigger] self.tasks@[b]).id by {
                        if b < j {
                            assert(self.tasks@[a] == tasks0[a]);
                            assert(self.tasks@[b] == tasks0[b]);
                        } else if a < j {
                            assert(self.tasks@[a] == tasks0[a]);
                            assert(self.tasks@[b] == tasks0[b + 1]);
                        } else {
                            assert(self.tasks@[a] == tasks0[a + 1]);
                            assert(self.tasks@[b] == tasks0[b + 1]);
                        }
                    }
                }
                return Some(t);
            }
            j = j + 1;
        }
        None
    }

    /// Process one mailbox command against the registry: the actor's
    /// single-message step. Queries answer in the reply; control commands
    /// land on the named task's state machine; an unknown id is answered
    /// with its sentinel and changes nothing.
    pub fn handle(&mut self, msg: Message) -> (reply: Reply)
        requires
            old(self).wf(),
            msg matches Message::Job(task) ==> !old(self).contains_id(task.id),
        ensures
            final(self).wf(),
            final(self).accepting == (old(self).accepting && !(msg matches Message::Terminate)),
            (msg matches Message::Job(task) ==> reply is Done && (old(self).accepting
                ==> final(self).tasks@ == old(self).tasks@.push(task)) && (!old(self).accepting
                ==> final(self).tasks@ == old(self).tasks@)),
            (msg matches Message::Process(id) ==> final(self).tasks@ == old(self).tasks@ && {
                &&& reply is Text
                &&& (forall|i: int|
                    0 <= i < old(self).tasks@.len() && (#[trigger] old(self).tasks@[i]).id == id
                        ==> reply->Text_0@ == progress_rep(
                        old(self).tasks@[i].process.finished as nat,
                        old(self).tasks@[i].process.total as nat,
                    ))
                &&& (!old(self).contains_id(id) ==> reply->Text_0@ == unknown_id_rep(id as nat))
            }),
            (msg matches Message::State(id) ==> final(self).tasks@ == old(self).tasks@ && {
                &&& reply is Code
                &&& (forall|i: int|
                    0 <= i < old(self).tasks@.len() && (#[trigger] old(self).tasks@[i]).id == id
                        ==> reply->Code_0 == state_code(old(self).tasks@[i].fsm@))
                &&& (!old(self).contains_id(id) ==> reply->Code_0 == 404)
            }),
            (msg matches Message::Title(id) ==> final(self).tasks@ == old(self).tasks@ && {
                &&& reply is Text
                &&& (forall|i: int|
                    0 <= i < old(self).tasks@.len() && (#[trigger] old(self).tasks@[i]).id == id
                        ==> reply->Text_0@ == old(self).tasks@[i].title@)
                &&& (!old(self).contains_id(id) ==> reply->Text_0@ == Seq::<char>::empty())
            }),
            (msg matches Message::Cancel(id) ==> reply is Done && final(self).tasks@.len() == old(
                self,
            ).tasks@.len() && (forall|i: int|
                0 <= i < old(self).tasks@.len() ==> if (#[trigger] old(self).tasks@[i]).id == id {
                    stepped(old(self).tasks@[i], final(self).tasks@[i], Trigger::Cancel)
                } else {
                    final(self).tasks@[i] == old(self).tasks@[i]
                })),
            (msg matches Message::Switch(id) ==> reply is Done && final(self).tasks@.len() == old(
                self,
            ).tasks@.len() && (forall|i: int|
                0 <= i < old(self).tasks@.len() ==> if (#[trigger] old(self).tasks@[i]).id == id {
                    stepped(old(self).tasks@[i], final(self).tasks@[i], Trigger::Switch)
                } else {
                    final(self).tasks@[i] == old(self).tasks@[i]
                })),
            (msg matches Message::SwitchAll ==> reply is Done && final(self).tasks@.len() == old(
                self,
            ).tasks@.len() && (forall|i: int|
                0 <= i < old(self).tasks@.len() ==> stepped(
                    old(self).tasks@[i],
                    final(self).tasks@[i],
                    Trigger::Switch,
                ))),
            (msg matches Message::Terminate ==> reply is Done && final(self).tasks@.len() == old(
                self,
            ).tasks@.len() && (forall|i: int|
                0 <= i < old(self).tasks@.len() ==> stepped(
                    old(self).tasks@[i],
                    final(self).tasks@[i],
                    Trigger::Cancel,
                ))),
    {
        match msg {
            Message::Job(task) => {
                self.spawn_task(task);
                Reply::Done
            },
            Message::Process(id) => Reply::Text(self.process(id)),
            Message::State(id) => Reply::Code(self.state(id)),
            Message::Title(id) => Reply::Text(self.title(id)),
            Message::Cancel(id) => {
                self.cancel(id);
                Reply::Done
            },
            Message::Switch(id) => {
                self.switch(id);
                Reply::Done
            },
            Message::SwitchAll => {
                self.switch_all();
                Reply::Done
            },
            Message::Terminate => {
                self.terminate();
                Reply::Done
            },
        }
    }
}

} // verus!

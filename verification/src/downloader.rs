//! The caller-facing front of the engine: allocates task ids monotonically,
//! owns the executor, and forwards queries and control calls to it.

use vstd::prelude::*;

use crate::config::Config;
use crate::executor::Executor;
use crate::state::{state_code, State, Trigger};
use crate::task::{stepped, Task};
use crate::text::{progress_rep, unknown_id_rep};

verus! {

/// The engine's front: configuration, the id counter, and the executor.
#[derive(Debug)]
pub struct Downloader {
    pub id_next: usize,
    pub config: Config,
    pub exe: Executor,
}

impl Downloader {
    /// Ids are assigned monotonically, so every registered task's id lies
    /// below the counter and no two registered tasks collide.
    pub open spec fn wf(&self) -> bool {
        &&& self.exe.wf()
        &&& forall|i: int|
            0 <= i < self.exe.tasks@.len() ==> (#[trigger] self.exe.tasks@[i]).id < self.id_next
    }

    /// A fresh engine with no tasks, counting ids from zero, run with the
    /// given configuration.
    pub fn new(config: Config) -> (d: Downloader)
        ensures
            d.wf(),
            d.id_next == 0,
            d.exe.tasks@.len() == 0,
            d.exe.accepting,
            d.config == config,
    {
        Downloader { id_next: 0, config, exe: Executor::new() }
    }

    /// Submit a download job: allocate the next id, register a fresh task
    /// under it, and hand the id back. Nothing already registered moves.
    pub fn add_task(&mut self, target: String) -> (id: usize)
        requires
            old(self).wf(),
            old(self).id_next < usize::MAX,
        ensures
            final(self).wf(),
            id == old(self).id_next,
            final(self).id_next == old(self).id_next + 1,
            final(self).config == old(self).config,
            final(self).exe.accepting == old(self).exe.accepting,
            forall|i: int|
                0 <= i < old(self).exe.tasks@.len() ==> final(self).exe.tasks@[i] == old(
                    self,
                ).exe.tasks@[i],
            !old(self).exe.accepting ==> final(self).exe.tasks@ == old(self).exe.tasks@,
            old(self).exe.accepting ==> final(self).exe.tasks@.len() == old(
                self,
            ).exe.tasks@.len() + 1 && ({
                let t = final(self).exe.tasks@.last();
                &&& t.id == id
                &&& t.target@ == target@
                &&& t.save_dir@ == old(self).config.save_path@
                &&& t.title@ == Seq::<char>::empty()
                &&& t.process.total == 0
                &&& t.process.finished == 0
                &&& t.fsm@ == State::Working
            }),
    {
        let id = self.id_next;
        self.id_next = self.id_next + 1;
        let task = Task::new(id, target, self.config.save_path.clone());
        proof {
            assert(!self.exe.contains_id(id));
        }
        self.exe.spawn_task(task);
        id
    }

    /// A task's resolved title; empty for an unknown id or before the
    /// resolver has completed.
    pub fn title(&self, id: usize) -> (t: String)
        requires
            self.wf(),
        ensures
            forall|i: int|
                0 <= i < self.exe.tasks@.len() && (#[trigger] self.exe.tasks@[i]).id == id ==> t@
                    == self.exe.tasks@[i].title@,
            !self.exe.contains_id(id) ==> t@ == Seq::<char>::empty(),
    {
        self.exe.title(id)
    }

    /// A task's progress string, or the unknown-id reply.
    pub fn process(&self, id: usize) -> (s: String)
        requires
            self.wf(),
        ensures
            forall|i: int|
                0 <= i < self.exe.tasks@.len() && (#[trigger] self.exe.tasks@[i]).id == id ==> s@
                    == progress_rep(
                    self.exe.tasks@[i].process.finished as nat,
                    self.exe.tasks@[i].process.total as nat,
                ),
            !self.exe.contains_id(id) ==> s@ == unknown_id_rep(id as nat),
    {
        self.exe.process(id)
    }

    /// A task's state code, or the sentinel `404` for an unknown id.
    pub fn state(&self, id: usize) -> (code: usize)
        requires
            self.wf(),
        ensures
            forall|i: int|
                0 <= i < self.exe.tasks@.len() && (#[trigger] self.exe.tasks@[i]).id == id
                    ==> code == state_code(self.exe.tasks@[i].fsm@),
            !self.exe.contains_id(id) ==> code == 404,
    {
        self.exe.state(id)
    }

    /// Toggle one task between working and pausing; an unknown id changes
    /// nothing.
    pub fn switch(&mut self, id: usize)
        requires
            old(self).wf(),
        ensures
            final(self).wf(),
            final(self).id_next == old(self).id_next,
            final(self).config == old(self).config,
            final(self).exe.tasks@.len() == old(self).exe.tasks@.len(),
            forall|i: int|
                0 <= i < old(self).exe.tasks@.len() && (#[trigger] old(self).exe.tasks@[i]).id
                    != id ==> final(self).exe.tasks@[i] == old(self).exe.tasks@[i],
            forall|i: int|
                0 <= i < old(self).exe.tasks@.len() && (#[trigger] old(self).exe.tasks@[i]).id
                    == id ==> stepped(
                    old(self).exe.tasks@[i],
                    final(self).exe.tasks@[i],
                    Trigger::Switch,
                ),
            final(self).exe.accepting == old(self).exe.accepting,
    {
        self.exe.switch(id);
        proof {
            assert forall|i: int| 0 <= i < self.exe.tasks@.len() implies (
            #[trigger] self.exe.tasks@[i]).id < self.id_next by {
                assert(self.exe.tasks@[i].id == old(self).exe.tasks@[i].id);
            }
        }
    }

    /// Cancel one task; an unknown id changes nothing.
    pub fn cancel(&mut self, id: usize)
        requires
            old(self).wf(),
        ensures
            final(self).wf(),
            final(self).id_next == old(self).id_next,
            final(self).config == old(self).config,
            final(self).exe.tasks@.len() == old(self).exe.tasks@.len(),
            forall|i: int|
                0 <= i < old(self).exe.tasks@.len() && (#[trigger] old(self).exe.tasks@[i]).id
                    != id ==> final(self).exe.tasks@[i] == old(self).exe.tasks@[i],
            forall|i: int|
                0 <= i < old(self).exe.tasks@.len() && (#[trigger] old(self).exe.tasks@[i]).id
                    == id ==> stepped(
                    old(self).exe.tasks@[i],
                    final(self).exe.tasks@[i],
                    Trigger::Cancel,
                ),
            final(self).exe.accepting == old(self).exe.accepting,
    {
        self.exe.cancel(id);
        proof {
            assert forall|i: int| 0 <= i < self.exe.tasks@.len() implies (
            #[trigger] self.exe.tasks@[i]).id < self.id_next by {
                assert(self.exe.tasks@[i].id == old(self).exe.tasks@[i].id);
            }
        }
    }

    /// Toggle every registered task.
    pub fn switch_all(&mut self)
        requires
            old(self).wf(),
        ensures
            final(self).wf(),
            final(self).id_next == old(self).id_next,
            final(self).config == old(self).config,
            final(self).exe.tasks@.len() == old(self).exe.tasks@.len(),
            forall|i: int|
                0 <= i < old(self).exe.tasks@.len() ==> stepped(
                    old(self).exe.tasks@[i],
                    final(self).exe.tasks@[i],
                    Trigger::Switch,
                ),
            final(self).exe.accepting == old(self).exe.accepting,
    {
        self.exe.switch_all();
        proof {
            assert forall|i: int| 0 <= i < self.exe.tasks@.len() implies (
            #[trigger] self.exe.tasks@[i]).id < self.id_next by {
                assert(self.exe.tasks@[i].id == old(self).exe.tasks@[i].id);
            }
        }
    }

    /// Cancel every registered task; the engine is shutting down.
    pub fn terminate(&mut self)
        requires
            old(self).wf(),
        ensures
            final(self).wf(),
            final(self).id_next == old(self).id_next,
            final(self).config == old(self).config,
            final(self).exe.tasks@.len() == old(self).exe.tasks@.len(),
            forall|i: int|
                0 <= i < old(self).exe.tasks@.len() ==> stepped(
                    old(self).exe.tasks@[i],
                    final(self).exe.tasks@[i],
                    Trigger::Cancel,
                ),
            !final(self).exe.accepting,
    {
        self.exe.terminate();
        proof {
            assert forall|i: int| 0 <= i < self.exe.tasks@.len() implies (
            #[trigger] self.exe.tasks@[i]).id < self.id_next by {
                assert(self.exe.tasks@[i].id == old(self).exe.tasks@[i].id);
            }
        }
    }
}

/// Registry isolation: under the engine's invariant, no two registered
/// tasks ever share an id, and every registered id lies below the counter
/// the next submission will use — a submission can neither lose nor
/// duplicate a registration.
pub proof fn lemma_registry_isolation(d: Downloader)
    requires
        d.wf(),
    ensures
        forall|i: int, j: int|
            0 <= i < j < d.exe.tasks@.len() ==> (#[trigger] d.exe.tasks@[i]).id != (
            #[trigger] d.exe.tasks@[j]).id,
        forall|i: int| 0 <= i < d.exe.tasks@.len() ==> (#[trigger] d.exe.tasks@[i]).id < d.id_next,
{
}

} // verus!

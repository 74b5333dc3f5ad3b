//! One end-to-end download-and-merge job: its identity, resolved title,
//! progress counters, control state machine, and the derived cache and
//! output paths.
//!
//! The surrounding process drives a task's execution: it resolves the
//! target, probes each stream's length, registers the length here, runs the
//! workers over the allocators the task hands out, and reports the overall
//! outcome back through [`Task::complete`].

use vstd::prelude::*;
use vstd::string::StringExecFns;

use crate::headers::HeadersGen;
use crate::process::Process;
use crate::state::{state_code, step, State, Trigger, FSM};
use crate::text::{dec_rep, progress_rep, usize_to_string};

verus! {

/// The cache directory of one task: `<save_dir>/cache_<id>/`.
pub open spec fn cache_dir_rep(save_dir: Seq<char>, id: nat) -> Seq<char> {
    save_dir + "/cache_"@ + dec_rep(id) + "/"@
}

/// The cache file of one stream: `<save_dir>/cache_<id>/<title>.<format>`.
pub open spec fn cache_path_rep(
    save_dir: Seq<char>,
    id: nat,
    title: Seq<char>,
    format: Seq<char>,
) -> Seq<char> {
    cache_dir_rep(save_dir, id) + title + "."@ + format
}

/// The final muxed file: `<save_dir>/<title>.<format>`.
pub open spec fn out_path_rep(save_dir: Seq<char>, title: Seq<char>, format: Seq<char>) -> Seq<
    char,
> {
    save_dir + "/"@ + title + "."@ + format
}

/// `post` is `pre` with one control trigger applied to its state machine
/// and everything else untouched.
pub open spec fn stepped(pre: Task, post: Task, t: Trigger) -> bool {
    &&& post.id == pre.id
    &&& post.target == pre.target
    &&& post.save_dir == pre.save_dir
    &&& post.title == pre.title
    &&& post.process == pre.process
    &&& post.fsm@ == step(pre.fsm@, t)
}

/// `post` is `pre` with the title newly recorded — or untouched where a
/// title already stood, keeping the record write-once.
pub open spec fn titled(pre: Task, post: Task, title: Seq<char>) -> bool {
    if pre.title@.len() == 0 {
        &&& post.id == pre.id
        &&& post.target == pre.target
        &&& post.save_dir == pre.save_dir
        &&& post.title@ == title
        &&& post.process == pre.process
        &&& post.fsm == pre.fsm
    } else {
        post == pre
    }
}

/// One download job.
#[derive(Debug)]
pub struct Task {
    pub id: usize,
    pub target: String,
    pub save_dir: String,
    pub title: String,
    pub process: Process,
    pub fsm: FSM,
}

impl Task {
    /// A fresh task: no title yet, nothing expected, nothing written,
    /// control state `Working`.
    pub fn new(id: usize, target: String, save_dir: String) -> (t: Task)
        ensures
            t.id == id,
            t.target@ == target@,
            t.save_dir@ == save_dir@,
            t.title@ == Seq::<char>::empty(),
            t.process.total == 0,
            t.process.finished == 0,
            t.fsm@ == State::Working,
    {
        Task {
            id,
            target,
            save_dir,
            title: String::new(),
            process: Process::new(),
            fsm: FSM::new(),
        }
    }

    /// Record the resolved title, exactly once, before any download begins.
    pub fn set_title(&mut self, title: String)
        requires
            old(self).title@.len() == 0,
        ensures
            final(self).title@ == title@,
            final(self).id == old(self).id,
            final(self).target == old(self).target,
            final(self).save_dir == old(self).save_dir,
            final(self).process == old(self).process,
            final(self).fsm == old(self).fsm,
    {
        self.title = title;
    }

    /// The resolved title; empty until the resolver has completed.
    pub fn title(&self) -> (t: String)
        ensures
            t@ == self.title@,
    {
        self.title.clone()
    }

    /// Register one stream's probed content length and hand out the range
    /// allocator its workers will share, spanning the stream's bytes
    /// `[0, total)` in chunks of `chunk` bytes.
    pub fn begin_stream(&mut self, total: usize, chunk: usize) -> (g: HeadersGen)
        requires
            total >= 1,
            chunk >= 1,
            total - 1 + chunk <= usize::MAX,
            old(self).process.total + total <= usize::MAX,
        ensures
            final(self).process.total == old(self).process.total + total,
            final(self).process.finished == old(self).process.finished,
            final(self).id == old(self).id,
            final(self).target == old(self).target,
            final(self).save_dir == old(self).save_dir,
            final(self).title == old(self).title,
            final(self).fsm == old(self).fsm,
            g.wf(),
            g.base() == 0,
            g.bound() == total - 1,
            g.chunk_size() == chunk,
            g.cursor() == 0,
            g.mark() == if chunk < total - 1 {
                chunk as int
            } else {
                total - 1
            },
            g.taken() == Seq::<(usize, usize)>::empty(),
    {
        self.process.add_total(total);
        HeadersGen::new(0, total - 1, chunk)
    }

    /// Record the overall outcome once every worker of both streams has
    /// returned: full success finishes the task, anything less drives it to
    /// `Cancelled`.
    pub fn complete(&mut self, success: bool)
        ensures
            success ==> final(self).fsm@ == step(old(self).fsm@, Trigger::Finish),
            !success ==> final(self).fsm@ == step(old(self).fsm@, Trigger::Cancel),
            final(self).id == old(self).id,
            final(self).target == old(self).target,
            final(self).save_dir == old(self).save_dir,
            final(self).title == old(self).title,
            final(self).process == old(self).process,
    {
        if success {
            self.fsm.finish();
        } else {
            self.fsm.cancel();
        }
    }

    /// Toggle the task between working and pausing.
    pub fn switch(&mut self)
        ensures
            final(self).fsm@ == step(old(self).fsm@, Trigger::Switch),
            final(self).id == old(self).id,
            final(self).target == old(self).target,
            final(self).save_dir == old(self).save_dir,
            final(self).title == old(self).title,
            final(self).process == old(self).process,
    {
        self.fsm.switch();
    }

    /// Request cancellation of the task.
    pub fn cancel(&mut self)
        ensures
            final(self).fsm@ == step(old(self).fsm@, Trigger::Cancel),
            final(self).id == old(self).id,
            final(self).target == old(self).target,
            final(self).save_dir == old(self).save_dir,
            final(self).title == old(self).title,
            final(self).process == old(self).process,
    {
        self.fsm.cancel();
    }

    /// The `"<finished>/<total>"` progress string.
    pub fn process(&self) -> (s: String)
        ensures
            s@ == progress_rep(self.process.finished as nat, self.process.total as nat),
    {
        self.process.get()
    }

    /// The numeric code of the current control state.
    pub fn state(&self) -> (code: usize)
        ensures
            code == state_code(self.fsm@),
    {
        self.fsm.now_state_code()
    }

    /// The cache directory the task downloads into, derived from its id;
    /// it exists only while the task executes.
    pub fn cache_dir(&self) -> (s: String)
        ensures
            s@ == cache_dir_rep(self.save_dir@, self.id as nat),
    {
        let mut s = self.save_dir.clone();
        s.append("/cache_");
        let id_str = usize_to_string(self.id);
        s.append(id_str.as_str());
        s.append("/");
        proof {
            assert(s@ =~= cache_dir_rep(self.save_dir@, self.id as nat));
        }
        s
    }

    /// The cache file of one stream, under the task's cache directory.
    pub fn cache_path(&self, format: &str) -> (s: String)
        ensures
            s@ == cache_path_rep(self.save_dir@, self.id as nat, self.title@, format@),
    {
        let mut s = self.cache_dir();
        s.append(self.title.as_str());
        s.append(".");
        s.append(format);
        proof {
            assert(s@ =~= cache_path_rep(self.save_dir@, self.id as nat, self.title@, format@));
        }
        s
    }

    /// The final output file the merged result is written to.
    pub fn out_path(&self, format: &str) -> (s: String)
        ensures
            s@ == out_path_rep(self.save_dir@, self.title@, format@),
    {
        let mut s = self.save_dir.clone();
        s.append("/");
        s.append(self.title.as_str());
        s.append(".");
        s.append(format);
        proof {
            assert(s@ =~= out_path_rep(self.save_dir@, self.title@, format@));
        }
        s
    }
}

} // verus!

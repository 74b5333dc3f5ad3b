//! The range worker protocol: pull a sub-range from the allocator, stream
//! its bytes into the output file at the correct offsets, resume from the
//! exact offset reached after a transient failure, and observe the control
//! state between ranges.
//!
//! The functions here are the worker's decision and data path over an
//! in-memory file and stream. They are exercised directly by tests with a
//! simulated stream; the surrounding process uses the same logic with the
//! network and the file system supplying the bytes.

use vstd::prelude::*;

use crate::headers::HeadersGen;
use crate::process::Process;
use crate::state::{is_terminal, State};

verus! {

/// What a worker does after one poll of the control state.
#[derive(Clone, Copy, Debug, PartialEq, Eq, Structural)]
pub enum WorkerAction {
    /// Keep pulling and fetching ranges.
    Proceed,
    /// Suspend and poll again later.
    Wait,
    /// Exit without completing the stream.
    Stop,
}

/// The worker's reaction to each control state. Cancellation wins over
/// pausing: a worker that observes a terminal state stops even if it was
/// waiting before.
pub open spec fn decision_of(s: State) -> WorkerAction {
    match s {
        State::Working => WorkerAction::Proceed,
        State::Pausing => WorkerAction::Wait,
        State::Cancelled => WorkerAction::Stop,
        State::Finished => WorkerAction::Stop,
    }
}

/// Decide the worker's next move from one observed control state.
pub fn worker_decision(s: State) -> (a: WorkerAction)
    ensures
        a == decision_of(s),
{
    match s {
        State::Working => WorkerAction::Proceed,
        State::Pausing => WorkerAction::Wait,
        State::Cancelled => WorkerAction::Stop,
        State::Finished => WorkerAction::Stop,
    }
}

/// Write `len` bytes of the stream into the file at their own offsets,
/// starting at `offset`: one positioned chunk write.
#[verifier::loop_isolation(false)]
fn write_chunk(file: &mut Vec<u8>, source: &Vec<u8>, offset: usize, len: usize)
    requires
        offset + len <= source@.len(),
        old(file)@.len() == source@.len(),
    ensures
        final(file)@.len() == old(file)@.len(),
        forall|k: int| offset <= k < offset + len ==> final(file)@[k] == source@[k],
        forall|k: int|
            0 <= k < final(file)@.len() && !(offset <= k < offset + len) ==> final(file)@[k]
                == old(file)@[k],
{
    // the length call pins the vector's length inside usize, bounding
    // every offset computed below
    let _len_bound: usize = source.len();
    let ghost file0 = file@;
    let mut k: usize = 0;
    while k < len
        invariant
            0 <= k <= len,
            offset + len <= source@.len(),
            file@.len() == file0.len() == source@.len(),
            forall|m: int| offset <= m < offset + k ==> file@[m] == source@[m],
            forall|m: int|
                0 <= m < file@.len() && !(offset <= m < offset + k) ==> file@[m] == file0[m],
        decreases len - k,
    {
        file[offset + k] = source[offset + k];
        k = k + 1;
    }
}

/// Fetch one inclusive sub-range `[lo, hi]` of the stream into the file,
/// resuming after each transient failure from the offset actually reached
/// — bytes already written are never re-fetched and never duplicated.
///
/// `failures` schedules the transient failures: entry `i` is the number of
/// bytes the connection delivers before dropping for the `i`-th time; after
/// the schedule is spent the connection delivers to the end of the range.
/// For every schedule the range lands in the file intact, the rest of the
/// file is untouched, and `finished` grows by exactly the range's size.
#[verifier::loop_isolation(false)]
pub fn download_range(
    file: &mut Vec<u8>,
    source: &Vec<u8>,
    lo: usize,
    hi: usize,
    failures: &Vec<usize>,
    process: &mut Process,
)
    requires
        lo <= hi < source@.len(),
        old(file)@.len() == source@.len(),
        old(process).finished + (hi - lo + 1) <= usize::MAX,
    ensures
        final(file)@.len() == old(file)@.len(),
        forall|k: int| lo <= k <= hi ==> final(file)@[k] == source@[k],
        forall|k: int|
            0 <= k < final(file)@.len() && !(lo <= k <= hi) ==> final(file)@[k] == old(file)@[k],
        final(process).finished == old(process).finished + (hi - lo + 1),
        final(process).total == old(process).total,
{
    // as above: every offset in [lo, hi] fits in usize
    let _len_bound: usize = source.len();
    let ghost file0 = file@;
    let ghost fin0 = process.finished;
    let ghost tot0 = process.total;
    let mut offset: usize = lo;
    let mut fi: usize = 0;
    while fi < failures.len() && offset <= hi
        invariant
            lo <= offset <= hi + 1,
            hi < source@.len(),
            file@.len() == file0.len() == source@.len(),
            fin0 + (hi - lo + 1) <= usize::MAX,
            forall|k: int| lo <= k < offset ==> file@[k] == source@[k],
            forall|k: int| 0 <= k < file@.len() && !(lo <= k < offset) ==> file@[k] == file0[k],
            process.finished == fin0 + (offset - lo),
            process.total == tot0,
        decreases failures@.len() - fi,
    {
        let remaining = hi + 1 - offset;
        let scheduled = failures[fi];
        let deliver = if scheduled < remaining {
            scheduled
        } else {
            remaining
        };
        write_chunk(file, source, offset, deliver);
        process.add_finished(deliver);
        offset = offset + deliver;
        fi = fi + 1;
        // the connection dropped: the next request resumes at `offset`,
        // the offset actually reached, not at `lo`
    }
    if offset <= hi {
        let remaining = hi + 1 - offset;
        write_chunk(file, source, offset, remaining);
        process.add_finished(remaining);
    }
}

/// Join the workers' reports: the whole download succeeded exactly when
/// every worker across both streams reported success.
pub fn all_succeeded(results: &Vec<bool>) -> (r: bool)
    ensures
        r <==> forall|i: int| 0 <= i < results@.len() ==> results@[i],
{
    let n = results.len();
    let mut j: usize = 0;
    while j < n
        invariant
            0 <= j <= n,
            n == results@.len(),
            forall|i: int| 0 <= i < j ==> results@[i],
        decreases n - j,
    {
        if !results[j] {
            return false;
        }
        j = j + 1;
    }
    true
}

/// Run one worker to completion or to a stop: poll the control state,
/// then pull and fetch the next range while the state allows it.
///
/// `polls` is the sequence of control states the worker observes, one per
/// poll; once it is spent the state reads `Working`. `failures` is the
/// transient-failure schedule applied to each range. The worker completes
/// exactly when no poll stopped it first; a completed worker leaves the
/// allocator exhausted and the whole span of the stream in the file.
#[verifier::loop_isolation(false)]
pub fn run_worker(
    file: &mut Vec<u8>,
    source: &Vec<u8>,
    gen: &mut HeadersGen,
    process: &mut Process,
    polls: &Vec<State>,
    failures: &Vec<usize>,
) -> (completed: bool)
    requires
        old(gen).wf(),
        old(gen).bound() < source@.len(),
        old(file)@.len() == source@.len(),
        old(process).finished + old(gen).bound() + 1 <= usize::MAX,
    ensures
        final(gen).wf(),
        final(gen).base() == old(gen).base(),
        final(gen).bound() == old(gen).bound(),
        final(file)@.len() == old(file)@.len(),
        final(process).total == old(process).total,
        old(gen).cursor() <= final(gen).cursor(),
        completed ==> final(gen).exhausted(),
        completed ==> forall|k: int|
            old(gen).cursor() <= k <= old(gen).bound() ==> final(file)@[k] == source@[k],
        !completed ==> exists|i: int| 0 <= i < polls@.len() && is_terminal(#[trigger] polls@[i]),
        forall|k: int|
            0 <= k < final(file)@.len() && !(old(gen).cursor() <= k <= old(gen).bound())
                ==> final(file)@[k] == old(file)@[k],
        final(process).finished == old(process).finished + (final(gen).cursor() - old(
            gen,
        ).cursor()),
        old(gen).cursor() <= old(gen).bound() + 1 && old(process).finished + old(gen).bound() + 1
            - old(gen).cursor() <= old(process).total
            ==> final(process).finished <= final(process).total,
{
    // as above: every offset in [lo, hi] fits in usize
    let _len_bound: usize = source.len();
    let ghost file0 = file@;
    let ghost fin0 = process.finished;
    let ghost tot0 = process.total;
    let ghost cur0 = gen.cursor();
    let mut pi: usize = 0;
    loop
        invariant
            gen.wf(),
            gen.base() == old(gen).base(),
            gen.bound() == old(gen).bound(),
            gen.bound() < source@.len(),
            cur0 <= gen.cursor(),
            file@.len() == file0.len() == source@.len(),
            0 <= pi <= polls@.len(),
            fin0 + gen.bound() + 1 <= usize::MAX,
            gen.cursor() == cur0 || gen.cursor() <= gen.bound() + 1,
            forall|k: int| cur0 <= k < gen.cursor() && k <= gen.bound() ==> file@[k] == source@[k],
            forall|k: int|
                0 <= k < file@.len() && !(cur0 <= k <= gen.bound()) ==> file@[k] == file0[k],
            process.finished == fin0 + (gen.cursor() - cur0),
            process.total == tot0,
        decreases gen.bound() + 1 - gen.cursor(), polls@.len() - pi,
    {
        let observed: State = if pi < polls.len() {
            polls[pi]
        } else {
            State::Working
        };
        let acted_on_schedule = pi < polls.len();
        pi = if acted_on_schedule {
            pi + 1
        } else {
            pi
        };
        match worker_decision(observed) {
            WorkerAction::Stop => {
                proof {
                    assert(is_terminal(polls@[pi - 1]));
                }
                return false;
            },
            WorkerAction::Wait => {
                // suspended; the next poll observes a fresh state
            },
            WorkerAction::Proceed => {
                match gen.next() {
                    None => {
                        return true;
                    },
                    Some((lo, hi)) => {
                        download_range(file, source, lo, hi, failures, process);
                    },
                }
            },
        }
    }
}

} // verus!

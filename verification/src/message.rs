//! The commands the executor's mailbox carries, and the replies it sends
//! back. The reply channel of the original transport becomes the return
//! value of [`crate::executor::Executor::handle`].

use vstd::prelude::*;

use crate::task::Task;

verus! {

/// One command submitted to the executor.
#[derive(Debug)]
pub enum Message {
    /// Register a freshly created task and start executing it.
    Job(Task),
    /// Query a task's progress string.
    Process(usize),
    /// Query a task's state code.
    State(usize),
    /// Query a task's resolved title.
    Title(usize),
    /// Cancel one task.
    Cancel(usize),
    /// Toggle one task between working and pausing.
    Switch(usize),
    /// Toggle every registered task.
    SwitchAll,
    /// Cancel every registered task and shut down.
    Terminate,
}

/// The executor's answer to one command.
#[derive(Debug)]
pub enum Reply {
    /// The command carried no query.
    Done,
    /// A progress or title string.
    Text(String),
    /// A state code.
    Code(usize),
}

} // verus!

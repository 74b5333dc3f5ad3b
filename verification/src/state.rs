//! The per-task lifecycle recorder, a four-state finite state machine.
//!
//! States: `Working`, `Pausing`, `Cancelled`, `Finished`. Triggers: `switch`
//! (toggles working/pausing), `cancel`, `finish`. `Cancelled` and `Finished`
//! are absorbing: once reached, no trigger leaves them.

use vstd::prelude::*;

verus! {

/// One task's lifecycle state.
#[derive(Clone, Copy, Debug, PartialEq, Eq, Structural)]
pub enum State {
    Working,
    Pausing,
    Cancelled,
    Finished,
}

/// A control trigger applied to the state machine.
#[derive(Clone, Copy, Debug, PartialEq, Eq, Structural)]
pub enum Trigger {
    Switch,
    Cancel,
    Finish,
}

/// The transition table: one trigger applied to one state.
pub open spec fn step(s: State, t: Trigger) -> State {
    match s {
        State::Working => match t {
            Trigger::Switch => State::Pausing,
            Trigger::Cancel => State::Cancelled,
            Trigger::Finish => State::Finished,
        },
        State::Pausing => match t {
            Trigger::Switch => State::Working,
            Trigger::Cancel => State::Cancelled,
            Trigger::Finish => State::Finished,
        },
        State::Cancelled => State::Cancelled,
        State::Finished => State::Finished,
    }
}

/// A whole sequence of triggers applied in order.
pub open spec fn run(s: State, ts: Seq<Trigger>) -> State
    decreases ts.len(),
{
    if ts.len() == 0 {
        s
    } else {
        run(step(s, ts[0]), ts.drop_first())
    }
}

/// The numeric code a caller sees for each state.
pub open spec fn state_code(s: State) -> usize {
    match s {
        State::Working => 0,
        State::Pausing => 1,
        State::Cancelled => 2,
        State::Finished => 3,
    }
}

/// A state no trigger can leave.
pub open spec fn is_terminal(s: State) -> bool {
    s == State::Cancelled || s == State::Finished
}

/// The state recorder owned by one task and polled by its workers.
#[derive(Debug)]
pub struct FSM {
    c: State,
}

impl View for FSM {
    type V = State;

    closed spec fn view(&self) -> State {
        self.c
    }
}

impl FSM {
    /// A fresh machine starts in `Working`.
    pub fn new() -> (fsm: FSM)
        ensures
            fsm@ == State::Working,
    {
        FSM { c: State::Working }
    }

    /// The current state as its numeric code, for non-blocking polling.
    pub fn now_state_code(&self) -> (code: usize)
        ensures
            code == state_code(self@),
    {
        match self.c {
            State::Working => 0,
            State::Pausing => 1,
            State::Cancelled => 2,
            State::Finished => 3,
        }
    }

    /// The current state itself.
    pub fn now(&self) -> (s: State)
        ensures
            s == self@,
    {
        self.c
    }

    /// Toggle working/pausing; no effect on a terminal state.
    pub fn switch(&mut self)
        ensures
            final(self)@ == step(old(self)@, Trigger::Switch),
    {
        self.change_state(Trigger::Switch);
    }

    /// Request cancellation; absorbing once applied.
    pub fn cancel(&mut self)
        ensures
            final(self)@ == step(old(self)@, Trigger::Cancel),
    {
        self.change_state(Trigger::Cancel);
    }

    /// Record successful completion; no effect after a cancellation.
    pub fn finish(&mut self)
        ensures
            final(self)@ == step(old(self)@, Trigger::Finish),
    {
        self.change_state(Trigger::Finish);
    }

    fn change_state(&mut self, t: Trigger)
        ensures
            final(self)@ == step(old(self)@, t),
    {
        self.c = match self.c {
            State::Working => match t {
                Trigger::Switch => State::Pausing,
                Trigger::Cancel => State::Cancelled,
                Trigger::Finish => State::Finished,
            },
            State::Pausing => match t {
                Trigger::Switch => State::Working,
                Trigger::Cancel => State::Cancelled,
                Trigger::Finish => State::Finished,
            },
            State::Cancelled => State::Cancelled,
            State::Finished => State::Finished,
        };
    }
}

/// Every entry of the transition table, written out: each of the four states
/// under each of the three triggers lands where the table says.
pub proof fn lemma_transition_table()
    ensures
        step(State::Working, Trigger::Switch) == State::Pausing,
        step(State::Working, Trigger::Cancel) == State::Cancelled,
        step(State::Working, Trigger::Finish) == State::Finished,
        step(State::Pausing, Trigger::Switch) == State::Working,
        step(State::Pausing, Trigger::Cancel) == State::Cancelled,
        step(State::Pausing, Trigger::Finish) == State::Finished,
        step(State::Cancelled, Trigger::Switch) == State::Cancelled,
        step(State::Cancelled, Trigger::Cancel) == State::Cancelled,
        step(State::Cancelled, Trigger::Finish) == State::Cancelled,
        step(State::Finished, Trigger::Switch) == State::Finished,
        step(State::Finished, Trigger::Cancel) == State::Finished,
        step(State::Finished, Trigger::Finish) == State::Finished,
{
}

/// `Cancelled` and `Finished` are absorbing: any further sequence of
/// triggers, in any order, leaves the state unchanged.
pub proof fn lemma_terminal_absorbing(s: State, ts: Seq<Trigger>)
    requires
        is_terminal(s),
    ensures
        run(s, ts) == s,
    decreases ts.len(),
{
    if ts.len() > 0 {
        lemma_terminal_absorbing(step(s, ts[0]), ts.drop_first());
    }
}

/// Duplicate `cancel` or `finish` triggers are idempotent: a second
/// application of the same trigger lands on the same state.
pub proof fn lemma_cancel_finish_idempotent(s: State)
    ensures
        step(step(s, Trigger::Cancel), Trigger::Cancel) == step(s, Trigger::Cancel),
        step(step(s, Trigger::Finish), Trigger::Finish) == step(s, Trigger::Finish),
{
}

} // verus!

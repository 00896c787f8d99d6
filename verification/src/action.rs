//! Actions: the intended state changes that the run loop drains. Control
//! variants (quit, suspend, resume, tick, render, resize, noop) drive the
//! loop itself; the remaining variants belong to the demo component set.

use vstd::prelude::*;

verus! {

/// An intended state change, produced by event translation or by a
/// component.
#[derive(Debug, PartialEq, Eq)]
pub enum Action {
    Quit,
    Suspend,
    Resume,
    Tick,
    Render,
    Resize(u16, u16),
    Noop,
    ToggleShowHelp,
    ScheduleIncrement,
    ScheduleDecrement,
    Increment(usize),
    Decrement(usize),
    CompleteInput(Vec<char>),
    EnterNormal,
    EnterInsert,
    EnterProcessing,
    ExitProcessing,
    Update,
}

/// The mathematical value of an [`Action`]: the same tags, with text as a
/// character sequence.
pub ghost enum ActionV {
    Quit,
    Suspend,
    Resume,
    Tick,
    Render,
    Resize(u16, u16),
    Noop,
    ToggleShowHelp,
    ScheduleIncrement,
    ScheduleDecrement,
    Increment(usize),
    Decrement(usize),
    CompleteInput(Seq<char>),
    EnterNormal,
    EnterInsert,
    EnterProcessing,
    ExitProcessing,
    Update,
}

impl View for Action {
    type V = ActionV;

    open spec fn view(&self) -> ActionV {
        match self {
            Action::Quit => ActionV::Quit,
            Action::Suspend => ActionV::Suspend,
            Action::Resume => ActionV::Resume,
            Action::Tick => ActionV::Tick,
            Action::Render => ActionV::Render,
            Action::Resize(x, y) => ActionV::Resize(*x, *y),
            Action::Noop => ActionV::Noop,
            Action::ToggleShowHelp => ActionV::ToggleShowHelp,
            Action::ScheduleIncrement => ActionV::ScheduleIncrement,
            Action::ScheduleDecrement => ActionV::ScheduleDecrement,
            Action::Increment(i) => ActionV::Increment(*i),
            Action::Decrement(i) => ActionV::Decrement(*i),
            Action::CompleteInput(s) => ActionV::CompleteInput(s@),
            Action::EnterNormal => ActionV::EnterNormal,
            Action::EnterInsert => ActionV::EnterInsert,
            Action::EnterProcessing => ActionV::EnterProcessing,
            Action::ExitProcessing => ActionV::ExitProcessing,
            Action::Update => ActionV::Update,
        }
    }
}

impl Clone for Action {
    /// A clone has the same mathematical value.
    fn clone(&self) -> (r: Self)
        ensures
            r@ == self@,
    {
        match self {
            Action::Quit => Action::Quit,
            Action::Suspend => Action::Suspend,
            Action::Resume => Action::Resume,
            Action::Tick => Action::Tick,
            Action::Render => Action::Render,
            Action::Resize(x, y) => Action::Resize(*x, *y),
            Action::Noop => Action::Noop,
            Action::ToggleShowHelp => Action::ToggleShowHelp,
            Action::ScheduleIncrement => Action::ScheduleIncrement,
            Action::ScheduleDecrement => Action::ScheduleDecrement,
            Action::Increment(i) => Action::Increment(*i),
            Action::Decrement(i) => Action::Decrement(*i),
            Action::CompleteInput(s) => Action::CompleteInput(copy_chars(s)),
            Action::EnterNormal => Action::EnterNormal,
            Action::EnterInsert => Action::EnterInsert,
            Action::EnterProcessing => Action::EnterProcessing,
            Action::ExitProcessing => Action::ExitProcessing,
            Action::Update => Action::Update,
        }
    }
}

/// Copies a character buffer; characters are plain values, so the copy has
/// exactly the same contents.
pub fn copy_chars(v: &Vec<char>) -> (r: Vec<char>)
    ensures
        r@ == v@,
{
    let mut r: Vec<char> = Vec::new();
    let mut i: usize = 0;
    while i < v.len()
        invariant
            i <= v@.len(),
            r@ == v@.take(i as int),
        decreases v@.len() - i,
    {
        r.push(v[i]);
        i = i + 1;
        proof {
            assert(r@ =~= v@.take(i as int));
        }
    }
    proof {
        assert(v@.take(v@.len() as int) =~= v@);
    }
    r
}

/// The view of a sequence of actions, element by element.
pub open spec fn acts_view(s: Seq<Action>) -> Seq<ActionV> {
    s.map_values(|a: Action| a@)
}

/// A unit of work to hand to a background task: emit `immediate` into the
/// action queue at once, wait `delay_ms`, then emit each action of `delayed`
/// in order. Background work communicates only by emitting actions.
#[derive(Debug, PartialEq, Eq)]
pub struct DelayedJob {
    pub immediate: Action,
    pub delay_ms: u64,
    pub delayed: Vec<Action>,
}

/// The mathematical value of a [`DelayedJob`].
pub ghost struct JobV {
    pub immediate: ActionV,
    pub delay_ms: u64,
    pub delayed: Seq<ActionV>,
}

impl View for DelayedJob {
    type V = JobV;

    open spec fn view(&self) -> JobV {
        JobV {
            immediate: self.immediate@,
            delay_ms: self.delay_ms,
            delayed: acts_view(self.delayed@),
        }
    }
}

} // verus!

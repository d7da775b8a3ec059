//! Whole runs of the machine against a recorded list of firmware answers.
//!
//! A run starts the machine and feeds it the answers one by one. What is fed
//! to a machine that has exited or halted is ignored.

use crate::machine::{start, start_spec, step, step_spec, Action, Event, State};
use vstd::prelude::*;

verus! {

/// The state of the machine after the given answers.
pub open spec fn state_after(events: Seq<Event>) -> State
    decreases events.len(),
{
    if events.len() == 0 {
        start_spec().0
    } else {
        let before = state_after(events.drop_last());
        match step_spec(before, events.last()) {
            Some((next, _)) => next,
            None => before,
        }
    }
}

/// The actions the machine has asked for after the given answers, the first
/// action included, in the order it asked for them.
pub open spec fn actions_after(events: Seq<Event>) -> Seq<Action>
    decreases events.len(),
{
    if events.len() == 0 {
        seq![start_spec().1]
    } else {
        let before = actions_after(events.drop_last());
        match step_spec(state_after(events.drop_last()), events.last()) {
            Some((_, action)) => before.push(action),
            None => before,
        }
    }
}

/// What a run came to.
#[derive(Debug)]
pub struct Run {
    /// Every action the machine asked for, in order.
    pub actions: Vec<Action>,
    /// The state the machine was left in.
    pub state: State,
}

/// Runs a fresh machine against the given answers.
pub fn replay(events: &[Event]) -> (run: Run)
    ensures
        run.actions@ == actions_after(events@),
        run.state == state_after(events@),
{
    let (first_state, first_action) = start();
    let mut state = first_state;
    let mut actions: Vec<Action> = Vec::new();
    actions.push(first_action);
    assert(events@.take(0).len() == 0);
    let mut i: usize = 0;
    while i < events.len()
        invariant
            i <= events.len(),
            state == state_after(events@.take(i as int)),
            actions@ == actions_after(events@.take(i as int)),
        decreases events.len() - i,
    {
        proof {
            let upto = events@.take(i + 1);
            assert(upto.drop_last() =~= events@.take(i as int));
            assert(upto.last() == events@[i as int]);
        }
        match step(state, events[i]) {
            Some((next, action)) => {
                state = next;
                actions.push(action);
            },
            None => {},
        }
        i += 1;
    }
    assert(events@.take(events.len() as int) =~= events@);
    Run { actions, state }
}

} // verus!

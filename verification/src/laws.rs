//! What holds of every run of the machine.
//!
//! The statements are over [`state_after`] and [`actions_after`], the model
//! that [`crate::replay::replay`] computes and that a driver follows step by
//! step.

use crate::console::{Key, KeyPoll, Line};
use crate::machine::{start_spec, step_spec, Action, Event, State, STALL_MICROSECONDS};
use crate::replay::{actions_after, state_after};
use crate::status::SUCCESS;
use vstd::prelude::*;

verus! {

/// The actions every run opens with, up to the first query of the keyboard.
pub open spec fn opening() -> Seq<Action> {
    seq![
        Action::ResetConsole { extended: false },
        Action::WriteLine { line: Line::Greeting },
        Action::WriteLine { line: Line::Blank },
        Action::WriteLine { line: Line::Instruction },
        Action::PollKey,
    ]
}

/// How many of the actions hand a status back to the boot environment.
pub open spec fn exit_count(actions: Seq<Action>) -> nat
    decreases actions.len(),
{
    if actions.len() == 0 {
        0
    } else {
        exit_count(actions.drop_last()) + if actions.last() is Exit {
            1nat
        } else {
            0nat
        }
    }
}

/// How many of the actions stall the processor.
pub open spec fn stall_count(actions: Seq<Action>) -> nat
    decreases actions.len(),
{
    if actions.len() == 0 {
        0
    } else {
        stall_count(actions.drop_last()) + if actions.last() is Stall {
            1nat
        } else {
            0nat
        }
    }
}

/// The answers of a console that works: the reset returns, with whatever
/// result, and the three lines are written.
pub open spec fn console_works(reset_ok: bool) -> Seq<Event> {
    seq![
        Event::ResetDone { ok: reset_ok },
        Event::LineWritten { ok: true },
        Event::LineWritten { ok: true },
        Event::LineWritten { ok: true },
    ]
}

/// The answers to `n` queries that find no key, each followed by the end of
/// its stall.
pub open spec fn empty_polls(n: nat) -> Seq<Event>
    decreases n,
{
    if n == 0 {
        Seq::empty()
    } else {
        empty_polls((n - 1) as nat).push(Event::KeyPolled { poll: KeyPoll::Empty }).push(
            Event::StallDone,
        )
    }
}

/// `n` stalls of the fixed time, each followed by the next query.
pub open spec fn stall_rounds(n: nat) -> Seq<Action>
    decreases n,
{
    if n == 0 {
        Seq::empty()
    } else {
        stall_rounds((n - 1) as nat).push(
            Action::Stall { microseconds: STALL_MICROSECONDS },
        ).push(Action::PollKey)
    }
}

/// An answer that reports a console failure: a line that could not be
/// written, or a keyboard query that failed.
pub open spec fn is_failure(event: Event) -> bool {
    event == (Event::LineWritten { ok: false }) || event == (Event::KeyPolled {
        poll: KeyPoll::Failed,
    })
}

/// One more answer takes the run one step further, or leaves it as it is if
/// the machine has ended.
pub proof fn run_extends(events: Seq<Event>, event: Event)
    ensures
        step_spec(state_after(events), event) matches Some((next, action)) ==> {
            &&& state_after(events.push(event)) == next
            &&& actions_after(events.push(event)) == actions_after(events).push(action)
        },
        step_spec(state_after(events), event) is None ==> {
            &&& state_after(events.push(event)) == state_after(events)
            &&& actions_after(events.push(event)) == actions_after(events)
        },
{
    assert(events.push(event).drop_last() =~= events);
}

/// The last action of a run is the one its state stands for, and only the
/// last action can end the run.
pub proof fn last_action_is_pending(events: Seq<Event>)
    ensures
        actions_after(events).len() >= 1,
        actions_after(events).last() == state_after(events).pending(),
        forall|i: int|
            0 <= i < actions_after(events).len() - 1 ==> {
                &&& !(#[trigger] actions_after(events)[i] is Exit)
                &&& !(actions_after(events)[i] is Halt)
            },
    decreases events.len(),
{
    if events.len() > 0 {
        last_action_is_pending(events.drop_last());
    }
}

/// A run hands back at most one status, as its last action, and the status
/// is success. It hands one back exactly if it ends in [`State::Exited`].
pub proof fn exit_is_single_and_successful(events: Seq<Event>)
    ensures
        exit_count(actions_after(events)) == if state_after(events) is Exited {
            1nat
        } else {
            0nat
        },
        forall|i: int|
            0 <= i < actions_after(events).len() && #[trigger] actions_after(events)[i] is Exit
                ==> {
                &&& i == actions_after(events).len() - 1
                &&& actions_after(events)[i] == (Action::Exit { status: SUCCESS })
                &&& state_after(events) is Exited
            },
    decreases events.len(),
{
    last_action_is_pending(events);
    if events.len() > 0 {
        let before = events.drop_last();
        exit_is_single_and_successful(before);
        last_action_is_pending(before);
        match step_spec(state_after(before), events.last()) {
            Some((_, action)) => {
                assert(actions_after(events).drop_last() =~= actions_after(before));
                assert(actions_after(events).last() == action);
            },
            None => {},
        }
    } else {
        assert(actions_after(events).drop_last() =~= Seq::<Action>::empty());
        assert(exit_count(Seq::<Action>::empty()) == 0);
    }
}

/// How far into the opening a state is: the number of actions asked for when
/// the state is reached for the first time.
spec fn opening_progress(state: State) -> nat {
    match state {
        State::Resetting => 1,
        State::Writing(line) => 2 + line.index_spec(),
        _ => 5,
    }
}

/// The console is reset first, then the greeting, the blank line and the
/// instruction are written, in this order and once each, and only then the
/// keyboard is queried.
///
/// * A run follows [`opening`] action by action; the only other action it can
///   hold among its first five is a halt, which ends it.
/// * After the opening nothing is written and the console is not reset
///   again.
/// * A run that has queried the keyboard, stalled or exited holds the whole
///   opening.
pub proof fn opening_comes_first(events: Seq<Event>)
    ensures
        forall|i: int|
            0 <= i < actions_after(events).len() && i < 5 ==> {
                ||| #[trigger] actions_after(events)[i] == opening()[i]
                ||| actions_after(events)[i] is Halt && i == actions_after(events).len() - 1
            },
        forall|i: int|
            5 <= i < actions_after(events).len() ==> {
                &&& !(#[trigger] actions_after(events)[i] is WriteLine)
                &&& !(actions_after(events)[i] is ResetConsole)
            },
        forall|i: int|
            0 <= i < actions_after(events).len() && {
                ||| #[trigger] actions_after(events)[i] is PollKey
                ||| actions_after(events)[i] is Stall
                ||| actions_after(events)[i] is Exit
            } ==> {
                &&& i >= 4
                &&& actions_after(events).take(5) == opening()
            },
{
    opening_invariant(events);
    last_action_is_pending(events);
}

/// The statements of [`opening_comes_first`], together with what carries
/// them from one step to the next: as long as the lines are being written,
/// the run is a part of the opening, as long as the state says.
proof fn opening_invariant(events: Seq<Event>)
    ensures
        forall|i: int|
            0 <= i < actions_after(events).len() && i < 5 ==> {
                ||| #[trigger] actions_after(events)[i] == opening()[i]
                ||| actions_after(events)[i] is Halt
            },
        forall|i: int|
            5 <= i < actions_after(events).len() ==> {
                &&& !(#[trigger] actions_after(events)[i] is WriteLine)
                &&& !(actions_after(events)[i] is ResetConsole)
            },
        forall|i: int|
            0 <= i < actions_after(events).len() && {
                ||| #[trigger] actions_after(events)[i] is PollKey
                ||| actions_after(events)[i] is Stall
                ||| actions_after(events)[i] is Exit
            } ==> {
                &&& i >= 4
                &&& actions_after(events).take(5) == opening()
            },
        !(state_after(events) is Halted) ==> {
            &&& actions_after(events).len() >= opening_progress(state_after(events))
            &&& actions_after(events).take(opening_progress(state_after(events)) as int)
                == opening().take(opening_progress(state_after(events)) as int)
        },
        state_after(events) is Resetting || state_after(events) is Writing
            ==> actions_after(events).len() == opening_progress(state_after(events)),
    decreases events.len(),
{
    last_action_is_pending(events);
    let actions = actions_after(events);
    if events.len() > 0 {
        let before = events.drop_last();
        opening_invariant(before);
        last_action_is_pending(before);
        let earlier = actions_after(before);
        match step_spec(state_after(before), events.last()) {
            Some((next, action)) => {
                assert(actions == earlier.push(action));
                assert forall|i: int| 0 <= i < actions.len() - 1 implies actions[i]
                    == earlier[i] by {}
                let reached = opening_progress(state_after(before)) as int;
                assert(earlier.take(reached) == opening().take(reached));
                assert forall|i: int| 0 <= i < reached implies earlier[i] == opening()[i] by {
                    assert(earlier.take(reached)[i] == opening().take(reached)[i]);
                }
                if !(next is Halted) {
                    let now = opening_progress(next) as int;
                    assert(actions.take(now) =~= opening().take(now));
                }
                assert forall|i: int|
                    0 <= i < actions.len() && (actions[i] is PollKey || actions[i] is Stall
                        || actions[i] is Exit) implies i >= 4 && actions.take(5) == opening() by {
                    if i < actions.len() - 1 {
                        assert(earlier[i] == actions[i]);
                        assert(earlier.take(5) == opening());
                        assert(actions.take(5) =~= earlier.take(5));
                    } else {
                        assert(actions.take(5) =~= opening().take(5));
                        assert(opening().take(5) =~= opening());
                    }
                }
            },
            None => {},
        }
    } else {
        assert(actions.take(1) =~= opening().take(1));
    }
}

/// A run that has ended stays as it is, whatever is fed to it afterwards: a
/// halted machine never leaves the halt and hands back no status, and a
/// machine that has exited hands back no second one.
pub proof fn ended_run_stays(events: Seq<Event>, i: int)
    requires
        0 <= i <= events.len(),
        state_after(events.take(i)).is_terminal(),
    ensures
        state_after(events) == state_after(events.take(i)),
        actions_after(events) == actions_after(events.take(i)),
        state_after(events.take(i)) is Halted ==> exit_count(actions_after(events)) == 0,
    decreases events.len(),
{
    if i == events.len() {
        assert(events.take(i) =~= events);
    } else {
        assert(events.drop_last().take(i) =~= events.take(i));
        ended_run_stays(events.drop_last(), i);
    }
    exit_is_single_and_successful(events);
}

/// The machine exits only on a key: a run that has exited was querying the
/// keyboard at some point and was answered with a pressed key there.
pub proof fn exit_follows_a_key(events: Seq<Event>) -> (i: int)
    requires
        state_after(events) is Exited,
    ensures
        0 <= i < events.len(),
        state_after(events.take(i)) is Polling,
        events[i] matches Event::KeyPolled { poll: KeyPoll::Pressed(_) },
    decreases events.len(),
{
    let before = events.drop_last();
    if state_after(before) is Exited {
        let i = exit_follows_a_key(before);
        assert(before.take(i) =~= events.take(i));
        i
    } else {
        let i = events.len() - 1;
        assert(events.take(i) =~= before);
        i
    }
}

/// Any key ends the poll loop: whatever the key, a machine that is querying
/// the keyboard and is answered with it exits with success.
pub proof fn any_key_exits(events: Seq<Event>, key: Key)
    requires
        state_after(events) is Polling,
    ensures
        state_after(events.push(Event::KeyPolled { poll: KeyPoll::Pressed(key) })) is Exited,
        actions_after(events.push(Event::KeyPolled { poll: KeyPoll::Pressed(key) }))
            == actions_after(events).push(Action::Exit { status: SUCCESS }),
{
    run_extends(events, Event::KeyPolled { poll: KeyPoll::Pressed(key) });
}

/// Counting the stalls of a list of actions goes action by action.
proof fn stall_count_push(actions: Seq<Action>, action: Action)
    ensures
        stall_count(actions.push(action)) == stall_count(actions) + if action is Stall {
            1nat
        } else {
            0nat
        },
{
    assert(actions.push(action).drop_last() =~= actions);
}

/// With a console that works, `n` queries that find no key lead to exactly
/// `n` stalls of the fixed time, each followed by the next query, and the
/// machine is querying again.
pub proof fn empty_polls_stall(reset_ok: bool, n: nat)
    ensures
        state_after(console_works(reset_ok) + empty_polls(n)) is Polling,
        actions_after(console_works(reset_ok) + empty_polls(n)) == opening() + stall_rounds(n),
        stall_count(opening() + stall_rounds(n)) == n,
    decreases n,
{
    let boot = console_works(reset_ok);
    if n == 0 {
        let e0 = Seq::<Event>::empty();
        let e1 = e0.push(boot[0]);
        let e2 = e1.push(boot[1]);
        let e3 = e2.push(boot[2]);
        let e4 = e3.push(boot[3]);
        run_extends(e0, boot[0]);
        run_extends(e1, boot[1]);
        run_extends(e2, boot[2]);
        run_extends(e3, boot[3]);
        assert(e4 =~= boot + empty_polls(0));
        assert(actions_after(e4) =~= opening() + stall_rounds(0));
        let a0 = Seq::<Action>::empty();
        let a1 = a0.push(opening()[0]);
        let a2 = a1.push(opening()[1]);
        let a3 = a2.push(opening()[2]);
        let a4 = a3.push(opening()[3]);
        let a5 = a4.push(opening()[4]);
        stall_count_push(a0, opening()[0]);
        stall_count_push(a1, opening()[1]);
        stall_count_push(a2, opening()[2]);
        stall_count_push(a3, opening()[3]);
        stall_count_push(a4, opening()[4]);
        assert(a5 =~= opening() + stall_rounds(0));
    } else {
        let m = (n - 1) as nat;
        empty_polls_stall(reset_ok, m);
        let sofar = boot + empty_polls(m);
        let empty = Event::KeyPolled { poll: KeyPoll::Empty };
        run_extends(sofar, empty);
        run_extends(sofar.push(empty), Event::StallDone);
        assert(sofar.push(empty).push(Event::StallDone) =~= boot + empty_polls(n));
        let earlier = opening() + stall_rounds(m);
        let stall = Action::Stall { microseconds: STALL_MICROSECONDS };
        stall_count_push(earlier, stall);
        stall_count_push(earlier.push(stall), Action::PollKey);
        assert(earlier.push(stall).push(Action::PollKey) =~= opening() + stall_rounds(n));
    }
}

/// With a console that works, `n` queries that find no key followed by one
/// that finds a key give the opening, exactly `n` stalls of the fixed time,
/// each followed by a query, and then the exit with success.
pub proof fn key_after_empty_polls_exits(reset_ok: bool, n: nat, key: Key)
    ensures
        ({
            let events = (console_works(reset_ok) + empty_polls(n)).push(
                Event::KeyPolled { poll: KeyPoll::Pressed(key) },
            );
            let actions = (opening() + stall_rounds(n)).push(Action::Exit { status: SUCCESS });
            &&& state_after(events) is Exited
            &&& actions_after(events) == actions
            &&& stall_count(actions) == n
            &&& exit_count(actions) == 1
        }),
{
    let polled = console_works(reset_ok) + empty_polls(n);
    empty_polls_stall(reset_ok, n);
    any_key_exits(polled, key);
    let events = polled.push(Event::KeyPolled { poll: KeyPoll::Pressed(key) });
    exit_is_single_and_successful(events);
    stall_count_push(opening() + stall_rounds(n), Action::Exit { status: SUCCESS });
}

/// A failed console reset changes nothing: the run goes on as after a reset
/// that succeeded, so the greeting is written in either case.
pub proof fn reset_result_is_ignored(events: Seq<Event>, ok: bool)
    requires
        events.len() > 0,
        events[0] is ResetDone,
    ensures
        state_after(events.update(0, Event::ResetDone { ok })) == state_after(events),
        actions_after(events.update(0, Event::ResetDone { ok })) == actions_after(events),
        actions_after(events).len() >= 2,
        actions_after(events)[1] == (Action::WriteLine { line: Line::Greeting }),
    decreases events.len(),
{
    let other = events.update(0, Event::ResetDone { ok });
    if events.len() == 1 {
        assert(events.drop_last() =~= Seq::<Event>::empty());
        assert(other.drop_last() =~= Seq::<Event>::empty());
        assert(state_after(events.drop_last()) == start_spec().0);
        assert(state_after(other.drop_last()) == start_spec().0);
    } else {
        let before = events.drop_last();
        reset_result_is_ignored(before, ok);
        assert(other.drop_last() =~= before.update(0, Event::ResetDone { ok }));
        assert(other.last() == events.last());
    }
}

/// A console failure forbids the exit: if a line could not be written or a
/// keyboard query failed before the machine has exited, the run ends in
/// [`State::Halted`] and hands back no status, whatever follows.
pub proof fn failure_halts(events: Seq<Event>, i: int)
    requires
        0 <= i < events.len(),
        is_failure(events[i]),
        !(state_after(events.take(i)) is Exited),
    ensures
        state_after(events) is Halted,
        exit_count(actions_after(events)) == 0,
        forall|j: int|
            0 <= j < actions_after(events).len() ==> !(#[trigger] actions_after(events)[j]
                is Exit),
{
    if state_after(events.take(i)) is Halted {
        ended_run_stays(events, i);
    } else {
        run_extends(events.take(i), events[i]);
        assert(events.take(i).push(events[i]) =~= events.take(i + 1));
        ended_run_stays(events, i + 1);
    }
    exit_is_single_and_successful(events);
}

} // verus!

use uefi_hello::console::{Key, KeyPoll, Line};
use uefi_hello::machine::{start, step, Action, Event, State, STALL_MICROSECONDS};
use uefi_hello::replay::replay;
use uefi_hello::status::SUCCESS;

const RESET: Action = Action::ResetConsole { extended: false };
const POLL: Action = Action::PollKey;
const STALL: Action = Action::Stall { microseconds: 10_000 };
const EXIT: Action = Action::Exit { status: 0 };

fn write(line: Line) -> Action {
    Action::WriteLine { line }
}

fn written() -> Event {
    Event::LineWritten { ok: true }
}

fn polled(poll: KeyPoll) -> Event {
    Event::KeyPolled { poll }
}

fn key_x() -> Key {
    Key::Printable(u16::from(uefi::Char16::try_from('x').unwrap()))
}

fn opening() -> Vec<Action> {
    vec![
        RESET,
        write(Line::Greeting),
        write(Line::Blank),
        write(Line::Instruction),
        POLL,
    ]
}

fn console_works() -> Vec<Event> {
    vec![Event::ResetDone { ok: true }, written(), written(), written()]
}

fn stalls(actions: &[Action]) -> usize {
    actions
        .iter()
        .filter(|a| matches!(a, Action::Stall { .. }))
        .count()
}

fn exits(actions: &[Action]) -> usize {
    actions
        .iter()
        .filter(|a| matches!(a, Action::Exit { .. }))
        .count()
}

#[test]
fn three_empty_polls_then_x() {
    let mut events = console_works();
    for _ in 0..3 {
        events.push(polled(KeyPoll::Empty));
        events.push(Event::StallDone);
    }
    events.push(polled(KeyPoll::Pressed(key_x())));

    let run = replay(&events);

    let mut expected = opening();
    for _ in 0..3 {
        expected.push(STALL);
        expected.push(POLL);
    }
    expected.push(EXIT);
    assert_eq!(run.actions, expected);
    assert_eq!(run.state, State::Exited);
    assert_eq!(stalls(&run.actions), 3);
    assert_eq!(exits(&run.actions), 1);
    assert_eq!(run.actions.last(), Some(&Action::Exit { status: SUCCESS }));

    let writes: Vec<Action> = run
        .actions
        .iter()
        .copied()
        .filter(|a| matches!(a, Action::WriteLine { .. }))
        .collect();
    assert_eq!(
        writes,
        vec![
            write(Line::Greeting),
            write(Line::Blank),
            write(Line::Instruction)
        ]
    );
}

#[test]
fn key_at_first_poll_exits_without_stall() {
    let mut events = console_works();
    events.push(polled(KeyPoll::Pressed(key_x())));
    let run = replay(&events);
    let mut expected = opening();
    expected.push(EXIT);
    assert_eq!(run.actions, expected);
    assert_eq!(run.state, State::Exited);
    assert_eq!(stalls(&run.actions), 0);
}

#[test]
fn many_empty_polls_give_as_many_stalls() {
    for n in [1usize, 2, 7, 50] {
        let mut events = console_works();
        for _ in 0..n {
            events.push(polled(KeyPoll::Empty));
            events.push(Event::StallDone);
        }
        let waiting = replay(&events);
        assert_eq!(waiting.state, State::Polling);
        assert_eq!(stalls(&waiting.actions), n);
        assert_eq!(exits(&waiting.actions), 0);

        events.push(polled(KeyPoll::Pressed(Key::Special(0x17))));
        let done = replay(&events);
        assert_eq!(done.state, State::Exited);
        assert_eq!(stalls(&done.actions), n);
        assert_eq!(exits(&done.actions), 1);
        assert_eq!(done.actions.len(), 5 + 2 * n + 1);
        for action in &done.actions {
            if let Action::Stall { microseconds } = action {
                assert_eq!(*microseconds, 10_000);
            }
        }
    }
}

#[test]
fn start_resets_the_console_without_extended_verification() {
    assert_eq!(start(), (State::Resetting, RESET));
}

#[test]
fn empty_run_holds_only_the_reset() {
    let run = replay(&[]);
    assert_eq!(run.actions, vec![RESET]);
    assert_eq!(run.state, State::Resetting);
}

#[test]
fn stall_time_is_ten_milliseconds() {
    assert_eq!(STALL_MICROSECONDS, 10_000);
    assert_eq!(STALL_MICROSECONDS / 1_000, 10);
    assert_eq!(
        step(State::Polling, polled(KeyPoll::Empty)),
        Some((State::Stalling, Action::Stall { microseconds: 10_000 }))
    );
}

#[test]
fn exit_status_is_the_firmware_success() {
    let next = step(State::Polling, polled(KeyPoll::Pressed(key_x())));
    match next {
        Some((State::Exited, Action::Exit { status })) => {
            assert_eq!(uefi::Status(status), uefi::Status::SUCCESS);
            assert!(uefi::Status(status).is_success());
            assert_eq!(status, SUCCESS);
            assert_eq!(status, 0);
        }
        other => panic!("unexpected step: {:?}", other),
    }
}

#[test]
fn any_key_exits() {
    let keys = [
        Key::Printable(0),
        Key::Printable('x' as u16),
        Key::Printable(0x0d),
        Key::Printable(0xffff),
        Key::Special(0),
        Key::Special(u16::from(uefi::proto::console::text::ScanCode::ESCAPE.0)),
        Key::Special(0xffff),
    ];
    for key in keys {
        assert_eq!(
            step(State::Polling, polled(KeyPoll::Pressed(key))),
            Some((State::Exited, EXIT))
        );
    }
}

#[test]
fn lines_follow_each_other() {
    assert_eq!(
        step(State::Writing(Line::Greeting), written()),
        Some((State::Writing(Line::Blank), write(Line::Blank)))
    );
    assert_eq!(
        step(State::Writing(Line::Blank), written()),
        Some((State::Writing(Line::Instruction), write(Line::Instruction)))
    );
    assert_eq!(
        step(State::Writing(Line::Instruction), written()),
        Some((State::Polling, POLL))
    );
    assert_eq!(Line::Greeting.successor(), Some(Line::Blank));
    assert_eq!(Line::Blank.successor(), Some(Line::Instruction));
    assert_eq!(Line::Instruction.successor(), None);
}

#[test]
fn stall_is_followed_by_a_poll() {
    assert_eq!(
        step(State::Stalling, Event::StallDone),
        Some((State::Polling, POLL))
    );
}

#[test]
fn line_texts() {
    assert_eq!(Line::Greeting.text(), "Hello, UEFI world!");
    assert_eq!(Line::Blank.text(), "");
    assert_eq!(Line::Instruction.text(), "press any key to continue");
}

#[test]
fn each_line_is_handed_over_with_one_line_feed() {
    assert_eq!(Line::Greeting.terminated(), "Hello, UEFI world!\n");
    assert_eq!(Line::Blank.terminated(), "\n");
    assert_eq!(Line::Instruction.terminated(), "press any key to continue\n");
    for line in [Line::Greeting, Line::Blank, Line::Instruction] {
        assert_eq!(line.terminated(), format!("{}\n", line.text()));
    }
}

#[test]
fn failed_reset_still_greets() {
    for ok in [true, false] {
        assert_eq!(
            step(State::Resetting, Event::ResetDone { ok }),
            Some((State::Writing(Line::Greeting), write(Line::Greeting)))
        );
    }

    let mut good = console_works();
    let mut bad = console_works();
    bad[0] = Event::ResetDone { ok: false };
    for events in [&mut good, &mut bad] {
        events.push(polled(KeyPoll::Empty));
        events.push(Event::StallDone);
        events.push(polled(KeyPoll::Pressed(key_x())));
    }
    let good = replay(&good);
    let bad = replay(&bad);
    assert_eq!(good.actions, bad.actions);
    assert_eq!(good.state, bad.state);
    assert_eq!(bad.state, State::Exited);
    assert_eq!(bad.actions[1], write(Line::Greeting));
}

#[test]
fn failed_write_halts_and_never_exits() {
    for failing in 1..=3usize {
        let mut events = console_works();
        events[failing] = Event::LineWritten { ok: false };
        events.push(polled(KeyPoll::Pressed(key_x())));
        let run = replay(&events);
        assert_eq!(run.state, State::Halted);
        assert_eq!(exits(&run.actions), 0);
        assert_eq!(run.actions.len(), failing + 2);
        assert_eq!(run.actions[..=failing], opening()[..=failing]);
        assert_eq!(run.actions.last(), Some(&Action::Halt));
    }
    for line in [Line::Greeting, Line::Blank, Line::Instruction] {
        assert_eq!(
            step(State::Writing(line), Event::LineWritten { ok: false }),
            Some((State::Halted, Action::Halt))
        );
    }
}

#[test]
fn failed_poll_halts_and_never_exits() {
    assert_eq!(
        step(State::Polling, polled(KeyPoll::Failed)),
        Some((State::Halted, Action::Halt))
    );

    let mut events = console_works();
    events.push(polled(KeyPoll::Empty));
    events.push(Event::StallDone);
    events.push(polled(KeyPoll::Failed));
    events.push(polled(KeyPoll::Pressed(key_x())));
    let run = replay(&events);
    assert_eq!(run.state, State::Halted);
    assert_eq!(exits(&run.actions), 0);
    let mut expected = opening();
    expected.extend([STALL, POLL, Action::Halt]);
    assert_eq!(run.actions, expected);
}

#[test]
fn answer_to_another_call_halts() {
    let all = [
        Event::ResetDone { ok: true },
        Event::ResetDone { ok: false },
        written(),
        Event::LineWritten { ok: false },
        polled(KeyPoll::Pressed(key_x())),
        polled(KeyPoll::Empty),
        polled(KeyPoll::Failed),
        Event::StallDone,
    ];
    let halted = Some((State::Halted, Action::Halt));
    for event in all {
        if !matches!(event, Event::ResetDone { .. }) {
            assert_eq!(step(State::Resetting, event), halted);
        }
        if event != written() {
            assert_eq!(step(State::Writing(Line::Blank), event), halted);
        }
        if !matches!(
            event,
            Event::KeyPolled { poll: KeyPoll::Pressed(_) } | Event::KeyPolled { poll: KeyPoll::Empty }
        ) {
            assert_eq!(step(State::Polling, event), halted);
        }
        if event != Event::StallDone {
            assert_eq!(step(State::Stalling, event), halted);
        }
    }
}

#[test]
fn terminal_states_take_no_step() {
    let all = [
        Event::ResetDone { ok: true },
        written(),
        Event::LineWritten { ok: false },
        polled(KeyPoll::Pressed(key_x())),
        polled(KeyPoll::Empty),
        polled(KeyPoll::Failed),
        Event::StallDone,
    ];
    for event in all {
        assert_eq!(step(State::Exited, event), None);
        assert_eq!(step(State::Halted, event), None);
    }
}

#[test]
fn answers_after_the_end_are_ignored() {
    let mut events = console_works();
    events.push(polled(KeyPoll::Pressed(key_x())));
    let ended = replay(&events);
    events.push(Event::LineWritten { ok: false });
    events.push(polled(KeyPoll::Pressed(key_x())));
    events.push(Event::StallDone);
    let fed_more = replay(&events);
    assert_eq!(fed_more.actions, ended.actions);
    assert_eq!(fed_more.state, State::Exited);
    assert_eq!(exits(&fed_more.actions), 1);

    let halted = replay(&[Event::StallDone, Event::ResetDone { ok: true }, written()]);
    assert_eq!(halted.actions, vec![RESET, Action::Halt]);
    assert_eq!(halted.state, State::Halted);
}

#[test]
fn replay_agrees_with_stepping() {
    let mut events = console_works();
    events.extend([
        polled(KeyPoll::Empty),
        Event::StallDone,
        polled(KeyPoll::Empty),
        Event::StallDone,
        polled(KeyPoll::Pressed(Key::Special(1))),
    ]);
    let (mut state, first) = start();
    let mut actions = vec![first];
    for event in &events {
        if let Some((next, action)) = step(state, *event) {
            state = next;
            actions.push(action);
        }
    }
    let run = replay(&events);
    assert_eq!(run.actions, actions);
    assert_eq!(run.state, state);
}

#[test]
fn every_prefix_follows_the_opening() {
    let mut events = console_works();
    events.push(polled(KeyPoll::Empty));
    for n in 0..=events.len() {
        let run = replay(&events[..n]);
        let shared = run.actions.len().min(5);
        assert_eq!(run.actions[..shared], opening()[..shared]);
        assert_eq!(run.actions.len(), n + 1);
    }
}

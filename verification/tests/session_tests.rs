use tesseract_timer::scrambler::is_valid_scramble;
use tesseract_timer::session::{Session, HOLD_MS, TICK_MS};
use tesseract_timer::timer::{Event, Status};

fn run_attempt(session: &mut Session, ticks: u64) {
    session.handle(Event::Press);
    session.handle(Event::HoldElapsed);
    session.handle(Event::Release);
    for _ in 0..ticks {
        session.handle(Event::Tick(TICK_MS));
    }
    session.handle(Event::Press);
    session.handle(Event::Release);
}

#[test]
fn periods() {
    assert_eq!(TICK_MS, 10);
    assert_eq!(HOLD_MS, 600);
}

#[test]
fn new_session_is_idle() {
    let session = Session::new();
    assert!(!session.space_pressed);
    assert_eq!(session.timer.status, Status::Stopped);
    assert_eq!(session.timer.time, 0);
    assert!(session.record.solves().is_empty());
    assert!(is_valid_scramble(session.current_scramble.moves()));
    assert!(!session.wants_ticks());
    assert!(!session.wants_hold_timer());
}

#[test]
fn completed_attempt_is_recorded_once() {
    let mut session = Session::new();
    let scramble = session.current_scramble.display();
    session.handle(Event::Press);
    assert!(session.space_pressed);
    assert!(session.wants_hold_timer());
    assert_eq!(session.timer.status, Status::Hold);
    session.handle(Event::HoldElapsed);
    assert_eq!(session.timer.status, Status::Ready);
    session.handle(Event::Release);
    assert!(!session.space_pressed);
    assert_eq!(session.timer.status, Status::Running);
    assert!(session.wants_ticks());
    for _ in 0..5 {
        session.handle(Event::Tick(TICK_MS));
    }
    assert_eq!(session.timer.time, 50);
    assert!(session.record.solves().is_empty());
    assert_eq!(session.current_scramble.display(), scramble);

    session.handle(Event::Press);
    assert_eq!(session.timer.status, Status::Stopped);
    assert_eq!(session.timer.time, 50);
    assert!(!session.wants_ticks());
    assert_eq!(session.record.solves().len(), 1);
    let solve = &session.record.solves()[0];
    assert_eq!(solve.time, 50);
    assert_eq!(solve.scramble.display(), scramble);
    assert!(!solve._dnf);
    assert!(!solve._plus_two);
    assert!(is_valid_scramble(session.current_scramble.moves()));

    session.handle(Event::Release);
    assert_eq!(session.timer.status, Status::Stopped);
    assert_eq!(session.record.solves().len(), 1);
}

#[test]
fn aborted_hold_records_nothing() {
    let mut session = Session::new();
    let scramble = session.current_scramble.display();
    session.handle(Event::Press);
    session.handle(Event::Release);
    assert_eq!(session.timer.status, Status::Stopped);
    assert_eq!(session.timer.time, 0);
    assert!(session.record.solves().is_empty());
    assert_eq!(session.current_scramble.display(), scramble);
    assert!(!session.space_pressed);
}

#[test]
fn other_events_leave_record_and_scramble() {
    let mut session = Session::new();
    run_attempt(&mut session, 3);
    let scramble = session.current_scramble.display();
    for event in [Event::HoldElapsed, Event::Tick(10), Event::Release, Event::Press, Event::Tick(10)] {
        session.handle(event);
        assert_eq!(session.record.solves().len(), 1);
        assert_eq!(session.current_scramble.display(), scramble);
    }
    assert!(session.space_pressed);
    assert_eq!(session.timer.status, Status::Hold);
    assert_eq!(session.timer.time, 30);
}

#[test]
fn five_attempts_give_an_average() {
    let mut session = Session::new();
    for ticks in [10, 20, 30, 40] {
        run_attempt(&mut session, ticks);
        assert_eq!(session.record.ao5(), None);
    }
    run_attempt(&mut session, 50);
    let times: Vec<u64> = session.record.solves().iter().map(|s| s.time).collect();
    assert_eq!(times, vec![500, 400, 300, 200, 100]);
    assert_eq!(session.record.ao5(), Some(300));
}

#[test]
fn each_solve_has_the_scramble_that_was_shown() {
    let mut session = Session::new();
    let mut shown = Vec::new();
    for ticks in 1..=6 {
        shown.push(session.current_scramble.display());
        run_attempt(&mut session, ticks);
    }
    shown.reverse();
    let kept: Vec<String> =
        session.record.solves().iter().map(|s| s.scramble.display()).collect();
    assert_eq!(kept, shown);
}

#[test]
fn rescramble_changes_only_the_scramble() {
    let mut session = Session::new();
    run_attempt(&mut session, 7);
    session.handle(Event::Press);
    let before = session.current_scramble.display();
    let mut changed = false;
    for _ in 0..20 {
        session.rescramble();
        assert!(is_valid_scramble(session.current_scramble.moves()));
        if session.current_scramble.display() != before {
            changed = true;
        }
        assert!(session.space_pressed);
        assert_eq!(session.timer.status, Status::Hold);
        assert_eq!(session.timer.time, 70);
        assert_eq!(session.record.solves().len(), 1);
        assert_eq!(session.record.solves()[0].time, 70);
    }
    assert!(changed);
}

#[test]
fn hold_timer_follows_the_input() {
    let mut session = Session::new();
    session.handle(Event::Press);
    session.handle(Event::HoldElapsed);
    session.handle(Event::HoldElapsed);
    assert!(session.wants_hold_timer());
    assert_eq!(session.timer.status, Status::Ready);
    session.handle(Event::Release);
    assert!(!session.wants_hold_timer());
    session.handle(Event::HoldElapsed);
    assert_eq!(session.timer.status, Status::Running);
}

//! A practice session: the timer, the scramble on show and the record, wired
//! together. The session turns the events of the input into solves.

use vstd::prelude::*;

use crate::moves::Move;
use crate::record::{Record, Solve};
use crate::scrambler::{valid_scramble, Scramble};
use crate::timer::{Event, Status, Timer};

verus! {

/// The period of the tick that drives a running timer, in milliseconds.
pub const TICK_MS: u64 = 10;

/// How long the input has to be held before letting go starts the timer, in
/// milliseconds.
pub const HOLD_MS: u64 = 600;

/// `after` is `before` with one new solve in front: `time` milliseconds on
/// the scramble `scramble`, without penalties.
pub open spec fn recorded(
    before: Seq<Solve>,
    after: Seq<Solve>,
    time: u64,
    scramble: Seq<Move>,
) -> bool {
    &&& after.len() == before.len() + 1
    &&& after.skip(1) == before
    &&& after[0].time == time
    &&& after[0].scramble@ == scramble
    &&& !after[0]._dnf
    &&& !after[0]._plus_two
}

/// One timer with the record that it feeds and the scramble that the next
/// attempt is made on.
#[derive(Debug)]
pub struct Session {
    /// Whether the input is down.
    pub space_pressed: bool,
    /// The scramble on show.
    pub current_scramble: Scramble,
    pub timer: Timer,
    pub record: Record,
}

impl Session {
    /// Whether the input is down once `event` has happened.
    pub open spec fn pressed_after(pressed: bool, event: Event) -> bool {
        match event {
            Event::Press => true,
            Event::Release => false,
            _ => pressed,
        }
    }

    /// A session with a stopped timer at zero, no solves, and a first
    /// scramble.
    pub fn new() -> (session: Session)
        ensures
            !session.space_pressed,
            session.timer.time == 0,
            session.timer.status == Status::Stopped,
            session.record@ == Seq::<Solve>::empty(),
            valid_scramble(session.current_scramble@),
    {
        Session {
            space_pressed: false,
            current_scramble: Scramble::new(),
            timer: Timer::default(),
            record: Record::default(),
        }
    }

    /// Feeds `event` to the timer. If that completes an attempt, the solve
    /// goes in front of the record, with the elapsed time and a copy of the
    /// scramble on show, and a fresh scramble takes that one's place. If it
    /// does not, record and scramble stay as they are.
    pub fn handle(&mut self, event: Event)
        ensures
            final(self).space_pressed == Self::pressed_after(old(self).space_pressed, event),
            final(self).timer == old(self).timer.after(event),
            valid_scramble(final(self).current_scramble@),
            match old(self).timer.finished_by(event) {
                Some(time) => recorded(
                    old(self).record@,
                    final(self).record@,
                    time,
                    old(self).current_scramble@,
                ),
                None => {
                    &&& final(self).record@ == old(self).record@
                    &&& final(self).current_scramble@ == old(self).current_scramble@
                },
            },
    {
        match event {
            Event::Press => {
                self.space_pressed = true;
            },
            Event::Release => {
                self.space_pressed = false;
            },
            _ => {},
        }
        match self.timer.handle(event) {
            Some(time) => {
                let solve = Solve::new(time, &self.current_scramble);
                self.record.add_solve(solve);
                self.current_scramble = Scramble::new();
                proof {
                    assert(final(self).record@.skip(1) =~= old(self).record@);
                }
            },
            None => {
                proof {
                    use_type_invariant(&self.current_scramble);
                }
            },
        }
    }

    /// Replaces the scramble on show by a fresh one. Nothing else changes.
    pub fn rescramble(&mut self)
        ensures
            valid_scramble(final(self).current_scramble@),
            final(self).space_pressed == old(self).space_pressed,
            final(self).timer == old(self).timer,
            final(self).record@ == old(self).record@,
    {
        self.current_scramble = Scramble::new();
    }

    /// Whether ticks are due: only a running timer counts them.
    pub fn wants_ticks(&self) -> (wanted: bool)
        ensures
            wanted == (self.timer.status == Status::Running),
    {
        self.timer.status == Status::Running
    }

    /// Whether the hold is being timed: as long as the input is down.
    pub fn wants_hold_timer(&self) -> (wanted: bool)
        ensures
            wanted == self.space_pressed,
    {
        self.space_pressed
    }
}

} // verus!

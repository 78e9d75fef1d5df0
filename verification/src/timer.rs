//! The press-and-hold timer: four states, four events, and the text that
//! shows a time.

use vstd::prelude::*;

use crate::digits::{
    decimal, digit, lemma_decimal_is_not_empty, lemma_two_digits_below_hundred, push_decimal,
    push_two_digits, two_digits,
};

verus! {

/// The four states of the timer.
#[derive(Debug, Clone, Copy, PartialEq, Eq, Structural)]
pub enum Status {
    /// Idle: no attempt under way. The initial state.
    Stopped,
    /// The input is held, not yet for long enough.
    Hold,
    /// The input has been held long enough: letting go starts the timing.
    Ready,
    /// Timing.
    Running,
}

/// What can happen to the timer.
#[derive(Debug, Clone, Copy, PartialEq, Eq, Structural)]
pub enum Event {
    /// The input went down.
    Press,
    /// The input was let go.
    Release,
    /// The input has been held for the whole dwell time.
    HoldElapsed,
    /// So many milliseconds have passed.
    Tick(u64),
}

/// How a time is shown: minutes, seconds and hundredths as `m:ss.cc`, or
/// `s.cc` below one minute. Milliseconds beyond the hundredths are dropped.
pub open spec fn spec_format_from_ms(time: u64) -> Seq<char> {
    let minutes = time as nat / 60_000;
    let seconds = (time as nat % 60_000) / 1_000;
    let centis = (time as nat % 1_000) / 10;
    if minutes > 0 {
        decimal(minutes) + seq![':'] + two_digits(seconds) + seq!['.'] + two_digits(centis)
    } else {
        decimal(seconds) + seq!['.'] + two_digits(centis)
    }
}

/// Whatever the time, its text ends in a point and exactly two digits, the
/// hundredths of a second.
pub proof fn lemma_format_ends_in_hundredths(time: u64)
    ensures
        ({
            let text = spec_format_from_ms(time);
            let centis = (time as nat % 1_000) / 10;
            &&& text.len() >= 4
            &&& text[text.len() - 3] == '.'
            &&& text[text.len() - 2] == digit(centis / 10)
            &&& text[text.len() - 1] == digit(centis % 10)
        }),
{
    let centis = (time as nat % 1_000) / 10;
    lemma_two_digits_below_hundred(centis);
    lemma_decimal_is_not_empty(time as nat / 60_000);
    lemma_decimal_is_not_empty((time as nat % 60_000) / 1_000);
}

/// Renders a time in milliseconds for display.
pub fn format_from_ms(time: u64) -> (text: String)
    ensures
        text@ == spec_format_from_ms(time),
{
    let minutes = time / 60_000;
    let seconds = (time % 60_000) / 1_000;
    let centis = (time % 1_000) / 10;
    let mut text = String::new();
    proof {
        reveal_strlit(":");
        reveal_strlit(".");
    }
    if minutes > 0 {
        push_decimal(&mut text, minutes);
        text.append(":");
        push_two_digits(&mut text, seconds);
    } else {
        push_decimal(&mut text, seconds);
    }
    text.append(".");
    push_two_digits(&mut text, centis);
    proof {
        assert(":"@ =~= seq![':']);
        assert("."@ =~= seq!['.']);
        assert(text@ =~= spec_format_from_ms(time));
    }
    text
}

/// The timer: the elapsed time of the current or last attempt, and the
/// state.
#[derive(Debug)]
pub struct Timer {
    /// Elapsed milliseconds.
    pub time: u64,
    pub status: Status,
}

impl Timer {
    /// The timer after `event`. A pair of state and event that is not listed
    /// changes nothing.
    pub open spec fn after(self, event: Event) -> Timer {
        match (self.status, event) {
            (Status::Stopped, Event::Press) => Timer { time: self.time, status: Status::Hold },
            (Status::Running, Event::Press) => Timer { time: self.time, status: Status::Stopped },
            (Status::Hold, Event::HoldElapsed) => Timer { time: self.time, status: Status::Ready },
            (Status::Ready, Event::Release) => Timer { time: 0, status: Status::Running },
            (Status::Hold, Event::Release) => Timer { time: self.time, status: Status::Stopped },
            (Status::Running, Event::Tick(delta_ms)) => Timer {
                time: if self.time + delta_ms <= u64::MAX {
                    (self.time + delta_ms) as u64
                } else {
                    u64::MAX
                },
                status: Status::Running,
            },
            _ => self,
        }
    }

    /// The time that `event` completes: the elapsed time, when a press stops
    /// a running timer.
    pub open spec fn finished_by(self, event: Event) -> Option<u64> {
        if self.status == Status::Running && event == Event::Press {
            Some(self.time)
        } else {
            None
        }
    }

    /// A stopped timer at zero.
    pub fn default() -> (timer: Timer)
        ensures
            timer.time == 0,
            timer.status == Status::Stopped,
    {
        Self { time: 0, status: Status::Stopped }
    }

    /// The elapsed time as it is shown.
    pub fn display(&self) -> (text: String)
        ensures
            text@ == spec_format_from_ms(self.time),
    {
        format_from_ms(self.time)
    }

    /// Starts the timing at once, without going through hold and release.
    /// A timer that was not running starts from zero, as on every way into
    /// the running state; one that was running already goes on counting.
    pub fn _start(&mut self)
        ensures
            final(self).status == Status::Running,
            old(self).status != Status::Running ==> final(self).time == 0,
            old(self).status == Status::Running ==> final(self).time == old(self).time,
    {
        if self.status != Status::Running {
            self.time = 0;
        }
        self.status = Status::Running;
    }

    /// The current state.
    pub fn current_state(&self) -> (status: Status)
        ensures
            status == self.status,
    {
        self.status
    }

    /// The elapsed milliseconds.
    pub fn elapsed_ms(&self) -> (time: u64)
        ensures
            time == self.time,
    {
        self.time
    }

    /// The input went down. A stopped timer goes to hold. A running timer
    /// stops, its time frozen, and that time is handed back: the attempt is
    /// complete, and recording it is up to the caller.
    pub fn on_press(&mut self) -> (finished: Option<u64>)
        ensures
            *final(self) == old(self).after(Event::Press),
            finished == old(self).finished_by(Event::Press),
    {
        match self.status {
            Status::Running => {
                self.status = Status::Stopped;
                Some(self.time)
            },
            Status::Stopped => {
                self.status = Status::Hold;
                None
            },
            _ => None,
        }
    }

    /// The input was let go. A ready timer starts running from zero; a hold
    /// that was too short is called off.
    pub fn on_release(&mut self)
        ensures
            *final(self) == old(self).after(Event::Release),
    {
        match self.status {
            Status::Ready => {
                self.time = 0;
                self.status = Status::Running;
            },
            Status::Hold => {
                self.status = Status::Stopped;
            },
            _ => {},
        }
    }

    /// The input has been held for the dwell time. A timer on hold becomes
    /// ready; in any other state nothing happens.
    pub fn on_hold_elapsed(&mut self)
        ensures
            *final(self) == old(self).after(Event::HoldElapsed),
    {
        match self.status {
            Status::Hold => {
                self.status = Status::Ready;
            },
            _ => {},
        }
    }

    /// `delta_ms` milliseconds have passed. A running timer adds them to its
    /// elapsed time, stopping at `u64::MAX`; in any other state nothing
    /// happens.
    pub fn on_tick(&mut self, delta_ms: u64)
        ensures
            *final(self) == old(self).after(Event::Tick(delta_ms)),
    {
        match self.status {
            Status::Running => {
                self.time = self.time.saturating_add(delta_ms);
            },
            _ => {},
        }
    }

    /// Applies `event`, whichever it is, and hands back the time of the
    /// attempt that it completed, if it completed one.
    pub fn handle(&mut self, event: Event) -> (finished: Option<u64>)
        ensures
            *final(self) == old(self).after(event),
            finished == old(self).finished_by(event),
    {
        match event {
            Event::Press => self.on_press(),
            Event::Release => {
                self.on_release();
                None
            },
            Event::HoldElapsed => {
                self.on_hold_elapsed();
                None
            },
            Event::Tick(delta_ms) => {
                self.on_tick(delta_ms);
                None
            },
        }
    }
}

/// An attempt is complete exactly when the timer leaves the running state,
/// and the time handed out is the time at which it stopped.
pub proof fn lemma_finished_on_leaving_running(timer: Timer, event: Event)
    ensures
        timer.finished_by(event) is Some <==> timer.status == Status::Running && timer.after(
            event,
        ).status != Status::Running,
        timer.finished_by(event) is Some ==> timer.finished_by(event) == Some(
            timer.after(event).time,
        ) && timer.after(event).status == Status::Stopped,
{
}

/// The elapsed time starts from zero when the timer begins to run, does not
/// go back while it runs, and stays as it is in every other step.
pub proof fn lemma_elapsed_time(timer: Timer, event: Event)
    ensures
        timer.status != Status::Running && timer.after(event).status == Status::Running
            ==> timer.after(event).time == 0,
        timer.status == Status::Running && timer.after(event).status == Status::Running
            ==> timer.after(event).time >= timer.time,
        timer.after(event).status != Status::Running ==> timer.after(event).time == timer.time,
{
}

} // verus!

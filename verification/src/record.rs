//! Solves and the record that keeps them, newest first, with its rolling
//! trimmed averages.

use vstd::prelude::*;

use crate::scrambler::Scramble;
use crate::timer::{format_from_ms, spec_format_from_ms};

verus! {

/// The sum of the times.
pub open spec fn total(times: Seq<u64>) -> nat
    decreases times.len(),
{
    if times.len() == 0 {
        0
    } else {
        total(times.drop_last()) + times.last() as nat
    }
}

/// The largest of the times; 0 for none.
pub open spec fn largest(times: Seq<u64>) -> u64
    decreases times.len(),
{
    if times.len() == 0 {
        0
    } else if times.last() > largest(times.drop_last()) {
        times.last()
    } else {
        largest(times.drop_last())
    }
}

/// The smallest of the times; `u64::MAX` for none.
pub open spec fn smallest(times: Seq<u64>) -> u64
    decreases times.len(),
{
    if times.len() == 0 {
        u64::MAX
    } else if times.last() < smallest(times.drop_last()) {
        times.last()
    } else {
        smallest(times.drop_last())
    }
}

/// The mean of `window` once one largest and one smallest time have been set
/// aside, rounded down. Equal times count one by one: two are set aside
/// whatever the window holds. Meant for windows of more than two times.
pub open spec fn trimmed_mean(window: Seq<u64>) -> int {
    (total(window) - largest(window) - smallest(window)) / (window.len() - 2)
}

/// The trimmed mean of the first `n` of `times`, or nothing while there are
/// fewer than `n`.
pub open spec fn trimmed_average(times: Seq<u64>, n: nat) -> Option<u64> {
    if times.len() < n {
        None
    } else {
        Some(trimmed_mean(times.take(n as int)) as u64)
    }
}

/// `largest` is an upper bound that one of the times attains, and `smallest`
/// a lower bound that one of them attains.
pub proof fn lemma_extremes(times: Seq<u64>)
    requires
        times.len() > 0,
    ensures
        forall|i: int|
            0 <= i < times.len() ==> smallest(times) <= #[trigger] times[i] <= largest(times),
        exists|i: int| 0 <= i < times.len() && #[trigger] times[i] == largest(times),
        exists|i: int| 0 <= i < times.len() && #[trigger] times[i] == smallest(times),
    decreases times.len(),
{
    let front = times.drop_last();
    let last = times.len() - 1;
    if front.len() == 0 {
        assert(largest(front) == 0);
        assert(smallest(front) == u64::MAX);
        assert(times[last] == largest(times));
        assert(times[last] == smallest(times));
    } else {
        lemma_extremes(front);
        assert forall|i: int| 0 <= i < times.len() implies smallest(times) <= #[trigger] times[i]
            <= largest(times) by {
            if i < last {
                assert(times[i] == front[i]);
            }
        }
        let hi = choose|i: int| 0 <= i < front.len() && #[trigger] front[i] == largest(front);
        let lo = choose|i: int| 0 <= i < front.len() && #[trigger] front[i] == smallest(front);
        assert(times[hi] == front[hi]);
        assert(times[lo] == front[lo]);
        if times.last() > largest(front) {
            assert(times[last] == largest(times));
        } else {
            assert(times[hi] == largest(times));
        }
        if times.last() < smallest(front) {
            assert(times[last] == smallest(times));
        } else {
            assert(times[lo] == smallest(times));
        }
    }
}

/// Of two or more times, what is left after setting one largest and one
/// smallest aside is the sum of `len - 2` times: it is not negative and at
/// most `len - 2` times the largest.
pub proof fn lemma_rest_is_bounded(times: Seq<u64>)
    requires
        times.len() >= 2,
    ensures
        0 <= total(times) - largest(times) - smallest(times) <= (times.len() - 2) * largest(times),
    decreases times.len(),
{
    let front = times.drop_last();
    lemma_extremes(front);
    if front.len() == 1 {
        assert(front.drop_last().len() == 0);
        assert(total(front.drop_last()) == 0);
        assert(front.last() == front[0]);
        assert(total(front) == front[0]);
        assert(largest(front) == front[0]);
        assert(smallest(front) == front[0]);
    } else {
        lemma_rest_is_bounded(front);
        let k = front.len() - 2;
        let old_top = largest(front) as int;
        let new_top = largest(times) as int;
        assert(k * old_top <= k * new_top) by (nonlinear_arith)
            requires
                0 <= k,
                0 <= old_top <= new_top,
        ;
        assert((k + 1) * new_top == k * new_top + new_top) by (nonlinear_arith);
    }
}

/// The trimmed mean of more than two times lies between the smallest and the
/// largest representable time, so it is itself a time.
pub proof fn lemma_trimmed_mean_fits(window: Seq<u64>)
    requires
        window.len() > 2,
    ensures
        0 <= trimmed_mean(window) <= largest(window) <= u64::MAX,
{
    lemma_rest_is_bounded(window);
    let rest = total(window) - largest(window) - smallest(window);
    let k = window.len() - 2;
    let top = largest(window) as int;
    assert(0 <= rest / k <= top) by (nonlinear_arith)
        requires
            k > 0,
            0 <= rest <= k * top,
    ;
}

/// A completed attempt: the time it took, the scramble it was made on, and
/// the two penalty flags. The flags are carried for whoever shows or stores
/// the solve; nothing in this crate reads or sets them after creation.
#[derive(Debug)]
pub struct Solve {
    /// Elapsed time in milliseconds.
    pub time: u64,
    /// The scramble that was solved, as a copy of its own.
    pub scramble: Scramble,
    /// Did not finish.
    pub _dnf: bool,
    /// Two-second penalty.
    pub _plus_two: bool,
}

impl Solve {
    /// A solve of `time` milliseconds on a copy of `scramble`, without
    /// penalties.
    pub fn new(time: u64, scramble: &Scramble) -> (solve: Solve)
        ensures
            solve.time == time,
            solve.scramble@ == scramble@,
            !solve._dnf,
            !solve._plus_two,
    {
        Self { time, scramble: scramble.clone(), _dnf: false, _plus_two: false }
    }

    /// The time as it is shown.
    pub fn time(&self) -> (text: String)
        ensures
            text@ == spec_format_from_ms(self.time),
    {
        format_from_ms(self.time)
    }
}

impl Clone for Solve {
    fn clone(&self) -> (copy: Solve)
        ensures
            copy.time == self.time,
            copy.scramble@ == self.scramble@,
            copy._dnf == self._dnf,
            copy._plus_two == self._plus_two,
    {
        Solve {
            time: self.time,
            scramble: self.scramble.clone(),
            _dnf: self._dnf,
            _plus_two: self._plus_two,
        }
    }
}

/// The times of the solves, in the same order.
pub open spec fn solve_times(solves: Seq<Solve>) -> Seq<u64> {
    solves.map_values(|solve: Solve| solve.time)
}

/// The trimmed average over the first `ao` of `solves`: nothing while there
/// are fewer than `ao`, else the mean of their times without one largest and
/// one smallest, rounded down.
pub fn calc_average(solves: &Vec<Solve>, ao: usize) -> (average: Option<u64>)
    requires
        ao > 2,
    ensures
        average == trimmed_average(solve_times(solves@), ao as nat),
{
    if solves.len() >= ao {
        let ghost window = solve_times(solves@).take(ao as int);
        let mut sum: u128 = 0;
        let mut high: u64 = 0;
        let mut low: u64 = u64::MAX;
        let mut i: usize = 0;
        proof {
            assert(window.take(0) =~= Seq::<u64>::empty());
        }
        while i < ao
            invariant
                i <= ao <= solves.len(),
                window == solve_times(solves@).take(ao as int),
                sum == total(window.take(i as int)),
                sum <= i * u64::MAX,
                high == largest(window.take(i as int)),
                low == smallest(window.take(i as int)),
            decreases ao - i,
        {
            let time = solves[i].time;
            proof {
                assert(window.take(i + 1).drop_last() =~= window.take(i as int));
                assert(window.take(i + 1).last() == time);
            }
            if time > high {
                high = time;
            }
            if time < low {
                low = time;
            }
            sum = sum + time as u128;
            i = i + 1;
        }
        proof {
            assert(window.take(ao as int) =~= window);
            lemma_rest_is_bounded(window);
            lemma_trimmed_mean_fits(window);
        }
        let rest: u128 = sum - high as u128 - low as u128;
        let mean: u128 = rest / ((ao - 2) as u128);
        Some(mean as u64)
    } else {
        None
    }
}

/// The solves, newest first, and the rolling averages over the newest 5, 12
/// and 100 of them. The averages always belong to the solves that are held
/// now: every insertion works them out afresh.
#[derive(Debug)]
pub struct Record {
    solves: Vec<Solve>,
    ao5: Option<u64>,
    ao12: Option<u64>,
    ao100: Option<u64>,
}

impl View for Record {
    type V = Seq<Solve>;

    /// The solves, newest first.
    closed spec fn view(&self) -> Seq<Solve> {
        self.solves@
    }
}

impl Record {
    #[verifier::type_invariant]
    spec fn averages_are_current(&self) -> bool {
        &&& self.ao5 == trimmed_average(solve_times(self.solves@), 5)
        &&& self.ao12 == trimmed_average(solve_times(self.solves@), 12)
        &&& self.ao100 == trimmed_average(solve_times(self.solves@), 100)
    }

    /// The average of 5 that belongs to these solves.
    pub open spec fn spec_ao5(&self) -> Option<u64> {
        trimmed_average(solve_times(self@), 5)
    }

    /// The average of 12 that belongs to these solves.
    pub open spec fn spec_ao12(&self) -> Option<u64> {
        trimmed_average(solve_times(self@), 12)
    }

    /// The average of 100 that belongs to these solves.
    pub open spec fn spec_ao100(&self) -> Option<u64> {
        trimmed_average(solve_times(self@), 100)
    }

    /// A record without solves.
    pub fn default() -> (record: Record)
        ensures
            record@ == Seq::<Solve>::empty(),
    {
        Record { solves: vec![], ao5: None, ao12: None, ao100: None }
    }

    /// Puts `solve` in front of the others and works the averages out again.
    pub fn add_solve(&mut self, solve: Solve)
        ensures
            final(self)@ == seq![solve] + old(self)@,
    {
        let mut taken = Record::default();
        std::mem::swap(self, &mut taken);
        let Record { solves, ao5: _, ao12: _, ao100: _ } = taken;
        let mut solves = solves;
        solves.insert(0, solve);

        // Recalculate averages
        let ao5 = calc_average(&solves, 5);
        let ao12 = calc_average(&solves, 12);
        let ao100 = calc_average(&solves, 100);
        proof {
            assert(solves@ =~= seq![solve] + old(self)@);
        }
        *self = Record { solves, ao5, ao12, ao100 };
    }

    /// The solves, newest first.
    pub fn solves(&self) -> (solves: &Vec<Solve>)
        ensures
            solves@ == self@,
    {
        &self.solves
    }

    /// The trimmed average of the newest 5 solves, once there are 5.
    #[verifier::when_used_as_spec(spec_ao5)]
    pub fn ao5(&self) -> (average: Option<u64>)
        ensures
            average == self.spec_ao5(),
    {
        proof {
            use_type_invariant(self);
        }
        self.ao5
    }

    /// The trimmed average of the newest 12 solves, once there are 12.
    #[verifier::when_used_as_spec(spec_ao12)]
    pub fn ao12(&self) -> (average: Option<u64>)
        ensures
            average == self.spec_ao12(),
    {
        proof {
            use_type_invariant(self);
        }
        self.ao12
    }

    /// The trimmed average of the newest 100 solves, once there are 100.
    #[verifier::when_used_as_spec(spec_ao100)]
    pub fn ao100(&self) -> (average: Option<u64>)
        ensures
            average == self.spec_ao100(),
    {
        proof {
            use_type_invariant(self);
        }
        self.ao100
    }
}

/// While a record holds fewer than `n` solves it has no average of `n`. With
/// exactly `n` the average is the sum of all their times, less the largest
/// and the smallest, divided by `n - 2` and rounded down; that number is a
/// time, so nothing is lost in handing it out as one.
pub proof fn lemma_average_boundary(times: Seq<u64>, n: nat)
    requires
        n > 2,
    ensures
        times.len() < n ==> trimmed_average(times, n) is None,
        times.len() == n ==> {
            let mean = (total(times) - largest(times) - smallest(times)) / (n - 2);
            &&& 0 <= mean <= u64::MAX
            &&& trimmed_average(times, n) == Some(mean as u64)
        },
{
    if times.len() == n {
        assert(times.take(n as int) =~= times);
        lemma_trimmed_mean_fits(times);
    }
}

/// A record of four solves has no average of 5, and the fifth solve gives it
/// one: the sum of the five times, less the largest and the smallest, divided
/// by 3.
pub proof fn lemma_fifth_solve_gives_ao5(before: Record, after: Record, solve: Solve)
    requires
        before@.len() == 4,
        after@ == seq![solve] + before@,
    ensures
        before.spec_ao5() is None,
        after.spec_ao5() == Some(
            ((total(solve_times(after@)) - largest(solve_times(after@)) - smallest(
                solve_times(after@),
            )) / 3) as u64,
        ),
{
    lemma_average_boundary(solve_times(before@), 5);
    lemma_average_boundary(solve_times(after@), 5);
}

/// Two insertions in a row leave the second solve first and the first solve
/// second, in front of what the record held before.
pub proof fn lemma_newest_first(start: Record, middle: Record, end: Record, a: Solve, b: Solve)
    requires
        middle@ == seq![a] + start@,
        end@ == seq![b] + middle@,
    ensures
        end@ == seq![b, a] + start@,
        start@.len() == 0 ==> end@ == seq![b, a],
{
    assert(end@ =~= seq![b, a] + start@);
    if start@.len() == 0 {
        assert(end@ =~= seq![b, a]);
    }
}

/// The averages depend on nothing but the solves: as long as no solve is
/// added, asking again gives the same answer.
pub proof fn lemma_averages_follow_solves(a: Record, b: Record)
    requires
        a@ == b@,
    ensures
        a.spec_ao5() == b.spec_ao5(),
        a.spec_ao12() == b.spec_ao12(),
        a.spec_ao100() == b.spec_ao100(),
{
}

} // verus!

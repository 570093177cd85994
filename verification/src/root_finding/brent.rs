//! The search of Brent: it keeps a bracket of three points and in each round
//! picks between inverse quadratic interpolation, a secant step and a
//! bisection step.

use crate::root_finding::convergencelog::{balanced, numbered_from, ConvergenceLog, IterationRecord};
use crate::root_finding::function::{as_spec, records_of, single_valued, total, ScalarFn};
use crate::root_finding::{RootFindingError, RootFindingIterator};
use crate::scalar::{
    exact_arithmetic, magnitude, midpoint, number, same_signs, spec_magnitude, spec_midpoint,
    spec_number, spec_same_signs, spec_within, total_arithmetic, within, Scalar,
};
use vstd::prelude::*;
use vstd::std_specs::cmp::{PartialEqSpec, PartialOrdIs};
use vstd::std_specs::ops::{AddSpec, DivSpec, MulSpec, SubSpec};

verus! {

/// What the search carries from one round to the next: the latest estimate
/// `b`, the point before it `a`, the point `c` across the latest sign change,
/// the function values at the three, and the two latest step sizes.
pub struct BrentState<T> {
    pub a: T,
    pub b: T,
    pub c: T,
    pub fa: T,
    pub fb: T,
    pub fc: T,
    pub d: T,
    pub e: T,
}

/// The point that a round proposes, with the step sizes to keep after it.
pub struct BrentTrial<T> {
    pub s: T,
    pub d: T,
    pub e: T,
}

impl<T: Scalar> BrentState<T> {
    /// The state before the first round, from the two ends of the bracket and
    /// the function values there: `b` is the end with the smaller absolute
    /// function value, `a` and `c` are the other end.
    pub open spec fn spec_initial(x0: T, x1: T, f0: T, f1: T) -> Self {
        if spec_magnitude(f0).is_lt(&spec_magnitude(f1)) {
            BrentState {
                a: x1,
                b: x0,
                c: x1,
                fa: f1,
                fb: f0,
                fc: f1,
                d: x0.sub_spec(x1),
                e: x0.sub_spec(x1),
            }
        } else {
            BrentState {
                a: x0,
                b: x1,
                c: x0,
                fa: f0,
                fb: f1,
                fc: f0,
                d: x1.sub_spec(x0),
                e: x1.sub_spec(x0),
            }
        }
    }

    /// The state before the first round.
    pub fn initial(x0: T, x1: T, f0: T, f1: T) -> (state: Self)
        requires
            total_arithmetic::<T>(),
        ensures
            exact_arithmetic::<T>() ==> state == Self::spec_initial(x0, x1, f0, f1),
    {
        if magnitude(f0) < magnitude(f1) {
            let step = x0 - x1;
            BrentState { a: x1, b: x0, c: x1, fa: f1, fb: f0, fc: f1, d: step, e: step }
        } else {
            let step = x1 - x0;
            BrentState { a: x0, b: x1, c: x0, fa: f0, fb: f1, fc: f0, d: step, e: step }
        }
    }

    /// The point where the parabola through the three points, read as a
    /// function of the function value, is at zero.
    pub open spec fn inverse_quadratic(self) -> T {
        let fa = self.fa;
        let fb = self.fb;
        let fc = self.fc;
        let ta = self.a.mul_spec(fb).mul_spec(fc).div_spec(
            fa.sub_spec(fb).mul_spec(fa.sub_spec(fc)),
        );
        let tb = self.b.mul_spec(fa).mul_spec(fc).div_spec(
            fb.sub_spec(fa).mul_spec(fb.sub_spec(fc)),
        );
        let tc = self.c.mul_spec(fa).mul_spec(fb).div_spec(
            fc.sub_spec(fa).mul_spec(fc.sub_spec(fb)),
        );
        ta.add_spec(tb).add_spec(tc)
    }

    /// The point where the line through `(a, fa)` and `(b, fb)` is at zero.
    pub open spec fn secant(self) -> T {
        self.b.sub_spec(
            self.fb.mul_spec(self.b.sub_spec(self.a)).div_spec(self.fb.sub_spec(self.fa)),
        )
    }

    /// The interpolated point: by inverse quadratic interpolation where `fc`
    /// differs from both `fa` and `fb`, else by the secant.
    pub open spec fn spec_interpolate(self) -> T {
        if !self.fa.eq_spec(&self.fc) && !self.fb.eq_spec(&self.fc) {
            self.inverse_quadratic()
        } else {
            self.secant()
        }
    }

    /// The interpolated point.
    pub fn interpolate(&self) -> (s: T)
        requires
            total_arithmetic::<T>(),
        ensures
            exact_arithmetic::<T>() ==> s == self.spec_interpolate(),
    {
        let a = self.a;
        let b = self.b;
        let c = self.c;
        let fa = self.fa;
        let fb = self.fb;
        let fc = self.fc;
        if fa != fc && fb != fc {
            a * fb * fc / ((fa - fb) * (fa - fc)) + b * fa * fc / ((fb - fa) * (fb - fc)) + c * fa
                * fb / ((fc - fa) * (fc - fb))
        } else {
            b - fb * (b - a) / (fb - fa)
        }
    }

    /// Whether the interpolated point `s` is taken: it lies above
    /// `(3a + b) / 4` and below `b`, and the kept step `e` is not smaller
    /// than the tolerance.
    pub open spec fn spec_accepts(self, s: T, tolerance: T) -> bool {
        let bound = spec_number::<T>(3).mul_spec(self.a).add_spec(self.b).div_spec(
            spec_number::<T>(4),
        );
        &&& bound.is_lt(&s) && s.is_lt(&self.b)
        &&& !spec_within(self.e, tolerance)
    }

    /// Whether the interpolated point `s` is taken.
    pub fn accepts(&self, s: T, tolerance: T) -> (r: bool)
        requires
            total_arithmetic::<T>(),
        ensures
            exact_arithmetic::<T>() ==> r == self.spec_accepts(s, tolerance),
    {
        let three: T = number(3u32);
        let four: T = number(4u32);
        let bound = (three * self.a + self.b) / four;
        bound < s && s < self.b && !within(self.e, tolerance)
    }

    /// What a round proposes: the interpolated point where it is taken, else
    /// the midpoint of `a` and `b`; with the step sizes to keep.
    pub open spec fn spec_propose(self, tolerance: T) -> BrentTrial<T> {
        let s = self.spec_interpolate();
        if self.spec_accepts(s, tolerance) {
            BrentTrial { s, d: self.e, e: self.b.sub_spec(self.a) }
        } else {
            BrentTrial { s: spec_midpoint(self.a, self.b), d: self.b.sub_spec(self.a), e: self.d }
        }
    }

    /// What a round proposes.
    pub fn propose(&self, tolerance: T) -> (trial: BrentTrial<T>)
        requires
            total_arithmetic::<T>(),
        ensures
            exact_arithmetic::<T>() ==> trial == self.spec_propose(tolerance),
    {
        let s = self.interpolate();
        if self.accepts(s, tolerance) {
            BrentTrial { s, d: self.e, e: self.b - self.a }
        } else {
            BrentTrial { s: midpoint(self.a, self.b), d: self.b - self.a, e: self.d }
        }
    }

    /// The root that the search ends with in this round, if it ends: the
    /// proposed point `s` where the step from `b` to `s` is smaller than the
    /// tolerance; else the estimate `b` where the function value at `b` is
    /// smaller than the tolerance; else none.
    pub open spec fn spec_converged(self, s: T, tolerance: T) -> Option<T> {
        if spec_within(s.sub_spec(self.b), tolerance) {
            Some(s)
        } else if spec_within(self.fb, tolerance) {
            Some(self.b)
        } else {
            None
        }
    }

    /// The root that the search ends with in this round, if it ends.
    pub fn converged(&self, s: T, tolerance: T) -> (root: Option<T>)
        requires
            total_arithmetic::<T>(),
        ensures
            root matches Some(r) ==> r == s || r == self.b,
            exact_arithmetic::<T>() ==> root == self.spec_converged(s, tolerance),
    {
        if within(s - self.b, tolerance) {
            Some(s)
        } else if within(self.fb, tolerance) {
            Some(self.b)
        } else {
            None
        }
    }

    /// The state after a round that went on: `b` becomes `a`, the proposed
    /// point with its function value `fs` becomes `b`, `c` moves to the new
    /// `a` where the function changes sign between the new `a` and `b`, and
    /// `a` and `b` change places where `a` has the smaller absolute function
    /// value.
    pub open spec fn spec_advance(self, trial: BrentTrial<T>, fs: T) -> Self {
        let a = self.b;
        let fa = self.fb;
        let b = trial.s;
        let fb = fs;
        let crossed = fa.mul_spec(fb).is_lt(&spec_number::<T>(0));
        let c = if crossed { a } else { self.c };
        let fc = if crossed { fa } else { self.fc };
        if spec_magnitude(fa).is_lt(&spec_magnitude(fb)) {
            BrentState { a: b, b: a, c, fa: fb, fb: fa, fc, d: trial.d, e: trial.e }
        } else {
            BrentState { a, b, c, fa, fb, fc, d: trial.d, e: trial.e }
        }
    }

    /// The state after a round that went on.
    pub fn advance(&self, trial: &BrentTrial<T>, fs: T) -> (next: Self)
        requires
            total_arithmetic::<T>(),
        ensures
            exact_arithmetic::<T>() ==> next == self.spec_advance(*trial, fs),
    {
        let a = self.b;
        let fa = self.fb;
        let b = trial.s;
        let fb = fs;
        let zero: T = number(0u32);
        let crossed = fa * fb < zero;
        let c = if crossed { a } else { self.c };
        let fc = if crossed { fa } else { self.fc };
        if magnitude(fa) < magnitude(fb) {
            BrentState { a: b, b: a, c, fa: fb, fb: fa, fc, d: trial.d, e: trial.e }
        } else {
            BrentState { a, b, c, fa, fb, fc, d: trial.d, e: trial.e }
        }
    }
}

/// How a search of Brent ends: with a root or an error, in the state of its
/// last round, and with the rounds it went through.
pub struct BrentOutcome<T> {
    pub result: Result<T, RootFindingError>,
    pub last: BrentState<T>,
    pub rounds: Seq<IterationRecord<T>>,
}

/// The search from the state `state` on, where `round` rounds are done and
/// `max_iterations` are allowed: it ends without a root when the rounds are
/// used up, ends with the root of the round when the state has converged,
/// and else evaluates `f` at the proposed point and goes on from the next
/// state.
pub open spec fn brent_rounds<T: Scalar>(
    state: BrentState<T>,
    tolerance: T,
    f: spec_fn(T) -> T,
    round: nat,
    max_iterations: nat,
) -> BrentOutcome<T>
    decreases max_iterations - round,
{
    if round >= max_iterations {
        BrentOutcome {
            result: Err(RootFindingError::FailedToConverge),
            last: state,
            rounds: Seq::empty(),
        }
    } else {
        let trial = state.spec_propose(tolerance);
        if let Some(root) = state.spec_converged(trial.s, tolerance) {
            BrentOutcome { result: Ok(root), last: state, rounds: Seq::empty() }
        } else {
            let fs = f(trial.s);
            let rest = brent_rounds(
                state.spec_advance(trial, fs),
                tolerance,
                f,
                round + 1,
                max_iterations,
            );
            BrentOutcome {
                result: rest.result,
                last: rest.last,
                rounds: seq![IterationRecord { iteration: round + 1, x: seq![trial.s], fx: seq![fs] }]
                    + rest.rounds,
            }
        }
    }
}

/// The whole search on the bracket from `x0` to `x1`, for a function given
/// as a function of mathematics. The first round evaluates `f` at the two
/// ends. Where the two values have the same sign the
/// search ends there with `InvalidBracket`; else it runs its rounds from the
/// initial state.
pub open spec fn brent_search<T: Scalar>(
    x0: T,
    x1: T,
    tolerance: T,
    f: spec_fn(T) -> T,
    max_iterations: nat,
) -> BrentOutcome<T> {
    let f0 = f(x0);
    let f1 = f(x1);
    let first = IterationRecord { iteration: 1, x: seq![x0, x1], fx: seq![f0, f1] };
    if spec_same_signs(f0, f1) {
        BrentOutcome {
            result: Err(RootFindingError::InvalidBracket),
            last: BrentState::spec_initial(x0, x1, f0, f1),
            rounds: seq![first],
        }
    } else {
        let rest = brent_rounds(
            BrentState::spec_initial(x0, x1, f0, f1),
            tolerance,
            f,
            1,
            max_iterations,
        );
        BrentOutcome { result: rest.result, last: rest.last, rounds: seq![first] + rest.rounds }
    }
}

/// A finder that searches a bracket by the method of Brent.
pub struct BrentRootFinder<T, F> {
    /// One end of the bracket.
    pub x0: T,
    /// The other end of the bracket.
    pub x1: T,
    /// The search ends when a step or a function value is smaller than this.
    pub tolerance: T,
    /// The target function.
    pub function: F,
    /// The number of rounds allowed, the evaluation of the two ends included.
    pub max_iterations: usize,
    /// Whether the rounds are logged.
    pub log_convergence: bool,
    /// The record of the last search.
    pub convergence_log: ConvergenceLog<T>,
}

/// The first record holds the two ends of the bracket, every later one the
/// one point proposed in its round.
pub open spec fn two_then_one<T>(records: Seq<IterationRecord<T>>) -> bool {
    forall|i: int|
        0 <= i < records.len() ==> (#[trigger] records[i]).x.len() == if i == 0 {
            2nat
        } else {
            1nat
        }
}

/// What a search does to a finder of Brent: `before` is the finder as the
/// search finds it, `after` as it leaves it, `res` what it returns.
///
/// The finder keeps its configuration, so that a second search repeats the
/// first. Where the finder logs, the log holds the evaluation of the two ends
/// and one entry for each point evaluated after it, at most `max_iterations`
/// entries but for the first, numbered from 1 on; the first entry holds two
/// points, every other one; each entry holds as many function values as
/// points, and they are values of the function at those points. Else the
/// log is empty.
///
/// The search fails with `InvalidBracket` or with `FailedToConverge` and in
/// no other way: with the first before any round but the evaluation of the
/// two ends, with the second after the last round allowed.
///
/// Where the arithmetic is exact and the function single-valued, the result
/// and the rounds are those of [`brent_search`], and the values in those
/// rounds are values that the function has returned.
pub open spec fn brent_searched<T: Scalar, F: ScalarFn<T>>(
    before: BrentRootFinder<T, F>,
    after: BrentRootFinder<T, F>,
    res: Result<T, RootFindingError>,
) -> bool {
    &&& after.x0 == before.x0
    &&& after.x1 == before.x1
    &&& after.tolerance == before.tolerance
    &&& after.function == before.function
    &&& after.max_iterations == before.max_iterations
    &&& after.log_convergence == before.log_convergence
    &&& !before.log_convergence ==> after.convergence_log@ == Seq::<IterationRecord<T>>::empty()
    &&& before.log_convergence ==> 1 <= after.convergence_log@.len()
    &&& after.convergence_log@.len() <= 1 || after.convergence_log@.len()
        <= before.max_iterations
    &&& balanced(after.convergence_log@)
    &&& numbered_from(after.convergence_log@, 1)
    &&& two_then_one(after.convergence_log@)
    &&& records_of(before.function, after.convergence_log@)
    &&& res matches Err(error) ==> error == RootFindingError::InvalidBracket || error
        == RootFindingError::FailedToConverge
    &&& res == Err::<T, RootFindingError>(RootFindingError::InvalidBracket)
        ==> after.convergence_log@.len() <= 1
    &&& res == Err::<T, RootFindingError>(RootFindingError::FailedToConverge)
        && before.log_convergence ==> after.convergence_log@.len() >= before.max_iterations
    &&& exact_arithmetic::<T>() && single_valued(before.function) ==> {
        let model = brent_search(
            before.x0,
            before.x1,
            before.tolerance,
            as_spec(before.function),
            before.max_iterations as nat,
        );
        &&& res == model.result
        &&& before.log_convergence ==> after.convergence_log@ == model.rounds
        &&& records_of(before.function, model.rounds)
    }
}

impl<T: Scalar, F: ScalarFn<T>> RootFindingIterator<T> for BrentRootFinder<T, F> {
    open spec fn wf(&self) -> bool {
        total_arithmetic::<T>() && total(self.function)
    }

    open spec fn log(&self) -> Seq<IterationRecord<T>> {
        self.convergence_log@
    }

    open spec fn first_round(&self) -> nat {
        1
    }

    /// Searches the bracket from `x0` to `x1`, as [`brent_searched`] says.
    fn find_root(&mut self) -> (res: Result<T, RootFindingError>)
        ensures
            brent_searched(*old(self), *final(self), res),
    {
        self.convergence_log.reset();
        let x0 = self.x0;
        let x1 = self.x1;
        let f0 = self.function.eval(x0);
        let f1 = self.function.eval(x1);
        let ghost first = IterationRecord { iteration: 1, x: seq![x0, x1], fx: seq![f0, f1] };
        let ghost mut done: Seq<IterationRecord<T>> = seq![first];
        let ghost exact = exact_arithmetic::<T>() && single_valued(self.function);
        let ghost f = as_spec(self.function);
        let ghost model = brent_search(x0, x1, self.tolerance, f, self.max_iterations as nat);
        if self.log_convergence {
            let points: Vec<T> = vec![x0, x1];
            let found: Vec<T> = vec![f0, f1];
            assert(points@ =~= first.x && found@ =~= first.fx);
            self.convergence_log.add_entry(1, points, found);
            assert(self.convergence_log@ =~= done);
        }
        if same_signs(f0, f1) {
            return Err(RootFindingError::InvalidBracket);
        }
        let mut state = BrentState::initial(x0, x1, f0, f1);
        let mut round: usize = 1;
        assert(exact ==> model.rounds =~= done + brent_rounds(
            state,
            self.tolerance,
            f,
            round as nat,
            self.max_iterations as nat,
        ).rounds);
        while round < self.max_iterations
            invariant
                self.wf(),
                self.x0 == old(self).x0,
                self.x1 == old(self).x1,
                self.tolerance == old(self).tolerance,
                self.function == old(self).function,
                self.max_iterations == old(self).max_iterations,
                self.log_convergence == old(self).log_convergence,
                exact == (exact_arithmetic::<T>() && single_valued(self.function)),
                f == as_spec(self.function),
                model == brent_search(
                    self.x0,
                    self.x1,
                    self.tolerance,
                    f,
                    self.max_iterations as nat,
                ),
                1 <= round,
                round <= self.max_iterations || round == 1,
                done.len() == round,
                balanced(done),
                numbered_from(done, 1),
                two_then_one(done),
                records_of(self.function, done),
                self.log_convergence ==> self.convergence_log@ == done,
                !self.log_convergence ==> self.convergence_log@ == Seq::<IterationRecord<T>>::empty(),
                exact ==> {
                    let rest = brent_rounds(
                        state,
                        self.tolerance,
                        f,
                        round as nat,
                        self.max_iterations as nat,
                    );
                    &&& model.result == rest.result
                    &&& model.rounds == done + rest.rounds
                },
            decreases self.max_iterations - round,
        {
            let trial = state.propose(self.tolerance);
            if let Some(root) = state.converged(trial.s, self.tolerance) {
                assert(exact ==> model.rounds =~= done);
                return Ok(root);
            }
            let fs = self.function.eval(trial.s);
            round += 1;
            let ghost record = IterationRecord {
                iteration: round as nat,
                x: seq![trial.s],
                fx: seq![fs],
            };
            let ghost rest = brent_rounds(
                state.spec_advance(trial, fs),
                self.tolerance,
                f,
                round as nat,
                self.max_iterations as nat,
            );
            assert(exact ==> model.rounds =~= done.push(record) + rest.rounds);
            proof {
                done = done.push(record);
            }
            if self.log_convergence {
                let points: Vec<T> = vec![trial.s];
                let found: Vec<T> = vec![fs];
                assert(points@ =~= record.x && found@ =~= record.fx);
                self.convergence_log.add_entry(round, points, found);
            }
            state = state.advance(&trial, fs);
        }
        assert(exact ==> model.rounds =~= done);
        Err(RootFindingError::FailedToConverge)
    }

    fn get_convergence_log(&self) -> (log: &ConvergenceLog<T>) {
        &self.convergence_log
    }
}

/// The rounds after round `round` are numbered from `round + 1` on and stop
/// at round `max_iterations`. They end with a root or with
/// `FailedToConverge`, and with `FailedToConverge` only when the rounds are
/// used up: every round up to `max_iterations` is then made. A root is
/// either the point proposed in the last state, a step smaller than the
/// tolerance away from the estimate `b`, or the estimate `b` itself, at which
/// the function value is smaller than the tolerance.
pub proof fn lemma_brent_rounds_end<T: Scalar>(
    state: BrentState<T>,
    tolerance: T,
    f: spec_fn(T) -> T,
    round: nat,
    max_iterations: nat,
)
    ensures
        ({
            let outcome = brent_rounds(state, tolerance, f, round, max_iterations);
            &&& numbered_from(outcome.rounds, round + 1)
            &&& balanced(outcome.rounds)
            &&& outcome.rounds.len() == 0 || round + outcome.rounds.len() <= max_iterations
            &&& outcome.result is Ok || outcome.result == Err::<T, RootFindingError>(
                RootFindingError::FailedToConverge,
            )
            &&& outcome.result is Err ==> round + outcome.rounds.len() >= max_iterations
            &&& outcome.result is Err && round <= max_iterations ==> round + outcome.rounds.len()
                == max_iterations
            &&& outcome.result matches Ok(root) ==> {
                let s = outcome.last.spec_propose(tolerance).s;
                &&& outcome.last.spec_converged(s, tolerance) == Some(root)
                &&& spec_within(s.sub_spec(outcome.last.b), tolerance) && root == s
                    || spec_within(outcome.last.fb, tolerance) && root == outcome.last.b
            }
        }),
    decreases max_iterations - round,
{
    if round < max_iterations {
        let trial = state.spec_propose(tolerance);
        if state.spec_converged(trial.s, tolerance) is None {
            let fs = f(trial.s);
            lemma_brent_rounds_end(
                state.spec_advance(trial, fs),
                tolerance,
                f,
                round + 1,
                max_iterations,
            );
            let outcome = brent_rounds(state, tolerance, f, round, max_iterations);
            let rest = brent_rounds(
                state.spec_advance(trial, fs),
                tolerance,
                f,
                round + 1,
                max_iterations,
            );
            assert forall|i: int| 0 <= i < outcome.rounds.len() implies (
            #[trigger] outcome.rounds[i]).iteration == round + 1 + i && outcome.rounds[i].x.len()
                == outcome.rounds[i].fx.len() by {
                if i > 0 {
                    assert(outcome.rounds[i] == rest.rounds[i - 1]);
                }
            }
        }
    }
}

/// A search of Brent ends with `InvalidBracket` exactly where the function
/// values at the two ends of the bracket have the same sign, and then its
/// only round is the evaluation of the two ends. Every search starts with
/// that round, numbers its rounds from 1 on, and makes at most
/// `max_iterations` rounds but for that first one. A root that it ends with
/// is a step smaller than the tolerance away from the last estimate `b`, or
/// is that estimate, with a function value smaller than the tolerance.
pub proof fn lemma_bracket_is_checked_first<T: Scalar>(
    x0: T,
    x1: T,
    tolerance: T,
    f: spec_fn(T) -> T,
    max_iterations: nat,
)
    ensures
        ({
            let outcome = brent_search(x0, x1, tolerance, f, max_iterations);
            let f0 = f(x0);
            let f1 = f(x1);
            let first = IterationRecord { iteration: 1, x: seq![x0, x1], fx: seq![f0, f1] };
            &&& outcome.result == Err::<T, RootFindingError>(RootFindingError::InvalidBracket)
                <==> spec_same_signs(f0, f1)
            &&& spec_same_signs(f0, f1) ==> outcome.rounds == seq![first]
            &&& outcome.rounds.len() >= 1
            &&& outcome.rounds[0] == first
            &&& numbered_from(outcome.rounds, 1)
            &&& balanced(outcome.rounds)
            &&& outcome.rounds.len() == 1 || outcome.rounds.len() <= max_iterations
            &&& outcome.result matches Ok(root) ==> {
                let s = outcome.last.spec_propose(tolerance).s;
                spec_within(s.sub_spec(outcome.last.b), tolerance) && root == s || spec_within(
                    outcome.last.fb,
                    tolerance,
                ) && root == outcome.last.b
            }
        }),
{
    let f0 = f(x0);
    let f1 = f(x1);
    let first = IterationRecord { iteration: 1, x: seq![x0, x1], fx: seq![f0, f1] };
    let outcome = brent_search(x0, x1, tolerance, f, max_iterations);
    if !spec_same_signs(f0, f1) {
        let state = BrentState::spec_initial(x0, x1, f0, f1);
        lemma_brent_rounds_end(state, tolerance, f, 1, max_iterations);
        let rest = brent_rounds(state, tolerance, f, 1, max_iterations);
        assert(outcome.rounds =~= seq![first] + rest.rounds);
        assert forall|i: int| 0 <= i < outcome.rounds.len() implies (
        #[trigger] outcome.rounds[i]).iteration == 1 + i && outcome.rounds[i].x.len()
            == outcome.rounds[i].fx.len() by {
            if i > 0 {
                assert(outcome.rounds[i] == rest.rounds[i - 1]);
            }
        }
    }
}

/// What the predicates of a finder of Brent say: it is fit to search when
/// the arithmetic is total and the function can be evaluated everywhere; its
/// record is what its log holds; and every search starts with round 1.
pub proof fn lemma_brent_is_fit<T: Scalar, F: ScalarFn<T>>(finder: BrentRootFinder<T, F>)
    ensures
        finder.wf() <==> total_arithmetic::<T>() && total(finder.function),
        finder.log() == finder.convergence_log@,
        finder.first_round() == 1,
{
}

} // verus!

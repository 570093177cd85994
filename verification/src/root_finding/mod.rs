//! Root finding: the strategies, the driver that runs one, the search of
//! Brent, and the builder that checks a configuration and assembles a finder.

use vstd::prelude::*;

pub mod bisection;
pub mod brent;
pub mod builder;
pub mod convergencelog;
pub mod function;
pub mod newton_raphson;
pub mod secant;
pub mod strategy;

pub use builder::RootFinderBuilder;
pub use convergencelog::ConvergenceLog;

use convergencelog::{
    balanced, lemma_numbered_is_increasing, numbered_from, of_arity, strictly_increasing,
    IterationRecord,
};
use function::{
    as_spec, evaluate, image, records_of, seen_at, single_valued, total, values, ScalarFn,
};

verus! {

/// The search methods that can be selected.
#[derive(Debug)]
pub enum RootFindingMethod {
    Bisection,
    Brent,
    Secant,
    InverseQuadraticInterpolation,
    NewtonRaphson,
}

/// Why a search ended without a root.
#[derive(Debug, Clone, Copy, PartialEq, Eq, Structural)]
pub enum RootFindingError {
    /// The derivative at the current point is too close to zero to divide by.
    DerivativeTooSmall,
    /// The two latest function values are too close to divide by their
    /// difference.
    DenominatorTooSmall,
    /// The driver used up its rounds before the strategy stopped.
    MaxIterationsReached,
    /// The function values at the two ends of the bracket have the same sign.
    InvalidBracket,
    /// The search of Brent used up its rounds before it converged.
    FailedToConverge,
}

impl RootFindingError {
    /// Whether the error says that a denominator was too close to zero.
    pub open spec fn is_stall(self) -> bool {
        self == RootFindingError::DerivativeTooSmall || self
            == RootFindingError::DenominatorTooSmall
    }

    /// The text of [`RootFindingError::message`].
    pub open spec fn spec_message(self) -> Seq<char> {
        match self {
            RootFindingError::DerivativeTooSmall => "Derivative too close to zero."@,
            RootFindingError::DenominatorTooSmall => "Denominator too close to zero."@,
            RootFindingError::MaxIterationsReached => "Maximum iterations reached without convergence."@,
            RootFindingError::InvalidBracket => "F(a) and F(b) must be of opposite signs"@,
            RootFindingError::FailedToConverge => "Failed to converge"@,
        }
    }

    /// A sentence that says what went wrong.
    pub fn message(&self) -> (text: String)
        ensures
            text@ == self.spec_message(),
    {
        match self {
            RootFindingError::DerivativeTooSmall => "Derivative too close to zero.".to_owned(),
            RootFindingError::DenominatorTooSmall => "Denominator too close to zero.".to_owned(),
            RootFindingError::MaxIterationsReached => "Maximum iterations reached without convergence.".to_owned(),
            RootFindingError::InvalidBracket => "F(a) and F(b) must be of opposite signs".to_owned(),
            RootFindingError::FailedToConverge => "Failed to converge".to_owned(),
        }
    }
}

/// A finder that is ready to search, and keeps the record of its last search.
pub trait RootFindingIterator<T> {
    /// The finder is fit to search.
    spec fn wf(&self) -> bool;

    /// The record of the last search.
    spec fn log(&self) -> Seq<IterationRecord<T>>;

    /// The number that the next search gives to its first round.
    spec fn first_round(&self) -> nat;

    /// Searches for a root. The record of an earlier search is dropped; the
    /// new one, empty where the finder does not log, holds as many function
    /// values as points in each entry and numbers its entries consecutively.
    fn find_root(&mut self) -> (res: Result<T, RootFindingError>)
        requires
            old(self).wf(),
        ensures
            final(self).wf(),
            balanced(final(self).log()),
            numbered_from(final(self).log(), old(self).first_round()),
    ;

    /// The record of the last search.
    fn get_convergence_log(&self) -> (log: &ConvergenceLog<T>)
        ensures
            log@ == self.log(),
    ;
}

/// A search strategy: it names the points to evaluate, and decides from the
/// function values found there whether the search is over and where to look
/// next.
///
/// Each method has a model, a function of the strategy's state and of the
/// values handed in. Where [`RootFinder::exact`] holds the method computes
/// what its model says.
pub trait RootFinder<T>: Sized {
    /// The strategy is fit to be run.
    spec fn wf(&self) -> bool;

    /// The number of points that the strategy has evaluated in each round.
    spec fn arity(&self) -> nat;

    /// Whether the strategy reads the derivative values.
    spec fn uses_derivative(&self) -> bool;

    /// Whether the methods compute what their models say.
    spec fn exact() -> bool;

    /// The state after [`RootFinder::get_init_args`], and the points it
    /// returns.
    spec fn init_model(self) -> (Self, Seq<T>);

    /// The state after [`RootFinder::get_next_args`], and the points it
    /// returns.
    spec fn next_model(self, fx: Seq<T>, dfx: Seq<T>) -> (Self, Seq<T>);

    /// What [`RootFinder::should_stop`] returns.
    spec fn stop_model(self, fx: Seq<T>, dfx: Seq<T>) -> Option<Result<T, RootFindingError>>;

    /// The points of the first round.
    fn get_init_args(&mut self) -> (args: Vec<T>)
        requires
            old(self).wf(),
        ensures
            final(self).wf(),
            final(self).arity() == old(self).arity(),
            final(self).uses_derivative() == old(self).uses_derivative(),
            args@.len() == old(self).arity(),
            Self::exact() ==> (*final(self), args@) == (*old(self)).init_model(),
    ;

    /// The points of the next round, from the function values `fx` and the
    /// derivative values `dfx` at the points of this one.
    fn get_next_args(&mut self, fx: &[T], dfx: &[T]) -> (args: Vec<T>)
        requires
            old(self).wf(),
            fx@.len() == old(self).arity(),
            old(self).uses_derivative() ==> dfx@.len() == old(self).arity(),
        ensures
            final(self).wf(),
            final(self).arity() == old(self).arity(),
            final(self).uses_derivative() == old(self).uses_derivative(),
            args@.len() == old(self).arity(),
            Self::exact() ==> (*final(self), args@) == (*old(self)).next_model(fx@, dfx@),
    ;

    /// Whether the search is over, from the function values `fx` and the
    /// derivative values `dfx` at the points of this round: `None` to go on,
    /// a root, or the reason why none can be found, which is that a
    /// denominator was too close to zero.
    fn should_stop(&self, fx: &[T], dfx: &[T]) -> (stop: Option<Result<T, RootFindingError>>)
        requires
            self.wf(),
            fx@.len() == self.arity(),
            self.uses_derivative() ==> dfx@.len() == self.arity(),
        ensures
            stop matches Some(Err(error)) ==> error.is_stall(),
            Self::exact() ==> stop == self.stop_model(fx@, dfx@),
    ;
}

/// What a round of the driver concludes: the strategy's answer where it
/// gives one, else `MaxIterationsReached` where round `num_it` is the last
/// one allowed, else nothing yet.
pub open spec fn spec_conclude<T>(
    stop: Option<Result<T, RootFindingError>>,
    num_it: nat,
    max_iterations: nat,
) -> Option<Result<T, RootFindingError>> {
    match stop {
        Some(result) => Some(result),
        None => if num_it >= max_iterations {
            Some(Err(RootFindingError::MaxIterationsReached))
        } else {
            None
        },
    }
}

/// What a round of the driver concludes from the strategy's answer `stop`.
pub fn conclude<T>(
    stop: Option<Result<T, RootFindingError>>,
    num_it: usize,
    max_iterations: usize,
) -> (end: Option<Result<T, RootFindingError>>)
    ensures
        end == spec_conclude(stop, num_it as nat, max_iterations as nat),
{
    match stop {
        Some(result) => Some(result),
        None => if num_it >= max_iterations {
            Some(Err(RootFindingError::MaxIterationsReached))
        } else {
            None
        },
    }
}

/// The derivative, where one is supplied, gives one value at each point.
pub open spec fn single_valued_if_any<T, D: ScalarFn<T>>(derivative: Option<D>) -> bool {
    match derivative {
        Some(d) => single_valued(d),
        None => true,
    }
}

/// The derivative, where one is supplied, may be evaluated everywhere.
pub open spec fn total_if_any<T, D: ScalarFn<T>>(derivative: Option<D>) -> bool {
    match derivative {
        Some(d) => total(d),
        None => true,
    }
}

/// The derivative, where one is supplied, takes its value at the points of
/// every record.
pub open spec fn seen_at_if_any<T, D: ScalarFn<T>>(
    derivative: Option<D>,
    records: Seq<IterationRecord<T>>,
) -> bool {
    match derivative {
        Some(d) => seen_at(d, records),
        None => true,
    }
}

/// The derivative, where one is supplied, as a function of mathematics.
pub open spec fn as_spec_if_any<T, D: ScalarFn<T>>(derivative: Option<D>) -> Option<
    spec_fn(T) -> T,
> {
    match derivative {
        Some(d) => Some(as_spec(d)),
        None => None,
    }
}

/// The derivative values at the points `args`: none where no derivative is
/// supplied.
pub open spec fn derivative_values<T>(derivative: Option<spec_fn(T) -> T>, args: Seq<T>) -> Seq<
    T,
> {
    match derivative {
        Some(d) => image(d, args),
        None => Seq::empty(),
    }
}

/// How a driven search ends: with a root or an error, with the strategy in
/// its last state, and with the rounds it went through.
pub struct DrivenOutcome<T, R> {
    pub result: Result<T, RootFindingError>,
    pub finder: R,
    pub rounds: Seq<IterationRecord<T>>,
}

/// The search from round `num_it` on, in which the strategy `finder`
/// evaluates the points `args`. The round evaluates the function, and the
/// derivative where there is one, asks the strategy whether to stop, and
/// concludes as [`spec_conclude`] says; where it concludes nothing the
/// strategy names the next points and the search goes on with round
/// `num_it + 1`.
pub open spec fn drive<T, R: RootFinder<T>>(
    finder: R,
    args: Seq<T>,
    function: spec_fn(T) -> T,
    derivative: Option<spec_fn(T) -> T>,
    num_it: nat,
    max_iterations: nat,
) -> DrivenOutcome<T, R>
    decreases max_iterations - num_it,
{
    let fx = image(function, args);
    let dfx = derivative_values(derivative, args);
    let round = IterationRecord { iteration: num_it, x: args, fx };
    match spec_conclude(finder.stop_model(fx, dfx), num_it, max_iterations) {
        Some(result) => DrivenOutcome { result, finder, rounds: seq![round] },
        None => {
            let next = finder.next_model(fx, dfx);
            let rest = drive(next.0, next.1, function, derivative, num_it + 1, max_iterations);
            DrivenOutcome {
                result: rest.result,
                finder: rest.finder,
                rounds: seq![round] + rest.rounds,
            }
        },
    }
}

/// The whole search of a driver whose strategy is `finder` and whose next
/// round has the number `num_it`, on a function and a derivative given as
/// functions of mathematics.
pub open spec fn driven_search<T, R: RootFinder<T>>(
    finder: R,
    function: spec_fn(T) -> T,
    derivative: Option<spec_fn(T) -> T>,
    num_it: nat,
    max_iterations: nat,
) -> DrivenOutcome<T, R> {
    let first = finder.init_model();
    drive(first.0, first.1, function, derivative, num_it, max_iterations)
}

/// A copy of `values`.
pub fn copy_of<T: Copy>(values: &Vec<T>) -> (copy: Vec<T>)
    ensures
        copy@ == values@,
{
    let mut copy: Vec<T> = Vec::new();
    let mut i: usize = 0;
    while i < values.len()
        invariant
            i <= values.len(),
            copy@ == values@.subrange(0, i as int),
        decreases values.len() - i,
    {
        copy.push(values[i]);
        i += 1;
        assert(copy@ =~= values@.subrange(0, i as int));
    }
    assert(copy@ =~= values@);
    copy
}

/// The driver: it runs a strategy on a function, round by round, up to a
/// number of rounds, and logs the rounds where it is asked to.
pub struct RootFindingIterationDecorator<T, F, D, R> {
    /// The target function.
    pub function: F,
    /// The derivative of the target function, where one is supplied.
    pub derivative: Option<D>,
    /// The number of the next round.
    pub num_it: usize,
    /// The number of the last round allowed.
    pub max_iterations: usize,
    /// Whether the rounds are logged.
    pub log_convergence: bool,
    /// The strategy.
    pub root_finder: R,
    /// The record of the last search.
    pub convergence_log: ConvergenceLog<T>,
}

impl<T, F, D, R> RootFindingIterationDecorator<T, F, D, R> {
    /// A driver for `root_finder` whose first round has the number 1.
    pub fn new(
        function: F,
        derivative: Option<D>,
        root_finder: R,
        max_iterations: usize,
        log_convergence: bool,
    ) -> (driver: Self)
        ensures
            driver.function == function,
            driver.derivative == derivative,
            driver.num_it == 1,
            driver.max_iterations == max_iterations,
            driver.log_convergence == log_convergence,
            driver.root_finder == root_finder,
            driver.convergence_log@ == Seq::<IterationRecord<T>>::empty(),
    {
        Self {
            function,
            derivative,
            num_it: 1,
            max_iterations,
            log_convergence,
            root_finder,
            convergence_log: ConvergenceLog::new(),
        }
    }
}

/// What a search does to a driver: `before` is the driver as the search
/// finds it, `after` as it leaves it, `res` what it returns.
///
/// The search keeps the functions, the number of rounds allowed and the
/// choice to log. The round counter is not set back: a second search goes on
/// counting where the first one ended, and starts from the state in which the
/// first one left the strategy. A search makes at least one round. It makes
/// no round with a number above `max_iterations`, but for the first one when
/// the counter is there already. Where the driver logs, the log holds one
/// entry for each round, numbered as the round; each entry holds as many
/// points as the strategy evaluates in a round and as many function values,
/// and they are values of the function at those points. Else the log is
/// empty.
///
/// The search fails because the strategy found a denominator too close to
/// zero, or with `MaxIterationsReached`, and in no other way; with
/// `MaxIterationsReached` only in the last round allowed or beyond it.
///
/// Where the strategy is exact and the function and its derivative are
/// single-valued, the result, the strategy's last state and the rounds are
/// those of [`driven_search`], and the values in those rounds are values that
/// the function and the derivative have returned.
pub open spec fn driver_searched<T, F: ScalarFn<T>, D: ScalarFn<T>, R: RootFinder<T>>(
    before: RootFindingIterationDecorator<T, F, D, R>,
    after: RootFindingIterationDecorator<T, F, D, R>,
    res: Result<T, RootFindingError>,
) -> bool {
    &&& after.function == before.function
    &&& after.derivative == before.derivative
    &&& after.max_iterations == before.max_iterations
    &&& after.log_convergence == before.log_convergence
    &&& before.num_it <= after.num_it
    &&& after.num_it <= before.max_iterations || after.num_it == before.num_it
    &&& !before.log_convergence ==> after.convergence_log@ == Seq::<IterationRecord<T>>::empty()
    &&& before.log_convergence ==> after.convergence_log@.len() == after.num_it - before.num_it
        + 1
    &&& balanced(after.convergence_log@)
    &&& numbered_from(after.convergence_log@, before.num_it as nat)
    &&& of_arity(after.convergence_log@, before.root_finder.arity())
    &&& after.root_finder.arity() == before.root_finder.arity()
    &&& records_of(before.function, after.convergence_log@)
    &&& res matches Err(error) ==> error.is_stall() || error
        == RootFindingError::MaxIterationsReached
    &&& res == Err::<T, RootFindingError>(RootFindingError::MaxIterationsReached) ==> after.num_it
        >= before.max_iterations
    &&& R::exact() && single_valued(before.function) && single_valued_if_any(before.derivative)
        ==> {
        let model = driven_search(
            before.root_finder,
            as_spec(before.function),
            as_spec_if_any(before.derivative),
            before.num_it as nat,
            before.max_iterations as nat,
        );
        &&& res == model.result
        &&& after.root_finder == model.finder
        &&& after.num_it == before.num_it + model.rounds.len() - 1
        &&& before.log_convergence ==> after.convergence_log@ == model.rounds
        &&& records_of(before.function, model.rounds)
        &&& seen_at_if_any(before.derivative, model.rounds)
    }
}

impl<T: Copy, F: ScalarFn<T>, D: ScalarFn<T>, R: RootFinder<T>> RootFindingIterator<
    T,
> for RootFindingIterationDecorator<T, F, D, R> {
    open spec fn wf(&self) -> bool {
        &&& self.root_finder.wf()
        &&& total(self.function)
        &&& total_if_any(self.derivative)
        &&& self.root_finder.uses_derivative() ==> self.derivative is Some
    }

    open spec fn log(&self) -> Seq<IterationRecord<T>> {
        self.convergence_log@
    }

    open spec fn first_round(&self) -> nat {
        self.num_it as nat
    }

    /// Runs the strategy from its first points on, as [`driver_searched`]
    /// says.
    fn find_root(&mut self) -> (res: Result<T, RootFindingError>)
        ensures
            driver_searched(*old(self), *final(self), res),
    {
        self.convergence_log.reset();
        let ghost exact = R::exact() && single_valued(self.function) && single_valued_if_any(
            self.derivative,
        );
        let ghost function = as_spec(self.function);
        let ghost derivative = as_spec_if_any(self.derivative);
        let ghost model = driven_search(
            self.root_finder,
            function,
            derivative,
            self.num_it as nat,
            self.max_iterations as nat,
        );
        let mut args = self.root_finder.get_init_args();
        let ghost mut done: Seq<IterationRecord<T>> = Seq::empty();
        assert(exact ==> model.rounds =~= done + drive(
            self.root_finder,
            args@,
            function,
            derivative,
            self.num_it as nat,
            self.max_iterations as nat,
        ).rounds);
        loop
            invariant
                self.wf(),
                self.function == old(self).function,
                self.derivative == old(self).derivative,
                self.max_iterations == old(self).max_iterations,
                self.log_convergence == old(self).log_convergence,
                self.root_finder.arity() == args@.len(),
                exact == (R::exact() && single_valued(self.function) && single_valued_if_any(
                    self.derivative,
                )),
                function == as_spec(self.function),
                derivative == as_spec_if_any(self.derivative),
                model == driven_search(
                    old(self).root_finder,
                    function,
                    derivative,
                    old(self).num_it as nat,
                    old(self).max_iterations as nat,
                ),
                old(self).num_it <= self.num_it,
                self.num_it <= self.max_iterations || self.num_it == old(self).num_it,
                done.len() == self.num_it - old(self).num_it,
                balanced(done),
                of_arity(done, old(self).root_finder.arity()),
                self.root_finder.arity() == old(self).root_finder.arity(),
                numbered_from(done, old(self).num_it as nat),
                records_of(self.function, done),
                exact ==> seen_at_if_any(self.derivative, done),
                self.log_convergence ==> self.convergence_log@ == done,
                !self.log_convergence ==> self.convergence_log@ == Seq::<
                    IterationRecord<T>,
                >::empty(),
                exact ==> {
                    let rest = drive(
                        self.root_finder,
                        args@,
                        function,
                        derivative,
                        self.num_it as nat,
                        self.max_iterations as nat,
                    );
                    &&& model.result == rest.result
                    &&& model.finder == rest.finder
                    &&& model.rounds == done + rest.rounds
                },
            decreases
                    if self.num_it < self.max_iterations {
                        self.max_iterations - self.num_it
                    } else {
                        0
                    },
        {
            let fx = evaluate(&self.function, &args);
            let dfx = match &self.derivative {
                Some(d) => evaluate(d, &args),
                None => Vec::new(),
            };
            let ghost round = IterationRecord { iteration: self.num_it as nat, x: args@, fx: fx@ };
            assert(exact ==> dfx@ =~= derivative_values(derivative, args@));
            proof {
                done = done.push(round);
            }
            if self.log_convergence {
                let found = copy_of(&fx);
                self.convergence_log.add_entry(self.num_it, args, found);
            }
            let stop = self.root_finder.should_stop(fx.as_slice(), dfx.as_slice());
            let end = conclude(stop, self.num_it, self.max_iterations);
            if let Some(res) = end {
                assert(exact ==> model.rounds =~= done);
                return res;
            }
            self.num_it += 1;
            args = self.root_finder.get_next_args(fx.as_slice(), dfx.as_slice());
            assert(exact ==> model.rounds =~= done + drive(
                self.root_finder,
                args@,
                function,
                derivative,
                self.num_it as nat,
                self.max_iterations as nat,
            ).rounds);
        }
    }

    fn get_convergence_log(&self) -> (log: &ConvergenceLog<T>) {
        &self.convergence_log
    }
}

/// The number of the last round of a search that starts with round `num_it`
/// and makes `rounds` rounds.
pub open spec fn last_round(num_it: nat, rounds: nat) -> int {
    num_it + rounds - 1
}

/// A driven search makes at least one round, the evaluation of `args`, and
/// numbers its rounds from `num_it` on. It makes no round after round
/// `max_iterations`, but for its first. It ends with what the strategy answers in its last state to the
/// values of the last round; and where the strategy would go on, it ends
/// with `MaxIterationsReached`, in a round that is the last one allowed or
/// beyond it: a search that starts within the rounds allowed has then made
/// every round from `num_it` to `max_iterations`.
pub proof fn lemma_driven_search_ends<T, R: RootFinder<T>>(
    finder: R,
    args: Seq<T>,
    function: spec_fn(T) -> T,
    derivative: Option<spec_fn(T) -> T>,
    num_it: nat,
    max_iterations: nat,
)
    ensures
        ({
            let outcome = drive(finder, args, function, derivative, num_it, max_iterations);
            let last = outcome.rounds.last();
            &&& outcome.rounds.len() >= 1
            &&& outcome.rounds[0] == (IterationRecord {
                iteration: num_it,
                x: args,
                fx: image(function, args),
            })
            &&& numbered_from(outcome.rounds, num_it)
            &&& balanced(outcome.rounds)
            &&& outcome.rounds.len() == 1 || last_round(num_it, outcome.rounds.len())
                <= max_iterations
            &&& last.fx == image(function, last.x)
            &&& match outcome.finder.stop_model(last.fx, derivative_values(derivative, last.x)) {
                Some(result) => outcome.result == result,
                None => {
                    &&& outcome.result == Err::<T, RootFindingError>(
                        RootFindingError::MaxIterationsReached,
                    )
                    &&& last_round(num_it, outcome.rounds.len()) >= max_iterations
                    &&& num_it <= max_iterations ==> outcome.rounds.len() == max_iterations
                        - num_it + 1
                },
            }
        }),
    decreases max_iterations - num_it,
{
    let fx = image(function, args);
    let dfx = derivative_values(derivative, args);
    let round = IterationRecord { iteration: num_it, x: args, fx };
    let outcome = drive(finder, args, function, derivative, num_it, max_iterations);
    match spec_conclude(finder.stop_model(fx, dfx), num_it, max_iterations) {
        Some(result) => {
            assert(outcome.rounds =~= seq![round]);
        },
        None => {
            let next = finder.next_model(fx, dfx);
            lemma_driven_search_ends(
                next.0,
                next.1,
                function,
                derivative,
                num_it + 1,
                max_iterations,
            );
            let rest = drive(next.0, next.1, function, derivative, num_it + 1, max_iterations);
            assert(outcome.rounds =~= seq![round] + rest.rounds);
            assert(outcome.rounds.last() == rest.rounds.last());
            assert forall|i: int| 0 <= i < outcome.rounds.len() implies (
            #[trigger] outcome.rounds[i]).iteration == num_it + i && outcome.rounds[i].x.len()
                == outcome.rounds[i].fx.len() by {
                if i > 0 {
                    assert(outcome.rounds[i] == rest.rounds[i - 1]);
                }
            }
        },
    }
}

/// After a search of a driver the round numbers in its log grow strictly,
/// and in the log of a driver's first search the first entry has the
/// number 1.
pub proof fn lemma_driver_log_is_ordered<T, F: ScalarFn<T>, D: ScalarFn<T>, R: RootFinder<T>>(
    before: RootFindingIterationDecorator<T, F, D, R>,
    after: RootFindingIterationDecorator<T, F, D, R>,
    res: Result<T, RootFindingError>,
)
    requires
        driver_searched(before, after, res),
    ensures
        balanced(after.convergence_log@),
        strictly_increasing(after.convergence_log@),
        before.log_convergence ==> after.convergence_log@.len() >= 1,
        before.log_convergence ==> after.convergence_log@[0].iteration == before.num_it,
        before.log_convergence && before.num_it == 1 ==> after.convergence_log@[0].iteration == 1,
{
    lemma_numbered_is_increasing(after.convergence_log@, before.num_it as nat);
}

/// What the predicates of a driver say: it is fit to search when its
/// strategy is, the function and the derivative can be evaluated everywhere,
/// and the derivative is there where the strategy reads it; its record is
/// what its log holds; and its next search starts with round `num_it`.
pub proof fn lemma_driver_is_fit<T: Copy, F: ScalarFn<T>, D: ScalarFn<T>, R: RootFinder<T>>(
    driver: RootFindingIterationDecorator<T, F, D, R>,
)
    ensures
        driver.wf() <==> {
            &&& driver.root_finder.wf()
            &&& total(driver.function)
            &&& total_if_any(driver.derivative)
            &&& driver.root_finder.uses_derivative() ==> driver.derivative is Some
        },
        driver.log() == driver.convergence_log@,
        driver.first_round() == driver.num_it,
{
}

} // verus!

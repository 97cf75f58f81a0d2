//! The stream itself: a counter that the ticks of a periodic timer drive.

use crate::period::period_is_zero;
use crate::progression::{
    lemma_nth_value_constant, lemma_nth_value_first, lemma_nth_value_next, modulus, nth_value,
};
use std::time::Duration;
use vstd::prelude::*;
use vstd::wrapping::u64_specs::wrapping_add;

verus! {

/// What a stream is, as far as its values go: where it started, by how much
/// it steps, how often it was asked to tick, and how many values it has
/// handed out so far.
pub struct SequenceState {
    /// The first value handed out.
    pub initial: u64,
    /// The amount added after each value; fixed for the stream's lifetime.
    pub increment: u64,
    /// The time between two values that the stream was made with; fixed.
    pub period: Duration,
    /// How many values have been handed out.
    pub emitted: nat,
}

impl SequenceState {
    /// The state of a stream that has handed out nothing yet.
    pub open spec fn fresh(initial: u64, increment: u64, period: Duration) -> SequenceState {
        SequenceState { initial, increment, period, emitted: 0 }
    }

    /// Whether this can be the state of a stream: its period is not zero,
    /// which is to say strictly positive.
    pub open spec fn well_formed(self) -> bool {
        !period_is_zero(self.period)
    }

    /// The value that the next tick hands out.
    pub open spec fn current(self) -> u64 {
        nth_value(self.initial, self.increment, self.emitted)
    }

    /// The state after one more value has been handed out.
    pub open spec fn advance(self) -> SequenceState {
        SequenceState { emitted: self.emitted + 1, ..self }
    }

    /// The state after `n` more values have been handed out.
    pub open spec fn after(self, n: nat) -> SequenceState
        decreases n,
    {
        if n == 0 {
            self
        } else {
            self.after((n - 1) as nat).advance()
        }
    }

    /// A stream can be started with a period exactly when the period is not
    /// zero, whatever the starting value and the increment are.
    pub proof fn lemma_fresh_well_formed(initial: u64, increment: u64, period: Duration)
        ensures
            SequenceState::fresh(initial, increment, period).well_formed() <==> !period_is_zero(
                period,
            ),
    {
    }

    /// Handing out values changes nothing but their count, which grows by
    /// one with each. In particular the period stays what it was, and so a
    /// stream that started with a period above zero keeps one for life.
    pub proof fn lemma_after(self, n: nat)
        ensures
            self.after(n) == (SequenceState { emitted: self.emitted + n, ..self }),
            self.after(n).well_formed() == self.well_formed(),
        decreases n,
    {
        if n > 0 {
            self.lemma_after((n - 1) as nat);
        }
    }

    /// The first value that a fresh stream hands out is the one it was
    /// started at.
    pub proof fn lemma_first_value(initial: u64, increment: u64, period: Duration)
        ensures
            SequenceState::fresh(initial, increment, period).current() == initial,
    {
        lemma_nth_value_first(initial, increment);
    }

    /// Each value is the one before it plus the increment, and the sum wraps
    /// around at the width of `u64` instead of overflowing.
    pub proof fn lemma_advance_wraps(self)
        ensures
            self.advance().current() == wrapping_add(self.current(), self.increment),
    {
        lemma_nth_value_next(self.initial, self.increment, self.emitted);
    }

    /// The values form an arithmetic progression modulo two to the
    /// sixty-fourth: after `n` values, the next one is the starting value
    /// plus `n` times the increment, reduced by that modulus.
    pub proof fn lemma_arithmetic_progression(
        initial: u64,
        increment: u64,
        period: Duration,
        n: nat,
    )
        ensures
            SequenceState::fresh(initial, increment, period).after(n).current() == (initial + n
                * increment) % modulus(),
    {
        SequenceState::fresh(initial, increment, period).lemma_after(n);
    }

    /// With an increment of zero every value is the starting value.
    pub proof fn lemma_zero_increment(initial: u64, period: Duration, n: nat)
        ensures
            SequenceState::fresh(initial, 0, period).after(n).current() == initial,
    {
        SequenceState::fresh(initial, 0, period).lemma_after(n);
        lemma_nth_value_constant(initial, n);
    }
}

/// What one poll of the timer beside a stream found.
#[derive(Clone, Copy, Debug, PartialEq, Eq, Structural)]
pub enum TimerPoll {
    /// The next tick is not due yet.
    Pending,
    /// A tick is due and has now been consumed.
    Tick,
}

/// What a poll of the stream hands to the consumer. There is no variant for
/// the end of the stream: it has none.
#[derive(Clone, Copy, Debug, PartialEq, Eq, Structural)]
pub enum Emission {
    /// No tick is due; nothing was handed out and nothing changed.
    Pending,
    /// A tick was due; this is the value for it.
    Item(u64),
}

/// Stream returned by [`num_stream`].
pub struct NumStream {
    /// The next value that will be yielded.
    num: u64,
    /// How much `num` is incremented by after yielding.
    increment: u64,
    /// The interval between values yielded.
    period: Duration,
    /// The value the stream started at.
    initial: Ghost<u64>,
    /// How many values have been yielded.
    emitted: Ghost<nat>,
}

impl View for NumStream {
    type V = SequenceState;

    closed spec fn view(&self) -> SequenceState {
        SequenceState {
            initial: self.initial@,
            increment: self.increment,
            period: self.period,
            emitted: self.emitted@,
        }
    }
}

impl NumStream {
    /// The counter always holds the value that the closed form gives for the
    /// number of values yielded so far, and the period is never zero.
    #[verifier::type_invariant]
    spec fn consistent(&self) -> bool {
        &&& self.num == nth_value(self.initial@, self.increment, self.emitted@)
        &&& !period_is_zero(self.period)
    }

    /// The value that the next tick yields.
    pub fn current(&self) -> (value: u64)
        ensures
            value == self@.current(),
    {
        proof {
            use_type_invariant(self);
        }
        self.num
    }

    /// The amount by which each value exceeds the one before it.
    pub fn increment(&self) -> (value: u64)
        ensures
            value == self@.increment,
    {
        self.increment
    }

    /// The interval between values: what the timer beside the stream is to
    /// be set to. It is never zero.
    pub fn period(&self) -> (value: Duration)
        ensures
            value == self@.period,
            !period_is_zero(value),
    {
        proof {
            use_type_invariant(self);
        }
        self.period
    }

    /// Decides what the stream does with the outcome of one poll of its
    /// timer. While the timer is pending the stream stays as it is. On a tick
    /// it yields its current value and moves on to the next one, the sum
    /// wrapping around at the width of `u64`. A tick always yields a value:
    /// the stream has no end.
    pub fn step(&mut self, polled: TimerPoll) -> (out: Emission)
        ensures
            polled == TimerPoll::Pending ==> out == Emission::Pending && final(self)@ == old(
                self,
            )@,
            polled == TimerPoll::Tick ==> out == Emission::Item(old(self)@.current())
                && final(self)@ == old(self)@.advance(),
            polled == TimerPoll::Tick ==> final(self)@.current() == wrapping_add(
                old(self)@.current(),
                old(self)@.increment,
            ),
            final(self)@.well_formed(),
    {
        proof {
            use_type_invariant(&*self);
            self@.lemma_advance_wraps();
        }
        match polled {
            TimerPoll::Pending => Emission::Pending,
            TimerPoll::Tick => {
                let retval = self.num;
                *self = NumStream {
                    num: retval.wrapping_add(self.increment),
                    increment: self.increment,
                    period: self.period,
                    initial: self.initial,
                    emitted: Ghost(self.emitted@ + 1),
                };
                Emission::Item(retval)
            },
        }
    }
}

/// Creates a new `NumStream` that is to yield values at an interval of
/// `period`, each greater than the one before by `increment`, where the first
/// value yielded is `initial`.
///
/// A `NumStream` yields values indefinitely, one for each tick that it is
/// told of. At any time the value can be dropped, which ends the stream.
///
/// The period must not be zero. For every other period, and whatever
/// `initial` and `increment` are, the call returns a stream.
pub fn num_stream(initial: u64, increment: u64, period: Duration) -> (stream: NumStream)
    requires
        !period_is_zero(period),
    ensures
        stream@ == SequenceState::fresh(initial, increment, period),
        stream@.well_formed(),
        stream@.current() == initial,
{
    proof {
        lemma_nth_value_first(initial, increment);
    }
    NumStream { num: initial, increment, period, initial: Ghost(initial), emitted: Ghost(0) }
}

/// Creates a stream as [`num_stream`] does, after testing the period: a zero
/// period gives `None`, whatever `initial` and `increment` are, and any other
/// period gives a stream.
pub fn try_num_stream(initial: u64, increment: u64, period: Duration) -> (made: Option<
    NumStream,
>)
    ensures
        made is None <==> period_is_zero(period),
        made matches Some(stream) ==> stream@ == SequenceState::fresh(initial, increment, period)
            && stream@.well_formed(),
{
    if period.is_zero() {
        None
    } else {
        Some(num_stream(initial, increment, period))
    }
}

} // verus!

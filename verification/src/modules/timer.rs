//! A three-state polling timer: `Wait`, then `Waiting` since some start,
//! then `Ready`, then `Wait` again.

use crate::clock;
use bevy_ecs::component::Component;
use bevy_ecs::component::TableStorage;
use vstd::prelude::*;

verus! {

/// The interval a timer waits for, as a count of one of four units.
#[derive(Clone, Copy, Debug)]
pub enum Duration {
    Millis(u128),
    Micros(u128),
    Nanos(u128),
    Secs(u64),
}

/// Where a timer stands in its cycle.
#[derive(Clone, Copy, PartialEq, Debug)]
pub enum State {
    /// Armed: the next update starts the wait.
    Wait,
    /// Waiting since `time`, in nanoseconds since the Unix epoch.
    Waiting { time: u128 },
    /// The interval has passed and nobody has consumed that yet.
    Ready,
}

impl Duration {
    /// The count, without its unit.
    pub open spec fn magnitude(self) -> int {
        match self {
            Duration::Millis(count) => count as int,
            Duration::Micros(count) => count as int,
            Duration::Nanos(count) => count as int,
            Duration::Secs(count) => count as int,
        }
    }

    /// The nanoseconds in one unit.
    pub open spec fn unit_nanos(self) -> int {
        match self {
            Duration::Millis(_) => 1_000_000,
            Duration::Micros(_) => 1_000,
            Duration::Nanos(_) => 1,
            Duration::Secs(_) => 1_000_000_000,
        }
    }

    /// The whole units of this duration's kind between `start` and a `now`
    /// that is not before it.
    pub open spec fn units_between(self, start: u128, now: u128) -> int {
        (now - start) / self.unit_nanos()
    }

    /// Whether the interval has passed between `start` and `now`: whether
    /// the whole units between them reach the count.
    pub open spec fn elapsed(self, start: u128, now: u128) -> bool {
        self.units_between(start, now) >= self.magnitude()
    }

    /// Decides `elapsed`. No time can be said to have passed up to a `now`
    /// before the `start`.
    pub fn has_elapsed(&self, start: u128, now: u128) -> (passed: bool)
        requires
            start <= now,
        ensures
            passed == self.elapsed(start, now),
    {
        let nanos: u128 = now - start;
        match self {
            Duration::Millis(count) => nanos / 1_000_000 >= *count,
            Duration::Micros(count) => nanos / 1_000 >= *count,
            Duration::Nanos(count) => nanos >= *count,
            Duration::Secs(count) => nanos / 1_000_000_000 >= *count as u128,
        }
    }
}

/// Why a timer could not be updated.
#[derive(Clone, Copy, PartialEq, Debug)]
pub enum TimerError {
    /// The clock stands before the Unix epoch: it gives no reading.
    BeforeEpoch,
    /// The clock reads `now`, which is before the `start` of the wait.
    ClockWentBack { start: u128, now: u128 },
}

/// Whether a timer in `state` can be updated at `now`: a wait cannot be
/// measured up to a time before its start.
pub open spec fn can_step(state: State, now: u128) -> bool {
    state matches State::Waiting { time } ==> time <= now
}

/// How an update ends that is given `reading` for the clock: `None` where
/// the clock gave none. A ready timer needs no reading.
pub open spec fn update_outcome(state: State, reading: Option<u128>) -> Result<(), TimerError> {
    match (state, reading) {
        (State::Ready, _) => Ok(()),
        (_, None) => Err(TimerError::BeforeEpoch),
        (State::Waiting { time }, Some(now)) => if time <= now {
            Ok(())
        } else {
            Err(TimerError::ClockWentBack { start: time, now })
        },
        (State::Wait, Some(_)) => Ok(()),
    }
}

/// The state a timer is left in by an update that is given `reading` for
/// the clock: the next state where the update succeeds, the same state
/// where it fails.
pub open spec fn updated_state(duration: Duration, state: State, reading: Option<u128>) -> State {
    match (update_outcome(state, reading), reading) {
        (Ok(_), Some(now)) => next_state(duration, state, now),
        (Ok(_), None) => State::Wait,
        (Err(_), _) => state,
    }
}

/// The state a timer is left in by one poll that is given `reading` for
/// the clock: a ready timer stays ready, any other is updated.
pub open spec fn polled_state(duration: Duration, state: State, reading: Option<u128>) -> State {
    if state == State::Ready {
        state
    } else {
        updated_state(duration, state, reading)
    }
}

/// The state a timer is left in by one poll for each of `readings`, in
/// turn.
pub open spec fn polled_through(
    duration: Duration,
    state: State,
    readings: Seq<Option<u128>>,
) -> State
    decreases readings.len(),
{
    if readings.len() == 0 {
        state
    } else {
        polled_state(
            duration,
            polled_through(duration, state, readings.drop_last()),
            readings.last(),
        )
    }
}

/// The state that follows `state` when a timer of interval `duration` is
/// updated at time `now`.
pub open spec fn next_state(duration: Duration, state: State, now: u128) -> State {
    match state {
        State::Wait => State::Waiting { time: now },
        State::Waiting { time } => if duration.elapsed(time, now) {
            State::Ready
        } else {
            State::Waiting { time }
        },
        State::Ready => State::Wait,
    }
}

/// The state a timer is in after it was updated at each of `times` in turn.
pub open spec fn state_after(duration: Duration, state: State, times: Seq<u128>) -> State
    decreases times.len(),
{
    if times.len() == 0 {
        state
    } else {
        next_state(duration, state_after(duration, state, times.drop_last()), times.last())
    }
}

/// A polling timer for one entity.
#[derive(Debug)]
pub struct Timer {
    duration: Duration,
    state: State,
}

impl Component for Timer {
    type Storage = TableStorage;
}

/// The mathematical content of a `Timer`.
pub struct TimerView {
    pub duration: Duration,
    pub state: State,
}

impl View for Timer {
    type V = TimerView;

    closed spec fn view(&self) -> TimerView {
        TimerView { duration: self.duration, state: self.state }
    }
}

impl Timer {
    /// A timer of the given interval, armed.
    pub fn new(duration: Duration) -> (timer: Timer)
        ensures
            timer@ == (TimerView { duration, state: State::Wait }),
    {
        Timer { duration, state: State::Wait }
    }

    /// Whether the interval has passed and nobody has consumed that yet.
    pub fn is_ready(&self) -> (ready: bool)
        ensures
            ready == (self@.state == State::Ready),
    {
        match self.state {
            State::Ready => true,
            _ => false,
        }
    }

    /// Whether the timer can be updated at `now`.
    pub fn accepts(&self, now: u128) -> (able: bool)
        ensures
            able == can_step(self@.state, now),
    {
        match self.state {
            State::Waiting { time } => time <= now,
            _ => true,
        }
    }

    /// Moves the timer one step along its cycle, taking `now` for the
    /// current time in nanoseconds since the Unix epoch. A waiting timer
    /// cannot be updated at a time before its start.
    pub fn update_at(&mut self, now: u128)
        requires
            can_step(old(self)@.state, now),
        ensures
            final(self)@.duration == old(self)@.duration,
            final(self)@.state == next_state(old(self)@.duration, old(self)@.state, now),
    {
        match self.state {
            State::Wait => {
                self.state = State::Waiting { time: now };
            },
            State::Waiting { time } => {
                if self.duration.has_elapsed(time, now) {
                    self.state = State::Ready;
                }
            },
            State::Ready => {
                self.state = State::Wait;
            },
        }
    }

    /// Moves the timer one step along its cycle, given what the clock
    /// read. Where the clock gave no reading, or one before the start of the
    /// wait, the update fails and the timer is left as it is.
    pub fn update_with(&mut self, reading: Option<u128>) -> (outcome: Result<(), TimerError>)
        ensures
            outcome == update_outcome(old(self)@.state, reading),
            final(self)@.duration == old(self)@.duration,
            final(self)@.state == updated_state(old(self)@.duration, old(self)@.state, reading),
    {
        match self.state {
            State::Ready => {
                self.state = State::Wait;
                Ok(())
            },
            State::Wait => match reading {
                Some(now) => {
                    self.update_at(now);
                    Ok(())
                },
                None => Err(TimerError::BeforeEpoch),
            },
            State::Waiting { time } => match reading {
                Some(now) => {
                    if time <= now {
                        self.update_at(now);
                        Ok(())
                    } else {
                        Err(TimerError::ClockWentBack { start: time, now })
                    }
                },
                None => Err(TimerError::BeforeEpoch),
            },
        }
    }

    /// Moves the timer one step along its cycle at the current time. The
    /// clock is read only where the step depends on it: a ready timer goes
    /// back to `Wait` whatever the time. Where the clock gives no reading, or
    /// one before the start of the wait, the update fails and the timer is
    /// left as it is.
    pub fn update(&mut self) -> (outcome: Result<(), TimerError>)
        ensures
            final(self)@.duration == old(self)@.duration,
            (exists|reading: Option<u128>|
                outcome == update_outcome(old(self)@.state, reading) && final(self)@.state
                    == #[trigger] updated_state(old(self)@.duration, old(self)@.state, reading)),
    {
        let reading: Option<u128> = match self.state {
            State::Ready => None,
            _ => clock::now(),
        };
        let outcome = self.update_with(reading);
        assert(self@.state == updated_state(old(self)@.duration, old(self)@.state, reading));
        outcome
    }

    /// What the polling system does to each timer once per tick: a timer
    /// that is ready is left alone, so that its readiness stays to be
    /// consumed; any other is updated, and left as it is where the update
    /// fails.
    pub fn poll(&mut self)
        ensures
            final(self)@.duration == old(self)@.duration,
            (exists|reading: Option<u128>|
                final(self)@.state == #[trigger] polled_state(
                    old(self)@.duration,
                    old(self)@.state,
                    reading,
                )),
    {
        if !self.is_ready() {
            let ghost before = self@.state;
            let outcome = self.update();
            let ghost reading = choose|reading: Option<u128>|
                outcome == update_outcome(before, reading) && self@.state == #[trigger] updated_state(
                    self@.duration,
                    before,
                    reading,
                );
            assert(self@.state == polled_state(old(self)@.duration, old(self)@.state, reading));
        } else {
            assert(self@.state == polled_state(old(self)@.duration, old(self)@.state, None));
        }
    }
}

/// What a consumer asks before its work on one entity. Without a timer
/// the work always proceeds. With a timer that is ready the readiness is
/// consumed, sending the timer back to `Wait`, and the work proceeds. With a
/// timer that is not ready the timer is left as it is and the work is to be
/// skipped.
pub fn check_timer(timer: Option<&mut Timer>) -> (proceed: bool)
    ensures
        proceed == (timer matches Some(t) ==> t@.state == State::Ready),
        timer matches Some(t) ==> final(t)@.duration == t@.duration,
        timer matches Some(t) ==> final(t)@.state == (if t@.state == State::Ready {
            State::Wait
        } else {
            t@.state
        }),
{
    match timer {
        Some(t) => {
            if t.is_ready() {
                let outcome = t.update();
                assert(outcome is Ok);
                true
            } else {
                false
            }
        },
        None => true,
    }
}

/// One full cycle. From `Wait` an update at `start` begins the wait. While
/// the whole units between `start` and the time of an update stay below the
/// count, the timer stays `Waiting` since `start`. The first update at which
/// they reach it makes the timer `Ready`, and the update after that, at
/// whatever time, sends it back to `Wait`.
pub proof fn lemma_timer_cycle(duration: Duration, start: u128, early: Seq<u128>, due: u128, after: u128)
    requires
        forall|i: int| 0 <= i < early.len() ==> start <= #[trigger] early[i],
        forall|i: int| 0 <= i < early.len() ==> duration.units_between(start, #[trigger] early[i]) < duration.magnitude(),
        start <= due,
        duration.units_between(start, due) >= duration.magnitude(),
    ensures
        next_state(duration, State::Wait, start) == (State::Waiting { time: start }),
        state_after(duration, State::Waiting { time: start }, early) == (State::Waiting { time: start }),
        state_after(duration, State::Waiting { time: start }, early.push(due)) == State::Ready,
        state_after(duration, State::Waiting { time: start }, early.push(due).push(after)) == State::Wait,
    decreases early.len(),
{
    if early.len() > 0 {
        lemma_timer_cycle(duration, start, early.drop_last(), due, after);
    }
    assert(early.push(due).drop_last() == early);
    assert(early.push(due).push(after).drop_last() == early.push(due));
}

/// A timer is ready in the `Ready` state only: an update never yields
/// `Ready` but from `Waiting`, and then only once the interval has passed.
pub proof fn lemma_ready_only_when_due(duration: Duration, state: State, now: u128)
    ensures
        next_state(duration, state, now) == State::Ready <==> (state matches State::Waiting { time }
            && duration.elapsed(time, now)),
{
}

/// What can happen to a timer in the course of a tick: the polling system
/// polls it, given what the clock read, or a consumer checks it.
pub enum Touch {
    Poll(Option<u128>),
    Check,
}

/// The state that one poll or check leaves a timer in.
pub open spec fn touched(duration: Duration, state: State, touch: Touch) -> State {
    match touch {
        Touch::Poll(reading) => polled_state(duration, state, reading),
        Touch::Check => if state == State::Ready {
            State::Wait
        } else {
            state
        },
    }
}

/// The state that polls and checks leave a timer in, one after the other.
pub open spec fn touched_through(duration: Duration, state: State, touches: Seq<Touch>) -> State
    decreases touches.len(),
{
    if touches.len() == 0 {
        state
    } else {
        touched(duration, touched_through(duration, state, touches.drop_last()), touches.last())
    }
}

/// How many of the polls made the timer ready.
pub open spec fn times_due(duration: Duration, state: State, touches: Seq<Touch>) -> nat
    decreases touches.len(),
{
    if touches.len() == 0 {
        0
    } else {
        let earlier = touched_through(duration, state, touches.drop_last());
        let due: nat = if touches.last() is Poll && earlier != State::Ready && touched(
            duration,
            earlier,
            touches.last(),
        ) == State::Ready {
            1
        } else {
            0
        };
        times_due(duration, state, touches.drop_last()) + due
    }
}

/// How many of the checks found the timer ready, and so let the consumer
/// through to its work.
pub open spec fn times_read(duration: Duration, state: State, touches: Seq<Touch>) -> nat
    decreases touches.len(),
{
    if touches.len() == 0 {
        0
    } else {
        let earlier = touched_through(duration, state, touches.drop_last());
        let read: nat = if touches.last() is Check && earlier == State::Ready {
            1
        } else {
            0
        };
        times_read(duration, state, touches.drop_last()) + read
    }
}

/// One read per readiness. Whatever the order of polls and checks and
/// whatever the clock reads, a timer that starts out not ready has been
/// read exactly as often as it became ready, less the one time that is
/// still to be consumed where it is ready at the end. So a consumer behind
/// the check works once for each time the interval passes, not once per
/// tick.
pub proof fn lemma_one_read_per_readiness(duration: Duration, state: State, touches: Seq<Touch>)
    requires
        state != State::Ready,
    ensures
        times_due(duration, state, touches) == times_read(duration, state, touches) + (if touched_through(
            duration,
            state,
            touches,
        ) == State::Ready {
            1nat
        } else {
            0nat
        }),
        times_read(duration, state, touches) <= times_due(duration, state, touches) <= times_read(
            duration,
            state,
            touches,
        ) + 1,
    decreases touches.len(),
{
    if touches.len() > 0 {
        lemma_one_read_per_readiness(duration, state, touches.drop_last());
    }
}

} // verus!

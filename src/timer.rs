//! The countdown: a duration, the seconds that remain, and whether it runs.

use vstd::prelude::*;

verus! {

/// Mathematical state of a countdown, in whole seconds.
pub struct TimerState {
    pub duration: nat,
    pub remaining: nat,
    pub running: bool,
}

/// What one call of `Timer::tick` did.
#[derive(Debug, Clone, Copy, PartialEq, Eq, Structural)]
pub enum TickEvent {
    /// The timer was paused or already at zero: nothing changed.
    Idle,
    /// One second went by; the value is what remains, still above zero.
    Ticked(u32),
    /// The last second went by: the tick subscriber saw 0 and then the
    /// finished subscriber was called.
    Finished,
}

impl TimerState {
    pub open spec fn initial() -> TimerState {
        TimerState { duration: 0, remaining: 0, running: false }
    }

    /// A new duration restarts the count from it; running is left as it was.
    pub open spec fn set_duration(self, d: nat) -> TimerState {
        TimerState { duration: d, remaining: d, running: self.running }
    }

    pub open spec fn start(self) -> TimerState {
        TimerState { running: true, ..self }
    }

    pub open spec fn pause(self) -> TimerState {
        TimerState { running: false, ..self }
    }

    pub open spec fn reset(self) -> TimerState {
        TimerState { duration: self.duration, remaining: self.duration, running: false }
    }

    /// Whether a tick counts down at all.
    pub open spec fn counts_down(self) -> bool {
        self.running && self.remaining > 0
    }

    pub open spec fn tick(self) -> TimerState {
        if self.counts_down() {
            let r = (self.remaining - 1) as nat;
            TimerState { duration: self.duration, remaining: r, running: r > 0 }
        } else {
            self
        }
    }

    pub open spec fn tick_event(self) -> TickEvent {
        if !self.counts_down() {
            TickEvent::Idle
        } else if self.remaining == 1 {
            TickEvent::Finished
        } else {
            TickEvent::Ticked((self.remaining - 1) as u32)
        }
    }

    /// The remaining time stays within the duration, which fits a `u32`.
    pub open spec fn inv(self) -> bool {
        self.remaining <= self.duration <= u32::MAX
    }
}

/// The subscriber to the per-second notification. Verus does not model trait
/// objects, so the boxed closure is kept out of its sight; calling it runs the
/// subscriber's own code.
#[verifier::external_body]
pub(crate) struct TickSubscriber {
    callback: Box<dyn FnMut(u32)>,
}

impl TickSubscriber {
    /// Relies on `Box::new` and the unsizing coercion to a trait object.
    #[verifier::external_body]
    pub(crate) fn new<F>(callback: F) -> TickSubscriber
        where
            F: FnMut(u32) + 'static,
    {
        TickSubscriber { callback: Box::new(callback) }
    }

    /// Relies on calling the subscriber's closure with the remaining seconds.
    #[verifier::external_body]
    pub(crate) fn notify(&mut self, remaining: u32) {
        (self.callback)(remaining)
    }
}

/// The subscriber to the end of the countdown, kept as `TickSubscriber` is.
#[verifier::external_body]
pub(crate) struct FinishedSubscriber {
    callback: Box<dyn FnMut()>,
}

impl FinishedSubscriber {
    /// Relies on `Box::new` and the unsizing coercion to a trait object.
    #[verifier::external_body]
    pub(crate) fn new<F>(callback: F) -> FinishedSubscriber
        where
            F: FnMut() + 'static,
    {
        FinishedSubscriber { callback: Box::new(callback) }
    }

    /// Relies on calling the subscriber's closure.
    #[verifier::external_body]
    pub(crate) fn notify(&mut self) {
        (self.callback)()
    }
}

/// Hands the remaining seconds to the tick subscriber, if there is one.
fn notify_tick(subscriber: &mut Option<TickSubscriber>, remaining: u32)
    ensures
        final(subscriber).is_some() == old(subscriber).is_some(),
{
    match subscriber {
        Some(s) => s.notify(remaining),
        None => {},
    }
}

/// Calls the finished subscriber, if there is one.
fn notify_finished(subscriber: &mut Option<FinishedSubscriber>)
    ensures
        final(subscriber).is_some() == old(subscriber).is_some(),
{
    match subscriber {
        Some(s) => s.notify(),
        None => {},
    }
}

/// The numbers of a countdown, kept apart from the subscribers so that its
/// invariant speaks of them alone.
struct Countdown {
    duration: u32,
    remaining: u32,
    running: bool,
}

impl View for Countdown {
    type V = TimerState;

    closed spec fn view(&self) -> TimerState {
        TimerState {
            duration: self.duration as nat,
            remaining: self.remaining as nat,
            running: self.running,
        }
    }
}

impl Countdown {
    #[verifier::type_invariant]
    closed spec fn well_formed(self) -> bool {
        self.remaining <= self.duration
    }
}

/// A countdown in seconds, advanced one second per `tick`.
pub struct Timer {
    count: Countdown,
    tick_callback: Option<TickSubscriber>,
    finished_callback: Option<FinishedSubscriber>,
}

impl View for Timer {
    type V = TimerState;

    closed spec fn view(&self) -> TimerState {
        self.count@
    }
}

impl Timer {
    /// Whether a closure is registered for the per-second notification.
    pub closed spec fn has_tick_subscriber(&self) -> bool {
        self.tick_callback is Some
    }

    /// Whether a closure is registered for the end of the countdown.
    pub closed spec fn has_finished_subscriber(&self) -> bool {
        self.finished_callback is Some
    }

    /// A stopped timer of duration zero, with no subscribers.
    pub fn new() -> (t: Timer)
        ensures
            t@ == TimerState::initial(),
            !t.has_tick_subscriber(),
            !t.has_finished_subscriber(),
    {
        Timer {
            count: Countdown { duration: 0, remaining: 0, running: false },
            tick_callback: None,
            finished_callback: None,
        }
    }

    pub fn get_duration(&self) -> (d: u32)
        ensures
            d == self@.duration,
    {
        self.count.duration
    }

    /// Sets the duration and restarts the count from it.
    pub fn set_duration(&mut self, duration: u32)
        ensures
            final(self)@ == old(self)@.set_duration(duration as nat),
            final(self).has_tick_subscriber() == old(self).has_tick_subscriber(),
            final(self).has_finished_subscriber() == old(self).has_finished_subscriber(),
    {
        self.count = Countdown { duration, remaining: duration, running: self.count.running };
    }

    pub fn get_remaining(&self) -> (r: u32)
        ensures
            r == self@.remaining,
            self@.inv(),
    {
        proof {
            use_type_invariant(&self.count);
        }
        self.count.remaining
    }

    pub fn get_total_duration(&self) -> (d: u32)
        ensures
            d == self@.duration,
    {
        self.count.duration
    }

    pub fn start(&mut self)
        ensures
            final(self)@ == old(self)@.start(),
            final(self).has_tick_subscriber() == old(self).has_tick_subscriber(),
            final(self).has_finished_subscriber() == old(self).has_finished_subscriber(),
    {
        proof {
            use_type_invariant(&self.count);
        }
        self.count.running = true;
    }

    pub fn is_running(&self) -> (b: bool)
        ensures
            b == self@.running,
    {
        self.count.running
    }

    pub fn pause(&mut self)
        ensures
            final(self)@ == old(self)@.pause(),
            final(self).has_tick_subscriber() == old(self).has_tick_subscriber(),
            final(self).has_finished_subscriber() == old(self).has_finished_subscriber(),
    {
        proof {
            use_type_invariant(&self.count);
        }
        self.count.running = false;
    }

    pub fn reset(&mut self)
        ensures
            final(self)@ == old(self)@.reset(),
            final(self).has_tick_subscriber() == old(self).has_tick_subscriber(),
            final(self).has_finished_subscriber() == old(self).has_finished_subscriber(),
    {
        self.count = Countdown {
            duration: self.count.duration,
            remaining: self.count.duration,
            running: false,
        };
    }

    /// Makes `callback` the one subscriber to the per-second notification,
    /// in place of any earlier one.
    pub fn on_tick<F>(&mut self, callback: F)
        where
            F: FnMut(u32) + 'static,
        ensures
            final(self)@ == old(self)@,
            final(self).has_tick_subscriber(),
            final(self).has_finished_subscriber() == old(self).has_finished_subscriber(),
    {
        self.tick_callback = Some(TickSubscriber::new(callback));
    }

    /// Counts one second down when the timer runs and time remains. The tick
    /// subscriber then gets the new remaining value; when it is zero the
    /// timer stops and the finished subscriber is called after it.
    pub fn tick(&mut self) -> (event: TickEvent)
        ensures
            final(self)@ == old(self)@.tick(),
            final(self).has_tick_subscriber() == old(self).has_tick_subscriber(),
            final(self).has_finished_subscriber() == old(self).has_finished_subscriber(),
            event == old(self)@.tick_event(),
    {
        proof {
            use_type_invariant(&self.count);
        }
        if self.count.running && self.count.remaining > 0 {
            let now = self.count.remaining - 1;
            self.count.remaining = now;
            notify_tick(&mut self.tick_callback, now);
            if now == 0 {
                self.count.running = false;
                notify_finished(&mut self.finished_callback);
                TickEvent::Finished
            } else {
                TickEvent::Ticked(now)
            }
        } else {
            TickEvent::Idle
        }
    }

    /// Makes `callback` the one subscriber to the end of the countdown, in
    /// place of any earlier one.
    pub fn on_finished<F>(&mut self, callback: F)
        where
            F: FnMut() + 'static,
        ensures
            final(self)@ == old(self)@,
            final(self).has_finished_subscriber(),
            final(self).has_tick_subscriber() == old(self).has_tick_subscriber(),
    {
        self.finished_callback = Some(FinishedSubscriber::new(callback));
    }
}

/// Setting a duration makes it the remaining time at once, whatever the
/// timer held before.
pub proof fn lemma_set_duration_sets_remaining(s: TimerState, d: nat)
    ensures
        s.set_duration(d).remaining == d,
        s.set_duration(d).duration == d,
{
}

/// A tick of a timer that is not running changes nothing, the remaining time
/// included, and notifies no subscriber.
pub proof fn lemma_paused_tick_is_idle(s: TimerState)
    requires
        !s.running,
    ensures
        s.tick() == s,
        s.tick().remaining == s.remaining,
        s.tick_event() == TickEvent::Idle,
{
}

/// The tick of a running timer with one second left brings it to zero, stops
/// it, and ends the countdown: the finished subscriber is called, once.
pub proof fn lemma_last_second_finishes(s: TimerState)
    requires
        s.running,
        s.remaining == 1,
    ensures
        s.tick().remaining == 0,
        !s.tick().running,
        s.tick_event() == TickEvent::Finished,
{
}

impl TimerState {
    /// The state after `k` ticks.
    pub open spec fn ticks(self, k: nat) -> TimerState
        decreases k,
    {
        if k == 0 {
            self
        } else {
            self.tick().ticks((k - 1) as nat)
        }
    }
}

/// A running countdown with `n` seconds left, ticked `n` times: the `k`-th
/// tick reports `n - k` seconds left while that is above zero, the last one
/// finishes, and the timer ends at zero and stopped.
pub proof fn lemma_countdown_runs_out(s: TimerState, n: nat)
    requires
        s.inv(),
        s.running,
        s.remaining == n,
        n >= 1,
    ensures
        s.ticks(n).remaining == 0,
        !s.ticks(n).running,
        s.ticks((n - 1) as nat).tick_event() == TickEvent::Finished,
        forall|k: nat|
            k < n - 1 ==> #[trigger] s.ticks(k).tick_event() == TickEvent::Ticked(
                (n - k - 1) as u32,
            ),
    decreases n,
{
    assert(s.ticks(n) == s.tick().ticks((n - 1) as nat));
    if n == 1 {
        assert(s.ticks(0) == s);
        assert(s.tick().ticks(0) == s.tick());
    } else {
        lemma_countdown_runs_out(s.tick(), (n - 1) as nat);
        assert forall|k: nat| k < n - 1 implies #[trigger] s.ticks(k).tick_event()
            == TickEvent::Ticked((n - k - 1) as u32) by {
            if k > 0 {
                assert(s.ticks(k) == s.tick().ticks((k - 1) as nat));
            }
        }
    }
}

} // verus!

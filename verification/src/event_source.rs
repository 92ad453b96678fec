//! The events that drive the front end: key presses and the ticks of a timer,
//! merged into one ordered stream. Time is counted in milliseconds on a clock
//! that does not run backwards.

use vstd::prelude::*;

verus! {

/// The time between two ticks where nothing else is asked for, in
/// milliseconds.
pub const DEFAULT_TICK_RATE: u64 = 10000;

/// One event of the stream: something that was put in, or a tick.
#[derive(Clone, Copy, Debug, PartialEq, Eq)]
pub enum Event<I> {
    Input(I),
    Tick,
}

/// The timer behind the ticks: the time between two ticks, and the time at
/// which the last one was delivered.
#[derive(Clone, Copy, Debug, PartialEq, Eq)]
pub struct TickTimer {
    pub tick_rate: u64,
    pub last_tick: u64,
}

/// The time that has passed at `now` since `last_tick`: none if the clock
/// shows an earlier time.
pub open spec fn elapsed_since(last_tick: u64, now: u64) -> int {
    if now >= last_tick {
        now - last_tick
    } else {
        0
    }
}

impl TickTimer {
    /// The time that has passed since the last tick.
    pub open spec fn elapsed_at(self, now: u64) -> int {
        elapsed_since(self.last_tick, now)
    }

    /// Whether a tick is due: the time between two ticks has passed.
    pub open spec fn due_at(self, now: u64) -> bool {
        self.elapsed_at(now) >= self.tick_rate
    }

    /// How long to wait for input before the next tick is due.
    pub open spec fn timeout_at(self, now: u64) -> int {
        if self.due_at(now) {
            0
        } else {
            self.tick_rate - self.elapsed_at(now)
        }
    }

    /// The events of one round, in the order in which they became ready: the
    /// input, if any came, and then one tick, if one is due.
    pub open spec fn events_at<I>(self, input: Option<I>, now: u64) -> Seq<Event<I>> {
        let put_in = match input {
            Some(key) => seq![Event::Input(key)],
            None => Seq::empty(),
        };
        if self.due_at(now) {
            put_in.push(Event::Tick)
        } else {
            put_in
        }
    }

    /// The timer after a round: started anew if a tick was due.
    pub open spec fn after_round(self, now: u64) -> TickTimer {
        if self.due_at(now) {
            TickTimer { tick_rate: self.tick_rate, last_tick: now }
        } else {
            self
        }
    }

    /// A timer that ticks every `tick_rate` milliseconds, started at `now`.
    pub fn new(tick_rate: u64, now: u64) -> (timer: Self)
        ensures
            timer == (TickTimer { tick_rate, last_tick: now }),
    {
        TickTimer { tick_rate, last_tick: now }
    }

    /// The time that has passed since the last tick.
    pub fn elapsed(&self, now: u64) -> (passed: u64)
        ensures
            passed == self.elapsed_at(now),
    {
        if now >= self.last_tick {
            now - self.last_tick
        } else {
            0
        }
    }

    /// Tells whether a tick is due.
    pub fn is_due(&self, now: u64) -> (due: bool)
        ensures
            due == self.due_at(now),
    {
        self.elapsed(now) >= self.tick_rate
    }

    /// How long to wait for input at most: until the next tick is due, and
    /// not at all if one is due already. The wait never exceeds the time
    /// between two ticks.
    pub fn poll_timeout(&self, now: u64) -> (timeout: u64)
        ensures
            timeout == self.timeout_at(now),
            timeout <= self.tick_rate,
            timeout == 0 <==> self.due_at(now),
    {
        let passed = self.elapsed(now);
        if passed >= self.tick_rate {
            0
        } else {
            self.tick_rate - passed
        }
    }

    /// Ends one round of waiting: hands out the events to deliver, in order,
    /// and starts the timer anew if a tick is among them. The input comes
    /// first, if any came; a tick that is due follows, once, however long ago
    /// it became due.
    pub fn gather<I>(&mut self, input: Option<I>, now: u64) -> (events: Vec<Event<I>>)
        ensures
            events@ == old(self).events_at(input, now),
            *final(self) == old(self).after_round(now),
    {
        let mut events: Vec<Event<I>> = Vec::new();
        if let Some(key) = input {
            events.push(Event::Input(key));
        }
        if self.is_due(now) {
            events.push(Event::Tick);
            self.last_tick = now;
        }
        events
    }
}

/// After a tick the next one is not due before the time between two ticks has
/// passed again, and the wait for it is that time at most.
pub proof fn lemma_tick_starts_timer_anew(timer: TickTimer, now: u64, later: u64)
    requires
        timer.due_at(now),
        now <= later,
    ensures
        timer.after_round(now).due_at(later) <==> later - now >= timer.tick_rate,
        timer.after_round(now).timeout_at(later) <= timer.tick_rate,
{
}

/// One round delivers at most one tick, as its last event, and no input but
/// the one that came.
pub proof fn lemma_round_is_ordered<I>(timer: TickTimer, input: Option<I>, now: u64)
    ensures
        timer.events_at(input, now).len() == (if input is Some { 1int } else { 0 }) + (if timer.due_at(now) { 1int } else { 0 }),
        input is Some ==> timer.events_at(input, now)[0] == Event::Input(input->0),
        timer.due_at(now) ==> timer.events_at(input, now).last() == Event::<I>::Tick,
{
}

} // verus!

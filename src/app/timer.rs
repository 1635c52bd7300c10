use vstd::prelude::*;

verus! {

/// Nanoseconds in one second: the frame timer counts timestamps and durations in nanoseconds
/// of a monotonic clock.
pub const NANOS_PER_SEC: u64 = 1_000_000_000;

/// Nanoseconds from the timestamp `last` to the timestamp `now`; a reading earlier than `last`
/// counts as no time at all.
pub open spec fn elapsed(last: nat, now: nat) -> nat {
    if now >= last {
        (now - last) as nat
    } else {
        0
    }
}

/// Whether `elapsed` nanoseconds reach one frame interval of a target rate of `rate` frames per
/// second, that is `elapsed / 10^9 >= 1 / rate`, written without division. A rate of zero never
/// reaches a frame boundary.
pub open spec fn frame_due(elapsed: nat, rate: u32) -> bool {
    rate > 0 && elapsed * (rate as nat) >= NANOS_PER_SEC as nat
}

/// What a [`Timer`] holds, in nanoseconds.
pub struct TimerView {
    /// Time accumulated over all frame boundaries so far.
    pub total_time: nat,
    /// Time between the last two frame boundaries.
    pub delta_time: nat,
    /// Timestamp of the last frame boundary.
    pub last_tick: nat,
}

impl TimerView {
    /// The timer after a frame boundary committed at `now`.
    pub open spec fn commit(self, now: nat) -> TimerView {
        let d = elapsed(self.last_tick, now);
        TimerView {
            total_time: self.total_time + d,
            delta_time: d,
            last_tick: self.last_tick + d,
        }
    }

    /// Whether a frame boundary is due at `now` for the target rate `rate`.
    pub open spec fn due(self, now: nat, rate: u32) -> bool {
        frame_due(elapsed(self.last_tick, now), rate)
    }
}

/// Tracks elapsed time and decides when a frame boundary has been reached.
#[derive(Clone, Copy)]
pub struct Timer {
    total_time: u64,
    delta_time: u64,
    last_tick: u64,
}

impl View for Timer {
    type V = TimerView;

    closed spec fn view(&self) -> TimerView {
        TimerView {
            total_time: self.total_time as nat,
            delta_time: self.delta_time as nat,
            last_tick: self.last_tick as nat,
        }
    }
}

impl Timer {
    /// Time only accumulates between ticks, so the total never passes the last timestamp.
    #[verifier::type_invariant]
    closed spec fn inv(self) -> bool {
        self.total_time <= self.last_tick
    }

    /// A timer whose clock starts at timestamp zero, with nothing accumulated.
    pub fn new() -> (t: Timer)
        ensures
            t@ == (TimerView { total_time: 0, delta_time: 0, last_tick: 0 }),
    {
        Timer { total_time: 0, delta_time: 0, last_tick: 0 }
    }

    /// Nanoseconds accumulated over all frame boundaries.
    pub fn total_time(&self) -> (r: u64)
        ensures
            r == self@.total_time,
    {
        self.total_time
    }

    /// Nanoseconds between the last two frame boundaries.
    pub fn delta_time(&self) -> (r: u64)
        ensures
            r == self@.delta_time,
    {
        self.delta_time
    }

    /// Timestamp of the last frame boundary.
    pub fn last_tick(&self) -> (r: u64)
        ensures
            r == self@.last_tick,
    {
        self.last_tick
    }

    /// Whether at least `1 / target_rate` seconds have passed between the last frame boundary
    /// and `now`. Never true for a rate of zero.
    pub fn should_advance(&self, now: u64, target_rate: u32) -> (r: bool)
        ensures
            r == self@.due(now as nat, target_rate),
    {
        if target_rate == 0 {
            return false;
        }
        if now < self.last_tick {
            assert(0 * (target_rate as nat) == 0);
            return false;
        }
        let d = now - self.last_tick;
        assert((d as nat) * (target_rate as nat) <= (u64::MAX as nat) * (u32::MAX as nat))
            by (nonlinear_arith)
            requires
                d <= u64::MAX,
                target_rate <= u32::MAX,
        ;
        (d as u128) * (target_rate as u128) >= NANOS_PER_SEC as u128
    }

    /// Records a frame boundary at `now`: the time since the last boundary becomes the delta,
    /// is added to the total, and `now` becomes the last timestamp.
    pub fn commit_tick(&mut self, now: u64)
        ensures
            final(self)@ == old(self)@.commit(now as nat),
    {
        proof {
            use_type_invariant(&*self);
        }
        if now >= self.last_tick {
            let d = now - self.last_tick;
            *self = Timer { total_time: self.total_time + d, delta_time: d, last_tick: now };
        } else {
            *self = Timer { total_time: self.total_time, delta_time: 0, last_tick: self.last_tick };
        }
    }
}

/// Right after a frame boundary is committed at `now`, no frame is due at `now`, whatever the
/// target rate: checking again with the clock not advanced never fires. On a monotonic clock
/// (`now` not before the last tick) the last tick becomes `now`.
pub proof fn lemma_commit_then_not_due(t: TimerView, now: nat, rate: u32)
    ensures
        !t.commit(now).due(now, rate),
        now >= t.last_tick ==> t.commit(now).last_tick == now,
{
    assert(elapsed(t.commit(now).last_tick, now) == 0);
    assert(0 * (rate as nat) == 0);
}

} // verus!

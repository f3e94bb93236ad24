use vstd::prelude::*;
use crate::input::{KeyInput, Msg};

verus! {

/// The tick interval of the input scheduler, in milliseconds.
pub const TICK_MS: u64 = 10;

/// How long to wait for input before the next tick is due.
pub open spec fn wait_left(interval: u64, last: u64, now: u64) -> u64 {
    if now <= last {
        interval
    } else if now - last >= interval {
        0
    } else {
        (interval - (now - last)) as u64
    }
}

/// A tick is due once a whole interval has passed since the last one.
pub open spec fn tick_due(interval: u64, last: u64, now: u64) -> bool {
    now >= last && now - last >= interval
}

/// The events a wake-up produces: the key read, if any, then a tick when due.
pub open spec fn wake_events(key: Option<KeyInput>, due: bool) -> Seq<Msg> {
    let keys = match key {
        Some(k) => seq![Msg::Key(k)],
        Option::None => Seq::empty(),
    };
    if due {
        keys.push(Msg::Tick)
    } else {
        keys
    }
}

/// The decisions of the background task that merges key input and ticks
/// into one stream: how long to wait for input, and what to send on waking.
/// Times are milliseconds on a clock of the caller's choice.
pub struct Ticker {
    pub interval_ms: u64,
    pub last_tick_ms: u64,
}

impl Ticker {
    /// A scheduler whose interval starts at `now_ms`.
    pub fn new(interval_ms: u64, now_ms: u64) -> (t: Ticker)
        ensures
            t.interval_ms == interval_ms,
            t.last_tick_ms == now_ms,
    {
        Ticker { interval_ms, last_tick_ms: now_ms }
    }

    /// The longest wait for input at `now_ms` that does not delay the next tick.
    pub fn poll_timeout(&self, now_ms: u64) -> (r: u64)
        ensures
            r == wait_left(self.interval_ms, self.last_tick_ms, now_ms),
    {
        if now_ms <= self.last_tick_ms {
            self.interval_ms
        } else if now_ms - self.last_tick_ms >= self.interval_ms {
            0
        } else {
            self.interval_ms - (now_ms - self.last_tick_ms)
        }
    }

    /// Wakes at `now_ms`, with the key read while waiting if there was one;
    /// returns the events to send, in order. A tick restarts the interval.
    pub fn wake(&mut self, now_ms: u64, key: Option<KeyInput>) -> (out: Vec<Msg>)
        ensures
            out@ == wake_events(key, tick_due(old(self).interval_ms, old(self).last_tick_ms, now_ms)),
            final(self).interval_ms == old(self).interval_ms,
            tick_due(old(self).interval_ms, old(self).last_tick_ms, now_ms)
                ==> final(self).last_tick_ms == now_ms,
            !tick_due(old(self).interval_ms, old(self).last_tick_ms, now_ms)
                ==> final(self).last_tick_ms == old(self).last_tick_ms,
    {
        let mut out: Vec<Msg> = Vec::new();
        match key {
            Some(k) => out.push(Msg::Key(k)),
            Option::None => {},
        }
        let due = now_ms >= self.last_tick_ms && now_ms - self.last_tick_ms >= self.interval_ms;
        if due {
            out.push(Msg::Tick);
            self.last_tick_ms = now_ms;
        }
        proof {
            assert(out@ =~= wake_events(key, due));
        }
        out
    }
}

/// Waiting for the timeout that `poll_timeout` gives and waking without
/// input always yields a tick, and that wait never exceeds one interval:
/// with no key input a tick is sent at least once per interval.
pub proof fn lemma_tick_within_interval(interval: u64, last: u64, now: u64)
    requires
        now >= last,
        now + wait_left(interval, last, now) <= u64::MAX,
    ensures
        wait_left(interval, last, now) <= interval,
        tick_due(interval, last, (now + wait_left(interval, last, now)) as u64),
        wake_events(Option::None, tick_due(interval, last, (now + wait_left(interval, last, now)) as u64))
            == seq![Msg::Tick],
{
    assert(Seq::<Msg>::empty().push(Msg::Tick) =~= seq![Msg::Tick]);
}

/// A key read on waking is sent before the tick of the same wake-up.
pub proof fn lemma_key_before_tick(k: KeyInput)
    ensures
        wake_events(Some(k), true) == seq![Msg::Key(k), Msg::Tick],
{
    assert(seq![Msg::Key(k)].push(Msg::Tick) =~= seq![Msg::Key(k), Msg::Tick]);
}

} // verus!

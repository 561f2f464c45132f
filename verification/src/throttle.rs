//! Rate limiting of slider commands: while a slider is dragged, a value goes
//! out at once when the last one went out at least an interval ago; otherwise
//! one delayed send is scheduled, and it carries whatever value is latest when
//! it fires. The timer itself is the caller's: this module decides, the caller
//! schedules and reports back.
use vstd::prelude::*;

verus! {

/// The throttling state of one slider.
#[derive(Debug, Clone, Copy, PartialEq, Eq, Structural)]
pub struct CommandThrottle {
    /// The shortest time between two sends, in milliseconds.
    pub interval_ms: u64,
    /// When the last value went out, on a monotonic clock in milliseconds;
    /// `None` before the first.
    pub last_sent_ms: Option<u64>,
    /// Whether a delayed send is scheduled.
    pub pending: bool,
    /// The latest value the slider reported.
    pub pending_value: u32,
}

/// What the caller does after the slider reported a value.
#[derive(Debug, Clone, Copy, PartialEq, Eq, Structural)]
pub enum ThrottleStep {
    /// Send this value now.
    Send(u32),
    /// Fire the timer after this many milliseconds.
    Schedule(u64),
    /// A delayed send is already scheduled; it will carry the new value.
    Wait,
}

/// Whether a send may go out at `now_ms`: none went out yet, or the last one
/// went out at least an interval ago (an earlier clock reading counts as no
/// time passed).
pub open spec fn interval_passed(t: CommandThrottle, now_ms: u64) -> bool {
    match t.last_sent_ms {
        None => true,
        Some(last) => now_ms >= last && now_ms - last >= t.interval_ms,
    }
}

/// How long until a send may go out.
pub open spec fn remaining_ms(t: CommandThrottle, now_ms: u64) -> u64 {
    match t.last_sent_ms {
        None => 0,
        Some(last) => if now_ms < last {
            t.interval_ms
        } else if now_ms - last >= t.interval_ms {
            0
        } else {
            (t.interval_ms - (now_ms - last)) as u64
        },
    }
}

/// The state and the step after the slider reported `value` at `now_ms`.
pub open spec fn change_step(t: CommandThrottle, value: u32, now_ms: u64) -> (CommandThrottle, ThrottleStep) {
    if interval_passed(t, now_ms) {
        (
            CommandThrottle {
                last_sent_ms: Some(now_ms),
                pending: false,
                pending_value: value,
                ..t
            },
            ThrottleStep::Send(value),
        )
    } else if t.pending {
        (CommandThrottle { pending_value: value, ..t }, ThrottleStep::Wait)
    } else {
        (
            CommandThrottle { pending: true, pending_value: value, ..t },
            ThrottleStep::Schedule(remaining_ms(t, now_ms)),
        )
    }
}

/// The state and the value to send when the timer fires at `now_ms`.
pub open spec fn timer_step(t: CommandThrottle, now_ms: u64) -> (CommandThrottle, Option<u32>) {
    if t.pending {
        (
            CommandThrottle { last_sent_ms: Some(now_ms), pending: false, ..t },
            Some(t.pending_value),
        )
    } else {
        (t, None)
    }
}

impl CommandThrottle {
    /// A throttle that has sent nothing yet.
    pub fn new(interval_ms: u64) -> (t: Self)
        ensures
            t.interval_ms == interval_ms,
            t.last_sent_ms is None,
            !t.pending,
            t.pending_value == 0,
    {
        CommandThrottle { interval_ms, last_sent_ms: None, pending: false, pending_value: 0 }
    }

    /// The slider reported `value` at `now_ms`.
    pub fn on_change(&mut self, value: u32, now_ms: u64) -> (step: ThrottleStep)
        ensures
            (*final(self), step) == change_step(*old(self), value, now_ms),
    {
        self.pending_value = value;
        let passed = match self.last_sent_ms {
            None => true,
            Some(last) => now_ms >= last && now_ms - last >= self.interval_ms,
        };
        if passed {
            self.pending = false;
            self.last_sent_ms = Some(now_ms);
            return ThrottleStep::Send(value);
        }
        if self.pending {
            return ThrottleStep::Wait;
        }
        self.pending = true;
        let delay = match self.last_sent_ms {
            None => 0,
            Some(last) => if now_ms < last {
                self.interval_ms
            } else {
                self.interval_ms - (now_ms - last)
            },
        };
        ThrottleStep::Schedule(delay)
    }

    /// The scheduled timer fired at `now_ms`; gives the value to send, if any.
    pub fn on_timer(&mut self, now_ms: u64) -> (sent: Option<u32>)
        ensures
            (*final(self), sent) == timer_step(*old(self), now_ms),
    {
        if !self.pending {
            return None;
        }
        self.pending = false;
        self.last_sent_ms = Some(now_ms);
        Some(self.pending_value)
    }
}

/// No value is lost: after the slider reports a value, either it goes out at
/// once or a delayed send is scheduled that will carry it.
pub proof fn law_latest_value_kept(t: CommandThrottle, value: u32, now_ms: u64)
    ensures
        change_step(t, value, now_ms).1 == ThrottleStep::Send(value) || (change_step(
            t,
            value,
            now_ms,
        ).0.pending && change_step(t, value, now_ms).0.pending_value == value),
        change_step(t, value, now_ms).0.pending ==> timer_step(
            change_step(t, value, now_ms).0,
            now_ms,
        ).1 == Some(value),
{
}

/// A send goes out at once only when the interval since the previous send has
/// passed; within it the slider schedules at most one delayed send.
pub proof fn law_no_send_within_interval(t: CommandThrottle, value: u32, now_ms: u64)
    ensures
        (change_step(t, value, now_ms).1 is Send) == interval_passed(t, now_ms),
        !interval_passed(t, now_ms) && t.pending ==> change_step(t, value, now_ms).1 == ThrottleStep::Wait,
{
}

/// A fired timer sends exactly once: a second firing without a new value
/// sends nothing.
pub proof fn law_timer_sends_once(t: CommandThrottle, first_ms: u64, second_ms: u64)
    ensures
        timer_step(timer_step(t, first_ms).0, second_ms).1 is None,
{
}

} // verus!

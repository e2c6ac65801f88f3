//! A countdown with a one-shot expiry edge.
//!
//! Instants are readings of a monotonic clock in milliseconds; durations are
//! whole seconds.

use crate::label::{clock_label, format_clock};
use vstd::prelude::*;

verus! {

/// What a timer holds: the instant at which it ends, if one is set, and
/// whether an expiry has been seen by `tick` and not yet read.
pub struct TimerView {
    pub deadline: Option<u64>,
    pub edge: bool,
}

/// The instant `seconds` after `now`; the clock's last instant where that
/// lies beyond it.
pub open spec fn deadline_after(now: u64, seconds: u64) -> u64 {
    if now + 1000 * seconds <= u64::MAX {
        (now + 1000 * seconds) as u64
    } else {
        u64::MAX
    }
}

/// Whole seconds from `now` until `deadline`; zero once it has passed.
pub open spec fn seconds_left(deadline: u64, now: u64) -> nat {
    if now < deadline {
        ((deadline - now) / 1000) as nat
    } else {
        0
    }
}

pub open spec fn started(t: TimerView, now: u64, seconds: u64) -> TimerView {
    TimerView { deadline: Some(deadline_after(now, seconds)), ..t }
}

pub open spec fn cancelled(t: TimerView) -> TimerView {
    TimerView { deadline: None, ..t }
}

/// A tick expires the timer once `now` lies strictly past its deadline.
pub open spec fn ticked(t: TimerView, now: u64) -> TimerView {
    match t.deadline {
        Some(d) if now > d => TimerView { deadline: None, edge: true },
        _ => t,
    }
}

/// Reading the edge clears it.
pub open spec fn edge_read(t: TimerView) -> TimerView {
    TimerView { edge: false, ..t }
}

/// The label shown for the time left, when a deadline is set.
pub open spec fn remaining_label(t: TimerView, now: u64) -> Option<Seq<char>> {
    match t.deadline {
        Some(d) => Some(clock_label(seconds_left(d, now))),
        None => None,
    }
}

/// Once a tick has seen the deadline pass, the edge reads true on the first
/// read and false on the next, with no tick between them.
pub proof fn lemma_edge_reads_once(t: TimerView, now: u64)
    requires
        t.deadline matches Some(d) && now > d,
    ensures
        ticked(t, now).edge,
        ticked(t, now).deadline is None,
        !edge_read(ticked(t, now)).edge,
{
}

pub struct Timer {
    ending_time: Option<u64>,
    just_completed: bool,
}

impl View for Timer {
    type V = TimerView;

    closed spec fn view(&self) -> TimerView {
        TimerView { deadline: self.ending_time, edge: self.just_completed }
    }
}

impl Default for Timer {
    fn default() -> (r: Self)
        ensures
            r@ == (TimerView { deadline: None, edge: false }),
    {
        Self::new()
    }
}

impl Timer {
    /// A timer with no deadline and no pending edge.
    pub fn new() -> (r: Self)
        ensures
            r@ == (TimerView { deadline: None, edge: false }),
    {
        Timer { ending_time: None, just_completed: false }
    }

    /// Sets the deadline `seconds` after `now`, replacing any earlier one.
    pub fn start(&mut self, now: u64, seconds: u64)
        ensures
            final(self)@ == started(old(self)@, now, seconds),
    {
        let end = match seconds.checked_mul(1000) {
            Some(ms) => now.saturating_add(ms),
            None => u64::MAX,
        };
        self.ending_time = Some(end);
    }

    /// The time left at `now` as `MM:SS` or `HH:MM:SS`, or nothing when no
    /// deadline is set.
    pub fn get_formatted_time(&self, now: u64) -> (r: Option<String>)
        ensures
            r matches Some(s) ==> remaining_label(self@, now) == Some(s@),
            r is None ==> remaining_label(self@, now) is None,
    {
        match self.ending_time {
            Some(end) => {
                let seconds = end.saturating_sub(now) / 1000;
                Some(format_clock(seconds))
            },
            None => None,
        }
    }

    pub fn is_started(&self) -> (r: bool)
        ensures
            r == self@.deadline is Some,
    {
        self.ending_time.is_some()
    }

    /// Whether the timer expired since this was last asked; asking clears it.
    pub fn timer_just_ended(&mut self) -> (r: bool)
        ensures
            r == old(self)@.edge,
            final(self)@ == edge_read(old(self)@),
    {
        let result = self.just_completed;
        self.just_completed = false;
        result
    }

    /// Clears the deadline; a pending edge stays as it is.
    pub fn cancel(&mut self)
        ensures
            final(self)@ == cancelled(old(self)@),
    {
        self.ending_time = None;
    }

    /// Expires the timer when `now` lies past its deadline.
    pub fn tick(&mut self, now: u64)
        ensures
            final(self)@ == ticked(old(self)@, now),
    {
        if let Some(end) = self.ending_time {
            if now > end {
                self.ending_time = None;
                self.just_completed = true;
            }
        }
    }
}

} // verus!

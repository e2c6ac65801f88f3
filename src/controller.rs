//! Drives the grant and the countdown together from the events of the
//! applet: a toggle, a chosen duration, a periodic tick, shutdown.
//!
//! The controller is idle when it holds no grant, bounded when a deadline is
//! set, and unbounded when it holds a grant with no deadline. A deadline is
//! only ever set while a grant is held.

use crate::caffeine::{acquired, release_requested, released, Caffeine};
use crate::service::{InhibitError, ScreenSaver};
use crate::timer::{cancelled, edge_read, started, ticked, Timer, TimerView};
use vstd::prelude::*;

verus! {

/// An event handed to the controller.
#[derive(Clone, Copy, Debug, PartialEq, Eq, Structural)]
pub enum Event {
    /// Stay awake with no deadline, or stop staying awake.
    Toggle(bool),
    /// Stay awake for this many seconds.
    Duration(u64),
    /// Periodic; may end a bounded session.
    Tick,
    /// The process is about to exit.
    Shutdown,
}

pub struct ControllerView {
    pub grant: Option<u32>,
    pub timer: TimerView,
}

/// No unread expiry, and a deadline only while a grant is held.
pub open spec fn well_formed(v: ControllerView) -> bool {
    &&& !v.timer.edge
    &&& v.timer.deadline is Some ==> v.grant is Some
}

/// A toggle clears the deadline, then acquires (on) or releases (off).
pub open spec fn toggled(
    before: ControllerView,
    service_before: ScreenSaver,
    on: bool,
    after: ControllerView,
    service_after: ScreenSaver,
    r: Result<(), InhibitError>,
) -> bool {
    &&& after.timer == cancelled(before.timer)
    &&& on ==> acquired(before.grant, service_before, after.grant, service_after, r)
    &&& !on ==> released(before.grant, service_before, after.grant, service_after, r)
}

/// A chosen duration sets the deadline and acquires; when the acquire fails
/// the deadline is cleared again.
pub open spec fn timer_set(
    before: ControllerView,
    service_before: ScreenSaver,
    now: u64,
    seconds: u64,
    after: ControllerView,
    service_after: ScreenSaver,
    r: Result<(), InhibitError>,
) -> bool {
    &&& acquired(before.grant, service_before, after.grant, service_after, r)
    &&& r is Ok ==> after.timer == started(before.timer, now, seconds)
    &&& r is Err ==> after.timer == cancelled(before.timer)
}

/// A tick advances the countdown and reads its edge; when it has just
/// expired, the grant is released.
pub open spec fn tick_handled(
    before: ControllerView,
    service_before: ScreenSaver,
    now: u64,
    after: ControllerView,
    service_after: ScreenSaver,
    r: Result<(), InhibitError>,
) -> bool {
    let t = ticked(before.timer, now);
    &&& after.timer == edge_read(t)
    &&& t.edge ==> released(before.grant, service_before, after.grant, service_after, r)
    &&& !t.edge ==> r is Ok && after.grant == before.grant && service_after == service_before
}

/// Shutdown asks the service to end the grant held, as `release_requested`
/// says, and changes nothing here.
pub open spec fn shut_down(
    before: ControllerView,
    service_before: ScreenSaver,
    after: ControllerView,
    service_after: ScreenSaver,
    r: Result<(), InhibitError>,
) -> bool {
    &&& after == before
    &&& release_requested(before.grant, service_before, service_after, r)
}

/// What handling `event` at `now` does.
pub open spec fn handled(
    before: ControllerView,
    service_before: ScreenSaver,
    event: Event,
    now: u64,
    after: ControllerView,
    service_after: ScreenSaver,
    r: Result<(), InhibitError>,
) -> bool {
    match event {
        Event::Toggle(on) => toggled(before, service_before, on, after, service_after, r),
        Event::Duration(seconds) => timer_set(
            before,
            service_before,
            now,
            seconds,
            after,
            service_after,
            r,
        ),
        Event::Tick => tick_handled(before, service_before, now, after, service_after, r),
        Event::Shutdown => shut_down(before, service_before, after, service_after, r),
    }
}

/// Toggling on without a duration leaves no deadline, whatever was running
/// before, so no later tick releases the grant or sends anything to the
/// service.
pub proof fn lemma_unbounded_has_no_expiry(
    before: ControllerView,
    s0: ScreenSaver,
    after: ControllerView,
    s1: ScreenSaver,
    r: Result<(), InhibitError>,
    now: u64,
    next: ControllerView,
    s2: ScreenSaver,
    r2: Result<(), InhibitError>,
)
    requires
        well_formed(before),
        toggled(before, s0, true, after, s1, r),
        tick_handled(after, s1, now, next, s2, r2),
    ensures
        after.timer.deadline is None,
        next.grant == after.grant,
        next.timer == after.timer,
        s2 == s1,
        r2 is Ok,
{
}

/// A duration of zero that was granted ends at the first tick after it
/// began: one `UnInhibit` goes out with the held cookie, the grant is
/// released, and the controller is idle again.
pub proof fn lemma_zero_duration_expires(
    before: ControllerView,
    s0: ScreenSaver,
    now: u64,
    after: ControllerView,
    s1: ScreenSaver,
    r: Result<(), InhibitError>,
    later: u64,
    next: ControllerView,
    s2: ScreenSaver,
    r2: Result<(), InhibitError>,
)
    requires
        well_formed(before),
        timer_set(before, s0, now, 0, after, s1, r),
        r is Ok,
        later > now,
        tick_handled(after, s1, later, next, s2, r2),
    ensures
        after.grant is Some,
        released(after.grant, s1, next.grant, s2, r2),
        s2.is_ready() ==> s2.releases_sent() == s1.releases_sent().push(
            (after.grant->Some_0, r2 is Ok),
        ),
        next.grant is None,
        next.timer.deadline is None,
        !next.timer.edge,
{
}

pub struct Controller {
    caffeine: Caffeine,
    timer: Timer,
}

impl View for Controller {
    type V = ControllerView;

    closed spec fn view(&self) -> ControllerView {
        ControllerView { grant: self.caffeine.grant(), timer: self.timer@ }
    }
}

impl Controller {
    /// Idle: no grant, no deadline.
    pub fn new() -> (r: Self)
        ensures
            well_formed(r@),
            r@.grant is None,
            r@.timer.deadline is None,
    {
        Controller { caffeine: Caffeine::new(), timer: Timer::new() }
    }

    pub fn is_caffeinated(&self) -> (r: bool)
        ensures
            r == self@.grant is Some,
    {
        self.caffeine.is_caffeinated()
    }

    pub fn is_started(&self) -> (r: bool)
        ensures
            r == self@.timer.deadline is Some,
    {
        self.timer.is_started()
    }

    /// The time left at `now` in a bounded session.
    pub fn remaining_label(&self, now: u64) -> (r: Option<String>)
        ensures
            r matches Some(s) ==> crate::timer::remaining_label(self@.timer, now) == Some(s@),
            r is None ==> crate::timer::remaining_label(self@.timer, now) is None,
    {
        self.timer.get_formatted_time(now)
    }

    pub fn toggle(&mut self, on: bool, service: &mut ScreenSaver) -> (r: Result<(), InhibitError>)
        requires
            well_formed(old(self)@),
        ensures
            well_formed(final(self)@),
            toggled(old(self)@, *old(service), on, final(self)@, *final(service), r),
    {
        self.timer.cancel();
        if on {
            self.caffeine.caffeinate(service)
        } else {
            self.caffeine.decaffeinate(service)
        }
    }

    pub fn set_timer(&mut self, now: u64, seconds: u64, service: &mut ScreenSaver) -> (r: Result<
        (),
        InhibitError,
    >)
        requires
            well_formed(old(self)@),
        ensures
            well_formed(final(self)@),
            timer_set(old(self)@, *old(service), now, seconds, final(self)@, *final(service), r),
    {
        self.timer.start(now, seconds);
        let r = self.caffeine.caffeinate(service);
        if r.is_err() {
            self.timer.cancel();
        }
        r
    }

    pub fn tick(&mut self, now: u64, service: &mut ScreenSaver) -> (r: Result<(), InhibitError>)
        requires
            well_formed(old(self)@),
        ensures
            well_formed(final(self)@),
            tick_handled(old(self)@, *old(service), now, final(self)@, *final(service), r),
    {
        self.timer.tick(now);
        if self.timer.timer_just_ended() {
            self.caffeine.decaffeinate(service)
        } else {
            Ok(())
        }
    }

    pub fn shutdown(&mut self, service: &mut ScreenSaver) -> (r: Result<(), InhibitError>)
        requires
            well_formed(old(self)@),
        ensures
            well_formed(final(self)@),
            shut_down(old(self)@, *old(service), final(self)@, *final(service), r),
    {
        self.caffeine.cleanup(service)
    }

    /// Handles one event at the clock reading `now`.
    pub fn handle(&mut self, event: Event, now: u64, service: &mut ScreenSaver) -> (r: Result<
        (),
        InhibitError,
    >)
        requires
            well_formed(old(self)@),
        ensures
            well_formed(final(self)@),
            handled(old(self)@, *old(service), event, now, final(self)@, *final(service), r),
    {
        match event {
            Event::Toggle(on) => self.toggle(on, service),
            Event::Duration(seconds) => self.set_timer(now, seconds, service),
            Event::Tick => self.tick(now, service),
            Event::Shutdown => self.shutdown(service),
        }
    }
}

} // verus!

//! The one idle-inhibit grant that this application may hold.

use crate::service::{served, InhibitError, ScreenSaver};
use vstd::prelude::*;

verus! {

/// The name under which inhibitions are requested.
pub const APPLICATION_NAME: &'static str = "cosmic-ext-applet-caffeine";

/// The reason given with each inhibition.
pub const INHIBIT_REASON: &'static str = "Inhibited via cosmic-ext-applet-caffeine";

/// What an acquire does, from the grant held and the service handle before
/// to those after. Holding a grant, it sends nothing, changes nothing and
/// succeeds. Else, once the connection is open, it sends one `Inhibit` with
/// this application's name and reason, and the grant held afterwards is the
/// cookie that came back, if any. It succeeds exactly when a grant is then
/// held, and fails with `ServiceUnavailable` exactly when the service cannot
/// be reached, in which case it sends nothing.
pub open spec fn acquired(
    before: Option<u32>,
    service_before: ScreenSaver,
    after: Option<u32>,
    service_after: ScreenSaver,
    r: Result<(), InhibitError>,
) -> bool {
    if before is Some {
        r is Ok && after == before && service_after == service_before
    } else {
        &&& served(service_before, service_after)
        &&& r is Ok <==> after is Some
        &&& r == Err::<(), InhibitError>(InhibitError::ServiceUnavailable)
            <==> service_after.is_failed()
        &&& service_after.releases_sent() == service_before.releases_sent()
        &&& service_after.is_ready() ==> service_after.inhibits_sent()
            == service_before.inhibits_sent().push((APPLICATION_NAME@, INHIBIT_REASON@, after))
        &&& !service_after.is_ready() ==> service_after.inhibits_sent()
            == service_before.inhibits_sent()
    }
}

/// What asking the service to end the grant `held` does to the handle, and
/// what it returns. With no grant, it sends nothing and succeeds. Else,
/// once the connection is open, it sends one `UnInhibit` with the held
/// cookie and succeeds exactly when that call did; it fails with
/// `ServiceUnavailable` exactly when the service cannot be reached, in which
/// case it sends nothing.
pub open spec fn release_requested(
    held: Option<u32>,
    service_before: ScreenSaver,
    service_after: ScreenSaver,
    r: Result<(), InhibitError>,
) -> bool {
    match held {
        None => r is Ok && service_after == service_before,
        Some(cookie) => {
            &&& served(service_before, service_after)
            &&& r == Err::<(), InhibitError>(InhibitError::ServiceUnavailable)
                <==> service_after.is_failed()
            &&& service_after.inhibits_sent() == service_before.inhibits_sent()
            &&& service_after.is_ready() ==> service_after.releases_sent()
                == service_before.releases_sent().push((cookie, r is Ok))
            &&& !service_after.is_ready() ==> service_after.releases_sent()
                == service_before.releases_sent()
        },
    }
}

/// What a release does: it asks the service to end the grant held, as
/// `release_requested` says, and afterwards no grant is held, whatever the
/// service answered.
pub open spec fn released(
    before: Option<u32>,
    service_before: ScreenSaver,
    after: Option<u32>,
    service_after: ScreenSaver,
    r: Result<(), InhibitError>,
) -> bool {
    &&& after is None
    &&& release_requested(before, service_before, service_after, r)
}

/// An acquire from no grant that succeeded, then a release: the `UnInhibit`
/// goes out with the very cookie that the `Inhibit` brought back.
pub proof fn lemma_release_returns_granted_cookie(
    s0: ScreenSaver,
    g1: Option<u32>,
    s1: ScreenSaver,
    r1: Result<(), InhibitError>,
    g2: Option<u32>,
    s2: ScreenSaver,
    r2: Result<(), InhibitError>,
)
    requires
        acquired(None, s0, g1, s1, r1),
        r1 is Ok,
        released(g1, s1, g2, s2, r2),
    ensures
        s1.is_ready(),
        s2.is_ready(),
        g1 is Some,
        g2 is None,
        s1.inhibits_sent().len() > 0,
        s1.inhibits_sent().last() == (APPLICATION_NAME@, INHIBIT_REASON@, g1),
        s2.releases_sent() == s1.releases_sent().push((g1->Some_0, r2 is Ok)),
        s2.inhibits_sent() == s1.inhibits_sent(),
{
    s0.lemma_one_state();
    s1.lemma_one_state();
    s2.lemma_one_state();
}

/// Acquiring twice in a row: once the first has succeeded, the second asks
/// the service nothing, keeps the same single grant, and succeeds.
pub proof fn lemma_acquire_idempotent(
    g0: Option<u32>,
    s0: ScreenSaver,
    g1: Option<u32>,
    s1: ScreenSaver,
    r1: Result<(), InhibitError>,
    g2: Option<u32>,
    s2: ScreenSaver,
    r2: Result<(), InhibitError>,
)
    requires
        acquired(g0, s0, g1, s1, r1),
        acquired(g1, s1, g2, s2, r2),
        r1 is Ok,
    ensures
        r2 is Ok,
        g2 == g1,
        s2 == s1,
{
}

/// A service that could not be reached stays so: after a first acquire
/// failed with `ServiceUnavailable`, no grant is held, and a second acquire
/// fails the same way, without trying to connect again and without sending
/// anything.
pub proof fn lemma_unavailable_is_sticky(
    s0: ScreenSaver,
    g1: Option<u32>,
    s1: ScreenSaver,
    r1: Result<(), InhibitError>,
    g2: Option<u32>,
    s2: ScreenSaver,
    r2: Result<(), InhibitError>,
)
    requires
        acquired(None, s0, g1, s1, r1),
        acquired(g1, s1, g2, s2, r2),
        r1 == Err::<(), InhibitError>(InhibitError::ServiceUnavailable),
    ensures
        g1 is None,
        g2 is None,
        s2.same_link(&s1),
        s2.is_failed(),
        s2.inhibits_sent() == s1.inhibits_sent(),
        s2.releases_sent() == s1.releases_sent(),
        r2 == r1,
{
    s1.lemma_one_state();
}

/// Keeps the screen awake by inhibiting `org.freedesktop.ScreenSaver`.
#[derive(Clone)]
pub struct Caffeine {
    cookie: Option<u32>,
}

impl Default for Caffeine {
    fn default() -> (r: Self)
        ensures
            r.grant() is None,
    {
        Caffeine::new()
    }
}

impl Caffeine {
    /// The cookie of the grant held, if any.
    pub closed spec fn grant(&self) -> Option<u32> {
        self.cookie
    }

    /// Holding no grant.
    pub fn new() -> (r: Self)
        ensures
            r.grant() is None,
    {
        Caffeine { cookie: None }
    }

    pub fn is_caffeinated(&self) -> (r: bool)
        ensures
            r == self.grant() is Some,
    {
        self.cookie.is_some()
    }

    /// Records the outcome of an inhibit request: a cookie becomes the grant
    /// held; an error leaves everything as it was and is passed on.
    pub fn accept_grant(&mut self, outcome: Result<u32, InhibitError>) -> (r: Result<
        (),
        InhibitError,
    >)
        ensures
            outcome matches Ok(c) ==> r is Ok && final(self).grant() == Some(c),
            outcome matches Err(e) ==> r == Err::<(), InhibitError>(e) && *final(self) == *old(
                self,
            ),
    {
        match outcome {
            Ok(cookie) => {
                self.cookie = Some(cookie);
                Ok(())
            },
            Err(e) => Err(e),
        }
    }

    /// Records the outcome of a release request. The grant is dropped
    /// whatever the service answered: a cookie it would not take back is of
    /// no further use.
    pub fn settle_release(&mut self, outcome: Result<(), InhibitError>) -> (r: Result<
        (),
        InhibitError,
    >)
        ensures
            r == outcome,
            final(self).grant() is None,
    {
        self.cookie = None;
        outcome
    }

    /// Takes a grant from the service unless one is held already, in which
    /// case nothing is asked and nothing changes.
    pub fn caffeinate(&mut self, service: &mut ScreenSaver) -> (r: Result<(), InhibitError>)
        ensures
            acquired(old(self).grant(), *old(service), final(self).grant(), *final(service), r),
    {
        if self.cookie.is_some() {
            return Ok(());
        }
        let outcome = service.inhibit(APPLICATION_NAME, INHIBIT_REASON);
        self.accept_grant(outcome)
    }

    /// Gives the grant back, if one is held. Afterwards none is held, even
    /// when the service failed the request.
    pub fn decaffeinate(&mut self, service: &mut ScreenSaver) -> (r: Result<(), InhibitError>)
        ensures
            released(old(self).grant(), *old(service), final(self).grant(), *final(service), r),
    {
        match self.cookie {
            Some(cookie) => {
                let outcome = service.un_inhibit(cookie);
                self.settle_release(outcome)
            },
            None => Ok(()),
        }
    }

    /// At shutdown: asks the service to end the grant held, if any, and
    /// keeps the local record as it is.
    pub fn cleanup(&mut self, service: &mut ScreenSaver) -> (r: Result<(), InhibitError>)
        ensures
            *final(self) == *old(self),
            release_requested(old(self).grant(), *old(service), *final(service), r),
    {
        match self.cookie {
            Some(cookie) => service.un_inhibit(cookie),
            None => Ok(()),
        }
    }
}

} // verus!

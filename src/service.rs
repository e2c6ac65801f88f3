//! The session's `org.freedesktop.ScreenSaver` service, reached over D-Bus.
//!
//! The connection is opened on first use. Its outcome is kept: a connection
//! that could not be opened is never tried again, and every later request
//! fails at once with `InhibitError::ServiceUnavailable`.

use vstd::prelude::*;

verus! {

/// zbus's blocking connection, carried through unopened.
#[verifier::external_type_specification]
#[verifier::external_body]
pub struct ExConnection(zbus::blocking::Connection);

/// zbus's error, only ever mapped to an `InhibitError`.
#[verifier::external_type_specification]
#[verifier::external_body]
pub struct ExError(zbus::Error);

const SERVICE: &'static str = "org.freedesktop.ScreenSaver";

const OBJECT_PATH: &'static str = "/ScreenSaver";

/// Why a request to the idle-inhibit service failed.
#[derive(Clone, Copy, Debug, PartialEq, Eq, Structural)]
pub enum InhibitError {
    /// The service could not be reached; this lasts for the process.
    ServiceUnavailable,
    /// The connection is open, and the call on it failed or was refused.
    InhibitionDenied,
}

/// Relies on `zbus::blocking::Connection::session`: opens a connection to
/// the session bus, or fails.
#[verifier::external_body]
fn open_session() -> (r: Result<zbus::blocking::Connection, zbus::Error>) {
    zbus::blocking::Connection::session()
}

/// Relies on `zbus::blocking::Connection::call_method` and
/// `zbus::message::Body::deserialize`: calls `Inhibit(s, s) -> u` and reads
/// the cookie from the reply.
#[verifier::external_body]
fn call_inhibit(conn: &zbus::blocking::Connection, application: &str, reason: &str) -> (r: Result<
    u32,
    zbus::Error,
>) {
    let reply = conn.call_method(
        Some(SERVICE),
        OBJECT_PATH,
        Some(SERVICE),
        "Inhibit",
        &(application, reason),
    )?;
    reply.body().deserialize::<u32>()
}

/// Relies on `zbus::blocking::Connection::call_method` and
/// `zbus::message::Body::deserialize`: calls `UnInhibit(u)` with the cookie of
/// an earlier `Inhibit`, and checks that the reply is empty.
#[verifier::external_body]
fn call_un_inhibit(conn: &zbus::blocking::Connection, cookie: u32) -> (r: Result<(), zbus::Error>) {
    let reply = conn.call_method(Some(SERVICE), OBJECT_PATH, Some(SERVICE), "UnInhibit", &cookie)?;
    reply.body().deserialize::<()>()
}

enum Link {
    Pending,
    Ready(zbus::blocking::Connection),
    Failed,
}

/// One `Inhibit` request that went out: the application name, the reason,
/// and the cookie that came back, if the call succeeded.
pub type InhibitSent = (Seq<char>, Seq<char>, Option<u32>);

/// One `UnInhibit` request that went out: the cookie, and whether the call
/// succeeded.
pub type ReleaseSent = (u32, bool);

/// The cookie that an inhibit result carries, if any.
pub open spec fn granted(r: Result<u32, InhibitError>) -> Option<u32> {
    match r {
        Ok(cookie) => Some(cookie),
        Err(_) => None,
    }
}

/// The cookie in the service's reply to an `Inhibit`, if the call succeeded.
spec fn reply_cookie(reply: Result<u32, zbus::Error>) -> Option<u32> {
    match reply {
        Ok(cookie) => Some(cookie),
        Err(_) => None,
    }
}

/// A handle on the idle-inhibit service, connected lazily. It keeps a
/// record of the requests it has sent over the connection and of their
/// outcomes.
pub struct ScreenSaver {
    link: Link,
    inhibits: Ghost<Seq<InhibitSent>>,
    releases: Ghost<Seq<ReleaseSent>>,
}

impl ScreenSaver {
    /// No connection has been tried yet.
    pub closed spec fn is_pending(&self) -> bool {
        self.link is Pending
    }

    /// The connection was opened and is kept for reuse.
    pub closed spec fn is_ready(&self) -> bool {
        self.link is Ready
    }

    /// The connection could not be opened; it is not tried again.
    pub closed spec fn is_failed(&self) -> bool {
        self.link is Failed
    }

    /// Both handles are on the same connection, or in the same state
    /// without one.
    pub closed spec fn same_link(&self, other: &ScreenSaver) -> bool {
        self.link == other.link
    }

    /// The `Inhibit` requests sent so far, oldest first.
    pub closed spec fn inhibits_sent(&self) -> Seq<InhibitSent> {
        self.inhibits@
    }

    /// The `UnInhibit` requests sent so far, oldest first.
    pub closed spec fn releases_sent(&self) -> Seq<ReleaseSent> {
        self.releases@
    }

    pub proof fn lemma_one_state(&self)
        ensures
            self.is_pending() || self.is_ready() || self.is_failed(),
            !(self.is_pending() && self.is_ready()),
            !(self.is_pending() && self.is_failed()),
            !(self.is_ready() && self.is_failed()),
    {
    }

    /// A handle that connects on its first request, and has sent nothing.
    pub fn new() -> (r: Self)
        ensures
            r.is_pending(),
            r.inhibits_sent() == Seq::<InhibitSent>::empty(),
            r.releases_sent() == Seq::<ReleaseSent>::empty(),
    {
        ScreenSaver { link: Link::Pending, inhibits: Ghost(Seq::empty()), releases: Ghost(Seq::empty()) }
    }

    /// Opens the connection if none was tried; says whether one is open.
    /// Once tried, the outcome never changes.
    fn connect(&mut self) -> (ok: bool)
        ensures
            old(self).is_pending() ==> !final(self).is_pending(),
            !old(self).is_pending() ==> *final(self) == *old(self),
            final(self).inhibits_sent() == old(self).inhibits_sent(),
            final(self).releases_sent() == old(self).releases_sent(),
            ok == final(self).is_ready(),
    {
        if let Link::Pending = self.link {
            self.link = match open_session() {
                Ok(conn) => Link::Ready(conn),
                Err(_) => Link::Failed,
            };
        }
        match self.link {
            Link::Ready(_) => true,
            _ => false,
        }
    }

    /// Asks the service to inhibit idleness on behalf of `application`, and
    /// returns the cookie that ends it. The request goes out, and is
    /// recorded, exactly when the connection is open; a failed call comes
    /// back as `InhibitionDenied`.
    pub fn inhibit(&mut self, application: &str, reason: &str) -> (r: Result<u32, InhibitError>)
        ensures
            served(*old(self), *final(self)),
            r == Err::<u32, InhibitError>(InhibitError::ServiceUnavailable) <==> final(self).is_failed(),
            final(self).releases_sent() == old(self).releases_sent(),
            final(self).is_ready() ==> final(self).inhibits_sent() == old(self).inhibits_sent().push(
                (application@, reason@, granted(r)),
            ),
            !final(self).is_ready() ==> final(self).inhibits_sent() == old(self).inhibits_sent(),
    {
        if !self.connect() {
            return Err(InhibitError::ServiceUnavailable);
        }
        match &self.link {
            Link::Ready(conn) => {
                let reply = call_inhibit(conn, application, reason);
                self.inhibits = Ghost(self.inhibits@.push((application@, reason@, reply_cookie(reply))));
                match reply {
                    Ok(cookie) => Ok(cookie),
                    Err(_) => Err(InhibitError::InhibitionDenied),
                }
            },
            _ => Err(InhibitError::ServiceUnavailable),
        }
    }

    /// Asks the service to end the inhibition that `cookie` stands for. The
    /// request goes out, and is recorded, exactly when the connection is
    /// open; a failed call comes back as `InhibitionDenied`.
    pub fn un_inhibit(&mut self, cookie: u32) -> (r: Result<(), InhibitError>)
        ensures
            served(*old(self), *final(self)),
            r == Err::<(), InhibitError>(InhibitError::ServiceUnavailable) <==> final(self).is_failed(),
            final(self).inhibits_sent() == old(self).inhibits_sent(),
            final(self).is_ready() ==> final(self).releases_sent() == old(self).releases_sent().push(
                (cookie, r is Ok),
            ),
            !final(self).is_ready() ==> final(self).releases_sent() == old(self).releases_sent(),
    {
        if !self.connect() {
            return Err(InhibitError::ServiceUnavailable);
        }
        match &self.link {
            Link::Ready(conn) => {
                let reply = call_un_inhibit(conn, cookie);
                self.releases = Ghost(self.releases@.push((cookie, reply is Ok)));
                match reply {
                    Ok(()) => Ok(()),
                    Err(_) => Err(InhibitError::InhibitionDenied),
                }
            },
            _ => Err(InhibitError::ServiceUnavailable),
        }
    }
}

/// How a request may change a handle's connection: a pending one connects
/// or fails, any other stays as it was.
pub open spec fn served(before: ScreenSaver, after: ScreenSaver) -> bool {
    &&& before.is_pending() ==> !after.is_pending()
    &&& !before.is_pending() ==> {
        &&& after.same_link(&before)
        &&& after.is_ready() == before.is_ready()
        &&& after.is_failed() == before.is_failed()
    }
}

} // verus!

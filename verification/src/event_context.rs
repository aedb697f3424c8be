use std::sync::Arc;
use std::sync::Mutex;
use vstd::prelude::*;

use crate::screen::Screen;
use crate::screen::TagID;

verus! {

/// The mutual-exclusion primitive guarding the shared session object,
/// opaque here: what it guards is only reached through the trusted
/// `lock_and_read_focused_tag` below.
#[verifier::external_type_specification]
#[verifier::external_body]
#[verifier::reject_recursive_types(T)]
pub struct ExMutex<T: ?Sized>(Mutex<T>);

/// Failure to read the shared session state: its lock was poisoned by a
/// prior holder that terminated abnormally while holding it. Construction
/// of a context propagates this rather than proceeding on possibly
/// inconsistent session state.
#[derive(Clone, Copy, PartialEq, Eq, Debug, Structural)]
pub enum LockError {
    Poisoned,
}

/// Relies on std::sync::Mutex::lock: acquires the Screen lock, reads the
/// focused tag id, and releases the lock before returning; when the lock
/// is poisoned it returns an error instead. The value read depends on
/// concurrent mutators of the Screen, so nothing is promised of it.
#[verifier::external_body]
fn lock_and_read_focused_tag(screen: &Arc<Mutex<Screen>>) -> (r: Result<TagID, LockError>) {
    match screen.lock() {
        Ok(guard) => Ok(guard.focused_tag_id()),
        Err(_) => Err(LockError::Poisoned),
    }
}

/// Per-event façade: shared, reference-counted access to the protocol
/// transport handle `C` and to the mutually exclusive session object,
/// plus a snapshot of the focused tag id taken at construction time.
///
/// The transport type is a parameter so that the context is independent
/// of any particular connection; it is only stored and shared, never
/// read here.
#[derive(Clone)]
pub struct EventContext<C> {
    /// Shared handle to the protocol transport.
    pub conn: Arc<C>,

    /// Shared, mutually exclusive handle to the session object.
    pub screen: Arc<Mutex<Screen>>,

    curr_tag_id: TagID,
}

impl<C> EventContext<C> {
    /// The transport handle this context shares.
    pub closed spec fn conn_spec(&self) -> Arc<C> {
        self.conn
    }

    /// The session handle this context shares.
    pub closed spec fn screen_spec(&self) -> Arc<Mutex<Screen>> {
        self.screen
    }

    /// The snapshot of the focused tag id held by this context.
    pub closed spec fn curr_tag_id_spec(&self) -> TagID {
        self.curr_tag_id
    }

    /// A context holding the given snapshot. The snapshot is stored as an
    /// immutable plain value: nothing this context offers re-reads the
    /// Screen, so later Screen mutations cannot change it.
    pub fn from_snapshot(conn: Arc<C>, screen: Arc<Mutex<Screen>>, curr_tag_id: TagID) -> (r: Self)
        ensures
            r.conn_spec() == conn,
            r.screen_spec() == screen,
            r.curr_tag_id_spec() == curr_tag_id,
    {
        EventContext { conn, screen, curr_tag_id }
    }

    /// Acquires the Screen lock exactly once, snapshots the currently
    /// focused tag id, releases the lock, and stores the snapshot next to
    /// the shared handles. Fails with `LockError::Poisoned` instead of
    /// proceeding on session state a prior holder abandoned mid-mutation.
    pub fn new(conn: Arc<C>, screen: Arc<Mutex<Screen>>) -> (r: Result<Self, LockError>)
        ensures
            r matches Ok(c) ==> c.conn_spec() == conn && c.screen_spec() == screen,
            r matches Err(e) ==> e == LockError::Poisoned,
    {
        match lock_and_read_focused_tag(&screen) {
            Ok(tag) => Ok(Self::from_snapshot(conn, screen, tag)),
            Err(e) => Err(e),
        }
    }

    /// The stored snapshot of the focused tag id. Never re-reads the
    /// Screen: a new context must be constructed to observe a change.
    pub fn curr_tag_id(&self) -> (r: TagID)
        ensures
            r == self.curr_tag_id_spec(),
    {
        self.curr_tag_id
    }
}

} // verus!

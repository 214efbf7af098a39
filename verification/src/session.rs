//! Session handles.

use crate::failure::Failure;
use crate::launch::{Launch, Opening};
use crate::opts::LaunchOpts;
use crate::registry::Registry;
use vstd::prelude::*;

verus! {

/// What resolving `id` among `sessions` gives: the session registered
/// under it, or `NotConnected` where there is none.
pub open spec fn resolved<S>(sessions: Map<usize, S>, id: usize) -> Result<S, Failure> {
    if sessions.contains_key(id) {
        Ok(sessions[id])
    } else {
        Err(Failure::NotConnected { id })
    }
}

/// The object that `id` names among `sessions`, or `NotConnected` where no
/// session is registered under it.
pub fn get_session_channel<S>(sessions: &Registry<S>, id: usize) -> (found: Result<&S, Failure>)
    ensures
        match found {
            Ok(session) => resolved(sessions@, id) == Ok::<S, Failure>(*session),
            Err(e) => resolved(sessions@, id) == Err::<S, Failure>(e),
        },
{
    match sessions.lookup_for_read(id) {
        Ok(session) => Ok(session),
        Err(_) => Err(Failure::NotConnected { id }),
    }
}

/// Names a session by its handle. The handle carries identity only; the
/// live connection stays in the registry.
#[derive(Copy, Clone, Debug, PartialEq, Eq)]
pub struct Session {
    id: usize,
}

impl View for Session {
    type V = usize;

    /// The handle.
    closed spec fn view(&self) -> usize {
        self.id
    }
}

impl Session {
    /// A reference to the session registered under `id`.
    pub fn new(id: usize) -> (session: Session)
        ensures
            session@ == id,
    {
        Session { id }
    }

    /// The handle.
    pub fn id(&self) -> (id: usize)
        ensures
            id == self@,
    {
        self.id
    }

    /// Begins a launch: the attempt starts out connecting, and the caller
    /// is handed what the connection needs.
    pub fn launch<H>(opts: LaunchOpts<H>) -> (opening: Opening<H>)
        ensures
            opening.launch@ == Launch::initial(opts.method, opts.timeout),
            opening.host == opts.host,
            opening.ssh == opts.ssh,
            opening.handler == opts.handler,
    {
        Launch::open(opts)
    }

    /// Whether the session is still registered.
    pub fn is_active<S>(&self, sessions: &Registry<S>) -> (active: bool)
        ensures
            active == sessions@.contains_key(self@),
    {
        sessions.contains(self.id)
    }

    /// The live object of this session, from which a call takes its
    /// channel.
    pub fn channel<'a, S>(&self, sessions: &'a Registry<S>) -> (found: Result<&'a S, Failure>)
        ensures
            match found {
                Ok(session) => resolved(sessions@, self@) == Ok::<S, Failure>(*session),
                Err(e) => resolved(sessions@, self@) == Err::<S, Failure>(e),
            },
    {
        get_session_channel(sessions, self.id)
    }

    /// Takes the session out of the registry and hands its live object
    /// back, so that the caller can shut it down.
    pub fn disconnect<S>(&self, sessions: &mut Registry<S>) -> (removed: Result<S, Failure>)
        ensures
            removed == resolved(old(sessions)@, self@),
            final(sessions)@ == old(sessions)@.remove(self@),
    {
        match sessions.remove(self.id) {
            Ok(session) => Ok(session),
            Err(_) => Err(Failure::NotConnected { id: self.id }),
        }
    }
}

} // verus!

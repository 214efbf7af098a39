//! The launch protocol: from connection parameters to a registered session.
//!
//! A launch is a small state machine. The caller performs whatever action
//! the machine last asked for (connect, authenticate, start the agent,
//! reconnect) and reports the outcome as an event; the machine answers with
//! the next action. Only a launch that has reached `Ready` can register a
//! session, so no failure leaves a handle behind.

use crate::failure::{Failure, Fault, Handshake};
use crate::ids::IdAllocator;
use crate::opts::{LaunchOpts, Method, SshOpts};
use crate::registry::{inserted, key_of, Registry};
use crate::session::Session;
use crate::text::{lines, split_lines, views};
use vstd::prelude::*;
use vstd::string::*;

verus! {

/// Where the agent listens and the key that protects the connection to it.
#[derive(Clone, Debug, PartialEq, Eq)]
pub struct SessionDescriptor {
    /// The host to connect to.
    pub host: String,
    /// The port the agent listens on.
    pub port: u16,
    /// The 32-byte secret key of the connection.
    pub key: [u8; 32],
}

impl View for SessionDescriptor {
    type V = (Seq<char>, u16, Seq<u8>);

    open spec fn view(&self) -> (Seq<char>, u16, Seq<u8>) {
        (self.host@, self.port, self.key@)
    }
}

/// What `distant_core::SessionInfo`'s `FromStr` makes of a line: the host,
/// port and key bytes where the line reads as a session descriptor, `None`
/// where it is refused.
pub uninterp spec fn session_info_parsed(line: Seq<char>) -> Option<(Seq<char>, u16, Seq<u8>)>;

/// Parses `line` with `distant_core::SessionInfo`'s `FromStr` and copies the
/// fields of an accepted descriptor out. Parsing reads nothing but the
/// line, so its answer is named by [`session_info_parsed`]; an accepted key
/// is a `SecretKey32` and so 32 bytes long.
#[verifier::external_body]
fn parse_session_info(line: &str) -> (parsed: Option<SessionDescriptor>)
    ensures
        match parsed {
            Some(descriptor) => session_info_parsed(line@) == Some(descriptor@),
            None => session_info_parsed(line@) is None,
        },
{
    match line.parse::<distant_core::SessionInfo>() {
        Ok(info) => Some(
            SessionDescriptor {
                host: info.host,
                port: info.port,
                key: *info.key.unprotected_as_byte_array(),
            },
        ),
        Err(_) => None,
    }
}

/// The first item of `items` that is present.
pub open spec fn first_some<T>(items: Seq<Option<T>>) -> Option<T>
    decreases items.len(),
{
    if items.len() == 0 {
        None
    } else if items[0] is Some {
        items[0]
    } else {
        first_some(items.drop_first())
    }
}

/// The descriptor that a drained agent output yields: that of the first
/// line that reads as one.
pub open spec fn descriptor_in(output: Seq<char>) -> Option<(Seq<char>, u16, Seq<u8>)> {
    first_some(lines(output).map_values(|line: Seq<char>| session_info_parsed(line)))
}

/// The view of a descriptor that may be absent.
pub open spec fn descriptor_view(found: Option<SessionDescriptor>) -> Option<
    (Seq<char>, u16, Seq<u8>),
> {
    match found {
        Some(descriptor) => Some(descriptor@),
        None => None,
    }
}

/// Picking the first present item commutes with taking views.
proof fn lemma_first_some_views(
    parsed: Seq<Option<SessionDescriptor>>,
    named: Seq<Option<(Seq<char>, u16, Seq<u8>)>>,
)
    requires
        parsed.len() == named.len(),
        forall|i: int| 0 <= i < parsed.len() ==> descriptor_view(parsed[i]) == named[i],
    ensures
        descriptor_view(first_some(parsed)) == first_some(named),
    decreases parsed.len(),
{
    if parsed.len() > 0 {
        assert(descriptor_view(parsed[0]) == named[0]);
        if parsed[0] is None {
            let p = parsed.drop_first();
            let n = named.drop_first();
            assert forall|i: int| 0 <= i < p.len() implies descriptor_view(p[i]) == n[i] by {
                assert(descriptor_view(parsed[i + 1]) == named[i + 1]);
            }
            lemma_first_some_views(p, n);
        }
    }
}

/// The first candidate that is present, if any is.
pub fn pick_first<T>(candidates: Vec<Option<T>>) -> (picked: Option<T>)
    ensures
        picked == first_some(candidates@),
{
    let mut rest: Vec<Option<T>> = candidates;
    let mut picked: Option<T> = None;
    let ghost mut tail: Seq<Option<T>> = Seq::empty();
    proof {
        assert(rest@ + tail == candidates@);
    }
    while rest.len() > 0
        invariant
            rest@ + tail == candidates@,
            picked == first_some(tail),
        decreases rest.len(),
    {
        let ghost before = rest@;
        let last: Option<T> = rest.pop().unwrap();
        proof {
            let whole = seq![last] + tail;
            assert(whole.drop_first() == tail);
            assert(before == rest@.push(last));
            assert(rest@ + whole == candidates@);
            tail = whole;
        }
        if last.is_some() {
            picked = last;
        }
    }
    proof {
        assert(tail == candidates@);
    }
    picked
}

/// Scans drained agent output line by line for the first line that reads
/// as a session descriptor.
pub fn find_session_descriptor(output: &str) -> (found: Option<SessionDescriptor>)
    ensures
        descriptor_view(found) == descriptor_in(output@),
{
    let parts: Vec<&str> = split_lines(output);
    let ghost named = lines(output@).map_values(|line: Seq<char>| session_info_parsed(line));
    let mut parsed: Vec<Option<SessionDescriptor>> = Vec::new();
    let mut i: usize = 0;
    while i < parts.len()
        invariant
            i <= parts.len(),
            parsed.len() == i,
            views(parts@) == lines(output@),
            named == lines(output@).map_values(|line: Seq<char>| session_info_parsed(line)),
            forall|j: int| 0 <= j < i ==> descriptor_view(parsed@[j]) == named[j],
        decreases parts.len() - i,
    {
        let candidate: Option<SessionDescriptor> = parse_session_info(parts[i]);
        proof {
            assert(views(parts@)[i as int] == parts@[i as int]@);
            assert(named[i as int] == session_info_parsed(lines(output@)[i as int]));
        }
        parsed.push(candidate);
        i = i + 1;
    }
    proof {
        assert(views(parts@).len() == parts@.len());
        lemma_first_some_views(parsed@, named);
    }
    pick_first(parsed)
}

/// Where a launch attempt stands.
#[derive(Clone, Debug, PartialEq, Eq)]
pub enum Phase {
    /// Opening the SSH connection to the target.
    Connecting,
    /// Exchanging credentials over the connection.
    Authenticating,
    /// Waiting for the agent, started over the authenticated session, to
    /// exit.
    AwaitingAgent,
    /// Connecting directly to the agent.
    Reconnecting,
    /// The final session exists and can be registered.
    Ready,
    /// The attempt has ended in a failure.
    Failed(Failure),
}

/// What the caller reports back to a launch.
#[derive(Clone, Debug, PartialEq, Eq)]
pub enum LaunchEvent {
    /// The SSH connection is open.
    Connected,
    /// The SSH connection could not be opened.
    ConnectFailed(String),
    /// The credential exchange succeeded.
    Authenticated,
    /// The credential exchange failed, or the host was not accepted.
    AuthFailed(String),
    /// The agent could not be started.
    AgentSpawnFailed(String),
    /// The agent has exited and its standard output has been drained.
    AgentExited { success: bool, code: Option<i32>, output: String },
    /// The direct connection to the agent is open.
    Reconnected,
    /// The direct connection could not be opened.
    ReconnectFailed(String),
    /// The direct connection was not open within the launch's time limit.
    ReconnectTimedOut,
}

/// What a launch asks the caller to do next.
#[derive(Clone, Debug, PartialEq, Eq)]
pub enum LaunchAction {
    /// Authenticate over the open connection with the caller's
    /// capabilities.
    Authenticate,
    /// Start `program` with no arguments over the authenticated session,
    /// wait for it to exit, and drain its standard output.
    SpawnAgent { program: String },
    /// Release the bootstrap session, then connect to the agent that
    /// `descriptor` names within `timeout` milliseconds.
    Reconnect { descriptor: SessionDescriptor, timeout: u64 },
    /// Hand the final session to [`Launch::register`]: the authenticated
    /// session for `Ssh`, the direct connection for `Distant`.
    Register { method: Method },
    /// Stop; the launch has failed. The bootstrap session is to be
    /// released first where `release_bootstrap` is set.
    Abandon { release_bootstrap: bool },
}

impl LaunchAction {
    /// Whether the action has the caller release the bootstrap session.
    pub open spec fn releases(self) -> bool {
        match self {
            LaunchAction::Reconnect { .. } => true,
            LaunchAction::Abandon { release_bootstrap } => release_bootstrap,
            _ => false,
        }
    }

    /// Whether the action has the caller release the bootstrap session:
    /// every reconnection does, and an abandonment where it says so.
    pub fn releases_bootstrap(&self) -> (release: bool)
        ensures
            release == self.releases(),
    {
        match self {
            LaunchAction::Reconnect { .. } => true,
            LaunchAction::Abandon { release_bootstrap } => *release_bootstrap,
            _ => false,
        }
    }
}

/// The abstract state of a launch.
pub struct LaunchState {
    pub method: Method,
    pub timeout: u64,
    pub phase: Phase,
}

/// The phase after an agent exit is reported to a launch that was waiting
/// for it, where `found` says whether its output held a descriptor.
pub open spec fn after_agent(success: bool, code: Option<i32>, found: bool) -> Phase {
    if !success {
        Phase::Failed(Failure::HandshakeFailure(Handshake::AgentFailed { code }))
    } else if found {
        Phase::Reconnecting
    } else {
        Phase::Failed(Failure::HandshakeFailure(Handshake::MissingSessionData))
    }
}

/// The phase that follows `event` in `state`.
pub open spec fn next_phase(state: LaunchState, event: LaunchEvent) -> Phase {
    match state.phase {
        Phase::Connecting => match event {
            LaunchEvent::Connected => Phase::Authenticating,
            LaunchEvent::ConnectFailed(why) => Phase::Failed(Failure::ConnectionError(why)),
            _ => Phase::Failed(Failure::Internal(Fault::UnexpectedEvent)),
        },
        Phase::Authenticating => match event {
            LaunchEvent::Authenticated => match state.method {
                Method::Ssh => Phase::Ready,
                Method::Distant => Phase::AwaitingAgent,
            },
            LaunchEvent::AuthFailed(why) => Phase::Failed(Failure::AuthError(why)),
            _ => Phase::Failed(Failure::Internal(Fault::UnexpectedEvent)),
        },
        Phase::AwaitingAgent => match event {
            LaunchEvent::AgentSpawnFailed(why) => Phase::Failed(Failure::ConnectionError(why)),
            LaunchEvent::AgentExited { success, code, output } => after_agent(
                success,
                code,
                descriptor_in(output@) is Some,
            ),
            _ => Phase::Failed(Failure::Internal(Fault::UnexpectedEvent)),
        },
        Phase::Reconnecting => match event {
            LaunchEvent::Reconnected => Phase::Ready,
            LaunchEvent::ReconnectFailed(why) => Phase::Failed(Failure::ConnectionError(why)),
            LaunchEvent::ReconnectTimedOut => Phase::Failed(
                Failure::Timeout { millis: state.timeout },
            ),
            _ => Phase::Failed(Failure::Internal(Fault::UnexpectedEvent)),
        },
        Phase::Ready => Phase::Ready,
        Phase::Failed(failure) => Phase::Failed(failure),
    }
}

/// Whether the bootstrap session is to be released on the way from
/// `state` through `event`: exactly when the exit of the agent is taken in.
pub open spec fn releases_bootstrap(state: LaunchState, event: LaunchEvent) -> bool {
    state.phase is AwaitingAgent && event is AgentExited
}

/// Whether `action` is what a launch in `state` asks for on `event`.
pub open spec fn action_fits(state: LaunchState, event: LaunchEvent, action: LaunchAction) -> bool {
    match next_phase(state, event) {
        Phase::Connecting => false,
        Phase::Authenticating => action == LaunchAction::Authenticate,
        Phase::AwaitingAgent => action matches LaunchAction::SpawnAgent { program } && program@
            == "distant"@,
        Phase::Reconnecting => {
            &&& action matches LaunchAction::Reconnect { descriptor, timeout }
            &&& event matches LaunchEvent::AgentExited { output, .. }
            &&& descriptor_in(output@) == Some(descriptor@)
            &&& timeout == state.timeout
        },
        Phase::Ready => action == (LaunchAction::Register { method: state.method }),
        Phase::Failed(_) => action == (LaunchAction::Abandon {
            release_bootstrap: releases_bootstrap(state, event),
        }),
    }
}

/// One launch attempt.
pub struct Launch {
    method: Method,
    timeout: u64,
    phase: Phase,
}

impl View for Launch {
    type V = LaunchState;

    closed spec fn view(&self) -> LaunchState {
        LaunchState { method: self.method, timeout: self.timeout, phase: self.phase }
    }
}

/// The first move of a launch: the attempt itself, and what the caller
/// needs to open the SSH connection and then authenticate over it.
pub struct Opening<H> {
    /// The attempt, in its `Connecting` phase.
    pub launch: Launch,
    /// The address to connect to.
    pub host: String,
    /// The SSH options to connect with.
    pub ssh: SshOpts,
    /// The caller's authentication capabilities.
    pub handler: H,
}

impl Launch {
    /// The state in which every launch starts.
    pub open spec fn initial(method: Method, timeout: u64) -> LaunchState {
        LaunchState { method, timeout, phase: Phase::Connecting }
    }

    /// Starts an attempt from its options.
    pub(crate) fn open<H>(opts: LaunchOpts<H>) -> (opening: Opening<H>)
        ensures
            opening.launch@ == Launch::initial(opts.method, opts.timeout),
            opening.host == opts.host,
            opening.ssh == opts.ssh,
            opening.handler == opts.handler,
    {
        let LaunchOpts { host, method, handler, ssh, timeout } = opts;
        Opening { launch: Launch { method, timeout, phase: Phase::Connecting }, host, ssh, handler }
    }

    /// The transport the final session will run over.
    pub fn method(&self) -> (method: Method)
        ensures
            method == self@.method,
    {
        self.method
    }

    /// The time limit of the launch, in milliseconds.
    pub fn timeout(&self) -> (timeout: u64)
        ensures
            timeout == self@.timeout,
    {
        self.timeout
    }

    /// The phase the attempt is in.
    pub fn phase(&self) -> (phase: &Phase)
        ensures
            *phase == self@.phase,
    {
        &self.phase
    }

    /// The failure the attempt ended in, if it has failed.
    pub fn failure(&self) -> (failure: Option<&Failure>)
        ensures
            match self@.phase {
                Phase::Failed(f) => failure == Some(&f),
                _ => failure is None,
            },
    {
        match &self.phase {
            Phase::Failed(f) => Some(f),
            _ => None,
        }
    }

    /// Takes in the exit of the agent, where `descriptor` is what the scan
    /// of its output found. A launch that was not waiting for the agent
    /// treats the report like any other event out of turn.
    pub fn handoff(
        self,
        success: bool,
        code: Option<i32>,
        descriptor: Option<SessionDescriptor>,
    ) -> (step: (Launch, LaunchAction))
        ensures
            step.0@.method == self@.method,
            step.0@.timeout == self@.timeout,
            step.0@.phase == match self@.phase {
                Phase::AwaitingAgent => after_agent(success, code, descriptor is Some),
                Phase::Ready => Phase::Ready,
                Phase::Failed(failure) => Phase::Failed(failure),
                _ => Phase::Failed(Failure::Internal(Fault::UnexpectedEvent)),
            },
            step.1 == match step.0@.phase {
                Phase::Reconnecting => LaunchAction::Reconnect {
                    descriptor: descriptor->Some_0,
                    timeout: self@.timeout,
                },
                Phase::Ready => LaunchAction::Register { method: self@.method },
                _ => LaunchAction::Abandon { release_bootstrap: self@.phase is AwaitingAgent },
            },
    {
        let Launch { method, timeout, phase } = self;
        match phase {
            Phase::AwaitingAgent => {
                if !success {
                    (
                        Launch {
                            method,
                            timeout,
                            phase: Phase::Failed(
                                Failure::HandshakeFailure(Handshake::AgentFailed { code }),
                            ),
                        },
                        LaunchAction::Abandon { release_bootstrap: true },
                    )
                } else {
                    match descriptor {
                        Some(descriptor) => (
                            Launch { method, timeout, phase: Phase::Reconnecting },
                            LaunchAction::Reconnect { descriptor, timeout },
                        ),
                        None => (
                            Launch {
                                method,
                                timeout,
                                phase: Phase::Failed(
                                    Failure::HandshakeFailure(Handshake::MissingSessionData),
                                ),
                            },
                            LaunchAction::Abandon { release_bootstrap: true },
                        ),
                    }
                }
            },
            Phase::Ready => (
                Launch { method, timeout, phase: Phase::Ready },
                LaunchAction::Register { method },
            ),
            Phase::Failed(failure) => (
                Launch { method, timeout, phase: Phase::Failed(failure) },
                LaunchAction::Abandon { release_bootstrap: false },
            ),
            _ => (
                Launch {
                    method,
                    timeout,
                    phase: Phase::Failed(Failure::Internal(Fault::UnexpectedEvent)),
                },
                LaunchAction::Abandon { release_bootstrap: false },
            ),
        }
    }

    /// Takes in `event` and answers with the next action. A failed or ready
    /// launch stays as it is whatever it is told; an event that cannot
    /// occur in the current phase fails the launch.
    pub fn step(self, event: LaunchEvent) -> (step: (Launch, LaunchAction))
        ensures
            step.0@.method == self@.method,
            step.0@.timeout == self@.timeout,
            step.0@.phase == next_phase(self@, event),
            action_fits(self@, event, step.1),
            step.1.releases() == releases_bootstrap(self@, event),
    {
        let Launch { method, timeout, phase } = self;
        match phase {
            Phase::Connecting => match event {
                LaunchEvent::Connected => (
                    Launch { method, timeout, phase: Phase::Authenticating },
                    LaunchAction::Authenticate,
                ),
                LaunchEvent::ConnectFailed(why) => (
                    Launch { method, timeout, phase: Phase::Failed(Failure::ConnectionError(why)) },
                    LaunchAction::Abandon { release_bootstrap: false },
                ),
                _ => (
                    Launch {
                        method,
                        timeout,
                        phase: Phase::Failed(Failure::Internal(Fault::UnexpectedEvent)),
                    },
                    LaunchAction::Abandon { release_bootstrap: false },
                ),
            },
            Phase::Authenticating => match event {
                LaunchEvent::Authenticated => match method {
                    Method::Ssh => (
                        Launch { method, timeout, phase: Phase::Ready },
                        LaunchAction::Register { method },
                    ),
                    Method::Distant => (
                        Launch { method, timeout, phase: Phase::AwaitingAgent },
                        LaunchAction::SpawnAgent { program: String::from_str("distant") },
                    ),
                },
                LaunchEvent::AuthFailed(why) => (
                    Launch { method, timeout, phase: Phase::Failed(Failure::AuthError(why)) },
                    LaunchAction::Abandon { release_bootstrap: false },
                ),
                _ => (
                    Launch {
                        method,
                        timeout,
                        phase: Phase::Failed(Failure::Internal(Fault::UnexpectedEvent)),
                    },
                    LaunchAction::Abandon { release_bootstrap: false },
                ),
            },
            Phase::AwaitingAgent => match event {
                LaunchEvent::AgentSpawnFailed(why) => (
                    Launch { method, timeout, phase: Phase::Failed(Failure::ConnectionError(why)) },
                    LaunchAction::Abandon { release_bootstrap: false },
                ),
                LaunchEvent::AgentExited { success, code, output } => {
                    let found: Option<SessionDescriptor> = find_session_descriptor(
                        output.as_str(),
                    );
                    Launch { method, timeout, phase: Phase::AwaitingAgent }.handoff(
                        success,
                        code,
                        found,
                    )
                },
                _ => (
                    Launch {
                        method,
                        timeout,
                        phase: Phase::Failed(Failure::Internal(Fault::UnexpectedEvent)),
                    },
                    LaunchAction::Abandon { release_bootstrap: false },
                ),
            },
            Phase::Reconnecting => match event {
                LaunchEvent::Reconnected => (
                    Launch { method, timeout, phase: Phase::Ready },
                    LaunchAction::Register { method },
                ),
                LaunchEvent::ReconnectFailed(why) => (
                    Launch { method, timeout, phase: Phase::Failed(Failure::ConnectionError(why)) },
                    LaunchAction::Abandon { release_bootstrap: false },
                ),
                LaunchEvent::ReconnectTimedOut => (
                    Launch { method, timeout, phase: Phase::Failed(Failure::Timeout { millis: timeout }) },
                    LaunchAction::Abandon { release_bootstrap: false },
                ),
                _ => (
                    Launch {
                        method,
                        timeout,
                        phase: Phase::Failed(Failure::Internal(Fault::UnexpectedEvent)),
                    },
                    LaunchAction::Abandon { release_bootstrap: false },
                ),
            },
            Phase::Ready => (
                Launch { method, timeout, phase: Phase::Ready },
                LaunchAction::Register { method },
            ),
            Phase::Failed(failure) => (
                Launch { method, timeout, phase: Phase::Failed(failure) },
                LaunchAction::Abandon { release_bootstrap: false },
            ),
        }
    }

    /// Registers the final session of a launch that is `Ready` and names it
    /// by a fresh handle. A launch in any other phase registers nothing:
    /// it answers with its failure, or with `LaunchIncomplete` where it has
    /// not failed, and registry and allocator stay as they were.
    pub fn register<S>(
        self,
        sessions: &mut Registry<S>,
        ids: &mut IdAllocator,
        session: S,
    ) -> (registered: Result<Session, Failure>)
        ensures
            match self@.phase {
                Phase::Ready => {
                    &&& inserted(
                        old(sessions)@,
                        old(ids)@,
                        session,
                        final(sessions)@,
                        final(ids)@,
                        key_of(registered),
                    )
                    &&& registered matches Ok(s) ==> !old(sessions)@.contains_key(s@)
                    &&& old(ids)@ is Some ==> registered is Ok
                },
                Phase::Failed(failure) => {
                    &&& registered == Err::<Session, Failure>(failure)
                    &&& final(sessions)@ == old(sessions)@
                    &&& final(ids)@ == old(ids)@
                },
                _ => {
                    &&& registered == Err::<Session, Failure>(
                        Failure::Internal(Fault::LaunchIncomplete),
                    )
                    &&& final(sessions)@ == old(sessions)@
                    &&& final(ids)@ == old(ids)@
                },
            },
    {
        match self.phase {
            Phase::Ready => match sessions.insert(ids, session) {
                Ok(id) => Ok(Session::new(id)),
                Err(e) => Err(e),
            },
            Phase::Failed(failure) => Err(failure),
            _ => Err(Failure::Internal(Fault::LaunchIncomplete)),
        }
    }
}

} // verus!

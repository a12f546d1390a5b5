//! Building connections to a destination: a direct web socket where its address is
//! known, and a peer-to-peer connection where there is a coordinator.
//!
//! Building can be cancelled. A [`BuildTask`] says when to look whether it has been, and
//! what to do in between.
use crate::encoding;
use crate::encoding::base64_text;
use crate::error::{NetworkError, NetworkResult};
use crate::protocol::{ActrId, Dest};
use crate::transport::address_book::AddressBook;
use vstd::prelude::*;

verus! {

/// Settings of a builder.
#[derive(Debug)]
pub struct DefaultWireBuilderConfig {
    /// This node's identity in hexadecimal, told on connecting.
    pub local_id_hex: String,
    pub enable_webrtc: bool,
    pub enable_websocket: bool,
    /// The addresses that the signaling server has told of.
    pub discovered_ws_addresses: AddressBook,
    /// Whether there is a credential to tell on connecting.
    pub has_credential: bool,
}

impl Default for DefaultWireBuilderConfig {
    fn default() -> (c: Self)
        ensures
            c.local_id_hex@ == Seq::<char>::empty(),
            c.enable_webrtc,
            c.enable_websocket,
            c.discovered_ws_addresses@ == Map::<crate::protocol::ActrIdView, Seq<char>>::empty(),
            !c.has_credential,
    {
        DefaultWireBuilderConfig {
            local_id_hex: String::new(),
            enable_webrtc: true,
            enable_websocket: true,
            discovered_ws_addresses: AddressBook::new(),
            has_credential: false,
        }
    }
}

/// A connection that was built.
#[derive(Debug)]
pub enum WireHandle {
    /// A web socket to open, and what is told on opening it.
    WebSocket { url: String, local_id: String, credential_b64: Option<String> },
    /// A peer-to-peer connection, by handle.
    WebRtc { connection: u64 },
}

/// Where a build stands.
#[derive(Debug)]
pub enum BuildPhase {
    /// Nothing has been done.
    Start,
    /// The web socket is about to be built.
    BeforeWebSocket,
    /// The credential is being encoded.
    Encoding { url: String },
    /// The peer-to-peer connection is about to be considered.
    BeforeWebRtc,
    /// The peer-to-peer connection is about to be made.
    BeforeCreate,
    /// The peer-to-peer connection is being made.
    Creating,
    /// The peer-to-peer connection has been made.
    Created { connection: u64 },
    /// The peer-to-peer connection is being closed again.
    Closing,
    /// Nothing is left to do.
    Finished,
}

/// What happened in a build.
#[derive(Debug)]
pub enum BuildEvent {
    /// Whether the build has been cancelled.
    Polled { cancelled: bool },
    /// The credential's octets.
    Encoded { credential: Vec<u8> },
    /// The peer-to-peer connection was made, or not.
    Attempted { connection: Option<u64> },
    /// The peer-to-peer connection was closed, well or not.
    Closed,
}

/// What a build does next.
#[derive(Debug)]
pub enum BuildAction {
    /// Look whether the build has been cancelled.
    PollCancelled,
    /// Encode the credential.
    EncodeCredential,
    /// Make a peer-to-peer connection.
    CreateWebRtc,
    /// Close the peer-to-peer connection again.
    CloseWebRtc { connection: u64 },
    /// Return this.
    Finish(NetworkResult<Vec<WireHandle>>),
}

/// A build under way.
#[derive(Debug)]
pub struct BuildTask {
    pub phase: BuildPhase,
    /// The connections so far.
    pub connections: Vec<WireHandle>,
}

/// Builds connections.
#[derive(Debug)]
pub struct DefaultWireBuilder {
    pub has_coordinator: bool,
    pub config: DefaultWireBuilderConfig,
}

/// The build ends because it was cancelled.
pub open spec fn ends_cancelled(after: BuildTask, a: BuildAction) -> bool {
    &&& after.phase is Finished
    &&& a matches BuildAction::Finish(Err(NetworkError::ConnectionClosed(m)))
    &&& m@ == "Connection creation cancelled"@
}

/// The build goes on to this phase, looks whether it was cancelled, and has these
/// connections.
pub open spec fn goes_on(
    after: BuildTask,
    a: BuildAction,
    phase: BuildPhase,
    connections: Seq<WireHandle>,
) -> bool {
    after.phase == phase && a is PollCancelled && after.connections@ == connections
}

/// The build ends with these connections.
pub open spec fn ends_with(after: BuildTask, a: BuildAction, connections: Seq<WireHandle>) -> bool {
    &&& after.phase is Finished
    &&& a matches BuildAction::Finish(Ok(v))
    &&& v@ == connections
}

/// The web socket that is built to an address.
pub open spec fn is_websocket(
    h: WireHandle,
    url: Seq<char>,
    local_id: Seq<char>,
    credential: Option<Seq<u8>>,
) -> bool {
    &&& h matches WireHandle::WebSocket { url: u, local_id: l, credential_b64: c }
    &&& u@ == url
    &&& l@ == local_id
    &&& match credential {
        Some(octets) => c matches Some(c) && c@ == encoding::base64_of(octets),
        None => c is None,
    }
}

impl DefaultWireBuilder {
    /// A builder with these settings.
    pub fn new(has_coordinator: bool, config: DefaultWireBuilderConfig) -> (b: Self)
        ensures
            b.has_coordinator == has_coordinator,
            b.config == config,
    {
        DefaultWireBuilder { has_coordinator, config }
    }

    /// The address of a destination: that of an actor the signaling server has told of.
    pub open spec fn address(&self, dest: Dest) -> Option<Seq<char>> {
        match dest {
            Dest::Actor(id) if self.config.discovered_ws_addresses@.contains_key(id@) => Some(
                self.config.discovered_ws_addresses@[id@],
            ),
            _ => None,
        }
    }

    /// A peer-to-peer connection is tried: to actors, where there is a coordinator.
    pub open spec fn tries_webrtc(&self, dest: Dest) -> bool {
        self.config.enable_webrtc && self.has_coordinator && dest is Actor
    }

    /// The address of a destination, if it is known.
    pub fn resolve_websocket_url(&self, dest: &Dest) -> (r: Option<String>)
        ensures
            match r {
                Some(url) => self.address(*dest) == Some(url@),
                None => self.address(*dest) is None,
            },
    {
        match dest {
            Dest::Actor(id) => self.config.discovered_ws_addresses.get(id),
            _ => None,
        }
    }

    /// Begins to build.
    pub fn create_connections(&self) -> (r: (BuildTask, BuildAction))
        ensures
            r.0.phase is Start,
            r.0.connections@ == Seq::<WireHandle>::empty(),
            r.1 is PollCancelled,
    {
        (
            BuildTask { phase: BuildPhase::Start, connections: Vec::new() },
            BuildAction::PollCancelled,
        )
    }

    /// What an event does to a build.
    pub open spec fn built(
        &self,
        dest: Dest,
        before: BuildTask,
        event: BuildEvent,
        after: BuildTask,
        a: BuildAction,
    ) -> bool {
        let so_far = before.connections@;
        match (before.phase, event) {
            (BuildPhase::Start, BuildEvent::Polled { cancelled }) => if cancelled {
                ends_cancelled(after, a)
            } else if self.config.enable_websocket {
                goes_on(after, a, BuildPhase::BeforeWebSocket, so_far)
            } else {
                goes_on(after, a, BuildPhase::BeforeWebRtc, so_far)
            },
            (BuildPhase::BeforeWebSocket, BuildEvent::Polled { cancelled }) => if cancelled {
                ends_cancelled(after, a)
            } else {
                match self.address(dest) {
                    Some(url) => if self.config.has_credential {
                        &&& after.phase matches BuildPhase::Encoding { url: u }
                        &&& u@ == url
                        &&& a is EncodeCredential
                        &&& after.connections@ == so_far
                    } else {
                        &&& after.connections@.len() == so_far.len() + 1
                        &&& goes_on(
                            after,
                            a,
                            BuildPhase::BeforeWebRtc,
                            so_far.push(after.connections@.last()),
                        )
                        &&& is_websocket(
                            after.connections@.last(),
                            url,
                            self.config.local_id_hex@,
                            None,
                        )
                    },
                    None => goes_on(after, a, BuildPhase::BeforeWebRtc, so_far),
                }
            },
            (BuildPhase::Encoding { url }, BuildEvent::Encoded { credential }) => {
                &&& after.connections@.len() == so_far.len() + 1
                &&& goes_on(
                    after,
                    a,
                    BuildPhase::BeforeWebRtc,
                    so_far.push(after.connections@.last()),
                )
                &&& is_websocket(
                    after.connections@.last(),
                    url@,
                    self.config.local_id_hex@,
                    Some(credential@),
                )
            },
            (BuildPhase::BeforeWebRtc, BuildEvent::Polled { cancelled }) => if cancelled {
                ends_cancelled(after, a)
            } else if self.tries_webrtc(dest) {
                goes_on(after, a, BuildPhase::BeforeCreate, so_far)
            } else {
                ends_with(after, a, so_far)
            },
            (BuildPhase::BeforeCreate, BuildEvent::Polled { cancelled }) => if cancelled {
                ends_cancelled(after, a)
            } else {
                after.phase is Creating && a is CreateWebRtc && after.connections@ == so_far
            },
            (BuildPhase::Creating, BuildEvent::Attempted { connection }) => match connection {
                Some(connection) => goes_on(
                    after,
                    a,
                    BuildPhase::Created { connection },
                    so_far,
                ),
                None => ends_with(after, a, so_far),
            },
            (BuildPhase::Created { connection }, BuildEvent::Polled { cancelled }) => if cancelled {
                &&& after.phase is Closing
                &&& a == (BuildAction::CloseWebRtc { connection })
            } else {
                ends_with(after, a, so_far.push(WireHandle::WebRtc { connection }))
            },
            (BuildPhase::Closing, BuildEvent::Closed) => ends_cancelled(after, a),
            _ => true,
        }
    }

    /// The event answers the build's last action.
    pub open spec fn expects(&self, task: BuildTask, event: BuildEvent) -> bool {
        match task.phase {
            BuildPhase::Encoding { .. } => event matches BuildEvent::Encoded { credential }
                && encoding::fits_base64(credential@),
            BuildPhase::Creating => event is Attempted,
            BuildPhase::Closing => event is Closed,
            BuildPhase::Finished => false,
            _ => event is Polled,
        }
    }

    fn websocket(&self, url: String, credential: Option<Vec<u8>>) -> (h: WireHandle)
        requires
            credential matches Some(octets) ==> encoding::fits_base64(octets@),
        ensures
            is_websocket(
                h,
                url@,
                self.config.local_id_hex@,
                match credential {
                    Some(octets) => Some(octets@),
                    None => None,
                },
            ),
    {
        let credential_b64: Option<String> = match credential {
            Some(octets) => Some(base64_text(octets.as_slice())),
            None => None,
        };
        WireHandle::WebSocket { url, local_id: self.config.local_id_hex.clone(), credential_b64 }
    }

    /// Takes an event and says what to do next.
    ///
    /// A cancelled build ends with an error, and closes a peer-to-peer connection that
    /// was made meanwhile. One that cannot be made is left out.
    pub fn create_connections_with_cancel(
        &self,
        dest: &Dest,
        task: &mut BuildTask,
        event: BuildEvent,
    ) -> (a: BuildAction)
        requires
            self.expects(*old(task), event),
        ensures
            self.built(*dest, *old(task), event, *final(task), a),
    {
        let mut phase = BuildPhase::Finished;
        std::mem::swap(&mut phase, &mut task.phase);
        let cancelled = match &event {
            BuildEvent::Polled { cancelled } => *cancelled,
            _ => false,
        };
        if cancelled {
            if let BuildPhase::Created { connection } = phase {
                task.phase = BuildPhase::Closing;
                return BuildAction::CloseWebRtc { connection };
            }
            return cancelled_error();
        }
        match phase {
            BuildPhase::Start => {
                if self.config.enable_websocket {
                    task.phase = BuildPhase::BeforeWebSocket;
                } else {
                    task.phase = BuildPhase::BeforeWebRtc;
                }
                BuildAction::PollCancelled
            },
            BuildPhase::BeforeWebSocket => match self.resolve_websocket_url(dest) {
                Some(url) => {
                    if self.config.has_credential {
                        task.phase = BuildPhase::Encoding { url };
                        BuildAction::EncodeCredential
                    } else {
                        task.connections.push(self.websocket(url, None));
                        task.phase = BuildPhase::BeforeWebRtc;
                        BuildAction::PollCancelled
                    }
                },
                None => {
                    task.phase = BuildPhase::BeforeWebRtc;
                    BuildAction::PollCancelled
                },
            },
            BuildPhase::Encoding { url } => {
                if let BuildEvent::Encoded { credential } = event {
                    task.connections.push(self.websocket(url, Some(credential)));
                }
                task.phase = BuildPhase::BeforeWebRtc;
                BuildAction::PollCancelled
            },
            BuildPhase::BeforeWebRtc => {
                if self.config.enable_webrtc && self.has_coordinator && dest.is_actor() {
                    task.phase = BuildPhase::BeforeCreate;
                    BuildAction::PollCancelled
                } else {
                    finished(task)
                }
            },
            BuildPhase::BeforeCreate => {
                task.phase = BuildPhase::Creating;
                BuildAction::CreateWebRtc
            },
            BuildPhase::Creating => {
                if let BuildEvent::Attempted { connection: Some(connection) } = event {
                    task.phase = BuildPhase::Created { connection };
                    BuildAction::PollCancelled
                } else {
                    finished(task)
                }
            },
            BuildPhase::Created { connection } => {
                task.connections.push(WireHandle::WebRtc { connection });
                finished(task)
            },
            BuildPhase::Closing => cancelled_error(),
            BuildPhase::Finished => finished(task),
        }
    }
}

fn cancelled_error() -> (a: BuildAction)
    ensures
        a matches BuildAction::Finish(Err(NetworkError::ConnectionClosed(m))) && m@
            == "Connection creation cancelled"@,
{
    BuildAction::Finish(
        Err(NetworkError::ConnectionClosed("Connection creation cancelled".to_owned())),
    )
}

fn finished(task: &mut BuildTask) -> (a: BuildAction)
    ensures
        final(task).phase == old(task).phase,
        a matches BuildAction::Finish(Ok(v)) && v@ == old(task).connections@,
{
    let mut connections: Vec<WireHandle> = Vec::new();
    std::mem::swap(&mut connections, &mut task.connections);
    BuildAction::Finish(Ok(connections))
}

// ── Laws ──────────────────────────────────────────────────────────────────────

/// A build that finds itself cancelled never hands out a connection.
pub proof fn a_cancelled_build_hands_out_nothing(
    b: DefaultWireBuilder,
    dest: Dest,
    before: BuildTask,
    after: BuildTask,
    a: BuildAction,
)
    requires
        b.expects(before, BuildEvent::Polled { cancelled: true }),
        b.built(dest, before, BuildEvent::Polled { cancelled: true }, after, a),
    ensures
        !(a matches BuildAction::Finish(Ok(_))),
        before.phase matches BuildPhase::Created { connection } ==> a == (
        BuildAction::CloseWebRtc { connection }),
        !(before.phase is Created) ==> ends_cancelled(after, a),
{
}

/// Without a known address no web socket is built.
pub proof fn no_websocket_without_an_address(
    b: DefaultWireBuilder,
    dest: Dest,
    before: BuildTask,
    event: BuildEvent,
    after: BuildTask,
    a: BuildAction,
)
    requires
        b.address(dest) is None,
        before.phase is BeforeWebSocket,
        event == (BuildEvent::Polled { cancelled: false }),
        b.built(dest, before, event, after, a),
    ensures
        after.connections@ == before.connections@,
        after.phase is BeforeWebRtc,
{
}

/// The address of a destination is the one that is in the book for that actor. Nothing but an
/// actor has one.
pub proof fn an_address_is_that_of_the_actor(
    b: DefaultWireBuilder,
    dest: Dest,
    r: Option<String>,
    id: ActrId,
    found: Option<String>,
)
    requires
        call_ensures(DefaultWireBuilder::resolve_websocket_url, (&b, &dest), r),
        call_ensures(AddressBook::get, (&b.config.discovered_ws_addresses, &id), found),
    ensures
        dest == Dest::Actor(id) ==> (r is Some <==> found is Some) && (r is Some ==> r->0@
            == found->0@),
        !(dest is Actor) ==> r is None,
{
}

/// A build begins with no connection, and looks whether it has been cancelled before it does
/// anything.
pub proof fn a_build_begins_with_nothing(
    b: DefaultWireBuilder,
    r: (BuildTask, BuildAction),
    cancelled: bool,
)
    requires
        call_ensures(DefaultWireBuilder::create_connections, (&b,), r),
    ensures
        r.0.connections@.len() == 0,
        r.1 is PollCancelled,
        b.expects(r.0, BuildEvent::Polled { cancelled }),
{
}

/// A build that is not cancelled throws nothing away: it ends with the connections that it has
/// collected, and with the peer-to-peer connection behind them if one was made. In particular
/// one that cannot be made leaves the others.
pub proof fn a_build_returns_what_it_has_collected(
    b: DefaultWireBuilder,
    dest: Dest,
    task: &mut BuildTask,
    event: BuildEvent,
    a: BuildAction,
)
    requires
        b.expects(*old(task), event),
        event != (BuildEvent::Polled { cancelled: true }),
        !(old(task).phase is Closing),
        call_ensures(
            DefaultWireBuilder::create_connections_with_cancel,
            (&b, &dest, task, event),
            a,
        ),
    ensures
        a matches BuildAction::Finish(r) ==> (r matches Ok(v) && v@ == match old(task).phase {
            BuildPhase::Created { connection } => old(task).connections@.push(
                WireHandle::WebRtc { connection },
            ),
            _ => old(task).connections@,
        }),
        event == (BuildEvent::Attempted { connection: None }) ==> (a matches BuildAction::Finish(
            Ok(v),
        ) && v@ == old(task).connections@),
        old(task).phase is Created ==> a is Finish,
        !(a is Finish) ==> old(task).connections@.is_prefix_of(final(task).connections@),
        !(a is Finish) && !(old(task).phase is BeforeWebSocket) && !(old(task).phase is Encoding)
            ==> final(task).connections@ == old(task).connections@,
        !(a is CloseWebRtc),
{
}

/// A web socket to the destination's address is collected where that is known, and nothing
/// where it is not. It tells who this node is, and the credential where there is one.
pub proof fn a_websocket_is_built_to_the_address(
    b: DefaultWireBuilder,
    dest: Dest,
    task: &mut BuildTask,
    event: BuildEvent,
    a: BuildAction,
    address: Option<String>,
)
    requires
        b.expects(*old(task), event),
        event != (BuildEvent::Polled { cancelled: true }),
        old(task).phase is BeforeWebSocket || old(task).phase is Encoding,
        call_ensures(DefaultWireBuilder::resolve_websocket_url, (&b, &dest), address),
        call_ensures(
            DefaultWireBuilder::create_connections_with_cancel,
            (&b, &dest, task, event),
            a,
        ),
    ensures
        old(task).phase is BeforeWebSocket ==> {
            &&& address is None ==> final(task).connections@ == old(task).connections@ && a
                is PollCancelled && final(task).phase is BeforeWebRtc
            &&& address is Some && b.config.has_credential ==> final(task).connections@
                == old(task).connections@ && a is EncodeCredential && (final(task).phase matches
                BuildPhase::Encoding { url } && url@ == address->0@)
            &&& address is Some && !b.config.has_credential ==> {
                &&& a is PollCancelled && final(task).phase is BeforeWebRtc
                &&& final(task).connections@.drop_last() == old(task).connections@
                &&& final(task).connections@.len() == old(task).connections@.len() + 1
                &&& final(task).connections@.last() matches WireHandle::WebSocket {
                    url,
                    local_id,
                    credential_b64,
                }
                &&& url@ == address->0@ && local_id@ == b.config.local_id_hex@ && credential_b64
                    is None
            }
        },
        old(task).phase matches BuildPhase::Encoding { url: known } ==> {
            &&& a is PollCancelled && final(task).phase is BeforeWebRtc
            &&& final(task).connections@.drop_last() == old(task).connections@
            &&& final(task).connections@.len() == old(task).connections@.len() + 1
            &&& final(task).connections@.last() matches WireHandle::WebSocket {
                url,
                local_id,
                credential_b64,
            }
            &&& url@ == known@ && local_id@ == b.config.local_id_hex@
            &&& credential_b64 matches Some(c) && c@ == encoding::base64_of(event->credential@)
        },
{
    if !(old(task).phase is BeforeWebSocket && address is None) {
        assert(final(task).connections@.drop_last() =~= old(task).connections@ || old(task).phase
            is BeforeWebSocket);
        if old(task).phase is BeforeWebSocket && !b.config.has_credential {
            assert(final(task).connections@.drop_last() =~= old(task).connections@);
        }
    }
}

/// A peer-to-peer connection is made exactly where that is enabled, there is a coordinator,
/// and the destination is an actor; web sockets are considered exactly where they are enabled.
pub proof fn connections_are_tried_where_they_are_enabled(
    b: DefaultWireBuilder,
    dest: Dest,
    task: &mut BuildTask,
    a: BuildAction,
)
    requires
        b.expects(*old(task), BuildEvent::Polled { cancelled: false }),
        call_ensures(
            DefaultWireBuilder::create_connections_with_cancel,
            (&b, &dest, task, BuildEvent::Polled { cancelled: false }),
            a,
        ),
    ensures
        old(task).phase is Start ==> a is PollCancelled && (final(task).phase is BeforeWebSocket
            <==> b.config.enable_websocket) && (final(task).phase is BeforeWebRtc
            <==> !b.config.enable_websocket),
        old(task).phase is BeforeWebRtc ==> (a is Finish <==> !(b.config.enable_webrtc
            && b.has_coordinator && dest is Actor)) && (!(a is Finish) ==> final(task).phase
            is BeforeCreate && a is PollCancelled),
        old(task).phase is BeforeCreate ==> a is CreateWebRtc && final(task).phase is Creating,
        a is CreateWebRtc ==> old(task).phase is BeforeCreate,
{
}

/// A build that finds itself cancelled ends with an error, whatever it has collected; if it has
/// just made a peer-to-peer connection, it closes that one before.
pub proof fn a_cancelled_build_closes_and_fails(
    b: DefaultWireBuilder,
    dest: Dest,
    task: &mut BuildTask,
    event: BuildEvent,
    a: BuildAction,
)
    requires
        b.expects(*old(task), event),
        event == (BuildEvent::Polled { cancelled: true }) || old(task).phase is Closing,
        call_ensures(
            DefaultWireBuilder::create_connections_with_cancel,
            (&b, &dest, task, event),
            a,
        ),
    ensures
        old(task).phase matches BuildPhase::Created { connection } ==> a == (
        BuildAction::CloseWebRtc { connection }) && final(task).phase is Closing,
        !(old(task).phase is Created) ==> (a matches BuildAction::Finish(
            Err(NetworkError::ConnectionClosed(m)),
        ) && m@ == "Connection creation cancelled"@) && final(task).phase is Finished,
{
}

/// A whole build, step by step: `tasks[k]` is the build before event `k`, and `actions[k]` what
/// it did last before that.
pub open spec fn is_build(
    b: DefaultWireBuilder,
    dest: Dest,
    tasks: Seq<BuildTask>,
    events: Seq<BuildEvent>,
    actions: Seq<BuildAction>,
) -> bool {
    &&& tasks.len() == events.len() + 1
    &&& actions.len() == tasks.len()
    &&& tasks[0].phase is Start
    &&& tasks[0].connections@.len() == 0
    &&& actions[0] is PollCancelled
    &&& forall|k: int|
        0 <= k < events.len() ==> b.expects(tasks[k], events[k]) && b.built(
            dest,
            tasks[k],
            #[trigger] events[k],
            tasks[k + 1],
            actions[k + 1],
        )
}

/// A peer-to-peer connection was made by one of the first `n` events.
pub open spec fn was_made(events: Seq<BuildEvent>, n: int) -> bool {
    exists|k: int|
        0 <= k < n && ((#[trigger] events[k]) matches BuildEvent::Attempted { connection: Some(_) })
}

/// The list begins with a web socket to this address, if there is one, and then ends with the
/// peer-to-peer connection, if one was made.
pub open spec fn holds_both(
    v: Seq<WireHandle>,
    address: Option<Seq<char>>,
    local_id: Seq<char>,
    made: bool,
) -> bool {
    &&& v.len() == (if address is Some {
        1int
    } else {
        0
    }) + (if made {
        1int
    } else {
        0
    })
    &&& address is Some ==> (v[0] matches WireHandle::WebSocket { url, local_id: l, .. } && url@
        == address->0 && l@ == local_id)
    &&& made ==> v.last() is WebRtc
}

proof fn lemma_build_so_far(
    b: DefaultWireBuilder,
    dest: Dest,
    tasks: Seq<BuildTask>,
    events: Seq<BuildEvent>,
    actions: Seq<BuildAction>,
    address: Option<Seq<char>>,
    n: int,
)
    requires
        is_build(b, dest, tasks, events, actions),
        !events.contains(BuildEvent::Polled { cancelled: true }),
        address == (if b.config.enable_websocket {
            b.address(dest)
        } else {
            None
        }),
        0 <= n <= events.len(),
    ensures
        match tasks[n].phase {
            BuildPhase::Start => n == 0 && tasks[n].connections@.len() == 0,
            BuildPhase::BeforeWebSocket => b.config.enable_websocket
                && tasks[n].connections@.len() == 0 && !was_made(events, n),
            BuildPhase::Encoding { url } => address == Some(url@) && tasks[n].connections@.len()
                == 0 && !was_made(events, n),
            BuildPhase::BeforeWebRtc | BuildPhase::BeforeCreate | BuildPhase::Creating => {
                !was_made(events, n) && holds_both(
                    tasks[n].connections@,
                    address,
                    b.config.local_id_hex@,
                    false,
                )
            },
            BuildPhase::Created { .. } => was_made(events, n) && holds_both(
                tasks[n].connections@,
                address,
                b.config.local_id_hex@,
                false,
            ),
            BuildPhase::Closing => false,
            BuildPhase::Finished => actions[n] matches BuildAction::Finish(Ok(v)) && holds_both(
                v@,
                address,
                b.config.local_id_hex@,
                was_made(events, n),
            ),
        },
        actions[n] is Finish ==> tasks[n].phase is Finished,
    decreases n,
{
    if n > 0 {
        lemma_build_so_far(b, dest, tasks, events, actions, address, n - 1);
        let event = events[n - 1];
        assert(events.contains(event));
        assert(b.built(dest, tasks[n - 1], event, tasks[n - 1 + 1], actions[n - 1 + 1]));
        if event matches BuildEvent::Attempted { connection: Some(_) } {
            assert(was_made(events, n));
        } else {
            assert(was_made(events, n) == was_made(events, n - 1)) by {
                if was_made(events, n) {
                    let k = choose|k: int|
                        0 <= k < n && ((#[trigger] events[k]) matches BuildEvent::Attempted {
                            connection: Some(_),
                        });
                    assert(k < n - 1);
                }
            }
        }
    }
}

/// A build that is never cancelled ends well, with the web socket to the destination's address
/// if web sockets are enabled and it is known, and then the peer-to-peer connection if one was
/// made, whatever became of anything else.
pub proof fn a_build_ends_with_every_connection(
    b: DefaultWireBuilder,
    dest: Dest,
    tasks: Seq<BuildTask>,
    events: Seq<BuildEvent>,
    actions: Seq<BuildAction>,
    known: Option<String>,
    r: NetworkResult<Vec<WireHandle>>,
)
    requires
        is_build(b, dest, tasks, events, actions),
        !events.contains(BuildEvent::Polled { cancelled: true }),
        actions.last() == BuildAction::Finish(r),
        call_ensures(DefaultWireBuilder::resolve_websocket_url, (&b, &dest), known),
    ensures
        r matches Ok(v) && holds_both(
            v@,
            if b.config.enable_websocket && known is Some {
                Some(known->0@)
            } else {
                None
            },
            b.config.local_id_hex@,
            was_made(events, events.len() as int),
        ),
{
    let address = if b.config.enable_websocket && known is Some {
        Some(known->0@)
    } else {
        None
    };
    lemma_build_so_far(b, dest, tasks, events, actions, address, events.len() as int);
}

/// The usual settings try everything, tell nothing and know no address.
pub proof fn the_usual_builder_tries_everything(
    c: DefaultWireBuilderConfig,
    id: ActrId,
    found: Option<String>,
)
    requires
        call_ensures(<DefaultWireBuilderConfig as Default>::default, (), c),
        call_ensures(AddressBook::get, (&c.discovered_ws_addresses, &id), found),
    ensures
        c.enable_webrtc && c.enable_websocket && !c.has_credential,
        c.local_id_hex@.len() == 0,
        found is None,
{
}

/// A builder has the coordinator and the settings that it was given.
pub proof fn a_builder_has_what_it_was_given(
    has_coordinator: bool,
    config: DefaultWireBuilderConfig,
    b: DefaultWireBuilder,
)
    requires
        call_ensures(DefaultWireBuilder::new, (has_coordinator, config), b),
    ensures
        b.has_coordinator <==> has_coordinator,
        b.config == config,
{
}

}

//! Inbound web socket connections: who is let in, and where messages go.
use crate::ais_key_cache;
use crate::ais_key_cache::VerifyingKey;
use crate::clock::current_unix_secs;
use crate::error::NetworkResult;
use crate::protocol::{
    AIdCredential, ActorResult, ActrError, ActrId, IdentityClaims, PayloadType, RpcEnvelope,
};
use crate::text;
use crate::text::{push_decimal, same};
use vstd::hash_map::StringHashMap;
use vstd::prelude::*;
use vstd::string::StringExecFns;

verus! {

/// How soon a message is handled.
#[derive(Debug, Clone, Copy, PartialEq, Eq, Structural)]
pub enum MessagePriority {
    Normal,
    High,
}

/// Where an envelope goes.
#[derive(Debug)]
pub enum EnvelopeRoute {
    /// It answers a request: whoever waits gets this result.
    Resolve { waiter: u64, result: ActorResult<bytes::Bytes> },
    /// It is a request: it is put into the mailbox.
    Enqueue { from: Vec<u8>, data: bytes::Bytes, priority: MessagePriority },
}

/// What is done with an inbound connection.
#[derive(Debug, Clone, Copy, PartialEq, Eq, Structural)]
pub enum Admission {
    /// Its credential is verified; see [`WebSocketGate::verify_credential`].
    Verify,
    /// It is dropped.
    Reject,
}

/// What happened in the receive loop.
#[derive(Debug)]
pub enum LoopEvent {
    /// A connection came, with a credential or without.
    Arrived { has_credential: bool },
    /// Its credential was verified, and proves this identity, if any.
    Judged { identity: Option<String> },
    /// The connection's readers were started, or it was dropped.
    Handled,
    /// No connection comes any more.
    Closed,
}

/// What the receive loop does next.
#[derive(Debug, Clone, Copy, PartialEq, Eq, Structural)]
pub enum LoopAction {
    /// Take the next connection.
    Receive,
    /// Verify the connection's credential; see [`WebSocketGate::verify_credential`].
    Verify,
    /// Start a reader for each of the connection's [`reader_lanes`].
    StartReaders,
    /// Drop the connection.
    Drop,
    /// End.
    Stop,
}

/// What a lane's reader does with what the lane gave.
#[derive(Debug)]
pub enum ReadAction {
    /// Decode the message as an envelope; see [`WebSocketGate::envelope_read`].
    DecodeEnvelope { data: bytes::Bytes },
    /// Decode the message as a stream chunk; see [`stream_read`].
    DecodeStream { data: bytes::Bytes },
    /// Nothing.
    Ignore,
    /// The reader ends.
    Stop,
}

/// What is done with a stream chunk.
#[derive(Debug)]
pub enum StreamAction {
    /// It is dispatched under its sender.
    Dispatch { sender: ActrId },
    /// It is dropped.
    Drop,
}

/// The payload types that every connection has a reader for, in order.
pub open spec fn reader_lanes_spec() -> Seq<PayloadType> {
    seq![
        PayloadType::RpcReliable,
        PayloadType::RpcSignal,
        PayloadType::StreamReliable,
        PayloadType::StreamLatencyFirst,
    ]
}

/// The payload types that every connection has a reader for, in order.
pub fn reader_lanes() -> (v: Vec<PayloadType>)
    ensures
        v@ == reader_lanes_spec(),
{
    let mut v: Vec<PayloadType> = Vec::new();
    v.push(PayloadType::RpcReliable);
    v.push(PayloadType::RpcSignal);
    v.push(PayloadType::StreamReliable);
    v.push(PayloadType::StreamLatencyFirst);
    assert(v@ =~= reader_lanes_spec());
    v
}

/// Takes what a lane gave: calls are decoded as envelopes, streams as chunks, and a
/// lane that fails ends its reader.
pub fn read_step(payload_type: PayloadType, item: NetworkResult<bytes::Bytes>) -> (a: ReadAction)
    ensures
        match item {
            Err(_) => a is Stop,
            Ok(data) => match payload_type {
                PayloadType::RpcReliable | PayloadType::RpcSignal => a == (
                ReadAction::DecodeEnvelope { data }),
                PayloadType::StreamReliable | PayloadType::StreamLatencyFirst => a == (
                ReadAction::DecodeStream { data }),
                PayloadType::MediaRtp => a is Ignore,
            },
        },
{
    match item {
        Err(_) => ReadAction::Stop,
        Ok(data) => match payload_type {
            PayloadType::RpcReliable | PayloadType::RpcSignal => ReadAction::DecodeEnvelope { data },
            PayloadType::StreamReliable | PayloadType::StreamLatencyFirst => {
                ReadAction::DecodeStream { data }
            },
            PayloadType::MediaRtp => ReadAction::Ignore,
        },
    }
}

/// Takes whether a message decoded as a stream chunk, and the sender that its
/// connection's source id decodes to, if it does.
pub fn stream_read(chunk_decoded: bool, sender: Option<ActrId>) -> (a: StreamAction)
    ensures
        match sender {
            Some(sender) if chunk_decoded => a == (StreamAction::Dispatch { sender }),
            _ => a is Drop,
        },
{
    match sender {
        Some(sender) => if chunk_decoded {
            StreamAction::Dispatch { sender }
        } else {
            StreamAction::Drop
        },
        None => StreamAction::Drop,
    }
}

/// The result that a reply gives to whoever waits: its payload, or its error, but not
/// both or neither.
pub open spec fn is_reply_result(envelope: RpcEnvelope, r: ActorResult<bytes::Bytes>) -> bool {
    match (envelope.payload, envelope.error) {
        (Some(payload), None) => r == Ok::<bytes::Bytes, ActrError>(payload),
        (None, Some(error)) => r matches Err(ActrError::Unavailable(m)) && m@ == "RPC error "@
            + text::decimal(error.code as nat) + ": "@ + error.message@,
        _ => r matches Err(ActrError::DecodeFailure(m)) && m@
            == "Invalid RpcEnvelope: payload and error fields inconsistent"@,
    }
}

fn reply_result(envelope: RpcEnvelope) -> (r: ActorResult<bytes::Bytes>)
    ensures
        is_reply_result(envelope, r),
{
    match (envelope.payload, envelope.error) {
        (Some(payload), None) => Ok(payload),
        (None, Some(error)) => {
            let mut m = "RPC error ".to_owned();
            push_decimal(&mut m, error.code as u64);
            m.append(": ");
            m.append(error.message.as_str());
            Err(ActrError::Unavailable(m))
        },
        _ => Err(
            ActrError::DecodeFailure(
                "Invalid RpcEnvelope: payload and error fields inconsistent".to_owned(),
            ),
        ),
    }
}

/// The priority of a request: control messages go first.
pub open spec fn priority_of(payload_type: PayloadType) -> MessagePriority {
    if payload_type is RpcSignal {
        MessagePriority::High
    } else {
        MessagePriority::Normal
    }
}

/// Where an envelope goes, and who is waited for afterwards.
pub open spec fn routed(
    before: Map<Seq<char>, u64>,
    envelope: RpcEnvelope,
    from: Vec<u8>,
    data: bytes::Bytes,
    payload_type: PayloadType,
    after: Map<Seq<char>, u64>,
    route: EnvelopeRoute,
) -> bool {
    let id = envelope.request_id@;
    if before.contains_key(id) {
        &&& after == before.remove(id)
        &&& route matches EnvelopeRoute::Resolve { waiter, result }
        &&& waiter == before[id]
        &&& is_reply_result(envelope, result)
    } else {
        &&& after == before
        &&& route == (EnvelopeRoute::Enqueue { from, data, priority: priority_of(payload_type) })
    }
}

/// Lets inbound connections in, and knows who waits for a reply.
pub struct WebSocketGate {
    /// The receive loop has been started.
    pub started: bool,
    /// There are keys to verify credentials with.
    pub auth_configured: bool,
    /// Who waits for the reply to a request, by request id.
    pub pending_requests: StringHashMap<u64>,
}

/// A credential is good at `now`: its key is known, its signature is accepted, its
/// claims can be read and have not expired, and they name the actor that connects.
pub open spec fn credential_good(
    key: Option<Seq<u8>>,
    credential: AIdCredential,
    claims: Option<IdentityClaims>,
    source: Option<Seq<char>>,
    now: u64,
) -> bool {
    &&& key matches Some(key)
    &&& ais_key_cache::accepts(key, credential.claims@, credential.signature@)
    &&& claims matches Some(claims)
    &&& claims.expires_at > now
    &&& source matches Some(source)
    &&& claims.actor_id@ == source
}

/// The identity that a credential proves at `now`, if it is good.
pub open spec fn verified(
    key: Option<Seq<u8>>,
    credential: AIdCredential,
    claims: Option<IdentityClaims>,
    source: Option<Seq<char>>,
    now: u64,
) -> Option<Seq<char>> {
    if credential_good(key, credential, claims, source, now) {
        source
    } else {
        None
    }
}

/// The view of an optional key.
pub open spec fn key_view(key: Option<VerifyingKey>) -> Option<Seq<u8>> {
    match key {
        Some(key) => Some(key@),
        None => None,
    }
}

/// The view of an optional text.
pub open spec fn text_view(s: Option<String>) -> Option<Seq<char>> {
    match s {
        Some(s) => Some(s@),
        None => None,
    }
}

impl WebSocketGate {
    /// One that has not been started and that nobody waits at.
    pub fn new(auth_configured: bool) -> (g: Self)
        ensures
            !g.started,
            g.auth_configured == auth_configured,
            g.pending_requests@ == Map::<Seq<char>, u64>::empty(),
    {
        WebSocketGate { started: false, auth_configured, pending_requests: StringHashMap::new() }
    }

    /// Registers who waits for the reply to a request.
    pub fn await_reply(&mut self, request_id: String, waiter: u64)
        ensures
            *final(self) == (WebSocketGate {
                pending_requests: final(self).pending_requests,
                ..*old(self)
            }),
            final(self).pending_requests@ == old(self).pending_requests@.insert(
                request_id@,
                waiter,
            ),
    {
        self.pending_requests.insert(request_id, waiter);
    }

    /// Routes an envelope: a reply goes to whoever waits for it, who is then forgotten;
    /// anything else is a request and goes to the mailbox.
    pub fn handle_envelope(
        &mut self,
        envelope: RpcEnvelope,
        from: Vec<u8>,
        data: bytes::Bytes,
        payload_type: PayloadType,
    ) -> (route: EnvelopeRoute)
        ensures
            *final(self) == (WebSocketGate {
                pending_requests: final(self).pending_requests,
                ..*old(self)
            }),
            routed(
                old(self).pending_requests@,
                envelope,
                from,
                data,
                payload_type,
                final(self).pending_requests@,
                route,
            ),
    {
        let waiter: Option<u64> = match self.pending_requests.get(envelope.request_id.as_str()) {
            Some(w) => Some(*w),
            None => None,
        };
        match waiter {
            Some(waiter) => {
                self.pending_requests.remove(envelope.request_id.as_str());
                EnvelopeRoute::Resolve { waiter, result: reply_result(envelope) }
            },
            None => {
                let priority = match payload_type {
                    PayloadType::RpcSignal => MessagePriority::High,
                    _ => MessagePriority::Normal,
                };
                EnvelopeRoute::Enqueue { from, data, priority }
            },
        }
    }

    /// Routes the envelope that a message decodes to, if it does.
    pub fn envelope_read(
        &mut self,
        decoded: Option<RpcEnvelope>,
        from: Vec<u8>,
        data: bytes::Bytes,
        payload_type: PayloadType,
    ) -> (r: Option<EnvelopeRoute>)
        ensures
            match decoded {
                None => r is None && *final(self) == *old(self),
                Some(envelope) => {
                    &&& *final(self) == (WebSocketGate {
                        pending_requests: final(self).pending_requests,
                        ..*old(self)
                    })
                    &&& r matches Some(route)
                    &&& routed(
                        old(self).pending_requests@,
                        envelope,
                        from,
                        data,
                        payload_type,
                        final(self).pending_requests@,
                        route,
                    )
                },
            },
    {
        match decoded {
            Some(envelope) => Some(self.handle_envelope(envelope, from, data, payload_type)),
            None => None,
        }
    }

    /// Verifies a credential at a given time. `key` is the key of its key id, `claims`
    /// what its claims decode to, and `source` the text form of the identity that the
    /// connection names, each if there is one. The result is the verified identity.
    pub fn verify_credential_at(
        key: &Option<VerifyingKey>,
        credential: &AIdCredential,
        claims: &Option<IdentityClaims>,
        source: &Option<String>,
        now: u64,
    ) -> (r: Option<String>)
        ensures
            text_view(r) == verified(key_view(*key), *credential, *claims, text_view(*source), now),
    {
        let key = match key {
            Some(key) => key,
            None => {
                return None;
            },
        };
        if !key.verify(credential.claims.as_slice(), credential.signature.as_slice()) {
            return None;
        }
        let claims = match claims {
            Some(claims) => claims,
            None => {
                return None;
            },
        };
        if claims.expires_at <= now {
            return None;
        }
        match source {
            Some(source) => if same(claims.actor_id.as_str(), source.as_str()) {
                Some(claims.actor_id.clone())
            } else {
                None
            },
            None => None,
        }
    }

    /// Verifies a credential at the present time. The result is the verified identity.
    pub fn verify_credential(
        key: &Option<VerifyingKey>,
        credential: &AIdCredential,
        claims: &Option<IdentityClaims>,
        source: &Option<String>,
    ) -> (r: Option<String>)
        ensures
            exists|now: u64|
                text_view(r) == #[trigger] verified(
                    key_view(*key),
                    *credential,
                    *claims,
                    text_view(*source),
                    now,
                ),
    {
        let now: u64 = current_unix_secs();
        Self::verify_credential_at(key, credential, claims, source, now)
    }

    /// Starts the receive loop. That happens once.
    pub fn start_receive_loop(&mut self) -> (r: ActorResult<()>)
        ensures
            starts(*old(self), *final(self), r),
    {
        if self.started {
            return Err(
                ActrError::Internal(
                    "WebSocketGate: start_receive_loop already called".to_owned(),
                ),
            );
        }
        self.started = true;
        Ok(())
    }

    /// What is done with an inbound connection: without a credential, or without keys
    /// to verify it with, it is dropped.
    pub fn admission(&self, has_credential: bool) -> (a: Admission)
        ensures
            a is Verify <==> self.auth_configured && has_credential,
    {
        if self.auth_configured && has_credential {
            Admission::Verify
        } else {
            Admission::Reject
        }
    }

    /// What the receive loop does next: see [`WebSocketGate::loop_step`].
    pub open spec fn next_action(&self, event: LoopEvent) -> LoopAction {
        match event {
            LoopEvent::Arrived { has_credential } => if self.auth_configured && has_credential {
                LoopAction::Verify
            } else {
                LoopAction::Drop
            },
            LoopEvent::Judged { identity } => if identity is Some {
                LoopAction::StartReaders
            } else {
                LoopAction::Drop
            },
            LoopEvent::Handled => LoopAction::Receive,
            LoopEvent::Closed => LoopAction::Stop,
        }
    }

    /// Takes an event of the receive loop and says what to do next.
    ///
    /// A connection whose credential proves an identity gets its readers; any other is
    /// dropped. Either way the next connection follows.
    pub fn loop_step(&self, event: LoopEvent) -> (a: LoopAction)
        ensures
            a == self.next_action(event),
    {
        match event {
            LoopEvent::Arrived { has_credential } => match self.admission(has_credential) {
                Admission::Verify => LoopAction::Verify,
                Admission::Reject => LoopAction::Drop,
            },
            LoopEvent::Judged { identity } => if identity.is_some() {
                LoopAction::StartReaders
            } else {
                LoopAction::Drop
            },
            LoopEvent::Handled => LoopAction::Receive,
            LoopEvent::Closed => LoopAction::Stop,
        }
    }
}

/// What a call that starts the receive loop does.
pub open spec fn starts(before: WebSocketGate, after: WebSocketGate, r: ActorResult<()>) -> bool {
    &&& after == (WebSocketGate { started: true, ..before })
    &&& if before.started {
        r matches Err(ActrError::Internal(m)) && m@
            == "WebSocketGate: start_receive_loop already called"@
    } else {
        r is Ok
    }
}

// ── Laws ──────────────────────────────────────────────────────────────────────

/// A reply resolves its request and leaves no trace of it; another envelope under the
/// same id is a request again.
pub proof fn a_reply_resolves_once(
    before: Map<Seq<char>, u64>,
    envelope: RpcEnvelope,
    from: Vec<u8>,
    data: bytes::Bytes,
    payload_type: PayloadType,
    after: Map<Seq<char>, u64>,
    route: EnvelopeRoute,
)
    requires
        before.contains_key(envelope.request_id@),
        routed(before, envelope, from, data, payload_type, after, route),
    ensures
        route is Resolve,
        !after.contains_key(envelope.request_id@),
        forall|id: Seq<char>|
            id != envelope.request_id@ ==> #[trigger] after.contains_key(id) == before.contains_key(
                id,
            ),
{
}

/// A credential that is good stays good until it expires, and is not good from then on.
pub proof fn a_credential_is_good_until_it_expires(
    key: Option<Seq<u8>>,
    credential: AIdCredential,
    claims: IdentityClaims,
    source: Option<Seq<char>>,
    now: u64,
    later: u64,
)
    requires
        credential_good(key, credential, Some(claims), source, now),
    ensures
        credential_good(key, credential, Some(claims), source, later) == (later
            < claims.expires_at),
{
}

/// Nobody is let in under an identity that is not their own: a verified identity is the one
/// that the connection names, and the one that the signed claims name.
pub proof fn a_verified_identity_is_ones_own(
    key: Option<Seq<u8>>,
    credential: AIdCredential,
    claims: Option<IdentityClaims>,
    source: Option<Seq<char>>,
    now: u64,
    id: Seq<char>,
)
    requires
        verified(key, credential, claims, source, now) == Some(id),
    ensures
        source == Some(id),
        claims matches Some(c) && c.actor_id@ == id,
        key matches Some(k) && ais_key_cache::accepts(
            k,
            credential.claims@,
            credential.signature@,
        ),
{
}

/// A connection gets its readers exactly if there are keys to verify credentials with and
/// it carries a credential that is good. Any other connection is dropped, and in either
/// case the loop goes on to the next.
pub proof fn readers_start_exactly_for_verified_connections(
    gate: WebSocketGate,
    credential: Option<AIdCredential>,
    key: Option<Seq<u8>>,
    claims: Option<IdentityClaims>,
    source: Option<Seq<char>>,
    now: u64,
    identity: Option<String>,
)
    requires
        credential matches Some(c) ==> text_view(identity) == verified(key, c, claims, source, now),
    ensures
        ({
            let first = gate.next_action(
                LoopEvent::Arrived { has_credential: credential is Some },
            );
            let second = gate.next_action(LoopEvent::Judged { identity });
            let read = first is Verify && second is StartReaders;
            &&& read <==> gate.auth_configured && (credential matches Some(c) && credential_good(
                key,
                c,
                claims,
                source,
                now,
            ))
            &&& !read ==> first is Drop || (first is Verify && second is Drop)
            &&& gate.next_action(LoopEvent::Handled) is Receive
        }),
{
}

/// Of the calls that start the receive loop the first succeeds, and every later one is
/// refused.
pub proof fn the_receive_loop_starts_once(
    gates: Seq<WebSocketGate>,
    results: Seq<ActorResult<()>>,
    k: int,
)
    requires
        gates.len() == results.len() + 1,
        !gates[0].started,
        forall|i: int| 0 <= i < results.len() ==> starts(gates[i], #[trigger] gates[i + 1], results[i]),
        0 <= k < results.len(),
    ensures
        results[k] is Ok <==> k == 0,
        results[k] is Err ==> results[k]->Err_0 is Internal,
    decreases k,
{
    assert(starts(gates[k], gates[k + 1], results[k]));
    if k > 0 {
        the_receive_loop_starts_once(gates, results, k - 1);
        assert(starts(gates[k - 1], gates[k - 1 + 1], results[k - 1]));
    }
}

/// Every connection has a reader for each payload type that travels on lanes, once; media has
/// none.
pub proof fn every_lane_has_one_reader(v: Vec<PayloadType>, payload_type: PayloadType, i: int, j: int)
    requires
        call_ensures(reader_lanes, (), v),
        0 <= i < v@.len(),
        0 <= j < v@.len(),
    ensures
        v@.contains(payload_type) <==> !(payload_type is MediaRtp),
        v@[i] == v@[j] ==> i == j,
{
    assert(v@[0] is RpcReliable && v@[1] is RpcSignal && v@[2] is StreamReliable && v@[3]
        is StreamLatencyFirst);
}

/// What arrives on a lane for calls is decoded as an envelope, and what arrives on one for
/// streams as a chunk, as it came; only a lane that fails ends its reader.
pub proof fn a_message_is_decoded_as_its_lane_asks(
    payload_type: PayloadType,
    item: NetworkResult<bytes::Bytes>,
    a: ReadAction,
)
    requires
        call_ensures(read_step, (payload_type, item), a),
    ensures
        a is Stop <==> item is Err,
        a is DecodeEnvelope <==> item is Ok && (payload_type is RpcReliable || payload_type
            is RpcSignal),
        a is DecodeStream <==> item is Ok && (payload_type is StreamReliable || payload_type
            is StreamLatencyFirst),
        a matches ReadAction::DecodeEnvelope { data } ==> item == Ok::<
            bytes::Bytes,
            crate::error::NetworkError,
        >(data),
        a matches ReadAction::DecodeStream { data } ==> item == Ok::<
            bytes::Bytes,
            crate::error::NetworkError,
        >(data),
{
}

/// A chunk is dispatched under its sender exactly if it can be decoded and its sender is known.
pub proof fn a_chunk_needs_a_sender(decoded: bool, sender: Option<ActrId>, a: StreamAction)
    requires
        call_ensures(stream_read, (decoded, sender), a),
    ensures
        a is Drop <==> !decoded || sender is None,
        a matches StreamAction::Dispatch { sender: s } ==> sender == Some(s),
{
}

/// An envelope that somebody waits for is theirs, once; any other goes to the mailbox as it
/// came. Control messages go before all others.
pub proof fn an_envelope_goes_to_its_waiter_or_the_mailbox(
    g: &mut WebSocketGate,
    envelope: RpcEnvelope,
    from: Vec<u8>,
    data: bytes::Bytes,
    payload_type: PayloadType,
    route: EnvelopeRoute,
    id: Seq<char>,
)
    requires
        call_ensures(
            WebSocketGate::handle_envelope,
            (g, envelope, from, data, payload_type),
            route,
        ),
    ensures
        route is Resolve <==> old(g).pending_requests@.contains_key(envelope.request_id@),
        route matches EnvelopeRoute::Resolve { waiter, .. } ==> waiter
            == old(g).pending_requests@[envelope.request_id@],
        route matches EnvelopeRoute::Enqueue { from: f, data: d, priority } ==> f == from && d
            == data && (priority is High <==> payload_type is RpcSignal),
        !final(g).pending_requests@.contains_key(envelope.request_id@),
        id != envelope.request_id@ ==> (final(g).pending_requests@.contains_key(id)
            <==> old(g).pending_requests@.contains_key(id)) && (old(
            g,
        ).pending_requests@.contains_key(id) ==> final(g).pending_requests@[id]
            == old(g).pending_requests@[id]),
        final(g).started == old(g).started,
        final(g).auth_configured == old(g).auth_configured,
{
}

/// Whoever waits gets the payload of a reply that has one and no error, and an error otherwise:
/// the other end's where it sent one alone, with its code and its words.
pub proof fn a_reply_is_its_payload_or_its_error(
    g: &mut WebSocketGate,
    envelope: RpcEnvelope,
    from: Vec<u8>,
    data: bytes::Bytes,
    payload_type: PayloadType,
    route: EnvelopeRoute,
)
    requires
        call_ensures(
            WebSocketGate::handle_envelope,
            (g, envelope, from, data, payload_type),
            route,
        ),
        old(g).pending_requests@.contains_key(envelope.request_id@),
    ensures
        route matches EnvelopeRoute::Resolve { result, .. } && {
            &&& result is Ok <==> envelope.payload is Some && envelope.error is None
            &&& result is Ok ==> result->Ok_0 == envelope.payload->0
            &&& envelope.payload is None && envelope.error is Some ==> (result matches Err(
                ActrError::Unavailable(m),
            ) && m@ == "RPC error "@ + text::decimal(envelope.error->0.code as nat) + ": "@
                + envelope.error->0.message@)
            &&& (envelope.payload is Some <==> envelope.error is Some) ==> (result matches Err(
                ActrError::DecodeFailure(m),
            ) && m@ == "Invalid RpcEnvelope: payload and error fields inconsistent"@)
        },
{
}

/// A message that decodes to no envelope goes nowhere and changes nothing; one that does is
/// routed as that envelope is.
pub proof fn only_envelopes_are_routed(
    g: &mut WebSocketGate,
    h: &mut WebSocketGate,
    decoded: Option<RpcEnvelope>,
    from: Vec<u8>,
    data: bytes::Bytes,
    payload_type: PayloadType,
    r: Option<EnvelopeRoute>,
    route: EnvelopeRoute,
)
    requires
        *old(g) == *old(h),
        call_ensures(WebSocketGate::envelope_read, (g, decoded, from, data, payload_type), r),
        decoded matches Some(envelope) ==> call_ensures(
            WebSocketGate::handle_envelope,
            (h, envelope, from, data, payload_type),
            route,
        ),
    ensures
        r is None <==> decoded is None,
        decoded is None ==> *final(g) == *old(g),
        decoded is Some ==> {
            &&& final(g).pending_requests@ == final(h).pending_requests@
            &&& r->0 is Resolve <==> route is Resolve
            &&& r->0 is Enqueue ==> r->0 == route
            &&& r->0 matches EnvelopeRoute::Resolve { waiter, result } ==> waiter == route->waiter
                && (result is Ok <==> route->result is Ok) && (result is Ok ==> result
                == route->result)
            &&& r->0 matches EnvelopeRoute::Resolve { result: Err(e), .. } ==> {
                let other = route->result->Err_0;
                &&& e is Unavailable <==> other is Unavailable
                &&& e is DecodeFailure <==> other is DecodeFailure
                &&& e is Unavailable ==> e->Unavailable_0@ == other->Unavailable_0@
                &&& e is DecodeFailure ==> e->DecodeFailure_0@ == other->DecodeFailure_0@
                &&& e is Unavailable || e is DecodeFailure
            }
        },
        final(g).started == old(g).started,
        final(g).auth_configured == old(g).auth_configured,
{
}

/// Whoever waits for the reply to a request gets it.
pub proof fn an_awaited_reply_arrives(
    g: &mut WebSocketGate,
    h: &mut WebSocketGate,
    request_id: String,
    waiter: u64,
    envelope: RpcEnvelope,
    from: Vec<u8>,
    data: bytes::Bytes,
    payload_type: PayloadType,
    route: EnvelopeRoute,
)
    requires
        call_ensures(WebSocketGate::await_reply, (g, request_id, waiter), ()),
        *old(h) == *final(g),
        envelope.request_id@ == request_id@,
        call_ensures(
            WebSocketGate::handle_envelope,
            (h, envelope, from, data, payload_type),
            route,
        ),
    ensures
        route matches EnvelopeRoute::Resolve { waiter: w, .. } && w == waiter,
        final(g).started == old(g).started,
        final(g).auth_configured == old(g).auth_configured,
{
}

/// A credential proves the identity that the connection names, exactly if its key is known and
/// accepts it, its claims can be read, name that identity, and have not expired. Nothing else
/// is ever proved.
pub proof fn a_credential_proves_who_connects(
    key: Option<VerifyingKey>,
    credential: AIdCredential,
    claims: Option<IdentityClaims>,
    source: Option<String>,
    now: u64,
    r: Option<String>,
    message: &[u8],
    signature: &[u8],
    accepted: bool,
)
    requires
        call_ensures(
            WebSocketGate::verify_credential_at,
            (&key, &credential, &claims, &source, now),
            r,
        ),
        message@ == credential.claims@,
        signature@ == credential.signature@,
        key matches Some(k) ==> call_ensures(VerifyingKey::verify, (&k, message, signature), accepted),
    ensures
        r is Some <==> {
            &&& key is Some && accepted
            &&& claims is Some && now < claims->0.expires_at
            &&& source is Some && source->0@ == claims->0.actor_id@
        },
        r matches Some(id) ==> id@ == source->0@,
{
}

/// At the present time too, an identity is proved only by a key that is known and claims that
/// name it; and without any of those nothing is proved.
pub proof fn nothing_is_proved_without_key_and_claims(
    key: Option<VerifyingKey>,
    credential: AIdCredential,
    claims: Option<IdentityClaims>,
    source: Option<String>,
    r: Option<String>,
    message: &[u8],
    signature: &[u8],
    accepted: bool,
)
    requires
        call_ensures(WebSocketGate::verify_credential, (&key, &credential, &claims, &source), r),
        message@ == credential.claims@,
        signature@ == credential.signature@,
        key matches Some(k) ==> call_ensures(VerifyingKey::verify, (&k, message, signature), accepted),
    ensures
        r matches Some(id) ==> {
            &&& key is Some && accepted
            &&& claims is Some && claims->0.actor_id@ == id@ && claims->0.expires_at > 0
            &&& source is Some && source->0@ == id@
        },
{
}

/// The loop starts once: a second call is refused, and changes nothing.
pub proof fn starting_again_is_refused(
    g: &mut WebSocketGate,
    h: &mut WebSocketGate,
    fresh: WebSocketGate,
    auth: bool,
    first: ActorResult<()>,
    second: ActorResult<()>,
)
    requires
        call_ensures(WebSocketGate::new, (auth,), fresh),
        *old(g) == fresh,
        call_ensures(WebSocketGate::start_receive_loop, (g,), first),
        *old(h) == *final(g),
        call_ensures(WebSocketGate::start_receive_loop, (h,), second),
    ensures
        first is Ok,
        second matches Err(ActrError::Internal(m)) && m@
            == "WebSocketGate: start_receive_loop already called"@,
        *final(h) == *final(g),
        final(g).auth_configured == auth,
        final(g).pending_requests@.len() == 0,
{
}

/// A connection is verified exactly if there are keys and it carries a credential, and read
/// exactly if that proves an identity; whatever becomes of it, the next one follows, until there
/// are no more.
pub proof fn only_proven_connections_are_read(
    g: WebSocketGate,
    has_credential: bool,
    identity: Option<String>,
    arrived: LoopAction,
    judged: LoopAction,
    handled: LoopAction,
    closed: LoopAction,
    admitted: Admission,
)
    requires
        call_ensures(WebSocketGate::loop_step, (&g, LoopEvent::Arrived { has_credential }), arrived),
        call_ensures(WebSocketGate::loop_step, (&g, LoopEvent::Judged { identity }), judged),
        call_ensures(WebSocketGate::loop_step, (&g, LoopEvent::Handled), handled),
        call_ensures(WebSocketGate::loop_step, (&g, LoopEvent::Closed), closed),
        call_ensures(WebSocketGate::admission, (&g, has_credential), admitted),
    ensures
        admitted is Verify <==> g.auth_configured && has_credential,
        arrived is Verify <==> admitted is Verify,
        arrived is Drop <==> admitted is Reject,
        judged is StartReaders <==> identity is Some,
        judged is Drop <==> identity is None,
        handled is Receive,
        closed is Stop,
{
}

}

//! The requests that the client makes of the signaling server.
use crate::error::{NetworkError, NetworkResult};
use crate::protocol::{AIdCredential, ActrId};
use crate::text;
use crate::wire::webrtc::envelope::{
    ActrRequest, Flow, Ping, SignalingEnvelope, UnregisterResponse,
};
use crate::wire::webrtc::signaling;
use crate::wire::webrtc::signaling::WebSocketSignalingClient;
use vstd::prelude::*;

verus! {

/// The envelope is the client's next one and carries this flow.
pub open spec fn is_next_envelope(
    before: WebSocketSignalingClient,
    flow: Flow,
    after: WebSocketSignalingClient,
    e: SignalingEnvelope,
) -> bool {
    &&& e.envelope_version == 1
    &&& e.envelope_id@ == signaling::envelope_id((before.envelope_counter + 1) as nat)
    &&& e.reply_for is None
    &&& e.timestamp_nanos == 0
    &&& e.traceparent is None
    &&& e.tracestate is None
    &&& e.flow == flow
    &&& after == (WebSocketSignalingClient {
        envelope_counter: (before.envelope_counter + 1) as u64,
        ..before
    })
}

/// The flow is a registered actor's request.
pub open spec fn from_actor(source: ActrId, credential: AIdCredential, request: ActrRequest) -> Flow {
    Flow::ActrToServer { source, credential, request }
}

impl WebSocketSignalingClient {
    /// A request to register, sent before the actor has an identity.
    pub fn register_request(&mut self, register_request: Vec<u8>) -> (e: SignalingEnvelope)
        requires
            old(self).envelope_counter < u64::MAX,
        ensures
            is_next_envelope(
                *old(self),
                Flow::PeerToServer { register_request },
                *final(self),
                e,
            ),
    {
        self.create_envelope(Flow::PeerToServer { register_request })
    }

    /// A notice that the actor leaves. No reply is waited for.
    pub fn unregister_request(
        &mut self,
        actor_id: ActrId,
        credential: AIdCredential,
        reason: Option<String>,
    ) -> (e: SignalingEnvelope)
        requires
            old(self).envelope_counter < u64::MAX,
        ensures
            is_next_envelope(
                *old(self),
                from_actor(
                    actor_id,
                    credential,
                    ActrRequest::Unregister { actr_id: actor_id, reason },
                ),
                *final(self),
                e,
            ),
    {
        let request = ActrRequest::Unregister { actr_id: actor_id.clone(), reason };
        self.create_envelope(Flow::ActrToServer { source: actor_id, credential, request })
    }

    /// The result of a notice that the actor leaves, given how sending it ended: once it is
    /// sent, it counts as a success.
    pub fn unregistered(sent: NetworkResult<()>) -> (r: NetworkResult<UnregisterResponse>)
        ensures
            r == match sent {
                Ok(_) => Ok::<UnregisterResponse, NetworkError>(UnregisterResponse::Success),
                Err(e) => Err(e),
            },
    {
        match sent {
            Ok(_) => Ok(UnregisterResponse::Success),
            Err(e) => Err(e),
        }
    }

    /// A sign of life.
    pub fn heartbeat(&mut self, actor_id: ActrId, credential: AIdCredential, ping: Ping) -> (e:
        SignalingEnvelope)
        requires
            old(self).envelope_counter < u64::MAX,
        ensures
            is_next_envelope(
                *old(self),
                from_actor(actor_id, credential, ActrRequest::Ping(ping)),
                *final(self),
                e,
            ),
    {
        let request = ActrRequest::Ping(ping);
        self.create_envelope(Flow::ActrToServer { source: actor_id, credential, request })
    }

    /// A request for the actors that a call could go to.
    pub fn route_candidates_request(
        &mut self,
        actor_id: ActrId,
        credential: AIdCredential,
        body: Vec<u8>,
    ) -> (e: SignalingEnvelope)
        requires
            old(self).envelope_counter < u64::MAX,
        ensures
            is_next_envelope(
                *old(self),
                from_actor(actor_id, credential, ActrRequest::RouteCandidates { body }),
                *final(self),
                e,
            ),
    {
        let request = ActrRequest::RouteCandidates { body };
        self.create_envelope(Flow::ActrToServer { source: actor_id, credential, request })
    }

    /// A request for the issuer's public key.
    pub fn signing_key_request(
        &mut self,
        actor_id: ActrId,
        credential: AIdCredential,
        key_id: u32,
    ) -> (e: SignalingEnvelope)
        requires
            old(self).envelope_counter < u64::MAX,
        ensures
            is_next_envelope(
                *old(self),
                from_actor(actor_id, credential, ActrRequest::GetSigningKey { key_id }),
                *final(self),
                e,
            ),
    {
        let request = ActrRequest::GetSigningKey { key_id };
        self.create_envelope(Flow::ActrToServer { source: actor_id, credential, request })
    }

    /// A request for a new credential before the present one expires.
    pub fn credential_update_request(&mut self, actor_id: ActrId, credential: AIdCredential) -> (e:
        SignalingEnvelope)
        requires
            old(self).envelope_counter < u64::MAX,
        ensures
            is_next_envelope(
                *old(self),
                from_actor(
                    actor_id,
                    credential,
                    ActrRequest::CredentialUpdate { actr_id: actor_id },
                ),
                *final(self),
                e,
            ),
    {
        let request = ActrRequest::CredentialUpdate { actr_id: actor_id.clone() };
        self.create_envelope(Flow::ActrToServer { source: actor_id, credential, request })
    }
}

// ── Laws ──────────────────────────────────────────────────────────────────────

/// A request of a registered actor is made in the name of that actor, with its credential, and
/// asks for what it is made for.
pub proof fn requests_are_made_in_the_actors_name(
    a: &mut WebSocketSignalingClient,
    b: &mut WebSocketSignalingClient,
    c: &mut WebSocketSignalingClient,
    d: &mut WebSocketSignalingClient,
    f: &mut WebSocketSignalingClient,
    actor_id: ActrId,
    credential: AIdCredential,
    reason: Option<String>,
    ping: Ping,
    body: Vec<u8>,
    key_id: u32,
    leave: SignalingEnvelope,
    beat: SignalingEnvelope,
    route: SignalingEnvelope,
    key: SignalingEnvelope,
    renew: SignalingEnvelope,
)
    requires
        old(a).envelope_counter < u64::MAX,
        old(b).envelope_counter < u64::MAX,
        old(c).envelope_counter < u64::MAX,
        old(d).envelope_counter < u64::MAX,
        old(f).envelope_counter < u64::MAX,
        call_ensures(
            WebSocketSignalingClient::unregister_request,
            (a, actor_id, credential, reason),
            leave,
        ),
        call_ensures(WebSocketSignalingClient::heartbeat, (b, actor_id, credential, ping), beat),
        call_ensures(
            WebSocketSignalingClient::route_candidates_request,
            (c, actor_id, credential, body),
            route,
        ),
        call_ensures(
            WebSocketSignalingClient::signing_key_request,
            (d, actor_id, credential, key_id),
            key,
        ),
        call_ensures(
            WebSocketSignalingClient::credential_update_request,
            (f, actor_id, credential),
            renew,
        ),
    ensures
        leave.flow matches Flow::ActrToServer { source, credential: k, request } && source
            == actor_id && k == credential && (request matches ActrRequest::Unregister {
            actr_id,
            reason: why,
        } && actr_id == actor_id && why == reason),
        beat.flow matches Flow::ActrToServer { source, credential: k, request } && source
            == actor_id && k == credential && request == ActrRequest::Ping(ping),
        route.flow matches Flow::ActrToServer { source, credential: k, request } && source
            == actor_id && k == credential && (request matches ActrRequest::RouteCandidates {
            body: asked,
        } && asked == body),
        key.flow matches Flow::ActrToServer { source, credential: k, request } && source
            == actor_id && k == credential && (request matches ActrRequest::GetSigningKey {
            key_id: asked,
        } && asked == key_id),
        renew.flow matches Flow::ActrToServer { source, credential: k, request } && source
            == actor_id && k == credential && (request matches ActrRequest::CredentialUpdate {
            actr_id,
        } && actr_id == actor_id),
{
}

/// The envelope bears the next number of a client, answers none, is neither dated nor traced yet,
/// and changes nothing but that number.
pub open spec fn bears_next_number(
    before: WebSocketSignalingClient,
    after: WebSocketSignalingClient,
    e: SignalingEnvelope,
) -> bool {
    &&& e.envelope_id@ == "env-"@ + text::decimal((before.envelope_counter + 1) as nat)
    &&& e.reply_for is None
    &&& e.envelope_version == 1
    &&& e.timestamp_nanos == 0
    &&& e.traceparent is None
    &&& e.tracestate is None
    &&& after.envelope_counter == before.envelope_counter + 1
    &&& before == (WebSocketSignalingClient {
        envelope_counter: before.envelope_counter,
        ..after
    })
}

/// Every request bears the next number, and nothing else of the client changes.
pub proof fn every_request_bears_the_next_number(
    c: &mut WebSocketSignalingClient,
    actor_id: ActrId,
    credential: AIdCredential,
    reason: Option<String>,
    ping: Ping,
    body: Vec<u8>,
    key_id: u32,
    e: SignalingEnvelope,
)
    requires
        old(c).envelope_counter < u64::MAX,
        call_ensures(WebSocketSignalingClient::register_request, (c, body), e) || call_ensures(
            WebSocketSignalingClient::unregister_request,
            (c, actor_id, credential, reason),
            e,
        ) || call_ensures(
            WebSocketSignalingClient::heartbeat,
            (c, actor_id, credential, ping),
            e,
        ) || call_ensures(
            WebSocketSignalingClient::route_candidates_request,
            (c, actor_id, credential, body),
            e,
        ) || call_ensures(
            WebSocketSignalingClient::signing_key_request,
            (c, actor_id, credential, key_id),
            e,
        ) || call_ensures(
            WebSocketSignalingClient::credential_update_request,
            (c, actor_id, credential),
            e,
        ),
    ensures
        bears_next_number(*old(c), *final(c), e),
{
}

/// A registration is asked for by a peer that is nobody yet, with the request as it stands. A
/// notice that the actor leaves succeeds exactly if it was sent.
pub proof fn one_registers_as_a_stranger_and_leaves_when_that_is_sent(
    c: &mut WebSocketSignalingClient,
    request: Vec<u8>,
    e: SignalingEnvelope,
    sent: NetworkResult<()>,
    r: NetworkResult<UnregisterResponse>,
)
    requires
        old(c).envelope_counter < u64::MAX,
        call_ensures(WebSocketSignalingClient::register_request, (c, request), e),
        call_ensures(WebSocketSignalingClient::unregistered, (sent,), r),
    ensures
        e.flow matches Flow::PeerToServer { register_request } && register_request == request,
        r is Ok <==> sent is Ok,
        r is Err ==> r->Err_0 == sent->Err_0,
{
}

}

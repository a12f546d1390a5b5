//! Messages exchanged with the signaling server, and how its replies are read.
//!
//! Message bodies that no rule here looks into are octets as they stand on the
//! wire; floating-point figures travel as their bit patterns.
use crate::error::{NetworkError, NetworkResult};
use crate::protocol::{AIdCredential, ActrId, ErrorResponse};
use crate::text;
use crate::text::{join, push_decimal};
use vstd::prelude::*;
use vstd::string::StringExecFns;

verus! {

/// The code of a reply that says that the credential has expired.
pub const CODE_CREDENTIAL_EXPIRED: u32 = 401;

/// The version of every envelope.
pub const ENVELOPE_VERSION: u32 = 1;

/// A sign of life, with the actor's load.
#[derive(Debug, Clone, Copy, PartialEq, Eq, Structural)]
pub struct Ping {
    pub availability: i32,
    pub power_reserve_bits: u32,
    pub mailbox_backlog_bits: u32,
}

/// The reply to a sign of life.
#[derive(Debug, Clone)]
pub struct Pong {
    pub body: Vec<u8>,
}

/// The reply to a registration or a credential update.
#[derive(Debug, Clone)]
pub struct RegisterResponse {
    pub body: Vec<u8>,
}

/// How a notice that the actor leaves ended.
#[derive(Debug, Clone, Copy, PartialEq, Eq, Structural)]
pub enum UnregisterResponse {
    Success,
}

/// The reply to a request for route candidates.
#[derive(Debug, Clone)]
pub struct RouteCandidatesResponse {
    pub body: Vec<u8>,
}

/// The reply to a request for a signing key.
#[derive(Debug, Clone)]
pub struct SigningKeyResponse {
    pub key_id: u32,
    pub pubkey: Vec<u8>,
}

/// What an actor asks of the server.
#[derive(Debug, Clone)]
pub enum ActrRequest {
    Ping(Ping),
    Unregister { actr_id: ActrId, reason: Option<String> },
    RouteCandidates { body: Vec<u8> },
    GetSigningKey { key_id: u32 },
    CredentialUpdate { actr_id: ActrId },
}

/// What the server tells an actor.
#[derive(Debug, Clone)]
pub enum ServerReply {
    Register(RegisterResponse),
    Pong(Pong),
    RouteCandidates(RouteCandidatesResponse),
    SigningKey(SigningKeyResponse),
    Error(ErrorResponse),
    /// Anything else, or nothing.
    Other,
}

/// Who speaks to whom.
#[derive(Debug, Clone)]
pub enum Flow {
    /// A peer that is not registered yet.
    PeerToServer { register_request: Vec<u8> },
    /// A registered actor.
    ActrToServer { source: ActrId, credential: AIdCredential, request: ActrRequest },
    /// The server.
    ServerToActr { reply: ServerReply },
    /// Anything else, or nothing.
    Other,
}

/// A message on the signaling connection.
#[derive(Debug, Clone)]
pub struct SignalingEnvelope {
    pub envelope_version: u32,
    pub envelope_id: String,
    /// The id of the envelope that this one answers.
    pub reply_for: Option<String>,
    pub timestamp_seconds: i64,
    pub timestamp_nanos: i32,
    pub traceparent: Option<String>,
    pub tracestate: Option<String>,
    pub flow: Flow,
}

/// The reply that an envelope carries, if it is the server's.
pub open spec fn reply_of(e: SignalingEnvelope) -> ServerReply {
    match e.flow {
        Flow::ServerToActr { reply } => reply,
        _ => ServerReply::Other,
    }
}

fn into_reply(e: SignalingEnvelope) -> (r: ServerReply)
    ensures
        r == reply_of(e),
{
    match e.flow {
        Flow::ServerToActr { reply } => reply,
        _ => ServerReply::Other,
    }
}

/// A server error in words: its message, then its code in brackets.
pub open spec fn error_words(e: ErrorResponse) -> Seq<char> {
    e.message@ + " ("@ + text::decimal(e.code as nat) + ")"@
}

fn error_text(e: &ErrorResponse) -> (s: String)
    ensures
        s@ == error_words(*e),
{
    let mut s = join(e.message.as_str(), " (");
    push_decimal(&mut s, e.code as u64);
    s.append(")");
    s
}

/// Reads the reply to a registration. The server refuses one in the reply itself.
pub fn read_register_reply(e: SignalingEnvelope) -> (r: NetworkResult<RegisterResponse>)
    ensures
        match reply_of(e) {
            ServerReply::Register(response) => r == Ok::<RegisterResponse, NetworkError>(response),
            _ => r matches Err(NetworkError::ConnectionError(m)) && m@
                == "Invalid registration response"@,
        },
{
    match into_reply(e) {
        ServerReply::Register(response) => Ok(response),
        _ => Err(NetworkError::ConnectionError("Invalid registration response".to_owned())),
    }
}

/// Reads the reply to a sign of life. Code 401 says that the credential has expired.
pub fn read_heartbeat_reply(e: SignalingEnvelope) -> (r: NetworkResult<Pong>)
    ensures
        match reply_of(e) {
            ServerReply::Pong(pong) => r == Ok::<Pong, NetworkError>(pong),
            ServerReply::Error(err) => if err.code == CODE_CREDENTIAL_EXPIRED {
                r matches Err(NetworkError::CredentialExpired(m)) && m@ == err.message@
            } else {
                r matches Err(NetworkError::AuthenticationError(m)) && m@ == error_words(err)
            },
            _ => r matches Err(NetworkError::ConnectionError(m)) && m@
                == "Received response but not a Pong message"@,
        },
{
    match into_reply(e) {
        ServerReply::Pong(pong) => Ok(pong),
        ServerReply::Error(err) => {
            if err.code == CODE_CREDENTIAL_EXPIRED {
                Err(NetworkError::CredentialExpired(err.message))
            } else {
                Err(NetworkError::AuthenticationError(error_text(&err)))
            }
        },
        _ => Err(
            NetworkError::ConnectionError("Received response but not a Pong message".to_owned()),
        ),
    }
}

/// Reads the reply to a request for route candidates.
pub fn read_route_candidates_reply(e: SignalingEnvelope) -> (r: NetworkResult<
    RouteCandidatesResponse,
>)
    ensures
        match reply_of(e) {
            ServerReply::RouteCandidates(response) => r == Ok::<
                RouteCandidatesResponse,
                NetworkError,
            >(response),
            ServerReply::Error(err) => r matches Err(NetworkError::ServiceDiscoveryError(m)) && m@
                == error_words(err),
            _ => r matches Err(NetworkError::ConnectionError(m)) && m@
                == "Invalid route candidates response"@,
        },
{
    match into_reply(e) {
        ServerReply::RouteCandidates(response) => Ok(response),
        ServerReply::Error(err) => Err(NetworkError::ServiceDiscoveryError(error_text(&err))),
        _ => Err(NetworkError::ConnectionError("Invalid route candidates response".to_owned())),
    }
}

/// Reads the reply to a request for a signing key: the key's id and its octets.
pub fn read_signing_key_reply(e: SignalingEnvelope) -> (r: NetworkResult<(u32, Vec<u8>)>)
    ensures
        match reply_of(e) {
            ServerReply::SigningKey(response) => r == Ok::<(u32, Vec<u8>), NetworkError>(
                (response.key_id, response.pubkey),
            ),
            ServerReply::Error(err) => r matches Err(NetworkError::ConnectionError(m)) && m@
                == "get_signing_key failed: "@ + error_words(err),
            _ => r matches Err(NetworkError::ConnectionError(m)) && m@
                == "get_signing_key: 无效响应"@,
        },
{
    match into_reply(e) {
        ServerReply::SigningKey(response) => Ok((response.key_id, response.pubkey)),
        ServerReply::Error(err) => Err(
            NetworkError::ConnectionError(
                join("get_signing_key failed: ", error_text(&err).as_str()),
            ),
        ),
        _ => Err(NetworkError::ConnectionError("get_signing_key: 无效响应".to_owned())),
    }
}

/// Reads the reply to a credential update.
pub fn read_credential_update_reply(e: SignalingEnvelope) -> (r: NetworkResult<RegisterResponse>)
    ensures
        match reply_of(e) {
            ServerReply::Register(response) => r == Ok::<RegisterResponse, NetworkError>(response),
            ServerReply::Error(err) => r matches Err(NetworkError::ConnectionError(m)) && m@
                == "Credential update failed: "@ + error_words(err),
            _ => r matches Err(NetworkError::ConnectionError(m)) && m@
                == "Invalid credential update response"@,
        },
{
    match into_reply(e) {
        ServerReply::Register(response) => Ok(response),
        ServerReply::Error(err) => Err(
            NetworkError::ConnectionError(
                join("Credential update failed: ", error_text(&err).as_str()),
            ),
        ),
        _ => Err(NetworkError::ConnectionError("Invalid credential update response".to_owned())),
    }
}

// ── Laws ──────────────────────────────────────────────────────────────────────

/// A server error in words is its message followed by its code.
pub open spec fn tells_error(m: Seq<char>, before: Seq<char>, e: ErrorResponse) -> bool {
    m == before + (e.message@ + " ("@ + text::decimal(e.code as nat) + ")"@)
}

/// The reply that the server sent, if the envelope is the server's.
pub open spec fn is_sent_reply(e: SignalingEnvelope, reply: ServerReply) -> bool {
    e.flow == (Flow::ServerToActr { reply })
}

/// Each kind of request is answered by one kind of reply, which is handed out as it was sent;
/// any other envelope is an error.
pub proof fn each_request_has_its_reply(
    e: SignalingEnvelope,
    registered: NetworkResult<RegisterResponse>,
    beat: NetworkResult<Pong>,
    candidates: NetworkResult<RouteCandidatesResponse>,
    key: NetworkResult<(u32, Vec<u8>)>,
    updated: NetworkResult<RegisterResponse>,
)
    requires
        call_ensures(read_register_reply, (e,), registered),
        call_ensures(read_heartbeat_reply, (e,), beat),
        call_ensures(read_route_candidates_reply, (e,), candidates),
        call_ensures(read_signing_key_reply, (e,), key),
        call_ensures(read_credential_update_reply, (e,), updated),
    ensures
        registered is Ok <==> (e.flow matches Flow::ServerToActr { reply } && reply is Register),
        updated is Ok <==> registered is Ok,
        beat is Ok <==> (e.flow matches Flow::ServerToActr { reply } && reply is Pong),
        candidates is Ok <==> (e.flow matches Flow::ServerToActr { reply } && reply
            is RouteCandidates),
        key is Ok <==> (e.flow matches Flow::ServerToActr { reply } && reply is SigningKey),
        registered is Ok ==> is_sent_reply(e, ServerReply::Register(registered->Ok_0)) && updated
            == registered,
        beat is Ok ==> is_sent_reply(e, ServerReply::Pong(beat->Ok_0)),
        beat is Err && !(e.flow matches Flow::ServerToActr { reply } && reply is Error) ==> (
        beat->Err_0 matches NetworkError::ConnectionError(m) && m@
            == "Received response but not a Pong message"@),
        candidates is Ok ==> is_sent_reply(e, ServerReply::RouteCandidates(candidates->Ok_0)),
        key is Ok ==> (e.flow->reply matches ServerReply::SigningKey(k) && key->Ok_0 == (
            k.key_id,
            k.pubkey,
        )),
{
}

/// An error of the server is told with its words. In the reply to a sign of life code 401 says
/// that the credential has expired, and any other that it is not accepted; in the others it is
/// the request that failed.
pub proof fn errors_of_the_server_are_told(
    e: SignalingEnvelope,
    err: ErrorResponse,
    registered: NetworkResult<RegisterResponse>,
    beat: NetworkResult<Pong>,
    candidates: NetworkResult<RouteCandidatesResponse>,
    key: NetworkResult<(u32, Vec<u8>)>,
    updated: NetworkResult<RegisterResponse>,
)
    requires
        is_sent_reply(e, ServerReply::Error(err)),
        call_ensures(read_register_reply, (e,), registered),
        call_ensures(read_heartbeat_reply, (e,), beat),
        call_ensures(read_route_candidates_reply, (e,), candidates),
        call_ensures(read_signing_key_reply, (e,), key),
        call_ensures(read_credential_update_reply, (e,), updated),
    ensures
        (beat matches Err(NetworkError::CredentialExpired(_))) <==> err.code == 401,
        beat matches Err(NetworkError::CredentialExpired(m)) ==> m@ == err.message@,
        err.code != 401 ==> (beat matches Err(NetworkError::AuthenticationError(m)) && tells_error(
            m@,
            Seq::empty(),
            err,
        )),
        candidates matches Err(NetworkError::ServiceDiscoveryError(m)) && tells_error(
            m@,
            Seq::empty(),
            err,
        ),
        key matches Err(NetworkError::ConnectionError(m)) && tells_error(
            m@,
            "get_signing_key failed: "@,
            err,
        ),
        updated matches Err(NetworkError::ConnectionError(m)) && tells_error(
            m@,
            "Credential update failed: "@,
            err,
        ),
        registered matches Err(NetworkError::ConnectionError(m)) && m@
            == "Invalid registration response"@,
{
    let words = err.message@ + " ("@ + text::decimal(err.code as nat) + ")"@;
    assert(Seq::<char>::empty() + words =~= words);
}

/// An envelope that is not the server's, or holds nothing that is known, is an error of the
/// connection.
pub proof fn strange_replies_are_refused(
    e: SignalingEnvelope,
    registered: NetworkResult<RegisterResponse>,
    beat: NetworkResult<Pong>,
    candidates: NetworkResult<RouteCandidatesResponse>,
    key: NetworkResult<(u32, Vec<u8>)>,
    updated: NetworkResult<RegisterResponse>,
)
    requires
        !(e.flow is ServerToActr) || is_sent_reply(e, ServerReply::Other),
        call_ensures(read_register_reply, (e,), registered),
        call_ensures(read_heartbeat_reply, (e,), beat),
        call_ensures(read_route_candidates_reply, (e,), candidates),
        call_ensures(read_signing_key_reply, (e,), key),
        call_ensures(read_credential_update_reply, (e,), updated),
    ensures
        registered matches Err(NetworkError::ConnectionError(m)) && m@
            == "Invalid registration response"@,
        beat matches Err(NetworkError::ConnectionError(m)) && m@
            == "Received response but not a Pong message"@,
        candidates matches Err(NetworkError::ConnectionError(m)) && m@
            == "Invalid route candidates response"@,
        key matches Err(NetworkError::ConnectionError(m)) && m@ == "get_signing_key: 无效响应"@,
        updated matches Err(NetworkError::ConnectionError(m)) && m@
            == "Invalid credential update response"@,
{
}

}

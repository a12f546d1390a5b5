//! Values that peers exchange.
use vstd::prelude::*;

verus! {

/// What a payload is, which decides the lane that carries it.
#[derive(Debug, Clone, Copy, PartialEq, Eq, Structural)]
pub enum PayloadType {
    /// A call that must arrive, in order.
    RpcReliable,
    /// A control message that is handled before calls.
    RpcSignal,
    /// Stream data that must arrive, in order.
    StreamReliable,
    /// Stream data that may be lost or reordered.
    StreamLatencyFirst,
    /// Media frames, which do not travel on lanes.
    MediaRtp,
}

impl PayloadType {
    /// The number of the payload type on the wire.
    pub open spec fn spec_code(self) -> u8 {
        match self {
            PayloadType::RpcReliable => 0u8,
            PayloadType::RpcSignal => 1u8,
            PayloadType::StreamReliable => 2u8,
            PayloadType::StreamLatencyFirst => 3u8,
            PayloadType::MediaRtp => 4u8,
        }
    }

    /// The number of the payload type on the wire.
    pub fn code(self) -> (c: u8)
        ensures
            c == self.spec_code(),
    {
        match self {
            PayloadType::RpcReliable => 0,
            PayloadType::RpcSignal => 1,
            PayloadType::StreamReliable => 2,
            PayloadType::StreamLatencyFirst => 3,
            PayloadType::MediaRtp => 4,
        }
    }

    /// The name of the payload type.
    pub open spec fn spec_name(self) -> Seq<char> {
        match self {
            PayloadType::RpcReliable => "RpcReliable"@,
            PayloadType::RpcSignal => "RpcSignal"@,
            PayloadType::StreamReliable => "StreamReliable"@,
            PayloadType::StreamLatencyFirst => "StreamLatencyFirst"@,
            PayloadType::MediaRtp => "MediaRtp"@,
        }
    }

    /// The name of the payload type.
    pub fn name(self) -> (s: &'static str)
        ensures
            s@ == self.spec_name(),
    {
        match self {
            PayloadType::RpcReliable => "RpcReliable",
            PayloadType::RpcSignal => "RpcSignal",
            PayloadType::StreamReliable => "StreamReliable",
            PayloadType::StreamLatencyFirst => "StreamLatencyFirst",
            PayloadType::MediaRtp => "MediaRtp",
        }
    }
}

/// A tenant of the network.
#[derive(Debug, Clone, Copy, PartialEq, Eq, Structural)]
pub struct Realm {
    pub realm_id: u32,
}

/// What an actor is.
#[derive(Debug)]
pub struct ActrType {
    pub manufacturer: String,
    pub name: String,
    pub version: String,
}

impl Clone for ActrType {
    fn clone(&self) -> (r: Self)
        ensures
            r == *self,
    {
        ActrType {
            manufacturer: self.manufacturer.clone(),
            name: self.name.clone(),
            version: self.version.clone(),
        }
    }
}

/// Which actor it is.
#[derive(Debug)]
pub struct ActrId {
    pub realm: Realm,
    pub serial_number: u64,
    pub actr_type: ActrType,
}

impl Clone for ActrId {
    fn clone(&self) -> (r: Self)
        ensures
            r == *self,
    {
        ActrId { realm: self.realm, serial_number: self.serial_number, actr_type: self.actr_type.clone() }
    }
}

/// What an actor is, in mathematical terms.
#[verifier::ext_equal]
pub struct ActrTypeView {
    pub manufacturer: Seq<char>,
    pub name: Seq<char>,
    pub version: Seq<char>,
}

/// Which actor it is, in mathematical terms.
#[verifier::ext_equal]
pub struct ActrIdView {
    pub realm_id: u32,
    pub serial_number: u64,
    pub actr_type: ActrTypeView,
}

impl View for ActrType {
    type V = ActrTypeView;

    open spec fn view(&self) -> ActrTypeView {
        ActrTypeView {
            manufacturer: self.manufacturer@,
            name: self.name@,
            version: self.version@,
        }
    }
}

impl View for ActrId {
    type V = ActrIdView;

    open spec fn view(&self) -> ActrIdView {
        ActrIdView {
            realm_id: self.realm.realm_id,
            serial_number: self.serial_number,
            actr_type: self.actr_type@,
        }
    }
}

impl ActrType {
    /// Whether both are the same type.
    pub fn same_as(&self, other: &ActrType) -> (r: bool)
        ensures
            r == (self@ == other@),
    {
        self.manufacturer == other.manufacturer && self.name == other.name && self.version
            == other.version
    }
}

impl ActrId {
    /// Whether both are the same actor.
    pub fn same_as(&self, other: &ActrId) -> (r: bool)
        ensures
            r == (self@ == other@),
    {
        self.realm.realm_id == other.realm.realm_id && self.serial_number == other.serial_number
            && self.actr_type.same_as(&other.actr_type)
    }
}

/// Where a message goes.
#[derive(Debug, Clone)]
pub enum Dest {
    /// Whoever runs the actor.
    Shell,
    /// The actor itself.
    Local,
    /// Another actor.
    Actor(ActrId),
}

impl Dest {
    /// Another actor.
    pub fn actor(id: ActrId) -> (d: Self)
        ensures
            d == Dest::Actor(id),
    {
        Dest::Actor(id)
    }

    /// Whether it is another actor.
    pub fn is_actor(&self) -> (r: bool)
        ensures
            r == (self is Actor),
    {
        match self {
            Dest::Actor(_) => true,
            _ => false,
        }
    }
}

/// What an actor proves its identity with: encoded claims and the issuer's
/// signature over them.
#[derive(Debug, Clone)]
pub struct AIdCredential {
    /// The key that the signature is made with.
    pub key_id: u32,
    pub claims: Vec<u8>,
    pub signature: Vec<u8>,
}

/// What a credential's claims say.
#[derive(Debug, Clone)]
pub struct IdentityClaims {
    /// The text form of the actor's identity.
    pub actor_id: String,
    /// When the credential expires, in seconds since the Unix epoch.
    pub expires_at: u64,
    pub realm_id: u32,
}

/// How a call between actors fails.
#[derive(Debug, Clone)]
pub enum ActrError {
    Unavailable(String),
    TimedOut,
    NotFound(String),
    PermissionDenied(String),
    InvalidArgument(String),
    UnknownRoute(String),
    DependencyNotFound { service_name: String, message: String },
    DecodeFailure(String),
    NotImplemented(String),
    Internal(String),
}

/// Result of an operation between actors.
pub type ActorResult<T> = Result<T, ActrError>;

/// A name and a value that travel with a call.
#[derive(Debug, Clone)]
pub struct MetadataEntry {
    pub key: String,
    pub value: String,
}

/// How a call failed at the other end.
#[derive(Debug, Clone)]
pub struct ErrorResponse {
    pub code: u32,
    pub message: String,
}

/// A call, or the reply to one.
#[derive(Debug, Clone)]
pub struct RpcEnvelope {
    pub request_id: String,
    pub route_key: String,
    pub payload: Option<bytes::Bytes>,
    pub traceparent: Option<String>,
    pub tracestate: Option<String>,
    pub metadata: Vec<MetadataEntry>,
    pub timeout_ms: i64,
    pub error: Option<ErrorResponse>,
}

// ── Laws ──────────────────────────────────────────────────────────────────────

/// Payload types have different numbers on the wire. Those that travel on lanes have the first
/// four, and media the next.
pub proof fn payload_types_have_numbers_of_their_own(
    a: PayloadType,
    b: PayloadType,
    m: u8,
    n: u8,
)
    requires
        call_ensures(PayloadType::code, (a,), m),
        call_ensures(PayloadType::code, (b,), n),
    ensures
        m == n <==> a == b,
        m < 4 <==> !(a is MediaRtp),
        a is MediaRtp ==> m == 4,
        a is RpcReliable && b is RpcSignal ==> m < n,
        a is RpcSignal && b is StreamReliable ==> m < n,
        a is StreamReliable && b is StreamLatencyFirst ==> m < n,
{
}

/// Payload types have different names.
pub proof fn payload_types_have_names_of_their_own(
    a: PayloadType,
    b: PayloadType,
    s: &'static str,
    t: &'static str,
)
    requires
        call_ensures(PayloadType::name, (a,), s),
        call_ensures(PayloadType::name, (b,), t),
    ensures
        s@ == t@ <==> a == b,
{
    reveal_strlit("RpcReliable");
    reveal_strlit("RpcSignal");
    reveal_strlit("StreamReliable");
    reveal_strlit("StreamLatencyFirst");
    reveal_strlit("MediaRtp");
    assert("RpcReliable"@.len() == 11);
    assert("RpcSignal"@.len() == 9);
    assert("StreamReliable"@.len() == 14);
    assert("StreamLatencyFirst"@.len() == 18);
    assert("MediaRtp"@.len() == 8);
}

/// Two types are the same exactly if they agree in manufacturer, name and version; two actors
/// are, exactly if they agree in realm, serial number and type.
pub proof fn the_same_actor_is_the_same_in_every_part(
    a: ActrId,
    b: ActrId,
    same: bool,
    same_type: bool,
)
    requires
        call_ensures(ActrId::same_as, (&a, &b), same),
        call_ensures(ActrType::same_as, (&a.actr_type, &b.actr_type), same_type),
    ensures
        same_type <==> a.actr_type.manufacturer@ == b.actr_type.manufacturer@ && a.actr_type.name@
            == b.actr_type.name@ && a.actr_type.version@ == b.actr_type.version@,
        same <==> a.realm == b.realm && a.serial_number == b.serial_number && same_type,
{
}

/// A destination is an actor exactly if it was made of one.
pub proof fn a_destination_made_of_an_actor_is_one(id: ActrId, d: Dest, e: Dest, r: bool)
    requires
        call_ensures(Dest::actor, (id,), d),
        call_ensures(Dest::is_actor, (&e,), r),
    ensures
        d == Dest::Actor(id),
        e == d ==> r,
        e is Shell || e is Local ==> !r,
{
}

/// A copy of an actor's type, and of its identity, is what it was made of.
pub proof fn a_copy_is_the_same(t: ActrType, u: ActrType, a: ActrId, b: ActrId)
    requires
        call_ensures(<ActrType as Clone>::clone, (&t,), u),
        call_ensures(<ActrId as Clone>::clone, (&a,), b),
    ensures
        u.manufacturer@ == t.manufacturer@ && u.name@ == t.name@ && u.version@ == t.version@,
        b.realm.realm_id == a.realm.realm_id && b.serial_number == a.serial_number && b.actr_type
            == a.actr_type,
{
}

}

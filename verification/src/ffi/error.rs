//! The error that foreign callers see.
use crate::protocol;
use crate::text::{join, join3};
use vstd::prelude::*;
use vstd::std_specs::convert::FromSpecImpl;
use vstd::string::StringExecFns;

verus! {

/// How an operation fails.
#[derive(Debug)]
pub enum ActrError {
    ConfigError { msg: String },
    ConnectionError { msg: String },
    RpcError { msg: String },
    StateError { msg: String },
    InternalError { msg: String },
    TimeoutError { msg: String },
    WorkloadError { msg: String },
}

/// Result of an operation.
pub type ActrResult<T> = Result<T, ActrError>;

/// What an error between actors is to a foreign caller.
pub open spec fn is_foreign(e: protocol::ActrError, f: ActrError) -> bool {
    match e {
        protocol::ActrError::Unavailable(msg) => f == (ActrError::ConnectionError { msg }),
        protocol::ActrError::TimedOut => f matches ActrError::TimeoutError { msg } && msg@
            == "operation timed out"@,
        protocol::ActrError::NotFound(msg)
        | protocol::ActrError::PermissionDenied(msg)
        | protocol::ActrError::InvalidArgument(msg)
        | protocol::ActrError::UnknownRoute(msg)
        | protocol::ActrError::DecodeFailure(msg)
        | protocol::ActrError::NotImplemented(msg)
        | protocol::ActrError::Internal(msg) => f == (ActrError::RpcError { msg }),
        protocol::ActrError::DependencyNotFound { service_name, message } => f matches
            ActrError::RpcError { msg } && msg@ == "dependency '"@ + service_name@ + "' not found: "@
            + message@,
    }
}

/// What an error of a foreign caller is between actors.
pub open spec fn between_actors(f: ActrError) -> protocol::ActrError {
    match f {
        ActrError::ConfigError { msg } => protocol::ActrError::InvalidArgument(msg),
        ActrError::ConnectionError { msg } => protocol::ActrError::Unavailable(msg),
        ActrError::RpcError { msg } => protocol::ActrError::Internal(msg),
        ActrError::StateError { msg } => protocol::ActrError::Internal(msg),
        ActrError::InternalError { msg } => protocol::ActrError::Internal(msg),
        ActrError::WorkloadError { msg } => protocol::ActrError::Internal(msg),
        ActrError::TimeoutError { .. } => protocol::ActrError::TimedOut,
    }
}

impl FromSpecImpl<protocol::ActrError> for ActrError {
    open spec fn obeys_from_spec() -> bool {
        false
    }

    open spec fn from_spec(e: protocol::ActrError) -> Self {
        ActrError::StateError { msg: arbitrary() }
    }
}

impl From<protocol::ActrError> for ActrError {
    fn from(e: protocol::ActrError) -> (f: Self)
        ensures
            is_foreign(e, f),
    {
        match e {
            protocol::ActrError::Unavailable(msg) => ActrError::ConnectionError { msg },
            protocol::ActrError::TimedOut => ActrError::TimeoutError {
                msg: "operation timed out".to_owned(),
            },
            protocol::ActrError::NotFound(msg) => ActrError::RpcError { msg },
            protocol::ActrError::PermissionDenied(msg) => ActrError::RpcError { msg },
            protocol::ActrError::InvalidArgument(msg) => ActrError::RpcError { msg },
            protocol::ActrError::UnknownRoute(msg) => ActrError::RpcError { msg },
            protocol::ActrError::DecodeFailure(msg) => ActrError::RpcError { msg },
            protocol::ActrError::NotImplemented(msg) => ActrError::RpcError { msg },
            protocol::ActrError::Internal(msg) => ActrError::RpcError { msg },
            protocol::ActrError::DependencyNotFound { service_name, message } => {
                let mut msg = join3("dependency '", service_name.as_str(), "' not found: ");
                msg.append(message.as_str());
                ActrError::RpcError { msg }
            },
        }
    }
}

impl FromSpecImpl<ActrError> for protocol::ActrError {
    open spec fn obeys_from_spec() -> bool {
        true
    }

    open spec fn from_spec(f: ActrError) -> Self {
        between_actors(f)
    }
}

impl From<ActrError> for protocol::ActrError {
    fn from(f: ActrError) -> (e: Self) {
        match f {
            ActrError::ConfigError { msg } => protocol::ActrError::InvalidArgument(msg),
            ActrError::ConnectionError { msg } => protocol::ActrError::Unavailable(msg),
            ActrError::RpcError { msg } => protocol::ActrError::Internal(msg),
            ActrError::StateError { msg } => protocol::ActrError::Internal(msg),
            ActrError::InternalError { msg } => protocol::ActrError::Internal(msg),
            ActrError::WorkloadError { msg } => protocol::ActrError::Internal(msg),
            ActrError::TimeoutError { .. } => protocol::ActrError::TimedOut,
        }
    }
}

impl ActrError {
    /// The error in words.
    pub open spec fn words(&self) -> Seq<char> {
        match self {
            ActrError::ConfigError { msg } => "Configuration error: "@ + msg@,
            ActrError::ConnectionError { msg } => "Connection error: "@ + msg@,
            ActrError::RpcError { msg } => "RPC error: "@ + msg@,
            ActrError::StateError { msg } => "State error: "@ + msg@,
            ActrError::InternalError { msg } => "Internal error: "@ + msg@,
            ActrError::TimeoutError { msg } => "Timeout error: "@ + msg@,
            ActrError::WorkloadError { msg } => "Workload error: "@ + msg@,
        }
    }

    /// The error in words.
    pub fn describe(&self) -> (s: String)
        ensures
            s@ == self.words(),
    {
        match self {
            ActrError::ConfigError { msg } => join("Configuration error: ", msg.as_str()),
            ActrError::ConnectionError { msg } => join("Connection error: ", msg.as_str()),
            ActrError::RpcError { msg } => join("RPC error: ", msg.as_str()),
            ActrError::StateError { msg } => join("State error: ", msg.as_str()),
            ActrError::InternalError { msg } => join("Internal error: ", msg.as_str()),
            ActrError::TimeoutError { msg } => join("Timeout error: ", msg.as_str()),
            ActrError::WorkloadError { msg } => join("Workload error: ", msg.as_str()),
        }
    }
}

/// An unavailable peer and a timeout survive the way to a foreign caller and back.
pub proof fn unavailability_and_timeouts_survive(e: protocol::ActrError, f: ActrError)
    requires
        is_foreign(e, f),
        e is Unavailable || e is TimedOut,
    ensures
        between_actors(f) == e,
{
}

/// A foreign caller sees a peer that is not available as an error of the connection, a timeout
/// as a timeout, and any other error between actors as one of the call. What the error said is
/// kept.
pub proof fn a_foreign_caller_sees_what_an_error_is_of(e: protocol::ActrError, f: ActrError)
    requires
        call_ensures(<ActrError as From<protocol::ActrError>>::from, (e,), f),
    ensures
        e is Unavailable <==> f is ConnectionError,
        e is TimedOut <==> f is TimeoutError,
        !(e is Unavailable) && !(e is TimedOut) <==> f is RpcError,
        e matches protocol::ActrError::Unavailable(m) ==> f->ConnectionError_msg == m,
        e is TimedOut ==> f->TimeoutError_msg@ == "operation timed out"@,
        e matches protocol::ActrError::NotFound(m) ==> f->RpcError_msg == m,
        e matches protocol::ActrError::PermissionDenied(m) ==> f->RpcError_msg == m,
        e matches protocol::ActrError::InvalidArgument(m) ==> f->RpcError_msg == m,
        e matches protocol::ActrError::UnknownRoute(m) ==> f->RpcError_msg == m,
        e matches protocol::ActrError::DecodeFailure(m) ==> f->RpcError_msg == m,
        e matches protocol::ActrError::NotImplemented(m) ==> f->RpcError_msg == m,
        e matches protocol::ActrError::Internal(m) ==> f->RpcError_msg == m,
        e matches protocol::ActrError::DependencyNotFound { service_name, message }
            ==> f->RpcError_msg@ == "dependency '"@ + service_name@ + "' not found: "@ + message@,
{
}

/// Between actors a wrong configuration is a wrong argument, a broken connection a peer that is
/// not available, a timeout a timeout, and any other foreign error an internal one. What the
/// error said is kept, except of a timeout.
pub proof fn a_foreign_error_is_told_between_actors(
    f: ActrError,
    e: protocol::ActrError,
    again: ActrError,
)
    requires
        call_ensures(<protocol::ActrError as From<ActrError>>::from, (f,), e),
        call_ensures(<ActrError as From<protocol::ActrError>>::from, (e,), again),
    ensures
        f is ConfigError <==> e is InvalidArgument,
        f is ConnectionError <==> e is Unavailable,
        f is TimeoutError <==> e is TimedOut,
        f is RpcError || f is StateError || f is InternalError || f is WorkloadError
            <==> e is Internal,
        f matches ActrError::ConfigError { msg } ==> e->InvalidArgument_0 == msg,
        f matches ActrError::ConnectionError { msg } ==> e->Unavailable_0 == msg,
        f matches ActrError::RpcError { msg } ==> e->Internal_0 == msg,
        f matches ActrError::StateError { msg } ==> e->Internal_0 == msg,
        f matches ActrError::InternalError { msg } ==> e->Internal_0 == msg,
        f matches ActrError::WorkloadError { msg } ==> e->Internal_0 == msg,
        f is ConnectionError || f is RpcError ==> again == f,
        f is TimeoutError ==> again is TimeoutError,
{
}

/// An error in words is the name of its kind and what it says.
pub proof fn words_name_the_kind(f: ActrError, s: String)
    requires
        call_ensures(ActrError::describe, (&f,), s),
    ensures
        f matches ActrError::ConfigError { msg } ==> s@ == "Configuration error: "@ + msg@,
        f matches ActrError::ConnectionError { msg } ==> s@ == "Connection error: "@ + msg@,
        f matches ActrError::RpcError { msg } ==> s@ == "RPC error: "@ + msg@,
        f matches ActrError::StateError { msg } ==> s@ == "State error: "@ + msg@,
        f matches ActrError::InternalError { msg } ==> s@ == "Internal error: "@ + msg@,
        f matches ActrError::TimeoutError { msg } ==> s@ == "Timeout error: "@ + msg@,
        f matches ActrError::WorkloadError { msg } ==> s@ == "Workload error: "@ + msg@,
{
}

}

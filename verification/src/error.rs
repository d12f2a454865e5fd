//! The error type of the runtime and the status codes it is reported with.

use vstd::prelude::*;
use up_rust::UStatus;
use crate::text::{push_str, push_decimal, hex_u16, dec_text, hex_u16_text, spec_starts_with};

verus! {

/// A status reported by the underlying uProtocol transport layer.
#[verifier::external_type_specification]
#[verifier::external_body]
pub struct ExUStatus(UStatus);

/// Unified error type for all runtime operations.
#[derive(Debug)]
pub enum PacomError {
    /// An error propagated from the underlying uProtocol transport layer.
    Transport(UStatus),
    /// The requested operation is not declared in the application manifest.
    ManifestViolation {
        /// The type of operation (e.g. `rpc.provide`, `topics.publish`).
        operation: String,
        /// The logical name of the topic or method.
        name: String,
    },
    /// No provider was discovered for the requested service within the timeout.
    DiscoveryTimeout {
        /// The logical name of the method that timed out.
        name: String,
        /// The timeout duration in milliseconds.
        timeout_ms: u64,
    },
    /// A configuration or message-building error.
    Config(String),
    /// Two logical names in the same manifest resolve to the same numeric ID.
    IdCollision {
        /// The first logical name.
        name_a: String,
        /// The second logical name.
        name_b: String,
        /// The colliding numeric ID.
        id: u16,
    },
    /// An RPC invocation failed in the RPC client.
    RpcError(String),
    /// An RPC invocation returned an empty response payload.
    EmptyResponse,
}

/// The uProtocol status codes that the runtime reports errors with.
#[derive(Debug, Clone, Copy, PartialEq, Eq, Structural)]
pub enum StatusCode {
    /// `UCode::PERMISSION_DENIED`
    PermissionDenied,
    /// `UCode::DEADLINE_EXCEEDED`
    DeadlineExceeded,
    /// `UCode::INTERNAL`
    Internal,
    /// `UCode::ALREADY_EXISTS`
    AlreadyExists,
    /// `UCode::NOT_FOUND`
    NotFound,
    /// `UCode::UNAVAILABLE`
    Unavailable,
    /// `UCode::INVALID_ARGUMENT`
    InvalidArgument,
}

/// The text of the error message of `e`; `None` for a transport error, whose text is the
/// status's own rendering.
pub open spec fn spec_message(e: PacomError) -> Option<Seq<char>> {
    match e {
        PacomError::Transport(_) => None,
        PacomError::ManifestViolation { operation, name } => Some(
            "Manifest violation: operation '"@ + operation@ + "' not declared for '"@ + name@
                + "'"@,
        ),
        PacomError::DiscoveryTimeout { name, timeout_ms } => Some(
            "Discovery timeout: no provider for '"@ + name@ + "' within "@ + dec_text(
                timeout_ms as nat,
            ) + "ms"@,
        ),
        PacomError::Config(m) => Some("Configuration error: "@ + m@),
        PacomError::IdCollision { name_a, name_b, id } => Some(
            "ID collision: '"@ + name_a@ + "' and '"@ + name_b@ + "' both resolve to ID "@
                + hex_u16_text(id),
        ),
        PacomError::RpcError(m) => Some("RPC error: "@ + m@),
        PacomError::EmptyResponse => Some("RPC returned empty response"@),
    }
}

/// The status code that an error is reported with; `None` for a transport error, which
/// keeps the status it carries.
pub open spec fn spec_status_code(e: PacomError) -> Option<StatusCode> {
    match e {
        PacomError::Transport(_) => None,
        PacomError::ManifestViolation { .. } => Some(StatusCode::PermissionDenied),
        PacomError::DiscoveryTimeout { .. } => Some(StatusCode::DeadlineExceeded),
        PacomError::Config(_) => Some(StatusCode::Internal),
        PacomError::IdCollision { .. } => Some(StatusCode::AlreadyExists),
        PacomError::RpcError(_) => Some(StatusCode::Internal),
        PacomError::EmptyResponse => Some(StatusCode::NotFound),
    }
}

/// The rendering of a transport status (`Display` of `UStatus`). What text comes back is
/// not stated: it is the protobuf text format of the status.
#[verifier::external_body]
fn status_text(status: &UStatus) -> String {
    format!("{}", status)
}

impl PacomError {
    /// The human-readable message of this error.
    pub fn message(&self) -> (m: String)
        ensures
            spec_message(*self) matches Some(t) ==> m@ == t,
            self matches PacomError::Transport(_) ==> spec_starts_with(m@, "Transport error: "@),
    {
        let mut m = String::new();
        match self {
            PacomError::Transport(status) => {
                push_str(&mut m, "Transport error: ");
                let ghost pre = m@;
                let t = status_text(status);
                push_str(&mut m, t.as_str());
                assert(m@.take(pre.len() as int) =~= pre);
            },
            PacomError::ManifestViolation { operation, name } => {
                push_str(&mut m, "Manifest violation: operation '");
                push_str(&mut m, operation.as_str());
                push_str(&mut m, "' not declared for '");
                push_str(&mut m, name.as_str());
                push_str(&mut m, "'");
            },
            PacomError::DiscoveryTimeout { name, timeout_ms } => {
                push_str(&mut m, "Discovery timeout: no provider for '");
                push_str(&mut m, name.as_str());
                push_str(&mut m, "' within ");
                push_decimal(&mut m, *timeout_ms);
                push_str(&mut m, "ms");
            },
            PacomError::Config(msg) => {
                push_str(&mut m, "Configuration error: ");
                push_str(&mut m, msg.as_str());
            },
            PacomError::IdCollision { name_a, name_b, id } => {
                push_str(&mut m, "ID collision: '");
                push_str(&mut m, name_a.as_str());
                push_str(&mut m, "' and '");
                push_str(&mut m, name_b.as_str());
                push_str(&mut m, "' both resolve to ID ");
                let h = hex_u16(*id);
                push_str(&mut m, h.as_str());
            },
            PacomError::RpcError(msg) => {
                push_str(&mut m, "RPC error: ");
                push_str(&mut m, msg.as_str());
            },
            PacomError::EmptyResponse => {
                push_str(&mut m, "RPC returned empty response");
            },
        }
        assert(spec_message(*self) matches Some(t) ==> m@ =~= t);
        m
    }

    /// The message of this error, as its `Display` rendering gives it.
    pub fn to_string(&self) -> (m: String)
        ensures
            spec_message(*self) matches Some(t) ==> m@ == t,
            self matches PacomError::Transport(_) ==> spec_starts_with(m@, "Transport error: "@),
    {
        self.message()
    }

    /// The status code this error is reported with (`None` for a transport error, which
    /// keeps its own status).
    pub fn status_code(&self) -> (c: Option<StatusCode>)
        ensures
            c == spec_status_code(*self),
    {
        match self {
            PacomError::Transport(_) => None,
            PacomError::ManifestViolation { .. } => Some(StatusCode::PermissionDenied),
            PacomError::DiscoveryTimeout { .. } => Some(StatusCode::DeadlineExceeded),
            PacomError::Config(_) => Some(StatusCode::Internal),
            PacomError::IdCollision { .. } => Some(StatusCode::AlreadyExists),
            PacomError::RpcError(_) => Some(StatusCode::Internal),
            PacomError::EmptyResponse => Some(StatusCode::NotFound),
        }
    }
}

impl From<UStatus> for PacomError {
    fn from(status: UStatus) -> (e: Self) {
        PacomError::Transport(status)
    }
}

impl vstd::std_specs::convert::FromSpecImpl<UStatus> for PacomError {
    open spec fn obeys_from_spec() -> bool {
        true
    }

    open spec fn from_spec(v: UStatus) -> Self {
        PacomError::Transport(v)
    }
}

/// The number that uProtocol's `UCode` gives a status code.
pub open spec fn spec_ucode_number(code: StatusCode) -> i32 {
    match code {
        StatusCode::InvalidArgument => 3,
        StatusCode::DeadlineExceeded => 4,
        StatusCode::NotFound => 5,
        StatusCode::AlreadyExists => 6,
        StatusCode::PermissionDenied => 7,
        StatusCode::Internal => 13,
        StatusCode::Unavailable => 14,
    }
}

/// The status that `UStatus::fail_with_code` builds from a code (by its `UCode` number) and
/// a message.
pub uninterp spec fn failed_status(code: i32, message: Seq<char>) -> UStatus;

/// Builds a failed status with `up_rust::UStatus::fail_with_code`. The contract claims that
/// the status is the one that call builds for this code and this message (the call sets
/// the code and the message and leaves every other field at its default); what the status
/// holds is not stated beyond that.
#[verifier::external_body]
fn fail_with_code(code: StatusCode, message: String) -> (s: UStatus)
    ensures
        s == failed_status(spec_ucode_number(code), message@),
{
    let c = match code {
        StatusCode::InvalidArgument => up_rust::UCode::INVALID_ARGUMENT,
        StatusCode::DeadlineExceeded => up_rust::UCode::DEADLINE_EXCEEDED,
        StatusCode::NotFound => up_rust::UCode::NOT_FOUND,
        StatusCode::AlreadyExists => up_rust::UCode::ALREADY_EXISTS,
        StatusCode::PermissionDenied => up_rust::UCode::PERMISSION_DENIED,
        StatusCode::Internal => up_rust::UCode::INTERNAL,
        StatusCode::Unavailable => up_rust::UCode::UNAVAILABLE,
    };
    UStatus::fail_with_code(c, message)
}

/// The status an error is reported with: a transport error passes its own status through;
/// any other error becomes a failed status with the error's code and message.
impl From<PacomError> for UStatus {
    fn from(error: PacomError) -> (s: Self) {
        match error {
            PacomError::Transport(status) => status,
            other => {
                let message = other.message();
                match other.status_code() {
                    Some(code) => fail_with_code(code, message),
                    None => fail_with_code(StatusCode::Internal, message),
                }
            },
        }
    }
}

impl vstd::std_specs::convert::FromSpecImpl<PacomError> for UStatus {
    open spec fn obeys_from_spec() -> bool {
        true
    }

    open spec fn from_spec(e: PacomError) -> Self {
        match e {
            PacomError::Transport(s) => s,
            other => failed_status(
                spec_ucode_number(spec_status_code(other).unwrap()),
                spec_message(other).unwrap(),
            ),
        }
    }
}

/// A failed status with this code and message, as `UStatus::fail_with_code` builds it.
pub fn status_with_code(code: StatusCode, message: String) -> (s: UStatus)
    ensures
        s == failed_status(spec_ucode_number(code), message@),
{
    fail_with_code(code, message)
}

} // verus!

//! Failures of WebSocket connections, REST calls and stream subscriptions.

use vstd::prelude::*;
use std::collections::HashMap;
use std::io::ErrorKind;
use tokio_tungstenite::tungstenite::error::ProtocolError;
use tokio_tungstenite::tungstenite::Error;
use crate::external::{describe_url_parse_error, io_error_kind, url_parse_error_text};
use crate::models::StreamSubscriptionContext;
use crate::text::{append_decimal, append_optional_decimal, append_optional_signed, append_signed};
use crate::text::{decimal, optional_text, signed_decimal};

verus! {

/// Represents different types of WebSocket connection failures and their reconnection eligibility
#[derive(Debug, Clone, Copy)]
pub enum WebsocketConnectionFailureReason {
    /// Network-level interruption (should reconnect)
    NetworkInterruption,
    /// Connection reset by peer (should reconnect)
    ConnectionReset,
    /// Server temporary error (should reconnect)
    ServerTemporaryError,
    /// Unexpected connection close (should reconnect)
    UnexpectedClose,
    /// Stream ended unexpectedly (should reconnect)
    StreamEnded,
    /// Authentication/authorization failure (should not reconnect)
    AuthenticationFailure,
    /// Protocol violation (should not reconnect)
    ProtocolViolation,
    /// Configuration error (should not reconnect)
    ConfigurationError,
    /// User initiated close (should not reconnect)
    UserInitiatedClose,
    /// Permanent server error (should not reconnect)
    PermanentServerError,
    /// Normal close (should not reconnect)
    NormalClose,
}

/// The reason that stands for an I/O error of kind `kind`.
pub open spec fn io_failure_reason(kind: ErrorKind) -> WebsocketConnectionFailureReason {
    match kind {
        ErrorKind::ConnectionReset | ErrorKind::ConnectionAborted =>
            WebsocketConnectionFailureReason::ConnectionReset,
        ErrorKind::UnexpectedEof => WebsocketConnectionFailureReason::StreamEnded,
        ErrorKind::PermissionDenied => WebsocketConnectionFailureReason::AuthenticationFailure,
        _ => WebsocketConnectionFailureReason::NetworkInterruption,
    }
}

/// The reason that stands for a tungstenite error.
pub open spec fn transport_failure_reason(error: Error) -> WebsocketConnectionFailureReason {
    match error {
        Error::ConnectionClosed | Error::AlreadyClosed =>
            WebsocketConnectionFailureReason::ConnectionReset,
        Error::Io(io_error) => io_failure_reason(io_error_kind(io_error)),
        Error::Tls(_) | Error::Capacity(_) | Error::Url(_) =>
            WebsocketConnectionFailureReason::ConfigurationError,
        Error::Protocol(violation) => if violation is ResetWithoutClosingHandshake {
            WebsocketConnectionFailureReason::UnexpectedClose
        } else {
            WebsocketConnectionFailureReason::ProtocolViolation
        },
        Error::Utf8 | Error::HttpFormat(_) => WebsocketConnectionFailureReason::ProtocolViolation,
        Error::Http(_) => WebsocketConnectionFailureReason::ServerTemporaryError,
        Error::WriteBufferFull(_) | Error::AttackAttempt =>
            WebsocketConnectionFailureReason::NetworkInterruption,
    }
}

impl WebsocketConnectionFailureReason {
    /// Classifies a tungstenite error into a failure reason
    pub fn from_tungstenite_error(error: &Error) -> (reason: Self)
        ensures
            reason == transport_failure_reason(*error),
    {
        match error {
            Error::ConnectionClosed | Error::AlreadyClosed => Self::ConnectionReset,
            Error::Io(io_error) => Self::from_io_error_kind(io_error.kind()),
            Error::Tls(_) | Error::Capacity(_) | Error::Url(_) => Self::ConfigurationError,
            Error::Protocol(ProtocolError::ResetWithoutClosingHandshake) => Self::UnexpectedClose,
            Error::Protocol(_) | Error::Utf8 | Error::HttpFormat(_) => Self::ProtocolViolation,
            Error::Http(_) => Self::ServerTemporaryError,
            _ => Self::NetworkInterruption,
        }
    }

    /// Classifies the kind of an I/O error into a failure reason
    pub fn from_io_error_kind(kind: ErrorKind) -> (reason: Self)
        ensures
            reason == io_failure_reason(kind),
    {
        match kind {
            ErrorKind::ConnectionReset | ErrorKind::ConnectionAborted => Self::ConnectionReset,
            ErrorKind::UnexpectedEof => Self::StreamEnded,
            ErrorKind::PermissionDenied => Self::AuthenticationFailure,
            _ => Self::NetworkInterruption,
        }
    }

    /// Classifies a WebSocket close code into a failure reason
    #[must_use]
    pub fn from_close_code(code: u16, user_initiated: bool) -> (reason: Self)
        ensures
            reason == close_reason(code, user_initiated),
    {
        if user_initiated {
            return Self::UserInitiatedClose;
        }
        match code {
            1000 => Self::NormalClose,                               // Normal closure
            1001 | 1011 | 1012 | 1013 => Self::ServerTemporaryError, // Server temporary issues
            1002 | 1003 | 1007 | 1009 | 1010 => Self::ProtocolViolation, // Protocol violations
            1008 | 1014 | 4000..=4999 => Self::PermanentServerError, // Permanent server errors
            1015 => Self::ConfigurationError,                        // TLS handshake failure
            _ => Self::UnexpectedClose,                              // Unknown codes including 1006
        }
    }

    /// Determines if this failure type warrants a reconnection attempt
    #[must_use]
    pub fn should_reconnect(&self) -> (reconnect: bool)
        ensures
            reconnect == self.is_reconnectable(),
    {
        match self {
            // Reconnectable failures
            Self::NetworkInterruption
            | Self::ConnectionReset
            | Self::ServerTemporaryError
            | Self::UnexpectedClose
            | Self::StreamEnded => true,
            // Non-reconnectable failures
            Self::AuthenticationFailure
            | Self::ProtocolViolation
            | Self::ConfigurationError
            | Self::UserInitiatedClose
            | Self::PermanentServerError
            | Self::NormalClose => false,
        }
    }

    /// Whether a connection that failed for this reason is worth opening again.
    pub open spec fn is_reconnectable(&self) -> bool {
        ||| *self is NetworkInterruption
        ||| *self is ConnectionReset
        ||| *self is ServerTemporaryError
        ||| *self is UnexpectedClose
        ||| *self is StreamEnded
    }
}

/// Close codes by which a server announces a temporary condition.
pub open spec fn is_temporary_close_code(code: u16) -> bool {
    code == 1001 || 1011 <= code <= 1013
}

/// Close codes that blame the traffic of the connection.
pub open spec fn is_protocol_close_code(code: u16) -> bool {
    code == 1002 || code == 1003 || code == 1007 || code == 1009 || code == 1010
}

/// Close codes by which a server turns the client away for good, among them all codes that are
/// reserved for private use.
pub open spec fn is_permanent_close_code(code: u16) -> bool {
    code == 1008 || code == 1014 || 4000 <= code <= 4999
}

/// The reason that stands for a close with code `code`. A close that the user asked for has its
/// own reason, whatever the code.
pub open spec fn close_reason(code: u16, user_initiated: bool) -> WebsocketConnectionFailureReason {
    if user_initiated {
        WebsocketConnectionFailureReason::UserInitiatedClose
    } else if code == 1000 {
        WebsocketConnectionFailureReason::NormalClose
    } else if is_temporary_close_code(code) {
        WebsocketConnectionFailureReason::ServerTemporaryError
    } else if is_protocol_close_code(code) {
        WebsocketConnectionFailureReason::ProtocolViolation
    } else if is_permanent_close_code(code) {
        WebsocketConnectionFailureReason::PermanentServerError
    } else if code == 1015 {
        WebsocketConnectionFailureReason::ConfigurationError
    } else {
        WebsocketConnectionFailureReason::UnexpectedClose
    }
}

/// A connection that the user closed is never opened again.
pub proof fn law_user_close_is_final(code: u16)
    ensures
        !close_reason(code, true).is_reconnectable(),
{
}

/// A connection that the server closed is opened again exactly when the code is one of the
/// temporary ones or one without a meaning of its own.
pub proof fn law_reconnect_after_server_close(code: u16)
    ensures
        close_reason(code, false).is_reconnectable() <==> {
            ||| is_temporary_close_code(code)
            ||| !(code == 1000 || code == 1015 || is_protocol_close_code(code)
                || is_permanent_close_code(code))
        },
{
}

/// A transport error rules out a new connection exactly when it blames the configuration, the
/// protocol or the permissions. The one protocol error that does not is a connection that was
/// reset without a closing handshake.
pub proof fn law_reconnect_after_transport_error(error: Error)
    ensures
        !transport_failure_reason(error).is_reconnectable() <==> {
            ||| error is Tls
            ||| error is Capacity
            ||| error is Url
            ||| error is Utf8
            ||| error is HttpFormat
            ||| error matches Error::Protocol(violation)
                && !(violation is ResetWithoutClosingHandshake)
            ||| error matches Error::Io(io_error) && io_error_kind(io_error) is PermissionDenied
        },
{
}

/// A transport error is never taken for a close that a peer announced or that the user asked for.
pub proof fn law_transport_error_is_no_close(error: Error)
    ensures
        !(transport_failure_reason(error) is UserInitiatedClose),
        !(transport_failure_reason(error) is NormalClose),
        !(transport_failure_reason(error) is PermanentServerError),
{
}

/// What a close code means, for every code. A close that the user asked for is a reason of its own.
/// A close by the server is normal at 1000, temporary at 1001 and from 1011 to 1013, a violation at
/// 1002, 1003, 1007, 1009 and 1010, permanent at 1008, 1014 and at every code from 4000 to 4999,
/// and blamed on the configuration at 1015. Every other code is an unexpected close.
pub proof fn law_close_code_classes(
    code: u16,
    user_initiated: bool,
    reason: WebsocketConnectionFailureReason,
)
    requires
        call_ensures(
            WebsocketConnectionFailureReason::from_close_code,
            (code, user_initiated),
            reason,
        ),
    ensures
        reason is UserInitiatedClose <==> user_initiated,
        reason is NormalClose <==> !user_initiated && code == 1000,
        reason is ServerTemporaryError <==> !user_initiated && (code == 1001 || 1011 <= code
            <= 1013),
        reason is ProtocolViolation <==> !user_initiated && (code == 1002 || code == 1003 || code
            == 1007 || code == 1009 || code == 1010),
        reason is PermanentServerError <==> !user_initiated && (code == 1008 || code == 1014
            || 4000 <= code <= 4999),
        reason is ConfigurationError <==> !user_initiated && code == 1015,
        reason is UnexpectedClose <==> !user_initiated && (code < 1000 || 1004 <= code <= 1006
            || 1016 <= code < 4000 || code >= 5000),
{
}

/// Whether a closed connection is opened again, for every code: never after a close that the user
/// asked for; after a close by the server at 1001, from 1011 to 1013, and at every code that has no
/// class of its own. In particular a server that turns the client away with a code from 4000 to
/// 4999 is left alone.
pub proof fn law_close_code_decides_reconnect(
    code: u16,
    user_initiated: bool,
    reason: WebsocketConnectionFailureReason,
    reconnect: bool,
)
    requires
        call_ensures(
            WebsocketConnectionFailureReason::from_close_code,
            (code, user_initiated),
            reason,
        ),
        call_ensures(WebsocketConnectionFailureReason::should_reconnect, (&reason,), reconnect),
    ensures
        user_initiated ==> !reconnect,
        4000 <= code <= 4999 ==> !reconnect,
        reconnect <==> !user_initiated && (code < 1000 || code == 1001 || 1004 <= code <= 1006
            || 1011 <= code <= 1013 || 1016 <= code < 4000 || code >= 5000),
{
}

/// Which failures are worth a new connection, for every reason: interruptions, resets, temporary
/// server errors, unexpected closes and ended streams, and no others.
pub proof fn law_reconnect_decision(reason: WebsocketConnectionFailureReason, reconnect: bool)
    requires
        call_ensures(WebsocketConnectionFailureReason::should_reconnect, (&reason,), reconnect),
    ensures
        reason is NetworkInterruption ==> reconnect,
        reason is ConnectionReset ==> reconnect,
        reason is ServerTemporaryError ==> reconnect,
        reason is UnexpectedClose ==> reconnect,
        reason is StreamEnded ==> reconnect,
        reason is AuthenticationFailure ==> !reconnect,
        reason is ProtocolViolation ==> !reconnect,
        reason is ConfigurationError ==> !reconnect,
        reason is UserInitiatedClose ==> !reconnect,
        reason is PermanentServerError ==> !reconnect,
        reason is NormalClose ==> !reconnect,
{
}

/// What an I/O error means, for every kind, and whether the connection is opened again: always but
/// where permission was denied.
pub proof fn law_io_error_classes(
    kind: ErrorKind,
    reason: WebsocketConnectionFailureReason,
    reconnect: bool,
)
    requires
        call_ensures(WebsocketConnectionFailureReason::from_io_error_kind, (kind,), reason),
        call_ensures(WebsocketConnectionFailureReason::should_reconnect, (&reason,), reconnect),
    ensures
        reason is ConnectionReset <==> kind is ConnectionReset || kind is ConnectionAborted,
        reason is StreamEnded <==> kind is UnexpectedEof,
        reason is AuthenticationFailure <==> kind is PermissionDenied,
        reason is NetworkInterruption <==> !(kind is ConnectionReset || kind is ConnectionAborted
            || kind is UnexpectedEof || kind is PermissionDenied),
        reconnect <==> !(kind is PermissionDenied),
{
}

/// What a transport error means, for every error. An I/O error means what its kind means.
pub proof fn law_transport_error_classes(error: Error, reason: WebsocketConnectionFailureReason)
    requires
        call_ensures(WebsocketConnectionFailureReason::from_tungstenite_error, (&error,), reason),
    ensures
        error is ConnectionClosed ==> reason is ConnectionReset,
        error is AlreadyClosed ==> reason is ConnectionReset,
        error matches Error::Io(io_error) ==> forall|kind: ErrorKind| #[trigger]
            call_ensures(std::io::Error::kind, (&io_error,), kind) ==> {
                &&& kind is ConnectionReset || kind is ConnectionAborted ==> reason
                    is ConnectionReset
                &&& kind is UnexpectedEof ==> reason is StreamEnded
                &&& kind is PermissionDenied ==> reason is AuthenticationFailure
                &&& !(kind is ConnectionReset || kind is ConnectionAborted || kind is UnexpectedEof
                    || kind is PermissionDenied) ==> reason is NetworkInterruption
            },
        error is Tls ==> reason is ConfigurationError,
        error is Capacity ==> reason is ConfigurationError,
        error is Url ==> reason is ConfigurationError,
        error matches Error::Protocol(violation) ==> if violation is ResetWithoutClosingHandshake {
            reason is UnexpectedClose
        } else {
            reason is ProtocolViolation
        },
        error is Utf8 ==> reason is ProtocolViolation,
        error is HttpFormat ==> reason is ProtocolViolation,
        error is Http ==> reason is ServerTemporaryError,
        error is WriteBufferFull ==> reason is NetworkInterruption,
        error is AttackAttempt ==> reason is NetworkInterruption,
{
}

/// Failure of a REST call.
#[derive(Debug)]
pub enum ConnectorError {
    /// HTTP response returned by the API with its machine-readable payload and
    /// headers preserved. Callers that normalize venue errors need the raw
    /// status/code/message tuple and headers such as `Retry-After`.
    ApiError { status_code: u16, msg: String, code: Option<i64>, headers: HashMap<String, String> },
    /// The server sent response headers but the response body could not be
    /// read completely. For state-changing requests execution is unknown, so
    /// the SDK preserves the response metadata and never retries internally.
    ResponseBodyError { status_code: u16, msg: String, headers: HashMap<String, String> },
    ConnectorClientError { msg: String, code: Option<i64> },
    UnauthorizedError { msg: String, code: Option<i64> },
    ForbiddenError { msg: String, code: Option<i64> },
    TooManyRequestsError { msg: String, code: Option<i64> },
    RateLimitBanError { msg: String, code: Option<i64> },
    ServerError { msg: String, status_code: Option<u16> },
    NetworkError(String),
    NotFoundError { msg: String, code: Option<i64> },
    BadRequestError { msg: String, code: Option<i64> },
}

fn prefixed(prefix: &str, rest: &str) -> (text: String)
    ensures
        text@ == prefix@ + rest@,
{
    let mut text = String::from(prefix);
    text.append(rest);
    text
}

impl ConnectorError {
    /// The message that displays the error.
    pub fn display_text(&self) -> (text: String)
        ensures
            text@ == self.display_spec(),
    {
        match self {
            ConnectorError::ApiError { status_code, msg, code, .. } => {
                let mut text = String::from("API error ");
                append_decimal(&mut text, *status_code as u64);
                text.append(": ");
                text.append(msg.as_str());
                text.append(" (code: ");
                append_optional_signed(&mut text, code);
                text.append(")");
                text
            },
            ConnectorError::ResponseBodyError { status_code, msg, .. } => {
                let mut text = String::from("Failed to read API response body (status code: ");
                append_decimal(&mut text, *status_code as u64);
                text.append("): ");
                text.append(msg.as_str());
                text
            },
            ConnectorError::ConnectorClientError { msg, .. } => {
                prefixed("Connector client error: ", msg.as_str())
            },
            ConnectorError::UnauthorizedError { msg, .. } => {
                prefixed("Unauthorized access. Authentication required. ", msg.as_str())
            },
            ConnectorError::ForbiddenError { msg, .. } => {
                prefixed("Access to the requested resource is forbidden. ", msg.as_str())
            },
            ConnectorError::TooManyRequestsError { msg, .. } => {
                prefixed("Too many requests. You are being rate-limited. ", msg.as_str())
            },
            ConnectorError::RateLimitBanError { msg, .. } => {
                prefixed("The IP address has been banned for exceeding rate limits. ", msg.as_str())
            },
            ConnectorError::ServerError { msg, status_code } => {
                let mut text = prefixed("Internal server error: ", msg.as_str());
                text.append(" (status code: ");
                let status: Option<u64> = match status_code {
                    Some(status) => Some(*status as u64),
                    None => None,
                };
                append_optional_decimal(&mut text, status);
                text.append(")");
                text
            },
            ConnectorError::NetworkError(msg) => prefixed("Network error: ", msg.as_str()),
            ConnectorError::NotFoundError { msg, .. } => {
                prefixed("The requested resource was not found. ", msg.as_str())
            },
            ConnectorError::BadRequestError { msg, .. } => {
                prefixed("Bad request: ", msg.as_str())
            },
        }
    }

    /// The message that displays the error.
    pub open spec fn display_spec(&self) -> Seq<char> {
        match *self {
            ConnectorError::ApiError { status_code, msg, code, .. } => "API error "@
                + decimal(status_code as nat) + ": "@ + msg@ + " (code: "@ + optional_text(
                match code {
                    Some(code) => Some(signed_decimal(code as int)),
                    None => None,
                },
            ) + ")"@,
            ConnectorError::ResponseBodyError { status_code, msg, .. } =>
                "Failed to read API response body (status code: "@ + decimal(status_code as nat)
                + "): "@ + msg@,
            ConnectorError::ConnectorClientError { msg, .. } => "Connector client error: "@ + msg@,
            ConnectorError::UnauthorizedError { msg, .. } =>
                "Unauthorized access. Authentication required. "@ + msg@,
            ConnectorError::ForbiddenError { msg, .. } =>
                "Access to the requested resource is forbidden. "@ + msg@,
            ConnectorError::TooManyRequestsError { msg, .. } =>
                "Too many requests. You are being rate-limited. "@ + msg@,
            ConnectorError::RateLimitBanError { msg, .. } =>
                "The IP address has been banned for exceeding rate limits. "@ + msg@,
            ConnectorError::ServerError { msg, status_code } => "Internal server error: "@ + msg@
                + " (status code: "@ + optional_text(
                match status_code {
                    Some(status) => Some(decimal(status as nat)),
                    None => None,
                },
            ) + ")"@,
            ConnectorError::NetworkError(msg) => "Network error: "@ + msg@,
            ConnectorError::NotFoundError { msg, .. } =>
                "The requested resource was not found. "@ + msg@,
            ConnectorError::BadRequestError { msg, .. } => "Bad request: "@ + msg@,
        }
    }
}

/// Failure of a WebSocket client.
#[derive(Debug)]
pub enum WebsocketError {
    Timeout,
    Protocol(String),
    Url(url::ParseError),
    Handshake(String),
    NetworkError(String),
    NotConnected,
    ServerError(String),
    NoResponse,
    ResponseError { code: i64, message: String },
}

impl WebsocketError {
    /// The message that displays the error.
    pub fn display_text(&self) -> (text: String)
        ensures
            text@ == self.display_spec(),
    {
        match self {
            WebsocketError::Timeout => String::from("WebSocket timeout error"),
            WebsocketError::Protocol(msg) => prefixed("WebSocket protocol error: ", msg.as_str()),
            WebsocketError::Url(error) => {
                prefixed("URL parse error: ", describe_url_parse_error(error).as_str())
            },
            WebsocketError::Handshake(msg) => prefixed("WebSocket handshake error: ", msg.as_str()),
            WebsocketError::NetworkError(msg) => prefixed("Network error: ", msg.as_str()),
            WebsocketError::NotConnected => String::from("No active WebSocket connection error."),
            WebsocketError::ServerError(msg) => prefixed("Server error: ", msg.as_str()),
            WebsocketError::NoResponse => String::from("No response error."),
            WebsocketError::ResponseError { code, message } => {
                let mut text = String::from("Server‐side response error (code ");
                append_signed(&mut text, *code);
                text.append("): ");
                text.append(message.as_str());
                text
            },
        }
    }

    /// The message that displays the error.
    pub open spec fn display_spec(&self) -> Seq<char> {
        match *self {
            WebsocketError::Timeout => "WebSocket timeout error"@,
            WebsocketError::Protocol(msg) => "WebSocket protocol error: "@ + msg@,
            WebsocketError::Url(error) => "URL parse error: "@ + url_parse_error_text(error),
            WebsocketError::Handshake(msg) => "WebSocket handshake error: "@ + msg@,
            WebsocketError::NetworkError(msg) => "Network error: "@ + msg@,
            WebsocketError::NotConnected => "No active WebSocket connection error."@,
            WebsocketError::ServerError(msg) => "Server error: "@ + msg@,
            WebsocketError::NoResponse => "No response error."@,
            WebsocketError::ResponseError { code, message } => "Server‐side response error (code "@
                + signed_decimal(code as int) + "): "@ + message@,
        }
    }
}

impl From<url::ParseError> for WebsocketError {
    fn from(error: url::ParseError) -> (result: Self) {
        WebsocketError::Url(error)
    }
}

impl vstd::std_specs::convert::FromSpecImpl<url::ParseError> for WebsocketError {
    open spec fn obeys_from_spec() -> bool {
        true
    }

    open spec fn from_spec(error: url::ParseError) -> Self {
        WebsocketError::Url(error)
    }
}

/// Fail-closed errors for JSON stream subscription confirmation. The error
/// surface deliberately omits stream parameters and server messages because a
/// private stream parameter can contain a listen key.
#[derive(Clone, Debug, PartialEq, Eq)]
pub enum StreamSubscriptionError {
    AlreadyDesired { request_id: u32 },
    NoConnection { request_id: u32 },
    NotConnected { context: StreamSubscriptionContext },
    DuplicateRequestId { context: StreamSubscriptionContext },
    Rejected { context: StreamSubscriptionContext, code: i64 },
    Timeout { context: StreamSubscriptionContext },
    Protocol { context: StreamSubscriptionContext },
    SessionReplaced { context: StreamSubscriptionContext },
    Disconnected { context: StreamSubscriptionContext },
    ResponseChannelClosed { context: StreamSubscriptionContext },
}

fn about_request(prefix: &str, request_id: u32) -> (text: String)
    ensures
        text@ == prefix@ + decimal(request_id as nat) + ")"@,
{
    let mut text = String::from(prefix);
    append_decimal(&mut text, request_id as u64);
    text.append(")");
    text
}

fn about_context(prefix: &str, context: &StreamSubscriptionContext) -> (text: String)
    ensures
        text@ == prefix@ + context.debug_spec(),
{
    prefixed(prefix, context.debug_text().as_str())
}

impl StreamSubscriptionError {
    /// The message that displays the error.
    pub fn display_text(&self) -> (text: String)
        ensures
            text@ == self.display_spec(),
    {
        match self {
            StreamSubscriptionError::AlreadyDesired { request_id } => {
                about_request("stream subscription is already desired (request ", *request_id)
            },
            StreamSubscriptionError::NoConnection { request_id } => {
                about_request("no WebSocket connection is available (request ", *request_id)
            },
            StreamSubscriptionError::NotConnected { context } => {
                about_context("stream subscription transport is not connected: ", context)
            },
            StreamSubscriptionError::DuplicateRequestId { context } => {
                about_context(
                    "stream subscription request id was already used on this session: ",
                    context,
                )
            },
            StreamSubscriptionError::Rejected { context, code } => {
                let mut text = String::from("stream subscription was rejected with code ");
                append_signed(&mut text, *code);
                text.append(": ");
                text.append(context.debug_text().as_str());
                text
            },
            StreamSubscriptionError::Timeout { context } => {
                about_context("stream subscription timed out: ", context)
            },
            StreamSubscriptionError::Protocol { context } => {
                about_context("stream subscription response violated the protocol: ", context)
            },
            StreamSubscriptionError::SessionReplaced { context } => {
                about_context("stream subscription session was replaced: ", context)
            },
            StreamSubscriptionError::Disconnected { context } => {
                about_context("stream subscription transport disconnected: ", context)
            },
            StreamSubscriptionError::ResponseChannelClosed { context } => {
                about_context("stream subscription response channel closed: ", context)
            },
        }
    }

    /// The message that displays the error.
    pub open spec fn display_spec(&self) -> Seq<char> {
        match *self {
            StreamSubscriptionError::AlreadyDesired { request_id } =>
                "stream subscription is already desired (request "@ + decimal(request_id as nat)
                + ")"@,
            StreamSubscriptionError::NoConnection { request_id } =>
                "no WebSocket connection is available (request "@ + decimal(request_id as nat)
                + ")"@,
            StreamSubscriptionError::NotConnected { context } =>
                "stream subscription transport is not connected: "@ + context.debug_spec(),
            StreamSubscriptionError::DuplicateRequestId { context } =>
                "stream subscription request id was already used on this session: "@
                + context.debug_spec(),
            StreamSubscriptionError::Rejected { context, code } =>
                "stream subscription was rejected with code "@ + signed_decimal(code as int)
                + ": "@ + context.debug_spec(),
            StreamSubscriptionError::Timeout { context } => "stream subscription timed out: "@
                + context.debug_spec(),
            StreamSubscriptionError::Protocol { context } =>
                "stream subscription response violated the protocol: "@ + context.debug_spec(),
            StreamSubscriptionError::SessionReplaced { context } =>
                "stream subscription session was replaced: "@ + context.debug_spec(),
            StreamSubscriptionError::Disconnected { context } =>
                "stream subscription transport disconnected: "@ + context.debug_spec(),
            StreamSubscriptionError::ResponseChannelClosed { context } =>
                "stream subscription response channel closed: "@ + context.debug_spec(),
        }
    }
}

/// The message of a REST failure, for every kind of failure and all that it holds. It shows the
/// message of the failure and, where they matter, the status and the code; it never shows headers.
pub proof fn law_connector_error_messages(error: ConnectorError, text: String)
    requires
        call_ensures(ConnectorError::display_text, (&error,), text),
    ensures
        error matches ConnectorError::ApiError { status_code, msg, code, .. } ==> text@
            == "API error "@ + decimal(status_code as nat) + ": "@ + msg@ + " (code: "@ + (
            match code {
                Some(code) => "Some("@ + signed_decimal(code as int) + ")"@,
                None => "None"@,
            }
        ) + ")"@,
        error matches ConnectorError::ResponseBodyError { status_code, msg, .. } ==> text@
            == "Failed to read API response body (status code: "@ + decimal(status_code as nat)
            + "): "@ + msg@,
        error matches ConnectorError::ServerError { msg, status_code } ==> text@
            == "Internal server error: "@ + msg@ + " (status code: "@ + (
            match status_code {
                Some(status) => "Some("@ + decimal(status as nat) + ")"@,
                None => "None"@,
            }
        ) + ")"@,
        error matches ConnectorError::NetworkError(msg) ==> text@ == "Network error: "@ + msg@,
        error matches ConnectorError::ConnectorClientError { msg, .. } ==> text@
            == "Connector client error: "@ + msg@,
        error matches ConnectorError::UnauthorizedError { msg, .. } ==> text@
            == "Unauthorized access. Authentication required. "@ + msg@,
        error matches ConnectorError::ForbiddenError { msg, .. } ==> text@
            == "Access to the requested resource is forbidden. "@ + msg@,
        error matches ConnectorError::TooManyRequestsError { msg, .. } ==> text@
            == "Too many requests. You are being rate-limited. "@ + msg@,
        error matches ConnectorError::RateLimitBanError { msg, .. } ==> text@
            == "The IP address has been banned for exceeding rate limits. "@ + msg@,
        error matches ConnectorError::NotFoundError { msg, .. } ==> text@
            == "The requested resource was not found. "@ + msg@,
        error matches ConnectorError::BadRequestError { msg, .. } ==> text@
            == "Bad request: "@ + msg@,
{
}

/// The message of a WebSocket failure, for every kind of failure and all that it holds.
pub proof fn law_websocket_error_messages(error: WebsocketError, text: String)
    requires
        call_ensures(WebsocketError::display_text, (&error,), text),
    ensures
        error is Timeout ==> text@ == "WebSocket timeout error"@,
        error matches WebsocketError::Protocol(msg) ==> text@ == "WebSocket protocol error: "@
            + msg@,
        error matches WebsocketError::Handshake(msg) ==> text@ == "WebSocket handshake error: "@
            + msg@,
        error matches WebsocketError::NetworkError(msg) ==> text@ == "Network error: "@ + msg@,
        error is NotConnected ==> text@ == "No active WebSocket connection error."@,
        error matches WebsocketError::ServerError(msg) ==> text@ == "Server error: "@ + msg@,
        error is NoResponse ==> text@ == "No response error."@,
        error matches WebsocketError::ResponseError { code, message } ==> text@
            == "Server‐side response error (code "@ + signed_decimal(code as int) + "): "@
            + message@,
{
}

/// The message of a URL that cannot be parsed, for every way in which parsing can fail.
pub proof fn law_url_error_messages(error: url::ParseError, wrapped: WebsocketError, text: String)
    requires
        call_ensures(<WebsocketError as From<url::ParseError>>::from, (error,), wrapped),
        call_ensures(WebsocketError::display_text, (&wrapped,), text),
    ensures
        wrapped == WebsocketError::Url(error),
        error is EmptyHost ==> text@ == "URL parse error: "@
            + "empty host"@,
        error is IdnaError ==> text@ == "URL parse error: "@
            + "invalid international domain name"@,
        error is InvalidPort ==> text@ == "URL parse error: "@
            + "invalid port number"@,
        error is InvalidIpv4Address ==> text@ == "URL parse error: "@
            + "invalid IPv4 address"@,
        error is InvalidIpv6Address ==> text@ == "URL parse error: "@
            + "invalid IPv6 address"@,
        error is InvalidDomainCharacter ==> text@ == "URL parse error: "@
            + "invalid domain character"@,
        error is RelativeUrlWithoutBase ==> text@ == "URL parse error: "@
            + "relative URL without a base"@,
        error is RelativeUrlWithCannotBeABaseBase ==> text@ == "URL parse error: "@
            + "relative URL with a cannot-be-a-base base"@,
        error is SetHostOnCannotBeABaseUrl ==> text@ == "URL parse error: "@
            + "a cannot-be-a-base URL doesn’t have a host to set"@,
        error is Overflow ==> text@ == "URL parse error: "@
            + "URLs more than 4 GB are not supported"@,
{
}

/// The message of a subscription failure, for every kind of failure and all that it holds. A
/// failure before a connection was chosen shows the request, every other one shows the whole
/// context of the request, whose text is `shown`.
pub proof fn law_subscription_error_messages(
    error: StreamSubscriptionError,
    text: String,
    shown: String,
)
    requires
        call_ensures(StreamSubscriptionError::display_text, (&error,), text),
        match error {
            StreamSubscriptionError::AlreadyDesired { .. } => true,
            StreamSubscriptionError::NoConnection { .. } => true,
            StreamSubscriptionError::NotConnected { context } => call_ensures(
                StreamSubscriptionContext::debug_text,
                (&context,),
                shown,
            ),
            StreamSubscriptionError::DuplicateRequestId { context } => call_ensures(
                StreamSubscriptionContext::debug_text,
                (&context,),
                shown,
            ),
            StreamSubscriptionError::Rejected { context, .. } => call_ensures(
                StreamSubscriptionContext::debug_text,
                (&context,),
                shown,
            ),
            StreamSubscriptionError::Timeout { context } => call_ensures(
                StreamSubscriptionContext::debug_text,
                (&context,),
                shown,
            ),
            StreamSubscriptionError::Protocol { context } => call_ensures(
                StreamSubscriptionContext::debug_text,
                (&context,),
                shown,
            ),
            StreamSubscriptionError::SessionReplaced { context } => call_ensures(
                StreamSubscriptionContext::debug_text,
                (&context,),
                shown,
            ),
            StreamSubscriptionError::Disconnected { context } => call_ensures(
                StreamSubscriptionContext::debug_text,
                (&context,),
                shown,
            ),
            StreamSubscriptionError::ResponseChannelClosed { context } => call_ensures(
                StreamSubscriptionContext::debug_text,
                (&context,),
                shown,
            ),
        },
    ensures
        error matches StreamSubscriptionError::AlreadyDesired { request_id } ==> text@
            == "stream subscription is already desired (request "@ + decimal(request_id as nat)
            + ")"@,
        error matches StreamSubscriptionError::NoConnection { request_id } ==> text@
            == "no WebSocket connection is available (request "@ + decimal(request_id as nat)
            + ")"@,
        error matches StreamSubscriptionError::Rejected { code, .. } ==> text@
            == "stream subscription was rejected with code "@ + signed_decimal(code as int) + ": "@
            + shown@,
        error is NotConnected ==> text@
            == "stream subscription transport is not connected: "@ + shown@,
        error is DuplicateRequestId ==> text@
            == "stream subscription request id was already used on this session: "@ + shown@,
        error is Timeout ==> text@
            == "stream subscription timed out: "@ + shown@,
        error is Protocol ==> text@
            == "stream subscription response violated the protocol: "@ + shown@,
        error is SessionReplaced ==> text@
            == "stream subscription session was replaced: "@ + shown@,
        error is Disconnected ==> text@
            == "stream subscription transport disconnected: "@ + shown@,
        error is ResponseChannelClosed ==> text@
            == "stream subscription response channel closed: "@ + shown@,
{
}

} // verus!

use std::collections::HashMap;
use std::io;

use binance_common::errors::{
    ConnectorError, StreamSubscriptionError, WebsocketConnectionFailureReason, WebsocketError,
};
use binance_common::models::{StreamSubscriptionContext, StreamSubscriptionScope};
use tokio_tungstenite::tungstenite::error::{CapacityError, ProtocolError, TlsError, UrlError};
use tokio_tungstenite::tungstenite::http::{Response, StatusCode};
use tokio_tungstenite::tungstenite::{Error, Message};

type Reason = WebsocketConnectionFailureReason;

fn name(reason: Reason) -> String {
    format!("{:?}", reason)
}

fn close(code: u16) -> String {
    name(Reason::from_close_code(code, false))
}

fn transport(error: Error) -> String {
    name(Reason::from_tungstenite_error(&error))
}

#[test]
fn close_codes_have_their_reasons() {
    assert_eq!(close(1000), "NormalClose");
    for code in [1001, 1011, 1012, 1013] {
        assert_eq!(close(code), "ServerTemporaryError");
    }
    for code in [1002, 1003, 1007, 1009, 1010] {
        assert_eq!(close(code), "ProtocolViolation");
    }
    for code in [1008, 1014, 4000, 4500, 4999] {
        assert_eq!(close(code), "PermanentServerError");
    }
    assert_eq!(close(1015), "ConfigurationError");
    for code in [0, 999, 1004, 1005, 1006, 1016, 3999, 5000, u16::MAX] {
        assert_eq!(close(code), "UnexpectedClose");
    }
}

#[test]
fn user_close_is_final() {
    for code in 0..=u16::MAX {
        let reason = Reason::from_close_code(code, true);
        assert!(matches!(reason, Reason::UserInitiatedClose));
        assert!(!reason.should_reconnect());
    }
}

#[test]
fn reconnect_by_reason() {
    for reason in [
        Reason::NetworkInterruption,
        Reason::ConnectionReset,
        Reason::ServerTemporaryError,
        Reason::UnexpectedClose,
        Reason::StreamEnded,
    ] {
        assert!(reason.should_reconnect());
    }
    for reason in [
        Reason::AuthenticationFailure,
        Reason::ProtocolViolation,
        Reason::ConfigurationError,
        Reason::UserInitiatedClose,
        Reason::PermanentServerError,
        Reason::NormalClose,
    ] {
        assert!(!reason.should_reconnect());
    }
}

#[test]
fn reconnect_after_server_close() {
    for code in [1001, 1006, 1011, 1012, 1013, 3000] {
        assert!(Reason::from_close_code(code, false).should_reconnect());
    }
    for code in [1000, 1002, 1008, 1014, 1015, 4001] {
        assert!(!Reason::from_close_code(code, false).should_reconnect());
    }
}

#[test]
fn transport_errors_have_their_reasons() {
    assert_eq!(transport(Error::ConnectionClosed), "ConnectionReset");
    assert_eq!(transport(Error::AlreadyClosed), "ConnectionReset");
    assert_eq!(transport(Error::Tls(TlsError::InvalidDnsName)), "ConfigurationError");
    assert_eq!(
        transport(Error::Capacity(CapacityError::MessageTooLong { size: 2, max_size: 1 })),
        "ConfigurationError"
    );
    assert_eq!(transport(Error::Url(UrlError::NoHostName)), "ConfigurationError");
    assert_eq!(
        transport(Error::Protocol(ProtocolError::ResetWithoutClosingHandshake)),
        "UnexpectedClose"
    );
    assert_eq!(
        transport(Error::Protocol(ProtocolError::InvalidCloseSequence)),
        "ProtocolViolation"
    );
    assert_eq!(transport(Error::Utf8), "ProtocolViolation");
    let format_error = Response::builder().status(1000u16).body(()).unwrap_err();
    assert_eq!(transport(Error::HttpFormat(format_error)), "ProtocolViolation");
    let response = Response::builder().status(StatusCode::FORBIDDEN).body(None).unwrap();
    assert_eq!(transport(Error::Http(response)), "ServerTemporaryError");
    assert_eq!(transport(Error::AttackAttempt), "NetworkInterruption");
    assert_eq!(
        transport(Error::WriteBufferFull(Message::text("x"))),
        "NetworkInterruption"
    );
}

#[test]
fn io_errors_have_the_reason_of_their_kind() {
    for (kind, reason) in [
        (io::ErrorKind::ConnectionReset, "ConnectionReset"),
        (io::ErrorKind::ConnectionAborted, "ConnectionReset"),
        (io::ErrorKind::UnexpectedEof, "StreamEnded"),
        (io::ErrorKind::PermissionDenied, "AuthenticationFailure"),
        (io::ErrorKind::TimedOut, "NetworkInterruption"),
        (io::ErrorKind::BrokenPipe, "NetworkInterruption"),
        (io::ErrorKind::Other, "NetworkInterruption"),
    ] {
        assert_eq!(name(Reason::from_io_error_kind(kind)), reason);
        assert_eq!(transport(Error::Io(io::Error::from(kind))), reason);
        assert_eq!(transport(Error::Io(io::Error::new(kind, "custom"))), reason);
    }
}

#[test]
fn connector_error_messages() {
    let msg = || "why".to_string();
    let code = Some(-1121i64);
    let headers = HashMap::new;
    for (error, text) in [
        (
            ConnectorError::ApiError { status_code: 400, msg: msg(), code, headers: headers() },
            "API error 400: why (code: Some(-1121))",
        ),
        (
            ConnectorError::ApiError { status_code: 0, msg: msg(), code: None, headers: headers() },
            "API error 0: why (code: None)",
        ),
        (
            ConnectorError::ResponseBodyError { status_code: 502, msg: msg(), headers: headers() },
            "Failed to read API response body (status code: 502): why",
        ),
        (ConnectorError::ConnectorClientError { msg: msg(), code }, "Connector client error: why"),
        (
            ConnectorError::UnauthorizedError { msg: msg(), code },
            "Unauthorized access. Authentication required. why",
        ),
        (
            ConnectorError::ForbiddenError { msg: msg(), code },
            "Access to the requested resource is forbidden. why",
        ),
        (
            ConnectorError::TooManyRequestsError { msg: msg(), code },
            "Too many requests. You are being rate-limited. why",
        ),
        (
            ConnectorError::RateLimitBanError { msg: msg(), code },
            "The IP address has been banned for exceeding rate limits. why",
        ),
        (
            ConnectorError::ServerError { msg: msg(), status_code: Some(503) },
            "Internal server error: why (status code: Some(503))",
        ),
        (
            ConnectorError::ServerError { msg: msg(), status_code: None },
            "Internal server error: why (status code: None)",
        ),
        (ConnectorError::NetworkError(msg()), "Network error: why"),
        (
            ConnectorError::NotFoundError { msg: msg(), code },
            "The requested resource was not found. why",
        ),
        (ConnectorError::BadRequestError { msg: msg(), code: None }, "Bad request: why"),
    ] {
        assert_eq!(error.display_text(), text);
    }
}

#[test]
fn codes_are_written_in_full() {
    for code in [i64::MIN, i64::MIN + 1, -10, -1, 0, 9, 10, 1000, i64::MAX] {
        let error = WebsocketError::ResponseError { code, message: "m".to_string() };
        assert_eq!(
            error.display_text(),
            format!("Server\u{2010}side response error (code {}): m", code)
        );
    }
}

#[test]
fn websocket_error_messages() {
    let msg = || "why".to_string();
    for (error, text) in [
        (WebsocketError::Timeout, "WebSocket timeout error"),
        (WebsocketError::Protocol(msg()), "WebSocket protocol error: why"),
        (WebsocketError::Handshake(msg()), "WebSocket handshake error: why"),
        (WebsocketError::NetworkError(msg()), "Network error: why"),
        (WebsocketError::NotConnected, "No active WebSocket connection error."),
        (WebsocketError::ServerError(msg()), "Server error: why"),
        (WebsocketError::NoResponse, "No response error."),
    ] {
        assert_eq!(error.display_text(), text);
    }
}

#[test]
fn url_errors_are_described() {
    let error = WebsocketError::from(url::Url::parse("not a url").unwrap_err());
    assert!(matches!(
        error,
        WebsocketError::Url(url::ParseError::RelativeUrlWithoutBase)
    ));
    assert_eq!(error.display_text(), "URL parse error: relative URL without a base");
    for (error, text) in [
        (url::ParseError::EmptyHost, "empty host"),
        (url::ParseError::IdnaError, "invalid international domain name"),
        (url::ParseError::InvalidPort, "invalid port number"),
        (url::ParseError::InvalidIpv4Address, "invalid IPv4 address"),
        (url::ParseError::InvalidIpv6Address, "invalid IPv6 address"),
        (url::ParseError::InvalidDomainCharacter, "invalid domain character"),
        (
            url::ParseError::RelativeUrlWithCannotBeABaseBase,
            "relative URL with a cannot-be-a-base base",
        ),
        (
            url::ParseError::SetHostOnCannotBeABaseUrl,
            "a cannot-be-a-base URL doesn\u{2019}t have a host to set",
        ),
        (url::ParseError::Overflow, "URLs more than 4 GB are not supported"),
    ] {
        assert_eq!(
            WebsocketError::from(error).display_text(),
            format!("URL parse error: {}", text)
        );
    }
}

#[test]
fn subscription_error_messages() {
    let context = || StreamSubscriptionContext {
        connection_id: "c-1".to_string(),
        session_generation: 3,
        request_id: 42,
        path_scope: StreamSubscriptionScope::Private,
    };
    let shown = "StreamSubscriptionContext { connection_id: \"c-1\", session_generation: 3, \
                 request_id: 42, path_scope: Private }";
    assert_eq!(
        StreamSubscriptionError::AlreadyDesired { request_id: 5 }.display_text(),
        "stream subscription is already desired (request 5)"
    );
    assert_eq!(
        StreamSubscriptionError::NoConnection { request_id: 4294967295 }.display_text(),
        "no WebSocket connection is available (request 4294967295)"
    );
    for (error, text) in [
        (
            StreamSubscriptionError::NotConnected { context: context() },
            "stream subscription transport is not connected: ",
        ),
        (
            StreamSubscriptionError::DuplicateRequestId { context: context() },
            "stream subscription request id was already used on this session: ",
        ),
        (
            StreamSubscriptionError::Rejected { context: context(), code: -2 },
            "stream subscription was rejected with code -2: ",
        ),
        (
            StreamSubscriptionError::Timeout { context: context() },
            "stream subscription timed out: ",
        ),
        (
            StreamSubscriptionError::Protocol { context: context() },
            "stream subscription response violated the protocol: ",
        ),
        (
            StreamSubscriptionError::SessionReplaced { context: context() },
            "stream subscription session was replaced: ",
        ),
        (
            StreamSubscriptionError::Disconnected { context: context() },
            "stream subscription transport disconnected: ",
        ),
        (
            StreamSubscriptionError::ResponseChannelClosed { context: context() },
            "stream subscription response channel closed: ",
        ),
    ] {
        assert_eq!(error.display_text(), format!("{}{}", text, shown));
    }
}

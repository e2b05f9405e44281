use std::collections::HashMap;

use binance_common::models::{
    ConfigBuildError, Interval, ParamBuildError, RateLimitType, RestApiRateLimit, RestApiResponse,
    StreamId, StreamSubscriptionContext, StreamSubscriptionScope, TimeUnit,
    WebsocketApiConnectConfig, WebsocketMode, WebsocketStreamsConnectConfig,
};
use derive_builder::UninitializedFieldError;

#[test]
fn time_unit_names() {
    assert_eq!(TimeUnit::Millisecond.as_upper_str(), "MILLISECOND");
    assert_eq!(TimeUnit::Microsecond.as_upper_str(), "MICROSECOND");
    assert_eq!(TimeUnit::Millisecond.as_lower_str(), "millisecond");
    assert_eq!(TimeUnit::Microsecond.as_lower_str(), "microsecond");
    assert_eq!(TimeUnit::Millisecond.display_text(), "millisecond");
    assert_eq!(TimeUnit::Microsecond.display_text(), "microsecond");
}

#[test]
fn time_unit_names_are_the_same_word() {
    for unit in [TimeUnit::Millisecond, TimeUnit::Microsecond] {
        assert_eq!(unit.as_lower_str().to_ascii_uppercase(), unit.as_upper_str());
    }
    assert_ne!(TimeUnit::Millisecond.as_upper_str(), TimeUnit::Microsecond.as_upper_str());
}

#[test]
fn pool_sizes() {
    assert_eq!(WebsocketMode::Single.pool_size(), 1);
    assert_eq!(WebsocketMode::Pool(4).pool_size(), 4);
    assert_eq!(WebsocketMode::Pool(0).pool_size(), 0);
    assert_eq!(WebsocketMode::Pool(usize::MAX).pool_size(), usize::MAX);
}

#[test]
fn connect_configs_default_to_nothing() {
    assert_eq!(WebsocketApiConnectConfig::default().mode, None);
    let streams = WebsocketStreamsConnectConfig::default();
    assert!(streams.streams.is_empty());
    assert_eq!(streams.mode, None);
}

#[test]
fn stream_ids_from_strings_and_numbers() {
    assert_eq!(StreamId::from(String::from("abc")), StreamId::Str("abc".to_string()));
    assert_eq!(StreamId::from(7u32), StreamId::Number(7));
}

#[test]
fn missing_fields_are_named() {
    let param = ParamBuildError::from(UninitializedFieldError::new("symbol"));
    assert_eq!(param.display_text(), "missing required field `symbol`");
    assert!(matches!(param, ParamBuildError::UninitializedField("symbol")));
    let config = ConfigBuildError::from(UninitializedFieldError::new("timeout"));
    assert_eq!(config.display_text(), "Configuration missing or invalid `timeout`");
    assert!(matches!(config, ConfigBuildError::UninitializedField("timeout")));
}

#[test]
fn response_data_comes_from_its_function() {
    let owned = String::from("payload");
    let response = RestApiResponse {
        data_fn: move || owned,
        status: 200,
        headers: HashMap::new(),
        rate_limits: Some(vec![RestApiRateLimit {
            rate_limit_type: RateLimitType::RequestWeight,
            interval: Interval::Minute,
            interval_num: 1,
            count: 12,
            retry_after: None,
        }]),
    };
    assert_eq!(response.status, 200);
    assert_eq!(response.data(), "payload");
}

#[test]
fn context_text_is_its_debug_text() {
    let scopes = [
        StreamSubscriptionScope::Default,
        StreamSubscriptionScope::Market,
        StreamSubscriptionScope::Public,
        StreamSubscriptionScope::Private,
        StreamSubscriptionScope::Stream,
        StreamSubscriptionScope::Ws,
        StreamSubscriptionScope::WsApi,
        StreamSubscriptionScope::Other,
    ];
    for path_scope in scopes {
        assert_eq!(path_scope.debug_text(), format!("{:?}", path_scope));
        for (connection_id, session_generation, request_id) in
            [("c-1", 0, 0), ("quo\"te\n", u64::MAX, u32::MAX), ("", 10, 100)]
        {
            let context = StreamSubscriptionContext {
                connection_id: connection_id.to_string(),
                session_generation,
                request_id,
                path_scope,
            };
            assert_eq!(context.debug_text(), format!("{:?}", context));
        }
    }
    let context = StreamSubscriptionContext {
        connection_id: "c-1".to_string(),
        session_generation: 3,
        request_id: 42,
        path_scope: StreamSubscriptionScope::Market,
    };
    assert_eq!(
        context.debug_text(),
        "StreamSubscriptionContext { connection_id: \"c-1\", session_generation: 3, \
         request_id: 42, path_scope: Market }"
    );
    assert_eq!(
        context.debug_text_with_id("<id>"),
        "StreamSubscriptionContext { connection_id: <id>, session_generation: 3, \
         request_id: 42, path_scope: Market }"
    );
}

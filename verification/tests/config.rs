use std::collections::HashMap;

use binance_common::config::{
    client_outcome, AgentConnector, ConfigurationRestApi, ConfigurationRestApiBuilder,
    ConfigurationWebsocketApi, ConfigurationWebsocketStreams, HttpAgent, PrivateKey, ProxyAuth,
    ProxyConfig, RawFrameObserver, SignatureGenerator, StreamSubscriptionObserver,
};
use binance_common::diagnostics::{
    render, DebugValue, QuotedField, QuotedProxy, QuotedProxyAuth, QuotedSignature, QuotedValue,
};
use binance_common::models::{ConfigBuildError, TimeUnit, WebsocketMode};
use tokio_tungstenite::Connector;

type Rest = ConfigurationRestApi<&'static str>;
type Streams = ConfigurationWebsocketStreams<u8, u8, u8, u8>;

fn proxy(password: &str) -> ProxyConfig {
    ProxyConfig {
        host: "proxy.example".to_string(),
        port: 8080,
        protocol: Some("https".to_string()),
        auth: Some(ProxyAuth { username: "user".to_string(), password: password.to_string() }),
    }
}

fn filled(key: &str, secret: &str, pem: &[u8], phrase: &str, password: &str) -> Rest {
    Rest::builder()
        .api_key(key)
        .api_secret(secret.to_string())
        .base_path("https://api.example")
        .timeout(10)
        .keep_alive(false)
        .compression(false)
        .follow_redirects(false)
        .retries(9)
        .preserve_error_response(true)
        .backoff(20)
        .proxy(proxy(password))
        .agent(HttpAgent("agent"))
        .private_key(PrivateKey::Raw(pem.to_vec()))
        .private_key_passphrase(phrase.to_string())
        .time_unit(TimeUnit::Microsecond)
        .build()
        .unwrap()
}

#[test]
fn rest_defaults() {
    let config = Rest::builder().build().unwrap();
    assert_eq!(config.api_key, None);
    assert_eq!(config.api_secret, None);
    assert_eq!(config.base_path, None);
    assert_eq!(config.timeout, 1000);
    assert!(config.keep_alive);
    assert!(config.compression);
    assert!(config.follow_redirects);
    assert_eq!(config.retries, 3);
    assert!(!config.preserve_error_response);
    assert_eq!(config.backoff, 1000);
    assert!(config.proxy.is_none());
    assert_eq!(config.custom_headers, None);
    assert!(config.agent.is_none());
    assert!(config.private_key.is_none());
    assert_eq!(config.private_key_passphrase, None);
    assert_eq!(config.time_unit, None);
    assert_eq!(config.user_agent, "");
    assert!(config.signature_gen.api_secret.is_none());
    let client = config.client.unwrap();
    assert_eq!(client.timeout, 1000);
    assert!(client.keep_alive);
    assert!(client.proxy.is_none());
    assert!(client.agent.is_none());
    assert!(client.follow_redirects);
}

#[test]
fn rest_settings_take_effect() {
    let config = filled("key", "secret", b"pem", "phrase", "password");
    assert_eq!(config.api_key.as_deref(), Some("key"));
    assert_eq!(config.api_secret.as_deref(), Some("secret"));
    assert_eq!(config.base_path.as_deref(), Some("https://api.example"));
    assert_eq!(config.timeout, 10);
    assert!(!config.keep_alive);
    assert!(!config.compression);
    assert!(!config.follow_redirects);
    assert_eq!(config.retries, 9);
    assert!(config.preserve_error_response);
    assert_eq!(config.backoff, 20);
    assert_eq!(config.time_unit, Some(TimeUnit::Microsecond));

    let client = config.client.unwrap();
    assert_eq!(client.timeout, 10);
    assert!(!client.keep_alive);
    assert!(!client.follow_redirects);
    assert_eq!(client.agent.unwrap().0, "agent");
    let used = client.proxy.unwrap();
    assert_eq!((used.host.as_str(), used.port), ("proxy.example", 8080));
    assert_eq!(used.protocol.as_deref(), Some("https"));
    assert_eq!(used.auth.unwrap().password, "password");

    assert_eq!(config.signature_gen.api_secret.as_deref(), Some("secret"));
    assert_eq!(config.signature_gen.private_key_passphrase.as_deref(), Some("phrase"));
    assert!(matches!(
        config.signature_gen.private_key,
        Some(PrivateKey::Raw(ref bytes)) if bytes == b"pem"
    ));
}

#[test]
fn last_setting_counts() {
    let config = Rest::builder().timeout(1).retries(2).timeout(3).build().unwrap();
    assert_eq!((config.timeout, config.retries), (3, 2));
    let config = Rest::builder().api_key("a").api_key(String::from("b")).build().unwrap();
    assert_eq!(config.api_key.as_deref(), Some("b"));
}

#[test]
fn settings_alone_have_no_client_and_no_signature() {
    let config = ConfigurationRestApiBuilder::<()>::default().api_secret("s").try_build().unwrap();
    assert_eq!(config.api_secret.as_deref(), Some("s"));
    assert!(config.client.is_none());
    assert!(config.signature_gen.api_secret.is_none());
    let config = ConfigurationWebsocketApi::builder().api_secret("s").try_build().unwrap();
    assert_eq!(config.api_secret.as_deref(), Some("s"));
    assert!(config.signature_gen.api_secret.is_none());
}

#[test]
fn websocket_api_defaults_and_settings() {
    let config = ConfigurationWebsocketApi::builder().build().unwrap();
    assert_eq!((config.timeout, config.reconnect_delay), (5000, 5000));
    assert_eq!(config.mode, WebsocketMode::Single);
    assert!(config.auto_session_relogon);
    assert!(config.api_key.is_none() && config.api_secret.is_none() && config.ws_url.is_none());
    assert!(config.agent.is_none() && config.private_key.is_none() && config.time_unit.is_none());

    let config = ConfigurationWebsocketApi::builder()
        .api_key("key")
        .api_secret("secret")
        .ws_url("wss://x")
        .timeout(1)
        .reconnect_delay(2)
        .mode(WebsocketMode::Pool(3))
        .agent(AgentConnector(Connector::Plain))
        .private_key(PrivateKey::File("key.pem".to_string()))
        .private_key_passphrase("phrase".to_string())
        .time_unit(TimeUnit::Millisecond)
        .auto_session_relogon(false)
        .build()
        .unwrap();
    assert_eq!((config.timeout, config.reconnect_delay), (1, 2));
    assert_eq!(config.mode.pool_size(), 3);
    assert!(!config.auto_session_relogon);
    assert_eq!(config.signature_gen.api_secret.as_deref(), Some("secret"));
    assert!(matches!(
        config.signature_gen.private_key,
        Some(PrivateKey::File(ref path)) if path == "key.pem"
    ));
    assert_eq!(config.signature_gen.private_key_passphrase.as_deref(), Some("phrase"));
    assert_eq!(
        config.debug_text(),
        "ConfigurationWebsocketApi { api_key: Some(\"[REDACTED]\"), \
         api_secret: Some(\"[REDACTED]\"), ws_url: Some(\"wss://x\"), timeout: 1, \
         reconnect_delay: 2, mode: Pool(3), agent: Some(Connector(\u{2026})), \
         private_key: Some(\"[REDACTED]\"), private_key_passphrase: Some(\"[REDACTED]\"), \
         time_unit: Some(Millisecond), auto_session_relogon: false, user_agent: \"\", \
         signature_gen: SignatureGenerator { api_secret: Some(\"[REDACTED]\"), \
         private_key: Some(\"[REDACTED]\"), private_key_passphrase: Some(\"[REDACTED]\") } }"
    );
}

#[test]
fn websocket_streams_defaults_and_settings() {
    let config = Streams::builder().build().unwrap();
    assert_eq!(config.reconnect_delay, 5000);
    assert_eq!(config.mode, WebsocketMode::Single);
    assert_eq!(
        config.debug_text(),
        "ConfigurationWebsocketStreams { ws_url: None, reconnect_delay: 5000, mode: Single, \
         agent: None, time_unit: None, raw_frame_observer: None, \
         stream_subscription_observer: None, user_agent: \"\" }"
    );
    let config = Streams::builder()
        .ws_url("wss://\"x\"")
        .reconnect_delay(6)
        .mode(WebsocketMode::Pool(2))
        .agent(AgentConnector(Connector::Plain))
        .time_unit(TimeUnit::Microsecond)
        .raw_frame_observer(RawFrameObserver::new(1))
        .stream_subscription_observer(StreamSubscriptionObserver::new(2))
        .build()
        .unwrap();
    assert_eq!(
        config.debug_text(),
        "ConfigurationWebsocketStreams { ws_url: Some(\"wss://\\\"x\\\"\"), reconnect_delay: 6, \
         mode: Pool(2), agent: Some(Connector(\u{2026})), time_unit: Some(Microsecond), \
         raw_frame_observer: Some(RawFrameObserver(<custom observer fn>)), \
         stream_subscription_observer: Some(StreamSubscriptionObserver(<custom observer fn>)), \
         user_agent: \"\" }"
    );
}

#[test]
fn diagnostics_of_a_rest_configuration() {
    let config = filled("key", "secret", b"pem", "phrase", "password");
    let names: Vec<&str> = config.debug_fields().iter().map(|field| field.name).collect();
    assert_eq!(
        names,
        [
            "api_key",
            "api_secret",
            "base_path",
            "timeout",
            "keep_alive",
            "compression",
            "follow_redirects",
            "retries",
            "preserve_error_response",
            "backoff",
            "proxy",
            "custom_headers",
            "agent",
            "private_key",
            "private_key_passphrase",
            "time_unit",
            "client",
            "user_agent",
            "signature_gen"
        ]
    );
    assert!(matches!(
        config.debug_fields()[0].value,
        DebugValue::Redacted(Some("[REDACTED]"))
    ));
    assert_eq!(
        config.debug_text(),
        "ConfigurationRestApi { api_key: Some(\"[REDACTED]\"), api_secret: Some(\"[REDACTED]\"), \
         base_path: Some(\"https://api.example\"), timeout: 10, keep_alive: false, \
         compression: false, follow_redirects: false, retries: 9, \
         preserve_error_response: true, backoff: 20, \
         proxy: Some(ProxyConfig { host: \"proxy.example\", port: 8080, \
         protocol: Some(\"https\"), auth: Some(ProxyAuth { username: \"user\", \
         password: \"[REDACTED]\" }) }), custom_headers: None, \
         agent: Some(HttpAgent(<custom agent fn>)), private_key: Some(\"[REDACTED]\"), \
         private_key_passphrase: Some(\"[REDACTED]\"), time_unit: Some(Microsecond), \
         client: \"<reqwest::Client>\", user_agent: \"\", \
         signature_gen: SignatureGenerator { api_secret: Some(\"[REDACTED]\"), \
         private_key: Some(\"[REDACTED]\"), private_key_passphrase: Some(\"[REDACTED]\") } }"
    );
}

#[test]
fn diagnostics_hide_secrets() {
    let one = filled("key", "secret", b"pem", "phrase", "password");
    let other = filled("other", "hidden", b"", "", "changed");
    assert_eq!(one.debug_text(), other.debug_text());
    for secret in ["\"key\"", "secret\"", "phrase\"", "\"password\""] {
        assert!(!one.debug_text().contains(secret));
    }
    assert_ne!(one.debug_text(), Rest::builder().build().unwrap().debug_text());
}

#[test]
fn request_headers_are_shown() {
    let headers = HashMap::from([("X-A".to_string(), "1".to_string())]);
    let config = Rest::builder().custom_headers(headers.clone()).build().unwrap();
    assert_eq!(config.custom_headers, Some(headers));
    assert!(config.debug_text().contains("custom_headers: Some({\"X-A\": \"1\"}), agent: None"));
    assert!(config
        .debug_text_with_headers("<2 headers>")
        .contains("custom_headers: Some(<2 headers>), agent: None"));
    let config = Rest::builder().custom_headers([("X-B".to_string(), String::new())]).build();
    assert_eq!(config.unwrap().custom_headers.unwrap()["X-B"], "");
}

#[test]
fn texts_of_parts() {
    assert_eq!(AgentConnector(Connector::Plain).debug_text(), "Connector(\u{2026})");
    assert_eq!(HttpAgent(0u8).debug_text(), "HttpAgent(<custom agent fn>)");
    assert_eq!(
        PrivateKey::File("secret.pem".to_string()).debug_text(),
        "PrivateKey::File([REDACTED])"
    );
    assert_eq!(PrivateKey::Raw(vec![1]).debug_text(), "PrivateKey::Raw([REDACTED])");
    assert_eq!(
        ProxyAuth { username: "u".to_string(), password: "p".to_string() }.debug_text(),
        "ProxyAuth { username: \"u\", password: \"[REDACTED]\" }"
    );
    let bare = ProxyConfig { host: String::new(), port: 0, protocol: None, auth: None };
    assert_eq!(
        bare.debug_text(),
        "ProxyConfig { host: \"\", port: 0, protocol: None, auth: None }"
    );
    assert_eq!(proxy("a").debug_text(), proxy("b").debug_text());
    assert_eq!(
        SignatureGenerator::new(Some("s".to_string()), None, None).debug_text(),
        "SignatureGenerator { api_secret: Some(\"[REDACTED]\"), private_key: None, \
         private_key_passphrase: None }"
    );
}

#[test]
fn clones_are_equal() {
    let config = filled("key", "secret", b"pem", "phrase", "password");
    let copy = config.clone();
    assert_eq!(copy.debug_text(), config.debug_text());
    assert_eq!(copy.signature_gen.api_secret, config.signature_gen.api_secret);
    assert_eq!(copy.proxy.unwrap().auth.unwrap().password, "password");
    let agent = AgentConnector(Connector::Plain);
    let streams = Streams::builder().ws_url("wss://x").agent(agent).build().unwrap();
    let copy = streams.clone();
    assert_eq!(copy.ws_url.as_deref(), Some("wss://x"));
    assert!(matches!(copy.agent, Some(AgentConnector(Connector::Plain))));
    let agent = AgentConnector(Connector::Plain);
    let api = ConfigurationWebsocketApi::builder().api_key("key").agent(agent).build().unwrap();
    let copy = api.clone();
    assert_eq!(copy.api_key.as_deref(), Some("key"));
    assert!(matches!(copy.agent, Some(AgentConnector(Connector::Plain))));
    assert!(ConfigurationWebsocketApi::builder().build().unwrap().clone().agent.is_none());
}

#[test]
fn header_texts() {
    let text = |entries: &[(&str, &str)]| {
        let headers: HashMap<String, String> =
            entries.iter().map(|(name, value)| (name.to_string(), value.to_string())).collect();
        Rest::builder().custom_headers(headers).api_secret("s3cret").build().unwrap().debug_text()
    };
    assert!(text(&[]).contains("custom_headers: Some({}), agent"));
    assert!(text(&[("A", "1")]).contains("custom_headers: Some({\"A\": \"1\"}), agent"));
    let two = text(&[("A", "1"), ("B", "\"2\"")]);
    let a = "\"A\": \"1\"";
    let b = "\"B\": \"\\\"2\\\"\"";
    assert!(
        two.contains(&format!("custom_headers: Some({{{}, {}}}), agent", a, b))
            || two.contains(&format!("custom_headers: Some({{{}, {}}}), agent", b, a))
    );
    assert!(!two.contains("s3cret"));
}

#[test]
fn secrets_are_hidden_beside_headers() {
    let build = |secret: &str| {
        Rest::builder()
            .api_secret(secret)
            .custom_headers([("X-A".to_string(), "1".to_string())])
            .build()
            .unwrap()
            .debug_text()
    };
    assert_eq!(build("one"), build("another"));
}

#[test]
fn texts_of_quoted_parts() {
    let auth = QuotedProxyAuth { username: "<u>".to_string(), password: "<p>".to_string() };
    assert_eq!(auth.text(), "ProxyAuth { username: <u>, password: <p> }");
    let proxy = QuotedProxy {
        host: "<h>".to_string(),
        port: 65535,
        protocol: Some("<s>".to_string()),
        auth: Some(auth),
    };
    let proxy_text = "ProxyConfig { host: <h>, port: 65535, protocol: Some(<s>), \
                      auth: Some(ProxyAuth { username: <u>, password: <p> }) }";
    assert_eq!(proxy.text(), proxy_text);
    let signature = QuotedSignature {
        api_secret: Some("<a>".to_string()),
        private_key: None,
        private_key_passphrase: None,
    };
    assert_eq!(
        signature.text(),
        "SignatureGenerator { api_secret: Some(<a>), private_key: None, \
         private_key_passphrase: None }"
    );
    let field = |name, value| QuotedField { name, value };
    let mode = WebsocketMode::Pool(10);
    let text = render(
        "Shown",
        &vec![
            field("a", QuotedValue::Plain("<t>".to_string())),
            field("b", QuotedValue::Optional(None)),
            field("c", QuotedValue::Optional(Some("<o>".to_string()))),
            field("d", QuotedValue::Number(u64::MAX)),
            field("e", QuotedValue::Flag(true)),
            field("f", QuotedValue::TimeUnit(Some(TimeUnit::Millisecond))),
            field("g", QuotedValue::TimeUnit(None)),
            field("h", QuotedValue::Mode(&mode)),
            field("i", QuotedValue::Proxy(Some(proxy))),
            field("j", QuotedValue::Proxy(None)),
        ],
    );
    assert_eq!(
        text,
        format!(
            "Shown {{ a: <t>, b: None, c: Some(<o>), d: 18446744073709551615, e: true, \
             f: Some(Millisecond), g: None, h: Pool(10), i: Some({}), j: None }}",
            proxy_text
        )
    );
    assert_eq!(render("Bare", &Vec::new()), "Bare");
}

#[test]
fn failed_client_setup_is_an_error() {
    let config = Rest::builder().timeout(7).build().unwrap();
    assert_eq!(client_outcome(config.clone(), true).unwrap().timeout, 7);
    match client_outcome(config, false) {
        Err(error) => {
            assert!(matches!(error, ConfigBuildError::UninitializedField("client")));
            assert_eq!(error.display_text(), "Configuration missing or invalid `client`");
        }
        Ok(_) => panic!("a failed set-up is no configuration"),
    }
}

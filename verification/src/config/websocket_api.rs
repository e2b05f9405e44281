//! Configuration of the WebSocket API client.

use vstd::prelude::*;
use crate::config::{AgentConnector, PrivateKey, SignatureGenerator};
use crate::config::{credentials, key_of, setting};
use crate::diagnostics::{redact, write_fields, DebugField, DebugValue};
use crate::diagnostics::{redaction, shown_if_set, struct_text};
use crate::diagnostics::{field_text, joined};
use crate::text::{decimal, quoted};
use crate::models::{ConfigBuildError, TimeUnit, WebsocketMode};

verus! {

/// Configuration of the WebSocket API client.
pub struct ConfigurationWebsocketApi {
    pub api_key: Option<String>,
    pub api_secret: Option<String>,
    pub ws_url: Option<String>,
    pub timeout: u64,
    pub reconnect_delay: u64,
    pub mode: WebsocketMode,
    pub agent: Option<AgentConnector>,
    pub private_key: Option<PrivateKey>,
    pub private_key_passphrase: Option<String>,
    pub time_unit: Option<TimeUnit>,
    pub auto_session_relogon: bool,
    pub user_agent: String,
    pub signature_gen: SignatureGenerator,
}

impl ConfigurationWebsocketApi {
    /// A builder without settings.
    #[must_use]
    pub fn builder() -> (builder: ConfigurationWebsocketApiBuilder)
        ensures
            builder == ConfigurationWebsocketApiBuilder::empty(),
    {
        ConfigurationWebsocketApiBuilder::default()
    }

    /// What is shown in diagnostics, field by field.
    pub fn debug_fields(&self) -> (fields: Vec<DebugField<'_>>)
        ensures
            fields@ == self.debug_spec(),
    {
        vec![
            DebugField { name: "api_key", value: DebugValue::Redacted(redact(&self.api_key)) },
            DebugField {
                name: "api_secret",
                value: DebugValue::Redacted(redact(&self.api_secret)),
            },
            DebugField { name: "ws_url", value: DebugValue::OptionalText(&self.ws_url) },
            DebugField { name: "timeout", value: DebugValue::Number(self.timeout) },
            DebugField { name: "reconnect_delay", value: DebugValue::Number(self.reconnect_delay) },
            DebugField { name: "mode", value: DebugValue::Mode(&self.mode) },
            DebugField {
                name: "agent",
                value: DebugValue::Opaque(
                    match &self.agent {
                        Some(agent) => Some(agent.debug_text()),
                        None => None,
                    },
                ),
            },
            DebugField {
                name: "private_key",
                value: DebugValue::Redacted(redact(&self.private_key)),
            },
            DebugField {
                name: "private_key_passphrase",
                value: DebugValue::Redacted(redact(&self.private_key_passphrase)),
            },
            DebugField { name: "time_unit", value: DebugValue::TimeUnit(self.time_unit) },
            DebugField {
                name: "auto_session_relogon",
                value: DebugValue::Flag(self.auto_session_relogon),
            },
            DebugField { name: "user_agent", value: DebugValue::Text(&self.user_agent) },
            DebugField {
                name: "signature_gen",
                value: DebugValue::Signature(self.signature_gen.debug_view()),
            },
        ]
    }

    /// The text that `Debug` writes, on one line.
    pub fn debug_text(&self) -> (text: String)
        ensures
            text@ == struct_text("ConfigurationWebsocketApi"@, self.debug_spec(), ""@),
    {
        write_fields("ConfigurationWebsocketApi", &self.debug_fields(), "")
    }

    /// What is shown in diagnostics, field by field.
    pub open spec fn debug_spec(&self) -> Seq<DebugField<'_>> {
        seq![
            DebugField { name: "api_key", value: DebugValue::Redacted(redaction(self.api_key)) },
            DebugField {
                name: "api_secret",
                value: DebugValue::Redacted(redaction(self.api_secret)),
            },
            DebugField { name: "ws_url", value: DebugValue::OptionalText(&self.ws_url) },
            DebugField { name: "timeout", value: DebugValue::Number(self.timeout) },
            DebugField { name: "reconnect_delay", value: DebugValue::Number(self.reconnect_delay) },
            DebugField { name: "mode", value: DebugValue::Mode(&self.mode) },
            DebugField {
                name: "agent",
                value: DebugValue::Opaque(
                    shown_if_set(self.agent, "Connector(…)"),
                ),
            },
            DebugField {
                name: "private_key",
                value: DebugValue::Redacted(redaction(self.private_key)),
            },
            DebugField {
                name: "private_key_passphrase",
                value: DebugValue::Redacted(redaction(self.private_key_passphrase)),
            },
            DebugField { name: "time_unit", value: DebugValue::TimeUnit(self.time_unit) },
            DebugField {
                name: "auto_session_relogon",
                value: DebugValue::Flag(self.auto_session_relogon),
            },
            DebugField { name: "user_agent", value: DebugValue::Text(&self.user_agent) },
            DebugField {
                name: "signature_gen",
                value: DebugValue::Signature(self.signature_gen.debug_spec()),
            },
        ]
    }
}

impl ConfigurationWebsocketApi {
    /// Whether `copy` is a clone of this value.
    pub open spec fn copied_to(&self, copy: &Self) -> bool {
        &&& copy.api_key == self.api_key
        &&& copy.api_secret == self.api_secret
        &&& copy.ws_url == self.ws_url
        &&& copy.timeout == self.timeout
        &&& copy.reconnect_delay == self.reconnect_delay
        &&& copy.mode == self.mode
        &&& copy.agent == self.agent
        &&& key_of(copy.private_key) == key_of(self.private_key)
        &&& copy.private_key_passphrase == self.private_key_passphrase
        &&& copy.time_unit == self.time_unit
        &&& copy.auto_session_relogon == self.auto_session_relogon
        &&& copy.user_agent == self.user_agent
        &&& copy.signature_gen@ == self.signature_gen@
        &&& copy.signature_gen.api_secret == self.signature_gen.api_secret
        &&& copy.signature_gen.private_key_passphrase == self.signature_gen.private_key_passphrase
    }
}

impl Clone for ConfigurationWebsocketApi {
    fn clone(&self) -> (result: Self)
        ensures
            self.copied_to(&result),
    {
        ConfigurationWebsocketApi {
            api_key: self.api_key.clone(),
            api_secret: self.api_secret.clone(),
            ws_url: self.ws_url.clone(),
            timeout: self.timeout,
            reconnect_delay: self.reconnect_delay,
            mode: self.mode.clone(),
            agent: self.agent.clone(),
            private_key: self.private_key.clone(),
            private_key_passphrase: self.private_key_passphrase.clone(),
            time_unit: self.time_unit,
            auto_session_relogon: self.auto_session_relogon,
            user_agent: self.user_agent.clone(),
            signature_gen: self.signature_gen.clone(),
        }
    }
}

/// Settings of a [`ConfigurationWebsocketApi`]. A setting that is left out has its default.
pub struct ConfigurationWebsocketApiBuilder {
    pub api_key: Option<Option<String>>,
    pub api_secret: Option<Option<String>>,
    pub ws_url: Option<Option<String>>,
    pub timeout: Option<u64>,
    pub reconnect_delay: Option<u64>,
    pub mode: Option<WebsocketMode>,
    pub agent: Option<Option<AgentConnector>>,
    pub private_key: Option<Option<PrivateKey>>,
    pub private_key_passphrase: Option<Option<String>>,
    pub time_unit: Option<Option<TimeUnit>>,
    pub auto_session_relogon: Option<bool>,
}

impl Default for ConfigurationWebsocketApiBuilder {
    fn default() -> (builder: Self)
        ensures
            builder == Self::empty(),
    {
        ConfigurationWebsocketApiBuilder {
            api_key: None,
            api_secret: None,
            ws_url: None,
            timeout: None,
            reconnect_delay: None,
            mode: None,
            agent: None,
            private_key: None,
            private_key_passphrase: None,
            time_unit: None,
            auto_session_relogon: None,
        }
    }
}

impl ConfigurationWebsocketApiBuilder {
    /// The builder without settings.
    pub open spec fn empty() -> Self {
        ConfigurationWebsocketApiBuilder {
            api_key: None,
            api_secret: None,
            ws_url: None,
            timeout: None,
            reconnect_delay: None,
            mode: None,
            agent: None,
            private_key: None,
            private_key_passphrase: None,
            time_unit: None,
            auto_session_relogon: None,
        }
    }

    /// Whether `config` has the settings of this builder, and the defaults where it has none.
    pub open spec fn settles(&self, config: &ConfigurationWebsocketApi) -> bool {
        &&& config.api_key == setting(self.api_key, None)
        &&& config.api_secret == setting(self.api_secret, None)
        &&& config.ws_url == setting(self.ws_url, None)
        &&& config.timeout == setting(self.timeout, 5000)
        &&& config.reconnect_delay == setting(self.reconnect_delay, 5000)
        &&& config.mode == setting(self.mode, WebsocketMode::Single)
        &&& config.agent == setting(self.agent, None)
        &&& config.private_key == setting(self.private_key, None)
        &&& config.private_key_passphrase == setting(self.private_key_passphrase, None)
        &&& config.time_unit == setting(self.time_unit, None)
        &&& config.auto_session_relogon == setting(self.auto_session_relogon, true)
    }

    /// Sets the API key.
    pub fn api_key<V: Into<String>>(self, value: V) -> (result: Self)
        ensures
            result == (ConfigurationWebsocketApiBuilder { api_key: result.api_key, ..self }),
            result.api_key matches Some(Some(stored)) && call_ensures(
                <V as Into<String>>::into,
                (value,),
                stored,
            ),
    {
        let mut result = self;
        result.api_key = Some(Some(value.into()));
        result
    }

    /// Sets the API secret.
    pub fn api_secret<V: Into<String>>(self, value: V) -> (result: Self)
        ensures
            result == (ConfigurationWebsocketApiBuilder { api_secret: result.api_secret, ..self }),
            result.api_secret matches Some(Some(stored)) && call_ensures(
                <V as Into<String>>::into,
                (value,),
                stored,
            ),
    {
        let mut result = self;
        result.api_secret = Some(Some(value.into()));
        result
    }

    /// Sets the URL to connect to.
    pub fn ws_url<V: Into<String>>(self, value: V) -> (result: Self)
        ensures
            result == (ConfigurationWebsocketApiBuilder { ws_url: result.ws_url, ..self }),
            result.ws_url matches Some(Some(stored)) && call_ensures(
                <V as Into<String>>::into,
                (value,),
                stored,
            ),
    {
        let mut result = self;
        result.ws_url = Some(Some(value.into()));
        result
    }

    /// Sets the timeout of a request, in milliseconds.
    pub fn timeout(self, value: u64) -> (result: Self)
        ensures
            result == (ConfigurationWebsocketApiBuilder { timeout: Some(value), ..self }),
    {
        let mut result = self;
        result.timeout = Some(value);
        result
    }

    /// Sets the pause before a new connection, in milliseconds.
    pub fn reconnect_delay(self, value: u64) -> (result: Self)
        ensures
            result == (ConfigurationWebsocketApiBuilder { reconnect_delay: Some(value), ..self }),
    {
        let mut result = self;
        result.reconnect_delay = Some(value);
        result
    }

    /// Sets how many connections are kept.
    pub fn mode(self, value: WebsocketMode) -> (result: Self)
        ensures
            result == (ConfigurationWebsocketApiBuilder { mode: Some(value), ..self }),
    {
        let mut result = self;
        result.mode = Some(value);
        result
    }

    /// Sets the TLS connector.
    pub fn agent(self, value: AgentConnector) -> (result: Self)
        ensures
            result == (ConfigurationWebsocketApiBuilder { agent: Some(Some(value)), ..self }),
    {
        let mut result = self;
        result.agent = Some(Some(value));
        result
    }

    /// Sets the private key.
    pub fn private_key(self, value: PrivateKey) -> (result: Self)
        ensures
            result == (ConfigurationWebsocketApiBuilder { private_key: Some(Some(value)), ..self }),
    {
        let mut result = self;
        result.private_key = Some(Some(value));
        result
    }

    /// Sets the passphrase of the private key.
    pub fn private_key_passphrase(self, value: String) -> (result: Self)
        ensures
            result == (ConfigurationWebsocketApiBuilder { private_key_passphrase: Some(Some(value)), ..self }),
    {
        let mut result = self;
        result.private_key_passphrase = Some(Some(value));
        result
    }

    /// Sets the unit of timestamps.
    pub fn time_unit(self, value: TimeUnit) -> (result: Self)
        ensures
            result == (ConfigurationWebsocketApiBuilder { time_unit: Some(Some(value)), ..self }),
    {
        let mut result = self;
        result.time_unit = Some(Some(value));
        result
    }

    /// Sets whether a new connection logs on again by itself.
    pub fn auto_session_relogon(self, value: bool) -> (result: Self)
        ensures
            result == (ConfigurationWebsocketApiBuilder { auto_session_relogon: Some(value), ..self }),
    {
        let mut result = self;
        result.auto_session_relogon = Some(value);
        result
    }

    /// Builds the configuration from the settings alone, without credentials to sign with.
    pub fn try_build(self) -> (result: Result<ConfigurationWebsocketApi, ConfigBuildError>)
        ensures
            result matches Ok(config) && {
                &&& self.settles(&config)
                &&& config.user_agent@ == Seq::<char>::empty()
                &&& config.signature_gen@ == credentials(None, None, None)
            },
    {
        Ok(ConfigurationWebsocketApi {
            api_key: match self.api_key {
                Some(value) => value,
                None => None,
            },
            api_secret: match self.api_secret {
                Some(value) => value,
                None => None,
            },
            ws_url: match self.ws_url {
                Some(value) => value,
                None => None,
            },
            timeout: match self.timeout {
                Some(value) => value,
                None => 5000,
            },
            reconnect_delay: match self.reconnect_delay {
                Some(value) => value,
                None => 5000,
            },
            mode: match self.mode {
                Some(value) => value,
                None => WebsocketMode::Single,
            },
            agent: match self.agent {
                Some(value) => value,
                None => None,
            },
            private_key: match self.private_key {
                Some(value) => value,
                None => None,
            },
            private_key_passphrase: match self.private_key_passphrase {
                Some(value) => value,
                None => None,
            },
            time_unit: match self.time_unit {
                Some(value) => value,
                None => None,
            },
            auto_session_relogon: match self.auto_session_relogon {
                Some(value) => value,
                None => true,
            },
            user_agent: String::new(),
            signature_gen: SignatureGenerator::default(),
        })
    }

    /// Builds the `ConfigurationWebsocketApi` with a generated signature generator.
    ///
    /// This method attempts to build the configuration using the builder's settings
    /// and then initializes the signature generator with the API secret, private key,
    /// and private key passphrase.
    ///
    /// # Errors
    ///
    /// Returns a `ConfigBuildError` if the initial configuration build fails. Every setting has a
    /// default, so that it does not fail.
    pub fn build(self) -> (result: Result<ConfigurationWebsocketApi, ConfigBuildError>)
        ensures
            result matches Ok(config) && {
                &&& self.settles(&config)
                &&& config.user_agent@ == Seq::<char>::empty()
                &&& config.signature_gen@ == credentials(
                    config.api_secret,
                    config.private_key,
                    config.private_key_passphrase,
                )
                &&& config.signature_gen.api_secret == config.api_secret
                &&& key_of(config.signature_gen.private_key) == key_of(config.private_key)
                &&& config.signature_gen.private_key_passphrase == config.private_key_passphrase
            },
    {
        let mut config = self.try_build()?;
        config.signature_gen = SignatureGenerator::new(
            config.api_secret.clone(),
            config.private_key.clone(),
            config.private_key_passphrase.clone(),
        );
        Ok(config)
    }
}

/// Whether two configurations differ in nothing but the contents of credentials and in what is
/// made from them, and hold the same kinds of credentials.
pub open spec fn same_but_secrets(
    one: &ConfigurationWebsocketApi,
    other: &ConfigurationWebsocketApi,
) -> bool {
    &&& one.api_key is Some <==> other.api_key is Some
    &&& one.api_secret is Some <==> other.api_secret is Some
    &&& one.ws_url == other.ws_url
    &&& one.timeout == other.timeout
    &&& one.reconnect_delay == other.reconnect_delay
    &&& one.mode == other.mode
    &&& one.agent is Some <==> other.agent is Some
    &&& one.private_key is Some <==> other.private_key is Some
    &&& one.private_key_passphrase is Some <==> other.private_key_passphrase is Some
    &&& one.time_unit == other.time_unit
    &&& one.auto_session_relogon == other.auto_session_relogon
    &&& one.user_agent == other.user_agent
    &&& one.signature_gen.same_credentials_set(&other.signature_gen)
}

/// Diagnostics show nothing of a credential but whether it is set: two configurations that differ
/// in nothing but the contents of credentials show the same fields and have the same text.
pub proof fn law_websocket_api_diagnostics_hide_secrets(
    one: &ConfigurationWebsocketApi,
    other: &ConfigurationWebsocketApi,
)
    requires
        same_but_secrets(one, other),
    ensures
        one.debug_spec() == other.debug_spec(),
        struct_text("ConfigurationWebsocketApi"@, one.debug_spec(), ""@) == struct_text(
            "ConfigurationWebsocketApi"@,
            other.debug_spec(),
            ""@,
        ),
{
    assert(one.debug_spec() =~= other.debug_spec());
}

/// A configuration that is built without settings keeps one connection, waits five seconds for a
/// response and before a new connection, logs on again by itself, and has no credentials.
pub proof fn law_websocket_api_defaults(config: &ConfigurationWebsocketApi)
    requires
        ConfigurationWebsocketApiBuilder::empty().settles(config),
    ensures
        config.api_key is None,
        config.api_secret is None,
        config.ws_url is None,
        config.timeout == 5000,
        config.reconnect_delay == 5000,
        config.mode is Single,
        config.agent is None,
        config.private_key is None,
        config.private_key_passphrase is None,
        config.time_unit is None,
        config.auto_session_relogon,
{
}

/// What was set is what a configuration holds. Together with the setters, each of which replaces
/// one setting and keeps all others, this makes the last value that a setting was given the one
/// that counts, whatever else is set before or after it.
pub proof fn law_websocket_api_settings_take_effect(
    builder: &ConfigurationWebsocketApiBuilder,
    config: &ConfigurationWebsocketApi,
)
    requires
        builder.settles(config),
    ensures
        builder.api_key matches Some(value) ==> config.api_key == value,
        builder.api_secret matches Some(value) ==> config.api_secret == value,
        builder.ws_url matches Some(value) ==> config.ws_url == value,
        builder.timeout matches Some(value) ==> config.timeout == value,
        builder.reconnect_delay matches Some(value) ==> config.reconnect_delay == value,
        builder.mode matches Some(value) ==> config.mode == value,
        builder.agent matches Some(value) ==> config.agent == value,
        builder.private_key matches Some(value) ==> config.private_key == value,
        builder.private_key_passphrase matches Some(value) ==> config.private_key_passphrase == value,
        builder.time_unit matches Some(value) ==> config.time_unit == value,
        builder.auto_session_relogon matches Some(value) ==> config.auto_session_relogon == value,
{
}

/// Building a WebSocket API configuration never fails, and each setting depends on itself alone: it
/// is what it was set to, or its default, whatever the others are. The signature generator holds
/// the API secret, the private key and the passphrase of the configuration.
pub proof fn law_websocket_api_build(
    builder: ConfigurationWebsocketApiBuilder,
    result: Result<ConfigurationWebsocketApi, ConfigBuildError>,
)
    requires
        call_ensures(ConfigurationWebsocketApiBuilder::build, (builder,), result),
    ensures
        result matches Ok(config) && {
            &&& builder.api_key matches Some(value) ==> config.api_key == value
            &&& builder.api_key is None ==> config.api_key is None
            &&& builder.api_secret matches Some(value) ==> config.api_secret == value
            &&& builder.api_secret is None ==> config.api_secret is None
            &&& builder.ws_url matches Some(value) ==> config.ws_url == value
            &&& builder.ws_url is None ==> config.ws_url is None
            &&& builder.timeout matches Some(value) ==> config.timeout == value
            &&& builder.timeout is None ==> config.timeout == 5000
            &&& builder.reconnect_delay matches Some(value) ==> config.reconnect_delay == value
            &&& builder.reconnect_delay is None ==> config.reconnect_delay == 5000
            &&& builder.mode matches Some(value) ==> config.mode == value
            &&& builder.mode is None ==> config.mode is Single
            &&& builder.agent matches Some(value) ==> config.agent == value
            &&& builder.agent is None ==> config.agent is None
            &&& builder.private_key matches Some(value) ==> config.private_key == value
            &&& builder.private_key is None ==> config.private_key is None
            &&& builder.private_key_passphrase matches Some(value)
                ==> config.private_key_passphrase == value
            &&& builder.private_key_passphrase is None ==> config.private_key_passphrase is None
            &&& builder.time_unit matches Some(value) ==> config.time_unit == value
            &&& builder.time_unit is None ==> config.time_unit is None
            &&& builder.auto_session_relogon matches Some(value)
                ==> config.auto_session_relogon == value
            &&& builder.auto_session_relogon is None ==> config.auto_session_relogon
            &&& config.user_agent@.len() == 0
            &&& config.signature_gen.api_secret == config.api_secret
            &&& match (config.private_key, config.signature_gen.private_key) {
                (Some(PrivateKey::File(path)), Some(PrivateKey::File(same))) => same@ == path@,
                (Some(PrivateKey::Raw(bytes)), Some(PrivateKey::Raw(same))) => same@ == bytes@,
                (None, None) => true,
                _ => false,
            }
            &&& config.signature_gen.private_key_passphrase == config.private_key_passphrase
        },
{
}

/// Building a WebSocket API configuration from the settings alone never fails, and each setting is
/// what it was set to, or its default, whatever the others are. Nothing is made from the settings
/// yet.
pub proof fn law_websocket_api_build_from_settings_alone(
    builder: ConfigurationWebsocketApiBuilder,
    result: Result<ConfigurationWebsocketApi, ConfigBuildError>,
)
    requires
        call_ensures(ConfigurationWebsocketApiBuilder::try_build, (builder,), result),
    ensures
        result matches Ok(config) && {
            &&& builder.api_key matches Some(value) ==> config.api_key == value
            &&& builder.api_key is None ==> config.api_key is None
            &&& builder.api_secret matches Some(value) ==> config.api_secret == value
            &&& builder.api_secret is None ==> config.api_secret is None
            &&& builder.ws_url matches Some(value) ==> config.ws_url == value
            &&& builder.ws_url is None ==> config.ws_url is None
            &&& builder.timeout matches Some(value) ==> config.timeout == value
            &&& builder.timeout is None ==> config.timeout == 5000
            &&& builder.reconnect_delay matches Some(value) ==> config.reconnect_delay == value
            &&& builder.reconnect_delay is None ==> config.reconnect_delay == 5000
            &&& builder.mode matches Some(value) ==> config.mode == value
            &&& builder.mode is None ==> config.mode is Single
            &&& builder.agent matches Some(value) ==> config.agent == value
            &&& builder.agent is None ==> config.agent is None
            &&& builder.private_key matches Some(value) ==> config.private_key == value
            &&& builder.private_key is None ==> config.private_key is None
            &&& builder.private_key_passphrase matches Some(value)
                ==> config.private_key_passphrase == value
            &&& builder.private_key_passphrase is None ==> config.private_key_passphrase is None
            &&& builder.time_unit matches Some(value) ==> config.time_unit == value
            &&& builder.time_unit is None ==> config.time_unit is None
            &&& builder.auto_session_relogon matches Some(value)
                ==> config.auto_session_relogon == value
            &&& builder.auto_session_relogon is None ==> config.auto_session_relogon
            &&& config.user_agent@.len() == 0
            &&& config.signature_gen.api_secret is None
            &&& config.signature_gen.private_key is None
            &&& config.signature_gen.private_key_passphrase is None
        },
{
}

/// A setter sets one setting and keeps all others, and a text is stored as its conversion into a
/// string gives it.
pub proof fn law_websocket_api_setters<V: Into<String>>(builder: ConfigurationWebsocketApiBuilder)
    ensures
        forall|value: V, result: ConfigurationWebsocketApiBuilder| #[trigger]
            call_ensures(ConfigurationWebsocketApiBuilder::api_key::<V>, (builder, value), result) ==> {
                &&& result == ConfigurationWebsocketApiBuilder {
                    api_key: result.api_key,
                    ..builder
                }
                &&& result.api_key matches Some(Some(stored)) && call_ensures(
                    <V as Into<String>>::into,
                    (value,),
                    stored,
                )
            },
        forall|value: V, result: ConfigurationWebsocketApiBuilder| #[trigger]
            call_ensures(ConfigurationWebsocketApiBuilder::api_secret::<V>, (builder, value), result) ==> {
                &&& result == ConfigurationWebsocketApiBuilder {
                    api_secret: result.api_secret,
                    ..builder
                }
                &&& result.api_secret matches Some(Some(stored)) && call_ensures(
                    <V as Into<String>>::into,
                    (value,),
                    stored,
                )
            },
        forall|value: V, result: ConfigurationWebsocketApiBuilder| #[trigger]
            call_ensures(ConfigurationWebsocketApiBuilder::ws_url::<V>, (builder, value), result) ==> {
                &&& result == ConfigurationWebsocketApiBuilder {
                    ws_url: result.ws_url,
                    ..builder
                }
                &&& result.ws_url matches Some(Some(stored)) && call_ensures(
                    <V as Into<String>>::into,
                    (value,),
                    stored,
                )
            },
        forall|value: u64, result: ConfigurationWebsocketApiBuilder| #[trigger]
            call_ensures(ConfigurationWebsocketApiBuilder::timeout, (builder, value), result)
                ==> result == (ConfigurationWebsocketApiBuilder { timeout: Some(value), ..builder }),
        forall|value: u64, result: ConfigurationWebsocketApiBuilder| #[trigger]
            call_ensures(ConfigurationWebsocketApiBuilder::reconnect_delay, (builder, value), result)
                ==> result == (ConfigurationWebsocketApiBuilder { reconnect_delay: Some(value), ..builder }),
        forall|value: WebsocketMode, result: ConfigurationWebsocketApiBuilder| #[trigger]
            call_ensures(ConfigurationWebsocketApiBuilder::mode, (builder, value), result)
                ==> result == (ConfigurationWebsocketApiBuilder { mode: Some(value), ..builder }),
        forall|value: AgentConnector, result: ConfigurationWebsocketApiBuilder| #[trigger]
            call_ensures(ConfigurationWebsocketApiBuilder::agent, (builder, value), result)
                ==> result == (ConfigurationWebsocketApiBuilder { agent: Some(Some(value)), ..builder }),
        forall|value: PrivateKey, result: ConfigurationWebsocketApiBuilder| #[trigger]
            call_ensures(ConfigurationWebsocketApiBuilder::private_key, (builder, value), result)
                ==> result == (ConfigurationWebsocketApiBuilder { private_key: Some(Some(value)), ..builder }),
        forall|value: String, result: ConfigurationWebsocketApiBuilder| #[trigger]
            call_ensures(ConfigurationWebsocketApiBuilder::private_key_passphrase, (builder, value), result)
                ==> result == (ConfigurationWebsocketApiBuilder { private_key_passphrase: Some(Some(value)), ..builder }),
        forall|value: TimeUnit, result: ConfigurationWebsocketApiBuilder| #[trigger]
            call_ensures(ConfigurationWebsocketApiBuilder::time_unit, (builder, value), result)
                ==> result == (ConfigurationWebsocketApiBuilder { time_unit: Some(Some(value)), ..builder }),
        forall|value: bool, result: ConfigurationWebsocketApiBuilder| #[trigger]
            call_ensures(ConfigurationWebsocketApiBuilder::auto_session_relogon, (builder, value), result)
                ==> result == (ConfigurationWebsocketApiBuilder { auto_session_relogon: Some(value), ..builder }),
{
}

/// A new builder has no settings.
pub proof fn law_websocket_api_builder_is_empty(builder: ConfigurationWebsocketApiBuilder)
    requires
        call_ensures(ConfigurationWebsocketApi::builder, (), builder) || call_ensures(
            <ConfigurationWebsocketApiBuilder as Default>::default,
            (),
            builder,
        ),
    ensures
        builder.api_key is None,
        builder.api_secret is None,
        builder.ws_url is None,
        builder.timeout is None,
        builder.reconnect_delay is None,
        builder.mode is None,
        builder.agent is None,
        builder.private_key is None,
        builder.private_key_passphrase is None,
        builder.time_unit is None,
        builder.auto_session_relogon is None,
{
}

/// A clone of a WebSocket API configuration has the same settings and works with the same
/// credentials.
pub proof fn law_websocket_api_clone(
    config: ConfigurationWebsocketApi,
    copy: ConfigurationWebsocketApi,
)
    requires
        call_ensures(<ConfigurationWebsocketApi as Clone>::clone, (&config,), copy),
    ensures
        copy.api_key == config.api_key,
        copy.api_secret == config.api_secret,
        copy.ws_url == config.ws_url,
        copy.timeout == config.timeout,
        copy.reconnect_delay == config.reconnect_delay,
        copy.mode == config.mode,
        copy.agent == config.agent,
        match (config.private_key, copy.private_key) {
            (Some(PrivateKey::File(path)), Some(PrivateKey::File(same))) => same@ == path@,
            (Some(PrivateKey::Raw(bytes)), Some(PrivateKey::Raw(same))) => same@ == bytes@,
            (None, None) => true,
            _ => false,
        },
        copy.private_key_passphrase == config.private_key_passphrase,
        copy.time_unit == config.time_unit,
        copy.auto_session_relogon == config.auto_session_relogon,
        copy.user_agent == config.user_agent,
        copy.signature_gen.api_secret == config.signature_gen.api_secret,
        match (config.signature_gen.private_key, copy.signature_gen.private_key) {
            (Some(PrivateKey::File(path)), Some(PrivateKey::File(same))) => same@ == path@,
            (Some(PrivateKey::Raw(bytes)), Some(PrivateKey::Raw(same))) => same@ == bytes@,
            (None, None) => true,
            _ => false,
        },
        copy.signature_gen.private_key_passphrase == config.signature_gen.private_key_passphrase,
{
}

/// What a WebSocket API configuration shows of itself, field by field, for every configuration. Of
/// a credential it shows whether it is set.
pub proof fn law_websocket_api_fields_shown(
    config: ConfigurationWebsocketApi,
    fields: Vec<DebugField<'_>>,
)
    requires
        call_ensures(ConfigurationWebsocketApi::debug_fields, (&config,), fields),
    ensures
        fields@.len() == 13,
        fields@[0].name == "api_key",
        fields@[0].value == DebugValue::Redacted(
            if config.api_key is Some {
                Some("[REDACTED]")
            } else {
                None
            },
        ),
        fields@[1].name == "api_secret",
        fields@[1].value == DebugValue::Redacted(
            if config.api_secret is Some {
                Some("[REDACTED]")
            } else {
                None
            },
        ),
        fields@[2].name == "ws_url",
        fields@[2].value == DebugValue::OptionalText(&config.ws_url),
        fields@[3].name == "timeout",
        fields@[3].value == DebugValue::Number(config.timeout as u64),
        fields@[4].name == "reconnect_delay",
        fields@[4].value == DebugValue::Number(config.reconnect_delay as u64),
        fields@[5].name == "mode",
        fields@[5].value == DebugValue::Mode(&config.mode),
        fields@[6].name == "agent",
        fields@[6].value == DebugValue::Opaque(
            if config.agent is Some {
                Some("Connector(…)")
            } else {
                None
            },
        ),
        fields@[7].name == "private_key",
        fields@[7].value == DebugValue::Redacted(
            if config.private_key is Some {
                Some("[REDACTED]")
            } else {
                None
            },
        ),
        fields@[8].name == "private_key_passphrase",
        fields@[8].value == DebugValue::Redacted(
            if config.private_key_passphrase is Some {
                Some("[REDACTED]")
            } else {
                None
            },
        ),
        fields@[9].name == "time_unit",
        fields@[9].value == DebugValue::TimeUnit(config.time_unit),
        fields@[10].name == "auto_session_relogon",
        fields@[10].value == DebugValue::Flag(config.auto_session_relogon),
        fields@[11].name == "user_agent",
        fields@[11].value == DebugValue::Text(&config.user_agent),
        fields@[12].name == "signature_gen",
        fields@[12].value matches DebugValue::Signature(shown) && {
            &&& shown.api_secret == if config.signature_gen.api_secret is Some {
                Some("[REDACTED]")
            } else {
                None
            }
            &&& shown.private_key == if config.signature_gen.private_key is Some {
                Some("[REDACTED]")
            } else {
                None
            }
            &&& shown.private_key_passphrase == if config.signature_gen.private_key_passphrase is Some {
                Some("[REDACTED]")
            } else {
                None
            }
        },
{
}

/// The text of a WebSocket API configuration, for every configuration: each field under its name,
/// in this order. The signature generator is written as it is by itself.
pub proof fn law_websocket_api_text(
    config: ConfigurationWebsocketApi,
    signature: String,
    text: String,
) -> (parts: Seq<Seq<char>>)
    requires
        call_ensures(SignatureGenerator::debug_text, (&config.signature_gen,), signature),
        call_ensures(ConfigurationWebsocketApi::debug_text, (&config,), text),
    ensures
        text@ == "ConfigurationWebsocketApi"@ + " { "@ + joined(parts) + " }"@,
        parts.len() == 13,
        parts[0] == "api_key"@ + ": "@ + (if config.api_key is Some {
            "Some("@ + quoted("[REDACTED]"@) + ")"@
        } else {
            "None"@
        }),
        parts[1] == "api_secret"@ + ": "@ + (if config.api_secret is Some {
            "Some("@ + quoted("[REDACTED]"@) + ")"@
        } else {
            "None"@
        }),
        parts[2] == "ws_url"@ + ": "@ + (match config.ws_url {
            Some(value) => "Some("@ + quoted(value@) + ")"@,
            None => "None"@,
        }),
        parts[3] == "timeout"@ + ": "@ + decimal(config.timeout as nat),
        parts[4] == "reconnect_delay"@ + ": "@ + decimal(config.reconnect_delay as nat),
        parts[5] == "mode"@ + ": "@ + (match config.mode {
            WebsocketMode::Single => "Single"@,
            WebsocketMode::Pool(size) => "Pool("@ + decimal(size as nat) + ")"@,
        }),
        parts[6] == "agent"@ + ": "@ + (if config.agent is Some {
            "Some("@ + "Connector(…)"@ + ")"@
        } else {
            "None"@
        }),
        parts[7] == "private_key"@ + ": "@ + (if config.private_key is Some {
            "Some("@ + quoted("[REDACTED]"@) + ")"@
        } else {
            "None"@
        }),
        parts[8] == "private_key_passphrase"@ + ": "@ + (if config.private_key_passphrase is Some {
            "Some("@ + quoted("[REDACTED]"@) + ")"@
        } else {
            "None"@
        }),
        parts[9] == "time_unit"@ + ": "@ + (match config.time_unit {
            Some(TimeUnit::Millisecond) => "Some("@ + "Millisecond"@ + ")"@,
            Some(TimeUnit::Microsecond) => "Some("@ + "Microsecond"@ + ")"@,
            None => "None"@,
        }),
        parts[10] == "auto_session_relogon"@ + ": "@ + (if config.auto_session_relogon {
            "true"@
        } else {
            "false"@
        }),
        parts[11] == "user_agent"@ + ": "@ + quoted(config.user_agent@),
        parts[12] == "signature_gen"@ + ": "@ + signature@,
{
    let fields = config.debug_spec();
    Seq::new(fields.len(), |i: int| field_text(fields[i], ""@))
}

} // verus!

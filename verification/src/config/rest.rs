//! Configuration of the REST client.

use vstd::prelude::*;
use std::collections::HashMap;
use crate::config::{HttpAgent, PrivateKey, ProxyConfig, SignatureGenerator};
use crate::config::{cloned_agent, credentials, key_of, setting};
use crate::diagnostics::{headers_text, redact, write_fields, DebugField, DebugValue};
use crate::diagnostics::{
    at_most_one_entry, law_few_headers_have_one_text, lemma_struct_text_takes_headers, redaction,
    same_but_headers, shown_if_set, shows_headers, struct_text,
};
use crate::diagnostics::{entries_text, field_text, joined, lists_entries};
use crate::text::{decimal, quoted};
use crate::models::{ConfigBuildError, TimeUnit};

verus! {

/// Configuration of the REST client. `F` is the type of the function that customises the HTTP
/// client's builder.
pub struct ConfigurationRestApi<F> {
    pub api_key: Option<String>,
    pub api_secret: Option<String>,
    pub base_path: Option<String>,
    pub timeout: u64,
    pub keep_alive: bool,
    pub compression: bool,
    /// Whether the REST client follows HTTP redirects. Disable this for
    /// state-changing signed requests to prevent replay at a redirect target.
    pub follow_redirects: bool,
    pub retries: u32,
    /// Preserve HTTP status, Binance code/message, and response headers in a
    /// single `ConnectorError::ApiError`. This is useful for trading clients
    /// that must normalize venue errors without losing `Retry-After`.
    pub preserve_error_response: bool,
    pub backoff: u64,
    pub proxy: Option<ProxyConfig>,
    pub custom_headers: Option<HashMap<String, String>>,
    pub agent: Option<HttpAgent<F>>,
    pub private_key: Option<PrivateKey>,
    pub private_key_passphrase: Option<String>,
    pub time_unit: Option<TimeUnit>,
    /// What the HTTP client is made from, or nothing for a default client.
    pub client: Option<ClientSettings<F>>,
    pub user_agent: String,
    pub signature_gen: SignatureGenerator,
}

impl<F> ConfigurationRestApi<F> {
    /// A builder without settings.
    #[must_use]
    pub fn builder() -> (builder: ConfigurationRestApiBuilder<F>)
        ensures
            builder == ConfigurationRestApiBuilder::<F>::empty(),
    {
        ConfigurationRestApiBuilder::default()
    }

    /// What is shown in diagnostics, field by field.
    pub fn debug_fields(&self) -> (fields: Vec<DebugField<'_>>)
        ensures
            fields@ == self.debug_spec(),
    {
        vec![
            DebugField { name: "api_key", value: DebugValue::Redacted(redact(&self.api_key)) },
            DebugField {
                name: "api_secret",
                value: DebugValue::Redacted(redact(&self.api_secret)),
            },
            DebugField { name: "base_path", value: DebugValue::OptionalText(&self.base_path) },
            DebugField { name: "timeout", value: DebugValue::Number(self.timeout) },
            DebugField { name: "keep_alive", value: DebugValue::Flag(self.keep_alive) },
            DebugField { name: "compression", value: DebugValue::Flag(self.compression) },
            DebugField { name: "follow_redirects", value: DebugValue::Flag(self.follow_redirects) },
            DebugField { name: "retries", value: DebugValue::Number(self.retries as u64) },
            DebugField {
                name: "preserve_error_response",
                value: DebugValue::Flag(self.preserve_error_response),
            },
            DebugField { name: "backoff", value: DebugValue::Number(self.backoff) },
            DebugField {
                name: "proxy",
                value: DebugValue::Proxy(
                    match &self.proxy {
                        Some(proxy) => Some(proxy.debug_view()),
                        None => None,
                    },
                ),
            },
            DebugField { name: "custom_headers", value: DebugValue::Headers(&self.custom_headers) },
            DebugField {
                name: "agent",
                value: DebugValue::Opaque(
                    match &self.agent {
                        Some(agent) => Some(agent.debug_text()),
                        None => None,
                    },
                ),
            },
            DebugField {
                name: "private_key",
                value: DebugValue::Redacted(redact(&self.private_key)),
            },
            DebugField {
                name: "private_key_passphrase",
                value: DebugValue::Redacted(redact(&self.private_key_passphrase)),
            },
            DebugField { name: "time_unit", value: DebugValue::TimeUnit(self.time_unit) },
            DebugField { name: "client", value: DebugValue::Literal("<reqwest::Client>") },
            DebugField { name: "user_agent", value: DebugValue::Text(&self.user_agent) },
            DebugField {
                name: "signature_gen",
                value: DebugValue::Signature(self.signature_gen.debug_view()),
            },
        ]
    }

    /// The text that `Debug` writes, on one line, with `headers` as the text of the request
    /// headers.
    pub fn debug_text_with_headers(&self, headers: &str) -> (text: String)
        ensures
            text@ == struct_text("ConfigurationRestApi"@, self.debug_spec(), headers@),
    {
        write_fields("ConfigurationRestApi", &self.debug_fields(), headers)
    }

    /// The text that `Debug` writes, on one line. The request headers stand in any order.
    pub fn debug_text(&self) -> (text: String)
        ensures
            self.may_show(text@),
    {
        match &self.custom_headers {
            Some(headers) => self.debug_text_with_headers(headers_text(headers).as_str()),
            None => self.debug_text_with_headers(""),
        }
    }

    /// Whether `text` shows the fields of this configuration, with the request headers in some
    /// order.
    pub open spec fn may_show(&self, text: Seq<char>) -> bool {
        match self.custom_headers {
            Some(map) => exists|headers: Seq<char>|
                shows_headers(map@, headers) && text == #[trigger] struct_text(
                    "ConfigurationRestApi"@,
                    self.debug_spec(),
                    headers,
                ),
            None => text == struct_text("ConfigurationRestApi"@, self.debug_spec(), ""@),
        }
    }

    /// What is shown in diagnostics, field by field.
    pub open spec fn debug_spec(&self) -> Seq<DebugField<'_>> {
        seq![
            DebugField { name: "api_key", value: DebugValue::Redacted(redaction(self.api_key)) },
            DebugField {
                name: "api_secret",
                value: DebugValue::Redacted(redaction(self.api_secret)),
            },
            DebugField { name: "base_path", value: DebugValue::OptionalText(&self.base_path) },
            DebugField { name: "timeout", value: DebugValue::Number(self.timeout) },
            DebugField { name: "keep_alive", value: DebugValue::Flag(self.keep_alive) },
            DebugField { name: "compression", value: DebugValue::Flag(self.compression) },
            DebugField { name: "follow_redirects", value: DebugValue::Flag(self.follow_redirects) },
            DebugField { name: "retries", value: DebugValue::Number(self.retries as u64) },
            DebugField {
                name: "preserve_error_response",
                value: DebugValue::Flag(self.preserve_error_response),
            },
            DebugField { name: "backoff", value: DebugValue::Number(self.backoff) },
            DebugField {
                name: "proxy",
                value: DebugValue::Proxy(
                    match self.proxy {
                        Some(proxy) => Some(proxy.debug_spec()),
                        None => None,
                    },
                ),
            },
            DebugField { name: "custom_headers", value: DebugValue::Headers(&self.custom_headers) },
            DebugField {
                name: "agent",
                value: DebugValue::Opaque(
                    shown_if_set(self.agent, "HttpAgent(<custom agent fn>)"),
                ),
            },
            DebugField {
                name: "private_key",
                value: DebugValue::Redacted(redaction(self.private_key)),
            },
            DebugField {
                name: "private_key_passphrase",
                value: DebugValue::Redacted(redaction(self.private_key_passphrase)),
            },
            DebugField { name: "time_unit", value: DebugValue::TimeUnit(self.time_unit) },
            DebugField { name: "client", value: DebugValue::Literal("<reqwest::Client>") },
            DebugField { name: "user_agent", value: DebugValue::Text(&self.user_agent) },
            DebugField {
                name: "signature_gen",
                value: DebugValue::Signature(self.signature_gen.debug_spec()),
            },
        ]
    }
}

impl<F: Clone> ConfigurationRestApi<F> {
    /// Whether `copy` is a clone of this value.
    pub open spec fn copied_to(&self, copy: &Self) -> bool {
        &&& copy.api_key == self.api_key
        &&& copy.api_secret == self.api_secret
        &&& copy.base_path == self.base_path
        &&& copy.timeout == self.timeout
        &&& copy.keep_alive == self.keep_alive
        &&& copy.compression == self.compression
        &&& copy.follow_redirects == self.follow_redirects
        &&& copy.retries == self.retries
        &&& copy.preserve_error_response == self.preserve_error_response
        &&& copy.backoff == self.backoff
        &&& copy.proxy == self.proxy
        &&& cloned_headers(self.custom_headers, copy.custom_headers)
        &&& cloned_agent(self.agent, copy.agent)
        &&& key_of(copy.private_key) == key_of(self.private_key)
        &&& copy.private_key_passphrase == self.private_key_passphrase
        &&& copy.time_unit == self.time_unit
        &&& match (self.client, copy.client) {
            (Some(client), Some(copy)) => client.copied_to(&copy),
            (None, None) => true,
            _ => false,
        }
        &&& copy.user_agent == self.user_agent
        &&& copy.signature_gen@ == self.signature_gen@
        &&& copy.signature_gen.api_secret == self.signature_gen.api_secret
        &&& copy.signature_gen.private_key_passphrase == self.signature_gen.private_key_passphrase
    }
}

impl<F: Clone> Clone for ConfigurationRestApi<F> {
    fn clone(&self) -> (result: Self)
        ensures
            self.copied_to(&result),
    {
        ConfigurationRestApi {
            api_key: self.api_key.clone(),
            api_secret: self.api_secret.clone(),
            base_path: self.base_path.clone(),
            timeout: self.timeout,
            keep_alive: self.keep_alive,
            compression: self.compression,
            follow_redirects: self.follow_redirects,
            retries: self.retries,
            preserve_error_response: self.preserve_error_response,
            backoff: self.backoff,
            proxy: self.proxy.clone(),
            custom_headers: self.custom_headers.clone(),
            agent: self.agent.clone(),
            private_key: self.private_key.clone(),
            private_key_passphrase: self.private_key_passphrase.clone(),
            time_unit: self.time_unit,
            client: self.client.clone(),
            user_agent: self.user_agent.clone(),
            signature_gen: self.signature_gen.clone(),
        }
    }
}

/// Settings of a [`ConfigurationRestApi`]. A setting that is left out has its default.
pub struct ConfigurationRestApiBuilder<F> {
    pub api_key: Option<Option<String>>,
    pub api_secret: Option<Option<String>>,
    pub base_path: Option<Option<String>>,
    pub timeout: Option<u64>,
    pub keep_alive: Option<bool>,
    pub compression: Option<bool>,
    pub follow_redirects: Option<bool>,
    pub retries: Option<u32>,
    pub preserve_error_response: Option<bool>,
    pub backoff: Option<u64>,
    pub proxy: Option<Option<ProxyConfig>>,
    pub custom_headers: Option<Option<HashMap<String, String>>>,
    pub agent: Option<Option<HttpAgent<F>>>,
    pub private_key: Option<Option<PrivateKey>>,
    pub private_key_passphrase: Option<Option<String>>,
    pub time_unit: Option<Option<TimeUnit>>,
}

impl<F> Default for ConfigurationRestApiBuilder<F> {
    fn default() -> (builder: Self)
        ensures
            builder == Self::empty(),
    {
        ConfigurationRestApiBuilder {
            api_key: None,
            api_secret: None,
            base_path: None,
            timeout: None,
            keep_alive: None,
            compression: None,
            follow_redirects: None,
            retries: None,
            preserve_error_response: None,
            backoff: None,
            proxy: None,
            custom_headers: None,
            agent: None,
            private_key: None,
            private_key_passphrase: None,
            time_unit: None,
        }
    }
}

impl<F> ConfigurationRestApiBuilder<F> {
    /// The builder without settings.
    pub open spec fn empty() -> Self {
        ConfigurationRestApiBuilder {
            api_key: None,
            api_secret: None,
            base_path: None,
            timeout: None,
            keep_alive: None,
            compression: None,
            follow_redirects: None,
            retries: None,
            preserve_error_response: None,
            backoff: None,
            proxy: None,
            custom_headers: None,
            agent: None,
            private_key: None,
            private_key_passphrase: None,
            time_unit: None,
        }
    }

    /// Whether `config` has the settings of this builder, and the defaults where it has none.
    pub open spec fn settles(&self, config: &ConfigurationRestApi<F>) -> bool {
        &&& config.api_key == setting(self.api_key, None)
        &&& config.api_secret == setting(self.api_secret, None)
        &&& config.base_path == setting(self.base_path, None)
        &&& config.timeout == setting(self.timeout, 1000)
        &&& config.keep_alive == setting(self.keep_alive, true)
        &&& config.compression == setting(self.compression, true)
        &&& config.follow_redirects == setting(self.follow_redirects, true)
        &&& config.retries == setting(self.retries, 3)
        &&& config.preserve_error_response == setting(self.preserve_error_response, false)
        &&& config.backoff == setting(self.backoff, 1000)
        &&& config.proxy == setting(self.proxy, None)
        &&& config.custom_headers == setting(self.custom_headers, None)
        &&& config.agent == setting(self.agent, None)
        &&& config.private_key == setting(self.private_key, None)
        &&& config.private_key_passphrase == setting(self.private_key_passphrase, None)
        &&& config.time_unit == setting(self.time_unit, None)
    }

    /// Sets the API key.
    pub fn api_key<V: Into<String>>(self, value: V) -> (result: Self)
        ensures
            result == (ConfigurationRestApiBuilder { api_key: result.api_key, ..self }),
            result.api_key matches Some(Some(stored)) && call_ensures(
                <V as Into<String>>::into,
                (value,),
                stored,
            ),
    {
        let mut result = self;
        result.api_key = Some(Some(value.into()));
        result
    }

    /// Sets the API secret.
    pub fn api_secret<V: Into<String>>(self, value: V) -> (result: Self)
        ensures
            result == (ConfigurationRestApiBuilder { api_secret: result.api_secret, ..self }),
            result.api_secret matches Some(Some(stored)) && call_ensures(
                <V as Into<String>>::into,
                (value,),
                stored,
            ),
    {
        let mut result = self;
        result.api_secret = Some(Some(value.into()));
        result
    }

    /// Sets the base URL.
    pub fn base_path<V: Into<String>>(self, value: V) -> (result: Self)
        ensures
            result == (ConfigurationRestApiBuilder { base_path: result.base_path, ..self }),
            result.base_path matches Some(Some(stored)) && call_ensures(
                <V as Into<String>>::into,
                (value,),
                stored,
            ),
    {
        let mut result = self;
        result.base_path = Some(Some(value.into()));
        result
    }

    /// Sets the timeout of a request, in milliseconds.
    pub fn timeout(self, value: u64) -> (result: Self)
        ensures
            result == (ConfigurationRestApiBuilder { timeout: Some(value), ..self }),
    {
        let mut result = self;
        result.timeout = Some(value);
        result
    }

    /// Sets whether connections are kept for further requests.
    pub fn keep_alive(self, value: bool) -> (result: Self)
        ensures
            result == (ConfigurationRestApiBuilder { keep_alive: Some(value), ..self }),
    {
        let mut result = self;
        result.keep_alive = Some(value);
        result
    }

    /// Sets whether responses may be compressed.
    pub fn compression(self, value: bool) -> (result: Self)
        ensures
            result == (ConfigurationRestApiBuilder { compression: Some(value), ..self }),
    {
        let mut result = self;
        result.compression = Some(value);
        result
    }

    /// Sets whether redirects are followed.
    pub fn follow_redirects(self, value: bool) -> (result: Self)
        ensures
            result == (ConfigurationRestApiBuilder { follow_redirects: Some(value), ..self }),
    {
        let mut result = self;
        result.follow_redirects = Some(value);
        result
    }

    /// Sets how often a failed request is tried again.
    pub fn retries(self, value: u32) -> (result: Self)
        ensures
            result == (ConfigurationRestApiBuilder { retries: Some(value), ..self }),
    {
        let mut result = self;
        result.retries = Some(value);
        result
    }

    /// Sets whether the response to a failed request is kept.
    pub fn preserve_error_response(self, value: bool) -> (result: Self)
        ensures
            result == (ConfigurationRestApiBuilder { preserve_error_response: Some(value), ..self }),
    {
        let mut result = self;
        result.preserve_error_response = Some(value);
        result
    }

    /// Sets the pause before a new try, in milliseconds.
    pub fn backoff(self, value: u64) -> (result: Self)
        ensures
            result == (ConfigurationRestApiBuilder { backoff: Some(value), ..self }),
    {
        let mut result = self;
        result.backoff = Some(value);
        result
    }

    /// Sets the proxy.
    pub fn proxy(self, value: ProxyConfig) -> (result: Self)
        ensures
            result == (ConfigurationRestApiBuilder { proxy: Some(Some(value)), ..self }),
    {
        let mut result = self;
        result.proxy = Some(Some(value));
        result
    }

    /// Sets the additional request headers.
    pub fn custom_headers<V: Into<HashMap<String, String>>>(self, value: V) -> (result: Self)
        ensures
            result == (ConfigurationRestApiBuilder { custom_headers: result.custom_headers, ..self }),
            result.custom_headers matches Some(Some(stored)) && call_ensures(
                <V as Into<HashMap<String, String>>>::into,
                (value,),
                stored,
            ),
    {
        let mut result = self;
        result.custom_headers = Some(Some(value.into()));
        result
    }

    /// Sets the customisation of the HTTP client.
    pub fn agent(self, value: HttpAgent<F>) -> (result: Self)
        ensures
            result == (ConfigurationRestApiBuilder { agent: Some(Some(value)), ..self }),
    {
        let mut result = self;
        result.agent = Some(Some(value));
        result
    }

    /// Sets the private key.
    pub fn private_key(self, value: PrivateKey) -> (result: Self)
        ensures
            result == (ConfigurationRestApiBuilder { private_key: Some(Some(value)), ..self }),
    {
        let mut result = self;
        result.private_key = Some(Some(value));
        result
    }

    /// Sets the passphrase of the private key.
    pub fn private_key_passphrase(self, value: String) -> (result: Self)
        ensures
            result == (ConfigurationRestApiBuilder { private_key_passphrase: Some(Some(value)), ..self }),
    {
        let mut result = self;
        result.private_key_passphrase = Some(Some(value));
        result
    }

    /// Sets the unit of timestamps.
    pub fn time_unit(self, value: TimeUnit) -> (result: Self)
        ensures
            result == (ConfigurationRestApiBuilder { time_unit: Some(Some(value)), ..self }),
    {
        let mut result = self;
        result.time_unit = Some(Some(value));
        result
    }

    /// Builds the configuration from the settings alone: with a default HTTP client and without
    /// credentials to sign with.
    pub fn try_build(self) -> (result: Result<ConfigurationRestApi<F>, ConfigBuildError>)
        ensures
            result matches Ok(config) && {
                &&& self.settles(&config)
                &&& config.client is None
                &&& config.user_agent@ == Seq::<char>::empty()
                &&& config.signature_gen@ == credentials(None, None, None)
            },
    {
        Ok(ConfigurationRestApi {
            api_key: match self.api_key {
                Some(value) => value,
                None => None,
            },
            api_secret: match self.api_secret {
                Some(value) => value,
                None => None,
            },
            base_path: match self.base_path {
                Some(value) => value,
                None => None,
            },
            timeout: match self.timeout {
                Some(value) => value,
                None => 1000,
            },
            keep_alive: match self.keep_alive {
                Some(value) => value,
                None => true,
            },
            compression: match self.compression {
                Some(value) => value,
                None => true,
            },
            follow_redirects: match self.follow_redirects {
                Some(value) => value,
                None => true,
            },
            retries: match self.retries {
                Some(value) => value,
                None => 3,
            },
            preserve_error_response: match self.preserve_error_response {
                Some(value) => value,
                None => false,
            },
            backoff: match self.backoff {
                Some(value) => value,
                None => 1000,
            },
            proxy: match self.proxy {
                Some(value) => value,
                None => None,
            },
            custom_headers: match self.custom_headers {
                Some(value) => value,
                None => None,
            },
            agent: match self.agent {
                Some(value) => value,
                None => None,
            },
            private_key: match self.private_key {
                Some(value) => value,
                None => None,
            },
            private_key_passphrase: match self.private_key_passphrase {
                Some(value) => value,
                None => None,
            },
            time_unit: match self.time_unit {
                Some(value) => value,
                None => None,
            },
            client: None,
            user_agent: String::new(),
            signature_gen: SignatureGenerator::default(),
        })
    }
}

impl<F: Clone> ConfigurationRestApiBuilder<F> {
    /// Builds a `ConfigurationRestApi` instance with configured HTTP client and signature generator.
    ///
    /// # Errors
    ///
    /// Returns a `ConfigBuildError` if the initial configuration build fails. Every setting has a
    /// default, so that it does not fail. [`client_outcome`] gives the error for a client that
    /// cannot be set up.
    pub fn build(self) -> (result: Result<ConfigurationRestApi<F>, ConfigBuildError>)
        ensures
            result matches Ok(config) && {
                &&& self.settles(&config)
                &&& config.user_agent@ == Seq::<char>::empty()
                &&& config.client matches Some(client) && {
                    &&& client.is_for(&config)
                    &&& client.timeout == config.timeout
                    &&& client.keep_alive == config.keep_alive
                    &&& client.proxy == config.proxy
                    &&& cloned_agent(config.agent, client.agent)
                    &&& client.follow_redirects == config.follow_redirects
                }
                &&& config.signature_gen@ == credentials(
                    config.api_secret,
                    config.private_key,
                    config.private_key_passphrase,
                )
                &&& config.signature_gen.api_secret == config.api_secret
                &&& key_of(config.signature_gen.private_key) == key_of(config.private_key)
                &&& config.signature_gen.private_key_passphrase == config.private_key_passphrase
            },
    {
        let mut config = self.try_build()?;
        config.client = Some(
            ClientSettings {
                timeout: config.timeout,
                keep_alive: config.keep_alive,
                proxy: config.proxy.clone(),
                agent: config.agent.clone(),
                follow_redirects: config.follow_redirects,
            },
        );
        config.signature_gen = SignatureGenerator::new(
            config.api_secret.clone(),
            config.private_key.clone(),
            config.private_key_passphrase.clone(),
        );
        Ok(config)
    }
}

/// What comes of a configuration once its client was set up: the configuration as it is, or the
/// error that names the client where the set-up failed.
pub fn client_outcome<F>(config: ConfigurationRestApi<F>, made: bool) -> (result: Result<
    ConfigurationRestApi<F>,
    ConfigBuildError,
>)
    ensures
        made ==> result == Ok::<ConfigurationRestApi<F>, ConfigBuildError>(config),
        !made ==> result == Err::<ConfigurationRestApi<F>, ConfigBuildError>(
            ConfigBuildError::UninitializedField("client"),
        ),
{
    if made {
        Ok(config)
    } else {
        Err(ConfigBuildError::UninitializedField("client"))
    }
}

/// What the HTTP client of a configuration is made from.
pub struct ClientSettings<F> {
    pub timeout: u64,
    pub keep_alive: bool,
    pub proxy: Option<ProxyConfig>,
    pub agent: Option<HttpAgent<F>>,
    pub follow_redirects: bool,
}

impl<F: Clone> ClientSettings<F> {
    /// Whether a client made from these settings is the one that `config` asks for.
    pub open spec fn is_for(&self, config: &ConfigurationRestApi<F>) -> bool {
        &&& self.timeout == config.timeout
        &&& self.keep_alive == config.keep_alive
        &&& self.proxy == config.proxy
        &&& cloned_agent(config.agent, self.agent)
        &&& self.follow_redirects == config.follow_redirects
    }

    /// Whether `copy` is a clone of these settings.
    pub open spec fn copied_to(&self, copy: &Self) -> bool {
        &&& copy.timeout == self.timeout
        &&& copy.keep_alive == self.keep_alive
        &&& copy.proxy == self.proxy
        &&& cloned_agent(self.agent, copy.agent)
        &&& copy.follow_redirects == self.follow_redirects
    }
}

impl<F: Clone> Clone for ClientSettings<F> {
    fn clone(&self) -> (result: Self)
        ensures
            self.copied_to(&result),
    {
        ClientSettings {
            timeout: self.timeout,
            keep_alive: self.keep_alive,
            proxy: self.proxy.clone(),
            agent: self.agent.clone(),
            follow_redirects: self.follow_redirects,
        }
    }
}

/// Whether `copy` holds the same request headers as `headers`.
pub open spec fn cloned_headers(
    headers: Option<HashMap<String, String>>,
    copy: Option<HashMap<String, String>>,
) -> bool {
    match (headers, copy) {
        (Some(headers), Some(copy)) => copy@ == headers@,
        (None, None) => true,
        _ => false,
    }
}

/// Whether two configurations differ in nothing but the contents of credentials and in what is
/// made from them, and hold the same kinds of credentials.
pub open spec fn same_but_secrets<F>(
    one: &ConfigurationRestApi<F>,
    other: &ConfigurationRestApi<F>,
) -> bool {
    &&& one.api_key is Some <==> other.api_key is Some
    &&& one.api_secret is Some <==> other.api_secret is Some
    &&& one.base_path == other.base_path
    &&& one.timeout == other.timeout
    &&& one.keep_alive == other.keep_alive
    &&& one.compression == other.compression
    &&& one.follow_redirects == other.follow_redirects
    &&& one.retries == other.retries
    &&& one.preserve_error_response == other.preserve_error_response
    &&& one.backoff == other.backoff
    &&& match (one.proxy, other.proxy) {
        (Some(proxy), Some(other)) => proxy.same_but_password(&other),
        (None, None) => true,
        _ => false,
    }
    &&& match (one.custom_headers, other.custom_headers) {
        (Some(headers), Some(other)) => headers@ == other@,
        (None, None) => true,
        _ => false,
    }
    &&& one.agent is Some <==> other.agent is Some
    &&& one.private_key is Some <==> other.private_key is Some
    &&& one.private_key_passphrase is Some <==> other.private_key_passphrase is Some
    &&& one.time_unit == other.time_unit
    &&& one.user_agent == other.user_agent
    &&& one.signature_gen.same_credentials_set(&other.signature_gen)
}

/// Diagnostics show nothing of a credential but whether it is set: two configurations that differ
/// in nothing but the contents of credentials show the same fields and are written as the same
/// texts, with the request headers in the order that they stand in.
pub proof fn law_rest_diagnostics_hide_secrets<F>(
    one: &ConfigurationRestApi<F>,
    other: &ConfigurationRestApi<F>,
)
    requires
        same_but_secrets(one, other),
    ensures
        one.custom_headers == other.custom_headers ==> one.debug_spec() == other.debug_spec(),
        forall|headers: Seq<char>|
            #![trigger struct_text("ConfigurationRestApi"@, one.debug_spec(), headers)]
            #![trigger struct_text("ConfigurationRestApi"@, other.debug_spec(), headers)]
            struct_text("ConfigurationRestApi"@, one.debug_spec(), headers) == struct_text(
                "ConfigurationRestApi"@,
                other.debug_spec(),
                headers,
            ),
        forall|text: Seq<char>| one.may_show(text) <==> other.may_show(text),
{
    let fields = one.debug_spec();
    let others = other.debug_spec();
    assert forall|i: int| 0 <= i < fields.len() implies same_but_headers(
        #[trigger] fields[i],
        others[i],
    ) by {}
    assert forall|headers: Seq<char>|
        struct_text("ConfigurationRestApi"@, fields, headers) == struct_text(
            "ConfigurationRestApi"@,
            others,
            headers,
        ) by {
        lemma_struct_text_takes_headers("ConfigurationRestApi"@, fields, others, headers);
    }
}

/// Where there are not two request headers whose order could differ, two configurations that
/// differ in nothing but the contents of credentials have the same text.
pub proof fn law_rest_text_hides_secrets<F>(
    one: &ConfigurationRestApi<F>,
    other: &ConfigurationRestApi<F>,
    one_text: Seq<char>,
    other_text: Seq<char>,
)
    requires
        same_but_secrets(one, other),
        one.custom_headers matches Some(map) ==> at_most_one_entry(map@),
        one.may_show(one_text),
        other.may_show(other_text),
    ensures
        one_text == other_text,
{
    law_rest_diagnostics_hide_secrets(one, other);
    assert(one.may_show(other_text));
    if let Some(map) = one.custom_headers {
        let first = choose|headers: Seq<char>|
            shows_headers(map@, headers) && one_text == #[trigger] struct_text(
                "ConfigurationRestApi"@,
                one.debug_spec(),
                headers,
            );
        let second = choose|headers: Seq<char>|
            shows_headers(map@, headers) && other_text == #[trigger] struct_text(
                "ConfigurationRestApi"@,
                one.debug_spec(),
                headers,
            );
        law_few_headers_have_one_text(map@, first, second);
    }
}

/// A configuration that is built without settings follows redirects, keeps connections, accepts
/// compressed responses, tries a failed request three more times with a pause of a second, gives up
/// on a request after a second, and has no credentials, proxy or customisation.
pub proof fn law_rest_defaults<F>(config: &ConfigurationRestApi<F>)
    requires
        ConfigurationRestApiBuilder::<F>::empty().settles(config),
    ensures
        config.api_key is None,
        config.api_secret is None,
        config.base_path is None,
        config.timeout == 1000,
        config.keep_alive,
        config.compression,
        config.follow_redirects,
        config.retries == 3,
        !config.preserve_error_response,
        config.backoff == 1000,
        config.proxy is None,
        config.custom_headers is None,
        config.agent is None,
        config.private_key is None,
        config.private_key_passphrase is None,
        config.time_unit is None,
{
}

/// What was set is what a configuration holds. Together with the setters, each of which replaces
/// one setting and keeps all others, this makes the last value that a setting was given the one
/// that counts, whatever else is set before or after it.
pub proof fn law_rest_settings_take_effect<F>(
    builder: &ConfigurationRestApiBuilder<F>,
    config: &ConfigurationRestApi<F>,
)
    requires
        builder.settles(config),
    ensures
        builder.api_key matches Some(value) ==> config.api_key == value,
        builder.api_secret matches Some(value) ==> config.api_secret == value,
        builder.base_path matches Some(value) ==> config.base_path == value,
        builder.timeout matches Some(value) ==> config.timeout == value,
        builder.keep_alive matches Some(value) ==> config.keep_alive == value,
        builder.compression matches Some(value) ==> config.compression == value,
        builder.follow_redirects matches Some(value) ==> config.follow_redirects == value,
        builder.retries matches Some(value) ==> config.retries == value,
        builder.preserve_error_response matches Some(value) ==> config.preserve_error_response == value,
        builder.backoff matches Some(value) ==> config.backoff == value,
        builder.proxy matches Some(value) ==> config.proxy == value,
        builder.custom_headers matches Some(value) ==> config.custom_headers == value,
        builder.agent matches Some(value) ==> config.agent == value,
        builder.private_key matches Some(value) ==> config.private_key == value,
        builder.private_key_passphrase matches Some(value) ==> config.private_key_passphrase == value,
        builder.time_unit matches Some(value) ==> config.time_unit == value,
{
}

/// Building a REST configuration never fails, and each setting depends on itself alone: it is what
/// it was set to, or its default, whatever the others are. The HTTP client is made with the
/// timeout, the keep-alive, the proxy, the agent and the redirect setting of the configuration. The
/// signature generator holds its API secret, its private key and its passphrase.
pub proof fn law_rest_build<F: Clone>(
    builder: ConfigurationRestApiBuilder<F>,
    result: Result<ConfigurationRestApi<F>, ConfigBuildError>,
)
    requires
        call_ensures(ConfigurationRestApiBuilder::<F>::build, (builder,), result),
    ensures
        result matches Ok(config) && {
            &&& builder.api_key matches Some(value) ==> config.api_key == value
            &&& builder.api_key is None ==> config.api_key is None
            &&& builder.api_secret matches Some(value) ==> config.api_secret == value
            &&& builder.api_secret is None ==> config.api_secret is None
            &&& builder.base_path matches Some(value) ==> config.base_path == value
            &&& builder.base_path is None ==> config.base_path is None
            &&& builder.timeout matches Some(value) ==> config.timeout == value
            &&& builder.timeout is None ==> config.timeout == 1000
            &&& builder.keep_alive matches Some(value) ==> config.keep_alive == value
            &&& builder.keep_alive is None ==> config.keep_alive
            &&& builder.compression matches Some(value) ==> config.compression == value
            &&& builder.compression is None ==> config.compression
            &&& builder.follow_redirects matches Some(value) ==> config.follow_redirects == value
            &&& builder.follow_redirects is None ==> config.follow_redirects
            &&& builder.retries matches Some(value) ==> config.retries == value
            &&& builder.retries is None ==> config.retries == 3
            &&& builder.preserve_error_response matches Some(value)
                ==> config.preserve_error_response == value
            &&& builder.preserve_error_response is None ==> !config.preserve_error_response
            &&& builder.backoff matches Some(value) ==> config.backoff == value
            &&& builder.backoff is None ==> config.backoff == 1000
            &&& builder.proxy matches Some(value) ==> config.proxy == value
            &&& builder.proxy is None ==> config.proxy is None
            &&& builder.custom_headers matches Some(value) ==> config.custom_headers == value
            &&& builder.custom_headers is None ==> config.custom_headers is None
            &&& builder.agent matches Some(value) ==> config.agent == value
            &&& builder.agent is None ==> config.agent is None
            &&& builder.private_key matches Some(value) ==> config.private_key == value
            &&& builder.private_key is None ==> config.private_key is None
            &&& builder.private_key_passphrase matches Some(value)
                ==> config.private_key_passphrase == value
            &&& builder.private_key_passphrase is None ==> config.private_key_passphrase is None
            &&& builder.time_unit matches Some(value) ==> config.time_unit == value
            &&& builder.time_unit is None ==> config.time_unit is None
            &&& config.user_agent@.len() == 0
            &&& config.client matches Some(client) && {
                &&& client.timeout == config.timeout
                &&& client.keep_alive == config.keep_alive
                &&& client.proxy == config.proxy
                &&& match (config.agent, client.agent) {
                    (Some(agent), Some(copy)) => cloned(agent.0, copy.0),
                    (None, None) => true,
                    _ => false,
                }
                &&& client.follow_redirects == config.follow_redirects
                &&& builder.keep_alive matches Some(value) ==> client.keep_alive == value
                &&& builder.follow_redirects matches Some(value) ==> client.follow_redirects
                    == value
            }
            &&& config.signature_gen.api_secret == config.api_secret
            &&& match (config.private_key, config.signature_gen.private_key) {
                (Some(PrivateKey::File(path)), Some(PrivateKey::File(same))) => same@ == path@,
                (Some(PrivateKey::Raw(bytes)), Some(PrivateKey::Raw(same))) => same@ == bytes@,
                (None, None) => true,
                _ => false,
            }
            &&& config.signature_gen.private_key_passphrase == config.private_key_passphrase
        },
{
}

/// Building a REST configuration from the settings alone never fails, and each setting is what it
/// was set to, or its default, whatever the others are. Nothing is made from the settings yet.
pub proof fn law_rest_build_from_settings_alone<F>(
    builder: ConfigurationRestApiBuilder<F>,
    result: Result<ConfigurationRestApi<F>, ConfigBuildError>,
)
    requires
        call_ensures(ConfigurationRestApiBuilder::<F>::try_build, (builder,), result),
    ensures
        result matches Ok(config) && {
            &&& builder.api_key matches Some(value) ==> config.api_key == value
            &&& builder.api_key is None ==> config.api_key is None
            &&& builder.api_secret matches Some(value) ==> config.api_secret == value
            &&& builder.api_secret is None ==> config.api_secret is None
            &&& builder.base_path matches Some(value) ==> config.base_path == value
            &&& builder.base_path is None ==> config.base_path is None
            &&& builder.timeout matches Some(value) ==> config.timeout == value
            &&& builder.timeout is None ==> config.timeout == 1000
            &&& builder.keep_alive matches Some(value) ==> config.keep_alive == value
            &&& builder.keep_alive is None ==> config.keep_alive
            &&& builder.compression matches Some(value) ==> config.compression == value
            &&& builder.compression is None ==> config.compression
            &&& builder.follow_redirects matches Some(value) ==> config.follow_redirects == value
            &&& builder.follow_redirects is None ==> config.follow_redirects
            &&& builder.retries matches Some(value) ==> config.retries == value
            &&& builder.retries is None ==> config.retries == 3
            &&& builder.preserve_error_response matches Some(value)
                ==> config.preserve_error_response == value
            &&& builder.preserve_error_response is None ==> !config.preserve_error_response
            &&& builder.backoff matches Some(value) ==> config.backoff == value
            &&& builder.backoff is None ==> config.backoff == 1000
            &&& builder.proxy matches Some(value) ==> config.proxy == value
            &&& builder.proxy is None ==> config.proxy is None
            &&& builder.custom_headers matches Some(value) ==> config.custom_headers == value
            &&& builder.custom_headers is None ==> config.custom_headers is None
            &&& builder.agent matches Some(value) ==> config.agent == value
            &&& builder.agent is None ==> config.agent is None
            &&& builder.private_key matches Some(value) ==> config.private_key == value
            &&& builder.private_key is None ==> config.private_key is None
            &&& builder.private_key_passphrase matches Some(value)
                ==> config.private_key_passphrase == value
            &&& builder.private_key_passphrase is None ==> config.private_key_passphrase is None
            &&& builder.time_unit matches Some(value) ==> config.time_unit == value
            &&& builder.time_unit is None ==> config.time_unit is None
            &&& config.user_agent@.len() == 0
            &&& config.client is None
            &&& config.signature_gen.api_secret is None
            &&& config.signature_gen.private_key is None
            &&& config.signature_gen.private_key_passphrase is None
        },
{
}

/// A setter sets one setting and keeps all others, and a text is stored as its conversion into a
/// string gives it.
pub proof fn law_rest_setters<F, V: Into<String>, H: Into<HashMap<String, String>>>(
    builder: ConfigurationRestApiBuilder<F>,
)
    ensures
        forall|value: V, result: ConfigurationRestApiBuilder<F>| #[trigger]
            call_ensures(ConfigurationRestApiBuilder::<F>::api_key::<V>, (builder, value), result) ==> {
                &&& result == ConfigurationRestApiBuilder {
                    api_key: result.api_key,
                    ..builder
                }
                &&& result.api_key matches Some(Some(stored)) && call_ensures(
                    <V as Into<String>>::into,
                    (value,),
                    stored,
                )
            },
        forall|value: V, result: ConfigurationRestApiBuilder<F>| #[trigger]
            call_ensures(ConfigurationRestApiBuilder::<F>::api_secret::<V>, (builder, value), result) ==> {
                &&& result == ConfigurationRestApiBuilder {
                    api_secret: result.api_secret,
                    ..builder
                }
                &&& result.api_secret matches Some(Some(stored)) && call_ensures(
                    <V as Into<String>>::into,
                    (value,),
                    stored,
                )
            },
        forall|value: V, result: ConfigurationRestApiBuilder<F>| #[trigger]
            call_ensures(ConfigurationRestApiBuilder::<F>::base_path::<V>, (builder, value), result) ==> {
                &&& result == ConfigurationRestApiBuilder {
                    base_path: result.base_path,
                    ..builder
                }
                &&& result.base_path matches Some(Some(stored)) && call_ensures(
                    <V as Into<String>>::into,
                    (value,),
                    stored,
                )
            },
        forall|value: u64, result: ConfigurationRestApiBuilder<F>| #[trigger]
            call_ensures(ConfigurationRestApiBuilder::<F>::timeout, (builder, value), result)
                ==> result == (ConfigurationRestApiBuilder { timeout: Some(value), ..builder }),
        forall|value: bool, result: ConfigurationRestApiBuilder<F>| #[trigger]
            call_ensures(ConfigurationRestApiBuilder::<F>::keep_alive, (builder, value), result)
                ==> result == (ConfigurationRestApiBuilder { keep_alive: Some(value), ..builder }),
        forall|value: bool, result: ConfigurationRestApiBuilder<F>| #[trigger]
            call_ensures(ConfigurationRestApiBuilder::<F>::compression, (builder, value), result)
                ==> result == (ConfigurationRestApiBuilder { compression: Some(value), ..builder }),
        forall|value: bool, result: ConfigurationRestApiBuilder<F>| #[trigger]
            call_ensures(ConfigurationRestApiBuilder::<F>::follow_redirects, (builder, value), result)
                ==> result == (ConfigurationRestApiBuilder { follow_redirects: Some(value), ..builder }),
        forall|value: u32, result: ConfigurationRestApiBuilder<F>| #[trigger]
            call_ensures(ConfigurationRestApiBuilder::<F>::retries, (builder, value), result)
                ==> result == (ConfigurationRestApiBuilder { retries: Some(value), ..builder }),
        forall|value: bool, result: ConfigurationRestApiBuilder<F>| #[trigger]
            call_ensures(ConfigurationRestApiBuilder::<F>::preserve_error_response, (builder, value), result)
                ==> result == (ConfigurationRestApiBuilder { preserve_error_response: Some(value), ..builder }),
        forall|value: u64, result: ConfigurationRestApiBuilder<F>| #[trigger]
            call_ensures(ConfigurationRestApiBuilder::<F>::backoff, (builder, value), result)
                ==> result == (ConfigurationRestApiBuilder { backoff: Some(value), ..builder }),
        forall|value: ProxyConfig, result: ConfigurationRestApiBuilder<F>| #[trigger]
            call_ensures(ConfigurationRestApiBuilder::<F>::proxy, (builder, value), result)
                ==> result == (ConfigurationRestApiBuilder { proxy: Some(Some(value)), ..builder }),
        forall|value: H, result: ConfigurationRestApiBuilder<F>| #[trigger]
            call_ensures(ConfigurationRestApiBuilder::<F>::custom_headers::<H>, (builder, value), result) ==> {
                &&& result == ConfigurationRestApiBuilder {
                    custom_headers: result.custom_headers,
                    ..builder
                }
                &&& result.custom_headers matches Some(Some(stored)) && call_ensures(
                    <H as Into<HashMap<String, String>>>::into,
                    (value,),
                    stored,
                )
            },
        forall|value: HttpAgent<F>, result: ConfigurationRestApiBuilder<F>| #[trigger]
            call_ensures(ConfigurationRestApiBuilder::<F>::agent, (builder, value), result)
                ==> result == (ConfigurationRestApiBuilder { agent: Some(Some(value)), ..builder }),
        forall|value: PrivateKey, result: ConfigurationRestApiBuilder<F>| #[trigger]
            call_ensures(ConfigurationRestApiBuilder::<F>::private_key, (builder, value), result)
                ==> result == (ConfigurationRestApiBuilder { private_key: Some(Some(value)), ..builder }),
        forall|value: String, result: ConfigurationRestApiBuilder<F>| #[trigger]
            call_ensures(ConfigurationRestApiBuilder::<F>::private_key_passphrase, (builder, value), result)
                ==> result == (ConfigurationRestApiBuilder { private_key_passphrase: Some(Some(value)), ..builder }),
        forall|value: TimeUnit, result: ConfigurationRestApiBuilder<F>| #[trigger]
            call_ensures(ConfigurationRestApiBuilder::<F>::time_unit, (builder, value), result)
                ==> result == (ConfigurationRestApiBuilder { time_unit: Some(Some(value)), ..builder }),
{
}

/// A new builder has no settings.
pub proof fn law_rest_builder_is_empty<F>(builder: ConfigurationRestApiBuilder<F>)
    requires
        call_ensures(ConfigurationRestApi::<F>::builder, (), builder) || call_ensures(
            <ConfigurationRestApiBuilder<F> as Default>::default,
            (),
            builder,
        ),
    ensures
        builder.api_key is None,
        builder.api_secret is None,
        builder.base_path is None,
        builder.timeout is None,
        builder.keep_alive is None,
        builder.compression is None,
        builder.follow_redirects is None,
        builder.retries is None,
        builder.preserve_error_response is None,
        builder.backoff is None,
        builder.proxy is None,
        builder.custom_headers is None,
        builder.agent is None,
        builder.private_key is None,
        builder.private_key_passphrase is None,
        builder.time_unit is None,
{
}

/// A clone of a REST configuration has the same settings and works with the same credentials.
pub proof fn law_rest_clone<F: Clone>(
    config: ConfigurationRestApi<F>,
    copy: ConfigurationRestApi<F>,
)
    requires
        call_ensures(<ConfigurationRestApi<F> as Clone>::clone, (&config,), copy),
    ensures
        copy.api_key == config.api_key,
        copy.api_secret == config.api_secret,
        copy.base_path == config.base_path,
        copy.timeout == config.timeout,
        copy.keep_alive == config.keep_alive,
        copy.compression == config.compression,
        copy.follow_redirects == config.follow_redirects,
        copy.retries == config.retries,
        copy.preserve_error_response == config.preserve_error_response,
        copy.backoff == config.backoff,
        copy.proxy == config.proxy,
        match (config.custom_headers, copy.custom_headers) {
            (Some(headers), Some(same)) => same@ == headers@,
            (None, None) => true,
            _ => false,
        },
        match (config.agent, copy.agent) {
            (Some(agent), Some(copy)) => cloned(agent.0, copy.0),
            (None, None) => true,
            _ => false,
        },
        match (config.private_key, copy.private_key) {
            (Some(PrivateKey::File(path)), Some(PrivateKey::File(same))) => same@ == path@,
            (Some(PrivateKey::Raw(bytes)), Some(PrivateKey::Raw(same))) => same@ == bytes@,
            (None, None) => true,
            _ => false,
        },
        copy.private_key_passphrase == config.private_key_passphrase,
        copy.time_unit == config.time_unit,
        copy.user_agent == config.user_agent,
        copy.signature_gen.api_secret == config.signature_gen.api_secret,
        match (config.signature_gen.private_key, copy.signature_gen.private_key) {
            (Some(PrivateKey::File(path)), Some(PrivateKey::File(same))) => same@ == path@,
            (Some(PrivateKey::Raw(bytes)), Some(PrivateKey::Raw(same))) => same@ == bytes@,
            (None, None) => true,
            _ => false,
        },
        copy.signature_gen.private_key_passphrase == config.signature_gen.private_key_passphrase,
        match (config.client, copy.client) {
            (Some(client), Some(same)) => {
                &&& same.timeout == client.timeout
                &&& same.keep_alive == client.keep_alive
                &&& same.proxy == client.proxy
                &&& match (client.agent, same.agent) {
                    (Some(agent), Some(copy)) => cloned(agent.0, copy.0),
                    (None, None) => true,
                    _ => false,
                }
                &&& same.follow_redirects == client.follow_redirects
            },
            (None, None) => true,
            _ => false,
        },
{
}

/// What a REST configuration shows of itself, field by field, for every configuration. Of a
/// credential it shows whether it is set.
pub proof fn law_rest_fields_shown<F>(config: ConfigurationRestApi<F>, fields: Vec<DebugField<'_>>)
    requires
        call_ensures(ConfigurationRestApi::<F>::debug_fields, (&config,), fields),
    ensures
        fields@.len() == 19,
        fields@[0].name == "api_key",
        fields@[0].value == DebugValue::Redacted(
            if config.api_key is Some {
                Some("[REDACTED]")
            } else {
                None
            },
        ),
        fields@[1].name == "api_secret",
        fields@[1].value == DebugValue::Redacted(
            if config.api_secret is Some {
                Some("[REDACTED]")
            } else {
                None
            },
        ),
        fields@[2].name == "base_path",
        fields@[2].value == DebugValue::OptionalText(&config.base_path),
        fields@[3].name == "timeout",
        fields@[3].value == DebugValue::Number(config.timeout as u64),
        fields@[4].name == "keep_alive",
        fields@[4].value == DebugValue::Flag(config.keep_alive),
        fields@[5].name == "compression",
        fields@[5].value == DebugValue::Flag(config.compression),
        fields@[6].name == "follow_redirects",
        fields@[6].value == DebugValue::Flag(config.follow_redirects),
        fields@[7].name == "retries",
        fields@[7].value == DebugValue::Number(config.retries as u64),
        fields@[8].name == "preserve_error_response",
        fields@[8].value == DebugValue::Flag(config.preserve_error_response),
        fields@[9].name == "backoff",
        fields@[9].value == DebugValue::Number(config.backoff as u64),
        fields@[10].name == "proxy",
        fields@[10].value matches DebugValue::Proxy(shown) && match (config.proxy, shown) {
            (Some(proxy), Some(shown)) => {
                &&& *shown.host == proxy.host
                &&& shown.port == proxy.port
                &&& *shown.protocol == proxy.protocol
                &&& match (proxy.auth, shown.auth) {
                    (Some(auth), Some(shown)) => *shown.username == auth.username && shown.password
                        == "[REDACTED]",
                    (None, None) => true,
                    _ => false,
                }
            },
            (None, None) => true,
            _ => false,
        },
        fields@[11].name == "custom_headers",
        fields@[11].value == DebugValue::Headers(&config.custom_headers),
        fields@[12].name == "agent",
        fields@[12].value == DebugValue::Opaque(
            if config.agent is Some {
                Some("HttpAgent(<custom agent fn>)")
            } else {
                None
            },
        ),
        fields@[13].name == "private_key",
        fields@[13].value == DebugValue::Redacted(
            if config.private_key is Some {
                Some("[REDACTED]")
            } else {
                None
            },
        ),
        fields@[14].name == "private_key_passphrase",
        fields@[14].value == DebugValue::Redacted(
            if config.private_key_passphrase is Some {
                Some("[REDACTED]")
            } else {
                None
            },
        ),
        fields@[15].name == "time_unit",
        fields@[15].value == DebugValue::TimeUnit(config.time_unit),
        fields@[16].name == "client",
        fields@[16].value == DebugValue::Literal("<reqwest::Client>"),
        fields@[17].name == "user_agent",
        fields@[17].value == DebugValue::Text(&config.user_agent),
        fields@[18].name == "signature_gen",
        fields@[18].value matches DebugValue::Signature(shown) && {
            &&& shown.api_secret == if config.signature_gen.api_secret is Some {
                Some("[REDACTED]")
            } else {
                None
            }
            &&& shown.private_key == if config.signature_gen.private_key is Some {
                Some("[REDACTED]")
            } else {
                None
            }
            &&& shown.private_key_passphrase == if config.signature_gen.private_key_passphrase is Some {
                Some("[REDACTED]")
            } else {
                None
            }
        },
{
}

/// The text of a REST configuration, for every configuration: each field under its name, in this
/// order. The proxy and the signature generator are written as they are by themselves, and
/// `headers` stands for the request headers.
pub proof fn law_rest_text_with_headers<F>(
    config: ConfigurationRestApi<F>,
    proxy: String,
    signature: String,
    headers: &str,
    text: String,
) -> (parts: Seq<Seq<char>>)
    requires
        config.proxy matches Some(set) ==> call_ensures(ProxyConfig::debug_text, (&set,), proxy),
        call_ensures(SignatureGenerator::debug_text, (&config.signature_gen,), signature),
        call_ensures(ConfigurationRestApi::<F>::debug_text_with_headers, (&config, headers), text),
    ensures
        text@ == "ConfigurationRestApi"@ + " { "@ + joined(parts) + " }"@,
        parts.len() == 19,
        parts[0] == "api_key"@ + ": "@ + (if config.api_key is Some {
            "Some("@ + quoted("[REDACTED]"@) + ")"@
        } else {
            "None"@
        }),
        parts[1] == "api_secret"@ + ": "@ + (if config.api_secret is Some {
            "Some("@ + quoted("[REDACTED]"@) + ")"@
        } else {
            "None"@
        }),
        parts[2] == "base_path"@ + ": "@ + (match config.base_path {
            Some(value) => "Some("@ + quoted(value@) + ")"@,
            None => "None"@,
        }),
        parts[3] == "timeout"@ + ": "@ + decimal(config.timeout as nat),
        parts[4] == "keep_alive"@ + ": "@ + (if config.keep_alive {
            "true"@
        } else {
            "false"@
        }),
        parts[5] == "compression"@ + ": "@ + (if config.compression {
            "true"@
        } else {
            "false"@
        }),
        parts[6] == "follow_redirects"@ + ": "@ + (if config.follow_redirects {
            "true"@
        } else {
            "false"@
        }),
        parts[7] == "retries"@ + ": "@ + decimal(config.retries as nat),
        parts[8] == "preserve_error_response"@ + ": "@ + (if config.preserve_error_response {
            "true"@
        } else {
            "false"@
        }),
        parts[9] == "backoff"@ + ": "@ + decimal(config.backoff as nat),
        parts[10] == "proxy"@ + ": "@ + (if config.proxy is Some {
            "Some("@ + proxy@ + ")"@
        } else {
            "None"@
        }),
        parts[11] == "custom_headers"@ + ": "@ + (if config.custom_headers is Some {
            "Some("@ + headers@ + ")"@
        } else {
            "None"@
        }),
        parts[12] == "agent"@ + ": "@ + (if config.agent is Some {
            "Some("@ + "HttpAgent(<custom agent fn>)"@ + ")"@
        } else {
            "None"@
        }),
        parts[13] == "private_key"@ + ": "@ + (if config.private_key is Some {
            "Some("@ + quoted("[REDACTED]"@) + ")"@
        } else {
            "None"@
        }),
        parts[14] == "private_key_passphrase"@ + ": "@ + (if config.private_key_passphrase is Some {
            "Some("@ + quoted("[REDACTED]"@) + ")"@
        } else {
            "None"@
        }),
        parts[15] == "time_unit"@ + ": "@ + (match config.time_unit {
            Some(TimeUnit::Millisecond) => "Some("@ + "Millisecond"@ + ")"@,
            Some(TimeUnit::Microsecond) => "Some("@ + "Microsecond"@ + ")"@,
            None => "None"@,
        }),
        parts[16] == "client"@ + ": "@ + quoted("<reqwest::Client>"@),
        parts[17] == "user_agent"@ + ": "@ + quoted(config.user_agent@),
        parts[18] == "signature_gen"@ + ": "@ + signature@,
{
    let fields = config.debug_spec();
    Seq::new(fields.len(), |i: int| field_text(fields[i], headers@))
}

/// The text of a REST configuration is the one with its request headers: without headers, whatever
/// stands for them; with headers, their entries between braces, each once, in some order.
pub proof fn law_rest_text<F>(config: ConfigurationRestApi<F>, text: String)
    requires
        call_ensures(ConfigurationRestApi::<F>::debug_text, (&config,), text),
    ensures
        config.custom_headers is None ==> forall|headers: &str, written: String| #[trigger]
            call_ensures(
                ConfigurationRestApi::<F>::debug_text_with_headers,
                (&config, headers),
                written,
            ) ==> written@ == text@,
        config.custom_headers matches Some(map) ==> exists|entries: Seq<(String, String)>|
            {
                &&& #[trigger] entries.no_duplicates()
                &&& forall|name: String, value: String| #[trigger]
                    entries.contains((name, value)) <==> map@.contains_pair(name, value)
                &&& forall|headers: &str, written: String| #[trigger]
                    call_ensures(
                        ConfigurationRestApi::<F>::debug_text_with_headers,
                        (&config, headers),
                        written,
                    ) && headers@ == "{"@ + joined(
                        Seq::new(
                            entries.len(),
                            |i: int| quoted(entries[i].0@) + ": "@ + quoted(entries[i].1@),
                        ),
                    ) + "}"@ ==> written@ == text@
            },
{
    let fields = config.debug_spec();
    match config.custom_headers {
        None => {
            assert forall|headers: &str, written: String| #[trigger]
                call_ensures(
                    ConfigurationRestApi::<F>::debug_text_with_headers,
                    (&config, headers),
                    written,
                ) implies written@ == text@ by {
                let parts = Seq::new(fields.len(), |i: int| field_text(fields[i], headers@));
                assert(parts =~= Seq::new(fields.len(), |i: int| field_text(fields[i], ""@)));
            }
        },
        Some(map) => {
            let shown = choose|headers: Seq<char>|
                shows_headers(map@, headers) && text@ == #[trigger] struct_text(
                    "ConfigurationRestApi"@,
                    fields,
                    headers,
                );
            let entries = choose|entries: Seq<(String, String)>|
                lists_entries(entries, map@) && shown == "{"@ + #[trigger] entries_text(entries)
                    + "}"@;
            assert(entries.no_duplicates());
        },
    }
}

/// A configuration whose client could be made is handed out as it is. A client that could not be
/// made is an error that names the client, whatever the configuration.
pub proof fn law_client_outcome<F>(
    config: ConfigurationRestApi<F>,
    made: bool,
    result: Result<ConfigurationRestApi<F>, ConfigBuildError>,
)
    requires
        call_ensures(client_outcome::<F>, (config, made), result),
    ensures
        match result {
            Ok(handed_out) => made && handed_out == config,
            Err(ConfigBuildError::UninitializedField(name)) => !made && name@ == "client"@,
        },
{
}

/// A clone of client settings makes the same client, with a clone of the customising function.
pub proof fn law_client_settings_clone<F: Clone>(
    settings: ClientSettings<F>,
    copy: ClientSettings<F>,
)
    requires
        call_ensures(<ClientSettings<F> as Clone>::clone, (&settings,), copy),
    ensures
        copy.timeout == settings.timeout,
        copy.keep_alive == settings.keep_alive,
        copy.proxy == settings.proxy,
        match (settings.agent, copy.agent) {
            (Some(agent), Some(copy)) => cloned(agent.0, copy.0),
            (None, None) => true,
            _ => false,
        },
        copy.follow_redirects == settings.follow_redirects,
{
}

} // verus!

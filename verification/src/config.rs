//! Configurations of the REST and WebSocket clients.
//!
//! A configuration shows nothing of its credentials in diagnostics but whether they are set.

pub mod rest;
pub mod websocket_api;
pub mod websocket_streams;

use vstd::prelude::*;
use tokio_tungstenite::Connector;
use crate::diagnostics::{redact, ProxyAuthDebug, ProxyDebug, SignatureDebug};
use crate::diagnostics::{proxy_auth_text, proxy_text, redaction, signature_text};
use crate::text::{decimal, quoted, text_of};

pub use crate::observers::{
    RawFrameContext, RawFrameKind, RawFrameObserver, StreamSubscriptionObserver,
    WebsocketLifecycleContext, WebsocketLifecycleEvent,
};
pub use self::rest::{
    client_outcome, ClientSettings, ConfigurationRestApi, ConfigurationRestApiBuilder,
};
pub use self::websocket_api::{ConfigurationWebsocketApi, ConfigurationWebsocketApiBuilder};
pub use self::websocket_streams::{
    ConfigurationWebsocketStreams, ConfigurationWebsocketStreamsBuilder,
};

verus! {

/// TLS connector of a WebSocket connection.
pub struct AgentConnector(pub Connector);

impl Clone for AgentConnector {
    fn clone(&self) -> (result: Self)
        ensures
            result == *self,
    {
        AgentConnector(self.0.clone())
    }
}

impl AgentConnector {
    /// The text that `Debug` writes for a connector.
    pub fn debug_text(&self) -> (text: &'static str)
        ensures
            text == "Connector(…)",
    {
        "Connector(…)"
    }
}

/// Customisation of the HTTP client. `F` is the type of the function that customises the client's
/// builder.
pub struct HttpAgent<F>(pub F);

impl<F> HttpAgent<F> {
    /// The text that `Debug` writes for an agent.
    pub fn debug_text(&self) -> (text: &'static str)
        ensures
            text == "HttpAgent(<custom agent fn>)",
    {
        "HttpAgent(<custom agent fn>)"
    }
}

impl<F: Clone> Clone for HttpAgent<F> {
    fn clone(&self) -> (result: Self)
        ensures
            cloned(self.0, result.0),
    {
        HttpAgent(self.0.clone())
    }
}

/// Whether `copy` is a clone of `agent`.
pub open spec fn cloned_agent<F: Clone>(
    agent: Option<HttpAgent<F>>,
    copy: Option<HttpAgent<F>>,
) -> bool {
    match (agent, copy) {
        (Some(agent), Some(copy)) => cloned(agent.0, copy.0),
        (None, None) => true,
        _ => false,
    }
}

/// User name and password for a proxy.
pub struct ProxyAuth {
    pub username: String,
    pub password: String,
}

impl ProxyAuth {
    /// What is shown in diagnostics: the user name, and `[REDACTED]` for the password.
    pub fn debug_view(&self) -> (shown: ProxyAuthDebug<'_>)
        ensures
            shown == self.debug_spec(),
    {
        ProxyAuthDebug { username: &self.username, password: "[REDACTED]" }
    }

    /// The text that `Debug` writes, on one line.
    pub fn debug_text(&self) -> (text: String)
        ensures
            text@ == proxy_auth_text(self.debug_spec()),
    {
        self.debug_view().quote().text()
    }

    /// What is shown in diagnostics.
    pub open spec fn debug_spec(&self) -> ProxyAuthDebug<'_> {
        ProxyAuthDebug { username: &self.username, password: "[REDACTED]" }
    }
}

/// The text of a user name and password shows the user name and nothing of the password: two texts
/// are the same exactly when the quoted user names are, and so whenever the user names are.
pub proof fn law_proxy_auth_text_shows_only_user_name(one: &ProxyAuth, other: &ProxyAuth)
    ensures
        proxy_auth_text(one.debug_spec()) == proxy_auth_text(other.debug_spec()) <==> quoted(
            one.username@,
        ) == quoted(other.username@),
        one.username@ == other.username@ ==> proxy_auth_text(one.debug_spec()) == proxy_auth_text(
            other.debug_spec(),
        ),
{
    let before = "ProxyAuth { username: "@;
    let one_name = quoted(one.username@);
    let other_name = quoted(other.username@);
    let one_text = proxy_auth_text(one.debug_spec());
    let other_text = proxy_auth_text(other.debug_spec());
    let password = quoted("[REDACTED]"@);
    assert(one_text == before + one_name + ", password: "@ + password + " }"@);
    assert(other_text == before + other_name + ", password: "@ + password + " }"@);
    if one_text == other_text {
        assert(one_name.len() == other_name.len());
        let end = (before.len() + one_name.len()) as int;
        assert(one_text.subrange(before.len() as int, end) =~= one_name);
        assert(other_text.subrange(before.len() as int, end) =~= other_name);
    }
}

impl Clone for ProxyAuth {
    fn clone(&self) -> (result: Self)
        ensures
            result == *self,
    {
        ProxyAuth { username: self.username.clone(), password: self.password.clone() }
    }
}

/// Proxy that the REST client goes through.
pub struct ProxyConfig {
    pub host: String,
    pub port: u16,
    pub protocol: Option<String>,
    pub auth: Option<ProxyAuth>,
}

impl ProxyConfig {
    /// What is shown in diagnostics.
    pub fn debug_view(&self) -> (shown: ProxyDebug<'_>)
        ensures
            shown == self.debug_spec(),
    {
        ProxyDebug {
            host: &self.host,
            port: self.port,
            protocol: &self.protocol,
            auth: match &self.auth {
                Some(auth) => Some(auth.debug_view()),
                None => None,
            },
        }
    }

    /// The text that `Debug` writes, on one line.
    pub fn debug_text(&self) -> (text: String)
        ensures
            text@ == proxy_text(self.debug_spec()),
    {
        self.debug_view().quote().text()
    }

    /// What is shown in diagnostics.
    pub open spec fn debug_spec(&self) -> ProxyDebug<'_> {
        ProxyDebug {
            host: &self.host,
            port: self.port,
            protocol: &self.protocol,
            auth: match self.auth {
                Some(auth) => Some(auth.debug_spec()),
                None => None,
            },
        }
    }

    /// Whether the two proxies differ in nothing but a password.
    pub open spec fn same_but_password(&self, other: &ProxyConfig) -> bool {
        &&& self.host == other.host
        &&& self.port == other.port
        &&& self.protocol == other.protocol
        &&& match (self.auth, other.auth) {
            (Some(auth), Some(other)) => auth.username == other.username,
            (None, None) => true,
            _ => false,
        }
    }
}

/// Diagnostics of a proxy show nothing of a password.
pub proof fn law_proxy_diagnostics_hide_password(one: &ProxyConfig, other: &ProxyConfig)
    requires
        one.same_but_password(other),
    ensures
        one.debug_spec() == other.debug_spec(),
{
}

impl Clone for ProxyConfig {
    fn clone(&self) -> (result: Self)
        ensures
            result == *self,
    {
        ProxyConfig {
            host: self.host.clone(),
            port: self.port,
            protocol: self.protocol.clone(),
            auth: self.auth.clone(),
        }
    }
}

/// The contents of an optional private key.
pub open spec fn key_of(key: Option<PrivateKey>) -> Option<PrivateKeyView> {
    match key {
        Some(key) => Some(key@),
        None => None,
    }
}

/// Private key that requests are signed with.
pub enum PrivateKey {
    /// Path of the file that holds the key.
    File(String),
    Raw(Vec<u8>),
}

/// The contents of a [`PrivateKey`].
pub enum PrivateKeyView {
    File(Seq<char>),
    Raw(Seq<u8>),
}

impl View for PrivateKey {
    type V = PrivateKeyView;

    open spec fn view(&self) -> PrivateKeyView {
        match self {
            PrivateKey::File(path) => PrivateKeyView::File(path@),
            PrivateKey::Raw(bytes) => PrivateKeyView::Raw(bytes@),
        }
    }
}

impl PrivateKey {
    /// The text that `Debug` writes for a key: where the key comes from, and nothing of the key.
    pub fn debug_text(&self) -> (text: &'static str)
        ensures
            text == self.debug_spec(),
    {
        match self {
            PrivateKey::File(_) => "PrivateKey::File([REDACTED])",
            PrivateKey::Raw(_) => "PrivateKey::Raw([REDACTED])",
        }
    }

    /// The text that `Debug` writes for a key.
    pub open spec fn debug_spec(&self) -> &'static str {
        match self {
            PrivateKey::File(_) => "PrivateKey::File([REDACTED])",
            PrivateKey::Raw(_) => "PrivateKey::Raw([REDACTED])",
        }
    }
}

/// Diagnostics of a private key show nothing but whether it comes from a file.
pub proof fn law_private_key_diagnostics_hide_key(one: &PrivateKey, other: &PrivateKey)
    requires
        one is File <==> other is File,
    ensures
        one.debug_spec() == other.debug_spec(),
{
}

impl Clone for PrivateKey {
    fn clone(&self) -> (result: Self)
        ensures
            result@ == self@,
    {
        match self {
            PrivateKey::File(path) => PrivateKey::File(path.clone()),
            PrivateKey::Raw(bytes) => PrivateKey::Raw(bytes.clone()),
        }
    }
}

/// The credentials that requests are signed with.
pub struct SignatureGenerator {
    pub api_secret: Option<String>,
    pub private_key: Option<PrivateKey>,
    pub private_key_passphrase: Option<String>,
}

/// The contents of a [`SignatureGenerator`].
pub struct Credentials {
    pub api_secret: Option<Seq<char>>,
    pub private_key: Option<PrivateKeyView>,
    pub private_key_passphrase: Option<Seq<char>>,
}

/// The contents of an API secret, a private key and its passphrase.
pub open spec fn credentials(
    api_secret: Option<String>,
    private_key: Option<PrivateKey>,
    private_key_passphrase: Option<String>,
) -> Credentials {
    Credentials {
        api_secret: text_of(api_secret),
        private_key: key_of(private_key),
        private_key_passphrase: text_of(private_key_passphrase),
    }
}

impl View for SignatureGenerator {
    type V = Credentials;

    open spec fn view(&self) -> Credentials {
        credentials(self.api_secret, self.private_key, self.private_key_passphrase)
    }
}

impl SignatureGenerator {
    /// Takes the credentials to sign with.
    pub fn new(
        api_secret: Option<String>,
        private_key: Option<PrivateKey>,
        private_key_passphrase: Option<String>,
    ) -> (result: Self)
        ensures
            result@ == credentials(api_secret, private_key, private_key_passphrase),
            result.api_secret == api_secret,
            result.private_key == private_key,
            result.private_key_passphrase == private_key_passphrase,
    {
        SignatureGenerator { api_secret, private_key, private_key_passphrase }
    }

    /// What is shown in diagnostics: which credentials are set, and nothing of them.
    pub fn debug_view(&self) -> (shown: SignatureDebug)
        ensures
            shown == self.debug_spec(),
    {
        SignatureDebug {
            api_secret: redact(&self.api_secret),
            private_key: redact(&self.private_key),
            private_key_passphrase: redact(&self.private_key_passphrase),
        }
    }

    /// The text that this library writes for a signature generator in diagnostics, on one line.
    pub fn debug_text(&self) -> (text: String)
        ensures
            text@ == signature_text(self.debug_spec()),
    {
        self.debug_view().quote().text()
    }

    /// What is shown in diagnostics.
    pub open spec fn debug_spec(&self) -> SignatureDebug {
        SignatureDebug {
            api_secret: redaction(self.api_secret),
            private_key: redaction(self.private_key),
            private_key_passphrase: redaction(self.private_key_passphrase),
        }
    }

    /// Whether the two hold the same kinds of credentials.
    pub open spec fn same_credentials_set(&self, other: &SignatureGenerator) -> bool {
        &&& self.api_secret is Some <==> other.api_secret is Some
        &&& self.private_key is Some <==> other.private_key is Some
        &&& self.private_key_passphrase is Some <==> other.private_key_passphrase is Some
    }
}

impl Default for SignatureGenerator {
    fn default() -> (result: Self)
        ensures
            result@ == (Credentials {
                api_secret: None,
                private_key: None,
                private_key_passphrase: None,
            }),
            result.api_secret is None,
            result.private_key is None,
            result.private_key_passphrase is None,
    {
        SignatureGenerator { api_secret: None, private_key: None, private_key_passphrase: None }
    }
}

impl Clone for SignatureGenerator {
    fn clone(&self) -> (result: Self)
        ensures
            result@ == self@,
            result.api_secret == self.api_secret,
            key_of(result.private_key) == key_of(self.private_key),
            result.private_key_passphrase == self.private_key_passphrase,
    {
        SignatureGenerator {
            api_secret: self.api_secret.clone(),
            private_key: self.private_key.clone(),
            private_key_passphrase: self.private_key_passphrase.clone(),
        }
    }
}

/// The value of a setting: what it was set to, else its default.
pub open spec fn setting<T>(value: Option<T>, default: T) -> T {
    match value {
        Some(value) => value,
        None => default,
    }
}

/// Each credential reaches the generator as it is, whichever of the others are set.
pub proof fn law_signature_generator_holds_credentials(
    api_secret: Option<String>,
    private_key: Option<PrivateKey>,
    private_key_passphrase: Option<String>,
    generator: SignatureGenerator,
)
    requires
        call_ensures(
            SignatureGenerator::new,
            (api_secret, private_key, private_key_passphrase),
            generator,
        ),
    ensures
        generator.api_secret == api_secret,
        generator.private_key == private_key,
        generator.private_key_passphrase == private_key_passphrase,
{
}

/// A generator that nothing was given to holds no credentials.
pub proof fn law_default_generator_is_empty(generator: SignatureGenerator)
    requires
        call_ensures(<SignatureGenerator as Default>::default, (), generator),
    ensures
        generator.api_secret is None,
        generator.private_key is None,
        generator.private_key_passphrase is None,
{
}

/// A clone of a private key comes from the same place and has the same path or the same bytes.
pub proof fn law_private_key_clone(key: PrivateKey, copy: PrivateKey)
    requires
        call_ensures(<PrivateKey as Clone>::clone, (&key,), copy),
    ensures
        match (key, copy) {
            (PrivateKey::File(path), PrivateKey::File(same)) => same@ == path@,
            (PrivateKey::Raw(bytes), PrivateKey::Raw(same)) => same@ == bytes@,
            _ => false,
        },
{
}

/// A clone of a generator signs with the same credentials.
pub proof fn law_signature_generator_clone(generator: SignatureGenerator, copy: SignatureGenerator)
    requires
        call_ensures(<SignatureGenerator as Clone>::clone, (&generator,), copy),
    ensures
        copy.api_secret == generator.api_secret,
        match (generator.private_key, copy.private_key) {
            (Some(PrivateKey::File(path)), Some(PrivateKey::File(same))) => same@ == path@,
            (Some(PrivateKey::Raw(bytes)), Some(PrivateKey::Raw(same))) => same@ == bytes@,
            (None, None) => true,
            _ => false,
        },
        copy.private_key_passphrase == generator.private_key_passphrase,
{
}

/// Clones of a proxy, of its user name and password, and of a connector are the same values. A
/// clone of an agent customises with a clone of the function.
pub proof fn law_connection_settings_clone<F: Clone>(
    proxy: ProxyConfig,
    proxy_copy: ProxyConfig,
    auth: ProxyAuth,
    auth_copy: ProxyAuth,
    connector: AgentConnector,
    connector_copy: AgentConnector,
    agent: HttpAgent<F>,
    agent_copy: HttpAgent<F>,
)
    requires
        call_ensures(<ProxyConfig as Clone>::clone, (&proxy,), proxy_copy),
        call_ensures(<ProxyAuth as Clone>::clone, (&auth,), auth_copy),
        call_ensures(<AgentConnector as Clone>::clone, (&connector,), connector_copy),
        call_ensures(<HttpAgent<F> as Clone>::clone, (&agent,), agent_copy),
    ensures
        proxy_copy == proxy,
        auth_copy == auth,
        connector_copy == connector,
        cloned(agent.0, agent_copy.0),
{
}

/// The fixed texts that stand for connectors, agents and private keys. That of a private key shows
/// where the key comes from.
pub proof fn law_opaque_texts<F>(
    connector: AgentConnector,
    connector_text: &'static str,
    agent: HttpAgent<F>,
    agent_text: &'static str,
    key: PrivateKey,
    key_text: &'static str,
)
    requires
        call_ensures(AgentConnector::debug_text, (&connector,), connector_text),
        call_ensures(HttpAgent::<F>::debug_text, (&agent,), agent_text),
        call_ensures(PrivateKey::debug_text, (&key,), key_text),
    ensures
        connector_text@ == "Connector(…)"@,
        agent_text@ == "HttpAgent(<custom agent fn>)"@,
        key is File ==> key_text@ == "PrivateKey::File([REDACTED])"@,
        key is Raw ==> key_text@ == "PrivateKey::Raw([REDACTED])"@,
{
}

/// A user name and password are shown as the user name and `[REDACTED]`, for every user name and
/// every password.
pub proof fn law_proxy_auth_text(auth: ProxyAuth, shown: ProxyAuthDebug<'_>, text: String)
    requires
        call_ensures(ProxyAuth::debug_view, (&auth,), shown),
        call_ensures(ProxyAuth::debug_text, (&auth,), text),
    ensures
        shown.username == auth.username,
        shown.password@ == "[REDACTED]"@,
        text@ == "ProxyAuth { username: "@ + quoted(auth.username@) + ", password: "@ + quoted(
            "[REDACTED]"@,
        ) + " }"@,
{
}

/// A proxy is shown with its host, port and protocol, and with its user name if it has one, for
/// every proxy. No password is shown.
pub proof fn law_proxy_text(proxy: ProxyConfig, shown: ProxyDebug<'_>, text: String)
    requires
        call_ensures(ProxyConfig::debug_view, (&proxy,), shown),
        call_ensures(ProxyConfig::debug_text, (&proxy,), text),
    ensures
        shown.host == proxy.host,
        shown.port == proxy.port,
        *shown.protocol == proxy.protocol,
        match (proxy.auth, shown.auth) {
            (Some(auth), Some(shown)) => *shown.username == auth.username && shown.password@
                == "[REDACTED]"@,
            (None, None) => true,
            _ => false,
        },
        text@ == "ProxyConfig { host: "@ + quoted(proxy.host@) + ", port: "@ + decimal(
            proxy.port as nat,
        ) + ", protocol: "@ + (match proxy.protocol {
            Some(protocol) => "Some("@ + quoted(protocol@) + ")"@,
            None => "None"@,
        }) + ", auth: "@ + (match proxy.auth {
            Some(auth) => "Some("@ + ("ProxyAuth { username: "@ + quoted(auth.username@)
                + ", password: "@ + quoted("[REDACTED]"@) + " }"@) + ")"@,
            None => "None"@,
        }) + " }"@,
{
}

/// A generator is shown as which of its credentials are set, for every generator.
pub proof fn law_signature_generator_text(
    generator: SignatureGenerator,
    shown: SignatureDebug,
    text: String,
)
    requires
        call_ensures(SignatureGenerator::debug_view, (&generator,), shown),
        call_ensures(SignatureGenerator::debug_text, (&generator,), text),
    ensures
        shown.api_secret is Some <==> generator.api_secret is Some,
        shown.api_secret matches Some(text) ==> text@ == "[REDACTED]"@,
        shown.private_key is Some <==> generator.private_key is Some,
        shown.private_key matches Some(text) ==> text@ == "[REDACTED]"@,
        shown.private_key_passphrase is Some <==> generator.private_key_passphrase is Some,
        shown.private_key_passphrase matches Some(text) ==> text@ == "[REDACTED]"@,
        text@ == "SignatureGenerator { api_secret: "@ + (if generator.api_secret is Some {
                "Some("@ + quoted("[REDACTED]"@) + ")"@
            } else {
                "None"@
            })
            + ", private_key: "@ + (if generator.private_key is Some {
                "Some("@ + quoted("[REDACTED]"@) + ")"@
            } else {
                "None"@
            })
            + ", private_key_passphrase: "@ + (if generator.private_key_passphrase is Some {
                "Some("@ + quoted("[REDACTED]"@) + ")"@
            } else {
                "None"@
            }) + " }"@,
{
}

} // verus!

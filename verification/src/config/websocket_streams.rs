//! Configuration of the WebSocket streams client.

use vstd::prelude::*;
use crate::config::AgentConnector;
use crate::config::setting;
use crate::diagnostics::{write_fields, DebugField, DebugValue};
use crate::diagnostics::{shown_if_set, struct_text};
use crate::diagnostics::{field_text, joined};
use crate::text::{decimal, quoted};
use crate::models::{ConfigBuildError, TimeUnit, WebsocketMode};
use crate::observers::{RawFrameObserver, StreamSubscriptionObserver};

verus! {

/// Configuration of the WebSocket streams client. `L`, `C` and `E` are the callback types of its
/// [`RawFrameObserver`], `S` is that of its [`StreamSubscriptionObserver`].
pub struct ConfigurationWebsocketStreams<L, C, E, S> {
    pub ws_url: Option<String>,
    pub reconnect_delay: u64,
    pub mode: WebsocketMode,
    pub agent: Option<AgentConnector>,
    pub time_unit: Option<TimeUnit>,
    /// Optional synchronous hook for raw Text/Binary payloads before decode.
    pub raw_frame_observer: Option<RawFrameObserver<L, C, E>>,
    /// Optional synchronous, redacted stream-subscription lifecycle hook.
    pub stream_subscription_observer: Option<StreamSubscriptionObserver<S>>,
    pub user_agent: String,
}

impl<L, C, E, S> ConfigurationWebsocketStreams<L, C, E, S> {
    /// A builder without settings.
    #[must_use]
    pub fn builder() -> (builder: ConfigurationWebsocketStreamsBuilder<L, C, E, S>)
        ensures
            builder == ConfigurationWebsocketStreamsBuilder::<L, C, E, S>::empty(),
    {
        ConfigurationWebsocketStreamsBuilder::default()
    }

    /// What is shown in diagnostics, field by field.
    pub fn debug_fields(&self) -> (fields: Vec<DebugField<'_>>)
        ensures
            fields@ == self.debug_spec(),
    {
        vec![
            DebugField { name: "ws_url", value: DebugValue::OptionalText(&self.ws_url) },
            DebugField { name: "reconnect_delay", value: DebugValue::Number(self.reconnect_delay) },
            DebugField { name: "mode", value: DebugValue::Mode(&self.mode) },
            DebugField {
                name: "agent",
                value: DebugValue::Opaque(
                    match &self.agent {
                        Some(agent) => Some(agent.debug_text()),
                        None => None,
                    },
                ),
            },
            DebugField { name: "time_unit", value: DebugValue::TimeUnit(self.time_unit) },
            DebugField {
                name: "raw_frame_observer",
                value: DebugValue::Opaque(
                    match &self.raw_frame_observer {
                        Some(observer) => Some(observer.debug_text()),
                        None => None,
                    },
                ),
            },
            DebugField {
                name: "stream_subscription_observer",
                value: DebugValue::Opaque(
                    match &self.stream_subscription_observer {
                        Some(observer) => Some(observer.debug_text()),
                        None => None,
                    },
                ),
            },
            DebugField { name: "user_agent", value: DebugValue::Text(&self.user_agent) },
        ]
    }

    /// The text that `Debug` writes, on one line.
    pub fn debug_text(&self) -> (text: String)
        ensures
            text@ == struct_text("ConfigurationWebsocketStreams"@, self.debug_spec(), ""@),
    {
        write_fields("ConfigurationWebsocketStreams", &self.debug_fields(), "")
    }

    /// What is shown in diagnostics, field by field.
    pub open spec fn debug_spec(&self) -> Seq<DebugField<'_>> {
        seq![
            DebugField { name: "ws_url", value: DebugValue::OptionalText(&self.ws_url) },
            DebugField { name: "reconnect_delay", value: DebugValue::Number(self.reconnect_delay) },
            DebugField { name: "mode", value: DebugValue::Mode(&self.mode) },
            DebugField {
                name: "agent",
                value: DebugValue::Opaque(
                    shown_if_set(self.agent, "Connector(…)"),
                ),
            },
            DebugField { name: "time_unit", value: DebugValue::TimeUnit(self.time_unit) },
            DebugField {
                name: "raw_frame_observer",
                value: DebugValue::Opaque(
                    shown_if_set(self.raw_frame_observer, "RawFrameObserver(<custom observer fn>)"),
                ),
            },
            DebugField {
                name: "stream_subscription_observer",
                value: DebugValue::Opaque(
                    shown_if_set(self.stream_subscription_observer, "StreamSubscriptionObserver(<custom observer fn>)"),
                ),
            },
            DebugField { name: "user_agent", value: DebugValue::Text(&self.user_agent) },
        ]
    }
}

impl<L: Clone, C: Clone, E: Clone, S: Clone> ConfigurationWebsocketStreams<L, C, E, S> {
    /// Whether `copy` is a clone of this value.
    pub open spec fn copied_to(&self, copy: &Self) -> bool {
        &&& copy.ws_url == self.ws_url
        &&& copy.reconnect_delay == self.reconnect_delay
        &&& copy.mode == self.mode
        &&& copy.agent == self.agent
        &&& copy.time_unit == self.time_unit
        &&& match (self.raw_frame_observer, copy.raw_frame_observer) {
            (Some(observer), Some(copy)) => observer.copied_to(&copy),
            (None, None) => true,
            _ => false,
        }
        &&& match (self.stream_subscription_observer, copy.stream_subscription_observer) {
            (Some(observer), Some(copy)) => observer.copied_to(&copy),
            (None, None) => true,
            _ => false,
        }
        &&& copy.user_agent == self.user_agent
    }
}

impl<L: Clone, C: Clone, E: Clone, S: Clone> Clone for ConfigurationWebsocketStreams<L, C, E, S> {
    fn clone(&self) -> (result: Self)
        ensures
            self.copied_to(&result),
    {
        ConfigurationWebsocketStreams {
            ws_url: self.ws_url.clone(),
            reconnect_delay: self.reconnect_delay,
            mode: self.mode.clone(),
            agent: self.agent.clone(),
            time_unit: self.time_unit,
            raw_frame_observer: self.raw_frame_observer.clone(),
            stream_subscription_observer: self.stream_subscription_observer.clone(),
            user_agent: self.user_agent.clone(),
        }
    }
}

/// Settings of a [`ConfigurationWebsocketStreams`]. A setting that is left out has its default.
pub struct ConfigurationWebsocketStreamsBuilder<L, C, E, S> {
    pub ws_url: Option<Option<String>>,
    pub reconnect_delay: Option<u64>,
    pub mode: Option<WebsocketMode>,
    pub agent: Option<Option<AgentConnector>>,
    pub time_unit: Option<Option<TimeUnit>>,
    pub raw_frame_observer: Option<Option<RawFrameObserver<L, C, E>>>,
    pub stream_subscription_observer: Option<Option<StreamSubscriptionObserver<S>>>,
}

impl<L, C, E, S> Default for ConfigurationWebsocketStreamsBuilder<L, C, E, S> {
    fn default() -> (builder: Self)
        ensures
            builder == Self::empty(),
    {
        ConfigurationWebsocketStreamsBuilder {
            ws_url: None,
            reconnect_delay: None,
            mode: None,
            agent: None,
            time_unit: None,
            raw_frame_observer: None,
            stream_subscription_observer: None,
        }
    }
}

impl<L, C, E, S> ConfigurationWebsocketStreamsBuilder<L, C, E, S> {
    /// The builder without settings.
    pub open spec fn empty() -> Self {
        ConfigurationWebsocketStreamsBuilder {
            ws_url: None,
            reconnect_delay: None,
            mode: None,
            agent: None,
            time_unit: None,
            raw_frame_observer: None,
            stream_subscription_observer: None,
        }
    }

    /// Whether `config` has the settings of this builder, and the defaults where it has none.
    pub open spec fn settles(&self, config: &ConfigurationWebsocketStreams<L, C, E, S>) -> bool {
        &&& config.ws_url == setting(self.ws_url, None)
        &&& config.reconnect_delay == setting(self.reconnect_delay, 5000)
        &&& config.mode == setting(self.mode, WebsocketMode::Single)
        &&& config.agent == setting(self.agent, None)
        &&& config.time_unit == setting(self.time_unit, None)
        &&& config.raw_frame_observer == setting(self.raw_frame_observer, None)
        &&& config.stream_subscription_observer == setting(self.stream_subscription_observer, None)
    }

    /// Sets the URL to connect to.
    pub fn ws_url<V: Into<String>>(self, value: V) -> (result: Self)
        ensures
            result == (ConfigurationWebsocketStreamsBuilder { ws_url: result.ws_url, ..self }),
            result.ws_url matches Some(Some(stored)) && call_ensures(
                <V as Into<String>>::into,
                (value,),
                stored,
            ),
    {
        let mut result = self;
        result.ws_url = Some(Some(value.into()));
        result
    }

    /// Sets the pause before a new connection, in milliseconds.
    pub fn reconnect_delay(self, value: u64) -> (result: Self)
        ensures
            result == (ConfigurationWebsocketStreamsBuilder { reconnect_delay: Some(value), ..self }),
    {
        let mut result = self;
        result.reconnect_delay = Some(value);
        result
    }

    /// Sets how many connections are kept.
    pub fn mode(self, value: WebsocketMode) -> (result: Self)
        ensures
            result == (ConfigurationWebsocketStreamsBuilder { mode: Some(value), ..self }),
    {
        let mut result = self;
        result.mode = Some(value);
        result
    }

    /// Sets the TLS connector.
    pub fn agent(self, value: AgentConnector) -> (result: Self)
        ensures
            result == (ConfigurationWebsocketStreamsBuilder { agent: Some(Some(value)), ..self }),
    {
        let mut result = self;
        result.agent = Some(Some(value));
        result
    }

    /// Sets the unit of timestamps.
    pub fn time_unit(self, value: TimeUnit) -> (result: Self)
        ensures
            result == (ConfigurationWebsocketStreamsBuilder { time_unit: Some(Some(value)), ..self }),
    {
        let mut result = self;
        result.time_unit = Some(Some(value));
        result
    }

    /// Sets the observer of raw frames.
    pub fn raw_frame_observer(self, value: RawFrameObserver<L, C, E>) -> (result: Self)
        ensures
            result == (ConfigurationWebsocketStreamsBuilder { raw_frame_observer: Some(Some(value)), ..self }),
    {
        let mut result = self;
        result.raw_frame_observer = Some(Some(value));
        result
    }

    /// Sets the observer of stream subscriptions.
    pub fn stream_subscription_observer(self, value: StreamSubscriptionObserver<S>) -> (result: Self)
        ensures
            result == (ConfigurationWebsocketStreamsBuilder { stream_subscription_observer: Some(Some(value)), ..self }),
    {
        let mut result = self;
        result.stream_subscription_observer = Some(Some(value));
        result
    }

    /// Builds the configuration.
    ///
    /// # Errors
    ///
    /// Returns a `ConfigBuildError` if a setting is missing. Every setting has a default, so that
    /// it does not fail.
    pub fn build(self) -> (result: Result<
        ConfigurationWebsocketStreams<L, C, E, S>,
        ConfigBuildError,
    >)
        ensures
            result matches Ok(config) && {
                &&& self.settles(&config)
                &&& config.user_agent@ == Seq::<char>::empty()
            },
    {
        Ok(ConfigurationWebsocketStreams {
            ws_url: match self.ws_url {
                Some(value) => value,
                None => None,
            },
            reconnect_delay: match self.reconnect_delay {
                Some(value) => value,
                None => 5000,
            },
            mode: match self.mode {
                Some(value) => value,
                None => WebsocketMode::Single,
            },
            agent: match self.agent {
                Some(value) => value,
                None => None,
            },
            time_unit: match self.time_unit {
                Some(value) => value,
                None => None,
            },
            raw_frame_observer: match self.raw_frame_observer {
                Some(value) => value,
                None => None,
            },
            stream_subscription_observer: match self.stream_subscription_observer {
                Some(value) => value,
                None => None,
            },
            user_agent: String::new(),
        })
    }
}

/// A configuration that is built without settings keeps one connection, waits five seconds before
/// a new one, and has no observers.
pub proof fn law_websocket_streams_defaults<L, C, E, S>(
    config: &ConfigurationWebsocketStreams<L, C, E, S>,
)
    requires
        ConfigurationWebsocketStreamsBuilder::<L, C, E, S>::empty().settles(config),
    ensures
        config.ws_url is None,
        config.reconnect_delay == 5000,
        config.mode is Single,
        config.agent is None,
        config.time_unit is None,
        config.raw_frame_observer is None,
        config.stream_subscription_observer is None,
{
}

/// What was set is what a configuration holds. Together with the setters, each of which replaces
/// one setting and keeps all others, this makes the last value that a setting was given the one
/// that counts, whatever else is set before or after it.
pub proof fn law_websocket_streams_settings_take_effect<L, C, E, S>(
    builder: &ConfigurationWebsocketStreamsBuilder<L, C, E, S>,
    config: &ConfigurationWebsocketStreams<L, C, E, S>,
)
    requires
        builder.settles(config),
    ensures
        builder.ws_url matches Some(value) ==> config.ws_url == value,
        builder.reconnect_delay matches Some(value) ==> config.reconnect_delay == value,
        builder.mode matches Some(value) ==> config.mode == value,
        builder.agent matches Some(value) ==> config.agent == value,
        builder.time_unit matches Some(value) ==> config.time_unit == value,
        builder.raw_frame_observer matches Some(value) ==> config.raw_frame_observer == value,
        builder.stream_subscription_observer matches Some(value) ==> config.stream_subscription_observer == value,
{
}

/// Building a WebSocket streams configuration never fails, and each setting depends on itself
/// alone: it is what it was set to, or its default, whatever the others are.
pub proof fn law_websocket_streams_build<L, C, E, S>(
    builder: ConfigurationWebsocketStreamsBuilder<L, C, E, S>,
    result: Result<ConfigurationWebsocketStreams<L, C, E, S>, ConfigBuildError>,
)
    requires
        call_ensures(ConfigurationWebsocketStreamsBuilder::<L, C, E, S>::build, (builder,), result),
    ensures
        result matches Ok(config) && {
            &&& builder.ws_url matches Some(value) ==> config.ws_url == value
            &&& builder.ws_url is None ==> config.ws_url is None
            &&& builder.reconnect_delay matches Some(value) ==> config.reconnect_delay == value
            &&& builder.reconnect_delay is None ==> config.reconnect_delay == 5000
            &&& builder.mode matches Some(value) ==> config.mode == value
            &&& builder.mode is None ==> config.mode is Single
            &&& builder.agent matches Some(value) ==> config.agent == value
            &&& builder.agent is None ==> config.agent is None
            &&& builder.time_unit matches Some(value) ==> config.time_unit == value
            &&& builder.time_unit is None ==> config.time_unit is None
            &&& builder.raw_frame_observer matches Some(value)
                ==> config.raw_frame_observer == value
            &&& builder.raw_frame_observer is None ==> config.raw_frame_observer is None
            &&& builder.stream_subscription_observer matches Some(value)
                ==> config.stream_subscription_observer == value
            &&& builder.stream_subscription_observer is None ==> config.stream_subscription_observer is None
            &&& config.user_agent@.len() == 0
        },
{
}

/// A setter sets one setting and keeps all others, and a text is stored as its conversion into a
/// string gives it.
pub proof fn law_websocket_streams_setters<L, C, E, S, V: Into<String>>(builder: ConfigurationWebsocketStreamsBuilder<L, C, E, S>)
    ensures
        forall|value: V, result: ConfigurationWebsocketStreamsBuilder<L, C, E, S>| #[trigger]
            call_ensures(ConfigurationWebsocketStreamsBuilder::<L, C, E, S>::ws_url::<V>, (builder, value), result) ==> {
                &&& result == ConfigurationWebsocketStreamsBuilder {
                    ws_url: result.ws_url,
                    ..builder
                }
                &&& result.ws_url matches Some(Some(stored)) && call_ensures(
                    <V as Into<String>>::into,
                    (value,),
                    stored,
                )
            },
        forall|value: u64, result: ConfigurationWebsocketStreamsBuilder<L, C, E, S>| #[trigger]
            call_ensures(ConfigurationWebsocketStreamsBuilder::<L, C, E, S>::reconnect_delay, (builder, value), result) ==> result == (ConfigurationWebsocketStreamsBuilder {
                reconnect_delay: Some(value),
                ..builder
            }),
        forall|value: WebsocketMode, result: ConfigurationWebsocketStreamsBuilder<L, C, E, S>| #[trigger]
            call_ensures(ConfigurationWebsocketStreamsBuilder::<L, C, E, S>::mode, (builder, value), result) ==> result == (ConfigurationWebsocketStreamsBuilder {
                mode: Some(value),
                ..builder
            }),
        forall|value: AgentConnector, result: ConfigurationWebsocketStreamsBuilder<L, C, E, S>| #[trigger]
            call_ensures(ConfigurationWebsocketStreamsBuilder::<L, C, E, S>::agent, (builder, value), result) ==> result == (ConfigurationWebsocketStreamsBuilder {
                agent: Some(Some(value)),
                ..builder
            }),
        forall|value: TimeUnit, result: ConfigurationWebsocketStreamsBuilder<L, C, E, S>| #[trigger]
            call_ensures(ConfigurationWebsocketStreamsBuilder::<L, C, E, S>::time_unit, (builder, value), result) ==> result == (ConfigurationWebsocketStreamsBuilder {
                time_unit: Some(Some(value)),
                ..builder
            }),
        forall|value: RawFrameObserver<L, C, E>, result: ConfigurationWebsocketStreamsBuilder<L, C, E, S>| #[trigger]
            call_ensures(ConfigurationWebsocketStreamsBuilder::<L, C, E, S>::raw_frame_observer, (builder, value), result) ==> result == (ConfigurationWebsocketStreamsBuilder {
                raw_frame_observer: Some(Some(value)),
                ..builder
            }),
        forall|value: StreamSubscriptionObserver<S>, result: ConfigurationWebsocketStreamsBuilder<L, C, E, S>| #[trigger]
            call_ensures(ConfigurationWebsocketStreamsBuilder::<L, C, E, S>::stream_subscription_observer, (builder, value), result) ==> result == (ConfigurationWebsocketStreamsBuilder {
                stream_subscription_observer: Some(Some(value)),
                ..builder
            }),
{
}

/// A new builder has no settings.
pub proof fn law_websocket_streams_builder_is_empty<L, C, E, S>(builder: ConfigurationWebsocketStreamsBuilder<L, C, E, S>)
    requires
        call_ensures(ConfigurationWebsocketStreams::<L, C, E, S>::builder, (), builder) || call_ensures(
            <ConfigurationWebsocketStreamsBuilder<L, C, E, S> as Default>::default,
            (),
            builder,
        ),
    ensures
        builder.ws_url is None,
        builder.reconnect_delay is None,
        builder.mode is None,
        builder.agent is None,
        builder.time_unit is None,
        builder.raw_frame_observer is None,
        builder.stream_subscription_observer is None,
{
}

/// A clone of a WebSocket streams configuration has the same settings and works with
/// clones of the callbacks.
pub proof fn law_websocket_streams_clone<L: Clone, C: Clone, E: Clone, S: Clone>(
    config: ConfigurationWebsocketStreams<L, C, E, S>,
    copy: ConfigurationWebsocketStreams<L, C, E, S>,
)
    requires
        call_ensures(<ConfigurationWebsocketStreams<L, C, E, S> as Clone>::clone, (&config,), copy),
    ensures
        copy.ws_url == config.ws_url,
        copy.reconnect_delay == config.reconnect_delay,
        copy.mode == config.mode,
        copy.agent == config.agent,
        copy.time_unit == config.time_unit,
        match (config.raw_frame_observer, copy.raw_frame_observer) {
            (Some(observer), Some(same)) => {
                &&& match (observer.legacy_callback(), same.legacy_callback()) {
                    (Some(callback), Some(clone)) => cloned(callback, clone),
                    (None, None) => true,
                    _ => false,
                }
                &&& match (observer.context_callback(), same.context_callback()) {
                    (Some(callback), Some(clone)) => cloned(callback, clone),
                    (None, None) => true,
                    _ => false,
                }
                &&& match (observer.lifecycle_callback(), same.lifecycle_callback()) {
                    (Some(callback), Some(clone)) => cloned(callback, clone),
                    (None, None) => true,
                    _ => false,
                }
            },
            (None, None) => true,
            _ => false,
        },
        match (config.stream_subscription_observer, copy.stream_subscription_observer) {
            (Some(observer), Some(same)) => cloned(observer.callback(), same.callback()),
            (None, None) => true,
            _ => false,
        },
        copy.user_agent == config.user_agent,
{
}

/// What a WebSocket streams configuration shows of itself, field by field, for every configuration.
/// Of the connector and the observers it shows whether they are set.
pub proof fn law_websocket_streams_fields_shown<L, C, E, S>(
    config: ConfigurationWebsocketStreams<L, C, E, S>,
    fields: Vec<DebugField<'_>>,
)
    requires
        call_ensures(ConfigurationWebsocketStreams::<L, C, E, S>::debug_fields, (&config,), fields),
    ensures
        fields@.len() == 8,
        fields@[0].name == "ws_url",
        fields@[0].value == DebugValue::OptionalText(&config.ws_url),
        fields@[1].name == "reconnect_delay",
        fields@[1].value == DebugValue::Number(config.reconnect_delay as u64),
        fields@[2].name == "mode",
        fields@[2].value == DebugValue::Mode(&config.mode),
        fields@[3].name == "agent",
        fields@[3].value == DebugValue::Opaque(
            if config.agent is Some {
                Some("Connector(…)")
            } else {
                None
            },
        ),
        fields@[4].name == "time_unit",
        fields@[4].value == DebugValue::TimeUnit(config.time_unit),
        fields@[5].name == "raw_frame_observer",
        fields@[5].value == DebugValue::Opaque(
            if config.raw_frame_observer is Some {
                Some("RawFrameObserver(<custom observer fn>)")
            } else {
                None
            },
        ),
        fields@[6].name == "stream_subscription_observer",
        fields@[6].value == DebugValue::Opaque(
            if config.stream_subscription_observer is Some {
                Some("StreamSubscriptionObserver(<custom observer fn>)")
            } else {
                None
            },
        ),
        fields@[7].name == "user_agent",
        fields@[7].value == DebugValue::Text(&config.user_agent),
{
}

/// The text of a WebSocket streams configuration, for every configuration: each field under its
/// name, in this order.
pub proof fn law_websocket_streams_text<L, C, E, S>(
    config: ConfigurationWebsocketStreams<L, C, E, S>,
    text: String,
) -> (parts: Seq<Seq<char>>)
    requires
        call_ensures(ConfigurationWebsocketStreams::<L, C, E, S>::debug_text, (&config,), text),
    ensures
        text@ == "ConfigurationWebsocketStreams"@ + " { "@ + joined(parts) + " }"@,
        parts.len() == 8,
        parts[0] == "ws_url"@ + ": "@ + (match config.ws_url {
            Some(value) => "Some("@ + quoted(value@) + ")"@,
            None => "None"@,
        }),
        parts[1] == "reconnect_delay"@ + ": "@ + decimal(config.reconnect_delay as nat),
        parts[2] == "mode"@ + ": "@ + (match config.mode {
            WebsocketMode::Single => "Single"@,
            WebsocketMode::Pool(size) => "Pool("@ + decimal(size as nat) + ")"@,
        }),
        parts[3] == "agent"@ + ": "@ + (if config.agent is Some {
            "Some("@ + "Connector(…)"@ + ")"@
        } else {
            "None"@
        }),
        parts[4] == "time_unit"@ + ": "@ + (match config.time_unit {
            Some(TimeUnit::Millisecond) => "Some("@ + "Millisecond"@ + ")"@,
            Some(TimeUnit::Microsecond) => "Some("@ + "Microsecond"@ + ")"@,
            None => "None"@,
        }),
        parts[5] == "raw_frame_observer"@ + ": "@ + (if config.raw_frame_observer is Some {
            "Some("@ + "RawFrameObserver(<custom observer fn>)"@ + ")"@
        } else {
            "None"@
        }),
        parts[6] == "stream_subscription_observer"@ + ": "@ + (if config.stream_subscription_observer is Some {
            "Some("@ + "StreamSubscriptionObserver(<custom observer fn>)"@ + ")"@
        } else {
            "None"@
        }),
        parts[7] == "user_agent"@ + ": "@ + quoted(config.user_agent@),
{
    let fields = config.debug_spec();
    Seq::new(fields.len(), |i: int| field_text(fields[i], ""@))
}

} // verus!

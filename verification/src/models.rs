//! Values that the REST and WebSocket clients exchange with their callers.

use vstd::prelude::*;
use std::collections::HashMap;
use derive_builder::UninitializedFieldError;
use crate::external::uninitialized_field_name;
use crate::text::{append_decimal, quote};
use crate::text::{decimal, quoted};

verus! {

/// Unit of the timestamps that the API is asked for.
#[derive(Debug, Clone, Copy, PartialEq, Eq, Structural)]
pub enum TimeUnit {
    Millisecond,
    Microsecond,
}

impl TimeUnit {
    /// The unit's name in upper case.
    #[must_use]
    pub fn as_upper_str(&self) -> (name: &'static str)
        ensures
            name@ == self.upper_name(),
    {
        match self {
            TimeUnit::Millisecond => "MILLISECOND",
            TimeUnit::Microsecond => "MICROSECOND",
        }
    }

    /// The unit's name in lower case.
    #[must_use]
    pub fn as_lower_str(&self) -> (name: &'static str)
        ensures
            name@ == self.lower_name(),
    {
        match self {
            TimeUnit::Millisecond => "millisecond",
            TimeUnit::Microsecond => "microsecond",
        }
    }

    /// The text that displays the unit: its name in lower case.
    pub fn display_text(&self) -> (text: String)
        ensures
            text@ == self.lower_name(),
    {
        String::from(self.as_lower_str())
    }

    /// The unit's name in upper case.
    pub open spec fn upper_name(&self) -> Seq<char> {
        match self {
            TimeUnit::Millisecond => "MILLISECOND"@,
            TimeUnit::Microsecond => "MICROSECOND"@,
        }
    }

    /// The unit's name in lower case.
    pub open spec fn lower_name(&self) -> Seq<char> {
        match self {
            TimeUnit::Millisecond => "millisecond"@,
            TimeUnit::Microsecond => "microsecond"@,
        }
    }
}

/// The names of a unit are the same word: each letter of the one is the capital of the letter of
/// the other at its place.
pub proof fn law_time_unit_names_agree(unit: TimeUnit)
    ensures
        unit.upper_name().len() == unit.lower_name().len(),
        forall|i: int|
            #![trigger unit.upper_name()[i]]
            #![trigger unit.lower_name()[i]]
            0 <= i < unit.lower_name().len() ==> {
                &&& 'a' <= unit.lower_name()[i] <= 'z'
                &&& unit.upper_name()[i] as int - 'A' as int == unit.lower_name()[i] as int
                    - 'a' as int
            },
{
    reveal_strlit("MILLISECOND");
    reveal_strlit("MICROSECOND");
    reveal_strlit("millisecond");
    reveal_strlit("microsecond");
}

/// Different units have different names.
pub proof fn law_time_unit_names_differ(one: TimeUnit, other: TimeUnit)
    requires
        one != other,
    ensures
        one.upper_name() != other.upper_name(),
        one.lower_name() != other.lower_name(),
{
    reveal_strlit("MILLISECOND");
    reveal_strlit("MICROSECOND");
    reveal_strlit("millisecond");
    reveal_strlit("microsecond");
    assert(TimeUnit::Millisecond.upper_name()[2] != TimeUnit::Microsecond.upper_name()[2]);
    assert(TimeUnit::Millisecond.lower_name()[2] != TimeUnit::Microsecond.lower_name()[2]);
}

/// What a rate limit counts.
#[derive(Debug, Clone, PartialEq, Eq)]
pub enum RateLimitType {
    RequestWeight,
    Orders,
    RawRequests,
}

/// Unit of the window that a rate limit applies to.
#[derive(Debug, Clone, PartialEq, Eq)]
pub enum Interval {
    Second,
    Minute,
    Hour,
    Day,
}

/// Use of one rate limit, as a REST response reports it.
#[derive(Debug, Clone)]
pub struct RestApiRateLimit {
    pub rate_limit_type: RateLimitType,
    pub interval: Interval,
    pub interval_num: u32,
    pub count: u32,
    pub retry_after: Option<u32>,
}

/// Response to a REST call whose payload is produced on demand by `data_fn`.
pub struct RestApiResponse<F> {
    pub data_fn: F,
    pub status: u16,
    pub headers: HashMap<String, String>,
    pub rate_limits: Option<Vec<RestApiRateLimit>>,
}

impl<F> RestApiResponse<F> {
    /// Runs the data retrieval function, once, and hands out what it returns. A retrieval
    /// function that is asynchronous returns the future to wait for.
    pub fn data<D>(self) -> (data: D) where F: FnOnce() -> D
        requires
            call_requires(self.data_fn, ()),
        ensures
            call_ensures(self.data_fn, (), data),
    {
        (self.data_fn)()
    }
}

/// One rate limit, as a WebSocket API response reports it.
#[derive(Debug, Clone, PartialEq)]
pub struct WebsocketApiRateLimit {
    pub rate_limit_type: RateLimitType,
    pub interval: Interval,
    pub interval_num: u32,
    pub limit: u32,
    pub count: u32,
}

/// Failure to build the parameters of a call.
#[derive(Debug)]
pub enum ParamBuildError {
    UninitializedField(&'static str),
}

impl ParamBuildError {
    /// The message that displays the error.
    pub fn display_text(&self) -> (text: String)
        ensures
            text@ == self.display_spec(),
    {
        let ParamBuildError::UninitializedField(name) = self;
        let mut text = String::from("missing required field `");
        text.append(name);
        text.append("`");
        text
    }

    /// The message that displays the error.
    pub open spec fn display_spec(&self) -> Seq<char> {
        "missing required field `"@ + self->UninitializedField_0@ + "`"@
    }
}

impl From<UninitializedFieldError> for ParamBuildError {
    fn from(err: UninitializedFieldError) -> (result: Self) {
        ParamBuildError::UninitializedField(err.field_name())
    }
}

impl vstd::std_specs::convert::FromSpecImpl<UninitializedFieldError> for ParamBuildError {
    open spec fn obeys_from_spec() -> bool {
        true
    }

    open spec fn from_spec(err: UninitializedFieldError) -> Self {
        ParamBuildError::UninitializedField(uninitialized_field_name(err))
    }
}

/// Failure to build a configuration.
#[derive(Debug)]
pub enum ConfigBuildError {
    UninitializedField(&'static str),
}

impl ConfigBuildError {
    /// The message that displays the error.
    pub fn display_text(&self) -> (text: String)
        ensures
            text@ == self.display_spec(),
    {
        let ConfigBuildError::UninitializedField(name) = self;
        let mut text = String::from("Configuration missing or invalid `");
        text.append(name);
        text.append("`");
        text
    }

    /// The message that displays the error.
    pub open spec fn display_spec(&self) -> Seq<char> {
        "Configuration missing or invalid `"@ + self->UninitializedField_0@ + "`"@
    }
}

impl From<UninitializedFieldError> for ConfigBuildError {
    fn from(err: UninitializedFieldError) -> (result: Self) {
        ConfigBuildError::UninitializedField(err.field_name())
    }
}

impl vstd::std_specs::convert::FromSpecImpl<UninitializedFieldError> for ConfigBuildError {
    open spec fn obeys_from_spec() -> bool {
        true
    }

    open spec fn from_spec(err: UninitializedFieldError) -> Self {
        ConfigBuildError::UninitializedField(uninitialized_field_name(err))
    }
}

/// What happened on a WebSocket connection.
#[derive(Debug, Clone, PartialEq)]
pub enum WebsocketEvent {
    Open,
    /// Raw server frame. It may contain credentials such as private listen
    /// keys; treat it as secret-bearing data and never log it verbatim.
    Message(String),
    Error(String),
    Close(u16, String),
    Ping,
    Pong,
}

/// How many connections a WebSocket client keeps.
#[derive(Debug, PartialEq)]
pub enum WebsocketMode {
    Single,
    Pool(usize),
}

impl Clone for WebsocketMode {
    fn clone(&self) -> (result: Self)
        ensures
            result == *self,
    {
        match self {
            WebsocketMode::Single => WebsocketMode::Single,
            WebsocketMode::Pool(sz) => WebsocketMode::Pool(*sz),
        }
    }
}

impl WebsocketMode {
    /// Number of connections to keep.
    #[must_use]
    pub fn pool_size(&self) -> (size: usize)
        ensures
            *self is Single ==> size == 1,
            *self matches WebsocketMode::Pool(sz) ==> size == sz,
    {
        match *self {
            WebsocketMode::Single => 1,
            WebsocketMode::Pool(sz) => sz,
        }
    }
}

/// Settings for connecting to the WebSocket API.
#[derive(Debug, Clone)]
pub struct WebsocketApiConnectConfig {
    pub mode: Option<WebsocketMode>,
}

impl Default for WebsocketApiConnectConfig {
    fn default() -> (config: Self)
        ensures
            config.mode is None,
    {
        WebsocketApiConnectConfig { mode: None }
    }
}

/// Settings for connecting to WebSocket streams.
#[derive(Debug, Clone)]
pub struct WebsocketStreamsConnectConfig {
    pub streams: Vec<String>,
    pub mode: Option<WebsocketMode>,
}

impl Default for WebsocketStreamsConnectConfig {
    fn default() -> (config: Self)
        ensures
            config.streams@ == Seq::<String>::empty(),
            config.mode is None,
    {
        WebsocketStreamsConnectConfig { streams: Vec::new(), mode: None }
    }
}

/// Identifier of a stream request.
#[derive(Debug, Clone, PartialEq, Eq)]
pub enum StreamId {
    Str(String),
    Number(u32),
}

impl From<String> for StreamId {
    fn from(v: String) -> (id: Self) {
        StreamId::Str(v)
    }
}

impl vstd::std_specs::convert::FromSpecImpl<String> for StreamId {
    open spec fn obeys_from_spec() -> bool {
        true
    }

    open spec fn from_spec(v: String) -> Self {
        StreamId::Str(v)
    }
}

impl From<u32> for StreamId {
    fn from(v: u32) -> (id: Self) {
        StreamId::Number(v)
    }
}

impl vstd::std_specs::convert::FromSpecImpl<u32> for StreamId {
    open spec fn obeys_from_spec() -> bool {
        true
    }

    open spec fn from_spec(v: u32) -> Self {
        StreamId::Number(v)
    }
}

/// Secret-free generated endpoint scope for a stream-subscription request.
///
/// Arbitrary internal path strings are collapsed to [`Self::Other`] so a
/// caller-controlled path, query, or credential can never enter diagnostic
/// contexts.
#[derive(Debug, Clone, Copy, PartialEq, Eq, Structural)]
pub enum StreamSubscriptionScope {
    Default,
    Market,
    Public,
    Private,
    Stream,
    Ws,
    WsApi,
    Other,
}

impl StreamSubscriptionScope {
    /// The text that `Debug` writes for the scope.
    pub fn debug_text(&self) -> (text: &'static str)
        ensures
            text@ == self.debug_spec(),
    {
        match self {
            StreamSubscriptionScope::Default => "Default",
            StreamSubscriptionScope::Market => "Market",
            StreamSubscriptionScope::Public => "Public",
            StreamSubscriptionScope::Private => "Private",
            StreamSubscriptionScope::Stream => "Stream",
            StreamSubscriptionScope::Ws => "Ws",
            StreamSubscriptionScope::WsApi => "WsApi",
            StreamSubscriptionScope::Other => "Other",
        }
    }

    /// The text that `Debug` writes for the scope.
    pub open spec fn debug_spec(&self) -> Seq<char> {
        match self {
            StreamSubscriptionScope::Default => "Default"@,
            StreamSubscriptionScope::Market => "Market"@,
            StreamSubscriptionScope::Public => "Public"@,
            StreamSubscriptionScope::Private => "Private"@,
            StreamSubscriptionScope::Stream => "Stream"@,
            StreamSubscriptionScope::Ws => "Ws"@,
            StreamSubscriptionScope::WsApi => "WsApi"@,
            StreamSubscriptionScope::Other => "Other"@,
        }
    }
}

/// Identifies one JSON stream-subscription request on one physical WebSocket
/// session. It intentionally contains no stream name: private stream names may
/// contain a listen key and must not leak through diagnostics.
#[derive(Debug, Clone, PartialEq, Eq)]
pub struct StreamSubscriptionContext {
    pub connection_id: String,
    pub session_generation: u64,
    pub request_id: u32,
    /// Closed, redacted generated endpoint scope; never an arbitrary path,
    /// query string, stream parameter, or full URL.
    pub path_scope: StreamSubscriptionScope,
}

impl StreamSubscriptionContext {
    /// The text that `Debug` writes for the context, on one line.
    pub fn debug_text(&self) -> (text: String)
        ensures
            text@ == self.debug_spec(),
    {
        self.debug_text_with_id(quote(self.connection_id.as_str()).as_str())
    }

    /// The text that `Debug` writes for the context, on one line, with `id` as the text of the
    /// connection id.
    pub fn debug_text_with_id(&self, id: &str) -> (text: String)
        ensures
            text@ == self.debug_spec_with_id(id@),
    {
        let mut text = String::from("StreamSubscriptionContext { connection_id: ");
        text.append(id);
        text.append(", session_generation: ");
        append_decimal(&mut text, self.session_generation);
        text.append(", request_id: ");
        append_decimal(&mut text, self.request_id as u64);
        text.append(", path_scope: ");
        text.append(self.path_scope.debug_text());
        text.append(" }");
        text
    }

    /// The text that `Debug` writes for the context, on one line.
    pub open spec fn debug_spec(&self) -> Seq<char> {
        self.debug_spec_with_id(quoted(self.connection_id@))
    }

    /// The text of the context around the text of its connection id.
    pub open spec fn debug_spec_with_id(&self, id: Seq<char>) -> Seq<char> {
        "StreamSubscriptionContext { connection_id: "@ + id + ", session_generation: "@ + decimal(
            self.session_generation as nat,
        ) + ", request_id: "@ + decimal(self.request_id as nat) + ", path_scope: "@
            + self.path_scope.debug_spec() + " }"@
    }
}

/// Result observed for a correlated JSON stream-subscription request.
#[derive(Debug, Clone, PartialEq, Eq)]
pub enum StreamSubscriptionOutcome {
    Dispatched,
    Acknowledged,
    Rejected { code: i64 },
    TimedOut,
    DispatchFailed,
    ProtocolError,
    SessionReplaced,
    Disconnected,
    Cancelled,
}

/// Low-level stream-subscription lifecycle event. Stream parameters are never
/// included because a private stream parameter can be a listen key.
#[derive(Debug, Clone, PartialEq, Eq)]
pub struct StreamSubscriptionEvent {
    pub context: StreamSubscriptionContext,
    pub outcome: StreamSubscriptionOutcome,
}

/// Successful, server-confirmed JSON stream subscription.
#[derive(Debug, Clone, PartialEq, Eq)]
pub struct StreamSubscriptionAck {
    pub context: StreamSubscriptionContext,
}

/// The names of the units as they are sent and displayed.
pub proof fn law_time_unit_names(
    unit: TimeUnit,
    upper: &'static str,
    lower: &'static str,
    displayed: String,
)
    requires
        call_ensures(TimeUnit::as_upper_str, (&unit,), upper),
        call_ensures(TimeUnit::as_lower_str, (&unit,), lower),
        call_ensures(TimeUnit::display_text, (&unit,), displayed),
    ensures
        unit is Millisecond ==> upper@ == "MILLISECOND"@ && lower@ == "millisecond"@,
        unit is Microsecond ==> upper@ == "MICROSECOND"@ && lower@ == "microsecond"@,
        displayed@ == lower@,
{
}

/// The data of a response is what its retrieval function returns.
pub proof fn law_response_data_comes_from_retrieval<F: FnOnce() -> D, D>(
    response: RestApiResponse<F>,
    data: D,
)
    requires
        call_ensures(RestApiResponse::<F>::data::<D>, (response,), data),
    ensures
        call_ensures(response.data_fn, (), data),
{
}

/// A missing field is reported under its own name, whether it belongs to parameters or to a
/// configuration, and the message shows that name.
pub proof fn law_missing_field_is_named(
    missing: UninitializedFieldError,
    name: &'static str,
    param: ParamBuildError,
    param_text: String,
    config: ConfigBuildError,
    config_text: String,
)
    requires
        call_ensures(UninitializedFieldError::field_name, (&missing,), name),
        call_ensures(<ParamBuildError as From<UninitializedFieldError>>::from, (missing,), param),
        call_ensures(ParamBuildError::display_text, (&param,), param_text),
        call_ensures(<ConfigBuildError as From<UninitializedFieldError>>::from, (missing,), config),
        call_ensures(ConfigBuildError::display_text, (&config,), config_text),
    ensures
        param == ParamBuildError::UninitializedField(name),
        param_text@ == "missing required field `"@ + name@ + "`"@,
        config == ConfigBuildError::UninitializedField(name),
        config_text@ == "Configuration missing or invalid `"@ + name@ + "`"@,
{
}

/// The messages of build failures show the field that the failure names.
pub proof fn law_build_error_messages(
    param: ParamBuildError,
    param_text: String,
    config: ConfigBuildError,
    config_text: String,
)
    requires
        call_ensures(ParamBuildError::display_text, (&param,), param_text),
        call_ensures(ConfigBuildError::display_text, (&config,), config_text),
    ensures
        param matches ParamBuildError::UninitializedField(name) && param_text@
            == "missing required field `"@ + name@ + "`"@,
        config matches ConfigBuildError::UninitializedField(name) && config_text@
            == "Configuration missing or invalid `"@ + name@ + "`"@,
{
}

/// A single connection is one connection, a pool is as many as it says, and a copy of a mode keeps
/// as many connections as the mode.
pub proof fn law_pool_size(
    mode: WebsocketMode,
    size: usize,
    copy: WebsocketMode,
    copy_size: usize,
)
    requires
        call_ensures(WebsocketMode::pool_size, (&mode,), size),
        call_ensures(<WebsocketMode as Clone>::clone, (&mode,), copy),
        call_ensures(WebsocketMode::pool_size, (&copy,), copy_size),
    ensures
        mode is Single ==> size == 1,
        mode matches WebsocketMode::Pool(connections) ==> size == connections,
        copy == mode,
        copy_size == size,
{
}

/// Connect settings are empty by default: no mode of their own and no streams.
pub proof fn law_connect_config_defaults(
    api: WebsocketApiConnectConfig,
    streams: WebsocketStreamsConnectConfig,
)
    requires
        call_ensures(<WebsocketApiConnectConfig as Default>::default, (), api),
        call_ensures(<WebsocketStreamsConnectConfig as Default>::default, (), streams),
    ensures
        api.mode is None,
        streams.mode is None,
        streams.streams@.len() == 0,
{
}

/// A stream identifier made from a string is that string, one made from a number is that number.
pub proof fn law_stream_id_keeps_value(
    text: String,
    text_id: StreamId,
    number: u32,
    number_id: StreamId,
)
    requires
        call_ensures(<StreamId as From<String>>::from, (text,), text_id),
        call_ensures(<StreamId as From<u32>>::from, (number,), number_id),
    ensures
        text_id == StreamId::Str(text),
        number_id == StreamId::Number(number),
{
}

/// A scope is shown by its name.
pub proof fn law_scope_names(scope: StreamSubscriptionScope, text: &'static str)
    requires
        call_ensures(StreamSubscriptionScope::debug_text, (&scope,), text),
    ensures
        scope is Default ==> text@ == "Default"@,
        scope is Market ==> text@ == "Market"@,
        scope is Public ==> text@ == "Public"@,
        scope is Private ==> text@ == "Private"@,
        scope is Stream ==> text@ == "Stream"@,
        scope is Ws ==> text@ == "Ws"@,
        scope is WsApi ==> text@ == "WsApi"@,
        scope is Other ==> text@ == "Other"@,
{
}

/// The text of a context shows the connection id, the generation, the request and the scope, each
/// under its name and in this order, for every context.
pub proof fn law_context_text(
    context: StreamSubscriptionContext,
    text: String,
    id: &str,
    text_with_id: String,
    scope: &'static str,
)
    requires
        call_ensures(StreamSubscriptionContext::debug_text, (&context,), text),
        call_ensures(
            StreamSubscriptionContext::debug_text_with_id,
            (&context, id),
            text_with_id,
        ),
        call_ensures(StreamSubscriptionScope::debug_text, (&context.path_scope,), scope),
    ensures
        text@ == "StreamSubscriptionContext { connection_id: "@ + quoted(context.connection_id@)
            + ", session_generation: "@ + decimal(context.session_generation as nat)
            + ", request_id: "@ + decimal(context.request_id as nat) + ", path_scope: "@ + scope@
            + " }"@,
        text_with_id@ == "StreamSubscriptionContext { connection_id: "@ + id@
            + ", session_generation: "@ + decimal(context.session_generation as nat)
            + ", request_id: "@ + decimal(context.request_id as nat) + ", path_scope: "@ + scope@
            + " }"@,
{
}

} // verus!

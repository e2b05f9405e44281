//! Observers of WebSocket frames, connection lifecycles and stream subscriptions.
//!
//! An observer holds the callbacks of an application and decides which of them a transport event
//! reaches, in which order and with which arguments, and what is logged when one of them panics.
//! The calls themselves, and the guard that catches a panic, belong to whoever drives the
//! observer: it starts from `Start`, does what a step says, reports how the call ended, and asks
//! for the next step until a step asks for no call.

use vstd::prelude::*;
use crate::models::StreamSubscriptionEvent;
use crate::text::append_decimal;
use crate::text::{decimal, text_of};

verus! {

/// Native WebSocket data-message kind presented to a context-aware raw observer.
#[derive(Debug, Clone, Copy, PartialEq, Eq, Structural)]
pub enum RawFrameKind {
    Text,
    Binary,
}

/// Borrowed metadata for one raw WebSocket data message.
///
/// `path_scope` is the SDK's generated endpoint scope (for example `market`,
/// `public`, or `private`); arbitrary internal values are reported as `other`,
/// never as the full URL or query string. The payload is
/// observed before generated JSON/deserialization handling and, for binary
/// messages, before decompression. Text has already passed the WebSocket
/// implementation's protocol and UTF-8 validation.
#[derive(Debug, Clone, Copy, PartialEq, Eq)]
pub struct RawFrameContext<'a> {
    pub connection_id: &'a str,
    /// Monotonic physical-session generation for this pool slot.
    pub session_generation: u64,
    pub path_scope: Option<&'a str>,
    pub kind: RawFrameKind,
    pub payload: &'a [u8],
}

/// Scoped WebSocket transport lifecycle transition.
#[derive(Debug, Clone, Copy, PartialEq, Eq, Structural)]
pub enum WebsocketLifecycleEvent {
    Open,
    Ping,
    Pong,
    Close { code: u16 },
    ReadError,
    WriteError,
    ReconnectScheduled { is_renewal: bool },
    StreamEnded,
}

/// Borrowed metadata for a WebSocket lifecycle transition.
///
/// No full URL or error text is exposed because private stream URLs can carry
/// credentials. Consumers can correlate the stable connection id and the
/// generated path scope without receiving secret-bearing transport strings.
/// Arbitrary internal values are collapsed to `other`.
#[derive(Debug, Clone, Copy, PartialEq, Eq)]
pub struct WebsocketLifecycleContext<'a> {
    pub connection_id: &'a str,
    /// Monotonic physical-session generation for this pool slot.
    pub session_generation: u64,
    pub path_scope: Option<&'a str>,
    pub event: WebsocketLifecycleEvent,
}

/// How the call of a callback ended.
#[derive(Debug, Clone, Copy, PartialEq, Eq, Structural)]
pub enum CallOutcome {
    Returned,
    Panicked,
}

/// How far the delivery of a frame has come.
#[derive(Debug, Clone, Copy, PartialEq, Eq, Structural)]
pub enum FrameProgress {
    Start,
    /// The data-frame-only callback was called.
    LegacyDone(CallOutcome),
    /// The context-aware callback was called.
    ContextDone(CallOutcome),
}

/// How far a delivery to a single callback has come.
#[derive(Debug, Clone, Copy, PartialEq, Eq, Structural)]
pub enum Progress {
    Start,
    /// The callback was called.
    Done(CallOutcome),
}

/// One call of a raw-frame callback.
pub enum FrameCall<'a, L, C> {
    Legacy { observer: &'a L, connection_id: &'a str, payload: &'a [u8] },
    Context { observer: &'a C, context: RawFrameContext<'a> },
}

/// What to do next about a frame: write the error log line, if there is one, then make the call.
/// Without a call the delivery is complete.
pub struct FrameStep<'a, L, C> {
    pub log: Option<String>,
    pub call: Option<FrameCall<'a, L, C>>,
}

/// What to do next about a lifecycle transition: write the error log line, if there is one, then
/// call the callback with the context. Without a call the delivery is complete.
pub struct LifecycleStep<'a, E> {
    pub log: Option<String>,
    pub call: Option<(&'a E, WebsocketLifecycleContext<'a>)>,
}

/// What to do next about a subscription event: write the error log line, if there is one, then
/// call the callback with the event. Without a call the delivery is complete.
pub struct SubscriptionStep<'a, S> {
    pub log: Option<String>,
    pub call: Option<(&'a S, &'a StreamSubscriptionEvent)>,
}

/// Synchronous observer for WebSocket raw frames and scoped lifecycle events.
///
/// [`Self::new`] preserves the original data-frame-only callback. New
/// integrations should use [`Self::new_context`] and optionally
/// [`Self::with_lifecycle`] so one SDK instance can safely distinguish
/// path-scoped connections, frame encoding, heartbeat, and reconnects.
/// Keep callbacks non-blocking and non-panicking; a typical callback copies the
/// borrowed data into an application-owned queue or ring buffer.
///
/// `L` is the type of data-frame-only callbacks, `C` that of context-aware callbacks and `E` that
/// of lifecycle callbacks.
pub struct RawFrameObserver<L, C, E> {
    legacy: Option<L>,
    context: Option<C>,
    lifecycle: Option<E>,
}

/// Whether `copy` is a clone of an optional callback.
pub open spec fn cloned_callback<T: Clone>(callback: Option<T>, copy: Option<T>) -> bool {
    match (callback, copy) {
        (Some(callback), Some(copy)) => cloned(callback, copy),
        (None, None) => true,
        _ => false,
    }
}

impl<L: Clone, C: Clone, E: Clone> RawFrameObserver<L, C, E> {
    /// Whether `copy` calls clones of the callbacks.
    pub open spec fn copied_to(&self, copy: &Self) -> bool {
        &&& cloned_callback(self.legacy_callback(), copy.legacy_callback())
        &&& cloned_callback(self.context_callback(), copy.context_callback())
        &&& cloned_callback(self.lifecycle_callback(), copy.lifecycle_callback())
    }
}

impl<L: Clone, C: Clone, E: Clone> Clone for RawFrameObserver<L, C, E> {
    fn clone(&self) -> (result: Self)
        ensures
            self.copied_to(&result),
            result.has_one_frame_callback(),
    {
        proof {
            use_type_invariant(self);
        }
        RawFrameObserver {
            legacy: self.legacy.clone(),
            context: self.context.clone(),
            lifecycle: self.lifecycle.clone(),
        }
    }
}

impl<L, C, E> RawFrameObserver<L, C, E> {
    #[verifier::type_invariant]
    spec fn one_frame_callback(&self) -> bool {
        self.legacy is Some <==> self.context is None
    }

    /// Whether exactly one callback for frames is set. It is, in every observer that is made.
    pub open spec fn has_one_frame_callback(&self) -> bool {
        self.legacy_callback() is Some <==> self.context_callback() is None
    }

    /// The data-frame-only callback.
    pub closed spec fn legacy_callback(&self) -> Option<L> {
        self.legacy
    }

    /// The context-aware callback.
    pub closed spec fn context_callback(&self) -> Option<C> {
        self.context
    }

    /// The lifecycle callback.
    pub closed spec fn lifecycle_callback(&self) -> Option<E> {
        self.lifecycle
    }

    /// Creates a data-frame-only observer.
    #[must_use]
    pub fn new(observer: L) -> (result: Self)
        ensures
            result.legacy_callback() == Some(observer),
            result.context_callback() is None,
            result.lifecycle_callback() is None,
            result.has_one_frame_callback(),
    {
        Self { legacy: Some(observer), context: None, lifecycle: None }
    }

    /// Creates a path- and encoding-aware pre-decode observer.
    #[must_use]
    pub fn new_context(observer: C) -> (result: Self)
        ensures
            result.legacy_callback() is None,
            result.context_callback() == Some(observer),
            result.lifecycle_callback() is None,
            result.has_one_frame_callback(),
    {
        Self { legacy: None, context: Some(observer), lifecycle: None }
    }

    /// Adds a scoped lifecycle observer to either raw-frame constructor.
    #[must_use]
    pub fn with_lifecycle(self, observer: E) -> (result: Self)
        ensures
            result.legacy_callback() == self.legacy_callback(),
            result.context_callback() == self.context_callback(),
            result.lifecycle_callback() == Some(observer),
            result.has_one_frame_callback(),
    {
        proof {
            use_type_invariant(&self);
        }
        let mut result = self;
        result.lifecycle = Some(observer);
        result
    }

    /// Next step in delivering the frame `context`, after `progress`.
    ///
    /// The data-frame-only callback comes first and gets the connection id and the payload, the
    /// context-aware one comes second and gets the whole context. A callback that panicked is
    /// reported in the log line of the step that follows its call. An observer has exactly one
    /// of the two.
    pub fn observe_frame<'a>(
        &'a self,
        context: RawFrameContext<'a>,
        progress: FrameProgress,
    ) -> (step: FrameStep<'a, L, C>)
        ensures
            text_of(step.log) == frame_log(context, progress),
            step.call == self.frame_call(context, progress),
            self.has_one_frame_callback(),
    {
        proof {
            use_type_invariant(self);
        }
        let log = match progress {
            FrameProgress::LegacyDone(CallOutcome::Panicked) => {
                let mut line = String::from("Raw WebSocket observer panicked on connection ");
                line.append(context.connection_id);
                Some(line)
            },
            FrameProgress::ContextDone(CallOutcome::Panicked) => {
                let mut line = String::from("Context WebSocket observer panicked on connection ");
                line.append(context.connection_id);
                Some(line)
            },
            _ => None,
        };
        if let FrameProgress::Start = progress {
            if let Some(observer) = &self.legacy {
                return FrameStep {
                    log,
                    call: Some(
                        FrameCall::Legacy {
                            observer,
                            connection_id: context.connection_id,
                            payload: context.payload,
                        },
                    ),
                };
            }
        }
        if let FrameProgress::ContextDone(_) = progress {
            return FrameStep { log, call: None };
        }
        match &self.context {
            Some(observer) => FrameStep {
                log,
                call: Some(FrameCall::Context { observer, context }),
            },
            None => FrameStep { log, call: None },
        }
    }

    /// Next step in delivering the lifecycle transition `context`, after `progress`.
    ///
    /// A callback that panicked is reported in the log line of the step that follows its call.
    pub fn observe_lifecycle<'a>(
        &'a self,
        context: WebsocketLifecycleContext<'a>,
        progress: Progress,
    ) -> (step: LifecycleStep<'a, E>)
        ensures
            text_of(step.log) == lifecycle_log(context, progress),
            step.call == self.lifecycle_call(context, progress),
    {
        match progress {
            Progress::Start => match &self.lifecycle {
                Some(observer) => LifecycleStep { log: None, call: Some((observer, context)) },
                None => LifecycleStep { log: None, call: None },
            },
            Progress::Done(CallOutcome::Returned) => LifecycleStep { log: None, call: None },
            Progress::Done(CallOutcome::Panicked) => {
                let mut line = String::from("Lifecycle WebSocket observer panicked on connection ");
                line.append(context.connection_id);
                LifecycleStep { log: Some(line), call: None }
            },
        }
    }

    /// The text that `Debug` writes for an observer.
    pub fn debug_text(&self) -> (text: &'static str)
        ensures
            text == "RawFrameObserver(<custom observer fn>)",
    {
        "RawFrameObserver(<custom observer fn>)"
    }

    /// The call of the context-aware callback with a frame.
    pub open spec fn context_call<'a>(&'a self, context: RawFrameContext<'a>) -> Option<
        FrameCall<'a, L, C>,
    > {
        match self.context_callback() {
            Some(observer) => Some(FrameCall::Context { observer: &observer, context }),
            None => None,
        }
    }

    /// The call that delivers a frame after `progress`.
    pub open spec fn frame_call<'a>(
        &'a self,
        context: RawFrameContext<'a>,
        progress: FrameProgress,
    ) -> Option<FrameCall<'a, L, C>> {
        match progress {
            FrameProgress::Start => match self.legacy_callback() {
                Some(observer) => Some(
                    FrameCall::Legacy {
                        observer: &observer,
                        connection_id: context.connection_id,
                        payload: context.payload,
                    },
                ),
                None => self.context_call(context),
            },
            FrameProgress::LegacyDone(_) => self.context_call(context),
            FrameProgress::ContextDone(_) => None,
        }
    }

    /// The call that delivers a lifecycle transition after `progress`.
    pub open spec fn lifecycle_call<'a>(
        &'a self,
        context: WebsocketLifecycleContext<'a>,
        progress: Progress,
    ) -> Option<(&'a E, WebsocketLifecycleContext<'a>)> {
        match (progress, self.lifecycle_callback()) {
            (Progress::Start, Some(observer)) => Some((&observer, context)),
            _ => None,
        }
    }
}

/// The log line that is due after `progress`.
pub open spec fn frame_log(context: RawFrameContext, progress: FrameProgress) -> Option<Seq<char>> {
    match progress {
        FrameProgress::LegacyDone(CallOutcome::Panicked) => Some(
            "Raw WebSocket observer panicked on connection "@ + context.connection_id@,
        ),
        FrameProgress::ContextDone(CallOutcome::Panicked) => Some(
            "Context WebSocket observer panicked on connection "@ + context.connection_id@,
        ),
        _ => None,
    }
}

/// The log line that is due after `progress`.
pub open spec fn lifecycle_log(context: WebsocketLifecycleContext, progress: Progress) -> Option<
    Seq<char>,
> {
    match progress {
        Progress::Done(CallOutcome::Panicked) => Some(
            "Lifecycle WebSocket observer panicked on connection "@ + context.connection_id@,
        ),
        _ => None,
    }
}

/// One effect of driving a delivery: a call or a log line.
pub enum Effect<Call> {
    Call(Call),
    Log(Seq<char>),
}

/// A log line, where there is one.
pub open spec fn logged<Call>(line: Option<Seq<char>>) -> Seq<Effect<Call>> {
    match line {
        Some(line) => seq![Effect::Log(line)],
        None => seq![],
    }
}

/// All effects of delivering a frame from `progress` on, when a call of the data-frame-only
/// callback ends with `legacy` and a call of the context-aware one with `aware`.
pub open spec fn frame_effects<'a, L, C, E>(
    observer: &'a RawFrameObserver<L, C, E>,
    context: RawFrameContext<'a>,
    progress: FrameProgress,
    legacy: CallOutcome,
    aware: CallOutcome,
) -> Seq<Effect<FrameCall<'a, L, C>>>
    decreases
            match progress {
                FrameProgress::Start => 2int,
                FrameProgress::LegacyDone(_) => 1,
                FrameProgress::ContextDone(_) => 0,
            },
{
    logged(frame_log(context, progress)) + match observer.frame_call(context, progress) {
        None => seq![],
        Some(call) => seq![Effect::Call(call)] + match (call, progress) {
            (FrameCall::Legacy { .. }, FrameProgress::Start) => frame_effects(
                observer,
                context,
                FrameProgress::LegacyDone(legacy),
                legacy,
                aware,
            ),
            (FrameCall::Context { .. }, FrameProgress::Start | FrameProgress::LegacyDone(_)) =>
                frame_effects(observer, context, FrameProgress::ContextDone(aware), legacy, aware),
            _ => seq![],
        },
    }
}

/// Every callback of an observer is called exactly once with each frame, the data-frame-only one
/// before the context-aware one, whether or not the other one is set or panics. A panic has one
/// log line and no other consequence.
pub proof fn law_frame_reaches_every_callback<'a, L, C, E>(
    observer: &'a RawFrameObserver<L, C, E>,
    context: RawFrameContext<'a>,
    legacy: CallOutcome,
    aware: CallOutcome,
)
    ensures
        frame_effects(observer, context, FrameProgress::Start, legacy, aware) == {
            let first = match observer.legacy_callback() {
                Some(callback) => seq![
                    Effect::Call(
                        FrameCall::Legacy {
                            observer: &callback,
                            connection_id: context.connection_id,
                            payload: context.payload,
                        },
                    ),
                ] + logged(frame_log(context, FrameProgress::LegacyDone(legacy))),
                None => seq![],
            };
            let second = match observer.context_callback() {
                Some(callback) => seq![
                    Effect::Call(FrameCall::Context { observer: &callback, context }),
                ] + logged(frame_log(context, FrameProgress::ContextDone(aware))),
                None => seq![],
            };
            first + second
        },
{
    reveal_with_fuel(frame_effects, 3);
}

/// The calls among effects.
pub open spec fn calls_of<Call>(effects: Seq<Effect<Call>>) -> Seq<Call>
    decreases effects.len(),
{
    if effects.len() == 0 {
        seq![]
    } else {
        let calls = calls_of(effects.drop_last());
        match effects.last() {
            Effect::Call(call) => calls.push(call),
            Effect::Log(_) => calls,
        }
    }
}

proof fn lemma_calls_of_concat<Call>(first: Seq<Effect<Call>>, second: Seq<Effect<Call>>)
    ensures
        calls_of(first + second) == calls_of(first) + calls_of(second),
    decreases second.len(),
{
    if second.len() == 0 {
        assert(first + second =~= first);
    } else {
        lemma_calls_of_concat(first, second.drop_last());
        assert((first + second).drop_last() =~= first + second.drop_last());
    }
}

/// All effects of delivering frames one after the other. `outcomes[i]` holds how a call of the
/// data-frame-only callback and one of the context-aware callback end for the frame `frames[i]`.
pub open spec fn series_effects<'a, L, C, E>(
    observer: &'a RawFrameObserver<L, C, E>,
    frames: Seq<RawFrameContext<'a>>,
    outcomes: Seq<(CallOutcome, CallOutcome)>,
) -> Seq<Effect<FrameCall<'a, L, C>>>
    decreases frames.len(),
{
    if frames.len() == 0 {
        seq![]
    } else {
        let (legacy, aware) = outcomes[frames.len() - 1];
        series_effects(observer, frames.drop_last(), outcomes) + frame_effects(
            observer,
            frames.last(),
            FrameProgress::Start,
            legacy,
            aware,
        )
    }
}

/// Whether a call hands over a frame: its connection id and payload to a data-frame-only callback,
/// all of it to a context-aware one.
pub open spec fn hands_over<'a, L, C>(
    call: FrameCall<'a, L, C>,
    frame: RawFrameContext<'a>,
) -> bool {
    match call {
        FrameCall::Legacy { connection_id, payload, .. } => connection_id == frame.connection_id
            && payload == frame.payload,
        FrameCall::Context { context, .. } => context == frame,
    }
}

/// A series of frames leads to one call for each frame, in the order of the frames, whichever
/// calls panic: no frame is dropped, none is delivered twice, and no call is anything but the
/// delivery of a frame.
pub proof fn law_series_has_one_call_per_frame<'a, L, C, E>(
    observer: &'a RawFrameObserver<L, C, E>,
    frames: Seq<RawFrameContext<'a>>,
    outcomes: Seq<(CallOutcome, CallOutcome)>,
)
    requires
        observer.has_one_frame_callback(),
    ensures
        ({
            let calls = calls_of(series_effects(observer, frames, outcomes));
            &&& calls.len() == frames.len()
            &&& forall|i: int|
                0 <= i < frames.len() ==> {
                    &&& Some(#[trigger] calls[i]) == observer.frame_call(
                        frames[i],
                        FrameProgress::Start,
                    )
                    &&& hands_over(calls[i], frames[i])
                }
        }),
    decreases frames.len(),
{
    if frames.len() > 0 {
        law_series_has_one_call_per_frame(observer, frames.drop_last(), outcomes);
        let (legacy, aware) = outcomes[frames.len() - 1];
        let earlier = series_effects(observer, frames.drop_last(), outcomes);
        let last = frame_effects(observer, frames.last(), FrameProgress::Start, legacy, aware);
        lemma_calls_of_concat(earlier, last);
        law_frame_reaches_every_callback(observer, frames.last(), legacy, aware);
        reveal_with_fuel(calls_of, 3);
        let call = observer.frame_call(frames.last(), FrameProgress::Start)->0;
        assert(calls_of(last) =~= seq![call]);
    }
}

/// All effects of delivering a lifecycle transition from `progress` on, when a call of the
/// callback ends with `outcome`.
pub open spec fn lifecycle_effects<'a, L, C, E>(
    observer: &'a RawFrameObserver<L, C, E>,
    context: WebsocketLifecycleContext<'a>,
    progress: Progress,
    outcome: CallOutcome,
) -> Seq<Effect<(&'a E, WebsocketLifecycleContext<'a>)>>
    decreases
            match progress {
                Progress::Start => 1int,
                Progress::Done(_) => 0,
            },
{
    logged(lifecycle_log(context, progress)) + match (
        observer.lifecycle_call(context, progress),
        progress,
    ) {
        (Some(call), Progress::Start) => seq![Effect::Call(call)] + lifecycle_effects(
            observer,
            context,
            Progress::Done(outcome),
            outcome,
        ),
        _ => seq![],
    }
}

/// A lifecycle callback is called exactly once with each transition. A panic has one log line and
/// no other consequence. Without a lifecycle callback nothing happens.
pub proof fn law_lifecycle_reaches_callback<'a, L, C, E>(
    observer: &'a RawFrameObserver<L, C, E>,
    context: WebsocketLifecycleContext<'a>,
    outcome: CallOutcome,
)
    ensures
        lifecycle_effects(observer, context, Progress::Start, outcome) == match observer.lifecycle_callback() {
            Some(callback) => seq![Effect::Call((&callback, context))] + logged(
                lifecycle_log(context, Progress::Done(outcome)),
            ),
            None => seq![],
        },
{
    reveal_with_fuel(lifecycle_effects, 2);
}

/// All effects of delivering lifecycle transitions one after the other. `outcomes[i]` is how a call
/// of the callback ends for the transition `transitions[i]`.
pub open spec fn lifecycle_series_effects<'a, L, C, E>(
    observer: &'a RawFrameObserver<L, C, E>,
    transitions: Seq<WebsocketLifecycleContext<'a>>,
    outcomes: Seq<CallOutcome>,
) -> Seq<Effect<(&'a E, WebsocketLifecycleContext<'a>)>>
    decreases transitions.len(),
{
    if transitions.len() == 0 {
        seq![]
    } else {
        lifecycle_series_effects(observer, transitions.drop_last(), outcomes) + lifecycle_effects(
            observer,
            transitions.last(),
            Progress::Start,
            outcomes[transitions.len() - 1],
        )
    }
}

/// A series of lifecycle transitions leads to one call of the lifecycle callback for each of them,
/// in their order, whichever calls panic. Without a lifecycle callback nothing is called.
pub proof fn law_series_has_one_call_per_transition<'a, L, C, E>(
    observer: &'a RawFrameObserver<L, C, E>,
    transitions: Seq<WebsocketLifecycleContext<'a>>,
    outcomes: Seq<CallOutcome>,
)
    ensures
        calls_of(lifecycle_series_effects(observer, transitions, outcomes))
            == match observer.lifecycle_callback() {
            Some(callback) => Seq::new(transitions.len(), |i: int| (&callback, transitions[i])),
            None => seq![],
        },
    decreases transitions.len(),
{
    if transitions.len() > 0 {
        law_series_has_one_call_per_transition(observer, transitions.drop_last(), outcomes);
        let outcome = outcomes[transitions.len() - 1];
        let earlier = lifecycle_series_effects(observer, transitions.drop_last(), outcomes);
        let last = lifecycle_effects(observer, transitions.last(), Progress::Start, outcome);
        lemma_calls_of_concat(earlier, last);
        law_lifecycle_reaches_callback(observer, transitions.last(), outcome);
        reveal_with_fuel(calls_of, 3);
        if let Some(callback) = observer.lifecycle_callback() {
            assert(calls_of(last) =~= seq![(&callback, transitions.last())]);
        } else {
            assert(calls_of(last) =~= seq![]);
        }
    }
}

/// Synchronous, redacted observer for one stream-subscription lifecycle.
///
/// The callback runs inline at the transport boundary to preserve causal
/// ordering with raw frames. Keep it non-blocking. `S` is the type of the callback.
pub struct StreamSubscriptionObserver<S>(S);

impl<S: Clone> StreamSubscriptionObserver<S> {
    /// Whether `copy` calls a clone of the callback.
    pub open spec fn copied_to(&self, copy: &Self) -> bool {
        cloned(self.callback(), copy.callback())
    }
}

impl<S: Clone> Clone for StreamSubscriptionObserver<S> {
    fn clone(&self) -> (result: Self)
        ensures
            self.copied_to(&result),
    {
        StreamSubscriptionObserver(self.0.clone())
    }
}

impl<S> StreamSubscriptionObserver<S> {
    /// The callback.
    pub closed spec fn callback(&self) -> S {
        self.0
    }

    /// Creates an observer that calls `observer`.
    #[must_use]
    pub fn new(observer: S) -> (result: Self)
        ensures
            result.callback() == observer,
    {
        Self(observer)
    }

    /// Next step in delivering `event`, after `progress`.
    ///
    /// A callback that panicked is reported in the log line of the step that follows its call.
    pub fn observe<'a>(&'a self, event: &'a StreamSubscriptionEvent, progress: Progress) -> (step:
        SubscriptionStep<'a, S>)
        ensures
            text_of(step.log) == subscription_log(*event, progress),
            step.call == self.subscription_call(event, progress),
    {
        match progress {
            Progress::Start => SubscriptionStep { log: None, call: Some((&self.0, event)) },
            Progress::Done(CallOutcome::Returned) => SubscriptionStep { log: None, call: None },
            Progress::Done(CallOutcome::Panicked) => {
                let mut line = String::from(
                    "Stream subscription observer panicked on connection ",
                );
                line.append(event.context.connection_id.as_str());
                line.append(" generation ");
                append_decimal(&mut line, event.context.session_generation);
                line.append(" request ");
                append_decimal(&mut line, event.context.request_id as u64);
                SubscriptionStep { log: Some(line), call: None }
            },
        }
    }

    /// The text that `Debug` writes for an observer.
    pub fn debug_text(&self) -> (text: &'static str)
        ensures
            text == "StreamSubscriptionObserver(<custom observer fn>)",
    {
        "StreamSubscriptionObserver(<custom observer fn>)"
    }

    /// The call that delivers an event after `progress`.
    pub open spec fn subscription_call<'a>(
        &'a self,
        event: &'a StreamSubscriptionEvent,
        progress: Progress,
    ) -> Option<(&'a S, &'a StreamSubscriptionEvent)> {
        if progress is Start {
            Some((&self.callback(), event))
        } else {
            None
        }
    }
}

/// The log line that is due after `progress`.
pub open spec fn subscription_log(event: StreamSubscriptionEvent, progress: Progress) -> Option<
    Seq<char>,
> {
    match progress {
        Progress::Done(CallOutcome::Panicked) => Some(
            "Stream subscription observer panicked on connection "@ + event.context.connection_id@
                + " generation "@ + decimal(event.context.session_generation as nat)
                + " request "@ + decimal(event.context.request_id as nat),
        ),
        _ => None,
    }
}

/// All effects of delivering a subscription event from `progress` on, when a call of the callback
/// ends with `outcome`.
pub open spec fn subscription_effects<'a, S>(
    observer: &'a StreamSubscriptionObserver<S>,
    event: &'a StreamSubscriptionEvent,
    progress: Progress,
    outcome: CallOutcome,
) -> Seq<Effect<(&'a S, &'a StreamSubscriptionEvent)>>
    decreases
            match progress {
                Progress::Start => 1int,
                Progress::Done(_) => 0,
            },
{
    logged(subscription_log(*event, progress)) + match (
        observer.subscription_call(event, progress),
        progress,
    ) {
        (Some(call), Progress::Start) => seq![Effect::Call(call)] + subscription_effects(
            observer,
            event,
            Progress::Done(outcome),
            outcome,
        ),
        _ => seq![],
    }
}

/// The callback is called exactly once with each event. A panic has one log line and no other
/// consequence.
pub proof fn law_event_reaches_callback<'a, S>(
    observer: &'a StreamSubscriptionObserver<S>,
    event: &'a StreamSubscriptionEvent,
    outcome: CallOutcome,
)
    ensures
        subscription_effects(observer, event, Progress::Start, outcome) == seq![
            Effect::Call((&observer.callback(), event)),
        ] + logged(subscription_log(*event, Progress::Done(outcome))),
{
    reveal_with_fuel(subscription_effects, 2);
}

/// All effects of delivering subscription events one after the other. `outcomes[i]` is how the call
/// of the callback ends for the event `events[i]`.
pub open spec fn subscription_series_effects<'a, S>(
    observer: &'a StreamSubscriptionObserver<S>,
    events: Seq<&'a StreamSubscriptionEvent>,
    outcomes: Seq<CallOutcome>,
) -> Seq<Effect<(&'a S, &'a StreamSubscriptionEvent)>>
    decreases events.len(),
{
    if events.len() == 0 {
        seq![]
    } else {
        subscription_series_effects(observer, events.drop_last(), outcomes) + subscription_effects(
            observer,
            events.last(),
            Progress::Start,
            outcomes[events.len() - 1],
        )
    }
}

/// A series of subscription events leads to one call of the callback for each of them, in their
/// order, whichever calls panic.
pub proof fn law_series_has_one_call_per_event<'a, S>(
    observer: &'a StreamSubscriptionObserver<S>,
    events: Seq<&'a StreamSubscriptionEvent>,
    outcomes: Seq<CallOutcome>,
)
    ensures
        calls_of(subscription_series_effects(observer, events, outcomes)) == Seq::new(
            events.len(),
            |i: int| (&observer.callback(), events[i]),
        ),
    decreases events.len(),
{
    if events.len() > 0 {
        law_series_has_one_call_per_event(observer, events.drop_last(), outcomes);
        let outcome = outcomes[events.len() - 1];
        let earlier = subscription_series_effects(observer, events.drop_last(), outcomes);
        let last = subscription_effects(observer, events.last(), Progress::Start, outcome);
        lemma_calls_of_concat(earlier, last);
        law_event_reaches_callback(observer, events.last(), outcome);
        reveal_with_fuel(calls_of, 3);
        assert(calls_of(last) =~= seq![(&observer.callback(), events.last())]);
    }
}

/// A data-frame-only observer hands the connection id and the payload of every frame to the
/// callback that it was made with, then is done with the frame. A panic of the callback is logged
/// with the connection id, and only a panic is. It takes no notice of lifecycle transitions.
pub proof fn law_data_frame_observer<'a, L, C, E>(
    callback: L,
    observer: &'a RawFrameObserver<L, C, E>,
    frame: RawFrameContext<'a>,
    outcome: CallOutcome,
    first: FrameStep<'a, L, C>,
    second: FrameStep<'a, L, C>,
    transition: WebsocketLifecycleContext<'a>,
    progress: Progress,
    silent: LifecycleStep<'a, E>,
)
    requires
        call_ensures(RawFrameObserver::<L, C, E>::new, (callback,), *observer),
        call_ensures(
            RawFrameObserver::<L, C, E>::observe_frame,
            (observer, frame, FrameProgress::Start),
            first,
        ),
        call_ensures(
            RawFrameObserver::<L, C, E>::observe_frame,
            (observer, frame, FrameProgress::LegacyDone(outcome)),
            second,
        ),
        call_ensures(
            RawFrameObserver::<L, C, E>::observe_lifecycle,
            (observer, transition, progress),
            silent,
        ),
    ensures
        first.log is None,
        first.call == Some::<FrameCall<L, C>>(
            FrameCall::Legacy {
                observer: &callback,
                connection_id: frame.connection_id,
                payload: frame.payload,
            },
        ),
        outcome is Returned ==> second.log is None,
        outcome is Panicked ==> (second.log matches Some(line) && line@
            == "Raw WebSocket observer panicked on connection "@ + frame.connection_id@),
        second.call is None,
        silent.call is None,
{
}

/// A context-aware observer hands every frame as a whole to the callback that it was made with,
/// then is done with the frame. A panic of the callback is logged with the connection id, and only
/// a panic is. It takes no notice of lifecycle transitions.
pub proof fn law_context_observer<'a, L, C, E>(
    callback: C,
    observer: &'a RawFrameObserver<L, C, E>,
    frame: RawFrameContext<'a>,
    outcome: CallOutcome,
    first: FrameStep<'a, L, C>,
    second: FrameStep<'a, L, C>,
    transition: WebsocketLifecycleContext<'a>,
    progress: Progress,
    silent: LifecycleStep<'a, E>,
)
    requires
        call_ensures(RawFrameObserver::<L, C, E>::new_context, (callback,), *observer),
        call_ensures(
            RawFrameObserver::<L, C, E>::observe_frame,
            (observer, frame, FrameProgress::Start),
            first,
        ),
        call_ensures(
            RawFrameObserver::<L, C, E>::observe_frame,
            (observer, frame, FrameProgress::ContextDone(outcome)),
            second,
        ),
        call_ensures(
            RawFrameObserver::<L, C, E>::observe_lifecycle,
            (observer, transition, progress),
            silent,
        ),
    ensures
        first.log is None,
        first.call == Some::<FrameCall<L, C>>(
            FrameCall::Context { observer: &callback, context: frame },
        ),
        outcome is Returned ==> second.log is None,
        outcome is Panicked ==> (second.log matches Some(line) && line@
            == "Context WebSocket observer panicked on connection "@ + frame.connection_id@),
        second.call is None,
        silent.call is None,
{
}

/// The delivery of a frame comes to an end, for every observer, frame and outcome: it begins with a
/// call, and after a call of either callback there is none left to make. Only a panic is logged,
/// with the connection id.
pub proof fn law_frame_delivery_ends<'a, L, C, E>(
    observer: &'a RawFrameObserver<L, C, E>,
    frame: RawFrameContext<'a>,
    outcome: CallOutcome,
    first: FrameStep<'a, L, C>,
    after_legacy: FrameStep<'a, L, C>,
    after_context: FrameStep<'a, L, C>,
)
    requires
        call_ensures(
            RawFrameObserver::<L, C, E>::observe_frame,
            (observer, frame, FrameProgress::Start),
            first,
        ),
        call_ensures(
            RawFrameObserver::<L, C, E>::observe_frame,
            (observer, frame, FrameProgress::LegacyDone(outcome)),
            after_legacy,
        ),
        call_ensures(
            RawFrameObserver::<L, C, E>::observe_frame,
            (observer, frame, FrameProgress::ContextDone(outcome)),
            after_context,
        ),
    ensures
        first.log is None,
        match first.call {
            Some(FrameCall::Legacy { connection_id, payload, .. }) => {
                &&& connection_id == frame.connection_id
                &&& payload == frame.payload
                &&& after_legacy.call is None
            },
            Some(FrameCall::Context { context, .. }) => context == frame,
            None => false,
        },
        after_context.call is None,
        outcome is Returned ==> after_legacy.log is None && after_context.log is None,
        outcome is Panicked ==> {
            &&& after_legacy.log matches Some(line) && line@
                == "Raw WebSocket observer panicked on connection "@ + frame.connection_id@
            &&& after_context.log matches Some(line) && line@
                == "Context WebSocket observer panicked on connection "@ + frame.connection_id@
        },
{
}

/// A lifecycle callback that is added to an observer gets every transition, and frames are
/// delivered as before. After the call of the callback there is no further call, however the call
/// ended and whatever the transition. A panic is logged with the connection id, and only a panic
/// is.
pub proof fn law_lifecycle_observer<'a, L, C, E>(
    plain: &'a RawFrameObserver<L, C, E>,
    callback: E,
    observer: &'a RawFrameObserver<L, C, E>,
    transition: WebsocketLifecycleContext<'a>,
    outcome: CallOutcome,
    first: LifecycleStep<'a, E>,
    second: LifecycleStep<'a, E>,
    frame: RawFrameContext<'a>,
    progress: FrameProgress,
    before: FrameStep<'a, L, C>,
    after: FrameStep<'a, L, C>,
)
    requires
        call_ensures(RawFrameObserver::<L, C, E>::with_lifecycle, (*plain, callback), *observer),
        call_ensures(
            RawFrameObserver::<L, C, E>::observe_lifecycle,
            (observer, transition, Progress::Start),
            first,
        ),
        call_ensures(
            RawFrameObserver::<L, C, E>::observe_lifecycle,
            (observer, transition, Progress::Done(outcome)),
            second,
        ),
        call_ensures(
            RawFrameObserver::<L, C, E>::observe_frame,
            (plain, frame, progress),
            before,
        ),
        call_ensures(
            RawFrameObserver::<L, C, E>::observe_frame,
            (observer, frame, progress),
            after,
        ),
    ensures
        first.log is None,
        first.call == Some((&callback, transition)),
        outcome is Returned ==> second.log is None,
        outcome is Panicked ==> (second.log matches Some(line) && line@
            == "Lifecycle WebSocket observer panicked on connection "@ + transition.connection_id@),
        second.call is None,
        after.call == before.call,
        match (before.log, after.log) {
            (Some(line), Some(other)) => line@ == other@,
            (None, None) => true,
            _ => false,
        },
{
}

/// The delivery of a lifecycle transition comes to an end, for every observer, transition and
/// outcome: after the call of the callback there is none left to make. Only a panic is logged, with
/// the connection id. The context that is handed over is the one of the transition.
pub proof fn law_lifecycle_delivery_ends<'a, L, C, E>(
    observer: &'a RawFrameObserver<L, C, E>,
    transition: WebsocketLifecycleContext<'a>,
    outcome: CallOutcome,
    first: LifecycleStep<'a, E>,
    second: LifecycleStep<'a, E>,
)
    requires
        call_ensures(
            RawFrameObserver::<L, C, E>::observe_lifecycle,
            (observer, transition, Progress::Start),
            first,
        ),
        call_ensures(
            RawFrameObserver::<L, C, E>::observe_lifecycle,
            (observer, transition, Progress::Done(outcome)),
            second,
        ),
    ensures
        observer.lifecycle_call(transition, Progress::Done(outcome)) is None,
        first.log is None,
        first.call matches Some((_, context)) ==> context == transition,
        second.call is None,
        outcome is Returned ==> second.log is None,
        outcome is Panicked ==> (second.log matches Some(line) && line@
            == "Lifecycle WebSocket observer panicked on connection "@ + transition.connection_id@),
{
}

/// A clone of an observer makes the same calls at the same steps and writes the same lines, with
/// clones of the callbacks.
pub proof fn law_clone_observes_alike<'a, L: Clone, C: Clone, E: Clone>(
    observer: &'a RawFrameObserver<L, C, E>,
    copy: &'a RawFrameObserver<L, C, E>,
    frame: RawFrameContext<'a>,
    frame_progress: FrameProgress,
    frame_step: FrameStep<'a, L, C>,
    frame_copy: FrameStep<'a, L, C>,
    transition: WebsocketLifecycleContext<'a>,
    progress: Progress,
    step: LifecycleStep<'a, E>,
    step_copy: LifecycleStep<'a, E>,
)
    requires
        call_ensures(<RawFrameObserver<L, C, E> as Clone>::clone, (observer,), *copy),
        call_ensures(
            RawFrameObserver::<L, C, E>::observe_frame,
            (observer, frame, frame_progress),
            frame_step,
        ),
        call_ensures(
            RawFrameObserver::<L, C, E>::observe_frame,
            (copy, frame, frame_progress),
            frame_copy,
        ),
        call_ensures(
            RawFrameObserver::<L, C, E>::observe_lifecycle,
            (observer, transition, progress),
            step,
        ),
        call_ensures(
            RawFrameObserver::<L, C, E>::observe_lifecycle,
            (copy, transition, progress),
            step_copy,
        ),
    ensures
        match (frame_step.call, frame_copy.call) {
            (
                Some(FrameCall::Legacy { observer: callback, connection_id, payload }),
                Some(FrameCall::Legacy { observer: clone, connection_id: id, payload: bytes }),
            ) => cloned(*callback, *clone) && id == connection_id && bytes == payload,
            (
                Some(FrameCall::Context { observer: callback, context }),
                Some(FrameCall::Context { observer: clone, context: same }),
            ) => cloned(*callback, *clone) && same == context,
            (None, None) => true,
            _ => false,
        },
        match (step.call, step_copy.call) {
            (Some((callback, context)), Some((clone, same))) => cloned(*callback, *clone) && same
                == context,
            (None, None) => true,
            _ => false,
        },
        match (frame_step.log, frame_copy.log) {
            (Some(line), Some(other)) => line@ == other@,
            (None, None) => true,
            _ => false,
        },
        match (step.log, step_copy.log) {
            (Some(line), Some(other)) => line@ == other@,
            (None, None) => true,
            _ => false,
        },
{
}

/// A subscription observer hands every event to the callback that it was made with, then is done
/// with the event, however the call ended. A panic is logged with the connection id, the generation
/// and the request, and only a panic is.
pub proof fn law_subscription_observer<'a, S>(
    callback: S,
    observer: &'a StreamSubscriptionObserver<S>,
    event: &'a StreamSubscriptionEvent,
    outcome: CallOutcome,
    first: SubscriptionStep<'a, S>,
    second: SubscriptionStep<'a, S>,
)
    requires
        call_ensures(StreamSubscriptionObserver::<S>::new, (callback,), *observer),
        call_ensures(
            StreamSubscriptionObserver::<S>::observe,
            (observer, event, Progress::Start),
            first,
        ),
        call_ensures(
            StreamSubscriptionObserver::<S>::observe,
            (observer, event, Progress::Done(outcome)),
            second,
        ),
    ensures
        first.log is None,
        first.call == Some((&callback, event)),
        second.call is None,
        outcome is Returned ==> second.log is None,
        outcome is Panicked ==> (second.log matches Some(line) && line@
            == "Stream subscription observer panicked on connection "@
            + event.context.connection_id@ + " generation "@ + decimal(
            event.context.session_generation as nat,
        ) + " request "@ + decimal(event.context.request_id as nat)),
{
}

/// The delivery of a subscription event comes to an end, for every observer, event and outcome: one
/// call with the event, then none. A clone of the observer makes its calls at the same steps, with
/// a clone of the callback.
pub proof fn law_subscription_delivery_ends<'a, S: Clone>(
    observer: &'a StreamSubscriptionObserver<S>,
    copy: &'a StreamSubscriptionObserver<S>,
    event: &'a StreamSubscriptionEvent,
    outcome: CallOutcome,
    first: SubscriptionStep<'a, S>,
    second: SubscriptionStep<'a, S>,
    copy_first: SubscriptionStep<'a, S>,
    copy_second: SubscriptionStep<'a, S>,
)
    requires
        call_ensures(<StreamSubscriptionObserver<S> as Clone>::clone, (observer,), *copy),
        call_ensures(
            StreamSubscriptionObserver::<S>::observe,
            (observer, event, Progress::Start),
            first,
        ),
        call_ensures(
            StreamSubscriptionObserver::<S>::observe,
            (observer, event, Progress::Done(outcome)),
            second,
        ),
        call_ensures(
            StreamSubscriptionObserver::<S>::observe,
            (copy, event, Progress::Start),
            copy_first,
        ),
        call_ensures(
            StreamSubscriptionObserver::<S>::observe,
            (copy, event, Progress::Done(outcome)),
            copy_second,
        ),
    ensures
        observer.subscription_call(event, Progress::Done(outcome)) is None,
        match (first.call, copy_first.call) {
            (Some((callback, one)), Some((clone, other))) => {
                &&& one == event
                &&& other == event
                &&& cloned(*callback, *clone)
            },
            _ => false,
        },
        second.call is None,
        copy_second.call is None,
        first.log is None,
        outcome is Returned <==> second.log is None,
        match (second.log, copy_second.log) {
            (Some(line), Some(other)) => line@ == other@,
            (None, None) => true,
            _ => false,
        },
{
}

/// Observers show nothing of their callbacks in diagnostics.
pub proof fn law_observer_texts<L, C, E, S>(
    raw: RawFrameObserver<L, C, E>,
    raw_text: &'static str,
    subscription: StreamSubscriptionObserver<S>,
    subscription_text: &'static str,
)
    requires
        call_ensures(RawFrameObserver::<L, C, E>::debug_text, (&raw,), raw_text),
        call_ensures(
            StreamSubscriptionObserver::<S>::debug_text,
            (&subscription,),
            subscription_text,
        ),
    ensures
        raw_text@ == "RawFrameObserver(<custom observer fn>)"@,
        subscription_text@ == "StreamSubscriptionObserver(<custom observer fn>)"@,
{
}

} // verus!

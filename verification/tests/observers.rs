use binance_common::models::{
    StreamSubscriptionContext, StreamSubscriptionEvent, StreamSubscriptionOutcome,
    StreamSubscriptionScope,
};
use binance_common::observers::{
    CallOutcome, FrameCall, FrameProgress, Progress, RawFrameContext, RawFrameKind,
    RawFrameObserver, StreamSubscriptionObserver, WebsocketLifecycleContext,
    WebsocketLifecycleEvent,
};

type Observer = RawFrameObserver<&'static str, &'static str, &'static str>;

fn frame() -> RawFrameContext<'static> {
    RawFrameContext {
        connection_id: "c-1",
        session_generation: 2,
        path_scope: Some("market"),
        kind: RawFrameKind::Binary,
        payload: &[1, 2, 3],
    }
}

fn transition() -> WebsocketLifecycleContext<'static> {
    WebsocketLifecycleContext {
        connection_id: "c-1",
        session_generation: 2,
        path_scope: None,
        event: WebsocketLifecycleEvent::Close { code: 1006 },
    }
}

fn event() -> StreamSubscriptionEvent {
    StreamSubscriptionEvent {
        context: StreamSubscriptionContext {
            connection_id: "c-1".to_string(),
            session_generation: 7,
            request_id: 12,
            path_scope: StreamSubscriptionScope::Market,
        },
        outcome: StreamSubscriptionOutcome::Acknowledged,
    }
}

fn deliver_frame(observer: &Observer, legacy: CallOutcome, aware: CallOutcome) -> Vec<String> {
    let mut effects = Vec::new();
    let mut progress = FrameProgress::Start;
    loop {
        let step = observer.observe_frame(frame(), progress);
        if let Some(line) = step.log {
            effects.push(format!("log {}", line));
        }
        match step.call {
            Some(FrameCall::Legacy { observer, connection_id, payload }) => {
                effects.push(format!("{} {} {:?}", observer, connection_id, payload));
                progress = FrameProgress::LegacyDone(legacy);
            }
            Some(FrameCall::Context { observer, context }) => {
                assert_eq!(context, frame());
                effects.push(format!("{} {:?}", observer, context.kind));
                progress = FrameProgress::ContextDone(aware);
            }
            None => return effects,
        }
    }
}

#[test]
fn data_frame_only_observer_gets_id_and_payload() {
    let observer = Observer::new("legacy");
    assert_eq!(
        deliver_frame(&observer, CallOutcome::Returned, CallOutcome::Returned),
        ["legacy c-1 [1, 2, 3]"]
    );
    assert_eq!(
        deliver_frame(&observer, CallOutcome::Panicked, CallOutcome::Returned),
        ["legacy c-1 [1, 2, 3]", "log Raw WebSocket observer panicked on connection c-1"]
    );
}

#[test]
fn context_observer_gets_the_context() {
    let observer = Observer::new_context("aware");
    assert_eq!(
        deliver_frame(&observer, CallOutcome::Returned, CallOutcome::Returned),
        ["aware Binary"]
    );
    assert_eq!(
        deliver_frame(&observer, CallOutcome::Returned, CallOutcome::Panicked),
        ["aware Binary", "log Context WebSocket observer panicked on connection c-1"]
    );
}

#[test]
fn panic_of_one_callback_does_not_stop_the_next() {
    let observer = Observer::new_context("aware");
    for outcome in [CallOutcome::Returned, CallOutcome::Panicked] {
        let step = observer.observe_frame(frame(), FrameProgress::LegacyDone(outcome));
        assert_eq!(
            step.log.as_deref(),
            if outcome == CallOutcome::Panicked {
                Some("Raw WebSocket observer panicked on connection c-1")
            } else {
                None
            }
        );
        assert!(matches!(
            step.call,
            Some(FrameCall::Context { observer: &"aware", context }) if context == frame()
        ));
    }
}

#[test]
fn lifecycle_callback_is_added() {
    for plain in [Observer::new("legacy"), Observer::new_context("aware")] {
        let before = deliver_frame(&plain, CallOutcome::Panicked, CallOutcome::Panicked);
        let step = plain.observe_lifecycle(transition(), Progress::Start);
        assert!(step.call.is_none());
        assert!(step.log.is_none());

        let observer = plain.clone().with_lifecycle("lifecycle");
        assert_eq!(
            deliver_frame(&observer, CallOutcome::Panicked, CallOutcome::Panicked),
            before
        );
        let step = observer.observe_lifecycle(transition(), Progress::Start);
        assert_eq!(step.call, Some((&"lifecycle", transition())));
        assert_eq!(step.log, None);
        let step = observer.observe_lifecycle(transition(), Progress::Done(CallOutcome::Returned));
        assert_eq!(step.call, None);
        assert_eq!(step.log, None);
        let step = observer.observe_lifecycle(transition(), Progress::Done(CallOutcome::Panicked));
        assert_eq!(step.call, None);
        assert_eq!(
            step.log.as_deref(),
            Some("Lifecycle WebSocket observer panicked on connection c-1")
        );
    }
}

#[test]
fn later_lifecycle_callback_replaces_the_earlier() {
    let observer = Observer::new("legacy").with_lifecycle("first").with_lifecycle("second");
    let step = observer.observe_lifecycle(transition(), Progress::Start);
    assert_eq!(step.call, Some((&"second", transition())));
}

#[test]
fn subscription_observer_gets_the_event() {
    let observer = StreamSubscriptionObserver::new("callback");
    let event = event();
    let step = observer.observe(&event, Progress::Start);
    assert_eq!(step.call, Some((&"callback", &event)));
    assert_eq!(step.log, None);
    let step = observer.observe(&event, Progress::Done(CallOutcome::Returned));
    assert_eq!(step.call, None);
    assert_eq!(step.log, None);
    let step = observer.observe(&event, Progress::Done(CallOutcome::Panicked));
    assert_eq!(step.call, None);
    assert_eq!(
        step.log.as_deref(),
        Some("Stream subscription observer panicked on connection c-1 generation 7 request 12")
    );
}

#[test]
fn observer_texts() {
    assert_eq!(Observer::new("x").debug_text(), "RawFrameObserver(<custom observer fn>)");
    assert_eq!(
        StreamSubscriptionObserver::new(1u8).debug_text(),
        "StreamSubscriptionObserver(<custom observer fn>)"
    );
}

#[test]
fn clones_call_the_same_callbacks() {
    let observer = Observer::new("legacy").with_lifecycle("lifecycle");
    let copy = observer.clone();
    assert_eq!(
        deliver_frame(&copy, CallOutcome::Returned, CallOutcome::Returned),
        deliver_frame(&observer, CallOutcome::Returned, CallOutcome::Returned)
    );
    let step = copy.observe_lifecycle(transition(), Progress::Start);
    assert_eq!(step.call, Some((&"lifecycle", transition())));
    let observer = StreamSubscriptionObserver::new("callback").clone();
    let event = event();
    assert_eq!(observer.observe(&event, Progress::Start).call, Some((&"callback", &event)));
}

#[test]
fn series_has_one_call_per_frame() {
    for observer in [Observer::new("legacy"), Observer::new_context("aware")] {
        let mut calls = Vec::new();
        for (i, id) in ["a", "b", "c"].into_iter().enumerate() {
            let context = RawFrameContext { connection_id: id, ..frame() };
            let outcome = if i == 1 { CallOutcome::Panicked } else { CallOutcome::Returned };
            let mut progress = FrameProgress::Start;
            loop {
                match observer.observe_frame(context, progress).call {
                    Some(FrameCall::Legacy { connection_id, .. }) => {
                        calls.push(connection_id);
                        progress = FrameProgress::LegacyDone(outcome);
                    }
                    Some(FrameCall::Context { context, .. }) => {
                        calls.push(context.connection_id);
                        progress = FrameProgress::ContextDone(outcome);
                    }
                    None => break,
                }
            }
        }
        assert_eq!(calls, ["a", "b", "c"]);
    }
}

#[test]
fn series_of_transitions_and_events_have_one_call_each() {
    let silent = Observer::new("legacy");
    let observer = Observer::new("legacy").with_lifecycle("lifecycle");
    let subscriptions = StreamSubscriptionObserver::new("callback");
    let mut calls = Vec::new();
    for (i, id) in ["a", "b", "c"].into_iter().enumerate() {
        let outcome = if i == 1 { CallOutcome::Panicked } else { CallOutcome::Returned };
        let context = WebsocketLifecycleContext { connection_id: id, ..transition() };
        let mut event = event();
        event.context.connection_id = id.to_string();

        assert_eq!(silent.observe_lifecycle(context, Progress::Start).call, None);
        let mut progress = Progress::Start;
        while let Some((callback, context)) = observer.observe_lifecycle(context, progress).call {
            calls.push(format!("{} {}", callback, context.connection_id));
            progress = Progress::Done(outcome);
        }
        let mut progress = Progress::Start;
        while let Some((callback, event)) = subscriptions.observe(&event, progress).call {
            calls.push(format!("{} {}", callback, event.context.connection_id));
            progress = Progress::Done(outcome);
        }
    }
    assert_eq!(
        calls,
        ["lifecycle a", "callback a", "lifecycle b", "callback b", "lifecycle c", "callback c"]
    );
}

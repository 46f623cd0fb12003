use yaak_plugins::catalog::{PayloadFamily, PayloadRole};
use yaak_plugins::correlation::{CallError, CallOutcome, CorrelationTable, PendingCall, Resolution};
use yaak_plugins::dispatch::{Dispatch, Host};
use yaak_plugins::events::{
    BootRequest, BootResponse, Color, CopyTextRequest, EditorLanguage, EmptyPayload, FilterRequest,
    FilterResponse, InternalEvent, InternalEventPayload, PromptTextRequest, RenderPurpose,
    WindowContext,
};
use yaak_plugins::lifecycle::{LifecycleEvent, PluginState};
use yaak_plugins::router::WindowRouter;

fn s(x: &str) -> String {
    x.to_string()
}

fn event(id: &str, plugin: &str, payload: InternalEventPayload) -> InternalEvent {
    InternalEvent::new(s(id), s(plugin), payload, WindowContext::NoWindow)
}

fn reply(id: &str, plugin: &str, reply_id: &str, payload: InternalEventPayload) -> InternalEvent {
    let mut e = event(id, plugin, payload);
    e.reply_id = Some(s(reply_id));
    e
}

fn booted_host(plugin: &str) -> Host {
    let mut host = Host::new();
    host.add_plugin(s(plugin), false).unwrap();
    let boot = event(
        "boot-1",
        plugin,
        InternalEventPayload::BootRequest(BootRequest { dir: s("/plugins/a"), watch: false }),
    );
    host.send_request(&boot, 100).unwrap();
    let answer = boot.reply(
        s("boot-1-reply"),
        InternalEventPayload::BootResponse(BootResponse {
            name: s("filter-plugin"),
            version: s("1.0.0"),
            capabilities: vec![s("filter")],
        }),
    );
    let received = host.receive(answer);
    assert!(matches!(received.dispatch, Dispatch::Settled(_)));
    assert_eq!(host.plugin_state(&s(plugin)), Some(PluginState::Ready));
    host
}

fn call(id: &str, plugin: &str, expected: PayloadFamily, deadline: u64) -> PendingCall {
    PendingCall { id: s(id), plugin_ref_id: s(plugin), expected, deadline }
}

#[test]
fn filter_reply_reaches_caller() {
    let mut host = booted_host("p1");
    let request = event(
        "f1",
        "p1",
        InternalEventPayload::FilterRequest(FilterRequest { content: s("{a:1}"), filter: s(".a") }),
    );
    host.send_request(&request, 50).unwrap();
    assert!(host.is_pending(&s("f1")));
    let answer = request.reply(
        s("f1-reply"),
        InternalEventPayload::FilterResponse(FilterResponse { content: s("1") }),
    );
    let received = host.receive(answer);
    match received.dispatch {
        Dispatch::Settled(d) => {
            assert_eq!(d.id, "f1");
            match d.outcome {
                CallOutcome::Reply(InternalEventPayload::FilterResponse(r)) => {
                    assert_eq!(r.content, "1")
                },
                other => panic!("unexpected outcome {:?}", other),
            }
        },
        other => panic!("unexpected dispatch {:?}", other),
    }
    assert!(!host.is_pending(&s("f1")));
}

#[test]
fn unanswered_request_times_out() {
    let mut host = booted_host("p1");
    let request = event("q1", "p1", InternalEventPayload::GetTemplateFunctionsRequest);
    host.send_request(&request, 5).unwrap();
    assert!(host.expire(4).is_empty());
    assert!(host.is_pending(&s("q1")));
    let timed_out = host.expire(5);
    assert_eq!(timed_out.len(), 1);
    assert_eq!(timed_out[0].id, "q1");
    assert!(matches!(timed_out[0].outcome, CallOutcome::Failed(CallError::Timeout)));
    assert!(!host.is_pending(&s("q1")));
    assert_eq!(host.pending_len(), 0);
}

#[test]
fn unprompted_terminate_response_ends_plugin() {
    let mut host = booted_host("p1");
    host.add_plugin(s("p2"), false).unwrap();
    let other = event(
        "b2",
        "p2",
        InternalEventPayload::BootRequest(BootRequest { dir: s("/plugins/b"), watch: true }),
    );
    host.send_request(&other, 100).unwrap();
    let received = host.receive(reply("t1", "p1", "nothing-asked", InternalEventPayload::TerminateResponse));
    assert!(matches!(received.dispatch, Dispatch::Unmatched));
    assert!(received.cancelled.is_empty());
    assert_eq!(host.pending_len(), 1);
    assert!(host.is_pending(&s("b2")));
    assert_eq!(host.plugin_state(&s("p1")), Some(PluginState::Terminated));
}

#[test]
fn terminate_response_without_reply_id_ends_plugin() {
    let mut host = booted_host("p1");
    let received = host.receive(event("t1", "p1", InternalEventPayload::TerminateResponse));
    assert!(matches!(received.dispatch, Dispatch::Unmatched));
    assert_eq!(host.plugin_state(&s("p1")), Some(PluginState::Terminated));
}

#[test]
fn termination_cancels_every_pending_call() {
    let mut host = booted_host("p1");
    for id in ["a", "b", "c"] {
        host.send_request(&event(id, "p1", InternalEventPayload::GetTemplateFunctionsRequest), 9)
            .unwrap();
    }
    let cancelled = host.transition(&s("p1"), LifecycleEvent::Terminated).unwrap();
    let ids: Vec<&str> = cancelled.iter().map(|d| d.id.as_str()).collect();
    assert_eq!(ids, vec!["a", "b", "c"]);
    assert!(cancelled.iter().all(|d| matches!(d.outcome, CallOutcome::Failed(CallError::Cancelled))));
    assert_eq!(host.pending_len(), 0);
    let late = host.receive(reply("x", "p1", "a", InternalEventPayload::GetTemplateFunctionsResponse(
        Default::default(),
    )));
    assert!(matches!(late.dispatch, Dispatch::Unmatched));
}

#[test]
fn second_reply_is_discarded() {
    let mut table = CorrelationTable::new();
    table.register(call("r1", "p1", PayloadFamily::Filter, 10)).unwrap();
    let first = table.resolve(
        &s("r1"),
        InternalEventPayload::FilterResponse(FilterResponse { content: s("x") }),
    );
    assert!(matches!(first, Resolution::Delivered(_)));
    let second = table.resolve(
        &s("r1"),
        InternalEventPayload::FilterResponse(FilterResponse { content: s("y") }),
    );
    assert!(matches!(second, Resolution::Unmatched));
    assert_eq!(table.len(), 0);
}

#[test]
fn unknown_reply_leaves_other_calls() {
    let mut table = CorrelationTable::new();
    table.register(call("r1", "p1", PayloadFamily::Filter, 10)).unwrap();
    table.register(call("r2", "p1", PayloadFamily::Import, 10)).unwrap();
    let r = table.resolve(&s("zz"), InternalEventPayload::EmptyResponse(EmptyPayload {}));
    assert!(matches!(r, Resolution::Unmatched));
    assert_eq!(table.len(), 2);
    assert!(table.is_pending(&s("r1")));
    assert!(table.is_pending(&s("r2")));
}

#[test]
fn duplicate_id_is_refused() {
    let mut table = CorrelationTable::new();
    table.register(call("r1", "p1", PayloadFamily::Filter, 10)).unwrap();
    assert_eq!(table.register(call("r1", "p2", PayloadFamily::Import, 3)), Err(CallError::DuplicateId));
    assert_eq!(table.len(), 1);
}

#[test]
fn wrong_reply_shape_fails_call() {
    let mut table = CorrelationTable::new();
    table.register(call("r1", "p1", PayloadFamily::Filter, 10)).unwrap();
    let r = table.resolve(&s("r1"), InternalEventPayload::TerminateResponse);
    match r {
        Resolution::Delivered(d) => {
            assert!(matches!(d.outcome, CallOutcome::Failed(CallError::ShapeMismatch)))
        },
        Resolution::Unmatched => panic!("reply was not matched"),
    }
    assert_eq!(table.len(), 0);
}

#[test]
fn empty_response_answers_any_request() {
    let mut table = CorrelationTable::new();
    table.register(call("r1", "p1", PayloadFamily::CallHttpRequestAction, 10)).unwrap();
    let r = table.resolve(&s("r1"), InternalEventPayload::EmptyResponse(EmptyPayload {}));
    match r {
        Resolution::Delivered(d) => {
            assert!(matches!(d.outcome, CallOutcome::Reply(InternalEventPayload::EmptyResponse(_))))
        },
        Resolution::Unmatched => panic!("reply was not matched"),
    }
}

#[test]
fn cancel_all_spares_other_plugins() {
    let mut table = CorrelationTable::new();
    table.register(call("a", "p1", PayloadFamily::Filter, 10)).unwrap();
    table.register(call("b", "p2", PayloadFamily::Filter, 10)).unwrap();
    table.register(call("c", "p1", PayloadFamily::Filter, 10)).unwrap();
    let cancelled = table.cancel_all(&s("p1"));
    assert_eq!(cancelled.len(), 2);
    assert_eq!(cancelled[0].id, "a");
    assert_eq!(cancelled[1].id, "c");
    assert!(table.is_pending(&s("b")));
    assert_eq!(table.len(), 1);
}

#[test]
fn expire_keeps_later_deadlines() {
    let mut table = CorrelationTable::new();
    table.register(call("a", "p1", PayloadFamily::Filter, 3)).unwrap();
    table.register(call("b", "p1", PayloadFamily::Filter, 8)).unwrap();
    let expired = table.expire(5);
    assert_eq!(expired.len(), 1);
    assert_eq!(expired[0].id, "a");
    assert!(table.is_pending(&s("b")));
}

#[test]
fn broadcast_reaches_every_open_window() {
    let mut router = WindowRouter::new();
    router.open("w1");
    router.open("w2");
    router.open("w1");
    assert_eq!(router.targets(&WindowContext::NoWindow), vec![s("w1"), s("w2")]);
}

#[test]
fn labelled_event_reaches_only_its_window() {
    let mut router = WindowRouter::new();
    router.open("w1");
    router.open("w2");
    let ctx = WindowContext::from_window("w1");
    assert_eq!(router.targets(&ctx), vec![s("w1")]);
    router.close("w1");
    assert!(!router.is_open("w1"));
    assert!(router.targets(&ctx).is_empty());
}

#[test]
fn notification_is_routed_without_reply() {
    let mut host = booted_host("p1");
    host.open_window("main");
    let mut note = event("n1", "p1", InternalEventPayload::CopyTextRequest(CopyTextRequest { text: s("hi") }));
    note.window_context = WindowContext::from_window("gone");
    match host.receive(note).dispatch {
        Dispatch::Notify { targets, .. } => assert!(targets.is_empty()),
        other => panic!("unexpected dispatch {:?}", other),
    }
    let note = event("n2", "p1", InternalEventPayload::CopyTextRequest(CopyTextRequest { text: s("hi") }));
    match host.receive(note).dispatch {
        Dispatch::Notify { targets, .. } => assert_eq!(targets, vec![s("main")]),
        other => panic!("unexpected dispatch {:?}", other),
    }
}

#[test]
fn plugin_request_needs_ready_plugin() {
    let mut host = booted_host("p1");
    let ask = event("pr1", "p1", InternalEventPayload::PromptTextRequest(PromptTextRequest::default()));
    assert!(matches!(host.receive(ask).dispatch, Dispatch::Handle(_)));
    let ask = event("pr2", "p9", InternalEventPayload::PromptTextRequest(PromptTextRequest::default()));
    assert!(matches!(host.receive(ask).dispatch, Dispatch::Rejected(_)));
}

#[test]
fn reload_blocks_new_requests() {
    let mut host = booted_host("p1");
    let reload = event("rl", "p1", InternalEventPayload::ReloadRequest(EmptyPayload {}));
    host.send_request(&reload, 20).unwrap();
    assert_eq!(host.plugin_state(&s("p1")), Some(PluginState::Reloading));
    let blocked = event("f", "p1", InternalEventPayload::GetTemplateFunctionsRequest);
    assert_eq!(host.send_request(&blocked, 20), Err(CallError::LifecycleViolation));
    host.receive(reload.reply(s("rl-r"), InternalEventPayload::ReloadResponse(EmptyPayload {})));
    assert_eq!(host.plugin_state(&s("p1")), Some(PluginState::Ready));
    assert_eq!(host.send_request(&blocked, 20), Ok(()));
}

#[test]
fn boot_with_wrong_answer_fails() {
    let mut host = Host::new();
    host.add_plugin(s("p1"), false).unwrap();
    let boot = event("b", "p1", InternalEventPayload::BootRequest(BootRequest::default()));
    host.send_request(&boot, 10).unwrap();
    host.receive(boot.reply(s("b-r"), InternalEventPayload::FilterResponse(FilterResponse::default())));
    assert_eq!(host.plugin_state(&s("p1")), Some(PluginState::Failed));
    assert_eq!(host.add_plugin(s("p1"), true), Ok(()));
    assert_eq!(host.plugin_state(&s("p1")), Some(PluginState::Booting));
    assert_eq!(host.add_plugin(s("p1"), true), Err(CallError::LifecycleViolation));
}

#[test]
fn request_to_unknown_plugin_is_refused() {
    let mut host = Host::new();
    let e = event("x", "nobody", InternalEventPayload::GetTemplateFunctionsRequest);
    assert_eq!(host.send_request(&e, 1), Err(CallError::LifecycleViolation));
    assert_eq!(host.pending_len(), 0);
}

#[test]
fn lifecycle_transitions() {
    assert_eq!(PluginState::Booting.next(LifecycleEvent::BootSucceeded), Some(PluginState::Ready));
    assert_eq!(PluginState::Booting.next(LifecycleEvent::BootFailed), Some(PluginState::Failed));
    assert_eq!(PluginState::Ready.next(LifecycleEvent::ReloadSent), Some(PluginState::Reloading));
    assert_eq!(PluginState::Reloading.next(LifecycleEvent::ReloadFinished), Some(PluginState::Ready));
    assert_eq!(PluginState::Reloading.next(LifecycleEvent::TerminateSent), Some(PluginState::Terminating));
    assert_eq!(PluginState::Ready.next(LifecycleEvent::Terminated), Some(PluginState::Terminated));
    assert_eq!(PluginState::Terminated.next(LifecycleEvent::Terminated), None);
    assert_eq!(PluginState::Ready.next(LifecycleEvent::BootSucceeded), None);
}

#[test]
fn reply_envelope_names_request() {
    let request = event("req-7", "p1", InternalEventPayload::GetTemplateFunctionsRequest);
    let answer = request.reply(s("rep-8"), InternalEventPayload::EmptyResponse(EmptyPayload {}));
    assert_eq!(answer.id, "rep-8");
    assert_eq!(answer.reply_id, Some(s("req-7")));
    assert_eq!(answer.plugin_ref_id, "p1");
    assert!(request.reply_id.is_none());
}

#[test]
fn catalog_roles() {
    assert_eq!(InternalEventPayload::TerminateRequest.shape().role, PayloadRole::Request);
    assert!(InternalEventPayload::CopyTextRequest(CopyTextRequest::default()).is_notification());
    assert!(InternalEventPayload::EmptyResponse(EmptyPayload {}).is_response());
    assert!(InternalEventPayload::FilterRequest(FilterRequest::default()).is_request());
}

#[test]
fn defaults() {
    assert_eq!(Color::default(), Color::Default);
    assert_eq!(EditorLanguage::default(), EditorLanguage::Text);
    assert_eq!(RenderPurpose::default(), RenderPurpose::Preview);
}

#[test]
fn request_without_handler_gets_empty_response() {
    let request = event("q", "p1", InternalEventPayload::GetHttpAuthenticationRequest(EmptyPayload {}));
    let answer = request.reply_without_handler(s("q-r"));
    assert_eq!(answer.reply_id, Some(s("q")));
    assert!(matches!(answer.payload, InternalEventPayload::EmptyResponse(_)));
}

#[test]
fn window_context_from_label() {
    match WindowContext::from_window("main") {
        WindowContext::Label { label } => assert_eq!(label, "main"),
        WindowContext::NoWindow => panic!("expected a label"),
    }
}

#[test]
fn boot_timeout_fails_plugin() {
    let mut host = Host::new();
    host.add_plugin(s("p1"), false).unwrap();
    host.add_plugin(s("p2"), false).unwrap();
    let boot = event("b1", "p1", InternalEventPayload::BootRequest(BootRequest::default()));
    host.send_request(&boot, 5).unwrap();
    let boot2 = event("b2", "p2", InternalEventPayload::BootRequest(BootRequest::default()));
    host.send_request(&boot2, 50).unwrap();
    let timed_out = host.expire(5);
    assert_eq!(timed_out.len(), 1);
    assert_eq!(host.plugin_state(&s("p1")), Some(PluginState::Failed));
    assert_eq!(host.plugin_state(&s("p2")), Some(PluginState::Booting));
}

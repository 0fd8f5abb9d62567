use nemembory::hooks::{
    AgentHookError, CallbackRef, EventKind, HandleAgentResponse, HookEvent, decimal_text, failure_reports,
    role_text,
};
use nemembory::message::MessageRole;
use nemembory::params::Params;
use nemembory::stream::{StreamAdapter, StreamItem, fragments};

fn pairs(p: &Params) -> Vec<(String, String)> {
    p.entries.clone()
}

fn s(x: &str) -> String {
    x.to_string()
}

#[test]
fn tool_call_reaches_every_callback() {
    let mut h = HandleAgentResponse::new();
    for id in 0..3u64 {
        h.add_tool_call_callback(CallbackRef::External(id));
    }
    h.add_tool_call_result_callback(CallbackRef::External(99));
    let e = HookEvent::ToolCall { tool_name: s("web_search"), args: s("{}") };
    let inv = h.dispatch(&e);
    assert_eq!(inv.len(), 3);
    for (i, v) in inv.iter().enumerate() {
        assert!(matches!(v.callback, CallbackRef::External(id) if id == i as u64));
        assert_eq!(pairs(&v.params), vec![(s("tool_name"), s("web_search")), (s("args"), s("{}"))]);
    }
}

#[test]
fn event_without_callbacks_starts_none() {
    let h = HandleAgentResponse::new();
    let e = HookEvent::CompletionCall { prompt: s("p"), history_len: 3 };
    assert!(h.dispatch(&e).is_empty());
}

#[test]
fn payloads_of_each_event() {
    let r = HookEvent::ToolResult { tool_name: s("t"), args: s("a"), result: s("r") }.payload();
    assert_eq!(pairs(&r), vec![(s("tool_name"), s("t")), (s("args"), s("a")), (s("result"), s("r"))]);
    let c = HookEvent::CompletionCall { prompt: s("hello"), history_len: 42 }.payload();
    assert_eq!(pairs(&c), vec![(s("prompt"), s("hello")), (s("history_len"), s("42"))]);
    let d = HookEvent::CompletionResponse { content: s("fine"), role: MessageRole::Assistant }
        .payload();
    assert_eq!(pairs(&d), vec![(s("content"), s("fine")), (s("role"), s("Assistant"))]);
}

#[test]
fn decimal_texts() {
    assert_eq!(decimal_text(0), "0");
    assert_eq!(decimal_text(9), "9");
    assert_eq!(decimal_text(10), "10");
    assert_eq!(decimal_text(1207), "1207");
    assert_eq!(decimal_text(usize::MAX), usize::MAX.to_string());
    assert_eq!(role_text(MessageRole::User), "User");
}

#[test]
fn registration_goes_to_the_right_event() {
    let mut h = HandleAgentResponse::new();
    h.add_callback(CallbackRef::External(1));
    h.add_completion_response_callback(CallbackRef::External(2));
    h.add_completion_call_callback(CallbackRef::External(3));
    h.add_event_callback(EventKind::ToolResult, CallbackRef::External(4));
    assert_eq!(h.on_completion_response_callback.len(), 2);
    assert_eq!(h.on_completion_call_callback.len(), 1);
    assert_eq!(h.on_tool_result_callback.len(), 1);
    assert!(h.on_tool_call_callback.is_empty());
    let e = HookEvent::CompletionResponse { content: s("c"), role: MessageRole::User };
    let inv = h.dispatch(&e);
    assert!(matches!(inv[0].callback, CallbackRef::External(1)));
    assert!(matches!(inv[1].callback, CallbackRef::External(2)));
}

#[test]
fn call_callbacks_uses_tool_call_list() {
    let mut h = HandleAgentResponse::new();
    h.add_tool_call_callback(CallbackRef::PrintToolCall);
    h.add_tool_call_callback(CallbackRef::External(8));
    let p = Params::single("tool_name", s("x"));
    let inv = h.call_callbacks(&p);
    assert_eq!(inv.len(), 2);
    assert_eq!(pairs(&inv[1].params), vec![(s("tool_name"), s("x"))]);
}

#[test]
fn run_logging_leaves_template() {
    let mut h = HandleAgentResponse::new();
    h.add_tool_call_callback(CallbackRef::External(1));
    let r = h.with_run_logging();
    assert_eq!(r.on_tool_call_callback.len(), 2);
    assert_eq!(h.on_tool_call_callback.len(), 1);
    assert!(h.on_tool_result_callback.is_empty());
}

#[test]
fn hook_error_message() {
    let e = AgentHookError::AgentHookError(s("boom"));
    assert_eq!(e.message(), "Agent Hook on tool call error: boom");
}

#[test]
fn text_stream_concatenates_to_answer() {
    let items = vec![
        StreamItem::Text(s("The ")),
        StreamItem::Reasoning,
        StreamItem::Text(s("answer ")),
        StreamItem::AssistantFinal,
        StreamItem::Text(s("is 4.")),
        StreamItem::FinalResponse,
    ];
    let f = fragments(&items);
    assert_eq!(f, vec![Ok(s("The ")), Ok(s("answer ")), Ok(s("is 4."))]);
    let joined: String = f.into_iter().map(|x| x.unwrap()).collect();
    assert_eq!(joined, "The answer is 4.");
}

#[test]
fn tool_only_stream_yields_nothing() {
    let items = vec![
        StreamItem::ToolCallDelta,
        StreamItem::ToolCall,
        StreamItem::UserItem,
        StreamItem::FinalResponse,
    ];
    assert!(fragments(&items).is_empty());
    assert!(fragments(&Vec::new()).is_empty());
}

#[test]
fn failure_ends_stream() {
    let items = vec![
        StreamItem::Text(s("a")),
        StreamItem::Failure(s("lost connection")),
        StreamItem::Text(s("b")),
    ];
    assert_eq!(fragments(&items), vec![Ok(s("a")), Err(s("lost connection"))]);
    let mut ad = StreamAdapter::new();
    assert_eq!(ad.next(StreamItem::Failure(s("x"))), Some(Err(s("x"))));
    assert!(ad.finished);
    assert_eq!(ad.next(StreamItem::Text(s("late"))), None);
}

#[test]
fn failing_callback_only_adds_a_report() {
    let outcomes = vec![
        Ok(()),
        Err(AgentHookError::AgentHookError(s("disk full"))),
        Ok(()),
        Err(AgentHookError::AgentHookError(s("bad json"))),
    ];
    assert_eq!(
        failure_reports(&outcomes),
        vec![
            s("Agent Hook on tool call error: disk full"),
            s("Agent Hook on tool call error: bad json"),
        ]
    );
    assert!(failure_reports(&vec![Ok(()), Ok(())]).is_empty());
}

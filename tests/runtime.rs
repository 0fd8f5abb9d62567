use nemembory::agent::{ModelProvider, NememboryAgent, RunError, preamble};
use nemembory::data::{DbError, FileBasedAgentStore};
use nemembory::handlers::{FileHandler, HandlerRef};
use nemembory::hooks::{CallbackRef, EventKind, HandleAgentResponse};
use nemembory::message::{Message, MessageRole, Timestamp, copy_messages};

fn runtime() -> NememboryAgent {
    NememboryAgent::new("helper", "find the weather".to_string(), ModelProvider::Gemini)
}

fn at(role: MessageRole, text: &str, secs: i64) -> Message {
    Message::at(role, text.to_string(), Timestamp { secs, nanos: 0 })
}

#[test]
fn new_runtime_is_empty() {
    let a = runtime();
    assert_eq!(a.name, "helper");
    assert_eq!(a.task, "find the weather");
    assert!(a.messages.is_empty());
    assert!(a.message_handlers.is_empty());
    assert!(a.working_dir.is_none());
    assert!(!a.has_working_dir);
    assert!(a.hooks.is_none());
    assert!(matches!(a.model, ModelProvider::Gemini));
    assert!(a.preamble.contains("find the weather"));
    assert!(a.preamble.starts_with("\n# Goal:\n"));
}

#[test]
fn preamble_places_task_and_date() {
    let p = preamble("sum numbers", "2024-01-02");
    assert!(p.starts_with(
        "\n# Goal:\nYou are an assistant here to help the user accomplish the following task: \nsum numbers\n"
    ));
    assert!(p.ends_with("\n\n# Context: \nTodays date is: 2024-01-02"));
}

#[test]
fn successful_runs_record_prompt_then_answer() {
    let mut a = runtime();
    let exchanges = [("hi", "hello"), ("2+2?", "4"), ("bye", "see you")];
    for (prompt, answer) in exchanges.iter() {
        let step = a.finish_run(prompt, Ok(answer.to_string()));
        assert_eq!(step.result, Ok(answer.to_string()));
        assert!(step.notifications.is_empty());
    }
    assert_eq!(a.messages.len(), 6);
    for (i, (prompt, answer)) in exchanges.iter().enumerate() {
        assert_eq!(a.messages[2 * i].role, MessageRole::User);
        assert_eq!(a.messages[2 * i].message, *prompt);
        assert_eq!(a.messages[2 * i + 1].role, MessageRole::Assistant);
        assert_eq!(a.messages[2 * i + 1].message, *answer);
    }
}

#[test]
fn failed_run_leaves_history_unchanged() {
    let mut a = runtime();
    a.finish_run("hi", Ok("hello".to_string()));
    let before: Vec<(MessageRole, String)> =
        a.messages.iter().map(|m| (m.role, m.message.clone())).collect();
    let step = a.finish_run("again", Err("provider down".to_string()));
    assert_eq!(step.result, Err(RunError::EngineFailed("provider down".to_string())));
    assert!(step.notifications.is_empty());
    let after: Vec<(MessageRole, String)> =
        a.messages.iter().map(|m| (m.role, m.message.clone())).collect();
    assert_eq!(before, after);
}

#[test]
fn run_error_message() {
    let e = RunError::EngineFailed("timeout".to_string());
    assert_eq!(e.message(), "Agent run failed: timeout");
}

#[test]
fn successful_run_notifies_each_handler_for_both_messages() {
    let mut a = runtime()
        .with_handlers(vec![HandlerRef::External(7), HandlerRef::External(9)]);
    let step = a.finish_run("question", Ok("answer".to_string()));
    let seen: Vec<(u64, MessageRole, String)> = step
        .notifications
        .iter()
        .map(|n| match &n.handler {
            HandlerRef::External(id) => (*id, n.message.role, n.message.message.clone()),
            HandlerRef::Transcript(_) => panic!("unexpected handler"),
        })
        .collect();
    assert_eq!(
        seen,
        vec![
            (7, MessageRole::User, "question".to_string()),
            (9, MessageRole::User, "question".to_string()),
            (7, MessageRole::Assistant, "answer".to_string()),
            (9, MessageRole::Assistant, "answer".to_string()),
        ]
    );
}

#[test]
fn add_message_appends_and_notifies_in_order() {
    let mut a = runtime().with_handlers(vec![
        HandlerRef::Transcript(FileHandler::new("x/chat.log".to_string())),
        HandlerRef::External(3),
    ]);
    let n = a.add_message(at(MessageRole::User, "one", 10));
    assert_eq!(a.messages.len(), 1);
    assert_eq!(a.messages[0].time_stamp, Timestamp { secs: 10, nanos: 0 });
    assert_eq!(n.len(), 2);
    assert!(matches!(&n[0].handler, HandlerRef::Transcript(h) if h.file_path == "x/chat.log"));
    assert!(matches!(n[1].handler, HandlerRef::External(3)));
    assert_eq!(n[1].message.message, "one");
}

#[test]
fn history_for_engine_is_a_copy_in_order() {
    let mut a = runtime();
    a.finish_run("a", Ok("b".to_string()));
    let h = a.history_for_engine();
    assert_eq!(h.len(), 2);
    assert_eq!(h[0].message, "a");
    assert_eq!(h[1].message, "b");
    let c = copy_messages(&h);
    assert_eq!(c[1].role, MessageRole::Assistant);
}

#[test]
fn default_handlers_without_directory_is_no_op() {
    let a = runtime().default_handlers();
    assert!(a.message_handlers.is_empty());
    let a = a.create_working_directory("/tmp/agent");
    assert!(a.message_handlers.is_empty());
    assert_eq!(a.working_dir.as_deref(), Some("/tmp/agent"));
    assert!(a.has_working_dir);
}

#[test]
fn default_handlers_with_directory_adds_transcript() {
    let a = runtime()
        .with_handlers(vec![HandlerRef::External(1)])
        .create_working_directory("/tmp/agent")
        .default_handlers();
    assert_eq!(a.message_handlers.len(), 2);
    assert!(matches!(a.message_handlers[0], HandlerRef::External(1)));
    match &a.message_handlers[1] {
        HandlerRef::Transcript(h) => assert_eq!(h.file_path, "/tmp/agent/chat.log"),
        HandlerRef::External(_) => panic!("expected the transcript"),
    }
}

#[test]
fn default_hooks_without_directory_is_no_op() {
    let a = runtime().default_hooks();
    assert!(a.hooks.is_none());
}

#[test]
fn default_hooks_with_directory_adds_file_logs() {
    let mut template = HandleAgentResponse::new();
    template.add_tool_call_callback(CallbackRef::External(5));
    let a = runtime()
        .with_hooks(template)
        .create_working_directory("work")
        .default_hooks();
    let hooks = a.hooks.expect("hooks");
    assert_eq!(hooks.on_tool_call_callback.len(), 2);
    assert!(matches!(hooks.on_tool_call_callback[0], CallbackRef::External(5)));
    match &hooks.on_tool_call_callback[1] {
        CallbackRef::ToolLogFile(w) => assert_eq!(w.path, "work/tool.log"),
        _ => panic!("expected the tool log"),
    }
    assert_eq!(hooks.on_tool_result_callback.len(), 1);
    match &hooks.on_tool_result_callback[0] {
        CallbackRef::ToolResultFile(w) => assert_eq!(w.path, "work/tool_result.log"),
        _ => panic!("expected the tool result log"),
    }
    assert!(hooks.on_completion_call_callback.is_empty());
    assert!(hooks.on_completion_response_callback.is_empty());
}

#[test]
fn hooks_for_run_adds_printers_and_keeps_template() {
    let mut template = HandleAgentResponse::new();
    template.add_tool_call_callback(CallbackRef::External(1));
    let a = runtime().with_hooks(template);
    let run_hooks = a.hooks_for_run();
    assert_eq!(run_hooks.on_tool_call_callback.len(), 2);
    assert!(matches!(run_hooks.on_tool_call_callback[1], CallbackRef::PrintToolCall));
    assert_eq!(run_hooks.on_tool_result_callback.len(), 1);
    assert!(matches!(run_hooks.on_tool_result_callback[0], CallbackRef::PrintToolResult));
    let stored = a.hooks.as_ref().expect("template");
    assert_eq!(stored.on_tool_call_callback.len(), 1);
    assert!(stored.on_tool_result_callback.is_empty());
    let again = a.hooks_for_run();
    assert_eq!(again.on_tool_call_callback.len(), 2);
}

#[test]
fn hooks_for_run_without_template() {
    let a = runtime();
    let h = a.hooks_for_run();
    assert_eq!(h.on_tool_call_callback.len(), 1);
    assert_eq!(h.on_tool_result_callback.len(), 1);
    assert!(h.on_completion_call_callback.is_empty());
    assert!(a.hooks.is_none());
    let _ = EventKind::ToolCall;
}

#[test]
fn provider_names_in_any_case() {
    assert!(matches!(ModelProvider::from_name("Anthropic"), Some(ModelProvider::Anthropic)));
    assert!(matches!(ModelProvider::from_name("GEMINI"), Some(ModelProvider::Gemini)));
    assert!(ModelProvider::from_name("openai").is_none());
    assert!(ModelProvider::from_lowered("Gemini").is_none());
    assert!(matches!(ModelProvider::from_lowered("gemini"), Some(ModelProvider::Gemini)));
}

#[test]
fn message_new_keeps_role_and_text() {
    let m = Message::new(MessageRole::Assistant, "ok".to_string());
    assert_eq!(m.role, MessageRole::Assistant);
    assert_eq!(m.message, "ok");
    assert!(m.time_stamp.secs > 0);
}

#[test]
fn db_error_message() {
    assert_eq!(DbError::SqlError("no table".to_string()).message(), "Sql error: no table");
}

#[test]
fn file_store_keeps_path() {
    assert_eq!(FileBasedAgentStore::new("agents.json").path, "agents.json");
}

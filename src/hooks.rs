use vstd::prelude::*;
use crate::message::MessageRole;
use crate::params::Params;
use crate::save::{
    WriteToolLogToFile, WriteToolResultToFile, key_tool_name, key_args, key_result, tool_name_key,
    args_key, result_key,
};

verus! {

/// A lifecycle checkpoint of the engine's reasoning loop.
#[derive(Clone, Copy, Debug, PartialEq, Eq, Structural)]
pub enum EventKind {
    ToolCall,
    ToolResult,
    CompletionCall,
    CompletionResponse,
}

/// A lifecycle notification from the engine, with what it carries.
#[derive(Debug)]
pub enum HookEvent {
    ToolCall { tool_name: String, args: String },
    ToolResult { tool_name: String, args: String, result: String },
    CompletionCall { prompt: String, history_len: usize },
    CompletionResponse { content: String, role: MessageRole },
}

impl HookEvent {
    pub open spec fn kind(&self) -> EventKind {
        match self {
            HookEvent::ToolCall { .. } => EventKind::ToolCall,
            HookEvent::ToolResult { .. } => EventKind::ToolResult,
            HookEvent::CompletionCall { .. } => EventKind::CompletionCall,
            HookEvent::CompletionResponse { .. } => EventKind::CompletionResponse,
        }
    }
}

/// A callback registered for an event: one of the built-in ones, or one
/// that the caller keeps and names by a number.
#[derive(Debug)]
pub enum CallbackRef {
    PrintToolCall,
    PrintToolResult,
    ToolLogFile(WriteToolLogToFile),
    ToolResultFile(WriteToolResultToFile),
    External(u64),
}

impl Clone for CallbackRef {
    fn clone(&self) -> (r: Self)
        ensures
            r == *self,
    {
        match self {
            CallbackRef::PrintToolCall => CallbackRef::PrintToolCall,
            CallbackRef::PrintToolResult => CallbackRef::PrintToolResult,
            CallbackRef::ToolLogFile(w) => CallbackRef::ToolLogFile(w.clone()),
            CallbackRef::ToolResultFile(w) => CallbackRef::ToolResultFile(w.clone()),
            CallbackRef::External(id) => CallbackRef::External(*id),
        }
    }
}

/// One callback to start, with the payload to hand it.
#[derive(Debug)]
pub struct Invocation {
    pub callback: CallbackRef,
    pub params: Params,
}

/// Something went wrong inside a hook callback.
#[derive(Debug, PartialEq, Eq)]
pub enum AgentHookError {
    AgentHookError(String),
}

pub open spec fn hook_error_text(detail: Seq<char>) -> Seq<char> {
    "Agent Hook on tool call error: "@ + detail
}

impl AgentHookError {
    /// The text an operator sees.
    pub fn message(&self) -> (r: String)
        ensures
            self matches AgentHookError::AgentHookError(d) && r@ == hook_error_text(d@),
    {
        match self {
            AgentHookError::AgentHookError(d) => {
                let r = String::from_str("Agent Hook on tool call error: ").concat(d.as_str());
                r
            },
        }
    }
}

/// The operator-visible reports of a dispatch's outcomes: one for each
/// callback that failed, in order; callbacks that finished add nothing.
pub open spec fn reports_of(outcomes: Seq<Result<(), AgentHookError>>) -> Seq<Seq<char>>
    decreases outcomes.len(),
{
    if outcomes.len() == 0 {
        Seq::empty()
    } else {
        reports_of(outcomes.drop_last()) + match outcomes.last() {
            Ok(()) => Seq::empty(),
            Err(AgentHookError::AgentHookError(d)) => seq![hook_error_text(d@)],
        }
    }
}

/// Settles a dispatch once every callback has finished: the failures become
/// reports for the operator and go no further.
pub fn failure_reports(outcomes: &Vec<Result<(), AgentHookError>>) -> (r: Vec<String>)
    ensures
        r@.map_values(|x: String| x@) == reports_of(outcomes@),
{
    let mut r: Vec<String> = Vec::new();
    let mut i: usize = 0;
    while i < outcomes.len()
        invariant
            i <= outcomes@.len(),
            r@.map_values(|x: String| x@) == reports_of(outcomes@.subrange(0, i as int)),
        decreases outcomes@.len() - i,
    {
        let ghost before = r@;
        proof {
            assert(outcomes@.subrange(0, i + 1).drop_last() =~= outcomes@.subrange(0, i as int));
        }
        match &outcomes[i] {
            Ok(()) => {
                assert(r@.map_values(|x: String| x@) + Seq::<Seq<char>>::empty() =~= r@.map_values(
                    |x: String| x@,
                ));
            },
            Err(e) => {
                let m = e.message();
                r.push(m);
                assert(r@.map_values(|x: String| x@) =~= before.map_values(|x: String| x@) + seq![
                    m@,
                ]);
            },
        }
        i = i + 1;
    }
    assert(outcomes@.subrange(0, outcomes@.len() as int) =~= outcomes@);
    r
}

/// The digit that stands for `d`.
pub open spec fn digit(d: nat) -> char {
    if d == 0 { '0' }
    else if d == 1 { '1' }
    else if d == 2 { '2' }
    else if d == 3 { '3' }
    else if d == 4 { '4' }
    else if d == 5 { '5' }
    else if d == 6 { '6' }
    else if d == 7 { '7' }
    else if d == 8 { '8' }
    else { '9' }
}

/// `n` written in decimal, without leading zeros.
pub open spec fn decimal(n: nat) -> Seq<char>
    decreases n,
{
    if n < 10 {
        seq![digit(n)]
    } else {
        decimal(n / 10).push(digit(n % 10))
    }
}

fn digit_text(d: usize) -> (r: &'static str)
    requires
        d < 10,
    ensures
        r@ == seq![digit(d as nat)],
{
    proof {
        reveal_strlit("0");
        reveal_strlit("1");
        reveal_strlit("2");
        reveal_strlit("3");
        reveal_strlit("4");
        reveal_strlit("5");
        reveal_strlit("6");
        reveal_strlit("7");
        reveal_strlit("8");
        reveal_strlit("9");
    }
    let r = if d == 0 { "0" }
    else if d == 1 { "1" }
    else if d == 2 { "2" }
    else if d == 3 { "3" }
    else if d == 4 { "4" }
    else if d == 5 { "5" }
    else if d == 6 { "6" }
    else if d == 7 { "7" }
    else if d == 8 { "8" }
    else { "9" };
    assert(r@ =~= seq![digit(d as nat)]);
    r
}

/// `n` written in decimal.
pub fn decimal_text(n: usize) -> (r: String)
    ensures
        r@ == decimal(n as nat),
    decreases n,
{
    if n < 10 {
        String::from_str(digit_text(n))
    } else {
        let mut s = decimal_text(n / 10);
        s.append(digit_text(n % 10));
        s
    }
}

/// The name under which a role is written.
pub open spec fn role_name(role: MessageRole) -> Seq<char> {
    match role {
        MessageRole::User => "User"@,
        MessageRole::Assistant => "Assistant"@,
    }
}

pub fn role_text(role: MessageRole) -> (r: String)
    ensures
        r@ == role_name(role),
{
    match role {
        MessageRole::User => String::from_str("User"),
        MessageRole::Assistant => String::from_str("Assistant"),
    }
}

pub open spec fn key_prompt() -> Seq<char> {
    "prompt"@
}

pub open spec fn key_history_len() -> Seq<char> {
    "history_len"@
}

pub open spec fn key_content() -> Seq<char> {
    "content"@
}

pub open spec fn key_role() -> Seq<char> {
    "role"@
}

/// The payload that the callbacks of an event receive.
pub open spec fn payload(e: HookEvent) -> Seq<(Seq<char>, Seq<char>)> {
    match e {
        HookEvent::ToolCall { tool_name, args } => seq![
            (key_tool_name(), tool_name@),
            (key_args(), args@),
        ],
        HookEvent::ToolResult { tool_name, args, result } => seq![
            (key_tool_name(), tool_name@),
            (key_args(), args@),
            (key_result(), result@),
        ],
        HookEvent::CompletionCall { prompt, history_len } => seq![
            (key_prompt(), prompt@),
            (key_history_len(), decimal(history_len as nat)),
        ],
        HookEvent::CompletionResponse { content, role } => seq![
            (key_content(), content@),
            (key_role(), role_name(role)),
        ],
    }
}

impl HookEvent {
    /// The payload that the callbacks of this event receive.
    pub fn payload(&self) -> (r: Params)
        ensures
            r@ == payload(*self),
    {
        match self {
            HookEvent::ToolCall { tool_name, args } => {
                let mut p = Params::single(tool_name_key(), tool_name.clone());
                p.push(args_key(), args.clone());
                p
            },
            HookEvent::ToolResult { tool_name, args, result } => {
                let mut p = Params::single(tool_name_key(), tool_name.clone());
                p.push(args_key(), args.clone());
                p.push(result_key(), result.clone());
                p
            },
            HookEvent::CompletionCall { prompt, history_len } => {
                let mut p = Params::single("prompt", prompt.clone());
                p.push("history_len", decimal_text(*history_len));
                p
            },
            HookEvent::CompletionResponse { content, role } => {
                let mut p = Params::single("content", content.clone());
                p.push("role", role_text(*role));
                p
            },
        }
    }
}


/// Copies of the callbacks, in the same order.
fn copy_callbacks(v: &Vec<CallbackRef>) -> (r: Vec<CallbackRef>)
    ensures
        r@ == v@,
{
    let mut r: Vec<CallbackRef> = Vec::new();
    let mut i: usize = 0;
    while i < v.len()
        invariant
            i <= v@.len(),
            r@ == v@.subrange(0, i as int),
        decreases v@.len() - i,
    {
        r.push(v[i].clone());
        i = i + 1;
    }
    assert(r@ =~= v@);
    r
}

/// The set of hooks handed to the engine: for each kind of event, the
/// callbacks registered for it, in registration order.
#[derive(Debug)]
pub struct HandleAgentResponse {
    pub on_tool_call_callback: Vec<CallbackRef>,
    pub on_tool_result_callback: Vec<CallbackRef>,
    pub on_completion_call_callback: Vec<CallbackRef>,
    pub on_completion_response_callback: Vec<CallbackRef>,
}

/// The hook set as the engine's configuration calls it.
pub type LlmResponseHooks = HandleAgentResponse;

impl Clone for HandleAgentResponse {
    fn clone(&self) -> (r: Self)
        ensures
            forall|k: EventKind| #[trigger] r.registered(k) == self.registered(k),
    {
        HandleAgentResponse {
            on_tool_call_callback: copy_callbacks(&self.on_tool_call_callback),
            on_tool_result_callback: copy_callbacks(&self.on_tool_result_callback),
            on_completion_call_callback: copy_callbacks(&self.on_completion_call_callback),
            on_completion_response_callback: copy_callbacks(&self.on_completion_response_callback),
        }
    }
}

impl HandleAgentResponse {
    /// The callbacks registered for events of `kind`.
    pub open spec fn registered(&self, kind: EventKind) -> Seq<CallbackRef> {
        match kind {
            EventKind::ToolCall => self.on_tool_call_callback@,
            EventKind::ToolResult => self.on_tool_result_callback@,
            EventKind::CompletionCall => self.on_completion_call_callback@,
            EventKind::CompletionResponse => self.on_completion_response_callback@,
        }
    }

    /// `self` with `cb` registered last for events of `kind`, and nothing
    /// else changed.
    pub open spec fn registers(self, other: Self, kind: EventKind, cb: CallbackRef) -> bool {
        forall|k: EventKind|
            #[trigger] other.registered(k) == if k == kind {
                self.registered(k).push(cb)
            } else {
                self.registered(k)
            }
    }

    /// A hook set with no callback.
    pub fn new() -> (r: Self)
        ensures
            forall|k: EventKind| #[trigger] r.registered(k).len() == 0,
    {
        HandleAgentResponse {
            on_tool_call_callback: Vec::new(),
            on_tool_result_callback: Vec::new(),
            on_completion_call_callback: Vec::new(),
            on_completion_response_callback: Vec::new(),
        }
    }

    /// Registers `callback` last for events of `kind`.
    pub fn add_event_callback(&mut self, kind: EventKind, callback: CallbackRef)
        ensures
            old(self).registers(*final(self), kind, callback),
    {
        match kind {
            EventKind::ToolCall => self.on_tool_call_callback.push(callback),
            EventKind::ToolResult => self.on_tool_result_callback.push(callback),
            EventKind::CompletionCall => self.on_completion_call_callback.push(callback),
            EventKind::CompletionResponse => self.on_completion_response_callback.push(callback),
        }
    }

    /// Registers `callback` for completion responses.
    pub fn add_callback(&mut self, callback: CallbackRef)
        ensures
            old(self).registers(*final(self), EventKind::CompletionResponse, callback),
    {
        self.add_event_callback(EventKind::CompletionResponse, callback);
    }

    /// Registers `callback` for tool calls.
    pub fn add_tool_call_callback(&mut self, callback: CallbackRef)
        ensures
            old(self).registers(*final(self), EventKind::ToolCall, callback),
    {
        self.add_event_callback(EventKind::ToolCall, callback);
    }

    /// Registers `callback` for tool results.
    pub fn add_tool_call_result_callback(&mut self, callback: CallbackRef)
        ensures
            old(self).registers(*final(self), EventKind::ToolResult, callback),
    {
        self.add_event_callback(EventKind::ToolResult, callback);
    }

    /// Registers `callback` for completion calls.
    pub fn add_completion_call_callback(&mut self, callback: CallbackRef)
        ensures
            old(self).registers(*final(self), EventKind::CompletionCall, callback),
    {
        self.add_event_callback(EventKind::CompletionCall, callback);
    }

    /// Registers `callback` for completion responses.
    pub fn add_completion_response_callback(&mut self, callback: CallbackRef)
        ensures
            old(self).registers(*final(self), EventKind::CompletionResponse, callback),
    {
        self.add_event_callback(EventKind::CompletionResponse, callback);
    }

    /// The callbacks to start for an event of `kind`, all with a copy of
    /// `params`: every registered one, once each, in registration order.
    pub fn invocations(&self, kind: EventKind, params: &Params) -> (r: Vec<Invocation>)
        ensures
            r@.len() == self.registered(kind).len(),
            forall|i: int|
                0 <= i < r@.len() ==> #[trigger] r@[i].callback == self.registered(kind)[i]
                    && r@[i].params@ == params@,
    {
        let list = match kind {
            EventKind::ToolCall => &self.on_tool_call_callback,
            EventKind::ToolResult => &self.on_tool_result_callback,
            EventKind::CompletionCall => &self.on_completion_call_callback,
            EventKind::CompletionResponse => &self.on_completion_response_callback,
        };
        let mut r: Vec<Invocation> = Vec::new();
        let mut i: usize = 0;
        while i < list.len()
            invariant
                list@ == self.registered(kind),
                i <= list@.len(),
                r@.len() == i,
                forall|j: int|
                    0 <= j < i ==> #[trigger] r@[j].callback == list@[j] && r@[j].params@
                        == params@,
            decreases list@.len() - i,
        {
            r.push(Invocation { callback: list[i].clone(), params: params.clone() });
            i = i + 1;
        }
        r
    }

    /// The tool-call callbacks, each to be started with a copy of `params`.
    pub fn call_callbacks(&self, params: &Params) -> (r: Vec<Invocation>)
        ensures
            r@.len() == self.registered(EventKind::ToolCall).len(),
            forall|i: int|
                0 <= i < r@.len() ==> #[trigger] r@[i].callback == self.registered(
                    EventKind::ToolCall,
                )[i] && r@[i].params@ == params@,
    {
        self.invocations(EventKind::ToolCall, params)
    }

    /// Fans `event` out: every callback registered for its kind, once each,
    /// in registration order, with the event's payload. The caller starts
    /// them all together and waits for all of them; the outcome of one has
    /// no bearing on the others.
    pub fn dispatch(&self, event: &HookEvent) -> (r: Vec<Invocation>)
        ensures
            r@.len() == self.registered(event.kind()).len(),
            forall|i: int|
                0 <= i < r@.len() ==> #[trigger] r@[i].callback == self.registered(event.kind())[i]
                    && r@[i].params@ == payload(*event),
    {
        let kind = match event {
            HookEvent::ToolCall { .. } => EventKind::ToolCall,
            HookEvent::ToolResult { .. } => EventKind::ToolResult,
            HookEvent::CompletionCall { .. } => EventKind::CompletionCall,
            HookEvent::CompletionResponse { .. } => EventKind::CompletionResponse,
        };
        let params = event.payload();
        self.invocations(kind, &params)
    }

    /// The hooks of one run: these, with the console printers added last for
    /// tool calls and tool results. `self` stays as it is.
    pub fn with_run_logging(&self) -> (r: Self)
        ensures
            forall|k: EventKind| #[trigger] r.registered(k) == if k == EventKind::ToolCall {
                self.registered(k).push(CallbackRef::PrintToolCall)
            } else if k == EventKind::ToolResult {
                self.registered(k).push(CallbackRef::PrintToolResult)
            } else {
                self.registered(k)
            },
    {
        let mut r = self.clone();
        r.add_tool_call_callback(CallbackRef::PrintToolCall);
        r.add_tool_call_result_callback(CallbackRef::PrintToolResult);
        r
    }
}

} // verus!

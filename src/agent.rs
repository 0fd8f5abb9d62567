use vstd::prelude::*;
use crate::message::{Message, MessageRole, copy_messages, entry};
use crate::handlers::{FileHandler, HandlerRef, Notification, notifications};
use crate::hooks::{CallbackRef, EventKind, HandleAgentResponse};
use crate::save::{WriteToolLogToFile, WriteToolResultToFile, has_dot};

verus! {

/// The model provider that answers the engine's completion requests.
#[derive(Debug)]
pub enum ModelProvider {
    Anthropic,
    Gemini,
    OpenRouter(String),
}

impl Clone for ModelProvider {
    fn clone(&self) -> (r: Self)
        ensures
            r == *self,
    {
        match self {
            ModelProvider::Anthropic => ModelProvider::Anthropic,
            ModelProvider::Gemini => ModelProvider::Gemini,
            ModelProvider::OpenRouter(m) => ModelProvider::OpenRouter(m.clone()),
        }
    }
}

/// What str::to_lowercase makes of a text.
pub uninterp spec fn lower_of(s: Seq<char>) -> Seq<char>;

/// Relies on str::to_lowercase: the lowercase mapping of each character, so
/// the result depends on the characters alone.
#[verifier::external_body]
fn lowercase(s: &str) -> (r: String)
    ensures
        r@ == lower_of(s@),
{
    s.to_lowercase()
}

/// The provider that a lowercase name stands for.
pub open spec fn provider_named(lowered: Seq<char>) -> Option<ModelProvider> {
    if lowered == "anthropic"@ {
        Some(ModelProvider::Anthropic)
    } else if lowered == "gemini"@ {
        Some(ModelProvider::Gemini)
    } else {
        None
    }
}

impl ModelProvider {
    /// The provider that an already lowercased name stands for.
    pub fn from_lowered(lowered: &str) -> (r: Option<ModelProvider>)
        ensures
            r == provider_named(lowered@),
    {
        let l = lowered.to_owned();
        if l == String::from_str("anthropic") {
            Some(ModelProvider::Anthropic)
        } else if l == String::from_str("gemini") {
            Some(ModelProvider::Gemini)
        } else {
            None
        }
    }

    /// The provider that `name` stands for, in any case: `anthropic` or
    /// `gemini`.
    pub fn from_name(name: &str) -> (r: Option<ModelProvider>)
        ensures
            r == provider_named(lower_of(name@)),
    {
        let lowered = lowercase(name);
        ModelProvider::from_lowered(lowered.as_str())
    }
}

/// The system instruction given to the engine for `task`, dated `date`.
pub open spec fn preamble_text(task: Seq<char>, date: Seq<char>) -> Seq<char> {
    "\n# Goal:\nYou are an assistant here to help the user accomplish the following task: \n"@
        + task
        + "\nYou have access to some tools that can help you with with performing your goal\nSelect the tool is most appropriate to perform the task specified by the user.\nFollow these instructions closely.\n1. Consider the user's request carefully and identify the core elements of the request.\n2. Select which tool among those made available to you is appropriate given the context.\n3. This is very important: never perform the operation yourself.\n\n# Context: \nTodays date is: "@
        + date
}

/// The system instruction given to the engine for `task`, dated `date`.
pub fn preamble(task: &str, date: &str) -> (r: String)
    ensures
        r@ == preamble_text(task@, date@),
{
    String::from_str(
        "\n# Goal:\nYou are an assistant here to help the user accomplish the following task: \n",
    ).concat(task).concat(
        "\nYou have access to some tools that can help you with with performing your goal\nSelect the tool is most appropriate to perform the task specified by the user.\nFollow these instructions closely.\n1. Consider the user's request carefully and identify the core elements of the request.\n2. Select which tool among those made available to you is appropriate given the context.\n3. This is very important: never perform the operation yourself.\n\n# Context: \nTodays date is: ",
    ).concat(date)
}

/// Relies on chrono::Utc::now, carried into chrono-tz's America::Toronto and
/// written by chrono's Display: the date and time now in Toronto. Nothing
/// about it can be promised.
#[verifier::external_body]
fn toronto_now_text() -> (r: String) {
    chrono::Utc::now().with_timezone(&chrono_tz::America::Toronto).to_string()
}

/// The engine failed: its message, carried to the caller of a run.
#[derive(Debug, PartialEq, Eq)]
pub enum RunError {
    EngineFailed(String),
}

pub open spec fn run_error_text(detail: Seq<char>) -> Seq<char> {
    "Agent run failed: "@ + detail
}

impl RunError {
    /// The text the caller sees.
    pub fn message(&self) -> (r: String)
        ensures
            self matches RunError::EngineFailed(d) && r@ == run_error_text(d@),
    {
        match self {
            RunError::EngineFailed(d) => String::from_str("Agent run failed: ").concat(d.as_str()),
        }
    }
}

/// What a run ends with: its result for the caller, and the handlers to run
/// for the messages it recorded, in order.
#[derive(Debug)]
pub struct RunStep {
    pub result: Result<String, RunError>,
    pub notifications: Vec<Notification>,
}

/// The callbacks of an optional hook set for events of `kind`.
pub open spec fn hooks_registered(h: Option<HandleAgentResponse>, kind: EventKind) -> Seq<
    CallbackRef,
> {
    match h {
        Some(h) => h.registered(kind),
        None => Seq::empty(),
    }
}

/// The path of a file named `file` in the directory `dir`.
pub open spec fn in_dir(dir: Seq<char>, file: Seq<char>) -> Seq<char> {
    dir + "/"@ + file
}

fn path_in_dir(dir: &str, file: &str) -> (r: String)
    ensures
        r@ == in_dir(dir@, file@),
{
    dir.to_owned().concat("/").concat(file)
}

/// The agent runtime: one conversation's history, the handlers that persist
/// it, the hooks handed to the engine, and how the engine is configured.
/// The engine itself is driven by the caller: it asks the runtime what to
/// hand over, runs the engine, and gives the outcome back.
#[derive(Debug)]
pub struct NememboryAgent {
    pub messages: Vec<Message>,
    pub message_handlers: Vec<HandlerRef>,
    pub name: String,
    pub task: String,
    pub model: ModelProvider,
    pub preamble: String,
    pub working_dir: Option<String>,
    pub has_working_dir: bool,
    pub hooks: Option<HandleAgentResponse>,
}

impl NememboryAgent {
    /// What the history says: each message's role and text, oldest first.
    pub open spec fn history(&self) -> Seq<(MessageRole, Seq<char>)> {
        self.messages@.map_values(|m: Message| entry(m))
    }

    /// The directory that the default handlers and hooks write beneath, when
    /// one is configured.
    pub open spec fn configured_dir(&self) -> Option<Seq<char>> {
        if self.has_working_dir {
            match self.working_dir {
                Some(d) => Some(d@),
                None => None,
            }
        } else {
            None
        }
    }

    /// A runtime with an empty history, no handler, no hook and no working
    /// directory, whose engine is to be given `task` under today's date.
    pub fn new(name: &str, task: String, model: ModelProvider) -> (r: Self)
        ensures
            r.messages@.len() == 0,
            r.message_handlers@.len() == 0,
            r.name@ == name@,
            r.task == task,
            r.model == model,
            exists|date: Seq<char>| r.preamble@ == preamble_text(task@, date),
            r.working_dir is None,
            !r.has_working_dir,
            r.hooks is None,
    {
        let date = toronto_now_text();
        let preamble = preamble(task.as_str(), date.as_str());
        NememboryAgent {
            messages: Vec::new(),
            message_handlers: Vec::new(),
            name: name.to_owned(),
            task,
            model,
            preamble,
            working_dir: None,
            has_working_dir: false,
            hooks: None,
        }
    }

    /// Declares `working_dir` the runtime's working directory. The caller
    /// creates the directory on disk and stops if it cannot.
    pub fn create_working_directory(self, working_dir: &str) -> (r: Self)
        ensures
            r == (NememboryAgent { working_dir: r.working_dir, has_working_dir: true, ..self }),
            r.working_dir matches Some(d) && d@ == working_dir@,
    {
        NememboryAgent {
            working_dir: Some(working_dir.to_owned()),
            has_working_dir: true,
            ..self
        }
    }

    /// Replaces the handlers.
    pub fn with_handlers(self, handlers: Vec<HandlerRef>) -> (r: Self)
        ensures
            r == (NememboryAgent { message_handlers: handlers, ..self }),
    {
        NememboryAgent { message_handlers: handlers, ..self }
    }

    /// Replaces the hooks.
    pub fn with_hooks(self, hooks: HandleAgentResponse) -> (r: Self)
        ensures
            r == (NememboryAgent { hooks: Some(hooks), ..self }),
    {
        NememboryAgent { hooks: Some(hooks), ..self }
    }

    /// Adds the transcript `chat.log` in the working directory to the
    /// handlers; without a working directory, changes nothing.
    pub fn default_handlers(self) -> (r: Self)
        ensures
            self.configured_dir() is None ==> r == self,
            self.configured_dir() matches Some(d) ==> {
                &&& r == (NememboryAgent { message_handlers: r.message_handlers, ..self })
                &&& r.message_handlers@.len() == self.message_handlers@.len() + 1
                &&& r.message_handlers@.subrange(0, self.message_handlers@.len() as int)
                    == self.message_handlers@
                &&& r.message_handlers@.last() matches HandlerRef::Transcript(h)
                &&& h.file_path@ == in_dir(d, "chat.log"@)
            },
    {
        let mut agent = self;
        if agent.has_working_dir {
            match &agent.working_dir {
                Some(dir) => {
                    let path = path_in_dir(dir.as_str(), "chat.log");
                    agent.message_handlers.push(HandlerRef::Transcript(FileHandler::new(path)));
                    assert(agent.message_handlers@.subrange(0, self.message_handlers@.len() as int)
                        =~= self.message_handlers@);
                },
                None => {},
            }
        }
        agent
    }

    /// Adds the durable logs `tool.log` and `tool_result.log` in the working
    /// directory to the hooks, for tool calls and tool results; without a
    /// working directory, changes nothing.
    pub fn default_hooks(self) -> (r: Self)
        ensures
            self.configured_dir() is None ==> r == self,
            self.configured_dir() matches Some(d) ==> {
                &&& r == (NememboryAgent { hooks: r.hooks, ..self })
                &&& r.hooks is Some
                &&& forall|k: EventKind|
                    k != EventKind::ToolCall && k != EventKind::ToolResult ==> #[trigger]
                    hooks_registered(r.hooks, k) == hooks_registered(self.hooks, k)
                &&& hooks_registered(r.hooks, EventKind::ToolCall).len() == hooks_registered(
                    self.hooks,
                    EventKind::ToolCall,
                ).len() + 1
                &&& hooks_registered(r.hooks, EventKind::ToolCall).drop_last() == hooks_registered(
                    self.hooks,
                    EventKind::ToolCall,
                )
                &&& hooks_registered(r.hooks, EventKind::ToolCall).last() matches CallbackRef::ToolLogFile(w)
                &&& w.path@ == in_dir(d, "tool.log"@)
                &&& hooks_registered(r.hooks, EventKind::ToolResult).len() == hooks_registered(
                    self.hooks,
                    EventKind::ToolResult,
                ).len() + 1
                &&& hooks_registered(r.hooks, EventKind::ToolResult).drop_last()
                    == hooks_registered(self.hooks, EventKind::ToolResult)
                &&& hooks_registered(r.hooks, EventKind::ToolResult).last() matches CallbackRef::ToolResultFile(w)
                &&& w.path@ == in_dir(d, "tool_result.log"@)
            },
    {
        let mut agent = self;
        if agent.has_working_dir {
            match &agent.working_dir {
                Some(dir) => {
                    let path = path_in_dir(dir.as_str(), "tool.log");
                    let result_path = path_in_dir(dir.as_str(), "tool_result.log");
                    proof {
                        reveal_strlit("/");
                        reveal_strlit("tool.log");
                        reveal_strlit("tool_result.log");
                        assert(path@[dir@.len() as int + 5] == '.');
                        assert(has_dot(path@));
                        assert(result_path@[dir@.len() as int + 12] == '.');
                        assert(has_dot(result_path@));
                    }
                    let file_handler = WriteToolLogToFile::new(path.as_str());
                    let result_file_handler = WriteToolResultToFile::new(result_path.as_str());
                    let mut hooks = match agent.hooks {
                        Some(h) => h,
                        None => HandleAgentResponse::new(),
                    };
                    hooks.add_tool_call_callback(CallbackRef::ToolLogFile(file_handler));
                    hooks.add_tool_call_result_callback(
                        CallbackRef::ToolResultFile(result_file_handler),
                    );
                    agent.hooks = Some(hooks);
                    assert(hooks_registered(agent.hooks, EventKind::ToolCall).drop_last()
                        =~= hooks_registered(self.hooks, EventKind::ToolCall));
                    assert(hooks_registered(agent.hooks, EventKind::ToolResult).drop_last()
                        =~= hooks_registered(self.hooks, EventKind::ToolResult));
                },
                None => {},
            }
        }
        agent
    }

    /// A copy of the history, oldest first, to hand to the engine: the
    /// engine works on the copy, never on the runtime's own record.
    pub fn history_for_engine(&self) -> (r: Vec<Message>)
        ensures
            r@ == self.messages@,
    {
        copy_messages(&self.messages)
    }

    /// The hooks of one run: the configured ones (none, if none are), with
    /// the console printers added for tool calls and tool results. The
    /// configured hooks stay as they are.
    pub fn hooks_for_run(&self) -> (r: HandleAgentResponse)
        ensures
            forall|k: EventKind| #[trigger] r.registered(k) == if k == EventKind::ToolCall {
                hooks_registered(self.hooks, k).push(CallbackRef::PrintToolCall)
            } else if k == EventKind::ToolResult {
                hooks_registered(self.hooks, k).push(CallbackRef::PrintToolResult)
            } else {
                hooks_registered(self.hooks, k)
            },
    {
        match &self.hooks {
            Some(h) => h.with_run_logging(),
            None => HandleAgentResponse::new().with_run_logging(),
        }
    }

    /// Appends `message` to the history and returns the handlers to run for
    /// it: each registered one, in registration order, with its own copy.
    pub fn add_message(&mut self, message: Message) -> (r: Vec<Notification>)
        ensures
            *final(self) == (NememboryAgent { messages: final(self).messages, ..*old(self) }),
            final(self).messages@ == old(self).messages@.push(message),
            r@.len() == old(self).message_handlers@.len(),
            forall|i: int|
                0 <= i < r@.len() ==> #[trigger] r@[i].handler == old(self).message_handlers@[i]
                    && r@[i].message == message,
    {
        let r = notifications(&self.message_handlers, &message);
        self.messages.push(message);
        r
    }

    /// Ends a run with the engine's outcome. On success the prompt and then
    /// the answer are appended to the history, the answer is returned, and
    /// the handlers are to run for each of the two messages; on failure
    /// nothing changes and the engine's message comes back as the error.
    pub fn finish_run(&mut self, prompt: &str, outcome: Result<String, String>) -> (r: RunStep)
        ensures
            outcome is Err ==> *final(self) == *old(self),
            outcome matches Err(e) ==> r.result == Err::<String, RunError>(RunError::EngineFailed(e)),
            outcome is Err ==> r.notifications@.len() == 0,
            outcome matches Ok(answer) ==> {
                &&& *final(self) == (NememboryAgent { messages: final(self).messages, ..*old(self) })
                &&& final(self).history() == old(self).history() + seq![
                    (MessageRole::User, prompt@),
                    (MessageRole::Assistant, answer@),
                ]
                &&& r.result == Ok::<String, RunError>(answer)
                &&& r.notifications@.len() == 2 * old(self).message_handlers@.len()
                &&& forall|i: int|
                    0 <= i < old(self).message_handlers@.len() ==> {
                        &&& #[trigger] r.notifications@[i].handler == old(self).message_handlers@[i]
                        &&& entry(r.notifications@[i].message) == (MessageRole::User, prompt@)
                        &&& r.notifications@[i + old(self).message_handlers@.len()].handler
                            == old(self).message_handlers@[i]
                        &&& entry(r.notifications@[i + old(self).message_handlers@.len()].message)
                            == (MessageRole::Assistant, answer@)
                    }
            },
    {
        match outcome {
            Ok(answer) => {
                let user = Message::new(MessageRole::User, prompt.to_owned());
                let assistant = Message::new(MessageRole::Assistant, answer.clone());
                let mut first = self.add_message(user);
                let mut second = self.add_message(assistant);
                let ghost a = first@;
                let ghost b = second@;
                first.append(&mut second);
                assert(first@ == a + b);
                assert(self.history() =~= old(self).history() + seq![
                    (MessageRole::User, prompt@),
                    (MessageRole::Assistant, answer@),
                ]);
                RunStep { result: Ok(answer), notifications: first }
            },
            Err(e) => RunStep { result: Err(RunError::EngineFailed(e)), notifications: Vec::new() },
        }
    }
}

/// The history that a run of exchanges adds: for each (prompt, answer) in
/// turn, the prompt as a user message and then the answer as an assistant
/// message.
pub open spec fn exchanges(ex: Seq<(Seq<char>, Seq<char>)>) -> Seq<(MessageRole, Seq<char>)>
    decreases ex.len(),
{
    if ex.len() == 0 {
        Seq::empty()
    } else {
        exchanges(ex.drop_last()) + seq![
            (MessageRole::User, ex.last().0),
            (MessageRole::Assistant, ex.last().1),
        ]
    }
}

proof fn lemma_exchanges_shape(ex: Seq<(Seq<char>, Seq<char>)>)
    ensures
        exchanges(ex).len() == 2 * ex.len(),
        forall|i: int|
            #![trigger ex[i]]
            0 <= i < ex.len() ==> exchanges(ex)[2 * i] == (MessageRole::User, ex[i].0)
                && exchanges(ex)[2 * i + 1] == (MessageRole::Assistant, ex[i].1),
    decreases ex.len(),
{
    if ex.len() > 0 {
        let p = ex.drop_last();
        lemma_exchanges_shape(p);
        let e = exchanges(ex);
        let ep = exchanges(p);
        assert(e == ep + seq![
            (MessageRole::User, ex.last().0),
            (MessageRole::Assistant, ex.last().1),
        ]);
        assert forall|i: int| #![trigger ex[i]] 0 <= i < ex.len() implies e[2 * i] == (
            MessageRole::User,
            ex[i].0,
        ) && e[2 * i + 1] == (MessageRole::Assistant, ex[i].1) by {
            if i < p.len() {
                assert(ep[2 * i] == (MessageRole::User, p[i].0)) by { assert(p[i] == p[i]); }
                assert(p[i] == ex[i]);
            } else {
                assert(ex[i] == ex.last());
            }
        }
    }
}

/// N successful runs, each recorded by `finish_run` (`histories[k + 1]` is
/// `histories[k]` with the k-th prompt and answer appended), starting from an
/// empty history, leave exactly 2N messages: in call order, a user prompt and
/// then its answer for each run.
pub proof fn lemma_successful_runs(
    histories: Seq<Seq<(MessageRole, Seq<char>)>>,
    ex: Seq<(Seq<char>, Seq<char>)>,
)
    requires
        histories.len() == ex.len() + 1,
        histories[0].len() == 0,
        forall|k: int|
            0 <= k < ex.len() ==> #[trigger] histories[k + 1] == histories[k] + seq![
                (MessageRole::User, ex[k].0),
                (MessageRole::Assistant, ex[k].1),
            ],
    ensures
        histories.last() == exchanges(ex),
        histories.last().len() == 2 * ex.len(),
        forall|i: int|
            #![trigger ex[i]]
            0 <= i < ex.len() ==> histories.last()[2 * i] == (MessageRole::User, ex[i].0)
                && histories.last()[2 * i + 1] == (MessageRole::Assistant, ex[i].1),
    decreases ex.len(),
{
    if ex.len() == 0 {
        assert(histories.last() =~= exchanges(ex));
    } else {
        let n = ex.len() - 1;
        let hs = histories.drop_last();
        let p = ex.drop_last();
        assert forall|k: int| 0 <= k < p.len() implies #[trigger] hs[k + 1] == hs[k] + seq![
            (MessageRole::User, p[k].0),
            (MessageRole::Assistant, p[k].1),
        ] by {
            assert(histories[k + 1] == histories[k] + seq![
                (MessageRole::User, ex[k].0),
                (MessageRole::Assistant, ex[k].1),
            ]);
        }
        lemma_successful_runs(hs, p);
        assert(histories[n + 1] == histories[n] + seq![
            (MessageRole::User, ex[n].0),
            (MessageRole::Assistant, ex[n].1),
        ]);
    }
    lemma_exchanges_shape(ex);
}

/// Asking for the default handlers before a working directory is declared
/// adds no handler, and declaring the directory afterwards adds none either:
/// the handlers are those the runtime had.
pub proof fn lemma_default_handlers_need_directory(
    a: NememboryAgent,
    b: NememboryAgent,
    c: NememboryAgent,
    dir: Seq<char>,
)
    requires
        a.configured_dir() is None,
        a.configured_dir() is None ==> b == a,
        c == (NememboryAgent { working_dir: c.working_dir, has_working_dir: true, ..b }),
        c.working_dir matches Some(d) && d@ == dir,
    ensures
        c.message_handlers == a.message_handlers,
        c.configured_dir() == Some(dir),
{
}

} // verus!

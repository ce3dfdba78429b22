//! One run of the plugin, as a state machine.
//!
//! The plugin reads its invocation from the host, asks git for the staged
//! diff, asks the host's model service for a message, shows it, commits when
//! told to (by `--apply` or by the user's answer), records an audit entry and
//! reports its result to the host. Every decision of that run is taken here,
//! by `Session::step`, from the current phase and the outcome of the last
//! action; the program around the library performs each `Action` and hands
//! back the `Event` it produced.
use vstd::prelude::*;

use crate::message::{
    build_messages, law_postprocess_clean, postprocess, postprocess_text, system_prompt, user_prompt,
};
use crate::protocol::{MessageView, WireMessage};
use crate::text::{
    debug_quoted, has_fence, is_blank, is_blank_text, is_trimmed, lowercase, opt_text, quote_debug,
    same_text, text_result, to_lowercase, trim, trimmed, unit_result,
};

verus! {

/// Token counts the model service reported, when it reported them.
#[derive(Clone, Copy, Debug, PartialEq, Eq)]
pub struct Usage {
    pub prompt_tokens: Option<u64>,
    pub completion_tokens: Option<u64>,
}

/// What the host's invoke frame carries that the plugin uses: the working
/// directory, the arguments, and the `style`, `language` and `model` entries
/// of its configuration when they are strings.
pub struct Invocation {
    pub cwd: String,
    pub args: Vec<String>,
    pub style: Option<String>,
    pub language: Option<String>,
    pub model: Option<String>,
}

pub struct InvocationView {
    pub cwd: Seq<char>,
    pub args: Seq<Seq<char>>,
    pub style: Option<Seq<char>>,
    pub language: Option<Seq<char>>,
    pub model: Option<Seq<char>>,
}

pub open spec fn or_default(o: Option<Seq<char>>, default: Seq<char>) -> Seq<char> {
    match o {
        Some(s) => s,
        None => default,
    }
}

impl View for Invocation {
    type V = InvocationView;

    open spec fn view(&self) -> InvocationView {
        InvocationView {
            cwd: self.cwd@,
            args: self.args@.map_values(|a: String| a@),
            style: opt_text(self.style),
            language: opt_text(self.language),
            model: opt_text(self.model),
        }
    }
}

/// The settings of a run, resolved from its invocation.
pub struct Settings {
    pub cwd: String,
    pub apply: bool,
    pub signoff: bool,
    pub style: String,
    pub language: String,
    pub model: String,
}

pub struct SettingsView {
    pub cwd: Seq<char>,
    pub apply: bool,
    pub signoff: bool,
    pub style: Seq<char>,
    pub language: Seq<char>,
    pub model: Seq<char>,
}

impl View for Settings {
    type V = SettingsView;

    open spec fn view(&self) -> SettingsView {
        SettingsView {
            cwd: self.cwd@,
            apply: self.apply,
            signoff: self.signoff,
            style: self.style@,
            language: self.language@,
            model: self.model@,
        }
    }
}

/// `--apply` and `--signoff` are flags among the arguments; the style,
/// language and model default to `conventional`, `en` and `default`.
pub open spec fn settings_of_spec(inv: InvocationView) -> SettingsView {
    SettingsView {
        cwd: inv.cwd,
        apply: inv.args.contains("--apply"@),
        signoff: inv.args.contains("--signoff"@),
        style: or_default(inv.style, "conventional"@),
        language: or_default(inv.language, "en"@),
        model: or_default(inv.model, "default"@),
    }
}

/// What the model service answered: the `content` string, when there is
/// one, and the token usage.
pub struct ChatReply {
    pub content: Option<String>,
    pub usage: Usage,
}

pub struct ReplyView {
    pub content: Option<Seq<char>>,
    pub usage: Usage,
}

impl View for ChatReply {
    type V = ReplyView;

    open spec fn view(&self) -> ReplyView {
        ReplyView { content: opt_text(self.content), usage: self.usage }
    }
}

/// Whether the suggested message was committed.
#[derive(Clone, Copy, Debug, PartialEq, Eq)]
pub enum Decision {
    Applied,
    Rejected,
}

pub open spec fn decision_text(d: Decision) -> Seq<char> {
    match d {
        Decision::Applied => "applied"@,
        Decision::Rejected => "rejected"@,
    }
}

/// The payload of a `model.chat` request. On the wire it also carries a
/// sampling temperature of 0.2, which the program around the library adds.
pub struct ChatRequest {
    pub model: String,
    pub messages: Vec<WireMessage>,
}

pub struct ChatRequestView {
    pub model: Seq<char>,
    pub messages: Seq<MessageView>,
}

impl View for ChatRequest {
    type V = ChatRequestView;

    open spec fn view(&self) -> ChatRequestView {
        ChatRequestView { model: self.model@, messages: self.messages@.map_values(|m: WireMessage| m@) }
    }
}

/// The payload of an `audit.record` request.
pub struct AuditRecord {
    pub tool: String,
    pub provider: String,
    pub model: String,
    pub prompt_tokens: u64,
    pub completion_tokens: u64,
    pub decision: String,
}

pub struct AuditView {
    pub tool: Seq<char>,
    pub provider: Seq<char>,
    pub model: Seq<char>,
    pub prompt_tokens: u64,
    pub completion_tokens: u64,
    pub decision: Seq<char>,
}

impl View for AuditRecord {
    type V = AuditView;

    open spec fn view(&self) -> AuditView {
        AuditView {
            tool: self.tool@,
            provider: self.provider@,
            model: self.model@,
            prompt_tokens: self.prompt_tokens,
            completion_tokens: self.completion_tokens,
            decision: self.decision@,
        }
    }
}

pub enum Payload {
    Chat(ChatRequest),
    Audit(AuditRecord),
}

pub enum PayloadView {
    Chat(ChatRequestView),
    Audit(AuditView),
}

impl View for Payload {
    type V = PayloadView;

    open spec fn view(&self) -> PayloadView {
        match self {
            Payload::Chat(c) => PayloadView::Chat(c@),
            Payload::Audit(a) => PayloadView::Audit(a@),
        }
    }
}

/// What the program around the library is to do next.
pub enum Action {
    /// Read the invoke frame from the host.
    ReadInvocation,
    /// Run `git diff --cached` in `cwd`.
    StagedDiff { cwd: String },
    /// Show `text` on the terminal.
    Print { text: String },
    /// Send a request frame to the host and wait for its response.
    Request { id: u64, op: String, payload: Payload },
    /// Ask the user on the terminal, showing `prompt`.
    Confirm { prompt: String },
    /// Run `git commit` (see `git::commit_args`).
    Commit { cwd: String, message: String, signoff: bool },
    /// Send the result frame with this exit code.
    Finish { exit: i64 },
    /// Stop: the run failed with this error.
    Fail { error: String },
    /// Stop: the run is over.
    Complete,
}

pub enum ActionView {
    ReadInvocation,
    StagedDiff { cwd: Seq<char> },
    Print { text: Seq<char> },
    Request { id: u64, op: Seq<char>, payload: PayloadView },
    Confirm { prompt: Seq<char> },
    Commit { cwd: Seq<char>, message: Seq<char>, signoff: bool },
    Finish { exit: i64 },
    Fail { error: Seq<char> },
    Complete,
}

impl View for Action {
    type V = ActionView;

    open spec fn view(&self) -> ActionView {
        match self {
            Action::ReadInvocation => ActionView::ReadInvocation,
            Action::StagedDiff { cwd } => ActionView::StagedDiff { cwd: cwd@ },
            Action::Print { text } => ActionView::Print { text: text@ },
            Action::Request { id, op, payload } => ActionView::Request {
                id: *id,
                op: op@,
                payload: payload@,
            },
            Action::Confirm { prompt } => ActionView::Confirm { prompt: prompt@ },
            Action::Commit { cwd, message, signoff } => ActionView::Commit {
                cwd: cwd@,
                message: message@,
                signoff: *signoff,
            },
            Action::Finish { exit } => ActionView::Finish { exit: *exit },
            Action::Fail { error } => ActionView::Fail { error: error@ },
            Action::Complete => ActionView::Complete,
        }
    }
}

/// The outcome of the last action.
pub enum Event {
    /// The invoke frame was read.
    Invoked(Invocation),
    /// Reading the invoke frame failed, or another frame came.
    FrameError(String),
    /// The output of `git diff --cached`, or why it failed.
    Diff(Result<String, String>),
    /// The text was shown (or could not be; that is not an error).
    Printed,
    /// The model service's reply, or why the request failed.
    Reply(Result<ChatReply, String>),
    /// The line the user typed; `None` when there is no terminal or no line.
    Answer(Option<String>),
    /// Whether `git commit` succeeded.
    Committed(Result<(), String>),
    /// The audit request was answered (its outcome does not matter).
    Recorded,
    /// Whether the result frame was sent.
    Sent(Result<(), String>),
}

pub enum EventView {
    Invoked(InvocationView),
    FrameError(Seq<char>),
    Diff(Result<Seq<char>, Seq<char>>),
    Printed,
    Reply(Result<ReplyView, Seq<char>>),
    Answer(Option<Seq<char>>),
    Committed(Result<(), Seq<char>>),
    Recorded,
    Sent(Result<(), Seq<char>>),
}

impl View for Event {
    type V = EventView;

    open spec fn view(&self) -> EventView {
        match self {
            Event::Invoked(inv) => EventView::Invoked(inv@),
            Event::FrameError(e) => EventView::FrameError(e@),
            Event::Diff(r) => EventView::Diff(text_result(*r)),
            Event::Printed => EventView::Printed,
            Event::Reply(r) => EventView::Reply(
                match r {
                    Ok(reply) => Ok(reply@),
                    Err(e) => Err(e@),
                },
            ),
            Event::Answer(a) => EventView::Answer(opt_text(*a)),
            Event::Committed(r) => EventView::Committed(unit_result(*r)),
            Event::Recorded => EventView::Recorded,
            Event::Sent(r) => EventView::Sent(unit_result(*r)),
        }
    }
}

/// Where a run stands: which event it waits for, and what it carries.
pub enum Phase {
    AwaitInvocation,
    AwaitDiff { settings: Settings },
    AwaitNothingStagedShown,
    AwaitReply { settings: Settings },
    AwaitSuggestionShown { settings: Settings, message: String, usage: Usage },
    AwaitAnswer { settings: Settings, message: String, usage: Usage },
    AwaitCommit { settings: Settings, usage: Usage },
    AwaitDecisionShown { model: String, usage: Usage, decision: Decision },
    AwaitRecorded,
    AwaitSent,
    Done,
}

pub enum PhaseView {
    AwaitInvocation,
    AwaitDiff { settings: SettingsView },
    AwaitNothingStagedShown,
    AwaitReply { settings: SettingsView },
    AwaitSuggestionShown { settings: SettingsView, message: Seq<char>, usage: Usage },
    AwaitAnswer { settings: SettingsView, message: Seq<char>, usage: Usage },
    AwaitCommit { settings: SettingsView, usage: Usage },
    AwaitDecisionShown { model: Seq<char>, usage: Usage, decision: Decision },
    AwaitRecorded,
    AwaitSent,
    Done,
}

impl View for Phase {
    type V = PhaseView;

    open spec fn view(&self) -> PhaseView {
        match self {
            Phase::AwaitInvocation => PhaseView::AwaitInvocation,
            Phase::AwaitDiff { settings } => PhaseView::AwaitDiff { settings: settings@ },
            Phase::AwaitNothingStagedShown => PhaseView::AwaitNothingStagedShown,
            Phase::AwaitReply { settings } => PhaseView::AwaitReply { settings: settings@ },
            Phase::AwaitSuggestionShown { settings, message, usage } =>
                PhaseView::AwaitSuggestionShown {
                settings: settings@,
                message: message@,
                usage: *usage,
            },
            Phase::AwaitAnswer { settings, message, usage } => PhaseView::AwaitAnswer {
                settings: settings@,
                message: message@,
                usage: *usage,
            },
            Phase::AwaitCommit { settings, usage } => PhaseView::AwaitCommit {
                settings: settings@,
                usage: *usage,
            },
            Phase::AwaitDecisionShown { model, usage, decision } =>
                PhaseView::AwaitDecisionShown { model: model@, usage: *usage, decision: *decision },
            Phase::AwaitRecorded => PhaseView::AwaitRecorded,
            Phase::AwaitSent => PhaseView::AwaitSent,
            Phase::Done => PhaseView::Done,
        }
    }
}

/// A run: its phase and the id its next host request gets.
pub struct Session {
    pub phase: Phase,
    pub next_id: u64,
}

pub struct SessionView {
    pub phase: PhaseView,
    pub next_id: u64,
}

impl View for Session {
    type V = SessionView;

    open spec fn view(&self) -> SessionView {
        SessionView { phase: self.phase@, next_id: self.next_id }
    }
}

/// The id of the first request a run sends to its host.
pub const FIRST_REQUEST_ID: u64 = 100;

/// The id of the result frame that ends a run.
pub const RESULT_FRAME_ID: u64 = 1;

pub open spec fn nothing_staged_text() -> Seq<char> {
    "Nothing staged. Run `git add` first.\n"@
}

pub open spec fn suggestion_text(message: Seq<char>) -> Seq<char> {
    "\nSuggested commit:\n\n"@ + message + "\n\n"@
}

pub open spec fn unusable_reply_error(raw: Seq<char>) -> Seq<char> {
    "model returned empty/unusable message; not committing. raw: "@ + debug_quoted(raw)
}

pub open spec fn confirm_prompt() -> Seq<char> {
    "Accept? [Y/n] "@
}

/// The user accepted: a line that, trimmed and lowercased, is empty, `y` or
/// `yes`. No line at all (no terminal, end of input) is a refusal.
pub open spec fn answer_is_yes(answer: Option<Seq<char>>) -> bool {
    match answer {
        Some(line) => {
            let a = lowercase(trim(line));
            a.len() == 0 || a == "y"@ || a == "yes"@
        },
        None => false,
    }
}

/// The two messages of the prompt (see `message::build_messages`).
pub open spec fn prompt_messages(style: Seq<char>, language: Seq<char>, diff: Seq<char>) -> Seq<
    MessageView,
> {
    seq![
        MessageView { role: "system"@, content: system_prompt(style, language) },
        MessageView { role: "user"@, content: user_prompt(diff) },
    ]
}

pub open spec fn audit_of(model: Seq<char>, usage: Usage, decision: Decision) -> AuditView {
    AuditView {
        tool: "git.commit.message.generate"@,
        provider: ""@,
        model: model,
        prompt_tokens: match usage.prompt_tokens {
            Some(n) => n,
            None => 0,
        },
        completion_tokens: match usage.completion_tokens {
            Some(n) => n,
            None => 0,
        },
        decision: decision_text(decision),
    }
}

/// Whether a phase takes this event.
pub open spec fn accepts(phase: PhaseView, e: EventView) -> bool {
    match phase {
        PhaseView::AwaitInvocation => e is Invoked || e is FrameError,
        PhaseView::AwaitDiff { .. } => e is Diff,
        PhaseView::AwaitNothingStagedShown => e is Printed,
        PhaseView::AwaitReply { .. } => e is Reply,
        PhaseView::AwaitSuggestionShown { .. } => e is Printed,
        PhaseView::AwaitAnswer { .. } => e is Answer,
        PhaseView::AwaitCommit { .. } => e is Committed,
        PhaseView::AwaitDecisionShown { .. } => e is Printed,
        PhaseView::AwaitRecorded => e is Recorded,
        PhaseView::AwaitSent => e is Sent,
        PhaseView::Done => false,
    }
}

pub open spec fn ended(next_id: u64, action: ActionView) -> (SessionView, ActionView) {
    (SessionView { phase: PhaseView::Done, next_id }, action)
}

/// The next phase and action of a run, for an event its phase accepts.
pub open spec fn transition(s: SessionView, e: EventView) -> (SessionView, ActionView) {
    let id = s.next_id;
    match s.phase {
        PhaseView::AwaitInvocation => match e {
            EventView::Invoked(inv) => (
                SessionView {
                    phase: PhaseView::AwaitDiff { settings: settings_of_spec(inv) },
                    next_id: id,
                },
                ActionView::StagedDiff { cwd: inv.cwd },
            ),
            EventView::FrameError(error) => ended(id, ActionView::Fail { error }),
            _ => ended(id, ActionView::Complete),
        },
        PhaseView::AwaitDiff { settings } => match e {
            EventView::Diff(Ok(diff)) => if is_blank(diff) {
                (
                    SessionView { phase: PhaseView::AwaitNothingStagedShown, next_id: id },
                    ActionView::Print { text: nothing_staged_text() },
                )
            } else {
                (
                    SessionView { phase: PhaseView::AwaitReply { settings }, next_id: (id + 1) as u64 },
                    ActionView::Request {
                        id,
                        op: "model.chat"@,
                        payload: PayloadView::Chat(
                            ChatRequestView {
                                model: settings.model,
                                messages: prompt_messages(settings.style, settings.language, diff),
                            },
                        ),
                    },
                )
            },
            EventView::Diff(Err(error)) => ended(id, ActionView::Fail { error }),
            _ => ended(id, ActionView::Complete),
        },
        PhaseView::AwaitNothingStagedShown => (
            SessionView { phase: PhaseView::AwaitSent, next_id: id },
            ActionView::Finish { exit: 0 },
        ),
        PhaseView::AwaitReply { settings } => match e {
            EventView::Reply(Ok(reply)) => {
                let raw = or_default(reply.content, ""@);
                let message = postprocess_text(raw);
                if message.len() == 0 {
                    ended(id, ActionView::Fail { error: unusable_reply_error(raw) })
                } else {
                    (
                        SessionView {
                            phase: PhaseView::AwaitSuggestionShown {
                                settings,
                                message,
                                usage: reply.usage,
                            },
                            next_id: id,
                        },
                        ActionView::Print { text: suggestion_text(message) },
                    )
                }
            },
            EventView::Reply(Err(error)) => ended(id, ActionView::Fail { error }),
            _ => ended(id, ActionView::Complete),
        },
        PhaseView::AwaitSuggestionShown { settings, message, usage } => if settings.apply {
            (
                SessionView { phase: PhaseView::AwaitCommit { settings, usage }, next_id: id },
                ActionView::Commit { cwd: settings.cwd, message, signoff: settings.signoff },
            )
        } else {
            (
                SessionView { phase: PhaseView::AwaitAnswer { settings, message, usage }, next_id: id },
                ActionView::Confirm { prompt: confirm_prompt() },
            )
        },
        PhaseView::AwaitAnswer { settings, message, usage } => match e {
            EventView::Answer(answer) => if answer_is_yes(answer) {
                (
                    SessionView { phase: PhaseView::AwaitCommit { settings, usage }, next_id: id },
                    ActionView::Commit { cwd: settings.cwd, message, signoff: settings.signoff },
                )
            } else {
                (
                    SessionView {
                        phase: PhaseView::AwaitDecisionShown {
                            model: settings.model,
                            usage,
                            decision: Decision::Rejected,
                        },
                        next_id: id,
                    },
                    ActionView::Print { text: "Aborted.\n"@ },
                )
            },
            _ => ended(id, ActionView::Complete),
        },
        PhaseView::AwaitCommit { settings, usage } => match e {
            EventView::Committed(Ok(())) => (
                SessionView {
                    phase: PhaseView::AwaitDecisionShown {
                        model: settings.model,
                        usage,
                        decision: Decision::Applied,
                    },
                    next_id: id,
                },
                ActionView::Print { text: "Committed.\n"@ },
            ),
            EventView::Committed(Err(error)) => ended(id, ActionView::Fail { error }),
            _ => ended(id, ActionView::Complete),
        },
        PhaseView::AwaitDecisionShown { model, usage, decision } => (
            SessionView { phase: PhaseView::AwaitRecorded, next_id: (id + 1) as u64 },
            ActionView::Request {
                id,
                op: "audit.record"@,
                payload: PayloadView::Audit(audit_of(model, usage, decision)),
            },
        ),
        PhaseView::AwaitRecorded => (
            SessionView { phase: PhaseView::AwaitSent, next_id: id },
            ActionView::Finish { exit: 0 },
        ),
        PhaseView::AwaitSent => match e {
            EventView::Sent(Ok(())) => ended(id, ActionView::Complete),
            EventView::Sent(Err(error)) => ended(id, ActionView::Fail { error }),
            _ => ended(id, ActionView::Complete),
        },
        PhaseView::Done => ended(id, ActionView::Complete),
    }
}

/// Whether `args` holds `flag`.
pub fn has_flag(args: &Vec<String>, flag: &str) -> (b: bool)
    ensures
        b == args@.map_values(|a: String| a@).contains(flag@),
{
    let ghost views = args@.map_values(|a: String| a@);
    let mut i: usize = 0;
    while i < args.len()
        invariant
            i <= args.len(),
            views == args@.map_values(|a: String| a@),
            forall|j: int| 0 <= j < i ==> views[j] != flag@,
        decreases args.len() - i,
    {
        if same_text(&args[i], flag) {
            assert(views[i as int] == flag@);
            return true;
        }
        i = i + 1;
    }
    assert(!views.contains(flag@)) by {
        if views.contains(flag@) {
            let j = choose|j: int| 0 <= j < views.len() && views[j] == flag@;
            assert(views[j] != flag@);
        }
    }
    false
}

fn text_or(o: Option<String>, default: &str) -> (r: String)
    ensures
        r@ == or_default(opt_text(o), default@),
{
    match o {
        Some(s) => s,
        None => default.to_owned(),
    }
}

/// Resolve the settings of a run from its invocation.
pub fn settings_of(inv: Invocation) -> (s: Settings)
    ensures
        s@ == settings_of_spec(inv@),
        s.cwd@ == inv@.cwd,
        s.apply == inv@.args.contains("--apply"@),
        s.signoff == inv@.args.contains("--signoff"@),
{
    let ghost v = inv@;
    let apply = has_flag(&inv.args, "--apply");
    let signoff = has_flag(&inv.args, "--signoff");
    let style = text_or(inv.style, "conventional");
    let language = text_or(inv.language, "en");
    let model = text_or(inv.model, "default");
    Settings { cwd: inv.cwd, apply, signoff, style, language, model }
}

/// Whether the line the user typed is a yes (see `answer_is_yes`).
pub fn accepts_answer(answer: &Option<String>) -> (b: bool)
    ensures
        b == answer_is_yes(opt_text(*answer)),
{
    match answer {
        Some(line) => {
            let t = trimmed(line.as_str());
            let a = to_lowercase(t.as_str());
            a.as_str().is_empty() || same_text(&a, "y") || same_text(&a, "yes")
        },
        None => false,
    }
}

/// The audit record of a run.
pub fn audit_record(model: String, usage: Usage, decision: Decision) -> (r: AuditRecord)
    ensures
        r@ == audit_of(model@, usage, decision),
{
    let decision_str = match decision {
        Decision::Applied => "applied".to_owned(),
        Decision::Rejected => "rejected".to_owned(),
    };
    AuditRecord {
        tool: "git.commit.message.generate".to_owned(),
        provider: "".to_owned(),
        model,
        prompt_tokens: match usage.prompt_tokens {
            Some(n) => n,
            None => 0,
        },
        completion_tokens: match usage.completion_tokens {
            Some(n) => n,
            None => 0,
        },
        decision: decision_str,
    }
}

impl Session {
    /// A new run: it starts by reading its invocation.
    pub fn start() -> (r: (Session, Action))
        ensures
            r.0@ == (SessionView { phase: PhaseView::AwaitInvocation, next_id: FIRST_REQUEST_ID }),
            r.1@ == ActionView::ReadInvocation,
    {
        (Session { phase: Phase::AwaitInvocation, next_id: FIRST_REQUEST_ID }, Action::ReadInvocation)
    }

    /// Whether the run's phase takes this event.
    pub fn expects(&self, e: &Event) -> (b: bool)
        ensures
            b == accepts(self@.phase, e@),
    {
        match self.phase {
            Phase::AwaitInvocation => match e {
                Event::Invoked(_) | Event::FrameError(_) => true,
                _ => false,
            },
            Phase::AwaitDiff { .. } => match e {
                Event::Diff(_) => true,
                _ => false,
            },
            Phase::AwaitNothingStagedShown | Phase::AwaitSuggestionShown { .. }
            | Phase::AwaitDecisionShown { .. } => match e {
                Event::Printed => true,
                _ => false,
            },
            Phase::AwaitReply { .. } => match e {
                Event::Reply(_) => true,
                _ => false,
            },
            Phase::AwaitAnswer { .. } => match e {
                Event::Answer(_) => true,
                _ => false,
            },
            Phase::AwaitCommit { .. } => match e {
                Event::Committed(_) => true,
                _ => false,
            },
            Phase::AwaitRecorded => match e {
                Event::Recorded => true,
                _ => false,
            },
            Phase::AwaitSent => match e {
                Event::Sent(_) => true,
                _ => false,
            },
            Phase::Done => false,
        }
    }

    /// Take the next decision of the run.
    pub fn step(self, e: Event) -> (r: (Session, Action))
        requires
            accepts(self@.phase, e@),
            self.next_id < u64::MAX,
        ensures
            (r.0@, r.1@) == transition(self@, e@),
    {
        let id = self.next_id;
        match self.phase {
            Phase::AwaitInvocation => match e {
                Event::Invoked(inv) => {
                    let cwd = inv.cwd.clone();
                    let settings = settings_of(inv);
                    (
                        Session { phase: Phase::AwaitDiff { settings }, next_id: id },
                        Action::StagedDiff { cwd },
                    )
                },
                Event::FrameError(error) => (
                    Session { phase: Phase::Done, next_id: id },
                    Action::Fail { error },
                ),
                _ => (Session { phase: Phase::Done, next_id: id }, Action::Complete),
            },
            Phase::AwaitDiff { settings } => match e {
                Event::Diff(Ok(diff)) => {
                    if is_blank_text(diff.as_str()) {
                        (
                            Session { phase: Phase::AwaitNothingStagedShown, next_id: id },
                            Action::Print { text: "Nothing staged. Run `git add` first.\n".to_owned() },
                        )
                    } else {
                        let messages = build_messages(
                            settings.style.as_str(),
                            settings.language.as_str(),
                            diff.as_str(),
                        );
                        let model = settings.model.clone();
                        assert(messages@.map_values(|m: WireMessage| m@) =~= prompt_messages(
                            settings@.style,
                            settings@.language,
                            diff@,
                        ));
                        (
                            Session { phase: Phase::AwaitReply { settings }, next_id: id + 1 },
                            Action::Request {
                                id,
                                op: "model.chat".to_owned(),
                                payload: Payload::Chat(ChatRequest { model, messages }),
                            },
                        )
                    }
                },
                Event::Diff(Err(error)) => (
                    Session { phase: Phase::Done, next_id: id },
                    Action::Fail { error },
                ),
                _ => (Session { phase: Phase::Done, next_id: id }, Action::Complete),
            },
            Phase::AwaitNothingStagedShown => (
                Session { phase: Phase::AwaitSent, next_id: id },
                Action::Finish { exit: 0 },
            ),
            Phase::AwaitReply { settings } => match e {
                Event::Reply(Ok(reply)) => {
                    let raw = text_or(reply.content, "");
                    let message = postprocess(raw.as_str());
                    if message.as_str().is_empty() {
                        let mut error = "model returned empty/unusable message; not committing. raw: ".to_owned();
                        let quoted = quote_debug(raw.as_str());
                        error.append(quoted.as_str());
                        (Session { phase: Phase::Done, next_id: id }, Action::Fail { error })
                    } else {
                        let mut text = "\nSuggested commit:\n\n".to_owned();
                        text.append(message.as_str());
                        text.append("\n\n");
                        (
                            Session {
                                phase: Phase::AwaitSuggestionShown {
                                    settings,
                                    message,
                                    usage: reply.usage,
                                },
                                next_id: id,
                            },
                            Action::Print { text },
                        )
                    }
                },
                Event::Reply(Err(error)) => (
                    Session { phase: Phase::Done, next_id: id },
                    Action::Fail { error },
                ),
                _ => (Session { phase: Phase::Done, next_id: id }, Action::Complete),
            },
            Phase::AwaitSuggestionShown { settings, message, usage } => {
                if settings.apply {
                    let cwd = settings.cwd.clone();
                    let signoff = settings.signoff;
                    (
                        Session { phase: Phase::AwaitCommit { settings, usage }, next_id: id },
                        Action::Commit { cwd, message, signoff },
                    )
                } else {
                    (
                        Session { phase: Phase::AwaitAnswer { settings, message, usage }, next_id: id },
                        Action::Confirm { prompt: "Accept? [Y/n] ".to_owned() },
                    )
                }
            },
            Phase::AwaitAnswer { settings, message, usage } => match e {
                Event::Answer(answer) => {
                    if accepts_answer(&answer) {
                        let cwd = settings.cwd.clone();
                        let signoff = settings.signoff;
                        (
                            Session { phase: Phase::AwaitCommit { settings, usage }, next_id: id },
                            Action::Commit { cwd, message, signoff },
                        )
                    } else {
                        (
                            Session {
                                phase: Phase::AwaitDecisionShown {
                                    model: settings.model,
                                    usage,
                                    decision: Decision::Rejected,
                                },
                                next_id: id,
                            },
                            Action::Print { text: "Aborted.\n".to_owned() },
                        )
                    }
                },
                _ => (Session { phase: Phase::Done, next_id: id }, Action::Complete),
            },
            Phase::AwaitCommit { settings, usage } => match e {
                Event::Committed(Ok(())) => (
                    Session {
                        phase: Phase::AwaitDecisionShown {
                            model: settings.model,
                            usage,
                            decision: Decision::Applied,
                        },
                        next_id: id,
                    },
                    Action::Print { text: "Committed.\n".to_owned() },
                ),
                Event::Committed(Err(error)) => (
                    Session { phase: Phase::Done, next_id: id },
                    Action::Fail { error },
                ),
                _ => (Session { phase: Phase::Done, next_id: id }, Action::Complete),
            },
            Phase::AwaitDecisionShown { model, usage, decision } => {
                let record = audit_record(model, usage, decision);
                (
                    Session { phase: Phase::AwaitRecorded, next_id: id + 1 },
                    Action::Request {
                        id,
                        op: "audit.record".to_owned(),
                        payload: Payload::Audit(record),
                    },
                )
            },
            Phase::AwaitRecorded => (
                Session { phase: Phase::AwaitSent, next_id: id },
                Action::Finish { exit: 0 },
            ),
            Phase::AwaitSent => match e {
                Event::Sent(Ok(())) => (Session { phase: Phase::Done, next_id: id }, Action::Complete),
                Event::Sent(Err(error)) => (
                    Session { phase: Phase::Done, next_id: id },
                    Action::Fail { error },
                ),
                _ => (Session { phase: Phase::Done, next_id: id }, Action::Complete),
            },
            Phase::Done => (Session { phase: Phase::Done, next_id: id }, Action::Complete),
        }
    }
}

/// The event is an answer from the user, and a yes (`Some(true)`) or a no.
pub open spec fn answer_of(e: EventView) -> Option<bool> {
    match e {
        EventView::Answer(a) => Some(answer_is_yes(a)),
        _ => None,
    }
}

/// A suggested commit message as the run carries it: not empty, no code
/// fence, no whitespace at either end.
pub open spec fn is_clean_message(m: Seq<char>) -> bool {
    m.len() > 0 && !has_fence(m) && is_trimmed(m)
}

/// Every message a phase carries is clean.
pub open spec fn carries_clean_message(phase: PhaseView) -> bool {
    match phase {
        PhaseView::AwaitSuggestionShown { message, .. } => is_clean_message(message),
        PhaseView::AwaitAnswer { message, .. } => is_clean_message(message),
        _ => true,
    }
}

/// A commit is only made with the user's consent: `--apply` was given, or
/// the user answered yes to the prompt.
pub proof fn law_commit_needs_consent(s: SessionView, e: EventView)
    requires
        accepts(s.phase, e),
        transition(s, e).1 is Commit,
    ensures
        (s.phase matches PhaseView::AwaitSuggestionShown { settings, .. } && settings.apply) || (
        s.phase is AwaitAnswer && answer_of(e) == Some(true)),
{
}

/// Only clean messages are ever shown or committed: every phase of a run
/// carries a clean message, and a commit action's message is clean.
pub proof fn law_commits_only_clean_messages(s: SessionView, e: EventView)
    requires
        accepts(s.phase, e),
        carries_clean_message(s.phase),
    ensures
        carries_clean_message(transition(s, e).0.phase),
        transition(s, e).1 matches ActionView::Commit { message, .. } ==> is_clean_message(
            message,
        ),
{
    if let PhaseView::AwaitReply { .. } = s.phase {
        if let EventView::Reply(Ok(reply)) = e {
            law_postprocess_clean(or_default(reply.content, ""@));
        }
    }
}

/// Host requests are numbered in the order they are sent: a request takes
/// the run's next id, and only a request moves it on.
pub proof fn law_request_ids(s: SessionView, e: EventView)
    requires
        accepts(s.phase, e),
        s.next_id < u64::MAX,
    ensures
        transition(s, e).1 matches ActionView::Request { id, .. } ==> id == s.next_id
            && transition(s, e).0.next_id == s.next_id + 1,
        !(transition(s, e).1 is Request) ==> transition(s, e).0.next_id == s.next_id,
{
}

/// The audit records `applied` exactly when the commit went through, and
/// `rejected` exactly when the user declined.
pub proof fn law_decision_matches_outcome(s: SessionView, e: EventView)
    requires
        accepts(s.phase, e),
    ensures
        transition(s, e).0.phase matches PhaseView::AwaitDecisionShown { decision, .. } ==> (
        decision == Decision::Applied <==> (s.phase is AwaitCommit && e matches EventView::Committed(
            Ok(()),
        ))),
        transition(s, e).0.phase matches PhaseView::AwaitDecisionShown { decision, .. } ==> (
        decision == Decision::Rejected <==> (s.phase is AwaitAnswer && answer_of(e) == Some(false))),
{
}

/// With nothing staged the model is not asked: the run says so on the
/// terminal and then finishes with exit code 0.
pub proof fn law_nothing_staged_finishes(s: SessionView, diff: Seq<char>)
    requires
        s.phase is AwaitDiff,
        is_blank(diff),
    ensures
        transition(s, EventView::Diff(Ok(diff))).1 == (ActionView::Print {
            text: nothing_staged_text(),
        }),
        transition(transition(s, EventView::Diff(Ok(diff))).0, EventView::Printed).1 == (
        ActionView::Finish { exit: 0 }),
{
}

/// A failure ends the run: after a `Fail` action the run is done, and a done
/// run takes no further event.
pub proof fn law_failure_ends_run(s: SessionView, e: EventView)
    requires
        accepts(s.phase, e),
        transition(s, e).1 is Fail,
    ensures
        transition(s, e).0.phase is Done,
        forall|e2: EventView| !accepts(transition(s, e).0.phase, e2),
{
}

/// `--apply` and `--signoff` are independent flags: each is set exactly when
/// it is among the arguments, whatever else the arguments hold.
pub proof fn law_flags_are_independent(inv: InvocationView)
    ensures
        settings_of_spec(inv).apply <==> inv.args.contains("--apply"@),
        settings_of_spec(inv).signoff <==> inv.args.contains("--signoff"@),
        settings_of_spec(inv).cwd == inv.cwd,
        inv.style matches Some(st) ==> settings_of_spec(inv).style == st,
        inv.style is None ==> settings_of_spec(inv).style == "conventional"@,
        inv.language matches Some(l) ==> settings_of_spec(inv).language == l,
        inv.language is None ==> settings_of_spec(inv).language == "en"@,
        inv.model matches Some(m) ==> settings_of_spec(inv).model == m,
        inv.model is None ==> settings_of_spec(inv).model == "default"@,
{
}

/// The model is asked only once the staged diff is known and not blank, with
/// the run's model and a prompt built from its style, language and that diff.
pub proof fn law_chat_request_uses_settings(s: SessionView, e: EventView)
    requires
        accepts(s.phase, e),
        transition(s, e).1 matches ActionView::Request { payload, .. } && payload is Chat,
    ensures
        match (s.phase, e) {
            (PhaseView::AwaitDiff { settings }, EventView::Diff(Ok(diff))) => {
                &&& !is_blank(diff)
                &&& transition(s, e).1 == (ActionView::Request {
                    id: s.next_id,
                    op: "model.chat"@,
                    payload: PayloadView::Chat(
                        ChatRequestView {
                            model: settings.model,
                            messages: seq![
                                MessageView { role: "system"@, content: system_prompt(settings.style, settings.language) },
                                MessageView { role: "user"@, content: user_prompt(diff) },
                            ],
                        },
                    ),
                })
            },
            _ => false,
        },
{
}

/// Adding `--apply` to the arguments does not change whether the commit is
/// signed off.
pub proof fn law_apply_leaves_signoff(inv: InvocationView)
    ensures
        settings_of_spec(InvocationView { args: inv.args.push("--apply"@), ..inv }).signoff
            == settings_of_spec(inv).signoff,
{
    reveal_strlit("--apply");
    reveal_strlit("--signoff");
    let args2 = inv.args.push("--apply"@);
    assert("--apply"@ != "--signoff"@) by {
        assert("--apply"@[2] != "--signoff"@[2]);
    }
    if inv.args.contains("--signoff"@) {
        let j = choose|j: int| 0 <= j < inv.args.len() && inv.args[j] == "--signoff"@;
        assert(args2[j] == "--signoff"@);
    }
    if args2.contains("--signoff"@) {
        let j = choose|j: int| 0 <= j < args2.len() && args2[j] == "--signoff"@;
        assert(j < inv.args.len());
        assert(inv.args[j] == "--signoff"@);
    }
}

/// The settings resolved from the invocation travel unchanged through the
/// run: a phase that carries settings passes the same settings on.
pub proof fn law_settings_carried(s: SessionView, e: EventView)
    requires
        accepts(s.phase, e),
    ensures
        match (s.phase, transition(s, e).0.phase) {
            (PhaseView::AwaitDiff { settings: a }, PhaseView::AwaitReply { settings: b }) => a == b,
            (PhaseView::AwaitReply { settings: a }, PhaseView::AwaitSuggestionShown { settings: b, .. }) => a == b,
            (PhaseView::AwaitSuggestionShown { settings: a, .. }, PhaseView::AwaitCommit { settings: b, .. }) => a == b,
            (PhaseView::AwaitSuggestionShown { settings: a, .. }, PhaseView::AwaitAnswer { settings: b, .. }) => a == b,
            (PhaseView::AwaitAnswer { settings: a, .. }, PhaseView::AwaitCommit { settings: b, .. }) => a == b,
            _ => true,
        },
        s.phase is AwaitInvocation ==> (e matches EventView::Invoked(inv) ==> transition(s, e).0.phase
            == (PhaseView::AwaitDiff { settings: settings_of_spec(inv) })),
{
}

/// A commit is made in the run's directory, with the message that was
/// shown, and signed off exactly when the run's settings say so, whether
/// `--apply` or the user's answer led to it.
pub proof fn law_commit_uses_run_settings(s: SessionView, e: EventView)
    requires
        accepts(s.phase, e),
        transition(s, e).1 is Commit,
    ensures
        match s.phase {
            PhaseView::AwaitSuggestionShown { settings, message, .. } => transition(s, e).1 == (
            ActionView::Commit { cwd: settings.cwd, message, signoff: settings.signoff }),
            PhaseView::AwaitAnswer { settings, message, .. } => transition(s, e).1 == (
            ActionView::Commit { cwd: settings.cwd, message, signoff: settings.signoff }),
            _ => false,
        },
{
}

/// The answer is read case-insensitively: two lines whose trims lowercase to
/// the same text get the same decision.
pub proof fn law_answer_case_insensitive(l1: Seq<char>, l2: Seq<char>)
    requires
        lowercase(trim(l1)) == lowercase(trim(l2)),
    ensures
        answer_is_yes(Some(l1)) == answer_is_yes(Some(l2)),
{
}

/// A line whose trim lowercases to `y` or `yes` is a yes; a yes is only ever
/// such a line or one that lowercases to nothing; no line at all is a no.
pub proof fn law_answer_yes_words(line: Seq<char>)
    ensures
        (lowercase(trim(line)) == "y"@ || lowercase(trim(line)) == "yes"@) ==> answer_is_yes(
            Some(line),
        ),
        answer_is_yes(Some(line)) ==> (lowercase(trim(line)).len() == 0 || lowercase(trim(line))
            == "y"@ || lowercase(trim(line)) == "yes"@),
        !answer_is_yes(None),
{
}

} // verus!

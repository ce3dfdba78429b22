//! Editing a message in the user's editor.
//!
//! Which editor to run, how it is launched and how its outcome becomes the
//! edited message are decided here; writing the temporary file, running the
//! editor and reading the file back are done by the program around the
//! library, driven by `EditSession::step`.
use vstd::prelude::*;

use crate::text::{
    is_blank, is_blank_text, opt_text, text_result, trim_end, trim_start, trimmed_end, unit_result,
};

verus! {

/// The editor to run: `$VISUAL`, then `$EDITOR`, skipping unset and blank
/// values, then `vi`.
pub open spec fn resolve_editor_spec(visual: Option<Seq<char>>, editor: Option<Seq<char>>) -> Seq<
    char,
> {
    match visual {
        Some(v) if !is_blank(v) => v,
        _ => match editor {
            Some(e) if !is_blank(e) => e,
            _ => "vi"@,
        },
    }
}

/// Resolve the user's preferred editor from the values of `$VISUAL` and
/// `$EDITOR` (`None` when unset or not Unicode).
pub fn resolve_editor(visual: Option<String>, editor: Option<String>) -> (r: String)
    ensures
        r@ == resolve_editor_spec(opt_text(visual), opt_text(editor)),
{
    match visual {
        Some(v) => {
            if !is_blank_text(v.as_str()) {
                return v;
            }
        },
        None => {},
    }
    match editor {
        Some(e) => {
            if !is_blank_text(e.as_str()) {
                return e;
            }
        },
        None => {},
    }
    "vi".to_owned()
}

/// The character of a decimal digit.
pub open spec fn digit_char(d: nat) -> char {
    if d == 0 {
        '0'
    } else if d == 1 {
        '1'
    } else if d == 2 {
        '2'
    } else if d == 3 {
        '3'
    } else if d == 4 {
        '4'
    } else if d == 5 {
        '5'
    } else if d == 6 {
        '6'
    } else if d == 7 {
        '7'
    } else if d == 8 {
        '8'
    } else {
        '9'
    }
}

/// The decimal notation of a number, as `{}` writes it.
pub open spec fn decimal(n: nat) -> Seq<char>
    decreases n,
{
    if n < 10 {
        seq![digit_char(n)]
    } else {
        decimal(n / 10).push(digit_char(n % 10))
    }
}

fn digit_str(d: u64) -> (s: &'static str)
    requires
        d < 10,
    ensures
        s@ == seq![digit_char(d as nat)],
{
    if d == 0 {
        proof {
            reveal_strlit("0");
        }
        "0"
    } else if d == 1 {
        proof {
            reveal_strlit("1");
        }
        "1"
    } else if d == 2 {
        proof {
            reveal_strlit("2");
        }
        "2"
    } else if d == 3 {
        proof {
            reveal_strlit("3");
        }
        "3"
    } else if d == 4 {
        proof {
            reveal_strlit("4");
        }
        "4"
    } else if d == 5 {
        proof {
            reveal_strlit("5");
        }
        "5"
    } else if d == 6 {
        proof {
            reveal_strlit("6");
        }
        "6"
    } else if d == 7 {
        proof {
            reveal_strlit("7");
        }
        "7"
    } else if d == 8 {
        proof {
            reveal_strlit("8");
        }
        "8"
    } else {
        proof {
            reveal_strlit("9");
        }
        "9"
    }
}

/// Append the decimal notation of `n` to `s`.
pub fn push_decimal(s: &mut String, n: u64)
    ensures
        final(s)@ == old(s)@ + decimal(n as nat),
    decreases n,
{
    if n >= 10 {
        push_decimal(s, n / 10);
    }
    let d = digit_str(n % 10);
    s.append(d);
    proof {
        if n >= 10 {
            assert(decimal(n as nat) == decimal((n / 10) as nat).push(digit_char((n % 10) as nat)));
        }
    }
}

/// The name of the temporary message file of an edit: the process id and a
/// per-process sequence number keep concurrent edits apart.
pub open spec fn temp_file_name_spec(pid: u32, seq: u64) -> Seq<char> {
    "aish-COMMIT_EDITMSG-"@ + decimal(pid as nat) + "-"@ + decimal(seq as nat)
}

pub fn temp_file_name(pid: u32, seq: u64) -> (r: String)
    ensures
        r@ == temp_file_name_spec(pid, seq),
{
    let mut r = "aish-COMMIT_EDITMSG-".to_owned();
    push_decimal(&mut r, pid as u64);
    r.append("-");
    push_decimal(&mut r, seq);
    r
}

/// The shell script that runs the editor on the file passed as its first
/// positional argument: `<editor> "$@"`.
pub open spec fn editor_script(editor: Seq<char>) -> Seq<char> {
    editor + " \"$@\""@
}

/// The arguments of `sh` that launch the editor on `path`, so that the path
/// reaches the editor as one safely quoted argument.
pub open spec fn launch_args_spec(editor: Seq<char>, path: Seq<char>) -> Seq<Seq<char>> {
    seq!["-c"@, editor_script(editor), "aish"@, path]
}

/// How running the editor went.
pub enum LaunchOutcome {
    /// The editor could not be started.
    SpawnFailed(String),
    /// The editor ran and exited.
    Exited { success: bool },
}

pub enum LaunchOutcomeView {
    SpawnFailed(Seq<char>),
    Exited { success: bool },
}

impl View for LaunchOutcome {
    type V = LaunchOutcomeView;

    open spec fn view(&self) -> LaunchOutcomeView {
        match self {
            LaunchOutcome::SpawnFailed(e) => LaunchOutcomeView::SpawnFailed(e@),
            LaunchOutcome::Exited { success } => LaunchOutcomeView::Exited { success: *success },
        }
    }
}

/// The result of running the editor.
pub open spec fn launch_result(editor: Seq<char>, outcome: LaunchOutcomeView) -> Result<
    (),
    Seq<char>,
> {
    match outcome {
        LaunchOutcomeView::SpawnFailed(e) => Err(
            "failed to launch editor `"@ + editor + "`: "@ + e,
        ),
        LaunchOutcomeView::Exited { success } => if success {
            Ok(())
        } else {
            Err("editor `"@ + editor + "` exited with a non-zero status"@)
        },
    }
}

/// The edited message: an error of the editor comes first, then an error
/// reading the file back; otherwise the file's text without trailing
/// whitespace.
pub open spec fn edit_result(launch: Result<(), Seq<char>>, read: Result<Seq<char>, Seq<char>>) -> Result<
    Seq<char>,
    Seq<char>,
> {
    match launch {
        Err(e) => Err(e),
        Ok(()) => match read {
            Err(e) => Err("failed to read edited message: "@ + e),
            Ok(text) => Ok(trim_end(text)),
        },
    }
}

/// What the program around the library is to do next for an edit.
pub enum EditAction {
    /// Write `contents` to the file at `path`.
    Write { path: String, contents: String },
    /// Run `sh` with these arguments, on the terminal when there is one.
    Launch { args: Vec<String> },
    /// Read the file at `path` back.
    Read { path: String },
    /// Remove the file at `path`; how that goes does not matter.
    Remove { path: String },
    /// The edit is over, with this result.
    Finish { result: Result<String, String> },
}

pub enum EditActionView {
    Write { path: Seq<char>, contents: Seq<char> },
    Launch { args: Seq<Seq<char>> },
    Read { path: Seq<char> },
    Remove { path: Seq<char> },
    Finish { result: Result<Seq<char>, Seq<char>> },
}

impl View for EditAction {
    type V = EditActionView;

    open spec fn view(&self) -> EditActionView {
        match self {
            EditAction::Write { path, contents } => EditActionView::Write {
                path: path@,
                contents: contents@,
            },
            EditAction::Launch { args } => EditActionView::Launch {
                args: args@.map_values(|a: String| a@),
            },
            EditAction::Read { path } => EditActionView::Read { path: path@ },
            EditAction::Remove { path } => EditActionView::Remove { path: path@ },
            EditAction::Finish { result } => EditActionView::Finish { result: text_result(*result) },
        }
    }
}

/// The outcome of the last edit action.
pub enum EditEvent {
    Written(Result<(), String>),
    Launched(LaunchOutcome),
    ReadBack(Result<String, String>),
    Removed,
}

pub enum EditEventView {
    Written(Result<(), Seq<char>>),
    Launched(LaunchOutcomeView),
    ReadBack(Result<Seq<char>, Seq<char>>),
    Removed,
}

impl View for EditEvent {
    type V = EditEventView;

    open spec fn view(&self) -> EditEventView {
        match self {
            EditEvent::Written(r) => EditEventView::Written(unit_result(*r)),
            EditEvent::Launched(o) => EditEventView::Launched(o@),
            EditEvent::ReadBack(r) => EditEventView::ReadBack(text_result(*r)),
            EditEvent::Removed => EditEventView::Removed,
        }
    }
}

/// Where an edit stands.
pub enum EditSession {
    Writing { editor: String, path: String },
    Launching { editor: String, path: String },
    Reading { path: String, launch: Result<(), String> },
    Removing { result: Result<String, String> },
    Done,
}

pub enum EditSessionView {
    Writing { editor: Seq<char>, path: Seq<char> },
    Launching { editor: Seq<char>, path: Seq<char> },
    Reading { path: Seq<char>, launch: Result<(), Seq<char>> },
    Removing { result: Result<Seq<char>, Seq<char>> },
    Done,
}

impl View for EditSession {
    type V = EditSessionView;

    open spec fn view(&self) -> EditSessionView {
        match self {
            EditSession::Writing { editor, path } => EditSessionView::Writing {
                editor: editor@,
                path: path@,
            },
            EditSession::Launching { editor, path } => EditSessionView::Launching {
                editor: editor@,
                path: path@,
            },
            EditSession::Reading { path, launch } => EditSessionView::Reading {
                path: path@,
                launch: unit_result(*launch),
            },
            EditSession::Removing { result } => EditSessionView::Removing {
                result: text_result(*result),
            },
            EditSession::Done => EditSessionView::Done,
        }
    }
}

/// Whether an edit in this state takes this event.
pub open spec fn edit_accepts(s: EditSessionView, e: EditEventView) -> bool {
    match s {
        EditSessionView::Writing { .. } => e is Written,
        EditSessionView::Launching { .. } => e is Launched,
        EditSessionView::Reading { .. } => e is ReadBack,
        EditSessionView::Removing { .. } => e is Removed,
        EditSessionView::Done => false,
    }
}

/// The next state and action of an edit. A failed write ends the edit at
/// once (there is no file to remove); otherwise the editor runs, the file is
/// read back and removed, and the edit ends with `edit_result`.
pub open spec fn edit_transition(s: EditSessionView, e: EditEventView) -> (
    EditSessionView,
    EditActionView,
) {
    match (s, e) {
        (EditSessionView::Writing { editor, path }, EditEventView::Written(Err(cause))) => (
            EditSessionView::Done,
            EditActionView::Finish {
                result: Err("failed to write temp message file: "@ + cause),
            },
        ),
        (EditSessionView::Writing { editor, path }, EditEventView::Written(Ok(()))) => (
            EditSessionView::Launching { editor, path },
            EditActionView::Launch { args: launch_args_spec(editor, path) },
        ),
        (EditSessionView::Launching { editor, path }, EditEventView::Launched(outcome)) => (
            EditSessionView::Reading { path, launch: launch_result(editor, outcome) },
            EditActionView::Read { path },
        ),
        (EditSessionView::Reading { path, launch }, EditEventView::ReadBack(read)) => (
            EditSessionView::Removing { result: edit_result(launch, read) },
            EditActionView::Remove { path },
        ),
        (EditSessionView::Removing { result }, EditEventView::Removed) => (
            EditSessionView::Done,
            EditActionView::Finish { result },
        ),
        _ => (s, EditActionView::Finish { result: Err(Seq::empty()) }),
    }
}

fn prefixed(prefix: &str, rest: &str) -> (r: String)
    ensures
        r@ == prefix@ + rest@,
{
    let mut r = prefix.to_owned();
    r.append(rest);
    r
}

impl EditSession {
    /// Begin editing `message` with `editor`, through the file at `path`: the
    /// message is written to the file first.
    pub fn start(editor: String, message: &str, path: String) -> (r: (EditSession, EditAction))
        ensures
            r.0@ == (EditSessionView::Writing { editor: editor@, path: path@ }),
            r.1@ == (EditActionView::Write { path: path@, contents: message@ }),
    {
        let file = path.clone();
        (EditSession::Writing { editor, path }, EditAction::Write { path: file, contents: message.to_owned() })
    }

    /// Whether the edit takes this event now.
    pub fn expects(&self, e: &EditEvent) -> (b: bool)
        ensures
            b == edit_accepts(self@, e@),
    {
        match (self, e) {
            (EditSession::Writing { .. }, EditEvent::Written(_)) => true,
            (EditSession::Launching { .. }, EditEvent::Launched(_)) => true,
            (EditSession::Reading { .. }, EditEvent::ReadBack(_)) => true,
            (EditSession::Removing { .. }, EditEvent::Removed) => true,
            _ => false,
        }
    }

    /// Take the next decision of the edit.
    pub fn step(self, e: EditEvent) -> (r: (EditSession, EditAction))
        requires
            edit_accepts(self@, e@),
        ensures
            (r.0@, r.1@) == edit_transition(self@, e@),
    {
        match (self, e) {
            (EditSession::Writing { editor, path }, EditEvent::Written(Err(cause))) => (
                EditSession::Done,
                EditAction::Finish {
                    result: Err(prefixed("failed to write temp message file: ", cause.as_str())),
                },
            ),
            (EditSession::Writing { editor, path }, EditEvent::Written(Ok(()))) => {
                let mut args: Vec<String> = Vec::new();
                args.push("-c".to_owned());
                args.push(prefixed(editor.as_str(), " \"$@\""));
                args.push("aish".to_owned());
                args.push(path.clone());
                assert(args@.map_values(|a: String| a@) =~= launch_args_spec(editor@, path@));
                (EditSession::Launching { editor, path }, EditAction::Launch { args })
            },
            (EditSession::Launching { editor, path }, EditEvent::Launched(outcome)) => {
                let launch = match outcome {
                    LaunchOutcome::SpawnFailed(cause) => {
                        let mut msg = prefixed("failed to launch editor `", editor.as_str());
                        msg.append("`: ");
                        msg.append(cause.as_str());
                        Err(msg)
                    },
                    LaunchOutcome::Exited { success } => {
                        if success {
                            Ok(())
                        } else {
                            let mut msg = prefixed("editor `", editor.as_str());
                            msg.append("` exited with a non-zero status");
                            Err(msg)
                        }
                    },
                };
                let file = path.clone();
                (EditSession::Reading { path, launch }, EditAction::Read { path: file })
            },
            (EditSession::Reading { path, launch }, EditEvent::ReadBack(read)) => {
                let result = match launch {
                    Err(msg) => Err(msg),
                    Ok(()) => match read {
                        Err(cause) => Err(prefixed("failed to read edited message: ", cause.as_str())),
                        Ok(text) => Ok(trimmed_end(text.as_str())),
                    },
                };
                (EditSession::Removing { result }, EditAction::Remove { path })
            },
            (EditSession::Removing { result }, EditEvent::Removed) => (
                EditSession::Done,
                EditAction::Finish { result },
            ),
            (s, _) => (s, EditAction::Finish { result: Err(String::new()) }),
        }
    }
}

/// Whatever the environment holds, an editor is named: the resolved editor
/// is never empty or blank.
pub proof fn law_resolve_editor_names_an_editor(visual: Option<Seq<char>>, editor: Option<Seq<char>>)
    ensures
        !is_blank(resolve_editor_spec(visual, editor)),
{
    reveal_strlit("vi");
    let vi = "vi"@;
    assert(trim_start(vi) == vi);
    assert(trim_end(vi) == vi);
}

proof fn lemma_decimal_shape(n: nat)
    ensures
        decimal(n).len() >= 1,
        n >= 10 ==> decimal(n).len() >= 2,
        forall|i: int| 0 <= i < decimal(n).len() ==> #[trigger] decimal(n)[i] != '-',
    decreases n,
{
    if n >= 10 {
        lemma_decimal_shape(n / 10);
        let d = decimal(n / 10);
        assert forall|i: int| 0 <= i < decimal(n).len() implies #[trigger] decimal(n)[i] != '-' by {
            if i < d.len() {
                assert(decimal(n)[i] == d[i]);
            }
        }
    }
}

proof fn lemma_digit_char_injective(a: nat, b: nat)
    requires
        a < 10,
        b < 10,
        digit_char(a) == digit_char(b),
    ensures
        a == b,
{
}

proof fn lemma_decimal_injective(a: nat, b: nat)
    requires
        decimal(a) == decimal(b),
    ensures
        a == b,
    decreases a,
{
    lemma_decimal_shape(a);
    lemma_decimal_shape(b);
    if a >= 10 && b >= 10 {
        let da = decimal(a);
        assert(da.last() == digit_char(a % 10));
        assert(decimal(b).last() == digit_char(b % 10));
        assert(da.drop_last() =~= decimal(a / 10));
        assert(decimal(b).drop_last() =~= decimal(b / 10));
        lemma_decimal_injective(a / 10, b / 10);
        lemma_digit_char_injective(a % 10, b % 10);
        assert(a == 10 * (a / 10) + a % 10) by (nonlinear_arith);
        assert(b == 10 * (b / 10) + b % 10) by (nonlinear_arith);
    } else if a < 10 && b < 10 {
        assert(decimal(a) == seq![digit_char(a)]);
        assert(decimal(b) == seq![digit_char(b)]);
        assert(decimal(a)[0] == digit_char(a));
        assert(decimal(b)[0] == digit_char(b));
        lemma_digit_char_injective(a, b);
    }
}

/// Edits with different process ids or sequence numbers use different
/// temporary files.
pub proof fn law_temp_file_names_distinct(pid1: u32, seq1: u64, pid2: u32, seq2: u64)
    requires
        pid1 != pid2 || seq1 != seq2,
    ensures
        temp_file_name_spec(pid1, seq1) != temp_file_name_spec(pid2, seq2),
{
    if temp_file_name_spec(pid1, seq1) == temp_file_name_spec(pid2, seq2) {
        reveal_strlit("-");
        let pre = "aish-COMMIT_EDITMSG-"@;
        let p1 = decimal(pid1 as nat);
        let p2 = decimal(pid2 as nat);
        let s1 = decimal(seq1 as nat);
        let s2 = decimal(seq2 as nat);
        let x = p1 + "-"@ + s1;
        let y = p2 + "-"@ + s2;
        assert(temp_file_name_spec(pid1, seq1) =~= pre + x);
        assert(temp_file_name_spec(pid2, seq2) =~= pre + y);
        assert(x =~= (pre + x).subrange(pre.len() as int, (pre + x).len() as int));
        assert(y =~= (pre + y).subrange(pre.len() as int, (pre + y).len() as int));
        assert(x == y);
        lemma_decimal_shape(pid1 as nat);
        lemma_decimal_shape(pid2 as nat);
        if p1.len() < p2.len() {
            assert(x[p1.len() as int] == '-');
            assert(y[p1.len() as int] == p2[p1.len() as int]);
        } else if p2.len() < p1.len() {
            assert(y[p2.len() as int] == '-');
            assert(x[p2.len() as int] == p1[p2.len() as int]);
        } else {
            assert(p1 =~= x.subrange(0, p1.len() as int));
            assert(p2 =~= y.subrange(0, p2.len() as int));
            assert(s1 =~= x.subrange(p1.len() as int + 1, x.len() as int));
            assert(s2 =~= y.subrange(p2.len() as int + 1, y.len() as int));
            lemma_decimal_injective(pid1 as nat, pid2 as nat);
            lemma_decimal_injective(seq1 as nat, seq2 as nat);
        }
    }
}

/// An edit only ends once its temporary file is removed, unless the file
/// could not even be written.
pub proof fn law_edit_ends_after_cleanup(s: EditSessionView, e: EditEventView)
    requires
        edit_accepts(s, e),
        edit_transition(s, e).1 is Finish,
    ensures
        s is Removing || (s is Writing && e matches EditEventView::Written(Err(_))),
{
}

} // verus!

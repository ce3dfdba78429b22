use aish_commit::editor::{
    push_decimal, resolve_editor, temp_file_name, EditAction, EditEvent, EditSession, LaunchOutcome,
};

fn s(x: &str) -> String {
    x.to_string()
}

/// Drives an edit the way the program does, with the outcomes an editor
/// would produce, and returns the edit's result and the actions taken.
fn run_edit(
    editor: &str,
    message: &str,
    write: Result<(), String>,
    launch: LaunchOutcome,
    read_back: Result<String, String>,
) -> (Result<String, String>, Vec<String>) {
    let mut trace = Vec::new();
    let (mut session, mut action) = EditSession::start(s(editor), message, s("/tmp/f"));
    let mut write = Some(write);
    let mut launch = Some(launch);
    let mut read_back = Some(read_back);
    loop {
        let event = match action {
            EditAction::Write { path, contents } => {
                trace.push(format!("write {path} {contents}"));
                EditEvent::Written(write.take().unwrap())
            }
            EditAction::Launch { args } => {
                trace.push(format!("launch {}", args.join("|")));
                EditEvent::Launched(launch.take().unwrap())
            }
            EditAction::Read { path } => {
                trace.push(format!("read {path}"));
                EditEvent::ReadBack(read_back.take().unwrap())
            }
            EditAction::Remove { path } => {
                trace.push(format!("remove {path}"));
                EditEvent::Removed
            }
            EditAction::Finish { result } => return (result, trace),
        };
        assert!(session.expects(&event));
        let (next, next_action) = session.step(event);
        session = next;
        action = next_action;
    }
}

#[test]
fn resolve_prefers_visual_over_editor() {
    assert_eq!(resolve_editor(Some(s("vis")), Some(s("ed"))), "vis");
    assert_eq!(resolve_editor(None, Some(s("ed"))), "ed");
    assert_eq!(resolve_editor(None, None), "vi");
}

#[test]
fn resolve_skips_blank_values() {
    assert_eq!(resolve_editor(Some(s("  ")), Some(s("ed"))), "ed");
    assert_eq!(resolve_editor(Some(s("")), Some(s("\t"))), "vi");
    assert_eq!(resolve_editor(Some(s("code --wait")), None), "code --wait");
}

#[test]
fn edit_returns_editor_modified_content() {
    let (out, trace) = run_edit(
        "printf 'fix: edited subject' >",
        "feat: original",
        Ok(()),
        LaunchOutcome::Exited { success: true },
        Ok(s("fix: edited subject")),
    );
    assert_eq!(out.unwrap(), "fix: edited subject");
    assert_eq!(
        trace,
        vec![
            s("write /tmp/f feat: original"),
            s("launch -c|printf 'fix: edited subject' > \"$@\"|aish|/tmp/f"),
            s("read /tmp/f"),
            s("remove /tmp/f"),
        ]
    );
}

#[test]
fn edit_trims_trailing_whitespace() {
    let (out, _) = run_edit(
        "printf 'feat: x\\n\\n' >",
        "seed",
        Ok(()),
        LaunchOutcome::Exited { success: true },
        Ok(s("feat: x\n\n")),
    );
    assert_eq!(out.unwrap(), "feat: x");
}

#[test]
fn edit_surfaces_failure_when_editor_exits_nonzero() {
    let (out, trace) = run_edit(
        "false",
        "seed",
        Ok(()),
        LaunchOutcome::Exited { success: false },
        Ok(s("seed")),
    );
    let err = out.unwrap_err();
    assert!(err.contains("non-zero status"));
    assert_eq!(err, "editor `false` exited with a non-zero status");
    assert_eq!(trace.last().unwrap(), "remove /tmp/f");
}

#[test]
fn edit_reports_spawn_failure_before_read_failure() {
    let (out, _) = run_edit(
        "vim",
        "m",
        Ok(()),
        LaunchOutcome::SpawnFailed(s("no sh")),
        Err(s("gone")),
    );
    assert_eq!(out.unwrap_err(), "failed to launch editor `vim`: no sh");
}

#[test]
fn edit_reports_read_failure() {
    let (out, _) = run_edit(
        "vim",
        "m",
        Ok(()),
        LaunchOutcome::Exited { success: true },
        Err(s("gone")),
    );
    assert_eq!(out.unwrap_err(), "failed to read edited message: gone");
}

#[test]
fn edit_stops_when_write_fails() {
    let (out, trace) = run_edit(
        "vim",
        "m",
        Err(s("disk full")),
        LaunchOutcome::Exited { success: true },
        Ok(s("x")),
    );
    assert_eq!(out.unwrap_err(), "failed to write temp message file: disk full");
    assert_eq!(trace.len(), 1);
}

#[test]
fn temp_file_names() {
    assert_eq!(temp_file_name(4242, 0), "aish-COMMIT_EDITMSG-4242-0");
    assert_eq!(temp_file_name(1, 17), "aish-COMMIT_EDITMSG-1-17");
    assert_ne!(temp_file_name(1, 23), temp_file_name(12, 3));
}

#[test]
fn decimal_notation() {
    for n in [0u64, 7, 10, 99, 100, 12345, u64::MAX] {
        let mut out = s("x");
        push_decimal(&mut out, n);
        assert_eq!(out, format!("x{n}"));
    }
}

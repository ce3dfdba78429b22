use aish_commit::protocol::{service_error, ProtoError};
use aish_commit::session::{
    accepts_answer, settings_of, Action, ChatReply, Decision, Event, Invocation, Payload, Session,
    Usage,
};

fn s(x: &str) -> String {
    x.to_string()
}

fn invocation(args: &[&str]) -> Invocation {
    Invocation {
        cwd: s("/repo"),
        args: args.iter().map(|a| s(a)).collect(),
        style: None,
        language: None,
        model: Some(s("m1")),
    }
}

struct Script {
    invocation: Option<Invocation>,
    diff: Result<String, String>,
    reply: Result<ChatReply, String>,
    answer: Option<String>,
    commit: Result<(), String>,
}

/// Runs a session against scripted outcomes; returns the actions, rendered.
fn run(mut script: Script) -> Vec<String> {
    let mut log = Vec::new();
    let (mut session, mut action) = Session::start();
    loop {
        let event = match action {
            Action::ReadInvocation => match script.invocation.take() {
                Some(inv) => Event::Invoked(inv),
                None => Event::FrameError(s("host closed stdin")),
            },
            Action::StagedDiff { cwd } => {
                log.push(format!("diff {cwd}"));
                Event::Diff(script.diff.clone())
            }
            Action::Print { text } => {
                log.push(format!("print {text:?}"));
                Event::Printed
            }
            Action::Request { id, op, payload } => match payload {
                Payload::Chat(chat) => {
                    log.push(format!("request {id} {op} {} {}", chat.model, chat.messages.len()));
                    Event::Reply(std::mem::replace(&mut script.reply, Err(s("used"))))
                }
                Payload::Audit(a) => {
                    log.push(format!(
                        "request {id} {op} {} {} {} {} {} {}",
                        a.tool, a.provider, a.model, a.prompt_tokens, a.completion_tokens, a.decision
                    ));
                    Event::Recorded
                }
            },
            Action::Confirm { prompt } => {
                log.push(format!("confirm {prompt:?}"));
                Event::Answer(script.answer.take())
            }
            Action::Commit { cwd, message, signoff } => {
                log.push(format!("commit {cwd} {message:?} {signoff}"));
                Event::Committed(script.commit.clone())
            }
            Action::Finish { exit } => {
                log.push(format!("finish {exit}"));
                Event::Sent(Ok(()))
            }
            Action::Fail { error } => {
                log.push(format!("fail {error}"));
                return log;
            }
            Action::Complete => {
                log.push(s("complete"));
                return log;
            }
        };
        assert!(session.expects(&event));
        let (next, next_action) = session.step(event);
        session = next;
        action = next_action;
    }
}

fn reply(content: Option<&str>) -> Result<ChatReply, String> {
    Ok(ChatReply {
        content: content.map(s),
        usage: Usage { prompt_tokens: Some(11), completion_tokens: None },
    })
}

#[test]
fn applied_run() {
    let log = run(Script {
        invocation: Some(invocation(&["--apply", "--signoff"])),
        diff: Ok(s("diff --git a/x b/x")),
        reply: reply(Some("```\nfeat: add x\n```")),
        answer: None,
        commit: Ok(()),
    });
    assert_eq!(
        log,
        vec![
            s("diff /repo"),
            s("request 100 model.chat m1 2"),
            s("print \"\\nSuggested commit:\\n\\nfeat: add x\\n\\n\""),
            s("commit /repo \"feat: add x\" true"),
            s("print \"Committed.\\n\""),
            s("request 101 audit.record git.commit.message.generate  m1 11 0 applied"),
            s("finish 0"),
            s("complete"),
        ]
    );
}

#[test]
fn declined_run() {
    let log = run(Script {
        invocation: Some(invocation(&[])),
        diff: Ok(s("d")),
        reply: reply(Some("fix: y")),
        answer: Some(s("n\n")),
        commit: Ok(()),
    });
    assert!(log.contains(&s("confirm \"Accept? [Y/n] \"")));
    assert!(log.contains(&s("print \"Aborted.\\n\"")));
    assert!(log.iter().all(|l| !l.starts_with("commit")));
    assert!(log.iter().any(|l| l.ends_with("rejected")));
}

#[test]
fn accepted_by_empty_answer() {
    let log = run(Script {
        invocation: Some(invocation(&[])),
        diff: Ok(s("d")),
        reply: reply(Some("fix: y")),
        answer: Some(s("\n")),
        commit: Ok(()),
    });
    assert!(log.contains(&s("commit /repo \"fix: y\" false")));
}

#[test]
fn nothing_staged() {
    let log = run(Script {
        invocation: Some(invocation(&["--apply"])),
        diff: Ok(s("  \n")),
        reply: reply(Some("unused")),
        answer: None,
        commit: Ok(()),
    });
    assert_eq!(
        log,
        vec![
            s("diff /repo"),
            s("print \"Nothing staged. Run `git add` first.\\n\""),
            s("finish 0"),
            s("complete"),
        ]
    );
}

#[test]
fn unusable_reply_fails() {
    let log = run(Script {
        invocation: Some(invocation(&["--apply"])),
        diff: Ok(s("d")),
        reply: reply(Some("```")),
        answer: None,
        commit: Ok(()),
    });
    assert_eq!(
        log.last().unwrap(),
        "fail model returned empty/unusable message; not committing. raw: \"```\""
    );
    let log = run(Script {
        invocation: Some(invocation(&["--apply"])),
        diff: Ok(s("d")),
        reply: reply(None),
        answer: None,
        commit: Ok(()),
    });
    assert_eq!(
        log.last().unwrap(),
        "fail model returned empty/unusable message; not committing. raw: \"\""
    );
}

#[test]
fn errors_end_the_run() {
    let log = run(Script {
        invocation: None,
        diff: Ok(s("d")),
        reply: reply(Some("x")),
        answer: None,
        commit: Ok(()),
    });
    assert_eq!(log, vec![s("fail host closed stdin")]);
    let log = run(Script {
        invocation: Some(invocation(&[])),
        diff: Err(s("fatal: not a git repository")),
        reply: reply(Some("x")),
        answer: None,
        commit: Ok(()),
    });
    assert_eq!(log.last().unwrap(), "fail fatal: not a git repository");
    let log = run(Script {
        invocation: Some(invocation(&["--apply"])),
        diff: Ok(s("d")),
        reply: reply(Some("x")),
        answer: None,
        commit: Err(s("hook failed")),
    });
    assert_eq!(log.last().unwrap(), "fail hook failed");
    let log = run(Script {
        invocation: Some(invocation(&[])),
        diff: Ok(s("d")),
        reply: Err(s("quota: exceeded")),
        answer: None,
        commit: Ok(()),
    });
    assert_eq!(log.last().unwrap(), "fail quota: exceeded");
}

#[test]
fn settings_defaults_and_flags() {
    let st = settings_of(Invocation {
        cwd: s("/w"),
        args: vec![s("--signoff")],
        style: None,
        language: Some(s("fr")),
        model: None,
    });
    assert!(!st.apply);
    assert!(st.signoff);
    assert_eq!(st.style, "conventional");
    assert_eq!(st.language, "fr");
    assert_eq!(st.model, "default");
}

#[test]
fn answers() {
    assert!(accepts_answer(&Some(s("Y\n"))));
    assert!(accepts_answer(&Some(s("  yes "))));
    assert!(accepts_answer(&Some(s("YES"))));
    assert!(accepts_answer(&Some(s(""))));
    assert!(!accepts_answer(&Some(s("no"))));
    assert!(!accepts_answer(&Some(s("yep"))));
    assert!(!accepts_answer(&None));
}

#[test]
fn service_errors() {
    let e = Some(ProtoError { code: s("E42"), message: s("bad") });
    assert_eq!(service_error(&e), "E42: bad");
    assert_eq!(service_error(&None), "service error");
}

#[test]
fn decision_values() {
    assert_ne!(Decision::Applied, Decision::Rejected);
}

use aish_commit::git::{command_outcome, commit_args, diff_args, spawn_error};

#[test]
fn commit_arguments() {
    assert_eq!(commit_args("feat: x", false), vec!["commit", "-m", "feat: x"]);
    assert_eq!(commit_args("feat: x", true), vec!["commit", "-m", "feat: x", "-s"]);
    assert_eq!(diff_args(), vec!["diff", "--cached"]);
}

#[test]
fn command_outcomes() {
    assert_eq!(command_outcome(true, "out".into(), "err".into()), Ok("out".to_string()));
    assert_eq!(command_outcome(false, "out".into(), "err".into()), Err("err".to_string()));
    assert_eq!(spawn_error("not found"), "running git: not found");
}

//! The git commands the plugin runs, and how their outcome is read.
use vstd::prelude::*;

verus! {

/// The arguments of `git diff --cached`.
pub fn diff_args() -> (args: Vec<String>)
    ensures
        args@.map_values(|a: String| a@) == seq!["diff"@, "--cached"@],
{
    let mut args: Vec<String> = Vec::new();
    args.push("diff".to_owned());
    args.push("--cached".to_owned());
    assert(args@.map_values(|a: String| a@) =~= seq!["diff"@, "--cached"@]);
    args
}

/// The arguments of the commit: `commit -m <message>`, then `-s` when the
/// commit is to be signed off.
pub open spec fn commit_args_spec(message: Seq<char>, signoff: bool) -> Seq<Seq<char>> {
    if signoff {
        seq!["commit"@, "-m"@, message, "-s"@]
    } else {
        seq!["commit"@, "-m"@, message]
    }
}

pub fn commit_args(message: &str, signoff: bool) -> (args: Vec<String>)
    ensures
        args@.map_values(|a: String| a@) == commit_args_spec(message@, signoff),
        args@.len() == if signoff { 4int } else { 3int },
        args@[0]@ == "commit"@,
        args@[1]@ == "-m"@,
        args@[2]@ == message@,
        signoff ==> args@[3]@ == "-s"@,
{
    let mut args: Vec<String> = Vec::new();
    args.push("commit".to_owned());
    args.push("-m".to_owned());
    args.push(message.to_owned());
    if signoff {
        args.push("-s".to_owned());
    }
    assert(args@.map_values(|a: String| a@) =~= commit_args_spec(message@, signoff));
    args
}

/// The error when git could not be started.
pub fn spawn_error(cause: &str) -> (r: String)
    ensures
        r@ == "running git: "@ + cause@,
{
    let mut r = "running git: ".to_owned();
    r.append(cause);
    r
}

/// What a finished git command yields: its standard output when it
/// succeeded, its standard error otherwise.
pub fn command_outcome(success: bool, stdout: String, stderr: String) -> (r: Result<String, String>)
    ensures
        success ==> (r matches Ok(out) && out@ == stdout@),
        !success ==> (r matches Err(err) && err@ == stderr@),
{
    if success {
        Ok(stdout)
    } else {
        Err(stderr)
    }
}

/// The message reaches git whole: the argument after `-m` is the message
/// itself, unchanged (multi-line messages included), and `-s` is added
/// exactly when a sign-off is asked for.
pub proof fn law_commit_message_passed_whole(message: Seq<char>, signoff: bool)
    ensures
        commit_args_spec(message, signoff)[1] == "-m"@,
        commit_args_spec(message, signoff)[2] == message,
        commit_args_spec(message, signoff).len() == 3 + (if signoff { 1int } else { 0int }),
        signoff ==> commit_args_spec(message, signoff)[3] == "-s"@,
{
}

} // verus!

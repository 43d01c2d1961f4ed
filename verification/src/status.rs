//! What the library asks the host to do: show an installation status, or run
//! a process.

use vstd::prelude::*;
use crate::text::views;

verus! {

/// The installation status shown for a language server (`Cleared`: none).
#[derive(Debug, Clone, Copy, PartialEq, Eq, Structural)]
pub enum InstallStatus {
    Cleared,
    Downloading,
    CheckingForUpdate,
}

/// A process to run and wait for.
#[derive(Debug)]
pub struct ProcessRequest {
    pub program: String,
    pub args: Vec<String>,
    /// Whether the process gets the worktree's shell environment.
    pub with_shell_env: bool,
}

/// What a finished process reported: its exit status (none when it was
/// killed by a signal) and its output, decoded as UTF-8 with replacement.
pub struct ProcessOutput {
    pub status: Option<i32>,
    pub stdout: String,
    pub stderr: String,
}

/// Whether `r` runs `program` with `args`, with or without the shell
/// environment.
pub open spec fn runs(r: ProcessRequest, program: Seq<char>, args: Seq<Seq<char>>, shell_env: bool) -> bool {
    &&& r.program@ == program
    &&& views(r.args@) == args
    &&& r.with_shell_env == shell_env
}

/// Whether the process exited with status 0.
pub open spec fn succeeded(out: ProcessOutput) -> bool {
    out.status == Some(0i32)
}

/// Builds a process request from its parts.
pub fn process_request(program: &str, args: Vec<String>, with_shell_env: bool) -> (r: ProcessRequest)
    ensures
        r.program@ == program@,
        r.args@ == args@,
        r.with_shell_env == with_shell_env,
{
    ProcessRequest { program: String::from_str(program), args, with_shell_env }
}

/// A list of strings from `a`.
pub fn strings1(a: &str) -> (r: Vec<String>)
    ensures
        views(r@) == seq![a@],
{
    let mut v = Vec::new();
    v.push(String::from_str(a));
    assert(views(v@) =~= seq![a@]);
    v
}

/// A list of strings from `a` and `b`.
pub fn strings2(a: &str, b: &str) -> (r: Vec<String>)
    ensures
        views(r@) == seq![a@, b@],
{
    let mut v = Vec::new();
    v.push(String::from_str(a));
    v.push(String::from_str(b));
    assert(views(v@) =~= seq![a@, b@]);
    v
}

} // verus!

//! The command line that an operation runs, and the stage it runs in.

use vstd::prelude::*;
use crate::operation::Operation;
use crate::version::{configured_view, resolve_version, resolved_version};

verus! {

/// The package runner that starts the tool: the first word of every command.
pub open spec fn runner() -> Seq<char> {
    "pkgx"@
}

/// The tool's name, as the package runner knows it.
pub open spec fn tool() -> Seq<char> {
    "terraform"@
}

/// The tool pinned to a release: the tool's name, an `@`, and the release.
pub open spec fn package(version: Seq<char>) -> Seq<char> {
    tool() + "@"@ + version
}

/// The command of an operation: the runner, the pinned tool, the operation's
/// verb and, as one last word, the caller's arguments as they were given.
pub open spec fn command_line(op: Operation, version: Seq<char>, args: Seq<char>) -> Seq<
    Seq<char>,
> {
    seq![runner(), package(version), op.verb(), args]
}

/// What the host is asked to do for one call of an operation.
#[derive(Debug)]
pub struct Invocation {
    /// The name of the pipeline stage to open.
    pub stage: String,
    /// The command to run in that stage, word by word.
    pub command: Vec<String>,
}

/// An `Invocation` as the contracts see it.
pub struct InvocationView {
    pub stage: Seq<char>,
    pub command: Seq<Seq<char>>,
}

impl View for Invocation {
    type V = InvocationView;

    open spec fn view(&self) -> InvocationView {
        InvocationView { stage: self.stage@, command: words(self.command@) }
    }
}

/// The words of a command, each as a sequence of characters.
pub open spec fn words(command: Seq<String>) -> Seq<Seq<char>> {
    Seq::new(command.len(), |i: int| command[i]@)
}

/// The invocation that an operation makes for a configured release and the
/// caller's arguments.
pub open spec fn invocation(op: Operation, configured: Option<Seq<char>>, args: Seq<char>)
    -> InvocationView {
    InvocationView {
        stage: op.verb(),
        command: command_line(op, resolved_version(configured), args),
    }
}

/// Names the tool at a release.
pub fn pinned_tool(version: &str) -> (name: String)
    ensures
        name@ == package(version@),
{
    "terraform".to_owned().concat("@").concat(version)
}

/// Builds the command of an operation for a resolved release.
pub fn build_command(op: Operation, version: &str, args: String) -> (command: Vec<String>)
    ensures
        words(command@) == command_line(op, version@, args@),
{
    let ghost given = args@;
    let mut command: Vec<String> = Vec::new();
    command.push("pkgx".to_owned());
    command.push(pinned_tool(version));
    command.push(op.name().to_owned());
    command.push(args);
    assert(words(command@) =~= command_line(op, version@, given));
    command
}

/// Prepares what the host is asked to do for an operation.
pub fn prepare(op: Operation, configured: Option<String>, args: String) -> (request: Invocation)
    ensures
        request@ == invocation(op, configured_view(configured), args@),
{
    let version = resolve_version(configured);
    let command = build_command(op, version.as_str(), args);
    Invocation { stage: op.name().to_owned(), command }
}

} // verus!

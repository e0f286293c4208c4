//! What holds of every invocation, whichever operation makes it.

use vstd::prelude::*;
use crate::command::{invocation, package, runner, tool};
use crate::operation::Operation;
use crate::version::{default_version, resolved_version};

verus! {

/// With no release configured, or with the empty string configured, every
/// operation uses the release `latest` and asks the runner for
/// `terraform@latest`.
pub proof fn lemma_unset_version_is_latest(
    op: Operation,
    configured: Option<Seq<char>>,
    args: Seq<char>,
)
    requires
        configured is None || configured == Some(Seq::<char>::empty()),
    ensures
        resolved_version(configured) == "latest"@,
        invocation(op, configured, args).command[1] == "terraform@latest"@,
{
    reveal_strlit("latest");
    reveal_strlit("terraform");
    reveal_strlit("@");
    reveal_strlit("terraform@latest");
    assert(resolved_version(configured) == default_version());
    assert(package("latest"@) =~= "terraform@latest"@);
}

/// With a release configured that is not the empty string, every operation
/// asks the runner for the tool's name, an `@` and that release: this is the
/// runner's first argument.
pub proof fn lemma_pinned_version_is_used(op: Operation, pinned: Seq<char>, args: Seq<char>)
    requires
        pinned.len() > 0,
    ensures
        resolved_version(Some(pinned)) == pinned,
        invocation(op, Some(pinned), args).command[0] == runner(),
        invocation(op, Some(pinned), args).command[1] == tool() + seq!['@'] + pinned,
{
    reveal_strlit("@");
    assert("@"@ =~= seq!['@']);
}

/// The caller's arguments are the last word of every command, unchanged and
/// in one piece, whatever they hold and whatever is configured.
pub proof fn lemma_arguments_are_forwarded(
    op: Operation,
    configured: Option<Seq<char>>,
    args: Seq<char>,
)
    ensures
        invocation(op, configured, args).command.len() == 4,
        invocation(op, configured, args).command.last() == args,
{
}

/// An operation runs in the stage that carries its verb, and its command
/// names that verb right before the caller's arguments.
pub proof fn lemma_stage_and_verb(op: Operation, configured: Option<Seq<char>>, args: Seq<char>)
    ensures
        invocation(op, configured, args).stage == op.verb(),
        invocation(op, configured, args).command[2] == op.verb(),
{
}

} // verus!

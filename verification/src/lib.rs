//! Verified core of a Terraform pipeline plugin.
//!
//! The plugin offers four operations, `init`, `validate`, `plan` and `apply`.
//! Each one runs the Terraform command-line tool through the `pkgx` package
//! runner, inside a pipeline stage that the host runtime manages. This crate
//! holds everything such an operation decides: which release of the tool is
//! asked for, which stage is opened and which command line is run there. The
//! host calls themselves are made by the caller, which hands in what it read
//! from the environment and hands back what the host reported.

use vstd::prelude::*;
use crate::command::{invocation, prepare, Invocation};
use crate::operation::Operation;
use crate::version::configured_view;

pub mod command;
pub mod laws;
pub mod operation;
pub mod version;

verus! {

/// Prepares `terraform init`: the stage `init` and the command
/// `pkgx terraform@<release> init <args>`, with `args` as one word.
pub fn init(tf_version: Option<String>, args: String) -> (request: Invocation)
    ensures
        request@ == invocation(Operation::Init, configured_view(tf_version), args@),
{
    prepare(Operation::Init, tf_version, args)
}

/// Prepares `terraform validate`: the stage `validate` and the command
/// `pkgx terraform@<release> validate <args>`, with `args` as one word.
pub fn validate(tf_version: Option<String>, args: String) -> (request: Invocation)
    ensures
        request@ == invocation(Operation::Validate, configured_view(tf_version), args@),
{
    prepare(Operation::Validate, tf_version, args)
}

/// Prepares `terraform plan`: the stage `plan` and the command
/// `pkgx terraform@<release> plan <args>`, with `args` as one word.
pub fn plan(tf_version: Option<String>, args: String) -> (request: Invocation)
    ensures
        request@ == invocation(Operation::Plan, configured_view(tf_version), args@),
{
    prepare(Operation::Plan, tf_version, args)
}

/// Prepares `terraform apply`: the stage `apply` and the command
/// `pkgx terraform@<release> apply <args>`, with `args` as one word.
pub fn apply(tf_version: Option<String>, args: String) -> (request: Invocation)
    ensures
        request@ == invocation(Operation::Apply, configured_view(tf_version), args@),
{
    prepare(Operation::Apply, tf_version, args)
}

/// What an operation returns for what the host reported of its command: the
/// captured output as it is, or the host's failure as it is. A failure never
/// turns into output, and output is never cut or replaced.
pub fn conclude<E>(outcome: Result<String, E>) -> (result: Result<String, E>)
    ensures
        result == outcome,
        outcome is Err ==> result is Err,
        outcome matches Ok(output) ==> result == Ok::<String, E>(output),
{
    match outcome {
        Ok(output) => Ok(output),
        Err(failure) => Err(failure),
    }
}

} // verus!

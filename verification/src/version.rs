//! Which release of the tool an operation asks for.

use vstd::prelude::*;

verus! {

/// The name of the environment variable that pins the release.
pub open spec fn version_variable() -> Seq<char> {
    "TF_VERSION"@
}

/// The release asked for when none is pinned.
pub open spec fn default_version() -> Seq<char> {
    "latest"@
}

/// The release that is used for a configured value: the value itself, or
/// `default_version()` where nothing, or the empty string, is configured.
pub open spec fn resolved_version(configured: Option<Seq<char>>) -> Seq<char> {
    match configured {
        Some(pinned) => if pinned.len() == 0 {
            default_version()
        } else {
            pinned
        },
        None => default_version(),
    }
}

/// The configured value as the contracts see it.
pub open spec fn configured_view(configured: Option<String>) -> Option<Seq<char>> {
    match configured {
        Some(pinned) => Some(pinned@),
        None => None,
    }
}

/// Gives the variable's name, for the caller that looks it up.
pub fn variable_name() -> (name: &'static str)
    ensures
        name@ == version_variable(),
{
    "TF_VERSION"
}

/// Reads what is configured out of the host's answer to a lookup of the
/// variable. A lookup that failed counts as a variable that is not set: its
/// error is dropped, and the operation goes on with the default release.
pub fn configured_version<E>(lookup: Result<String, E>) -> (configured: Option<String>)
    ensures
        lookup matches Ok(value) ==> configured == Some(value),
        lookup is Err ==> configured is None,
{
    match lookup {
        Ok(value) => Some(value),
        Err(_) => None,
    }
}

/// Resolves the release to use from what is configured.
pub fn resolve_version(configured: Option<String>) -> (version: String)
    ensures
        version@ == resolved_version(configured_view(configured)),
        version@.len() > 0,
{
    proof {
        reveal_strlit("latest");
    }
    match configured {
        Some(pinned) => {
            if pinned.as_str().is_empty() {
                "latest".to_owned()
            } else {
                pinned
            }
        },
        None => "latest".to_owned(),
    }
}

} // verus!

//! Resolved configuration for one run of the pipeline.

use vstd::prelude::*;

verus! {

/// The resolved endpoints and silence flag. An empty path selects the
/// process's standard stream for that endpoint.
pub struct Args {
    pub infile: String,
    pub outfile: String,
    pub silent: bool,
}

/// Silence is requested either by the command flag or by a non-empty
/// environment override (resolved by the caller and handed in as a plain
/// value).
pub fn resolve_silent(flag: bool, env_value: Option<&str>) -> (r: bool)
    ensures
        r == (flag || (env_value matches Some(s) && s@.len() > 0)),
{
    if flag {
        true
    } else {
        match env_value {
            Some(s) => !s.is_empty(),
            None => false,
        }
    }
}

} // verus!

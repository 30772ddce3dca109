//! Credential resolution: an optional bearer token picked from a fixed
//! precedence chain of sources.
//!
//! The sources themselves (a value baked in at build time, environment
//! variables, a dotenv-style file) are read by the caller; this module owns
//! the precedence rule alone.

use vstd::prelude::*;

verus! {

/// The precedence rule: the build-time token wins, then the token from the
/// application's own environment variable, then the generic provider
/// fallback. Absence everywhere is a legal outcome.
pub open spec fn spec_resolve_credential(
    build_time: Option<String>,
    primary: Option<String>,
    fallback: Option<String>,
) -> Option<String> {
    if build_time is Some {
        build_time
    } else if primary is Some {
        primary
    } else {
        fallback
    }
}

/// Picks the bearer token from the three sources, first hit wins.
pub fn resolve_credential(
    build_time: Option<String>,
    primary: Option<String>,
    fallback: Option<String>,
) -> (r: Option<String>)
    ensures
        r == spec_resolve_credential(build_time, primary, fallback),
{
    match build_time {
        Some(t) => Some(t),
        None => match primary {
            Some(t) => Some(t),
            None => fallback,
        },
    }
}

/// A build-time token takes precedence over any runtime token.
pub proof fn lemma_build_time_token_wins(
    token: String,
    primary: Option<String>,
    fallback: Option<String>,
)
    ensures
        spec_resolve_credential(Some(token), primary, fallback) == Some(token),
{
}

/// With no build-time token and no primary runtime token, the fallback
/// provider value is returned.
pub proof fn lemma_fallback_token_used(token: String)
    ensures
        spec_resolve_credential(None, None, Some(token)) == Some(token),
{
}

} // verus!

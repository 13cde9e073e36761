use vstd::prelude::*;

use crate::data::secrets::Secrets;

verus! {

/// Where the credential of this run comes from.
#[derive(Debug, Clone)]
pub enum Start {
    /// The credential is at hand; nothing is fetched or read.
    Ready(Secrets),
    /// The cache is read first.
    ReadCache,
    /// The authorisation flow is run.
    Authorise,
}

/// An operator-supplied token wins over the cache and the authorisation flow;
/// otherwise the cache is tried where caching is enabled.
pub fn start(token: Option<String>, cache_enabled: bool) -> (r: Start)
    ensures
        match token {
            Some(t) => r matches Start::Ready(s) && s.client is None && s.new && s.token@ == t@,
            None => if cache_enabled {
                r is ReadCache
            } else {
                r is Authorise
            },
        },
{
    match token {
        Some(t) => Start::Ready(Secrets::explicit(t)),
        None => if cache_enabled {
            Start::ReadCache
        } else {
            Start::Authorise
        },
    }
}

/// After the cache was tried: its credential, or the authorisation flow on a
/// miss.
pub fn after_cache(loaded: Option<Secrets>) -> (r: Start)
    ensures
        match loaded {
            Some(s) => r == Start::Ready(s),
            None => r is Authorise,
        },
{
    match loaded {
        Some(s) => Start::Ready(s),
        None => Start::Authorise,
    }
}

/// What is done with the credential when the run ends.
#[derive(Debug, Clone, Copy, PartialEq, Eq, Structural)]
pub enum ShutdownAction {
    Save,
    Revoke,
    Nothing,
}

pub open spec fn shutdown_spec(cache_enabled: bool, is_fresh: bool, explicit: bool) -> ShutdownAction {
    if cache_enabled && is_fresh {
        ShutdownAction::Save
    } else if !cache_enabled && !explicit {
        ShutdownAction::Revoke
    } else {
        ShutdownAction::Nothing
    }
}

/// A fresh credential is saved where caching is enabled; without caching a
/// minted token is revoked and a supplied one left alone; an unchanged cached
/// credential is left alone.
pub fn shutdown_action(cache_enabled: bool, is_fresh: bool, explicit: bool) -> (r: ShutdownAction)
    ensures
        r == shutdown_spec(cache_enabled, is_fresh, explicit),
        cache_enabled && is_fresh ==> r == ShutdownAction::Save,
        !cache_enabled && !explicit ==> r == ShutdownAction::Revoke,
        !cache_enabled && explicit ==> r == ShutdownAction::Nothing,
        cache_enabled && !is_fresh ==> r == ShutdownAction::Nothing,
{
    if cache_enabled && is_fresh {
        ShutdownAction::Save
    } else if !cache_enabled && !explicit {
        ShutdownAction::Revoke
    } else {
        ShutdownAction::Nothing
    }
}

/// An operator-supplied token is never revoked, whatever the other two flags.
pub proof fn lemma_explicit_never_revoked(cache_enabled: bool, is_fresh: bool)
    ensures
        shutdown_spec(cache_enabled, is_fresh, true) != ShutdownAction::Revoke,
{
}

/// A credential read from the cache is neither saved again nor revoked while
/// caching stays enabled.
pub proof fn lemma_cached_credential_kept(explicit: bool)
    ensures
        shutdown_spec(true, false, explicit) == ShutdownAction::Nothing,
{
}

} // verus!

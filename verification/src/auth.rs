//! Token authentication policy: when to reuse, refresh or re-mint
//! credentials, and how grant-flow outcomes become credentials.
//!
//! Each decision is a plan: the planner inspects credentials and policy and
//! says what the driver must do, before any network call; the matching
//! finish step folds the remote outcome back into credentials. Every knob
//! fails closed: with the knob off the planner surfaces an error instead of
//! silently acting.

use vstd::prelude::*;
use crate::credentials::{views_of, Credentials};
use crate::errors::AuthError;

verus! {

/// The three independently toggleable policy knobs. Everything defaults to
/// off: fail closed, surface an error rather than silently act.
#[derive(Clone, Copy, Debug, PartialEq, Eq, Structural)]
pub struct AuthPolicy {
    /// Exchange the refresh token when the access token has expired.
    pub refresh_on_expire: bool,
    /// Run the grant flow again when the granted scopes fall short.
    pub reauth_on_missing_scope: bool,
    /// Run the grant flow when no credentials are cached at all.
    pub auth_if_absent: bool,
}

impl Default for AuthPolicy {
    /// All knobs off: fail closed.
    fn default() -> (p: AuthPolicy)
        ensures
            !p.refresh_on_expire && !p.reauth_on_missing_scope && !p.auth_if_absent,
    {
        AuthPolicy { refresh_on_expire: false, reauth_on_missing_scope: false, auth_if_absent: false }
    }
}

/// The access token is stale at `now` (seconds since the epoch).
pub open spec fn expired(c: Credentials, now: u64) -> bool {
    c.expires_at <= now
}

/// The scope `s` is among the granted ones.
pub open spec fn scope_granted(granted: Seq<String>, s: Seq<char>) -> bool {
    exists|j: int| 0 <= j < granted.len() && granted[j]@ == s
}

/// Every requested scope is among the granted ones.
pub open spec fn scopes_sufficient(granted: Seq<String>, requested: Seq<String>) -> bool {
    forall|i: int| 0 <= i < requested.len() ==> scope_granted(granted, (#[trigger] requested[i])@)
}

/// What to do about an expired or still-valid access token.
#[derive(Clone, Copy, Debug, PartialEq, Eq, Structural)]
pub enum RefreshStep {
    /// The token is still valid: keep using it, make no network call.
    Keep,
    /// The token is stale and policy allows a refresh: exchange the refresh
    /// token with the remote service.
    Exchange,
}

/// Decides what a refresh request means for `c` at time `now`. Refreshing
/// credentials that are not yet expired is a no-op keeping the same token:
/// no network call is asked for. A stale token is exchanged only when the
/// policy allows it; otherwise the staleness is surfaced, never acted on
/// silently, and the access token is never handed out past its expiry.
pub fn plan_refresh(c: &Credentials, now: u64, policy: &AuthPolicy) -> (r: Result<
    RefreshStep,
    AuthError,
>)
    ensures
        !expired(*c, now) ==> r == Ok::<RefreshStep, AuthError>(RefreshStep::Keep),
        expired(*c, now) && policy.refresh_on_expire ==> r == Ok::<RefreshStep, AuthError>(
            RefreshStep::Exchange,
        ),
        expired(*c, now) && !policy.refresh_on_expire ==> r == Err::<RefreshStep, AuthError>(
            AuthError::RefreshExpired,
        ),
{
    if now < c.expires_at {
        Ok(RefreshStep::Keep)
    } else if policy.refresh_on_expire {
        Ok(RefreshStep::Exchange)
    } else {
        Err(AuthError::RefreshExpired)
    }
}

/// What the remote token endpoint answered to a refresh-token exchange.
pub enum RefreshOutcome {
    /// A fresh grant: new tokens, new expiry, the scopes it carries.
    Granted { access_token: String, refresh_token: String, expires_at: u64, scopes: Vec<String> },
    /// The refresh token itself was rejected; a full re-authentication is
    /// required.
    Rejected,
}

/// Folds the remote answer to a refresh into credentials: a grant becomes
/// the new credentials verbatim, a rejection is `RefreshExpired`.
pub fn finish_refresh(outcome: RefreshOutcome) -> (r: Result<Credentials, AuthError>)
    ensures
        outcome matches RefreshOutcome::Granted { access_token, refresh_token, expires_at, scopes }
            ==> (r matches Ok(c) && c.access_token@ == access_token@ && c.refresh_token@
            == refresh_token@ && c.expires_at == expires_at && views_of(c.scopes@) == views_of(
            scopes@,
        )),
        outcome matches RefreshOutcome::Rejected ==> r == Err::<Credentials, AuthError>(
            AuthError::RefreshExpired,
        ),
{
    match outcome {
        RefreshOutcome::Granted { access_token, refresh_token, expires_at, scopes } => Ok(
            Credentials { access_token, refresh_token, expires_at, scopes },
        ),
        RefreshOutcome::Rejected => Err(AuthError::RefreshExpired),
    }
}

/// Whether the scope `s` is among the granted ones.
pub fn has_scope(granted: &Vec<String>, s: &String) -> (b: bool)
    ensures
        b == scope_granted(granted@, s@),
{
    let mut j: usize = 0;
    while j < granted.len()
        invariant
            j <= granted@.len(),
            forall|k: int| 0 <= k < j ==> granted@[k]@ != s@,
        decreases granted@.len() - j,
    {
        if granted[j].eq(s) {
            return true;
        }
        j = j + 1;
    }
    false
}

/// What to do about requested scopes the token does not carry.
#[derive(Clone, Copy, Debug, PartialEq, Eq, Structural)]
pub enum ScopeStep {
    /// Every requested scope is granted: nothing to do.
    Satisfied,
    /// Scopes are missing and policy allows minting a new token: run the
    /// grant flow again.
    Reauthenticate,
}

/// Checks the granted scopes of `c` against the requested ones. When they
/// all are granted nothing needs doing; when some are missing, policy
/// decides between a transparent re-authentication and surfacing
/// `InsufficientScope` — never a silent pass.
pub fn ensure_scope(c: &Credentials, requested: &Vec<String>, policy: &AuthPolicy) -> (r: Result<
    ScopeStep,
    AuthError,
>)
    ensures
        scopes_sufficient(c.scopes@, requested@) ==> r == Ok::<ScopeStep, AuthError>(
            ScopeStep::Satisfied,
        ),
        !scopes_sufficient(c.scopes@, requested@) && policy.reauth_on_missing_scope ==> r == Ok::<
            ScopeStep,
            AuthError,
        >(ScopeStep::Reauthenticate),
        !scopes_sufficient(c.scopes@, requested@) && !policy.reauth_on_missing_scope ==> r
            == Err::<ScopeStep, AuthError>(AuthError::InsufficientScope),
{
    let mut i: usize = 0;
    let mut all_there = true;
    while i < requested.len()
        invariant
            i <= requested@.len(),
            all_there == (forall|k: int|
                0 <= k < i ==> scope_granted(c.scopes@, (#[trigger] requested@[k])@)),
        decreases requested@.len() - i,
    {
        if !has_scope(&c.scopes, &requested[i]) {
            all_there = false;
        }
        i = i + 1;
    }
    if all_there {
        Ok(ScopeStep::Satisfied)
    } else if policy.reauth_on_missing_scope {
        Ok(ScopeStep::Reauthenticate)
    } else {
        Err(AuthError::InsufficientScope)
    }
}

/// How a session gets its first credentials.
#[derive(Clone, Copy, Debug, PartialEq, Eq, Structural)]
pub enum CredentialsPlan {
    /// Cached credentials exist: use them.
    UseCached,
    /// Nothing is cached and policy allows it: run the grant flow once.
    Authenticate,
}

/// Decides how to obtain initial credentials. Cached ones are always used;
/// with nothing cached, the grant flow runs only when the policy allows
/// minting a token, and otherwise the absence is surfaced as `AuthDenied`.
pub fn plan_initial_credentials(cached_present: bool, policy: &AuthPolicy) -> (r: Result<
    CredentialsPlan,
    AuthError,
>)
    ensures
        cached_present ==> r == Ok::<CredentialsPlan, AuthError>(CredentialsPlan::UseCached),
        !cached_present && policy.auth_if_absent ==> r == Ok::<CredentialsPlan, AuthError>(
            CredentialsPlan::Authenticate,
        ),
        !cached_present && !policy.auth_if_absent ==> r == Err::<CredentialsPlan, AuthError>(
            AuthError::AuthDenied,
        ),
{
    if cached_present {
        Ok(CredentialsPlan::UseCached)
    } else if policy.auth_if_absent {
        Ok(CredentialsPlan::Authenticate)
    } else {
        Err(AuthError::AuthDenied)
    }
}

/// What the interactive or headless grant flow ended in.
pub enum AuthOutcome {
    /// The user granted: the minted tokens, expiry and scopes.
    Granted { access_token: String, refresh_token: String, expires_at: u64, scopes: Vec<String> },
    /// The user rejected the grant.
    Denied,
    /// No response arrived within the flow's bound.
    TimedOut,
}

/// Folds the grant-flow outcome into credentials: a grant becomes the new
/// credentials verbatim, a rejection is `AuthDenied`, silence is
/// `AuthTimeout`.
pub fn finish_authenticate(outcome: AuthOutcome) -> (r: Result<Credentials, AuthError>)
    ensures
        outcome matches AuthOutcome::Granted { access_token, refresh_token, expires_at, scopes }
            ==> (r matches Ok(c) && c.access_token@ == access_token@ && c.refresh_token@
            == refresh_token@ && c.expires_at == expires_at && views_of(c.scopes@) == views_of(
            scopes@,
        )),
        outcome matches AuthOutcome::Denied ==> r == Err::<Credentials, AuthError>(
            AuthError::AuthDenied,
        ),
        outcome matches AuthOutcome::TimedOut ==> r == Err::<Credentials, AuthError>(
            AuthError::AuthTimeout,
        ),
{
    match outcome {
        AuthOutcome::Granted { access_token, refresh_token, expires_at, scopes } => Ok(
            Credentials { access_token, refresh_token, expires_at, scopes },
        ),
        AuthOutcome::Denied => Err(AuthError::AuthDenied),
        AuthOutcome::TimedOut => Err(AuthError::AuthTimeout),
    }
}

} // verus!

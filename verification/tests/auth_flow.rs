use eventsub_core::auth::{
    ensure_scope, finish_authenticate, finish_refresh, has_scope, plan_initial_credentials,
    plan_refresh, AuthOutcome, AuthPolicy, CredentialsPlan, RefreshOutcome, RefreshStep, ScopeStep,
};
use eventsub_core::client::SessionBuilder;
use eventsub_core::credentials::Credentials;
use eventsub_core::errors::AuthError;
use eventsub_core::subscribe::Topic;

fn creds_with(expires_at: u64, scopes: &[&str]) -> Credentials {
    Credentials {
        access_token: "a".to_string(),
        refresh_token: "r".to_string(),
        expires_at,
        scopes: scopes.iter().map(|s| s.to_string()).collect(),
    }
}

fn permissive() -> AuthPolicy {
    AuthPolicy {
        refresh_on_expire: true,
        reauth_on_missing_scope: true,
        auth_if_absent: true,
    }
}

#[test]
fn refresh_of_valid_token_is_a_no_op() {
    // Auto-refresh is configured, the token is still valid: no network
    // call is planned and the same token stays in use.
    let c = creds_with(10_000, &[]);
    let r = plan_refresh(&c, 9_999, &permissive());
    assert_eq!(r, Ok(RefreshStep::Keep));
}

#[test]
fn expired_token_is_exchanged_only_when_allowed() {
    let c = creds_with(10_000, &[]);
    assert_eq!(plan_refresh(&c, 10_000, &permissive()), Ok(RefreshStep::Exchange));
    assert_eq!(
        plan_refresh(&c, 10_000, &AuthPolicy::default()),
        Err(AuthError::RefreshExpired)
    );
}

#[test]
fn refresh_outcomes_fold_back_into_credentials() {
    let ok = finish_refresh(RefreshOutcome::Granted {
        access_token: "a2".to_string(),
        refresh_token: "r2".to_string(),
        expires_at: 20_000,
        scopes: vec!["chat:read".to_string()],
    })
    .unwrap();
    assert_eq!(ok.access_token, "a2");
    assert_eq!(ok.refresh_token, "r2");
    assert_eq!(ok.expires_at, 20_000);
    assert_eq!(ok.scopes, vec!["chat:read".to_string()]);
    assert_eq!(
        finish_refresh(RefreshOutcome::Rejected).unwrap_err(),
        AuthError::RefreshExpired
    );
}

#[test]
fn scope_checks_fail_closed() {
    let c = creds_with(10_000, &["chat:read"]);
    let requested = vec!["chat:read".to_string(), "chat:edit".to_string()];
    assert_eq!(
        ensure_scope(&c, &requested, &AuthPolicy::default()),
        Err(AuthError::InsufficientScope)
    );
    assert_eq!(
        ensure_scope(&c, &requested, &permissive()),
        Ok(ScopeStep::Reauthenticate)
    );
    let granted_only = vec!["chat:read".to_string()];
    assert_eq!(
        ensure_scope(&c, &granted_only, &AuthPolicy::default()),
        Ok(ScopeStep::Satisfied)
    );
    assert!(has_scope(&c.scopes, &"chat:read".to_string()));
    assert!(!has_scope(&c.scopes, &"chat:edit".to_string()));
}

#[test]
fn grant_flow_runs_exactly_once_when_nothing_is_cached() {
    // The scenario behind a first start with token minting enabled: the
    // pending session asks for the grant flow once, `build`/`activate`
    // succeed only after the flow returned credentials, and a later plan
    // with the minted credentials cached asks for no second flow.
    let pending = SessionBuilder::new()
        .generate_token_if_none(true)
        .add_topics(vec![Topic::ChatMessage])
        .build()
        .unwrap();
    let mut flow_runs: u32 = 0;
    let plan = pending.credentials_plan(false).unwrap();
    assert_eq!(plan, CredentialsPlan::Authenticate);
    let minted = match plan {
        CredentialsPlan::Authenticate => {
            flow_runs += 1;
            finish_authenticate(AuthOutcome::Granted {
                access_token: "fresh".to_string(),
                refresh_token: "fresh-r".to_string(),
                expires_at: 10_000,
                scopes: vec!["user:read:chat".to_string()],
            })
            .unwrap()
        }
        CredentialsPlan::UseCached => unreachable!(),
    };
    assert_eq!(flow_runs, 1);
    assert_eq!(pending.credentials_plan(true), Ok(CredentialsPlan::UseCached));
    let core = pending.activate(minted);
    assert_eq!(core.credentials.access_token, "fresh");
}

#[test]
fn absent_credentials_without_permission_deny_construction() {
    let pending = SessionBuilder::new()
        .add_topics(vec![Topic::ChatMessage])
        .build()
        .unwrap();
    assert_eq!(pending.credentials_plan(false), Err(AuthError::AuthDenied));
}

#[test]
fn grant_flow_failures_surface_as_typed_errors() {
    assert_eq!(
        finish_authenticate(AuthOutcome::Denied).unwrap_err(),
        AuthError::AuthDenied
    );
    assert_eq!(
        finish_authenticate(AuthOutcome::TimedOut).unwrap_err(),
        AuthError::AuthTimeout
    );
    assert_eq!(
        plan_initial_credentials(false, &AuthPolicy::default()).unwrap_err(),
        AuthError::AuthDenied
    );
}

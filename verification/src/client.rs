//! The caller-facing surface: the builder-style configuration, the
//! two-stage construction of a session, and the running session core that
//! couples the state machine to the event queue and the command sender.
//!
//! Construction is two-staged because minting credentials needs the
//! network: `build` validates the configuration — an empty topic set is
//! rejected here, before any network call — and hands back a pending
//! session; once the driver has credentials (cached, refreshed or freshly
//! minted through the token authenticator), `activate` turns the pending
//! session into a running core. A construction error therefore always
//! precedes any partially-configured session: there is none to return.

use vstd::prelude::*;
use crate::auth::{plan_initial_credentials, AuthPolicy, CredentialsPlan};
use crate::credentials::Credentials;
use crate::dispatcher::{EventQueue, ResponseType};
use crate::errors::{AuthError, BuildError, ConfigError, SendError};
use crate::session::{SessionAction, SessionInput, SessionMachine, SessionState, spec_next};
use crate::subscribe::Topic;

verus! {

/// Everything the caller can configure before the session exists.
pub struct SessionConfig {
    /// Where the grant flow sends the user back to.
    pub redirect_url: String,
    /// The grant flow runs on another machine; print the URL instead of
    /// opening a browser.
    pub run_remotely: bool,
    /// The fail-closed token policy knobs.
    pub policy: AuthPolicy,
    /// Where the access-token file body is saved and loaded.
    pub access_token_path: String,
    /// Where the refresh-token file body is saved and loaded.
    pub refresh_token_path: String,
    /// The topics the session maintains; must not be empty.
    pub topics: Vec<Topic>,
    /// How many consecutive recovery attempts the session may make.
    pub max_retries: u32,
    /// The bound of the inbound event queue.
    pub queue_capacity: usize,
    /// The transport endpoint to connect to.
    pub endpoint: String,
}

/// Builder-style configuration surface. Every option starts from its
/// fail-closed default and each setter touches exactly one of them.
pub struct SessionBuilder {
    pub config: SessionConfig,
}

impl SessionBuilder {
    /// All knobs off, no topics, a recovery budget of 5 and room for 64
    /// queued responses.
    pub fn new() -> (b: SessionBuilder)
        ensures
            b.config.redirect_url@ == Seq::<char>::empty(),
            !b.config.run_remotely,
            !b.config.policy.refresh_on_expire,
            !b.config.policy.reauth_on_missing_scope,
            !b.config.policy.auth_if_absent,
            b.config.access_token_path@ == Seq::<char>::empty(),
            b.config.refresh_token_path@ == Seq::<char>::empty(),
            b.config.topics@ == Seq::<Topic>::empty(),
            b.config.max_retries == 5,
            b.config.queue_capacity == 64,
            b.config.endpoint@ == Seq::<char>::empty(),
    {
        SessionBuilder {
            config: SessionConfig {
                redirect_url: String::new(),
                run_remotely: false,
                policy: AuthPolicy {
                    refresh_on_expire: false,
                    reauth_on_missing_scope: false,
                    auth_if_absent: false,
                },
                access_token_path: String::new(),
                refresh_token_path: String::new(),
                topics: Vec::new(),
                max_retries: 5,
                queue_capacity: 64,
                endpoint: String::new(),
            },
        }
    }

    /// Sets the redirect URL of the grant flow.
    pub fn redirect_url(self, url: String) -> (b: SessionBuilder)
        ensures
            b.config == (SessionConfig { redirect_url: url, ..self.config }),
    {
        SessionBuilder { config: SessionConfig { redirect_url: url, ..self.config } }
    }

    /// Marks the grant flow as running remotely.
    pub fn run_remotely(self, yes: bool) -> (b: SessionBuilder)
        ensures
            b.config == (SessionConfig { run_remotely: yes, ..self.config }),
    {
        SessionBuilder { config: SessionConfig { run_remotely: yes, ..self.config } }
    }

    /// Allows minting a new token when the granted scopes fall short.
    pub fn generate_token_if_insufficient_scope(self, yes: bool) -> (b: SessionBuilder)
        ensures
            b.config.policy == (AuthPolicy { reauth_on_missing_scope: yes, ..self.config.policy }),
            b.config == (SessionConfig {
                policy: AuthPolicy { reauth_on_missing_scope: yes, ..self.config.policy },
                ..self.config
            }),
    {
        SessionBuilder {
            config: SessionConfig {
                policy: AuthPolicy { reauth_on_missing_scope: yes, ..self.config.policy },
                ..self.config
            },
        }
    }

    /// Allows running the grant flow when nothing is cached.
    pub fn generate_token_if_none(self, yes: bool) -> (b: SessionBuilder)
        ensures
            b.config == (SessionConfig {
                policy: AuthPolicy { auth_if_absent: yes, ..self.config.policy },
                ..self.config
            }),
    {
        SessionBuilder {
            config: SessionConfig {
                policy: AuthPolicy { auth_if_absent: yes, ..self.config.policy },
                ..self.config
            },
        }
    }

    /// Allows exchanging the refresh token when the access token expires.
    pub fn generate_token_on_expire(self, yes: bool) -> (b: SessionBuilder)
        ensures
            b.config == (SessionConfig {
                policy: AuthPolicy { refresh_on_expire: yes, ..self.config.policy },
                ..self.config
            }),
    {
        SessionBuilder {
            config: SessionConfig {
                policy: AuthPolicy { refresh_on_expire: yes, ..self.config.policy },
                ..self.config
            },
        }
    }

    /// Sets the two file paths credentials are saved to and loaded from.
    pub fn token_paths(self, access_path: String, refresh_path: String) -> (b: SessionBuilder)
        ensures
            b.config == (SessionConfig {
                access_token_path: access_path,
                refresh_token_path: refresh_path,
                ..self.config
            }),
    {
        SessionBuilder {
            config: SessionConfig {
                access_token_path: access_path,
                refresh_token_path: refresh_path,
                ..self.config
            },
        }
    }

    /// Appends topics to the requested set.
    pub fn add_topics(self, topics: Vec<Topic>) -> (b: SessionBuilder)
        ensures
            b.config.topics@ == self.config.topics@ + topics@,
            b.config.redirect_url == self.config.redirect_url,
            b.config.run_remotely == self.config.run_remotely,
            b.config.policy == self.config.policy,
            b.config.access_token_path == self.config.access_token_path,
            b.config.refresh_token_path == self.config.refresh_token_path,
            b.config.max_retries == self.config.max_retries,
            b.config.queue_capacity == self.config.queue_capacity,
            b.config.endpoint == self.config.endpoint,
    {
        let mut config = self.config;
        let mut more = topics;
        let mut i: usize = 0;
        while i < more.len()
            invariant
                i <= more@.len(),
                config.topics@ == self.config.topics@ + more@.take(i as int),
                config.redirect_url == self.config.redirect_url,
                config.run_remotely == self.config.run_remotely,
                config.policy == self.config.policy,
                config.access_token_path == self.config.access_token_path,
                config.refresh_token_path == self.config.refresh_token_path,
                config.max_retries == self.config.max_retries,
                config.queue_capacity == self.config.queue_capacity,
                config.endpoint == self.config.endpoint,
                more@ == topics@,
            decreases more@.len() - i,
        {
            config.topics.push(more[i]);
            proof {
                assert(self.config.topics@ + more@.take(i + 1 as int) =~= (self.config.topics@
                    + more@.take(i as int)).push(more@[i as int]));
            }
            i = i + 1;
        }
        proof {
            assert(more@.take(more@.len() as int) =~= more@);
        }
        SessionBuilder { config }
    }

    /// Sets the transport endpoint.
    pub fn endpoint(self, endpoint: String) -> (b: SessionBuilder)
        ensures
            b.config == (SessionConfig { endpoint, ..self.config }),
    {
        SessionBuilder { config: SessionConfig { endpoint, ..self.config } }
    }

    /// Sets the recovery budget.
    pub fn max_retries(self, n: u32) -> (b: SessionBuilder)
        ensures
            b.config == (SessionConfig { max_retries: n, ..self.config }),
    {
        SessionBuilder { config: SessionConfig { max_retries: n, ..self.config } }
    }

    /// Validates the configuration. An empty topic set is rejected here,
    /// before any network call or credential work is attempted; a valid
    /// configuration becomes a pending session, unchanged.
    pub fn build(self) -> (r: Result<PendingSession, BuildError>)
        ensures
            self.config.topics@.len() == 0 <==> r == Err::<PendingSession, BuildError>(
                BuildError::Config(ConfigError::NoSubscriptionsRequested),
            ),
            r matches Ok(p) ==> p.config == self.config,
    {
        if self.config.topics.len() == 0 {
            Err(BuildError::Config(ConfigError::NoSubscriptionsRequested))
        } else {
            Ok(PendingSession { config: self.config })
        }
    }
}

/// A validated configuration waiting for credentials.
pub struct PendingSession {
    pub config: SessionConfig,
}

impl PendingSession {
    /// How this session gets its first credentials, by its own policy:
    /// cached ones are used, absent ones are minted only when
    /// `generate_token_if_none` was set, and otherwise construction stops
    /// with `AuthDenied`.
    pub fn credentials_plan(&self, cached_present: bool) -> (r: Result<CredentialsPlan, AuthError>)
        ensures
            cached_present ==> r == Ok::<CredentialsPlan, AuthError>(CredentialsPlan::UseCached),
            !cached_present && self.config.policy.auth_if_absent ==> r == Ok::<
                CredentialsPlan,
                AuthError,
            >(CredentialsPlan::Authenticate),
            !cached_present && !self.config.policy.auth_if_absent ==> r == Err::<
                CredentialsPlan,
                AuthError,
            >(AuthError::AuthDenied),
    {
        plan_initial_credentials(cached_present, &self.config.policy)
    }

    /// Turns the pending session into a running core, once credentials
    /// exist. The machine starts in `Connecting` with the configured topics
    /// and budget, and the queue is empty with the configured bound (a
    /// zero bound is raised to one).
    pub fn activate(self, credentials: Credentials) -> (core: SessionCore)
        ensures
            core.machine.state == (SessionState::Connecting { attempts: 0u32 }),
            core.machine.endpoint@ == self.config.endpoint@,
            core.machine.topics@ == self.config.topics@,
            core.machine.max_retries == self.config.max_retries,
            core.machine.wf(),
            core.queue@ == Seq::<ResponseType>::empty(),
            core.queue.wf(),
            core.credentials == credentials,
            core.policy == self.config.policy,
    {
        let capacity = if self.config.queue_capacity == 0 {
            1
        } else {
            self.config.queue_capacity
        };
        let queue = EventQueue::new(capacity);
        let machine = SessionMachine::new(
            self.config.endpoint,
            self.config.topics,
            self.config.max_retries,
        );
        SessionCore { machine, queue, credentials, policy: self.config.policy }
    }
}

/// An outbound chat-message command, correlated to the authenticated
/// session it may be sent on.
#[derive(Debug)]
pub struct OutboundCommand {
    pub session_id: String,
    pub text: String,
}

/// What the remote service answered to an outbound command.
#[derive(Clone, Copy, Debug, PartialEq, Eq, Structural)]
pub enum SendOutcome {
    /// The command was accepted under this message identifier.
    Accepted { message_id: u64 },
    /// The service declined the command with this code.
    Rejected { code: u32 },
}

/// The acknowledgement of an accepted command.
#[derive(Clone, Copy, Debug, PartialEq, Eq, Structural)]
pub struct Ack {
    pub message_id: u64,
}

/// A running session: the state machine, the inbound queue it feeds, the
/// credentials it runs under and the policy that governs their renewal.
pub struct SessionCore {
    pub machine: SessionMachine,
    pub queue: EventQueue,
    pub credentials: Credentials,
    pub policy: AuthPolicy,
}

impl SessionCore {
    /// Both halves are well-formed.
    pub open spec fn wf(&self) -> bool {
        self.machine.wf() && self.queue.wf()
    }

    /// Feeds one transport input to the state machine and routes the
    /// outcome: a delivery goes into the inbound queue (dropping the oldest
    /// entry when the bound is reached), every other action is returned for
    /// the driver to carry out. The machine moves exactly as
    /// [`spec_next`] states, and nothing is ever queued unless the machine
    /// was active.
    pub fn handle(&mut self, input: SessionInput) -> (r: Option<SessionAction>)
        requires
            old(self).wf(),
        ensures
            final(self).wf(),
            final(self).machine == spec_next(old(self).machine, input).0,
            final(self).credentials == old(self).credentials,
            final(self).policy == old(self).policy,
            final(self).queue.spec_capacity() == old(self).queue.spec_capacity(),
            ({
                let act = spec_next(old(self).machine, input).1;
                let q0 = old(self).queue@;
                let cap = old(self).queue.spec_capacity();
                match act {
                    Some(SessionAction::Deliver(x)) => r is None && (q0.len() < cap
                        ==> final(self).queue@ == q0.push(x)) && (q0.len() >= cap
                        ==> final(self).queue@ == q0.subrange(1, q0.len() as int).push(x)),
                    _ => r == act && final(self).queue@ == q0,
                }
            }),
    {
        let a = self.machine.step(input);
        match a {
            Some(SessionAction::Deliver(x)) => {
                self.queue.push(x);
                None
            },
            other => other,
        }
    }

    /// Hands the caller every queued response, oldest first — exactly the
    /// transport's delivery order — and leaves the queue empty. Bounded by
    /// `timeout_ms` in the driver's hands; the core itself never blocks, so
    /// with nothing queued the result is empty at once.
    pub fn drain(&mut self, timeout_ms: u64) -> (evs: Vec<ResponseType>)
        ensures
            evs@ == old(self).queue@,
            final(self).queue@ == Seq::<ResponseType>::empty(),
            final(self).queue.spec_capacity() == old(self).queue.spec_capacity(),
            final(self).machine == old(self).machine,
            final(self).credentials == old(self).credentials,
            final(self).policy == old(self).policy,
    {
        self.queue.drain(timeout_ms)
    }

    /// Plans an outbound chat message. Only an active session may send:
    /// the command is correlated to the active session identifier; a
    /// closing session answers `Cancelled`, any other state
    /// `NotAuthenticated`. Nothing is retried here — the remote answer is
    /// the caller's to judge, through [`finish_send`].
    pub fn plan_send(&self, text: String) -> (r: Result<OutboundCommand, SendError>)
        ensures
            self.machine.state matches SessionState::Active(snap) ==> (r matches Ok(cmd)
                && cmd.session_id@ == snap.session_id@ && cmd.text@ == text@),
            self.machine.state matches SessionState::Closing { .. } ==> r == Err::<
                OutboundCommand,
                SendError,
            >(SendError::Cancelled),
            !(self.machine.state matches SessionState::Active(_)) && !(self.machine.state
                matches SessionState::Closing { .. }) ==> r == Err::<OutboundCommand, SendError>(
                SendError::NotAuthenticated,
            ),
    {
        match &self.machine.state {
            SessionState::Active(snap) => Ok(
                OutboundCommand { session_id: snap.session_id.clone(), text },
            ),
            SessionState::Closing { .. } => Err(SendError::Cancelled),
            _ => Err(SendError::NotAuthenticated),
        }
    }
}

/// Folds the remote answer to a command into the caller's result: an
/// acceptance becomes the acknowledgement, a decline `RemoteRejected` with
/// the service's code.
pub fn finish_send(outcome: SendOutcome) -> (r: Result<Ack, SendError>)
    ensures
        outcome matches SendOutcome::Accepted { message_id } ==> r == Ok::<Ack, SendError>(
            Ack { message_id },
        ),
        outcome matches SendOutcome::Rejected { code } ==> r == Err::<Ack, SendError>(
            SendError::RemoteRejected(code),
        ),
{
    match outcome {
        SendOutcome::Accepted { message_id } => Ok(Ack { message_id }),
        SendOutcome::Rejected { code } => Err(SendError::RemoteRejected(code)),
    }
}

} // verus!

//! Subscription negotiation: turning a requested set of topics into a report
//! of granted and refused subscriptions.
//!
//! The negotiator never talks to the network itself. `begin_subscribe`
//! validates the request before any remote call is made, and
//! `collect_outcomes` folds the remote service's per-topic decisions into a
//! report that accounts for every requested topic: a topic absent from the
//! granted mapping always appears in the failure list.

use vstd::prelude::*;
use crate::errors::ConfigError;

verus! {

/// A named category of remote event a client can subscribe to.
#[derive(Clone, Copy, Debug, PartialEq, Eq, Structural)]
pub enum Topic {
    ChatMessage,
    Follow,
    Raid,
    StreamOnline,
    StreamOffline,
}

/// Why the remote service refused one topic of a subscription request.
#[derive(Clone, Copy, Debug, PartialEq, Eq, Structural)]
pub enum RefuseReason {
    /// The token's scopes do not authorize the topic.
    ScopeMissing,
    /// The service does not offer the topic.
    Unsupported,
    /// The service is shedding load; the topic may be retried later.
    RateLimited,
}

/// The remote service's decision on a single requested topic.
#[derive(Clone, Copy, Debug, PartialEq, Eq, Structural)]
pub enum TopicDecision {
    /// Accepted, with the remote subscription identifier.
    Granted(u64),
    /// Refused, with the reason the caller must be told.
    Refused(RefuseReason),
}

/// The outcome of one `subscribe` call: which topics succeeded, with their
/// remote subscription identifiers, and which failed, with the reason.
/// Partial success is allowed; no topic is ever silently dropped.
pub struct SubscribeReport {
    pub granted: Vec<(Topic, u64)>,
    pub failed: Vec<(Topic, RefuseReason)>,
}

/// The granted pairs of a decision sequence, in request order.
pub open spec fn spec_granted(topics: Seq<Topic>, decisions: Seq<TopicDecision>) -> Seq<(
    Topic,
    u64,
)>
    decreases topics.len(),
{
    if topics.len() == 0 || decisions.len() == 0 {
        seq![]
    } else {
        let rest = spec_granted(topics.drop_last(), decisions.drop_last());
        match decisions.last() {
            TopicDecision::Granted(id) => rest.push((topics.last(), id)),
            TopicDecision::Refused(_) => rest,
        }
    }
}

/// The refused pairs of a decision sequence, in request order.
pub open spec fn spec_failed(topics: Seq<Topic>, decisions: Seq<TopicDecision>) -> Seq<(
    Topic,
    RefuseReason,
)>
    decreases topics.len(),
{
    if topics.len() == 0 || decisions.len() == 0 {
        seq![]
    } else {
        let rest = spec_failed(topics.drop_last(), decisions.drop_last());
        match decisions.last() {
            TopicDecision::Granted(_) => rest,
            TopicDecision::Refused(r) => rest.push((topics.last(), r)),
        }
    }
}

/// Validates a subscription request. An empty topic set is a configuration
/// error and is rejected here, before any network call is attempted; a
/// non-empty set is returned unchanged as the list of topics to register,
/// in request order.
pub fn begin_subscribe(topics: &Vec<Topic>) -> (r: Result<Vec<Topic>, ConfigError>)
    ensures
        topics@.len() == 0 <==> r == Err::<Vec<Topic>, ConfigError>(
            ConfigError::NoSubscriptionsRequested,
        ),
        r matches Ok(t) ==> t@ == topics@,
{
    if topics.len() == 0 {
        Err(ConfigError::NoSubscriptionsRequested)
    } else {
        let mut out: Vec<Topic> = Vec::new();
        let mut i: usize = 0;
        while i < topics.len()
            invariant
                i <= topics@.len(),
                out@ == topics@.take(i as int),
            decreases topics@.len() - i,
        {
            out.push(topics[i]);
            proof {
                assert(out@ == topics@.take(i + 1 as int));
            }
            i = i + 1;
        }
        proof {
            assert(topics@.take(topics@.len() as int) == topics@);
        }
        Ok(out)
    }
}

/// Folds the remote service's per-topic decisions into a report. The i-th
/// decision answers the i-th requested topic; the report's granted mapping
/// holds exactly the granted topics and the failure list exactly the refused
/// ones, both in request order.
pub fn collect_outcomes(topics: &Vec<Topic>, decisions: &Vec<TopicDecision>) -> (r:
    SubscribeReport)
    requires
        decisions@.len() == topics@.len(),
    ensures
        r.granted@ == spec_granted(topics@, decisions@),
        r.failed@ == spec_failed(topics@, decisions@),
{
    let mut granted: Vec<(Topic, u64)> = Vec::new();
    let mut failed: Vec<(Topic, RefuseReason)> = Vec::new();
    let mut i: usize = 0;
    while i < topics.len()
        invariant
            i <= topics@.len(),
            decisions@.len() == topics@.len(),
            granted@ == spec_granted(topics@.take(i as int), decisions@.take(i as int)),
            failed@ == spec_failed(topics@.take(i as int), decisions@.take(i as int)),
        decreases topics@.len() - i,
    {
        proof {
            assert(topics@.take(i + 1 as int).drop_last() == topics@.take(i as int));
            assert(decisions@.take(i + 1 as int).drop_last() == decisions@.take(i as int));
            assert(topics@.take(i + 1 as int).last() == topics@[i as int]);
            assert(decisions@.take(i + 1 as int).last() == decisions@[i as int]);
        }
        match decisions[i] {
            TopicDecision::Granted(id) => {
                granted.push((topics[i], id));
            },
            TopicDecision::Refused(reason) => {
                failed.push((topics[i], reason));
            },
        }
        i = i + 1;
    }
    proof {
        assert(topics@.take(topics@.len() as int) == topics@);
        assert(decisions@.take(decisions@.len() as int) == decisions@);
    }
    SubscribeReport { granted, failed }
}

/// No topic is silently dropped: every requested topic appears in the
/// granted mapping or in the failure list of the report built from the
/// decisions, according to its own decision; a topic absent from the granted
/// mapping therefore always appears among the reported failures.
pub proof fn lemma_no_topic_dropped(topics: Seq<Topic>, decisions: Seq<TopicDecision>, i: int)
    requires
        decisions.len() == topics.len(),
        0 <= i < topics.len(),
    ensures
        decisions[i] matches TopicDecision::Granted(id) ==> spec_granted(
            topics,
            decisions,
        ).contains((topics[i], id)),
        decisions[i] matches TopicDecision::Refused(r) ==> spec_failed(topics, decisions).contains(
            (topics[i], r),
        ),
    decreases topics.len(),
{
    if i == topics.len() - 1 {
        match decisions[i] {
            TopicDecision::Granted(id) => {
                assert(spec_granted(topics, decisions).last() == (topics[i], id));
            },
            TopicDecision::Refused(r) => {
                assert(spec_failed(topics, decisions).last() == (topics[i], r));
            },
        }
    } else {
        lemma_no_topic_dropped(topics.drop_last(), decisions.drop_last(), i);
        assert(topics.drop_last()[i] == topics[i]);
        assert(decisions.drop_last()[i] == decisions[i]);
        match decisions[i] {
            TopicDecision::Granted(id) => {
                let sub = spec_granted(topics.drop_last(), decisions.drop_last());
                let j = choose|j: int| 0 <= j < sub.len() && sub[j] == (topics[i], id);
                assert(spec_granted(topics, decisions)[j] == (topics[i], id));
            },
            TopicDecision::Refused(r) => {
                let sub = spec_failed(topics.drop_last(), decisions.drop_last());
                let j = choose|j: int| 0 <= j < sub.len() && sub[j] == (topics[i], r);
                assert(spec_failed(topics, decisions)[j] == (topics[i], r));
            },
        }
    }
}

/// The report accounts for the whole request: granted and failed entries
/// together number exactly the requested topics.
pub proof fn lemma_report_covers_request(topics: Seq<Topic>, decisions: Seq<TopicDecision>)
    requires
        decisions.len() == topics.len(),
    ensures
        spec_granted(topics, decisions).len() + spec_failed(topics, decisions).len()
            == topics.len(),
    decreases topics.len(),
{
    if topics.len() > 0 {
        lemma_report_covers_request(topics.drop_last(), decisions.drop_last());
    }
}

/// Where one registered subscription stands.
#[derive(Clone, Copy, Debug, PartialEq, Eq, Structural)]
pub enum SubscriptionStatus {
    /// Requested; the remote service has not decided yet.
    Pending,
    /// Accepted; events for its topic flow.
    Active,
    /// Withdrawn: the session ended or the subscription was removed.
    Revoked,
}

/// One registered subscription: its topic, the identifier the remote
/// service assigned, and where it stands.
#[derive(Clone, Copy, Debug, PartialEq, Eq, Structural)]
pub struct Subscription {
    pub topic: Topic,
    pub remote_id: u64,
    pub status: SubscriptionStatus,
}

/// The active subscription records of a granted mapping, in request order.
pub open spec fn active_subs_of(granted: Seq<(Topic, u64)>) -> Seq<Subscription> {
    granted.map_values(
        |p: (Topic, u64)| Subscription {
            topic: p.0,
            remote_id: p.1,
            status: SubscriptionStatus::Active,
        },
    )
}

/// The records of `subs` whose topic is not `t`, in order.
pub open spec fn without_topic(subs: Seq<Subscription>, t: Topic) -> Seq<Subscription>
    decreases subs.len(),
{
    if subs.len() == 0 {
        seq![]
    } else {
        let rest = without_topic(subs.drop_last(), t);
        if subs.last().topic == t {
            rest
        } else {
            rest.push(subs.last())
        }
    }
}

/// Turns a report into the session's subscription records: one active
/// record per granted topic, carrying the remote identifier, in request
/// order. Refused topics create no record; they stay in the report's
/// failure list.
pub fn subscriptions_of(report: &SubscribeReport) -> (subs: Vec<Subscription>)
    ensures
        subs@ == active_subs_of(report.granted@),
{
    let mut subs: Vec<Subscription> = Vec::new();
    let mut i: usize = 0;
    while i < report.granted.len()
        invariant
            i <= report.granted@.len(),
            subs@ == active_subs_of(report.granted@.take(i as int)),
        decreases report.granted@.len() - i,
    {
        let (topic, remote_id) = report.granted[i];
        subs.push(Subscription { topic, remote_id, status: SubscriptionStatus::Active });
        proof {
            assert(active_subs_of(report.granted@.take(i + 1 as int)) =~= active_subs_of(
                report.granted@.take(i as int),
            ).push(
                Subscription {
                    topic: report.granted@[i as int].0,
                    remote_id: report.granted@[i as int].1,
                    status: SubscriptionStatus::Active,
                },
            ));
        }
        i = i + 1;
    }
    proof {
        assert(report.granted@.take(report.granted@.len() as int) =~= report.granted@);
    }
    subs
}

/// Revokes every record: the session ended, so each subscription keeps its
/// topic and identifier but stands revoked.
pub fn revoke_all(subs: Vec<Subscription>) -> (r: Vec<Subscription>)
    ensures
        r@.len() == subs@.len(),
        forall|i: int| 0 <= i < subs@.len() ==> r@[i] == (Subscription {
            status: SubscriptionStatus::Revoked,
            ..subs@[i]
        }),
{
    let mut r: Vec<Subscription> = Vec::new();
    let mut i: usize = 0;
    while i < subs.len()
        invariant
            i <= subs@.len(),
            r@.len() == i,
            forall|k: int| 0 <= k < i ==> r@[k] == (Subscription {
                status: SubscriptionStatus::Revoked,
                ..subs@[k]
            }),
        decreases subs@.len() - i,
    {
        let s = subs[i];
        r.push(Subscription { status: SubscriptionStatus::Revoked, ..s });
        i = i + 1;
    }
    r
}

/// Removes the records of one topic, keeping every other record in order:
/// an explicit removal destroys exactly the subscriptions of that topic.
pub fn remove_topic(subs: Vec<Subscription>, t: Topic) -> (r: Vec<Subscription>)
    ensures
        r@ == without_topic(subs@, t),
{
    let mut r: Vec<Subscription> = Vec::new();
    let mut i: usize = 0;
    while i < subs.len()
        invariant
            i <= subs@.len(),
            r@ == without_topic(subs@.take(i as int), t),
        decreases subs@.len() - i,
    {
        proof {
            assert(subs@.take(i + 1 as int).drop_last() =~= subs@.take(i as int));
            assert(subs@.take(i + 1 as int).last() == subs@[i as int]);
        }
        let s = subs[i];
        if s.topic != t {
            r.push(s);
        }
        i = i + 1;
    }
    proof {
        assert(subs@.take(subs@.len() as int) =~= subs@);
    }
    r
}

} // verus!

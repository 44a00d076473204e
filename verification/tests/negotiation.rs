use eventsub_core::errors::ConfigError;
use eventsub_core::subscribe::{
    begin_subscribe, collect_outcomes, remove_topic, revoke_all, subscriptions_of, RefuseReason,
    Subscription, SubscriptionStatus, Topic, TopicDecision,
};

#[test]
fn empty_request_is_rejected_before_any_network_call() {
    let topics: Vec<Topic> = Vec::new();
    let r = begin_subscribe(&topics);
    assert_eq!(r, Err(ConfigError::NoSubscriptionsRequested));
}

#[test]
fn non_empty_request_passes_through_in_order() {
    let topics = vec![Topic::ChatMessage, Topic::Follow];
    let r = begin_subscribe(&topics).unwrap();
    assert_eq!(r, vec![Topic::ChatMessage, Topic::Follow]);
}

#[test]
fn report_covers_every_topic() {
    let topics = vec![Topic::ChatMessage, Topic::Follow, Topic::Raid];
    let decisions = vec![
        TopicDecision::Granted(11),
        TopicDecision::Refused(RefuseReason::ScopeMissing),
        TopicDecision::Granted(7),
    ];
    let report = collect_outcomes(&topics, &decisions);
    assert_eq!(report.granted, vec![(Topic::ChatMessage, 11), (Topic::Raid, 7)]);
    assert_eq!(report.failed, vec![(Topic::Follow, RefuseReason::ScopeMissing)]);
    assert_eq!(report.granted.len() + report.failed.len(), topics.len());
}

#[test]
fn all_granted_yields_full_mapping_and_no_failures() {
    let topics = vec![Topic::StreamOnline, Topic::StreamOffline];
    let decisions = vec![TopicDecision::Granted(1), TopicDecision::Granted(2)];
    let report = collect_outcomes(&topics, &decisions);
    assert_eq!(report.granted, vec![(Topic::StreamOnline, 1), (Topic::StreamOffline, 2)]);
    assert!(report.failed.is_empty());
}

#[test]
fn granted_topics_become_active_subscription_records() {
    let topics = vec![Topic::ChatMessage, Topic::Follow, Topic::Raid];
    let decisions = vec![
        TopicDecision::Granted(11),
        TopicDecision::Refused(RefuseReason::ScopeMissing),
        TopicDecision::Granted(7),
    ];
    let report = collect_outcomes(&topics, &decisions);
    let subs = subscriptions_of(&report);
    assert_eq!(
        subs,
        vec![
            Subscription {
                topic: Topic::ChatMessage,
                remote_id: 11,
                status: SubscriptionStatus::Active
            },
            Subscription { topic: Topic::Raid, remote_id: 7, status: SubscriptionStatus::Active },
        ]
    );
    let narrowed = remove_topic(subs.clone(), Topic::Raid);
    assert_eq!(narrowed.len(), 1);
    assert_eq!(narrowed[0].topic, Topic::ChatMessage);
    let ended = revoke_all(subs);
    assert_eq!(ended.len(), 2);
    assert!(ended.iter().all(|s| s.status == SubscriptionStatus::Revoked));
    assert_eq!(ended[0].remote_id, 11);
    assert_eq!(ended[1].remote_id, 7);
}

#[test]
fn all_refused_yields_full_failure_list() {
    let topics = vec![Topic::ChatMessage, Topic::Raid];
    let decisions = vec![
        TopicDecision::Refused(RefuseReason::RateLimited),
        TopicDecision::Refused(RefuseReason::Unsupported),
    ];
    let report = collect_outcomes(&topics, &decisions);
    assert!(report.granted.is_empty());
    assert_eq!(
        report.failed,
        vec![
            (Topic::ChatMessage, RefuseReason::RateLimited),
            (Topic::Raid, RefuseReason::Unsupported)
        ]
    );
}

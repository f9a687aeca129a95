use backlog_slack_notifier::app_config::{AppConfig, UserAccountMapping};
use backlog_slack_notifier::backlog_webhook_parser::{
    BacklogComment, BacklogCommentAddedContent, BacklogIssueRelatedWebhookPayload, BacklogProject,
    BacklogUser, CommentedIssue, Decoded, WebhookError,
};
use backlog_slack_notifier::dispatcher::{
    acknowledge, get_notified_slack_user_id, Action, Relay, WebhookResponse,
};
use backlog_slack_notifier::slack_api::{
    prepare_direct_message, DeliveryOutcome, DirectMessageRequest, TransportReply,
};

fn config() -> AppConfig {
    let entry = |name: &str, id: &str| UserAccountMapping {
        backlog_user_name: name.to_string(),
        slack_user_id: id.to_string(),
    };
    AppConfig {
        slack_bot_oauth_token: "xoxb-test".to_string(),
        user_account_mapping: vec![
            entry("Test1", "U001"),
            entry("Test2", "U002"),
            entry("Test3", "U003"),
        ],
        backlog_space_id: "acme".to_string(),
    }
}

fn webhook(event_type: u8, comment: &str) -> Decoded {
    Ok(Some(BacklogIssueRelatedWebhookPayload {
        id: 1001,
        project: BacklogProject { project_key: "ABC".to_string(), name: "Alphabet".to_string() },
        event_type,
        content: BacklogCommentAddedContent {
            key_id: 42,
            summary: "Fix the login page".to_string(),
            comment: BacklogComment { id: 7, content: comment.to_string() },
        },
        notifications: vec![],
        created_user: BacklogUser { name: "Rikiya".to_string() },
    }))
}

fn ok_reply() -> TransportReply {
    TransportReply::Answered { status: 200, body: "{\"ok\":true}".to_string() }
}

/// Runs the relay to its end against a transport that fails for the given
/// channels, and gives back the requests it was asked to send and the answer.
fn run(relay: &mut Relay, failing: &[&str]) -> (Vec<DirectMessageRequest>, WebhookResponse) {
    let mut sent = Vec::new();
    for _ in 0..100 {
        match relay.next_action() {
            Action::Deliver(request) => {
                let reply = if failing.contains(&request.body.channel.as_str()) {
                    TransportReply::Failed { cause: "connection refused".to_string() }
                } else {
                    ok_reply()
                };
                sent.push(request);
                relay.record(reply);
            }
            Action::Respond(response) => return (sent, response),
        }
    }
    panic!("the relay did not come to an end");
}

#[test]
fn a_failed_delivery_does_not_stop_the_others() {
    let config = config();
    let mut relay = Relay::receive(webhook(3, "@Test1 @Test2 @Test3 please look"), &config);
    assert_eq!(relay.recipients(), &vec!["U001".to_string(), "U002".to_string(), "U003".to_string()]);
    let (sent, response) = run(&mut relay, &["U002"]);
    let channels: Vec<&str> = sent.iter().map(|request| request.body.channel.as_str()).collect();
    assert_eq!(channels, vec!["U001", "U002", "U003"]);
    assert_eq!(
        relay.outcomes(),
        &vec![
            DeliveryOutcome::Delivered { response: "{\"ok\":true}".to_string() },
            DeliveryOutcome::Failed { cause: "connection refused".to_string() },
            DeliveryOutcome::Delivered { response: "{\"ok\":true}".to_string() },
        ]
    );
    assert_eq!(response.status, 200);
    assert_eq!(response, acknowledge());
}

#[test]
fn all_deliveries_may_fail_and_the_tracker_is_still_acknowledged() {
    let config = config();
    let mut relay = Relay::receive(webhook(3, "@Test1 @Test2 @Test3"), &config);
    let (sent, response) = run(&mut relay, &["U001", "U002", "U003"]);
    assert_eq!(sent.len(), 3);
    assert_eq!(relay.outcomes().len(), 3);
    assert!(relay.outcomes().iter().all(|outcome| matches!(outcome, DeliveryOutcome::Failed { .. })));
    assert_eq!(response.status, 200);
}

#[test]
fn an_answer_without_success_is_recorded_as_failure_and_the_next_is_tried() {
    let config = config();
    let mut relay = Relay::receive(webhook(3, "@Test1 @Test3"), &config);
    assert!(matches!(relay.next_action(), Action::Deliver(_)));
    relay.record(TransportReply::Answered { status: 503, body: "busy".to_string() });
    match relay.next_action() {
        Action::Deliver(request) => assert_eq!(request.body.channel, "U003"),
        Action::Respond(_) => panic!("the second recipient was not tried"),
    }
    relay.record(ok_reply());
    assert_eq!(
        relay.outcomes(),
        &vec![
            DeliveryOutcome::Failed { cause: "the platform answered with status 503: busy".to_string() },
            DeliveryOutcome::Delivered { response: "{\"ok\":true}".to_string() },
        ]
    );
    assert_eq!(relay.next_action(), Action::Respond(acknowledge()));
}

#[test]
fn another_event_type_leads_to_no_delivery() {
    let config = config();
    for event_type in [0u8, 1, 2, 4, 5, 17, 255] {
        let mut relay = Relay::receive(webhook(event_type, "@Test1 @Test2"), &config);
        assert_eq!(relay.rejection(), Some(&WebhookError::NotCommentEvent));
        assert_eq!(relay.commented_issue(), None);
        assert!(relay.recipients().is_empty());
        let (sent, response) = run(&mut relay, &[]);
        assert!(sent.is_empty());
        assert!(relay.outcomes().is_empty());
        assert_eq!(response, acknowledge());
    }
}

#[test]
fn a_request_that_was_not_decoded_leads_to_no_delivery() {
    let config = config();
    let mut relay = Relay::receive(Err("missing field `project`".to_string()), &config);
    assert_eq!(
        relay.rejection(),
        Some(&WebhookError::ParseError("missing field `project`".to_string()))
    );
    let (sent, response) = run(&mut relay, &[]);
    assert!(sent.is_empty());
    assert_eq!(response.status, 200);

    let mut relay = Relay::receive(Ok(None), &config);
    assert_eq!(
        relay.rejection(),
        Some(&WebhookError::ParseError("payload is empty".to_string()))
    );
    let (sent, response) = run(&mut relay, &[]);
    assert!(sent.is_empty());
    assert_eq!(response.status, 200);
}

#[test]
fn a_reply_that_nothing_waits_for_is_dropped() {
    let config = config();
    let mut relay = Relay::receive(webhook(2, "@Test1"), &config);
    relay.record(ok_reply());
    assert!(relay.outcomes().is_empty());
    assert_eq!(relay.next_action(), Action::Respond(acknowledge()));

    let mut relay = Relay::receive(webhook(3, "@Test1"), &config);
    relay.record(ok_reply());
    relay.record(ok_reply());
    assert_eq!(relay.outcomes().len(), 1);
    assert_eq!(relay.next_action(), Action::Respond(acknowledge()));
}

#[test]
fn a_comment_without_mentions_is_acknowledged_at_once() {
    let config = config();
    let mut relay = Relay::receive(webhook(3, "nobody is addressed"), &config);
    assert_eq!(relay.rejection(), None);
    assert!(relay.recipients().is_empty());
    let (sent, response) = run(&mut relay, &[]);
    assert!(sent.is_empty());
    assert_eq!(response, acknowledge());
}

#[test]
fn asking_again_gives_the_same_action_until_a_reply_is_recorded() {
    let config = config();
    let mut relay = Relay::receive(webhook(3, "@Test2 @Test1"), &config);
    let first = relay.next_action();
    assert_eq!(relay.next_action(), first);
    relay.record(ok_reply());
    assert_ne!(relay.next_action(), first);
}

#[test]
fn the_request_for_a_recipient_is_the_prepared_direct_message() {
    let config = config();
    let relay = Relay::receive(webhook(3, "hello @Test2!"), &config);
    let issue: CommentedIssue = relay.commented_issue().unwrap().clone();
    assert_eq!(issue.notified_backlog_user_names, vec!["Test2".to_string()]);
    assert_eq!(
        relay.next_action(),
        Action::Deliver(prepare_direct_message(&config, &"U002".to_string(), &issue))
    );
}

#[test]
fn the_acknowledgement_is_an_empty_success() {
    assert_eq!(
        acknowledge(),
        WebhookResponse { status: 200, content_type: "text/html".to_string(), body: String::new() }
    );
}

#[test]
fn unknown_names_are_passed_over() {
    let config = config();
    let names = |list: &[&str]| list.iter().map(|name| name.to_string()).collect::<Vec<String>>();
    assert_eq!(
        get_notified_slack_user_id(&config, &names(&["Test1", "Nobody", "Test3"])),
        names(&["U001", "U003"])
    );
    assert_eq!(get_notified_slack_user_id(&config, &names(&["Nobody"])), names(&[]));
    assert_eq!(get_notified_slack_user_id(&config, &names(&[])), names(&[]));
    assert_eq!(
        get_notified_slack_user_id(&config, &names(&["Test3", "Test1", "Test3"])),
        names(&["U003", "U001", "U003"])
    );
}

#[test]
fn a_mention_of_a_user_outside_the_directory_causes_no_delivery_and_no_error() {
    let config = config();
    let mut relay = Relay::receive(webhook(3, "@Stranger and @Test2, see above"), &config);
    assert_eq!(relay.rejection(), None);
    assert_eq!(relay.recipients(), &vec!["U002".to_string()]);
    let (sent, response) = run(&mut relay, &[]);
    assert_eq!(sent.len(), 1);
    assert_eq!(sent[0].body.channel, "U002");
    assert_eq!(relay.outcomes().len(), 1);
    assert_eq!(response.status, 200);
}

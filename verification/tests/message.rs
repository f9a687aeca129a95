use backlog_slack_notifier::app_config::AppConfig;
use backlog_slack_notifier::backlog_webhook_parser::CommentedIssue;
use backlog_slack_notifier::slack_api::{
    build_request_body, delivery_outcome, prepare_direct_message, DeliveryOutcome,
    SlackMessageBlock, SlackMessageBlockDivider, SlackMessageBlockSection,
    SlackMessageBlockSectionText, SlackPostMessageBody, TransportReply, DELIVERY_TIMEOUT_SECONDS,
};

fn config(space: &str) -> AppConfig {
    AppConfig {
        slack_bot_oauth_token: "xoxb-123-abc".to_string(),
        user_account_mapping: vec![],
        backlog_space_id: space.to_string(),
    }
}

fn issue() -> CommentedIssue {
    CommentedIssue {
        project_key: "ABC".to_string(),
        issue_key: 42,
        issue_subject: "Fix the login page".to_string(),
        notified_backlog_user_names: vec!["Test1".to_string()],
        comment_id: 7,
        comment_content: "hello @Test1! <b>bold</b> & *stars*".to_string(),
        comment_creator: "Rikiya".to_string(),
    }
}

fn section_text(block: &SlackMessageBlock) -> &str {
    match block {
        SlackMessageBlock::Section(section) => &section.text.text,
        SlackMessageBlock::Divider(_) => panic!("a divider has no text"),
    }
}

#[test]
fn the_title_links_to_the_comment() {
    let body = build_request_body(&config("acme"), &"U001".to_string(), &issue());
    let title = section_text(&body.blocks[2]);
    assert!(title.contains("https://acme.backlog.com/view/ABC-42#comment-7"));
    assert_eq!(
        title,
        "*<https://acme.backlog.com/view/ABC-42#comment-7|ABC-42 Fix the login page>*"
    );
}

#[test]
fn the_message_has_headline_divider_title_and_comment() {
    let body = build_request_body(&config("acme"), &"U001".to_string(), &issue());
    assert_eq!(
        body,
        SlackPostMessageBody {
            channel: "U001".to_string(),
            blocks: vec![
                SlackMessageBlock::Section(SlackMessageBlockSection {
                    kind: "section".to_string(),
                    text: SlackMessageBlockSectionText {
                        kind: "plain_text".to_string(),
                        text: ":memo: Rikiya さんが課題にコメントしました。".to_string(),
                    },
                }),
                SlackMessageBlock::Divider(SlackMessageBlockDivider { kind: "divider".to_string() }),
                SlackMessageBlock::Section(SlackMessageBlockSection {
                    kind: "section".to_string(),
                    text: SlackMessageBlockSectionText {
                        kind: "mrkdwn".to_string(),
                        text:
                            "*<https://acme.backlog.com/view/ABC-42#comment-7|ABC-42 Fix the login page>*"
                                .to_string(),
                    },
                }),
                SlackMessageBlock::Section(SlackMessageBlockSection {
                    kind: "section".to_string(),
                    text: SlackMessageBlockSectionText {
                        kind: "mrkdwn".to_string(),
                        text: "hello @Test1! <b>bold</b> & *stars*".to_string(),
                    },
                }),
            ],
        }
    );
}

#[test]
fn the_message_goes_to_the_one_recipient() {
    let first = build_request_body(&config("acme"), &"U001".to_string(), &issue());
    let second = build_request_body(&config("acme"), &"U002".to_string(), &issue());
    assert_eq!(first.channel, "U001");
    assert_eq!(second.channel, "U002");
    assert_eq!(first.blocks, second.blocks);
}

#[test]
fn large_and_small_numbers_are_written_out_in_the_link() {
    let mut large = issue();
    large.issue_key = u32::MAX;
    large.comment_id = 1_000_000_007;
    let body = build_request_body(&config("my-space"), &"U001".to_string(), &large);
    assert_eq!(
        section_text(&body.blocks[2]),
        "*<https://my-space.backlog.com/view/ABC-4294967295#comment-1000000007|ABC-4294967295 Fix the login page>*"
    );
    let mut small = issue();
    small.issue_key = 0;
    small.comment_id = 0;
    let body = build_request_body(&config("acme"), &"U001".to_string(), &small);
    assert_eq!(
        section_text(&body.blocks[2]),
        "*<https://acme.backlog.com/view/ABC-0#comment-0|ABC-0 Fix the login page>*"
    );
}

#[test]
fn empty_texts_leave_the_frame_of_the_message() {
    let empty = CommentedIssue {
        project_key: String::new(),
        issue_key: 1,
        issue_subject: String::new(),
        notified_backlog_user_names: vec![],
        comment_id: 2,
        comment_content: String::new(),
        comment_creator: String::new(),
    };
    let body = build_request_body(&config(""), &String::new(), &empty);
    assert_eq!(body.channel, "");
    assert_eq!(body.blocks.len(), 4);
    assert_eq!(section_text(&body.blocks[0]), ":memo:  さんが課題にコメントしました。");
    assert_eq!(section_text(&body.blocks[2]), "*<https://.backlog.com/view/-1#comment-2|-1 >*");
    assert_eq!(section_text(&body.blocks[3]), "");
}

#[test]
fn blocks_are_made_with_their_kind() {
    assert_eq!(
        SlackMessageBlockSectionText::new("mrkdwn".to_string(), "*hi*".to_string()),
        SlackMessageBlockSectionText { kind: "mrkdwn".to_string(), text: "*hi*".to_string() }
    );
    assert_eq!(
        SlackMessageBlockSection::new("plain_text".to_string(), "hi".to_string()),
        SlackMessageBlockSection {
            kind: "section".to_string(),
            text: SlackMessageBlockSectionText {
                kind: "plain_text".to_string(),
                text: "hi".to_string()
            },
        }
    );
    assert_eq!(
        SlackMessageBlockDivider::new(),
        SlackMessageBlockDivider { kind: "divider".to_string() }
    );
}

#[test]
fn the_request_is_a_post_with_the_bot_token() {
    let request = prepare_direct_message(&config("acme"), &"U001".to_string(), &issue());
    assert_eq!(request.url, "https://slack.com/api/chat.postMessage");
    assert_eq!(request.authorization, "Bearer xoxb-123-abc");
    assert_eq!(request.timeout_seconds, DELIVERY_TIMEOUT_SECONDS);
    assert_eq!(request.timeout_seconds, 10);
    assert_eq!(request.body, build_request_body(&config("acme"), &"U001".to_string(), &issue()));
}

#[test]
fn an_answer_of_success_is_a_delivery() {
    for status in [200u16, 201, 204, 299] {
        assert_eq!(
            delivery_outcome(TransportReply::Answered {
                status,
                body: "{\"ok\":true}".to_string()
            }),
            DeliveryOutcome::Delivered { response: "{\"ok\":true}".to_string() }
        );
    }
}

#[test]
fn any_other_answer_is_a_failure() {
    assert_eq!(
        delivery_outcome(TransportReply::Answered { status: 500, body: "oops".to_string() }),
        DeliveryOutcome::Failed { cause: "the platform answered with status 500: oops".to_string() }
    );
    assert_eq!(
        delivery_outcome(TransportReply::Answered { status: 429, body: String::new() }),
        DeliveryOutcome::Failed { cause: "the platform answered with status 429: ".to_string() }
    );
    for status in [0u16, 100, 199, 300, 301, 404, 65535] {
        let outcome = delivery_outcome(TransportReply::Answered { status, body: "x".to_string() });
        assert_eq!(
            outcome,
            DeliveryOutcome::Failed {
                cause: format!("the platform answered with status {}: x", status)
            }
        );
    }
}

#[test]
fn no_answer_is_a_failure_with_its_cause() {
    assert_eq!(
        delivery_outcome(TransportReply::Failed { cause: "connection timed out".to_string() }),
        DeliveryOutcome::Failed { cause: "connection timed out".to_string() }
    );
}

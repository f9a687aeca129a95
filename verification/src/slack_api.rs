//! The direct message that tells a user about a comment, in the shape the
//! messaging platform expects.

use vstd::prelude::*;
use crate::app_config::{AppConfig, AppConfigView};
use crate::backlog_webhook_parser::{CommentedIssue, CommentedIssueView};
use crate::text::{decimal, u32_to_decimal};

verus! {

/// The text of a section block and the markup it is written in.
#[derive(Debug, Clone, PartialEq, Eq)]
pub struct SlackMessageBlockSectionText {
    pub kind: String,
    pub text: String,
}

/// What a [`SlackMessageBlockSectionText`] holds.
pub struct SlackMessageBlockSectionTextView {
    pub kind: Seq<char>,
    pub text: Seq<char>,
}

impl View for SlackMessageBlockSectionText {
    type V = SlackMessageBlockSectionTextView;

    open spec fn view(&self) -> SlackMessageBlockSectionTextView {
        SlackMessageBlockSectionTextView { kind: self.kind@, text: self.text@ }
    }
}

impl SlackMessageBlockSectionText {
    pub fn new(kind: String, text: String) -> (section_text: Self)
        ensures
            section_text@ == (SlackMessageBlockSectionTextView { kind: kind@, text: text@ }),
    {
        Self { kind, text }
    }
}

/// A block that shows one text.
#[derive(Debug, Clone, PartialEq, Eq)]
pub struct SlackMessageBlockSection {
    pub kind: String,
    pub text: SlackMessageBlockSectionText,
}

/// What a [`SlackMessageBlockSection`] holds.
pub struct SlackMessageBlockSectionView {
    pub kind: Seq<char>,
    pub text: SlackMessageBlockSectionTextView,
}

impl View for SlackMessageBlockSection {
    type V = SlackMessageBlockSectionView;

    open spec fn view(&self) -> SlackMessageBlockSectionView {
        SlackMessageBlockSectionView { kind: self.kind@, text: self.text@ }
    }
}

/// The section block that shows `text`, written in the markup `text_kind`.
pub open spec fn section(text_kind: Seq<char>, text: Seq<char>) -> SlackMessageBlockSectionView {
    SlackMessageBlockSectionView {
        kind: "section"@,
        text: SlackMessageBlockSectionTextView { kind: text_kind, text },
    }
}

impl SlackMessageBlockSection {
    pub fn new(text_kind: String, text: String) -> (block: Self)
        ensures
            block@ == section(text_kind@, text@),
    {
        Self {
            kind: String::from_str("section"),
            text: SlackMessageBlockSectionText::new(text_kind, text),
        }
    }
}

/// A block that draws a line between two others.
#[derive(Debug, Clone, PartialEq, Eq)]
pub struct SlackMessageBlockDivider {
    pub kind: String,
}

/// What a [`SlackMessageBlockDivider`] holds.
pub struct SlackMessageBlockDividerView {
    pub kind: Seq<char>,
}

impl View for SlackMessageBlockDivider {
    type V = SlackMessageBlockDividerView;

    open spec fn view(&self) -> SlackMessageBlockDividerView {
        SlackMessageBlockDividerView { kind: self.kind@ }
    }
}

/// The divider block.
pub open spec fn divider() -> SlackMessageBlockDividerView {
    SlackMessageBlockDividerView { kind: "divider"@ }
}

impl SlackMessageBlockDivider {
    pub fn new() -> (block: Self)
        ensures
            block@ == divider(),
    {
        Self { kind: String::from_str("divider") }
    }
}

/// One block of a message.
#[derive(Debug, Clone, PartialEq, Eq)]
pub enum SlackMessageBlock {
    Section(SlackMessageBlockSection),
    Divider(SlackMessageBlockDivider),
}

/// What a [`SlackMessageBlock`] holds.
pub enum SlackMessageBlockView {
    Section(SlackMessageBlockSectionView),
    Divider(SlackMessageBlockDividerView),
}

impl View for SlackMessageBlock {
    type V = SlackMessageBlockView;

    open spec fn view(&self) -> SlackMessageBlockView {
        match self {
            SlackMessageBlock::Section(block) => SlackMessageBlockView::Section(block@),
            SlackMessageBlock::Divider(block) => SlackMessageBlockView::Divider(block@),
        }
    }
}

impl DeepView for SlackMessageBlock {
    type V = SlackMessageBlockView;

    open spec fn deep_view(&self) -> SlackMessageBlockView {
        self@
    }
}

/// The body of a request that posts a message: where it goes and what it shows.
#[derive(Debug, Clone, PartialEq, Eq)]
pub struct SlackPostMessageBody {
    pub channel: String,
    pub blocks: Vec<SlackMessageBlock>,
}

/// What a [`SlackPostMessageBody`] holds.
pub struct SlackPostMessageBodyView {
    pub channel: Seq<char>,
    pub blocks: Seq<SlackMessageBlockView>,
}

impl View for SlackPostMessageBody {
    type V = SlackPostMessageBodyView;

    open spec fn view(&self) -> SlackPostMessageBodyView {
        SlackPostMessageBodyView { channel: self.channel@, blocks: self.blocks.deep_view() }
    }
}

/// The line that names who wrote the comment.
pub open spec fn headline(comment_creator: Seq<char>) -> Seq<char> {
    ":memo: "@ + comment_creator + " さんが課題にコメントしました。"@
}

/// The key under which the tracker shows an issue: project key, hyphen, number.
pub open spec fn issue_label(project_key: Seq<char>, issue_key: nat) -> Seq<char> {
    project_key + "-"@ + decimal(issue_key)
}

/// The address of a comment on the tracker: the issue's page in the given
/// space, with the comment as anchor.
pub open spec fn comment_url(
    backlog_space_id: Seq<char>,
    project_key: Seq<char>,
    issue_key: nat,
    comment_id: nat,
) -> Seq<char> {
    "https://"@ + backlog_space_id + ".backlog.com/view/"@ + issue_label(project_key, issue_key)
        + "#comment-"@ + decimal(comment_id)
}

/// The title line: the issue's label and subject, in bold, linked to the comment.
pub open spec fn title_link(backlog_space_id: Seq<char>, issue: CommentedIssueView) -> Seq<char> {
    "*<"@ + comment_url(backlog_space_id, issue.project_key, issue.issue_key, issue.comment_id)
        + "|"@ + issue_label(issue.project_key, issue.issue_key) + " "@ + issue.issue_subject
        + ">*"@
}

/// The blocks of the message about a comment: headline, divider, title
/// link, and the comment's text as it was written.
pub open spec fn message_blocks(
    backlog_space_id: Seq<char>,
    issue: CommentedIssueView,
) -> Seq<SlackMessageBlockView> {
    seq![
        SlackMessageBlockView::Section(section("plain_text"@, headline(issue.comment_creator))),
        SlackMessageBlockView::Divider(divider()),
        SlackMessageBlockView::Section(section("mrkdwn"@, title_link(backlog_space_id, issue))),
        SlackMessageBlockView::Section(section("mrkdwn"@, issue.comment_content)),
    ]
}

/// The message about a comment, addressed to one user.
pub open spec fn request_body(
    backlog_space_id: Seq<char>,
    slack_user_id: Seq<char>,
    issue: CommentedIssueView,
) -> SlackPostMessageBodyView {
    SlackPostMessageBodyView {
        channel: slack_user_id,
        blocks: message_blocks(backlog_space_id, issue),
    }
}

fn issue_label_text(project_key: &String, issue_key: u32) -> (label: String)
    ensures
        label@ == issue_label(project_key@, issue_key as nat),
{
    let mut label = project_key.clone();
    label.append("-");
    label.append(u32_to_decimal(issue_key).as_str());
    label
}

fn title_link_text(app_config: &AppConfig, commented_issue: &CommentedIssue) -> (link: String)
    ensures
        link@ == title_link(app_config@.backlog_space_id, commented_issue@),
{
    let label = issue_label_text(&commented_issue.project_key, commented_issue.issue_key);
    let mut link = String::from_str("*<");
    link.append("https://");
    link.append(app_config.backlog_space_id.as_str());
    link.append(".backlog.com/view/");
    link.append(label.as_str());
    link.append("#comment-");
    link.append(u32_to_decimal(commented_issue.comment_id).as_str());
    link.append("|");
    link.append(label.as_str());
    link.append(" ");
    link.append(commented_issue.issue_subject.as_str());
    link.append(">*");
    assert(link@ =~= title_link(app_config@.backlog_space_id, commented_issue@));
    link
}

/// Builds the message that tells `slack_user_id` about the comment.
pub fn build_request_body(
    app_config: &AppConfig,
    slack_user_id: &String,
    commented_issue: &CommentedIssue,
) -> (body: SlackPostMessageBody)
    ensures
        body@ == request_body(app_config@.backlog_space_id, slack_user_id@, commented_issue@),
{
    let mut headline_text = String::from_str(":memo: ");
    headline_text.append(commented_issue.comment_creator.as_str());
    headline_text.append(" さんが課題にコメントしました。");

    let mut blocks: Vec<SlackMessageBlock> = Vec::new();
    blocks.push(
        SlackMessageBlock::Section(
            SlackMessageBlockSection::new(String::from_str("plain_text"), headline_text),
        ),
    );
    blocks.push(SlackMessageBlock::Divider(SlackMessageBlockDivider::new()));
    blocks.push(
        SlackMessageBlock::Section(
            SlackMessageBlockSection::new(
                String::from_str("mrkdwn"),
                title_link_text(app_config, commented_issue),
            ),
        ),
    );
    blocks.push(
        SlackMessageBlock::Section(
            SlackMessageBlockSection::new(
                String::from_str("mrkdwn"),
                commented_issue.comment_content.clone(),
            ),
        ),
    );
    assert(blocks.deep_view() =~= message_blocks(
        app_config@.backlog_space_id,
        commented_issue@,
    ));
    SlackPostMessageBody { channel: slack_user_id.clone(), blocks }
}

/// How long a delivery may take before it counts as failed, in seconds.
pub const DELIVERY_TIMEOUT_SECONDS: u64 = 10;

/// A request to post one direct message: everything the transport needs.
#[derive(Debug, Clone, PartialEq, Eq)]
pub struct DirectMessageRequest {
    pub url: String,
    pub authorization: String,
    pub timeout_seconds: u64,
    pub body: SlackPostMessageBody,
}

/// What a [`DirectMessageRequest`] holds.
pub struct DirectMessageRequestView {
    pub url: Seq<char>,
    pub authorization: Seq<char>,
    pub timeout_seconds: u64,
    pub body: SlackPostMessageBodyView,
}

impl View for DirectMessageRequest {
    type V = DirectMessageRequestView;

    open spec fn view(&self) -> DirectMessageRequestView {
        DirectMessageRequestView {
            url: self.url@,
            authorization: self.authorization@,
            timeout_seconds: self.timeout_seconds,
            body: self.body@,
        }
    }
}

/// The request that tells one user about a comment: a post to the
/// platform's message endpoint, authorized by the bot token.
pub open spec fn direct_message(
    app_config: AppConfigView,
    slack_user_id: Seq<char>,
    issue: CommentedIssueView,
) -> DirectMessageRequestView {
    DirectMessageRequestView {
        url: "https://slack.com/api/chat.postMessage"@,
        authorization: "Bearer "@ + app_config.slack_bot_oauth_token,
        timeout_seconds: DELIVERY_TIMEOUT_SECONDS,
        body: request_body(app_config.backlog_space_id, slack_user_id, issue),
    }
}

/// Prepares the request that tells `slack_user_id` about the comment.
pub fn prepare_direct_message(
    app_config: &AppConfig,
    slack_user_id: &String,
    commented_issue: &CommentedIssue,
) -> (request: DirectMessageRequest)
    ensures
        request@ == direct_message(app_config@, slack_user_id@, commented_issue@),
{
    let mut authorization = String::from_str("Bearer ");
    authorization.append(app_config.slack_bot_oauth_token.as_str());
    DirectMessageRequest {
        url: String::from_str("https://slack.com/api/chat.postMessage"),
        authorization,
        timeout_seconds: DELIVERY_TIMEOUT_SECONDS,
        body: build_request_body(app_config, slack_user_id, commented_issue),
    }
}

/// What came of sending one request.
#[derive(Debug, Clone, PartialEq, Eq)]
pub enum TransportReply {
    /// The platform answered, with this status and this text.
    Answered { status: u16, body: String },
    /// No answer came; the text says why.
    Failed { cause: String },
}

/// What a [`TransportReply`] holds.
pub enum TransportReplyView {
    Answered { status: u16, body: Seq<char> },
    Failed { cause: Seq<char> },
}

impl View for TransportReply {
    type V = TransportReplyView;

    open spec fn view(&self) -> TransportReplyView {
        match self {
            TransportReply::Answered { status, body } => TransportReplyView::Answered {
                status: *status,
                body: body@,
            },
            TransportReply::Failed { cause } => TransportReplyView::Failed { cause: cause@ },
        }
    }
}

/// The result of one delivery.
#[derive(Debug, Clone, PartialEq, Eq)]
pub enum DeliveryOutcome {
    /// The platform took the message; this is what it answered.
    Delivered { response: String },
    /// The message did not get through; the text says why.
    Failed { cause: String },
}

/// What a [`DeliveryOutcome`] holds.
pub enum DeliveryOutcomeView {
    Delivered { response: Seq<char> },
    Failed { cause: Seq<char> },
}

impl View for DeliveryOutcome {
    type V = DeliveryOutcomeView;

    open spec fn view(&self) -> DeliveryOutcomeView {
        match self {
            DeliveryOutcome::Delivered { response } => DeliveryOutcomeView::Delivered {
                response: response@,
            },
            DeliveryOutcome::Failed { cause } => DeliveryOutcomeView::Failed { cause: cause@ },
        }
    }
}

impl DeepView for DeliveryOutcome {
    type V = DeliveryOutcomeView;

    open spec fn deep_view(&self) -> DeliveryOutcomeView {
        self@
    }
}

/// Whether a status reports success.
pub open spec fn is_success(status: u16) -> bool {
    200 <= status < 300
}

/// The cause recorded for an answer that does not report success.
pub open spec fn refusal(status: u16, body: Seq<char>) -> Seq<char> {
    "the platform answered with status "@ + decimal(status as nat) + ": "@ + body
}

/// The outcome that a reply amounts to: delivered if the platform answered
/// with success, failed if it answered otherwise or not at all.
pub open spec fn outcome_of(reply: TransportReplyView) -> DeliveryOutcomeView {
    match reply {
        TransportReplyView::Answered { status, body } => if is_success(status) {
            DeliveryOutcomeView::Delivered { response: body }
        } else {
            DeliveryOutcomeView::Failed { cause: refusal(status, body) }
        },
        TransportReplyView::Failed { cause } => DeliveryOutcomeView::Failed { cause },
    }
}

/// Judges one reply of the transport.
pub fn delivery_outcome(reply: TransportReply) -> (outcome: DeliveryOutcome)
    ensures
        outcome@ == outcome_of(reply@),
{
    match reply {
        TransportReply::Answered { status, body } => {
            if 200 <= status && status < 300 {
                DeliveryOutcome::Delivered { response: body }
            } else {
                let mut cause = String::from_str("the platform answered with status ");
                cause.append(u32_to_decimal(status as u32).as_str());
                cause.append(": ");
                cause.append(body.as_str());
                DeliveryOutcome::Failed { cause }
            }
        },
        TransportReply::Failed { cause } => DeliveryOutcome::Failed { cause },
    }
}

} // verus!

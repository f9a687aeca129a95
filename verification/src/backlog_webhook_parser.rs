//! Classification of tracker webhooks, and the comment event that the rest
//! of the relay works on.

use vstd::prelude::*;
use crate::account_mapping::{get_backlog_users, known_user_names};
use crate::app_config::{AppConfig, AppConfigView};
use crate::pattern::{escape, search};
use crate::text::{contains_literal, occurs_at, occurs_in};

verus! {

/// The project that an issue belongs to.
#[derive(Debug, Clone, PartialEq, Eq)]
pub struct BacklogProject {
    pub project_key: String,
    pub name: String,
}

/// What a [`BacklogProject`] holds, as text.
pub struct BacklogProjectView {
    pub project_key: Seq<char>,
    pub name: Seq<char>,
}

impl View for BacklogProject {
    type V = BacklogProjectView;

    open spec fn view(&self) -> BacklogProjectView {
        BacklogProjectView { project_key: self.project_key@, name: self.name@ }
    }
}

/// A user of the tracker.
#[derive(Debug, Clone, PartialEq, Eq)]
pub struct BacklogUser {
    pub name: String,
}

/// What a [`BacklogUser`] holds, as text.
pub struct BacklogUserView {
    pub name: Seq<char>,
}

impl View for BacklogUser {
    type V = BacklogUserView;

    open spec fn view(&self) -> BacklogUserView {
        BacklogUserView { name: self.name@ }
    }
}

/// A notice that the tracker itself sent to a user.
#[derive(Debug, Clone, PartialEq, Eq)]
pub struct BacklogNotification {
    pub user: BacklogUser,
}

/// What a [`BacklogNotification`] holds.
pub struct BacklogNotificationView {
    pub user: BacklogUserView,
}

impl View for BacklogNotification {
    type V = BacklogNotificationView;

    open spec fn view(&self) -> BacklogNotificationView {
        BacklogNotificationView { user: self.user@ }
    }
}

impl DeepView for BacklogNotification {
    type V = BacklogNotificationView;

    open spec fn deep_view(&self) -> BacklogNotificationView {
        self@
    }
}

/// A comment on an issue.
#[derive(Debug, Clone, PartialEq, Eq)]
pub struct BacklogComment {
    pub id: u32,
    pub content: String,
}

/// What a [`BacklogComment`] holds.
pub struct BacklogCommentView {
    pub id: nat,
    pub content: Seq<char>,
}

impl View for BacklogComment {
    type V = BacklogCommentView;

    open spec fn view(&self) -> BacklogCommentView {
        BacklogCommentView { id: self.id as nat, content: self.content@ }
    }
}

/// What a comment webhook says of the issue and the comment.
#[derive(Debug, Clone, PartialEq, Eq)]
pub struct BacklogCommentAddedContent {
    pub key_id: u32,
    pub summary: String,
    pub comment: BacklogComment,
}

/// What a [`BacklogCommentAddedContent`] holds.
pub struct BacklogCommentAddedContentView {
    pub key_id: nat,
    pub summary: Seq<char>,
    pub comment: BacklogCommentView,
}

impl View for BacklogCommentAddedContent {
    type V = BacklogCommentAddedContentView;

    open spec fn view(&self) -> BacklogCommentAddedContentView {
        BacklogCommentAddedContentView {
            key_id: self.key_id as nat,
            summary: self.summary@,
            comment: self.comment@,
        }
    }
}

/// A decoded issue webhook.
#[derive(Debug, Clone, PartialEq, Eq)]
pub struct BacklogIssueRelatedWebhookPayload {
    pub id: u32,
    pub project: BacklogProject,
    pub event_type: u8,
    pub content: BacklogCommentAddedContent,
    pub notifications: Vec<BacklogNotification>,
    pub created_user: BacklogUser,
}

/// What a [`BacklogIssueRelatedWebhookPayload`] holds.
pub struct BacklogIssueRelatedWebhookPayloadView {
    pub id: nat,
    pub project: BacklogProjectView,
    pub event_type: nat,
    pub content: BacklogCommentAddedContentView,
    pub notifications: Seq<BacklogNotificationView>,
    pub created_user: BacklogUserView,
}

impl View for BacklogIssueRelatedWebhookPayload {
    type V = BacklogIssueRelatedWebhookPayloadView;

    open spec fn view(&self) -> BacklogIssueRelatedWebhookPayloadView {
        BacklogIssueRelatedWebhookPayloadView {
            id: self.id as nat,
            project: self.project@,
            event_type: self.event_type as nat,
            content: self.content@,
            notifications: self.notifications.deep_view(),
            created_user: self.created_user@,
        }
    }
}

/// The event type of a webhook that reports a new comment.
pub const COMMENT_ADDED: u8 = 3;

/// Why a webhook leads to no notification.
#[derive(Debug, Clone, PartialEq, Eq)]
pub enum WebhookError {
    /// The request could not be read as an issue webhook; the text says why.
    ParseError(String),
    /// The webhook reports something other than a new comment.
    NotCommentEvent,
}

/// What a [`WebhookError`] holds, as text.
pub enum WebhookErrorView {
    ParseError(Seq<char>),
    NotCommentEvent,
}

impl View for WebhookError {
    type V = WebhookErrorView;

    open spec fn view(&self) -> WebhookErrorView {
        match self {
            WebhookError::ParseError(diagnostic) => WebhookErrorView::ParseError(diagnostic@),
            WebhookError::NotCommentEvent => WebhookErrorView::NotCommentEvent,
        }
    }
}

impl WebhookError {
    /// The error in words, for a log line.
    pub fn message(&self) -> (text: String)
        ensures
            text@ == match self@ {
                WebhookErrorView::ParseError(diagnostic) => diagnostic,
                WebhookErrorView::NotCommentEvent => "This payload is not commented-event."@,
            },
    {
        match self {
            WebhookError::ParseError(diagnostic) => diagnostic.clone(),
            WebhookError::NotCommentEvent => String::from_str(
                "This payload is not commented-event.",
            ),
        }
    }
}

/// A comment that was added to an issue, as the relay needs it.
#[derive(Debug, Clone, PartialEq, Eq)]
pub struct CommentedIssue {
    pub project_key: String,
    pub issue_key: u32,
    pub issue_subject: String,
    pub notified_backlog_user_names: Vec<String>,
    pub comment_id: u32,
    pub comment_content: String,
    pub comment_creator: String,
}

/// What a [`CommentedIssue`] holds, as text and numbers.
pub struct CommentedIssueView {
    pub project_key: Seq<char>,
    pub issue_key: nat,
    pub issue_subject: Seq<char>,
    pub notified_backlog_user_names: Seq<Seq<char>>,
    pub comment_id: nat,
    pub comment_content: Seq<char>,
    pub comment_creator: Seq<char>,
}

impl View for CommentedIssue {
    type V = CommentedIssueView;

    open spec fn view(&self) -> CommentedIssueView {
        CommentedIssueView {
            project_key: self.project_key@,
            issue_key: self.issue_key as nat,
            issue_subject: self.issue_subject@,
            notified_backlog_user_names: self.notified_backlog_user_names.deep_view(),
            comment_id: self.comment_id as nat,
            comment_content: self.comment_content@,
            comment_creator: self.comment_creator@,
        }
    }
}

/// The outcome of decoding a request: the payload, nothing where the request
/// carried no body, or the decoder's diagnostic.
pub type Decoded = Result<Option<BacklogIssueRelatedWebhookPayload>, String>;

/// What a [`Decoded`] holds.
pub type DecodedView = Result<Option<BacklogIssueRelatedWebhookPayloadView>, Seq<char>>;

/// The view of a decoding outcome.
pub open spec fn decoded_view(decoded: Decoded) -> DecodedView {
    match decoded {
        Ok(Some(payload)) => Ok(Some(payload@)),
        Ok(None) => Ok(None),
        Err(diagnostic) => Err(diagnostic@),
    }
}

/// Whether the webhook reports a new comment.
pub fn is_commented_event(payload: &BacklogIssueRelatedWebhookPayload) -> (commented: bool)
    ensures
        commented == (payload@.event_type == COMMENT_ADDED),
{
    payload.event_type == COMMENT_ADDED
}

/// The comment event that a comment webhook reports, no mentions noted yet.
pub open spec fn commented_issue_of(
    payload: BacklogIssueRelatedWebhookPayloadView,
) -> CommentedIssueView {
    CommentedIssueView {
        project_key: payload.project.project_key,
        issue_key: payload.content.key_id,
        issue_subject: payload.content.summary,
        notified_backlog_user_names: Seq::empty(),
        comment_id: payload.content.comment.id,
        comment_content: payload.content.comment.content,
        comment_creator: payload.created_user.name,
    }
}

/// What parsing makes of a decoded request: a parse error where it could
/// not be decoded or had no body, the comment event where it reports a new
/// comment, and else the notice that it is not a comment event.
pub open spec fn parsed(decoded: DecodedView) -> Result<CommentedIssueView, WebhookErrorView> {
    match decoded {
        Err(diagnostic) => Err(WebhookErrorView::ParseError(diagnostic)),
        Ok(None) => Err(WebhookErrorView::ParseError("payload is empty"@)),
        Ok(Some(payload)) => if payload.event_type == COMMENT_ADDED {
            Ok(commented_issue_of(payload))
        } else {
            Err(WebhookErrorView::NotCommentEvent)
        },
    }
}

/// The view of a parse result.
pub open spec fn parse_result_view(outcome: Result<CommentedIssue, WebhookError>) -> Result<
    CommentedIssueView,
    WebhookErrorView,
> {
    match outcome {
        Ok(commented_issue) => Ok(commented_issue@),
        Err(error) => Err(error@),
    }
}

/// Classifies a decoded request. A request that could not be decoded, or
/// that had no body, is a parse error; a webhook of another event type is
/// set apart as not a comment event; a comment webhook gives the comment
/// event, with no mentions noted yet.
pub fn parse_webhook_payload(decoded: Decoded) -> (outcome: Result<CommentedIssue, WebhookError>)
    ensures
        parse_result_view(outcome) == parsed(decoded_view(decoded)),
{
    match decoded {
        Err(diagnostic) => Err(WebhookError::ParseError(diagnostic)),
        Ok(None) => Err(WebhookError::ParseError(String::from_str("payload is empty"))),
        Ok(Some(payload)) => {
            if is_commented_event(&payload) {
                let commented_issue = CommentedIssue {
                    project_key: payload.project.project_key,
                    issue_key: payload.content.key_id,
                    issue_subject: payload.content.summary,
                    notified_backlog_user_names: Vec::new(),
                    comment_id: payload.content.comment.id,
                    comment_content: payload.content.comment.content,
                    comment_creator: payload.created_user.name,
                };
                assert(commented_issue.notified_backlog_user_names.deep_view() =~= Seq::<
                    Seq<char>,
                >::empty());
                Ok(commented_issue)
            } else {
                Err(WebhookError::NotCommentEvent)
            }
        },
    }
}

/// How a user is addressed in a comment: an at sign, then the user's name.
pub open spec fn mention_of(backlog_user_name: Seq<char>) -> Seq<char> {
    seq!['@'] + backlog_user_name
}

/// Whether the comment addresses the user: whether the user's mention
/// stands somewhere in it, whatever comes before and after.
pub open spec fn mentions(comment: Seq<char>, backlog_user_name: Seq<char>) -> bool {
    occurs_in(comment, mention_of(backlog_user_name))
}

/// The candidates that the comment addresses, in the candidates' order.
pub open spec fn mentioned_user_names(
    comment: Seq<char>,
    candidates: Seq<Seq<char>>,
) -> Seq<Seq<char>> {
    candidates.filter(|backlog_user_name: Seq<char>| mentions(comment, backlog_user_name))
}

/// Tells whether the comment addresses the user.
///
/// The search is handed to the regular-expression engine, with the mention
/// escaped so that it is read as plain text. Where the engine refuses the
/// pattern, the comment is scanned here instead.
pub fn is_mentioned(comment: &str, backlog_user_name: &str) -> (mentioned: bool)
    ensures
        mentioned == mentions(comment@, backlog_user_name@),
{
    proof {
        reveal_strlit("@");
    }
    let mut mention = String::from_str("@");
    mention.append(backlog_user_name);
    assert(mention@ =~= mention_of(backlog_user_name@));
    let pattern = escape(mention.as_str());
    match search(pattern.as_str(), comment) {
        Some(hit) => hit,
        None => contains_literal(comment, mention.as_str()),
    }
}

/// Picks the candidates that the comment addresses, in the candidates' order.
pub fn extract_backlog_user_names(
    comment: &String,
    backlog_user_name_candidates: Vec<String>,
) -> (mentioned: Vec<String>)
    ensures
        mentioned.deep_view() == mentioned_user_names(
            comment@,
            backlog_user_name_candidates.deep_view(),
        ),
{
    let ghost addressed = |backlog_user_name: Seq<char>| mentions(comment@, backlog_user_name);
    let ghost candidates = backlog_user_name_candidates.deep_view();
    let mut mentioned: Vec<String> = Vec::new();
    let mut i: usize = 0;
    assert(candidates.take(0).filter(addressed) =~= Seq::<Seq<char>>::empty()) by {
        reveal(Seq::filter);
    }
    while i < backlog_user_name_candidates.len()
        invariant
            i <= backlog_user_name_candidates.len(),
            candidates == backlog_user_name_candidates.deep_view(),
            addressed == |backlog_user_name: Seq<char>| mentions(comment@, backlog_user_name),
            mentioned.deep_view() == candidates.take(i as int).filter(addressed),
        decreases backlog_user_name_candidates.len() - i,
    {
        let candidate = &backlog_user_name_candidates[i];
        let ghost before = mentioned.deep_view();
        proof {
            assert(candidates.take(i + 1) =~= candidates.take(i as int).push(candidate@));
            candidates.take(i as int).lemma_filter_push(candidate@, addressed);
        }
        if is_mentioned(comment.as_str(), candidate.as_str()) {
            mentioned.push(candidate.clone());
            assert(mentioned.deep_view() =~= before.push(candidate@));
        }
        i += 1;
    }
    assert(candidates.take(i as int) =~= candidates);
    mentioned
}

/// Extraction gives one answer for one comment and one list of candidates,
/// and run again on its own answer it keeps all of it.
pub proof fn mention_extraction_is_repeatable(
    comment: Seq<char>,
    candidates: Seq<Seq<char>>,
    first: Seq<Seq<char>>,
    second: Seq<Seq<char>>,
)
    requires
        first == mentioned_user_names(comment, candidates),
        second == mentioned_user_names(comment, candidates),
    ensures
        first == second,
        mentioned_user_names(comment, first) == first,
{
    let addressed = |backlog_user_name: Seq<char>| mentions(comment, backlog_user_name);
    filter_of_filter(candidates, addressed);
}

/// A name is extracted exactly if it is a candidate and the comment
/// addresses it.
pub proof fn mentioned_are_the_addressed_candidates(
    comment: Seq<char>,
    candidates: Seq<Seq<char>>,
    backlog_user_name: Seq<char>,
)
    ensures
        mentioned_user_names(comment, candidates).contains(backlog_user_name) <==> (
        candidates.contains(backlog_user_name) && mentions(comment, backlog_user_name)),
{
    let addressed = |backlog_user_name: Seq<char>| mentions(comment, backlog_user_name);
    let mentioned = candidates.filter(addressed);
    if mentioned.contains(backlog_user_name) {
        let at = choose|i: int| 0 <= i < mentioned.len() && mentioned[i] == backlog_user_name;
        candidates.lemma_filter_pred(addressed, at);
        candidates.lemma_filter_contains_rev(addressed, backlog_user_name);
    }
    if candidates.contains(backlog_user_name) && mentions(comment, backlog_user_name) {
        let at = choose|i: int| 0 <= i < candidates.len() && candidates[i] == backlog_user_name;
        candidates.lemma_filter_contains(addressed, at);
    }
}

/// The search looks at no word boundary: a comment that addresses a user
/// addresses with the same text every user whose name begins that user's name.
pub proof fn mention_of_longer_name_mentions_its_prefixes(
    comment: Seq<char>,
    shorter: Seq<char>,
    longer: Seq<char>,
)
    requires
        shorter.is_prefix_of(longer),
        mentions(comment, longer),
    ensures
        mentions(comment, shorter),
{
    let start = choose|start: int| occurs_at(comment, mention_of(longer), start);
    let long_mention = mention_of(longer);
    let short_mention = mention_of(shorter);
    assert(short_mention =~= long_mention.subrange(0, short_mention.len() as int));
    assert(comment.subrange(start, start + short_mention.len()) =~= comment.subrange(
        start,
        start + long_mention.len(),
    ).subrange(0, short_mention.len() as int));
    assert(occurs_at(comment, short_mention, start));
}

/// Whether `earlier` stands somewhere before `later` in `items`.
pub open spec fn stands_before<A>(items: Seq<A>, earlier: A, later: A) -> bool {
    exists|a: int, b: int| 0 <= a < b < items.len() && items[a] == earlier && items[b] == later
}

/// The extracted names are candidates and stand in the candidates' order;
/// where no candidate stands twice, no extracted name does.
pub proof fn mentioned_keep_the_candidates_order(
    comment: Seq<char>,
    candidates: Seq<Seq<char>>,
    mentioned: Seq<Seq<char>>,
)
    requires
        mentioned == mentioned_user_names(comment, candidates),
    ensures
        forall|i: int| 0 <= i < mentioned.len() ==> candidates.contains(#[trigger] mentioned[i]),
        forall|i: int, j: int|
            0 <= i < j < mentioned.len() ==> #[trigger] stands_before(
                candidates,
                mentioned[i],
                mentioned[j],
            ),
        candidates.no_duplicates() ==> mentioned.no_duplicates(),
{
    let addressed = |backlog_user_name: Seq<char>| mentions(comment, backlog_user_name);
    filter_keeps_order(candidates, addressed);
    if candidates.no_duplicates() {
        assert forall|i: int, j: int|
            0 <= i < mentioned.len() && 0 <= j < mentioned.len() && i != j implies mentioned[i]
            != mentioned[j] by {
            if i < j {
                assert(stands_before(candidates, mentioned[i], mentioned[j]));
            } else {
                assert(stands_before(candidates, mentioned[j], mentioned[i]));
            }
        }
    }
}

proof fn filter_of_filter<A>(items: Seq<A>, keep: spec_fn(A) -> bool)
    ensures
        items.filter(keep).filter(keep) == items.filter(keep),
    decreases items.len(),
{
    reveal(Seq::filter);
    if items.len() > 0 {
        let rest = items.drop_last();
        filter_of_filter(rest, keep);
        if keep(items.last()) {
            rest.filter(keep).lemma_filter_push(items.last(), keep);
        }
    }
}

proof fn filter_keeps_order<A>(items: Seq<A>, keep: spec_fn(A) -> bool)
    ensures
        forall|i: int|
            0 <= i < items.filter(keep).len() ==> items.contains(#[trigger] items.filter(keep)[i]),
        forall|i: int, j: int|
            0 <= i < j < items.filter(keep).len() ==> #[trigger] stands_before(
                items,
                items.filter(keep)[i],
                items.filter(keep)[j],
            ),
    decreases items.len(),
{
    reveal(Seq::filter);
    let kept = items.filter(keep);
    if items.len() > 0 {
        let rest = items.drop_last();
        let kept_before = rest.filter(keep);
        filter_keeps_order(rest, keep);
        assert forall|i: int| 0 <= i < kept.len() implies items.contains(#[trigger] kept[i]) by {
            if i < kept_before.len() {
                assert(rest.contains(kept_before[i]));
                let a = choose|a: int| 0 <= a < rest.len() && rest[a] == kept_before[i];
                assert(items[a] == kept[i]);
            } else {
                assert(items[items.len() - 1] == kept[i]);
            }
        }
        assert forall|i: int, j: int| 0 <= i < j < kept.len() implies #[trigger] stands_before(
            items,
            kept[i],
            kept[j],
        ) by {
            if j < kept_before.len() {
                assert(stands_before(rest, kept_before[i], kept_before[j]));
                let (a, b) = choose|a: int, b: int|
                    0 <= a < b < rest.len() && rest[a] == kept_before[i] && rest[b]
                        == kept_before[j];
                assert(items[a] == kept[i] && items[b] == kept[j]);
            } else {
                assert(rest.contains(kept_before[i]));
                let a = choose|a: int| 0 <= a < rest.len() && rest[a] == kept_before[i];
                let b = items.len() - 1;
                assert(items[a] == kept[i] && items[b] == kept[j]);
            }
        }
    }
}

/// The comment event with the mentions noted: the known users that its
/// text addresses, in the directory's order.
pub open spec fn with_mentions(
    commented_issue: CommentedIssueView,
    app_config: AppConfigView,
) -> CommentedIssueView {
    CommentedIssueView {
        notified_backlog_user_names: mentioned_user_names(
            commented_issue.comment_content,
            known_user_names(app_config.user_account_mapping),
        ),
        ..commented_issue
    }
}

/// Notes in the comment event which users of the account directory the
/// comment addresses. Whatever was noted before is replaced.
pub fn note_mentions(commented_issue: CommentedIssue, app_config: &AppConfig) -> (noted:
    CommentedIssue)
    ensures
        noted@ == with_mentions(commented_issue@, app_config@),
{
    let mentioned = extract_backlog_user_names(
        &commented_issue.comment_content,
        get_backlog_users(app_config),
    );
    CommentedIssue {
        project_key: commented_issue.project_key,
        issue_key: commented_issue.issue_key,
        issue_subject: commented_issue.issue_subject,
        notified_backlog_user_names: mentioned,
        comment_id: commented_issue.comment_id,
        comment_content: commented_issue.comment_content,
        comment_creator: commented_issue.comment_creator,
    }
}

} // verus!

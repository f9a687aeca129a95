//! The relay itself: what is to be done for one webhook, step by step.
//!
//! The relay does no sending of its own. It tells its caller which request
//! to send next, takes back what came of it, and ends by saying what to
//! answer to the tracker.

use vstd::prelude::*;
use crate::account_mapping::{
    known_user_names, lookup, lookup_misses_exactly_unknown_names, map_to_slack_user_id,
};
use crate::app_config::{AppConfig, AppConfigView, UserAccountMappingView};
use crate::backlog_webhook_parser::{
    decoded_view, mentioned_keep_the_candidates_order, note_mentions, parse_webhook_payload, parsed,
    with_mentions, BacklogIssueRelatedWebhookPayloadView, CommentedIssue, CommentedIssueView,
    Decoded, DecodedView, WebhookError, WebhookErrorView, COMMENT_ADDED,
};
use crate::slack_api::{
    delivery_outcome, direct_message, outcome_of, prepare_direct_message, DeliveryOutcome,
    DeliveryOutcomeView, DirectMessageRequest, DirectMessageRequestView, TransportReply,
    TransportReplyView,
};

verus! {

/// The messaging user ids of the named users, in the names' order. A name
/// that the directory does not know gives none.
pub open spec fn resolved_recipients(
    directory: Seq<UserAccountMappingView>,
    backlog_user_names: Seq<Seq<char>>,
) -> Seq<Seq<char>> {
    backlog_user_names.filter_map(|backlog_user_name: Seq<char>| lookup(directory, backlog_user_name))
}

/// Resolves the named users to messaging user ids, leaving out those that
/// the account directory does not know.
pub fn get_notified_slack_user_id(
    app_config: &AppConfig,
    notified_backlog_user_names: &Vec<String>,
) -> (slack_user_ids: Vec<String>)
    ensures
        slack_user_ids.deep_view() == resolved_recipients(
            app_config@.user_account_mapping,
            notified_backlog_user_names.deep_view(),
        ),
{
    let ghost directory = app_config@.user_account_mapping;
    let ghost names = notified_backlog_user_names.deep_view();
    let ghost resolve = |backlog_user_name: Seq<char>| lookup(directory, backlog_user_name);
    let mut slack_user_ids: Vec<String> = Vec::new();
    let mut i: usize = 0;
    while i < notified_backlog_user_names.len()
        invariant
            i <= notified_backlog_user_names.len(),
            directory == app_config@.user_account_mapping,
            names == notified_backlog_user_names.deep_view(),
            resolve == |backlog_user_name: Seq<char>| lookup(directory, backlog_user_name),
            slack_user_ids.deep_view() == names.take(i as int).filter_map(resolve),
        decreases notified_backlog_user_names.len() - i,
    {
        let ghost before = slack_user_ids.deep_view();
        proof {
            names.lemma_filter_map_take_succ(resolve, i as int);
        }
        match map_to_slack_user_id(app_config, &notified_backlog_user_names[i]) {
            Some(slack_user_id) => {
                slack_user_ids.push(slack_user_id);
                assert(slack_user_ids.deep_view() =~= before + seq![slack_user_id@]);
            },
            None => {},
        }
        i += 1;
    }
    assert(names.take(i as int) =~= names);
    slack_user_ids
}

/// The answer to the tracker.
#[derive(Debug, Clone, PartialEq, Eq)]
pub struct WebhookResponse {
    pub status: u16,
    pub content_type: String,
    pub body: String,
}

/// What a [`WebhookResponse`] holds.
pub struct WebhookResponseView {
    pub status: u16,
    pub content_type: Seq<char>,
    pub body: Seq<char>,
}

impl View for WebhookResponse {
    type V = WebhookResponseView;

    open spec fn view(&self) -> WebhookResponseView {
        WebhookResponseView {
            status: self.status,
            content_type: self.content_type@,
            body: self.body@,
        }
    }
}

/// The one answer that the tracker ever gets: success, with nothing in it.
pub open spec fn acknowledgement() -> WebhookResponseView {
    WebhookResponseView { status: 200, content_type: "text/html"@, body: Seq::empty() }
}

/// What the caller of the relay is to do next.
#[derive(Debug, Clone, PartialEq, Eq)]
pub enum Action {
    /// Send this request, and hand back what came of it.
    Deliver(DirectMessageRequest),
    /// Answer the tracker with this; the webhook is done.
    Respond(WebhookResponse),
}

/// What an [`Action`] holds.
pub enum ActionView {
    Deliver(DirectMessageRequestView),
    Respond(WebhookResponseView),
}

impl View for Action {
    type V = ActionView;

    open spec fn view(&self) -> ActionView {
        match self {
            Action::Deliver(request) => ActionView::Deliver(request@),
            Action::Respond(response) => ActionView::Respond(response@),
        }
    }
}

/// The state of the relay for one webhook.
pub struct RelayView {
    /// The configuration that the webhook is handled under.
    pub app_config: AppConfigView,
    /// The comment event with its mentions, or why there is none.
    pub intake: Result<CommentedIssueView, WebhookErrorView>,
    /// Who is to be told, in order.
    pub recipients: Seq<Seq<char>>,
    /// What came of the deliveries made so far, in the recipients' order.
    pub outcomes: Seq<DeliveryOutcomeView>,
}

/// The state in which a webhook is taken up: the event is parsed, its
/// mentions are noted and resolved, and nothing has been delivered. A
/// webhook that gives no comment event has no recipients.
pub open spec fn received(decoded: DecodedView, app_config: AppConfigView) -> RelayView {
    match parsed(decoded) {
        Ok(commented_issue) => {
            let noted = with_mentions(commented_issue, app_config);
            RelayView {
                app_config,
                intake: Ok(noted),
                recipients: resolved_recipients(
                    app_config.user_account_mapping,
                    noted.notified_backlog_user_names,
                ),
                outcomes: Seq::empty(),
            }
        },
        Err(error) => RelayView {
            app_config,
            intake: Err(error),
            recipients: Seq::empty(),
            outcomes: Seq::empty(),
        },
    }
}

/// What is to be done next in a state: the delivery to the first recipient
/// that has no outcome yet, or, when none is left, the answer to the tracker.
pub open spec fn next_step(relay: RelayView) -> ActionView {
    match relay.intake {
        Ok(commented_issue) => if relay.outcomes.len() < relay.recipients.len() {
            ActionView::Deliver(
                direct_message(
                    relay.app_config,
                    relay.recipients[relay.outcomes.len() as int],
                    commented_issue,
                ),
            )
        } else {
            ActionView::Respond(acknowledgement())
        },
        Err(_) => ActionView::Respond(acknowledgement()),
    }
}

/// The state after the reply to the pending delivery has come in: its
/// outcome is recorded, whatever it is. Where no delivery is pending, the
/// state stays as it is.
pub open spec fn recorded(relay: RelayView, reply: TransportReplyView) -> RelayView {
    if next_step(relay) is Deliver {
        RelayView { outcomes: relay.outcomes.push(outcome_of(reply)), ..relay }
    } else {
        relay
    }
}

/// The state after a run of replies, each taken in its turn.
pub open spec fn after(relay: RelayView, replies: Seq<TransportReplyView>) -> RelayView
    decreases replies.len(),
{
    if replies.len() == 0 {
        relay
    } else {
        recorded(after(relay, replies.drop_last()), replies.last())
    }
}

/// Whatever the state, the tracker is never answered with anything but the
/// acknowledgement, which reports success.
pub proof fn every_answer_reports_success(relay: RelayView)
    ensures
        next_step(relay) matches ActionView::Respond(response) ==> response == acknowledgement()
            && response.status == 200,
{
}

/// A webhook that reports anything but a new comment is set apart as not a
/// comment event. It has no recipients, the tracker is answered at once,
/// and no reply that might still come in changes that.
pub proof fn other_event_is_answered_without_delivery(
    payload: BacklogIssueRelatedWebhookPayloadView,
    app_config: AppConfigView,
    replies: Seq<TransportReplyView>,
)
    requires
        payload.event_type != COMMENT_ADDED,
    ensures
        parsed(Ok(Some(payload))) == Err::<CommentedIssueView, WebhookErrorView>(
            WebhookErrorView::NotCommentEvent,
        ),
        received(Ok(Some(payload)), app_config).recipients.len() == 0,
        next_step(received(Ok(Some(payload)), app_config)) == ActionView::Respond(
            acknowledgement(),
        ),
        after(received(Ok(Some(payload)), app_config), replies) == received(
            Ok(Some(payload)),
            app_config,
        ),
{
    nothing_pending_stays(received(Ok(Some(payload)), app_config), replies);
}

/// A request that could not be decoded, or that carried no body, is a parse
/// error. It has no recipients, the tracker is answered at once, and no
/// reply that might still come in changes that.
pub proof fn undecoded_request_is_answered_without_delivery(
    decoded: DecodedView,
    app_config: AppConfigView,
    replies: Seq<TransportReplyView>,
)
    requires
        decoded is Err || decoded == Ok::<Option<BacklogIssueRelatedWebhookPayloadView>, Seq<char>>(
            None,
        ),
    ensures
        parsed(decoded) matches Err(WebhookErrorView::ParseError(_)),
        decoded matches Err(diagnostic) ==> parsed(decoded) == Err::<
            CommentedIssueView,
            WebhookErrorView,
        >(WebhookErrorView::ParseError(diagnostic)),
        received(decoded, app_config).recipients.len() == 0,
        next_step(received(decoded, app_config)) == ActionView::Respond(acknowledgement()),
        after(received(decoded, app_config), replies) == received(decoded, app_config),
{
    nothing_pending_stays(received(decoded, app_config), replies);
}

/// Each recipient of a comment event gets one delivery, in order, whatever
/// came of the deliveries before. After `k` replies the next step is the
/// request for the `k`-th recipient, and when every recipient has had its
/// reply, it is the acknowledgement to the tracker. The outcome recorded
/// for a recipient is that of its own reply alone, and a reply beyond the
/// last recipient's is dropped, so that nobody is tried twice.
pub proof fn each_recipient_is_tried_once_on_its_own(
    decoded: DecodedView,
    app_config: AppConfigView,
    replies: Seq<TransportReplyView>,
)
    requires
        parsed(decoded) is Ok,
    ensures
        ({
            let start = received(decoded, app_config);
            let answered = if replies.len() <= start.recipients.len() {
                replies
            } else {
                replies.take(start.recipients.len() as int)
            };
            &&& after(start, replies) == (RelayView {
                outcomes: answered.map_values(|reply: TransportReplyView| outcome_of(reply)),
                ..start
            })
            &&& next_step(after(start, replies)) == if replies.len() < start.recipients.len() {
                ActionView::Deliver(
                    direct_message(
                        app_config,
                        start.recipients[replies.len() as int],
                        start.intake->Ok_0,
                    ),
                )
            } else {
                ActionView::Respond(acknowledgement())
            }
        }),
{
    replies_are_recorded_in_turn(received(decoded, app_config), replies);
}

/// A user that the directory does not know is passed over: the recipients
/// are those of the list without that user's name.
pub proof fn unknown_user_gets_no_delivery(
    directory: Seq<UserAccountMappingView>,
    before: Seq<Seq<char>>,
    unknown: Seq<char>,
    behind: Seq<Seq<char>>,
)
    requires
        lookup(directory, unknown) is None,
    ensures
        resolved_recipients(directory, before + seq![unknown] + behind) == resolved_recipients(
            directory,
            before + behind,
        ),
{
    let resolve = |backlog_user_name: Seq<char>| lookup(directory, backlog_user_name);
    filter_map_of_concat(before, seq![unknown], resolve);
    filter_map_of_concat(before + seq![unknown], behind, resolve);
    filter_map_of_concat(before, behind, resolve);
    Seq::lemma_filter_map_singleton(unknown, resolve);
    assert(before.filter_map(resolve) + Seq::<Seq<char>>::empty() =~= before.filter_map(resolve));
}

/// Every user that a comment event mentions is a recipient: the recipients
/// are the messaging user ids of the mentioned users, one for one and in
/// their order.
pub proof fn every_mentioned_user_is_a_recipient(decoded: DecodedView, app_config: AppConfigView)
    requires
        parsed(decoded) is Ok,
    ensures
        ({
            let relay = received(decoded, app_config);
            let mentioned = (relay.intake->Ok_0).notified_backlog_user_names;
            &&& relay.recipients.len() == mentioned.len()
            &&& forall|i: int|
                0 <= i < mentioned.len() ==> lookup(
                    app_config.user_account_mapping,
                    #[trigger] mentioned[i],
                ) == Some(relay.recipients[i])
        }),
{
    let directory = app_config.user_account_mapping;
    let noted = with_mentions(parsed(decoded)->Ok_0, app_config);
    let mentioned = noted.notified_backlog_user_names;
    let resolve = |backlog_user_name: Seq<char>| lookup(directory, backlog_user_name);
    mentioned_keep_the_candidates_order(noted.comment_content, known_user_names(directory), mentioned);
    assert forall|i: int| 0 <= i < mentioned.len() implies (#[trigger] resolve(
        mentioned[i],
    )) is Some by {
        lookup_misses_exactly_unknown_names(directory, mentioned[i]);
    }
    filter_map_of_all_picked(mentioned, resolve);
}

proof fn filter_map_of_all_picked<A, B>(items: Seq<A>, pick: spec_fn(A) -> Option<B>)
    requires
        forall|i: int| 0 <= i < items.len() ==> (#[trigger] pick(items[i])) is Some,
    ensures
        items.filter_map(pick).len() == items.len(),
        forall|i: int|
            0 <= i < items.len() ==> pick(items[i]) == Some(#[trigger] items.filter_map(pick)[i]),
    decreases items.len(),
{
    if items.len() > 0 {
        let rest = items.drop_last();
        assert forall|i: int| 0 <= i < rest.len() implies (#[trigger] pick(rest[i])) is Some by {
            assert(pick(items[i]) is Some);
        }
        filter_map_of_all_picked(rest, pick);
        assert(pick(items[items.len() - 1]) is Some);
        assert forall|i: int| 0 <= i < items.len() implies pick(items[i]) == Some(
            #[trigger] items.filter_map(pick)[i],
        ) by {
            if i < rest.len() {
                assert(pick(rest[i]) == Some(rest.filter_map(pick)[i]));
            }
        }
    }
}

proof fn nothing_pending_stays(relay: RelayView, replies: Seq<TransportReplyView>)
    requires
        next_step(relay) is Respond,
    ensures
        after(relay, replies) == relay,
    decreases replies.len(),
{
    if replies.len() > 0 {
        nothing_pending_stays(relay, replies.drop_last());
    }
}

proof fn replies_are_recorded_in_turn(start: RelayView, replies: Seq<TransportReplyView>)
    requires
        start.intake is Ok,
        start.outcomes.len() == 0,
    ensures
        after(start, replies) == (RelayView {
            outcomes: (if replies.len() <= start.recipients.len() {
                replies
            } else {
                replies.take(start.recipients.len() as int)
            }).map_values(|reply: TransportReplyView| outcome_of(reply)),
            ..start
        }),
    decreases replies.len(),
{
    let judge = |reply: TransportReplyView| outcome_of(reply);
    let count = start.recipients.len() as int;
    if replies.len() == 0 {
        assert(replies.map_values(judge) =~= start.outcomes);
    } else {
        let earlier = replies.drop_last();
        replies_are_recorded_in_turn(start, earlier);
        if replies.len() <= count {
            assert(replies.map_values(judge) =~= earlier.map_values(judge).push(
                outcome_of(replies.last()),
            ));
        } else if earlier.len() <= count {
            assert(replies.take(count) =~= earlier);
        } else {
            assert(replies.take(count) =~= earlier.take(count));
        }
    }
}

proof fn filter_map_of_concat<A, B>(front: Seq<A>, back: Seq<A>, pick: spec_fn(A) -> Option<B>)
    ensures
        (front + back).filter_map(pick) == front.filter_map(pick) + back.filter_map(pick),
    decreases back.len(),
{
    if back.len() == 0 {
        assert(front + back =~= front);
        assert(front.filter_map(pick) + back.filter_map(pick) =~= front.filter_map(pick));
    } else {
        filter_map_of_concat(front, back.drop_last(), pick);
        assert((front + back).drop_last() =~= front + back.drop_last());
        assert((front + back).last() == back.last());
        match pick(back.last()) {
            Some(picked) => {
                assert((front + back).filter_map(pick) =~= front.filter_map(pick) + (
                back.drop_last().filter_map(pick) + seq![picked]));
            },
            None => {},
        }
    }
}

/// The relay for one webhook.
pub struct Relay<'a> {
    app_config: &'a AppConfig,
    intake: Result<CommentedIssue, WebhookError>,
    recipients: Vec<String>,
    outcomes: Vec<DeliveryOutcome>,
}

impl<'a> View for Relay<'a> {
    type V = RelayView;

    closed spec fn view(&self) -> RelayView {
        RelayView {
            app_config: self.app_config@,
            intake: match self.intake {
                Ok(commented_issue) => Ok(commented_issue@),
                Err(error) => Err(error@),
            },
            recipients: self.recipients.deep_view(),
            outcomes: self.outcomes.deep_view(),
        }
    }
}

impl<'a> Relay<'a> {
    /// Takes up a webhook, given what decoding its request gave.
    pub fn receive(decoded: Decoded, app_config: &'a AppConfig) -> (relay: Self)
        ensures
            relay@ == received(decoded_view(decoded), app_config@),
    {
        match parse_webhook_payload(decoded) {
            Ok(commented_issue) => {
                let noted = note_mentions(commented_issue, app_config);
                let recipients = get_notified_slack_user_id(
                    app_config,
                    &noted.notified_backlog_user_names,
                );
                let relay = Relay { app_config, intake: Ok(noted), recipients, outcomes: Vec::new() };
                assert(relay.outcomes.deep_view() =~= Seq::<DeliveryOutcomeView>::empty());
                relay
            },
            Err(error) => {
                let relay = Relay {
                    app_config,
                    intake: Err(error),
                    recipients: Vec::new(),
                    outcomes: Vec::new(),
                };
                assert(relay.outcomes.deep_view() =~= Seq::<DeliveryOutcomeView>::empty());
                assert(relay.recipients.deep_view() =~= Seq::<Seq<char>>::empty());
                relay
            },
        }
    }

    /// Says what is to be done next.
    pub fn next_action(&self) -> (action: Action)
        ensures
            action@ == next_step(self@),
    {
        match &self.intake {
            Ok(commented_issue) => {
                if self.outcomes.len() < self.recipients.len() {
                    Action::Deliver(
                        prepare_direct_message(
                            self.app_config,
                            &self.recipients[self.outcomes.len()],
                            commented_issue,
                        ),
                    )
                } else {
                    Action::Respond(acknowledge())
                }
            },
            Err(_) => Action::Respond(acknowledge()),
        }
    }

    /// Takes the reply to the request that was handed out last.
    pub fn record(&mut self, reply: TransportReply)
        ensures
            final(self)@ == recorded(old(self)@, reply@),
    {
        if self.intake.is_ok() && self.outcomes.len() < self.recipients.len() {
            let ghost before = self.outcomes.deep_view();
            let outcome = delivery_outcome(reply);
            self.outcomes.push(outcome);
            assert(self.outcomes.deep_view() =~= before.push(outcome@));
        }
    }

    /// The comment event with its mentions, if the webhook gave one.
    pub fn commented_issue(&self) -> (commented_issue: Option<&CommentedIssue>)
        ensures
            match commented_issue {
                Some(commented_issue) => self@.intake == Ok::<
                    CommentedIssueView,
                    WebhookErrorView,
                >(commented_issue@),
                None => self@.intake is Err,
            },
    {
        match &self.intake {
            Ok(commented_issue) => Some(commented_issue),
            Err(_) => None,
        }
    }

    /// Why the webhook leads to no notification, if it does not.
    pub fn rejection(&self) -> (error: Option<&WebhookError>)
        ensures
            match error {
                Some(error) => self@.intake == Err::<CommentedIssueView, WebhookErrorView>(error@),
                None => self@.intake is Ok,
            },
    {
        match &self.intake {
            Ok(_) => None,
            Err(error) => Some(error),
        }
    }

    /// Who is to be told, in order.
    pub fn recipients(&self) -> (recipients: &Vec<String>)
        ensures
            recipients.deep_view() == self@.recipients,
    {
        &self.recipients
    }

    /// What came of the deliveries made so far, in the recipients' order.
    pub fn outcomes(&self) -> (outcomes: &Vec<DeliveryOutcome>)
        ensures
            outcomes.deep_view() == self@.outcomes,
    {
        &self.outcomes
    }
}

/// Makes the answer to the tracker.
pub fn acknowledge() -> (response: WebhookResponse)
    ensures
        response@ == acknowledgement(),
{
    WebhookResponse {
        status: 200,
        content_type: String::from_str("text/html"),
        body: String::new(),
    }
}

} // verus!

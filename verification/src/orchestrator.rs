//! The relay orchestrator: the per-message workflow
//! `Received -> Classified -> {Rejected | Routed} -> Translated -> Posted -> Recorded`.
//!
//! The outside world drives the workflow — it delivers the message event,
//! performs the translation call and sends the outgoing post — while every
//! decision between those steps is made here:
//!
//! * [`classify_and_route`] takes an inbound event from `Received` to
//!   `Rejected` or `Routed`;
//! * [`record_original`] writes the original message's relay record, always,
//!   before anything is posted, so that later replies resolve even if the
//!   post fails;
//! * [`plan_post`] decides after the translation whether anything is posted
//!   at all, and composes the outgoing content and reply anchor;
//! * [`record_posted`] writes the reverse pointer under the freshly posted
//!   message's id once the send succeeded.
//!
//! A failure of the translation or of the send ends the workflow; records
//! already written are deliberately not rolled back.

use vstd::prelude::*;
use vstd::string::StringExecFns;

use crate::classifier::{
    is_bot_message, is_monitored_channel, resolve_source_language, spec_is_monitored_channel,
    spec_source_language,
};
use crate::config::{AppConfig, ConfigView};
use crate::reply::{spec_reply_context, ReferencedMessage, ReplyContext};
use crate::routing::{decide_route, spec_decide_route, spec_record_of, PendingRoute, RouteView};
use crate::store::{spec_put_if_absent, RecordView, RelayRecord, RelayStore};
use crate::translation::{spec_select_translation, Translation, TranslationView};

verus! {

/// One inbound chat message, reduced to what the relay reads of it.
pub struct MessageEvent {
    /// Platform-assigned id of the message; real ids are never `0`.
    pub id: u64,
    /// Channel the message was posted in.
    pub channel_id: u64,
    /// Author of the message.
    pub author_id: u64,
    /// Display name the outgoing post attributes the content to.
    pub author_display_name: String,
    /// The message's textual content.
    pub content: String,
    /// The message this one replies to, if any.
    pub referenced_message: Option<ReferencedMessage>,
}

impl MessageEvent {
    /// Platform ids are unique and never the reserved sentinel `0`.
    pub open spec fn wf(&self) -> bool {
        &&& self.id != 0
        &&& match self.referenced_message {
            Some(m) => m.id != 0,
            None => true,
        }
    }
}

/// Mathematical view of a [`RelayPlan`].
pub ghost struct PlanView {
    pub route: RouteView,
    pub original_record: RecordView,
    pub anchor_reply: bool,
}

/// Everything the rest of one message's workflow needs once the message is
/// classified and routed: the outgoing route, the relay record of the
/// original message, and whether the outgoing post is anchored as a threaded
/// reply (which it is exactly when the inbound message replied to a
/// bot-authored message).
pub struct RelayPlan {
    pub route: PendingRoute,
    pub original_record: RelayRecord,
    pub anchor_reply: bool,
}

impl View for RelayPlan {
    type V = PlanView;

    open spec fn view(&self) -> PlanView {
        PlanView {
            route: self.route@,
            original_record: self.original_record@,
            anchor_reply: self.anchor_reply,
        }
    }
}

/// The classification and routing decision for one inbound message:
/// rejected (`None`) when the message is bot-authored, posted in an
/// unmonitored channel, or a standalone aggregate-channel post; otherwise
/// the plan of the rest of the workflow.
pub open spec fn spec_classify_and_route(
    cfg: ConfigView,
    channel_id: u64,
    author_id: u64,
    msg_id: u64,
    reply: ReplyContext,
    referenced_record: Option<RecordView>,
) -> Option<PlanView> {
    if author_id == cfg.bot_user_id {
        None
    } else if !spec_is_monitored_channel(cfg, channel_id) {
        None
    } else {
        match spec_decide_route(cfg, channel_id, msg_id, reply, referenced_record) {
            Some(route) => Some(
                PlanView {
                    route,
                    original_record: RecordView {
                        channel_id,
                        message_id: msg_id,
                        language: spec_source_language(cfg, channel_id)->Some_0,
                    },
                    anchor_reply: reply.referenced_message_present
                        && reply.referenced_author_id == cfg.bot_user_id,
                },
            ),
            None => None,
        }
    }
}

/// `Received -> Classified -> {Rejected | Routed}`: rejects bot-authored
/// messages, messages in unmonitored channels and standalone
/// aggregate-channel posts, and computes the route and the original
/// message's relay record for everything else.
///
/// `reply` must be the message's resolved reply context and
/// `referenced_record` the store's answer to looking up
/// `reply.referenced_message_id`; the sentinel "no reply" id is never a
/// store key, so a non-reply comes with no record.
pub fn classify_and_route(
    cfg: &AppConfig,
    msg: &MessageEvent,
    reply: &ReplyContext,
    referenced_record: Option<&RelayRecord>,
) -> (r: Option<RelayPlan>)
    requires
        msg.wf(),
        *reply == spec_reply_context(msg.referenced_message),
        !reply.referenced_message_present ==> referenced_record is None,
    ensures
        match r {
            Some(plan) => spec_classify_and_route(
                cfg@,
                msg.channel_id,
                msg.author_id,
                msg.id,
                *reply,
                spec_record_of(referenced_record),
            ) == Some(plan@),
            None => spec_classify_and_route(
                cfg@,
                msg.channel_id,
                msg.author_id,
                msg.id,
                *reply,
                spec_record_of(referenced_record),
            ) is None,
        },
{
    if is_bot_message(cfg.bot_user_id, msg.author_id) {
        return None;
    }
    if !is_monitored_channel(cfg, msg.channel_id) {
        return None;
    }
    let route = match decide_route(cfg, msg.channel_id, msg.id, reply, referenced_record) {
        Some(route) => route,
        None => {
            return None;
        },
    };
    let language = match resolve_source_language(cfg, msg.channel_id) {
        Some(language) => language,
        None => vstd::pervasive::unreached(),
    };
    let anchor_reply = reply.referenced_message_present && is_bot_message(
        cfg.bot_user_id,
        reply.referenced_author_id,
    );
    Some(
        RelayPlan {
            route,
            original_record: RelayRecord {
                channel_id: msg.channel_id,
                message_id: msg.id,
                language,
            },
            anchor_reply,
        },
    )
}

/// Writes the original message's relay record — always, even when the
/// translation later turns out to be a no-op, and before anything is posted,
/// so that replies to the original resolve correctly even if posting fails.
/// A record already present under that id stays untouched.
pub fn record_original(store: &mut RelayStore, plan: &RelayPlan)
    ensures
        final(store)@ == spec_put_if_absent(
            old(store)@,
            plan.original_record.message_id,
            plan.original_record@,
        ),
{
    let record = plan.original_record.clone();
    store.put_if_absent(record.message_id, record);
}

/// Mathematical view of a [`PostRequest`].
pub ghost struct PostRequestView {
    pub channel_id: u64,
    pub content: Seq<char>,
    pub reply_to_message_id: Option<u64>,
}

/// One outgoing post, ready for the chat platform: the channel to send to,
/// the attributed content, and the message to attach the post to as a
/// threaded reply, if any.
pub struct PostRequest {
    pub channel_id: u64,
    pub content: String,
    pub reply_to_message_id: Option<u64>,
}

impl View for PostRequest {
    type V = PostRequestView;

    open spec fn view(&self) -> PostRequestView {
        PostRequestView {
            channel_id: self.channel_id,
            content: self.content@,
            reply_to_message_id: self.reply_to_message_id,
        }
    }
}

/// The outgoing content: the translated text, annotated with the sender's
/// display name.
pub open spec fn spec_compose_post(text: Seq<char>, display_name: Seq<char>) -> Seq<char> {
    text + " (from: "@ + display_name + ")"@
}

/// The posting decision after the translation came back: nothing is posted
/// when the translated text is empty (the provider's no-op signal) or equal
/// to the original content; otherwise the annotated text goes to the route's
/// target channel, anchored as a threaded reply only when the plan asks for
/// one.
pub open spec fn spec_plan_post(
    plan: PlanView,
    original_content: Seq<char>,
    translation: TranslationView,
    display_name: Seq<char>,
) -> Option<PostRequestView> {
    if translation.text.len() == 0 || translation.text == original_content {
        None
    } else {
        Some(
            PostRequestView {
                channel_id: plan.route.target_channel_id,
                content: spec_compose_post(translation.text, display_name),
                reply_to_message_id: if plan.anchor_reply {
                    plan.route.target_reply_to_message_id
                } else {
                    None
                },
            },
        )
    }
}

/// `Translated -> Posted`: decides whether the translation is posted at all,
/// and builds the outgoing post.  Returns `None` — nothing to post — when
/// the translated text is empty or merely repeats the original content.
pub fn plan_post(
    plan: &RelayPlan,
    original_content: &String,
    translation: &Translation,
    display_name: &String,
) -> (r: Option<PostRequest>)
    ensures
        match r {
            Some(post) => spec_plan_post(plan@, original_content@, translation@, display_name@)
                == Some(post@),
            None => spec_plan_post(plan@, original_content@, translation@, display_name@) is None,
        },
{
    if translation.text.as_str().is_empty() || translation.text == *original_content {
        return None;
    }
    let mut content = translation.text.clone();
    content.append(" (from: ");
    content.append(display_name.as_str());
    content.append(")");
    proof {
        assert(content@ =~= spec_compose_post(translation.text@, display_name@));
    }
    Some(
        PostRequest {
            channel_id: plan.route.target_channel_id,
            content,
            reply_to_message_id: if plan.anchor_reply {
                plan.route.target_reply_to_message_id
            } else {
                None
            },
        },
    )
}

/// `Posted -> Recorded`: once the outgoing post succeeded, writes the
/// reverse pointer — the posted message's id mapped to the original
/// message's channel and id and to the language the provider detected — so
/// that a reply to the translation routes home.
pub fn record_posted(
    store: &mut RelayStore,
    plan: &RelayPlan,
    posted_message_id: u64,
    detected_source_language: &String,
)
    requires
        posted_message_id != 0,
    ensures
        final(store)@ == spec_put_if_absent(
            old(store)@,
            posted_message_id,
            RecordView {
                channel_id: plan.original_record.channel_id,
                message_id: plan.original_record.message_id,
                language: detected_source_language@,
            },
        ),
{
    store.put_if_absent(
        posted_message_id,
        RelayRecord {
            channel_id: plan.original_record.channel_id,
            message_id: plan.original_record.message_id,
            language: detected_source_language.clone(),
        },
    );
}

/// A message posted directly in the aggregate channel that replies to
/// nothing is never relayed: it yields no plan — and hence no route and no
/// post — whatever the author, the store's answer and the configuration.
pub proof fn lemma_standalone_aggregate_rejected(
    cfg: ConfigView,
    author_id: u64,
    msg_id: u64,
    reply: ReplyContext,
    referenced_record: Option<RecordView>,
)
    requires
        !reply.referenced_message_present,
    ensures
        spec_classify_and_route(
            cfg,
            cfg.aggregate_channel_id,
            author_id,
            msg_id,
            reply,
            referenced_record,
        ) is None,
{
}

/// When the provider detects that the content already is in the target
/// language, the selected translation is the empty no-op text, so nothing is
/// posted — yet the original message's record is still written, and is
/// present afterwards.
pub proof fn lemma_no_post_when_in_target_language(
    plan: PlanView,
    original_content: Seq<char>,
    first: TranslationView,
    display_name: Seq<char>,
    store: Map<u64, RecordView>,
)
    requires
        first.detected_source_language == plan.route.target_language,
    ensures
        spec_plan_post(
            plan,
            original_content,
            spec_select_translation(first, plan.route.target_language),
            display_name,
        ) is None,
        spec_put_if_absent(store, plan.original_record.message_id, plan.original_record)
            .contains_key(plan.original_record.message_id),
{
}

/// The round trip: a fresh message in a source channel is routed into the
/// aggregate channel in the default language; after the workflow records the
/// original message and the posted translation, the store holds both the
/// original record and the reverse pointer; and a reply to the posted
/// translation routes home — back to the source channel, in the language the
/// provider detected, anchored to the original message.
pub proof fn lemma_round_trip(
    cfg: ConfigView,
    source_channel: u64,
    author_id: u64,
    msg_id: u64,
    store0: Map<u64, RecordView>,
    detected: Seq<char>,
    posted_id: u64,
    reply_channel: u64,
    reply_msg_id: u64,
    reply: ReplyContext,
)
    requires
        cfg.source_languages.contains_key(source_channel),
        source_channel != cfg.aggregate_channel_id,
        author_id != cfg.bot_user_id,
        !store0.contains_key(msg_id),
        !store0.contains_key(posted_id),
        posted_id != msg_id,
        reply.referenced_message_present,
        reply.referenced_message_id == posted_id,
        reply.referenced_author_id == cfg.bot_user_id,
    ensures
        spec_classify_and_route(
            cfg,
            source_channel,
            author_id,
            msg_id,
            ReplyContext::spec_no_reply(),
            None,
        ) == Some(
            PlanView {
                route: RouteView {
                    target_channel_id: cfg.aggregate_channel_id,
                    target_language: cfg.default_language,
                    target_reply_to_message_id: Some(msg_id),
                },
                original_record: RecordView {
                    channel_id: source_channel,
                    message_id: msg_id,
                    language: cfg.source_languages[source_channel],
                },
                anchor_reply: false,
            },
        ),
        ({
            let original = RecordView {
                channel_id: source_channel,
                message_id: msg_id,
                language: cfg.source_languages[source_channel],
            };
            let reverse = RecordView {
                channel_id: source_channel,
                message_id: msg_id,
                language: detected,
            };
            let store2 = spec_put_if_absent(
                spec_put_if_absent(store0, msg_id, original),
                posted_id,
                reverse,
            );
            &&& store2.contains_key(msg_id) && store2[msg_id] == original
            &&& store2.contains_key(posted_id) && store2[posted_id] == reverse
            &&& spec_decide_route(cfg, reply_channel, reply_msg_id, reply, Some(store2[posted_id]))
                == Some(
                RouteView {
                    target_channel_id: source_channel,
                    target_language: detected,
                    target_reply_to_message_id: Some(msg_id),
                },
            )
        }),
{
}

} // verus!

//! The routing decision engine: a deterministic, pure function from the
//! inbound message, its reply context, the configuration and the relay-record
//! lookup to the outgoing route, or to an explicit rejection.
//!
//! The decision is an ordered chain of override rules, later rules winning:
//!
//! 1. by default, relay into the aggregate channel in the default language,
//!    anchored to the current message;
//! 2. reject a message in the aggregate channel that replies to nothing;
//! 3. a reply to a recorded message routes back to that record's channel and
//!    language, anchored to that record's message — this is what reverses
//!    the translation direction;
//! 4. a reply to an ordinary (non-bot) message in a source channel starts a
//!    fresh top-level aggregate post instead of chaining.

use vstd::prelude::*;

use crate::config::{AppConfig, ConfigView};
use crate::reply::ReplyContext;
use crate::store::{RecordView, RelayRecord};

verus! {

/// Mathematical view of a [`PendingRoute`].
pub ghost struct RouteView {
    pub target_channel_id: u64,
    pub target_language: Seq<char>,
    pub target_reply_to_message_id: Option<u64>,
}

/// The computed destination of one outgoing translated post: where to send
/// it, which language to translate into, and which message (if any) to
/// attach it to as a threaded reply.  Computed fresh per inbound message and
/// discarded once the workflow completes.
pub struct PendingRoute {
    pub target_channel_id: u64,
    pub target_language: String,
    pub target_reply_to_message_id: Option<u64>,
}

impl View for PendingRoute {
    type V = RouteView;

    open spec fn view(&self) -> RouteView {
        RouteView {
            target_channel_id: self.target_channel_id,
            target_language: self.target_language@,
            target_reply_to_message_id: self.target_reply_to_message_id,
        }
    }
}

/// Rule 2: standalone posts in the aggregate channel are never relayed.
pub open spec fn spec_standalone_aggregate(
    cfg: ConfigView,
    msg_channel_id: u64,
    reply: ReplyContext,
) -> bool {
    msg_channel_id == cfg.aggregate_channel_id && !reply.referenced_message_present
}

/// Rule 4: a reply, in a source channel, to a message the bot did not write
/// starts a fresh top-level post in the aggregate channel.
pub open spec fn spec_fresh_aggregate_reply(
    cfg: ConfigView,
    msg_channel_id: u64,
    reply: ReplyContext,
) -> bool {
    &&& reply.referenced_message_present
    &&& reply.referenced_author_id != cfg.bot_user_id
    &&& msg_channel_id != cfg.aggregate_channel_id
}

/// The routing decision: `None` is an explicit rejection, `Some` the route of
/// the outgoing post.  `referenced_record` is the store's answer to looking
/// up `reply.referenced_message_id`.
pub open spec fn spec_decide_route(
    cfg: ConfigView,
    msg_channel_id: u64,
    msg_id: u64,
    reply: ReplyContext,
    referenced_record: Option<RecordView>,
) -> Option<RouteView> {
    // Rule 1: the default route.
    let route = RouteView {
        target_channel_id: cfg.aggregate_channel_id,
        target_language: cfg.default_language,
        target_reply_to_message_id: Some(msg_id),
    };
    // Rule 3: a reply to a recorded message reverses the translation
    // direction, back to the record's channel, language and message.
    let route = match referenced_record {
        Some(record) => RouteView {
            target_channel_id: record.channel_id,
            target_language: record.language,
            target_reply_to_message_id: Some(record.message_id),
        },
        None => route,
    };
    // Rule 4: a reply to an ordinary message in a source channel becomes a
    // fresh, unanchored aggregate post.
    let route = if spec_fresh_aggregate_reply(cfg, msg_channel_id, reply) {
        RouteView {
            target_channel_id: cfg.aggregate_channel_id,
            target_language: cfg.default_language,
            target_reply_to_message_id: None,
        }
    } else {
        route
    };
    // Rule 2: reject standalone aggregate-channel posts.
    if spec_standalone_aggregate(cfg, msg_channel_id, reply) {
        None
    } else {
        Some(route)
    }
}

/// The record view carried by an optional lookup answer.
pub open spec fn spec_record_of(r: Option<&RelayRecord>) -> Option<RecordView> {
    match r {
        Some(record) => Some(record@),
        None => None,
    }
}

/// Computes the route of the outgoing translated post, or `None` when the
/// message is rejected.  `referenced_record` must be the store's answer to
/// looking up `reply.referenced_message_id`.
pub fn decide_route(
    cfg: &AppConfig,
    msg_channel_id: u64,
    msg_id: u64,
    reply: &ReplyContext,
    referenced_record: Option<&RelayRecord>,
) -> (r: Option<PendingRoute>)
    ensures
        match r {
            Some(route) => spec_decide_route(
                cfg@,
                msg_channel_id,
                msg_id,
                *reply,
                spec_record_of(referenced_record),
            ) == Some(route@),
            None => spec_decide_route(
                cfg@,
                msg_channel_id,
                msg_id,
                *reply,
                spec_record_of(referenced_record),
            ) is None,
        },
{
    if msg_channel_id == cfg.aggregate_channel_id && !reply.referenced_message_present {
        return None;
    }
    if reply.referenced_message_present && reply.referenced_author_id != cfg.bot_user_id
        && msg_channel_id != cfg.aggregate_channel_id {
        return Some(
            PendingRoute {
                target_channel_id: cfg.aggregate_channel_id,
                target_language: cfg.default_language.clone(),
                target_reply_to_message_id: None,
            },
        );
    }
    match referenced_record {
        Some(record) => Some(
            PendingRoute {
                target_channel_id: record.channel_id,
                target_language: record.language.clone(),
                target_reply_to_message_id: Some(record.message_id),
            },
        ),
        None => Some(
            PendingRoute {
                target_channel_id: cfg.aggregate_channel_id,
                target_language: cfg.default_language.clone(),
                target_reply_to_message_id: Some(msg_id),
            },
        ),
    }
}

/// Determinism of the routing decision: identical inputs — message, reply
/// context, configuration and store answer — always yield the identical
/// route or rejection.
pub proof fn lemma_routing_deterministic(
    cfg1: ConfigView,
    channel1: u64,
    id1: u64,
    reply1: ReplyContext,
    record1: Option<RecordView>,
    cfg2: ConfigView,
    channel2: u64,
    id2: u64,
    reply2: ReplyContext,
    record2: Option<RecordView>,
)
    requires
        cfg1 == cfg2,
        channel1 == channel2,
        id1 == id2,
        reply1 == reply2,
        record1 == record2,
    ensures
        spec_decide_route(cfg1, channel1, id1, reply1, record1) == spec_decide_route(
            cfg2,
            channel2,
            id2,
            reply2,
            record2,
        ),
{
}

} // verus!

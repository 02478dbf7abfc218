//! Channel classification: which messages the relay cares about, and which
//! language a monitored channel is expected to carry.

use vstd::prelude::*;

use crate::config::{AppConfig, ConfigView};

verus! {

/// A channel is monitored when it is the aggregate channel or one of the
/// configured source channels.
pub open spec fn spec_is_monitored_channel(cfg: ConfigView, channel_id: u64) -> bool {
    channel_id == cfg.aggregate_channel_id || cfg.source_languages.contains_key(channel_id)
}

/// The language associated with a channel: the configured source language if
/// the channel is a source channel, the default language if it is the
/// aggregate channel, and nothing for an unmonitored channel.
pub open spec fn spec_source_language(cfg: ConfigView, channel_id: u64) -> Option<Seq<char>> {
    if cfg.source_languages.contains_key(channel_id) {
        Some(cfg.source_languages[channel_id])
    } else if channel_id == cfg.aggregate_channel_id {
        Some(cfg.default_language)
    } else {
        None
    }
}

/// A channel has an associated language exactly when it is monitored.
pub proof fn lemma_monitored_iff_language(cfg: ConfigView, channel_id: u64)
    ensures
        spec_is_monitored_channel(cfg, channel_id) <==> spec_source_language(
            cfg,
            channel_id,
        ) is Some,
{
}

/// True iff the message was authored by the bot itself; such messages are
/// never relayed.
pub fn is_bot_message(bot_id: u64, message_author_id: u64) -> (r: bool)
    ensures
        r == (bot_id == message_author_id),
{
    bot_id == message_author_id
}

/// True iff `msg_channel_id` is a channel the relay watches: the aggregate
/// channel or a configured source channel.
pub fn is_monitored_channel(cfg: &AppConfig, msg_channel_id: u64) -> (r: bool)
    ensures
        r == spec_is_monitored_channel(cfg@, msg_channel_id),
{
    msg_channel_id == cfg.aggregate_channel_id || cfg.source_channel_language.contains_key(
        &msg_channel_id,
    )
}

/// The expected language of `channel_id`, or `None` when the channel is
/// unmonitored.
pub fn resolve_source_language(cfg: &AppConfig, channel_id: u64) -> (r: Option<String>)
    ensures
        match r {
            Some(lang) => spec_source_language(cfg@, channel_id) == Some(lang@),
            None => spec_source_language(cfg@, channel_id) is None,
        },
{
    match cfg.source_channel_language.get(&channel_id) {
        Some(lang) => Some(lang.clone()),
        None => {
            if channel_id == cfg.aggregate_channel_id {
                Some(cfg.default_language.clone())
            } else {
                None
            }
        },
    }
}

} // verus!

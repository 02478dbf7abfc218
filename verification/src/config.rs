//! Relay configuration: the bot's own user id, the aggregate channel, and the
//! map from each monitored source channel to the language it is expected to
//! carry.  The configuration is loaded once at startup and read-only
//! afterwards.

use std::collections::HashMap;
use vstd::prelude::*;

verus! {

/// Mathematical view of [`AppConfig`]: languages are sequences of characters
/// and the source-channel table is a map from channel id to language.
pub ghost struct ConfigView {
    pub bot_user_id: u64,
    pub aggregate_channel_id: u64,
    pub source_languages: Map<u64, Seq<char>>,
    pub default_language: Seq<char>,
}

/// Read-only relay configuration.
///
/// `source_channel_language` maps each monitored source channel to the
/// language code its messages are expected to be written in; messages from
/// any other channel except `aggregate_channel_id` are ignored.
pub struct AppConfig {
    /// User id of the bot itself; its own messages are never relayed.
    pub bot_user_id: u64,
    /// The single channel that receives translated relays of all source
    /// channels.
    pub aggregate_channel_id: u64,
    /// Expected language of each monitored source channel.
    pub source_channel_language: HashMap<u64, String>,
    /// Language that aggregate-channel posts are written in, and hence the
    /// target language of every relay into the aggregate channel.
    pub default_language: String,
}

impl View for AppConfig {
    type V = ConfigView;

    open spec fn view(&self) -> ConfigView {
        ConfigView {
            bot_user_id: self.bot_user_id,
            aggregate_channel_id: self.aggregate_channel_id,
            source_languages: Map::new(
                |c: u64| self.source_channel_language@.contains_key(c),
                |c: u64| self.source_channel_language@[c]@,
            ),
            default_language: self.default_language@,
        }
    }
}

} // verus!

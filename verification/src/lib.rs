//! A translation-relay routing engine for a chat bot.
//!
//! The bot watches a set of "source" channels, each expected to carry one
//! human language, and a single "aggregate" channel that collects translated
//! copies of their traffic.  For every inbound message the engine classifies
//! the message, resolves what it is replying to, decides the target channel,
//! target language and reply anchor of the outgoing translated post, and
//! maintains the in-memory relay records needed to reverse that decision when
//! somebody later replies to a translation.
//!
//! All network I/O (the chat platform and the translation provider) lives
//! outside this crate; the library works on plain values and is verified.

mod classifier;
mod config;
mod orchestrator;
mod reply;
mod routing;
mod store;
mod translation;

pub use classifier::is_bot_message;
pub use classifier::is_monitored_channel;
pub use classifier::resolve_source_language;
pub use classifier::lemma_monitored_iff_language;
pub use classifier::spec_is_monitored_channel;
pub use classifier::spec_source_language;
pub use config::AppConfig;
pub use config::ConfigView;
pub use orchestrator::classify_and_route;
pub use orchestrator::lemma_no_post_when_in_target_language;
pub use orchestrator::lemma_round_trip;
pub use orchestrator::lemma_standalone_aggregate_rejected;
pub use orchestrator::plan_post;
pub use orchestrator::record_original;
pub use orchestrator::record_posted;
pub use orchestrator::spec_classify_and_route;
pub use orchestrator::spec_compose_post;
pub use orchestrator::spec_plan_post;
pub use orchestrator::MessageEvent;
pub use orchestrator::PlanView;
pub use orchestrator::PostRequest;
pub use orchestrator::PostRequestView;
pub use orchestrator::RelayPlan;
pub use reply::get_replied_to_message;
pub use reply::spec_reply_context;
pub use reply::ReferencedMessage;
pub use reply::ReplyContext;
pub use routing::decide_route;
pub use routing::lemma_routing_deterministic;
pub use routing::spec_decide_route;
pub use routing::spec_fresh_aggregate_reply;
pub use routing::spec_record_of;
pub use routing::spec_standalone_aggregate;
pub use routing::PendingRoute;
pub use routing::RouteView;
pub use store::lemma_distinct_writes_commute;
pub use store::lemma_no_overwrite;
pub use store::spec_put_if_absent;
pub use store::RecordView;
pub use store::RelayRecord;
pub use store::RelayStore;
pub use translation::lemma_noop_when_already_in_target;
pub use translation::select_translation;
pub use translation::spec_select_translation;
pub use translation::Translation;
pub use translation::TranslationView;

use std::collections::HashMap;

use babelfish::{
    classify_and_route, decide_route, get_replied_to_message, is_bot_message,
    is_monitored_channel, plan_post, record_original, record_posted, resolve_source_language,
    select_translation, AppConfig, MessageEvent, ReferencedMessage, RelayRecord, RelayStore,
    Translation,
};

const BOT: u64 = 99;
const C1: u64 = 501; // source channel, French
const C2: u64 = 502; // aggregate channel
const ALICE: u64 = 7;

fn test_config() -> AppConfig {
    let mut source_channel_language: HashMap<u64, String> = HashMap::new();
    source_channel_language.insert(C1, "FR".to_string());
    AppConfig {
        bot_user_id: BOT,
        aggregate_channel_id: C2,
        source_channel_language,
        default_language: "EN-GB".to_string(),
    }
}

#[test]
fn bot_detection() {
    assert!(is_bot_message(BOT, BOT));
    assert!(!is_bot_message(BOT, ALICE));
}

#[test]
fn monitored_channels() {
    let cfg = test_config();
    assert!(is_monitored_channel(&cfg, C1));
    assert!(is_monitored_channel(&cfg, C2));
    assert!(!is_monitored_channel(&cfg, 777));
}

#[test]
fn source_language_resolution() {
    let cfg = test_config();
    assert_eq!(resolve_source_language(&cfg, C1), Some("FR".to_string()));
    assert_eq!(resolve_source_language(&cfg, C2), Some("EN-GB".to_string()));
    assert_eq!(resolve_source_language(&cfg, 777), None);
}

#[test]
fn reply_context_of_referenced_message() {
    let referenced = ReferencedMessage { id: 20, author_id: BOT };
    let ctx = get_replied_to_message(Some(&referenced));
    assert!(ctx.referenced_message_present);
    assert_eq!(ctx.referenced_message_id, 20);
    assert_eq!(ctx.referenced_author_id, BOT);
}

#[test]
fn reply_context_of_no_reference() {
    let ctx = get_replied_to_message(None);
    assert!(!ctx.referenced_message_present);
    assert_eq!(ctx.referenced_message_id, 0);
    assert_eq!(ctx.referenced_author_id, 0);
}

#[test]
fn store_get_unknown_is_none() {
    let store = RelayStore::new();
    assert!(store.get(10).is_none());
}

#[test]
fn store_first_writer_wins() {
    let mut store = RelayStore::new();
    let a = RelayRecord { channel_id: C1, message_id: 10, language: "FR".to_string() };
    let b = RelayRecord { channel_id: C2, message_id: 11, language: "DE".to_string() };
    store.put_if_absent(10, a);
    store.put_if_absent(10, b);
    let got = store.get(10).expect("record must be present");
    assert_eq!(got.channel_id, C1);
    assert_eq!(got.message_id, 10);
    assert_eq!(got.language, "FR");
}

#[test]
fn store_distinct_writes_do_not_interfere() {
    let r1 = RelayRecord { channel_id: C1, message_id: 10, language: "FR".to_string() };
    let r2 = RelayRecord { channel_id: C2, message_id: 11, language: "EN-GB".to_string() };

    let mut one = RelayStore::new();
    one.put_if_absent(10, r1.clone());
    one.put_if_absent(11, r2.clone());

    let mut other = RelayStore::new();
    other.put_if_absent(11, r2);
    other.put_if_absent(10, r1);

    for store in [&one, &other] {
        let got1 = store.get(10).expect("first record present");
        assert_eq!((got1.channel_id, got1.message_id, got1.language.as_str()), (C1, 10, "FR"));
        let got2 = store.get(11).expect("second record present");
        assert_eq!((got2.channel_id, got2.message_id, got2.language.as_str()), (C2, 11, "EN-GB"));
    }
}

#[test]
fn default_route_targets_aggregate() {
    let cfg = test_config();
    let ctx = get_replied_to_message(None);
    let route = decide_route(&cfg, C1, 10, &ctx, None).expect("route expected");
    assert_eq!(route.target_channel_id, C2);
    assert_eq!(route.target_language, "EN-GB");
    assert_eq!(route.target_reply_to_message_id, Some(10));
}

#[test]
fn standalone_aggregate_post_is_rejected() {
    let cfg = test_config();
    let ctx = get_replied_to_message(None);
    assert!(decide_route(&cfg, C2, 30, &ctx, None).is_none());
}

#[test]
fn reply_to_recorded_translation_routes_back() {
    let cfg = test_config();
    let record = RelayRecord { channel_id: C1, message_id: 10, language: "FR".to_string() };
    let referenced = ReferencedMessage { id: 20, author_id: BOT };
    let ctx = get_replied_to_message(Some(&referenced));
    let route = decide_route(&cfg, C2, 30, &ctx, Some(&record)).expect("route expected");
    assert_eq!(route.target_channel_id, C1);
    assert_eq!(route.target_language, "FR");
    assert_eq!(route.target_reply_to_message_id, Some(10));
}

#[test]
fn reply_to_ordinary_source_message_starts_fresh_aggregate_post() {
    let cfg = test_config();
    // Alice replies, in the source channel, to a message the bot did not
    // write; even if that message somehow had a relay record, the route is
    // a fresh, unanchored aggregate post.
    let record = RelayRecord { channel_id: C1, message_id: 10, language: "FR".to_string() };
    let referenced = ReferencedMessage { id: 10, author_id: ALICE };
    let ctx = get_replied_to_message(Some(&referenced));
    let route = decide_route(&cfg, C1, 40, &ctx, Some(&record)).expect("route expected");
    assert_eq!(route.target_channel_id, C2);
    assert_eq!(route.target_language, "EN-GB");
    assert_eq!(route.target_reply_to_message_id, None);
}

#[test]
fn first_candidate_translation_is_kept() {
    let translations = vec![
        Translation { text: "Hello".to_string(), detected_source_language: "FR".to_string() },
        Translation { text: "Hallo".to_string(), detected_source_language: "DE".to_string() },
    ];
    let chosen = select_translation(&translations, &"EN-GB".to_string());
    assert_eq!(chosen.text, "Hello");
    assert_eq!(chosen.detected_source_language, "FR");
}

#[test]
fn detected_target_language_yields_noop_translation() {
    let translations = vec![Translation {
        text: "Hello".to_string(),
        detected_source_language: "EN-GB".to_string(),
    }];
    let chosen = select_translation(&translations, &"EN-GB".to_string());
    assert_eq!(chosen.text, "");
    assert_eq!(chosen.detected_source_language, "EN-GB");
}

fn source_message(id: u64, content: &str) -> MessageEvent {
    MessageEvent {
        id,
        channel_id: C1,
        author_id: ALICE,
        author_display_name: "Alice".to_string(),
        content: content.to_string(),
        referenced_message: None,
    }
}

#[test]
fn bot_messages_are_rejected() {
    let cfg = test_config();
    let mut msg = source_message(10, "Bonjour");
    msg.author_id = BOT;
    let ctx = get_replied_to_message(None);
    assert!(classify_and_route(&cfg, &msg, &ctx, None).is_none());
}

#[test]
fn unmonitored_channels_are_rejected() {
    let cfg = test_config();
    let mut msg = source_message(10, "Bonjour");
    msg.channel_id = 777;
    let ctx = get_replied_to_message(None);
    assert!(classify_and_route(&cfg, &msg, &ctx, None).is_none());
}

#[test]
fn standalone_aggregate_message_yields_no_route_and_no_post() {
    let cfg = test_config();
    let mut msg = source_message(30, "hello everyone");
    msg.channel_id = C2;
    let ctx = get_replied_to_message(None);
    assert!(classify_and_route(&cfg, &msg, &ctx, None).is_none());
}

#[test]
fn noop_translation_posts_nothing_but_records_original() {
    let cfg = test_config();
    let mut store = RelayStore::new();
    let msg = source_message(10, "already english");
    let ctx = get_replied_to_message(None);
    let plan = classify_and_route(&cfg, &msg, &ctx, None).expect("plan expected");

    let translations = vec![Translation {
        text: "already english".to_string(),
        detected_source_language: "EN-GB".to_string(),
    }];
    let chosen = select_translation(&translations, &plan.route.target_language);
    record_original(&mut store, &plan);

    assert!(plan_post(&plan, &msg.content, &chosen, &msg.author_display_name).is_none());
    let rec = store.get(10).expect("original record still written");
    assert_eq!((rec.channel_id, rec.message_id, rec.language.as_str()), (C1, 10, "FR"));
}

#[test]
fn translation_equal_to_original_posts_nothing() {
    let cfg = test_config();
    let msg = source_message(10, "ok");
    let ctx = get_replied_to_message(None);
    let plan = classify_and_route(&cfg, &msg, &ctx, None).expect("plan expected");
    let t = Translation { text: "ok".to_string(), detected_source_language: "FR".to_string() };
    assert!(plan_post(&plan, &msg.content, &t, &msg.author_display_name).is_none());
}

#[test]
fn round_trip() {
    let cfg = test_config();
    let mut store = RelayStore::new();

    // Message 10, "Bonjour", posted by Alice in the French source channel.
    let msg = source_message(10, "Bonjour");
    let ctx = get_replied_to_message(None);
    let plan = classify_and_route(&cfg, &msg, &ctx, None).expect("plan expected");
    assert_eq!(plan.route.target_channel_id, C2);
    assert_eq!(plan.route.target_language, "EN-GB");
    assert_eq!(plan.route.target_reply_to_message_id, Some(10));
    assert!(!plan.anchor_reply);

    // The provider translates it to "Hello", detecting French.
    let translations = vec![Translation {
        text: "Hello".to_string(),
        detected_source_language: "FR".to_string(),
    }];
    let chosen = select_translation(&translations, &plan.route.target_language);

    record_original(&mut store, &plan);
    let post = plan_post(&plan, &msg.content, &chosen, &msg.author_display_name)
        .expect("post expected");
    assert_eq!(post.channel_id, C2);
    assert_eq!(post.content, "Hello (from: Alice)");
    assert_eq!(post.reply_to_message_id, None);

    // The platform assigns id 20 to the posted translation.
    record_posted(&mut store, &plan, 20, &chosen.detected_source_language);

    let original = store.get(10).expect("original record present");
    assert_eq!(
        (original.channel_id, original.message_id, original.language.as_str()),
        (C1, 10, "FR")
    );
    let reverse = store.get(20).expect("reverse pointer present");
    assert_eq!(
        (reverse.channel_id, reverse.message_id, reverse.language.as_str()),
        (C1, 10, "FR")
    );

    // Bob replies "Hi back" to the posted translation in the aggregate
    // channel: the route points home, anchored to the original message.
    let referenced = ReferencedMessage { id: 20, author_id: BOT };
    let reply_ctx = get_replied_to_message(Some(&referenced));
    let reply = MessageEvent {
        id: 30,
        channel_id: C2,
        author_id: 8,
        author_display_name: "Bob".to_string(),
        content: "Hi back".to_string(),
        referenced_message: Some(referenced),
    };
    let looked_up = store.get(reply_ctx.referenced_message_id).map(|r| r.clone());
    let reply_plan = classify_and_route(&cfg, &reply, &reply_ctx, looked_up.as_ref())
        .expect("reply plan expected");
    assert_eq!(reply_plan.route.target_channel_id, C1);
    assert_eq!(reply_plan.route.target_language, "FR");
    assert_eq!(reply_plan.route.target_reply_to_message_id, Some(10));

    // The reply went to a bot-authored message, so the outgoing post is
    // anchored as a threaded reply to the original message.
    assert!(reply_plan.anchor_reply);
    let back = Translation { text: "Re-bonjour".to_string(), detected_source_language: "EN-GB".to_string() };
    let reply_post = plan_post(&reply_plan, &reply.content, &back, &reply.author_display_name)
        .expect("reply post expected");
    assert_eq!(reply_post.channel_id, C1);
    assert_eq!(reply_post.content, "Re-bonjour (from: Bob)");
    assert_eq!(reply_post.reply_to_message_id, Some(10));
}

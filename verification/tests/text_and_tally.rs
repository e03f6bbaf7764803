use starboard::config::Config;
use starboard::config::SyncConfig;
use starboard::model::ReactionGroup;
use starboard::tally::qualify;
use starboard::tally::REACTION_THRESHOLD;
use starboard::text::jump_url;
use starboard::text::u64_to_string;
use starboard::text::user_mention;
use starboard::text::channel_mention;

fn group(emoji: &str, count: u64) -> ReactionGroup {
    ReactionGroup { emoji: String::from(emoji), count }
}

#[test]
fn renders_small_and_large_numbers() {
    assert_eq!(u64_to_string(0), "0");
    assert_eq!(u64_to_string(7), "7");
    assert_eq!(u64_to_string(10), "10");
    assert_eq!(u64_to_string(1033546960067629077), "1033546960067629077");
    assert_eq!(u64_to_string(u64::MAX), "18446744073709551615");
}

#[test]
fn renders_mentions() {
    assert_eq!(user_mention(5), "<@5>");
    assert_eq!(channel_mention(400), "<#400>");
}

#[test]
fn jump_url_with_all_segments() {
    assert_eq!(
        jump_url(Some(1), 2, Some(3)),
        "https://discord.com/channels/1/2/3"
    );
}

#[test]
fn jump_url_without_guild() {
    assert_eq!(jump_url(None, 2, Some(3)), "https://discord.com/channels/2/3");
}

#[test]
fn jump_url_without_message() {
    assert_eq!(jump_url(Some(1), 2, None), "https://discord.com/channels/1/2");
}

#[test]
fn threshold_is_inclusive() {
    assert_eq!(REACTION_THRESHOLD, 2);
    let groups = vec![group("\u{2b50}", 2), group("\u{2b50}", 1)];
    let kept = qualify(&groups);
    assert_eq!(kept.len(), 1);
    assert_eq!(kept[0].emoji, "\u{2b50}");
    assert_eq!(kept[0].count, 2);
}

#[test]
fn unrecognized_identifiers_are_dropped() {
    let groups = vec![
        group("\u{1f40c}", 5),
        group("\u{1f600}", 50),
        group("1033546960067629077", 3),
        group("999", 3),
    ];
    let kept = qualify(&groups);
    assert_eq!(kept.len(), 2);
    assert_eq!(kept[0].emoji, "\u{1f40c}");
    assert_eq!(kept[1].emoji, "1033546960067629077");
}

#[test]
fn qualifying_keeps_input_order() {
    let groups = vec![
        group("1033546960067629077", 2),
        group("\u{2b50}", 9),
        group("\u{1f40c}", 2),
    ];
    let kept = qualify(&groups);
    let ids: Vec<&str> = kept.iter().map(|g| g.emoji.as_str()).collect();
    assert_eq!(ids, vec!["1033546960067629077", "\u{2b50}", "\u{1f40c}"]);
}

#[test]
fn empty_tally_qualifies_nothing() {
    let kept = qualify(&Vec::new());
    assert!(kept.is_empty());
}

#[test]
fn config_holds_redis_url() {
    let c = Config::new(Some(String::from("redis://localhost:6379")));
    assert_eq!(c.redis_url.as_deref(), Some("redis://localhost:6379"));
    let none = Config::new(None);
    assert!(none.redis_url.is_none());
}

#[test]
fn sync_config_holds_channel() {
    let c = SyncConfig::new(Some(42));
    assert_eq!(c.starboard_channel_id, Some(42));
}

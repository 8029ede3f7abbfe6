use optimus::config::{config_candidates, parse_launch_args, split_whitespace};
use optimus::decimal::{parse_u64, u64_to_decimal};
use optimus::mention::{push_channel_mention, push_user_mention};
use optimus::misc::vowel_gen;
use optimus::store::{merge_user_info, Database};
use optimus::text::{
    contains_str, prefix_string, replace_str, starts_with_str, trim_end_matches, trim_start_matches,
};

#[test]
fn vowel_gen_picks_an_before_vowels() {
    assert_eq!(vowel_gen("apple"), "An");
    assert_eq!(vowel_gen("Orange"), "An");
    assert_eq!(vowel_gen("banana"), "A");
    assert_eq!(vowel_gen(""), "A");
    assert_eq!(vowel_gen("éclair"), "A");
}

#[test]
fn decimal_rendering() {
    assert_eq!(u64_to_decimal(0), "0");
    assert_eq!(u64_to_decimal(1234), "1234");
    assert_eq!(u64_to_decimal(u64::MAX), "18446744073709551615");
}

#[test]
fn decimal_parsing_follows_from_str() {
    assert_eq!(parse_u64("42"), Some(42));
    assert_eq!(parse_u64("+7"), Some(7));
    assert_eq!(parse_u64("007"), Some(7));
    assert_eq!(parse_u64(""), None);
    assert_eq!(parse_u64("+"), None);
    assert_eq!(parse_u64("12a"), None);
    assert_eq!(parse_u64("-1"), None);
    assert_eq!(parse_u64("18446744073709551615"), Some(u64::MAX));
    assert_eq!(parse_u64("18446744073709551616"), None);
    assert_eq!("5".parse::<u64>().ok(), parse_u64("5"));
}

#[test]
fn parse_gives_back_what_was_rendered() {
    for n in [0u64, 9, 10, 99, 100, 465353539363930123, u64::MAX] {
        assert_eq!(parse_u64(&u64_to_decimal(n)), Some(n));
    }
}

#[test]
fn mentions() {
    let mut s = String::from("hi ");
    push_user_mention(&mut s, 42);
    assert_eq!(s, "hi <@42>");
    let mut c = String::new();
    push_channel_mention(&mut c, 7);
    assert_eq!(c, "<#7>");
}

#[test]
fn text_helpers_match_std() {
    assert!(contains_str("hello world", "o w"));
    assert!(!contains_str("hello", "world"));
    assert!(contains_str("abc", ""));
    assert!(starts_with_str("https://x", "https://"));
    assert_eq!(trim_start_matches("\"\"abc\"", "\""), "abc\"");
    assert_eq!(trim_end_matches("abc//", "/"), "abc");
    assert_eq!(replace_str("a\nb\nc", "\n", "; "), "a; b; c");
    assert_eq!(replace_str("aaa", "aa", "b"), "ba");
    assert_eq!(prefix_string("héllo", 2), "hé");
    assert_eq!(prefix_string("hi", 10), "hi");
}

#[test]
fn database_paths() {
    let db = Database::from("/srv/bot", "notes");
    assert_eq!(db.node_path(), "/srv/bot/db/notes");
    assert_eq!(db.key_path("todo"), "/srv/bot/db/notes/todo");
    assert_eq!(db.msg_path(12345), "/srv/bot/db/notes/12345");
}

#[test]
fn user_info_is_merged_once() {
    assert_eq!(merge_user_info(None, "alice#1"), "alice#1");
    assert_eq!(merge_user_info(Some("alice#1"), "alice#2"), "alice#1\nalice#2");
    assert_eq!(merge_user_info(Some("alice#1\nalice#2"), "alice#2"), "alice#1\nalice#2");
    let once = merge_user_info(Some("a"), "b");
    assert_eq!(merge_user_info(Some(&once), "b"), once);
}

#[test]
fn launch_line_settings() {
    let a = parse_launch_args("app_id=12 bot_token=abc github_token=ghp");
    assert_eq!(a.app_id, "12");
    assert_eq!(a.bot_token, "abc");
    assert_eq!(a.github_token, Some("ghp".to_string()));
    let b = parse_launch_args("  app_id=1 app_id=2 noise github_token=x github_token=y\n");
    assert_eq!(b.app_id, "2");
    assert_eq!(b.bot_token, "");
    assert_eq!(b.github_token, Some("x".to_string()));
    let c = parse_launch_args("bot_token=a=b");
    assert_eq!(c.bot_token, "a=b");
    assert_eq!(c.github_token, None);
}

#[test]
fn whitespace_split_matches_std() {
    let s = " a\tbc \u{3000}d\n";
    let got: Vec<String> = split_whitespace(s).into_iter().map(|t| t.into_iter().collect()).collect();
    let want: Vec<String> = s.split_whitespace().map(|t| t.to_string()).collect();
    assert_eq!(got, want);
}

#[test]
fn config_file_candidates() {
    let (a, b) = config_candidates("my.toml", "/opt/bot");
    assert_eq!(a, "my.toml");
    assert_eq!(b, "/opt/bot/BotConfig.toml");
    let (_, c) = config_candidates("x", "/opt/bot/");
    assert_eq!(c, "/opt/bot/BotConfig.toml");
}

#[test]
fn distinct_messages_get_distinct_files() {
    let db = Database::from("/srv", "msgcache");
    assert_ne!(db.msg_path(1), db.msg_path(10));
    assert_ne!(db.msg_path(12), db.msg_path(21));
}

use optimus::guild::{
    blacklist_penalty, arrival_text, blacklist_path, departure_text, invited_notice, is_blacklisted, lobby_text, pick_welcome_channel,
    to_ascii_uppercase, welcome_text,
};
use optimus::commands::bash_report;
use optimus::faq::{decode_content, new_page_content, ContentError};
use optimus::questions::{page_titles, search_url, suggestion_rows, LinkSet};
use optimus::search::remove_scheme_from_url;
use optimus::web::random_key;

#[test]
fn web_encodings() {
    assert_eq!(search_url("a b&c", "é"), "https://www.google.com/search?q=site:a%20b%26c %C3%A9");
    assert_eq!(search_url("A-z_0.~", ""), "https://www.google.com/search?q=site:A-z_0.~ ");
    assert!(bash_report("x y", "", "").description.ends_with("cmd=x%20y)"));
    assert_eq!(new_page_content("", "").unwrap(), "CgojIyBGQVFzCgo=");
    assert_eq!(decode_content("aGk=").ok().unwrap(), "hi");
    assert_eq!(decode_content("!!").err(), Some(ContentError::Base64));
    assert_eq!(decode_content("/w==").err(), Some(ContentError::Utf8));
    assert_eq!(page_titles("<title>a &amp; b &lt;</title>").unwrap(), vec!["a & b <".to_string()]);
}

#[test]
fn urls() {
    assert_eq!(remove_scheme_from_url("http://localhost:7700/x/").unwrap(), "localhost/x:7700");
    assert!(remove_scheme_from_url("not a url").is_err());
    let mut s = LinkSet::new();
    s.insert("t".to_string(), "https://a.io/p".to_string());
    s.insert("u".to_string(), "nope".to_string());
    let rows = suggestion_rows(&s, &vec!["k1".to_string(), "k2".to_string()]);
    assert_eq!(rows[0].len(), 1);
    assert_eq!(rows[0][0].custom_id, "https://a.io/p?k1");
    let k = random_key();
    assert_eq!(k.chars().count(), 4);
    assert!(k.chars().all(|c| c.is_ascii_alphanumeric()));
}

#[test]
fn guild_texts() {
    assert_eq!(invited_notice("Rusty", 7), "I was invited to **Rusty** (`7`)");
    assert_eq!(welcome_text("Rusty"), "Optimus at your service to robotify **Rusty**!");
    assert_eq!(
        arrival_text("owl", "Ann", "Mon, May 1, 2023", "10:00:00 AM"),
        "> :arrow_forward: An _owl_  **Ann** came in (reg Date: **Mon, May 1, 2023**; Time: **10:00:00 AM**)"
    );
    assert!(lobby_text(5).starts_with("> <@5> welcome to our server"));
    assert_eq!(blacklist_path("/bin"), "/bin/db/blacklisted_names");
    assert_eq!(
        departure_text("ann#1", 9),
        "> :arrow_forward: **ann#1** (**9**) is no more <a:duckdance:835457840365568012>, sed lyf..."
    );
}

#[test]
fn welcome_channel_choice() {
    assert_eq!(pick_welcome_channel(Some(1), &[(2, Some(500))]), Some(1));
    assert_eq!(pick_welcome_channel(None, &[(2, Some(200)), (3, None), (4, Some(201)), (5, Some(900))]), Some(4));
    assert_eq!(pick_welcome_channel(None, &[(2, Some(10))]), None);
    assert_eq!(pick_welcome_channel(None, &[]), None);
}

#[test]
fn blacklist_uses_upper_case() {
    assert_eq!(to_ascii_uppercase("abc-Zé1"), "abc-Zé1".to_ascii_uppercase());
    assert!(is_blacklisted("SPAMMER\nBOT", "spammer"));
    assert!(!is_blacklisted("SPAMMER", "friend"));
    assert_eq!(blacklist_penalty(), ("Lacks a Brain", "Missing Brain.exe", 0));
}

use optimus::closing::{
    close_reply, closed_thread_name, plan_close, should_unarchive, thread_kind, thread_kind_by_name, CloseError,
    InteractionKind, ThreadKind,
};
use optimus::deleted::{
    attachment_urls, deleted_compare_form, deletion_reported, is_image, is_proxy_repost, last_compare_form,
    stack_report, uploaded_links, with_proxied_links,
};
use optimus::parser::{Parse, UserRef};
use optimus::reactions::{
    edit_is_recorded, edit_record, edited_view, editlog, deleted_view, reaction_action, replay_text,
    EditLogAction, ReactionAction,
};

#[test]
fn user_argument() {
    assert!(matches!(Parse::user("", 5), Some(UserRef::Id(5))));
    assert!(matches!(Parse::user("<@465353539363930123>", 5), Some(UserRef::Id(465353539363930123))));
    match Parse::user("John Doe!", 5) {
        Some(UserRef::ByName(n)) => assert_eq!(n, "JohnDoe"),
        _ => panic!("expected a name"),
    }
    assert!(Parse::user("99999999999999999999999", 5).is_none());
}

#[test]
fn closing_names_and_replies() {
    assert!(matches!(thread_kind(10, 10, 20), ThreadKind::Question));
    assert!(matches!(thread_kind(20, 10, 20), ThreadKind::Question));
    assert!(matches!(thread_kind(30, 10, 20), ThreadKind::Thread));
    assert!(matches!(thread_kind_by_name("❓ help"), ThreadKind::Question));
    assert!(matches!(thread_kind_by_name("chat"), ThreadKind::Thread));
    assert_eq!(closed_thread_name("❓ How to", ThreadKind::Question), "✅ How to");
    assert_eq!(closed_thread_name("How to", ThreadKind::Question), "✅ How to");
    assert_eq!(closed_thread_name("✅ done", ThreadKind::Question), "✅ done");
    assert_eq!(closed_thread_name("chat", ThreadKind::Thread), "chat");
    let once = closed_thread_name("❓ x", ThreadKind::Question);
    assert_eq!(closed_thread_name(&once, ThreadKind::Question), once);
    assert_eq!(close_reply(ThreadKind::Question, InteractionKind::ApplicationCommand, 1).unwrap(), "This question was closed");
    assert_eq!(close_reply(ThreadKind::Thread, InteractionKind::MessageComponent, 9).unwrap(), "This thread was closed by <@9>");
    assert!(close_reply(ThreadKind::Thread, InteractionKind::Other, 9).is_none());
}

#[test]
fn only_owner_or_admin_closes() {
    assert!(matches!(plan_close("q", None, InteractionKind::Other, Some(1), Some(1), false, 10, 20), Err(CloseError::NoParent)));
    assert!(matches!(plan_close("q", Some(10), InteractionKind::Other, None, Some(1), false, 10, 20), Err(CloseError::NoMember)));
    assert!(matches!(plan_close("q", Some(10), InteractionKind::Other, Some(1), None, false, 10, 20), Err(CloseError::NoOwner)));
    assert!(matches!(plan_close("q", Some(10), InteractionKind::Other, Some(2), Some(1), false, 10, 20), Ok(None)));
    let p = plan_close("❓ q", Some(10), InteractionKind::ApplicationCommand, Some(2), Some(1), true, 10, 20).unwrap().unwrap();
    assert_eq!(p.new_name, "✅ q");
    assert_eq!(p.reply.unwrap(), "This question was closed");
    let o = plan_close("t", Some(30), InteractionKind::MessageComponent, Some(1), Some(1), false, 10, 20).unwrap().unwrap();
    assert_eq!(o.new_name, "t");
    assert_eq!(o.reply.unwrap(), "This thread was closed by <@1>");
}

#[test]
fn archived_questions_reopen() {
    assert_eq!(should_unarchive(ThreadKind::Thread, true, false, false, ""), Ok(false));
    assert_eq!(should_unarchive(ThreadKind::Question, false, false, false, ""), Ok(false));
    assert_eq!(should_unarchive(ThreadKind::Question, true, false, false, "hi"), Ok(true));
    assert_eq!(should_unarchive(ThreadKind::Question, true, true, true, ""), Ok(false));
    assert_eq!(should_unarchive(ThreadKind::Question, true, true, false, "This question was closed by <@1>"), Ok(false));
    assert_eq!(should_unarchive(ThreadKind::Question, true, true, false, "Some other text"), Ok(true));
}

#[test]
fn reactions_decide() {
    assert!(matches!(reaction_action("📩", true, true, true, true, ""), ReactionAction::Ignore));
    assert!(matches!(reaction_action("📩", false, true, false, true, ""), ReactionAction::ReplayDeleted));
    assert!(matches!(reaction_action("📩", false, true, false, false, ""), ReactionAction::Ignore));
    assert!(matches!(reaction_action("🔃", false, true, true, false, "x `||` Edited: y"), ReactionAction::Retract { restore: '✍' }));
    assert!(matches!(reaction_action("🔃", false, true, true, false, "x"), ReactionAction::Retract { restore: '📩' }));
    assert!(matches!(reaction_action("❎", false, true, true, false, ""), ReactionAction::DeleteOwn));
    assert!(matches!(reaction_action("👍", false, true, true, true, ""), ReactionAction::Ignore));
}

#[test]
fn stored_records() {
    assert_eq!(replay_text("hi\n> ---MSG_TYPE--- a", 7), "hi\n> Triggered: <@7> `||` Deleted: a");
    let long = "x".repeat(2100);
    assert_eq!(replay_text(&long, 1).chars().count(), 2000);
    assert_eq!(edited_view("a ---MSG_TYPE--- b"), "a Edited: b");
    assert_eq!(deleted_view("a ---MSG_TYPE--- b"), "a Deleted: b");
    assert!(matches!(editlog(false, true), EditLogAction::NotAReply));
    assert!(matches!(editlog(true, false), EditLogAction::NotEdited));
    assert!(matches!(editlog(true, true), EditLogAction::Show));
    assert!(edit_is_recorded(true, false));
    assert!(!edit_is_recorded(true, true));
    assert!(!edit_is_recorded(false, false));
    let r = edit_record("new", "12:00", "old");
    assert_eq!(r, "new\n> Edited at: 12:00\nold");
    assert!(r.starts_with("new") && r.ends_with("old"));
}

#[test]
fn deleted_message_checks() {
    assert_eq!(last_compare_form("<:smile:123> hi 42").unwrap(), "smile hi ");
    assert_eq!(deleted_compare_form("<a:wave:9> yo\n> ---MSG_TYPE--- x").unwrap(), "wave yo");
    assert!(is_proxy_repost(true, false, "hello there", "hello"));
    assert!(!is_proxy_repost(true, true, "hello there", "hello"));
    assert!(!is_proxy_repost(false, false, "hello there", "hello"));
    assert_eq!(deletion_reported(true, "anything"), Some(false));
    assert!(is_image("https://x/y.png"));
    assert!(is_image("https://x/y.gif"));
    assert!(!is_image("https://x/y.txt"));
    assert!(!is_image("https://x/y"));
    assert_eq!(stack_report(None, "r"), "r");
    assert_eq!(stack_report(Some("e"), "r"), "e\nr");
    assert_eq!(with_proxied_links("c", &vec!["a".to_string(), "b".to_string()]), "c\n > `a`\n > `b`");
    assert_eq!(uploaded_links("{\"url\":\"https:\\/\\/x.io\\/a\"}").unwrap(), vec!["https://x.io/a".to_string()]);
    let _ = attachment_urls("no attachments");
}

#[test]
fn command_deletions_are_not_reported() {
    assert_eq!(deletion_reported(false, ".react 1"), Some(false));
    assert_eq!(deletion_reported(false, "dsay hi"), Some(false));
    assert_eq!(deletion_reported(false, ".delete 3"), Some(false));
    assert_eq!(deletion_reported(false, "hello"), Some(true));
}

#[test]
fn image_extensions_follow_path_rules() {
    for p in ["https://x/y.png", "https://x/y.tar.gif", "https://x/.png", "https://x/y.png/", "https://x/y.png/.", "a/..", "y.jpeg", "https://x/y.PNG", "https://x/y", "https://x/y.", "/"] {
        let ext = std::path::Path::new(p).extension().map(|e| e.to_string_lossy().to_string());
        let want = matches!(ext.as_deref(), Some("png" | "jpeg" | "jpg" | "webp" | "gif"));
        assert_eq!(is_image(p), want, "{p}");
    }
}

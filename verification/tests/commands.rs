use optimus::commands::{
    about, attachment_ref, bash_refusal, av, bash, bash_report, code_block_field, config_reply,
    editlog_refusal, exec_failure, exec_output, exec_reply, exec_request, exec_usage, invite,
    is_watch_setting, note_linked, note_list_cell, note_removed, note_written, status, status_summary,
    watch_setting_query, whois, Activity, BashAction, Note, BASH_OWNER,
};
use optimus::store::Database;

#[test]
fn only_the_owner_runs_shell_commands() {
    assert!(matches!(bash(1, "ls"), BashAction::Refuse));
    assert_eq!(bash_refusal(), "Not available for you");
    assert!(matches!(bash(BASH_OWNER, "kill -9 1"), BashAction::Skip));
    assert!(matches!(bash(BASH_OWNER, "ls -la"), BashAction::Run));
}

#[test]
fn shell_report() {
    let r = bash_report("ls\npwd", "out", "");
    assert_eq!(r.description, "[ls; pwd](https://explainshell.com/explain?cmd=ls%3B%20pwd)");
    assert_eq!(r.stdout_field, "```\nout```\n");
    assert_eq!(r.stderr_field, "```\n```\n");
    let long = "y".repeat(2000);
    assert_eq!(code_block_field(&long).chars().count(), 4 + 1016 + 4);
}

#[test]
fn code_requests() {
    let r = exec_request("```rust\nfn main() {}\n```").unwrap().unwrap();
    assert_eq!(r.0, "rust");
    assert_eq!(r.1, "\nfn main() {}\n");
    assert!(exec_request("no code").unwrap().is_none());
    assert_eq!(exec_output(&Some((1, "error".to_string())), "run"), "error");
    assert_eq!(exec_output(&Some((0, "warn".to_string())), "run"), "run");
    assert_eq!(exec_output(&None, "run"), "run");
    assert_eq!(exec_failure("boom"), "Error: Something went wrong: boom");
    assert_eq!(exec_reply("py", "hi"), Ok("```py\nhi```".to_string()));
    assert_eq!(exec_reply("py", ""), Err("Error: No output received"));
    assert!(exec_usage().starts_with("> Incorrect syntax"));
}

#[test]
fn whois_and_status() {
    let w = whois("apple", None, "Mon, May 1, 2023", "10:00:00", "old");
    assert_eq!(w.intro, "An [apple](https://www.dictionary.com/browse/apple)");
    assert_eq!(w.color, "[#0000](https://www.colorhexa.com/0000) (Heximal)");
    assert_eq!(w.usernames, "```\nold```\n");
    assert_eq!(w.registered, "Mon, May 1, 2023 10:00:00");
    let w2 = whois("pear", Some("ff00ff"), "d", "t", "");
    assert!(w2.intro.starts_with("A [pear]"));
    assert_eq!(w2.color, "[#ff00ff](https://www.colorhexa.com/ff00ff) (Heximal)");
    let acts = vec![
        Activity { name: "Custom Status".to_string(), is_custom: true, state: Some("coding".to_string()) },
        Activity { name: "Rust".to_string(), is_custom: false, state: None },
    ];
    let s = status_summary(false, true, true, &acts);
    assert_eq!(s.client, "Mobile");
    assert_eq!(s.kinds, "Custom StatusRust");
    assert_eq!(s.content, "codingNone");
    let (title, fields) = status("Ann", &s);
    assert_eq!(title, "**Ann**'s status");
    assert_eq!(fields.len(), 3);
    assert_eq!(fields[0], ("Type".to_string(), "Custom StatusRust".to_string()));
    let empty = status_summary(false, false, false, &vec![]);
    let (_, f2) = status("Bo", &empty);
    assert_eq!(f2, vec![("Respose".to_string(), "Not set or offline".to_string())]);
    let (t, u) = av("Ann", "https://cdn/a.png");
    assert_eq!(t, "**Ann**");
    assert_eq!(u, "https://images.google.com/searchbyimage?image_url=https://cdn/a.png");
}

#[test]
fn settings_and_notes() {
    assert!(is_watch_setting("question_channels"));
    assert!(is_watch_setting("showcase_channel"));
    assert!(!is_watch_setting("other"));
    assert_eq!(watch_setting_query("feedback_channel", 5), "insert into server_config(feedback_channel) values(5)");
    assert_eq!(watch_setting_query("feedback_channel", u64::MAX), "insert into server_config(feedback_channel) values(-1)");
    assert_eq!(config_reply(true, "", "x").unwrap(), "x no argument provided");
    assert!(config_reply(false, "introduction_channel", "introduction_channel 5").is_none());
    assert_eq!(config_reply(false, "bad", "bad 5").unwrap(), "Invalid config parameter: bad 5");
    let db = Database::from("/b", "notes");
    assert_eq!(Note::from("faq").path(&db), "/b/db/notes/faq");
    assert_eq!(note_written("faq"), "Note(**faq**) written");
    assert_eq!(note_removed("faq"), "Note(**faq**) removed");
    assert_eq!(note_linked("a", "b"), "Note(**a**) linked As(**b**)");
    assert_eq!(note_list_cell("a"), "⌘`a`");
    assert_eq!(about(), "Welp! Just another noobish *thing*.");
    assert_eq!(invite().0, "Robotify your server with optimus!");
    assert!(invite().1.starts_with("[Click here](https://discord.com/oauth2/"));
    assert_eq!(attachment_ref("a.txt"), "attachment://a.txt");
    assert_eq!(editlog_refusal(true), "Use this command while replying to an edited message");
    assert_eq!(editlog_refusal(false), "Not an edited message");
}

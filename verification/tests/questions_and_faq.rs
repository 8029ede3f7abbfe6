use optimus::dispatch::{
    app_commands, company_submitted_text, handles_modal, known_channels, posted_text, route_command, route_component,
    CommandRoute, ComponentRoute,
};
use optimus::faq::{
    branch_step, commit_message, decode_content, docs_relative_path, faq_document, faq_header, faq_next,
    faq_prompt, first_pull, insert_faq, message_entry, missing_page_text, new_page_content, new_ref_name,
    page_files, pr_reply, is_header_value, pr_title, remove_white, sanitize_content, unquoted, BranchStep, ContentError,
    FaqStep, GitHubApi,
};
use optimus::questions::{
    docs_ai_button, getting_started_button, add_page_links, add_thread_links, find_button_label, getting_started_missing, greeting_text, info_request,
    is_new_question_post, is_suggestion_click, issue_form_text, link_pattern, link_source, link_text,
    links_intro, page_titles, question_sources, result_links, search_url, suggestion_reply, suggestion_rows,
    suggestion_rows_keyed, thread_link, url_fragment, LinkSet, LinkSource, ThreadHit,
};
use optimus::search::{join_path, remove_scheme_from_url, server_command, wait_step, AddressError, WaitStep};
use optimus::threads::{thread_document, applied_tag_names, indexed_message, oldest_first, skips_message, thread_time, ForumTag};

#[test]
fn question_posts() {
    assert!(is_new_question_post(5, 5, Some(1), Some(1), Some(2)));
    assert!(is_new_question_post(5, 5, Some(2), Some(1), Some(2)));
    assert!(!is_new_question_post(5, 6, Some(1), Some(1), Some(2)));
    assert!(!is_new_question_post(5, 5, Some(3), Some(1), Some(2)));
    assert!(!is_new_question_post(5, 5, Some(1), None, Some(2)));
    assert!(greeting_text("ann").starts_with("> Hey ann! Thank you for raising this"));
    assert_eq!(question_sources(false), vec!["https://www.gitpod.io/docs", "https://github.com/gitpod-io"]);
    assert_eq!(question_sources(true), vec!["https://github.com/gitpod-io"]);
    assert_eq!(search_url("https://a.io", "how to"), "https://www.google.com/search?q=site:https%3A%2F%2Fa.io how%20to");
    assert_eq!(link_pattern("https://a.io"), "\"(?P<url>https://a.io/.[^:~]*?)\"");
}

#[test]
fn links_from_pages() {
    let page = "x \"https://a.io/one\" \"https://a.io/two#sec\" \"https://a.io/3\" \"https://a.io/4\"";
    let links = result_links("https://a.io", page).unwrap();
    assert_eq!(links, vec!["https://a.io/one".to_string(), "https://a.io/two#sec".to_string(), "https://a.io/3".to_string()]);
    assert_eq!(url_fragment("https://a.io/two#sec").unwrap(), Some("#sec".to_string()));
    assert_eq!(url_fragment("https://a.io/two").unwrap(), None);
    assert_eq!(page_titles("<title>A &amp; B</title>").unwrap(), vec!["A & B".to_string()]);
    assert_eq!(link_text("T", Some("#h")), "T | #h");
    assert_eq!(link_text("T", None), "T");
    assert_eq!(thread_link(1, 2), "https://discord.com/channels/1/2");
}

#[test]
fn link_set_keeps_titles_once() {
    let mut s = LinkSet::new();
    s.insert("a".to_string(), "u1".to_string());
    s.insert("b".to_string(), "u2".to_string());
    s.insert("a".to_string(), "u3".to_string());
    assert_eq!(s.len(), 2);
    assert_eq!(s.entry(0), ("a", "u3"));
    assert_eq!(s.entry(1), ("b", "u2"));
    assert!(add_page_links(&mut s, "https://x.io/p#frag", "<title>T1</title><title>T2</title>"));
    assert_eq!(s.len(), 4);
    assert_eq!(s.entry(2), ("T1 | #frag", "https://x.io/p#frag"));
    add_thread_links(&mut s, &[ThreadHit { title: "b".to_string(), guild_id: 1, id: 2 }]);
    assert_eq!(s.len(), 4);
    assert_eq!(s.entry(1), ("b", "https://discord.com/channels/1/2"));
}

#[test]
fn suggestion_buttons() {
    let mut s = LinkSet::new();
    for i in 0..12 {
        s.insert(format!("title {i}"), format!("https://github.com/x/{i}"));
    }
    s.insert("bad".to_string(), "not a url".to_string());
    let keys: Vec<String> = (0..13).map(|i| format!("k{i}")).collect();
    let rows = suggestion_rows(&s, &keys);
    assert_eq!(rows.len(), 2);
    assert_eq!(rows[0].len(), 5);
    assert_eq!(rows[1].len(), 5);
    assert_eq!(rows[0][0].label, "title 0");
    assert_eq!(rows[0][0].custom_id, "https://github.com/x/0?k0");
    assert_eq!(rows[0][0].source, LinkSource::Github);
    assert_eq!(rows[1][4].custom_id, "https://github.com/x/9?k9");
    let mut t = LinkSet::new();
    t.insert("x".repeat(100), "nope".to_string());
    t.insert("docs".to_string(), "https://www.gitpod.io/docs".to_string());
    let rows2 = suggestion_rows(&t, &vec!["a".to_string(), "b".to_string()]);
    assert_eq!(rows2.len(), 1);
    assert_eq!(rows2[0].len(), 1);
    assert_eq!(rows2[0][0].source, LinkSource::Gitpod);
    assert_eq!(link_source("https://discord.com/x"), LinkSource::Discord);
    assert!(suggestion_rows(&LinkSet::new(), &vec![]).is_empty());
    let keyed = suggestion_rows_keyed(&s);
    assert_eq!(keyed.len(), 2);
    assert!(keyed[0][0].custom_id.starts_with("https://github.com/x/0?"));
}

#[test]
fn suggestion_clicks() {
    assert!(is_suggestion_click("https://a"));
    assert!(!is_suggestion_click("gitpod_close_issue"));
    let rows = vec![
        vec![(Some("x".to_string()), Some("X".to_string())), (Some("http://l".to_string()), None)],
        vec![(None, Some("N".to_string())), (Some("http://l".to_string()), Some("Label".to_string()))],
    ];
    assert_eq!(find_button_label(&rows, "http://l"), Some("Label".to_string()));
    assert_eq!(find_button_label(&rows, "zzz"), None);
    assert_eq!(suggestion_reply(3, "Label"), "<@3>: Label");
    assert!(links_intro("ann").starts_with("ann, I found some relevant links"));
    assert!(info_request(3, false).starts_with("> <@3> **You can share the following (if applies):**\n• Contents of your `.gitpod.yml`\n"));
    assert!(info_request(3, true).contains("kubectl get pods -n <namespace>```• If you have"));
    assert!(issue_form_text(3, false).contains("`.gitpod.Dockerfile\n"));
    assert!(getting_started_missing(&vec!["a".to_string()]));
    assert!(!getting_started_missing(&vec!["**Press the button below** 👇 to gain access to the server".to_string()]));
}

#[test]
fn faq_text() {
    assert_eq!(unquoted("\"\"hi\"\""), "hi");
    assert_eq!(sanitize_content("hey <@123> and <#45> ```x```").unwrap(), "hey <redacted> and <redacted> \n```x```");
    assert_eq!(
        message_entry("ann", 42, "hello", &vec!["https://f/1".to_string()]),
        "\n**ann#42**: hello\nhttps://f/1\n"
    );
    let h = faq_header("Q", 1, 2);
    assert_eq!(h, "### [Q](https://discord.com/channels/1/2)\n<!-- DISCORD_BOT_FAQ - DO NOT REMOVE -->\n");
    assert_eq!(faq_document("H", &vec!["new".to_string(), "old".to_string()]), "Holdnew");
    assert!(faq_prompt("conv").ends_with("```markdown\nconv\n```"));
    assert_eq!(docs_relative_path("https://www.gitpod.io/docs/configure/x").unwrap(), "gitpod/docs/configure/x");
    let (a, b) = page_files("p");
    assert_eq!((a.as_str(), b.as_str()), ("p.md", "p/index.md"));
    assert_eq!(missing_page_text("p"), "Error: p does not exist, maybe you need to resolve a redirect?");
}

#[test]
fn faq_page_update() {
    assert_eq!(remove_white("aG\nk= \t"), "aGk=");
    assert_eq!(decode_content("aG\nk=").ok().unwrap(), "hi");
    assert_eq!(decode_content("!!").err(), Some(ContentError::Base64));
    assert_eq!(decode_content("/w==").err(), Some(ContentError::Utf8));
    assert_eq!(insert_faq("# T\n## FAQs\nold", "new").unwrap(), "# T\n## FAQs\n\nnew\nold");
    assert_eq!(insert_faq("# T", "new").unwrap(), "# T\n\n## FAQs\n\nnew");
    assert_eq!(new_page_content("", "hi").unwrap(), "CgojIyBGQVFzCgpoaQ==");
}

#[test]
fn repository_requests() {
    let g = GitHubApi::from("tok", "agent");
    assert_eq!(g.origin_api_root, "https://api.github.com/repos/gitpod-community/website");
    assert_eq!(g.authorization(), "Bearer tok");
    assert_eq!(g.merge_upstream_url(), "https://api.github.com/repos/gitpod-community/website/merge-upstream");
    assert_eq!(g.branch_url("b"), "https://api.github.com/repos/gitpod-community/website/branches/b");
    assert_eq!(g.head_ref_url("main"), "https://api.github.com/repos/gitpod-community/website/git/refs/heads/main");
    assert_eq!(g.refs_url(), "https://api.github.com/repos/gitpod-community/website/git/refs");
    assert_eq!(g.contents_url("a.md"), "https://api.github.com/repos/gitpod-community/website/contents/a.md");
    assert_eq!(g.pulls_url(), "https://api.github.com/repos/gitpod-io/website/pulls");
    assert_eq!(g.pr_head(), "gitpod-community:discord_staging");
    assert_eq!(new_ref_name("b"), "refs/heads/b");
    assert_eq!(branch_step("create", 404), BranchStep::Create);
    assert_eq!(branch_step("create", 200), BranchStep::Leave);
    assert_eq!(branch_step("delete", 200), BranchStep::Delete);
    assert_eq!(branch_step("delete", 404), BranchStep::Leave);
    assert_eq!(branch_step("other", 404), BranchStep::Leave);
    assert_eq!(first_pull(&vec![]), None);
    assert_eq!(first_pull(&vec!["u1".to_string(), "u2".to_string()]), Some("u1".to_string()));
    assert_eq!(commit_message("a.md"), "Update a.md");
    assert_eq!(pr_title("p"), "Add FAQ for p");
    assert_eq!(pr_reply("l"), "PR for this thread conversation: l");
}

#[test]
fn faq_flow_order() {
    let mut step = FaqStep::SyncFork;
    let outcomes = [true, false, false, true, false, true, true, false, true];
    let mut seen = vec![step];
    for ok in outcomes {
        step = faq_next(step, ok);
        seen.push(step);
    }
    assert_eq!(
        seen,
        vec![
            FaqStep::SyncFork,
            FaqStep::CheckOpenPr,
            FaqStep::DeleteBranch,
            FaqStep::CreateBranch,
            FaqStep::FetchPage,
            FaqStep::FetchIndexPage,
            FaqStep::Commit,
            FaqStep::FindPr,
            FaqStep::OpenPr,
            FaqStep::Reply,
        ]
    );
    assert_eq!(faq_next(FaqStep::FetchIndexPage, false), FaqStep::ReportMissing);
    assert_eq!(faq_next(FaqStep::ReportMissing, true), FaqStep::Fail);
    assert_eq!(faq_next(FaqStep::SyncFork, false), FaqStep::Fail);
}

#[test]
fn indexed_threads() {
    let avail = vec![ForumTag { id: 1, name: "bug".to_string() }, ForumTag { id: 2, name: "docs".to_string() }];
    assert_eq!(applied_tag_names(&vec![2, 9, 1], &avail), vec!["docs".to_string(), "bug".to_string()]);
    assert_eq!(thread_time(Some(1), Some(2), 3), 1);
    assert_eq!(thread_time(None, Some(2), 3), 2);
    assert_eq!(thread_time(None, None, 3), 3);
    assert!(skips_message(true, false));
    assert!(skips_message(false, true));
    assert!(!skips_message(false, false));
    assert_eq!(indexed_message("ann", 7, "a ```b```", &vec![]).unwrap(), "**ann#7**: a \n```b```");
    assert_eq!(indexed_message("ann", 7, "x", &vec!["u".to_string()]).unwrap(), "**ann#7**: x\nu\n");
    assert_eq!(oldest_first(vec!["c".to_string(), "b".to_string(), "a".to_string()]), vec!["a", "b", "c"]);
}

#[test]
fn search_server() {
    assert_eq!(remove_scheme_from_url("http://localhost:7700/").unwrap(), "localhost:7700");
    assert_eq!(remove_scheme_from_url("http://h:1/a/b//").unwrap(), "h/a/b:1");
    assert_eq!(remove_scheme_from_url("http://localhost/").err(), Some(AddressError::NoPort));
    assert_eq!(remove_scheme_from_url("nope").err(), Some(AddressError::Parse));
    assert_eq!(remove_scheme_from_url("unix:/tmp/x").err(), Some(AddressError::NoHost));
    assert_eq!(join_path("/d", "f"), "/d/f");
    assert_eq!(join_path("/d/", "f"), "/d/f");
    assert_eq!(join_path("", "f"), "f");
    let cmd = server_command(&vec!["meilisearch".to_string()], "/bin", "h:1", "key");
    assert_eq!(cmd, vec!["meilisearch", "--db-path", "/bin/data.ms", "--log-level", "WARN", "--http-addr", "h:1", "--master-key", "key"]);
    let cmd2 = server_command(&vec!["m".to_string(), "--db-path".to_string(), "/x".to_string()], "/bin", "h:1", "k");
    assert_eq!(cmd2.len(), 9);
    assert_eq!(cmd2[2], "/x");
    assert_eq!(wait_step(true, 5_000_000), WaitStep::Ready);
    assert_eq!(wait_step(false, 1_000_001), WaitStep::Timeout);
    assert_eq!(wait_step(false, 1_000_000), WaitStep::Retry);
}

#[test]
fn interaction_routes() {
    assert_eq!(route_component("gitpod_close_issue"), ComponentRoute::CloseThread);
    assert_eq!(route_component("getting_started_letsgo"), ComponentRoute::GettingStarted);
    assert_eq!(route_component("https://x"), ComponentRoute::Suggestion);
    assert_eq!(route_command("close"), Some(CommandRoute::Close));
    assert_eq!(route_command("nothing_to_see_here"), Some(CommandRoute::NothingToSeeHere));
    assert_eq!(route_command("create-pr"), Some(CommandRoute::CreatePr));
    assert_eq!(route_command("other"), None);
    assert!(handles_modal("company_name_submitted"));
    assert!(!handles_modal("x"));
    assert_eq!(company_submitted_text(), "**[4/4]**: You have personalized the server, congrats!");
    assert_eq!(posted_text(), "Posted message on this channel");
    assert_eq!(known_channels(true).questions, 1026115789721444384);
    assert_eq!(known_channels(false).questions, 1026792978854973460);
}

#[test]
fn registered_commands() {
    let c = app_commands();
    assert_eq!(c.len(), 3);
    assert_eq!(c[0].name, "close");
    assert!(!c[0].admin_only);
    assert_eq!(c[1].name, "create-pr");
    assert_eq!(c[1].options.len(), 2);
    assert!(c[1].options[0].required && !c[1].options[1].required);
    assert_eq!(c[2].options[0].name, "value");
}

#[test]
fn at_most_five_threads_and_fixed_buttons() {
    let mut s = LinkSet::new();
    let hits: Vec<ThreadHit> = (0..7).map(|i| ThreadHit { title: format!("t{i}"), guild_id: 1, id: i }).collect();
    add_thread_links(&mut s, &hits);
    assert_eq!(s.len(), 5);
    assert_eq!(s.entry(4), ("t4", "https://discord.com/channels/1/4"));
    assert_eq!(docs_ai_button(), ("Ask Gitpod Docs AI", "question-qa", "🔍"));
    assert_eq!(getting_started_button(), ("Let's go", "getting_started_letsgo", "🙌"));
    let mut posted = vec!["hello".to_string()];
    assert!(getting_started_missing(&posted));
    posted.push("**Press the button below** 👇 to gain access to the server".to_string());
    assert!(!getting_started_missing(&posted));
}

#[test]
fn keyed_rows_use_alphanumeric_keys() {
    let mut s = LinkSet::new();
    s.insert("a".to_string(), "https://github.com/a".to_string());
    let rows = suggestion_rows_keyed(&s);
    let id = &rows[0][0].custom_id;
    let key = id.strip_prefix("https://github.com/a?").unwrap();
    assert_eq!(key.chars().count(), 4);
    assert!(key.chars().all(|c| c.is_ascii_alphanumeric()));
}

#[test]
fn request_headers() {
    assert!(is_header_value("Bearer abc\tdef é"));
    assert!(!is_header_value("bad\nvalue"));
    assert!(!is_header_value("del\u{7f}"));
    let g = GitHubApi::from("tok", "agent");
    let h = g.headers();
    assert_eq!(
        h,
        vec![
            ("user-agent", "agent".to_string()),
            ("authorization", "Bearer tok".to_string()),
            ("accept", "application/vnd.github+json".to_string()),
        ]
    );
}

#[test]
fn thread_search_document() {
    let avail = vec![ForumTag { id: 1, name: "bug".to_string() }];
    let t = thread_document(
        "Q".to_string(),
        vec!["new".to_string(), "old".to_string()],
        &vec![1, 5],
        &avail,
        7,
        8,
        9,
        10,
        None,
        Some((200, "1970-01-01T00:03:20Z".to_string())),
        (100, "1970-01-01T00:01:40Z".to_string()),
        "https://cdn/a.png".to_string(),
    );
    assert_eq!(t.messages, vec!["old".to_string(), "new".to_string()]);
    assert_eq!(t.tags, vec!["bug".to_string()]);
    assert_eq!((t.author_id, t.id, t.guild_id, t.parent_channel_id), (7, 8, 9, 10));
    assert_eq!(t.timestamp, 200);
    assert_eq!(t.date, "1970-01-01T00:03:20Z");
    assert_eq!(t.title, "Q");
    assert_eq!(t.poster, "https://cdn/a.png");
}

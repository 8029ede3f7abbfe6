//! Pulling a question thread into the website as a FAQ: the thread's text,
//! the page it goes into, the repository requests and the order they go in.
use vstd::prelude::*;
use vstd::utf8::{valid_utf8, decode_utf8, encode_utf8};
use crate::config::{is_white, white};
use crate::decimal::{decimal, push_decimal};
use crate::pattern::{
    regex_compiles, regex_replaced_all, regex_replaced_first, regex_replace_all, regex_replace_first,
};
use crate::text::{
    has_infix, trim_start_spec, trim_end_spec, concat_all, chars_of, string_of, push_str, to_owned_string,
    trim_start_matches, trim_end_matches, contains_str,
};
use crate::web::{base64_text, base64_bytes, lemma_base64_injective, base64_decode, base64_encode, base64_spec, utf8_text};

verus! {

/// The mark that ends the heading of every FAQ the bot writes.
pub open spec fn signature() -> Seq<char> {
    "<!-- DISCORD_BOT_FAQ - DO NOT REMOVE -->"@
}

/// A command option without the double quotes around it.
pub open spec fn unquoted_spec(s: Seq<char>) -> Seq<char> {
    trim_end_spec(trim_start_spec(s, "\""@), "\""@)
}

pub fn unquoted(s: &str) -> (r: String)
    ensures
        r@ == unquoted_spec(s@),
{
    proof {
        reveal_strlit("\"");
    }
    let a = trim_start_matches(s, "\"");
    trim_end_matches(a.as_str(), "\"")
}

/// Mentions of users, roles and channels (animated emoji prefixes included).
pub open spec fn mention_pattern() -> Seq<char> {
    "<(?:a:\\w+:)?(?:@|(?:@!)|(?:@&)|#)\\d+>"@
}

/// A message's text as it goes into a FAQ: mentions redacted, and a newline
/// before its first code fence.
pub open spec fn sanitized_spec(content: Seq<char>) -> Seq<char> {
    regex_replaced_first(
        "```"@,
        regex_replaced_all(mention_pattern(), content, "<redacted>"@),
        "\n```"@,
    )
}

/// `None` when one of the two patterns does not compile.
pub fn sanitize_content(content: &str) -> (r: Option<String>)
    ensures
        r is Some <==> regex_compiles(mention_pattern()) && regex_compiles("```"@),
        r matches Some(s) ==> s@ == sanitized_spec(content@),
{
    proof {
        reveal_strlit("<(?:a:\\w+:)?(?:@|(?:@!)|(?:@&)|#)\\d+>");
    }
    let pattern = "<(?:a:\\w+:)?(?:@|(?:@!)|(?:@&)|#)\\d+>";
    assert(pattern@ == mention_pattern());
    let redacted = regex_replace_all(pattern, content, "<redacted>");
    match redacted {
        None => None,
        Some(red) => regex_replace_first("```", red.as_str(), "\n```"),
    }
}

/// Each attachment link on a line of its own.
pub open spec fn attachment_lines(urls: Seq<Seq<char>>) -> Seq<char>
    decreases urls.len(),
{
    if urls.len() == 0 {
        Seq::empty()
    } else {
        attachment_lines(urls.drop_last()) + urls.last() + "\n"@
    }
}

/// One message of the thread in the FAQ: author, text and attachments.
pub open spec fn message_entry_spec(
    name: Seq<char>,
    discriminator: u16,
    content: Seq<char>,
    urls: Seq<Seq<char>>,
) -> Seq<char> {
    "\n**"@ + name + "#"@ + decimal(discriminator as nat) + "**: "@ + content + "\n"@
        + attachment_lines(urls)
}

/// A message's FAQ entry is its author line followed by each of its attachment
/// links on a line of its own: without attachments it is the author line
/// alone, and one more attachment adds its link and a newline at the end.
pub proof fn lemma_message_entry_attachments(
    name: Seq<char>,
    discriminator: u16,
    content: Seq<char>,
    urls: Seq<Seq<char>>,
    url: Seq<char>,
)
    ensures
        message_entry_spec(name, discriminator, content, Seq::empty()) == "\n**"@ + name + "#"@
            + decimal(discriminator as nat) + "**: "@ + content + "\n"@,
        message_entry_spec(name, discriminator, content, urls.push(url)) == message_entry_spec(
            name,
            discriminator,
            content,
            urls,
        ) + url + "\n"@,
        message_entry_spec(name, discriminator, content, urls).len() >= urls.len()
            + message_entry_spec(name, discriminator, content, Seq::empty()).len(),
    decreases urls.len(),
{
    let head = "\n**"@ + name + "#"@ + decimal(discriminator as nat) + "**: "@ + content + "\n"@;
    assert(attachment_lines(Seq::<Seq<char>>::empty()) =~= Seq::<char>::empty());
    assert(message_entry_spec(name, discriminator, content, Seq::empty()) =~= head);
    assert(urls.push(url).drop_last() =~= urls);
    assert(message_entry_spec(name, discriminator, content, urls.push(url)) =~= message_entry_spec(
        name,
        discriminator,
        content,
        urls,
    ) + url + "\n"@);
    if urls.len() > 0 {
        lemma_message_entry_attachments(name, discriminator, content, urls.drop_last(), urls.last());
        assert(urls.drop_last().push(urls.last()) =~= urls);
        reveal_strlit("\n");
    }
}

pub fn message_entry(name: &str, discriminator: u16, content: &str, urls: &Vec<String>) -> (r: String)
    ensures
        r@ == message_entry_spec(name@, discriminator, content@, urls@.map_values(|u: String| u@)),
{
    let mut r = to_owned_string("\n**");
    push_str(&mut r, name);
    push_str(&mut r, "#");
    push_decimal(&mut r, discriminator as u64);
    push_str(&mut r, "**: ");
    push_str(&mut r, content);
    push_str(&mut r, "\n");
    let ghost head = r@;
    let ghost uv = urls@.map_values(|u: String| u@);
    let mut i: usize = 0;
    while i < urls.len()
        invariant
            i <= urls@.len(),
            uv == urls@.map_values(|u: String| u@),
            r@ == head + attachment_lines(uv.subrange(0, i as int)),
        decreases urls.len() - i,
    {
        push_str(&mut r, urls[i].as_str());
        push_str(&mut r, "\n");
        proof {
            let sub = uv.subrange(0, i + 1);
            assert(sub.drop_last() =~= uv.subrange(0, i as int));
            assert(sub.last() == urls@[i as int]@);
            assert(r@ =~= head + attachment_lines(sub));
        }
        i = i + 1;
    }
    assert(uv.subrange(0, i as int) =~= uv);
    r
}

/// The heading of a FAQ: its title linking to the thread, then the signature.
pub open spec fn faq_header_spec(title: Seq<char>, guild: u64, thread: u64) -> Seq<char> {
    "### ["@ + title + "](https://discord.com/channels/"@ + decimal(guild as nat) + "/"@ + decimal(
        thread as nat,
    ) + ")\n"@ + signature() + "\n"@
}

pub fn faq_header(title: &str, guild: u64, thread: u64) -> (r: String)
    ensures
        r@ == faq_header_spec(title@, guild, thread),
{
    let mut r = to_owned_string("### [");
    push_str(&mut r, title);
    push_str(&mut r, "](https://discord.com/channels/");
    push_decimal(&mut r, guild);
    push_str(&mut r, "/");
    push_decimal(&mut r, thread);
    push_str(&mut r, ")\n");
    push_str(&mut r, "<!-- DISCORD_BOT_FAQ - DO NOT REMOVE -->");
    push_str(&mut r, "\n");
    r
}

/// The FAQ text: the heading, then the messages from the oldest on (the
/// entries come newest first, as the thread is read).
pub open spec fn faq_document_spec(header: Seq<char>, newest_first: Seq<Seq<char>>) -> Seq<char> {
    header + concat_all(newest_first.reverse())
}

proof fn lemma_concat_front(x: Seq<char>, w: Seq<Seq<char>>)
    ensures
        concat_all(seq![x] + w) == x + concat_all(w),
    decreases w.len(),
{
    if w.len() == 0 {
        assert((seq![x] + w).drop_last() =~= Seq::<Seq<char>>::empty());
        assert(concat_all(Seq::<Seq<char>>::empty()) =~= Seq::<char>::empty());
        assert(concat_all(seq![x] + w) =~= x + concat_all(w));
    } else {
        lemma_concat_front(x, w.drop_last());
        assert((seq![x] + w).drop_last() =~= seq![x] + w.drop_last());
        assert(concat_all(seq![x] + w) =~= x + concat_all(w));
    }
}

/// The FAQ text starts with its heading, and the messages follow oldest
/// first: a message read after all the others (so the oldest) comes right
/// after the heading, before everything the others make.
pub proof fn lemma_faq_document_order(header: Seq<char>, newest_first: Seq<Seq<char>>, older: Seq<char>)
    ensures
        faq_document_spec(header, Seq::empty()) == header,
        faq_document_spec(header, newest_first.push(older)) == header + older + faq_document_spec(
            header,
            newest_first,
        ).subrange(header.len() as int, faq_document_spec(header, newest_first).len() as int),
{
    assert(Seq::<Seq<char>>::empty().reverse() =~= Seq::<Seq<char>>::empty());
    assert(concat_all(Seq::<Seq<char>>::empty()) =~= Seq::<char>::empty());
    assert(faq_document_spec(header, Seq::empty()) =~= header);
    assert(newest_first.push(older).reverse() =~= seq![older] + newest_first.reverse());
    lemma_concat_front(older, newest_first.reverse());
    let d = faq_document_spec(header, newest_first);
    assert(d.subrange(header.len() as int, d.len() as int) =~= concat_all(newest_first.reverse()));
    assert(faq_document_spec(header, newest_first.push(older)) =~= header + older + concat_all(
        newest_first.reverse(),
    ));
}

pub fn faq_document(header: &str, newest_first: &Vec<String>) -> (r: String)
    ensures
        r@ == faq_document_spec(header@, newest_first@.map_values(|e: String| e@)),
{
    let ghost v = newest_first@.map_values(|e: String| e@);
    let mut r = to_owned_string(header);
    let mut i: usize = newest_first.len();
    assert(v.subrange(i as int, v.len() as int).reverse() =~= Seq::<Seq<char>>::empty());
    while i > 0
        invariant
            i <= newest_first@.len(),
            v == newest_first@.map_values(|e: String| e@),
            r@ == header@ + concat_all(v.subrange(i as int, v.len() as int).reverse()),
        decreases i,
    {
        i = i - 1;
        push_str(&mut r, newest_first[i].as_str());
        proof {
            let before = v.subrange(i + 1, v.len() as int).reverse();
            let after = v.subrange(i as int, v.len() as int).reverse();
            assert(after.drop_last() =~= before);
            assert(after.last() == v[i as int]);
            assert(r@ =~= header@ + concat_all(after));
        }
    }
    assert(v.subrange(0, v.len() as int) =~= v);
    r
}

/// The request for a summary of the thread.
pub open spec fn faq_prompt_spec(conversation: Seq<char>) -> Seq<char> {
    "I copy pasted a discord conversation to a (markdown) web page for documenting as a FAQ, can you convert it to a concise FAQ for me?\nRules:\n1. Shouldn't read like a conversation\n2. Shouldn't link back to discord or slack.\n3. Shouldn't use inline backticks but rather code blocks for representing bash commands or code\n\n```markdown\n"@
        + conversation + "\n```"@
}

pub fn faq_prompt(conversation: &str) -> (r: String)
    ensures
        r@ == faq_prompt_spec(conversation@),
{
    let mut r = to_owned_string(
        "I copy pasted a discord conversation to a (markdown) web page for documenting as a FAQ, can you convert it to a concise FAQ for me?\nRules:\n1. Shouldn't read like a conversation\n2. Shouldn't link back to discord or slack.\n3. Shouldn't use inline backticks but rather code blocks for representing bash commands or code\n\n```markdown\n",
    );
    push_str(&mut r, conversation);
    push_str(&mut r, "\n```");
    r
}

/// Everything of a docs link up to `/docs/`.
pub open spec fn docs_prefix_pattern() -> Seq<char> {
    "^.*/docs/"@
}

/// The page's path in the website repository, from its docs link; `None`
/// when the pattern does not compile.
pub fn docs_relative_path(link: &str) -> (r: Option<String>)
    ensures
        r is Some <==> regex_compiles(docs_prefix_pattern()),
        r matches Some(s) ==> s@ == regex_replaced_first(docs_prefix_pattern(), link@, "gitpod/docs/"@),
{
    proof {
        reveal_strlit("^.*/docs/");
    }
    let pattern = "^.*/docs/";
    assert(pattern@ == docs_prefix_pattern());
    regex_replace_first(pattern, link, "gitpod/docs/")
}

/// The two files a page may live in, tried in this order.
pub fn page_files(relative: &str) -> (r: (String, String))
    ensures
        r.0@ == relative@ + ".md"@,
        r.1@ == relative@ + "/index.md"@,
{
    let mut a = to_owned_string(relative);
    push_str(&mut a, ".md");
    let mut b = to_owned_string(relative);
    push_str(&mut b, "/index.md");
    (a, b)
}

/// The answer when neither file exists.
pub open spec fn missing_page_text_spec(relative: Seq<char>) -> Seq<char> {
    "Error: "@ + relative + " does not exist, maybe you need to resolve a redirect?"@
}

pub fn missing_page_text(relative: &str) -> (r: String)
    ensures
        r@ == missing_page_text_spec(relative@),
{
    let mut r = to_owned_string("Error: ");
    push_str(&mut r, relative);
    push_str(&mut r, " does not exist, maybe you need to resolve a redirect?");
    r
}

/// `s` without its white space.
pub open spec fn without_white(s: Seq<char>) -> Seq<char>
    decreases s.len(),
{
    if s.len() == 0 {
        s
    } else {
        let before = without_white(s.drop_last());
        if is_white(s.last()) {
            before
        } else {
            before.push(s.last())
        }
    }
}

pub fn remove_white(s: &str) -> (r: String)
    ensures
        r@ == without_white(s@),
{
    let cs = chars_of(s);
    let mut out: Vec<char> = Vec::new();
    let mut i: usize = 0;
    while i < cs.len()
        invariant
            cs@ == s@,
            i <= cs@.len(),
            out@ == without_white(s@.subrange(0, i as int)),
        decreases cs.len() - i,
    {
        let c = cs[i];
        proof {
            let sub = s@.subrange(0, i + 1);
            assert(sub.drop_last() =~= s@.subrange(0, i as int));
            assert(sub.last() == c);
        }
        if !white(c) {
            out.push(c);
        }
        i = i + 1;
    }
    assert(s@.subrange(0, i as int) =~= s@);
    string_of(&out)
}

/// Why a page's stored content could not be read.
#[derive(PartialEq, Eq, Structural, Clone, Copy, Debug)]
pub enum ContentError {
    /// Not base64.
    Base64,
    /// Not UTF-8 text once decoded.
    Utf8,
}

/// The text of a page as the repository stores it: base64 with line breaks.
pub fn decode_content(content: &str) -> (r: Result<String, ContentError>)
    ensures
        !base64_text(without_white(content@)) <==> r == Err::<String, ContentError>(ContentError::Base64),
        base64_text(without_white(content@)) ==> ({
            let b = base64_bytes(without_white(content@));
            match r {
                Ok(s) => valid_utf8(b) && s@ == decode_utf8(b),
                Err(e) => e == ContentError::Utf8 && !valid_utf8(b),
            }
        }),
{
    let compact = remove_white(content);
    let bytes = base64_decode(compact.as_str());
    match bytes {
        None => Err(ContentError::Base64),
        Some(b) => {
            proof {
                let c = base64_bytes(compact@);
                assert(base64_spec(b@) == compact@);
                assert(base64_spec(c) == compact@);
                lemma_base64_injective(b@, c);
            }
            match utf8_text(b) {
                Some(s) => Ok(s),
                None => Err(ContentError::Utf8),
            }
        },
    }
}

/// The page with the FAQ added: right under its first `FAQs` when it has
/// one, else in a new `FAQs` section at its end.
pub open spec fn with_faq_spec(page: Seq<char>, faq: Seq<char>) -> Seq<char> {
    if has_infix(page, "FAQs"@) {
        regex_replaced_first("FAQs"@, page, "FAQs\n\n"@ + faq)
    } else {
        page + "\n\n## FAQs\n\n"@ + faq
    }
}

/// `None` when the page has `FAQs` and the pattern does not compile.
pub fn insert_faq(page: &str, faq: &str) -> (r: Option<String>)
    ensures
        r is None <==> has_infix(page@, "FAQs"@) && !regex_compiles("FAQs"@),
        r matches Some(s) ==> s@ == with_faq_spec(page@, faq@),
{
    if contains_str(page, "FAQs") {
        let mut rep = to_owned_string("FAQs\n\n");
        push_str(&mut rep, faq);
        regex_replace_first("FAQs", page, rep.as_str())
    } else {
        let mut r = to_owned_string(page);
        push_str(&mut r, "\n\n## FAQs\n\n");
        push_str(&mut r, faq);
        Some(r)
    }
}

/// The page's new content as the repository takes it: the page with the FAQ,
/// base64-encoded.
pub fn new_page_content(page: &str, faq: &str) -> (r: Option<String>)
    ensures
        r is None <==> has_infix(page@, "FAQs"@) && !regex_compiles("FAQs"@),
        r matches Some(s) ==> s@ == base64_spec(encode_utf8(with_faq_spec(page@, faq@))),
{
    match insert_faq(page, faq) {
        None => None,
        Some(text) => Some(base64_encode(text.as_str())),
    }
}

/// The account the bot works from.
pub open spec fn bot_account() -> Seq<char> {
    "gitpod-community"@
}

/// The repository requests of the FAQ flow: where they go and the names they use.
pub struct GitHubApi {
    pub origin_api_root: String,
    pub upstream_api_root: String,
    pub token: String,
    pub user_agent: String,
    pub origin_work_branch_name: String,
    pub upstream_main_branch_name: String,
    pub upstream_user_name: String,
    pub origin_user_name: String,
}

/// A text that is a valid HTTP header value: tabs, and characters from the
/// space on other than DEL (characters beyond ASCII encode to bytes from 0x80 on,
/// which are allowed too).
pub open spec fn header_value_ok(s: Seq<char>) -> bool {
    forall|i: int| 0 <= i < s.len() ==> (#[trigger] s[i] == '\t' || (' ' <= s[i] && s[i] != '\u{7f}'))
}

/// Whether `s` can be sent as an HTTP header value.
pub fn is_header_value(s: &str) -> (r: bool)
    ensures
        r == header_value_ok(s@),
{
    let cs = chars_of(s);
    let mut i: usize = 0;
    while i < cs.len()
        invariant
            cs@ == s@,
            i <= cs@.len(),
            forall|j: int| 0 <= j < i ==> (#[trigger] s@[j] == '\t' || (' ' <= s@[j] && s@[j] != '\u{7f}')),
        decreases cs.len() - i,
    {
        let c = cs[i];
        if !(c == '\t' || (' ' <= c && c != '\u{7f}')) {
            assert(!(s@[i as int] == '\t' || (' ' <= s@[i as int] && s@[i as int] != '\u{7f}')));
            return false;
        }
        i = i + 1;
    }
    true
}

impl GitHubApi {
    /// The website fork of the bot's account, proposing to the upstream website.
    /// Its requests carry the user agent and the token as header values, which
    /// they must be able to be.
    pub fn from(token: &str, user_agent: &str) -> (g: GitHubApi)
        requires
            header_value_ok(token@),
            header_value_ok(user_agent@),
        ensures
            g.origin_api_root@ == "https://api.github.com/repos/"@ + bot_account() + "/website"@,
            g.upstream_api_root@ == "https://api.github.com/repos/gitpod-io/website"@,
            g.token@ == token@,
            g.user_agent@ == user_agent@,
            g.origin_work_branch_name@ == "discord_staging"@,
            g.upstream_main_branch_name@ == "main"@,
            g.upstream_user_name@ == "gitpod-io"@,
            g.origin_user_name@ == bot_account(),
    {
        let mut origin = to_owned_string("https://api.github.com/repos/");
        push_str(&mut origin, "gitpod-community");
        push_str(&mut origin, "/website");
        GitHubApi {
            origin_api_root: origin,
            upstream_api_root: to_owned_string("https://api.github.com/repos/gitpod-io/website"),
            token: to_owned_string(token),
            user_agent: to_owned_string(user_agent),
            origin_work_branch_name: to_owned_string("discord_staging"),
            upstream_main_branch_name: to_owned_string("main"),
            upstream_user_name: to_owned_string("gitpod-io"),
            origin_user_name: to_owned_string("gitpod-community"),
        }
    }

    /// The default headers of every request: the user agent, the token as a
    /// bearer authorization, and the GitHub JSON media type.
    pub fn headers(&self) -> (r: Vec<(&'static str, String)>)
        ensures
            r@.map_values(|h: (&'static str, String)| (h.0@, h.1@)) == seq![
                ("user-agent"@, self.user_agent@),
                ("authorization"@, "Bearer "@ + self.token@),
                ("accept"@, "application/vnd.github+json"@),
            ],
    {
        let mut r: Vec<(&'static str, String)> = Vec::new();
        r.push(("user-agent", to_owned_string(self.user_agent.as_str())));
        r.push(("authorization", self.authorization()));
        r.push(("accept", to_owned_string("application/vnd.github+json")));
        assert(r@.map_values(|h: (&'static str, String)| (h.0@, h.1@)) =~= seq![
            ("user-agent"@, self.user_agent@),
            ("authorization"@, "Bearer "@ + self.token@),
            ("accept"@, "application/vnd.github+json"@),
        ]);
        r
    }

    /// The value of the authorization header.
    pub fn authorization(&self) -> (r: String)
        ensures
            r@ == "Bearer "@ + self.token@,
    {
        let mut r = to_owned_string("Bearer ");
        push_str(&mut r, self.token.as_str());
        r
    }

    /// Where the fork is synced from upstream.
    pub fn merge_upstream_url(&self) -> (r: String)
        ensures
            r@ == self.origin_api_root@ + "/merge-upstream"@,
    {
        let mut r = to_owned_string(self.origin_api_root.as_str());
        push_str(&mut r, "/merge-upstream");
        r
    }

    /// Where a branch of the fork is looked up.
    pub fn branch_url(&self, branch: &str) -> (r: String)
        ensures
            r@ == self.origin_api_root@ + "/branches/"@ + branch@,
    {
        let mut r = to_owned_string(self.origin_api_root.as_str());
        push_str(&mut r, "/branches/");
        push_str(&mut r, branch);
        r
    }

    /// The reference of a branch of the fork (read to branch off it, or deleted).
    pub fn head_ref_url(&self, branch: &str) -> (r: String)
        ensures
            r@ == self.origin_api_root@ + "/git/refs/heads/"@ + branch@,
    {
        let mut r = to_owned_string(self.origin_api_root.as_str());
        push_str(&mut r, "/git/refs/heads/");
        push_str(&mut r, branch);
        r
    }

    /// Where new references of the fork are made.
    pub fn refs_url(&self) -> (r: String)
        ensures
            r@ == self.origin_api_root@ + "/git/refs"@,
    {
        let mut r = to_owned_string(self.origin_api_root.as_str());
        push_str(&mut r, "/git/refs");
        r
    }

    /// A file of the fork.
    pub fn contents_url(&self, path: &str) -> (r: String)
        ensures
            r@ == self.origin_api_root@ + "/contents/"@ + path@,
    {
        let mut r = to_owned_string(self.origin_api_root.as_str());
        push_str(&mut r, "/contents/");
        push_str(&mut r, path);
        r
    }

    /// The pull requests of upstream.
    pub fn pulls_url(&self) -> (r: String)
        ensures
            r@ == self.upstream_api_root@ + "/pulls"@,
    {
        let mut r = to_owned_string(self.upstream_api_root.as_str());
        push_str(&mut r, "/pulls");
        r
    }

    /// The head of the bot's pull request: `user:branch`.
    pub fn pr_head(&self) -> (r: String)
        ensures
            r@ == self.origin_user_name@ + ":"@ + self.origin_work_branch_name@,
    {
        let mut r = to_owned_string(self.origin_user_name.as_str());
        push_str(&mut r, ":");
        push_str(&mut r, self.origin_work_branch_name.as_str());
        r
    }
}

/// The name of a new branch's reference.
pub fn new_ref_name(branch: &str) -> (r: String)
    ensures
        r@ == "refs/heads/"@ + branch@,
{
    let mut r = to_owned_string("refs/heads/");
    push_str(&mut r, branch);
    r
}

/// What is done to the work branch.
#[derive(PartialEq, Eq, Structural, Clone, Copy, Debug)]
pub enum BranchStep {
    /// Branch it off the main branch.
    Create,
    /// Delete it.
    Delete,
    /// Leave it.
    Leave,
}

/// The work branch is made only where it is missing (the lookup answers 404)
/// and deleted only where it exists (200); any other action does nothing.
pub fn branch_step(action: &str, lookup_status: u16) -> (r: BranchStep)
    ensures
        action@ == "create"@ && lookup_status == 404 ==> r == BranchStep::Create,
        action@ == "delete"@ && lookup_status == 200 ==> r == BranchStep::Delete,
        !(action@ == "create"@ && lookup_status == 404) && !(action@ == "delete"@ && lookup_status
            == 200) ==> r == BranchStep::Leave,
{
    proof {
        reveal_strlit("create");
        reveal_strlit("delete");
        assert("create"@[0] != "delete"@[0]);
    }
    if crate::text::eq_str(action, "create") {
        if lookup_status == 404 {
            BranchStep::Create
        } else {
            BranchStep::Leave
        }
    } else if crate::text::eq_str(action, "delete") {
        if lookup_status == 200 {
            BranchStep::Delete
        } else {
            BranchStep::Leave
        }
    } else {
        BranchStep::Leave
    }
}

/// The bot's open pull request: the first one listed, if any.
pub fn first_pull(urls: &Vec<String>) -> (r: Option<String>)
    ensures
        urls@.len() == 0 <==> r is None,
        r matches Some(s) ==> s@ == urls@[0]@,
{
    if urls.len() == 0 {
        None
    } else {
        Some(to_owned_string(urls[0].as_str()))
    }
}

pub fn commit_message(path: &str) -> (r: String)
    ensures
        r@ == "Update "@ + path@,
{
    let mut r = to_owned_string("Update ");
    push_str(&mut r, path);
    r
}

pub fn pr_title(relative: &str) -> (r: String)
    ensures
        r@ == "Add FAQ for "@ + relative@,
{
    let mut r = to_owned_string("Add FAQ for ");
    push_str(&mut r, relative);
    r
}

pub fn pr_reply(link: &str) -> (r: String)
    ensures
        r@ == "PR for this thread conversation: "@ + link@,
{
    let mut r = to_owned_string("PR for this thread conversation: ");
    push_str(&mut r, link);
    r
}

/// The requests of the FAQ flow, each waiting for its outcome.
#[derive(PartialEq, Eq, Structural, Clone, Copy, Debug)]
pub enum FaqStep {
    /// Sync the fork with upstream.
    SyncFork,
    /// Look for the bot's open pull request.
    CheckOpenPr,
    /// Delete the work branch (no pull request is open).
    DeleteBranch,
    /// Branch the work branch off main again.
    CreateBranch,
    /// Fetch `<page>.md`.
    FetchPage,
    /// Fetch `<page>/index.md`.
    FetchIndexPage,
    /// Tell the user that the page does not exist.
    ReportMissing,
    /// Write the page with the FAQ to the work branch.
    Commit,
    /// Look for the bot's open pull request again.
    FindPr,
    /// Open a pull request.
    OpenPr,
    /// Answer with the pull request's link.
    Reply,
    /// Stop with an error.
    Fail,
}

/// The step after `step`, given whether it succeeded (for the pull request
/// lookups: whether one is open). A failed branch deletion is ignored.
pub fn faq_next(step: FaqStep, ok: bool) -> (r: FaqStep)
    ensures
        r == (match step {
            FaqStep::SyncFork => if ok { FaqStep::CheckOpenPr } else { FaqStep::Fail },
            FaqStep::CheckOpenPr => if ok { FaqStep::FetchPage } else { FaqStep::DeleteBranch },
            FaqStep::DeleteBranch => FaqStep::CreateBranch,
            FaqStep::CreateBranch => if ok { FaqStep::FetchPage } else { FaqStep::Fail },
            FaqStep::FetchPage => if ok { FaqStep::Commit } else { FaqStep::FetchIndexPage },
            FaqStep::FetchIndexPage => if ok { FaqStep::Commit } else { FaqStep::ReportMissing },
            FaqStep::ReportMissing => FaqStep::Fail,
            FaqStep::Commit => if ok { FaqStep::FindPr } else { FaqStep::Fail },
            FaqStep::FindPr => if ok { FaqStep::Reply } else { FaqStep::OpenPr },
            FaqStep::OpenPr => if ok { FaqStep::Reply } else { FaqStep::Fail },
            FaqStep::Reply => FaqStep::Reply,
            FaqStep::Fail => FaqStep::Fail,
        }),
{
    match step {
        FaqStep::SyncFork => if ok { FaqStep::CheckOpenPr } else { FaqStep::Fail },
        FaqStep::CheckOpenPr => if ok { FaqStep::FetchPage } else { FaqStep::DeleteBranch },
        FaqStep::DeleteBranch => FaqStep::CreateBranch,
        FaqStep::CreateBranch => if ok { FaqStep::FetchPage } else { FaqStep::Fail },
        FaqStep::FetchPage => if ok { FaqStep::Commit } else { FaqStep::FetchIndexPage },
        FaqStep::FetchIndexPage => if ok { FaqStep::Commit } else { FaqStep::ReportMissing },
        FaqStep::ReportMissing => FaqStep::Fail,
        FaqStep::Commit => if ok { FaqStep::FindPr } else { FaqStep::Fail },
        FaqStep::FindPr => if ok { FaqStep::Reply } else { FaqStep::OpenPr },
        FaqStep::OpenPr => if ok { FaqStep::Reply } else { FaqStep::Fail },
        FaqStep::Reply => FaqStep::Reply,
        FaqStep::Fail => FaqStep::Fail,
    }
}

} // verus!

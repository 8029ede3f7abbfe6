//! New questions: which posts are questions, the texts the bot answers with,
//! and how the links found for a question become suggestion buttons.
use vstd::prelude::*;
use crate::decimal::{decimal, push_decimal};
use crate::mention::{user_mention, push_user_mention};
use crate::pattern::{
    regex_compiles, regex_captured_all, regex_captured_first, regex_capture_all, regex_capture_first,
};
use crate::text::{has_prefix, prefix_chars, push_str, to_owned_string, eq_str, starts_with_str, prefix_string, views_of};
use crate::web::{
    percent_encoded, url_encode, html_decoded, decode_html, url_parses, url_with_query_key,
    add_query_key, random_key, is_ascii_alphanumeric,
};
use vstd::utf8::encode_utf8;

verus! {

/// The first post of a thread opened in one of the two question channels.
pub fn is_new_question_post(
    message_id: u64,
    thread_id: u64,
    parent_id: Option<u64>,
    primary: Option<u64>,
    secondary: Option<u64>,
) -> (r: bool)
    ensures
        r == (primary is Some && secondary is Some && parent_id is Some && (parent_id == primary
            || parent_id == secondary) && message_id == thread_id),
{
    match (primary, secondary, parent_id) {
        (Some(p), Some(s), Some(parent)) => (parent == p || parent == s) && message_id == thread_id,
        _ => false,
    }
}

/// The greeting quoted in a new question thread.
pub open spec fn greeting_text_spec(name: Seq<char>) -> Seq<char> {
    "> Hey "@ + name
        + "! Thank you for raising this — please hang tight as someone from our community may help you out."@
}

pub fn greeting_text(name: &str) -> (r: String)
    ensures
        r@ == greeting_text_spec(name@),
{
    let mut r = to_owned_string("> Hey ");
    push_str(&mut r, name);
    push_str(
        &mut r,
        "! Thank you for raising this — please hang tight as someone from our community may help you out.",
    );
    r
}

/// The sites searched for a question: the docs and the organisation's
/// repositories, or the repositories alone in the self-hosted channel.
pub fn question_sources(in_secondary: bool) -> (r: Vec<&'static str>)
    ensures
        !in_secondary ==> r@.len() == 2 && r@[0]@ == "https://www.gitpod.io/docs"@ && r@[1]@
            == "https://github.com/gitpod-io"@,
        in_secondary ==> r@.len() == 1 && r@[0]@ == "https://github.com/gitpod-io"@,
{
    let mut r: Vec<&'static str> = Vec::new();
    if !in_secondary {
        r.push("https://www.gitpod.io/docs");
    }
    r.push("https://github.com/gitpod-io");
    r
}

/// The web search for `title` on `site`, both percent-encoded.
pub open spec fn search_url_spec(site: Seq<char>, title: Seq<char>) -> Seq<char> {
    "https://www.google.com/search?q=site:"@ + percent_encoded(encode_utf8(site)) + " "@
        + percent_encoded(encode_utf8(title))
}

pub fn search_url(site: &str, title: &str) -> (r: String)
    ensures
        r@ == search_url_spec(site@, title@),
{
    let mut r = to_owned_string("https://www.google.com/search?q=site:");
    let s = url_encode(site);
    push_str(&mut r, s.as_str());
    push_str(&mut r, " ");
    let t = url_encode(title);
    push_str(&mut r, t.as_str());
    r
}

/// The pattern of a quoted link into `site` in a search result page; the
/// characters `:` and `~` keep the search engine's own links out.
pub open spec fn link_pattern_spec(site: Seq<char>) -> Seq<char> {
    "\"(?P<url>"@ + site + "/.[^:~]*?)\""@
}

pub fn link_pattern(site: &str) -> (r: String)
    ensures
        r@ == link_pattern_spec(site@),
{
    let mut r = to_owned_string("\"(?P<url>");
    push_str(&mut r, site);
    push_str(&mut r, "/.[^:~]*?)\"");
    r
}

/// How many links of one site are followed.
pub const LINKS_PER_SITE: usize = 3;

/// A capture's text, the empty text for a group that took no part.
pub open spec fn captured_text(o: Option<Seq<char>>) -> Seq<char> {
    match o {
        Some(s) => s,
        None => Seq::empty(),
    }
}

/// The links into `site` that a search result page holds: the first three
/// matches of its link pattern; `None` when the pattern does not compile.
pub fn result_links(site: &str, page: &str) -> (r: Option<Vec<String>>)
    ensures
        r is Some <==> regex_compiles(link_pattern_spec(site@)),
        r matches Some(v) ==> {
            let all = regex_captured_all(link_pattern_spec(site@), page@, "url"@);
            &&& v@.len() == (if all.len() < LINKS_PER_SITE { all.len() } else { LINKS_PER_SITE as nat })
            &&& forall|i: int| 0 <= i < v@.len() ==> #[trigger] v@[i]@ == captured_text(all[i])
        },
{
    let pattern = link_pattern(site);
    let found = regex_capture_all(pattern.as_str(), page, "url");
    match found {
        None => None,
        Some(all) => {
            let ghost spec_all = regex_captured_all(pattern@, page@, "url"@);
            assert(all@.len() == spec_all.len()) by {
                assert(all@.map_values(|o: Option<String>| match o {
                    Some(s) => Some(s@),
                    None => None,
                }).len() == all@.len());
            }
            let mut v: Vec<String> = Vec::new();
            let mut i: usize = 0;
            while i < all.len() && i < LINKS_PER_SITE
                invariant
                    i <= all@.len(),
                    i <= LINKS_PER_SITE,
                    v@.len() == i,
                    spec_all == all@.map_values(|o: Option<String>| match o {
                        Some(s) => Some(s@),
                        None => None,
                    }),
                    forall|j: int| 0 <= j < i ==> #[trigger] v@[j]@ == captured_text(spec_all[j]),
                decreases all.len() - i,
            {
                let ghost o = all@[i as int];
                assert(spec_all[i as int] == match o {
                    Some(s) => Some(s@),
                    None => None::<Seq<char>>,
                });
                match &all[i] {
                    Some(s) => v.push(to_owned_string(s.as_str())),
                    None => v.push(String::new()),
                }
                i = i + 1;
            }
            Some(v)
        },
    }
}

/// The pattern of a link's fragment: from a `#` to the end.
pub open spec fn fragment_pattern() -> Seq<char> {
    "(?P<hash>#[^:~].*)"@
}

/// The fragment of `url`, from its `#` on; `Some(None)` when it has none,
/// `None` when the fragment pattern does not compile.
pub fn url_fragment(url: &str) -> (r: Option<Option<String>>)
    ensures
        r is Some <==> regex_compiles(fragment_pattern()),
        r matches Some(o) ==> match o {
            Some(s) => regex_captured_first(fragment_pattern(), url@, "hash"@) == Some(s@),
            None => regex_captured_first(fragment_pattern(), url@, "hash"@) is None,
        },
{
    proof {
        reveal_strlit("(?P<hash>#[^:~].*)");
    }
    let pattern = "(?P<hash>#[^:~].*)";
    assert(pattern@ == fragment_pattern());
    regex_capture_first(pattern, url, "hash")
}

/// The pattern of a page's title.
pub open spec fn title_pattern() -> Seq<char> {
    "<title>(?P<title>.*?)</title>"@
}

/// The titles of a web page, after its HTML entities are decoded; `None`
/// when the title pattern does not compile.
pub fn page_titles(page: &str) -> (r: Option<Vec<String>>)
    ensures
        r is Some <==> regex_compiles(title_pattern()),
        r matches Some(v) ==> {
            let all = regex_captured_all(title_pattern(), html_decoded(page@), "title"@);
            &&& v@.len() == all.len()
            &&& forall|i: int| 0 <= i < v@.len() ==> #[trigger] v@[i]@ == captured_text(all[i])
        },
{
    proof {
        reveal_strlit("<title>(?P<title>.*?)</title>");
    }
    let decoded = decode_html(page);
    let pattern = "<title>(?P<title>.*?)</title>";
    assert(pattern@ == title_pattern());
    let found = regex_capture_all(pattern, decoded.as_str(), "title");
    match found {
        None => None,
        Some(all) => {
            let ghost spec_all = regex_captured_all(title_pattern(), decoded@, "title"@);
            let mut v: Vec<String> = Vec::new();
            let mut i: usize = 0;
            assert(all@.map_values(|o: Option<String>| match o {
                Some(s) => Some(s@),
                None => None,
            }).len() == all@.len());
            while i < all.len()
                invariant
                    i <= all@.len(),
                    v@.len() == i,
                    spec_all == all@.map_values(|o: Option<String>| match o {
                        Some(s) => Some(s@),
                        None => None,
                    }),
                    forall|j: int| 0 <= j < i ==> #[trigger] v@[j]@ == captured_text(spec_all[j]),
                decreases all.len() - i,
            {
                let ghost o = all@[i as int];
                assert(spec_all[i as int] == match o {
                    Some(s) => Some(s@),
                    None => None::<Seq<char>>,
                });
                match &all[i] {
                    Some(s) => v.push(to_owned_string(s.as_str())),
                    None => v.push(String::new()),
                }
                i = i + 1;
            }
            Some(v)
        },
    }
}

/// The text shown for a link: the page's title, then ` | ` and the link's
/// fragment where it has one.
pub open spec fn link_text_spec(title: Seq<char>, hash: Option<Seq<char>>) -> Seq<char> {
    match hash {
        Some(h) => title + " | "@ + h,
        None => title,
    }
}

pub fn link_text(title: &str, hash: Option<&str>) -> (r: String)
    ensures
        r@ == link_text_spec(title@, match hash {
            Some(h) => Some(h@),
            None => None,
        }),
{
    let mut r = to_owned_string(title);
    match hash {
        Some(h) => {
            push_str(&mut r, " | ");
            push_str(&mut r, h);
        },
        None => {},
    }
    r
}

/// The link to a thread of a server.
pub open spec fn thread_link_spec(guild: u64, thread: u64) -> Seq<char> {
    "https://discord.com/channels/"@ + decimal(guild as nat) + "/"@ + decimal(thread as nat)
}

pub fn thread_link(guild: u64, thread: u64) -> (r: String)
    ensures
        r@ == thread_link_spec(guild, thread),
{
    let mut r = to_owned_string("https://discord.com/channels/");
    push_decimal(&mut r, guild);
    push_str(&mut r, "/");
    push_decimal(&mut r, thread);
    r
}

/// Titled links, each title at most once, in the order they were first added.
pub struct LinkSet {
    entries: Vec<(String, String)>,
}

pub open spec fn entry_view(e: (String, String)) -> (Seq<char>, Seq<char>) {
    (e.0@, e.1@)
}

/// No title occurs twice.
pub open spec fn distinct_titles(s: Seq<(Seq<char>, Seq<char>)>) -> bool {
    forall|i: int, j: int| 0 <= i < s.len() && 0 <= j < s.len() && i != j ==> #[trigger] s[i].0 != #[trigger] s[j].0
}

pub open spec fn has_title(s: Seq<(Seq<char>, Seq<char>)>, title: Seq<char>) -> bool {
    exists|i: int| 0 <= i < s.len() && #[trigger] s[i].0 == title
}

/// Where `title` stands in `s`.
pub open spec fn title_index(s: Seq<(Seq<char>, Seq<char>)>, title: Seq<char>) -> int {
    choose|i: int| 0 <= i < s.len() && #[trigger] s[i].0 == title
}

/// `s` after the link `url` is recorded under `title`: a title already there
/// keeps its place and takes the new link, a new title comes last.
pub open spec fn with_link(s: Seq<(Seq<char>, Seq<char>)>, title: Seq<char>, url: Seq<char>) -> Seq<
    (Seq<char>, Seq<char>),
> {
    if has_title(s, title) {
        s.update(title_index(s, title), (title, url))
    } else {
        s.push((title, url))
    }
}

/// The links of `s` by title.
pub open spec fn link_map(s: Seq<(Seq<char>, Seq<char>)>) -> Map<Seq<char>, Seq<char>> {
    Map::new(|t: Seq<char>| has_title(s, t), |t: Seq<char>| s[title_index(s, t)].1)
}

impl View for LinkSet {
    type V = Seq<(Seq<char>, Seq<char>)>;

    closed spec fn view(&self) -> Seq<(Seq<char>, Seq<char>)> {
        self.entries@.map_values(|e: (String, String)| entry_view(e))
    }
}

impl LinkSet {
    /// The set's invariant.
    pub open spec fn wf(&self) -> bool {
        distinct_titles(self@)
    }

    pub fn new() -> (s: LinkSet)
        ensures
            s.wf(),
            s@ == Seq::<(Seq<char>, Seq<char>)>::empty(),
    {
        let s = LinkSet { entries: Vec::new() };
        assert(s@ =~= Seq::<(Seq<char>, Seq<char>)>::empty());
        s
    }

    pub fn len(&self) -> (n: usize)
        ensures
            n == self@.len(),
    {
        self.entries.len()
    }

    /// The title and link at position `i`.
    pub fn entry(&self, i: usize) -> (e: (&str, &str))
        requires
            i < self@.len(),
        ensures
            e.0@ == self@[i as int].0,
            e.1@ == self@[i as int].1,
    {
        let e = &self.entries[i];
        (e.0.as_str(), e.1.as_str())
    }

    /// Records `url` under `title`.
    pub fn insert(&mut self, title: String, url: String)
        requires
            old(self).wf(),
        ensures
            final(self).wf(),
            final(self)@ == with_link(old(self)@, title@, url@),
    {
        let ghost s = self@;
        assert(s == old(self)@);
        let mut i: usize = 0;
        while i < self.entries.len()
            invariant
                self@ == s,
                s == old(self)@,
                distinct_titles(s),
                i <= self.entries@.len(),
                s.len() == self.entries@.len(),
                forall|j: int| 0 <= j < i ==> #[trigger] s[j].0 != title@,
            decreases self.entries.len() - i,
        {
            assert(s[i as int] == entry_view(self.entries@[i as int]));
            if eq_str(self.entries[i].0.as_str(), title.as_str()) {
                proof {
                    assert(s[i as int].0 == title@);
                    assert(has_title(s, title@));
                    let k = title_index(s, title@);
                    assert(s[k].0 == title@);
                    assert(k == i as int);
                    assert(title_index(s, title@) == i as int);
                }
                let ghost tv = title@;
                let ghost uv = url@;
                self.entries.set(i, (title, url));
                proof {
                    assert(self@ =~= s.update(i as int, (tv, uv)));
                    assert forall|a: int, b: int|
                        0 <= a < self@.len() && 0 <= b < self@.len() && a != b implies #[trigger] self@[a].0
                        != #[trigger] self@[b].0 by {
                        if a != i as int && b != i as int {
                            assert(s[a] == self@[a]);
                            assert(s[b] == self@[b]);
                        } else if a == i as int {
                            assert(s[b] == self@[b]);
                        } else {
                            assert(s[a] == self@[a]);
                        }
                    }
                    assert(self@ == with_link(s, tv, uv));
                }
                return;
            }
            i = i + 1;
        }
        proof {
            assert(!has_title(s, title@));
        }
        let ghost tv = title@;
        let ghost uv = url@;
        self.entries.push((title, url));
        proof {
            assert(self@ =~= s.push((tv, uv)));
            assert forall|a: int, b: int|
                0 <= a < self@.len() && 0 <= b < self@.len() && a != b implies #[trigger] self@[a].0
                != #[trigger] self@[b].0 by {
                if a < s.len() && b < s.len() {
                    assert(s[a] == self@[a]);
                    assert(s[b] == self@[b]);
                } else if a < s.len() {
                    assert(s[a] == self@[a]);
                } else {
                    assert(s[b] == self@[b]);
                }
            }
        }
    }
}

/// Recording a link keeps every title once, and the links by title are those
/// of before with the new title now leading to the new link.
pub proof fn lemma_with_link_map(s: Seq<(Seq<char>, Seq<char>)>, title: Seq<char>, url: Seq<char>)
    requires
        distinct_titles(s),
    ensures
        distinct_titles(with_link(s, title, url)),
        link_map(with_link(s, title, url)) == link_map(s).insert(title, url),
{
    let t = with_link(s, title, url);
    if has_title(s, title) {
        let k = title_index(s, title);
        assert(s[k].0 == title);
        assert forall|a: int, b: int| 0 <= a < t.len() && 0 <= b < t.len() && a != b implies #[trigger] t[a].0
            != #[trigger] t[b].0 by {
            if a != k && b != k {
            } else if a == k {
                assert(s[b].0 != s[k].0);
            } else {
                assert(s[a].0 != s[k].0);
            }
        }
        assert forall|x: Seq<char>| has_title(t, x) <==> #[trigger] has_title(s, x) || x == title by {
            if has_title(s, x) {
                let j = title_index(s, x);
                if j == k {
                    assert(t[k].0 == x);
                } else {
                    assert(t[j].0 == x);
                }
            }
            if has_title(t, x) {
                let j = title_index(t, x);
                if j != k {
                    assert(s[j].0 == x);
                }
            }
        }
        assert(link_map(t) =~= link_map(s).insert(title, url)) by {
            assert forall|x: Seq<char>| #[trigger] link_map(t).dom().contains(x) implies link_map(t)[x]
                == link_map(s).insert(title, url)[x] by {
                let j = title_index(t, x);
                if x == title {
                    assert(t[k].0 == title);
                    assert(j == k);
                } else {
                    assert(j != k);
                    assert(s[j].0 == x);
                    assert(has_title(s, x));
                    assert(title_index(s, x) == j);
                }
            }
        }
    } else {
        assert forall|a: int, b: int| 0 <= a < t.len() && 0 <= b < t.len() && a != b implies #[trigger] t[a].0
            != #[trigger] t[b].0 by {
            if a < s.len() && b < s.len() {
            } else if a < s.len() {
                assert(t[b].0 == title);
                assert(t[a] == s[a]);
                assert(!(s[a].0 == title));
            } else {
                assert(t[a].0 == title);
                assert(t[b] == s[b]);
                assert(!(s[b].0 == title));
            }
        }
        assert forall|x: Seq<char>| has_title(t, x) <==> #[trigger] has_title(s, x) || x == title by {
            if has_title(s, x) {
                let j = title_index(s, x);
                assert(t[j] == s[j]);
            }
            if x == title {
                assert(t[s.len() as int].0 == title);
            }
            if has_title(t, x) {
                let j = title_index(t, x);
                if j < s.len() {
                    assert(s[j] == t[j]);
                }
            }
        }
        assert(link_map(t) =~= link_map(s).insert(title, url)) by {
            assert forall|x: Seq<char>| #[trigger] link_map(t).dom().contains(x) implies link_map(t)[x]
                == link_map(s).insert(title, url)[x] by {
                let j = title_index(t, x);
                if x == title {
                    assert(t[s.len() as int].0 == title);
                    assert(j == s.len());
                } else {
                    assert(j < s.len());
                    assert(s[j] == t[j]);
                    assert(has_title(s, x));
                    assert(title_index(s, x) == j);
                }
            }
        }
    }
}

/// Records under the title of each page title (with the link's fragment) the
/// link `url` whose page is `page`. False, with nothing recorded, when a
/// pattern does not compile.
pub fn add_page_links(links: &mut LinkSet, url: &str, page: &str) -> (ok: bool)
    requires
        old(links).wf(),
    ensures
        final(links).wf(),
        ok == (regex_compiles(fragment_pattern()) && regex_compiles(title_pattern())),
        !ok ==> final(links)@ == old(links)@,
        ok ==> {
            let all = regex_captured_all(title_pattern(), html_decoded(page@), "title"@);
            let hash = regex_captured_first(fragment_pattern(), url@, "hash"@);
            final(links)@ == added_titles(old(links)@, all.map_values(|o: Option<Seq<char>>| link_text_spec(captured_text(o), hash)), url@)
        },
{
    let hash = url_fragment(url);
    let hash = match hash {
        None => return false,
        Some(h) => h,
    };
    let titles = page_titles(page);
    let titles = match titles {
        None => return false,
        Some(t) => t,
    };
    let ghost all = regex_captured_all(title_pattern(), html_decoded(page@), "title"@);
    let ghost hv = regex_captured_first(fragment_pattern(), url@, "hash"@);
    let ghost texts = all.map_values(|o: Option<Seq<char>>| link_text_spec(captured_text(o), hv));
    let ghost start = links@;
    let mut i: usize = 0;
    while i < titles.len()
        invariant
            i <= titles@.len(),
            titles@.len() == all.len(),
            texts.len() == all.len(),
            texts == all.map_values(|o: Option<Seq<char>>| link_text_spec(captured_text(o), hv)),
            forall|j: int| 0 <= j < titles@.len() ==> #[trigger] titles@[j]@ == captured_text(all[j]),
            match hash {
                Some(s) => hv == Some(s@),
                None => hv is None,
            },
            links.wf(),
            links@ == added_titles(start, texts.subrange(0, i as int), url@),
        decreases titles.len() - i,
    {
        let text = match &hash {
            Some(h) => link_text(titles[i].as_str(), Some(h.as_str())),
            None => link_text(titles[i].as_str(), None),
        };
        assert(text@ == texts[i as int]);
        links.insert(text, to_owned_string(url));
        proof {
            let sub = texts.subrange(0, i + 1);
            assert(sub.drop_last() =~= texts.subrange(0, i as int));
            assert(sub.last() == texts[i as int]);
        }
        i = i + 1;
    }
    assert(texts.subrange(0, i as int) =~= texts);
    true
}

/// `s` after each title of `titles`, in order, is recorded with the link `url`.
pub open spec fn added_titles(
    s: Seq<(Seq<char>, Seq<char>)>,
    titles: Seq<Seq<char>>,
    url: Seq<char>,
) -> Seq<(Seq<char>, Seq<char>)>
    decreases titles.len(),
{
    if titles.len() == 0 {
        s
    } else {
        with_link(added_titles(s, titles.drop_last(), url), titles.last(), url)
    }
}

/// A thread found by the thread search: its title, server and id.
pub struct ThreadHit {
    pub title: String,
    pub guild_id: u64,
    pub id: u64,
}

pub open spec fn hit_links(
    s: Seq<(Seq<char>, Seq<char>)>,
    hits: Seq<ThreadHit>,
) -> Seq<(Seq<char>, Seq<char>)>
    decreases hits.len(),
{
    if hits.len() == 0 {
        s
    } else {
        let h = hits.last();
        with_link(hit_links(s, hits.drop_last()), h.title@, thread_link_spec(h.guild_id, h.id))
    }
}

/// How many threads of the thread search are suggested.
pub const THREAD_HITS: usize = 5;

/// The hits that are suggested: the first `THREAD_HITS` of them.
pub open spec fn kept_hits(hits: Seq<ThreadHit>) -> Seq<ThreadHit> {
    if hits.len() <= THREAD_HITS {
        hits
    } else {
        hits.take(THREAD_HITS as int)
    }
}

/// At most five threads are suggested, the first ones found, in order.
pub proof fn lemma_kept_hits(hits: Seq<ThreadHit>)
    ensures
        kept_hits(hits).len() <= 5,
        kept_hits(hits).len() == hits.len() || kept_hits(hits).len() == 5,
        forall|i: int| 0 <= i < kept_hits(hits).len() ==> #[trigger] kept_hits(hits)[i] == hits[i],
{
}

/// Records each of the first `THREAD_HITS` threads found under its title,
/// linking to the thread.
pub fn add_thread_links(links: &mut LinkSet, hits: &[ThreadHit])
    requires
        old(links).wf(),
    ensures
        final(links).wf(),
        final(links)@ == hit_links(old(links)@, kept_hits(hits@)),
{
    let ghost start = links@;
    let n = if hits.len() < THREAD_HITS {
        hits.len()
    } else {
        THREAD_HITS
    };
    let mut i: usize = 0;
    while i < n
        invariant
            n <= hits@.len(),
            n == kept_hits(hits@).len(),
            i <= n,
            links.wf(),
            links@ == hit_links(start, hits@.subrange(0, i as int)),
        decreases n - i,
    {
        let h = &hits[i];
        let link = thread_link(h.guild_id, h.id);
        links.insert(to_owned_string(h.title.as_str()), link);
        proof {
            let sub = hits@.subrange(0, i + 1);
            assert(sub.drop_last() =~= hits@.subrange(0, i as int));
            assert(sub.last() == hits@[i as int]);
        }
        i = i + 1;
    }
    assert(hits@.subrange(0, i as int) =~= kept_hits(hits@));
}

/// The text above the suggestion buttons.
pub open spec fn links_intro_spec(name: Seq<char>) -> Seq<char> {
    name + ", I found some relevant links which might help to self-serve, please do check them out below 🙏:"@
}

pub fn links_intro(name: &str) -> (r: String)
    ensures
        r@ == links_intro_spec(name@),
{
    let mut r = to_owned_string(name);
    push_str(
        &mut r,
        ", I found some relevant links which might help to self-serve, please do check them out below 🙏:",
    );
    r
}

/// Where a suggested link leads, which picks the emoji of its button.
#[derive(PartialEq, Eq, Structural, Clone, Copy, Debug)]
pub enum LinkSource {
    Gitpod,
    Github,
    Discord,
}

pub open spec fn source_of(url: Seq<char>) -> LinkSource {
    if has_prefix(url, "https://www.gitpod.io"@) {
        LinkSource::Gitpod
    } else if has_prefix(url, "https://github.com"@) {
        LinkSource::Github
    } else {
        LinkSource::Discord
    }
}

pub fn link_source(url: &str) -> (r: LinkSource)
    ensures
        r == source_of(url@),
{
    if starts_with_str(url, "https://www.gitpod.io") {
        LinkSource::Gitpod
    } else if starts_with_str(url, "https://github.com") {
        LinkSource::Github
    } else {
        LinkSource::Discord
    }
}

/// A suggestion button: its label, the link it stands for (with a random
/// query key that keeps ids apart) and where the link leads.
pub struct SuggestionButton {
    pub label: String,
    pub custom_id: String,
    pub source: LinkSource,
}

pub open spec fn button_view(b: SuggestionButton) -> (Seq<char>, Seq<char>, LinkSource) {
    (b.label@, b.custom_id@, b.source)
}

pub open spec fn buttons_view(row: Seq<SuggestionButton>) -> Seq<(Seq<char>, Seq<char>, LinkSource)> {
    row.map_values(|b: SuggestionButton| button_view(b))
}

/// The button for the link `url` titled `title`, given the random `key`.
pub open spec fn button_spec(title: Seq<char>, url: Seq<char>, key: Seq<char>) -> (Seq<char>, Seq<char>, LinkSource) {
    (prefix_chars(title, 80), prefix_chars(url_with_query_key(url, key), 100), source_of(url))
}

/// The buttons of one row: one per link that parses as a URL, in order.
pub open spec fn row_spec(entries: Seq<(Seq<char>, Seq<char>)>, keys: Seq<Seq<char>>) -> Seq<
    (Seq<char>, Seq<char>, LinkSource),
>
    decreases entries.len(),
{
    if entries.len() == 0 {
        Seq::empty()
    } else {
        let n = entries.len() - 1;
        let before = row_spec(entries.take(n), keys);
        if url_parses(entries[n].1) {
            before.push(button_spec(entries[n].0, entries[n].1, keys[n]))
        } else {
            before
        }
    }
}

/// At most this many rows of suggestions, of at most `ROW_LINKS` links each.
pub const MAX_ROWS: usize = 2;

pub const ROW_LINKS: usize = 5;

pub open spec fn row_count(n: nat) -> nat {
    if n == 0 {
        0
    } else if n <= ROW_LINKS {
        1
    } else {
        MAX_ROWS as nat
    }
}

pub open spec fn row_end(n: nat, r: int) -> int {
    if (r + 1) * ROW_LINKS < n {
        (r + 1) * ROW_LINKS
    } else {
        n as int
    }
}

/// `rows` are the suggestion rows for the links `links` with the query keys `keys`.
pub open spec fn rows_match(
    rows: Seq<Vec<SuggestionButton>>,
    links: Seq<(Seq<char>, Seq<char>)>,
    keys: Seq<Seq<char>>,
) -> bool {
    &&& rows.len() == row_count(links.len())
    &&& forall|r: int| 0 <= r < rows.len() ==> #[trigger] buttons_view(rows[r]@) == row_spec(
        links.subrange(r * ROW_LINKS, row_end(links.len(), r)),
        keys.subrange(r * ROW_LINKS, row_end(links.len(), r)),
    )
}

proof fn lemma_row_len(entries: Seq<(Seq<char>, Seq<char>)>, keys: Seq<Seq<char>>)
    ensures
        row_spec(entries, keys).len() <= entries.len(),
    decreases entries.len(),
{
    if entries.len() > 0 {
        lemma_row_len(entries.take(entries.len() - 1), keys);
    }
}

/// Suggestions come in at most two rows of at most five buttons.
pub proof fn lemma_rows_bounded(
    rows: Seq<Vec<SuggestionButton>>,
    links: Seq<(Seq<char>, Seq<char>)>,
    keys: Seq<Seq<char>>,
)
    requires
        rows_match(rows, links, keys),
    ensures
        rows.len() <= MAX_ROWS,
        forall|r: int| 0 <= r < rows.len() ==> (#[trigger] rows[r])@.len() <= ROW_LINKS,
{
    assert forall|r: int| 0 <= r < rows.len() implies (#[trigger] rows[r])@.len() <= ROW_LINKS by {
        let e = links.subrange(r * ROW_LINKS, row_end(links.len(), r));
        let k = keys.subrange(r * ROW_LINKS, row_end(links.len(), r));
        lemma_row_len(e, k);
        assert(buttons_view(rows[r]@).len() == rows[r]@.len());
    }
}

/// The suggestion rows for `links` in their order: the first five links make
/// the first row, the next five the second; `keys[i]` is the query key of the
/// `i`-th link.
pub fn suggestion_rows(links: &LinkSet, keys: &Vec<String>) -> (rows: Vec<Vec<SuggestionButton>>)
    requires
        keys@.len() >= links@.len() || keys@.len() >= MAX_ROWS * ROW_LINKS,
    ensures
        rows_match(rows@, links@, keys@.map_values(|k: String| k@)),
{
    let n = links.len();
    let ghost kv = keys@.map_values(|k: String| k@);
    let mut rows: Vec<Vec<SuggestionButton>> = Vec::new();
    let mut r: usize = 0;
    while r < MAX_ROWS && r * ROW_LINKS < n
        invariant
            n == links@.len(),
            r <= MAX_ROWS,
            r * ROW_LINKS <= n || r == row_count(n as nat),
            r <= row_count(n as nat),
            kv == keys@.map_values(|k: String| k@),
            keys@.len() >= links@.len() || keys@.len() >= MAX_ROWS * ROW_LINKS,
            rows@.len() == r,
            forall|q: int| 0 <= q < r ==> #[trigger] buttons_view(rows@[q]@)
                == row_spec(
                    links@.subrange(q * ROW_LINKS, row_end(n as nat, q)),
                    kv.subrange(q * ROW_LINKS, row_end(n as nat, q)),
                ),
        decreases MAX_ROWS - r,
    {
        let start = r * ROW_LINKS;
        let end = if start + ROW_LINKS < n { start + ROW_LINKS } else { n };
        assert(end == row_end(n as nat, r as int));
        let ghost es = links@.subrange(start as int, end as int);
        let ghost ks = kv.subrange(start as int, end as int);
        let mut row: Vec<SuggestionButton> = Vec::new();
        let mut i: usize = start;
        while i < end
            invariant
                start <= i <= end,
                end <= n,
                n == links@.len(),
                end <= keys@.len(),
                start == r * ROW_LINKS,
                r < MAX_ROWS,
                es == links@.subrange(start as int, end as int),
                ks == kv.subrange(start as int, end as int),
                kv == keys@.map_values(|k: String| k@),
                buttons_view(row@) == row_spec(
                    es.take(i - start),
                    ks,
                ),
            decreases end - i,
        {
            let (title, url) = links.entry(i);
            let parsed = add_query_key(url, keys[i].as_str());
            proof {
                let t = es.take(i - start + 1);
                assert(t.take(i - start) =~= es.take(i - start));
                assert(t[i - start] == links@[i as int]);
                assert(ks[i - start] == keys@[i as int]@);
            }
            match parsed {
                Some(full) => {
                    let b = SuggestionButton {
                        label: prefix_string(title, 80),
                        custom_id: prefix_string(full.as_str(), 100),
                        source: link_source(url),
                    };
                    let ghost before = row@;
                    row.push(b);
                    assert(buttons_view(row@) =~= buttons_view(before).push(button_view(b)));
                },
                None => {},
            }
            i = i + 1;
        }
        assert(es.take(end - start) =~= es);
        rows.push(row);
        proof {
            assert forall|q: int| 0 <= q < r + 1 implies #[trigger] buttons_view(rows@[q]@) == row_spec(
                links@.subrange(q * ROW_LINKS, row_end(n as nat, q)),
                kv.subrange(q * ROW_LINKS, row_end(n as nat, q)),
            ) by {
                if q == r {
                }
            }
        }
        r = r + 1;
    }
    rows
}

/// A query key as `random_key` makes it: four ASCII letters or digits.
pub open spec fn is_random_key(k: Seq<char>) -> bool {
    k.len() == 4 && forall|i: int| 0 <= i < 4 ==> is_ascii_alphanumeric(#[trigger] k[i])
}

/// Builds the suggestion rows with a fresh random key for each link shown.
pub fn suggestion_rows_keyed(links: &LinkSet) -> (rows: Vec<Vec<SuggestionButton>>)
    ensures
        exists|keys: Seq<Seq<char>>|
            keys.len() >= links@.len() && (forall|i: int| 0 <= i < keys.len() ==> is_random_key(#[trigger] keys[i]))
                && #[trigger] rows_match(rows@, links@, keys),
{
    let n = links.len();
    let mut keys: Vec<String> = Vec::new();
    let mut i: usize = 0;
    while i < n
        invariant
            i <= n,
            keys@.len() == i,
            forall|j: int| 0 <= j < i ==> is_random_key((#[trigger] keys@[j])@),
        decreases n - i,
    {
        keys.push(random_key());
        i = i + 1;
    }
    let rows = suggestion_rows(links, &keys);
    let ghost kv = keys@.map_values(|k: String| k@);
    assert(forall|j: int| 0 <= j < kv.len() ==> is_random_key(#[trigger] kv[j]));
    assert(rows_match(rows@, links@, kv));
    rows
}

/// The request for details, after the suggestions.
pub open spec fn info_request_spec(user: u64, in_secondary: bool) -> Seq<char> {
    "> "@ + user_mention(user) + " **You can share the following (if applies):**\n"@ + (if !in_secondary {
        "• Contents of your `.gitpod.yml`\n• Contents of your `.gitpod.Dockerfile`\n• An example repository link\n"@
    } else {
        "• Contents of your `config.yml`\n• Result of:```bash\nkubectl get pods -n <namespace>```• If you have resources that are set up strangely, please run `kubectl describe` on the resource\n"@
    }) + "\n> ✨ **NEW:** Try our experimental Gitpod Docs AI!\n"@
}

pub fn info_request(user: u64, in_secondary: bool) -> (r: String)
    ensures
        r@ == info_request_spec(user, in_secondary),
{
    let mut r = to_owned_string("> ");
    push_user_mention(&mut r, user);
    push_str(&mut r, " **You can share the following (if applies):**\n");
    if !in_secondary {
        push_str(
            &mut r,
            "• Contents of your `.gitpod.yml`\n• Contents of your `.gitpod.Dockerfile`\n• An example repository link\n",
        );
    } else {
        push_str(
            &mut r,
            "• Contents of your `config.yml`\n• Result of:```bash\nkubectl get pods -n <namespace>```• If you have resources that are set up strangely, please run `kubectl describe` on the resource\n",
        );
    }
    push_str(&mut r, "\n> ✨ **NEW:** Try our experimental Gitpod Docs AI!\n");
    r
}

/// The button under the request for details: its label, id and emoji.
pub fn docs_ai_button() -> (r: (&'static str, &'static str, &'static str))
    ensures
        r.0@ == "Ask Gitpod Docs AI"@,
        r.1@ == "question-qa"@,
        r.2@ == "🔍"@,
{
    ("Ask Gitpod Docs AI", "question-qa", "🔍")
}

/// A click on a suggestion button: its id is a link.
pub fn is_suggestion_click(custom_id: &str) -> (r: bool)
    ensures
        r == has_prefix(custom_id@, "http"@),
{
    starts_with_str(custom_id, "http")
}

/// A button of a message, by its id and label, each possibly absent.
pub open spec fn pair_view(b: (Option<String>, Option<String>)) -> (Option<Seq<char>>, Option<Seq<char>>) {
    (
        match b.0 {
            Some(s) => Some(s@),
            None => None,
        },
        match b.1 {
            Some(s) => Some(s@),
            None => None,
        },
    )
}

/// The label of the first button of `row` with id `id` and a label.
pub open spec fn row_label(row: Seq<(Option<Seq<char>>, Option<Seq<char>>)>, id: Seq<char>) -> Option<Seq<char>>
    decreases row.len(),
{
    if row.len() == 0 {
        None
    } else if row[0].0 == Some(id) && row[0].1 is Some {
        row[0].1
    } else {
        row_label(row.drop_first(), id)
    }
}

/// The label of the first button, row by row, with id `id` and a label.
pub open spec fn rows_label(rows: Seq<Seq<(Option<Seq<char>>, Option<Seq<char>>)>>, id: Seq<char>) -> Option<Seq<char>>
    decreases rows.len(),
{
    if rows.len() == 0 {
        None
    } else {
        match row_label(rows[0], id) {
            Some(l) => Some(l),
            None => rows_label(rows.drop_first(), id),
        }
    }
}

pub open spec fn rows_view(rows: Seq<Vec<(Option<String>, Option<String>)>>) -> Seq<Seq<(Option<Seq<char>>, Option<Seq<char>>)>> {
    rows.map_values(|row: Vec<(Option<String>, Option<String>)>| row@.map_values(|b: (Option<String>, Option<String>)| pair_view(b)))
}

fn find_in_row(row: &Vec<(Option<String>, Option<String>)>, id: &str) -> (r: Option<String>)
    ensures
        match r {
            Some(s) => row_label(row@.map_values(|b: (Option<String>, Option<String>)| pair_view(b)), id@) == Some(s@),
            None => row_label(row@.map_values(|b: (Option<String>, Option<String>)| pair_view(b)), id@) is None,
        },
{
    let ghost v = row@.map_values(|b: (Option<String>, Option<String>)| pair_view(b));
    let mut i: usize = 0;
    assert(v.subrange(0, v.len() as int) =~= v);
    while i < row.len()
        invariant
            i <= row@.len(),
            v == row@.map_values(|b: (Option<String>, Option<String>)| pair_view(b)),
            row_label(v, id@) == row_label(v.subrange(i as int, v.len() as int), id@),
        decreases row.len() - i,
    {
        let ghost rest = v.subrange(i as int, v.len() as int);
        assert(rest[0] == pair_view(row@[i as int]));
        assert(rest.drop_first() =~= v.subrange(i + 1, v.len() as int));
        let (cid, label) = &row[i];
        match (cid, label) {
            (Some(c), Some(l)) => {
                if eq_str(c.as_str(), id) {
                    return Some(to_owned_string(l.as_str()));
                }
            },
            _ => {},
        }
        i = i + 1;
    }
    assert(v.subrange(i as int, v.len() as int).len() == 0);
    None
}

/// The label of the button that was clicked: the first button, row by row,
/// whose id is `id` and that has a label.
pub fn find_button_label(rows: &Vec<Vec<(Option<String>, Option<String>)>>, id: &str) -> (r: Option<String>)
    ensures
        match r {
            Some(s) => rows_label(rows_view(rows@), id@) == Some(s@),
            None => rows_label(rows_view(rows@), id@) is None,
        },
{
    let ghost v = rows_view(rows@);
    let mut i: usize = 0;
    assert(v.subrange(0, v.len() as int) =~= v);
    while i < rows.len()
        invariant
            i <= rows@.len(),
            v == rows_view(rows@),
            rows_label(v, id@) == rows_label(v.subrange(i as int, v.len() as int), id@),
        decreases rows.len() - i,
    {
        let ghost rest = v.subrange(i as int, v.len() as int);
        assert(rest[0] == rows@[i as int]@.map_values(|b: (Option<String>, Option<String>)| pair_view(b)));
        assert(rest.drop_first() =~= v.subrange(i + 1, v.len() as int));
        let found = find_in_row(&rows[i], id);
        if let Some(l) = found {
            return Some(l);
        }
        i = i + 1;
    }
    assert(v.subrange(i as int, v.len() as int).len() == 0);
    None
}

/// The private answer to a click on a suggestion: the user and the label.
pub open spec fn suggestion_reply_spec(user: u64, label: Seq<char>) -> Seq<char> {
    user_mention(user) + ": "@ + label
}

pub fn suggestion_reply(user: u64, label: &str) -> (r: String)
    ensures
        r@ == suggestion_reply_spec(user, label@),
{
    let mut r = String::new();
    push_user_mention(&mut r, user);
    push_str(&mut r, ": ");
    push_str(&mut r, label);
    r
}

/// The text of the message that lets newcomers in.
pub open spec fn getting_started_text() -> Seq<char> {
    "**Press the button below** 👇 to gain access to the server"@
}

/// No message of the channel (their texts, `contents`) is the getting-started message.
pub open spec fn placeholder_missing(contents: Seq<Seq<char>>) -> bool {
    !(exists|i: int| 0 <= i < contents.len() && #[trigger] contents[i] == getting_started_text())
}

/// The getting-started message is posted only when no message of the channel
/// already is it.
pub fn getting_started_missing(contents: &Vec<String>) -> (r: bool)
    ensures
        r == placeholder_missing(views_of(contents@)),
{
    proof {
        reveal_strlit("**Press the button below** 👇 to gain access to the server");
    }
    let text = "**Press the button below** 👇 to gain access to the server";
    assert(text@ == getting_started_text());
    let mut i: usize = 0;
    while i < contents.len()
        invariant
            i <= contents@.len(),
            text@ == getting_started_text(),
            forall|j: int| 0 <= j < i ==> #[trigger] contents@[j]@ != getting_started_text(),
        decreases contents.len() - i,
    {
        if eq_str(contents[i].as_str(), text) {
            assert(views_of(contents@)[i as int] == getting_started_text());
            return false;
        }
        i = i + 1;
    }
    assert forall|j: int| 0 <= j < views_of(contents@).len() implies #[trigger] views_of(contents@)[j]
        != getting_started_text() by {
        assert(contents@[j]@ != getting_started_text());
    }
    true
}

/// The request for details that the help button used to answer with.
pub open spec fn issue_form_text_spec(user: u64, in_selfhosted: bool) -> Seq<char> {
    "> "@ + user_mention(user) + " **Please share the following (if applies):**\n"@ + (if !in_selfhosted {
        "• Contents of your `.gitpod.yml`\n• Contents of your `.gitpod.Dockerfile\n• An example repository link\n"@
    } else {
        "• Contents of your `config.yml`\n• Result of:\n```bash\nkubectl get pods -n <namespace>\n```\n"@
    })
}

pub fn issue_form_text(user: u64, in_selfhosted: bool) -> (r: String)
    ensures
        r@ == issue_form_text_spec(user, in_selfhosted),
{
    let mut r = to_owned_string("> ");
    push_user_mention(&mut r, user);
    push_str(&mut r, " **Please share the following (if applies):**\n");
    if !in_selfhosted {
        push_str(
            &mut r,
            "• Contents of your `.gitpod.yml`\n• Contents of your `.gitpod.Dockerfile\n• An example repository link\n",
        );
    } else {
        push_str(&mut r, "• Contents of your `config.yml`\n• Result of:\n```bash\nkubectl get pods -n <namespace>\n```\n");
    }
    r
}

/// The button of the getting-started message: its label, id and emoji.
pub fn getting_started_button() -> (r: (&'static str, &'static str, &'static str))
    ensures
        r.0@ == "Let's go"@,
        r.1@ == "getting_started_letsgo"@,
        r.2@ == "🙌"@,
{
    ("Let's go", "getting_started_letsgo", "🙌")
}

/// Once the getting-started message is posted, it is found missing no more:
/// two installs in a row post it at most once.
pub proof fn lemma_getting_started_posted_once(contents: Seq<Seq<char>>)
    ensures
        !placeholder_missing(contents.push(getting_started_text())),
        !placeholder_missing(seq![getting_started_text()] + contents),
{
    let a = contents.push(getting_started_text());
    assert(a[contents.len() as int] == getting_started_text());
    let b = seq![getting_started_text()] + contents;
    assert(b[0] == getting_started_text());
}

} // verus!

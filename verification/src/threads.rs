//! Forum threads as the thread search indexes them.
use vstd::prelude::*;
use crate::decimal::{decimal, push_decimal};
use crate::faq::attachment_lines;
use crate::pattern::{regex_compiles, regex_replaced_first, regex_replace_first};
use crate::text::{push_str, to_owned_string};

verus! {

/// A thread as it is indexed for search.
pub struct Thread {
    pub title: String,
    /// The thread's messages, oldest first.
    pub messages: Vec<String>,
    pub tags: Vec<String>,
    pub author_id: u64,
    pub id: u64,
    pub guild_id: u64,
    pub parent_channel_id: u64,
    /// Seconds since the Unix epoch.
    pub timestamp: i64,
    /// The same instant, as RFC 3339 text.
    pub date: String,
    /// The author's avatar.
    pub poster: String,
}

/// A tag that a forum channel offers.
pub struct ForumTag {
    pub id: u64,
    pub name: String,
}

pub open spec fn tags_view(tags: Seq<ForumTag>) -> Seq<(u64, Seq<char>)> {
    tags.map_values(|t: ForumTag| (t.id, t.name@))
}

/// The name of the first offered tag with id `id`.
pub open spec fn tag_name(available: Seq<(u64, Seq<char>)>, id: u64) -> Option<Seq<char>>
    decreases available.len(),
{
    if available.len() == 0 {
        None
    } else if available[0].0 == id {
        Some(available[0].1)
    } else {
        tag_name(available.drop_first(), id)
    }
}

/// The names of the applied tags, in their order; an id the channel does not
/// offer is left out.
pub open spec fn tag_names(applied: Seq<u64>, available: Seq<(u64, Seq<char>)>) -> Seq<Seq<char>>
    decreases applied.len(),
{
    if applied.len() == 0 {
        Seq::empty()
    } else {
        let before = tag_names(applied.drop_last(), available);
        match tag_name(available, applied.last()) {
            Some(n) => before.push(n),
            None => before,
        }
    }
}

fn find_tag(available: &Vec<ForumTag>, id: u64) -> (r: Option<String>)
    ensures
        match r {
            Some(s) => tag_name(tags_view(available@), id) == Some(s@),
            None => tag_name(tags_view(available@), id) is None,
        },
{
    let ghost v = tags_view(available@);
    let mut i: usize = 0;
    assert(v.subrange(0, v.len() as int) =~= v);
    while i < available.len()
        invariant
            i <= available@.len(),
            v == tags_view(available@),
            tag_name(v, id) == tag_name(v.subrange(i as int, v.len() as int), id),
        decreases available.len() - i,
    {
        let ghost rest = v.subrange(i as int, v.len() as int);
        assert(rest[0] == (available@[i as int].id, available@[i as int].name@));
        assert(rest.drop_first() =~= v.subrange(i + 1, v.len() as int));
        if available[i].id == id {
            return Some(to_owned_string(available[i].name.as_str()));
        }
        i = i + 1;
    }
    assert(v.subrange(i as int, v.len() as int).len() == 0);
    None
}

pub fn applied_tag_names(applied: &Vec<u64>, available: &Vec<ForumTag>) -> (r: Vec<String>)
    ensures
        r@.map_values(|s: String| s@) == tag_names(applied@, tags_view(available@)),
{
    let mut r: Vec<String> = Vec::new();
    let mut i: usize = 0;
    while i < applied.len()
        invariant
            i <= applied@.len(),
            r@.map_values(|s: String| s@) == tag_names(applied@.subrange(0, i as int), tags_view(available@)),
        decreases applied.len() - i,
    {
        let found = find_tag(available, applied[i]);
        let ghost before = r@.map_values(|s: String| s@);
        proof {
            let sub = applied@.subrange(0, i + 1);
            assert(sub.drop_last() =~= applied@.subrange(0, i as int));
            assert(sub.last() == applied@[i as int]);
        }
        match found {
            Some(n) => {
                let ghost nv = n@;
                r.push(n);
                assert(r@.map_values(|s: String| s@) =~= before.push(nv));
            },
            None => {},
        }
        i = i + 1;
    }
    assert(applied@.subrange(0, i as int) =~= applied@);
    r
}

/// When a thread started: its creation time, else its archiving time, else
/// the time its id was made.
pub fn thread_time(created: Option<i64>, archived: Option<i64>, id_time: i64) -> (r: i64)
    ensures
        r == (match created {
            Some(t) => t,
            None => match archived {
                Some(t) => t,
                None => id_time,
            },
        }),
{
    match created {
        Some(t) => t,
        None => match archived {
            Some(t) => t,
            None => id_time,
        },
    }
}

/// Messages of bots and notices of a renamed thread are left out.
pub fn skips_message(from_bot: bool, is_rename_notice: bool) -> (r: bool)
    ensures
        r == (from_bot || is_rename_notice),
{
    from_bot || is_rename_notice
}

/// One message of a thread in the index: author, text (with a newline before
/// its first code fence) and, where there are any, attachments.
pub open spec fn indexed_message_spec(
    name: Seq<char>,
    discriminator: u16,
    content: Seq<char>,
    urls: Seq<Seq<char>>,
) -> Seq<char> {
    let text = regex_replaced_first("```"@, content, "\n```"@);
    let head = "**"@ + name + "#"@ + decimal(discriminator as nat) + "**: "@ + text;
    if urls.len() == 0 {
        head
    } else {
        head + "\n"@ + attachment_lines(urls)
    }
}

/// A message's index entry is its author line, then, when it has attachments,
/// a newline and each attachment link on a line of its own: the first
/// attachment adds a newline, its link and a newline; each further one adds
/// its link and a newline.
pub proof fn lemma_indexed_message_attachments(
    name: Seq<char>,
    discriminator: u16,
    content: Seq<char>,
    urls: Seq<Seq<char>>,
    url: Seq<char>,
)
    ensures
        indexed_message_spec(name, discriminator, content, Seq::empty()) == "**"@ + name + "#"@
            + decimal(discriminator as nat) + "**: "@ + regex_replaced_first("```"@, content, "\n```"@),
        urls.len() == 0 ==> indexed_message_spec(name, discriminator, content, urls.push(url))
            == indexed_message_spec(name, discriminator, content, urls) + "\n"@ + url + "\n"@,
        urls.len() > 0 ==> indexed_message_spec(name, discriminator, content, urls.push(url))
            == indexed_message_spec(name, discriminator, content, urls) + url + "\n"@,
{
    assert(urls.push(url).drop_last() =~= urls);
    let head = "**"@ + name + "#"@ + decimal(discriminator as nat) + "**: "@ + regex_replaced_first(
        "```"@,
        content,
        "\n```"@,
    );
    if urls.len() == 0 {
        assert(attachment_lines(urls) =~= Seq::<char>::empty());
        assert(indexed_message_spec(name, discriminator, content, urls.push(url)) =~= head + "\n"@ + (
        Seq::<char>::empty() + url + "\n"@));
    } else {
        assert(indexed_message_spec(name, discriminator, content, urls.push(url)) =~= head + "\n"@ + (
        attachment_lines(urls) + url + "\n"@));
    }
}

/// `None` when the code-fence pattern does not compile.
pub fn indexed_message(name: &str, discriminator: u16, content: &str, urls: &Vec<String>) -> (r: Option<
    String,
>)
    ensures
        r is Some <==> regex_compiles("```"@),
        r matches Some(s) ==> s@ == indexed_message_spec(
            name@,
            discriminator,
            content@,
            urls@.map_values(|u: String| u@),
        ),
{
    let text = match regex_replace_first("```", content, "\n```") {
        None => return None,
        Some(t) => t,
    };
    let ghost uv = urls@.map_values(|u: String| u@);
    let mut attachments = String::new();
    let mut i: usize = 0;
    while i < urls.len()
        invariant
            i <= urls@.len(),
            uv == urls@.map_values(|u: String| u@),
            attachments@ == attachment_lines(uv.subrange(0, i as int)),
        decreases urls.len() - i,
    {
        push_str(&mut attachments, urls[i].as_str());
        push_str(&mut attachments, "\n");
        proof {
            let sub = uv.subrange(0, i + 1);
            assert(sub.drop_last() =~= uv.subrange(0, i as int));
            assert(sub.last() == urls@[i as int]@);
            assert(attachments@ =~= attachment_lines(sub));
        }
        i = i + 1;
    }
    assert(uv.subrange(0, i as int) =~= uv);
    let mut r = to_owned_string("**");
    push_str(&mut r, name);
    push_str(&mut r, "#");
    push_decimal(&mut r, discriminator as u64);
    push_str(&mut r, "**: ");
    push_str(&mut r, text.as_str());
    if urls.len() > 0 {
        push_str(&mut r, "\n");
        push_str(&mut r, attachments.as_str());
    }
    Some(r)
}

/// The messages, read newest first, put oldest first.
pub fn oldest_first(newest_first: Vec<String>) -> (r: Vec<String>)
    ensures
        r@ == newest_first@.reverse(),
{
    let mut r: Vec<String> = Vec::new();
    let mut i: usize = newest_first.len();
    let mut src = newest_first;
    let ghost orig = src@;
    while i > 0
        invariant
            i <= orig.len(),
            src@ == orig.subrange(0, i as int),
            r@ == orig.subrange(i as int, orig.len() as int).reverse(),
        decreases i,
    {
        let last = src.pop();
        i = i - 1;
        match last {
            Some(m) => {
                r.push(m);
            },
            None => {},
        }
        assert(src@ =~= orig.subrange(0, i as int));
        assert(r@ =~= orig.subrange(i as int, orig.len() as int).reverse());
    }
    assert(orig.subrange(0, orig.len() as int) =~= orig);
    r
}

/// An instant: seconds since the Unix epoch and its RFC 3339 text.
pub open spec fn instant_view(t: (i64, String)) -> (i64, Seq<char>) {
    (t.0, t.1@)
}

/// The instant a thread started: its creation, else its archiving, else the
/// making of its id.
pub open spec fn start_instant(
    created: Option<(i64, Seq<char>)>,
    archived: Option<(i64, Seq<char>)>,
    id_made: (i64, Seq<char>),
) -> (i64, Seq<char>) {
    match created {
        Some(t) => t,
        None => match archived {
            Some(t) => t,
            None => id_made,
        },
    }
}

/// A thread's creation time wins over its archiving time, which wins over the
/// time its id was made.
pub proof fn lemma_start_instant_order(
    created: Option<(i64, Seq<char>)>,
    archived: Option<(i64, Seq<char>)>,
    id_made: (i64, Seq<char>),
)
    ensures
        created matches Some(c) ==> start_instant(created, archived, id_made) == c,
        created is None && archived is Some ==> start_instant(created, archived, id_made) == archived->0,
        created is None && archived is None ==> start_instant(created, archived, id_made) == id_made,
        start_instant(created, archived, id_made) == id_made || (created is Some && start_instant(
            created,
            archived,
            id_made,
        ) == created->0) || (archived is Some && start_instant(created, archived, id_made) == archived->0),
{
}

pub open spec fn opt_instant(t: Option<(i64, String)>) -> Option<(i64, Seq<char>)> {
    match t {
        Some(x) => Some(instant_view(x)),
        None => None,
    }
}

/// The search document of a thread: its title, its messages oldest first (they
/// are read newest first), the names of its applied tags, its author, id,
/// server and parent channel, when it started, and its author's avatar.
pub fn thread_document(
    title: String,
    newest_first: Vec<String>,
    applied: &Vec<u64>,
    available: &Vec<ForumTag>,
    author_id: u64,
    id: u64,
    guild_id: u64,
    parent_channel_id: u64,
    created: Option<(i64, String)>,
    archived: Option<(i64, String)>,
    id_made: (i64, String),
    poster: String,
) -> (t: Thread)
    ensures
        t.title@ == title@,
        t.messages@ == newest_first@.reverse(),
        t.tags@.map_values(|s: String| s@) == tag_names(applied@, tags_view(available@)),
        t.author_id == author_id,
        t.id == id,
        t.guild_id == guild_id,
        t.parent_channel_id == parent_channel_id,
        (t.timestamp, t.date@) == start_instant(opt_instant(created), opt_instant(archived), instant_view(id_made)),
        created matches Some(c) ==> t.timestamp == c.0 && t.date@ == c.1@,
        created is None && archived is Some ==> t.timestamp == (archived->0).0 && t.date@ == (archived->0).1@,
        created is None && archived is None ==> t.timestamp == id_made.0 && t.date@ == id_made.1@,
        t.poster@ == poster@,
{
    let messages = oldest_first(newest_first);
    let tags = applied_tag_names(applied, available);
    let start = match created {
        Some(c) => c,
        None => match archived {
            Some(a) => a,
            None => id_made,
        },
    };
    Thread {
        title,
        messages,
        tags,
        author_id,
        id,
        guild_id,
        parent_channel_id,
        timestamp: start.0,
        date: start.1,
        poster,
    }
}

} // verus!

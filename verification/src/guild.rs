//! What the bot says and decides when it joins a server and when members come
//! and go.
use vstd::prelude::*;
use crate::decimal::{decimal, push_decimal};
use crate::mention::{user_mention, push_user_mention};
use crate::misc::{vowel_gen, is_vowel};
use crate::text::{has_infix, push_str, to_owned_string, contains_str, chars_of, string_of};

verus! {

/// The channel of the home server that hears about new invitations.
pub const HOME_LOG_CHANNEL: u64 = 842668777363865610;

/// How many messages a channel must hold to be greeted in, when the server
/// has no system channel.
pub const BUSY_CHANNEL_MESSAGES: usize = 200;

/// `I was invited to **name** (`id`)`, posted in the home server.
pub open spec fn invited_notice_spec(name: Seq<char>, id: u64) -> Seq<char> {
    "I was invited to **"@ + name + "** (`"@ + decimal(id as nat) + "`)"@
}

pub fn invited_notice(name: &str, id: u64) -> (r: String)
    ensures
        r@ == invited_notice_spec(name@, id),
{
    let mut r = to_owned_string("I was invited to **");
    push_str(&mut r, name);
    push_str(&mut r, "** (`");
    push_decimal(&mut r, id);
    push_str(&mut r, "`)");
    r
}

/// The greeting posted in a server the bot has just joined.
pub open spec fn welcome_text_spec(name: Seq<char>) -> Seq<char> {
    "Optimus at your service to robotify **"@ + name + "**!"@
}

pub fn welcome_text(name: &str) -> (r: String)
    ensures
        r@ == welcome_text_spec(name@),
{
    let mut r = to_owned_string("Optimus at your service to robotify **");
    push_str(&mut r, name);
    push_str(&mut r, "**!");
    r
}

/// A channel is busy when its messages could be read and there are more than
/// `BUSY_CHANNEL_MESSAGES` of them.
pub open spec fn is_busy(entry: (u64, Option<usize>)) -> bool {
    entry.1 is Some && entry.1->0 > BUSY_CHANNEL_MESSAGES
}

/// The first busy channel of `channels`, in their order.
pub open spec fn first_busy(channels: Seq<(u64, Option<usize>)>) -> Option<u64>
    decreases channels.len(),
{
    if channels.len() == 0 {
        None
    } else if is_busy(channels[0]) {
        Some(channels[0].0)
    } else {
        first_busy(channels.drop_first())
    }
}

/// Where the greeting goes: the system channel when the server has one, else
/// the first channel (each given with its id and the number of its messages,
/// `None` where they could not be read) that is busy; nowhere if none is.
pub fn pick_welcome_channel(system: Option<u64>, channels: &[(u64, Option<usize>)]) -> (r: Option<
    u64,
>)
    ensures
        system is Some ==> r == system,
        system is None ==> r == first_busy(channels@),
{
    if let Some(id) = system {
        return Some(id);
    }
    let mut i: usize = 0;
    assert(channels@.subrange(0, channels@.len() as int) =~= channels@);
    while i < channels.len()
        invariant
            system is None,
            i <= channels@.len(),
            first_busy(channels@) == first_busy(channels@.subrange(i as int, channels@.len() as int)),
        decreases channels.len() - i,
    {
        let (id, count) = channels[i];
        let ghost rest = channels@.subrange(i as int, channels@.len() as int);
        assert(rest[0] == channels@[i as int]);
        assert(rest.drop_first() =~= channels@.subrange(i + 1, channels@.len() as int));
        match count {
            Some(n) => {
                if n > BUSY_CHANNEL_MESSAGES {
                    return Some(id);
                }
            },
            None => {},
        }
        i = i + 1;
    }
    assert(channels@.subrange(i as int, channels@.len() as int).len() == 0);
    None
}

/// `> :arrow_forward: A _intro_  **name** came in (reg Date: **date**; Time: **time**)`:
/// the arrival notice, with the article that fits `intro`.
pub open spec fn arrival_text_spec(
    intro: Seq<char>,
    name: Seq<char>,
    date: Seq<char>,
    time: Seq<char>,
) -> Seq<char> {
    let article = if intro.len() > 0 && is_vowel(intro[0]) {
        seq!['A', 'n']
    } else {
        seq!['A']
    };
    "> :arrow_forward: "@ + article + " _"@ + intro + "_  **"@ + name
        + "** came in (reg Date: **"@ + date + "**; Time: **"@ + time + "**)"@
}

pub fn arrival_text(intro: &str, name: &str, date: &str, time: &str) -> (r: String)
    ensures
        r@ == arrival_text_spec(intro@, name@, date@, time@),
{
    let mut r = to_owned_string("> :arrow_forward: ");
    push_str(&mut r, vowel_gen(intro));
    push_str(&mut r, " _");
    push_str(&mut r, intro);
    push_str(&mut r, "_  **");
    push_str(&mut r, name);
    push_str(&mut r, "** came in (reg Date: **");
    push_str(&mut r, date);
    push_str(&mut r, "**; Time: **");
    push_str(&mut r, time);
    push_str(&mut r, "**)");
    r
}

/// The message for a newcomer in the waiting lobby.
pub open spec fn lobby_text_spec(member: u64) -> Seq<char> {
    "> "@ + user_mention(member)
        + " welcome to our server, you will be given full access after a few minutes as the verification process proceeds, wait patiently.."@
}

pub fn lobby_text(member: u64) -> (r: String)
    ensures
        r@ == lobby_text_spec(member),
{
    let mut r = to_owned_string("> ");
    push_user_mention(&mut r, member);
    push_str(
        &mut r,
        " welcome to our server, you will be given full access after a few minutes as the verification process proceeds, wait patiently..",
    );
    r
}

/// The file of blacklisted names, beside the bot's executable.
pub open spec fn blacklist_path_spec(exe_dir: Seq<char>) -> Seq<char> {
    exe_dir + "/db/blacklisted_names"@
}

pub fn blacklist_path(exe_dir: &str) -> (r: String)
    ensures
        r@ == blacklist_path_spec(exe_dir@),
{
    let mut r = to_owned_string(exe_dir);
    push_str(&mut r, "/db/blacklisted_names");
    r
}

/// ASCII letters `a` to `z` in upper case; every other character unchanged.
pub open spec fn ascii_upper(c: char) -> char {
    if 'a' <= c && c <= 'z' {
        ((c as int) - 32) as char
    } else {
        c
    }
}

pub open spec fn ascii_upper_all(s: Seq<char>) -> Seq<char> {
    s.map_values(|c: char| ascii_upper(c))
}

fn upper_char(c: char) -> (r: char)
    ensures
        r == ascii_upper(c),
{
    if 'a' <= c && c <= 'z' {
        let b: u8 = c as u8;
        let u: u8 = b - 32;
        u as char
    } else {
        c
    }
}

/// `s` with its ASCII letters in upper case.
pub fn to_ascii_uppercase(s: &str) -> (r: String)
    ensures
        r@ == ascii_upper_all(s@),
{
    let cs = chars_of(s);
    let mut out: Vec<char> = Vec::new();
    let mut i: usize = 0;
    while i < cs.len()
        invariant
            cs@ == s@,
            i <= cs.len(),
            out@ == ascii_upper_all(s@.subrange(0, i as int)),
        decreases cs.len() - i,
    {
        let u = upper_char(cs[i]);
        out.push(u);
        i = i + 1;
        assert(out@ =~= ascii_upper_all(s@.subrange(0, i as int)));
    }
    assert(s@.subrange(0, i as int) =~= s@);
    string_of(&out)
}

/// A newcomer is banned when the blacklist holds their display name in upper
/// case.
pub fn is_blacklisted(blacklist: &str, display_name: &str) -> (r: bool)
    ensures
        r == has_infix(blacklist@, ascii_upper_all(display_name@)),
{
    let upper = to_ascii_uppercase(display_name);
    contains_str(blacklist, upper.as_str())
}

/// What a blacklisted newcomer gets: the direct message sent to them, the
/// reason of their ban, and how many days of their messages the ban deletes.
pub fn blacklist_penalty() -> (r: (&'static str, &'static str, u8))
    ensures
        r.0@ == "Lacks a Brain"@,
        r.1@ == "Missing Brain.exe"@,
        r.2 == 0,
{
    ("Lacks a Brain", "Missing Brain.exe", 0)
}

/// The notice that a member has left: their tag and id.
pub open spec fn departure_text_spec(tag: Seq<char>, id: u64) -> Seq<char> {
    "> :arrow_forward: **"@ + tag + "** (**"@ + decimal(id as nat)
        + "**) is no more <a:duckdance:835457840365568012>, sed lyf..."@
}

pub fn departure_text(tag: &str, id: u64) -> (r: String)
    ensures
        r@ == departure_text_spec(tag@, id),
{
    let mut r = to_owned_string("> :arrow_forward: **");
    push_str(&mut r, tag);
    push_str(&mut r, "** (**");
    push_decimal(&mut r, id);
    push_str(&mut r, "**) is no more <a:duckdance:835457840365568012>, sed lyf...");
    r
}

/// The greeting goes to a busy channel, and to the first one: every channel
/// before it is not busy; when no channel is busy, it goes nowhere.
pub proof fn lemma_first_busy(channels: Seq<(u64, Option<usize>)>)
    ensures
        first_busy(channels) is None <==> forall|i: int| 0 <= i < channels.len() ==> !is_busy(#[trigger] channels[i]),
        first_busy(channels) is Some ==> exists|i: int|
            0 <= i < channels.len() && is_busy(#[trigger] channels[i]) && channels[i].0 == first_busy(channels)->0
                && forall|j: int| 0 <= j < i ==> !is_busy(#[trigger] channels[j]),
    decreases channels.len(),
{
    if channels.len() > 0 {
        let rest = channels.drop_first();
        lemma_first_busy(rest);
        if !is_busy(channels[0]) {
            assert forall|i: int| 1 <= i < channels.len() implies channels[i] == rest[i - 1] by {}
            if first_busy(rest) is Some {
                let k = choose|k: int|
                    0 <= k < rest.len() && is_busy(#[trigger] rest[k]) && rest[k].0 == first_busy(rest)->0
                        && forall|j: int| 0 <= j < k ==> !is_busy(#[trigger] rest[j]);
                assert(channels[k + 1] == rest[k]);
                assert forall|j: int| 0 <= j < k + 1 implies !is_busy(#[trigger] channels[j]) by {
                    if j > 0 {
                        assert(channels[j] == rest[j - 1]);
                    }
                }
            } else {
                assert forall|i: int| 0 <= i < channels.len() implies !is_busy(#[trigger] channels[i]) by {
                    if i > 0 {
                        assert(channels[i] == rest[i - 1]);
                    }
                }
            }
        } else {
            assert(is_busy(channels[0]));
        }
    }
}

/// Upper-casing keeps the length, turns each ASCII lower-case letter into its
/// upper-case form, and leaves every other character as it is.
pub proof fn lemma_ascii_upper(s: Seq<char>)
    ensures
        ascii_upper_all(s).len() == s.len(),
        forall|i: int| 0 <= i < s.len() && 'a' <= s[i] <= 'z' ==> (#[trigger] ascii_upper_all(s)[i]) as int
            == s[i] as int - 32 && 'A' <= ascii_upper_all(s)[i] <= 'Z',
        forall|i: int| 0 <= i < s.len() && !('a' <= s[i] <= 'z') ==> #[trigger] ascii_upper_all(s)[i] == s[i],
        ascii_upper_all(ascii_upper_all(s)) == ascii_upper_all(s),
{
    let u = ascii_upper_all(s);
    assert forall|i: int| 0 <= i < s.len() && 'a' <= s[i] <= 'z' implies (#[trigger] u[i]) as int == s[i] as int - 32
        && 'A' <= u[i] <= 'Z' by {
        assert(u[i] == ascii_upper(s[i]));
    }
    assert(ascii_upper_all(u) =~= u) by {
        assert forall|i: int| 0 <= i < u.len() implies ascii_upper_all(u)[i] == u[i] by {
            assert(u[i] == ascii_upper(s[i]));
        }
    }
}

} // verus!

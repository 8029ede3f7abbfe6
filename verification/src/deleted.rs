//! Reporting deleted messages: telling apart deletions done by emoji-proxy
//! bots and bot commands, and relaying the attachments of a deleted message.
use vstd::prelude::*;
use crate::pattern::{
    regex_compiles, regex_matches, regex_replaced_all, regex_captured_all, regex_is_match,
    regex_replace_all, regex_capture_all,
};
use crate::text::{
    has_infix, replace_spec, views_of, contains_str, replace_str, push_str, to_owned_string, chars_of, push_char,
};

verus! {

/// The position of the last `c` in `s`, or -1.
pub open spec fn last_index(s: Seq<char>, c: char) -> int
    decreases s.len(),
{
    if s.len() == 0 {
        -1
    } else if s.last() == c {
        s.len() - 1
    } else {
        last_index(s.drop_last(), c)
    }
}

/// `last_index` is -1 or the position of a `c`.
pub proof fn lemma_last_index(s: Seq<char>, c: char)
    ensures
        -1 <= last_index(s, c) < s.len(),
        last_index(s, c) >= 0 ==> s[last_index(s, c)] == c,
    decreases s.len(),
{
    if s.len() > 0 && s.last() != c {
        lemma_last_index(s.drop_last(), c);
    }
}

/// The last component of the Unix path `p` when it names a file or directory
/// (`Path::file_name`): empty and `.` components are skipped; a path ending in
/// `..`, or holding no such component, has none.
pub open spec fn file_name_spec(p: Seq<char>) -> Option<Seq<char>>
    decreases p.len(),
{
    let k = last_index(p, '/');
    proof {
        lemma_last_index(p, '/');
    }
    let seg = p.subrange(k + 1, p.len() as int);
    if seg.len() == 0 || seg == seq!['.'] {
        if k < 0 {
            None
        } else {
            file_name_spec(p.subrange(0, k))
        }
    } else if seg == seq!['.', '.'] {
        None
    } else {
        Some(seg)
    }
}

/// The extension of a file name (`Path::extension`): what follows its last
/// `.`, unless that dot is its first character or it has none.
pub open spec fn name_extension(n: Seq<char>) -> Option<Seq<char>> {
    let d = last_index(n, '.');
    if n == seq!['.', '.'] || d <= 0 {
        None
    } else {
        Some(n.subrange(d + 1, n.len() as int))
    }
}

/// The extension of the Unix path `p`.
pub open spec fn path_extension(p: Seq<char>) -> Option<Seq<char>> {
    match file_name_spec(p) {
        Some(n) => name_extension(n),
        None => None,
    }
}

fn last_index_in(v: &Vec<char>, end: usize, c: char) -> (r: Option<usize>)
    requires
        end <= v@.len(),
    ensures
        match r {
            Some(k) => k < end && last_index(v@.subrange(0, end as int), c) == k,
            None => last_index(v@.subrange(0, end as int), c) == -1,
        },
{
    let mut i: usize = end;
    while i > 0
        invariant
            i <= end <= v@.len(),
            last_index(v@.subrange(0, end as int), c) == last_index(v@.subrange(0, i as int), c),
        decreases i,
    {
        let ghost sub = v@.subrange(0, i as int);
        assert(sub.drop_last() =~= v@.subrange(0, i - 1));
        if v[i - 1] == c {
            return Some(i - 1);
        }
        i = i - 1;
    }
    None
}

fn string_of_range(v: &Vec<char>, a: usize, b: usize) -> (r: String)
    requires
        a <= b <= v@.len(),
    ensures
        r@ == v@.subrange(a as int, b as int),
{
    let mut r = String::new();
    let mut i: usize = a;
    while i < b
        invariant
            a <= i <= b <= v@.len(),
            r@ == v@.subrange(a as int, i as int),
        decreases b - i,
    {
        push_char(&mut r, v[i]);
        i = i + 1;
        assert(r@ =~= v@.subrange(a as int, i as int));
    }
    r
}

/// The extension of the file a URL or path names, as `Path::extension` finds it
/// on Unix.
fn extension_of(p: &str) -> (r: Option<String>)
    ensures
        match r {
            Some(e) => path_extension(p@) == Some(e@),
            None => path_extension(p@) is None,
        },
{
    let cs = chars_of(p);
    let mut end: usize = cs.len();
    assert(cs@.subrange(0, end as int) =~= p@);
    loop
        invariant
            cs@ == p@,
            end <= cs@.len(),
            file_name_spec(p@) == file_name_spec(cs@.subrange(0, end as int)),
        decreases end,
    {
        let ghost sub = cs@.subrange(0, end as int);
        let k = last_index_in(&cs, end, '/');
        let start: usize = match k {
            Some(k) => k + 1,
            None => 0,
        };
        proof {
            lemma_last_index(sub, '/');
        }
        let ghost seg = sub.subrange(last_index(sub, '/') + 1, sub.len() as int);
        assert(seg =~= cs@.subrange(start as int, end as int));
        let len = end - start;
        let is_dot = len == 1 && cs[start] == '.';
        let is_dots = len == 2 && cs[start] == '.' && cs[start + 1] == '.';
        assert(is_dot == (seg == seq!['.'])) by {
            if seg == seq!['.'] {
                assert(seg[0] == '.');
            }
            if is_dot {
                assert(seg =~= seq!['.']);
            }
        }
        assert(is_dots == (seg == seq!['.', '.'])) by {
            if seg == seq!['.', '.'] {
                assert(seg[0] == '.' && seg[1] == '.');
            }
            if is_dots {
                assert(seg =~= seq!['.', '.']);
            }
        }
        if len == 0 || is_dot {
            match k {
                None => {
                    return None;
                },
                Some(kk) => {
                    assert(sub.subrange(0, kk as int) =~= cs@.subrange(0, kk as int));
                    end = kk;
                },
            }
        } else if is_dots {
            return None;
        } else {
            let name = string_of_range(&cs, start, end);
            assert(file_name_spec(p@) == Some(name@));
            let nv = chars_of(name.as_str());
            let d = last_index_in(&nv, nv.len(), '.');
            assert(nv@.subrange(0, nv@.len() as int) =~= nv@);
            proof {
                lemma_last_index(nv@, '.');
            }
            match d {
                None => {
                    return None;
                },
                Some(dd) => {
                    if dd == 0 {
                        return None;
                    }
                    let e = string_of_range(&nv, dd + 1, nv.len());
                    return Some(e);
                },
            }
        }
    }
}

pub open spec fn digit_pattern() -> Seq<char> {
    "\\d"@
}

pub open spec fn emote_open_pattern() -> Seq<char> {
    "(<:|<a:)"@
}

pub open spec fn bracket_pattern() -> Seq<char> {
    "[<::>]"@
}

pub open spec fn marker_line_pattern() -> Seq<char> {
    "\\n.* ---MSG_TYPE---.*"@
}

pub open spec fn strip(p: Seq<char>, t: Seq<char>) -> Seq<char> {
    regex_replaced_all(p, t, Seq::empty())
}

/// The last message of the channel as compared with a deleted one: digits,
/// emote openers and angle brackets and colons removed.
pub open spec fn last_compare_spec(t: Seq<char>) -> Seq<char> {
    strip(bracket_pattern(), strip(emote_open_pattern(), strip(digit_pattern(), t)))
}

/// A deleted message's record as compared with the last message: emote
/// openers, digits, angle brackets and colons, and its marker line removed.
pub open spec fn deleted_compare_spec(t: Seq<char>) -> Seq<char> {
    strip(
        marker_line_pattern(),
        strip(bracket_pattern(), strip(digit_pattern(), strip(emote_open_pattern(), t))),
    )
}

pub open spec fn compare_patterns_compile() -> bool {
    regex_compiles(digit_pattern()) && regex_compiles(emote_open_pattern()) && regex_compiles(
        bracket_pattern(),
    ) && regex_compiles(marker_line_pattern())
}

fn strip_all(pattern: &str, text: &str) -> (r: Option<String>)
    ensures
        r is Some <==> regex_compiles(pattern@),
        r matches Some(s) ==> s@ == strip(pattern@, text@),
{
    proof {
        reveal_strlit("");
    }
    assert(""@ =~= Seq::<char>::empty());
    regex_replace_all(pattern, text, "")
}

/// The last message of the channel in the form compared with a deleted one;
/// `None` when a pattern does not compile.
pub fn last_compare_form(text: &str) -> (r: Option<String>)
    ensures
        r is Some <==> (regex_compiles(digit_pattern()) && regex_compiles(emote_open_pattern())
            && regex_compiles(bracket_pattern())),
        r matches Some(s) ==> s@ == last_compare_spec(text@),
{
    proof {
        reveal_strlit("\\d");
    }
    let a = strip_all("\\d", text)?;
    let b = strip_all("(<:|<a:)", a.as_str())?;
    let c = strip_all("[<::>]", b.as_str())?;
    Some(c)
}

/// A deleted message's record in the form compared with the last message;
/// `None` when a pattern does not compile.
pub fn deleted_compare_form(text: &str) -> (r: Option<String>)
    ensures
        r is Some <==> compare_patterns_compile(),
        r matches Some(s) ==> s@ == deleted_compare_spec(text@),
{
    proof {
        reveal_strlit("\\d");
    }
    let a = strip_all("(<:|<a:)", text)?;
    let b = strip_all("\\d", a.as_str())?;
    let c = strip_all("[<::>]", b.as_str())?;
    let d = strip_all("\\n.* ---MSG_TYPE---.*", c.as_str())?;
    Some(d)
}

/// Whether a deletion was an emoji-proxy bot reposting the message: the proxy
/// bot is in the guild, the last message's author is not a member (a webhook),
/// and the last message, compared, contains the deleted one, compared.
pub fn is_proxy_repost(
    proxy_present: bool,
    last_author_is_member: bool,
    last_compared: &str,
    deleted_compared: &str,
) -> (r: bool)
    ensures
        r == (proxy_present && !last_author_is_member && has_infix(last_compared@, deleted_compared@)),
{
    if !proxy_present {
        false
    } else if !last_author_is_member {
        contains_str(last_compared, deleted_compared)
    } else {
        false
    }
}

pub open spec fn react_cmd_pattern() -> Seq<char> {
    "^.react"@
}

pub open spec fn say_cmd_pattern() -> Seq<char> {
    "^dsay "@
}

pub open spec fn delete_cmd_pattern() -> Seq<char> {
    "^.delete"@
}

/// Whether a deletion is reported: not for a proxy repost, nor for the
/// bot commands that delete their own message (`.react…`, `dsay …`, `.delete…`).
/// The patterns are tried in that order, each only when the ones before did
/// not match; `None` when a pattern tried does not compile.
pub fn deletion_reported(proxy_repost: bool, deleted: &str) -> (r: Option<bool>)
    ensures
        proxy_repost ==> r == Some(false),
        !proxy_repost ==> {
            let m1 = regex_matches(react_cmd_pattern(), deleted@);
            let m2 = regex_matches(say_cmd_pattern(), deleted@);
            let m3 = regex_matches(delete_cmd_pattern(), deleted@);
            &&& !regex_compiles(react_cmd_pattern()) ==> r is None
            &&& regex_compiles(react_cmd_pattern()) && m1 ==> r == Some(false)
            &&& regex_compiles(react_cmd_pattern()) && !m1 && !regex_compiles(say_cmd_pattern())
                ==> r is None
            &&& regex_compiles(react_cmd_pattern()) && !m1 && regex_compiles(say_cmd_pattern())
                && m2 ==> r == Some(false)
            &&& regex_compiles(react_cmd_pattern()) && !m1 && regex_compiles(say_cmd_pattern())
                && !m2 && !regex_compiles(delete_cmd_pattern()) ==> r is None
            &&& regex_compiles(react_cmd_pattern()) && !m1 && regex_compiles(say_cmd_pattern())
                && !m2 && regex_compiles(delete_cmd_pattern()) ==> r == Some(!m3)
        },
{
    if proxy_repost {
        return Some(false);
    }
    if regex_is_match("^.react", deleted)? {
        return Some(false);
    }
    if regex_is_match("^dsay ", deleted)? {
        return Some(false);
    }
    let m3 = regex_is_match("^.delete", deleted)?;
    Some(!m3)
}

pub open spec fn attachment_pattern() -> Seq<char> {
    "(?P<url>https://cdn.discordapp.com/attachments/.*/.*)"@
}

pub open spec fn all_some(v: Seq<Option<Seq<char>>>) -> bool {
    forall|i: int| 0 <= i < v.len() ==> (#[trigger] v[i]) is Some
}

pub open spec fn unwrap_all(v: Seq<Option<Seq<char>>>) -> Seq<Seq<char>> {
    v.map_values(|o: Option<Seq<char>>| o->0)
}

fn take_all(v: Vec<Option<String>>) -> (r: Option<Vec<String>>)
    ensures
        ({
            let vv = v@.map_values(|o: Option<String>| match o {
                Some(s) => Some(s@),
                None => None,
            });
            &&& r is Some <==> all_some(vv)
            &&& r matches Some(out) ==> views_of(out@) == unwrap_all(vv)
        }),
{
    let ghost vv = v@.map_values(|o: Option<String>| match o {
        Some(s) => Some(s@),
        None => None,
    });
    let mut out: Vec<String> = Vec::new();
    let mut i: usize = 0;
    while i < v.len()
        invariant
            i <= v.len(),
            vv == v@.map_values(|o: Option<String>| match o {
                Some(s) => Some(s@),
                None => None,
            }),
            forall|j: int| 0 <= j < i ==> (#[trigger] vv[j]) is Some,
            views_of(out@) =~= unwrap_all(vv).subrange(0, i as int),
        decreases v.len() - i,
    {
        match &v[i] {
            Some(s) => {
                let ghost before = views_of(out@);
                out.push(s.clone());
                assert(views_of(out@) =~= before.push(unwrap_all(vv)[i as int]));
            },
            None => {
                assert(vv[i as int] is None);
                return None;
            },
        }
        i = i + 1;
    }
    assert(unwrap_all(vv).subrange(0, i as int) =~= unwrap_all(vv));
    Some(out)
}

/// The attachment links found in a deleted message; `None` when the pattern
/// does not compile or a match lacks its link.
pub fn attachment_urls(content: &str) -> (r: Option<Vec<String>>)
    ensures
        regex_compiles(attachment_pattern()) && all_some(
            regex_captured_all(attachment_pattern(), content@, "url"@),
        ) ==> (r matches Some(v) && views_of(v@) == unwrap_all(
            regex_captured_all(attachment_pattern(), content@, "url"@),
        )),
        r is Some ==> regex_compiles(attachment_pattern()) && all_some(
            regex_captured_all(attachment_pattern(), content@, "url"@),
        ),
{
    let caps = regex_capture_all(
        "(?P<url>https://cdn.discordapp.com/attachments/.*/.*)",
        content,
        "url",
    )?;
    take_all(caps)
}

/// Whether an attachment link names an image (png, jpeg, jpg, webp or gif).
pub fn is_image(url: &str) -> (r: bool)
    ensures
        r == (path_extension(url@) matches Some(e) && (e == "png"@ || e == "jpeg"@ || e == "jpg"@
            || e == "webp"@ || e == "gif"@)),
{
    match extension_of(url) {
        Some(e) => {
            let e = e.as_str();
            crate::text::eq_str(e, "png") || crate::text::eq_str(e, "jpeg") || crate::text::eq_str(
                e,
                "jpg",
            ) || crate::text::eq_str(e, "webp") || crate::text::eq_str(e, "gif")
        },
        None => false,
    }
}

pub open spec fn backslash_pattern() -> Seq<char> {
    "\\\\"@
}

pub open spec fn link_pattern() -> Seq<char> {
    "(?P<link>https://.+?\")"@
}

/// The links an upload service answered with: backslashes removed, then each
/// `https://…"` taken without its double quotes.
pub fn uploaded_links(response: &str) -> (r: Option<Vec<String>>)
    ensures
        r matches Some(v) ==> ({
            let cleaned = regex_replaced_all(backslash_pattern(), response@, Seq::empty());
            let caps = regex_captured_all(link_pattern(), cleaned, "link"@);
            &&& regex_compiles(backslash_pattern()) && regex_compiles(link_pattern())
            &&& all_some(caps)
            &&& views_of(v@) == unwrap_all(caps).map_values(|l: Seq<char>| replace_spec(l, "\""@, Seq::empty()))
        }),
        regex_compiles(backslash_pattern()) && regex_compiles(link_pattern()) && all_some(
            regex_captured_all(
                link_pattern(),
                regex_replaced_all(backslash_pattern(), response@, Seq::empty()),
                "link"@,
            ),
        ) ==> r is Some,
{
    proof {
        reveal_strlit("\"");
        reveal_strlit("");
    }
    assert(""@ =~= Seq::<char>::empty());
    let cleaned = regex_replace_all("\\\\", response, "")?;
    let caps = regex_capture_all("(?P<link>https://.+?\")", cleaned.as_str(), "link")?;
    let links = take_all(caps)?;
    let mut out: Vec<String> = Vec::new();
    let mut i: usize = 0;
    let ghost target = views_of(links@).map_values(|l: Seq<char>| replace_spec(l, "\""@, Seq::empty()));
    while i < links.len()
        invariant
            i <= links.len(),
            target == views_of(links@).map_values(|l: Seq<char>| replace_spec(l, "\""@, Seq::empty())),
            "\""@.len() > 0,
            ""@ == Seq::<char>::empty(),
            views_of(out@) =~= target.subrange(0, i as int),
        decreases links.len() - i,
    {
        let ghost before = views_of(out@);
        let l = replace_str(links[i].as_str(), "\"", "");
        out.push(l);
        assert(views_of(out@) =~= before.push(target[i as int]));
        i = i + 1;
    }
    assert(target.subrange(0, i as int) =~= target);
    Some(out)
}

/// Lines quoting the relayed links.
pub open spec fn proxied_lines(links: Seq<Seq<char>>) -> Seq<char>
    decreases links.len(),
{
    if links.len() == 0 {
        Seq::empty()
    } else {
        proxied_lines(links.drop_last()) + "\n > `"@ + links.last() + "`"@
    }
}

/// The report of a deleted message with the relayed links of its attachments.
pub fn with_proxied_links(content: &str, links: &Vec<String>) -> (r: String)
    ensures
        r@ == content@ + proxied_lines(views_of(links@)),
{
    let mut r = to_owned_string(content);
    let mut i: usize = 0;
    while i < links.len()
        invariant
            i <= links.len(),
            r@ =~= content@ + proxied_lines(views_of(links@).subrange(0, i as int)),
        decreases links.len() - i,
    {
        let ghost pre = views_of(links@).subrange(0, i as int);
        assert(views_of(links@).subrange(0, i + 1).drop_last() =~= pre);
        push_str(&mut r, "\n > `");
        push_str(&mut r, links[i].as_str());
        push_str(&mut r, "`");
        i = i + 1;
    }
    assert(views_of(links@).subrange(0, i as int) =~= views_of(links@));
    r
}

/// A report stacked under the earlier report kept for the same message, if any.
pub fn stack_report(earlier: Option<&str>, report: &str) -> (r: String)
    ensures
        r@ == match earlier {
            Some(e) => e@ + "\n"@ + report@,
            None => report@,
        },
{
    match earlier {
        Some(e) => {
            let mut r = to_owned_string(e);
            push_str(&mut r, "\n");
            push_str(&mut r, report);
            r
        },
        None => to_owned_string(report),
    }
}

} // verus!

//! The bot's configuration and the key=value launch line it reads at start.
use vstd::prelude::*;
use crate::text::{chars_of, push_char};

verus! {

/// Top level of the configuration file.
pub struct BotConfig {
    pub github: Option<GithubConfig>,
    pub discord: DiscordConfig,
    pub meilisearch: Option<MeilisearchConfig>,
    pub openai: Option<OpenaiConfig>,
}

/// Credentials for the GitHub API.
pub struct GithubConfig {
    pub api_token: String,
    pub user_agent: String,
}

/// Discord credentials and the channels the bot works with.
pub struct DiscordConfig {
    pub bot_token: String,
    pub channels: Option<DiscordChannels>,
}

/// Channel ids, each optional.
pub struct DiscordChannels {
    pub introduction_channel_id: Option<u64>,
    pub general_channel_id: Option<u64>,
    pub getting_started_channel_id: Option<u64>,
    pub off_topic_channel_id: Option<u64>,
    pub primary_questions_channel_id: Option<u64>,
    pub secondary_questions_channel_id: Option<u64>,
}

/// Where the search server listens and how to start it.
pub struct MeilisearchConfig {
    pub master_key: String,
    pub api_endpoint: String,
    pub server_cmd: Vec<String>,
}

/// Credentials for the OpenAI API.
pub struct OpenaiConfig {
    pub api_key: String,
}

/// What the launch line sets: the application id and bot token (the last
/// setting of each wins, empty when unset) and the GitHub token (the first
/// setting wins).
pub struct LaunchArgs {
    pub app_id: String,
    pub bot_token: String,
    pub github_token: Option<String>,
}

/// The White_Space characters of Unicode, those `char::is_whitespace` accepts.
pub open spec fn is_white(c: char) -> bool {
    ('\u{9}' <= c && c <= '\u{d}') || c == ' ' || c == '\u{85}' || c == '\u{a0}' || c
        == '\u{1680}' || ('\u{2000}' <= c && c <= '\u{200a}') || c == '\u{2028}' || c
        == '\u{2029}' || c == '\u{202f}' || c == '\u{205f}' || c == '\u{3000}'
}

/// Splitting `s` into maximal runs of non-white characters, continuing from
/// the tokens `toks` found so far and the run `cur` in progress.
pub open spec fn split_fold(s: Seq<char>, toks: Seq<Seq<char>>, cur: Seq<char>) -> Seq<Seq<char>>
    decreases s.len(),
{
    if s.len() == 0 {
        if cur.len() > 0 {
            toks.push(cur)
        } else {
            toks
        }
    } else if is_white(s[0]) {
        split_fold(
            s.subrange(1, s.len() as int),
            if cur.len() > 0 {
                toks.push(cur)
            } else {
                toks
            },
            Seq::empty(),
        )
    } else {
        split_fold(s.subrange(1, s.len() as int), toks, cur.push(s[0]))
    }
}

/// The tokens of `str::split_whitespace`: the maximal runs of non-white characters.
pub open spec fn split_whitespace_spec(s: Seq<char>) -> Seq<Seq<char>> {
    split_fold(s, Seq::empty(), Seq::empty())
}

/// The position of the first `c` in `s`.
pub open spec fn first_index(s: Seq<char>, c: char) -> Option<int>
    decreases s.len(),
{
    if s.len() == 0 {
        None
    } else if s[0] == c {
        Some(0)
    } else {
        match first_index(s.subrange(1, s.len() as int), c) {
            Some(i) => Some(i + 1),
            None => None,
        }
    }
}

/// The launch settings as plain sequences: app id, bot token, GitHub token.
pub type LaunchView = (Seq<char>, Seq<char>, Option<Seq<char>>);

/// One `key=value` token applied to the settings: the text before the first
/// `=` is the key, the rest the value; unknown keys and tokens without `=` are ignored.
pub open spec fn apply_token(acc: LaunchView, tok: Seq<char>) -> LaunchView {
    match first_index(tok, '=') {
        None => acc,
        Some(i) => {
            let key = tok.subrange(0, i);
            let value = tok.subrange(i + 1, tok.len() as int);
            if key == seq!['a', 'p', 'p', '_', 'i', 'd'] {
                (value, acc.1, acc.2)
            } else if key == seq!['b', 'o', 't', '_', 't', 'o', 'k', 'e', 'n'] {
                (acc.0, value, acc.2)
            } else if key == seq!['g', 'i', 't', 'h', 'u', 'b', '_', 't', 'o', 'k', 'e', 'n'] {
                match acc.2 {
                    Some(t) => acc,
                    None => (acc.0, acc.1, Some(value)),
                }
            } else {
                acc
            }
        },
    }
}

/// The settings given by a sequence of tokens, applied in order.
pub open spec fn apply_tokens(toks: Seq<Seq<char>>) -> LaunchView
    decreases toks.len(),
{
    if toks.len() == 0 {
        (Seq::empty(), Seq::empty(), None)
    } else {
        apply_token(apply_tokens(toks.drop_last()), toks.last())
    }
}

impl LaunchArgs {
    pub open spec fn view_parts(&self) -> LaunchView {
        (
            self.app_id@,
            self.bot_token@,
            match self.github_token {
                Some(t) => Some(t@),
                None => None,
            },
        )
    }
}

pub fn white(c: char) -> (r: bool)
    ensures
        r == is_white(c),
{
    ('\u{9}' <= c && c <= '\u{d}') || c == ' ' || c == '\u{85}' || c == '\u{a0}' || c
        == '\u{1680}' || ('\u{2000}' <= c && c <= '\u{200a}') || c == '\u{2028}' || c
        == '\u{2029}' || c == '\u{202f}' || c == '\u{205f}' || c == '\u{3000}'
}

/// `str::split_whitespace`, collected.
pub fn split_whitespace(s: &str) -> (toks: Vec<Vec<char>>)
    ensures
        toks@.map_values(|t: Vec<char>| t@) == split_whitespace_spec(s@),
{
    let v = chars_of(s);
    let mut toks: Vec<Vec<char>> = Vec::new();
    let mut cur: Vec<char> = Vec::new();
    let mut i: usize = 0;
    assert(v@.subrange(0, v@.len() as int) =~= v@);
    assert(toks@.map_values(|t: Vec<char>| t@) =~= Seq::<Seq<char>>::empty());
    assert(cur@ =~= Seq::<char>::empty());
    while i < v.len()
        invariant
            i <= v.len(),
            v@ == s@,
            split_fold(
                v@.subrange(i as int, v@.len() as int),
                toks@.map_values(|t: Vec<char>| t@),
                cur@,
            ) == split_whitespace_spec(s@),
        decreases v.len() - i,
    {
        let ghost rest = v@.subrange(i as int, v@.len() as int);
        assert(rest.subrange(1, rest.len() as int) =~= v@.subrange(i + 1, v@.len() as int));
        let c = v[i];
        if white(c) {
            if cur.len() > 0 {
                let ghost before = toks@.map_values(|t: Vec<char>| t@);
                toks.push(cur);
                assert(toks@.map_values(|t: Vec<char>| t@) =~= before.push(cur@));
                cur = Vec::new();
            } else {
                cur = Vec::new();
            }
            assert(cur@ =~= Seq::<char>::empty());
        } else {
            cur.push(c);
        }
        i = i + 1;
    }
    if cur.len() > 0 {
        let ghost before = toks@.map_values(|t: Vec<char>| t@);
        toks.push(cur);
        assert(toks@.map_values(|t: Vec<char>| t@) =~= before.push(cur@));
    }
    toks
}

fn find_eq(tok: &Vec<char>) -> (r: Option<usize>)
    ensures
        match r {
            Some(i) => first_index(tok@, '=') == Some(i as int) && i < tok@.len(),
            None => first_index(tok@, '=') is None,
        },
{
    let mut i: usize = 0;
    while i < tok.len()
        invariant
            i <= tok.len(),
            forall|j: int| 0 <= j < i ==> tok@[j] != '=',
        decreases tok.len() - i,
    {
        if tok[i] == '=' {
            proof {
                lemma_first_index(tok@, '=', i as int);
            }
            return Some(i);
        }
        i = i + 1;
    }
    proof {
        lemma_first_index_none(tok@, '=');
    }
    None
}

proof fn lemma_first_index(s: Seq<char>, c: char, i: int)
    requires
        0 <= i < s.len(),
        s[i] == c,
        forall|j: int| 0 <= j < i ==> s[j] != c,
    ensures
        first_index(s, c) == Some(i),
    decreases i,
{
    if i > 0 {
        let t = s.subrange(1, s.len() as int);
        lemma_first_index(t, c, i - 1);
    }
}

proof fn lemma_first_index_none(s: Seq<char>, c: char)
    requires
        forall|j: int| 0 <= j < s.len() ==> s[j] != c,
    ensures
        first_index(s, c) is None,
    decreases s.len(),
{
    if s.len() > 0 {
        let t = s.subrange(1, s.len() as int);
        lemma_first_index_none(t, c);
    }
}

fn seq_eq(a: &Vec<char>, lo: usize, hi: usize, b: &str) -> (r: bool)
    requires
        lo <= hi <= a.len(),
    ensures
        r == (a@.subrange(lo as int, hi as int) == b@),
{
    let bv = chars_of(b);
    if hi - lo != bv.len() {
        return false;
    }
    let mut k: usize = 0;
    while k < bv.len()
        invariant
            hi - lo == bv.len(),
            lo <= hi <= a.len(),
            k <= bv.len(),
            bv@ == b@,
            forall|j: int| 0 <= j < k ==> a@[lo + j] == bv@[j],
        decreases bv.len() - k,
    {
        if a[lo + k] != bv[k] {
            assert(a@.subrange(lo as int, hi as int)[k as int] != b@[k as int]);
            return false;
        }
        k = k + 1;
    }
    assert(a@.subrange(lo as int, hi as int) =~= b@);
    true
}

fn sub_string(a: &Vec<char>, lo: usize, hi: usize) -> (r: String)
    requires
        lo <= hi <= a.len(),
    ensures
        r@ == a@.subrange(lo as int, hi as int),
{
    let mut r = String::new();
    let mut k = lo;
    while k < hi
        invariant
            lo <= k <= hi <= a.len(),
            r@ =~= a@.subrange(lo as int, k as int),
        decreases hi - k,
    {
        push_char(&mut r, a[k]);
        k = k + 1;
    }
    r
}

/// Reads the launch line: whitespace-separated `key=value` tokens for
/// `app_id`, `bot_token` and `github_token`.
pub fn parse_launch_args(line: &str) -> (r: LaunchArgs)
    ensures
        r.view_parts() == apply_tokens(split_whitespace_spec(line@)),
{
    proof {
        reveal_strlit("app_id");
        reveal_strlit("bot_token");
        reveal_strlit("github_token");
    }
    let toks = split_whitespace(line);
    let ghost tv = toks@.map_values(|t: Vec<char>| t@);
    let mut r = LaunchArgs { app_id: String::new(), bot_token: String::new(), github_token: None };
    let mut i: usize = 0;
    assert(tv.subrange(0, 0).len() == 0);
    assert(r.view_parts() =~= apply_tokens(tv.subrange(0, 0)));
    while i < toks.len()
        invariant
            i <= toks.len(),
            tv == toks@.map_values(|t: Vec<char>| t@),
            tv == split_whitespace_spec(line@),
            r.view_parts() == apply_tokens(tv.subrange(0, i as int)),
        decreases toks.len() - i,
    {
        proof {
            reveal_strlit("app_id");
            reveal_strlit("bot_token");
            reveal_strlit("github_token");
        }
        let tok = &toks[i];
        assert(tv.subrange(0, i + 1).drop_last() =~= tv.subrange(0, i as int));
        assert(tv.subrange(0, i + 1).last() == tok@);
        match find_eq(tok) {
            None => {},
            Some(e) => {
                let n = tok.len();
                if seq_eq(tok, 0, e, "app_id") {
                    assert("app_id"@ =~= seq!['a', 'p', 'p', '_', 'i', 'd']);
                    r.app_id = sub_string(tok, e + 1, n);
                } else if seq_eq(tok, 0, e, "bot_token") {
                    assert("bot_token"@ =~= seq!['b', 'o', 't', '_', 't', 'o', 'k', 'e', 'n']);
                    assert("app_id"@ =~= seq!['a', 'p', 'p', '_', 'i', 'd']);
                    r.bot_token = sub_string(tok, e + 1, n);
                } else if seq_eq(tok, 0, e, "github_token") {
                    assert("bot_token"@ =~= seq!['b', 'o', 't', '_', 't', 'o', 'k', 'e', 'n']);
                    assert("app_id"@ =~= seq!['a', 'p', 'p', '_', 'i', 'd']);
                    assert("github_token"@ =~= seq![
                        'g', 'i', 't', 'h', 'u', 'b', '_', 't', 'o', 'k', 'e', 'n'
                    ]);
                    if r.github_token.is_none() {
                        r.github_token = Some(sub_string(tok, e + 1, n));
                    }
                } else {
                    assert("bot_token"@ =~= seq!['b', 'o', 't', '_', 't', 'o', 'k', 'e', 'n']);
                    assert("app_id"@ =~= seq!['a', 'p', 'p', '_', 'i', 'd']);
                    assert("github_token"@ =~= seq![
                        'g', 'i', 't', 'h', 'u', 'b', '_', 't', 'o', 'k', 'e', 'n'
                    ]);
                }
            },
        }
        i = i + 1;
    }
    assert(tv.subrange(0, tv.len() as int) =~= tv);
    r
}

/// The files the configuration is read from, in order: the given path, then
/// `BotConfig.toml` beside the executable.
pub fn config_candidates(toml_path: &str, exe_dir: &str) -> (r: (String, String))
    ensures
        r.0@ == toml_path@,
        r.1@ == crate::search::joined(exe_dir@, "BotConfig.toml"@),
{
    (crate::text::to_owned_string(toml_path), crate::search::join_path(exe_dir, "BotConfig.toml"))
}

proof fn lemma_first_index_after_key(key: Seq<char>, value: Seq<char>)
    requires
        !key.contains('='),
    ensures
        first_index(key + seq!['='] + value, '=') == Some(key.len() as int),
    decreases key.len(),
{
    let t = key + seq!['='] + value;
    if key.len() == 0 {
        assert(t[0] == '=');
    } else {
        assert(key[0] != '=') by {
            if key[0] == '=' {
                assert(key.contains('='));
            }
        }
        let k2 = key.subrange(1, key.len() as int);
        assert(!k2.contains('=')) by {
            if k2.contains('=') {
                let j = choose|j: int| 0 <= j < k2.len() && k2[j] == '=';
                assert(key[j + 1] == '=');
            }
        }
        lemma_first_index_after_key(k2, value);
        assert(t.subrange(1, t.len() as int) =~= k2 + seq!['='] + value);
    }
}

/// On the launch line, a later `app_id=` or `bot_token=` replaces an earlier
/// one, a later `github_token=` never replaces an earlier one, each setting
/// leaves the others as they were, and a token without `=` changes nothing.
pub proof fn lemma_launch_settings(toks: Seq<Seq<char>>, value: Seq<char>, plain: Seq<char>)
    requires
        !plain.contains('='),
    ensures
        ({
            let before = apply_tokens(toks);
            let a = apply_tokens(toks.push("app_id="@ + value));
            let b = apply_tokens(toks.push("bot_token="@ + value));
            let g = apply_tokens(toks.push("github_token="@ + value));
            &&& a == (value, before.1, before.2)
            &&& b == (before.0, value, before.2)
            &&& g == (before.0, before.1, if before.2 is Some { before.2 } else { Some(value) })
            &&& apply_tokens(toks.push(plain)) == before
        }),
{
    reveal_strlit("app_id=");
    reveal_strlit("bot_token=");
    reveal_strlit("github_token=");
    let ka = seq!['a', 'p', 'p', '_', 'i', 'd'];
    let kb = seq!['b', 'o', 't', '_', 't', 'o', 'k', 'e', 'n'];
    let kg = seq!['g', 'i', 't', 'h', 'u', 'b', '_', 't', 'o', 'k', 'e', 'n'];
    assert("app_id="@ + value =~= ka + seq!['='] + value);
    assert("bot_token="@ + value =~= kb + seq!['='] + value);
    assert("github_token="@ + value =~= kg + seq!['='] + value);
    assert(!ka.contains('=')) by {
        if ka.contains('=') {
            let j = choose|j: int| 0 <= j < ka.len() && ka[j] == '=';
        }
    }
    assert(!kb.contains('=')) by {
        if kb.contains('=') {
            let j = choose|j: int| 0 <= j < kb.len() && kb[j] == '=';
        }
    }
    assert(!kg.contains('=')) by {
        if kg.contains('=') {
            let j = choose|j: int| 0 <= j < kg.len() && kg[j] == '=';
        }
    }
    lemma_first_index_after_key(ka, value);
    lemma_first_index_after_key(kb, value);
    lemma_first_index_after_key(kg, value);
    assert((ka + seq!['='] + value).subrange(0, ka.len() as int) =~= ka);
    assert((ka + seq!['='] + value).subrange(ka.len() + 1int, (ka + seq!['='] + value).len() as int) =~= value);
    assert((kb + seq!['='] + value).subrange(0, kb.len() as int) =~= kb);
    assert((kb + seq!['='] + value).subrange(kb.len() + 1int, (kb + seq!['='] + value).len() as int) =~= value);
    assert((kg + seq!['='] + value).subrange(0, kg.len() as int) =~= kg);
    assert((kg + seq!['='] + value).subrange(kg.len() + 1int, (kg + seq!['='] + value).len() as int) =~= value);
    assert(kb != ka);
    assert(kg != ka);
    assert(kg != kb);
    assert(toks.push("app_id="@ + value).drop_last() =~= toks);
    assert(toks.push("bot_token="@ + value).drop_last() =~= toks);
    assert(toks.push("github_token="@ + value).drop_last() =~= toks);
    assert(toks.push(plain).drop_last() =~= toks);
    lemma_no_eq_no_index(plain);
}

proof fn lemma_no_eq_no_index(s: Seq<char>)
    requires
        !s.contains('='),
    ensures
        first_index(s, '=') is None,
    decreases s.len(),
{
    if s.len() > 0 {
        assert(s[0] != '=') by {
            if s[0] == '=' {
                assert(s.contains('='));
            }
        }
        let t = s.subrange(1, s.len() as int);
        assert(!t.contains('=')) by {
            if t.contains('=') {
                let j = choose|j: int| 0 <= j < t.len() && t[j] == '=';
                assert(s[j + 1] == '=');
            }
        }
        lemma_no_eq_no_index(t);
    }
}

} // verus!

//! The text commands: what each decides and the texts it answers with.
use vstd::prelude::*;
use vstd::utf8::encode_utf8;
use crate::decimal::{decimal, push_decimal};
use crate::misc::{vowel_gen, is_vowel};
use crate::pattern::{regex_compiles, regex_captured_first, regex_capture_first};
use crate::store::{Database, key_path_spec};
use crate::text::{
    has_infix, replace_spec, prefix_chars, eq_str, contains_str, replace_str, prefix_string,
    push_str, to_owned_string,
};
use crate::web::{percent_encoded, url_encode};

verus! {

/// The only user allowed to run shell commands.
pub const BASH_OWNER: u64 = 465353539363930123;

/// What the shell command does.
#[derive(PartialEq, Eq, Structural, Clone, Copy, Debug)]
pub enum BashAction {
    /// Answer that the command is not available.
    Refuse,
    /// Do nothing (the command line mentions `kill`).
    Skip,
    /// Run the command line.
    Run,
}

/// The embed that reports a shell command's run.
pub struct BashReport {
    /// A link explaining the command line.
    pub description: String,
    pub stdout_field: String,
    pub stderr_field: String,
}

/// What a user's presence shows.
pub struct Activity {
    pub name: String,
    pub is_custom: bool,
    pub state: Option<String>,
}

/// The status of a user, summed up from their presence.
pub struct StatusSummary {
    /// The client used: desktop, mobile or web, the first that is active.
    pub client: String,
    /// The names of the activities, run together.
    pub kinds: String,
    /// The state of each custom activity, `None` for the others, run together.
    pub content: String,
}

/// The fields of the whois embed.
pub struct WhoisFields {
    pub intro: String,
    pub color: String,
    /// When the user registered: the date, a space, the time.
    pub registered: String,
    pub usernames: String,
}

/// A note, stored under its name in the notes node.
pub struct Note {
    note_name: String,
}

impl View for Note {
    type V = Seq<char>;

    closed spec fn view(&self) -> Seq<char> {
        self.note_name@
    }
}

impl Note {
    pub fn from(note_name: &str) -> (n: Note)
        ensures
            n@ == note_name@,
    {
        Note { note_name: to_owned_string(note_name) }
    }

    /// The file that holds the note in the notes node `db`.
    pub fn path(&self, db: &Database) -> (r: String)
        ensures
            r@ == key_path_spec(db@, self@),
    {
        db.key_path(self.note_name.as_str())
    }
}

/// Text shown in a code block field, cut to 1016 characters.
pub open spec fn code_field(text: Seq<char>) -> Seq<char> {
    "```\n"@ + prefix_chars(text, 1016) + "```\n"@
}

pub fn code_block_field(text: &str) -> (r: String)
    ensures
        r@ == code_field(text@),
{
    let mut r = to_owned_string("```\n");
    let cut = prefix_string(text, 1016);
    push_str(&mut r, cut.as_str());
    push_str(&mut r, "```\n");
    assert(r@ =~= code_field(text@));
    r
}

/// The reply to anyone but the owner who asks for a shell command.
pub fn bash_refusal() -> (r: &'static str)
    ensures
        r@ == "Not available for you"@,
{
    "Not available for you"
}

pub fn bash(author: u64, rest: &str) -> (r: BashAction)
    ensures
        author != BASH_OWNER ==> r == BashAction::Refuse,
        author == BASH_OWNER && has_infix(rest@, "kill"@) ==> r == BashAction::Skip,
        author == BASH_OWNER && !has_infix(rest@, "kill"@) ==> r == BashAction::Run,
{
    if author != BASH_OWNER {
        BashAction::Refuse
    } else if contains_str(rest, "kill") {
        BashAction::Skip
    } else {
        BashAction::Run
    }
}

/// The command line on one line: newlines become `; `.
pub open spec fn one_line(rest: Seq<char>) -> Seq<char> {
    replace_spec(rest, "\n"@, "; "@)
}

/// The report of a shell command: the command line on one line linking to its
/// explanation, and both outputs in code blocks.
pub fn bash_report(rest: &str, stdout: &str, stderr: &str) -> (r: BashReport)
    ensures
        r.description@ == "["@ + one_line(rest@) + "](https://explainshell.com/explain?cmd="@
            + percent_encoded(encode_utf8(one_line(rest@))) + ")"@,
        r.stdout_field@ == code_field(stdout@),
        r.stderr_field@ == code_field(stderr@),
{
    proof {
        reveal_strlit("\n");
    }
    let stripped = replace_str(rest, "\n", "; ");
    let encoded = url_encode(stripped.as_str());
    let mut d = to_owned_string("[");
    push_str(&mut d, stripped.as_str());
    push_str(&mut d, "](https://explainshell.com/explain?cmd=");
    push_str(&mut d, encoded.as_str());
    push_str(&mut d, ")");
    BashReport {
        description: d,
        stdout_field: code_block_field(stdout),
        stderr_field: code_block_field(stderr),
    }
}

/// The pattern of a code request: a fenced block with a language.
pub open spec fn exec_pattern() -> Seq<char> {
    "```(?P<lang>[a-z]+)(?s)(?P<code>\\n.*)```"@
}

/// The language and code of a code request; `Ok(None)` when the argument is
/// not a fenced block with a language; `Err` when the pattern does not compile
/// or a match lacks its code.
pub fn exec_request(args: &str) -> (r: Result<Option<(String, String)>, ()>)
    ensures
        !regex_compiles(exec_pattern()) ==> r is Err,
        regex_compiles(exec_pattern()) ==> match regex_captured_first(exec_pattern(), args@, "lang"@) {
            None => r == Ok::<Option<(String, String)>, ()>(None),
            Some(l) => match regex_captured_first(exec_pattern(), args@, "code"@) {
                Some(c) => r matches Ok(Some(p)) && p.0@ == l && p.1@ == c,
                None => r is Err,
            },
        },
{
    let lang = match regex_capture_first("```(?P<lang>[a-z]+)(?s)(?P<code>\\n.*)```", args, "lang") {
        Some(l) => l,
        None => return Err(()),
    };
    match lang {
        None => Ok(None),
        Some(l) => {
            let code = match regex_capture_first(
                "```(?P<lang>[a-z]+)(?s)(?P<code>\\n.*)```",
                args,
                "code",
            ) {
                Some(c) => c,
                None => return Err(()),
            };
            match code {
                Some(c) => Ok(Some((l, c))),
                None => Err(()),
            }
        },
    }
}

/// The output of a run: the compiler's output when compiling failed (a
/// non-zero code), else the program's output.
pub open spec fn exec_output_spec(compile: Option<(i64, Seq<char>)>, run_output: Seq<char>) -> Seq<char> {
    let first = match compile {
        Some((code, out)) => if code != 0 {
            out
        } else {
            Seq::empty()
        },
        None => Seq::empty(),
    };
    if first.len() == 0 {
        run_output
    } else {
        first
    }
}

pub fn exec_output(compile: &Option<(i64, String)>, run_output: &str) -> (r: String)
    ensures
        r@ == exec_output_spec(
            match compile {
                Some(c) => Some((c.0, c.1@)),
                None => None,
            },
            run_output@,
        ),
{
    let mut r = String::new();
    if let Some(c) = compile {
        if c.0 != 0 {
            push_str(&mut r, c.1.as_str());
        }
    }
    if r.as_str().is_empty() {
        push_str(&mut r, run_output);
    }
    r
}

/// The output reported when the code runner fails.
pub fn exec_failure(error_text: &str) -> (r: String)
    ensures
        r@ == "Error: Something went wrong: "@ + error_text@,
{
    let mut r = to_owned_string("Error: Something went wrong: ");
    push_str(&mut r, error_text);
    r
}

/// The reply to a run: `Ok` with the embed text, the output in a code block
/// tagged with the language and cut to 4070 characters; `Err` with the plain
/// reply "Error: No output received" when there is no output.
pub fn exec_reply(lang: &str, output: &str) -> (r: Result<String, &'static str>)
    ensures
        output@.len() == 0 ==> (r matches Err(t) && t@ == "Error: No output received"@),
        output@.len() > 0 ==> (r matches Ok(s) && s@ == "```"@ + lang@ + "\n"@ + prefix_chars(
            output@,
            4070,
        ) + "```"@),
{
    if output.is_empty() {
        return Err("Error: No output received");
    }
    let mut r = to_owned_string("```");
    push_str(&mut r, lang);
    push_str(&mut r, "\n");
    let cut = prefix_string(output, 4070);
    push_str(&mut r, cut.as_str());
    push_str(&mut r, "```");
    Ok(r)
}

/// How a code request is written, shown when one is malformed.
pub fn exec_usage() -> (r: String)
    ensures
        r@ == "> Incorrect syntax, the correct syntax is:\n\n"@ + "gp exec\n"@
            + "\\`\\`\\`<lang>\n"@ + "\t\t<code goes here>\n"@ + "\\`\\`\\`\n"@,
{
    let mut r = to_owned_string("> Incorrect syntax, the correct syntax is:\n\n");
    push_str(&mut r, "gp exec\n");
    push_str(&mut r, "\\`\\`\\`<lang>\n");
    push_str(&mut r, "\t\t<code goes here>\n");
    push_str(&mut r, "\\`\\`\\`\n");
    assert(r@ =~= "> Incorrect syntax, the correct syntax is:\n\n"@ + "gp exec\n"@
        + "\\`\\`\\`<lang>\n"@ + "\t\t<code goes here>\n"@ + "\\`\\`\\`\n"@);
    r
}

/// The article for a word, as `vowel_gen` gives it.
pub open spec fn article(w: Seq<char>) -> Seq<char> {
    if w.len() > 0 && is_vowel(w[0]) {
        seq!['A', 'n']
    } else {
        seq!['A']
    }
}

/// The whois fields: the random word introducing the user with a dictionary
/// link, their colour (`0000` when they have none) with a colour link, and
/// their previous names in a code block.
pub fn whois(
    intro_word: &str,
    color_hex: Option<&str>,
    registered_date: &str,
    registered_time: &str,
    prev_usernames: &str,
) -> (r: WhoisFields)
    ensures
        r.registered@ == registered_date@ + " "@ + registered_time@,
        r.intro@ == article(intro_word@) + " ["@ + intro_word@ + "](https://www.dictionary.com/browse/"@
            + intro_word@ + ")"@,
        r.color@ == ({
            let c = match color_hex {
                Some(h) => h@,
                None => "0000"@,
            };
            "[#"@ + c + "](https://www.colorhexa.com/"@ + c + ") (Heximal)"@
        }),
        r.usernames@ == code_field(prev_usernames@),
{
    let mut intro = to_owned_string(vowel_gen(intro_word));
    push_str(&mut intro, " [");
    push_str(&mut intro, intro_word);
    push_str(&mut intro, "](https://www.dictionary.com/browse/");
    push_str(&mut intro, intro_word);
    push_str(&mut intro, ")");
    let c: &str = match color_hex {
        Some(h) => h,
        None => "0000",
    };
    let mut color = to_owned_string("[#");
    push_str(&mut color, c);
    push_str(&mut color, "](https://www.colorhexa.com/");
    push_str(&mut color, c);
    push_str(&mut color, ") (Heximal)");
    let mut registered = to_owned_string(registered_date);
    push_str(&mut registered, " ");
    push_str(&mut registered, registered_time);
    WhoisFields { intro, color, registered, usernames: code_block_field(prev_usernames) }
}

pub open spec fn activity_kinds(a: Seq<Activity>) -> Seq<char>
    decreases a.len(),
{
    if a.len() == 0 {
        Seq::empty()
    } else {
        activity_kinds(a.drop_last()) + a.last().name@
    }
}

pub open spec fn activity_content(a: Seq<Activity>) -> Seq<char>
    decreases a.len(),
{
    if a.len() == 0 {
        Seq::empty()
    } else {
        activity_content(a.drop_last()) + if a.last().is_custom {
            a.last().state->0@
        } else {
            "None"@
        }
    }
}

/// The status of a user whose presence shows the given clients and activities.
pub fn status_summary(desktop: bool, mobile: bool, web: bool, activities: &Vec<Activity>) -> (r: StatusSummary)
    requires
        forall|i: int| 0 <= i < activities@.len() ==> (#[trigger] activities@[i]).is_custom ==> activities@[i].state is Some,
    ensures
        r.client@ == (if desktop {
            "Desktop"@
        } else if mobile {
            "Mobile"@
        } else if web {
            "Web"@
        } else {
            Seq::empty()
        }),
        r.kinds@ == activity_kinds(activities@),
        r.content@ == activity_content(activities@),
{
    let client = if desktop {
        to_owned_string("Desktop")
    } else if mobile {
        to_owned_string("Mobile")
    } else if web {
        to_owned_string("Web")
    } else {
        String::new()
    };
    let mut kinds = String::new();
    let mut content = String::new();
    let mut i: usize = 0;
    while i < activities.len()
        invariant
            i <= activities.len(),
            forall|j: int| 0 <= j < activities@.len() ==> (#[trigger] activities@[j]).is_custom ==> activities@[j].state is Some,
            kinds@ == activity_kinds(activities@.subrange(0, i as int)),
            content@ == activity_content(activities@.subrange(0, i as int)),
        decreases activities.len() - i,
    {
        let a = &activities[i];
        assert(activities@.subrange(0, i + 1).drop_last() =~= activities@.subrange(0, i as int));
        push_str(&mut kinds, a.name.as_str());
        if a.is_custom {
            match &a.state {
                Some(s) => push_str(&mut content, s.as_str()),
                None => {},
            }
        } else {
            push_str(&mut content, "None");
        }
        i = i + 1;
    }
    assert(activities@.subrange(0, i as int) =~= activities@);
    StatusSummary { client, kinds, content }
}

/// The status embed: its title and its fields (name, value) in order.
pub fn status(display_name: &str, s: &StatusSummary) -> (r: (String, Vec<(String, String)>))
    ensures
        r.0@ == "**"@ + display_name@ + "**'s status"@,
        ({
            let f = r.1@.map_values(|p: (String, String)| (p.0@, p.1@));
            let first = if s.kinds@.len() > 0 {
                seq![("Type"@, s.kinds@)]
            } else {
                seq![("Respose"@, "Not set or offline"@)]
            };
            let second = if s.client@.len() > 0 {
                seq![("Using from"@, s.client@)]
            } else {
                Seq::empty()
            };
            let third = if s.content@.len() > 0 {
                seq![("Content"@, s.content@)]
            } else {
                Seq::empty()
            };
            f == first + second + third
        }),
{
    let mut title = to_owned_string("**");
    push_str(&mut title, display_name);
    push_str(&mut title, "**'s status");
    let mut fields: Vec<(String, String)> = Vec::new();
    if !s.kinds.as_str().is_empty() {
        fields.push((to_owned_string("Type"), s.kinds.clone()));
    } else {
        fields.push((to_owned_string("Respose"), to_owned_string("Not set or offline")));
    }
    let ghost f1 = fields@.map_values(|p: (String, String)| (p.0@, p.1@));
    if !s.client.as_str().is_empty() {
        fields.push((to_owned_string("Using from"), s.client.clone()));
    }
    let ghost f2 = fields@.map_values(|p: (String, String)| (p.0@, p.1@));
    if !s.content.as_str().is_empty() {
        fields.push((to_owned_string("Content"), s.content.clone()));
    }
    let ghost f3 = fields@.map_values(|p: (String, String)| (p.0@, p.1@));
    proof {
        let first = if s.kinds@.len() > 0 {
            seq![("Type"@, s.kinds@)]
        } else {
            seq![("Respose"@, "Not set or offline"@)]
        };
        let second = if s.client@.len() > 0 {
            seq![("Using from"@, s.client@)]
        } else {
            Seq::empty()
        };
        let third = if s.content@.len() > 0 {
            seq![("Content"@, s.content@)]
        } else {
            Seq::empty()
        };
        assert(f1 =~= first);
        assert(f2 =~= first + second);
        assert(f3 =~= first + second + third);
    }
    (title, fields)
}

/// The avatar embed: the member's name in bold, and a reverse image search link.
pub fn av(display_name: &str, face: &str) -> (r: (String, String))
    ensures
        r.0@ == "**"@ + display_name@ + "**"@,
        r.1@ == "https://images.google.com/searchbyimage?image_url="@ + face@,
{
    let mut t = to_owned_string("**");
    push_str(&mut t, display_name);
    push_str(&mut t, "**");
    let mut u = to_owned_string("https://images.google.com/searchbyimage?image_url=");
    push_str(&mut u, face);
    (t, u)
}

/// The server settings that name a channel to watch.
pub open spec fn is_watch_setting_spec(key: Seq<char>) -> bool {
    key == "question_channels"@ || key == "feedback_channel"@ || key == "getting_started_channel"@
        || key == "introduction_channel"@ || key == "showcase_channel"@
}

/// The channels `config` records are exactly the question, feedback,
/// getting-started, introduction and showcase channels: with an argument, each
/// of these keys is recorded with no answer, and any other key is answered as
/// invalid.
pub proof fn lemma_watch_settings(key: Seq<char>, rest: Seq<char>)
    ensures
        is_watch_setting_spec("question_channels"@),
        is_watch_setting_spec("feedback_channel"@),
        is_watch_setting_spec("getting_started_channel"@),
        is_watch_setting_spec("introduction_channel"@),
        is_watch_setting_spec("showcase_channel"@),
        config_reply_spec(false, "question_channels"@, rest) is None,
        config_reply_spec(false, "feedback_channel"@, rest) is None,
        config_reply_spec(false, "getting_started_channel"@, rest) is None,
        config_reply_spec(false, "introduction_channel"@, rest) is None,
        config_reply_spec(false, "showcase_channel"@, rest) is None,
        key != "question_channels"@ && key != "feedback_channel"@ && key != "getting_started_channel"@
            && key != "introduction_channel"@ && key != "showcase_channel"@ ==> !is_watch_setting_spec(
            key,
        ) && config_reply_spec(false, key, rest) == Some("Invalid config parameter: "@ + rest),
        config_reply_spec(true, key, rest) == Some(rest + " no argument provided"@),
{
}

pub fn is_watch_setting(key: &str) -> (r: bool)
    ensures
        r == is_watch_setting_spec(key@),
{
    eq_str(key, "question_channels") || eq_str(key, "feedback_channel") || eq_str(
        key,
        "getting_started_channel",
    ) || eq_str(key, "introduction_channel") || eq_str(key, "showcase_channel")
}

/// A channel id as the database stores it: the 64 bits read as a signed integer.
pub open spec fn as_signed(id: u64) -> int {
    if id <= i64::MAX {
        id as int
    } else {
        id as int - 0x1_0000_0000_0000_0000
    }
}

/// The decimal rendering of a signed integer.
pub open spec fn signed_decimal(v: int) -> Seq<char> {
    if v >= 0 {
        decimal(v as nat)
    } else {
        seq!['-'] + decimal((-v) as nat)
    }
}

/// The statement that records channel `channel` under the setting `key`.
pub fn watch_setting_query(key: &str, channel: u64) -> (r: String)
    ensures
        r@ == "insert into server_config("@ + key@ + ") values("@ + signed_decimal(as_signed(channel))
            + ")"@,
{
    let mut r = to_owned_string("insert into server_config(");
    push_str(&mut r, key);
    push_str(&mut r, ") values(");
    let ghost head = r@;
    if channel <= 9223372036854775807u64 {
        push_decimal(&mut r, channel);
    } else {
        push_str(&mut r, "-");
        let neg: u64 = (18446744073709551615u64 - channel) + 1;
        push_decimal(&mut r, neg);
        proof {
            reveal_strlit("-");
        }
        assert(r@ =~= head + signed_decimal(as_signed(channel)));
    }
    push_str(&mut r, ")");
    r
}

/// The answer to `about`.
pub fn about() -> (r: &'static str)
    ensures
        r@ == "Welp! Just another noobish *thing*."@,
{
    "Welp! Just another noobish *thing*."
}

/// The embed of `invite`: its title and the value of its one field.
pub fn invite() -> (r: (&'static str, String))
    ensures
        r.0@ == "Robotify your server with optimus!"@,
        r.1@ == "[Click here](https://discord.com/oauth2/authorize?client_id=648118759105757185&scope=bot&permissions=8) to do so."@,
{
    let v = to_owned_string(
        "[Click here](https://discord.com/oauth2/authorize?client_id=648118759105757185&scope=bot&permissions=8) to do so.",
    );
    ("Robotify your server with optimus!", v)
}

/// How an embed refers to a file sent with it.
pub fn attachment_ref(path: &str) -> (r: String)
    ensures
        r@ == "attachment://"@ + path@,
{
    let mut r = to_owned_string("attachment://");
    push_str(&mut r, path);
    r
}

/// The answer after a note is written.
pub fn note_written(name: &str) -> (r: String)
    ensures
        r@ == "Note(**"@ + name@ + "**) written"@,
{
    let mut r = to_owned_string("Note(**");
    push_str(&mut r, name);
    push_str(&mut r, "**) written");
    r
}

/// The answer after a note is removed.
pub fn note_removed(name: &str) -> (r: String)
    ensures
        r@ == "Note(**"@ + name@ + "**) removed"@,
{
    let mut r = to_owned_string("Note(**");
    push_str(&mut r, name);
    push_str(&mut r, "**) removed");
    r
}

/// The answer after a note is linked under a second name.
pub fn note_linked(name: &str, alias: &str) -> (r: String)
    ensures
        r@ == "Note(**"@ + name@ + "**) linked As(**"@ + alias@ + "**)"@,
{
    let mut r = to_owned_string("Note(**");
    push_str(&mut r, name);
    push_str(&mut r, "**) linked As(**");
    push_str(&mut r, alias);
    push_str(&mut r, "**)");
    r
}

/// A note's name as the note list shows it.
pub fn note_list_cell(name: &str) -> (r: String)
    ensures
        r@ == "⌘`"@ + name@ + "`"@,
{
    let mut r = to_owned_string("⌘`");
    push_str(&mut r, name);
    push_str(&mut r, "`");
    r
}

/// What `config` answers, or `None` when it records the setting.
pub open spec fn config_reply_spec(args_empty: bool, key: Seq<char>, rest: Seq<char>) -> Option<Seq<char>> {
    if args_empty {
        Some(rest + " no argument provided"@)
    } else if is_watch_setting_spec(key) {
        None
    } else {
        Some("Invalid config parameter: "@ + rest)
    }
}

pub fn config_reply(args_empty: bool, key: &str, rest: &str) -> (r: Option<String>)
    ensures
        match r {
            Some(s) => config_reply_spec(args_empty, key@, rest@) == Some(s@),
            None => config_reply_spec(args_empty, key@, rest@) is None,
        },
{
    if args_empty {
        let mut r = to_owned_string(rest);
        push_str(&mut r, " no argument provided");
        Some(r)
    } else if is_watch_setting(key) {
        None
    } else {
        let mut r = to_owned_string("Invalid config parameter: ");
        push_str(&mut r, rest);
        Some(r)
    }
}

/// The answers of `editlog` when there is nothing to show.
pub fn editlog_refusal(not_a_reply: bool) -> (r: &'static str)
    ensures
        not_a_reply ==> r@ == "Use this command while replying to an edited message"@,
        !not_a_reply ==> r@ == "Not an edited message"@,
{
    if not_a_reply {
        "Use this command while replying to an edited message"
    } else {
        "Not an edited message"
    }
}

} // verus!

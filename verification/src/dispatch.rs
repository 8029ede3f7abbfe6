//! Which handler an interaction goes to.
use vstd::prelude::*;
use crate::text::eq_str;

verus! {

/// The handler of a button or menu click.
#[derive(PartialEq, Eq, Structural, Clone, Copy, Debug)]
pub enum ComponentRoute {
    /// The thread's close button.
    CloseThread,
    /// The getting-started button.
    GettingStarted,
    /// Anything else: a suggestion button.
    Suggestion,
}

pub fn route_component(custom_id: &str) -> (r: ComponentRoute)
    ensures
        custom_id@ == "gitpod_close_issue"@ ==> r == ComponentRoute::CloseThread,
        custom_id@ == "getting_started_letsgo"@ ==> r == ComponentRoute::GettingStarted,
        custom_id@ != "gitpod_close_issue"@ && custom_id@ != "getting_started_letsgo"@ ==> r
            == ComponentRoute::Suggestion,
{
    proof {
        reveal_strlit("gitpod_close_issue");
        reveal_strlit("getting_started_letsgo");
        assert("gitpod_close_issue"@[1] != "getting_started_letsgo"@[1]);
    }
    if eq_str(custom_id, "gitpod_close_issue") {
        ComponentRoute::CloseThread
    } else if eq_str(custom_id, "getting_started_letsgo") {
        ComponentRoute::GettingStarted
    } else {
        ComponentRoute::Suggestion
    }
}

/// The handler of a slash command.
#[derive(PartialEq, Eq, Structural, Clone, Copy, Debug)]
pub enum CommandRoute {
    Close,
    NothingToSeeHere,
    CreatePr,
}

/// `None` for a command the bot does not know.
pub fn route_command(name: &str) -> (r: Option<CommandRoute>)
    ensures
        name@ == "close"@ ==> r == Some(CommandRoute::Close),
        name@ == "nothing_to_see_here"@ ==> r == Some(CommandRoute::NothingToSeeHere),
        name@ == "create-pr"@ ==> r == Some(CommandRoute::CreatePr),
        name@ != "close"@ && name@ != "nothing_to_see_here"@ && name@ != "create-pr"@ ==> r is None,
{
    proof {
        reveal_strlit("close");
        reveal_strlit("nothing_to_see_here");
        reveal_strlit("create-pr");
        assert("close"@[0] != "nothing_to_see_here"@[0]);
        assert("close"@.len() != "create-pr"@.len());
        assert("nothing_to_see_here"@[0] != "create-pr"@[0]);
    }
    if eq_str(name, "close") {
        Some(CommandRoute::Close)
    } else if eq_str(name, "nothing_to_see_here") {
        Some(CommandRoute::NothingToSeeHere)
    } else if eq_str(name, "create-pr") {
        Some(CommandRoute::CreatePr)
    } else {
        None
    }
}

/// Only the company-name form is handled among submitted forms.
pub fn handles_modal(custom_id: &str) -> (r: bool)
    ensures
        r == (custom_id@ == "company_name_submitted"@),
{
    eq_str(custom_id, "company_name_submitted")
}

/// The last step of onboarding, once the company name is submitted.
pub fn company_submitted_text() -> (r: &'static str)
    ensures
        r@ == "**[4/4]**: You have personalized the server, congrats!"@,
{
    "**[4/4]**: You have personalized the server, congrats!"
}

/// The private answer to `nothing_to_see_here`.
pub fn posted_text() -> (r: &'static str)
    ensures
        r@ == "Posted message on this channel"@,
{
    "Posted message on this channel"
}

/// How long the bot runs before it starts itself anew: three days.
pub const RESTART_AFTER_SECS: u64 = 259200;

/// The fixed channels of the community server, for a development build or a
/// release build.
pub struct KnownChannels {
    pub introduction: u64,
    pub questions: u64,
    pub selfhosted_questions: u64,
    pub general: u64,
    pub off_topic: u64,
}

pub fn known_channels(development: bool) -> (c: KnownChannels)
    ensures
        development ==> c == (KnownChannels {
            introduction: 947769443516284939,
            questions: 1026115789721444384,
            selfhosted_questions: 1026800568989143051,
            general: 947769443516284943,
            off_topic: 947769443793141769,
        }),
        !development ==> c == (KnownChannels {
            introduction: 816249489911185418,
            questions: 1026792978854973460,
            selfhosted_questions: 1026800700002402336,
            general: 839379835662368768,
            off_topic: 972510491933032508,
        }),
{
    if development {
        KnownChannels {
            introduction: 947769443516284939,
            questions: 1026115789721444384,
            selfhosted_questions: 1026800568989143051,
            general: 947769443516284943,
            off_topic: 947769443793141769,
        }
    } else {
        KnownChannels {
            introduction: 816249489911185418,
            questions: 1026792978854973460,
            selfhosted_questions: 1026800700002402336,
            general: 839379835662368768,
            off_topic: 972510491933032508,
        }
    }
}

/// A channel whose questions the bot watches, as the settings table stores it.
pub struct QuestionChannels {
    pub id: u64,
}

/// A text option of a slash command.
pub struct OptionSpec {
    pub name: &'static str,
    pub description: &'static str,
    pub required: bool,
}

/// A slash command the bot registers in each server.
pub struct CommandSpec {
    pub name: &'static str,
    pub description: &'static str,
    /// Only administrators see it by default.
    pub admin_only: bool,
    pub options: Vec<OptionSpec>,
}

pub open spec fn option_view(o: OptionSpec) -> (Seq<char>, Seq<char>, bool) {
    (o.name@, o.description@, o.required)
}

/// The slash commands: `close`, `create-pr` with its page link and optional
/// title, and `nothing_to_see_here` with the text to post.
pub fn app_commands() -> (r: Vec<CommandSpec>)
    ensures
        r@.len() == 3,
        r@[0].name@ == "close"@ && r@[0].description@ == "Close a question"@ && !r@[0].admin_only
            && r@[0].options@.len() == 0,
        r@[1].name@ == "create-pr"@ && r@[1].description@
            == "Pull this thread into GitHub to merge into website"@ && r@[1].admin_only
            && r@[1].options@.map_values(|o: OptionSpec| option_view(o)) == seq![
            ("link"@, "Page link to a https://www.gitpod.io/docs/<page>"@, true),
            ("title"@, "Title of the FAQ"@, false),
        ],
        r@[2].name@ == "nothing_to_see_here"@ && r@[2].description@ == "Nope :P"@ && r@[2].admin_only
            && r@[2].options@.map_values(|o: OptionSpec| option_view(o)) == seq![
            ("value"@, ";-;"@, true),
        ],
{
    let mut pr_options: Vec<OptionSpec> = Vec::new();
    pr_options.push(
        OptionSpec {
            name: "link",
            description: "Page link to a https://www.gitpod.io/docs/<page>",
            required: true,
        },
    );
    pr_options.push(OptionSpec { name: "title", description: "Title of the FAQ", required: false });
    let mut post_options: Vec<OptionSpec> = Vec::new();
    post_options.push(OptionSpec { name: "value", description: ";-;", required: true });
    let mut r: Vec<CommandSpec> = Vec::new();
    r.push(
        CommandSpec {
            name: "close",
            description: "Close a question",
            admin_only: false,
            options: Vec::new(),
        },
    );
    r.push(
        CommandSpec {
            name: "create-pr",
            description: "Pull this thread into GitHub to merge into website",
            admin_only: true,
            options: pr_options,
        },
    );
    r.push(
        CommandSpec {
            name: "nothing_to_see_here",
            description: "Nope :P",
            admin_only: true,
            options: post_options,
        },
    );
    assert(r@[1].options@.map_values(|o: OptionSpec| option_view(o)) =~= seq![
        ("link"@, "Page link to a https://www.gitpod.io/docs/<page>"@, true),
        ("title"@, "Title of the FAQ"@, false),
    ]);
    assert(r@[2].options@.map_values(|o: OptionSpec| option_view(o)) =~= seq![("value"@, ";-;"@, true)]);
    r
}

} // verus!

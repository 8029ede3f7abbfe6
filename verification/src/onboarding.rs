//! The getting-started flow: a newcomer picks channels, subscription, a reason
//! for joining and how they found the project; the bot then settles their roles.
use vstd::prelude::*;
use crate::config::DiscordChannels;
use crate::decimal::decimal;
use crate::mention::{user_mention, channel_mention, push_user_mention, push_channel_mention};
use crate::text::{
    has_infix, occurs_at, eq_str, push_str, to_owned_string, lemma_push_contains, views_of, extend_strings, contains_string,
};

verus! {

/// One option of a selection menu.
pub struct MenuEntry {
    pub value: &'static str,
    pub label: &'static str,
    pub display_emoji: &'static str,
    pub description: &'static str,
}

/// The channels the flow points newcomers to, all required.
pub struct OnboardingChannels {
    pub primary_questions: u64,
    pub secondary_questions: u64,
    pub introduction: u64,
    pub general: u64,
    pub off_topic: u64,
}

/// The first channel setting found missing, in the order they are checked.
#[derive(PartialEq, Eq, Structural, Clone, Copy, Debug)]
pub enum ConfigError {
    NoChannels,
    NoPrimaryQuestions,
    NoSecondaryQuestions,
    NoIntroduction,
    NoGeneral,
    NoOffTopic,
}

/// What the bot asks next after a component of the flow was used.
#[derive(PartialEq, Eq, Structural, Clone, Copy, Debug)]
pub enum Prompt {
    /// Step 2: subscribe to announcements?
    Subscription,
    /// Step 3: why did you join?
    JoinReason,
    /// Steps 4 and 5: company name and how the newcomer found the project; the flow ends.
    Finish,
    /// Not a component of this flow.
    Ignore,
}

/// The answers gathered so far.
pub struct Onboarding {
    /// Role names chosen so far.
    pub role_choices: Vec<String>,
    /// The subscription question was answered, which makes the subscriber role assignable.
    pub subscriber_offered: bool,
    /// The ids of the join-reason buttons pressed, concatenated.
    pub join_reason: String,
}

/// What to do with the newcomer's roles at the end of the flow.
pub struct AssignPlan {
    /// Roles to create if needed and grant (`None`: grant nothing).
    pub grant: Option<Vec<String>>,
    /// Remove the temporary role, which the member holds.
    pub remove_temp: bool,
    /// Add the member role, which the member lacks.
    pub add_member: bool,
}

/// The values of the channel roles on offer in step 1.
pub open spec fn additional_role_values() -> Seq<Seq<char>> {
    seq![
        "JetBrainsIDEs"@, "DevX"@, "SelfHosted"@, "OnMobile"@, "Bash"@, "C"@, "CPP"@, "CSharp"@,
        "Docker"@, "Go"@, "Haskell"@, "Java"@, "Js"@, "Kotlin"@, "Lua"@, "Nim"@, "Nix"@,
        "Node"@, "Perl"@, "Php"@, "Python"@, "Ruby"@, "Rust"@,
    ]
}

/// The values of the answers on offer in step 5.
pub open spec fn poll_values() -> Seq<Seq<char>> {
    seq![
        "Found: FromFriend"@, "Found: FromGoogle"@, "Found: FromYouTube"@, "Found: FromTwitter"@,
        "Found: FromGitRepo"@,
    ]
}

pub open spec fn entry_values(v: Seq<MenuEntry>) -> Seq<Seq<char>> {
    v.map_values(|e: MenuEntry| e.value@)
}

/// The roles that may be removed and reassigned at the end of the flow.
pub open spec fn assignable_spec(offered: bool) -> Seq<Seq<char>> {
    additional_role_values() + (if offered {
        seq!["Subscriber"@]
    } else {
        Seq::empty()
    }) + poll_values()
}

/// The effect of using component `id` with selected `values` on the answers:
/// the prompt, then the new choices, subscription flag and join reason.
pub open spec fn step_spec(
    choices: Seq<Seq<char>>,
    offered: bool,
    reason: Seq<char>,
    id: Seq<char>,
    values: Seq<Seq<char>>,
) -> (Prompt, Seq<Seq<char>>, bool, Seq<char>) {
    if id == "channel_choice"@ {
        (Prompt::Subscription, choices + values, offered, reason)
    } else if id == "subscribed"@ {
        (Prompt::JoinReason, choices.push("Subscriber"@), true, reason)
    } else if id == "not_subscribed"@ {
        (Prompt::JoinReason, choices, true, reason)
    } else if id == "hangout"@ || id == "gitpodio_help"@ || id == "selfhosted_help"@ {
        (Prompt::Finish, choices, offered, reason + id)
    } else {
        (Prompt::Ignore, choices, offered, reason)
    }
}

/// The steps of the flow: choosing channels adds the chosen roles; answering
/// the subscription question offers the subscriber role, and adds it only for
/// a yes; a join-reason button records its id and ends the flow; any other
/// component changes nothing. Only channel choices and a yes add roles.
pub proof fn lemma_flow_steps(
    choices: Seq<Seq<char>>,
    offered: bool,
    reason: Seq<char>,
    id: Seq<char>,
    values: Seq<Seq<char>>,
)
    ensures
        step_spec(choices, offered, reason, "channel_choice"@, values) == (
            Prompt::Subscription,
            choices + values,
            offered,
            reason,
        ),
        step_spec(choices, offered, reason, "subscribed"@, values) == (
            Prompt::JoinReason,
            choices.push("Subscriber"@),
            true,
            reason,
        ),
        step_spec(choices, offered, reason, "not_subscribed"@, values) == (
            Prompt::JoinReason,
            choices,
            true,
            reason,
        ),
        step_spec(choices, offered, reason, "selfhosted_help"@, values) == (
            Prompt::Finish,
            choices,
            offered,
            reason + "selfhosted_help"@,
        ),
        step_spec(choices, offered, reason, "gitpodio_help"@, values).3 == reason + "gitpodio_help"@,
        step_spec(choices, offered, reason, "hangout"@, values).3 == reason + "hangout"@,
        step_spec(choices, offered, reason, id, values).1 != choices ==> id == "channel_choice"@ || id
            == "subscribed"@,
        step_spec(choices, offered, reason, id, values).0 == Prompt::Ignore ==> step_spec(
            choices,
            offered,
            reason,
            id,
            values,
        ) == (Prompt::Ignore, choices, offered, reason),
{
    reveal_strlit("channel_choice");
    reveal_strlit("subscribed");
    reveal_strlit("not_subscribed");
    reveal_strlit("hangout");
    reveal_strlit("gitpodio_help");
    reveal_strlit("selfhosted_help");
    assert("channel_choice"@[0] != "subscribed"@[0]);
    assert("channel_choice"@[0] != "not_subscribed"@[0]);
    assert("channel_choice"@[0] != "hangout"@[0]);
    assert("channel_choice"@[0] != "gitpodio_help"@[0]);
    assert("channel_choice"@[0] != "selfhosted_help"@[0]);
    assert("subscribed"@[0] != "not_subscribed"@[0]);
    assert("subscribed"@[0] != "hangout"@[0]);
    assert("subscribed"@[0] != "gitpodio_help"@[0]);
    assert("subscribed"@[1] != "selfhosted_help"@[1]);
    assert("not_subscribed"@[0] != "hangout"@[0]);
    assert("not_subscribed"@[0] != "gitpodio_help"@[0]);
    assert("not_subscribed"@[0] != "selfhosted_help"@[0]);
}

/// `s` without any copy of `w`, in order.
pub open spec fn without(s: Seq<Seq<char>>, w: Seq<char>) -> Seq<Seq<char>>
    decreases s.len(),
{
    if s.len() == 0 {
        Seq::empty()
    } else if s.last() == w {
        without(s.drop_last(), w)
    } else {
        without(s.drop_last(), w).push(s.last())
    }
}

/// A choice of "none" is never granted, and every other choice is.
pub proof fn lemma_none_never_granted(s: Seq<Seq<char>>, w: Seq<char>, x: Seq<char>)
    ensures
        !without(s, w).contains(w),
        x != w ==> (without(s, w).contains(x) <==> s.contains(x)),
    decreases s.len(),
{
    if s.len() > 0 {
        lemma_none_never_granted(s.drop_last(), w, x);
        let d = s.drop_last();
        let r = without(d, w);
        if s.last() != w {
            assert(r.push(s.last()).contains(w) ==> r.contains(w)) by {
                if r.push(s.last()).contains(w) {
                    let k = choose|k: int| 0 <= k < r.push(s.last()).len() && r.push(s.last())[k] == w;
                    assert(r[k] == w);
                }
            }
            if x != w {
                if s.contains(x) {
                    let k = choose|k: int| 0 <= k < s.len() && s[k] == x;
                    if k < d.len() {
                        assert(d[k] == x);
                        let j = choose|j: int| 0 <= j < r.len() && r[j] == x;
                        assert(r.push(s.last())[j] == x);
                    } else {
                        assert(r.push(s.last())[r.len() as int] == x);
                    }
                }
                if r.push(s.last()).contains(x) {
                    let k = choose|k: int| 0 <= k < r.push(s.last()).len() && r.push(s.last())[k] == x;
                    if k < r.len() {
                        assert(r[k] == x);
                        let j = choose|j: int| 0 <= j < d.len() && d[j] == x;
                        assert(s[j] == x);
                    } else {
                        assert(s[s.len() - 1] == x);
                    }
                }
            }
        } else if x != w {
            if s.contains(x) {
                let k = choose|k: int| 0 <= k < s.len() && s[k] == x;
                assert(k < d.len());
                assert(d[k] == x);
            }
            if d.contains(x) {
                let k = choose|k: int| 0 <= k < d.len() && d[k] == x;
                assert(s[k] == x);
            }
        }
    }
}

/// The ids of the roles whose name is among `names`, in order.
pub open spec fn role_ids_named(roles: Seq<(u64, Seq<char>)>, names: Seq<Seq<char>>) -> Seq<u64>
    decreases roles.len(),
{
    if roles.len() == 0 {
        Seq::empty()
    } else if names.contains(roles.last().1) {
        role_ids_named(roles.drop_last(), names).push(roles.last().0)
    } else {
        role_ids_named(roles.drop_last(), names)
    }
}

pub open spec fn role_pairs(roles: Seq<(u64, String)>) -> Seq<(u64, Seq<char>)> {
    roles.map_values(|r: (u64, String)| (r.0, r.1@))
}

/// The message that ends step 5.
pub open spec fn closing_message(never_introduced: bool, user: u64, introduction: u64) -> Seq<char> {
    if never_introduced {
        "Thank you "@ + user_mention(user) + "! To unlock the server, drop by "@ + channel_mention(
            introduction,
        ) + " :wave:\n"@ + "\nWe’d love to get to know you better and hear about:\n"@
            + "> 🔧 what you’re working on!\n"@
            + "> 🛑 what blocks you most in your daily dev workflow\n"@
            + "> 🌈 your favourite Gitpod feature\n"@ + "> ✨ your favourite emoji\n"@
    } else {
        "Awesome, your server profile will be updated now!"@
    }
}

/// The line of the welcome message that answers the join reason.
pub open spec fn reason_line(reason: Seq<char>, ch: OnboardingChannels) -> Seq<char> {
    if reason == "gitpodio_help"@ {
        "**You mentioned that** you need help with Gitpod.io, please ask in "@ + channel_mention(
            ch.primary_questions,
        ) + "\n\n"@
    } else if reason == "selfhosted_help"@ {
        "**You mentioned that** you need help with selfhosted, please ask in "@ + channel_mention(
            ch.secondary_questions,
        ) + "\n\n"@
    } else {
        Seq::empty()
    }
}

/// The welcome message posted in the thread opened on a newcomer's introduction.
pub open spec fn welcome_spec(author: u64, reason: Seq<char>, ch: OnboardingChannels) -> Seq<char> {
    "Welcome to the Gitpod community "@ + user_mention(author) + " 🙌\n\n"@ + reason_line(reason, ch)
        + "**Here are some channels that you should check out:**\n"@ + "> • "@ + channel_mention(
        ch.general,
    ) + " - for tech, programming and anything related 🖥\n"@ + "> • "@ + channel_mention(
        ch.off_topic,
    ) + " - for any random discussions ☕️\n"@ + "> • "@ + channel_mention(ch.primary_questions)
        + " - have a question about Gitpod? this is the place to ask! ❓\n\n"@
        + "…And there’s more! Take your time to explore :)\n\n"@
        + "**Feel free to check out the following pages to learn more about Gitpod:**\n"@
        + "> • https://www.gitpod.io/community\n"@ + "> • https://www.gitpod.io/about\n"@
}

/// The welcome message of a newcomer who asked for help points them to the
/// right questions channel: the self-hosted one for self-hosted help, the
/// Gitpod.io one for Gitpod.io help.
pub proof fn lemma_welcome_points_to_questions_channel(author: u64, ch: OnboardingChannels)
    ensures
        has_infix(
            welcome_spec(author, "selfhosted_help"@, ch),
            "**You mentioned that** you need help with selfhosted, please ask in <#"@ + decimal(
                ch.secondary_questions as nat,
            ) + ">\n\n"@,
        ),
        has_infix(
            welcome_spec(author, "gitpodio_help"@, ch),
            "**You mentioned that** you need help with Gitpod.io, please ask in <#"@ + decimal(
                ch.primary_questions as nat,
            ) + ">\n\n"@,
        ),
{
    reveal_strlit("selfhosted_help");
    reveal_strlit("gitpodio_help");
    reveal_strlit("\n\n");
    reveal_strlit("**You mentioned that** you need help with selfhosted, please ask in ");
    reveal_strlit("**You mentioned that** you need help with selfhosted, please ask in <#");
    reveal_strlit("**You mentioned that** you need help with Gitpod.io, please ask in ");
    reveal_strlit("**You mentioned that** you need help with Gitpod.io, please ask in <#");
    reveal_strlit(">\n\n");
    assert("selfhosted_help"@[0] != "gitpodio_help"@[0]);
    let pre = "Welcome to the Gitpod community "@ + user_mention(author) + " 🙌\n\n"@;
    let sh = welcome_spec(author, "selfhosted_help"@, ch);
    let line_s = reason_line("selfhosted_help"@, ch);
    assert(line_s =~= "**You mentioned that** you need help with selfhosted, please ask in <#"@ + decimal(
        ch.secondary_questions as nat,
    ) + ">\n\n"@);
    assert(sh.subrange(pre.len() as int, (pre.len() + line_s.len()) as int) =~= line_s);
    assert(occurs_at(sh, line_s, pre.len() as int));
    let gh = welcome_spec(author, "gitpodio_help"@, ch);
    let line_g = reason_line("gitpodio_help"@, ch);
    assert(line_g =~= "**You mentioned that** you need help with Gitpod.io, please ask in <#"@ + decimal(
        ch.primary_questions as nat,
    ) + ">\n\n"@);
    assert(gh.subrange(pre.len() as int, (pre.len() + line_g.len()) as int) =~= line_g);
    assert(occurs_at(gh, line_g, pre.len() as int));
}

/// The number of words of an introduction, as `words_count::count` counts them.
pub uninterp spec fn word_count_of(text: Seq<char>) -> nat;

/// Counts the words of `text` with `words_count::count`.
#[verifier::external_body]
fn word_count(text: &str) -> (n: usize)
    ensures
        n == word_count_of(text@),
{
    words_count::count(text).words
}

/// The channel roles on offer in step 1.
pub fn additional_role_entries() -> (v: Vec<MenuEntry>)
    ensures
        entry_values(v@) == additional_role_values(),
{
    let mut v = vec![
        MenuEntry {
            value: "JetBrainsIDEs",
            description: "Discuss about Jetbrains IDEs for Gitpod!",
            label: "JetBrains (BETA)",
            display_emoji: "🧠",
        },
        MenuEntry {
            value: "DevX",
            description: "All things about DevX",
            label: "Developer Experience",
            display_emoji: "✨",
        },
        MenuEntry {
            value: "SelfHosted",
            description: "Do you selfhost Gitpod? Then you need this!",
            label: "Self Hosted Gitpod",
            display_emoji: "🏡",
        },
        MenuEntry {
            value: "OnMobile",
            description: "Talk about using Gitpod on mobile devices",
            label: "Mobile and tablets",
            display_emoji: "📱",
        },
    ];
    let langs = vec![
        "Bash", "C", "CPP", "CSharp", "Docker", "Go", "Haskell", "Java", "Js", "Kotlin", "Lua",
        "Nim", "Nix", "Node", "Perl", "Php", "Python", "Ruby", "Rust",
    ];
    let mut i: usize = 0;
    while i < langs.len()
        invariant
            i <= langs.len(),
            langs@ == seq![
                "Bash", "C", "CPP", "CSharp", "Docker", "Go", "Haskell", "Java", "Js", "Kotlin",
                "Lua", "Nim", "Nix", "Node", "Perl", "Php", "Python", "Ruby", "Rust",
            ],
            entry_values(v@) =~= seq!["JetBrainsIDEs"@, "DevX"@, "SelfHosted"@, "OnMobile"@]
                + langs@.subrange(0, i as int).map_values(|s: &str| s@),
        decreases langs.len() - i,
    {
        let l = langs[i];
        let ghost before = entry_values(v@);
        assert(langs@.subrange(0, i + 1).map_values(|s: &str| s@) =~= langs@.subrange(
            0,
            i as int,
        ).map_values(|s: &str| s@).push(l@));
        v.push(MenuEntry { label: l, description: "Discussions", display_emoji: "📜", value: l });
        assert(entry_values(v@) =~= before.push(l@));
        i = i + 1;
    }
    assert(entry_values(v@) =~= additional_role_values());
    v
}

/// The answers on offer in step 5.
pub fn poll_entries() -> (v: Vec<MenuEntry>)
    ensures
        entry_values(v@) == poll_values(),
{
    let v = vec![
        MenuEntry {
            value: "Found: FromFriend",
            label: "Friend or colleague",
            description: "A friend or colleague of mine introduced Gitpod to me",
            display_emoji: "🫂",
        },
        MenuEntry {
            value: "Found: FromGoogle",
            label: "Google",
            description: "I found Gitpod from a Google search",
            display_emoji: "🔎",
        },
        MenuEntry {
            value: "Found: FromYouTube",
            label: "YouTube",
            description: "Saw Gitpod on a Youtube Video",
            display_emoji: "📺",
        },
        MenuEntry {
            value: "Found: FromTwitter",
            label: "Twitter",
            description: "Saw people talking about Gitpod on a Tweet",
            display_emoji: "🐦",
        },
        MenuEntry {
            value: "Found: FromGitRepo",
            label: "Git Repository",
            description: "Found Gitpod on a Git repository",
            display_emoji: "✨",
        },
    ];
    assert(entry_values(v@) =~= poll_values());
    v
}

/// The channels the flow needs, from the configuration.
pub fn onboarding_channels(channels: &Option<DiscordChannels>) -> (r: Result<
    OnboardingChannels,
    ConfigError,
>)
    ensures
        match channels {
            None => r == Err::<OnboardingChannels, ConfigError>(ConfigError::NoChannels),
            Some(c) => match (
                c.primary_questions_channel_id,
                c.secondary_questions_channel_id,
                c.introduction_channel_id,
                c.general_channel_id,
                c.off_topic_channel_id,
            ) {
                (None, _, _, _, _) => r == Err::<OnboardingChannels, ConfigError>(
                    ConfigError::NoPrimaryQuestions,
                ),
                (Some(_), None, _, _, _) => r == Err::<OnboardingChannels, ConfigError>(
                    ConfigError::NoSecondaryQuestions,
                ),
                (Some(_), Some(_), None, _, _) => r == Err::<OnboardingChannels, ConfigError>(
                    ConfigError::NoIntroduction,
                ),
                (Some(_), Some(_), Some(_), None, _) => r == Err::<OnboardingChannels, ConfigError>(
                    ConfigError::NoGeneral,
                ),
                (Some(_), Some(_), Some(_), Some(_), None) => r == Err::<
                    OnboardingChannels,
                    ConfigError,
                >(ConfigError::NoOffTopic),
                (Some(p), Some(s), Some(i), Some(g), Some(o)) => r == Ok::<
                    OnboardingChannels,
                    ConfigError,
                >(
                    OnboardingChannels {
                        primary_questions: p,
                        secondary_questions: s,
                        introduction: i,
                        general: g,
                        off_topic: o,
                    },
                ),
            },
        },
{
    match channels {
        None => Err(ConfigError::NoChannels),
        Some(c) => {
            let p = match c.primary_questions_channel_id {
                Some(x) => x,
                None => return Err(ConfigError::NoPrimaryQuestions),
            };
            let s = match c.secondary_questions_channel_id {
                Some(x) => x,
                None => return Err(ConfigError::NoSecondaryQuestions),
            };
            let i = match c.introduction_channel_id {
                Some(x) => x,
                None => return Err(ConfigError::NoIntroduction),
            };
            let g = match c.general_channel_id {
                Some(x) => x,
                None => return Err(ConfigError::NoGeneral),
            };
            let o = match c.off_topic_channel_id {
                Some(x) => x,
                None => return Err(ConfigError::NoOffTopic),
            };
            Ok(
                OnboardingChannels {
                    primary_questions: p,
                    secondary_questions: s,
                    introduction: i,
                    general: g,
                    off_topic: o,
                },
            )
        },
    }
}

impl Onboarding {
    /// No answers yet.
    pub fn new() -> (r: Onboarding)
        ensures
            r.role_choices@.len() == 0,
            !r.subscriber_offered,
            r.join_reason@.len() == 0,
    {
        Onboarding { role_choices: Vec::new(), subscriber_offered: false, join_reason: String::new() }
    }

    /// Records the use of component `custom_id` with the selected `values`
    /// and tells what to ask next.
    pub fn on_component(&mut self, custom_id: &str, values: &Vec<String>) -> (p: Prompt)
        ensures
            (p, views_of(final(self).role_choices@), final(self).subscriber_offered, final(self).join_reason@) == step_spec(
                views_of(old(self).role_choices@),
                old(self).subscriber_offered,
                old(self).join_reason@,
                custom_id@,
                views_of(values@),
            ),
    {
        if eq_str(custom_id, "channel_choice") {
            extend_strings(&mut self.role_choices, values);
            Prompt::Subscription
        } else if eq_str(custom_id, "subscribed") {
            let ghost before = views_of(self.role_choices@);
            self.role_choices.push(to_owned_string("Subscriber"));
            assert(views_of(self.role_choices@) =~= before.push("Subscriber"@));
            self.subscriber_offered = true;
            Prompt::JoinReason
        } else if eq_str(custom_id, "not_subscribed") {
            self.subscriber_offered = true;
            Prompt::JoinReason
        } else if eq_str(custom_id, "hangout") || eq_str(custom_id, "gitpodio_help") || eq_str(
            custom_id,
            "selfhosted_help",
        ) {
            push_str(&mut self.join_reason, custom_id);
            Prompt::Finish
        } else {
            Prompt::Ignore
        }
    }

    /// Records the answers of step 5.
    pub fn add_poll_answers(&mut self, values: &Vec<String>)
        ensures
            views_of(final(self).role_choices@) == views_of(old(self).role_choices@) + views_of(
                values@,
            ),
            final(self).subscriber_offered == old(self).subscriber_offered,
            final(self).join_reason@ == old(self).join_reason@,
    {
        extend_strings(&mut self.role_choices, values);
    }

    /// The role names that the flow may have given before, and removes first.
    pub fn assignable_values(&self) -> (r: Vec<String>)
        ensures
            views_of(r@) == assignable_spec(self.subscriber_offered),
    {
        let mut r: Vec<String> = Vec::new();
        let extra = additional_role_entries();
        let mut i: usize = 0;
        while i < extra.len()
            invariant
                i <= extra.len(),
                entry_values(extra@) == additional_role_values(),
                views_of(r@) =~= additional_role_values().subrange(0, i as int),
            decreases extra.len() - i,
        {
            let ghost before = views_of(r@);
            r.push(to_owned_string(extra[i].value));
            assert(views_of(r@) =~= before.push(entry_values(extra@)[i as int]));
            i = i + 1;
        }
        if self.subscriber_offered {
            let ghost before = views_of(r@);
            r.push(to_owned_string("Subscriber"));
            assert(views_of(r@) =~= before.push("Subscriber"@));
        }
        let ghost mid = views_of(r@);
        let poll = poll_entries();
        let mut k: usize = 0;
        while k < poll.len()
            invariant
                k <= poll.len(),
                entry_values(poll@) == poll_values(),
                views_of(r@) =~= mid + poll_values().subrange(0, k as int),
            decreases poll.len() - k,
        {
            let ghost before = views_of(r@);
            r.push(to_owned_string(poll[k].value));
            assert(views_of(r@) =~= before.push(entry_values(poll@)[k as int]));
            k = k + 1;
        }
        assert(views_of(r@) =~= assignable_spec(self.subscriber_offered));
        r
    }

    /// The reply that ends step 5.
    pub fn closing_message(never_introduced: bool, user: u64, introduction: u64) -> (r: String)
        ensures
            r@ == closing_message(never_introduced, user, introduction),
    {
        let mut m = String::new();
        if never_introduced {
            push_str(&mut m, "Thank you ");
            push_user_mention(&mut m, user);
            push_str(&mut m, "! To unlock the server, drop by ");
            push_channel_mention(&mut m, introduction);
            push_str(&mut m, " :wave:\n");
            push_str(&mut m, "\nWe’d love to get to know you better and hear about:\n");
            push_str(&mut m, "> 🔧 what you’re working on!\n");
            push_str(&mut m, "> 🛑 what blocks you most in your daily dev workflow\n");
            push_str(&mut m, "> 🌈 your favourite Gitpod feature\n");
            push_str(&mut m, "> ✨ your favourite emoji\n");
        } else {
            push_str(&mut m, "Awesome, your server profile will be updated now!");
        }
        assert(m@ =~= closing_message(never_introduced, user, introduction));
        m
    }
}

/// Whether the newcomer still has to introduce themself: not when the member
/// role or the staff role is known to be held, nor when they already posted in
/// the introduction channel. `holds_core_role` is `None` when the member's
/// roles are not known.
pub fn never_introduced(holds_core_role: Option<bool>, intro_posts: usize) -> (r: bool)
    ensures
        r == (!(holds_core_role == Some(true)) && intro_posts == 0),
{
    let mut status = true;
    if let Some(held) = holds_core_role {
        status = !held;
    }
    if status {
        status = intro_posts < 1;
    }
    status
}

/// Whether an introduction is long enough to be kept and celebrated with
/// reactions (more than four words); a shorter one is deleted.
pub fn introduction_kept(text: &str) -> (r: bool)
    ensures
        r == (word_count_of(text@) > 4),
{
    word_count(text) > 4
}

/// Whether the join reason calls for the self-hosted role.
pub fn wants_selfhosted_role(join_reason: &str) -> (r: bool)
    ensures
        r == (join_reason@ == "selfhosted_help"@),
{
    eq_str(join_reason, "selfhosted_help")
}

/// The welcome message for `author` in the thread opened on their introduction.
pub fn welcome_message(author: u64, join_reason: &str, ch: &OnboardingChannels) -> (r: String)
    ensures
        r@ == welcome_spec(author, join_reason@, *ch),
{
    let mut m = String::new();
    push_str(&mut m, "Welcome to the Gitpod community ");
    push_user_mention(&mut m, author);
    push_str(&mut m, " 🙌\n\n");
    let ghost head = m@;
    if eq_str(join_reason, "gitpodio_help") {
        push_str(&mut m, "**You mentioned that** you need help with Gitpod.io, please ask in ");
        push_channel_mention(&mut m, ch.primary_questions);
        push_str(&mut m, "\n\n");
    } else if eq_str(join_reason, "selfhosted_help") {
        push_str(&mut m, "**You mentioned that** you need help with selfhosted, please ask in ");
        push_channel_mention(&mut m, ch.secondary_questions);
        push_str(&mut m, "\n\n");
    }
    assert(m@ =~= head + reason_line(join_reason@, *ch));
    push_str(&mut m, "**Here are some channels that you should check out:**\n");
    push_str(&mut m, "> • ");
    push_channel_mention(&mut m, ch.general);
    push_str(&mut m, " - for tech, programming and anything related 🖥\n");
    push_str(&mut m, "> • ");
    push_channel_mention(&mut m, ch.off_topic);
    push_str(&mut m, " - for any random discussions ☕️\n");
    push_str(&mut m, "> • ");
    push_channel_mention(&mut m, ch.primary_questions);
    push_str(&mut m, " - have a question about Gitpod? this is the place to ask! ❓\n\n");
    push_str(&mut m, "…And there’s more! Take your time to explore :)\n\n");
    push_str(&mut m, "**Feel free to check out the following pages to learn more about Gitpod:**\n");
    push_str(&mut m, "> • https://www.gitpod.io/community\n");
    push_str(&mut m, "> • https://www.gitpod.io/about\n");
    assert(m@ =~= welcome_spec(author, join_reason@, *ch));
    m
}

/// The roles of `member_roles` (id and name) to remove before reassigning:
/// those named like an assignable role.
pub fn removable_roles(member_roles: &Vec<(u64, String)>, assignable: &Vec<String>) -> (r: Vec<u64>)
    ensures
        r@ == role_ids_named(role_pairs(member_roles@), views_of(assignable@)),
{
    let mut r: Vec<u64> = Vec::new();
    let mut i: usize = 0;
    while i < member_roles.len()
        invariant
            i <= member_roles.len(),
            r@ == role_ids_named(
                role_pairs(member_roles@).subrange(0, i as int),
                views_of(assignable@),
            ),
        decreases member_roles.len() - i,
    {
        let ghost pre = role_pairs(member_roles@).subrange(0, i as int);
        let ghost next = role_pairs(member_roles@).subrange(0, i + 1);
        assert(next.drop_last() =~= pre);
        let (id, name) = (member_roles[i].0, &member_roles[i].1);
        if contains_string(assignable, name.as_str()) {
            r.push(id);
        }
        i = i + 1;
    }
    assert(role_pairs(member_roles@).subrange(0, i as int) =~= role_pairs(member_roles@));
    r
}

/// What to do with the newcomer's roles: grant the chosen roles unless the
/// only choice was "none" (a `"none"` choice is never granted), remove the
/// temporary role if held, add the member role if missing.
pub fn assign_plan(
    choices: &Vec<String>,
    member_role_ids: &Vec<u64>,
    temp_role: u64,
    member_role: u64,
) -> (r: AssignPlan)
    ensures
        (views_of(choices@).len() > 1 || !views_of(choices@).contains("none"@)) ==> (r.grant matches Some(g)
            && views_of(g@) == without(views_of(choices@), "none"@)),
        !(views_of(choices@).len() > 1 || !views_of(choices@).contains("none"@)) ==> r.grant is None,
        r.remove_temp == member_role_ids@.contains(temp_role),
        r.add_member == !member_role_ids@.contains(member_role),
{
    let grant = if choices.len() > 1 || !contains_string(choices, "none") {
        let mut g: Vec<String> = Vec::new();
        let mut i: usize = 0;
        while i < choices.len()
            invariant
                i <= choices.len(),
                views_of(g@) == without(views_of(choices@).subrange(0, i as int), "none"@),
            decreases choices.len() - i,
        {
            let ghost pre = views_of(choices@).subrange(0, i as int);
            let ghost next = views_of(choices@).subrange(0, i + 1);
            assert(next.drop_last() =~= pre);
            if !eq_str(choices[i].as_str(), "none") {
                let ghost before = views_of(g@);
                g.push(choices[i].clone());
                assert(views_of(g@) =~= before.push(choices@[i as int]@));
            }
            i = i + 1;
        }
        assert(views_of(choices@).subrange(0, i as int) =~= views_of(choices@));
        Some(g)
    } else {
        None
    };
    let mut remove_temp = false;
    let mut add_member = true;
    let mut i: usize = 0;
    while i < member_role_ids.len()
        invariant
            i <= member_role_ids.len(),
            remove_temp == member_role_ids@.subrange(0, i as int).contains(temp_role),
            add_member == !member_role_ids@.subrange(0, i as int).contains(member_role),
        decreases member_role_ids.len() - i,
    {
        let ghost pre = member_role_ids@.subrange(0, i as int);
        let ghost next = member_role_ids@.subrange(0, i + 1);
        assert(next =~= pre.push(member_role_ids@[i as int]));
        if member_role_ids[i] == temp_role {
            remove_temp = true;
        }
        if member_role_ids[i] == member_role {
            add_member = false;
        }
        proof {
            lemma_push_contains(pre, member_role_ids@[i as int], temp_role);
            lemma_push_contains(pre, member_role_ids@[i as int], member_role);
        }
        i = i + 1;
    }
    assert(member_role_ids@.subrange(0, i as int) =~= member_role_ids@);
    AssignPlan { grant, remove_temp, add_member }
}

/// Whether a role found or created for the flow must have its permissions
/// cleared: every role but the member and staff roles is kept without permissions.
pub fn role_needs_reset(name: &str, permissions_empty: bool) -> (r: bool)
    ensures
        r == (name@ != "Member"@ && name@ != "Gitpodders"@ && !permissions_empty),
{
    !eq_str(name, "Member") && !eq_str(name, "Gitpodders") && !permissions_empty
}

} // verus!

use optimus::config::DiscordChannels;
use optimus::onboarding::{
    additional_role_entries, assign_plan, introduction_kept, never_introduced, onboarding_channels, poll_entries,
    removable_roles, role_needs_reset, wants_selfhosted_role, welcome_message, ConfigError, Onboarding,
    OnboardingChannels, Prompt,
};

fn channels() -> DiscordChannels {
    DiscordChannels {
        introduction_channel_id: Some(3),
        general_channel_id: Some(4),
        getting_started_channel_id: None,
        off_topic_channel_id: Some(5),
        primary_questions_channel_id: Some(1),
        secondary_questions_channel_id: Some(2),
    }
}

#[test]
fn menus_offer_the_roles() {
    let roles = additional_role_entries();
    assert_eq!(roles.len(), 23);
    assert_eq!(roles[0].value, "JetBrainsIDEs");
    assert_eq!(roles[22].value, "Rust");
    let poll = poll_entries();
    assert_eq!(poll.len(), 5);
    assert_eq!(poll[0].value, "Found: FromFriend");
}

#[test]
fn flow_collects_answers() {
    let mut o = Onboarding::new();
    assert!(matches!(o.on_component("channel_choice", &vec!["Rust".to_string(), "Go".to_string()]), Prompt::Subscription));
    assert!(matches!(o.on_component("subscribed", &vec![]), Prompt::JoinReason));
    assert!(o.subscriber_offered);
    assert!(matches!(o.on_component("selfhosted_help", &vec![]), Prompt::Finish));
    assert!(matches!(o.on_component("unknown", &vec![]), Prompt::Ignore));
    assert_eq!(o.role_choices, vec!["Rust".to_string(), "Go".to_string(), "Subscriber".to_string()]);
    assert_eq!(o.join_reason, "selfhosted_help");
    assert!(wants_selfhosted_role(&o.join_reason));
    o.add_poll_answers(&vec!["Found: FromGoogle".to_string()]);
    assert_eq!(o.role_choices.len(), 4);
    let a = o.assignable_values();
    assert_eq!(a.len(), 23 + 1 + 5);
    assert!(a.contains(&"Subscriber".to_string()));
    assert!(!Onboarding::new().assignable_values().contains(&"Subscriber".to_string()));
    let mut n = Onboarding::new();
    n.on_component("not_subscribed", &vec![]);
    assert!(n.role_choices.is_empty());
    assert!(n.assignable_values().contains(&"Subscriber".to_string()));
}

#[test]
fn none_is_never_granted() {
    let plan = assign_plan(&vec!["none".to_string()], &vec![7, 8], 7, 9);
    assert!(plan.grant.is_none());
    assert!(plan.remove_temp);
    assert!(plan.add_member);
    let plan2 = assign_plan(&vec!["none".to_string(), "Rust".to_string()], &vec![9], 7, 9);
    assert_eq!(plan2.grant.unwrap(), vec!["Rust".to_string()]);
    assert!(!plan2.remove_temp);
    assert!(!plan2.add_member);
    let plan3 = assign_plan(&vec![], &vec![], 7, 9);
    assert_eq!(plan3.grant.unwrap(), Vec::<String>::new());
}

#[test]
fn roles_and_introductions() {
    let roles = vec![(1u64, "Rust".to_string()), (2, "Member".to_string()), (3, "Go".to_string())];
    assert_eq!(removable_roles(&roles, &vec!["Go".to_string(), "Rust".to_string()]), vec![1, 3]);
    assert!(role_needs_reset("Rust", false));
    assert!(!role_needs_reset("Member", false));
    assert!(!role_needs_reset("Rust", true));
    assert!(never_introduced(None, 0));
    assert!(!never_introduced(Some(true), 0));
    assert!(!never_introduced(Some(false), 2));
    assert!(introduction_kept("hello I am a developer"));
    assert!(!introduction_kept("hi there"));
}

#[test]
fn channels_are_required() {
    let ch = onboarding_channels(&Some(channels())).ok().unwrap();
    assert_eq!(ch.introduction, 3);
    assert!(matches!(onboarding_channels(&None), Err(ConfigError::NoChannels)));
    let mut c = channels();
    c.secondary_questions_channel_id = None;
    assert!(matches!(onboarding_channels(&Some(c)), Err(ConfigError::NoSecondaryQuestions)));
    let w = welcome_message(42, "gitpodio_help", &ch);
    assert!(w.starts_with("Welcome to the Gitpod community <@42> 🙌\n\n**You mentioned that** you need help with Gitpod.io, please ask in <#1>"));
    let plain = welcome_message(42, "hangout", &OnboardingChannels { primary_questions: 1, secondary_questions: 2, introduction: 3, general: 4, off_topic: 5 });
    assert!(plain.contains("**Here are some channels that you should check out:**\n> • <#4>"));
    assert!(Onboarding::closing_message(true, 1, 3).starts_with("Thank you <@1>! To unlock the server, drop by <#3> :wave:"));
    assert_eq!(Onboarding::closing_message(false, 1, 3), "Awesome, your server profile will be updated now!");
}

//! The message log: edits and deletions are recorded with a type marker that
//! is filled in when a record is shown; reactions on the bot's messages replay
//! or retract records.
use vstd::prelude::*;
use crate::mention::{user_mention, push_user_mention};
use crate::text::{
    has_infix, has_prefix, occurs_at, replace_spec, prefix_chars, eq_str, contains_str, replace_str,
    prefix_string, push_str, to_owned_string,
};

verus! {

/// The marker a stored record carries in place of its kind.
pub open spec fn marker() -> Seq<char> {
    "---MSG_TYPE---"@
}

/// What a reaction leads to.
#[derive(PartialEq, Eq, Structural, Clone, Copy, Debug)]
pub enum ReactionAction {
    /// Nothing.
    Ignore,
    /// Remove the reaction and reply with the stored record of the deleted message.
    ReplayDeleted,
    /// Remove the reaction, delete this reply of the bot, and react with
    /// `restore` on the message it answered.
    Retract { restore: char },
    /// Delete this message of the bot.
    DeleteOwn,
}

/// What the edit-log command answers.
#[derive(PartialEq, Eq, Structural, Clone, Copy, Debug)]
pub enum EditLogAction {
    /// The command was not a reply.
    NotAReply,
    /// The message replied to was never edited.
    NotEdited,
    /// Show the stored edit history.
    Show,
}

/// The action for reaction `emoji` added by a user (a bot when
/// `reactor_is_bot`) on a message (the bot's own when `self_msg`, already
/// reacted to by the bot when `self_reacted`, with text `content`); `privileged`:
/// the user is the guild owner or holds an administrator role.
pub open spec fn reaction_spec(
    emoji: Seq<char>,
    reactor_is_bot: bool,
    self_reacted: bool,
    self_msg: bool,
    privileged: bool,
    content: Seq<char>,
) -> ReactionAction {
    if reactor_is_bot {
        ReactionAction::Ignore
    } else if emoji == "📩"@ {
        if self_reacted && privileged {
            ReactionAction::ReplayDeleted
        } else {
            ReactionAction::Ignore
        }
    } else if emoji == "🔃"@ {
        if self_msg && self_reacted {
            ReactionAction::Retract {
                restore: if has_infix(content, "`||` Edited: "@) {
                    '✍'
                } else {
                    '📩'
                },
            }
        } else {
            ReactionAction::Ignore
        }
    } else if emoji == "❎"@ {
        if self_reacted && self_msg {
            ReactionAction::DeleteOwn
        } else {
            ReactionAction::Ignore
        }
    } else {
        ReactionAction::Ignore
    }
}

/// What reactions do: nothing a bot does and nothing on a message the bot has
/// not itself reacted to leads anywhere; 📩 replays a deleted message's record
/// for a privileged user; 🔃 and ❎ act only on the bot's own messages.
pub proof fn lemma_reaction_rules(
    emoji: Seq<char>,
    reactor_is_bot: bool,
    self_reacted: bool,
    self_msg: bool,
    privileged: bool,
    content: Seq<char>,
)
    ensures
        ({
            let r = reaction_spec(emoji, reactor_is_bot, self_reacted, self_msg, privileged, content);
            &&& r != ReactionAction::Ignore ==> !reactor_is_bot && self_reacted
            &&& r == ReactionAction::ReplayDeleted <==> (emoji == "📩"@ && !reactor_is_bot
                && self_reacted && privileged)
            &&& r == ReactionAction::DeleteOwn <==> (emoji == "❎"@ && !reactor_is_bot
                && self_reacted && self_msg)
            &&& (r is Retract) <==> (emoji == "🔃"@ && !reactor_is_bot && self_reacted
                && self_msg)
            &&& (r is Retract && has_infix(content, "`||` Edited: "@)) ==> r == ReactionAction::Retract {
                restore: '✍',
            }
            &&& (r is Retract && !has_infix(content, "`||` Edited: "@)) ==> r == ReactionAction::Retract {
                restore: '📩',
            }
        }),
        reaction_spec("📩"@, reactor_is_bot, false, self_msg, privileged, content) == ReactionAction::Ignore,
{
    reveal_strlit("📩");
    reveal_strlit("🔃");
    reveal_strlit("❎");
    assert("📩"@[0] != "🔃"@[0]);
    assert("📩"@[0] != "❎"@[0]);
    assert("🔃"@[0] != "❎"@[0]);
}

pub fn reaction_action(
    emoji: &str,
    reactor_is_bot: bool,
    self_reacted: bool,
    self_msg: bool,
    privileged: bool,
    content: &str,
) -> (r: ReactionAction)
    ensures
        r == reaction_spec(emoji@, reactor_is_bot, self_reacted, self_msg, privileged, content@),
{
    if reactor_is_bot {
        ReactionAction::Ignore
    } else if eq_str(emoji, "📩") {
        if self_reacted && privileged {
            ReactionAction::ReplayDeleted
        } else {
            ReactionAction::Ignore
        }
    } else if eq_str(emoji, "🔃") {
        if self_msg && self_reacted {
            let restore = if contains_str(content, "`||` Edited: ") {
                '✍'
            } else {
                '📩'
            };
            ReactionAction::Retract { restore }
        } else {
            ReactionAction::Ignore
        }
    } else if eq_str(emoji, "❎") {
        if self_reacted && self_msg {
            ReactionAction::DeleteOwn
        } else {
            ReactionAction::Ignore
        }
    } else {
        ReactionAction::Ignore
    }
}

/// The reply that replays a deleted message's record at the request of
/// `reactor`: the marker names who asked, cut to Discord's 2000 characters.
pub fn replay_text(stored: &str, reactor: u64) -> (r: String)
    ensures
        r@ == prefix_chars(
            replace_spec(stored@, marker(), "Triggered: "@ + user_mention(reactor) + " `||` Deleted:"@),
            2000,
        ),
{
    let mut label = to_owned_string("Triggered: ");
    push_user_mention(&mut label, reactor);
    push_str(&mut label, " `||` Deleted:");
    proof {
        reveal_strlit("---MSG_TYPE---");
    }
    let full = replace_str(stored, "---MSG_TYPE---", label.as_str());
    prefix_string(full.as_str(), 2000)
}

/// What the edit-log command does, given whether it replies to a message and
/// whether that message was edited.
pub fn editlog(has_reference: bool, reference_edited: bool) -> (r: EditLogAction)
    ensures
        !has_reference ==> r == EditLogAction::NotAReply,
        has_reference && !reference_edited ==> r == EditLogAction::NotEdited,
        has_reference && reference_edited ==> r == EditLogAction::Show,
{
    if !has_reference {
        EditLogAction::NotAReply
    } else if !reference_edited {
        EditLogAction::NotEdited
    } else {
        EditLogAction::Show
    }
}

/// A stored record shown as an edit history.
pub fn edited_view(stored: &str) -> (r: String)
    ensures
        r@ == replace_spec(stored@, marker(), "Edited:"@),
{
    proof {
        reveal_strlit("---MSG_TYPE---");
    }
    replace_str(stored, "---MSG_TYPE---", "Edited:")
}

/// A stored record shown as a deleted message.
pub fn deleted_view(stored: &str) -> (r: String)
    ensures
        r@ == replace_spec(stored@, marker(), "Deleted:"@),
{
    proof {
        reveal_strlit("---MSG_TYPE---");
    }
    replace_str(stored, "---MSG_TYPE---", "Deleted:")
}

/// An edit is recorded when the message was edited and is not a webhook's.
pub fn edit_is_recorded(edited: bool, from_webhook: bool) -> (r: bool)
    ensures
        r == (edited && !from_webhook),
{
    edited && !from_webhook
}

/// The record of a message after an edit at `edit_time`: the new text, the
/// time, then the record so far.
pub open spec fn edit_record_spec(new_content: Seq<char>, edit_time: Seq<char>, history: Seq<char>) -> Seq<char> {
    new_content + "\n> Edited at: "@ + edit_time + "\n"@ + history
}

pub fn edit_record(new_content: &str, edit_time: &str, old_record: &str) -> (r: String)
    ensures
        r@ == edit_record_spec(new_content@, edit_time@, old_record@),
{
    let mut r = to_owned_string(new_content);
    push_str(&mut r, "\n> Edited at: ");
    push_str(&mut r, edit_time);
    push_str(&mut r, "\n");
    push_str(&mut r, old_record);
    assert(r@ =~= edit_record_spec(new_content@, edit_time@, old_record@));
    r
}

/// An edit record starts with the new text and ends with the whole earlier
/// record: no edit history is lost.
pub proof fn lemma_edit_record_keeps_history(new_content: Seq<char>, edit_time: Seq<char>, history: Seq<char>)
    ensures
        has_prefix(edit_record_spec(new_content, edit_time, history), new_content),
        ({
            let r = edit_record_spec(new_content, edit_time, history);
            occurs_at(r, history, r.len() - history.len())
        }),
{
    let r = edit_record_spec(new_content, edit_time, history);
    assert(r.subrange(0, new_content.len() as int) =~= new_content);
    assert(r.subrange(r.len() - history.len(), r.len() as int) =~= history);
}

} // verus!

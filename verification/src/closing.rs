//! Closing question threads, and keeping them open when Discord archives them.
use vstd::prelude::*;
use crate::mention::{user_mention, push_user_mention};
use crate::pattern::{regex_compiles, regex_matches, regex_is_match};
use crate::text::{has_infix, has_prefix, occurs_at, trim_start_spec, contains_str, push_str, trim_start_matches, to_owned_string};

verus! {

/// Whether a thread is a question (its parent is a questions channel) or another thread.
#[derive(PartialEq, Eq, Structural, Clone, Copy, Debug)]
pub enum ThreadKind {
    Question,
    Thread,
}

/// How a close was requested.
#[derive(PartialEq, Eq, Structural, Clone, Copy, Debug)]
pub enum InteractionKind {
    /// The `/close` command.
    ApplicationCommand,
    /// The close button.
    MessageComponent,
    /// Anything else: nothing is answered.
    Other,
}

/// Why a close could not be carried out.
#[derive(PartialEq, Eq, Structural, Clone, Copy, Debug)]
pub enum CloseError {
    /// The thread has no parent channel.
    NoParent,
    /// The interaction carries no member.
    NoMember,
    /// The thread's guild, and so its owner, is unknown.
    NoOwner,
}

/// What closing a thread does: answer, then archive the thread under a new name.
pub struct ClosePlan {
    /// The text answered: as the reply to the command, or posted in the
    /// thread for the button; `None` for other interactions.
    pub reply: Option<String>,
    /// The name the archived thread gets.
    pub new_name: String,
}

pub open spec fn kind_word(k: ThreadKind) -> Seq<char> {
    match k {
        ThreadKind::Question => "question"@,
        ThreadKind::Thread => "thread"@,
    }
}

/// The kind of a thread whose parent is `parent`, given the two questions channels.
pub open spec fn kind_of(parent: u64, questions: u64, selfhosted_questions: u64) -> ThreadKind {
    if parent == questions || parent == selfhosted_questions {
        ThreadKind::Question
    } else {
        ThreadKind::Thread
    }
}

/// The name a closed thread gets: a question is marked with a check mark in
/// place of its question mark prefixes, unless it already carries one.
pub open spec fn closed_name_spec(name: Seq<char>, k: ThreadKind) -> Seq<char> {
    if has_infix(name, seq!['✅']) || k == ThreadKind::Thread {
        name
    } else {
        "✅ "@ + trim_start_spec(name, "❓ "@)
    }
}

/// The answer to a close request.
pub open spec fn close_reply_spec(k: ThreadKind, via: InteractionKind, member: u64) -> Option<Seq<char>> {
    match via {
        InteractionKind::ApplicationCommand => Some("This "@ + kind_word(k) + " was closed"@),
        InteractionKind::MessageComponent => Some(
            "This "@ + kind_word(k) + " was closed by "@ + user_mention(member),
        ),
        InteractionKind::Other => None,
    }
}

/// The kind of a thread whose parent is `parent`.
pub fn thread_kind(parent: u64, questions: u64, selfhosted_questions: u64) -> (k: ThreadKind)
    ensures
        k == kind_of(parent, questions, selfhosted_questions),
{
    if parent == questions || parent == selfhosted_questions {
        ThreadKind::Question
    } else {
        ThreadKind::Thread
    }
}

/// The kind of a thread told by its name alone: a question carries a check
/// mark or a question mark.
pub fn thread_kind_by_name(name: &str) -> (k: ThreadKind)
    ensures
        k == (if has_infix(name@, seq!['✅']) || has_infix(name@, seq!['❓']) {
            ThreadKind::Question
        } else {
            ThreadKind::Thread
        }),
{
    proof {
        reveal_strlit("✅");
        reveal_strlit("❓");
    }
    assert("✅"@ =~= seq!['✅']);
    assert("❓"@ =~= seq!['❓']);
    if contains_str(name, "✅") || contains_str(name, "❓") {
        ThreadKind::Question
    } else {
        ThreadKind::Thread
    }
}

/// The name a closed thread gets.
pub fn closed_thread_name(name: &str, k: ThreadKind) -> (r: String)
    ensures
        r@ == closed_name_spec(name@, k),
{
    proof {
        reveal_strlit("✅");
        reveal_strlit("❓ ");
    }
    assert("✅"@ =~= seq!['✅']);
    let is_thread = match k {
        ThreadKind::Thread => true,
        ThreadKind::Question => false,
    };
    if contains_str(name, "✅") || is_thread {
        to_owned_string(name)
    } else {
        let mut r = to_owned_string("✅ ");
        let rest = trim_start_matches(name, "❓ ");
        push_str(&mut r, rest.as_str());
        r
    }
}

/// The answer to a close request made in the way `via` by `member`.
pub fn close_reply(k: ThreadKind, via: InteractionKind, member: u64) -> (r: Option<String>)
    ensures
        match r {
            Some(s) => close_reply_spec(k, via, member) == Some(s@),
            None => close_reply_spec(k, via, member) is None,
        },
{
    let word = match k {
        ThreadKind::Question => "question",
        ThreadKind::Thread => "thread",
    };
    match via {
        InteractionKind::ApplicationCommand => {
            let mut s = to_owned_string("This ");
            push_str(&mut s, word);
            push_str(&mut s, " was closed");
            assert(s@ =~= "This "@ + kind_word(k) + " was closed"@);
            Some(s)
        },
        InteractionKind::MessageComponent => {
            let mut s = to_owned_string("This ");
            push_str(&mut s, word);
            push_str(&mut s, " was closed by ");
            push_user_mention(&mut s, member);
            assert(s@ =~= "This "@ + kind_word(k) + " was closed by "@ + user_mention(member));
            Some(s)
        },
        InteractionKind::Other => None,
    }
}

/// Decides a close request on a thread named `name` with parent `parent`,
/// made by `member` (who holds an administrator role when `member_is_admin`)
/// in a guild owned by `owner`: only the owner or an administrator may close.
/// `Ok(None)`: the request is refused silently.
pub fn plan_close(
    name: &str,
    parent: Option<u64>,
    via: InteractionKind,
    member: Option<u64>,
    owner: Option<u64>,
    member_is_admin: bool,
    questions: u64,
    selfhosted_questions: u64,
) -> (r: Result<Option<ClosePlan>, CloseError>)
    ensures
        parent is None ==> r == Err::<Option<ClosePlan>, CloseError>(CloseError::NoParent),
        parent is Some && member is None ==> r == Err::<Option<ClosePlan>, CloseError>(
            CloseError::NoMember,
        ),
        parent is Some && member is Some && owner is None ==> r == Err::<
            Option<ClosePlan>,
            CloseError,
        >(CloseError::NoOwner),
        parent is Some && member is Some && owner is Some ==> {
            let p = parent->0;
            let m = member->0;
            let o = owner->0;
            let k = kind_of(p, questions, selfhosted_questions);
            if m == o || member_is_admin {
                r matches Ok(Some(plan)) && (plan.new_name@ == closed_name_spec(name@, k) && match plan.reply {
                    Some(s) => close_reply_spec(k, via, m) == Some(s@),
                    None => close_reply_spec(k, via, m) is None,
                })
            } else {
                r matches Ok(None)
            }
        },
{
    let p = match parent {
        Some(p) => p,
        None => return Err(CloseError::NoParent),
    };
    let k = thread_kind(p, questions, selfhosted_questions);
    let m = match member {
        Some(m) => m,
        None => return Err(CloseError::NoMember),
    };
    let o = match owner {
        Some(o) => o,
        None => return Err(CloseError::NoOwner),
    };
    if m == o || member_is_admin {
        let new_name = closed_thread_name(name, k);
        let reply = close_reply(k, via, m);
        Ok(Some(ClosePlan { reply, new_name }))
    } else {
        Ok(None)
    }
}

/// The pattern of the bot's own closing notice.
pub open spec fn closed_notice_pattern() -> Seq<char> {
    "^This [a-z]+ was closed ?b?y?"@
}

/// Whether an archived question thread is to be reopened. Only question
/// threads are; one is reopened when it is archived, unless the last message
/// is the bot's own and is either a thread rename or the bot's closing notice.
/// `Err` when the notice pattern was needed and does not compile.
pub fn should_unarchive(
    kind: ThreadKind,
    archived: bool,
    last_is_own: bool,
    last_is_rename: bool,
    last_content: &str,
) -> (r: Result<bool, ()>)
    ensures
        kind == ThreadKind::Thread || !archived ==> r == Ok::<bool, ()>(false),
        kind == ThreadKind::Question && archived && !last_is_own ==> r == Ok::<bool, ()>(true),
        kind == ThreadKind::Question && archived && last_is_own && last_is_rename ==> r == Ok::<
            bool,
            (),
        >(false),
        kind == ThreadKind::Question && archived && last_is_own && !last_is_rename ==> (
        r is Err <==> !regex_compiles(closed_notice_pattern())) && (r matches Ok(b) ==> b
            == !regex_matches(closed_notice_pattern(), last_content@)),
{
    match kind {
        ThreadKind::Thread => Ok(false),
        ThreadKind::Question => {
            if !archived {
                return Ok(false);
            }
            if !last_is_own {
                return Ok(true);
            }
            if last_is_rename {
                return Ok(false);
            }
            match regex_is_match("^This [a-z]+ was closed ?b?y?", last_content) {
                Some(b) => Ok(!b),
                None => Err(()),
            }
        },
    }
}

/// Closing renames only questions: a question named `❓ title` (or `title`),
/// without a check mark, becomes `✅ title`; a thread, or a question already
/// marked, keeps its name.
pub proof fn lemma_closed_names(title: Seq<char>, name: Seq<char>, k: ThreadKind)
    requires
        !has_infix(title, seq!['✅']),
        !has_prefix(title, "❓ "@),
    ensures
        closed_name_spec(title, ThreadKind::Question) == "✅ "@ + title,
        closed_name_spec("❓ "@ + title, ThreadKind::Question) == "✅ "@ + title,
        closed_name_spec(name, ThreadKind::Thread) == name,
        has_infix(name, seq!['✅']) ==> closed_name_spec(name, k) == name,
{
    reveal_strlit("❓ ");
    let q = "❓ "@ + title;
    assert(!has_infix(q, seq!['✅'])) by {
        if has_infix(q, seq!['✅']) {
            let i = choose|i: int| occurs_at(q, seq!['✅'], i);
            assert(q.subrange(i, i + 1)[0] == q[i]);
            assert(q[i] == '✅');
            assert(q[0] == '❓' && q[1] == ' ');
            assert(i >= 2);
            assert(occurs_at(title, seq!['✅'], i - 2)) by {
                assert(title.subrange(i - 2, i - 1) =~= seq!['✅']);
            }
        }
    }
    assert(has_prefix(q, "❓ "@)) by {
        assert(q.subrange(0, 2) =~= "❓ "@);
    }
    assert(q.subrange(2, q.len() as int) =~= title);
    assert(trim_start_spec(q, "❓ "@) == trim_start_spec(title, "❓ "@));
}

/// A closed question's name carries the check mark, so closing a thread
/// twice names it as closing it once does.
pub proof fn lemma_closed_name_idempotent(name: Seq<char>, k: ThreadKind)
    ensures
        k == ThreadKind::Question ==> has_infix(closed_name_spec(name, k), seq!['✅']),
        closed_name_spec(closed_name_spec(name, k), k) == closed_name_spec(name, k),
{
    if k == ThreadKind::Question && !has_infix(name, seq!['✅']) {
        let c = closed_name_spec(name, k);
        reveal_strlit("✅ ");
        assert(occurs_at(c, seq!['✅'], 0)) by {
            assert(c.subrange(0, 1) =~= seq!['✅']);
        }
    }
}

} // verus!

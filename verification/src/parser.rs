//! Reading which user a command is about from its argument text.
use vstd::prelude::*;
use crate::decimal::{parse_u64, parse_u64_spec};
use crate::pattern::{regex_compiles, regex_matches, regex_replaced_all, regex_is_match, regex_replace_all};

verus! {

/// Parsers for command arguments.
pub struct Parse;

/// The user a command argument designates.
#[derive(Debug)]
pub enum UserRef {
    /// A user id, given or implied.
    Id(u64),
    /// A display name, to be looked up among the guild's members.
    ByName(String),
}

/// The pattern whose matches are removed from the argument: every non-word character.
pub open spec fn non_word_pattern() -> Seq<char> {
    seq!['\\', 'W']
}

/// The pattern that tells a user id from a name: a run of 18 ASCII digits.
pub open spec fn id_run_pattern() -> Seq<char> {
    seq!['[', '0', '-', '9', ']', '{', '1', '8', '}', '+']
}

/// The argument once every non-word character is removed.
pub open spec fn cleaned_arg(rest: Seq<char>) -> Seq<char> {
    regex_replaced_all(non_word_pattern(), rest, Seq::empty())
}

impl Parse {
    /// The user designated by the argument text `rest` of a message by
    /// `author_id`, given the argument with its non-word characters removed
    /// (`cleaned`) and whether that holds a run of 18 digits (`has_id_run`):
    /// the author when there is no argument, the number when there is such a
    /// run, else the name.
    pub fn user_from(rest: &str, author_id: u64, cleaned: &str, has_id_run: bool) -> (r: UserRef)
        requires
            rest@.len() > 0 && has_id_run ==> parse_u64_spec(cleaned@) is Some,
        ensures
            rest@.len() == 0 ==> r == UserRef::Id(author_id),
            rest@.len() > 0 && has_id_run ==> r == UserRef::Id(parse_u64_spec(cleaned@)->0),
            rest@.len() > 0 && !has_id_run ==> (r matches UserRef::ByName(s) && s@ == cleaned@),
    {
        if rest.is_empty() {
            UserRef::Id(author_id)
        } else if has_id_run {
            match parse_u64(cleaned) {
                Some(v) => UserRef::Id(v),
                None => UserRef::Id(author_id),
            }
        } else {
            let mut s = String::new();
            s.append(cleaned);
            UserRef::ByName(s)
        }
    }

    /// The user designated by the argument text `rest` of a message by
    /// `author_id`; `None` where a run of 18 digits is found but the cleaned
    /// argument is not a `u64` (the bot gives up there).
    pub fn user(rest: &str, author_id: u64) -> (r: Option<UserRef>)
        ensures
            rest@.len() == 0 ==> r == Some(UserRef::Id(author_id)),
            rest@.len() > 0 ==> {
                let cleaned = cleaned_arg(rest@);
                &&& (r is None <==> (!regex_compiles(non_word_pattern()) || !regex_compiles(
                    id_run_pattern(),
                ) || (regex_matches(id_run_pattern(), cleaned) && parse_u64_spec(cleaned) is None)))
                &&& (r matches Some(UserRef::Id(v)) ==> regex_matches(id_run_pattern(), cleaned)
                    && parse_u64_spec(cleaned) == Some(v))
                &&& (r matches Some(UserRef::ByName(s)) ==> !regex_matches(id_run_pattern(), cleaned)
                    && s@ == cleaned)
            },
    {
        if rest.is_empty() {
            return Some(UserRef::Id(author_id));
        }
        proof {
            reveal_strlit("\\W");
            reveal_strlit("[0-9]{18}+");
            reveal_strlit("");
            assert("\\W"@ =~= non_word_pattern());
            assert("[0-9]{18}+"@ =~= id_run_pattern());
            assert(""@ =~= Seq::<char>::empty());
        }
        let cleaned = match regex_replace_all("\\W", rest, "") {
            Some(c) => c,
            None => return None,
        };
        let has_run = match regex_is_match("[0-9]{18}+", cleaned.as_str()) {
            Some(b) => b,
            None => return None,
        };
        if has_run && parse_u64(cleaned.as_str()).is_none() {
            return None;
        }
        Some(Parse::user_from(rest, author_id, cleaned.as_str(), has_run))
    }
}

} // verus!

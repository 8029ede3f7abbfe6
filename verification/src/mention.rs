//! Discord mention markup for users and channels.
use vstd::prelude::*;
use crate::decimal::{decimal, push_decimal};
use crate::text::push_char;

verus! {

/// `<@id>`: how a user (or guild member) is mentioned.
pub open spec fn user_mention(id: u64) -> Seq<char> {
    seq!['<', '@'] + decimal(id as nat) + seq!['>']
}

/// `<#id>`: how a channel is mentioned.
pub open spec fn channel_mention(id: u64) -> Seq<char> {
    seq!['<', '#'] + decimal(id as nat) + seq!['>']
}

/// Appends the mention of user `id`.
pub fn push_user_mention(out: &mut String, id: u64)
    ensures
        final(out)@ == old(out)@ + user_mention(id),
{
    push_char(out, '<');
    push_char(out, '@');
    push_decimal(out, id);
    push_char(out, '>');
    assert(final(out)@ =~= old(out)@ + user_mention(id));
}

/// Appends the mention of channel `id`.
pub fn push_channel_mention(out: &mut String, id: u64)
    ensures
        final(out)@ == old(out)@ + channel_mention(id),
{
    push_char(out, '<');
    push_char(out, '#');
    push_decimal(out, id);
    push_char(out, '>');
    assert(final(out)@ =~= old(out)@ + channel_mention(id));
}

} // verus!

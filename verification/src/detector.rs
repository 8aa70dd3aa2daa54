use vstd::prelude::*;

verus! {

/// A snapshot of one member's voice presence: the channel the member is
/// connected to, if any, and, where the member is known, whether it is a bot.
#[derive(Clone, Copy, Debug, PartialEq, Eq, Structural)]
pub struct VoicePresence {
    pub channel: Option<u64>,
    pub member_is_bot: Option<bool>,
}

/// What the detector makes of a presence change.
#[derive(Clone, Copy, Debug, PartialEq, Eq, Structural)]
pub enum JoinDecision {
    /// A member joined the given channel: a sound should be played there.
    Trigger(u64),
    /// Nothing to play: a bot moved, nothing moved, or the member left.
    NoTrigger,
}

/// Whether the presence belongs to a bot. A presence without member
/// information is taken to be a person's.
pub open spec fn spec_is_bot(presence: VoicePresence) -> bool {
    presence.member_is_bot == Some(true)
}

/// The channel of an optional earlier snapshot: none where there is no
/// snapshot, or where the member was not connected.
pub open spec fn channel_before(old: Option<&VoicePresence>) -> Option<u64> {
    match old {
        Some(presence) => presence.channel,
        None => None,
    }
}

/// The channel that a change from `before` to `after` moved the member into:
/// `after` when it names a channel other than `before`, nothing otherwise.
pub open spec fn spec_joined_channel(before: Option<u64>, after: Option<u64>) -> Option<u64> {
    if before != after {
        after
    } else {
        None
    }
}

/// The decision on a presence change: a bot never triggers; a person triggers
/// exactly when the change moved them into a channel.
pub open spec fn spec_detect(before: Option<u64>, after: Option<u64>, is_bot: bool) -> JoinDecision {
    if is_bot {
        JoinDecision::NoTrigger
    } else {
        match spec_joined_channel(before, after) {
            Some(channel) => JoinDecision::Trigger(channel),
            None => JoinDecision::NoTrigger,
        }
    }
}

/// Whether the presence belongs to a bot.
pub fn is_bot(presence: &VoicePresence) -> (bot: bool)
    ensures
        bot == spec_is_bot(*presence),
{
    if let Some(flag) = presence.member_is_bot {
        flag
    } else {
        false
    }
}

/// The channel that the member joined with this change, if the change is a
/// join: the new channel, where there is one and it is not the old one.
pub fn joined_channel(old: Option<&VoicePresence>, new: &VoicePresence) -> (target: Option<u64>)
    ensures
        target == spec_joined_channel(channel_before(old), new.channel),
{
    let before: Option<u64> = match old {
        Some(presence) => presence.channel,
        None => None,
    };
    if before != new.channel {
        new.channel
    } else {
        None
    }
}

/// Decides whether a change from channel `before` to the presence `after`
/// calls for playback, and in which channel.
pub fn detect(before: Option<u64>, after: &VoicePresence) -> (decision: JoinDecision)
    ensures
        decision == spec_detect(before, after.channel, spec_is_bot(*after)),
{
    if is_bot(after) {
        return JoinDecision::NoTrigger;
    }
    if before != after.channel {
        match after.channel {
            Some(channel) => JoinDecision::Trigger(channel),
            None => JoinDecision::NoTrigger,
        }
    } else {
        JoinDecision::NoTrigger
    }
}

/// A person who was in no channel and now is in one triggers playback there.
pub proof fn lemma_first_connect_triggers(channel: u64)
    ensures
        spec_detect(None, Some(channel), false) == JoinDecision::Trigger(channel),
{
}

/// A person who moves from one channel to a different one triggers playback
/// in the new channel.
pub proof fn lemma_move_triggers(from: u64, to: u64)
    requires
        from != to,
    ensures
        spec_detect(Some(from), Some(to), false) == JoinDecision::Trigger(to),
{
}

/// A change that leaves the channel as it was, connected or not, triggers
/// nothing.
pub proof fn lemma_same_channel_is_quiet(channel: Option<u64>, is_bot: bool)
    ensures
        spec_detect(channel, channel, is_bot) == JoinDecision::NoTrigger,
{
}

/// A bot triggers nothing, whatever channels it moves between.
pub proof fn lemma_bot_is_quiet(before: Option<u64>, after: Option<u64>)
    ensures
        spec_detect(before, after, true) == JoinDecision::NoTrigger,
{
}

/// A member who ends up in no channel triggers nothing.
pub proof fn lemma_leave_is_quiet(before: Option<u64>, is_bot: bool)
    ensures
        spec_detect(before, None, is_bot) == JoinDecision::NoTrigger,
{
}

/// A trigger always names the channel the member is in after the change, and
/// that channel is never the one the member was in before.
pub proof fn lemma_trigger_names_new_channel(
    before: Option<u64>,
    after: Option<u64>,
    is_bot: bool,
    channel: u64,
)
    requires
        spec_detect(before, after, is_bot) == JoinDecision::Trigger(channel),
    ensures
        !is_bot,
        after == Some(channel),
        before != Some(channel),
{
}

} // verus!

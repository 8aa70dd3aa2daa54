use crate::detector::{
    channel_before, detect, spec_detect, spec_is_bot, JoinDecision, VoicePresence,
};
use crate::registry::SoundRegistry;
use vstd::prelude::*;

verus! {

/// The life of one voice session, from the join that opens it to the leave
/// that ends it.
#[derive(Clone, Copy, Debug, PartialEq, Eq, Structural)]
pub enum Session {
    /// No connection is open or wanted.
    Idle,
    /// A connection to the channel has been asked for.
    Joining { guild: u64, channel: u64 },
    /// The connection is open and the guild's sound is playing on it.
    Playing { guild: u64, channel: u64 },
    /// The sound has ended and a disconnect has been asked for.
    Leaving { guild: u64, channel: u64 },
    /// The connection could not be opened; the session is over.
    Failed,
}

/// What the audio backend reports back to a session.
#[derive(Clone, Copy, Debug, PartialEq, Eq, Structural)]
pub enum SessionEvent {
    /// The connection to the channel is open.
    Connected,
    /// The connection to the channel could not be opened.
    ConnectFailed,
    /// The track that the session started has reached its end.
    TrackEnded,
    /// Any other notification of the backend.
    OtherNotice,
    /// The disconnect went through.
    Left,
    /// The disconnect reported an error.
    LeaveFailed,
}

/// What the caller has to ask of the audio backend next.
#[derive(Clone, Copy, Debug, PartialEq, Eq, Structural)]
pub enum Command {
    /// Nothing to do.
    Nothing,
    /// Open a voice connection to the channel.
    Connect { guild: u64, channel: u64 },
    /// Start a fresh playback of the guild's sound as the only source on the
    /// connection, and subscribe to its end in the same breath.
    Play { guild: u64, channel: u64 },
    /// Close the voice connection.
    Leave { guild: u64, channel: u64 },
}

/// The session that a presence change opens: `Joining` when the change is a
/// trigger inside a guild that has a sound, `Idle` in every other case.
pub open spec fn spec_open(guild: Option<u64>, decision: JoinDecision, has_sound: bool) -> Session {
    match (guild, decision) {
        (Some(guild), JoinDecision::Trigger(channel)) => if has_sound {
            Session::Joining { guild, channel }
        } else {
            Session::Idle
        },
        _ => Session::Idle,
    }
}

/// The command that goes with a freshly opened session: a connect for a
/// `Joining` session, nothing otherwise.
pub open spec fn opening_command(session: Session) -> Command {
    match session {
        Session::Joining { guild, channel } => Command::Connect { guild, channel },
        _ => Command::Nothing,
    }
}

/// The state that follows `session` on `event`. An event that the state does
/// not wait for leaves it as it is.
pub open spec fn spec_next(session: Session, event: SessionEvent) -> Session {
    match (session, event) {
        (Session::Joining { guild, channel }, SessionEvent::Connected) => Session::Playing {
            guild,
            channel,
        },
        (Session::Joining { .. }, SessionEvent::ConnectFailed) => Session::Failed,
        (Session::Playing { guild, channel }, SessionEvent::TrackEnded) => Session::Leaving {
            guild,
            channel,
        },
        (Session::Leaving { .. }, SessionEvent::Left) => Session::Idle,
        (Session::Leaving { .. }, SessionEvent::LeaveFailed) => Session::Idle,
        _ => session,
    }
}

/// The command that `event` calls for in state `session`.
pub open spec fn spec_command(session: Session, event: SessionEvent) -> Command {
    match (session, event) {
        (Session::Joining { guild, channel }, SessionEvent::Connected) => Command::Play {
            guild,
            channel,
        },
        (Session::Playing { guild, channel }, SessionEvent::TrackEnded) => Command::Leave {
            guild,
            channel,
        },
        _ => Command::Nothing,
    }
}

impl Session {
    /// Whether the session holds, or is about to hold, a voice connection.
    pub open spec fn spec_is_active(self) -> bool {
        self is Joining || self is Playing || self is Leaving
    }

    /// Opens the session for a presence change in `guild`: asks for a
    /// connection when the change is a trigger and the guild has a sound.
    pub fn open<A>(registry: &SoundRegistry<A>, guild: Option<u64>, decision: JoinDecision) -> (opened:
        (Session, Command))
        ensures
            opened.0 == spec_open(
                guild,
                decision,
                guild.is_some() && registry@.contains_key(guild.unwrap()),
            ),
            opened.1 == opening_command(opened.0),
    {
        let guild: u64 = match guild {
            Some(guild) => guild,
            None => {
                return (Session::Idle, Command::Nothing);
            },
        };
        match decision {
            JoinDecision::Trigger(channel) => {
                if registry.has_sound(guild) {
                    (Session::Joining { guild, channel }, Command::Connect { guild, channel })
                } else {
                    (Session::Idle, Command::Nothing)
                }
            },
            JoinDecision::NoTrigger => (Session::Idle, Command::Nothing),
        }
    }

    /// Takes one report of the backend: gives the state that follows and the
    /// command to carry out.
    pub fn step(self, event: SessionEvent) -> (next: (Session, Command))
        ensures
            next.0 == spec_next(self, event),
            next.1 == spec_command(self, event),
    {
        match self {
            Session::Joining { guild, channel } => match event {
                SessionEvent::Connected => (
                    Session::Playing { guild, channel },
                    Command::Play { guild, channel },
                ),
                SessionEvent::ConnectFailed => (Session::Failed, Command::Nothing),
                _ => (self, Command::Nothing),
            },
            Session::Playing { guild, channel } => match event {
                SessionEvent::TrackEnded => (
                    Session::Leaving { guild, channel },
                    Command::Leave { guild, channel },
                ),
                _ => (self, Command::Nothing),
            },
            Session::Leaving { .. } => match event {
                SessionEvent::Left => (Session::Idle, Command::Nothing),
                SessionEvent::LeaveFailed => (Session::Idle, Command::Nothing),
                _ => (self, Command::Nothing),
            },
            Session::Idle => (self, Command::Nothing),
            Session::Failed => (self, Command::Nothing),
        }
    }

    /// Whether the session holds, or is about to hold, a voice connection.
    pub fn is_active(&self) -> (active: bool)
        ensures
            active == self.spec_is_active(),
    {
        match self {
            Session::Joining { .. } => true,
            Session::Playing { .. } => true,
            Session::Leaving { .. } => true,
            _ => false,
        }
    }
}

/// Handles a voice-presence change: detects a join and opens the session for
/// it. A connect is asked for exactly when the member is no bot, the event
/// carries a guild, the member moved into a channel, and the guild has a
/// registered sound.
pub fn voice_state_update<A>(
    registry: &SoundRegistry<A>,
    guild: Option<u64>,
    old: Option<&VoicePresence>,
    new: &VoicePresence,
) -> (opened: (Session, Command))
    ensures
        opened.0 == spec_open(
            guild,
            spec_detect(channel_before(old), new.channel, spec_is_bot(*new)),
            guild.is_some() && registry@.contains_key(guild.unwrap()),
        ),
        opened.1 == opening_command(opened.0),
{
    let before: Option<u64> = match old {
        Some(presence) => presence.channel,
        None => None,
    };
    let decision = detect(before, new);
    Session::open(registry, guild, decision)
}

/// The state a session is in after it has taken `events` in order.
pub open spec fn run(session: Session, events: Seq<SessionEvent>) -> Session
    decreases events.len(),
{
    if events.len() == 0 {
        session
    } else {
        run(spec_next(session, events[0]), events.drop_first())
    }
}

/// How many of the commands issued while taking `events` start a playback.
pub open spec fn plays_issued(session: Session, events: Seq<SessionEvent>) -> nat
    decreases events.len(),
{
    if events.len() == 0 {
        0
    } else {
        let now: nat = if spec_command(session, events[0]) is Play {
            1
        } else {
            0
        };
        now + plays_issued(spec_next(session, events[0]), events.drop_first())
    }
}

/// How many of the commands issued while taking `events` close a connection.
pub open spec fn leaves_issued(session: Session, events: Seq<SessionEvent>) -> nat
    decreases events.len(),
{
    if events.len() == 0 {
        0
    } else {
        let now: nat = if spec_command(session, events[0]) is Leave {
            1
        } else {
            0
        };
        now + leaves_issued(spec_next(session, events[0]), events.drop_first())
    }
}

/// A session that is over stays over: neither `Idle` nor `Failed` reacts to
/// anything the backend reports, and neither issues a command.
pub proof fn lemma_ended_session_is_inert(session: Session, events: Seq<SessionEvent>)
    requires
        !session.spec_is_active(),
    ensures
        run(session, events) == session,
        plays_issued(session, events) == 0,
        leaves_issued(session, events) == 0,
    decreases events.len(),
{
    if events.len() > 0 {
        lemma_ended_session_is_inert(session, events.drop_first());
    }
}

/// Whatever the backend reports and in whatever order, a session starts at
/// most one playback and closes its connection at most once, never closes
/// more often than it played, and closes only what it has opened: from
/// `Playing` on nothing is played again, from `Leaving` on nothing is closed
/// again.
pub proof fn lemma_single_play_single_leave(session: Session, events: Seq<SessionEvent>)
    ensures
        plays_issued(session, events) <= 1,
        leaves_issued(session, events) <= 1,
        session is Joining ==> leaves_issued(session, events) <= plays_issued(session, events),
        !(session is Joining) ==> plays_issued(session, events) == 0,
        !(session is Joining || session is Playing) ==> leaves_issued(session, events) == 0,
    decreases events.len(),
{
    if events.len() > 0 {
        lemma_single_play_single_leave(spec_next(session, events[0]), events.drop_first());
    }
}

/// A session never gets out of a connection without leaving it: one that has
/// been asked to connect and is found `Idle` later has played once and left
/// once, and one that was playing and is found `Idle` later has left once.
pub proof fn lemma_idle_again_means_left(session: Session, events: Seq<SessionEvent>)
    requires
        session.spec_is_active(),
        run(session, events) is Idle,
    ensures
        session is Joining ==> plays_issued(session, events) == 1,
        session is Joining || session is Playing ==> leaves_issued(session, events) == 1,
    decreases events.len(),
{
    if events.len() > 0 {
        let next = spec_next(session, events[0]);
        let rest = events.drop_first();
        lemma_single_play_single_leave(next, rest);
        if next.spec_is_active() {
            lemma_idle_again_means_left(next, rest);
        } else {
            lemma_ended_session_is_inert(next, rest);
        }
    }
}

/// The guild and the channel of a session never change while it is active:
/// every command it issues names the guild and channel it was opened for.
pub proof fn lemma_commands_keep_target(session: Session, event: SessionEvent)
    ensures
        match (session, spec_command(session, event)) {
            (Session::Joining { guild, channel }, Command::Play { guild: g, channel: c }) => g
                == guild && c == channel,
            (Session::Playing { guild, channel }, Command::Leave { guild: g, channel: c }) => g
                == guild && c == channel,
            (_, Command::Nothing) => true,
            _ => false,
        },
{
}

} // verus!

use crate::registry::{spec_register, SoundRegistry};
use vstd::prelude::*;

verus! {

/// What the bot says to the user who sent a clip.
#[derive(Clone, Copy, Debug, PartialEq, Eq, Structural)]
pub enum Reply {
    /// The message carried no attachment.
    NoAudio,
    /// The message carried several attachments; only the first is used.
    OnlyFirst,
    /// The clip is registered and will be played.
    Accepted,
    /// The clip could not be turned into a playable sound.
    Failed,
}

impl Reply {
    /// The text of the reply.
    pub open spec fn spec_text(self) -> Seq<char> {
        match self {
            Reply::NoAudio => "Cadê o áudio carai??"@,
            Reply::OnlyFirst => "Vou usar só o primeiro arquivo que tu mandou, o resto eu to ignorando!!"@,
            Reply::Accepted => "Blz, vou tocar esse áudio aí!!"@,
            Reply::Failed => "Deu pau"@,
        }
    }

    /// The text of the reply.
    pub fn text(&self) -> (text: &'static str)
        ensures
            text@ == self.spec_text(),
    {
        match self {
            Reply::NoAudio => "Cadê o áudio carai??",
            Reply::OnlyFirst => "Vou usar só o primeiro arquivo que tu mandou, o resto eu to ignorando!!",
            Reply::Accepted => "Blz, vou tocar esse áudio aí!!",
            Reply::Failed => "Deu pau",
        }
    }
}

/// Why a clip did not make it into the registry.
#[derive(Clone, Copy, Debug, PartialEq, Eq, Structural)]
pub enum IngestError {
    /// The attachment could not be downloaded.
    DownloadFailed,
    /// The downloaded bytes could not be stored or decoded.
    DecodeFailed,
}

/// What to do with an incoming registration message.
#[derive(Clone, Copy, Debug, PartialEq, Eq, Structural)]
pub enum Intake {
    /// The message was not sent in a guild: nothing is done and nothing said.
    Ignored,
    /// The message has no attachment: the user is told so, nothing else.
    Refused,
    /// The attachment at position `attachment` is to be fetched and decoded
    /// for `guild`. `warned` says that further attachments are passed over.
    Fetch { guild: u64, attachment: usize, warned: bool },
}

/// The decision on a registration message sent in `guild` with `attachments`
/// attached files.
pub open spec fn spec_set(guild: Option<u64>, attachments: nat) -> Intake {
    match guild {
        None => Intake::Ignored,
        Some(guild) => if attachments == 0 {
            Intake::Refused
        } else {
            Intake::Fetch { guild, attachment: 0, warned: attachments > 1 }
        },
    }
}

impl Intake {
    /// What the user is told as soon as the message has been looked at.
    pub open spec fn spec_reply(self) -> Option<Reply> {
        match self {
            Intake::Ignored => None,
            Intake::Refused => Some(Reply::NoAudio),
            Intake::Fetch { warned, .. } => if warned {
                Some(Reply::OnlyFirst)
            } else {
                None
            },
        }
    }

    /// What the user is told as soon as the message has been looked at.
    pub fn reply(&self) -> (reply: Option<Reply>)
        ensures
            reply == self.spec_reply(),
    {
        match self {
            Intake::Ignored => None,
            Intake::Refused => Some(Reply::NoAudio),
            Intake::Fetch { warned, .. } => {
                if *warned {
                    Some(Reply::OnlyFirst)
                } else {
                    None
                }
            },
        }
    }
}

/// Looks at a registration message: the guild it was sent in, if any, and
/// the number of files attached to it.
pub fn set(guild: Option<u64>, attachments: usize) -> (intake: Intake)
    ensures
        intake == spec_set(guild, attachments as nat),
{
    let guild: u64 = match guild {
        Some(guild) => guild,
        None => {
            return Intake::Ignored;
        },
    };
    if attachments == 0 {
        return Intake::Refused;
    }
    Intake::Fetch { guild, attachment: 0, warned: attachments > 1 }
}

/// Ends an ingestion: a decoded clip becomes the sound of `guild`, replacing
/// any earlier one; a failure leaves the registry as it was and is handed on.
pub fn save_audio<A>(
    registry: &mut SoundRegistry<A>,
    guild: u64,
    clip: Result<A, IngestError>,
) -> (saved: Result<(), IngestError>)
    ensures
        match clip {
            Ok(artifact) => saved.is_ok() && final(registry)@ == spec_register(
                old(registry)@,
                guild,
                artifact,
            ),
            Err(error) => saved == Err::<(), IngestError>(error) && final(registry)@ == old(
                registry,
            )@,
        },
{
    match clip {
        Ok(artifact) => {
            registry.register(guild, artifact);
            Ok(())
        },
        Err(error) => Err(error),
    }
}

/// What the user is told at the end of an ingestion: a confirmation on
/// success, a general failure notice when the clip could not be decoded, and
/// nothing at all when the download failed.
pub open spec fn spec_closing_reply(saved: Result<(), IngestError>) -> Option<Reply> {
    match saved {
        Ok(_) => Some(Reply::Accepted),
        Err(IngestError::DownloadFailed) => None,
        Err(IngestError::DecodeFailed) => Some(Reply::Failed),
    }
}

/// What the user is told at the end of an ingestion.
pub fn closing_reply(saved: &Result<(), IngestError>) -> (reply: Option<Reply>)
    ensures
        reply == spec_closing_reply(*saved),
{
    match saved {
        Ok(_) => Some(Reply::Accepted),
        Err(IngestError::DownloadFailed) => None,
        Err(IngestError::DecodeFailed) => Some(Reply::Failed),
    }
}

} // verus!

use joinsound::ingestion;
use joinsound::ingestion::{closing_reply, save_audio, IngestError, Intake, Reply};
use joinsound::registry::SoundRegistry;
use joinsound::scratch::{decimal_text, scratch_name};

#[test]
fn single_attachment_registers_and_confirms() {
    let mut registry: SoundRegistry<Vec<u8>> = SoundRegistry::new();
    let intake = ingestion::set(Some(1), 1);
    assert_eq!(intake, Intake::Fetch { guild: 1, attachment: 0, warned: false });
    assert_eq!(intake.reply(), None);
    assert_eq!(scratch_name(1, "boo.ogg"), "1_boo.ogg");

    let saved = save_audio(&mut registry, 1, Ok(vec![9, 9, 9]));
    assert_eq!(saved, Ok(()));
    let reply = closing_reply(&saved);
    assert_eq!(reply, Some(Reply::Accepted));
    assert_eq!(Reply::Accepted.text(), "Blz, vou tocar esse áudio aí!!");

    assert_eq!(registry.lookup(1), Some(&vec![9, 9, 9]));
    assert_eq!(registry.len(), 1);
    assert!(!registry.has_sound(2));
}

#[test]
fn message_without_attachment_is_refused() {
    let registry: SoundRegistry<Vec<u8>> = SoundRegistry::new();
    let intake = ingestion::set(Some(1), 0);
    assert_eq!(intake, Intake::Refused);
    assert_eq!(intake.reply(), Some(Reply::NoAudio));
    assert_eq!(Reply::NoAudio.text(), "Cadê o áudio carai??");
    assert_eq!(registry.len(), 0);
}

#[test]
fn message_outside_a_guild_is_ignored() {
    assert_eq!(ingestion::set(None, 0), Intake::Ignored);
    assert_eq!(ingestion::set(None, 1), Intake::Ignored);
    assert_eq!(ingestion::set(None, 3), Intake::Ignored);
    assert_eq!(Intake::Ignored.reply(), None);
}

#[test]
fn several_attachments_warn_and_use_the_first() {
    let intake = ingestion::set(Some(5), 3);
    assert_eq!(intake, Intake::Fetch { guild: 5, attachment: 0, warned: true });
    assert_eq!(intake.reply(), Some(Reply::OnlyFirst));
    assert_eq!(
        Reply::OnlyFirst.text(),
        "Vou usar só o primeiro arquivo que tu mandou, o resto eu to ignorando!!"
    );
    assert_eq!(ingestion::set(Some(5), 2), Intake::Fetch { guild: 5, attachment: 0, warned: true });
    assert_eq!(
        ingestion::set(Some(5), usize::MAX),
        Intake::Fetch { guild: 5, attachment: 0, warned: true }
    );
}

#[test]
fn download_failure_is_silent_and_changes_nothing() {
    let mut registry: SoundRegistry<Vec<u8>> = SoundRegistry::new();
    registry.register(1, vec![1]);
    let saved = save_audio(&mut registry, 1, Err(IngestError::DownloadFailed));
    assert_eq!(saved, Err(IngestError::DownloadFailed));
    assert_eq!(closing_reply(&saved), None);
    assert_eq!(registry.lookup(1), Some(&vec![1]));
    assert_eq!(registry.len(), 1);
}

#[test]
fn decode_failure_is_reported_and_changes_nothing() {
    let mut registry: SoundRegistry<Vec<u8>> = SoundRegistry::new();
    let saved = save_audio(&mut registry, 1, Err(IngestError::DecodeFailed));
    assert_eq!(saved, Err(IngestError::DecodeFailed));
    assert_eq!(closing_reply(&saved), Some(Reply::Failed));
    assert_eq!(Reply::Failed.text(), "Deu pau");
    assert_eq!(registry.lookup(1), None);
    assert_eq!(registry.len(), 0);
}

#[test]
fn new_clip_replaces_the_old_one() {
    let mut registry: SoundRegistry<Vec<u8>> = SoundRegistry::new();
    assert_eq!(save_audio(&mut registry, 1, Ok(vec![1])), Ok(()));
    assert_eq!(save_audio(&mut registry, 1, Ok(vec![2])), Ok(()));
    assert_eq!(registry.lookup(1), Some(&vec![2]));
    assert_eq!(registry.len(), 1);
}

#[test]
fn decimal_text_writes_numerals() {
    assert_eq!(decimal_text(0), "0");
    assert_eq!(decimal_text(7), "7");
    assert_eq!(decimal_text(9), "9");
    assert_eq!(decimal_text(10), "10");
    assert_eq!(decimal_text(1234567890), "1234567890");
    assert_eq!(decimal_text(u64::MAX), "18446744073709551615");
    for n in [0u64, 5, 10, 99, 100, 101, 4096, 999_999_999_999] {
        assert_eq!(decimal_text(n), n.to_string());
    }
}

#[test]
fn scratch_name_joins_guild_and_file_name() {
    assert_eq!(scratch_name(123, "boo.ogg"), "123_boo.ogg");
    assert_eq!(scratch_name(0, ""), "0_");
    assert_eq!(scratch_name(81, "áudio.mp3"), "81_áudio.mp3");
    assert_eq!(scratch_name(u64::MAX, "x"), "18446744073709551615_x");
    assert_eq!(scratch_name(7, "_"), "7__");
}

#[test]
fn scratch_names_differ_between_guilds_and_between_files() {
    assert_ne!(scratch_name(1, "boo.ogg"), scratch_name(2, "boo.ogg"));
    assert_ne!(scratch_name(1, "boo.ogg"), scratch_name(1, "moo.ogg"));
    assert_ne!(scratch_name(1, "0"), scratch_name(10, "0"));
    assert_ne!(scratch_name(1, "2a.ogg"), scratch_name(12, "a.ogg"));
    assert_eq!(scratch_name(1, "2a.ogg"), "1_2a.ogg");
    assert_eq!(scratch_name(12, "a.ogg"), "12_a.ogg");
    assert_ne!(scratch_name(1, "_2"), scratch_name(1, "2"));
    assert_ne!(scratch_name(1, "0_x"), scratch_name(10, "x"));
}

#[test]
fn equal_guild_and_file_give_equal_scratch_names() {
    assert_eq!(scratch_name(12, "a.ogg"), scratch_name(12, "a.ogg"));
    assert_eq!(scratch_name(0, ""), scratch_name(0, ""));
}

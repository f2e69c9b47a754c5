use phrasedj::types::{Deck, PhraseKind, TrackId};

#[test]
fn track_id_text_is_hyphenated_lowercase() {
    let id = TrackId::from_u128(0xa1a2a3a4b1b2c1c2d1d2d3d4d5d6d7d8);
    assert_eq!(id.to_string(), "a1a2a3a4-b1b2-c1c2-d1d2-d3d4d5d6d7d8");
}

#[test]
fn track_id_parses_known_uuid() {
    let id = TrackId::parse("550e8400-e29b-41d4-a716-446655440000").unwrap();
    assert_eq!(id.as_u128(), 0x550e8400e29b41d4a716446655440000);
}

#[test]
fn track_id_text_roundtrip() {
    for _ in 0..20 {
        let id = TrackId::new();
        let text = id.to_string();
        assert_eq!(TrackId::parse(&text).unwrap(), id);
    }
    let id = TrackId::from_u128(0);
    assert_eq!(id.to_string(), "00000000-0000-0000-0000-000000000000");
    assert_eq!(TrackId::parse(&id.to_string()).unwrap(), id);
}

#[test]
fn track_id_rejects_garbage() {
    assert!(TrackId::parse("not a uuid").is_err());
    assert!(TrackId::parse("").is_err());
}

#[test]
fn new_track_ids_are_version_four() {
    let v = TrackId::new().as_u128();
    assert_eq!((v >> 76) & 0xf, 4);
    assert_eq!((v >> 62) & 0x3, 2);
    assert_ne!(TrackId::new(), TrackId::new());
    let d = TrackId::default().as_u128();
    assert_eq!((d >> 76) & 0xf, 4);
}

#[test]
fn deck_indices() {
    assert_eq!(Deck::A.index(), 0);
    assert_eq!(Deck::B.index(), 1);
}

#[test]
fn phrase_kind_names() {
    assert_eq!(PhraseKind::Intro.to_string(), "intro");
    assert_eq!(PhraseKind::Verse.to_string(), "verse");
    assert_eq!(PhraseKind::Chorus.to_string(), "chorus");
    assert_eq!(PhraseKind::Drop.to_string(), "drop");
    assert_eq!(PhraseKind::Outro.to_string(), "outro");
    assert_eq!(PhraseKind::Break.to_string(), "break");
}

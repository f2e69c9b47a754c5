use phrasedj::error::CoreError;
use phrasedj::library::connect::{migration_step, LibraryError, SchemaStep};
use phrasedj::library::import::{existing_outcome, is_audio, is_audio_extension, to_ascii_lowercase, ImportOutcome, ScanReport};
use phrasedj::library::schema::{unix_ms_from, now_unix_ms, AnalysisState, StemsState, CURRENT_VERSION};
use phrasedj::library::search::{like_pattern, search_limit, search_sql};
use phrasedj::types::TrackId;

#[test]
fn analysis_states_roundtrip() {
    for s in [AnalysisState::Raw, AnalysisState::Beatgrid, AnalysisState::Full, AnalysisState::Failed] {
        assert_eq!(AnalysisState::parse(s.as_str()), s);
    }
    assert_eq!(AnalysisState::Beatgrid.as_str(), "beatgrid");
    assert_eq!(AnalysisState::parse("something else"), AnalysisState::Raw);
}

#[test]
fn stems_states_roundtrip() {
    for s in [StemsState::Pending, StemsState::Running, StemsState::Cached, StemsState::Failed] {
        assert_eq!(StemsState::parse(s.as_str()), s);
    }
    assert_eq!(StemsState::Cached.as_str(), "cached");
    assert_eq!(StemsState::parse("CACHED"), StemsState::Pending);
}

#[test]
fn audio_files_are_recognised_by_extension() {
    assert!(is_audio("/music/a.flac"));
    assert!(is_audio("b.mp3"));
    assert!(is_audio("/music/artist/c.WAV"));
    assert!(is_audio("d.Opus"));
    assert!(!is_audio("/music/readme.txt"));
    assert!(!is_audio("/music/noext"));
    assert!(!is_audio("/music/.flac"));
    assert!(!is_audio("/music/a.flac.part"));
    assert!(is_audio_extension("aif"));
    assert!(!is_audio_extension("AIF"));
    assert_eq!(to_ascii_lowercase("MiXeD.Ä"), "mixed.Ä");
}

#[test]
fn scan_report_counts() {
    let mut r = ScanReport::default();
    assert_eq!((r.added, r.duplicate, r.skipped, r.errors.len()), (0, 0, 0, 0));
    let id = TrackId::new();
    r.note_outcome(ImportOutcome::Added(id));
    r.note_outcome(ImportOutcome::Added(id));
    r.note_outcome(ImportOutcome::Existing(id));
    r.note_skipped();
    r.note_error("/music/x.flac", "database error: locked");
    assert_eq!((r.added, r.duplicate, r.skipped), (2, 1, 1));
    assert_eq!(r.errors, vec!["/music/x.flac: database error: locked".to_string()]);
}

#[test]
fn import_outcome_id_is_the_same_either_way() {
    let id = TrackId::new();
    assert_eq!(ImportOutcome::Added(id).id(), id);
    assert_eq!(ImportOutcome::Existing(id).id(), id);
}

#[test]
fn existing_rows_answer_with_their_identifier() {
    let id = TrackId::new();
    let out = existing_outcome(&id.to_string()).unwrap();
    assert_eq!(out, ImportOutcome::Existing(id));
    assert!(matches!(existing_outcome("not-a-uuid"), Err(CoreError::Database(_))));
}

#[test]
fn search_sql_has_one_placeholder_per_value() {
    let all = search_sql(true, true, true);
    assert!(all.contains(
        " AND (title LIKE ? ESCAPE '\\' OR artist LIKE ? ESCAPE '\\' OR album LIKE ? ESCAPE '\\')"
    ));
    assert!(all.contains(" AND bpm >= ?"));
    assert!(all.contains(" AND bpm <= ?"));
    assert!(all.ends_with(" ORDER BY artist, album, title LIMIT ?"));
    assert_eq!(all.matches('?').count(), 6);
    let none = search_sql(false, false, false);
    assert!(none.ends_with("FROM tracks WHERE 1=1 ORDER BY artist, album, title LIMIT ?"));
    assert_eq!(none.matches('?').count(), 1);
    assert_eq!(search_sql(false, true, false).matches('?').count(), 2);
}

#[test]
fn like_patterns_escape_wildcards() {
    assert_eq!(like_pattern("Deadmau5"), "%Deadmau5%");
    assert_eq!(like_pattern("100%"), "%100\\%%");
    assert_eq!(like_pattern("a_b"), "%a\\_b%");
    assert_eq!(like_pattern("c:\\x"), "%c:\\\\x%");
    assert_eq!(like_pattern(""), "%%");
}

#[test]
fn search_limit_defaults_to_200() {
    assert_eq!(search_limit(None), 200);
    assert_eq!(search_limit(Some(5)), 5);
}

#[test]
fn migration_decisions() {
    assert_eq!(CURRENT_VERSION, 1);
    assert!(matches!(migration_step(None), Ok(SchemaStep::RecordVersion(1))));
    assert!(matches!(migration_step(Some(1)), Ok(SchemaStep::UpToDate(1))));
    assert!(matches!(migration_step(Some(0)), Ok(SchemaStep::UpToDate(0))));
    match migration_step(Some(2)) {
        Err(e @ LibraryError::UnsupportedSchema { found: 2, supported: 1 }) => {
            assert_eq!(e.message(), "schema version 2 is newer than supported 1");
            let core: CoreError = e.into();
            assert!(matches!(core, CoreError::Database(m) if m == "schema version 2 is newer than supported 1"));
        }
        other => panic!("unexpected {other:?}"),
    }
}

#[test]
fn not_found_message_names_the_track() {
    let id = TrackId::from_u128(1);
    assert_eq!(
        LibraryError::NotFound(id).message(),
        "track not found: 00000000-0000-0000-0000-000000000001"
    );
}

#[test]
fn unix_time_from_clock_readings() {
    assert_eq!(unix_ms_from(None), 0);
    assert_eq!(unix_ms_from(Some(1_700_000_000_000)), 1_700_000_000_000);
    assert!(now_unix_ms() > 1_600_000_000_000);
}

#[test]
fn sqlite_errors_become_database_errors() {
    let e = LibraryError::Sqlite(rusqlite::Error::QueryReturnedNoRows);
    let msg = e.message();
    assert!(msg.starts_with("sqlite error: ") && msg.len() > "sqlite error: ".len());
    match CoreError::from(LibraryError::Sqlite(rusqlite::Error::QueryReturnedNoRows)) {
        CoreError::Database(m) => assert_eq!(m, msg),
        other => panic!("unexpected error: {}", other.message()),
    }
}

#[test]
fn like_search_matches_fragments_literally() {
    let conn = rusqlite::Connection::open_in_memory().unwrap();
    conn.execute_batch(
        "CREATE TABLE tracks (id TEXT, path TEXT, rel_path TEXT, title TEXT, artist TEXT,
            album TEXT, duration_ms INTEGER, bpm REAL, key TEXT, imported_at INTEGER,
            analyzed_at INTEGER, analysis_state TEXT, stems_state TEXT);
         INSERT INTO tracks (id, path, title, imported_at) VALUES ('1', '/a', '100% Pure', 0);
         INSERT INTO tracks (id, path, title, imported_at) VALUES ('2', '/b', '1000 Miles', 0);
         INSERT INTO tracks (id, path, title, imported_at) VALUES ('3', '/c', 'a_b', 0);
         INSERT INTO tracks (id, path, title, imported_at) VALUES ('4', '/d', 'axb', 0);",
    )
    .unwrap();
    let sql = search_sql(true, false, false);
    let titles = |fragment: &str| -> Vec<String> {
        let like = like_pattern(fragment);
        let mut stmt = conn.prepare(&sql).unwrap();
        let rows = stmt
            .query_map((&like, &like, &like, search_limit(None)), |r| r.get::<_, String>(3))
            .unwrap();
        rows.map(|r| r.unwrap()).collect()
    };
    assert_eq!(titles("100%"), vec!["100% Pure".to_string()]);
    assert_eq!(titles("a_b"), vec!["a_b".to_string()]);
    assert_eq!(titles("Miles").len(), 1);
}

#[test]
fn schema_messages_write_numbers_in_decimal() {
    let e = LibraryError::UnsupportedSchema { found: -42, supported: i64::MIN };
    assert_eq!(e.message(), "schema version -42 is newer than supported -9223372036854775808");
    let e = LibraryError::UnsupportedSchema { found: i64::MAX, supported: 0 };
    assert_eq!(e.message(), "schema version 9223372036854775807 is newer than supported 0");
}

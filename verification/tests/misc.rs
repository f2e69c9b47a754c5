use phrasedj::error::CoreError;
use phrasedj::lyrics::{export_lrc, resolve, LyricLine, Lyrics, LyricsSource, ResolveOptions};
use phrasedj::macros::record_start;
use phrasedj::midi::devices_from_port_names;
use phrasedj::plugins::scan_plugins;
use phrasedj::status::app_status;
use phrasedj::types::TrackId;

#[test]
fn lyrics_are_not_found_yet() {
    let track = TrackId::from_u128(0xa1a2a3a4b1b2c1c2d1d2d3d4d5d6d7d8);
    match resolve(track, ResolveOptions::default()) {
        Err(CoreError::Other(m)) => {
            assert_eq!(m, "Lyrics not found for track a1a2a3a4-b1b2-c1c2-d1d2-d3d4d5d6d7d8")
        }
        _ => panic!("lyrics resolution should fail"),
    }
    let opts = ResolveOptions::default();
    assert!(!opts.allow_network && !opts.allow_asr);
}

#[test]
fn lrc_export_succeeds() {
    let lyrics = Lyrics {
        track_id: TrackId::new(),
        source: LyricsSource::Sidecar,
        lines: vec![LyricLine { start_ms: 0, end_ms: 1000, text: "la".to_string() }],
    };
    assert!(export_lrc(&lyrics, "/tmp/x.lrc").is_ok());
}

#[test]
fn recording_starts() {
    assert_eq!(record_start([TrackId::new(), TrackId::new()]).unwrap(), "new-recorder-id");
}

#[test]
fn plugin_scan_succeeds() {
    assert!(scan_plugins().is_ok());
}

#[test]
fn midi_devices_keep_port_indices() {
    let names = vec![Some("Keys".to_string()), None, Some("Pads".to_string())];
    let devices = devices_from_port_names(&names);
    assert_eq!(devices.len(), 2);
    assert_eq!((devices[0].name.as_str(), devices[0].port_index), ("Keys", 0));
    assert_eq!((devices[1].name.as_str(), devices[1].port_index), ("Pads", 2));
    assert!(devices_from_port_names(&Vec::new()).is_empty());
}

#[test]
fn status_from_probes() {
    let s = app_status("0.1.0".to_string(), Some(true), Some(12));
    assert_eq!((s.version.as_str(), s.audio_running, s.library_count), ("0.1.0", true, 12));
    let s = app_status("0.1.0".to_string(), None, None);
    assert!(!s.audio_running);
    assert_eq!(s.library_count, 0);
    assert!(!app_status(String::new(), Some(false), None).audio_running);
}

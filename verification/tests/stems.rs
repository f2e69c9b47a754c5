use phrasedj::stems::backend::{deinterleave, frames_in, interleave, stem_block_offset, StemLabel};
use phrasedj::stems::mlx::MlxBackend;
use phrasedj::stems::model::is_model_installed;
use phrasedj::stems::paths::{model_file, stem_cache_dir, stem_paths_for, track_dir};
use phrasedj::stems::queue::{compute_concurrency, concurrency_for, plan_segments, EnqueueAction, JobRegistry, SegmentWindow};
use phrasedj::stems::stitch::{overlap_samples, plan_blend, stitch_segment, BlendPlan};
use phrasedj::types::TrackId;

#[test]
fn stem_label_names_are_stable() {
    assert_eq!(StemLabel::Vocals.as_str(), "vocals");
    assert_eq!(StemLabel::Drums.as_str(), "drums");
    assert_eq!(StemLabel::Bass.as_str(), "bass");
    assert_eq!(StemLabel::Other.as_str(), "other");
}

#[test]
fn backend_name_is_mlx() {
    assert_eq!(MlxBackend::new().name(), "mlx");
}

#[test]
fn stem_label_order_and_model_order() {
    for (i, l) in StemLabel::ALL.iter().enumerate() {
        assert_eq!(l.index(), i);
    }
    assert_eq!(StemLabel::Vocals.demucs_index(), 3);
    assert_eq!(StemLabel::Drums.demucs_index(), 0);
    assert_eq!(StemLabel::Bass.demucs_index(), 1);
    assert_eq!(StemLabel::Other.demucs_index(), 2);
    assert_eq!(StemLabel::Bass.to_string(), "bass");
}

#[test]
fn stem_paths_for_uses_expected_filenames() {
    let root = "/tmp/stems";
    let track = TrackId::new();
    let paths = stem_paths_for(root, track);
    assert!(std::path::Path::new(&paths.vocals).ends_with("vocals.flac"));
    assert!(std::path::Path::new(&paths.drums).ends_with("drums.flac"));
    assert!(std::path::Path::new(&paths.bass).ends_with("bass.flac"));
    assert!(std::path::Path::new(&paths.other).ends_with("other.flac"));
}

fn joined(parts: &[&str]) -> String {
    let mut p = std::path::PathBuf::from(parts[0]);
    for part in &parts[1..] {
        p.push(part);
    }
    p.to_string_lossy().into_owned()
}

#[test]
fn stem_paths_layout() {
    let track = TrackId::from_u128(0x550e8400e29b41d4a716446655440000);
    let id = "550e8400-e29b-41d4-a716-446655440000";
    let p = stem_paths_for("/cache/stems", track);
    assert_eq!(p.vocals, joined(&["/cache/stems", id, "vocals.flac"]));
    assert_eq!(p.other, joined(&["/cache/stems", id, "other.flac"]));
    assert_eq!(p.path_of(StemLabel::Drums), &p.drums);
    assert_eq!(track_dir("/cache/stems/", track), joined(&["/cache/stems/", id]));
}

#[test]
fn path_joining() {
    assert_eq!(stem_cache_dir("/data"), joined(&["/data", "cache", "stems"]));
    assert_eq!(model_file("/data"), joined(&["/data", "models", "htdemucs.onnx"]));
    assert_eq!(stem_cache_dir("/data/"), joined(&["/data/", "cache", "stems"]));
}

#[test]
fn unix_paths_use_slashes() {
    if std::path::MAIN_SEPARATOR == '/' {
        let track = TrackId::from_u128(0x550e8400e29b41d4a716446655440000);
        let p = stem_paths_for("/cache/stems", track);
        assert_eq!(p.vocals, "/cache/stems/550e8400-e29b-41d4-a716-446655440000/vocals.flac");
        assert_eq!(stem_cache_dir("/data/"), "/data/cache/stems");
        assert_eq!(model_file("/data"), "/data/models/htdemucs.onnx");
    }
}

#[test]
fn model_needs_more_than_a_megabyte() {
    assert!(!is_model_installed(None));
    assert!(!is_model_installed(Some(1_000_000)));
    assert!(is_model_installed(Some(1_000_001)));
}

#[test]
fn compute_concurrency_with_zero_uses_cores() {
    assert!(compute_concurrency(None) >= 1);
}

#[test]
fn compute_concurrency_respects_explicit_value() {
    assert_eq!(compute_concurrency(Some(3)), 3);
}

#[test]
fn concurrency_leaves_one_core_free() {
    assert_eq!(concurrency_for(None, 8), 7);
    assert_eq!(concurrency_for(Some(0), 8), 7);
    assert_eq!(concurrency_for(None, 1), 1);
    assert_eq!(concurrency_for(None, 0), 1);
    assert_eq!(concurrency_for(Some(2), 8), 2);
    assert!(compute_concurrency(Some(0)) >= 1);
}

#[test]
fn five_seconds_is_one_window() {
    let plan = plan_segments(5 * 44_100, 2, 44_100);
    assert_eq!(plan, vec![SegmentWindow { start: 0, end: 5 * 44_100 * 2 }]);
}

#[test]
fn windows_overlap_by_one_second() {
    // 20 s mono at 10 Hz: windows start every 7 s and last 8 s.
    let plan = plan_segments(200, 1, 10);
    assert_eq!(
        plan,
        vec![
            SegmentWindow { start: 0, end: 80 },
            SegmentWindow { start: 70, end: 150 },
            SegmentWindow { start: 140, end: 200 },
        ]
    );
    assert!(plan_segments(0, 2, 44_100).is_empty());
    assert_eq!(plan_segments(70, 2, 10), vec![SegmentWindow { start: 0, end: 140 }]);
    assert_eq!(plan_segments(71, 1, 10).len(), 2);
}

#[test]
fn blend_plans() {
    assert_eq!(plan_blend(0, 100, 10), BlendPlan { start: 0, len: 0 });
    assert_eq!(plan_blend(100, 100, 10), BlendPlan { start: 90, len: 10 });
    assert_eq!(plan_blend(5, 100, 10), BlendPlan { start: 0, len: 5 });
    assert_eq!(plan_blend(100, 3, 10), BlendPlan { start: 97, len: 3 });
    assert_eq!(plan_blend(10, 10, 0), BlendPlan { start: 10, len: 0 });
    assert_eq!(overlap_samples(44_100, 2), 88_200);
}

#[test]
fn planar_and_interleaved_layouts() {
    // 3 frames of stereo: L0 R0 L1 R1 L2 R2
    let inter = vec![10, 20, 11, 21, 12, 22];
    let planar = deinterleave(&inter, 2, 3);
    assert_eq!(planar, vec![10, 11, 12, 20, 21, 22]);
    assert_eq!(interleave(&planar, 0, 2, 3), inter);
    let mut padded = vec![0, 0];
    padded.extend_from_slice(&planar);
    assert_eq!(interleave(&padded, 2, 2, 3), inter);
    assert_eq!(stem_block_offset(StemLabel::Vocals, 2, 3), 18);
    assert_eq!(stem_block_offset(StemLabel::Drums, 2, 3), 0);
    assert_eq!(frames_in(200, 2), 100);
}

#[test]
fn enqueue_is_idempotent() {
    let mut reg = JobRegistry::new();
    let t = TrackId::new();
    assert_eq!(reg.enqueue(t, false), EnqueueAction::Submit);
    assert!(reg.is_active(t));
    assert_eq!(reg.enqueue(t, false), EnqueueAction::AlreadyQueued);
    assert_eq!(reg.enqueue(t, true), EnqueueAction::ReportCached);
    assert!(reg.should_process(t));
    reg.finish(t);
    assert!(!reg.is_active(t));
    assert_eq!(reg.enqueue(t, false), EnqueueAction::Submit);
}

#[test]
fn cancelled_jobs_are_skipped() {
    let mut reg = JobRegistry::new();
    let t = TrackId::new();
    let other = TrackId::new();
    assert!(!reg.cancel(t));
    reg.enqueue(t, false);
    reg.enqueue(other, false);
    assert!(reg.cancel(t));
    assert!(!reg.should_process(t));
    assert!(reg.should_process(other));
}

#[test]
fn stitched_windows_restore_the_track_length() {
    let sample_rate: u32 = 44_100;
    let channels: u16 = 2;
    let overlap = overlap_samples(sample_rate as usize, channels);
    for total_frames in [0usize, 1, 44_100 * 5, 44_100 * 8, 44_100 * 15, 44_100 * 20 + 17, 1_000_000] {
        let plan = plan_segments(total_frames, channels, sample_rate);
        let mut acc: usize = 0;
        for w in &plan {
            let new_len = w.end - w.start;
            let blend = plan_blend(acc, new_len, overlap);
            acc = acc + new_len - blend.len;
        }
        assert_eq!(acc, total_frames * channels as usize, "total_frames = {total_frames}");
    }
}

#[test]
fn stitching_keeps_head_blends_and_appends_tail() {
    let mut acc: Vec<i32> = vec![1, 2, 3, 4, 5];
    let new: Vec<i32> = vec![10, 20, 30, 40];
    let plan = plan_blend(acc.len(), new.len(), 2);
    assert_eq!(plan, BlendPlan { start: 3, len: 2 });
    stitch_segment(&mut acc, &new, &vec![-4, -5], plan);
    assert_eq!(acc, vec![1, 2, 3, -4, -5, 30, 40]);

    let mut first: Vec<i32> = Vec::new();
    let plan = plan_blend(0, new.len(), 2);
    stitch_segment(&mut first, &new, &Vec::new(), plan);
    assert_eq!(first, new);
}

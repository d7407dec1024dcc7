use timelapse_cam::archive::{frame_file_name, latest_file_name, FrameArchive};
use timelapse_cam::frame::{FrameBuffer, LatestFrameStore};
use timelapse_cam::scheduler::publish_capture;

#[test]
fn fresh_store_has_no_frame() {
    let store = LatestFrameStore::new();
    assert_eq!(store.snapshot(), None);
}

#[test]
fn replace_then_snapshot_returns_exact_bytes() {
    let mut store = LatestFrameStore::new();
    let bytes = vec![0xffu8, 0xd8, 0xff, 0xe0, 0x00, 0x10];
    store.replace(FrameBuffer { bytes: bytes.clone(), captured_at: 1 });
    assert_eq!(store.snapshot(), Some(bytes));
}

#[test]
fn second_replace_wins() {
    let mut store = LatestFrameStore::new();
    store.replace(FrameBuffer { bytes: vec![1u8, 2, 3], captured_at: 1 });
    store.replace(FrameBuffer { bytes: vec![9u8, 8], captured_at: 2 });
    assert_eq!(store.snapshot(), Some(vec![9u8, 8]));
}

#[test]
fn archive_entries_and_latest_mirror_captures() {
    let mut archive = FrameArchive::new();
    let frames: Vec<Vec<u8>> = (0u8..5).map(|i| vec![i, i + 10, i + 20]).collect();
    for (i, frame) in frames.iter().enumerate() {
        let index = archive.record(frame.clone());
        assert_eq!(index, i);
    }
    assert_eq!(archive.len(), 5);
    for (i, frame) in frames.iter().enumerate() {
        assert_eq!(archive.entry(i), frame);
    }
    assert_eq!(archive.latest(), Some(&frames[4]));
}

#[test]
fn archive_file_names() {
    assert_eq!(frame_file_name(0), "P0");
    assert_eq!(frame_file_name(4), "P4");
    assert_eq!(frame_file_name(123), "P123");
    assert_eq!(latest_file_name(), "LATEST");
}

#[test]
fn successful_capture_is_published_everywhere() {
    let mut store = LatestFrameStore::new();
    let mut archive = FrameArchive::new();
    let frame = FrameBuffer { bytes: vec![7u8, 7, 7], captured_at: 42 };
    let ok = publish_capture(&mut store, &mut archive, Some(frame));
    assert!(ok);
    assert_eq!(store.snapshot(), Some(vec![7u8, 7, 7]));
    assert_eq!(archive.len(), 1);
    assert_eq!(archive.entry(0), &vec![7u8, 7, 7]);
    assert_eq!(archive.latest(), Some(&vec![7u8, 7, 7]));
}

#[test]
fn failed_capture_changes_nothing() {
    let mut store = LatestFrameStore::new();
    let mut archive = FrameArchive::new();
    publish_capture(
        &mut store,
        &mut archive,
        Some(FrameBuffer { bytes: vec![1u8, 2], captured_at: 1 }),
    );

    let ok = publish_capture(&mut store, &mut archive, None);
    assert!(!ok);
    assert_eq!(store.snapshot(), Some(vec![1u8, 2]));
    assert_eq!(archive.len(), 1);
    assert_eq!(archive.latest(), Some(&vec![1u8, 2]));
}

#[test]
fn failed_capture_on_empty_state_changes_nothing() {
    let mut store = LatestFrameStore::new();
    let mut archive = FrameArchive::new();
    let ok = publish_capture(&mut store, &mut archive, None);
    assert!(!ok);
    assert_eq!(store.snapshot(), None);
    assert_eq!(archive.len(), 0);
    assert_eq!(archive.latest(), None);
}

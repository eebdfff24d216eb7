use zureshot::cursor::{event_mask, kind_of_event_type, CursorEvent, CursorEventKind, CursorLog};
use zureshot::paths::{cursor_sidecar_path, gif_output_path, recording_file_name, Timestamp};
use zureshot::png::png_dimensions;
use zureshot::portal::{session_from_fields, PortalReply};
use zureshot::screenshot::screenshot_result;

#[test]
fn event_mask_sets_one_bit_per_type() {
    let mask = event_mask(&[1, 2, 3, 22]);
    assert_eq!(mask, (1 << 1) | (1 << 2) | (1 << 3) | (1 << 22));
    assert_eq!(event_mask(&[]), 0);
    assert_eq!(event_mask(&[5, 5]), 1 << 5);
}

#[test]
fn hook_event_types_mapped() {
    assert_eq!(kind_of_event_type(1), Some(CursorEventKind::LeftDown));
    assert_eq!(kind_of_event_type(2), Some(CursorEventKind::LeftUp));
    assert_eq!(kind_of_event_type(3), Some(CursorEventKind::RightDown));
    assert_eq!(kind_of_event_type(22), Some(CursorEventKind::Scroll));
    // Moves come from the poll loop, not the hook.
    assert_eq!(kind_of_event_type(5), None);
    assert_eq!(kind_of_event_type(0), None);
}

fn ev(time_ms: u64, kind: CursorEventKind) -> CursorEvent {
    CursorEvent { time_ms, x_mp: 10_000, y_mp: 20_000, kind }
}

#[test]
fn interleaved_events_sorted_by_time() {
    // Poll and hook events arrive out of order; the drained log is
    // sorted and holds exactly the recorded events.
    let mut log = CursorLog::new();
    log.record(ev(50, CursorEventKind::Move));
    log.record(ev(10, CursorEventKind::LeftDown));
    log.record(ev(30, CursorEventKind::LeftUp));
    log.record(ev(30, CursorEventKind::Move));
    log.record(ev(0, CursorEventKind::Scroll));
    let sorted = log.take_sorted();
    assert_eq!(log.len(), 0);
    assert_eq!(sorted.len(), 5);
    let times: Vec<u64> = sorted.iter().map(|e| e.time_ms).collect();
    assert_eq!(times, vec![0, 10, 30, 30, 50]);
    assert_eq!(sorted[0].kind, CursorEventKind::Scroll);
    assert_eq!(sorted[4].kind, CursorEventKind::Move);
}

#[test]
fn kinds_counted() {
    let mut log = CursorLog::new();
    log.record(ev(1, CursorEventKind::Move));
    log.record(ev(2, CursorEventKind::LeftDown));
    log.record(ev(3, CursorEventKind::Move));
    assert_eq!(log.count_kind(CursorEventKind::Move), 2);
    assert_eq!(log.count_kind(CursorEventKind::LeftDown), 1);
    assert_eq!(log.count_kind(CursorEventKind::RightDown), 0);
}

#[test]
fn timestamped_recording_name() {
    let t = Timestamp { year: 2024, month: 1, day: 5, hour: 9, minute: 7, second: 3 };
    assert_eq!(recording_file_name(&t), "zureshot_20240105_090703.mp4");
    let t2 = Timestamp { year: 1999, month: 12, day: 31, hour: 23, minute: 59, second: 59 };
    assert_eq!(recording_file_name(&t2), "zureshot_19991231_235959.mp4");
}

#[test]
fn sidecar_and_gif_paths() {
    assert_eq!(cursor_sidecar_path("a/b.mp4"), "a/b.cursor.json");
    assert_eq!(gif_output_path("rec.mp4"), "rec.gif");
    // A path without the container suffix is left unchanged.
    assert_eq!(cursor_sidecar_path("notes.txt"), "notes.txt");
    assert_eq!(gif_output_path("m"), "m");
}

fn png_header(w: u32, h: u32) -> Vec<u8> {
    let mut data = vec![0x89, 0x50, 0x4e, 0x47, 0x0d, 0x0a, 0x1a, 0x0a];
    data.extend_from_slice(&[0, 0, 0, 13]); // IHDR length
    data.extend_from_slice(b"IHDR");
    data.extend_from_slice(&w.to_be_bytes());
    data.extend_from_slice(&h.to_be_bytes());
    data
}

#[test]
fn png_dimensions_read_from_header() {
    let data = png_header(800, 600);
    assert_eq!(png_dimensions(&data), Some((800, 600)));
}

#[test]
fn png_dimensions_refuse_bad_input() {
    // Too short.
    assert_eq!(png_dimensions(&[0x89, 0x50]), None);
    // Wrong signature.
    let mut data = png_header(800, 600);
    data[0] = 0x88;
    assert_eq!(png_dimensions(&data), None);
}

#[test]
fn screenshot_preview_is_base64_of_the_file() {
    let r = screenshot_result(String::from("shot.png"), 2, 1, 7, &[0u8]);
    assert_eq!(r.path, "shot.png");
    assert_eq!(r.width, 2);
    assert_eq!(r.height, 1);
    assert_eq!(r.file_size_bytes, 7);
    // One zero byte encodes to "AA==": the encoder really ran.
    assert_eq!(r.image_base64, "AA==");

    let empty = screenshot_result(String::from("e.png"), 0, 0, 0, &[]);
    assert_eq!(empty.image_base64, "");

    let hello = screenshot_result(String::from("h.png"), 0, 0, 0, b"hello");
    assert_eq!(hello.image_base64, "aGVsbG8=");
}

#[test]
fn portal_error_refuses_session() {
    let r = session_from_fields(
        Some(String::from("user cancelled")),
        Some(42),
        None,
        None,
        None,
        None,
    );
    match r {
        PortalReply::Refused(m) => assert_eq!(m, "user cancelled"),
        PortalReply::Granted(_) => panic!("error reply must refuse the session"),
    }
}

#[test]
fn portal_without_node_refused() {
    let r = session_from_fields(None, None, None, None, None, None);
    assert!(matches!(r, PortalReply::Refused(_)));
}

#[test]
fn portal_grant_carries_fields() {
    let r = session_from_fields(
        None,
        Some(42),
        Some(String::from("/org/session/1")),
        Some(String::from("tok")),
        Some(1920),
        Some(1080),
    );
    match r {
        PortalReply::Granted(s) => {
            assert_eq!(s.node_id, 42);
            assert_eq!(s.session_handle, "/org/session/1");
            assert_eq!(s.restore_token, "tok");
            assert_eq!(s.width, Some(1920));
            assert_eq!(s.height, Some(1080));
        }
        PortalReply::Refused(m) => panic!("unexpected refusal: {}", m),
    }
}

#[test]
fn portal_partial_size_dropped() {
    let r = session_from_fields(None, Some(7), None, None, Some(1920), None);
    match r {
        PortalReply::Granted(s) => {
            assert_eq!(s.session_handle, "");
            assert_eq!(s.restore_token, "");
            assert_eq!(s.width, None);
            assert_eq!(s.height, None);
        }
        PortalReply::Refused(m) => panic!("unexpected refusal: {}", m),
    }
}

#[test]
fn local_clock_fields_in_range() {
    let t = zureshot::paths::local_timestamp();
    assert!((1..=12).contains(&t.month));
    assert!((1..=31).contains(&t.day));
    assert!(t.hour <= 23);
    assert!(t.minute <= 59);
    assert!(t.second <= 59);
    // The name built from it always has the same shape.
    let name = zureshot::paths::recording_file_name(&t);
    assert!(name.starts_with("zureshot_"));
    assert!(name.ends_with(".mp4"));
    assert_eq!(name.len(), "zureshot_YYYYMMDD_HHMMSS.mp4".len());
}

use clipwatch::image::{clear_fingerprint, process_image_payload, read_le_i32, ImageOutcome,
    ImgFingerprint};

/// A payload of `len` bytes whose header declares `width` by `height` and
/// whose midpoint byte is `mid`.
fn dib_payload(len: usize, width: i32, height: i32, mid: u8) -> Vec<u8> {
    let mut p = vec![0u8; len];
    p[4..8].copy_from_slice(&width.to_le_bytes());
    p[8..12].copy_from_slice(&height.to_le_bytes());
    p[len / 2] = mid;
    p
}

#[test]
fn header_integers_read_little_endian() {
    let p = dib_payload(200, 100, 50, 0);
    assert_eq!(read_le_i32(&p, 4), 100);
    assert_eq!(read_le_i32(&p, 8), 50);
    let n = dib_payload(200, -1920, -2, 0);
    assert_eq!(read_le_i32(&n, 4), -1920);
    assert_eq!(read_le_i32(&n, 8), -2);
}

#[test]
fn first_capture_is_delivered_and_retained() {
    let mut last: Option<ImgFingerprint> = None;
    let payload = dib_payload(200, 100, 50, 0x42);
    let out = process_image_payload(&mut last, &payload, 10, &"snip.exe".to_string(), 10_000);
    match out {
        ImageOutcome::Deliver(shot) => {
            assert_eq!(shot.pid, 10);
            assert_eq!(shot.pname, "snip.exe");
            assert_eq!(shot.data, payload);
        },
        other => panic!("expected delivery, got {:?}", other),
    }
    assert_eq!(
        last,
        Some(ImgFingerprint { width: 100, height: 50, center_byte: 0x42, pid: 10, time: 10_000 })
    );
}

#[test]
fn rapid_update_from_same_owner_is_filtered() {
    let mut last: Option<ImgFingerprint> = None;
    let payload = dib_payload(200, 100, 50, 0x42);
    let name = "snip.exe".to_string();
    let out = process_image_payload(&mut last, &payload, 10, &name, 10_000);
    assert!(matches!(out, ImageOutcome::Deliver(_)));

    // 50 ms later, same owner, only a trailing byte differs
    let mut second = payload.clone();
    let end = second.len() - 1;
    second[end] = 0xFF;
    let out = process_image_payload(&mut last, &second, 10, &name, 10_050);
    assert!(matches!(out, ImageOutcome::Duplicate));
    // the first fingerprint of the burst is kept, not the latest
    assert_eq!(last.unwrap().time, 10_000);
}

#[test]
fn exact_content_repeat_is_filtered_even_after_the_window() {
    let mut last = Some(ImgFingerprint {
        width: 640,
        height: 480,
        center_byte: 0x7F,
        pid: 22,
        time: 1_000,
    });
    // well past the rapid-update window, but identical content from the same owner
    let payload = dib_payload(202, 640, 480, 0x7F);
    let out = process_image_payload(&mut last, &payload, 22, &"tool.exe".to_string(), 60_000);
    assert!(matches!(out, ImageOutcome::Duplicate));
    assert_eq!(last.unwrap().time, 1_000);
}

#[test]
fn different_content_within_rapid_window_is_filtered() {
    let mut last = Some(ImgFingerprint {
        width: 640,
        height: 480,
        center_byte: 0x7F,
        pid: 22,
        time: 1_000,
    });
    // width, height and sample all differ, but the same owner within 600 ms
    let payload = dib_payload(300, 1, 2, 0x01);
    let out = process_image_payload(&mut last, &payload, 22, &"tool.exe".to_string(), 1_599);
    assert!(matches!(out, ImageOutcome::Duplicate));
}

#[test]
fn different_content_after_rapid_window_is_delivered() {
    let mut last = Some(ImgFingerprint {
        width: 640,
        height: 480,
        center_byte: 0x7F,
        pid: 22,
        time: 1_000,
    });
    let payload = dib_payload(300, 1, 2, 0x01);
    let out = process_image_payload(&mut last, &payload, 22, &"tool.exe".to_string(), 1_600);
    assert!(matches!(out, ImageOutcome::Deliver(_)));
    assert_eq!(last.unwrap().time, 1_600);
}

#[test]
fn other_owner_with_different_content_is_delivered_at_once() {
    let mut last = Some(ImgFingerprint {
        width: 640,
        height: 480,
        center_byte: 0x7F,
        pid: 22,
        time: 1_000,
    });
    // same moment, but another process and other content
    let payload = dib_payload(300, 1, 2, 0x01);
    let out = process_image_payload(&mut last, &payload, 23, &"other.exe".to_string(), 1_001);
    assert!(matches!(out, ImageOutcome::Deliver(_)));
    assert_eq!(last.unwrap().pid, 23);
}

#[test]
fn undersized_payload_is_rejected_without_state_change() {
    let retained = Some(ImgFingerprint {
        width: 9,
        height: 9,
        center_byte: 9,
        pid: 9,
        time: 9,
    });
    let mut last = retained;
    // exactly the threshold length: still rejected
    let payload = vec![0xABu8; 40];
    let out = process_image_payload(&mut last, &payload, 10, &"p".to_string(), 50_000);
    assert!(matches!(out, ImageOutcome::Undersized));
    assert_eq!(last, retained);

    let empty: Vec<u8> = vec![];
    let out = process_image_payload(&mut last, &empty, 10, &"p".to_string(), 50_001);
    assert!(matches!(out, ImageOutcome::Undersized));
    assert_eq!(last, retained);
}

#[test]
fn one_byte_over_the_threshold_is_parsed() {
    let mut last: Option<ImgFingerprint> = None;
    let payload = dib_payload(41, 12, 34, 0x55);
    let out = process_image_payload(&mut last, &payload, 5, &"p".to_string(), 100);
    assert!(matches!(out, ImageOutcome::Deliver(_)));
    let fp = last.unwrap();
    assert_eq!((fp.width, fp.height, fp.center_byte), (12, 34, 0x55));
}

#[test]
fn clearing_the_fingerprint_is_idempotent() {
    let mut last = Some(ImgFingerprint {
        width: 1,
        height: 1,
        center_byte: 1,
        pid: 1,
        time: 1,
    });
    clear_fingerprint(&mut last);
    assert_eq!(last, None);
    // clearing again is a no-op, not an error
    clear_fingerprint(&mut last);
    assert_eq!(last, None);
}

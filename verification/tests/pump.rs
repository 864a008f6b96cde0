use flick_rust::pump::pump_bytes;
use flick_rust::pump::ProgressPolicy;
use flick_rust::pump::PumpState;
use flick_rust::pump::CHUNK_SIZE;
use flick_rust::pump::RECEIVE_PROGRESS_THRESHOLD;

fn sample_bytes(len: usize) -> Vec<u8> {
    let mut v = Vec::with_capacity(len);
    let mut x: u32 = 11;
    for _ in 0..len {
        x = x.wrapping_mul(1103515245).wrapping_add(12345);
        v.push((x >> 16) as u8);
    }
    v
}

#[test]
fn pump_copies_empty_source() {
    let src: Vec<u8> = Vec::new();
    let (dest, reports) = pump_bytes(&src, CHUNK_SIZE, ProgressPolicy::EveryChunk);
    assert_eq!(dest, src);
    assert!(reports.is_empty());
}

#[test]
fn pump_copies_content_byte_for_byte() {
    let src = sample_bytes(10);
    let (dest, reports) = pump_bytes(&src, 4, ProgressPolicy::EveryChunk);
    assert_eq!(dest, src);
    assert_eq!(reports, vec![4, 8, 10]);
}

#[test]
fn pump_copies_exact_multiple_of_chunk() {
    let src = sample_bytes(8);
    let (dest, reports) = pump_bytes(&src, 4, ProgressPolicy::EveryChunk);
    assert_eq!(dest, src);
    assert_eq!(reports, vec![4, 8]);
}

#[test]
fn send_reports_are_strictly_increasing() {
    let src = sample_bytes(1000);
    let (_, reports) = pump_bytes(&src, 64, ProgressPolicy::EveryChunk);
    assert_eq!(reports.len(), 16);
    for w in reports.windows(2) {
        assert!(w[0] < w[1]);
    }
    assert_eq!(*reports.last().unwrap(), 1000);
}

#[test]
fn threshold_reports_only_past_threshold() {
    let src = sample_bytes(10);
    let (dest, reports) = pump_bytes(&src, 4, ProgressPolicy::AfterDelta(5));
    assert_eq!(dest, src);
    // Running totals are 4, 8, 10; only 8 exceeds the last report by more
    // than 5.
    assert_eq!(reports, vec![8]);
}

#[test]
fn threshold_zero_reports_every_chunk() {
    let src = sample_bytes(10);
    let (_, reports) = pump_bytes(&src, 4, ProgressPolicy::AfterDelta(0));
    assert_eq!(reports, vec![4, 8, 10]);
}

#[test]
fn threshold_reports_are_non_decreasing() {
    let src = sample_bytes(300000);
    let (_, reports) = pump_bytes(&src, 7000, ProgressPolicy::AfterDelta(30000));
    assert!(!reports.is_empty());
    for w in reports.windows(2) {
        assert!(w[0] <= w[1]);
        assert!(w[1] - w[0] > 30000);
    }
}

#[test]
fn million_byte_file_yields_sixteen_chunks() {
    let src = sample_bytes(1_000_000);
    let (dest, reports) = pump_bytes(&src, CHUNK_SIZE, ProgressPolicy::EveryChunk);
    assert_eq!(dest, src);
    // Fifteen full 65536-byte chunks and one partial chunk of
    // 1,000,000 mod 65536 = 16960 bytes.
    assert_eq!(reports.len(), 16);
    assert_eq!(reports[14], 15 * 65536);
    assert_eq!(reports[15], 1_000_000);
}

#[test]
fn million_byte_file_receive_side_reports() {
    let src = sample_bytes(1_000_000);
    let (dest, reports) = pump_bytes(
        &src,
        CHUNK_SIZE,
        ProgressPolicy::AfterDelta(RECEIVE_PROGRESS_THRESHOLD),
    );
    assert_eq!(dest, src);
    // The first total past 524288 is reached after nine 65536-byte chunks;
    // the remaining 410176 bytes never exceed the threshold again.
    assert_eq!(reports, vec![589824]);
}

#[test]
fn round_trip_preserves_bytes() {
    let src = sample_bytes(200000);
    let (wire, _) = pump_bytes(&src, CHUNK_SIZE, ProgressPolicy::EveryChunk);
    let (stored, _) = pump_bytes(
        &wire,
        CHUNK_SIZE,
        ProgressPolicy::AfterDelta(RECEIVE_PROGRESS_THRESHOLD),
    );
    assert_eq!(stored, src);
}

#[test]
fn record_chunk_every_chunk_reports_each_time() {
    let mut st = PumpState::new();
    assert_eq!(st.record_chunk(100, ProgressPolicy::EveryChunk), Some(100));
    assert_eq!(st.record_chunk(1, ProgressPolicy::EveryChunk), Some(101));
    assert_eq!(st.total, 101);
    assert_eq!(st.last_reported, 101);
}

#[test]
fn record_chunk_threshold_waits_for_delta() {
    let mut st = PumpState::new();
    assert_eq!(st.record_chunk(100, ProgressPolicy::AfterDelta(100)), None);
    assert_eq!(st.record_chunk(100, ProgressPolicy::AfterDelta(100)), Some(200));
    assert_eq!(st.record_chunk(100, ProgressPolicy::AfterDelta(100)), None);
    assert_eq!(st.total, 300);
    assert_eq!(st.last_reported, 200);
}

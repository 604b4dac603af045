use soehnle::frame::{decode_frame, FrameOutcome};
use soehnle::measurement::{Timestamp, Value};

fn weight_frame(
    year: u16,
    month: u8,
    day: u8,
    hour: u8,
    minute: u8,
    second: u8,
    weight_hi: u8,
    weight_lo: u8,
) -> Vec<u8> {
    vec![
        9,
        0,
        (year >> 8) as u8,
        (year & 0xff) as u8,
        month,
        day,
        hour,
        minute,
        second,
        weight_hi,
        weight_lo,
        0,
        0,
        0,
        0,
    ]
}

#[test]
fn decodes_weight_frame_to_timestamp_and_weight() {
    let frame = weight_frame(2023, 1, 15, 10, 30, 0, 2, 228);
    match decode_frame(&frame) {
        FrameOutcome::Measured(rec) => {
            assert_eq!(
                rec.timestamp,
                Timestamp { year: 2023, month: 1, day: 15, hour: 10, minute: 30, second: 0 }
            );
            // 2 * 256 + 228 = 740 tenths of a kilogram: 74.0 kg.
            assert_eq!(rec.values, vec![Value::Weight(740)]);
        }
        other => panic!("expected a measured record, got {:?}", other),
    }
}

#[test]
fn weight_is_big_endian_tenths_of_kilogram() {
    let frame = weight_frame(2023, 1, 15, 10, 30, 0, 2, 188);
    match decode_frame(&frame) {
        FrameOutcome::Measured(rec) => {
            // 2 * 256 + 188 = 700 tenths of a kilogram: 70.0 kg.
            assert_eq!(rec.values, vec![Value::Weight(700)]);
        }
        other => panic!("expected a measured record, got {:?}", other),
    }
}

#[test]
fn decoding_twice_yields_identical_records() {
    let frame = weight_frame(2021, 12, 31, 23, 59, 59, 3, 17);
    let first = decode_frame(&frame);
    let second = decode_frame(&frame);
    assert_eq!(first, second);
}

#[test]
fn unknown_tag_produces_no_record_and_no_error() {
    assert_eq!(decode_frame(&vec![5, 1, 2, 3]), FrameOutcome::Ignored);
    assert_eq!(decode_frame(&vec![0]), FrameOutcome::Ignored);
    assert_eq!(decode_frame(&vec![7]), FrameOutcome::Ignored);
    assert_eq!(decode_frame(&Vec::new()), FrameOutcome::Ignored);
    // Tag 12 without the second byte equal to 1 is no activity frame.
    assert_eq!(decode_frame(&vec![12, 2, 0, 0]), FrameOutcome::Ignored);
    assert_eq!(decode_frame(&vec![12]), FrameOutcome::Ignored);
}

#[test]
fn activity_frame_is_classified_without_decoding() {
    assert_eq!(decode_frame(&vec![12, 1]), FrameOutcome::Activity);
    assert_eq!(
        decode_frame(&vec![12, 1, 0, 0, 0, 0, 0, 0, 0, 3]),
        FrameOutcome::Activity
    );
}

#[test]
fn impossible_month_is_skipped() {
    let frame = weight_frame(2023, 13, 1, 10, 30, 0, 2, 228);
    assert_eq!(decode_frame(&frame), FrameOutcome::Ignored);
    let frame = weight_frame(2023, 0, 1, 10, 30, 0, 2, 228);
    assert_eq!(decode_frame(&frame), FrameOutcome::Ignored);
}

#[test]
fn impossible_day_is_skipped() {
    assert_eq!(
        decode_frame(&weight_frame(2023, 4, 31, 0, 0, 0, 1, 0)),
        FrameOutcome::Ignored
    );
    assert_eq!(
        decode_frame(&weight_frame(2023, 1, 0, 0, 0, 0, 1, 0)),
        FrameOutcome::Ignored
    );
    assert_eq!(
        decode_frame(&weight_frame(2023, 1, 32, 0, 0, 0, 1, 0)),
        FrameOutcome::Ignored
    );
}

#[test]
fn leap_day_needs_a_leap_year() {
    assert!(matches!(
        decode_frame(&weight_frame(2024, 2, 29, 8, 0, 0, 2, 228)),
        FrameOutcome::Measured(_)
    ));
    assert_eq!(
        decode_frame(&weight_frame(2023, 2, 29, 8, 0, 0, 2, 228)),
        FrameOutcome::Ignored
    );
    // A century year is a leap year only when divisible by 400.
    assert_eq!(
        decode_frame(&weight_frame(1900, 2, 29, 8, 0, 0, 2, 228)),
        FrameOutcome::Ignored
    );
    assert!(matches!(
        decode_frame(&weight_frame(2000, 2, 29, 8, 0, 0, 2, 228)),
        FrameOutcome::Measured(_)
    ));
}

#[test]
fn impossible_time_is_skipped() {
    assert_eq!(
        decode_frame(&weight_frame(2023, 1, 15, 24, 0, 0, 1, 0)),
        FrameOutcome::Ignored
    );
    assert_eq!(
        decode_frame(&weight_frame(2023, 1, 15, 10, 60, 0, 1, 0)),
        FrameOutcome::Ignored
    );
    assert_eq!(
        decode_frame(&weight_frame(2023, 1, 15, 10, 30, 60, 1, 0)),
        FrameOutcome::Ignored
    );
    assert!(matches!(
        decode_frame(&weight_frame(2023, 1, 15, 23, 59, 59, 1, 0)),
        FrameOutcome::Measured(_)
    ));
}

#[test]
fn truncated_weight_frame_is_skipped() {
    let mut frame = weight_frame(2023, 1, 15, 10, 30, 0, 2, 228);
    frame.truncate(14);
    assert_eq!(decode_frame(&frame), FrameOutcome::Ignored);
    assert_eq!(decode_frame(&vec![9]), FrameOutcome::Ignored);
}

#[test]
fn timestamp_construction_rejects_impossible_dates() {
    assert_eq!(
        Timestamp::new(2023, 1, 15, 10, 30, 0),
        Some(Timestamp { year: 2023, month: 1, day: 15, hour: 10, minute: 30, second: 0 })
    );
    assert_eq!(Timestamp::new(2023, 13, 1, 0, 0, 0), None);
    assert_eq!(Timestamp::new(2023, 2, 29, 0, 0, 0), None);
    assert_eq!(Timestamp::new(2024, 2, 29, 0, 0, 0).is_some(), true);
    assert_eq!(Timestamp::new(2023, 6, 31, 0, 0, 0), None);
    assert_eq!(Timestamp::new(2023, 6, 30, 23, 59, 59).is_some(), true);
}

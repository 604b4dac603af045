//! Classification and decoding of notification payloads.
//!
//! Each notification payload is a frame tagged by its first byte. Tag 9
//! carries one weight measurement at fixed byte offsets; a frame whose first
//! two bytes are 12 and 1 reports an activity level and is observed without
//! structured decoding; every other frame is ignored. A weight frame whose
//! calendar fields are impossible, or which is too short for its fixed
//! layout, is skipped without failing the session.

use crate::measurement::{Record, RecordData, Timestamp, Value};
use vstd::prelude::*;

verus! {

/// Tag byte of a weight-measurement frame.
pub const WEIGHT_FRAME_TAG: u8 = 9;

/// Tag byte of an activity-level frame.
pub const ACTIVITY_FRAME_TAG: u8 = 12;

/// Second byte that marks an activity-level frame.
pub const ACTIVITY_FRAME_KIND: u8 = 1;

/// Byte length of the fixed weight-frame layout.
pub const WEIGHT_FRAME_LEN: usize = 15;

/// The frame carries the weight tag and is long enough for every fixed
/// field of the weight layout.
pub open spec fn is_weight_frame(s: Seq<u8>) -> bool {
    s.len() >= WEIGHT_FRAME_LEN && s[0] == WEIGHT_FRAME_TAG
}

/// The frame matches the activity-level pattern: first byte 12, second 1.
pub open spec fn is_activity_frame(s: Seq<u8>) -> bool {
    s.len() >= 2 && s[0] == ACTIVITY_FRAME_TAG && s[1] == ACTIVITY_FRAME_KIND
}

/// The timestamp encoded at the fixed offsets of a weight frame: a
/// big-endian year at bytes 2 and 3, then month, day, hour, minute and
/// second as single raw bytes.
pub open spec fn frame_timestamp(s: Seq<u8>) -> Timestamp
    recommends
        s.len() >= WEIGHT_FRAME_LEN,
{
    Timestamp {
        year: (s[2] as int * 256 + s[3] as int) as u16,
        month: s[4],
        day: s[5],
        hour: s[6],
        minute: s[7],
        second: s[8],
    }
}

/// The weight encoded at bytes 9 and 10 of a weight frame, big-endian, in
/// tenths of a kilogram.
pub open spec fn frame_weight_tenths(s: Seq<u8>) -> u16
    recommends
        s.len() >= WEIGHT_FRAME_LEN,
{
    (s[9] as int * 256 + s[10] as int) as u16
}

/// The record a valid weight frame decodes to: its timestamp, and its
/// weight as the single value.
pub open spec fn frame_record(s: Seq<u8>) -> RecordData
    recommends
        s.len() >= WEIGHT_FRAME_LEN,
{
    RecordData {
        timestamp: frame_timestamp(s),
        values: seq![Value::Weight(frame_weight_tenths(s))],
    }
}

/// Outcome of classifying and decoding one frame.
#[derive(Clone, Debug, PartialEq, Eq)]
pub enum FrameOutcome {
    /// A weight frame with a possible calendar date: one decoded record.
    Measured(Record),
    /// An activity-level frame: observed, nothing decoded.
    Activity,
    /// Any other frame, and any weight frame that is truncated or carries
    /// an impossible date: skipped, no record and no error.
    Ignored,
}

/// Mathematical image of a [`FrameOutcome`].
#[verifier::ext_equal]
pub ghost enum FrameOutcomeData {
    Measured(RecordData),
    Activity,
    Ignored,
}

impl View for FrameOutcome {
    type V = FrameOutcomeData;

    open spec fn view(&self) -> FrameOutcomeData {
        match self {
            FrameOutcome::Measured(r) => FrameOutcomeData::Measured(r@),
            FrameOutcome::Activity => FrameOutcomeData::Activity,
            FrameOutcome::Ignored => FrameOutcomeData::Ignored,
        }
    }
}

/// What decoding yields for any payload: a function of the bytes alone.
pub open spec fn spec_decode(s: Seq<u8>) -> FrameOutcomeData {
    if s.len() >= 1 && s[0] == WEIGHT_FRAME_TAG {
        if is_weight_frame(s) && frame_timestamp(s).valid() {
            FrameOutcomeData::Measured(frame_record(s))
        } else {
            FrameOutcomeData::Ignored
        }
    } else if is_activity_frame(s) {
        FrameOutcomeData::Activity
    } else {
        FrameOutcomeData::Ignored
    }
}

/// Classifies one notification payload and decodes a weight frame into a
/// record. Total over all byte sequences: malformed input is ignored,
/// never an error.
pub fn decode_frame(bytes: &Vec<u8>) -> (out: FrameOutcome)
    ensures
        out@ == spec_decode(bytes@),
{
    if bytes.len() >= 1 && bytes[0] == WEIGHT_FRAME_TAG {
        if bytes.len() >= WEIGHT_FRAME_LEN {
            let year: u16 = (bytes[2] as u16) * 256 + (bytes[3] as u16);
            match Timestamp::new(year, bytes[4], bytes[5], bytes[6], bytes[7], bytes[8]) {
                Some(ts) => {
                    let weight: u16 = (bytes[9] as u16) * 256 + (bytes[10] as u16);
                    let rec = Record::with_values(ts, vec![Value::Weight(weight)]);
                    proof {
                        assert(rec@.values =~= frame_record(bytes@).values);
                        assert(rec@ =~= frame_record(bytes@));
                    }
                    FrameOutcome::Measured(rec)
                },
                None => FrameOutcome::Ignored,
            }
        } else {
            FrameOutcome::Ignored
        }
    } else if bytes.len() >= 2 && bytes[0] == ACTIVITY_FRAME_TAG && bytes[1] == ACTIVITY_FRAME_KIND {
        FrameOutcome::Activity
    } else {
        FrameOutcome::Ignored
    }
}

/// Decoding is deterministic: two decodes of the same bytes yield the same
/// outcome, records included.
pub proof fn lemma_decode_deterministic(s: Seq<u8>, a: FrameOutcomeData, b: FrameOutcomeData)
    requires
        a == spec_decode(s),
        b == spec_decode(s),
    ensures
        a == b,
{
}

/// A frame that neither carries the weight tag nor matches the activity
/// pattern produces no record and no error: it is ignored.
pub proof fn lemma_unknown_tag_ignored(s: Seq<u8>)
    requires
        !(s.len() >= 1 && s[0] == WEIGHT_FRAME_TAG),
        !is_activity_frame(s),
    ensures
        spec_decode(s) == FrameOutcomeData::Ignored,
{
}

/// A weight frame with an impossible calendar date decodes to nothing
/// rather than to an error or a crash.
pub proof fn lemma_impossible_date_ignored(s: Seq<u8>)
    requires
        is_weight_frame(s),
        !frame_timestamp(s).valid(),
    ensures
        spec_decode(s) == FrameOutcomeData::Ignored,
{
}

} // verus!

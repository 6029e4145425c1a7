//! Flat views of delivered events.
//!
//! When the engine delivers an event, the boundary builds a flat view of it
//! — topic text, payload bytes, kind, encoding identifier, timestamp — and
//! hands that view to the foreign callback for the duration of one
//! invocation. The view carries the payload and topic verbatim; a missing
//! timestamp is marked absent rather than smuggled in as zeroes.

use crate::encoding::{encoding_to_id, spec_encoding_id_of_text, ZenohEncodingId};
use vstd::prelude::*;

verus! {

/// Whether an event carries new data or retracts it.
#[derive(Clone, Copy, PartialEq, Eq, Structural, Debug)]
pub enum ZenohSampleKind {
    Put,
    Delete,
}

impl ZenohSampleKind {
    /// The numeric value of this kind in the foreign interface.
    pub open spec fn spec_code(self) -> u32 {
        match self {
            ZenohSampleKind::Put => 0,
            ZenohSampleKind::Delete => 1,
        }
    }

    /// The numeric value of this kind in the foreign interface.
    pub fn code(self) -> (c: u32)
        ensures
            c == self.spec_code(),
    {
        match self {
            ZenohSampleKind::Put => 0,
            ZenohSampleKind::Delete => 1,
        }
    }
}

/// A liveliness change is an aliveness announcement exactly when the
/// underlying event carries data rather than retracting it.
pub fn liveliness_is_alive(kind: ZenohSampleKind) -> (alive: bool)
    ensures
        alive == (kind == ZenohSampleKind::Put),
{
    match kind {
        ZenohSampleKind::Put => true,
        ZenohSampleKind::Delete => false,
    }
}

/// A logical timestamp: an NTP64-style instant and the stable identifier of
/// the endpoint that minted it.
#[derive(Clone, Copy, PartialEq, Eq, Debug)]
pub struct ZenohTimestamp {
    pub time_ntp64: u64,
    pub id: [u8; 16],
}

/// Builds a timestamp from the instant and the minting endpoint's
/// little-endian identifier bytes: the first sixteen bytes are kept, and a
/// shorter identifier is padded with zeroes.
pub fn timestamp_from_le_bytes(time_ntp64: u64, id_bytes: &[u8]) -> (t: ZenohTimestamp)
    ensures
        t.time_ntp64 == time_ntp64,
        forall|i: int|
            0 <= i < 16 ==> t.id@[i] == (if i < id_bytes@.len() {
                id_bytes@[i]
            } else {
                0u8
            }),
{
    let mut id: [u8; 16] = [0; 16];
    let n = if id_bytes.len() < 16 {
        id_bytes.len()
    } else {
        16
    };
    let mut i: usize = 0;
    while i < n
        invariant
            0 <= i <= n <= 16,
            n <= id_bytes@.len(),
            n == (if id_bytes@.len() < 16 {
                id_bytes@.len() as int
            } else {
                16int
            }),
            forall|j: int| 0 <= j < i ==> id@[j] == id_bytes@[j],
            forall|j: int| i <= j < 16 ==> id@[j] == 0u8,
        decreases n - i,
    {
        id[i] = id_bytes[i];
        i = i + 1;
    }
    ZenohTimestamp { time_ntp64, id }
}

/// The all-zero timestamp that fills the view when the event carried none;
/// the view's validity flag, not this value, says whether a timestamp was
/// present.
pub fn timestamp_absent() -> (t: ZenohTimestamp)
    ensures
        t.time_ntp64 == 0,
        forall|i: int| 0 <= i < 16 ==> t.id@[i] == 0u8,
{
    ZenohTimestamp { time_ntp64: 0, id: [0; 16] }
}

/// The flat view of one delivered event, valid for one callback invocation.
pub struct SampleData {
    pub key_expr: String,
    pub payload: Vec<u8>,
    pub kind: ZenohSampleKind,
    pub encoding_id: ZenohEncodingId,
    pub timestamp_valid: bool,
    pub timestamp: ZenohTimestamp,
}

/// Builds the view of one delivered event. The topic text and payload bytes
/// are carried over verbatim, the encoding text is mapped to its identifier,
/// and the timestamp's validity flag says whether the event carried one.
pub fn make_sample_data(
    key_expr: String,
    payload: Vec<u8>,
    kind: ZenohSampleKind,
    encoding_text: &str,
    timestamp: Option<ZenohTimestamp>,
) -> (s: SampleData)
    ensures
        s.key_expr@ == key_expr@,
        s.payload@ == payload@,
        s.kind == kind,
        s.encoding_id == spec_encoding_id_of_text(encoding_text@),
        s.timestamp_valid == (timestamp is Some),
        timestamp matches Some(t) ==> s.timestamp == t,
        timestamp is None ==> s.timestamp.time_ntp64 == 0 && (forall|i: int|
            0 <= i < 16 ==> s.timestamp.id@[i] == 0u8),
{
    let encoding_id = encoding_to_id(encoding_text);
    match timestamp {
        Some(t) => SampleData {
            key_expr,
            payload,
            kind,
            encoding_id,
            timestamp_valid: true,
            timestamp: t,
        },
        None => SampleData {
            key_expr,
            payload,
            kind,
            encoding_id,
            timestamp_valid: false,
            timestamp: timestamp_absent(),
        },
    }
}

} // verus!

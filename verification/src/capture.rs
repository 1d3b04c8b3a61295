//! Translates decoded source records into output capture records and
//! serializes them, and the capture file header, into the big-endian output
//! container. The sink itself lives outside the library; it must be flushed
//! after each record so the viewer renders packets with minimal latency.

use vstd::prelude::*;

use crate::bytes::{be16_bytes, be32_bytes, push_be16, push_be32, push_bytes};
use crate::direction::{direction_of, pseudo_header_of, Direction};
use crate::snoop::{SourceRecord, SourceRecordModel};

verus! {

/// Microseconds between the source log's epoch (midnight, January 1, 0 AD)
/// and the Unix epoch the capture container counts from.
pub const SOURCE_EPOCH_DELTA_US: i64 = 0x00dcddb30f2f8000;

/// The snapshot length declared in the capture file header.
pub const SNAP_LEN: u32 = 65535;

/// The output link-layer type: Bluetooth HCI over UART with a direction
/// pseudo-header.
pub const OUTPUT_DATALINK: u32 = 201;

/// The magic number opening a big-endian, microsecond-resolution capture
/// file.
pub const CAPTURE_MAGIC: u32 = 0xA1B2C3D4;

/// An output-native timestamp: seconds and microseconds since the Unix
/// epoch.
#[derive(Clone, Copy, Debug, PartialEq, Eq, Structural)]
pub struct CaptureTimestamp {
    pub sec: u32,
    pub usec: u32,
}

/// One translated packet, ready for serialization: the converted timestamp,
/// the adjusted original length, and the pseudo-header followed by the
/// payload.
#[derive(Debug)]
pub struct CaptureRecord {
    pub ts: CaptureTimestamp,
    pub orig_len: u32,
    pub data: Vec<u8>,
}

/// The mathematical model of a capture record.
pub ghost struct CaptureRecordModel {
    pub ts: CaptureTimestamp,
    pub orig_len: u32,
    pub data: Seq<u8>,
}

impl View for CaptureRecord {
    type V = CaptureRecordModel;

    open spec fn view(&self) -> CaptureRecordModel {
        CaptureRecordModel { ts: self.ts, orig_len: self.orig_len, data: self.data@ }
    }
}

/// Why a record cannot be represented in the output container.
#[derive(Clone, Copy, Debug, PartialEq, Eq, Structural)]
pub enum CaptureError {
    /// The source timestamp lies before the Unix epoch.
    TimestampBeforeEpoch,
    /// The converted seconds value does not fit the 32-bit timestamp field.
    TimestampTooLarge,
    /// The adjusted original length does not fit its 32-bit field.
    OriginalLengthTooLarge,
    /// Pseudo-header plus payload exceeds the declared snapshot length.
    PayloadTooLong,
    /// The captured length would exceed the stored original length.
    IncludedExceedsOriginal,
}

/// The translation of one source record: the timestamp is rebased from the
/// source epoch to the Unix epoch, the payload is prefixed with the
/// direction pseudo-header, and both stored lengths grow by the 4 bytes the
/// pseudo-header adds; or the exact reason the record cannot be
/// represented.
pub open spec fn translated(m: SourceRecordModel) -> Result<CaptureRecordModel, CaptureError> {
    let delta = m.timestamp_us - SOURCE_EPOCH_DELTA_US;
    if m.timestamp_us < SOURCE_EPOCH_DELTA_US {
        Err(CaptureError::TimestampBeforeEpoch)
    } else if delta / 1000000 > u32::MAX {
        Err(CaptureError::TimestampTooLarge)
    } else if m.original_length > u32::MAX - 4 {
        Err(CaptureError::OriginalLengthTooLarge)
    } else if m.payload.len() + 4 > SNAP_LEN {
        Err(CaptureError::PayloadTooLong)
    } else if m.payload.len() > m.original_length {
        Err(CaptureError::IncludedExceedsOriginal)
    } else {
        Ok(
            CaptureRecordModel {
                ts: CaptureTimestamp {
                    sec: (delta / 1000000) as u32,
                    usec: (delta % 1000000) as u32,
                },
                orig_len: (m.original_length + 4) as u32,
                data: pseudo_header_of(direction_of(m.payload)) + m.payload,
            },
        )
    }
}

/// Translates one source record, classifying its direction from the
/// payload and rebasing its timestamp, exactly as [`translated`] states.
pub fn translate_record(rec: &SourceRecord) -> (r: Result<CaptureRecord, CaptureError>)
    ensures
        match r {
            Ok(c) => translated(rec@) == Ok::<CaptureRecordModel, CaptureError>(c@),
            Err(e) => translated(rec@) == Err::<CaptureRecordModel, CaptureError>(e),
        },
{
    if rec.timestamp_us < SOURCE_EPOCH_DELTA_US {
        return Err(CaptureError::TimestampBeforeEpoch);
    }
    let unix_us = (rec.timestamp_us - SOURCE_EPOCH_DELTA_US) as u64;
    let sec64 = unix_us / 1000000;
    if sec64 > u32::MAX as u64 {
        return Err(CaptureError::TimestampTooLarge);
    }
    if rec.original_length > u32::MAX - 4 {
        return Err(CaptureError::OriginalLengthTooLarge);
    }
    if rec.payload.len() > (SNAP_LEN - 4) as usize {
        return Err(CaptureError::PayloadTooLong);
    }
    if rec.payload.len() > rec.original_length as usize {
        return Err(CaptureError::IncludedExceedsOriginal);
    }
    let direction = Direction::parse_from_payload(rec.payload.as_slice());
    let mut data = direction.to_hci_pseudo_header();
    push_bytes(&mut data, rec.payload.as_slice());
    Ok(
        CaptureRecord {
            ts: CaptureTimestamp { sec: sec64 as u32, usec: (unix_us % 1000000) as u32 },
            orig_len: rec.original_length + 4,
            data,
        },
    )
}

/// The serialized form of a capture record: four big-endian 32-bit fields
/// (seconds, microseconds, captured length, original length) followed by
/// the data bytes.
pub open spec fn record_bytes(m: CaptureRecordModel) -> Seq<u8>
    recommends
        m.data.len() <= u32::MAX,
{
    be32_bytes(m.ts.sec) + be32_bytes(m.ts.usec) + be32_bytes(m.data.len() as u32) + be32_bytes(
        m.orig_len,
    ) + m.data
}

/// Serializes one capture record for the output container.
pub fn capture_record_bytes(rec: &CaptureRecord) -> (v: Vec<u8>)
    requires
        rec.data@.len() <= u32::MAX,
    ensures
        v@ == record_bytes(rec@),
{
    let mut v: Vec<u8> = Vec::new();
    push_be32(&mut v, rec.ts.sec);
    push_be32(&mut v, rec.ts.usec);
    push_be32(&mut v, rec.data.len() as u32);
    push_be32(&mut v, rec.orig_len);
    push_bytes(&mut v, rec.data.as_slice());
    proof {
        assert(v@ =~= record_bytes(rec@));
    }
    v
}

/// The serialized 24-byte capture file header: magic number, version 2.4,
/// zero timezone correction and accuracy, the snapshot length, and the
/// output link-layer type, all big-endian.
pub open spec fn capture_file_header() -> Seq<u8> {
    be32_bytes(CAPTURE_MAGIC) + be16_bytes(2) + be16_bytes(4) + be32_bytes(0) + be32_bytes(0)
        + be32_bytes(SNAP_LEN) + be32_bytes(OUTPUT_DATALINK)
}

/// Serializes the capture file header that precedes the first record.
pub fn capture_file_header_bytes() -> (v: Vec<u8>)
    ensures
        v@ == capture_file_header(),
{
    let mut v: Vec<u8> = Vec::new();
    push_be32(&mut v, CAPTURE_MAGIC);
    push_be16(&mut v, 2);
    push_be16(&mut v, 4);
    push_be32(&mut v, 0);
    push_be32(&mut v, 0);
    push_be32(&mut v, SNAP_LEN);
    push_be32(&mut v, OUTPUT_DATALINK);
    proof {
        assert(v@ =~= capture_file_header());
    }
    v
}

} // verus!

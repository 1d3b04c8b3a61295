use btsnoop_extcap::capture::{
    capture_file_header_bytes, capture_record_bytes, translate_record, CaptureError,
};
use btsnoop_extcap::direction::Direction;
use btsnoop_extcap::snoop::SourceRecord;

// Microseconds from year 0 to 2000-01-01 00:00:00 UTC.
const TS_Y2K: i64 = 0x00E03AB44A676000;
const Y2K_UNIX_SECONDS: u32 = 946684800;

fn record(ts: i64, orig: u32, payload: &[u8]) -> SourceRecord {
    SourceRecord {
        original_length: orig,
        included_length: payload.len() as u32,
        flags: 0,
        drop_count: 0,
        timestamp_us: ts,
        payload: payload.to_vec(),
    }
}

#[test]
fn direction_classification() {
    assert_eq!(
        Direction::parse_from_payload(&[0x01, 0x03]),
        Direction::SentFromHost
    );
    assert_eq!(
        Direction::parse_from_payload(&[0x04, 0x0e]),
        Direction::ReceivedByHost
    );
    assert_eq!(
        Direction::parse_from_payload(&[0x02, 0x00]),
        Direction::Unknown
    );
    assert_eq!(Direction::parse_from_payload(&[]), Direction::Unknown);
}

#[test]
fn pseudo_header_lookup() {
    assert_eq!(
        Direction::SentFromHost.to_hci_pseudo_header(),
        vec![0, 0, 0, 0]
    );
    assert_eq!(
        Direction::ReceivedByHost.to_hci_pseudo_header(),
        vec![0, 0, 0, 1]
    );
    assert_eq!(Direction::Unknown.to_hci_pseudo_header(), vec![0, 0, 0, 0]);
}

#[test]
fn translation_rebases_timestamp_and_prefixes_pseudo_header() {
    let rec = record(TS_Y2K + 395_644, 4, &[0x01, 0x03, 0x0c, 0x00]);
    let cap = translate_record(&rec).unwrap();
    assert_eq!(cap.ts.sec, Y2K_UNIX_SECONDS);
    assert_eq!(cap.ts.usec, 395_644);
    assert_eq!(cap.orig_len, 8);
    assert_eq!(cap.data, vec![0, 0, 0, 0, 0x01, 0x03, 0x0c, 0x00]);
}

#[test]
fn translation_agrees_with_reference_timestamp() {
    // The reference decoder turns this source timestamp into the Unix-epoch
    // duration 946684800s; the translation must agree.
    let header = btsnoop::PacketHeader {
        original_length: 10,
        included_length: 10,
        packet_flags: btsnoop::PacketFlags {
            direction: btsnoop::DirectionFlag::Sent,
            command: btsnoop::CommandFlag::Data,
            reserved: 0,
        },
        culmulative_drops: 0,
        timestamp_microseconds: TS_Y2K,
    };
    let reference = header.timestamp();
    let rec = record(TS_Y2K, 2, &[0x04, 0x0e]);
    let cap = translate_record(&rec).unwrap();
    assert_eq!(cap.ts.sec as u64, reference.as_secs());
    assert_eq!(cap.ts.usec, reference.subsec_micros());
}

#[test]
fn translation_error_variants() {
    // A source timestamp before the Unix epoch.
    assert_eq!(
        translate_record(&record(0, 4, &[1, 2])).unwrap_err(),
        CaptureError::TimestampBeforeEpoch
    );
    // Converted seconds beyond the 32-bit field.
    assert_eq!(
        translate_record(&record(i64::MAX, 4, &[1, 2])).unwrap_err(),
        CaptureError::TimestampTooLarge
    );
    // An original length whose 4-byte adjustment overflows.
    assert_eq!(
        translate_record(&record(TS_Y2K, u32::MAX, &[1, 2])).unwrap_err(),
        CaptureError::OriginalLengthTooLarge
    );
    // A payload that cannot fit under the snapshot length.
    let big = vec![0u8; 65532];
    assert_eq!(
        translate_record(&record(TS_Y2K, 70000, &big)).unwrap_err(),
        CaptureError::PayloadTooLong
    );
    // More captured bytes than the declared original length.
    assert_eq!(
        translate_record(&record(TS_Y2K, 1, &[1, 2, 3])).unwrap_err(),
        CaptureError::IncludedExceedsOriginal
    );
}

#[test]
fn file_header_serialization() {
    let header = capture_file_header_bytes();
    let mut expected = Vec::new();
    expected.extend_from_slice(&0xA1B2C3D4u32.to_be_bytes());
    expected.extend_from_slice(&2u16.to_be_bytes());
    expected.extend_from_slice(&4u16.to_be_bytes());
    expected.extend_from_slice(&0u32.to_be_bytes());
    expected.extend_from_slice(&0u32.to_be_bytes());
    expected.extend_from_slice(&65535u32.to_be_bytes());
    expected.extend_from_slice(&201u32.to_be_bytes());
    assert_eq!(header, expected);
}

#[test]
fn serialized_capture_parses_back_with_reference_reader() {
    let rec = record(TS_Y2K + 1_500_000, 6, &[0x04, 0x0e, 0x04, 0x01, 0x03, 0x0c]);
    let cap = translate_record(&rec).unwrap();

    let mut file = capture_file_header_bytes();
    file.extend_from_slice(&capture_record_bytes(&cap));

    let mut reader = pcap_file::pcap::PcapReader::new(&file[..]).unwrap();
    assert_eq!(
        reader.header().datalink,
        pcap_file::DataLink::BLUETOOTH_HCI_H4_WITH_PHDR
    );
    assert_eq!(reader.header().endianness, pcap_file::Endianness::Big);
    let packet = reader.next_packet().unwrap().unwrap();
    assert_eq!(packet.timestamp.as_secs(), Y2K_UNIX_SECONDS as u64 + 1);
    assert_eq!(packet.timestamp.subsec_micros(), 500_000);
    assert_eq!(packet.orig_len, 10);
    assert_eq!(
        packet.data.as_ref(),
        &[0, 0, 0, 1, 0x04, 0x0e, 0x04, 0x01, 0x03, 0x0c]
    );
    assert!(reader.next_packet().is_none());
}

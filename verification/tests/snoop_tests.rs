use btsnoop_extcap::snoop::{
    parse_log, FormatError, PollOutcome, SnoopError, SnoopStreamParser,
};

fn push_u32(v: &mut Vec<u8>, x: u32) {
    v.extend_from_slice(&x.to_be_bytes());
}

fn push_u64(v: &mut Vec<u8>, x: u64) {
    v.extend_from_slice(&x.to_be_bytes());
}

fn header_bytes(version: u32, datalink: u32) -> Vec<u8> {
    let mut v = Vec::new();
    v.extend_from_slice(b"btsnoop\0");
    push_u32(&mut v, version);
    push_u32(&mut v, datalink);
    v
}

fn record_bytes(orig: u32, flags: u32, drops: u32, ts: u64, payload: &[u8]) -> Vec<u8> {
    let mut v = Vec::new();
    push_u32(&mut v, orig);
    push_u32(&mut v, payload.len() as u32);
    push_u32(&mut v, flags);
    push_u32(&mut v, drops);
    push_u64(&mut v, ts);
    v.extend_from_slice(payload);
    v
}

// Microseconds from year 0 to 2000-01-01, taken from the source format's
// fixed epoch offset plus 946684800 seconds.
const TS_Y2K: u64 = 0x00E03AB44A676000;

#[test]
fn parses_header_and_records() {
    let mut log = header_bytes(1, 1002);
    log.extend_from_slice(&record_bytes(4, 2, 0, TS_Y2K, &[0x01, 0x03, 0x0c, 0x00]));
    log.extend_from_slice(&record_bytes(3, 3, 1, TS_Y2K + 5, &[0x04, 0xff, 0x00]));
    let (header, records) = parse_log(&log).unwrap();
    assert_eq!(header.version, 1);
    assert_eq!(header.datalink, 1002);
    assert_eq!(records.len(), 2);
    assert_eq!(records[0].original_length, 4);
    assert_eq!(records[0].included_length, 4);
    assert_eq!(records[0].flags, 2);
    assert_eq!(records[0].drop_count, 0);
    assert_eq!(records[0].timestamp_us, TS_Y2K as i64);
    assert_eq!(records[0].payload, vec![0x01, 0x03, 0x0c, 0x00]);
    assert_eq!(records[1].payload, vec![0x04, 0xff, 0x00]);
    assert_eq!(records[1].drop_count, 1);
}

#[test]
fn empty_record_region_is_a_clean_end() {
    let log = header_bytes(1, 1002);
    let (_, records) = parse_log(&log).unwrap();
    assert_eq!(records.len(), 0);
}

#[test]
fn bad_magic_fails_deterministically() {
    let mut log = header_bytes(1, 1002);
    log[0] = b'x';
    assert!(matches!(
        parse_log(&log),
        Err(SnoopError::Format(FormatError::BadMagic))
    ));
    // Whatever bytes follow, the verdict is the same.
    log.extend_from_slice(&record_bytes(1, 0, 0, TS_Y2K, &[0x01]));
    assert!(matches!(
        parse_log(&log),
        Err(SnoopError::Format(FormatError::BadMagic))
    ));
}

#[test]
fn bad_version_fails_deterministically() {
    let log = header_bytes(2, 1002);
    assert!(matches!(
        parse_log(&log),
        Err(SnoopError::Format(FormatError::BadVersion))
    ));
}

#[test]
fn declared_length_beyond_stream_is_an_error_not_a_clean_end() {
    let mut log = header_bytes(1, 1002);
    // The record header declares 10 payload bytes but only 5 follow.
    let full = record_bytes(10, 0, 0, TS_Y2K, &[1, 2, 3, 4, 5, 6, 7, 8, 9, 10]);
    log.extend_from_slice(&full[..24 + 5]);
    assert!(matches!(parse_log(&log), Err(SnoopError::UnexpectedEnd)));
}

#[test]
fn partial_record_header_is_an_error() {
    let mut log = header_bytes(1, 1002);
    log.extend_from_slice(&[0u8; 10]);
    assert!(matches!(parse_log(&log), Err(SnoopError::UnexpectedEnd)));
}

#[test]
fn partial_file_header_is_an_error() {
    let log = b"btsnoop\0\x00\x00";
    assert!(matches!(parse_log(log), Err(SnoopError::UnexpectedEnd)));
}

#[test]
fn incremental_parser_handles_byte_by_byte_arrival() {
    let mut log = header_bytes(1, 1002);
    log.extend_from_slice(&record_bytes(2, 0, 0, TS_Y2K, &[0x01, 0x02]));
    log.extend_from_slice(&record_bytes(1, 0, 0, TS_Y2K + 1, &[0x04]));

    let mut parser = SnoopStreamParser::new();
    let mut headers = 0;
    let mut payloads: Vec<Vec<u8>> = Vec::new();
    for byte in log.iter() {
        parser.feed(&[*byte]);
        loop {
            match parser.poll().unwrap() {
                PollOutcome::NeedMoreData => break,
                PollOutcome::ParsedHeader(h) => {
                    headers += 1;
                    assert_eq!(h.datalink, 1002);
                }
                PollOutcome::ParsedRecord(rec) => payloads.push(rec.payload),
            }
        }
    }
    assert_eq!(headers, 1);
    assert_eq!(payloads, vec![vec![0x01, 0x02], vec![0x04]]);
    assert!(parser.at_record_boundary());
}

#[test]
fn parser_agrees_with_reference_decoder() {
    let mut log = header_bytes(1, 1002);
    log.extend_from_slice(&record_bytes(4, 0, 0, TS_Y2K, &[0x01, 0x03, 0x0c, 0x00]));
    log.extend_from_slice(&record_bytes(2, 1, 0, TS_Y2K + 7, &[0x04, 0x0e]));

    let (_, ours) = parse_log(&log).unwrap();
    let reference = btsnoop::parse_btsnoop_file(&log).unwrap();
    assert_eq!(ours.len(), reference.packets.len());
    for (a, b) in ours.iter().zip(reference.packets.iter()) {
        assert_eq!(a.payload.as_slice(), b.packet_data);
        assert_eq!(a.original_length, b.header.original_length);
        assert_eq!(a.included_length, b.header.included_length);
        assert_eq!(a.timestamp_us, b.header.timestamp_microseconds);
        assert_eq!(a.drop_count, b.header.culmulative_drops);
    }
}

use btsnoop_extcap::pipeline::{translate_log, PipelineError};
use btsnoop_extcap::snoop::{FormatError, SnoopError};

fn push_u32(v: &mut Vec<u8>, x: u32) {
    v.extend_from_slice(&x.to_be_bytes());
}

fn push_record(v: &mut Vec<u8>, orig: u32, ts: u64, payload: &[u8]) {
    push_u32(v, orig);
    push_u32(v, payload.len() as u32);
    push_u32(v, 0);
    push_u32(v, 0);
    v.extend_from_slice(&ts.to_be_bytes());
    v.extend_from_slice(payload);
}

const TS_Y2K: u64 = 0x00E03AB44A676000;

fn three_record_log() -> Vec<u8> {
    let mut log = Vec::new();
    log.extend_from_slice(b"btsnoop\0");
    push_u32(&mut log, 1);
    push_u32(&mut log, 1002);
    push_record(&mut log, 4, TS_Y2K, &[0x01, 0x03, 0x0c, 0x00]);
    push_record(&mut log, 3, TS_Y2K + 10, &[0x04, 0x0e, 0x01]);
    push_record(&mut log, 2, TS_Y2K + 20, &[0x02, 0x00]);
    log
}

#[test]
fn zero_delay_emits_every_record_with_its_direction() {
    let log = three_record_log();
    let out = translate_log(&log, &vec![1, 2, 3], 0).unwrap();
    assert_eq!(out.len(), 3);
    // Bytes 16..20 of each serialized record are the direction
    // pseudo-header the classifier chose from the payload's first byte.
    assert_eq!(&out[0][16..20], &[0, 0, 0, 0]);
    assert_eq!(&out[1][16..20], &[0, 0, 0, 1]);
    assert_eq!(&out[2][16..20], &[0, 0, 0, 0]);
}

#[test]
fn startup_window_drops_early_records_and_keeps_order() {
    let log = three_record_log();
    let arrivals = vec![1, 3, 10];
    let all = translate_log(&log, &arrivals, 0).unwrap();
    let late = translate_log(&log, &arrivals, 5).unwrap();
    // The two records arriving within the 5-microsecond window are parsed
    // but not emitted; what remains is the zero-delay output minus that
    // prefix, in the original order.
    assert_eq!(late.len(), 1);
    assert_eq!(late[0], all[2]);
    // A window that covers everything emits nothing, yet still parses.
    let none = translate_log(&log, &arrivals, 100).unwrap();
    assert_eq!(none.len(), 0);
}

#[test]
fn missing_arrival_times_count_as_after_the_window() {
    let log = three_record_log();
    let out = translate_log(&log, &vec![1], 5).unwrap();
    assert_eq!(out.len(), 2);
}

#[test]
fn bad_magic_is_a_format_error() {
    let mut log = three_record_log();
    log[0] = b'X';
    assert!(matches!(
        translate_log(&log, &vec![], 0),
        Err(PipelineError::Snoop(SnoopError::Format(FormatError::BadMagic)))
    ));
}

#[test]
fn truncated_payload_is_an_unexpected_end() {
    let mut log = three_record_log();
    log.truncate(log.len() - 1);
    assert!(matches!(
        translate_log(&log, &vec![], 0),
        Err(PipelineError::Snoop(SnoopError::UnexpectedEnd))
    ));
}

#[test]
fn untranslatable_emitted_record_reports_its_error() {
    let mut log = Vec::new();
    log.extend_from_slice(b"btsnoop\0");
    push_u32(&mut log, 1);
    push_u32(&mut log, 1002);
    // A record whose source timestamp lies before the Unix epoch.
    push_record(&mut log, 2, 0, &[0x01, 0x00]);
    assert!(matches!(
        translate_log(&log, &vec![], 0),
        Err(PipelineError::Capture(_))
    ));
    // The same record suppressed by the startup window is never translated.
    let out = translate_log(&log, &vec![1], 5).unwrap();
    assert_eq!(out.len(), 0);
}

#[test]
fn whole_output_reads_back_as_one_capture_file() {
    let log = three_record_log();
    let records = translate_log(&log, &vec![1, 1, 1], 0).unwrap();
    let mut file = btsnoop_extcap::capture::capture_file_header_bytes();
    for r in &records {
        file.extend_from_slice(r);
    }
    let mut reader = pcap_file::pcap::PcapReader::new(&file[..]).unwrap();
    let mut n = 0;
    while let Some(packet) = reader.next_packet() {
        let packet = packet.unwrap();
        assert_eq!(packet.timestamp.as_secs(), 946684800);
        n += 1;
    }
    assert_eq!(n, 3);
}

//! The streaming parser for the binary source log: a 16-byte file header
//! (magic tag, version, datalink type) followed by records made of a 24-byte
//! fixed header and a variable-length payload, all fields big-endian.

use vstd::prelude::*;

use crate::bytes::{be32, be64_signed, read_be32, read_be64_signed};

verus! {

/// The fixed 8-byte magic tag that opens a well-formed source log.
pub open spec fn magic_tag() -> Seq<u8> {
    seq![0x62u8, 0x74u8, 0x73u8, 0x6eu8, 0x6fu8, 0x6fu8, 0x70u8, 0x00u8]
}

/// The only format version this parser accepts.
pub open spec fn supported_version() -> nat {
    1
}

/// The validated file header: magic tag checked and dropped, version and
/// declared link-layer type kept.
#[derive(Clone, Copy, Debug, PartialEq, Eq, Structural)]
pub struct SourceHeader {
    pub version: u32,
    pub datalink: u32,
}

/// One decoded record: the five fixed header fields and the captured payload.
#[derive(Debug)]
pub struct SourceRecord {
    pub original_length: u32,
    pub included_length: u32,
    pub flags: u32,
    pub drop_count: u32,
    pub timestamp_us: i64,
    pub payload: Vec<u8>,
}

/// The mathematical model of a record: the same fields with the payload as a
/// byte sequence.
pub ghost struct SourceRecordModel {
    pub original_length: u32,
    pub included_length: u32,
    pub flags: u32,
    pub drop_count: u32,
    pub timestamp_us: i64,
    pub payload: Seq<u8>,
}

impl View for SourceRecord {
    type V = SourceRecordModel;

    open spec fn view(&self) -> SourceRecordModel {
        SourceRecordModel {
            original_length: self.original_length,
            included_length: self.included_length,
            flags: self.flags,
            drop_count: self.drop_count,
            timestamp_us: self.timestamp_us,
            payload: self.payload@,
        }
    }
}

impl SourceRecord {
    /// The payload holds exactly the number of bytes the header declared.
    pub open spec fn wf(&self) -> bool {
        self.payload@.len() == self.included_length
    }
}

/// True when the first 16 bytes carry the expected magic tag and version.
pub open spec fn header_matches(s: Seq<u8>) -> bool
    recommends
        s.len() >= 16,
{
    s.subrange(0, 8) == magic_tag() && be32(s.subrange(8, 12)) == supported_version()
}

/// The header fields read from the first 16 bytes.
pub open spec fn header_model(s: Seq<u8>) -> SourceHeader
    recommends
        s.len() >= 16,
{
    SourceHeader { version: be32(s.subrange(8, 12)) as u32, datalink: be32(s.subrange(12, 16)) as u32 }
}

/// The payload length a record header at the start of `s` declares.
pub open spec fn record_incl(s: Seq<u8>) -> nat
    recommends
        s.len() >= 24,
{
    be32(s.subrange(4, 8))
}

/// The number of stream bytes the record at the start of `s` occupies.
pub open spec fn record_size(s: Seq<u8>) -> nat
    recommends
        s.len() >= 24,
{
    24 + record_incl(s)
}

/// The record read from the start of `s`.
pub open spec fn record_model(s: Seq<u8>) -> SourceRecordModel
    recommends
        s.len() >= record_size(s),
{
    SourceRecordModel {
        original_length: be32(s.subrange(0, 4)) as u32,
        included_length: be32(s.subrange(4, 8)) as u32,
        flags: be32(s.subrange(8, 12)) as u32,
        drop_count: be32(s.subrange(12, 16)) as u32,
        timestamp_us: be64_signed(s.subrange(16, 24)) as i64,
        payload: s.subrange(24, record_size(s) as int),
    }
}

/// The records encoded in `s`, or `None` when `s` ends inside a record
/// header or a declared payload. An empty `s` holds zero records: the stream
/// ends cleanly only at a record boundary.
pub open spec fn records_of(s: Seq<u8>) -> Option<Seq<SourceRecordModel>>
    decreases s.len(),
{
    if s.len() == 0 {
        Some(Seq::empty())
    } else if s.len() < 24 || s.len() < record_size(s) {
        None
    } else {
        match records_of(s.skip(record_size(s) as int)) {
            Option::None => None,
            Option::Some(rest) => Some(seq![record_model(s)] + rest),
        }
    }
}

/// A complete well-formed log: valid header, then records ending exactly at
/// a record boundary.
pub open spec fn log_well_formed(s: Seq<u8>) -> bool {
    s.len() >= 16 && header_matches(s) && records_of(s.skip(16)).is_some()
}

/// The records of a well-formed log.
pub open spec fn log_records(s: Seq<u8>) -> Seq<SourceRecordModel>
    recommends
        log_well_formed(s),
{
    records_of(s.skip(16)).unwrap()
}

/// The header failed validation: wrong magic tag, or wrong version.
#[derive(Clone, Copy, Debug, PartialEq, Eq, Structural)]
pub enum FormatError {
    BadMagic,
    BadVersion,
}

/// A parse failure: a malformed header, or a stream that ended inside a
/// record (surfaced to the session as an I/O error, never as a clean end).
#[derive(Clone, Copy, Debug, PartialEq, Eq, Structural)]
pub enum SnoopError {
    Format(FormatError),
    UnexpectedEnd,
}

/// What one polling step of the stream parser produced.
#[derive(Debug)]
pub enum PollOutcome {
    NeedMoreData,
    ParsedHeader(SourceHeader),
    ParsedRecord(SourceRecord),
}

/// The model of the parser: whether the header has been validated, and the
/// bytes fed but not yet consumed.
pub ghost struct ParserModel {
    pub header: Option<SourceHeader>,
    pub buf: Seq<u8>,
}

/// Decodes the log from an incrementally-available byte stream: bytes go in
/// through [`SnoopStreamParser::feed`], the validated header and the decoded
/// records come out of [`SnoopStreamParser::poll`].
pub struct SnoopStreamParser {
    header: Option<SourceHeader>,
    buf: Vec<u8>,
}

impl View for SnoopStreamParser {
    type V = ParserModel;

    closed spec fn view(&self) -> ParserModel {
        ParserModel { header: self.header, buf: self.buf@ }
    }
}

/// True when the first 8 of at least 8 bytes equal the magic tag.
fn magic_prefix_matches(b: &[u8]) -> (r: bool)
    requires
        b@.len() >= 8,
    ensures
        r == (b@.subrange(0, 8) == magic_tag()),
{
    let r = b[0] == 0x62 && b[1] == 0x74 && b[2] == 0x73 && b[3] == 0x6e && b[4] == 0x6f && b[5]
        == 0x6f && b[6] == 0x70 && b[7] == 0x00;
    proof {
        let s = b@.subrange(0, 8);
        if r {
            assert(s =~= magic_tag());
        } else {
            if s == magic_tag() {
                assert(b@[0] == s[0] && b@[1] == s[1] && b@[2] == s[2] && b@[3] == s[3]);
                assert(b@[4] == s[4] && b@[5] == s[5] && b@[6] == s[6] && b@[7] == s[7]);
                assert(false);
            }
        }
    }
    r
}

impl SnoopStreamParser {
    /// A fresh parser: no header seen, nothing buffered.
    pub fn new() -> (r: SnoopStreamParser)
        ensures
            r@.header is None,
            r@.buf.len() == 0,
    {
        SnoopStreamParser { header: None, buf: Vec::new() }
    }

    /// Appends newly arrived stream bytes to the unconsumed buffer.
    pub fn feed(&mut self, chunk: &[u8])
        ensures
            final(self)@.header == old(self)@.header,
            final(self)@.buf == old(self)@.buf + chunk@,
    {
        let mut rest = vstd::slice::slice_to_vec(chunk);
        self.buf.append(&mut rest);
    }

    /// True once the file header has been validated and consumed.
    pub fn header_parsed(&self) -> (r: bool)
        ensures
            r == (self@.header is Some),
    {
        self.header.is_some()
    }

    /// True when the stream so far ends exactly at a record boundary, the
    /// only position where an end of stream is a clean end.
    pub fn at_record_boundary(&self) -> (r: bool)
        ensures
            r == (self@.header is Some && self@.buf.len() == 0),
    {
        self.header.is_some() && self.buf.len() == 0
    }

    /// One decoding step. Before the header is validated it consumes
    /// nothing until 16 bytes are buffered, then validates them: a magic or
    /// version mismatch is a deterministic error that consumes no bytes.
    /// Afterwards it consumes one record whenever its declared payload is
    /// fully buffered.
    pub fn poll(&mut self) -> (r: Result<PollOutcome, FormatError>)
        ensures
            match old(self)@.header {
                Option::None => {
                    if old(self)@.buf.len() < 16 {
                        &&& r matches Ok(PollOutcome::NeedMoreData)
                        &&& final(self)@ == old(self)@
                    } else if header_matches(old(self)@.buf) {
                        &&& r matches Ok(PollOutcome::ParsedHeader(h)) && h == header_model(
                            old(self)@.buf,
                        )
                        &&& final(self)@.header == Some(header_model(old(self)@.buf))
                        &&& final(self)@.buf == old(self)@.buf.skip(16)
                    } else {
                        &&& r matches Err(e) && e == (if old(self)@.buf.subrange(0, 8)
                            != magic_tag() {
                            FormatError::BadMagic
                        } else {
                            FormatError::BadVersion
                        })
                        &&& final(self)@ == old(self)@
                    }
                },
                Option::Some(h0) => {
                    if old(self)@.buf.len() < 24 || old(self)@.buf.len() < record_size(
                        old(self)@.buf,
                    ) {
                        &&& r matches Ok(PollOutcome::NeedMoreData)
                        &&& final(self)@ == old(self)@
                    } else {
                        &&& r matches Ok(PollOutcome::ParsedRecord(rec)) && rec@ == record_model(
                            old(self)@.buf,
                        ) && rec.wf()
                        &&& final(self)@.header == Some(h0)
                        &&& final(self)@.buf == old(self)@.buf.skip(
                            record_size(old(self)@.buf) as int,
                        )
                    }
                },
            },
    {
        match self.header {
            Option::None => {
                if self.buf.len() < 16 {
                    return Ok(PollOutcome::NeedMoreData);
                }
                if !magic_prefix_matches(self.buf.as_slice()) {
                    return Err(FormatError::BadMagic);
                }
                let version = read_be32(self.buf.as_slice(), 8);
                if version != 1 {
                    return Err(FormatError::BadVersion);
                }
                let datalink = read_be32(self.buf.as_slice(), 12);
                let h = SourceHeader { version, datalink };
                let rest = vstd::slice::slice_to_vec(
                    vstd::slice::slice_subrange(self.buf.as_slice(), 16, self.buf.len()),
                );
                self.buf = rest;
                self.header = Some(h);
                Ok(PollOutcome::ParsedHeader(h))
            },
            Option::Some(_) => {
                if self.buf.len() < 24 {
                    return Ok(PollOutcome::NeedMoreData);
                }
                let incl = read_be32(self.buf.as_slice(), 4);
                if self.buf.len() - 24 < incl as usize {
                    return Ok(PollOutcome::NeedMoreData);
                }
                let size = 24 + incl as usize;
                let rec = SourceRecord {
                    original_length: read_be32(self.buf.as_slice(), 0),
                    included_length: incl,
                    flags: read_be32(self.buf.as_slice(), 8),
                    drop_count: read_be32(self.buf.as_slice(), 12),
                    timestamp_us: read_be64_signed(self.buf.as_slice(), 16),
                    payload: vstd::slice::slice_to_vec(
                        vstd::slice::slice_subrange(self.buf.as_slice(), 24, size),
                    ),
                };
                let rest = vstd::slice::slice_to_vec(
                    vstd::slice::slice_subrange(self.buf.as_slice(), size, self.buf.len()),
                );
                self.buf = rest;
                Ok(PollOutcome::ParsedRecord(rec))
            },
        }
    }
}


/// The models of a vector of decoded records.
pub open spec fn models_of(rs: Seq<SourceRecord>) -> Seq<SourceRecordModel> {
    rs.map_values(|r: SourceRecord| r@)
}

/// Parses a complete log held in memory: the validated header and every
/// record, or the exact reason the log is malformed. Succeeds if and only
/// if the log is well-formed; a log that ends inside a record header or a
/// declared payload is `UnexpectedEnd`, never a clean end.
pub fn parse_log(log: &[u8]) -> (r: Result<(SourceHeader, Vec<SourceRecord>), SnoopError>)
    ensures
        r is Ok <==> log_well_formed(log@),
        log@.len() >= 16 && !header_matches(log@) ==> r matches Err(SnoopError::Format(_)),
        match r {
            Ok((h, recs)) => {
                &&& h == header_model(log@)
                &&& models_of(recs@) == log_records(log@)
                &&& forall|i: int| 0 <= i < recs@.len() ==> (#[trigger] recs@[i]).wf()
            },
            Err(SnoopError::Format(e)) => {
                &&& log@.len() >= 16
                &&& !header_matches(log@)
                &&& (e == FormatError::BadMagic <==> log@.subrange(0, 8) != magic_tag())
            },
            Err(SnoopError::UnexpectedEnd) => log@.len() < 16 || (header_matches(log@)
                && records_of(log@.skip(16)) is None),
        },
{
    let mut p = SnoopStreamParser::new();
    p.feed(log);
    proof {
        assert(p@.buf =~= log@);
    }
    let h = match p.poll() {
        Ok(PollOutcome::ParsedHeader(h)) => h,
        Ok(PollOutcome::NeedMoreData) => {
            return Err(SnoopError::UnexpectedEnd);
        },
        Ok(PollOutcome::ParsedRecord(_)) => {
            proof {
                assert(false);
            }
            return Err(SnoopError::UnexpectedEnd);
        },
        Err(e) => {
            return Err(SnoopError::Format(e));
        },
    };
    let mut recs: Vec<SourceRecord> = Vec::new();
    proof {
        assert(models_of(recs@) =~= Seq::<SourceRecordModel>::empty());
        if records_of(p@.buf) is Some {
            assert(models_of(recs@) + records_of(p@.buf).unwrap() =~= records_of(p@.buf).unwrap());
        }
    }
    loop
        invariant
            p@.header == Some(header_model(log@)),
            forall|i: int| 0 <= i < recs@.len() ==> (#[trigger] recs@[i]).wf(),
            match records_of(p@.buf) {
                Option::Some(rest) => records_of(log@.skip(16)) == Some(models_of(recs@) + rest),
                Option::None => records_of(log@.skip(16)) is None,
            },
        ensures
            p@.header == Some(header_model(log@)),
            forall|i: int| 0 <= i < recs@.len() ==> (#[trigger] recs@[i]).wf(),
            match records_of(p@.buf) {
                Option::Some(rest) => records_of(log@.skip(16)) == Some(models_of(recs@) + rest),
                Option::None => records_of(log@.skip(16)) is None,
            },
            p@.buf.len() < 24 || p@.buf.len() < record_size(p@.buf),
        decreases p@.buf.len(),
    {
        let ghost buf0 = p@.buf;
        let ghost recs0 = recs@;
        match p.poll() {
            Ok(PollOutcome::ParsedRecord(rec)) => {
                proof {
                    assert(records_of(buf0) == match records_of(p@.buf) {
                        Option::None => Option::<Seq<SourceRecordModel>>::None,
                        Option::Some(rest) => Some(seq![record_model(buf0)] + rest),
                    });
                }
                let ghost m = rec@;
                recs.push(rec);
                proof {
                    assert(models_of(recs@) =~= models_of(recs0) + seq![m]);
                    if records_of(p@.buf) is Some {
                        let rest = records_of(p@.buf).unwrap();
                        assert((models_of(recs0) + seq![m]) + rest =~= models_of(recs0) + (
                        seq![m] + rest));
                    }
                }
            },
            Ok(PollOutcome::NeedMoreData) => {
                break;
            },
            Ok(PollOutcome::ParsedHeader(_)) => {
                proof {
                    assert(false);
                }
            },
            Err(_) => {
                proof {
                    assert(false);
                }
            },
        }
    }
    if p.at_record_boundary() {
        proof {
            assert(records_of(p@.buf) == Some(Seq::<SourceRecordModel>::empty()));
            assert(models_of(recs@) + Seq::<SourceRecordModel>::empty() =~= models_of(recs@));
        }
        Ok((h, recs))
    } else {
        Err(SnoopError::UnexpectedEnd)
    }
}

} // verus!

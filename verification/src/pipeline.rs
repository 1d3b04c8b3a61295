//! The parse, classify, translate, serialize pipeline over a complete log,
//! honouring the startup suppression window: records arriving within the
//! window are parsed (the cursor advances) but not emitted.

use vstd::prelude::*;

use crate::capture::{capture_record_bytes, record_bytes, translate_record, translated, CaptureError};
use crate::snoop::{log_records, log_well_formed, header_matches, magic_tag, parse_log, records_of, FormatError, SnoopError, SourceRecord, SourceRecordModel};

verus! {

/// Why the pipeline stopped: the stream was malformed, or an emitted
/// record cannot be represented in the output container.
#[derive(Clone, Copy, Debug, PartialEq, Eq, Structural)]
pub enum PipelineError {
    Snoop(SnoopError),
    Capture(CaptureError),
}

/// Whether record `i` is emitted: it is suppressed only when its recorded
/// arrival time lies within the startup window; a record with no recorded
/// arrival time counts as arriving after the window.
pub open spec fn emits(arrivals: Seq<u64>, delay: u64, i: int) -> bool {
    i >= arrivals.len() || arrivals[i] > delay
}

/// The records from index `i` on that the startup window lets through, in
/// original order.
pub open spec fn emitted_from(
    recs: Seq<SourceRecordModel>,
    arrivals: Seq<u64>,
    delay: u64,
    i: int,
) -> Seq<SourceRecordModel>
    decreases recs.len() - i,
{
    if i < 0 || i >= recs.len() {
        Seq::empty()
    } else if emits(arrivals, delay, i) {
        seq![recs[i]] + emitted_from(recs, arrivals, delay, i + 1)
    } else {
        emitted_from(recs, arrivals, delay, i + 1)
    }
}

/// All records the startup window lets through.
pub open spec fn emitted_models(
    recs: Seq<SourceRecordModel>,
    arrivals: Seq<u64>,
    delay: u64,
) -> Seq<SourceRecordModel> {
    emitted_from(recs, arrivals, delay, 0)
}

/// The first translation error among the given records, if any.
pub open spec fn first_translate_error(ms: Seq<SourceRecordModel>) -> Option<CaptureError>
    decreases ms.len(),
{
    if ms.len() == 0 {
        None
    } else {
        match translated(ms[0]) {
            Result::Err(e) => Some(e),
            Result::Ok(_) => first_translate_error(ms.skip(1)),
        }
    }
}

/// The serialized capture records the pipeline emits for a well-formed log
/// whose emitted records all translate.
pub open spec fn pipeline_output(log: Seq<u8>, arrivals: Seq<u64>, delay: u64) -> Seq<Seq<u8>>
    recommends
        log_well_formed(log),
{
    emitted_models(log_records(log), arrivals, delay).map_values(
        |m: SourceRecordModel| record_bytes(translated(m).unwrap()),
    )
}

proof fn lemma_first_translate_error_cons(m: SourceRecordModel, rest: Seq<SourceRecordModel>)
    ensures
        first_translate_error(seq![m] + rest) == (match translated(m) {
            Result::Err(e) => Some(e),
            Result::Ok(_) => first_translate_error(rest),
        }),
{
    assert((seq![m] + rest).len() == 1 + rest.len());
    assert((seq![m] + rest)[0] == m);
    assert((seq![m] + rest).skip(1) =~= rest);
}

/// Runs the whole pipeline over a complete log: parse, suppress the records
/// arriving within the startup window, classify and translate the rest, and
/// serialize each into its capture-container form, preserving order.
/// `arrivals_us[i]` is record `i`'s arrival time, in microseconds since
/// stream start; a record beyond the end of `arrivals_us` counts as arriving
/// after the window.
pub fn translate_log(log: &[u8], arrivals_us: &Vec<u64>, display_delay_us: u64) -> (r: Result<
    Vec<Vec<u8>>,
    PipelineError,
>)
    ensures
        r is Ok <==> (log_well_formed(log@) && first_translate_error(
            emitted_models(log_records(log@), arrivals_us@, display_delay_us),
        ) is None),
        match r {
            Ok(out) => out@.map_values(|v: Vec<u8>| v@) == pipeline_output(
                log@,
                arrivals_us@,
                display_delay_us,
            ),
            Err(PipelineError::Snoop(e)) => {
                &&& !log_well_formed(log@)
                &&& match e {
                    SnoopError::Format(fe) => {
                        &&& log@.len() >= 16
                        &&& !header_matches(log@)
                        &&& (fe == FormatError::BadMagic <==> log@.subrange(0, 8) != magic_tag())
                    },
                    SnoopError::UnexpectedEnd => log@.len() < 16 || (header_matches(log@)
                        && records_of(log@.skip(16)) is None),
                }
            },
            Err(PipelineError::Capture(e)) => {
                &&& log_well_formed(log@)
                &&& first_translate_error(
                    emitted_models(log_records(log@), arrivals_us@, display_delay_us),
                ) == Some(e)
            },
        },
{
    let recs = match parse_log(log) {
        Ok((_h, recs)) => recs,
        Err(e) => {
            return Err(PipelineError::Snoop(e));
        },
    };
    let ghost models = log_records(log@);
    let mut out: Vec<Vec<u8>> = Vec::new();
    let ghost emitted_so_far = Seq::<SourceRecordModel>::empty();
    let mut i: usize = 0;
    proof {
        assert(emitted_so_far + emitted_from(models, arrivals_us@, display_delay_us, 0)
            =~= emitted_from(models, arrivals_us@, display_delay_us, 0));
    }
    while i < recs.len()
        invariant
            log_well_formed(log@),
            models == log_records(log@),
            recs@.len() == models.len(),
            crate::snoop::models_of(recs@) == models,
            i <= recs@.len(),
            emitted_models(models, arrivals_us@, display_delay_us) == emitted_so_far
                + emitted_from(models, arrivals_us@, display_delay_us, i as int),
            forall|j: int| 0 <= j < emitted_so_far.len() ==> translated(
                #[trigger] emitted_so_far[j],
            ) is Ok,
            first_translate_error(emitted_models(models, arrivals_us@, display_delay_us))
                == first_translate_error(
                emitted_from(models, arrivals_us@, display_delay_us, i as int),
            ),
            out@.len() == emitted_so_far.len(),
            forall|j: int| 0 <= j < out@.len() ==> (#[trigger] out@[j])@ == record_bytes(
                translated(emitted_so_far[j]).unwrap(),
            ),
        decreases recs@.len() - i,
    {
        let ghost m = models[i as int];
        proof {
            assert(recs@[i as int]@ == m);
        }
        let emit = i >= arrivals_us.len() || arrivals_us[i] > display_delay_us;
        proof {
            assert(emit == emits(arrivals_us@, display_delay_us, i as int));
        }
        if emit {
            proof {
                lemma_first_translate_error_cons(
                    m,
                    emitted_from(models, arrivals_us@, display_delay_us, i + 1),
                );
            }
            proof {
                assert(emitted_from(models, arrivals_us@, display_delay_us, i as int) == seq![m]
                    + emitted_from(models, arrivals_us@, display_delay_us, i + 1));
            }
            match translate_record(&recs[i]) {
                Ok(c) => {
                    let bytes = capture_record_bytes(&c);
                    let ghost out0 = out@;
                    let ghost emitted0 = emitted_so_far;
                    proof {
                        assert(translated(m).unwrap() == c@);
                        assert(bytes@ == record_bytes(translated(m).unwrap()));
                    }
                    out.push(bytes);
                    proof {
                        emitted_so_far = emitted0.push(m);
                        assert(emitted0 + (seq![m] + emitted_from(
                            models,
                            arrivals_us@,
                            display_delay_us,
                            i + 1,
                        )) =~= emitted_so_far + emitted_from(
                            models,
                            arrivals_us@,
                            display_delay_us,
                            i + 1,
                        ));
                    }
                },
                Err(e) => {
                    proof {
                        assert(first_translate_error(
                            emitted_from(models, arrivals_us@, display_delay_us, i as int),
                        ) == Some(e));
                    }
                    return Err(PipelineError::Capture(e));
                },
            }
        }
        i = i + 1;
    }
    proof {
        assert(emitted_so_far + emitted_from(models, arrivals_us@, display_delay_us, i as int)
            =~= emitted_so_far);
        assert(out@.map_values(|v: Vec<u8>| v@) =~= pipeline_output(
            log@,
            arrivals_us@,
            display_delay_us,
        ));
    }
    Ok(out)
}


use crate::direction::{direction_of, pseudo_header_of};
use crate::snoop::record_size;

proof fn lemma_emitted_suffix_all(
    recs: Seq<SourceRecordModel>,
    arrivals: Seq<u64>,
    delay: u64,
    i: int,
)
    requires
        0 <= i <= recs.len(),
        forall|j: int| i <= j < recs.len() ==> #[trigger] emits(arrivals, delay, j),
    ensures
        emitted_from(recs, arrivals, delay, i) == recs.skip(i),
    decreases recs.len() - i,
{
    if i >= recs.len() {
        assert(recs.skip(i) =~= Seq::<SourceRecordModel>::empty());
    } else {
        lemma_emitted_suffix_all(recs, arrivals, delay, i + 1);
        assert(emits(arrivals, delay, i));
        assert(seq![recs[i]] + recs.skip(i + 1) =~= recs.skip(i));
    }
}

/// For a well-formed source log whose records all arrive after stream
/// start and can all be represented in the output container, the pipeline
/// with a zero startup delay emits exactly one capture record per source
/// record, in order, each carrying the pseudo-header of its classified
/// direction.
pub proof fn lemma_zero_delay_emits_all(log: Seq<u8>, arrivals: Seq<u64>)
    requires
        log_well_formed(log),
        forall|i: int| 0 <= i < arrivals.len() ==> #[trigger] arrivals[i] > 0,
        forall|i: int| 0 <= i < log_records(log).len() ==> translated(
            #[trigger] log_records(log)[i],
        ) is Ok,
    ensures
        emitted_models(log_records(log), arrivals, 0) == log_records(log),
        first_translate_error(emitted_models(log_records(log), arrivals, 0)) is None,
        pipeline_output(log, arrivals, 0).len() == log_records(log).len(),
        forall|i: int|
            0 <= i < log_records(log).len() ==> #[trigger] pipeline_output(
                log,
                arrivals,
                0,
            )[i].subrange(16, 20) == pseudo_header_of(direction_of(log_records(log)[i].payload)),
{
    let recs = log_records(log);
    assert forall|j: int| 0 <= j < recs.len() implies #[trigger] emits(arrivals, 0, j) by {
        if j < arrivals.len() {
            assert(arrivals[j] > 0);
        }
    }
    lemma_emitted_suffix_all(recs, arrivals, 0, 0);
    assert(recs.skip(0) =~= recs);
    lemma_no_translate_error(recs);
    assert forall|i: int| 0 <= i < recs.len() implies #[trigger] pipeline_output(
        log,
        arrivals,
        0,
    )[i].subrange(16, 20) == pseudo_header_of(direction_of(recs[i].payload)) by {
        let m = recs[i];
        let c = translated(m).unwrap();
        assert(pseudo_header_of(direction_of(m.payload)).len() == 4);
        assert(c.data == pseudo_header_of(direction_of(m.payload)) + m.payload);
        assert(record_bytes(c).subrange(16, 20) =~= pseudo_header_of(direction_of(m.payload)));
    }
}

proof fn lemma_no_translate_error(ms: Seq<SourceRecordModel>)
    requires
        forall|i: int| 0 <= i < ms.len() ==> translated(#[trigger] ms[i]) is Ok,
    ensures
        first_translate_error(ms) is None,
    decreases ms.len(),
{
    if ms.len() > 0 {
        assert(translated(ms[0]) is Ok);
        lemma_no_translate_error(ms.skip(1));
    }
}

/// The index of the first record, among the first `n`, that arrives after
/// the startup window; `n` when every one arrives within it.
pub open spec fn window_prefix_len(arrivals: Seq<u64>, delay: u64, i: int, n: int) -> int
    decreases n - i,
{
    if i >= n {
        n
    } else if emits(arrivals, delay, i) {
        i
    } else {
        window_prefix_len(arrivals, delay, i + 1, n)
    }
}

proof fn lemma_window_prefix_bounds(arrivals: Seq<u64>, delay: u64, i: int, n: int)
    requires
        0 <= i <= n,
    ensures
        i <= window_prefix_len(arrivals, delay, i, n) <= n,
        forall|j: int|
            i <= j < window_prefix_len(arrivals, delay, i, n) ==> !#[trigger] emits(
                arrivals,
                delay,
                j,
            ),
        window_prefix_len(arrivals, delay, i, n) < n ==> emits(
            arrivals,
            delay,
            window_prefix_len(arrivals, delay, i, n),
        ),
    decreases n - i,
{
    if i < n && !emits(arrivals, delay, i) {
        lemma_window_prefix_bounds(arrivals, delay, i + 1, n);
    }
}

proof fn lemma_emitted_drop_prefix(
    recs: Seq<SourceRecordModel>,
    arrivals: Seq<u64>,
    delay: u64,
    i: int,
    k: int,
)
    requires
        0 <= i <= k <= recs.len(),
        forall|j: int| i <= j < k ==> !#[trigger] emits(arrivals, delay, j),
        forall|j: int| k <= j < recs.len() ==> #[trigger] emits(arrivals, delay, j),
    ensures
        emitted_from(recs, arrivals, delay, i) == recs.skip(k),
    decreases k - i,
{
    if i == k {
        lemma_emitted_suffix_all(recs, arrivals, delay, k);
    } else {
        assert(!emits(arrivals, delay, i));
        lemma_emitted_drop_prefix(recs, arrivals, delay, i + 1, k);
    }
}

/// With startup delay `delay` and nondecreasing arrival times (as a live
/// stream delivers them), the records arriving within the window form a
/// prefix: they are parsed but not emitted, and the output is exactly the
/// zero-delay output with that prefix dropped, so every record after the
/// window is emitted, in original order, with nothing lost or misaligned.
pub proof fn lemma_delay_suppresses_prefix(log: Seq<u8>, arrivals: Seq<u64>, delay: u64)
    requires
        log_well_formed(log),
        forall|i: int, j: int|
            0 <= i <= j < arrivals.len() ==> #[trigger] arrivals[i] <= #[trigger] arrivals[j],
        forall|i: int| 0 <= i < arrivals.len() ==> #[trigger] arrivals[i] > 0,
    ensures
        ({
            let recs = log_records(log);
            let k = window_prefix_len(arrivals, delay, 0, recs.len() as int);
            &&& 0 <= k <= recs.len()
            &&& forall|i: int| 0 <= i < k ==> !#[trigger] emits(arrivals, delay, i)
            &&& forall|i: int| k <= i < recs.len() ==> #[trigger] emits(arrivals, delay, i)
            &&& emitted_models(recs, arrivals, delay) == recs.skip(k)
            &&& pipeline_output(log, arrivals, delay) == pipeline_output(log, arrivals, 0).skip(k)
        }),
{
    let recs = log_records(log);
    let n = recs.len() as int;
    let k = window_prefix_len(arrivals, delay, 0, n);
    lemma_window_prefix_bounds(arrivals, delay, 0, n);
    assert forall|i: int| k <= i < n implies #[trigger] emits(arrivals, delay, i) by {
        if k < n && i > k {
            assert(emits(arrivals, delay, k));
            if i >= arrivals.len() {
            } else {
                assert(k < arrivals.len());
                assert(arrivals[k] <= arrivals[i]);
                assert(arrivals[k] > delay);
            }
        }
    }
    lemma_emitted_drop_prefix(recs, arrivals, delay, 0, k);
    assert forall|j: int| 0 <= j < recs.len() implies #[trigger] emits(arrivals, 0, j) by {
        if j < arrivals.len() {
            assert(arrivals[j] > 0);
        }
    }
    lemma_emitted_suffix_all(recs, arrivals, 0, 0);
    assert(recs.skip(0) =~= recs);
    assert(pipeline_output(log, arrivals, delay) =~= pipeline_output(log, arrivals, 0).skip(k));
}

/// A log whose first 8 bytes differ from the expected magic tag is never
/// well-formed, whatever bytes follow: the pipeline rejects it
/// deterministically with the magic-tag format error.
pub proof fn lemma_bad_magic_rejected(log: Seq<u8>)
    requires
        log.len() >= 16,
        log.subrange(0, 8) != magic_tag(),
    ensures
        !header_matches(log),
        !log_well_formed(log),
{
}

/// A stream that ends inside a record header, or inside a payload whose
/// declared length exceeds the bytes remaining, holds no record sequence:
/// parsing it fails as an unexpected end of stream, never as a clean end.
pub proof fn lemma_truncated_record_rejected(stream: Seq<u8>)
    requires
        0 < stream.len(),
        stream.len() < 24 || stream.len() < record_size(stream),
    ensures
        records_of(stream) is None,
{
}

/// A log whose record region ends inside a record is not well-formed even
/// when its header validates.
pub proof fn lemma_log_with_truncated_record_rejected(log: Seq<u8>)
    requires
        log.len() > 16,
        log.skip(16).len() < 24 || log.skip(16).len() < record_size(log.skip(16)),
    ensures
        !log_well_formed(log),
{
    lemma_truncated_record_rejected(log.skip(16));
}

} // verus!

//! The cancellable streaming-fetch pipeline: content-type check, chunk
//! accumulation with progress reporting and cooperative cancellation,
//! UTF-8 decoding, and the bounded CSV preview (header plus at most ten
//! data rows).

use vstd::prelude::*;
use vstd::string::StringExecFns;
use vstd::utf8::{valid_utf8, decode_utf8};
use crate::strutil::{contains_seq, contains_str, matches_at};

verus! {

/// The message reported when an attempt is cancelled.
pub open spec fn cancel_message() -> Seq<char> {
    "Fetching canceled."@
}

/// The message reported when the body is not valid UTF-8.
pub open spec fn invalid_utf8_message() -> Seq<char> {
    "Invalid UTF-8 sequence in response body."@
}

/// The message reported when a CSV record within the preview is malformed.
pub open spec fn bad_record_message() -> Seq<char> {
    "Malformed CSV record in preview."@
}

/// Whether a declared content type indicates CSV text.
pub fn content_type_is_csv(content_type: &str) -> (b: bool)
    ensures
        b == contains_seq(content_type@, "text/csv"@),
{
    contains_str(content_type, "text/csv")
}

/// The error message for a response whose content type is not CSV.
pub open spec fn spec_mismatch_message(content_type: Seq<char>, body: Seq<char>) -> Seq<char> {
    "Expected CSV; found "@ + content_type + ": "@ + body
}

/// Builds the error message for a non-CSV response: the declared content
/// type followed by the body text read best-effort.
pub fn content_mismatch_message(content_type: &str, body: &str) -> (m: String)
    ensures
        m@ == spec_mismatch_message(content_type@, body@),
{
    let mut m = String::from_str("Expected CSV; found ");
    m.append(content_type);
    m.append(": ");
    m.append(body);
    m
}

/// The mismatch message always carries the literal declared content type.
pub proof fn lemma_mismatch_message_contains_content_type(
    content_type: Seq<char>,
    body: Seq<char>,
)
    ensures
        contains_seq(spec_mismatch_message(content_type, body), content_type),
{
    reveal_strlit("Expected CSV; found ");
    let msg = spec_mismatch_message(content_type, body);
    assert(msg.subrange(20, 20 + content_type.len() as int) =~= content_type);
    assert(matches_at(msg, content_type, 20));
}

/// What the `csv` crate yields as the header record of a body, or `None`
/// where reading the header fails.
pub uninterp spec fn csv_header_of(body: Seq<char>) -> Option<Seq<Seq<char>>>;

/// The data records the `csv` crate yields for a body, in document order;
/// a record that fails to parse is `None`.
pub uninterp spec fn csv_records_of(body: Seq<char>) -> Seq<Option<Seq<Seq<char>>>>;

#[verifier::external_type_specification]
#[verifier::external_body]
#[verifier::reject_recursive_types(R)]
pub struct ExCsvReader<R>(csv::Reader<R>);

/// The body a CSV scan was built over.
pub uninterp spec fn scan_body(rdr: csv::Reader<&[u8]>) -> Seq<char>;

/// How many data records a CSV scan has read so far.
pub uninterp spec fn scan_read(rdr: csv::Reader<&[u8]>) -> int;

/// Relies on `csv::Reader::from_reader`: a CSV parser over the bytes of
/// `text`, with the first record treated as the header.
#[verifier::external_body]
fn csv_scan_new(text: &str) -> (rdr: csv::Reader<&[u8]>)
    ensures
        scan_body(rdr) == text@,
        scan_read(rdr) == 0,
{
    csv::Reader::from_reader(text.as_bytes())
}

/// Relies on `csv::Reader::headers`: returns the header record, or an
/// error where the header line cannot be read; it does not consume data
/// records.
#[verifier::external_body]
fn csv_scan_headers(rdr: &mut csv::Reader<&[u8]>) -> (h: Option<Vec<String>>)
    ensures
        scan_body(*final(rdr)) == scan_body(*old(rdr)),
        scan_read(*final(rdr)) == scan_read(*old(rdr)),
        match h {
            Some(v) => csv_header_of(scan_body(*old(rdr))) == Some(v.deep_view()),
            None => csv_header_of(scan_body(*old(rdr))) is None,
        },
{
    match rdr.headers() {
        Ok(rec) => Some(rec.iter().map(|f| f.to_string()).collect()),
        Err(_) => None,
    }
}

/// Relies on `csv::Reader::read_record`: reads the next data record in
/// document order; `None` once the body is exhausted, `Some(None)` for a
/// record that fails to parse.
#[verifier::external_body]
fn csv_scan_next(rdr: &mut csv::Reader<&[u8]>) -> (row: Option<Option<Vec<String>>>)
    ensures
        scan_body(*final(rdr)) == scan_body(*old(rdr)),
        ({
            let recs = csv_records_of(scan_body(*old(rdr)));
            if scan_read(*old(rdr)) < recs.len() {
                &&& scan_read(*final(rdr)) == scan_read(*old(rdr)) + 1
                &&& row matches Some(r) && r.deep_view() == recs[scan_read(*old(rdr))]
            } else {
                &&& scan_read(*final(rdr)) == scan_read(*old(rdr))
                &&& row is None
            }
        }),
{
    let mut rec = csv::StringRecord::new();
    match rdr.read_record(&mut rec) {
        Ok(true) => Some(Some(rec.iter().map(|f| f.to_string()).collect())),
        Ok(false) => None,
        Err(_) => Some(None),
    }
}

/// The first output row of a preview: the header record, or a single
/// sentinel cell where the header line cannot be read.
pub open spec fn header_or_error(body: Seq<char>) -> Seq<Seq<char>> {
    match csv_header_of(body) {
        Some(h) => h,
        None => seq!["Error"@],
    }
}

/// How many data records the preview takes: at most the first ten.
pub open spec fn preview_count(body: Seq<char>) -> int {
    if csv_records_of(body).len() < 10 {
        csv_records_of(body).len() as int
    } else {
        10
    }
}

/// Every record the preview takes parses.
pub open spec fn preview_ok(body: Seq<char>) -> bool {
    forall|k: int| 0 <= k < preview_count(body) ==> csv_records_of(body)[k] is Some
}

/// The preview of a body: its header row followed by at most the first
/// ten data records.
pub open spec fn spec_preview(body: Seq<char>) -> Seq<Seq<Seq<char>>> {
    seq![header_or_error(body)] + Seq::new(
        preview_count(body) as nat,
        |k: int| csv_records_of(body)[k]->0,
    )
}

/// A preview of a body with more than ten data rows holds exactly eleven
/// rows: the header and the first ten records in document order, however
/// long the body is.
pub proof fn lemma_preview_bounded(body: Seq<char>)
    requires
        csv_records_of(body).len() > 10,
    ensures
        spec_preview(body).len() == 11,
        spec_preview(body)[0] == header_or_error(body),
        forall|k: int|
            1 <= k < 11 ==> #[trigger] spec_preview(body)[k] == csv_records_of(body)[k - 1]->0,
{
}

/// Where the header line cannot be read, the first preview row is exactly
/// one cell reading "Error".
pub proof fn lemma_preview_error_header(body: Seq<char>)
    requires
        csv_header_of(body) is None,
    ensures
        spec_preview(body).len() >= 1,
        spec_preview(body)[0].len() == 1,
        spec_preview(body)[0][0] == "Error"@,
{
}

/// Parses a decoded body as CSV and takes the bounded preview: the header
/// row (or the sentinel row where it cannot be read) followed by at most
/// the first ten data records; a malformed record within the preview is
/// reported as an error. Records past the tenth are not read at all.
#[verifier::loop_isolation(false)]
pub fn parse_csv_preview(text: &str) -> (r: Result<Vec<Vec<String>>, String>)
    ensures
        match r {
            Ok(rows) => preview_ok(text@) && rows.deep_view() == spec_preview(text@),
            Err(m) => !preview_ok(text@) && m@ == bad_record_message(),
        },
{
    let mut rdr = csv_scan_new(text);
    let mut rows: Vec<Vec<String>> = Vec::new();
    match csv_scan_headers(&mut rdr) {
        Some(h) => rows.push(h),
        None => {
            let mut e: Vec<String> = Vec::new();
            e.push(String::from_str("Error"));
            rows.push(e);
        },
    }
    assert(rows.deep_view() =~~= seq![header_or_error(text@)]);
    let ghost recs = csv_records_of(text@);
    let mut i: usize = 0;
    let mut done = false;
    while !done && i < 10
        invariant
            scan_body(rdr) == text@,
            scan_read(rdr) == i,
            i <= 10,
            i <= recs.len(),
            done ==> i == recs.len(),
            forall|k: int| 0 <= k < i ==> recs[k] is Some,
            rows.deep_view() =~= seq![header_or_error(text@)] + Seq::new(
                i as nat,
                |k: int| recs[k]->0,
            ),
        decreases (if done {
            0int
        } else {
            1int
        }), 10 - i,
    {
        match csv_scan_next(&mut rdr) {
            None => {
                done = true;
            },
            Some(None) => {
                assert(recs[i as int] is None);
                assert(!preview_ok(text@));
                return Err(String::from_str("Malformed CSV record in preview."));
            },
            Some(Some(row)) => {
                let ghost old_rows = rows.deep_view();
                rows.push(row);
                proof {
                    assert(rows.deep_view() =~= old_rows.push(row.deep_view()));
                    assert(rows.deep_view() =~= seq![header_or_error(text@)] + Seq::new(
                        (i + 1) as nat,
                        |k: int| recs[k]->0,
                    ));
                }
                i = i + 1;
            },
        }
    }
    proof {
        assert(i as int == preview_count(text@));
        assert(rows.deep_view() =~= spec_preview(text@));
    }
    Ok(rows)
}

/// Relies on `String::from_utf8`: succeeds exactly on valid UTF-8 and
/// decodes the bytes.
#[verifier::external_body]
fn decode_body(bytes: Vec<u8>) -> (r: Option<String>)
    ensures
        match r {
            Some(s) => valid_utf8(bytes@) && s@ == decode_utf8(bytes@),
            None => !valid_utf8(bytes@),
        },
{
    String::from_utf8(bytes).ok()
}

/// One step of the stream loop: what the task does after a chunk arrives.
pub enum ChunkStep {
    /// Keep streaming and report this many bytes of progress.
    Progress(usize),
    /// The attempt was cancelled: stop with this error message.
    Canceled(String),
}

/// The byte accumulator of one streaming fetch attempt.
pub struct FetchStream {
    pub bytes: Vec<u8>,
}

/// A fully streamed body, past its final cancellation check.
pub struct BodyReady {
    pub bytes: Vec<u8>,
}

impl FetchStream {
    /// An attempt that has received nothing yet.
    pub fn new() -> (s: Self)
        ensures
            s.bytes@ == Seq::<u8>::empty(),
    {
        FetchStream { bytes: Vec::new() }
    }

    /// Handles one received chunk. If the cancellation flag is set, the
    /// attempt stops with the fixed cancellation message and the buffered
    /// bytes are discarded; otherwise the chunk is appended and its length
    /// reported as progress.
    #[verifier::loop_isolation(false)]
    pub fn on_chunk(&mut self, chunk: &[u8], cancel: bool) -> (r: ChunkStep)
        ensures
            cancel ==> (r matches ChunkStep::Canceled(m) && m@ == cancel_message() && *final(self)
                == *old(self)),
            !cancel ==> (r matches ChunkStep::Progress(n) && n == chunk@.len() && final(self).bytes@
                == old(self).bytes@ + chunk@),
    {
        if cancel {
            return ChunkStep::Canceled(String::from_str("Fetching canceled."));
        }
        let n = chunk.len();
        let mut k: usize = 0;
        while k < n
            invariant
                k <= n,
                self.bytes@ == old(self).bytes@ + chunk@.take(k as int),
            decreases n - k,
        {
            self.bytes.push(chunk[k]);
            proof {
                assert(old(self).bytes@ + chunk@.take(k as int + 1) =~= (old(self).bytes@
                    + chunk@.take(k as int)).push(chunk@[k as int]));
            }
            k = k + 1;
        }
        proof {
            assert(chunk@.take(n as int) =~= chunk@);
        }
        ChunkStep::Progress(n)
    }

    /// The cancellation check once the stream has ended: a cancelled
    /// attempt stops with the fixed message and never yields a body, so
    /// no successful result can be produced for it.
    pub fn finish(self, cancel: bool) -> (r: Result<BodyReady, String>)
        ensures
            cancel ==> (r matches Err(m) && m@ == cancel_message()),
            !cancel ==> (r matches Ok(b) && b.bytes@ == self.bytes@),
    {
        if cancel {
            Err(String::from_str("Fetching canceled."))
        } else {
            Ok(BodyReady { bytes: self.bytes })
        }
    }
}

impl BodyReady {
    /// Decodes the accumulated bytes and takes the CSV preview. Succeeds
    /// exactly where the body is valid UTF-8 and every record of the
    /// preview parses.
    pub fn into_preview(self) -> (r: Result<Vec<Vec<String>>, String>)
        ensures
            match r {
                Ok(rows) => valid_utf8(self.bytes@) && preview_ok(decode_utf8(self.bytes@))
                    && rows.deep_view() == spec_preview(decode_utf8(self.bytes@)),
                Err(m) => (!valid_utf8(self.bytes@) && m@ == invalid_utf8_message()) || (valid_utf8(
                    self.bytes@,
                ) && !preview_ok(decode_utf8(self.bytes@)) && m@ == bad_record_message()),
            },
    {
        match decode_body(self.bytes) {
            None => Err(String::from_str("Invalid UTF-8 sequence in response body.")),
            Some(text) => parse_csv_preview(text.as_str()),
        }
    }
}

/// Whether the UI may start a fetch on a slot: only while none is active
/// there.
pub open spec fn start_allowed(slot_active: bool) -> bool {
    !slot_active
}

/// What starting a fetch on a slot did.
pub enum StartOutcome {
    Started,
    Rejected,
}

/// The UI's two independent fetch slots: the data query and the query
/// analysis. At most one attempt is active per slot; starting on a busy
/// slot is rejected and never disturbs the attempt already running, and
/// the two slots never affect each other.
pub struct FetchSlots {
    pub data_active: bool,
    pub analysis_active: bool,
}

impl FetchSlots {
    /// Both slots idle.
    pub fn new() -> (s: Self)
        ensures
            !s.data_active,
            !s.analysis_active,
    {
        FetchSlots { data_active: false, analysis_active: false }
    }

    /// Tries to start a data fetch: rejected while one is active, and the
    /// analysis slot is never touched.
    pub fn try_start_data(&mut self) -> (r: StartOutcome)
        ensures
            final(self).analysis_active == old(self).analysis_active,
            !start_allowed(old(self).data_active) ==> r is Rejected && *final(self) == *old(self),
            start_allowed(old(self).data_active) ==> r is Started && final(self).data_active,
    {
        if self.data_active {
            StartOutcome::Rejected
        } else {
            self.data_active = true;
            StartOutcome::Started
        }
    }

    /// Tries to start an analysis: rejected while one is active, and the
    /// data slot is never touched.
    pub fn try_start_analysis(&mut self) -> (r: StartOutcome)
        ensures
            final(self).data_active == old(self).data_active,
            !start_allowed(old(self).analysis_active) ==> r is Rejected && *final(self) == *old(self),
            start_allowed(old(self).analysis_active) ==> r is Started && final(self).analysis_active,
    {
        if self.analysis_active {
            StartOutcome::Rejected
        } else {
            self.analysis_active = true;
            StartOutcome::Started
        }
    }

    /// Marks the data slot idle once its attempt reached a terminal state.
    pub fn finish_data(&mut self)
        ensures
            !final(self).data_active,
            final(self).analysis_active == old(self).analysis_active,
    {
        self.data_active = false;
    }

    /// Marks the analysis slot idle once its attempt reached a terminal
    /// state.
    pub fn finish_analysis(&mut self)
        ensures
            !final(self).analysis_active,
            final(self).data_active == old(self).data_active,
    {
        self.analysis_active = false;
    }
}

} // verus!

//! The extraction sandbox's decisions. The extraction routine itself is
//! untrusted: it may hang, crash, fail, or return nothing. The isolated
//! execution context (a separate thread with its diagnostic streams
//! silenced) reports what happened as a [`RawExtraction`]; classifying
//! that report, and the size gate in front of extraction, are decided
//! here.

use vstd::prelude::*;
use vstd::string::*;
use crate::text::{chars_of, trim_chars, trim_spec};

verus! {

/// The hard wall-clock deadline on one extraction call, in seconds.
pub const EXTRACTION_DEADLINE_SECS: u64 = 120;

/// A downloaded file below this many bytes is a corrupt download: it is
/// deleted and never reaches extraction.
pub const MIN_DOWNLOAD_BYTES: u64 = 1000;

/// What the isolated execution context reported about one extraction call.
pub enum RawExtraction {
    /// The call returned this text in time.
    Returned(String),
    /// The call returned an error in time; its message.
    Failed(String),
    /// The call panicked inside the isolated context.
    Panicked,
    /// The deadline elapsed before any report arrived.
    TimedOut,
}

/// The sandbox's verdict on one extraction call. Never retried within a run.
pub enum ExtractionOutcome {
    /// Extraction produced this text, nonempty after trimming.
    Text(String),
    /// The deadline elapsed first.
    Timeout,
    /// The call aborted abnormally.
    Crashed,
    /// The call itself reported an error.
    ExtractionError(String),
    /// The call returned text that is empty after trimming. Terminal.
    EmptyText,
}

/// The verdict that a report resolves to: returned text that trims to
/// nothing is `EmptyText`, any other returned text is kept verbatim, and
/// an error, panic or elapsed deadline is terminal in its own way.
pub open spec fn extraction_outcome_spec(raw: RawExtraction) -> ExtractionOutcome {
    match raw {
        RawExtraction::Returned(t) => if trim_spec(t@).len() == 0 {
            ExtractionOutcome::EmptyText
        } else {
            ExtractionOutcome::Text(t)
        },
        RawExtraction::Failed(e) => ExtractionOutcome::ExtractionError(e),
        RawExtraction::Panicked => ExtractionOutcome::Crashed,
        RawExtraction::TimedOut => ExtractionOutcome::Timeout,
    }
}

/// Resolve the isolated context's report into exactly one outcome.
pub fn classify_extraction(raw: &RawExtraction) -> (r: ExtractionOutcome)
    ensures
        r == extraction_outcome_spec(*raw),
{
    match raw {
        RawExtraction::Returned(t) => {
            let cs = chars_of(t.as_str());
            let trimmed = trim_chars(&cs);
            if trimmed.len() == 0 {
                ExtractionOutcome::EmptyText
            } else {
                ExtractionOutcome::Text(t.clone())
            }
        },
        RawExtraction::Failed(e) => ExtractionOutcome::ExtractionError(e.clone()),
        RawExtraction::Panicked => ExtractionOutcome::Crashed,
        RawExtraction::TimedOut => ExtractionOutcome::Timeout,
    }
}

/// The reason recorded for a failed extraction, `None` on success.
pub open spec fn failure_reason_spec(o: ExtractionOutcome) -> Option<Seq<char>> {
    match o {
        ExtractionOutcome::Text(_) => None,
        ExtractionOutcome::Timeout => Some("PDF extraction timed out"@),
        ExtractionOutcome::Crashed => Some("PDF extraction panicked"@),
        ExtractionOutcome::ExtractionError(m) => Some(m@),
        ExtractionOutcome::EmptyText => Some("PDF text extraction returned empty content"@),
    }
}

/// The reason of a failed outcome, or nothing of a successful one.
pub open spec fn failure_reason_or_empty(o: ExtractionOutcome) -> Seq<char> {
    match failure_reason_spec(o) {
        Some(m) => m,
        None => Seq::empty(),
    }
}

/// The reason a failed outcome is recorded under, `None` for text.
pub fn extraction_failure_reason(o: &ExtractionOutcome) -> (r: Option<String>)
    ensures
        r is None <==> failure_reason_spec(*o) is None,
        r matches Some(s) ==> (failure_reason_spec(*o) matches Some(m) && s@ == m),
{
    match o {
        ExtractionOutcome::Text(_) => None,
        ExtractionOutcome::Timeout => Some(String::from_str("PDF extraction timed out")),
        ExtractionOutcome::Crashed => Some(String::from_str("PDF extraction panicked")),
        ExtractionOutcome::ExtractionError(m) => Some(m.clone()),
        ExtractionOutcome::EmptyText => Some(
            String::from_str("PDF text extraction returned empty content"),
        ),
    }
}

/// The size gate: only a download of at least `MIN_DOWNLOAD_BYTES` bytes
/// may reach extraction.
pub fn download_size_ok(len: u64) -> (r: bool)
    ensures
        r == (len >= MIN_DOWNLOAD_BYTES),
{
    len >= MIN_DOWNLOAD_BYTES
}

} // verus!

//! The batch scheduler and the per-item orchestration. The scheduler
//! splits the work list into consecutive fixed-size groups, each run
//! concurrently behind one barrier. Per item, the orchestrator holds the
//! strict stage order — download if not cached, validate size, extract in
//! the sandbox, summarize with retries, persist — and scopes every
//! failure to the item that suffered it.

use vstd::prelude::*;
use crate::extract::{
    classify_extraction, download_size_ok, extraction_failure_reason, extraction_outcome_spec,
    failure_reason_or_empty, ExtractionOutcome, RawExtraction, MIN_DOWNLOAD_BYTES,
};
use crate::summarize::{summarize_scripted, summarize_spec, AttemptEvent, MAX_ATTEMPTS};
use crate::work::WorkItem;

verus! {

/// Items run concurrently per group; the scheduler waits for a whole
/// group before starting the next.
pub const GROUP_SIZE: usize = 10;

/// An item's terminal state. Exactly one is recorded per consumed item.
pub enum ProcessingOutcome {
    /// A finished artifact already existed; no work was paid for the item.
    Skipped,
    /// The download failed; the item is given up, siblings unaffected.
    DownloadFailed,
    /// The downloaded file was undersized; it was deleted so a later run
    /// retries cleanly.
    CorruptDownload,
    /// Extraction failed for this reason; never retried within the run.
    ExtractionFailed(String),
    /// Summarization failed terminally or exhausted its attempts.
    SummarizationFailed(String),
    /// The artifact was assembled and is ready to persist.
    Completed,
}

/// The mathematical shadow of a `ProcessingOutcome`.
pub ghost enum OutcomeSpec {
    Skipped,
    DownloadFailed,
    CorruptDownload,
    ExtractionFailed(Seq<char>),
    SummarizationFailed(Seq<char>),
    Completed,
}

/// The exec outcome carries exactly the terminal state the spec assigns.
pub open spec fn outcome_is(o: ProcessingOutcome, s: OutcomeSpec) -> bool {
    match o {
        ProcessingOutcome::Skipped => s is Skipped,
        ProcessingOutcome::DownloadFailed => s is DownloadFailed,
        ProcessingOutcome::CorruptDownload => s is CorruptDownload,
        ProcessingOutcome::ExtractionFailed(m) => s matches OutcomeSpec::ExtractionFailed(v) && m@
            == v,
        ProcessingOutcome::SummarizationFailed(m) => s matches OutcomeSpec::SummarizationFailed(v)
            && m@ == v,
        ProcessingOutcome::Completed => s is Completed,
    }
}

/// What the item's collaborators answer, written down up front: whether a
/// cached download exists, whether a fresh download succeeds, the size of
/// the file then present, what the extraction sandbox reports, and what
/// the generation endpoint answers attempt by attempt.
pub struct ItemScript {
    /// A previously downloaded file already exists.
    pub cached: bool,
    /// A fresh download succeeds (consulted only when nothing is cached).
    pub download_ok: bool,
    /// The size in bytes of the downloaded file.
    pub file_size: u64,
    /// The extraction sandbox's report.
    pub extraction: RawExtraction,
    /// The generation endpoint's answers, one per attempt the policy makes.
    pub attempts: Vec<AttemptEvent>,
}

/// The strict stage order of one item: a missing and failing download is
/// terminal; an undersized file is a corrupt download; a failed
/// extraction is recorded under its reason; otherwise the retried
/// summarization decides between completion and failure.
pub open spec fn process_item_spec(item: WorkItem, script: ItemScript) -> OutcomeSpec {
    if !script.cached && !script.download_ok {
        OutcomeSpec::DownloadFailed
    } else if script.file_size < MIN_DOWNLOAD_BYTES {
        OutcomeSpec::CorruptDownload
    } else {
        let eo = extraction_outcome_spec(script.extraction);
        if eo is Text {
            match summarize_spec(item, script.attempts@) {
                Ok(d) => OutcomeSpec::Completed,
                Err(m) => OutcomeSpec::SummarizationFailed(m),
            }
        } else {
            OutcomeSpec::ExtractionFailed(failure_reason_or_empty(eo))
        }
    }
}

/// Run one item through all its stages against scripted collaborator
/// answers: its terminal state, and the artifact exactly when it
/// completed.
pub fn process_item(item: &WorkItem, script: &ItemScript) -> (r: (
    ProcessingOutcome,
    Option<String>,
))
    requires
        script.attempts@.len() >= MAX_ATTEMPTS as int,
    ensures
        outcome_is(r.0, process_item_spec(*item, *script)),
        r.0 is Completed <==> r.1 is Some,
        r.1 matches Some(doc) ==> (summarize_spec(*item, script.attempts@) matches Ok(d) && doc@
            == d),
{
    if !script.cached && !script.download_ok {
        return (ProcessingOutcome::DownloadFailed, None);
    }
    if !download_size_ok(script.file_size) {
        return (ProcessingOutcome::CorruptDownload, None);
    }
    let eo = classify_extraction(&script.extraction);
    match extraction_failure_reason(&eo) {
        Some(reason) => {
            return (ProcessingOutcome::ExtractionFailed(reason), None);
        },
        None => {},
    }
    let (res, _) = summarize_scripted(item, &script.attempts);
    match res {
        Ok(doc) => (ProcessingOutcome::Completed, Some(doc)),
        Err(m) => (ProcessingOutcome::SummarizationFailed(m), None),
    }
}

/// Run one group's items. Fault isolation is in the contract: each item's
/// terminal state is a function of that item and its own collaborators'
/// answers alone, so no member's failure can touch a sibling.
pub fn process_group(items: &Vec<WorkItem>, scripts: &Vec<ItemScript>) -> (outcomes: Vec<
    ProcessingOutcome,
>)
    requires
        scripts@.len() == items@.len(),
        forall|i: int|
            0 <= i < scripts@.len() ==> (#[trigger] scripts@[i]).attempts@.len()
                >= MAX_ATTEMPTS as int,
    ensures
        outcomes@.len() == items@.len(),
        forall|i: int|
            0 <= i < outcomes@.len() ==> outcome_is(
                #[trigger] outcomes@[i],
                process_item_spec(items@[i], scripts@[i]),
            ),
{
    let n = items.len();
    let mut outcomes: Vec<ProcessingOutcome> = Vec::new();
    let mut i: usize = 0;
    while i < n
        invariant
            i <= n,
            n == items@.len(),
            scripts@.len() == n,
            forall|j: int|
                0 <= j < n ==> (#[trigger] scripts@[j]).attempts@.len() >= MAX_ATTEMPTS as int,
            outcomes@.len() == i,
            forall|j: int|
                0 <= j < i ==> outcome_is(
                    #[trigger] outcomes@[j],
                    process_item_spec(items@[j], scripts@[j]),
                ),
        decreases n - i,
    {
        let (o, _) = process_item(&items[i], &scripts[i]);
        outcomes.push(o);
        i = i + 1;
    }
    outcomes
}

/// Split the work list into consecutive groups of `GROUP_SIZE`, order
/// preserved; only the last group may be smaller, and none is empty.
pub fn make_groups(items: &Vec<WorkItem>) -> (groups: Vec<Vec<WorkItem>>)
    ensures
        items@.len() == 0 ==> groups@.len() == 0,
        items@.len() > 0 ==> ((groups@.len() - 1) * (GROUP_SIZE as int) < items@.len()
            && items@.len() <= groups@.len() * (GROUP_SIZE as int)),
        forall|g: int|
            0 <= g < groups@.len() ==> (#[trigger] groups@[g])@ == items@.subrange(
                (GROUP_SIZE as int) * g,
                if (GROUP_SIZE as int) * (g + 1) <= items@.len() {
                    (GROUP_SIZE as int) * (g + 1)
                } else {
                    items@.len() as int
                },
            ),
{
    let n = items.len();
    let mut groups: Vec<Vec<WorkItem>> = Vec::new();
    let mut i: usize = 0;
    while i < n
        invariant
            i <= n,
            n == items@.len(),
            i == (GROUP_SIZE as int) * groups@.len() || (i == n && groups@.len() > 0 && (
            groups@.len() - 1) * (GROUP_SIZE as int) < n && n <= groups@.len() * (
            GROUP_SIZE as int)),
            forall|g: int|
                0 <= g < groups@.len() ==> (#[trigger] groups@[g])@ == items@.subrange(
                    (GROUP_SIZE as int) * g,
                    if (GROUP_SIZE as int) * (g + 1) <= n {
                        (GROUP_SIZE as int) * (g + 1)
                    } else {
                        n as int
                    },
                ),
        decreases n - i,
    {
        let ghost start = i as int;
        proof {
            assert(start == (GROUP_SIZE as int) * groups@.len());
        }
        let mut cur: Vec<WorkItem> = Vec::new();
        while cur.len() < GROUP_SIZE && i < n
            invariant
                0 <= start <= i <= n,
                n == items@.len(),
                i - start == cur@.len(),
                cur@.len() <= GROUP_SIZE,
                cur@ == items@.subrange(start, i as int),
            decreases n - i,
        {
            cur.push(items[i].clone());
            i = i + 1;
            proof {
                assert(cur@ =~= items@.subrange(start, i as int));
            }
        }
        proof {
            assert(i == start + GROUP_SIZE || i == n);
        }
        groups.push(cur);
    }
    proof {
        if n > 0 {
            assert(groups@.len() > 0);
            assert((groups@.len() - 1) * (GROUP_SIZE as int) < n as int);
            assert(n as int <= groups@.len() * (GROUP_SIZE as int));
        }
    }
    groups
}

} // verus!

use ras::extract::{
    classify_extraction, download_size_ok, extraction_failure_reason, ExtractionOutcome,
    RawExtraction,
};
use ras::pipeline::{make_groups, process_group, process_item, ItemScript, ProcessingOutcome};
use ras::summarize::{
    build_document, build_prompt, build_request, classify_attempt, decide_next, new_retry_state,
    summarize_scripted, truncate_text, u16_to_string, AttemptEvent, RetryState, RetryStep,
    SummaryAttemptOutcome,
};
use ras::work::WorkItem;

fn item(id: &str, title: &str) -> WorkItem {
    WorkItem {
        external_id: id.to_string(),
        title: title.to_string(),
        source_url: format!("https://arxiv.org/pdf/{}.pdf", id),
    }
}

fn ok_event(content: &str) -> AttemptEvent {
    AttemptEvent::Response {
        status: 200,
        body: "raw".to_string(),
        choices: Some(vec![content.to_string()]),
    }
}

fn status_event(status: u16) -> AttemptEvent {
    AttemptEvent::Response { status, body: "oops".to_string(), choices: None }
}

fn good_script() -> ItemScript {
    ItemScript {
        cached: true,
        download_ok: true,
        file_size: 4096,
        extraction: RawExtraction::Returned("extracted text".to_string()),
        attempts: vec![ok_event("summary body"), ok_event("unused"), ok_event("unused")],
    }
}

// ----- extraction sandbox outcomes -----

#[test]
fn extraction_timeout_is_classified() {
    let o = classify_extraction(&RawExtraction::TimedOut);
    assert!(matches!(o, ExtractionOutcome::Timeout));
    assert_eq!(extraction_failure_reason(&o), Some("PDF extraction timed out".to_string()));
}

#[test]
fn extraction_crash_is_classified() {
    let o = classify_extraction(&RawExtraction::Panicked);
    assert!(matches!(o, ExtractionOutcome::Crashed));
    assert_eq!(extraction_failure_reason(&o), Some("PDF extraction panicked".to_string()));
}

#[test]
fn extraction_error_keeps_its_message() {
    let o = classify_extraction(&RawExtraction::Failed("bad xref".to_string()));
    match &o {
        ExtractionOutcome::ExtractionError(m) => assert_eq!(m, "bad xref"),
        _ => panic!("expected an extraction error"),
    }
}

#[test]
fn whitespace_only_text_is_empty() {
    let o = classify_extraction(&RawExtraction::Returned("  \n\t  ".to_string()));
    assert!(matches!(o, ExtractionOutcome::EmptyText));
    assert_eq!(
        extraction_failure_reason(&o),
        Some("PDF text extraction returned empty content".to_string())
    );
}

#[test]
fn real_text_passes_through_verbatim() {
    let o = classify_extraction(&RawExtraction::Returned("  keep me  ".to_string()));
    match o {
        ExtractionOutcome::Text(t) => assert_eq!(t, "  keep me  "),
        _ => panic!("expected text"),
    }
    assert!(extraction_failure_reason(&ExtractionOutcome::Text("x".to_string())).is_none());
}

#[test]
fn size_gate_boundary() {
    assert!(!download_size_ok(999));
    assert!(download_size_ok(1000));
}

// ----- summarization client -----

#[test]
fn truncation_keeps_exactly_the_first_50000_characters() {
    let text = "~".repeat(60000);
    let t = truncate_text(&text);
    assert_eq!(t.chars().count(), 50000);
    let short = "short text";
    assert_eq!(truncate_text(short), short);
}

#[test]
fn prompt_contains_at_most_50000_text_characters() {
    let text = "~".repeat(60000);
    let prompt = build_prompt(&item("1", "T"), &text);
    assert_eq!(prompt.matches('~').count(), 50000);
}

#[test]
fn prompt_truncates_before_submission_not_mid_text() {
    let text = format!("{}@{}", "x".repeat(49999), "#".repeat(10000));
    let prompt = build_prompt(&item("1", "T"), &text);
    assert!(prompt.contains('@'));
    assert!(!prompt.contains('#'));
}

#[test]
fn request_is_one_user_message_with_bounded_prompt() {
    let r = build_request(&item("2501.1", "Deep Title"), "some text");
    assert_eq!(r.model, "gpt-4o-mini");
    assert_eq!(r.max_completion_tokens, 2000);
    assert_eq!(r.messages.len(), 1);
    assert_eq!(r.messages[0].role, "user");
    assert!(r.messages[0].content.contains("Deep Title"));
    assert!(r.messages[0].content.contains("some text"));
}

#[test]
fn document_layout_is_exact() {
    let d = build_document(&item("2501.1", "My Title"), "the summary");
    assert_eq!(
        d,
        "# My Title\n\n**arXiv ID**: 2501.1\n**PDF**: https://arxiv.org/pdf/2501.1.pdf\n\n---\n\nthe summary"
    );
}

#[test]
fn status_rendering() {
    assert_eq!(u16_to_string(0), "0");
    assert_eq!(u16_to_string(429), "429");
    assert_eq!(u16_to_string(65535), "65535");
}

#[test]
fn terminal_statuses_are_not_retried() {
    let it = item("1", "t");
    let o = classify_attempt(&it, &status_event(404));
    match o {
        SummaryAttemptOutcome::TerminalError(m) => assert_eq!(m, "API error 404: oops"),
        _ => panic!("expected terminal"),
    }
}

#[test]
fn retryable_statuses_are_flagged() {
    let it = item("1", "t");
    assert!(matches!(
        classify_attempt(&it, &status_event(429)),
        SummaryAttemptOutcome::RetryableError(_)
    ));
    assert!(matches!(
        classify_attempt(&it, &status_event(503)),
        SummaryAttemptOutcome::RetryableError(_)
    ));
    assert!(matches!(
        classify_attempt(&it, &AttemptEvent::TransportError("reset".to_string())),
        SummaryAttemptOutcome::RetryableError(_)
    ));
}

#[test]
fn unparseable_body_is_terminal() {
    let it = item("1", "t");
    let ev = AttemptEvent::Response { status: 200, body: "not json".to_string(), choices: None };
    match classify_attempt(&it, &ev) {
        SummaryAttemptOutcome::TerminalError(m) => {
            assert_eq!(m, "Parse error - Body: not json")
        },
        _ => panic!("expected terminal"),
    }
}

#[test]
fn zero_choices_is_terminal() {
    let it = item("1", "t");
    let ev = AttemptEvent::Response { status: 200, body: "{}".to_string(), choices: Some(vec![]) };
    match classify_attempt(&it, &ev) {
        SummaryAttemptOutcome::TerminalError(m) => assert_eq!(m, "No response from API"),
        _ => panic!("expected terminal"),
    }
}

#[test]
fn two_rate_limits_then_success_succeeds_on_third_attempt() {
    let it = item("2501.1", "Title");
    let events = vec![status_event(429), status_event(429), ok_event("done at last")];
    let (res, attempts) = summarize_scripted(&it, &events);
    assert_eq!(attempts, 3);
    let doc = res.expect("third attempt should succeed");
    assert!(doc.ends_with("done at last"));
}

#[test]
fn three_server_errors_exhaust_the_attempts() {
    let it = item("2501.1", "Title");
    let events = vec![status_event(500), status_event(500), status_event(500)];
    let (res, attempts) = summarize_scripted(&it, &events);
    assert_eq!(attempts, 3);
    let err = res.expect_err("all attempts failed");
    assert_eq!(err, "Failed after 3 retries: API error 500: oops");
}

#[test]
fn terminal_failure_stops_immediately() {
    let it = item("2501.1", "Title");
    let events = vec![status_event(400), ok_event("never reached"), ok_event("never")];
    let (res, attempts) = summarize_scripted(&it, &events);
    assert_eq!(attempts, 1);
    assert_eq!(res.expect_err("terminal"), "API error 400: oops");
}

#[test]
fn waits_grow_with_the_attempt_number() {
    let st0 = new_retry_state();
    match decide_next(&st0) {
        RetryStep::Attempt { delay_ms } => assert_eq!(delay_ms, 0),
        _ => panic!("expected an attempt"),
    }
    let st1 = RetryState { attempts_made: 1, last_error: "e".to_string() };
    match decide_next(&st1) {
        RetryStep::Attempt { delay_ms } => assert_eq!(delay_ms, 1000),
        _ => panic!("expected an attempt"),
    }
    let st2 = RetryState { attempts_made: 2, last_error: "e".to_string() };
    match decide_next(&st2) {
        RetryStep::Attempt { delay_ms } => assert_eq!(delay_ms, 1500),
        _ => panic!("expected an attempt"),
    }
    let done = RetryState { attempts_made: 3, last_error: "last".to_string() };
    match decide_next(&done) {
        RetryStep::GiveUp(m) => assert_eq!(m, "Failed after 3 retries: last"),
        _ => panic!("expected giving up"),
    }
}

// ----- per-item orchestration and the scheduler -----

#[test]
fn undersized_download_is_corrupt_and_never_reaches_extraction() {
    let mut script = good_script();
    script.file_size = 999;
    // The scripted extractor would crash; the size gate must stop first.
    script.extraction = RawExtraction::Panicked;
    let (outcome, artifact) = process_item(&item("1", "t"), &script);
    assert!(matches!(outcome, ProcessingOutcome::CorruptDownload));
    assert!(artifact.is_none());
}

#[test]
fn empty_extracted_text_is_terminal_with_its_reason() {
    let mut script = good_script();
    script.extraction = RawExtraction::Returned("   \n  ".to_string());
    let (outcome, artifact) = process_item(&item("1", "t"), &script);
    match outcome {
        ProcessingOutcome::ExtractionFailed(m) => {
            assert_eq!(m, "PDF text extraction returned empty content")
        },
        _ => panic!("expected an extraction failure"),
    }
    assert!(artifact.is_none());
}

#[test]
fn failed_download_is_terminal_for_the_item() {
    let mut script = good_script();
    script.cached = false;
    script.download_ok = false;
    let (outcome, _) = process_item(&item("1", "t"), &script);
    assert!(matches!(outcome, ProcessingOutcome::DownloadFailed));
}

#[test]
fn completed_item_yields_the_assembled_artifact() {
    let it = item("2501.1", "My Title");
    let (outcome, artifact) = process_item(&it, &good_script());
    assert!(matches!(outcome, ProcessingOutcome::Completed));
    let doc = artifact.expect("completed items carry their artifact");
    assert_eq!(doc, build_document(&it, "summary body"));
}

#[test]
fn hanging_extractor_times_out_and_the_group_proceeds() {
    let items = vec![item("1", "hangs"), item("2", "fine")];
    let mut hanging = good_script();
    hanging.extraction = RawExtraction::TimedOut;
    let scripts = vec![hanging, good_script()];
    let outcomes = process_group(&items, &scripts);
    match &outcomes[0] {
        ProcessingOutcome::ExtractionFailed(m) => assert_eq!(m, "PDF extraction timed out"),
        _ => panic!("expected an extraction failure"),
    }
    assert!(matches!(outcomes[1], ProcessingOutcome::Completed));
}

#[test]
fn crashing_extractor_is_contained_and_siblings_complete() {
    let items = vec![item("1", "ok"), item("2", "crashes"), item("3", "also ok")];
    let mut crashing = good_script();
    crashing.extraction = RawExtraction::Panicked;
    let scripts = vec![good_script(), crashing, good_script()];
    let outcomes = process_group(&items, &scripts);
    assert!(matches!(outcomes[0], ProcessingOutcome::Completed));
    match &outcomes[1] {
        ProcessingOutcome::ExtractionFailed(m) => assert_eq!(m, "PDF extraction panicked"),
        _ => panic!("expected an extraction failure"),
    }
    assert!(matches!(outcomes[2], ProcessingOutcome::Completed));
}

#[test]
fn one_failed_download_does_not_stop_the_group() {
    let items = vec![item("1", "fails"), item("2", "ok"), item("3", "ok too")];
    let mut failing = good_script();
    failing.cached = false;
    failing.download_ok = false;
    let scripts = vec![failing, good_script(), good_script()];
    let outcomes = process_group(&items, &scripts);
    assert!(matches!(outcomes[0], ProcessingOutcome::DownloadFailed));
    assert!(matches!(outcomes[1], ProcessingOutcome::Completed));
    assert!(matches!(outcomes[2], ProcessingOutcome::Completed));
}

#[test]
fn groups_are_consecutive_and_bounded() {
    let items: Vec<WorkItem> =
        (0..25).map(|i| item(&format!("id{}", i), &format!("title {}", i))).collect();
    let groups = make_groups(&items);
    assert_eq!(groups.len(), 3);
    assert_eq!(groups[0].len(), 10);
    assert_eq!(groups[1].len(), 10);
    assert_eq!(groups[2].len(), 5);
    let flattened: Vec<&str> =
        groups.iter().flatten().map(|i| i.external_id.as_str()).collect();
    let expected: Vec<String> = (0..25).map(|i| format!("id{}", i)).collect();
    assert_eq!(flattened, expected.iter().map(|s| s.as_str()).collect::<Vec<_>>());
    assert!(make_groups(&Vec::new()).is_empty());
}

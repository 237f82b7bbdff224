use ras::keys::sanitize_filename;
use ras::work::{
    artifact_file_name, dedup_by_id, download_file_name, existing_keys, filter_items,
    make_work_item, WorkItem,
};

fn item(id: &str, title: &str) -> WorkItem {
    WorkItem {
        external_id: id.to_string(),
        title: title.to_string(),
        source_url: format!("https://arxiv.org/pdf/{}.pdf", id),
    }
}

#[test]
fn sanitize_replaces_reserved_characters() {
    assert_eq!(sanitize_filename("a<b>c:d\"e/f\\g|h?i*j"), "a_b_c_d_e_f_g_h_i_j");
    assert_eq!(sanitize_filename("tab\there"), "tab_here");
    assert_eq!(sanitize_filename("ctrl\u{1}char"), "ctrl_char");
}

#[test]
fn sanitize_trims_whitespace() {
    assert_eq!(sanitize_filename("  spaced out  "), "spaced out");
    assert_eq!(sanitize_filename("\u{a0}nbsp\u{a0}"), "nbsp");
    assert_eq!(sanitize_filename("   "), "");
}

#[test]
fn sanitize_is_deterministic_and_collapses() {
    // Titles differing only in reserved characters share one key.
    assert_eq!(sanitize_filename("q<w:e"), sanitize_filename("q>w*e"));
    assert_eq!(sanitize_filename("same title"), sanitize_filename("same title"));
}

#[test]
fn sanitize_truncates_to_200_characters() {
    let long = "x".repeat(250);
    let key = sanitize_filename(&long);
    assert_eq!(key.chars().count(), 200);
    assert_eq!(key, "x".repeat(200));
    let exact = "y".repeat(200);
    assert_eq!(sanitize_filename(&exact), exact);
}

#[test]
fn existing_keys_reads_only_summary_names() {
    let names = vec![
        "alpha-summary.md".to_string(),
        "notes.txt".to_string(),
        "beta-summary.md".to_string(),
        "-summary.md".to_string(),
        "gamma-summary.md.bak".to_string(),
    ];
    let keys = existing_keys(&names);
    assert_eq!(keys, vec!["alpha".to_string(), "beta".to_string(), "".to_string()]);
}

#[test]
fn filter_excludes_exactly_the_finished_items() {
    let items = vec![item("1", "one"), item("2", "two"), item("3", "three")];
    let existing = vec!["two".to_string()];
    let left = filter_items(&items, &existing);
    let titles: Vec<&str> = left.iter().map(|i| i.title.as_str()).collect();
    assert_eq!(titles, vec!["one", "three"]);
}

#[test]
fn filter_skips_second_duplicate_key() {
    let items = vec![item("1", "dup<title"), item("2", "dup>title"), item("3", "other")];
    let left = filter_items(&items, &Vec::new());
    let ids: Vec<&str> = left.iter().map(|i| i.external_id.as_str()).collect();
    assert_eq!(ids, vec!["1", "3"]);
}

#[test]
fn second_run_against_unchanged_feed_selects_nothing() {
    let items = vec![item("1", "first"), item("2", "sec/ond"), item("3", "third")];
    // First run: nothing finished yet, everything selected.
    let first_run = filter_items(&items, &Vec::new());
    assert_eq!(first_run.len(), 3);
    // Every selected item completes and leaves an artifact.
    let finished: Vec<String> =
        first_run.iter().map(|i| sanitize_filename(&i.title)).collect();
    // Second run over the unchanged feed: zero additional artifacts.
    let second_run = filter_items(&items, &finished);
    assert_eq!(second_run.len(), 0);
}

#[test]
fn artifact_names_round_trip_through_the_filter() {
    let key = sanitize_filename("Some Paper: A Study");
    let names = vec![artifact_file_name(&key)];
    assert_eq!(existing_keys(&names), vec![key.clone()]);
    assert_eq!(download_file_name(&key), format!("{}.pdf", key));
}

#[test]
fn dedup_keeps_first_occurrence_in_order() {
    let items = vec![
        item("a", "one"),
        item("b", "two"),
        item("a", "one again"),
        item("c", "three"),
        item("b", "two again"),
    ];
    let d = dedup_by_id(&items);
    let ids: Vec<&str> = d.iter().map(|i| i.external_id.as_str()).collect();
    let titles: Vec<&str> = d.iter().map(|i| i.title.as_str()).collect();
    assert_eq!(ids, vec!["a", "b", "c"]);
    assert_eq!(titles, vec!["one", "two", "three"]);
}

#[test]
fn make_work_item_fills_fallback_title_and_url() {
    let with_title = make_work_item("2501.1234", "A Paper");
    assert_eq!(with_title.external_id, "2501.1234");
    assert_eq!(with_title.title, "A Paper");
    assert_eq!(with_title.source_url, "https://arxiv.org/pdf/2501.1234.pdf");
    let untitled = make_work_item("2501.9999", "");
    assert_eq!(untitled.title, "Paper-2501.9999");
}

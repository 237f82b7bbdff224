//! Candidate documents and the selection of work: de-duplication of the
//! discovery feed by external id, the set of canonical keys with a
//! finished artifact, and the idempotency filter that excludes candidates
//! whose artifact already exists.

use vstd::prelude::*;
use vstd::string::*;
use crate::keys::key_spec;
use crate::keys::sanitize_filename;
use crate::text::{chars_of, ends_with_chars, ends_with_spec, string_from_chars};

verus! {

/// One candidate document to process.
pub struct WorkItem {
    /// The discovery feed's identifier for the document.
    pub external_id: String,
    /// The document's title; the canonical key is derived from it.
    pub title: String,
    /// Where the raw document is downloaded from.
    pub source_url: String,
}

impl Clone for WorkItem {
    fn clone(&self) -> (r: Self)
        ensures
            r == *self,
    {
        WorkItem {
            external_id: self.external_id.clone(),
            title: self.title.clone(),
            source_url: self.source_url.clone(),
        }
    }
}

/// Some item in `items` carries the external id `id`.
pub open spec fn has_id(items: Seq<WorkItem>, id: Seq<char>) -> bool {
    exists|i: int| 0 <= i < items.len() && items[i].external_id@ == id
}

/// Some item in `items` has the canonical key `k`.
pub open spec fn has_key(items: Seq<WorkItem>, k: Seq<char>) -> bool {
    exists|i: int| 0 <= i < items.len() && key_spec(items[i].title@) == k
}

/// The feed's candidates with repeats removed: the first item that carries
/// a given external id is kept, every later one dropped, order unchanged.
pub open spec fn dedup_spec(items: Seq<WorkItem>) -> Seq<WorkItem>
    decreases items.len(),
{
    if items.len() == 0 {
        Seq::empty()
    } else {
        let prior = dedup_spec(items.drop_last());
        if has_id(items.drop_last(), items.last().external_id@) {
            prior
        } else {
            prior.push(items.last())
        }
    }
}

/// The work selection: a candidate is kept exactly when its canonical key
/// has no finished artifact and no earlier candidate shares its key (the
/// second of two duplicates is skipped, never written).
pub open spec fn filter_spec(items: Seq<WorkItem>, existing: Seq<Seq<char>>) -> Seq<WorkItem>
    decreases items.len(),
{
    if items.len() == 0 {
        Seq::empty()
    } else {
        let prior = filter_spec(items.drop_last(), existing);
        let k = key_spec(items.last().title@);
        if existing.contains(k) || has_key(items.drop_last(), k) {
            prior
        } else {
            prior.push(items.last())
        }
    }
}

/// The candidates of the discovery feed, de-duplicated by external id.
pub fn dedup_by_id(items: &Vec<WorkItem>) -> (r: Vec<WorkItem>)
    ensures
        r@ == dedup_spec(items@),
{
    let n = items.len();
    let mut r: Vec<WorkItem> = Vec::new();
    let mut i: usize = 0;
    while i < n
        invariant
            i <= n,
            n == items@.len(),
            r@ == dedup_spec(items@.subrange(0, i as int)),
        decreases n - i,
    {
        let mut seen = false;
        let mut j: usize = 0;
        while j < i
            invariant
                j <= i < n,
                n == items@.len(),
                seen == has_id(items@.subrange(0, j as int), items@[i as int].external_id@),
            decreases i - j,
        {
            if items[j].external_id == items[i].external_id {
                seen = true;
            }
            j = j + 1;
            proof {
                let pre = items@.subrange(0, j as int);
                assert(pre.drop_last() =~= items@.subrange(0, j - 1));
                assert(pre.last() == items@[j - 1]);
                if items@[j - 1].external_id@ == items@[i as int].external_id@ {
                    assert(has_id(pre, items@[i as int].external_id@));
                } else {
                    if has_id(pre, items@[i as int].external_id@) {
                        let the_id = items@[i as int].external_id@;
                        let w = choose|w: int|
                            0 <= w < pre.len() && pre[w].external_id@ == the_id;
                        if w < j - 1 {
                            assert(items@.subrange(0, j - 1)[w] == pre[w]);
                        }
                        assert(has_id(items@.subrange(0, j - 1), items@[i as int].external_id@));
                    }
                }
            }
        }
        if !seen {
            r.push(items[i].clone());
        }
        i = i + 1;
        proof {
            let pre = items@.subrange(0, i as int);
            assert(pre.drop_last() =~= items@.subrange(0, i - 1));
            assert(pre.last() == items@[i - 1]);
        }
    }
    proof {
        assert(items@.subrange(0, n as int) =~= items@);
    }
    r
}

/// Whether some string in `keys` holds exactly the characters of `k`.
pub fn contains_string(keys: &Vec<String>, k: &String) -> (r: bool)
    ensures
        r == keys.deep_view().contains(k@),
{
    let n = keys.len();
    let mut i: usize = 0;
    while i < n
        invariant
            i <= n,
            n == keys@.len(),
            forall|j: int| 0 <= j < i ==> keys.deep_view()[j] != k@,
        decreases n - i,
    {
        if keys[i].eq(k) {
            proof {
                assert(keys.deep_view()[i as int] == keys@[i as int]@);
            }
            return true;
        }
        proof {
            assert(keys.deep_view()[i as int] == keys@[i as int]@);
        }
        i = i + 1;
    }
    proof {
        if keys.deep_view().contains(k@) {
            let w = choose|w: int| 0 <= w < keys.deep_view().len() && keys.deep_view()[w] == k@;
            assert(keys.deep_view()[w] != k@);
        }
    }
    false
}

/// The canonical keys that already have a finished artifact, read off a
/// listing of the artifact directory: the stem of every name of the form
/// `<key>-summary.md`.
pub open spec fn artifact_stems(names: Seq<Seq<char>>) -> Seq<Seq<char>>
    decreases names.len(),
{
    if names.len() == 0 {
        Seq::empty()
    } else {
        let prior = artifact_stems(names.drop_last());
        let last = names.last();
        if ends_with_spec(last, "-summary.md"@) {
            prior.push(last.subrange(0, last.len() - "-summary.md"@.len()))
        } else {
            prior
        }
    }
}

/// The keys of the finished artifacts among the directory entries `names`.
pub fn existing_keys(names: &Vec<String>) -> (keys: Vec<String>)
    ensures
        keys.deep_view() == artifact_stems(names.deep_view()),
{
    let suffix = chars_of("-summary.md");
    let n = names.len();
    let mut keys: Vec<String> = Vec::new();
    let mut i: usize = 0;
    while i < n
        invariant
            i <= n,
            n == names@.len(),
            suffix@ == "-summary.md"@,
            keys.deep_view() == artifact_stems(names.deep_view().subrange(0, i as int)),
        decreases n - i,
    {
        let cs = chars_of(names[i].as_str());
        if ends_with_chars(&cs, &suffix) {
            let m = cs.len() - suffix.len();
            let mut stem: Vec<char> = Vec::new();
            let mut j: usize = 0;
            while j < m
                invariant
                    j <= m,
                    m <= cs@.len(),
                    stem@ == cs@.subrange(0, j as int),
                decreases m - j,
            {
                stem.push(cs[j]);
                j = j + 1;
                proof {
                    assert(stem@ =~= cs@.subrange(0, j as int));
                }
            }
            keys.push(string_from_chars(&stem));
        }
        i = i + 1;
        proof {
            let pre = names.deep_view().subrange(0, i as int);
            assert(pre.drop_last() =~= names.deep_view().subrange(0, i - 1));
            assert(pre.last() == names.deep_view()[i - 1]);
            assert(names.deep_view()[i - 1] == names@[i - 1]@);
            assert(keys.deep_view() =~= artifact_stems(pre));
        }
    }
    proof {
        assert(names.deep_view().subrange(0, n as int) =~= names.deep_view());
    }
    keys
}

/// The candidates left to process: those whose canonical key has no
/// finished artifact and is not the key of an earlier candidate.
pub fn filter_items(items: &Vec<WorkItem>, existing: &Vec<String>) -> (r: Vec<WorkItem>)
    ensures
        r@ == filter_spec(items@, existing.deep_view()),
{
    let n = items.len();
    let mut r: Vec<WorkItem> = Vec::new();
    let mut seen: Vec<String> = Vec::new();
    let mut i: usize = 0;
    while i < n
        invariant
            i <= n,
            n == items@.len(),
            r@ == filter_spec(items@.subrange(0, i as int), existing.deep_view()),
            seen@.len() == i,
            forall|j: int| 0 <= j < i ==> seen@[j]@ == key_spec(items@[j].title@),
        decreases n - i,
    {
        let k = sanitize_filename(items[i].title.as_str());
        let in_existing = contains_string(existing, &k);
        let in_seen = contains_string(&seen, &k);
        proof {
            let pre = items@.subrange(0, i as int);
            if seen.deep_view().contains(k@) {
                let w = choose|w: int|
                    0 <= w < seen.deep_view().len() && seen.deep_view()[w] == k@;
                assert(seen.deep_view()[w] == seen@[w]@);
                assert(key_spec(pre[w].title@) == k@);
                assert(has_key(pre, k@));
            }
            if has_key(pre, k@) {
                let w = choose|w: int| 0 <= w < pre.len() && key_spec(pre[w].title@) == k@;
                assert(seen.deep_view()[w] == seen@[w]@);
                assert(seen.deep_view()[w] == k@);
                assert(seen.deep_view().contains(k@));
            }
        }
        if !in_existing && !in_seen {
            r.push(items[i].clone());
        }
        seen.push(k);
        i = i + 1;
        proof {
            let pre = items@.subrange(0, i as int);
            assert(pre.drop_last() =~= items@.subrange(0, i - 1));
            assert(pre.last() == items@[i - 1]);
        }
    }
    proof {
        assert(items@.subrange(0, n as int) =~= items@);
    }
    r
}

/// Idempotency: a run against an unchanged feed finds every candidate's
/// canonical key among the finished artifacts, so the filter leaves
/// nothing to process and no further artifact is written.
pub proof fn lemma_second_run_selects_nothing(items: Seq<WorkItem>, existing: Seq<Seq<char>>)
    requires
        forall|i: int|
            0 <= i < items.len() ==> existing.contains(#[trigger] key_spec(items[i].title@)),
    ensures
        filter_spec(items, existing).len() == 0,
    decreases items.len(),
{
    if items.len() > 0 {
        assert(forall|i: int|
            0 <= i < items.len() - 1 ==> items.drop_last()[i] == items[i]);
        lemma_second_run_selects_nothing(items.drop_last(), existing);
    }
}

/// The file name an artifact is persisted under: the canonical key with
/// the artifact suffix.
pub fn artifact_file_name(key: &str) -> (r: String)
    ensures
        r@ == key@ + "-summary.md"@,
{
    let mut s = String::from_str(key);
    s.append("-summary.md");
    s
}

/// The file name a download is cached under.
pub fn download_file_name(key: &str) -> (r: String)
    ensures
        r@ == key@ + ".pdf"@,
{
    let mut s = String::from_str(key);
    s.append(".pdf");
    s
}

/// Artifact naming round trip: a key is read back intact from the name
/// its artifact was written under. With the idempotency lemma below, a
/// completed item is therefore excluded from the next run's work.
pub proof fn lemma_artifact_name_round_trip(k: Seq<char>)
    ensures
        artifact_stems(seq![k + "-summary.md"@]) =~= seq![k],
{
    let s = "-summary.md"@;
    let name = k + s;
    let names = seq![name];
    assert(names.drop_last() =~= Seq::<Seq<char>>::empty());
    assert(artifact_stems(names.drop_last()) =~= Seq::<Seq<char>>::empty());
    assert(name.subrange(name.len() - s.len(), name.len() as int) =~= s);
    assert(ends_with_spec(name, s));
    assert(name.subrange(0, name.len() - s.len()) =~= k);
}

/// A candidate as the discovery feed hands it over: the fallback title
/// `Paper-<id>` stands in where the feed gave none, and the download
/// location is derived from the id.
pub fn make_work_item(id: &str, title: &str) -> (r: WorkItem)
    ensures
        r.external_id@ == id@,
        title@.len() == 0 ==> r.title@ == "Paper-"@ + id@,
        title@.len() > 0 ==> r.title@ == title@,
        r.source_url@ == "https://arxiv.org/pdf/"@ + id@ + ".pdf"@,
{
    let external_id = String::from_str(id);
    let item_title = if title.unicode_len() == 0 {
        let mut t = String::from_str("Paper-");
        t.append(id);
        t
    } else {
        String::from_str(title)
    };
    let mut url = String::from_str("https://arxiv.org/pdf/");
    url.append(id);
    url.append(".pdf");
    WorkItem { external_id, title: item_title, source_url: url }
}

} // verus!

//! The batch orchestrator: validates up to one hundred URLs before anything
//! is sent, polls one bulk job until its aggregate status is terminal, then
//! walks the per-item list once, in order, tallying success and failure
//! independently per item. The whole batch fails only when not a single
//! item succeeded.

use vstd::prelude::*;

use crate::error::CliError;
use crate::error::CliResult;
use crate::strutil::dec_seq;
use crate::strutil::str_eq;
use crate::url::prefixed_url;
use crate::url::url_parses;
use crate::url::normalize_url;

verus! {

/// The largest number of URLs one batch may carry.
pub const MAX_BATCH_URLS: usize = 100;

/// Whether a batch of `n` URLs is accepted.
pub open spec fn batch_size_ok(n: nat) -> bool {
    0 < n <= 100
}

/// Rejects an empty batch and a batch of more than one hundred URLs. This
/// runs before any remote call: a rejected batch never reaches the service.
pub fn validate_batch(urls: &Vec<String>) -> (r: CliResult<()>)
    ensures
        r is Ok <==> batch_size_ok(urls@.len()),
        urls@.len() == 0 ==> (r matches Err(e) && (e matches CliError::Other(m) && m@
            == "No URLs provided. Use positional arguments or --file"@)),
        urls@.len() > 100 ==> (r matches Err(e) && (e matches CliError::Other(m) && m@
            == "Too many URLs ("@ + dec_seq(urls@.len()) + "). Maximum is 100 per batch."@)),
{
    if urls.len() == 0 {
        Err(
            CliError::Other(
                String::from_str("No URLs provided. Use positional arguments or --file"),
            ),
        )
    } else if urls.len() > MAX_BATCH_URLS {
        let n = crate::strutil::u64_to_string(urls.len() as u64);
        Err(
            CliError::Other(
                String::from_str("Too many URLs (").concat(n.as_str()).concat(
                    "). Maximum is 100 per batch.",
                ),
            ),
        )
    } else {
        Ok(())
    }
}

/// Normalizes every URL of the batch, stopping at the first invalid one.
pub fn normalize_all(urls: &Vec<String>) -> (r: CliResult<Vec<String>>)
    ensures
        r is Ok <==> (forall|i: int|
            0 <= i < urls@.len() ==> url_parses(prefixed_url(urls@[i]@))),
        r matches Ok(v) ==> v@.len() == urls@.len() && (forall|i: int|
            0 <= i < urls@.len() ==> v@[i]@ == prefixed_url(urls@[i]@)),
        r matches Err(e) ==> exists|i: int|
            0 <= i < urls@.len() && !url_parses(prefixed_url(urls@[i]@)) && (forall|j: int|
                0 <= j < i ==> url_parses(prefixed_url(urls@[j]@))) && (e
                matches CliError::InvalidUrl(t) && t@ == urls@[i]@),
{
    let n = urls.len();
    let mut out: Vec<String> = Vec::new();
    let mut i: usize = 0;
    while i < n
        invariant
            n == urls@.len(),
            i <= n,
            out@.len() == i,
            forall|j: int| 0 <= j < i ==> url_parses(prefixed_url(urls@[j]@)),
            forall|j: int| 0 <= j < i ==> out@[j]@ == prefixed_url(urls@[j]@),
        decreases n - i,
    {
        match normalize_url(urls[i].as_str()) {
            Ok(u) => {
                out.push(u);
            },
            Err(e) => {
                return Err(e);
            },
        }
        i = i + 1;
    }
    Ok(out)
}

/// The aggregate statuses treated as terminal, matched exactly and
/// case-sensitively; any other value keeps the poll loop running.
pub open spec fn terminal_aggregate(s: Seq<char>) -> bool {
    s == "COMPLETED"@ || s == "FAILED"@ || s == "PARTIAL"@
}

/// Whether a bulk job's aggregate status is terminal.
pub fn is_terminal_aggregate(status: &str) -> (r: bool)
    ensures
        r == terminal_aggregate(status@),
{
    str_eq(status, "COMPLETED") || str_eq(status, "FAILED") || str_eq(status, "PARTIAL")
}

/// One per-URL record of a bulk job, as plain values.
#[derive(Debug, Clone)]
pub struct BulkItem {
    pub id: String,
    pub url: String,
    pub status: String,
    pub result_url: Option<String>,
    pub error_message: Option<String>,
}

/// A snapshot of a bulk job, as plain values.
#[derive(Debug, Clone)]
pub struct BulkJobSnapshot {
    pub id: String,
    pub status: String,
    pub total_jobs: i32,
    pub completed_jobs: i32,
    pub failed_jobs: i32,
    pub jobs: Option<Vec<BulkItem>>,
}

/// The index of the first snapshot whose aggregate status is terminal.
pub open spec fn first_terminal_bulk(s: Seq<BulkJobSnapshot>) -> int
    decreases s.len(),
{
    if s.len() == 0 {
        0
    } else if terminal_aggregate(s[0].status@) {
        0
    } else {
        1 + first_terminal_bulk(s.drop_first())
    }
}

proof fn lemma_first_terminal_bulk(s: Seq<BulkJobSnapshot>, i: int)
    requires
        0 <= i < s.len(),
        forall|j: int| 0 <= j < i ==> !terminal_aggregate(s[j].status@),
        terminal_aggregate(s[i].status@),
    ensures
        first_terminal_bulk(s) == i,
    decreases i,
{
    if i > 0 {
        let t = s.drop_first();
        assert(forall|j: int| 0 <= j < i - 1 ==> t[j] == s[j + 1] && !terminal_aggregate(
            t[j].status@,
        ));
        assert(t[i - 1] == s[i]);
        lemma_first_terminal_bulk(t, i - 1);
    }
}

/// Polls a bulk job over a given sequence of fetched snapshots: the loop
/// stops at the first snapshot whose aggregate status is terminal — having
/// polled exactly up to it, never past it — and returns its position. On a
/// sequence with no terminal aggregate status every snapshot is polled and
/// nothing is returned: polling would go on.
pub fn drive_bulk_poll(snapshots: &Vec<BulkJobSnapshot>) -> (r: Option<usize>)
    ensures
        r is Some <==> exists|i: int|
            0 <= i < snapshots@.len() && terminal_aggregate(snapshots@[i].status@),
        r matches Some(k) ==> {
            &&& k == first_terminal_bulk(snapshots@)
            &&& 0 <= k < snapshots@.len()
            &&& terminal_aggregate(snapshots@[k as int].status@)
            &&& forall|j: int| 0 <= j < k ==> !terminal_aggregate(snapshots@[j].status@)
        },
{
    let n = snapshots.len();
    let mut i: usize = 0;
    while i < n
        invariant
            n == snapshots@.len(),
            i <= n,
            forall|j: int| 0 <= j < i ==> !terminal_aggregate(snapshots@[j].status@),
        decreases n - i,
    {
        if is_terminal_aggregate(snapshots[i].status.as_str()) {
            proof {
                lemma_first_terminal_bulk(snapshots@, i as int);
            }
            return Some(i);
        }
        i = i + 1;
    }
    None
}

/// Whether an item's result is there to download: its own status is exactly
/// `COMPLETED` and it carries a result reference.
pub open spec fn item_downloadable(it: BulkItem) -> bool {
    it.status@ == "COMPLETED"@ && it.result_url is Some
}

/// What to do with one item of a finished bulk job.
#[derive(Debug, Clone, Copy, PartialEq, Eq, Structural)]
pub enum ItemPlan {
    /// Completed with a result reference: download and save it.
    Download,
    /// Completed but without a result reference: record a failure.
    FailureNoResult,
    /// Not completed: record a failure with the remote message.
    FailureRemote,
}

/// Classifies one item of a finished bulk job.
pub fn classify_item(item: &BulkItem) -> (r: ItemPlan)
    ensures
        r is Download <==> item_downloadable(*item),
        r is FailureNoResult <==> item.status@ == "COMPLETED"@ && item.result_url is None,
        r is FailureRemote <==> item.status@ != "COMPLETED"@,
{
    if str_eq(item.status.as_str(), "COMPLETED") {
        if item.result_url.is_some() {
            ItemPlan::Download
        } else {
            ItemPlan::FailureNoResult
        }
    } else {
        ItemPlan::FailureRemote
    }
}

/// The line reported for an item that yields no file.
pub open spec fn item_failure_text(it: BulkItem) -> Seq<char> {
    if it.status@ == "COMPLETED"@ {
        "No result URL for "@ + it.url@
    } else {
        it.url@ + " - "@ + match it.error_message {
            Some(m) => m@,
            None => "Unknown error"@,
        }
    }
}

/// The message reported for an item recorded as a failure without a
/// download attempt.
pub fn item_failure_message(item: &BulkItem) -> (r: String)
    ensures
        r@ == item_failure_text(*item),
{
    if str_eq(item.status.as_str(), "COMPLETED") {
        String::from_str("No result URL for ").concat(item.url.as_str())
    } else {
        let base = String::from_str(item.url.as_str()).concat(" - ");
        match &item.error_message {
            Some(m) => base.concat(m.as_str()),
            None => base.concat("Unknown error"),
        }
    }
}

/// Counts per-item outcomes of one batch. Every item is recorded exactly
/// once, as a success or as a failure; the two tallies never pass the total.
#[derive(Debug, Clone, Copy)]
pub struct BatchOrchestrator {
    /// How many items the finished bulk job holds.
    pub total: usize,
    /// Items whose result was downloaded and saved.
    pub succeeded: usize,
    /// Items that yielded no file.
    pub failed: usize,
}

impl BatchOrchestrator {
    /// Both tallies together never pass the total.
    pub open spec fn wf(self) -> bool {
        self.succeeded + self.failed <= self.total
    }

    /// How many items are recorded so far.
    pub open spec fn recorded(self) -> int {
        self.succeeded + self.failed
    }

    /// An orchestrator over `total` items with nothing recorded.
    pub fn new(total: usize) -> (r: Self)
        ensures
            r.wf(),
            r.total == total,
            r.succeeded == 0,
            r.failed == 0,
    {
        BatchOrchestrator { total, succeeded: 0, failed: 0 }
    }

    /// Records one item whose result was saved.
    pub fn record_success(&mut self)
        requires
            old(self).wf(),
            old(self).recorded() < old(self).total,
        ensures
            final(self).wf(),
            final(self).total == old(self).total,
            final(self).succeeded == old(self).succeeded + 1,
            final(self).failed == old(self).failed,
    {
        self.succeeded = self.succeeded + 1;
    }

    /// Records one item that yielded no file.
    pub fn record_failure(&mut self)
        requires
            old(self).wf(),
            old(self).recorded() < old(self).total,
        ensures
            final(self).wf(),
            final(self).total == old(self).total,
            final(self).succeeded == old(self).succeeded,
            final(self).failed == old(self).failed + 1,
    {
        self.failed = self.failed + 1;
    }

    /// The overall outcome once every item is recorded: the batch fails only
    /// when not a single item succeeded (and at least one failed).
    pub fn verdict(&self) -> (r: CliResult<()>)
        requires
            self.wf(),
            self.recorded() == self.total,
        ensures
            r is Ok <==> (self.succeeded > 0 || self.failed == 0),
            r matches Err(e) ==> e matches CliError::Other(m) && m@
                == "All screenshots failed"@,
    {
        if self.failed > 0 && self.succeeded == 0 {
            Err(CliError::Other(String::from_str("All screenshots failed")))
        } else {
            Ok(())
        }
    }
}

/// How many items of the list yield a saved file, given which download
/// attempts succeed.
pub open spec fn successes(items: Seq<BulkItem>, ok: Seq<bool>) -> nat
    decreases items.len(),
{
    if items.len() == 0 {
        0
    } else {
        successes(items.drop_last(), ok.drop_last()) + if item_downloadable(items.last())
            && ok[items.len() - 1] {
            1nat
        } else {
            0nat
        }
    }
}

/// The indices of the items whose file gets written, in order.
pub open spec fn written_indices(items: Seq<BulkItem>, ok: Seq<bool>) -> Seq<int>
    decreases items.len(),
{
    if items.len() == 0 {
        Seq::<int>::empty()
    } else {
        let prev = written_indices(items.drop_last(), ok.drop_last());
        if item_downloadable(items.last()) && ok[items.len() - 1] {
            prev.push(items.len() - 1)
        } else {
            prev
        }
    }
}

/// What one reconciliation pass produced.
#[derive(Debug)]
pub struct BatchReport {
    /// Items whose result was downloaded and saved.
    pub succeeded: usize,
    /// Items that yielded no file.
    pub failed: usize,
    /// The indices of the items whose file was written, in order.
    pub written: Vec<usize>,
}

/// Walks the per-item list of a finished bulk job once, in order. The entry
/// `download_ok[i]` says whether the download-and-save of item `i` would
/// succeed; it is only consulted for items that are downloadable at all.
/// Every item is counted exactly once: succeeded plus failed equals the
/// number of items, whatever the outcomes; the files written are exactly
/// the downloadable items whose attempt succeeded, in list order.
pub fn reconcile_items(items: &Vec<BulkItem>, download_ok: &Vec<bool>) -> (r: BatchReport)
    requires
        download_ok@.len() == items@.len(),
    ensures
        r.succeeded + r.failed == items@.len(),
        r.succeeded == successes(items@, download_ok@),
        r.written@.len() == r.succeeded,
        r.written@.map_values(|x: usize| x as int) == written_indices(items@, download_ok@),
{
    let n = items.len();
    let mut orch = BatchOrchestrator::new(n);
    let mut written: Vec<usize> = Vec::new();
    let mut i: usize = 0;
    proof {
        assert(items@.subrange(0, 0) =~= Seq::<BulkItem>::empty());
        assert(download_ok@.subrange(0, 0) =~= Seq::<bool>::empty());
    }
    while i < n
        invariant
            n == items@.len(),
            n == download_ok@.len(),
            i <= n,
            orch.total == n,
            orch.recorded() == i,
            orch.wf(),
            orch.succeeded == successes(
                items@.subrange(0, i as int),
                download_ok@.subrange(0, i as int),
            ),
            written@.len() == orch.succeeded,
            written@.map_values(|x: usize| x as int) == written_indices(
                items@.subrange(0, i as int),
                download_ok@.subrange(0, i as int),
            ),
        decreases n - i,
    {
        let plan = classify_item(&items[i]);
        match plan {
            ItemPlan::Download => {
                if download_ok[i] {
                    orch.record_success();
                    written.push(i);
                } else {
                    orch.record_failure();
                }
            },
            _ => {
                orch.record_failure();
            },
        }
        i = i + 1;
        proof {
            let pre_items = items@.subrange(0, i - 1);
            let pre_ok = download_ok@.subrange(0, i - 1);
            let post_items = items@.subrange(0, i as int);
            let post_ok = download_ok@.subrange(0, i as int);
            assert(post_items.drop_last() =~= pre_items);
            assert(post_ok.drop_last() =~= pre_ok);
            assert(post_items.last() == items@[i - 1]);
            assert(post_ok[post_items.len() - 1] == download_ok@[i - 1]);
            assert(written@.map_values(|x: usize| x as int) =~= written_indices(
                post_items,
                post_ok,
            ));
        }
    }
    proof {
        assert(items@.subrange(0, n as int) =~= items@);
        assert(download_ok@.subrange(0, n as int) =~= download_ok@);
    }
    BatchReport { succeeded: orch.succeeded, failed: orch.failed, written }
}

} // verus!

use vstd::prelude::*;

use crate::models::{
    is_active, ts_before, CaptureRecord, CaptureResponse, CaptureStatus, Timestamp,
};
use crate::error::{error_message, ApiError};
use crate::text::{chars_of, hex_lower, is_word, to_hex_lower};
use sha2::Digest;

verus! {

// ---------------------------------------------------------------------------
// The model: a sequence of records, each with its own id
// ---------------------------------------------------------------------------

/// No two records share an id.
pub open spec fn ids_unique(s: Seq<CaptureRecord>) -> bool {
    forall|i: int, j: int| 0 <= i < s.len() && 0 <= j < s.len() && i != j ==> s[i].id@ != s[j].id@
}

/// Position of the record with the given id, or -1.
pub open spec fn index_of(s: Seq<CaptureRecord>, id: Seq<char>) -> int
    decreases s.len(),
{
    if s.len() == 0 {
        -1
    } else if s[0].id@ == id {
        0
    } else {
        let k = index_of(s.drop_first(), id);
        if k < 0 {
            -1
        } else {
            k + 1
        }
    }
}

/// The record with the given id, if there is one.
pub open spec fn lookup(s: Seq<CaptureRecord>, id: Seq<char>) -> Option<CaptureRecord> {
    let k = index_of(s, id);
    if k >= 0 {
        Some(s[k])
    } else {
        None
    }
}

/// Some job has not finished yet.
pub open spec fn has_active(s: Seq<CaptureRecord>) -> bool {
    exists|i: int| 0 <= i < s.len() && is_active(#[trigger] s[i].status)
}

/// A fresh job, queued at `now`.
pub open spec fn queued_record(id: String, request_json: String, now: Timestamp) -> CaptureRecord {
    CaptureRecord {
        id,
        status: CaptureStatus::Queued,
        request_json,
        camera_model: None,
        saved_path: None,
        source_folder: None,
        source_name: None,
        size_bytes: None,
        checksum: None,
        error: None,
        attempt_count: 0,
        created_at: now,
        started_at: None,
        completed_at: None,
        downloaded_at: None,
    }
}

/// A queue attempt for `id` is refused: a job is still running, or the id is taken.
pub open spec fn insert_refused(s: Seq<CaptureRecord>, id: Seq<char>) -> bool {
    has_active(s) || index_of(s, id) >= 0
}

/// The table after a queue attempt.
pub open spec fn after_insert(
    s: Seq<CaptureRecord>,
    id: String,
    request_json: String,
    now: Timestamp,
) -> Seq<CaptureRecord> {
    if insert_refused(s, id@) {
        s
    } else {
        s.push(queued_record(id, request_json, now))
    }
}

/// `r` moved to `status`; entering `Capturing` also stamps the start time.
pub open spec fn with_status(r: CaptureRecord, status: CaptureStatus, now: Timestamp) -> CaptureRecord {
    if status == CaptureStatus::Capturing {
        CaptureRecord { status, started_at: Some(now), ..r }
    } else {
        CaptureRecord { status, ..r }
    }
}

/// `r` completed with what the camera reported, the file's size and checksum.
pub open spec fn completed_record(
    r: CaptureRecord,
    response: CaptureResponse,
    size_bytes: Option<u64>,
    checksum: Option<String>,
    now: Timestamp,
) -> CaptureRecord {
    CaptureRecord {
        status: CaptureStatus::Complete,
        camera_model: Some(response.camera_model),
        saved_path: Some(response.saved_path),
        source_folder: Some(response.source_folder),
        source_name: Some(response.source_name),
        size_bytes,
        checksum,
        attempt_count: response.attempt_count,
        completed_at: Some(now),
        ..r
    }
}

/// `r` failed with the given error at `now`.
pub open spec fn failed_record(r: CaptureRecord, error: Option<String>, now: Timestamp) -> CaptureRecord {
    CaptureRecord { status: CaptureStatus::Failed, error, completed_at: Some(now), ..r }
}

/// `r` canceled at `now`; only a job that has not finished can be canceled.
pub open spec fn canceled_record(r: CaptureRecord, now: Timestamp) -> CaptureRecord {
    if is_active(r.status) {
        CaptureRecord { status: CaptureStatus::Canceled, completed_at: Some(now), ..r }
    } else {
        r
    }
}

/// `r` marked as fetched by the client at `now`.
pub open spec fn downloaded_record(r: CaptureRecord, now: Timestamp) -> CaptureRecord {
    CaptureRecord { downloaded_at: Some(now), ..r }
}

/// `s` with the record of the given id replaced by `new`, if there is one.
pub open spec fn replace_by_id(s: Seq<CaptureRecord>, id: Seq<char>, new: CaptureRecord) -> Seq<
    CaptureRecord,
> {
    let k = index_of(s, id);
    if k >= 0 {
        s.update(k, new)
    } else {
        s
    }
}

pub proof fn lemma_index_of(s: Seq<CaptureRecord>, id: Seq<char>)
    ensures
        -1 <= index_of(s, id) < s.len(),
        index_of(s, id) >= 0 ==> s[index_of(s, id)].id@ == id,
        index_of(s, id) >= 0 ==> forall|j: int| 0 <= j < index_of(s, id) ==> s[j].id@ != id,
        index_of(s, id) == -1 ==> forall|j: int| 0 <= j < s.len() ==> s[j].id@ != id,
    decreases s.len(),
{
    if s.len() > 0 && s[0].id@ != id {
        lemma_index_of(s.drop_first(), id);
        assert forall|j: int| 0 < j < s.len() implies s[j] == s.drop_first()[j - 1] by {}
    }
}

/// With unique ids, a record whose id matches sits at `index_of`.
pub proof fn lemma_index_of_unique(s: Seq<CaptureRecord>, i: int)
    requires
        ids_unique(s),
        0 <= i < s.len(),
    ensures
        index_of(s, s[i].id@) == i,
{
    lemma_index_of(s, s[i].id@);
}

/// The in-memory table of capture jobs, keyed by id.
pub struct CaptureStore {
    records: Vec<CaptureRecord>,
}

impl View for CaptureStore {
    type V = Seq<CaptureRecord>;

    closed spec fn view(&self) -> Seq<CaptureRecord> {
        self.records@
    }
}

impl CaptureStore {
    /// The table is well formed: ids are unique.
    pub open spec fn wf(&self) -> bool {
        ids_unique(self@)
    }

    /// An empty table.
    pub fn new() -> (r: CaptureStore)
        ensures
            r@ == Seq::<CaptureRecord>::empty(),
            r.wf(),
    {
        CaptureStore { records: Vec::new() }
    }

    /// A table holding `records`, refused when two of them share an id.
    pub fn from_records(records: Vec<CaptureRecord>) -> (r: Option<CaptureStore>)
        ensures
            match r {
                Some(st) => st@ == records@ && st.wf(),
                None => !ids_unique(records@),
            },
    {
        let n = records.len();
        let mut i: usize = 0;
        while i < n
            invariant
                n == records@.len(),
                i <= n,
                forall|a: int, b: int|
                    0 <= a < i && 0 <= b < n && a != b ==> records@[a].id@ != records@[b].id@,
            decreases n - i,
        {
            let mut j: usize = 0;
            while j < n
                invariant
                    n == records@.len(),
                    i < n,
                    j <= n,
                    forall|a: int, b: int|
                        0 <= a < i && 0 <= b < n && a != b ==> records@[a].id@ != records@[b].id@,
                    forall|b: int| 0 <= b < j && b != i ==> records@[i as int].id@ != records@[b].id@,
                decreases n - j,
            {
                if j != i && records[i].id == records[j].id {
                    return None;
                }
                j = j + 1;
            }
            i = i + 1;
        }
        Some(CaptureStore { records })
    }

    /// The records, in the order they were inserted.
    pub fn records(&self) -> (r: &Vec<CaptureRecord>)
        ensures
            r@ == self@,
    {
        &self.records
    }

    /// Position of the record with the given id.
    fn position(&self, id: &str) -> (r: Option<usize>)
        ensures
            match r {
                Some(k) => index_of(self@, id@) == k && k < self@.len(),
                None => index_of(self@, id@) == -1,
            },
    {
        let target = String::from_str(id);
        let mut i: usize = 0;
        while i < self.records.len()
            invariant
                target@ == id@,
                i <= self.records@.len(),
                forall|j: int| 0 <= j < i ==> self.records@[j].id@ != id@,
            decreases self.records@.len() - i,
        {
            if self.records[i].id == target {
                proof {
                    lemma_index_of(self@, id@);
                }
                return Some(i);
            }
            i = i + 1;
        }
        proof {
            lemma_index_of(self@, id@);
        }
        None
    }

    /// Whether some job has not finished yet.
    pub fn has_active_capture(&self) -> (r: bool)
        ensures
            r == has_active(self@),
    {
        let mut i: usize = 0;
        while i < self.records.len()
            invariant
                i <= self.records@.len(),
                forall|j: int| 0 <= j < i ==> !is_active(#[trigger] self.records@[j].status),
            decreases self.records@.len() - i,
        {
            if self.records[i].status.is_in_flight() {
                return true;
            }
            i = i + 1;
        }
        false
    }

    /// The record with the given id.
    pub fn get(&self, id: &str) -> (r: Option<CaptureRecord>)
        ensures
            r == lookup(self@, id@),
    {
        match self.position(id) {
            Some(k) => Some(self.records[k].copy_record()),
            None => None,
        }
    }

    /// Queues a new job, unless some job has not finished yet or the id is taken:
    /// only one capture may run at a time.
    pub fn insert_queued_if_idle(&mut self, id: String, request_json: String, now: Timestamp) -> (r:
        Option<CaptureRecord>)
        requires
            old(self).wf(),
        ensures
            final(self).wf(),
            (has_active(old(self)@) || index_of(old(self)@, id@) >= 0) ==> r is None && final(self)@
                == old(self)@,
            !(has_active(old(self)@) || index_of(old(self)@, id@) >= 0) ==> r == Some(
                queued_record(id, request_json, now),
            ) && final(self)@ == old(self)@.push(queued_record(id, request_json, now)),
            final(self)@ == after_insert(old(self)@, id, request_json, now),
            r is Some <==> !insert_refused(old(self)@, id@),
    {
        if self.has_active_capture() {
            return None;
        }
        if self.position(id.as_str()).is_some() {
            return None;
        }
        proof {
            lemma_index_of(self@, id@);
        }
        let record = CaptureRecord {
            id,
            status: CaptureStatus::Queued,
            request_json,
            camera_model: None,
            saved_path: None,
            source_folder: None,
            source_name: None,
            size_bytes: None,
            checksum: None,
            error: None,
            attempt_count: 0,
            created_at: now,
            started_at: None,
            completed_at: None,
            downloaded_at: None,
        };
        let copy = record.copy_record();
        self.records.push(record);
        Some(copy)
    }

    /// Puts `new` in place of the record at position `k`, which has the same id.
    fn replace_at(&mut self, k: usize, new: CaptureRecord)
        requires
            old(self).wf(),
            k < old(self)@.len(),
            new.id@ == old(self)@[k as int].id@,
        ensures
            final(self).wf(),
            final(self)@ == old(self)@.update(k as int, new),
    {
        self.records.set(k, new);
    }

    /// Moves the job with the given id to `status`; entering `Capturing` stamps
    /// the start time. Nothing changes when no job has that id.
    pub fn set_status(&mut self, id: &str, status: CaptureStatus, now: Timestamp)
        requires
            old(self).wf(),
        ensures
            final(self).wf(),
            final(self)@ == replace_by_id(
                old(self)@,
                id@,
                with_status(old(self)@[index_of(old(self)@, id@)], status, now),
            ),
    {
        if let Some(k) = self.position(id) {
            let mut r = self.records[k].copy_record();
            r.status = status;
            if status == CaptureStatus::Capturing {
                r.started_at = Some(now);
            }
            self.replace_at(k, r);
        }
    }

    /// Records a finished capture: what the camera reported, with the saved
    /// file's size and checksum. Nothing changes when no job has that id.
    pub fn set_complete(
        &mut self,
        id: &str,
        response: CaptureResponse,
        size_bytes: Option<u64>,
        checksum: Option<String>,
        now: Timestamp,
    )
        requires
            old(self).wf(),
        ensures
            final(self).wf(),
            final(self)@ == replace_by_id(
                old(self)@,
                id@,
                completed_record(
                    old(self)@[index_of(old(self)@, id@)],
                    response,
                    size_bytes,
                    checksum,
                    now,
                ),
            ),
    {
        if let Some(k) = self.position(id) {
            let mut r = self.records[k].copy_record();
            r.status = CaptureStatus::Complete;
            r.camera_model = Some(response.camera_model);
            r.saved_path = Some(response.saved_path);
            r.source_folder = Some(response.source_folder);
            r.source_name = Some(response.source_name);
            r.size_bytes = size_bytes;
            r.checksum = checksum;
            r.attempt_count = response.attempt_count;
            r.completed_at = Some(now);
            self.replace_at(k, r);
        }
    }

    /// Records that the job failed with `message`. Nothing changes when no job
    /// has that id.
    pub fn set_failed(&mut self, id: &str, message: String, now: Timestamp)
        requires
            old(self).wf(),
        ensures
            final(self).wf(),
            final(self)@ == replace_by_id(
                old(self)@,
                id@,
                failed_record(old(self)@[index_of(old(self)@, id@)], Some(message), now),
            ),
    {
        if let Some(k) = self.position(id) {
            let mut r = self.records[k].copy_record();
            r.status = CaptureStatus::Failed;
            r.error = Some(message);
            r.completed_at = Some(now);
            self.replace_at(k, r);
        }
    }

    /// Cancels the job with the given id if it has not finished yet; a finished
    /// job keeps its outcome.
    pub fn set_canceled(&mut self, id: &str, now: Timestamp)
        requires
            old(self).wf(),
        ensures
            final(self).wf(),
            final(self)@ == replace_by_id(
                old(self)@,
                id@,
                canceled_record(old(self)@[index_of(old(self)@, id@)], now),
            ),
    {
        if let Some(k) = self.position(id) {
            if self.records[k].status.is_in_flight() {
                let mut r = self.records[k].copy_record();
                r.status = CaptureStatus::Canceled;
                r.completed_at = Some(now);
                self.replace_at(k, r);
            } else {
                proof {
                    assert(old(self)@.update(k as int, old(self)@[k as int]) =~= old(self)@);
                }
            }
        }
    }

    /// Stamps the time at which the client fetched the job's file. Nothing
    /// changes when no job has that id.
    pub fn mark_downloaded(&mut self, id: &str, now: Timestamp)
        requires
            old(self).wf(),
        ensures
            final(self).wf(),
            final(self)@ == replace_by_id(
                old(self)@,
                id@,
                downloaded_record(old(self)@[index_of(old(self)@, id@)], now),
            ),
    {
        if let Some(k) = self.position(id) {
            let mut r = self.records[k].copy_record();
            r.downloaded_at = Some(now);
            self.replace_at(k, r);
        }
    }

    /// Removes the job with the given id and hands it back.
    pub fn delete(&mut self, id: &str) -> (r: Option<CaptureRecord>)
        requires
            old(self).wf(),
        ensures
            final(self).wf(),
            r == lookup(old(self)@, id@),
            index_of(old(self)@, id@) >= 0 ==> final(self)@ == old(self)@.remove(
                index_of(old(self)@, id@),
            ),
            index_of(old(self)@, id@) < 0 ==> final(self)@ == old(self)@,
    {
        match self.position(id) {
            Some(k) => {
                let r = self.records.remove(k);
                proof {
                    let s = old(self)@;
                    let t = self@;
                    assert forall|i: int, j: int|
                        0 <= i < t.len() && 0 <= j < t.len() && i != j implies t[i].id@
                        != t[j].id@ by {
                        let i0 = if i < k { i } else { i + 1 };
                        let j0 = if j < k { j } else { j + 1 };
                        assert(t[i] == s[i0]);
                        assert(t[j] == s[j0]);
                    }
                }
                Some(r)
            },
            None => None,
        }
    }

    /// Takes in what the camera returned for the job with the given id. A
    /// capture moves the job to `Downloading` and is handed back, so that its
    /// file's size and checksum can be taken before `set_complete`; a failure
    /// fails the job with the error's text.
    pub fn record_capture_outcome(
        &mut self,
        id: &str,
        outcome: Result<CaptureResponse, ApiError>,
        now: Timestamp,
    ) -> (r: Option<CaptureResponse>)
        requires
            old(self).wf(),
        ensures
            final(self).wf(),
            match outcome {
                Ok(resp) => r == Some(resp) && final(self)@ == replace_by_id(
                    old(self)@,
                    id@,
                    with_status(
                        old(self)@[index_of(old(self)@, id@)],
                        CaptureStatus::Downloading,
                        now,
                    ),
                ),
                Err(e) => r is None && index_of(final(self)@, id@) == index_of(old(self)@, id@)
                    && (index_of(old(self)@, id@) < 0 ==> final(self)@ == old(self)@)
                    && (index_of(old(self)@, id@) >= 0 ==> {
                    let k = index_of(old(self)@, id@);
                    &&& final(self)@.len() == old(self)@.len()
                    &&& forall|j: int| 0 <= j < old(self)@.len() && j != k ==> #[trigger] final(self)@[j]
                        == old(self)@[j]
                    &&& final(self)@[k] == failed_record(old(self)@[k], final(self)@[k].error, now)
                    &&& final(self)@[k].error matches Some(m) && m@ == error_message(e)
                }),
            },
    {
        match outcome {
            Ok(response) => {
                self.set_status(id, CaptureStatus::Downloading, now);
                Some(response)
            },
            Err(error) => {
                proof {
                    lemma_index_of(self@, id@);
                }
                self.set_failed(id, error.message(), now);
                proof {
                    let k = index_of(old(self)@, id@);
                    if k >= 0 {
                        lemma_index_of_unique(self@, k);
                    } else {
                        lemma_index_of(self@, id@);
                    }
                }
                None
            },
        }
    }

    /// Fails every job that has not finished yet, with `reason`: the state
    /// after a restart, when no capture can still be running.
    pub fn mark_inflight_as_failed(&mut self, reason: &str, now: Timestamp)
        requires
            old(self).wf(),
        ensures
            final(self).wf(),
            final(self)@.len() == old(self)@.len(),
            forall|i: int|
                0 <= i < old(self)@.len() ==> inflight_failed(
                    old(self)@[i],
                    #[trigger] final(self)@[i],
                    reason@,
                    now,
                ),
    {
        let n = self.records.len();
        let mut i: usize = 0;
        while i < n
            invariant
                n == old(self)@.len(),
                n == self@.len(),
                i <= n,
                self.wf(),
                forall|j: int| 0 <= j < i ==> inflight_failed(old(self)@[j], #[trigger] self@[j], reason@, now),
                forall|j: int| i <= j < n ==> #[trigger] self@[j] == old(self)@[j],
            decreases n - i,
        {
            if self.records[i].status.is_in_flight() {
                let mut r = self.records[i].copy_record();
                r.status = CaptureStatus::Failed;
                r.error = Some(String::from_str(reason));
                r.completed_at = Some(now);
                self.replace_at(i, r);
            }
            i = i + 1;
        }
    }
}

/// `new` is what marking in-flight jobs as failed makes of `old`.
pub open spec fn inflight_failed(old: CaptureRecord, new: CaptureRecord, reason: Seq<char>, now: Timestamp) -> bool {
    if is_active(old.status) {
        &&& new == failed_record(old, new.error, now)
        &&& new.error matches Some(e) && e@ == reason
    } else {
        new == old
    }
}

// ---------------------------------------------------------------------------
// Listing
// ---------------------------------------------------------------------------

/// The cursor of a listing: the creation time of the job named by `after`,
/// when there is such a job. Jobs strictly younger than it are listed; an
/// unknown id sets no bound.
pub open spec fn list_threshold(s: Seq<CaptureRecord>, after: Option<Seq<char>>) -> Option<Timestamp> {
    match after {
        Some(a) => match lookup(s, a) {
            Some(r) => Some(r.created_at),
            None => None,
        },
        None => None,
    }
}

/// The text of an optional string slice.
pub open spec fn str_opt_view(o: Option<&str>) -> Option<Seq<char>> {
    match o {
        Some(a) => Some(a@),
        None => None,
    }
}

/// `r` passes the status filter and the cursor.
pub open spec fn is_listed(r: CaptureRecord, status: Option<CaptureStatus>, threshold: Option<Timestamp>) -> bool {
    &&& (status matches Some(st) ==> r.status == st)
    &&& (threshold matches Some(t) ==> ts_before(t, r.created_at))
}

/// The records of `s` that pass the filter and the cursor, in table order.
pub open spec fn listed_records(
    s: Seq<CaptureRecord>,
    status: Option<CaptureStatus>,
    threshold: Option<Timestamp>,
) -> Seq<CaptureRecord>
    decreases s.len(),
{
    if s.len() == 0 {
        Seq::empty()
    } else {
        let rest = listed_records(s.drop_last(), status, threshold);
        if is_listed(s.last(), status, threshold) {
            rest.push(s.last())
        } else {
            rest
        }
    }
}

/// Oldest first: no record was created before one that precedes it.
pub open spec fn created_sorted(s: Seq<CaptureRecord>) -> bool {
    forall|i: int, j: int| 0 <= i < j < s.len() ==> !ts_before(s[j].created_at, s[i].created_at)
}

/// How many of `n` matching records a page of size `limit` holds. A limit
/// beyond the largest signed 64-bit value sets no bound.
pub open spec fn page_len(limit: usize, n: nat) -> nat {
    if limit as int > i64::MAX as int {
        n
    } else if (limit as nat) < n {
        limit as nat
    } else {
        n
    }
}

/// `all` holds the records of `m`, oldest first.
pub open spec fn is_created_order_of(all: Seq<CaptureRecord>, m: Seq<CaptureRecord>) -> bool {
    created_sorted(all) && all.to_multiset() == m.to_multiset()
}

proof fn lemma_insert_multiset<A>(s: Seq<A>, p: int, x: A)
    requires
        0 <= p <= s.len(),
    ensures
        s.insert(p, x).to_multiset() =~= s.to_multiset().insert(x),
{
    broadcast use vstd::seq_lib::group_to_multiset_ensures;
    broadcast use vstd::multiset::group_multiset_axioms;

    let t = s.insert(p, x);
    assert(t.remove(p) =~= s);
    assert(t[p] == x);
    assert(t.contains(x));
    assert(t.to_multiset().count(x) > 0);
}

// ---------------------------------------------------------------------------
// Retention
// ---------------------------------------------------------------------------

/// The client fetched `r` strictly before `cutoff`.
pub open spec fn downloaded_before(r: CaptureRecord, cutoff: Timestamp) -> bool {
    r.downloaded_at matches Some(d) && ts_before(d, cutoff)
}

/// The records a sweep at `cutoff` keeps, in table order.
pub open spec fn kept_after_sweep(s: Seq<CaptureRecord>, cutoff: Timestamp) -> Seq<CaptureRecord>
    decreases s.len(),
{
    if s.len() == 0 {
        Seq::empty()
    } else {
        let rest = kept_after_sweep(s.drop_last(), cutoff);
        if downloaded_before(s.last(), cutoff) {
            rest
        } else {
            rest.push(s.last())
        }
    }
}

/// The records a sweep at `cutoff` removes, in table order.
pub open spec fn swept_records(s: Seq<CaptureRecord>, cutoff: Timestamp) -> Seq<CaptureRecord>
    decreases s.len(),
{
    if s.len() == 0 {
        Seq::empty()
    } else {
        let rest = swept_records(s.drop_last(), cutoff);
        if downloaded_before(s.last(), cutoff) {
            rest.push(s.last())
        } else {
            rest
        }
    }
}

/// The cutoff of a sweep: `retention_secs` seconds before `now`.
pub open spec fn retention_cutoff(now: Timestamp, retention_secs: u64) -> Timestamp {
    Timestamp { secs: (now.secs - retention_secs) as i64, nanos: now.nanos }
}

/// `now` and the cutoff both lie well within the dates that `chrono` can
/// represent (about 250,000 years either side of 1970), so the cutoff exists.
pub open spec fn in_sweep_window(now: Timestamp, retention_secs: u64) -> bool {
    &&& now.nanos < 1_000_000_000
    &&& -8_000_000_000_000 <= now.secs <= 8_000_000_000_000
    &&& -8_000_000_000_000 <= now.secs - retention_secs
}

/// Every record of `kept_after_sweep(s, cutoff)` is one of `s`, at a later or
/// equal position.
proof fn lemma_kept_from(s: Seq<CaptureRecord>, cutoff: Timestamp)
    ensures
        kept_after_sweep(s, cutoff).len() <= s.len(),
        forall|i: int|
            0 <= i < kept_after_sweep(s, cutoff).len() ==> exists|j: int|
                i <= j < s.len() && s[j] == #[trigger] kept_after_sweep(s, cutoff)[i],
        ids_unique(s) ==> ids_unique(kept_after_sweep(s, cutoff)),
    decreases s.len(),
{
    if s.len() > 0 {
        let s0 = s.drop_last();
        lemma_kept_from(s0, cutoff);
        let k0 = kept_after_sweep(s0, cutoff);
        let k = kept_after_sweep(s, cutoff);
        assert forall|i: int| 0 <= i < k.len() implies exists|j: int|
            i <= j < s.len() && s[j] == #[trigger] k[i] by {
            if i < k0.len() {
                let j = choose|j: int| i <= j < s0.len() && s0[j] == #[trigger] k0[i];
                assert(s[j] == k[i]);
            } else {
                assert(s[s.len() - 1] == k[i]);
            }
        }
        if ids_unique(s) {
            assert(ids_unique(s0));
            assert forall|a: int, b: int|
                0 <= a < k.len() && 0 <= b < k.len() && a != b implies k[a].id@ != k[b].id@ by {
                if a < k0.len() && b < k0.len() {
                } else if a < k0.len() {
                    let j = choose|j: int| a <= j < s0.len() && s0[j] == #[trigger] k0[a];
                    assert(s[j] == k[a]);
                    assert(k[b] == s[s.len() - 1]);
                } else if b < k0.len() {
                    let j = choose|j: int| b <= j < s0.len() && s0[j] == #[trigger] k0[b];
                    assert(s[j] == k[b]);
                    assert(k[a] == s[s.len() - 1]);
                }
            }
        }
    }
}

/// Takes the `retention_secs`-before-`now` cutoff with `chrono`, as
/// `DateTime::<Utc>::from_timestamp(now)` minus `TimeDelta::try_seconds`,
/// through `checked_sub_signed`. Claimed: a cutoff it returns for a
/// non-leap-second `now` lies exactly `retention_secs` seconds earlier, with
/// the same nanoseconds; and it returns one whenever `now` and the cutoff lie
/// within about 250,000 years of 1970, which `chrono`'s date range
/// (years -262143 to 262142) and `TimeDelta`'s bound (`i64::MAX` ms) cover.
/// Not claimed: which cutoff it returns for a leap-second `now`, and whether
/// it returns one outside that window.
#[verifier::external_body]
fn chrono_cutoff(now: Timestamp, retention_secs: u64) -> (r: Option<Timestamp>)
    ensures
        now.nanos < 1_000_000_000 ==> (r matches Some(t) ==> t == retention_cutoff(now, retention_secs)),
        in_sweep_window(now, retention_secs) ==> r is Some,
{
    let now_dt = chrono::DateTime::<chrono::Utc>::from_timestamp(now.secs, now.nanos)?;
    let delta = chrono::TimeDelta::try_seconds(retention_secs as i64)?;
    let cutoff = now_dt.checked_sub_signed(delta)?;
    Some(Timestamp { secs: cutoff.timestamp(), nanos: cutoff.timestamp_subsec_nanos() })
}

impl CaptureStore {
    /// A page of jobs: those with the given status (any status when `None`),
    /// created strictly after the job named by `after` (no bound when there is
    /// no such job), oldest first, at most `limit` of them.
    pub fn list(&self, status: Option<CaptureStatus>, limit: usize, after: Option<&str>) -> (r: Vec<
        CaptureRecord,
    >)
        ensures
            exists|all: Seq<CaptureRecord>|
                #[trigger] is_created_order_of(
                    all,
                    listed_records(self@, status, list_threshold(self@, str_opt_view(after))),
                ) && r@ == all.take(
                    page_len(
                        limit,
                        listed_records(self@, status, list_threshold(self@, str_opt_view(after))).len(),
                    ) as int,
                ),
    {
        let threshold: Option<Timestamp> = match after {
            Some(a) => match self.position(a) {
                Some(k) => Some(self.records[k].created_at),
                None => None,
            },
            None => None,
        };
        let ghost m_spec = listed_records(self@, status, threshold);
        let mut m: Vec<CaptureRecord> = Vec::new();
        let n = self.records.len();
        let mut i: usize = 0;
        while i < n
            invariant
                n == self@.len(),
                i <= n,
                m@ == listed_records(self@.subrange(0, i as int), status, threshold),
            decreases n - i,
        {
            let rec = &self.records[i];
            let status_ok = match status {
                Some(st) => rec.status == st,
                None => true,
            };
            let cursor_ok = match threshold {
                Some(t) => t.is_before(&rec.created_at),
                None => true,
            };
            proof {
                assert(self@.subrange(0, i + 1).drop_last() =~= self@.subrange(0, i as int));
                assert(self@.subrange(0, i + 1).last() == self@[i as int]);
            }
            if status_ok && cursor_ok {
                m.push(rec.copy_record());
            }
            i = i + 1;
        }
        proof {
            assert(self@.subrange(0, n as int) =~= self@);
        }
        let mut out: Vec<CaptureRecord> = Vec::new();
        assert(out@ =~= m@.subrange(0, 0));
        let mut j: usize = 0;
        while j < m.len()
            invariant
                j <= m@.len(),
                created_sorted(out@),
                out@.to_multiset() == m@.subrange(0, j as int).to_multiset(),
            decreases m@.len() - j,
        {
            let x = m[j].copy_record();
            let mut p: usize = 0;
            while p < out.len() && !x.created_at.is_before(&out[p].created_at)
                invariant
                    p <= out@.len(),
                    forall|q: int| 0 <= q < p ==> !ts_before(x.created_at, #[trigger] out@[q].created_at),
                decreases out@.len() - p,
            {
                p = p + 1;
            }
            proof {
                let o = out@;
                let t = o.insert(p as int, x);
                assert forall|a: int, b: int| 0 <= a < b < t.len() implies !ts_before(
                    t[b].created_at,
                    t[a].created_at,
                ) by {
                    if b < p {
                        assert(t[a] == o[a] && t[b] == o[b]);
                        assert(!ts_before(o[b].created_at, o[a].created_at));
                    } else if b == p {
                        assert(t[a] == o[a] && t[b] == x);
                        assert(!ts_before(x.created_at, o[a].created_at));
                    } else if a < p {
                        assert(t[a] == o[a] && t[b] == o[b - 1]);
                        assert(!ts_before(o[b - 1].created_at, o[a].created_at));
                    } else if a == p {
                        assert(t[a] == x && t[b] == o[b - 1]);
                        assert(ts_before(x.created_at, o[p as int].created_at));
                        assert(!ts_before(o[b - 1].created_at, o[p as int].created_at));
                    } else {
                        assert(t[a] == o[a - 1] && t[b] == o[b - 1]);
                        assert(!ts_before(o[b - 1].created_at, o[a - 1].created_at));
                    }
                }
                lemma_insert_multiset(o, p as int, x);
                broadcast use vstd::seq_lib::group_to_multiset_ensures;
                assert(m@.subrange(0, j + 1) =~= m@.subrange(0, j as int).push(m@[j as int]));
            }
            out.insert(p, x);
            j = j + 1;
        }
        proof {
            assert(m@.subrange(0, m@.len() as int) =~= m@);
            broadcast use vstd::seq_lib::group_to_multiset_ensures;
            assert(out@.to_multiset().len() == out@.len());
            assert(m@.to_multiset().len() == m@.len());
            assert(out@.len() == m@.len());
        }
        let k: usize = if limit as u128 > 0x7fff_ffff_ffff_ffffu128 {
            out.len()
        } else if limit < out.len() {
            limit
        } else {
            out.len()
        };
        let mut r: Vec<CaptureRecord> = Vec::new();
        let mut q: usize = 0;
        while q < k
            invariant
                k <= out@.len(),
                q <= k,
                r@ == out@.subrange(0, q as int),
            decreases k - q,
        {
            r.push(out[q].copy_record());
            q = q + 1;
        }
        assert(is_created_order_of(out@, m_spec));
        assert(r@ == out@.take(k as int));
        r
    }

    /// Removes every job whose file the client fetched strictly before
    /// `cutoff`, and hands the removed jobs back (their files are to go too).
    pub fn sweep_downloaded_before(&mut self, cutoff: Timestamp) -> (r: Vec<CaptureRecord>)
        requires
            old(self).wf(),
        ensures
            final(self).wf(),
            final(self)@ == kept_after_sweep(old(self)@, cutoff),
            r@ == swept_records(old(self)@, cutoff),
    {
        let ghost s = self@;
        let n = self.records.len();
        let mut kept: Vec<CaptureRecord> = Vec::new();
        let mut removed: Vec<CaptureRecord> = Vec::new();
        let mut i: usize = 0;
        while i < n
            invariant
                s == self@,
                n == s.len(),
                i <= n,
                kept@ == kept_after_sweep(s.subrange(0, i as int), cutoff),
                removed@ == swept_records(s.subrange(0, i as int), cutoff),
            decreases n - i,
        {
            let rec = self.records[i].copy_record();
            let gone = match rec.downloaded_at {
                Some(d) => d.is_before(&cutoff),
                None => false,
            };
            proof {
                assert(s.subrange(0, i + 1).drop_last() =~= s.subrange(0, i as int));
                assert(s.subrange(0, i + 1).last() == s[i as int]);
            }
            if gone {
                removed.push(rec);
            } else {
                kept.push(rec);
            }
            i = i + 1;
        }
        proof {
            assert(s.subrange(0, n as int) =~= s);
            lemma_kept_from(s, cutoff);
        }
        self.records = kept;
        removed
    }

    /// The retention sweep: removes every job whose file the client fetched
    /// more than `retention_secs` seconds before `now`, and hands the removed
    /// jobs back. When `chrono` cannot represent the cutoff nothing is removed.
    pub fn sweep_downloaded_older_than(&mut self, retention_secs: u64, now: Timestamp) -> (r: Vec<
        CaptureRecord,
    >)
        requires
            old(self).wf(),
        ensures
            final(self).wf(),
            in_sweep_window(now, retention_secs) ==> final(self)@ == kept_after_sweep(
                old(self)@,
                retention_cutoff(now, retention_secs),
            ) && r@ == swept_records(old(self)@, retention_cutoff(now, retention_secs)),
            !in_sweep_window(now, retention_secs) ==> (final(self)@ == old(self)@ && r@.len() == 0)
                || exists|t: Timestamp|
                (now.nanos < 1_000_000_000 ==> t == retention_cutoff(now, retention_secs))
                    && final(self)@ == #[trigger] kept_after_sweep(old(self)@, t) && r@
                    == swept_records(old(self)@, t),
    {
        match chrono_cutoff(now, retention_secs) {
            Some(cutoff) => self.sweep_downloaded_before(cutoff),
            None => Vec::new(),
        }
    }
}

// ---------------------------------------------------------------------------
// Stored texts
// ---------------------------------------------------------------------------

/// How a status is stored.
pub open spec fn status_text(status: CaptureStatus) -> Seq<char> {
    match status {
        CaptureStatus::Queued => "queued"@,
        CaptureStatus::Capturing => "capturing"@,
        CaptureStatus::Downloading => "downloading"@,
        CaptureStatus::Complete => "complete"@,
        CaptureStatus::Failed => "failed"@,
        CaptureStatus::Canceled => "canceled"@,
    }
}

/// The status a stored text names; an unknown text reads as `Failed`.
pub open spec fn status_of_text(s: Seq<char>) -> CaptureStatus {
    if s == "queued"@ {
        CaptureStatus::Queued
    } else if s == "capturing"@ {
        CaptureStatus::Capturing
    } else if s == "downloading"@ {
        CaptureStatus::Downloading
    } else if s == "complete"@ {
        CaptureStatus::Complete
    } else if s == "failed"@ {
        CaptureStatus::Failed
    } else if s == "canceled"@ {
        CaptureStatus::Canceled
    } else {
        CaptureStatus::Failed
    }
}

/// How a status is stored.
pub fn status_to_str(status: CaptureStatus) -> (r: String)
    ensures
        r@ == status_text(status),
{
    let s: &str = match status {
        CaptureStatus::Queued => "queued",
        CaptureStatus::Capturing => "capturing",
        CaptureStatus::Downloading => "downloading",
        CaptureStatus::Complete => "complete",
        CaptureStatus::Failed => "failed",
        CaptureStatus::Canceled => "canceled",
    };
    String::from_str(s)
}

/// The status a stored text names; an unknown text reads as `Failed`.
pub fn status_from_str(status: &str) -> (r: CaptureStatus)
    ensures
        r == status_of_text(status@),
{
    let v = chars_of(status);
    if is_word(&v, "queued") {
        CaptureStatus::Queued
    } else if is_word(&v, "capturing") {
        CaptureStatus::Capturing
    } else if is_word(&v, "downloading") {
        CaptureStatus::Downloading
    } else if is_word(&v, "complete") {
        CaptureStatus::Complete
    } else if is_word(&v, "failed") {
        CaptureStatus::Failed
    } else if is_word(&v, "canceled") {
        CaptureStatus::Canceled
    } else {
        CaptureStatus::Failed
    }
}

/// Reading back a stored status gives the status that was stored.
pub proof fn lemma_status_text_round_trip(status: CaptureStatus)
    ensures
        status_of_text(status_text(status)) == status,
{
    reveal_strlit("queued");
    reveal_strlit("capturing");
    reveal_strlit("downloading");
    reveal_strlit("complete");
    reveal_strlit("failed");
    reveal_strlit("canceled");
    assert("queued"@.len() == 6 && "queued"@[0] == 'q');
    assert("capturing"@.len() == 9);
    assert("downloading"@.len() == 11);
    assert("complete"@.len() == 8 && "complete"@[1] == 'o');
    assert("failed"@.len() == 6 && "failed"@[0] == 'f');
    assert("canceled"@.len() == 8 && "canceled"@[1] == 'a');
}

/// The instant an RFC 3339 text names, as `chrono` reads it; `None` for a text
/// it does not accept.
pub uninterp spec fn rfc3339_instant(text: Seq<char>) -> Option<Timestamp>;

/// The RFC 3339 text `chrono` writes for the instant `secs` seconds and
/// `nanos` nanoseconds after 1970 (UTC); `None` when `chrono` cannot represent
/// that instant.
pub uninterp spec fn rfc3339_text(secs: i64, nanos: u32) -> Option<Seq<char>>;

/// Calls `chrono::DateTime::parse_from_rfc3339` and reads the instant back as
/// seconds and nanoseconds after 1970. Claimed: the result is the named
/// function of the text.
#[verifier::external_body]
fn parse_rfc3339(text: &str) -> (r: Option<Timestamp>)
    ensures
        r == rfc3339_instant(text@),
{
    match chrono::DateTime::parse_from_rfc3339(text) {
        Ok(dt) => Some(Timestamp { secs: dt.timestamp(), nanos: dt.timestamp_subsec_nanos() }),
        Err(_) => None,
    }
}

/// Calls `chrono::DateTime::<Utc>::to_rfc3339` on the instant, built with
/// `DateTime::from_timestamp`. Claimed: the text is the named function of the
/// instant, and there is none exactly when the name has none.
#[verifier::external_body]
fn format_rfc3339(at: Timestamp) -> (r: Option<String>)
    ensures
        match r {
            Some(t) => rfc3339_text(at.secs, at.nanos) == Some(t@),
            None => rfc3339_text(at.secs, at.nanos) is None,
        },
{
    match chrono::DateTime::<chrono::Utc>::from_timestamp(at.secs, at.nanos) {
        Some(dt) => Some(dt.to_rfc3339()),
        None => None,
    }
}

/// A stored time: the instant its RFC 3339 text names, or `fallback` (the
/// current time) when the text does not read as one.
pub fn parse_datetime(text: &str, fallback: Timestamp) -> (r: Timestamp)
    ensures
        r == match rfc3339_instant(text@) {
            Some(t) => t,
            None => fallback,
        },
{
    match parse_rfc3339(text) {
        Some(t) => t,
        None => fallback,
    }
}

/// How a time is stored: its RFC 3339 text, or an empty text for an instant
/// that cannot be represented.
pub fn format_datetime(at: Timestamp) -> (r: String)
    ensures
        r@ == match rfc3339_text(at.secs, at.nanos) {
            Some(t) => t,
            None => Seq::empty(),
        },
{
    match format_rfc3339(at) {
        Some(t) => t,
        None => String::new(),
    }
}

// ---------------------------------------------------------------------------
// Checksums
// ---------------------------------------------------------------------------

/// The SHA-256 digest of `data`, as the `sha2` crate computes it.
pub uninterp spec fn sha256(data: Seq<u8>) -> Seq<u8>;

/// Calls `sha2::Sha256::digest`. Claimed: the digest is the named function of
/// the input bytes, and it is 32 bytes long (`Sha256`'s output size).
#[verifier::external_body]
fn sha256_digest(data: &[u8]) -> (r: Vec<u8>)
    ensures
        r@ == sha256(data@),
        r@.len() == 32,
{
    sha2::Sha256::digest(data).to_vec()
}

/// The checksum stored for a saved file: the SHA-256 digest of its contents,
/// in lower-case hexadecimal.
pub fn sha256_hex(data: &[u8]) -> (r: String)
    ensures
        r@ == hex_lower(sha256(data@)),
        r@.len() == 64,
{
    let digest = sha256_digest(data);
    to_hex_lower(&digest)
}

} // verus!

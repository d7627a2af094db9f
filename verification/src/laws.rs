use vstd::prelude::*;

use crate::capture_store::{
    canceled_record, downloaded_before, has_active, ids_unique, index_of, inflight_failed,
    kept_after_sweep, lemma_index_of, lookup, queued_record, replace_by_id, status_of_text,
    status_text, swept_records,
};
use crate::capture_store::{after_insert, insert_refused, page_len};
use crate::capture_flow::{
    candidate_count, error_view_of_outcome, failure, next_stage, unsupported_view, CaptureFlow,
    FlowStage, StepOutcome,
};
use crate::handlers::{min_u64, page_limit_spec, sat_sub, single_range};
use crate::text::{
    decimal, find, lemma_decimal_parses, lemma_find_scan, lemma_parsed_has_no_sign_or_comma,
    parse_unsigned,
};
use crate::models::{is_active, CaptureRecord, CaptureStatus, Timestamp};

verus! {

/// Only one capture runs at a time: a job is queued only when no job is
/// running, and right after that the new job is the only one running.
pub proof fn law_queued_job_is_the_only_active(
    s: Seq<CaptureRecord>,
    id: String,
    request_json: String,
    now: Timestamp,
)
    requires
        !has_active(s),
    ensures
        forall|i: int|
            0 <= i < s.len() + 1 ==> (is_active(
                #[trigger] s.push(queued_record(id, request_json, now))[i].status,
            ) <==> i == s.len()),
{
    assert forall|i: int| 0 <= i < s.len() + 1 implies (is_active(
        #[trigger] s.push(queued_record(id, request_json, now))[i].status,
    ) <==> i == s.len()) by {
        if i < s.len() {
            assert(s.push(queued_record(id, request_json, now))[i] == s[i]);
        }
    }
}

/// A write to one job is what a read of that job gives back afterwards, and
/// every other job reads as before.
pub proof fn law_read_after_write(s: Seq<CaptureRecord>, id: Seq<char>, new: CaptureRecord)
    requires
        ids_unique(s),
        index_of(s, id) >= 0,
        new.id@ == id,
    ensures
        lookup(replace_by_id(s, id, new), id) == Some(new),
        forall|other: Seq<char>|
            other != id ==> #[trigger] lookup(replace_by_id(s, id, new), other) == lookup(s, other),
        ids_unique(replace_by_id(s, id, new)),
{
    let k = index_of(s, id);
    lemma_index_of(s, id);
    let t = s.update(k, new);
    lemma_index_of(t, id);
    assert(t[k].id@ == id);
    let a = index_of(t, id);
    if a >= 0 && a < k {
        assert(t[a] == s[a]);
    }
    assert(a == k);
    assert forall|other: Seq<char>| other != id implies #[trigger] lookup(t, other) == lookup(
        s,
        other,
    ) by {
        lemma_index_of(t, other);
        lemma_index_of(s, other);
        let a = index_of(t, other);
        let b = index_of(s, other);
        if a >= 0 {
            assert(a != k);
            assert(t[a] == s[a]);
            if b >= 0 && b != a {
                if b < a {
                    assert(t[b] == s[b]);
                } else {
                    assert(s[a].id@ == other);
                }
            }
        } else if b >= 0 {
            assert(b != k);
            assert(t[b] == s[b]);
        }
    }
}

/// A deleted job can no longer be read, and the other jobs keep their ids
/// unique.
pub proof fn law_deleted_job_is_gone(s: Seq<CaptureRecord>, id: Seq<char>)
    requires
        ids_unique(s),
        index_of(s, id) >= 0,
    ensures
        lookup(s.remove(index_of(s, id)), id) is None,
{
    let k = index_of(s, id);
    lemma_index_of(s, id);
    let t = s.remove(k);
    lemma_index_of(t, id);
    if index_of(t, id) >= 0 {
        let j = index_of(t, id);
        if j < k {
            assert(t[j] == s[j]);
        } else {
            assert(t[j] == s[j + 1]);
        }
    }
}

/// Canceling never changes the outcome of a finished job, and always stops a
/// running one.
pub proof fn law_cancel_only_stops_running_jobs(r: CaptureRecord, now: Timestamp)
    ensures
        !is_active(r.status) ==> canceled_record(r, now) == r,
        is_active(r.status) ==> canceled_record(r, now).status == CaptureStatus::Canceled
            && canceled_record(r, now).completed_at == Some(now),
{
}

/// After a restart has failed the jobs that were in flight, no job is running.
pub proof fn law_no_job_runs_after_restart(
    old: Seq<CaptureRecord>,
    new: Seq<CaptureRecord>,
    reason: Seq<char>,
    now: Timestamp,
)
    requires
        new.len() == old.len(),
        forall|i: int| 0 <= i < old.len() ==> inflight_failed(old[i], #[trigger] new[i], reason, now),
    ensures
        !has_active(new),
{
    assert forall|i: int| 0 <= i < new.len() implies !is_active(#[trigger] new[i].status) by {
        assert(inflight_failed(old[i], new[i], reason, now));
    }
}

/// A sweep splits the jobs in two: it removes exactly those fetched before
/// the cutoff and keeps all the others.
pub proof fn law_sweep_partitions(s: Seq<CaptureRecord>, cutoff: Timestamp)
    ensures
        kept_after_sweep(s, cutoff).len() + swept_records(s, cutoff).len() == s.len(),
        forall|i: int|
            0 <= i < kept_after_sweep(s, cutoff).len() ==> !downloaded_before(
                #[trigger] kept_after_sweep(s, cutoff)[i],
                cutoff,
            ),
        forall|i: int|
            0 <= i < swept_records(s, cutoff).len() ==> downloaded_before(
                #[trigger] swept_records(s, cutoff)[i],
                cutoff,
            ),
    decreases s.len(),
{
    if s.len() > 0 {
        law_sweep_partitions(s.drop_last(), cutoff);
        let k0 = kept_after_sweep(s.drop_last(), cutoff);
        let w0 = swept_records(s.drop_last(), cutoff);
        let k = kept_after_sweep(s, cutoff);
        let w = swept_records(s, cutoff);
        assert forall|i: int| 0 <= i < k.len() implies !downloaded_before(#[trigger] k[i], cutoff) by {
            if i < k0.len() {
                assert(k[i] == k0[i]);
            }
        }
        assert forall|i: int| 0 <= i < w.len() implies downloaded_before(#[trigger] w[i], cutoff) by {
            if i < w0.len() {
                assert(w[i] == w0[i]);
            }
        }
    }
}

/// Reading back a stored status gives the status that was stored.
pub proof fn law_status_text_round_trip(status: CaptureStatus)
    ensures
        status_of_text(status_text(status)) == status,
{
    crate::capture_store::lemma_status_text_round_trip(status);
}

/// A byte range served from a non-empty file ends within the file, and starts
/// no later than it ends, unless the header asked for the last zero bytes, in
/// which case it starts just past the end.
pub proof fn law_range_within_file(h: Seq<char>, size: u64)
    requires
        size > 0,
    ensures
        single_range(h, size) matches Some((st, e)) ==> e < size && (st <= e || st == size),
{
}

/// A page never holds more jobs than match, nor more than its size; a page
/// of the listing endpoint holds at most 200 jobs.
pub proof fn law_page_never_exceeds_its_size(limit: usize, query_limit: Option<usize>, n: nat)
    ensures
        page_len(limit, n) <= n,
        limit as int <= i64::MAX as int ==> page_len(limit, n) <= limit,
        page_len(page_limit_spec(query_limit), n) <= 200,
{
}

/// The table after a run of queue attempts, one after another; each attempt is
/// an id, the request's JSON text and the time of the attempt.
pub open spec fn run_inserts(s: Seq<CaptureRecord>, attempts: Seq<(String, String, Timestamp)>) -> Seq<
    CaptureRecord,
>
    decreases attempts.len(),
{
    if attempts.len() == 0 {
        s
    } else {
        let a = attempts.last();
        after_insert(run_inserts(s, attempts.drop_last()), a.0, a.1, a.2)
    }
}

/// How many of a run of queue attempts are accepted.
pub open spec fn accepted_inserts(s: Seq<CaptureRecord>, attempts: Seq<(String, String, Timestamp)>) -> nat
    decreases attempts.len(),
{
    if attempts.len() == 0 {
        0
    } else {
        let a = attempts.last();
        accepted_inserts(s, attempts.drop_last()) + if insert_refused(
            run_inserts(s, attempts.drop_last()),
            a.0@,
        ) {
            0nat
        } else {
            1nat
        }
    }
}

/// At most one job of the table is running.
pub open spec fn at_most_one_active(s: Seq<CaptureRecord>) -> bool {
    forall|i: int, j: int|
        0 <= i < s.len() && 0 <= j < s.len() && is_active(#[trigger] s[i].status) && is_active(
            #[trigger] s[j].status,
        ) ==> i == j
}

/// Of any run of queue attempts, at most one is accepted, and none while a job
/// is running; a table with at most one running job keeps at most one.
pub proof fn law_at_most_one_queue_attempt_succeeds(
    s: Seq<CaptureRecord>,
    attempts: Seq<(String, String, Timestamp)>,
)
    ensures
        accepted_inserts(s, attempts) <= 1,
        has_active(s) ==> accepted_inserts(s, attempts) == 0,
        accepted_inserts(s, attempts) >= 1 ==> has_active(run_inserts(s, attempts)),
        has_active(s) ==> has_active(run_inserts(s, attempts)),
        at_most_one_active(s) ==> at_most_one_active(run_inserts(s, attempts)),
    decreases attempts.len(),
{
    if attempts.len() > 0 {
        let prev = attempts.drop_last();
        law_at_most_one_queue_attempt_succeeds(s, prev);
        let t = run_inserts(s, prev);
        let a = attempts.last();
        let q = queued_record(a.0, a.1, a.2);
        if !insert_refused(t, a.0@) {
            let u = t.push(q);
            assert(u[t.len() as int] == q);
            assert(is_active(u[t.len() as int].status));
            assert forall|i: int, j: int|
                0 <= i < u.len() && 0 <= j < u.len() && is_active(#[trigger] u[i].status)
                    && is_active(#[trigger] u[j].status) implies i == j by {
                if i < t.len() {
                    assert(u[i] == t[i]);
                    assert(has_active(t));
                }
                if j < t.len() {
                    assert(u[j] == t[j]);
                    assert(has_active(t));
                }
            }
        } else {
        }
        if has_active(t) {
            let k = choose|k: int| 0 <= k < t.len() && is_active(#[trigger] t[k].status);
            assert(run_inserts(s, attempts)[k] == t[k]);
        }
    }
}

/// The `bytes=` that opens a `Range` header.
pub open spec fn bytes_prefix() -> Seq<char> {
    seq!['b', 'y', 't', 'e', 's', '=']
}

/// The last byte a range may reach in a file of `size` bytes, given the end
/// the header asked for (`None`: up to the file's end).
pub open spec fn clamped_end(end: Option<nat>, size: u64) -> u64 {
    match end {
        None => sat_sub(size, 1),
        Some(b) => min_u64(b as u64, sat_sub(size, 1)),
    }
}

/// `bytes=<a>-<b>`: the range from the start `a` to the end `b` (or to the
/// file's end when `b` is empty), with the end clamped to the last byte, is
/// served exactly when it starts no later than it ends and before the file's
/// end; a served range then lies within the file.
pub proof fn law_start_end_range(a: Seq<char>, b: Seq<char>, size: u64)
    requires
        a.len() > 0,
        parse_unsigned(a, u64::MAX as nat) is Some,
        b.len() == 0 || parse_unsigned(b, u64::MAX as nat) is Some,
    ensures
        ({
            let st = parse_unsigned(a, u64::MAX as nat).unwrap() as u64;
            let e = clamped_end(
                if b.len() == 0 {
                    None
                } else {
                    parse_unsigned(b, u64::MAX as nat)
                },
                size,
            );
            single_range(bytes_prefix() + a + seq!['-'] + b, size) == if st <= e && st < size {
                Some((st, e))
            } else {
                None
            }
        }),
        single_range(bytes_prefix() + a + seq!['-'] + b, size) matches Some((st, e)) ==> st <= e
            && e < size,
{
    let h = bytes_prefix() + a + seq!['-'] + b;
    let raw = a + seq!['-'] + b;
    assert(h.subrange(0, 6) =~= bytes_prefix());
    assert(h.subrange(6, h.len() as int) =~= raw);
    lemma_parsed_has_no_sign_or_comma(a, u64::MAX as nat);
    if b.len() > 0 {
        lemma_parsed_has_no_sign_or_comma(b, u64::MAX as nat);
    }
    assert forall|j: int| 0 <= j < a.len() implies raw[j] != '-' by {
        assert(raw[j] == a[j]);
    }
    assert(raw[a.len() as int] == '-');
    lemma_find_scan(raw, '-', a.len() as int);
    assert(find(raw, '-') == a.len());
    assert(!raw.contains(',')) by {
        assert forall|j: int| 0 <= j < raw.len() implies raw[j] != ',' by {
            if j < a.len() {
                assert(raw[j] == a[j]);
            } else if j > a.len() {
                assert(raw[j] == b[j - a.len() - 1]);
            }
        }
    }
    assert(raw.subrange(0, a.len() as int) =~= a);
    assert(raw.subrange(a.len() as int + 1, raw.len() as int) =~= b);
}

/// `bytes=-<n>`: the last `n` bytes, as `(size - n, size - 1)` with both
/// differences stopping at 0; for a non-empty file and `n >= 1` these are the
/// last `min(n, size)` bytes.
pub proof fn law_suffix_range(t: Seq<char>, size: u64)
    requires
        parse_unsigned(t, u64::MAX as nat) is Some,
    ensures
        ({
            let n = parse_unsigned(t, u64::MAX as nat).unwrap() as u64;
            &&& single_range(bytes_prefix() + seq!['-'] + t, size) == Some(
                (sat_sub(size, n), sat_sub(size, 1)),
            )
            &&& n >= 1 && size >= 1 ==> sat_sub(size, 1) == size - 1 && sat_sub(size, 1) - sat_sub(
                size,
                n,
            ) + 1 == min_u64(n, size)
        }),
{
    let h = bytes_prefix() + seq!['-'] + t;
    let raw = seq!['-'] + t;
    assert(h.subrange(0, 6) =~= bytes_prefix());
    assert(h.subrange(6, h.len() as int) =~= raw);
    lemma_parsed_has_no_sign_or_comma(t, u64::MAX as nat);
    lemma_find_scan(raw, '-', 0);
    assert(!raw.contains(',')) by {
        assert forall|j: int| 0 <= j < raw.len() implies raw[j] != ',' by {
            if j > 0 {
                assert(raw[j] == t[j - 1]);
            }
        }
    }
    assert(raw.subrange(0, 0) =~= Seq::<char>::empty());
    assert(raw.subrange(1, raw.len() as int) =~= t);
}

/// The header `bytes=-<n>` with `n` written in decimal, as a client sends it,
/// asks for `(size - n, size - 1)`, both stopping at 0.
pub proof fn law_decimal_suffix_range(n: u64, size: u64)
    ensures
        single_range(bytes_prefix() + seq!['-'] + decimal(n as nat), size) == Some(
            (sat_sub(size, n), sat_sub(size, 1)),
        ),
{
    lemma_decimal_parses(n as nat, u64::MAX as nat);
    law_suffix_range(decimal(n as nat), size);
}

/// The header `bytes=<a>-<b>` with `a` and `b` written in decimal asks for
/// `(a, min(b, size - 1))`, served when that starts no later than it ends and
/// before the file's end.
pub proof fn law_decimal_start_end_range(a: u64, b: u64, size: u64)
    ensures
        single_range(bytes_prefix() + decimal(a as nat) + seq!['-'] + decimal(b as nat), size) == if a
            <= min_u64(b, sat_sub(size, 1)) && a < size {
            Some((a, min_u64(b, sat_sub(size, 1))))
        } else {
            None
        },
{
    lemma_decimal_parses(a as nat, u64::MAX as nat);
    lemma_decimal_parses(b as nat, u64::MAX as nat);
    crate::text::lemma_decimal_digits(a as nat);
    crate::text::lemma_decimal_digits(b as nat);
    law_start_end_range(decimal(a as nat), decimal(b as nat), size);
}

/// The order of a capture: the first option that cannot be written ends the
/// capture with its error; a capture target value the camera refuses passes to
/// the next one, and when none is left the target is refused; a bulb exposure
/// is held before the shutter is closed, and how the release of the shutter
/// went never stops the wait for the file.
pub proof fn law_capture_order(f: CaptureFlow, o: StepOutcome, i: usize)
    ensures
        (f.stage matches FlowStage::WritingSetting(_) && o is Failed) ==> next_stage(f, o)
            == FlowStage::Failed && failure(f, o) == error_view_of_outcome(o),
        (f.stage == FlowStage::TryingTarget(i) && !(o is Done)) ==> next_stage(f, o) == (
        if i + 1 < candidate_count(f) {
            FlowStage::TryingTarget((i + 1) as usize)
        } else {
            FlowStage::Failed
        }),
        (f.stage == FlowStage::TryingTarget(i) && !(o is Done) && i + 1 >= candidate_count(f))
            ==> failure(f, o) == unsupported_view(f.target),
        f.stage == FlowStage::OpeningBulb && o is Done ==> next_stage(f, o) == FlowStage::HoldingBulb,
        f.stage == FlowStage::HoldingBulb ==> next_stage(f, o) == FlowStage::ClosingBulb,
        f.stage == FlowStage::ReleasingBulb ==> next_stage(f, o) == FlowStage::Waiting,
{
}

} // verus!

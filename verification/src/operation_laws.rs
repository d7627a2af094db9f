use vstd::prelude::*;

use crate::camera::{
    asks_for_bulb, attempts_allowed, extension_for_format, settings_plan, target_candidates,
    toggle_on, ShutterPlan,
};
use crate::capture_flow::{
    action_fits, failure, next_stage, CameraAction, CaptureFlow, FlowStage, StepOutcome,
};
use crate::capture_store::{
    after_insert, canceled_record, completed_record, created_sorted, downloaded_before,
    downloaded_record, failed_record, ids_unique, in_sweep_window, index_of, inflight_failed,
    is_listed, kept_after_sweep, lemma_index_of, list_threshold, listed_records, lookup,
    page_len, queued_record, replace_by_id, retention_cutoff, status_of_text, status_text,
    swept_records, with_status,
};
use crate::error::{error_code, error_status, ApiError};
use crate::handlers::{min_u64, page_limit_spec, request_is_valid, sat_sub};
use crate::laws::law_read_after_write;
use crate::models::{
    is_active, ts_before, CaptureRecord, CaptureRequest, CaptureResponse, CaptureStatus, Timestamp,
};
use crate::text::{after_last, ascii_lower, hex_lower, lower_seq, rfind};

verus! {

/// Where an option key stands in the order of writes: exposure program, ISO,
/// aperture, color space, image format; 5 for any other key.
pub open spec fn option_rank(key: Seq<char>) -> int {
    if key == "expprogram"@ {
        0
    } else if key == "iso"@ {
        1
    } else if key == "f-number"@ {
        2
    } else if key == "colorspace"@ {
        3
    } else if key == "imagequality"@ {
        4
    } else {
        5
    }
}

/// 1 for a value that is given, 0 otherwise.
pub open spec fn given(v: Option<String>) -> int {
    if v is Some {
        1
    } else {
        0
    }
}

/// The option a request field asks for is written with its value, and only
/// then: `field == Some(v)` writes `(key, v)`, and a missing field writes no
/// option under that key.
pub open spec fn writes_field(
    plan: Seq<(Seq<char>, Seq<char>)>,
    key: Seq<char>,
    field: Option<String>,
) -> bool {
    &&& (field matches Some(v) ==> plan.contains((key, v@)))
    &&& (field is None ==> forall|i: int| 0 <= i < plan.len() ==> (#[trigger] plan[i]).0 != key)
}

/// Every request field that is given is written to its own camera option with
/// its value, and no other option is written; each option at most once, in
/// the order exposure program, ISO, aperture (`f-number`), color space,
/// image format.
pub proof fn law_option_writes(request: CaptureRequest)
    ensures
        writes_field(settings_plan(request), "expprogram"@, request.exposure_program),
        writes_field(settings_plan(request), "iso"@, request.iso),
        writes_field(settings_plan(request), "f-number"@, request.aperture),
        writes_field(settings_plan(request), "colorspace"@, request.color_space),
        writes_field(settings_plan(request), "imagequality"@, request.image_format),
        settings_plan(request).len() == given(request.exposure_program) + given(request.iso)
            + given(request.aperture) + given(request.color_space) + given(request.image_format),
        forall|i: int, j: int|
            0 <= i < j < settings_plan(request).len() ==> option_rank(
                (#[trigger] settings_plan(request)[i]).0,
            ) < option_rank((#[trigger] settings_plan(request)[j]).0) < 5,
{
    reveal_strlit("expprogram");
    reveal_strlit("iso");
    reveal_strlit("f-number");
    reveal_strlit("colorspace");
    reveal_strlit("imagequality");
    let p = settings_plan(request);
    let a = crate::camera::setting_for("expprogram"@, request.exposure_program);
    let b = crate::camera::setting_for("iso"@, request.iso);
    let c = crate::camera::setting_for("f-number"@, request.aperture);
    let d = crate::camera::setting_for("colorspace"@, request.color_space);
    let e = crate::camera::setting_for("imagequality"@, request.image_format);
    assert(p == a + b + c + d + e);
    assert("expprogram"@.len() == 10 && "iso"@.len() == 3 && "f-number"@.len() == 8);
    assert("colorspace"@.len() == 10 && "imagequality"@.len() == 12);
    assert("expprogram"@[0] == 'e' && "colorspace"@[0] == 'c');
    assert(option_rank("expprogram"@) == 0);
    assert(option_rank("iso"@) == 1);
    assert(option_rank("f-number"@) == 2);
    assert(option_rank("colorspace"@) == 3);
    assert(option_rank("imagequality"@) == 4);
    assert forall|i: int| 0 <= i < p.len() implies option_rank((#[trigger] p[i]).0) == (if i < a.len() {
        0int
    } else if i < a.len() + b.len() {
        1int
    } else if i < a.len() + b.len() + c.len() {
        2int
    } else if i < a.len() + b.len() + c.len() + d.len() {
        3int
    } else {
        4int
    }) by {
        if i < a.len() {
            assert(p[i] == a[i]);
        } else if i < a.len() + b.len() {
            assert(p[i] == b[i - a.len()]);
        } else if i < a.len() + b.len() + c.len() {
            assert(p[i] == c[i - a.len() - b.len()]);
        } else if i < a.len() + b.len() + c.len() + d.len() {
            assert(p[i] == d[i - a.len() - b.len() - c.len()]);
        } else {
            assert(p[i] == e[i - a.len() - b.len() - c.len() - d.len()]);
        }
    }
    if request.exposure_program is Some {
        assert(p[0] == a[0]);
    }
    if request.iso is Some {
        assert(p[a.len() as int] == b[0]);
    }
    if request.aperture is Some {
        assert(p[(a.len() + b.len()) as int] == c[0]);
    }
    if request.color_space is Some {
        assert(p[(a.len() + b.len() + c.len()) as int] == d[0]);
    }
    if request.image_format is Some {
        assert(p[(a.len() + b.len() + c.len() + d.len()) as int] == e[0]);
    }
}

/// A point in time as a count of nanoseconds since the Unix epoch.
pub open spec fn instant_nanos(t: Timestamp) -> int {
    t.secs * 1_000_000_000 + t.nanos
}

/// "Before" is the order of instants: for timestamps whose nanoseconds stay
/// within their second, `a` is before `b` exactly when it lies fewer
/// nanoseconds after the epoch; a difference of nanoseconds within the same
/// second counts.
pub proof fn law_before_is_the_order_of_instants(a: Timestamp, b: Timestamp)
    requires
        a.nanos < 1_000_000_000,
        b.nanos < 1_000_000_000,
    ensures
        ts_before(a, b) <==> instant_nanos(a) < instant_nanos(b),
{
    if a.secs < b.secs {
        assert(a.secs * 1_000_000_000 + 1_000_000_000 <= b.secs * 1_000_000_000) by (nonlinear_arith)
            requires
                a.secs < b.secs,
        ;
    } else if a.secs > b.secs {
        assert(b.secs * 1_000_000_000 + 1_000_000_000 <= a.secs * 1_000_000_000) by (nonlinear_arith)
            requires
                b.secs < a.secs,
        ;
    }
}

/// "Before" is a strict total order: never of a timestamp and itself, never
/// both ways, transitive, and of two different timestamps one is always
/// before the other.
pub proof fn law_before_is_strict_total(a: Timestamp, b: Timestamp, c: Timestamp)
    ensures
        !ts_before(a, a),
        !(ts_before(a, b) && ts_before(b, a)),
        ts_before(a, b) && ts_before(b, c) ==> ts_before(a, c),
        a != b ==> ts_before(a, b) || ts_before(b, a),
{
}

/// A capture request is refused exactly when it asks for an exposure of zero
/// seconds: one without an exposure time, or with any exposure of at least
/// one second, is valid.
pub proof fn law_only_zero_exposure_is_refused(request: CaptureRequest)
    ensures
        request.exposure_seconds is None ==> request_is_valid(request),
        forall|n: u64| n >= 1 && request.exposure_seconds == Some(n) ==> request_is_valid(request),
        request.exposure_seconds == Some(0u64) ==> !request_is_valid(request),
{
}

/// Completing a job stores everything the camera reported (model, saved
/// path, source folder and name, attempt count), the file's size and
/// checksum and the completion time, marks it complete, and keeps its id,
/// request, creation, start, download and error fields; the job then reads
/// back that way and every other job reads as before.
pub proof fn law_completed_job_reads_back(
    s: Seq<CaptureRecord>,
    id: Seq<char>,
    response: CaptureResponse,
    size_bytes: Option<u64>,
    checksum: Option<String>,
    now: Timestamp,
)
    requires
        ids_unique(s),
        index_of(s, id) >= 0,
    ensures
        ({
            let old_rec = s[index_of(s, id)];
            let t = replace_by_id(
                s,
                id,
                completed_record(old_rec, response, size_bytes, checksum, now),
            );
            &&& lookup(t, id) matches Some(r) && {
                &&& r.status == CaptureStatus::Complete
                &&& r.camera_model == Some(response.camera_model)
                &&& r.saved_path == Some(response.saved_path)
                &&& r.source_folder == Some(response.source_folder)
                &&& r.source_name == Some(response.source_name)
                &&& r.size_bytes == size_bytes
                &&& r.checksum == checksum
                &&& r.attempt_count == response.attempt_count
                &&& r.completed_at == Some(now)
                &&& r.id == old_rec.id
                &&& r.request_json == old_rec.request_json
                &&& r.error == old_rec.error
                &&& r.created_at == old_rec.created_at
                &&& r.started_at == old_rec.started_at
                &&& r.downloaded_at == old_rec.downloaded_at
            }
            &&& forall|other: Seq<char>| other != id ==> #[trigger] lookup(t, other) == lookup(s, other)
        }),
{
    lemma_index_of(s, id);
    let old_rec = s[index_of(s, id)];
    law_read_after_write(s, id, completed_record(old_rec, response, size_bytes, checksum, now));
}

/// A job is kept by a sweep exactly when it is one of the table's and was not
/// fetched before the cutoff; it is removed exactly when it is one of the
/// table's and was.
proof fn lemma_sweep_members(s: Seq<CaptureRecord>, cutoff: Timestamp, x: CaptureRecord)
    ensures
        kept_after_sweep(s, cutoff).contains(x) <==> s.contains(x) && !downloaded_before(x, cutoff),
        swept_records(s, cutoff).contains(x) <==> s.contains(x) && downloaded_before(x, cutoff),
    decreases s.len(),
{
    if s.len() > 0 {
        let s0 = s.drop_last();
        lemma_sweep_members(s0, cutoff, x);
        let k0 = kept_after_sweep(s0, cutoff);
        let w0 = swept_records(s0, cutoff);
        assert(s =~= s0.push(s.last()));
        if s.contains(x) {
            let j = choose|j: int| 0 <= j < s.len() && s[j] == x;
            if j < s.len() - 1 {
                assert(s0[j] == x);
            }
        }
        if s0.contains(x) {
            let j = choose|j: int| 0 <= j < s0.len() && s0[j] == x;
            assert(s[j] == x);
        }
        if k0.contains(x) {
            let j = choose|j: int| 0 <= j < k0.len() && k0[j] == x;
            assert(k0.push(s.last())[j] == x);
        }
        if w0.contains(x) {
            let j = choose|j: int| 0 <= j < w0.len() && w0[j] == x;
            assert(w0.push(s.last())[j] == x);
        }
        if !downloaded_before(s.last(), cutoff) {
            assert(kept_after_sweep(s, cutoff)[k0.len() as int] == s.last());
        } else {
            assert(swept_records(s, cutoff)[w0.len() as int] == s.last());
        }
    }
}

/// The retention sweep at `now` cuts off exactly `retention_secs` seconds
/// before `now`: a job fetched at most that long ago, or never fetched, is
/// kept, and a job fetched longer ago is removed.
pub proof fn law_sweep_keeps_what_was_fetched_within_retention(
    s: Seq<CaptureRecord>,
    now: Timestamp,
    retention_secs: u64,
    x: CaptureRecord,
)
    requires
        in_sweep_window(now, retention_secs),
        x.downloaded_at matches Some(d) ==> d.nanos < 1_000_000_000,
    ensures
        retention_cutoff(now, retention_secs).secs == now.secs - retention_secs,
        retention_cutoff(now, retention_secs).nanos == now.nanos,
        kept_after_sweep(s, retention_cutoff(now, retention_secs)).contains(x) <==> s.contains(x)
            && !(x.downloaded_at matches Some(d) && instant_nanos(d) + retention_secs * 1_000_000_000
            < instant_nanos(now)),
        swept_records(s, retention_cutoff(now, retention_secs)).contains(x) <==> s.contains(x)
            && (x.downloaded_at matches Some(d) && instant_nanos(d) + retention_secs * 1_000_000_000
            < instant_nanos(now)),
{
    let cutoff = retention_cutoff(now, retention_secs);
    assert(cutoff.secs == now.secs - retention_secs);
    let r: int = retention_secs as int;
    assert(instant_nanos(cutoff) == instant_nanos(now) - r * 1_000_000_000) by (nonlinear_arith)
        requires
            cutoff.secs == now.secs - r,
            cutoff.nanos == now.nanos,
    ;
    lemma_sweep_members(s, cutoff, x);
    if let Some(d) = x.downloaded_at {
        law_before_is_the_order_of_instants(d, cutoff);
    }
}

/// A job is listed exactly when it is one of the table's and passes the
/// status filter and the cursor.
proof fn lemma_listed_members(
    s: Seq<CaptureRecord>,
    status: Option<CaptureStatus>,
    threshold: Option<Timestamp>,
    x: CaptureRecord,
)
    ensures
        listed_records(s, status, threshold).contains(x) <==> s.contains(x) && is_listed(
            x,
            status,
            threshold,
        ),
    decreases s.len(),
{
    if s.len() > 0 {
        let s0 = s.drop_last();
        lemma_listed_members(s0, status, threshold, x);
        let l0 = listed_records(s0, status, threshold);
        assert(s =~= s0.push(s.last()));
        if s.contains(x) {
            let j = choose|j: int| 0 <= j < s.len() && s[j] == x;
            if j < s.len() - 1 {
                assert(s0[j] == x);
            }
        }
        if s0.contains(x) {
            let j = choose|j: int| 0 <= j < s0.len() && s0[j] == x;
            assert(s[j] == x);
        }
        if l0.contains(x) {
            let j = choose|j: int| 0 <= j < l0.len() && l0[j] == x;
            assert(l0.push(s.last())[j] == x);
        }
        if is_listed(s.last(), status, threshold) {
            assert(listed_records(s, status, threshold)[l0.len() as int] == s.last());
        }
    }
}

/// A listing after a cursor job holds every job of the table, with the asked
/// status if one is asked, that was created at a later instant than the
/// cursor job (a later nanosecond within the same second counts), and no
/// other job.
pub proof fn law_listing_after_cursor(
    s: Seq<CaptureRecord>,
    status: Option<CaptureStatus>,
    after: Seq<char>,
    x: CaptureRecord,
)
    requires
        index_of(s, after) >= 0,
        s[index_of(s, after)].created_at.nanos < 1_000_000_000,
        x.created_at.nanos < 1_000_000_000,
    ensures
        listed_records(s, status, list_threshold(s, Some(after))).contains(x) <==> s.contains(x)
            && (status matches Some(st) ==> x.status == st) && instant_nanos(
            s[index_of(s, after)].created_at,
        ) < instant_nanos(x.created_at),
{
    lemma_listed_members(s, status, list_threshold(s, Some(after)), x);
    law_before_is_the_order_of_instants(s[index_of(s, after)].created_at, x.created_at);
}

/// Without a cursor, or with an id that names no job, a listing holds every
/// job of the table with the asked status (every job when none is asked).
pub proof fn law_listing_without_cursor(
    s: Seq<CaptureRecord>,
    status: Option<CaptureStatus>,
    after: Option<Seq<char>>,
    x: CaptureRecord,
)
    requires
        after is None || index_of(s, after->Some_0) < 0,
    ensures
        listed_records(s, status, list_threshold(s, after)).contains(x) <==> s.contains(x) && (
        status matches Some(st) ==> x.status == st),
{
    lemma_listed_members(s, status, list_threshold(s, after), x);
}

/// Every field of `a` but its status, start, completion, download and error
/// fields equals that of `b`.
pub open spec fn same_identity(a: CaptureRecord, b: CaptureRecord) -> bool {
    &&& a.id == b.id
    &&& a.request_json == b.request_json
    &&& a.camera_model == b.camera_model
    &&& a.saved_path == b.saved_path
    &&& a.source_folder == b.source_folder
    &&& a.source_name == b.source_name
    &&& a.size_bytes == b.size_bytes
    &&& a.checksum == b.checksum
    &&& a.attempt_count == b.attempt_count
    &&& a.created_at == b.created_at
}

/// A fresh job is queued with no attempt made, created at the time it was
/// queued, under its id and with its request, and with nothing else known.
pub proof fn law_new_job_is_queued_and_blank(id: String, request_json: String, now: Timestamp)
    ensures
        ({
            let r = queued_record(id, request_json, now);
            &&& r.id == id && r.request_json == request_json && r.created_at == now
            &&& r.status == CaptureStatus::Queued && r.attempt_count == 0
            &&& r.camera_model is None && r.saved_path is None && r.source_folder is None
            &&& r.source_name is None && r.size_bytes is None && r.checksum is None
            &&& r.error is None && r.started_at is None && r.completed_at is None
            &&& r.downloaded_at is None
        }),
{
}

/// Moving a job to a status sets that status and nothing else, except that
/// entering `Capturing` records the start time.
pub proof fn law_status_change(r: CaptureRecord, status: CaptureStatus, now: Timestamp)
    ensures
        with_status(r, status, now).status == status,
        same_identity(with_status(r, status, now), r),
        with_status(r, status, now).completed_at == r.completed_at,
        with_status(r, status, now).downloaded_at == r.downloaded_at,
        with_status(r, status, now).error == r.error,
        status == CaptureStatus::Capturing ==> with_status(r, status, now).started_at == Some(now),
        status != CaptureStatus::Capturing ==> with_status(r, status, now).started_at
            == r.started_at,
{
}

/// A failed job is marked failed with its error and the time it failed, and
/// keeps everything else.
pub proof fn law_failure_is_recorded(r: CaptureRecord, error: Option<String>, now: Timestamp)
    ensures
        failed_record(r, error, now).status == CaptureStatus::Failed,
        failed_record(r, error, now).error == error,
        failed_record(r, error, now).completed_at == Some(now),
        same_identity(failed_record(r, error, now), r),
        failed_record(r, error, now).started_at == r.started_at,
        failed_record(r, error, now).downloaded_at == r.downloaded_at,
{
}

/// The running statuses are exactly queued, capturing and downloading; a job
/// in one of them is canceled at the time asked, keeping everything else, and
/// a complete, failed or canceled job is left as it is.
pub proof fn law_cancel_by_status(r: CaptureRecord, now: Timestamp)
    ensures
        is_active(r.status) <==> (r.status == CaptureStatus::Queued || r.status
            == CaptureStatus::Capturing || r.status == CaptureStatus::Downloading),
        (r.status == CaptureStatus::Complete || r.status == CaptureStatus::Failed || r.status
            == CaptureStatus::Canceled) ==> canceled_record(r, now) == r,
        (r.status == CaptureStatus::Queued || r.status == CaptureStatus::Capturing || r.status
            == CaptureStatus::Downloading) ==> {
            &&& canceled_record(r, now).status == CaptureStatus::Canceled
            &&& canceled_record(r, now).completed_at == Some(now)
            &&& same_identity(canceled_record(r, now), r)
            &&& canceled_record(r, now).started_at == r.started_at
            &&& canceled_record(r, now).downloaded_at == r.downloaded_at
            &&& canceled_record(r, now).error == r.error
        },
{
}

/// Marking a job fetched records the time and changes nothing else.
pub proof fn law_download_is_recorded(r: CaptureRecord, now: Timestamp)
    ensures
        downloaded_record(r, now).downloaded_at == Some(now),
        same_identity(downloaded_record(r, now), r),
        downloaded_record(r, now).status == r.status,
        downloaded_record(r, now).started_at == r.started_at,
        downloaded_record(r, now).completed_at == r.completed_at,
        downloaded_record(r, now).error == r.error,
{
}

/// Statuses are stored under their lower-case names, and no two statuses
/// share a stored name.
pub proof fn law_status_names(a: CaptureStatus, b: CaptureStatus)
    ensures
        status_text(CaptureStatus::Queued) == "queued"@,
        status_text(CaptureStatus::Capturing) == "capturing"@,
        status_text(CaptureStatus::Downloading) == "downloading"@,
        status_text(CaptureStatus::Complete) == "complete"@,
        status_text(CaptureStatus::Failed) == "failed"@,
        status_text(CaptureStatus::Canceled) == "canceled"@,
        a != b ==> status_text(a) != status_text(b),
        forall|t: Seq<char>|
            t != "queued"@ && t != "capturing"@ && t != "downloading"@ && t != "complete"@ && t
                != "failed"@ && t != "canceled"@ ==> #[trigger] status_of_text(t)
                == CaptureStatus::Failed,
{
    reveal_strlit("queued");
    reveal_strlit("capturing");
    reveal_strlit("downloading");
    reveal_strlit("complete");
    reveal_strlit("failed");
    reveal_strlit("canceled");
    assert("queued"@[0] == 'q' && "capturing"@[0] == 'c' && "downloading"@[0] == 'd');
    assert("complete"@[0] == 'c' && "failed"@[0] == 'f' && "canceled"@[0] == 'c');
    assert("capturing"@[2] == 'p' && "complete"@[2] == 'm' && "canceled"@[2] == 'n');
}

/// A listing page holds 50 jobs when no size is asked; an asked size is kept
/// between 1 and 200, and otherwise used as it is.
pub proof fn law_page_size(limit: Option<usize>)
    ensures
        limit is None ==> page_limit_spec(limit) == 50,
        limit == Some(0usize) ==> page_limit_spec(limit) == 1,
        forall|l: usize| 1 <= l <= 200 && limit == Some(l) ==> page_limit_spec(limit) == l,
        forall|l: usize| l > 200 && limit == Some(l) ==> page_limit_spec(limit) == 200,
{
}

/// A page of a listing holds as many of the matching jobs as its size allows:
/// all of them when they fit, otherwise exactly its size.
pub proof fn law_page_holds_as_many_as_fit(limit: usize, n: nat)
    requires
        limit as int <= i64::MAX as int,
    ensures
        n <= limit ==> page_len(limit, n) == n,
        n > limit ==> page_len(limit, n) == limit,
{
}

/// A capture that may be retried `retries` times is attempted up to
/// `retries + 1` times, and never more than 255 times.
pub proof fn law_attempts_are_retries_plus_one(retries: u8)
    ensures
        retries < 255 ==> attempts_allowed(retries) == retries + 1,
        retries == 255 ==> attempts_allowed(retries) == 255,
{
}

/// Jobs are in creation order exactly when, read as instants, their creation
/// times never go down.
pub proof fn law_creation_order_is_order_of_instants(s: Seq<CaptureRecord>)
    requires
        forall|i: int| 0 <= i < s.len() ==> (#[trigger] s[i]).created_at.nanos < 1_000_000_000,
    ensures
        created_sorted(s) <==> forall|i: int, j: int|
            0 <= i < j < s.len() ==> instant_nanos(#[trigger] s[i].created_at) <= instant_nanos(
                #[trigger] s[j].created_at,
            ),
{
    if created_sorted(s) {
        assert forall|i: int, j: int| 0 <= i < j < s.len() implies instant_nanos(
            #[trigger] s[i].created_at,
        ) <= instant_nanos(#[trigger] s[j].created_at) by {
            law_before_is_the_order_of_instants(s[j].created_at, s[i].created_at);
        }
    }
    if forall|i: int, j: int|
        0 <= i < j < s.len() ==> instant_nanos(#[trigger] s[i].created_at) <= instant_nanos(
            #[trigger] s[j].created_at,
        ) {
        assert forall|i: int, j: int| 0 <= i < j < s.len() implies !ts_before(
            s[j].created_at,
            s[i].created_at,
        ) by {
            law_before_is_the_order_of_instants(s[j].created_at, s[i].created_at);
            assert(instant_nanos(s[i].created_at) <= instant_nanos(s[j].created_at));
        }
    }
}

/// Every error is answered with its HTTP status and stable code: an invalid
/// request with 400 `VALIDATION_ERROR`, a missing job or file with 404
/// `NOT_FOUND`, a conflict with 409 `CONFLICT`, a missing camera with 503
/// `CAMERA_UNAVAILABLE`, a lost USB link with 503 `USB_CONNECTION_LOST`, a
/// failed capture with 502 `CAPTURE_FAILED`, and anything else with 500
/// `INTERNAL_ERROR`.
pub proof fn law_error_answers(e: ApiError)
    ensures
        e is Validation ==> error_status(e) == 400 && error_code(e) == "VALIDATION_ERROR"@,
        e is NotFound ==> error_status(e) == 404 && error_code(e) == "NOT_FOUND"@,
        e is Conflict ==> error_status(e) == 409 && error_code(e) == "CONFLICT"@,
        e is CameraUnavailable ==> error_status(e) == 503 && error_code(e)
            == "CAMERA_UNAVAILABLE"@,
        e is Usb ==> error_status(e) == 503 && error_code(e) == "USB_CONNECTION_LOST"@,
        e is CaptureFailed ==> error_status(e) == 502 && error_code(e) == "CAPTURE_FAILED"@,
        e is Internal ==> error_status(e) == 500 && error_code(e) == "INTERNAL_ERROR"@,
{
}

/// A lower-case hexadecimal digit: `0` to `9` or `a` to `f`.
pub open spec fn is_lower_hex_digit(c: char) -> bool {
    ('0' <= c && c <= '9') || ('a' <= c && c <= 'f')
}

/// The value of a lower-case hexadecimal digit.
pub open spec fn lower_hex_value(c: char) -> int {
    if '0' <= c && c <= '9' {
        c as int - '0' as int
    } else {
        c as int - 'a' as int + 10
    }
}

proof fn lemma_hex_digit(d: nat)
    requires
        d < 16,
    ensures
        is_lower_hex_digit(crate::text::hex_digit(d)),
        lower_hex_value(crate::text::hex_digit(d)) == d,
{
    let c = crate::text::hex_digit(d);
    if d < 10 {
        assert(c as int == d + 48);
    } else {
        assert(c as int == d + 87);
    }
}

/// Characters `2 * i` and `2 * i + 1` of `h` are lower-case hexadecimal
/// digits that spell `byte`, the high half first.
pub open spec fn spells_byte(h: Seq<char>, i: int, byte: u8) -> bool {
    &&& is_lower_hex_digit(h[2 * i])
    &&& is_lower_hex_digit(h[2 * i + 1])
    &&& lower_hex_value(h[2 * i]) * 16 + lower_hex_value(h[2 * i + 1]) == byte
}

/// The hexadecimal spelling of bytes (as a checksum is written) takes two
/// lower-case digits per byte, the high half first, and reads back as the
/// bytes it was made from.
pub proof fn law_hex_spelling_reads_back(bytes: Seq<u8>)
    ensures
        hex_lower(bytes).len() == 2 * bytes.len(),
        forall|i: int| 0 <= i < bytes.len() ==> spells_byte(hex_lower(bytes), i, #[trigger] bytes[i]),
    decreases bytes.len(),
{
    if bytes.len() > 0 {
        let b0 = bytes.drop_last();
        law_hex_spelling_reads_back(b0);
        let h0 = hex_lower(b0);
        let h = hex_lower(bytes);
        let last = bytes.last();
        assert(h == h0 + seq![
            crate::text::hex_digit((last / 16) as nat),
            crate::text::hex_digit((last % 16) as nat),
        ]);
        assert forall|i: int| 0 <= i < bytes.len() implies spells_byte(h, i, #[trigger] bytes[i]) by {
            if i < b0.len() {
                assert(spells_byte(h0, i, b0[i]));
                assert(h[2 * i] == h0[2 * i]);
                assert(h[2 * i + 1] == h0[2 * i + 1]);
                assert(bytes[i] == b0[i]);
            } else {
                let hi = (last / 16) as nat;
                let lo = (last % 16) as nat;
                assert(h[2 * i] == crate::text::hex_digit(hi));
                assert(h[2 * i + 1] == crate::text::hex_digit(lo));
                lemma_hex_digit(hi);
                lemma_hex_digit(lo);
                assert(hi * 16 + lo == last);
            }
        }
    }
}

/// How a capture moves on: the options are written one after another; once
/// they are written without a capture target, a bulb exposure opens the
/// shutter and a timed one sets the speed; a shot or a wait that brings the
/// new file leads to its download, and a finished download ends the capture.
/// After the bulb closes, each wait lasts 500 ms; a wait without the file
/// goes on waiting while less than 30 s have passed, and after that the
/// capture fails with "no NewFile event received after bulb close". Only a
/// failure to read the `bulb` option again stops the close of the shutter.
pub proof fn law_capture_progress(f: CaptureFlow, o: StepOutcome, i: usize)
    ensures
        f.stage == FlowStage::WritingSetting(i) && o is Done && i + 1 < f.settings@.len()
            ==> next_stage(f, o) == FlowStage::WritingSetting((i + 1) as usize),
        f.stage == FlowStage::WritingSetting(i) && o is Done && i + 1 == f.settings@.len()
            && f.candidates is None && (f.shutter matches Ok(ShutterPlan::Bulb { .. }))
            ==> next_stage(f, o) == FlowStage::OpeningBulb,
        f.stage == FlowStage::WritingSetting(i) && o is Done && i + 1 == f.settings@.len()
            && f.candidates is None && (f.shutter matches Ok(ShutterPlan::Timed { .. }))
            ==> next_stage(f, o) == FlowStage::WritingShutter,
        f.stage == FlowStage::WritingShutter && o is Done ==> next_stage(f, o)
            == FlowStage::CapturingImage,
        (f.stage == FlowStage::CapturingImage || f.stage == FlowStage::Waiting) && o is NewFile
            ==> next_stage(f, o) == FlowStage::Downloading,
        f.stage == FlowStage::Downloading && o is Done ==> next_stage(f, o) == FlowStage::Finished,
        f.stage == FlowStage::Waiting ==> (action_fits(f, CameraAction::WaitEvent(500))),
        f.stage == FlowStage::Waiting && !(o is NewFile) && f.wait@ + 500 < 30_000
            ==> next_stage(f, o) == FlowStage::Waiting,
        f.stage == FlowStage::Waiting && !(o is NewFile) && f.wait@ + 500 >= 30_000 ==> next_stage(
            f,
            o,
        ) == FlowStage::Failed && failure(f, o) == ("CAPTURE_FAILED"@, "capture failed: "@
            + "no NewFile event received after bulb close"@),
        f.stage == FlowStage::ClosingBulb ==> (next_stage(f, o) == FlowStage::Failed <==> o is Failed),
{
}

/// `a` reads as `b` once ASCII letters are lower-cased.
pub open spec fn reads_as(a: Seq<char>, b: Seq<char>) -> bool {
    a.len() == b.len() && forall|k: int| 0 <= k < a.len() ==> ascii_lower(#[trigger] a[k]) == b[k]
}

proof fn lemma_lower_is(a: Seq<char>, b: Seq<char>)
    ensures
        lower_seq(a) == b <==> reads_as(a, b),
{
    if reads_as(a, b) {
        assert(lower_seq(a) =~= b);
    }
    if lower_seq(a) == b {
        assert forall|k: int| 0 <= k < a.len() implies ascii_lower(#[trigger] a[k]) == b[k] by {
            assert(lower_seq(a)[k] == ascii_lower(a[k]));
        }
    }
}

/// A request asks for a bulb exposure when it gives no shutter speed, or
/// gives `bulb` in any ASCII case, and only then.
pub proof fn law_bulb_is_asked_by_name(request: CaptureRequest)
    ensures
        request.shutter_speed is None ==> asks_for_bulb(request),
        request.shutter_speed matches Some(sp) ==> (asks_for_bulb(request) <==> reads_as(
            sp@,
            seq!['b', 'u', 'l', 'b'],
        )),
{
    reveal_strlit("bulb");
    if let Some(sp) = request.shutter_speed {
        assert("bulb"@ =~= seq!['b', 'u', 'l', 'b']);
        lemma_lower_is(sp@, "bulb"@);
        lemma_lower_is("bulb"@, "bulb"@);
        assert(lower_seq("bulb"@) == "bulb"@);
    }
}

/// A toggle is switched on by `1`, `true` or `on` in any ASCII case, and off
/// by anything else.
pub proof fn law_toggle_words(value: Seq<char>)
    ensures
        toggle_on(value) <==> (reads_as(value, seq!['1']) || reads_as(value, seq!['t', 'r', 'u', 'e'])
            || reads_as(value, seq!['o', 'n'])),
{
    reveal_strlit("1");
    reveal_strlit("true");
    reveal_strlit("on");
    assert("1"@ =~= seq!['1']);
    assert("true"@ =~= seq!['t', 'r', 'u', 'e']);
    assert("on"@ =~= seq!['o', 'n']);
    lemma_lower_is(value, "1"@);
    lemma_lower_is(value, "true"@);
    lemma_lower_is(value, "on"@);
}

/// `raw` or `nef` occurs in `f`, in any ASCII case.
pub open spec fn names_raw(f: Seq<char>) -> bool {
    exists|i: int|
        0 <= i && i + 3 <= f.len() && (reads_as(#[trigger] f.subrange(i, i + 3), seq!['r', 'a', 'w'])
            || reads_as(f.subrange(i, i + 3), seq!['n', 'e', 'f']))
}

/// A capture is saved as `nef` when its image format names a raw format
/// (`raw` or `nef` anywhere in it, in any case), and as `jpg` otherwise or
/// when no format is asked.
pub proof fn law_extension_follows_format(image_format: Option<Seq<char>>)
    ensures
        image_format is None ==> extension_for_format(image_format) == "jpg"@,
        image_format matches Some(f) ==> (names_raw(f) ==> extension_for_format(image_format)
            == "nef"@),
        image_format matches Some(f) ==> (!names_raw(f) ==> extension_for_format(image_format)
            == "jpg"@),
{
    reveal_strlit("raw");
    reveal_strlit("nef");
    assert("raw"@ =~= seq!['r', 'a', 'w']);
    assert("nef"@ =~= seq!['n', 'e', 'f']);
    if let Some(f) = image_format {
        let l = lower_seq(f);
        if names_raw(f) {
            let i = choose|i: int|
                0 <= i && i + 3 <= f.len() && (reads_as(
                    #[trigger] f.subrange(i, i + 3),
                    seq!['r', 'a', 'w'],
                ) || reads_as(f.subrange(i, i + 3), seq!['n', 'e', 'f']));
            assert(l.subrange(i, i + 3) =~= lower_seq(f.subrange(i, i + 3)));
            lemma_lower_is(f.subrange(i, i + 3), "raw"@);
            lemma_lower_is(f.subrange(i, i + 3), "nef"@);
            assert(crate::text::occurs_at(l, "raw"@, i) || crate::text::occurs_at(l, "nef"@, i));
        }
        if crate::text::seq_contains(l, "raw"@) || crate::text::seq_contains(l, "nef"@) {
            let i = choose|i: int| crate::text::occurs_at(l, "raw"@, i) || crate::text::occurs_at(l, "nef"@, i);
            assert(l.subrange(i, i + 3) =~= lower_seq(f.subrange(i, i + 3)));
            lemma_lower_is(f.subrange(i, i + 3), "raw"@);
            lemma_lower_is(f.subrange(i, i + 3), "nef"@);
            assert(reads_as(f.subrange(i, i + 3), seq!['r', 'a', 'w']) || reads_as(
                f.subrange(i, i + 3),
                seq!['n', 'e', 'f'],
            ));
        }
    }
}

/// A capture target of `sdram` or `ram`, in any ASCII case, is tried as
/// `sdram`, `Internal RAM`, `Memory buffer` and `memory buffer`, in that
/// order; one of `card`, `sd` or `sdcard` as `card`, `Memory card` and
/// `memory card`; any other target is unknown.
pub proof fn law_capture_target_names(t: Seq<char>)
    ensures
        reads_as(t, seq!['s', 'd', 'r', 'a', 'm']) || reads_as(t, seq!['r', 'a', 'm'])
            ==> target_candidates(t) == Some(
            seq!["sdram"@, "Internal RAM"@, "Memory buffer"@, "memory buffer"@],
        ),
        reads_as(t, seq!['c', 'a', 'r', 'd']) || reads_as(t, seq!['s', 'd']) || reads_as(
            t,
            seq!['s', 'd', 'c', 'a', 'r', 'd'],
        ) ==> target_candidates(t) == Some(seq!["card"@, "Memory card"@, "memory card"@]),
        !(reads_as(t, seq!['s', 'd', 'r', 'a', 'm']) || reads_as(t, seq!['r', 'a', 'm']) || reads_as(
            t,
            seq!['c', 'a', 'r', 'd'],
        ) || reads_as(t, seq!['s', 'd']) || reads_as(t, seq!['s', 'd', 'c', 'a', 'r', 'd']))
            ==> target_candidates(t) is None,
{
    reveal_strlit("sdram");
    reveal_strlit("ram");
    reveal_strlit("card");
    reveal_strlit("sd");
    reveal_strlit("sdcard");
    assert("sdram"@ =~= seq!['s', 'd', 'r', 'a', 'm']);
    assert("ram"@ =~= seq!['r', 'a', 'm']);
    assert("card"@ =~= seq!['c', 'a', 'r', 'd']);
    assert("sd"@ =~= seq!['s', 'd']);
    assert("sdcard"@ =~= seq!['s', 'd', 'c', 'a', 'r', 'd']);
    lemma_lower_is(t, "sdram"@);
    lemma_lower_is(t, "ram"@);
    lemma_lower_is(t, "card"@);
    lemma_lower_is(t, "sd"@);
    lemma_lower_is(t, "sdcard"@);
}

/// A queue attempt changes nothing while some job is queued, capturing or
/// downloading, or when the id is taken; otherwise it appends a fresh queued
/// job, created at the time of the attempt, after every job already there.
pub proof fn law_queue_attempt(
    s: Seq<CaptureRecord>,
    id: String,
    request_json: String,
    now: Timestamp,
)
    ensures
        (exists|i: int|
            0 <= i < s.len() && ((#[trigger] s[i]).status == CaptureStatus::Queued || s[i].status
                == CaptureStatus::Capturing || s[i].status == CaptureStatus::Downloading))
            ==> after_insert(s, id, request_json, now) == s,
        (exists|i: int| 0 <= i < s.len() && (#[trigger] s[i]).id@ == id@) ==> after_insert(
            s,
            id,
            request_json,
            now,
        ) == s,
        (forall|i: int|
            0 <= i < s.len() ==> (#[trigger] s[i]).status != CaptureStatus::Queued && s[i].status
                != CaptureStatus::Capturing && s[i].status != CaptureStatus::Downloading && s[i].id@
                != id@) ==> ({
            let t = after_insert(s, id, request_json, now);
            &&& t.len() == s.len() + 1
            &&& t.subrange(0, s.len() as int) == s
            &&& t[s.len() as int].id == id && t[s.len() as int].request_json == request_json
            &&& t[s.len() as int].status == CaptureStatus::Queued
            &&& t[s.len() as int].created_at == now
        }),
{
    lemma_index_of(s, id@);
    if exists|i: int| 0 <= i < s.len() && (#[trigger] s[i]).id@ == id@ {
        let i = choose|i: int| 0 <= i < s.len() && (#[trigger] s[i]).id@ == id@;
        lemma_index_is_found(s, id@, i);
    }
    let t = after_insert(s, id, request_json, now);
    if !crate::capture_store::insert_refused(s, id@) {
        assert(t.subrange(0, s.len() as int) =~= s);
    }
}

proof fn lemma_index_is_found(s: Seq<CaptureRecord>, id: Seq<char>, i: int)
    requires
        0 <= i < s.len(),
        s[i].id@ == id,
    ensures
        index_of(s, id) >= 0,
    decreases s.len(),
{
    if s[0].id@ != id {
        lemma_index_is_found(s.drop_first(), id, i - 1);
    }
}

/// The arithmetic of byte ranges: a difference that would go below zero
/// stops at zero, and the smaller of two numbers is one of them and no
/// larger than either.
pub proof fn law_range_arithmetic(a: u64, b: u64)
    ensures
        a >= b ==> sat_sub(a, b) == a - b,
        a < b ==> sat_sub(a, b) == 0,
        min_u64(a, b) <= a && min_u64(a, b) <= b,
        min_u64(a, b) == a || min_u64(a, b) == b,
{
}

proof fn lemma_rfind(s: Seq<char>, c: char)
    ensures
        -1 <= rfind(s, c) < s.len(),
        rfind(s, c) >= 0 ==> s[rfind(s, c)] == c,
        forall|j: int| rfind(s, c) < j < s.len() ==> s[j] != c,
    decreases s.len(),
{
    if s.len() > 0 && s.last() != c {
        lemma_rfind(s.drop_last(), c);
        assert forall|j: int| rfind(s, c) < j < s.len() implies s[j] != c by {
            if j < s.len() - 1 {
                assert(s[j] == s.drop_last()[j]);
            }
        }
    }
}

/// The extension of a downloaded file's name is what follows its last dot:
/// it holds no dot, it ends the name, and either a dot stands just before it
/// or the name has no dot and is its own extension.
pub proof fn law_extension_follows_last_dot(name: Seq<char>)
    ensures
        ({
            let ext = after_last(name, '.');
            &&& forall|k: int| 0 <= k < ext.len() ==> ext[k] != '.'
            &&& ext.len() <= name.len()
            &&& name.subrange(name.len() - ext.len(), name.len() as int) == ext
            &&& (name.contains('.') ==> name[name.len() - ext.len() - 1] == '.')
            &&& (!name.contains('.') ==> ext == name)
        }),
{
    lemma_rfind(name, '.');
    let ext = after_last(name, '.');
    assert forall|k: int| 0 <= k < ext.len() implies ext[k] != '.' by {
        assert(ext[k] == name[rfind(name, '.') + 1 + k]);
    }
    assert(name.subrange(name.len() - ext.len(), name.len() as int) =~= ext);
    if name.contains('.') {
        let j = choose|j: int| 0 <= j < name.len() && name[j] == '.';
        assert(rfind(name, '.') >= j);
    } else {
        if rfind(name, '.') >= 0 {
            assert(name[rfind(name, '.')] == '.');
        }
        assert(ext =~= name);
    }
}

/// A restart fails each job that was queued, capturing or downloading, with
/// the reason as its error and the time of the restart as its completion
/// time, keeping everything else; a complete, failed or canceled job is left
/// as it was.
pub proof fn law_restart_fails_running_jobs(
    old: CaptureRecord,
    new: CaptureRecord,
    reason: Seq<char>,
    now: Timestamp,
)
    requires
        inflight_failed(old, new, reason, now),
    ensures
        (old.status == CaptureStatus::Queued || old.status == CaptureStatus::Capturing || old.status
            == CaptureStatus::Downloading) ==> {
            &&& new.status == CaptureStatus::Failed
            &&& new.error matches Some(e) && e@ == reason
            &&& new.completed_at == Some(now)
            &&& same_identity(new, old)
            &&& new.started_at == old.started_at && new.downloaded_at == old.downloaded_at
        },
        (old.status == CaptureStatus::Complete || old.status == CaptureStatus::Failed || old.status
            == CaptureStatus::Canceled) ==> new == old,
{
}

/// The settings a service starts with when the environment gives none: a
/// 20 s wait for camera events, a 900 s request limit, 2 retries, 512 MiB
/// of free space, fetched captures kept for a day, a sweep every 10 minutes
/// and never more often than every 30 s, and a keep-alive probe every 2
/// minutes.
pub proof fn law_setting_defaults()
    ensures
        crate::config::DEFAULT_CAPTURE_EVENT_TIMEOUT_SECS == 20,
        crate::config::DEFAULT_REQUEST_TIMEOUT_SECS == 900,
        crate::config::DEFAULT_CAMERA_RETRIES == 2,
        crate::config::DEFAULT_MIN_FREE_SPACE_BYTES == 536_870_912,
        crate::config::DEFAULT_DOWNLOADED_RETENTION_SECS == 86_400,
        crate::config::DEFAULT_RETENTION_SWEEP_INTERVAL_SECS == 600,
        crate::config::MIN_RETENTION_SWEEP_INTERVAL_SECS == 30,
        crate::config::DEFAULT_KEEPALIVE_INTERVAL_SECS == 120,
{
}

} // verus!

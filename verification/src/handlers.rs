use vstd::prelude::*;

use crate::capture_store::{
    index_of, is_created_order_of, list_threshold, listed_records, lookup, page_len,
    replace_by_id, canceled_record, downloaded_record, has_active, queued_record, CaptureStore,
};
use crate::error::{
    is_capture_failed_err, is_conflict_err, is_not_found_err, is_validation_err, ApiError,
};
use crate::models::{
    CameraCapabilitiesResponse, CaptureAccepted, CaptureListResponse, CaptureRecord,
    CaptureRequest, CaptureStatus, HealthResponse, ListCapturesQuery, RecoverResponse, Timestamp,
};
use crate::text::{
    chars_of, find, find_char, format_u64, parse_unsigned, parse_unsigned_chars, sub_chars,
    decimal,
};

verus! {

// ---------------------------------------------------------------------------
// Messages
// ---------------------------------------------------------------------------

/// The text of "capture '<id>' not found".
pub open spec fn not_found_text(id: Seq<char>) -> Seq<char> {
    "capture '"@ + id + "' not found"@
}

/// The answer for an id that names no job.
pub fn capture_not_found(id: &str) -> (e: ApiError)
    ensures
        e matches ApiError::NotFound(m) && m@ == not_found_text(id@),
{
    let mut m = String::from_str("capture '");
    m.append(id);
    m.append("' not found");
    ApiError::NotFound(m)
}

/// How a status is spelled in diagnostics (its Rust name).
pub open spec fn status_debug_name(status: CaptureStatus) -> Seq<char> {
    match status {
        CaptureStatus::Queued => "Queued"@,
        CaptureStatus::Capturing => "Capturing"@,
        CaptureStatus::Downloading => "Downloading"@,
        CaptureStatus::Complete => "Complete"@,
        CaptureStatus::Failed => "Failed"@,
        CaptureStatus::Canceled => "Canceled"@,
    }
}

fn debug_name(status: CaptureStatus) -> (r: &'static str)
    ensures
        r@ == status_debug_name(status),
{
    match status {
        CaptureStatus::Queued => "Queued",
        CaptureStatus::Capturing => "Capturing",
        CaptureStatus::Downloading => "Downloading",
        CaptureStatus::Complete => "Complete",
        CaptureStatus::Failed => "Failed",
        CaptureStatus::Canceled => "Canceled",
    }
}

// ---------------------------------------------------------------------------
// Creating and reading jobs
// ---------------------------------------------------------------------------

/// A capture request is refused when it asks for an exposure of zero seconds.
pub open spec fn request_is_valid(request: CaptureRequest) -> bool {
    request.exposure_seconds != Some(0u64)
}

/// Checks a capture request before anything is stored.
pub fn validate_capture_request(request: &CaptureRequest) -> (r: Result<(), ApiError>)
    ensures
        r is Ok <==> request_is_valid(*request),
        r is Err ==> is_validation_err(r, "exposure_seconds must be greater than zero"@),
{
    if let Some(exposure_seconds) = request.exposure_seconds {
        if exposure_seconds == 0 {
            return Err(
                ApiError::Validation(String::from_str("exposure_seconds must be greater than zero")),
            );
        }
    }
    Ok(())
}

/// The refusal of a capture while another one is running.
pub fn capture_already_running() -> (e: ApiError)
    ensures
        e matches ApiError::Conflict(m) && m@ == "only one capture may run at a time"@,
{
    ApiError::Conflict(String::from_str("only one capture may run at a time"))
}

/// The name a downloaded file is offered under when its path has none.
pub const DEFAULT_DOWNLOAD_NAME: &'static str = "capture.bin";

/// Accepts a capture request: it is validated, then queued under `capture_id`
/// unless a job is still running (only one capture may run at a time).
pub fn create_capture(
    store: &mut CaptureStore,
    capture_id: String,
    request: &CaptureRequest,
    request_json: String,
    now: Timestamp,
) -> (r: Result<CaptureAccepted, ApiError>)
    requires
        old(store).wf(),
    ensures
        final(store).wf(),
        !request_is_valid(*request) ==> final(store)@ == old(store)@ && is_validation_err(
            r,
            "exposure_seconds must be greater than zero"@,
        ),
        request_is_valid(*request) && (has_active(old(store)@) || index_of(old(store)@, capture_id@)
            >= 0) ==> final(store)@ == old(store)@ && is_conflict_err(
            r,
            "only one capture may run at a time"@,
        ),
        request_is_valid(*request) && !(has_active(old(store)@) || index_of(
            old(store)@,
            capture_id@,
        ) >= 0) ==> r == Ok::<CaptureAccepted, ApiError>(
            (CaptureAccepted { capture_id, status: CaptureStatus::Queued }),
        )
            && final(store)@ == old(store)@.push(queued_record(capture_id, request_json, now)),
{
    validate_capture_request(request)?;
    let inserted = store.insert_queued_if_idle(capture_id.clone(), request_json, now);
    if inserted.is_none() {
        return Err(capture_already_running());
    }
    Ok(CaptureAccepted { capture_id, status: CaptureStatus::Queued })
}

/// The job with the given id.
pub fn get_capture(store: &CaptureStore, id: &str) -> (r: Result<CaptureRecord, ApiError>)
    ensures
        match lookup(store@, id@) {
            Some(rec) => r == Ok::<CaptureRecord, ApiError>(rec),
            None => is_not_found_err(r, not_found_text(id@)),
        },
{
    match store.get(id) {
        Some(rec) => Ok(rec),
        None => Err(capture_not_found(id)),
    }
}

/// The page size of a listing: 50 when not given, and never below 1 or above 200.
pub open spec fn page_limit_spec(limit: Option<usize>) -> usize {
    match limit {
        Some(l) => if l < 1 { 1 } else if l > 200 { 200 } else { l },
        None => 50,
    }
}

/// The page size of a listing: 50 when not given, clamped to 1..=200.
pub fn page_limit(limit: Option<usize>) -> (r: usize)
    ensures
        r == page_limit_spec(limit),
        1 <= r <= 200,
{
    let l = match limit {
        Some(l) => l,
        None => 50,
    };
    if l < 1 {
        1
    } else if l > 200 {
        200
    } else {
        l
    }
}

/// The text of an optional string.
pub open spec fn string_opt_view(o: Option<String>) -> Option<Seq<char>> {
    match o {
        Some(a) => Some(a@),
        None => None,
    }
}

/// A page of jobs, as `CaptureStore::list` gives it, with the page size of
/// `page_limit`.
pub fn list_captures(store: &CaptureStore, query: &ListCapturesQuery) -> (r: CaptureListResponse)
    ensures
        exists|all: Seq<CaptureRecord>|
            #[trigger] is_created_order_of(
                all,
                listed_records(
                    store@,
                    query.status,
                    list_threshold(store@, string_opt_view(query.after)),
                ),
            ) && r.items@ == all.take(
                page_len(
                    page_limit_spec(query.limit),
                    listed_records(
                        store@,
                        query.status,
                        list_threshold(store@, string_opt_view(query.after)),
                    ).len(),
                ) as int,
            ),
{
    let limit = page_limit(query.limit);
    let after: Option<&str> = match &query.after {
        Some(a) => Some(a.as_str()),
        None => None,
    };
    let items = store.list(query.status, limit, after);
    CaptureListResponse { items }
}

/// Marks the job's file as fetched by the client and hands the job back.
pub fn mark_downloaded(store: &mut CaptureStore, id: &str, now: Timestamp) -> (r: Result<
    CaptureRecord,
    ApiError,
>)
    requires
        old(store).wf(),
    ensures
        final(store).wf(),
        match lookup(old(store)@, id@) {
            Some(rec) => final(store)@ == replace_by_id(old(store)@, id@, downloaded_record(rec, now))
                && r == Ok::<CaptureRecord, ApiError>(downloaded_record(rec, now)),
            None => final(store)@ == old(store)@ && is_not_found_err(r, not_found_text(id@)),
        },
{
    if store.get(id).is_none() {
        return Err(capture_not_found(id));
    }
    store.mark_downloaded(id, now);
    proof {
        let k = index_of(old(store)@, id@);
        crate::capture_store::lemma_index_of(old(store)@, id@);
        crate::capture_store::lemma_index_of_unique(store@, k);
    }
    match store.get(id) {
        Some(rec) => Ok(rec),
        None => Err(capture_not_found(id)),
    }
}

/// Cancels the job if it has not finished yet, and hands the job back.
pub fn cancel_capture(store: &mut CaptureStore, id: &str, now: Timestamp) -> (r: Result<
    CaptureRecord,
    ApiError,
>)
    requires
        old(store).wf(),
    ensures
        final(store).wf(),
        match lookup(old(store)@, id@) {
            Some(rec) => final(store)@ == replace_by_id(old(store)@, id@, canceled_record(rec, now))
                && r == Ok::<CaptureRecord, ApiError>(canceled_record(rec, now)),
            None => final(store)@ == old(store)@ && is_not_found_err(r, not_found_text(id@)),
        },
{
    if store.get(id).is_none() {
        return Err(capture_not_found(id));
    }
    store.set_canceled(id, now);
    proof {
        let k = index_of(old(store)@, id@);
        crate::capture_store::lemma_index_of(old(store)@, id@);
        crate::capture_store::lemma_index_of_unique(store@, k);
    }
    match store.get(id) {
        Some(rec) => Ok(rec),
        None => Err(capture_not_found(id)),
    }
}

/// Removes the job and hands it back (its saved file is to be removed too).
pub fn delete_capture(store: &mut CaptureStore, id: &str) -> (r: Result<CaptureRecord, ApiError>)
    requires
        old(store).wf(),
    ensures
        final(store).wf(),
        match lookup(old(store)@, id@) {
            Some(rec) => final(store)@ == old(store)@.remove(index_of(old(store)@, id@)) && r
                == Ok::<CaptureRecord, ApiError>(rec),
            None => final(store)@ == old(store)@ && is_not_found_err(r, not_found_text(id@)),
        },
{
    match store.delete(id) {
        Some(rec) => Ok(rec),
        None => Err(capture_not_found(id)),
    }
}

/// Where the file of a finished job lies: the job must exist, be complete and
/// have a saved path.
pub fn get_capture_file(store: &CaptureStore, id: &str) -> (r: Result<String, ApiError>)
    ensures
        match lookup(store@, id@) {
            None => is_not_found_err(r, not_found_text(id@)),
            Some(rec) => if rec.status != CaptureStatus::Complete {
                is_conflict_err(r, "capture not ready: "@ + status_debug_name(rec.status))
            } else {
                match rec.saved_path {
                    Some(p) => r == Ok::<String, ApiError>(p),
                    None => is_capture_failed_err(r, "capture completed but has no saved path"@),
                }
            },
        },
{
    let record = match store.get(id) {
        Some(rec) => rec,
        None => {
            return Err(capture_not_found(id));
        },
    };
    if record.status != CaptureStatus::Complete {
        let mut m = String::from_str("capture not ready: ");
        m.append(debug_name(record.status));
        return Err(ApiError::Conflict(m));
    }
    match record.saved_path {
        Some(p) => Ok(p),
        None => Err(
            ApiError::CaptureFailed(String::from_str("capture completed but has no saved path")),
        ),
    }
}

// ---------------------------------------------------------------------------
// Camera status answers
// ---------------------------------------------------------------------------

/// The health answer, given what the camera probe returned.
pub fn health(camera_model: Result<Option<String>, ApiError>) -> (r: Result<HealthResponse, ApiError>)
    ensures
        match camera_model {
            Ok(m) => r matches Ok(h) && h.status@ == "ok"@ && h.camera_model == m,
            Err(e) => r == Err::<HealthResponse, ApiError>(e),
        },
{
    let model = camera_model?;
    Ok(HealthResponse { status: "ok", camera_model: model })
}

/// The recovery answer, given what the camera recovery returned.
pub fn recover_camera(camera_model: Result<Option<String>, ApiError>) -> (r: Result<
    RecoverResponse,
    ApiError,
>)
    ensures
        match camera_model {
            Ok(m) => r matches Ok(h) && h.status@ == "recovered"@ && h.camera_model == m,
            Err(e) => r == Err::<RecoverResponse, ApiError>(e),
        },
{
    let model = camera_model?;
    Ok(RecoverResponse { status: "recovered", camera_model: model })
}

/// The request options a client may set, in the order they are listed.
pub open spec fn supported_option_names() -> Seq<Seq<char>> {
    seq![
        "iso"@,
        "shutter_speed"@,
        "exposure_seconds"@,
        "aperture"@,
        "color_space"@,
        "image_format"@,
        "exposure_program"@,
        "capture_target"@,
    ]
}

/// The capabilities answer, given what the camera probe returned.
pub fn camera_capabilities(camera_model: Result<Option<String>, ApiError>) -> (r: Result<
    CameraCapabilitiesResponse,
    ApiError,
>)
    ensures
        match camera_model {
            Ok(m) => r matches Ok(c) && c.camera_model == m && c.supported_options@.len() == 8
                && forall|i: int|
                0 <= i < 8 ==> #[trigger] c.supported_options@[i]@ == supported_option_names()[i],
            Err(e) => r == Err::<CameraCapabilitiesResponse, ApiError>(e),
        },
{
    let model = camera_model?;
    let mut options: Vec<String> = Vec::new();
    options.push(String::from_str("iso"));
    options.push(String::from_str("shutter_speed"));
    options.push(String::from_str("exposure_seconds"));
    options.push(String::from_str("aperture"));
    options.push(String::from_str("color_space"));
    options.push(String::from_str("image_format"));
    options.push(String::from_str("exposure_program"));
    options.push(String::from_str("capture_target"));
    Ok(CameraCapabilitiesResponse { camera_model: model, supported_options: options })
}

// ---------------------------------------------------------------------------
// Byte ranges
// ---------------------------------------------------------------------------

/// `a - b`, or 0 when `b` is larger (`u64::saturating_sub`).
pub open spec fn sat_sub(a: u64, b: u64) -> u64 {
    if a >= b {
        (a - b) as u64
    } else {
        0
    }
}

/// The smaller of two numbers.
pub open spec fn min_u64(a: u64, b: u64) -> u64 {
    if a <= b {
        a
    } else {
        b
    }
}

/// The byte range that a `Range` header asks of a file of `size` bytes: one
/// range, `bytes=<start>-<end>`, `bytes=<start>-` or `bytes=-<suffix length>`.
/// The end is clamped to the last byte; a start beyond the end, or at or past
/// the file's end, is refused; several ranges are refused.
pub open spec fn single_range(h: Seq<char>, size: u64) -> Option<(u64, u64)> {
    let prefix = seq!['b', 'y', 't', 'e', 's', '='];
    if !(h.len() >= 6 && h.subrange(0, 6) == prefix) {
        None
    } else {
        let raw = h.subrange(6, h.len() as int);
        let k = find(raw, '-');
        if raw.contains(',') || k < 0 {
            None
        } else {
            let start_raw = raw.subrange(0, k);
            let end_raw = raw.subrange(k + 1, raw.len() as int);
            if start_raw.len() == 0 {
                match parse_unsigned(end_raw, u64::MAX as nat) {
                    Some(n) => Some((sat_sub(size, n as u64), sat_sub(size, 1))),
                    None => None,
                }
            } else {
                match parse_unsigned(start_raw, u64::MAX as nat) {
                    None => None,
                    Some(st) => {
                        let end: Option<u64> = if end_raw.len() == 0 {
                            Some(sat_sub(size, 1))
                        } else {
                            match parse_unsigned(end_raw, u64::MAX as nat) {
                                Some(e) => Some(min_u64(e as u64, sat_sub(size, 1))),
                                None => None,
                            }
                        };
                        match end {
                            None => None,
                            Some(e) => if st > e || st >= size {
                                None
                            } else {
                                Some((st as u64, e))
                            },
                        }
                    },
                }
            }
        }
    }
}

/// Reads a `Range` header for a file of `file_size` bytes.
pub fn parse_single_range(range_header: &str, file_size: u64) -> (r: Option<(u64, u64)>)
    ensures
        r == single_range(range_header@, file_size),
{
    let h = chars_of(range_header);
    let n = h.len();
    if n < 6 || h[0] != 'b' || h[1] != 'y' || h[2] != 't' || h[3] != 'e' || h[4] != 's' || h[5]
        != '=' {
        proof {
            if n >= 6 {
                let prefix = seq!['b', 'y', 't', 'e', 's', '='];
                if h@.subrange(0, 6) == prefix {
                    assert(h@.subrange(0, 6)[0] == h@[0]);
                    assert(h@.subrange(0, 6)[1] == h@[1]);
                    assert(h@.subrange(0, 6)[2] == h@[2]);
                    assert(h@.subrange(0, 6)[3] == h@[3]);
                    assert(h@.subrange(0, 6)[4] == h@[4]);
                    assert(h@.subrange(0, 6)[5] == h@[5]);
                }
            }
        }
        return None;
    }
    assert(h@.subrange(0, 6) =~= seq!['b', 'y', 't', 'e', 's', '=']);
    let raw = sub_chars(&h, 6, n);
    if find_char(&raw, ',').is_some() {
        return None;
    }
    let k = match find_char(&raw, '-') {
        Some(k) => k,
        None => {
            return None;
        },
    };
    let start_raw = sub_chars(&raw, 0, k);
    let end_raw = sub_chars(&raw, k + 1, raw.len());
    let last: u64 = if file_size >= 1 { file_size - 1 } else { 0 };
    if start_raw.len() == 0 {
        let suffix_len = parse_unsigned_chars(&end_raw, u64::MAX)?;
        let start: u64 = if file_size >= suffix_len { file_size - suffix_len } else { 0 };
        return Some((start, last));
    }
    let start = parse_unsigned_chars(&start_raw, u64::MAX)?;
    let end: u64 = if end_raw.len() == 0 {
        last
    } else {
        let e = parse_unsigned_chars(&end_raw, u64::MAX)?;
        if e <= last { e } else { last }
    };
    if start > end || start >= file_size {
        return None;
    }
    Some((start, end))
}

/// What to send for a ranged request: the first and last byte, and how many
/// bytes that is.
#[derive(Debug, Clone, Copy, PartialEq, Eq)]
pub struct ByteRange {
    pub start: u64,
    pub end: u64,
    pub length: u64,
}

/// The byte range to serve for a `Range` header, or the refusal of the header.
/// A range that starts past its end (`bytes=-0` on a non-empty file) is refused
/// like any other unusable range.
pub fn resolve_range(range_header: &str, file_size: u64) -> (r: Result<ByteRange, ApiError>)
    ensures
        match single_range(range_header@, file_size) {
            Some((st, e)) => if st <= e {
                r matches Ok(b) && b.start == st && b.end == e && b.length == e - st + 1
            } else {
                is_validation_err(r, "unsupported or invalid range"@)
            },
            None => is_validation_err(r, "unsupported or invalid range"@),
        },
{
    match parse_single_range(range_header, file_size) {
        Some((start, end)) => {
            if start > end {
                return Err(ApiError::Validation(String::from_str("unsupported or invalid range")));
            }
            Ok(ByteRange { start, end, length: end - start + 1 })
        },
        None => Err(ApiError::Validation(String::from_str("unsupported or invalid range"))),
    }
}

/// The refusal of a `Range` header that is not text.
pub fn invalid_range_header() -> (e: ApiError)
    ensures
        e matches ApiError::Validation(m) && m@ == "invalid range header"@,
{
    ApiError::Validation(String::from_str("invalid range header"))
}

/// The answer when the file behind a job cannot be found.
pub fn file_not_found(path: &str) -> (e: ApiError)
    ensures
        e matches ApiError::NotFound(m) && m@ == "file '"@ + path@ + "' not found"@,
{
    let mut m = String::from_str("file '");
    m.append(path);
    m.append("' not found");
    ApiError::NotFound(m)
}

/// The `Content-Range` header of a partial answer: `bytes <start>-<end>/<size>`.
pub fn content_range(start: u64, end: u64, size: u64) -> (r: String)
    ensures
        r@ == "bytes "@ + decimal(start as nat) + "-"@ + decimal(end as nat) + "/"@ + decimal(
            size as nat,
        ),
{
    let mut s = String::from_str("bytes ");
    let a = format_u64(start);
    s.append(a.as_str());
    s.append("-");
    let b = format_u64(end);
    s.append(b.as_str());
    s.append("/");
    let c = format_u64(size);
    s.append(c.as_str());
    s
}

/// The `Content-Disposition` header that offers the file under its own name.
pub fn content_disposition(file_name: &str) -> (r: String)
    ensures
        r@ == "attachment; filename=\""@ + file_name@ + "\""@,
{
    let mut s = String::from_str("attachment; filename=\"");
    s.append(file_name);
    s.append("\"");
    s
}

} // verus!

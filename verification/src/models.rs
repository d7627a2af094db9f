use vstd::prelude::*;

verus! {

/// A point in time: whole seconds since the Unix epoch and the nanoseconds
/// within that second, as `chrono` reports them for a UTC date-time.
#[derive(Debug, Clone, Copy, PartialEq, Eq, Structural)]
pub struct Timestamp {
    pub secs: i64,
    pub nanos: u32,
}

/// `a` lies strictly before `b`.
pub open spec fn ts_before(a: Timestamp, b: Timestamp) -> bool {
    a.secs < b.secs || (a.secs == b.secs && a.nanos < b.nanos)
}

impl Timestamp {
    /// Whether `self` lies strictly before `other`.
    pub fn is_before(&self, other: &Timestamp) -> (r: bool)
        ensures
            r == ts_before(*self, *other),
    {
        self.secs < other.secs || (self.secs == other.secs && self.nanos < other.nanos)
    }
}

/// The settings a client asks a capture to be taken with.
#[derive(Debug, Clone)]
pub struct CaptureRequest {
    pub iso: Option<String>,
    pub shutter_speed: Option<String>,
    pub exposure_seconds: Option<u64>,
    pub aperture: Option<String>,
    pub color_space: Option<String>,
    pub image_format: Option<String>,
    pub exposure_program: Option<String>,
    pub capture_target: Option<String>,
    pub auto_recover_usb: Option<bool>,
}

/// What the camera backend reports of a finished capture.
#[derive(Debug, Clone)]
pub struct CaptureResponse {
    pub capture_id: String,
    pub camera_model: String,
    pub saved_path: String,
    pub source_folder: String,
    pub source_name: String,
    pub captured_at: Timestamp,
    pub attempt_count: u8,
}

/// The life cycle of a capture job.
#[derive(Debug, Clone, Copy, PartialEq, Eq, Structural)]
pub enum CaptureStatus {
    Queued,
    Capturing,
    Downloading,
    Complete,
    Failed,
    Canceled,
}

/// A job that has not finished yet: queued, capturing or downloading.
pub open spec fn is_active(status: CaptureStatus) -> bool {
    status == CaptureStatus::Queued || status == CaptureStatus::Capturing || status
        == CaptureStatus::Downloading
}

impl CaptureStatus {
    /// Whether the job has not finished yet.
    pub fn is_in_flight(&self) -> (r: bool)
        ensures
            r == is_active(*self),
    {
        match self {
            CaptureStatus::Queued | CaptureStatus::Capturing | CaptureStatus::Downloading => true,
            _ => false,
        }
    }
}

/// The answer to an accepted capture request.
#[derive(Debug, Clone)]
pub struct CaptureAccepted {
    pub capture_id: String,
    pub status: CaptureStatus,
}

/// One stored capture job.
#[derive(Debug, Clone, PartialEq)]
pub struct CaptureRecord {
    pub id: String,
    pub status: CaptureStatus,
    pub request_json: String,
    pub camera_model: Option<String>,
    pub saved_path: Option<String>,
    pub source_folder: Option<String>,
    pub source_name: Option<String>,
    pub size_bytes: Option<u64>,
    pub checksum: Option<String>,
    pub error: Option<String>,
    pub attempt_count: u8,
    pub created_at: Timestamp,
    pub started_at: Option<Timestamp>,
    pub completed_at: Option<Timestamp>,
    pub downloaded_at: Option<Timestamp>,
}

/// Copies an optional string.
pub fn copy_opt_string(o: &Option<String>) -> (r: Option<String>)
    ensures
        r == *o,
{
    match o {
        Some(s) => Some(s.clone()),
        None => None,
    }
}

impl CaptureRecord {
    /// A field-by-field copy of the record.
    pub fn copy_record(&self) -> (r: CaptureRecord)
        ensures
            r == *self,
    {
        CaptureRecord {
            id: self.id.clone(),
            status: self.status,
            request_json: self.request_json.clone(),
            camera_model: copy_opt_string(&self.camera_model),
            saved_path: copy_opt_string(&self.saved_path),
            source_folder: copy_opt_string(&self.source_folder),
            source_name: copy_opt_string(&self.source_name),
            size_bytes: self.size_bytes,
            checksum: copy_opt_string(&self.checksum),
            error: copy_opt_string(&self.error),
            attempt_count: self.attempt_count,
            created_at: self.created_at,
            started_at: self.started_at,
            completed_at: self.completed_at,
            downloaded_at: self.downloaded_at,
        }
    }
}

/// A page of capture jobs.
#[derive(Debug, Clone)]
pub struct CaptureListResponse {
    pub items: Vec<CaptureRecord>,
}

/// The query of a listing: an optional status filter, a page size and a cursor.
#[derive(Debug, Clone)]
pub struct ListCapturesQuery {
    pub status: Option<CaptureStatus>,
    pub limit: Option<usize>,
    pub after: Option<String>,
}

/// The answer of the health probe.
#[derive(Debug, Clone)]
pub struct HealthResponse {
    pub status: &'static str,
    pub camera_model: Option<String>,
}

/// The answer of a recovery.
#[derive(Debug, Clone)]
pub struct RecoverResponse {
    pub status: &'static str,
    pub camera_model: Option<String>,
}

/// The camera model and the request options that can be set.
#[derive(Debug, Clone)]
pub struct CameraCapabilitiesResponse {
    pub camera_model: Option<String>,
    pub supported_options: Vec<String>,
}

/// The body of every error answer.
#[derive(Debug, Clone)]
pub struct ErrorResponse {
    pub code: String,
    pub message: String,
    pub request_id: String,
}

} // verus!

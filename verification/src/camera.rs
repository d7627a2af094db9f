use vstd::prelude::*;

use crate::error::{is_validation_err, ApiError};
use crate::models::CaptureRequest;
use crate::text::{
    after_last, after_last_char, chars_of, is_word, contains_chars, eq_ignore_ascii_case,
    eq_ignore_case, lower_seq, lowered_chars, parse_i32, parse_i32_spec, seq_contains,
};

verus! {

/// `std::path::PathBuf`, carried through as an opaque value.
#[verifier::external_type_specification]
#[verifier::external_body]
pub struct ExPathBuf(std::path::PathBuf);

/// Talks to the camera through libgphoto2: where captures are saved, how long
/// to wait for camera events, and how often to retry after a lost link.
pub struct GphotoBackend {
    pub capture_dir: std::path::PathBuf,
    pub event_timeout: std::time::Duration,
    pub retries: u8,
}

impl GphotoBackend {
    /// A backend that saves into `capture_dir`.
    pub fn new(capture_dir: std::path::PathBuf, event_timeout: std::time::Duration, retries: u8) -> (r:
        Self)
        ensures
            r.capture_dir == capture_dir,
            r.event_timeout == event_timeout,
            r.retries == retries,
    {
        Self { capture_dir, event_timeout, retries }
    }
}

// ---------------------------------------------------------------------------
// File names
// ---------------------------------------------------------------------------

/// The file extension that an image format asks for: `nef` for raw formats,
/// `jpg` otherwise.
pub open spec fn extension_for_format(image_format: Option<Seq<char>>) -> Seq<char> {
    match image_format {
        None => "jpg"@,
        Some(f) => if seq_contains(lower_seq(f), "raw"@) || seq_contains(lower_seq(f), "nef"@) {
            "nef"@
        } else {
            "jpg"@
        },
    }
}

/// The file extension that an image format asks for.
pub fn extension_from_image_format(image_format: Option<&str>) -> (r: &'static str)
    ensures
        r@ == extension_for_format(
            match image_format {
                Some(f) => Some(f@),
                None => None,
            },
        ),
{
    let format = match image_format {
        Some(f) => f,
        None => {
            return "jpg";
        },
    };
    let normalized = lowered_chars(format);
    let raw = chars_of("raw");
    let nef = chars_of("nef");
    if contains_chars(&normalized, &raw) || contains_chars(&normalized, &nef) {
        "nef"
    } else {
        "jpg"
    }
}

/// The extension of a file name: the text after its last dot, or the whole
/// name when it has none (what `rsplit('.').next()` yields).
pub fn source_extension(name: &str) -> (r: String)
    ensures
        r@ == after_last(name@, '.'),
{
    after_last_char(name, '.')
}

/// The source folder reported for a bulb exposure, which is downloaded as
/// soon as the camera announces the new file.
pub const BULB_SOURCE_FOLDER: &'static str = "local";

/// The local name of a capture: `<capture id>.<extension>`.
pub fn output_file_name(capture_id: &str, extension: &str) -> (r: String)
    ensures
        r@ == capture_id@ + "."@ + extension@,
{
    let mut s = String::from_str(capture_id);
    s.append(".");
    s.append(extension);
    s
}

// ---------------------------------------------------------------------------
// Settings
// ---------------------------------------------------------------------------

/// One camera option to write before the exposure.
pub struct CameraSetting {
    pub key: &'static str,
    pub value: String,
}

/// The option writes that an optional request value asks for.
pub open spec fn setting_for(key: Seq<char>, value: Option<String>) -> Seq<(Seq<char>, Seq<char>)> {
    match value {
        Some(v) => seq![(key, v@)],
        None => Seq::empty(),
    }
}

/// The camera options a request sets, in the order they are written:
/// exposure program, ISO, aperture, color space, image format.
pub open spec fn settings_plan(request: CaptureRequest) -> Seq<(Seq<char>, Seq<char>)> {
    setting_for("expprogram"@, request.exposure_program) + setting_for("iso"@, request.iso)
        + setting_for("f-number"@, request.aperture) + setting_for(
        "colorspace"@,
        request.color_space,
    ) + setting_for("imagequality"@, request.image_format)
}

/// The key and value texts of settings.
pub open spec fn setting_views(s: Seq<CameraSetting>) -> Seq<(Seq<char>, Seq<char>)> {
    s.map_values(|c: CameraSetting| (c.key@, c.value@))
}

fn push_setting(out: &mut Vec<CameraSetting>, key: &'static str, value: &Option<String>)
    ensures
        setting_views(final(out)@) == setting_views(old(out)@) + setting_for(key@, *value),
{
    match value {
        Some(v) => {
            out.push(CameraSetting { key, value: v.clone() });
            assert(setting_views(final(out)@) =~= setting_views(old(out)@) + setting_for(key@, *value));
        },
        None => {
            assert(setting_views(final(out)@) =~= setting_views(old(out)@) + setting_for(key@, *value));
        },
    }
}

/// The camera options a request sets, in the order they are written.
pub fn capture_settings(request: &CaptureRequest) -> (r: Vec<CameraSetting>)
    ensures
        setting_views(r@) == settings_plan(*request),
{
    let mut out: Vec<CameraSetting> = Vec::new();
    assert(setting_views(out@) =~= Seq::empty());
    push_setting(&mut out, "expprogram", &request.exposure_program);
    push_setting(&mut out, "iso", &request.iso);
    push_setting(&mut out, "f-number", &request.aperture);
    push_setting(&mut out, "colorspace", &request.color_space);
    push_setting(&mut out, "imagequality", &request.image_format);
    assert(setting_views(out@) =~= settings_plan(*request));
    out
}

/// The values the camera's `capturetarget` option is tried with, in order,
/// for a requested capture target; `None` for a target that is not known.
pub open spec fn target_candidates(target: Seq<char>) -> Option<Seq<Seq<char>>> {
    let t = lower_seq(target);
    if t == "sdram"@ || t == "ram"@ {
        Some(seq!["sdram"@, "Internal RAM"@, "Memory buffer"@, "memory buffer"@])
    } else if t == "card"@ || t == "sd"@ || t == "sdcard"@ {
        Some(seq!["card"@, "Memory card"@, "memory card"@])
    } else {
        None
    }
}

/// The texts of a list of string slices.
pub open spec fn str_views(s: Seq<&'static str>) -> Seq<Seq<char>> {
    s.map_values(|x: &'static str| x@)
}

/// The values to try for a requested capture target, or the refusal of an
/// unknown target.
pub fn capture_target_candidates(target: &str) -> (r: Result<Vec<&'static str>, ApiError>)
    ensures
        match target_candidates(target@) {
            Some(c) => r matches Ok(v) && str_views(v@) == c,
            None => is_validation_err(r, "capture_target must be one of: sdram, card"@),
        },
{
    let t = lowered_chars(target);
    if is_word(&t, "sdram") || is_word(&t, "ram") {
        let v: Vec<&'static str> = vec!["sdram", "Internal RAM", "Memory buffer", "memory buffer"];
        assert(str_views(v@) =~= seq!["sdram"@, "Internal RAM"@, "Memory buffer"@, "memory buffer"@]);
        Ok(v)
    } else if is_word(&t, "card") || is_word(&t, "sd") || is_word(&t, "sdcard") {
        let v: Vec<&'static str> = vec!["card", "Memory card", "memory card"];
        assert(str_views(v@) =~= seq!["card"@, "Memory card"@, "memory card"@]);
        Ok(v)
    } else {
        Err(ApiError::Validation(String::from_str("capture_target must be one of: sdram, card")))
    }
}

/// The refusal when the camera took none of the values for a capture target.
pub fn capture_target_unsupported(target: &str) -> (e: ApiError)
    ensures
        e matches ApiError::Validation(m) && m@ == "unable to set capture_target '"@ + target@
            + "' on this camera"@,
{
    let mut m = String::from_str("unable to set capture_target '");
    m.append(target);
    m.append("' on this camera");
    ApiError::Validation(m)
}

// ---------------------------------------------------------------------------
// Shutter
// ---------------------------------------------------------------------------

/// How the exposure is made: a bulb exposure held for a number of seconds, or
/// a timed exposure at one of the camera's shutter speeds.
#[derive(Debug, Clone)]
pub enum ShutterPlan {
    Bulb { exposure_seconds: u64 },
    Timed { shutter_speed: String },
}

/// A request without a shutter speed asks for bulb mode.
pub open spec fn asks_for_bulb(request: CaptureRequest) -> bool {
    match request.shutter_speed {
        None => true,
        Some(s) => eq_ignore_case(s@, "bulb"@),
    }
}

/// How the exposure of a request is made; bulb mode needs the exposure time.
pub fn shutter_plan(request: &CaptureRequest) -> (r: Result<ShutterPlan, ApiError>)
    ensures
        asks_for_bulb(*request) ==> match request.exposure_seconds {
            Some(n) => r matches Ok(ShutterPlan::Bulb { exposure_seconds }) && exposure_seconds
                == n,
            None => is_validation_err(r, "exposure_seconds is required for bulb mode"@),
        },
        !asks_for_bulb(*request) ==> (r matches Ok(ShutterPlan::Timed { shutter_speed })
            && request.shutter_speed == Some(shutter_speed)),
{
    let bulb = match &request.shutter_speed {
        None => true,
        Some(s) => eq_ignore_ascii_case(s.as_str(), "bulb"),
    };
    if bulb {
        match request.exposure_seconds {
            Some(n) => Ok(ShutterPlan::Bulb { exposure_seconds: n }),
            None => Err(
                ApiError::Validation(String::from_str("exposure_seconds is required for bulb mode")),
            ),
        }
    } else {
        match &request.shutter_speed {
            Some(s) => Ok(ShutterPlan::Timed { shutter_speed: s.clone() }),
            None => Err(ApiError::Internal),
        }
    }
}

// ---------------------------------------------------------------------------
// Writing one camera option
// ---------------------------------------------------------------------------

/// The kinds of configuration widget that libgphoto2 reports for an option.
#[derive(Debug, Clone, Copy, PartialEq, Eq, Structural)]
pub enum WidgetKind {
    Radio,
    Text,
    Toggle,
    Range,
    Date,
    Button,
    Group,
}

/// The value to write into an option's widget.
#[derive(Debug, Clone)]
pub enum WidgetUpdate {
    /// Pick this choice of a radio widget.
    Choice(String),
    /// Put this text into a text widget.
    Text(String),
    /// Switch a toggle widget on or off.
    Toggle(bool),
    /// Set a range widget to this number, still as text: it is a
    /// floating-point number, read where the widget is written.
    Range(String),
    /// Set a date widget to this Unix time.
    Date(i32),
}

/// A toggle is switched on by `1`, `true` or `on`, in any ASCII case.
pub open spec fn toggle_on(value: Seq<char>) -> bool {
    let v = lower_seq(value);
    v == "1"@ || v == "true"@ || v == "on"@
}

/// The text of "camera option '<key>' cannot be set directly".
pub open spec fn not_settable_text(key: Seq<char>) -> Seq<char> {
    "camera option '"@ + key + "' cannot be set directly"@
}

/// What writing `value` into the option `key` means for a widget of `kind`.
pub fn plan_widget_update(kind: WidgetKind, key: &str, value: &str) -> (r: Result<WidgetUpdate, ApiError>)
    ensures
        kind == WidgetKind::Radio ==> (r matches Ok(WidgetUpdate::Choice(v)) && v@ == value@),
        kind == WidgetKind::Text ==> (r matches Ok(WidgetUpdate::Text(v)) && v@ == value@),
        kind == WidgetKind::Toggle ==> r == Ok::<WidgetUpdate, ApiError>(
            WidgetUpdate::Toggle(toggle_on(value@)),
        ),
        kind == WidgetKind::Range ==> (r matches Ok(WidgetUpdate::Range(v)) && v@ == value@),
        kind == WidgetKind::Date ==> match parse_i32_spec(value@) {
            Some(t) => r == Ok::<WidgetUpdate, ApiError>(WidgetUpdate::Date(t as i32)),
            None => is_validation_err(r, key@ + " must be a unix timestamp"@),
        },
        (kind == WidgetKind::Button || kind == WidgetKind::Group) ==> is_validation_err(
            r,
            not_settable_text(key@),
        ),
{
    match kind {
        WidgetKind::Radio => Ok(WidgetUpdate::Choice(String::from_str(value))),
        WidgetKind::Text => Ok(WidgetUpdate::Text(String::from_str(value))),
        WidgetKind::Toggle => {
            let v = lowered_chars(value);
            let on = is_word(&v, "1") || is_word(&v, "true") || is_word(&v, "on");
            Ok(WidgetUpdate::Toggle(on))
        },
        WidgetKind::Range => Ok(WidgetUpdate::Range(String::from_str(value))),
        WidgetKind::Date => match parse_i32(value) {
            Some(t) => Ok(WidgetUpdate::Date(t)),
            None => {
                let mut m = String::from_str(key);
                m.append(" must be a unix timestamp");
                Err(ApiError::Validation(m))
            },
        },
        WidgetKind::Button | WidgetKind::Group => {
            let mut m = String::from_str("camera option '");
            m.append(key);
            m.append("' cannot be set directly");
            Err(ApiError::Validation(m))
        },
    }
}

/// The refusal of a range value that is not a number.
pub fn numeric_option_error(key: &str) -> (e: ApiError)
    ensures
        e matches ApiError::Validation(m) && m@ == key@ + " must be numeric"@,
{
    let mut m = String::from_str(key);
    m.append(" must be numeric");
    ApiError::Validation(m)
}

/// The refusal of a value that the widget does not take; `detail` is the
/// camera library's own account.
pub fn option_value_rejected(key: &str, value: &str, detail: &str) -> (e: ApiError)
    ensures
        e matches ApiError::Validation(m) && m@ == "invalid "@ + key@ + " value '"@ + value@
            + "': "@ + detail@,
{
    let mut m = String::from_str("invalid ");
    m.append(key);
    m.append(" value '");
    m.append(value);
    m.append("': ");
    m.append(detail);
    ApiError::Validation(m)
}

/// The failure to read an option's widget from the camera.
pub fn option_read_failed(key: &str, detail: &str) -> (e: ApiError)
    ensures
        e matches ApiError::CaptureFailed(m) && m@ == "read "@ + key@ + " config failed: "@
            + detail@,
{
    let mut m = String::from_str("read ");
    m.append(key);
    m.append(" config failed: ");
    m.append(detail);
    ApiError::CaptureFailed(m)
}

/// The failure to write an option's widget to the camera.
pub fn option_write_failed(key: &str, detail: &str) -> (e: ApiError)
    ensures
        e matches ApiError::CaptureFailed(m) && m@ == "set "@ + key@ + " failed: "@ + detail@,
{
    let mut m = String::from_str("set ");
    m.append(key);
    m.append(" failed: ");
    m.append(detail);
    ApiError::CaptureFailed(m)
}

// ---------------------------------------------------------------------------
// Failures of the capture itself
// ---------------------------------------------------------------------------

/// The steps of a capture that can fail at the camera or on disk.
#[derive(Debug, Clone, Copy, PartialEq, Eq, Structural)]
pub enum CaptureStep {
    CreateDir,
    CaptureImage,
    Save,
    ReadBulb,
    OpenBulb,
    ReadBulbClose,
    Download,
}

/// How a failed step is described, before the camera library's own account.
pub open spec fn step_text(step: CaptureStep) -> Seq<char> {
    match step {
        CaptureStep::CreateDir => "create capture dir failed: "@,
        CaptureStep::CaptureImage => "capture_image failed: "@,
        CaptureStep::Save => "save failed: "@,
        CaptureStep::ReadBulb => "read bulb config failed: "@,
        CaptureStep::OpenBulb => "bulb open failed: "@,
        CaptureStep::ReadBulbClose => "read bulb config (close) failed: "@,
        CaptureStep::Download => "download failed: "@,
    }
}

/// The failure of a capture step, with the camera library's account `detail`.
pub fn step_failed(step: CaptureStep, detail: &str) -> (e: ApiError)
    ensures
        e matches ApiError::CaptureFailed(m) && m@ == step_text(step) + detail@,
{
    let prefix: &str = match step {
        CaptureStep::CreateDir => "create capture dir failed: ",
        CaptureStep::CaptureImage => "capture_image failed: ",
        CaptureStep::Save => "save failed: ",
        CaptureStep::ReadBulb => "read bulb config failed: ",
        CaptureStep::OpenBulb => "bulb open failed: ",
        CaptureStep::ReadBulbClose => "read bulb config (close) failed: ",
        CaptureStep::Download => "download failed: ",
    };
    let mut m = String::from_str(prefix);
    m.append(detail);
    ApiError::CaptureFailed(m)
}

/// The failure when the camera's `bulb` option is not a toggle.
pub fn bulb_not_toggle() -> (e: ApiError)
    ensures
        e matches ApiError::CaptureFailed(m) && m@ == "bulb config is not a toggle widget"@,
{
    ApiError::CaptureFailed(String::from_str("bulb config is not a toggle widget"))
}

// ---------------------------------------------------------------------------
// Retrying a capture
// ---------------------------------------------------------------------------

/// `retries + 1`, stopping at 255 (`u8::saturating_add`).
pub open spec fn attempts_allowed(retries: u8) -> u8 {
    if retries < 255 {
        (retries + 1) as u8
    } else {
        255
    }
}

/// The next step after an attempt: try again with this attempt number, or
/// stop with this outcome.
#[derive(Debug)]
pub enum RetryStep {
    Retry(u8),
    Done(Result<crate::models::CaptureResponse, ApiError>),
}

/// Where a capture stands among its attempts. Attempts are numbered from 1;
/// an attempt that lost the USB link or the camera is retried while attempts
/// remain, any other outcome is final.
pub struct CaptureRetry {
    max_attempts: u8,
    attempt: u8,
}

impl View for CaptureRetry {
    /// The number of attempts allowed, and the number of the current attempt.
    type V = (u8, u8);

    closed spec fn view(&self) -> (u8, u8) {
        (self.max_attempts, self.attempt)
    }
}

impl CaptureRetry {
    /// The current attempt lies among the allowed ones.
    pub open spec fn wf(&self) -> bool {
        1 <= self@.1 <= self@.0
    }

    /// The first attempt of a capture that may be retried `retries` times.
    pub fn start(retries: u8) -> (r: CaptureRetry)
        ensures
            r@ == (attempts_allowed(retries), 1u8),
            r.wf(),
    {
        let max_attempts: u8 = if retries < 255 { retries + 1 } else { 255 };
        CaptureRetry { max_attempts, attempt: 1 }
    }

    /// The number of the current attempt.
    pub fn attempt(&self) -> (r: u8)
        ensures
            r == self@.1,
    {
        self.attempt
    }

    /// Takes in the outcome of the current attempt.
    pub fn on_result(&mut self, result: Result<crate::models::CaptureResponse, ApiError>) -> (step:
        RetryStep)
        requires
            old(self).wf(),
        ensures
            final(self).wf(),
            final(self)@.0 == old(self)@.0,
            match result {
                Ok(resp) => step == RetryStep::Done(Ok(resp)) && final(self)@ == old(self)@,
                Err(e) => if (e is Usb || e is CameraUnavailable) && old(self)@.1 < old(self)@.0 {
                    step == RetryStep::Retry((old(self)@.1 + 1) as u8) && final(self)@.1 == old(
                        self,
                    )@.1 + 1
                } else {
                    step == RetryStep::Done(Err(e)) && final(self)@ == old(self)@
                },
            },
    {
        match result {
            Ok(response) => RetryStep::Done(Ok(response)),
            Err(err) => {
                if err.is_retryable() && self.attempt < self.max_attempts {
                    self.attempt = self.attempt + 1;
                    RetryStep::Retry(self.attempt)
                } else {
                    RetryStep::Done(Err(err))
                }
            },
        }
    }
}

// ---------------------------------------------------------------------------
// Waiting for the bulb exposure's file
// ---------------------------------------------------------------------------

/// How long to keep waiting for the new file after the shutter closed.
pub const BULB_EVENT_DEADLINE_MS: u64 = 30_000;

/// How long one wait for a camera event lasts.
pub const BULB_EVENT_TICK_MS: u64 = 500;

/// What the camera reported while waiting.
#[derive(Debug, Clone)]
pub enum BulbEvent {
    /// A new file, in this folder under this name.
    NewFile { folder: String, name: String },
    /// The capture finished; the file may still be on its way.
    CaptureComplete,
    /// Anything else, a failed wait included.
    Other,
}

/// The time spent waiting for the new file of a bulb exposure.
pub struct BulbWait {
    elapsed_ms: u64,
}

impl View for BulbWait {
    /// Milliseconds waited so far.
    type V = u64;

    closed spec fn view(&self) -> u64 {
        self.elapsed_ms
    }
}

impl BulbWait {
    /// Nothing waited yet.
    pub fn new() -> (r: BulbWait)
        ensures
            r@ == 0,
    {
        BulbWait { elapsed_ms: 0 }
    }

    /// Whether to wait for another event.
    pub fn keep_waiting(&self) -> (r: bool)
        ensures
            r == (self@ < BULB_EVENT_DEADLINE_MS),
    {
        self.elapsed_ms < BULB_EVENT_DEADLINE_MS
    }

    /// How long the next wait for an event lasts.
    pub fn tick_ms(&self) -> (r: u64)
        ensures
            r == BULB_EVENT_TICK_MS,
    {
        BULB_EVENT_TICK_MS
    }

    /// Takes in what one wait brought: the new file ends the wait, anything
    /// else uses up a tick.
    pub fn on_event(&mut self, event: BulbEvent) -> (r: Option<(String, String)>)
        requires
            old(self)@ < BULB_EVENT_DEADLINE_MS,
        ensures
            match event {
                BulbEvent::NewFile { folder, name } => r == Some((folder, name)) && final(self)@
                    == old(self)@,
                _ => r is None && final(self)@ == old(self)@ + BULB_EVENT_TICK_MS,
            },
    {
        match event {
            BulbEvent::NewFile { folder, name } => Some((folder, name)),
            _ => {
                self.elapsed_ms = self.elapsed_ms + BULB_EVENT_TICK_MS;
                None
            },
        }
    }
}

/// The failure when no new file arrived in time.
pub fn no_new_file_error() -> (e: ApiError)
    ensures
        e matches ApiError::CaptureFailed(m) && m@ == "no NewFile event received after bulb close"@,
{
    ApiError::CaptureFailed(String::from_str("no NewFile event received after bulb close"))
}

} // verus!

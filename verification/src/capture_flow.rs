use vstd::prelude::*;

use crate::camera::{
    bulb_not_toggle, capture_settings, capture_target_candidates, capture_target_unsupported,
    no_new_file_error, output_file_name, shutter_plan, source_extension, target_candidates,
    BulbWait, CameraSetting, ShutterPlan, BULB_EVENT_DEADLINE_MS, BULB_EVENT_TICK_MS,
    BULB_SOURCE_FOLDER,
};
use crate::error::{error_view, ApiError};
use crate::models::CaptureRequest;
use crate::text::after_last;

verus! {

/// Where one capture stands, from creating the capture directory to the
/// downloaded file.
#[derive(Debug, Clone, Copy, PartialEq, Eq, Structural)]
pub enum FlowStage {
    CreatingDir,
    Connecting,
    /// Writing the request's option with this position.
    WritingSetting(usize),
    /// Trying the capture target value with this position.
    TryingTarget(usize),
    WritingShutter,
    CapturingImage,
    OpeningBulb,
    HoldingBulb,
    ClosingBulb,
    ReleasingBulb,
    Waiting,
    Downloading,
    Finished,
    Failed,
}

/// What the camera side is to do next.
#[derive(Debug)]
pub enum CameraAction {
    /// Create the capture directory.
    CreateDir,
    /// Open the camera.
    Connect,
    /// Write the request's option with this position in `settings`.
    WriteSetting(usize),
    /// Write the `capturetarget` option with the value at this position in the
    /// target's candidates.
    TryTarget(usize),
    /// Write the `shutterspeed` option with the requested speed.
    WriteShutter,
    /// Take a timed exposure.
    CaptureImage,
    /// Read the `bulb` option and switch it on.
    OpenBulb,
    /// Keep the shutter open for this many seconds.
    HoldBulb(u64),
    /// Read the `bulb` option again.
    CloseBulb,
    /// Switch the `bulb` option off; how that goes does not matter.
    ReleaseBulb,
    /// Wait this many milliseconds for a camera event.
    WaitEvent(u64),
    /// Download the file the camera reported to `file_name()`.
    Download,
    /// The capture is done.
    Finish,
    /// The capture failed with this error.
    Fail(ApiError),
}

/// How the last action went.
#[derive(Debug)]
pub enum StepOutcome {
    /// It succeeded.
    Done,
    /// It failed with this error.
    Failed(ApiError),
    /// The `bulb` option is not an on/off switch.
    NotToggle,
    /// The camera reported a new file, in this folder under this name.
    NewFile { folder: String, name: String },
    /// A wait brought no new file.
    NoEvent,
}

/// One capture, step by step: the options of the request are written in order
/// and the first failure ends the capture; the capture target's values are
/// tried in order until one is taken; a bulb exposure holds the shutter open,
/// then closes it, ignoring how the release went, and waits for the new file;
/// a timed exposure sets the speed and shoots; the file is then downloaded.
pub struct CaptureFlow {
    pub capture_id: String,
    pub settings: Vec<CameraSetting>,
    pub target: Option<String>,
    pub candidates: Option<Result<Vec<&'static str>, ApiError>>,
    pub shutter: Result<ShutterPlan, ApiError>,
    pub stage: FlowStage,
    pub wait: BulbWait,
    pub found: Option<(String, String)>,
}

/// The stage that comes once the options from position `i` on are to be written.
pub open spec fn entry_setting(f: CaptureFlow, i: int) -> FlowStage {
    if i < f.settings@.len() {
        FlowStage::WritingSetting(i as usize)
    } else {
        entry_target(f)
    }
}

/// The stage that comes once the options are written.
pub open spec fn entry_target(f: CaptureFlow) -> FlowStage {
    match f.candidates {
        None => entry_shutter(f),
        Some(Err(_)) => FlowStage::Failed,
        Some(Ok(c)) => if c@.len() > 0 {
            FlowStage::TryingTarget(0)
        } else {
            FlowStage::Failed
        },
    }
}

/// The stage that comes once the capture target is set.
pub open spec fn entry_shutter(f: CaptureFlow) -> FlowStage {
    match f.shutter {
        Err(_) => FlowStage::Failed,
        Ok(ShutterPlan::Bulb { .. }) => FlowStage::OpeningBulb,
        Ok(ShutterPlan::Timed { .. }) => FlowStage::WritingShutter,
    }
}

/// The number of capture target values to try.
pub open spec fn candidate_count(f: CaptureFlow) -> int {
    match f.candidates {
        Some(Ok(c)) => c@.len() as int,
        _ => 0,
    }
}

/// The next stage, given the current one and how its action went.
pub open spec fn next_stage(f: CaptureFlow, o: StepOutcome) -> FlowStage {
    match f.stage {
        FlowStage::CreatingDir => if o is Done {
            FlowStage::Connecting
        } else {
            FlowStage::Failed
        },
        FlowStage::Connecting => if o is Done {
            entry_setting(f, 0)
        } else {
            FlowStage::Failed
        },
        FlowStage::WritingSetting(i) => if o is Done {
            entry_setting(f, i + 1)
        } else {
            FlowStage::Failed
        },
        FlowStage::TryingTarget(i) => if o is Done {
            entry_shutter(f)
        } else if i + 1 < candidate_count(f) {
            FlowStage::TryingTarget((i + 1) as usize)
        } else {
            FlowStage::Failed
        },
        FlowStage::WritingShutter => if o is Done {
            FlowStage::CapturingImage
        } else {
            FlowStage::Failed
        },
        FlowStage::CapturingImage => if o is NewFile {
            FlowStage::Downloading
        } else {
            FlowStage::Failed
        },
        FlowStage::OpeningBulb => if o is Done {
            FlowStage::HoldingBulb
        } else {
            FlowStage::Failed
        },
        FlowStage::HoldingBulb => FlowStage::ClosingBulb,
        FlowStage::ClosingBulb => if o is Failed {
            FlowStage::Failed
        } else if o is NotToggle {
            FlowStage::Waiting
        } else {
            FlowStage::ReleasingBulb
        },
        FlowStage::ReleasingBulb => FlowStage::Waiting,
        FlowStage::Waiting => if o is NewFile {
            FlowStage::Downloading
        } else if f.wait@ + BULB_EVENT_TICK_MS < BULB_EVENT_DEADLINE_MS {
            FlowStage::Waiting
        } else {
            FlowStage::Failed
        },
        FlowStage::Downloading => if o is Done {
            FlowStage::Finished
        } else {
            FlowStage::Failed
        },
        FlowStage::Finished => FlowStage::Finished,
        FlowStage::Failed => FlowStage::Failed,
    }
}

/// The code and message of the refusal of a capture target none of whose
/// values the camera took.
pub open spec fn unsupported_view(target: Option<String>) -> (Seq<char>, Seq<char>) {
    let t = match target {
        Some(t) => t@,
        None => Seq::empty(),
    };
    (
        "VALIDATION_ERROR"@,
        "invalid request: "@ + ("unable to set capture_target '"@ + t + "' on this camera"@),
    )
}

/// The error a capture ends with when the shutter cannot be planned.
pub open spec fn shutter_failure(f: CaptureFlow) -> (Seq<char>, Seq<char>) {
    match f.shutter {
        Err(e) => error_view(e),
        _ => error_view(ApiError::Internal),
    }
}

/// The error a capture ends with when the stage after the options fails.
pub open spec fn target_failure(f: CaptureFlow) -> (Seq<char>, Seq<char>) {
    match f.candidates {
        Some(Err(e)) => error_view(e),
        Some(Ok(_)) => unsupported_view(f.target),
        None => shutter_failure(f),
    }
}

/// The error a capture ends with when the step from `f` with outcome `o`
/// fails it: the error the step reported, a refused target or shutter, a
/// bulb that is not a switch, a target none of whose values was taken, or no
/// new file in time; an outcome that does not fit the step is an internal error.
pub open spec fn failure(f: CaptureFlow, o: StepOutcome) -> (Seq<char>, Seq<char>) {
    match o {
        StepOutcome::Failed(e) => match f.stage {
            FlowStage::TryingTarget(_) => unsupported_view(f.target),
            FlowStage::Waiting => no_file_view(),
            _ => error_view(e),
        },
        StepOutcome::Done => match f.stage {
            FlowStage::Connecting | FlowStage::WritingSetting(_) => target_failure(f),
            FlowStage::TryingTarget(_) => shutter_failure(f),
            FlowStage::Waiting => no_file_view(),
            _ => error_view(ApiError::Internal),
        },
        StepOutcome::NotToggle => match f.stage {
            FlowStage::OpeningBulb => (
                "CAPTURE_FAILED"@,
                "capture failed: "@ + "bulb config is not a toggle widget"@,
            ),
            FlowStage::TryingTarget(_) => unsupported_view(f.target),
            FlowStage::Waiting => no_file_view(),
            _ => error_view(ApiError::Internal),
        },
        _ => match f.stage {
            FlowStage::TryingTarget(_) => unsupported_view(f.target),
            FlowStage::Waiting => no_file_view(),
            _ => error_view(ApiError::Internal),
        },
    }
}

/// The code and message of a bulb exposure whose file never came.
pub open spec fn no_file_view() -> (Seq<char>, Seq<char>) {
    ("CAPTURE_FAILED"@, "capture failed: "@ + "no NewFile event received after bulb close"@)
}

/// `r` ends the capture with the error of this code and message.
pub open spec fn fails_with(r: CameraAction, v: (Seq<char>, Seq<char>)) -> bool {
    r matches CameraAction::Fail(e) && error_view(e) == v
}

/// The file a new-file outcome reports.
pub open spec fn new_file_of(o: StepOutcome) -> Option<(String, String)> {
    match o {
        StepOutcome::NewFile { folder, name } => Some((folder, name)),
        _ => None,
    }
}

/// The code and message of the error an outcome reports, if it reports one.
pub open spec fn error_view_of_outcome(o: StepOutcome) -> (Seq<char>, Seq<char>) {
    match o {
        StepOutcome::Failed(e) => error_view(e),
        _ => error_view(ApiError::Internal),
    }
}

/// The seconds a bulb exposure is held open.
pub open spec fn bulb_seconds(f: CaptureFlow) -> u64 {
    match f.shutter {
        Ok(ShutterPlan::Bulb { exposure_seconds }) => exposure_seconds,
        _ => 0,
    }
}

/// The action that goes with the stage of `f`.
pub open spec fn action_fits(f: CaptureFlow, r: CameraAction) -> bool {
    match f.stage {
        FlowStage::CreatingDir => r is CreateDir,
        FlowStage::Connecting => r is Connect,
        FlowStage::WritingSetting(i) => r == CameraAction::WriteSetting(i),
        FlowStage::TryingTarget(i) => r == CameraAction::TryTarget(i),
        FlowStage::WritingShutter => r is WriteShutter,
        FlowStage::CapturingImage => r is CaptureImage,
        FlowStage::OpeningBulb => r is OpenBulb,
        FlowStage::HoldingBulb => r == CameraAction::HoldBulb(bulb_seconds(f)),
        FlowStage::ClosingBulb => r is CloseBulb,
        FlowStage::ReleasingBulb => r is ReleaseBulb,
        FlowStage::Waiting => r == CameraAction::WaitEvent(BULB_EVENT_TICK_MS),
        FlowStage::Downloading => r is Download,
        FlowStage::Finished => r is Finish,
        FlowStage::Failed => r is Fail,
    }
}

impl CaptureFlow {
    /// The flow is consistent: a target has its candidates, positions lie in
    /// range, the wait has not run out, and a download has its file.
    pub open spec fn wf(&self) -> bool {
        &&& self.target is Some <==> self.candidates is Some
        &&& (self.stage matches FlowStage::WritingSetting(i) ==> i < self.settings@.len())
        &&& (self.stage matches FlowStage::TryingTarget(i) ==> i < candidate_count(*self))
        &&& ((self.stage is OpeningBulb || self.stage is HoldingBulb) ==> (self.shutter matches Ok(
            ShutterPlan::Bulb { .. },
        )))
        &&& (self.stage is WritingShutter ==> (self.shutter matches Ok(ShutterPlan::Timed { .. })))
        &&& (self.wait@ < BULB_EVENT_DEADLINE_MS || self.stage is Failed)
        &&& ((self.stage is Downloading || self.stage is Finished) ==> self.found is Some)
    }

    /// The flow of a capture of `request` under the id `capture_id`, and its
    /// first action: creating the capture directory.
    pub fn start(request: &CaptureRequest, capture_id: String) -> (r: (CaptureFlow, CameraAction))
        ensures
            r.0.wf(),
            r.0.stage == FlowStage::CreatingDir,
            r.1 is CreateDir,
            r.0.capture_id == capture_id,
            crate::camera::setting_views(r.0.settings@) == crate::camera::settings_plan(*request),
            r.0.target == request.capture_target,
            match request.capture_target {
                None => r.0.candidates is None,
                Some(t) => match target_candidates(t@) {
                    Some(c) => r.0.candidates matches Some(Ok(v)) && crate::camera::str_views(v@) == c,
                    None => r.0.candidates matches Some(Err(e)) && e matches ApiError::Validation(m)
                        && m@ == "capture_target must be one of: sdram, card"@,
                },
            },
            crate::camera::asks_for_bulb(*request) ==> match request.exposure_seconds {
                Some(n) => r.0.shutter matches Ok(ShutterPlan::Bulb { exposure_seconds })
                    && exposure_seconds == n,
                None => crate::error::is_validation_err(
                    r.0.shutter,
                    "exposure_seconds is required for bulb mode"@,
                ),
            },
            !crate::camera::asks_for_bulb(*request) ==> (r.0.shutter matches Ok(
                ShutterPlan::Timed { shutter_speed },
            ) && request.shutter_speed == Some(shutter_speed)),
            r.0.wait@ == 0,
            r.0.found is None,
    {
        let candidates = match &request.capture_target {
            Some(t) => Some(capture_target_candidates(t.as_str())),
            None => None,
        };
        let target = match &request.capture_target {
            Some(t) => Some(t.clone()),
            None => None,
        };
        let flow = CaptureFlow {
            capture_id,
            settings: capture_settings(request),
            target,
            candidates,
            shutter: shutter_plan(request),
            stage: FlowStage::CreatingDir,
            wait: BulbWait::new(),
            found: None,
        };
        (flow, CameraAction::CreateDir)
    }

    fn fail_with_target(&mut self) -> (r: CameraAction)
        requires
            old(self).target is Some,
        ensures
            *final(self) == (CaptureFlow { stage: FlowStage::Failed, ..*old(self) }),
            fails_with(r, unsupported_view(old(self).target)),
    {
        let e = match &self.target {
            Some(t) => capture_target_unsupported(t.as_str()),
            None => ApiError::Internal,
        };
        self.stage = FlowStage::Failed;
        CameraAction::Fail(e)
    }

    fn enter_shutter(&mut self) -> (r: CameraAction)
        requires
            old(self).wf(),
            old(self).wait@ < BULB_EVENT_DEADLINE_MS,
        ensures
            *final(self) == (CaptureFlow { stage: entry_shutter(*old(self)), ..*old(self) }),
            final(self).wf(),
            final(self).stage != FlowStage::Failed ==> action_fits(*final(self), r),
            final(self).stage == FlowStage::Failed ==> fails_with(r, shutter_failure(*old(self))),
    {
        match &self.shutter {
            Err(e) => {
                let err = e.duplicate();
                self.stage = FlowStage::Failed;
                CameraAction::Fail(err)
            },
            Ok(ShutterPlan::Bulb { .. }) => {
                self.stage = FlowStage::OpeningBulb;
                CameraAction::OpenBulb
            },
            Ok(ShutterPlan::Timed { .. }) => {
                self.stage = FlowStage::WritingShutter;
                CameraAction::WriteShutter
            },
        }
    }

    fn enter_target(&mut self) -> (r: CameraAction)
        requires
            old(self).wf(),
            old(self).wait@ < BULB_EVENT_DEADLINE_MS,
        ensures
            *final(self) == (CaptureFlow { stage: entry_target(*old(self)), ..*old(self) }),
            final(self).wf(),
            final(self).stage != FlowStage::Failed ==> action_fits(*final(self), r),
            final(self).stage == FlowStage::Failed ==> fails_with(r, target_failure(*old(self))),
    {
        match &self.candidates {
            None => self.enter_shutter(),
            Some(Err(e)) => {
                let err = e.duplicate();
                self.stage = FlowStage::Failed;
                CameraAction::Fail(err)
            },
            Some(Ok(c)) => {
                if c.len() > 0 {
                    self.stage = FlowStage::TryingTarget(0);
                    CameraAction::TryTarget(0)
                } else {
                    self.fail_with_target()
                }
            },
        }
    }

    fn enter_setting(&mut self, i: usize) -> (r: CameraAction)
        requires
            old(self).wf(),
            old(self).wait@ < BULB_EVENT_DEADLINE_MS,
        ensures
            *final(self) == (CaptureFlow { stage: entry_setting(*old(self), i as int), ..*old(self) }),
            final(self).wf(),
            final(self).stage != FlowStage::Failed ==> action_fits(*final(self), r),
            final(self).stage == FlowStage::Failed ==> fails_with(r, target_failure(*old(self))),
    {
        if i < self.settings.len() {
            self.stage = FlowStage::WritingSetting(i);
            CameraAction::WriteSetting(i)
        } else {
            self.enter_target()
        }
    }

    /// Takes in how the last action went and gives the next one.
    pub fn step(&mut self, outcome: StepOutcome) -> (r: CameraAction)
        requires
            old(self).wf(),
            old(self).stage != FlowStage::Finished,
            old(self).stage != FlowStage::Failed,
        ensures
            final(self).wf(),
            final(self).stage == next_stage(*old(self), outcome),
            final(self).capture_id == old(self).capture_id,
            final(self).settings == old(self).settings,
            final(self).target == old(self).target,
            final(self).candidates == old(self).candidates,
            final(self).shutter == old(self).shutter,
            final(self).stage != FlowStage::Failed ==> action_fits(*final(self), r),
            final(self).stage == FlowStage::Failed ==> fails_with(r, failure(*old(self), outcome)),
            old(self).stage == FlowStage::Waiting && !(outcome is NewFile) ==> final(self).wait@
                == old(self).wait@ + BULB_EVENT_TICK_MS,
            !(old(self).stage == FlowStage::Waiting && !(outcome is NewFile)) ==> final(self).wait@
                == old(self).wait@,
            outcome is NewFile && (old(self).stage == FlowStage::CapturingImage || old(self).stage
                == FlowStage::Waiting) ==> final(self).found == new_file_of(outcome),
            !(outcome is NewFile && (old(self).stage == FlowStage::CapturingImage || old(self).stage
                == FlowStage::Waiting)) ==> final(self).found == old(self).found,
    {
        let internal = ApiError::Internal;
        match self.stage {
            FlowStage::CreatingDir => match outcome {
                StepOutcome::Done => {
                    self.stage = FlowStage::Connecting;
                    CameraAction::Connect
                },
                StepOutcome::Failed(e) => {
                    self.stage = FlowStage::Failed;
                    CameraAction::Fail(e)
                },
                _ => {
                    self.stage = FlowStage::Failed;
                    CameraAction::Fail(internal)
                },
            },
            FlowStage::Connecting => match outcome {
                StepOutcome::Done => self.enter_setting(0),
                StepOutcome::Failed(e) => {
                    self.stage = FlowStage::Failed;
                    CameraAction::Fail(e)
                },
                _ => {
                    self.stage = FlowStage::Failed;
                    CameraAction::Fail(internal)
                },
            },
            FlowStage::WritingSetting(i) => match outcome {
                StepOutcome::Done => {
                    let n = self.settings.len();
                    assert(i < n);
                    self.enter_setting(i + 1)
                },
                StepOutcome::Failed(e) => {
                    self.stage = FlowStage::Failed;
                    CameraAction::Fail(e)
                },
                _ => {
                    self.stage = FlowStage::Failed;
                    CameraAction::Fail(internal)
                },
            },
            FlowStage::TryingTarget(i) => match outcome {
                StepOutcome::Done => self.enter_shutter(),
                _ => {
                    let count: usize = match &self.candidates {
                        Some(Ok(c)) => c.len(),
                        _ => 0,
                    };
                    if i + 1 < count {
                        self.stage = FlowStage::TryingTarget(i + 1);
                        CameraAction::TryTarget(i + 1)
                    } else {
                        self.fail_with_target()
                    }
                },
            },
            FlowStage::WritingShutter => match outcome {
                StepOutcome::Done => {
                    self.stage = FlowStage::CapturingImage;
                    CameraAction::CaptureImage
                },
                StepOutcome::Failed(e) => {
                    self.stage = FlowStage::Failed;
                    CameraAction::Fail(e)
                },
                _ => {
                    self.stage = FlowStage::Failed;
                    CameraAction::Fail(internal)
                },
            },
            FlowStage::CapturingImage => match outcome {
                StepOutcome::NewFile { folder, name } => {
                    self.found = Some((folder, name));
                    self.stage = FlowStage::Downloading;
                    CameraAction::Download
                },
                StepOutcome::Failed(e) => {
                    self.stage = FlowStage::Failed;
                    CameraAction::Fail(e)
                },
                _ => {
                    self.stage = FlowStage::Failed;
                    CameraAction::Fail(internal)
                },
            },
            FlowStage::OpeningBulb => match outcome {
                StepOutcome::Done => {
                    self.stage = FlowStage::HoldingBulb;
                    let seconds: u64 = match &self.shutter {
                        Ok(ShutterPlan::Bulb { exposure_seconds }) => *exposure_seconds,
                        _ => 0,
                    };
                    CameraAction::HoldBulb(seconds)
                },
                StepOutcome::Failed(e) => {
                    self.stage = FlowStage::Failed;
                    CameraAction::Fail(e)
                },
                StepOutcome::NotToggle => {
                    self.stage = FlowStage::Failed;
                    CameraAction::Fail(bulb_not_toggle())
                },
                _ => {
                    self.stage = FlowStage::Failed;
                    CameraAction::Fail(internal)
                },
            },
            FlowStage::HoldingBulb => {
                self.stage = FlowStage::ClosingBulb;
                CameraAction::CloseBulb
            },
            FlowStage::ClosingBulb => match outcome {
                StepOutcome::Failed(e) => {
                    self.stage = FlowStage::Failed;
                    CameraAction::Fail(e)
                },
                StepOutcome::NotToggle => {
                    self.stage = FlowStage::Waiting;
                    CameraAction::WaitEvent(BULB_EVENT_TICK_MS)
                },
                _ => {
                    self.stage = FlowStage::ReleasingBulb;
                    CameraAction::ReleaseBulb
                },
            },
            FlowStage::ReleasingBulb => {
                self.stage = FlowStage::Waiting;
                CameraAction::WaitEvent(BULB_EVENT_TICK_MS)
            },
            FlowStage::Waiting => match outcome {
                StepOutcome::NewFile { folder, name } => {
                    self.found = Some((folder, name));
                    self.stage = FlowStage::Downloading;
                    CameraAction::Download
                },
                _ => {
                    self.wait.on_event(crate::camera::BulbEvent::Other);
                    if self.wait.keep_waiting() {
                        CameraAction::WaitEvent(BULB_EVENT_TICK_MS)
                    } else {
                        self.stage = FlowStage::Failed;
                        CameraAction::Fail(no_new_file_error())
                    }
                },
            },
            FlowStage::Downloading => match outcome {
                StepOutcome::Done => {
                    self.stage = FlowStage::Finished;
                    CameraAction::Finish
                },
                StepOutcome::Failed(e) => {
                    self.stage = FlowStage::Failed;
                    CameraAction::Fail(e)
                },
                _ => {
                    self.stage = FlowStage::Failed;
                    CameraAction::Fail(internal)
                },
            },
            FlowStage::Finished | FlowStage::Failed => CameraAction::Fail(internal),
        }
    }

    /// Whether the exposure is a bulb exposure.
    pub fn is_bulb(&self) -> (r: bool)
        ensures
            r == (self.shutter matches Ok(ShutterPlan::Bulb { .. })),
    {
        match &self.shutter {
            Ok(ShutterPlan::Bulb { .. }) => true,
            _ => false,
        }
    }

    /// The local name of the reported file: `<capture id>.<its extension>`.
    pub fn file_name(&self) -> (r: String)
        requires
            self.found is Some,
        ensures
            r@ == self.capture_id@ + "."@ + after_last(self.found.unwrap().1@, '.'),
    {
        match &self.found {
            Some((_, name)) => {
                let ext = source_extension(name.as_str());
                output_file_name(self.capture_id.as_str(), ext.as_str())
            },
            None => String::new(),
        }
    }

    /// The source folder and name the finished capture reports: for a bulb
    /// exposure the local folder and the local file name, otherwise the
    /// camera's folder and file name.
    pub fn source(&self) -> (r: (String, String))
        requires
            self.found is Some,
        ensures
            self.shutter matches Ok(ShutterPlan::Bulb { .. }) ==> r.0@ == BULB_SOURCE_FOLDER@ && r.1@
                == self.capture_id@ + "."@ + after_last(self.found.unwrap().1@, '.'),
            !(self.shutter matches Ok(ShutterPlan::Bulb { .. })) ==> r.0@ == self.found.unwrap().0@
                && r.1@ == self.found.unwrap().1@,
    {
        if self.is_bulb() {
            (String::from_str(BULB_SOURCE_FOLDER), self.file_name())
        } else {
            match &self.found {
                Some((folder, name)) => (folder.clone(), name.clone()),
                None => (String::new(), String::new()),
            }
        }
    }

    /// The step a failed download is reported as: `Download` for a bulb
    /// exposure, `Save` for a timed one.
    pub fn download_step(&self) -> (r: crate::camera::CaptureStep)
        ensures
            r == if self.shutter matches Ok(ShutterPlan::Bulb { .. }) {
                crate::camera::CaptureStep::Download
            } else {
                crate::camera::CaptureStep::Save
            },
    {
        if self.is_bulb() {
            crate::camera::CaptureStep::Download
        } else {
            crate::camera::CaptureStep::Save
        }
    }
}

} // verus!

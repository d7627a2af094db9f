use nikon_bulb_server::camera::CaptureStep;
use nikon_bulb_server::capture_flow::{CameraAction, CaptureFlow, StepOutcome};
use nikon_bulb_server::error::ApiError;
use nikon_bulb_server::models::CaptureRequest;

fn request() -> CaptureRequest {
    CaptureRequest {
        iso: Some("800".to_string()),
        shutter_speed: None,
        exposure_seconds: Some(30),
        aperture: Some("5.6".to_string()),
        color_space: None,
        image_format: None,
        exposure_program: None,
        capture_target: Some("card".to_string()),
        auto_recover_usb: None,
    }
}

fn failed(m: &str) -> StepOutcome {
    StepOutcome::Failed(ApiError::CaptureFailed(m.to_string()))
}

#[test]
fn bulb_capture_runs_in_order() {
    let (mut flow, action) = CaptureFlow::start(&request(), "id-1".to_string());
    assert!(matches!(action, CameraAction::CreateDir));
    assert!(matches!(flow.step(StepOutcome::Done), CameraAction::Connect));
    assert!(matches!(flow.step(StepOutcome::Done), CameraAction::WriteSetting(0)));
    assert_eq!(flow.settings[0].key, "iso");
    assert!(matches!(flow.step(StepOutcome::Done), CameraAction::WriteSetting(1)));
    assert_eq!(flow.settings[1].key, "f-number");
    assert!(matches!(flow.step(StepOutcome::Done), CameraAction::TryTarget(0)));
    assert!(matches!(flow.step(failed("no")), CameraAction::TryTarget(1)));
    assert!(matches!(flow.step(StepOutcome::Done), CameraAction::OpenBulb));
    assert!(matches!(flow.step(StepOutcome::Done), CameraAction::HoldBulb(30)));
    assert!(matches!(flow.step(StepOutcome::Done), CameraAction::CloseBulb));
    assert!(matches!(flow.step(StepOutcome::Done), CameraAction::ReleaseBulb));
    assert!(matches!(flow.step(failed("release")), CameraAction::WaitEvent(500)));
    assert!(matches!(flow.step(StepOutcome::NoEvent), CameraAction::WaitEvent(500)));
    let next = flow.step(StepOutcome::NewFile {
        folder: "/store/DCIM".to_string(),
        name: "DSC_0001.NEF".to_string(),
    });
    assert!(matches!(next, CameraAction::Download));
    assert_eq!(flow.file_name(), "id-1.NEF");
    assert!(matches!(flow.download_step(), CaptureStep::Download));
    assert!(matches!(flow.step(StepOutcome::Done), CameraAction::Finish));
    assert_eq!(flow.source(), ("local".to_string(), "id-1.NEF".to_string()));
}

#[test]
fn first_failed_option_ends_the_capture() {
    let (mut flow, _) = CaptureFlow::start(&request(), "id".to_string());
    flow.step(StepOutcome::Done);
    flow.step(StepOutcome::Done);
    match flow.step(failed("set iso failed: busy")) {
        CameraAction::Fail(e) => assert_eq!(e.message(), "capture failed: set iso failed: busy"),
        _ => panic!("expected the capture to fail"),
    }
}

#[test]
fn target_refused_when_no_value_is_taken() {
    let mut req = request();
    req.iso = None;
    req.aperture = None;
    let (mut flow, _) = CaptureFlow::start(&req, "id".to_string());
    flow.step(StepOutcome::Done);
    assert!(matches!(flow.step(StepOutcome::Done), CameraAction::TryTarget(0)));
    assert!(matches!(flow.step(failed("a")), CameraAction::TryTarget(1)));
    assert!(matches!(flow.step(failed("b")), CameraAction::TryTarget(2)));
    match flow.step(failed("c")) {
        CameraAction::Fail(e) => assert_eq!(
            e.message(),
            "invalid request: unable to set capture_target 'card' on this camera"
        ),
        _ => panic!("expected the target to be refused"),
    }
}

#[test]
fn unknown_target_and_missing_exposure_are_refused_in_turn() {
    let mut req = request();
    req.iso = None;
    req.aperture = None;
    req.capture_target = Some("cloud".to_string());
    let (mut flow, _) = CaptureFlow::start(&req, "id".to_string());
    flow.step(StepOutcome::Done);
    match flow.step(StepOutcome::Done) {
        CameraAction::Fail(e) => {
            assert_eq!(e.message(), "invalid request: capture_target must be one of: sdram, card")
        }
        _ => panic!("expected the target to be refused"),
    }
    req.capture_target = None;
    req.exposure_seconds = None;
    let (mut flow, _) = CaptureFlow::start(&req, "id".to_string());
    flow.step(StepOutcome::Done);
    match flow.step(StepOutcome::Done) {
        CameraAction::Fail(e) => {
            assert_eq!(e.message(), "invalid request: exposure_seconds is required for bulb mode")
        }
        _ => panic!("expected the exposure to be required"),
    }
}

#[test]
fn timed_capture_and_missing_bulb_file() {
    let mut req = request();
    req.iso = None;
    req.aperture = None;
    req.capture_target = None;
    req.shutter_speed = Some("1/60".to_string());
    let (mut flow, _) = CaptureFlow::start(&req, "id".to_string());
    flow.step(StepOutcome::Done);
    assert!(matches!(flow.step(StepOutcome::Done), CameraAction::WriteShutter));
    assert!(matches!(flow.step(StepOutcome::Done), CameraAction::CaptureImage));
    let next = flow.step(StepOutcome::NewFile { folder: "/f".to_string(), name: "a.JPG".to_string() });
    assert!(matches!(next, CameraAction::Download));
    assert!(matches!(flow.download_step(), CaptureStep::Save));
    assert_eq!(flow.source(), ("/f".to_string(), "a.JPG".to_string()));

    req.shutter_speed = None;
    let (mut flow, _) = CaptureFlow::start(&req, "id".to_string());
    flow.step(StepOutcome::Done);
    flow.step(StepOutcome::Done);
    flow.step(StepOutcome::Done);
    flow.step(StepOutcome::Done);
    assert!(matches!(flow.step(StepOutcome::NotToggle), CameraAction::WaitEvent(500)));
    let mut waits = 1;
    loop {
        match flow.step(StepOutcome::NoEvent) {
            CameraAction::WaitEvent(_) => waits += 1,
            CameraAction::Fail(e) => {
                assert_eq!(e.message(), "capture failed: no NewFile event received after bulb close");
                break;
            }
            other => panic!("unexpected {other:?}"),
        }
    }
    assert_eq!(waits, 60);
}

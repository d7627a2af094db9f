use nikon_bulb_server::capture_store::CaptureStore;
use nikon_bulb_server::error::ApiError;
use nikon_bulb_server::handlers::{create_capture, get_capture, health, recover_camera};
use nikon_bulb_server::models::{
    CaptureRequest, CaptureResponse, CaptureStatus, Timestamp,
};

fn request(exposure_seconds: u64) -> CaptureRequest {
    CaptureRequest {
        iso: Some("800".to_string()),
        shutter_speed: Some("bulb".to_string()),
        exposure_seconds: Some(exposure_seconds),
        aperture: None,
        color_space: None,
        image_format: None,
        exposure_program: None,
        capture_target: None,
        auto_recover_usb: None,
    }
}

fn at(secs: i64) -> Timestamp {
    Timestamp { secs, nanos: 0 }
}

#[test]
fn capture_success_returns_200() {
    let mut store = CaptureStore::new();
    let accepted = create_capture(
        &mut store,
        "capture-1".to_string(),
        &request(5),
        r#"{"iso":"800","shutter_speed":"bulb","exposure_seconds":5}"#.to_string(),
        at(1_700_000_000),
    )
    .expect("capture accepted");
    assert_eq!(accepted.status, CaptureStatus::Queued);
    assert_eq!(accepted.capture_id, "capture-1");
    let record = get_capture(&store, "capture-1").expect("stored");
    assert_eq!(record.status, CaptureStatus::Queued);
}

#[test]
fn capture_validation_returns_400() {
    let mut store = CaptureStore::new();
    let err = create_capture(
        &mut store,
        "capture-1".to_string(),
        &request(0),
        "{}".to_string(),
        at(1_700_000_000),
    )
    .unwrap_err();
    assert_eq!(err.status(), 400);
    assert_eq!(err.code(), "VALIDATION_ERROR");
    assert!(store.records().is_empty());
}

#[test]
fn capture_usb_error_transitions_to_failed() {
    let mut store = CaptureStore::new();
    let accepted = create_capture(
        &mut store,
        "capture-1".to_string(),
        &request(5),
        "{}".to_string(),
        at(100),
    )
    .unwrap();
    store.set_status(&accepted.capture_id, CaptureStatus::Capturing, at(101));
    let outcome = Err(ApiError::Usb("connection dropped".to_string()));
    let handed = store.record_capture_outcome(&accepted.capture_id, outcome, at(102));
    assert!(handed.is_none());
    let record = get_capture(&store, &accepted.capture_id).unwrap();
    assert_eq!(record.status, CaptureStatus::Failed);
    assert_eq!(
        record.error.as_deref(),
        Some("usb communication failure: connection dropped")
    );
    assert_eq!(record.started_at, Some(at(101)));
    assert_eq!(record.completed_at, Some(at(102)));
}

#[test]
fn health_returns_200() {
    let answer = health(Ok(Some("MockCam".to_string()))).unwrap();
    assert_eq!(answer.status, "ok");
    assert_eq!(answer.camera_model.as_deref(), Some("MockCam"));
}

#[test]
fn recover_returns_200() {
    let answer = recover_camera(Ok(Some("MockCam".to_string()))).unwrap();
    assert_eq!(answer.status, "recovered");
    assert_eq!(answer.camera_model.as_deref(), Some("MockCam"));
}

#[test]
fn complete_capture_records_camera_report() {
    let mut store = CaptureStore::new();
    create_capture(&mut store, "c".to_string(), &request(5), "{}".to_string(), at(1)).unwrap();
    store.set_status("c", CaptureStatus::Downloading, at(2));
    assert_eq!(get_capture(&store, "c").unwrap().started_at, None);
    let response = CaptureResponse {
        capture_id: "c".to_string(),
        camera_model: "MockCam".to_string(),
        saved_path: "captures/capture-1.jpg".to_string(),
        source_folder: "/store_00020001/DCIM/100D5300".to_string(),
        source_name: "DSC_0001.JPG".to_string(),
        captured_at: at(3),
        attempt_count: 1,
    };
    store.set_complete("c", response, Some(42), Some("ab".to_string()), at(4));
    let r = get_capture(&store, "c").unwrap();
    assert_eq!(r.status, CaptureStatus::Complete);
    assert_eq!(r.camera_model.as_deref(), Some("MockCam"));
    assert_eq!(r.saved_path.as_deref(), Some("captures/capture-1.jpg"));
    assert_eq!(r.source_name.as_deref(), Some("DSC_0001.JPG"));
    assert_eq!(r.size_bytes, Some(42));
    assert_eq!(r.checksum.as_deref(), Some("ab"));
    assert_eq!(r.attempt_count, 1);
    assert_eq!(r.completed_at, Some(at(4)));
}

use nikon_bulb_server::camera::{
    capture_settings, capture_target_candidates, capture_target_unsupported,
    extension_from_image_format, numeric_option_error, option_read_failed,
    option_value_rejected, option_write_failed, output_file_name, plan_widget_update,
    shutter_plan, source_extension, step_failed, BulbEvent, BulbWait, CaptureRetry, CaptureStep,
    GphotoBackend, RetryStep, ShutterPlan, WidgetKind, WidgetUpdate,
};
use nikon_bulb_server::capture_store::{
    format_datetime, parse_datetime, sha256_hex, status_from_str, status_to_str, CaptureStore,
};
use nikon_bulb_server::config::{
    keepalive_enabled, number_setting, retention_sweep_period_secs, small_number_setting,
};
use nikon_bulb_server::error::ApiError;
use nikon_bulb_server::handlers::{
    camera_capabilities, cancel_capture, content_disposition, content_range, create_capture,
    delete_capture, get_capture, get_capture_file, list_captures, mark_downloaded, page_limit,
    parse_single_range, resolve_range,
};
use nikon_bulb_server::models::{
    CaptureRecord, CaptureRequest, CaptureResponse, CaptureStatus, ListCapturesQuery, Timestamp,
};
use nikon_bulb_server::text::{format_u64, parse_i32, parse_u64, parse_u8};

fn at(secs: i64) -> Timestamp {
    Timestamp { secs, nanos: 0 }
}

fn empty_request() -> CaptureRequest {
    CaptureRequest {
        iso: None,
        shutter_speed: None,
        exposure_seconds: None,
        aperture: None,
        color_space: None,
        image_format: None,
        exposure_program: None,
        capture_target: None,
        auto_recover_usb: None,
    }
}

fn record(id: &str, status: CaptureStatus, created: i64) -> CaptureRecord {
    CaptureRecord {
        id: id.to_string(),
        status,
        request_json: "{}".to_string(),
        camera_model: None,
        saved_path: Some(format!("captures/{id}.jpg")),
        source_folder: None,
        source_name: None,
        size_bytes: None,
        checksum: None,
        error: None,
        attempt_count: 0,
        created_at: at(created),
        started_at: None,
        completed_at: None,
        downloaded_at: None,
    }
}

fn response() -> CaptureResponse {
    CaptureResponse {
        capture_id: "x".to_string(),
        camera_model: "Nikon D5300".to_string(),
        saved_path: "captures/x.nef".to_string(),
        source_folder: "local".to_string(),
        source_name: "x.nef".to_string(),
        captured_at: at(0),
        attempt_count: 2,
    }
}

// --- the store -------------------------------------------------------------

#[test]
fn only_one_capture_runs_at_a_time() {
    let mut store = CaptureStore::new();
    assert!(store.insert_queued_if_idle("a".to_string(), "{}".to_string(), at(1)).is_some());
    assert!(store.insert_queued_if_idle("b".to_string(), "{}".to_string(), at(2)).is_none());
    let err = create_capture(&mut store, "c".to_string(), &empty_request(), "{}".to_string(), at(3))
        .unwrap_err();
    assert_eq!(err.status(), 409);
    assert_eq!(err.code(), "CONFLICT");
    assert_eq!(err.message(), "conflict: only one capture may run at a time");
    store.set_failed("a", "boom".to_string(), at(4));
    assert!(store.insert_queued_if_idle("b".to_string(), "{}".to_string(), at(5)).is_some());
    assert_eq!(store.records().len(), 2);
}

#[test]
fn insert_refuses_a_taken_id() {
    let mut store = CaptureStore::from_records(vec![record("a", CaptureStatus::Complete, 1)]).unwrap();
    assert!(store.insert_queued_if_idle("a".to_string(), "{}".to_string(), at(2)).is_none());
    assert_eq!(store.records().len(), 1);
}

#[test]
fn from_records_refuses_duplicate_ids() {
    let rows = vec![record("a", CaptureStatus::Complete, 1), record("a", CaptureStatus::Failed, 2)];
    assert!(CaptureStore::from_records(rows).is_none());
}

#[test]
fn capturing_stamps_the_start() {
    let mut store = CaptureStore::new();
    store.insert_queued_if_idle("a".to_string(), "{}".to_string(), at(1)).unwrap();
    store.set_status("a", CaptureStatus::Capturing, at(7));
    let r = store.get("a").unwrap();
    assert_eq!(r.status, CaptureStatus::Capturing);
    assert_eq!(r.started_at, Some(at(7)));
    store.set_status("missing", CaptureStatus::Failed, at(8));
    assert_eq!(store.get("a").unwrap().status, CaptureStatus::Capturing);
}

#[test]
fn cancel_only_stops_running_jobs() {
    let mut store = CaptureStore::from_records(vec![
        record("done", CaptureStatus::Complete, 1),
        record("run", CaptureStatus::Capturing, 2),
    ])
    .unwrap();
    let r = cancel_capture(&mut store, "done", at(9)).unwrap();
    assert_eq!(r.status, CaptureStatus::Complete);
    assert_eq!(r.completed_at, None);
    let r = cancel_capture(&mut store, "run", at(9)).unwrap();
    assert_eq!(r.status, CaptureStatus::Canceled);
    assert_eq!(r.completed_at, Some(at(9)));
    let err = cancel_capture(&mut store, "nope", at(9)).unwrap_err();
    assert_eq!(err.status(), 404);
    assert_eq!(err.message(), "not found: capture 'nope' not found");
}

#[test]
fn restart_fails_jobs_in_flight() {
    let mut store = CaptureStore::from_records(vec![
        record("q", CaptureStatus::Queued, 1),
        record("c", CaptureStatus::Capturing, 2),
        record("d", CaptureStatus::Downloading, 3),
        record("ok", CaptureStatus::Complete, 4),
    ])
    .unwrap();
    store.mark_inflight_as_failed("capture interrupted by service restart", at(10));
    for id in ["q", "c", "d"] {
        let r = store.get(id).unwrap();
        assert_eq!(r.status, CaptureStatus::Failed);
        assert_eq!(r.error.as_deref(), Some("capture interrupted by service restart"));
        assert_eq!(r.completed_at, Some(at(10)));
    }
    let r = store.get("ok").unwrap();
    assert_eq!(r.status, CaptureStatus::Complete);
    assert_eq!(r.error, None);
    assert!(!store.has_active_capture());
}

#[test]
fn read_after_mark_downloaded() {
    let mut store = CaptureStore::from_records(vec![record("a", CaptureStatus::Complete, 1)]).unwrap();
    let r = mark_downloaded(&mut store, "a", at(50)).unwrap();
    assert_eq!(r.downloaded_at, Some(at(50)));
    assert_eq!(store.get("a").unwrap().downloaded_at, Some(at(50)));
    assert!(mark_downloaded(&mut store, "b", at(50)).is_err());
}

#[test]
fn deleted_job_is_gone() {
    let mut store = CaptureStore::from_records(vec![
        record("a", CaptureStatus::Complete, 1),
        record("b", CaptureStatus::Complete, 2),
    ])
    .unwrap();
    let r = delete_capture(&mut store, "a").unwrap();
    assert_eq!(r.id, "a");
    assert!(get_capture(&store, "a").is_err());
    assert!(get_capture(&store, "b").is_ok());
    let err = delete_capture(&mut store, "a").unwrap_err();
    assert_eq!(err.code(), "NOT_FOUND");
}

#[test]
fn listing_is_oldest_first_and_paged() {
    let store = CaptureStore::from_records(vec![
        record("c", CaptureStatus::Complete, 30),
        record("a", CaptureStatus::Complete, 10),
        record("f", CaptureStatus::Failed, 15),
        record("b", CaptureStatus::Complete, 20),
    ])
    .unwrap();
    let all = store.list(None, 10, None);
    let ids: Vec<&str> = all.iter().map(|r| r.id.as_str()).collect();
    assert_eq!(ids, vec!["a", "f", "b", "c"]);
    let complete = store.list(Some(CaptureStatus::Complete), 2, None);
    let ids: Vec<&str> = complete.iter().map(|r| r.id.as_str()).collect();
    assert_eq!(ids, vec!["a", "b"]);
    let after = store.list(None, 10, Some("f"));
    let ids: Vec<&str> = after.iter().map(|r| r.id.as_str()).collect();
    assert_eq!(ids, vec!["b", "c"]);
    let unknown_cursor = store.list(None, 10, Some("zzz"));
    assert_eq!(unknown_cursor.len(), 4);
    let unbounded = store.list(None, usize::MAX, None);
    assert_eq!(unbounded.len(), 4);
    let none = store.list(None, 0, None);
    assert!(none.is_empty());
}

#[test]
fn list_captures_clamps_the_page() {
    let rows: Vec<CaptureRecord> =
        (0..210).map(|i| record(&format!("id{i}"), CaptureStatus::Complete, i)).collect();
    let store = CaptureStore::from_records(rows).unwrap();
    let query = ListCapturesQuery { status: None, limit: Some(500), after: None };
    assert_eq!(list_captures(&store, &query).items.len(), 200);
    let query = ListCapturesQuery { status: None, limit: None, after: None };
    assert_eq!(list_captures(&store, &query).items.len(), 50);
    let query = ListCapturesQuery { status: None, limit: Some(0), after: Some("id3".to_string()) };
    let items = list_captures(&store, &query).items;
    assert_eq!(items.len(), 1);
    assert_eq!(items[0].id, "id4");
}

#[test]
fn queue_attempts_in_a_row_accept_at_most_one() {
    let mut store = CaptureStore::new();
    let accepted = (0..5)
        .filter(|i| store.insert_queued_if_idle(format!("id{i}"), "{}".to_string(), at(*i)).is_some())
        .count();
    assert_eq!(accepted, 1);
    assert_eq!(store.records().len(), 1);
}

#[test]
fn capture_outcome_moves_the_job_on() {
    let mut store = CaptureStore::new();
    store.insert_queued_if_idle("a".to_string(), "{}".to_string(), at(1)).unwrap();
    let handed = store.record_capture_outcome("a", Ok(response()), at(2));
    assert_eq!(handed.unwrap().saved_path, "captures/x.nef");
    assert_eq!(store.get("a").unwrap().status, CaptureStatus::Downloading);
    let mut store = CaptureStore::new();
    store.insert_queued_if_idle("b".to_string(), "{}".to_string(), at(1)).unwrap();
    let handed = store.record_capture_outcome("b", Err(ApiError::CameraUnavailable), at(3));
    assert!(handed.is_none());
    let r = store.get("b").unwrap();
    assert_eq!(r.status, CaptureStatus::Failed);
    assert_eq!(r.error.as_deref(), Some("camera not found or unavailable"));
    assert_eq!(r.completed_at, Some(at(3)));
}

#[test]
fn page_limit_defaults_and_clamps() {
    assert_eq!(page_limit(None), 50);
    assert_eq!(page_limit(Some(0)), 1);
    assert_eq!(page_limit(Some(7)), 7);
    assert_eq!(page_limit(Some(201)), 200);
}

#[test]
fn sweep_removes_only_old_downloads() {
    let mut old = record("old", CaptureStatus::Complete, 1);
    old.downloaded_at = Some(at(1_000));
    let mut fresh = record("fresh", CaptureStatus::Complete, 2);
    fresh.downloaded_at = Some(at(9_500));
    let never = record("never", CaptureStatus::Complete, 3);
    let mut store = CaptureStore::from_records(vec![old, fresh, never]).unwrap();
    let removed = store.sweep_downloaded_older_than(1_000, at(10_000));
    assert_eq!(removed.len(), 1);
    assert_eq!(removed[0].id, "old");
    assert_eq!(removed[0].saved_path.as_deref(), Some("captures/old.jpg"));
    let ids: Vec<&str> = store.records().iter().map(|r| r.id.as_str()).collect();
    assert_eq!(ids, vec!["fresh", "never"]);
}

#[test]
fn sweep_with_unrepresentable_cutoff_removes_nothing() {
    let mut r = record("old", CaptureStatus::Complete, 1);
    r.downloaded_at = Some(at(1_000));
    let mut store = CaptureStore::from_records(vec![r]).unwrap();
    let removed = store.sweep_downloaded_older_than(u64::MAX / 2, at(10_000));
    assert!(removed.is_empty());
    assert_eq!(store.records().len(), 1);
}

#[test]
fn status_text_round_trip() {
    for status in [
        CaptureStatus::Queued,
        CaptureStatus::Capturing,
        CaptureStatus::Downloading,
        CaptureStatus::Complete,
        CaptureStatus::Failed,
        CaptureStatus::Canceled,
    ] {
        assert_eq!(status_from_str(&status_to_str(status)), status);
    }
    assert_eq!(status_to_str(CaptureStatus::Downloading), "downloading");
    assert_eq!(status_from_str("bogus"), CaptureStatus::Failed);
}

#[test]
fn stored_times_read_back() {
    let fallback = Timestamp { secs: 7, nanos: 0 };
    let t = parse_datetime("2024-01-02T03:04:05.5+00:00", fallback);
    assert_eq!(t, Timestamp { secs: 1_704_164_645, nanos: 500_000_000 });
    let t = parse_datetime("2024-01-02T04:04:05+01:00", fallback);
    assert_eq!(t, Timestamp { secs: 1_704_164_645, nanos: 0 });
    assert_eq!(parse_datetime("yesterday", fallback), fallback);
    let at = Timestamp { secs: 1_704_164_645, nanos: 500_000_000 };
    let text = format_datetime(at);
    assert_eq!(text, "2024-01-02T03:04:05.500+00:00");
    assert_eq!(parse_datetime(&text, fallback), at);
    assert_eq!(format_datetime(Timestamp { secs: i64::MAX, nanos: 0 }), "");
}

#[test]
fn checksum_is_lower_hex_sha256() {
    assert_eq!(
        sha256_hex(b"abc"),
        "ba7816bf8f01cfea414140de5dae2223b00361a396177a9cb410ff61f20015ad"
    );
    assert_eq!(sha256_hex(b"").len(), 64);
}

// --- files and ranges --------------------------------------------------------

#[test]
fn file_of_a_job() {
    let mut done = record("done", CaptureStatus::Complete, 1);
    done.saved_path = Some("captures/done.nef".to_string());
    let mut no_path = record("nopath", CaptureStatus::Complete, 2);
    no_path.saved_path = None;
    let running = record("run", CaptureStatus::Capturing, 3);
    let store = CaptureStore::from_records(vec![done, no_path, running]).unwrap();
    assert_eq!(get_capture_file(&store, "done").unwrap(), "captures/done.nef");
    let err = get_capture_file(&store, "run").unwrap_err();
    assert_eq!(err.status(), 409);
    assert_eq!(err.message(), "conflict: capture not ready: Capturing");
    let err = get_capture_file(&store, "nopath").unwrap_err();
    assert_eq!(err.status(), 502);
    assert_eq!(err.message(), "capture failed: capture completed but has no saved path");
    assert_eq!(get_capture_file(&store, "x").unwrap_err().status(), 404);
}

#[test]
fn single_ranges() {
    assert_eq!(parse_single_range("bytes=0-99", 1000), Some((0, 99)));
    assert_eq!(parse_single_range("bytes=100-", 1000), Some((100, 999)));
    assert_eq!(parse_single_range("bytes=-100", 1000), Some((900, 999)));
    assert_eq!(parse_single_range("bytes=-5000", 1000), Some((0, 999)));
    assert_eq!(parse_single_range("bytes=900-5000", 1000), Some((900, 999)));
    assert_eq!(parse_single_range("bytes=+5-6", 1000), Some((5, 6)));
    assert_eq!(parse_single_range("bytes=1000-", 1000), None);
    assert_eq!(parse_single_range("bytes=5-4", 1000), None);
    assert_eq!(parse_single_range("bytes=0-1,2-3", 1000), None);
    assert_eq!(parse_single_range("items=0-1", 1000), None);
    assert_eq!(parse_single_range("bytes=5", 1000), None);
    assert_eq!(parse_single_range("bytes=a-5", 1000), None);
    assert_eq!(parse_single_range("bytes=-0", 1000), Some((1000, 999)));
}

#[test]
fn resolved_ranges_and_headers() {
    let r = resolve_range("bytes=10-19", 100).unwrap();
    assert_eq!((r.start, r.end, r.length), (10, 19, 10));
    let err = resolve_range("bytes=-0", 100).unwrap_err();
    assert_eq!(err.message(), "invalid request: unsupported or invalid range");
    let r = resolve_range("bytes=-0", 0).unwrap();
    assert_eq!((r.start, r.end, r.length), (0, 0, 1));
    let err = resolve_range("bytes=50-40", 100).unwrap_err();
    assert_eq!(err.status(), 400);
    assert_eq!(err.message(), "invalid request: unsupported or invalid range");
    assert_eq!(content_range(10, 19, 100), "bytes 10-19/100");
    assert_eq!(content_disposition("a.nef"), "attachment; filename=\"a.nef\"");
}

// --- the camera ------------------------------------------------------------

#[test]
fn extensions_follow_the_image_format() {
    assert_eq!(extension_from_image_format(None), "jpg");
    assert_eq!(extension_from_image_format(Some("RAW")), "nef");
    assert_eq!(extension_from_image_format(Some("NEF (Raw)")), "nef");
    assert_eq!(extension_from_image_format(Some("JPEG Fine")), "jpg");
    assert_eq!(extension_from_image_format(Some("tiff")), "jpg");
    assert_eq!(source_extension("DSC_0001.JPG"), "JPG");
    assert_eq!(source_extension("a.b.nef"), "nef");
    assert_eq!(source_extension("noext"), "noext");
    assert_eq!(output_file_name("id-1", "nef"), "id-1.nef");
}

#[test]
fn settings_are_written_in_order() {
    let mut req = empty_request();
    req.iso = Some("800".to_string());
    req.exposure_program = Some("Manual".to_string());
    req.image_format = Some("RAW".to_string());
    let settings = capture_settings(&req);
    let pairs: Vec<(&str, &str)> = settings.iter().map(|s| (s.key, s.value.as_str())).collect();
    assert_eq!(pairs, vec![("expprogram", "Manual"), ("iso", "800"), ("imagequality", "RAW")]);
    assert!(capture_settings(&empty_request()).is_empty());
}

#[test]
fn capture_targets() {
    assert_eq!(
        capture_target_candidates("SDRAM").unwrap(),
        vec!["sdram", "Internal RAM", "Memory buffer", "memory buffer"]
    );
    assert_eq!(capture_target_candidates("sd").unwrap(), vec!["card", "Memory card", "memory card"]);
    let err = capture_target_candidates("cloud").unwrap_err();
    assert_eq!(err.message(), "invalid request: capture_target must be one of: sdram, card");
    let err = capture_target_unsupported("card");
    assert_eq!(err.message(), "invalid request: unable to set capture_target 'card' on this camera");
}

#[test]
fn shutter_plans() {
    let mut req = empty_request();
    assert_eq!(
        shutter_plan(&req).unwrap_err().message(),
        "invalid request: exposure_seconds is required for bulb mode"
    );
    req.exposure_seconds = Some(30);
    assert!(matches!(shutter_plan(&req), Ok(ShutterPlan::Bulb { exposure_seconds: 30 })));
    req.shutter_speed = Some("BULB".to_string());
    assert!(matches!(shutter_plan(&req), Ok(ShutterPlan::Bulb { exposure_seconds: 30 })));
    req.shutter_speed = Some("1/60".to_string());
    match shutter_plan(&req) {
        Ok(ShutterPlan::Timed { shutter_speed }) => assert_eq!(shutter_speed, "1/60"),
        _ => panic!("expected a timed exposure"),
    }
}

#[test]
fn widget_updates() {
    assert!(matches!(plan_widget_update(WidgetKind::Toggle, "k", "ON"), Ok(WidgetUpdate::Toggle(true))));
    assert!(matches!(plan_widget_update(WidgetKind::Toggle, "k", "1"), Ok(WidgetUpdate::Toggle(true))));
    assert!(matches!(plan_widget_update(WidgetKind::Toggle, "k", "off"), Ok(WidgetUpdate::Toggle(false))));
    assert!(matches!(plan_widget_update(WidgetKind::Date, "k", "-17"), Ok(WidgetUpdate::Date(-17))));
    let err = plan_widget_update(WidgetKind::Date, "datetime", "soon").unwrap_err();
    assert_eq!(err.message(), "invalid request: datetime must be a unix timestamp");
    let err = plan_widget_update(WidgetKind::Group, "main", "x").unwrap_err();
    assert_eq!(err.message(), "invalid request: camera option 'main' cannot be set directly");
    match plan_widget_update(WidgetKind::Radio, "iso", "800") {
        Ok(WidgetUpdate::Choice(v)) => assert_eq!(v, "800"),
        _ => panic!("expected a choice"),
    }
    assert_eq!(numeric_option_error("f").message(), "invalid request: f must be numeric");
    assert_eq!(
        option_value_rejected("iso", "9", "bad").message(),
        "invalid request: invalid iso value '9': bad"
    );
    assert_eq!(option_read_failed("iso", "e").message(), "capture failed: read iso config failed: e");
    assert_eq!(option_write_failed("iso", "e").message(), "capture failed: set iso failed: e");
    assert_eq!(step_failed(CaptureStep::Save, "e").message(), "capture failed: save failed: e");
}

#[test]
fn retries_only_lost_links() {
    let mut retry = CaptureRetry::start(2);
    assert_eq!(retry.attempt(), 1);
    assert!(matches!(retry.on_result(Err(ApiError::Usb("x".to_string()))), RetryStep::Retry(2)));
    assert!(matches!(retry.on_result(Err(ApiError::CameraUnavailable)), RetryStep::Retry(3)));
    match retry.on_result(Err(ApiError::Usb("last".to_string()))) {
        RetryStep::Done(Err(ApiError::Usb(m))) => assert_eq!(m, "last"),
        _ => panic!("expected the last error"),
    }
    let mut retry = CaptureRetry::start(5);
    assert!(matches!(
        retry.on_result(Err(ApiError::Validation("v".to_string()))),
        RetryStep::Done(Err(ApiError::Validation(_)))
    ));
    let mut retry = CaptureRetry::start(0);
    assert!(matches!(retry.on_result(Ok(response())), RetryStep::Done(Ok(_))));
    let mut retry = CaptureRetry::start(255);
    let mut n = 1;
    while let RetryStep::Retry(k) = retry.on_result(Err(ApiError::CameraUnavailable)) {
        n += 1;
        assert_eq!(k, n);
    }
    assert_eq!(n, 255);
}

#[test]
fn bulb_wait_gives_up_after_sixty_ticks() {
    let mut wait = BulbWait::new();
    let mut ticks = 0;
    while wait.keep_waiting() {
        assert_eq!(wait.tick_ms(), 500);
        assert!(wait.on_event(BulbEvent::CaptureComplete).is_none());
        ticks += 1;
    }
    assert_eq!(ticks, 60);
    let mut wait = BulbWait::new();
    wait.on_event(BulbEvent::Other);
    let found = wait.on_event(BulbEvent::NewFile { folder: "/a".to_string(), name: "b.nef".to_string() });
    assert_eq!(found, Some(("/a".to_string(), "b.nef".to_string())));
}

#[test]
fn capabilities_list_the_request_options() {
    let c = camera_capabilities(Ok(None)).unwrap();
    assert_eq!(
        c.supported_options,
        vec![
            "iso", "shutter_speed", "exposure_seconds", "aperture", "color_space", "image_format",
            "exposure_program", "capture_target"
        ]
    );
    assert!(camera_capabilities(Err(ApiError::CameraUnavailable)).is_err());
}

#[test]
fn backend_keeps_its_settings() {
    let b = GphotoBackend::new(std::path::PathBuf::from("captures"), std::time::Duration::from_secs(20), 1);
    assert_eq!(b.capture_dir, std::path::PathBuf::from("captures"));
    assert_eq!(b.event_timeout, std::time::Duration::from_secs(20));
    assert_eq!(b.retries, 1);
}

// --- errors ----------------------------------------------------------------

#[test]
fn every_error_has_its_code_and_status() {
    let cases = vec![
        (ApiError::Validation("v".to_string()), "VALIDATION_ERROR", 400, "invalid request: v"),
        (ApiError::NotFound("n".to_string()), "NOT_FOUND", 404, "not found: n"),
        (ApiError::Conflict("c".to_string()), "CONFLICT", 409, "conflict: c"),
        (ApiError::CameraUnavailable, "CAMERA_UNAVAILABLE", 503, "camera not found or unavailable"),
        (ApiError::Usb("u".to_string()), "USB_CONNECTION_LOST", 503, "usb communication failure: u"),
        (ApiError::CaptureFailed("f".to_string()), "CAPTURE_FAILED", 502, "capture failed: f"),
        (ApiError::Internal, "INTERNAL_ERROR", 500, "internal server error"),
    ];
    for (e, code, status, message) in cases {
        assert_eq!(e.code(), code);
        assert_eq!(e.status(), status);
        assert_eq!(e.message(), message);
        let body = e.to_error_response("req-1".to_string());
        assert_eq!(body.code, code);
        assert_eq!(body.message, message);
        assert_eq!(body.request_id, "req-1");
    }
}

// --- text and configuration ------------------------------------------------

#[test]
fn numbers_read_as_std_reads_them() {
    assert_eq!(parse_u64("18446744073709551615"), Some(u64::MAX));
    assert_eq!(parse_u64("18446744073709551616"), None);
    assert_eq!(parse_u64("+7"), Some(7));
    assert_eq!(parse_u64("+"), None);
    assert_eq!(parse_u64(""), None);
    assert_eq!(parse_u64("-1"), None);
    assert_eq!(parse_u64(" 1"), None);
    assert_eq!(parse_u8("255"), Some(255));
    assert_eq!(parse_u8("256"), None);
    assert_eq!(parse_i32("-2147483648"), Some(i32::MIN));
    assert_eq!(parse_i32("2147483647"), Some(i32::MAX));
    assert_eq!(parse_i32("2147483648"), None);
    assert_eq!(parse_i32("-"), None);
    assert_eq!(format_u64(0), "0");
    assert_eq!(format_u64(u64::MAX), u64::MAX.to_string());
}

#[test]
fn settings_fall_back_to_defaults() {
    assert_eq!(number_setting(Some("45"), 20), 45);
    assert_eq!(number_setting(Some("soon"), 20), 20);
    assert_eq!(number_setting(None, 900), 900);
    assert_eq!(small_number_setting(Some("300"), 2), 2);
    assert_eq!(small_number_setting(Some("3"), 2), 3);
    assert_eq!(retention_sweep_period_secs(5), 30);
    assert_eq!(retention_sweep_period_secs(600), 600);
    assert!(!keepalive_enabled(0));
    assert!(keepalive_enabled(120));
}

use cam_server::camera::Camera;
use cam_server::camera::Frame;
use cam_server::dispatch::Route;
use cam_server::dispatch::handle_request;
use cam_server::dispatch::query_part;
use cam_server::dispatch::route_of;
use cam_server::flash::ActuatorLine;
use cam_server::registry::Registry;
use cam_server::storage::Directory;
use cam_server::storage::EntryName;
use cam_server::storage::Storage;
use cam_server::timesvc::extract_unixtime;

fn rig() -> (Registry, Camera) {
    let storage = Storage::new(
        vec![
            Directory {
                path: b"/images".to_vec(),
                entries: vec![
                    EntryName::Decoded(b"a.jpg".to_vec()),
                    EntryName::Decoded(b"b.jpg".to_vec()),
                ],
            },
        ],
        Vec::new(),
    );
    let reg = Registry::new(Some(ActuatorLine::new()), storage);
    let cam = Camera::new(Some(Frame { width: 4, height: 3, data: b"jpeg!".to_vec() }));
    (reg, cam)
}

#[test]
fn routes_match_exact_paths() {
    assert_eq!(route_of(&b"/time".to_vec()), Some(Route::TimeQuery));
    assert_eq!(route_of(&b"/sdcard?/images".to_vec()), Some(Route::StorageOp));
    assert_eq!(route_of(&b"/camera".to_vec()), Some(Route::SnapshotOp));
    assert_eq!(route_of(&b"/camera2".to_vec()), None);
    assert_eq!(route_of(&b"/".to_vec()), None);
}

#[test]
fn route_ignores_the_query_when_matching() {
    assert_eq!(route_of(&b"/time?ignored".to_vec()), Some(Route::TimeQuery));
    assert_eq!(route_of(&Vec::new()), None);
}

#[test]
fn query_is_everything_after_first_question_mark() {
    assert_eq!(query_part(&b"/sdcard?/images".to_vec()), b"/images".to_vec());
    assert_eq!(query_part(&b"/sdcard?a?b".to_vec()), b"a?b".to_vec());
    assert_eq!(query_part(&b"/sdcard".to_vec()), Vec::<u8>::new());
}

#[test]
fn time_route_answers_decimal_unixtime() {
    let (mut reg, mut cam) = rig();
    let payload = b"{\"unixtime\":1700000000,\"day_of_week\":4}".to_vec();
    let resp = handle_request(&mut reg, &mut cam, &payload, &b"/time".to_vec());
    assert_eq!(resp.status, 200);
    assert_eq!(resp.body, b"1700000000".to_vec());
}

#[test]
fn time_route_reports_malformed_payload() {
    let (mut reg, mut cam) = rig();
    let payload = b"{\"abbreviation\":\"UTC\"}".to_vec();
    let resp = handle_request(&mut reg, &mut cam, &payload, &b"/time".to_vec());
    assert_eq!(resp.status, 500);
    assert_eq!(resp.body, b"Error getting time".to_vec());
}

#[test]
fn storage_route_lists_directory() {
    let (mut reg, mut cam) = rig();
    let payload = Vec::new();
    let resp = handle_request(&mut reg, &mut cam, &payload, &b"/sdcard?/images".to_vec());
    assert_eq!(resp.status, 200);
    assert_eq!(resp.body, b"a.jpg\nb.jpg\n".to_vec());
}

#[test]
fn storage_route_answers_not_found_with_success_status() {
    let (mut reg, mut cam) = rig();
    let payload = Vec::new();
    let resp = handle_request(&mut reg, &mut cam, &payload, &b"/sdcard?/missing".to_vec());
    assert_eq!(resp.status, 200);
    assert_eq!(resp.body, b"File/dir not found\n".to_vec());
}

#[test]
fn camera_route_frames_jpeg_response() {
    let (mut reg, mut cam) = rig();
    let payload = Vec::new();
    let resp = handle_request(&mut reg, &mut cam, &payload, &b"/camera".to_vec());
    assert_eq!(resp.status, 200);
    assert_eq!(resp.content_type, Some(b"image/jpeg".to_vec()));
    assert_eq!(resp.content_length, Some(b"5".to_vec()));
    assert_eq!(resp.body, b"jpeg!".to_vec());
}

#[test]
fn camera_route_reports_sensor_failure() {
    let (mut reg, _) = rig();
    let mut cam = Camera::new(None);
    let payload = Vec::new();
    let resp = handle_request(&mut reg, &mut cam, &payload, &b"/camera".to_vec());
    assert_eq!(resp.status, 500);
    assert_eq!(resp.body, b"failed to take pic".to_vec());
}

#[test]
fn camera_route_reports_held_actuator_slot() {
    let (mut reg, mut cam) = rig();
    let held = reg.take_actuator();
    assert!(held.is_some());
    let payload = Vec::new();
    let resp = handle_request(&mut reg, &mut cam, &payload, &b"/camera".to_vec());
    assert_eq!(resp.status, 500);
    assert_eq!(resp.body, b"flash busy".to_vec());
}

#[test]
fn unknown_path_gets_not_found_status() {
    let (mut reg, mut cam) = rig();
    let payload = Vec::new();
    let resp = handle_request(&mut reg, &mut cam, &payload, &b"/other".to_vec());
    assert_eq!(resp.status, 404);
    assert!(resp.body.is_empty());
}

#[test]
fn unixtime_is_found_among_other_fields() {
    let payload = b"{\"abbreviation\":\"UTC\",\"unixtime\":1700000000,\"utc_offset\":\"+00:00\"}"
        .to_vec();
    assert_eq!(extract_unixtime(&payload), Some(1700000000));
}

#[test]
fn unixtime_missing_key_yields_nothing() {
    let payload = b"{\"datetime\":\"x\",\"week_number\":46}".to_vec();
    assert_eq!(extract_unixtime(&payload), None);
}

#[test]
fn unixtime_too_large_for_u32_yields_nothing() {
    let payload = b"{\"unixtime\":99999999999,\"x\":1}".to_vec();
    assert_eq!(extract_unixtime(&payload), None);
}

#[test]
fn unixtime_as_last_field_keeps_the_closing_brace_and_fails() {
    // The value piece then ends with the object's closing brace, which is
    // not a digit: the scanner rejects it.
    let payload = b"{\"x\":1,\"unixtime\":1700000000}".to_vec();
    assert_eq!(extract_unixtime(&payload), None);
}

#[test]
fn unixtime_value_with_second_colon_is_skipped() {
    let payload = b"{\"unixtime\":17:00,\"unixtime\":1700000000,\"y\":2}".to_vec();
    assert_eq!(extract_unixtime(&payload), Some(1700000000));
}

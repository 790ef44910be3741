use cam_server::camera::Camera;
use cam_server::camera::Frame;
use cam_server::flash::ActuatorLine;
use cam_server::flash::FlashGuard;
use cam_server::registry::Registry;
use cam_server::snapshot::CaptureError;
use cam_server::snapshot::snapshot;
use cam_server::storage::Storage;

fn empty_storage() -> Storage {
    Storage::new(Vec::new(), Vec::new())
}

fn frame() -> Frame {
    Frame { width: 2, height: 2, data: vec![0xFF, 0xD8, 0xAB] }
}

#[test]
fn guard_release_drives_line_off_after_on() {
    let line = ActuatorLine::new();
    let mut g = FlashGuard::acquire(Some(line));
    g.on();
    let back = g.release().unwrap();
    assert!(!back.is_high());
}

#[test]
fn guard_release_drives_line_off_even_without_on() {
    let line = ActuatorLine::new();
    let g = FlashGuard::acquire(Some(line));
    let back = g.release().unwrap();
    assert!(!back.is_high());
}

#[test]
fn double_off_ends_in_same_state_as_single_off() {
    let line = ActuatorLine::new();
    let mut g = FlashGuard::acquire(Some(line));
    g.on();
    g.off();
    let once = g.release().unwrap();

    let line2 = ActuatorLine::new();
    let mut g2 = FlashGuard::acquire(Some(line2));
    g2.on();
    g2.off();
    g2.off();
    let twice = g2.release().unwrap();

    assert_eq!(once.is_high(), twice.is_high());
    assert!(!twice.is_high());
}

#[test]
fn guard_is_a_no_op_without_flash_hardware() {
    let mut g = FlashGuard::acquire(None);
    g.on();
    g.off();
    assert!(g.release().is_none());
}

#[test]
fn flash_is_off_after_successful_snapshot() {
    let mut reg = Registry::new(Some(ActuatorLine::new()), empty_storage());
    let mut cam = Camera::new(Some(frame()));
    let r = snapshot(&mut reg, &mut cam);
    assert!(r.is_ok());
    let line = reg.take_actuator().unwrap().unwrap();
    assert!(!line.is_high());
}

#[test]
fn flash_is_off_after_failed_capture() {
    // The sensor is made to fail; the guard still puts the light out.
    let mut reg = Registry::new(Some(ActuatorLine::new()), empty_storage());
    let mut cam = Camera::new(None);
    let r = snapshot(&mut reg, &mut cam);
    assert_eq!(r.err(), Some(CaptureError::SensorUnavailable));
    let line = reg.take_actuator().unwrap().unwrap();
    assert!(!line.is_high());
}

#[test]
fn snapshot_works_in_no_flash_deployment() {
    let mut reg = Registry::new(None, empty_storage());
    let mut cam = Camera::new(Some(frame()));
    let r = snapshot(&mut reg, &mut cam);
    assert!(r.is_ok());
    assert!(reg.take_actuator().unwrap().is_none());
}

#[test]
fn held_slot_refuses_a_second_borrower() {
    let mut reg = Registry::new(Some(ActuatorLine::new()), empty_storage());
    let first = reg.take_actuator();
    assert!(first.is_some());
    // While the first borrower holds the slot, a second take is refused
    // recoverably and a concurrent snapshot reports the busy error.
    assert!(reg.take_actuator().is_none());
    let mut cam = Camera::new(Some(frame()));
    let r = snapshot(&mut reg, &mut cam);
    assert_eq!(r.err(), Some(CaptureError::ActuatorBusy));
    // Hand the line back: the slot serves again.
    reg.put_actuator(first.unwrap());
    let mut cam2 = Camera::new(Some(frame()));
    assert!(snapshot(&mut reg, &mut cam2).is_ok());
}

#[test]
fn snapshot_response_is_framed_exactly() {
    let mut reg = Registry::new(Some(ActuatorLine::new()), empty_storage());
    let mut cam = Camera::new(Some(frame()));
    let resp = snapshot(&mut reg, &mut cam).ok().unwrap();
    assert_eq!(resp.status, 200);
    assert_eq!(resp.content_type, Some(b"image/jpeg".to_vec()));
    assert_eq!(resp.content_length, Some(b"3".to_vec()));
    assert_eq!(resp.body, vec![0xFF, 0xD8, 0xAB]);
}

use timelapse_core::capture::{capture_should_stop, capture_step, session_open_mode,
    CaptureInfo, CaptureStep};
use timelapse_core::container::OpenMode;

#[test]
fn new_session_defaults() {
    let c = CaptureInfo::new("/eMMC");
    assert_eq!(c.capture_dir, "/eMMC");
    assert!(!c.request);
    assert!(!c.status);
    assert_eq!(c.open_mode, OpenMode::Append);
    assert_eq!(c.jpeg_quality, 12);
    assert_eq!(c.capturing_duration, 0);
}

#[test]
fn request_and_finish() {
    let mut c = CaptureInfo::new("/eMMC");
    c.capture_request(2, 5);
    assert!(c.request);
    assert!(!c.get_capture_status());
    assert_eq!(c.track_id, 2);
    assert_eq!(c.get_capture_id(), 5);
    c.finish_session(7, 640, 480, 12345);
    assert!(c.get_capture_status());
    assert!(!c.request);
    // the last image id is one less than the count written
    assert_eq!(c.get_capture_id(), 6);
    assert_eq!(c.width, 640);
    assert_eq!(c.height, 480);
    assert_eq!(c.size, 12345);
}

#[test]
fn finish_with_no_images() {
    let mut c = CaptureInfo::new("/eMMC");
    c.finish_session(0, 0, 0, 0);
    assert_eq!(c.get_capture_id(), 0);
    assert!(c.status);
}

#[test]
fn setters_update_state() {
    let mut c = CaptureInfo::new("/eMMC");
    c.set_capture_dir("/sd");
    assert_eq!(c.capture_dir, "/sd");
    c.change_resolution(9);
    assert!(c.change_resolution);
    assert_eq!(c.get_resolution(), 9);
    c.autofocus_request();
    assert!(c.autofocus_request);
    c.wait_focus(true);
    assert!(c.wait_focus);
    c.set_capturing_duration(-1);
    assert_eq!(c.capturing_duration, -1);
    c.set_direct_write_mode(true);
    assert!(c.direct_write_mode);
    c.set_jpeg_quality(8);
    assert_eq!(c.jpeg_quality, 8);
    c.set_overwrite_saved(true);
    assert_eq!(c.open_mode, OpenMode::Write);
    c.set_overwrite_saved(false);
    assert_eq!(c.open_mode, OpenMode::Append);
    let copy = c.get_capture_info();
    assert_eq!(copy.capture_dir, c.capture_dir);
    assert_eq!(copy.jpeg_quality, c.jpeg_quality);
}

#[test]
fn stop_condition_by_duration() {
    // a positive duration bounds the burst by elapsed seconds
    assert!(!capture_should_stop(10, 9));
    assert!(capture_should_stop(10, 10));
    assert!(capture_should_stop(10, 11));
    // zero means exactly one frame
    assert!(capture_should_stop(0, 0));
    // negative means unbounded movie capture
    assert!(!capture_should_stop(-1, 1000000));
}

#[test]
fn session_mode_never_reads() {
    assert_eq!(session_open_mode(OpenMode::Write), OpenMode::Write);
    assert_eq!(session_open_mode(OpenMode::Append), OpenMode::Append);
    assert_eq!(session_open_mode(OpenMode::Read), OpenMode::Append);
}

#[test]
fn capture_step_decisions() {
    // a missing frame ends the burst early, whatever the policy; the
    // session still stops and finalizes
    assert_eq!(capture_step(false, -1, 5), CaptureStep::StopEarly);
    assert_eq!(capture_step(false, 0, 0), CaptureStep::StopEarly);
    // with a frame, the elapsed-time condition decides
    assert_eq!(capture_step(true, 0, 0), CaptureStep::WriteAndStop);
    assert_eq!(capture_step(true, 10, 9), CaptureStep::WriteAndContinue);
    assert_eq!(capture_step(true, 10, 10), CaptureStep::WriteAndStop);
    assert_eq!(capture_step(true, -1, 1000000), CaptureStep::WriteAndContinue);
}

use servo_ui::ServoSize;
use servo_ui::ServoUrl;
use servo_ui::ServoWindow;

#[test]
fn new_window_starts_clean() {
    let w = ServoWindow::new(640, 480);
    assert_eq!(w.get_dimensions(), (640, 480));
    assert_eq!(w.get_target(), None);
    assert_eq!(w.has_target(), Ok(false));
    assert_eq!(w.buffers, None);
}

#[test]
fn set_and_get_dimensions() {
    let mut w = ServoWindow::new(1024, 1024);
    w.set_dimensions(800, 600);
    assert_eq!(w.get_dimensions(), (800, 600));
}

#[test]
fn poisoned_dimensions_lock_recovers_last_written_value() {
    let mut w = ServoWindow::new(1024, 1024);
    w.set_dimensions(800, 600);
    w.mark_dimensions_poisoned();
    // a poison event must not crash the read and must hand back the
    // last-good value
    assert_eq!(w.get_dimensions(), (800, 600));
    // a write behind the poisoned lock is dropped
    w.set_dimensions(123, 456);
    assert_eq!(w.get_dimensions(), (800, 600));
}

#[test]
fn poisoned_target_lock_fails_closed() {
    let mut w = ServoWindow::new(256, 256);
    w.set_target(5);
    assert_eq!(w.get_target(), Some(5));
    w.mark_target_poisoned();
    // reads recover the last-good value, mutations report the failure
    assert_eq!(w.get_target(), Some(5));
    assert!(w.has_target().is_err());
    assert!(w.remove_target().is_err());
    w.set_target(9);
    assert_eq!(w.get_target(), Some(5));
}

#[test]
fn remove_target_clears_binding() {
    let mut w = ServoWindow::new(256, 256);
    w.set_target(7);
    assert_eq!(w.has_target(), Ok(true));
    assert_eq!(w.remove_target(), Ok(()));
    assert_eq!(w.get_target(), None);
    assert_eq!(w.has_target(), Ok(false));
}

#[test]
fn coordinates_follow_current_dimensions() {
    let mut w = ServoWindow::new(300, 200);
    let c = w.get_coordinates();
    assert_eq!(c.viewport_origin, (0, 0));
    assert_eq!(c.viewport_size, (300, 200));
    assert_eq!(c.framebuffer, (300, 200));
    assert_eq!(c.screen, (300, 200));
    assert_eq!(c.screen_avail, (300, 200));
    assert_eq!(c.window_size, (300, 200));
    w.set_dimensions(77, 88);
    let c2 = w.get_coordinates();
    assert_eq!(c2.framebuffer, (77, 88));
}

#[test]
fn size_request_starts_dirty() {
    let s = ServoSize::new(640, 480);
    assert_eq!((s.width, s.height, s.dirty), (640, 480, true));
    let t = ServoSize::from((320, 240));
    assert_eq!((t.width, t.height, t.dirty), (320, 240, true));
}

#[test]
fn url_request_goto_marks_dirty() {
    let mut u = ServoUrl { dirty: false, url: "https://example.com/".to_string() };
    u.goto("https://example.org/".to_string());
    assert!(u.dirty);
    assert_eq!(u.url, "https://example.org/");
    let v = ServoUrl::from("https://example.net/".to_string());
    assert!(v.dirty);
    assert_eq!(v.url, "https://example.net/");
}

use rt::preview::{JobPoll, PreviewScheduler, DEBOUNCE_MS};

fn auto_on(now: u64) -> PreviewScheduler {
    let mut s = PreviewScheduler::new();
    s.auto_preview = true;
    s.auto_preview_toggled(now);
    s
}

#[test]
fn starts_idle() {
    let s = PreviewScheduler::new();
    assert_eq!(s, PreviewScheduler { auto_preview: false, job_running: false, preview_after_ms: None });
    assert!(!s.needs_repaint());
}

#[test]
fn debounce_waits_420ms() {
    assert_eq!(DEBOUNCE_MS, 420);
    let mut s = auto_on(1000);
    assert_eq!(s.preview_after_ms, Some(1420));
    assert!(s.needs_repaint());
    assert_eq!(s.take_due_preview(1419, 280, 210), None);
    assert!(s.params_changed(true, 1300));
    assert_eq!(s.preview_after_ms, Some(1720));
    assert!(!s.params_changed(false, 1400));
    assert_eq!(s.take_due_preview(1500, 280, 210), None);
    assert_eq!(s.take_due_preview(1720, 280, 210), Some((280, 210)));
    assert_eq!(s.preview_after_ms, None);
    assert_eq!(s.take_due_preview(99999, 280, 210), None);
}

#[test]
fn preview_size_is_clamped() {
    let mut s = auto_on(0);
    assert_eq!(s.take_due_preview(420, 10, 5000), Some((64, 600)));
    s.params_changed(true, 500);
    assert_eq!(s.take_due_preview(920, 9000, 1), Some((800, 48)));
}

#[test]
fn auto_off_schedules_nothing() {
    let mut s = PreviewScheduler::new();
    assert!(!s.params_changed(true, 10));
    assert_eq!(s.preview_after_ms, None);
    let mut s = auto_on(0);
    s.auto_preview = false;
    s.auto_preview_toggled(5);
    assert_eq!(s.preview_after_ms, None);
    assert_eq!(s.take_due_preview(10000, 100, 100), None);
}

#[test]
fn one_render_at_a_time() {
    let mut s = auto_on(0);
    assert!(s.begin_job());
    assert!(!s.begin_job());
    assert_eq!(s.take_due_preview(1000, 100, 100), None);
    assert_eq!(s.preview_after_ms, Some(420));
    assert!(s.job_polled(JobPoll::Pending));
    assert!(s.job_running);
    assert!(!s.job_polled(JobPoll::Finished));
    assert!(!s.job_running);
    assert_eq!(s.take_due_preview(1000, 100, 100), Some((100, 100)));
    assert!(s.begin_job());
    assert!(!s.job_polled(JobPoll::Failed));
    assert!(s.begin_job());
    assert!(!s.job_polled(JobPoll::Disconnected));
    assert!(!s.job_polled(JobPoll::Pending));
    assert!(!s.job_running);
}

#[test]
fn second_look_without_change_keeps_state() {
    let mut s = auto_on(0);
    assert!(s.params_changed(true, 100));
    let after_change = s;
    assert!(!s.params_changed(false, 300));
    assert_eq!(s, after_change);
    assert_eq!(s.preview_after_ms, Some(520));
}

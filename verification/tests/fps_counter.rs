use teapot_grid::fps::FpsCounter;

#[test]
fn reports_frames_rendered_in_full_window() {
    // Ten frames inside a window spanning exactly 1000 ms: the frame at the
    // window's end reports all ten and the count restarts.
    let mut c = FpsCounter::new(0);
    let mut reports: Vec<Option<u32>> = Vec::new();
    for t in (0..1000).step_by(100) {
        reports.push(c.frame(t));
    }
    assert!(reports.iter().all(|r| r.is_none()));
    assert_eq!(c.frames, 10);

    let report = c.frame(1000);
    assert_eq!(report, Some(10));
    // The count restarted at zero and then took in the reporting frame.
    assert_eq!(c.frames, 1);
    assert_eq!(c.window_start_ms, 1000);
}

#[test]
fn no_report_inside_window() {
    let mut c = FpsCounter::new(500);
    assert_eq!(c.frame(500), None);
    assert_eq!(c.frame(900), None);
    assert_eq!(c.frame(1499), None);
    assert_eq!(c.frames, 3);
    assert_eq!(c.window_start_ms, 500);
}

#[test]
fn next_window_counts_only_its_own_frames() {
    let mut c = FpsCounter::new(0);
    for t in [0, 250, 500, 750] {
        assert_eq!(c.frame(t), None);
    }
    assert_eq!(c.frame(1000), Some(4));
    // Only the reporting frame itself has been counted since.
    assert_eq!(c.frame(2000), Some(1));
}

#[test]
fn late_frame_still_reports_whole_count() {
    let mut c = FpsCounter::new(100);
    assert_eq!(c.frame(150), None);
    // Far past the window's end: the elapsed test is "at least", not "exactly".
    assert_eq!(c.frame(5000), Some(1));
    assert_eq!(c.window_start_ms, 5000);
}

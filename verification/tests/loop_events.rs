use teapot_grid::events::frames_completed_until_close;
use teapot_grid::events::LoopState;
use teapot_grid::events::WindowEvent;
use teapot_grid::frame::FrameState;

#[test]
fn close_request_closes_the_loop() {
    let mut s = LoopState::Running;
    s.observe_all(&vec![WindowEvent::Other, WindowEvent::CloseRequested, WindowEvent::Other]);
    assert!(!s.is_running());
}

#[test]
fn other_events_keep_the_loop_running() {
    let mut s = LoopState::Running;
    s.observe_all(&vec![WindowEvent::Other, WindowEvent::Other]);
    assert!(s.is_running());
    s.observe_all(&vec![]);
    assert!(s.is_running());
}

#[test]
fn closed_is_terminal() {
    let mut s = LoopState::Closed;
    s.observe_all(&vec![WindowEvent::Other]);
    assert!(!s.is_running());
    s.observe_all(&vec![]);
    assert!(!s.is_running());
}

#[test]
fn smoke_loop_terminates_one_frame_after_close_request() {
    // Launch, render one frame, then request close: the loop observes events
    // only between frames, so it completes exactly one more frame and stops.
    let mut state = FrameState::new(0);
    // Event batches as the window hands them out, one batch polled at the end
    // of each frame: nothing after the first frame, the close request after
    // the second.
    let batches = vec![
        vec![],
        vec![WindowEvent::CloseRequested],
        vec![],
        vec![],
    ];
    let mut frames_completed: usize = 0;
    let mut now_ms: u64 = 0;
    while state.should_continue() {
        let _report = state.begin_frame(now_ms);
        // (drawing happens here in the real loop)
        frames_completed += 1;
        state.end_frame(&batches[frames_completed - 1]);
        now_ms += 16;
        assert!(frames_completed < batches.len(), "loop failed to terminate");
    }
    assert_eq!(frames_completed, 2);
}

#[test]
fn close_in_second_batch_means_two_frames() {
    let batches = vec![
        vec![],
        vec![WindowEvent::CloseRequested],
        vec![],
    ];
    assert_eq!(frames_completed_until_close(&batches), Some(2));
}

#[test]
fn no_close_request_never_stops_the_loop() {
    let batches = vec![vec![], vec![WindowEvent::Other], vec![]];
    assert_eq!(frames_completed_until_close(&batches), None);
}

#[test]
fn close_in_first_batch_means_one_frame() {
    let batches = vec![vec![WindowEvent::Other, WindowEvent::CloseRequested]];
    assert_eq!(frames_completed_until_close(&batches), Some(1));
}

#[test]
fn frame_state_starts_running_and_black() {
    let state = FrameState::new(42);
    assert!(state.should_continue());
    assert_eq!(state.light_color_thousandths(), (0, 0, 0));
    assert_eq!(state.fps.window_start_ms, 42);
    assert_eq!(state.fps.frames, 0);
}

#[test]
fn end_frame_steps_color_and_keeps_fps() {
    let mut state = FrameState::new(0);
    state.end_frame(&vec![WindowEvent::Other]);
    assert_eq!(state.light_color_thousandths(), (1, 2, 3));
    assert_eq!(state.fps.frames, 0);
    assert!(state.should_continue());
}

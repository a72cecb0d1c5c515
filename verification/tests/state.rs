use frameloop::state::{Event, RenderState};

#[test]
fn starts_running_with_given_size() {
    let s = RenderState::new(256, 256);
    assert!(s.should_render());
    assert_eq!(s.width, 256);
    assert_eq!(s.height, 256);
    assert_eq!(s.frames_since_report, 0);
}

#[test]
fn close_request_stops_rendering() {
    let mut s = RenderState::new(256, 256);
    let forward = s.apply_event(&Event::CloseRequested);
    assert_eq!(forward, None);
    assert!(!s.should_render());
}

#[test]
fn nothing_restarts_a_stopped_loop() {
    let mut s = RenderState::new(256, 256);
    s.apply_event(&Event::CloseRequested);
    s.apply_event(&Event::Other);
    s.apply_event(&Event::Resized(100, 100));
    assert!(!s.should_render());
}

#[test]
fn resize_forwards_but_keeps_frame_size() {
    let mut s = RenderState::new(256, 256);
    let forward = s.apply_event(&Event::Resized(640, 480));
    assert_eq!(forward, Some((640, 480)));
    assert!(s.should_render());
    assert_eq!(s.width, 256);
    assert_eq!(s.height, 256);
}

#[test]
fn other_events_are_ignored() {
    let mut s = RenderState::new(256, 256);
    let forward = s.apply_event(&Event::Other);
    assert_eq!(forward, None);
    assert!(s.should_render());
    assert_eq!(s.width, 256);
    assert_eq!(s.height, 256);
    assert_eq!(s.frames_since_report, 0);
}

#[test]
fn batch_with_close_stops_whatever_else_it_holds() {
    let mut s = RenderState::new(256, 256);
    let forwards = s.apply_events(&vec![
        Event::Other,
        Event::Resized(800, 600),
        Event::CloseRequested,
        Event::Resized(10, 10),
    ]);
    assert_eq!(forwards, vec![(800, 600), (10, 10)]);
    assert!(!s.should_render());
    assert_eq!(s.width, 256);
    assert_eq!(s.height, 256);
}

#[test]
fn empty_batch_changes_nothing() {
    let mut s = RenderState::new(256, 256);
    let forwards = s.apply_events(&vec![]);
    assert!(forwards.is_empty());
    assert!(s.should_render());
}

#[test]
fn frame_counter_counts_and_resets_on_report() {
    let mut s = RenderState::new(256, 256);
    assert_eq!(s.frame_completed(false), None);
    assert_eq!(s.frame_completed(false), None);
    assert_eq!(s.frame_completed(false), None);
    assert_eq!(s.frames_since_report, 3);
    assert_eq!(s.frame_completed(true), Some(4));
    assert_eq!(s.frames_since_report, 0);
    assert_eq!(s.frame_completed(true), Some(1));
    assert_eq!(s.frames_since_report, 0);
}

#[test]
fn events_do_not_touch_the_frame_counter() {
    let mut s = RenderState::new(256, 256);
    s.frame_completed(false);
    s.apply_event(&Event::Resized(1, 1));
    s.apply_event(&Event::Other);
    s.apply_event(&Event::CloseRequested);
    assert_eq!(s.frames_since_report, 1);
}

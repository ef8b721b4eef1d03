use frame_host::event::{classify, Event, EventClass, Key};
use frame_host::geometry::{DeviceRect, DeviceSize, PixelRatio};
use frame_host::state::{
    process_batch, Action, BatchOutcome, FrameState, PROFILER_DEBUG_FLAG,
};

fn press_p() -> Event {
    Event::KeyboardInput { key: Key::P, pressed: true }
}

fn resize(width: u32, height: u32) -> Event {
    Event::Resized { width, height }
}

fn fresh_state(width: u32, height: u32) -> FrameState {
    FrameState::new(DeviceSize::new(width, height), PixelRatio::new(1, 1), 1, 1)
}

fn window_update_count(out: &BatchOutcome) -> usize {
    out.actions
        .iter()
        .filter(|a| matches!(a, Action::SetWindowParameters { .. }))
        .count()
}

#[test]
fn empty_batch_is_a_no_op() {
    let mut st = fresh_state(800, 600);
    let out = process_batch(&mut st, &Vec::new());
    assert!(!out.terminated);
    assert!(out.actions.is_empty());
    assert!(out.submission.is_none());
    assert_eq!(st.framebuffer_size, DeviceSize::new(800, 600));
    assert_eq!(st.debug_flags, 0);
}

#[test]
fn ignored_events_change_nothing() {
    let mut st = fresh_state(800, 600);
    let batch = vec![
        Event::Other,
        Event::KeyboardInput { key: Key::Other, pressed: true },
        Event::KeyboardInput { key: Key::P, pressed: false },
    ];
    let out = process_batch(&mut st, &batch);
    assert!(!out.terminated);
    assert!(out.actions.is_empty());
    assert!(out.submission.is_none());
    assert_eq!(st.framebuffer_size, DeviceSize::new(800, 600));
    assert_eq!(st.debug_flags, 0);
}

#[test]
fn resize_updates_geometry_and_plans_one_submission() {
    let mut st = fresh_state(800, 600);
    let out = process_batch(&mut st, &vec![resize(400, 300)]);
    assert!(!out.terminated);
    assert_eq!(st.framebuffer_size, DeviceSize::new(400, 300));
    assert!(st.layout_size.width.is_int(400));
    assert!(st.layout_size.height.is_int(300));
    assert_eq!(out.actions.len(), 3);
    assert_eq!(
        out.actions[0],
        Action::SetWindowParameters {
            framebuffer_size: DeviceSize::new(400, 300),
            clip: DeviceRect::full(DeviceSize::new(400, 300)),
            ratio: PixelRatio::new(1, 1),
        }
    );
    assert_eq!(out.actions[1], Action::SetDisplayList);
    assert_eq!(out.actions[2], Action::GenerateFrame);
    let sub = out.submission.expect("a resize plans a submission");
    assert_eq!(sub.epoch, 0);
    assert_eq!(sub.layout_size, st.layout_size);
    assert!(sub.preserve_layout);
    assert_eq!(sub.display_list.len(), 3);
}

#[test]
fn last_resize_in_a_batch_wins() {
    let mut st = fresh_state(800, 600);
    let batch = vec![resize(100, 100), resize(200, 150), resize(640, 480)];
    let out = process_batch(&mut st, &batch);
    assert_eq!(st.framebuffer_size, DeviceSize::new(640, 480));
    assert_eq!(window_update_count(&out), 1);
    match out.actions[0] {
        Action::SetWindowParameters { framebuffer_size, clip, ratio } => {
            assert_eq!(framebuffer_size, DeviceSize::new(640, 480));
            assert_eq!(clip, DeviceRect::full(DeviceSize::new(640, 480)));
            assert_eq!(ratio, PixelRatio::new(1, 1));
        }
        _ => panic!("the window-parameter update must come first"),
    }
}

#[test]
fn toggle_once_flips_the_profiler_bit() {
    let mut st = fresh_state(800, 600);
    let out = process_batch(&mut st, &vec![press_p()]);
    assert_eq!(st.debug_flags, PROFILER_DEBUG_FLAG);
    assert_eq!(out.actions, vec![Action::ToggleDebugFlags]);
    assert!(out.submission.is_none());
}

#[test]
fn toggle_twice_restores_the_flags() {
    let mut st = fresh_state(800, 600);
    let out = process_batch(&mut st, &vec![press_p(), press_p()]);
    assert_eq!(st.debug_flags, 0);
    assert_eq!(out.actions, vec![Action::ToggleDebugFlags, Action::ToggleDebugFlags]);
}

#[test]
fn toggle_resize_toggle_nets_no_flag_change_and_one_rebuild() {
    let mut st = fresh_state(800, 600);
    let batch = vec![press_p(), resize(640, 480), press_p()];
    let out = process_batch(&mut st, &batch);
    assert!(!out.terminated);
    assert_eq!(st.debug_flags, 0);
    assert_eq!(st.framebuffer_size, DeviceSize::new(640, 480));
    assert_eq!(window_update_count(&out), 1);
    assert_eq!(out.actions.len(), 5);
    assert_eq!(out.actions[0], Action::ToggleDebugFlags);
    assert_eq!(out.actions[1], Action::ToggleDebugFlags);
    assert!(matches!(out.actions[2], Action::SetWindowParameters { .. }));
    assert_eq!(out.actions[3], Action::SetDisplayList);
    assert_eq!(out.actions[4], Action::GenerateFrame);
    assert!(out.submission.is_some());
}

#[test]
fn close_request_terminates() {
    let mut st = fresh_state(800, 600);
    let out = process_batch(&mut st, &vec![Event::CloseRequested]);
    assert!(out.terminated);
    assert_eq!(out.actions, vec![Action::Teardown]);
    assert!(out.submission.is_none());
}

#[test]
fn escape_terminates_whatever_its_key_state() {
    let mut st = fresh_state(800, 600);
    let out = process_batch(
        &mut st,
        &vec![Event::KeyboardInput { key: Key::Escape, pressed: false }],
    );
    assert!(out.terminated);
    assert_eq!(out.actions, vec![Action::Teardown]);
}

#[test]
fn events_after_a_terminator_are_not_processed() {
    let mut st = fresh_state(800, 600);
    let batch = vec![resize(1, 2), Event::CloseRequested, resize(999, 999), press_p()];
    let out = process_batch(&mut st, &batch);
    assert!(out.terminated);
    // the resize before the close request still took effect ...
    assert_eq!(st.framebuffer_size, DeviceSize::new(1, 2));
    // ... but nothing after the close request did
    assert_eq!(st.debug_flags, 0);
    assert_eq!(window_update_count(&out), 1);
    assert!(out.submission.is_some());
    assert_eq!(out.actions.last(), Some(&Action::Teardown));
}

#[test]
fn escape_first_plans_only_the_teardown() {
    let mut st = fresh_state(800, 600);
    let batch = vec![
        Event::KeyboardInput { key: Key::Escape, pressed: true },
        resize(999, 999),
    ];
    let out = process_batch(&mut st, &batch);
    assert!(out.terminated);
    assert_eq!(st.framebuffer_size, DeviceSize::new(800, 600));
    assert_eq!(out.actions, vec![Action::Teardown]);
    assert!(out.submission.is_none());
}

#[test]
fn classification_of_each_event_kind() {
    assert_eq!(classify(&Event::CloseRequested), EventClass::Terminate);
    assert_eq!(
        classify(&Event::KeyboardInput { key: Key::Escape, pressed: true }),
        EventClass::Terminate
    );
    assert_eq!(
        classify(&Event::KeyboardInput { key: Key::Escape, pressed: false }),
        EventClass::Terminate
    );
    assert_eq!(classify(&press_p()), EventClass::ToggleDebug);
    assert_eq!(
        classify(&Event::KeyboardInput { key: Key::P, pressed: false }),
        EventClass::Ignore
    );
    assert_eq!(
        classify(&Event::KeyboardInput { key: Key::Other, pressed: true }),
        EventClass::Ignore
    );
    assert_eq!(
        classify(&resize(640, 480)),
        EventClass::Resize { size: DeviceSize::new(640, 480) }
    );
    assert_eq!(classify(&Event::Other), EventClass::Ignore);
}

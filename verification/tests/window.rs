use rendiation::event::{ElementState, Event, EventKind, MouseButton, WindowEvent};
use rendiation::fixed::ONE;
use rendiation::vector::Vec2;
use rendiation::window::{Listener, Window, WindowData, WindowError, WindowState};

/// What the listeners of these tests write down: who was called, and the
/// window state they were called with.
struct Log {
    calls: Vec<(u32, WindowData)>,
}

/// A listener that writes its number down.
struct Mark(u32);

impl Listener<Log, u32> for Mark {
    fn handle(&self, window: &WindowState, state: &mut Log, renderer: &mut u32) {
        state.calls.push((self.0, window.data()));
        *renderer += 1;
    }
}

/// A listener that checks that the one before it has finished.
struct After(u32);

impl Listener<Log, u32> for After {
    fn handle(&self, window: &WindowState, state: &mut Log, renderer: &mut u32) {
        assert_eq!(state.calls.last().map(|c| c.0), Some(self.0));
        state.calls.push((self.0 + 1, window.data()));
        *renderer += 1;
    }
}

fn window(width: i64, height: i64, hidpi: i64) -> Window<Log, u32> {
    Window::new(Vec2::new(width * ONE, height * ONE), hidpi).unwrap()
}

fn who(log: &Log) -> Vec<u32> {
    log.calls.iter().map(|c| c.0).collect()
}

fn resized(width: i64, height: i64) -> Event {
    Event::WindowEvent(WindowEvent::Resized(Vec2::new(width * ONE, height * ONE)))
}

fn moved(x: i64, y: i64) -> Event {
    Event::WindowEvent(WindowEvent::CursorMoved { position: Vec2::new(x, y) })
}

fn button(state: ElementState, button: MouseButton) -> Event {
    Event::WindowEvent(WindowEvent::MouseInput { state, button })
}

fn wheel(x: i64, y: i64) -> Event {
    Event::WindowEvent(WindowEvent::MouseWheel { delta: Vec2::new(x, y) })
}

#[test]
fn window_refuses_a_scale_that_is_not_positive() {
    assert_eq!(
        Window::<Log, u32>::new(Vec2::new(800 * ONE, 600 * ONE), 0).err(),
        Some(WindowError::InvalidHidpiFactor)
    );
    assert_eq!(
        Window::<Log, u32>::new(Vec2::new(800 * ONE, 600 * ONE), -2 * ONE).err(),
        Some(WindowError::InvalidHidpiFactor)
    );
    assert_eq!(
        WindowState::new(Vec2::new(800 * ONE, 600 * ONE), 0).err(),
        Some(WindowError::InvalidHidpiFactor)
    );
    assert_eq!(
        WindowState::new(Vec2::new(800 * ONE, 600 * ONE), i64::MIN).err(),
        Some(WindowError::InvalidHidpiFactor)
    );
    assert!(WindowState::new(Vec2::new(800 * ONE, 600 * ONE), 1).is_ok());
}

#[test]
fn new_window_is_at_rest() {
    let w = window(800, 600, 2 * ONE);
    assert_eq!(
        w.window_state().data(),
        WindowData {
            size: Vec2 { x: 800 * ONE, y: 600 * ONE },
            physical_size: Vec2 { x: 1600 * ONE, y: 1200 * ONE },
            hidpi_factor: 2 * ONE,
            mouse_position: Vec2 { x: 0, y: 0 },
            is_left_mouse_down: false,
            is_right_mouse_down: false,
            mouse_motion: Vec2 { x: 0, y: 0 },
            mouse_wheel_delta: Vec2 { x: 0, y: 0 },
        }
    );
}

#[test]
fn update_size_derives_the_physical_size() {
    let mut s = WindowState::new(Vec2::new(800 * ONE, 600 * ONE), 1_500_000).unwrap();
    assert_eq!(s.data().physical_size, Vec2 { x: 1200 * ONE, y: 900 * ONE });
    s.update_size(&Vec2::new(1024 * ONE, 768 * ONE));
    assert_eq!(s.data().size, Vec2 { x: 1024 * ONE, y: 768 * ONE });
    assert_eq!(s.data().physical_size, Vec2 { x: 1536 * ONE, y: 1152 * ONE });
    assert_eq!(s.data().hidpi_factor, 1_500_000);
    s.update_size(&Vec2::new(0, 0));
    assert_eq!(s.data().physical_size, Vec2 { x: 0, y: 0 });
    s.update_size(&Vec2::new(3, 1));
    assert_eq!(s.data().physical_size, Vec2 { x: 4, y: 1 });
}

#[test]
fn mouse_move_records_how_far_the_pointer_came() {
    let mut s = WindowState::new(Vec2::new(800 * ONE, 600 * ONE), ONE).unwrap();
    s.mouse_move_to(&Vec2::new(10 * ONE, 20 * ONE));
    assert_eq!(s.data().mouse_position, Vec2 { x: 10 * ONE, y: 20 * ONE });
    assert_eq!(s.data().mouse_motion, Vec2 { x: 10 * ONE, y: 20 * ONE });
    s.mouse_move_to(&Vec2::new(13 * ONE, 15 * ONE));
    assert_eq!(s.data().mouse_position, Vec2 { x: 13 * ONE, y: 15 * ONE });
    assert_eq!(s.data().mouse_motion, Vec2 { x: 3 * ONE, y: -5 * ONE });
    s.mouse_move_to(&Vec2::new(13 * ONE, 15 * ONE));
    assert_eq!(s.data().mouse_motion, Vec2 { x: 0, y: 0 });
}

#[test]
fn buttons_are_kept_track_of() {
    let mut s = WindowState::new(Vec2::new(800 * ONE, 600 * ONE), ONE).unwrap();
    s.mouse_input(ElementState::Pressed, MouseButton::Left);
    assert!(s.data().is_left_mouse_down);
    assert!(!s.data().is_right_mouse_down);
    s.mouse_input(ElementState::Pressed, MouseButton::Right);
    assert!(s.data().is_left_mouse_down);
    assert!(s.data().is_right_mouse_down);
    s.mouse_input(ElementState::Released, MouseButton::Left);
    assert!(!s.data().is_left_mouse_down);
    assert!(s.data().is_right_mouse_down);
    s.mouse_input(ElementState::Pressed, MouseButton::Middle);
    s.mouse_input(ElementState::Released, MouseButton::Other(7));
    assert!(!s.data().is_left_mouse_down);
    assert!(s.data().is_right_mouse_down);
    s.mouse_input(ElementState::Released, MouseButton::Right);
    assert!(!s.data().is_right_mouse_down);
    s.mouse_input(ElementState::Released, MouseButton::Right);
    assert!(!s.data().is_right_mouse_down);
}

#[test]
fn wheel_keeps_only_the_last_turn() {
    let mut s = WindowState::new(Vec2::new(800 * ONE, 600 * ONE), ONE).unwrap();
    s.mouse_wheel(&Vec2::new(0, 2 * ONE));
    assert_eq!(s.data().mouse_wheel_delta, Vec2 { x: 0, y: 2 * ONE });
    s.mouse_wheel(&Vec2::new(ONE, -ONE));
    assert_eq!(s.data().mouse_wheel_delta, Vec2 { x: ONE, y: -ONE });
}

#[test]
fn every_event_has_one_kind() {
    assert_eq!(resized(1, 1).kind(), EventKind::Resize);
    assert_eq!(moved(1, 1).kind(), EventKind::MouseMotion);
    assert_eq!(button(ElementState::Pressed, MouseButton::Middle).kind(), EventKind::MouseDown);
    assert_eq!(button(ElementState::Released, MouseButton::Left).kind(), EventKind::MouseUp);
    assert_eq!(wheel(0, 1).kind(), EventKind::Wheel);
    assert_eq!(Event::WindowEvent(WindowEvent::Other).kind(), EventKind::Ignored);
    assert_eq!(Event::DeviceEvent.kind(), EventKind::Ignored);
    assert_eq!(Event::Other.kind(), EventKind::Ignored);
}

#[test]
fn listeners_run_in_the_order_of_registration() {
    let mut w = window(800, 600, ONE);
    w.add_resize_listener(Mark(1));
    w.add_resize_listener(After(1));
    w.add_resize_listener(After(2));
    w.add_resize_listener(Mark(9));
    let mut log = Log { calls: Vec::new() };
    let mut renderer = 0;
    w.event(resized(640, 480), &mut log, &mut renderer);
    assert_eq!(who(&log), vec![1, 2, 3, 9]);
    assert_eq!(renderer, 4);
    w.event(resized(320, 240), &mut log, &mut renderer);
    assert_eq!(who(&log), vec![1, 2, 3, 9, 1, 2, 3, 9]);
}

#[test]
fn the_same_listener_registered_twice_is_called_twice() {
    let mut w = window(800, 600, ONE);
    w.add_mouse_wheel_listener(Mark(4));
    w.add_mouse_wheel_listener(Mark(4));
    let mut log = Log { calls: Vec::new() };
    let mut renderer = 0;
    w.event(wheel(0, ONE), &mut log, &mut renderer);
    assert_eq!(who(&log), vec![4, 4]);
}

#[test]
fn resize_listener_sees_the_new_physical_size() {
    let mut w = window(100, 100, 2 * ONE);
    w.add_resize_listener(Mark(1));
    w.add_resize_listener(Mark(2));
    let mut log = Log { calls: Vec::new() };
    let mut renderer = 0;
    w.event(resized(800, 600), &mut log, &mut renderer);
    assert_eq!(log.calls.len(), 2);
    for call in &log.calls {
        assert_eq!(call.1.size, Vec2 { x: 800 * ONE, y: 600 * ONE });
        assert_eq!(call.1.physical_size, Vec2 { x: 1600 * ONE, y: 1200 * ONE });
        assert_eq!(call.1.hidpi_factor, 2 * ONE);
    }
    assert_eq!(w.window_state().data().physical_size, Vec2 { x: 1600 * ONE, y: 1200 * ONE });
}

#[test]
fn each_kind_of_event_reaches_its_own_listeners() {
    let mut w = window(800, 600, ONE);
    w.add_resize_listener(Mark(1));
    w.add_mouse_motion_listener(Mark(2));
    w.listener(Mark(3));
    w.add_mouse_up_listener(Mark(4));
    w.add_mouse_wheel_listener(Mark(5));
    let mut log = Log { calls: Vec::new() };
    let mut renderer = 0;

    w.event(moved(5 * ONE, 7 * ONE), &mut log, &mut renderer);
    assert_eq!(who(&log), vec![2]);
    assert_eq!(log.calls[0].1.mouse_position, Vec2 { x: 5 * ONE, y: 7 * ONE });
    assert_eq!(log.calls[0].1.mouse_motion, Vec2 { x: 5 * ONE, y: 7 * ONE });

    w.event(button(ElementState::Pressed, MouseButton::Left), &mut log, &mut renderer);
    assert_eq!(who(&log), vec![2, 3]);
    assert!(log.calls[1].1.is_left_mouse_down);

    w.event(button(ElementState::Released, MouseButton::Left), &mut log, &mut renderer);
    assert_eq!(who(&log), vec![2, 3, 4]);
    assert!(!log.calls[2].1.is_left_mouse_down);

    w.event(wheel(0, -3 * ONE), &mut log, &mut renderer);
    assert_eq!(who(&log), vec![2, 3, 4, 5]);
    assert_eq!(log.calls[3].1.mouse_wheel_delta, Vec2 { x: 0, y: -3 * ONE });

    w.event(resized(10, 20), &mut log, &mut renderer);
    assert_eq!(who(&log), vec![2, 3, 4, 5, 1]);
    assert_eq!(renderer, 5);
}

#[test]
fn ignored_events_change_nothing_and_reach_nobody() {
    let mut w = window(800, 600, ONE);
    w.add_resize_listener(Mark(1));
    w.add_mouse_motion_listener(Mark(2));
    w.listener(Mark(3));
    w.add_mouse_up_listener(Mark(4));
    w.add_mouse_wheel_listener(Mark(5));
    let before = w.window_state().data();
    let mut log = Log { calls: Vec::new() };
    let mut renderer = 0;
    w.event(Event::WindowEvent(WindowEvent::Other), &mut log, &mut renderer);
    w.event(Event::DeviceEvent, &mut log, &mut renderer);
    w.event(Event::Other, &mut log, &mut renderer);
    assert!(log.calls.is_empty());
    assert_eq!(renderer, 0);
    assert_eq!(w.window_state().data(), before);
}

#[test]
fn an_event_without_listeners_still_updates_the_state() {
    let mut w = window(800, 600, 2 * ONE);
    let mut log = Log { calls: Vec::new() };
    let mut renderer = 0;
    w.event(resized(400, 300), &mut log, &mut renderer);
    w.event(button(ElementState::Pressed, MouseButton::Right), &mut log, &mut renderer);
    w.event(moved(ONE, ONE), &mut log, &mut renderer);
    w.event(wheel(ONE, 0), &mut log, &mut renderer);
    assert!(log.calls.is_empty());
    let data = w.window_state().data();
    assert_eq!(data.physical_size, Vec2 { x: 800 * ONE, y: 600 * ONE });
    assert!(data.is_right_mouse_down);
    assert_eq!(data.mouse_position, Vec2 { x: ONE, y: ONE });
    assert_eq!(data.mouse_wheel_delta, Vec2 { x: ONE, y: 0 });
}

#[test]
fn emit_resize_calls_the_resize_listeners_with_the_state_as_it_stands() {
    let mut w = window(800, 600, 2 * ONE);
    w.add_resize_listener(Mark(1));
    w.add_mouse_motion_listener(Mark(2));
    w.add_resize_listener(Mark(3));
    let mut log = Log { calls: Vec::new() };
    let mut renderer = 0;
    w.emit_resize(&mut log, &mut renderer);
    assert_eq!(who(&log), vec![1, 3]);
    assert_eq!(log.calls[0].1, w.window_state().data());
    assert_eq!(log.calls[1].1.physical_size, Vec2 { x: 1600 * ONE, y: 1200 * ONE });
}

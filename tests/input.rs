use fstop::input::{Impulse, InputState, Key, KeyAction, MotionKeys};
use fstop::scene::{KinematicObject, NodeId, StaticObject};

#[test]
fn movement_keys_map_to_directions() {
    let mut k = MotionKeys::new();
    assert!(k.process_keyboard(Key::W, true));
    assert_eq!(k.impulse(), Impulse { x: 0, y: 1, z: 0 });
    assert!(k.process_keyboard(Key::Left, true));
    assert_eq!(k.impulse(), Impulse { x: -1, y: 1, z: 0 });
    assert!(k.process_keyboard(Key::Space, true));
    assert_eq!(k.impulse(), Impulse { x: -1, y: 1, z: 1 });
    assert!(k.process_keyboard(Key::W, false));
    assert_eq!(k.impulse(), Impulse { x: -1, y: 0, z: 1 });
}

#[test]
fn opposite_keys_cancel() {
    let mut k = MotionKeys::new();
    k.process_keyboard(Key::Up, true);
    k.process_keyboard(Key::Down, true);
    k.process_keyboard(Key::D, true);
    k.process_keyboard(Key::A, true);
    k.process_keyboard(Key::Space, true);
    k.process_keyboard(Key::LShift, true);
    assert_eq!(k.impulse(), Impulse { x: 0, y: 0, z: 0 });
}

#[test]
fn other_keys_change_nothing() {
    let mut k = MotionKeys::new();
    k.process_keyboard(Key::S, true);
    let before = k;
    assert!(!k.process_keyboard(Key::Other, true));
    assert!(!k.process_keyboard(Key::Tab, true));
    assert_eq!(k, before);
    assert_eq!(k.impulse(), Impulse { x: 0, y: -1, z: 0 });
}

#[test]
fn tab_toggles_cursor_lock() {
    let mut s = InputState::new();
    assert!(!s.device_input());
    assert_eq!(s.window_input(Key::Tab, true), KeyAction::LockCursor);
    assert!(s.device_input());
    assert_eq!(s.window_input(Key::Tab, false), KeyAction::Ignore);
    assert!(s.device_input());
    assert_eq!(s.window_input(Key::Tab, true), KeyAction::ReleaseCursor);
    assert!(!s.device_input());
}

#[test]
fn escape_exits_and_keys_move() {
    let mut s = InputState::new();
    assert_eq!(s.window_input(Key::D, true), KeyAction::Move);
    assert!(s.keys.right);
    let before = s;
    assert_eq!(s.window_input(Key::Escape, true), KeyAction::Exit);
    assert_eq!(s, before);
    assert_eq!(s.window_input(Key::Escape, false), KeyAction::Ignore);
    assert_eq!(s.window_input(Key::D, false), KeyAction::Move);
    assert_eq!(s.keys.impulse(), Impulse { x: 0, y: 0, z: 0 });
}

#[test]
fn scene_markers() {
    assert_eq!(NodeId(3), NodeId(3));
    assert_ne!(NodeId(3), NodeId(4));
    assert_eq!(StaticObject {}, StaticObject {});
    assert_eq!(KinematicObject {}, KinematicObject {});
}

use camera_nav::camera::CameraState;
use camera_nav::input::{Key, KeyEvent};
use camera_nav::motion::Movement;

const ALL_MOVEMENTS: [Movement; 6] = [
    Movement::Up,
    Movement::Left,
    Movement::Down,
    Movement::Right,
    Movement::Forward,
    Movement::Backward,
];

fn press(key: Key) -> KeyEvent {
    KeyEvent { key, pressed: true }
}

fn release(key: Key) -> KeyEvent {
    KeyEvent { key, pressed: false }
}

fn held(state: &CameraState) -> Vec<Movement> {
    ALL_MOVEMENTS.iter().copied().filter(|m| state.is_moving(*m)).collect()
}

#[test]
fn new_camera_holds_nothing() {
    let state = CameraState::new();
    for m in ALL_MOVEMENTS {
        assert!(!state.is_moving(m));
    }
}

#[test]
fn key_bindings() {
    assert_eq!(Key::Space.movement(), Some(Movement::Up));
    assert_eq!(Key::LShift.movement(), Some(Movement::Down));
    assert_eq!(Key::RShift.movement(), Some(Movement::Down));
    assert_eq!(Key::A.movement(), Some(Movement::Left));
    assert_eq!(Key::D.movement(), Some(Movement::Right));
    assert_eq!(Key::W.movement(), Some(Movement::Forward));
    assert_eq!(Key::S.movement(), Some(Movement::Backward));
    assert_eq!(Key::Other.movement(), None);
}

#[test]
fn w_press_sets_forward_and_release_clears_it() {
    let mut state = CameraState::new();
    state.process_input(&press(Key::W));
    assert!(state.is_moving(Movement::Forward));
    assert_eq!(held(&state), vec![Movement::Forward]);
    state.process_input(&release(Key::W));
    assert!(!state.is_moving(Movement::Forward));
    assert_eq!(state, CameraState::new());
}

#[test]
fn unbound_key_leaves_all_flags_unchanged() {
    let mut state = CameraState::new();
    state.process_input(&press(Key::Other));
    assert_eq!(state, CameraState::new());

    state.process_input(&press(Key::A));
    state.process_input(&press(Key::Space));
    let before = state;
    state.process_input(&press(Key::Other));
    assert_eq!(state, before);
    state.process_input(&release(Key::Other));
    assert_eq!(state, before);
    assert_eq!(held(&state), vec![Movement::Up, Movement::Left]);
}

#[test]
fn every_bound_key_sets_only_its_own_flag() {
    let bindings = [
        (Key::Space, Movement::Up),
        (Key::LShift, Movement::Down),
        (Key::RShift, Movement::Down),
        (Key::A, Movement::Left),
        (Key::D, Movement::Right),
        (Key::W, Movement::Forward),
        (Key::S, Movement::Backward),
    ];
    for (key, movement) in bindings {
        let mut state = CameraState::new();
        state.process_input(&press(key));
        assert_eq!(held(&state), vec![movement]);
        state.process_input(&release(key));
        assert_eq!(held(&state), Vec::<Movement>::new());
    }
}

#[test]
fn flags_are_not_exclusive() {
    let mut state = CameraState::new();
    state.process_input(&press(Key::Space));
    state.process_input(&press(Key::A));
    assert_eq!(held(&state), vec![Movement::Up, Movement::Left]);

    state.process_input(&press(Key::LShift));
    assert!(state.is_moving(Movement::Up));
    assert!(state.is_moving(Movement::Down));

    state.process_input(&release(Key::Space));
    assert_eq!(held(&state), vec![Movement::Left, Movement::Down]);
}

#[test]
fn pressing_a_held_key_again_changes_nothing() {
    let mut state = CameraState::new();
    state.process_input(&press(Key::D));
    let once = state;
    state.process_input(&press(Key::D));
    assert_eq!(state, once);
}

#[test]
fn releasing_a_key_that_is_not_held_changes_nothing() {
    let mut state = CameraState::new();
    state.process_input(&press(Key::W));
    let before = state;
    state.process_input(&release(Key::S));
    assert_eq!(state, before);
}

#[test]
fn either_shift_releases_down() {
    let mut state = CameraState::new();
    state.process_input(&press(Key::LShift));
    state.process_input(&press(Key::RShift));
    assert!(state.is_moving(Movement::Down));
    state.process_input(&release(Key::RShift));
    assert!(!state.is_moving(Movement::Down));
}

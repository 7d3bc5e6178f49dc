use palmer_fdm::keyboard::{flt_ctrl, is_pressed, Key, KeyboardState};

fn cleared() -> KeyboardState {
    KeyboardState {
        throttle_up: false,
        throttle_down: false,
        aoa_up: false,
        aoa_down: false,
        bank_left: false,
        bank_right: false,
        flaps_down: false,
        zero_flaps: false,
    }
}

#[test]
fn no_keys_clears_every_request() {
    let mut k = KeyboardState { throttle_up: true, bank_right: true, ..cleared() };
    let quit = flt_ctrl(&mut k, &vec![]);
    assert!(!quit);
    assert_eq!(k, cleared());
}

#[test]
fn first_key_of_a_pair_wins() {
    let mut k = cleared();
    let quit = flt_ctrl(&mut k, &vec![Key::D, Key::E, Key::Up, Key::Down, Key::Right, Key::Left, Key::L, Key::K]);
    assert!(!quit);
    assert_eq!(
        k,
        KeyboardState { throttle_up: true, aoa_up: true, bank_left: true, flaps_down: true, ..cleared() }
    );
}

#[test]
fn second_key_of_a_pair_alone() {
    let mut k = cleared();
    flt_ctrl(&mut k, &vec![Key::D, Key::Up, Key::Right, Key::L, Key::Other]);
    assert_eq!(
        k,
        KeyboardState { throttle_down: true, aoa_down: true, bank_right: true, zero_flaps: true, ..cleared() }
    );
}

#[test]
fn quit_key_is_reported() {
    let mut k = cleared();
    assert!(flt_ctrl(&mut k, &vec![Key::Other, Key::Q]));
    assert!(is_pressed(&vec![Key::Q], Key::Q));
    assert!(!is_pressed(&vec![Key::E], Key::Q));
}

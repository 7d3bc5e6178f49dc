use vstd::prelude::*;

verus! {

/// The keys that the flight controls read; every other key is `Other`.
#[derive(Clone, Copy, Debug, PartialEq, Eq, Structural)]
pub enum Key {
    E,
    D,
    Up,
    Down,
    Left,
    Right,
    K,
    L,
    Q,
    Other,
}

/// Which flight-control requests are active this tick.
#[derive(Clone, Copy, Debug, PartialEq, Eq, Structural)]
pub struct KeyboardState {
    pub throttle_up: bool,
    pub throttle_down: bool,
    pub aoa_up: bool,
    pub aoa_down: bool,
    pub bank_left: bool,
    pub bank_right: bool,
    pub flaps_down: bool,
    pub zero_flaps: bool,
}

/// The requests for a set of pressed keys. Each pair of opposite requests
/// is decided by one key taking precedence: E over D, Down over Up, Left
/// over Right, K over L.
pub open spec fn state_of_keys(keys: Seq<Key>) -> KeyboardState {
    KeyboardState {
        throttle_up: keys.contains(Key::E),
        throttle_down: !keys.contains(Key::E) && keys.contains(Key::D),
        aoa_up: keys.contains(Key::Down),
        aoa_down: !keys.contains(Key::Down) && keys.contains(Key::Up),
        bank_left: keys.contains(Key::Left),
        bank_right: !keys.contains(Key::Left) && keys.contains(Key::Right),
        flaps_down: keys.contains(Key::K),
        zero_flaps: !keys.contains(Key::K) && keys.contains(Key::L),
    }
}

/// Whether `k` is among the pressed keys.
pub fn is_pressed(keys: &Vec<Key>, k: Key) -> (r: bool)
    ensures
        r == keys@.contains(k),
{
    let mut i: usize = 0;
    while i < keys.len()
        invariant
            0 <= i <= keys@.len(),
            forall|j: int| 0 <= j < i ==> keys@[j] != k,
        decreases keys@.len() - i,
    {
        if keys[i] == k {
            assert(keys@[i as int] == k);
            return true;
        }
        i = i + 1;
    }
    false
}

/// Sets every request of `keystate` from the pressed keys and reports
/// whether the quit key (Q) is among them.
pub fn flt_ctrl(keystate: &mut KeyboardState, keys: &Vec<Key>) -> (quit: bool)
    ensures
        *final(keystate) == state_of_keys(keys@),
        quit == keys@.contains(Key::Q),
{
    keystate.throttle_up = false;
    keystate.throttle_down = false;
    keystate.aoa_up = false;
    keystate.aoa_down = false;
    keystate.bank_left = false;
    keystate.bank_right = false;
    keystate.flaps_down = false;
    keystate.zero_flaps = false;

    if is_pressed(keys, Key::E) {
        keystate.throttle_up = true;
    } else if is_pressed(keys, Key::D) {
        keystate.throttle_down = true;
    }
    if is_pressed(keys, Key::Down) {
        keystate.aoa_up = true;
    } else if is_pressed(keys, Key::Up) {
        keystate.aoa_down = true;
    }
    if is_pressed(keys, Key::Left) {
        keystate.bank_left = true;
    } else if is_pressed(keys, Key::Right) {
        keystate.bank_right = true;
    }
    if is_pressed(keys, Key::K) {
        keystate.flaps_down = true;
    } else if is_pressed(keys, Key::L) {
        keystate.zero_flaps = true;
    }
    is_pressed(keys, Key::Q)
}

} // verus!

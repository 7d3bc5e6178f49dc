use palmer_fdm::controls::{ControlInputs, ControlSignals, Flap};

fn signals(thrust_up: bool, thrust_down: bool, aoa_up: bool, aoa_down: bool) -> ControlSignals {
    ControlSignals { thrust_up, thrust_down, aoa_up, aoa_down }
}

#[test]
fn initial_controls_are_idle_and_level() {
    let c = ControlInputs::initial();
    assert_eq!(c.throttle_steps, 0);
    assert_eq!(c.alpha_deg, 0);
    assert_eq!(c.bank_deg, 0);
    assert_eq!(c.flap, Flap::Retracted);
}

#[test]
fn throttle_up_steps_by_one_twentieth() {
    let mut c = ControlInputs::initial();
    c.apply_signals(&signals(true, false, false, false));
    assert_eq!(c.throttle_steps, 1);
    assert_eq!(c.alpha_deg, 0);
}

#[test]
fn throttle_stops_at_full() {
    let mut c = ControlInputs::initial();
    for _ in 0..25 {
        c.apply_signals(&signals(true, false, false, false));
    }
    assert_eq!(c.throttle_steps, 20);
}

#[test]
fn throttle_down_at_idle_does_nothing() {
    let mut c = ControlInputs::initial();
    c.apply_signals(&signals(false, true, false, false));
    assert_eq!(c, ControlInputs::initial());
}

#[test]
fn throttle_signal_drops_alpha_signal() {
    let mut c = ControlInputs::initial();
    c.apply_signals(&signals(true, false, true, false));
    assert_eq!(c.throttle_steps, 1);
    assert_eq!(c.alpha_deg, 0);
}

#[test]
fn alpha_signal_applies_when_throttle_is_full() {
    let mut c = ControlInputs::initial();
    c.throttle_steps = 20;
    c.apply_signals(&signals(true, false, true, false));
    assert_eq!(c.throttle_steps, 20);
    assert_eq!(c.alpha_deg, 1);
}

#[test]
fn alpha_stays_within_limits() {
    let mut c = ControlInputs::initial();
    for _ in 0..30 {
        c.apply_signals(&signals(false, false, true, false));
    }
    assert_eq!(c.alpha_deg, 20);
    for _ in 0..50 {
        c.apply_signals(&signals(false, false, false, true));
    }
    assert_eq!(c.alpha_deg, -16);
}

#[test]
fn key_chars_raise_one_signal_each() {
    assert_eq!(ControlSignals::from_key_char('t'), signals(true, false, false, false));
    assert_eq!(ControlSignals::from_key_char('g'), signals(false, true, false, false));
    assert_eq!(ControlSignals::from_key_char('y'), signals(false, false, true, false));
    assert_eq!(ControlSignals::from_key_char('h'), signals(false, false, false, true));
    assert_eq!(ControlSignals::from_key_char('x'), ControlSignals::none());
}

#[test]
fn flap_settings_and_lift_bonus() {
    assert_eq!(Flap::from_degrees(0), Some(Flap::Retracted));
    assert_eq!(Flap::from_degrees(20), Some(Flap::Twenty));
    assert_eq!(Flap::from_degrees(40), Some(Flap::Forty));
    assert_eq!(Flap::from_degrees(30), None);
    assert_eq!(Flap::Retracted.lift_bonus_quarters(), 0);
    assert_eq!(Flap::Twenty.lift_bonus_quarters(), 1);
    assert_eq!(Flap::Forty.lift_bonus_quarters(), 2);
    assert_eq!(Flap::Forty.degrees(), 40);
}

use microbit_tasks::display::{DisplayActuator, BLINK_X, BLINK_Y};
use microbit_tasks::indicator::{IndicatorSequencer, Transition};

#[test]
fn indicator_starts_dark_at_index_zero() {
    let s = IndicatorSequencer::new();
    assert_eq!(s.current_index(), 0);
    assert_eq!(s.levels(), [false, false, false]);
}

#[test]
fn indicator_cycles_zero_one_two() {
    let mut s = IndicatorSequencer::new();
    let mut seen = Vec::new();
    for _ in 0..7 {
        let t = s.step();
        seen.push(t.activate);
    }
    assert_eq!(seen, vec![0, 1, 2, 0, 1, 2, 0]);
    assert_eq!(s.current_index(), 1);
}

#[test]
fn indicator_transitions_turn_previous_off() {
    let mut s = IndicatorSequencer::new();
    assert_eq!(s.step(), Transition { deactivate: 2, activate: 0 });
    assert_eq!(s.step(), Transition { deactivate: 0, activate: 1 });
    assert_eq!(s.step(), Transition { deactivate: 1, activate: 2 });
    assert_eq!(s.step(), Transition { deactivate: 2, activate: 0 });
}

#[test]
fn indicator_exactly_one_active_between_transitions() {
    let mut s = IndicatorSequencer::new();
    let expected = [[true, false, false], [false, true, false], [false, false, true]];
    for k in 0..6 {
        s.step();
        assert_eq!(s.levels(), expected[k % 3]);
        assert_eq!(s.levels().iter().filter(|l| **l).count(), 1);
    }
}

#[test]
fn display_first_phase_is_on() {
    let mut d = DisplayActuator::new();
    assert!(d.shows_on_next());
    assert!(!d.pixel_lit());
    let frame = d.step();
    assert!(frame.is_set(BLINK_X, BLINK_Y));
    assert!(!frame.is_set(1, 0));
    assert!(!frame.is_set(0, 1));
    assert!(d.pixel_lit());
    assert!(!d.shows_on_next());
}

#[test]
fn display_alternates_on_off() {
    let mut d = DisplayActuator::new();
    let mut phases = Vec::new();
    for _ in 0..6 {
        let frame = d.step();
        phases.push(frame.is_set(0, 0));
    }
    assert_eq!(phases, vec![true, false, true, false, true, false]);
    assert!(!d.pixel_lit());
}

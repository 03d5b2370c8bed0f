use lvdt::button::{ButtonAction, ButtonFsm};

/// Drives the decoder through `(start_ms, end_ms, pressed)` intervals in
/// 5 ms polls and collects every action it returns.
fn drive(intervals: &[(u32, u32, bool)]) -> heapless::Vec<ButtonAction, 8> {
    const STEP_MS: u32 = 5;
    let mut fsm = ButtonFsm::new();
    let mut out = heapless::Vec::new();
    let total = intervals.last().map(|i| i.1).unwrap_or(0) + 2_000;
    let mut t = 0u32;
    while t <= total {
        let pressed = intervals
            .iter()
            .find(|(s, e, _)| t >= *s && t < *e)
            .map(|(_, _, p)| *p)
            .unwrap_or(false);
        if let Some(a) = fsm.step(t, pressed) {
            let _ = out.push(a);
        }
        t += STEP_MS;
    }
    out
}

#[test]
fn single_short_press() {
    let actions = drive(&[(100, 200, true)]);
    assert_eq!(&actions[..], &[ButtonAction::Short]);
}

#[test]
fn single_long_press() {
    let actions = drive(&[(100, 700, true)]);
    assert_eq!(&actions[..], &[ButtonAction::Long]);
}

#[test]
fn long_press_just_below_threshold_is_short() {
    let actions = drive(&[(100, 580, true)]);
    assert_eq!(&actions[..], &[ButtonAction::Short]);
}

#[test]
fn double_short_press() {
    let actions = drive(&[(100, 200, true), (350, 450, true)]);
    assert_eq!(&actions[..], &[ButtonAction::DoubleShort]);
}

#[test]
fn long_short_short() {
    let actions = drive(&[(100, 700, true), (850, 950, true), (1100, 1200, true)]);
    assert_eq!(&actions[..], &[ButtonAction::LongShortShort]);
}

#[test]
fn triple_short_is_unrecognized_and_consumed() {
    let actions = drive(&[
        (100, 200, true),
        (350, 450, true),
        (600, 700, true),
        (1500, 1600, true),
    ]);
    assert_eq!(&actions[..], &[ButtonAction::Short]);
}

#[test]
fn two_separate_short_presses_with_long_gap_are_two_actions() {
    let actions = drive(&[(100, 200, true), (1000, 1100, true)]);
    assert_eq!(&actions[..], &[ButtonAction::Short, ButtonAction::Short]);
}

#[test]
fn bounce_shorter_than_debounce_is_ignored() {
    let actions = drive(&[(100, 105, true)]);
    assert!(actions.is_empty());
}

#[test]
fn pattern_buffer_overflow_drops_silently() {
    let mut intervals: heapless::Vec<(u32, u32, bool), 8> = heapless::Vec::new();
    for i in 0..5 {
        let s = 100 + i as u32 * 250;
        let _ = intervals.push((s, s + 100, true));
    }
    let actions = drive(&intervals);
    assert!(actions.is_empty(), "got {:?}", actions);
}

#[test]
fn long_long_is_unrecognized() {
    let actions = drive(&[(100, 700, true), (850, 1450, true)]);
    assert!(actions.is_empty());
}

#[test]
fn long_short_is_unrecognized() {
    let actions = drive(&[(100, 700, true), (850, 950, true)]);
    assert!(actions.is_empty());
}

#[test]
fn raw_change_only_restarts_debounce() {
    let mut fsm = ButtonFsm::default();
    assert_eq!(fsm.step(100, true), None);
    // Still inside the debounce time: no press yet, so a release at once
    // and a long wait give nothing.
    assert_eq!(fsm.step(110, true), None);
    assert_eq!(fsm.step(112, false), None);
    assert_eq!(fsm.step(2_000, false), None);
    // A real press and release.
    assert_eq!(fsm.step(3_000, true), None);
    assert_eq!(fsm.step(3_020, true), None);
    assert_eq!(fsm.step(3_100, false), None);
    assert_eq!(fsm.step(3_120, false), None);
    assert_eq!(fsm.step(3_400, false), None);
    assert_eq!(fsm.step(3_470, false), Some(ButtonAction::Short));
}

#[test]
fn timer_wraparound_keeps_durations() {
    let mut fsm = ButtonFsm::new();
    let t0 = u32::MAX - 50;
    assert_eq!(fsm.step(t0, true), None);
    assert_eq!(fsm.step(t0.wrapping_add(20), true), None);
    assert_eq!(fsm.step(t0.wrapping_add(620), false), None);
    assert_eq!(fsm.step(t0.wrapping_add(640), false), None);
    assert_eq!(fsm.step(t0.wrapping_add(1_000), false), Some(ButtonAction::Long));
}

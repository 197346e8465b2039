use pizza_timer::keys::Key;
use pizza_timer::time::Instant;
use pizza_timer::views::setup::{Combo, SetupMessage, SetupView};
use pizza_timer::views::Screen;

fn at(millis: u64) -> Instant {
    Instant::from_millis(millis)
}

fn digit(digit: u8, millis: u64) -> SetupMessage {
    SetupMessage::Combo { digit, instant: at(millis) }
}

#[test]
fn default_is_five_minutes() {
    let view = SetupView::default();
    assert_eq!(view, SetupView { combo: None, minutes: 5, seconds: 0, finished: false });
    assert!(view.is_valid());
}

#[test]
fn okay_marks_finished_and_keeps_the_rest() {
    let view = SetupView { combo: None, minutes: 5, seconds: 0, finished: false };
    let next = view.update(SetupMessage::Okay);
    assert_eq!(next, SetupView { combo: None, minutes: 5, seconds: 0, finished: true });
}

#[test]
fn increment_then_decrement_restores_minutes() {
    for minutes in 0..=20u32 {
        let view = SetupView { combo: None, minutes, seconds: 15, finished: false };
        let back = view.update(SetupMessage::IncrementMinutes).update(SetupMessage::DecrementMinutes);
        assert_eq!(back.minutes, minutes);
        assert_eq!(back.seconds, 15);
    }
}

#[test]
fn decrement_then_increment_restores_minutes() {
    for minutes in 0..=20u32 {
        let view = SetupView { combo: None, minutes, seconds: 0, finished: false };
        let back = view.update(SetupMessage::DecrementMinutes).update(SetupMessage::IncrementMinutes);
        assert_eq!(back.minutes, minutes);
    }
}

#[test]
fn increment_wraps_after_twenty() {
    let view = SetupView { combo: None, minutes: 20, seconds: 0, finished: false };
    assert_eq!(view.update(SetupMessage::IncrementMinutes).minutes, 0);
    let view = SetupView { combo: None, minutes: 7, seconds: 0, finished: false };
    assert_eq!(view.update(SetupMessage::IncrementMinutes).minutes, 8);
}

#[test]
fn decrement_wraps_below_zero() {
    let view = SetupView { combo: None, minutes: 0, seconds: 0, finished: false };
    assert_eq!(view.update(SetupMessage::DecrementMinutes).minutes, 20);
    let view = SetupView { combo: None, minutes: 7, seconds: 0, finished: false };
    assert_eq!(view.update(SetupMessage::DecrementMinutes).minutes, 6);
}

#[test]
fn plus_and_minus_fold_typed_minutes_into_the_cycle() {
    let view = SetupView { combo: None, minutes: 25, seconds: 0, finished: false };
    assert_eq!(view.update(SetupMessage::IncrementMinutes).minutes, 5);
    assert_eq!(view.update(SetupMessage::DecrementMinutes).minutes, 3);
}

#[test]
fn switch_seconds_walks_the_ring() {
    let mut view = SetupView::default();
    let mut seen = Vec::new();
    for _ in 0..4 {
        view = view.update(SetupMessage::SwitchSeconds);
        seen.push(view.seconds);
    }
    assert_eq!(seen, vec![30, 15, 45, 0]);
}

#[test]
fn switch_seconds_four_times_closes_the_cycle() {
    for seconds in [0u32, 15, 30, 45] {
        let start = SetupView { combo: None, minutes: 3, seconds, finished: false };
        let mut view = start;
        for step in 1..=4 {
            view = view.update(SetupMessage::SwitchSeconds);
            assert_eq!(view.seconds == seconds, step == 4);
        }
        assert_eq!(view, start);
    }
}

#[test]
fn two_digits_within_the_window_make_one_number() {
    let view = SetupView::default();
    let first = view.update(digit(2, 10_000));
    assert_eq!(first.minutes, 2);
    assert_eq!(first.combo, Some(Combo { position: 1, instant_start: at(10_000) }));
    let second = first.update(digit(5, 10_600));
    assert_eq!(second.minutes, 25);
    assert_eq!(second.combo, None);
    assert!(second.is_valid());
}

#[test]
fn second_digit_after_the_window_starts_again() {
    let view = SetupView::default();
    let first = view.update(digit(2, 10_000));
    let second = first.update(digit(5, 11_001));
    assert_eq!(second.minutes, 5);
    assert_eq!(second.combo, Some(Combo { position: 1, instant_start: at(11_001) }));
}

#[test]
fn second_digit_at_the_end_of_the_window_still_joins() {
    let first = SetupView::default().update(digit(1, 10_000));
    let second = first.update(digit(0, 11_000));
    assert_eq!(second.minutes, 10);
    assert_eq!(second.combo, None);
}

#[test]
fn third_digit_opens_a_new_combo() {
    let view = SetupView::default().update(digit(9, 0)).update(digit(9, 1)).update(digit(4, 2));
    assert_eq!(view.minutes, 4);
    assert_eq!(view.combo, Some(Combo { position: 1, instant_start: at(2) }));
}

#[test]
fn other_keys_drop_the_open_combo() {
    let open = SetupView::default().update(digit(2, 500));
    for message in [
        SetupMessage::SwitchSeconds,
        SetupMessage::IncrementMinutes,
        SetupMessage::DecrementMinutes,
    ] {
        assert_eq!(open.update(message).combo, None);
    }
    assert_eq!(open.update(SetupMessage::Okay).combo, open.combo);
}

#[test]
fn validity_is_decided_at_run_time() {
    assert!(!SetupView { combo: None, minutes: 100, seconds: 0, finished: false }.is_valid());
    assert!(!SetupView { combo: None, minutes: 5, seconds: 7, finished: false }.is_valid());
    let open = Some(Combo { position: 1, instant_start: at(0) });
    assert!(!SetupView { combo: open, minutes: 10, seconds: 0, finished: false }.is_valid());
    assert!(SetupView { combo: open, minutes: 9, seconds: 45, finished: true }.is_valid());
    assert!(!digit(10, 0).is_valid());
    assert!(digit(9, 0).is_valid());
    assert!(SetupMessage::Okay.is_valid());
}

#[test]
fn keys_map_to_setup_messages() {
    let now = at(42);
    assert_eq!(SetupView::key_board_subscription(Key::Enter, now), Some(SetupMessage::Okay));
    assert_eq!(
        SetupView::key_board_subscription(Key::Character('-'), now),
        Some(SetupMessage::DecrementMinutes)
    );
    assert_eq!(
        SetupView::key_board_subscription(Key::Character('+'), now),
        Some(SetupMessage::IncrementMinutes)
    );
    assert_eq!(
        SetupView::key_board_subscription(Key::Character('.'), now),
        Some(SetupMessage::SwitchSeconds)
    );
    for (c, value) in ('0'..='9').zip(0u8..) {
        assert_eq!(
            SetupView::key_board_subscription(Key::Character(c), now),
            Some(SetupMessage::Combo { digit: value, instant: now })
        );
    }
    assert_eq!(SetupView::key_board_subscription(Key::Character('r'), now), None);
    assert_eq!(SetupView::key_board_subscription(Key::Character('/'), now), None);
    assert_eq!(SetupView::key_board_subscription(Key::Character(':'), now), None);
    assert_eq!(SetupView::key_board_subscription(Key::Unidentified, now), None);
}

#[test]
fn setup_screen_shows_what_is_set() {
    let view = SetupView { combo: None, minutes: 12, seconds: 45, finished: false };
    assert_eq!(view.view(), Screen::Time { minutes: 12, seconds: 45 });
}

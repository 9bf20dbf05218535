use rusty_autoclicker::{
    detect_edge, parse_i64_or_zero, parse_u64_or_zero, autoclick, sanitize_i64_string,
    sanitize_string, truncate_string, AppMode, ClickButton, ClickInfo, ClickPosition, ClickType,
    FieldTexts, HumanTiming, InputSnapshot, IntervalSpec, KeyCode, KeyEdge, MouseButton, RunState,
    RustyAutoClickerApp, Step,
};

const F6: KeyCode = 64;
const F7: KeyCode = 65;
const ESC: KeyCode = 1;

fn snap(keys: &[KeyCode]) -> InputSnapshot {
    InputSnapshot { keys: keys.to_vec(), mouse: (0, 0), left_button: false }
}

fn at(keys: &[KeyCode], x: i64, y: i64, left: bool) -> InputSnapshot {
    InputSnapshot { keys: keys.to_vec(), mouse: (x, y), left_button: left }
}

const LEFT: ClickButton = ClickButton::Mouse(MouseButton::Left);

/// A controller with F6 as toggle hotkey, F7 as confirm hotkey and the hotkey
/// window dismissed, all by ticks at time 0.
fn ready_app() -> RustyAutoClickerApp {
    let mut app = RustyAutoClickerApp::new(Some(ESC));
    app.begin_rebind_toggle_hotkey();
    app.tick(&snap(&[]), 0);
    app.tick(&snap(&[F6]), 0);
    assert_eq!(app.key_autoclick(), Some(F6));
    app.tick(&snap(&[]), 0);
    app.begin_rebind_coord_hotkey();
    app.tick(&snap(&[F7]), 0);
    assert_eq!(app.key_set_coord(), Some(F7));
    app.tick(&snap(&[]), 0);
    app.tick(&snap(&[ESC]), 0);
    app.tick(&snap(&[]), 0);
    assert!(!app.is_start_blocked());
    assert_eq!(app.run_state(), RunState::Idle);
    app
}

#[test]
fn interval_of_all_four_fields() {
    let spec = IntervalSpec { hr: 1, min: 2, sec: 3, ms: 4 };
    assert_eq!(spec.interval_ms(), 3_723_004);
    assert_eq!(spec.checked_interval_ms(), Some(3_723_004));
}

#[test]
fn interval_of_zero_fields() {
    let spec = IntervalSpec { hr: 0, min: 0, sec: 0, ms: 0 };
    assert_eq!(spec.interval_ms(), 0);
}

#[test]
fn interval_too_long_is_refused() {
    let spec = IntervalSpec { hr: u64::MAX, min: 0, sec: 0, ms: 0 };
    assert_eq!(spec.checked_interval_ms(), None);
}

#[test]
fn toggle_fires_once_per_press_and_release() {
    let snaps: Vec<Vec<KeyCode>> = vec![vec![], vec![F6], vec![F6], vec![], vec![]];
    let mut previous: Option<Vec<KeyCode>> = None;
    let mut releases = Vec::new();
    for (i, s) in snaps.iter().enumerate() {
        if detect_edge(&previous, s, Some(F6)) == KeyEdge::KeyJustReleased {
            releases.push(i);
        }
        previous = Some(s.clone());
    }
    assert_eq!(releases, vec![3]);
}

#[test]
fn edge_kinds() {
    assert_eq!(detect_edge(&None, &vec![F6], Some(F6)), KeyEdge::KeyHeld);
    assert_eq!(detect_edge(&None, &vec![], Some(F6)), KeyEdge::NoEvent);
    assert_eq!(detect_edge(&Some(vec![F6]), &vec![], None), KeyEdge::NoEvent);
    assert_eq!(detect_edge(&Some(vec![F7, F6]), &vec![F7], Some(F6)), KeyEdge::KeyJustReleased);
}

#[test]
fn toggle_hotkey_starts_and_stops() {
    let mut app = ready_app();
    app.tick(&snap(&[F6]), 10);
    assert_eq!(app.run_state(), RunState::Idle);
    let steps = app.tick(&snap(&[]), 10);
    assert_eq!(app.run_state(), RunState::Autoclicking);
    assert_eq!(steps, vec![Step::Press(LEFT), Step::Release(LEFT)]);
    assert_eq!(app.click_counter(), 1);
    app.tick(&snap(&[F6]), 20);
    app.tick(&snap(&[]), 30);
    assert_eq!(app.run_state(), RunState::Idle);
}

#[test]
fn budget_stops_after_three_fires() {
    let mut app = ready_app();
    app.set_click_amount(3);
    app.set_interval(IntervalSpec { hr: 0, min: 0, sec: 0, ms: 100 });
    app.start_autoclick(1000);
    let mut fires = 0;
    for i in 0..6u64 {
        let steps = app.tick(&snap(&[]), 1000 + 100 * i);
        if !steps.is_empty() {
            fires += 1;
        }
        if i == 2 {
            assert_eq!(app.run_state(), RunState::Idle);
            assert_eq!(app.click_counter(), 3);
        }
    }
    assert_eq!(fires, 3);
    assert_eq!(app.click_counter(), 3);
}

#[test]
fn slow_tick_fires_once() {
    let mut app = ready_app();
    app.set_interval(IntervalSpec { hr: 0, min: 0, sec: 0, ms: 100 });
    app.start_autoclick(0);
    assert_eq!(app.tick(&snap(&[]), 0).len(), 2);
    assert_eq!(app.click_counter(), 1);
    let steps = app.tick(&snap(&[]), 350);
    assert_eq!(steps, vec![Step::Press(LEFT), Step::Release(LEFT)]);
    assert_eq!(app.click_counter(), 2);
    assert!(app.tick(&snap(&[]), 449).is_empty());
    assert_eq!(app.tick(&snap(&[]), 450).len(), 2);
}

#[test]
fn first_fire_is_immediate() {
    let mut app = ready_app();
    app.set_interval(IntervalSpec { hr: 0, min: 0, sec: 5, ms: 0 });
    app.start_autoclick(7000);
    assert_eq!(app.click_counter(), 0);
    assert_eq!(app.tick(&snap(&[]), 7000).len(), 2);
    assert_eq!(app.click_counter(), 1);
    assert!(app.tick(&snap(&[]), 11999).is_empty());
}

#[test]
fn clock_going_back_never_fires_early() {
    let mut app = ready_app();
    app.set_interval(IntervalSpec { hr: 0, min: 0, sec: 1, ms: 0 });
    app.start_autoclick(5000);
    assert_eq!(app.tick(&snap(&[]), 5000).len(), 2);
    assert!(app.tick(&snap(&[]), 100).is_empty());
    assert_eq!(app.run_state(), RunState::Autoclicking);
}

#[test]
fn start_blocked_while_hotkeys_unbound() {
    let mut app = RustyAutoClickerApp::new(Some(ESC));
    assert!(app.is_start_blocked());
    app.start_autoclick(0);
    assert_eq!(app.run_state(), RunState::Idle);
    app.tick(&snap(&[ESC]), 0);
    app.tick(&snap(&[]), 0);
    assert!(app.is_start_blocked());
}

#[test]
fn coordinate_capture_follows_mouse() {
    let mut app = ready_app();
    app.enter_coordinate_setting();
    assert_eq!(app.run_state(), RunState::CapturingCoordinate);
    app.tick(&at(&[], 10, 20, false), 0);
    assert_eq!(app.click_coord(), (10, 20));
    app.tick(&at(&[], 10, 20, false), 0);
    app.tick(&at(&[], 10, 20, false), 0);
    assert_eq!(app.click_coord(), (10, 20));
    assert_eq!(app.run_state(), RunState::CapturingCoordinate);
    app.tick(&at(&[], 30, -40, true), 0);
    assert_eq!(app.run_state(), RunState::Idle);
    assert_eq!(app.click_coord(), (30, -40));
    assert_eq!(app.click_position(), ClickPosition::Coord);
}

#[test]
fn coordinate_capture_ends_on_confirm_release() {
    let mut app = ready_app();
    app.enter_coordinate_setting();
    app.tick(&at(&[F7], 5, 6, false), 0);
    assert_eq!(app.run_state(), RunState::CapturingCoordinate);
    app.tick(&at(&[], 7, 8, false), 0);
    assert_eq!(app.run_state(), RunState::Idle);
    assert_eq!(app.click_coord(), (7, 8));
}

#[test]
fn only_one_activity_at_a_time() {
    let mut app = ready_app();
    app.start_autoclick(0);
    app.enter_coordinate_setting();
    app.begin_rebind_toggle_hotkey();
    app.begin_rebind_coord_hotkey();
    assert_eq!(app.run_state(), RunState::Autoclicking);
    assert_eq!(app.key_autoclick(), Some(F6));
    app.stop_autoclick();
    app.enter_coordinate_setting();
    app.start_autoclick(0);
    app.begin_rebind_toggle_hotkey();
    assert_eq!(app.run_state(), RunState::CapturingCoordinate);
    app.exit_coordinate_setting();
    assert_eq!(app.run_state(), RunState::Idle);
}

#[test]
fn hotkey_capture_binds_fresh_press() {
    let mut app = ready_app();
    app.tick(&snap(&[5]), 0);
    app.begin_rebind_toggle_hotkey();
    assert_eq!(app.key_autoclick(), None);
    assert!(app.is_start_blocked());
    app.tick(&snap(&[5]), 0);
    assert_eq!(app.run_state(), RunState::CapturingAutoclickHotkey);
    app.tick(&snap(&[5, 9]), 0);
    assert_eq!(app.key_autoclick(), Some(9));
    assert_eq!(app.run_state(), RunState::Idle);
}

#[test]
fn bot_single_click_at_mouse() {
    let info = ClickInfo {
        click_btn: LEFT,
        click_coord: (5, 5),
        click_position: ClickPosition::Mouse,
        click_type: ClickType::Single,
    };
    let t = HumanTiming { gap_ms: 30, first_hold_ms: 20, second_hold_ms: 20 };
    assert_eq!(
        autoclick(AppMode::Bot, &info, (1, 1), 20, &t),
        vec![Step::Press(LEFT), Step::Release(LEFT)]
    );
}

#[test]
fn bot_double_click_at_coordinate() {
    let key = ClickButton::Key(57);
    let info = ClickInfo {
        click_btn: key,
        click_coord: (300, -2),
        click_position: ClickPosition::Coord,
        click_type: ClickType::Double,
    };
    let t = HumanTiming { gap_ms: 30, first_hold_ms: 20, second_hold_ms: 20 };
    let mv = Step::MoveTo { x: 300, y: -2 };
    assert_eq!(
        autoclick(AppMode::Bot, &info, (1, 1), 20, &t),
        vec![mv, Step::Press(key), Step::Release(key), mv, Step::Press(key), Step::Release(key)]
    );
}

#[test]
fn humanlike_glides_in_steps() {
    let info = ClickInfo {
        click_btn: LEFT,
        click_coord: (25, -5),
        click_position: ClickPosition::Coord,
        click_type: ClickType::Double,
    };
    let t = HumanTiming { gap_ms: 45, first_hold_ms: 21, second_hold_ms: 33 };
    assert_eq!(
        autoclick(AppMode::Humanlike, &info, (0, 0), 7, &t),
        vec![
            Step::MoveTo { x: 10, y: -5 },
            Step::Sleep(7),
            Step::MoveTo { x: 20, y: -5 },
            Step::Sleep(7),
            Step::MoveTo { x: 25, y: -5 },
            Step::Sleep(7),
            Step::Press(LEFT),
            Step::Sleep(21),
            Step::Release(LEFT),
            Step::Sleep(45),
            Step::Press(LEFT),
            Step::Sleep(33),
            Step::Release(LEFT),
        ]
    );
}

#[test]
fn humanlike_at_mouse_does_not_move() {
    let info = ClickInfo {
        click_btn: LEFT,
        click_coord: (25, -5),
        click_position: ClickPosition::Mouse,
        click_type: ClickType::Single,
    };
    let t = HumanTiming { gap_ms: 45, first_hold_ms: 21, second_hold_ms: 33 };
    assert_eq!(
        autoclick(AppMode::Humanlike, &info, (0, 0), 7, &t),
        vec![Step::Press(LEFT), Step::Sleep(21), Step::Release(LEFT)]
    );
}

#[test]
fn humanlike_tick_draws_durations_in_range() {
    let mut app = ready_app();
    app.set_app_mode(AppMode::Humanlike);
    app.set_click_type(ClickType::Double);
    for round in 0..20u64 {
        app.start_autoclick(round * 1000);
        let steps = app.tick(&snap(&[]), round * 1000);
        app.stop_autoclick();
        assert_eq!(steps.len(), 7);
        for (i, s) in steps.iter().enumerate() {
            if let Step::Sleep(ms) = s {
                if i == 3 {
                    assert!((30..60).contains(ms));
                } else {
                    assert!((20..40).contains(ms));
                }
            }
        }
    }
}

#[test]
fn numeric_field_sanitising() {
    let cases: Vec<(&str, usize, &str)> = vec![
        ("", 5, "0"),
        ("abc", 5, "0"),
        ("007", 5, "7"),
        ("000", 5, "0"),
        ("12345678", 5, "12345"),
        ("1a2b3c", 5, "123"),
        ("-42", 5, "42"),
        ("\u{661}\u{662}3", 5, "3"),
        ("\u{bd}9", 5, "9"),
        ("\u{bd}", 5, "0"),
        ("123", 0, ""),
    ];
    for (input, max, expected) in cases {
        let mut s = input.to_string();
        sanitize_string(&mut s, max);
        assert_eq!(s, expected, "input {:?}", input);
    }
}

#[test]
fn coordinate_field_sanitising() {
    let cases: Vec<(&str, usize, &str)> = vec![
        (" -42 ", 7, "-42"),
        ("abc", 7, "0"),
        ("", 7, "0"),
        ("-12345678", 7, "-123456"),
        ("+5", 7, "5"),
        ("-", 7, "0"),
        ("99999999999999999999", 7, "0"),
        ("\t17\n", 7, "17"),
    ];
    for (input, max, expected) in cases {
        let mut s = input.to_string();
        sanitize_i64_string(&mut s, max);
        assert_eq!(s, expected, "input {:?}", input);
    }
}

#[test]
fn parsing_never_fails() {
    assert_eq!(parse_u64_or_zero("123"), 123);
    assert_eq!(parse_u64_or_zero(""), 0);
    assert_eq!(parse_u64_or_zero("+7"), 7);
    assert_eq!(parse_u64_or_zero("18446744073709551615"), u64::MAX);
    assert_eq!(parse_u64_or_zero("18446744073709551616"), 0);
    assert_eq!(parse_u64_or_zero("1 2"), 0);
    assert_eq!(parse_i64_or_zero("-9223372036854775808"), i64::MIN);
    assert_eq!(parse_i64_or_zero("9223372036854775808"), 0);
    assert_eq!(parse_i64_or_zero("-17"), -17);
}

#[test]
fn truncation_counts_characters() {
    let mut s = "abcdef".to_string();
    truncate_string(&mut s, 4);
    assert_eq!(s, "abcd");
    let mut t = "ab".to_string();
    truncate_string(&mut t, 4);
    assert_eq!(t, "ab");
}

#[test]
fn fields_feed_the_controller() {
    let mut fields = FieldTexts::new();
    fields.hr_str = "1".to_string();
    fields.min_str = "x2".to_string();
    fields.sec_str = "003".to_string();
    fields.ms_str = "4".to_string();
    fields.click_amount_str = "12".to_string();
    fields.click_x_str = " -15 ".to_string();
    fields.movement_sec_str = "1".to_string();
    fields.movement_ms_str = "5".to_string();
    fields.sanitize();
    assert_eq!(fields.min_str, "2");
    assert_eq!(fields.sec_str, "3");
    assert_eq!(fields.click_x_str, "-15");
    let mut app = RustyAutoClickerApp::new(Some(ESC));
    assert!(fields.apply_to(&mut app));
    assert_eq!(app.interval().interval_ms(), 3_723_004);
    assert_eq!(app.click_amount(), 12);
    assert_eq!(app.movement_delay_ms(), 1005);
    assert_eq!(app.click_coord(), (-15, 0));
    fields.show_coord((-3, 44));
    assert_eq!(fields.click_x_str, "-3");
    assert_eq!(fields.click_y_str, "44");
}

#[test]
fn defaults() {
    let fields = FieldTexts::new();
    assert_eq!(fields.ms_str, "100");
    let app = RustyAutoClickerApp::new(None);
    assert_eq!(app.interval().interval_ms(), 100);
    assert_eq!(app.click_amount(), 0);
    assert_eq!(app.app_mode(), AppMode::Bot);
    assert_eq!(app.click_type(), ClickType::Single);
    assert_eq!(app.click_position(), ClickPosition::Mouse);
    assert_eq!(app.click_btn(), LEFT);
    assert_eq!(app.run_state(), RunState::Idle);
    assert_eq!(app.key_autoclick(), None);
}

#[test]
fn zero_interval_fires_on_every_tick() {
    let mut app = ready_app();
    app.set_interval(IntervalSpec { hr: 0, min: 0, sec: 0, ms: 0 });
    app.start_autoclick(40);
    for _ in 0..5 {
        assert_eq!(app.tick(&snap(&[]), 40).len(), 2);
    }
    assert_eq!(app.click_counter(), 5);
}

#[test]
fn zero_click_amount_never_stops() {
    let mut app = ready_app();
    app.set_interval(IntervalSpec { hr: 0, min: 0, sec: 0, ms: 10 });
    app.start_autoclick(0);
    for i in 0..50u64 {
        app.tick(&snap(&[]), 10 * i);
    }
    assert_eq!(app.click_counter(), 50);
    assert_eq!(app.run_state(), RunState::Autoclicking);
}

#[test]
fn sanitized_field_is_always_an_integer() {
    for input in ["", "abc", "   ", "0000", "x9y", "123456789", "-7", "\u{bd}\u{663}"] {
        let mut s = input.to_string();
        sanitize_string(&mut s, 5);
        assert!(!s.is_empty(), "input {:?}", input);
        assert!(s.len() <= 5);
        assert!(s.parse::<u64>().is_ok(), "input {:?} gave {:?}", input, s);
    }
}

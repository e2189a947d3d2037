use mousebridge::config::ScreenLayout;
use mousebridge::input::clamp_cursor_speed;
use mousebridge::input::diff_mouse_state;
use mousebridge::input::edge_transition;
use mousebridge::input::enable_mouse_acceleration;
use mousebridge::input::injection_steps;
use mousebridge::input::lock_cursor_to_screen;
use mousebridge::input::scale_delta;
use mousebridge::input::set_cursor_speed;
use mousebridge::input::unlock_cursor;
use mousebridge::input::InjectionStep;
use mousebridge::input::InputConfig;
use mousebridge::input::InputManager;
use mousebridge::input::MouseButton;
use mousebridge::input::MouseEvent;
use mousebridge::input::MouseSample;
use mousebridge::input::ScreenBounds;

fn sample(x: i32, y: i32, buttons: &[bool]) -> MouseSample {
    MouseSample { coords: (x, y), button_pressed: buttons.to_vec() }
}

fn moved(x: i32, y: i32) -> MouseEvent {
    MouseEvent { x, y, button: None, pressed: false, wheel_x: 0, wheel_y: 0 }
}

fn edge(x: i32, y: i32, button: &str, pressed: bool) -> MouseEvent {
    MouseEvent { x, y, button: Some(button.to_string()), pressed, wheel_x: 0, wheel_y: 0 }
}

fn full_hd() -> ScreenBounds {
    ScreenBounds { x: 0, y: 0, width: 1920, height: 1080, primary: true }
}

#[test]
fn no_change_yields_no_event() {
    let last = sample(10, 20, &[false, true, false]);
    let current = sample(10, 20, &[false, true, false]);
    assert_eq!(diff_mouse_state(&current, &last), Vec::<MouseEvent>::new());
}

#[test]
fn a_move_yields_one_move_event() {
    let last = sample(10, 20, &[false, false, false]);
    let current = sample(11, 20, &[false, false, false]);
    assert_eq!(diff_mouse_state(&current, &last), vec![moved(11, 20)]);
}

#[test]
fn each_flipped_button_yields_one_edge() {
    let last = sample(5, 6, &[false, true, false]);
    let current = sample(5, 6, &[true, false, false]);
    assert_eq!(
        diff_mouse_state(&current, &last),
        vec![edge(5, 6, "left", true), edge(5, 6, "right", false)]
    );
}

#[test]
fn move_comes_before_edges_and_edges_in_button_order() {
    let last = sample(0, 0, &[false, false, false]);
    let current = sample(3, 4, &[true, true, true]);
    assert_eq!(
        diff_mouse_state(&current, &last),
        vec![
            moved(3, 4),
            edge(3, 4, "left", true),
            edge(3, 4, "right", true),
            edge(3, 4, "middle", true),
        ]
    );
}

#[test]
fn positions_past_the_middle_button_are_dropped() {
    let last = sample(0, 0, &[false, false, false, false, false]);
    let current = sample(0, 0, &[false, false, false, true, true]);
    assert_eq!(diff_mouse_state(&current, &last), Vec::<MouseEvent>::new());
}

#[test]
fn a_position_that_the_last_reading_lacks_counts_as_released() {
    let last = sample(0, 0, &[]);
    let current = sample(0, 0, &[false, true]);
    assert_eq!(diff_mouse_state(&current, &last), vec![edge(0, 0, "right", true)]);
    let current = sample(0, 0, &[false, false, false]);
    assert_eq!(diff_mouse_state(&current, &last), Vec::<MouseEvent>::new());
}

#[test]
fn a_position_that_the_current_reading_lacks_yields_nothing() {
    let last = sample(0, 0, &[true, true, true]);
    let current = sample(0, 0, &[true]);
    assert_eq!(diff_mouse_state(&current, &last), Vec::<MouseEvent>::new());
}

#[test]
fn capture_remembers_the_reading() {
    let mut manager = InputManager::new();
    let first = manager.capture_mouse_events(sample(7, 8, &[true, false, false]));
    assert_eq!(first, vec![moved(7, 8), edge(7, 8, "left", true)]);
    assert_eq!(manager.last_mouse_state, sample(7, 8, &[true, false, false]));
    // The same reading again: nothing has changed.
    let second = manager.capture_mouse_events(sample(7, 8, &[true, false, false]));
    assert_eq!(second, Vec::<MouseEvent>::new());
    let third = manager.capture_mouse_events(sample(7, 8, &[false, false, false]));
    assert_eq!(third, vec![edge(7, 8, "left", false)]);
}

#[test]
fn replay_moves_then_presses_then_scrolls() {
    let event = MouseEvent {
        x: 100,
        y: 200,
        button: Some("left".to_string()),
        pressed: true,
        wheel_x: 3,
        wheel_y: -2,
    };
    assert_eq!(
        injection_steps(&event),
        vec![
            InjectionStep::MoveTo { x: 100, y: 200 },
            InjectionStep::ButtonDown(MouseButton::Left),
            InjectionStep::ScrollX(3),
            InjectionStep::ScrollY(-2),
        ]
    );
}

#[test]
fn replay_of_a_release() {
    let event = edge(1, 2, "middle", false);
    assert_eq!(
        injection_steps(&event),
        vec![InjectionStep::MoveTo { x: 1, y: 2 }, InjectionStep::ButtonUp(MouseButton::Middle)]
    );
    let event = edge(1, 2, "right", true);
    assert_eq!(
        injection_steps(&event),
        vec![InjectionStep::MoveTo { x: 1, y: 2 }, InjectionStep::ButtonDown(MouseButton::Right)]
    );
}

#[test]
fn replay_of_a_plain_move() {
    assert_eq!(injection_steps(&moved(-5, 9)), vec![InjectionStep::MoveTo { x: -5, y: 9 }]);
}

#[test]
fn replay_of_a_wheel_tick() {
    let event =
        MouseEvent { x: 0, y: 0, button: None, pressed: false, wheel_x: 0, wheel_y: 1 };
    assert_eq!(
        injection_steps(&event),
        vec![InjectionStep::MoveTo { x: 0, y: 0 }, InjectionStep::ScrollY(1)]
    );
    let event =
        MouseEvent { x: 0, y: 0, button: None, pressed: false, wheel_x: -4, wheel_y: 0 };
    assert_eq!(
        injection_steps(&event),
        vec![InjectionStep::MoveTo { x: 0, y: 0 }, InjectionStep::ScrollX(-4)]
    );
}

#[test]
fn an_unknown_button_is_replayed_as_the_move_alone() {
    let event = MouseEvent {
        x: 4,
        y: 5,
        button: Some("thumb".to_string()),
        pressed: true,
        wheel_x: 1,
        wheel_y: 1,
    };
    assert_eq!(injection_steps(&event), vec![InjectionStep::MoveTo { x: 4, y: 5 }]);
}

#[test]
fn the_manager_replays_as_the_plan_says() {
    let manager = InputManager::new();
    let event = edge(9, 9, "left", true);
    assert_eq!(manager.emulate_mouse_event(event.clone()), injection_steps(&event));
    assert_eq!(manager.set_mouse_position(3, -3), InjectionStep::MoveTo { x: 3, y: -3 });
    assert_eq!(manager.get_screen_bounds(), vec![full_hd()]);
}

#[test]
fn button_names_and_positions() {
    assert_eq!(MouseButton::from_index(0), Some(MouseButton::Left));
    assert_eq!(MouseButton::from_index(1), Some(MouseButton::Right));
    assert_eq!(MouseButton::from_index(2), Some(MouseButton::Middle));
    assert_eq!(MouseButton::from_index(3), None);
    for button in [MouseButton::Left, MouseButton::Right, MouseButton::Middle] {
        assert_eq!(MouseButton::from_name(&button.name()), Some(button));
    }
    assert_eq!(MouseButton::from_name(&"Left".to_string()), None);
    assert_eq!(MouseButton::from_name(&String::new()), None);
}

#[test]
fn cursor_speed_is_clamped() {
    // Ten times the device's speed becomes five times, a negative speed a tenth.
    assert_eq!(clamp_cursor_speed(10_000), 5000);
    assert_eq!(clamp_cursor_speed(-1000), 100);
    assert_eq!(clamp_cursor_speed(100), 100);
    assert_eq!(clamp_cursor_speed(99), 100);
    assert_eq!(clamp_cursor_speed(5000), 5000);
    assert_eq!(clamp_cursor_speed(5001), 5000);
    assert_eq!(clamp_cursor_speed(1500), 1500);
    assert_eq!(clamp_cursor_speed(i64::MAX), 5000);
    assert_eq!(clamp_cursor_speed(i64::MIN), 100);
}

#[test]
fn the_speed_setter_clamps() {
    let mut manager = InputManager::new();
    assert_eq!(manager.config, InputConfig::initial());
    assert_eq!(manager.config.cursor_speed, 1000);
    set_cursor_speed(&mut manager, 10_000);
    assert_eq!(manager.config.cursor_speed, 5000);
    set_cursor_speed(&mut manager, -1000);
    assert_eq!(manager.config.cursor_speed, 100);
    set_cursor_speed(&mut manager, 2500);
    assert_eq!(manager.config.cursor_speed, 2500);
}

#[test]
fn deltas_are_scaled_towards_zero() {
    assert_eq!(scale_delta(10, 1000), 10);
    assert_eq!(scale_delta(10, 1500), 15);
    assert_eq!(scale_delta(3, 500), 1);
    assert_eq!(scale_delta(-3, 500), -1);
    assert_eq!(scale_delta(-10, 2000), -20);
    assert_eq!(scale_delta(0, 5000), 0);
    // The speed is clamped before it is applied.
    assert_eq!(scale_delta(10, 0), 1);
    assert_eq!(scale_delta(10, 50_000), 50);
    // Results past the range of a coordinate stop at its end.
    assert_eq!(scale_delta(i32::MAX, 5000), i32::MAX);
    assert_eq!(scale_delta(i32::MIN, 5000), i32::MIN);
    assert_eq!(scale_delta(i32::MIN, 1000), i32::MIN);
    assert_eq!(scale_delta(i32::MAX, 1000), i32::MAX);
}

#[test]
fn cursor_lock_and_acceleration() {
    let mut manager = InputManager::new();
    lock_cursor_to_screen(&mut manager, 2);
    assert!(manager.config.cursor_locked);
    assert_eq!(manager.config.locked_screen, Some(2));
    unlock_cursor(&mut manager);
    assert!(!manager.config.cursor_locked);
    assert_eq!(manager.config.locked_screen, None);
    enable_mouse_acceleration(&mut manager, true);
    assert!(manager.config.mouse_acceleration);
    enable_mouse_acceleration(&mut manager, false);
    assert_eq!(manager.config, InputConfig::initial());
}

#[test]
fn cursor_in_the_margin_hands_over() {
    // 1915 - 1920 = -5: not yet across, so the pointer arrives at the edge.
    let arrival = edge_transition(ScreenLayout::Horizontal, &full_hd(), 10, 1915, 300);
    assert_eq!(arrival, Some((0, 300)));
}

#[test]
fn cursor_outside_the_margin_stays() {
    assert_eq!(edge_transition(ScreenLayout::Horizontal, &full_hd(), 10, 1900, 300), None);
}

#[test]
fn the_margin_is_the_last_pixels_of_the_screen() {
    assert_eq!(edge_transition(ScreenLayout::Horizontal, &full_hd(), 10, 1909, 0), None);
    assert_eq!(edge_transition(ScreenLayout::Horizontal, &full_hd(), 10, 1910, 0), Some((0, 0)));
    assert_eq!(edge_transition(ScreenLayout::Horizontal, &full_hd(), 10, 1920, 0), Some((0, 0)));
    assert_eq!(edge_transition(ScreenLayout::Horizontal, &full_hd(), 10, 1927, 0), Some((7, 0)));
    assert_eq!(edge_transition(ScreenLayout::Horizontal, &full_hd(), 0, 1919, 0), None);
    assert_eq!(edge_transition(ScreenLayout::Horizontal, &full_hd(), 0, 1920, 0), Some((0, 0)));
}

#[test]
fn a_vertical_layout_hands_over_at_the_bottom() {
    assert_eq!(edge_transition(ScreenLayout::Vertical, &full_hd(), 10, 1915, 300), None);
    assert_eq!(edge_transition(ScreenLayout::Vertical, &full_hd(), 10, 40, 1075), Some((40, 0)));
    assert_eq!(edge_transition(ScreenLayout::Vertical, &full_hd(), 10, 40, 1090), Some((40, 10)));
    assert_eq!(edge_transition(ScreenLayout::Vertical, &full_hd(), 10, 40, 1069), None);
}

#[test]
fn a_custom_layout_never_hands_over() {
    assert_eq!(edge_transition(ScreenLayout::Custom, &full_hd(), 10, 1919, 1079), None);
    assert_eq!(edge_transition(ScreenLayout::Custom, &full_hd(), 10, 5000, 5000), None);
}

#[test]
fn the_edge_follows_the_screen_origin() {
    let screen = ScreenBounds { x: -1920, y: 100, width: 1920, height: 1080, primary: false };
    assert_eq!(edge_transition(ScreenLayout::Horizontal, &screen, 10, -11, 0), None);
    assert_eq!(edge_transition(ScreenLayout::Horizontal, &screen, 10, -10, 0), Some((0, 0)));
    assert_eq!(edge_transition(ScreenLayout::Horizontal, &screen, 10, 5, 0), Some((5, 0)));
    assert_eq!(edge_transition(ScreenLayout::Vertical, &screen, 10, 0, 1170), Some((0, 0)));
    assert_eq!(edge_transition(ScreenLayout::Vertical, &screen, 10, 0, 1169), None);
}

#[test]
fn edge_transition_at_the_limits_of_the_numbers() {
    let screen =
        ScreenBounds { x: i32::MAX, y: i32::MAX, width: u32::MAX, height: u32::MAX, primary: true };
    assert_eq!(edge_transition(ScreenLayout::Horizontal, &screen, 0, i32::MAX, 0), None);
    assert_eq!(
        edge_transition(ScreenLayout::Horizontal, &screen, u32::MAX, i32::MAX, 0),
        Some((0, 0))
    );
    let screen = ScreenBounds { x: i32::MIN, y: i32::MIN, width: 0, height: 0, primary: true };
    assert_eq!(
        edge_transition(ScreenLayout::Horizontal, &screen, 0, i32::MAX, 1),
        Some((i32::MAX, 1))
    );
    assert_eq!(
        edge_transition(ScreenLayout::Vertical, &screen, 0, 1, i32::MAX),
        Some((1, i32::MAX))
    );
}

use gamepad_mouse_control::analog::{
    boost_tick, move_action, pointer_axes, scroll_action, scroll_axis, scroll_tick, Axis,
    ScrollState, MAX_ROUNDED_STRENGTH, MAX_SCROLL_AMOUNT,
};
use gamepad_mouse_control::button::{
    button_from_name, button_matches, button_to_string, is_held, same_text, Button,
};
use gamepad_mouse_control::config::{
    config_path, Config, SaveFailure, DEFAULT_DEAD_ZONE_BITS, DEFAULT_MOUSE_ACCELERATION_BITS,
    DEFAULT_MOUSE_SENSITIVITY_BITS, DEFAULT_SCROLL_SENSITIVITY_BITS,
};
use gamepad_mouse_control::controller::GamepadController;
use gamepad_mouse_control::device::{DeviceEntry, DeviceEvent, DeviceScan, EventKind};
use gamepad_mouse_control::logging::{
    enabled, format_record, initialize_enhanced_logging, install_outcome, level_label, log_file_name, needs_rotation, resolve_level, Level, LevelFilter,
    DEFAULT_MAX_FILE_SIZE,
};
use gamepad_mouse_control::pointer::{MouseButton, PointerAction};
use gamepad_mouse_control::startup::{start_selected_controller, StartStatus, StatusColor};
use gamepad_mouse_control::text::{decimal_text, join};

const ALL_BUTTONS: [Button; 20] = [
    Button::South,
    Button::East,
    Button::North,
    Button::West,
    Button::C,
    Button::Z,
    Button::LeftTrigger,
    Button::LeftTrigger2,
    Button::RightTrigger,
    Button::RightTrigger2,
    Button::Select,
    Button::Start,
    Button::Mode,
    Button::LeftThumb,
    Button::RightThumb,
    Button::DPadUp,
    Button::DPadDown,
    Button::DPadLeft,
    Button::DPadRight,
    Button::Unknown,
];

#[test]
fn default_config_values() {
    let config = Config::default();
    assert_eq!(f32::from_bits(config.mouse_sensitivity), 60.0);
    assert_eq!(f32::from_bits(config.dead_zone), 0.03);
    assert_eq!(f32::from_bits(config.scroll_sensitivity), 3.0);
    assert_eq!(f32::from_bits(config.mouse_acceleration), 1.4);
    assert_eq!(DEFAULT_MOUSE_SENSITIVITY_BITS, 60.0f32.to_bits());
    assert_eq!(DEFAULT_DEAD_ZONE_BITS, 0.03f32.to_bits());
    assert_eq!(DEFAULT_SCROLL_SENSITIVITY_BITS, 3.0f32.to_bits());
    assert_eq!(DEFAULT_MOUSE_ACCELERATION_BITS, 1.4f32.to_bits());
    assert_eq!(config.left_click_button, "South");
    assert_eq!(config.right_click_button, "East");
    assert_eq!(config.middle_click_button, "West");
    assert_eq!(config.double_click_button, "North");
    assert!(!config.invert_x_axis);
    assert!(!config.invert_y_axis);
    assert!(config.use_left_stick_for_mouse);
    assert_eq!(config.precision_mode_button, "LeftTrigger2");
    assert_eq!(config.turbo_mode_button, "RightTrigger2");
    assert!(!config.start_minimized);
    assert!(!config.start_with_system);
    assert!(config.show_notification);
}

#[test]
fn config_clone_keeps_every_setting() {
    let mut config = Config::default();
    config.mouse_sensitivity = 80.0f32.to_bits();
    config.left_click_button = "Start".to_string();
    config.invert_y_axis = true;
    let copy = config.clone();
    assert_eq!(copy, config);
    assert_ne!(copy, Config::default());
}

#[test]
fn load_uses_stored_settings_or_defaults() {
    let mut stored = Config::default();
    stored.turbo_mode_button = "Z".to_string();
    stored.dead_zone = 0.1f32.to_bits();
    let loaded = Config::load(Some(stored.clone()));
    assert_eq!(loaded, stored);
    assert_eq!(Config::load(None), Config::default());
}

#[test]
fn config_path_is_below_the_base_directory() {
    assert_eq!(config_path("/home/u/.config"), "/home/u/.config/gamepad-mouse-control/config.json");
    assert_eq!(config_path(""), "/gamepad-mouse-control/config.json");
}

#[test]
fn save_failures_name_the_failed_step() {
    assert_eq!(
        SaveFailure::CreateDirectory("denied".to_string()).message(),
        "无法创建配置目录: denied"
    );
    assert_eq!(
        SaveFailure::WriteFile("disk full".to_string()).message(),
        "无法写入配置文件: disk full"
    );
    assert_eq!(SaveFailure::Serialize("bad".to_string()).message(), "配置序列化失败: bad");
    assert_eq!(SaveFailure::WriteFile(String::new()).message(), "无法写入配置文件: ");
}

#[test]
fn platform_config_path_ends_in_the_settings_file() {
    if let Some(path) = Config::get_config_path() {
        assert!(path.ends_with("/gamepad-mouse-control/config.json"));
        let base = &path[..path.len() - "/gamepad-mouse-control/config.json".len()];
        assert_eq!(config_path(base), path);
    }
}

#[test]
fn update_config_replaces_settings_and_resets_scroll() {
    let mut controller = GamepadController::new(1, Config::default(), 0);
    controller.set_scroll_state(ScrollState {
        accum: 0.75f32.to_bits(),
        momentum: 0.2f32.to_bits(),
        timer: 0.01f32.to_bits(),
        last_time: Some(40),
    });
    assert_eq!(f32::from_bits(controller.scroll_state().accum), 0.75);
    controller.handle_event(
        DeviceEvent { id: 1, kind: EventKind::ButtonPressed(Button::South) },
        50,
    );
    let mut config = Config::default();
    config.scroll_sensitivity = 9.0f32.to_bits();
    config.left_click_button = "Start".to_string();
    controller.update_config(config.clone());
    assert_eq!(*controller.config(), config);
    let scroll = controller.scroll_state();
    assert_eq!(scroll, ScrollState { accum: 0, momentum: 0, timer: 0, last_time: None });
    assert_eq!(f32::from_bits(scroll.accum), 0.0);
    assert_eq!(f32::from_bits(scroll.momentum), 0.0);
    assert_eq!(f32::from_bits(scroll.timer), 0.0);
    assert!(controller.buttons().left);
    assert!(controller.is_running());
    assert!(controller.is_connected());
    let actions = controller.handle_event(
        DeviceEvent { id: 1, kind: EventKind::ButtonPressed(Button::Start) },
        60,
    );
    assert_eq!(actions, vec![PointerAction::ButtonDown(MouseButton::Left)]);
    let actions = controller.handle_event(
        DeviceEvent { id: 1, kind: EventKind::ButtonReleased(Button::South) },
        70,
    );
    assert!(actions.is_empty());
}

#[test]
fn scroll_state_new_and_reset() {
    let fresh = ScrollState::new();
    assert_eq!(fresh, ScrollState { accum: 0, momentum: 0, timer: 0, last_time: None });
    let mut state = ScrollState { accum: 5, momentum: 6, timer: 7, last_time: Some(8) };
    state.reset();
    assert_eq!(state, fresh);
}

#[test]
fn button_names_round_trip() {
    for button in ALL_BUTTONS {
        let name = button_to_string(button);
        if button == Button::Unknown {
            assert_eq!(name, "Unknown");
            assert_eq!(button_from_name(&name), None);
        } else {
            assert_eq!(button_from_name(&name), Some(button));
        }
    }
}

#[test]
fn button_names_are_the_stable_symbols() {
    let names: Vec<String> = ALL_BUTTONS.iter().map(|b| button_to_string(*b)).collect();
    assert_eq!(
        names,
        vec![
            "South",
            "East",
            "North",
            "West",
            "C",
            "Z",
            "LeftTrigger",
            "LeftTrigger2",
            "RightTrigger",
            "RightTrigger2",
            "Select",
            "Start",
            "Mode",
            "LeftThumb",
            "RightThumb",
            "DPadUp",
            "DPadDown",
            "DPadLeft",
            "DPadRight",
            "Unknown",
        ]
    );
}

#[test]
fn unknown_names_denote_no_button() {
    assert_eq!(button_from_name(""), None);
    assert_eq!(button_from_name("south"), None);
    assert_eq!(button_from_name("South "), None);
    assert_eq!(button_from_name("LeftTrigger3"), None);
    assert_eq!(button_from_name("Unknown"), None);
}

#[test]
fn button_matches_reads_the_held_buttons() {
    let held = vec![Button::LeftTrigger2, Button::South];
    assert!(button_matches(&held, "LeftTrigger2"));
    assert!(button_matches(&held, "South"));
    assert!(!button_matches(&held, "RightTrigger2"));
    assert!(!button_matches(&held, "LeftTrigger"));
    assert!(!button_matches(&held, "nothing"));
    assert!(!button_matches(&Vec::new(), "South"));
    assert!(!button_matches(&vec![Button::Unknown], "Unknown"));
    assert!(is_held(&held, Button::South));
    assert!(!is_held(&held, Button::East));
}

#[test]
fn same_text_compares_characters() {
    assert!(same_text("Mode", "Mode"));
    assert!(!same_text("Mode", "Mod"));
    assert!(!same_text("Mode", "mode"));
    assert!(same_text("", ""));
    assert!(same_text("手柄", "手柄"));
}

#[test]
fn sticks_are_assigned_by_the_setting() {
    assert_eq!(pointer_axes(true), (Axis::LeftStickX, Axis::LeftStickY));
    assert_eq!(pointer_axes(false), (Axis::RightStickX, Axis::RightStickY));
    assert_eq!(scroll_axis(true), Axis::RightStickY);
    assert_eq!(scroll_axis(false), Axis::LeftStickY);
}

#[test]
fn move_is_issued_only_for_a_nonzero_delta() {
    assert_eq!(move_action(0, 0), None);
    assert_eq!(move_action(3, 0), Some(PointerAction::MoveRelative { dx: 3, dy: 0 }));
    assert_eq!(move_action(0, -2), Some(PointerAction::MoveRelative { dx: 0, dy: -2 }));
    assert_eq!(
        move_action(i32::MIN, i32::MAX),
        Some(PointerAction::MoveRelative { dx: i32::MIN, dy: i32::MAX })
    );
}

#[test]
fn scroll_tick_is_at_least_one_notch_in_its_direction() {
    assert_eq!(MAX_ROUNDED_STRENGTH, 3);
    assert_eq!(scroll_tick(0, true), 1);
    assert_eq!(scroll_tick(0, false), -1);
    assert_eq!(scroll_tick(1, true), 1);
    assert_eq!(scroll_tick(1, false), -1);
    assert_eq!(scroll_tick(2, true), 2);
    assert_eq!(scroll_tick(3, false), -3);
}

#[test]
fn strong_deflection_doubles_the_tick() {
    assert_eq!(MAX_SCROLL_AMOUNT, 6);
    assert_eq!(boost_tick(1, true), 2);
    assert_eq!(boost_tick(-3, true), -6);
    assert_eq!(boost_tick(2, false), 2);
    assert_eq!(boost_tick(0, true), 0);
}

#[test]
fn scroll_call_negates_the_amount() {
    assert_eq!(scroll_action(0), None);
    assert_eq!(scroll_action(2), Some(PointerAction::ScrollVertical(-2)));
    assert_eq!(scroll_action(-6), Some(PointerAction::ScrollVertical(6)));
    assert_eq!(
        scroll_action(boost_tick(scroll_tick(3, true), true)),
        Some(PointerAction::ScrollVertical(-6))
    );
}

#[test]
fn decimal_text_writes_numerals() {
    assert_eq!(decimal_text(0), "0");
    assert_eq!(decimal_text(7), "7");
    assert_eq!(decimal_text(10), "10");
    assert_eq!(decimal_text(1_700_000_123), "1700000123");
    assert_eq!(decimal_text(u64::MAX), "18446744073709551615");
    assert_eq!(join("ab", "cd"), "abcd");
}

#[test]
fn log_levels_pass_the_filter_by_severity() {
    assert!(enabled(Level::Error, LevelFilter::Info));
    assert!(enabled(Level::Info, LevelFilter::Info));
    assert!(!enabled(Level::Debug, LevelFilter::Info));
    assert!(!enabled(Level::Error, LevelFilter::Off));
    assert!(enabled(Level::Trace, LevelFilter::Trace));
    assert!(!enabled(Level::Trace, LevelFilter::Debug));
    assert!(enabled(Level::Warn, LevelFilter::Warn));
    assert!(!enabled(Level::Warn, LevelFilter::Error));
}

#[test]
fn log_level_defaults_to_info() {
    assert_eq!(resolve_level(None), LevelFilter::Info);
    assert_eq!(resolve_level(Some(LevelFilter::Trace)), LevelFilter::Trace);
    assert_eq!(resolve_level(Some(LevelFilter::Off)), LevelFilter::Off);
}

#[test]
fn log_files_rotate_above_the_limit() {
    assert_eq!(DEFAULT_MAX_FILE_SIZE, 5_242_880);
    assert!(!needs_rotation(0, DEFAULT_MAX_FILE_SIZE));
    assert!(!needs_rotation(5_242_880, DEFAULT_MAX_FILE_SIZE));
    assert!(needs_rotation(5_242_881, DEFAULT_MAX_FILE_SIZE));
    assert!(needs_rotation(1, 0));
}

#[test]
fn log_file_name_carries_the_timestamp() {
    assert_eq!(log_file_name(1_700_000_000), "gamepad-mouse-control-1700000000.log");
    assert_eq!(log_file_name(0), "gamepad-mouse-control-0.log");
}

#[test]
fn log_records_are_written_in_one_line() {
    assert_eq!(level_label(Level::Error), "ERROR");
    assert_eq!(level_label(Level::Warn), "WARN ");
    assert_eq!(level_label(Level::Info), "INFO ");
    assert_eq!(level_label(Level::Debug), "DEBUG");
    assert_eq!(level_label(Level::Trace), "TRACE");
    assert_eq!(
        format_record(
            "2024-01-02 03:04:05.678",
            Level::Warn,
            Some("src/main.rs"),
            Some(42),
            "stick lost"
        ),
        "[2024-01-02 03:04:05.678] WARN  [src/main.rs:42] stick lost\n"
    );
    assert_eq!(format_record("t", Level::Error, None, None, ""), "[t] ERROR [unknown:0] \n");
}

#[test]
fn install_outcome_names_the_refusal() {
    assert_eq!(install_outcome(Ok(())), Ok(()));
    assert_eq!(
        install_outcome(Err("already set".to_string())),
        Err("无法初始化日志系统: already set".to_string())
    );
    assert_eq!(install_outcome(Err(String::new())), Err("无法初始化日志系统: ".to_string()));
}

#[test]
fn enhanced_logging_without_a_file_reports_the_reason() {
    assert_eq!(
        initialize_enhanced_logging(None, Err("denied".to_string())),
        Err("无法创建日志文件: denied".to_string())
    );
    assert_eq!(
        initialize_enhanced_logging(Some(LevelFilter::Trace), Err(String::new())),
        Err("无法创建日志文件: ".to_string())
    );
}

#[test]
fn start_needs_selection_device_system_and_connected_device() {
    let present = DeviceScan::Devices(vec![
        DeviceEntry { id: 1, connected: false },
        DeviceEntry { id: 2, connected: true },
    ]);
    let outcome = start_selected_controller(None, &present, Config::default(), 10);
    assert_eq!(outcome.status, StartStatus::NoSelection);
    assert!(outcome.controller.is_none());

    let outcome =
        start_selected_controller(Some(2), &DeviceScan::Unavailable, Config::default(), 10);
    assert_eq!(outcome.status, StartStatus::DeviceSystemUnavailable);
    assert!(outcome.controller.is_none());

    let outcome = start_selected_controller(Some(1), &present, Config::default(), 10);
    assert_eq!(outcome.status, StartStatus::Disconnected);
    assert!(outcome.controller.is_none());

    let outcome = start_selected_controller(Some(3), &present, Config::default(), 10);
    assert_eq!(outcome.status, StartStatus::Disconnected);
    assert!(outcome.controller.is_none());

    let outcome = start_selected_controller(Some(2), &present, Config::default(), 10);
    assert_eq!(outcome.status, StartStatus::Running);
    let controller = outcome.controller.unwrap();
    assert!(controller.is_running());
    assert!(controller.is_connected());
    assert_eq!(controller.gamepad_id(), 2);
    assert_eq!(controller.get_last_activity(), Some(10));
    assert_eq!(*controller.config(), Config::default());
}

#[test]
fn start_status_lines() {
    assert_eq!(StartStatus::Running.message("x"), "已连接，控制器运行中");
    assert_eq!(StartStatus::NotRunning.message("x"), "控制器初始化失败，未能启动");
    assert_eq!(StartStatus::InitializationFailed.message("x"), "控制器初始化失败");
    assert_eq!(StartStatus::Disconnected.message("Pad One"), "手柄已断开连接: Pad One");
    assert_eq!(
        StartStatus::DeviceSystemUnavailable.message("no backend"),
        "无法初始化手柄系统: no backend"
    );
    assert_eq!(StartStatus::NoSelection.message("x"), "未选择手柄");
    assert_eq!(StartStatus::Running.color(), StatusColor::Green);
    assert_eq!(StartStatus::Disconnected.color(), StatusColor::Red);
    assert_eq!(StartStatus::NoSelection.color(), StatusColor::Red);
    assert_eq!(StartStatus::InitializationFailed.color(), StatusColor::Red);
    assert_eq!(StartStatus::Running.active(), Some(true));
    assert_eq!(StartStatus::NoSelection.active(), None);
    assert_eq!(StartStatus::NotRunning.active(), Some(false));
    assert_eq!(StartStatus::DeviceSystemUnavailable.active(), Some(false));
}

use windows_clicker::config::{
    interval_from_clicks_per_second, parse_virtual_key, validate_interval_ms, ClickerConfig,
    MouseButton, SpeedPreset, VirtualKey, MAX_CLICKS_PER_SECOND, MIN_INTERVAL_MS,
};
use windows_clicker::controls::{
    action_for_command, action_for_hotkey, config_from_controls, interval_from_controls, mouse_button_from_selection,
    parse_custom_interval, restored_selection, speed_preset_from_selection, worker_step, UiAction,
    WorkerStep, CBN_SELCHANGE, HOTKEY_KEYBOARD, HOTKEY_MOUSE, HOTKEY_STOP, ID_KEY_TOGGLE,
    ID_LANGUAGE, ID_MOUSE_TOGGLE, ID_STOP_ALL, IDLE_POLL_MS, MENU_EXIT,
};
use windows_clicker::input::{
    clicker_hotkey_from_keyboard_event, is_physical_keyboard_hook_event,
    is_physical_mouse_hook_event, keyboard_scancode_from_virtual_key, mouse_button_virtual_key,
    mouse_event_flags, should_pause_repeat_for_key, ClickerHotkey,
    LOW_LEVEL_KEYBOARD_INJECTED_FLAG, LOW_LEVEL_MOUSE_INJECTED_FLAG,
};
use windows_clicker::language::Language;
use windows_clicker::runtime::ClickerRuntime;
use windows_clicker::text::{is_white_space_char, parse_u64, trim_str};

#[test]
fn white_space_matches_std_for_every_char() {
    for code in 0u32..=0x10FFFF {
        if let Some(c) = char::from_u32(code) {
            assert_eq!(is_white_space_char(c), c.is_whitespace(), "char {code:#x}");
        }
    }
}

#[test]
fn trim_matches_std() {
    for s in [
        "",
        " ",
        "  a ",
        "\t\nSpace\r\n",
        "\u{3000}F1\u{2003}",
        "a b",
        "\u{85}x\u{a0}",
        "é ",
    ] {
        assert_eq!(trim_str(s), s.trim(), "input {s:?}");
    }
}

#[test]
fn parse_u64_matches_std() {
    for s in [
        "",
        "+",
        "-",
        "-5",
        "+5",
        "++5",
        "0",
        "007",
        "42",
        "18446744073709551615",
        "18446744073709551616",
        "99999999999999999999",
        "12a",
        " 1",
        "1 ",
        "٣",
    ] {
        assert_eq!(parse_u64(s), s.parse::<u64>().ok(), "input {s:?}");
    }
}

#[test]
fn key_names_ignore_case_and_surrounding_space() {
    assert_eq!(parse_virtual_key("  sPaCe\t").unwrap(), VirtualKey(0x20));
    assert_eq!(parse_virtual_key("ESCAPE").unwrap(), VirtualKey(0x1B));
    assert_eq!(parse_virtual_key("esc").unwrap(), VirtualKey(0x1B));
    assert_eq!(parse_virtual_key("Return").unwrap(), VirtualKey(0x0D));
    assert_eq!(parse_virtual_key("bksp").unwrap(), VirtualKey(0x08));
    assert_eq!(parse_virtual_key("downarrow").unwrap(), VirtualKey(0x28));
    assert_eq!(parse_virtual_key("Control").unwrap(), VirtualKey(0x11));
    assert_eq!(parse_virtual_key("caps").unwrap(), VirtualKey(0x14));
    assert_eq!(parse_virtual_key(" 0 ").unwrap(), VirtualKey(0x30));
    assert_eq!(parse_virtual_key("F10").unwrap(), VirtualKey(0x79));
}

#[test]
fn unknown_keys_report_the_trimmed_name() {
    assert_eq!(
        parse_virtual_key("  F13 ").unwrap_err(),
        "unsupported keyboard key: F13"
    );
    assert_eq!(
        parse_virtual_key("-").unwrap_err(),
        "unsupported keyboard key: -"
    );
    assert_eq!(
        parse_virtual_key("é").unwrap_err(),
        "unsupported keyboard key: é"
    );
    assert_eq!(
        parse_virtual_key(" \t ").unwrap_err(),
        "keyboard key is required"
    );
}

#[test]
fn every_accepted_key_has_a_scancode() {
    let names = [
        "a", "m", "z", "0", "9", "Space", "Enter", "Esc", "Tab", "Backspace", "Left", "Up",
        "Right", "Down", "Shift", "Ctrl", "Alt", "CapsLock", "F1", "F5", "F6", "F12",
    ];
    for name in names {
        let key = parse_virtual_key(name).unwrap();
        assert!(
            keyboard_scancode_from_virtual_key(key).is_some(),
            "key {name}"
        );
    }
}

#[test]
fn hotkey_names_parse_to_the_hotkey_codes() {
    let f6 = parse_virtual_key("F6").unwrap();
    let f7 = parse_virtual_key("F7").unwrap();
    let f8 = parse_virtual_key("F8").unwrap();
    assert_eq!(
        clicker_hotkey_from_keyboard_event(f6.0 as u32, true, false),
        Some(ClickerHotkey::Mouse)
    );
    assert_eq!(
        clicker_hotkey_from_keyboard_event(f7.0 as u32, true, false),
        Some(ClickerHotkey::Keyboard)
    );
    assert_eq!(
        clicker_hotkey_from_keyboard_event(f8.0 as u32, true, false),
        Some(ClickerHotkey::StopAll)
    );
}

#[test]
fn hotkeys_and_the_target_never_pause_the_repeat() {
    let target = VirtualKey(0x20);
    assert!(!should_pause_repeat_for_key(target, VirtualKey(0x20)));
    assert!(!should_pause_repeat_for_key(target, VirtualKey(0x75)));
    assert!(!should_pause_repeat_for_key(target, VirtualKey(0x76)));
    assert!(!should_pause_repeat_for_key(target, VirtualKey(0x77)));
    assert!(should_pause_repeat_for_key(target, VirtualKey(0x74)));
    assert!(should_pause_repeat_for_key(target, VirtualKey(0x78)));
    assert!(should_pause_repeat_for_key(target, VirtualKey(0x41)));
}

#[test]
fn injected_flag_marks_any_event_as_synthetic() {
    for flags in [0u32, 0x01, 0x02, 0x80, 0xFFFF_FFFF] {
        assert!(!is_physical_keyboard_hook_event(
            flags | LOW_LEVEL_KEYBOARD_INJECTED_FLAG
        ));
        assert!(!is_physical_mouse_hook_event(
            flags | LOW_LEVEL_MOUSE_INJECTED_FLAG
        ));
    }
    assert!(is_physical_keyboard_hook_event(0x01));
    assert!(is_physical_mouse_hook_event(0x10));
}

#[test]
fn scancodes_of_letters_digits_and_function_keys() {
    assert_eq!(keyboard_scancode_from_virtual_key(VirtualKey(0x41)), Some(0x1E));
    assert_eq!(keyboard_scancode_from_virtual_key(VirtualKey(0x5A)), Some(0x2C));
    assert_eq!(keyboard_scancode_from_virtual_key(VirtualKey(0x30)), Some(0x0B));
    assert_eq!(keyboard_scancode_from_virtual_key(VirtualKey(0x31)), Some(0x02));
    assert_eq!(keyboard_scancode_from_virtual_key(VirtualKey(0x7A)), Some(0x57));
    assert_eq!(keyboard_scancode_from_virtual_key(VirtualKey(0x7B)), Some(0x58));
    assert_eq!(keyboard_scancode_from_virtual_key(VirtualKey(0x1B)), Some(0x01));
    assert_eq!(keyboard_scancode_from_virtual_key(VirtualKey(0x3A)), None);
    assert_eq!(keyboard_scancode_from_virtual_key(VirtualKey(0x7C)), None);
}

#[test]
fn interval_edges() {
    assert_eq!(validate_interval_ms(MIN_INTERVAL_MS + 1).unwrap(), MIN_INTERVAL_MS + 1);
    assert_eq!(validate_interval_ms(u64::MAX).unwrap(), u64::MAX);
    assert_eq!(
        validate_interval_ms(0).unwrap_err(),
        "interval must be at least 25 ms"
    );
}

#[test]
fn config_reports_the_keyboard_interval_last() {
    let err = ClickerConfig::new(MouseButton::Left, 50, "q", 24).unwrap_err();
    assert_eq!(err, "keyboard interval must be at least 25 ms");
    let err = ClickerConfig::new(MouseButton::Left, 50, "nope", 24).unwrap_err();
    assert_eq!(err, "unsupported keyboard key: nope");
    let err = ClickerConfig::new(MouseButton::Left, 1, "nope", 24).unwrap_err();
    assert_eq!(err, "mouse interval must be at least 25 ms");
}

#[test]
fn fastest_speed_gives_the_minimum_interval() {
    assert_eq!(
        interval_from_clicks_per_second(MAX_CLICKS_PER_SECOND).unwrap(),
        MIN_INTERVAL_MS
    );
    assert_eq!(interval_from_clicks_per_second(3).unwrap(), 333);
    for cps in 1..=MAX_CLICKS_PER_SECOND {
        let ms = interval_from_clicks_per_second(cps).unwrap();
        assert_eq!(validate_interval_ms(ms).unwrap(), ms);
    }
}

#[test]
fn presets_in_order_with_their_intervals() {
    let presets = SpeedPreset::all();
    let expected = [(1, 1000), (2, 500), (5, 200), (10, 100), (20, 50), (30, 33)];
    for (preset, (cps, ms)) in presets.iter().zip(expected) {
        assert_eq!(preset.clicks_per_second(), cps);
        assert_eq!(preset.interval_ms(), ms);
        assert_eq!(
            preset.interval_ms(),
            interval_from_clicks_per_second(cps).unwrap()
        );
    }
    assert_eq!(SpeedPreset::from_index(3), Some(SpeedPreset::TenPerSecond));
    assert_eq!(SpeedPreset::from_index(6), None);
    assert_eq!(SpeedPreset::OnePerSecond.label_en(), "1 / sec");
    assert_eq!(SpeedPreset::TwentyPerSecond.label_zh(), "每秒 20 次");
}

#[test]
fn language_labels_and_status_text() {
    assert_eq!(Language::English.language_label(), "Language");
    assert_eq!(Language::Chinese.language_label(), "语言");
    assert_eq!(Language::Chinese.keyboard_speed_label(), "键盘速度");
    assert_eq!(Language::English.disarm_mouse(), "Disarm Mouse (F6)");
    assert_eq!(Language::Chinese.stop_all(), "全部停止 (F8)");
    assert_eq!(Language::English.armed_label(true), "ARMED");
    assert_eq!(Language::Chinese.armed_label(false), "关闭");
    assert_eq!(
        Language::English.status_text("ARMED", "OFF"),
        "Mouse: ARMED (F6)    Keyboard: OFF (F7)    Stop all: F8"
    );
    assert_eq!(
        Language::Chinese.status_text("已武装", "关闭"),
        "鼠标: 已武装 (F6)    键盘: 关闭 (F7)    全停: F8"
    );
    assert_eq!(
        Language::English.mouse_button_items(),
        ["Left", "Right", "Middle"]
    );
    assert_eq!(Language::Chinese.mouse_button_items(), ["左键", "右键", "中键"]);
    assert_eq!(Language::from_selection(1), Language::Chinese);
    assert_eq!(Language::from_selection(-1), Language::English);
}

#[test]
fn commands_and_hotkeys_map_to_the_same_actions() {
    assert_eq!(action_for_command(ID_MOUSE_TOGGLE, 0), UiAction::ToggleMouse);
    assert_eq!(action_for_hotkey(HOTKEY_MOUSE), UiAction::ToggleMouse);
    assert_eq!(action_for_command(ID_KEY_TOGGLE, 0), UiAction::ToggleKeyboard);
    assert_eq!(action_for_hotkey(HOTKEY_KEYBOARD), UiAction::ToggleKeyboard);
    assert_eq!(action_for_command(ID_STOP_ALL, 0), UiAction::StopAll);
    assert_eq!(action_for_hotkey(HOTKEY_STOP), UiAction::StopAll);
    assert_eq!(
        action_for_command(ID_LANGUAGE, CBN_SELCHANGE),
        UiAction::ChangeLanguage
    );
    assert_eq!(action_for_command(ID_LANGUAGE, 0), UiAction::Nothing);
    assert_eq!(action_for_command(MENU_EXIT, 0), UiAction::Exit);
    assert_eq!(action_for_command(42, 0), UiAction::Nothing);
    assert_eq!(action_for_hotkey(42), UiAction::Nothing);
}

#[test]
fn selections_and_interval_controls() {
    assert_eq!(mouse_button_from_selection(0), MouseButton::Left);
    assert_eq!(mouse_button_from_selection(1), MouseButton::Right);
    assert_eq!(mouse_button_from_selection(2), MouseButton::Middle);
    assert_eq!(mouse_button_from_selection(-1), MouseButton::Left);
    assert_eq!(speed_preset_from_selection(-1), SpeedPreset::TenPerSecond);
    assert_eq!(speed_preset_from_selection(0), SpeedPreset::OnePerSecond);
    assert_eq!(speed_preset_from_selection(5), SpeedPreset::ThirtyPerSecond);
    assert_eq!(speed_preset_from_selection(9), SpeedPreset::TenPerSecond);
    assert_eq!(restored_selection(-1, 3), 3);
    assert_eq!(restored_selection(2, 3), 2);
    assert_eq!(interval_from_controls("", 4, "mouse interval").unwrap(), 50);
    assert_eq!(interval_from_controls("  ", -1, "mouse interval").unwrap(), 100);
    assert_eq!(interval_from_controls(" 70 ", 0, "mouse interval").unwrap(), 70);
    assert_eq!(
        interval_from_controls("fast", 0, "keyboard interval").unwrap_err(),
        "keyboard interval must be a whole number"
    );
    assert_eq!(
        parse_custom_interval("-3", "mouse interval").unwrap_err(),
        "mouse interval must be a whole number"
    );
    assert_eq!(parse_custom_interval("+12", "mouse interval").unwrap(), 12);
}

#[test]
fn worker_presses_only_while_the_trigger_is_held() {
    assert_eq!(
        worker_step(true, 80),
        WorkerStep {
            press: true,
            sleep_ms: 80
        }
    );
    assert_eq!(
        worker_step(false, 80),
        WorkerStep {
            press: false,
            sleep_ms: IDLE_POLL_MS
        }
    );
}

#[test]
fn mouse_buttons_map_to_event_flags_and_state_keys() {
    assert_eq!(mouse_event_flags(MouseButton::Left), (0x0002, 0x0004));
    assert_eq!(mouse_event_flags(MouseButton::Right), (0x0008, 0x0010));
    assert_eq!(mouse_event_flags(MouseButton::Middle), (0x0020, 0x0040));
    assert_eq!(mouse_button_virtual_key(MouseButton::Left), VirtualKey(0x01));
    assert_eq!(mouse_button_virtual_key(MouseButton::Right), VirtualKey(0x02));
    assert_eq!(mouse_button_virtual_key(MouseButton::Middle), VirtualKey(0x04));
}

#[test]
fn toggling_twice_restores_and_stop_all_is_idempotent() {
    let config = ClickerConfig::new(MouseButton::Middle, 30, "Tab", 40).unwrap();
    let mut runtime = ClickerRuntime::new(config);
    let before = runtime.snapshot();
    runtime.toggle_mouse();
    runtime.toggle_mouse();
    assert_eq!(runtime.snapshot(), before);
    runtime.toggle_keyboard();
    runtime.toggle_keyboard();
    assert_eq!(runtime.snapshot(), before);

    runtime.toggle_mouse();
    runtime.stop_all();
    let stopped = runtime.snapshot();
    runtime.stop_all();
    assert_eq!(runtime.snapshot(), stopped);
    assert!(!stopped.mouse_armed && !stopped.keyboard_armed);
    assert_eq!(stopped.config, config);
}

#[test]
fn toggle_order_does_not_matter() {
    let config = ClickerConfig::new(MouseButton::Left, 50, "q", 75).unwrap();
    let mut a = ClickerRuntime::new(config);
    let mut b = ClickerRuntime::new(config);
    a.toggle_mouse();
    a.toggle_keyboard();
    b.toggle_keyboard();
    b.toggle_mouse();
    assert_eq!(a.snapshot(), b.snapshot());
}

#[test]
fn config_from_controls_reports_errors_in_reading_order() {
    let config = config_from_controls(2, "", 4, " a ", "60", -1).unwrap();
    assert_eq!(config.mouse_button, MouseButton::Middle);
    assert_eq!(config.mouse_interval_ms, 50);
    assert_eq!(config.keyboard_key, VirtualKey(0x41));
    assert_eq!(config.keyboard_interval_ms, 60);

    assert_eq!(
        config_from_controls(0, "x", 0, "", "y", 0).unwrap_err(),
        "mouse interval must be a whole number"
    );
    assert_eq!(
        config_from_controls(0, "10", 0, "", "y", 0).unwrap_err(),
        "keyboard interval must be a whole number"
    );
    assert_eq!(
        config_from_controls(0, "10", 0, "", "", 0).unwrap_err(),
        "mouse interval must be at least 25 ms"
    );
    assert_eq!(
        config_from_controls(0, "", 0, "", "10", 0).unwrap_err(),
        "keyboard key is required"
    );
    assert_eq!(
        config_from_controls(1, "", 0, "q", "10", 0).unwrap_err(),
        "keyboard interval must be at least 25 ms"
    );
}

#[test]
fn toggle_captions_follow_the_armed_flag() {
    assert_eq!(Language::English.mouse_toggle_caption(false), "Arm Mouse (F6)");
    assert_eq!(Language::English.mouse_toggle_caption(true), "Disarm Mouse (F6)");
    assert_eq!(Language::Chinese.mouse_toggle_caption(true), "解除鼠标 (F6)");
    assert_eq!(Language::English.keyboard_toggle_caption(false), "Arm Keyboard (F7)");
    assert_eq!(Language::Chinese.keyboard_toggle_caption(false), "武装键盘 (F7)");
    assert_eq!(Language::Chinese.keyboard_toggle_caption(true), "解除键盘 (F7)");
}

#[test]
fn state_after_calls_is_parity_since_last_stop_and_last_config() {
    let first = ClickerConfig::new(MouseButton::Left, 50, "q", 75).unwrap();
    let second = ClickerConfig::new(MouseButton::Right, 80, "space", 90).unwrap();
    let mut runtime = ClickerRuntime::new(first);
    runtime.toggle_mouse();
    runtime.toggle_keyboard();
    runtime.set_config(second);
    runtime.stop_all();
    runtime.toggle_mouse();
    runtime.toggle_mouse();
    runtime.toggle_mouse();
    runtime.toggle_keyboard();
    runtime.toggle_keyboard();
    let snapshot = runtime.snapshot();
    assert!(snapshot.mouse_armed);
    assert!(!snapshot.keyboard_armed);
    assert_eq!(snapshot.config, second);
}

use vstd::prelude::*;

use crate::config::{
    config_result, preset_order, speed_result, with_message, ClickerConfig, MouseButton, SpeedPreset,
};
use crate::text::{parse_u64, trim, trim_str, u64_from_str};

verus! {

/// Control id of the mouse toggle button.
pub const ID_MOUSE_TOGGLE: i32 = 1005;

/// Control id of the keyboard toggle button.
pub const ID_KEY_TOGGLE: i32 = 1006;

/// Control id of the stop-all button.
pub const ID_STOP_ALL: i32 = 1007;

/// Control id of the language list.
pub const ID_LANGUAGE: i32 = 1010;

/// Notification sent when the selection of a list changes.
pub const CBN_SELCHANGE: u16 = 1;

/// Command id of the Exit menu entry.
pub const MENU_EXIT: i32 = 3001;

/// Id of the hotkey that toggles the mouse clicker (F6).
pub const HOTKEY_MOUSE: i32 = 2001;

/// Id of the hotkey that toggles the keyboard clicker (F7).
pub const HOTKEY_KEYBOARD: i32 = 2002;

/// Id of the hotkey that stops both clickers (F8).
pub const HOTKEY_STOP: i32 = 2003;

/// Position of the default speed (10 per second) in the speed lists.
pub const DEFAULT_SPEED_INDEX: usize = 3;

/// How long an armed clicker waits before it looks at its trigger again
/// while the trigger is not held.
pub const IDLE_POLL_MS: u64 = 10;

/// What the window does in answer to a command or a hotkey.
#[derive(Debug, Clone, Copy, PartialEq, Eq, Structural)]
pub enum UiAction {
    ToggleMouse,
    ToggleKeyboard,
    StopAll,
    ChangeLanguage,
    Exit,
    Nothing,
}

/// One round of a clicker's worker: whether to send a click or key press,
/// and how long to sleep afterwards.
#[derive(Debug, Clone, Copy, PartialEq, Eq, Structural)]
pub struct WorkerStep {
    pub press: bool,
    pub sleep_ms: u64,
}

/// The action for a command from a control or the menu.
pub open spec fn command_action(command_id: i32, notification_code: u16) -> UiAction {
    if command_id == ID_MOUSE_TOGGLE {
        UiAction::ToggleMouse
    } else if command_id == ID_KEY_TOGGLE {
        UiAction::ToggleKeyboard
    } else if command_id == ID_STOP_ALL {
        UiAction::StopAll
    } else if command_id == ID_LANGUAGE && notification_code == CBN_SELCHANGE {
        UiAction::ChangeLanguage
    } else if command_id == MENU_EXIT {
        UiAction::Exit
    } else {
        UiAction::Nothing
    }
}

/// The action for a registered hotkey.
pub open spec fn hotkey_action(hotkey_id: i32) -> UiAction {
    if hotkey_id == HOTKEY_MOUSE {
        UiAction::ToggleMouse
    } else if hotkey_id == HOTKEY_KEYBOARD {
        UiAction::ToggleKeyboard
    } else if hotkey_id == HOTKEY_STOP {
        UiAction::StopAll
    } else {
        UiAction::Nothing
    }
}

/// The preset chosen at `selected` in a speed list: no selection means the
/// default, an index past the list means ten per second.
pub open spec fn selected_preset(selected: isize) -> SpeedPreset {
    let index: int = if selected < 0 {
        DEFAULT_SPEED_INDEX as int
    } else {
        selected as int
    };
    if index < 6 {
        preset_order()[index]
    } else {
        SpeedPreset::TenPerSecond
    }
}

/// Message for a custom interval called `label` that is not a number.
pub open spec fn not_a_number_error(label: Seq<char>) -> Seq<char> {
    label + " must be a whole number"@
}

/// What a custom interval field holding `text` gives.
pub open spec fn custom_interval_result(text: Seq<char>, label: Seq<char>) -> Result<u64, Seq<char>> {
    match u64_from_str(trim(text)) {
        Some(v) => Ok(v),
        None => Err(not_a_number_error(label)),
    }
}

/// What the interval controls give: the custom field when it holds more
/// than white space, otherwise the interval of the selected speed.
pub open spec fn controls_interval_result(
    custom_text: Seq<char>,
    selected: isize,
    label: Seq<char>,
) -> Result<u64, Seq<char>> {
    if trim(custom_text).len() > 0 {
        custom_interval_result(custom_text, label)
    } else {
        speed_result(selected_preset(selected).spec_clicks_per_second())
    }
}

/// The mouse button chosen at `selected` in the mouse button list: the
/// second entry is the right button, the third the middle one, anything
/// else the left one.
pub open spec fn selected_mouse_button(selected: isize) -> MouseButton {
    if selected == 1 {
        MouseButton::Right
    } else if selected == 2 {
        MouseButton::Middle
    } else {
        MouseButton::Left
    }
}

/// What reading the whole configuration from the controls gives: the mouse
/// interval controls are read first, then the keyboard interval controls,
/// and then the configuration is built (mouse interval, key, keyboard
/// interval); the first error met is the one returned.
pub open spec fn controls_config_result(
    mouse_selected: isize,
    mouse_custom: Seq<char>,
    mouse_speed_selected: isize,
    key_text: Seq<char>,
    key_custom: Seq<char>,
    key_speed_selected: isize,
) -> Result<ClickerConfig, Seq<char>> {
    match controls_interval_result(mouse_custom, mouse_speed_selected, "mouse interval"@) {
        Err(e) => Err(e),
        Ok(mouse_ms) => match controls_interval_result(
            key_custom,
            key_speed_selected,
            "keyboard interval"@,
        ) {
            Err(e) => Err(e),
            Ok(key_ms) => config_result(
                selected_mouse_button(mouse_selected),
                mouse_ms,
                key_text,
                key_ms,
            ),
        },
    }
}

/// The action for a command from a control or the menu.
pub fn action_for_command(command_id: i32, notification_code: u16) -> (action: UiAction)
    ensures
        action == command_action(command_id, notification_code),
{
    if command_id == ID_MOUSE_TOGGLE {
        UiAction::ToggleMouse
    } else if command_id == ID_KEY_TOGGLE {
        UiAction::ToggleKeyboard
    } else if command_id == ID_STOP_ALL {
        UiAction::StopAll
    } else if command_id == ID_LANGUAGE && notification_code == CBN_SELCHANGE {
        UiAction::ChangeLanguage
    } else if command_id == MENU_EXIT {
        UiAction::Exit
    } else {
        UiAction::Nothing
    }
}

/// The action for a registered hotkey.
pub fn action_for_hotkey(hotkey_id: i32) -> (action: UiAction)
    ensures
        action == hotkey_action(hotkey_id),
{
    if hotkey_id == HOTKEY_MOUSE {
        UiAction::ToggleMouse
    } else if hotkey_id == HOTKEY_KEYBOARD {
        UiAction::ToggleKeyboard
    } else if hotkey_id == HOTKEY_STOP {
        UiAction::StopAll
    } else {
        UiAction::Nothing
    }
}

/// The mouse button chosen at `selected` in the mouse button list: the
/// second entry is the right button, the third the middle one, anything
/// else the left one.
pub fn mouse_button_from_selection(selected: isize) -> (button: MouseButton)
    ensures
        button == selected_mouse_button(selected),
{
    if selected == 1 {
        MouseButton::Right
    } else if selected == 2 {
        MouseButton::Middle
    } else {
        MouseButton::Left
    }
}

/// The speed preset chosen at `selected` in a speed list.
pub fn speed_preset_from_selection(selected: isize) -> (preset: SpeedPreset)
    ensures
        preset == selected_preset(selected),
{
    let index: usize = if selected < 0 {
        DEFAULT_SPEED_INDEX
    } else {
        selected as usize
    };
    match SpeedPreset::from_index(index) {
        Some(preset) => preset,
        None => SpeedPreset::TenPerSecond,
    }
}

/// The entry to select again after a list is refilled: the old selection,
/// or `default` when there was none.
pub fn restored_selection(selected: isize, default: usize) -> (index: usize)
    ensures
        index == (if selected < 0 {
            default as int
        } else {
            selected as int
        }),
{
    if selected < 0 {
        default
    } else {
        selected as usize
    }
}

/// Reads a custom interval field: its trimmed text as a whole number.
pub fn parse_custom_interval(text: &str, label: &str) -> (res: Result<u64, String>)
    ensures
        with_message(res) == custom_interval_result(text@, label@),
{
    match parse_u64(trim_str(text)) {
        Some(v) => Ok(v),
        None => Err(String::from_str(label).concat(" must be a whole number")),
    }
}

/// Reads the interval controls of one clicker: the custom field when it
/// holds more than white space, otherwise the selected speed preset.
pub fn interval_from_controls(custom_text: &str, selected: isize, label: &str) -> (res: Result<
    u64,
    String,
>)
    ensures
        with_message(res) == controls_interval_result(custom_text@, selected, label@),
{
    let trimmed = trim_str(custom_text);
    if trimmed.unicode_len() > 0 {
        return parse_custom_interval(custom_text, label);
    }
    let preset = speed_preset_from_selection(selected);
    Ok(preset.interval_ms())
}

/// Reads the whole configuration from the controls: the mouse button list,
/// the mouse interval controls, the key field and the keyboard interval
/// controls.
pub fn config_from_controls(
    mouse_selected: isize,
    mouse_custom: &str,
    mouse_speed_selected: isize,
    key_text: &str,
    key_custom: &str,
    key_speed_selected: isize,
) -> (res: Result<ClickerConfig, String>)
    ensures
        with_message(res) == controls_config_result(
            mouse_selected,
            mouse_custom@,
            mouse_speed_selected,
            key_text@,
            key_custom@,
            key_speed_selected,
        ),
{
    let mouse_button = mouse_button_from_selection(mouse_selected);
    let mouse_interval_ms = interval_from_controls(
        mouse_custom,
        mouse_speed_selected,
        "mouse interval",
    )?;
    let keyboard_interval_ms = interval_from_controls(
        key_custom,
        key_speed_selected,
        "keyboard interval",
    )?;
    ClickerConfig::new(mouse_button, mouse_interval_ms, key_text, keyboard_interval_ms)
}

/// One round of an armed clicker's worker: while its trigger is held it
/// presses and then waits the interval, otherwise it only waits the idle
/// poll time.
pub fn worker_step(trigger_down: bool, interval_ms: u64) -> (step: WorkerStep)
    ensures
        step == (if trigger_down {
            WorkerStep { press: true, sleep_ms: interval_ms }
        } else {
            WorkerStep { press: false, sleep_ms: IDLE_POLL_MS }
        }),
{
    if trigger_down {
        WorkerStep { press: true, sleep_ms: interval_ms }
    } else {
        WorkerStep { press: false, sleep_ms: IDLE_POLL_MS }
    }
}

} // verus!

use vstd::prelude::*;

use crate::config::{
    config_result, is_ascii_alphanumeric, key_code, key_result, named_interval_result,
    named_key_code, speed_result, MouseButton, SpeedPreset, VirtualKey, MIN_INTERVAL_MS,
};
use crate::input::{
    hotkey_for_event, is_hotkey_code, pauses_repeat, scancode_of, LOW_LEVEL_KEYBOARD_INJECTED_FLAG,
    LOW_LEVEL_MOUSE_INJECTED_FLAG,
};
use crate::controls::{
    controls_config_result, controls_interval_result, selected_mouse_button, selected_preset,
};
use crate::config::{interval_error, preset_order, ClickerConfig, MAX_CLICKS_PER_SECOND};
use crate::text::{decimal_digits, digit_char};
use crate::input::{mouse_flags, mouse_virtual_key, ClickerHotkey};
use crate::controls::{
    command_action, hotkey_action, UiAction, CBN_SELCHANGE, HOTKEY_KEYBOARD, HOTKEY_MOUSE,
    HOTKEY_STOP, ID_KEY_TOGGLE, ID_LANGUAGE, ID_MOUSE_TOGGLE, ID_STOP_ALL, MENU_EXIT,
};
use crate::text::{
    ascii_upper_code, equal_ignoring_ascii_case, upper_equals, is_white_space, trim_end, trim_start, lemma_trim_idempotent, lemma_upper_equals_ignores_case,
    trim,
};

verus! {

/// Every key code that a key name can stand for has a keyboard scancode.
proof fn lemma_key_codes_have_scancodes(key: Seq<char>)
    ensures
        key_code(key) matches Some(code) ==> scancode_of(code) is Some,
{
    if key.len() == 1 && is_ascii_alphanumeric(key[0]) {
        let code = ascii_upper_code(key[0]) as u16;
        assert(0x30 <= code <= 0x39 || 0x41 <= code <= 0x5A);
        assert(scancode_of(code) is Some);
    } else {
        assert(named_key_code(key) matches Some(code) ==> scancode_of(code) is Some);
    }
}

/// Every key that `parse_virtual_key` accepts can be typed: it has a
/// keyboard scancode.
pub proof fn lemma_accepted_keys_have_scancodes(raw: Seq<char>)
    ensures
        key_result(raw) matches Ok(key) ==> scancode_of(key.0) is Some,
{
    lemma_key_codes_have_scancodes(trim(raw));
}

/// A name spelled with no lower-case ASCII letter and no surrounding white
/// space parses by the name table, and matches no name but itself.
pub proof fn lemma_name_parses(name: Seq<char>)
    requires
        name.len() > 1,
        forall|i: int| 0 <= i < name.len() ==> !(0x61 <= (#[trigger] name[i]) as u32 <= 0x7A),
        !is_white_space(name[0]),
        !is_white_space(name.last()),
    ensures
        key_result(name) == (match named_key_code(name) {
            Some(code) => Ok(VirtualKey(code)),
            None => Err("unsupported keyboard key: "@ + name),
        }),
        forall|other: Seq<char>| upper_equals(name, other) ==> name == other,
{
    assert(trim_start(name) == name);
    assert(trim_end(name) == name);
    assert forall|other: Seq<char>| upper_equals(name, other) implies name == other by {
        assert forall|i: int| 0 <= i < name.len() implies name[i] == other[i] by {
            assert(ascii_upper_code(name[i]) == name[i] as u32);
            vstd::utf8::char_u32_cast(name[i], name[i] as u32);
            vstd::utf8::char_u32_cast(other[i], other[i] as u32);
        }
        assert(name =~= other);
    }
}

/// Every key that has a scancode is the key of some name: the keys that
/// can be typed are exactly the keys that can be configured.
#[verifier::rlimit(60)]
pub proof fn lemma_keys_with_scancodes_have_names(vk: u16)
    requires
        scancode_of(vk) is Some,
    ensures
        exists|raw: Seq<char>| key_result(raw) == Ok::<VirtualKey, Seq<char>>(VirtualKey(vk)),
{
    reveal_strlit("SPACE");
    reveal_strlit("ENTER");
    reveal_strlit("RETURN");
    reveal_strlit("ESC");
    reveal_strlit("ESCAPE");
    reveal_strlit("TAB");
    reveal_strlit("BACKSPACE");
    reveal_strlit("BKSP");
    reveal_strlit("LEFT");
    reveal_strlit("LEFTARROW");
    reveal_strlit("UP");
    reveal_strlit("UPARROW");
    reveal_strlit("RIGHT");
    reveal_strlit("RIGHTARROW");
    reveal_strlit("DOWN");
    reveal_strlit("DOWNARROW");
    reveal_strlit("SHIFT");
    reveal_strlit("CTRL");
    reveal_strlit("CONTROL");
    reveal_strlit("ALT");
    reveal_strlit("CAPSLOCK");
    reveal_strlit("CAPS");
    reveal_strlit("F1");
    reveal_strlit("F2");
    reveal_strlit("F3");
    reveal_strlit("F4");
    reveal_strlit("F5");
    reveal_strlit("F6");
    reveal_strlit("F7");
    reveal_strlit("F8");
    reveal_strlit("F9");
    reveal_strlit("F10");
    reveal_strlit("F11");
    reveal_strlit("F12");
    if (0x30 <= vk <= 0x39) || (0x41 <= vk <= 0x5A) {
        let c = vk as char;
        let raw = seq![c];
        assert(c as u32 == vk);
        assert(trim_start(raw) == raw);
        assert(trim_end(raw) == raw);
        assert(key_result(raw) == Ok::<VirtualKey, Seq<char>>(VirtualKey(vk)));
    } else if vk == 0x20 {
        lemma_name_parses("SPACE"@);
    } else if vk == 0x0D {
        lemma_name_parses("ENTER"@);
    } else if vk == 0x1B {
        lemma_name_parses("ESC"@);
    } else if vk == 0x09 {
        lemma_name_parses("TAB"@);
    } else if vk == 0x08 {
        lemma_name_parses("BACKSPACE"@);
    } else if vk == 0x25 {
        lemma_name_parses("LEFT"@);
    } else if vk == 0x26 {
        lemma_name_parses("UP"@);
    } else if vk == 0x27 {
        lemma_name_parses("RIGHT"@);
    } else if vk == 0x28 {
        lemma_name_parses("DOWN"@);
    } else if vk == 0x10 {
        lemma_name_parses("SHIFT"@);
    } else if vk == 0x11 {
        lemma_name_parses("CTRL"@);
    } else if vk == 0x12 {
        lemma_name_parses("ALT"@);
    } else if vk == 0x14 {
        lemma_name_parses("CAPSLOCK"@);
    } else if vk == 0x70 {
        lemma_name_parses("F1"@);
    } else if vk == 0x71 {
        lemma_name_parses("F2"@);
    } else if vk == 0x72 {
        lemma_name_parses("F3"@);
    } else if vk == 0x73 {
        lemma_name_parses("F4"@);
    } else if vk == 0x74 {
        lemma_name_parses("F5"@);
    } else if vk == 0x75 {
        lemma_name_parses("F6"@);
    } else if vk == 0x76 {
        lemma_name_parses("F7"@);
    } else if vk == 0x77 {
        lemma_name_parses("F8"@);
    } else if vk == 0x78 {
        lemma_name_parses("F9"@);
    } else if vk == 0x79 {
        lemma_name_parses("F10"@);
    } else if vk == 0x7A {
        lemma_name_parses("F11"@);
    } else if vk == 0x7B {
        lemma_name_parses("F12"@);
    }
}

/// A key has a scancode exactly when some key name parses to it.
pub proof fn lemma_scancode_keys_are_the_named_keys(vk: u16)
    ensures
        scancode_of(vk) is Some <==> exists|raw: Seq<char>| key_result(raw) == Ok::<VirtualKey, Seq<char>>(
            VirtualKey(vk),
        ),
{
    if scancode_of(vk) is Some {
        lemma_keys_with_scancodes_have_names(vk);
    }
    if exists|raw: Seq<char>| key_result(raw) == Ok::<VirtualKey, Seq<char>>(VirtualKey(vk)) {
        let raw = choose|raw: Seq<char>| key_result(raw) == Ok::<VirtualKey, Seq<char>>(VirtualKey(vk));
        lemma_accepted_keys_have_scancodes(raw);
    }
}

/// White space around a key name does not matter: the trimmed name parses
/// to the same key, or fails with the same message.
pub proof fn lemma_surrounding_white_space_is_ignored(raw: Seq<char>)
    ensures
        key_result(trim(raw)) == key_result(raw),
{
    lemma_trim_idempotent(raw);
}

/// Key names are matched without regard to ASCII case: two names that
/// differ only in the case of ASCII letters are both accepted, as the same
/// key, or both refused.
pub proof fn lemma_key_names_ignore_ascii_case(raw1: Seq<char>, raw2: Seq<char>)
    requires
        equal_ignoring_ascii_case(trim(raw1), trim(raw2)),
    ensures
        key_result(raw1) is Ok <==> key_result(raw2) is Ok,
        key_result(raw1) is Ok ==> key_result(raw1) == key_result(raw2),
{
    let k1 = trim(raw1);
    let k2 = trim(raw2);
    lemma_upper_equals_ignores_case(k1, k2);
    assert(named_key_code(k1) == named_key_code(k2));
    if k1.len() == 1 {
        assert(ascii_upper_code(k1[0]) == ascii_upper_code(k2[0]));
        assert(is_ascii_alphanumeric(k1[0]) == is_ascii_alphanumeric(k2[0]));
    }
    assert(key_code(k1) == key_code(k2));
}

/// Every configuration that `ClickerConfig::new` builds has both intervals
/// at or above the minimum and a key that has a scancode.
pub proof fn lemma_built_configs_are_valid(
    mouse_button: MouseButton,
    mouse_interval_ms: u64,
    keyboard_key_name: Seq<char>,
    keyboard_interval_ms: u64,
)
    ensures
        config_result(mouse_button, mouse_interval_ms, keyboard_key_name, keyboard_interval_ms) matches Ok(config)
            ==> config.intervals_valid() && scancode_of(config.keyboard_key.0) is Some,
{
    lemma_accepted_keys_have_scancodes(keyboard_key_name);
}

/// Every speed that is accepted gives an interval that passes validation.
pub proof fn lemma_accepted_speeds_give_valid_intervals(clicks_per_second: u64)
    ensures
        speed_result(clicks_per_second) matches Ok(ms) ==> ms >= MIN_INTERVAL_MS
            && named_interval_result("interval"@, ms) == Ok::<u64, Seq<char>>(ms),
{
    if 1 <= clicks_per_second <= 40 {
        assert(1000u64 / clicks_per_second >= 25) by (nonlinear_arith)
            requires
                1 <= clicks_per_second <= 40,
        ;
    }
}

/// Every preset speed is accepted and gives a valid interval.
pub proof fn lemma_presets_give_valid_intervals(preset: SpeedPreset)
    ensures
        speed_result(preset.spec_clicks_per_second()) is Ok,
        speed_result(preset.spec_clicks_per_second())->Ok_0 >= MIN_INTERVAL_MS,
{
    lemma_accepted_speeds_give_valid_intervals(preset.spec_clicks_per_second());
}

/// With an empty custom field, the interval controls always give the valid
/// interval of one of the presets.
pub proof fn lemma_preset_selection_gives_valid_interval(
    custom_text: Seq<char>,
    selected: isize,
    label: Seq<char>,
)
    requires
        trim(custom_text).len() == 0,
    ensures
        controls_interval_result(custom_text, selected, label) is Ok,
        controls_interval_result(custom_text, selected, label)->Ok_0 >= MIN_INTERVAL_MS,
{
    lemma_presets_give_valid_intervals(selected_preset(selected));
}

/// A hotkey fires only on the first key-down: a release or an auto-repeat
/// of any key triggers nothing.
pub proof fn lemma_hotkeys_fire_only_on_first_keydown(vk_code: u32, was_already_down: bool)
    ensures
        hotkey_for_event(vk_code, false, was_already_down) is None,
        hotkey_for_event(vk_code, true, true) is None,
{
}

/// The keys that never pause the keyboard repeat as hotkeys are exactly
/// the keys whose first key-down triggers a hotkey.
pub proof fn lemma_hotkey_keys_are_the_hotkey_events(key: VirtualKey)
    ensures
        is_hotkey_code(key.0 as int) <==> hotkey_for_event(key.0 as u32, true, false) is Some,
{
}

/// A key that triggers a hotkey never pauses the keyboard repeat.
pub proof fn lemma_hotkeys_never_pause_repeat(
    target: VirtualKey,
    vk_code: u32,
    is_key_down: bool,
    was_already_down: bool,
)
    ensures
        hotkey_for_event(vk_code, is_key_down, was_already_down) is Some ==> !pauses_repeat(
            target,
            VirtualKey(vk_code as u16),
        ),
{
}

/// Events carrying the injected flag are never taken as physical input.
pub proof fn lemma_injected_events_are_not_physical(flags: u32)
    ensures
        (flags | LOW_LEVEL_KEYBOARD_INJECTED_FLAG) & LOW_LEVEL_KEYBOARD_INJECTED_FLAG != 0,
        (flags | LOW_LEVEL_MOUSE_INJECTED_FLAG) & LOW_LEVEL_MOUSE_INJECTED_FLAG != 0,
{
    assert((flags | 0x10u32) & 0x10u32 != 0) by (bit_vector);
    assert((flags | 0x01u32) & 0x01u32 != 0) by (bit_vector);
}

/// Any key but the clicker's own key and the hotkeys F6, F7 and F8
/// (0x75 to 0x77) pauses the keyboard repeat; those never do.
pub proof fn lemma_other_keys_pause_repeat(target: VirtualKey, pressed: VirtualKey)
    ensures
        pauses_repeat(target, pressed) <==> (pressed.0 != target.0 && !(0x75 <= pressed.0
            <= 0x77)),
{
}

/// Reading the configuration from the controls takes each setting from
/// its own controls: the button from the button list, the mouse interval
/// from the mouse interval controls, the key from the key field and the
/// keyboard interval from the keyboard interval controls. It succeeds
/// exactly when each of them can be read and is valid.
pub proof fn lemma_config_from_controls_reads_each_control(
    mouse_selected: isize,
    mouse_custom: Seq<char>,
    mouse_speed_selected: isize,
    key_text: Seq<char>,
    key_custom: Seq<char>,
    key_speed_selected: isize,
)
    ensures
        ({
            let res = controls_config_result(
                mouse_selected,
                mouse_custom,
                mouse_speed_selected,
                key_text,
                key_custom,
                key_speed_selected,
            );
            let mouse_ms = controls_interval_result(
                mouse_custom,
                mouse_speed_selected,
                "mouse interval"@,
            );
            let key_ms = controls_interval_result(
                key_custom,
                key_speed_selected,
                "keyboard interval"@,
            );
            &&& res is Ok <==> (mouse_ms is Ok && mouse_ms->Ok_0 >= MIN_INTERVAL_MS && key_ms is Ok
                && key_ms->Ok_0 >= MIN_INTERVAL_MS && key_result(key_text) is Ok)
            &&& res matches Ok(config) ==> {
                &&& config.mouse_button == (if mouse_selected == 1 {
                    MouseButton::Right
                } else if mouse_selected == 2 {
                    MouseButton::Middle
                } else {
                    MouseButton::Left
                })
                &&& mouse_ms == Ok::<u64, Seq<char>>(config.mouse_interval_ms)
                &&& key_ms == Ok::<u64, Seq<char>>(config.keyboard_interval_ms)
                &&& key_result(key_text) == Ok::<VirtualKey, Seq<char>>(config.keyboard_key)
            }
        }),
{
}

/// The keyboard settings read from the controls do not depend on the
/// mouse speed list, nor the mouse settings on the keyboard speed list.
pub proof fn lemma_speed_lists_are_independent(
    mouse_selected: isize,
    mouse_custom: Seq<char>,
    mouse_speed_1: isize,
    mouse_speed_2: isize,
    key_text: Seq<char>,
    key_custom: Seq<char>,
    key_speed_1: isize,
    key_speed_2: isize,
)
    ensures
        controls_config_result(mouse_selected, mouse_custom, mouse_speed_1, key_text, key_custom, key_speed_1) matches Ok(a)
            ==> (controls_config_result(mouse_selected, mouse_custom, mouse_speed_2, key_text, key_custom, key_speed_1) matches Ok(b)
            ==> a.keyboard_interval_ms == b.keyboard_interval_ms && a.keyboard_key == b.keyboard_key),
        controls_config_result(mouse_selected, mouse_custom, mouse_speed_1, key_text, key_custom, key_speed_1) matches Ok(a)
            ==> (controls_config_result(mouse_selected, mouse_custom, mouse_speed_1, key_text, key_custom, key_speed_2) matches Ok(b)
            ==> a.mouse_interval_ms == b.mouse_interval_ms && a.mouse_button == b.mouse_button),
{
}

/// The offered speeds are 1, 2, 5, 10, 20 and 30 clicks per second, in
/// that order.
pub proof fn lemma_offered_speeds()
    ensures
        preset_order().len() == 6,
        preset_order().map_values(|p: SpeedPreset| p.spec_clicks_per_second()) == seq![
            1u64,
            2u64,
            5u64,
            10u64,
            20u64,
            30u64,
        ],
{
    assert(preset_order().map_values(|p: SpeedPreset| p.spec_clicks_per_second()) =~= seq![
        1u64,
        2u64,
        5u64,
        10u64,
        20u64,
        30u64,
    ]);
}

/// A speed list picks the preset listed at the selected position; with no
/// selection it picks the fourth (ten per second), and past the end of the
/// list ten per second too. With an empty custom field the interval is the
/// one of that preset's speed.
pub proof fn lemma_speed_selection_follows_the_list(
    selected: isize,
    custom_text: Seq<char>,
    label: Seq<char>,
)
    ensures
        0 <= selected < 6 ==> selected_preset(selected) == preset_order()[selected as int],
        selected < 0 ==> selected_preset(selected) == preset_order()[3],
        selected >= 6 ==> selected_preset(selected) == SpeedPreset::TenPerSecond,
        preset_order()[3] == SpeedPreset::TenPerSecond,
        trim(custom_text).len() == 0 && 0 <= selected < 6 ==> controls_interval_result(
            custom_text,
            selected,
            label,
        ) == Ok::<u64, Seq<char>>(
            (1000u64 / preset_order()[selected as int].spec_clicks_per_second()) as u64,
        ),
{
}

/// A single ASCII digit or upper-case letter stands for the key with its
/// own code, and a lower-case letter for the same key as its upper-case
/// form.
pub proof fn lemma_single_letters_and_digits(c: char)
    ensures
        (0x30 <= c as u32 <= 0x39 || 0x41 <= c as u32 <= 0x5A) ==> key_result(seq![c]) == Ok::<
            VirtualKey,
            Seq<char>,
        >(VirtualKey(c as u16)),
        0x61 <= c as u32 <= 0x7A ==> key_result(seq![c]) == key_result(
            seq![((c as u32 - 32) as u32) as char],
        ),
{
    let raw = seq![c];
    if 0x30 <= c as u32 <= 0x39 || 0x41 <= c as u32 <= 0x7A {
        assert(trim_start(raw) == raw);
        assert(trim_end(raw) == raw);
    }
    if 0x61 <= c as u32 <= 0x7A {
        let u = ((c as u32 - 32) as u32) as char;
        assert(u as u32 == c as u32 - 32);
        let up = seq![u];
        assert(trim_start(up) == up);
        assert(trim_end(up) == up);
    }
}

/// Each mouse button is pressed and released with its own pair of flags,
/// the release flag being twice the press flag, and each button is read
/// through its own virtual key.
pub proof fn lemma_mouse_buttons_are_distinct(a: MouseButton, b: MouseButton)
    ensures
        mouse_flags(a).1 == 2 * mouse_flags(a).0,
        a != b ==> mouse_flags(a).0 != mouse_flags(b).0 && mouse_flags(a).1 != mouse_flags(b).1,
        a != b ==> mouse_virtual_key(a) != mouse_virtual_key(b),
{
}

/// The hotkeys are F6 (0x75) for the mouse clicker, F7 (0x76) for the
/// keyboard clicker and F8 (0x77) to stop both, on their first key-down.
pub proof fn lemma_hotkeys_are_f6_f7_f8(vk_code: u32)
    ensures
        hotkey_for_event(vk_code, true, false) == Some(ClickerHotkey::Mouse) <==> vk_code == 0x75,
        hotkey_for_event(vk_code, true, false) == Some(ClickerHotkey::Keyboard) <==> vk_code
            == 0x76,
        hotkey_for_event(vk_code, true, false) == Some(ClickerHotkey::StopAll) <==> vk_code
            == 0x77,
{
}

/// A toggle button and its hotkey do the same thing, and nothing but the
/// buttons, the language list, the Exit entry and the hotkeys does
/// anything.
pub proof fn lemma_buttons_and_hotkeys_agree(command_id: i32, notification_code: u16, hotkey_id: i32)
    ensures
        command_action(ID_MOUSE_TOGGLE, notification_code) == UiAction::ToggleMouse,
        hotkey_action(HOTKEY_MOUSE) == UiAction::ToggleMouse,
        command_action(ID_KEY_TOGGLE, notification_code) == UiAction::ToggleKeyboard,
        hotkey_action(HOTKEY_KEYBOARD) == UiAction::ToggleKeyboard,
        command_action(ID_STOP_ALL, notification_code) == UiAction::StopAll,
        hotkey_action(HOTKEY_STOP) == UiAction::StopAll,
        command_action(ID_LANGUAGE, notification_code) == (if notification_code == CBN_SELCHANGE {
            UiAction::ChangeLanguage
        } else {
            UiAction::Nothing
        }),
        command_action(MENU_EXIT, notification_code) == UiAction::Exit,
        command_id != ID_MOUSE_TOGGLE && command_id != ID_KEY_TOGGLE && command_id != ID_STOP_ALL
            && command_id != ID_LANGUAGE && command_id != MENU_EXIT ==> command_action(
            command_id,
            notification_code,
        ) == UiAction::Nothing,
        hotkey_id != HOTKEY_MOUSE && hotkey_id != HOTKEY_KEYBOARD && hotkey_id != HOTKEY_STOP
            ==> hotkey_action(hotkey_id) == UiAction::Nothing,
{
}

/// The mouse-input flags of the buttons are those of Windows: left
/// 0x0002/0x0004, right 0x0008/0x0010, middle 0x0020/0x0040, and their
/// state keys are VK_LBUTTON (1), VK_RBUTTON (2) and VK_MBUTTON (4).
pub proof fn lemma_mouse_buttons_use_the_windows_codes()
    ensures
        mouse_flags(MouseButton::Left) == (0x0002u32, 0x0004u32),
        mouse_flags(MouseButton::Right) == (0x0008u32, 0x0010u32),
        mouse_flags(MouseButton::Middle) == (0x0020u32, 0x0040u32),
        mouse_virtual_key(MouseButton::Left) == 1,
        mouse_virtual_key(MouseButton::Right) == 2,
        mouse_virtual_key(MouseButton::Middle) == 4,
{
}

/// An accepted speed gives the whole number of milliseconds between clicks,
/// rounded down: `ms * cps <= 1000 < (ms + 1) * cps`.
pub proof fn lemma_speed_interval_is_rounded_down(clicks_per_second: u64)
    ensures
        speed_result(clicks_per_second) is Ok <==> 1 <= clicks_per_second <= 40,
        speed_result(clicks_per_second) matches Ok(ms) ==> ms * clicks_per_second <= 1000 < (ms
            + 1) * clicks_per_second,
{
    if 1 <= clicks_per_second <= 40 {
        let ms = 1000u64 / clicks_per_second;
        assert(ms * clicks_per_second <= 1000 < (ms + 1) * clicks_per_second) by (nonlinear_arith)
            requires
                1 <= clicks_per_second,
                ms == 1000u64 / clicks_per_second,
        ;
    }
}

/// The ASCII digits of the numbers 0 to 9.
proof fn lemma_digit_chars()
    ensures
        digit_char(0) == '0',
        digit_char(1) == '1',
        digit_char(2) == '2',
        digit_char(3) == '3',
        digit_char(4) == '4',
        digit_char(5) == '5',
        digit_char(6) == '6',
        digit_char(7) == '7',
        digit_char(8) == '8',
        digit_char(9) == '9',
{
    vstd::utf8::char_u32_cast('0', 0x30);
    vstd::utf8::char_u32_cast('1', 0x31);
    vstd::utf8::char_u32_cast('2', 0x32);
    vstd::utf8::char_u32_cast('3', 0x33);
    vstd::utf8::char_u32_cast('4', 0x34);
    vstd::utf8::char_u32_cast('5', 0x35);
    vstd::utf8::char_u32_cast('6', 0x36);
    vstd::utf8::char_u32_cast('7', 0x37);
    vstd::utf8::char_u32_cast('8', 0x38);
    vstd::utf8::char_u32_cast('9', 0x39);
}

/// Each preset's labels name its own speed in decimal: `N / sec` and
/// `每秒 N 次`.
pub proof fn lemma_preset_labels_name_their_speed(p: SpeedPreset)
    ensures
        p.spec_label_en() == decimal_digits(p.spec_clicks_per_second() as nat) + " / sec"@,
        p.spec_label_zh() == "每秒 "@ + decimal_digits(p.spec_clicks_per_second() as nat) + " 次"@,
{
    lemma_digit_chars();
    reveal_with_fuel(decimal_digits, 2);
    reveal_strlit(" / sec");
    reveal_strlit("每秒 ");
    reveal_strlit(" 次");
    match p {
        SpeedPreset::OnePerSecond => {
            reveal_strlit("1 / sec");
            reveal_strlit("每秒 1 次");
            assert(p.spec_label_en() =~= decimal_digits(1) + " / sec"@);
            assert(p.spec_label_zh() =~= "每秒 "@ + decimal_digits(1) + " 次"@);
        },
        SpeedPreset::TwoPerSecond => {
            reveal_strlit("2 / sec");
            reveal_strlit("每秒 2 次");
            assert(p.spec_label_en() =~= decimal_digits(2) + " / sec"@);
            assert(p.spec_label_zh() =~= "每秒 "@ + decimal_digits(2) + " 次"@);
        },
        SpeedPreset::FivePerSecond => {
            reveal_strlit("5 / sec");
            reveal_strlit("每秒 5 次");
            assert(p.spec_label_en() =~= decimal_digits(5) + " / sec"@);
            assert(p.spec_label_zh() =~= "每秒 "@ + decimal_digits(5) + " 次"@);
        },
        SpeedPreset::TenPerSecond => {
            reveal_strlit("10 / sec");
            reveal_strlit("每秒 10 次");
            assert(p.spec_label_en() =~= decimal_digits(10) + " / sec"@);
            assert(p.spec_label_zh() =~= "每秒 "@ + decimal_digits(10) + " 次"@);
        },
        SpeedPreset::TwentyPerSecond => {
            reveal_strlit("20 / sec");
            reveal_strlit("每秒 20 次");
            assert(p.spec_label_en() =~= decimal_digits(20) + " / sec"@);
            assert(p.spec_label_zh() =~= "每秒 "@ + decimal_digits(20) + " 次"@);
        },
        SpeedPreset::ThirtyPerSecond => {
            reveal_strlit("30 / sec");
            reveal_strlit("每秒 30 次");
            assert(p.spec_label_en() =~= decimal_digits(30) + " / sec"@);
            assert(p.spec_label_zh() =~= "每秒 "@ + decimal_digits(30) + " 次"@);
        },
    }
}

/// The error messages name the limits they enforce: the minimum interval
/// and the range of speeds.
pub proof fn lemma_messages_name_the_limits(name: Seq<char>, clicks_per_second: u64)
    ensures
        interval_error(name) == name + " must be at least "@ + decimal_digits(
            MIN_INTERVAL_MS as nat,
        ) + " ms"@,
        speed_result(clicks_per_second) matches Err(message) ==> message
            == "clicks per second must be between "@ + decimal_digits(1) + " and "@
            + decimal_digits(MAX_CLICKS_PER_SECOND as nat),
{
    lemma_digit_chars();
    reveal_with_fuel(decimal_digits, 2);
    reveal_strlit(" must be at least 25 ms");
    reveal_strlit(" must be at least ");
    reveal_strlit(" ms");
    reveal_strlit("clicks per second must be between 1 and 40");
    reveal_strlit("clicks per second must be between ");
    reveal_strlit(" and ");
    assert(" must be at least 25 ms"@ =~= " must be at least "@ + decimal_digits(25) + " ms"@);
    assert(name + " must be at least 25 ms"@ =~= name + " must be at least "@ + decimal_digits(25)
        + " ms"@);
    assert("clicks per second must be between 1 and 40"@ =~= "clicks per second must be between "@
        + decimal_digits(1) + " and "@ + decimal_digits(40));
}

} // verus!

use vstd::prelude::*;

use crate::config::{MouseButton, VirtualKey};

verus! {

/// Whether a synthesized key event presses or releases the key.
#[derive(Debug, Clone, Copy, PartialEq, Eq, Structural)]
pub enum KeyEventKind {
    Down,
    Up,
}

/// The global hotkeys of the clicker.
#[derive(Debug, Clone, Copy, PartialEq, Eq, Structural)]
pub enum ClickerHotkey {
    Mouse,
    Keyboard,
    StopAll,
}

/// The flag a low-level keyboard hook sets on injected (synthetic) events.
pub const LOW_LEVEL_KEYBOARD_INJECTED_FLAG: u32 = 0x10;

/// The flag a low-level mouse hook sets on injected (synthetic) events.
pub const LOW_LEVEL_MOUSE_INJECTED_FLAG: u32 = 0x01;

/// How long the keyboard clicker pauses after another key is pressed.
pub const KEYBOARD_OTHER_KEY_PAUSE_MS: u64 = 45;

/// Virtual-key codes of the hotkeys F6 (mouse), F7 (keyboard), F8 (stop all).
pub open spec fn is_hotkey_code(code: int) -> bool {
    0x75 <= code <= 0x77
}

/// The hotkey that a keyboard event triggers: only a first key-down of
/// F6, F7 or F8 counts, never a release or an auto-repeat.
pub open spec fn hotkey_for_event(vk_code: u32, is_key_down: bool, was_already_down: bool) -> Option<
    ClickerHotkey,
> {
    if !is_key_down || was_already_down {
        None
    } else if vk_code == 0x75 {
        Some(ClickerHotkey::Mouse)
    } else if vk_code == 0x76 {
        Some(ClickerHotkey::Keyboard)
    } else if vk_code == 0x77 {
        Some(ClickerHotkey::StopAll)
    } else {
        None
    }
}

/// Whether a press of `pressed` pauses the repeat of `target`: any other
/// key but the hotkeys does.
pub open spec fn pauses_repeat(target: VirtualKey, pressed: VirtualKey) -> bool {
    pressed != target && !is_hotkey_code(pressed.0 as int)
}

/// Set-1 keyboard scancode of the virtual keys the clicker can press.
pub open spec fn scancode_of(vk: u16) -> Option<u16> {
    match vk {
        0x08 => Some(0x0E),
        0x09 => Some(0x0F),
        0x0D => Some(0x1C),
        0x10 => Some(0x2A),
        0x11 => Some(0x1D),
        0x12 => Some(0x38),
        0x14 => Some(0x3A),
        0x1B => Some(0x01),
        0x20 => Some(0x39),
        0x25 => Some(0x4B),
        0x26 => Some(0x48),
        0x27 => Some(0x4D),
        0x28 => Some(0x50),
        0x30 => Some(0x0B),
        0x31 => Some(0x02),
        0x32 => Some(0x03),
        0x33 => Some(0x04),
        0x34 => Some(0x05),
        0x35 => Some(0x06),
        0x36 => Some(0x07),
        0x37 => Some(0x08),
        0x38 => Some(0x09),
        0x39 => Some(0x0A),
        0x41 => Some(0x1E),
        0x42 => Some(0x30),
        0x43 => Some(0x2E),
        0x44 => Some(0x20),
        0x45 => Some(0x12),
        0x46 => Some(0x21),
        0x47 => Some(0x22),
        0x48 => Some(0x23),
        0x49 => Some(0x17),
        0x4A => Some(0x24),
        0x4B => Some(0x25),
        0x4C => Some(0x26),
        0x4D => Some(0x32),
        0x4E => Some(0x31),
        0x4F => Some(0x18),
        0x50 => Some(0x19),
        0x51 => Some(0x10),
        0x52 => Some(0x13),
        0x53 => Some(0x1F),
        0x54 => Some(0x14),
        0x55 => Some(0x16),
        0x56 => Some(0x2F),
        0x57 => Some(0x11),
        0x58 => Some(0x2D),
        0x59 => Some(0x15),
        0x5A => Some(0x2C),
        0x70 => Some(0x3B),
        0x71 => Some(0x3C),
        0x72 => Some(0x3D),
        0x73 => Some(0x3E),
        0x74 => Some(0x3F),
        0x75 => Some(0x40),
        0x76 => Some(0x41),
        0x77 => Some(0x42),
        0x78 => Some(0x43),
        0x79 => Some(0x44),
        0x7A => Some(0x57),
        0x7B => Some(0x58),
        _ => None,
    }
}

/// The events of one repeat while the key is held: release, then press
/// again, so the key is left down.
pub fn hold_repeat_key_events() -> (events: [KeyEventKind; 2])
    ensures
        events@ == seq![KeyEventKind::Up, KeyEventKind::Down],
{
    let events = [KeyEventKind::Up, KeyEventKind::Down];
    assert(events@ =~= seq![KeyEventKind::Up, KeyEventKind::Down]);
    events
}

/// The events of one tap: press, then release.
pub fn tap_key_events() -> (events: [KeyEventKind; 2])
    ensures
        events@ == seq![KeyEventKind::Down, KeyEventKind::Up],
{
    let events = [KeyEventKind::Down, KeyEventKind::Up];
    assert(events@ =~= seq![KeyEventKind::Down, KeyEventKind::Up]);
    events
}

/// The events that end a keyboard repeat: a final release.
pub fn keyboard_release_events() -> (events: [KeyEventKind; 1])
    ensures
        events@ == seq![KeyEventKind::Up],
{
    let events = [KeyEventKind::Up];
    assert(events@ =~= seq![KeyEventKind::Up]);
    events
}

/// Whether pressing `pressed` should pause the repeat of `target`.
pub fn should_pause_repeat_for_key(target: VirtualKey, pressed: VirtualKey) -> (pause: bool)
    ensures
        pause == pauses_repeat(target, pressed),
{
    pressed != target && !is_clicker_hotkey(pressed)
}

/// Whether a low-level keyboard hook event came from a physical key, not
/// from injected input.
pub fn is_physical_keyboard_hook_event(flags: u32) -> (physical: bool)
    ensures
        physical == (flags & LOW_LEVEL_KEYBOARD_INJECTED_FLAG == 0),
{
    flags & LOW_LEVEL_KEYBOARD_INJECTED_FLAG == 0
}

/// Whether a low-level mouse hook event came from a physical device, not
/// from injected input.
pub fn is_physical_mouse_hook_event(flags: u32) -> (physical: bool)
    ensures
        physical == (flags & LOW_LEVEL_MOUSE_INJECTED_FLAG == 0),
{
    flags & LOW_LEVEL_MOUSE_INJECTED_FLAG == 0
}

/// The hotkey that a keyboard event triggers, if any.
pub fn clicker_hotkey_from_keyboard_event(
    vk_code: u32,
    is_key_down: bool,
    was_already_down: bool,
) -> (hotkey: Option<ClickerHotkey>)
    ensures
        hotkey == hotkey_for_event(vk_code, is_key_down, was_already_down),
{
    if !is_key_down || was_already_down {
        return None;
    }
    match vk_code {
        0x75 => Some(ClickerHotkey::Mouse),
        0x76 => Some(ClickerHotkey::Keyboard),
        0x77 => Some(ClickerHotkey::StopAll),
        _ => None,
    }
}

/// The keyboard scancode of a virtual key, for the keys the clicker knows.
pub fn keyboard_scancode_from_virtual_key(key: VirtualKey) -> (scancode: Option<u16>)
    ensures
        scancode == scancode_of(key.0),
{
    let scancode: u16 = match key.0 {
        0x08 => 0x0E,
        0x09 => 0x0F,
        0x0D => 0x1C,
        0x10 => 0x2A,
        0x11 => 0x1D,
        0x12 => 0x38,
        0x14 => 0x3A,
        0x1B => 0x01,
        0x20 => 0x39,
        0x25 => 0x4B,
        0x26 => 0x48,
        0x27 => 0x4D,
        0x28 => 0x50,
        0x30 => 0x0B,
        0x31 => 0x02,
        0x32 => 0x03,
        0x33 => 0x04,
        0x34 => 0x05,
        0x35 => 0x06,
        0x36 => 0x07,
        0x37 => 0x08,
        0x38 => 0x09,
        0x39 => 0x0A,
        0x41 => 0x1E,
        0x42 => 0x30,
        0x43 => 0x2E,
        0x44 => 0x20,
        0x45 => 0x12,
        0x46 => 0x21,
        0x47 => 0x22,
        0x48 => 0x23,
        0x49 => 0x17,
        0x4A => 0x24,
        0x4B => 0x25,
        0x4C => 0x26,
        0x4D => 0x32,
        0x4E => 0x31,
        0x4F => 0x18,
        0x50 => 0x19,
        0x51 => 0x10,
        0x52 => 0x13,
        0x53 => 0x1F,
        0x54 => 0x14,
        0x55 => 0x16,
        0x56 => 0x2F,
        0x57 => 0x11,
        0x58 => 0x2D,
        0x59 => 0x15,
        0x5A => 0x2C,
        0x70 => 0x3B,
        0x71 => 0x3C,
        0x72 => 0x3D,
        0x73 => 0x3E,
        0x74 => 0x3F,
        0x75 => 0x40,
        0x76 => 0x41,
        0x77 => 0x42,
        0x78 => 0x43,
        0x79 => 0x44,
        0x7A => 0x57,
        0x7B => 0x58,
        _ => return None,
    };
    Some(scancode)
}

/// Whether `key` is one of the hotkeys F6, F7, F8.
fn is_clicker_hotkey(key: VirtualKey) -> (b: bool)
    ensures
        b == is_hotkey_code(key.0 as int),
{
    0x75 <= key.0 && key.0 <= 0x77
}

/// The pair of mouse-input flags (press, release) that clicks `button`.
pub open spec fn mouse_flags(button: MouseButton) -> (u32, u32) {
    match button {
        MouseButton::Left => (0x0002, 0x0004),
        MouseButton::Right => (0x0008, 0x0010),
        MouseButton::Middle => (0x0020, 0x0040),
    }
}

/// The virtual-key code that reports the state of `button`.
pub open spec fn mouse_virtual_key(button: MouseButton) -> u16 {
    match button {
        MouseButton::Left => 0x01,
        MouseButton::Right => 0x02,
        MouseButton::Middle => 0x04,
    }
}

/// The mouse-input flags that press and then release `button`.
pub fn mouse_event_flags(button: MouseButton) -> (flags: (u32, u32))
    ensures
        flags == mouse_flags(button),
{
    match button {
        MouseButton::Left => (0x0002, 0x0004),
        MouseButton::Right => (0x0008, 0x0010),
        MouseButton::Middle => (0x0020, 0x0040),
    }
}

/// The virtual key whose state tells whether `button` is held.
pub fn mouse_button_virtual_key(button: MouseButton) -> (key: VirtualKey)
    ensures
        key.0 == mouse_virtual_key(button),
{
    match button {
        MouseButton::Left => VirtualKey(0x01),
        MouseButton::Right => VirtualKey(0x02),
        MouseButton::Middle => VirtualKey(0x04),
    }
}

} // verus!

use vstd::prelude::*;

use crate::text::{chars_of, trim, trim_str, upper_equals, upper_equals_str, ascii_upper_code};

verus! {

/// The smallest repeat delay, in milliseconds, that either clicker accepts.
pub const MIN_INTERVAL_MS: u64 = 25;

/// The fastest speed, in clicks per second, that a speed setting accepts.
pub const MAX_CLICKS_PER_SECOND: u64 = 40;

/// The mouse button that the mouse clicker presses.
#[derive(Debug, Clone, Copy, PartialEq, Eq, Structural)]
pub enum MouseButton {
    Left,
    Right,
    Middle,
}

/// A Windows virtual-key code.
#[derive(Debug, Clone, Copy, PartialEq, Eq, Structural)]
pub struct VirtualKey(pub u16);

/// The settings of both clickers.
#[derive(Debug, Clone, Copy, PartialEq, Eq, Structural)]
pub struct ClickerConfig {
    pub mouse_button: MouseButton,
    pub mouse_interval_ms: u64,
    pub keyboard_key: VirtualKey,
    pub keyboard_interval_ms: u64,
}

/// A `Result` whose error message is taken by its characters.
pub open spec fn with_message<T>(r: Result<T, String>) -> Result<T, Seq<char>> {
    match r {
        Ok(v) => Ok(v),
        Err(e) => Err(e@),
    }
}

/// Message returned when an interval called `name` is below the minimum.
pub open spec fn interval_error(name: Seq<char>) -> Seq<char> {
    name + " must be at least 25 ms"@
}

/// What validating an interval called `name` gives.
pub open spec fn named_interval_result(name: Seq<char>, interval_ms: u64) -> Result<u64, Seq<char>> {
    if interval_ms < MIN_INTERVAL_MS {
        Err(interval_error(name))
    } else {
        Ok(interval_ms)
    }
}

/// Whether `c` is an ASCII letter or digit.
pub open spec fn is_ascii_alphanumeric(c: char) -> bool {
    let n = c as u32;
    ||| 0x30 <= n <= 0x39
    ||| 0x61 <= n <= 0x7A
    ||| 0x41 <= n <= 0x5A
}

/// The virtual-key code of a named key, matched without regard to ASCII case.
pub open spec fn named_key_code(key: Seq<char>) -> Option<u16> {
    if upper_equals(key, "SPACE"@) {
        Some(0x20)
    } else if upper_equals(key, "ENTER"@) || upper_equals(key, "RETURN"@) {
        Some(0x0D)
    } else if upper_equals(key, "ESC"@) || upper_equals(key, "ESCAPE"@) {
        Some(0x1B)
    } else if upper_equals(key, "TAB"@) {
        Some(0x09)
    } else if upper_equals(key, "BACKSPACE"@) || upper_equals(key, "BKSP"@) {
        Some(0x08)
    } else if upper_equals(key, "LEFT"@) || upper_equals(key, "LEFTARROW"@) {
        Some(0x25)
    } else if upper_equals(key, "UP"@) || upper_equals(key, "UPARROW"@) {
        Some(0x26)
    } else if upper_equals(key, "RIGHT"@) || upper_equals(key, "RIGHTARROW"@) {
        Some(0x27)
    } else if upper_equals(key, "DOWN"@) || upper_equals(key, "DOWNARROW"@) {
        Some(0x28)
    } else if upper_equals(key, "SHIFT"@) {
        Some(0x10)
    } else if upper_equals(key, "CTRL"@) || upper_equals(key, "CONTROL"@) {
        Some(0x11)
    } else if upper_equals(key, "ALT"@) {
        Some(0x12)
    } else if upper_equals(key, "CAPSLOCK"@) || upper_equals(key, "CAPS"@) {
        Some(0x14)
    } else if upper_equals(key, "F1"@) {
        Some(0x70)
    } else if upper_equals(key, "F2"@) {
        Some(0x71)
    } else if upper_equals(key, "F3"@) {
        Some(0x72)
    } else if upper_equals(key, "F4"@) {
        Some(0x73)
    } else if upper_equals(key, "F5"@) {
        Some(0x74)
    } else if upper_equals(key, "F6"@) {
        Some(0x75)
    } else if upper_equals(key, "F7"@) {
        Some(0x76)
    } else if upper_equals(key, "F8"@) {
        Some(0x77)
    } else if upper_equals(key, "F9"@) {
        Some(0x78)
    } else if upper_equals(key, "F10"@) {
        Some(0x79)
    } else if upper_equals(key, "F11"@) {
        Some(0x7A)
    } else if upper_equals(key, "F12"@) {
        Some(0x7B)
    } else {
        None
    }
}

/// The virtual-key code of a trimmed key name: a single ASCII letter or
/// digit stands for itself (upper-cased), anything else must be a known name.
pub open spec fn key_code(key: Seq<char>) -> Option<u16> {
    if key.len() == 1 && is_ascii_alphanumeric(key[0]) {
        Some(ascii_upper_code(key[0]) as u16)
    } else {
        named_key_code(key)
    }
}

/// What parsing the key name `raw` gives.
pub open spec fn key_result(raw: Seq<char>) -> Result<VirtualKey, Seq<char>> {
    let key = trim(raw);
    if key.len() == 0 {
        Err("keyboard key is required"@)
    } else {
        match key_code(key) {
            Some(code) => Ok(VirtualKey(code)),
            None => Err("unsupported keyboard key: "@ + key),
        }
    }
}

/// What building a configuration from these settings gives: the mouse
/// interval is checked first, then the key, then the keyboard interval.
pub open spec fn config_result(
    mouse_button: MouseButton,
    mouse_interval_ms: u64,
    keyboard_key_name: Seq<char>,
    keyboard_interval_ms: u64,
) -> Result<ClickerConfig, Seq<char>> {
    if mouse_interval_ms < MIN_INTERVAL_MS {
        Err(interval_error("mouse interval"@))
    } else {
        match key_result(keyboard_key_name) {
            Err(e) => Err(e),
            Ok(key) => if keyboard_interval_ms < MIN_INTERVAL_MS {
                Err(interval_error("keyboard interval"@))
            } else {
                Ok(
                    ClickerConfig {
                        mouse_button,
                        mouse_interval_ms,
                        keyboard_key: key,
                        keyboard_interval_ms,
                    },
                )
            },
        }
    }
}

impl ClickerConfig {
    /// Both intervals are at least the minimum.
    pub open spec fn intervals_valid(self) -> bool {
        &&& self.mouse_interval_ms >= MIN_INTERVAL_MS
        &&& self.keyboard_interval_ms >= MIN_INTERVAL_MS
    }

    /// Builds a configuration, validating both intervals and parsing the
    /// key name.
    pub fn new(
        mouse_button: MouseButton,
        mouse_interval_ms: u64,
        keyboard_key_name: &str,
        keyboard_interval_ms: u64,
    ) -> (res: Result<Self, String>)
        ensures
            with_message(res) == config_result(
                mouse_button,
                mouse_interval_ms,
                keyboard_key_name@,
                keyboard_interval_ms,
            ),
    {
        let mouse_interval_ms = validate_named_interval_ms("mouse interval", mouse_interval_ms)?;
        let keyboard_key = parse_virtual_key(keyboard_key_name)?;
        let keyboard_interval_ms = validate_named_interval_ms(
            "keyboard interval",
            keyboard_interval_ms,
        )?;
        Ok(Self { mouse_button, mouse_interval_ms, keyboard_key, keyboard_interval_ms })
    }
}

/// Validates a named interval: `Ok` with the same value exactly when it is
/// at least `MIN_INTERVAL_MS`.
fn validate_named_interval_ms(name: &str, interval_ms: u64) -> (res: Result<u64, String>)
    ensures
        with_message(res) == named_interval_result(name@, interval_ms),
{
    if interval_ms < MIN_INTERVAL_MS {
        return Err(String::from_str(name).concat(" must be at least 25 ms"));
    }
    Ok(interval_ms)
}

/// Validates a repeat interval in milliseconds.
pub fn validate_interval_ms(interval_ms: u64) -> (res: Result<u64, String>)
    ensures
        with_message(res) == named_interval_result("interval"@, interval_ms),
{
    validate_named_interval_ms("interval", interval_ms)
}

/// Looks up a named key in upper-cased `chars`.
fn lookup_named_key(chars: &Vec<char>) -> (code: Option<u16>)
    ensures
        code == named_key_code(chars@),
{
    if upper_equals_str(chars, "SPACE") {
        Some(0x20)
    } else if upper_equals_str(chars, "ENTER") || upper_equals_str(chars, "RETURN") {
        Some(0x0D)
    } else if upper_equals_str(chars, "ESC") || upper_equals_str(chars, "ESCAPE") {
        Some(0x1B)
    } else if upper_equals_str(chars, "TAB") {
        Some(0x09)
    } else if upper_equals_str(chars, "BACKSPACE") || upper_equals_str(chars, "BKSP") {
        Some(0x08)
    } else if upper_equals_str(chars, "LEFT") || upper_equals_str(chars, "LEFTARROW") {
        Some(0x25)
    } else if upper_equals_str(chars, "UP") || upper_equals_str(chars, "UPARROW") {
        Some(0x26)
    } else if upper_equals_str(chars, "RIGHT") || upper_equals_str(chars, "RIGHTARROW") {
        Some(0x27)
    } else if upper_equals_str(chars, "DOWN") || upper_equals_str(chars, "DOWNARROW") {
        Some(0x28)
    } else if upper_equals_str(chars, "SHIFT") {
        Some(0x10)
    } else if upper_equals_str(chars, "CTRL") || upper_equals_str(chars, "CONTROL") {
        Some(0x11)
    } else if upper_equals_str(chars, "ALT") {
        Some(0x12)
    } else if upper_equals_str(chars, "CAPSLOCK") || upper_equals_str(chars, "CAPS") {
        Some(0x14)
    } else if upper_equals_str(chars, "F1") {
        Some(0x70)
    } else if upper_equals_str(chars, "F2") {
        Some(0x71)
    } else if upper_equals_str(chars, "F3") {
        Some(0x72)
    } else if upper_equals_str(chars, "F4") {
        Some(0x73)
    } else if upper_equals_str(chars, "F5") {
        Some(0x74)
    } else if upper_equals_str(chars, "F6") {
        Some(0x75)
    } else if upper_equals_str(chars, "F7") {
        Some(0x76)
    } else if upper_equals_str(chars, "F8") {
        Some(0x77)
    } else if upper_equals_str(chars, "F9") {
        Some(0x78)
    } else if upper_equals_str(chars, "F10") {
        Some(0x79)
    } else if upper_equals_str(chars, "F11") {
        Some(0x7A)
    } else if upper_equals_str(chars, "F12") {
        Some(0x7B)
    } else {
        None
    }
}

/// Parses a key name: surrounding white space is ignored, a single letter
/// or digit stands for its own key, and the named keys (`Space`, `Enter`,
/// `Esc`, `Tab`, arrows, `F1` to `F12`, ...) match in any ASCII case.
pub fn parse_virtual_key(raw: &str) -> (res: Result<VirtualKey, String>)
    ensures
        with_message(res) == key_result(raw@),
{
    let key = trim_str(raw);
    let chars = chars_of(key);
    if chars.len() == 0 {
        return Err(String::from_str("keyboard key is required"));
    }
    if chars.len() == 1 {
        let n = chars[0] as u32;
        if (0x30 <= n && n <= 0x39) || (0x61 <= n && n <= 0x7A) || (0x41 <= n && n <= 0x5A) {
            let code: u32 = if 0x61 <= n && n <= 0x7A {
                n - 32
            } else {
                n
            };
            return Ok(VirtualKey(code as u16));
        }
    }
    match lookup_named_key(&chars) {
        Some(code) => Ok(VirtualKey(code)),
        None => Err(String::from_str("unsupported keyboard key: ").concat(key)),
    }
}

/// What converting a speed in clicks per second to an interval gives.
pub open spec fn speed_result(clicks_per_second: u64) -> Result<u64, Seq<char>> {
    if 1 <= clicks_per_second <= MAX_CLICKS_PER_SECOND {
        Ok(1000u64 / clicks_per_second)
    } else {
        Err("clicks per second must be between 1 and 40"@)
    }
}

/// Converts a speed in clicks per second (1 to 40) to the repeat interval in
/// whole milliseconds, rounded down.
pub fn interval_from_clicks_per_second(clicks_per_second: u64) -> (res: Result<u64, String>)
    ensures
        with_message(res) == speed_result(clicks_per_second),
{
    if clicks_per_second < 1 || clicks_per_second > MAX_CLICKS_PER_SECOND {
        return Err(String::from_str("clicks per second must be between 1 and 40"));
    }
    Ok(1000 / clicks_per_second)
}

/// The speeds offered for both clickers.
#[derive(Debug, Clone, Copy, PartialEq, Eq, Structural)]
pub enum SpeedPreset {
    OnePerSecond,
    TwoPerSecond,
    FivePerSecond,
    TenPerSecond,
    TwentyPerSecond,
    ThirtyPerSecond,
}

/// The presets in the order in which they are offered.
pub open spec fn preset_order() -> Seq<SpeedPreset> {
    seq![
        SpeedPreset::OnePerSecond,
        SpeedPreset::TwoPerSecond,
        SpeedPreset::FivePerSecond,
        SpeedPreset::TenPerSecond,
        SpeedPreset::TwentyPerSecond,
        SpeedPreset::ThirtyPerSecond,
    ]
}

impl SpeedPreset {
    /// The speed of a preset, in clicks per second.
    pub open spec fn spec_clicks_per_second(self) -> u64 {
        match self {
            SpeedPreset::OnePerSecond => 1,
            SpeedPreset::TwoPerSecond => 2,
            SpeedPreset::FivePerSecond => 5,
            SpeedPreset::TenPerSecond => 10,
            SpeedPreset::TwentyPerSecond => 20,
            SpeedPreset::ThirtyPerSecond => 30,
        }
    }

    /// The English label of a preset.
    pub open spec fn spec_label_en(self) -> Seq<char> {
        match self {
            SpeedPreset::OnePerSecond => "1 / sec"@,
            SpeedPreset::TwoPerSecond => "2 / sec"@,
            SpeedPreset::FivePerSecond => "5 / sec"@,
            SpeedPreset::TenPerSecond => "10 / sec"@,
            SpeedPreset::TwentyPerSecond => "20 / sec"@,
            SpeedPreset::ThirtyPerSecond => "30 / sec"@,
        }
    }

    /// The Chinese label of a preset.
    pub open spec fn spec_label_zh(self) -> Seq<char> {
        match self {
            SpeedPreset::OnePerSecond => "每秒 1 次"@,
            SpeedPreset::TwoPerSecond => "每秒 2 次"@,
            SpeedPreset::FivePerSecond => "每秒 5 次"@,
            SpeedPreset::TenPerSecond => "每秒 10 次"@,
            SpeedPreset::TwentyPerSecond => "每秒 20 次"@,
            SpeedPreset::ThirtyPerSecond => "每秒 30 次"@,
        }
    }

    /// All presets, slowest first.
    pub fn all() -> (presets: [SpeedPreset; 6])
        ensures
            presets@ == preset_order(),
    {
        let presets = [
            SpeedPreset::OnePerSecond,
            SpeedPreset::TwoPerSecond,
            SpeedPreset::FivePerSecond,
            SpeedPreset::TenPerSecond,
            SpeedPreset::TwentyPerSecond,
            SpeedPreset::ThirtyPerSecond,
        ];
        assert(presets@ =~= preset_order());
        presets
    }

    /// The preset at `index` in the offered order, if there is one.
    pub fn from_index(index: usize) -> (preset: Option<SpeedPreset>)
        ensures
            index < 6 ==> preset == Some(preset_order()[index as int]),
            index >= 6 ==> preset is None,
    {
        match index {
            0 => Some(SpeedPreset::OnePerSecond),
            1 => Some(SpeedPreset::TwoPerSecond),
            2 => Some(SpeedPreset::FivePerSecond),
            3 => Some(SpeedPreset::TenPerSecond),
            4 => Some(SpeedPreset::TwentyPerSecond),
            5 => Some(SpeedPreset::ThirtyPerSecond),
            _ => None,
        }
    }

    /// The speed of this preset, in clicks per second.
    pub fn clicks_per_second(self) -> (cps: u64)
        ensures
            cps == self.spec_clicks_per_second(),
    {
        match self {
            SpeedPreset::OnePerSecond => 1,
            SpeedPreset::TwoPerSecond => 2,
            SpeedPreset::FivePerSecond => 5,
            SpeedPreset::TenPerSecond => 10,
            SpeedPreset::TwentyPerSecond => 20,
            SpeedPreset::ThirtyPerSecond => 30,
        }
    }

    /// The repeat interval of this preset, in milliseconds: what
    /// `interval_from_clicks_per_second` gives for its speed.
    pub fn interval_ms(self) -> (ms: u64)
        ensures
            Ok::<u64, Seq<char>>(ms) == speed_result(self.spec_clicks_per_second()),
    {
        1000 / self.clicks_per_second()
    }

    /// The English label of this preset, such as `10 / sec`.
    pub fn label_en(self) -> (label: &'static str)
        ensures
            label@ == self.spec_label_en(),
    {
        match self {
            SpeedPreset::OnePerSecond => "1 / sec",
            SpeedPreset::TwoPerSecond => "2 / sec",
            SpeedPreset::FivePerSecond => "5 / sec",
            SpeedPreset::TenPerSecond => "10 / sec",
            SpeedPreset::TwentyPerSecond => "20 / sec",
            SpeedPreset::ThirtyPerSecond => "30 / sec",
        }
    }

    /// The Chinese label of this preset, such as `每秒 10 次`.
    pub fn label_zh(self) -> (label: &'static str)
        ensures
            label@ == self.spec_label_zh(),
    {
        match self {
            SpeedPreset::OnePerSecond => "每秒 1 次",
            SpeedPreset::TwoPerSecond => "每秒 2 次",
            SpeedPreset::FivePerSecond => "每秒 5 次",
            SpeedPreset::TenPerSecond => "每秒 10 次",
            SpeedPreset::TwentyPerSecond => "每秒 20 次",
            SpeedPreset::ThirtyPerSecond => "每秒 30 次",
        }
    }
}

} // verus!

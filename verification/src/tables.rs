use vstd::prelude::*;

use crate::config::{is_ascii_alphanumeric, key_result, named_key_code, VirtualKey};
use crate::text::{ascii_upper_code, trim, upper_equals};
use crate::input::scancode_of;
use crate::laws::lemma_name_parses;

verus! {

/// The key names, written in upper case, and the virtual-key code each one
/// stands for; a key with two names is listed under both.
pub open spec fn key_name_table() -> Seq<(Seq<char>, u16)> {
    seq![
        ("SPACE"@, 0x20u16),
        ("ENTER"@, 0x0Du16),
        ("RETURN"@, 0x0Du16),
        ("ESC"@, 0x1Bu16),
        ("ESCAPE"@, 0x1Bu16),
        ("TAB"@, 0x09u16),
        ("BACKSPACE"@, 0x08u16),
        ("BKSP"@, 0x08u16),
        ("LEFT"@, 0x25u16),
        ("LEFTARROW"@, 0x25u16),
        ("UP"@, 0x26u16),
        ("UPARROW"@, 0x26u16),
        ("RIGHT"@, 0x27u16),
        ("RIGHTARROW"@, 0x27u16),
        ("DOWN"@, 0x28u16),
        ("DOWNARROW"@, 0x28u16),
        ("SHIFT"@, 0x10u16),
        ("CTRL"@, 0x11u16),
        ("CONTROL"@, 0x11u16),
        ("ALT"@, 0x12u16),
        ("CAPSLOCK"@, 0x14u16),
        ("CAPS"@, 0x14u16),
        ("F1"@, 0x70u16),
        ("F2"@, 0x71u16),
        ("F3"@, 0x72u16),
        ("F4"@, 0x73u16),
        ("F5"@, 0x74u16),
        ("F6"@, 0x75u16),
        ("F7"@, 0x76u16),
        ("F8"@, 0x77u16),
        ("F9"@, 0x78u16),
        ("F10"@, 0x79u16),
        ("F11"@, 0x7Au16),
        ("F12"@, 0x7Bu16),
    ]
}

/// Every name in the key-name table parses to the key the table gives it.
#[verifier::rlimit(100)]
pub proof fn lemma_key_name_table_parses(i: int)
    requires
        0 <= i < key_name_table().len(),
    ensures
        key_result(key_name_table()[i].0) == Ok::<VirtualKey, Seq<char>>(
            VirtualKey(key_name_table()[i].1),
        ),
{
    if i == 0 {
        reveal_strlit("SPACE");
        lemma_name_parses("SPACE"@);
    } else if i == 1 {
        reveal_strlit("SPACE");
        reveal_strlit("ENTER");
        lemma_name_parses("ENTER"@);
    } else if i == 2 {
        reveal_strlit("SPACE");
        reveal_strlit("ENTER");
        reveal_strlit("RETURN");
        lemma_name_parses("RETURN"@);
    } else if i == 3 {
        reveal_strlit("SPACE");
        reveal_strlit("ENTER");
        reveal_strlit("RETURN");
        reveal_strlit("ESC");
        lemma_name_parses("ESC"@);
    } else if i == 4 {
        reveal_strlit("SPACE");
        reveal_strlit("ENTER");
        reveal_strlit("RETURN");
        reveal_strlit("ESC");
        reveal_strlit("ESCAPE");
        lemma_name_parses("ESCAPE"@);
    } else if i == 5 {
        reveal_strlit("SPACE");
        reveal_strlit("ENTER");
        reveal_strlit("RETURN");
        reveal_strlit("ESC");
        reveal_strlit("ESCAPE");
        reveal_strlit("TAB");
        lemma_name_parses("TAB"@);
    } else if i == 6 {
        reveal_strlit("SPACE");
        reveal_strlit("ENTER");
        reveal_strlit("RETURN");
        reveal_strlit("ESC");
        reveal_strlit("ESCAPE");
        reveal_strlit("TAB");
        reveal_strlit("BACKSPACE");
        lemma_name_parses("BACKSPACE"@);
    } else if i == 7 {
        reveal_strlit("SPACE");
        reveal_strlit("ENTER");
        reveal_strlit("RETURN");
        reveal_strlit("ESC");
        reveal_strlit("ESCAPE");
        reveal_strlit("TAB");
        reveal_strlit("BACKSPACE");
        reveal_strlit("BKSP");
        lemma_name_parses("BKSP"@);
    } else if i == 8 {
        reveal_strlit("SPACE");
        reveal_strlit("ENTER");
        reveal_strlit("RETURN");
        reveal_strlit("ESC");
        reveal_strlit("ESCAPE");
        reveal_strlit("TAB");
        reveal_strlit("BACKSPACE");
        reveal_strlit("BKSP");
        reveal_strlit("LEFT");
        lemma_name_parses("LEFT"@);
    } else if i == 9 {
        reveal_strlit("SPACE");
        reveal_strlit("ENTER");
        reveal_strlit("RETURN");
        reveal_strlit("ESC");
        reveal_strlit("ESCAPE");
        reveal_strlit("TAB");
        reveal_strlit("BACKSPACE");
        reveal_strlit("BKSP");
        reveal_strlit("LEFT");
        reveal_strlit("LEFTARROW");
        lemma_name_parses("LEFTARROW"@);
    } else if i == 10 {
        reveal_strlit("SPACE");
        reveal_strlit("ENTER");
        reveal_strlit("RETURN");
        reveal_strlit("ESC");
        reveal_strlit("ESCAPE");
        reveal_strlit("TAB");
        reveal_strlit("BACKSPACE");
        reveal_strlit("BKSP");
        reveal_strlit("LEFT");
        reveal_strlit("LEFTARROW");
        reveal_strlit("UP");
        lemma_name_parses("UP"@);
    } else if i == 11 {
        reveal_strlit("SPACE");
        reveal_strlit("ENTER");
        reveal_strlit("RETURN");
        reveal_strlit("ESC");
        reveal_strlit("ESCAPE");
        reveal_strlit("TAB");
        reveal_strlit("BACKSPACE");
        reveal_strlit("BKSP");
        reveal_strlit("LEFT");
        reveal_strlit("LEFTARROW");
        reveal_strlit("UP");
        reveal_strlit("UPARROW");
        lemma_name_parses("UPARROW"@);
    } else if i == 12 {
        reveal_strlit("SPACE");
        reveal_strlit("ENTER");
        reveal_strlit("RETURN");
        reveal_strlit("ESC");
        reveal_strlit("ESCAPE");
        reveal_strlit("TAB");
        reveal_strlit("BACKSPACE");
        reveal_strlit("BKSP");
        reveal_strlit("LEFT");
        reveal_strlit("LEFTARROW");
        reveal_strlit("UP");
        reveal_strlit("UPARROW");
        reveal_strlit("RIGHT");
        lemma_name_parses("RIGHT"@);
    } else if i == 13 {
        reveal_strlit("SPACE");
        reveal_strlit("ENTER");
        reveal_strlit("RETURN");
        reveal_strlit("ESC");
        reveal_strlit("ESCAPE");
        reveal_strlit("TAB");
        reveal_strlit("BACKSPACE");
        reveal_strlit("BKSP");
        reveal_strlit("LEFT");
        reveal_strlit("LEFTARROW");
        reveal_strlit("UP");
        reveal_strlit("UPARROW");
        reveal_strlit("RIGHT");
        reveal_strlit("RIGHTARROW");
        lemma_name_parses("RIGHTARROW"@);
    } else if i == 14 {
        reveal_strlit("SPACE");
        reveal_strlit("ENTER");
        reveal_strlit("RETURN");
        reveal_strlit("ESC");
        reveal_strlit("ESCAPE");
        reveal_strlit("TAB");
        reveal_strlit("BACKSPACE");
        reveal_strlit("BKSP");
        reveal_strlit("LEFT");
        reveal_strlit("LEFTARROW");
        reveal_strlit("UP");
        reveal_strlit("UPARROW");
        reveal_strlit("RIGHT");
        reveal_strlit("RIGHTARROW");
        reveal_strlit("DOWN");
        lemma_name_parses("DOWN"@);
    } else if i == 15 {
        reveal_strlit("SPACE");
        reveal_strlit("ENTER");
        reveal_strlit("RETURN");
        reveal_strlit("ESC");
        reveal_strlit("ESCAPE");
        reveal_strlit("TAB");
        reveal_strlit("BACKSPACE");
        reveal_strlit("BKSP");
        reveal_strlit("LEFT");
        reveal_strlit("LEFTARROW");
        reveal_strlit("UP");
        reveal_strlit("UPARROW");
        reveal_strlit("RIGHT");
        reveal_strlit("RIGHTARROW");
        reveal_strlit("DOWN");
        reveal_strlit("DOWNARROW");
        lemma_name_parses("DOWNARROW"@);
    } else if i == 16 {
        reveal_strlit("SPACE");
        reveal_strlit("ENTER");
        reveal_strlit("RETURN");
        reveal_strlit("ESC");
        reveal_strlit("ESCAPE");
        reveal_strlit("TAB");
        reveal_strlit("BACKSPACE");
        reveal_strlit("BKSP");
        reveal_strlit("LEFT");
        reveal_strlit("LEFTARROW");
        reveal_strlit("UP");
        reveal_strlit("UPARROW");
        reveal_strlit("RIGHT");
        reveal_strlit("RIGHTARROW");
        reveal_strlit("DOWN");
        reveal_strlit("DOWNARROW");
        reveal_strlit("SHIFT");
        lemma_name_parses("SHIFT"@);
    } else if i == 17 {
        reveal_strlit("SPACE");
        reveal_strlit("ENTER");
        reveal_strlit("RETURN");
        reveal_strlit("ESC");
        reveal_strlit("ESCAPE");
        reveal_strlit("TAB");
        reveal_strlit("BACKSPACE");
        reveal_strlit("BKSP");
        reveal_strlit("LEFT");
        reveal_strlit("LEFTARROW");
        reveal_strlit("UP");
        reveal_strlit("UPARROW");
        reveal_strlit("RIGHT");
        reveal_strlit("RIGHTARROW");
        reveal_strlit("DOWN");
        reveal_strlit("DOWNARROW");
        reveal_strlit("SHIFT");
        reveal_strlit("CTRL");
        lemma_name_parses("CTRL"@);
    } else if i == 18 {
        reveal_strlit("SPACE");
        reveal_strlit("ENTER");
        reveal_strlit("RETURN");
        reveal_strlit("ESC");
        reveal_strlit("ESCAPE");
        reveal_strlit("TAB");
        reveal_strlit("BACKSPACE");
        reveal_strlit("BKSP");
        reveal_strlit("LEFT");
        reveal_strlit("LEFTARROW");
        reveal_strlit("UP");
        reveal_strlit("UPARROW");
        reveal_strlit("RIGHT");
        reveal_strlit("RIGHTARROW");
        reveal_strlit("DOWN");
        reveal_strlit("DOWNARROW");
        reveal_strlit("SHIFT");
        reveal_strlit("CTRL");
        reveal_strlit("CONTROL");
        lemma_name_parses("CONTROL"@);
    } else if i == 19 {
        reveal_strlit("SPACE");
        reveal_strlit("ENTER");
        reveal_strlit("RETURN");
        reveal_strlit("ESC");
        reveal_strlit("ESCAPE");
        reveal_strlit("TAB");
        reveal_strlit("BACKSPACE");
        reveal_strlit("BKSP");
        reveal_strlit("LEFT");
        reveal_strlit("LEFTARROW");
        reveal_strlit("UP");
        reveal_strlit("UPARROW");
        reveal_strlit("RIGHT");
        reveal_strlit("RIGHTARROW");
        reveal_strlit("DOWN");
        reveal_strlit("DOWNARROW");
        reveal_strlit("SHIFT");
        reveal_strlit("CTRL");
        reveal_strlit("CONTROL");
        reveal_strlit("ALT");
        lemma_name_parses("ALT"@);
    } else if i == 20 {
        reveal_strlit("SPACE");
        reveal_strlit("ENTER");
        reveal_strlit("RETURN");
        reveal_strlit("ESC");
        reveal_strlit("ESCAPE");
        reveal_strlit("TAB");
        reveal_strlit("BACKSPACE");
        reveal_strlit("BKSP");
        reveal_strlit("LEFT");
        reveal_strlit("LEFTARROW");
        reveal_strlit("UP");
        reveal_strlit("UPARROW");
        reveal_strlit("RIGHT");
        reveal_strlit("RIGHTARROW");
        reveal_strlit("DOWN");
        reveal_strlit("DOWNARROW");
        reveal_strlit("SHIFT");
        reveal_strlit("CTRL");
        reveal_strlit("CONTROL");
        reveal_strlit("ALT");
        reveal_strlit("CAPSLOCK");
        lemma_name_parses("CAPSLOCK"@);
    } else if i == 21 {
        reveal_strlit("SPACE");
        reveal_strlit("ENTER");
        reveal_strlit("RETURN");
        reveal_strlit("ESC");
        reveal_strlit("ESCAPE");
        reveal_strlit("TAB");
        reveal_strlit("BACKSPACE");
        reveal_strlit("BKSP");
        reveal_strlit("LEFT");
        reveal_strlit("LEFTARROW");
        reveal_strlit("UP");
        reveal_strlit("UPARROW");
        reveal_strlit("RIGHT");
        reveal_strlit("RIGHTARROW");
        reveal_strlit("DOWN");
        reveal_strlit("DOWNARROW");
        reveal_strlit("SHIFT");
        reveal_strlit("CTRL");
        reveal_strlit("CONTROL");
        reveal_strlit("ALT");
        reveal_strlit("CAPSLOCK");
        reveal_strlit("CAPS");
        lemma_name_parses("CAPS"@);
    } else if i == 22 {
        reveal_strlit("SPACE");
        reveal_strlit("ENTER");
        reveal_strlit("RETURN");
        reveal_strlit("ESC");
        reveal_strlit("ESCAPE");
        reveal_strlit("TAB");
        reveal_strlit("BACKSPACE");
        reveal_strlit("BKSP");
        reveal_strlit("LEFT");
        reveal_strlit("LEFTARROW");
        reveal_strlit("UP");
        reveal_strlit("UPARROW");
        reveal_strlit("RIGHT");
        reveal_strlit("RIGHTARROW");
        reveal_strlit("DOWN");
        reveal_strlit("DOWNARROW");
        reveal_strlit("SHIFT");
        reveal_strlit("CTRL");
        reveal_strlit("CONTROL");
        reveal_strlit("ALT");
        reveal_strlit("CAPSLOCK");
        reveal_strlit("CAPS");
        reveal_strlit("F1");
        lemma_name_parses("F1"@);
    } else if i == 23 {
        reveal_strlit("SPACE");
        reveal_strlit("ENTER");
        reveal_strlit("RETURN");
        reveal_strlit("ESC");
        reveal_strlit("ESCAPE");
        reveal_strlit("TAB");
        reveal_strlit("BACKSPACE");
        reveal_strlit("BKSP");
        reveal_strlit("LEFT");
        reveal_strlit("LEFTARROW");
        reveal_strlit("UP");
        reveal_strlit("UPARROW");
        reveal_strlit("RIGHT");
        reveal_strlit("RIGHTARROW");
        reveal_strlit("DOWN");
        reveal_strlit("DOWNARROW");
        reveal_strlit("SHIFT");
        reveal_strlit("CTRL");
        reveal_strlit("CONTROL");
        reveal_strlit("ALT");
        reveal_strlit("CAPSLOCK");
        reveal_strlit("CAPS");
        reveal_strlit("F1");
        reveal_strlit("F2");
        lemma_name_parses("F2"@);
    } else if i == 24 {
        reveal_strlit("SPACE");
        reveal_strlit("ENTER");
        reveal_strlit("RETURN");
        reveal_strlit("ESC");
        reveal_strlit("ESCAPE");
        reveal_strlit("TAB");
        reveal_strlit("BACKSPACE");
        reveal_strlit("BKSP");
        reveal_strlit("LEFT");
        reveal_strlit("LEFTARROW");
        reveal_strlit("UP");
        reveal_strlit("UPARROW");
        reveal_strlit("RIGHT");
        reveal_strlit("RIGHTARROW");
        reveal_strlit("DOWN");
        reveal_strlit("DOWNARROW");
        reveal_strlit("SHIFT");
        reveal_strlit("CTRL");
        reveal_strlit("CONTROL");
        reveal_strlit("ALT");
        reveal_strlit("CAPSLOCK");
        reveal_strlit("CAPS");
        reveal_strlit("F1");
        reveal_strlit("F2");
        reveal_strlit("F3");
        lemma_name_parses("F3"@);
    } else if i == 25 {
        reveal_strlit("SPACE");
        reveal_strlit("ENTER");
        reveal_strlit("RETURN");
        reveal_strlit("ESC");
        reveal_strlit("ESCAPE");
        reveal_strlit("TAB");
        reveal_strlit("BACKSPACE");
        reveal_strlit("BKSP");
        reveal_strlit("LEFT");
        reveal_strlit("LEFTARROW");
        reveal_strlit("UP");
        reveal_strlit("UPARROW");
        reveal_strlit("RIGHT");
        reveal_strlit("RIGHTARROW");
        reveal_strlit("DOWN");
        reveal_strlit("DOWNARROW");
        reveal_strlit("SHIFT");
        reveal_strlit("CTRL");
        reveal_strlit("CONTROL");
        reveal_strlit("ALT");
        reveal_strlit("CAPSLOCK");
        reveal_strlit("CAPS");
        reveal_strlit("F1");
        reveal_strlit("F2");
        reveal_strlit("F3");
        reveal_strlit("F4");
        lemma_name_parses("F4"@);
    } else if i == 26 {
        reveal_strlit("SPACE");
        reveal_strlit("ENTER");
        reveal_strlit("RETURN");
        reveal_strlit("ESC");
        reveal_strlit("ESCAPE");
        reveal_strlit("TAB");
        reveal_strlit("BACKSPACE");
        reveal_strlit("BKSP");
        reveal_strlit("LEFT");
        reveal_strlit("LEFTARROW");
        reveal_strlit("UP");
        reveal_strlit("UPARROW");
        reveal_strlit("RIGHT");
        reveal_strlit("RIGHTARROW");
        reveal_strlit("DOWN");
        reveal_strlit("DOWNARROW");
        reveal_strlit("SHIFT");
        reveal_strlit("CTRL");
        reveal_strlit("CONTROL");
        reveal_strlit("ALT");
        reveal_strlit("CAPSLOCK");
        reveal_strlit("CAPS");
        reveal_strlit("F1");
        reveal_strlit("F2");
        reveal_strlit("F3");
        reveal_strlit("F4");
        reveal_strlit("F5");
        lemma_name_parses("F5"@);
    } else if i == 27 {
        reveal_strlit("SPACE");
        reveal_strlit("ENTER");
        reveal_strlit("RETURN");
        reveal_strlit("ESC");
        reveal_strlit("ESCAPE");
        reveal_strlit("TAB");
        reveal_strlit("BACKSPACE");
        reveal_strlit("BKSP");
        reveal_strlit("LEFT");
        reveal_strlit("LEFTARROW");
        reveal_strlit("UP");
        reveal_strlit("UPARROW");
        reveal_strlit("RIGHT");
        reveal_strlit("RIGHTARROW");
        reveal_strlit("DOWN");
        reveal_strlit("DOWNARROW");
        reveal_strlit("SHIFT");
        reveal_strlit("CTRL");
        reveal_strlit("CONTROL");
        reveal_strlit("ALT");
        reveal_strlit("CAPSLOCK");
        reveal_strlit("CAPS");
        reveal_strlit("F1");
        reveal_strlit("F2");
        reveal_strlit("F3");
        reveal_strlit("F4");
        reveal_strlit("F5");
        reveal_strlit("F6");
        lemma_name_parses("F6"@);
    } else if i == 28 {
        reveal_strlit("SPACE");
        reveal_strlit("ENTER");
        reveal_strlit("RETURN");
        reveal_strlit("ESC");
        reveal_strlit("ESCAPE");
        reveal_strlit("TAB");
        reveal_strlit("BACKSPACE");
        reveal_strlit("BKSP");
        reveal_strlit("LEFT");
        reveal_strlit("LEFTARROW");
        reveal_strlit("UP");
        reveal_strlit("UPARROW");
        reveal_strlit("RIGHT");
        reveal_strlit("RIGHTARROW");
        reveal_strlit("DOWN");
        reveal_strlit("DOWNARROW");
        reveal_strlit("SHIFT");
        reveal_strlit("CTRL");
        reveal_strlit("CONTROL");
        reveal_strlit("ALT");
        reveal_strlit("CAPSLOCK");
        reveal_strlit("CAPS");
        reveal_strlit("F1");
        reveal_strlit("F2");
        reveal_strlit("F3");
        reveal_strlit("F4");
        reveal_strlit("F5");
        reveal_strlit("F6");
        reveal_strlit("F7");
        lemma_name_parses("F7"@);
    } else if i == 29 {
        reveal_strlit("SPACE");
        reveal_strlit("ENTER");
        reveal_strlit("RETURN");
        reveal_strlit("ESC");
        reveal_strlit("ESCAPE");
        reveal_strlit("TAB");
        reveal_strlit("BACKSPACE");
        reveal_strlit("BKSP");
        reveal_strlit("LEFT");
        reveal_strlit("LEFTARROW");
        reveal_strlit("UP");
        reveal_strlit("UPARROW");
        reveal_strlit("RIGHT");
        reveal_strlit("RIGHTARROW");
        reveal_strlit("DOWN");
        reveal_strlit("DOWNARROW");
        reveal_strlit("SHIFT");
        reveal_strlit("CTRL");
        reveal_strlit("CONTROL");
        reveal_strlit("ALT");
        reveal_strlit("CAPSLOCK");
        reveal_strlit("CAPS");
        reveal_strlit("F1");
        reveal_strlit("F2");
        reveal_strlit("F3");
        reveal_strlit("F4");
        reveal_strlit("F5");
        reveal_strlit("F6");
        reveal_strlit("F7");
        reveal_strlit("F8");
        lemma_name_parses("F8"@);
    } else if i == 30 {
        reveal_strlit("SPACE");
        reveal_strlit("ENTER");
        reveal_strlit("RETURN");
        reveal_strlit("ESC");
        reveal_strlit("ESCAPE");
        reveal_strlit("TAB");
        reveal_strlit("BACKSPACE");
        reveal_strlit("BKSP");
        reveal_strlit("LEFT");
        reveal_strlit("LEFTARROW");
        reveal_strlit("UP");
        reveal_strlit("UPARROW");
        reveal_strlit("RIGHT");
        reveal_strlit("RIGHTARROW");
        reveal_strlit("DOWN");
        reveal_strlit("DOWNARROW");
        reveal_strlit("SHIFT");
        reveal_strlit("CTRL");
        reveal_strlit("CONTROL");
        reveal_strlit("ALT");
        reveal_strlit("CAPSLOCK");
        reveal_strlit("CAPS");
        reveal_strlit("F1");
        reveal_strlit("F2");
        reveal_strlit("F3");
        reveal_strlit("F4");
        reveal_strlit("F5");
        reveal_strlit("F6");
        reveal_strlit("F7");
        reveal_strlit("F8");
        reveal_strlit("F9");
        lemma_name_parses("F9"@);
    } else if i == 31 {
        reveal_strlit("SPACE");
        reveal_strlit("ENTER");
        reveal_strlit("RETURN");
        reveal_strlit("ESC");
        reveal_strlit("ESCAPE");
        reveal_strlit("TAB");
        reveal_strlit("BACKSPACE");
        reveal_strlit("BKSP");
        reveal_strlit("LEFT");
        reveal_strlit("LEFTARROW");
        reveal_strlit("UP");
        reveal_strlit("UPARROW");
        reveal_strlit("RIGHT");
        reveal_strlit("RIGHTARROW");
        reveal_strlit("DOWN");
        reveal_strlit("DOWNARROW");
        reveal_strlit("SHIFT");
        reveal_strlit("CTRL");
        reveal_strlit("CONTROL");
        reveal_strlit("ALT");
        reveal_strlit("CAPSLOCK");
        reveal_strlit("CAPS");
        reveal_strlit("F1");
        reveal_strlit("F2");
        reveal_strlit("F3");
        reveal_strlit("F4");
        reveal_strlit("F5");
        reveal_strlit("F6");
        reveal_strlit("F7");
        reveal_strlit("F8");
        reveal_strlit("F9");
        reveal_strlit("F10");
        lemma_name_parses("F10"@);
    } else if i == 32 {
        reveal_strlit("SPACE");
        reveal_strlit("ENTER");
        reveal_strlit("RETURN");
        reveal_strlit("ESC");
        reveal_strlit("ESCAPE");
        reveal_strlit("TAB");
        reveal_strlit("BACKSPACE");
        reveal_strlit("BKSP");
        reveal_strlit("LEFT");
        reveal_strlit("LEFTARROW");
        reveal_strlit("UP");
        reveal_strlit("UPARROW");
        reveal_strlit("RIGHT");
        reveal_strlit("RIGHTARROW");
        reveal_strlit("DOWN");
        reveal_strlit("DOWNARROW");
        reveal_strlit("SHIFT");
        reveal_strlit("CTRL");
        reveal_strlit("CONTROL");
        reveal_strlit("ALT");
        reveal_strlit("CAPSLOCK");
        reveal_strlit("CAPS");
        reveal_strlit("F1");
        reveal_strlit("F2");
        reveal_strlit("F3");
        reveal_strlit("F4");
        reveal_strlit("F5");
        reveal_strlit("F6");
        reveal_strlit("F7");
        reveal_strlit("F8");
        reveal_strlit("F9");
        reveal_strlit("F10");
        reveal_strlit("F11");
        lemma_name_parses("F11"@);
    } else if i == 33 {
        reveal_strlit("SPACE");
        reveal_strlit("ENTER");
        reveal_strlit("RETURN");
        reveal_strlit("ESC");
        reveal_strlit("ESCAPE");
        reveal_strlit("TAB");
        reveal_strlit("BACKSPACE");
        reveal_strlit("BKSP");
        reveal_strlit("LEFT");
        reveal_strlit("LEFTARROW");
        reveal_strlit("UP");
        reveal_strlit("UPARROW");
        reveal_strlit("RIGHT");
        reveal_strlit("RIGHTARROW");
        reveal_strlit("DOWN");
        reveal_strlit("DOWNARROW");
        reveal_strlit("SHIFT");
        reveal_strlit("CTRL");
        reveal_strlit("CONTROL");
        reveal_strlit("ALT");
        reveal_strlit("CAPSLOCK");
        reveal_strlit("CAPS");
        reveal_strlit("F1");
        reveal_strlit("F2");
        reveal_strlit("F3");
        reveal_strlit("F4");
        reveal_strlit("F5");
        reveal_strlit("F6");
        reveal_strlit("F7");
        reveal_strlit("F8");
        reveal_strlit("F9");
        reveal_strlit("F10");
        reveal_strlit("F11");
        reveal_strlit("F12");
        lemma_name_parses("F12"@);
    }
}

/// A name that the name table of `parse_virtual_key` accepts is, up to
/// ASCII case, a name of the key-name table, and gets that entry's key.
proof fn lemma_named_codes_come_from_the_table(key: Seq<char>)
    ensures
        named_key_code(key) matches Some(code) ==> exists|i: int|
            0 <= i < key_name_table().len() && upper_equals(key, #[trigger] key_name_table()[i].0)
                && key_name_table()[i].1 == code,
{
    if upper_equals(key, "SPACE"@) {
        assert(key_name_table()[0] == ("SPACE"@, 0x20u16));
        assert(upper_equals(key, key_name_table()[0].0));
    } else if upper_equals(key, "ENTER"@) {
        assert(key_name_table()[1] == ("ENTER"@, 0x0Du16));
        assert(upper_equals(key, key_name_table()[1].0));
    } else if upper_equals(key, "RETURN"@) {
        assert(key_name_table()[2] == ("RETURN"@, 0x0Du16));
        assert(upper_equals(key, key_name_table()[2].0));
    } else if upper_equals(key, "ESC"@) {
        assert(key_name_table()[3] == ("ESC"@, 0x1Bu16));
        assert(upper_equals(key, key_name_table()[3].0));
    } else if upper_equals(key, "ESCAPE"@) {
        assert(key_name_table()[4] == ("ESCAPE"@, 0x1Bu16));
        assert(upper_equals(key, key_name_table()[4].0));
    } else if upper_equals(key, "TAB"@) {
        assert(key_name_table()[5] == ("TAB"@, 0x09u16));
        assert(upper_equals(key, key_name_table()[5].0));
    } else if upper_equals(key, "BACKSPACE"@) {
        assert(key_name_table()[6] == ("BACKSPACE"@, 0x08u16));
        assert(upper_equals(key, key_name_table()[6].0));
    } else if upper_equals(key, "BKSP"@) {
        assert(key_name_table()[7] == ("BKSP"@, 0x08u16));
        assert(upper_equals(key, key_name_table()[7].0));
    } else if upper_equals(key, "LEFT"@) {
        assert(key_name_table()[8] == ("LEFT"@, 0x25u16));
        assert(upper_equals(key, key_name_table()[8].0));
    } else if upper_equals(key, "LEFTARROW"@) {
        assert(key_name_table()[9] == ("LEFTARROW"@, 0x25u16));
        assert(upper_equals(key, key_name_table()[9].0));
    } else if upper_equals(key, "UP"@) {
        assert(key_name_table()[10] == ("UP"@, 0x26u16));
        assert(upper_equals(key, key_name_table()[10].0));
    } else if upper_equals(key, "UPARROW"@) {
        assert(key_name_table()[11] == ("UPARROW"@, 0x26u16));
        assert(upper_equals(key, key_name_table()[11].0));
    } else if upper_equals(key, "RIGHT"@) {
        assert(key_name_table()[12] == ("RIGHT"@, 0x27u16));
        assert(upper_equals(key, key_name_table()[12].0));
    } else if upper_equals(key, "RIGHTARROW"@) {
        assert(key_name_table()[13] == ("RIGHTARROW"@, 0x27u16));
        assert(upper_equals(key, key_name_table()[13].0));
    } else if upper_equals(key, "DOWN"@) {
        assert(key_name_table()[14] == ("DOWN"@, 0x28u16));
        assert(upper_equals(key, key_name_table()[14].0));
    } else if upper_equals(key, "DOWNARROW"@) {
        assert(key_name_table()[15] == ("DOWNARROW"@, 0x28u16));
        assert(upper_equals(key, key_name_table()[15].0));
    } else if upper_equals(key, "SHIFT"@) {
        assert(key_name_table()[16] == ("SHIFT"@, 0x10u16));
        assert(upper_equals(key, key_name_table()[16].0));
    } else if upper_equals(key, "CTRL"@) {
        assert(key_name_table()[17] == ("CTRL"@, 0x11u16));
        assert(upper_equals(key, key_name_table()[17].0));
    } else if upper_equals(key, "CONTROL"@) {
        assert(key_name_table()[18] == ("CONTROL"@, 0x11u16));
        assert(upper_equals(key, key_name_table()[18].0));
    } else if upper_equals(key, "ALT"@) {
        assert(key_name_table()[19] == ("ALT"@, 0x12u16));
        assert(upper_equals(key, key_name_table()[19].0));
    } else if upper_equals(key, "CAPSLOCK"@) {
        assert(key_name_table()[20] == ("CAPSLOCK"@, 0x14u16));
        assert(upper_equals(key, key_name_table()[20].0));
    } else if upper_equals(key, "CAPS"@) {
        assert(key_name_table()[21] == ("CAPS"@, 0x14u16));
        assert(upper_equals(key, key_name_table()[21].0));
    } else if upper_equals(key, "F1"@) {
        assert(key_name_table()[22] == ("F1"@, 0x70u16));
        assert(upper_equals(key, key_name_table()[22].0));
    } else if upper_equals(key, "F2"@) {
        assert(key_name_table()[23] == ("F2"@, 0x71u16));
        assert(upper_equals(key, key_name_table()[23].0));
    } else if upper_equals(key, "F3"@) {
        assert(key_name_table()[24] == ("F3"@, 0x72u16));
        assert(upper_equals(key, key_name_table()[24].0));
    } else if upper_equals(key, "F4"@) {
        assert(key_name_table()[25] == ("F4"@, 0x73u16));
        assert(upper_equals(key, key_name_table()[25].0));
    } else if upper_equals(key, "F5"@) {
        assert(key_name_table()[26] == ("F5"@, 0x74u16));
        assert(upper_equals(key, key_name_table()[26].0));
    } else if upper_equals(key, "F6"@) {
        assert(key_name_table()[27] == ("F6"@, 0x75u16));
        assert(upper_equals(key, key_name_table()[27].0));
    } else if upper_equals(key, "F7"@) {
        assert(key_name_table()[28] == ("F7"@, 0x76u16));
        assert(upper_equals(key, key_name_table()[28].0));
    } else if upper_equals(key, "F8"@) {
        assert(key_name_table()[29] == ("F8"@, 0x77u16));
        assert(upper_equals(key, key_name_table()[29].0));
    } else if upper_equals(key, "F9"@) {
        assert(key_name_table()[30] == ("F9"@, 0x78u16));
        assert(upper_equals(key, key_name_table()[30].0));
    } else if upper_equals(key, "F10"@) {
        assert(key_name_table()[31] == ("F10"@, 0x79u16));
        assert(upper_equals(key, key_name_table()[31].0));
    } else if upper_equals(key, "F11"@) {
        assert(key_name_table()[32] == ("F11"@, 0x7Au16));
        assert(upper_equals(key, key_name_table()[32].0));
    } else if upper_equals(key, "F12"@) {
        assert(key_name_table()[33] == ("F12"@, 0x7Bu16));
        assert(upper_equals(key, key_name_table()[33].0));
    }
}

/// Every key name that parses is either a single ASCII letter or digit,
/// which stands for the key of its upper-case character, or, up to ASCII
/// case, a name of the key-name table, which gives the entry's key.
pub proof fn lemma_accepted_names_come_from_the_table(raw: Seq<char>)
    ensures
        key_result(raw) matches Ok(key) ==> {
            let name = trim(raw);
            ||| name.len() == 1 && is_ascii_alphanumeric(name[0]) && key.0 == ascii_upper_code(name[0])
            ||| exists|i: int|
                0 <= i < key_name_table().len() && upper_equals(name, #[trigger] key_name_table()[i].0)
                    && key_name_table()[i].1 == key.0
        },
{
    lemma_named_codes_come_from_the_table(trim(raw));
}

/// Virtual-key codes and the set-1 make codes of the same keys on a
/// standard keyboard: Backspace, Tab, Enter, Shift, Ctrl, Alt, Caps Lock,
/// Esc, Space, the arrows, the digits, the letters and F1 to F12.
pub open spec fn scancode_table() -> Seq<(u16, u16)> {
    seq![
        (0x08u16, 0x0Eu16),
        (0x09u16, 0x0Fu16),
        (0x0Du16, 0x1Cu16),
        (0x10u16, 0x2Au16),
        (0x11u16, 0x1Du16),
        (0x12u16, 0x38u16),
        (0x14u16, 0x3Au16),
        (0x1Bu16, 0x01u16),
        (0x20u16, 0x39u16),
        (0x25u16, 0x4Bu16),
        (0x26u16, 0x48u16),
        (0x27u16, 0x4Du16),
        (0x28u16, 0x50u16),
        (0x30u16, 0x0Bu16),
        (0x31u16, 0x02u16),
        (0x32u16, 0x03u16),
        (0x33u16, 0x04u16),
        (0x34u16, 0x05u16),
        (0x35u16, 0x06u16),
        (0x36u16, 0x07u16),
        (0x37u16, 0x08u16),
        (0x38u16, 0x09u16),
        (0x39u16, 0x0Au16),
        (0x41u16, 0x1Eu16),
        (0x42u16, 0x30u16),
        (0x43u16, 0x2Eu16),
        (0x44u16, 0x20u16),
        (0x45u16, 0x12u16),
        (0x46u16, 0x21u16),
        (0x47u16, 0x22u16),
        (0x48u16, 0x23u16),
        (0x49u16, 0x17u16),
        (0x4Au16, 0x24u16),
        (0x4Bu16, 0x25u16),
        (0x4Cu16, 0x26u16),
        (0x4Du16, 0x32u16),
        (0x4Eu16, 0x31u16),
        (0x4Fu16, 0x18u16),
        (0x50u16, 0x19u16),
        (0x51u16, 0x10u16),
        (0x52u16, 0x13u16),
        (0x53u16, 0x1Fu16),
        (0x54u16, 0x14u16),
        (0x55u16, 0x16u16),
        (0x56u16, 0x2Fu16),
        (0x57u16, 0x11u16),
        (0x58u16, 0x2Du16),
        (0x59u16, 0x15u16),
        (0x5Au16, 0x2Cu16),
        (0x70u16, 0x3Bu16),
        (0x71u16, 0x3Cu16),
        (0x72u16, 0x3Du16),
        (0x73u16, 0x3Eu16),
        (0x74u16, 0x3Fu16),
        (0x75u16, 0x40u16),
        (0x76u16, 0x41u16),
        (0x77u16, 0x42u16),
        (0x78u16, 0x43u16),
        (0x79u16, 0x44u16),
        (0x7Au16, 0x57u16),
        (0x7Bu16, 0x58u16),
    ]
}

/// Every key of the scancode table gets the make code the table gives it.
#[verifier::rlimit(60)]
pub proof fn lemma_scancode_table_is_used(i: int)
    requires
        0 <= i < scancode_table().len(),
    ensures
        scancode_of(scancode_table()[i].0) == Some(scancode_table()[i].1),
{
}

/// Only the keys of the scancode table have a scancode.
#[verifier::rlimit(60)]
pub proof fn lemma_only_table_keys_have_scancodes(vk: u16)
    ensures
        scancode_of(vk) is Some ==> exists|i: int|
            0 <= i < scancode_table().len() && #[trigger] scancode_table()[i].0 == vk,
{
    if vk == 0x08 {
        assert(scancode_table()[0].0 == vk);
    } else if vk == 0x09 {
        assert(scancode_table()[1].0 == vk);
    } else if vk == 0x0D {
        assert(scancode_table()[2].0 == vk);
    } else if vk == 0x10 {
        assert(scancode_table()[3].0 == vk);
    } else if vk == 0x11 {
        assert(scancode_table()[4].0 == vk);
    } else if vk == 0x12 {
        assert(scancode_table()[5].0 == vk);
    } else if vk == 0x14 {
        assert(scancode_table()[6].0 == vk);
    } else if vk == 0x1B {
        assert(scancode_table()[7].0 == vk);
    } else if vk == 0x20 {
        assert(scancode_table()[8].0 == vk);
    } else if vk == 0x25 {
        assert(scancode_table()[9].0 == vk);
    } else if vk == 0x26 {
        assert(scancode_table()[10].0 == vk);
    } else if vk == 0x27 {
        assert(scancode_table()[11].0 == vk);
    } else if vk == 0x28 {
        assert(scancode_table()[12].0 == vk);
    } else if vk == 0x30 {
        assert(scancode_table()[13].0 == vk);
    } else if vk == 0x31 {
        assert(scancode_table()[14].0 == vk);
    } else if vk == 0x32 {
        assert(scancode_table()[15].0 == vk);
    } else if vk == 0x33 {
        assert(scancode_table()[16].0 == vk);
    } else if vk == 0x34 {
        assert(scancode_table()[17].0 == vk);
    } else if vk == 0x35 {
        assert(scancode_table()[18].0 == vk);
    } else if vk == 0x36 {
        assert(scancode_table()[19].0 == vk);
    } else if vk == 0x37 {
        assert(scancode_table()[20].0 == vk);
    } else if vk == 0x38 {
        assert(scancode_table()[21].0 == vk);
    } else if vk == 0x39 {
        assert(scancode_table()[22].0 == vk);
    } else if vk == 0x41 {
        assert(scancode_table()[23].0 == vk);
    } else if vk == 0x42 {
        assert(scancode_table()[24].0 == vk);
    } else if vk == 0x43 {
        assert(scancode_table()[25].0 == vk);
    } else if vk == 0x44 {
        assert(scancode_table()[26].0 == vk);
    } else if vk == 0x45 {
        assert(scancode_table()[27].0 == vk);
    } else if vk == 0x46 {
        assert(scancode_table()[28].0 == vk);
    } else if vk == 0x47 {
        assert(scancode_table()[29].0 == vk);
    } else if vk == 0x48 {
        assert(scancode_table()[30].0 == vk);
    } else if vk == 0x49 {
        assert(scancode_table()[31].0 == vk);
    } else if vk == 0x4A {
        assert(scancode_table()[32].0 == vk);
    } else if vk == 0x4B {
        assert(scancode_table()[33].0 == vk);
    } else if vk == 0x4C {
        assert(scancode_table()[34].0 == vk);
    } else if vk == 0x4D {
        assert(scancode_table()[35].0 == vk);
    } else if vk == 0x4E {
        assert(scancode_table()[36].0 == vk);
    } else if vk == 0x4F {
        assert(scancode_table()[37].0 == vk);
    } else if vk == 0x50 {
        assert(scancode_table()[38].0 == vk);
    } else if vk == 0x51 {
        assert(scancode_table()[39].0 == vk);
    } else if vk == 0x52 {
        assert(scancode_table()[40].0 == vk);
    } else if vk == 0x53 {
        assert(scancode_table()[41].0 == vk);
    } else if vk == 0x54 {
        assert(scancode_table()[42].0 == vk);
    } else if vk == 0x55 {
        assert(scancode_table()[43].0 == vk);
    } else if vk == 0x56 {
        assert(scancode_table()[44].0 == vk);
    } else if vk == 0x57 {
        assert(scancode_table()[45].0 == vk);
    } else if vk == 0x58 {
        assert(scancode_table()[46].0 == vk);
    } else if vk == 0x59 {
        assert(scancode_table()[47].0 == vk);
    } else if vk == 0x5A {
        assert(scancode_table()[48].0 == vk);
    } else if vk == 0x70 {
        assert(scancode_table()[49].0 == vk);
    } else if vk == 0x71 {
        assert(scancode_table()[50].0 == vk);
    } else if vk == 0x72 {
        assert(scancode_table()[51].0 == vk);
    } else if vk == 0x73 {
        assert(scancode_table()[52].0 == vk);
    } else if vk == 0x74 {
        assert(scancode_table()[53].0 == vk);
    } else if vk == 0x75 {
        assert(scancode_table()[54].0 == vk);
    } else if vk == 0x76 {
        assert(scancode_table()[55].0 == vk);
    } else if vk == 0x77 {
        assert(scancode_table()[56].0 == vk);
    } else if vk == 0x78 {
        assert(scancode_table()[57].0 == vk);
    } else if vk == 0x79 {
        assert(scancode_table()[58].0 == vk);
    } else if vk == 0x7A {
        assert(scancode_table()[59].0 == vk);
    } else if vk == 0x7B {
        assert(scancode_table()[60].0 == vk);
    }
}

} // verus!

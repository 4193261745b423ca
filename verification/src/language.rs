use vstd::prelude::*;

verus! {

/// The language of the user interface.
#[derive(Debug, Clone, Copy, PartialEq, Eq, Structural)]
pub enum Language {
    English,
    Chinese,
}

/// The text of the status line for the given clicker labels.
pub open spec fn status_line(language: Language, mouse: Seq<char>, keyboard: Seq<char>) -> Seq<char> {
    match language {
        Language::English => "Mouse: "@ + mouse + " (F6)    Keyboard: "@ + keyboard
            + " (F7)    Stop all: F8"@,
        Language::Chinese => "鼠标: "@ + mouse + " (F6)    键盘: "@ + keyboard + " (F7)    全停: F8"@,
    }
}

impl Language {
    /// The language picked at `selected` in the language list: the second
    /// entry is Chinese, anything else English.
    pub fn from_selection(selected: isize) -> (language: Language)
        ensures
            language == (if selected == 1 {
                Language::Chinese
            } else {
                Language::English
            }),
    {
        if selected == 1 {
            Language::Chinese
        } else {
            Language::English
        }
    }

    /// Label of the language list.
    pub fn language_label(self) -> (label: &'static str)
        ensures
            label@ == (match self {
                Language::English => "Language"@,
                Language::Chinese => "语言"@,
            }),
    {
        match self {
            Language::English => "Language",
            Language::Chinese => "语言",
        }
    }

    /// Label of the mouse button list.
    pub fn mouse_button_label(self) -> (label: &'static str)
        ensures
            label@ == (match self {
                Language::English => "Mouse button"@,
                Language::Chinese => "鼠标按键"@,
            }),
    {
        match self {
            Language::English => "Mouse button",
            Language::Chinese => "鼠标按键",
        }
    }

    /// Label of the mouse speed list.
    pub fn mouse_speed_label(self) -> (label: &'static str)
        ensures
            label@ == (match self {
                Language::English => "Mouse speed"@,
                Language::Chinese => "鼠标速度"@,
            }),
    {
        match self {
            Language::English => "Mouse speed",
            Language::Chinese => "鼠标速度",
        }
    }

    /// Label of the custom interval fields.
    pub fn custom_ms_label(self) -> (label: &'static str)
        ensures
            label@ == (match self {
                Language::English => "Custom interval ms"@,
                Language::Chinese => "自定义间隔 ms"@,
            }),
    {
        match self {
            Language::English => "Custom interval ms",
            Language::Chinese => "自定义间隔 ms",
        }
    }

    /// Label of the keyboard key field.
    pub fn keyboard_key_label(self) -> (label: &'static str)
        ensures
            label@ == (match self {
                Language::English => "Keyboard key"@,
                Language::Chinese => "键盘按键"@,
            }),
    {
        match self {
            Language::English => "Keyboard key",
            Language::Chinese => "键盘按键",
        }
    }

    /// Label of the keyboard speed list.
    pub fn keyboard_speed_label(self) -> (label: &'static str)
        ensures
            label@ == (match self {
                Language::English => "Keyboard speed"@,
                Language::Chinese => "键盘速度"@,
            }),
    {
        match self {
            Language::English => "Keyboard speed",
            Language::Chinese => "键盘速度",
        }
    }

    /// Caption of the mouse button while the mouse clicker is disarmed.
    pub fn arm_mouse(self) -> (label: &'static str)
        ensures
            label@ == (match self {
                Language::English => "Arm Mouse (F6)"@,
                Language::Chinese => "武装鼠标 (F6)"@,
            }),
    {
        match self {
            Language::English => "Arm Mouse (F6)",
            Language::Chinese => "武装鼠标 (F6)",
        }
    }

    /// Caption of the mouse button while the mouse clicker is armed.
    pub fn disarm_mouse(self) -> (label: &'static str)
        ensures
            label@ == (match self {
                Language::English => "Disarm Mouse (F6)"@,
                Language::Chinese => "解除鼠标 (F6)"@,
            }),
    {
        match self {
            Language::English => "Disarm Mouse (F6)",
            Language::Chinese => "解除鼠标 (F6)",
        }
    }

    /// Caption of the keyboard button while the keyboard clicker is disarmed.
    pub fn arm_keyboard(self) -> (label: &'static str)
        ensures
            label@ == (match self {
                Language::English => "Arm Keyboard (F7)"@,
                Language::Chinese => "武装键盘 (F7)"@,
            }),
    {
        match self {
            Language::English => "Arm Keyboard (F7)",
            Language::Chinese => "武装键盘 (F7)",
        }
    }

    /// Caption of the keyboard button while the keyboard clicker is armed.
    pub fn disarm_keyboard(self) -> (label: &'static str)
        ensures
            label@ == (match self {
                Language::English => "Disarm Keyboard (F7)"@,
                Language::Chinese => "解除键盘 (F7)"@,
            }),
    {
        match self {
            Language::English => "Disarm Keyboard (F7)",
            Language::Chinese => "解除键盘 (F7)",
        }
    }

    /// Caption of the mouse toggle button: it offers to disarm an armed
    /// mouse clicker and to arm a disarmed one.
    pub fn mouse_toggle_caption(self, armed: bool) -> (label: &'static str)
        ensures
            label@ == (match (self, armed) {
                (Language::English, true) => "Disarm Mouse (F6)"@,
                (Language::English, false) => "Arm Mouse (F6)"@,
                (Language::Chinese, true) => "解除鼠标 (F6)"@,
                (Language::Chinese, false) => "武装鼠标 (F6)"@,
            }),
    {
        if armed {
            self.disarm_mouse()
        } else {
            self.arm_mouse()
        }
    }

    /// Caption of the keyboard toggle button: it offers to disarm an armed
    /// keyboard clicker and to arm a disarmed one.
    pub fn keyboard_toggle_caption(self, armed: bool) -> (label: &'static str)
        ensures
            label@ == (match (self, armed) {
                (Language::English, true) => "Disarm Keyboard (F7)"@,
                (Language::English, false) => "Arm Keyboard (F7)"@,
                (Language::Chinese, true) => "解除键盘 (F7)"@,
                (Language::Chinese, false) => "武装键盘 (F7)"@,
            }),
    {
        if armed {
            self.disarm_keyboard()
        } else {
            self.arm_keyboard()
        }
    }

    /// Caption of the stop-all button.
    pub fn stop_all(self) -> (label: &'static str)
        ensures
            label@ == (match self {
                Language::English => "Stop All (F8)"@,
                Language::Chinese => "全部停止 (F8)"@,
            }),
    {
        match self {
            Language::English => "Stop All (F8)",
            Language::Chinese => "全部停止 (F8)",
        }
    }

    /// Word for an armed or a disarmed clicker in the status line.
    pub fn armed_label(self, armed: bool) -> (label: &'static str)
        ensures
            label@ == (match (self, armed) {
                (Language::English, true) => "ARMED"@,
                (Language::English, false) => "OFF"@,
                (Language::Chinese, true) => "已武装"@,
                (Language::Chinese, false) => "关闭"@,
            }),
    {
        match (self, armed) {
            (Language::English, true) => "ARMED",
            (Language::English, false) => "OFF",
            (Language::Chinese, true) => "已武装",
            (Language::Chinese, false) => "关闭",
        }
    }

    /// The status line, naming the state of both clickers and the hotkeys.
    pub fn status_text(self, mouse: &str, keyboard: &str) -> (text: String)
        ensures
            text@ == status_line(self, mouse@, keyboard@),
    {
        match self {
            Language::English => String::from_str("Mouse: ").concat(mouse).concat(
                " (F6)    Keyboard: ",
            ).concat(keyboard).concat(" (F7)    Stop all: F8"),
            Language::Chinese => String::from_str("鼠标: ").concat(mouse).concat(
                " (F6)    键盘: ",
            ).concat(keyboard).concat(" (F7)    全停: F8"),
        }
    }

    /// Entries of the mouse button list, in the order left, right, middle.
    pub fn mouse_button_items(self) -> (items: [&'static str; 3])
        ensures
            items@.len() == 3,
            items@[0]@ == (match self {
                Language::English => "Left"@,
                Language::Chinese => "左键"@,
            }),
            items@[1]@ == (match self {
                Language::English => "Right"@,
                Language::Chinese => "右键"@,
            }),
            items@[2]@ == (match self {
                Language::English => "Middle"@,
                Language::Chinese => "中键"@,
            }),
    {
        match self {
            Language::English => ["Left", "Right", "Middle"],
            Language::Chinese => ["左键", "右键", "中键"],
        }
    }
}

} // verus!

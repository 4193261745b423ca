use vstd::prelude::*;

use crate::config::ClickerConfig;

verus! {

/// The state of both clickers at one moment.
#[derive(Debug, Clone, Copy, PartialEq, Eq, Structural)]
pub struct ClickerSnapshot {
    pub config: ClickerConfig,
    pub mouse_armed: bool,
    pub keyboard_armed: bool,
}

/// The shared state of the clickers: the configuration and whether each
/// clicker is armed.
#[derive(Debug, Clone, Copy)]
pub struct ClickerRuntime {
    config: ClickerConfig,
    mouse_armed: bool,
    keyboard_armed: bool,
}

/// `s` with the mouse clicker's armed flag flipped.
pub open spec fn mouse_toggled(s: ClickerSnapshot) -> ClickerSnapshot {
    ClickerSnapshot { mouse_armed: !s.mouse_armed, ..s }
}

/// `s` with the keyboard clicker's armed flag flipped.
pub open spec fn keyboard_toggled(s: ClickerSnapshot) -> ClickerSnapshot {
    ClickerSnapshot { keyboard_armed: !s.keyboard_armed, ..s }
}

/// `s` with both clickers disarmed.
pub open spec fn all_stopped(s: ClickerSnapshot) -> ClickerSnapshot {
    ClickerSnapshot { mouse_armed: false, keyboard_armed: false, ..s }
}

/// `s` with its configuration replaced by `config`.
pub open spec fn with_config(s: ClickerSnapshot, config: ClickerConfig) -> ClickerSnapshot {
    ClickerSnapshot { config, ..s }
}

/// The state of a freshly created runtime.
pub open spec fn initial_snapshot(config: ClickerConfig) -> ClickerSnapshot {
    ClickerSnapshot { config, mouse_armed: false, keyboard_armed: false }
}

/// A call that changes a runtime.
#[derive(Debug, Clone, Copy, PartialEq, Eq, Structural)]
pub enum RuntimeOp {
    ToggleMouse,
    ToggleKeyboard,
    StopAll,
    SetConfig(ClickerConfig),
}

/// The state after the call `op` on state `s`, as the contracts of
/// `toggle_mouse`, `toggle_keyboard`, `stop_all` and `set_config` give it.
pub open spec fn after_op(s: ClickerSnapshot, op: RuntimeOp) -> ClickerSnapshot {
    match op {
        RuntimeOp::ToggleMouse => mouse_toggled(s),
        RuntimeOp::ToggleKeyboard => keyboard_toggled(s),
        RuntimeOp::StopAll => all_stopped(s),
        RuntimeOp::SetConfig(config) => with_config(s, config),
    }
}

/// The state after the calls `ops`, in order, starting from `s`.
pub open spec fn after_ops(s: ClickerSnapshot, ops: Seq<RuntimeOp>) -> ClickerSnapshot
    decreases ops.len(),
{
    if ops.len() == 0 {
        s
    } else {
        after_op(after_ops(s, ops.drop_last()), ops.last())
    }
}

/// Whether `ops` holds a `StopAll`.
pub open spec fn has_stop(ops: Seq<RuntimeOp>) -> bool {
    exists|i: int| 0 <= i < ops.len() && ops[i] == RuntimeOp::StopAll
}

/// How many of `ops` after the last `StopAll` (or all of them, if there is
/// none) are `op`.
pub open spec fn count_since_stop(ops: Seq<RuntimeOp>, op: RuntimeOp) -> nat
    decreases ops.len(),
{
    if ops.len() == 0 {
        0
    } else if ops.last() == RuntimeOp::StopAll {
        0
    } else if ops.last() == op {
        count_since_stop(ops.drop_last(), op) + 1
    } else {
        count_since_stop(ops.drop_last(), op)
    }
}

/// The configuration given by the last `SetConfig` of `ops`, or `initial`
/// if there is none.
pub open spec fn last_config(initial: ClickerConfig, ops: Seq<RuntimeOp>) -> ClickerConfig
    decreases ops.len(),
{
    if ops.len() == 0 {
        initial
    } else {
        match ops.last() {
            RuntimeOp::SetConfig(config) => config,
            _ => last_config(initial, ops.drop_last()),
        }
    }
}

/// Whether a clicker that was `start` is armed after `ops`: after a
/// `StopAll` it is armed exactly when it was toggled an odd number of times
/// since the last one; without one, an odd number of toggles flips `start`.
pub open spec fn armed_after(start: bool, ops: Seq<RuntimeOp>, toggle: RuntimeOp) -> bool {
    let odd = count_since_stop(ops, toggle) % 2 == 1;
    if has_stop(ops) {
        odd
    } else {
        start != odd
    }
}

/// The state after a sequence of calls depends only on the calls: each
/// clicker is armed by the parity of its toggles since the last stop-all
/// (from its starting flag when there was none), and the configuration is
/// the last one set, or the starting one.
pub proof fn lemma_state_after_calls(s: ClickerSnapshot, ops: Seq<RuntimeOp>)
    ensures
        after_ops(s, ops) == (ClickerSnapshot {
            config: last_config(s.config, ops),
            mouse_armed: armed_after(s.mouse_armed, ops, RuntimeOp::ToggleMouse),
            keyboard_armed: armed_after(s.keyboard_armed, ops, RuntimeOp::ToggleKeyboard),
        }),
    decreases ops.len(),
{
    if ops.len() > 0 {
        let rest = ops.drop_last();
        lemma_state_after_calls(s, rest);
        if has_stop(rest) {
            let i = choose|i: int| 0 <= i < rest.len() && rest[i] == RuntimeOp::StopAll;
            assert(ops[i] == RuntimeOp::StopAll);
        }
        if ops.last() == RuntimeOp::StopAll {
            assert(ops[ops.len() - 1] == RuntimeOp::StopAll);
        } else if has_stop(ops) {
            let i = choose|i: int| 0 <= i < ops.len() && ops[i] == RuntimeOp::StopAll;
            assert(rest[i] == RuntimeOp::StopAll);
        }
    }
}

/// From a freshly created runtime, both clickers are armed by the parity
/// of their toggles since the last stop-all, and the configuration is the
/// last one set, or the one it was created with.
pub proof fn lemma_state_after_calls_from_new(config: ClickerConfig, ops: Seq<RuntimeOp>)
    ensures
        after_ops(initial_snapshot(config), ops) == (ClickerSnapshot {
            config: last_config(config, ops),
            mouse_armed: count_since_stop(ops, RuntimeOp::ToggleMouse) % 2 == 1,
            keyboard_armed: count_since_stop(ops, RuntimeOp::ToggleKeyboard) % 2 == 1,
        }),
{
    lemma_state_after_calls(initial_snapshot(config), ops);
}

impl View for ClickerRuntime {
    type V = ClickerSnapshot;

    closed spec fn view(&self) -> ClickerSnapshot {
        ClickerSnapshot {
            config: self.config,
            mouse_armed: self.mouse_armed,
            keyboard_armed: self.keyboard_armed,
        }
    }
}

impl ClickerRuntime {
    /// A runtime with the given configuration and both clickers disarmed.
    pub fn new(config: ClickerConfig) -> (runtime: Self)
        ensures
            runtime@ == initial_snapshot(config),
    {
        Self { config, mouse_armed: false, keyboard_armed: false }
    }

    /// The current state.
    pub fn snapshot(&self) -> (snapshot: ClickerSnapshot)
        ensures
            snapshot == self@,
    {
        ClickerSnapshot {
            config: self.config,
            mouse_armed: self.mouse_armed,
            keyboard_armed: self.keyboard_armed,
        }
    }

    /// Arms the mouse clicker if it was disarmed and disarms it otherwise;
    /// returns whether it is now armed.
    pub fn toggle_mouse(&mut self) -> (armed: bool)
        ensures
            final(self)@ == mouse_toggled(old(self)@),
            armed == final(self)@.mouse_armed,
    {
        self.mouse_armed = !self.mouse_armed;
        self.mouse_armed
    }

    /// Arms the keyboard clicker if it was disarmed and disarms it
    /// otherwise; returns whether it is now armed.
    pub fn toggle_keyboard(&mut self) -> (armed: bool)
        ensures
            final(self)@ == keyboard_toggled(old(self)@),
            armed == final(self)@.keyboard_armed,
    {
        self.keyboard_armed = !self.keyboard_armed;
        self.keyboard_armed
    }

    /// Disarms both clickers.
    pub fn stop_all(&mut self)
        ensures
            final(self)@ == all_stopped(old(self)@),
    {
        self.mouse_armed = false;
        self.keyboard_armed = false;
    }

    /// Replaces the configuration; the armed flags stay as they are.
    pub fn set_config(&mut self, config: ClickerConfig)
        ensures
            final(self)@ == with_config(old(self)@, config),
    {
        self.config = config;
    }
}

/// Toggling the mouse clicker twice gives back the state it started from.
pub proof fn lemma_toggle_mouse_twice_restores(s: ClickerSnapshot)
    ensures
        mouse_toggled(mouse_toggled(s)) == s,
{
}

/// Toggling the keyboard clicker twice gives back the state it started
/// from.
pub proof fn lemma_toggle_keyboard_twice_restores(s: ClickerSnapshot)
    ensures
        keyboard_toggled(keyboard_toggled(s)) == s,
{
}

/// The two clickers are armed independently: toggling one leaves the other
/// clicker and the configuration as they were, and the order of two toggles
/// does not matter.
pub proof fn lemma_toggles_are_independent(s: ClickerSnapshot)
    ensures
        mouse_toggled(s).keyboard_armed == s.keyboard_armed,
        mouse_toggled(s).config == s.config,
        keyboard_toggled(s).mouse_armed == s.mouse_armed,
        keyboard_toggled(s).config == s.config,
        mouse_toggled(keyboard_toggled(s)) == keyboard_toggled(mouse_toggled(s)),
{
}

/// Stopping all disarms both clickers, keeps the configuration, and
/// stopping again changes nothing.
pub proof fn lemma_stop_all_disarms_both(s: ClickerSnapshot)
    ensures
        !all_stopped(s).mouse_armed,
        !all_stopped(s).keyboard_armed,
        all_stopped(s).config == s.config,
        all_stopped(all_stopped(s)) == all_stopped(s),
{
}

/// Replacing the configuration keeps both clickers running or stopped as
/// they were.
pub proof fn lemma_set_config_preserves_running_state(s: ClickerSnapshot, config: ClickerConfig)
    ensures
        with_config(s, config).mouse_armed == s.mouse_armed,
        with_config(s, config).keyboard_armed == s.keyboard_armed,
        with_config(s, config).config == config,
{
}

} // verus!

//! Input handling: key codes, mouse buttons, modifier and IME state, and
//! the decisions that turn keyboard, mouse, IME and file-drop events into
//! commands or text. Pointer geometry and timing (floating-point positions,
//! clocks) are measured by the application, which hands the outcome of each
//! comparison to these decisions.

use vstd::prelude::*;

use std::time::{Duration, Instant};

verus! {

/// Calls `Duration::from_millis`; `Duration` is opaque to the verifier, so
/// nothing is stated of the value.
#[verifier::external_body]
fn millis(ms: u64) -> Duration {
    Duration::from_millis(ms)
}

// ── Key codes ────────────────────────────────────────────────────────────────

/// Platform-neutral key codes for the standard 101/104-key layout.
#[derive(Debug, Clone, Copy, PartialEq, Eq, Structural, Hash)]
pub enum KeyCode {
    A, B, C, D, E, F, G, H, I, J, K, L, M, N, O, P, Q, R, S, T, U, V, W, X, Y, Z, Digit0,
    Digit1, Digit2, Digit3, Digit4, Digit5, Digit6, Digit7, Digit8, Digit9, F1, F2, F3, F4, F5,
    F6, F7, F8, F9, F10, F11, F12, Escape, Tab, CapsLock, Space, Enter, Backspace, Delete,
    Insert, ArrowUp, ArrowDown, ArrowLeft, ArrowRight, Home, End, PageUp, PageDown, Minus,
    Equal, BracketLeft, BracketRight, Backslash, Semicolon, Quote, Backquote, Comma, Period,
    Slash, NumLock, ScrollLock, PrintScreen, Pause, ContextMenu,
}

// ── Mouse buttons ────────────────────────────────────────────────────────────

/// A mouse button.
#[derive(Debug, Clone, Copy, PartialEq, Eq, Structural, Hash)]
pub enum MouseButton {
    Left,
    Right,
    Middle,
    Back,
    Forward,
}

/// The bit of a button in a button mask.
pub open spec fn button_bit(b: MouseButton) -> u8 {
    match b {
        MouseButton::Left => 1,
        MouseButton::Right => 2,
        MouseButton::Middle => 4,
        MouseButton::Back => 8,
        MouseButton::Forward => 16,
    }
}

/// The set of pressed mouse buttons, one bit per button.
#[derive(Debug, Clone, Copy, PartialEq, Eq, Structural)]
pub struct MouseButtons {
    bits: u8,
}

impl MouseButtons {
    /// The mask's bits.
    pub closed spec fn bits_view(&self) -> u8 {
        self.bits
    }

    /// No button.
    pub fn empty() -> (r: Self)
        ensures
            r.bits_view() == 0,
    {
        MouseButtons { bits: 0 }
    }

    /// The mask with exactly the known bits of `bits` (the five buttons).
    pub fn from_bits_truncate(bits: u8) -> (r: Self)
        ensures
            r.bits_view() == bits & 31,
    {
        MouseButtons { bits: bits & 31 }
    }

    /// The mask's bits.
    pub fn bits(&self) -> (r: u8)
        ensures
            r == self.bits_view(),
    {
        self.bits
    }

    /// The mask of one button.
    pub fn from_button(button: MouseButton) -> (r: Self)
        ensures
            r.bits_view() == button_bit(button),
    {
        let bits: u8 = match button {
            MouseButton::Left => 1,
            MouseButton::Right => 2,
            MouseButton::Middle => 4,
            MouseButton::Back => 8,
            MouseButton::Forward => 16,
        };
        MouseButtons { bits }
    }

    /// Whether every button of `other` is in this mask.
    pub fn contains(&self, other: MouseButtons) -> (r: bool)
        ensures
            r == (self.bits_view() & other.bits_view() == other.bits_view()),
    {
        self.bits & other.bits == other.bits
    }

    /// Adds the buttons of `other`.
    pub fn insert(&mut self, other: MouseButtons)
        ensures
            final(self).bits_view() == old(self).bits_view() | other.bits_view(),
    {
        self.bits = self.bits | other.bits;
    }

    /// Removes the buttons of `other`.
    pub fn remove(&mut self, other: MouseButtons)
        ensures
            final(self).bits_view() == old(self).bits_view() & !other.bits_view(),
    {
        self.bits = self.bits & !other.bits;
    }

    /// Whether no button is pressed.
    pub fn is_empty(&self) -> (r: bool)
        ensures
            r == (self.bits_view() == 0),
    {
        self.bits == 0
    }
}

/// A pressed button is in the mask and a released one is not, whatever
/// else the mask holds.
pub proof fn lemma_press_release(mask: u8, b: MouseButton)
    ensures
        (mask | button_bit(b)) & button_bit(b) == button_bit(b),
        (mask & !button_bit(b)) & button_bit(b) == 0,
{
    let bit = button_bit(b);
    assert(bit == 1 || bit == 2 || bit == 4 || bit == 8 || bit == 16);
    assert(forall|m: u8, x: u8| #[trigger] ((m | x) & x) == x) by (bit_vector);
    assert(forall|m: u8, x: u8| #[trigger] ((m & !x) & x) == 0) by (bit_vector);
}

/// The phase of a scroll gesture.
#[derive(Debug, Clone, Copy, PartialEq, Eq, Structural)]
pub enum ScrollPhase {
    Start,
    Update,
    End,
}

// ── Modifiers ────────────────────────────────────────────────────────────────

/// Which modifier keys are held.
#[derive(Debug, Clone, Copy, PartialEq, Eq, Structural)]
pub struct ModifierState {
    pub ctrl: bool,
    pub shift: bool,
    pub alt: bool,
    pub meta: bool,
}

impl ModifierState {
    /// No modifier held.
    pub fn empty() -> (r: Self)
        ensures
            !r.ctrl && !r.shift && !r.alt && !r.meta,
    {
        ModifierState { ctrl: false, shift: false, alt: false, meta: false }
    }

    /// Whether the primary accelerator is held: Cmd (meta) on macOS, Ctrl
    /// elsewhere.
    pub fn primary_held(&self, on_macos: bool) -> (r: bool)
        ensures
            r == if on_macos {
                self.meta
            } else {
                self.ctrl
            },
    {
        if on_macos {
            self.meta
        } else {
            self.ctrl
        }
    }

    /// Whether any modifier is held.
    pub fn any_modifier(&self) -> (r: bool)
        ensures
            r == (self.ctrl || self.shift || self.alt || self.meta),
    {
        self.ctrl || self.shift || self.alt || self.meta
    }
}

impl Default for ModifierState {
    fn default() -> (r: Self)
        ensures
            !r.ctrl && !r.shift && !r.alt && !r.meta,
    {
        ModifierState::empty()
    }
}

// ── Results ──────────────────────────────────────────────────────────────────

/// What processing one input event asks of the application.
#[derive(Debug, Clone, PartialEq, Eq)]
pub enum InputResult {
    /// The event was consumed.
    Handled,
    /// Nothing recognised the event.
    Unhandled,
    /// A named command should run.
    Command(String),
    /// Text to insert at the cursor.
    TextInput(String),
}

/// Whether `r` asks to run the command `id`.
pub open spec fn is_command(r: InputResult, id: Seq<char>) -> bool {
    r matches InputResult::Command(c) && c@ == id
}

/// Whether `r` asks to insert the text `t`.
pub open spec fn is_text(r: InputResult, t: Seq<char>) -> bool {
    r matches InputResult::TextInput(c) && c@ == t
}

/// The command a key chord runs: with the primary accelerator alone, `=`
/// zooms in, `-` zooms out and `0` resets the zoom.
pub open spec fn chord_command(key: KeyCode, mods: ModifierState, on_macos: bool) -> Option<Seq<char>> {
    let primary = if on_macos {
        mods.meta
    } else {
        mods.ctrl
    };
    if !(mods.ctrl || mods.shift || mods.alt || mods.meta) || !primary || mods.shift || mods.alt {
        None
    } else if key == KeyCode::Equal {
        Some("workbench.action.zoomIn"@)
    } else if key == KeyCode::Minus {
        Some("workbench.action.zoomOut"@)
    } else if key == KeyCode::Digit0 {
        Some("workbench.action.zoomReset"@)
    } else {
        None
    }
}

/// The command a key chord runs, if any.
pub fn key_command(key: KeyCode, mods: &ModifierState, on_macos: bool) -> (r: Option<String>)
    ensures
        match chord_command(key, *mods, on_macos) {
            Some(c) => r matches Some(s) && s@ == c,
            None => r is None,
        },
{
    if !mods.any_modifier() {
        return None;
    }
    let primary = mods.primary_held(on_macos);
    if !primary || mods.shift || mods.alt {
        return None;
    }
    match key {
        KeyCode::Equal => Some(String::from_str("workbench.action.zoomIn")),
        KeyCode::Minus => Some(String::from_str("workbench.action.zoomOut")),
        KeyCode::Digit0 => Some(String::from_str("workbench.action.zoomReset")),
        _ => None,
    }
}

/// What a key press asks for: a chord's command, else typed text (when
/// there is some and the primary accelerator is not held), else nothing.
pub fn key_down_result(key: KeyCode, mods: &ModifierState, text: Option<&str>, on_macos: bool) -> (r: InputResult)
    ensures
        match chord_command(key, *mods, on_macos) {
            Some(c) => is_command(r, c),
            None => match text {
                Some(t) => if t@.len() > 0 && !(if on_macos {
                    mods.meta
                } else {
                    mods.ctrl
                }) {
                    is_text(r, t@)
                } else {
                    r == InputResult::Unhandled
                },
                None => r == InputResult::Unhandled,
            },
        },
{
    if let Some(cmd) = key_command(key, mods, on_macos) {
        return InputResult::Command(cmd);
    }
    if let Some(t) = text {
        if t.unicode_len() > 0 && !mods.primary_held(on_macos) {
            return InputResult::TextInput(t.to_string());
        }
    }
    InputResult::Unhandled
}

/// The command a mouse press runs.
pub open spec fn press_command(
    button: MouseButton,
    mods: ModifierState,
    click_count: u32,
    on_macos: bool,
    on_linux: bool,
) -> Option<Seq<char>> {
    match button {
        MouseButton::Left => if mods.alt {
            Some("editor.action.addCursorAtClick"@)
        } else if (if on_macos {
            mods.meta
        } else {
            mods.ctrl
        }) {
            Some("editor.action.revealDefinition"@)
        } else if click_count == 2 {
            Some("editor.action.selectWord"@)
        } else if click_count == 3 {
            Some("editor.action.selectLine"@)
        } else {
            None
        },
        MouseButton::Right => Some("editor.action.showContextMenu"@),
        MouseButton::Middle => if on_linux {
            Some("editor.action.pasteFromSelection"@)
        } else {
            None
        },
        MouseButton::Back => Some("workbench.action.navigateBack"@),
        MouseButton::Forward => Some("workbench.action.navigateForward"@),
    }
}

/// What a mouse press asks for, given the click count it makes.
pub fn mouse_down_result(
    button: MouseButton,
    mods: &ModifierState,
    click_count: u32,
    on_macos: bool,
    on_linux: bool,
) -> (r: InputResult)
    ensures
        match press_command(button, *mods, click_count, on_macos, on_linux) {
            Some(c) => is_command(r, c),
            None => r == InputResult::Handled,
        },
{
    match button {
        MouseButton::Left => {
            if mods.alt {
                return InputResult::Command(String::from_str("editor.action.addCursorAtClick"));
            }
            if mods.primary_held(on_macos) {
                return InputResult::Command(String::from_str("editor.action.revealDefinition"));
            }
            if click_count == 2 {
                InputResult::Command(String::from_str("editor.action.selectWord"))
            } else if click_count == 3 {
                InputResult::Command(String::from_str("editor.action.selectLine"))
            } else {
                InputResult::Handled
            }
        },
        MouseButton::Right => InputResult::Command(String::from_str("editor.action.showContextMenu")),
        MouseButton::Middle => if on_linux {
            InputResult::Command(String::from_str("editor.action.pasteFromSelection"))
        } else {
            InputResult::Handled
        },
        MouseButton::Back => InputResult::Command(String::from_str("workbench.action.navigateBack")),
        MouseButton::Forward => InputResult::Command(
            String::from_str("workbench.action.navigateForward"),
        ),
    }
}

/// The click count after a press: the platform's count when it gives one;
/// otherwise the next of single, double, triple (then single again) when the
/// press is close to the last click in time and place, else a single click.
pub open spec fn click_count_after(raw: u32, previous: u32, close_to_last: bool) -> u32 {
    if raw > 0 {
        raw
    } else if close_to_last {
        ((previous % 3) + 1) as u32
    } else {
        1
    }
}

/// The click count after a press (see `click_count_after`).
pub fn next_click_count(raw: u32, previous: u32, close_to_last: bool) -> (r: u32)
    ensures
        r == click_count_after(raw, previous, close_to_last),
        1 <= r,
        raw == 0 ==> r <= 3,
{
    if raw > 0 {
        raw
    } else if close_to_last {
        (previous % 3) + 1
    } else {
        1
    }
}

/// What a wheel turn asks for: with the primary accelerator held and a
/// vertical movement, zoom in (upward) or out; otherwise nothing more.
pub fn wheel_result(primary_held: bool, moved_vertically: bool, upward: bool) -> (r: InputResult)
    ensures
        primary_held && moved_vertically && upward ==> is_command(r, "workbench.action.zoomIn"@),
        primary_held && moved_vertically && !upward ==> is_command(r, "workbench.action.zoomOut"@),
        !(primary_held && moved_vertically) ==> r == InputResult::Handled,
{
    if primary_held && moved_vertically {
        if upward {
            return InputResult::Command(String::from_str("workbench.action.zoomIn"));
        }
        return InputResult::Command(String::from_str("workbench.action.zoomOut"));
    }
    InputResult::Handled
}

/// What dropping files asks for: opening the file when exactly one is
/// dropped.
pub fn file_drop_result(paths: &[String]) -> (r: InputResult)
    ensures
        paths@.len() == 1 ==> is_command(r, "_openFile:"@ + paths@[0]@),
        paths@.len() != 1 ==> r == InputResult::Handled,
{
    if paths.len() == 1 {
        let mut c = String::from_str("_openFile:");
        c.append(paths[0].as_str());
        InputResult::Command(c)
    } else {
        InputResult::Handled
    }
}

// ── IME ──────────────────────────────────────────────────────────────────────

/// The input method's composition.
#[derive(Debug, Clone)]
pub struct ImeState {
    pub composing: bool,
    pub composition_text: String,
    pub cursor_position: usize,
}

impl Default for ImeState {
    fn default() -> (r: Self)
        ensures
            !r.composing,
            r.composition_text@ == Seq::<char>::empty(),
            r.cursor_position == 0,
    {
        ImeState { composing: false, composition_text: String::new(), cursor_position: 0 }
    }
}

impl ImeState {
    /// A composition starts, empty.
    pub fn start(&mut self) -> (r: InputResult)
        ensures
            final(self).composing,
            final(self).composition_text@ == Seq::<char>::empty(),
            final(self).cursor_position == 0,
            r == InputResult::Handled,
    {
        self.composing = true;
        self.composition_text = String::new();
        self.cursor_position = 0;
        InputResult::Handled
    }

    /// The composition changes.
    pub fn update(&mut self, text: &str, cursor: usize) -> (r: InputResult)
        ensures
            final(self).composing == old(self).composing,
            final(self).composition_text@ == text@,
            final(self).cursor_position == cursor,
            r == InputResult::Handled,
    {
        self.composition_text = text.to_string();
        self.cursor_position = cursor;
        InputResult::Handled
    }

    /// The composition ends with `text`, which is inserted unless empty.
    pub fn end(&mut self, text: &str) -> (r: InputResult)
        ensures
            !final(self).composing,
            final(self).composition_text@ == Seq::<char>::empty(),
            final(self).cursor_position == 0,
            text@.len() > 0 ==> is_text(r, text@),
            text@.len() == 0 ==> r == InputResult::Handled,
    {
        self.composing = false;
        self.composition_text = String::new();
        self.cursor_position = 0;
        if text.unicode_len() == 0 {
            InputResult::Handled
        } else {
            InputResult::TextInput(text.to_string())
        }
    }
}

// ── Keyboard ─────────────────────────────────────────────────────────────────

/// Which keys are held, and the key-repeat timing.
#[derive(Debug, Clone)]
pub struct KeyboardState {
    /// The held keys, each once.
    pub pressed_keys: Vec<KeyCode>,
    /// The key being repeated and when its press began.
    pub repeat_timer: Option<(KeyCode, Instant)>,
    pub repeat_delay: Duration,
    pub repeat_interval: Duration,
}

impl Default for KeyboardState {
    /// No key held; a 500 ms repeat delay and 33 ms repeat interval.
    fn default() -> (r: Self)
        ensures
            r.pressed_keys@ == Seq::<KeyCode>::empty(),
            r.repeat_timer is None,
    {
        KeyboardState {
            pressed_keys: Vec::new(),
            repeat_timer: None,
            repeat_delay: millis(500),
            repeat_interval: millis(33),
        }
    }
}

impl KeyboardState {
    /// Whether `key` is held.
    pub fn is_pressed(&self, key: KeyCode) -> (r: bool)
        ensures
            r == self.pressed_keys@.contains(key),
    {
        let mut i: usize = 0;
        while i < self.pressed_keys.len()
            invariant
                i <= self.pressed_keys@.len(),
                forall|j: int| 0 <= j < i ==> self.pressed_keys@[j] != key,
            decreases self.pressed_keys@.len() - i,
        {
            if self.pressed_keys[i] == key {
                return true;
            }
            i = i + 1;
        }
        false
    }

    /// A key goes down at `at`; a first press (not a repeat) starts the
    /// repeat timer.
    pub fn press(&mut self, key: KeyCode, is_repeat: bool, at: Instant)
        ensures
            final(self).pressed_keys@.to_set() == old(self).pressed_keys@.to_set().insert(key),
            old(self).pressed_keys@.no_duplicates() ==> final(self).pressed_keys@.no_duplicates(),
            final(self).repeat_timer == if is_repeat {
                old(self).repeat_timer
            } else {
                Some((key, at))
            },
    {
        proof {
            broadcast use vstd::seq_lib::group_seq_properties;
        }
        if !self.is_pressed(key) {
            let ghost before = self.pressed_keys@;
            self.pressed_keys.push(key);
            assert(self.pressed_keys@.to_set() =~= before.to_set().insert(key));
        } else {
            assert(self.pressed_keys@.to_set() =~= self.pressed_keys@.to_set().insert(key));
        }
        if !is_repeat {
            self.repeat_timer = Some((key, at));
        }
    }

    /// A key goes up; its repeat timer, if running, stops.
    pub fn release(&mut self, key: KeyCode)
        ensures
            final(self).pressed_keys@ == old(self).pressed_keys@.filter(|k: KeyCode| k != key),
            old(self).pressed_keys@.no_duplicates() ==> final(self).pressed_keys@.no_duplicates(),
            final(self).repeat_timer == match old(self).repeat_timer {
                Some((k, t)) => if k == key {
                    None
                } else {
                    Some((k, t))
                },
                None => None,
            },
    {
        let ghost old_keys = self.pressed_keys@;
        let mut kept: Vec<KeyCode> = Vec::new();
        let mut i: usize = 0;
        while i < self.pressed_keys.len()
            invariant
                i <= self.pressed_keys@.len(),
                old_keys == self.pressed_keys@,
                kept@ == old_keys.subrange(0, i as int).filter(|k: KeyCode| k != key),
                old_keys.no_duplicates() ==> kept@.no_duplicates(),
                forall|a: KeyCode| #[trigger] kept@.contains(a) ==> old_keys.subrange(0, i as int).contains(a),
            decreases self.pressed_keys@.len() - i,
        {
            proof {
                reveal(Seq::filter);
            }
            assert forall|a: KeyCode| #[trigger] old_keys.subrange(0, i as int).contains(a)
                implies old_keys.subrange(0, i + 1).contains(a) by {
                let m = choose|m: int| 0 <= m < i && old_keys.subrange(0, i as int)[m] == a;
                assert(old_keys.subrange(0, i + 1)[m] == a);
            }
            assert(old_keys.subrange(0, i + 1)[i as int] == old_keys[i as int]);
            assert(old_keys.no_duplicates() ==> !old_keys.subrange(0, i as int).contains(old_keys[i as int]));
            assert(old_keys.subrange(0, i + 1).drop_last() =~= old_keys.subrange(0, i as int));
            if self.pressed_keys[i] != key {
                let ghost before = kept@;
                kept.push(self.pressed_keys[i]);
                proof {
                    assert forall|a: KeyCode| #[trigger] kept@.contains(a) implies old_keys.subrange(
                        0,
                        i + 1,
                    ).contains(a) by {
                        if a != old_keys[i as int] {
                            let m = choose|m: int| 0 <= m < kept@.len() && kept@[m] == a;
                            assert(before[m] == a);
                            assert(before.contains(a));
                        }
                    }
                    if old_keys.no_duplicates() {
                        assert(!before.contains(old_keys[i as int]));
                        assert forall|p: int, q: int|
                            0 <= p < kept@.len() && 0 <= q < kept@.len() && p != q implies kept@[p]
                            != kept@[q] by {
                            if p == before.len() as int {
                                assert(before[q] == kept@[q]);
                            } else if q == before.len() as int {
                                assert(before[p] == kept@[p]);
                            }
                        }
                    }
                }
            }
            i = i + 1;
        }
        assert(old_keys.subrange(0, old_keys.len() as int) =~= old_keys);
        self.pressed_keys = kept;
        let stop = match &self.repeat_timer {
            Some((k, _)) => *k == key,
            None => false,
        };
        if stop {
            self.repeat_timer = None;
        }
    }
}

} // verus!

//! Input events as the console sees them, and the queries over one batch of them.

use vstd::prelude::*;

verus! {

/// The keys of a keyboard, by meaning rather than by position.
#[derive(Clone, Copy, Debug, PartialEq, Eq, Structural, Hash)]
pub enum KeyCode {
    Key1, Key2, Key3, Key4, Key5, Key6, Key7, Key8, Key9, Key0,
    A, B, C, D, E, F, G, H, I, J, K, L, M,
    N, O, P, Q, R, S, T, U, V, W, X, Y, Z,
    Escape,
    F1, F2, F3, F4, F5, F6, F7, F8, F9, F10, F11, F12,
    F13, F14, F15, F16, F17, F18, F19, F20, F21, F22, F23, F24,
    Snapshot, Scroll, Pause,
    Insert, Home, Delete, End, PageDown, PageUp,
    Left, Up, Right, Down,
    Back, Return, Space, Compose, Caret,
    Numlock, Numpad0, Numpad1, Numpad2, Numpad3, Numpad4,
    Numpad5, Numpad6, Numpad7, Numpad8, Numpad9,
    AbntC1, AbntC2, Add, Apostrophe, Apps, At, Ax, Backslash, Calculator,
    Capital, Colon, Comma, Convert, Decimal, Divide, Equals, Grave, Kana, Kanji,
    LAlt, LBracket, LControl, LShift, LWin, Mail, MediaSelect, MediaStop, Minus,
    Multiply, Mute, MyComputer, NavigateForward, NavigateBackward, NextTrack,
    NoConvert, NumpadComma, NumpadEnter, NumpadEquals, OEM102, Period, PlayPause,
    Power, PrevTrack, RAlt, RBracket, RControl, RShift, RWin, Semicolon, Slash,
    Sleep, Stop, Subtract, Sysrq, Tab, Underline, Unlabeled, VolumeDown, VolumeUp,
    Wake, WebBack, WebFavorites, WebForward, WebHome, WebRefresh, WebSearch,
    WebStop, Yen, Copy, Paste, Cut,
}

/// Which way a key went.
#[derive(Clone, Copy, Debug, PartialEq, Eq, Structural, Hash)]
pub enum KeyState {
    Pressed,
    Released,
}

/// One raw input occurrence, as the window reported it.
#[derive(Clone, Copy, Debug)]
pub enum InputEvent {
    /// A key changed state. The key is `None` where the window could not name it.
    KeyboardInput(KeyState, Option<KeyCode>),
    /// A character was typed.
    ReceivedCharacter(char),
    /// The user asked to close the window.
    Closed,
    /// Anything else: mouse, focus, resize.
    Other,
}

/// Whether `event` reports that `key` went the way `state` says.
pub open spec fn is_key_event(event: InputEvent, state: KeyState, key: KeyCode) -> bool {
    event == InputEvent::KeyboardInput(state, Some(key))
}

/// Whether some event of `batch` reports that `key` went the way `state` says.
pub open spec fn holds_key_event(batch: Seq<InputEvent>, state: KeyState, key: KeyCode) -> bool {
    exists|i: int| 0 <= i < batch.len() && is_key_event(#[trigger] batch[i], state, key)
}

/// Whether `found` is the character of the first character-entry event of `batch`,
/// or `None` where the batch has no such event.
pub open spec fn is_first_character(batch: Seq<InputEvent>, found: Option<char>) -> bool {
    match found {
        Some(c) => exists|i: int|
            0 <= i < batch.len() && #[trigger] batch[i] == InputEvent::ReceivedCharacter(c)
                && forall|j: int| 0 <= j < i ==> !(#[trigger] batch[j] is ReceivedCharacter),
        None => forall|j: int| 0 <= j < batch.len() ==> !(#[trigger] batch[j] is ReceivedCharacter),
    }
}

/// Tells whether `event` reports that `key` went the way `state` says.
pub fn matches_key(event: &InputEvent, state: KeyState, key: KeyCode) -> (hit: bool)
    ensures
        hit == is_key_event(*event, state, key),
{
    match event {
        InputEvent::KeyboardInput(key_state, Some(key_code)) => *key_state == state && *key_code == key,
        _ => false,
    }
}

/// Scans `batch` for an event that reports that `key` went the way `state` says.
pub fn scan_for_key(batch: &Vec<InputEvent>, state: KeyState, key: KeyCode) -> (hit: bool)
    ensures
        hit == holds_key_event(batch@, state, key),
{
    let mut i: usize = 0;
    while i < batch.len()
        invariant
            i <= batch.len(),
            forall|j: int| 0 <= j < i ==> !is_key_event(#[trigger] batch@[j], state, key),
        decreases batch.len() - i,
    {
        if matches_key(&batch[i], state, key) {
            return true;
        }
        i += 1;
    }
    false
}

/// Scans `batch` for the first character-entry event and gives its character.
pub fn scan_for_character(batch: &Vec<InputEvent>) -> (found: Option<char>)
    ensures
        is_first_character(batch@, found),
{
    let mut i: usize = 0;
    while i < batch.len()
        invariant
            i <= batch.len(),
            forall|j: int| 0 <= j < i ==> !(#[trigger] batch@[j] is ReceivedCharacter),
        decreases batch.len() - i,
    {
        if let InputEvent::ReceivedCharacter(c) = batch[i] {
            return Some(c);
        }
        i += 1;
    }
    None
}

/// At most one answer is the first character of a batch.
pub proof fn law_first_character_unique(batch: Seq<InputEvent>, a: Option<char>, b: Option<char>)
    requires
        is_first_character(batch, a),
        is_first_character(batch, b),
    ensures
        a == b,
{
    if a is Some && b is Some {
        let i = choose|i: int|
            0 <= i < batch.len() && #[trigger] batch[i] == InputEvent::ReceivedCharacter(a->0)
                && forall|j: int| 0 <= j < i ==> !(#[trigger] batch[j] is ReceivedCharacter);
        let k = choose|k: int|
            0 <= k < batch.len() && #[trigger] batch[k] == InputEvent::ReceivedCharacter(b->0)
                && forall|j: int| 0 <= j < k ==> !(#[trigger] batch[j] is ReceivedCharacter);
        assert(batch[i] is ReceivedCharacter);
        assert(batch[k] is ReceivedCharacter);
        assert(i == k);
    } else if a is Some {
        let i = choose|i: int|
            0 <= i < batch.len() && #[trigger] batch[i] == InputEvent::ReceivedCharacter(a->0)
                && forall|j: int| 0 <= j < i ==> !(#[trigger] batch[j] is ReceivedCharacter);
        assert(batch[i] is ReceivedCharacter);
    } else if b is Some {
        let k = choose|k: int|
            0 <= k < batch.len() && #[trigger] batch[k] == InputEvent::ReceivedCharacter(b->0)
                && forall|j: int| 0 <= j < k ==> !(#[trigger] batch[j] is ReceivedCharacter);
        assert(batch[k] is ReceivedCharacter);
    }
}

} // verus!

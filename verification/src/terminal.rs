use vstd::prelude::*;

use crate::input::{modifier_bits, modifiers, KeyAction, KeyModifiers, Modifiers};
use crate::keymap::{mac_keycode, mac_keycode_spec};
use crate::text::{chars_of, contains_nul, has_nul};

verus! {

/// An opaque RGB color.
#[derive(Clone, Copy, Debug, PartialEq, Eq, Structural)]
pub struct TerminalColor {
    pub r: u8,
    pub g: u8,
    pub b: u8,
}

impl TerminalColor {
    /// The color with these red, green and blue components.
    pub fn new(r: u8, g: u8, b: u8) -> (color: Self)
        ensures
            color == (TerminalColor { r, g, b }),
    {
        TerminalColor { r, g, b }
    }
}

/// Application-owned terminal colors: background, foreground and the
/// 16-color ANSI palette from which the remaining indexed colors are
/// generated.
#[derive(Clone, Copy, Debug, PartialEq, Eq)]
pub struct TerminalTheme {
    pub background: TerminalColor,
    pub foreground: TerminalColor,
    pub palette: [TerminalColor; 16],
}

impl TerminalTheme {
    /// A theme with these background, foreground and palette colors.
    pub fn new(background: TerminalColor, foreground: TerminalColor, palette: [TerminalColor; 16]) -> (
        theme: Self)
        ensures
            theme.background == background,
            theme.foreground == foreground,
            theme.palette == palette,
    {
        TerminalTheme { background, foreground, palette }
    }
}

/// Which Ghostty configuration a terminal starts from.
#[derive(Clone, Copy, Debug, PartialEq, Eq)]
pub enum TerminalConfiguration {
    /// Bare Ghostty defaults; no user files are read.
    Default,
    /// Ghostty's default configuration files and those they reference.
    UserDefault,
    /// Bare defaults with the supplied colors applied.
    Custom(TerminalTheme),
    /// The user's configuration first, then the supplied colors, which win.
    UserDefaultWithOverride(TerminalTheme),
}

/// Configuration for a terminal process rendered by libghostty.
pub struct TerminalOptions {
    pub command: String,
    pub working_directory: String,
    pub focus_on_spawn: bool,
    pub configuration: TerminalConfiguration,
}

impl TerminalOptions {
    /// Options that run `command` in `working_directory` from bare Ghostty
    /// defaults (reading no user files) and focus the terminal once it is
    /// spawned.
    pub fn new(command: String, working_directory: String) -> (options: Self)
        ensures
            options.command == command,
            options.working_directory == working_directory,
            options.focus_on_spawn,
            options.configuration == TerminalConfiguration::Default,
    {
        TerminalOptions {
            command,
            working_directory,
            focus_on_spawn: true,
            configuration: TerminalConfiguration::Default,
        }
    }
}

/// The prefix of the error for a working directory that holds a NUL byte.
pub open spec fn nul_directory_message(working_directory: Seq<char>) -> Seq<char> {
    "terminal working directory contains a NUL byte: "@ + working_directory
}

/// The error for a command that holds a NUL byte.
pub open spec fn nul_command_message() -> Seq<char> {
    "terminal command contains a NUL byte"@
}

/// Checks that the working directory and the command can be handed to the
/// native surface as C strings; the directory is checked first.
pub fn validate_spawn(options: &TerminalOptions) -> (result: Result<(), String>)
    ensures
        has_nul(options.working_directory@) ==> (result matches Err(e) && e@
            == nul_directory_message(options.working_directory@)),
        !has_nul(options.working_directory@) && has_nul(options.command@) ==> (result matches Err(
            e,
        ) && e@ == nul_command_message()),
        !has_nul(options.working_directory@) && !has_nul(options.command@) ==> result is Ok,
{
    if contains_nul(options.working_directory.as_str()) {
        let mut message = String::new();
        message.append("terminal working directory contains a NUL byte: ");
        message.append(options.working_directory.as_str());
        return Err(message);
    }
    if contains_nul(options.command.as_str()) {
        let mut message = String::new();
        message.append("terminal command contains a NUL byte");
        return Err(message);
    }
    Ok(())
}

/// A key event as the windowing layer reports it.
pub struct Keystroke {
    /// The key's name, such as `"a"`, `"enter"` or `"pageup"`.
    pub key: String,
    /// The text the key produces, if any.
    pub key_char: Option<String>,
    pub modifiers: KeyModifiers,
}

/// A key event in the form the native surface takes. No modifier is ever
/// reported as consumed by the key's text.
pub struct KeyEvent {
    pub action: KeyAction,
    pub modifiers: Modifiers,
    pub consumed_modifiers: Modifiers,
    pub keycode: u32,
    pub text: Option<String>,
    pub unshifted_codepoint: u32,
}

/// What a key event becomes for the native surface.
pub enum KeyDispatch {
    /// A key with a fixed key code.
    Key(KeyEvent),
    /// Text to insert for a key without a key code.
    Text(String),
    /// Nothing is sent.
    Ignored,
}

/// Whether `action` presses the key, afresh or by repetition.
pub open spec fn is_press(action: KeyAction) -> bool {
    action == KeyAction::Press || action == KeyAction::Repeat
}

/// The text of a key that can cross to the native surface as a C string.
pub open spec fn sendable_text(key_char: Option<String>) -> Option<Seq<char>> {
    match key_char {
        Some(text) => if has_nul(text@) {
            None
        } else {
            Some(text@)
        },
        None => None,
    }
}

/// The code point of the key name's first character, or zero for an empty
/// name.
pub open spec fn unshifted_codepoint(key: Seq<char>) -> u32 {
    if key.len() > 0 {
        key[0] as u32
    } else {
        0
    }
}

/// What the native surface receives for `keystroke` under `action`: keys
/// with a key code go as key events carrying their text; other keys are
/// typed as text, but only when pressed without control, alt or the
/// platform key.
pub open spec fn dispatch_matches(
    action: KeyAction,
    keystroke: Keystroke,
    dispatch: KeyDispatch,
) -> bool {
    match mac_keycode_spec(keystroke.key@) {
        Some(code) => match dispatch {
            KeyDispatch::Key(event) => {
                &&& event.action == action
                &&& event.modifiers@ == modifier_bits(keystroke.modifiers)
                &&& event.consumed_modifiers@ == 0
                &&& event.keycode == code
                &&& match (event.text, sendable_text(keystroke.key_char)) {
                    (Some(sent), Some(expected)) => sent@ == expected,
                    (None, None) => true,
                    _ => false,
                }
                &&& event.unshifted_codepoint == unshifted_codepoint(keystroke.key@)
            },
            _ => false,
        },
        None => {
            let typed = is_press(action) && !keystroke.modifiers.control
                && !keystroke.modifiers.alt && !keystroke.modifiers.platform;
            match (typed, sendable_text(keystroke.key_char)) {
                (true, Some(expected)) => dispatch matches KeyDispatch::Text(sent) && sent@
                    == expected,
                _ => dispatch is Ignored,
            }
        },
    }
}

/// The text of a key if it can cross to the native surface.
fn sendable(key_char: &Option<String>) -> (text: Option<String>)
    ensures
        match (text, sendable_text(*key_char)) {
            (Some(sent), Some(expected)) => sent@ == expected,
            (None, None) => true,
            _ => false,
        },
{
    match key_char {
        Some(text) => {
            if contains_nul(text.as_str()) {
                None
            } else {
                Some(text.clone())
            }
        },
        None => None,
    }
}

/// Decides what the native surface receives for a key event.
pub fn key_dispatch(action: KeyAction, keystroke: &Keystroke) -> (dispatch: KeyDispatch)
    ensures
        dispatch_matches(action, *keystroke, dispatch),
{
    match mac_keycode(keystroke.key.as_str()) {
        None => {
            let pressed = match action {
                KeyAction::Press => true,
                KeyAction::Repeat => true,
                KeyAction::Release => false,
            };
            if pressed && !keystroke.modifiers.control && !keystroke.modifiers.alt
                && !keystroke.modifiers.platform {
                match sendable(&keystroke.key_char) {
                    Some(text) => KeyDispatch::Text(text),
                    None => KeyDispatch::Ignored,
                }
            } else {
                KeyDispatch::Ignored
            }
        },
        Some(keycode) => {
            let key_chars = chars_of(keystroke.key.as_str());
            let unshifted: u32 = if key_chars.len() > 0 {
                key_chars[0] as u32
            } else {
                0
            };
            KeyDispatch::Key(
                KeyEvent {
                    action,
                    modifiers: modifiers(keystroke.modifiers),
                    consumed_modifiers: Modifiers::empty(),
                    keycode,
                    text: sendable(&keystroke.key_char),
                    unshifted_codepoint: unshifted,
                },
            )
        },
    }
}

/// The action of a key-down event: a repeat when the key is held.
pub open spec fn key_down_action(is_held: bool) -> KeyAction {
    if is_held {
        KeyAction::Repeat
    } else {
        KeyAction::Press
    }
}

/// What the native surface receives when a key goes down.
pub fn key_down(is_held: bool, keystroke: &Keystroke) -> (dispatch: KeyDispatch)
    ensures
        dispatch_matches(key_down_action(is_held), *keystroke, dispatch),
{
    let action = if is_held {
        KeyAction::Repeat
    } else {
        KeyAction::Press
    };
    key_dispatch(action, keystroke)
}

/// What the native surface receives when a key goes up.
pub fn key_up(keystroke: &Keystroke) -> (dispatch: KeyDispatch)
    ensures
        dispatch_matches(KeyAction::Release, *keystroke, dispatch),
{
    key_dispatch(KeyAction::Release, keystroke)
}

/// Text that the terminal asked to place on the clipboard.
pub struct ClipboardWrite {
    /// Whether the primary selection, rather than the clipboard, is meant.
    pub selection: bool,
    pub text: String,
}

} // verus!

verus! {

/// For a key without a key code, an auto-repeat types exactly as a fresh
/// press does, and a press or repeat with no control, alt or platform key
/// held types the key's text whenever that text has no NUL.
pub proof fn lemma_repeat_types_like_press(keystroke: Keystroke, action: KeyAction, dispatch: KeyDispatch)
    requires
        mac_keycode_spec(keystroke.key@) is None,
    ensures
        dispatch_matches(KeyAction::Repeat, keystroke, dispatch) == dispatch_matches(
            KeyAction::Press,
            keystroke,
            dispatch,
        ),
        (action == KeyAction::Press || action == KeyAction::Repeat) && !keystroke.modifiers.control
            && !keystroke.modifiers.alt && !keystroke.modifiers.platform && (
        keystroke.key_char matches Some(text) && !text@.contains('\0')) && dispatch_matches(
            action,
            keystroke,
            dispatch,
        ) ==> (dispatch matches KeyDispatch::Text(typed) && typed@ == keystroke.key_char->0@),
{
}

} // verus!

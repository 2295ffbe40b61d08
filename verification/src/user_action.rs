//! The classifier of key events: from a virtual-key code and the modifier
//! keys to the abstract action that the state machine consumes.

use vstd::prelude::*;

use crate::config::ShortcutConfig;

verus! {

/// What the user asked for with one key.
#[derive(Debug, Clone, Copy, PartialEq, Eq, Structural)]
pub enum UserAction {
    Input(char),
    Backspace,
    Enter,
    Space,
    Tab,
    Escape,
    Unknown,
    Navigation(Navigation),
    Function(Function),
    Number { value: i8, is_numpad: bool },
    NumpadSymbol(char),
    ToggleInputMode,
    InputModeOn,
    InputModeOff,
    CommitFirstClause,
    CommitAndNextClause,
    AdjustClauseBoundary(i32),
}

/// One of the four arrow keys.
#[derive(Debug, Clone, Copy, PartialEq, Eq, Structural)]
pub enum Navigation {
    Up,
    Down,
    Left,
    Right,
}

/// One of the five function keys that pick a script.
#[derive(Debug, Clone, Copy, PartialEq, Eq, Structural)]
pub enum Function {
    Six,
    Seven,
    Eight,
    Nine,
    Ten,
}

/// Why a key could not be classified.
#[derive(Debug, Clone, Copy, PartialEq, Eq, Structural)]
pub enum KeyError {
    /// The keyboard layout had to be consulted and its state was not read.
    KeyboardState,
    /// The layout answered with a code unit that is no character.
    InvalidChar,
}

/// What the keyboard layout says of a key.
#[derive(Debug, Clone, Copy, PartialEq, Eq, Structural)]
pub enum LayoutLookup {
    /// The keyboard state was not read.
    NotRead,
    /// The UTF-16 code unit that the key writes; 0 where it writes none.
    Unit(u16),
}

/// One key press with the modifier keys as they stood.
#[derive(Debug, Clone, Copy, PartialEq, Eq, Structural)]
pub struct KeyEvent {
    /// Whether the host handed an editing context along with the key.
    pub has_context: bool,
    /// The virtual-key code.
    pub key_code: usize,
    /// The key message's data word: repeat count, scan code, context bits.
    pub key_data: usize,
    pub ctrl_pressed: bool,
    pub shift_pressed: bool,
    pub alt_pressed: bool,
}

/// The first verdict on a key, before any keyboard layout is consulted.
#[derive(Debug, Clone, Copy, PartialEq, Eq, Structural)]
pub enum KeyClass {
    /// The engine yields no action: the key passes through untouched.
    Inert,
    /// The key is this action.
    Action(UserAction),
    /// Only the keyboard layout can tell; see [`UserAction::from_layout`].
    FromLayout,
}

pub const VK_BACK: usize = 0x08;
pub const VK_TAB: usize = 0x09;
pub const VK_RETURN: usize = 0x0D;
pub const VK_IME_ON: usize = 0x16;
pub const VK_IME_OFF: usize = 0x1A;
pub const VK_ESCAPE: usize = 0x1B;
pub const VK_SPACE: usize = 0x20;
pub const VK_LEFT: usize = 0x25;
pub const VK_UP: usize = 0x26;
pub const VK_RIGHT: usize = 0x27;
pub const VK_DOWN: usize = 0x28;
pub const VK_0: usize = 0x30;
pub const VK_9: usize = 0x39;
pub const VK_NUMPAD0: usize = 0x60;
pub const VK_NUMPAD9: usize = 0x69;
pub const VK_F6: usize = 0x75;
pub const VK_F7: usize = 0x76;
pub const VK_F8: usize = 0x77;
pub const VK_F9: usize = 0x78;
pub const VK_F10: usize = 0x79;
pub const VK_OEM_3: usize = 0xC0;
pub const VK_OEM_AUTO: usize = 0xF3;
pub const VK_OEM_ENLW: usize = 0xF4;
pub const SCAN_CODE_BACKQUOTE: usize = 0x29;
pub const ALT_CONTEXT_BIT: usize = 0x2000_0000;

/// The fixed table of keys: the action of a virtual-key code under the
/// control and shift keys, or `None` where the keyboard layout decides.
/// A digit key counts as a number only while shift is up.
pub open spec fn key_table(key_code: int, ctrl_pressed: bool, shift_pressed: bool) -> Option<
    UserAction,
> {
    if key_code == VK_BACK {
        Some(UserAction::Backspace)
    } else if key_code == VK_TAB {
        Some(UserAction::Tab)
    } else if key_code == VK_RETURN {
        Some(UserAction::Enter)
    } else if key_code == VK_SPACE {
        Some(if ctrl_pressed { UserAction::ToggleInputMode } else { UserAction::Space })
    } else if key_code == VK_ESCAPE {
        Some(UserAction::Escape)
    } else if key_code == VK_LEFT {
        Some(UserAction::Navigation(Navigation::Left))
    } else if key_code == VK_UP {
        Some(UserAction::Navigation(Navigation::Up))
    } else if key_code == VK_RIGHT {
        Some(UserAction::Navigation(Navigation::Right))
    } else if key_code == VK_DOWN {
        Some(UserAction::Navigation(Navigation::Down))
    } else if VK_0 <= key_code <= VK_9 && !shift_pressed {
        Some(UserAction::Number { value: (key_code - VK_0) as i8, is_numpad: false })
    } else if VK_NUMPAD0 <= key_code <= VK_NUMPAD9 && !shift_pressed {
        Some(UserAction::Number { value: (key_code - VK_NUMPAD0) as i8, is_numpad: true })
    } else if key_code == VK_F6 {
        Some(UserAction::Function(Function::Six))
    } else if key_code == VK_F7 {
        Some(UserAction::Function(Function::Seven))
    } else if key_code == VK_F8 {
        Some(UserAction::Function(Function::Eight))
    } else if key_code == VK_F9 {
        Some(UserAction::Function(Function::Nine))
    } else if key_code == VK_F10 {
        Some(UserAction::Function(Function::Ten))
    } else if key_code == VK_IME_ON {
        Some(UserAction::InputModeOn)
    } else if key_code == VK_IME_OFF {
        Some(UserAction::InputModeOff)
    } else if key_code == VK_OEM_AUTO || key_code == VK_OEM_ENLW {
        Some(UserAction::ToggleInputMode)
    } else {
        None
    }
}

/// What the keyboard layout's answer makes of a key that the fixed table
/// does not hold: a character, "unknown" where the key writes nothing, and
/// a failure where the state was not read or the answer is no character.
pub open spec fn layout_action(lookup: LayoutLookup) -> Result<UserAction, KeyError> {
    match lookup {
        LayoutLookup::NotRead => Err(KeyError::KeyboardState),
        LayoutLookup::Unit(unit) => {
            if unit == 0 {
                Ok(UserAction::Unknown)
            } else if 0xD800 <= unit <= 0xDFFF {
                Err(KeyError::InvalidChar)
            } else {
                Ok(UserAction::Input(unit as char))
            }
        },
    }
}

impl KeyEvent {
    /// Whether the key is the backquote key pressed with alt held: alt is
    /// held where the host saw it pressed or the data word carries the
    /// context bit, and the key is the backquote key by its virtual-key
    /// code or by its scan code.
    pub open spec fn spec_is_alt_backquote(self) -> bool {
        let alt = self.alt_pressed || (self.key_data & ALT_CONTEXT_BIT) != 0;
        let scan_code = (self.key_data >> 16) & 0xFF;
        alt && (self.key_code == VK_OEM_3 || scan_code == SCAN_CODE_BACKQUOTE)
    }

    /// Whether the key is the backquote key pressed with alt held.
    pub fn is_alt_backquote(&self) -> (b: bool)
        ensures
            b == self.spec_is_alt_backquote(),
    {
        let is_alt_pressed = self.alt_pressed || (self.key_data & ALT_CONTEXT_BIT) != 0;
        let scan_code = (self.key_data >> 16) & 0xFF;
        let is_backquote_key = self.key_code == VK_OEM_3 || scan_code == SCAN_CODE_BACKQUOTE;
        is_alt_pressed && is_backquote_key
    }
}

/// The verdict on a key event under the shortcut flags.
///
/// Without an editing context the key is inert. With control held, only
/// control+space, alt+backquote, control+enter and control+down are the
/// engine's; of these the first two are inert unless their flag is set.
/// Then, in this order: alt+backquote toggles the input mode,
/// control+enter commits the first clause, control+down commits and
/// advances, shift+left and shift+right move the clause boundary by one,
/// and every other key goes by the fixed table.
pub open spec fn key_class(key: KeyEvent, shortcuts: ShortcutConfig) -> KeyClass {
    let ctrl_space = key.ctrl_pressed && key.key_code == VK_SPACE;
    let ctrl_enter = key.ctrl_pressed && key.key_code == VK_RETURN;
    let ctrl_down = key.ctrl_pressed && key.key_code == VK_DOWN;
    let alt_backquote = key.spec_is_alt_backquote();
    if !key.has_context {
        KeyClass::Inert
    } else if key.ctrl_pressed && !ctrl_space && !alt_backquote && !ctrl_enter && !ctrl_down {
        KeyClass::Inert
    } else if ctrl_space && !shortcuts.ctrl_space_toggle {
        KeyClass::Inert
    } else if alt_backquote && !shortcuts.alt_backquote_toggle {
        KeyClass::Inert
    } else if alt_backquote {
        KeyClass::Action(UserAction::ToggleInputMode)
    } else if ctrl_enter {
        KeyClass::Action(UserAction::CommitFirstClause)
    } else if ctrl_down {
        KeyClass::Action(UserAction::CommitAndNextClause)
    } else if key.shift_pressed && key.key_code == VK_LEFT {
        KeyClass::Action(UserAction::AdjustClauseBoundary(-1i32))
    } else if key.shift_pressed && key.key_code == VK_RIGHT {
        KeyClass::Action(UserAction::AdjustClauseBoundary(1))
    } else {
        match key_table(key.key_code as int, key.ctrl_pressed, key.shift_pressed) {
            Some(action) => KeyClass::Action(action),
            None => KeyClass::FromLayout,
        }
    }
}

/// The action of a key event once the layout has answered: `Ok(None)` for
/// an inert key, and the failure of the layout lookup where it was needed.
pub open spec fn key_action(key: KeyEvent, shortcuts: ShortcutConfig, lookup: LayoutLookup)
    -> Result<Option<UserAction>, KeyError> {
    match key_class(key, shortcuts) {
        KeyClass::Inert => Ok(None),
        KeyClass::Action(action) => Ok(Some(action)),
        KeyClass::FromLayout => match layout_action(lookup) {
            Ok(action) => Ok(Some(action)),
            Err(error) => Err(error),
        },
    }
}

impl UserAction {
    /// Looks a virtual-key code up in the fixed table.
    pub fn try_from_key(key_code: usize, ctrl_pressed: bool, shift_pressed: bool) -> (found: Option<
        UserAction,
    >)
        ensures
            found == key_table(key_code as int, ctrl_pressed, shift_pressed),
    {
        if key_code == VK_BACK {
            Some(UserAction::Backspace)
        } else if key_code == VK_TAB {
            Some(UserAction::Tab)
        } else if key_code == VK_RETURN {
            Some(UserAction::Enter)
        } else if key_code == VK_SPACE {
            if ctrl_pressed {
                Some(UserAction::ToggleInputMode)
            } else {
                Some(UserAction::Space)
            }
        } else if key_code == VK_ESCAPE {
            Some(UserAction::Escape)
        } else if key_code == VK_LEFT {
            Some(UserAction::Navigation(Navigation::Left))
        } else if key_code == VK_UP {
            Some(UserAction::Navigation(Navigation::Up))
        } else if key_code == VK_RIGHT {
            Some(UserAction::Navigation(Navigation::Right))
        } else if key_code == VK_DOWN {
            Some(UserAction::Navigation(Navigation::Down))
        } else if VK_0 <= key_code && key_code <= VK_9 && !shift_pressed {
            Some(UserAction::Number { value: (key_code - VK_0) as i8, is_numpad: false })
        } else if VK_NUMPAD0 <= key_code && key_code <= VK_NUMPAD9 && !shift_pressed {
            Some(UserAction::Number { value: (key_code - VK_NUMPAD0) as i8, is_numpad: true })
        } else if key_code == VK_F6 {
            Some(UserAction::Function(Function::Six))
        } else if key_code == VK_F7 {
            Some(UserAction::Function(Function::Seven))
        } else if key_code == VK_F8 {
            Some(UserAction::Function(Function::Eight))
        } else if key_code == VK_F9 {
            Some(UserAction::Function(Function::Nine))
        } else if key_code == VK_F10 {
            Some(UserAction::Function(Function::Ten))
        } else if key_code == VK_IME_ON {
            Some(UserAction::InputModeOn)
        } else if key_code == VK_IME_OFF {
            Some(UserAction::InputModeOff)
        } else if key_code == VK_OEM_AUTO || key_code == VK_OEM_ENLW {
            Some(UserAction::ToggleInputMode)
        } else {
            None
        }
    }

    /// Turns the keyboard layout's answer into an action.
    pub fn from_layout(lookup: LayoutLookup) -> (result: Result<UserAction, KeyError>)
        ensures
            result == layout_action(lookup),
    {
        match lookup {
            LayoutLookup::NotRead => Err(KeyError::KeyboardState),
            LayoutLookup::Unit(unit) => {
                if unit == 0 {
                    Ok(UserAction::Unknown)
                } else {
                    match char::from_u32(unit as u32) {
                        Some(c) => Ok(UserAction::Input(c)),
                        None => Err(KeyError::InvalidChar),
                    }
                }
            },
        }
    }
}

/// Gives the first verdict on a key event, without the keyboard layout.
pub fn classify_key(key: &KeyEvent, shortcuts: &ShortcutConfig) -> (class: KeyClass)
    ensures
        class == key_class(*key, *shortcuts),
{
    if !key.has_context {
        return KeyClass::Inert;
    }
    let is_ctrl_space = key.ctrl_pressed && key.key_code == VK_SPACE;
    let is_ctrl_enter = key.ctrl_pressed && key.key_code == VK_RETURN;
    let is_ctrl_down = key.ctrl_pressed && key.key_code == VK_DOWN;
    let is_shift_left = key.shift_pressed && key.key_code == VK_LEFT;
    let is_shift_right = key.shift_pressed && key.key_code == VK_RIGHT;
    let is_alt_backquote = key.is_alt_backquote();

    if key.ctrl_pressed && !is_ctrl_space && !is_alt_backquote && !is_ctrl_enter && !is_ctrl_down {
        return KeyClass::Inert;
    }
    if is_ctrl_space && !shortcuts.ctrl_space_toggle {
        return KeyClass::Inert;
    }
    if is_alt_backquote && !shortcuts.alt_backquote_toggle {
        return KeyClass::Inert;
    }
    if is_alt_backquote {
        KeyClass::Action(UserAction::ToggleInputMode)
    } else if is_ctrl_enter {
        KeyClass::Action(UserAction::CommitFirstClause)
    } else if is_ctrl_down {
        KeyClass::Action(UserAction::CommitAndNextClause)
    } else if is_shift_left {
        KeyClass::Action(UserAction::AdjustClauseBoundary(-1))
    } else if is_shift_right {
        KeyClass::Action(UserAction::AdjustClauseBoundary(1))
    } else {
        match UserAction::try_from_key(key.key_code, key.ctrl_pressed, key.shift_pressed) {
            Some(action) => KeyClass::Action(action),
            None => KeyClass::FromLayout,
        }
    }
}

/// Classifies a key event with the keyboard layout's answer at hand.
pub fn classify(key: &KeyEvent, shortcuts: &ShortcutConfig, lookup: LayoutLookup) -> (result:
    Result<Option<UserAction>, KeyError>)
    ensures
        result == key_action(*key, *shortcuts, lookup),
{
    match classify_key(key, shortcuts) {
        KeyClass::Inert => Ok(None),
        KeyClass::Action(action) => Ok(Some(action)),
        KeyClass::FromLayout => match UserAction::from_layout(lookup) {
            Ok(action) => Ok(Some(action)),
            Err(error) => Err(error),
        },
    }
}

} // verus!

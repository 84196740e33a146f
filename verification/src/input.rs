use vstd::prelude::*;
use crate::text::{is_printable, spec_is_printable};

verus! {

/// A mouse button as the windowing system reports it.
#[derive(Clone, Copy, Debug, PartialEq, Eq, Structural)]
pub enum MouseButton {
    Left,
    Right,
    Middle,
    Other(u16),
}

/// The mouse buttons that the immediate mode user interface tracks.
#[derive(Clone, Copy, Debug, PartialEq, Eq, Structural)]
pub enum UiMouseButton {
    Left,
    Right,
    Middle,
    Extra1,
    Extra2,
}

/// The user interface button that a window mouse button drives: the three
/// named buttons, and the other buttons 0 to 4 as the same three and two
/// extra buttons; any other button drives none.
pub fn ui_mouse_button(button: MouseButton) -> (r: Option<UiMouseButton>)
    ensures
        r == match button {
            MouseButton::Left => Some(UiMouseButton::Left),
            MouseButton::Right => Some(UiMouseButton::Right),
            MouseButton::Middle => Some(UiMouseButton::Middle),
            MouseButton::Other(n) => if n == 0 {
                Some(UiMouseButton::Left)
            } else if n == 1 {
                Some(UiMouseButton::Right)
            } else if n == 2 {
                Some(UiMouseButton::Middle)
            } else if n == 3 {
                Some(UiMouseButton::Extra1)
            } else if n == 4 {
                Some(UiMouseButton::Extra2)
            } else {
                None
            },
        },
{
    match button {
        MouseButton::Left => Some(UiMouseButton::Left),
        MouseButton::Right => Some(UiMouseButton::Right),
        MouseButton::Middle => Some(UiMouseButton::Middle),
        MouseButton::Other(n) => {
            if n == 0 {
                Some(UiMouseButton::Left)
            } else if n == 1 {
                Some(UiMouseButton::Right)
            } else if n == 2 {
                Some(UiMouseButton::Middle)
            } else if n == 3 {
                Some(UiMouseButton::Extra1)
            } else if n == 4 {
                Some(UiMouseButton::Extra2)
            } else {
                None
            }
        },
    }
}

/// The pointer buttons of the retained user interface.
#[derive(Clone, Copy, Debug, PartialEq, Eq, Structural)]
pub enum PointerButton {
    Primary,
    Secondary,
    Middle,
}

/// The pointer button that a window mouse button presses: the three named
/// buttons only.
pub fn pointer_button(button: MouseButton) -> (r: Option<PointerButton>)
    ensures
        r == match button {
            MouseButton::Left => Some(PointerButton::Primary),
            MouseButton::Right => Some(PointerButton::Secondary),
            MouseButton::Middle => Some(PointerButton::Middle),
            MouseButton::Other(_) => None,
        },
{
    match button {
        MouseButton::Left => Some(PointerButton::Primary),
        MouseButton::Right => Some(PointerButton::Secondary),
        MouseButton::Middle => Some(PointerButton::Middle),
        MouseButton::Other(_) => None,
    }
}

/// Whether the immediate mode interface takes a typed character as input:
/// all but the delete character, which would otherwise be inserted and then
/// deleted.
pub fn ui_accepts_char(ch: char) -> (r: bool)
    ensures
        r == (ch != '\u{7f}'),
{
    ch != '\u{7f}'
}

/// Whether the retained interface takes a typed character as text: a
/// printable character typed without the control or logo key.
pub fn accepts_text(ch: char, ctrl: bool, logo: bool) -> (r: bool)
    ensures
        r == (spec_is_printable(ch) && !ctrl && !logo),
{
    is_printable(ch) && !ctrl && !logo
}

/// A key of the window's keyboard: the keys that the retained interface
/// knows, the copy, cut and paste letters, and every other key.
#[derive(Clone, Copy, Debug, PartialEq, Eq, Structural)]
pub enum WindowKey {
    Escape,
    Insert,
    Home,
    Delete,
    End,
    PageDown,
    PageUp,
    Left,
    Up,
    Right,
    Down,
    Back,
    Return,
    Tab,
    Space,
    A,
    K,
    U,
    W,
    Z,
    C,
    X,
    V,
    Other,
}

/// The keys of the retained interface.
#[derive(Clone, Copy, Debug, PartialEq, Eq, Structural)]
pub enum UiKey {
    Escape,
    Insert,
    Home,
    Delete,
    End,
    PageDown,
    PageUp,
    ArrowLeft,
    ArrowUp,
    ArrowRight,
    ArrowDown,
    Backspace,
    Enter,
    Tab,
    Space,
    A,
    K,
    U,
    W,
    Z,
}

/// The interface key of a window key, for the keys the interface knows.
pub open spec fn spec_ui_key(key: WindowKey) -> Option<UiKey> {
    match key {
        WindowKey::Escape => Some(UiKey::Escape),
        WindowKey::Insert => Some(UiKey::Insert),
        WindowKey::Home => Some(UiKey::Home),
        WindowKey::Delete => Some(UiKey::Delete),
        WindowKey::End => Some(UiKey::End),
        WindowKey::PageDown => Some(UiKey::PageDown),
        WindowKey::PageUp => Some(UiKey::PageUp),
        WindowKey::Left => Some(UiKey::ArrowLeft),
        WindowKey::Up => Some(UiKey::ArrowUp),
        WindowKey::Right => Some(UiKey::ArrowRight),
        WindowKey::Down => Some(UiKey::ArrowDown),
        WindowKey::Back => Some(UiKey::Backspace),
        WindowKey::Return => Some(UiKey::Enter),
        WindowKey::Tab => Some(UiKey::Tab),
        WindowKey::Space => Some(UiKey::Space),
        WindowKey::A => Some(UiKey::A),
        WindowKey::K => Some(UiKey::K),
        WindowKey::U => Some(UiKey::U),
        WindowKey::W => Some(UiKey::W),
        WindowKey::Z => Some(UiKey::Z),
        _ => None,
    }
}

/// Translates window keys to interface keys; keys the interface does not
/// know translate to nothing.
pub fn to_ui_key(key: WindowKey) -> (r: Option<UiKey>)
    ensures
        r == spec_ui_key(key),
{
    match key {
        WindowKey::Escape => Some(UiKey::Escape),
        WindowKey::Insert => Some(UiKey::Insert),
        WindowKey::Home => Some(UiKey::Home),
        WindowKey::Delete => Some(UiKey::Delete),
        WindowKey::End => Some(UiKey::End),
        WindowKey::PageDown => Some(UiKey::PageDown),
        WindowKey::PageUp => Some(UiKey::PageUp),
        WindowKey::Left => Some(UiKey::ArrowLeft),
        WindowKey::Up => Some(UiKey::ArrowUp),
        WindowKey::Right => Some(UiKey::ArrowRight),
        WindowKey::Down => Some(UiKey::ArrowDown),
        WindowKey::Back => Some(UiKey::Backspace),
        WindowKey::Return => Some(UiKey::Enter),
        WindowKey::Tab => Some(UiKey::Tab),
        WindowKey::Space => Some(UiKey::Space),
        WindowKey::A => Some(UiKey::A),
        WindowKey::K => Some(UiKey::K),
        WindowKey::U => Some(UiKey::U),
        WindowKey::W => Some(UiKey::W),
        WindowKey::Z => Some(UiKey::Z),
        _ => None,
    }
}

/// Different window keys translate to different interface keys.
pub proof fn law_ui_key_is_injective(a: WindowKey, b: WindowKey)
    ensures
        spec_ui_key(a) is Some && spec_ui_key(a) == spec_ui_key(b) ==> a == b,
{
}

/// What a window key does, as (kind, x, y): arrows are kind 1 with the
/// direction they point (y grows downwards); page keys kind 2 moving a page
/// up or down; Home and End kind 3 moving to the start or end of the line;
/// erasing keys kind 4, backwards (Back) or forwards (Delete); keys that type
/// a character kind 5 with its code point; Escape 6, Insert 7, Return 8,
/// Tab 9; any other key kind 0.
pub open spec fn window_key_role(k: WindowKey) -> (int, int, int) {
    match k {
        WindowKey::Left => (1, -1, 0),
        WindowKey::Right => (1, 1, 0),
        WindowKey::Up => (1, 0, -1),
        WindowKey::Down => (1, 0, 1),
        WindowKey::PageUp => (2, 0, -1),
        WindowKey::PageDown => (2, 0, 1),
        WindowKey::Home => (3, -1, 0),
        WindowKey::End => (3, 1, 0),
        WindowKey::Back => (4, -1, 0),
        WindowKey::Delete => (4, 1, 0),
        WindowKey::Space => (5, 32, 0),
        WindowKey::A => (5, 97, 0),
        WindowKey::C => (5, 99, 0),
        WindowKey::K => (5, 107, 0),
        WindowKey::U => (5, 117, 0),
        WindowKey::V => (5, 118, 0),
        WindowKey::W => (5, 119, 0),
        WindowKey::X => (5, 120, 0),
        WindowKey::Z => (5, 122, 0),
        WindowKey::Escape => (6, 0, 0),
        WindowKey::Insert => (7, 0, 0),
        WindowKey::Return => (8, 0, 0),
        WindowKey::Tab => (9, 0, 0),
        WindowKey::Other => (0, 0, 0),
    }
}

/// What an interface key does, in the terms of `window_key_role`.
pub open spec fn ui_key_role(k: UiKey) -> (int, int, int) {
    match k {
        UiKey::ArrowLeft => (1, -1, 0),
        UiKey::ArrowRight => (1, 1, 0),
        UiKey::ArrowUp => (1, 0, -1),
        UiKey::ArrowDown => (1, 0, 1),
        UiKey::PageUp => (2, 0, -1),
        UiKey::PageDown => (2, 0, 1),
        UiKey::Home => (3, -1, 0),
        UiKey::End => (3, 1, 0),
        UiKey::Backspace => (4, -1, 0),
        UiKey::Delete => (4, 1, 0),
        UiKey::Space => (5, 32, 0),
        UiKey::A => (5, 97, 0),
        UiKey::K => (5, 107, 0),
        UiKey::U => (5, 117, 0),
        UiKey::W => (5, 119, 0),
        UiKey::Z => (5, 122, 0),
        UiKey::Escape => (6, 0, 0),
        UiKey::Insert => (7, 0, 0),
        UiKey::Enter => (8, 0, 0),
        UiKey::Tab => (9, 0, 0),
    }
}

/// Translation keeps what a key does: a translated key does in the interface
/// what it does on the keyboard (an arrow points the same way, a letter is
/// the same letter, Back erases backwards, Return is Enter, ...). Every key
/// that moves, erases, escapes, inserts, confirms or tabs is translated, and
/// of the character keys all but C, X and V (which only serve as
/// shortcuts); keys without a role are not.
pub proof fn law_ui_key_keeps_role(k: WindowKey)
    ensures
        spec_ui_key(k) matches Some(u) ==> ui_key_role(u) == window_key_role(k),
        window_key_role(k).0 != 5 && window_key_role(k).0 != 0 ==> spec_ui_key(k) is Some,
        window_key_role(k).0 == 5 ==> (spec_ui_key(k) is Some <==> (k != WindowKey::C && k != WindowKey::X
            && k != WindowKey::V)),
        window_key_role(k).0 == 0 ==> spec_ui_key(k) is None,
{
}

/// What a key press becomes in the retained interface.
#[derive(Clone, Copy, Debug, PartialEq, Eq, Structural)]
pub enum KeyAction {
    /// Nothing is sent.
    Ignore,
    /// The copy command.
    Copy,
    /// The cut command.
    Cut,
    /// A key event for this interface key.
    Key(UiKey),
}

/// What a keyboard event becomes: releases send nothing; with control held,
/// C copies, X cuts and V (pasting is not wired up) sends nothing; any other
/// press sends the key event of its interface key, or nothing when the
/// interface does not know the key.
pub open spec fn spec_key_action(pressed: bool, ctrl: bool, key: WindowKey) -> KeyAction {
    if !pressed {
        KeyAction::Ignore
    } else if ctrl && key == WindowKey::C {
        KeyAction::Copy
    } else if ctrl && key == WindowKey::X {
        KeyAction::Cut
    } else if ctrl && key == WindowKey::V {
        KeyAction::Ignore
    } else {
        match spec_ui_key(key) {
            Some(k) => KeyAction::Key(k),
            None => KeyAction::Ignore,
        }
    }
}

/// What a keyboard event becomes in the retained interface.
pub fn key_action(pressed: bool, ctrl: bool, key: WindowKey) -> (r: KeyAction)
    ensures
        r == spec_key_action(pressed, ctrl, key),
{
    if !pressed {
        KeyAction::Ignore
    } else if ctrl && key == WindowKey::C {
        KeyAction::Copy
    } else if ctrl && key == WindowKey::X {
        KeyAction::Cut
    } else if ctrl && key == WindowKey::V {
        KeyAction::Ignore
    } else {
        match to_ui_key(key) {
            Some(k) => KeyAction::Key(k),
            None => KeyAction::Ignore,
        }
    }
}

/// The mouse cursors that the immediate mode user interface asks for.
#[derive(Clone, Copy, Debug, PartialEq, Eq, Structural)]
pub enum UiCursor {
    Arrow,
    TextInput,
    ResizeAll,
    ResizeNS,
    ResizeEW,
    ResizeNESW,
    ResizeNWSE,
    Hand,
    NotAllowed,
}

/// The cursor icons of the window.
#[derive(Clone, Copy, Debug, PartialEq, Eq, Structural)]
pub enum WindowCursor {
    Default,
    Text,
    Move,
    NsResize,
    EwResize,
    NeswResize,
    NwseResize,
    Hand,
    NotAllowed,
}

/// The window icon that shows a user interface cursor.
pub open spec fn spec_window_cursor(c: UiCursor) -> WindowCursor {
    match c {
        UiCursor::Arrow => WindowCursor::Default,
        UiCursor::TextInput => WindowCursor::Text,
        UiCursor::ResizeAll => WindowCursor::Move,
        UiCursor::ResizeNS => WindowCursor::NsResize,
        UiCursor::ResizeEW => WindowCursor::EwResize,
        UiCursor::ResizeNESW => WindowCursor::NeswResize,
        UiCursor::ResizeNWSE => WindowCursor::NwseResize,
        UiCursor::Hand => WindowCursor::Hand,
        UiCursor::NotAllowed => WindowCursor::NotAllowed,
    }
}

/// The window icon that shows a user interface cursor.
pub fn to_window_cursor(cursor: UiCursor) -> (r: WindowCursor)
    ensures
        r == spec_window_cursor(cursor),
{
    match cursor {
        UiCursor::Arrow => WindowCursor::Default,
        UiCursor::TextInput => WindowCursor::Text,
        UiCursor::ResizeAll => WindowCursor::Move,
        UiCursor::ResizeNS => WindowCursor::NsResize,
        UiCursor::ResizeEW => WindowCursor::EwResize,
        UiCursor::ResizeNESW => WindowCursor::NeswResize,
        UiCursor::ResizeNWSE => WindowCursor::NwseResize,
        UiCursor::Hand => WindowCursor::Hand,
        UiCursor::NotAllowed => WindowCursor::NotAllowed,
    }
}

/// What a user interface cursor tells the user, as (kind, x, y): the plain
/// pointer is kind 1, the text cursor 2, moving 3, a resize 4 along the axis
/// (x, y) it resizes (y grows downwards: up-down is (0, 1), left-right
/// (1, 0), north-east to south-west (1, -1), north-west to south-east
/// (1, 1)), the hand 5, and the forbidden sign 6.
pub open spec fn ui_cursor_role(c: UiCursor) -> (int, int, int) {
    match c {
        UiCursor::Arrow => (1, 0, 0),
        UiCursor::TextInput => (2, 0, 0),
        UiCursor::ResizeAll => (3, 0, 0),
        UiCursor::ResizeNS => (4, 0, 1),
        UiCursor::ResizeEW => (4, 1, 0),
        UiCursor::ResizeNESW => (4, 1, -1),
        UiCursor::ResizeNWSE => (4, 1, 1),
        UiCursor::Hand => (5, 0, 0),
        UiCursor::NotAllowed => (6, 0, 0),
    }
}

/// What a window cursor icon tells the user, in the terms of
/// `ui_cursor_role`.
pub open spec fn window_cursor_role(c: WindowCursor) -> (int, int, int) {
    match c {
        WindowCursor::Default => (1, 0, 0),
        WindowCursor::Text => (2, 0, 0),
        WindowCursor::Move => (3, 0, 0),
        WindowCursor::NsResize => (4, 0, 1),
        WindowCursor::EwResize => (4, 1, 0),
        WindowCursor::NeswResize => (4, 1, -1),
        WindowCursor::NwseResize => (4, 1, 1),
        WindowCursor::Hand => (5, 0, 0),
        WindowCursor::NotAllowed => (6, 0, 0),
    }
}

/// The window shows an icon that tells the user what the interface's cursor
/// tells: a resize cursor shows the resize icon of the same axis, the text
/// cursor the text icon, and so on.
pub proof fn law_window_cursor_keeps_role(c: UiCursor)
    ensures
        window_cursor_role(spec_window_cursor(c)) == ui_cursor_role(c),
{
}

/// Every user interface cursor has an icon of its own.
pub proof fn law_window_cursor_is_injective(a: UiCursor, b: UiCursor)
    ensures
        spec_window_cursor(a) == spec_window_cursor(b) ==> a == b,
{
}

/// The cursor that the user interface wants in a frame: which cursor, if
/// any, and whether it draws the cursor itself.
#[derive(Clone, Copy, Debug, PartialEq, Eq, Structural)]
pub struct CursorSettings {
    pub cursor: Option<UiCursor>,
    pub draw_cursor: bool,
}

/// What is done to the window's cursor.
#[derive(Clone, Copy, Debug, PartialEq, Eq, Structural)]
pub enum CursorCommand {
    /// Make the cursor visible with this icon.
    Show(WindowCursor),
    /// Hide the cursor.
    Hide,
}

/// The window cursor for the given settings: the icon of the wanted cursor,
/// unless there is none or the interface draws it itself.
pub open spec fn spec_cursor_command(s: CursorSettings) -> CursorCommand {
    match s.cursor {
        Some(c) => if !s.draw_cursor { CursorCommand::Show(spec_window_cursor(c)) } else { CursorCommand::Hide },
        None => CursorCommand::Hide,
    }
}

impl CursorSettings {
    /// What applying these settings does to the window's cursor.
    pub fn command(&self) -> (r: CursorCommand)
        ensures
            r == spec_cursor_command(*self),
    {
        match self.cursor {
            Some(mouse_cursor) if !self.draw_cursor => CursorCommand::Show(to_window_cursor(mouse_cursor)),
            _ => CursorCommand::Hide,
        }
    }
}

/// The cursor settings last applied to the window.
pub struct CursorCache {
    pub last: Option<CursorSettings>,
}

impl CursorCache {
    /// Nothing applied yet.
    pub fn new() -> (r: Self)
        ensures
            r.last.is_none(),
    {
        CursorCache { last: None }
    }

    /// Takes the settings of a frame: the window's cursor is changed only
    /// when they differ from the last ones applied.
    pub fn update(&mut self, settings: CursorSettings) -> (r: Option<CursorCommand>)
        ensures
            final(self).last == Some(settings),
            r == if old(self).last == Some(settings) { None } else { Some(spec_cursor_command(settings)) },
    {
        let unchanged = match self.last {
            Some(last) => last == settings,
            None => false,
        };
        if unchanged {
            None
        } else {
            self.last = Some(settings);
            Some(settings.command())
        }
    }
}

} // verus!

//! Input events: as the terminal reports them, and as the widget toolkit
//! consumes them.
use vstd::prelude::*;

verus! {

/// A cell position or a screen size, zero-based.
#[derive(Clone, Copy, Debug, PartialEq, Eq, Structural, Hash)]
pub struct Vec2 {
    pub x: usize,
    pub y: usize,
}

impl Vec2 {
    pub fn new(x: usize, y: usize) -> (r: Vec2)
        ensures
            r == (Vec2 { x, y }),
    {
        Vec2 { x, y }
    }
}

/// A key as the terminal's input parser reports it.
#[derive(Clone, Copy, Debug, PartialEq, Eq, Structural, Hash)]
pub enum TermKey {
    Backspace,
    Left,
    Right,
    Up,
    Down,
    Home,
    End,
    PageUp,
    PageDown,
    BackTab,
    Delete,
    Insert,
    F(u8),
    Char(char),
    Alt(char),
    Ctrl(char),
    Null,
    Esc,
}

/// A mouse button as the terminal reports it.
#[derive(Clone, Copy, Debug, PartialEq, Eq, Structural, Hash)]
pub enum TermMouseButton {
    Left,
    Right,
    Middle,
    WheelUp,
    WheelDown,
}

/// A mouse event as the terminal reports it; coordinates are one-based.
#[derive(Clone, Copy, Debug, PartialEq, Eq, Structural, Hash)]
pub enum TermMouseEvent {
    Press(TermMouseButton, u16, u16),
    Release(u16, u16),
    Hold(u16, u16),
}

/// An input event as the terminal's input parser reports it.
#[derive(Clone, Debug, PartialEq, Eq, Hash)]
pub enum TermEvent {
    Key(TermKey),
    Mouse(TermMouseEvent),
    Unsupported(Vec<u8>),
}

/// A non-character key of the widget toolkit. `F(n)` has `n < 12`.
#[derive(Clone, Copy, Debug, PartialEq, Eq, Structural, Hash)]
pub enum Key {
    Enter,
    Tab,
    Backspace,
    Esc,
    Left,
    Right,
    Up,
    Down,
    Ins,
    Del,
    Home,
    End,
    PageUp,
    PageDown,
    F(u8),
}

/// A mouse button of the widget toolkit.
#[derive(Clone, Copy, Debug, PartialEq, Eq, Structural, Hash)]
pub enum MouseButton {
    Left,
    Middle,
    Right,
}

/// A mouse event of the widget toolkit.
#[derive(Clone, Copy, Debug, PartialEq, Eq, Structural, Hash)]
pub enum MouseEvent {
    Press(MouseButton),
    Release(MouseButton),
    Hold(MouseButton),
    WheelUp,
    WheelDown,
}

/// An input event of the widget toolkit.
#[derive(Clone, Debug, PartialEq, Eq, Hash)]
pub enum Event {
    Char(char),
    CtrlChar(char),
    AltChar(char),
    Key(Key),
    Mouse { event: MouseEvent, position: Vec2 },
    /// Raw bytes that no other variant describes.
    Unknown(Vec<u8>),
}

/// What an [`Event`] denotes.
pub enum EventModel {
    Char(char),
    CtrlChar(char),
    AltChar(char),
    Key(Key),
    Mouse { event: MouseEvent, position: Vec2 },
    Unknown(Seq<u8>),
}

impl View for Event {
    type V = EventModel;

    open spec fn view(&self) -> EventModel {
        match self {
            Event::Char(c) => EventModel::Char(*c),
            Event::CtrlChar(c) => EventModel::CtrlChar(*c),
            Event::AltChar(c) => EventModel::AltChar(*c),
            Event::Key(k) => EventModel::Key(*k),
            Event::Mouse { event, position } => EventModel::Mouse {
                event: *event,
                position: *position,
            },
            Event::Unknown(b) => EventModel::Unknown(b@),
        }
    }
}

/// The zero-based cell of a one-based terminal coordinate pair; a zero
/// coordinate, which the terminal never reports, is taken as the first cell.
pub open spec fn cell_of(x: u16, y: u16) -> Vec2 {
    Vec2 {
        x: if x > 0 { (x - 1) as usize } else { 0 },
        y: if y > 0 { (y - 1) as usize } else { 0 },
    }
}

pub fn cell_at(x: u16, y: u16) -> (r: Vec2)
    ensures
        r == cell_of(x, y),
{
    let cx: usize = if x > 0 { (x - 1) as usize } else { 0 };
    let cy: usize = if y > 0 { (y - 1) as usize } else { 0 };
    Vec2 { x: cx, y: cy }
}

/// The toolkit event for a terminal key.
pub open spec fn key_event(k: TermKey) -> EventModel {
    match k {
        TermKey::Esc => EventModel::Key(Key::Esc),
        TermKey::Backspace => EventModel::Key(Key::Backspace),
        TermKey::Left => EventModel::Key(Key::Left),
        TermKey::Right => EventModel::Key(Key::Right),
        TermKey::Up => EventModel::Key(Key::Up),
        TermKey::Down => EventModel::Key(Key::Down),
        TermKey::Home => EventModel::Key(Key::Home),
        TermKey::End => EventModel::Key(Key::End),
        TermKey::PageUp => EventModel::Key(Key::PageUp),
        TermKey::PageDown => EventModel::Key(Key::PageDown),
        TermKey::Delete => EventModel::Key(Key::Del),
        TermKey::Insert => EventModel::Key(Key::Ins),
        TermKey::F(i) => if i < 12 {
            EventModel::Key(Key::F(i))
        } else {
            EventModel::Unknown(seq![i])
        },
        TermKey::Char(c) => if c == '\n' {
            EventModel::Key(Key::Enter)
        } else if c == '\t' {
            EventModel::Key(Key::Tab)
        } else {
            EventModel::Char(c)
        },
        TermKey::Ctrl(c) => EventModel::CtrlChar(c),
        TermKey::Alt(c) => EventModel::AltChar(c),
        TermKey::BackTab | TermKey::Null => EventModel::Unknown(Seq::empty()),
    }
}

/// The toolkit event for a terminal event, given the button of the last
/// press, and the button remembered afterwards. A press remembers its button;
/// a release or a drag with no remembered button is reported as unknown.
pub open spec fn map_event(last: Option<MouseButton>, ev: TermEvent) -> (Option<MouseButton>, EventModel) {
    match ev {
        TermEvent::Unsupported(bytes) => (last, EventModel::Unknown(bytes@)),
        TermEvent::Key(k) => (last, key_event(k)),
        TermEvent::Mouse(TermMouseEvent::Press(btn, x, y)) => match btn {
            TermMouseButton::Left => (
                Some(MouseButton::Left),
                EventModel::Mouse { event: MouseEvent::Press(MouseButton::Left), position: cell_of(x, y) },
            ),
            TermMouseButton::Middle => (
                Some(MouseButton::Middle),
                EventModel::Mouse { event: MouseEvent::Press(MouseButton::Middle), position: cell_of(x, y) },
            ),
            TermMouseButton::Right => (
                Some(MouseButton::Right),
                EventModel::Mouse { event: MouseEvent::Press(MouseButton::Right), position: cell_of(x, y) },
            ),
            TermMouseButton::WheelUp => (
                last,
                EventModel::Mouse { event: MouseEvent::WheelUp, position: cell_of(x, y) },
            ),
            TermMouseButton::WheelDown => (
                last,
                EventModel::Mouse { event: MouseEvent::WheelDown, position: cell_of(x, y) },
            ),
        },
        TermEvent::Mouse(TermMouseEvent::Release(x, y)) => match last {
            Some(b) => (last, EventModel::Mouse { event: MouseEvent::Release(b), position: cell_of(x, y) }),
            None => (last, EventModel::Unknown(Seq::empty())),
        },
        TermEvent::Mouse(TermMouseEvent::Hold(x, y)) => match last {
            Some(b) => (last, EventModel::Mouse { event: MouseEvent::Hold(b), position: cell_of(x, y) }),
            None => (last, EventModel::Unknown(Seq::empty())),
        },
    }
}

} // verus!

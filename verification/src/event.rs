//! Event vocabulary of the bridge.
//!
//! `RawEvent` is the vocabulary of the underlying terminal input source:
//! keys, mouse actions with one-based coordinates, and unsupported byte
//! sequences. `Event` is the abstract vocabulary handed to the consumer.
//! The translation between the two is the pure function `map_event_spec`,
//! stateful only in the latched mouse button that disambiguates release and
//! hold actions, which arrive without a button identity.

use vstd::prelude::*;

verus! {

/// A two-dimensional position on the screen, zero-based.
#[derive(Clone, Copy, Debug, PartialEq, Eq, Structural)]
pub struct Vec2 {
    pub x: usize,
    pub y: usize,
}

impl Vec2 {
    /// The origin: both coordinates zero.
    pub fn zero() -> (r: Vec2)
        ensures
            r == (Vec2 { x: 0, y: 0 }),
    {
        Vec2 { x: 0, y: 0 }
    }
}

/// A symbolic (non-character) key.
#[derive(Clone, Copy, Debug, PartialEq, Eq, Structural)]
pub enum Key {
    Enter,
    Tab,
    Backspace,
    Esc,
    Left,
    Right,
    Up,
    Down,
    Ins,
    Del,
    Home,
    End,
    PageUp,
    PageDown,
    /// A function key, by index.
    F(u8),
}

/// A mouse button with a remembered identity.
#[derive(Clone, Copy, Debug, PartialEq, Eq, Structural)]
pub enum MouseButton {
    Left,
    Middle,
    Right,
}

/// A mouse action in the abstract vocabulary.
#[derive(Clone, Copy, Debug, PartialEq, Eq, Structural)]
pub enum MouseEvent {
    Press(MouseButton),
    Release(MouseButton),
    Hold(MouseButton),
    WheelUp,
    WheelDown,
}

/// The bridge's output vocabulary, consumed by the UI layer.
///
/// `WindowResize` is never produced by the mapper itself; an external
/// resize-signal forwarder may push it into the same response channel.
#[derive(Clone, Debug, PartialEq, Eq)]
pub enum Event {
    Key(Key),
    Char(char),
    CtrlChar(char),
    AltChar(char),
    Mouse { event: MouseEvent, position: Vec2, offset: Vec2 },
    Unknown(Vec<u8>),
    Exit,
    WindowResize,
}

/// Mathematical model of an `Event`: the unsupported byte payload is a
/// sequence instead of a vector.
pub enum EventModel {
    Key(Key),
    Char(char),
    CtrlChar(char),
    AltChar(char),
    Mouse { event: MouseEvent, position: Vec2, offset: Vec2 },
    Unknown(Seq<u8>),
    Exit,
    WindowResize,
}

impl View for Event {
    type V = EventModel;

    open spec fn view(&self) -> EventModel {
        match self {
            Event::Key(k) => EventModel::Key(*k),
            Event::Char(c) => EventModel::Char(*c),
            Event::CtrlChar(c) => EventModel::CtrlChar(*c),
            Event::AltChar(c) => EventModel::AltChar(*c),
            Event::Mouse { event, position, offset } => EventModel::Mouse {
                event: *event,
                position: *position,
                offset: *offset,
            },
            Event::Unknown(bytes) => EventModel::Unknown(bytes@),
            Event::Exit => EventModel::Exit,
            Event::WindowResize => EventModel::WindowResize,
        }
    }
}

/// A key in the vocabulary of the raw input source.
///
/// `Other` stands for any further key the source can report but the bridge
/// does not interpret; it degrades to an empty `Unknown` event.
#[derive(Clone, Copy, Debug, PartialEq, Eq, Structural)]
pub enum RawKey {
    Esc,
    Backspace,
    Left,
    Right,
    Up,
    Down,
    Home,
    End,
    PageUp,
    PageDown,
    Delete,
    Insert,
    F(u8),
    Char(char),
    Ctrl(char),
    Alt(char),
    Other,
}

/// A mouse button in the vocabulary of the raw input source.
#[derive(Clone, Copy, Debug, PartialEq, Eq, Structural)]
pub enum RawButton {
    Left,
    Middle,
    Right,
    WheelUp,
    WheelDown,
}

/// A mouse action in the vocabulary of the raw input source.
///
/// Coordinates are one-based on both axes; only press actions carry a
/// button identity.
#[derive(Clone, Copy, Debug, PartialEq, Eq, Structural)]
pub enum RawMouse {
    Press(RawButton, u16, u16),
    Release(u16, u16),
    Hold(u16, u16),
}

/// An event in the vocabulary of the raw input source.
#[derive(Clone, Debug, PartialEq, Eq)]
pub enum RawEvent {
    Key(RawKey),
    Mouse(RawMouse),
    Unsupported(Vec<u8>),
}

/// Mathematical model of a `RawEvent`.
pub enum RawEventModel {
    Key(RawKey),
    Mouse(RawMouse),
    Unsupported(Seq<u8>),
}

impl View for RawEvent {
    type V = RawEventModel;

    open spec fn view(&self) -> RawEventModel {
        match self {
            RawEvent::Key(k) => RawEventModel::Key(*k),
            RawEvent::Mouse(m) => RawEventModel::Mouse(*m),
            RawEvent::Unsupported(bytes) => RawEventModel::Unsupported(bytes@),
        }
    }
}

} // verus!

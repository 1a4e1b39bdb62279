//! The deterministic mapping from raw events to abstract events.
//!
//! The mapping is total: every raw event yields exactly one abstract event.
//! Unrecognized or malformed input never faults; it degrades to `Unknown`.
//! The only state the mapping reads is the latched mouse button, and the
//! only state it writes is the same latch, on a press action.

use vstd::prelude::*;

use crate::event::{
    EventModel, Key, MouseButton, MouseEvent, RawButton, RawEventModel, RawKey, RawMouse, Vec2,
};

verus! {

/// How a raw key maps to an abstract event.
///
/// Function keys are supported up to index 11; from index 12 on the key
/// degrades to `Unknown` carrying the raw index, a boundary kept exactly as
/// observed. Ctrl+'c' is the dedicated exit signal.
pub open spec fn key_event_spec(k: RawKey) -> EventModel {
    match k {
        RawKey::Esc => EventModel::Key(Key::Esc),
        RawKey::Backspace => EventModel::Key(Key::Backspace),
        RawKey::Left => EventModel::Key(Key::Left),
        RawKey::Right => EventModel::Key(Key::Right),
        RawKey::Up => EventModel::Key(Key::Up),
        RawKey::Down => EventModel::Key(Key::Down),
        RawKey::Home => EventModel::Key(Key::Home),
        RawKey::End => EventModel::Key(Key::End),
        RawKey::PageUp => EventModel::Key(Key::PageUp),
        RawKey::PageDown => EventModel::Key(Key::PageDown),
        RawKey::Delete => EventModel::Key(Key::Del),
        RawKey::Insert => EventModel::Key(Key::Ins),
        RawKey::F(i) => if i < 12 {
            EventModel::Key(Key::F(i))
        } else {
            EventModel::Unknown(seq![i])
        },
        RawKey::Char(c) => if c == '\n' {
            EventModel::Key(Key::Enter)
        } else if c == '\t' {
            EventModel::Key(Key::Tab)
        } else {
            EventModel::Char(c)
        },
        RawKey::Ctrl(c) => if c == 'c' {
            EventModel::Exit
        } else {
            EventModel::CtrlChar(c)
        },
        RawKey::Alt(c) => EventModel::AltChar(c),
        RawKey::Other => EventModel::Unknown(Seq::empty()),
    }
}

/// The abstract mouse action a raw press produces: wheel movements are
/// actions of their own; the other buttons press.
pub open spec fn press_action_spec(b: RawButton) -> MouseEvent {
    match b {
        RawButton::Left => MouseEvent::Press(MouseButton::Left),
        RawButton::Middle => MouseEvent::Press(MouseButton::Middle),
        RawButton::Right => MouseEvent::Press(MouseButton::Right),
        RawButton::WheelUp => MouseEvent::WheelUp,
        RawButton::WheelDown => MouseEvent::WheelDown,
    }
}

/// Whether a raw mouse action carries coordinates in the source's one-based
/// domain.
pub open spec fn coords_valid(m: RawMouse) -> bool {
    match m {
        RawMouse::Press(b, x, y) => 1 <= x && 1 <= y,
        RawMouse::Release(x, y) => 1 <= x && 1 <= y,
        RawMouse::Hold(x, y) => 1 <= x && 1 <= y,
    }
}

/// One-based source coordinates shifted to a zero-based position.
pub open spec fn norm_pos(x: u16, y: u16) -> Vec2
    recommends
        1 <= x,
        1 <= y,
{
    Vec2 { x: (x - 1) as usize, y: (y - 1) as usize }
}

/// How a raw mouse action maps to an abstract event, given the latched
/// button.
///
/// A release or hold with no latched button never guesses a button: it
/// degrades to the empty `Unknown` event. So does any action whose
/// coordinates fall outside the source's one-based domain.
pub open spec fn mouse_event_spec(m: RawMouse, last: Option<MouseButton>) -> EventModel {
    if !coords_valid(m) {
        EventModel::Unknown(Seq::empty())
    } else {
        match m {
            RawMouse::Press(b, x, y) => EventModel::Mouse {
                event: press_action_spec(b),
                position: norm_pos(x, y),
                offset: Vec2 { x: 0, y: 0 },
            },
            RawMouse::Release(x, y) => match last {
                Some(btn) => EventModel::Mouse {
                    event: MouseEvent::Release(btn),
                    position: norm_pos(x, y),
                    offset: Vec2 { x: 0, y: 0 },
                },
                None => EventModel::Unknown(Seq::empty()),
            },
            RawMouse::Hold(x, y) => match last {
                Some(btn) => EventModel::Mouse {
                    event: MouseEvent::Hold(btn),
                    position: norm_pos(x, y),
                    offset: Vec2 { x: 0, y: 0 },
                },
                None => EventModel::Unknown(Seq::empty()),
            },
        }
    }
}

/// The total mapping from a raw event to an abstract event, given the
/// latched mouse button.
pub open spec fn map_event_spec(e: RawEventModel, last: Option<MouseButton>) -> EventModel {
    match e {
        RawEventModel::Unsupported(bytes) => EventModel::Unknown(bytes),
        RawEventModel::Key(k) => key_event_spec(k),
        RawEventModel::Mouse(m) => mouse_event_spec(m, last),
    }
}

/// The latched mouse button after a raw event: a press of an identified
/// button (with coordinates in the source's domain) records that button;
/// every other event leaves the latch as it was.
pub open spec fn button_after_spec(e: RawEventModel, last: Option<MouseButton>) -> Option<
    MouseButton,
> {
    match e {
        RawEventModel::Mouse(m) => match m {
            RawMouse::Press(b, x, y) => if 1 <= x && 1 <= y {
                match b {
                    RawButton::Left => Some(MouseButton::Left),
                    RawButton::Middle => Some(MouseButton::Middle),
                    RawButton::Right => Some(MouseButton::Right),
                    RawButton::WheelUp => last,
                    RawButton::WheelDown => last,
                }
            } else {
                last
            },
            RawMouse::Release(x, y) => last,
            RawMouse::Hold(x, y) => last,
        },
        RawEventModel::Key(k) => last,
        RawEventModel::Unsupported(bytes) => last,
    }
}

/// The mapping is pure and deterministic: identical raw input under an
/// identical latch always yields the identical abstract event and the
/// identical next latch.
pub proof fn lemma_map_deterministic(
    e1: RawEventModel,
    e2: RawEventModel,
    l1: Option<MouseButton>,
    l2: Option<MouseButton>,
)
    requires
        e1 == e2,
        l1 == l2,
    ensures
        map_event_spec(e1, l1) == map_event_spec(e2, l2),
        button_after_spec(e1, l1) == button_after_spec(e2, l2),
{
}

/// A mouse release or hold with no latched button degrades to the empty
/// `Unknown` event — it never guesses a button — and leaves the latch empty.
pub proof fn lemma_orphan_release_hold(x: u16, y: u16)
    ensures
        map_event_spec(RawEventModel::Mouse(RawMouse::Release(x, y)), None)
            == EventModel::Unknown(Seq::<u8>::empty()),
        map_event_spec(RawEventModel::Mouse(RawMouse::Hold(x, y)), None)
            == EventModel::Unknown(Seq::<u8>::empty()),
        button_after_spec(RawEventModel::Mouse(RawMouse::Release(x, y)), None) is None,
        button_after_spec(RawEventModel::Mouse(RawMouse::Hold(x, y)), None) is None,
{
}

/// Coordinate normalization: a press at source coordinates (x, y), both
/// one-based, lands at the zero-based position (x-1, y-1); in particular
/// (1, 1) lands at the origin. A release or hold under a latched button
/// normalizes the same way.
pub proof fn lemma_coordinate_normalization(
    b: RawButton,
    btn: MouseButton,
    x: u16,
    y: u16,
    last: Option<MouseButton>,
)
    requires
        1 <= x,
        1 <= y,
    ensures
        (map_event_spec(RawEventModel::Mouse(RawMouse::Press(b, x, y)), last) matches
            EventModel::Mouse { position, .. } && position.x == x - 1 && position.y == y - 1),
        (map_event_spec(RawEventModel::Mouse(RawMouse::Release(x, y)), Some(btn)) matches
            EventModel::Mouse { position, .. } && position.x == x - 1 && position.y == y - 1),
        (map_event_spec(RawEventModel::Mouse(RawMouse::Hold(x, y)), Some(btn)) matches
            EventModel::Mouse { position, .. } && position.x == x - 1 && position.y == y - 1),
{
}

/// The function-key boundary: index 11 still maps to its own symbolic key,
/// index 12 falls off the supported range and maps to `Unknown` carrying
/// the literal index — the two results are distinct.
pub proof fn lemma_function_key_boundary(last: Option<MouseButton>)
    ensures
        map_event_spec(RawEventModel::Key(RawKey::F(11)), last) == EventModel::Key(Key::F(11)),
        map_event_spec(RawEventModel::Key(RawKey::F(12)), last) == EventModel::Unknown(
            seq![12u8],
        ),
        map_event_spec(RawEventModel::Key(RawKey::F(11)), last) != map_event_spec(
            RawEventModel::Key(RawKey::F(12)),
            last,
        ),
{
}

/// Ctrl+'c' is the dedicated exit signal; Ctrl with any other character is
/// an ordinary `CtrlChar`, distinguishable from `Exit`.
pub proof fn lemma_ctrl_c_exit(c: char, last: Option<MouseButton>)
    ensures
        map_event_spec(RawEventModel::Key(RawKey::Ctrl('c')), last) == EventModel::Exit,
        c != 'c' ==> map_event_spec(RawEventModel::Key(RawKey::Ctrl(c)), last)
            == EventModel::CtrlChar(c),
        c != 'c' ==> map_event_spec(RawEventModel::Key(RawKey::Ctrl(c)), last)
            != EventModel::Exit,
{
}

} // verus!

//! The typed event model: what the low-level mouse hook hands to the engine,
//! and the validated parsing boundary that builds it from the raw message.

use vstd::prelude::*;
use crate::contact::Point;

verus! {

/// Raw message code of a mouse-move event.
pub const WM_MOUSEMOVE: u32 = 0x0200;

/// Raw message code of a primary-button-down event.
pub const WM_LBUTTONDOWN: u32 = 0x0201;

/// Raw message code of a primary-button-up event.
pub const WM_LBUTTONUP: u32 = 0x0202;

/// Raw message code of a wheel event.
pub const WM_MOUSEWHEEL: u32 = 0x020A;

/// Flag bit set on hook events that the system echoes back for injected
/// input.
pub const LLMHF_INJECTED: u32 = 0x0001;

/// Kind of a physical mouse event the engine reacts to.
#[derive(Clone, Copy, Debug, PartialEq, Eq, Structural)]
pub enum EventKind {
    /// The cursor moved.
    Move,
    /// The primary button was pressed.
    ButtonDown,
    /// The primary button was released.
    ButtonUp,
    /// The wheel turned; `delta` carries the signed wheel movement, whose
    /// sign picks the zoom direction.
    Wheel { delta: i16 },
}

/// One physical mouse event, as the validated parsing boundary delivers it.
#[derive(Clone, Copy, Debug, PartialEq, Eq, Structural)]
pub struct MouseEvent {
    pub kind: EventKind,
    /// Cursor position at the time of the event.
    pub pos: Point,
    /// Whether the system flagged this event as echoed self-injected input;
    /// such events must be ignored to prevent feedback loops.
    pub echoed: bool,
}

/// Current state of the two modifier keys the engine reads.
#[derive(Clone, Copy, Debug, PartialEq, Eq, Structural)]
pub struct Modifiers {
    /// The gesture key: while held, button and wheel events synthesize touch.
    pub gesture_key: bool,
    /// The second-finger key: held together with the gesture key on a press,
    /// it adds a secondary contact.
    pub second_finger_key: bool,
}

/// The high 16 bits of `l`, reinterpreted as a signed 16-bit value.
pub open spec fn spec_hiword(l: u32) -> i16 {
    if (l >> 16) < 0x8000 {
        (l >> 16) as i16
    } else {
        ((l >> 16) - 0x10000) as i16
    }
}

/// Extracts the high word of a 32-bit raw event field as a signed value; the
/// wheel delta travels there.
#[allow(non_snake_case)]
pub fn HIWORD(l: u32) -> (r: i16)
    ensures
        r == spec_hiword(l),
{
    let h: u32 = l >> 16;
    proof {
        assert(l >> 16 < 0x10000) by (bit_vector);
    }
    if h >= 0x8000 {
        let neg: u32 = 0x10000 - h;
        let r: i16 = (0 - neg as i32) as i16;
        proof {
            assert(r as int == h - 0x10000);
        }
        r
    } else {
        h as i16
    }
}

/// The typed event a raw hook payload stands for: the message code picks the
/// kind, the cursor position and wheel delta come from the payload, and the
/// injected-echo flag is carried along. Messages the engine does not react to
/// parse to `None`.
pub open spec fn spec_decode(msg: u32, x: i32, y: i32, mouse_data: u32, flags: u32) -> Option<
    MouseEvent,
> {
    let pos = Point { x, y };
    let echoed = flags & LLMHF_INJECTED != 0;
    if msg == WM_MOUSEMOVE {
        Some(MouseEvent { kind: EventKind::Move, pos, echoed })
    } else if msg == WM_LBUTTONDOWN {
        Some(MouseEvent { kind: EventKind::ButtonDown, pos, echoed })
    } else if msg == WM_LBUTTONUP {
        Some(MouseEvent { kind: EventKind::ButtonUp, pos, echoed })
    } else if msg == WM_MOUSEWHEEL {
        Some(
            MouseEvent {
                kind: EventKind::Wheel { delta: spec_hiword(mouse_data) },
                pos,
                echoed,
            },
        )
    } else {
        None
    }
}

/// The validated accessor that converts a raw hook payload into the typed
/// event model before any core logic runs.
pub fn decode_event(msg: u32, x: i32, y: i32, mouse_data: u32, flags: u32) -> (r: Option<
    MouseEvent,
>)
    ensures
        r == spec_decode(msg, x, y, mouse_data, flags),
{
    let pos = Point { x, y };
    let echoed = flags & LLMHF_INJECTED != 0;
    if msg == WM_MOUSEMOVE {
        Some(MouseEvent { kind: EventKind::Move, pos, echoed })
    } else if msg == WM_LBUTTONDOWN {
        Some(MouseEvent { kind: EventKind::ButtonDown, pos, echoed })
    } else if msg == WM_LBUTTONUP {
        Some(MouseEvent { kind: EventKind::ButtonUp, pos, echoed })
    } else if msg == WM_MOUSEWHEEL {
        Some(MouseEvent { kind: EventKind::Wheel { delta: HIWORD(mouse_data) }, pos, echoed })
    } else {
        None
    }
}

} // verus!

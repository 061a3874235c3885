//! The window-input events the camera controllers consume.
//!
//! These mirror the platform's window events, but carry only plain values:
//! cursor positions in fixed-point pixels, scroll and pinch deltas in
//! fixed-point units. The host converts the platform's events into these
//! before handing them to the library.

use vstd::prelude::*;

verus! {

/// How far (in fixed-point pixels) a reported cursor coordinate may lie;
/// a hundred thousand pixels, far beyond any display.
pub const CURSOR_LIMIT: i64 = 100_000_000_000_000_000;

/// Largest magnitude accepted for a pinch-gesture zoom delta (a hundred
/// units; real gestures report small fractions).
pub const GESTURE_LIMIT: i64 = 100_000_000_000_000;

/// Largest magnitude accepted for a line-scroll count (ten thousand lines).
pub const LINE_LIMIT: i64 = 10_000_000_000_000_000;

/// The keys the interactive controller reacts to. Any other key maps to
/// `Other`, which the controller ignores.
#[derive(Clone, Copy, Debug, PartialEq, Eq, Structural)]
pub enum KeyCode {
    H,
    Left,
    J,
    Down,
    K,
    Up,
    L,
    Right,
    A,
    PageUp,
    S,
    PageDown,
    Space,
    Other,
}

/// A mouse-wheel delta: whole lines or raw pixels, both fixed-point.
#[derive(Clone, Copy, Debug, PartialEq, Eq, Structural)]
pub enum ScrollDelta {
    Lines { x: i64, y: i64 },
    Pixels { x: i64, y: i64 },
}

/// A window-input event, as the camera controllers see it.
#[derive(Clone, Copy, Debug, PartialEq, Eq, Structural)]
#[allow(inconsistent_fields)]
pub enum InputEvent {
    /// A key went down (`pressed`) or up.
    Keyboard { key: KeyCode, pressed: bool },
    /// The left mouse button went down or up.
    MouseLeft { pressed: bool },
    /// The cursor moved to `(x, y)` in fixed-point device pixels, measured
    /// from the window's top-left corner.
    CursorMoved { x: i64, y: i64 },
    /// A touchpad pinch gesture reported a zoom delta.
    TouchpadMagnify { delta: i64 },
    /// The mouse wheel turned.
    MouseWheel { delta: ScrollDelta },
    /// Anything else; always a no-op.
    Other,
}

/// Payload bounds that keep all downstream fixed-point arithmetic inside
/// `i64`. The host clamps raw platform values into these ranges.
pub open spec fn event_wf(e: InputEvent) -> bool {
    match e {
        InputEvent::Keyboard { .. } => true,
        InputEvent::MouseLeft { .. } => true,
        InputEvent::CursorMoved { x, y } => {
            &&& -CURSOR_LIMIT <= x <= CURSOR_LIMIT
            &&& -CURSOR_LIMIT <= y <= CURSOR_LIMIT
        },
        InputEvent::TouchpadMagnify { delta } => -GESTURE_LIMIT <= delta <= GESTURE_LIMIT,
        InputEvent::MouseWheel { delta } => match delta {
            ScrollDelta::Lines { x, y } => {
                &&& -LINE_LIMIT <= x <= LINE_LIMIT
                &&& -LINE_LIMIT <= y <= LINE_LIMIT
            },
            ScrollDelta::Pixels { x, y } => {
                &&& -CURSOR_LIMIT <= x <= CURSOR_LIMIT
                &&& -CURSOR_LIMIT <= y <= CURSOR_LIMIT
            },
        },
        InputEvent::Other => true,
    }
}

} // verus!

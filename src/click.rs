//! Classification of pointer presses into single, double and triple clicks.

use vstd::prelude::*;

verus! {

/// Longest time, in milliseconds, from one press to the next for both to
/// belong to one multi-click.
pub const DOUBLE_CLICK_MS: u64 = 300;

/// Largest distance, in pixels along each axis, between two presses of one
/// multi-click.
pub const CLICK_TOLERANCE: i32 = 2;

/// A pointer button.
#[derive(Debug, Clone, Copy, PartialEq, Eq, Structural)]
pub enum Button {
    Left,
    Right,
    Middle,
}

/// How many presses in quick succession a click completes.
#[derive(Debug, Clone, Copy, PartialEq, Eq, Structural)]
pub enum ClickKind {
    Single,
    Double,
    Triple,
}

/// The kind that follows `k` when one more press joins the series: after a
/// triple click the series goes on as double clicks.
pub open spec fn next_kind(k: ClickKind) -> ClickKind {
    match k {
        ClickKind::Single => ClickKind::Double,
        ClickKind::Double => ClickKind::Triple,
        ClickKind::Triple => ClickKind::Double,
    }
}

/// A classified press: where, with which button, when, and of what kind.
#[derive(Debug, Clone, Copy, PartialEq, Eq, Structural)]
pub struct Click {
    pub x: i32,
    pub y: i32,
    pub button: Button,
    pub time_ms: u64,
    pub kind: ClickKind,
}

pub open spec fn abs_diff(a: int, b: int) -> int {
    if a >= b {
        a - b
    } else {
        b - a
    }
}

/// A press at `(x, y)` with `button` at `time_ms` continues the series of
/// `prev`: same button, close to it, and strictly later by at most
/// `DOUBLE_CLICK_MS`.
pub open spec fn is_consecutive(prev: Click, x: i32, y: i32, button: Button, time_ms: u64) -> bool {
    &&& prev.button == button
    &&& abs_diff(x as int, prev.x as int) <= CLICK_TOLERANCE
    &&& abs_diff(y as int, prev.y as int) <= CLICK_TOLERANCE
    &&& prev.time_ms < time_ms
    &&& time_ms - prev.time_ms <= DOUBLE_CLICK_MS
}

/// The kind of a press, given the previous click, if any.
pub open spec fn classify(x: i32, y: i32, button: Button, time_ms: u64, previous: Option<Click>) -> ClickKind {
    match previous {
        Some(p) => if is_consecutive(p, x, y, button, time_ms) {
            next_kind(p.kind)
        } else {
            ClickKind::Single
        },
        None => ClickKind::Single,
    }
}

impl ClickKind {
    fn next(self) -> (r: ClickKind)
        ensures
            r == next_kind(self),
    {
        match self {
            ClickKind::Single => ClickKind::Double,
            ClickKind::Double => ClickKind::Triple,
            ClickKind::Triple => ClickKind::Double,
        }
    }
}

impl Click {
    /// Classifies a press at `(x, y)` with `button` at `time_ms` against the
    /// previous click.
    pub fn new(x: i32, y: i32, button: Button, time_ms: u64, previous: Option<Click>) -> (r: Click)
        ensures
            r.x == x && r.y == y && r.button == button && r.time_ms == time_ms,
            r.kind == classify(x, y, button, time_ms, previous),
    {
        let kind = match previous {
            Some(p) => {
                let dx: i64 = x as i64 - p.x as i64;
                let dy: i64 = y as i64 - p.y as i64;
                if p.button == button && -(CLICK_TOLERANCE as i64) <= dx && dx
                    <= CLICK_TOLERANCE as i64 && -(CLICK_TOLERANCE as i64) <= dy && dy
                    <= CLICK_TOLERANCE as i64 && p.time_ms < time_ms && time_ms - p.time_ms
                    <= DOUBLE_CLICK_MS {
                    p.kind.next()
                } else {
                    ClickKind::Single
                }
            },
            None => ClickKind::Single,
        };
        Click { x, y, button, time_ms, kind }
    }

    /// The kind of this click.
    pub fn kind(&self) -> (r: ClickKind)
        ensures
            r == self.kind,
    {
        self.kind
    }
}

} // verus!

//! The drag gesture state machine shared by every single-axis widget (knob,
//! ramp, vertical and horizontal slider): discontinuity resync, relative
//! drag, wheel steps, reset on multi-click, and which callbacks each event fires.

use vstd::prelude::*;

use crate::click::{classify, Button, Click, ClickKind};
use crate::event::{captured, ignored, Bounds, Event, Response, ScrollDelta};
use crate::modifiers::{no_modifiers, Modifiers};
use crate::normal::{clamp_unit, Normal, NormalParam, SCALE};

verus! {

/// Whether an open drag has changed the value yet.
#[derive(Debug, Clone, Copy, PartialEq, Eq, Structural)]
pub enum SliderStatus {
    Moved,
    Unchanged,
}

impl SliderStatus {
    /// Records that the drag changed the value.
    pub fn moved(&mut self)
        ensures
            *final(self) == SliderStatus::Moved,
    {
        *self = SliderStatus::Moved;
    }

    /// Whether the drag changed the value.
    pub fn was_moved(&self) -> (r: bool)
        ensures
            r == (*self == SliderStatus::Moved),
    {
        match self {
            SliderStatus::Moved => true,
            SliderStatus::Unchanged => false,
        }
    }
}

/// How pointer movement maps onto the value.
#[derive(Debug, Clone, Copy, PartialEq, Eq, Structural)]
pub enum DragAxis {
    /// Vertical movement, `scalar` steps per pixel; up increases (knob, ramp).
    Free,
    /// Vertical movement relative to the widget's height, the anchor held
    /// inside the bounds; up increases.
    Vertical,
    /// Horizontal movement relative to the widget's width, the anchor held
    /// inside the bounds; right increases.
    Horizontal,
}

/// Integer division rounding toward zero, as machine division does.
pub open spec fn div_toward_zero(x: int, d: int) -> int {
    if x >= 0 {
        x / d
    } else {
        -((-x) / d)
    }
}

pub open spec fn clamp_to(v: int, lo: int, hi: int) -> int {
    if v < lo {
        lo
    } else if v > hi {
        hi
    } else {
        v
    }
}

/// The raw value delta of a move from anchor `prev` to `(x, y)`; `None`
/// where the widget has no extent along its axis. The value moves by minus
/// this delta.
pub open spec fn drag_delta(axis: DragAxis, scalar: int, b: Bounds, prev: int, x: int, y: int) -> Option<int> {
    match axis {
        DragAxis::Free => Some((y - prev) * scalar),
        DragAxis::Vertical => if b.height == 0 {
            None
        } else {
            Some(div_toward_zero((y - prev) * scalar, b.height as int))
        },
        DragAxis::Horizontal => if b.width == 0 {
            None
        } else {
            Some(div_toward_zero((prev - x) * scalar, b.width as int))
        },
    }
}

/// The anchor after a move to `(x, y)`.
pub open spec fn drag_anchor(axis: DragAxis, b: Bounds, x: int, y: int) -> int {
    match axis {
        DragAxis::Free => y,
        DragAxis::Vertical => clamp_to(y, b.y as int, b.y + b.height),
        DragAxis::Horizontal => clamp_to(x, b.x as int, b.x + b.width),
    }
}

/// The anchor set by a press at `(x, y)`.
pub open spec fn press_anchor(axis: DragAxis, x: int, y: int) -> int {
    match axis {
        DragAxis::Horizontal => x,
        _ => y,
    }
}

/// A delta after fine-control scaling: multiplied by `modifier_scalar / SCALE`
/// while every key of `keys` is held.
pub open spec fn scaled_delta(delta: int, pressed: Modifiers, keys: Modifiers, modifier_scalar: int) -> int {
    if pressed.spec_contains(keys) {
        div_toward_zero(delta * modifier_scalar, SCALE as int)
    } else {
        delta
    }
}

/// The line count of a wheel event: pixel deltas count as one line in their direction.
pub open spec fn wheel_lines(d: ScrollDelta) -> int {
    match d {
        ScrollDelta::Lines(n) => n as int,
        ScrollDelta::Pixels(p) => if p > 0 {
            1
        } else if p < 0 {
            -1
        } else {
            0
        },
    }
}

/// A single-axis widget as the gesture logic sees it, values in `1 / SCALE` steps.
pub struct SliderView {
    pub value: int,
    pub default: int,
    pub axis: DragAxis,
    pub scalar: int,
    pub wheel_scalar: int,
    pub modifier_scalar: int,
    pub modifier_keys: Modifiers,
    pub has_on_grab: bool,
    pub has_on_release: bool,
}

/// The per-instance interaction state, values in `1 / SCALE` steps.
pub struct StateView {
    pub dragging_status: Option<SliderStatus>,
    pub prev_drag: int,
    pub prev_normal: int,
    pub continuous: int,
    pub pressed_modifiers: Modifiers,
    pub last_click: Option<Click>,
}

/// Discontinuity resync, run before every event: while no drag is open, a
/// value changed from outside becomes the new starting point.
pub open spec fn resync(w: SliderView, s: StateView) -> StateView {
    if s.dragging_status is None && s.prev_normal != w.value {
        StateView { prev_normal: w.value, continuous: w.value, ..s }
    } else {
        s
    }
}

/// The end of a drag (pointer up or lost). The release fires where the
/// widget has a grab callback, so that grab and release pair up, or else
/// only where the drag moved the value.
pub open spec fn release_step(w: SliderView, s: StateView) -> (SliderView, StateView, Response) {
    match s.dragging_status {
        Some(st) => (
            w,
            StateView { dragging_status: None, ..s },
            captured(false, false, w.has_on_release && (w.has_on_grab || st == SliderStatus::Moved)),
        ),
        None => (w, s, ignored()),
    }
}

/// The effect of one event on a single-axis widget and its state: the new
/// widget, the new state, and the response. `is_over` tells whether the
/// pointer is over the widget's bounds.
pub open spec fn step(w: SliderView, s0: StateView, e: Event, b: Bounds, is_over: bool) -> (SliderView, StateView, Response) {
    let s = resync(w, s0);
    match e {
        Event::PointerMoved { x, y } => match (
            s.dragging_status,
            drag_delta(w.axis, w.scalar, b, s.prev_drag, x as int, y as int),
        ) {
            (Some(_), Some(raw)) => {
                let d = scaled_delta(raw, s.pressed_modifiers, w.modifier_keys, w.modifier_scalar);
                let s1 = StateView { prev_drag: drag_anchor(w.axis, b, x as int, y as int), ..s };
                if d == 0 {
                    (w, s1, captured(false, false, false))
                } else {
                    let v = clamp_unit(s.continuous - d);
                    (
                        SliderView { value: v, ..w },
                        StateView { continuous: v, dragging_status: Some(SliderStatus::Moved), ..s1 },
                        captured(false, true, false),
                    )
                }
            },
            _ => (w, s, ignored()),
        },
        Event::WheelScrolled { delta } => if w.wheel_scalar == 0 || !is_over || wheel_lines(delta)
            == 0 {
            (w, s, ignored())
        } else {
            let d = scaled_delta(
                -(wheel_lines(delta) * w.wheel_scalar),
                s.pressed_modifiers,
                w.modifier_keys,
                w.modifier_scalar,
            );
            if d == 0 {
                (w, s, captured(false, false, false))
            } else {
                let v = clamp_unit(s.continuous - d);
                let idle = s.dragging_status is None;
                (
                    SliderView { value: v, ..w },
                    StateView {
                        continuous: v,
                        dragging_status: if idle {
                            None
                        } else {
                            Some(SliderStatus::Moved)
                        },
                        ..s
                    },
                    captured(idle && w.has_on_grab, true, idle && w.has_on_release),
                )
            }
        },
        Event::PointerDown { x, y, button, time_ms } => if button != Button::Left || !is_over {
            (w, s, ignored())
        } else {
            let click = Click {
                x,
                y,
                button,
                time_ms,
                kind: classify(x, y, button, time_ms, s.last_click),
            };
            if click.kind == ClickKind::Single {
                (
                    w,
                    StateView {
                        dragging_status: Some(SliderStatus::Unchanged),
                        prev_drag: press_anchor(w.axis, x as int, y as int),
                        continuous: w.value,
                        last_click: Some(click),
                        ..s
                    },
                    captured(w.has_on_grab, false, false),
                )
            } else {
                let was_dragging = s.dragging_status is Some;
                let s1 = StateView { dragging_status: None, last_click: Some(click), ..s };
                if w.value != w.default {
                    (
                        SliderView { value: w.default, ..w },
                        StateView { continuous: w.default, ..s1 },
                        captured(!was_dragging && w.has_on_grab, true, w.has_on_release),
                    )
                } else {
                    (w, s1, captured(false, false, was_dragging && w.has_on_release))
                }
            }
        },
        Event::PointerUp { button } => if button != Button::Left {
            (w, s, ignored())
        } else {
            release_step(w, s)
        },
        Event::PointerLost => release_step(w, s),
        Event::ModifiersChanged { modifiers } => (
            w,
            StateView { pressed_modifiers: modifiers, ..s },
            captured(false, false, false),
        ),
    }
}

/// The local state of a single-axis widget, kept by the host between events.
#[derive(Debug, Clone, Copy)]
pub struct State {
    pub dragging_status: Option<SliderStatus>,
    /// The pointer coordinate that the next move is measured from.
    pub prev_drag: i64,
    /// The value seen at the last event while no drag was open.
    pub prev_normal: Normal,
    /// The drag accumulator, in `1 / SCALE` steps.
    pub continuous_normal: i64,
    pub pressed_modifiers: Modifiers,
    pub last_click: Option<Click>,
}

impl View for State {
    type V = StateView;

    open spec fn view(&self) -> StateView {
        StateView {
            dragging_status: self.dragging_status,
            prev_drag: self.prev_drag as int,
            prev_normal: self.prev_normal@,
            continuous: self.continuous_normal as int,
            pressed_modifiers: self.pressed_modifiers,
            last_click: self.last_click,
        }
    }
}

impl State {
    /// The state of a widget first shown with value `normal`: no drag, no
    /// click, no modifier, the accumulator at `normal`.
    pub fn new(normal: Normal) -> (r: State)
        ensures
            r.dragging_status is None,
            r@.prev_drag == 0,
            r@.prev_normal == normal@,
            r@.continuous == normal@,
            r.pressed_modifiers == no_modifiers(),
            r.last_click is None,
    {
        State {
            dragging_status: None,
            prev_drag: 0,
            prev_normal: normal,
            continuous_normal: normal.as_units() as i64,
            pressed_modifiers: Modifiers::empty(),
            last_click: None,
        }
    }
}

/// A single-axis widget: the parameter it controls and how gestures move it.
#[derive(Debug, Clone, Copy)]
pub struct Slider {
    pub normal_param: NormalParam,
    pub axis: DragAxis,
    /// Value steps per unit of pointer movement (per pixel for `Free`, per
    /// whole extent for `Vertical` and `Horizontal`).
    pub scalar: i32,
    /// Value steps per wheel line; `0` turns the wheel off.
    pub wheel_scalar: i32,
    /// Fine-control factor in `1 / SCALE` steps, applied while `modifier_keys` are held.
    pub modifier_scalar: i32,
    pub modifier_keys: Modifiers,
    /// Whether the host has a grab callback.
    pub has_on_grab: bool,
    /// Whether the host has a release callback.
    pub has_on_release: bool,
}

impl View for Slider {
    type V = SliderView;

    open spec fn view(&self) -> SliderView {
        SliderView {
            value: self.normal_param.value@,
            default: self.normal_param.default@,
            axis: self.axis,
            scalar: self.scalar as int,
            wheel_scalar: self.wheel_scalar as int,
            modifier_scalar: self.modifier_scalar as int,
            modifier_keys: self.modifier_keys,
            has_on_grab: self.has_on_grab,
            has_on_release: self.has_on_release,
        }
    }
}

/// The largest raw delta that a drag or wheel event can produce.
pub open spec fn delta_bound() -> int {
    0x8000_0000_0000_0000_0000_0000
}

proof fn lemma_mul_bound(a: int, b: int, ba: int, bb: int)
    requires
        -ba <= a <= ba,
        -bb <= b <= bb,
    ensures
        -(ba * bb) <= a * b <= ba * bb,
{
    assert(-(ba * bb) <= a * b <= ba * bb) by (nonlinear_arith)
        requires
            -ba <= a <= ba,
            -bb <= b <= bb,
    ;
}

proof fn lemma_div_bound(x: int, d: int)
    requires
        x >= 0,
        d > 0,
    ensures
        0 <= x / d <= x,
{
    assert(0 <= x / d <= x) by (nonlinear_arith)
        requires
            x >= 0,
            d > 0,
    ;
}

pub(crate) fn div_trunc(x: i128, d: i128) -> (r: i128)
    requires
        x > i128::MIN,
        d > 0,
    ensures
        r == div_toward_zero(x as int, d as int),
        -(x as int) <= r <= x || x <= r <= -(x as int),
{
    proof {
        if x >= 0 {
            lemma_div_bound(x as int, d as int);
        } else {
            lemma_div_bound(-x as int, d as int);
        }
    }
    if x >= 0 {
        x / d
    } else {
        -((-x) / d)
    }
}

/// The new value of a move of raw `delta` from accumulator `continuous`, or
/// `None` where the scaled delta is zero and nothing moves.
pub(crate) fn moved_value(continuous: i64, delta: i128, pressed: Modifiers, keys: Modifiers, modifier_scalar: i32) -> (r: Option<Normal>)
    requires
        -delta_bound() <= delta <= delta_bound(),
    ensures
        ({
            let d = scaled_delta(delta as int, pressed, keys, modifier_scalar as int);
            &&& r is None <==> d == 0
            &&& r matches Some(v) ==> v@ == clamp_unit(continuous - d)
        }),
{
    let d = if pressed.contains(keys) {
        proof {
            lemma_mul_bound(delta as int, modifier_scalar as int, delta_bound(), 0x8000_0000);
        }
        div_trunc(delta * modifier_scalar as i128, SCALE as i128)
    } else {
        delta
    };
    if d == 0 {
        None
    } else {
        Some(Normal::clip(continuous as i128 - d))
    }
}

/// The raw delta of a move to `(x, y)` from the state's anchor.
pub(crate) fn raw_drag_delta(axis: DragAxis, scalar: i32, prev: i64, x: i32, y: i32, b: Bounds) -> (r: Option<i128>)
    ensures
        r matches Some(d) ==> -delta_bound() <= d <= delta_bound(),
        r matches Some(d) ==> drag_delta(axis, scalar as int, b, prev as int, x as int, y as int) == Some(d as int),
        r is None ==> drag_delta(axis, scalar as int, b, prev as int, x as int, y as int) is None,
{
    match axis {
        DragAxis::Free => {
            let m = y as i128 - prev as i128;
            proof {
                lemma_mul_bound(m as int, scalar as int, 0x1_0000_0000_0000_0000, 0x8000_0000);
            }
            Some(m * scalar as i128)
        },
        DragAxis::Vertical => {
            if b.height == 0 {
                None
            } else {
                let m = y as i128 - prev as i128;
                proof {
                    lemma_mul_bound(m as int, scalar as int, 0x1_0000_0000_0000_0000, 0x8000_0000);
                }
                Some(div_trunc(m * scalar as i128, b.height as i128))
            }
        },
        DragAxis::Horizontal => {
            if b.width == 0 {
                None
            } else {
                let m = prev as i128 - x as i128;
                proof {
                    lemma_mul_bound(m as int, scalar as int, 0x1_0000_0000_0000_0000, 0x8000_0000);
                }
                Some(div_trunc(m * scalar as i128, b.width as i128))
            }
        },
    }
}

impl Slider {
    /// The anchor after a move to `(x, y)`.
    fn drag_anchor(&self, x: i32, y: i32, b: Bounds) -> (r: i64)
        ensures
            r == drag_anchor(self.axis, b, x as int, y as int),
    {
        match self.axis {
            DragAxis::Free => y as i64,
            DragAxis::Vertical => {
                if (y as i64) < b.y as i64 {
                    b.y as i64
                } else if y as i64 > b.y as i64 + b.height as i64 {
                    b.y as i64 + b.height as i64
                } else {
                    y as i64
                }
            },
            DragAxis::Horizontal => {
                if (x as i64) < b.x as i64 {
                    b.x as i64
                } else if x as i64 > b.x as i64 + b.width as i64 {
                    b.x as i64 + b.width as i64
                } else {
                    x as i64
                }
            },
        }
    }

    /// Handles one event: updates the value and the state and says which
    /// callbacks fire, exactly as `step` describes.
    pub fn on_event(&mut self, state: &mut State, event: Event, bounds: Bounds, is_over: bool) -> (r: Response)
        ensures
            step(old(self)@, old(state)@, event, bounds, is_over) == (final(self)@, final(state)@, r),
            final(self).normal_param.default == old(self).normal_param.default,
    {
        if state.dragging_status.is_none() && state.prev_normal.as_units()
            != self.normal_param.value.as_units() {
            state.prev_normal = self.normal_param.value;
            state.continuous_normal = self.normal_param.value.as_units() as i64;
        }
        match event {
            Event::PointerMoved { x, y } => {
                if state.dragging_status.is_some() {
                    match raw_drag_delta(self.axis, self.scalar, state.prev_drag, x, y, bounds) {
                        Some(delta) => {
                            state.prev_drag = self.drag_anchor(x, y, bounds);
                            match moved_value(
                                state.continuous_normal,
                                delta,
                                state.pressed_modifiers,
                                self.modifier_keys,
                                self.modifier_scalar,
                            ) {
                                Some(v) => {
                                    self.normal_param.value = v;
                                    state.continuous_normal = v.as_units() as i64;
                                    state.dragging_status = Some(SliderStatus::Moved);
                                    Response::captured(false, true, false)
                                },
                                None => Response::captured(false, false, false),
                            }
                        },
                        None => Response::ignored(),
                    }
                } else {
                    Response::ignored()
                }
            },
            Event::WheelScrolled { delta } => {
                let lines: i128 = match delta {
                    ScrollDelta::Lines(n) => n as i128,
                    ScrollDelta::Pixels(p) => if p > 0 {
                        1
                    } else if p < 0 {
                        -1
                    } else {
                        0
                    },
                };
                if self.wheel_scalar == 0 || !is_over || lines == 0 {
                    Response::ignored()
                } else {
                    proof {
                        lemma_mul_bound(lines as int, self.wheel_scalar as int, 0x8000_0000, 0x8000_0000);
                    }
                    match moved_value(
                        state.continuous_normal,
                        -(lines * self.wheel_scalar as i128),
                        state.pressed_modifiers,
                        self.modifier_keys,
                        self.modifier_scalar,
                    ) {
                        Some(v) => {
                            self.normal_param.value = v;
                            state.continuous_normal = v.as_units() as i64;
                            let idle = state.dragging_status.is_none();
                            if !idle {
                                state.dragging_status = Some(SliderStatus::Moved);
                            }
                            Response::captured(
                                idle && self.has_on_grab,
                                true,
                                idle && self.has_on_release,
                            )
                        },
                        None => Response::captured(false, false, false),
                    }
                }
            },
            Event::PointerDown { x, y, button, time_ms } => {
                if button == Button::Left && is_over {
                    let click = Click::new(x, y, button, time_ms, state.last_click);
                    let r = match click.kind() {
                        ClickKind::Single => {
                            state.dragging_status = Some(SliderStatus::Unchanged);
                            state.continuous_normal = self.normal_param.value.as_units() as i64;
                            state.prev_drag = match self.axis {
                                DragAxis::Horizontal => x as i64,
                                _ => y as i64,
                            };
                            Response::captured(self.has_on_grab, false, false)
                        },
                        _ => {
                            let was_dragging = state.dragging_status.is_some();
                            state.dragging_status = None;
                            if self.normal_param.value.as_units()
                                != self.normal_param.default.as_units() {
                                self.normal_param.value = self.normal_param.default;
                                state.continuous_normal = self.normal_param.default.as_units() as i64;
                                Response::captured(
                                    !was_dragging && self.has_on_grab,
                                    true,
                                    self.has_on_release,
                                )
                            } else {
                                Response::captured(false, false, was_dragging && self.has_on_release)
                            }
                        },
                    };
                    state.last_click = Some(click);
                    r
                } else {
                    Response::ignored()
                }
            },
            Event::PointerUp { button } => {
                if button == Button::Left {
                    self.release(state)
                } else {
                    Response::ignored()
                }
            },
            Event::PointerLost => self.release(state),
            Event::ModifiersChanged { modifiers } => {
                state.pressed_modifiers = modifiers;
                Response::captured(false, false, false)
            },
        }
    }

    /// Ends the open drag, if any.
    fn release(&self, state: &mut State) -> (r: Response)
        ensures
            release_step(self@, old(state)@) == (self@, final(state)@, r),
    {
        match state.dragging_status {
            Some(st) => {
                state.dragging_status = None;
                Response::captured(
                    false,
                    false,
                    self.has_on_release && (self.has_on_grab || st.was_moved()),
                )
            },
            None => Response::ignored(),
        }
    }
}

} // verus!

//! A two-dimensional pad that controls two parameters at once: one along `x`
//! (right increases) and one along `y` (up increases). A press jumps both
//! values to the pointer; a drag then moves them relatively.

use vstd::prelude::*;

use crate::click::{classify, Button, Click, ClickKind};
use crate::event::{captured, ignored, Bounds, Event, Response};
use crate::modifiers::{control_only, Modifiers};
use crate::normal::{clamp_unit, Normal, NormalParam, SCALE};
use crate::slider::{
    div_toward_zero, div_trunc, drag_delta, moved_value, raw_drag_delta,
    scaled_delta, DragAxis, SliderStatus,
};

verus! {

/// Fine-control factor in `1 / SCALE` steps, by default.
pub const DEFAULT_MODIFIER_SCALAR: i32 = 20_000;

/// The side of the square region that the pad's values map onto.
pub open spec fn pad_size(b: Bounds) -> int {
    if b.width <= b.height {
        b.width as int
    } else {
        b.height as int
    }
}

/// The square region at the pad's origin.
pub open spec fn pad_square(b: Bounds) -> Bounds {
    Bounds { x: b.x, y: b.y, width: pad_size(b) as u32, height: pad_size(b) as u32 }
}

/// The `x` value under a press at `x`.
pub open spec fn jump_x(b: Bounds, x: int) -> int {
    clamp_unit(div_toward_zero((x - b.x) * SCALE, pad_size(b)))
}

/// The `y` value under a press at `y`; screen `y` grows downwards.
pub open spec fn jump_y(b: Bounds, y: int) -> int {
    clamp_unit(SCALE - div_toward_zero((y - b.y) * SCALE, pad_size(b)))
}

/// An XY pad as the gesture logic sees it, values in `1 / SCALE` steps.
pub struct XYPadView {
    pub x: int,
    pub y: int,
    pub default_x: int,
    pub default_y: int,
    pub modifier_scalar: int,
    pub modifier_keys: Modifiers,
    pub has_on_grab: bool,
    pub has_on_release: bool,
}

/// The per-instance interaction state of an XY pad, values in `1 / SCALE` steps.
pub struct PadStateView {
    pub dragging_status: Option<SliderStatus>,
    pub prev_drag_x: int,
    pub prev_drag_y: int,
    pub prev_normal_x: int,
    pub prev_normal_y: int,
    pub continuous_x: int,
    pub continuous_y: int,
    pub pressed_modifiers: Modifiers,
    pub last_click: Option<Click>,
}

/// Discontinuity resync, run before every event.
pub open spec fn pad_resync(w: XYPadView, s: PadStateView) -> PadStateView {
    if s.dragging_status is None && (s.prev_normal_x != w.x || s.prev_normal_y != w.y) {
        PadStateView {
            prev_normal_x: w.x,
            prev_normal_y: w.y,
            continuous_x: w.x,
            continuous_y: w.y,
            ..s
        }
    } else {
        s
    }
}

/// The end of a drag (pointer up or lost).
pub open spec fn pad_release_step(w: XYPadView, s: PadStateView) -> (XYPadView, PadStateView, Response) {
    match s.dragging_status {
        Some(st) => (
            w,
            PadStateView { dragging_status: None, continuous_x: w.x, continuous_y: w.y, ..s },
            captured(false, false, w.has_on_release && (w.has_on_grab || st == SliderStatus::Moved)),
        ),
        None => (w, s, ignored()),
    }
}

/// A pointer move: while a drag is open, both values follow the pointer
/// relatively, measured against the pad's square.
pub open spec fn pad_move_step(w: XYPadView, s: PadStateView, x: i32, y: i32, b: Bounds) -> (XYPadView, PadStateView, Response) {
    let sq = pad_square(b);
    if s.dragging_status is Some && pad_size(b) != 0 {
        let rx = drag_delta(DragAxis::Horizontal, SCALE as int, sq, s.prev_drag_x, x as int, y as int)->0;
        let ry = drag_delta(DragAxis::Vertical, SCALE as int, sq, s.prev_drag_y, x as int, y as int)->0;
        let dx = scaled_delta(rx, s.pressed_modifiers, w.modifier_keys, w.modifier_scalar);
        let dy = scaled_delta(ry, s.pressed_modifiers, w.modifier_keys, w.modifier_scalar);
        let s1 = PadStateView { prev_drag_x: x as int, prev_drag_y: y as int, ..s };
        if dx == 0 && dy == 0 {
            (w, s1, captured(false, false, false))
        } else {
            let vx = if dx == 0 { w.x } else { clamp_unit(s.continuous_x - dx) };
            let vy = if dy == 0 { w.y } else { clamp_unit(s.continuous_y - dy) };
            (
                XYPadView { x: vx, y: vy, ..w },
                PadStateView {
                    continuous_x: if dx == 0 { s.continuous_x } else { vx },
                    continuous_y: if dy == 0 { s.continuous_y } else { vy },
                    dragging_status: Some(SliderStatus::Moved),
                    ..s1
                },
                captured(false, true, false),
            )
        }
    } else {
        (w, s, ignored())
    }
}

/// A pointer press: a single click opens a drag and jumps both values to the
/// pointer; a multi-click resets both values to their defaults.
pub open spec fn pad_press_step(w: XYPadView, s: PadStateView, x: i32, y: i32, button: Button, time_ms: u64, b: Bounds, is_over: bool) -> (XYPadView, PadStateView, Response) {
    if button != Button::Left || !is_over {
        (w, s, ignored())
    } else {
        let click = Click {
            x,
            y,
            button,
            time_ms,
            kind: classify(x, y, button, time_ms, s.last_click),
        };
        if click.kind == ClickKind::Single {
            let s1 = PadStateView {
                dragging_status: Some(SliderStatus::Unchanged),
                prev_drag_x: x as int,
                prev_drag_y: y as int,
                continuous_x: w.x,
                continuous_y: w.y,
                last_click: Some(click),
                ..s
            };
            if pad_size(b) == 0 {
                (w, s1, captured(w.has_on_grab, false, false))
            } else {
                let vx = jump_x(b, x as int);
                let vy = jump_y(b, y as int);
                (
                    XYPadView { x: vx, y: vy, ..w },
                    PadStateView { continuous_x: vx, continuous_y: vy, ..s1 },
                    captured(w.has_on_grab, true, false),
                )
            }
        } else {
            let was_dragging = s.dragging_status is Some;
            let s1 = PadStateView { dragging_status: None, last_click: Some(click), ..s };
            if w.x != w.default_x || w.y != w.default_y {
                (
                    XYPadView { x: w.default_x, y: w.default_y, ..w },
                    PadStateView { continuous_x: w.default_x, continuous_y: w.default_y, ..s1 },
                    captured(!was_dragging && w.has_on_grab, true, w.has_on_release),
                )
            } else {
                (w, s1, captured(false, false, was_dragging && w.has_on_release))
            }
        }
    }
}

/// The effect of one event on an XY pad and its state.
pub open spec fn pad_step(w: XYPadView, s0: PadStateView, e: Event, b: Bounds, is_over: bool) -> (XYPadView, PadStateView, Response) {
    let s = pad_resync(w, s0);
    match e {
        Event::PointerMoved { x, y } => pad_move_step(w, s, x, y, b),
        Event::PointerDown { x, y, button, time_ms } => pad_press_step(w, s, x, y, button, time_ms, b, is_over),
        Event::PointerUp { button } => if button != Button::Left {
            (w, s, ignored())
        } else {
            pad_release_step(w, s)
        },
        Event::PointerLost => pad_release_step(w, s),
        Event::WheelScrolled { .. } => (w, s, ignored()),
        Event::ModifiersChanged { modifiers } => (
            w,
            PadStateView { pressed_modifiers: modifiers, ..s },
            captured(false, false, false),
        ),
    }
}

/// The local state of an XY pad, kept by the host between events.
#[derive(Debug, Clone, Copy)]
pub struct State {
    pub dragging_status: Option<SliderStatus>,
    pub prev_drag_x: i64,
    pub prev_drag_y: i64,
    pub prev_normal_x: Normal,
    pub prev_normal_y: Normal,
    pub continuous_normal_x: i64,
    pub continuous_normal_y: i64,
    pub pressed_modifiers: Modifiers,
    pub last_click: Option<Click>,
}

impl View for State {
    type V = PadStateView;

    open spec fn view(&self) -> PadStateView {
        PadStateView {
            dragging_status: self.dragging_status,
            prev_drag_x: self.prev_drag_x as int,
            prev_drag_y: self.prev_drag_y as int,
            prev_normal_x: self.prev_normal_x@,
            prev_normal_y: self.prev_normal_y@,
            continuous_x: self.continuous_normal_x as int,
            continuous_y: self.continuous_normal_y as int,
            pressed_modifiers: self.pressed_modifiers,
            last_click: self.last_click,
        }
    }
}

impl State {
    /// The state of a pad first shown at `(normal_x, normal_y)`.
    pub fn new(normal_x: Normal, normal_y: Normal) -> (r: State)
        ensures
            r.dragging_status is None,
            r@.prev_drag_x == 0 && r@.prev_drag_y == 0,
            r@.prev_normal_x == normal_x@ && r@.prev_normal_y == normal_y@,
            r@.continuous_x == normal_x@ && r@.continuous_y == normal_y@,
            r.pressed_modifiers == crate::modifiers::no_modifiers(),
            r.last_click is None,
    {
        State {
            dragging_status: None,
            prev_drag_x: 0,
            prev_drag_y: 0,
            prev_normal_x: normal_x,
            prev_normal_y: normal_y,
            continuous_normal_x: normal_x.as_units() as i64,
            continuous_normal_y: normal_y.as_units() as i64,
            pressed_modifiers: Modifiers::empty(),
            last_click: None,
        }
    }
}

/// A 2D pad that controls two [`NormalParam`]s, one per axis.
#[derive(Debug, Clone, Copy)]
pub struct XYPad {
    pub normal_param_x: NormalParam,
    pub normal_param_y: NormalParam,
    pub modifier_scalar: i32,
    pub modifier_keys: Modifiers,
    pub has_on_grab: bool,
    pub has_on_release: bool,
}

impl View for XYPad {
    type V = XYPadView;

    open spec fn view(&self) -> XYPadView {
        XYPadView {
            x: self.normal_param_x.value@,
            y: self.normal_param_y.value@,
            default_x: self.normal_param_x.default@,
            default_y: self.normal_param_y.default@,
            modifier_scalar: self.modifier_scalar as int,
            modifier_keys: self.modifier_keys,
            has_on_grab: self.has_on_grab,
            has_on_release: self.has_on_release,
        }
    }
}

/// `(p - origin) * SCALE / size`, rounded toward zero.
fn position_units(p: i32, origin: i32, size: u32) -> (r: i128)
    requires
        size > 0,
    ensures
        r == div_toward_zero((p - origin) * SCALE, size as int),
{
    let m = p as i128 - origin as i128;
    assert(-0x1_0000_0000 * 1_000_000 <= m * 1_000_000 <= 0x1_0000_0000 * 1_000_000) by (nonlinear_arith)
        requires
            -0x1_0000_0000 <= m <= 0x1_0000_0000,
    ;
    div_trunc(m * SCALE as i128, size as i128)
}

impl XYPad {
    /// A new [`XYPad`] on the two parameters, with the default fine-control
    /// factor, control as the fine-control key, and no grab or release callback.
    pub fn new(normal_param_x: NormalParam, normal_param_y: NormalParam) -> (r: XYPad)
        ensures
            r.normal_param_x == normal_param_x,
            r.normal_param_y == normal_param_y,
            r.modifier_scalar == DEFAULT_MODIFIER_SCALAR,
            r.modifier_keys == control_only(),
            !r.has_on_grab && !r.has_on_release,
    {
        XYPad {
            normal_param_x,
            normal_param_y,
            modifier_scalar: DEFAULT_MODIFIER_SCALAR,
            modifier_keys: Modifiers::ctrl(),
            has_on_grab: false,
            has_on_release: false,
        }
    }

    /// Declares a grab callback: the host is told when an interaction starts,
    /// and every grab is paired with a release.
    pub fn on_grab(self) -> (r: XYPad)
        ensures
            r == (XYPad { has_on_grab: true, ..self }),
    {
        XYPad { has_on_grab: true, ..self }
    }

    /// Declares a release callback: the host is told when an interaction ends.
    pub fn on_release(self) -> (r: XYPad)
        ensures
            r == (XYPad { has_on_release: true, ..self }),
    {
        XYPad { has_on_release: true, ..self }
    }

    /// Sets the keys that switch on fine control.
    pub fn modifier_keys(self, modifier_keys: Modifiers) -> (r: XYPad)
        ensures
            r == (XYPad { modifier_keys, ..self }),
    {
        XYPad { modifier_keys, ..self }
    }

    /// Sets the fine-control factor, in `1 / SCALE` steps.
    pub fn modifier_scalar(self, modifier_scalar: i32) -> (r: XYPad)
        ensures
            r == (XYPad { modifier_scalar, ..self }),
    {
        XYPad { modifier_scalar, ..self }
    }

    /// The current `(x, y)` values.
    pub fn values(&self) -> (r: (Normal, Normal))
        ensures
            r == (self.normal_param_x.value, self.normal_param_y.value),
    {
        (self.normal_param_x.value, self.normal_param_y.value)
    }

    /// Handles one event, as `pad_step` describes.
    pub fn on_event(&mut self, state: &mut State, event: Event, bounds: Bounds, is_over: bool) -> (r: Response)
        ensures
            pad_step(old(self)@, old(state)@, event, bounds, is_over) == (final(self)@, final(state)@, r),
            final(self).normal_param_x.default == old(self).normal_param_x.default,
            final(self).normal_param_y.default == old(self).normal_param_y.default,
    {
        if state.dragging_status.is_none() && (state.prev_normal_x.as_units()
            != self.normal_param_x.value.as_units() || state.prev_normal_y.as_units()
            != self.normal_param_y.value.as_units()) {
            state.prev_normal_x = self.normal_param_x.value;
            state.prev_normal_y = self.normal_param_y.value;
            state.continuous_normal_x = self.normal_param_x.value.as_units() as i64;
            state.continuous_normal_y = self.normal_param_y.value.as_units() as i64;
        }
        match event {
            Event::PointerMoved { x, y } => self.drag(state, x, y, bounds),
            Event::PointerDown { x, y, button, time_ms } => self.press(state, x, y, button, time_ms, bounds, is_over),
            Event::PointerUp { button } => {
                if button == Button::Left {
                    self.release(state)
                } else {
                    Response::ignored()
                }
            },
            Event::PointerLost => self.release(state),
            Event::WheelScrolled { .. } => Response::ignored(),
            Event::ModifiersChanged { modifiers } => {
                state.pressed_modifiers = modifiers;
                Response::captured(false, false, false)
            },
        }
    }

    /// A pointer move, after resync.
    fn drag(&mut self, state: &mut State, x: i32, y: i32, bounds: Bounds) -> (r: Response)
        ensures
            pad_move_step(old(self)@, old(state)@, x, y, bounds) == (final(self)@, final(state)@, r),
            final(self).normal_param_x.default == old(self).normal_param_x.default,
            final(self).normal_param_y.default == old(self).normal_param_y.default,
    {
        let size: u32 = if bounds.width <= bounds.height {
            bounds.width
        } else {
            bounds.height
        };
        let square = Bounds { x: bounds.x, y: bounds.y, width: size, height: size };
        if state.dragging_status.is_some() && size != 0 {
            let rx = raw_drag_delta(DragAxis::Horizontal, SCALE as i32, state.prev_drag_x, x, y, square).unwrap();
            let ry = raw_drag_delta(DragAxis::Vertical, SCALE as i32, state.prev_drag_y, x, y, square).unwrap();
            state.prev_drag_x = x as i64;
            state.prev_drag_y = y as i64;
            let mx = moved_value(
                state.continuous_normal_x,
                rx,
                state.pressed_modifiers,
                self.modifier_keys,
                self.modifier_scalar,
            );
            let my = moved_value(
                state.continuous_normal_y,
                ry,
                state.pressed_modifiers,
                self.modifier_keys,
                self.modifier_scalar,
            );
            if mx.is_none() && my.is_none() {
                Response::captured(false, false, false)
            } else {
                if let Some(v) = mx {
                    self.normal_param_x.value = v;
                    state.continuous_normal_x = v.as_units() as i64;
                }
                if let Some(v) = my {
                    self.normal_param_y.value = v;
                    state.continuous_normal_y = v.as_units() as i64;
                }
                state.dragging_status = Some(SliderStatus::Moved);
                Response::captured(false, true, false)
            }
        } else {
            Response::ignored()
        }
    }

    /// A pointer press, after resync.
    fn press(&mut self, state: &mut State, x: i32, y: i32, button: Button, time_ms: u64, bounds: Bounds, is_over: bool) -> (r: Response)
        ensures
            pad_press_step(old(self)@, old(state)@, x, y, button, time_ms, bounds, is_over) == (final(self)@, final(state)@, r),
            final(self).normal_param_x.default == old(self).normal_param_x.default,
            final(self).normal_param_y.default == old(self).normal_param_y.default,
    {
        let size: u32 = if bounds.width <= bounds.height {
            bounds.width
        } else {
            bounds.height
        };
        if button == Button::Left && is_over {
            let click = Click::new(x, y, button, time_ms, state.last_click);
            let r = match click.kind() {
                ClickKind::Single => {
                    state.dragging_status = Some(SliderStatus::Unchanged);
                    state.prev_drag_x = x as i64;
                    state.prev_drag_y = y as i64;
                    state.continuous_normal_x = self.normal_param_x.value.as_units() as i64;
                    state.continuous_normal_y = self.normal_param_y.value.as_units() as i64;
                    if size == 0 {
                        Response::captured(self.has_on_grab, false, false)
                    } else {
                        let nx = position_units(x, bounds.x, size);
                        let ny = position_units(y, bounds.y, size);
                        self.normal_param_x.value = Normal::clip(nx);
                        self.normal_param_y.value = Normal::clip(SCALE as i128 - ny);
                        state.continuous_normal_x = self.normal_param_x.value.as_units() as i64;
                        state.continuous_normal_y = self.normal_param_y.value.as_units() as i64;
                        Response::captured(self.has_on_grab, true, false)
                    }
                },
                _ => {
                    let was_dragging = state.dragging_status.is_some();
                    state.dragging_status = None;
                    if self.normal_param_x.value.as_units()
                        != self.normal_param_x.default.as_units()
                        || self.normal_param_y.value.as_units()
                        != self.normal_param_y.default.as_units() {
                        self.normal_param_x.value = self.normal_param_x.default;
                        self.normal_param_y.value = self.normal_param_y.default;
                        state.continuous_normal_x = self.normal_param_x.default.as_units() as i64;
                        state.continuous_normal_y = self.normal_param_y.default.as_units() as i64;
                        Response::captured(
                            !was_dragging && self.has_on_grab,
                            true,
                            self.has_on_release,
                        )
                    } else {
                        Response::captured(false, false, was_dragging && self.has_on_release)
                    }
                },
            };
            state.last_click = Some(click);
            r
        } else {
            Response::ignored()
        }
    }

    /// Ends the open drag, if any.
    fn release(&self, state: &mut State) -> (r: Response)
        ensures
            pad_release_step(self@, old(state)@) == (self@, final(state)@, r),
    {
        match state.dragging_status {
            Some(st) => {
                state.dragging_status = None;
                state.continuous_normal_x = self.normal_param_x.value.as_units() as i64;
                state.continuous_normal_y = self.normal_param_y.value.as_units() as i64;
                Response::captured(
                    false,
                    false,
                    self.has_on_release && (self.has_on_grab || st.was_moved()),
                )
            },
            None => Response::ignored(),
        }
    }
}

} // verus!

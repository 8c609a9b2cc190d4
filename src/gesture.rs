//! What the gestures of the widgets guarantee, proved of `step` and `pad_step`.

use vstd::prelude::*;

use crate::click::{classify, Button, ClickKind};
use crate::event::{captured, Bounds, Event, ScrollDelta};
use crate::normal::{clamp_unit, SCALE};
use crate::slider::{drag_delta, scaled_delta, step, wheel_lines, SliderView, StateView};
use crate::xy_pad::{pad_step, PadStateView, XYPadView};

verus! {

/// The delta, after fine-control scaling, that a move to `(x, y)` applies;
/// `None` where the widget has no extent along its axis.
pub open spec fn move_delta(w: SliderView, s: StateView, x: i32, y: i32, b: Bounds) -> Option<int> {
    match drag_delta(w.axis, w.scalar, b, s.prev_drag, x as int, y as int) {
        Some(raw) => Some(scaled_delta(raw, s.pressed_modifiers, w.modifier_keys, w.modifier_scalar)),
        None => None,
    }
}

/// A press with the main button at `(x, y)` at `time_ms`.
pub open spec fn press(x: i32, y: i32, time_ms: u64) -> Event {
    Event::PointerDown { x, y, button: Button::Left, time_ms }
}

/// Runs the events in order, each with whether the pointer is over the
/// widget; gives the final widget and state and how many grabs and releases fired.
pub open spec fn run(w: SliderView, s: StateView, evs: Seq<(Event, bool)>, b: Bounds) -> (SliderView, StateView, nat, nat)
    decreases evs.len(),
{
    if evs.len() == 0 {
        (w, s, 0, 0)
    } else {
        let (w1, s1, r) = step(w, s, evs[0].0, b, evs[0].1);
        let (w2, s2, g, rl) = run(w1, s1, evs.drop_first(), b);
        (w2, s2, g + if r.grab {
            1nat
        } else {
            0nat
        }, rl + if r.release {
            1nat
        } else {
            0nat
        })
    }
}

/// The end of a gesture: the main button comes up, or the pointer is lost.
pub open spec fn is_end(e: Event) -> bool {
    e == (Event::PointerUp { button: Button::Left }) || e is PointerLost
}

/// Moves followed by the end of a gesture fire no grab, and one release
/// exactly where a drag was open.
proof fn lemma_moves_then_end(w: SliderView, s: StateView, t: Seq<(Event, bool)>, b: Bounds)
    requires
        w.has_on_grab,
        w.has_on_release,
        t.len() >= 1,
        forall|i: int| 0 <= i < t.len() - 1 ==> (#[trigger] t[i]).0 is PointerMoved,
        is_end(t.last().0),
    ensures
        run(w, s, t, b).2 == 0,
        run(w, s, t, b).3 == if s.dragging_status is Some {
            1nat
        } else {
            0nat
        },
    decreases t.len(),
{
    let (w1, s1, r) = step(w, s, t[0].0, b, t[0].1);
    if t.len() == 1 {
        assert(t.drop_first().len() == 0);
        assert(t.last() == t[0]);
        assert(run(w1, s1, t.drop_first(), b) == (w1, s1, 0nat, 0nat));
    } else {
        assert(t[0].0 is PointerMoved);
        assert(w1.has_on_grab && w1.has_on_release);
        assert(s1.dragging_status is Some <==> s.dragging_status is Some);
        assert(!r.grab && !r.release);
        let rest = t.drop_first();
        assert forall|i: int| 0 <= i < rest.len() - 1 implies (#[trigger] rest[i]).0 is PointerMoved by {
            assert(rest[i] == t[i + 1]);
        }
        assert(rest.last() == t.last());
        lemma_moves_then_end(w1, s1, rest, b);
    }
}

/// Over a whole gesture (a press, any number of moves, the end) of a widget
/// with both grab and release callbacks, starting with no drag open, grabs
/// and releases pair up: as many of each, and at most one.
pub proof fn lemma_grab_release_balance(w: SliderView, s: StateView, evs: Seq<(Event, bool)>, b: Bounds)
    requires
        w.has_on_grab,
        w.has_on_release,
        s.dragging_status is None,
        evs.len() >= 2,
        evs[0].0 is PointerDown,
        forall|i: int| 1 <= i < evs.len() - 1 ==> (#[trigger] evs[i]).0 is PointerMoved,
        is_end(evs.last().0),
    ensures
        run(w, s, evs, b).2 == run(w, s, evs, b).3,
        run(w, s, evs, b).2 <= 1,
{
    let (w1, s1, r) = step(w, s, evs[0].0, b, evs[0].1);
    let rest = evs.drop_first();
    assert forall|i: int| 0 <= i < rest.len() - 1 implies (#[trigger] rest[i]).0 is PointerMoved by {
        assert(rest[i] == evs[i + 1]);
    }
    assert(rest.last() == evs.last());
    lemma_moves_then_end(w1, s1, rest, b);
}

/// Runs the events in order on an XY pad, each with whether the pointer is
/// over it; gives the final widget and state and how many grabs and releases fired.
pub open spec fn pad_run(w: XYPadView, s: PadStateView, evs: Seq<(Event, bool)>, b: Bounds) -> (XYPadView, PadStateView, nat, nat)
    decreases evs.len(),
{
    if evs.len() == 0 {
        (w, s, 0, 0)
    } else {
        let (w1, s1, r) = pad_step(w, s, evs[0].0, b, evs[0].1);
        let (w2, s2, g, rl) = pad_run(w1, s1, evs.drop_first(), b);
        (w2, s2, g + if r.grab {
            1nat
        } else {
            0nat
        }, rl + if r.release {
            1nat
        } else {
            0nat
        })
    }
}

/// Moves followed by the end of a gesture fire no grab, and one release
/// exactly where a drag was open.
proof fn lemma_pad_moves_then_end(w: XYPadView, s: PadStateView, t: Seq<(Event, bool)>, b: Bounds)
    requires
        w.has_on_grab,
        w.has_on_release,
        t.len() >= 1,
        forall|i: int| 0 <= i < t.len() - 1 ==> (#[trigger] t[i]).0 is PointerMoved,
        is_end(t.last().0),
    ensures
        pad_run(w, s, t, b).2 == 0,
        pad_run(w, s, t, b).3 == if s.dragging_status is Some {
            1nat
        } else {
            0nat
        },
    decreases t.len(),
{
    let (w1, s1, r) = pad_step(w, s, t[0].0, b, t[0].1);
    if t.len() == 1 {
        assert(t.drop_first().len() == 0);
        assert(t.last() == t[0]);
        assert(pad_run(w1, s1, t.drop_first(), b) == (w1, s1, 0nat, 0nat));
    } else {
        assert(t[0].0 is PointerMoved);
        assert(w1.has_on_grab && w1.has_on_release);
        assert(s1.dragging_status is Some <==> s.dragging_status is Some);
        assert(!r.grab && !r.release);
        let rest = t.drop_first();
        assert forall|i: int| 0 <= i < rest.len() - 1 implies (#[trigger] rest[i]).0 is PointerMoved by {
            assert(rest[i] == t[i + 1]);
        }
        assert(rest.last() == t.last());
        lemma_pad_moves_then_end(w1, s1, rest, b);
    }
}

/// Over a whole gesture (a press, any number of moves, the end) of an XY pad
/// with both grab and release callbacks, starting with no drag open, grabs
/// and releases pair up: as many of each, and at most one.
pub proof fn lemma_pad_grab_release_balance(w: XYPadView, s: PadStateView, evs: Seq<(Event, bool)>, b: Bounds)
    requires
        w.has_on_grab,
        w.has_on_release,
        s.dragging_status is None,
        evs.len() >= 2,
        evs[0].0 is PointerDown,
        forall|i: int| 1 <= i < evs.len() - 1 ==> (#[trigger] evs[i]).0 is PointerMoved,
        is_end(evs.last().0),
    ensures
        pad_run(w, s, evs, b).2 == pad_run(w, s, evs, b).3,
        pad_run(w, s, evs, b).2 <= 1,
{
    let (w1, s1, r) = pad_step(w, s, evs[0].0, b, evs[0].1);
    let rest = evs.drop_first();
    assert forall|i: int| 0 <= i < rest.len() - 1 implies (#[trigger] rest[i]).0 is PointerMoved by {
        assert(rest[i] == evs[i + 1]);
    }
    assert(rest.last() == evs.last());
    lemma_pad_moves_then_end(w1, s1, rest, b);
}

/// At the top of the range, a drag further up keeps the value at the top
/// and leaves no hidden offset behind: the next move down lowers the value
/// at once, by exactly its delta.
pub proof fn lemma_no_phantom_offset(
    w: SliderView,
    s: StateView,
    x0: i32,
    y0: i32,
    t0: u64,
    x1: i32,
    y1: i32,
    x2: i32,
    y2: i32,
    b: Bounds,
)
    requires
        w.value == SCALE,
        step(w, s, press(x0, y0, t0), b, true).1.dragging_status is Some,
        ({
            let s1 = step(w, s, press(x0, y0, t0), b, true).1;
            move_delta(w, s1, x1, y1, b) matches Some(d) && d <= 0
        }),
        ({
            let s1 = step(w, s, press(x0, y0, t0), b, true).1;
            let s2 = step(w, s1, Event::PointerMoved { x: x1, y: y1 }, b, true).1;
            move_delta(w, s2, x2, y2, b) matches Some(d) && d > 0
        }),
    ensures
        ({
            let (w1, s1, _) = step(w, s, press(x0, y0, t0), b, true);
            let (w2, s2, _) = step(w1, s1, Event::PointerMoved { x: x1, y: y1 }, b, true);
            let (w3, _, r3) = step(w2, s2, Event::PointerMoved { x: x2, y: y2 }, b, true);
            &&& w2.value == SCALE
            &&& w3.value == clamp_unit(SCALE - move_delta(w, s2, x2, y2, b)->0)
            &&& w3.value < SCALE
            &&& r3.change
        }),
{
}

/// A wheel step over a widget with no drag open is an interaction of its
/// own: it fires grab, change and release (each where the widget has that
/// callback) and leaves no drag open.
pub proof fn lemma_wheel_lifecycle(w: SliderView, s: StateView, delta: ScrollDelta, b: Bounds)
    requires
        s.dragging_status is None,
        wheel_lines(delta) != 0,
        w.wheel_scalar != 0,
        scaled_delta(-(wheel_lines(delta) * w.wheel_scalar), s.pressed_modifiers, w.modifier_keys, w.modifier_scalar) != 0,
    ensures
        step(w, s, Event::WheelScrolled { delta }, b, true).2 == captured(w.has_on_grab, true, w.has_on_release),
        step(w, s, Event::WheelScrolled { delta }, b, true).1.dragging_status is None,
{
}

/// A multi-click on the widget resets the value to its default, closes any
/// drag, and fires a change exactly where the value was not already the default.
pub proof fn lemma_multi_click_resets(w: SliderView, s: StateView, x: i32, y: i32, t: u64, b: Bounds)
    requires
        classify(x, y, Button::Left, t, s.last_click) != ClickKind::Single,
    ensures
        ({
            let (w1, s1, r) = step(w, s, press(x, y, t), b, true);
            &&& w1.value == w.default
            &&& w1.default == w.default
            &&& s1.dragging_status is None
            &&& r.change == (w.value != w.default)
        }),
{
}

/// A drag starts from the value that the widget holds when it is pressed,
/// however that value was set while no drag was open: the first move lands
/// at that value minus the move's delta.
pub proof fn lemma_drag_starts_from_value(
    w: SliderView,
    s: StateView,
    x0: i32,
    y0: i32,
    t0: u64,
    x1: i32,
    y1: i32,
    b: Bounds,
)
    requires
        s.dragging_status is None,
        classify(x0, y0, Button::Left, t0, s.last_click) == ClickKind::Single,
        ({
            let s1 = step(w, s, press(x0, y0, t0), b, true).1;
            move_delta(w, s1, x1, y1, b) matches Some(d) && d != 0
        }),
    ensures
        ({
            let (w1, s1, _) = step(w, s, press(x0, y0, t0), b, true);
            let (w2, _, r) = step(w1, s1, Event::PointerMoved { x: x1, y: y1 }, b, true);
            &&& w2.value == clamp_unit(w.value - move_delta(w, s1, x1, y1, b)->0)
            &&& r.change
        }),
{
}

} // verus!

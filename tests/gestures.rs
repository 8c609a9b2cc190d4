use audio_widgets::click::Button;
use audio_widgets::event::{Bounds, Event, Response, ScrollDelta, Status};
use audio_widgets::h_slider::HSlider;
use audio_widgets::knob::{self, Knob};
use audio_widgets::modifiers::Modifiers;
use audio_widgets::normal::{Normal, NormalParam};
use audio_widgets::ramp::{Ramp, RampDirection};
use audio_widgets::slider::{DragAxis, SliderStatus, State};
use audio_widgets::v_slider::VSlider;

const BOUNDS: Bounds = Bounds { x: 0, y: 0, width: 30, height: 30 };

fn param(value: i128, default: i128) -> NormalParam {
    NormalParam::new(Normal::clip(value), Normal::clip(default))
}

fn down(x: i32, y: i32, time_ms: u64) -> Event {
    Event::PointerDown { x, y, button: Button::Left, time_ms }
}

fn moved(x: i32, y: i32) -> Event {
    Event::PointerMoved { x, y }
}

fn up() -> Event {
    Event::PointerUp { button: Button::Left }
}

fn resp(status: Status, grab: bool, change: bool, release: bool) -> Response {
    Response { status, grab, change, release }
}

#[test]
fn knob_defaults() {
    let k = Knob::new(param(300_000, 500_000));
    assert_eq!(k.slider.axis, DragAxis::Free);
    assert_eq!(k.slider.scalar, knob::DEFAULT_SCALAR);
    assert_eq!(k.slider.scalar, 3850);
    assert_eq!(k.slider.wheel_scalar, 10_000);
    assert_eq!(k.slider.modifier_scalar, 20_000);
    assert_eq!(k.slider.modifier_keys, Modifiers::ctrl());
    assert!(!k.slider.has_on_grab && !k.slider.has_on_release);
    assert_eq!(k.bipolar_center, None);
}

#[test]
fn knob_builders_set_fields() {
    let k = Knob::new(param(0, 0))
        .on_grab()
        .on_release()
        .scalar(7)
        .wheel_scalar(8)
        .modifier_keys(Modifiers::empty())
        .modifier_scalar(9)
        .bipolar_center(Normal::center());
    assert!(k.slider.has_on_grab && k.slider.has_on_release);
    assert_eq!((k.slider.scalar, k.slider.wheel_scalar, k.slider.modifier_scalar), (7, 8, 9));
    assert_eq!(k.slider.modifier_keys, Modifiers::empty());
    assert_eq!(k.bipolar_center, Some(Normal::center()));
}

#[test]
fn knob_drag_up_increases() {
    let mut k = Knob::new(param(300_000, 500_000));
    let mut s = State::new(k.value());
    assert_eq!(k.on_event(&mut s, down(10, 100, 0), BOUNDS, true), resp(Status::Captured, false, false, false));
    assert_eq!(s.dragging_status, Some(SliderStatus::Unchanged));
    assert_eq!(k.on_event(&mut s, moved(10, 90), BOUNDS, true), resp(Status::Captured, false, true, false));
    assert_eq!(k.value().as_units(), 300_000 + 10 * 3850);
    assert_eq!(k.on_event(&mut s, moved(10, 95), BOUNDS, true), resp(Status::Captured, false, true, false));
    assert_eq!(k.value().as_units(), 300_000 + 5 * 3850);
    assert_eq!(s.dragging_status, Some(SliderStatus::Moved));
    assert_eq!(k.on_event(&mut s, up(), BOUNDS, true), resp(Status::Captured, false, false, false));
    assert_eq!(s.dragging_status, None);
}

#[test]
fn zero_move_is_unchanged() {
    let mut k = Knob::new(param(300_000, 500_000));
    let mut s = State::new(k.value());
    k.on_event(&mut s, down(10, 100, 0), BOUNDS, true);
    assert_eq!(k.on_event(&mut s, moved(50, 100), BOUNDS, true), resp(Status::Captured, false, false, false));
    assert_eq!(s.dragging_status, Some(SliderStatus::Unchanged));
}

#[test]
fn boundary_leaves_no_phantom_offset() {
    let mut k = Knob::new(param(1_000_000, 500_000));
    let mut s = State::new(k.value());
    k.on_event(&mut s, down(0, 1000, 0), BOUNDS, true);
    k.on_event(&mut s, moved(0, 0), BOUNDS, true);
    assert_eq!(k.value(), Normal::max());
    let r = k.on_event(&mut s, moved(0, 1), BOUNDS, true);
    assert!(r.change);
    assert_eq!(k.value().as_units(), 1_000_000 - 3850);
}

#[test]
fn grab_and_release_pair_up_over_a_drag() {
    let mut k = Knob::new(param(300_000, 500_000)).on_grab().on_release();
    let mut s = State::new(k.value());
    let events = [down(5, 50, 0), moved(5, 40), moved(5, 45), moved(5, 45), up()];
    let (mut grabs, mut releases, mut changes) = (0, 0, 0);
    for e in events {
        let r = k.on_event(&mut s, e, BOUNDS, true);
        grabs += r.grab as u32;
        releases += r.release as u32;
        changes += r.change as u32;
    }
    assert_eq!((grabs, releases, changes), (1, 1, 2));
}

#[test]
fn release_fires_without_movement_only_with_grab() {
    let mut k = Knob::new(param(300_000, 500_000)).on_grab().on_release();
    let mut s = State::new(k.value());
    assert!(k.on_event(&mut s, down(5, 50, 0), BOUNDS, true).grab);
    assert!(k.on_event(&mut s, up(), BOUNDS, true).release);

    let mut k = Knob::new(param(300_000, 500_000)).on_release();
    let mut s = State::new(k.value());
    k.on_event(&mut s, down(5, 50, 0), BOUNDS, true);
    assert_eq!(k.on_event(&mut s, up(), BOUNDS, true), resp(Status::Captured, false, false, false));
    k.on_event(&mut s, down(5, 50, 5_000), BOUNDS, true);
    k.on_event(&mut s, moved(5, 49), BOUNDS, true);
    assert_eq!(k.on_event(&mut s, Event::PointerLost, BOUNDS, true), resp(Status::Captured, false, false, true));
}

#[test]
fn release_without_drag_is_ignored() {
    let mut k = Knob::new(param(300_000, 500_000)).on_grab().on_release();
    let mut s = State::new(k.value());
    assert_eq!(k.on_event(&mut s, up(), BOUNDS, true), resp(Status::Ignored, false, false, false));
}

#[test]
fn wheel_while_idle_is_a_whole_interaction() {
    let mut k = Knob::new(param(300_000, 500_000)).on_grab().on_release();
    let mut s = State::new(k.value());
    let r = k.on_event(&mut s, Event::WheelScrolled { delta: ScrollDelta::Lines(2) }, BOUNDS, true);
    assert_eq!(r, resp(Status::Captured, true, true, true));
    assert_eq!(k.value().as_units(), 320_000);
    assert_eq!(s.dragging_status, None);
}

#[test]
fn wheel_during_drag_only_changes() {
    let mut k = Knob::new(param(300_000, 500_000)).on_grab().on_release();
    let mut s = State::new(k.value());
    k.on_event(&mut s, down(5, 50, 0), BOUNDS, true);
    let r = k.on_event(&mut s, Event::WheelScrolled { delta: ScrollDelta::Pixels(-40) }, BOUNDS, true);
    assert_eq!(r, resp(Status::Captured, false, true, false));
    assert_eq!(k.value().as_units(), 290_000);
    assert_eq!(s.dragging_status, Some(SliderStatus::Moved));
}

#[test]
fn wheel_ignored_when_off_outside_or_zero() {
    let mut k = Knob::new(param(300_000, 500_000)).wheel_scalar(0);
    let mut s = State::new(k.value());
    let e = Event::WheelScrolled { delta: ScrollDelta::Lines(1) };
    assert_eq!(k.on_event(&mut s, e, BOUNDS, true).status, Status::Ignored);
    let mut k = Knob::new(param(300_000, 500_000));
    assert_eq!(k.on_event(&mut s, e, BOUNDS, false).status, Status::Ignored);
    let z = Event::WheelScrolled { delta: ScrollDelta::Pixels(0) };
    assert_eq!(k.on_event(&mut s, z, BOUNDS, true).status, Status::Ignored);
    assert_eq!(k.value().as_units(), 300_000);
}

#[test]
fn double_click_resets_to_default_once() {
    let mut k = Knob::new(param(300_000, 500_000)).on_grab().on_release();
    let mut s = State::new(k.value());
    let mut changes = 0;
    for e in [down(5, 5, 0), up(), down(5, 5, 100)] {
        changes += k.on_event(&mut s, e, BOUNDS, true).change as u32;
    }
    assert_eq!(k.value().as_units(), 500_000);
    assert_eq!(changes, 1);
    for e in [up(), down(5, 5, 2_000), up(), down(5, 5, 2_100), up()] {
        assert!(!k.on_event(&mut s, e, BOUNDS, true).change);
    }
    assert_eq!(k.value().as_units(), 500_000);
}

#[test]
fn reset_while_idle_synthesizes_grab() {
    let mut k = Knob::new(param(300_000, 500_000)).on_grab().on_release();
    let mut s = State::new(k.value());
    k.on_event(&mut s, down(5, 5, 0), BOUNDS, true);
    k.on_event(&mut s, up(), BOUNDS, true);
    let r = k.on_event(&mut s, down(5, 5, 100), BOUNDS, true);
    assert_eq!(r, resp(Status::Captured, true, true, true));
}

#[test]
fn reset_during_drag_closes_it() {
    let mut k = Knob::new(param(500_000, 500_000)).on_grab().on_release();
    let mut s = State::new(k.value());
    k.on_event(&mut s, down(5, 5, 0), BOUNDS, true);
    let r = k.on_event(&mut s, down(5, 5, 100), BOUNDS, true);
    assert_eq!(r, resp(Status::Captured, false, false, true));
    assert_eq!(s.dragging_status, None);
}

#[test]
fn external_value_is_picked_up_before_a_drag() {
    let mut k = Knob::new(param(500_000, 500_000));
    let mut s = State::new(k.value());
    k.on_event(&mut s, down(0, 0, 0), BOUNDS, true);
    k.on_event(&mut s, moved(0, 10), BOUNDS, true);
    k.on_event(&mut s, up(), BOUNDS, true);
    let mut k = Knob::new(param(900_000, 500_000));
    k.on_event(&mut s, down(0, 0, 5_000), BOUNDS, true);
    assert_eq!(s.prev_normal.as_units(), 900_000);
    k.on_event(&mut s, moved(0, 2), BOUNDS, true);
    assert_eq!(k.value().as_units(), 900_000 - 2 * 3850);
}

#[test]
fn modifier_keys_give_fine_control() {
    let mut k = Knob::new(param(300_000, 500_000));
    let mut s = State::new(k.value());
    let ctrl = Event::ModifiersChanged { modifiers: Modifiers::ctrl() };
    assert_eq!(k.on_event(&mut s, ctrl, BOUNDS, false), resp(Status::Captured, false, false, false));
    k.on_event(&mut s, down(0, 100, 0), BOUNDS, true);
    k.on_event(&mut s, moved(0, 90), BOUNDS, true);
    assert_eq!(k.value().as_units(), 300_000 + 38_500 * 20_000 / 1_000_000);
}

#[test]
fn fine_control_can_round_a_move_away() {
    let mut k = Knob::new(param(300_000, 500_000)).scalar(10);
    let mut s = State::new(k.value());
    k.on_event(&mut s, Event::ModifiersChanged { modifiers: Modifiers::ctrl() }, BOUNDS, true);
    k.on_event(&mut s, down(0, 100, 0), BOUNDS, true);
    let r = k.on_event(&mut s, moved(0, 99), BOUNDS, true);
    assert_eq!(r, resp(Status::Captured, false, false, false));
    assert_eq!(k.value().as_units(), 300_000);
}

#[test]
fn other_buttons_and_presses_outside_are_ignored() {
    let mut k = Knob::new(param(300_000, 500_000)).on_grab();
    let mut s = State::new(k.value());
    let right = Event::PointerDown { x: 1, y: 1, button: Button::Right, time_ms: 0 };
    assert_eq!(k.on_event(&mut s, right, BOUNDS, true).status, Status::Ignored);
    assert_eq!(k.on_event(&mut s, down(1, 1, 0), BOUNDS, false).status, Status::Ignored);
    assert_eq!(k.on_event(&mut s, moved(1, 1), BOUNDS, true).status, Status::Ignored);
    assert_eq!(s.dragging_status, None);
}

#[test]
fn v_slider_scales_by_height_and_holds_anchor() {
    let b = Bounds { x: 0, y: 100, width: 14, height: 200 };
    let mut v = VSlider::new(param(500_000, 500_000));
    let mut s = State::new(v.value());
    v.on_event(&mut s, down(5, 200, 0), b, true);
    v.on_event(&mut s, moved(5, 180), b, true);
    assert_eq!(v.value().as_units(), 500_000 + 20 * 957_500 / 200);
    v.on_event(&mut s, moved(5, 0), b, true);
    assert_eq!(s.prev_drag, 100);
    let before = v.value().as_units();
    v.on_event(&mut s, moved(5, 110), b, true);
    assert_eq!(v.value().as_units(), before - 10 * 957_500 / 200);
}

#[test]
fn v_slider_with_no_height_ignores_moves() {
    let b = Bounds { x: 0, y: 0, width: 14, height: 0 };
    let mut v = VSlider::new(param(500_000, 500_000));
    let mut s = State::new(v.value());
    v.on_event(&mut s, down(5, 0, 0), b, true);
    assert_eq!(v.on_event(&mut s, moved(5, 10), b, true).status, Status::Ignored);
    assert_eq!(v.value().as_units(), 500_000);
}

#[test]
fn h_slider_drag_right_increases() {
    let b = Bounds { x: 0, y: 0, width: 100, height: 14 };
    let mut h = HSlider::new(param(500_000, 500_000));
    let mut s = State::new(h.value());
    h.on_event(&mut s, down(50, 5, 0), b, true);
    h.on_event(&mut s, moved(60, 5), b, true);
    assert_eq!(h.value().as_units(), 500_000 + 10 * 957_500 / 100);
    h.on_event(&mut s, moved(40, 5), b, true);
    assert_eq!(h.value().as_units(), 500_000 + 10 * 957_500 / 100 - 20 * 957_500 / 100);
}

#[test]
fn ramp_keeps_direction_and_drags_like_a_knob() {
    let mut r = Ramp::new(param(0, 0), RampDirection::Down);
    assert_eq!(r.direction, RampDirection::Down);
    let mut s = State::new(r.value());
    r.on_event(&mut s, down(0, 50, 0), BOUNDS, true);
    r.on_event(&mut s, moved(0, 40), BOUNDS, true);
    assert_eq!(r.value().as_units(), 38_500);
    assert_eq!(r.direction, RampDirection::Down);
}

#[test]
fn slider_status_helpers() {
    let mut st = SliderStatus::Unchanged;
    assert!(!st.was_moved());
    st.moved();
    assert!(st.was_moved());
}

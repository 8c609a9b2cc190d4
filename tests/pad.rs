use audio_widgets::click::Button;
use audio_widgets::event::{Bounds, Event, Response, Status};
use audio_widgets::modifiers::Modifiers;
use audio_widgets::normal::{Normal, NormalParam};
use audio_widgets::slider::SliderStatus;
use audio_widgets::xy_pad::{State, XYPad};

fn param(value: i128, default: i128) -> NormalParam {
    NormalParam::new(Normal::clip(value), Normal::clip(default))
}

fn down(x: i32, y: i32, time_ms: u64) -> Event {
    Event::PointerDown { x, y, button: Button::Left, time_ms }
}

fn units(p: &XYPad) -> (u32, u32) {
    let (x, y) = p.values();
    (x.as_units(), y.as_units())
}

const B: Bounds = Bounds { x: 0, y: 0, width: 100, height: 100 };

#[test]
fn press_jumps_to_pointer_and_changes_at_once() {
    let mut p = XYPad::new(param(0, 500_000), param(0, 500_000));
    let (x, y) = p.values();
    let mut s = State::new(x, y);
    let r = p.on_event(&mut s, down(80, 20, 0), B, true);
    assert_eq!(r, Response { status: Status::Captured, grab: false, change: true, release: false });
    assert_eq!(units(&p), (800_000, 800_000));
}

#[test]
fn press_uses_the_smaller_side_and_clamps() {
    let b = Bounds { x: 10, y: 10, width: 300, height: 200 };
    let mut p = XYPad::new(param(0, 0), param(0, 0));
    let (x, y) = p.values();
    let mut s = State::new(x, y);
    p.on_event(&mut s, down(60, 260, 0), b, true);
    assert_eq!(units(&p), (250_000, 0));
    p.on_event(&mut s, Event::PointerUp { button: Button::Left }, b, true);
    p.on_event(&mut s, down(290, 10, 5_000), b, true);
    assert_eq!(units(&p), (1_000_000, 1_000_000));
}

#[test]
fn drag_moves_both_axes() {
    let mut p = XYPad::new(param(0, 0), param(0, 0)).on_grab().on_release();
    let (x, y) = p.values();
    let mut s = State::new(x, y);
    assert!(p.on_event(&mut s, down(50, 50, 0), B, true).grab);
    let r = p.on_event(&mut s, Event::PointerMoved { x: 60, y: 40 }, B, true);
    assert!(r.change);
    assert_eq!(units(&p), (600_000, 600_000));
    assert_eq!(s.dragging_status, Some(SliderStatus::Moved));
    let r = p.on_event(&mut s, Event::PointerUp { button: Button::Left }, B, true);
    assert!(r.release);
}

#[test]
fn pad_fine_control() {
    let mut p = XYPad::new(param(0, 0), param(0, 0)).modifier_scalar(500_000);
    let (x, y) = p.values();
    let mut s = State::new(x, y);
    p.on_event(&mut s, Event::ModifiersChanged { modifiers: Modifiers::ctrl() }, B, true);
    p.on_event(&mut s, down(50, 50, 0), B, true);
    p.on_event(&mut s, Event::PointerMoved { x: 70, y: 50 }, B, true);
    assert_eq!(units(&p), (600_000, 500_000));
}

#[test]
fn pad_double_click_resets_both() {
    let mut p = XYPad::new(param(0, 300_000), param(0, 700_000)).on_grab().on_release();
    let (x, y) = p.values();
    let mut s = State::new(x, y);
    p.on_event(&mut s, down(50, 50, 0), B, true);
    p.on_event(&mut s, Event::PointerUp { button: Button::Left }, B, true);
    let r = p.on_event(&mut s, down(50, 50, 100), B, true);
    assert_eq!(r, Response { status: Status::Captured, grab: true, change: true, release: true });
    assert_eq!(units(&p), (300_000, 700_000));
}

#[test]
fn pad_ignores_wheel_and_zero_size_moves() {
    let mut p = XYPad::new(param(0, 0), param(0, 0)).modifier_keys(Modifiers::empty());
    let (x, y) = p.values();
    let mut s = State::new(x, y);
    let w = Event::WheelScrolled { delta: audio_widgets::event::ScrollDelta::Lines(1) };
    assert_eq!(p.on_event(&mut s, w, B, true).status, Status::Ignored);
    let empty = Bounds { x: 0, y: 0, width: 0, height: 40 };
    let r = p.on_event(&mut s, down(0, 0, 0), empty, true);
    assert!(!r.change);
    let r = p.on_event(&mut s, Event::PointerMoved { x: 5, y: 5 }, empty, true);
    assert_eq!(r.status, Status::Ignored);
}

use audio_widgets::bipolar::{BipolarState, KnobInfo};
use audio_widgets::click::{Button, Click, ClickKind};
use audio_widgets::modifiers::Modifiers;
use audio_widgets::normal::{Normal, NormalParam, SCALE};
use audio_widgets::ramp::RampDirection;
use audio_widgets::tick_marks::Tier;

fn n(units: i128) -> Normal {
    Normal::clip(units)
}

#[test]
fn clip_clamps_below_and_above() {
    assert_eq!(n(-5_000_000).as_units(), 0);
    assert_eq!(n(5_000_000).as_units(), SCALE);
    assert_eq!(n(300_000).as_units(), 300_000);
    assert_eq!(n(i128::MIN).as_units(), 0);
    assert_eq!(n(i128::MAX).as_units(), SCALE);
}

#[test]
fn clip_is_idempotent() {
    for raw in [-7_i128, 0, 1, 499_999, 1_000_000, 1_000_001, 42_000_000] {
        let once = n(raw);
        assert_eq!(n(once.as_units() as i128), once);
    }
}

#[test]
fn named_values() {
    assert_eq!(Normal::min().as_units(), 0);
    assert_eq!(Normal::max().as_units(), 1_000_000);
    assert_eq!(Normal::center().as_units(), 500_000);
}

#[test]
fn set_clipped_replaces_value() {
    let mut v = n(100);
    v.set_clipped(2_000_000);
    assert_eq!(v, Normal::max());
    v.set_clipped(-1);
    assert_eq!(v, Normal::min());
}

#[test]
fn scale_and_inverse_scale() {
    let v = n(250_000);
    assert_eq!(v.scale(200), 50);
    assert_eq!(v.scale_inv(200), 150);
    assert_eq!(Normal::max().scale(u32::MAX), u32::MAX);
    assert_eq!(Normal::max().scale_inv(640), 0);
    assert_eq!(n(333_333).scale(3), 0);
}

#[test]
fn normal_param_holds_value_and_default() {
    let p = NormalParam::new(n(300_000), n(500_000));
    assert_eq!(p.value.as_units(), 300_000);
    assert_eq!(p.default.as_units(), 500_000);
}

#[test]
fn modifiers_contain() {
    let held = Modifiers { shift: true, control: true, alt: false, logo: false };
    assert!(held.contains(Modifiers::ctrl()));
    assert!(held.contains(Modifiers::empty()));
    assert!(!Modifiers::ctrl().contains(held));
    assert!(!Modifiers::empty().contains(Modifiers::ctrl()));
}

#[test]
fn click_series() {
    let a = Click::new(10, 10, Button::Left, 1_000, None);
    assert_eq!(a.kind(), ClickKind::Single);
    let b = Click::new(11, 9, Button::Left, 1_200, Some(a));
    assert_eq!(b.kind(), ClickKind::Double);
    let c = Click::new(11, 9, Button::Left, 1_500, Some(b));
    assert_eq!(c.kind(), ClickKind::Triple);
    let d = Click::new(11, 9, Button::Left, 1_600, Some(c));
    assert_eq!(d.kind(), ClickKind::Double);
}

#[test]
fn click_breaks_on_time_distance_or_button() {
    let a = Click::new(10, 10, Button::Left, 1_000, None);
    assert_eq!(Click::new(10, 10, Button::Left, 1_301, Some(a)).kind(), ClickKind::Single);
    assert_eq!(Click::new(10, 10, Button::Left, 1_300, Some(a)).kind(), ClickKind::Double);
    assert_eq!(Click::new(13, 10, Button::Left, 1_100, Some(a)).kind(), ClickKind::Single);
    assert_eq!(Click::new(10, 10, Button::Right, 1_100, Some(a)).kind(), ClickKind::Single);
    assert_eq!(Click::new(10, 10, Button::Left, 1_000, Some(a)).kind(), ClickKind::Single);
    assert_eq!(Click::new(10, 10, Button::Left, 900, Some(a)).kind(), ClickKind::Single);
}

#[test]
fn bipolar_state_with_center() {
    let info = KnobInfo { value: n(300_000), bipolar_center: Some(n(400_000)) };
    assert_eq!(BipolarState::from_knob_info(&info), BipolarState::Left);
    let info = KnobInfo { value: n(400_000), bipolar_center: Some(n(400_000)) };
    assert_eq!(BipolarState::from_knob_info(&info), BipolarState::Center);
    let info = KnobInfo { value: n(400_001), bipolar_center: Some(n(400_000)) };
    assert_eq!(BipolarState::from_knob_info(&info), BipolarState::Right);
}

#[test]
fn bipolar_state_without_center() {
    let at = |u: i128| BipolarState::from_knob_info(&KnobInfo { value: n(u), bipolar_center: None });
    assert_eq!(at(498_999), BipolarState::Left);
    assert_eq!(at(499_000), BipolarState::Center);
    assert_eq!(at(500_000), BipolarState::Center);
    assert_eq!(at(501_000), BipolarState::Center);
    assert_eq!(at(501_001), BipolarState::Right);
}

#[test]
fn defaults_of_small_enums() {
    assert_eq!(Tier::default(), Tier::One);
    assert_eq!(RampDirection::default(), RampDirection::Up);
}

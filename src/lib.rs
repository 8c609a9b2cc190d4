//! Verified interaction core for audio-style parameter widgets: a clamped
//! normalized value, click classification, and the drag / wheel / reset
//! gesture state machine shared by knobs, sliders, ramps and XY pads.

pub mod bipolar;
pub mod click;
pub mod event;
pub mod gesture;
pub mod h_slider;
pub mod knob;
pub mod modifiers;
pub mod normal;
pub mod ramp;
pub mod slider;
pub mod tick_marks;
pub mod v_slider;
pub mod xy_pad;

pub use click::{Button, Click, ClickKind};
pub use event::{Bounds, Event, Response, ScrollDelta, Status};
pub use modifiers::Modifiers;
pub use normal::{Normal, NormalParam};
pub use slider::{DragAxis, Slider, SliderStatus, State};
pub use h_slider::HSlider;
pub use knob::Knob;
pub use ramp::{Ramp, RampDirection};
pub use v_slider::VSlider;
pub use xy_pad::XYPad;
pub use bipolar::{BipolarState, KnobInfo};
pub use tick_marks::Tier;

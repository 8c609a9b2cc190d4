//! A horizontal slider: horizontal drag relative to its width, right increases.

use vstd::prelude::*;

use crate::event::{Bounds, Event, Response};
use crate::modifiers::{control_only, Modifiers};
use crate::normal::{Normal, NormalParam};
use crate::slider::{step, DragAxis, Slider};

pub use crate::slider::State;

verus! {

/// Value steps per whole extent of drag, by default.
pub const DEFAULT_SCALAR: i32 = 957_500;

/// Value steps per wheel line, by default.
pub const DEFAULT_WHEEL_SCALAR: i32 = 10_000;

/// Fine-control factor in `1 / SCALE` steps, by default.
pub const DEFAULT_MODIFIER_SCALAR: i32 = 20_000;

/// A horizontal slider that controls a [`NormalParam`].
#[derive(Debug, Clone, Copy)]
pub struct HSlider {
    pub slider: Slider,
}

impl HSlider {
    /// A new [`HSlider`] on `normal_param`, with the default scalars, control as
    /// the fine-control key, and no grab or release callback.
    pub fn new(normal_param: NormalParam) -> (r: HSlider)
        ensures
            r.slider == (Slider {
                normal_param,
                axis: DragAxis::Horizontal,
                scalar: DEFAULT_SCALAR,
                wheel_scalar: DEFAULT_WHEEL_SCALAR,
                modifier_scalar: DEFAULT_MODIFIER_SCALAR,
                modifier_keys: control_only(),
                has_on_grab: false,
                has_on_release: false,
            }),
    {
        HSlider {
            slider: Slider {
                normal_param,
                axis: DragAxis::Horizontal,
                scalar: DEFAULT_SCALAR,
                wheel_scalar: DEFAULT_WHEEL_SCALAR,
                modifier_scalar: DEFAULT_MODIFIER_SCALAR,
                modifier_keys: Modifiers::ctrl(),
                has_on_grab: false,
                has_on_release: false,
            }
        }
    }

    /// Declares a grab callback: the host is told when an interaction starts, and
    /// every grab is paired with a release.
    pub fn on_grab(self) -> (r: HSlider)
        ensures
            r.slider == (Slider { has_on_grab: true, ..self.slider }),
    {
        HSlider { slider: Slider { has_on_grab: true, ..self.slider }, ..self }
    }

    /// Declares a release callback: the host is told when an interaction ends.
    pub fn on_release(self) -> (r: HSlider)
        ensures
            r.slider == (Slider { has_on_release: true, ..self.slider }),
    {
        HSlider { slider: Slider { has_on_release: true, ..self.slider }, ..self }
    }

    /// Sets the value steps per whole width of drag.
    pub fn scalar(self, scalar: i32) -> (r: HSlider)
        ensures
            r.slider == (Slider { scalar, ..self.slider }),
    {
        HSlider { slider: Slider { scalar, ..self.slider }, ..self }
    }

    /// Sets the value steps per wheel line; `0` turns the wheel off.
    pub fn wheel_scalar(self, wheel_scalar: i32) -> (r: HSlider)
        ensures
            r.slider == (Slider { wheel_scalar, ..self.slider }),
    {
        HSlider { slider: Slider { wheel_scalar, ..self.slider }, ..self }
    }

    /// Sets the keys that switch on fine control.
    pub fn modifier_keys(self, modifier_keys: Modifiers) -> (r: HSlider)
        ensures
            r.slider == (Slider { modifier_keys, ..self.slider }),
    {
        HSlider { slider: Slider { modifier_keys, ..self.slider }, ..self }
    }

    /// Sets the fine-control factor, in `1 / SCALE` steps (`SCALE / 2` halves
    /// the speed).
    pub fn modifier_scalar(self, modifier_scalar: i32) -> (r: HSlider)
        ensures
            r.slider == (Slider { modifier_scalar, ..self.slider }),
    {
        HSlider { slider: Slider { modifier_scalar, ..self.slider }, ..self }
    }

    /// The current value.
    pub fn value(&self) -> (r: Normal)
        ensures
            r == self.slider.normal_param.value,
    {
        self.slider.normal_param.value
    }

    /// Handles one event, as `step` describes.
    pub fn on_event(&mut self, state: &mut State, event: Event, bounds: Bounds, is_over: bool) -> (r: Response)
        ensures
            step(old(self).slider@, old(state)@, event, bounds, is_over) == (final(self).slider@, final(state)@, r),
            final(self).slider.normal_param.default == old(self).slider.normal_param.default,
    {
        self.slider.on_event(state, event, bounds, is_over)
    }
}

} // verus!

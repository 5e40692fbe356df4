//! Self-validating command parameters.

use vstd::prelude::*;

use crate::error::ValidationError;

verus! {

pub const BRIGHTNESS_MIN: u8 = 1;

pub const BRIGHTNESS_MAX: u8 = 100;

pub const COLOR_TEMPERATURE_MIN: u16 = 2700;

pub const COLOR_TEMPERATURE_MAX: u16 = 6500;

/// Whether `v` is an accepted brightness level.
pub open spec fn brightness_in_range(v: u8) -> bool {
    BRIGHTNESS_MIN <= v <= BRIGHTNESS_MAX
}

/// Whether `v` is an accepted color temperature.
pub open spec fn color_temperature_in_range(v: u16) -> bool {
    COLOR_TEMPERATURE_MIN <= v <= COLOR_TEMPERATURE_MAX
}

/// A brightness level in percent, `1..=100`.
#[derive(Debug, Clone, Copy)]
pub struct BrightnessValue(u8);

impl View for BrightnessValue {
    type V = u8;

    closed spec fn view(&self) -> u8 {
        self.0
    }
}

impl BrightnessValue {
    #[verifier::type_invariant]
    spec fn in_range(self) -> bool {
        brightness_in_range(self.0)
    }

    /// Accepts `value` when it lies in `1..=100`; never clamps.
    pub fn try_from(value: u8) -> (r: Result<Self, ValidationError>)
        ensures
            r is Ok <==> brightness_in_range(value),
            r is Ok ==> r->Ok_0@ == value,
            r is Err ==> r->Err_0 == (ValidationError::OutOfRange {
                min: BRIGHTNESS_MIN as u16,
                max: BRIGHTNESS_MAX as u16,
            }),
    {
        if BRIGHTNESS_MIN <= value && value <= BRIGHTNESS_MAX {
            Ok(BrightnessValue(value))
        } else {
            Err(ValidationError::OutOfRange { min: BRIGHTNESS_MIN as u16, max: BRIGHTNESS_MAX as u16 })
        }
    }

    pub fn get(&self) -> (r: u8)
        ensures
            r == self@,
            brightness_in_range(r),
    {
        proof {
            use_type_invariant(self);
        }
        self.0
    }
}

/// An RGB color, one byte per channel.
#[derive(Debug, Clone, Copy)]
pub struct ColorValues(u8, u8, u8);

impl View for ColorValues {
    type V = (u8, u8, u8);

    closed spec fn view(&self) -> (u8, u8, u8) {
        (self.0, self.1, self.2)
    }
}

impl ColorValues {
    /// Accepts every triple: each channel already lies in `0..=255`.
    pub fn try_from(values: (u8, u8, u8)) -> (r: Result<Self, ValidationError>)
        ensures
            r is Ok,
            r->Ok_0@ == values,
    {
        let (r, g, b) = values;
        Ok(ColorValues(r, g, b))
    }

    pub fn get(&self) -> (r: (u8, u8, u8))
        ensures
            r == self@,
    {
        (self.get_r(), self.get_g(), self.get_b())
    }

    pub fn get_r(&self) -> (r: u8)
        ensures
            r == self@.0,
    {
        self.0
    }

    pub fn get_g(&self) -> (r: u8)
        ensures
            r == self@.1,
    {
        self.1
    }

    pub fn get_b(&self) -> (r: u8)
        ensures
            r == self@.2,
    {
        self.2
    }
}

/// A white-light color temperature in kelvin, `2700..=6500`.
#[derive(Debug, Clone, Copy)]
pub struct ColorTemperatureValue(u16);

impl View for ColorTemperatureValue {
    type V = u16;

    closed spec fn view(&self) -> u16 {
        self.0
    }
}

impl ColorTemperatureValue {
    #[verifier::type_invariant]
    spec fn in_range(self) -> bool {
        color_temperature_in_range(self.0)
    }

    /// Accepts `value` when it lies in `2700..=6500`; never clamps.
    pub fn try_from(value: u16) -> (r: Result<Self, ValidationError>)
        ensures
            r is Ok <==> color_temperature_in_range(value),
            r is Ok ==> r->Ok_0@ == value,
            r is Err ==> r->Err_0 == (ValidationError::OutOfRange {
                min: COLOR_TEMPERATURE_MIN,
                max: COLOR_TEMPERATURE_MAX,
            }),
    {
        if COLOR_TEMPERATURE_MIN <= value && value <= COLOR_TEMPERATURE_MAX {
            Ok(ColorTemperatureValue(value))
        } else {
            Err(ValidationError::OutOfRange { min: COLOR_TEMPERATURE_MIN, max: COLOR_TEMPERATURE_MAX })
        }
    }

    pub fn get(&self) -> (r: u16)
        ensures
            r == self@,
            color_temperature_in_range(r),
    {
        proof {
            use_type_invariant(self);
        }
        self.0
    }
}

} // verus!

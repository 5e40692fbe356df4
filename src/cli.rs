//! Turning a command word and its values, as typed on the command line,
//! into a validated `Command`.

use vstd::prelude::*;
use vstd::string::*;

use crate::ac::{AcFanSpeed, AcMode, AcPowerState, AcValues};
use crate::command::{Command, CommandView};
use crate::error::ValidationError;
use crate::text::{parse_unsigned, parses_within, str_eq, unsigned_literal_value};
use crate::value_objects::{
    brightness_in_range, color_temperature_in_range, BrightnessValue, ColorTemperatureValue,
    ColorValues, BRIGHTNESS_MAX, BRIGHTNESS_MIN, COLOR_TEMPERATURE_MAX, COLOR_TEMPERATURE_MIN,
};

verus! {

/// The values given on the command line, as plain values.
pub open spec fn values_view(values: Option<Vec<String>>) -> Option<Seq<Seq<char>>> {
    match values {
        Some(v) => Some(v@.map_values(|s: String| s@)),
        None => None,
    }
}

/// The first value read as a number of at most `max`.
pub open spec fn first_number(values: Option<Seq<Seq<char>>>, max: nat) -> Result<
    nat,
    ValidationError,
> {
    match values {
        Some(v) => if v.len() == 0 {
            Err(ValidationError::MissingValue)
        } else if parses_within(v[0], max) {
            Ok(unsigned_literal_value(v[0]))
        } else {
            Err(ValidationError::NotANumber)
        },
        None => Err(ValidationError::MissingValue),
    }
}

pub open spec fn brightness_for(values: Option<Seq<Seq<char>>>) -> Result<
    CommandView,
    ValidationError,
> {
    match first_number(values, 255) {
        Ok(n) => if brightness_in_range(n as u8) {
            Ok(CommandView::SetBrightness(n as u8))
        } else {
            Err(ValidationError::OutOfRange { min: BRIGHTNESS_MIN as u16, max: BRIGHTNESS_MAX as u16 })
        },
        Err(e) => Err(e),
    }
}

pub open spec fn color_temperature_for(values: Option<Seq<Seq<char>>>) -> Result<
    CommandView,
    ValidationError,
> {
    match first_number(values, 65535) {
        Ok(n) => if color_temperature_in_range(n as u16) {
            Ok(CommandView::SetColorTemperature(n as u16))
        } else {
            Err(ValidationError::OutOfRange { min: COLOR_TEMPERATURE_MIN, max: COLOR_TEMPERATURE_MAX })
        },
        Err(e) => Err(e),
    }
}

/// Every value must be a byte; then there must be exactly three.
pub open spec fn color_for(values: Option<Seq<Seq<char>>>) -> Result<CommandView, ValidationError> {
    match values {
        Some(v) => if exists|i: int| 0 <= i < v.len() && !parses_within(#[trigger] v[i], 255) {
            Err(ValidationError::NotANumber)
        } else if v.len() != 3 {
            Err(ValidationError::WrongValueCount { expected: 3, found: v.len() as usize })
        } else {
            Ok(
                CommandView::SetColor(
                    unsigned_literal_value(v[0]) as u8,
                    unsigned_literal_value(v[1]) as u8,
                    unsigned_literal_value(v[2]) as u8,
                ),
            )
        },
        None => Err(ValidationError::MissingValue),
    }
}

/// Exactly four values: temperature, mode, fan speed, power state.
pub open spec fn ac_for(values: Option<Seq<Seq<char>>>) -> Result<CommandView, ValidationError> {
    match values {
        Some(v) => if v.len() != 4 {
            Err(ValidationError::WrongValueCount { expected: 4, found: v.len() as usize })
        } else if !parses_within(v[0], 255) {
            Err(ValidationError::NotANumber)
        } else {
            match AcMode::parse_spec(v[1]) {
                None => Err(ValidationError::UnknownMode),
                Some(m) => match AcFanSpeed::parse_spec(v[2]) {
                    None => Err(ValidationError::UnknownFanSpeed),
                    Some(f) => match AcPowerState::parse_spec(v[3]) {
                        None => Err(ValidationError::UnknownPowerState),
                        Some(p) => Ok(
                            CommandView::AcSetAll(unsigned_literal_value(v[0]) as u8, m, f, p),
                        ),
                    },
                },
            }
        },
        None => Err(ValidationError::MissingValue),
    }
}

/// The command that a word and its values name. A word that names no
/// modelled command is sent as it is, with the `customize` type when asked
/// for and the parameter `default`.
pub open spec fn command_for(word: Seq<char>, values: Option<Seq<Seq<char>>>, customize: bool) -> Result<
    CommandView,
    ValidationError,
> {
    if word == "on"@ {
        Ok(CommandView::TurnOn)
    } else if word == "off"@ {
        Ok(CommandView::TurnOff)
    } else if word == "brightness"@ {
        brightness_for(values)
    } else if word == "color"@ {
        color_for(values)
    } else if word == "color_temp"@ {
        color_temperature_for(values)
    } else if word == "ac"@ {
        ac_for(values)
    } else {
        Ok(
            CommandView::Custom {
                command_type: if customize {
                    "customize"@
                } else {
                    "command"@
                },
                command: word,
                parameter: "default"@,
            },
        )
    }
}

/// A built command, or the reason it was refused, as plain values.
pub open spec fn command_result_view(r: Result<Command, ValidationError>) -> Result<
    CommandView,
    ValidationError,
> {
    match r {
        Ok(c) => Ok(c@),
        Err(e) => Err(e),
    }
}

fn first_number_of(values: &Option<Vec<String>>, max: u64) -> (r: Result<u64, ValidationError>)
    requires
        max <= u32::MAX,
    ensures
        r matches Ok(n) ==> first_number(values_view(*values), max as nat) == Ok::<
            nat,
            ValidationError,
        >(n as nat),
        r matches Err(e) ==> first_number(values_view(*values), max as nat) == Err::<
            nat,
            ValidationError,
        >(e),
{
    match values {
        Some(v) => {
            if v.len() == 0 {
                return Err(ValidationError::MissingValue);
            }
            match parse_unsigned(v[0].as_str(), max) {
                Some(n) => Ok(n),
                None => Err(ValidationError::NotANumber),
            }
        },
        None => Err(ValidationError::MissingValue),
    }
}

fn color_command(values: &Option<Vec<String>>) -> (r: Result<Command, ValidationError>)
    ensures
        command_result_view(r) == color_for(values_view(*values)),
{
    let v = match values {
        Some(v) => v,
        None => return Err(ValidationError::MissingValue),
    };
    let ghost vv = v@.map_values(|s: String| s@);
    let n = v.len();
    let mut bytes: Vec<u8> = Vec::new();
    let mut i: usize = 0;
    while i < n
        invariant
            i <= n,
            n == v@.len(),
            vv == v@.map_values(|s: String| s@),
            values_view(*values) == Some(vv),
            bytes@.len() == i,
            forall|j: int| 0 <= j < i ==> parses_within(#[trigger] vv[j], 255),
            forall|j: int| 0 <= j < i ==> bytes@[j] as nat == unsigned_literal_value(#[trigger] vv[j]),
        decreases n - i,
    {
        match parse_unsigned(v[i].as_str(), 255) {
            Some(b) => {
                assert(vv[i as int] == v@[i as int]@);
                bytes.push(b as u8);
            },
            None => {
                assert(vv[i as int] == v@[i as int]@);
                assert(!parses_within(vv[i as int], 255));
                return Err(ValidationError::NotANumber);
            },
        }
        i = i + 1;
    }
    if n != 3 {
        return Err(ValidationError::WrongValueCount { expected: 3, found: n });
    }
    let color = match ColorValues::try_from((bytes[0], bytes[1], bytes[2])) {
        Ok(c) => c,
        Err(e) => return Err(e),
    };
    Ok(Command::SetColor(color))
}

fn ac_command(values: &Option<Vec<String>>) -> (r: Result<Command, ValidationError>)
    ensures
        command_result_view(r) == ac_for(values_view(*values)),
{
    let v = match values {
        Some(v) => v,
        None => return Err(ValidationError::MissingValue),
    };
    let ghost vv = v@.map_values(|s: String| s@);
    if v.len() != 4 {
        return Err(ValidationError::WrongValueCount { expected: 4, found: v.len() });
    }
    assert(vv[0] == v@[0]@ && vv[1] == v@[1]@ && vv[2] == v@[2]@ && vv[3] == v@[3]@);
    let temperature = match parse_unsigned(v[0].as_str(), 255) {
        Some(t) => t as u8,
        None => return Err(ValidationError::NotANumber),
    };
    let mode = match AcMode::parse(v[1].as_str()) {
        Ok(m) => m,
        Err(e) => return Err(e),
    };
    let fan_speed = match AcFanSpeed::parse(v[2].as_str()) {
        Ok(f) => f,
        Err(e) => return Err(e),
    };
    let power_state = match AcPowerState::parse(v[3].as_str()) {
        Ok(p) => p,
        Err(e) => return Err(e),
    };
    Ok(Command::AcSetAll(AcValues::new(temperature, mode, fan_speed, power_state)))
}

/// Builds the command that `word` and `values` name; see `command_for`.
pub fn build_command(word: &str, values: Option<Vec<String>>, customize: bool) -> (r: Result<
    Command,
    ValidationError,
>)
    ensures
        command_result_view(r) == command_for(word@, values_view(values), customize),
{
    proof {
        reveal_strlit("on");
        reveal_strlit("off");
        reveal_strlit("brightness");
        reveal_strlit("color");
        reveal_strlit("color_temp");
        reveal_strlit("ac");
    }
    if str_eq(word, "on") {
        Ok(Command::TurnOn)
    } else if str_eq(word, "off") {
        Ok(Command::TurnOff)
    } else if str_eq(word, "brightness") {
        let n = match first_number_of(&values, 255) {
            Ok(n) => n,
            Err(e) => return Err(e),
        };
        match BrightnessValue::try_from(n as u8) {
            Ok(b) => Ok(Command::SetBrightness(b)),
            Err(e) => Err(e),
        }
    } else if str_eq(word, "color") {
        color_command(&values)
    } else if str_eq(word, "color_temp") {
        let n = match first_number_of(&values, 65535) {
            Ok(n) => n,
            Err(e) => return Err(e),
        };
        match ColorTemperatureValue::try_from(n as u16) {
            Ok(t) => Ok(Command::SetColorTemperature(t)),
            Err(e) => Err(e),
        }
    } else if str_eq(word, "ac") {
        ac_command(&values)
    } else {
        let command_type = if customize {
            String::from_str("customize")
        } else {
            String::from_str("command")
        };
        Ok(
            Command::Custom {
                command_type,
                command: String::from_str(word),
                parameter: String::from_str("default"),
            },
        )
    }
}

} // verus!

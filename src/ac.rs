//! Air-conditioner settings: mode, fan speed, power state and the composite
//! of the three with a target temperature.

use vstd::prelude::*;
use vstd::string::*;

use crate::error::ValidationError;
use crate::text::{ascii_folded, folds_to};

verus! {

/// Operating mode of an air conditioner.
#[allow(non_camel_case_types, clippy::upper_case_acronyms)]
#[derive(Debug, Clone, Copy, PartialEq, Eq, Structural)]
pub enum AcMode {
    AUTO,
    COOL,
    DRY,
    FAN,
    HEAT,
}

impl AcMode {
    /// The canonical lower-case name.
    pub open spec fn mnemonic(self) -> Seq<char> {
        match self {
            AcMode::AUTO => seq!['a', 'u', 't', 'o'],
            AcMode::COOL => seq!['c', 'o', 'o', 'l'],
            AcMode::DRY => seq!['d', 'r', 'y'],
            AcMode::FAN => seq!['f', 'a', 'n'],
            AcMode::HEAT => seq!['h', 'e', 'a', 't'],
        }
    }

    /// The numeric code used on the wire.
    pub open spec fn spec_code(self) -> u8 {
        match self {
            AcMode::AUTO => 1,
            AcMode::COOL => 2,
            AcMode::DRY => 3,
            AcMode::FAN => 4,
            AcMode::HEAT => 5,
        }
    }

    /// The mode that a token names, by its name in any ASCII case or by its
    /// code written as one digit.
    pub open spec fn parse_spec(t: Seq<char>) -> Option<AcMode> {
        let f = ascii_folded(t);
        if f == AcMode::AUTO.mnemonic() || f == seq!['1'] {
            Some(AcMode::AUTO)
        } else if f == AcMode::COOL.mnemonic() || f == seq!['2'] {
            Some(AcMode::COOL)
        } else if f == AcMode::DRY.mnemonic() || f == seq!['3'] {
            Some(AcMode::DRY)
        } else if f == AcMode::FAN.mnemonic() || f == seq!['4'] {
            Some(AcMode::FAN)
        } else if f == AcMode::HEAT.mnemonic() || f == seq!['5'] {
            Some(AcMode::HEAT)
        } else {
            None
        }
    }

    pub fn code(self) -> (r: u8)
        ensures
            r == self.spec_code(),
    {
        match self {
            AcMode::AUTO => 1,
            AcMode::COOL => 2,
            AcMode::DRY => 3,
            AcMode::FAN => 4,
            AcMode::HEAT => 5,
        }
    }

    /// The value with the given code, if any.
    pub fn from_code(code: u8) -> (r: Option<Self>)
        ensures
            r is Some <==> 1 <= code <= 5,
            r is Some ==> r->0.spec_code() == code,
    {
        match code {
            1 => Some(AcMode::AUTO),
            2 => Some(AcMode::COOL),
            3 => Some(AcMode::DRY),
            4 => Some(AcMode::FAN),
            5 => Some(AcMode::HEAT),
            _ => None,
        }
    }

    pub fn as_str(self) -> (r: &'static str)
        ensures
            r@ == self.mnemonic(),
    {
        proof {
            reveal_strlit("auto");
            reveal_strlit("cool");
            reveal_strlit("dry");
            reveal_strlit("fan");
            reveal_strlit("heat");
            assert("auto"@ =~= AcMode::AUTO.mnemonic());
            assert("cool"@ =~= AcMode::COOL.mnemonic());
            assert("dry"@ =~= AcMode::DRY.mnemonic());
            assert("fan"@ =~= AcMode::FAN.mnemonic());
            assert("heat"@ =~= AcMode::HEAT.mnemonic());
        }
        match self {
            AcMode::AUTO => "auto",
            AcMode::COOL => "cool",
            AcMode::DRY => "dry",
            AcMode::FAN => "fan",
            AcMode::HEAT => "heat",
        }
    }

    pub fn parse(s: &str) -> (r: Result<Self, ValidationError>)
        ensures
            r is Ok <==> Self::parse_spec(s@) is Some,
            r is Ok ==> Some(r->Ok_0) == Self::parse_spec(s@),
            r is Err ==> r->Err_0 == ValidationError::UnknownMode,
    {
        proof {
            reveal_strlit("auto");
            reveal_strlit("1");
            reveal_strlit("cool");
            reveal_strlit("2");
            reveal_strlit("dry");
            reveal_strlit("3");
            reveal_strlit("fan");
            reveal_strlit("4");
            reveal_strlit("heat");
            reveal_strlit("5");
            assert("auto"@ =~= AcMode::AUTO.mnemonic());
            assert("1"@ =~= seq!['1']);
            assert("cool"@ =~= AcMode::COOL.mnemonic());
            assert("2"@ =~= seq!['2']);
            assert("dry"@ =~= AcMode::DRY.mnemonic());
            assert("3"@ =~= seq!['3']);
            assert("fan"@ =~= AcMode::FAN.mnemonic());
            assert("4"@ =~= seq!['4']);
            assert("heat"@ =~= AcMode::HEAT.mnemonic());
            assert("5"@ =~= seq!['5']);
        }
        if folds_to(s, "auto") || folds_to(s, "1") {
            Ok(AcMode::AUTO)
        } else if folds_to(s, "cool") || folds_to(s, "2") {
            Ok(AcMode::COOL)
        } else if folds_to(s, "dry") || folds_to(s, "3") {
            Ok(AcMode::DRY)
        } else if folds_to(s, "fan") || folds_to(s, "4") {
            Ok(AcMode::FAN)
        } else if folds_to(s, "heat") || folds_to(s, "5") {
            Ok(AcMode::HEAT)
        } else {
            Err(ValidationError::UnknownMode)
        }
    }
}

/// Fan speed of an air conditioner.
#[allow(non_camel_case_types, clippy::upper_case_acronyms)]
#[derive(Debug, Clone, Copy, PartialEq, Eq, Structural)]
pub enum AcFanSpeed {
    AUTO,
    LOW,
    MEDIUM,
    HIGH,
}

impl AcFanSpeed {
    /// The canonical lower-case name.
    pub open spec fn mnemonic(self) -> Seq<char> {
        match self {
            AcFanSpeed::AUTO => seq!['a', 'u', 't', 'o'],
            AcFanSpeed::LOW => seq!['l', 'o', 'w'],
            AcFanSpeed::MEDIUM => seq!['m', 'e', 'd', 'i', 'u', 'm'],
            AcFanSpeed::HIGH => seq!['h', 'i', 'g', 'h'],
        }
    }

    /// The numeric code used on the wire.
    pub open spec fn spec_code(self) -> u8 {
        match self {
            AcFanSpeed::AUTO => 1,
            AcFanSpeed::LOW => 2,
            AcFanSpeed::MEDIUM => 3,
            AcFanSpeed::HIGH => 4,
        }
    }

    /// The fan speed that a token names, by its name in any ASCII case or by
    /// its code written as one digit.
    pub open spec fn parse_spec(t: Seq<char>) -> Option<AcFanSpeed> {
        let f = ascii_folded(t);
        if f == AcFanSpeed::AUTO.mnemonic() || f == seq!['1'] {
            Some(AcFanSpeed::AUTO)
        } else if f == AcFanSpeed::LOW.mnemonic() || f == seq!['2'] {
            Some(AcFanSpeed::LOW)
        } else if f == AcFanSpeed::MEDIUM.mnemonic() || f == seq!['3'] {
            Some(AcFanSpeed::MEDIUM)
        } else if f == AcFanSpeed::HIGH.mnemonic() || f == seq!['4'] {
            Some(AcFanSpeed::HIGH)
        } else {
            None
        }
    }

    pub fn code(self) -> (r: u8)
        ensures
            r == self.spec_code(),
    {
        match self {
            AcFanSpeed::AUTO => 1,
            AcFanSpeed::LOW => 2,
            AcFanSpeed::MEDIUM => 3,
            AcFanSpeed::HIGH => 4,
        }
    }

    /// The value with the given code, if any.
    pub fn from_code(code: u8) -> (r: Option<Self>)
        ensures
            r is Some <==> 1 <= code <= 4,
            r is Some ==> r->0.spec_code() == code,
    {
        match code {
            1 => Some(AcFanSpeed::AUTO),
            2 => Some(AcFanSpeed::LOW),
            3 => Some(AcFanSpeed::MEDIUM),
            4 => Some(AcFanSpeed::HIGH),
            _ => None,
        }
    }

    pub fn as_str(self) -> (r: &'static str)
        ensures
            r@ == self.mnemonic(),
    {
        proof {
            reveal_strlit("auto");
            reveal_strlit("low");
            reveal_strlit("medium");
            reveal_strlit("high");
            assert("auto"@ =~= AcFanSpeed::AUTO.mnemonic());
            assert("low"@ =~= AcFanSpeed::LOW.mnemonic());
            assert("medium"@ =~= AcFanSpeed::MEDIUM.mnemonic());
            assert("high"@ =~= AcFanSpeed::HIGH.mnemonic());
        }
        match self {
            AcFanSpeed::AUTO => "auto",
            AcFanSpeed::LOW => "low",
            AcFanSpeed::MEDIUM => "medium",
            AcFanSpeed::HIGH => "high",
        }
    }

    pub fn parse(s: &str) -> (r: Result<Self, ValidationError>)
        ensures
            r is Ok <==> Self::parse_spec(s@) is Some,
            r is Ok ==> Some(r->Ok_0) == Self::parse_spec(s@),
            r is Err ==> r->Err_0 == ValidationError::UnknownFanSpeed,
    {
        proof {
            reveal_strlit("auto");
            reveal_strlit("1");
            reveal_strlit("low");
            reveal_strlit("2");
            reveal_strlit("medium");
            reveal_strlit("3");
            reveal_strlit("high");
            reveal_strlit("4");
            assert("auto"@ =~= AcFanSpeed::AUTO.mnemonic());
            assert("1"@ =~= seq!['1']);
            assert("low"@ =~= AcFanSpeed::LOW.mnemonic());
            assert("2"@ =~= seq!['2']);
            assert("medium"@ =~= AcFanSpeed::MEDIUM.mnemonic());
            assert("3"@ =~= seq!['3']);
            assert("high"@ =~= AcFanSpeed::HIGH.mnemonic());
            assert("4"@ =~= seq!['4']);
        }
        if folds_to(s, "auto") || folds_to(s, "1") {
            Ok(AcFanSpeed::AUTO)
        } else if folds_to(s, "low") || folds_to(s, "2") {
            Ok(AcFanSpeed::LOW)
        } else if folds_to(s, "medium") || folds_to(s, "3") {
            Ok(AcFanSpeed::MEDIUM)
        } else if folds_to(s, "high") || folds_to(s, "4") {
            Ok(AcFanSpeed::HIGH)
        } else {
            Err(ValidationError::UnknownFanSpeed)
        }
    }
}

/// Power state of an air conditioner.
#[allow(non_camel_case_types, clippy::upper_case_acronyms)]
#[derive(Debug, Clone, Copy, PartialEq, Eq, Structural)]
pub enum AcPowerState {
    OFF,
    ON,
}

impl AcPowerState {
    /// The canonical lower-case name.
    pub open spec fn mnemonic(self) -> Seq<char> {
        match self {
            AcPowerState::OFF => seq!['o', 'f', 'f'],
            AcPowerState::ON => seq!['o', 'n'],
        }
    }

    /// The numeric code used on the wire.
    pub open spec fn spec_code(self) -> u8 {
        match self {
            AcPowerState::OFF => 0,
            AcPowerState::ON => 1,
        }
    }

    /// The power state that a token names, by its name in any ASCII case or
    /// by its code written as one digit.
    pub open spec fn parse_spec(t: Seq<char>) -> Option<AcPowerState> {
        let f = ascii_folded(t);
        if f == AcPowerState::OFF.mnemonic() || f == seq!['0'] {
            Some(AcPowerState::OFF)
        } else if f == AcPowerState::ON.mnemonic() || f == seq!['1'] {
            Some(AcPowerState::ON)
        } else {
            None
        }
    }

    pub fn code(self) -> (r: u8)
        ensures
            r == self.spec_code(),
    {
        match self {
            AcPowerState::OFF => 0,
            AcPowerState::ON => 1,
        }
    }

    /// The value with the given code, if any.
    pub fn from_code(code: u8) -> (r: Option<Self>)
        ensures
            r is Some <==> code <= 1,
            r is Some ==> r->0.spec_code() == code,
    {
        match code {
            0 => Some(AcPowerState::OFF),
            1 => Some(AcPowerState::ON),
            _ => None,
        }
    }

    pub fn as_str(self) -> (r: &'static str)
        ensures
            r@ == self.mnemonic(),
    {
        proof {
            reveal_strlit("off");
            reveal_strlit("on");
            assert("off"@ =~= AcPowerState::OFF.mnemonic());
            assert("on"@ =~= AcPowerState::ON.mnemonic());
        }
        match self {
            AcPowerState::OFF => "off",
            AcPowerState::ON => "on",
        }
    }

    pub fn parse(s: &str) -> (r: Result<Self, ValidationError>)
        ensures
            r is Ok <==> Self::parse_spec(s@) is Some,
            r is Ok ==> Some(r->Ok_0) == Self::parse_spec(s@),
            r is Err ==> r->Err_0 == ValidationError::UnknownPowerState,
    {
        proof {
            reveal_strlit("off");
            reveal_strlit("0");
            reveal_strlit("on");
            reveal_strlit("1");
            assert("off"@ =~= AcPowerState::OFF.mnemonic());
            assert("0"@ =~= seq!['0']);
            assert("on"@ =~= AcPowerState::ON.mnemonic());
            assert("1"@ =~= seq!['1']);
        }
        if folds_to(s, "off") || folds_to(s, "0") {
            Ok(AcPowerState::OFF)
        } else if folds_to(s, "on") || folds_to(s, "1") {
            Ok(AcPowerState::ON)
        } else {
            Err(ValidationError::UnknownPowerState)
        }
    }
}

/// Settings applied to an air conditioner in one command. Each field is
/// valid by its type.
#[derive(Debug, Clone, Copy)]
pub struct AcValues {
    pub temperature: u8,
    pub mode: AcMode,
    pub fan_speed: AcFanSpeed,
    pub power_state: AcPowerState,
}

impl AcValues {
    pub fn new(temperature: u8, mode: AcMode, fan_speed: AcFanSpeed, power_state: AcPowerState) -> (r: Self)
        ensures
            r.temperature == temperature,
            r.mode == mode,
            r.fan_speed == fan_speed,
            r.power_state == power_state,
    {
        AcValues { temperature, mode, fan_speed, power_state }
    }
}

/// Parsing the name that a mode renders to gives that mode back.
pub proof fn lemma_ac_mode_round_trip(m: AcMode)
    ensures
        AcMode::parse_spec(m.mnemonic()) == Some(m),
{
    assert(ascii_folded(m.mnemonic()) =~= m.mnemonic());
}

/// Parsing the name that a fan speed renders to gives that fan speed back.
pub proof fn lemma_ac_fan_speed_round_trip(f: AcFanSpeed)
    ensures
        AcFanSpeed::parse_spec(f.mnemonic()) == Some(f),
{
    assert(ascii_folded(f.mnemonic()) =~= f.mnemonic());
}

/// Parsing the name that a power state renders to gives that power state
/// back.
pub proof fn lemma_ac_power_state_round_trip(p: AcPowerState)
    ensures
        AcPowerState::parse_spec(p.mnemonic()) == Some(p),
{
    assert(ascii_folded(p.mnemonic()) =~= p.mnemonic());
}

} // verus!

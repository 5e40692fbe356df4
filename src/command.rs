//! Commands and their wire encoding.

use vstd::prelude::*;
use vstd::string::*;

use crate::ac::{AcFanSpeed, AcMode, AcPowerState, AcValues};
use crate::text::{decimal_of, push_decimal};
use crate::value_objects::{BrightnessValue, ColorTemperatureValue, ColorValues};

verus! {

/// Every action that can be sent to a device. The typed variants hold values
/// that were validated when they were built; `Custom` passes its three wire
/// fields through unchecked.
#[derive(Debug, Clone)]
pub enum Command {
    TurnOn,
    TurnOff,
    SetBrightness(BrightnessValue),
    SetColor(ColorValues),
    SetColorTemperature(ColorTemperatureValue),
    AcSetAll(AcValues),
    Custom { command_type: String, command: String, parameter: String },
}

/// A command as plain values.
pub ghost enum CommandView {
    TurnOn,
    TurnOff,
    SetBrightness(u8),
    SetColor(u8, u8, u8),
    SetColorTemperature(u16),
    AcSetAll(u8, AcMode, AcFanSpeed, AcPowerState),
    Custom { command_type: Seq<char>, command: Seq<char>, parameter: Seq<char> },
}

impl View for Command {
    type V = CommandView;

    open spec fn view(&self) -> CommandView {
        match self {
            Command::TurnOn => CommandView::TurnOn,
            Command::TurnOff => CommandView::TurnOff,
            Command::SetBrightness(v) => CommandView::SetBrightness(v@),
            Command::SetColor(v) => CommandView::SetColor(v@.0, v@.1, v@.2),
            Command::SetColorTemperature(v) => CommandView::SetColorTemperature(v@),
            Command::AcSetAll(v) => CommandView::AcSetAll(
                v.temperature,
                v.mode,
                v.fan_speed,
                v.power_state,
            ),
            Command::Custom { command_type, command, parameter } => CommandView::Custom {
                command_type: command_type@,
                command: command@,
                parameter: parameter@,
            },
        }
    }
}

/// The three fields of a command request body, as plain values.
pub ghost struct WireBody {
    pub command_type: Seq<char>,
    pub command: Seq<char>,
    pub parameter: Seq<char>,
}

/// The body of a command request.
#[derive(Debug, Clone)]
pub struct CommandRequestBody {
    pub command_type: String,
    pub command: String,
    pub parameter: String,
}

impl View for CommandRequestBody {
    type V = WireBody;

    open spec fn view(&self) -> WireBody {
        WireBody {
            command_type: self.command_type@,
            command: self.command@,
            parameter: self.parameter@,
        }
    }
}

/// The `parameter` of a color command: `r:g:b` in decimal.
pub open spec fn color_parameter(r: u8, g: u8, b: u8) -> Seq<char> {
    decimal_of(r as nat) + seq![':'] + decimal_of(g as nat) + seq![':'] + decimal_of(b as nat)
}

/// The `parameter` of an air-conditioner command:
/// `temperature,modeCode,fanSpeedCode,on|off`.
pub open spec fn ac_parameter(t: u8, m: AcMode, f: AcFanSpeed, p: AcPowerState) -> Seq<char> {
    decimal_of(t as nat) + seq![','] + decimal_of(m.spec_code() as nat) + seq![','] + decimal_of(
        f.spec_code() as nat,
    ) + seq![','] + p.mnemonic()
}

/// A body whose `commandType` is `command`.
pub open spec fn plain_body(command: Seq<char>, parameter: Seq<char>) -> WireBody {
    WireBody { command_type: "command"@, command, parameter }
}

/// What goes on the wire for each command.
pub open spec fn wire_body(c: CommandView) -> WireBody {
    match c {
        CommandView::TurnOn => plain_body("turnOn"@, "default"@),
        CommandView::TurnOff => plain_body("turnOff"@, "default"@),
        CommandView::SetBrightness(v) => plain_body("setBrightness"@, decimal_of(v as nat)),
        CommandView::SetColor(r, g, b) => plain_body("setColor"@, color_parameter(r, g, b)),
        CommandView::SetColorTemperature(v) => plain_body(
            "setColorTemperature"@,
            decimal_of(v as nat),
        ),
        CommandView::AcSetAll(t, m, f, p) => plain_body("setAll"@, ac_parameter(t, m, f, p)),
        CommandView::Custom { command_type, command, parameter } => WireBody {
            command_type,
            command,
            parameter,
        },
    }
}

fn plain_request(command: &str, parameter: String) -> (r: CommandRequestBody)
    ensures
        r@ == plain_body(command@, parameter@),
{
    CommandRequestBody {
        command_type: String::from_str("command"),
        command: String::from_str(command),
        parameter,
    }
}

impl Command {
    /// The request body that carries this command.
    pub fn to_request_body(&self) -> (r: CommandRequestBody)
        ensures
            r@ == wire_body(self@),
    {
        match self {
            Command::TurnOn => plain_request("turnOn", String::from_str("default")),
            Command::TurnOff => plain_request("turnOff", String::from_str("default")),
            Command::SetBrightness(v) => {
                let mut p = String::new();
                push_decimal(&mut p, v.get() as u128);
                plain_request("setBrightness", p)
            },
            Command::SetColor(v) => {
                let (r, g, b) = v.get();
                let mut p = String::new();
                push_decimal(&mut p, r as u128);
                p.append(":");
                push_decimal(&mut p, g as u128);
                p.append(":");
                push_decimal(&mut p, b as u128);
                proof {
                    reveal_strlit(":");
                    assert(p@ =~= color_parameter(r, g, b));
                }
                plain_request("setColor", p)
            },
            Command::SetColorTemperature(v) => {
                let mut p = String::new();
                push_decimal(&mut p, v.get() as u128);
                plain_request("setColorTemperature", p)
            },
            Command::AcSetAll(v) => {
                let mut p = String::new();
                push_decimal(&mut p, v.temperature as u128);
                p.append(",");
                push_decimal(&mut p, v.mode.code() as u128);
                p.append(",");
                push_decimal(&mut p, v.fan_speed.code() as u128);
                p.append(",");
                p.append(v.power_state.as_str());
                proof {
                    reveal_strlit(",");
                    assert(p@ =~= ac_parameter(v.temperature, v.mode, v.fan_speed, v.power_state));
                }
                plain_request("setAll", p)
            },
            Command::Custom { command_type, command, parameter } => CommandRequestBody {
                command_type: command_type.clone(),
                command: command.clone(),
                parameter: parameter.clone(),
            },
        }
    }
}

/// The JSON string literal that encodes `s`: quoted, with the characters
/// that JSON reserves escaped.
pub uninterp spec fn json_string_of(s: Seq<char>) -> Seq<char>;

/// Relies on `serde_json::to_string` applied to a `str`: the JSON string
/// literal for the text. It fails only where a `Serialize` impl chooses to
/// or a map has non-string keys, neither of which a `str` can do, so the
/// result is always `Some`.
#[verifier::external_body]
fn json_string(s: &str) -> (r: Option<String>)
    ensures
        r is Some,
        r matches Some(j) ==> j@ == json_string_of(s@),
{
    serde_json::to_string(s).ok()
}

/// The compact JSON object for a request body, fields in the order
/// `commandType`, `command`, `parameter`.
pub open spec fn body_json(b: WireBody) -> Seq<char> {
    "{\"commandType\":"@ + json_string_of(b.command_type) + ",\"command\":"@ + json_string_of(
        b.command,
    ) + ",\"parameter\":"@ + json_string_of(b.parameter) + "}"@
}

impl CommandRequestBody {
    /// The body as compact JSON.
    pub fn to_json(&self) -> (r: String)
        ensures
            r@ == body_json(self@),
    {
        let t = json_string(self.command_type.as_str()).unwrap();
        let c = json_string(self.command.as_str()).unwrap();
        let p = json_string(self.parameter.as_str()).unwrap();
        let mut out = String::from_str("{\"commandType\":");
        out.append(t.as_str());
        out.append(",\"command\":");
        out.append(c.as_str());
        out.append(",\"parameter\":");
        out.append(p.as_str());
        out.append("}");
        out
    }
}

} // verus!

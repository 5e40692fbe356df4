use switchbot_cli_tool::ac::{AcFanSpeed, AcMode, AcPowerState, AcValues};
use switchbot_cli_tool::api::{
    command_outcome, device_list_outcome, find_device, header_pairs, is_success, HttpMethod,
    SwitchBotApi,
};
use switchbot_cli_tool::command::Command;
use switchbot_cli_tool::device::{
    to_device_list, ApiResponse, Device, DeviceDto, DeviceId, DeviceListResponse,
    DeviceListResponseBody, IrRemoteDto,
};
use switchbot_cli_tool::dto::DeviceResponseDto;
use switchbot_cli_tool::error::ApiError;
use switchbot_cli_tool::signer::Signature;
use switchbot_cli_tool::value_objects::{BrightnessValue, ColorTemperatureValue, ColorValues};

fn physical(id: &str, name: &str) -> DeviceDto {
    DeviceDto {
        device_id: id.to_string(),
        device_name: name.to_string(),
        device_type: "Bot".to_string(),
        hub_device_id: "HUB1".to_string(),
    }
}

fn remote(id: &str, name: &str) -> IrRemoteDto {
    IrRemoteDto {
        device_id: id.to_string(),
        device_name: name.to_string(),
        remote_type: "Air Conditioner".to_string(),
        hub_device_id: "HUB1".to_string(),
    }
}

fn list_response(ir: Option<Vec<IrRemoteDto>>) -> DeviceListResponse {
    ApiResponse {
        status_code: 100,
        message: "success".to_string(),
        body: DeviceListResponseBody {
            device_list: vec![physical("D1", "desk lamp"), physical("D2", "curtain")],
            infrared_remote_list: ir,
        },
    }
}

fn api() -> SwitchBotApi {
    SwitchBotApi::new(
        "https://api.example.com/v1.1".to_string(),
        "my-token".to_string(),
        "my-secret".to_string(),
        reqwest::Client::new(),
    )
}

fn body_of(c: &Command) -> (String, String, String) {
    let b = c.to_request_body();
    (b.command_type, b.command, b.parameter)
}

fn s3(a: &str, b: &str, c: &str) -> (String, String, String) {
    (a.to_string(), b.to_string(), c.to_string())
}

#[test]
fn device_list_keeps_physical_then_infrared() {
    let devices = device_list_outcome(200, Ok(list_response(Some(vec![remote("IR1", "aircon")]))))
        .unwrap();
    assert_eq!(devices.len(), 3);
    let ids: Vec<&str> = devices.iter().map(|d| d.id.as_str()).collect();
    assert_eq!(ids, vec!["D1", "D2", "IR1"]);
    assert_eq!(
        devices.iter().map(|d| d.is_infrared).collect::<Vec<_>>(),
        vec![false, false, true]
    );
    assert_eq!(devices[0].name, "desk lamp");
    assert_eq!(devices[0].device_type, "Bot");
    assert_eq!(devices[2].device_type, "Air Conditioner");
    assert_eq!(devices[2].hub_device_id, "HUB1");
}

#[test]
fn device_list_without_infrared_section() {
    let devices = to_device_list(list_response(None));
    assert_eq!(devices.len(), 2);
    assert!(devices.iter().all(|d| !d.is_infrared));
    let empty = to_device_list(ApiResponse {
        status_code: 100,
        message: String::new(),
        body: DeviceListResponseBody { device_list: vec![], infrared_remote_list: Some(vec![]) },
    });
    assert!(empty.is_empty());
}

#[test]
fn non_success_status_is_a_transport_error() {
    assert_eq!(
        device_list_outcome(404, Ok(list_response(None))).unwrap_err(),
        ApiError::Transport { status: Some(404) }
    );
    assert_eq!(
        device_list_outcome(500, Err("eof".to_string())).unwrap_err(),
        ApiError::Transport { status: Some(500) }
    );
    assert_eq!(command_outcome(401, Ok(())).unwrap_err(), ApiError::Transport { status: Some(401) });
    assert_eq!(command_outcome(199, Ok(())).unwrap_err(), ApiError::Transport { status: Some(199) });
    assert_eq!(command_outcome(300, Ok(())).unwrap_err(), ApiError::Transport { status: Some(300) });
}

#[test]
fn malformed_body_is_a_deserialization_error() {
    assert_eq!(
        device_list_outcome(200, Err("missing field `deviceList`".to_string())).unwrap_err(),
        ApiError::Deserialization { context: "missing field `deviceList`".to_string() }
    );
    assert_eq!(
        command_outcome(204, Err("bad".to_string())).unwrap_err(),
        ApiError::Deserialization { context: "bad".to_string() }
    );
    assert_eq!(command_outcome(200, Ok(())), Ok(()));
}

#[test]
fn success_status_range() {
    assert!(is_success(200));
    assert!(is_success(299));
    assert!(!is_success(199));
    assert!(!is_success(300));
}

#[test]
fn turn_on_request() {
    let id = DeviceId::new("ABC123".to_string());
    let req = api().command_request(&id, &Command::TurnOn).unwrap();
    assert_eq!(req.method, HttpMethod::Post);
    assert_eq!(req.url, "https://api.example.com/v1.1/devices/ABC123/commands");
    assert!(req.url.ends_with("/devices/ABC123/commands"));
    assert_eq!(
        req.body.unwrap(),
        r#"{"commandType":"command","command":"turnOn","parameter":"default"}"#
    );
    let names: Vec<&str> = req.headers.iter().map(|(n, _)| n.as_str()).collect();
    assert_eq!(names, vec!["Authorization", "sign", "t", "nonce", "Content-Type"]);
    assert_eq!(req.headers[0].1, "my-token");
    assert_eq!(req.headers[3].1.len(), 16);
    assert_eq!(req.headers[4].1, "application/json");
}

#[test]
fn device_list_request_shape() {
    let req = api().device_list_request().unwrap();
    assert_eq!(req.method, HttpMethod::Get);
    assert_eq!(req.url, "https://api.example.com/v1.1/devices");
    assert!(req.body.is_none());
    assert_eq!(req.headers.len(), 5);
}

#[test]
fn wire_mapping_of_each_command() {
    assert_eq!(body_of(&Command::TurnOn), s3("command", "turnOn", "default"));
    assert_eq!(body_of(&Command::TurnOff), s3("command", "turnOff", "default"));
    let b = BrightnessValue::try_from(50).unwrap();
    assert_eq!(body_of(&Command::SetBrightness(b)), s3("command", "setBrightness", "50"));
    let c = ColorValues::try_from((255, 0, 128)).unwrap();
    assert_eq!(body_of(&Command::SetColor(c)), s3("command", "setColor", "255:0:128"));
    let t = ColorTemperatureValue::try_from(2700).unwrap();
    assert_eq!(body_of(&Command::SetColorTemperature(t)), s3("command", "setColorTemperature", "2700"));
    let ac = AcValues::new(26, AcMode::COOL, AcFanSpeed::MEDIUM, AcPowerState::ON);
    assert_eq!(body_of(&Command::AcSetAll(ac)), s3("command", "setAll", "26,2,3,on"));
    let ac = AcValues::new(18, AcMode::HEAT, AcFanSpeed::AUTO, AcPowerState::OFF);
    assert_eq!(body_of(&Command::AcSetAll(ac)), s3("command", "setAll", "18,5,1,off"));
    let custom = Command::Custom {
        command_type: "customize".to_string(),
        command: "volumeUp".to_string(),
        parameter: "2".to_string(),
    };
    assert_eq!(body_of(&custom), s3("customize", "volumeUp", "2"));
}

#[test]
fn request_json_escapes_fields() {
    let custom = Command::Custom {
        command_type: "command".to_string(),
        command: "say".to_string(),
        parameter: "a\"b\\c".to_string(),
    };
    let json = custom.to_request_body().to_json();
    assert_eq!(json, r#"{"commandType":"command","command":"say","parameter":"a\"b\\c"}"#);
}

#[test]
fn header_pairs_in_order() {
    let sig = Signature {
        timestamp: "1".to_string(),
        nonce: "n".to_string(),
        sign: "s".to_string(),
    };
    let h = header_pairs("tok", &sig);
    let expected = vec![
        ("Authorization", "tok"),
        ("sign", "s"),
        ("t", "1"),
        ("nonce", "n"),
        ("Content-Type", "application/json"),
    ];
    let got: Vec<(&str, &str)> = h.iter().map(|(a, b)| (a.as_str(), b.as_str())).collect();
    assert_eq!(got, expected);
}

#[test]
fn find_device_by_identifier() {
    let devices = to_device_list(list_response(Some(vec![remote("IR1", "aircon")])));
    let d = find_device(&devices, &DeviceId::new("IR1".to_string())).unwrap();
    assert_eq!(d.name, "aircon");
    assert!(d.is_infrared);
    assert_eq!(
        find_device(&devices, &DeviceId::new("nope".to_string())).unwrap_err(),
        ApiError::DeviceNotFound
    );
}

#[test]
fn response_dto_from_device() {
    let d = Device::from_device_dto(&physical("D9", "fan"));
    let dto = DeviceResponseDto::from_device(d);
    assert_eq!(dto.device_id, "D9");
    assert_eq!(dto.device_name, "fan");
    assert_eq!(dto.device_type, "Bot");
    assert_eq!(DeviceId::new("x".to_string()).value(), "x");
}

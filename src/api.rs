//! The protocol adapter: authenticated requests for the device-list and
//! command endpoints, and the classification of their responses.

use vstd::prelude::*;
use vstd::string::*;

use crate::command::{body_json, wire_body, Command};
use crate::device::{listed_devices, to_device_list, Device, DeviceId, DeviceListResponse};
use crate::error::{ApiError, SigningError};
use crate::signer::{generate_signature, signature_of, signs, Signature, NONCE_LEN};
use crate::text::str_eq;

verus! {

/// reqwest's HTTP client, held opaquely by `SwitchBotApi` and used only
/// where requests are sent.
#[verifier::external_type_specification]
#[verifier::external_body]
pub struct ExClient(reqwest::Client);

/// HTTP method of a request.
#[derive(Debug, Clone, Copy, PartialEq, Eq, Structural)]
pub enum HttpMethod {
    Get,
    Post,
}

/// A request ready to be sent: nothing in it is left to compute.
#[derive(Debug, Clone)]
pub struct HttpRequest {
    pub method: HttpMethod,
    pub url: String,
    pub headers: Vec<(String, String)>,
    pub body: Option<String>,
}

/// Header names and values as plain values.
pub open spec fn header_view(h: Seq<(String, String)>) -> Seq<(Seq<char>, Seq<char>)> {
    h.map_values(|p: (String, String)| (p.0@, p.1@))
}

/// The headers that authenticate a request.
pub open spec fn auth_header_view(
    token: Seq<char>,
    timestamp: Seq<char>,
    nonce: Seq<char>,
    sign: Seq<char>,
) -> Seq<(Seq<char>, Seq<char>)> {
    seq![
        ("Authorization"@, token),
        ("sign"@, sign),
        ("t"@, timestamp),
        ("nonce"@, nonce),
        ("Content-Type"@, "application/json"@),
    ]
}

/// Whether `h` are the authentication headers of a request of `token`,
/// signed under `secret` with some timestamp and a sixteen-character nonce.
pub open spec fn signed_headers(
    h: Seq<(Seq<char>, Seq<char>)>,
    token: Seq<char>,
    secret: Seq<char>,
) -> bool {
    exists|timestamp: Seq<char>, nonce: Seq<char>|
        nonce.len() == NONCE_LEN && #[trigger] auth_header_view(
            token,
            timestamp,
            nonce,
            signature_of(token, secret, timestamp, nonce),
        ) == h
}

/// The URL of the device-list endpoint.
pub open spec fn device_list_url(host: Seq<char>) -> Seq<char> {
    host + "/devices"@
}

/// The URL of the command endpoint of a device.
pub open spec fn command_url(host: Seq<char>, id: Seq<char>) -> Seq<char> {
    host + "/devices/"@ + id + "/commands"@
}

/// Whether an HTTP status reports success.
pub open spec fn is_success_status(status: u16) -> bool {
    200 <= status <= 299
}

fn pair(name: &str, value: &str) -> (r: (String, String))
    ensures
        r.0@ == name@,
        r.1@ == value@,
{
    (String::from_str(name), String::from_str(value))
}

/// The authentication headers for `token` and a signature.
pub fn header_pairs(token: &str, sig: &Signature) -> (r: Vec<(String, String)>)
    ensures
        header_view(r@) == auth_header_view(token@, sig.timestamp@, sig.nonce@, sig.sign@),
{
    let mut headers: Vec<(String, String)> = Vec::new();
    headers.push(pair("Authorization", token));
    headers.push(pair("sign", sig.sign.as_str()));
    headers.push(pair("t", sig.timestamp.as_str()));
    headers.push(pair("nonce", sig.nonce.as_str()));
    headers.push(pair("Content-Type", "application/json"));
    assert(header_view(headers@) =~= auth_header_view(
        token@,
        sig.timestamp@,
        sig.nonce@,
        sig.sign@,
    ));
    headers
}

/// Whether an HTTP status reports success.
pub fn is_success(status: u16) -> (r: bool)
    ensures
        r == is_success_status(status),
{
    200 <= status && status <= 299
}

/// The client of the device API: where it is, the credentials it signs
/// with, and the HTTP client it sends through.
pub struct SwitchBotApi {
    pub host: String,
    pub token: String,
    pub secret: String,
    pub client: reqwest::Client,
}

impl SwitchBotApi {
    pub fn new(host: String, token: String, secret: String, client: reqwest::Client) -> (r: Self)
        ensures
            r.host@ == host@,
            r.token@ == token@,
            r.secret@ == secret@,
    {
        SwitchBotApi { host, token, secret, client }
    }

    /// A fresh signature for the next request.
    pub fn generate_signature(&self) -> (r: Result<Signature, SigningError>)
        ensures
            r matches Ok(s) ==> {
                &&& s.nonce@.len() == NONCE_LEN
                &&& signs(s, self.token@, self.secret@)
            },
            r matches Err(e) ==> e == SigningError::ClockUnavailable,
    {
        generate_signature(self.token.as_str(), self.secret.as_str())
    }

    /// Freshly signed authentication headers.
    pub fn auth_headers(&self) -> (r: Result<Vec<(String, String)>, ApiError>)
        ensures
            r matches Ok(h) ==> signed_headers(header_view(h@), self.token@, self.secret@),
            r matches Err(e) ==> e == ApiError::Signing(SigningError::ClockUnavailable),
    {
        match self.generate_signature() {
            Ok(sig) => {
                let headers = header_pairs(self.token.as_str(), &sig);
                assert(auth_header_view(
                    self.token@,
                    sig.timestamp@,
                    sig.nonce@,
                    signature_of(self.token@, self.secret@, sig.timestamp@, sig.nonce@),
                ) == header_view(headers@));
                Ok(headers)
            },
            Err(e) => Err(ApiError::Signing(e)),
        }
    }

    /// The signed request that lists the devices.
    pub fn device_list_request(&self) -> (r: Result<HttpRequest, ApiError>)
        ensures
            r matches Ok(req) ==> {
                &&& req.method == HttpMethod::Get
                &&& req.url@ == device_list_url(self.host@)
                &&& signed_headers(header_view(req.headers@), self.token@, self.secret@)
                &&& req.body is None
            },
            r matches Err(e) ==> e == ApiError::Signing(SigningError::ClockUnavailable),
    {
        let headers = match self.auth_headers() {
            Ok(h) => h,
            Err(e) => return Err(e),
        };
        let mut url = self.host.clone();
        url.append("/devices");
        Ok(HttpRequest { method: HttpMethod::Get, url, headers, body: None })
    }

    /// The signed request that sends `command` to the device `id`.
    pub fn command_request(&self, id: &DeviceId, command: &Command) -> (r: Result<
        HttpRequest,
        ApiError,
    >)
        ensures
            r matches Ok(req) ==> {
                &&& req.method == HttpMethod::Post
                &&& req.url@ == command_url(self.host@, id@)
                &&& signed_headers(header_view(req.headers@), self.token@, self.secret@)
                &&& (req.body matches Some(b) && b@ == body_json(wire_body(command@)))
            },
            r matches Err(e) ==> e == ApiError::Signing(SigningError::ClockUnavailable),
    {
        let body = command.to_request_body().to_json();
        let headers = match self.auth_headers() {
            Ok(h) => h,
            Err(e) => return Err(e),
        };
        let mut url = self.host.clone();
        url.append("/devices/");
        url.append(id.as_str());
        url.append("/commands");
        Ok(HttpRequest { method: HttpMethod::Post, url, headers, body: Some(body) })
    }
}

/// The devices that a device-list call yields, given the HTTP status and
/// the body as parsed (or the parser's complaint). A non-success status
/// fails with that status whatever the body.
pub fn device_list_outcome(status: u16, body: Result<DeviceListResponse, String>) -> (r: Result<
    Vec<Device>,
    ApiError,
>)
    ensures
        !is_success_status(status) ==> r == Err::<Vec<Device>, ApiError>(
            ApiError::Transport { status: Some(status) },
        ),
        is_success_status(status) && body is Err ==> (r matches Err(
            ApiError::Deserialization { context },
        ) && context@ == body->Err_0@),
        is_success_status(status) && body is Ok ==> (r matches Ok(devices)
            && devices@.map_values(|d: Device| d@) == listed_devices(body->Ok_0.body)),
{
    if !is_success(status) {
        return Err(ApiError::Transport { status: Some(status) });
    }
    match body {
        Ok(res) => Ok(to_device_list(res)),
        Err(context) => Err(ApiError::Deserialization { context }),
    }
}

/// The result of a command call, given the HTTP status and whether the body
/// parsed as a response envelope (or the parser's complaint). A non-success
/// status fails with that status whatever the body.
pub fn command_outcome(status: u16, body: Result<(), String>) -> (r: Result<(), ApiError>)
    ensures
        !is_success_status(status) ==> r == Err::<(), ApiError>(
            ApiError::Transport { status: Some(status) },
        ),
        is_success_status(status) && body is Err ==> (r matches Err(
            ApiError::Deserialization { context },
        ) && context@ == body->Err_0@),
        is_success_status(status) && body is Ok ==> r is Ok,
{
    if !is_success(status) {
        return Err(ApiError::Transport { status: Some(status) });
    }
    match body {
        Ok(()) => Ok(()),
        Err(context) => Err(ApiError::Deserialization { context }),
    }
}

fn duplicate(d: &Device) -> (r: Device)
    ensures
        r@ == d@,
{
    Device {
        id: DeviceId::new(d.id.value()),
        name: d.name.clone(),
        device_type: d.device_type.clone(),
        is_infrared: d.is_infrared,
        hub_device_id: d.hub_device_id.clone(),
    }
}

/// The first listed device with identifier `id`.
pub fn find_device(devices: &Vec<Device>, id: &DeviceId) -> (r: Result<Device, ApiError>)
    ensures
        r is Ok <==> exists|i: int| 0 <= i < devices@.len() && (#[trigger] devices@[i]).id@ == id@,
        r matches Ok(d) ==> exists|i: int|
            0 <= i < devices@.len() && d@ == (#[trigger] devices@[i])@ && d.id@ == id@ && forall|
                j: int,
            |
                0 <= j < i ==> (#[trigger] devices@[j]).id@ != id@,
        r matches Err(e) ==> e == ApiError::DeviceNotFound,
{
    let n = devices.len();
    let mut i: usize = 0;
    while i < n
        invariant
            i <= n,
            n == devices@.len(),
            forall|j: int| 0 <= j < i ==> (#[trigger] devices@[j]).id@ != id@,
        decreases n - i,
    {
        if str_eq(devices[i].id.as_str(), id.as_str()) {
            let d = duplicate(&devices[i]);
            assert(d@ == devices@[i as int]@);
            return Ok(d);
        }
        i = i + 1;
    }
    Err(ApiError::DeviceNotFound)
}

} // verus!
